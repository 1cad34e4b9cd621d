//! The handler: the authoritative dispatcher for client commands.
//!
//! [`process`] takes one parsed command, the shared store and a view of
//! the engine's volatile state, mutates the store, and returns the
//! ordered list of effects the session loop must perform: replies to
//! the requesting client, broadcasts to all clients, and commands for
//! the ticker, the controller and the communicator.

use vstd::prelude::*;
use vstd::string::*;
use crate::command::{ClientCommand, CommunicatorCommand, ServerCommand, Severity};
use crate::controller::ControllerCommand;
use crate::models::{
    Event, EventView, Pattern, PatternView, Slider, SliderView, Track, TrackView,
};
use crate::osc::{MinOscArg, MinOscArgView, MinOscMessage, MinOscMessageView};
use crate::store::{has_key, index_of_key, lookup, Store, StoreView};
use crate::ticker::TickerCommand;

verus! {

/// A view of the engine's volatile state, read by the `Request*`
/// commands: the last published tick pair, the tempo bits, the
/// transport flag, the connection flag, and the playback context.
#[derive(Debug, PartialEq)]
pub struct EngineView {
    pub tick: Option<usize>,
    pub max: usize,
    pub bpm: u32,
    pub playing: bool,
    pub connected: bool,
    pub context: Option<String>,
}

/// One thing the session loop must do after a command: reply to the
/// requesting client alone, broadcast to every client, or forward a
/// command to the ticker, the controller or the communicator.
#[derive(Debug, PartialEq)]
pub enum Effect {
    Respond(ClientCommand),
    Broadcast(ClientCommand),
    Ticker(TickerCommand),
    Controller(ControllerCommand),
    Comm(CommunicatorCommand),
}

/// The effect is an error notification to the requesting client alone.
pub open spec fn is_error_notify(e: Effect) -> bool {
    e matches Effect::Respond(ClientCommand::Notify { severity: Severity::Error, .. })
}

/// The pattern an add creates: no pages, path `"/"`.
pub open spec fn init_pattern(name: Seq<char>) -> PatternView {
    PatternView {
        name,
        page_count: 0,
        midi_path: "/"@,
        midi_codes: Seq::empty(),
        messages: Seq::empty(),
    }
}

/// The track an add creates: inactive, not looping, empty playlist.
pub open spec fn init_track(name: Seq<char>) -> TrackView {
    TrackView { name, active: false, looping: false, progress: None, patterns: Seq::empty() }
}

/// The event an add creates: path `"/"`, default payload.
pub open spec fn init_event(name: Seq<char>) -> EventView {
    EventView { name, path: "/"@, shortcut: None, payload: MinOscArgView::Str("/"@) }
}

/// The slider an add creates: path `"/"`, value and minimum zero,
/// maximum one.
pub open spec fn init_slider(name: Seq<char>) -> SliderView {
    SliderView { name, path: "/"@, val: 0, max: 0x3F80_0000, min: 0 }
}

/// The pattern an edit stores: the payload renamed to the key it is
/// stored under, with its grids resized to span exactly its page count
/// — surplus pages dropped, missing pages empty.  This keeps the
/// stored-name and grid invariants whatever the payload carried.
pub open spec fn normalized_pattern(pv: PatternView, key: Seq<char>) -> PatternView {
    PatternView {
        name: key,
        page_count: pv.page_count,
        midi_path: pv.midi_path,
        midi_codes: crate::models::resized_grid(
            pv.midi_codes,
            pv.page_count as int,
            crate::models::empty_code_page(),
        ),
        messages: Seq::new(
            pv.messages.len(),
            |i: int|
                crate::models::MessagesView {
                    payload: pv.messages[i].payload,
                    actives: crate::models::resized_grid(
                        pv.messages[i].actives,
                        pv.page_count as int,
                        crate::models::empty_bool_page(),
                    ),
                },
        ),
    }
}

/// The track an edit stores: the payload renamed to the key it is
/// stored under.
pub open spec fn renamed_track(tv: TrackView, key: Seq<char>) -> TrackView {
    TrackView {
        name: key,
        active: tv.active,
        looping: tv.looping,
        progress: tv.progress,
        patterns: tv.patterns,
    }
}

/// The event an edit stores: the payload renamed to the key it is
/// stored under.
pub open spec fn renamed_event(ev: EventView, key: Seq<char>) -> EventView {
    EventView { name: key, path: ev.path, shortcut: ev.shortcut, payload: ev.payload }
}

/// The slider an edit stores: the payload renamed to the key it is
/// stored under.
pub open spec fn renamed_slider(sv: SliderView, key: Seq<char>) -> SliderView {
    SliderView { name: key, path: sv.path, val: sv.val, max: sv.max, min: sv.min }
}

/// Everything but the pattern map is unchanged.
pub open spec fn same_but_patterns(pre: StoreView, post: StoreView) -> bool {
    &&& post.name == pre.name
    &&& post.bpm == pre.bpm
    &&& post.target_addr == pre.target_addr
    &&& post.tracks == pre.tracks
    &&& post.events == pre.events
    &&& post.sliders == pre.sliders
}

/// Everything but the track map is unchanged.
pub open spec fn same_but_tracks(pre: StoreView, post: StoreView) -> bool {
    &&& post.name == pre.name
    &&& post.bpm == pre.bpm
    &&& post.target_addr == pre.target_addr
    &&& post.patterns == pre.patterns
    &&& post.events == pre.events
    &&& post.sliders == pre.sliders
}

/// Everything but the event map is unchanged.
pub open spec fn same_but_events(pre: StoreView, post: StoreView) -> bool {
    &&& post.name == pre.name
    &&& post.bpm == pre.bpm
    &&& post.target_addr == pre.target_addr
    &&& post.patterns == pre.patterns
    &&& post.tracks == pre.tracks
    &&& post.sliders == pre.sliders
}

/// Everything but the slider map is unchanged.
pub open spec fn same_but_sliders(pre: StoreView, post: StoreView) -> bool {
    &&& post.name == pre.name
    &&& post.bpm == pre.bpm
    &&& post.target_addr == pre.target_addr
    &&& post.patterns == pre.patterns
    &&& post.tracks == pre.tracks
    &&& post.events == pre.events
}

/// The whole store is unchanged.
pub open spec fn store_unchanged(pre: StoreView, post: StoreView) -> bool {
    &&& same_but_patterns(pre, post)
    &&& post.patterns == pre.patterns
}

/// Build an error notification for the requesting client: the entity
/// kind and name are woven into the summary and detail texts.
fn notify_error(summary: &str, prefix: &str, name: &String, suffix: &str) -> (c: ClientCommand)
    ensures
        c matches ClientCommand::Notify { severity: Severity::Error, .. },
{
    let mut detail = String::from_str(prefix);
    detail.append(name.as_str());
    detail.append(suffix);
    ClientCommand::Notify { severity: Severity::Error, summary: String::from_str(summary), detail }
}

/// Every stored pattern carries the name it is keyed under.
pub open spec fn pattern_names_match(s: Seq<(Seq<char>, PatternView)>) -> bool {
    forall|i: int| 0 <= i < s.len() ==> (#[trigger] s[i]).1.name == s[i].0
}

/// Every stored track carries the name it is keyed under.
pub open spec fn track_names_match(s: Seq<(Seq<char>, TrackView)>) -> bool {
    forall|i: int| 0 <= i < s.len() ==> (#[trigger] s[i]).1.name == s[i].0
}

/// Every stored event carries the name it is keyed under.
pub open spec fn event_names_match(s: Seq<(Seq<char>, EventView)>) -> bool {
    forall|i: int| 0 <= i < s.len() ==> (#[trigger] s[i]).1.name == s[i].0
}

/// Every stored slider carries the name it is keyed under.
pub open spec fn slider_names_match(s: Seq<(Seq<char>, SliderView)>) -> bool {
    forall|i: int| 0 <= i < s.len() ==> (#[trigger] s[i]).1.name == s[i].0
}

/// Every entity in the store carries the name it is keyed under.
pub open spec fn names_match(v: StoreView) -> bool {
    &&& pattern_names_match(v.patterns)
    &&& track_names_match(v.tracks)
    &&& event_names_match(v.events)
    &&& slider_names_match(v.sliders)
}

/// Every stored pattern's grids span exactly its page count.
pub open spec fn patterns_all_wf(s: Seq<(Seq<char>, PatternView)>) -> bool {
    forall|i: int| 0 <= i < s.len() ==> crate::models::pattern_wf((#[trigger] s[i]).1)
}

/// What `PatternAdd` does: with a fresh name, store a new pattern under
/// it and broadcast it; with a taken name, change nothing and notify
/// the sender of the error.
pub open spec fn pattern_add_post(
    pre: StoreView,
    post: StoreView,
    name: Seq<char>,
    effects: Seq<Effect>,
) -> bool {
    &&& same_but_patterns(pre, post)
    &&& effects.len() == 1
    &&& if has_key(pre.patterns, name) {
        &&& post.patterns == pre.patterns
        &&& is_error_notify(effects[0])
    } else {
        &&& post.patterns == pre.patterns.push((name, init_pattern(name)))
        &&& effects[0] matches Effect::Broadcast(ClientCommand::PatternAdded { name: n, pattern: p })
            && n@ == name && p@ == init_pattern(name)
    }
}

/// What `PatternDelete` does: remove the named pattern and broadcast
/// the deletion, or notify the sender that the name is unknown.
pub open spec fn pattern_delete_post(
    pre: StoreView,
    post: StoreView,
    name: Seq<char>,
    effects: Seq<Effect>,
) -> bool {
    &&& same_but_patterns(pre, post)
    &&& effects.len() == 1
    &&& if has_key(pre.patterns, name) {
        &&& post.patterns == pre.patterns.remove(index_of_key(pre.patterns, name))
        &&& effects[0] matches Effect::Broadcast(ClientCommand::PatternDeleted { name: n }) && n@
            == name
    } else {
        &&& post.patterns == pre.patterns
        &&& is_error_notify(effects[0])
    }
}

/// What `PatternEdit` does: replace the named pattern in place with
/// the normalized payload — renamed to its key, grids spanning its
/// page count — and broadcast the stored entity; or notify the sender
/// that the name is unknown.
pub open spec fn pattern_edit_post(
    pre: StoreView,
    post: StoreView,
    name: Seq<char>,
    pv: PatternView,
    effects: Seq<Effect>,
) -> bool {
    &&& same_but_patterns(pre, post)
    &&& effects.len() == 1
    &&& if has_key(pre.patterns, name) {
        &&& post.patterns == pre.patterns.update(
            index_of_key(pre.patterns, name),
            (pre.patterns[index_of_key(pre.patterns, name)].0, normalized_pattern(pv, name)),
        )
        &&& effects[0] matches Effect::Broadcast(ClientCommand::PatternEdited { name: n, pattern: p })
            && n@ == name && p@ == normalized_pattern(pv, name)
    } else {
        &&& post.patterns == pre.patterns
        &&& is_error_notify(effects[0])
    }
}

/// Handle `PatternAdd`.
pub fn pattern_add(store: &mut Store, name: String) -> (effects: Vec<Effect>)
    ensures
        pattern_add_post(old(store)@, final(store)@, name@, effects@),
        crate::store::map_wf(old(store)@.patterns) ==> crate::store::map_wf(
            final(store)@.patterns,
        ),
        pattern_names_match(old(store)@.patterns) ==> pattern_names_match(final(store)@.patterns),
        patterns_all_wf(old(store)@.patterns) ==> patterns_all_wf(final(store)@.patterns),
{
    let mut effects: Vec<Effect> = Vec::new();
    if store.patterns.contains(&name) {
        effects.push(Effect::Respond(notify_error(
            "Failed to Add Pattern",
            "Pattern with name \"",
            &name,
            "\" already exists",
        )));
    } else {
        let ghost pre = store@.patterns;
        let pattern = Pattern::new(name.clone());
        let bcast = ClientCommand::PatternAdded { name: name.clone(), pattern: pattern.clone() };
        store.patterns.insert_new(name, pattern);
        effects.push(Effect::Broadcast(bcast));
        proof {
            if crate::store::map_wf(pre) {
                crate::store::lemma_push_wf(pre, (name@, init_pattern(name@)));
            }
        }
    }
    effects
}

/// Handle `PatternDelete`.
pub fn pattern_delete(store: &mut Store, name: String) -> (effects: Vec<Effect>)
    ensures
        pattern_delete_post(old(store)@, final(store)@, name@, effects@),
        crate::store::map_wf(old(store)@.patterns) ==> crate::store::map_wf(
            final(store)@.patterns,
        ),
        pattern_names_match(old(store)@.patterns) ==> pattern_names_match(final(store)@.patterns),
        patterns_all_wf(old(store)@.patterns) ==> patterns_all_wf(final(store)@.patterns),
{
    let mut effects: Vec<Effect> = Vec::new();
    let ghost pre = store@.patterns;
    if store.patterns.remove(&name) {
        effects.push(Effect::Broadcast(ClientCommand::PatternDeleted { name }));
        proof {
            crate::store::lemma_index_of_key(pre, name@);
            if crate::store::map_wf(pre) {
                crate::store::lemma_remove_wf(pre, index_of_key(pre, name@));
            }
        }
    } else {
        effects.push(Effect::Respond(notify_error(
            "Failed to Delete Pattern",
            "Pattern with name \"",
            &name,
            "\" does not exist",
        )));
    }
    effects
}

/// Handle `PatternEdit`.
pub fn pattern_edit(store: &mut Store, name: String, pattern: Pattern) -> (effects: Vec<Effect>)
    ensures
        pattern_edit_post(old(store)@, final(store)@, name@, pattern@, effects@),
        crate::store::map_wf(old(store)@.patterns) ==> crate::store::map_wf(
            final(store)@.patterns,
        ),
        pattern_names_match(old(store)@.patterns) ==> pattern_names_match(final(store)@.patterns),
        patterns_all_wf(old(store)@.patterns) ==> patterns_all_wf(final(store)@.patterns),
{
    let mut effects: Vec<Effect> = Vec::new();
    let ghost pre = store@.patterns;
    let ghost pv = pattern@;
    let mut pattern = pattern;
    pattern.name = name.clone();
    let pc = pattern.page_count;
    pattern.resize(pc);
    proof {
        assert(pattern@ =~= normalized_pattern(pv, name@));
        assert(crate::models::pattern_wf(normalized_pattern(pv, name@)));
    }
    let bcast_pattern = pattern.clone();
    if store.patterns.replace(&name, pattern) {
        effects.push(Effect::Broadcast(ClientCommand::PatternEdited {
            name,
            pattern: bcast_pattern,
        }));
        proof {
            crate::store::lemma_index_of_key(pre, name@);
            if crate::store::map_wf(pre) {
                crate::store::lemma_update_wf(
                    pre,
                    index_of_key(pre, name@),
                    normalized_pattern(pv, name@),
                );
            }
        }
    } else {
        effects.push(Effect::Respond(notify_error(
            "Failed to Edit Pattern",
            "Pattern with name \"",
            &name,
            "\" does not exist",
        )));
    }
    effects
}

/// What `TrackAdd` does: with a fresh name, store a new track under it
/// and broadcast it; with a taken name, change nothing and notify the
/// sender of the error.
pub open spec fn track_add_post(
    pre: StoreView,
    post: StoreView,
    name: Seq<char>,
    effects: Seq<Effect>,
) -> bool {
    &&& same_but_tracks(pre, post)
    &&& effects.len() == 1
    &&& if has_key(pre.tracks, name) {
        &&& post.tracks == pre.tracks
        &&& is_error_notify(effects[0])
    } else {
        &&& post.tracks == pre.tracks.push((name, init_track(name)))
        &&& effects[0] matches Effect::Broadcast(ClientCommand::TrackAdded { name: n, track: t })
            && n@ == name && t@ == init_track(name)
    }
}

/// What `TrackDelete` does: remove the named track and broadcast the
/// deletion, or notify the sender that the name is unknown.
pub open spec fn track_delete_post(
    pre: StoreView,
    post: StoreView,
    name: Seq<char>,
    effects: Seq<Effect>,
) -> bool {
    &&& same_but_tracks(pre, post)
    &&& effects.len() == 1
    &&& if has_key(pre.tracks, name) {
        &&& post.tracks == pre.tracks.remove(index_of_key(pre.tracks, name))
        &&& effects[0] matches Effect::Broadcast(ClientCommand::TrackDeleted { name: n }) && n@
            == name
    } else {
        &&& post.tracks == pre.tracks
        &&& is_error_notify(effects[0])
    }
}

/// What `TrackEdit` does: replace the named track in place with the
/// payload renamed to its key, and broadcast the stored entity; or
/// notify the sender that the name is unknown.
pub open spec fn track_edit_post(
    pre: StoreView,
    post: StoreView,
    name: Seq<char>,
    tv: TrackView,
    effects: Seq<Effect>,
) -> bool {
    &&& same_but_tracks(pre, post)
    &&& effects.len() == 1
    &&& if has_key(pre.tracks, name) {
        &&& post.tracks == pre.tracks.update(
            index_of_key(pre.tracks, name),
            (pre.tracks[index_of_key(pre.tracks, name)].0, renamed_track(tv, name)),
        )
        &&& effects[0] matches Effect::Broadcast(ClientCommand::TrackEdited { name: n, track: t })
            && n@ == name && t@ == renamed_track(tv, name)
    } else {
        &&& post.tracks == pre.tracks
        &&& is_error_notify(effects[0])
    }
}

/// The progress `TrackMakeActive` leaves behind: forced on, it restarts
/// at the published tick's position within a page; forced off, it is
/// cleared; unforced, it is untouched.
pub open spec fn forced_progress(
    t: TrackView,
    active: bool,
    force: bool,
    tick: Option<usize>,
) -> Option<nat> {
    if force {
        if active {
            match tick {
                Some(x) => Some((x % 4) as nat),
                None => None,
            }
        } else {
            None
        }
    } else {
        t.progress
    }
}

/// What `TrackMakeActive` does: set the named track's active flag —
/// and, when forced, its progress — then broadcast the flag and the
/// progress; or notify the sender that the name is unknown.
pub open spec fn track_make_active_post(
    pre: StoreView,
    post: StoreView,
    name: Seq<char>,
    active: bool,
    force: bool,
    tick: Option<usize>,
    effects: Seq<Effect>,
) -> bool {
    &&& same_but_tracks(pre, post)
    &&& if has_key(pre.tracks, name) {
        let idx = index_of_key(pre.tracks, name);
        let t = pre.tracks[idx].1;
        let p2 = forced_progress(t, active, force, tick);
        let t2 = TrackView {
            name: t.name,
            active,
            looping: t.looping,
            progress: p2,
            patterns: t.patterns,
        };
        &&& post.tracks == pre.tracks.update(idx, (pre.tracks[idx].0, t2))
        &&& effects.len() == 2
        &&& effects[0] matches Effect::Broadcast(ClientCommand::TrackMadeActive { name: n, active: a })
            && n@ == name && a == active
        &&& effects[1] matches Effect::Broadcast(
            ClientCommand::TrackProgressUpdate { name: n2, progress: p },
        ) && n2@ == t.name && (match (p, p2) {
            (Some(a), Some(b)) => a as nat == b,
            (None, None) => true,
            _ => false,
        })
    } else {
        &&& post.tracks == pre.tracks
        &&& effects.len() == 1
        &&& is_error_notify(effects[0])
    }
}

/// What `TrackMakeLoop` does: set the named track's loop flag and
/// broadcast it, or notify the sender that the name is unknown.
pub open spec fn track_make_loop_post(
    pre: StoreView,
    post: StoreView,
    name: Seq<char>,
    looping: bool,
    effects: Seq<Effect>,
) -> bool {
    &&& same_but_tracks(pre, post)
    &&& if has_key(pre.tracks, name) {
        let idx = index_of_key(pre.tracks, name);
        let t = pre.tracks[idx].1;
        let t2 = TrackView {
            name: t.name,
            active: t.active,
            looping,
            progress: t.progress,
            patterns: t.patterns,
        };
        &&& post.tracks == pre.tracks.update(idx, (pre.tracks[idx].0, t2))
        &&& effects.len() == 1
        &&& effects[0] matches Effect::Broadcast(ClientCommand::TrackMadeLoop { name: n, looping: l })
            && n@ == name && l == looping
    } else {
        &&& post.tracks == pre.tracks
        &&& effects.len() == 1
        &&& is_error_notify(effects[0])
    }
}

/// Handle `TrackAdd`.
pub fn track_add(store: &mut Store, name: String) -> (effects: Vec<Effect>)
    ensures
        track_add_post(old(store)@, final(store)@, name@, effects@),
        crate::store::map_wf(old(store)@.tracks) ==> crate::store::map_wf(final(store)@.tracks),
        track_names_match(old(store)@.tracks) ==> track_names_match(final(store)@.tracks),
{
    let mut effects: Vec<Effect> = Vec::new();
    if store.tracks.contains(&name) {
        effects.push(Effect::Respond(notify_error(
            "Failed to Add Track",
            "Track with name \"",
            &name,
            "\" already exists",
        )));
    } else {
        let ghost pre = store@.tracks;
        let track = Track::new(name.clone());
        let bcast = ClientCommand::TrackAdded { name: name.clone(), track: track.clone() };
        store.tracks.insert_new(name, track);
        effects.push(Effect::Broadcast(bcast));
        proof {
            if crate::store::map_wf(pre) {
                crate::store::lemma_push_wf(pre, (name@, init_track(name@)));
            }
        }
    }
    effects
}

/// Handle `TrackDelete`.
pub fn track_delete(store: &mut Store, name: String) -> (effects: Vec<Effect>)
    ensures
        track_delete_post(old(store)@, final(store)@, name@, effects@),
        crate::store::map_wf(old(store)@.tracks) ==> crate::store::map_wf(final(store)@.tracks),
        track_names_match(old(store)@.tracks) ==> track_names_match(final(store)@.tracks),
{
    let mut effects: Vec<Effect> = Vec::new();
    let ghost pre = store@.tracks;
    if store.tracks.remove(&name) {
        effects.push(Effect::Broadcast(ClientCommand::TrackDeleted { name }));
        proof {
            crate::store::lemma_index_of_key(pre, name@);
            if crate::store::map_wf(pre) {
                crate::store::lemma_remove_wf(pre, index_of_key(pre, name@));
            }
        }
    } else {
        effects.push(Effect::Respond(notify_error(
            "Failed to Delete Track",
            "Track with name \"",
            &name,
            "\" does not exist",
        )));
    }
    effects
}

/// Handle `TrackEdit`.
pub fn track_edit(store: &mut Store, name: String, track: Track) -> (effects: Vec<Effect>)
    ensures
        track_edit_post(old(store)@, final(store)@, name@, track@, effects@),
        crate::store::map_wf(old(store)@.tracks) ==> crate::store::map_wf(final(store)@.tracks),
        track_names_match(old(store)@.tracks) ==> track_names_match(final(store)@.tracks),
{
    let mut effects: Vec<Effect> = Vec::new();
    let ghost pre = store@.tracks;
    let ghost tv = track@;
    let mut track = track;
    track.name = name.clone();
    proof {
        assert(track@ =~= renamed_track(tv, name@));
    }
    let bcast_track = track.clone();
    if store.tracks.replace(&name, track) {
        effects.push(Effect::Broadcast(ClientCommand::TrackEdited { name, track: bcast_track }));
        proof {
            crate::store::lemma_index_of_key(pre, name@);
            if crate::store::map_wf(pre) {
                crate::store::lemma_update_wf(pre, index_of_key(pre, name@), renamed_track(tv, name@));
            }
        }
    } else {
        effects.push(Effect::Respond(notify_error(
            "Failed to Edit Track",
            "Track with name \"",
            &name,
            "\" does not exist",
        )));
    }
    effects
}

/// Handle `TrackMakeActive`.
pub fn track_make_active(
    store: &mut Store,
    name: String,
    active: bool,
    force: bool,
    tick: Option<usize>,
) -> (effects: Vec<Effect>)
    ensures
        track_make_active_post(old(store)@, final(store)@, name@, active, force, tick, effects@),
        crate::store::map_wf(old(store)@.tracks) ==> crate::store::map_wf(final(store)@.tracks),
        track_names_match(old(store)@.tracks) ==> track_names_match(final(store)@.tracks),
{
    let mut effects: Vec<Effect> = Vec::new();
    let ghost pre = store@.tracks;
    let found = match store.tracks.get(&name) {
        Some(tr) => Some(tr.clone()),
        None => None,
    };
    match found {
        Some(mut t) => {
            t.active = active;
            if force {
                if active {
                    t.progress = match tick {
                        Some(x) => Some(x % 4),
                        None => None,
                    };
                } else {
                    t.progress = None;
                }
            }
            effects.push(Effect::Broadcast(ClientCommand::TrackMadeActive {
                name: name.clone(),
                active,
            }));
            effects.push(Effect::Broadcast(ClientCommand::TrackProgressUpdate {
                name: t.name.clone(),
                progress: t.progress,
            }));
            let ghost tv = t@;
            store.tracks.replace(&name, t);
            proof {
                crate::store::lemma_index_of_key(pre, name@);
                if crate::store::map_wf(pre) {
                    crate::store::lemma_update_wf(pre, index_of_key(pre, name@), tv);
                }
            }
        },
        None => {
            effects.push(Effect::Respond(notify_error(
                "Failed to Make Active",
                "Track with name \"",
                &name,
                "\" does not exist",
            )));
        },
    }
    effects
}

/// Handle `TrackMakeLoop`.
pub fn track_make_loop(store: &mut Store, name: String, looping: bool) -> (effects: Vec<Effect>)
    ensures
        track_make_loop_post(old(store)@, final(store)@, name@, looping, effects@),
        crate::store::map_wf(old(store)@.tracks) ==> crate::store::map_wf(final(store)@.tracks),
        track_names_match(old(store)@.tracks) ==> track_names_match(final(store)@.tracks),
{
    let mut effects: Vec<Effect> = Vec::new();
    let ghost pre = store@.tracks;
    let found = match store.tracks.get(&name) {
        Some(tr) => Some(tr.clone()),
        None => None,
    };
    match found {
        Some(mut t) => {
            t.looping = looping;
            effects.push(Effect::Broadcast(ClientCommand::TrackMadeLoop {
                name: name.clone(),
                looping,
            }));
            let ghost tv = t@;
            store.tracks.replace(&name, t);
            proof {
                crate::store::lemma_index_of_key(pre, name@);
                if crate::store::map_wf(pre) {
                    crate::store::lemma_update_wf(pre, index_of_key(pre, name@), tv);
                }
            }
        },
        None => {
            effects.push(Effect::Respond(notify_error(
                "Failed to Make Loop",
                "Track with name \"",
                &name,
                "\" does not exist",
            )));
        },
    }
    effects
}

/// What `EventAdd` does: with a fresh name, store a new event under it
/// and broadcast it; with a taken name, change nothing and notify the
/// sender of the error.
pub open spec fn event_add_post(
    pre: StoreView,
    post: StoreView,
    name: Seq<char>,
    effects: Seq<Effect>,
) -> bool {
    &&& same_but_events(pre, post)
    &&& effects.len() == 1
    &&& if has_key(pre.events, name) {
        &&& post.events == pre.events
        &&& is_error_notify(effects[0])
    } else {
        &&& post.events == pre.events.push((name, init_event(name)))
        &&& effects[0] matches Effect::Broadcast(ClientCommand::EventAdded { name: n, event: e })
            && n@ == name && e@ == init_event(name)
    }
}

/// What `EventDelete` does: remove the named event and broadcast the
/// deletion, or notify the sender that the name is unknown.
pub open spec fn event_delete_post(
    pre: StoreView,
    post: StoreView,
    name: Seq<char>,
    effects: Seq<Effect>,
) -> bool {
    &&& same_but_events(pre, post)
    &&& effects.len() == 1
    &&& if has_key(pre.events, name) {
        &&& post.events == pre.events.remove(index_of_key(pre.events, name))
        &&& effects[0] matches Effect::Broadcast(ClientCommand::EventDeleted { name: n }) && n@
            == name
    } else {
        &&& post.events == pre.events
        &&& is_error_notify(effects[0])
    }
}

/// What `EventEdit` does: replace the named event in place with the
/// payload renamed to its key, and broadcast the stored entity; or
/// notify the sender that the name is unknown.
pub open spec fn event_edit_post(
    pre: StoreView,
    post: StoreView,
    name: Seq<char>,
    ev: EventView,
    effects: Seq<Effect>,
) -> bool {
    &&& same_but_events(pre, post)
    &&& effects.len() == 1
    &&& if has_key(pre.events, name) {
        &&& post.events == pre.events.update(
            index_of_key(pre.events, name),
            (pre.events[index_of_key(pre.events, name)].0, renamed_event(ev, name)),
        )
        &&& effects[0] matches Effect::Broadcast(ClientCommand::EventEdited { name: n, event: e })
            && n@ == name && e@ == renamed_event(ev, name)
    } else {
        &&& post.events == pre.events
        &&& is_error_notify(effects[0])
    }
}

/// What `EventFire` does: send the named event's payload on its path
/// to the target, or notify the sender that the name is unknown.  The
/// store never changes.
pub open spec fn event_fire_post(
    pre: StoreView,
    post: StoreView,
    name: Seq<char>,
    effects: Seq<Effect>,
) -> bool {
    &&& store_unchanged(pre, post)
    &&& effects.len() == 1
    &&& if has_key(pre.events, name) {
        effects[0] matches Effect::Comm(CommunicatorCommand::SendMessage { msg }) && msg@ == (
        MinOscMessageView {
            path: lookup(pre.events, name).path,
            arg: lookup(pre.events, name).payload,
        })
    } else {
        is_error_notify(effects[0])
    }
}

/// Handle `EventAdd`.
pub fn event_add(store: &mut Store, name: String) -> (effects: Vec<Effect>)
    ensures
        event_add_post(old(store)@, final(store)@, name@, effects@),
        crate::store::map_wf(old(store)@.events) ==> crate::store::map_wf(final(store)@.events),
        event_names_match(old(store)@.events) ==> event_names_match(final(store)@.events),
{
    let mut effects: Vec<Effect> = Vec::new();
    if store.events.contains(&name) {
        effects.push(Effect::Respond(notify_error(
            "Failed to Add Event",
            "Event with name \"",
            &name,
            "\" already exists",
        )));
    } else {
        let ghost pre = store@.events;
        let event = Event::new(name.clone());
        let bcast = ClientCommand::EventAdded { name: name.clone(), event: event.clone() };
        store.events.insert_new(name, event);
        effects.push(Effect::Broadcast(bcast));
        proof {
            if crate::store::map_wf(pre) {
                crate::store::lemma_push_wf(pre, (name@, init_event(name@)));
            }
        }
    }
    effects
}

/// Handle `EventDelete`.
pub fn event_delete(store: &mut Store, name: String) -> (effects: Vec<Effect>)
    ensures
        event_delete_post(old(store)@, final(store)@, name@, effects@),
        crate::store::map_wf(old(store)@.events) ==> crate::store::map_wf(final(store)@.events),
        event_names_match(old(store)@.events) ==> event_names_match(final(store)@.events),
{
    let mut effects: Vec<Effect> = Vec::new();
    let ghost pre = store@.events;
    if store.events.remove(&name) {
        effects.push(Effect::Broadcast(ClientCommand::EventDeleted { name }));
        proof {
            crate::store::lemma_index_of_key(pre, name@);
            if crate::store::map_wf(pre) {
                crate::store::lemma_remove_wf(pre, index_of_key(pre, name@));
            }
        }
    } else {
        effects.push(Effect::Respond(notify_error(
            "Failed to Delete Event",
            "Event with name \"",
            &name,
            "\" does not exist",
        )));
    }
    effects
}

/// Handle `EventEdit`.
pub fn event_edit(store: &mut Store, name: String, event: Event) -> (effects: Vec<Effect>)
    ensures
        event_edit_post(old(store)@, final(store)@, name@, event@, effects@),
        crate::store::map_wf(old(store)@.events) ==> crate::store::map_wf(final(store)@.events),
        event_names_match(old(store)@.events) ==> event_names_match(final(store)@.events),
{
    let mut effects: Vec<Effect> = Vec::new();
    let ghost pre = store@.events;
    let ghost ev = event@;
    let mut event = event;
    event.name = name.clone();
    proof {
        assert(event@ =~= renamed_event(ev, name@));
    }
    let bcast_event = event.clone();
    if store.events.replace(&name, event) {
        effects.push(Effect::Broadcast(ClientCommand::EventEdited { name, event: bcast_event }));
        proof {
            crate::store::lemma_index_of_key(pre, name@);
            if crate::store::map_wf(pre) {
                crate::store::lemma_update_wf(pre, index_of_key(pre, name@), renamed_event(ev, name@));
            }
        }
    } else {
        effects.push(Effect::Respond(notify_error(
            "Failed to Edit Event",
            "Event with name \"",
            &name,
            "\" does not exist",
        )));
    }
    effects
}

/// Handle `EventFire`.
pub fn event_fire(store: &mut Store, name: String) -> (effects: Vec<Effect>)
    ensures
        event_fire_post(old(store)@, final(store)@, name@, effects@),
{
    let mut effects: Vec<Effect> = Vec::new();
    match store.events.get(&name) {
        Some(event) => {
            effects.push(Effect::Comm(CommunicatorCommand::SendMessage {
                msg: MinOscMessage { path: event.path.clone(), arg: event.payload.clone() },
            }));
        },
        None => {
            effects.push(Effect::Respond(notify_error(
                "Failed to Fire Event",
                "Event with name \"",
                &name,
                "\" does not exist",
            )));
        },
    }
    effects
}

/// What `SliderAdd` does: with a fresh name, store a new slider under
/// it and broadcast it; with a taken name, change nothing and notify
/// the sender of the error.
pub open spec fn slider_add_post(
    pre: StoreView,
    post: StoreView,
    name: Seq<char>,
    effects: Seq<Effect>,
) -> bool {
    &&& same_but_sliders(pre, post)
    &&& effects.len() == 1
    &&& if has_key(pre.sliders, name) {
        &&& post.sliders == pre.sliders
        &&& is_error_notify(effects[0])
    } else {
        &&& post.sliders == pre.sliders.push((name, init_slider(name)))
        &&& effects[0] matches Effect::Broadcast(ClientCommand::SliderAdded { name: n, slider: s })
            && n@ == name && s@ == init_slider(name)
    }
}

/// What `SliderDelete` does: remove the named slider and broadcast the
/// deletion, or notify the sender that the name is unknown.
pub open spec fn slider_delete_post(
    pre: StoreView,
    post: StoreView,
    name: Seq<char>,
    effects: Seq<Effect>,
) -> bool {
    &&& same_but_sliders(pre, post)
    &&& effects.len() == 1
    &&& if has_key(pre.sliders, name) {
        &&& post.sliders == pre.sliders.remove(index_of_key(pre.sliders, name))
        &&& effects[0] matches Effect::Broadcast(ClientCommand::SliderDeleted { name: n }) && n@
            == name
    } else {
        &&& post.sliders == pre.sliders
        &&& is_error_notify(effects[0])
    }
}

/// What `SliderEdit` does: replace the named slider in place with the
/// payload renamed to its key, and broadcast the stored entity; or
/// notify the sender that the name is unknown.
pub open spec fn slider_edit_post(
    pre: StoreView,
    post: StoreView,
    name: Seq<char>,
    sv: SliderView,
    effects: Seq<Effect>,
) -> bool {
    &&& same_but_sliders(pre, post)
    &&& effects.len() == 1
    &&& if has_key(pre.sliders, name) {
        &&& post.sliders == pre.sliders.update(
            index_of_key(pre.sliders, name),
            (pre.sliders[index_of_key(pre.sliders, name)].0, renamed_slider(sv, name)),
        )
        &&& effects[0] matches Effect::Broadcast(ClientCommand::SliderEdited { name: n, slider: s })
            && n@ == name && s@ == renamed_slider(sv, name)
    } else {
        &&& post.sliders == pre.sliders
        &&& is_error_notify(effects[0])
    }
}

/// What `SliderSetVal` does: store the new value bits in the named
/// slider, broadcast them, and send the value on the slider's path to
/// the target; or notify the sender that the name is unknown.
pub open spec fn slider_set_val_post(
    pre: StoreView,
    post: StoreView,
    name: Seq<char>,
    val: u32,
    effects: Seq<Effect>,
) -> bool {
    &&& same_but_sliders(pre, post)
    &&& if has_key(pre.sliders, name) {
        let idx = index_of_key(pre.sliders, name);
        let s = pre.sliders[idx].1;
        let s2 = SliderView { name: s.name, path: s.path, val, max: s.max, min: s.min };
        &&& post.sliders == pre.sliders.update(idx, (pre.sliders[idx].0, s2))
        &&& effects.len() == 2
        &&& effects[0] matches Effect::Broadcast(ClientCommand::SliderValSet { name: n, val: v })
            && n@ == name && v == val
        &&& effects[1] matches Effect::Comm(CommunicatorCommand::SendMessage { msg }) && msg@ == (
        MinOscMessageView { path: s.path, arg: MinOscArgView::Float(val) })
    } else {
        &&& post.sliders == pre.sliders
        &&& effects.len() == 1
        &&& is_error_notify(effects[0])
    }
}

/// Handle `SliderAdd`.
pub fn slider_add(store: &mut Store, name: String) -> (effects: Vec<Effect>)
    ensures
        slider_add_post(old(store)@, final(store)@, name@, effects@),
        crate::store::map_wf(old(store)@.sliders) ==> crate::store::map_wf(final(store)@.sliders),
        slider_names_match(old(store)@.sliders) ==> slider_names_match(final(store)@.sliders),
{
    let mut effects: Vec<Effect> = Vec::new();
    if store.sliders.contains(&name) {
        effects.push(Effect::Respond(notify_error(
            "Failed to Add Slider",
            "Slider with name \"",
            &name,
            "\" already exists",
        )));
    } else {
        let ghost pre = store@.sliders;
        let slider = Slider::new(name.clone());
        let bcast = ClientCommand::SliderAdded { name: name.clone(), slider: slider.clone() };
        store.sliders.insert_new(name, slider);
        effects.push(Effect::Broadcast(bcast));
        proof {
            if crate::store::map_wf(pre) {
                crate::store::lemma_push_wf(pre, (name@, init_slider(name@)));
            }
        }
    }
    effects
}

/// Handle `SliderDelete`.
pub fn slider_delete(store: &mut Store, name: String) -> (effects: Vec<Effect>)
    ensures
        slider_delete_post(old(store)@, final(store)@, name@, effects@),
        crate::store::map_wf(old(store)@.sliders) ==> crate::store::map_wf(final(store)@.sliders),
        slider_names_match(old(store)@.sliders) ==> slider_names_match(final(store)@.sliders),
{
    let mut effects: Vec<Effect> = Vec::new();
    let ghost pre = store@.sliders;
    if store.sliders.remove(&name) {
        effects.push(Effect::Broadcast(ClientCommand::SliderDeleted { name }));
        proof {
            crate::store::lemma_index_of_key(pre, name@);
            if crate::store::map_wf(pre) {
                crate::store::lemma_remove_wf(pre, index_of_key(pre, name@));
            }
        }
    } else {
        effects.push(Effect::Respond(notify_error(
            "Failed to Delete Slider",
            "Slider with name \"",
            &name,
            "\" does not exist",
        )));
    }
    effects
}

/// Handle `SliderEdit`.
pub fn slider_edit(store: &mut Store, name: String, slider: Slider) -> (effects: Vec<Effect>)
    ensures
        slider_edit_post(old(store)@, final(store)@, name@, slider@, effects@),
        crate::store::map_wf(old(store)@.sliders) ==> crate::store::map_wf(final(store)@.sliders),
        slider_names_match(old(store)@.sliders) ==> slider_names_match(final(store)@.sliders),
{
    let mut effects: Vec<Effect> = Vec::new();
    let ghost pre = store@.sliders;
    let ghost sv = slider@;
    let mut slider = slider;
    slider.name = name.clone();
    proof {
        assert(slider@ =~= renamed_slider(sv, name@));
    }
    let bcast_slider = slider.clone();
    if store.sliders.replace(&name, slider) {
        effects.push(Effect::Broadcast(ClientCommand::SliderEdited {
            name,
            slider: bcast_slider,
        }));
        proof {
            crate::store::lemma_index_of_key(pre, name@);
            if crate::store::map_wf(pre) {
                crate::store::lemma_update_wf(pre, index_of_key(pre, name@), renamed_slider(sv, name@));
            }
        }
    } else {
        effects.push(Effect::Respond(notify_error(
            "Failed to Edit Slider",
            "Slider with name \"",
            &name,
            "\" does not exist",
        )));
    }
    effects
}

/// Handle `SliderSetVal`.
pub fn slider_set_val(store: &mut Store, name: String, val: u32) -> (effects: Vec<Effect>)
    ensures
        slider_set_val_post(old(store)@, final(store)@, name@, val, effects@),
        crate::store::map_wf(old(store)@.sliders) ==> crate::store::map_wf(final(store)@.sliders),
        slider_names_match(old(store)@.sliders) ==> slider_names_match(final(store)@.sliders),
{
    let mut effects: Vec<Effect> = Vec::new();
    let ghost pre = store@.sliders;
    let found = match store.sliders.get(&name) {
        Some(s) => Some(s.clone()),
        None => None,
    };
    match found {
        Some(mut s) => {
            s.val = val;
            effects.push(Effect::Broadcast(ClientCommand::SliderValSet {
                name: name.clone(),
                val,
            }));
            effects.push(Effect::Comm(CommunicatorCommand::SendMessage {
                msg: MinOscMessage { path: s.path.clone(), arg: MinOscArg::Float(val) },
            }));
            let ghost sv = s@;
            store.sliders.replace(&name, s);
            proof {
                crate::store::lemma_index_of_key(pre, name@);
                if crate::store::map_wf(pre) {
                    crate::store::lemma_update_wf(pre, index_of_key(pre, name@), sv);
                }
            }
        },
        None => {
            effects.push(Effect::Respond(notify_error(
                "Failed to Set Slider Value",
                "Slider with name \"",
                &name,
                "\" does not exist",
            )));
        },
    }
    effects
}

/// What `SetProjectName` does: overwrite the project name and broadcast
/// it.
pub open spec fn set_project_name_post(
    pre: StoreView,
    post: StoreView,
    name: Seq<char>,
    effects: Seq<Effect>,
) -> bool {
    &&& post.name == name
    &&& post.bpm == pre.bpm
    &&& post.target_addr == pre.target_addr
    &&& post.patterns == pre.patterns
    &&& post.tracks == pre.tracks
    &&& post.events == pre.events
    &&& post.sliders == pre.sliders
    &&& effects.len() == 1
    &&& effects[0] matches Effect::Broadcast(ClientCommand::ProjectNameUpdated { name: n }) && n@
        == name
}

/// What `CommChangeAddr` does: retarget the communicator, then
/// broadcast the new address.  The store itself is untouched; the
/// communicator owns the address cell.
pub open spec fn comm_change_addr_post(
    pre: StoreView,
    post: StoreView,
    addr: Seq<char>,
    effects: Seq<Effect>,
) -> bool {
    &&& store_unchanged(pre, post)
    &&& effects.len() == 2
    &&& effects[0] matches Effect::Comm(CommunicatorCommand::ChangeTargetAddr { addr: a }) && a@
        == addr
    &&& effects[1] matches Effect::Broadcast(ClientCommand::CommAddrChanged { addr: a2 }) && a2@
        == addr
}

/// What `CtrlChangeContext` does: verify a named pattern exists, then
/// forward the context switch to the controller and broadcast it;
/// reject an unknown name with an error to the sender; `None` (track
/// mode) always goes through.
pub open spec fn ctrl_change_context_post(
    pre: StoreView,
    post: StoreView,
    context: Option<String>,
    effects: Seq<Effect>,
) -> bool {
    &&& store_unchanged(pre, post)
    &&& match context {
        Some(name) => {
            if has_key(pre.patterns, name@) {
                &&& effects.len() == 2
                &&& effects[0] matches Effect::Controller(
                    ControllerCommand::ChangeContext { context: Some(cs) },
                ) && cs@ == name@
                &&& effects[1] matches Effect::Broadcast(
                    ClientCommand::CtrlContextChanged { context: Some(cs2) },
                ) && cs2@ == name@
            } else {
                &&& effects.len() == 1
                &&& is_error_notify(effects[0])
            }
        },
        None => {
            &&& effects.len() == 2
            &&& effects[0] matches Effect::Controller(
                ControllerCommand::ChangeContext { context: c },
            ) && c is None
            &&& effects[1] matches Effect::Broadcast(
                ClientCommand::CtrlContextChanged { context: c2 },
            ) && c2 is None
        },
    }
}

/// What `TickerStop` does: forward the stop, broadcast it, and clear
/// every track's progress, each clearance broadcast in map order.
pub open spec fn ticker_stop_post(pre: StoreView, post: StoreView, effects: Seq<Effect>) -> bool {
    &&& same_but_tracks(pre, post)
    &&& post.tracks.len() == pre.tracks.len()
    &&& forall|j: int| 0 <= j < pre.tracks.len() ==> #[trigger] post.tracks[j] == (
        pre.tracks[j].0,
        TrackView {
            name: pre.tracks[j].1.name,
            active: pre.tracks[j].1.active,
            looping: pre.tracks[j].1.looping,
            progress: None,
            patterns: pre.tracks[j].1.patterns,
        },
    )
    &&& effects.len() == 2 + pre.tracks.len()
    &&& effects[0] == Effect::Ticker(TickerCommand::Stop)
    &&& effects[1] == Effect::Broadcast(ClientCommand::TickerStopped)
    &&& forall|k: int| 2 <= k < effects.len() ==> ((#[trigger] effects[k]) matches
        Effect::Broadcast(ClientCommand::TrackProgressUpdate { name: n, progress: p }) && n@
        == pre.tracks[k - 2].1.name && p is None)
}

/// Handle `SetProjectName`.
pub fn set_project_name(store: &mut Store, name: String) -> (effects: Vec<Effect>)
    ensures
        set_project_name_post(old(store)@, final(store)@, name@, effects@),
{
    store.name = name.clone();
    let mut effects: Vec<Effect> = Vec::new();
    effects.push(Effect::Broadcast(ClientCommand::ProjectNameUpdated { name }));
    effects
}

/// Handle `CtrlChangeContext`.
pub fn ctrl_change_context(store: &mut Store, context: Option<String>) -> (effects: Vec<Effect>)
    ensures
        ctrl_change_context_post(old(store)@, final(store)@, context, effects@),
{
    let mut effects: Vec<Effect> = Vec::new();
    match context {
        Some(name) => {
            if store.patterns.contains(&name) {
                effects.push(Effect::Controller(ControllerCommand::ChangeContext {
                    context: Some(name.clone()),
                }));
                effects.push(Effect::Broadcast(ClientCommand::CtrlContextChanged {
                    context: Some(name),
                }));
            } else {
                effects.push(Effect::Respond(notify_error(
                    "Failed to Change Context",
                    "Pattern with name \"",
                    &name,
                    "\" does not exist",
                )));
            }
        },
        None => {
            effects.push(Effect::Controller(ControllerCommand::ChangeContext { context: None }));
            effects.push(Effect::Broadcast(ClientCommand::CtrlContextChanged { context: None }));
        },
    }
    effects
}

/// Handle `TickerStop`.
pub fn ticker_stop(store: &mut Store) -> (effects: Vec<Effect>)
    ensures
        ticker_stop_post(old(store)@, final(store)@, effects@),
        crate::store::map_wf(old(store)@.tracks) ==> crate::store::map_wf(final(store)@.tracks),
        track_names_match(old(store)@.tracks) ==> track_names_match(final(store)@.tracks),
{
    let ghost ts0 = store@.tracks;
    let mut effects: Vec<Effect> = Vec::new();
    effects.push(Effect::Ticker(TickerCommand::Stop));
    effects.push(Effect::Broadcast(ClientCommand::TickerStopped));
    let n = store.tracks.len();
    for j in 0..n
        invariant
            n == ts0.len(),
            ts0 == old(store)@.tracks,
            store@.name == old(store)@.name,
            store@.bpm == old(store)@.bpm,
            store@.target_addr == old(store)@.target_addr,
            store@.patterns == old(store)@.patterns,
            store@.events == old(store)@.events,
            store@.sliders == old(store)@.sliders,
            store@.tracks.len() == ts0.len(),
            forall|l: int| 0 <= l < ts0.len() ==> #[trigger] store@.tracks[l] == (if l < j {
                (
                    ts0[l].0,
                    TrackView {
                        name: ts0[l].1.name,
                        active: ts0[l].1.active,
                        looping: ts0[l].1.looping,
                        progress: None,
                        patterns: ts0[l].1.patterns,
                    },
                )
            } else {
                ts0[l]
            }),
            effects@.len() == 2 + j,
            effects@[0] == Effect::Ticker(TickerCommand::Stop),
            effects@[1] == Effect::Broadcast(ClientCommand::TickerStopped),
            forall|k: int| 2 <= k < effects@.len() ==> ((#[trigger] effects@[k]) matches
                Effect::Broadcast(ClientCommand::TrackProgressUpdate { name: nm, progress: p })
                && nm@ == ts0[k - 2].1.name && p is None),
    {
        let mut t = store.tracks.value_at(j).clone();
        t.progress = None;
        effects.push(Effect::Broadcast(ClientCommand::TrackProgressUpdate {
            name: t.name.clone(),
            progress: None,
        }));
        store.tracks.set_value_at(j, t);
    }
    effects
}

/// Translate a published tick pair into the frame a client receives:
/// a live tick becomes `TickerTick`; the stopped state (`None`) is not
/// forwarded.
pub fn tick_to_client(tick: Option<usize>, max: usize) -> (out: Option<ClientCommand>)
    ensures
        match tick {
            Some(t) => out == Some(ClientCommand::TickerTick { tick: t, max }),
            None => out is None,
        },
{
    match tick {
        Some(t) => Some(ClientCommand::TickerTick { tick: t, max }),
        None => None,
    }
}

/// Translate a connection-status change into the frame a client
/// receives.
pub fn status_to_client(established: bool) -> (out: ClientCommand)
    ensures
        out == (ClientCommand::CommStatusChanged { established }),
{
    ClientCommand::CommStatusChanged { established }
}

/// Dispatch one client command: mutate the store as the command asks
/// and return, in order, the replies, broadcasts and component commands
/// the session loop must perform.
///
/// Beyond the per-command clause, three invariants ride along
/// unconditionally: the store's maps keep distinct keys; every stored
/// entity keeps the name it is keyed under (edits are renamed to their
/// key); and every stored pattern's grids keep spanning its page count
/// (edits are normalized).
pub fn process(store: &mut Store, env: &EngineView, cmd: ServerCommand) -> (effects: Vec<Effect>)
    ensures
        ({
            let pre = old(store)@;
            let post = final(store)@;
            let es = effects@;
            match cmd {
                ServerCommand::SetProjectName { name } => set_project_name_post(
                    pre,
                    post,
                    name@,
                    es,
                ),
                ServerCommand::CommChangeAddr { addr } => comm_change_addr_post(
                    pre,
                    post,
                    addr@,
                    es,
                ),
                ServerCommand::CtrlChangeContext { context } => ctrl_change_context_post(
                    pre,
                    post,
                    context,
                    es,
                ),
                ServerCommand::TrackAdd { name } => track_add_post(pre, post, name@, es),
                ServerCommand::TrackDelete { name } => track_delete_post(pre, post, name@, es),
                ServerCommand::TrackEdit { name, track } => track_edit_post(
                    pre,
                    post,
                    name@,
                    track@,
                    es,
                ),
                ServerCommand::TrackMakeActive { name, active, force } => track_make_active_post(
                    pre,
                    post,
                    name@,
                    active,
                    force,
                    env.tick,
                    es,
                ),
                ServerCommand::TrackMakeLoop { name, looping } => track_make_loop_post(
                    pre,
                    post,
                    name@,
                    looping,
                    es,
                ),
                ServerCommand::PatternAdd { name } => pattern_add_post(pre, post, name@, es),
                ServerCommand::PatternDelete { name } => pattern_delete_post(pre, post, name@, es),
                ServerCommand::PatternEdit { name, pattern } => pattern_edit_post(
                    pre,
                    post,
                    name@,
                    pattern@,
                    es,
                ),
                ServerCommand::EventAdd { name } => event_add_post(pre, post, name@, es),
                ServerCommand::EventDelete { name } => event_delete_post(pre, post, name@, es),
                ServerCommand::EventEdit { name, event } => event_edit_post(
                    pre,
                    post,
                    name@,
                    event@,
                    es,
                ),
                ServerCommand::EventFire { name } => event_fire_post(pre, post, name@, es),
                ServerCommand::SliderAdd { name } => slider_add_post(pre, post, name@, es),
                ServerCommand::SliderDelete { name } => slider_delete_post(pre, post, name@, es),
                ServerCommand::SliderEdit { name, slider } => slider_edit_post(
                    pre,
                    post,
                    name@,
                    slider@,
                    es,
                ),
                ServerCommand::SliderSetVal { name, val } => slider_set_val_post(
                    pre,
                    post,
                    name@,
                    val,
                    es,
                ),
                ServerCommand::TickerPlay => store_unchanged(pre, post) && es.len() == 2 && es[0]
                    == Effect::Ticker(TickerCommand::Play) && es[1] == Effect::Broadcast(
                    ClientCommand::TickerPlaying,
                ),
                ServerCommand::TickerPause => store_unchanged(pre, post) && es.len() == 2 && es[0]
                    == Effect::Ticker(TickerCommand::Pause) && es[1] == Effect::Broadcast(
                    ClientCommand::TickerPaused,
                ),
                ServerCommand::TickerStop => ticker_stop_post(pre, post, es),
                ServerCommand::TickerSetBpm { bpm } => store_unchanged(pre, post) && es.len() == 2
                    && (es[0] matches Effect::Ticker(TickerCommand::SetBPM { bpm: b }) && b == bpm)
                    && (es[1] matches Effect::Broadcast(ClientCommand::TickerBpmUpdated { bpm: b2 })
                    && b2 == bpm),
                ServerCommand::RequestTickerBpm => store_unchanged(pre, post) && es.len() == 1 && (
                es[0] matches Effect::Respond(ClientCommand::ResponseTickerBpm { bpm: b }) && b
                    == env.bpm),
                ServerCommand::RequestTickerPlaying => store_unchanged(pre, post) && es.len() == 1
                    && (es[0] matches Effect::Respond(
                    ClientCommand::ResponseTickerPlaying { playing: p },
                ) && p == env.playing),
                ServerCommand::RequestTickerTick => store_unchanged(pre, post) && es.len() == 1 && (
                es[0] matches Effect::Respond(ClientCommand::ResponseTickerTick { tick: t, max: m })
                    && m == env.max && (env.tick is None ==> t == -1) && (env.tick matches Some(
                    x,
                ) ==> (x > isize::MAX || t == x as int))),
                ServerCommand::RequestProjectName => store_unchanged(pre, post) && es.len() == 1
                    && (es[0] matches Effect::Respond(ClientCommand::ResponseProjectName { name: n })
                    && n@ == pre.name),
                ServerCommand::RequestCommAddr => store_unchanged(pre, post) && es.len() == 1 && (
                es[0] matches Effect::Respond(ClientCommand::ResponseCommAddr { addr: a }) && a@
                    == pre.target_addr),
                ServerCommand::RequestCommStatus => store_unchanged(pre, post) && es.len() == 1
                    && (es[0] matches Effect::Respond(
                    ClientCommand::ResponseCommStatus { established: e },
                ) && e == env.connected),
                ServerCommand::RequestCtrlContext => store_unchanged(pre, post) && es.len() == 1
                    && (es[0] matches Effect::Respond(
                    ClientCommand::ResponseCtrlContext { context: c },
                ) && (env.context is None ==> c is None) && (env.context matches Some(vs) ==> (
                c matches Some(cs) && cs@ == vs@))),
                ServerCommand::RequestAllTracks => store_unchanged(pre, post) && es.len() == 1 && (
                es[0] matches Effect::Respond(ClientCommand::ResponseAllTracks { tracks: m }) && m@
                    == pre.tracks),
                ServerCommand::RequestAllPatterns => store_unchanged(pre, post) && es.len() == 1
                    && (es[0] matches Effect::Respond(
                    ClientCommand::ResponseAllPatterns { patterns: m },
                ) && m@ == pre.patterns),
                ServerCommand::RequestAllEvents => store_unchanged(pre, post) && es.len() == 1 && (
                es[0] matches Effect::Respond(ClientCommand::ResponseAllEvents { events: m }) && m@
                    == pre.events),
                ServerCommand::RequestAllSliders => store_unchanged(pre, post) && es.len() == 1
                    && (es[0] matches Effect::Respond(
                    ClientCommand::ResponseAllSliders { sliders: m },
                ) && m@ == pre.sliders),
            }
        }),
        crate::store::store_wf(old(store)@) ==> crate::store::store_wf(final(store)@),
        names_match(old(store)@) ==> names_match(final(store)@),
        patterns_all_wf(old(store)@.patterns) ==> patterns_all_wf(final(store)@.patterns),
{
    match cmd {
        ServerCommand::SetProjectName { name } => set_project_name(store, name),
        ServerCommand::CommChangeAddr { addr } => {
            let mut effects: Vec<Effect> = Vec::new();
            effects.push(Effect::Comm(CommunicatorCommand::ChangeTargetAddr {
                addr: addr.clone(),
            }));
            effects.push(Effect::Broadcast(ClientCommand::CommAddrChanged { addr }));
            effects
        },
        ServerCommand::CtrlChangeContext { context } => ctrl_change_context(store, context),
        ServerCommand::TrackAdd { name } => track_add(store, name),
        ServerCommand::TrackDelete { name } => track_delete(store, name),
        ServerCommand::TrackEdit { name, track } => track_edit(store, name, track),
        ServerCommand::TrackMakeActive { name, active, force } => track_make_active(
            store,
            name,
            active,
            force,
            env.tick,
        ),
        ServerCommand::TrackMakeLoop { name, looping } => track_make_loop(store, name, looping),
        ServerCommand::PatternAdd { name } => pattern_add(store, name),
        ServerCommand::PatternDelete { name } => pattern_delete(store, name),
        ServerCommand::PatternEdit { name, pattern } => pattern_edit(store, name, pattern),
        ServerCommand::EventAdd { name } => event_add(store, name),
        ServerCommand::EventDelete { name } => event_delete(store, name),
        ServerCommand::EventEdit { name, event } => event_edit(store, name, event),
        ServerCommand::EventFire { name } => event_fire(store, name),
        ServerCommand::SliderAdd { name } => slider_add(store, name),
        ServerCommand::SliderDelete { name } => slider_delete(store, name),
        ServerCommand::SliderEdit { name, slider } => slider_edit(store, name, slider),
        ServerCommand::SliderSetVal { name, val } => slider_set_val(store, name, val),
        ServerCommand::TickerPlay => {
            let mut effects: Vec<Effect> = Vec::new();
            effects.push(Effect::Ticker(TickerCommand::Play));
            effects.push(Effect::Broadcast(ClientCommand::TickerPlaying));
            effects
        },
        ServerCommand::TickerPause => {
            let mut effects: Vec<Effect> = Vec::new();
            effects.push(Effect::Ticker(TickerCommand::Pause));
            effects.push(Effect::Broadcast(ClientCommand::TickerPaused));
            effects
        },
        ServerCommand::TickerStop => ticker_stop(store),
        ServerCommand::TickerSetBpm { bpm } => {
            let mut effects: Vec<Effect> = Vec::new();
            effects.push(Effect::Ticker(TickerCommand::SetBPM { bpm }));
            effects.push(Effect::Broadcast(ClientCommand::TickerBpmUpdated { bpm }));
            effects
        },
        ServerCommand::RequestTickerBpm => {
            let mut effects: Vec<Effect> = Vec::new();
            effects.push(Effect::Respond(ClientCommand::ResponseTickerBpm { bpm: env.bpm }));
            effects
        },
        ServerCommand::RequestTickerPlaying => {
            let mut effects: Vec<Effect> = Vec::new();
            effects.push(Effect::Respond(ClientCommand::ResponseTickerPlaying {
                playing: env.playing,
            }));
            effects
        },
        ServerCommand::RequestTickerTick => {
            let tk: isize = match env.tick {
                Some(t) => {
                    if t <= isize::MAX as usize {
                        t as isize
                    } else {
                        isize::MAX
                    }
                },
                None => -1,
            };
            let mut effects: Vec<Effect> = Vec::new();
            effects.push(Effect::Respond(ClientCommand::ResponseTickerTick {
                tick: tk,
                max: env.max,
            }));
            effects
        },
        ServerCommand::RequestProjectName => {
            let mut effects: Vec<Effect> = Vec::new();
            effects.push(Effect::Respond(ClientCommand::ResponseProjectName {
                name: store.name.clone(),
            }));
            effects
        },
        ServerCommand::RequestCommAddr => {
            let mut effects: Vec<Effect> = Vec::new();
            effects.push(Effect::Respond(ClientCommand::ResponseCommAddr {
                addr: store.target_addr.clone(),
            }));
            effects
        },
        ServerCommand::RequestCommStatus => {
            let mut effects: Vec<Effect> = Vec::new();
            effects.push(Effect::Respond(ClientCommand::ResponseCommStatus {
                established: env.connected,
            }));
            effects
        },
        ServerCommand::RequestCtrlContext => {
            let ctx: Option<String> = match &env.context {
                Some(s) => Some(s.clone()),
                None => None,
            };
            let mut effects: Vec<Effect> = Vec::new();
            effects.push(Effect::Respond(ClientCommand::ResponseCtrlContext { context: ctx }));
            effects
        },
        ServerCommand::RequestAllTracks => {
            let mut effects: Vec<Effect> = Vec::new();
            effects.push(Effect::Respond(ClientCommand::ResponseAllTracks {
                tracks: crate::store::clone_track_map(&store.tracks),
            }));
            effects
        },
        ServerCommand::RequestAllPatterns => {
            let mut effects: Vec<Effect> = Vec::new();
            effects.push(Effect::Respond(ClientCommand::ResponseAllPatterns {
                patterns: crate::store::clone_pattern_map(&store.patterns),
            }));
            effects
        },
        ServerCommand::RequestAllEvents => {
            let mut effects: Vec<Effect> = Vec::new();
            effects.push(Effect::Respond(ClientCommand::ResponseAllEvents {
                events: crate::store::clone_event_map(&store.events),
            }));
            effects
        },
        ServerCommand::RequestAllSliders => {
            let mut effects: Vec<Effect> = Vec::new();
            effects.push(Effect::Respond(ClientCommand::ResponseAllSliders {
                sliders: crate::store::clone_slider_map(&store.sliders),
            }));
            effects
        },
    }
}

} // verus!
