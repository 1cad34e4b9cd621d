//! The controller: the per-tick projection of the playback context into
//! OSC messages, and the track bookkeeping that goes with it.
//!
//! The context is either one pattern name ("pattern mode") or `None`
//! ("track mode", all tracks with playback state).  The surrounding
//! event loop owns the context cell and the periodic save alarm; this
//! module holds the verified step a tick triggers.

use vstd::prelude::*;
use crate::command::ClientCommand;
use crate::models::{pattern_emissions, spec_track_step, TrackView, PatternTableView};
use crate::osc::{MinOscMessage, MinOscMessageView, msgs_view};
use crate::store::{has_key, lookup, Store};

verus! {

/// A command for the controller: switch the playback context.
#[derive(Debug, PartialEq)]
pub enum ControllerCommand {
    ChangeContext { context: Option<String> },
}

/// What one tick produces: OSC messages for the communicator, in
/// emission order, and client events to broadcast, in order.
#[derive(Debug, PartialEq)]
pub struct ControllerTickOutput {
    pub messages: Vec<MinOscMessage>,
    pub broadcasts: Vec<ClientCommand>,
}

/// A track takes part in a tick when it is active or still carries
/// playback progress.
pub open spec fn track_selected(t: TrackView) -> bool {
    t.active || t.progress is Some
}

/// Ghost description of one broadcast a tick produces for a track.
pub enum TrackNote {
    Progress { name: Seq<char>, progress: Option<nat> },
    Deactivated { name: Seq<char> },
}

/// Whether the client event `c` is the one the note `n` describes.
pub open spec fn note_matches(c: ClientCommand, n: TrackNote) -> bool {
    match n {
        TrackNote::Progress { name, progress } => c matches ClientCommand::TrackProgressUpdate {
            name: cn,
            progress: cp,
        } && cn@ == name && (match (cp, progress) {
            (Some(a), Some(b)) => a as nat == b,
            (None, None) => true,
            _ => false,
        }),
        TrackNote::Deactivated { name } => c matches ClientCommand::TrackMadeActive {
            name: cn,
            active: a,
        } && cn@ == name && a == false,
    }
}

/// The broadcasts of a tick in track mode, from track `i` on: for each
/// selected track a progress update, followed by a deactivation event
/// when the track comes out of the step inactive.
pub open spec fn tracks_notes(
    ts: Seq<(Seq<char>, TrackView)>,
    tbl: PatternTableView,
    tick: int,
    i: int,
) -> Seq<TrackNote>
    decreases ts.len() - i,
{
    if i < 0 || i >= ts.len() {
        seq![]
    } else {
        let rest = tracks_notes(ts, tbl, tick, i + 1);
        if track_selected(ts[i].1) {
            let t2 = spec_track_step(ts[i].1, tick, tbl).0;
            (if !t2.active {
                seq![
                    TrackNote::Progress { name: t2.name, progress: t2.progress },
                    TrackNote::Deactivated { name: t2.name },
                ]
            } else {
                seq![TrackNote::Progress { name: t2.name, progress: t2.progress }]
            }) + rest
        } else {
            rest
        }
    }
}

/// The OSC messages of a tick in track mode, from track `i` on: the
/// emissions of each selected track's step, in track order.
pub open spec fn tracks_msgs(
    ts: Seq<(Seq<char>, TrackView)>,
    tbl: PatternTableView,
    tick: int,
    i: int,
) -> Seq<MinOscMessageView>
    decreases ts.len() - i,
{
    if i < 0 || i >= ts.len() {
        seq![]
    } else {
        let rest = tracks_msgs(ts, tbl, tick, i + 1);
        if track_selected(ts[i].1) {
            spec_track_step(ts[i].1, tick, tbl).1 + rest
        } else {
            rest
        }
    }
}

/// The tracks after a tick in track mode: each selected track stepped,
/// the others untouched, keys and order kept.
pub open spec fn tracks_after(
    ts: Seq<(Seq<char>, TrackView)>,
    tbl: PatternTableView,
    tick: int,
) -> Seq<(Seq<char>, TrackView)> {
    Seq::new(
        ts.len(),
        |j: int|
            (
                ts[j].0,
                if track_selected(ts[j].1) {
                    spec_track_step(ts[j].1, tick, tbl).0
                } else {
                    ts[j].1
                },
            ),
    )
}

/// An auto-stopped track — inactive, progress cleared — is not
/// selected, so later ticks pass it over entirely: it is neither
/// stepped nor broadcast about until something reactivates it.
pub proof fn lemma_stopped_track_passed_over(t: TrackView)
    requires
        !t.active,
        t.progress is None,
    ensures
        !track_selected(t),
{
}

/// One tick of the controller.
///
/// In pattern mode (a context naming a stored pattern) the pattern's
/// emissions for the tick go out and nothing else changes; a context
/// naming a missing pattern contributes nothing.  In track mode every
/// selected track is stepped in map order: its emissions are collected
/// in that order, its progress update — and, when it comes out
/// inactive, a deactivation event — is broadcast, and the stepped
/// track replaces the old one in the store.
pub fn controller_on_tick(store: &mut Store, context: &Option<String>, tick: usize) -> (out:
    ControllerTickOutput)
    ensures
        final(store)@.name == old(store)@.name,
        final(store)@.bpm == old(store)@.bpm,
        final(store)@.target_addr == old(store)@.target_addr,
        final(store)@.patterns == old(store)@.patterns,
        final(store)@.events == old(store)@.events,
        final(store)@.sliders == old(store)@.sliders,
        context matches Some(name) ==> {
            &&& final(store)@.tracks == old(store)@.tracks
            &&& out.broadcasts@.len() == 0
            &&& (has_key(old(store)@.patterns, name@) ==> msgs_view(out.messages@)
                == pattern_emissions(lookup(old(store)@.patterns, name@), tick as int))
            &&& (!has_key(old(store)@.patterns, name@) ==> out.messages@.len() == 0)
        },
        context is None ==> {
            &&& final(store)@.tracks == tracks_after(
                old(store)@.tracks,
                old(store)@.patterns,
                tick as int,
            )
            &&& msgs_view(out.messages@) == tracks_msgs(
                old(store)@.tracks,
                old(store)@.patterns,
                tick as int,
                0,
            )
            &&& ({
                let notes = tracks_notes(
                    old(store)@.tracks,
                    old(store)@.patterns,
                    tick as int,
                    0,
                );
                &&& out.broadcasts@.len() == notes.len()
                &&& forall|k: int| 0 <= k < notes.len() ==> note_matches(
                    #[trigger] out.broadcasts@[k],
                    notes[k],
                )
            })
        },
{
    let ghost ts0 = store@.tracks;
    let ghost tbl = store@.patterns;
    match context {
        Some(name) => {
            let messages = match store.patterns.get(name) {
                Some(pat) => {
                    let msgs = pat.get_osc_messages(tick);
                    proof {
                        assert(msgs_view(msgs@) =~= pattern_emissions(
                            lookup(tbl, name@),
                            tick as int,
                        ));
                    }
                    msgs
                },
                None => Vec::new(),
            };
            ControllerTickOutput { messages, broadcasts: Vec::new() }
        },
        None => {
            let mut messages: Vec<MinOscMessage> = Vec::new();
            let mut broadcasts: Vec<ClientCommand> = Vec::new();
            let n = store.tracks.len();
            for j in 0..n
                invariant
                    n == ts0.len(),
                    tbl == store@.patterns,
                    store@.name == old(store)@.name,
                    store@.bpm == old(store)@.bpm,
                    store@.target_addr == old(store)@.target_addr,
                    store@.patterns == old(store)@.patterns,
                    store@.events == old(store)@.events,
                    store@.sliders == old(store)@.sliders,
                    ts0 == old(store)@.tracks,
                    store@.tracks.len() == ts0.len(),
                    forall|l: int| 0 <= l < ts0.len() ==> #[trigger] store@.tracks[l] == (if l
                        < j && track_selected(ts0[l].1) {
                        (ts0[l].0, spec_track_step(ts0[l].1, tick as int, tbl).0)
                    } else {
                        ts0[l]
                    }),
                    tracks_msgs(ts0, tbl, tick as int, 0) == msgs_view(messages@) + tracks_msgs(
                        ts0,
                        tbl,
                        tick as int,
                        j as int,
                    ),
                    ({
                        let notes = tracks_notes(ts0, tbl, tick as int, 0);
                        &&& notes == tracks_notes(ts0, tbl, tick as int, 0).take(
                            broadcasts@.len() as int,
                        ) + tracks_notes(ts0, tbl, tick as int, j as int)
                        &&& broadcasts@.len() <= notes.len()
                        &&& forall|k: int| 0 <= k < broadcasts@.len() ==> note_matches(
                            #[trigger] broadcasts@[k],
                            notes[k],
                        )
                    }),
            {
                let selected = {
                    let t = store.tracks.value_at(j);
                    t.active || t.progress.is_some()
                };
                proof {
                    assert(store@.tracks[j as int] == ts0[j as int]);
                }
                if selected {
                    let mut t = store.tracks.value_at(j).clone();
                    let mut ms = t.get_osc_messages_and_advance(tick, &store.patterns);
                    let ghost mprev = msgs_view(messages@);
                    let ghost bprev = broadcasts@;
                    broadcasts.push(ClientCommand::TrackProgressUpdate {
                        name: t.name.clone(),
                        progress: t.progress,
                    });
                    if !t.active {
                        broadcasts.push(ClientCommand::TrackMadeActive {
                            name: t.name.clone(),
                            active: false,
                        });
                    }
                    messages.append(&mut ms);
                    store.tracks.set_value_at(j, t);
                    proof {
                        let step = spec_track_step(ts0[j as int].1, tick as int, tbl);
                        assert(msgs_view(messages@) =~= mprev + step.1);
                        assert(msgs_view(messages@) + tracks_msgs(ts0, tbl, tick as int, j + 1)
                            =~= mprev + tracks_msgs(ts0, tbl, tick as int, j as int));
                        let notes = tracks_notes(ts0, tbl, tick as int, 0);
                        let here = tracks_notes(ts0, tbl, tick as int, j as int);
                        let rest = tracks_notes(ts0, tbl, tick as int, j + 1);
                        assert(notes == notes.take(bprev.len() as int) + here);
                        assert(notes.take(broadcasts@.len() as int) + rest =~= notes.take(
                            bprev.len() as int,
                        ) + here);
                    }
                } else {
                    proof {
                        assert(tracks_msgs(ts0, tbl, tick as int, j as int) == tracks_msgs(
                            ts0,
                            tbl,
                            tick as int,
                            j + 1,
                        ));
                        assert(tracks_notes(ts0, tbl, tick as int, j as int) == tracks_notes(
                            ts0,
                            tbl,
                            tick as int,
                            j + 1,
                        ));
                    }
                }
            }
            proof {
                assert(store@.tracks =~= tracks_after(ts0, tbl, tick as int));
                assert(tracks_msgs(ts0, tbl, tick as int, n as int) =~= Seq::<
                    MinOscMessageView,
                >::empty());
                assert(msgs_view(messages@) =~= tracks_msgs(ts0, tbl, tick as int, 0));
                let notes = tracks_notes(ts0, tbl, tick as int, 0);
                assert(tracks_notes(ts0, tbl, tick as int, n as int) =~= Seq::<TrackNote>::empty());
                assert(notes =~= notes.take(broadcasts@.len() as int));
                assert(broadcasts@.len() == notes.len());
            }
            ControllerTickOutput { messages, broadcasts }
        },
    }
}

} // verus!
