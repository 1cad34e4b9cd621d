//! Domain entities: patterns, tracks, events, sliders.
//!
//! A pattern is a grid of optional MIDI codes plus auxiliary OSC
//! messages, organised into pages of four ticks.  A track is an ordered
//! playlist of pattern names with looping and progress state.  Events and
//! sliders are one-shot and continuous OSC controls.  Float-valued fields
//! (slider values) are carried as IEEE-754 bit patterns.

use vstd::prelude::*;
use vstd::string::*;
use crate::osc::{MinOscArg, MinOscArgView, MinOscMessage, MinOscMessageView, f32_bits_of_code};
use crate::store::{NamedMap, has_key, lookup};

verus! {

broadcast use vstd::array::group_array_axioms;

/// A grid of per-tick optional MIDI codes and auxiliary message lanes,
/// organised in pages of four ticks.
#[derive(Debug, PartialEq)]
pub struct Pattern {
    pub name: String,
    pub page_count: usize,
    pub midi_path: String,
    pub midi_codes: Vec<[Option<u8>; 4]>,
    pub messages: Vec<Messages>,
}

/// One auxiliary message lane: a payload and, per tick, whether the
/// payload fires on that tick.
#[derive(Debug, PartialEq)]
pub struct Messages {
    pub payload: MinOscMessage,
    pub actives: Vec<[bool; 4]>,
}

/// An ordered playlist of pattern names with playback state.
#[derive(Debug, PartialEq)]
pub struct Track {
    pub name: String,
    pub active: bool,
    pub looping: bool,
    pub progress: Option<usize>,
    pub patterns: Vec<String>,
}

/// A named one-shot OSC control.
#[derive(Debug, PartialEq)]
pub struct Event {
    pub name: String,
    pub path: String,
    pub shortcut: Option<String>,
    pub payload: MinOscArg,
}

/// A named continuous OSC control; `val`, `max` and `min` hold IEEE-754
/// single-precision bit patterns.
#[derive(Debug, PartialEq)]
pub struct Slider {
    pub name: String,
    pub path: String,
    pub val: u32,
    pub max: u32,
    pub min: u32,
}

/// Mathematical image of a `Messages` lane.
#[verifier::ext_equal]
pub struct MessagesView {
    pub payload: MinOscMessageView,
    pub actives: Seq<Seq<bool>>,
}

/// Mathematical image of a `Pattern`.
#[verifier::ext_equal]
pub struct PatternView {
    pub name: Seq<char>,
    pub page_count: nat,
    pub midi_path: Seq<char>,
    pub midi_codes: Seq<Seq<Option<u8>>>,
    pub messages: Seq<MessagesView>,
}

/// Mathematical image of a `Track`.
#[verifier::ext_equal]
pub struct TrackView {
    pub name: Seq<char>,
    pub active: bool,
    pub looping: bool,
    pub progress: Option<nat>,
    pub patterns: Seq<Seq<char>>,
}

/// Mathematical image of an `Event`.
#[verifier::ext_equal]
pub struct EventView {
    pub name: Seq<char>,
    pub path: Seq<char>,
    pub shortcut: Option<Seq<char>>,
    pub payload: MinOscArgView,
}

/// Mathematical image of a `Slider`.
#[verifier::ext_equal]
pub struct SliderView {
    pub name: Seq<char>,
    pub path: Seq<char>,
    pub val: u32,
    pub max: u32,
    pub min: u32,
}

impl View for Messages {
    type V = MessagesView;

    open spec fn view(&self) -> MessagesView {
        MessagesView {
            payload: self.payload@,
            actives: Seq::new(self.actives@.len(), |i: int| self.actives@[i]@),
        }
    }
}

impl View for Pattern {
    type V = PatternView;

    open spec fn view(&self) -> PatternView {
        PatternView {
            name: self.name@,
            page_count: self.page_count as nat,
            midi_path: self.midi_path@,
            midi_codes: Seq::new(self.midi_codes@.len(), |i: int| self.midi_codes@[i]@),
            messages: Seq::new(self.messages@.len(), |i: int| self.messages@[i]@),
        }
    }
}

impl View for Track {
    type V = TrackView;

    open spec fn view(&self) -> TrackView {
        TrackView {
            name: self.name@,
            active: self.active,
            looping: self.looping,
            progress: match self.progress {
                Some(p) => Some(p as nat),
                None => None,
            },
            patterns: Seq::new(self.patterns@.len(), |i: int| self.patterns@[i]@),
        }
    }
}

impl View for Event {
    type V = EventView;

    open spec fn view(&self) -> EventView {
        EventView {
            name: self.name@,
            path: self.path@,
            shortcut: match &self.shortcut {
                Some(s) => Some(s@),
                None => None,
            },
            payload: self.payload@,
        }
    }
}

impl View for Slider {
    type V = SliderView;

    open spec fn view(&self) -> SliderView {
        SliderView {
            name: self.name@,
            path: self.path@,
            val: self.val,
            max: self.max,
            min: self.min,
        }
    }
}

/// A pattern is well formed when its grids span exactly `page_count`
/// pages: the code grid and every lane's `actives` grid have one entry
/// per page.
pub open spec fn pattern_wf(p: PatternView) -> bool {
    &&& p.midi_codes.len() == p.page_count
    &&& forall|i: int| 0 <= i < p.messages.len() ==> (#[trigger] p.messages[i]).actives.len()
        == p.page_count
}

/// Copy a vector of code pages (pages are `Copy`).
fn copy_code_pages(v: &Vec<[Option<u8>; 4]>) -> (r: Vec<[Option<u8>; 4]>)
    ensures
        r@ == v@,
{
    let mut r: Vec<[Option<u8>; 4]> = Vec::new();
    let n = v.len();
    for i in 0..n
        invariant
            n == v@.len(),
            r@ == v@.take(i as int),
    {
        r.push(v[i]);
        assert(r@ =~= v@.take(i + 1));
    }
    assert(r@ =~= v@);
    r
}

/// Copy a vector of boolean pages (pages are `Copy`).
fn copy_bool_pages(v: &Vec<[bool; 4]>) -> (r: Vec<[bool; 4]>)
    ensures
        r@ == v@,
{
    let mut r: Vec<[bool; 4]> = Vec::new();
    let n = v.len();
    for i in 0..n
        invariant
            n == v@.len(),
            r@ == v@.take(i as int),
    {
        r.push(v[i]);
        assert(r@ =~= v@.take(i + 1));
    }
    assert(r@ =~= v@);
    r
}

/// Clone a vector of strings.
fn clone_strings(v: &Vec<String>) -> (r: Vec<String>)
    ensures
        r@ == v@,
{
    let mut r: Vec<String> = Vec::new();
    let n = v.len();
    for i in 0..n
        invariant
            n == v@.len(),
            r@ == v@.take(i as int),
    {
        r.push(v[i].clone());
        assert(r@ =~= v@.take(i + 1));
    }
    assert(r@ =~= v@);
    r
}

/// A grid resized to `n` rows: surplus rows dropped, missing rows
/// filled with `fill`.
pub open spec fn resized_grid<T>(s: Seq<T>, n: int, fill: T) -> Seq<T> {
    if n <= s.len() {
        s.take(n)
    } else {
        s + Seq::new((n - s.len()) as nat, |i: int| fill)
    }
}

/// A fresh code page: no MIDI codes.
pub open spec fn empty_code_page() -> Seq<Option<u8>> {
    seq![None, None, None, None]
}

/// A fresh actives page: nothing fires.
pub open spec fn empty_bool_page() -> Seq<bool> {
    seq![false, false, false, false]
}

/// The views of a code grid's pages.
pub open spec fn code_grid_view(s: Seq<[Option<u8>; 4]>) -> Seq<Seq<Option<u8>>> {
    Seq::new(s.len(), |i: int| s[i]@)
}

/// The views of an actives grid's pages.
pub open spec fn bool_grid_view(s: Seq<[bool; 4]>) -> Seq<Seq<bool>> {
    Seq::new(s.len(), |i: int| s[i]@)
}

/// Resize a code grid to `n` pages, padding with empty pages.
fn resize_code_pages(v: &mut Vec<[Option<u8>; 4]>, n: usize)
    ensures
        code_grid_view(final(v)@) == resized_grid(
            code_grid_view(old(v)@),
            n as int,
            empty_code_page(),
        ),
{
    let ghost g0 = code_grid_view(v@);
    if n <= v.len() {
        v.truncate(n);
        proof {
            assert(code_grid_view(v@) =~= g0.take(n as int));
        }
    } else {
        while v.len() < n
            invariant
                v@.len() <= n,
                g0.len() <= v@.len(),
                code_grid_view(v@) == g0 + Seq::new(
                    (v@.len() - g0.len()) as nat,
                    |i: int| empty_code_page(),
                ),
            decreases n - v@.len(),
        {
            let page: [Option<u8>; 4] = vstd::array::array_fill_for_copy_types(None);
            proof {
                assert(page == vstd::array::spec_array_fill_for_copy_type::<Option<u8>, 4>(None));
                assert(forall|k: int| 0 <= k < 4
                    ==> vstd::array::spec_array_fill_for_copy_type::<Option<u8>, 4>(None).view()[k]
                    == None::<u8>);
                assert(page@ =~= empty_code_page());
            }
            let ghost prev = v@;
            v.push(page);
            proof {
                assert forall|i: int| 0 <= i < v@.len() implies #[trigger] code_grid_view(v@)[i]
                    == (g0 + Seq::new((v@.len() - g0.len()) as nat, |q: int| empty_code_page()))[i]
                by {
                    if i < prev.len() {
                        assert(v@[i] == prev[i]);
                        assert(code_grid_view(prev)[i] == prev[i]@);
                    } else {
                        assert(v@[i] == page);
                    }
                }
                assert(code_grid_view(v@) =~= g0 + Seq::new(
                    (v@.len() - g0.len()) as nat,
                    |i: int| empty_code_page(),
                ));
            }
        }
        proof {
            assert(code_grid_view(v@) =~= resized_grid(g0, n as int, empty_code_page()));
        }
    }
}

/// Resize an actives grid to `n` pages, padding with silent pages.
fn resize_bool_pages(v: &mut Vec<[bool; 4]>, n: usize)
    ensures
        bool_grid_view(final(v)@) == resized_grid(
            bool_grid_view(old(v)@),
            n as int,
            empty_bool_page(),
        ),
{
    let ghost g0 = bool_grid_view(v@);
    if n <= v.len() {
        v.truncate(n);
        proof {
            assert(bool_grid_view(v@) =~= g0.take(n as int));
        }
    } else {
        while v.len() < n
            invariant
                v@.len() <= n,
                g0.len() <= v@.len(),
                bool_grid_view(v@) == g0 + Seq::new(
                    (v@.len() - g0.len()) as nat,
                    |i: int| empty_bool_page(),
                ),
            decreases n - v@.len(),
        {
            let page: [bool; 4] = vstd::array::array_fill_for_copy_types(false);
            proof {
                assert(page == vstd::array::spec_array_fill_for_copy_type::<bool, 4>(false));
                assert(forall|k: int| 0 <= k < 4
                    ==> vstd::array::spec_array_fill_for_copy_type::<bool, 4>(false).view()[k]
                    == false);
                assert(page@ =~= empty_bool_page());
            }
            let ghost prev = v@;
            v.push(page);
            proof {
                assert forall|i: int| 0 <= i < v@.len() implies #[trigger] bool_grid_view(v@)[i]
                    == (g0 + Seq::new((v@.len() - g0.len()) as nat, |q: int| empty_bool_page()))[i]
                by {
                    if i < prev.len() {
                        assert(v@[i] == prev[i]);
                        assert(bool_grid_view(prev)[i] == prev[i]@);
                    } else {
                        assert(v@[i] == page);
                    }
                }
                assert(bool_grid_view(v@) =~= g0 + Seq::new(
                    (v@.len() - g0.len()) as nat,
                    |i: int| empty_bool_page(),
                ));
            }
        }
        proof {
            assert(bool_grid_view(v@) =~= resized_grid(g0, n as int, empty_bool_page()));
        }
    }
}

impl Clone for Messages {
    fn clone(&self) -> (res: Self)
        ensures
            res@ == self@,
    {
        let res = Messages { payload: self.payload.clone(), actives: copy_bool_pages(
            &self.actives,
        ) };
        proof {
            assert(res@.actives =~= self@.actives);
        }
        res
    }
}

impl Clone for Pattern {
    fn clone(&self) -> (res: Self)
        ensures
            res@ == self@,
    {
        let mut messages: Vec<Messages> = Vec::new();
        let n = self.messages.len();
        for i in 0..n
            invariant
                n == self.messages@.len(),
                messages@.len() == i,
                forall|j: int| 0 <= j < i ==> #[trigger] messages@[j]@ == self.messages@[j]@,
        {
            messages.push(self.messages[i].clone());
        }
        let res = Pattern {
            name: self.name.clone(),
            page_count: self.page_count,
            midi_path: self.midi_path.clone(),
            midi_codes: copy_code_pages(&self.midi_codes),
            messages,
        };
        proof {
            assert(res@.midi_codes =~= self@.midi_codes);
            assert(res@.messages =~= self@.messages);
        }
        res
    }
}

impl Clone for Track {
    fn clone(&self) -> (res: Self)
        ensures
            res@ == self@,
    {
        let res = Track {
            name: self.name.clone(),
            active: self.active,
            looping: self.looping,
            progress: self.progress,
            patterns: clone_strings(&self.patterns),
        };
        proof {
            assert(res@.patterns =~= self@.patterns);
        }
        res
    }
}

impl Clone for Event {
    fn clone(&self) -> (res: Self)
        ensures
            res@ == self@,
    {
        Event {
            name: self.name.clone(),
            path: self.path.clone(),
            shortcut: match &self.shortcut {
                Some(s) => Some(s.clone()),
                None => None,
            },
            payload: self.payload.clone(),
        }
    }
}

impl Clone for Slider {
    fn clone(&self) -> (res: Self)
        ensures
            res@ == self@,
    {
        Slider {
            name: self.name.clone(),
            path: self.path.clone(),
            val: self.val,
            max: self.max,
            min: self.min,
        }
    }
}

impl Pattern {
    /// A fresh pattern: no pages, no lanes, path `"/"`.
    pub fn new(name: String) -> (res: Self)
        ensures
            res@.name == name@,
            res@.page_count == 0,
            res@.midi_path == "/"@,
            res@.midi_codes == Seq::<Seq<Option<u8>>>::empty(),
            res@.messages == Seq::<MessagesView>::empty(),
    {
        let res = Pattern {
            name,
            page_count: 0,
            midi_path: String::from_str("/"),
            midi_codes: Vec::new(),
            messages: Vec::new(),
        };
        proof {
            assert(res@.midi_codes =~= Seq::<Seq<Option<u8>>>::empty());
            assert(res@.messages =~= Seq::<MessagesView>::empty());
        }
        res
    }

    /// Grow or shrink the grids to span exactly `page_count` pages:
    /// surplus pages are dropped, missing pages come in empty.
    pub fn resize(&mut self, page_count: usize)
        ensures
            final(self)@.name == old(self)@.name,
            final(self)@.midi_path == old(self)@.midi_path,
            final(self)@.page_count == page_count,
            final(self)@.midi_codes == resized_grid(
                old(self)@.midi_codes,
                page_count as int,
                empty_code_page(),
            ),
            final(self)@.messages.len() == old(self)@.messages.len(),
            forall|i: int| 0 <= i < old(self)@.messages.len()
                ==> #[trigger] final(self)@.messages[i] == (MessagesView {
                payload: old(self)@.messages[i].payload,
                actives: resized_grid(
                    old(self)@.messages[i].actives,
                    page_count as int,
                    empty_bool_page(),
                ),
            }),
    {
        let ghost p0 = self@;
        self.page_count = page_count;
        resize_code_pages(&mut self.midi_codes, page_count);
        proof {
            assert(code_grid_view(self.midi_codes@) =~= self@.midi_codes);
            assert(self@.midi_codes =~= resized_grid(
                p0.midi_codes,
                page_count as int,
                empty_code_page(),
            ));
        }
        let mut resized: Vec<Messages> = Vec::new();
        let n = self.messages.len();
        for i in 0..n
            invariant
                n == self.messages@.len(),
                self@.messages == p0.messages,
                resized@.len() == i,
                forall|j: int| 0 <= j < i ==> #[trigger] resized@[j]@ == (MessagesView {
                    payload: p0.messages[j].payload,
                    actives: resized_grid(
                        p0.messages[j].actives,
                        page_count as int,
                        empty_bool_page(),
                    ),
                }),
        {
            let m = &self.messages[i];
            let mut actives = copy_bool_pages(&m.actives);
            resize_bool_pages(&mut actives, page_count);
            let r = Messages { payload: m.payload.clone(), actives };
            proof {
                assert(bool_grid_view(r.actives@) =~= r@.actives);
                assert(r@.actives =~= resized_grid(
                    p0.messages[i as int].actives,
                    page_count as int,
                    empty_bool_page(),
                ));
            }
            resized.push(r);
        }
        self.messages = resized;
    }

    /// Number of ticks the pattern spans: four per page.
    pub fn tick_count(&self) -> (n: usize)
        requires
            4 * self@.page_count <= usize::MAX,
        ensures
            n == 4 * self@.page_count,
    {
        self.page_count * 4
    }
}

impl Track {
    /// A fresh track: inactive, not looping, no progress, empty playlist.
    pub fn new(name: String) -> (res: Self)
        ensures
            res@.name == name@,
            res@.active == false,
            res@.looping == false,
            res@.progress is None,
            res@.patterns == Seq::<Seq<char>>::empty(),
    {
        let res = Track {
            name,
            active: false,
            looping: false,
            progress: None,
            patterns: Vec::new(),
        };
        proof {
            assert(res@.patterns =~= Seq::<Seq<char>>::empty());
        }
        res
    }
}

impl Event {
    /// A fresh event: path `"/"`, no shortcut, default payload.
    pub fn new(name: String) -> (res: Self)
        ensures
            res@.name == name@,
            res@.path == "/"@,
            res@.shortcut is None,
            res@.payload == MinOscArgView::Str("/"@),
    {
        Event { name, path: String::from_str("/"), shortcut: None, payload: MinOscArg::default() }
    }
}

impl Slider {
    /// A fresh slider: path `"/"`, value and minimum zero, maximum one
    /// (`0x3F80_0000` is the bit pattern of `1.0f32`).
    pub fn new(name: String) -> (res: Self)
        ensures
            res@.name == name@,
            res@.path == "/"@,
            res@.val == 0u32,
            res@.max == 0x3F80_0000u32,
            res@.min == 0u32,
    {
        Slider { name, path: String::from_str("/"), val: 0, max: 0x3F80_0000, min: 0 }
    }
}

/// The coarsest bar boundary for a playlist of `total_length` ticks:
/// positions repeat every 16 ticks for long playlists, every 8 or 4 for
/// shorter ones.
pub open spec fn spec_mod_beat(total_length: int, beat: int) -> int {
    if total_length >= 16 {
        beat % 16
    } else if total_length >= 8 {
        beat % 8
    } else {
        beat % 4
    }
}

/// Position of `beat` within the coarsest bar of a playlist of
/// `total_length` ticks.
pub fn mod_beat(total_length: usize, beat: usize) -> (r: usize)
    ensures
        r == spec_mod_beat(total_length as int, beat as int),
{
    if total_length >= 16 {
        beat % 16
    } else if total_length >= 8 {
        beat % 8
    } else {
        beat % 4
    }
}

/// Emissions of the lanes from lane `i` on, on page `page` at tick index
/// `index` within the page: each lane whose `actives` bit is set
/// contributes one copy of its payload, in lane order.  A lane whose grid
/// does not reach `page` contributes nothing.
pub open spec fn lane_emissions_from(
    ms: Seq<MessagesView>,
    page: int,
    index: int,
    i: int,
) -> Seq<MinOscMessageView>
    decreases ms.len() - i,
{
    if i < 0 || i >= ms.len() {
        seq![]
    } else {
        (if 0 <= page < ms[i].actives.len() && 0 <= index < ms[i].actives[page].len()
            && ms[i].actives[page][index] {
            seq![ms[i].payload]
        } else {
            Seq::<MinOscMessageView>::empty()
        }) + lane_emissions_from(ms, page, index, i + 1)
    }
}

/// The ordered emissions of pattern `p` on tick `tick`: nothing when the
/// tick falls outside the pattern's pages; otherwise the MIDI code of
/// that tick (as a float message on the pattern's path), if set, followed
/// by every lane payload whose `actives` bit is set, in lane order.  A
/// grid row missing from a malformed pattern contributes nothing.
pub open spec fn pattern_emissions(p: PatternView, tick: int) -> Seq<MinOscMessageView> {
    let page = tick / 4;
    let index = tick % 4;
    if page >= p.page_count {
        seq![]
    } else {
        (if 0 <= page < p.midi_codes.len() && 0 <= index < p.midi_codes[page].len()
            && p.midi_codes[page][index] is Some {
            seq![
                MinOscMessageView {
                    path: p.midi_path,
                    arg: MinOscArgView::Float(
                        f32_bits_of_code(p.midi_codes[page][index]->0 as int) as u32,
                    ),
                },
            ]
        } else {
            Seq::<MinOscMessageView>::empty()
        }) + lane_emissions_from(p.messages, page, index, 0)
    }
}

impl Pattern {
    /// The OSC messages this pattern emits on `tick`: the MIDI code of
    /// the tick first (if set), then every active lane payload in lane
    /// order.  Ticks beyond the page count, and grid rows missing from a
    /// malformed pattern, contribute nothing.
    pub fn get_osc_messages(&self, tick: usize) -> (msgs: Vec<MinOscMessage>)
        ensures
            msgs@.len() == pattern_emissions(self@, tick as int).len(),
            forall|i: int| 0 <= i < msgs@.len() ==> #[trigger] msgs@[i]@ == pattern_emissions(
                self@,
                tick as int,
            )[i],
    {
        let ghost emitted = pattern_emissions(self@, tick as int);
        let page = tick / 4;
        let index = tick % 4;
        let mut ret: Vec<MinOscMessage> = Vec::new();
        if page >= self.page_count {
            return ret;
        }
        if page < self.midi_codes.len() {
            if let Some(code) = self.midi_codes[page][index] {
                ret.push(MinOscMessage {
                    path: self.midi_path.clone(),
                    arg: MinOscArg::Float(crate::osc::midi_code_bits(code)),
                });
            }
        }
        let n = self.messages.len();
        for i in 0..n
            invariant
                n == self.messages@.len(),
                page == tick as int / 4,
                index == tick as int % 4,
                page < self@.page_count,
                emitted == pattern_emissions(self@, tick as int),
                forall|j: int| 0 <= j < ret@.len() ==> #[trigger] ret@[j]@ == emitted[j],
                emitted.len() == ret@.len() + lane_emissions_from(
                    self@.messages,
                    page as int,
                    index as int,
                    i as int,
                ).len(),
                forall|j: int| ret@.len() <= j < emitted.len() ==> emitted[j]
                    == lane_emissions_from(self@.messages, page as int, index as int, i as int)[
                    j - ret@.len()],
        {
            let m = &self.messages[i];
            if page < m.actives.len() {
                if m.actives[page][index] {
                    ret.push(m.payload.clone());
                }
            }
            proof {
                let ms = self@.messages;
                assert(ms[i as int] == self.messages@[i as int]@);
                assert(lane_emissions_from(ms, page as int, index as int, i as int) == (if 0 <= (
                page as int) < ms[i as int].actives.len() && 0 <= (index as int) < ms[i as int]
                    .actives[page as int].len() && ms[i as int].actives[page as int][index as int] {
                    seq![ms[i as int].payload]
                } else {
                    Seq::<MinOscMessageView>::empty()
                }) + lane_emissions_from(ms, page as int, index as int, i + 1));
            }
        }
        ret
    }
}

/// The pattern table a track resolves its playlist against.
pub type PatternTableView = Seq<(Seq<char>, PatternView)>;

/// Total ticks of the resolvable playlist entries from position `i` on:
/// four per page of each referenced pattern that exists in the table;
/// unresolvable names contribute nothing.
pub open spec fn total_from(names: Seq<Seq<char>>, tbl: PatternTableView, i: int) -> int
    decreases names.len() - i,
{
    if i < 0 || i >= names.len() {
        0
    } else {
        (if has_key(tbl, names[i]) {
            4 * lookup(tbl, names[i]).page_count
        } else {
            0
        }) + total_from(names, tbl, i + 1)
    }
}

/// Total ticks of a track's resolvable playlist.
pub open spec fn spec_total_length(names: Seq<Seq<char>>, tbl: PatternTableView) -> int {
    total_from(names, tbl, 0)
}

/// The playlist's total length never goes negative.
pub proof fn lemma_total_from_nonneg(names: Seq<Seq<char>>, tbl: PatternTableView, i: int)
    ensures
        total_from(names, tbl, i) >= 0,
    decreases names.len() - i,
{
    if 0 <= i < names.len() {
        lemma_total_from_nonneg(names, tbl, i + 1);
    }
}

/// The pattern that plays at offset `p` of the playlist from position
/// `i` on, with the local tick inside it: walk the resolvable entries in
/// order, subtracting each pattern's tick count until the remainder
/// falls inside one.
pub open spec fn locate_from(
    names: Seq<Seq<char>>,
    tbl: PatternTableView,
    p: int,
    i: int,
) -> Option<(PatternView, int)>
    decreases names.len() - i,
{
    if i < 0 || i >= names.len() {
        None
    } else if !has_key(tbl, names[i]) {
        locate_from(names, tbl, p, i + 1)
    } else {
        let pat = lookup(tbl, names[i]);
        if p < 4 * pat.page_count {
            Some((pat, p))
        } else {
            locate_from(names, tbl, p - 4 * pat.page_count, i + 1)
        }
    }
}

/// In a playlist with no resolvable ticks, no offset locates a pattern.
pub proof fn lemma_locate_empty(names: Seq<Seq<char>>, tbl: PatternTableView, p: int, i: int)
    requires
        total_from(names, tbl, i) == 0,
        p >= 0,
    ensures
        locate_from(names, tbl, p, i) is None,
    decreases names.len() - i,
{
    if 0 <= i < names.len() {
        lemma_total_from_nonneg(names, tbl, i + 1);
        lemma_locate_empty(names, tbl, p, i + 1);
    }
}

/// One tick of a track: what it emits on `tick` against the pattern
/// table `tbl`, and the state it advances to.
///
/// An inactive track with progress at a bar boundary clears the
/// progress; an inactive track without progress idles.  Otherwise the
/// track starts at a bar boundary when it has no progress yet, emits the
/// located pattern's messages at the local tick, and advances: at the
/// end of the playlist — or when the progress counter itself can step
/// no further — it wraps to zero when looping, else deactivates and
/// clears its progress.
pub open spec fn spec_track_step(t: TrackView, tick: int, tbl: PatternTableView) -> (
    TrackView,
    Seq<MinOscMessageView>,
) {
    let total = spec_total_length(t.patterns, tbl);
    if !t.active && t.progress is Some && spec_mod_beat(total, t.progress->0 as int) == 0 {
        (
            TrackView {
                name: t.name,
                active: t.active,
                looping: t.looping,
                progress: None,
                patterns: t.patterns,
            },
            seq![],
        )
    } else if !t.active && t.progress is None {
        (t, seq![])
    } else if t.progress is None && spec_mod_beat(total, tick) != 0 {
        (t, seq![])
    } else {
        let p: int = if t.progress is Some {
            t.progress->0 as int
        } else {
            0
        };
        let msgs = match locate_from(t.patterns, tbl, p, 0) {
            Some((pat, local)) => pattern_emissions(pat, local),
            None => Seq::<MinOscMessageView>::empty(),
        };
        if p + 1 >= total || p >= usize::MAX {
            if t.looping {
                (
                    TrackView {
                        name: t.name,
                        active: t.active,
                        looping: t.looping,
                        progress: Some(0 as nat),
                        patterns: t.patterns,
                    },
                    msgs,
                )
            } else {
                (
                    TrackView {
                        name: t.name,
                        active: false,
                        looping: t.looping,
                        progress: None,
                        patterns: t.patterns,
                    },
                    msgs,
                )
            }
        } else {
            (
                TrackView {
                    name: t.name,
                    active: t.active,
                    looping: t.looping,
                    progress: Some((p + 1) as nat),
                    patterns: t.patterns,
                },
                msgs,
            )
        }
    }
}

/// A track whose resolvable playlist has no ticks emits nothing,
/// whatever the tick.
pub proof fn lemma_zero_length_track_is_silent(t: TrackView, tick: int, tbl: PatternTableView)
    requires
        spec_total_length(t.patterns, tbl) == 0,
    ensures
        spec_track_step(t, tick, tbl).1 == Seq::<MinOscMessageView>::empty(),
{
    if !(!t.active && t.progress is Some && spec_mod_beat(0, t.progress->0 as int) == 0) && !(!t.active
        && t.progress is None) && !(t.progress is None && spec_mod_beat(0, tick) != 0) {
        let p: int = if t.progress is Some {
            t.progress->0 as int
        } else {
            0
        };
        lemma_locate_empty(t.patterns, tbl, p, 0);
    }
}

/// A stopped track — inactive, no progress — stays as it is and emits
/// nothing; in particular a track that has auto-deactivated emits
/// nothing until it is reactivated.
pub proof fn lemma_stopped_track_idles(t: TrackView, tick: int, tbl: PatternTableView)
    requires
        !t.active,
        t.progress is None,
    ensures
        spec_track_step(t, tick, tbl) == (t, Seq::<MinOscMessageView>::empty()),
{
}

/// A non-looping track that reaches the end of its playlist
/// auto-deactivates in that very step: it comes out inactive with its
/// progress cleared, so by `lemma_stopped_track_idles` the
/// deactivation happens exactly once per completion.
pub proof fn lemma_track_autostop(t: TrackView, tick: int, tbl: PatternTableView)
    requires
        t.active,
        !t.looping,
        t.progress is Some,
        t.progress->0 + 1 >= spec_total_length(t.patterns, tbl),
    ensures
        !spec_track_step(t, tick, tbl).0.active,
        spec_track_step(t, tick, tbl).0.progress is None,
{
}

impl Track {
    /// Advance this track by one tick against the pattern table,
    /// returning the messages it emits: the step of
    /// [`spec_track_step`].
    pub fn get_osc_messages_and_advance(
        &mut self,
        tick: usize,
        patterns: &NamedMap<Pattern>,
    ) -> (msgs: Vec<MinOscMessage>)
        ensures
            final(self)@ == spec_track_step(old(self)@, tick as int, patterns@).0,
            msgs@.len() == spec_track_step(old(self)@, tick as int, patterns@).1.len(),
            forall|i: int| 0 <= i < msgs@.len() ==> #[trigger] msgs@[i]@ == spec_track_step(
                old(self)@,
                tick as int,
                patterns@,
            ).1[i],
    {
        let ghost t0 = self@;
        let ghost tbl = patterns@;
        let ghost total_spec = spec_total_length(t0.patterns, tbl);

        // Total ticks of the resolvable playlist, saturating far beyond
        // any reachable progress value.
        proof {
            lemma_total_from_nonneg(t0.patterns, tbl, 0);
        }
        let mut total: u128 = 0;
        let n = self.patterns.len();
        for i in 0..n
            invariant
                t0 == self@,
                tbl == patterns@,
                total_spec == spec_total_length(t0.patterns, tbl),
                n == self.patterns@.len(),
                total_spec == total + total_from(t0.patterns, tbl, i as int) || (total
                    == u128::MAX && total_spec >= u128::MAX),
                total <= total_spec,
        {
            proof {
                lemma_total_from_nonneg(t0.patterns, tbl, i + 1);
                assert(t0.patterns[i as int] == self.patterns@[i as int]@);
            }
            if let Some(pat) = patterns.get(&self.patterns[i]) {
                let term: u128 = 4 * (pat.page_count as u128);
                total = total.saturating_add(term);
            }
        }
        proof {
            lemma_total_from_nonneg(t0.patterns, tbl, n as int);
            assert(total_from(t0.patterns, tbl, n as int) == 0);
            assert(total == total_spec || (total == u128::MAX && total_spec >= u128::MAX));
        }
        // Any threshold the step compares against lies far below the
        // saturation point, so the saturated total decides as the
        // mathematical total does.
        let beat_base: usize = if total >= 16 {
            16
        } else {
            total as usize
        };
        proof {
            assert(forall|b: int| spec_mod_beat(beat_base as int, b) == spec_mod_beat(
                total_spec,
                b,
            ));
        }

        if !self.active {
            if let Some(progress) = self.progress {
                if mod_beat(beat_base, progress) == 0 {
                    self.progress = None;
                    return Vec::new();
                }
            } else {
                return Vec::new();
            }
        }
        if self.progress.is_none() {
            let start = mod_beat(beat_base, tick);
            if start == 0 {
                self.progress = Some(start);
            } else {
                return Vec::new();
            }
        }

        let p0: usize = match self.progress {
            Some(p) => p,
            None => 0,
        };
        proof {
            assert(p0 as int == if t0.progress is Some {
                t0.progress->0
            } else {
                0
            });
        }

        // Locate the pattern that plays at offset `p0`.
        let mut msgs: Vec<MinOscMessage> = Vec::new();
        let mut remaining: u128 = p0 as u128;
        let mut located = false;
        let mut i: usize = 0;
        while i < n && !located
            invariant
                n == self.patterns@.len(),
                t0.patterns == Seq::new(self.patterns@.len(), |k: int| self.patterns@[k]@),
                tbl == patterns@,
                i <= n,
                remaining <= p0,
                !located ==> locate_from(t0.patterns, tbl, p0 as int, 0) == locate_from(
                    t0.patterns,
                    tbl,
                    remaining as int,
                    i as int,
                ),
                !located ==> msgs@.len() == 0,
                located ==> ({
                    let loc = locate_from(t0.patterns, tbl, p0 as int, 0);
                    &&& loc is Some
                    &&& msgs@.len() == pattern_emissions((loc->0).0, (loc->0).1).len()
                    &&& forall|k: int| 0 <= k < msgs@.len() ==> #[trigger] msgs@[k]@
                        == pattern_emissions((loc->0).0, (loc->0).1)[k]
                }),
            decreases n - i,
        {
            proof {
                assert(t0.patterns[i as int] == self.patterns@[i as int]@);
            }
            if let Some(pat) = patterns.get(&self.patterns[i]) {
                let tc: u128 = 4 * (pat.page_count as u128);
                if remaining < tc {
                    let local = remaining as usize;
                    msgs = pat.get_osc_messages(local);
                    located = true;
                } else {
                    remaining = remaining - tc;
                }
            }
            i = i + 1;
        }
        proof {
            if !located {
                assert(locate_from(t0.patterns, tbl, remaining as int, i as int) is None);
            }
        }

        // Advance the progress: wrap, stop, or step forward.  A counter
        // at the numeric ceiling cannot step, so it counts as at-end.
        let at_end = p0 as u128 + 1 >= total || p0 == usize::MAX;
        proof {
            assert(at_end == (p0 as int + 1 >= total_spec || p0 as int >= usize::MAX));
        }
        if at_end {
            if self.looping {
                self.progress = Some(0);
            } else {
                self.active = false;
                self.progress = None;
            }
        } else {
            self.progress = Some(p0 + 1);
        }
        msgs
    }
}

} // verus!
