//! The store: the single source of truth for patterns, tracks, events,
//! sliders, the project name, the target address and the tempo.
//!
//! Each entity kind lives in a [`NamedMap`], an insertion-ordered map
//! from names to entities.  A snapshot ([`StrippedStore`]) carries the
//! persisted part of the store (name, tempo, target address, patterns,
//! tracks); the process boundary serialises snapshots to disk and back.

use vstd::prelude::*;
use vstd::string::*;
use crate::models::{Event, Pattern, Slider, Track};

verus! {

/// One entry of a [`NamedMap`]: a key and the stored entity.
#[derive(Debug, PartialEq)]
pub struct MapEntry<T> {
    pub key: String,
    pub value: T,
}

/// An insertion-ordered map from names to entities, backed by a vector
/// of entries.  Its view is the sequence of (key, value) pairs; the
/// well-formedness predicate [`map_wf`] says the keys are distinct.
#[derive(Debug, PartialEq)]
pub struct NamedMap<T> {
    pub entries: Vec<MapEntry<T>>,
}

impl<T: View> View for MapEntry<T> {
    type V = (Seq<char>, T::V);

    open spec fn view(&self) -> (Seq<char>, T::V) {
        (self.key@, self.value@)
    }
}

impl<T: View> View for NamedMap<T> {
    type V = Seq<(Seq<char>, T::V)>;

    open spec fn view(&self) -> Seq<(Seq<char>, T::V)> {
        Seq::new(self.entries@.len(), |i: int| self.entries@[i]@)
    }
}

/// Index of the first entry with key `k`, or `-1` when no entry has it.
pub open spec fn index_of_key<V>(s: Seq<(Seq<char>, V)>, k: Seq<char>) -> int
    decreases s.len(),
{
    if s.len() == 0 {
        -1
    } else if s[0].0 == k {
        0
    } else {
        let r = index_of_key(s.drop_first(), k);
        if r < 0 {
            -1
        } else {
            r + 1
        }
    }
}

/// Whether some entry has key `k`.
pub open spec fn has_key<V>(s: Seq<(Seq<char>, V)>, k: Seq<char>) -> bool {
    index_of_key(s, k) >= 0
}

/// The value stored under `k` (meaningful only when `has_key`).
pub open spec fn lookup<V>(s: Seq<(Seq<char>, V)>, k: Seq<char>) -> V {
    s[index_of_key(s, k)].1
}

/// The keys of the entries are pairwise distinct.
pub open spec fn map_wf<V>(s: Seq<(Seq<char>, V)>) -> bool {
    forall|i: int, j: int| 0 <= i < j < s.len() ==> (#[trigger] s[i]).0 != (#[trigger] s[j]).0
}

/// What `index_of_key` returns: `-1` exactly when no entry has the key,
/// and otherwise the position of its first occurrence.
pub proof fn lemma_index_of_key<V>(s: Seq<(Seq<char>, V)>, k: Seq<char>)
    ensures
        index_of_key(s, k) == -1 || (0 <= index_of_key(s, k) < s.len()),
        index_of_key(s, k) == -1 ==> forall|i: int| 0 <= i < s.len() ==> (#[trigger] s[i]).0 != k,
        index_of_key(s, k) >= 0 ==> s[index_of_key(s, k)].0 == k,
        index_of_key(s, k) >= 0 ==> forall|i: int| 0 <= i < index_of_key(s, k) ==> (
        #[trigger] s[i]).0 != k,
    decreases s.len(),
{
    if s.len() > 0 && s[0].0 != k {
        let t = s.drop_first();
        lemma_index_of_key(t, k);
        if index_of_key(t, k) == -1 {
            assert forall|i: int| 0 <= i < s.len() implies (#[trigger] s[i]).0 != k by {
                if i > 0 {
                    assert(s[i] == t[i - 1]);
                }
            }
        } else {
            assert forall|i: int| 0 <= i < index_of_key(s, k) implies (#[trigger] s[i]).0 != k by {
                if i > 0 {
                    assert(s[i] == t[i - 1]);
                }
            }
        }
    }
}

/// A key found at a position that is first of its kind is the key's
/// index.
pub proof fn lemma_index_of_key_at<V>(s: Seq<(Seq<char>, V)>, k: Seq<char>, i: int)
    requires
        0 <= i < s.len(),
        s[i].0 == k,
        forall|j: int| 0 <= j < i ==> (#[trigger] s[j]).0 != k,
    ensures
        index_of_key(s, k) == i,
    decreases s.len(),
{
    if i > 0 {
        lemma_index_of_key_at(s.drop_first(), k, i - 1);
        assert(forall|j: int| 0 <= j < s.drop_first().len() ==> #[trigger] s.drop_first()[j] == s[j
            + 1]);
    }
}

/// Appending an absent key keeps the keys distinct.
pub proof fn lemma_push_wf<V>(s: Seq<(Seq<char>, V)>, e: (Seq<char>, V))
    requires
        map_wf(s),
        !has_key(s, e.0),
    ensures
        map_wf(s.push(e)),
{
    lemma_index_of_key(s, e.0);
}

/// Replacing a value in place keeps the keys distinct.
pub proof fn lemma_update_wf<V>(s: Seq<(Seq<char>, V)>, i: int, v: V)
    requires
        map_wf(s),
        0 <= i < s.len(),
    ensures
        map_wf(s.update(i, (s[i].0, v))),
{
}

/// Removing an entry keeps the keys distinct.
pub proof fn lemma_remove_wf<V>(s: Seq<(Seq<char>, V)>, i: int)
    requires
        map_wf(s),
        0 <= i < s.len(),
    ensures
        map_wf(s.remove(i)),
{
}

impl<T: View> NamedMap<T> {
    /// An empty map.
    pub fn new() -> (res: Self)
        ensures
            res@ == Seq::<(Seq<char>, T::V)>::empty(),
    {
        let res = NamedMap { entries: Vec::new() };
        proof {
            assert(res@ =~= Seq::<(Seq<char>, T::V)>::empty());
        }
        res
    }

    /// Number of entries.
    pub fn len(&self) -> (n: usize)
        ensures
            n == self@.len(),
    {
        self.entries.len()
    }

    /// Position of the entry named `name`, if any.
    fn index_of(&self, name: &String) -> (r: Option<usize>)
        ensures
            match r {
                Some(i) => i == index_of_key(self@, name@),
                None => index_of_key(self@, name@) == -1,
            },
    {
        let n = self.entries.len();
        for i in 0..n
            invariant
                n == self.entries@.len(),
                forall|j: int| 0 <= j < i ==> (#[trigger] self@[j]).0 != name@,
        {
            if self.entries[i].key == *name {
                proof {
                    lemma_index_of_key_at(self@, name@, i as int);
                }
                return Some(i);
            }
        }
        proof {
            lemma_index_of_key(self@, name@);
        }
        None
    }

    /// Whether an entry named `name` exists.
    pub fn contains(&self, name: &String) -> (r: bool)
        ensures
            r == has_key(self@, name@),
    {
        match self.index_of(name) {
            Some(_) => true,
            None => false,
        }
    }

    /// The entity stored under `name`, if any.
    pub fn get(&self, name: &String) -> (r: Option<&T>)
        ensures
            match r {
                Some(v) => has_key(self@, name@) && v@ == lookup(self@, name@),
                None => !has_key(self@, name@),
            },
    {
        match self.index_of(name) {
            Some(i) => {
                proof {
                    lemma_index_of_key(self@, name@);
                }
                Some(&self.entries[i].value)
            },
            None => None,
        }
    }

    /// Insert a fresh entry; refused when the key is already present.
    pub fn insert_new(&mut self, key: String, value: T) -> (added: bool)
        ensures
            added == !has_key(old(self)@, key@),
            added ==> final(self)@ == old(self)@.push((key@, value@)),
            !added ==> final(self)@ == old(self)@,
    {
        match self.index_of(&key) {
            Some(_) => false,
            None => {
                let ghost prev = self@;
                self.entries.push(MapEntry { key, value });
                proof {
                    assert(self@ =~= prev.push((self.entries@.last().key@, self.entries@.last()
                        .value@)));
                }
                true
            },
        }
    }

    /// Replace the entity stored under `name`, keeping the key and the
    /// entry's position; refused when the key is absent.
    pub fn replace(&mut self, name: &String, value: T) -> (replaced: bool)
        ensures
            replaced == has_key(old(self)@, name@),
            replaced ==> final(self)@ == old(self)@.update(
                index_of_key(old(self)@, name@),
                (old(self)@[index_of_key(old(self)@, name@)].0, value@),
            ),
            !replaced ==> final(self)@ == old(self)@,
    {
        match self.index_of(name) {
            Some(i) => {
                proof {
                    lemma_index_of_key(self@, name@);
                }
                let ghost prev = self@;
                let key = self.entries[i].key.clone();
                self.entries.set(i, MapEntry { key, value });
                proof {
                    assert(self@ =~= prev.update(i as int, (prev[i as int].0, self.entries@[
                    i as int].value@)));
                }
                true
            },
            None => false,
        }
    }

    /// Remove the entry named `name`; refused when the key is absent.
    pub fn remove(&mut self, name: &String) -> (removed: bool)
        ensures
            removed == has_key(old(self)@, name@),
            removed ==> final(self)@ == old(self)@.remove(index_of_key(old(self)@, name@)),
            !removed ==> final(self)@ == old(self)@,
    {
        match self.index_of(name) {
            Some(i) => {
                proof {
                    lemma_index_of_key(self@, name@);
                }
                let ghost prev = self@;
                self.entries.remove(i);
                proof {
                    assert(self@ =~= prev.remove(i as int));
                }
                true
            },
            None => false,
        }
    }

    /// The key of the entry at position `i`.
    pub fn key_at(&self, i: usize) -> (k: &String)
        requires
            i < self@.len(),
        ensures
            k@ == self@[i as int].0,
    {
        &self.entries[i].key
    }

    /// The entity at position `i`.
    pub fn value_at(&self, i: usize) -> (v: &T)
        requires
            i < self@.len(),
        ensures
            v@ == self@[i as int].1,
    {
        &self.entries[i].value
    }

    /// Overwrite the entity at position `i`, keeping its key.
    pub fn set_value_at(&mut self, i: usize, value: T)
        requires
            i < old(self)@.len(),
        ensures
            final(self)@ == old(self)@.update(i as int, (old(self)@[i as int].0, value@)),
    {
        let ghost prev = self@;
        let key = self.entries[i].key.clone();
        self.entries.set(i, MapEntry { key, value });
        proof {
            assert(self@ =~= prev.update(i as int, (prev[i as int].0, self.entries@[
            i as int].value@)));
        }
    }
}

/// Copy a pattern map, entry for entry.
pub fn clone_pattern_map(m: &NamedMap<Pattern>) -> (r: NamedMap<Pattern>)
    ensures
        r@ == m@,
{
    let mut entries: Vec<MapEntry<Pattern>> = Vec::new();
    let n = m.entries.len();
    for i in 0..n
        invariant
            n == m.entries@.len(),
            entries@.len() == i,
            forall|j: int| 0 <= j < i ==> #[trigger] entries@[j]@ == m@[j],
    {
        entries.push(MapEntry { key: m.entries[i].key.clone(), value: m.entries[i].value.clone() });
    }
    let r = NamedMap { entries };
    proof {
        assert(r@ =~= m@);
    }
    r
}

/// Copy a track map, entry for entry.
pub fn clone_track_map(m: &NamedMap<Track>) -> (r: NamedMap<Track>)
    ensures
        r@ == m@,
{
    let mut entries: Vec<MapEntry<Track>> = Vec::new();
    let n = m.entries.len();
    for i in 0..n
        invariant
            n == m.entries@.len(),
            entries@.len() == i,
            forall|j: int| 0 <= j < i ==> #[trigger] entries@[j]@ == m@[j],
    {
        entries.push(MapEntry { key: m.entries[i].key.clone(), value: m.entries[i].value.clone() });
    }
    let r = NamedMap { entries };
    proof {
        assert(r@ =~= m@);
    }
    r
}

/// Copy an event map, entry for entry.
pub fn clone_event_map(m: &NamedMap<Event>) -> (r: NamedMap<Event>)
    ensures
        r@ == m@,
{
    let mut entries: Vec<MapEntry<Event>> = Vec::new();
    let n = m.entries.len();
    for i in 0..n
        invariant
            n == m.entries@.len(),
            entries@.len() == i,
            forall|j: int| 0 <= j < i ==> #[trigger] entries@[j]@ == m@[j],
    {
        entries.push(MapEntry { key: m.entries[i].key.clone(), value: m.entries[i].value.clone() });
    }
    let r = NamedMap { entries };
    proof {
        assert(r@ =~= m@);
    }
    r
}

/// Copy a slider map, entry for entry.
pub fn clone_slider_map(m: &NamedMap<Slider>) -> (r: NamedMap<Slider>)
    ensures
        r@ == m@,
{
    let mut entries: Vec<MapEntry<Slider>> = Vec::new();
    let n = m.entries.len();
    for i in 0..n
        invariant
            n == m.entries@.len(),
            entries@.len() == i,
            forall|j: int| 0 <= j < i ==> #[trigger] entries@[j]@ == m@[j],
    {
        entries.push(MapEntry { key: m.entries[i].key.clone(), value: m.entries[i].value.clone() });
    }
    let r = NamedMap { entries };
    proof {
        assert(r@ =~= m@);
    }
    r
}

/// Default project name.
pub const DEFAULT_NAME: &'static str = "Unnamed";

/// Default tempo: the bit pattern of `120.0f32`.
pub const DEFAULT_BPM_BITS: u32 = 0x42F0_0000;

/// Default OSC target address.
pub const DEFAULT_TARGET_ADDR: &'static str = "127.0.0.1:8001";

/// The shared container for all domain state.  `bpm` holds the IEEE-754
/// bit pattern of the tempo.
#[derive(Debug, PartialEq)]
pub struct Store {
    pub name: String,
    pub bpm: u32,
    pub target_addr: String,
    pub patterns: NamedMap<Pattern>,
    pub tracks: NamedMap<Track>,
    pub events: NamedMap<Event>,
    pub sliders: NamedMap<Slider>,
}

/// The persisted part of the store.
#[derive(Debug, PartialEq)]
pub struct StrippedStore {
    pub name: String,
    pub bpm: u32,
    pub target_addr: String,
    pub patterns: NamedMap<Pattern>,
    pub tracks: NamedMap<Track>,
}

/// Mathematical image of a `Store`.
#[verifier::ext_equal]
pub struct StoreView {
    pub name: Seq<char>,
    pub bpm: u32,
    pub target_addr: Seq<char>,
    pub patterns: Seq<(Seq<char>, crate::models::PatternView)>,
    pub tracks: Seq<(Seq<char>, crate::models::TrackView)>,
    pub events: Seq<(Seq<char>, crate::models::EventView)>,
    pub sliders: Seq<(Seq<char>, crate::models::SliderView)>,
}

/// Mathematical image of a `StrippedStore`.
#[verifier::ext_equal]
pub struct StrippedStoreView {
    pub name: Seq<char>,
    pub bpm: u32,
    pub target_addr: Seq<char>,
    pub patterns: Seq<(Seq<char>, crate::models::PatternView)>,
    pub tracks: Seq<(Seq<char>, crate::models::TrackView)>,
}

impl View for Store {
    type V = StoreView;

    open spec fn view(&self) -> StoreView {
        StoreView {
            name: self.name@,
            bpm: self.bpm,
            target_addr: self.target_addr@,
            patterns: self.patterns@,
            tracks: self.tracks@,
            events: self.events@,
            sliders: self.sliders@,
        }
    }
}

impl View for StrippedStore {
    type V = StrippedStoreView;

    open spec fn view(&self) -> StrippedStoreView {
        StrippedStoreView {
            name: self.name@,
            bpm: self.bpm,
            target_addr: self.target_addr@,
            patterns: self.patterns@,
            tracks: self.tracks@,
        }
    }
}

/// Every map of the store has distinct keys.
pub open spec fn store_wf(v: StoreView) -> bool {
    &&& map_wf(v.patterns)
    &&& map_wf(v.tracks)
    &&& map_wf(v.events)
    &&& map_wf(v.sliders)
}

/// The persisted image of a store: its maps of events and sliders are
/// left behind.
pub open spec fn stripped(v: StoreView) -> StrippedStoreView {
    StrippedStoreView {
        name: v.name,
        bpm: v.bpm,
        target_addr: v.target_addr,
        patterns: v.patterns,
        tracks: v.tracks,
    }
}

/// The store a snapshot restores to: events and sliders start empty.
pub open spec fn restored(s: StrippedStoreView) -> StoreView {
    StoreView {
        name: s.name,
        bpm: s.bpm,
        target_addr: s.target_addr,
        patterns: s.patterns,
        tracks: s.tracks,
        events: Seq::empty(),
        sliders: Seq::empty(),
    }
}

/// Restoring a snapshot and snapshotting again yields the same
/// snapshot: persistence round-trips on the store's mathematical image.
pub proof fn lemma_snapshot_roundtrip(s: StrippedStoreView)
    ensures
        stripped(restored(s)) == s,
{
}

/// Why a save failed: the snapshot would not serialise, or the file
/// would not be written.
#[derive(Debug, Clone, Copy, PartialEq, Eq, Structural)]
pub enum StoreSaveError {
    FileWriteError,
    JsonForgeError,
}

impl Default for Store {
    /// The store used when no saved state can be read.
    fn default() -> (res: Self)
        ensures
            res@.name == DEFAULT_NAME@,
            res@.bpm == DEFAULT_BPM_BITS,
            res@.target_addr == DEFAULT_TARGET_ADDR@,
            res@.patterns == Seq::<(Seq<char>, crate::models::PatternView)>::empty(),
            res@.tracks == Seq::<(Seq<char>, crate::models::TrackView)>::empty(),
            res@.events == Seq::<(Seq<char>, crate::models::EventView)>::empty(),
            res@.sliders == Seq::<(Seq<char>, crate::models::SliderView)>::empty(),
    {
        Store {
            name: String::from_str(DEFAULT_NAME),
            bpm: DEFAULT_BPM_BITS,
            target_addr: String::from_str(DEFAULT_TARGET_ADDR),
            patterns: NamedMap::new(),
            tracks: NamedMap::new(),
            events: NamedMap::new(),
            sliders: NamedMap::new(),
        }
    }
}

impl Store {
    /// The persisted snapshot of this store.
    pub fn snapshot(&self) -> (res: StrippedStore)
        ensures
            res@ == stripped(self@),
    {
        StrippedStore {
            name: self.name.clone(),
            bpm: self.bpm,
            target_addr: self.target_addr.clone(),
            patterns: clone_pattern_map(&self.patterns),
            tracks: clone_track_map(&self.tracks),
        }
    }

    /// The store a loaded snapshot restores to.
    pub fn from_snapshot(s: StrippedStore) -> (res: Self)
        ensures
            res@ == restored(s@),
    {
        Store {
            name: s.name,
            bpm: s.bpm,
            target_addr: s.target_addr,
            patterns: s.patterns,
            tracks: s.tracks,
            events: NamedMap::new(),
            sliders: NamedMap::new(),
        }
    }
}

} // verus!
