use vibed::models::{Pattern, Track};
use vibed::store::{
    NamedMap, Store, StoreSaveError, DEFAULT_BPM_BITS, DEFAULT_NAME, DEFAULT_TARGET_ADDR,
};

#[test]
fn named_map_insert_get_and_order() {
    let mut m: NamedMap<Pattern> = NamedMap::new();
    assert!(m.insert_new("a".to_string(), Pattern::new("a".to_string())));
    assert!(m.insert_new("b".to_string(), Pattern::new("b".to_string())));
    assert!(!m.insert_new("a".to_string(), Pattern::new("other".to_string())));
    assert_eq!(m.len(), 2);
    assert!(m.contains(&"a".to_string()));
    assert!(!m.contains(&"c".to_string()));
    assert_eq!(m.get(&"a".to_string()).unwrap().name, "a");
    assert_eq!(m.key_at(0), "a");
    assert_eq!(m.key_at(1), "b");
}

#[test]
fn named_map_replace_keeps_key_and_position() {
    let mut m: NamedMap<Track> = NamedMap::new();
    m.insert_new("x".to_string(), Track::new("x".to_string()));
    m.insert_new("y".to_string(), Track::new("y".to_string()));
    let mut edited = Track::new("x".to_string());
    edited.looping = true;
    assert!(m.replace(&"x".to_string(), edited));
    assert!(!m.replace(&"zz".to_string(), Track::new("zz".to_string())));
    assert_eq!(m.key_at(0), "x");
    assert!(m.value_at(0).looping);
    assert_eq!(m.len(), 2);
}

#[test]
fn named_map_remove_shifts_later_entries() {
    let mut m: NamedMap<Track> = NamedMap::new();
    m.insert_new("x".to_string(), Track::new("x".to_string()));
    m.insert_new("y".to_string(), Track::new("y".to_string()));
    assert!(m.remove(&"x".to_string()));
    assert!(!m.remove(&"x".to_string()));
    assert_eq!(m.len(), 1);
    assert_eq!(m.key_at(0), "y");
}

#[test]
fn store_default_values() {
    let s = Store::default();
    assert_eq!(s.name, DEFAULT_NAME);
    assert_eq!(s.name, "Unnamed");
    assert_eq!(s.bpm, DEFAULT_BPM_BITS);
    assert_eq!(s.bpm, 120.0f32.to_bits());
    assert_eq!(s.target_addr, DEFAULT_TARGET_ADDR);
    assert_eq!(s.target_addr, "127.0.0.1:8001");
    assert_eq!(s.patterns.len(), 0);
    assert_eq!(s.tracks.len(), 0);
    assert_eq!(s.events.len(), 0);
    assert_eq!(s.sliders.len(), 0);
}

#[test]
fn snapshot_roundtrip_preserves_snapshot() {
    let mut s = Store::default();
    s.name = "proj".to_string();
    s.bpm = 240.0f32.to_bits();
    s.patterns.insert_new("p".to_string(), Pattern::new("p".to_string()));
    let mut t = Track::new("t".to_string());
    t.patterns.push("p".to_string());
    s.tracks.insert_new("t".to_string(), t);
    let snap = s.snapshot();
    let restored = Store::from_snapshot(s.snapshot());
    assert_eq!(restored.snapshot(), snap);
    assert_eq!(restored.name, "proj");
    assert_eq!(restored.patterns.len(), 1);
    assert_eq!(restored.tracks.len(), 1);
    assert_eq!(restored.events.len(), 0);
    assert_eq!(restored.sliders.len(), 0);
}

#[test]
fn save_error_variants_are_distinct() {
    assert_ne!(StoreSaveError::FileWriteError, StoreSaveError::JsonForgeError);
}
