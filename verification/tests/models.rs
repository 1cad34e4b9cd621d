use vibed::models::{mod_beat, Messages, Pattern, Track};
use vibed::osc::{midi_code_bits, MinOscArg, MinOscMessage};
use vibed::store::NamedMap;

fn pattern_table(patterns: Vec<Pattern>) -> NamedMap<Pattern> {
    let mut m: NamedMap<Pattern> = NamedMap::new();
    for p in patterns {
        let name = p.name.clone();
        assert!(m.insert_new(name, p));
    }
    m
}

fn two_page_pattern() -> Pattern {
    Pattern {
        name: "p".to_string(),
        page_count: 2,
        midi_path: "/n".to_string(),
        midi_codes: vec![
            [Some(60), None, None, None],
            [None, None, Some(62), None],
        ],
        messages: vec![],
    }
}

#[test]
fn midi_code_bits_matches_ieee_cast() {
    for code in 0u8..=255 {
        assert_eq!(midi_code_bits(code), (code as f32).to_bits(), "code {}", code);
    }
}

#[test]
fn pattern_new_is_empty() {
    let p = Pattern::new("fresh".to_string());
    assert_eq!(p.name, "fresh");
    assert_eq!(p.page_count, 0);
    assert_eq!(p.midi_path, "/");
    assert!(p.midi_codes.is_empty());
    assert!(p.messages.is_empty());
}

#[test]
fn pattern_emissions_midi_then_lanes() {
    let mut p = two_page_pattern();
    p.messages.push(Messages {
        payload: MinOscMessage {
            path: "/aux".to_string(),
            arg: MinOscArg::Str("go".to_string()),
        },
        actives: vec![[true, false, false, false], [false, false, false, false]],
    });
    let msgs = p.get_osc_messages(0);
    assert_eq!(msgs.len(), 2);
    assert_eq!(
        msgs[0],
        MinOscMessage {
            path: "/n".to_string(),
            arg: MinOscArg::Float(60.0f32.to_bits()),
        }
    );
    assert_eq!(
        msgs[1],
        MinOscMessage {
            path: "/aux".to_string(),
            arg: MinOscArg::Str("go".to_string()),
        }
    );
}

#[test]
fn pattern_emissions_second_page() {
    let p = two_page_pattern();
    let msgs = p.get_osc_messages(6);
    assert_eq!(msgs.len(), 1);
    assert_eq!(
        msgs[0],
        MinOscMessage {
            path: "/n".to_string(),
            arg: MinOscArg::Float(62.0f32.to_bits()),
        }
    );
}

#[test]
fn pattern_emissions_silent_tick() {
    let p = two_page_pattern();
    assert!(p.get_osc_messages(1).is_empty());
    assert!(p.get_osc_messages(5).is_empty());
}

#[test]
fn pattern_emissions_beyond_pages_are_empty() {
    let p = two_page_pattern();
    assert!(p.get_osc_messages(8).is_empty());
    assert!(p.get_osc_messages(1000).is_empty());
}

#[test]
fn pattern_resize_grows_and_shrinks() {
    let mut p = two_page_pattern();
    p.messages.push(Messages {
        payload: MinOscMessage {
            path: "/aux".to_string(),
            arg: MinOscArg::Float(0),
        },
        actives: vec![[true, true, true, true], [true, true, true, true]],
    });
    p.resize(3);
    assert_eq!(p.page_count, 3);
    assert_eq!(p.midi_codes.len(), 3);
    assert_eq!(p.midi_codes[2], [None, None, None, None]);
    assert_eq!(p.messages[0].actives.len(), 3);
    assert_eq!(p.messages[0].actives[2], [false, false, false, false]);
    p.resize(1);
    assert_eq!(p.page_count, 1);
    assert_eq!(p.midi_codes, vec![[Some(60), None, None, None]]);
    assert_eq!(p.messages[0].actives, vec![[true, true, true, true]]);
}

#[test]
fn tick_count_is_four_per_page() {
    assert_eq!(two_page_pattern().tick_count(), 8);
    assert_eq!(Pattern::new("x".to_string()).tick_count(), 0);
}

#[test]
fn event_new_defaults() {
    let e = vibed::models::Event::new("e".to_string());
    assert_eq!(e.name, "e");
    assert_eq!(e.path, "/");
    assert_eq!(e.shortcut, None);
    assert_eq!(e.payload, MinOscArg::Str("/".to_string()));
}

#[test]
fn mod_beat_tiers() {
    assert_eq!(mod_beat(16, 17), 1);
    assert_eq!(mod_beat(20, 16), 0);
    assert_eq!(mod_beat(8, 9), 1);
    assert_eq!(mod_beat(15, 8), 0);
    assert_eq!(mod_beat(4, 6), 2);
    assert_eq!(mod_beat(0, 7), 3);
}

#[test]
fn track_new_is_idle() {
    let t = Track::new("t".to_string());
    assert!(!t.active);
    assert!(!t.looping);
    assert_eq!(t.progress, None);
    assert!(t.patterns.is_empty());
}

#[test]
fn track_starts_only_on_bar_boundary() {
    let table = pattern_table(vec![two_page_pattern()]);
    let mut t = Track::new("t".to_string());
    t.patterns.push("p".to_string());
    t.active = true;
    // total length 8: boundary every 8 ticks; tick 3 is no boundary.
    let msgs = t.get_osc_messages_and_advance(3, &table);
    assert!(msgs.is_empty());
    assert_eq!(t.progress, None);
    // tick 8 is a boundary: the track starts and emits page 0 tick 0.
    let msgs = t.get_osc_messages_and_advance(8, &table);
    assert_eq!(msgs.len(), 1);
    assert_eq!(t.progress, Some(1));
}

#[test]
fn track_with_zero_length_playlist_never_emits() {
    let table = pattern_table(vec![Pattern::new("empty".to_string())]);
    let mut t = Track::new("t".to_string());
    t.patterns.push("empty".to_string());
    t.patterns.push("missing".to_string());
    t.active = true;
    for tick in 0..10 {
        let msgs = t.get_osc_messages_and_advance(tick, &table);
        assert!(msgs.is_empty(), "tick {}", tick);
    }
}

#[test]
fn track_auto_deactivates_once_at_completion() {
    let mut one_page = two_page_pattern();
    one_page.resize(1);
    let table = pattern_table(vec![one_page]);
    let mut t = Track::new("t".to_string());
    t.patterns.push("p".to_string());
    t.active = true;
    // tick 0: starts, emits the code at tick 0.
    assert_eq!(t.get_osc_messages_and_advance(0, &table).len(), 1);
    assert_eq!(t.progress, Some(1));
    assert!(t.active);
    // ticks 1..=2: silent interior ticks.
    assert!(t.get_osc_messages_and_advance(1, &table).is_empty());
    assert!(t.get_osc_messages_and_advance(2, &table).is_empty());
    // tick 3: completes the 4-tick playlist, deactivates, clears progress.
    assert!(t.get_osc_messages_and_advance(3, &table).is_empty());
    assert!(!t.active);
    assert_eq!(t.progress, None);
    // thereafter: nothing, state untouched.
    for tick in 4..12 {
        assert!(t.get_osc_messages_and_advance(tick, &table).is_empty());
        assert!(!t.active);
        assert_eq!(t.progress, None);
    }
}

#[test]
fn looping_track_wraps_to_zero() {
    let mut one_page = two_page_pattern();
    one_page.resize(1);
    let table = pattern_table(vec![one_page]);
    let mut t = Track::new("t".to_string());
    t.patterns.push("p".to_string());
    t.active = true;
    t.looping = true;
    for _ in 0..3 {
        t.get_osc_messages_and_advance(0, &table);
    }
    assert_eq!(t.progress, Some(3));
    t.get_osc_messages_and_advance(3, &table);
    assert!(t.active);
    assert_eq!(t.progress, Some(0));
}

#[test]
fn track_walks_playlist_in_order() {
    let mut second = two_page_pattern();
    second.name = "q".to_string();
    second.midi_path = "/q".to_string();
    let table = pattern_table(vec![two_page_pattern(), second]);
    let mut t = Track::new("t".to_string());
    t.patterns.push("p".to_string());
    t.patterns.push("q".to_string());
    t.active = true;
    // total 16; start at tick 0 and step to offset 8: page 0 of "q".
    t.get_osc_messages_and_advance(0, &table);
    for tick in 1..8 {
        t.get_osc_messages_and_advance(tick, &table);
    }
    assert_eq!(t.progress, Some(8));
    let msgs = t.get_osc_messages_and_advance(8, &table);
    assert_eq!(msgs.len(), 1);
    assert_eq!(msgs[0].path, "/q");
}

#[test]
fn track_progress_at_numeric_ceiling_counts_as_at_end() {
    // two patterns whose claimed page counts overflow any usize total:
    // a progress at usize::MAX can step no further and the track stops.
    let mut huge_a = Pattern::new("a".to_string());
    huge_a.page_count = usize::MAX / 4;
    let mut huge_b = Pattern::new("b".to_string());
    huge_b.page_count = usize::MAX / 4;
    let table = pattern_table(vec![huge_a, huge_b]);
    let mut t = Track::new("t".to_string());
    t.patterns.push("a".to_string());
    t.patterns.push("b".to_string());
    t.active = true;
    t.progress = Some(usize::MAX);
    let msgs = t.get_osc_messages_and_advance(0, &table);
    assert!(msgs.is_empty());
    assert!(!t.active);
    assert_eq!(t.progress, None);
}

#[test]
fn inactive_track_clears_progress_at_boundary() {
    let table = pattern_table(vec![two_page_pattern()]);
    let mut t = Track::new("t".to_string());
    t.patterns.push("p".to_string());
    t.active = false;
    t.progress = Some(3);
    // total 8 < 16: boundary modulus is 8; progress 3 is mid-pattern, so
    // the track keeps playing out.
    let msgs = t.get_osc_messages_and_advance(0, &table);
    assert_eq!(t.progress, Some(4));
    assert!(msgs.is_empty());
    t.progress = Some(0);
    // progress 0 is a boundary: the track stops and contributes nothing.
    let msgs = t.get_osc_messages_and_advance(0, &table);
    assert!(msgs.is_empty());
    assert_eq!(t.progress, None);
}
