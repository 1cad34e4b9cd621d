use vibed::models::Pattern;
use vibed::store::NamedMap;
use vibed::ticker::Ticker;

const MS: u64 = 1_000_000;

fn bpm240() -> (u32, u64) {
    // 60 / (4 * 240) s = 62.5 ms per tick.
    (240.0f32.to_bits(), 62_500_000)
}

fn empty_patterns() -> NamedMap<Pattern> {
    NamedMap::new()
}

#[test]
fn ticker_starts_stopped() {
    let (bpm, iv) = bpm240();
    let t = Ticker::new(0, bpm, iv);
    assert!(!t.playing);
    assert_eq!(t.tick, None);
    assert_eq!(t.next_tick, iv);
    assert_eq!(t.remaining, iv);
}

#[test]
fn play_pause_resume_preserves_residual() {
    let (bpm, iv) = bpm240();
    let patterns = empty_patterns();
    let mut t = Ticker::new(0, bpm, iv);
    t.on_play(0);
    assert!(t.playing);
    assert_eq!(t.next_tick, iv);
    // first deadline fires: tick 0 of a 16-tick bar.
    let e = t.on_deadline(iv, &patterns, &None);
    assert_eq!(e, Some((0, 15)));
    assert_eq!(t.tick, Some(1));
    assert_eq!(t.next_tick, 2 * iv);
    // pause 20 ms before the deadline: residual 20 ms.
    t.on_pause(2 * iv - 20 * MS);
    assert!(!t.playing);
    assert_eq!(t.remaining, 20 * MS);
    // resume 1 s later: the next tick is 20 ms after the resume.
    t.on_play(1_000 * MS);
    assert!(t.playing);
    assert_eq!(t.next_tick, 1_000 * MS + 20 * MS);
    // the tick position survived the pause.
    let e = t.on_deadline(t.next_tick, &patterns, &None);
    assert_eq!(e, Some((1, 15)));
}

#[test]
fn pause_after_deadline_clamps_residual_to_zero() {
    let (bpm, iv) = bpm240();
    let mut t = Ticker::new(0, bpm, iv);
    t.on_play(0);
    t.on_pause(iv + 5 * MS);
    assert_eq!(t.remaining, 0);
}

#[test]
fn stop_resets_and_publishes_none() {
    let (bpm, iv) = bpm240();
    let patterns = empty_patterns();
    let mut t = Ticker::new(0, bpm, iv);
    t.on_play(0);
    t.on_deadline(iv, &patterns, &None);
    let out = t.on_stop();
    assert_eq!(out, (None, 0));
    assert!(!t.playing);
    assert_eq!(t.tick, None);
    assert_eq!(t.remaining, iv);
    // playing again starts over at tick 0.
    t.on_play(10 * MS);
    let e = t.on_deadline(t.next_tick, &patterns, &None);
    assert_eq!(e, Some((0, 15)));
}

#[test]
fn set_bpm_rebases_and_resets_residual() {
    let (bpm, iv) = bpm240();
    let mut t = Ticker::new(0, 120.0f32.to_bits(), 125_000_000);
    t.on_pause(0);
    let now = 300 * MS;
    t.on_set_bpm(now, bpm, iv);
    assert_eq!(t.bpm, bpm);
    assert_eq!(t.interval, iv);
    assert_eq!(t.next_tick, now + iv);
    // a tempo change while paused leaks no elapsed time into the residual.
    assert_eq!(t.remaining, iv);
}

#[test]
fn ticks_advance_and_wrap_in_track_mode() {
    let (bpm, iv) = bpm240();
    let patterns = empty_patterns();
    let mut t = Ticker::new(0, bpm, iv);
    t.on_play(0);
    let mut now = iv;
    for k in 0..40u64 {
        let e = t.on_deadline(now, &patterns, &None).unwrap();
        assert_eq!(e, ((k % 16) as usize, 15));
        now = t.next_tick;
    }
}

#[test]
fn deadline_spacing_is_at_least_one_interval() {
    let (bpm, iv) = bpm240();
    let patterns = empty_patterns();
    let mut t = Ticker::new(0, bpm, iv);
    t.on_play(0);
    let mut last: Option<u64> = None;
    let mut now = t.next_tick + 3 * MS;  // fire a little late each time
    for _ in 0..10 {
        t.on_deadline(now, &patterns, &None);
        if let Some(prev) = last {
            assert!(now - prev >= iv);
        }
        last = Some(now);
        now = t.next_tick;
    }
}

#[test]
fn pattern_mode_limits_and_clamps() {
    let (bpm, iv) = bpm240();
    let mut patterns = empty_patterns();
    let mut p = Pattern::new("p".to_string());
    p.resize(2);
    patterns.insert_new("p".to_string(), p);
    let ctx = Some("p".to_string());
    let mut t = Ticker::new(0, bpm, iv);
    t.on_play(0);
    // 2 pages: limit 7; a full cycle visits 0..=7 then wraps.
    let mut now = t.next_tick;
    for k in 0..16u64 {
        let e = t.on_deadline(now, &patterns, &ctx).unwrap();
        assert_eq!(e, ((k % 8) as usize, 7));
        now = t.next_tick;
    }
    // track mode meanwhile advanced independently: switching context
    // clamps an out-of-range tick to the new limit.
    t.tick = Some(12);
    let e = t.on_deadline(now, &patterns, &ctx).unwrap();
    assert_eq!(e, (7, 7));
}

#[test]
fn missing_or_empty_pattern_skips_the_cycle() {
    let (bpm, iv) = bpm240();
    let mut patterns = empty_patterns();
    patterns.insert_new("empty".to_string(), Pattern::new("empty".to_string()));
    let mut t = Ticker::new(0, bpm, iv);
    t.on_play(0);
    let now = t.next_tick;
    let e = t.on_deadline(now, &patterns, &Some("ghostly".to_string()));
    assert_eq!(e, None);
    assert_eq!(t.tick, None);
    // the deadline was still rebased.
    assert_eq!(t.next_tick, now + iv);
    let e = t.on_deadline(t.next_tick, &patterns, &Some("empty".to_string()));
    assert_eq!(e, None);
    assert_eq!(t.tick, None);
}
