use vibed::command::{ClientCommand, CommunicatorCommand, ServerCommand, Severity};
use vibed::controller::ControllerCommand;
use vibed::handler::{process, status_to_client, tick_to_client, Effect, EngineView};
use vibed::models::{Event, Pattern, Slider, Track};
use vibed::osc::{MinOscArg, MinOscMessage};
use vibed::store::Store;
use vibed::ticker::TickerCommand;

fn env() -> EngineView {
    EngineView {
        tick: None,
        max: 0,
        bpm: 120.0f32.to_bits(),
        playing: false,
        connected: false,
        context: None,
    }
}

fn is_error_notify(e: &Effect) -> bool {
    matches!(
        e,
        Effect::Respond(ClientCommand::Notify {
            severity: Severity::Error,
            ..
        })
    )
}

#[test]
fn pattern_add_stores_under_its_name() {
    let mut s = Store::default();
    let fx = process(&mut s, &env(), ServerCommand::PatternAdd { name: "p".to_string() });
    assert_eq!(fx.len(), 1);
    match &fx[0] {
        Effect::Broadcast(ClientCommand::PatternAdded { name, pattern }) => {
            assert_eq!(name, "p");
            assert_eq!(pattern.name, "p");
            assert_eq!(pattern.page_count, 0);
        }
        other => panic!("unexpected effect: {:?}", other),
    }
    // the stored entity's name equals its key.
    assert_eq!(s.patterns.key_at(0), "p");
    assert_eq!(s.patterns.value_at(0).name, "p");
}

#[test]
fn pattern_add_twice_notifies_error_without_broadcast() {
    let mut s = Store::default();
    process(&mut s, &env(), ServerCommand::PatternAdd { name: "p".to_string() });
    let fx = process(&mut s, &env(), ServerCommand::PatternAdd { name: "p".to_string() });
    assert_eq!(fx.len(), 1);
    assert!(is_error_notify(&fx[0]));
    assert_eq!(s.patterns.len(), 1);
}

#[test]
fn pattern_edit_replaces_and_broadcasts() {
    let mut s = Store::default();
    process(&mut s, &env(), ServerCommand::PatternAdd { name: "p".to_string() });
    let mut p = Pattern::new("p".to_string());
    p.resize(2);
    let fx = process(
        &mut s,
        &env(),
        ServerCommand::PatternEdit { name: "p".to_string(), pattern: p },
    );
    assert!(matches!(
        &fx[0],
        Effect::Broadcast(ClientCommand::PatternEdited { name, pattern })
            if name == "p" && pattern.page_count == 2
    ));
    assert_eq!(s.patterns.value_at(0).page_count, 2);
    // the key stays, even for an edit.
    assert_eq!(s.patterns.key_at(0), "p");
}

#[test]
fn edit_with_foreign_name_is_stored_under_its_key() {
    let mut s = Store::default();
    process(&mut s, &env(), ServerCommand::PatternAdd { name: "p".to_string() });
    let foreign = Pattern::new("q".to_string());
    let fx = process(
        &mut s,
        &env(),
        ServerCommand::PatternEdit { name: "p".to_string(), pattern: foreign },
    );
    // the stored entity carries the name it is keyed under.
    assert_eq!(s.patterns.key_at(0), "p");
    assert_eq!(s.patterns.value_at(0).name, "p");
    assert!(matches!(
        &fx[0],
        Effect::Broadcast(ClientCommand::PatternEdited { name, pattern })
            if name == "p" && pattern.name == "p"
    ));

    process(&mut s, &env(), ServerCommand::TrackAdd { name: "t".to_string() });
    let foreign = Track::new("other".to_string());
    process(
        &mut s,
        &env(),
        ServerCommand::TrackEdit { name: "t".to_string(), track: foreign },
    );
    assert_eq!(s.tracks.value_at(0).name, "t");
}

#[test]
fn malformed_pattern_edit_is_normalized() {
    let mut s = Store::default();
    process(&mut s, &env(), ServerCommand::PatternAdd { name: "p".to_string() });
    // a payload claiming two pages but carrying no grid rows at all
    let mut p = Pattern::new("p".to_string());
    p.page_count = 2;
    p.messages.push(vibed::models::Messages {
        payload: MinOscMessage {
            path: "/aux".to_string(),
            arg: MinOscArg::Float(0),
        },
        actives: vec![],
    });
    process(&mut s, &env(), ServerCommand::PatternEdit { name: "p".to_string(), pattern: p });
    let stored = s.patterns.value_at(0);
    assert_eq!(stored.page_count, 2);
    assert_eq!(stored.midi_codes, vec![[None; 4], [None; 4]]);
    assert_eq!(stored.messages[0].actives, vec![[false; 4], [false; 4]]);
}

#[test]
fn stored_pattern_grids_stay_aligned_with_page_count() {
    let mut s = Store::default();
    process(&mut s, &env(), ServerCommand::PatternAdd { name: "p".to_string() });
    let mut p = Pattern::new("p".to_string());
    p.messages.push(vibed::models::Messages {
        payload: MinOscMessage {
            path: "/aux".to_string(),
            arg: MinOscArg::Float(0),
        },
        actives: vec![],
    });
    p.resize(3);
    process(&mut s, &env(), ServerCommand::PatternEdit { name: "p".to_string(), pattern: p });
    let stored = s.patterns.value_at(0);
    assert_eq!(stored.midi_codes.len(), stored.page_count);
    for lane in &stored.messages {
        assert_eq!(lane.actives.len(), stored.page_count);
    }
}

#[test]
fn pattern_delete_missing_notifies_error() {
    let mut s = Store::default();
    let fx = process(&mut s, &env(), ServerCommand::PatternDelete { name: "p".to_string() });
    assert!(is_error_notify(&fx[0]));
    let _ = process(&mut s, &env(), ServerCommand::PatternAdd { name: "p".to_string() });
    let fx = process(&mut s, &env(), ServerCommand::PatternDelete { name: "p".to_string() });
    assert!(matches!(
        &fx[0],
        Effect::Broadcast(ClientCommand::PatternDeleted { name }) if name == "p"
    ));
    assert_eq!(s.patterns.len(), 0);
}

#[test]
fn track_add_edit_delete_cycle() {
    let mut s = Store::default();
    let fx = process(&mut s, &env(), ServerCommand::TrackAdd { name: "t".to_string() });
    assert!(matches!(
        &fx[0],
        Effect::Broadcast(ClientCommand::TrackAdded { name, track })
            if name == "t" && !track.active && track.patterns.is_empty()
    ));
    let mut t = Track::new("t".to_string());
    t.patterns.push("p".to_string());
    let fx = process(
        &mut s,
        &env(),
        ServerCommand::TrackEdit { name: "t".to_string(), track: t },
    );
    assert!(matches!(&fx[0], Effect::Broadcast(ClientCommand::TrackEdited { .. })));
    assert_eq!(s.tracks.value_at(0).patterns, vec!["p".to_string()]);
    let fx = process(&mut s, &env(), ServerCommand::TrackDelete { name: "t".to_string() });
    assert!(matches!(&fx[0], Effect::Broadcast(ClientCommand::TrackDeleted { .. })));
    assert_eq!(s.tracks.len(), 0);
}

#[test]
fn track_make_active_force_restarts_at_page_position() {
    let mut s = Store::default();
    process(&mut s, &env(), ServerCommand::TrackAdd { name: "t".to_string() });
    let mut e = env();
    e.tick = Some(6);
    let fx = process(
        &mut s,
        &e,
        ServerCommand::TrackMakeActive { name: "t".to_string(), active: true, force: true },
    );
    assert_eq!(fx.len(), 2);
    assert!(matches!(
        &fx[0],
        Effect::Broadcast(ClientCommand::TrackMadeActive { name, active: true }) if name == "t"
    ));
    assert!(matches!(
        &fx[1],
        Effect::Broadcast(ClientCommand::TrackProgressUpdate { name, progress: Some(2) })
            if name == "t"
    ));
    let t = s.tracks.value_at(0);
    assert!(t.active);
    assert_eq!(t.progress, Some(2));
    // forcing it off clears the progress.
    let fx = process(
        &mut s,
        &e,
        ServerCommand::TrackMakeActive { name: "t".to_string(), active: false, force: true },
    );
    assert!(matches!(
        &fx[1],
        Effect::Broadcast(ClientCommand::TrackProgressUpdate { progress: None, .. })
    ));
    assert_eq!(s.tracks.value_at(0).progress, None);
}

#[test]
fn track_make_loop_sets_flag() {
    let mut s = Store::default();
    process(&mut s, &env(), ServerCommand::TrackAdd { name: "t".to_string() });
    let fx = process(
        &mut s,
        &env(),
        ServerCommand::TrackMakeLoop { name: "t".to_string(), looping: true },
    );
    assert!(matches!(
        &fx[0],
        Effect::Broadcast(ClientCommand::TrackMadeLoop { name, looping: true }) if name == "t"
    ));
    assert!(s.tracks.value_at(0).looping);
}

#[test]
fn event_fire_sends_payload_on_path() {
    let mut s = Store::default();
    process(&mut s, &env(), ServerCommand::EventAdd { name: "e".to_string() });
    let mut ev = Event::new("e".to_string());
    ev.path = "/fire".to_string();
    ev.payload = MinOscArg::Float(3.5f32.to_bits());
    process(&mut s, &env(), ServerCommand::EventEdit { name: "e".to_string(), event: ev });
    let fx = process(&mut s, &env(), ServerCommand::EventFire { name: "e".to_string() });
    assert_eq!(
        fx,
        vec![Effect::Comm(CommunicatorCommand::SendMessage {
            msg: MinOscMessage {
                path: "/fire".to_string(),
                arg: MinOscArg::Float(3.5f32.to_bits()),
            },
        })]
    );
    let fx = process(&mut s, &env(), ServerCommand::EventFire { name: "nope".to_string() });
    assert!(is_error_notify(&fx[0]));
}

#[test]
fn slider_set_val_broadcasts_then_sends() {
    let mut s = Store::default();
    process(&mut s, &env(), ServerCommand::SliderAdd { name: "s".to_string() });
    let mut sl = Slider::new("s".to_string());
    sl.path = "/vol".to_string();
    process(&mut s, &env(), ServerCommand::SliderEdit { name: "s".to_string(), slider: sl });
    let v = 0.75f32.to_bits();
    let fx = process(
        &mut s,
        &env(),
        ServerCommand::SliderSetVal { name: "s".to_string(), val: v },
    );
    assert_eq!(fx.len(), 2);
    assert!(matches!(
        &fx[0],
        Effect::Broadcast(ClientCommand::SliderValSet { name, val }) if name == "s" && *val == v
    ));
    assert_eq!(
        fx[1],
        Effect::Comm(CommunicatorCommand::SendMessage {
            msg: MinOscMessage {
                path: "/vol".to_string(),
                arg: MinOscArg::Float(v),
            },
        })
    );
    assert_eq!(s.sliders.value_at(0).val, v);
}

#[test]
fn slider_new_defaults_are_unit_range() {
    let sl = Slider::new("s".to_string());
    assert_eq!(sl.val, 0.0f32.to_bits());
    assert_eq!(sl.min, 0.0f32.to_bits());
    assert_eq!(sl.max, 1.0f32.to_bits());
}

#[test]
fn ctrl_change_context_checks_pattern_exists() {
    let mut s = Store::default();
    let fx = process(
        &mut s,
        &env(),
        ServerCommand::CtrlChangeContext { context: Some("p".to_string()) },
    );
    assert_eq!(fx.len(), 1);
    assert!(is_error_notify(&fx[0]));
    process(&mut s, &env(), ServerCommand::PatternAdd { name: "p".to_string() });
    let fx = process(
        &mut s,
        &env(),
        ServerCommand::CtrlChangeContext { context: Some("p".to_string()) },
    );
    assert_eq!(
        fx,
        vec![
            Effect::Controller(ControllerCommand::ChangeContext {
                context: Some("p".to_string()),
            }),
            Effect::Broadcast(ClientCommand::CtrlContextChanged {
                context: Some("p".to_string()),
            }),
        ]
    );
    let fx = process(&mut s, &env(), ServerCommand::CtrlChangeContext { context: None });
    assert_eq!(
        fx,
        vec![
            Effect::Controller(ControllerCommand::ChangeContext { context: None }),
            Effect::Broadcast(ClientCommand::CtrlContextChanged { context: None }),
        ]
    );
}

#[test]
fn set_project_name_overwrites_and_broadcasts() {
    let mut s = Store::default();
    let fx = process(
        &mut s,
        &env(),
        ServerCommand::SetProjectName { name: "songbook".to_string() },
    );
    assert_eq!(
        fx,
        vec![Effect::Broadcast(ClientCommand::ProjectNameUpdated {
            name: "songbook".to_string(),
        })]
    );
    assert_eq!(s.name, "songbook");
}

#[test]
fn comm_change_addr_forwards_then_broadcasts() {
    let mut s = Store::default();
    let fx = process(
        &mut s,
        &env(),
        ServerCommand::CommChangeAddr { addr: "10.0.0.2:9000".to_string() },
    );
    assert_eq!(
        fx,
        vec![
            Effect::Comm(CommunicatorCommand::ChangeTargetAddr {
                addr: "10.0.0.2:9000".to_string(),
            }),
            Effect::Broadcast(ClientCommand::CommAddrChanged {
                addr: "10.0.0.2:9000".to_string(),
            }),
        ]
    );
}

#[test]
fn ticker_commands_forward_and_broadcast() {
    let mut s = Store::default();
    let fx = process(&mut s, &env(), ServerCommand::TickerPlay);
    assert_eq!(
        fx,
        vec![
            Effect::Ticker(TickerCommand::Play),
            Effect::Broadcast(ClientCommand::TickerPlaying),
        ]
    );
    let fx = process(&mut s, &env(), ServerCommand::TickerPause);
    assert_eq!(
        fx,
        vec![
            Effect::Ticker(TickerCommand::Pause),
            Effect::Broadcast(ClientCommand::TickerPaused),
        ]
    );
    let bpm = 240.0f32.to_bits();
    let fx = process(&mut s, &env(), ServerCommand::TickerSetBpm { bpm });
    assert_eq!(
        fx,
        vec![
            Effect::Ticker(TickerCommand::SetBPM { bpm }),
            Effect::Broadcast(ClientCommand::TickerBpmUpdated { bpm }),
        ]
    );
}

#[test]
fn ticker_stop_clears_every_progress() {
    let mut s = Store::default();
    process(&mut s, &env(), ServerCommand::TrackAdd { name: "a".to_string() });
    process(&mut s, &env(), ServerCommand::TrackAdd { name: "b".to_string() });
    let mut e = env();
    e.tick = Some(5);
    process(
        &mut s,
        &e,
        ServerCommand::TrackMakeActive { name: "a".to_string(), active: true, force: true },
    );
    assert_eq!(s.tracks.value_at(0).progress, Some(1));
    let fx = process(&mut s, &env(), ServerCommand::TickerStop);
    assert_eq!(fx.len(), 4);
    assert_eq!(fx[0], Effect::Ticker(TickerCommand::Stop));
    assert_eq!(fx[1], Effect::Broadcast(ClientCommand::TickerStopped));
    assert!(matches!(
        &fx[2],
        Effect::Broadcast(ClientCommand::TrackProgressUpdate { name, progress: None })
            if name == "a"
    ));
    assert!(matches!(
        &fx[3],
        Effect::Broadcast(ClientCommand::TrackProgressUpdate { name, progress: None })
            if name == "b"
    ));
    assert_eq!(s.tracks.value_at(0).progress, None);
    assert_eq!(s.tracks.value_at(1).progress, None);
}

#[test]
fn requests_snapshot_current_state() {
    let mut s = Store::default();
    process(&mut s, &env(), ServerCommand::PatternAdd { name: "p".to_string() });
    let mut e = env();
    e.bpm = 96.0f32.to_bits();
    e.playing = true;
    e.connected = true;
    e.tick = Some(4);
    e.max = 15;
    e.context = Some("p".to_string());

    let fx = process(&mut s, &e, ServerCommand::RequestTickerBpm);
    assert_eq!(
        fx,
        vec![Effect::Respond(ClientCommand::ResponseTickerBpm { bpm: e.bpm })]
    );
    let fx = process(&mut s, &e, ServerCommand::RequestTickerPlaying);
    assert_eq!(
        fx,
        vec![Effect::Respond(ClientCommand::ResponseTickerPlaying { playing: true })]
    );
    let fx = process(&mut s, &e, ServerCommand::RequestTickerTick);
    assert_eq!(
        fx,
        vec![Effect::Respond(ClientCommand::ResponseTickerTick { tick: 4, max: 15 })]
    );
    let fx = process(&mut s, &e, ServerCommand::RequestProjectName);
    assert_eq!(
        fx,
        vec![Effect::Respond(ClientCommand::ResponseProjectName {
            name: "Unnamed".to_string(),
        })]
    );
    let fx = process(&mut s, &e, ServerCommand::RequestCommAddr);
    assert_eq!(
        fx,
        vec![Effect::Respond(ClientCommand::ResponseCommAddr {
            addr: "127.0.0.1:8001".to_string(),
        })]
    );
    let fx = process(&mut s, &e, ServerCommand::RequestCommStatus);
    assert_eq!(
        fx,
        vec![Effect::Respond(ClientCommand::ResponseCommStatus { established: true })]
    );
    let fx = process(&mut s, &e, ServerCommand::RequestCtrlContext);
    assert_eq!(
        fx,
        vec![Effect::Respond(ClientCommand::ResponseCtrlContext {
            context: Some("p".to_string()),
        })]
    );
    match &process(&mut s, &e, ServerCommand::RequestAllPatterns)[0] {
        Effect::Respond(ClientCommand::ResponseAllPatterns { patterns }) => {
            assert_eq!(patterns.len(), 1);
            assert_eq!(patterns.value_at(0).name, "p");
        }
        other => panic!("unexpected effect: {:?}", other),
    }
}

#[test]
fn stopped_tick_reports_minus_one() {
    let mut s = Store::default();
    let fx = process(&mut s, &env(), ServerCommand::RequestTickerTick);
    assert_eq!(
        fx,
        vec![Effect::Respond(ClientCommand::ResponseTickerTick { tick: -1, max: 0 })]
    );
}

#[test]
fn session_translations() {
    assert_eq!(
        tick_to_client(Some(3), 15),
        Some(ClientCommand::TickerTick { tick: 3, max: 15 })
    );
    assert_eq!(tick_to_client(None, 7), None);
    assert_eq!(
        status_to_client(true),
        ClientCommand::CommStatusChanged { established: true }
    );
}
