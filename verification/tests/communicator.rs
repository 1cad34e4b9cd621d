use vibed::command::CommunicatorCommand;
use vibed::communicator::{comm_step, CommAction, CommEvent};
use vibed::osc::{MinOscArg, MinOscMessage};

fn msg() -> MinOscMessage {
    MinOscMessage {
        path: "/n".to_string(),
        arg: MinOscArg::Float(60.0f32.to_bits()),
    }
}

#[test]
fn send_while_disconnected_is_dropped() {
    let (connected, addr, actions) = comm_step(
        false,
        "127.0.0.1:8001".to_string(),
        CommEvent::Cmd {
            cmd: CommunicatorCommand::SendMessage { msg: msg() },
        },
    );
    assert!(!connected);
    assert_eq!(addr, "127.0.0.1:8001");
    assert_eq!(actions, vec![CommAction::DropMessage { msg: msg() }]);
}

#[test]
fn send_while_connected_is_written() {
    let (connected, addr, actions) = comm_step(
        true,
        "127.0.0.1:8001".to_string(),
        CommEvent::Cmd {
            cmd: CommunicatorCommand::SendMessage { msg: msg() },
        },
    );
    assert!(connected);
    assert_eq!(addr, "127.0.0.1:8001");
    assert_eq!(actions, vec![CommAction::Write { msg: msg() }]);
}

#[test]
fn new_address_is_adopted_while_disconnected() {
    let (connected, addr, actions) = comm_step(
        false,
        "127.0.0.1:8001".to_string(),
        CommEvent::Cmd {
            cmd: CommunicatorCommand::ChangeTargetAddr {
                addr: "10.0.0.2:9000".to_string(),
            },
        },
    );
    assert!(!connected);
    assert_eq!(addr, "10.0.0.2:9000");
    assert_eq!(actions, vec![CommAction::Reconnect]);
}

#[test]
fn new_address_tears_down_a_live_connection() {
    let (connected, addr, actions) = comm_step(
        true,
        "127.0.0.1:8001".to_string(),
        CommEvent::Cmd {
            cmd: CommunicatorCommand::ChangeTargetAddr {
                addr: "10.0.0.2:9000".to_string(),
            },
        },
    );
    assert!(!connected);
    assert_eq!(addr, "10.0.0.2:9000");
    assert_eq!(
        actions,
        vec![
            CommAction::PublishStatus { established: false },
            CommAction::Reconnect,
        ]
    );
}

#[test]
fn successful_connect_publishes_established() {
    let (connected, addr, actions) =
        comm_step(false, "127.0.0.1:8001".to_string(), CommEvent::ConnectOk);
    assert!(connected);
    assert_eq!(addr, "127.0.0.1:8001");
    assert_eq!(
        actions,
        vec![CommAction::PublishStatus { established: true }]
    );
}

#[test]
fn failed_connect_just_retries() {
    let (connected, _, actions) =
        comm_step(false, "127.0.0.1:8001".to_string(), CommEvent::ConnectFailed);
    assert!(!connected);
    assert_eq!(actions, vec![CommAction::Reconnect]);
}

#[test]
fn connection_loss_publishes_and_reconnects() {
    for event in [
        CommEvent::WriteFailed,
        CommEvent::PeerClosed,
        CommEvent::ReadFailed,
    ] {
        let (connected, addr, actions) =
            comm_step(true, "127.0.0.1:8001".to_string(), event);
        assert!(!connected);
        assert_eq!(addr, "127.0.0.1:8001");
        assert_eq!(
            actions,
            vec![
                CommAction::PublishStatus { established: false },
                CommAction::Reconnect,
            ]
        );
    }
}
