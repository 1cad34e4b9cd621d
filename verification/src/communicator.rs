//! The communicator: the decision core of the self-healing OSC link.
//!
//! The connection itself — sockets, the 200 ms backoff, the
//! cancellation-safe connect task — lives in the surrounding process.
//! What is verified here is the state machine it drives: for every
//! event the loop can observe, [`comm_step`] fixes the next connection
//! state, the target address, and the ordered actions to perform.

use vstd::prelude::*;
use crate::command::CommunicatorCommand;
use crate::osc::MinOscMessage;

verus! {

/// Something the connection loop observed: a command from the handler,
/// or an outcome of the socket work it performed.
#[derive(Debug, PartialEq)]
pub enum CommEvent {
    Cmd { cmd: CommunicatorCommand },
    ConnectOk,
    ConnectFailed,
    WriteFailed,
    PeerClosed,
    ReadFailed,
}

/// Something the connection loop must do next, in order: nothing; drop
/// a message sent while disconnected (with a warning); publish the
/// connection status to every listener; encode, frame and write one
/// message to the socket; or tear the connection down and try again.
#[derive(Debug, PartialEq)]
pub enum CommAction {
    Idle,
    DropMessage { msg: MinOscMessage },
    PublishStatus { established: bool },
    Write { msg: MinOscMessage },
    Reconnect,
}

/// One step of the communicator's state machine: from the current
/// connection state, the current target address and an observed event
/// to the next state, the next target address and the ordered actions.
///
/// A message sent while disconnected is dropped; while connected it is
/// written.  A new target address is adopted in either state and forces
/// a reconnect, tearing down — and publishing the loss of — a live
/// connection first.  A successful connect publishes `established ==
/// true`; a failed write, a peer close or a read error leaves the
/// connected state and publishes `established == false`; a failed
/// connect attempt just tries again.
pub fn comm_step(connected: bool, target_addr: String, event: CommEvent) -> (r: (
    bool,
    String,
    Vec<CommAction>,
))
    ensures
        match event {
            CommEvent::Cmd { cmd: CommunicatorCommand::ChangeTargetAddr { addr } } => {
                &&& r.0 == false
                &&& r.1@ == addr@
                &&& if connected {
                    &&& r.2@.len() == 2
                    &&& r.2@[0] == (CommAction::PublishStatus { established: false })
                    &&& r.2@[1] == CommAction::Reconnect
                } else {
                    &&& r.2@.len() == 1
                    &&& r.2@[0] == CommAction::Reconnect
                }
            },
            CommEvent::Cmd { cmd: CommunicatorCommand::SendMessage { msg } } => {
                &&& r.0 == connected
                &&& r.1@ == target_addr@
                &&& r.2@.len() == 1
                &&& if connected {
                    r.2@[0] matches CommAction::Write { msg: m } && m@ == msg@
                } else {
                    r.2@[0] matches CommAction::DropMessage { msg: m } && m@ == msg@
                }
            },
            CommEvent::ConnectOk => {
                &&& r.0 == true
                &&& r.1@ == target_addr@
                &&& r.2@.len() == 1
                &&& if connected {
                    r.2@[0] == CommAction::Idle
                } else {
                    r.2@[0] == (CommAction::PublishStatus { established: true })
                }
            },
            CommEvent::ConnectFailed => {
                &&& r.0 == connected
                &&& r.1@ == target_addr@
                &&& r.2@.len() == 1
                &&& if connected {
                    r.2@[0] == CommAction::Idle
                } else {
                    r.2@[0] == CommAction::Reconnect
                }
            },
            CommEvent::WriteFailed | CommEvent::PeerClosed | CommEvent::ReadFailed => {
                &&& r.0 == false
                &&& r.1@ == target_addr@
                &&& if connected {
                    &&& r.2@.len() == 2
                    &&& r.2@[0] == (CommAction::PublishStatus { established: false })
                    &&& r.2@[1] == CommAction::Reconnect
                } else {
                    &&& r.2@.len() == 1
                    &&& r.2@[0] == CommAction::Idle
                }
            },
        },
{
    let mut actions: Vec<CommAction> = Vec::new();
    match event {
        CommEvent::Cmd { cmd: CommunicatorCommand::ChangeTargetAddr { addr } } => {
            if connected {
                actions.push(CommAction::PublishStatus { established: false });
            }
            actions.push(CommAction::Reconnect);
            (false, addr, actions)
        },
        CommEvent::Cmd { cmd: CommunicatorCommand::SendMessage { msg } } => {
            if connected {
                actions.push(CommAction::Write { msg });
            } else {
                actions.push(CommAction::DropMessage { msg });
            }
            (connected, target_addr, actions)
        },
        CommEvent::ConnectOk => {
            if connected {
                actions.push(CommAction::Idle);
            } else {
                actions.push(CommAction::PublishStatus { established: true });
            }
            (true, target_addr, actions)
        },
        CommEvent::ConnectFailed => {
            if connected {
                actions.push(CommAction::Idle);
            } else {
                actions.push(CommAction::Reconnect);
            }
            (connected, target_addr, actions)
        },
        CommEvent::WriteFailed | CommEvent::PeerClosed | CommEvent::ReadFailed => {
            if connected {
                actions.push(CommAction::PublishStatus { established: false });
                actions.push(CommAction::Reconnect);
            } else {
                actions.push(CommAction::Idle);
            }
            (false, target_addr, actions)
        },
    }
}

/// The status publications track the state transitions: a step that
/// enters the connected state publishes `established == true`, and a
/// step that leaves it publishes `established == false` — so listeners
/// always learn of a connection change.
pub proof fn lemma_status_published_on_change(
    connected: bool,
    target_addr: String,
    event: CommEvent,
    r: (bool, String, Vec<CommAction>),
)
    requires
        call_ensures(comm_step, (connected, target_addr, event), r),
    ensures
        !connected && r.0 ==> r.2@.contains(CommAction::PublishStatus { established: true }),
        connected && !r.0 ==> r.2@.contains(CommAction::PublishStatus { established: false }),
{
    match event {
        CommEvent::Cmd { cmd: CommunicatorCommand::ChangeTargetAddr { addr } } => {
            if connected {
                assert(r.2@[0] == (CommAction::PublishStatus { established: false }));
            }
        },
        CommEvent::ConnectOk => {
            if !connected {
                assert(r.2@[0] == (CommAction::PublishStatus { established: true }));
            }
        },
        CommEvent::WriteFailed | CommEvent::PeerClosed | CommEvent::ReadFailed => {
            if connected {
                assert(r.2@[0] == (CommAction::PublishStatus { established: false }));
            }
        },
        _ => {},
    }
}

} // verus!
