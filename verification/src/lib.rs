//! Core of a live musical-sequencing control server.
//!
//! Patterns are grids of MIDI note codes and auxiliary OSC messages,
//! organised into four-step pages; tracks are ordered playlists of
//! patterns.  A metronome-like ticker advances in discrete ticks; on each
//! tick the controller projects the active context (one pattern, or all
//! active tracks) into an ordered stream of OSC messages bound for an
//! external synthesizer.  This crate holds the verified logic: the data
//! model, the store, the ticker state machine, the per-tick projection,
//! the command dispatcher, and the wire framing.  The surrounding
//! process (sockets, clocks, JSON persistence) drives it from outside.

pub mod command;
pub mod communicator;
pub mod controller;
pub mod handler;
pub mod models;
pub mod osc;
pub mod store;
pub mod ticker;
