//! The client protocol: commands a client sends to the server and
//! events the server sends to clients.
//!
//! Tempo and slider values travel as IEEE-754 single-precision bit
//! patterns (`u32`); the process boundary converts them to floats when
//! it speaks JSON.  `ResponseTickerTick` reports the tick as a signed
//! integer with `-1` standing for "stopped".

use vstd::prelude::*;
use crate::models::{Event, Pattern, Slider, Track};
use crate::osc::MinOscMessage;
use crate::store::NamedMap;

verus! {

/// A command a client sends to the server.
#[derive(Debug, PartialEq)]
pub enum ServerCommand {
    SetProjectName { name: String },
    CommChangeAddr { addr: String },
    CtrlChangeContext { context: Option<String> },
    TrackAdd { name: String },
    TrackDelete { name: String },
    TrackEdit { name: String, track: Track },
    TrackMakeActive { name: String, active: bool, force: bool },
    TrackMakeLoop { name: String, looping: bool },
    PatternAdd { name: String },
    PatternDelete { name: String },
    PatternEdit { name: String, pattern: Pattern },
    EventAdd { name: String },
    EventDelete { name: String },
    EventEdit { name: String, event: Event },
    EventFire { name: String },
    SliderAdd { name: String },
    SliderDelete { name: String },
    SliderEdit { name: String, slider: Slider },
    SliderSetVal { name: String, val: u32 },
    TickerPlay,
    TickerPause,
    TickerStop,
    TickerSetBpm { bpm: u32 },
    RequestTickerBpm,
    RequestTickerPlaying,
    RequestTickerTick,
    RequestProjectName,
    RequestCommAddr,
    RequestCommStatus,
    RequestCtrlContext,
    RequestAllTracks,
    RequestAllPatterns,
    RequestAllEvents,
    RequestAllSliders,
}

/// An event the server sends to one client or broadcasts to all.
#[derive(Debug, PartialEq)]
pub enum ClientCommand {
    ProjectNameUpdated { name: String },
    CommAddrChanged { addr: String },
    CommStatusChanged { established: bool },
    CtrlContextChanged { context: Option<String> },
    TrackAdded { name: String, track: Track },
    TrackDeleted { name: String },
    TrackEdited { name: String, track: Track },
    TrackMadeActive { name: String, active: bool },
    TrackMadeLoop { name: String, looping: bool },
    TrackProgressUpdate { name: String, progress: Option<usize> },
    PatternAdded { name: String, pattern: Pattern },
    PatternDeleted { name: String },
    PatternEdited { name: String, pattern: Pattern },
    EventAdded { name: String, event: Event },
    EventDeleted { name: String },
    EventEdited { name: String, event: Event },
    SliderAdded { name: String, slider: Slider },
    SliderDeleted { name: String },
    SliderEdited { name: String, slider: Slider },
    SliderValSet { name: String, val: u32 },
    TickerPlaying,
    TickerPaused,
    TickerStopped,
    TickerTick { tick: usize, max: usize },
    TickerBpmUpdated { bpm: u32 },
    ResponseTickerBpm { bpm: u32 },
    ResponseTickerPlaying { playing: bool },
    ResponseTickerTick { tick: isize, max: usize },
    ResponseProjectName { name: String },
    ResponseCommAddr { addr: String },
    ResponseCommStatus { established: bool },
    ResponseCtrlContext { context: Option<String> },
    ResponseAllTracks { tracks: NamedMap<Track> },
    ResponseAllPatterns { patterns: NamedMap<Pattern> },
    ResponseAllEvents { events: NamedMap<Event> },
    ResponseAllSliders { sliders: NamedMap<Slider> },
    Notify { severity: Severity, summary: String, detail: String },
}

/// Notification severity, as the editor displays it.
#[derive(Debug, Clone, Copy, PartialEq, Eq, Structural)]
pub enum Severity {
    Success,
    Info,
    Warn,
    Error,
    Secondary,
    Contrast,
}

/// A command for the communicator: retarget the connection, or send one
/// OSC message to the target.
#[derive(Debug, PartialEq)]
pub enum CommunicatorCommand {
    ChangeTargetAddr { addr: String },
    SendMessage { msg: MinOscMessage },
}

} // verus!
