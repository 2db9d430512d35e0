//! Core logic of a battery-notifier tray application.
//!
//! The library owns the pieces with actual algorithmic content:
//! the window/tray coordinator state machine, the audio-alert flag,
//! the tray-menu model derived from that state, the parser for the
//! battery condition text, and the construction of the notification
//! script. The surrounding application performs the I/O (battery
//! reads, process invocation, marker file, UI toolkit) and feeds the
//! results back in as plain values.

pub mod audio;
pub mod battery;
pub mod coordinator;
pub mod greeting;
pub mod menu;
pub mod notify;
pub mod text;
