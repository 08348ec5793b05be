//! Decision logic of a recorder that follows a music player over D-Bus,
//! captures each track it plays and files the captures into a music library.

pub mod text;
pub mod track;
pub mod watchdog;
pub mod config;
pub mod service;
pub mod recorder;

pub use crate::recorder::FinishedRecording;
pub use crate::service::{ConnectionStatus, ServiceControl, Watchdog};
pub use crate::track::{parse_track_info, TrackInfo};
