//! Verified core of ED Compass, a spectrogram anomaly detector and audio
//! direction finder for Elite Dangerous: stream formats and endpoint
//! selection, the capture clock, when a detection may reach the disk, the
//! game state the journal describes and how a growing journal is read, the
//! runtime's status decisions, the settings rules, and the small decisions
//! the interface is built from.

pub mod app;
pub mod audio;
pub mod capture_writer;
pub mod config;
pub mod journal;
pub mod journal_tail;
pub mod text;
pub mod ui;
