//! Core logic of the Brail screen recorder: configuration defaults, encoder
//! argument construction, stream health, replay buffering, naming of output
//! files, redaction of secrets and hardware capability rules.

pub mod text;
pub mod security;
pub mod streaming;
pub mod hardware;
pub mod encoder;
pub mod replay;
pub mod capture;
pub mod audio;
pub mod storage;
pub mod recording;
pub mod performance;
pub mod hotkeys;
pub mod recovery;
