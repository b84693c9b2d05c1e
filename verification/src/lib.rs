//! Verified core of a local voice-dictation and meeting-capture tool: the
//! decisions of the dictation, recording and ghost-mode workers, the meeting
//! notes they write, and the settings and models they use.

pub mod audio;
pub mod config;
pub mod ghost;
pub mod hotkey;
pub mod llm;
pub mod models;
pub mod pipeline;
pub mod pkm;
pub mod stamp;
pub mod stt;
pub mod text;
