//! Audio plumbing: the recording worker's decisions and the framing of
//! samples for the voice-activity detector.
pub mod capture;
pub mod vad;
