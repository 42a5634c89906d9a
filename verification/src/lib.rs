//! Control plane of a realtime voice assistant: bounded sample and mel-frame
//! buffers, an endpointing latch, the wake-word window, capture-side chunking
//! and the five-state interaction machine, each with a verified contract.
//!
//! The library is generic in the sample type `T`: it stores, moves and frames
//! samples but never computes on their values. Levels, thresholds and the
//! models are the caller's; the library takes their verdicts.

pub mod audio_capture;
pub mod buffer;
pub mod commands;
pub mod config;
pub mod controller;
pub mod sequences;
pub mod state_machine;
pub mod vad;
pub mod wake_word;

pub use audio_capture::AudioDeviceInfo;
pub use config::VoiceConfig;
pub use controller::VoiceControllerState;
pub use controller::VoiceError;
pub use state_machine::VoiceEvent;
pub use state_machine::VoiceState;
pub use state_machine::VoiceStateMachine;
