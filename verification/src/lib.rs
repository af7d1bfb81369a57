//! Verified core of a microphone-capture and transcription pipeline.
//!
//! The library models the lifecycle of a native audio backend's capture
//! device: an address-stable context, a device configuration with a
//! registered callback, the capture device's state machine, the append-only
//! sample buffer that the backend's callback fills, and the hand-off of the
//! finished buffer to a speech-recognition engine. The native calls
//! themselves are made by the surrounding program, which feeds their status
//! codes into the verified state machine and obeys its decisions.

pub mod config;
pub mod device;
pub mod error;
pub mod pipeline;
pub mod trace;
pub mod transcript;
