//! Core of a dual-source audio capture pipeline.
//!
//! Two independently clocked sources (desktop capture and microphone) feed
//! fixed-capacity sample channels; a mixing engine drains them under a
//! master-clock policy, clips the additive mix, meters loudness, and hands
//! the mixed stream to a streaming encoder whose lifecycle (start, pause,
//! resume, stop, device hot-swap) is driven by a session controller.
//!
//! Samples are carried as fixed-point values: an `i32` where
//! [`sample::FULL_SCALE`] stands for full scale (an amplitude of one).
//! The thin platform layer converts the hardware's 32-bit float samples
//! to and from this representation at the boundary.

pub mod channel;
pub mod encoder;
pub mod error;
pub mod format;
pub mod level;
pub mod mixer;
pub mod recorder;
pub mod sample;
pub mod services;

pub use sample::FULL_SCALE;
