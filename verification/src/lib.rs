//! Microphone capture with operating-system level acoustic echo cancellation:
//! the portable pipeline that sits between a native audio engine and the
//! application. It normalizes native sample formats to canonical mono words,
//! converts rates with a fixed-chunk accumulating resampler, optionally
//! duplicates mono to stereo, and moves blocks through bounded queues from a
//! real-time producer to a consumer-paced facade.

pub mod config;
pub mod format;
pub mod pipeline;
pub mod queue;
pub mod session;
pub mod errors;
pub mod resampler;

pub use config::AecConfig;
pub use config::Channels;
pub use errors::AecError;
