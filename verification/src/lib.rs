//! Verified core of a wake-word listening pipeline.
//!
//! Audio arrives from a hardware callback as interleaved float frames, is
//! downmixed and resampled outside this crate, and reaches the verified core
//! as blocks of 16-bit PCM samples. This crate holds the logic that is worth
//! proving: buffering samples into fixed-size resampler input blocks,
//! aggregating resampled chunks up to a minimum duration, selecting an input
//! device by name, and the wake-word detection state machine that decides,
//! chunk by chunk, whether a wake event fired.

pub mod audio;
pub mod detect;
pub mod devices;
pub mod text;

pub use audio::Aggregator;
pub use audio::BlockBuffer;
