//! Debouncing of a single noisy digital input with Kuhn's integration
//! algorithm.
//!
//! Instead of waiting for a fixed number of identical samples in a row, a
//! saturating integrator counts up on each sample of the new state and down
//! on each sample of the old one; the logical state changes only when the
//! integrator saturates. The integrator and two flags live packed in one
//! word (see [`encoding`]); the algorithm on plain values is in [`model`],
//! and its properties over runs of samples in [`laws`].
pub mod encoding;
pub mod model;
pub mod policy;
pub mod engine;
pub mod laws;

pub use engine::{Debounced, Debouncer, DeinitError, InitError, InputSource, PollError};
pub use policy::{ActiveHigh, ActiveLow, Debounce, OriginalKuhn};
