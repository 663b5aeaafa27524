//! A verified fixed-point synthesis core: a magic-circle sinusoid oscillator,
//! a phase-distortion voice built on it, and a six-voice polyrhythmic
//! ensemble whose per-voice low-frequency oscillators modulate loudness and
//! filter cutoff.
//!
//! The crate carries every signal as a Q30 fixed-point `i64` (see [`fx`]),
//! so the arithmetic of the whole signal path is exact and provable. The
//! band-limited sawtooth, resonant low-pass filter and reverberation unit
//! are external collaborators: the core hands their drivers plain commands
//! (a sawtooth frequency, a cutoff) and takes their samples back as plain
//! values.

pub mod fx;
pub mod trig;
pub mod warp;
pub mod osc;
pub mod tuning;
pub mod pd;
pub mod voice;
pub mod ensemble;
