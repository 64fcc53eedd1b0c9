//! An AHDSR (Attack-Hold-Decay-Sustain-Release) envelope generator: once per
//! audio sample it turns a raw gate level and seven control parameters into a
//! smoothly shaped scalar, with click-free transitions on note-on, note-off
//! and legato retrigger.
//!
//! All quantities are fixed point: times are microseconds, levels are
//! millionths (`UNIT_VALUE` stands for 1.0), so every step of the per-sample
//! arithmetic is exact and proved free of overflow.

pub mod envelope;
pub mod gate;
pub mod generator;
pub mod params;
pub mod ramp;
