//! Integer core of a PADsynth-style resynthesis engine.
//!
//! The engine reads one loop of an instrument sample, measures the power of
//! each harmonic, and re-synthesizes a chord by spreading every harmonic over
//! a Gaussian window of output bins. This crate holds the index arithmetic and
//! control decisions of that pipeline: which samples form the loop, which
//! spectrum bins belong to which harmonic, when synthesis of a note stops, how
//! the output spectrum is laid out and accumulated into, and which bin must be
//! made real before the inverse transform. The numeric kernels (transforms,
//! Gaussian envelopes, random phases) operate on the bins these functions
//! select.

pub mod analysis;
pub mod bands;
pub mod error;
pub mod pcm;
pub mod spectrum;
