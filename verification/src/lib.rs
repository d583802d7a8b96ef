//! Error taxonomy and result alias for an FFT-based cross-correlation
//! pipeline.
//!
//! The correlation pipeline itself (forward and inverse transforms, spectral
//! multiplication, peak detection) lives elsewhere; this crate defines the
//! closed set of failures it can report, how a failure is rendered for human
//! consumption, and the result alias every fallible pipeline operation
//! returns.

pub mod error;
