//! Convolution with a recorded impulse response: decoding decisions for the source
//! file, rate conversion bookkeeping, the reload request shared between the
//! interactive and the processing side, and the engine that decides when the
//! per-channel kernels are rebuilt and which channels they process.

use vstd::prelude::*;

pub mod blocks;
pub mod error;
pub mod ir;
pub mod loader;
pub mod params;
pub mod wav;

verus! {

} // verus!
