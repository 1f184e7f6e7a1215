use vstd::prelude::*;

verus! {

/// What can go wrong while an impulse response is loaded, converted or applied.
#[derive(Debug, Clone, Copy, PartialEq, Eq, Structural)]
pub enum IRLoaderError {
    /// The source file could not be opened or decoded, or its format is unsupported.
    WavError,
    /// A sample rate does not fit the converter's integer domain.
    TryFromIntError,
    /// The rate converter failed while processing.
    ResampleError,
    /// The rate converter could not be built for the requested rates.
    ResamplerConstructionError,
    /// A convolution kernel could not be built.
    FFTConvolverInitError,
    /// A convolution kernel failed while processing a block.
    FFTConvolverProcessError,
    /// The shared path could not be read.
    PoisonError,
    /// Processing was asked for before any impulse response was loaded.
    SamplesEmpty,
}

/// The result type of the library's fallible operations.
pub type Result<T> = core::result::Result<T, IRLoaderError>;

} // verus!
