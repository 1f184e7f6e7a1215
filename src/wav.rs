use vstd::prelude::*;

use crate::error::{IRLoaderError, Result};

verus! {

/// The header facts of a decoded waveform file that the loader reads.
#[derive(Debug, Clone, Copy, PartialEq, Eq, Structural)]
pub struct WavFormat {
    pub channels: u16,
    pub sample_rate: u32,
    pub bits_per_sample: u16,
    /// `true` for floating-point samples, `false` for integer PCM.
    pub is_float: bool,
}

/// How the raw samples of a file become canonical samples.
#[derive(Debug, Clone, Copy, PartialEq, Eq, Structural)]
pub enum SampleDecoding {
    /// Samples are already floating point and are taken as they are.
    Float,
    /// Integer samples are divided by `full_scale`, which is `2^(bits - 1)`.
    Int { full_scale: u64 },
}

/// Integer sample widths the loader accepts.
pub open spec fn supported_int_bits(bits: u16) -> bool {
    bits == 8 || bits == 16 || bits == 24 || bits == 32
}

/// Whether a file of this format can be turned into an impulse response.
pub open spec fn format_supported(f: WavFormat) -> bool {
    &&& f.channels >= 1
    &&& if f.is_float { f.bits_per_sample == 32 } else { supported_int_bits(f.bits_per_sample) }
}

/// `2^e` as a mathematical integer.
pub open spec fn pow2(e: nat) -> int
    decreases e,
{
    if e == 0 { 1 } else { 2 * pow2((e - 1) as nat) }
}

/// The decoding that a supported format calls for.
pub open spec fn decoding_of(f: WavFormat) -> SampleDecoding {
    if f.is_float {
        SampleDecoding::Float
    } else {
        SampleDecoding::Int { full_scale: pow2((f.bits_per_sample - 1) as nat) as u64 }
    }
}

proof fn lemma_pow2_values()
    ensures
        pow2(7) == 128,
        pow2(15) == 32768,
        pow2(23) == 8388608,
        pow2(31) == 2147483648,
{
    reveal_with_fuel(pow2, 32);
}

/// Chooses how the samples of a file of format `format` are decoded.
/// Unsupported channel counts, bit depths or encodings are a decode error.
pub fn decoding_for(format: &WavFormat) -> (r: Result<SampleDecoding>)
    ensures
        format_supported(*format) ==> r == Ok::<SampleDecoding, IRLoaderError>(decoding_of(*format)),
        !format_supported(*format) ==> r == Err::<SampleDecoding, IRLoaderError>(IRLoaderError::WavError),
{
    proof { lemma_pow2_values(); }
    if format.channels == 0 {
        return Err(IRLoaderError::WavError);
    }
    if format.is_float {
        if format.bits_per_sample == 32 {
            Ok(SampleDecoding::Float)
        } else {
            Err(IRLoaderError::WavError)
        }
    } else {
        let bits = format.bits_per_sample;
        if bits == 8 {
            Ok(SampleDecoding::Int { full_scale: 128 })
        } else if bits == 16 {
            Ok(SampleDecoding::Int { full_scale: 32768 })
        } else if bits == 24 {
            Ok(SampleDecoding::Int { full_scale: 8388608 })
        } else if bits == 32 {
            Ok(SampleDecoding::Int { full_scale: 2147483648 })
        } else {
            Err(IRLoaderError::WavError)
        }
    }
}

/// The samples of channel 0 of an interleaved sequence with `channels` channels:
/// one per complete frame.
pub open spec fn first_channel_of<S>(interleaved: Seq<S>, channels: nat) -> Seq<S>
    recommends
        channels >= 1,
{
    Seq::new(interleaved.len() / channels, |i: int| interleaved[i * channels])
}

/// Keeps channel 0 of interleaved samples; a trailing incomplete frame is dropped.
pub fn first_channel<S: Copy>(interleaved: &Vec<S>, channels: u16) -> (r: Vec<S>)
    requires
        channels >= 1,
    ensures
        r@ == first_channel_of(interleaved@, channels as nat),
{
    let step = channels as usize;
    let frames = interleaved.len() / step;
    let mut out: Vec<S> = Vec::with_capacity(frames);
    let mut k: usize = 0;
    while k < frames
        invariant
            step == channels as usize,
            step >= 1,
            frames == interleaved@.len() / (step as nat),
            interleaved@.len() <= usize::MAX,
            k <= frames,
            out@ =~= first_channel_of(interleaved@, channels as nat).take(k as int),
        decreases frames - k,
    {
        proof {
            assert(k * step + step <= frames * step) by (nonlinear_arith)
                requires k < frames, step >= 1;
            assert(frames * step <= interleaved@.len()) by (nonlinear_arith)
                requires frames == interleaved@.len() / (step as nat), step >= 1;
        }
        assert(k * step < interleaved@.len());
        out.push(interleaved[k * step]);
        k = k + 1;
    }
    out
}

} // verus!
