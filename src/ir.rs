use vstd::prelude::*;

use crate::error::{IRLoaderError, Result};
use crate::wav::{decoding_for, first_channel, first_channel_of, format_supported, WavFormat};

verus! {

/// Number of sub-chunks the rate converter splits the whole impulse response into.
pub const RESAMPLER_CHUNKS: usize = 16;

/// A decoded impulse response: samples of one channel at `sample_rate`, and the
/// file they came from.
pub struct ImpulseResponse<S> {
    pub samples: Vec<S>,
    pub sample_rate: u32,
    pub file: Option<String>,
}

/// What the rate converter has to do to bring an impulse response to a target rate.
#[derive(Debug, Clone, Copy, PartialEq, Eq, Structural)]
pub enum ResamplePlan {
    /// The rates already agree: nothing to convert.
    Keep,
    /// Convert the whole response at once, from `from` to `to` samples per second,
    /// in one chunk of `chunk_size` samples split into `sub_chunks` parts.
    Convert { from: usize, to: usize, chunk_size: usize, sub_chunks: usize },
}

/// `s` without its first `delay` samples (all of them when it is shorter).
pub open spec fn trim_delay<S>(s: Seq<S>, delay: nat) -> Seq<S> {
    if delay <= s.len() { s.skip(delay as int) } else { Seq::empty() }
}

impl<S: Copy> ImpulseResponse<S> {
    /// An empty response: no samples, rate 0, no file.
    pub fn new() -> (r: Self)
        ensures
            r.samples@.len() == 0,
            r.sample_rate == 0,
            r.file.is_none(),
    {
        ImpulseResponse { samples: Vec::new(), sample_rate: 0, file: None }
    }

    /// Replaces the response with channel 0 of the decoded `interleaved` samples of
    /// `file`, whose header is `format`. An unsupported format is a decode error and
    /// leaves the response as it was.
    pub fn load(&mut self, file: String, format: &WavFormat, interleaved: Vec<S>) -> (r: Result<()>)
        ensures
            format_supported(*format) ==> {
                &&& r.is_ok()
                &&& final(self).samples@ == first_channel_of(interleaved@, format.channels as nat)
                &&& final(self).sample_rate == format.sample_rate
                &&& final(self).file == Some(file)
            },
            !format_supported(*format) ==> {
                &&& r == Err::<(), IRLoaderError>(IRLoaderError::WavError)
                &&& *final(self) == *old(self)
            },
    {
        match decoding_for(format) {
            Err(e) => Err(e),
            Ok(_) => {
                self.samples = first_channel(&interleaved, format.channels);
                self.sample_rate = format.sample_rate;
                self.file = Some(file);
                Ok(())
            },
        }
    }

    /// What it takes to bring the response to `sample_rate`.
    pub fn resample_plan(&self, sample_rate: u32) -> (r: ResamplePlan)
        ensures
            sample_rate == self.sample_rate ==> r == ResamplePlan::Keep,
            sample_rate != self.sample_rate ==> r == (ResamplePlan::Convert {
                from: self.sample_rate as usize,
                to: sample_rate as usize,
                chunk_size: self.samples@.len() as usize,
                sub_chunks: RESAMPLER_CHUNKS,
            }),
    {
        if sample_rate == self.sample_rate {
            ResamplePlan::Keep
        } else {
            ResamplePlan::Convert {
                from: self.sample_rate as usize,
                to: sample_rate as usize,
                chunk_size: self.samples.len(),
                sub_chunks: RESAMPLER_CHUNKS,
            }
        }
    }

    /// Brings the response to `sample_rate`. At the same rate nothing changes and
    /// `converted` is not looked at. Otherwise `converted` is the converter's output
    /// with its reported delay: on success the leading `delay` samples are cut so that
    /// the response starts at time zero; a converter error is passed on and the
    /// response stays as it was.
    pub fn resample(&mut self, sample_rate: u32, converted: Result<(Vec<S>, usize)>) -> (r: Result<()>)
        ensures
            sample_rate == old(self).sample_rate ==> r.is_ok() && *final(self) == *old(self),
            sample_rate != old(self).sample_rate ==> match converted {
                Err(e) => r == Err::<(), IRLoaderError>(e) && *final(self) == *old(self),
                Ok((out, delay)) => {
                    &&& r.is_ok()
                    &&& final(self).samples@ == trim_delay(out@, delay as nat)
                    &&& final(self).sample_rate == sample_rate
                    &&& final(self).file == old(self).file
                },
            },
    {
        if sample_rate == self.sample_rate {
            return Ok(());
        }
        match converted {
            Err(e) => Err(e),
            Ok((out, delay)) => {
                let mut out = out;
                if delay <= out.len() {
                    self.samples = out.split_off(delay);
                } else {
                    self.samples = Vec::new();
                }
                self.sample_rate = sample_rate;
                Ok(())
            },
        }
    }
}

impl<S: Copy> Default for ImpulseResponse<S> {
    fn default() -> (r: Self)
        ensures
            r.samples@.len() == 0,
            r.sample_rate == 0,
            r.file.is_none(),
    {
        ImpulseResponse::new()
    }
}

} // verus!
