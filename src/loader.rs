use vstd::prelude::*;

use crate::error::{IRLoaderError, Result};
use crate::ir::ImpulseResponse;
use crate::params::IRLoaderParams;

verus! {

/// Samples each convolution kernel consumes and produces per call.
pub const SIZE: usize = 8;

/// The engine's own state: the active impulse response, how many per-channel kernels
/// were built from it, and the processing rate and channel count the host gave.
///
/// The kernels themselves live beside the engine; `kernels` counts the live set,
/// 0 when none was ever built.
pub struct IRLoader<S> {
    pub impulse_response: ImpulseResponse<S>,
    pub kernels: usize,
    pub sample_rate: u32,
    pub nchannels: u8,
}

/// What the processing side does with the next buffer.
#[derive(Debug, Clone, PartialEq, Eq)]
pub enum Step {
    /// Load, convert and rebuild from this file before processing again.
    Reload(String),
    /// A load is pending but no file was chosen: audio passes through.
    Wait,
    /// Run the buffer through the kernels.
    Process,
}

/// The step the processing side takes for a request `params`.
pub open spec fn step_for(params: IRLoaderParams) -> Step {
    if params.need_reload {
        match params.ir_file {
            Some(f) => Step::Reload(f),
            None => Step::Wait,
        }
    } else {
        Step::Process
    }
}

/// Whether a request stays pending once a reload of `file` ends: only when it has
/// meanwhile been replaced by a request for another file.
pub open spec fn still_pending(params: IRLoaderParams, file: Seq<char>) -> bool {
    match params.ir_file {
        Some(f) => params.need_reload && f@ != file,
        None => false,
    }
}

impl<S> IRLoader<S> {
    /// A live set of kernels was built from a non-empty response at the current
    /// processing rate, one kernel per current channel.
    pub open spec fn wf(&self) -> bool {
        self.kernels > 0 ==> {
            &&& self.impulse_response.samples@.len() > 0
            &&& self.impulse_response.sample_rate == self.sample_rate
            &&& self.kernels == self.nchannels as usize
        }
    }

    /// The engine after the host gives `sample_rate` and `nchannels`: a kernel set
    /// built for another rate or channel count is dropped, so it is never used.
    pub open spec fn after_init(self, sample_rate: u32, nchannels: u8) -> Self {
        IRLoader {
            kernels: if sample_rate == self.sample_rate && nchannels == self.nchannels {
                self.kernels
            } else {
                0
            },
            sample_rate,
            nchannels,
            ..self
        }
    }

    /// What processing `channels` channels yields: the number of leading channels that
    /// have a kernel, or `SamplesEmpty` while no response is loaded.
    pub open spec fn process_outcome(&self, channels: nat) -> Result<usize> {
        if self.impulse_response.samples@.len() == 0 {
            Err(IRLoaderError::SamplesEmpty)
        } else if channels < self.kernels {
            Ok(channels as usize)
        } else {
            Ok(self.kernels)
        }
    }

    /// Why a candidate response cannot become the active one, if it cannot.
    pub open spec fn reload_error(&self, candidate: Result<ImpulseResponse<S>>) -> Option<IRLoaderError> {
        match candidate {
            Err(e) => Some(e),
            Ok(ir) => if ir.samples@.len() == 0 {
                Some(IRLoaderError::FFTConvolverInitError)
            } else if ir.sample_rate != self.sample_rate {
                Some(IRLoaderError::ResampleError)
            } else {
                None
            },
        }
    }

    /// The engine after a reload with `candidate`: the candidate and a full kernel set
    /// when it is accepted, the engine unchanged when it is not.
    pub open spec fn after_reload(self, candidate: Result<ImpulseResponse<S>>) -> Self {
        match self.reload_error(candidate) {
            Some(_) => self,
            None => IRLoader {
                impulse_response: candidate->Ok_0,
                kernels: self.nchannels as usize,
                ..self
            },
        }
    }
}

impl<S: Copy> IRLoader<S> {
    /// An engine with an empty response (no samples, rate 0, no file), no kernels,
    /// rate 0 and no channels.
    pub fn new() -> (r: Self)
        ensures
            r.wf(),
            r.impulse_response.samples@.len() == 0,
            r.impulse_response.sample_rate == 0,
            r.impulse_response.file.is_none(),
            r.kernels == 0,
            r.sample_rate == 0,
            r.nchannels == 0,
    {
        IRLoader { impulse_response: ImpulseResponse::new(), kernels: 0, sample_rate: 0, nchannels: 0 }
    }

    /// Takes the host's processing rate and channel count and asks for a reload, so
    /// that the kernels are rebuilt for them. When either changed, the kernels built
    /// for the old ones are dropped at once: until a reload succeeds, audio passes
    /// through unprocessed.
    pub fn init(&mut self, params: &mut IRLoaderParams, sample_rate: u32, nchannels: u8)
        requires
            old(self).wf(),
        ensures
            final(self).wf(),
            *final(self) == old(self).after_init(sample_rate, nchannels),
            final(params).need_reload,
            final(params).ir_file == old(params).ir_file,
    {
        if sample_rate != self.sample_rate || nchannels != self.nchannels {
            self.kernels = 0;
        }
        self.sample_rate = sample_rate;
        self.nchannels = nchannels;
        params.set_need_reload(true);
    }

    /// What to do with the next buffer: reload the chosen file while a load is pending,
    /// otherwise process.
    pub fn next_step(&self, params: &IRLoaderParams) -> (r: Step)
        ensures
            r == step_for(*params),
    {
        if params.get_need_reload() {
            match params.get_ir_file() {
                Some(f) => Step::Reload(f),
                None => Step::Wait,
            }
        } else {
            Step::Process
        }
    }

    /// Ends a reload of `file`. `candidate` is the loaded and converted response, or
    /// the error that stopped it. An accepted candidate (non-empty, at the processing
    /// rate) becomes the active response with one kernel per channel; otherwise the
    /// error is returned and the active response and kernels stay in use. Either way
    /// the request for `file` is consumed, so a bad file is not retried on every
    /// buffer; a request for another file made meanwhile stays pending.
    pub fn load_ir(
        &mut self,
        params: &mut IRLoaderParams,
        file: &String,
        candidate: Result<ImpulseResponse<S>>,
    ) -> (r: Result<()>)
        requires
            old(self).wf(),
        ensures
            final(self).wf(),
            *final(self) == old(self).after_reload(candidate),
            r == match old(self).reload_error(candidate) {
                Some(e) => Err::<(), IRLoaderError>(e),
                None => Ok(()),
            },
            final(params).need_reload == still_pending(*old(params), file@),
            final(params).ir_file == old(params).ir_file,
    {
        let replaced = match &params.ir_file {
            Some(f) => *f != *file,
            None => false,
        };
        if !replaced {
            params.set_need_reload(false);
        }
        match candidate {
            Err(e) => Err(e),
            Ok(ir) => {
                if ir.samples.len() == 0 {
                    Err(IRLoaderError::FFTConvolverInitError)
                } else if ir.sample_rate != self.sample_rate {
                    Err(IRLoaderError::ResampleError)
                } else {
                    self.impulse_response = ir;
                    self.kernels = self.nchannels as usize;
                    Ok(())
                }
            },
        }
    }

    /// Checks a call that processes `channels` channels: `SamplesEmpty` while no
    /// response was ever loaded, in which case no audio may be touched; otherwise the
    /// number of leading channels that go through their kernels.
    pub fn process(&self, channels: usize) -> (r: Result<usize>)
        requires
            self.wf(),
        ensures
            r == self.process_outcome(channels as nat),
    {
        if self.impulse_response.samples.len() == 0 {
            Err(IRLoaderError::SamplesEmpty)
        } else if channels < self.kernels {
            Ok(channels)
        } else {
            Ok(self.kernels)
        }
    }
}

/// A reload that fails leaves processing exactly as it was: the same channels go
/// through the same kernels, or processing keeps failing as it did.
pub proof fn lemma_failed_reload_keeps_kernels<S>(
    engine: IRLoader<S>,
    candidate: Result<ImpulseResponse<S>>,
    channels: nat,
)
    requires
        engine.wf(),
        engine.reload_error(candidate).is_some(),
    ensures
        engine.after_reload(candidate) == engine,
        engine.after_reload(candidate).process_outcome(channels) == engine.process_outcome(channels),
{
}

/// Until a reload succeeds, processing fails with `SamplesEmpty`, whatever
/// `init` and failed reloads came before.
pub proof fn lemma_process_before_load<S>(
    engine: IRLoader<S>,
    candidate: Result<ImpulseResponse<S>>,
    channels: nat,
)
    requires
        engine.wf(),
        engine.impulse_response.samples@.len() == 0,
        engine.reload_error(candidate).is_some(),
    ensures
        engine.process_outcome(channels) == Err::<usize, IRLoaderError>(IRLoaderError::SamplesEmpty),
        engine.after_reload(candidate).process_outcome(channels)
            == Err::<usize, IRLoaderError>(IRLoaderError::SamplesEmpty),
{
}

/// After a successful reload every channel up to the channel count has a kernel.
pub proof fn lemma_reload_builds_every_channel<S>(
    engine: IRLoader<S>,
    candidate: Result<ImpulseResponse<S>>,
    channels: nat,
)
    requires
        engine.wf(),
        engine.reload_error(candidate).is_none(),
        channels <= engine.nchannels,
    ensures
        engine.after_reload(candidate).wf(),
        engine.after_reload(candidate).process_outcome(channels) == Ok::<usize, IRLoaderError>(channels as usize),
{
}

/// A request is seen whole: once a file is chosen, with its flag raised in the same
/// step, the processing side's next step reloads exactly that file.
pub proof fn lemma_request_seen_whole(params: IRLoaderParams, file: String)
    requires
        params.ir_file == Some(file),
        params.need_reload,
    ensures
        step_for(params) == Step::Reload(file),
{
}

/// After the host changes the rate or the channel count, no kernel built for the old
/// ones is used: until a reload succeeds, even one that fails, every channel passes
/// through unprocessed (or processing fails as before any load).
pub proof fn lemma_new_setup_drops_stale_kernels<S>(
    engine: IRLoader<S>,
    sample_rate: u32,
    nchannels: u8,
    candidate: Result<ImpulseResponse<S>>,
    channels: nat,
)
    requires
        engine.wf(),
        sample_rate != engine.sample_rate || nchannels != engine.nchannels,
        engine.after_init(sample_rate, nchannels).reload_error(candidate).is_some(),
    ensures
        ({
            let after = engine.after_init(sample_rate, nchannels).after_reload(candidate);
            &&& after.kernels == 0
            &&& after.process_outcome(channels) == if engine.impulse_response.samples@.len() == 0 {
                Err::<usize, IRLoaderError>(IRLoaderError::SamplesEmpty)
            } else {
                Ok::<usize, IRLoaderError>(0)
            }
        }),
{
}

} // verus!
