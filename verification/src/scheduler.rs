//! The noise scheduler: a stepping policy built from the model
//! configuration for a requested inference step count. It yields the
//! ordered timestep sequence and implements initial-noise scaling, the
//! per-step latent update, the per-step model-input transform, and the
//! noise injection used by image-to-image starts.
//!
//! The scheduler object of the outside library is a trait object, which
//! cannot be declared to the verifier, so it is held inside an opaque
//! struct; its timestep sequence is named by [`timesteps_of`] and every
//! method is reached through a trusted wrapper.

use vstd::prelude::*;

use candle_transformers::models::stable_diffusion::StableDiffusionConfig;
use candle_transformers::models::stable_diffusion::schedulers::Scheduler;

use crate::config::stock_version_of;
use crate::tensor::dims_of;
use crate::version::StableDiffusionVersion;

verus! {

/// The number of training timesteps of every supported stock
/// configuration's scheduler: timesteps index a noise table of this length,
/// exclusive at the top.
pub const TRAIN_TIMESTEPS: usize = 1000;

/// A noise scheduler built for a fixed inference step count.
#[verifier::external_body]
pub struct SamplingScheduler {
    inner: Box<dyn Scheduler>,
}

/// The ordered timestep sequence of a built scheduler.
pub uninterp spec fn timesteps_of(s: SamplingScheduler) -> Seq<usize>;

/// The timestep schedule that the stock non-Turbo configurations (a DDIM
/// scheduler with leading spacing and step offset 1) produce for `n`
/// inference steps: `n` entries, the i-th being
/// `(n - 1 - i) * (1000 / n) + 1`.
pub open spec fn spec_leading_timesteps(n: usize) -> Seq<int> {
    Seq::new(n as nat, |i: int| (n - 1 - i) * (TRAIN_TIMESTEPS as int / n as int) + 1)
}

/// The timestep schedule that the stock Turbo configuration (an Euler
/// ancestral scheduler with trailing spacing) produces for `n` inference
/// steps: with `r = 1000 / n`, `ceil(1000 / r)` entries, the k-th being
/// `1000 - k * r - 1`. The length equals `n` exactly when `n` divides 1000.
pub open spec fn spec_trailing_timesteps(n: usize) -> Seq<int> {
    let r = TRAIN_TIMESTEPS as int / n as int;
    Seq::new((((TRAIN_TIMESTEPS + r - 1) as int / r)) as nat, |k: int| TRAIN_TIMESTEPS - k * r - 1)
}

/// A sequence of machine timesteps equals a mathematical schedule.
pub open spec fn spec_matches_schedule(ts: Seq<usize>, schedule: Seq<int>) -> bool {
    ts.len() == schedule.len() && (forall|i: int|
        0 <= i < ts.len() ==> ts[i] == #[trigger] schedule[i])
}

/// Relies on `StableDiffusionConfig::build_scheduler` and on the stock
/// scheduler configurations: DDIM with leading spacing and offset 1 for
/// V1_5, V2_1 and XL; Euler ancestral with trailing spacing for Turbo; both
/// with 1000 training timesteps. The schedule formulas are read off those
/// sources; every timestep is at most [`TRAIN_TIMESTEPS`].
///
/// A zero step count would divide by zero inside the outside library, and
/// the Turbo (trailing) schedule does not terminate for counts above the
/// training range, so those are excluded.
#[verifier::external_body]
pub(crate) fn build_scheduler(config: &StableDiffusionConfig, n_steps: usize) -> (r: Result<
    SamplingScheduler,
    String,
>)
    requires
        n_steps >= 1,
        stock_version_of(*config) == Some(StableDiffusionVersion::Turbo) ==> n_steps
            <= TRAIN_TIMESTEPS,
    ensures
        r matches Ok(s) ==> {
            &&& forall|i: int|
                0 <= i < timesteps_of(s).len() ==> #[trigger] timesteps_of(s)[i] <= TRAIN_TIMESTEPS
            &&& (stock_version_of(*config) matches Some(v) ==> (v != StableDiffusionVersion::Turbo
                ==> spec_matches_schedule(timesteps_of(s), spec_leading_timesteps(n_steps))))
            &&& stock_version_of(*config) == Some(StableDiffusionVersion::Turbo)
                ==> spec_matches_schedule(timesteps_of(s), spec_trailing_timesteps(n_steps))
        },
{
    let inner = config.build_scheduler(n_steps).map_err(|e| format!("{e}"))?;
    Ok(SamplingScheduler { inner })
}

/// Relies on `Scheduler::timesteps`: the schedule the scheduler was built
/// with, as a vector.
#[verifier::external_body]
pub(crate) fn scheduler_timesteps(s: &SamplingScheduler) -> (r: Vec<usize>)
    ensures
        r@ == timesteps_of(*s),
{
    s.inner.timesteps().to_vec()
}

/// Relies on `Scheduler::scale_model_input`: the identity for DDIM, an
/// elementwise sigma rescale for Euler ancestral; either way the shape is
/// kept.
#[verifier::external_body]
pub(crate) fn scale_model_input(s: &SamplingScheduler, sample: candle_core::Tensor, timestep: usize) -> (r:
    Result<candle_core::Tensor, String>)
    ensures
        r matches Ok(t) ==> dims_of(t) == dims_of(sample),
{
    s.inner.scale_model_input(sample, timestep).map_err(|e| format!("{e}"))
}

/// Relies on `Scheduler::step`: one reverse-diffusion update, elementwise
/// over the prediction and the current latent, so equal shapes carry over.
/// Timesteps beyond the training range would index past the scheduler's
/// noise table, so they are excluded; the built schedules stay within it.
#[verifier::external_body]
pub(crate) fn scheduler_step(
    s: &SamplingScheduler,
    model_output: &candle_core::Tensor,
    timestep: usize,
    sample: &candle_core::Tensor,
) -> (r: Result<candle_core::Tensor, String>)
    requires
        timestep <= TRAIN_TIMESTEPS,
    ensures
        r matches Ok(t) ==> (dims_of(*model_output) == dims_of(*sample) ==> dims_of(t) == dims_of(
            *sample,
        )),
{
    s.inner.step(model_output, timestep, sample).map_err(|e| format!("{e}"))
}

/// Relies on `Scheduler::add_noise`: noising of a latent as of the given
/// timestep, elementwise over latent and noise, so equal shapes carry over.
/// Timesteps beyond the training range would index past the scheduler's
/// noise table, so they are excluded.
#[verifier::external_body]
pub(crate) fn scheduler_add_noise(
    s: &SamplingScheduler,
    original: &candle_core::Tensor,
    noise: candle_core::Tensor,
    timestep: usize,
) -> (r: Result<candle_core::Tensor, String>)
    requires
        timestep <= TRAIN_TIMESTEPS,
    ensures
        r matches Ok(t) ==> (dims_of(noise) == dims_of(*original) ==> dims_of(t) == dims_of(
            *original,
        )),
{
    s.inner.add_noise(original, noise, timestep).map_err(|e| format!("{e}"))
}

/// Relies on `Scheduler::init_noise_sigma` and the tensor scalar multiply:
/// scales a fresh latent by the scheduler's initial noise deviation,
/// keeping the shape.
#[verifier::external_body]
pub(crate) fn scale_by_init_noise_sigma(s: &SamplingScheduler, t: &candle_core::Tensor) -> (r:
    Result<candle_core::Tensor, String>)
    ensures
        r matches Ok(c) ==> dims_of(c) == dims_of(*t),
{
    (t * s.inner.init_noise_sigma()).map_err(|e| format!("{e}"))
}

} // verus!
