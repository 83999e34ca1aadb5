//! Properties of the request-resolution policy, stated and proved once for
//! every request, over the same spec functions that the executable
//! contracts use.

use vstd::prelude::*;

use crate::params::GenerationParameters;
use crate::params::spec_t_start;
use crate::pipeline::spec_embedding_batch;
use crate::pipeline::spec_encode_jobs;
use crate::scheduler::TRAIN_TIMESTEPS;
use crate::scheduler::spec_leading_timesteps;
use crate::scheduler::spec_trailing_timesteps;
use crate::version::StableDiffusionVersion;

verus! {

/// With a resolved guidance scale of at most 1.0 — for any model version —
/// no unconditional text is handed to any encoder, and the conditioning
/// batch is 1, so the prediction is used unmodified (no split and
/// recombine).
pub proof fn lemma_low_guidance_no_uncond(
    version: StableDiffusionVersion,
    p: &GenerationParameters,
)
    requires
        p.spec_resolved_guidance_milli(version) <= 1000,
    ensures
        spec_embedding_batch(version, p) == 1,
        forall|j: int|
            0 <= j < spec_encode_jobs(version, p).len() ==> (#[trigger] spec_encode_jobs(
                version,
                p,
            )[j]).1 is None,
{
}

/// For the single-encoder versions the dual-encoder pass never happens and
/// the style prompts have no effect: two requests that agree on the prompt,
/// the unconditional prompt and the guidance scale produce identical encode
/// jobs, whatever their style fields hold.
pub proof fn lemma_style_ignored_single_encoder(
    version: StableDiffusionVersion,
    p1: &GenerationParameters,
    p2: &GenerationParameters,
)
    requires
        !version.spec_uses_dual_encoder(),
        p1.prompt@ == p2.prompt@,
        p1.uncond_prompt@ == p2.uncond_prompt@,
        p1.guidance_scale_milli == p2.guidance_scale_milli,
    ensures
        spec_encode_jobs(version, p1).len() == 1,
        spec_encode_jobs(version, p1) =~= spec_encode_jobs(version, p2),
{
}

/// For the dual-encoder versions there are exactly two encoder passes; an
/// omitted style prompt defaults to the primary prompt, and an omitted
/// unconditional style prompt defaults to the empty string.
pub proof fn lemma_style_prompt_defaults(
    version: StableDiffusionVersion,
    p: &GenerationParameters,
)
    requires
        version.spec_uses_dual_encoder(),
    ensures
        spec_encode_jobs(version, p).len() == 2,
        p.style_prompt is None ==> spec_encode_jobs(version, p)[1].0 == p.prompt@,
        (p.uncond_style_prompt is None && p.spec_use_guide_scale(version)) ==> spec_encode_jobs(
            version,
            p,
        )[1].1 == Some(Seq::<char>::empty()),
{
}

/// The schedule length equals the requested step count: for every count on
/// the leading (non-Turbo) schedule, and on the trailing (Turbo) schedule
/// whenever the count divides the training range. (The trailing schedule of
/// a non-divisor count is longer; for example 3 steps give 4 entries.)
pub proof fn lemma_schedule_length(n: usize)
    requires
        1 <= n <= TRAIN_TIMESTEPS,
    ensures
        spec_leading_timesteps(n).len() == n,
        TRAIN_TIMESTEPS as int % n as int == 0 ==> spec_trailing_timesteps(n).len() == n,
{
    if TRAIN_TIMESTEPS as int % n as int == 0 {
        let r = TRAIN_TIMESTEPS as int / n as int;
        assert(TRAIN_TIMESTEPS as int == n * r && r >= 1) by (nonlinear_arith)
            requires
                1 <= n <= TRAIN_TIMESTEPS,
                TRAIN_TIMESTEPS as int % n as int == 0,
                r == TRAIN_TIMESTEPS as int / n as int,
        ;
        assert((n * r + r - 1) / r == n) by (nonlinear_arith)
            requires
                r >= 1,
                n >= 1,
        ;
    }
}

/// The leading (non-Turbo) schedule is strictly decreasing, as the reverse
/// diffusion convention asks.
pub proof fn lemma_leading_schedule_decreasing(n: usize)
    requires
        1 <= n <= TRAIN_TIMESTEPS,
    ensures
        forall|i: int, j: int|
            0 <= i < j < spec_leading_timesteps(n).len() ==> #[trigger] spec_leading_timesteps(
                n,
            )[i] > #[trigger] spec_leading_timesteps(n)[j],
{
    let r = TRAIN_TIMESTEPS as int / n as int;
    assert(r >= 1) by (nonlinear_arith)
        requires
            1 <= n <= TRAIN_TIMESTEPS,
            r == TRAIN_TIMESTEPS as int / n as int,
    ;
    assert forall|i: int, j: int| 0 <= i < j < spec_leading_timesteps(n).len() implies #[trigger] spec_leading_timesteps(
        n,
    )[i] > #[trigger] spec_leading_timesteps(n)[j] by {
        assert((n - 1 - i) * r > (n - 1 - j) * r) by (nonlinear_arith)
            requires
                r >= 1,
                i < j,
        ;
    }
}

/// Image-to-image strength 1.0 starts the schedule at its beginning (the
/// source latent is fully re-noised); strength 0.0 starts past its end (no
/// denoising step runs at all).
pub proof fn lemma_t_start_extremes(n_steps: usize)
    ensures
        spec_t_start(n_steps, 1000) == 0,
        spec_t_start(n_steps, 0) == n_steps,
{
    assert((n_steps * 1000) / 1000 == n_steps) by (nonlinear_arith)
        requires
            n_steps >= 0,
    ;
}

} // verus!
