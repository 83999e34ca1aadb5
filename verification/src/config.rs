//! The version-selected model configuration of the outside diffusion
//! library: an opaque bundle of layer hyperparameters, tokenizer settings
//! and the scheduler choice. It is produced once per pipeline from the
//! model version, and every structural fact the contracts need is tied to
//! that version through the uninterpreted view [`config_version_of`].

use vstd::prelude::*;

use candle_transformers::models::stable_diffusion::StableDiffusionConfig;
use candle_transformers::models::stable_diffusion::clip;

use crate::version::StableDiffusionVersion;

verus! {

#[verifier::external_type_specification]
#[verifier::external_body]
pub struct ExStableDiffusionConfig(StableDiffusionConfig);

#[verifier::external_type_specification]
#[verifier::external_body]
pub struct ExClipConfig(clip::Config);

/// The model version whose stock configuration this is, if it is one: a
/// configuration built by [`config_for`] maps to its version, anything else
/// is unconstrained.
pub uninterp spec fn stock_version_of(c: StableDiffusionConfig) -> Option<StableDiffusionVersion>;

/// Relies on `StableDiffusionConfig::{v1_5, v2_1, sdxl, sdxl_turbo}`: the
/// stock configuration of each version, with no overrides, deterministic in
/// the version.
#[verifier::external_body]
pub(crate) fn config_for(version: &StableDiffusionVersion) -> (r: StableDiffusionConfig)
    ensures
        stock_version_of(r) == Some(*version),
{
    match version {
        StableDiffusionVersion::V1_5 => StableDiffusionConfig::v1_5(None, None, None),
        StableDiffusionVersion::V2_1 => StableDiffusionConfig::v2_1(None, None, None),
        StableDiffusionVersion::XL => StableDiffusionConfig::sdxl(None, None, None),
        StableDiffusionVersion::Turbo => StableDiffusionConfig::sdxl_turbo(None, None, None),
    }
}

/// Relies on the public `clip` field of `StableDiffusionConfig`: the first
/// text encoder's configuration.
#[verifier::external_body]
pub(crate) fn clip_config(c: &StableDiffusionConfig) -> &clip::Config {
    &c.clip
}

/// Relies on the public `clip2` field of `StableDiffusionConfig`: the
/// second text encoder's configuration, which the stock configurations
/// carry exactly for the dual-encoder versions.
#[verifier::external_body]
pub(crate) fn clip2_config(c: &StableDiffusionConfig) -> (r: Option<&clip::Config>)
    ensures
        stock_version_of(*c) matches Some(v) ==> (r is Some <==> v.spec_uses_dual_encoder()),
{
    c.clip2.as_ref()
}

/// The configuration's pad token, when one is configured: the value of the
/// clip configuration's `pad_with` field.
pub uninterp spec fn spec_clip_pad_text(c: StableDiffusionConfig) -> Option<Seq<char>>;

/// Relies on the public `pad_with` field of the clip configuration: the
/// token that prompts are padded with, when one is configured.
#[verifier::external_body]
pub(crate) fn clip_pad_with(c: &StableDiffusionConfig) -> (r: Option<String>)
    ensures
        r matches Some(s) ==> spec_clip_pad_text(*c) == Some(s@),
        r is None ==> spec_clip_pad_text(*c) is None,
{
    c.clip.pad_with.clone()
}

/// The configuration's context length: the value of the clip
/// configuration's `max_position_embeddings` field.
pub uninterp spec fn spec_clip_maxpos(c: StableDiffusionConfig) -> usize;

/// Relies on the public `max_position_embeddings` field of the clip
/// configuration: the model's context length, which prompts are padded to.
#[verifier::external_body]
pub(crate) fn clip_max_position_embeddings(c: &StableDiffusionConfig) -> (r: usize)
    ensures
        r == spec_clip_maxpos(*c),
{
    c.clip.max_position_embeddings
}

} // verus!
