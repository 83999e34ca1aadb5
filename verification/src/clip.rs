//! The text encoder: an opaque transformer that maps a token id sequence
//! to a continuous embedding tensor of shape
//! `(1, sequence length, encoder width)`. Under active guidance the
//! unconditional and conditional embeddings are stacked along the batch
//! axis, giving batch size 2.

use vstd::prelude::*;

use candle_core::Device;
use candle_core::Module;
use candle_core::Tensor;
use candle_transformers::models::stable_diffusion::clip;

use crate::error::DiffusionError;
use crate::tensor::cat_batch;
use crate::tensor::dims_of;
use crate::version::DType;

verus! {

#[verifier::external_type_specification]
#[verifier::external_body]
pub struct ExClipTextTransformer(clip::ClipTextTransformer);

/// The width (hidden size) of a text encoder's embeddings: a constant of
/// the loaded model.
pub uninterp spec fn clip_width_of(c: clip::ClipTextTransformer) -> nat;

/// Relies on `stable_diffusion::build_clip_transformer`: loads the text
/// encoder from a weight file.
#[verifier::external_body]
fn build_clip(
    config: &clip::Config,
    weights: &str,
    device: &Device,
    dtype: DType,
) -> Result<clip::ClipTextTransformer, String> {
    let dt = match dtype {
        DType::F16 => candle_core::DType::F16,
        DType::BF16 => candle_core::DType::BF16,
        DType::F32 => candle_core::DType::F32,
    };
    candle_transformers::models::stable_diffusion::build_clip_transformer(
        config, weights, device, dt,
    )
    .map_err(|e| format!("{e}"))
}

/// Relies on `ClipTextTransformer::forward` (and `Tensor::new`,
/// `unsqueeze`, `to_dtype` around it): the ids become a `(1, n)` tensor,
/// the transformer maps it to a `(1, n, width)` embedding, where the width
/// is the loaded model's hidden size, named by [`clip_width_of`]. The
/// middle dimension is promised only for `n >= 2`: the embedding layer
/// adds the position table by a two-sided broadcast, so a single id (or a
/// single-entry table) can broadcast up to the table's length instead of
/// failing; batch, rank and width hold of every success.
#[verifier::external_body]
fn clip_forward(
    clip: &clip::ClipTextTransformer,
    ids: &Vec<u32>,
    device: &Device,
    dtype: DType,
) -> (r: Result<Tensor, String>)
    ensures
        r matches Ok(t) ==> dims_of(t).len() == 3 && dims_of(t)[0] == 1 && dims_of(t)[2]
            == clip_width_of(*clip),
        r matches Ok(t) ==> (ids@.len() >= 2 ==> dims_of(t)[1] == ids@.len() as nat),
{
    let dt = match dtype {
        DType::F16 => candle_core::DType::F16,
        DType::BF16 => candle_core::DType::BF16,
        DType::F32 => candle_core::DType::F32,
    };
    let tokens = Tensor::new(ids.as_slice(), device)
        .and_then(|t| t.unsqueeze(0))
        .map_err(|e| format!("{e}"))?;
    let embeddings = clip.forward(&tokens).map_err(|e| format!("{e}"))?;
    embeddings.to_dtype(dt).map_err(|e| format!("{e}"))
}

/// A text encoder.
pub struct CLIP {
    clip: clip::ClipTextTransformer,
}

impl CLIP {
    /// The opaque transformer of this encoder.
    pub closed spec fn spec_clip(&self) -> clip::ClipTextTransformer {
        self.clip
    }

    /// The width of this encoder's embeddings.
    pub open spec fn spec_width(&self) -> nat {
        clip_width_of(self.spec_clip())
    }

    /// Load a text encoder from a weight file.
    pub fn new(config: &clip::Config, weights: &str, device: &Device, dtype: DType) -> (r: Result<
        CLIP,
        DiffusionError,
    >)
        ensures
            r matches Err(e) ==> e matches DiffusionError::Construction(_),
    {
        match build_clip(config, weights, device, dtype) {
            Ok(clip) => Ok(CLIP { clip }),
            Err(e) => Err(DiffusionError::Construction(e)),
        }
    }

    /// Encode one token sequence: a `(1, n, width)` embedding tensor (the
    /// middle dimension is promised for sequences of at least two ids).
    pub fn text_embeddings(&self, prompt_tokens: &Vec<u32>, device: &Device, dtype: DType) -> (r:
        Result<Tensor, DiffusionError>)
        ensures
            r matches Ok(t) ==> dims_of(t).len() == 3 && dims_of(t)[0] == 1 && dims_of(t)[2]
                == self.spec_width(),
            r matches Ok(t) ==> (prompt_tokens@.len() >= 2 ==> dims_of(t)[1]
                == prompt_tokens@.len() as nat),
            r matches Err(e) ==> e matches DiffusionError::Generation(_),
    {
        match clip_forward(&self.clip, prompt_tokens, device, dtype) {
            Ok(t) => Ok(t),
            Err(e) => Err(DiffusionError::Generation(e)),
        }
    }

    /// Encode the conditional tokens, and the unconditional ones when they
    /// are given; with both, the embeddings are stacked along the batch
    /// axis as (unconditional, conditional). For sequences of at least two
    /// ids the batch size is 2 exactly when an unconditional sequence of
    /// the same length is given, else 1.
    pub fn text_embeddings_pair(
        &self,
        prompt_tokens: &Vec<u32>,
        uncond_tokens: Option<&Vec<u32>>,
        device: &Device,
        dtype: DType,
    ) -> (r: Result<Tensor, DiffusionError>)
        ensures
            r matches Ok(t) ==> (uncond_tokens is None ==> dims_of(t).len() == 3 && dims_of(t)[0]
                == 1 && dims_of(t)[2] == self.spec_width() && (prompt_tokens@.len() >= 2
                ==> dims_of(t)[1] == prompt_tokens@.len() as nat)),
            r matches Ok(t) ==> (uncond_tokens matches Some(u) ==> ((u@.len()
                == prompt_tokens@.len() && prompt_tokens@.len() >= 2) ==> dims_of(t) =~= seq![
                2nat,
                prompt_tokens@.len() as nat,
                self.spec_width(),
            ])),
            r matches Err(e) ==> e matches DiffusionError::Generation(_),
    {
        let cond = match clip_forward(&self.clip, prompt_tokens, device, dtype) {
            Ok(t) => t,
            Err(e) => {
                return Err(DiffusionError::Generation(e));
            },
        };
        match uncond_tokens {
            None => Ok(cond),
            Some(uncond) => {
                let uncond_emb = match clip_forward(&self.clip, uncond, device, dtype) {
                    Ok(t) => t,
                    Err(e) => {
                        return Err(DiffusionError::Generation(e));
                    },
                };
                proof {
                    if uncond@.len() == prompt_tokens@.len() && prompt_tokens@.len() >= 2 {
                        assert(dims_of(uncond_emb) =~= dims_of(cond));
                    }
                }
                match cat_batch(&uncond_emb, &cond) {
                    Ok(t) => {
                        proof {
                            if uncond@.len() == prompt_tokens@.len() && prompt_tokens@.len() >= 2 {
                                assert(dims_of(t) =~= seq![
                                    2nat,
                                    prompt_tokens@.len() as nat,
                                    self.spec_width(),
                                ]);
                            }
                        }
                        Ok(t)
                    },
                    Err(e) => Err(DiffusionError::Generation(e)),
                }
            },
        }
    }
}

} // verus!
