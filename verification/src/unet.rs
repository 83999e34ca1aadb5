//! The denoising operator: an opaque U-Net mapping (noisy latent,
//! timestep, conditioning embeddings) to a predicted-noise tensor. Its
//! output shape is a fact of the network architecture and is not relied
//! on; downstream steps validate shapes at run time.

use vstd::prelude::*;

use candle_core::Device;
use candle_core::Tensor;
use candle_transformers::models::stable_diffusion::StableDiffusionConfig;
use candle_transformers::models::stable_diffusion::unet_2d::UNet2DConditionModel;

use crate::error::DiffusionError;
use crate::version::DType;

verus! {

#[verifier::external_type_specification]
#[verifier::external_body]
pub struct ExUNet2DConditionModel(UNet2DConditionModel);

/// Relies on `StableDiffusionConfig::build_unet`: loads the U-Net from a
/// weight file, with 4 input channels and without flash attention.
#[verifier::external_body]
fn build_unet(
    config: &StableDiffusionConfig,
    weights: &str,
    device: &Device,
    dtype: DType,
) -> Result<UNet2DConditionModel, String> {
    let dt = match dtype {
        DType::F16 => candle_core::DType::F16,
        DType::BF16 => candle_core::DType::BF16,
        DType::F32 => candle_core::DType::F32,
    };
    let use_flash_attention = false;
    config.build_unet(weights, device, 4, use_flash_attention, dt).map_err(|e| format!("{e}"))
}

/// Relies on `UNet2DConditionModel::forward`: one denoising prediction;
/// the timestep index is handed to the network as its scalar timestep
/// argument. Nothing is promised of the result.
#[verifier::external_body]
fn unet_forward(
    unet: &UNet2DConditionModel,
    latent: &Tensor,
    timestep: usize,
    text_embeddings: &Tensor,
) -> Result<Tensor, String> {
    unet.forward(latent, timestep as _, text_embeddings).map_err(|e| format!("{e}"))
}

/// The denoising operator.
pub struct UNet {
    unet: UNet2DConditionModel,
}

impl UNet {
    /// Load the U-Net from a weight file.
    pub fn new(weights: &str, config: &StableDiffusionConfig, device: &Device, dtype: DType) -> (r:
        Result<UNet, DiffusionError>)
        ensures
            r matches Err(e) ==> e matches DiffusionError::Construction(_),
    {
        match build_unet(config, weights, device, dtype) {
            Ok(unet) => Ok(UNet { unet }),
            Err(e) => Err(DiffusionError::Construction(e)),
        }
    }

    /// Predict the noise present in `latent` at `timestep`, conditioned on
    /// the text embeddings.
    pub fn forward(&self, latent: &Tensor, timestep: usize, text_embeddings: &Tensor) -> (r: Result<
        Tensor,
        DiffusionError,
    >)
        ensures
            r matches Err(e) ==> e matches DiffusionError::Generation(_),
    {
        match unet_forward(&self.unet, latent, timestep, text_embeddings) {
            Ok(t) => Ok(t),
            Err(e) => Err(DiffusionError::Generation(e)),
        }
    }
}

} // verus!
