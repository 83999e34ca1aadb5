//! The variational autoencoder: an opaque operator pair. `encode` maps a
//! pixel tensor to a latent distribution (used only by image-to-image
//! starts), `decode` maps a latent back to pixel space. The final decode
//! rescales from [-1, 1] to 8-bit, validates that exactly three channels
//! came out, and reinterprets the bytes as an RGB image.

use vstd::prelude::*;

use candle_core::Device;
use candle_core::IndexOp;
use candle_core::Tensor;
use candle_transformers::models::stable_diffusion::StableDiffusionConfig;
use candle_transformers::models::stable_diffusion::vae::AutoEncoderKL;
use candle_transformers::models::stable_diffusion::vae::DiagonalGaussianDistribution;

use crate::error::DiffusionError;
use crate::params::PixelImage;
use crate::tensor::dims_of;
use crate::tensor::mul_ratio;
use crate::version::DType;
use crate::version::VAE_SCALE_DEN;

verus! {

#[verifier::external_type_specification]
#[verifier::external_body]
pub struct ExAutoEncoderKL(AutoEncoderKL);

#[verifier::external_type_specification]
#[verifier::external_body]
pub struct ExDiagonalGaussianDistribution(DiagonalGaussianDistribution);

/// Relies on `StableDiffusionConfig::build_vae`: loads the autoencoder
/// from a weight file.
#[verifier::external_body]
fn build_vae(
    config: &StableDiffusionConfig,
    weights: &str,
    device: &Device,
    dtype: DType,
) -> Result<AutoEncoderKL, String> {
    let dt = match dtype {
        DType::F16 => candle_core::DType::F16,
        DType::BF16 => candle_core::DType::BF16,
        DType::F32 => candle_core::DType::F32,
    };
    config.build_vae(weights, device, dt).map_err(|e| format!("{e}"))
}

/// Relies on `AutoEncoderKL::encode`: the latent distribution of a pixel
/// tensor.
#[verifier::external_body]
fn vae_encode(vae: &AutoEncoderKL, tensor: &Tensor) -> Result<DiagonalGaussianDistribution, String> {
    vae.encode(tensor).map_err(|e| format!("{e}"))
}

/// Relies on `AutoEncoderKL::decode`: the pixel-space tensor of a latent.
/// Its shape is a fact of the network architecture and is not relied on.
#[verifier::external_body]
fn vae_decode(vae: &AutoEncoderKL, tensor: &Tensor) -> Result<Tensor, String> {
    vae.decode(tensor).map_err(|e| format!("{e}"))
}

/// Relies on `Tensor::from_vec`, `permute` and `to_dtype`: an 8-bit RGB
/// image becomes a `(3, height, width)` tensor of its byte values.
#[verifier::external_body]
fn image_tensor(image: &PixelImage, device: &Device, dtype: DType) -> (r: Result<Tensor, String>)
    ensures
        r matches Ok(t) ==> dims_of(t) =~= seq![
            3nat,
            image.height as nat,
            image.width as nat,
        ],
{
    let dt = match dtype {
        DType::F16 => candle_core::DType::F16,
        DType::BF16 => candle_core::DType::BF16,
        DType::F32 => candle_core::DType::F32,
    };
    Tensor::from_vec(image.data.clone(), (image.height, image.width, 3usize), device)
        .and_then(|t| t.permute((2usize, 0usize, 1usize)))
        .and_then(|t| t.to_dtype(dt))
        .map_err(|e| format!("{e}"))
}

/// Relies on `Tensor::affine`, `broadcast_div` and `unsqueeze`: rescales
/// byte values from [0, 255] to [-1, 1] (as `(2 x - 255) / 255`),
/// elementwise, and adds the batch axis in front.
#[verifier::external_body]
fn normalize_image_tensor(t: &Tensor) -> (r: Result<Tensor, String>)
    ensures
        r matches Ok(n) ==> dims_of(n) =~= seq![1nat] + dims_of(*t),
{
    let scaled = t.affine(2 as _, -255 as _).map_err(|e| format!("{e}"))?;
    let den = Tensor::new(255u32, scaled.device())
        .and_then(|d| d.to_dtype(scaled.dtype()))
        .map_err(|e| format!("{e}"))?;
    scaled.broadcast_div(&den).and_then(|t| t.unsqueeze(0)).map_err(|e| format!("{e}"))
}

/// Relies on `DiagonalGaussianDistribution::sample`: one random draw from
/// the latent distribution. The values are random; nothing is promised.
#[verifier::external_body]
pub(crate) fn dist_sample(dist: &DiagonalGaussianDistribution) -> Result<Tensor, String> {
    dist.sample().map_err(|e| format!("{e}"))
}

/// Relies on `Tensor::affine` and `broadcast_div`: rescales decoded
/// values from [-1, 1] to [0, 255] (as `(255 x + 255) / 2`), elementwise,
/// so the shape is kept.
#[verifier::external_body]
fn rescale_decoded(t: &Tensor) -> (r: Result<Tensor, String>)
    ensures
        r matches Ok(q) ==> dims_of(q) == dims_of(*t),
{
    let scaled = t.affine(255 as _, 255 as _).map_err(|e| format!("{e}"))?;
    let two = Tensor::new(2u32, scaled.device())
        .and_then(|d| d.to_dtype(scaled.dtype()))
        .map_err(|e| format!("{e}"))?;
    scaled.broadcast_div(&two).map_err(|e| format!("{e}"))
}

/// Relies on `Tensor::clamp` and `to_dtype`: clamps values into [0, 255]
/// and quantizes to 8 bits, elementwise, so the shape is kept.
#[verifier::external_body]
fn clamp_quantize(t: &Tensor) -> (r: Result<Tensor, String>)
    ensures
        r matches Ok(q) ==> dims_of(q) == dims_of(*t),
{
    let zero = Tensor::new(0u32, t.device())
        .and_then(|d| d.to_dtype(t.dtype()))
        .map_err(|e| format!("{e}"))?;
    let max = Tensor::new(255u32, t.device())
        .and_then(|d| d.to_dtype(t.dtype()))
        .map_err(|e| format!("{e}"))?;
    t.clamp(&zero, &max).and_then(|c| c.to_dtype(candle_core::DType::U8)).map_err(|e| format!("{e}"))
}

/// Relies on `Tensor::i`, `dims3`, `permute`, `flatten_all` and `to_vec1`:
/// takes the single batch entry of a `(1, c, h, w)` tensor apart into its
/// channel count, height, width, and its `c * h * w` bytes in
/// height-width-channel order.
#[verifier::external_body]
fn pixel_bytes(t: &Tensor) -> (r: Result<(Vec<u8>, usize, usize, usize), String>)
    ensures
        r matches Ok(p) ==> p.0@.len() == p.1 * p.2 * p.3,
{
    let image = t.i(0).map_err(|e| format!("{e}"))?;
    let (c, h, w) = image.dims3().map_err(|e| format!("{e}"))?;
    let pixels = image
        .permute((1usize, 2usize, 0usize))
        .and_then(|t| t.flatten_all())
        .and_then(|t| t.to_vec1::<u8>())
        .map_err(|e| format!("{e}"))?;
    Ok((pixels, c, h, w))
}

/// The variational autoencoder.
pub struct VAE {
    vae: AutoEncoderKL,
}

impl VAE {
    /// Load the autoencoder from a weight file.
    pub fn new(config: &StableDiffusionConfig, vae_weights: &str, device: &Device, dtype: DType) -> (r:
        Result<VAE, DiffusionError>)
        ensures
            r matches Err(e) ==> e matches DiffusionError::Construction(_),
    {
        match build_vae(config, vae_weights, device, dtype) {
            Ok(vae) => Ok(VAE { vae }),
            Err(e) => Err(DiffusionError::Construction(e)),
        }
    }

    /// Encode a pixel tensor into a latent distribution.
    pub fn encode(&self, tensor: &Tensor) -> (r: Result<DiagonalGaussianDistribution, DiffusionError>)
        ensures
            r matches Err(e) ==> e matches DiffusionError::Generation(_),
    {
        match vae_encode(&self.vae, tensor) {
            Ok(d) => Ok(d),
            Err(e) => Err(DiffusionError::Generation(e)),
        }
    }

    /// Decode a latent tensor into a pixel-space tensor.
    pub fn decode(&self, tensor: &Tensor) -> (r: Result<Tensor, DiffusionError>)
        ensures
            r matches Err(e) ==> e matches DiffusionError::Generation(_),
    {
        match vae_decode(&self.vae, tensor) {
            Ok(t) => Ok(t),
            Err(e) => Err(DiffusionError::Generation(e)),
        }
    }

    /// Encode a source image into a latent distribution: the image becomes
    /// a `(1, 3, height, width)` tensor normalized into [-1, 1] — the
    /// encode input shape the data model fixes — and is handed to the
    /// encoder. The resulting distribution is opaque; nothing more can be
    /// said of it.
    pub fn image_to_latent(&self, image: &PixelImage, device: &Device, dtype: DType) -> (r: Result<
        DiagonalGaussianDistribution,
        DiffusionError,
    >)
        ensures
            r matches Err(e) ==> e matches DiffusionError::Generation(_),
    {
        let tensor = match image_tensor(image, device, dtype) {
            Ok(t) => t,
            Err(e) => {
                return Err(DiffusionError::Generation(e));
            },
        };
        let tensor = match normalize_image_tensor(&tensor) {
            Ok(t) => t,
            Err(e) => {
                return Err(DiffusionError::Generation(e));
            },
        };
        self.encode(&tensor)
    }

    /// Decode a latent into an 8-bit RGB image: the latent is divided by
    /// the VAE scale constant (`vae_scale_num` over [`VAE_SCALE_DEN`]),
    /// decoded, rescaled from [-1, 1] to [0, 255], clamped, quantized, and
    /// validated to have exactly three channels. On success the image
    /// buffer holds exactly three bytes per pixel.
    pub fn latent_to_image(&self, latents: &Tensor, vae_scale_num: u32) -> (r: Result<
        PixelImage,
        DiffusionError,
    >)
        requires
            vae_scale_num > 0,
        ensures
            r matches Ok(img) ==> img.wf(),
            r matches Err(e) ==> (e matches DiffusionError::Generation(_) || (e
                matches DiffusionError::NotRgb(c) && c != 3)),
    {
        let scaled = match mul_ratio(latents, VAE_SCALE_DEN, vae_scale_num) {
            Ok(t) => t,
            Err(e) => {
                return Err(DiffusionError::Generation(e));
            },
        };
        let decoded = self.decode(&scaled)?;
        let rescaled = match rescale_decoded(&decoded) {
            Ok(t) => t,
            Err(e) => {
                return Err(DiffusionError::Generation(e));
            },
        };
        let quantized = match clamp_quantize(&rescaled) {
            Ok(t) => t,
            Err(e) => {
                return Err(DiffusionError::Generation(e));
            },
        };
        let (pixels, channels, height, width) = match pixel_bytes(&quantized) {
            Ok(p) => p,
            Err(e) => {
                return Err(DiffusionError::Generation(e));
            },
        };
        if channels != 3 {
            return Err(DiffusionError::NotRgb(channels));
        }
        proof {
            assert(pixels@.len() == 3 * width * height) by (nonlinear_arith)
                requires
                    pixels@.len() == channels * height * width,
                    channels == 3,
            ;
        }
        Ok(PixelImage { width, height, data: pixels })
    }
}

} // verus!
