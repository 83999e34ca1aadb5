//! A latent-diffusion image generation library.
//!
//! The core is the [`StableDiffusion`] type and its `generate` operation:
//! an iterative denoising loop over an opaque tensor runtime,
//! with model-version-dependent policy (default resolution, guidance scale,
//! step count, VAE scale constant, single or dual text encoder).
//! Contracts are stated over plain values and tensor shapes; the neural
//! operators themselves are opaque collaborators.

mod clip;
mod config;
mod error;
mod file;
mod laws;
mod params;
mod pipeline;
mod scheduler;
mod tensor;
mod tokenizer;
mod unet;
mod vae;
mod version;
mod weights;

pub mod trainer;

pub use clip::CLIP;
pub use error::DiffusionError;
pub use file::File;
pub use file::Repository;
pub use laws::lemma_leading_schedule_decreasing;
pub use laws::lemma_low_guidance_no_uncond;
pub use laws::lemma_schedule_length;
pub use laws::lemma_style_ignored_single_encoder;
pub use laws::lemma_style_prompt_defaults;
pub use laws::lemma_t_start_extremes;
pub use pipeline::StableDiffusion;
pub use pipeline::StableDiffusionParameters;
pub use pipeline::resolved_style_prompt;
pub use pipeline::resolved_uncond_style_prompt;
pub use tokenizer::Tokenizer;
pub use unet::UNet;
pub use vae::VAE;
pub use params::GenerationParameters;
pub use params::PixelImage;
pub use params::spec_t_start;
pub use params::t_start;
pub use version::DType;
pub use version::StableDiffusionVersion;
pub use weights::CLIPWeights;
pub use weights::StableDiffusionWeights;
pub use weights::TokenizerWeights;
pub use weights::UNetWeights;
pub use weights::VAEWeights;
