//! Model versions and the per-version policy table.
//!
//! Each supported model version differs in a handful of scalar facts:
//! the default weight repository, the default resolution, the default
//! guidance scale and step count, the VAE latent scale constant, and
//! whether a second tokenizer/text-encoder pair is present.
//!
//! Fractional constants are carried as exact rationals over integers:
//! guidance scales and image-to-image strengths in thousandths ("milli"),
//! the VAE scale as a numerator over [`VAE_SCALE_DEN`].

use vstd::prelude::*;

verus! {

/// Denominator of the VAE latent scale constants: the scales 0.18215 and
/// 0.13025 are held as numerators over this value.
pub const VAE_SCALE_DEN: u32 = 100000;

/// The supported Stable Diffusion model versions.
#[derive(Debug, Clone, Copy, PartialEq, Eq, Structural)]
pub enum StableDiffusionVersion {
    V1_5,
    V2_1,
    XL,
    Turbo,
}

/// Numeric precision of the model weights and of the tensors threaded
/// through the sampling loop.
#[derive(Debug, Clone, Copy, PartialEq, Eq, Structural)]
pub enum DType {
    F16,
    BF16,
    F32,
}

impl StableDiffusionVersion {
    /// The default weight repository for this version.
    pub open spec fn spec_repo(self) -> Seq<char> {
        match self {
            StableDiffusionVersion::XL => "stabilityai/stable-diffusion-xl-base-1.0"@,
            StableDiffusionVersion::V2_1 => "stabilityai/stable-diffusion-2-1"@,
            StableDiffusionVersion::V1_5 => "runwayml/stable-diffusion-v1-5"@,
            StableDiffusionVersion::Turbo => "stabilityai/sdxl-turbo"@,
        }
    }

    /// The default weight repository for this version.
    pub fn repo(&self) -> (r: &'static str)
        ensures
            r@ == self.spec_repo(),
    {
        match self {
            StableDiffusionVersion::XL => "stabilityai/stable-diffusion-xl-base-1.0",
            StableDiffusionVersion::V2_1 => "stabilityai/stable-diffusion-2-1",
            StableDiffusionVersion::V1_5 => "runwayml/stable-diffusion-v1-5",
            StableDiffusionVersion::Turbo => "stabilityai/sdxl-turbo",
        }
    }

    /// Whether this version has a dual text-encoder design (a second
    /// tokenizer and text encoder that must both be present and used).
    pub open spec fn spec_uses_dual_encoder(self) -> bool {
        self == StableDiffusionVersion::XL || self == StableDiffusionVersion::Turbo
    }

    /// Whether this version has a dual text-encoder design.
    pub fn uses_dual_encoder(&self) -> (r: bool)
        ensures
            r == self.spec_uses_dual_encoder(),
    {
        matches!(self, StableDiffusionVersion::XL | StableDiffusionVersion::Turbo)
    }

    /// The default guidance scale, in thousandths: 7.5 for V1_5, V2_1 and
    /// XL, 0 for Turbo.
    pub open spec fn spec_default_guidance_milli(self) -> u64 {
        if self == StableDiffusionVersion::Turbo {
            0u64
        } else {
            7500u64
        }
    }

    /// The default guidance scale, in thousandths.
    pub fn default_guidance_milli(&self) -> (r: u64)
        ensures
            r == self.spec_default_guidance_milli(),
    {
        match self {
            StableDiffusionVersion::Turbo => 0,
            _ => 7500,
        }
    }

    /// The default denoising step count: 30 for V1_5, V2_1 and XL, 1 for
    /// Turbo.
    pub open spec fn spec_default_steps(self) -> usize {
        if self == StableDiffusionVersion::Turbo {
            1usize
        } else {
            30usize
        }
    }

    /// The default denoising step count.
    pub fn default_steps(&self) -> (r: usize)
        ensures
            r == self.spec_default_steps(),
    {
        match self {
            StableDiffusionVersion::Turbo => 1,
            _ => 30,
        }
    }

    /// Numerator of the VAE latent scale constant over [`VAE_SCALE_DEN`]:
    /// 0.18215 for V1_5, V2_1 and XL, 0.13025 for Turbo.
    pub open spec fn spec_vae_scale_num(self) -> u32 {
        if self == StableDiffusionVersion::Turbo {
            13025u32
        } else {
            18215u32
        }
    }

    /// Numerator of the VAE latent scale constant over [`VAE_SCALE_DEN`].
    pub fn vae_scale_num(&self) -> (r: u32)
        ensures
            r == self.spec_vae_scale_num(),
    {
        match self {
            StableDiffusionVersion::Turbo => 13025,
            _ => 18215,
        }
    }

    /// The default image width in pixels for this version.
    pub open spec fn spec_default_width(self) -> usize {
        match self {
            StableDiffusionVersion::V1_5 => 512usize,
            StableDiffusionVersion::V2_1 => 768usize,
            StableDiffusionVersion::XL => 1024usize,
            StableDiffusionVersion::Turbo => 512usize,
        }
    }

    /// The default image width in pixels for this version.
    pub fn default_width(&self) -> (r: usize)
        ensures
            r == self.spec_default_width(),
    {
        match self {
            StableDiffusionVersion::V1_5 => 512,
            StableDiffusionVersion::V2_1 => 768,
            StableDiffusionVersion::XL => 1024,
            StableDiffusionVersion::Turbo => 512,
        }
    }

    /// The default image height in pixels for this version.
    pub open spec fn spec_default_height(self) -> usize {
        self.spec_default_width()
    }

    /// The default image height in pixels for this version.
    pub fn default_height(&self) -> (r: usize)
        ensures
            r == self.spec_default_height(),
    {
        self.default_width()
    }
}

} // verus!
