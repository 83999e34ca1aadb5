//! Per-call generation parameters and their resolution against the
//! version-specific defaults, and the plain 8-bit RGB image buffer that the
//! pipeline consumes and produces.
//!
//! Guidance scales and the image-to-image strength are fractions carried in
//! thousandths ("milli"): a guidance scale of 7.5 is 7500, a strength of
//! 0.5 is 500.

use vstd::prelude::*;

use crate::version::StableDiffusionVersion;

verus! {

/// An 8-bit RGB raster image: three bytes per pixel, rows first.
pub struct PixelImage {
    /// Width in pixels.
    pub width: usize,
    /// Height in pixels.
    pub height: usize,
    /// The raw pixel bytes, `3 * width * height` of them.
    pub data: Vec<u8>,
}

impl PixelImage {
    /// The buffer holds exactly three bytes per pixel.
    pub open spec fn wf(&self) -> bool {
        self.data@.len() == 3 * self.width * self.height
    }

    /// Create an image from raw bytes; `None` if the buffer does not hold
    /// exactly three bytes per pixel.
    pub fn from_raw(width: usize, height: usize, data: Vec<u8>) -> (r: Option<Self>)
        ensures
            r matches Some(img) ==> img.wf() && img.width == width && img.height == height
                && img.data == data,
            r is None <==> data@.len() != 3 * width * height,
    {
        let len = data.len();
        match width.checked_mul(height) {
            Some(pixels) => match pixels.checked_mul(3) {
                Some(total) => {
                    proof {
                        assert(pixels * 3 == 3 * width * height) by (nonlinear_arith)
                            requires
                                pixels == width * height,
                        ;
                    }
                    if len == total {
                        Some(PixelImage { width, height, data })
                    } else {
                        None
                    }
                },
                None => {
                    proof {
                        assert(len < 3 * width * height) by (nonlinear_arith)
                            requires
                                pixels == width * height,
                                pixels * 3 > usize::MAX,
                                len <= usize::MAX,
                        ;
                    }
                    None
                },
            },
            None => {
                proof {
                    assert(len < 3 * width * height) by (nonlinear_arith)
                        requires
                            width * height > usize::MAX,
                            len <= usize::MAX,
                    ;
                }
                None
            },
        }
    }
}

/// The per-call request handed to `generate`: the prompts, the optional
/// overrides for resolution, step count and guidance scale, and the
/// optional image-to-image source with its strength.
pub struct GenerationParameters {
    /// The prompt driving the generation.
    pub prompt: String,
    /// The unconditional (negative) prompt, used only when guidance is
    /// active.
    pub uncond_prompt: String,
    /// The style prompt for the second encoder of dual-encoder versions;
    /// defaults to the primary prompt when absent.
    pub style_prompt: Option<String>,
    /// The unconditional style prompt for the second encoder; defaults to
    /// the empty string when absent.
    pub uncond_style_prompt: Option<String>,
    /// Image width override in pixels.
    pub width: Option<usize>,
    /// Image height override in pixels.
    pub height: Option<usize>,
    /// Step count override.
    pub n_steps: Option<usize>,
    /// Guidance scale override, in thousandths.
    pub guidance_scale_milli: Option<u64>,
    /// The source image for image-to-image mode.
    pub img2img: Option<PixelImage>,
    /// The image-to-image strength, in thousandths of the range [0, 1].
    pub img2img_strength_milli: u64,
}

impl GenerationParameters {
    /// What `generate` assumes of its request: the strength is a fraction
    /// of [0, 1], a supplied source image is well formed, and an explicit
    /// step count is small enough for the schedule arithmetic.
    pub open spec fn wf(&self) -> bool {
        &&& self.img2img_strength_milli <= 1000
        &&& (self.img2img matches Some(img) ==> img.wf())
        &&& (self.n_steps matches Some(n) ==> 1 <= n && n <= usize::MAX / 1000)
    }

    /// Create a request for a prompt, everything else at its default: no
    /// overrides, no image-to-image source, strength 0.5.
    pub fn new(prompt: &str) -> (r: Self)
        ensures
            r.prompt@ == prompt@,
            r.uncond_prompt@ == Seq::<char>::empty(),
            r.style_prompt is None,
            r.uncond_style_prompt is None,
            r.width is None,
            r.height is None,
            r.n_steps is None,
            r.guidance_scale_milli is None,
            r.img2img is None,
            r.img2img_strength_milli == 500,
            r.wf(),
    {
        GenerationParameters {
            prompt: prompt.to_owned(),
            uncond_prompt: String::new(),
            style_prompt: None,
            uncond_style_prompt: None,
            width: None,
            height: None,
            n_steps: None,
            guidance_scale_milli: None,
            img2img: None,
            img2img_strength_milli: 500,
        }
    }

    /// Replace the unconditional prompt.
    pub fn with_uncond_prompt(self, uncond_prompt: String) -> (r: Self)
        ensures
            r == (GenerationParameters { uncond_prompt, ..self }),
    {
        Self { uncond_prompt, ..self }
    }

    /// Replace the style prompt.
    pub fn with_style_prompt(self, style_prompt: Option<String>) -> (r: Self)
        ensures
            r == (GenerationParameters { style_prompt, ..self }),
    {
        Self { style_prompt, ..self }
    }

    /// Replace the unconditional style prompt.
    pub fn with_uncond_style_prompt(self, uncond_style_prompt: Option<String>) -> (r: Self)
        ensures
            r == (GenerationParameters { uncond_style_prompt, ..self }),
    {
        Self { uncond_style_prompt, ..self }
    }

    /// Replace the width override.
    pub fn with_width(self, width: Option<usize>) -> (r: Self)
        ensures
            r == (GenerationParameters { width, ..self }),
    {
        Self { width, ..self }
    }

    /// Replace the height override.
    pub fn with_height(self, height: Option<usize>) -> (r: Self)
        ensures
            r == (GenerationParameters { height, ..self }),
    {
        Self { height, ..self }
    }

    /// Replace the step count override.
    pub fn with_n_steps(self, n_steps: Option<usize>) -> (r: Self)
        ensures
            r == (GenerationParameters { n_steps, ..self }),
    {
        Self { n_steps, ..self }
    }

    /// Replace the guidance scale override (in thousandths).
    pub fn with_guidance_scale(self, guidance_scale_milli: Option<u64>) -> (r: Self)
        ensures
            r == (GenerationParameters { guidance_scale_milli, ..self }),
    {
        Self { guidance_scale_milli, ..self }
    }

    /// Replace the image-to-image source.
    pub fn with_img2img(self, img2img: Option<PixelImage>) -> (r: Self)
        ensures
            r == (GenerationParameters { img2img, ..self }),
    {
        Self { img2img, ..self }
    }

    /// Replace the image-to-image strength (in thousandths of [0, 1]).
    pub fn with_img2img_strength(self, img2img_strength_milli: u64) -> (r: Self)
        ensures
            r == (GenerationParameters { img2img_strength_milli, ..self }),
    {
        Self { img2img_strength_milli, ..self }
    }

    /// The effective width: the override, or the version's default.
    pub open spec fn spec_resolved_width(&self, version: StableDiffusionVersion) -> usize {
        match self.width {
            Some(w) => w,
            None => version.spec_default_width(),
        }
    }

    /// The effective height: the override, or the version's default.
    pub open spec fn spec_resolved_height(&self, version: StableDiffusionVersion) -> usize {
        match self.height {
            Some(h) => h,
            None => version.spec_default_height(),
        }
    }

    /// The effective guidance scale in thousandths: the override, or the
    /// version's default (7500 except 0 for Turbo).
    pub open spec fn spec_resolved_guidance_milli(&self, version: StableDiffusionVersion) -> u64 {
        match self.guidance_scale_milli {
            Some(g) => g,
            None => version.spec_default_guidance_milli(),
        }
    }

    /// The effective step count: the override, or the version's default
    /// (30 except 1 for Turbo).
    pub open spec fn spec_resolved_steps(&self, version: StableDiffusionVersion) -> usize {
        match self.n_steps {
            Some(n) => n,
            None => version.spec_default_steps(),
        }
    }

    /// Whether classifier-free guidance is active: the guidance scale
    /// exceeds 1.0, that is 1000 thousandths.
    pub open spec fn spec_use_guide_scale(&self, version: StableDiffusionVersion) -> bool {
        self.spec_resolved_guidance_milli(version) > 1000
    }

    /// The effective width: the override, or the version's default.
    pub fn resolved_width(&self, version: StableDiffusionVersion) -> (r: usize)
        ensures
            r == self.spec_resolved_width(version),
    {
        match self.width {
            Some(w) => w,
            None => version.default_width(),
        }
    }

    /// The effective height: the override, or the version's default.
    pub fn resolved_height(&self, version: StableDiffusionVersion) -> (r: usize)
        ensures
            r == self.spec_resolved_height(version),
    {
        match self.height {
            Some(h) => h,
            None => version.default_height(),
        }
    }

    /// The effective guidance scale in thousandths.
    pub fn resolved_guidance_milli(&self, version: StableDiffusionVersion) -> (r: u64)
        ensures
            r == self.spec_resolved_guidance_milli(version),
    {
        match self.guidance_scale_milli {
            Some(g) => g,
            None => version.default_guidance_milli(),
        }
    }

    /// The effective step count.
    pub fn resolved_steps(&self, version: StableDiffusionVersion) -> (r: usize)
        ensures
            r == self.spec_resolved_steps(version),
    {
        match self.n_steps {
            Some(n) => n,
            None => version.default_steps(),
        }
    }

    /// Whether classifier-free guidance is active for this request.
    pub fn use_guide_scale(&self, version: StableDiffusionVersion) -> (r: bool)
        ensures
            r == self.spec_use_guide_scale(version),
    {
        self.resolved_guidance_milli(version) > 1000
    }
}

/// The first schedule index that is denoised in image-to-image mode:
/// `n_steps - floor(n_steps * strength)`. Strength 1.0 re-noises fully
/// (start at 0), strength 0.0 skips every step (start at `n_steps`).
pub open spec fn spec_t_start(n_steps: usize, strength_milli: u64) -> usize {
    (n_steps - (n_steps * strength_milli) / 1000) as usize
}

/// The first schedule index that is denoised in image-to-image mode.
pub fn t_start(n_steps: usize, strength_milli: u64) -> (r: usize)
    requires
        strength_milli <= 1000,
        n_steps <= usize::MAX / 1000,
    ensures
        r == spec_t_start(n_steps, strength_milli),
        strength_milli == 1000 ==> r == 0,
        strength_milli == 0 ==> r == n_steps,
        r <= n_steps,
{
    proof {
        assert(n_steps * strength_milli <= n_steps * 1000 && (n_steps * strength_milli) / 1000
            <= n_steps && (strength_milli == 1000 ==> (n_steps * strength_milli) / 1000
            == n_steps)) by (nonlinear_arith)
            requires
                strength_milli <= 1000,
                n_steps >= 0,
        ;
        assert(n_steps * 1000 <= usize::MAX) by (nonlinear_arith)
            requires
                n_steps <= usize::MAX / 1000,
        ;
    }
    let scaled: usize = n_steps * (strength_milli as usize);
    n_steps - scaled / 1000
}

} // verus!
