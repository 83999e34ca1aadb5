//! The diffusion pipeline: owns the tokenizers, text encoders, denoiser,
//! autoencoder and configuration, and exposes the single `generate`
//! operation — resolve the request against the version defaults, build the
//! text conditioning, initialize the latent (fresh noise, or a re-noised
//! source image), run the denoising loop, and decode the final latent to an
//! RGB image.

use vstd::prelude::*;

use candle_core::Device;
use candle_core::Tensor;
use candle_transformers::models::stable_diffusion::StableDiffusionConfig;

use crate::clip::CLIP;
use crate::config::clip2_config;
use crate::config::clip_config;
use crate::config::config_for;
use crate::config::stock_version_of;
use crate::error::DiffusionError;
use crate::params::GenerationParameters;
use crate::params::PixelImage;
use crate::params::t_start;
use crate::scheduler::TRAIN_TIMESTEPS;
use crate::scheduler::build_scheduler;
use crate::scheduler::scale_by_init_noise_sigma;
use crate::scheduler::scale_model_input;
use crate::scheduler::scheduler_add_noise;
use crate::scheduler::scheduler_step;
use crate::scheduler::scheduler_timesteps;
use crate::scheduler::timesteps_of;
use crate::tensor::cat_batch;
use crate::tensor::cat_features;
use crate::tensor::chunk2_batch;
use crate::tensor::dims_of;
use crate::tensor::fresh_noise;
use crate::tensor::guided_combination;
use crate::tensor::mul_ratio;
use crate::tensor::noise_like;
use crate::tensor::to_dtype_of;
use crate::tokenizer::Tokenizer;
use crate::unet::UNet;
use crate::vae::VAE;
use crate::vae::dist_sample;
use crate::version::DType;
use crate::version::StableDiffusionVersion;
use crate::version::VAE_SCALE_DEN;
use crate::weights::StableDiffusionWeights;

verus! {

/// The effective style prompt for the second encoder: the style prompt, or
/// the primary prompt when none was given.
pub open spec fn spec_style_text(p: &GenerationParameters) -> Seq<char> {
    match p.style_prompt {
        Some(s) => s@,
        None => p.prompt@,
    }
}

/// The effective unconditional style prompt for the second encoder: the
/// given one, or the empty string.
pub open spec fn spec_uncond_style_text(p: &GenerationParameters) -> Seq<char> {
    match p.uncond_style_prompt {
        Some(s) => s@,
        None => Seq::<char>::empty(),
    }
}

/// The texts handed to the text encoders for a request: one (conditional,
/// optional unconditional) pair for the first encoder and, only for the
/// dual-encoder versions, a second pair of the resolved style texts. The
/// unconditional texts are present exactly when guidance is active.
pub open spec fn spec_encode_jobs(version: StableDiffusionVersion, p: &GenerationParameters) -> Seq<
    (Seq<char>, Option<Seq<char>>),
> {
    let guide = p.spec_use_guide_scale(version);
    let first = (p.prompt@, if guide {
        Some(p.uncond_prompt@)
    } else {
        None
    });
    if version.spec_uses_dual_encoder() {
        seq![
            first,
            (spec_style_text(p), if guide {
                Some(spec_uncond_style_text(p))
            } else {
                None
            }),
        ]
    } else {
        seq![first]
    }
}

/// The batch size of the conditioning embeddings: 2 (unconditional and
/// conditional) under active guidance, else 1.
pub open spec fn spec_embedding_batch(version: StableDiffusionVersion, p: &GenerationParameters) -> nat {
    if p.spec_use_guide_scale(version) {
        2nat
    } else {
        1nat
    }
}

/// The effective style prompt: the style prompt, defaulting to the primary
/// prompt.
pub fn resolved_style_prompt(p: &GenerationParameters) -> (r: String)
    ensures
        r@ == spec_style_text(p),
{
    match &p.style_prompt {
        Some(s) => s.clone(),
        None => p.prompt.clone(),
    }
}

/// The effective unconditional style prompt: the given one, defaulting to
/// the empty string.
pub fn resolved_uncond_style_prompt(p: &GenerationParameters) -> (r: String)
    ensures
        r@ == spec_uncond_style_text(p),
{
    match &p.uncond_style_prompt {
        Some(s) => s.clone(),
        None => String::new(),
    }
}

/// Everything `generate` needs, bundled at configuration time: the weight
/// set, the numeric precision, the version's stock configuration, and the
/// device to compute on.
pub struct StableDiffusionParameters {
    /// The weight set; its version selects the configuration.
    pub weights: StableDiffusionWeights,
    /// The numeric precision of the sampling loop.
    pub dtype: DType,
    /// The version's stock model configuration.
    pub config: StableDiffusionConfig,
    /// The device tensors live on.
    pub device: Device,
}

impl StableDiffusionParameters {
    /// Bundle weights, device and precision with the stock configuration of
    /// the weights' version.
    pub fn new(weights: StableDiffusionWeights, device: Device, dtype: DType) -> (r: Result<
        Self,
        DiffusionError,
    >)
        ensures
            r matches Ok(p) ==> {
                &&& p.weights == weights
                &&& p.dtype == dtype
                &&& stock_version_of(p.config) == Some(weights.version)
            },
            r is Ok,
    {
        let config = config_for(&weights.version);
        Ok(StableDiffusionParameters { device, weights, dtype, config })
    }
}

/// The diffusion pipeline.
pub struct StableDiffusion {
    version: StableDiffusionVersion,
    device: Device,
    dtype: DType,
    config: StableDiffusionConfig,
    unet: UNet,
    vae: VAE,
    tokenizer: Tokenizer,
    tokenizer_2: Option<Tokenizer>,
    clip: CLIP,
    clip_2: Option<CLIP>,
}

impl StableDiffusion {
    /// The model version this pipeline was built for.
    pub closed spec fn spec_version(&self) -> StableDiffusionVersion {
        self.version
    }

    /// The first tokenizer adapter.
    pub closed spec fn spec_tokenizer1(&self) -> Tokenizer {
        self.tokenizer
    }

    /// The second tokenizer adapter, for the dual-encoder versions.
    pub closed spec fn spec_tokenizer2(&self) -> Option<Tokenizer> {
        self.tokenizer_2
    }

    /// The second text encoder, for the dual-encoder versions.
    pub closed spec fn spec_clip2(&self) -> Option<CLIP> {
        self.clip_2
    }

    /// A built pipeline is internally consistent: its configuration is the
    /// stock one of its version, and the dual-encoder versions carry their
    /// second tokenizer and encoder.
    pub closed spec fn wf(&self) -> bool {
        &&& stock_version_of(self.config) == Some(self.version)
        &&& (self.version.spec_uses_dual_encoder() ==> self.tokenizer_2 is Some && self.clip_2
            is Some)
    }

    /// Build the pipeline: fetch each weight file and build each operator.
    /// The second tokenizer and text encoder are built exactly when the
    /// weight set carries them, which its constructors do exactly for the
    /// dual-encoder versions. Any fetch or build failure is fatal.
    pub fn new(parameters: StableDiffusionParameters) -> (r: Result<Self, DiffusionError>)
        requires
            parameters.weights.spec_dual_consistent(),
            stock_version_of(parameters.config) == Some(parameters.weights.version),
        ensures
            r matches Ok(sd) ==> sd.wf() && sd.spec_version() == parameters.weights.version,
            r matches Ok(sd) ==> (sd.spec_tokenizer2() is Some
                <==> parameters.weights.version.spec_uses_dual_encoder()),
            r matches Ok(sd) ==> (sd.spec_clip2() is Some
                <==> parameters.weights.version.spec_uses_dual_encoder()),
            r matches Err(e) ==> e matches DiffusionError::Fetch(_) || e
                matches DiffusionError::Construction(_),
    {
        let device = parameters.device;
        let config = parameters.config;
        let dtype = parameters.dtype;
        let weights = parameters.weights;
        let version = weights.version;

        let unet_path = weights.unet.file.fetch()?;
        let unet = UNet::new(unet_path.as_str(), &config, &device, dtype)?;

        let vae_path = weights.vae.file.fetch()?;
        let vae = VAE::new(&config, vae_path.as_str(), &device, dtype)?;

        let tokenizer_path = weights.tokenizer.tokenizer.fetch()?;
        let tokenizer = Tokenizer::new(&config, tokenizer_path.as_str())?;

        let clip_path = weights.clip.clip.fetch()?;
        let clip = CLIP::new(clip_config(&config), clip_path.as_str(), &device, dtype)?;

        let tokenizer_2 = match &weights.tokenizer.tokenizer2 {
            Some(file) => {
                let path = file.fetch()?;
                Some(Tokenizer::new(&config, path.as_str())?)
            },
            None => None,
        };
        let clip_2 = match &weights.clip.clip2 {
            Some(file) => {
                let path = file.fetch()?;
                match clip2_config(&config) {
                    Some(config_2) => Some(CLIP::new(config_2, path.as_str(), &device, dtype)?),
                    None => None,
                }
            },
            None => None,
        };

        Ok(StableDiffusion {
            version,
            device,
            dtype,
            config,
            unet,
            vae,
            tokenizer,
            tokenizer_2,
            clip,
            clip_2,
        })
    }

    /// The tokenizers' context lengths are usable: at least two (every
    /// stock configuration uses 77), and equal between the two tokenizers
    /// of a dual-encoder version.
    pub open spec fn spec_contexts_ok(&self) -> bool {
        &&& self.spec_tokenizer1().spec_max_position_embeddings() >= 2
        &&& (self.spec_version().spec_uses_dual_encoder() ==> (self.spec_tokenizer2()
            matches Some(t2) && t2.spec_max_position_embeddings()
            == self.spec_tokenizer1().spec_max_position_embeddings()))
    }

    /// Build the conditioning embeddings: encode the prompt (and, under
    /// guidance, the unconditional prompt) with the first encoder; for the
    /// dual-encoder versions also encode the resolved style texts with the
    /// second encoder and concatenate along the feature axis. Every
    /// successful tokenization has exactly the context length, so the
    /// result's batch axis is 1, or 2 under guidance — the unconditional
    /// branch is entered only then — and its sequence axis is the context
    /// length.
    fn build_text_embeddings(&self, p: &GenerationParameters, guide: bool) -> (r: Result<
        Tensor,
        DiffusionError,
    >)
        requires
            self.wf(),
        ensures
            r matches Ok(emb) ==> (self.spec_contexts_ok() ==> dims_of(emb).len() == 3
                && dims_of(emb)[0] == (if guide {
                2nat
            } else {
                1nat
            }) && dims_of(emb)[1] == self.spec_tokenizer1().spec_max_position_embeddings()),
            r matches Err(e) ==> e matches DiffusionError::Generation(_),
    {
        let uncond_text: Option<&str> = if guide {
            Some(p.uncond_prompt.as_str())
        } else {
            None
        };
        let (prompt_tokens, uncond_tokens) = self.tokenizer.tokenize_pair(
            p.prompt.as_str(),
            uncond_text,
        )?;
        let embeddings = self.clip.text_embeddings_pair(
            &prompt_tokens,
            uncond_tokens.as_ref(),
            &self.device,
            self.dtype,
        )?;
        if self.version.uses_dual_encoder() {
            let style_prompt = resolved_style_prompt(p);
            let uncond_style_prompt = resolved_uncond_style_prompt(p);
            let uncond_style_text: Option<&str> = if guide {
                Some(uncond_style_prompt.as_str())
            } else {
                None
            };
            let tokenizer_2 = self.tokenizer_2.as_ref().unwrap();
            let clip_2 = self.clip_2.as_ref().unwrap();
            let (style_tokens, uncond_style_tokens) = tokenizer_2.tokenize_pair(
                style_prompt.as_str(),
                uncond_style_text,
            )?;
            let embeddings_2 = clip_2.text_embeddings_pair(
                &style_tokens,
                uncond_style_tokens.as_ref(),
                &self.device,
                self.dtype,
            )?;
            match cat_features(&embeddings, &embeddings_2) {
                Ok(t) => Ok(t),
                Err(e) => Err(DiffusionError::Generation(e)),
            }
        } else {
            Ok(embeddings)
        }
    }

    /// The model input of one denoising iteration: under active guidance
    /// the latent is duplicated along the batch axis, to pair with the
    /// two-wide embedding batch; without guidance it is the latent itself,
    /// unchanged — the identity, and it cannot fail.
    fn latent_model_input(latents: &Tensor, use_guide: bool) -> (r: Result<Tensor, DiffusionError>)
        ensures
            !use_guide ==> (r matches Ok(t) && t == *latents),
            use_guide ==> (r matches Ok(t) ==> (dims_of(*latents).len() > 0 ==> dims_of(t)
                =~= dims_of(*latents).update(0, (2 * dims_of(*latents)[0]) as nat))),
            r matches Err(e) ==> e matches DiffusionError::Generation(_),
    {
        if use_guide {
            match cat_batch(latents, latents) {
                Ok(t) => Ok(t),
                Err(e) => Err(DiffusionError::Generation(e)),
            }
        } else {
            Ok(latents.clone())
        }
    }

    /// The noise prediction handed to the scheduler's step: under active
    /// guidance the prediction is split into its unconditional and
    /// conditional halves along the batch axis and recombined as
    /// `uncond + scale * (cond - uncond)`; without guidance it is the
    /// denoiser's output itself, unchanged — the identity, and it cannot
    /// fail.
    fn combined_prediction(noise_pred: Tensor, use_guide: bool, guidance_milli: u64) -> (r: Result<
        Tensor,
        DiffusionError,
    >)
        ensures
            !use_guide ==> (r matches Ok(t) && t == noise_pred),
            r matches Err(e) ==> e matches DiffusionError::Generation(_),
    {
        if use_guide {
            let mut halves = match chunk2_batch(&noise_pred) {
                Ok(v) => v,
                Err(e) => {
                    return Err(DiffusionError::Generation(e));
                },
            };
            if halves.len() != 2 {
                return Err(
                    DiffusionError::Generation(
                        "prediction did not split into two halves".to_owned(),
                    ),
                );
            }
            let cond = halves.pop().unwrap();
            let uncond = halves.pop().unwrap();
            match guided_combination(&uncond, &cond, guidance_milli) {
                Ok(t) => Ok(t),
                Err(e) => Err(DiffusionError::Generation(e)),
            }
        } else {
            Ok(noise_pred)
        }
    }

    /// Generate an image for a request. The request's overrides are
    /// resolved against the version defaults; guidance is active exactly
    /// when the resolved guidance scale exceeds 1.0; in image-to-image mode
    /// the schedule is entered at the strength-determined start index and
    /// earlier steps are omitted entirely. On success the image buffer is
    /// well formed; every failure is a generation failure (a tensor shape
    /// mismatch or runtime error) or the three-channel validation of the
    /// decode step.
    pub fn generate(&self, params: GenerationParameters) -> (r: Result<PixelImage, DiffusionError>)
        requires
            self.wf(),
            params.wf(),
            self.spec_version() == StableDiffusionVersion::Turbo ==> params.spec_resolved_steps(
                self.spec_version(),
            ) <= TRAIN_TIMESTEPS,
        ensures
            r matches Ok(img) ==> img.wf(),
            r matches Err(e) ==> (e matches DiffusionError::Generation(_) || (e
                matches DiffusionError::NotRgb(c) && c != 3)),
    {
        let version = self.version;
        let width = params.resolved_width(version);
        let height = params.resolved_height(version);
        let guidance_milli = params.resolved_guidance_milli(version);
        let n_steps = params.resolved_steps(version);
        let use_guide = guidance_milli > 1000;

        let scheduler = match build_scheduler(&self.config, n_steps) {
            Ok(s) => s,
            Err(e) => {
                return Err(DiffusionError::Generation(e));
            },
        };

        let (start_index, init_latent_dist) = match &params.img2img {
            None => (0usize, None),
            Some(image) => {
                let start = t_start(n_steps, params.img2img_strength_milli);
                let dist = self.vae.image_to_latent(image, &self.device, self.dtype)?;
                (start, Some(dist))
            },
        };

        let text_embeddings = self.build_text_embeddings(&params, use_guide)?;

        let vae_scale = version.vae_scale_num();
        let timesteps = scheduler_timesteps(&scheduler);

        let initial = match &init_latent_dist {
            Some(dist) => {
                let sampled = match dist_sample(dist) {
                    Ok(t) => t,
                    Err(e) => {
                        return Err(DiffusionError::Generation(e));
                    },
                };
                let scaled = match mul_ratio(&sampled, vae_scale, VAE_SCALE_DEN) {
                    Ok(t) => t,
                    Err(e) => {
                        return Err(DiffusionError::Generation(e));
                    },
                };
                if start_index < timesteps.len() {
                    let noise = match noise_like(&scaled) {
                        Ok(t) => t,
                        Err(e) => {
                            return Err(DiffusionError::Generation(e));
                        },
                    };
                    match scheduler_add_noise(&scheduler, &scaled, noise, timesteps[start_index]) {
                        Ok(t) => t,
                        Err(e) => {
                            return Err(DiffusionError::Generation(e));
                        },
                    }
                } else {
                    scaled
                }
            },
            None => {
                let latents = match fresh_noise(&self.device, height / 8, width / 8) {
                    Ok(t) => t,
                    Err(e) => {
                        return Err(DiffusionError::Generation(e));
                    },
                };
                match scale_by_init_noise_sigma(&scheduler, &latents) {
                    Ok(t) => t,
                    Err(e) => {
                        return Err(DiffusionError::Generation(e));
                    },
                }
            },
        };
        let mut latents = match to_dtype_of(&initial, self.dtype) {
            Ok(t) => t,
            Err(e) => {
                return Err(DiffusionError::Generation(e));
            },
        };

        let mut index = start_index;
        while index < timesteps.len()
            invariant
                timesteps@ == timesteps_of(scheduler),
                forall|k: int|
                    0 <= k < timesteps@.len() ==> #[trigger] timesteps@[k] <= TRAIN_TIMESTEPS,
            decreases timesteps@.len() - index,
        {
            let timestep = timesteps[index];
            let model_input = Self::latent_model_input(&latents, use_guide)?;
            let model_input = match scale_model_input(&scheduler, model_input, timestep) {
                Ok(t) => t,
                Err(e) => {
                    return Err(DiffusionError::Generation(e));
                },
            };
            let noise_pred = self.unet.forward(&model_input, timestep, &text_embeddings)?;
            let noise_pred = Self::combined_prediction(noise_pred, use_guide, guidance_milli)?;
            latents = match scheduler_step(&scheduler, &noise_pred, timestep, &latents) {
                Ok(t) => t,
                Err(e) => {
                    return Err(DiffusionError::Generation(e));
                },
            };
            index += 1;
        }

        self.vae.latent_to_image(&latents, vae_scale)
    }
}

} // verus!
