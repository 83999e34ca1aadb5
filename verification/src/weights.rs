//! Weight bundles: one [`File`] per role (denoiser, autoencoder, text
//! encoders, tokenizers), each independently overridable, built from a
//! model version, a numeric precision and an optional repository override.

use vstd::prelude::*;

use crate::file::File;
use crate::file::Repository;
use crate::version::DType;
use crate::version::StableDiffusionVersion;

verus! {

impl File {
    /// This file points into `repository` at `path`.
    pub open spec fn spec_is_repository_file(&self, repository: Seq<char>, path: Seq<char>) -> bool {
        match self {
            File::Repository(r) => r.repository@ == repository && r.path@ == path,
            File::Path(_) => false,
        }
    }
}

/// The weights of the U-Net denoiser.
pub struct UNetWeights {
    /// The weight file of the U-Net model.
    pub file: File,
}

/// The repository path of the U-Net weights for a precision.
pub open spec fn spec_unet_path(dtype: DType) -> Seq<char> {
    if dtype == DType::F16 {
        "unet/diffusion_pytorch_model.fp16.safetensors"@
    } else {
        "unet/diffusion_pytorch_model.safetensors"@
    }
}

impl UNetWeights {
    /// Create U-Net weights from an explicit file.
    pub fn from_file(file: File) -> (r: Self)
        ensures
            r.file == file,
    {
        UNetWeights { file }
    }

    /// The default repository path of the U-Net weights for a precision.
    fn default_path(dtype: DType) -> (r: &'static str)
        ensures
            r@ == spec_unet_path(dtype),
    {
        if dtype == DType::F16 {
            "unet/diffusion_pytorch_model.fp16.safetensors"
        } else {
            "unet/diffusion_pytorch_model.safetensors"
        }
    }

    /// Create U-Net weights pointing into a repository, at the default
    /// path for the requested precision.
    pub fn from_repository(repository: &str, dtype: DType) -> (r: Self)
        ensures
            r.file.spec_is_repository_file(repository@, spec_unet_path(dtype)),
    {
        let path = Self::default_path(dtype);
        let file = File::Repository(Repository::new(repository, path));
        Self::from_file(file)
    }
}

/// The weights of the variational autoencoder.
pub struct VAEWeights {
    /// The weight file of the VAE model.
    pub file: File,
}

/// The repository that the VAE weights come from: half-precision weights of
/// the XL-family models come from a dedicated fixed-point repository, all
/// others from the model's own repository.
pub open spec fn spec_vae_repository(
    repository: Seq<char>,
    version: StableDiffusionVersion,
    dtype: DType,
) -> Seq<char> {
    if dtype == DType::F16 && version.spec_uses_dual_encoder() {
        "madebyollin/sdxl-vae-fp16-fix"@
    } else {
        repository
    }
}

/// The repository path of the VAE weights.
pub open spec fn spec_vae_path(version: StableDiffusionVersion, dtype: DType) -> Seq<char> {
    if dtype == DType::F16 {
        if version.spec_uses_dual_encoder() {
            "diffusion_pytorch_model.safetensors"@
        } else {
            "vae/diffusion_pytorch_model.fp16.safetensors"@
        }
    } else {
        "vae/diffusion_pytorch_model.safetensors"@
    }
}

impl VAEWeights {
    /// Create VAE weights from an explicit file.
    pub fn from_file(file: File) -> (r: Self)
        ensures
            r.file == file,
    {
        VAEWeights { file }
    }

    /// Create VAE weights pointing into a repository. Half precision uses
    /// per-version fixed repositories and paths; see [`spec_vae_repository`]
    /// and [`spec_vae_path`].
    pub fn from_repository(repository: &str, version: StableDiffusionVersion, dtype: DType) -> (r:
        Self)
        ensures
            r.file.spec_is_repository_file(
                spec_vae_repository(repository@, version, dtype),
                spec_vae_path(version, dtype),
            ),
    {
        let use_f16 = dtype == DType::F16;
        let (repo, filename): (&str, &str) = if use_f16 {
            if version.uses_dual_encoder() {
                ("madebyollin/sdxl-vae-fp16-fix", "diffusion_pytorch_model.safetensors")
            } else {
                (repository, "vae/diffusion_pytorch_model.fp16.safetensors")
            }
        } else {
            (repository, "vae/diffusion_pytorch_model.safetensors")
        };
        let file = File::Repository(Repository::new(repo, filename));
        Self::from_file(file)
    }
}

/// The weights of the text encoder(s).
pub struct CLIPWeights {
    /// The weights of the first text encoder.
    pub clip: File,
    /// The weights of the second text encoder, present only for versions
    /// with a dual-encoder design.
    pub clip2: Option<File>,
}

/// The repository path of the first text encoder's weights.
pub open spec fn spec_clip_path(dtype: DType) -> Seq<char> {
    if dtype == DType::F16 {
        "text_encoder/model.fp16.safetensors"@
    } else {
        "text_encoder/model.safetensors"@
    }
}

/// The repository path of the second text encoder's weights.
pub open spec fn spec_clip2_path(dtype: DType) -> Seq<char> {
    if dtype == DType::F16 {
        "text_encoder_2/model.fp16.safetensors"@
    } else {
        "text_encoder_2/model.safetensors"@
    }
}

impl CLIPWeights {
    /// The repository path of the first text encoder's weights.
    fn clip_file(dtype: DType) -> (r: &'static str)
        ensures
            r@ == spec_clip_path(dtype),
    {
        if dtype == DType::F16 {
            "text_encoder/model.fp16.safetensors"
        } else {
            "text_encoder/model.safetensors"
        }
    }

    /// The repository path of the second text encoder's weights.
    fn clip2_file(dtype: DType) -> (r: &'static str)
        ensures
            r@ == spec_clip2_path(dtype),
    {
        if dtype == DType::F16 {
            "text_encoder_2/model.fp16.safetensors"
        } else {
            "text_encoder_2/model.safetensors"
        }
    }

    /// Create text-encoder weights from explicit files.
    pub fn from_file(clip: File, clip2: Option<File>) -> (r: Self)
        ensures
            r.clip == clip,
            r.clip2 == clip2,
    {
        CLIPWeights { clip, clip2 }
    }

    /// Create text-encoder weights pointing into a repository: one file,
    /// plus a second one exactly for the dual-encoder versions.
    pub fn from_repository(repository: &str, version: StableDiffusionVersion, dtype: DType) -> (r:
        Self)
        ensures
            r.clip.spec_is_repository_file(repository@, spec_clip_path(dtype)),
            r.clip2 is Some <==> version.spec_uses_dual_encoder(),
            r.clip2 matches Some(f) ==> f.spec_is_repository_file(
                repository@,
                spec_clip2_path(dtype),
            ),
    {
        let filename = Self::clip_file(dtype);
        let clip = File::Repository(Repository::new(repository, filename));
        let clip2 = if version.uses_dual_encoder() {
            let filename = Self::clip2_file(dtype);
            Some(File::Repository(Repository::new(repository, filename)))
        } else {
            None
        };
        Self::from_file(clip, clip2)
    }
}

/// The tokenizer definition files.
pub struct TokenizerWeights {
    /// The first tokenizer's definition file.
    pub tokenizer: File,
    /// The second tokenizer's definition file, present only for versions
    /// with a dual-encoder design.
    pub tokenizer2: Option<File>,
}

/// The repository that the first tokenizer comes from.
pub open spec fn spec_tokenizer1_repo(version: StableDiffusionVersion) -> Seq<char> {
    if version.spec_uses_dual_encoder() {
        "openai/clip-vit-large-patch14"@
    } else {
        "openai/clip-vit-base-patch32"@
    }
}

impl TokenizerWeights {
    /// The first tokenizer's definition file for a version.
    fn tokenizer1(version: StableDiffusionVersion) -> (r: File)
        ensures
            r.spec_is_repository_file(spec_tokenizer1_repo(version), "tokenizer.json"@),
    {
        let tokenizer_repo = if version.uses_dual_encoder() {
            "openai/clip-vit-large-patch14"
        } else {
            "openai/clip-vit-base-patch32"
        };
        File::Repository(Repository::new(tokenizer_repo, "tokenizer.json"))
    }

    /// The second tokenizer's definition file.
    fn tokenizer2() -> (r: File)
        ensures
            r.spec_is_repository_file("laion/CLIP-ViT-bigG-14-laion2B-39B-b160k"@, "tokenizer.json"@),
    {
        File::Repository(Repository::new("laion/CLIP-ViT-bigG-14-laion2B-39B-b160k", "tokenizer.json"))
    }

    /// Create tokenizer weights from explicit files.
    pub fn from_file(tokenizer: File, tokenizer2: Option<File>) -> (r: Self)
        ensures
            r.tokenizer == tokenizer,
            r.tokenizer2 == tokenizer2,
    {
        TokenizerWeights { tokenizer, tokenizer2 }
    }

    /// Create the tokenizer weights for a version: the version's first
    /// tokenizer, plus the second one exactly for the dual-encoder versions.
    pub fn from_repository(version: StableDiffusionVersion) -> (r: Self)
        ensures
            r.tokenizer.spec_is_repository_file(spec_tokenizer1_repo(version), "tokenizer.json"@),
            r.tokenizer2 is Some <==> version.spec_uses_dual_encoder(),
            r.tokenizer2 matches Some(f) ==> f.spec_is_repository_file(
                "laion/CLIP-ViT-bigG-14-laion2B-39B-b160k"@,
                "tokenizer.json"@,
            ),
    {
        let tokenizer = Self::tokenizer1(version);
        let tokenizer2 = if version.uses_dual_encoder() {
            Some(Self::tokenizer2())
        } else {
            None
        };
        Self::from_file(tokenizer, tokenizer2)
    }
}

/// The full weight bundle of a Stable Diffusion model.
pub struct StableDiffusionWeights {
    /// The model version the weights belong to.
    pub version: StableDiffusionVersion,
    /// The numeric precision of the weights.
    pub dtype: DType,
    /// The U-Net weights.
    pub unet: UNetWeights,
    /// The VAE weights.
    pub vae: VAEWeights,
    /// The text-encoder weights.
    pub clip: CLIPWeights,
    /// The tokenizer files.
    pub tokenizer: TokenizerWeights,
}

impl StableDiffusionWeights {
    /// The second tokenizer and text encoder are present exactly for the
    /// dual-encoder versions.
    pub open spec fn spec_dual_consistent(&self) -> bool {
        &&& (self.clip.clip2 is Some <==> self.version.spec_uses_dual_encoder())
        &&& (self.tokenizer.tokenizer2 is Some <==> self.version.spec_uses_dual_encoder())
    }

    /// Every component of the bundle points at its selected file for this
    /// version and precision inside `repository`: the U-Net, VAE and text
    /// encoders at their per-precision paths (the VAE possibly in its fixed
    /// half-precision repository), the tokenizers at their version-keyed
    /// repositories.
    pub open spec fn spec_resolves_from(&self, repository: Seq<char>, dtype: DType) -> bool {
        &&& self.unet.file.spec_is_repository_file(repository, spec_unet_path(dtype))
        &&& self.vae.file.spec_is_repository_file(
            spec_vae_repository(repository, self.version, dtype),
            spec_vae_path(self.version, dtype),
        )
        &&& self.clip.clip.spec_is_repository_file(repository, spec_clip_path(dtype))
        &&& (self.clip.clip2 matches Some(f) ==> f.spec_is_repository_file(
            repository,
            spec_clip2_path(dtype),
        ))
        &&& self.tokenizer.tokenizer.spec_is_repository_file(
            spec_tokenizer1_repo(self.version),
            "tokenizer.json"@,
        )
        &&& (self.tokenizer.tokenizer2 matches Some(f) ==> f.spec_is_repository_file(
            "laion/CLIP-ViT-bigG-14-laion2B-39B-b160k"@,
            "tokenizer.json"@,
        ))
    }

    /// Create the default weight bundle for a version and precision: every
    /// component resolves from the version's default repository.
    pub fn new(version: StableDiffusionVersion, dtype: DType) -> (r: Self)
        ensures
            r.version == version,
            r.dtype == dtype,
            r.spec_dual_consistent(),
            r.spec_resolves_from(version.spec_repo(), dtype),
    {
        let repo = version.repo().to_owned();
        Self::from_repository(version, Some(repo), dtype)
    }

    /// Create a weight bundle for a version and precision from the given
    /// repository, falling back to the version's default repository.
    pub fn from_repository(
        version: StableDiffusionVersion,
        repository: Option<String>,
        dtype: DType,
    ) -> (r: Self)
        ensures
            r.version == version,
            r.dtype == dtype,
            r.spec_dual_consistent(),
            repository matches Some(given) ==> r.spec_resolves_from(given@, dtype),
            repository is None ==> r.spec_resolves_from(version.spec_repo(), dtype),
    {
        let repository = match repository {
            Some(r) => r,
            None => version.repo().to_owned(),
        };
        let unet = UNetWeights::from_repository(repository.as_str(), dtype);
        let vae = VAEWeights::from_repository(repository.as_str(), version, dtype);
        let clip = CLIPWeights::from_repository(repository.as_str(), version, dtype);
        let tokenizer = TokenizerWeights::from_repository(version);
        StableDiffusionWeights { version, dtype, unet, vae, clip, tokenizer }
    }

    /// Replace the U-Net weights.
    pub fn with_unet(self, unet: UNetWeights) -> (r: Self)
        ensures
            r.unet == unet,
            r.version == self.version,
            r.dtype == self.dtype,
            r.vae == self.vae,
            r.clip == self.clip,
            r.tokenizer == self.tokenizer,
    {
        Self { unet, ..self }
    }

    /// Replace the VAE weights.
    pub fn with_vae(self, vae: VAEWeights) -> (r: Self)
        ensures
            r.vae == vae,
            r.version == self.version,
            r.dtype == self.dtype,
            r.unet == self.unet,
            r.clip == self.clip,
            r.tokenizer == self.tokenizer,
    {
        Self { vae, ..self }
    }

    /// Replace the text-encoder weights.
    pub fn with_clip(self, clip: CLIPWeights) -> (r: Self)
        ensures
            r.clip == clip,
            r.version == self.version,
            r.dtype == self.dtype,
            r.unet == self.unet,
            r.vae == self.vae,
            r.tokenizer == self.tokenizer,
    {
        Self { clip, ..self }
    }

    /// Replace the tokenizer files.
    pub fn with_tokenizer(self, tokenizer: TokenizerWeights) -> (r: Self)
        ensures
            r.tokenizer == tokenizer,
            r.version == self.version,
            r.dtype == self.dtype,
            r.unet == self.unet,
            r.vae == self.vae,
            r.clip == self.clip,
    {
        Self { tokenizer, ..self }
    }
}

} // verus!
