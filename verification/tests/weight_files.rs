use stable_diffusion::CLIPWeights;
use stable_diffusion::DType;
use stable_diffusion::DiffusionError;
use stable_diffusion::File;
use stable_diffusion::Repository;
use stable_diffusion::StableDiffusionVersion;
use stable_diffusion::StableDiffusionWeights;
use stable_diffusion::TokenizerWeights;
use stable_diffusion::UNetWeights;
use stable_diffusion::VAEWeights;

fn repository_of(file: &File) -> (&str, &str) {
    match file {
        File::Repository(r) => (r.repository.as_str(), r.path.as_str()),
        File::Path(_) => panic!("expected a repository file"),
    }
}

#[test]
fn unet_paths_by_precision() {
    let f16 = UNetWeights::from_repository("repo/a", DType::F16);
    assert_eq!(
        repository_of(&f16.file),
        ("repo/a", "unet/diffusion_pytorch_model.fp16.safetensors")
    );
    let f32w = UNetWeights::from_repository("repo/a", DType::F32);
    assert_eq!(repository_of(&f32w.file), ("repo/a", "unet/diffusion_pytorch_model.safetensors"));
    let bf16 = UNetWeights::from_repository("repo/a", DType::BF16);
    assert_eq!(repository_of(&bf16.file), ("repo/a", "unet/diffusion_pytorch_model.safetensors"));
}

#[test]
fn vae_half_precision_xl_uses_fixed_repository() {
    let w = VAEWeights::from_repository("repo/a", StableDiffusionVersion::XL, DType::F16);
    assert_eq!(
        repository_of(&w.file),
        ("madebyollin/sdxl-vae-fp16-fix", "diffusion_pytorch_model.safetensors")
    );
    let t = VAEWeights::from_repository("repo/a", StableDiffusionVersion::Turbo, DType::F16);
    assert_eq!(
        repository_of(&t.file),
        ("madebyollin/sdxl-vae-fp16-fix", "diffusion_pytorch_model.safetensors")
    );
}

#[test]
fn vae_paths_for_other_versions() {
    let half = VAEWeights::from_repository("repo/a", StableDiffusionVersion::V1_5, DType::F16);
    assert_eq!(
        repository_of(&half.file),
        ("repo/a", "vae/diffusion_pytorch_model.fp16.safetensors")
    );
    let full = VAEWeights::from_repository("repo/a", StableDiffusionVersion::XL, DType::F32);
    assert_eq!(repository_of(&full.file), ("repo/a", "vae/diffusion_pytorch_model.safetensors"));
}

#[test]
fn clip_files_follow_precision_and_version() {
    let single = CLIPWeights::from_repository("repo/a", StableDiffusionVersion::V2_1, DType::F16);
    assert_eq!(repository_of(&single.clip), ("repo/a", "text_encoder/model.fp16.safetensors"));
    assert!(single.clip2.is_none());
    let dual = CLIPWeights::from_repository("repo/a", StableDiffusionVersion::XL, DType::F32);
    assert_eq!(repository_of(&dual.clip), ("repo/a", "text_encoder/model.safetensors"));
    let clip2 = dual.clip2.expect("XL carries a second text encoder");
    assert_eq!(repository_of(&clip2), ("repo/a", "text_encoder_2/model.safetensors"));
}

#[test]
fn tokenizer_repositories_by_version() {
    let v15 = TokenizerWeights::from_repository(StableDiffusionVersion::V1_5);
    assert_eq!(repository_of(&v15.tokenizer), ("openai/clip-vit-base-patch32", "tokenizer.json"));
    assert!(v15.tokenizer2.is_none());
    let xl = TokenizerWeights::from_repository(StableDiffusionVersion::XL);
    assert_eq!(repository_of(&xl.tokenizer), ("openai/clip-vit-large-patch14", "tokenizer.json"));
    let second = xl.tokenizer2.expect("XL carries a second tokenizer");
    assert_eq!(
        repository_of(&second),
        ("laion/CLIP-ViT-bigG-14-laion2B-39B-b160k", "tokenizer.json")
    );
}

#[test]
fn weight_bundle_uses_default_repository() {
    let w = StableDiffusionWeights::new(StableDiffusionVersion::V2_1, DType::F32);
    assert_eq!(w.version, StableDiffusionVersion::V2_1);
    assert_eq!(w.dtype, DType::F32);
    assert_eq!(
        repository_of(&w.unet.file),
        ("stabilityai/stable-diffusion-2-1", "unet/diffusion_pytorch_model.safetensors")
    );
    assert!(w.clip.clip2.is_none());
    assert!(w.tokenizer.tokenizer2.is_none());
}

#[test]
fn weight_bundle_override_repository_and_parts() {
    let w = StableDiffusionWeights::from_repository(
        StableDiffusionVersion::XL,
        Some("custom/repo".to_owned()),
        DType::F16,
    );
    assert_eq!(
        repository_of(&w.unet.file),
        ("custom/repo", "unet/diffusion_pytorch_model.fp16.safetensors")
    );
    assert!(w.clip.clip2.is_some());
    assert!(w.tokenizer.tokenizer2.is_some());

    let w = w.with_unet(UNetWeights::from_file(File::Path("local.safetensors".to_owned())));
    match &w.unet.file {
        File::Path(p) => assert_eq!(p, "local.safetensors"),
        File::Repository(_) => panic!("expected the local override"),
    }
    let w = w.with_vae(VAEWeights::from_file(File::Path("vae.safetensors".to_owned())));
    match &w.vae.file {
        File::Path(p) => assert_eq!(p, "vae.safetensors"),
        File::Repository(_) => panic!("expected the local override"),
    }
}

#[test]
fn local_file_fetch_returns_the_path() {
    let f = File::Path("/tmp/some-weights.safetensors".to_owned());
    assert_eq!(f.fetch().unwrap(), "/tmp/some-weights.safetensors");
}

#[test]
fn local_directory_repository_short_circuits() {
    // "." names an existing directory, so no hub access happens.
    let r = Repository::new(".", "weights.safetensors");
    assert_eq!(r.fetch().unwrap(), "./weights.safetensors");
}

#[test]
fn error_variants_are_distinguishable() {
    let e = DiffusionError::Fetch("offline".to_owned());
    assert!(matches!(e, DiffusionError::Fetch(_)));
    let e = DiffusionError::NotRgb(4);
    assert!(matches!(e, DiffusionError::NotRgb(4)));
}
