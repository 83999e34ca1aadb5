use stable_diffusion::DType;
use stable_diffusion::GenerationParameters;
use stable_diffusion::PixelImage;
use stable_diffusion::StableDiffusionVersion;
use stable_diffusion::resolved_style_prompt;
use stable_diffusion::resolved_uncond_style_prompt;
use stable_diffusion::t_start;

#[test]
fn version_repositories() {
    assert_eq!(StableDiffusionVersion::V1_5.repo(), "runwayml/stable-diffusion-v1-5");
    assert_eq!(StableDiffusionVersion::V2_1.repo(), "stabilityai/stable-diffusion-2-1");
    assert_eq!(StableDiffusionVersion::XL.repo(), "stabilityai/stable-diffusion-xl-base-1.0");
    assert_eq!(StableDiffusionVersion::Turbo.repo(), "stabilityai/sdxl-turbo");
}

#[test]
fn version_defaults() {
    assert_eq!(StableDiffusionVersion::V1_5.default_guidance_milli(), 7500);
    assert_eq!(StableDiffusionVersion::V2_1.default_guidance_milli(), 7500);
    assert_eq!(StableDiffusionVersion::XL.default_guidance_milli(), 7500);
    assert_eq!(StableDiffusionVersion::Turbo.default_guidance_milli(), 0);
    assert_eq!(StableDiffusionVersion::V1_5.default_steps(), 30);
    assert_eq!(StableDiffusionVersion::Turbo.default_steps(), 1);
    assert_eq!(StableDiffusionVersion::V1_5.default_width(), 512);
    assert_eq!(StableDiffusionVersion::V2_1.default_width(), 768);
    assert_eq!(StableDiffusionVersion::XL.default_height(), 1024);
    assert_eq!(StableDiffusionVersion::Turbo.default_height(), 512);
}

#[test]
fn version_vae_scale_constants() {
    // 0.18215 and 0.13025, in hundred-thousandths.
    assert_eq!(StableDiffusionVersion::V1_5.vae_scale_num(), 18215);
    assert_eq!(StableDiffusionVersion::V2_1.vae_scale_num(), 18215);
    assert_eq!(StableDiffusionVersion::XL.vae_scale_num(), 18215);
    assert_eq!(StableDiffusionVersion::Turbo.vae_scale_num(), 13025);
}

#[test]
fn dual_encoder_versions() {
    assert!(!StableDiffusionVersion::V1_5.uses_dual_encoder());
    assert!(!StableDiffusionVersion::V2_1.uses_dual_encoder());
    assert!(StableDiffusionVersion::XL.uses_dual_encoder());
    assert!(StableDiffusionVersion::Turbo.uses_dual_encoder());
}

#[test]
fn request_defaults() {
    let p = GenerationParameters::new("a rusty robot");
    assert_eq!(p.prompt, "a rusty robot");
    assert_eq!(p.uncond_prompt, "");
    assert!(p.style_prompt.is_none());
    assert!(p.uncond_style_prompt.is_none());
    assert!(p.width.is_none());
    assert!(p.height.is_none());
    assert!(p.n_steps.is_none());
    assert!(p.guidance_scale_milli.is_none());
    assert!(p.img2img.is_none());
    assert_eq!(p.img2img_strength_milli, 500);
}

#[test]
fn request_builders() {
    let p = GenerationParameters::new("prompt")
        .with_uncond_prompt("bad hands".to_owned())
        .with_style_prompt(Some("oil painting".to_owned()))
        .with_uncond_style_prompt(Some("sketch".to_owned()))
        .with_width(Some(640))
        .with_height(Some(384))
        .with_n_steps(Some(12))
        .with_guidance_scale(Some(9000))
        .with_img2img_strength(800);
    assert_eq!(p.uncond_prompt, "bad hands");
    assert_eq!(p.style_prompt.as_deref(), Some("oil painting"));
    assert_eq!(p.uncond_style_prompt.as_deref(), Some("sketch"));
    assert_eq!(p.width, Some(640));
    assert_eq!(p.height, Some(384));
    assert_eq!(p.n_steps, Some(12));
    assert_eq!(p.guidance_scale_milli, Some(9000));
    assert_eq!(p.img2img_strength_milli, 800);
}

#[test]
fn resolution_falls_back_to_version_defaults() {
    let p = GenerationParameters::new("prompt");
    assert_eq!(p.resolved_width(StableDiffusionVersion::V2_1), 768);
    assert_eq!(p.resolved_height(StableDiffusionVersion::XL), 1024);
    assert_eq!(p.resolved_steps(StableDiffusionVersion::V1_5), 30);
    assert_eq!(p.resolved_steps(StableDiffusionVersion::Turbo), 1);
    assert_eq!(p.resolved_guidance_milli(StableDiffusionVersion::V2_1), 7500);
    assert_eq!(p.resolved_guidance_milli(StableDiffusionVersion::Turbo), 0);
    let q = p.with_width(Some(256)).with_n_steps(Some(4)).with_guidance_scale(Some(500));
    assert_eq!(q.resolved_width(StableDiffusionVersion::V2_1), 256);
    assert_eq!(q.resolved_steps(StableDiffusionVersion::Turbo), 4);
    assert_eq!(q.resolved_guidance_milli(StableDiffusionVersion::V2_1), 500);
}

#[test]
fn guidance_flag_threshold() {
    // Guidance is active exactly above a scale of 1.0 (1000 thousandths).
    let p = GenerationParameters::new("prompt");
    assert!(p.use_guide_scale(StableDiffusionVersion::V2_1));
    assert!(!p.use_guide_scale(StableDiffusionVersion::Turbo));
    let exactly_one = p.with_guidance_scale(Some(1000));
    assert!(!exactly_one.use_guide_scale(StableDiffusionVersion::V2_1));
    let above = exactly_one.with_guidance_scale(Some(1001));
    assert!(above.use_guide_scale(StableDiffusionVersion::Turbo));
}

#[test]
fn no_guidance_scenario_v2_1_two_steps() {
    // version V2_1, 2 steps, guidance 0.0: no guidance branch, batch 1.
    let p = GenerationParameters::new("prompt")
        .with_n_steps(Some(2))
        .with_guidance_scale(Some(0));
    assert!(!p.use_guide_scale(StableDiffusionVersion::V2_1));
    assert_eq!(p.resolved_steps(StableDiffusionVersion::V2_1), 2);
}

#[test]
fn xl_style_scenario_with_guidance() {
    // version XL, no style prompts, guidance 5.0: dual pass with the
    // primary prompt restated and an empty unconditional style prompt.
    let p = GenerationParameters::new("prompt").with_guidance_scale(Some(5000));
    assert!(StableDiffusionVersion::XL.uses_dual_encoder());
    assert!(p.use_guide_scale(StableDiffusionVersion::XL));
    assert_eq!(resolved_style_prompt(&p), "prompt");
    assert_eq!(resolved_uncond_style_prompt(&p), "");
}

#[test]
fn style_prompt_defaults() {
    let without = GenerationParameters::new("primary");
    assert_eq!(resolved_style_prompt(&without), "primary");
    assert_eq!(resolved_uncond_style_prompt(&without), "");
    let with = without
        .with_style_prompt(Some("styled".to_owned()))
        .with_uncond_style_prompt(Some("unstyled".to_owned()));
    assert_eq!(resolved_style_prompt(&with), "styled");
    assert_eq!(resolved_uncond_style_prompt(&with), "unstyled");
}

#[test]
fn t_start_extremes() {
    // Strength 1.0 re-noises fully; strength 0.0 skips every step.
    assert_eq!(t_start(30, 1000), 0);
    assert_eq!(t_start(30, 0), 30);
    assert_eq!(t_start(1, 1000), 0);
    assert_eq!(t_start(1, 0), 1);
}

#[test]
fn t_start_partial_strengths() {
    assert_eq!(t_start(30, 500), 15);
    assert_eq!(t_start(30, 800), 6);
    // 30 * 0.333 = 9.99 truncates to 9.
    assert_eq!(t_start(30, 333), 21);
    assert_eq!(t_start(10, 950), 1);
}

#[test]
fn pixel_image_from_raw_checks_size() {
    let img = PixelImage::from_raw(2, 2, vec![0u8; 12]);
    assert!(img.is_some());
    let img = img.unwrap();
    assert_eq!(img.width, 2);
    assert_eq!(img.height, 2);
    assert!(PixelImage::from_raw(2, 2, vec![0u8; 11]).is_none());
    assert!(PixelImage::from_raw(2, 2, vec![0u8; 13]).is_none());
    assert!(PixelImage::from_raw(0, 0, Vec::new()).is_some());
}

#[test]
fn dtype_values_are_distinct() {
    assert_ne!(DType::F16, DType::F32);
    assert_ne!(DType::F16, DType::BF16);
    assert_eq!(DType::F32, DType::F32);
}
