//! The tensor-shape facts that the sampling loop relies on, exercised
//! against the real outside tensor runtime on the CPU.

use candle_core::Device;
use candle_core::Tensor;

#[test]
fn batch_concatenation_doubles_the_first_dimension() {
    let device = Device::Cpu;
    let t = Tensor::zeros((1usize, 4usize, 8usize, 8usize), candle_core::DType::F32, &device)
        .unwrap();
    let doubled = Tensor::cat(&[&t, &t], 0).unwrap();
    assert_eq!(doubled.dims(), &[2, 4, 8, 8]);
}

#[test]
fn feature_concatenation_adds_last_dimensions() {
    let device = Device::Cpu;
    let a = Tensor::zeros((2usize, 77usize, 768usize), candle_core::DType::F32, &device).unwrap();
    let b = Tensor::zeros((2usize, 77usize, 1280usize), candle_core::DType::F32, &device).unwrap();
    let joined = Tensor::cat(&[&a, &b], candle_core::D::Minus1).unwrap();
    assert_eq!(joined.dims(), &[2, 77, 2048]);
}

#[test]
fn chunking_a_doubled_batch_gives_two_halves() {
    let device = Device::Cpu;
    let t = Tensor::zeros((2usize, 4usize, 8usize, 8usize), candle_core::DType::F32, &device)
        .unwrap();
    let halves = t.chunk(2, 0).unwrap();
    assert_eq!(halves.len(), 2);
    assert_eq!(halves[0].dims(), &[1, 4, 8, 8]);
    assert_eq!(halves[1].dims(), &[1, 4, 8, 8]);
}

#[test]
fn rational_scaling_matches_the_vae_constant() {
    // affine(num, 0) followed by division by den is multiplication by the
    // exact rational num / den — here the V1_5 latent scale 0.18215.
    let device = Device::Cpu;
    let t = Tensor::new(&[1.0f32, 2.0], &device).unwrap();
    let num = 18215u32;
    let den_value = 100000u32;
    let scaled = t.affine(num as f64, 0.0).unwrap();
    let den = Tensor::new(den_value, &device)
        .unwrap()
        .to_dtype(scaled.dtype())
        .unwrap();
    let result = scaled.broadcast_div(&den).unwrap().to_vec1::<f32>().unwrap();
    assert!((result[0] - 0.18215).abs() < 1e-6);
    assert!((result[1] - 0.36430).abs() < 1e-6);
}

#[test]
fn guidance_recombination_matches_the_formula() {
    // uncond + (milli / 1000) * (cond - uncond) with milli = 7500 is the
    // classic guidance formula with scale 7.5.
    let device = Device::Cpu;
    let uncond = Tensor::new(&[1.0f32, 0.0], &device).unwrap();
    let cond = Tensor::new(&[2.0f32, 1.0], &device).unwrap();
    let milli = 7500u64;
    let diff = (&cond - &uncond).unwrap();
    let scaled = diff.affine(milli as f64, 0.0).unwrap();
    let den = Tensor::new(1000u32, &device)
        .unwrap()
        .to_dtype(scaled.dtype())
        .unwrap();
    let adj = scaled.broadcast_div(&den).unwrap();
    let result = (&uncond + adj).unwrap().to_vec1::<f32>().unwrap();
    assert!((result[0] - 8.5).abs() < 1e-6);
    assert!((result[1] - 7.5).abs() < 1e-6);
}

#[test]
fn decoded_rescale_matches_the_plain_form() {
    // (255 x + 255) / 2 equals 255 * (x / 2 + 0.5) on the decode range.
    let device = Device::Cpu;
    let t = Tensor::new(&[-1.0f32, 0.0, 1.0, 0.5], &device).unwrap();
    let scaled = t.affine(255.0, 255.0).unwrap();
    let den = Tensor::new(2u32, &device).unwrap().to_dtype(scaled.dtype()).unwrap();
    let ours = scaled.broadcast_div(&den).unwrap().to_vec1::<f32>().unwrap();
    let plain: Vec<f32> = [-1.0f32, 0.0, 1.0, 0.5]
        .iter()
        .map(|x| 255.0 * (x / 2.0 + 0.5))
        .collect();
    for (a, b) in ours.iter().zip(plain.iter()) {
        assert!((a - b).abs() < 1e-4);
    }
}
