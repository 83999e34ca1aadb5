//! The scheduler contracts, exercised against the real outside scheduler
//! implementations that the pipeline builds.

use candle_transformers::models::stable_diffusion::StableDiffusionConfig;

#[test]
fn schedule_length_equals_step_count_v1_5() {
    let config = StableDiffusionConfig::v1_5(None, None, None);
    let scheduler = config.build_scheduler(30).unwrap();
    assert_eq!(scheduler.timesteps().len(), 30);
}

#[test]
fn schedule_length_equals_step_count_v2_1() {
    let config = StableDiffusionConfig::v2_1(None, None, None);
    let scheduler = config.build_scheduler(2).unwrap();
    assert_eq!(scheduler.timesteps().len(), 2);
}

#[test]
fn schedule_length_equals_step_count_xl() {
    let config = StableDiffusionConfig::sdxl(None, None, None);
    let scheduler = config.build_scheduler(7).unwrap();
    assert_eq!(scheduler.timesteps().len(), 7);
}

#[test]
fn turbo_schedule_length_for_divisor_counts() {
    let config = StableDiffusionConfig::sdxl_turbo(None, None, None);
    assert_eq!(config.build_scheduler(1).unwrap().timesteps().len(), 1);
    assert_eq!(config.build_scheduler(4).unwrap().timesteps().len(), 4);
    assert_eq!(config.build_scheduler(10).unwrap().timesteps().len(), 10);
}

#[test]
fn turbo_schedule_length_for_non_divisor_count() {
    // The trailing schedule of the Turbo scheduler yields one extra entry
    // when the count does not divide the training range: 3 gives 4.
    let config = StableDiffusionConfig::sdxl_turbo(None, None, None);
    assert_eq!(config.build_scheduler(3).unwrap().timesteps().len(), 4);
}

#[test]
fn leading_schedule_is_strictly_decreasing() {
    let config = StableDiffusionConfig::v1_5(None, None, None);
    let scheduler = config.build_scheduler(30).unwrap();
    let ts = scheduler.timesteps();
    for pair in ts.windows(2) {
        assert!(pair[0] > pair[1]);
    }
}

#[test]
fn leading_schedule_matches_formula() {
    // Leading spacing with offset 1: entry i is (n - 1 - i) * (1000 / n) + 1.
    let config = StableDiffusionConfig::v2_1(None, None, None);
    let scheduler = config.build_scheduler(8).unwrap();
    let ts = scheduler.timesteps();
    let ratio = 1000 / 8;
    for (i, &t) in ts.iter().enumerate() {
        assert_eq!(t, (8 - 1 - i) * ratio + 1);
    }
}

#[test]
fn timesteps_stay_within_training_range() {
    for n in [1usize, 2, 3, 13, 30, 100, 999, 1000] {
        let config = StableDiffusionConfig::v1_5(None, None, None);
        let scheduler = config.build_scheduler(n).unwrap();
        for &t in scheduler.timesteps() {
            assert!(t <= 1000);
        }
    }
}
