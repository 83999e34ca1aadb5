//! The learning-rate scheduler choice handed to the external training
//! toolkit.

use vstd::prelude::*;

verus! {

/// The learning-rate schedule of the training process.
pub enum LearningRateScheduler {
    Adafactor,
    Constant,
    ConstantWithWarmup,
    Cosine,
    CosineWithRestarts,
    Linear,
    Polynomial,
}

impl LearningRateScheduler {
    /// The name the external toolkit knows the schedule by.
    pub fn as_str(&self) -> (r: &'static str)
        ensures
            self is Adafactor ==> r@ == "adafactor"@,
            self is Constant ==> r@ == "constant"@,
            self is ConstantWithWarmup ==> r@ == "constant_with_warmup"@,
            self is Cosine ==> r@ == "cosine"@,
            self is CosineWithRestarts ==> r@ == "cosine_with_restarts"@,
            self is Linear ==> r@ == "linear"@,
            self is Polynomial ==> r@ == "polynomial"@,
    {
        match self {
            LearningRateScheduler::Adafactor => "adafactor",
            LearningRateScheduler::Constant => "constant",
            LearningRateScheduler::ConstantWithWarmup => "constant_with_warmup",
            LearningRateScheduler::Cosine => "cosine",
            LearningRateScheduler::CosineWithRestarts => "cosine_with_restarts",
            LearningRateScheduler::Linear => "linear",
            LearningRateScheduler::Polynomial => "polynomial",
        }
    }
}

impl Default for LearningRateScheduler {
    /// Cosine is the default schedule.
    fn default() -> (r: Self)
        ensures
            r is Cosine,
    {
        LearningRateScheduler::Cosine
    }
}

} // verus!
