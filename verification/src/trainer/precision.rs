//! The numeric precision names understood by the external training
//! toolkit.

use vstd::prelude::*;

verus! {

/// The precision of trained or saved weights.
pub enum FloatPrecision {
    /// 16-bit floating point.
    F16,
    /// 16-bit brain floating point.
    BF16,
    /// 32-bit floating point.
    F32,
}

impl FloatPrecision {
    /// The name the external toolkit knows the precision by.
    pub fn as_str(&self) -> (r: &'static str)
        ensures
            self is F16 ==> r@ == "fp16"@,
            self is BF16 ==> r@ == "bf16"@,
            self is F32 ==> r@ == "fp32"@,
    {
        match self {
            FloatPrecision::F16 => "fp16",
            FloatPrecision::BF16 => "bf16",
            FloatPrecision::F32 => "fp32",
        }
    }
}

impl Default for FloatPrecision {
    /// Half precision is the default.
    fn default() -> (r: Self)
        ensures
            r is F16,
    {
        FloatPrecision::F16
    }
}

} // verus!
