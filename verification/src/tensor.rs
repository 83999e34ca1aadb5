//! The opaque tensor runtime.
//!
//! Tensors, devices and the neural operators come from an outside numeric
//! library and are opaque here: the contracts speak only of each tensor's
//! shape, through the uninterpreted view [`dims_of`]. Every call into the
//! runtime goes through a trusted wrapper whose contract states what the
//! library's source shows about the result's shape.

use vstd::prelude::*;

verus! {

#[verifier::external_type_specification]
#[verifier::external_body]
pub struct ExTensor(candle_core::Tensor);

#[verifier::external_type_specification]
#[verifier::external_body]
pub struct ExDevice(candle_core::Device);

#[verifier::external_type_specification]
#[verifier::external_body]
pub struct ExCandleError(candle_core::error::Error);

/// The shape of a tensor: its dimension sizes, outermost first.
pub uninterp spec fn dims_of(t: candle_core::Tensor) -> Seq<nat>;

/// Relies on `Tensor::clone`: a tensor is a shared handle onto immutable
/// storage, so its clone is the same tensor.
pub assume_specification[ <candle_core::Tensor as Clone>::clone ](t: &candle_core::Tensor) -> (r:
    candle_core::Tensor)
    ensures
        r == *t,
;

/// Relies on `Tensor::cat` along dimension 0: with two arguments of equal
/// shape, the result's first dimension is their sum and the rest carry over.
#[verifier::external_body]
pub(crate) fn cat_batch(a: &candle_core::Tensor, b: &candle_core::Tensor) -> (r: Result<
    candle_core::Tensor,
    String,
>)
    ensures
        r matches Ok(t) ==> ((dims_of(*a) == dims_of(*b) && dims_of(*a).len() > 0) ==> dims_of(t)
            =~= dims_of(*a).update(0, (2 * dims_of(*a)[0]) as nat)),
{
    candle_core::Tensor::cat(&[a, b], 0).map_err(|e| format!("{e}"))
}

/// Relies on `Tensor::cat` along the last dimension: with two arguments of
/// equal rank that agree on every other dimension, the last dimensions add
/// up and the rest carry over.
#[verifier::external_body]
pub(crate) fn cat_features(a: &candle_core::Tensor, b: &candle_core::Tensor) -> (r: Result<
    candle_core::Tensor,
    String,
>)
    ensures
        r matches Ok(t) ==> ((dims_of(*a).len() == dims_of(*b).len() && dims_of(*a).len() > 0 && (
        forall|i: int| 0 <= i < dims_of(*a).len() - 1 ==> dims_of(*a)[i] == dims_of(*b)[i]))
            ==> dims_of(t) =~= dims_of(*a).update(
            dims_of(*a).len() - 1,
            (dims_of(*a).last() + dims_of(*b).last()) as nat,
        )),
{
    candle_core::Tensor::cat(&[a, b], candle_core::D::Minus1).map_err(|e| format!("{e}"))
}

/// Relies on `Tensor::chunk` with two chunks along dimension 0: when the
/// first dimension is exactly 2, the result is two slices of it, each with
/// first dimension 1 and the other dimensions unchanged.
#[verifier::external_body]
pub(crate) fn chunk2_batch(t: &candle_core::Tensor) -> (r: Result<Vec<candle_core::Tensor>, String>)
    ensures
        r matches Ok(v) ==> ((dims_of(*t).len() > 0 && dims_of(*t)[0] == 2) ==> v@.len() == 2
            && dims_of(v@[0]) =~= dims_of(*t).update(0, 1nat) && dims_of(v@[1]) =~= dims_of(
            *t,
        ).update(0, 1nat)),
{
    t.chunk(2, 0).map_err(|e| format!("{e}"))
}

/// Relies on `Tensor::to_dtype`: an elementwise conversion that keeps the
/// shape.
#[verifier::external_body]
pub(crate) fn to_dtype_of(t: &candle_core::Tensor, dtype: crate::version::DType) -> (r: Result<
    candle_core::Tensor,
    String,
>)
    ensures
        r matches Ok(c) ==> dims_of(c) == dims_of(*t),
{
    let dt = match dtype {
        crate::version::DType::F16 => candle_core::DType::F16,
        crate::version::DType::BF16 => candle_core::DType::BF16,
        crate::version::DType::F32 => candle_core::DType::F32,
    };
    t.to_dtype(dt).map_err(|e| format!("{e}"))
}

/// Relies on `Tensor::zeros` and `Tensor::randn_like`: a fresh tensor of
/// shape `(1, 4, h, w)` drawn elementwise from the standard normal
/// distribution. The values are random; only the shape is promised.
#[verifier::external_body]
pub(crate) fn fresh_noise(device: &candle_core::Device, h: usize, w: usize) -> (r: Result<
    candle_core::Tensor,
    String,
>)
    ensures
        r matches Ok(t) ==> dims_of(t) =~= seq![1nat, 4nat, h as nat, w as nat],
{
    let zeros = candle_core::Tensor::zeros((1usize, 4usize, h, w), candle_core::DType::F32, device)
        .map_err(|e| format!("{e}"))?;
    zeros.randn_like(0 as _, 1 as _).map_err(|e| format!("{e}"))
}

/// Relies on `Tensor::randn_like`: standard-normal noise of the same shape
/// as the argument. The values are random; only the shape is promised.
#[verifier::external_body]
pub(crate) fn noise_like(t: &candle_core::Tensor) -> (r: Result<candle_core::Tensor, String>)
    ensures
        r matches Ok(n) ==> dims_of(n) == dims_of(*t),
{
    t.randn_like(0 as _, 1 as _).map_err(|e| format!("{e}"))
}

/// Relies on `Tensor::affine` and `Tensor::broadcast_div`: multiplies every
/// element by the rational `num / den`, evaluated in the tensor's floating
/// arithmetic, keeping the shape.
#[verifier::external_body]
pub(crate) fn mul_ratio(t: &candle_core::Tensor, num: u32, den: u32) -> (r: Result<
    candle_core::Tensor,
    String,
>)
    requires
        den > 0,
    ensures
        r matches Ok(s) ==> dims_of(s) == dims_of(*t),
{
    let scaled = t.affine(num as _, 0 as _).map_err(|e| format!("{e}"))?;
    let den_t = candle_core::Tensor::new(den, scaled.device())
        .and_then(|d| d.to_dtype(scaled.dtype()))
        .map_err(|e| format!("{e}"))?;
    scaled.broadcast_div(&den_t).map_err(|e| format!("{e}"))
}

/// Relies on the tensor arithmetic operators, `Tensor::affine` and
/// `Tensor::broadcast_div`: classifier-free guidance recombination
/// `uncond + (milli / 1000) * (cond - uncond)`, where `milli` is the
/// guidance scale in thousandths. Elementwise over equal shapes, so the
/// shape carries over.
#[verifier::external_body]
pub(crate) fn guided_combination(
    uncond: &candle_core::Tensor,
    cond: &candle_core::Tensor,
    milli: u64,
) -> (r: Result<candle_core::Tensor, String>)
    ensures
        r matches Ok(t) ==> (dims_of(*cond) == dims_of(*uncond) ==> dims_of(t) == dims_of(
            *uncond,
        )),
{
    let diff = (cond - uncond).map_err(|e| format!("{e}"))?;
    let scaled = diff.affine(milli as _, 0 as _).map_err(|e| format!("{e}"))?;
    let den_t = candle_core::Tensor::new(1000u32, scaled.device())
        .and_then(|d| d.to_dtype(scaled.dtype()))
        .map_err(|e| format!("{e}"))?;
    let adj = scaled.broadcast_div(&den_t).map_err(|e| format!("{e}"))?;
    (uncond + adj).map_err(|e| format!("{e}"))
}

} // verus!
