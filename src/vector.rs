//! The vector operations of glam that the library relies on.
//!
//! `glam::Vec3` holds three `f32` components. The library never reads them:
//! each operation below is glam's own, and its result is named by a spec
//! function of the arguments. Arithmetic that yields a NaN fixes only that a
//! NaN is there, not its sign or payload, so the arithmetic operations promise
//! the named vector exactly only when it holds no NaN; otherwise they promise
//! a vector with a NaN.
use vstd::prelude::*;

verus! {

/// glam's vector of three `f32` components, opaque to the proofs.
#[verifier::external_type_specification]
#[verifier::external_body]
pub struct ExVec3(glam::Vec3);

/// glam's three-lane boolean mask, whose fields are the public `bool`s `x`,
/// `y` and `z`.
#[verifier::external_type_specification]
pub struct ExBVec3(glam::BVec3);

/// At least one component is NaN, as `glam::Vec3::is_nan` reports it.
pub uninterp spec fn has_nan(v: glam::Vec3) -> bool;

/// What is known of a result that should be `v`: `v` itself when it has no
/// NaN; `None` when it has one, for then only the presence of a NaN is fixed.
pub open spec fn modelled(v: glam::Vec3) -> Option<glam::Vec3> {
    if has_nan(v) {
        None
    } else {
        Some(v)
    }
}

/// `r` is what the model `m` describes: exactly the vector, or some vector
/// with a NaN.
pub open spec fn realizes(r: glam::Vec3, m: Option<glam::Vec3>) -> bool {
    match m {
        Some(v) => r == v,
        None => has_nan(r),
    }
}

/// Component-wise difference `a - b`, as glam computes it.
pub uninterp spec fn difference(a: glam::Vec3, b: glam::Vec3) -> glam::Vec3;

/// Whether `a <= b` holds in each of the three axes, as glam compares them.
pub uninterp spec fn le_in_each_axis(a: glam::Vec3, b: glam::Vec3) -> (bool, bool, bool);

/// Component-wise minimum, as `glam::Vec3::min` picks it.
pub uninterp spec fn component_min(a: glam::Vec3, b: glam::Vec3) -> glam::Vec3;

/// Component-wise maximum, as `glam::Vec3::max` picks it.
pub uninterp spec fn component_max(a: glam::Vec3, b: glam::Vec3) -> glam::Vec3;

/// Component-wise product `a * b`, as glam computes it.
pub uninterp spec fn product(a: glam::Vec3, b: glam::Vec3) -> glam::Vec3;

/// Cross product `a × b`, as glam computes it.
pub uninterp spec fn cross_product(a: glam::Vec3, b: glam::Vec3) -> glam::Vec3;

/// `v` scaled to unit length, as glam computes it.
pub uninterp spec fn normalized(v: glam::Vec3) -> glam::Vec3;

/// Relies on glam's `impl Sub for Vec3`: subtracts component by component.
#[verifier::external_body]
pub(crate) fn subtract(a: glam::Vec3, b: glam::Vec3) -> (r: glam::Vec3)
    ensures
        has_nan(r) == has_nan(difference(a, b)),
        !has_nan(r) ==> r == difference(a, b),
{
    a - b
}

/// Relies on glam's `impl Mul for Vec3`: multiplies component by component,
/// so a NaN in either operand gives a NaN in the same component.
#[verifier::external_body]
pub(crate) fn multiply(a: glam::Vec3, b: glam::Vec3) -> (r: glam::Vec3)
    ensures
        has_nan(r) == has_nan(product(a, b)),
        !has_nan(r) ==> r == product(a, b),
        has_nan(a) || has_nan(b) ==> has_nan(r),
{
    a * b
}

/// Relies on `glam::Vec3::cross`: the cross product of its two arguments.
/// Each input component enters two output components through a product and
/// a difference, so a NaN in either argument gives a NaN in the result.
pub assume_specification[ glam::Vec3::cross ](a: glam::Vec3, b: glam::Vec3) -> (r: glam::Vec3)
    ensures
        has_nan(r) == has_nan(cross_product(a, b)),
        !has_nan(r) ==> r == cross_product(a, b),
        has_nan(a) || has_nan(b) ==> has_nan(r),
;

/// Relies on `glam::Vec3::normalize`: the argument times the reciprocal of its
/// length. A NaN component makes the length NaN, and so every component of
/// the result. It never panics unless glam's `glam-assert` feature (or, in
/// debug builds, `debug-glam-assert`) is on, and this crate turns neither on.
pub assume_specification[ glam::Vec3::normalize ](v: glam::Vec3) -> (r: glam::Vec3)
    ensures
        has_nan(r) == has_nan(normalized(v)),
        !has_nan(r) ==> r == normalized(v),
        has_nan(v) ==> has_nan(r),
;

/// Relies on `glam::Vec3::is_nan`: whether any component is NaN.
pub assume_specification[ glam::Vec3::is_nan ](v: glam::Vec3) -> (r: bool)
    ensures
        r == has_nan(v),
;

/// Relies on `glam::Vec3::min`: per axis, `a` where `a < b`, else `b`.
pub assume_specification[ glam::Vec3::min ](a: glam::Vec3, b: glam::Vec3) -> (r: glam::Vec3)
    ensures
        r == component_min(a, b),
;

/// Relies on `glam::Vec3::max`: per axis, `a` where `a > b`, else `b`.
pub assume_specification[ glam::Vec3::max ](a: glam::Vec3, b: glam::Vec3) -> (r: glam::Vec3)
    ensures
        r == component_max(a, b),
;

/// Relies on `glam::Vec3::cmple`: a mask of the three `<=` comparisons.
pub assume_specification[ glam::Vec3::cmple ](a: glam::Vec3, b: glam::Vec3) -> (r: glam::BVec3)
    ensures
        (r.x, r.y, r.z) == le_in_each_axis(a, b),
;

/// Relies on `glam::BVec3::all`: true when all three lanes are set.
pub assume_specification[ glam::BVec3::all ](m: glam::BVec3) -> (r: bool)
    ensures
        r == (m.x && m.y && m.z),
;

} // verus!
