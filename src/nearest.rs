//! Choosing the nearest intersection along a ray.
//!
//! Distances arrive as IEEE-754 binary32 bit patterns (what `f32::to_bits`
//! returns), so that they can be compared here exactly as `f32` compares them:
//! `<=` for the range filter and `f32::total_cmp` for the final choice.
use vstd::prelude::*;

verus! {

/// One more than the largest fraction field of a binary32 value.
pub const FRACTION_SPAN: u32 = 0x80_0000;

/// The sign bit of a binary32 value.
pub const SIGN_BIT: u32 = 0x8000_0000;

/// The exponent field (8 bits) of a binary32 bit pattern.
pub open spec fn exponent_field(bits: u32) -> int {
    (bits as int / FRACTION_SPAN as int) % 0x100
}

/// The fraction field (23 bits) of a binary32 bit pattern.
pub open spec fn fraction_field(bits: u32) -> int {
    bits as int % FRACTION_SPAN as int
}

/// Not an infinity and not a NaN.
pub open spec fn finite_bits(bits: u32) -> bool {
    exponent_field(bits) != 0xff
}

pub open spec fn nan_bits(bits: u32) -> bool {
    exponent_field(bits) == 0xff && fraction_field(bits) != 0
}

/// `+0.0` or `-0.0`.
pub open spec fn zero_bits(bits: u32) -> bool {
    bits as int % SIGN_BIT as int == 0
}

/// A key whose integer order is the total order of `f32::total_cmp`:
/// negative values (sign bit set) reversed below the non-negative ones.
pub open spec fn total_order_key(bits: u32) -> int {
    if bits >= SIGN_BIT {
        0xffff_ffff - bits
    } else {
        bits + SIGN_BIT
    }
}

/// `a <= b` as `f32` evaluates it: false when either is NaN, and `-0.0`
/// equal to `+0.0`.
pub open spec fn float_le(a: u32, b: u32) -> bool {
    &&& !nan_bits(a)
    &&& !nan_bits(b)
    &&& (zero_bits(a) && zero_bits(b)) || total_order_key(a) <= total_order_key(b)
}

/// A distance that the nearest-hit query keeps: at least `min_distance`, at
/// most `max_distance` when one is given, and finite.
pub open spec fn admissible(distance: u32, min_distance: u32, max_distance: Option<u32>) -> bool {
    &&& float_le(min_distance, distance)
    &&& match max_distance {
        None => true,
        Some(m) => float_le(distance, m),
    }
    &&& finite_bits(distance)
}

/// Whether the distance bit pattern is a finite number.
pub fn is_finite_distance(bits: u32) -> (r: bool)
    ensures
        r == finite_bits(bits),
{
    (bits / FRACTION_SPAN) % 0x100 != 0xff
}

fn is_nan_distance(bits: u32) -> (r: bool)
    ensures
        r == nan_bits(bits),
{
    (bits / FRACTION_SPAN) % 0x100 == 0xff && bits % FRACTION_SPAN != 0
}

/// The `f32::total_cmp` key of a bit pattern.
pub fn total_key(bits: u32) -> (k: u32)
    ensures
        k as int == total_order_key(bits),
{
    if bits >= SIGN_BIT {
        0xffff_ffff - bits
    } else {
        bits + SIGN_BIT
    }
}

/// `a <= b` on the two `f32` values that the bit patterns encode.
pub fn distance_le(a: u32, b: u32) -> (r: bool)
    ensures
        r == float_le(a, b),
{
    if is_nan_distance(a) || is_nan_distance(b) {
        false
    } else if a % SIGN_BIT == 0 && b % SIGN_BIT == 0 {
        true
    } else {
        total_key(a) <= total_key(b)
    }
}

/// Whether a candidate distance passes the range and finiteness filters.
pub fn is_admissible(distance: u32, min_distance: u32, max_distance: Option<u32>) -> (r: bool)
    ensures
        r == admissible(distance, min_distance, max_distance),
{
    if !distance_le(min_distance, distance) {
        return false;
    }
    match max_distance {
        Some(m) => {
            if !distance_le(distance, m) {
                return false;
            }
        },
        None => {},
    }
    is_finite_distance(distance)
}

/// The index of the nearest admissible candidate: among the distances that
/// pass the filters, the one least in `f32::total_cmp` order, and the first
/// of several equal ones. `None` when no candidate passes.
pub fn nearest_candidate(distances: &Vec<u32>, min_distance: u32, max_distance: Option<u32>) -> (r:
    Option<usize>)
    ensures
        r is None <==> forall|j: int|
            0 <= j < distances@.len() ==> !#[trigger] admissible(distances@[j], min_distance, max_distance),
        r matches Some(i) ==> {
            &&& i < distances@.len()
            &&& admissible(distances@[i as int], min_distance, max_distance)
            &&& forall|j: int|
                0 <= j < distances@.len() && #[trigger] admissible(distances@[j], min_distance, max_distance)
                    ==> total_order_key(distances@[i as int]) <= total_order_key(distances@[j])
            &&& forall|j: int|
                0 <= j < i && #[trigger] admissible(distances@[j], min_distance, max_distance)
                    ==> total_order_key(distances@[i as int]) < total_order_key(distances@[j])
        },
{
    let mut best: Option<usize> = None;
    let mut i: usize = 0;
    while i < distances.len()
        invariant
            i <= distances@.len(),
            best is None <==> forall|j: int|
                0 <= j < i ==> !#[trigger] admissible(distances@[j], min_distance, max_distance),
            best matches Some(b) ==> {
                &&& b < i
                &&& admissible(distances@[b as int], min_distance, max_distance)
                &&& forall|j: int|
                    0 <= j < i && #[trigger] admissible(distances@[j], min_distance, max_distance)
                        ==> total_order_key(distances@[b as int]) <= total_order_key(distances@[j])
                &&& forall|j: int|
                    0 <= j < b && #[trigger] admissible(distances@[j], min_distance, max_distance)
                        ==> total_order_key(distances@[b as int]) < total_order_key(distances@[j])
            },
        decreases distances@.len() - i,
    {
        let d = distances[i];
        if is_admissible(d, min_distance, max_distance) {
            match best {
                None => {
                    best = Some(i);
                },
                Some(b) => {
                    if total_key(d) < total_key(distances[b]) {
                        best = Some(i);
                    }
                },
            }
        }
        i = i + 1;
    }
    best
}

} // verus!
