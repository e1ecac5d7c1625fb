//! Saturating fixed-width arithmetic helpers.
//!
//! Every arithmetic path in the risk engine must saturate rather than
//! overflow, so the numeric checks share these small verified primitives.
//! Each executable helper is specified against the exact mathematical value
//! clamped into the `i64` range.

use vstd::prelude::*;

verus! {

/// Mathematical value of `v` clamped into the representable `i64` range.
pub open spec fn clamp_i64(v: int) -> int {
    if v > i64::MAX {
        i64::MAX as int
    } else if v < i64::MIN {
        i64::MIN as int
    } else {
        v
    }
}

/// Absolute value of a mathematical integer.
pub open spec fn abs_of(v: int) -> int {
    if v >= 0 {
        v
    } else {
        -v
    }
}

/// Saturating signed addition: the exact sum clamped into the `i64` range.
pub(crate) fn sat_add_i64(a: i64, b: i64) -> (r: i64)
    ensures
        r as int == clamp_i64(a + b),
{
    match a.checked_add(b) {
        Some(v) => v,
        None => {
            if b > 0 {
                i64::MAX
            } else {
                i64::MIN
            }
        },
    }
}

/// Saturating signed subtraction: the exact difference clamped into the
/// `i64` range.
pub(crate) fn sat_sub_i64(a: i64, b: i64) -> (r: i64)
    ensures
        r as int == clamp_i64(a - b),
{
    match a.checked_sub(b) {
        Some(v) => v,
        None => {
            if b < 0 {
                i64::MAX
            } else {
                i64::MIN
            }
        },
    }
}

/// Clamp a double-width intermediate into the `i64` range.
pub(crate) fn clamp_i128_to_i64(v: i128) -> (r: i64)
    ensures
        r as int == clamp_i64(v as int),
{
    if v > i64::MAX as i128 {
        i64::MAX
    } else if v < i64::MIN as i128 {
        i64::MIN
    } else {
        v as i64
    }
}

/// Absolute value of an `i64`, exact even for `i64::MIN`.
pub(crate) fn abs_u64(v: i64) -> (r: u64)
    ensures
        r as int == abs_of(v as int),
{
    if v >= 0 {
        v as u64
    } else {
        (-(v as i128)) as u64
    }
}

/// Absolute value of an `i64` widened into `u128`.
pub(crate) fn abs_u128(v: i64) -> (r: u128)
    ensures
        r as int == abs_of(v as int),
{
    if v >= 0 {
        v as u128
    } else {
        (-(v as i128)) as u128
    }
}

/// Reattach a sign to an unsigned magnitude and clamp into the `i64` range.
pub(crate) fn clamp_signed_mag(negative: bool, mag: u128) -> (r: i64)
    ensures
        r as int == clamp_i64(if negative { -(mag as int) } else { mag as int }),
{
    if negative {
        if mag >= 9223372036854775808u128 {
            i64::MIN
        } else {
            -(mag as i64)
        }
    } else {
        if mag > i64::MAX as u128 {
            i64::MAX
        } else {
            mag as i64
        }
    }
}

} // verus!
