//! Margin requirement calculation for leveraged positions.
//!
//! All monetary values are expressed in ticks. Rates are fixed-point basis
//! points (10000 = 100%). Every computation goes through a double-width
//! intermediate and saturates into the `i64` range, so no price, quantity or
//! configured rate can overflow.

use vstd::prelude::*;

use vstd::arithmetic::div_mod::{
    lemma_div_is_ordered, lemma_div_multiples_vanish, lemma_div_nonincreasing,
    lemma_fundamental_div_mod, lemma_fundamental_div_mod_converse_div,
    lemma_mod_division_less_than_divisor,
};
use vstd::arithmetic::mul::{lemma_mul_inequality, lemma_mul_upper_bound};

use crate::arith::{abs_of, abs_u128, clamp_i64, clamp_signed_mag, sat_add_i64, sat_sub_i64};

verus! {

/// Margin rate configuration expressed in basis points (bps).
///
/// One basis point equals 0.01%, so 1000 bps = 10%.
#[derive(Debug, Clone, Copy, PartialEq, Eq, Structural)]
pub struct MarginParams {
    /// Initial margin rate in basis points (e.g., 1000 = 10%).
    pub initial_margin_bps: u32,
    /// Maintenance margin rate in basis points (e.g., 500 = 5%).
    pub maintenance_margin_bps: u32,
}

impl Default for MarginParams {
    /// The documented default rates: 10% initial, 5% maintenance.
    fn default() -> (r: Self)
        ensures
            r.initial_margin_bps == 1000,
            r.maintenance_margin_bps == 500,
    {
        Self { initial_margin_bps: 1000, maintenance_margin_bps: 500 }
    }
}

/// The margin owed on a position: the floor of the exact product
/// `price * quantity * bps / 10000`, saturated into the `i64` range.
pub open spec fn margin_amount(price: int, quantity: int, bps: int) -> int {
    clamp_i64((price * quantity * bps) / 10000)
}

/// The distance, in ticks, between the entry price and the liquidation
/// price: `equity * 10000 / (quantity * bps)`, rounded toward zero and
/// saturated into the `i64` range. Only meaningful when `quantity * bps`
/// is positive.
pub open spec fn liq_distance(equity: int, quantity: int, bps: int) -> int {
    let mag = (abs_of(equity) * 10000) / (quantity * bps);
    if equity >= 0 {
        clamp_i64(mag)
    } else {
        clamp_i64(-mag)
    }
}

/// The mark price at which a margin call would trigger. A zero quantity, or
/// a zero denominator `quantity * bps`, returns the entry price unchanged (a
/// degenerate sentinel, not an error). A long position liquidates below its
/// entry, a short position above it.
pub open spec fn liquidation_price_spec(
    entry_price: int,
    quantity: int,
    equity: int,
    is_long: bool,
    bps: int,
) -> int {
    if quantity == 0 || quantity * bps == 0 {
        entry_price
    } else {
        let d = liq_distance(equity, quantity, bps);
        if is_long {
            clamp_i64(entry_price - d)
        } else {
            clamp_i64(entry_price + d)
        }
    }
}

/// Computes initial and maintenance margin requirements.
pub struct MarginCalculator {
    params: MarginParams,
}

impl View for MarginCalculator {
    type V = MarginParams;

    closed spec fn view(&self) -> MarginParams {
        self.params
    }
}

/// `floor(price * quantity * bps / 10000)` with the product carried in
/// unsigned double-width magnitude form and the result saturated into `i64`.
/// For a negative product the magnitude quotient is one short of the floor
/// whenever the division leaves a remainder, so one more is taken off.
fn scaled_by_bps(price: i64, quantity: u64, bps: u32) -> (r: i64)
    ensures
        r as int == margin_amount(price as int, quantity as int, bps as int),
{
    let pmag: u128 = abs_u128(price);
    proof {
        lemma_mul_upper_bound(
            pmag as int,
            0x8000_0000_0000_0000,
            quantity as int,
            0xFFFF_FFFF_FFFF_FFFF,
        );
        if price < 0 {
            assert((price as int) * (quantity as int) * (bps as int) == -((pmag as int)
                * (quantity as int) * (bps as int))) by (nonlinear_arith)
                requires
                    pmag as int == -(price as int),
            ;
        }
    }
    let pq: u128 = pmag * (quantity as u128);
    if bps == 0 {
        return 0;
    }
    // Any product magnitude at or beyond 10000 * 2^63 still exceeds the i64
    // range after the division, so the result saturates.
    let cap: u128 = 92233720368547758080000;
    if pq >= cap {
        proof {
            let mag = (pmag as int * quantity as int) * (bps as int);
            lemma_mul_inequality(1, bps as int, pq as int);
            lemma_div_is_ordered(cap as int, mag, 10000);
            lemma_div_multiples_vanish(0x8000_0000_0000_0000, 10000);
            if price < 0 {
                lemma_fundamental_div_mod(mag, 10000);
                lemma_mod_division_less_than_divisor(mag, 10000);
                lemma_div_is_ordered(-mag, 10000 * (-(mag / 10000)), 10000);
                lemma_div_multiples_vanish(-(mag / 10000), 10000);
            }
        }
        if price >= 0 {
            return i64::MAX;
        } else {
            return i64::MIN;
        }
    }
    proof {
        lemma_mul_upper_bound(pq as int, cap as int - 1, bps as int, 0xFFFF_FFFF);
    }
    let numerator: u128 = pq * (bps as u128);
    let quotient: u128 = numerator / 10000;
    if price >= 0 {
        clamp_signed_mag(false, quotient)
    } else {
        let remainder: u128 = numerator % 10000;
        proof {
            let m = numerator as int;
            lemma_fundamental_div_mod(m, 10000);
            lemma_mod_division_less_than_divisor(m, 10000);
            if m % 10000 == 0 {
                lemma_fundamental_div_mod_converse_div(-m, 10000, -(m / 10000), 0);
            } else {
                lemma_fundamental_div_mod_converse_div(
                    -m,
                    10000,
                    -(m / 10000) - 1,
                    10000 - (m % 10000),
                );
            }
            lemma_div_nonincreasing(m, 10000);
        }
        if remainder != 0 {
            clamp_signed_mag(true, quotient + 1)
        } else {
            clamp_signed_mag(true, quotient)
        }
    }
}

impl MarginCalculator {
    /// Create a new margin calculator with the given parameters.
    pub fn new(params: MarginParams) -> (r: Self)
        ensures
            r@ == params,
    {
        Self { params }
    }

    /// The initial margin required to open a position:
    /// `price * quantity * initial_margin_bps / 10000`, saturated.
    pub fn initial_margin(&self, price: i64, quantity: u64) -> (r: i64)
        ensures
            r as int == margin_amount(
                price as int,
                quantity as int,
                self@.initial_margin_bps as int,
            ),
    {
        scaled_by_bps(price, quantity, self.params.initial_margin_bps)
    }

    /// The maintenance margin required to hold an open position:
    /// `price * quantity * maintenance_margin_bps / 10000`, saturated.
    pub fn maintenance_margin(&self, price: i64, quantity: u64) -> (r: i64)
        ensures
            r as int == margin_amount(
                price as int,
                quantity as int,
                self@.maintenance_margin_bps as int,
            ),
    {
        scaled_by_bps(price, quantity, self.params.maintenance_margin_bps)
    }

    /// Whether `account_equity` has fallen strictly below the maintenance
    /// margin at the prevailing mark price; equity exactly at the
    /// maintenance margin is still safe.
    pub fn is_margin_call(&self, price: i64, position_qty: u64, account_equity: i64) -> (r: bool)
        ensures
            r == (account_equity < margin_amount(
                price as int,
                position_qty as int,
                self@.maintenance_margin_bps as int,
            )),
    {
        account_equity < self.maintenance_margin(price, position_qty)
    }

    /// The mark price at which a margin call would be triggered, per
    /// [`liquidation_price_spec`]: the entry price moved by the saturated
    /// liquidation distance, downwards for a long position and upwards for a
    /// short one; a zero quantity or a zero `quantity * bps` denominator
    /// returns the entry price unchanged.
    pub fn liquidation_price(&self, entry_price: i64, quantity: u64, equity: i64, is_long: bool) -> (r:
        i64)
        ensures
            r as int == liquidation_price_spec(
                entry_price as int,
                quantity as int,
                equity as int,
                is_long,
                self@.maintenance_margin_bps as int,
            ),
    {
        if quantity == 0 {
            return entry_price;
        }
        proof {
            lemma_mul_upper_bound(
                quantity as int,
                0xFFFF_FFFF_FFFF_FFFF,
                self.params.maintenance_margin_bps as int,
                0xFFFF_FFFF,
            );
        }
        let denominator: u128 = (quantity as u128) * (self.params.maintenance_margin_bps as u128);
        if denominator == 0 {
            return entry_price;
        }
        let emag: u128 = abs_u128(equity);
        let numerator: u128 = emag * 10000;
        let dmag: u128 = numerator / denominator;
        let distance: i64 = clamp_signed_mag(equity < 0, dmag);
        if is_long {
            sat_sub_i64(entry_price, distance)
        } else {
            sat_add_i64(entry_price, distance)
        }
    }
}

} // verus!
