//! Per-instrument and per-account risk limit configuration.

use vstd::prelude::*;

verus! {

/// Immutable set of risk thresholds for one account/instrument partition.
///
/// A plain value type: no behaviour beyond its documented defaults, and
/// construction cannot fail.
#[derive(Debug, Clone, Copy, PartialEq, Eq, Structural)]
pub struct RiskLimits {
    /// Maximum net position size (absolute value) in lots.
    pub max_position: u64,
    /// Maximum single order quantity in lots.
    pub max_order_size: u64,
    /// Maximum notional value (price * quantity) in ticks.
    pub max_notional: i64,
    /// Maximum number of open orders.
    pub max_open_orders: u32,
    /// Maximum daily loss (a non-positive tick value) before the daily-loss
    /// check rejects all further orders.
    pub max_daily_loss: i64,
}

impl Default for RiskLimits {
    /// The documented default thresholds.
    fn default() -> (r: Self)
        ensures
            r.max_position == 1000,
            r.max_order_size == 100,
            r.max_notional == 100_000_000,
            r.max_open_orders == 500,
            r.max_daily_loss == -500_000,
    {
        RiskLimits {
            max_position: 1000,
            max_order_size: 100,
            max_notional: 100_000_000,
            max_open_orders: 500,
            max_daily_loss: -500_000,
        }
    }
}

} // verus!
