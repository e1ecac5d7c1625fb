//! Pre-trade risk checks enforced before order submission.
//!
//! [`PreTradeChecker`] runs a fixed cascade of limit checks on every incoming
//! order. Any breach immediately returns the [`RiskReject`] variant describing
//! the violation; if all checks pass, `Ok(())` is returned and the order may
//! proceed to the matching engine. Evaluation never mutates the checker:
//! counters change only through the explicit update operations.

use vstd::prelude::*;

use crate::arith::{abs_of, abs_u64, clamp_i128_to_i64, clamp_i64, sat_add_i64};
use crate::limit::RiskLimits;

verus! {

/// Side of an order: buying (bid) or selling (ask).
#[derive(Debug, Clone, Copy, PartialEq, Eq, Structural)]
pub enum OrderSide {
    /// A buy order; adds to the net position.
    Bid,
    /// A sell order; subtracts from the net position.
    Ask,
}

/// The fields of an incoming order that the risk checks read: side, price in
/// ticks, and quantity in lots.
#[derive(Debug, Clone, Copy, PartialEq, Eq, Structural)]
pub struct OrderRequest {
    /// Buy or sell.
    pub side: OrderSide,
    /// Limit price in ticks.
    pub price: i64,
    /// Order quantity in lots.
    pub quantity: u64,
}

/// The caller's current position snapshot: a signed net quantity
/// (positive = long, negative = short).
#[derive(Debug, Clone, Copy, PartialEq, Eq, Structural)]
pub struct PositionSnapshot {
    /// Signed net quantity in lots.
    pub net_quantity: i64,
}

/// Reason an order was rejected by the pre-trade risk engine.
#[derive(Debug, Clone, Copy, PartialEq, Eq, Structural)]
#[allow(inconsistent_fields)]
pub enum RiskReject {
    /// Net position after this order would exceed the configured limit.
    PositionLimitBreached {
        /// Current net position before the order.
        current: i64,
        /// Net position that would result if the order were filled.
        after: i64,
        /// Configured maximum absolute position in lots.
        limit: u64,
    },
    /// Order quantity exceeds the per-order size limit.
    OrderSizeTooLarge {
        /// Requested order quantity.
        size: u64,
        /// Configured maximum order size in lots.
        limit: u64,
    },
    /// Notional value of the order exceeds the configured ceiling.
    NotionalExceeded {
        /// Computed notional (price * quantity) for this order.
        notional: i64,
        /// Configured maximum notional in ticks.
        limit: i64,
    },
    /// Number of open orders has reached the configured maximum.
    MaxOpenOrdersReached {
        /// Current open order count.
        count: u32,
        /// Configured maximum open orders.
        limit: u32,
    },
    /// Daily loss has reached or exceeded the configured kill-switch threshold.
    DailyLossLimitHit {
        /// Current daily P&L (negative indicates a loss).
        loss: i64,
        /// Configured maximum daily loss (negative value).
        limit: i64,
    },
    /// The kill switch has been tripped; all orders are blocked.
    CircuitBreakerTripped,
}

/// Mathematical model of a [`PreTradeChecker`]: its limits and running state.
pub struct CheckerModel {
    /// The configured limits.
    pub limits: RiskLimits,
    /// Accumulated P&L for the current trading day.
    pub daily_pnl: i64,
    /// Number of orders currently resting on the book.
    pub open_order_count: u32,
    /// Whether the manual kill switch is tripped.
    pub breaker_tripped: bool,
}

/// Net quantity of an optional position snapshot; zero when no position is
/// supplied.
pub open spec fn net_position_or_zero(position: Option<&PositionSnapshot>) -> i64 {
    match position {
        Some(p) => p.net_quantity,
        None => 0,
    }
}

/// Signed quantity an order contributes to the net position: positive for a
/// bid, negative for an ask.
pub open spec fn order_delta(o: OrderRequest) -> int {
    match o.side {
        OrderSide::Bid => o.quantity as int,
        OrderSide::Ask => -(o.quantity as int),
    }
}

/// Net position that would result if the order were filled: the current net
/// plus the order's signed delta, saturated into the `i64` range.
pub open spec fn position_after(current: i64, o: OrderRequest) -> int {
    clamp_i64(current + order_delta(o))
}

/// Notional value of an order: price times quantity, saturated into the
/// `i64` range.
pub open spec fn notional_value(o: OrderRequest) -> int {
    clamp_i64(o.price * o.quantity)
}

/// The full check cascade, in its fixed priority order: kill switch, order
/// size, resulting position, notional, open-order count, daily loss. The
/// first failing check decides the result.
pub open spec fn evaluate_spec(c: CheckerModel, o: OrderRequest, current: i64) -> Result<
    (),
    RiskReject,
> {
    if c.breaker_tripped {
        Err(RiskReject::CircuitBreakerTripped)
    } else if o.quantity > c.limits.max_order_size {
        Err(RiskReject::OrderSizeTooLarge { size: o.quantity, limit: c.limits.max_order_size })
    } else if abs_of(position_after(current, o)) > c.limits.max_position {
        Err(RiskReject::PositionLimitBreached {
            current,
            after: position_after(current, o) as i64,
            limit: c.limits.max_position,
        })
    } else if notional_value(o) > c.limits.max_notional {
        Err(RiskReject::NotionalExceeded {
            notional: notional_value(o) as i64,
            limit: c.limits.max_notional,
        })
    } else if c.open_order_count >= c.limits.max_open_orders {
        Err(RiskReject::MaxOpenOrdersReached {
            count: c.open_order_count,
            limit: c.limits.max_open_orders,
        })
    } else if c.daily_pnl <= c.limits.max_daily_loss {
        Err(RiskReject::DailyLossLimitHit { loss: c.daily_pnl, limit: c.limits.max_daily_loss })
    } else {
        Ok(())
    }
}

/// Stateful pre-trade risk engine.
///
/// Holds running counters (daily P&L, open order count, kill-switch flag)
/// and evaluates each incoming order against the configured [`RiskLimits`].
pub struct PreTradeChecker {
    limits: RiskLimits,
    daily_pnl: i64,
    open_order_count: u32,
    circuit_breaker_tripped: bool,
}

impl View for PreTradeChecker {
    type V = CheckerModel;

    closed spec fn view(&self) -> CheckerModel {
        CheckerModel {
            limits: self.limits,
            daily_pnl: self.daily_pnl,
            open_order_count: self.open_order_count,
            breaker_tripped: self.circuit_breaker_tripped,
        }
    }
}

impl PreTradeChecker {
    /// Create a new checker with the given risk limits: counters at zero and
    /// the kill switch clear.
    pub fn new(limits: RiskLimits) -> (r: Self)
        ensures
            r@.limits == limits,
            r@.daily_pnl == 0,
            r@.open_order_count == 0,
            !r@.breaker_tripped,
    {
        Self { limits, daily_pnl: 0, open_order_count: 0, circuit_breaker_tripped: false }
    }

    /// Run all pre-trade risk checks for `order` against the optional current
    /// `position`.
    ///
    /// Returns exactly what the [`evaluate_spec`] cascade prescribes: `Ok(())`
    /// if every check passes, or the first failing check's [`RiskReject`].
    /// Evaluation is a pure predicate: the checker itself is not changed.
    pub fn check_order(&self, order: &OrderRequest, position: Option<&PositionSnapshot>) -> (r:
        Result<(), RiskReject>)
        ensures
            r == evaluate_spec(self@, *order, net_position_or_zero(position)),
    {
        // 1. Kill switch takes priority over all other checks.
        if self.circuit_breaker_tripped {
            return Err(RiskReject::CircuitBreakerTripped);
        }
        // 2. Order size check.
        if order.quantity > self.limits.max_order_size {
            return Err(
                RiskReject::OrderSizeTooLarge {
                    size: order.quantity,
                    limit: self.limits.max_order_size,
                },
            );
        }
        // 3. Position limit check: net position after this order, with the
        //    signed addition saturated.
        let current_net: i64 = match position {
            Some(p) => p.net_quantity,
            None => 0,
        };
        let signed_delta: i128 = match order.side {
            OrderSide::Bid => order.quantity as i128,
            OrderSide::Ask => -(order.quantity as i128),
        };
        let after_net: i64 = clamp_i128_to_i64((current_net as i128) + signed_delta);
        if abs_u64(after_net) > self.limits.max_position {
            return Err(
                RiskReject::PositionLimitBreached {
                    current: current_net,
                    after: after_net,
                    limit: self.limits.max_position,
                },
            );
        }
        // 4. Notional value check: double-width product, saturated back into
        //    the i64 range for comparison.
        proof {
            assert((order.price as int) * (order.quantity as int) < 0x8000_0000_0000_0000_0000_0000_0000_0000
                && (order.price as int) * (order.quantity as int)
                >= -0x8000_0000_0000_0000_0000_0000_0000_0000) by (nonlinear_arith)
                requires
                    -0x8000_0000_0000_0000 <= order.price as int <= 0x7FFF_FFFF_FFFF_FFFF,
                    0 <= order.quantity as int <= 0xFFFF_FFFF_FFFF_FFFF,
            ;
        }
        let notional: i64 = clamp_i128_to_i64((order.price as i128) * (order.quantity as i128));
        if notional > self.limits.max_notional {
            return Err(
                RiskReject::NotionalExceeded { notional, limit: self.limits.max_notional },
            );
        }
        // 5. Open order count check.
        if self.open_order_count >= self.limits.max_open_orders {
            return Err(
                RiskReject::MaxOpenOrdersReached {
                    count: self.open_order_count,
                    limit: self.limits.max_open_orders,
                },
            );
        }
        // 6. Daily loss limit check.
        if self.daily_pnl <= self.limits.max_daily_loss {
            return Err(
                RiskReject::DailyLossLimitHit {
                    loss: self.daily_pnl,
                    limit: self.limits.max_daily_loss,
                },
            );
        }
        Ok(())
    }

    /// Add `pnl` to the running daily P&L tracker with saturating addition;
    /// a negative value represents a loss. Nothing else changes.
    pub fn update_daily_pnl(&mut self, pnl: i64)
        ensures
            final(self)@.daily_pnl == clamp_i64(old(self)@.daily_pnl + pnl),
            final(self)@.open_order_count == old(self)@.open_order_count,
            final(self)@.breaker_tripped == old(self)@.breaker_tripped,
            final(self)@.limits == old(self)@.limits,
    {
        self.daily_pnl = sat_add_i64(self.daily_pnl, pnl);
    }

    /// Record that a new order has been placed on the book: the open-order
    /// count grows by one, saturating at `u32::MAX`. Nothing else changes.
    pub fn increment_open_orders(&mut self)
        ensures
            final(self)@.open_order_count == if old(self)@.open_order_count < u32::MAX {
                old(self)@.open_order_count + 1
            } else {
                u32::MAX as int
            },
            final(self)@.daily_pnl == old(self)@.daily_pnl,
            final(self)@.breaker_tripped == old(self)@.breaker_tripped,
            final(self)@.limits == old(self)@.limits,
    {
        self.open_order_count = self.open_order_count.saturating_add(1);
    }

    /// Record that an open order has been cancelled or fully filled: the
    /// open-order count shrinks by one, saturating at zero. Nothing else
    /// changes.
    pub fn decrement_open_orders(&mut self)
        ensures
            final(self)@.open_order_count == if old(self)@.open_order_count > 0 {
                old(self)@.open_order_count - 1
            } else {
                0
            },
            final(self)@.daily_pnl == old(self)@.daily_pnl,
            final(self)@.breaker_tripped == old(self)@.breaker_tripped,
            final(self)@.limits == old(self)@.limits,
    {
        self.open_order_count = self.open_order_count.saturating_sub(1);
    }

    /// Trip the kill switch, blocking all further order submissions until
    /// [`Self::reset_circuit_breaker`] is called. Nothing else changes.
    pub fn trip_circuit_breaker(&mut self)
        ensures
            final(self)@.breaker_tripped,
            final(self)@.daily_pnl == old(self)@.daily_pnl,
            final(self)@.open_order_count == old(self)@.open_order_count,
            final(self)@.limits == old(self)@.limits,
    {
        self.circuit_breaker_tripped = true;
    }

    /// Clear the kill switch, allowing order submissions to resume. Nothing
    /// else changes.
    pub fn reset_circuit_breaker(&mut self)
        ensures
            !final(self)@.breaker_tripped,
            final(self)@.daily_pnl == old(self)@.daily_pnl,
            final(self)@.open_order_count == old(self)@.open_order_count,
            final(self)@.limits == old(self)@.limits,
    {
        self.circuit_breaker_tripped = false;
    }

    /// Perform the end-of-day reset: clears daily P&L and open order count.
    /// The kill switch deliberately survives this reset and needs its own
    /// explicit [`Self::reset_circuit_breaker`].
    pub fn reset_daily(&mut self)
        ensures
            final(self)@.daily_pnl == 0,
            final(self)@.open_order_count == 0,
            final(self)@.breaker_tripped == old(self)@.breaker_tripped,
            final(self)@.limits == old(self)@.limits,
    {
        self.daily_pnl = 0;
        self.open_order_count = 0;
    }

    /// Current daily P&L value.
    pub fn daily_pnl(&self) -> (r: i64)
        ensures
            r == self@.daily_pnl,
    {
        self.daily_pnl
    }

    /// Current open order count.
    pub fn open_order_count(&self) -> (r: u32)
        ensures
            r == self@.open_order_count,
    {
        self.open_order_count
    }

    /// Whether the kill switch is currently tripped.
    pub fn is_circuit_breaker_tripped(&self) -> (r: bool)
        ensures
            r == self@.breaker_tripped,
    {
        self.circuit_breaker_tripped
    }
}

/// Law: an order is accepted exactly when every check of the cascade passes:
/// the kill switch is clear, the quantity is within the order-size limit, the
/// saturated resulting position is within the position limit, the saturated
/// notional is within the notional ceiling, the open-order count is strictly
/// below its maximum, and the daily P&L is strictly above the daily-loss
/// threshold.
pub proof fn lemma_accepted_iff_all_checks_pass(c: CheckerModel, o: OrderRequest, current: i64)
    ensures
        (evaluate_spec(c, o, current) is Ok) <==> (!c.breaker_tripped && o.quantity
            <= c.limits.max_order_size && abs_of(position_after(current, o))
            <= c.limits.max_position && notional_value(o) <= c.limits.max_notional
            && c.open_order_count < c.limits.max_open_orders && c.daily_pnl
            > c.limits.max_daily_loss),
{
}

/// Law: with the kill switch clear, the size check rejects exactly the orders
/// whose quantity exceeds `max_order_size`; a quantity equal to the limit
/// passes this check, and a rejection reports the observed quantity and the
/// configured limit.
pub proof fn lemma_order_size_boundary(c: CheckerModel, o: OrderRequest, current: i64)
    requires
        !c.breaker_tripped,
    ensures
        (evaluate_spec(c, o, current) matches Err(RiskReject::OrderSizeTooLarge { .. })) <==> o.quantity
            > c.limits.max_order_size,
        o.quantity > c.limits.max_order_size ==> evaluate_spec(c, o, current) == Err::<
            (),
            RiskReject,
        >((RiskReject::OrderSizeTooLarge { size: o.quantity, limit: c.limits.max_order_size })),
{
}

/// Law: the resulting-position arithmetic never leaves the `i64` range, even
/// at extreme position and quantity values. The exact sum is kept whenever it
/// is representable; beyond the range it saturates at the boundary.
pub proof fn lemma_position_arithmetic_saturates(current: i64, o: OrderRequest)
    ensures
        i64::MIN <= position_after(current, o) <= i64::MAX,
        i64::MIN <= current + order_delta(o) <= i64::MAX ==> position_after(current, o) == current
            + order_delta(o),
        current + order_delta(o) > i64::MAX ==> position_after(current, o) == i64::MAX,
        current + order_delta(o) < i64::MIN ==> position_after(current, o) == i64::MIN,
{
}

/// Law: once the earlier checks pass, the notional check rejects exactly the
/// orders whose unbounded product `price * quantity` exceeds `max_notional`;
/// equality passes. The one excluded corner is a ceiling of `i64::MAX`
/// combined with a product so large that it saturates onto that same
/// ceiling.
pub proof fn lemma_notional_boundary(c: CheckerModel, o: OrderRequest, current: i64)
    requires
        !c.breaker_tripped,
        o.quantity <= c.limits.max_order_size,
        abs_of(position_after(current, o)) <= c.limits.max_position,
        c.limits.max_notional < i64::MAX || o.price * o.quantity <= i64::MAX,
    ensures
        (evaluate_spec(c, o, current) matches Err(RiskReject::NotionalExceeded { .. })) <==> o.price
            * o.quantity > c.limits.max_notional,
{
}

/// Law: once the earlier checks pass, the open-order check rejects exactly
/// when the count has already reached `max_open_orders`: being at capacity
/// blocks the next order, one below capacity passes.
pub proof fn lemma_open_orders_boundary(c: CheckerModel, o: OrderRequest, current: i64)
    requires
        !c.breaker_tripped,
        o.quantity <= c.limits.max_order_size,
        abs_of(position_after(current, o)) <= c.limits.max_position,
        notional_value(o) <= c.limits.max_notional,
    ensures
        (evaluate_spec(c, o, current) matches Err(RiskReject::MaxOpenOrdersReached { .. })) <==> c.open_order_count
            >= c.limits.max_open_orders,
{
}

/// Law: once the earlier checks pass, the daily-loss check rejects exactly
/// when the daily P&L has fallen to or below `max_daily_loss`: equality with
/// the threshold rejects, one above it passes.
pub proof fn lemma_daily_loss_boundary(c: CheckerModel, o: OrderRequest, current: i64)
    requires
        !c.breaker_tripped,
        o.quantity <= c.limits.max_order_size,
        abs_of(position_after(current, o)) <= c.limits.max_position,
        notional_value(o) <= c.limits.max_notional,
        c.open_order_count < c.limits.max_open_orders,
    ensures
        (evaluate_spec(c, o, current) matches Err(RiskReject::DailyLossLimitHit { .. })) <==> c.daily_pnl
            <= c.limits.max_daily_loss,
{
}

/// Law: the kill switch dominates every other violation. Whenever it is
/// tripped the result is the kill-switch rejection, whatever else the order
/// or the counters would have breached.
pub proof fn lemma_kill_switch_dominates(c: CheckerModel, o: OrderRequest, current: i64)
    requires
        c.breaker_tripped,
    ensures
        evaluate_spec(c, o, current) == Err::<(), RiskReject>(RiskReject::CircuitBreakerTripped),
{
}

} // verus!
