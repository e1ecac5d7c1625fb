//! Circuit breaker for anomalous price movement and excessive fill rate.
//!
//! [`CircuitBreaker`] monitors each fill event. If the price moves more than
//! `max_move` ticks from a reference price, or if more than
//! `max_fills_per_window` fills occur within a rolling `window_ns`-nanosecond
//! window, the breaker trips and the caller must halt order flow until an
//! explicit [`CircuitBreaker::reset`]. Time is supplied entirely by the
//! caller as event timestamps, so every run is deterministically replayable.

use vstd::prelude::*;

use crate::arith::abs_of;

verus! {

/// Mathematical model of a [`CircuitBreaker`]: its configuration and its
/// window state.
pub struct BreakerModel {
    /// Maximum price deviation (in ticks) from the reference price before
    /// tripping.
    pub max_move: i64,
    /// Maximum number of fills within the rolling window before tripping.
    pub max_fills_per_window: u32,
    /// Rolling window duration in nanoseconds.
    pub window_ns: u64,
    /// Fills counted in the current window.
    pub fills_in_window: u32,
    /// Timestamp anchoring the current window.
    pub window_start_ns: u64,
    /// Baseline price that deviations are measured from.
    pub reference_price: i64,
    /// Whether the breaker is tripped (terminal until an explicit reset).
    pub tripped: bool,
}

/// Nanoseconds elapsed since the window anchor, with saturating subtraction:
/// an out-of-order timestamp counts as zero elapsed time.
pub open spec fn elapsed_ns(b: BreakerModel, timestamp_ns: u64) -> int {
    if timestamp_ns >= b.window_start_ns {
        timestamp_ns - b.window_start_ns
    } else {
        0
    }
}

/// Whether a fill at `timestamp_ns` falls outside the current window and
/// therefore rolls it.
pub open spec fn rolls_window(b: BreakerModel, timestamp_ns: u64) -> bool {
    elapsed_ns(b, timestamp_ns) >= b.window_ns
}

/// Window state once a fill at (`price`, `timestamp_ns`) has been accounted
/// for: on a roll the anchor moves to the fill's timestamp, the counter
/// clears, and the fill's own price becomes the new reference; otherwise the
/// state is unchanged.
pub open spec fn after_roll(b: BreakerModel, price: i64, timestamp_ns: u64) -> BreakerModel {
    if rolls_window(b, timestamp_ns) {
        BreakerModel { window_start_ns: timestamp_ns, fills_in_window: 0, reference_price: price, ..b }
    } else {
        b
    }
}

/// Absolute deviation of a fill price from the reference price.
pub open spec fn deviation_from(reference: i64, price: i64) -> int {
    abs_of(price - reference)
}

/// A fill counter incremented by one, saturating at `u32::MAX`.
pub open spec fn sat_inc_u32(x: u32) -> u32 {
    if x < u32::MAX {
        (x + 1) as u32
    } else {
        u32::MAX
    }
}

/// One step of the breaker: the state after a fill at (`price`,
/// `timestamp_ns`) and whether the call reports a trip.
///
/// A tripped breaker reports `true` and changes nothing. Otherwise the window
/// is rolled if due; a deviation strictly above `max_move` trips without
/// counting the fill; otherwise the fill is counted and a count strictly
/// above `max_fills_per_window` trips.
pub open spec fn on_fill_step(b: BreakerModel, price: i64, timestamp_ns: u64) -> (
    BreakerModel,
    bool,
) {
    if b.tripped {
        (b, true)
    } else {
        let s = after_roll(b, price, timestamp_ns);
        if deviation_from(s.reference_price, price) > s.max_move {
            (BreakerModel { tripped: true, ..s }, true)
        } else {
            let f = sat_inc_u32(s.fills_in_window);
            if f > s.max_fills_per_window {
                (BreakerModel { fills_in_window: f, tripped: true, ..s }, true)
            } else {
                (BreakerModel { fills_in_window: f, ..s }, false)
            }
        }
    }
}

/// Monitors fill events and trips on anomalous activity.
pub struct CircuitBreaker {
    /// Maximum price deviation (in ticks) from the reference price before
    /// tripping.
    pub max_move: i64,
    /// Maximum number of fills within the rolling window before tripping.
    pub max_fills_per_window: u32,
    /// Rolling window duration in nanoseconds.
    pub window_ns: u64,
    fills_in_window: u32,
    window_start_ns: u64,
    reference_price: i64,
    tripped: bool,
}

impl View for CircuitBreaker {
    type V = BreakerModel;

    closed spec fn view(&self) -> BreakerModel {
        BreakerModel {
            max_move: self.max_move,
            max_fills_per_window: self.max_fills_per_window,
            window_ns: self.window_ns,
            fills_in_window: self.fills_in_window,
            window_start_ns: self.window_start_ns,
            reference_price: self.reference_price,
            tripped: self.tripped,
        }
    }
}

impl CircuitBreaker {
    /// Create a new circuit breaker in the untripped state.
    ///
    /// The reference price and window anchor both start at zero; call
    /// [`CircuitBreaker::reset`] with a real price and timestamp before
    /// processing live fills.
    pub fn new(max_move: i64, max_fills_per_window: u32, window_ns: u64) -> (r: Self)
        ensures
            r@ == (BreakerModel {
                max_move,
                max_fills_per_window,
                window_ns,
                fills_in_window: 0,
                window_start_ns: 0,
                reference_price: 0,
                tripped: false,
            }),
    {
        Self {
            max_move,
            max_fills_per_window,
            window_ns,
            fills_in_window: 0,
            window_start_ns: 0,
            reference_price: 0,
            tripped: false,
        }
    }

    /// Process a fill event and return `true` if the breaker trips (or had
    /// already tripped). The new state and the result are exactly what
    /// [`on_fill_step`] prescribes.
    pub fn on_fill(&mut self, price: i64, timestamp_ns: u64) -> (r: bool)
        ensures
            (final(self)@, r) == on_fill_step(old(self)@, price, timestamp_ns),
            r == final(self)@.tripped,
    {
        // Already tripped: short-circuit without touching any state.
        if self.tripped {
            return true;
        }
        // Roll the window if we have moved past the window boundary.
        let elapsed = timestamp_ns.saturating_sub(self.window_start_ns);
        if elapsed >= self.window_ns {
            self.window_start_ns = timestamp_ns;
            self.fills_in_window = 0;
            self.reference_price = price;
        }
        // Check price deviation against the (possibly just-reseeded)
        // reference, in double width so extreme prices cannot overflow.
        let diff: i128 = (price as i128) - (self.reference_price as i128);
        let deviation: i128 = if diff >= 0 {
            diff
        } else {
            -diff
        };
        if deviation > self.max_move as i128 {
            self.tripped = true;
            return true;
        }
        // Count the fill and check the rate limit.
        self.fills_in_window = self.fills_in_window.saturating_add(1);
        if self.fills_in_window > self.max_fills_per_window {
            self.tripped = true;
            return true;
        }
        false
    }

    /// Whether the circuit breaker is currently tripped.
    pub fn is_tripped(&self) -> (r: bool)
        ensures
            r == self@.tripped,
    {
        self.tripped
    }

    /// Reset the circuit breaker to the untripped state: clears the trip flag
    /// and the fill counter, and starts a new window anchored at
    /// `timestamp_ns` with `reference_price` as the new baseline. The
    /// configuration is unchanged.
    pub fn reset(&mut self, reference_price: i64, timestamp_ns: u64)
        ensures
            final(self)@ == (BreakerModel {
                fills_in_window: 0,
                window_start_ns: timestamp_ns,
                reference_price,
                tripped: false,
                ..old(self)@
            }),
    {
        self.tripped = false;
        self.fills_in_window = 0;
        self.window_start_ns = timestamp_ns;
        self.reference_price = reference_price;
    }

    /// Update only the reference price, leaving the trip flag, the window
    /// anchor and the fill counter untouched: for tracking a drifting fair
    /// value without resetting the rate-limit window or clearing a trip.
    pub fn set_reference_price(&mut self, price: i64)
        ensures
            final(self)@ == (BreakerModel { reference_price: price, ..old(self)@ }),
    {
        self.reference_price = price;
    }
}

/// Law: a tripped breaker is terminal until an explicit reset. Any further
/// fill reports a trip and leaves every counter and window field unchanged.
pub proof fn lemma_tripped_is_terminal(b: BreakerModel, price: i64, timestamp_ns: u64)
    requires
        b.tripped,
    ensures
        on_fill_step(b, price, timestamp_ns) == (b, true),
{
}

/// Law: a fill that rolls the window becomes the new reference itself, so it
/// can never trip on price deviation; with a non-negative `max_move` it
/// trips only when the window admits no fills at all.
pub proof fn lemma_roll_reseeds_reference(b: BreakerModel, price: i64, timestamp_ns: u64)
    requires
        !b.tripped,
        rolls_window(b, timestamp_ns),
        b.max_move >= 0,
    ensures
        after_roll(b, price, timestamp_ns).reference_price == price,
        deviation_from(after_roll(b, price, timestamp_ns).reference_price, price) == 0,
        on_fill_step(b, price, timestamp_ns).1 <==> b.max_fills_per_window == 0,
{
}

/// Law, price side of the trip decision: measured against the possibly
/// just-reseeded reference, a deviation strictly above `max_move` trips
/// without counting the fill, while a deviation at or below `max_move`
/// (equality included) passes the price check and leaves the decision to the
/// fill counter.
pub proof fn lemma_price_deviation_boundary(b: BreakerModel, price: i64, timestamp_ns: u64)
    requires
        !b.tripped,
    ensures
        deviation_from(after_roll(b, price, timestamp_ns).reference_price, price) > b.max_move
            ==> on_fill_step(b, price, timestamp_ns) == (
            (BreakerModel { tripped: true, ..after_roll(b, price, timestamp_ns) }),
            true,
        ),
        deviation_from(after_roll(b, price, timestamp_ns).reference_price, price) <= b.max_move
            ==> (on_fill_step(b, price, timestamp_ns).1 <==> sat_inc_u32(
            after_roll(b, price, timestamp_ns).fills_in_window,
        ) > b.max_fills_per_window),
{
}

/// Law, rate side of the trip decision: once the price check passes, the
/// fill is counted and the breaker trips exactly when the new count is
/// strictly above `max_fills_per_window`; a count equal to the limit passes.
pub proof fn lemma_fill_count_boundary(b: BreakerModel, price: i64, timestamp_ns: u64)
    requires
        !b.tripped,
        deviation_from(after_roll(b, price, timestamp_ns).reference_price, price) <= b.max_move,
    ensures
        on_fill_step(b, price, timestamp_ns).0.fills_in_window == sat_inc_u32(
            after_roll(b, price, timestamp_ns).fills_in_window,
        ),
        on_fill_step(b, price, timestamp_ns).1 <==> sat_inc_u32(
            after_roll(b, price, timestamp_ns).fills_in_window,
        ) > b.max_fills_per_window,
        on_fill_step(b, price, timestamp_ns).0.tripped == on_fill_step(b, price, timestamp_ns).1,
{
}

} // verus!
