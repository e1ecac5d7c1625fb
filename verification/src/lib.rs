//! Pre-trade risk engine for an order-entry pipeline: a limits configuration,
//! an ordered cascade of pre-trade checks, a rolling-window circuit breaker
//! for fill anomalies, and fixed-point margin arithmetic.
//!
//! All arithmetic saturates: no configured limit value, however extreme, can
//! make any operation overflow or panic.

pub mod arith;
pub mod check;
pub mod circuit;
pub mod limit;
pub mod margin;

pub use check::PreTradeChecker;
pub use check::RiskReject;
pub use circuit::CircuitBreaker;
pub use limit::RiskLimits;
pub use margin::MarginCalculator;
pub use margin::MarginParams;
