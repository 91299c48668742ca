//! Hash time-locked escrows for cross-ledger atomic swaps: the timelock
//! schedule, the per-swap escrow state machine, the factory that registers
//! one escrow per hash-lock, and the order-fill and resolver glue around them.

pub mod primitives;
pub mod timelocks;
pub mod escrow;
pub mod factory;
pub mod order;
pub mod resolver;

