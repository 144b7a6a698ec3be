//! Data-acquisition and aggregation core of a terminal dashboard for a
//! blockchain node.
//!
//! The crate holds the logic that turns raw node telemetry into immutable
//! panel snapshots and bounded in-memory aggregates: epoch decoding and
//! timing estimates, fixed-capacity FIFO histories, per-feed aggregators fed
//! by push subscriptions, the scheduler that serializes refresh cycles, and
//! the supervisor state machine for subscription workers. Transport, the
//! terminal user interface and the async runtime live outside the crate and
//! exchange plain values with it.

pub mod arith;
pub mod blockchain;
pub mod chart;
pub mod clock;
pub mod epoch;
pub mod errors;
pub mod general;
pub mod history;
pub mod logs;
pub mod mempool;
pub mod overview;
pub mod pager;
pub mod peers;
pub mod rng;
pub mod scheduler;
pub mod source;
pub mod supervisor;
pub mod text;
