//! Verified core of a small summation service.
//!
//! Each request carries a sequence of signed 64-bit integers; the service
//! sums them with wrapping addition, waits a fixed simulated latency
//! (standing in for a blocking downstream dependency), and replies with
//! `Sum: <value>`. The interesting part is the dispatch engine: four
//! execution strategies that place the compute step and the latency step
//! on the reactor thread, a bounded worker pool, or a dedicated thread,
//! without ever blocking the connection-accepting path.

use vstd::prelude::*;

pub mod batch;
pub mod decode;
pub mod dispatch;
pub mod handler;
pub mod pool;
pub mod response;
pub mod strategy;

verus! {

/// Number of reusable worker contexts in the shared pool.
pub const POOL_SIZE: usize = 32;

/// Default simulated latency, in milliseconds.
pub const DEFAULT_DELAY_MS: u64 = 20;

} // verus!
