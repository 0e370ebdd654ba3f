//! A persistent, auto-reconnecting subscription-multiplexing streaming
//! client core for a market-data/account-event feed.
//!
//! The crate models the control logic of one logical connection: a wire
//! codec for the JSON frame vocabulary, a registry of desired
//! subscriptions, a heartbeat-based liveness monitor, exponential
//! reconnect backoff, and the supervisor state machine that ties them
//! together. All socket I/O is left to the embedding program, which
//! drives the supervisor with inputs and performs the actions it
//! returns.

use vstd::prelude::*;

pub mod asset;
pub mod backoff;
pub mod codec;
pub mod error;
pub mod laws;
pub mod liveness;
pub mod orders;
pub mod registry;
pub mod subscription;
pub mod supervisor;

verus! {

/// Initial reconnect delay in milliseconds.
pub const INITIAL_RECONNECT_DELAY_MS: u64 = 500;

/// Upper bound on the reconnect delay in milliseconds.
pub const MAX_RECONNECT_DELAY_MS: u64 = 5000;

/// Number of unanswered pings after which the connection counts as stale.
pub const MAX_MISSED_PONGS: u8 = 2;

} // verus!
