//! Payment streams: a balance that flows from an owner to a receiver at a
//! fixed rate per second, settled lazily whenever an action observes it.
//!
//! - `stream`: the stream record, what has accrued, and settlement.
//! - `token`: the fee policy applied to each payment.
//! - `account`: each participant's stream sets and per-token sums.
//! - `contract`: the token registry and the stores of streams and accounts.
//! - `action`: the state machine of Init, Start, Pause, Stop and Withdraw.
use vstd::prelude::*;

pub mod stream;
pub mod token;
pub mod account;
pub mod contract;
pub mod action;

verus! {

} // verus!
