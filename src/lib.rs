//! Double opt-in subscription confirmation: intake of a subscription,
//! dispatch of a confirmation email carrying a time-bound token, and
//! idempotent confirmation that unlocks a reward.
//!
//! Each component is written as a step machine: it decides, the caller
//! performs the outside call it asks for (a store write, a queue send, an
//! email, a presigned link) and hands the result back.
use vstd::prelude::*;

pub mod claims;
pub mod confirm;
pub mod dispatch;
pub mod form;
pub mod intake;
pub mod sam_env;
pub mod subscription;

verus! {

/// Seconds that a confirmation token stays valid after it is minted.
pub const CONFIRMATION_TOKEN_LIFETIME_SECS: u64 = 86400;

} // verus!
