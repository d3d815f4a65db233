//! The decision of the session code that calls a contract entry point with
//! an attached payment.

use vstd::prelude::*;
use crate::motes::Motes;

verus! {

/// How the session code makes the call.
#[derive(Clone, Copy, Debug, PartialEq, Eq)]
pub enum ProxyStep {
    /// Nothing to attach: call the entry point with the given arguments.
    CallDirectly,
    /// Move the amount into a fresh cargo purse, add that purse to the
    /// arguments as `cargo_purse`, then call the entry point.
    FundCargoPurse,
}

/// The step for attaching `amount` motes to a call.
pub fn proxy_step(amount: &Motes) -> (r: ProxyStep)
    ensures
        (r == ProxyStep::CallDirectly) == (amount@ == 0),
        (r == ProxyStep::FundCargoPurse) == (amount@ > 0),
{
    if amount.is_zero() {
        ProxyStep::CallDirectly
    } else {
        ProxyStep::FundCargoPurse
    }
}

} // verus!
