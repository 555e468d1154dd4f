//! Entry point of a contract that admits one gated operation only while the
//! network fee level stays at or below a fixed threshold.

pub mod fee;
pub mod dispatch;

use vstd::prelude::*;
use crate::dispatch::{dispatch, dispatch_outcome, gas_too_high_tag, routed_outcome, Outcome, GATED_SELECTOR};

verus! {

/// The contract's entry point. It holds no storage.
pub struct GhostTx;

impl GhostTx {
    /// Routes one call: the gated operation is admitted or rejected by the
    /// current fee level, and every other selector is a successful no-op. A
    /// handler is always found, and `storage` is left as it was.
    pub fn route(storage: &mut GhostTx, selector: u32, input: &[u8]) -> (r: Option<
        Result<Vec<u8>, Vec<u8>>,
    >)
        ensures
            *final(storage) == *old(storage),
            r is Some,
            exists|fee: nat| routed_outcome(r) == Some(dispatch_outcome(selector, fee)),
            selector != GATED_SELECTOR ==> routed_outcome(r) == Some(
                Outcome::Accepted(Seq::empty()),
            ),
            selector == GATED_SELECTOR ==> routed_outcome(r) == Some(Outcome::Accepted(seq![1u8]))
                || routed_outcome(r) == Some(Outcome::Rejected(gas_too_high_tag())),
    {
        Some(dispatch(selector, input).into_result())
    }
}

} // verus!
