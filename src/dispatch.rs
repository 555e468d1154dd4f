//! Selector-based dispatch with a fee-level admission gate on one operation.

use vstd::prelude::*;
use crate::fee::{current_fee_level, FeeLevel, FEE_THRESHOLD};

verus! {

/// Selector of `execute_intent(bytes,uint256,bytes32)`, the one gated operation.
pub const GATED_SELECTOR: u32 = 0x4879208d;

/// The outcome of one dispatch, as the router surfaces it: a successful call
/// returning the bytes, or a failed call with the bytes as its reason.
#[derive(Debug, PartialEq, Eq)]
pub enum DispatchResult {
    Accepted(Vec<u8>),
    Rejected(Vec<u8>),
}

/// The mathematical value of a [`DispatchResult`].
pub enum Outcome {
    Accepted(Seq<u8>),
    Rejected(Seq<u8>),
}

impl View for DispatchResult {
    type V = Outcome;

    open spec fn view(&self) -> Outcome {
        match self {
            DispatchResult::Accepted(b) => Outcome::Accepted(b@),
            DispatchResult::Rejected(b) => Outcome::Rejected(b@),
        }
    }
}

impl DispatchResult {
    /// The result as the router hands it on: `Ok` with the bytes of an
    /// accepted call, `Err` with the reason of a rejected one.
    pub fn into_result(self) -> (r: Result<Vec<u8>, Vec<u8>>)
        ensures
            Some(self@) == routed_outcome(Some(r)),
    {
        match self {
            DispatchResult::Accepted(b) => Ok(b),
            DispatchResult::Rejected(b) => Err(b),
        }
    }
}

/// The outcome that a router's answer stands for: `Ok` is an accepted call,
/// `Err` a rejected one, and `None` means that no handler was found.
pub open spec fn routed_outcome(r: Option<Result<Vec<u8>, Vec<u8>>>) -> Option<Outcome> {
    match r {
        Some(Ok(b)) => Some(Outcome::Accepted(b@)),
        Some(Err(b)) => Some(Outcome::Rejected(b@)),
        None => None,
    }
}

/// The bytes of the text `GAS_TOO_HIGH`: the reason a gated call is rejected.
pub open spec fn gas_too_high_tag() -> Seq<u8> {
    seq![
        'G' as u8, 'A' as u8, 'S' as u8, '_' as u8, 'T' as u8, 'O' as u8,
        'O' as u8, '_' as u8, 'H' as u8, 'I' as u8, 'G' as u8, 'H' as u8,
    ]
}

/// What a dispatch of `selector` yields while the fee level is `fee`.
pub open spec fn dispatch_outcome(selector: u32, fee: nat) -> Outcome {
    if selector == GATED_SELECTOR {
        if fee > FEE_THRESHOLD as nat {
            Outcome::Rejected(gas_too_high_tag())
        } else {
            Outcome::Accepted(seq![1u8])
        }
    } else {
        Outcome::Accepted(Seq::empty())
    }
}

fn gas_too_high_bytes() -> (r: Vec<u8>)
    ensures
        r@ == gas_too_high_tag(),
{
    let r = vec![
        'G' as u8, 'A' as u8, 'S' as u8, '_' as u8, 'T' as u8, 'O' as u8,
        'O' as u8, '_' as u8, 'H' as u8, 'I' as u8, 'G' as u8, 'H' as u8,
    ];
    assert(r@ =~= gas_too_high_tag());
    r
}

/// Dispatches one call with the fee level observed for it. The payload is
/// never inspected.
pub fn dispatch_with_fee(selector: u32, payload: &[u8], fee: &FeeLevel) -> (r: DispatchResult)
    ensures
        r@ == dispatch_outcome(selector, fee@),
        selector != GATED_SELECTOR ==> r@ == Outcome::Accepted(Seq::empty()),
        selector == GATED_SELECTOR ==> (r@ == Outcome::Accepted(seq![1u8]) <==> fee@
            <= FEE_THRESHOLD as nat),
        selector == GATED_SELECTOR ==> (r@ == Outcome::Rejected(gas_too_high_tag()) <==> fee@
            > FEE_THRESHOLD as nat),
{
    if selector == GATED_SELECTOR {
        if fee.exceeds_threshold() {
            return DispatchResult::Rejected(gas_too_high_bytes());
        }
        let ok = vec![1u8];
        assert(ok@ =~= seq![1u8]);
        return DispatchResult::Accepted(ok);
    }
    let empty: Vec<u8> = Vec::new();
    assert(empty@ =~= Seq::<u8>::empty());
    DispatchResult::Accepted(empty)
}

/// Dispatches one call, reading the current fee level from the host when the
/// gated operation is asked for. The result is that of [`dispatch_with_fee`]
/// for some fee level.
pub fn dispatch(selector: u32, payload: &[u8]) -> (r: DispatchResult)
    ensures
        exists|fee: nat| r@ == dispatch_outcome(selector, fee),
        selector != GATED_SELECTOR ==> r@ == Outcome::Accepted(Seq::empty()),
        selector == GATED_SELECTOR ==> r@ == Outcome::Accepted(seq![1u8]) || r@
            == Outcome::Rejected(gas_too_high_tag()),
{
    if selector == GATED_SELECTOR {
        let fee = current_fee_level();
        dispatch_with_fee(selector, payload, &fee)
    } else {
        dispatch_with_fee(selector, payload, &FeeLevel::from_u64(0))
    }
}

/// Dispatch keeps no state: two calls with the same selector, payload and
/// fee level give the same result.
pub proof fn lemma_dispatch_repeatable(
    selector: u32,
    payload: Seq<u8>,
    fee: FeeLevel,
    first: DispatchResult,
    second: DispatchResult,
)
    requires
        first@ == dispatch_outcome(selector, fee@),
        second@ == dispatch_outcome(selector, fee@),
    ensures
        first@ == second@,
{
}

} // verus!
