//! The network fee level as a 256-bit unsigned integer held in plain limbs.

use vstd::prelude::*;

verus! {

/// Highest fee level, in the ledger's smallest unit, at which the gated
/// operation is still admitted.
pub const FEE_THRESHOLD: u64 = 100_000_000;

/// A fee level: a 256-bit unsigned integer stored as four little-endian
/// 64-bit limbs, the least significant first.
#[derive(Clone, Copy, Debug, PartialEq, Eq)]
pub struct FeeLevel {
    pub limbs: [u64; 4],
}

/// Two to the power sixty-four: the weight of one limb over the previous one.
pub open spec fn limb_base() -> nat {
    0x1_0000_0000_0000_0000
}

impl View for FeeLevel {
    type V = nat;

    open spec fn view(&self) -> nat {
        self.limbs[0] as nat + limb_base() * (self.limbs[1] as nat + limb_base() * (
        self.limbs[2] as nat + limb_base() * self.limbs[3] as nat))
    }
}

impl FeeLevel {
    /// The fee level with the given limbs, least significant first.
    pub fn from_limbs(limbs: [u64; 4]) -> (f: FeeLevel)
        ensures
            f.limbs == limbs,
    {
        FeeLevel { limbs }
    }

    /// The fee level equal to `v`.
    pub fn from_u64(v: u64) -> (f: FeeLevel)
        ensures
            f@ == v as nat,
    {
        FeeLevel { limbs: [v, 0, 0, 0] }
    }

    /// Whether this fee level is strictly above [`FEE_THRESHOLD`].
    pub fn exceeds_threshold(&self) -> (r: bool)
        ensures
            r <==> self@ > FEE_THRESHOLD as nat,
    {
        let high = self.limbs[1] != 0 || self.limbs[2] != 0 || self.limbs[3] != 0;
        proof {
            let b = limb_base();
            let l0 = self.limbs[0] as nat;
            let l1 = self.limbs[1] as nat;
            let l2 = self.limbs[2] as nat;
            let l3 = self.limbs[3] as nat;
            let upper = l1 + b * (l2 + b * l3);
            assert(self@ == l0 + b * upper);
            assert(high <==> upper > 0) by (nonlinear_arith)
                requires
                    high <==> (l1 != 0 || l2 != 0 || l3 != 0),
                    upper == l1 + b * (l2 + b * l3),
                    b > 0,
            ;
            assert(upper > 0 ==> b * upper >= b) by (nonlinear_arith)
                requires
                    b > 0,
            ;
        }
        high || self.limbs[0] > FEE_THRESHOLD
    }
}

/// Relies on stylus_sdk::tx::gas_price: the gas price of the current
/// transaction in wei per gas, read from the host as a 256-bit unsigned
/// integer. Its four little-endian limbs are taken over as they are. The value
/// depends on the chain's state, so nothing is promised of it.
#[verifier::external_body]
pub(crate) fn current_fee_level() -> (f: FeeLevel) {
    FeeLevel { limbs: *stylus_sdk::tx::gas_price().as_limbs() }
}

} // verus!
