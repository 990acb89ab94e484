//! The plain values that the host ledger and the escrow exchange: account
//! identities, amounts, timestamps and the hash of a proof of delivery.

use vstd::prelude::*;

verus! {

/// An amount of the ledger's currency.
pub type Balance = u128;

/// A point in the ledger's time.
pub type Timestamp = u64;

/// The identity of an account on the ledger: thirty-two bytes.
///
/// Two identities are the same account exactly when all their bytes agree.
#[derive(Clone, Copy, Debug, Eq)]
pub struct AccountId(pub [u8; 32]);

/// The hash submitted as evidence that the goods were delivered.
///
/// The escrow stores it and hands it back; it never looks inside.
#[derive(Clone, Copy, Debug, PartialEq, Eq)]
pub struct ProofHash(pub [u8; 32]);

impl PartialEq for AccountId {
    fn eq(&self, other: &Self) -> (same: bool) {
        let mut i: usize = 0;
        while i < 32
            invariant
                i <= 32,
                forall|j: int| 0 <= j < i ==> self.0[j] == other.0[j],
            decreases 32 - i,
        {
            if self.0[i] != other.0[i] {
                return false;
            }
            i += 1;
        }
        assert(self.0 =~= other.0);
        true
    }
}

impl vstd::std_specs::cmp::PartialEqSpecImpl for AccountId {
    open spec fn obeys_eq_spec() -> bool {
        true
    }

    open spec fn eq_spec(&self, other: &Self) -> bool {
        *self == *other
    }
}

} // verus!
