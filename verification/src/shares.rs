//! How a released balance is divided between the transporter and the seller.

use vstd::prelude::*;

verus! {

/// The transporter's share of `balance`: ten percent, rounded down.
pub open spec fn transporter_share(balance: nat) -> nat {
    balance * 10 / 100
}

/// The seller's share of `balance`: whatever the transporter does not get, so
/// that the rounding of the transporter's share is never lost.
pub open spec fn seller_share(balance: nat) -> nat {
    (balance - transporter_share(balance)) as nat
}

/// The two shares of any balance add up to that balance, and the transporter
/// never gets more than the balance.
pub proof fn lemma_shares_add_up(balance: nat)
    ensures
        transporter_share(balance) == balance * 10 / 100,
        transporter_share(balance) <= balance,
        seller_share(balance) == balance - transporter_share(balance),
        transporter_share(balance) + seller_share(balance) == balance,
{
}

} // verus!
