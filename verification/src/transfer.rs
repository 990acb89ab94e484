//! Payments that the escrow asks the ledger to make.
//!
//! The escrow never moves value itself. An operation that pays out returns the
//! transfers it owes; the host makes them on the ledger and tells the escrow
//! how each one went.

use vstd::prelude::*;

use crate::error::EscrowError;
use crate::ledger::{AccountId, Balance};

verus! {

/// One payment out of the escrow's custody.
#[derive(Clone, Copy, Debug, PartialEq, Eq)]
pub struct Transfer {
    /// The account that is paid.
    pub to: AccountId,
    /// How much it is paid.
    pub amount: Balance,
}

/// The two payments of a release, in the order in which they are made: first
/// the transporter, then the seller. A payment that fails ends the release, so
/// the seller is only paid once the transporter has been.
#[derive(Clone, Copy, Debug, PartialEq, Eq)]
pub struct Payout {
    /// The transporter's share.
    pub transporter: Transfer,
    /// The seller's share.
    pub seller: Transfer,
}

impl Transfer {
    /// What the operation that owes this transfer reports once the ledger has
    /// attempted it.
    pub open spec fn outcome(self, succeeded: bool) -> Result<(), EscrowError> {
        if succeeded {
            Ok(())
        } else {
            Err(EscrowError::TransferFailed(self.to))
        }
    }

    /// Turns the ledger's report on this transfer into the operation's result:
    /// a failed transfer fails the operation and names the recipient.
    pub fn settle(&self, succeeded: bool) -> (result: Result<(), EscrowError>)
        ensures
            result == self.outcome(succeeded),
    {
        if succeeded {
            Ok(())
        } else {
            Err(EscrowError::TransferFailed(self.to))
        }
    }
}

impl Payout {
    /// The sum that leaves the escrow when both payments are made.
    pub open spec fn total(self) -> int {
        self.transporter.amount + self.seller.amount
    }

    /// The two payments in the order in which the host is to make them.
    pub fn in_order(&self) -> (transfers: [Transfer; 2])
        ensures
            transfers@ == seq![self.transporter, self.seller],
    {
        [self.transporter, self.seller]
    }
}

} // verus!
