//! Why an operation on the escrow was refused.

use vstd::prelude::*;

use crate::ledger::AccountId;

verus! {

/// The reason an operation failed. Every failure ends the call that raised it;
/// nothing is retried.
#[derive(Clone, Copy, Debug, PartialEq, Eq)]
pub enum EscrowError {
    /// A deposit carried no value.
    InvalidAmount,
    /// An amount did not fit the balance type.
    ArithmeticOverflow,
    /// The caller is not allowed to perform the operation.
    Unauthorized,
    /// Delivery has already been marked.
    AlreadyDelivered,
    /// Delivery has not been marked yet.
    NotYetDelivered,
    /// Funds are released only after delivery.
    DeliveryNotConfirmed,
    /// No proof of delivery has been submitted.
    MissingProof,
    /// The escrow holds nothing.
    NoFunds,
    /// The ledger reported that a transfer to this account failed.
    TransferFailed(AccountId),
}

} // verus!
