//! The escrow as a state machine: what an instance holds, and for each
//! operation the state it leads to or the reason it is refused.
//!
//! The functions here are specifications. [`crate::escrow::DeliveryEscrow`]
//! carries them out.

use vstd::prelude::*;

use crate::error::EscrowError;
use crate::ledger::{AccountId, Balance, ProofHash, Timestamp};
use crate::shares::{seller_share, transporter_share};
use crate::transfer::{Payout, Transfer};

verus! {

/// Everything one escrow instance holds. It is also the record that a host
/// keeps between calls.
#[derive(Clone, Copy, Debug, PartialEq, Eq)]
pub struct EscrowState {
    /// True once delivery has been marked, by whichever path.
    pub is_delivered: bool,
    /// The funds held in escrow.
    pub balance: Balance,
    /// The only account that may confirm, dispute or ask for a refund.
    pub buyer: AccountId,
    /// The account that receives the transporter's share on release.
    pub transporter: AccountId,
    /// The evidence submitted by a party other than the buyer.
    pub proof_of_delivery: Option<ProofHash>,
    /// When that evidence was submitted.
    pub delivery_timestamp: Option<Timestamp>,
    /// Kept with the instance; no operation reads it.
    pub timeout_duration: Timestamp,
    /// Raised by the buyer. It does not hold back a release.
    pub dispute: bool,
}

impl EscrowState {
    /// What holds of every instance: proof and timestamp are present together
    /// or not at all, and a dispute is only ever open on a marked delivery.
    pub open spec fn inv(self) -> bool {
        &&& self.proof_of_delivery is Some <==> self.delivery_timestamp is Some
        &&& self.dispute ==> self.is_delivered
    }

    /// The state of a newly created instance.
    pub open spec fn created(buyer: AccountId, transporter: AccountId) -> EscrowState {
        EscrowState {
            is_delivered: false,
            balance: 0,
            buyer,
            transporter,
            proof_of_delivery: None,
            delivery_timestamp: None,
            timeout_duration: 0,
            dispute: false,
        }
    }

    /// This state with another balance.
    pub open spec fn with_balance(self, balance: Balance) -> EscrowState {
        EscrowState { balance, ..self }
    }

    /// Adding `amount` to the balance. Anyone may deposit, before or after
    /// delivery; only an empty deposit or one that overflows is refused.
    pub open spec fn deposit(self, amount: Balance) -> Result<EscrowState, EscrowError> {
        if amount == 0 {
            Err(EscrowError::InvalidAmount)
        } else if self.balance + amount > Balance::MAX {
            Err(EscrowError::ArithmeticOverflow)
        } else {
            Ok(self.with_balance((self.balance + amount) as Balance))
        }
    }

    /// Marking delivery without evidence. Never refused.
    pub open spec fn mark_delivered(self) -> EscrowState {
        EscrowState { is_delivered: true, ..self }
    }

    /// Handing in a proof of delivery at time `now`. Open to every account but
    /// the buyer, once.
    pub open spec fn submit_proof(
        self,
        caller: AccountId,
        proof: ProofHash,
        now: Timestamp,
    ) -> Result<EscrowState, EscrowError> {
        if caller == self.buyer {
            Err(EscrowError::Unauthorized)
        } else if self.is_delivered {
            Err(EscrowError::AlreadyDelivered)
        } else {
            Ok(
                EscrowState {
                    proof_of_delivery: Some(proof),
                    delivery_timestamp: Some(now),
                    is_delivered: true,
                    ..self
                },
            )
        }
    }

    /// The buyer accepting a delivery for which a proof is on record. Closes an
    /// open dispute.
    pub open spec fn confirm_delivery(self, caller: AccountId) -> Result<EscrowState, EscrowError> {
        if caller != self.buyer {
            Err(EscrowError::Unauthorized)
        } else if self.proof_of_delivery is None {
            Err(EscrowError::MissingProof)
        } else {
            Ok(EscrowState { is_delivered: true, dispute: false, ..self })
        }
    }

    /// The buyer contesting a marked delivery.
    pub open spec fn raise_dispute(self, caller: AccountId) -> Result<EscrowState, EscrowError> {
        if caller != self.buyer {
            Err(EscrowError::Unauthorized)
        } else if !self.is_delivered {
            Err(EscrowError::NotYetDelivered)
        } else {
            Ok(EscrowState { dispute: true, ..self })
        }
    }

    /// The payments that a release of this state's balance owes.
    pub open spec fn payout(self, seller: AccountId) -> Payout {
        Payout {
            transporter: Transfer {
                to: self.transporter,
                amount: transporter_share(self.balance as nat) as Balance,
            },
            seller: Transfer { to: seller, amount: seller_share(self.balance as nat) as Balance },
        }
    }

    /// Paying out the whole balance after delivery, to the transporter and to
    /// the account that the caller names as seller. Open to anyone, dispute or
    /// not. Ten times the balance must fit the balance type.
    pub open spec fn release(self, seller: AccountId) -> Result<(EscrowState, Payout), EscrowError> {
        if !self.is_delivered {
            Err(EscrowError::DeliveryNotConfirmed)
        } else if self.balance == 0 {
            Err(EscrowError::NoFunds)
        } else if self.balance * 10 > Balance::MAX {
            Err(EscrowError::ArithmeticOverflow)
        } else {
            Ok((self.with_balance(0), self.payout(seller)))
        }
    }

    /// Giving the whole balance back to the buyer, at the buyer's request and
    /// only while delivery is unmarked.
    pub open spec fn refund(self, caller: AccountId) -> Result<(EscrowState, Transfer), EscrowError> {
        if caller != self.buyer {
            Err(EscrowError::Unauthorized)
        } else if self.is_delivered {
            Err(EscrowError::AlreadyDelivered)
        } else if self.balance == 0 {
            Err(EscrowError::NoFunds)
        } else {
            Ok((self.with_balance(0), Transfer { to: self.buyer, amount: self.balance }))
        }
    }
}

/// A release goes through only on a marked delivery with funds in escrow, and
/// then whenever ten times those funds fit the balance type. It empties the
/// balance and pays out exactly what was held, so a second release, to
/// whichever seller, finds no funds.
pub proof fn lemma_release_pays_out_once(state: EscrowState, seller: AccountId, next_seller: AccountId)
    ensures
        state.release(seller) is Ok <==> state.is_delivered && 0 < state.balance && state.balance
            * 10 <= Balance::MAX,
        state.release(seller) matches Ok((next, payout)) ==> ({
            &&& next == state.with_balance(0)
            &&& payout.transporter.to == state.transporter
            &&& payout.seller.to == seller
            &&& payout.transporter.amount == state.balance * 10 / 100
            &&& payout.seller.amount == state.balance - payout.transporter.amount
            &&& payout.total() == state.balance
            &&& next.release(next_seller) == Err::<(EscrowState, Payout), EscrowError>(
                EscrowError::NoFunds,
            )
        }),
{
}

/// A refund goes through only for the buyer, on an unmarked delivery with
/// funds in escrow. It empties the balance and owes the buyer all of it, so a
/// second refund finds no funds.
pub proof fn lemma_refund_returns_all_once(state: EscrowState, caller: AccountId)
    ensures
        state.refund(caller) is Ok <==> caller == state.buyer && !state.is_delivered && 0
            < state.balance,
        state.refund(caller) matches Ok((next, transfer)) ==> ({
            &&& next == state.with_balance(0)
            &&& transfer == (Transfer { to: state.buyer, amount: state.balance })
            &&& next.refund(caller) == Err::<(EscrowState, Transfer), EscrowError>(
                EscrowError::NoFunds,
            )
        }),
{
}

/// The buyer cannot hand in the proof of delivery, whether or not delivery has
/// been marked.
pub proof fn lemma_buyer_cannot_submit_proof(state: EscrowState, proof: ProofHash, now: Timestamp)
    ensures
        state.submit_proof(state.buyer, proof, now) == Err::<EscrowState, EscrowError>(
            EscrowError::Unauthorized,
        ),
{
}

/// An empty deposit is refused, whatever the state.
pub proof fn lemma_empty_deposit_refused(state: EscrowState)
    ensures
        state.deposit(0) == Err::<EscrowState, EscrowError>(EscrowError::InvalidAmount),
{
}

} // verus!
