//! The escrow instance and its operations.
//!
//! The host supplies, with each call, what the ledger knows: who is calling,
//! what time it is, how much value came with the call. An operation that pays
//! out hands back the transfers for the host to make.

use vstd::prelude::*;

use crate::error::EscrowError;
use crate::ledger::{AccountId, Balance, ProofHash, Timestamp};
use crate::state::EscrowState;
use crate::transfer::{Payout, Transfer};

verus! {

/// One escrow between a buyer, a transporter and whoever is named as seller
/// when the funds are released.
///
/// [`EscrowState::inv`] holds of every instance: [`DeliveryEscrow::new`] and
/// [`DeliveryEscrow::restore`] establish it and every operation keeps it.
#[derive(Clone, Copy, Debug, PartialEq, Eq)]
pub struct DeliveryEscrow {
    state: EscrowState,
}

impl View for DeliveryEscrow {
    type V = EscrowState;

    closed spec fn view(&self) -> EscrowState {
        self.state
    }
}

impl DeliveryEscrow {
    #[verifier::type_invariant]
    spec fn consistent(self) -> bool {
        self.state.inv()
    }

    /// Creates an escrow for `buyer` and `transporter`: nothing delivered,
    /// nothing held, no proof, no dispute.
    pub fn new(buyer: AccountId, transporter: AccountId) -> (escrow: DeliveryEscrow)
        ensures
            escrow@ == EscrowState::created(buyer, transporter),
            escrow@.inv(),
    {
        DeliveryEscrow {
            state: EscrowState {
                is_delivered: false,
                balance: 0,
                buyer,
                transporter,
                proof_of_delivery: None,
                delivery_timestamp: None,
                timeout_duration: 0,
                dispute: false,
            },
        }
    }

    /// Releases the whole balance once delivery is marked: a tenth, rounded
    /// down, to the transporter and the rest to `seller`.
    ///
    /// The balance is zero when this returns the payout, before any transfer
    /// is made. The host makes the transfers of [`Payout::in_order`] one by
    /// one and passes each report to [`Transfer::settle`]; where that fails,
    /// the release has failed, no further transfer is made, and the host has
    /// to discard everything the call did, an earlier transfer included.
    pub fn release(&mut self, seller: AccountId) -> (result: Result<Payout, EscrowError>)
        ensures
            (match old(self)@.release(seller) {
                Ok((next, payout)) => result == Ok::<Payout, EscrowError>(payout)
                    && final(self)@ == next,
                Err(e) => result == Err::<Payout, EscrowError>(e) && final(self)@ == old(self)@,
            }),
            result matches Ok(payout) ==> payout.total() == old(self)@.balance,
            final(self)@.inv(),
    {
        proof {
            use_type_invariant(&*self);
        }
        if !self.state.is_delivered {
            return Err(EscrowError::DeliveryNotConfirmed);
        }
        let amount: Balance = self.state.balance;
        if amount == 0 {
            return Err(EscrowError::NoFunds);
        }
        let tenfold: Balance = match amount.checked_mul(10) {
            Some(tenfold) => tenfold,
            None => {
                return Err(EscrowError::ArithmeticOverflow);
            },
        };
        let transporter_share: Balance = tenfold / 100;
        let seller_share: Balance = amount - transporter_share;
        let transporter: AccountId = self.state.transporter;
        self.state.balance = 0;
        Ok(
            Payout {
                transporter: Transfer { to: transporter, amount: transporter_share },
                seller: Transfer { to: seller, amount: seller_share },
            },
        )
    }

    /// Gives the whole balance back to the buyer, who alone may ask for it and
    /// only while delivery is unmarked.
    ///
    /// The balance is zero when this returns the transfer, before the transfer
    /// is made. The host makes it and passes the report to
    /// [`Transfer::settle`]; where that fails, the host has to discard
    /// everything the call did.
    pub fn refund(&mut self, caller: AccountId) -> (result: Result<Transfer, EscrowError>)
        ensures
            (match old(self)@.refund(caller) {
                Ok((next, transfer)) => result == Ok::<Transfer, EscrowError>(transfer)
                    && final(self)@ == next,
                Err(e) => result == Err::<Transfer, EscrowError>(e) && final(self)@ == old(self)@,
            }),
            final(self)@.inv(),
    {
        proof {
            use_type_invariant(&*self);
        }
        if caller != self.state.buyer {
            return Err(EscrowError::Unauthorized);
        }
        if self.state.is_delivered {
            return Err(EscrowError::AlreadyDelivered);
        }
        let amount: Balance = self.state.balance;
        if amount == 0 {
            return Err(EscrowError::NoFunds);
        }
        let buyer: AccountId = self.state.buyer;
        self.state.balance = 0;
        Ok(Transfer { to: buyer, amount })
    }

    /// The buyer accepts the delivery. There must be a proof on record; an
    /// open dispute is closed.
    pub fn confirm_delivery(&mut self, caller: AccountId) -> (result: Result<(), EscrowError>)
        ensures
            (match old(self)@.confirm_delivery(caller) {
                Ok(next) => result == Ok::<(), EscrowError>(()) && final(self)@ == next,
                Err(e) => result == Err::<(), EscrowError>(e) && final(self)@ == old(self)@,
            }),
            final(self)@.inv(),
    {
        proof {
            use_type_invariant(&*self);
        }
        if caller != self.state.buyer {
            return Err(EscrowError::Unauthorized);
        }
        if self.state.proof_of_delivery.is_none() {
            return Err(EscrowError::MissingProof);
        }
        self.state = EscrowState { is_delivered: true, dispute: false, ..self.state };
        Ok(())
    }

    /// Records `proof` as evidence of delivery, submitted at time `now`, and
    /// marks the delivery. Any account but the buyer may do this, once.
    pub fn submit_proof(&mut self, caller: AccountId, proof: ProofHash, now: Timestamp) -> (result:
        Result<(), EscrowError>)
        ensures
            (match old(self)@.submit_proof(caller, proof, now) {
                Ok(next) => result == Ok::<(), EscrowError>(()) && final(self)@ == next,
                Err(e) => result == Err::<(), EscrowError>(e) && final(self)@ == old(self)@,
            }),
            final(self)@.inv(),
    {
        proof {
            use_type_invariant(&*self);
        }
        if caller == self.state.buyer {
            return Err(EscrowError::Unauthorized);
        }
        if self.state.is_delivered {
            return Err(EscrowError::AlreadyDelivered);
        }
        self.state = EscrowState {
            proof_of_delivery: Some(proof),
            delivery_timestamp: Some(now),
            is_delivered: true,
            ..self.state
        };
        Ok(())
    }

    /// The buyer contests a delivery that has been marked.
    pub fn raise_dispute(&mut self, caller: AccountId) -> (result: Result<(), EscrowError>)
        ensures
            (match old(self)@.raise_dispute(caller) {
                Ok(next) => result == Ok::<(), EscrowError>(()) && final(self)@ == next,
                Err(e) => result == Err::<(), EscrowError>(e) && final(self)@ == old(self)@,
            }),
            final(self)@.inv(),
    {
        proof {
            use_type_invariant(&*self);
        }
        if caller != self.state.buyer {
            return Err(EscrowError::Unauthorized);
        }
        if !self.state.is_delivered {
            return Err(EscrowError::NotYetDelivered);
        }
        self.state.dispute = true;
        Ok(())
    }

    /// Takes `amount`, the value that came with the call, into the balance.
    pub fn deposit(&mut self, amount: Balance) -> (result: Result<(), EscrowError>)
        ensures
            (match old(self)@.deposit(amount) {
                Ok(next) => result == Ok::<(), EscrowError>(()) && final(self)@ == next,
                Err(e) => result == Err::<(), EscrowError>(e) && final(self)@ == old(self)@,
            }),
            final(self)@.inv(),
    {
        proof {
            use_type_invariant(&*self);
        }
        if amount == 0 {
            return Err(EscrowError::InvalidAmount);
        }
        match self.state.balance.checked_add(amount) {
            Some(balance) => {
                self.state.balance = balance;
                Ok(())
            },
            None => Err(EscrowError::ArithmeticOverflow),
        }
    }

    /// Marks the delivery, whoever calls and whether or not there is a proof.
    /// Returns the flag, which is now set.
    pub fn mark_delivered(&mut self) -> (delivered: bool)
        ensures
            delivered,
            final(self)@ == old(self)@.mark_delivered(),
            final(self)@.inv(),
    {
        proof {
            use_type_invariant(&*self);
        }
        self.state.is_delivered = true;
        self.state.is_delivered
    }

    /// Whether delivery has been marked.
    pub fn is_delivered(&self) -> (delivered: bool)
        ensures
            delivered == self@.is_delivered,
    {
        self.state.is_delivered
    }

    /// Everything the instance holds, for reading or for keeping between calls.
    pub fn state(&self) -> (state: EscrowState)
        ensures
            state == self@,
            state.inv(),
    {
        proof {
            use_type_invariant(self);
        }
        self.state
    }

    /// Takes up an instance from a record kept earlier. A record in which the
    /// proof and its timestamp are not present together, or a dispute is open
    /// on an unmarked delivery, is no state of any escrow and is turned down.
    pub fn restore(state: EscrowState) -> (escrow: Option<DeliveryEscrow>)
        ensures
            escrow is Some <==> state.inv(),
            escrow matches Some(e) ==> e@ == state,
    {
        let paired: bool = state.proof_of_delivery.is_some() == state.delivery_timestamp.is_some();
        if paired && (state.is_delivered || !state.dispute) {
            Some(DeliveryEscrow { state })
        } else {
            None
        }
    }
}

} // verus!
