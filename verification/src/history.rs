//! Sequences of calls on one escrow, and what holds of every such sequence.

use vstd::prelude::*;

use crate::error::EscrowError;
use crate::ledger::{AccountId, Balance, ProofHash, Timestamp};
use crate::state::EscrowState;

verus! {

/// One call on an escrow, with what the ledger supplied for it.
pub enum Call {
    /// A deposit of the value attached to the call.
    Deposit { amount: Balance },
    /// Marking the delivery. It matters to nothing who calls.
    MarkDelivered,
    /// `caller` hands in `proof` at time `now`.
    SubmitProof { caller: AccountId, proof: ProofHash, now: Timestamp },
    /// `caller` confirms the delivery.
    ConfirmDelivery { caller: AccountId },
    /// `caller` raises a dispute.
    RaiseDispute { caller: AccountId },
    /// Someone releases the funds and names `seller`.
    Release { seller: AccountId },
    /// `caller` asks for a refund.
    Refund { caller: AccountId },
}

impl EscrowState {
    /// The state that `call` leads to, or why it is refused.
    pub open spec fn step(self, call: Call) -> Result<EscrowState, EscrowError> {
        match call {
            Call::Deposit { amount } => self.deposit(amount),
            Call::MarkDelivered => Ok(self.mark_delivered()),
            Call::SubmitProof { caller, proof, now } => self.submit_proof(caller, proof, now),
            Call::ConfirmDelivery { caller } => self.confirm_delivery(caller),
            Call::RaiseDispute { caller } => self.raise_dispute(caller),
            Call::Release { seller } => match self.release(seller) {
                Ok((next, _)) => Ok(next),
                Err(e) => Err(e),
            },
            Call::Refund { caller } => match self.refund(caller) {
                Ok((next, _)) => Ok(next),
                Err(e) => Err(e),
            },
        }
    }

    /// The state after `call`: a refused call leaves everything as it was.
    pub open spec fn after(self, call: Call) -> EscrowState {
        match self.step(call) {
            Ok(next) => next,
            Err(_) => self,
        }
    }

    /// The state after `calls`, made one after the other.
    pub open spec fn after_all(self, calls: Seq<Call>) -> EscrowState
        decreases calls.len(),
    {
        if calls.len() == 0 {
            self
        } else {
            self.after_all(calls.drop_last()).after(calls.last())
        }
    }

    /// Whether call number `i` of `calls`, made on an escrow that started in
    /// this state, handed in a proof of delivery that was accepted.
    pub open spec fn proof_accepted_at(self, calls: Seq<Call>, i: int) -> bool {
        &&& 0 <= i < calls.len()
        &&& calls[i] is SubmitProof
        &&& self.after_all(calls.take(i)).step(calls[i]) is Ok
    }

    /// The state after depositing each of `amounts` in turn, or the reason the
    /// first refused deposit was refused.
    pub open spec fn deposit_all(self, amounts: Seq<Balance>) -> Result<EscrowState, EscrowError>
        decreases amounts.len(),
    {
        if amounts.len() == 0 {
            Ok(self)
        } else {
            match self.deposit_all(amounts.drop_last()) {
                Ok(state) => state.deposit(amounts.last()),
                Err(e) => Err(e),
            }
        }
    }
}

/// The sum of `amounts`.
pub open spec fn total(amounts: Seq<Balance>) -> int
    decreases amounts.len(),
{
    if amounts.len() == 0 {
        0
    } else {
        total(amounts.drop_last()) + amounts.last()
    }
}

/// Deposits made one after the other all go through exactly when none of them
/// is empty and the balance can hold their sum; the balance then has grown by
/// that sum and nothing else has changed.
pub proof fn lemma_deposits_add_up(state: EscrowState, amounts: Seq<Balance>)
    ensures
        0 <= total(amounts),
        state.deposit_all(amounts) is Ok <==> (forall|i: int|
            0 <= i < amounts.len() ==> amounts[i] > 0) && state.balance + total(amounts)
            <= Balance::MAX,
        state.deposit_all(amounts) matches Ok(next) ==> next == state.with_balance(
            (state.balance + total(amounts)) as Balance,
        ),
    decreases amounts.len(),
{
    if amounts.len() > 0 {
        let earlier = amounts.drop_last();
        lemma_deposits_add_up(state, earlier);
        assert(forall|i: int| 0 <= i < earlier.len() ==> earlier[i] == amounts[i]);
    }
}

/// No call changes the parties or the timeout, unmarks a delivery, or breaks
/// [`EscrowState::inv`].
pub proof fn lemma_call_keeps_invariant(state: EscrowState, call: Call)
    ensures
        state.after(call).buyer == state.buyer,
        state.after(call).transporter == state.transporter,
        state.after(call).timeout_duration == state.timeout_duration,
        state.is_delivered ==> state.after(call).is_delivered,
        state.inv() ==> state.after(call).inv(),
{
}

/// The balance grows only by a deposit, and by what was deposited; it shrinks
/// only by a release or a refund, and then to nothing.
pub proof fn lemma_balance_moves(state: EscrowState, call: Call)
    ensures
        state.after(call).balance > state.balance ==> call is Deposit && state.after(call).balance
            == state.balance + call->amount,
        state.after(call).balance < state.balance ==> (call is Release || call is Refund)
            && state.after(call).balance == 0,
{
}

/// What [`lemma_call_keeps_invariant`] says of one call holds of any number
/// of them; in particular every state that an escrow reaches from its
/// creation satisfies [`EscrowState::inv`].
pub proof fn lemma_history_keeps_invariant(state: EscrowState, calls: Seq<Call>)
    ensures
        state.after_all(calls).buyer == state.buyer,
        state.after_all(calls).transporter == state.transporter,
        state.after_all(calls).timeout_duration == state.timeout_duration,
        state.is_delivered ==> state.after_all(calls).is_delivered,
        state.inv() ==> state.after_all(calls).inv(),
    decreases calls.len(),
{
    if calls.len() > 0 {
        lemma_history_keeps_invariant(state, calls.drop_last());
        lemma_call_keeps_invariant(state.after_all(calls.drop_last()), calls.last());
    }
}

/// A balance is paid out once. After a release or a refund has gone through,
/// and for as long as no deposit is made, every release and every refund is
/// refused.
pub proof fn lemma_paid_out_once(
    state: EscrowState,
    payment: Call,
    later: Seq<Call>,
    seller: AccountId,
    caller: AccountId,
)
    requires
        payment is Release || payment is Refund,
        state.step(payment) is Ok,
        forall|i: int| 0 <= i < later.len() ==> !(later[i] is Deposit),
    ensures
        state.after(payment).after_all(later).balance == 0,
        state.after(payment).after_all(later).release(seller) is Err,
        state.after(payment).after_all(later).refund(caller) is Err,
    decreases later.len(),
{
    if later.len() > 0 {
        let earlier = later.drop_last();
        lemma_paid_out_once(state, payment, earlier, seller, caller);
        lemma_balance_moves(state.after(payment).after_all(earlier), later.last());
    }
}

/// Whether an escrow holds a proof of delivery after `calls` is a matter of
/// whether one of them handed one in and was accepted.
pub proof fn lemma_proof_comes_from_submission(state: EscrowState, calls: Seq<Call>)
    requires
        state.proof_of_delivery is None,
    ensures
        state.after_all(calls).proof_of_delivery is Some <==> exists|i: int|
            state.proof_accepted_at(calls, i),
    decreases calls.len(),
{
    if calls.len() > 0 {
        let earlier = calls.drop_last();
        let last = calls.len() - 1;
        lemma_proof_comes_from_submission(state, earlier);
        assert(calls.take(last) =~= earlier);
        assert forall|i: int| 0 <= i < last implies state.proof_accepted_at(calls, i)
            == state.proof_accepted_at(earlier, i) by {
            assert(calls.take(i) =~= earlier.take(i));
        }
        let before = state.after_all(earlier);
        if before.after(calls.last()).proof_of_delivery is Some {
            if before.proof_of_delivery is Some {
                let i = choose|i: int| state.proof_accepted_at(earlier, i);
                assert(state.proof_accepted_at(calls, i));
            } else {
                assert(state.proof_accepted_at(calls, last));
            }
        }
        if exists|i: int| state.proof_accepted_at(calls, i) {
            let i = choose|i: int| state.proof_accepted_at(calls, i);
            if i < last {
                assert(state.proof_accepted_at(earlier, i));
            }
        }
    }
}

/// On an escrow that has gone through `calls` since its creation, the buyer's
/// confirmation fails for want of a proof exactly when none of those calls
/// handed in a proof that was accepted; the buyer's confirmation fails for no
/// other reason.
pub proof fn lemma_confirmation_needs_accepted_proof(
    buyer: AccountId,
    transporter: AccountId,
    calls: Seq<Call>,
)
    ensures
        ({
            let created = EscrowState::created(buyer, transporter);
            let confirmed = created.after_all(calls).confirm_delivery(buyer);
            &&& confirmed == Err::<EscrowState, EscrowError>(EscrowError::MissingProof)
                <==> !exists|i: int| created.proof_accepted_at(calls, i)
            &&& confirmed is Err ==> confirmed == Err::<EscrowState, EscrowError>(
                EscrowError::MissingProof,
            )
        }),
{
    let created = EscrowState::created(buyer, transporter);
    lemma_history_keeps_invariant(created, calls);
    lemma_proof_comes_from_submission(created, calls);
}

} // verus!
