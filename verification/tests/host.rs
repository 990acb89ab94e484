use delivery_escrow::{AccountId, DeliveryEscrow, EscrowError, EscrowState, ProofHash};
use ink::env::hash::{Blake2x256, HashOutput};
use ink::env::DefaultEnvironment;

fn account(id: &ink::primitives::AccountId) -> AccountId {
    AccountId(id.0)
}

fn on_ledger(id: AccountId) -> ink::primitives::AccountId {
    ink::primitives::AccountId::from(id.0)
}

fn caller() -> AccountId {
    account(&ink::env::caller::<DefaultEnvironment>())
}

fn send(to: AccountId, amount: u128) -> bool {
    ink::env::transfer::<DefaultEnvironment>(on_ledger(to), amount).is_ok()
}

fn held_by(id: AccountId) -> u128 {
    ink::env::test::get_account_balance::<DefaultEnvironment>(on_ledger(id)).unwrap()
}

#[test]
fn confirm_delivery_works() {
    ink::env::test::run_test::<DefaultEnvironment, _>(|accounts| {
        let mut contract =
            DeliveryEscrow::new(account(&accounts.alice), account(&accounts.charlie));

        ink::env::test::set_caller::<DefaultEnvironment>(accounts.alice);

        ink::env::test::set_value_transferred::<DefaultEnvironment>(1000);
        let value = ink::env::transferred_value::<DefaultEnvironment>();
        assert_eq!(contract.deposit(value), Ok(()));
        assert_eq!(contract.state().balance, 1000);

        // Nobody has handed in a proof, so the buyer has nothing to confirm.
        assert_eq!(contract.confirm_delivery(caller()), Err(EscrowError::MissingProof));
        assert_eq!(contract.is_delivered(), false);

        ink::env::test::set_caller::<DefaultEnvironment>(accounts.charlie);
        let now = ink::env::block_timestamp::<DefaultEnvironment>();
        assert_eq!(contract.submit_proof(caller(), ProofHash([1; 32]), now), Ok(()));

        ink::env::test::set_caller::<DefaultEnvironment>(accounts.alice);
        assert_eq!(contract.confirm_delivery(caller()), Ok(()));
        assert_eq!(contract.is_delivered(), true);
        Ok(())
    })
    .unwrap();
}

#[test]
fn test_submit_proof_works() {
    ink::env::test::run_test::<DefaultEnvironment, _>(|accounts| {
        let mut contract = DeliveryEscrow::restore(EscrowState {
            is_delivered: false,
            balance: 0,
            buyer: account(&accounts.bob),
            transporter: account(&accounts.charlie),
            proof_of_delivery: None,
            delivery_timestamp: None,
            timeout_duration: 10000,
            dispute: false,
        })
        .unwrap();

        ink::env::test::set_caller::<DefaultEnvironment>(accounts.alice);

        let delivery_data = b"Order #123 delivered to Bob";
        let mut output = <Blake2x256 as HashOutput>::Type::default();
        ink::env::hash_bytes::<Blake2x256>(delivery_data, &mut output);

        let now = ink::env::block_timestamp::<DefaultEnvironment>();
        assert_eq!(contract.submit_proof(caller(), ProofHash(output), now), Ok(()));

        assert_eq!(contract.state().proof_of_delivery, Some(ProofHash(output)));
        assert_eq!(contract.is_delivered(), true);
        assert!(contract.state().delivery_timestamp.is_some());
        assert_eq!(contract.state().delivery_timestamp, Some(now));
        assert_eq!(contract.state().timeout_duration, 10000);
        assert_ne!(output, [0u8; 32]);
        Ok(())
    })
    .unwrap();
}

#[test]
fn submit_proof_keeps_the_block_time() {
    ink::env::test::run_test::<DefaultEnvironment, _>(|accounts| {
        let mut contract = DeliveryEscrow::new(account(&accounts.bob), account(&accounts.charlie));
        ink::env::test::set_block_timestamp::<DefaultEnvironment>(1_700_000_000_000);
        ink::env::test::set_caller::<DefaultEnvironment>(accounts.charlie);
        let now = ink::env::block_timestamp::<DefaultEnvironment>();
        assert_eq!(contract.submit_proof(caller(), ProofHash([2; 32]), now), Ok(()));
        assert_eq!(contract.state().delivery_timestamp, Some(1_700_000_000_000));

        ink::env::test::set_caller::<DefaultEnvironment>(accounts.bob);
        assert_eq!(
            contract.submit_proof(caller(), ProofHash([3; 32]), now),
            Err(EscrowError::Unauthorized)
        );
        Ok(())
    })
    .unwrap();
}

#[test]
fn release_moves_both_shares_on_the_ledger() {
    ink::env::test::run_test::<DefaultEnvironment, _>(|accounts| {
        let transporter = account(&accounts.charlie);
        let seller = account(&accounts.bob);
        let mut contract = DeliveryEscrow::new(account(&accounts.django), transporter);

        ink::env::test::set_value_transferred::<DefaultEnvironment>(1000);
        let value = ink::env::transferred_value::<DefaultEnvironment>();
        assert_eq!(contract.deposit(value), Ok(()));
        assert!(contract.mark_delivered());

        let contract_before = held_by(account(&accounts.alice));
        let transporter_before = held_by(transporter);
        let seller_before = held_by(seller);

        let payout = contract.release(seller).unwrap();
        assert_eq!(contract.state().balance, 0);
        for transfer in payout.in_order() {
            let sent = send(transfer.to, transfer.amount);
            assert_eq!(transfer.settle(sent), Ok(()));
        }

        assert_eq!(held_by(transporter), transporter_before + 100);
        assert_eq!(held_by(seller), seller_before + 900);
        assert_eq!(held_by(account(&accounts.alice)), contract_before - 1000);
        Ok(())
    })
    .unwrap();
}

#[test]
fn refund_moves_everything_back_on_the_ledger() {
    ink::env::test::run_test::<DefaultEnvironment, _>(|accounts| {
        let buyer = account(&accounts.bob);
        let mut contract = DeliveryEscrow::new(buyer, account(&accounts.charlie));
        assert_eq!(contract.deposit(500), Ok(()));

        ink::env::test::set_caller::<DefaultEnvironment>(accounts.charlie);
        assert_eq!(contract.refund(caller()), Err(EscrowError::Unauthorized));

        ink::env::test::set_caller::<DefaultEnvironment>(accounts.bob);
        let buyer_before = held_by(buyer);
        let transfer = contract.refund(caller()).unwrap();
        let sent = send(transfer.to, transfer.amount);
        assert_eq!(transfer.settle(sent), Ok(()));
        assert_eq!(held_by(buyer), buyer_before + 500);
        assert_eq!(contract.state().balance, 0);
        assert_eq!(contract.refund(caller()), Err(EscrowError::NoFunds));
        Ok(())
    })
    .unwrap();
}

#[test]
fn transfer_refused_by_the_ledger_fails_the_refund() {
    ink::env::test::run_test::<DefaultEnvironment, _>(|accounts| {
        let buyer = account(&accounts.bob);
        let mut contract = DeliveryEscrow::new(buyer, account(&accounts.charlie));
        assert_eq!(contract.deposit(500), Ok(()));

        // The ledger knows no balance of this contract account.
        ink::env::test::set_callee::<DefaultEnvironment>(ink::primitives::AccountId::from(
            [0x99; 32],
        ));
        let buyer_before = held_by(buyer);
        let transfer = contract.refund(buyer).unwrap();
        let sent = send(transfer.to, transfer.amount);
        assert!(!sent);
        assert_eq!(transfer.settle(sent), Err(EscrowError::TransferFailed(buyer)));
        assert_eq!(held_by(buyer), buyer_before);
        Ok(())
    })
    .unwrap();
}
