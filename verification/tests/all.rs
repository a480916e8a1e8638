use tiny_transaction_processor::Account;
use tiny_transaction_processor::Amendment;
use tiny_transaction_processor::AmendmentType;
use tiny_transaction_processor::Amount;
use tiny_transaction_processor::ClientID;
use tiny_transaction_processor::Transaction;
use tiny_transaction_processor::TransactionID;
use tiny_transaction_processor::TransactionProcessor;
use tiny_transaction_processor::Transfer;
use tiny_transaction_processor::TransferType;

/// One currency unit, as a count of the ledger's fixed-point units of one
/// ten-thousandth.
fn units(n: i64) -> i64 {
    n * 10_000
}

#[derive(Default)]
struct TransactionGenerator {
    transaction_count: u32,
    clients_of_transactions: std::collections::HashMap<TransactionID, ClientID>,
}

impl TransactionGenerator {
    fn transfer(&mut self, client_id: ClientID, amount: i64) -> Transaction {
        assert_ne!(amount, 0, "We don't expect zero amount transactions");

        self.transaction_count += 1;
        let transaction_id = TransactionID::new(self.transaction_count);
        let transfer_type = if amount < 0 {
            TransferType::Withdrawal
        } else {
            TransferType::Deposit
        };

        self.clients_of_transactions
            .insert(transaction_id, client_id);
        Transaction::Transfer(Transfer {
            transaction_id,
            client_id,
            amount: Amount::new(amount.unsigned_abs()),
            transfer_type,
        })
    }

    fn dispute(&mut self, transaction_id: TransactionID) -> Transaction {
        let client_id = *self
            .clients_of_transactions
            .get(&transaction_id)
            .expect("Unknown transaction");
        Transaction::Amendment(Amendment {
            client_id,
            transaction_id,
            amendment_type: AmendmentType::Dispute,
        })
    }

    fn resolve(&mut self, transaction_id: TransactionID) -> Transaction {
        let client_id = *self
            .clients_of_transactions
            .get(&transaction_id)
            .expect("Unknown transaction");
        Transaction::Amendment(Amendment {
            client_id,
            transaction_id,
            amendment_type: AmendmentType::Resolve,
        })
    }

    fn chargeback(&mut self, transaction_id: TransactionID) -> Transaction {
        let client_id = *self
            .clients_of_transactions
            .get(&transaction_id)
            .expect("Unknown transaction");
        Transaction::Amendment(Amendment {
            client_id,
            transaction_id,
            amendment_type: AmendmentType::Chargeback,
        })
    }
}

#[test]
fn test_excessive_withdrawal() {
    let mut generator = TransactionGenerator::default();
    let mut processor = TransactionProcessor::default();

    let client_id = ClientID::new(23);
    assert!(processor
        .process(&generator.transfer(client_id, units(2)))
        .is_ok());
    assert!(processor
        .process(&generator.transfer(client_id, units(-3)))
        .is_err());

    assert_eq!(
        processor.accounts.get(&client_id.id).unwrap().available,
        units(2) as i128
    )
}

#[test]
fn test_dispute() {
    let mut generator = TransactionGenerator::default();
    let mut processor = TransactionProcessor::default();

    let client_id = ClientID::new(23);
    let deposit = generator.transfer(client_id, units(10));
    let withdrawal = generator.transfer(client_id, units(-7));
    assert!(processor.process(&deposit).is_ok());
    assert!(processor.process(&withdrawal).is_ok());

    let initial_state = processor.accounts.get(&client_id.id).cloned();
    assert!(initial_state.is_some(), "Client account must exist");

    // Dispute with wrong client id is rejected and doesn't change the state
    let dispute_with_wrong_client = Transaction::Amendment(Amendment {
        amendment_type: AmendmentType::Dispute,
        client_id: ClientID::new(72),
        transaction_id: deposit.transaction_id(),
    });

    assert!(processor.process(&dispute_with_wrong_client).is_err());
    assert_eq!(processor.accounts.get(&client_id.id).cloned(), initial_state);

    // Dispute with unknown transaction id is rejected and doesn't change the state
    let dispute_of_non_existent_transaction = Transaction::Amendment(Amendment {
        amendment_type: AmendmentType::Dispute,
        client_id,
        transaction_id: TransactionID::new(42),
    });

    assert!(processor
        .process(&dispute_of_non_existent_transaction)
        .is_err());
    assert_eq!(processor.accounts.get(&client_id.id).cloned(), initial_state);

    // Dispute is handled as expected
    let deposit_dispute = generator.dispute(deposit.transaction_id());
    assert!(processor.process(&deposit_dispute).is_ok());

    let state_in_dispute = *processor.accounts.get(&client_id.id).unwrap();
    assert_eq!(state_in_dispute.available, units(-7) as i128);
    assert_eq!(state_in_dispute.held, units(10) as i128);
    assert!(!state_in_dispute.locked);

    // Double dispute is rejected and state remains the same
    assert!(processor.process(&deposit_dispute).is_err());
    let state_after_double_dispute = *processor.accounts.get(&client_id.id).unwrap();
    assert_eq!(state_in_dispute, state_after_double_dispute);

    // Having two transactions in dispute is okay and reflects correctly on the client account
    let withdrawal_dispute = generator.dispute(withdrawal.transaction_id());
    assert!(processor.process(&withdrawal_dispute).is_ok());
    let state_with_two_disputes = *processor.accounts.get(&client_id.id).unwrap();
    // Initial total was 3, disputing 17 brings us to -14
    assert_eq!(state_with_two_disputes.available, units(-14) as i128);
    assert_eq!(state_with_two_disputes.held, units(17) as i128);
    assert!(!state_with_two_disputes.locked);
}

#[test]
fn test_resolve() {
    let mut generator = TransactionGenerator::default();
    let mut processor = TransactionProcessor::default();

    let client_id = ClientID::new(23);
    let deposit = generator.transfer(client_id, units(10));
    let withdrawal = generator.transfer(client_id, units(-7));
    assert!(processor.process(&deposit).is_ok());
    assert!(processor.process(&withdrawal).is_ok());

    let initial_state = *processor.accounts.get(&client_id.id).unwrap();

    let dispute_deposit = generator.dispute(deposit.transaction_id());
    let resolve_deposit = generator.resolve(deposit.transaction_id());

    // Resolving a transaction that is not in dispute is not alllowed
    assert!(processor.process(&resolve_deposit).is_err());
    assert_eq!(initial_state, *processor.accounts.get(&client_id.id).unwrap());

    // Resolving a disputed transaction works as expected
    assert!(processor.process(&dispute_deposit).is_ok());
    assert!(processor.process(&resolve_deposit).is_ok());
    assert_eq!(initial_state, *processor.accounts.get(&client_id.id).unwrap());

    // Second resolve of the same transaction is an error and doesn't change the state
    assert!(processor.process(&resolve_deposit).is_err());
    assert_eq!(initial_state, *processor.accounts.get(&client_id.id).unwrap());
}

#[test]
fn test_chargeback() {
    let mut generator = TransactionGenerator::default();
    let mut processor = TransactionProcessor::default();

    let client_id = ClientID::new(23);
    let deposit = generator.transfer(client_id, units(10));
    let withdrawal = generator.transfer(client_id, units(-7));
    assert!(processor.process(&deposit).is_ok());
    assert!(processor.process(&withdrawal).is_ok());

    let initial_state = *processor.accounts.get(&client_id.id).unwrap();

    let dispute_deposit = generator.dispute(deposit.transaction_id());
    let chargeback_deposit = generator.chargeback(deposit.transaction_id());

    // Charging back a transaction that is not in dispute is not allowed
    assert!(processor.process(&chargeback_deposit).is_err());
    assert_eq!(initial_state, *processor.accounts.get(&client_id.id).unwrap());

    // Charging back a transaction in dispute works as expected
    assert!(processor.process(&dispute_deposit).is_ok());
    assert!(processor.process(&chargeback_deposit).is_ok());
    let state_after_chargeback = *processor.accounts.get(&client_id.id).unwrap();
    assert_eq!(state_after_chargeback.available, units(-7) as i128);
    assert_eq!(state_after_chargeback.held, 0);
    assert!(state_after_chargeback.locked);

    // Re-disputing a charged back transaction is not allowed to prevent double chargeback
    assert!(processor.process(&dispute_deposit).is_err());
    assert_eq!(
        state_after_chargeback,
        *processor.accounts.get(&client_id.id).unwrap()
    );

    // Disputing and charging back other transactions still works as expected
    let dispute_withdrawal = generator.dispute(withdrawal.transaction_id());
    let chargeback_withdrawal = generator.chargeback(withdrawal.transaction_id());
    assert!(processor.process(&dispute_withdrawal).is_ok());
    assert!(processor.process(&chargeback_withdrawal).is_ok());
    let state_after_both_chargebacks = *processor.accounts.get(&client_id.id).unwrap();
    assert_eq!(state_after_both_chargebacks.available, units(-14) as i128);
    assert_eq!(state_after_both_chargebacks.held, 0);
    assert!(state_after_both_chargebacks.locked);
}

#[test]
fn test_locked() {
    let mut generator = TransactionGenerator::default();
    let mut processor = TransactionProcessor::default();

    let client_id = ClientID::new(23);
    let locked_account = Account {
        available: units(15) as i128,
        held: 0,
        locked: true,
    };
    processor.accounts.insert(client_id.id, locked_account);

    // Trying to deposit or withdraw from a locked account fails
    let deposit = generator.transfer(client_id, units(10));
    assert!(processor.process(&deposit).is_err());
    assert_eq!(locked_account, *processor.accounts.get(&client_id.id).unwrap());

    let withdrawal = generator.transfer(client_id, units(-7));
    assert!(processor.process(&withdrawal).is_err());
    assert_eq!(locked_account, *processor.accounts.get(&client_id.id).unwrap());

    // Disputing of the failed transactions also fails
    assert!(processor
        .process(&generator.dispute(deposit.transaction_id()))
        .is_err());
    assert!(processor
        .process(&generator.dispute(withdrawal.transaction_id()))
        .is_err());
}

#[test]
fn test_disputing_a_failed_withdrawal() {
    let mut generator = TransactionGenerator::default();
    let mut processor = TransactionProcessor::default();

    let client_id = ClientID::new(23);
    let initial_state = Account {
        available: units(15) as i128,
        ..Account::default()
    };
    processor.accounts.insert(client_id.id, initial_state);

    // A withdrawal over the available funds fails
    let excessive_withdrawal = generator.transfer(client_id, units(-16));
    assert!(processor.process(&excessive_withdrawal).is_err());

    let dispute = generator.dispute(excessive_withdrawal.transaction_id());
    assert!(processor.process(&dispute).is_err());
    assert_eq!(initial_state, *processor.accounts.get(&client_id.id).unwrap());
}

#[test]
fn transaction_with_the_same_id_isnt_allowed() {
    let mut generator = TransactionGenerator::default();
    let mut processor = TransactionProcessor::default();

    let good_client_id = ClientID::new(23);
    let good_deposit = generator.transfer(good_client_id, units(10));

    let weird_client_id = ClientID::new(243);
    let weird_deposit_reusing_transaction_id = Transaction::Transfer(Transfer {
        client_id: weird_client_id,
        transaction_id: good_deposit.transaction_id(),
        transfer_type: TransferType::Deposit,
        amount: Amount::new(units(10) as u64),
    });

    assert!(processor.process(&good_deposit).is_ok());

    // Can't redo the same transaction
    assert!(processor.process(&good_deposit).is_err());
    assert_eq!(
        processor.accounts.get(&good_client_id.id).unwrap().available,
        units(10) as i128
    );

    // Can't use the transaction ID for a different client too
    assert!(processor
        .process(&weird_deposit_reusing_transaction_id)
        .is_err());

    // Even after chargeback still can't reuse the transaction ID
    let dispute_good_deposit = generator.dispute(good_deposit.transaction_id());
    let chargeback_good_deposit = generator.chargeback(good_deposit.transaction_id());
    assert!(processor.process(&dispute_good_deposit).is_ok());
    assert!(processor.process(&chargeback_good_deposit).is_ok());

    assert!(processor
        .process(&weird_deposit_reusing_transaction_id)
        .is_err());
}
