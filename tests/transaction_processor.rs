use payments_engine::amount::Amount;
use payments_engine::transaction::{Transaction, TransactionID, TransactionKind, TransactionMetadata};
use payments_engine::transaction_processor::TransactionProcessor;
use payments_engine::transaction_store::TransactionStore;

fn transaction(kind: TransactionKind, tx_id: TransactionID, client_id: u16) -> Transaction {
    Transaction {
        kind,
        metadata: TransactionMetadata { client_id, tx_id },
        state: Default::default(),
    }
}

#[test]
fn deposit_should_create_deposit_change() {
    let mut processor = TransactionProcessor::<TransactionStore>::default();

    let transaction = transaction(
        TransactionKind::Deposit {
            amount: Amount::new(3, 1),
        },
        1,
        1,
    );

    let change = processor.produce_delta(transaction);

    assert_eq!(change.available.unwrap_or_default(), Amount::new(3, 1));
}

#[test]
fn withdraw_should_create_widthdraw_change() {
    let mut processor = TransactionProcessor::<TransactionStore>::default();

    let transaction = transaction(
        TransactionKind::Withdrawal {
            amount: Amount::new(5, 1),
        },
        1,
        1,
    );

    let change = processor.produce_delta(transaction);

    assert_eq!(change.available.unwrap_or_default(), Amount::new(-5, 1));
}

#[test]
fn dispute_on_not_existing_transaction_should_do_nothing() {
    let mut processor = TransactionProcessor::<TransactionStore>::default();

    let transaction = transaction(TransactionKind::Dispute, 1, 1);

    let change = processor.produce_delta(transaction);

    assert!(change.available.is_none());
    assert!(change.held.is_none());
    assert!(change.locked.is_none());
}

#[test]
fn dispute_on_deposit_transaction_should_incr_held_funds_and_decr_available() {
    let mut processor = TransactionProcessor::<TransactionStore>::default();

    let deposit = transaction(
        TransactionKind::Deposit {
            amount: Amount::new(3, 1),
        },
        1,
        1,
    );

    let deposit_change = processor.produce_delta(deposit);
    assert_eq!(
        deposit_change.available.unwrap_or_default(),
        Amount::new(3, 1)
    );
    assert!(deposit_change.held.is_none());
    assert!(deposit_change.locked.is_none());

    let dispute = transaction(TransactionKind::Dispute, 1, 1);
    let dispute_change = processor.produce_delta(dispute);

    assert_eq!(
        dispute_change.available.unwrap_or_default(),
        Amount::new(-3, 1)
    );
    assert_eq!(dispute_change.held.unwrap_or_default(), Amount::new(3, 1));
    assert!(dispute_change.locked.is_none());
}

#[test]
fn dispute_on_incorrect_client_transaction_should_do_nothing() {
    let mut processor = TransactionProcessor::<TransactionStore>::default();

    let deposit = transaction(
        TransactionKind::Deposit {
            amount: Amount::new(3, 1),
        },
        1,
        1,
    );

    let deposit_change = processor.produce_delta(deposit);
    assert_eq!(
        deposit_change.available.unwrap_or_default(),
        Amount::new(3, 1)
    );
    assert!(deposit_change.held.is_none());
    assert!(deposit_change.locked.is_none());

    let dispute = transaction(TransactionKind::Dispute, 1, 2);
    let dispute_change = processor.produce_delta(dispute);

    assert!(
        dispute_change.available.is_none(),
    );
    assert!(dispute_change.held.is_none());
    assert!(dispute_change.locked.is_none());
}


#[test]
fn dispute_on_withdrawal_transaction_should_increase_held_funds() {
    let mut processor = TransactionProcessor::<TransactionStore>::default();

    let withdrawal = transaction(
        TransactionKind::Withdrawal {
            amount: Amount::new(3, 1),
        },
        1,
        1,
    );

    let withdrawal_change = processor.produce_delta(withdrawal);
    assert_eq!(
        withdrawal_change.available.unwrap_or_default(),
        Amount::new(-3, 1)
    );
    assert!(withdrawal_change.held.is_none());
    assert!(withdrawal_change.locked.is_none());

    let dispute = transaction(TransactionKind::Dispute, 1, 1);
    let dispute_change = processor.produce_delta(dispute);

    assert!(dispute_change.available.is_none());
    assert_eq!(dispute_change.held.unwrap_or_default(), Amount::new(3, 1));
    assert!(dispute_change.locked.is_none());
}

#[test]
fn resolve_on_not_existing_transaction_should_do_nothing() {
    let mut processor = TransactionProcessor::<TransactionStore>::default();

    let transaction = transaction(TransactionKind::Resolve, 1, 1);

    let change = processor.produce_delta(transaction);

    assert!(change.available.is_none());
    assert!(change.held.is_none());
    assert!(change.locked.is_none());
}

#[test]
fn resolve_on_not_disputed_transaction_should_do_nothing() {
    let mut processor = TransactionProcessor::<TransactionStore>::default();

    let withdrawal = transaction(
        TransactionKind::Withdrawal {
            amount: Amount::new(3, 1),
        },
        1,
        1,
    );

    let withdrawal_change = processor.produce_delta(withdrawal);
    assert_eq!(
        withdrawal_change.available.unwrap_or_default(),
        Amount::new(-3, 1)
    );
    assert!(withdrawal_change.held.is_none());
    assert!(withdrawal_change.locked.is_none());

    let resolve = transaction(TransactionKind::Resolve, 1, 1);
    let resolve_change = processor.produce_delta(resolve);

    assert!(resolve_change.available.is_none());
    assert!(resolve_change.held.is_none());
    assert!(resolve_change.locked.is_none());
}

#[test]
fn resolve_on_incorrect_client_transaction_should_do_nothing() {
    let mut processor = TransactionProcessor::<TransactionStore>::default();

    let deposit = transaction(
        TransactionKind::Deposit {
            amount: Amount::new(3, 1),
        },
        1,
        1,
    );

    let deposit_change = processor.produce_delta(deposit);
    assert_eq!(
        deposit_change.available.unwrap_or_default(),
        Amount::new(3, 1)
    );
    assert!(deposit_change.held.is_none());
    assert!(deposit_change.locked.is_none());

    let resolve = transaction(TransactionKind::Resolve, 1, 2);
    let resolve_change = processor.produce_delta(resolve);

    assert!(
        resolve_change.available.is_none(),
    );
    assert!(resolve_change.held.is_none());
    assert!(resolve_change.locked.is_none());
}


#[test]
fn resolve_on_dispute_of_deposit_transaction_should_increase_available_funds_and_decr_held() {
    let mut processor = TransactionProcessor::<TransactionStore>::default();

    let deposit = transaction(
        TransactionKind::Deposit {
            amount: Amount::new(3, 1),
        },
        1,
        1,
    );
    let deposit_change = processor.produce_delta(deposit);

    assert_eq!(
        deposit_change.available.unwrap_or_default(),
        Amount::new(3, 1)
    );
    assert!(deposit_change.held.is_none());
    assert!(deposit_change.locked.is_none());

    let dispute = transaction(TransactionKind::Dispute, 1, 1);
    let dispute_change = processor.produce_delta(dispute);

    assert_eq!(
        dispute_change.available.unwrap_or_default(),
        Amount::new(-3, 1)
    );
    assert_eq!(dispute_change.held.unwrap_or_default(), Amount::new(3, 1));
    assert!(dispute_change.locked.is_none());

    let resolve = transaction(TransactionKind::Resolve, 1, 1);
    let resolve_change = processor.produce_delta(resolve);

    assert_eq!(
        resolve_change.available.unwrap_or_default(),
        Amount::new(3, 1)
    );
    assert_eq!(resolve_change.held.unwrap_or_default(), Amount::new(-3, 1));
    assert!(dispute_change.locked.is_none());
}

#[test]
fn resolve_on_dispute_of_withdrawal_transaction_should_increase_available_funds_and_decr_held()
{
    let mut processor = TransactionProcessor::<TransactionStore>::default();

    let withdrawal = transaction(
        TransactionKind::Withdrawal {
            amount: Amount::new(3, 1),
        },
        1,
        1,
    );
    let withdrawal_change = processor.produce_delta(withdrawal);

    assert_eq!(
        withdrawal_change.available.unwrap_or_default(),
        Amount::new(-3, 1)
    );
    assert!(withdrawal_change.held.is_none());
    assert!(withdrawal_change.locked.is_none());

    let dispute = transaction(TransactionKind::Dispute, 1, 1);
    let dispute_change = processor.produce_delta(dispute);

    assert!(dispute_change.available.is_none());
    assert_eq!(dispute_change.held.unwrap_or_default(), Amount::new(3, 1));
    assert!(dispute_change.locked.is_none());

    let resolve = transaction(TransactionKind::Resolve, 1, 1);
    let resolve_change = processor.produce_delta(resolve);

    assert_eq!(
        resolve_change.available.unwrap_or_default(),
        Amount::new(3, 1)
    );
    assert_eq!(resolve_change.held.unwrap_or_default(), Amount::new(-3, 1));
    assert!(dispute_change.locked.is_none());
}

#[test]
fn resolve_on_resolved_dispute_of_deposit_transaction_should_do_nothing() {
    let mut processor = TransactionProcessor::<TransactionStore>::default();

    let deposit = transaction(
        TransactionKind::Deposit {
            amount: Amount::new(3, 1),
        },
        1,
        1,
    );
    let deposit_change = processor.produce_delta(deposit);

    assert_eq!(
        deposit_change.available.unwrap_or_default(),
        Amount::new(3, 1)
    );
    assert!(deposit_change.held.is_none());
    assert!(deposit_change.locked.is_none());

    let dispute = transaction(TransactionKind::Dispute, 1, 1);
    let dispute_change = processor.produce_delta(dispute);

    assert_eq!(
        dispute_change.available.unwrap_or_default(),
        Amount::new(-3, 1)
    );
    assert_eq!(dispute_change.held.unwrap_or_default(), Amount::new(3, 1));
    assert!(dispute_change.locked.is_none());

    let resolve = transaction(TransactionKind::Resolve, 1, 1);
    let resolve_change = processor.produce_delta(resolve);

    assert_eq!(
        resolve_change.available.unwrap_or_default(),
        Amount::new(3, 1)
    );
    assert_eq!(resolve_change.held.unwrap_or_default(), Amount::new(-3, 1));
    assert!(dispute_change.locked.is_none());

    let dispute2 = transaction(TransactionKind::Dispute, 1, 1);
    let dispute2_change = processor.produce_delta(dispute2);

    assert!(dispute2_change.available.is_none());
    assert!(dispute2_change.held.is_none());
    assert!(dispute2_change.locked.is_none());
}

#[test]
fn chargeback_on_not_existing_transaction_should_do_nothing() {
    let mut processor = TransactionProcessor::<TransactionStore>::default();

    let chargeback = transaction(TransactionKind::Chargeback, 1, 1);
    let chargeback_change = processor.produce_delta(chargeback);

    assert!(chargeback_change.available.is_none());
    assert!(chargeback_change.held.is_none());
    assert!(chargeback_change.locked.is_none());
}

#[test]
fn chargeback_on_not_disputed_transaction_should_do_nothing() {
    let mut processor = TransactionProcessor::<TransactionStore>::default();

    let withdrawal = transaction(
        TransactionKind::Withdrawal {
            amount: Amount::new(3, 1),
        },
        1,
        1,
    );

    let withdrawal_change = processor.produce_delta(withdrawal);
    assert_eq!(
        withdrawal_change.available.unwrap_or_default(),
        Amount::new(-3, 1)
    );
    assert!(withdrawal_change.held.is_none());
    assert!(withdrawal_change.locked.is_none());

    let chargeback = transaction(TransactionKind::Chargeback, 1, 1);
    let chargeback_change = processor.produce_delta(chargeback);

    assert!(chargeback_change.available.is_none());
    assert!(chargeback_change.held.is_none());
    assert!(chargeback_change.locked.is_none());
}

#[test]
fn chargeback_on_incorrect_client_transaction_should_do_nothing() {
    let mut processor = TransactionProcessor::<TransactionStore>::default();

    let deposit = transaction(
        TransactionKind::Deposit {
            amount: Amount::new(3, 1),
        },
        1,
        1,
    );

    let deposit_change = processor.produce_delta(deposit);
    assert_eq!(
        deposit_change.available.unwrap_or_default(),
        Amount::new(3, 1)
    );
    assert!(deposit_change.held.is_none());
    assert!(deposit_change.locked.is_none());

    let chargeback = transaction(TransactionKind::Chargeback, 1, 2);
    let chargeback_change = processor.produce_delta(chargeback);

    assert!(
        chargeback_change.available.is_none(),
    );
    assert!(chargeback_change.held.is_none());
    assert!(chargeback_change.locked.is_none());
}

#[test]
fn chargeback_on_dispute_should_withdraw_held_funds_and_lock_acc() {
    let mut processor = TransactionProcessor::<TransactionStore>::default();

    let withdrawal = transaction(
        TransactionKind::Withdrawal {
            amount: Amount::new(3, 1),
        },
        1,
        1,
    );

    let withdrawal_change = processor.produce_delta(withdrawal);
    assert_eq!(
        withdrawal_change.available.unwrap_or_default(),
        Amount::new(-3, 1)
    );
    assert!(withdrawal_change.held.is_none());
    assert!(withdrawal_change.locked.is_none());

    let dispute = transaction(TransactionKind::Dispute, 1, 1);
    let dispute_change = processor.produce_delta(dispute);

    assert!(dispute_change.available.is_none());
    assert_eq!(dispute_change.held.unwrap_or_default(), Amount::new(3, 1));
    assert!(dispute_change.locked.is_none());

    let chargeback = transaction(TransactionKind::Chargeback, 1, 1);
    let chargeback_change = processor.produce_delta(chargeback);

    assert!(chargeback_change.available.is_none());
    assert_eq!(
        chargeback_change.held.unwrap_or_default(),
        Amount::new(-3, 1)
    );

    let locked = if let Some(val) = chargeback_change.locked {
        val
    } else {
        false
    };
    assert!(locked);
}

#[test]
fn second_dispute_of_same_transaction_does_nothing() {
    let mut processor = TransactionProcessor::<TransactionStore>::default();
    processor.produce_delta(transaction(
        TransactionKind::Deposit {
            amount: Amount::new(2, 0),
        },
        1,
        1,
    ));
    let first = processor.produce_delta(transaction(TransactionKind::Dispute, 1, 1));
    let second = processor.produce_delta(transaction(TransactionKind::Dispute, 1, 1));

    assert_eq!(first.held, Some(Amount::new(2, 0)));
    assert!(second.available.is_none());
    assert!(second.held.is_none());
    assert!(second.locked.is_none());
}

#[test]
fn dispute_after_chargeback_does_nothing() {
    let mut processor = TransactionProcessor::<TransactionStore>::default();
    processor.produce_delta(transaction(
        TransactionKind::Deposit {
            amount: Amount::new(2, 0),
        },
        1,
        1,
    ));
    processor.produce_delta(transaction(TransactionKind::Dispute, 1, 1));
    let chargeback = processor.produce_delta(transaction(TransactionKind::Chargeback, 1, 1));
    let again = processor.produce_delta(transaction(TransactionKind::Dispute, 1, 1));
    let resolve = processor.produce_delta(transaction(TransactionKind::Resolve, 1, 1));

    assert_eq!(chargeback.locked, Some(true));
    assert!(again.held.is_none() && again.available.is_none());
    assert!(resolve.held.is_none() && resolve.available.is_none());
}

#[test]
fn dispute_of_deposit_allows_debt() {
    let mut processor = TransactionProcessor::<TransactionStore>::default();
    processor.produce_delta(transaction(
        TransactionKind::Deposit {
            amount: Amount::new(2, 0),
        },
        1,
        1,
    ));
    let dispute = processor.produce_delta(transaction(TransactionKind::Dispute, 1, 1));

    assert_eq!(dispute.can_create_debt, Some(true));
}

#[test]
fn reported_outcome_does_not_undo_a_dispute() {
    let mut processor = TransactionProcessor::<TransactionStore>::default();
    processor.produce_delta(transaction(
        TransactionKind::Deposit {
            amount: Amount::new(2, 0),
        },
        1,
        1,
    ));
    processor.produce_delta(transaction(TransactionKind::Dispute, 1, 1));
    processor.failed(1);
    let resolve = processor.produce_delta(transaction(TransactionKind::Resolve, 1, 1));

    assert_eq!(resolve.available, Some(Amount::new(2, 0)));
    assert_eq!(resolve.held, Some(Amount::new(-2, 0)));
}

#[test]
fn dispute_of_unknown_kind_reference_does_nothing() {
    let mut processor = TransactionProcessor::<TransactionStore>::default();
    processor.succeed(9);
    let dispute = processor.produce_delta(transaction(TransactionKind::Dispute, 9, 1));

    assert!(dispute.available.is_none() && dispute.held.is_none());
}

#[test]
fn dispute_of_failed_transaction_does_nothing() {
    let mut processor = TransactionProcessor::<TransactionStore>::default();
    processor.produce_delta(transaction(
        TransactionKind::Withdrawal {
            amount: Amount::new(5, 0),
        },
        1,
        1,
    ));
    processor.failed(1);
    let dispute = processor.produce_delta(transaction(TransactionKind::Dispute, 1, 1));
    let resolve = processor.produce_delta(transaction(TransactionKind::Resolve, 1, 1));

    assert!(dispute.available.is_none() && dispute.held.is_none() && dispute.locked.is_none());
    assert!(resolve.available.is_none() && resolve.held.is_none() && resolve.locked.is_none());
}

#[test]
fn dispute_of_succeeded_transaction_holds_it() {
    let mut processor = TransactionProcessor::<TransactionStore>::default();
    processor.produce_delta(transaction(
        TransactionKind::Withdrawal {
            amount: Amount::new(5, 0),
        },
        1,
        1,
    ));
    processor.succeed(1);
    let dispute = processor.produce_delta(transaction(TransactionKind::Dispute, 1, 1));

    assert_eq!(dispute.held, Some(Amount::new(5, 0)));
    assert!(dispute.available.is_none());
}
