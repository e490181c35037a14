//! Turns transactions into account changes, keeping the log of deposits and withdrawals.
use crate::account::{AccountDelta, DeltaView};
use crate::transaction::{
    moves_forward, Transaction, TransactionID, TransactionKind, TransactionState,
};
use crate::transaction_store::Store;
use vstd::prelude::*;

verus! {

/// `t` with its state set to `s`.
pub open spec fn with_state(t: Transaction, s: TransactionState) -> Transaction {
    Transaction { state: s, ..t }
}

/// The logged transaction that `t` refers to, when there is one and it belongs to `t`'s
/// client.
pub open spec fn referenced(log: Map<TransactionID, Transaction>, t: Transaction) -> Option<
    Transaction,
> {
    let id = t.metadata.tx_id;
    if log.contains_key(id) && log[id].metadata.client_id == t.metadata.client_id {
        Some(log[id])
    } else {
        None
    }
}

/// A transaction in state `s` may be disputed: it did not fail and was never disputed.
pub open spec fn disputable(s: TransactionState) -> bool {
    s == TransactionState::New || s == TransactionState::Succeeded
}

/// The log and the change after the dispute `t`.
pub open spec fn dispute_step(log: Map<TransactionID, Transaction>, t: Transaction) -> (
    Map<TransactionID, Transaction>,
    DeltaView,
) {
    let id = t.metadata.tx_id;
    match referenced(log, t) {
        Some(target) => if disputable(target.state) {
            match target.kind {
                TransactionKind::Deposit { amount } => (
                    log.insert(id, with_state(target, TransactionState::Disputed)),
                    DeltaView::dispute_deposit(amount@),
                ),
                TransactionKind::Withdrawal { amount } => (
                    log.insert(id, with_state(target, TransactionState::Disputed)),
                    DeltaView::dispute_withdrawal(amount@),
                ),
                _ => (log, DeltaView::none()),
            }
        } else {
            (log, DeltaView::none())
        },
        None => (log, DeltaView::none()),
    }
}

/// The log and the change after the resolve `t`.
pub open spec fn resolve_step(log: Map<TransactionID, Transaction>, t: Transaction) -> (
    Map<TransactionID, Transaction>,
    DeltaView,
) {
    let id = t.metadata.tx_id;
    match referenced(log, t) {
        Some(target) => if target.state == TransactionState::Disputed {
            match target.kind {
                TransactionKind::Deposit { amount } => (
                    log.insert(id, with_state(target, TransactionState::Resolved)),
                    DeltaView::resolve(amount@),
                ),
                TransactionKind::Withdrawal { amount } => (
                    log.insert(id, with_state(target, TransactionState::Resolved)),
                    DeltaView::resolve(amount@),
                ),
                _ => (log, DeltaView::none()),
            }
        } else {
            (log, DeltaView::none())
        },
        None => (log, DeltaView::none()),
    }
}

/// The log and the change after the chargeback `t`.
pub open spec fn chargeback_step(log: Map<TransactionID, Transaction>, t: Transaction) -> (
    Map<TransactionID, Transaction>,
    DeltaView,
) {
    let id = t.metadata.tx_id;
    match referenced(log, t) {
        Some(target) => if target.state == TransactionState::Disputed {
            match target.kind {
                TransactionKind::Deposit { amount } => (
                    log.insert(id, with_state(target, TransactionState::Chargeback)),
                    DeltaView::chargeback(amount@),
                ),
                TransactionKind::Withdrawal { amount } => (
                    log.insert(id, with_state(target, TransactionState::Chargeback)),
                    DeltaView::chargeback(amount@),
                ),
                _ => (log, DeltaView::none()),
            }
        } else {
            (log, DeltaView::none())
        },
        None => (log, DeltaView::none()),
    }
}

/// The log and the change after the transaction `t`: a deposit or withdrawal is logged as
/// `New`; a dispute, resolve or chargeback moves the transaction it refers to along.
pub open spec fn produce_step(log: Map<TransactionID, Transaction>, t: Transaction) -> (
    Map<TransactionID, Transaction>,
    DeltaView,
) {
    match t.kind {
        TransactionKind::Deposit { amount } => (
            log.insert(t.metadata.tx_id, with_state(t, TransactionState::New)),
            DeltaView::deposit(amount@),
        ),
        TransactionKind::Withdrawal { amount } => (
            log.insert(t.metadata.tx_id, with_state(t, TransactionState::New)),
            DeltaView::withdrawal(amount@),
        ),
        TransactionKind::Dispute => dispute_step(log, t),
        TransactionKind::Resolve => resolve_step(log, t),
        TransactionKind::Chargeback => chargeback_step(log, t),
    }
}

/// The log after the outcome `s` of transaction `tx_id` is reported: only a `New`
/// transaction takes it.
pub open spec fn report_step(
    log: Map<TransactionID, Transaction>,
    tx_id: TransactionID,
    s: TransactionState,
) -> Map<TransactionID, Transaction> {
    if log.contains_key(tx_id) && log[tx_id].state == TransactionState::New {
        log.insert(tx_id, with_state(log[tx_id], s))
    } else {
        log
    }
}

/// A logged transaction's state only takes a lifecycle step when the processor handles a
/// transaction, and nothing else of it changes; every other logged transaction stays as
/// it is. This holds for every transaction but one that is logged anew under the same
/// identifier, which replaces it.
pub proof fn produce_moves_lifecycle_forward(
    log: Map<TransactionID, Transaction>,
    t: Transaction,
    id: TransactionID,
)
    requires
        log.contains_key(id),
        !((t.kind is Deposit || t.kind is Withdrawal) && t.metadata.tx_id == id),
    ensures
        produce_step(log, t).0.contains_key(id),
        moves_forward(log[id].state, produce_step(log, t).0[id].state),
        produce_step(log, t).0[id] == with_state(log[id], produce_step(log, t).0[id].state),
        id != t.metadata.tx_id ==> produce_step(log, t).0[id] == log[id],
{
}

/// A dispute of a transaction that failed, or that was already disputed, resolved or
/// charged back, changes neither the log nor any account: a transaction is disputed at
/// most once, and never after it failed.
pub proof fn dispute_of_undisputable_produces_nothing(
    log: Map<TransactionID, Transaction>,
    t: Transaction,
)
    requires
        t.kind is Dispute,
        log.contains_key(t.metadata.tx_id),
        !disputable(log[t.metadata.tx_id].state),
    ensures
        produce_step(log, t) == (log, DeltaView::none()),
{
}

/// A resolve or chargeback of a transaction that is not under dispute changes neither the
/// log nor any account; so submitting one again after it took effect changes nothing.
pub proof fn settling_undisputed_produces_nothing(
    log: Map<TransactionID, Transaction>,
    t: Transaction,
)
    requires
        t.kind is Resolve || t.kind is Chargeback,
        !(log.contains_key(t.metadata.tx_id) && log[t.metadata.tx_id].state
            == TransactionState::Disputed),
    ensures
        produce_step(log, t) == (log, DeltaView::none()),
{
}

/// A dispute, resolve or chargeback that refers to another client's transaction changes
/// neither the log nor any account, whatever that transaction's state.
pub proof fn foreign_reference_produces_nothing(
    log: Map<TransactionID, Transaction>,
    t: Transaction,
)
    requires
        t.kind is Dispute || t.kind is Resolve || t.kind is Chargeback,
        log.contains_key(t.metadata.tx_id),
        log[t.metadata.tx_id].metadata.client_id != t.metadata.client_id,
    ensures
        produce_step(log, t) == (log, DeltaView::none()),
{
}

/// Produces the change of an account that each transaction calls for.
pub struct TransactionProcessor<S: Store> {
    transactions: S,
}

impl<S: Store> Default for TransactionProcessor<S> {
    fn default() -> (r: TransactionProcessor<S>)
        ensures
            r.log() == Map::<TransactionID, Transaction>::empty(),
    {
        TransactionProcessor::new()
    }
}

impl<S: Store> TransactionProcessor<S> {
    /// The logged deposits and withdrawals.
    pub closed spec fn log(&self) -> Map<TransactionID, Transaction> {
        self.transactions.log()
    }

    /// A processor with an empty log.
    pub fn new() -> (r: TransactionProcessor<S>)
        ensures
            r.log() == Map::<TransactionID, Transaction>::empty(),
    {
        TransactionProcessor { transactions: S::empty() }
    }

    /// The change that `transaction` calls for; logs a deposit or withdrawal, and moves
    /// the transaction that a dispute, resolve or chargeback refers to along.
    pub fn produce_delta(&mut self, transaction: Transaction) -> (r: AccountDelta)
        ensures
            (final(self).log(), r@) == produce_step(old(self).log(), transaction),
    {
        match transaction.kind {
            TransactionKind::Deposit { amount } => {
                self.transactions.insert(Transaction { state: TransactionState::New, ..transaction });
                AccountDelta::deposit(amount)
            },
            TransactionKind::Withdrawal { amount } => {
                self.transactions.insert(Transaction { state: TransactionState::New, ..transaction });
                AccountDelta::withdrawal(amount)
            },
            TransactionKind::Dispute => self.dispute(&transaction),
            TransactionKind::Resolve => self.resolve(&transaction),
            TransactionKind::Chargeback => self.chargeback(&transaction),
        }
    }

    /// Reports that the change of `tx_id` went through.
    pub fn succeed(&mut self, tx_id: TransactionID)
        ensures
            final(self).log() == report_step(old(self).log(), tx_id, TransactionState::Succeeded),
    {
        self.set_state(tx_id, TransactionState::Succeeded)
    }

    /// Reports that the change of `tx_id` was refused.
    pub fn failed(&mut self, tx_id: TransactionID)
        ensures
            final(self).log() == report_step(old(self).log(), tx_id, TransactionState::Failed),
    {
        self.set_state(tx_id, TransactionState::Failed)
    }

    fn set_state(&mut self, tx_id: TransactionID, state: TransactionState)
        ensures
            final(self).log() == report_step(old(self).log(), tx_id, state),
    {
        if let Some(tx) = self.transactions.get_mut(&tx_id) {
            // Only a transaction not yet reported on takes the outcome.
            if tx.state == TransactionState::New {
                tx.state = state;
            }
        }
    }

    /// Disputing a deposit moves its amount from available to held; disputing a
    /// withdrawal holds its amount. Anything else, a failed transaction, or a second
    /// dispute changes nothing.
    fn dispute(&mut self, disputed_transaction: &Transaction) -> (r: AccountDelta)
        ensures
            (final(self).log(), r@) == dispute_step(old(self).log(), *disputed_transaction),
    {
        if let Some(transaction) = self.transactions.get_mut(&disputed_transaction.tx_id()) {
            if disputed_transaction.client_id() != transaction.client_id() {
                return AccountDelta::none();
            }
            if transaction.state == TransactionState::Resolved || transaction.state
                == TransactionState::Chargeback || transaction.state
                == TransactionState::Disputed || transaction.state == TransactionState::Failed {
                return AccountDelta::none();
            }
            match transaction.kind {
                TransactionKind::Deposit { amount } => {
                    transaction.state = TransactionState::Disputed;
                    AccountDelta::dispute_deposit(amount)
                },
                TransactionKind::Withdrawal { amount } => {
                    transaction.state = TransactionState::Disputed;
                    AccountDelta::dispute_withdrawal(amount)
                },
                _ => AccountDelta::none(),
            }
        } else {
            AccountDelta::none()
        }
    }

    /// Resolving a disputed deposit or withdrawal moves its amount from held back to
    /// available; anything else changes nothing.
    fn resolve(&mut self, resolve_transaction: &Transaction) -> (r: AccountDelta)
        ensures
            (final(self).log(), r@) == resolve_step(old(self).log(), *resolve_transaction),
    {
        if let Some(transaction) = self.transactions.get_mut(&resolve_transaction.tx_id()) {
            if resolve_transaction.client_id() != transaction.client_id() {
                return AccountDelta::none();
            }
            if transaction.state != TransactionState::Disputed {
                return AccountDelta::none();
            }
            match transaction.kind {
                TransactionKind::Deposit { amount } | TransactionKind::Withdrawal { amount } => {
                    transaction.state = TransactionState::Resolved;
                    AccountDelta::resolve(amount)
                },
                _ => AccountDelta::none(),
            }
        } else {
            AccountDelta::none()
        }
    }

    /// Charging back a disputed deposit or withdrawal withdraws its held amount and locks
    /// the account; anything else changes nothing.
    fn chargeback(&mut self, chargeback_transaction: &Transaction) -> (r: AccountDelta)
        ensures
            (final(self).log(), r@) == chargeback_step(old(self).log(), *chargeback_transaction),
    {
        if let Some(transaction) = self.transactions.get_mut(&chargeback_transaction.tx_id()) {
            if chargeback_transaction.client_id() != transaction.client_id() {
                return AccountDelta::none();
            }
            if transaction.state == TransactionState::Disputed {
                match transaction.kind {
                    TransactionKind::Deposit { amount }
                    | TransactionKind::Withdrawal { amount } => {
                        transaction.state = TransactionState::Chargeback;
                        AccountDelta::chargeback(amount)
                    },
                    _ => AccountDelta::none(),
                }
            } else {
                AccountDelta::none()
            }
        } else {
            AccountDelta::none()
        }
    }
}

} // verus!
