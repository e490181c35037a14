//! Runs transactions one at a time against the ledger of accounts.
use crate::account::{apply_outcome, Account, AccountError, AccountView, ClientID, DeltaView};
use crate::account_store;
use crate::transaction::{
    moves_forward, Transaction, TransactionID, TransactionKind, TransactionState,
};
use crate::transaction_processor::{
    disputable, dispute_of_undisputable_produces_nothing, foreign_reference_produces_nothing, produce_moves_lifecycle_forward, produce_step,
    report_step, settling_undisputed_produces_nothing, TransactionProcessor,
};
use crate::transaction_store;
use vstd::prelude::*;

verus! {

/// The models of the accounts of a ledger.
pub open spec fn ledger_view(ledger: Map<ClientID, Account>) -> Map<ClientID, AccountView> {
    ledger.map_values(|a: Account| a@)
}

/// The account of client `c`: the one in `ledger`, or a fresh one.
pub open spec fn account_of(ledger: Map<ClientID, AccountView>, c: ClientID) -> AccountView {
    if ledger.contains_key(c) {
        ledger[c]
    } else {
        AccountView::fresh(c)
    }
}

/// `ledger` once client `c` has an account: unchanged if it had one.
pub open spec fn with_account(ledger: Map<ClientID, AccountView>, c: ClientID) -> Map<
    ClientID,
    AccountView,
> {
    ledger.insert(c, account_of(ledger, c))
}

/// Every account is stored under its own client and has total equal to available plus held.
pub open spec fn balanced_ledger(ledger: Map<ClientID, AccountView>) -> bool {
    forall|c: ClientID| #[trigger]
        ledger.contains_key(c) ==> ledger[c].balanced() && ledger[c].id == c
}

/// The log, the ledger and the outcome after the engine processes `t`.
///
/// The transaction's change is produced against the log, applied to the account of its
/// client (created if need be), and the outcome is reported back to the log.
pub open spec fn engine_step(
    log: Map<TransactionID, Transaction>,
    ledger: Map<ClientID, AccountView>,
    t: Transaction,
) -> (Map<TransactionID, Transaction>, Map<ClientID, AccountView>, Result<(), AccountError>) {
    let c = t.metadata.client_id;
    let id = t.metadata.tx_id;
    let (log1, d) = produce_step(log, t);
    let acc = account_of(ledger, c);
    match apply_outcome(acc, d) {
        Ok(a) => (report_step(log1, id, TransactionState::Succeeded), ledger.insert(c, a), Ok(())),
        Err(e) => (report_step(log1, id, TransactionState::Failed), ledger.insert(c, acc), Err(e)),
    }
}

/// Processing a transaction keeps every account balanced: at every point, each account's
/// total is its available plus its held funds.
pub proof fn step_keeps_ledger_balanced(
    log: Map<TransactionID, Transaction>,
    ledger: Map<ClientID, AccountView>,
    t: Transaction,
)
    requires
        balanced_ledger(ledger),
    ensures
        balanced_ledger(engine_step(log, ledger, t).1),
{
    let c = t.metadata.client_id;
    let after = engine_step(log, ledger, t).1;
    assert forall|k: ClientID| #[trigger] after.contains_key(k) implies after[k].balanced()
        && after[k].id == k by {
        if k != c {
            assert(ledger.contains_key(k));
        }
    }
}

/// Once an account is locked, no transaction changes it: its funds stay as they are and it
/// stays locked.
pub proof fn locked_account_is_frozen(
    log: Map<TransactionID, Transaction>,
    ledger: Map<ClientID, AccountView>,
    t: Transaction,
    c: ClientID,
)
    requires
        ledger.contains_key(c),
        ledger[c].locked,
    ensures
        engine_step(log, ledger, t).1.contains_key(c),
        engine_step(log, ledger, t).1[c] == ledger[c],
{
}

/// A logged transaction's state only moves forward: `New` to `Succeeded` or `Failed`,
/// and on to `Disputed` and then `Resolved` or `Chargeback`, never back and never into
/// `Disputed` twice. This holds for every transaction but one that the step logs anew
/// under the same identifier, which replaces it.
pub proof fn step_moves_lifecycle_forward(
    log: Map<TransactionID, Transaction>,
    ledger: Map<ClientID, AccountView>,
    t: Transaction,
    id: TransactionID,
)
    requires
        log.contains_key(id),
        !((t.kind is Deposit || t.kind is Withdrawal) && t.metadata.tx_id == id),
    ensures
        engine_step(log, ledger, t).0.contains_key(id),
        moves_forward(log[id].state, engine_step(log, ledger, t).0[id].state),
        engine_step(log, ledger, t).0[id].kind == log[id].kind,
        engine_step(log, ledger, t).0[id].metadata == log[id].metadata,
{
    produce_moves_lifecycle_forward(log, t, id);
}

/// A deposit or withdrawal is logged and leaves the step `Succeeded` or `Failed`, as its
/// change went through or not.
pub proof fn step_reports_new_transaction(
    log: Map<TransactionID, Transaction>,
    ledger: Map<ClientID, AccountView>,
    t: Transaction,
)
    requires
        t.kind is Deposit || t.kind is Withdrawal,
    ensures
        engine_step(log, ledger, t).0.contains_key(t.metadata.tx_id),
        engine_step(log, ledger, t).0[t.metadata.tx_id].state == (if engine_step(
            log,
            ledger,
            t,
        ).2 is Ok {
            TransactionState::Succeeded
        } else {
            TransactionState::Failed
        }),
{
}

/// An empty change leaves a balanced account as it is.
proof fn empty_change_keeps_account(a: AccountView)
    requires
        a.balanced(),
    ensures
        apply_outcome(a, DeltaView::none()) is Ok ==> apply_outcome(a, DeltaView::none())->Ok_0
            == a,
{
}

/// A resolve or chargeback of a transaction that is not under dispute changes no account;
/// so submitting one again after it took effect changes nothing either. (The submitting
/// client gets an account if it had none, as with every transaction.)
pub proof fn settling_undisputed_changes_nothing(
    log: Map<TransactionID, Transaction>,
    ledger: Map<ClientID, AccountView>,
    t: Transaction,
)
    requires
        balanced_ledger(ledger),
        t.kind is Resolve || t.kind is Chargeback,
        !(log.contains_key(t.metadata.tx_id) && log[t.metadata.tx_id].state
            == TransactionState::Disputed),
    ensures
        engine_step(log, ledger, t).1 == with_account(ledger, t.metadata.client_id),
{
    settling_undisputed_produces_nothing(log, t);
    empty_change_keeps_account(account_of(ledger, t.metadata.client_id));
}

/// A dispute of a transaction that failed, or that was already disputed, resolved or
/// charged back, changes no account. (The submitting client gets an account if it had
/// none, as with every transaction.)
pub proof fn dispute_of_undisputable_changes_nothing(
    log: Map<TransactionID, Transaction>,
    ledger: Map<ClientID, AccountView>,
    t: Transaction,
)
    requires
        balanced_ledger(ledger),
        t.kind is Dispute,
        log.contains_key(t.metadata.tx_id),
        !disputable(log[t.metadata.tx_id].state),
    ensures
        engine_step(log, ledger, t).1 == with_account(ledger, t.metadata.client_id),
{
    dispute_of_undisputable_produces_nothing(log, t);
    empty_change_keeps_account(account_of(ledger, t.metadata.client_id));
}

/// Between transactions no logged transaction is `New`: each step reports the outcome of
/// the deposit or withdrawal it logs.
pub proof fn step_leaves_no_transaction_new(
    log: Map<TransactionID, Transaction>,
    ledger: Map<ClientID, AccountView>,
    t: Transaction,
)
    requires
        forall|id: TransactionID| #[trigger]
            log.contains_key(id) ==> log[id].state != TransactionState::New,
    ensures
        forall|id: TransactionID| #[trigger]
            engine_step(log, ledger, t).0.contains_key(id) ==> engine_step(log, ledger, t).0[id].state
                != TransactionState::New,
{
    let after = engine_step(log, ledger, t).0;
    assert forall|id: TransactionID| #[trigger]
        after.contains_key(id) implies after[id].state != TransactionState::New by {
        if id != t.metadata.tx_id {
            produce_moves_lifecycle_forward(log, t, id);
        }
    }
}

/// A dispute, resolve or chargeback that refers to another client's transaction changes
/// no account. (The submitting client gets an account if it had none, as with every
/// transaction.)
pub proof fn foreign_reference_changes_nothing(
    log: Map<TransactionID, Transaction>,
    ledger: Map<ClientID, AccountView>,
    t: Transaction,
)
    requires
        balanced_ledger(ledger),
        t.kind is Dispute || t.kind is Resolve || t.kind is Chargeback,
        log.contains_key(t.metadata.tx_id),
        log[t.metadata.tx_id].metadata.client_id != t.metadata.client_id,
    ensures
        engine_step(log, ledger, t).1 == with_account(ledger, t.metadata.client_id),
{
    foreign_reference_produces_nothing(log, t);
    empty_change_keeps_account(account_of(ledger, t.metadata.client_id));
}

/// Entry point of transaction processing: produces each transaction's change, applies it
/// to the client's account, and reports the outcome back to the log.
pub struct Engine<T: transaction_store::Store, A: account_store::Store> {
    transactions: TransactionProcessor<T>,
    accounts: A,
}

impl<T: transaction_store::Store, A: account_store::Store> Default for Engine<T, A> {
    fn default() -> (r: Engine<T, A>)
        ensures
            r.log() == Map::<TransactionID, Transaction>::empty(),
            r.ledger() == Map::<ClientID, AccountView>::empty(),
            r.wf(),
    {
        Engine::new()
    }
}

impl<T: transaction_store::Store, A: account_store::Store> Engine<T, A> {
    /// The logged deposits and withdrawals.
    pub closed spec fn log(&self) -> Map<TransactionID, Transaction> {
        self.transactions.log()
    }

    /// The accounts by client.
    pub closed spec fn ledger(&self) -> Map<ClientID, AccountView> {
        ledger_view(self.accounts.ledger())
    }

    /// Every account is balanced and stored under its own client.
    pub open spec fn wf(&self) -> bool {
        balanced_ledger(self.ledger())
    }

    /// An engine with no transactions and no accounts.
    pub fn new() -> (r: Engine<T, A>)
        ensures
            r.log() == Map::<TransactionID, Transaction>::empty(),
            r.ledger() == Map::<ClientID, AccountView>::empty(),
            r.wf(),
    {
        let r = Engine { transactions: TransactionProcessor::new(), accounts: A::empty() };
        proof {
            assert(r.ledger() =~= Map::<ClientID, AccountView>::empty());
        }
        r
    }

    /// Processes `transaction` and applies its change to the client's account. A refused
    /// change is returned as the error, and marks the transaction `Failed`.
    pub fn process_transaction(&mut self, transaction: Transaction) -> (r: Result<(), AccountError>)
        ensures
            (final(self).log(), final(self).ledger(), r) == engine_step(
                old(self).log(),
                old(self).ledger(),
                transaction,
            ),
            old(self).wf() ==> final(self).wf(),
    {
        let client_id = transaction.client_id();
        let tx_id = transaction.tx_id();
        let ghost ledger0 = self.accounts.ledger();
        let change = self.transactions.produce_delta(transaction);
        let account = self.accounts.get_mut_or_new(client_id);
        let result = account.apply(change);
        proof {
            assert(ledger_view(self.accounts.ledger()) =~= ledger_view(ledger0).insert(
                client_id,
                account@,
            ));
            if old(self).wf() {
                step_keeps_ledger_balanced(old(self).log(), old(self).ledger(), transaction);
            }
        }
        match result {
            Ok(_) => {
                self.transactions.succeed(tx_id);
                Ok(())
            },
            Err(e) => {
                self.transactions.failed(tx_id);
                Err(e)
            },
        }
    }

    /// All accounts.
    pub fn accounts(&self) -> (r: &A::Storage)
        ensures
            ledger_view(r@) == self.ledger(),
    {
        self.accounts.accounts()
    }
}

} // verus!
