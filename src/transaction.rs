//! Incoming transactions and their lifecycle.
use crate::account::ClientID;
use crate::amount::Amount;
use vstd::prelude::*;

verus! {

/// Identifier of a transaction.
pub type TransactionID = u32;

/// A submitted transaction: what it does, whose it is, and where it is in its lifecycle.
#[derive(Clone, Copy, Debug)]
pub struct Transaction {
    pub kind: TransactionKind,
    pub metadata: TransactionMetadata,
    pub state: TransactionState,
}

impl Transaction {
    /// The transaction's identifier.
    pub fn tx_id(&self) -> (r: TransactionID)
        ensures
            r == self.metadata.tx_id,
    {
        self.metadata.tx_id
    }

    /// The client the transaction belongs to.
    pub fn client_id(&self) -> (r: ClientID)
        ensures
            r == self.metadata.client_id,
    {
        self.metadata.client_id
    }
}

/// What a transaction does.
#[derive(Clone, Copy, Debug)]
pub enum TransactionKind {
    Deposit { amount: Amount },
    Withdrawal { amount: Amount },
    Dispute,
    Resolve,
    Chargeback,
}

/// The client and transaction identifiers of a transaction.
#[derive(Clone, Copy, Debug)]
pub struct TransactionMetadata {
    pub client_id: ClientID,
    pub tx_id: TransactionID,
}

/// Lifecycle of a deposit or withdrawal.
///
/// `New` until the engine reports whether its own change went through (`Succeeded` or
/// `Failed`); independently, `Disputed` and then `Resolved` or `Chargeback`.
#[derive(Clone, Copy, Debug, PartialEq, Eq, Structural)]
pub enum TransactionState {
    New,
    Succeeded,
    Failed,
    Disputed,
    Resolved,
    Chargeback,
}

impl Default for TransactionState {
    fn default() -> (r: TransactionState)
        ensures
            r == TransactionState::New,
    {
        TransactionState::New
    }
}

/// `c` with ASCII upper-case letters made lower-case.
pub open spec fn ascii_lower(c: u8) -> u8 {
    if 65 <= c <= 90 {
        (c + 32) as u8
    } else {
        c
    }
}

/// `s` with ASCII upper-case letters made lower-case.
pub open spec fn lower(s: Seq<u8>) -> Seq<u8> {
    s.map_values(|c: u8| ascii_lower(c))
}

/// `deposit` in ASCII.
pub open spec fn deposit_name() -> Seq<u8> {
    seq![100u8, 101u8, 112u8, 111u8, 115u8, 105u8, 116u8]
}

/// `withdrawal` in ASCII.
pub open spec fn withdrawal_name() -> Seq<u8> {
    seq![119u8, 105u8, 116u8, 104u8, 100u8, 114u8, 97u8, 119u8, 97u8, 108u8]
}

/// `dispute` in ASCII.
pub open spec fn dispute_name() -> Seq<u8> {
    seq![100u8, 105u8, 115u8, 112u8, 117u8, 116u8, 101u8]
}

/// `resolve` in ASCII.
pub open spec fn resolve_name() -> Seq<u8> {
    seq![114u8, 101u8, 115u8, 111u8, 108u8, 118u8, 101u8]
}

/// `chargeback` in ASCII.
pub open spec fn chargeback_name() -> Seq<u8> {
    seq![99u8, 104u8, 97u8, 114u8, 103u8, 101u8, 98u8, 97u8, 99u8, 107u8]
}

/// The kind of transaction that an input record names, its type matched regardless of
/// case; an amount is needed by a deposit or withdrawal and ignored otherwise.
pub open spec fn record_kind(name: Seq<u8>, amount: Option<Amount>) -> Option<TransactionKind> {
    let n = lower(name);
    if n == deposit_name() {
        match amount {
            Some(a) => Some(TransactionKind::Deposit { amount: a }),
            None => None,
        }
    } else if n == withdrawal_name() {
        match amount {
            Some(a) => Some(TransactionKind::Withdrawal { amount: a }),
            None => None,
        }
    } else if n == dispute_name() {
        Some(TransactionKind::Dispute)
    } else if n == resolve_name() {
        Some(TransactionKind::Resolve)
    } else if n == chargeback_name() {
        Some(TransactionKind::Chargeback)
    } else {
        None
    }
}

/// Whether `s` is `word` when its ASCII letters are made lower-case.
fn matches_lowered(s: &[u8], word: &Vec<u8>) -> (r: bool)
    ensures
        r == (lower(s@) == word@),
{
    if s.len() != word.len() {
        return false;
    }
    let mut i: usize = 0;
    while i < s.len()
        invariant
            s@.len() == word@.len(),
            0 <= i <= s@.len(),
            forall|j: int| 0 <= j < i ==> ascii_lower(#[trigger] s@[j]) == word@[j],
        decreases s@.len() - i,
    {
        let c = s[i];
        let l: u8 = if 65 <= c && c <= 90 {
            c + 32
        } else {
            c
        };
        if l != word[i] {
            assert(lower(s@)[i as int] != word@[i as int]);
            return false;
        }
        i = i + 1;
    }
    assert(lower(s@) =~= word@);
    true
}

impl TransactionKind {
    /// The kind that an input record's type and amount describe; `None` for an unknown
    /// type or a deposit or withdrawal without an amount.
    pub fn from_record(name: &[u8], amount: Option<Amount>) -> (r: Option<TransactionKind>)
        ensures
            r == record_kind(name@, amount),
    {
        let deposit: Vec<u8> = vec![100u8, 101u8, 112u8, 111u8, 115u8, 105u8, 116u8];
        let withdrawal: Vec<u8> = vec![119u8, 105u8, 116u8, 104u8, 100u8, 114u8, 97u8, 119u8, 97u8, 108u8];
        let dispute: Vec<u8> = vec![100u8, 105u8, 115u8, 112u8, 117u8, 116u8, 101u8];
        let resolve: Vec<u8> = vec![114u8, 101u8, 115u8, 111u8, 108u8, 118u8, 101u8];
        let chargeback: Vec<u8> = vec![99u8, 104u8, 97u8, 114u8, 103u8, 101u8, 98u8, 97u8, 99u8, 107u8];
        proof {
            assert(deposit@ =~= deposit_name());
            assert(withdrawal@ =~= withdrawal_name());
            assert(dispute@ =~= dispute_name());
            assert(resolve@ =~= resolve_name());
            assert(chargeback@ =~= chargeback_name());
        }
        if matches_lowered(name, &deposit) {
            match amount {
                Some(a) => Some(TransactionKind::Deposit { amount: a }),
                None => None,
            }
        } else if matches_lowered(name, &withdrawal) {
            match amount {
                Some(a) => Some(TransactionKind::Withdrawal { amount: a }),
                None => None,
            }
        } else if matches_lowered(name, &dispute) {
            Some(TransactionKind::Dispute)
        } else if matches_lowered(name, &resolve) {
            Some(TransactionKind::Resolve)
        } else if matches_lowered(name, &chargeback) {
            Some(TransactionKind::Chargeback)
        } else {
            None
        }
    }
}

impl Transaction {
    /// The transaction that an input record describes, in state `New`; `None` when the
    /// record's type and amount describe no kind of transaction.
    pub fn from_record(
        name: &[u8],
        client_id: ClientID,
        tx_id: TransactionID,
        amount: Option<Amount>,
    ) -> (r: Option<Transaction>)
        ensures
            r is Some <==> record_kind(name@, amount) is Some,
            r is Some ==> r.unwrap() == (Transaction {
                kind: record_kind(name@, amount)->0,
                metadata: TransactionMetadata { client_id, tx_id },
                state: TransactionState::New,
            }),
    {
        match TransactionKind::from_record(name, amount) {
            Some(kind) => Some(
                Transaction {
                    kind,
                    metadata: TransactionMetadata { client_id, tx_id },
                    state: TransactionState::New,
                },
            ),
            None => None,
        }
    }
}

/// One step of the lifecycle takes a transaction from `from` to `to`: it stays, or
/// `New` is reported `Succeeded` or `Failed`, or a `New` or `Succeeded` transaction is
/// disputed, or a disputed one is resolved or charged back. `Failed`, `Resolved` and
/// `Chargeback` are final.
pub open spec fn moves_forward(from: TransactionState, to: TransactionState) -> bool {
    ||| from == to
    ||| from == TransactionState::New && (to == TransactionState::Succeeded || to
        == TransactionState::Failed || to == TransactionState::Disputed)
    ||| from == TransactionState::Succeeded && to == TransactionState::Disputed
    ||| from == TransactionState::Disputed && (to == TransactionState::Resolved || to
        == TransactionState::Chargeback)
}

} // verus!
