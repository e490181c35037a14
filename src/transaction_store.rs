//! Storage of deposits and withdrawals by transaction identifier.
use crate::transaction::{Transaction, TransactionID};
use std::collections::hash_map::Entry;
use std::collections::HashMap;
use vstd::prelude::*;

verus! {

broadcast use vstd::std_specs::hash::group_hash_axioms;

/// A map from transaction identifier to transaction.
pub trait Store: Sized {
    /// The stored transactions.
    spec fn log(&self) -> Map<TransactionID, Transaction>;

    /// An empty store.
    fn empty() -> (r: Self)
        ensures
            r.log() == Map::<TransactionID, Transaction>::empty(),
    ;

    /// Stores `transaction` under its identifier, replacing any earlier one.
    fn insert(&mut self, transaction: Transaction)
        ensures
            final(self).log() == old(self).log().insert(transaction.metadata.tx_id, transaction),
    ;

    /// The transaction stored under `tx_id`.
    fn get(&self, tx_id: &TransactionID) -> (r: Option<&Transaction>)
        ensures
            r is Some <==> self.log().contains_key(*tx_id),
            r is Some ==> *r.unwrap() == self.log()[*tx_id],
    ;

    /// The transaction stored under `tx_id`, to change in place.
    fn get_mut(&mut self, tx_id: &TransactionID) -> (r: Option<&mut Transaction>)
        ensures
            r is Some <==> old(self).log().contains_key(*tx_id),
            r is Some ==> *r.unwrap() == old(self).log()[*tx_id] && final(self).log() == old(
                self,
            ).log().insert(*tx_id, *final(r.unwrap())),
            r is None ==> final(self).log() == old(self).log(),
    ;
}

/// A [`Store`] backed by a hash map.
pub struct TransactionStore {
    transactions: HashMap<TransactionID, Transaction>,
}

impl Default for TransactionStore {
    fn default() -> (r: TransactionStore)
        ensures
            r.log() == Map::<TransactionID, Transaction>::empty(),
    {
        TransactionStore::empty()
    }
}

impl Store for TransactionStore {
    closed spec fn log(&self) -> Map<TransactionID, Transaction> {
        self.transactions@
    }

    fn empty() -> (r: TransactionStore) {
        TransactionStore { transactions: HashMap::new() }
    }

    fn insert(&mut self, transaction: Transaction) {
        self.transactions.insert(transaction.tx_id(), transaction);
    }

    fn get(&self, tx_id: &TransactionID) -> (r: Option<&Transaction>) {
        self.transactions.get(tx_id)
    }

    fn get_mut(&mut self, tx_id: &TransactionID) -> (r: Option<&mut Transaction>) {
        match self.transactions.entry(*tx_id) {
            Entry::Occupied(e) => Some(e.into_mut()),
            Entry::Vacant(_) => None,
        }
    }
}

} // verus!
