//! Storage of accounts by client, created on first reference.
use crate::account::{Account, AccountView, ClientID};
use std::collections::HashMap;
use vstd::prelude::*;

verus! {

broadcast use vstd::std_specs::hash::group_hash_axioms;

/// A map from client to account.
pub trait Store: Sized {
    /// How the accounts are handed out for reading.
    type Storage: View<V = Map<ClientID, Account>>;

    /// The stored accounts.
    spec fn ledger(&self) -> Map<ClientID, Account>;

    /// An empty store.
    fn empty() -> (r: Self)
        ensures
            r.ledger() == Map::<ClientID, Account>::empty(),
    ;

    /// The account of `client_id`, created fresh if there is none yet.
    fn get_mut_or_new(&mut self, client_id: ClientID) -> (r: &mut Account)
        ensures
            old(self).ledger().contains_key(client_id) ==> *r == old(self).ledger()[client_id],
            !old(self).ledger().contains_key(client_id) ==> (*r)@ == AccountView::fresh(
                client_id,
            ),
            final(self).ledger() == old(self).ledger().insert(client_id, *final(r)),
    ;

    /// All accounts.
    fn accounts(&self) -> (r: &Self::Storage)
        ensures
            r@ == self.ledger(),
    ;
}

/// A [`Store`] backed by a hash map.
pub struct AccountStore {
    accounts: HashMap<ClientID, Account>,
}

impl Default for AccountStore {
    fn default() -> (r: AccountStore)
        ensures
            r.ledger() == Map::<ClientID, Account>::empty(),
    {
        AccountStore::empty()
    }
}

impl Store for AccountStore {
    type Storage = HashMap<ClientID, Account>;

    closed spec fn ledger(&self) -> Map<ClientID, Account> {
        self.accounts@
    }

    fn empty() -> (r: AccountStore) {
        AccountStore { accounts: HashMap::new() }
    }

    fn get_mut_or_new(&mut self, client_id: ClientID) -> (r: &mut Account) {
        self.accounts.entry(client_id).or_insert(Account::new(client_id))
    }

    fn accounts(&self) -> (r: &HashMap<ClientID, Account>) {
        &self.accounts
    }
}

} // verus!
