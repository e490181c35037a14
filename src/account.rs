//! Client accounts and the changes that transactions make to them.
use crate::amount::{in_range, Amount};
use vstd::prelude::*;

verus! {

/// Identifier of a client.
pub type ClientID = u16;

/// Why an account refused a change.
#[derive(Clone, Copy, Debug, PartialEq, Eq, Structural)]
pub enum AccountError {
    /// The account is locked and takes no further change.
    Locked,
    /// The change would leave less than nothing available, and debt is not allowed.
    InsufficientFunds,
    /// A balance would leave the range of an amount.
    Overflow,
}

/// Mathematical model of an [`Account`].
pub struct AccountView {
    pub id: ClientID,
    pub available: int,
    pub held: int,
    pub total: int,
    pub locked: bool,
}

impl AccountView {
    /// The account of `id` as it is first created: all zero and unlocked.
    pub open spec fn fresh(id: ClientID) -> AccountView {
        AccountView { id, available: 0, held: 0, total: 0, locked: false }
    }

    /// The total is the sum of the available and the held funds.
    pub open spec fn balanced(self) -> bool {
        self.total == self.available + self.held
    }
}

/// One client's balances and lock flag.
#[derive(Clone, Copy, Debug)]
pub struct Account {
    pub id: ClientID,
    pub available: Amount,
    pub held: Amount,
    pub total: Amount,
    pub locked: bool,
}

impl View for Account {
    type V = AccountView;

    open spec fn view(&self) -> AccountView {
        AccountView {
            id: self.id,
            available: self.available@,
            held: self.held@,
            total: self.total@,
            locked: self.locked,
        }
    }
}

/// Mathematical model of an [`AccountDelta`].
pub struct DeltaView {
    pub available: Option<int>,
    pub held: Option<int>,
    pub locked: Option<bool>,
    pub can_create_debt: bool,
}

impl DeltaView {
    /// No change.
    pub open spec fn none() -> DeltaView {
        DeltaView { available: None, held: None, locked: None, can_create_debt: false }
    }

    /// `amount` more available.
    pub open spec fn deposit(amount: int) -> DeltaView {
        DeltaView { available: Some(amount), ..DeltaView::none() }
    }

    /// `amount` less available.
    pub open spec fn withdrawal(amount: int) -> DeltaView {
        DeltaView::deposit(-amount)
    }

    /// `amount` moves from held back to available.
    pub open spec fn resolve(amount: int) -> DeltaView {
        DeltaView { available: Some(amount), held: Some(-amount), ..DeltaView::none() }
    }

    /// `amount` moves from available to held, even into debt.
    pub open spec fn dispute_deposit(amount: int) -> DeltaView {
        DeltaView {
            available: Some(-amount),
            held: Some(amount),
            locked: None,
            can_create_debt: true,
        }
    }

    /// `amount` more held.
    pub open spec fn dispute_withdrawal(amount: int) -> DeltaView {
        DeltaView { held: Some(amount), ..DeltaView::none() }
    }

    /// `amount` less held, and the account locked.
    pub open spec fn chargeback(amount: int) -> DeltaView {
        DeltaView { held: Some(-amount), locked: Some(true), ..DeltaView::none() }
    }
}

/// `o`'s value, or zero.
pub open spec fn or_zero(o: Option<int>) -> int {
    match o {
        Some(v) => v,
        None => 0,
    }
}

/// What applying `d` to the account `a` gives: the new account, or the error that leaves
/// `a` as it is.
pub open spec fn apply_outcome(a: AccountView, d: DeltaView) -> Result<AccountView, AccountError> {
    let available = a.available + or_zero(d.available);
    let held = a.held + or_zero(d.held);
    if a.locked {
        Err(AccountError::Locked)
    } else if d.available is Some && !d.can_create_debt && available < 0 {
        Err(AccountError::InsufficientFunds)
    } else if !in_range(available) || !in_range(held) || !in_range(available + held) {
        Err(AccountError::Overflow)
    } else {
        Ok(
            AccountView {
                id: a.id,
                available,
                held,
                total: available + held,
                locked: match d.locked {
                    Some(l) => l,
                    None => a.locked,
                },
            },
        )
    }
}

impl Account {
    /// A fresh account for `id`.
    pub fn new(id: ClientID) -> (r: Account)
        ensures
            r@ == AccountView::fresh(id),
    {
        Account {
            id,
            available: Amount::zero(),
            held: Amount::zero(),
            total: Amount::zero(),
            locked: false,
        }
    }

    /// Applies `change` when the account is not locked; on an error nothing changes.
    /// The total is recomputed as available plus held on every success.
    pub fn apply(&mut self, change: AccountDelta) -> (r: Result<(), AccountError>)
        ensures
            match apply_outcome(old(self)@, change@) {
                Ok(a) => r is Ok && final(self)@ == a,
                Err(e) => r == Err::<(), AccountError>(e) && *final(self) == *old(self),
            },
            r is Ok ==> final(self)@.balanced(),
            old(self)@.balanced() ==> final(self)@.balanced(),
            old(self).locked ==> r == Err::<(), AccountError>(AccountError::Locked),
    {
        if self.locked {
            return Err(AccountError::Locked);
        }
        self.available.bounded();
        self.held.bounded();
        let mut available = self.available;
        if let Some(delta) = change.available {
            let can_create_debt = match change.can_create_debt {
                Some(b) => b,
                None => false,
            };
            match available.checked_add(delta) {
                Some(sum) => {
                    if !can_create_debt && sum.is_negative() {
                        return Err(AccountError::InsufficientFunds);
                    }
                    available = sum;
                },
                None => {
                    available.bounded();
                    delta.bounded();
                    if !can_create_debt && (delta.is_negative()) {
                        return Err(AccountError::InsufficientFunds);
                    }
                    return Err(AccountError::Overflow);
                },
            }
        }
        let mut held = self.held;
        if let Some(delta) = change.held {
            match held.checked_add(delta) {
                Some(sum) => {
                    held = sum;
                },
                None => {
                    return Err(AccountError::Overflow);
                },
            }
        }
        let total = match available.checked_add(held) {
            Some(sum) => sum,
            None => {
                return Err(AccountError::Overflow);
            },
        };
        self.available = available;
        self.held = held;
        self.total = total;
        if let Some(locked) = change.locked {
            self.locked = locked;
        }
        Ok(())
    }
}

/// A requested change of an account: funds to add to available and to held, a new lock
/// state, and whether available may go below zero.
#[derive(Clone, Copy, Debug)]
pub struct AccountDelta {
    pub available: Option<Amount>,
    pub held: Option<Amount>,
    pub locked: Option<bool>,
    /// Set only for a dispute of a deposit whose funds may already have been withdrawn.
    pub can_create_debt: Option<bool>,
}

/// The value of an optional amount.
pub open spec fn amount_view(o: Option<Amount>) -> Option<int> {
    match o {
        Some(a) => Some(a@),
        None => None,
    }
}

impl View for AccountDelta {
    type V = DeltaView;

    open spec fn view(&self) -> DeltaView {
        DeltaView {
            available: amount_view(self.available),
            held: amount_view(self.held),
            locked: self.locked,
            can_create_debt: self.can_create_debt == Some(true),
        }
    }
}

impl AccountDelta {
    /// No change.
    pub fn none() -> (r: AccountDelta)
        ensures
            r.available is None && r.held is None && r.locked is None && r.can_create_debt is None,
            r@ == DeltaView::none(),
    {
        AccountDelta { available: None, held: None, locked: None, can_create_debt: None }
    }

    /// `amount` more available.
    pub fn deposit(amount: Amount) -> (r: AccountDelta)
        ensures
            r.available == Some(amount),
            r.held is None && r.locked is None && r.can_create_debt is None,
            r@ == DeltaView::deposit(amount@),
    {
        AccountDelta { available: Some(amount), ..AccountDelta::none() }
    }

    /// `amount` less available.
    pub fn withdrawal(amount: Amount) -> (r: AccountDelta)
        ensures
            r@ == DeltaView::withdrawal(amount@),
            r.available is Some,
            r.held is None && r.locked is None && r.can_create_debt is None,
    {
        AccountDelta::deposit(amount.neg())
    }

    /// `amount` moves from held back to available.
    pub fn resolve(amount: Amount) -> (r: AccountDelta)
        ensures
            r@ == DeltaView::resolve(amount@),
            r.available == Some(amount),
            r.held is Some,
            r.locked is None && r.can_create_debt is None,
    {
        AccountDelta { available: Some(amount), held: Some(amount.neg()), ..AccountDelta::none() }
    }

    /// `amount` moves from available to held; available may go below zero.
    pub fn dispute_deposit(amount: Amount) -> (r: AccountDelta)
        ensures
            r@ == DeltaView::dispute_deposit(amount@),
            r.available is Some,
            r.held == Some(amount),
            r.locked is None && r.can_create_debt == Some(true),
    {
        AccountDelta {
            available: Some(amount.neg()),
            held: Some(amount),
            can_create_debt: Some(true),
            ..AccountDelta::none()
        }
    }

    /// `amount` more held.
    pub fn dispute_withdrawal(amount: Amount) -> (r: AccountDelta)
        ensures
            r@ == DeltaView::dispute_withdrawal(amount@),
            r.held == Some(amount),
            r.available is None && r.locked is None && r.can_create_debt is None,
    {
        AccountDelta { held: Some(amount), ..AccountDelta::none() }
    }

    /// `amount` less held, and the account locked.
    pub fn chargeback(amount: Amount) -> (r: AccountDelta)
        ensures
            r@ == DeltaView::chargeback(amount@),
            r.held is Some,
            r.locked == Some(true),
            r.available is None && r.can_create_debt is None,
    {
        AccountDelta { held: Some(amount.neg()), locked: Some(true), ..AccountDelta::none() }
    }
}

} // verus!
