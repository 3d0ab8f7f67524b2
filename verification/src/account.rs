//! Client accounts and the statement line printed for each of them.
use crate::amount::{
    exact_difference, exact_sum, add_fits, checked_add, checked_sub, decimal_checked_add, decimal_checked_sub, round_dp,
    round_half_even, sub_fits, value, Amount, Repr,
};
use std::collections::HashMap;
use vstd::prelude::*;

verus! {

/// In-memory store of client accounts, keyed by client id.
pub type Accounts = HashMap<u16, Account>;

/// An account's balances and lock, as plain values.
pub struct AccountView {
    pub available: Repr,
    pub held: Repr,
    pub locked: bool,
}

/// The balances of a fresh account: nothing available, nothing held, not locked.
pub open spec fn fresh_account() -> AccountView {
    AccountView {
        available: (0i128, 0u32, false),
        held: (0i128, 0u32, false),
        locked: false,
    }
}

/// A client's funds: what is available, what is held back by disputes, and whether a
/// chargeback has frozen the account.
#[derive(Clone, Copy, Debug)]
pub struct Account {
    available: Amount,
    held: Amount,
    locked: bool,
}

impl View for Account {
    type V = AccountView;

    closed spec fn view(&self) -> AccountView {
        AccountView { available: self.available@, held: self.held@, locked: self.locked }
    }
}

impl Account {
    pub fn new() -> (a: Account)
        ensures
            a@ == fresh_account(),
    {
        Account { available: Amount::zero(), held: Amount::zero(), locked: false }
    }

    pub fn available(&self) -> (a: Amount)
        ensures
            a@ == self@.available,
    {
        self.available
    }

    pub fn held(&self) -> (h: Amount)
        ensures
            h@ == self@.held,
    {
        self.held
    }

    /// Available plus held funds.
    pub fn total(&self) -> (t: Amount)
        requires
            decimal_checked_add(self@.available, self@.held) is Some,
        ensures
            decimal_checked_add(self@.available, self@.held) == Some(t@),
            add_fits(self@.available, self@.held) ==> value(t@) == value(self@.available) + value(
                self@.held,
            ),
    {
        match checked_add(self.available, self.held) {
            Some(t) => t,
            None => self.available,
        }
    }

    pub fn locked(&self) -> (l: bool)
        ensures
            l == self@.locked,
    {
        self.locked
    }

    /// Adds `amount` to the available funds.
    pub fn credit(&mut self, amount: Amount)
        requires
            decimal_checked_add(old(self)@.available, amount@) is Some,
        ensures
            decimal_checked_add(old(self)@.available, amount@) == Some(final(self)@.available),
            final(self)@.held == old(self)@.held,
            final(self)@.locked == old(self)@.locked,
            add_fits(old(self)@.available, amount@) ==> value(final(self)@.available) == value(
                old(self)@.available,
            ) + value(amount@),
            add_fits(old(self)@.available, amount@) ==> exact_sum(old(self)@.available, amount@),
    {
        if let Some(a) = checked_add(self.available, amount) {
            self.available = a;
        }
    }

    /// Takes `amount` from the available funds.
    pub fn debit(&mut self, amount: Amount)
        requires
            decimal_checked_sub(old(self)@.available, amount@) is Some,
        ensures
            decimal_checked_sub(old(self)@.available, amount@) == Some(final(self)@.available),
            final(self)@.held == old(self)@.held,
            final(self)@.locked == old(self)@.locked,
            sub_fits(old(self)@.available, amount@) ==> value(final(self)@.available) == value(
                old(self)@.available,
            ) - value(amount@),
            sub_fits(old(self)@.available, amount@) ==> exact_difference(old(self)@.available, amount@),
    {
        if let Some(a) = checked_sub(self.available, amount) {
            self.available = a;
        }
    }

    /// Adds `amount` to the held funds.
    pub fn hold(&mut self, amount: Amount)
        requires
            decimal_checked_add(old(self)@.held, amount@) is Some,
        ensures
            decimal_checked_add(old(self)@.held, amount@) == Some(final(self)@.held),
            final(self)@.available == old(self)@.available,
            final(self)@.locked == old(self)@.locked,
            add_fits(old(self)@.held, amount@) ==> value(final(self)@.held) == value(
                old(self)@.held,
            ) + value(amount@),
            add_fits(old(self)@.held, amount@) ==> exact_sum(old(self)@.held, amount@),
    {
        if let Some(h) = checked_add(self.held, amount) {
            self.held = h;
        }
    }

    /// Takes `amount` from the held funds.
    pub fn release(&mut self, amount: Amount)
        requires
            decimal_checked_sub(old(self)@.held, amount@) is Some,
        ensures
            decimal_checked_sub(old(self)@.held, amount@) == Some(final(self)@.held),
            final(self)@.available == old(self)@.available,
            final(self)@.locked == old(self)@.locked,
            sub_fits(old(self)@.held, amount@) ==> value(final(self)@.held) == value(
                old(self)@.held,
            ) - value(amount@),
            sub_fits(old(self)@.held, amount@) ==> exact_difference(old(self)@.held, amount@),
    {
        if let Some(h) = checked_sub(self.held, amount) {
            self.held = h;
        }
    }

    /// Takes `amount` from the held funds for good and freezes the account.
    pub fn chargeback(&mut self, amount: Amount)
        requires
            decimal_checked_sub(old(self)@.held, amount@) is Some,
        ensures
            decimal_checked_sub(old(self)@.held, amount@) == Some(final(self)@.held),
            final(self)@.available == old(self)@.available,
            final(self)@.locked,
            sub_fits(old(self)@.held, amount@) ==> value(final(self)@.held) == value(
                old(self)@.held,
            ) - value(amount@),
            sub_fits(old(self)@.held, amount@) ==> exact_difference(old(self)@.held, amount@),
    {
        if let Some(h) = checked_sub(self.held, amount) {
            self.held = h;
        }
        self.locked = true;
    }
}

/// The number of digits after the point in a statement.
pub const STATEMENT_DIGITS: u32 = 4;

/// One line of the statement: a client's balances rounded to four digits after the
/// point, ties to even.
#[derive(Clone, Copy, Debug)]
pub struct AccountOutput {
    pub client: u16,
    pub available: Amount,
    pub held: Amount,
    pub total: Amount,
    pub locked: bool,
}

impl AccountOutput {
    pub fn new(client: u16, account: &Account) -> (o: AccountOutput)
        requires
            decimal_checked_add(account@.available, account@.held) is Some,
        ensures
            o.client == client,
            o.available@ == round_half_even(account@.available, STATEMENT_DIGITS),
            o.held@ == round_half_even(account@.held, STATEMENT_DIGITS),
            o.total@ == round_half_even(
                decimal_checked_add(account@.available, account@.held)->0,
                STATEMENT_DIGITS,
            ),
            o.locked == account@.locked,
    {
        AccountOutput {
            client,
            available: round_dp(account.available(), STATEMENT_DIGITS),
            held: round_dp(account.held(), STATEMENT_DIGITS),
            total: round_dp(account.total(), STATEMENT_DIGITS),
            locked: account.locked(),
        }
    }

    /// The statement line of `account`, or nothing where its total is more than a
    /// decimal can hold.
    pub fn try_new(client: u16, account: &Account) -> (o: Option<AccountOutput>)
        ensures
            o is Some <==> decimal_checked_add(account@.available, account@.held) is Some,
            o matches Some(line) ==> {
                &&& line.client == client
                &&& line.available@ == round_half_even(account@.available, STATEMENT_DIGITS)
                &&& line.held@ == round_half_even(account@.held, STATEMENT_DIGITS)
                &&& line.total@ == round_half_even(
                    decimal_checked_add(account@.available, account@.held)->0,
                    STATEMENT_DIGITS,
                )
                &&& line.locked == account@.locked
            },
    {
        match checked_add(account.available(), account.held()) {
            Some(_) => Some(AccountOutput::new(client, account)),
            None => None,
        }
    }
}

} // verus!
