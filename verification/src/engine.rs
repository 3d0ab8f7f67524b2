//! The engine: applies transactions to client accounts, keeping a ledger of deposits
//! and withdrawals for later disputes.
use crate::account::{Account, AccountView, Accounts};
use crate::amount::{checked_add, checked_sub, less_than, value};
use crate::model::{
    abs_account, abs_accounts, abs_engine, abs_ledger, abs_record, account_of, apply_fits,
    chargeback_effect, deposit_effect, dispute_effect, empty_engine, lemma_run_fits_prefix,
    resolve_effect, run, run_fits, step, step_fits, vaccount_of, vapply, vempty_engine, vrun,
    vstep, withdrawal_effect, EngineView, Outcome, Rejection, VAccount, VRecord,
};
use crate::soundness::{
    all_non_negative, lemma_run_keeps_sound, lemma_sound_balances_non_negative, balanced, fresh_record_id, lemma_step_keeps_balanced, lemma_step_keeps_sound, non_negative,
    sound,
};
use crate::transaction::{RecordView, Transaction, TxRecord, TxStatus, TxType, TxView};
use std::collections::HashMap;
use vstd::prelude::*;

verus! {

/// In-memory ledger of processed transactions for look-up during dispute, resolve and
/// chargeback, keyed by transaction id.
pub type TxLedger = HashMap<u32, TxRecord>;

pub open spec fn ledger_view(m: Map<u32, TxRecord>) -> Map<u32, RecordView> {
    m.map_values(|r: TxRecord| r@)
}

pub open spec fn accounts_view(m: Map<u16, Account>) -> Map<u16, AccountView> {
    m.map_values(|a: Account| a@)
}

proof fn lemma_ledger_view_insert(m: Map<u32, TxRecord>, k: u32, r: TxRecord)
    ensures
        ledger_view(m.insert(k, r)) == ledger_view(m).insert(k, r@),
{
    assert(ledger_view(m.insert(k, r)) =~= ledger_view(m).insert(k, r@));
}

proof fn lemma_accounts_view_insert(m: Map<u16, Account>, k: u16, a: Account)
    ensures
        accounts_view(m.insert(k, a)) == accounts_view(m).insert(k, a@),
{
    assert(accounts_view(m.insert(k, a)) =~= accounts_view(m).insert(k, a@));
}

proof fn lemma_abs_ledger_insert(l: Map<u32, RecordView>, k: u32, r: RecordView)
    ensures
        abs_ledger(l.insert(k, r)) == abs_ledger(l).insert(k, abs_record(r)),
{
    assert(abs_ledger(l.insert(k, r)) =~= abs_ledger(l).insert(k, abs_record(r)));
}

proof fn lemma_abs_accounts_insert(m: Map<u16, AccountView>, k: u16, a: AccountView)
    ensures
        abs_accounts(m.insert(k, a)) == abs_accounts(m).insert(k, abs_account(a)),
{
    assert(abs_accounts(m.insert(k, a)) =~= abs_accounts(m).insert(k, abs_account(a)));
}

/// Whether the recorded transaction belongs to the client that sent `tx`.
fn verify_tx_ownership(tx_record: &TxRecord, tx: &Transaction) -> (owned: bool)
    ensures
        owned == (tx_record@.client == tx@.client),
{
    if tx_record.client() != tx.client() {
        return false;
    }
    true
}

fn process_deposit(tx: &Transaction, account: &mut Account, tx_ledger: &mut TxLedger) -> (o:
    Outcome)
    ensures
        (final(account)@, ledger_view(final(tx_ledger)@), o) == deposit_effect(
            old(account)@,
            ledger_view(old(tx_ledger)@),
            tx@,
        ),
        apply_fits(old(account)@, ledger_view(old(tx_ledger)@), tx@) && !old(account)@.locked
            && tx@.tx_type == TxType::Deposit ==> (
        abs_account(final(account)@),
        abs_ledger(ledger_view(final(tx_ledger)@)),
        o,
        ) == vapply(abs_account(old(account)@), abs_ledger(ledger_view(old(tx_ledger)@)), tx@),
{
    let ghost l0 = ledger_view(tx_ledger@);
    let Some(amount) = tx.amount() else {
        return Outcome::Rejected(Rejection::MissingAmount);
    };
    if checked_add(account.available(), amount).is_none() {
        return Outcome::Overflow;
    }
    account.credit(amount);
    let record = TxRecord::from_transaction(tx);
    tx_ledger.insert(tx.tx_id(), record);
    proof {
        lemma_ledger_view_insert(old(tx_ledger)@, tx@.tx, record);
        lemma_abs_ledger_insert(l0, tx@.tx, record@);
    }
    Outcome::Applied
}

fn process_withdrawal(tx: &Transaction, account: &mut Account, tx_ledger: &mut TxLedger) -> (o:
    Outcome)
    ensures
        (final(account)@, ledger_view(final(tx_ledger)@), o) == withdrawal_effect(
            old(account)@,
            ledger_view(old(tx_ledger)@),
            tx@,
        ),
        apply_fits(old(account)@, ledger_view(old(tx_ledger)@), tx@) && !old(account)@.locked
            && tx@.tx_type == TxType::Withdrawal ==> (
        abs_account(final(account)@),
        abs_ledger(ledger_view(final(tx_ledger)@)),
        o,
        ) == vapply(abs_account(old(account)@), abs_ledger(ledger_view(old(tx_ledger)@)), tx@),
{
    let ghost l0 = ledger_view(tx_ledger@);
    let Some(amount) = tx.amount() else {
        return Outcome::Rejected(Rejection::MissingAmount);
    };
    if less_than(account.available(), amount) {
        return Outcome::Rejected(Rejection::InsufficientFunds);
    }
    if checked_sub(account.available(), amount).is_none() {
        return Outcome::Overflow;
    }
    account.debit(amount);
    let record = TxRecord::from_transaction(tx);
    tx_ledger.insert(tx.tx_id(), record);
    proof {
        lemma_ledger_view_insert(old(tx_ledger)@, tx@.tx, record);
        lemma_abs_ledger_insert(l0, tx@.tx, record@);
    }
    Outcome::Applied
}

fn process_dispute(tx: &Transaction, account: &mut Account, tx_ledger: &mut TxLedger) -> (o:
    Outcome)
    ensures
        (final(account)@, ledger_view(final(tx_ledger)@), o) == dispute_effect(
            old(account)@,
            ledger_view(old(tx_ledger)@),
            tx@,
        ),
        apply_fits(old(account)@, ledger_view(old(tx_ledger)@), tx@) && !old(account)@.locked
            && tx@.tx_type == TxType::Dispute ==> (
        abs_account(final(account)@),
        abs_ledger(ledger_view(final(tx_ledger)@)),
        o,
        ) == vapply(abs_account(old(account)@), abs_ledger(ledger_view(old(tx_ledger)@)), tx@),
{
    let ghost l0 = ledger_view(tx_ledger@);
    let mut tx_record = match tx_ledger.get(&tx.tx_id()) {
        Some(r) => *r,
        None => {
            return Outcome::Rejected(Rejection::UnknownTransaction);
        },
    };
    if !verify_tx_ownership(&tx_record, tx) {
        return Outcome::Rejected(Rejection::WrongClient);
    }
    if *tx_record.status() != TxStatus::Normal {
        return Outcome::Rejected(Rejection::InvalidState);
    }
    if *tx_record.tx_type() != TxType::Deposit {
        return Outcome::Rejected(Rejection::NotADeposit);
    }
    if less_than(account.available(), tx_record.amount()) {
        return Outcome::Rejected(Rejection::WouldOverdraw);
    }
    if checked_sub(account.available(), tx_record.amount()).is_none() || checked_add(
        account.held(),
        tx_record.amount(),
    ).is_none() {
        return Outcome::Overflow;
    }
    account.debit(tx_record.amount());
    account.hold(tx_record.amount());
    tx_record.set_status(TxStatus::Disputed);
    tx_ledger.insert(tx.tx_id(), tx_record);
    proof {
        lemma_ledger_view_insert(old(tx_ledger)@, tx@.tx, tx_record);
        lemma_abs_ledger_insert(l0, tx@.tx, tx_record@);
    }
    Outcome::Applied
}

fn process_resolve(tx: &Transaction, account: &mut Account, tx_ledger: &mut TxLedger) -> (o:
    Outcome)
    ensures
        (final(account)@, ledger_view(final(tx_ledger)@), o) == resolve_effect(
            old(account)@,
            ledger_view(old(tx_ledger)@),
            tx@,
        ),
        apply_fits(old(account)@, ledger_view(old(tx_ledger)@), tx@) && !old(account)@.locked
            && tx@.tx_type == TxType::Resolve ==> (
        abs_account(final(account)@),
        abs_ledger(ledger_view(final(tx_ledger)@)),
        o,
        ) == vapply(abs_account(old(account)@), abs_ledger(ledger_view(old(tx_ledger)@)), tx@),
{
    let ghost l0 = ledger_view(tx_ledger@);
    let mut tx_record = match tx_ledger.get(&tx.tx_id()) {
        Some(r) => *r,
        None => {
            return Outcome::Rejected(Rejection::UnknownTransaction);
        },
    };
    if !verify_tx_ownership(&tx_record, tx) {
        return Outcome::Rejected(Rejection::WrongClient);
    }
    if *tx_record.status() != TxStatus::Disputed {
        return Outcome::Rejected(Rejection::InvalidState);
    }
    if checked_sub(account.held(), tx_record.amount()).is_none() || checked_add(
        account.available(),
        tx_record.amount(),
    ).is_none() {
        return Outcome::Overflow;
    }
    account.release(tx_record.amount());
    account.credit(tx_record.amount());
    tx_record.set_status(TxStatus::Normal);
    tx_ledger.insert(tx.tx_id(), tx_record);
    proof {
        lemma_ledger_view_insert(old(tx_ledger)@, tx@.tx, tx_record);
        lemma_abs_ledger_insert(l0, tx@.tx, tx_record@);
    }
    Outcome::Applied
}

fn process_chargeback(tx: &Transaction, account: &mut Account, tx_ledger: &mut TxLedger) -> (o:
    Outcome)
    ensures
        (final(account)@, ledger_view(final(tx_ledger)@), o) == chargeback_effect(
            old(account)@,
            ledger_view(old(tx_ledger)@),
            tx@,
        ),
        apply_fits(old(account)@, ledger_view(old(tx_ledger)@), tx@) && !old(account)@.locked
            && tx@.tx_type == TxType::Chargeback ==> (
        abs_account(final(account)@),
        abs_ledger(ledger_view(final(tx_ledger)@)),
        o,
        ) == vapply(abs_account(old(account)@), abs_ledger(ledger_view(old(tx_ledger)@)), tx@),
{
    let ghost l0 = ledger_view(tx_ledger@);
    let mut tx_record = match tx_ledger.get(&tx.tx_id()) {
        Some(r) => *r,
        None => {
            return Outcome::Rejected(Rejection::UnknownTransaction);
        },
    };
    if !verify_tx_ownership(&tx_record, tx) {
        return Outcome::Rejected(Rejection::WrongClient);
    }
    if *tx_record.status() != TxStatus::Disputed {
        return Outcome::Rejected(Rejection::InvalidState);
    }
    if checked_sub(account.held(), tx_record.amount()).is_none() {
        return Outcome::Overflow;
    }
    account.chargeback(tx_record.amount());
    tx_record.set_status(TxStatus::ChargedBack);
    tx_ledger.insert(tx.tx_id(), tx_record);
    proof {
        lemma_ledger_view_insert(old(tx_ledger)@, tx@.tx, tx_record);
        lemma_abs_ledger_insert(l0, tx@.tx, tx_record@);
    }
    Outcome::Applied
}

/// The engine's state as plain values.
pub open spec fn engine_view(accounts: Map<u16, Account>, ledger: Map<u32, TxRecord>) -> EngineView {
    EngineView { accounts: accounts_view(accounts), ledger: ledger_view(ledger) }
}

/// Applies one transaction: the client's account is created where it is missing, and
/// the transaction is applied to it unless it is rejected. The result says which.
pub fn process_transaction(tx: Transaction, accounts: &mut Accounts, tx_ledger: &mut TxLedger) -> (o:
    Outcome)
    ensures
        step(engine_view(old(accounts)@, old(tx_ledger)@), tx@) == (engine_view(
            final(accounts)@,
            final(tx_ledger)@,
        ), o),
        final(accounts)@.dom() == old(accounts)@.dom().insert(tx@.client),
        step_fits(engine_view(old(accounts)@, old(tx_ledger)@), tx@) ==> vstep(
            abs_engine(engine_view(old(accounts)@, old(tx_ledger)@)),
            tx@,
        ) == (abs_engine(engine_view(final(accounts)@, final(tx_ledger)@)), o),
        step_fits(engine_view(old(accounts)@, old(tx_ledger)@), tx@) && non_negative(tx@) && sound(
            abs_engine(engine_view(old(accounts)@, old(tx_ledger)@)),
        ) ==> sound(abs_engine(engine_view(final(accounts)@, final(tx_ledger)@))),
        step_fits(engine_view(old(accounts)@, old(tx_ledger)@), tx@) && non_negative(tx@)
            && balanced(abs_engine(engine_view(old(accounts)@, old(tx_ledger)@)))
            && fresh_record_id(abs_engine(engine_view(old(accounts)@, old(tx_ledger)@)), tx@)
            ==> balanced(abs_engine(engine_view(final(accounts)@, final(tx_ledger)@))),
{
    let ghost s0 = engine_view(accounts@, tx_ledger@);
    let client = tx.client();
    let mut account = match accounts.get(&client) {
        Some(a) => *a,
        None => Account::new(),
    };
    assert(account@ == account_of(s0.accounts, client));
    assert(abs_account(account@) == vaccount_of(abs_accounts(s0.accounts), client));
    let outcome = if account.locked() {
        Outcome::Rejected(Rejection::AccountLocked)
    } else {
        match *tx.tx_type() {
            TxType::Deposit => process_deposit(&tx, &mut account, tx_ledger),
            TxType::Withdrawal => process_withdrawal(&tx, &mut account, tx_ledger),
            TxType::Dispute => process_dispute(&tx, &mut account, tx_ledger),
            TxType::Resolve => process_resolve(&tx, &mut account, tx_ledger),
            TxType::Chargeback => process_chargeback(&tx, &mut account, tx_ledger),
        }
    };
    accounts.insert(client, account);
    proof {
        lemma_accounts_view_insert(old(accounts)@, client, account);
        lemma_abs_accounts_insert(s0.accounts, client, account@);
        if step_fits(s0, tx@) && non_negative(tx@) {
            if sound(abs_engine(s0)) {
                lemma_step_keeps_sound(abs_engine(s0), tx@);
            }
            if balanced(abs_engine(s0)) && fresh_record_id(abs_engine(s0), tx@) {
                lemma_step_keeps_balanced(abs_engine(s0), tx@);
            }
        }
    }
    outcome
}

/// The decimal type could not hold a result of the arithmetic that a transaction needed.
#[derive(Clone, Copy, Debug, PartialEq, Eq, Structural)]
pub struct ArithmeticOverflow;

/// The transactions as plain values.
pub open spec fn tx_views(txs: Seq<Transaction>) -> Seq<TxView> {
    txs.map_values(|t: Transaction| t@)
}

/// Once a prefix of the transactions overflows, so does the whole sequence.
pub proof fn lemma_run_overflow_persists(txs: Seq<TxView>, k: int)
    requires
        0 <= k <= txs.len(),
        run(txs.take(k)) is None,
    ensures
        run(txs) is None,
    decreases txs.len() - k,
{
    if k < txs.len() {
        assert(txs.take(k + 1).drop_last() =~= txs.take(k));
        lemma_run_overflow_persists(txs, k + 1);
    } else {
        assert(txs.take(k) =~= txs);
    }
}

/// Applies the transactions in order, starting from no accounts and an empty ledger,
/// and returns the final accounts; a transaction whose arithmetic the decimal type
/// cannot hold ends the processing with an error.
pub fn process_transactions(transactions: Vec<Transaction>) -> (result: Result<
    Accounts,
    ArithmeticOverflow,
>)
    ensures
        result is Ok <==> run(tx_views(transactions@)) is Some,
        result matches Ok(accounts) ==> accounts_view(accounts@) == run(
            tx_views(transactions@),
        )->0.accounts,
        run_fits(tx_views(transactions@)) ==> result is Ok,
        run_fits(tx_views(transactions@)) ==> (result matches Ok(accounts) ==> abs_accounts(
            accounts_view(accounts@),
        ) == vrun(tx_views(transactions@)).accounts),
        run_fits(tx_views(transactions@)) && all_non_negative(tx_views(transactions@)) ==> (
        result matches Ok(accounts) ==> forall|c: u16|
            #[trigger] accounts@.contains_key(c) ==> value(accounts@[c]@.available) >= 0 && value(
                accounts@[c]@.held,
            ) >= 0),
{
    let mut accounts: Accounts = HashMap::new();
    let mut tx_ledger: TxLedger = HashMap::new();
    let ghost txs = tx_views(transactions@);
    let n = transactions.len();
    let mut i: usize = 0;
    assert(txs.take(0) =~= Seq::<TxView>::empty());
    assert(abs_engine(empty_engine()) == vempty_engine()) by {
        assert(abs_accounts(Map::<u16, AccountView>::empty()) =~= Map::<u16, VAccount>::empty());
        assert(abs_ledger(Map::<u32, RecordView>::empty()) =~= Map::<u32, VRecord>::empty());
    }
    assert(engine_view(accounts@, tx_ledger@) == empty_engine()) by {
        assert(accounts_view(accounts@) =~= Map::<u16, AccountView>::empty());
        assert(ledger_view(tx_ledger@) =~= Map::<u32, RecordView>::empty());
    }
    while i < n
        invariant
            n == transactions.len(),
            i <= n,
            txs == tx_views(transactions@),
            run(txs.take(i as int)) == Some(engine_view(accounts@, tx_ledger@)),
            run_fits(txs.take(i as int)) ==> abs_engine(engine_view(accounts@, tx_ledger@)) == vrun(
                txs.take(i as int),
            ),
        decreases n - i,
    {
        let tx = transactions[i];
        let outcome = process_transaction(tx, &mut accounts, &mut tx_ledger);
        assert(txs.take(i + 1).drop_last() =~= txs.take(i as int));
        assert(txs.take(i + 1).last() == tx@);
        match outcome {
            Outcome::Overflow => {
                proof {
                    lemma_run_overflow_persists(txs, i + 1);
                    if run_fits(txs) {
                        lemma_run_fits_prefix(txs, i + 1);
                    }
                }
                return Err(ArithmeticOverflow);
            },
            _ => {},
        }
        i = i + 1;
    }
    assert(txs.take(n as int) =~= txs);
    proof {
        if run_fits(txs) && all_non_negative(txs) {
            lemma_run_keeps_sound(txs);
            assert forall|c: u16| #[trigger] accounts@.contains_key(c) implies value(
                accounts@[c]@.available,
            ) >= 0 && value(accounts@[c]@.held) >= 0 by {
                assert(abs_accounts(accounts_view(accounts@)).contains_key(c));
                assert(abs_accounts(accounts_view(accounts@))[c] == abs_account(accounts@[c]@));
                lemma_sound_balances_non_negative(vrun(txs), c);
            }
        }
    }
    Ok(accounts)
}

} // verus!
