//! Properties of the engine that hold for every state and every transaction.
use crate::account::AccountView;
use crate::amount::{
    decimal_checked_add, decimal_checked_sub, exact_difference, exact_sum, value, Repr,
};
use crate::model::{
    account_of, chargeback_effect, dispute_effect, resolve_effect, step, vaccount_of, vstep,
    EngineView, Outcome, Rejection, VEngine,
};
use crate::transaction::RecordView;
use crate::transaction::{TxStatus, TxType, TxView};
use vstd::prelude::*;

verus! {

/// A locked account rejects every transaction, and nothing in the engine changes.
pub proof fn lemma_locked_account_rejects_everything(s: EngineView, tx: TxView)
    requires
        s.accounts.contains_key(tx.client),
        s.accounts[tx.client].locked,
    ensures
        step(s, tx) == (s, Outcome::Rejected(Rejection::AccountLocked)),
{
    assert(s.accounts.insert(tx.client, s.accounts[tx.client]) =~= s.accounts);
}

/// A transaction touches no account but its own client's, and no ledger entry but the
/// one under its own transaction id.
pub proof fn lemma_step_is_local(s: EngineView, tx: TxView)
    ensures
        ({
            let next = step(s, tx).0;
            &&& next.accounts.contains_key(tx.client)
            &&& forall|c: u16|
                c != tx.client ==> (#[trigger] next.accounts.contains_key(c)
                    == s.accounts.contains_key(c) && next.accounts[c] == s.accounts[c])
            &&& forall|t: u32|
                t != tx.tx ==> (#[trigger] next.ledger.contains_key(t) == s.ledger.contains_key(t)
                    && next.ledger[t] == s.ledger[t])
        }),
{
}

/// A dispute, a resolve and a chargeback that goes ahead act on a recorded transaction
/// of the same client; a dispute only on a deposit in the normal state, a resolve and a
/// chargeback only on a disputed one, and each moves it to its next state.
pub proof fn lemma_dispute_steps_need_the_clients_own_record(s: EngineView, tx: TxView)
    requires
        tx.tx_type == TxType::Dispute || tx.tx_type == TxType::Resolve || tx.tx_type
            == TxType::Chargeback,
        step(s, tx).1 == Outcome::Applied,
    ensures
        s.ledger.contains_key(tx.tx),
        s.ledger[tx.tx].client == tx.client,
        tx.tx_type == TxType::Dispute ==> s.ledger[tx.tx].tx_type == TxType::Deposit
            && s.ledger[tx.tx].status == TxStatus::Normal && step(s, tx).0.ledger[tx.tx].status
            == TxStatus::Disputed,
        tx.tx_type == TxType::Resolve ==> s.ledger[tx.tx].status == TxStatus::Disputed && step(
            s,
            tx,
        ).0.ledger[tx.tx].status == TxStatus::Normal,
        tx.tx_type == TxType::Chargeback ==> s.ledger[tx.tx].status == TxStatus::Disputed
            && step(s, tx).0.ledger[tx.tx].status == TxStatus::ChargedBack && step(
            s,
            tx,
        ).0.accounts[tx.client].locked,
{
}

/// A dispute moves the disputed amount from available to held funds, and a resolve
/// moves it back: neither changes the account's total.
pub proof fn lemma_dispute_and_resolve_keep_total(s: VEngine, tx: TxView)
    requires
        tx.tx_type == TxType::Dispute || tx.tx_type == TxType::Resolve,
    ensures
        ({
            let before = vaccount_of(s.accounts, tx.client);
            let after = vstep(s, tx).0.accounts[tx.client];
            &&& after.available + after.held == before.available + before.held
            &&& after.locked == before.locked
            &&& vstep(s, tx).1 == Outcome::Applied ==> {
                let amount = s.ledger[tx.tx].amount;
                &&& tx.tx_type == TxType::Dispute ==> after.available == before.available
                    - amount && after.held == before.held + amount
                &&& tx.tx_type == TxType::Resolve ==> after.available == before.available
                    + amount && after.held == before.held - amount
            }
        }),
{
}

/// A resolve of a transaction that was just disputed goes ahead and restores the
/// account's balances and the ledger to what they were before the dispute.
pub proof fn lemma_resolve_undoes_dispute(s: VEngine, dispute: TxView, resolve: TxView)
    requires
        dispute.tx_type == TxType::Dispute,
        resolve.tx_type == TxType::Resolve,
        resolve.client == dispute.client,
        resolve.tx == dispute.tx,
        vstep(s, dispute).1 == Outcome::Applied,
    ensures
        vstep(vstep(s, dispute).0, resolve) == (
        VEngine {
            accounts: s.accounts.insert(dispute.client, vaccount_of(s.accounts, dispute.client)),
            ledger: s.ledger,
        },
        Outcome::Applied,
        ),
{
    let mid = vstep(s, dispute).0;
    let end = vstep(mid, resolve).0;
    assert(end.accounts =~= s.accounts.insert(
        dispute.client,
        vaccount_of(s.accounts, dispute.client),
    ));
    assert(end.ledger =~= s.ledger);
}

/// A chargeback that goes ahead takes the disputed amount out of the held funds for
/// good, leaves the available funds alone, and locks the account.
pub proof fn lemma_chargeback_removes_held_and_locks(s: VEngine, tx: TxView)
    requires
        tx.tx_type == TxType::Chargeback,
        vstep(s, tx).1 == Outcome::Applied,
    ensures
        ({
            let before = vaccount_of(s.accounts, tx.client);
            let after = vstep(s, tx).0.accounts[tx.client];
            &&& after.available == before.available
            &&& after.held == before.held - s.ledger[tx.tx].amount
            &&& after.locked
        }),
{
}

/// Neither a withdrawal nor a dispute takes an account's available funds below zero.
pub proof fn lemma_no_overdraw(s: VEngine, tx: TxView)
    requires
        tx.tx_type == TxType::Withdrawal || tx.tx_type == TxType::Dispute,
        vaccount_of(s.accounts, tx.client).available >= 0,
    ensures
        vstep(s, tx).0.accounts[tx.client].available >= 0,
{
}

/// A transaction that is turned away, or whose arithmetic overflows, changes nothing:
/// the ledger stays as it was and the client's account keeps its balances (it is only
/// opened where the client had none).
pub proof fn lemma_refused_step_changes_nothing(s: EngineView, tx: TxView)
    requires
        step(s, tx).1 != Outcome::Applied,
    ensures
        step(s, tx).0 == (EngineView {
            accounts: s.accounts.insert(tx.client, account_of(s.accounts, tx.client)),
            ledger: s.ledger,
        }),
{
}

/// Disputing a transaction a second time changes nothing: the same deposit is never
/// held twice.
pub proof fn lemma_dispute_twice_is_dispute_once(s: EngineView, tx: TxView)
    requires
        tx.tx_type == TxType::Dispute,
    ensures
        step(step(s, tx).0, tx).0 == step(s, tx).0,
{
    let once = step(s, tx).0;
    let twice = step(once, tx).0;
    assert(twice.accounts =~= once.accounts);
    assert(twice.ledger =~= once.ledger);
}

/// The same for the account and ledger alone, as a dispute leaves them.
pub proof fn lemma_dispute_effect_twice_is_once(
    acct: AccountView,
    ledger: Map<u32, RecordView>,
    tx: TxView,
)
    ensures
        ({
            let (a1, l1, o1) = dispute_effect(acct, ledger, tx);
            let (a2, l2, o2) = dispute_effect(a1, l1, tx);
            a2 == a1 && l2 == l1
        }),
{
    let (a1, l1, o1) = dispute_effect(acct, ledger, tx);
    let (a2, l2, o2) = dispute_effect(a1, l1, tx);
    assert(l2 =~= l1);
}

/// A dispute, resolve or chargeback moves the amount on record, never the amount the
/// row itself carries.
pub proof fn lemma_dispute_steps_ignore_row_amount(s: EngineView, t1: TxView, t2: TxView)
    requires
        t1.tx_type == TxType::Dispute || t1.tx_type == TxType::Resolve || t1.tx_type
            == TxType::Chargeback,
        t2.tx_type == t1.tx_type,
        t2.client == t1.client,
        t2.tx == t1.tx,
    ensures
        step(s, t1) == step(s, t2),
        dispute_effect(account_of(s.accounts, t1.client), s.ledger, t1) == dispute_effect(
            account_of(s.accounts, t1.client),
            s.ledger,
            t2,
        ),
        resolve_effect(account_of(s.accounts, t1.client), s.ledger, t1) == resolve_effect(
            account_of(s.accounts, t1.client),
            s.ledger,
            t2,
        ),
        chargeback_effect(account_of(s.accounts, t1.client), s.ledger, t1) == chargeback_effect(
            account_of(s.accounts, t1.client),
            s.ledger,
            t2,
        ),
{
}

/// A resolve right after a dispute of the same transaction goes ahead and gives back
/// the account's balances, as values, and the ledger as it was, wherever the four
/// decimal operations involved are exact.
pub proof fn lemma_resolve_undoes_dispute_effect(
    acct: AccountView,
    ledger: Map<u32, RecordView>,
    dispute: TxView,
    resolve: TxView,
)
    requires
        resolve.client == dispute.client,
        resolve.tx == dispute.tx,
        dispute_effect(acct, ledger, dispute).2 == Outcome::Applied,
        exact_difference(acct.available, ledger[dispute.tx].amount),
        exact_sum(acct.held, ledger[dispute.tx].amount),
        exact_difference(dispute_effect(acct, ledger, dispute).0.held, ledger[dispute.tx].amount),
        exact_sum(dispute_effect(acct, ledger, dispute).0.available, ledger[dispute.tx].amount),
    ensures
        ({
            let (a1, l1, o1) = dispute_effect(acct, ledger, dispute);
            let (a2, l2, o2) = resolve_effect(a1, l1, resolve);
            &&& o2 == Outcome::Applied
            &&& value(a2.available) == value(acct.available)
            &&& value(a2.held) == value(acct.held)
            &&& a2.locked == acct.locked
            &&& l2 == ledger
        }),
{
    let (a1, l1, o1) = dispute_effect(acct, ledger, dispute);
    let (a2, l2, o2) = resolve_effect(a1, l1, resolve);
    assert(l2 =~= ledger);
}

/// A debit of what was just credited gives the available funds back, as a value,
/// wherever both operations are exact. (`Account::credit` leaves
/// `decimal_checked_add(available, x)`, `Account::debit` `decimal_checked_sub(.., x)`;
/// neither touches the held funds or the lock.)
pub proof fn lemma_debit_undoes_credit(available: Repr, x: Repr)
    requires
        exact_sum(available, x),
        exact_difference(decimal_checked_add(available, x)->0, x),
    ensures
        value(decimal_checked_sub(decimal_checked_add(available, x)->0, x)->0) == value(available),
{
}

/// A release of what was just held gives the held funds back, as a value, wherever
/// both operations are exact. (`Account::hold` leaves `decimal_checked_add(held, x)`,
/// `Account::release` `decimal_checked_sub(.., x)`; neither touches the available
/// funds or the lock.)
pub proof fn lemma_release_undoes_hold(held: Repr, x: Repr)
    requires
        exact_sum(held, x),
        exact_difference(decimal_checked_add(held, x)->0, x),
    ensures
        value(decimal_checked_sub(decimal_checked_add(held, x)->0, x)->0) == value(held),
{
}

} // verus!
