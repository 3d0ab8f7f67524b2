//! What each kind of transaction does to an unlocked account, stated directly in
//! terms of the account, the ledger and the transaction: when it goes ahead, what it
//! changes, and when it is turned away.
use crate::amount::{decimal_checked_add, decimal_checked_sub, value};
use crate::model::{account_of, step, vaccount_of, vstep, EngineView, Outcome, Rejection, VEngine};
use crate::transaction::{record_of, TxStatus, TxType, TxView};
use vstd::prelude::*;

verus! {

/// A deposit with an amount goes ahead unless the sum overflows the decimal type: the
/// available funds become the sum, nothing else of the account changes, and the
/// deposit is recorded. Without an amount it is turned away and nothing changes.
pub proof fn lemma_deposit(s: EngineView, tx: TxView)
    requires
        tx.tx_type == TxType::Deposit,
        !account_of(s.accounts, tx.client).locked,
    ensures
        ({
            let before = account_of(s.accounts, tx.client);
            let (next, o) = step(s, tx);
            let after = next.accounts[tx.client];
            &&& tx.amount is None ==> o == Outcome::Rejected(Rejection::MissingAmount)
                && after == before && next.ledger == s.ledger
            &&& tx.amount is Some && decimal_checked_add(before.available, tx.amount->0) is Some
                ==> {
                &&& o == Outcome::Applied
                &&& after.available == decimal_checked_add(before.available, tx.amount->0)->0
                &&& after.held == before.held
                &&& !after.locked
                &&& next.ledger == s.ledger.insert(tx.tx, record_of(tx))
            }
        }),
{
}

/// A withdrawal with an amount is turned away exactly when the available funds are
/// less than the amount, whatever is held; otherwise (unless the difference overflows)
/// it goes ahead: the available funds become the difference, the held funds and the
/// lock stay, and the withdrawal is recorded.
pub proof fn lemma_withdrawal(s: EngineView, tx: TxView)
    requires
        tx.tx_type == TxType::Withdrawal,
        !account_of(s.accounts, tx.client).locked,
    ensures
        ({
            let before = account_of(s.accounts, tx.client);
            let (next, o) = step(s, tx);
            let after = next.accounts[tx.client];
            &&& tx.amount is None ==> o == Outcome::Rejected(Rejection::MissingAmount)
                && after == before && next.ledger == s.ledger
            &&& tx.amount is Some ==> (o == Outcome::Rejected(Rejection::InsufficientFunds)
                <==> value(before.available) < value(tx.amount->0))
            &&& tx.amount is Some && value(before.available) < value(tx.amount->0) ==> after
                == before && next.ledger == s.ledger
            &&& tx.amount is Some && value(before.available) >= value(tx.amount->0)
                && decimal_checked_sub(before.available, tx.amount->0) is Some ==> {
                &&& o == Outcome::Applied
                &&& after.available == decimal_checked_sub(before.available, tx.amount->0)->0
                &&& after.held == before.held
                &&& !after.locked
                &&& next.ledger == s.ledger.insert(tx.tx, record_of(tx))
            }
        }),
{
}

/// A dispute by the owner of a recorded deposit in the normal state goes ahead
/// whenever the available funds cover the deposit (and the arithmetic does not
/// overflow): the deposit's amount moves from available to held funds and the record
/// becomes disputed.
pub proof fn lemma_dispute(s: EngineView, tx: TxView)
    requires
        tx.tx_type == TxType::Dispute,
        !account_of(s.accounts, tx.client).locked,
        s.ledger.contains_key(tx.tx),
        s.ledger[tx.tx].client == tx.client,
        s.ledger[tx.tx].status == TxStatus::Normal,
        s.ledger[tx.tx].tx_type == TxType::Deposit,
    ensures
        ({
            let before = account_of(s.accounts, tx.client);
            let r = s.ledger[tx.tx];
            let (next, o) = step(s, tx);
            let after = next.accounts[tx.client];
            &&& o == Outcome::Rejected(Rejection::WouldOverdraw) <==> value(before.available)
                < value(r.amount)
            &&& value(before.available) >= value(r.amount) && decimal_checked_sub(
                before.available,
                r.amount,
            ) is Some && decimal_checked_add(before.held, r.amount) is Some ==> {
                &&& o == Outcome::Applied
                &&& after.available == decimal_checked_sub(before.available, r.amount)->0
                &&& after.held == decimal_checked_add(before.held, r.amount)->0
                &&& !after.locked
                &&& next.ledger[tx.tx].status == TxStatus::Disputed
                &&& next.ledger[tx.tx].amount == r.amount
                &&& next.ledger[tx.tx].client == r.client
            }
        }),
{
}

/// A resolve by the owner of a disputed record goes ahead, whatever the balances
/// (unless the arithmetic overflows): the amount moves from held back to available
/// funds and the record returns to the normal state.
pub proof fn lemma_resolve(s: EngineView, tx: TxView)
    requires
        tx.tx_type == TxType::Resolve,
        !account_of(s.accounts, tx.client).locked,
        s.ledger.contains_key(tx.tx),
        s.ledger[tx.tx].client == tx.client,
        s.ledger[tx.tx].status == TxStatus::Disputed,
        decimal_checked_sub(account_of(s.accounts, tx.client).held, s.ledger[tx.tx].amount) is Some,
        decimal_checked_add(account_of(s.accounts, tx.client).available, s.ledger[tx.tx].amount) is Some,
    ensures
        ({
            let before = account_of(s.accounts, tx.client);
            let r = s.ledger[tx.tx];
            let (next, o) = step(s, tx);
            let after = next.accounts[tx.client];
            &&& o == Outcome::Applied
            &&& after.held == decimal_checked_sub(before.held, r.amount)->0
            &&& after.available == decimal_checked_add(before.available, r.amount)->0
            &&& !after.locked
            &&& next.ledger[tx.tx].status == TxStatus::Normal
            &&& next.ledger[tx.tx].amount == r.amount
        }),
{
}

/// A chargeback by the owner of a disputed record goes ahead, whatever the balances
/// (unless the arithmetic overflows): the held funds drop by the record's amount, the
/// available funds stay, the account locks, and the record is charged back.
pub proof fn lemma_chargeback(s: EngineView, tx: TxView)
    requires
        tx.tx_type == TxType::Chargeback,
        !account_of(s.accounts, tx.client).locked,
        s.ledger.contains_key(tx.tx),
        s.ledger[tx.tx].client == tx.client,
        s.ledger[tx.tx].status == TxStatus::Disputed,
        decimal_checked_sub(account_of(s.accounts, tx.client).held, s.ledger[tx.tx].amount) is Some,
    ensures
        ({
            let before = account_of(s.accounts, tx.client);
            let r = s.ledger[tx.tx];
            let (next, o) = step(s, tx);
            let after = next.accounts[tx.client];
            &&& o == Outcome::Applied
            &&& after.held == decimal_checked_sub(before.held, r.amount)->0
            &&& after.available == before.available
            &&& after.locked
            &&& next.ledger[tx.tx].status == TxStatus::ChargedBack
            &&& next.ledger[tx.tx].amount == r.amount
        }),
{
}

/// With exact arithmetic: a withdrawal of `x` from an unlocked account with at least
/// `x` available goes ahead and lowers the available funds by exactly `x`, whatever is
/// held; with less available it is turned away and nothing changes.
pub proof fn lemma_withdrawal_values(s: VEngine, tx: TxView)
    requires
        tx.tx_type == TxType::Withdrawal,
        tx.amount is Some,
        !vaccount_of(s.accounts, tx.client).locked,
    ensures
        ({
            let before = vaccount_of(s.accounts, tx.client);
            let x = value(tx.amount->0);
            let (next, o) = vstep(s, tx);
            let after = next.accounts[tx.client];
            &&& before.available >= x ==> o == Outcome::Applied && after.available
                == before.available - x && after.held == before.held && !after.locked
            &&& before.available < x ==> o == Outcome::Rejected(Rejection::InsufficientFunds)
                && after == before && next.ledger == s.ledger
        }),
{
}

/// With exact arithmetic: a deposit of `x` raises the available funds by exactly `x`.
pub proof fn lemma_deposit_values(s: VEngine, tx: TxView)
    requires
        tx.tx_type == TxType::Deposit,
        tx.amount is Some,
        !vaccount_of(s.accounts, tx.client).locked,
    ensures
        ({
            let before = vaccount_of(s.accounts, tx.client);
            let (next, o) = vstep(s, tx);
            let after = next.accounts[tx.client];
            &&& o == Outcome::Applied
            &&& after.available == before.available + value(tx.amount->0)
            &&& after.held == before.held
            &&& !after.locked
        }),
{
}

/// With exact arithmetic: a chargeback by the owner of a disputed record on an
/// unlocked account goes ahead whatever the balances: held drops by the record's
/// amount, available stays, and the account locks.
pub proof fn lemma_chargeback_values(s: VEngine, tx: TxView)
    requires
        tx.tx_type == TxType::Chargeback,
        !vaccount_of(s.accounts, tx.client).locked,
        s.ledger.contains_key(tx.tx),
        s.ledger[tx.tx].client == tx.client,
        s.ledger[tx.tx].status == TxStatus::Disputed,
    ensures
        ({
            let before = vaccount_of(s.accounts, tx.client);
            let (next, o) = vstep(s, tx);
            let after = next.accounts[tx.client];
            &&& o == Outcome::Applied
            &&& after.held == before.held - s.ledger[tx.tx].amount
            &&& after.available == before.available
            &&& after.locked
            &&& next.ledger[tx.tx].status == TxStatus::ChargedBack
        }),
{
}

/// With exact arithmetic: a dispute by the owner of a normal recorded deposit goes
/// ahead exactly when the available funds cover it, and moves its amount to held.
pub proof fn lemma_dispute_values(s: VEngine, tx: TxView)
    requires
        tx.tx_type == TxType::Dispute,
        !vaccount_of(s.accounts, tx.client).locked,
        s.ledger.contains_key(tx.tx),
        s.ledger[tx.tx].client == tx.client,
        s.ledger[tx.tx].status == TxStatus::Normal,
        s.ledger[tx.tx].tx_type == TxType::Deposit,
    ensures
        ({
            let before = vaccount_of(s.accounts, tx.client);
            let amount = s.ledger[tx.tx].amount;
            let (next, o) = vstep(s, tx);
            let after = next.accounts[tx.client];
            &&& before.available >= amount ==> o == Outcome::Applied && after.available
                == before.available - amount && after.held == before.held + amount
                && !after.locked
            &&& before.available < amount ==> o == Outcome::Rejected(Rejection::WouldOverdraw)
                && after == before
        }),
{
}

/// With exact arithmetic: a resolve by the owner of a disputed record goes ahead
/// whatever the balances, and moves its amount from held back to available.
pub proof fn lemma_resolve_values(s: VEngine, tx: TxView)
    requires
        tx.tx_type == TxType::Resolve,
        !vaccount_of(s.accounts, tx.client).locked,
        s.ledger.contains_key(tx.tx),
        s.ledger[tx.tx].client == tx.client,
        s.ledger[tx.tx].status == TxStatus::Disputed,
    ensures
        ({
            let before = vaccount_of(s.accounts, tx.client);
            let amount = s.ledger[tx.tx].amount;
            let (next, o) = vstep(s, tx);
            let after = next.accounts[tx.client];
            &&& o == Outcome::Applied
            &&& after.available == before.available + amount
            &&& after.held == before.held - amount
            &&& !after.locked
            &&& next.ledger[tx.tx].status == TxStatus::Normal
        }),
{
}

/// A dispute, resolve or chargeback on an unlocked account is turned away, changing
/// nothing, when no deposit or withdrawal with its id is on record, when the record is
/// another client's, when the record is not in the state the step starts from
/// (normal for a dispute, disputed otherwise), and, for a dispute, when the record is
/// a withdrawal; the first of these that holds is the answer.
pub proof fn lemma_dispute_step_rejections(s: EngineView, tx: TxView)
    requires
        tx.tx_type == TxType::Dispute || tx.tx_type == TxType::Resolve || tx.tx_type
            == TxType::Chargeback,
        !account_of(s.accounts, tx.client).locked,
    ensures
        ({
            let before = account_of(s.accounts, tx.client);
            let wanted = if tx.tx_type == TxType::Dispute {
                TxStatus::Normal
            } else {
                TxStatus::Disputed
            };
            let (next, o) = step(s, tx);
            &&& !s.ledger.contains_key(tx.tx) ==> o == Outcome::Rejected(
                Rejection::UnknownTransaction,
            )
            &&& s.ledger.contains_key(tx.tx) && s.ledger[tx.tx].client != tx.client ==> o
                == Outcome::Rejected(Rejection::WrongClient)
            &&& s.ledger.contains_key(tx.tx) && s.ledger[tx.tx].client == tx.client
                && s.ledger[tx.tx].status != wanted ==> o == Outcome::Rejected(
                Rejection::InvalidState,
            )
            &&& tx.tx_type == TxType::Dispute && s.ledger.contains_key(tx.tx)
                && s.ledger[tx.tx].client == tx.client && s.ledger[tx.tx].status == wanted
                && s.ledger[tx.tx].tx_type != TxType::Deposit ==> o == Outcome::Rejected(
                Rejection::NotADeposit,
            )
            &&& o is Rejected ==> next.accounts[tx.client] == before && next.ledger == s.ledger
        }),
{
}

/// A deposit, withdrawal, dispute, resolve or chargeback that would otherwise go ahead
/// reports an overflow, and changes nothing, exactly where the decimal type cannot
/// hold a result it needs.
pub proof fn lemma_overflow_changes_nothing(s: EngineView, tx: TxView)
    requires
        step(s, tx).1 == Outcome::Overflow,
    ensures
        !account_of(s.accounts, tx.client).locked,
        step(s, tx).0.accounts[tx.client] == account_of(s.accounts, tx.client),
        step(s, tx).0.ledger == s.ledger,
        tx.tx_type == TxType::Deposit ==> decimal_checked_add(
            account_of(s.accounts, tx.client).available,
            tx.amount->0,
        ) is None,
        tx.tx_type == TxType::Withdrawal ==> decimal_checked_sub(
            account_of(s.accounts, tx.client).available,
            tx.amount->0,
        ) is None,
{
}

} // verus!
