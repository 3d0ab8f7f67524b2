//! What processing one transaction does, written as functions of plain values: once
//! exactly as the engine computes it with decimal arithmetic, and once over the
//! exact values of the amounts.
use crate::account::{fresh_account, AccountView};
use crate::amount::{
    add_fits, decimal_checked_add, decimal_checked_sub, sub_fits, value, Repr,
};
use crate::transaction::{record_of, RecordView, TxStatus, TxType, TxView};
use vstd::prelude::*;

verus! {

/// Why a transaction was turned away. The state is left as it was.
#[derive(Clone, Copy, Debug, PartialEq, Eq, Structural)]
pub enum Rejection {
    /// The client's account is frozen by an earlier chargeback.
    AccountLocked,
    /// A deposit or withdrawal came without an amount.
    MissingAmount,
    /// A withdrawal asked for more than is available.
    InsufficientFunds,
    /// No deposit or withdrawal with that transaction id is on record.
    UnknownTransaction,
    /// The recorded transaction belongs to another client.
    WrongClient,
    /// The recorded transaction is not in the state this step starts from.
    InvalidState,
    /// Only deposits can be disputed.
    NotADeposit,
    /// Holding the disputed amount would take available funds below zero.
    WouldOverdraw,
}

/// What became of a transaction.
#[derive(Clone, Copy, Debug, PartialEq, Eq, Structural)]
pub enum Outcome {
    Applied,
    Rejected(Rejection),
    /// The decimal type could not hold a result of the arithmetic; nothing was changed
    /// but the creation of the client's account.
    Overflow,
}

/// The whole state of the engine: every account and every recorded transaction.
pub struct EngineView {
    pub accounts: Map<u16, AccountView>,
    pub ledger: Map<u32, RecordView>,
}

/// The account of `client`, a fresh one where the client has none yet.
pub open spec fn account_of(accounts: Map<u16, AccountView>, client: u16) -> AccountView {
    if accounts.contains_key(client) {
        accounts[client]
    } else {
        fresh_account()
    }
}

pub open spec fn deposit_effect(acct: AccountView, ledger: Map<u32, RecordView>, tx: TxView) -> (
    AccountView,
    Map<u32, RecordView>,
    Outcome,
) {
    match tx.amount {
        None => (acct, ledger, Outcome::Rejected(Rejection::MissingAmount)),
        Some(x) => match decimal_checked_add(acct.available, x) {
            None => (acct, ledger, Outcome::Overflow),
            Some(a) => (
                AccountView { available: a, ..acct },
                ledger.insert(tx.tx, record_of(tx)),
                Outcome::Applied,
            ),
        },
    }
}

pub open spec fn withdrawal_effect(
    acct: AccountView,
    ledger: Map<u32, RecordView>,
    tx: TxView,
) -> (AccountView, Map<u32, RecordView>, Outcome) {
    match tx.amount {
        None => (acct, ledger, Outcome::Rejected(Rejection::MissingAmount)),
        Some(x) => if value(acct.available) < value(x) {
            (acct, ledger, Outcome::Rejected(Rejection::InsufficientFunds))
        } else {
            match decimal_checked_sub(acct.available, x) {
                None => (acct, ledger, Outcome::Overflow),
                Some(a) => (
                    AccountView { available: a, ..acct },
                    ledger.insert(tx.tx, record_of(tx)),
                    Outcome::Applied,
                ),
            }
        },
    }
}

/// Why a dispute, resolve or chargeback cannot go ahead against the ledger, if it
/// cannot: the record must exist, belong to the client and have status `wanted`.
pub open spec fn lookup_rejection(ledger: Map<u32, RecordView>, tx: TxView, wanted: TxStatus) -> Option<
    Rejection,
> {
    if !ledger.contains_key(tx.tx) {
        Some(Rejection::UnknownTransaction)
    } else if ledger[tx.tx].client != tx.client {
        Some(Rejection::WrongClient)
    } else if ledger[tx.tx].status != wanted {
        Some(Rejection::InvalidState)
    } else {
        None
    }
}

pub open spec fn dispute_effect(acct: AccountView, ledger: Map<u32, RecordView>, tx: TxView) -> (
    AccountView,
    Map<u32, RecordView>,
    Outcome,
) {
    match lookup_rejection(ledger, tx, TxStatus::Normal) {
        Some(why) => (acct, ledger, Outcome::Rejected(why)),
        None => {
            let r = ledger[tx.tx];
            if r.tx_type != TxType::Deposit {
                (acct, ledger, Outcome::Rejected(Rejection::NotADeposit))
            } else if value(acct.available) < value(r.amount) {
                (acct, ledger, Outcome::Rejected(Rejection::WouldOverdraw))
            } else {
                match (
                    decimal_checked_sub(acct.available, r.amount),
                    decimal_checked_add(acct.held, r.amount),
                ) {
                    (Some(a), Some(h)) => (
                        AccountView { available: a, held: h, locked: acct.locked },
                        ledger.insert(tx.tx, RecordView { status: TxStatus::Disputed, ..r }),
                        Outcome::Applied,
                    ),
                    _ => (acct, ledger, Outcome::Overflow),
                }
            }
        },
    }
}

pub open spec fn resolve_effect(acct: AccountView, ledger: Map<u32, RecordView>, tx: TxView) -> (
    AccountView,
    Map<u32, RecordView>,
    Outcome,
) {
    match lookup_rejection(ledger, tx, TxStatus::Disputed) {
        Some(why) => (acct, ledger, Outcome::Rejected(why)),
        None => {
            let r = ledger[tx.tx];
            match (
                decimal_checked_sub(acct.held, r.amount),
                decimal_checked_add(acct.available, r.amount),
            ) {
                (Some(h), Some(a)) => (
                    AccountView { available: a, held: h, locked: acct.locked },
                    ledger.insert(tx.tx, RecordView { status: TxStatus::Normal, ..r }),
                    Outcome::Applied,
                ),
                _ => (acct, ledger, Outcome::Overflow),
            }
        },
    }
}

pub open spec fn chargeback_effect(
    acct: AccountView,
    ledger: Map<u32, RecordView>,
    tx: TxView,
) -> (AccountView, Map<u32, RecordView>, Outcome) {
    match lookup_rejection(ledger, tx, TxStatus::Disputed) {
        Some(why) => (acct, ledger, Outcome::Rejected(why)),
        None => {
            let r = ledger[tx.tx];
            match decimal_checked_sub(acct.held, r.amount) {
                Some(h) => (
                    AccountView { available: acct.available, held: h, locked: true },
                    ledger.insert(tx.tx, RecordView { status: TxStatus::ChargedBack, ..r }),
                    Outcome::Applied,
                ),
                None => (acct, ledger, Outcome::Overflow),
            }
        },
    }
}

/// What one transaction does to its client's account and to the ledger.
pub open spec fn apply(acct: AccountView, ledger: Map<u32, RecordView>, tx: TxView) -> (
    AccountView,
    Map<u32, RecordView>,
    Outcome,
) {
    if acct.locked {
        (acct, ledger, Outcome::Rejected(Rejection::AccountLocked))
    } else {
        match tx.tx_type {
            TxType::Deposit => deposit_effect(acct, ledger, tx),
            TxType::Withdrawal => withdrawal_effect(acct, ledger, tx),
            TxType::Dispute => dispute_effect(acct, ledger, tx),
            TxType::Resolve => resolve_effect(acct, ledger, tx),
            TxType::Chargeback => chargeback_effect(acct, ledger, tx),
        }
    }
}

/// One transaction applied to the engine: the client's account (created where it was
/// missing) is replaced by its new balances.
pub open spec fn step(s: EngineView, tx: TxView) -> (EngineView, Outcome) {
    let (a, l, o) = apply(account_of(s.accounts, tx.client), s.ledger, tx);
    (EngineView { accounts: s.accounts.insert(tx.client, a), ledger: l }, o)
}

/// The engine before any transaction.
pub open spec fn empty_engine() -> EngineView {
    EngineView { accounts: Map::empty(), ledger: Map::empty() }
}

/// The state after a sequence of transactions, or nothing where one of them overflowed.
pub open spec fn run(txs: Seq<TxView>) -> Option<EngineView>
    decreases txs.len(),
{
    if txs.len() == 0 {
        Some(empty_engine())
    } else {
        match run(txs.drop_last()) {
            None => None,
            Some(s) => {
                let (next, o) = step(s, txs.last());
                if o == Outcome::Overflow {
                    None
                } else {
                    Some(next)
                }
            },
        }
    }
}

/// The decimal arithmetic that `apply` performs can be done exactly at the scales of
/// its operands.
pub open spec fn apply_fits(acct: AccountView, ledger: Map<u32, RecordView>, tx: TxView) -> bool {
    acct.locked || match tx.tx_type {
        TxType::Deposit => match tx.amount {
            Some(x) => add_fits(acct.available, x),
            None => true,
        },
        TxType::Withdrawal => match tx.amount {
            Some(x) => value(acct.available) < value(x) || sub_fits(acct.available, x),
            None => true,
        },
        TxType::Dispute => lookup_rejection(ledger, tx, TxStatus::Normal) is None
            && ledger[tx.tx].tx_type == TxType::Deposit && value(acct.available) >= value(
            ledger[tx.tx].amount,
        ) ==> sub_fits(acct.available, ledger[tx.tx].amount) && add_fits(
            acct.held,
            ledger[tx.tx].amount,
        ),
        TxType::Resolve => lookup_rejection(ledger, tx, TxStatus::Disputed) is None ==> sub_fits(
            acct.held,
            ledger[tx.tx].amount,
        ) && add_fits(acct.available, ledger[tx.tx].amount),
        TxType::Chargeback => lookup_rejection(ledger, tx, TxStatus::Disputed) is None
            ==> sub_fits(acct.held, ledger[tx.tx].amount),
    }
}

pub open spec fn step_fits(s: EngineView, tx: TxView) -> bool {
    apply_fits(account_of(s.accounts, tx.client), s.ledger, tx)
}

// ---------------------------------------------------------------------------
// The same over exact values.
// ---------------------------------------------------------------------------

/// An account's balances as exact values (units of `10^-28`).
pub struct VAccount {
    pub available: int,
    pub held: int,
    pub locked: bool,
}

/// A recorded transaction with its amount as an exact value.
pub struct VRecord {
    pub client: u16,
    pub amount: int,
    pub status: TxStatus,
    pub tx_type: TxType,
}

pub struct VEngine {
    pub accounts: Map<u16, VAccount>,
    pub ledger: Map<u32, VRecord>,
}

pub open spec fn abs_account(a: AccountView) -> VAccount {
    VAccount { available: value(a.available), held: value(a.held), locked: a.locked }
}

pub open spec fn abs_record(r: RecordView) -> VRecord {
    VRecord { client: r.client, amount: value(r.amount), status: r.status, tx_type: r.tx_type }
}

pub open spec fn abs_ledger(l: Map<u32, RecordView>) -> Map<u32, VRecord> {
    l.map_values(|r: RecordView| abs_record(r))
}

pub open spec fn abs_accounts(m: Map<u16, AccountView>) -> Map<u16, VAccount> {
    m.map_values(|a: AccountView| abs_account(a))
}

pub open spec fn abs_engine(s: EngineView) -> VEngine {
    VEngine { accounts: abs_accounts(s.accounts), ledger: abs_ledger(s.ledger) }
}

pub open spec fn tx_value(tx: TxView) -> Option<int> {
    match tx.amount {
        Some(x) => Some(value(x)),
        None => None,
    }
}

pub open spec fn vrecord_of(tx: TxView) -> VRecord {
    abs_record(record_of(tx))
}

pub open spec fn vfresh_account() -> VAccount {
    VAccount { available: 0, held: 0, locked: false }
}

pub open spec fn vaccount_of(accounts: Map<u16, VAccount>, client: u16) -> VAccount {
    if accounts.contains_key(client) {
        accounts[client]
    } else {
        vfresh_account()
    }
}

pub open spec fn vlookup_rejection(ledger: Map<u32, VRecord>, tx: TxView, wanted: TxStatus) -> Option<
    Rejection,
> {
    if !ledger.contains_key(tx.tx) {
        Some(Rejection::UnknownTransaction)
    } else if ledger[tx.tx].client != tx.client {
        Some(Rejection::WrongClient)
    } else if ledger[tx.tx].status != wanted {
        Some(Rejection::InvalidState)
    } else {
        None
    }
}

/// What one transaction does, with exact arithmetic.
pub open spec fn vapply(acct: VAccount, ledger: Map<u32, VRecord>, tx: TxView) -> (
    VAccount,
    Map<u32, VRecord>,
    Outcome,
) {
    if acct.locked {
        (acct, ledger, Outcome::Rejected(Rejection::AccountLocked))
    } else {
        match tx.tx_type {
            TxType::Deposit => match tx_value(tx) {
                None => (acct, ledger, Outcome::Rejected(Rejection::MissingAmount)),
                Some(x) => (
                    VAccount { available: acct.available + x, ..acct },
                    ledger.insert(tx.tx, vrecord_of(tx)),
                    Outcome::Applied,
                ),
            },
            TxType::Withdrawal => match tx_value(tx) {
                None => (acct, ledger, Outcome::Rejected(Rejection::MissingAmount)),
                Some(x) => if acct.available < x {
                    (acct, ledger, Outcome::Rejected(Rejection::InsufficientFunds))
                } else {
                    (
                        VAccount { available: acct.available - x, ..acct },
                        ledger.insert(tx.tx, vrecord_of(tx)),
                        Outcome::Applied,
                    )
                },
            },
            TxType::Dispute => match vlookup_rejection(ledger, tx, TxStatus::Normal) {
                Some(why) => (acct, ledger, Outcome::Rejected(why)),
                None => {
                    let r = ledger[tx.tx];
                    if r.tx_type != TxType::Deposit {
                        (acct, ledger, Outcome::Rejected(Rejection::NotADeposit))
                    } else if acct.available < r.amount {
                        (acct, ledger, Outcome::Rejected(Rejection::WouldOverdraw))
                    } else {
                        (
                            VAccount {
                                available: acct.available - r.amount,
                                held: acct.held + r.amount,
                                locked: acct.locked,
                            },
                            ledger.insert(tx.tx, VRecord { status: TxStatus::Disputed, ..r }),
                            Outcome::Applied,
                        )
                    }
                },
            },
            TxType::Resolve => match vlookup_rejection(ledger, tx, TxStatus::Disputed) {
                Some(why) => (acct, ledger, Outcome::Rejected(why)),
                None => {
                    let r = ledger[tx.tx];
                    (
                        VAccount {
                            available: acct.available + r.amount,
                            held: acct.held - r.amount,
                            locked: acct.locked,
                        },
                        ledger.insert(tx.tx, VRecord { status: TxStatus::Normal, ..r }),
                        Outcome::Applied,
                    )
                },
            },
            TxType::Chargeback => match vlookup_rejection(ledger, tx, TxStatus::Disputed) {
                Some(why) => (acct, ledger, Outcome::Rejected(why)),
                None => {
                    let r = ledger[tx.tx];
                    (
                        VAccount {
                            available: acct.available,
                            held: acct.held - r.amount,
                            locked: true,
                        },
                        ledger.insert(tx.tx, VRecord { status: TxStatus::ChargedBack, ..r }),
                        Outcome::Applied,
                    )
                },
            },
        }
    }
}

/// One transaction applied to the engine, with exact arithmetic.
pub open spec fn vstep(s: VEngine, tx: TxView) -> (VEngine, Outcome) {
    let (a, l, o) = vapply(vaccount_of(s.accounts, tx.client), s.ledger, tx);
    (VEngine { accounts: s.accounts.insert(tx.client, a), ledger: l }, o)
}

/// The engine before any transaction, with exact arithmetic.
pub open spec fn vempty_engine() -> VEngine {
    VEngine { accounts: Map::empty(), ledger: Map::empty() }
}

/// The state after a sequence of transactions, with exact arithmetic.
pub open spec fn vrun(txs: Seq<TxView>) -> VEngine
    decreases txs.len(),
{
    if txs.len() == 0 {
        vempty_engine()
    } else {
        vstep(vrun(txs.drop_last()), txs.last()).0
    }
}

/// Every step of `run` over the sequence does its decimal arithmetic exactly.
pub open spec fn run_fits(txs: Seq<TxView>) -> bool
    decreases txs.len(),
{
    txs.len() == 0 || (run_fits(txs.drop_last()) && match run(txs.drop_last()) {
        Some(s) => step_fits(s, txs.last()),
        None => true,
    })
}

pub proof fn lemma_run_fits_prefix(txs: Seq<TxView>, k: int)
    requires
        0 <= k <= txs.len(),
        run_fits(txs),
    ensures
        run_fits(txs.take(k)),
    decreases txs.len() - k,
{
    if k == txs.len() {
        assert(txs.take(k) =~= txs);
    } else {
        lemma_run_fits_prefix(txs.drop_last(), k);
        assert(txs.drop_last().take(k) =~= txs.take(k));
    }
}

} // verus!
