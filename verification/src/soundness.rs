//! The books of the engine: with non-negative amounts every account keeps
//! non-negative available funds and holds at least what its open disputes amount to;
//! where deposits and withdrawals carry fresh transaction ids, the held funds are
//! exactly the open disputes and the total is exactly what the ledger books.
use crate::model::{tx_value, vaccount_of, vrun, vstep, Outcome, VEngine, VRecord};
use crate::transaction::{TxStatus, TxType, TxView};
use vstd::prelude::*;
use vstd::set::fold::{is_fun_commutative, lemma_fold_empty, lemma_fold_insert};

verus! {

pub open spec fn adder(ledger: Map<u32, VRecord>, f: spec_fn(VRecord) -> int) -> spec_fn(
    int,
    u32,
) -> int {
    |acc: int, t: u32| acc + f(ledger[t])
}

/// The sum of `f` over the ledger entries `keys`.
pub open spec fn sum_over(ledger: Map<u32, VRecord>, f: spec_fn(VRecord) -> int, keys: Set<u32>) -> int {
    keys.fold(0, adder(ledger, f))
}

/// The sum of `f` over every ledger entry.
pub open spec fn ledger_sum(ledger: Map<u32, VRecord>, f: spec_fn(VRecord) -> int) -> int {
    sum_over(ledger, f, ledger.dom())
}

/// What a record holds back from client `c`: its amount while it is disputed and
/// belongs to `c`, nothing otherwise.
pub open spec fn disputed_part(c: u16) -> spec_fn(VRecord) -> int {
    |r: VRecord|
        if r.client == c && r.status == TxStatus::Disputed {
            r.amount
        } else {
            0
        }
}

/// What a record books to client `c`: a deposit that was not charged back adds its
/// amount, a withdrawal takes its amount off, anything else nothing.
pub open spec fn booked_part(c: u16) -> spec_fn(VRecord) -> int {
    |r: VRecord|
        if r.client != c {
            0
        } else if r.tx_type == TxType::Deposit && r.status != TxStatus::ChargedBack {
            r.amount
        } else if r.tx_type == TxType::Withdrawal {
            -r.amount
        } else {
            0
        }
}

/// The sum of all amounts under dispute for client `c`.
pub open spec fn disputed_total(ledger: Map<u32, VRecord>, c: u16) -> int {
    ledger_sum(ledger, disputed_part(c))
}

/// What the ledger books to client `c`: deposits not charged back, less withdrawals.
pub open spec fn booked_total(ledger: Map<u32, VRecord>, c: u16) -> int {
    ledger_sum(ledger, booked_part(c))
}

/// The engine's bookkeeping is sound: the ledger is finite, no recorded amount is
/// negative, every recorded transaction's client has an account, and every account has
/// non-negative available funds and holds at least what its open disputes amount to.
pub open spec fn sound(s: VEngine) -> bool {
    &&& s.ledger.dom().finite()
    &&& forall|t: u32| #[trigger] s.ledger.contains_key(t) ==> s.ledger[t].amount >= 0
    &&& forall|t: u32|
        #[trigger] s.ledger.contains_key(t) ==> s.accounts.contains_key(s.ledger[t].client)
    &&& forall|c: u16|
        #[trigger] s.accounts.contains_key(c) ==> s.accounts[c].available >= 0
            && s.accounts[c].held >= disputed_total(s.ledger, c)
}

/// The books balance: the engine is sound, only deposits ever leave the normal state,
/// every account holds exactly what its open disputes amount to, and its total is
/// exactly what the ledger books to it.
pub open spec fn balanced(s: VEngine) -> bool {
    &&& sound(s)
    &&& forall|t: u32|
        #[trigger] s.ledger.contains_key(t) && s.ledger[t].status != TxStatus::Normal
            ==> s.ledger[t].tx_type == TxType::Deposit
    &&& forall|c: u16|
        #[trigger] s.accounts.contains_key(c) ==> s.accounts[c].held == disputed_total(s.ledger, c)
            && s.accounts[c].available + s.accounts[c].held == booked_total(s.ledger, c)
}

/// A transaction's amount, where it has one, is not negative.
pub open spec fn non_negative(tx: TxView) -> bool {
    tx_value(tx) is Some ==> tx_value(tx)->0 >= 0
}

/// A deposit or withdrawal comes with a transaction id the ledger does not hold yet.
pub open spec fn fresh_record_id(s: VEngine, tx: TxView) -> bool {
    (tx.tx_type == TxType::Deposit || tx.tx_type == TxType::Withdrawal)
        ==> !s.ledger.contains_key(tx.tx)
}

proof fn lemma_adder_commutative(ledger: Map<u32, VRecord>, f: spec_fn(VRecord) -> int)
    ensures
        is_fun_commutative(adder(ledger, f)),
{
}

/// Summing over a set only depends on the entries of the set.
proof fn lemma_sum_agree(
    l1: Map<u32, VRecord>,
    l2: Map<u32, VRecord>,
    f: spec_fn(VRecord) -> int,
    keys: Set<u32>,
)
    requires
        keys.finite(),
        forall|t: u32| keys.contains(t) ==> f(l1[t]) == f(l2[t]),
    ensures
        sum_over(l1, f, keys) == sum_over(l2, f, keys),
    decreases keys.len(),
{
    lemma_adder_commutative(l1, f);
    lemma_adder_commutative(l2, f);
    if keys.len() == 0 {
        assert(keys =~= Set::<u32>::empty());
        lemma_fold_empty(0int, adder(l1, f));
        lemma_fold_empty(0int, adder(l2, f));
    } else {
        let a = keys.choose();
        let rest = keys.remove(a);
        assert(rest.insert(a) =~= keys);
        lemma_sum_agree(l1, l2, f, rest);
        lemma_fold_insert(rest, 0int, adder(l1, f), a);
        lemma_fold_insert(rest, 0int, adder(l2, f), a);
    }
}

/// With no negative term the sum is not negative; with none but zeros, it is zero.
proof fn lemma_sum_bounds(l: Map<u32, VRecord>, f: spec_fn(VRecord) -> int, keys: Set<u32>)
    requires
        keys.finite(),
        forall|t: u32| keys.contains(t) ==> f(l[t]) >= 0,
    ensures
        sum_over(l, f, keys) >= 0,
        (forall|t: u32| keys.contains(t) ==> f(l[t]) == 0) ==> sum_over(l, f, keys) == 0,
    decreases keys.len(),
{
    lemma_adder_commutative(l, f);
    if keys.len() == 0 {
        assert(keys =~= Set::<u32>::empty());
        lemma_fold_empty(0int, adder(l, f));
    } else {
        let a = keys.choose();
        let rest = keys.remove(a);
        assert(rest.insert(a) =~= keys);
        lemma_sum_bounds(l, f, rest);
        lemma_fold_insert(rest, 0int, adder(l, f), a);
    }
}

/// A sum with no term but zeros is zero.
proof fn lemma_sum_zero(l: Map<u32, VRecord>, f: spec_fn(VRecord) -> int)
    requires
        l.dom().finite(),
        forall|t: u32| l.contains_key(t) ==> f(l[t]) == 0,
    ensures
        ledger_sum(l, f) == 0,
{
    lemma_sum_bounds(l, f, l.dom());
}

/// Replacing or adding the entry `k` changes the sum by the difference of the new and
/// the old entry's terms.
proof fn lemma_sum_insert(l: Map<u32, VRecord>, f: spec_fn(VRecord) -> int, k: u32, r: VRecord)
    requires
        l.dom().finite(),
    ensures
        ledger_sum(l.insert(k, r), f) == ledger_sum(l, f) - (if l.contains_key(k) {
            f(l[k])
        } else {
            0
        }) + f(r),
{
    let l2 = l.insert(k, r);
    let rest = l.dom().remove(k);
    lemma_adder_commutative(l, f);
    lemma_adder_commutative(l2, f);
    assert(l2.dom() =~= rest.insert(k));
    lemma_sum_agree(l, l2, f, rest);
    lemma_fold_insert(rest, 0int, adder(l2, f), k);
    if l.contains_key(k) {
        assert(l.dom() =~= rest.insert(k));
        lemma_fold_insert(rest, 0int, adder(l, f), k);
    } else {
        assert(l.dom() =~= rest);
    }
}

/// The engine without accounts or recorded transactions is balanced (and so sound).
pub proof fn lemma_empty_engine_balanced()
    ensures
        balanced(VEngine { accounts: Map::empty(), ledger: Map::empty() }),
{
}

/// In a sound engine every disputed term is non-negative, and a client without an
/// account has nothing booked and nothing under dispute.
proof fn lemma_sound_totals(s: VEngine, c: u16)
    requires
        sound(s),
    ensures
        disputed_total(s.ledger, c) >= 0,
        !s.accounts.contains_key(c) ==> disputed_total(s.ledger, c) == 0 && booked_total(
            s.ledger,
            c,
        ) == 0,
{
    assert forall|t: u32| s.ledger.dom().contains(t) implies (disputed_part(c))(s.ledger[t])
        >= 0 by {
        assert(s.ledger.contains_key(t));
    }
    lemma_sum_bounds(s.ledger, disputed_part(c), s.ledger.dom());
    if !s.accounts.contains_key(c) {
        assert forall|t: u32| s.ledger.contains_key(t) implies (disputed_part(c))(s.ledger[t])
            == 0 && (booked_part(c))(s.ledger[t]) == 0 by {
            assert(s.accounts.contains_key(s.ledger[t].client));
        }
        lemma_sum_zero(s.ledger, disputed_part(c));
        lemma_sum_zero(s.ledger, booked_part(c));
    }
}

/// In a sound engine no account has negative available or held funds.
pub proof fn lemma_sound_balances_non_negative(s: VEngine, c: u16)
    requires
        sound(s),
        s.accounts.contains_key(c),
    ensures
        s.accounts[c].available >= 0,
        s.accounts[c].held >= 0,
        s.accounts[c].available + s.accounts[c].held >= 0,
{
    lemma_sound_totals(s, c);
}

/// How one step changes the sums of the ledger: where the ledger changes, it changes at
/// the transaction's id, and each client's sums move by the change of that one term.
proof fn lemma_step_sums(s: VEngine, tx: TxView)
    requires
        sound(s),
        vstep(s, tx).1 == Outcome::Applied,
    ensures
        ({
            let next = vstep(s, tx).0;
            let k = tx.tx;
            &&& next.ledger == s.ledger.insert(k, next.ledger[k])
            &&& forall|c: u16|
                #[trigger] disputed_total(next.ledger, c) == disputed_total(s.ledger, c) - (if s.ledger.contains_key(
                    k,
                ) {
                    (disputed_part(c))(s.ledger[k])
                } else {
                    0
                }) + (disputed_part(c))(next.ledger[k])
            &&& forall|c: u16|
                #[trigger] booked_total(next.ledger, c) == booked_total(s.ledger, c) - (if s.ledger.contains_key(
                    k,
                ) {
                    (booked_part(c))(s.ledger[k])
                } else {
                    0
                }) + (booked_part(c))(next.ledger[k])
        }),
{
    let next = vstep(s, tx).0;
    let k = tx.tx;
    let r = next.ledger[k];
    assert(next.ledger == s.ledger.insert(k, r));
    assert forall|c: u16|
        #[trigger] disputed_total(next.ledger, c) == disputed_total(s.ledger, c) - (if s.ledger.contains_key(
            k,
        ) {
            (disputed_part(c))(s.ledger[k])
        } else {
            0
        }) + (disputed_part(c))(next.ledger[k]) by {
        lemma_sum_insert(s.ledger, disputed_part(c), k, r);
    }
    assert forall|c: u16|
        #[trigger] booked_total(next.ledger, c) == booked_total(s.ledger, c) - (if s.ledger.contains_key(
            k,
        ) {
            (booked_part(c))(s.ledger[k])
        } else {
            0
        }) + (booked_part(c))(next.ledger[k]) by {
        lemma_sum_insert(s.ledger, booked_part(c), k, r);
    }
}

/// With non-negative transaction amounts, every step keeps the engine sound.
pub proof fn lemma_step_keeps_sound(s: VEngine, tx: TxView)
    requires
        sound(s),
        non_negative(tx),
    ensures
        sound(vstep(s, tx).0),
{
    let c0 = tx.client;
    let k = tx.tx;
    let acct = vaccount_of(s.accounts, c0);
    let next = vstep(s, tx).0;
    let o = vstep(s, tx).1;
    lemma_sound_totals(s, c0);
    if o != Outcome::Applied {
        assert(next.accounts[c0] == acct);
        assert(next.ledger == s.ledger);
        assert forall|c: u16| #[trigger] next.accounts.contains_key(c) implies next.accounts[c].available
            >= 0 && next.accounts[c].held >= disputed_total(next.ledger, c) by {
            if c != c0 {
                assert(s.accounts.contains_key(c));
            }
        }
    } else {
        lemma_step_sums(s, tx);
        if s.ledger.contains_key(k) {
            assert(s.ledger[k].amount >= 0);
        }
        assert forall|c: u16| #[trigger] next.accounts.contains_key(c) implies next.accounts[c].available
            >= 0 && next.accounts[c].held >= disputed_total(next.ledger, c) by {
            assert(disputed_total(next.ledger, c) == disputed_total(s.ledger, c) - (if s.ledger.contains_key(
                k,
            ) {
                (disputed_part(c))(s.ledger[k])
            } else {
                0
            }) + (disputed_part(c))(next.ledger[k]));
            if c != c0 {
                assert(s.accounts.contains_key(c));
            }
        }
        assert forall|t: u32| #[trigger] next.ledger.contains_key(t) implies next.ledger[t].amount
            >= 0 && next.accounts.contains_key(next.ledger[t].client) by {
            if t != k {
                assert(s.ledger.contains_key(t));
            }
        }
    }
}

/// With non-negative amounts and fresh ids for deposits and withdrawals, every step
/// keeps the books balanced.
pub proof fn lemma_step_keeps_balanced(s: VEngine, tx: TxView)
    requires
        balanced(s),
        non_negative(tx),
        fresh_record_id(s, tx),
    ensures
        balanced(vstep(s, tx).0),
{
    let c0 = tx.client;
    let k = tx.tx;
    let acct = vaccount_of(s.accounts, c0);
    let next = vstep(s, tx).0;
    let o = vstep(s, tx).1;
    lemma_step_keeps_sound(s, tx);
    lemma_sound_totals(s, c0);
    if o != Outcome::Applied {
        assert(next.accounts[c0] == acct);
        assert(next.ledger == s.ledger);
        assert forall|c: u16| #[trigger] next.accounts.contains_key(c) implies next.accounts[c].held
            == disputed_total(next.ledger, c) && next.accounts[c].available + next.accounts[c].held
            == booked_total(next.ledger, c) by {
            if c != c0 {
                assert(s.accounts.contains_key(c));
            }
        }
    } else {
        lemma_step_sums(s, tx);
        assert forall|c: u16| #[trigger] next.accounts.contains_key(c) implies next.accounts[c].held
            == disputed_total(next.ledger, c) && next.accounts[c].available + next.accounts[c].held
            == booked_total(next.ledger, c) by {
            assert(disputed_total(next.ledger, c) == disputed_total(s.ledger, c) - (if s.ledger.contains_key(
                k,
            ) {
                (disputed_part(c))(s.ledger[k])
            } else {
                0
            }) + (disputed_part(c))(next.ledger[k]));
            assert(booked_total(next.ledger, c) == booked_total(s.ledger, c) - (if s.ledger.contains_key(
                k,
            ) {
                (booked_part(c))(s.ledger[k])
            } else {
                0
            }) + (booked_part(c))(next.ledger[k]));
            if s.ledger.contains_key(k) {
                assert(s.ledger[k].status != TxStatus::Normal ==> s.ledger[k].tx_type
                    == TxType::Deposit);
            }
            if c != c0 {
                assert(s.accounts.contains_key(c));
            }
        }
        assert forall|t: u32|
            #[trigger] next.ledger.contains_key(t) && next.ledger[t].status != TxStatus::Normal
                implies next.ledger[t].tx_type == TxType::Deposit by {
            if t != k {
                assert(s.ledger.contains_key(t));
            }
        }
    }
}

/// Every amount of a sequence of transactions is non-negative.
pub open spec fn all_non_negative(txs: Seq<TxView>) -> bool {
    forall|i: int| 0 <= i < txs.len() ==> non_negative(#[trigger] txs[i])
}

/// Starting from nothing, transactions with non-negative amounts leave a sound engine:
/// no account ever has negative available or held funds.
pub proof fn lemma_run_keeps_sound(txs: Seq<TxView>)
    requires
        all_non_negative(txs),
    ensures
        sound(vrun(txs)),
    decreases txs.len(),
{
    if txs.len() == 0 {
        lemma_empty_engine_balanced();
    } else {
        let init = txs.drop_last();
        assert forall|i: int| 0 <= i < init.len() implies non_negative(#[trigger] init[i]) by {
            assert(init[i] == txs[i]);
        }
        lemma_run_keeps_sound(init);
        assert(non_negative(txs[txs.len() - 1]));
        lemma_step_keeps_sound(vrun(init), txs.last());
    }
}

/// A deposit or a withdrawal: the transactions that leave a record in the ledger.
pub open spec fn is_record_row(tx: TxView) -> bool {
    tx.tx_type == TxType::Deposit || tx.tx_type == TxType::Withdrawal
}

/// No two deposits or withdrawals of the sequence share a transaction id.
pub open spec fn distinct_record_ids(txs: Seq<TxView>) -> bool {
    forall|i: int, j: int|
        0 <= i < j < txs.len() && is_record_row(#[trigger] txs[i]) && is_record_row(
            #[trigger] txs[j],
        ) ==> txs[i].tx != txs[j].tx
}

/// Every entry of the ledger was put there by a deposit or withdrawal of the sequence.
pub proof fn lemma_vrun_ledger_keys(txs: Seq<TxView>)
    ensures
        forall|t: u32|
            #[trigger] vrun(txs).ledger.contains_key(t) ==> exists|i: int|
                0 <= i < txs.len() && is_record_row(#[trigger] txs[i]) && txs[i].tx == t,
    decreases txs.len(),
{
    if txs.len() > 0 {
        let init = txs.drop_last();
        lemma_vrun_ledger_keys(init);
        assert forall|t: u32| #[trigger] vrun(txs).ledger.contains_key(t) implies exists|i: int|
            0 <= i < txs.len() && is_record_row(#[trigger] txs[i]) && txs[i].tx == t by {
            if vrun(init).ledger.contains_key(t) {
                let i = choose|i: int|
                    0 <= i < init.len() && is_record_row(#[trigger] init[i]) && init[i].tx == t;
                assert(txs[i] == init[i]);
            } else {
                assert(txs[txs.len() - 1] == txs.last());
            }
        }
    }
}

/// Starting from nothing, transactions with non-negative amounts whose deposits and
/// withdrawals carry distinct ids leave balanced books: every account holds exactly
/// its open disputes, and its total is exactly its deposits not charged back less its
/// withdrawals.
pub proof fn lemma_run_keeps_balanced(txs: Seq<TxView>)
    requires
        all_non_negative(txs),
        distinct_record_ids(txs),
    ensures
        balanced(vrun(txs)),
    decreases txs.len(),
{
    if txs.len() == 0 {
        lemma_empty_engine_balanced();
    } else {
        let init = txs.drop_last();
        let last = txs.last();
        assert forall|i: int| 0 <= i < init.len() implies non_negative(#[trigger] init[i]) by {
            assert(init[i] == txs[i]);
        }
        assert forall|i: int, j: int|
            0 <= i < j < init.len() && is_record_row(#[trigger] init[i]) && is_record_row(
                #[trigger] init[j],
            ) implies init[i].tx != init[j].tx by {
            assert(init[i] == txs[i] && init[j] == txs[j]);
        }
        lemma_run_keeps_balanced(init);
        assert(non_negative(txs[txs.len() - 1]));
        if is_record_row(last) && vrun(init).ledger.contains_key(last.tx) {
            lemma_vrun_ledger_keys(init);
            let i = choose|i: int|
                0 <= i < init.len() && is_record_row(#[trigger] init[i]) && init[i].tx == last.tx;
            assert(txs[i] == init[i]);
            assert(txs[txs.len() - 1] == last);
            assert(false);
        }
        lemma_step_keeps_balanced(vrun(init), last);
    }
}

} // verus!
