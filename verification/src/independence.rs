//! Clients are independent: over a whole sequence of transactions whose deposits and
//! withdrawals carry distinct ids, a client's account ends exactly as it would if only
//! that client's own transactions had been processed.
use crate::account::AccountView;
use crate::model::{account_of, run, step, EngineView, Outcome};
use crate::soundness::{distinct_record_ids, is_record_row};
use crate::transaction::TxView;
use vstd::prelude::*;

verus! {

/// The transactions of `txs` sent by client `c`, in their order.
pub open spec fn client_rows(txs: Seq<TxView>, c: u16) -> Seq<TxView> {
    txs.filter(|t: TxView| t.client == c)
}

/// `part` holds what `full` holds of client `c`: the same account, and exactly the
/// ledger entries of `c`'s transactions.
pub open spec fn agrees_for(full: EngineView, part: EngineView, c: u16) -> bool {
    &&& full.accounts.contains_key(c) == part.accounts.contains_key(c)
    &&& account_of(full.accounts, c) == account_of(part.accounts, c)
    &&& forall|t: u32|
        #[trigger] part.ledger.contains_key(t) <==> (full.ledger.contains_key(t)
            && full.ledger[t].client == c)
    &&& forall|t: u32| #[trigger] part.ledger.contains_key(t) ==> part.ledger[t] == full.ledger[t]
}

/// Every entry of the ledger was put there by a deposit or withdrawal of the sequence.
pub proof fn lemma_run_ledger_keys(txs: Seq<TxView>)
    requires
        run(txs) is Some,
    ensures
        forall|t: u32|
            #[trigger] run(txs)->0.ledger.contains_key(t) ==> exists|i: int|
                0 <= i < txs.len() && is_record_row(#[trigger] txs[i]) && txs[i].tx == t,
    decreases txs.len(),
{
    if txs.len() > 0 {
        let init = txs.drop_last();
        lemma_run_ledger_keys(init);
        assert forall|t: u32| #[trigger] run(txs)->0.ledger.contains_key(t) implies exists|i: int|
            0 <= i < txs.len() && is_record_row(#[trigger] txs[i]) && txs[i].tx == t by {
            if run(init)->0.ledger.contains_key(t) {
                let i = choose|i: int|
                    0 <= i < init.len() && is_record_row(#[trigger] init[i]) && init[i].tx == t;
                assert(txs[i] == init[i]);
            } else {
                assert(txs[txs.len() - 1] == txs.last());
            }
        }
    }
}

/// One step keeps the agreement: a transaction of another client leaves `c`'s part as
/// it is, and one of `c` does the same to both.
proof fn lemma_step_agrees(full: EngineView, part: EngineView, tx: TxView, c: u16)
    requires
        agrees_for(full, part, c),
        step(full, tx).1 != Outcome::Overflow,
        is_record_row(tx) ==> !full.ledger.contains_key(tx.tx),
    ensures
        tx.client == c ==> step(part, tx).1 != Outcome::Overflow && agrees_for(
            step(full, tx).0,
            step(part, tx).0,
            c,
        ),
        tx.client != c ==> agrees_for(step(full, tx).0, part, c),
{
    let k = tx.tx;
    let nf = step(full, tx).0;
    if tx.client == c {
        let np = step(part, tx).0;
        if full.ledger.contains_key(k) && full.ledger[k].client == c {
            assert(part.ledger.contains_key(k));
        } else {
            assert(!part.ledger.contains_key(k));
        }
        assert forall|t: u32| #[trigger] np.ledger.contains_key(t) <==> (nf.ledger.contains_key(t)
            && nf.ledger[t].client == c) by {
            if t != k {
                assert(part.ledger.contains_key(t) <==> (full.ledger.contains_key(t)
                    && full.ledger[t].client == c));
            }
        }
        assert forall|t: u32| #[trigger] np.ledger.contains_key(t) implies np.ledger[t]
            == nf.ledger[t] by {
            if t != k {
                assert(part.ledger.contains_key(t));
            }
        }
    } else {
        assert(nf.accounts.contains_key(c) == full.accounts.contains_key(c));
        assert(account_of(nf.accounts, c) == account_of(full.accounts, c));
        assert forall|t: u32| #[trigger] part.ledger.contains_key(t) <==> (nf.ledger.contains_key(t)
            && nf.ledger[t].client == c) by {
            if t == k && full.ledger.contains_key(k) {
                assert(part.ledger.contains_key(k) <==> full.ledger[k].client == c);
            }
        }
        assert forall|t: u32| #[trigger] part.ledger.contains_key(t) implies part.ledger[t]
            == nf.ledger[t] by {
            if t == k {
                assert(full.ledger.contains_key(k) && full.ledger[k].client == c);
            }
        }
    }
}

/// Processing a whole sequence keeps each client's account as processing only that
/// client's transactions would leave it, where deposits and withdrawals carry
/// distinct ids.
pub proof fn lemma_clients_are_independent(txs: Seq<TxView>, c: u16)
    requires
        distinct_record_ids(txs),
        run(txs) is Some,
    ensures
        run(client_rows(txs, c)) is Some,
        agrees_for(run(txs)->0, run(client_rows(txs, c))->0, c),
        run(txs)->0.accounts.contains_key(c) == run(client_rows(txs, c))->0.accounts.contains_key(
            c,
        ),
        run(txs)->0.accounts.contains_key(c) ==> run(txs)->0.accounts[c] == run(
            client_rows(txs, c),
        )->0.accounts[c],
    decreases txs.len(),
{
    reveal(Seq::filter);
    if txs.len() == 0 {
        assert(client_rows(txs, c) =~= txs);
    } else {
        let init = txs.drop_last();
        let last = txs.last();
        assert forall|i: int, j: int|
            0 <= i < j < init.len() && is_record_row(#[trigger] init[i]) && is_record_row(
                #[trigger] init[j],
            ) implies init[i].tx != init[j].tx by {
            assert(init[i] == txs[i] && init[j] == txs[j]);
        }
        lemma_clients_are_independent(init, c);
        let full = run(init)->0;
        let part = run(client_rows(init, c))->0;
        if is_record_row(last) && full.ledger.contains_key(last.tx) {
            lemma_run_ledger_keys(init);
            let i = choose|i: int|
                0 <= i < init.len() && is_record_row(#[trigger] init[i]) && init[i].tx == last.tx;
            assert(txs[i] == init[i]);
            assert(txs[txs.len() - 1] == last);
            assert(false);
        }
        lemma_step_agrees(full, part, last, c);
        if last.client == c {
            assert(client_rows(txs, c) == client_rows(init, c).push(last));
            assert(client_rows(txs, c).drop_last() =~= client_rows(init, c));
        } else {
            assert(client_rows(txs, c) == client_rows(init, c));
        }
    }
}

} // verus!
