//! Transactions as they arrive, and the records that the ledger keeps of them.
use crate::amount::{repr_of, Amount, Repr};
use vstd::prelude::*;

verus! {

/// The kinds of transaction a client can send.
#[derive(Clone, Copy, Debug, PartialEq, Eq, Structural)]
pub enum TxType {
    Deposit,
    Withdrawal,
    Dispute,
    Resolve,
    Chargeback,
}

/// Where a recorded transaction stands in the dispute process.
#[derive(Clone, Copy, Debug, PartialEq, Eq, Structural)]
pub enum TxStatus {
    Normal,
    Disputed,
    ChargedBack,
}

/// What a transaction carries, as plain values.
pub struct TxView {
    pub tx_type: TxType,
    pub client: u16,
    pub tx: u32,
    pub amount: Option<Repr>,
}

/// A single transaction row.
#[derive(Clone, Copy, Debug)]
pub struct Transaction {
    tx_type: TxType,
    client: u16,
    tx: u32,
    amount: Option<Amount>,
}

impl View for Transaction {
    type V = TxView;

    closed spec fn view(&self) -> TxView {
        TxView {
            tx_type: self.tx_type,
            client: self.client,
            tx: self.tx,
            amount: repr_of(self.amount),
        }
    }
}

impl Transaction {
    pub fn new(tx_type: TxType, client: u16, tx: u32, amount: Option<Amount>) -> (t: Transaction)
        ensures
            t@ == (TxView { tx_type, client, tx, amount: repr_of(amount) }),
    {
        Transaction { tx_type, client, tx, amount }
    }

    pub fn amount(&self) -> (a: Option<Amount>)
        ensures
            repr_of(a) == self@.amount,
    {
        self.amount
    }

    pub fn tx_type(&self) -> (t: &TxType)
        ensures
            *t == self@.tx_type,
    {
        &self.tx_type
    }

    pub fn client(&self) -> (c: u16)
        ensures
            c == self@.client,
    {
        self.client
    }

    pub fn tx_id(&self) -> (id: u32)
        ensures
            id == self@.tx,
    {
        self.tx
    }
}

/// What the ledger knows of a recorded transaction, as plain values.
pub struct RecordView {
    pub client: u16,
    pub amount: Repr,
    pub status: TxStatus,
    pub tx_type: TxType,
}

/// The record that a deposit or withdrawal leaves behind: its client and amount (zero
/// when it came without one), its kind, and a fresh `Normal` status.
pub open spec fn record_of(tx: TxView) -> RecordView {
    RecordView {
        client: tx.client,
        amount: match tx.amount {
            Some(a) => a,
            None => (0i128, 0u32, false),
        },
        status: TxStatus::Normal,
        tx_type: tx.tx_type,
    }
}

/// A processed transaction, kept for later disputes.
#[derive(Clone, Copy, Debug)]
pub struct TxRecord {
    client: u16,
    amount: Amount,
    status: TxStatus,
    tx_type: TxType,
}

impl View for TxRecord {
    type V = RecordView;

    closed spec fn view(&self) -> RecordView {
        RecordView {
            client: self.client,
            amount: self.amount@,
            status: self.status,
            tx_type: self.tx_type,
        }
    }
}

impl TxRecord {
    pub fn status(&self) -> (s: &TxStatus)
        ensures
            *s == self@.status,
    {
        &self.status
    }

    pub fn amount(&self) -> (a: Amount)
        ensures
            a@ == self@.amount,
    {
        self.amount
    }

    pub fn client(&self) -> (c: u16)
        ensures
            c == self@.client,
    {
        self.client
    }

    pub fn set_status(&mut self, status: TxStatus)
        ensures
            final(self)@ == (RecordView { status, ..old(self)@ }),
    {
        self.status = status;
    }

    pub fn tx_type(&self) -> (t: &TxType)
        ensures
            *t == self@.tx_type,
    {
        &self.tx_type
    }

    /// The record of `tx`.
    pub fn from_transaction(tx: &Transaction) -> (r: TxRecord)
        ensures
            r@ == record_of(tx@),
    {
        proof {
            Amount::lemma_zero_spec();
        }
        TxRecord::from(tx)
    }
}

impl<'a> From<&'a Transaction> for TxRecord {
    fn from(tx: &'a Transaction) -> (r: TxRecord)
        ensures
            r@ == record_of(tx@),
    {
        let amount = match tx.amount {
            Some(a) => a,
            None => Amount::zero(),
        };
        TxRecord { client: tx.client, amount, status: TxStatus::Normal, tx_type: tx.tx_type }
    }
}

impl<'a> vstd::std_specs::convert::FromSpecImpl<&'a Transaction> for TxRecord {
    open spec fn obeys_from_spec() -> bool {
        true
    }

    closed spec fn from_spec(tx: &'a Transaction) -> TxRecord {
        TxRecord {
            client: tx.client,
            amount: match tx.amount {
                Some(a) => a,
                None => Amount::zero_spec(),
            },
            status: TxStatus::Normal,
            tx_type: tx.tx_type,
        }
    }
}

/// What `str::to_lowercase` returns for a string.
pub uninterp spec fn lowercase(s: Seq<char>) -> Seq<char>;

/// Every character is an ASCII lowercase letter.
pub open spec fn lower_ascii_word(s: Seq<char>) -> bool {
    forall|i: int| 0 <= i < s.len() ==> 'a' <= #[trigger] s[i] <= 'z'
}

/// `str::to_lowercase`: the string with every character replaced by its lowercase
/// mapping. Claimed: the result is the named `lowercase` of the input, and a string of
/// ASCII lowercase letters, whose letters are their own lowercase, comes back as it is.
#[verifier::external_body]
fn to_lowercase(s: &str) -> (r: String)
    ensures
        r@ == lowercase(s@),
        lower_ascii_word(s@) ==> r@ == s@,
{
    s.to_lowercase()
}

/// The transaction type that an already lowercased name stands for.
pub open spec fn tx_type_named(s: Seq<char>) -> Option<TxType> {
    if s == "deposit"@ {
        Some(TxType::Deposit)
    } else if s == "withdrawal"@ {
        Some(TxType::Withdrawal)
    } else if s == "dispute"@ {
        Some(TxType::Dispute)
    } else if s == "resolve"@ {
        Some(TxType::Resolve)
    } else if s == "chargeback"@ {
        Some(TxType::Chargeback)
    } else {
        None
    }
}

/// The five names are made of ASCII lowercase letters.
pub proof fn lemma_type_names_are_lower_words(s: Seq<char>)
    ensures
        tx_type_named(s) is Some ==> lower_ascii_word(s),
{
    reveal_strlit("deposit");
    reveal_strlit("withdrawal");
    reveal_strlit("dispute");
    reveal_strlit("resolve");
    reveal_strlit("chargeback");
}

/// Parsing ignores case: where a string names a transaction type, its lowercase
/// names the same one. The premise is what `TxType::from_str` or `parse_tx_type`
/// states of the lowercased string.
pub proof fn lemma_parse_ignores_case(s: Seq<char>)
    requires
        lower_ascii_word(lowercase(s)) ==> lowercase(lowercase(s)) == lowercase(s),
    ensures
        tx_type_named(lowercase(s)) is Some ==> tx_type_named(lowercase(lowercase(s)))
            == tx_type_named(lowercase(s)),
{
    lemma_type_names_are_lower_words(lowercase(s));
}

/// The transaction type named by `lower`, a name already in lowercase.
pub fn tx_type_from_lowercase(lower: &String) -> (t: Option<TxType>)
    ensures
        t == tx_type_named(lower@),
{
    if *lower == "deposit".to_string() {
        Some(TxType::Deposit)
    } else if *lower == "withdrawal".to_string() {
        Some(TxType::Withdrawal)
    } else if *lower == "dispute".to_string() {
        Some(TxType::Dispute)
    } else if *lower == "resolve".to_string() {
        Some(TxType::Resolve)
    } else if *lower == "chargeback".to_string() {
        Some(TxType::Chargeback)
    } else {
        None
    }
}

/// Parses a transaction type, ignoring case; an unknown name is answered with a message
/// that quotes it.
pub fn parse_tx_type(s: &str) -> (r: Result<TxType, String>)
    ensures
        lower_ascii_word(s@) ==> lowercase(s@) == s@,
        r is Ok ==> lower_ascii_word(lowercase(s@)),
        r is Ok <==> tx_type_named(lowercase(s@)) is Some,
        r matches Ok(t) ==> tx_type_named(lowercase(s@)) == Some(t),
        r matches Err(e) ==> e@ == "Unknown transaction type: "@ + s@,
{
    let lower = to_lowercase(s);
    proof {
        lemma_type_names_are_lower_words(lower@);
    }
    match tx_type_from_lowercase(&lower) {
        Some(t) => Ok(t),
        None => {
            let mut message = "Unknown transaction type: ".to_string();
            message.append(s);
            Err(message)
        },
    }
}

impl std::str::FromStr for TxType {
    type Err = String;

    fn from_str(s: &str) -> (r: Result<TxType, String>)
        ensures
            lower_ascii_word(s@) ==> lowercase(s@) == s@,
            r is Ok ==> lower_ascii_word(lowercase(s@)),
            r is Ok <==> tx_type_named(lowercase(s@)) is Some,
            r matches Ok(t) ==> tx_type_named(lowercase(s@)) == Some(t),
            r matches Err(e) ==> e@ == "Unknown transaction type: "@ + s@,
    {
        parse_tx_type(s)
    }
}

} // verus!
