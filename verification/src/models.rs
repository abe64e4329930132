//! The values that the endpoints take and give.

use crate::json::{field_text, find_field_text, named_at, named_only_at};
use crate::json::{lemma_array_view, lemma_field_text_of_sole_entry, lemma_object_view};
use crate::json::{lemma_field_text_absent_or_repeated, lemma_field_text_skips_other_names};
use crate::json::{JsonModel, JsonValue};
use vstd::prelude::*;

verus! {

/// One transaction, as the transaction endpoints list it.
#[derive(Debug, PartialEq, Eq)]
pub struct Transaction {
    pub hash: String,
    pub from: String,
    pub to: String,
    pub value: String,
    pub timestamp: String,
    pub block_number: String,
    pub gas: String,
    pub gas_price: String,
    pub gas_used: String,
}

/// The mathematical content of a [`Transaction`].
pub ghost struct TransactionView {
    pub hash: Seq<char>,
    pub from: Seq<char>,
    pub to: Seq<char>,
    pub value: Seq<char>,
    pub timestamp: Seq<char>,
    pub block_number: Seq<char>,
    pub gas: Seq<char>,
    pub gas_price: Seq<char>,
    pub gas_used: Seq<char>,
}

impl View for Transaction {
    type V = TransactionView;

    open spec fn view(&self) -> TransactionView {
        TransactionView {
            hash: self.hash@,
            from: self.from@,
            to: self.to@,
            value: self.value@,
            timestamp: self.timestamp@,
            block_number: self.block_number@,
            gas: self.gas@,
            gas_price: self.gas_price@,
            gas_used: self.gas_used@,
        }
    }
}

impl DeepView for Transaction {
    type V = TransactionView;

    open spec fn deep_view(&self) -> TransactionView {
        self@
    }
}

impl Clone for Transaction {
    fn clone(&self) -> (copy: Self)
        ensures
            copy@ == self@,
    {
        Transaction {
            hash: self.hash.clone(),
            from: self.from.clone(),
            to: self.to.clone(),
            value: self.value.clone(),
            timestamp: self.timestamp.clone(),
            block_number: self.block_number.clone(),
            gas: self.gas.clone(),
            gas_price: self.gas_price.clone(),
            gas_used: self.gas_used.clone(),
        }
    }
}

impl TransactionView {
    /// The transaction that the entries of a JSON object spell out under
    /// the names upstream uses. Each of the nine names must give a text;
    /// entries under other names are passed over.
    pub open spec fn from_entries(entries: Seq<(Seq<char>, JsonModel)>) -> Option<TransactionView> {
        if field_text(entries, "hash"@) is Some && field_text(entries, "from"@) is Some
            && field_text(entries, "to"@) is Some && field_text(entries, "value"@) is Some
            && field_text(entries, "timeStamp"@) is Some && field_text(entries, "blockNumber"@)
            is Some && field_text(entries, "gas"@) is Some && field_text(entries, "gasPrice"@)
            is Some && field_text(entries, "gasUsed"@) is Some {
            Some(
                TransactionView {
                    hash: field_text(entries, "hash"@)->0,
                    from: field_text(entries, "from"@)->0,
                    to: field_text(entries, "to"@)->0,
                    value: field_text(entries, "value"@)->0,
                    timestamp: field_text(entries, "timeStamp"@)->0,
                    block_number: field_text(entries, "blockNumber"@)->0,
                    gas: field_text(entries, "gas"@)->0,
                    gas_price: field_text(entries, "gasPrice"@)->0,
                    gas_used: field_text(entries, "gasUsed"@)->0,
                },
            )
        } else {
            None
        }
    }

    /// The transaction that a JSON array spells out by position: nine
    /// texts, in the order of the fields.
    pub open spec fn from_items(items: Seq<JsonModel>) -> Option<TransactionView> {
        if items.len() == 9 && forall|i: int| 0 <= i < 9 ==> (#[trigger] items[i]).text() is Some {
            Some(
                TransactionView {
                    hash: items[0].text()->0,
                    from: items[1].text()->0,
                    to: items[2].text()->0,
                    value: items[3].text()->0,
                    timestamp: items[4].text()->0,
                    block_number: items[5].text()->0,
                    gas: items[6].text()->0,
                    gas_price: items[7].text()->0,
                    gas_used: items[8].text()->0,
                },
            )
        } else {
            None
        }
    }

    /// The transaction that a JSON document spells out, if it does.
    pub open spec fn from_json(value: JsonModel) -> Option<TransactionView> {
        match value {
            JsonModel::Object(entries) => Self::from_entries(entries),
            JsonModel::Array(items) => Self::from_items(items),
            _ => None,
        }
    }

    /// The transactions that a JSON document lists: it must be an array,
    /// and each of its items must spell out a transaction.
    pub open spec fn list_from_json(value: JsonModel) -> Option<Seq<TransactionView>> {
        match value {
            JsonModel::Array(items) => if forall|i: int|
                0 <= i < items.len() ==> Self::from_json(#[trigger] items[i]) is Some {
                Some(Seq::new(items.len(), |i: int| Self::from_json(items[i])->0))
            } else {
                None
            },
            _ => None,
        }
    }
}

/// The names under which upstream writes the fields of a transaction, in
/// the order of the fields.
pub open spec fn upstream_names() -> Seq<Seq<char>> {
    seq![
        "hash"@,
        "from"@,
        "to"@,
        "value"@,
        "timeStamp"@,
        "blockNumber"@,
        "gas"@,
        "gasPrice"@,
        "gasUsed"@,
    ]
}

impl TransactionView {
    /// The fields, in their order.
    pub open spec fn fields(self) -> Seq<Seq<char>> {
        seq![
            self.hash,
            self.from,
            self.to,
            self.value,
            self.timestamp,
            self.block_number,
            self.gas,
            self.gas_price,
            self.gas_used,
        ]
    }

    /// The entries of the JSON object in which upstream writes this
    /// transaction: each field as a text under its upstream name.
    pub open spec fn upstream_entries(self) -> Seq<(Seq<char>, JsonModel)> {
        Seq::new(9, |i: int| (upstream_names()[i], JsonModel::Text(self.fields()[i])))
    }

    /// The items of the JSON array that writes this transaction by
    /// position.
    pub open spec fn positional_items(self) -> Seq<JsonModel> {
        Seq::new(9, |i: int| JsonModel::Text(self.fields()[i]))
    }
}

/// No two fields of a transaction share an upstream name.
pub proof fn lemma_upstream_names_differ()
    ensures
        upstream_names().len() == 9,
        forall|i: int, j: int|
            0 <= i < 9 && 0 <= j < 9 && i != j ==> upstream_names()[i] != upstream_names()[j],
{
    reveal_strlit("hash");
    reveal_strlit("from");
    reveal_strlit("to");
    reveal_strlit("value");
    reveal_strlit("timeStamp");
    reveal_strlit("blockNumber");
    reveal_strlit("gas");
    reveal_strlit("gasPrice");
    reveal_strlit("gasUsed");
    let names = upstream_names();
    assert(names[0].len() == 4 && names[1].len() == 4 && names[2].len() == 2 && names[3].len()
        == 5 && names[4].len() == 9 && names[5].len() == 11 && names[6].len() == 3
        && names[7].len() == 8 && names[8].len() == 7);
    assert(names[0][0] == 'h' && names[1][0] == 'f');
}

/// Reading gives back a transaction that was written as upstream writes
/// it: an object with each field under its upstream name.
pub proof fn lemma_reads_what_upstream_writes(transaction: TransactionView)
    ensures
        TransactionView::from_json(JsonModel::Object(transaction.upstream_entries())) == Some(
            transaction,
        ),
{
    lemma_upstream_names_differ();
    let entries = transaction.upstream_entries();
    let names = upstream_names();
    assert forall|i: int| 0 <= i < 9 implies #[trigger] field_text(entries, names[i]) == Some(
        transaction.fields()[i],
    ) by {
        assert(named_at(entries, i, names[i]));
        assert(named_only_at(entries, i, names[i]));
        lemma_field_text_of_sole_entry(entries, i, names[i]);
    }
}

/// Reading gives back a transaction that was written by position.
pub proof fn lemma_reads_positional_items(transaction: TransactionView)
    ensures
        TransactionView::from_json(JsonModel::Array(transaction.positional_items())) == Some(
            transaction,
        ),
{
}

/// An entry under a name that is none of the nine changes nothing in what
/// an object spells out.
pub proof fn lemma_other_entries_are_passed_over(
    entries: Seq<(Seq<char>, JsonModel)>,
    other: (Seq<char>, JsonModel),
)
    requires
        !upstream_names().contains(other.0),
    ensures
        TransactionView::from_entries(entries.push(other)) == TransactionView::from_entries(
            entries,
        ),
{
    let names = upstream_names();
    assert forall|i: int| 0 <= i < 9 implies field_text(entries.push(other), #[trigger] names[i])
        == field_text(entries, names[i]) by {
        assert(names.contains(names[i]));
        lemma_field_text_skips_other_names(entries, other, names[i]);
    }
}

/// An object that lacks one of the nine names, or bears one of them twice,
/// spells out no transaction.
pub proof fn lemma_incomplete_record_is_no_transaction(
    entries: Seq<(Seq<char>, JsonModel)>,
    field: int,
)
    requires
        0 <= field < 9,
        (forall|i: int| !named_at(entries, i, upstream_names()[field])) || (exists|i: int, j: int|
            i != j && named_at(entries, i, upstream_names()[field]) && named_at(
                entries,
                j,
                upstream_names()[field],
            )),
    ensures
        TransactionView::from_json(JsonModel::Object(entries)) is None,
{
    lemma_field_text_absent_or_repeated(entries, upstream_names()[field]);
}

/// Reading a list gives back, in their order, the transactions that were
/// written as upstream writes them.
pub proof fn lemma_reads_the_list_upstream_writes(list: Seq<TransactionView>)
    ensures
        TransactionView::list_from_json(
            JsonModel::Array(
                Seq::new(list.len(), |i: int| JsonModel::Object(list[i].upstream_entries())),
            ),
        ) == Some(list),
{
    let items = Seq::new(list.len(), |i: int| JsonModel::Object(list[i].upstream_entries()));
    assert forall|i: int| 0 <= i < items.len() implies TransactionView::from_json(
        #[trigger] items[i],
    ) == Some(list[i]) by {
        lemma_reads_what_upstream_writes(list[i]);
    }
    assert(TransactionView::list_from_json(JsonModel::Array(items))->0 =~= list);
}

impl Transaction {
    fn from_entries(entries: &Vec<(String, JsonValue)>) -> (decoded: Option<Transaction>)
        ensures
            decoded.deep_view() == TransactionView::from_entries(entries.deep_view()),
    {
        let hash = find_field_text(entries, "hash")?;
        let from = find_field_text(entries, "from")?;
        let to = find_field_text(entries, "to")?;
        let value = find_field_text(entries, "value")?;
        let timestamp = find_field_text(entries, "timeStamp")?;
        let block_number = find_field_text(entries, "blockNumber")?;
        let gas = find_field_text(entries, "gas")?;
        let gas_price = find_field_text(entries, "gasPrice")?;
        let gas_used = find_field_text(entries, "gasUsed")?;
        Some(
            Transaction {
                hash,
                from,
                to,
                value,
                timestamp,
                block_number,
                gas,
                gas_price,
                gas_used,
            },
        )
    }

    fn from_items(items: &Vec<JsonValue>) -> (decoded: Option<Transaction>)
        ensures
            decoded.deep_view() == TransactionView::from_items(items.deep_view()),
    {
        if items.len() != 9 {
            return None;
        }
        let hash = items[0].text()?;
        let from = items[1].text()?;
        let to = items[2].text()?;
        let value = items[3].text()?;
        let timestamp = items[4].text()?;
        let block_number = items[5].text()?;
        let gas = items[6].text()?;
        let gas_price = items[7].text()?;
        let gas_used = items[8].text()?;
        Some(
            Transaction {
                hash,
                from,
                to,
                value,
                timestamp,
                block_number,
                gas,
                gas_price,
                gas_used,
            },
        )
    }

    /// Reads one transaction from a JSON document: an object that gives
    /// the nine texts under the names upstream uses, or an array of the
    /// nine texts in the order of the fields.
    pub fn from_json(value: &JsonValue) -> (decoded: Option<Transaction>)
        ensures
            decoded.deep_view() == TransactionView::from_json(value@),
    {
        match value {
            JsonValue::Object(entries) => {
                proof {
                    lemma_object_view(*value);
                }
                Self::from_entries(entries)
            },
            JsonValue::Array(items) => {
                proof {
                    lemma_array_view(*value);
                }
                Self::from_items(items)
            },
            _ => None,
        }
    }

    /// Reads a list of transactions from a JSON document. The list is
    /// given only if the document is an array and every item of it is a
    /// transaction; the items keep their order.
    pub fn list_from_json(value: &JsonValue) -> (decoded: Option<Vec<Transaction>>)
        ensures
            decoded.deep_view() == TransactionView::list_from_json(value@),
    {
        match value {
            JsonValue::Array(items) => {
                proof {
                    lemma_array_view(*value);
                }
                let ghost model = items.deep_view();
                let mut list: Vec<Transaction> = Vec::new();
                let mut i: usize = 0;
                while i < items.len()
                    invariant
                        i <= items@.len(),
                        model == items.deep_view(),
                        value@ == JsonModel::Array(model),
                        list@.len() == i,
                        forall|j: int|
                            0 <= j < i ==> TransactionView::from_json(#[trigger] model[j]) == Some(
                                list@[j]@,
                            ),
                    decreases items@.len() - i,
                {
                    match Self::from_json(&items[i]) {
                        Some(transaction) => {
                            list.push(transaction);
                        },
                        None => {
                            assert(TransactionView::from_json(model[i as int]) is None);
                            return None;
                        },
                    }
                    i += 1;
                }
                proof {
                    assert(list.deep_view() =~= TransactionView::list_from_json(value@)->0);
                }
                Some(list)
            },
            _ => None,
        }
    }
}

/// The envelope in which upstream answers: a status, `"1"` for success,
/// and a payload whose shape depends on what was asked.
#[derive(Debug, PartialEq, Eq)]
pub struct EtherscanResponse {
    pub status: String,
    pub result: JsonValue,
}

/// The mathematical content of an [`EtherscanResponse`].
pub ghost struct EnvelopeView {
    pub status: Seq<char>,
    pub result: JsonModel,
}

impl EnvelopeView {
    /// Upstream reports success.
    pub open spec fn succeeded(self) -> bool {
        self.status == "1"@
    }
}

impl View for EtherscanResponse {
    type V = EnvelopeView;

    open spec fn view(&self) -> EnvelopeView {
        EnvelopeView { status: self.status@, result: self.result@ }
    }
}

impl DeepView for EtherscanResponse {
    type V = EnvelopeView;

    open spec fn deep_view(&self) -> EnvelopeView {
        self@
    }
}

impl EtherscanResponse {
    /// Whether upstream reports success.
    pub fn succeeded(&self) -> (yes: bool)
        ensures
            yes == self@.succeeded(),
    {
        crate::text::str_eq(self.status.as_str(), "1")
    }
}

/// What the balance endpoint answers.
#[derive(Debug, PartialEq, Eq)]
pub struct BalanceResponse {
    pub address: String,
    pub balance_wei: String,
    pub balance_eth: String,
}

/// The mathematical content of a [`BalanceResponse`].
pub ghost struct BalanceView {
    pub address: Seq<char>,
    pub balance_wei: Seq<char>,
    pub balance_eth: Seq<char>,
}

impl BalanceView {
    /// The answer that stands for "no balance known": zero wei, zero
    /// ether, and the address as it was asked.
    pub open spec fn zero(address: Seq<char>) -> BalanceView {
        BalanceView { address, balance_wei: "0"@, balance_eth: "0.000000"@ }
    }
}

impl View for BalanceResponse {
    type V = BalanceView;

    open spec fn view(&self) -> BalanceView {
        BalanceView {
            address: self.address@,
            balance_wei: self.balance_wei@,
            balance_eth: self.balance_eth@,
        }
    }
}

impl DeepView for BalanceResponse {
    type V = BalanceView;

    open spec fn deep_view(&self) -> BalanceView {
        self@
    }
}

impl Clone for BalanceResponse {
    fn clone(&self) -> (copy: Self)
        ensures
            copy@ == self@,
    {
        BalanceResponse {
            address: self.address.clone(),
            balance_wei: self.balance_wei.clone(),
            balance_eth: self.balance_eth.clone(),
        }
    }
}

impl BalanceResponse {
    /// The zero balance of `address`.
    pub fn zero(address: String) -> (answer: BalanceResponse)
        ensures
            answer@ == BalanceView::zero(address@),
    {
        BalanceResponse {
            address,
            balance_wei: String::from_str("0"),
            balance_eth: String::from_str("0.000000"),
        }
    }
}

/// The paging that a caller of a transaction endpoint may ask for.
#[derive(Debug, Clone, Copy, PartialEq, Eq)]
pub struct PaginationQuery {
    pub page: Option<u32>,
    pub offset: Option<u32>,
}

impl PaginationQuery {
    /// The page asked for; the first where none is.
    pub open spec fn effective_page(self) -> u32 {
        match self.page {
            Some(page) => page,
            None => 1,
        }
    }

    /// The number of entries asked for per page; 20 where none is.
    pub open spec fn effective_offset(self) -> u32 {
        match self.offset {
            Some(offset) => offset,
            None => 20,
        }
    }

    /// The page asked for; the first where none is.
    pub fn page_or_default(&self) -> (page: u32)
        ensures
            page == self.effective_page(),
    {
        match self.page {
            Some(page) => page,
            None => 1,
        }
    }

    /// The number of entries asked for per page; 20 where none is.
    pub fn offset_or_default(&self) -> (offset: u32)
        ensures
            offset == self.effective_offset(),
    {
        match self.offset {
            Some(offset) => offset,
            None => 20,
        }
    }
}

} // verus!
