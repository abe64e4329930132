//! The three endpoints: what each asks of upstream, and what each answers
//! once upstream has replied or failed to.
//!
//! An endpoint never reports a fault. It asks upstream only for a valid
//! address, and it answers every failure, whatever its cause, with a
//! fallback that has the shape of a success: the zero balance, or the
//! empty list.
//!
//! The call to upstream itself is the caller's: a `*_request` function says
//! what to ask, and the `get_*` function of the same endpoint takes what
//! came back, as an envelope or as the [`Failure`] that stood in its way.

use crate::config::AppState;
use crate::json::JsonModel;
use crate::models::{lemma_reads_the_list_upstream_writes, PaginationQuery};
use crate::models::{BalanceResponse, BalanceView, EnvelopeView, EtherscanResponse};
use crate::models::{Transaction, TransactionView};
use crate::text::{decimal, push_decimal};
use crate::utils::{is_valid_address, is_valid_ethereum_address};
use vstd::prelude::*;

verus! {

/// Why an endpoint falls back.
#[derive(Debug, Clone, Copy, PartialEq, Eq)]
pub enum Failure {
    /// The address does not have the shape of an account address.
    InvalidAddress,
    /// The request to upstream did not complete.
    Network,
    /// The body of upstream's reply could not be read.
    Body,
    /// The body of upstream's reply is not an envelope.
    Parse,
    /// The envelope does not report success.
    Status,
    /// The payload of the envelope does not have the shape asked for.
    Shape,
}

/// The mathematical content of what came back from upstream.
pub open spec fn reply_view(reply: Result<EtherscanResponse, Failure>) -> Result<
    EnvelopeView,
    Failure,
> {
    match reply {
        Ok(envelope) => Ok(envelope@),
        Err(failure) => Err(failure),
    }
}

/// The URL that asks upstream for the balance of `address` at the latest
/// block.
pub open spec fn balance_url(address: Seq<char>, api_key: Seq<char>) -> Seq<char> {
    "https://api.etherscan.io/v2/api?chainid=1&module=account&action=balance&address="@ + address
        + "&tag=latest&apikey="@ + api_key
}

/// The URL that asks upstream for one page of what `action` lists for
/// `address`, over all blocks, the latest first.
pub open spec fn listing_url(
    action: Seq<char>,
    address: Seq<char>,
    page: nat,
    offset: nat,
    api_key: Seq<char>,
) -> Seq<char> {
    "https://api.etherscan.io/v2/api?chainid=1&module=account&action="@ + action + "&address="@
        + address + "&startblock=0&endblock=99999999&page="@ + decimal(page) + "&offset="@
        + decimal(offset) + "&sort=desc&apikey="@ + api_key
}

/// The URL that asks upstream for the transactions of `address`.
pub open spec fn transactions_url(
    address: Seq<char>,
    params: PaginationQuery,
    api_key: Seq<char>,
) -> Seq<char> {
    listing_url(
        "txlist"@,
        address,
        params.effective_page() as nat,
        params.effective_offset() as nat,
        api_key,
    )
}

/// The URL that asks upstream for the internal transactions of `address`.
pub open spec fn internal_transactions_url(
    address: Seq<char>,
    params: PaginationQuery,
    api_key: Seq<char>,
) -> Seq<char> {
    listing_url(
        "txlistinternal"@,
        address,
        params.effective_page() as nat,
        params.effective_offset() as nat,
        api_key,
    )
}

/// The balance in wei that the balance endpoint has learnt, or why it has
/// learnt none. A successful envelope whose payload is no text counts as
/// zero wei.
pub open spec fn balance_outcome(address: Seq<char>, reply: Result<EnvelopeView, Failure>) -> Result<
    Seq<char>,
    Failure,
> {
    if !is_valid_address(address) {
        Err(Failure::InvalidAddress)
    } else {
        match reply {
            Err(failure) => Err(failure),
            Ok(envelope) => if !envelope.succeeded() {
                Err(Failure::Status)
            } else {
                match envelope.result.text() {
                    Some(wei) => Ok(wei),
                    None => Ok("0"@),
                }
            },
        }
    }
}

/// What the balance endpoint answers, where `balance_eth` is what the
/// conversion to ether gave for the balance it has learnt: that balance,
/// or the zero balance where it has learnt none.
pub open spec fn balance_answer(
    address: Seq<char>,
    reply: Result<EnvelopeView, Failure>,
    balance_eth: Seq<char>,
) -> BalanceView {
    match balance_outcome(address, reply) {
        Ok(balance_wei) => BalanceView { address, balance_wei, balance_eth },
        Err(_) => BalanceView::zero(address),
    }
}

/// The transactions that a transaction endpoint has learnt, or why it has
/// learnt none.
pub open spec fn transactions_outcome(
    address: Seq<char>,
    reply: Result<EnvelopeView, Failure>,
) -> Result<Seq<TransactionView>, Failure> {
    if !is_valid_address(address) {
        Err(Failure::InvalidAddress)
    } else {
        match reply {
            Err(failure) => Err(failure),
            Ok(envelope) => if !envelope.succeeded() {
                Err(Failure::Status)
            } else {
                match TransactionView::list_from_json(envelope.result) {
                    Some(list) => Ok(list),
                    None => Err(Failure::Shape),
                }
            },
        }
    }
}

/// What a transaction endpoint answers: the transactions it has learnt,
/// or the empty list.
pub open spec fn transactions_answer(
    address: Seq<char>,
    reply: Result<EnvelopeView, Failure>,
) -> Seq<TransactionView> {
    match transactions_outcome(address, reply) {
        Ok(list) => list,
        Err(_) => Seq::empty(),
    }
}

/// The balance endpoint answers the zero balance for an address that is
/// not valid, for a call to upstream that failed, and for an envelope that
/// does not report success.
pub proof fn lemma_balance_falls_back_to_zero(
    address: Seq<char>,
    reply: Result<EnvelopeView, Failure>,
    balance_eth: Seq<char>,
)
    requires
        !is_valid_address(address) || reply is Err || !reply->Ok_0.succeeded(),
    ensures
        balance_outcome(address, reply) is Err,
        balance_answer(address, reply, balance_eth) == BalanceView::zero(address),
{
}

/// Two answers of the balance endpoint that are both fallbacks differ in
/// nothing but the address they echo, whatever made each fall back.
pub proof fn lemma_balance_fallbacks_are_alike(
    address: Seq<char>,
    reply: Result<EnvelopeView, Failure>,
    balance_eth: Seq<char>,
    other_address: Seq<char>,
    other_reply: Result<EnvelopeView, Failure>,
    other_balance_eth: Seq<char>,
)
    requires
        balance_outcome(address, reply) is Err,
        balance_outcome(other_address, other_reply) is Err,
    ensures
        balance_answer(address, reply, balance_eth).balance_wei == balance_answer(
            other_address,
            other_reply,
            other_balance_eth,
        ).balance_wei,
        balance_answer(address, reply, balance_eth).balance_eth == balance_answer(
            other_address,
            other_reply,
            other_balance_eth,
        ).balance_eth,
        balance_answer(address, reply, balance_eth).address == address,
{
}

/// A caller that asks for no paging is served the first page, of 20
/// entries.
pub proof fn lemma_paging_defaults(address: Seq<char>, api_key: Seq<char>)
    ensures
        transactions_url(address, PaginationQuery { page: None, offset: None }, api_key)
            == listing_url("txlist"@, address, 1, 20, api_key),
        internal_transactions_url(address, PaginationQuery { page: None, offset: None }, api_key)
            == listing_url("txlistinternal"@, address, 1, 20, api_key),
        decimal(1) == seq!['1'],
        decimal(20) == seq!['2', '0'],
{
    reveal_with_fuel(decimal, 2);
    assert(decimal(20) =~= seq!['2', '0']);
}

/// For a valid address, a transaction endpoint answers what upstream
/// listed under a status of success, transaction for transaction and in
/// upstream's order.
pub proof fn lemma_answers_what_upstream_listed(address: Seq<char>, list: Seq<TransactionView>)
    requires
        is_valid_address(address),
    ensures
        transactions_answer(
            address,
            Ok(
                EnvelopeView {
                    status: "1"@,
                    result: JsonModel::Array(
                        Seq::new(
                            list.len(),
                            |i: int| JsonModel::Object(list[i].upstream_entries()),
                        ),
                    ),
                },
            ),
        ) == list,
{
    lemma_reads_the_list_upstream_writes(list);
}

/// A transaction endpoint answers the empty list on every failure; among
/// them, on a payload that is no list of transactions.
pub proof fn lemma_transactions_fall_back_to_empty(
    address: Seq<char>,
    reply: Result<EnvelopeView, Failure>,
)
    requires
        !is_valid_address(address) || reply is Err || !reply->Ok_0.succeeded()
            || TransactionView::list_from_json(reply->Ok_0.result) is None,
    ensures
        transactions_outcome(address, reply) is Err,
        transactions_answer(address, reply) == Seq::<TransactionView>::empty(),
{
}

/// What the balance endpoint asks of upstream: nothing for an address that
/// is not valid, else the balance of the address at the latest block.
pub fn balance_request(state: &AppState, address: &str) -> (request: Result<String, Failure>)
    ensures
        request is Ok <==> is_valid_address(address@),
        request matches Ok(url) ==> url@ == balance_url(address@, state.api_key@),
        request matches Err(failure) ==> failure == Failure::InvalidAddress,
{
    if !is_valid_ethereum_address(address) {
        return Err(Failure::InvalidAddress);
    }
    let mut url = String::from_str(
        "https://api.etherscan.io/v2/api?chainid=1&module=account&action=balance&address=",
    );
    url.append(address);
    url.append("&tag=latest&apikey=");
    url.append(state.api_key.as_str());
    Ok(url)
}

fn listing_request(
    action: &str,
    state: &AppState,
    address: &str,
    params: &PaginationQuery,
) -> (request: Result<String, Failure>)
    ensures
        request is Ok <==> is_valid_address(address@),
        request matches Ok(url) ==> url@ == listing_url(
            action@,
            address@,
            params.effective_page() as nat,
            params.effective_offset() as nat,
            state.api_key@,
        ),
        request matches Err(failure) ==> failure == Failure::InvalidAddress,
{
    if !is_valid_ethereum_address(address) {
        return Err(Failure::InvalidAddress);
    }
    let mut url = String::from_str(
        "https://api.etherscan.io/v2/api?chainid=1&module=account&action=",
    );
    url.append(action);
    url.append("&address=");
    url.append(address);
    url.append("&startblock=0&endblock=99999999&page=");
    push_decimal(&mut url, params.page_or_default());
    url.append("&offset=");
    push_decimal(&mut url, params.offset_or_default());
    url.append("&sort=desc&apikey=");
    url.append(state.api_key.as_str());
    Ok(url)
}

/// What the transaction endpoint asks of upstream: nothing for an address
/// that is not valid, else one page of the transactions of the address.
pub fn transactions_request(state: &AppState, address: &str, params: &PaginationQuery) -> (request:
    Result<String, Failure>)
    ensures
        request is Ok <==> is_valid_address(address@),
        request matches Ok(url) ==> url@ == transactions_url(address@, *params, state.api_key@),
        request matches Err(failure) ==> failure == Failure::InvalidAddress,
{
    listing_request("txlist", state, address, params)
}

/// What the internal-transaction endpoint asks of upstream: nothing for an
/// address that is not valid, else one page of the internal transactions
/// of the address.
pub fn internal_transactions_request(
    state: &AppState,
    address: &str,
    params: &PaginationQuery,
) -> (request: Result<String, Failure>)
    ensures
        request is Ok <==> is_valid_address(address@),
        request matches Ok(url) ==> url@ == internal_transactions_url(
            address@,
            *params,
            state.api_key@,
        ),
        request matches Err(failure) ==> failure == Failure::InvalidAddress,
{
    listing_request("txlistinternal", state, address, params)
}

/// The balance in wei that upstream reported for `address`, or the reason
/// why the endpoint falls back.
pub fn reported_balance(address: &str, reply: &Result<EtherscanResponse, Failure>) -> (reported:
    Result<String, Failure>)
    ensures
        match balance_outcome(address@, reply_view(*reply)) {
            Ok(wei) => reported matches Ok(text) && text@ == wei,
            Err(failure) => reported == Err::<String, Failure>(failure),
        },
{
    if !is_valid_ethereum_address(address) {
        return Err(Failure::InvalidAddress);
    }
    match reply {
        Err(failure) => Err(*failure),
        Ok(envelope) => {
            if !envelope.succeeded() {
                return Err(Failure::Status);
            }
            match envelope.result.text() {
                Some(wei) => Ok(wei),
                None => Ok(String::from_str("0")),
            }
        },
    }
}

/// The transactions that upstream listed for `address`, or the reason why
/// the endpoint falls back.
pub fn listed_transactions(address: &str, reply: &Result<EtherscanResponse, Failure>) -> (listed:
    Result<Vec<Transaction>, Failure>)
    ensures
        match transactions_outcome(address@, reply_view(*reply)) {
            Ok(list) => listed matches Ok(found) && found.deep_view() == list,
            Err(failure) => listed == Err::<Vec<Transaction>, Failure>(failure),
        },
{
    if !is_valid_ethereum_address(address) {
        return Err(Failure::InvalidAddress);
    }
    match reply {
        Err(failure) => Err(*failure),
        Ok(envelope) => {
            if !envelope.succeeded() {
                return Err(Failure::Status);
            }
            match Transaction::list_from_json(&envelope.result) {
                Some(list) => Ok(list),
                None => Err(Failure::Shape),
            }
        },
    }
}

/// The balance endpoint. It answers the zero balance unless upstream
/// reported a balance for a valid address; then it answers that balance in
/// wei, and in ether as `to_eth` converts it. The conversion is the
/// caller's because it computes in floating point; it is called once, on
/// the reported balance, and not at all for a fallback.
pub fn get_balance<F: Fn(&str) -> String>(
    address: String,
    reply: Result<EtherscanResponse, Failure>,
    to_eth: F,
) -> (answer: BalanceResponse)
    requires
        forall|wei: &str| call_requires(to_eth, (wei,)),
    ensures
        answer@ == balance_answer(address@, reply_view(reply), answer.balance_eth@),
        balance_outcome(address@, reply_view(reply)) matches Ok(balance_wei) ==> exists|asked: &str|
            asked@ == balance_wei && call_ensures(to_eth, (asked,), answer.balance_eth),
{
    match reported_balance(address.as_str(), &reply) {
        Ok(balance_wei) => {
            let balance_eth = to_eth(balance_wei.as_str());
            BalanceResponse { address, balance_wei, balance_eth }
        },
        Err(_) => BalanceResponse::zero(address),
    }
}

/// The transaction endpoint. It answers the transactions that upstream
/// listed for a valid address, as upstream ordered them, and the empty
/// list on every failure.
pub fn get_transactions(address: &str, reply: Result<EtherscanResponse, Failure>) -> (answer: Vec<
    Transaction,
>)
    ensures
        answer.deep_view() == transactions_answer(address@, reply_view(reply)),
{
    match listed_transactions(address, &reply) {
        Ok(list) => list,
        Err(_) => {
            let empty: Vec<Transaction> = Vec::new();
            assert(empty.deep_view() =~= Seq::<TransactionView>::empty());
            empty
        },
    }
}

/// The internal-transaction endpoint. It answers as the transaction
/// endpoint does; the two differ in what they ask of upstream.
pub fn get_internal_transactions(address: &str, reply: Result<EtherscanResponse, Failure>) -> (answer:
    Vec<Transaction>)
    ensures
        answer.deep_view() == transactions_answer(address@, reply_view(reply)),
{
    get_transactions(address, reply)
}

} // verus!
