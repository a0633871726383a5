//! Reshaping the explorer's replies into the service's own JSON bodies.
//!
//! The explorer's reply reaches the library as an [`UpstreamPayload`]: the
//! plain values the translation reads, extracted from the reply's JSON
//! document by whoever performed the outbound call. The translators return
//! the exact JSON text the service sends back, always under HTTP 200.

use vstd::prelude::*;
use crate::digits::{dec_val, eth_str, eth_string, is_u128_numeral, parse_u128_digits};
use crate::jsontext::{json_quoted, json_quoted_string};

verus! {

/// What the translation reads of an explorer reply.
///
/// `status` and `result_text` hold the `status` and `result` fields when
/// those are JSON strings, and nothing otherwise. `result_json` and
/// `message_json` hold the `result` and `message` fields as JSON text
/// (`null` when absent), and `raw_json` the whole document as JSON text.
pub struct UpstreamPayload {
    pub status: Option<String>,
    pub result_text: Option<String>,
    pub result_json: String,
    pub message_json: String,
    pub raw_json: String,
}

/// The explorer signalled success: its `status` field is the string "1".
pub open spec fn spec_status_is_one(st: Option<String>) -> bool {
    st matches Some(s) && s@ == seq!['1']
}

/// Decides whether a payload's status field is the string "1".
pub fn status_is_one(st: &Option<String>) -> (r: bool)
    ensures
        r == spec_status_is_one(*st),
{
    match st {
        Some(s) => {
            if s.as_str().unicode_len() == 1 {
                let c = s.as_str().get_char(0);
                proof {
                    if c == '1' {
                        assert(s@ =~= seq!['1']);
                    }
                }
                c == '1'
            } else {
                false
            }
        },
        None => false,
    }
}

/// The balance success body: the address, the wei numeral unchanged, the
/// ether value to six decimal places, and a success status.
pub open spec fn spec_balance_success(address: Seq<char>, wei: Seq<char>) -> Seq<char> {
    "{\"address\":"@ + json_quoted(address) + ",\"balance_wei\":"@ + json_quoted(wei)
        + ",\"balance_eth\":"@ + json_quoted(eth_str(dec_val(wei))) + ",\"status\":\"success\"}"@
}

/// The balance body: the success shape when the explorer signalled success
/// and its result is a wei numeral that fits in a `u128`; otherwise the raw
/// upstream document, passed through unchanged.
pub open spec fn spec_balance_body(address: Seq<char>, p: UpstreamPayload) -> Seq<char> {
    if spec_status_is_one(p.status) && (p.result_text matches Some(rs) && is_u128_numeral(rs@)) {
        spec_balance_success(address, p.result_text->Some_0@)
    } else {
        p.raw_json@
    }
}

/// Translates an explorer balance reply into the body the service returns.
pub fn balance_body(address: &str, upstream: &UpstreamPayload) -> (r: String)
    ensures
        r@ == spec_balance_body(address@, *upstream),
{
    if status_is_one(&upstream.status) {
        if let Some(rs) = &upstream.result_text {
            if let Some(wei) = parse_u128_digits(rs.as_str()) {
                let mut out = String::from_str("{\"address\":");
                let q_addr = json_quoted_string(address);
                out.append(q_addr.as_str());
                out.append(",\"balance_wei\":");
                let q_wei = json_quoted_string(rs.as_str());
                out.append(q_wei.as_str());
                out.append(",\"balance_eth\":");
                let eth = eth_string(wei);
                let q_eth = json_quoted_string(eth.as_str());
                out.append(q_eth.as_str());
                out.append(",\"status\":\"success\"}");
                proof {
                    assert(out@ =~= spec_balance_body(address@, *upstream));
                }
                return out;
            }
        }
    }
    upstream.raw_json.clone()
}

/// The transaction-list success body: the address, the explorer's result
/// embedded verbatim as the transaction list, and a success status.
pub open spec fn spec_transactions_success(address: Seq<char>, result_json: Seq<char>) -> Seq<
    char,
> {
    "{\"address\":"@ + json_quoted(address) + ",\"transactions\":"@ + result_json
        + ",\"status\":\"success\"}"@
}

/// The transaction-list failure body: the address, the explorer's message
/// embedded verbatim as the error, and an error status.
pub open spec fn spec_transactions_failure(address: Seq<char>, message_json: Seq<char>) -> Seq<
    char,
> {
    "{\"address\":"@ + json_quoted(address) + ",\"error\":"@ + message_json
        + ",\"status\":\"error\"}"@
}

/// The transaction-list body: success carries the explorer's result, any
/// other status carries the explorer's message as the error.
pub open spec fn spec_transactions_body(address: Seq<char>, p: UpstreamPayload) -> Seq<char> {
    if spec_status_is_one(p.status) {
        spec_transactions_success(address, p.result_json@)
    } else {
        spec_transactions_failure(address, p.message_json@)
    }
}

/// Translates an explorer transaction-list reply into the body the service
/// returns.
pub fn transactions_body(address: &str, upstream: &UpstreamPayload) -> (r: String)
    ensures
        r@ == spec_transactions_body(address@, *upstream),
{
    let mut out = String::from_str("{\"address\":");
    let q_addr = json_quoted_string(address);
    out.append(q_addr.as_str());
    if status_is_one(&upstream.status) {
        out.append(",\"transactions\":");
        out.append(upstream.result_json.as_str());
        out.append(",\"status\":\"success\"}");
        proof {
            assert(out@ =~= spec_transactions_body(address@, *upstream));
        }
    } else {
        out.append(",\"error\":");
        out.append(upstream.message_json.as_str());
        out.append(",\"status\":\"error\"}");
        proof {
            assert(out@ =~= spec_transactions_body(address@, *upstream));
        }
    }
    out
}

/// The body returned when the outbound call itself failed: a prefixed
/// description of the failure and an error status.
pub open spec fn spec_fetch_error_body(prefix: Seq<char>, desc: Seq<char>) -> Seq<char> {
    "{\"error\":"@ + json_quoted(prefix + desc) + ",\"status\":\"error\"}"@
}

/// The transport-failure body for the balance endpoint.
pub fn balance_error_body(desc: &str) -> (r: String)
    ensures
        r@ == spec_fetch_error_body("Failed to fetch data from Etherscan: "@, desc@),
{
    let mut msg = String::from_str("Failed to fetch data from Etherscan: ");
    msg.append(desc);
    let mut out = String::from_str("{\"error\":");
    let q_msg = json_quoted_string(msg.as_str());
    out.append(q_msg.as_str());
    out.append(",\"status\":\"error\"}");
    proof {
        assert(out@ =~= spec_fetch_error_body("Failed to fetch data from Etherscan: "@, desc@));
    }
    out
}

/// The transport-failure body for the transaction-list endpoint.
pub fn transactions_error_body(desc: &str) -> (r: String)
    ensures
        r@ == spec_fetch_error_body("Failed to fetch transactions: "@, desc@),
{
    let mut msg = String::from_str("Failed to fetch transactions: ");
    msg.append(desc);
    let mut out = String::from_str("{\"error\":");
    let q_msg = json_quoted_string(msg.as_str());
    out.append(q_msg.as_str());
    out.append(",\"status\":\"error\"}");
    proof {
        assert(out@ =~= spec_fetch_error_body("Failed to fetch transactions: "@, desc@));
    }
    out
}

/// The whole balance endpoint, after the outbound call: either the
/// translated payload or the transport-failure body.
pub open spec fn spec_balance_response(address: Seq<char>, fetched: Result<
    UpstreamPayload,
    String,
>) -> Seq<char> {
    match fetched {
        Ok(p) => spec_balance_body(address, p),
        Err(e) => spec_fetch_error_body("Failed to fetch data from Etherscan: "@, e@),
    }
}

/// Produces the balance endpoint's body from the outbound call's outcome.
pub fn balance_response(address: &str, fetched: &Result<UpstreamPayload, String>) -> (r: String)
    ensures
        r@ == spec_balance_response(address@, *fetched),
{
    match fetched {
        Ok(p) => balance_body(address, p),
        Err(e) => balance_error_body(e.as_str()),
    }
}

/// The whole transaction-list endpoint, after the outbound call: either the
/// translated payload or the transport-failure body.
pub open spec fn spec_transactions_response(address: Seq<char>, fetched: Result<
    UpstreamPayload,
    String,
>) -> Seq<char> {
    match fetched {
        Ok(p) => spec_transactions_body(address, p),
        Err(e) => spec_fetch_error_body("Failed to fetch transactions: "@, e@),
    }
}

/// Produces the transaction-list endpoint's body from the outbound call's
/// outcome.
pub fn transactions_response(address: &str, fetched: &Result<UpstreamPayload, String>) -> (r:
    String)
    ensures
        r@ == spec_transactions_response(address@, *fetched),
{
    match fetched {
        Ok(p) => transactions_body(address, p),
        Err(e) => transactions_error_body(e.as_str()),
    }
}

} // verus!
