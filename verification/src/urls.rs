//! The outbound explorer query URLs: a fixed base, the mainnet chain
//! identifier, and endpoint-specific parameters around the configured
//! address and key.

use vstd::prelude::*;

verus! {

/// The balance query: `module=account&action=balance`, latest tag.
pub open spec fn spec_balance_url(address: Seq<char>, api_key: Seq<char>) -> Seq<char> {
    "https://api.etherscan.io/v2/api?chainid=1&module=account&action=balance&address="@ + address
        + "&tag=latest&apikey="@ + api_key
}

/// The transaction-list query: `module=account&action=txlist`, first page of
/// one hundred, newest first.
pub open spec fn spec_transactions_url(address: Seq<char>, api_key: Seq<char>) -> Seq<char> {
    "https://api.etherscan.io/v2/api?chainid=1&module=account&action=txlist&address="@ + address
        + "&page=1&offset=100&sort=desc&apikey="@ + api_key
}

/// Builds the balance query URL for an address and key.
pub fn balance_url(address: &str, api_key: &str) -> (r: String)
    ensures
        r@ == spec_balance_url(address@, api_key@),
{
    let mut out = String::from_str(
        "https://api.etherscan.io/v2/api?chainid=1&module=account&action=balance&address=",
    );
    out.append(address);
    out.append("&tag=latest&apikey=");
    out.append(api_key);
    out
}

/// Builds the transaction-list query URL for an address and key.
pub fn transactions_url(address: &str, api_key: &str) -> (r: String)
    ensures
        r@ == spec_transactions_url(address@, api_key@),
{
    let mut out = String::from_str(
        "https://api.etherscan.io/v2/api?chainid=1&module=account&action=txlist&address=",
    );
    out.append(address);
    out.append("&page=1&offset=100&sort=desc&apikey=");
    out.append(api_key);
    out
}

} // verus!
