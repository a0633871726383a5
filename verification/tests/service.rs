use eth_proxy::config::{build_config, ConfigError};
use eth_proxy::digits::{dec_string_u128, eth_string, parse_u128_digits};
use eth_proxy::jsontext::json_quoted_string;
use eth_proxy::translate::{
    balance_body, balance_response, transactions_body, transactions_response, UpstreamPayload,
};
use eth_proxy::urls::{balance_url, transactions_url};

fn payload(
    status: Option<&str>,
    result_text: Option<&str>,
    result_json: &str,
    message_json: &str,
    raw_json: &str,
) -> UpstreamPayload {
    UpstreamPayload {
        status: status.map(|s| s.to_string()),
        result_text: result_text.map(|s| s.to_string()),
        result_json: result_json.to_string(),
        message_json: message_json.to_string(),
        raw_json: raw_json.to_string(),
    }
}

fn balance_success_payload(wei: &str) -> UpstreamPayload {
    let raw = format!(
        "{{\"status\":\"1\",\"message\":\"OK\",\"result\":\"{}\"}}",
        wei
    );
    payload(
        Some("1"),
        Some(wei),
        &format!("\"{}\"", wei),
        "\"OK\"",
        &raw,
    )
}

#[test]
fn balance_success_one_eth() {
    let p = balance_success_payload("1000000000000000000");
    let body = balance_body("0xabc", &p);
    assert_eq!(
        body,
        "{\"address\":\"0xabc\",\"balance_wei\":\"1000000000000000000\",\"balance_eth\":\"1.000000\",\"status\":\"success\"}"
    );
}

#[test]
fn balance_success_rounds_half_up() {
    let p = balance_success_payload("1500000000000");
    let body = balance_body("0xabc", &p);
    assert!(body.contains("\"balance_eth\":\"0.000002\""));
    assert!(body.contains("\"balance_wei\":\"1500000000000\""));
}

#[test]
fn balance_success_rounds_down_below_half() {
    let p = balance_success_payload("1499999999999");
    let body = balance_body("0xabc", &p);
    assert!(body.contains("\"balance_eth\":\"0.000001\""));
}

#[test]
fn balance_success_round_carries_into_whole() {
    let p = balance_success_payload("1999999500000000000");
    let body = balance_body("0xabc", &p);
    assert!(body.contains("\"balance_eth\":\"2.000000\""));
}

#[test]
fn balance_success_zero_wei() {
    let p = balance_success_payload("0");
    let body = balance_body("0xabc", &p);
    assert!(body.contains("\"balance_wei\":\"0\""));
    assert!(body.contains("\"balance_eth\":\"0.000000\""));
}

#[test]
fn balance_success_largest_wei() {
    let p = balance_success_payload("340282366920938463463374607431768211455");
    let body = balance_body("0xabc", &p);
    assert!(body.contains("\"balance_eth\":\"340282366920938463463.374607\""));
}

#[test]
fn balance_wei_string_kept_verbatim() {
    let p = balance_success_payload("007");
    let body = balance_body("0xabc", &p);
    assert!(body.contains("\"balance_wei\":\"007\""));
    assert!(body.contains("\"balance_eth\":\"0.000000\""));
}

#[test]
fn balance_status_zero_passes_raw_document_through() {
    let raw = "{\"status\":\"0\",\"message\":\"NOTOK\",\"result\":\"Invalid API Key\"}";
    let p = payload(
        Some("0"),
        Some("Invalid API Key"),
        "\"Invalid API Key\"",
        "\"NOTOK\"",
        raw,
    );
    let body = balance_body("0xabc", &p);
    assert_eq!(body, raw);
}

#[test]
fn balance_missing_status_passes_raw_document_through() {
    let raw = "{\"result\":\"123\"}";
    let p = payload(None, Some("123"), "\"123\"", "null", raw);
    assert_eq!(balance_body("0xabc", &p), raw);
}

#[test]
fn balance_non_numeric_result_passes_raw_document_through() {
    let raw = "{\"status\":\"1\",\"result\":\"12x3\"}";
    let p = payload(Some("1"), Some("12x3"), "\"12x3\"", "null", raw);
    assert_eq!(balance_body("0xabc", &p), raw);
}

#[test]
fn balance_overflowing_result_passes_raw_document_through() {
    let wei = "340282366920938463463374607431768211456";
    let raw = format!("{{\"status\":\"1\",\"result\":\"{}\"}}", wei);
    let p = payload(Some("1"), Some(wei), &format!("\"{}\"", wei), "null", &raw);
    assert_eq!(balance_body("0xabc", &p), raw);
}

#[test]
fn balance_missing_result_passes_raw_document_through() {
    let raw = "{\"status\":\"1\",\"message\":\"OK\"}";
    let p = payload(Some("1"), None, "null", "\"OK\"", raw);
    assert_eq!(balance_body("0xabc", &p), raw);
}

#[test]
fn transactions_success_keeps_result_verbatim() {
    let result = "[{\"hash\":\"0x1\"},{\"hash\":\"0x2\"}]";
    let raw = format!(
        "{{\"status\":\"1\",\"message\":\"OK\",\"result\":{}}}",
        result
    );
    let p = payload(Some("1"), None, result, "\"OK\"", &raw);
    let body = transactions_body("0xabc", &p);
    assert_eq!(
        body,
        "{\"address\":\"0xabc\",\"transactions\":[{\"hash\":\"0x1\"},{\"hash\":\"0x2\"}],\"status\":\"success\"}"
    );
}

#[test]
fn transactions_failure_reports_upstream_message() {
    let raw = "{\"status\":\"0\",\"message\":\"No transactions found\",\"result\":[]}";
    let p = payload(
        Some("0"),
        None,
        "[]",
        "\"No transactions found\"",
        raw,
    );
    let body = transactions_body("0xabc", &p);
    assert_eq!(
        body,
        "{\"address\":\"0xabc\",\"error\":\"No transactions found\",\"status\":\"error\"}"
    );
}

#[test]
fn balance_fetch_failure_reports_description() {
    let fetched: Result<UpstreamPayload, String> =
        Err("connection timed out".to_string());
    let body = balance_response("0xabc", &fetched);
    assert_eq!(
        body,
        "{\"error\":\"Failed to fetch data from Etherscan: connection timed out\",\"status\":\"error\"}"
    );
}

#[test]
fn transactions_fetch_failure_reports_description() {
    let fetched: Result<UpstreamPayload, String> =
        Err("connection timed out".to_string());
    let body = transactions_response("0xabc", &fetched);
    assert_eq!(
        body,
        "{\"error\":\"Failed to fetch transactions: connection timed out\",\"status\":\"error\"}"
    );
}

#[test]
fn repeated_identical_requests_produce_identical_bytes() {
    let first = balance_response(
        "0xabc",
        &Ok(balance_success_payload("123456789000000000")),
    );
    let second = balance_response(
        "0xabc",
        &Ok(balance_success_payload("123456789000000000")),
    );
    assert_eq!(first, second);
    let result = "[{\"hash\":\"0x1\"}]";
    let raw = format!("{{\"status\":\"1\",\"result\":{}}}", result);
    let tx_first =
        transactions_response("0xabc", &Ok(payload(Some("1"), None, result, "null", &raw)));
    let tx_second =
        transactions_response("0xabc", &Ok(payload(Some("1"), None, result, "null", &raw)));
    assert_eq!(tx_first, tx_second);
}

#[test]
fn config_requires_api_key() {
    let r = build_config(None, Some("0xabc".to_string()));
    assert_eq!(r.err(), Some(ConfigError::MissingApiKey));
    assert_eq!(
        ConfigError::MissingApiKey.message(),
        "Missing ETHERSCAN_API_KEY in .env"
    );
}

#[test]
fn config_requires_address() {
    let r = build_config(Some("KEY".to_string()), None);
    assert_eq!(r.err(), Some(ConfigError::MissingAddress));
    assert_eq!(
        ConfigError::MissingAddress.message(),
        "Missing ETH_ADDRESS in .env"
    );
}

#[test]
fn config_carries_both_values() {
    let r = build_config(Some("KEY".to_string()), Some("0xabc".to_string()));
    let c = r.unwrap();
    assert_eq!(c.api_key, "KEY");
    assert_eq!(c.address, "0xabc");
}

#[test]
fn balance_url_is_exact() {
    assert_eq!(
        balance_url("0xabc", "KEY"),
        "https://api.etherscan.io/v2/api?chainid=1&module=account&action=balance&address=0xabc&tag=latest&apikey=KEY"
    );
}

#[test]
fn transactions_url_is_exact() {
    assert_eq!(
        transactions_url("0xabc", "KEY"),
        "https://api.etherscan.io/v2/api?chainid=1&module=account&action=txlist&address=0xabc&page=1&offset=100&sort=desc&apikey=KEY"
    );
}

#[test]
fn parse_rejects_signs_blanks_and_empties() {
    assert_eq!(parse_u128_digits("123"), Some(123));
    assert_eq!(parse_u128_digits("+123"), None);
    assert_eq!(parse_u128_digits("-1"), None);
    assert_eq!(parse_u128_digits(" 1"), None);
    assert_eq!(parse_u128_digits(""), None);
    assert_eq!(
        parse_u128_digits("340282366920938463463374607431768211455"),
        Some(u128::MAX)
    );
    assert_eq!(
        parse_u128_digits("340282366920938463463374607431768211456"),
        None
    );
}

#[test]
fn decimal_rendering_is_exact() {
    assert_eq!(dec_string_u128(0), "0");
    assert_eq!(dec_string_u128(7), "7");
    assert_eq!(dec_string_u128(1048576), "1048576");
    assert_eq!(
        dec_string_u128(u128::MAX),
        "340282366920938463463374607431768211455"
    );
}

#[test]
fn eth_rendering_is_exact() {
    assert_eq!(eth_string(0), "0.000000");
    assert_eq!(eth_string(1), "0.000000");
    assert_eq!(eth_string(500000000000), "0.000001");
    assert_eq!(eth_string(1000000000000000000), "1.000000");
    assert_eq!(eth_string(1234567891234567891), "1.234568");
}

#[test]
fn quoted_strings_escape_specials() {
    assert_eq!(json_quoted_string("plain"), "\"plain\"");
    assert_eq!(json_quoted_string("a\"b"), "\"a\\\"b\"");
    assert_eq!(json_quoted_string("a\\b"), "\"a\\\\b\"");
    assert_eq!(json_quoted_string("a\nb"), "\"a\\u000ab\"");
}

#[test]
fn bodies_parse_as_json_and_keep_field_values() {
    let odd_address = "0x\"quoted\\slash\nline";
    let p = balance_success_payload("2000000000000000000");
    let body = balance_body(odd_address, &p);
    let v: serde_json::Value = serde_json::from_str(&body).unwrap();
    assert_eq!(v["address"].as_str(), Some(odd_address));
    assert_eq!(v["balance_wei"].as_str(), Some("2000000000000000000"));
    assert_eq!(v["balance_eth"].as_str(), Some("2.000000"));
    assert_eq!(v["status"].as_str(), Some("success"));
}
