//! The service-level laws: what holds of every translated reply.

use vstd::prelude::*;
use crate::digits::{
    all_dec_digits, dec_str, eth_str, eth_units, frac6, is_dec_digit, is_u128_numeral,
    lemma_dec_str_digits,
};
use crate::jsontext::{esc_char, esc_seq, json_quoted};
use crate::translate::{
    spec_balance_body, spec_balance_success, spec_status_is_one, spec_transactions_body,
    spec_transactions_failure, spec_transactions_success, UpstreamPayload,
};

verus! {

/// For any explorer balance reply with status "1" whose result is a wei
/// numeral `w` fitting a `u128`, the service body is the success object:
/// the address, `w` unchanged, and the ether value of `w` to six decimal
/// places.
pub proof fn lemma_balance_success_shape(address: Seq<char>, p: UpstreamPayload, w: Seq<char>)
    requires
        spec_status_is_one(p.status),
        p.result_text matches Some(rs) && rs@ == w,
        is_u128_numeral(w),
    ensures
        spec_balance_body(address, p) == spec_balance_success(address, w),
{
}

/// A balance reply whose status is not the string "1" (for instance "0") is
/// passed through: the service body is the raw upstream document unchanged.
pub proof fn lemma_balance_passthrough_status(address: Seq<char>, p: UpstreamPayload)
    requires
        !spec_status_is_one(p.status),
    ensures
        spec_balance_body(address, p) == p.raw_json@,
{
}

/// A balance reply whose result is missing, not a string, or not a wei
/// numeral fitting a `u128` is passed through, whatever its status.
pub proof fn lemma_balance_passthrough_result(address: Seq<char>, p: UpstreamPayload)
    requires
        match p.result_text {
            Some(rs) => !is_u128_numeral(rs@),
            None => true,
        },
    ensures
        spec_balance_body(address, p) == p.raw_json@,
{
}

/// For any explorer transaction reply with status "1", the service body is
/// the success object: the address, the explorer's result embedded verbatim
/// (content and order kept), and a success status.
pub proof fn lemma_transactions_success_shape(address: Seq<char>, p: UpstreamPayload)
    requires
        spec_status_is_one(p.status),
    ensures
        spec_transactions_body(address, p) == spec_transactions_success(address, p.result_json@),
{
}

/// For any explorer transaction reply whose status is not "1", the service
/// body is the failure object: the address, the explorer's message embedded
/// verbatim as the error, and an error status.
pub proof fn lemma_transactions_failure_shape(address: Seq<char>, p: UpstreamPayload)
    requires
        !spec_status_is_one(p.status),
    ensures
        spec_transactions_body(address, p) == spec_transactions_failure(address, p.message_json@),
{
}

/// Escaping leaves a string of digit characters untouched.
proof fn lemma_esc_seq_digits(s: Seq<char>)
    requires
        all_dec_digits(s),
    ensures
        esc_seq(s) == s,
    decreases s.len(),
{
    if s.len() == 0 {
        assert(esc_seq(s) =~= s);
    } else {
        assert forall|i: int| 0 <= i < s.drop_last().len() implies is_dec_digit(
            #[trigger] s.drop_last()[i],
        ) by {
            assert(s.drop_last()[i] == s[i]);
        }
        lemma_esc_seq_digits(s.drop_last());
        assert(is_dec_digit(s[s.len() - 1]));
        assert(esc_char(s.last()) =~= seq![s.last()]);
        assert(esc_seq(s) =~= s);
    }
}

/// A wei numeral needs no escaping: between its quotes it stands verbatim,
/// so the success body carries `balance_wei` unchanged as a string.
pub proof fn lemma_quoted_numeral_verbatim(s: Seq<char>)
    requires
        all_dec_digits(s),
    ensures
        json_quoted(s) == seq!['"'] + s + seq!['"'],
{
    lemma_esc_seq_digits(s);
}

/// The rendered ether value always shows a single character run of the form
/// digits, decimal point, then exactly six digit characters.
pub proof fn lemma_eth_six_decimal_places(wei: nat)
    ensures
        eth_str(wei).len() >= 8,
        eth_str(wei)[eth_str(wei).len() - 7] == '.',
        forall|i: int|
            eth_str(wei).len() - 6 <= i < eth_str(wei).len() ==> is_dec_digit(
                #[trigger] eth_str(wei)[i],
            ),
        forall|i: int| 0 <= i < eth_str(wei).len() - 7 ==> is_dec_digit(#[trigger] eth_str(wei)[i]),
{
    lemma_dec_str_digits(eth_units(wei) / 1000000);
    let d = dec_str(eth_units(wei) / 1000000);
    let f = frac6(eth_units(wei) % 1000000);
    assert(eth_str(wei) == d + seq!['.'] + f);
    assert(f.len() == 6);
    assert forall|i: int| 0 <= i < 6 implies is_dec_digit(#[trigger] f[i]) by {
        assert(is_dec_digit(f[0]));
        assert(is_dec_digit(f[1]));
        assert(is_dec_digit(f[2]));
        assert(is_dec_digit(f[3]));
        assert(is_dec_digit(f[4]));
        assert(is_dec_digit(f[5]));
    }
    assert(eth_str(wei)[d.len() as int] == '.');
    assert forall|i: int| 0 <= i < eth_str(wei).len() - 7 implies is_dec_digit(
        #[trigger] eth_str(wei)[i],
    ) by {
        assert(eth_str(wei)[i] == d[i]);
    }
    assert forall|i: int|
        eth_str(wei).len() - 6 <= i < eth_str(wei).len() implies is_dec_digit(
        #[trigger] eth_str(wei)[i],
    ) by {
        assert(eth_str(wei)[i] == f[i - d.len() - 1]);
    }
}

/// Two payloads carrying the same text, field for field.
pub open spec fn payload_text_eq(p1: UpstreamPayload, p2: UpstreamPayload) -> bool {
    &&& match (p1.status, p2.status) {
        (Some(a), Some(b)) => a@ == b@,
        (None, None) => true,
        _ => false,
    }
    &&& match (p1.result_text, p2.result_text) {
        (Some(a), Some(b)) => a@ == b@,
        (None, None) => true,
        _ => false,
    }
    &&& p1.result_json@ == p2.result_json@
    &&& p1.message_json@ == p2.message_json@
    &&& p1.raw_json@ == p2.raw_json@
}

/// The translation is a function of the payload's text alone: two replies
/// carrying the same text yield byte-identical bodies, so repeating an
/// identical request against a stable upstream repeats the response.
pub proof fn lemma_translation_idempotent(
    address: Seq<char>,
    p1: UpstreamPayload,
    p2: UpstreamPayload,
)
    requires
        payload_text_eq(p1, p2),
    ensures
        spec_balance_body(address, p1) == spec_balance_body(address, p2),
        spec_transactions_body(address, p1) == spec_transactions_body(address, p2),
{
    assert(spec_status_is_one(p1.status) == spec_status_is_one(p2.status));
}

} // verus!
