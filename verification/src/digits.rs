//! Decimal numerals: parsing wei amounts and rendering unsigned values.

use vstd::prelude::*;

verus! {

/// `c` is an ASCII decimal digit.
pub open spec fn is_dec_digit(c: char) -> bool {
    48 <= c as u32 <= 57
}

/// Numeric value of a decimal digit character.
pub open spec fn digit_val(c: char) -> nat {
    (c as u32 - 48) as nat
}

/// Every character of `s` is a decimal digit.
pub open spec fn all_dec_digits(s: Seq<char>) -> bool {
    forall|i: int| 0 <= i < s.len() ==> is_dec_digit(#[trigger] s[i])
}

/// Value of a digit string, most significant digit first.
pub open spec fn dec_val(s: Seq<char>) -> nat
    decreases s.len(),
{
    if s.len() == 0 {
        0
    } else {
        dec_val(s.drop_last()) * 10 + digit_val(s.last())
    }
}

/// A nonempty digit string whose value fits in a `u128`.
pub open spec fn is_u128_numeral(s: Seq<char>) -> bool {
    s.len() > 0 && all_dec_digits(s) && dec_val(s) <= u128::MAX as nat
}

/// The digit character for a value below ten.
pub open spec fn digit_char(d: nat) -> char {
    if d == 0 {
        '0'
    } else if d == 1 {
        '1'
    } else if d == 2 {
        '2'
    } else if d == 3 {
        '3'
    } else if d == 4 {
        '4'
    } else if d == 5 {
        '5'
    } else if d == 6 {
        '6'
    } else if d == 7 {
        '7'
    } else if d == 8 {
        '8'
    } else {
        '9'
    }
}

/// Decimal rendering of `n`, without leading zeros (zero renders as "0").
pub open spec fn dec_str(n: nat) -> Seq<char>
    decreases n,
{
    if n < 10 {
        seq![digit_char(n)]
    } else {
        dec_str(n / 10) + seq![digit_char(n % 10)]
    }
}

/// Extending a digit-string prefix by one digit multiplies its value by ten.
proof fn lemma_dec_val_extend(s: Seq<char>, j: int)
    requires
        0 <= j < s.len(),
    ensures
        dec_val(s.subrange(0, j + 1)) == dec_val(s.subrange(0, j)) * 10 + digit_val(s[j]),
{
    assert(s.subrange(0, j + 1).drop_last() =~= s.subrange(0, j));
    assert(s.subrange(0, j + 1).last() == s[j]);
}

/// The value of a prefix never exceeds the value of the whole digit string.
proof fn lemma_dec_val_prefix_le(s: Seq<char>, j: int)
    requires
        0 <= j <= s.len(),
    ensures
        dec_val(s.subrange(0, j)) <= dec_val(s),
    decreases s.len() - j,
{
    if j == s.len() {
        assert(s.subrange(0, j) =~= s);
    } else {
        lemma_dec_val_extend(s, j);
        lemma_dec_val_prefix_le(s, j + 1);
    }
}

/// Parses a nonempty all-digit string as a `u128`, rejecting anything else
/// (signs, spaces, overflow included).
pub fn parse_u128_digits(s: &str) -> (r: Option<u128>)
    ensures
        r matches Some(v) ==> is_u128_numeral(s@) && v as nat == dec_val(s@),
        r is None ==> !is_u128_numeral(s@),
{
    let n = s.unicode_len();
    if n == 0 {
        return None;
    }
    let mut acc: u128 = 0;
    let mut i: usize = 0;
    while i < n
        invariant
            0 <= i <= n,
            n == s@.len(),
            all_dec_digits(s@.subrange(0, i as int)),
            acc as nat == dec_val(s@.subrange(0, i as int)),
        decreases n - i,
    {
        let c = s.get_char(i);
        let code = c as u32;
        if code < 48 || code > 57 {
            proof {
                assert(!is_dec_digit(s@[i as int]));
            }
            return None;
        }
        let d = (code - 48) as u128;
        proof {
            lemma_dec_val_extend(s@, i as int);
        }
        if acc > u128::MAX / 10 || (acc == u128::MAX / 10 && d > u128::MAX % 10) {
            proof {
                assert(acc * 10 + d > u128::MAX);
                lemma_dec_val_prefix_le(s@, i as int + 1);
                assert(dec_val(s@) > u128::MAX as nat);
            }
            return None;
        }
        proof {
            assert(acc * 10 + d <= u128::MAX);
        }
        acc = acc * 10 + d;
        i = i + 1;
    }
    proof {
        assert(s@.subrange(0, n as int) =~= s@);
    }
    Some(acc)
}

/// Relies on `String::push`: appends the given character to the end of the
/// string.
#[verifier::external_body]
pub fn push_char(s: &mut String, c: char)
    ensures
        final(s)@ == old(s)@ + seq![c],
{
    s.push(c);
}

/// Appends the digit character for `d`.
pub fn push_digit(s: &mut String, d: u128)
    requires
        d < 10,
    ensures
        final(s)@ == old(s)@ + seq![digit_char(d as nat)],
{
    if d == 0 {
        push_char(s, '0');
    } else if d == 1 {
        push_char(s, '1');
    } else if d == 2 {
        push_char(s, '2');
    } else if d == 3 {
        push_char(s, '3');
    } else if d == 4 {
        push_char(s, '4');
    } else if d == 5 {
        push_char(s, '5');
    } else if d == 6 {
        push_char(s, '6');
    } else if d == 7 {
        push_char(s, '7');
    } else if d == 8 {
        push_char(s, '8');
    } else {
        push_char(s, '9');
    }
}

/// Renders `n` in decimal, without leading zeros.
pub fn dec_string_u128(n: u128) -> (r: String)
    ensures
        r@ == dec_str(n as nat),
{
    let mut out = String::new();
    if n == 0 {
        push_char(&mut out, '0');
        return out;
    }
    let mut num = n;
    while num > 0
        invariant
            num > 0 ==> dec_str(n as nat) == dec_str(num as nat) + out@,
            num == 0 ==> dec_str(n as nat) == out@,
        decreases num,
    {
        let ghost m = num as nat;
        let ghost prev = out@;
        let d = num % 10;
        let mut t = String::new();
        push_digit(&mut t, d);
        out = t.concat(out.as_str());
        num = num / 10;
        proof {
            if m < 10 {
                assert(dec_str(m) == seq![digit_char(m)]);
                assert(m % 10 == m);
                assert(out@ =~= dec_str(m) + prev);
            } else {
                assert(dec_str(m) == dec_str(m / 10) + seq![digit_char(m % 10)]);
                assert(dec_str(m / 10) + out@ =~= dec_str(m) + prev);
            }
        }
    }
    out
}

/// A decimal rendering is nonempty and consists of digit characters only.
pub proof fn lemma_dec_str_digits(n: nat)
    ensures
        dec_str(n).len() >= 1,
        all_dec_digits(dec_str(n)),
    decreases n,
{
    if n < 10 {
        assert(is_dec_digit(digit_char(n)));
        assert(all_dec_digits(dec_str(n)));
    } else {
        lemma_dec_str_digits(n / 10);
        assert(is_dec_digit(digit_char(n % 10)));
        assert forall|i: int| 0 <= i < dec_str(n).len() implies is_dec_digit(
            #[trigger] dec_str(n)[i],
        ) by {
            if i < dec_str(n / 10).len() {
                assert(dec_str(n)[i] == dec_str(n / 10)[i]);
            } else {
                assert(dec_str(n)[i] == digit_char(n % 10));
            }
        }
    }
}

/// One ether is 10^18 wei; the service reports ether to six decimal places,
/// so one reported unit is 10^12 wei. Rounding is half-up on the 10^12 cut.
pub open spec fn eth_units(wei: nat) -> nat {
    if wei % 1000000000000 >= 500000000000 {
        wei / 1000000000000 + 1
    } else {
        wei / 1000000000000
    }
}

/// The six fractional digits of a count of 10^-6 units, zero-padded.
pub open spec fn frac6(u: nat) -> Seq<char> {
    seq![
        digit_char((u / 100000) % 10),
        digit_char((u / 10000) % 10),
        digit_char((u / 1000) % 10),
        digit_char((u / 100) % 10),
        digit_char((u / 10) % 10),
        digit_char(u % 10),
    ]
}

/// The ether value of `wei`, rendered with exactly six digits after the
/// decimal point.
pub open spec fn eth_str(wei: nat) -> Seq<char> {
    dec_str(eth_units(wei) / 1000000) + seq!['.'] + frac6(eth_units(wei) % 1000000)
}

/// Renders a wei amount in ether with exactly six decimal places.
pub fn eth_string(wei: u128) -> (r: String)
    ensures
        r@ == eth_str(wei as nat),
{
    let q = wei / 1000000000000;
    let rem = wei % 1000000000000;
    proof {
        assert(q <= u128::MAX / 1000000000000) by (nonlinear_arith)
            requires
                q == wei / 1000000000000,
                wei <= u128::MAX,
        ;
    }
    let units = if rem >= 500000000000 {
        q + 1
    } else {
        q
    };
    let mut out = dec_string_u128(units / 1000000);
    push_char(&mut out, '.');
    let frac = units % 1000000;
    push_digit(&mut out, (frac / 100000) % 10);
    push_digit(&mut out, (frac / 10000) % 10);
    push_digit(&mut out, (frac / 1000) % 10);
    push_digit(&mut out, (frac / 100) % 10);
    push_digit(&mut out, (frac / 10) % 10);
    push_digit(&mut out, frac % 10);
    proof {
        assert(out@ =~= eth_str(wei as nat));
    }
    out
}

} // verus!
