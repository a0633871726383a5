//! Rendering strings as JSON string literals, with escaping.

use vstd::prelude::*;
use crate::digits::push_char;

verus! {

/// The hexadecimal digit character for a value below sixteen.
pub open spec fn hex_char(d: nat) -> char {
    if d == 0 {
        '0'
    } else if d == 1 {
        '1'
    } else if d == 2 {
        '2'
    } else if d == 3 {
        '3'
    } else if d == 4 {
        '4'
    } else if d == 5 {
        '5'
    } else if d == 6 {
        '6'
    } else if d == 7 {
        '7'
    } else if d == 8 {
        '8'
    } else if d == 9 {
        '9'
    } else if d == 10 {
        'a'
    } else if d == 11 {
        'b'
    } else if d == 12 {
        'c'
    } else if d == 13 {
        'd'
    } else if d == 14 {
        'e'
    } else {
        'f'
    }
}

/// How one character appears inside a JSON string literal: quotes and
/// backslashes get a backslash escape, control characters a `\u00XX` escape,
/// everything else stands as itself.
pub open spec fn esc_char(c: char) -> Seq<char> {
    if c == '"' {
        seq!['\\', '"']
    } else if c == '\\' {
        seq!['\\', '\\']
    } else if (c as u32) < 32 {
        seq!['\\', 'u', '0', '0', hex_char((c as u32 / 16) as nat), hex_char((c as u32 % 16) as nat)]
    } else {
        seq![c]
    }
}

/// The escaped form of a whole string.
pub open spec fn esc_seq(s: Seq<char>) -> Seq<char>
    decreases s.len(),
{
    if s.len() == 0 {
        Seq::empty()
    } else {
        esc_seq(s.drop_last()) + esc_char(s.last())
    }
}

/// `s` as a JSON string literal: quoted and escaped.
pub open spec fn json_quoted(s: Seq<char>) -> Seq<char> {
    seq!['"'] + esc_seq(s) + seq!['"']
}

/// Appends the hexadecimal digit character for `d`.
fn push_hex_digit(s: &mut String, d: u32)
    requires
        d < 16,
    ensures
        final(s)@ == old(s)@ + seq![hex_char(d as nat)],
{
    if d == 0 {
        push_char(s, '0');
    } else if d == 1 {
        push_char(s, '1');
    } else if d == 2 {
        push_char(s, '2');
    } else if d == 3 {
        push_char(s, '3');
    } else if d == 4 {
        push_char(s, '4');
    } else if d == 5 {
        push_char(s, '5');
    } else if d == 6 {
        push_char(s, '6');
    } else if d == 7 {
        push_char(s, '7');
    } else if d == 8 {
        push_char(s, '8');
    } else if d == 9 {
        push_char(s, '9');
    } else if d == 10 {
        push_char(s, 'a');
    } else if d == 11 {
        push_char(s, 'b');
    } else if d == 12 {
        push_char(s, 'c');
    } else if d == 13 {
        push_char(s, 'd');
    } else if d == 14 {
        push_char(s, 'e');
    } else {
        push_char(s, 'f');
    }
}

/// Renders `s` as a JSON string literal.
pub fn json_quoted_string(s: &str) -> (r: String)
    ensures
        r@ == json_quoted(s@),
{
    let mut out = String::new();
    push_char(&mut out, '"');
    let n = s.unicode_len();
    let mut i: usize = 0;
    while i < n
        invariant
            0 <= i <= n,
            n == s@.len(),
            out@ == seq!['"'] + esc_seq(s@.subrange(0, i as int)),
        decreases n - i,
    {
        let ghost prefix = s@.subrange(0, i as int);
        let c = s.get_char(i);
        proof {
            assert(s@.subrange(0, i + 1 as int).drop_last() =~= prefix);
            assert(s@.subrange(0, i + 1 as int).last() == s@[i as int]);
            assert(esc_seq(s@.subrange(0, i + 1 as int)) == esc_seq(prefix) + esc_char(c));
        }
        if c == '"' {
            push_char(&mut out, '\\');
            push_char(&mut out, '"');
            proof {
                assert(out@ =~= seq!['"'] + esc_seq(s@.subrange(0, i + 1 as int)));
            }
        } else if c == '\\' {
            push_char(&mut out, '\\');
            push_char(&mut out, '\\');
            proof {
                assert(out@ =~= seq!['"'] + esc_seq(s@.subrange(0, i + 1 as int)));
            }
        } else if (c as u32) < 32 {
            push_char(&mut out, '\\');
            push_char(&mut out, 'u');
            push_char(&mut out, '0');
            push_char(&mut out, '0');
            push_hex_digit(&mut out, (c as u32) / 16);
            push_hex_digit(&mut out, (c as u32) % 16);
            proof {
                assert(out@ =~= seq!['"'] + esc_seq(s@.subrange(0, i + 1 as int)));
            }
        } else {
            push_char(&mut out, c);
            proof {
                assert(out@ =~= seq!['"'] + esc_seq(s@.subrange(0, i + 1 as int)));
            }
        }
        i = i + 1;
    }
    push_char(&mut out, '"');
    proof {
        assert(s@.subrange(0, n as int) =~= s@);
        assert(out@ =~= json_quoted(s@));
    }
    out
}

} // verus!
