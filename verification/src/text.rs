//! Rendering of identity addresses as hexadecimal text, and cutting of
//! messages to a character budget.

use vstd::prelude::*;
use vstd::string::StringExecFns;
use vstd::string::StrSliceExecFns;

verus! {

/// The character standing for one hexadecimal digit.
pub open spec fn hex_digit_char(d: nat) -> char {
    if d == 0 {
        '0'
    } else if d == 1 {
        '1'
    } else if d == 2 {
        '2'
    } else if d == 3 {
        '3'
    } else if d == 4 {
        '4'
    } else if d == 5 {
        '5'
    } else if d == 6 {
        '6'
    } else if d == 7 {
        '7'
    } else if d == 8 {
        '8'
    } else if d == 9 {
        '9'
    } else if d == 10 {
        'a'
    } else if d == 11 {
        'b'
    } else if d == 12 {
        'c'
    } else if d == 13 {
        'd'
    } else if d == 14 {
        'e'
    } else {
        'f'
    }
}

/// The hexadecimal rendering of `n`: most significant digit first, no
/// leading zeros, a single digit for values below sixteen.
pub open spec fn hex_seq(n: nat) -> Seq<char>
    decreases n,
{
    if n < 16 {
        seq![hex_digit_char(n)]
    } else {
        hex_seq(n / 16).push(hex_digit_char(n % 16))
    }
}

/// One hexadecimal digit as text.
fn hex_digit(d: usize) -> (s: &'static str)
    requires
        d < 16,
    ensures
        s@ == seq![hex_digit_char(d as nat)],
{
    let s: &'static str = match d {
        0 => "0",
        1 => "1",
        2 => "2",
        3 => "3",
        4 => "4",
        5 => "5",
        6 => "6",
        7 => "7",
        8 => "8",
        9 => "9",
        10 => "a",
        11 => "b",
        12 => "c",
        13 => "d",
        14 => "e",
        _ => "f",
    };
    proof {
        reveal_strlit("0");
        reveal_strlit("1");
        reveal_strlit("2");
        reveal_strlit("3");
        reveal_strlit("4");
        reveal_strlit("5");
        reveal_strlit("6");
        reveal_strlit("7");
        reveal_strlit("8");
        reveal_strlit("9");
        reveal_strlit("a");
        reveal_strlit("b");
        reveal_strlit("c");
        reveal_strlit("d");
        reveal_strlit("e");
        reveal_strlit("f");
        assert(s@ =~= seq![hex_digit_char(d as nat)]);
    }
    s
}

/// Append the hexadecimal rendering of `n` to `s`.
pub fn push_hex(s: &mut String, n: usize)
    ensures
        final(s)@ == old(s)@ + hex_seq(n as nat),
    decreases n,
{
    if n < 16 {
        s.append(hex_digit(n));
        proof {
            assert(s@ =~= old(s)@ + hex_seq(n as nat));
        }
    } else {
        let d = n % 16;
        let m = n / 16;
        proof {
            assert(m < n) by (nonlinear_arith)
                requires
                    16 <= n,
                    m == n / 16,
            ;
            assert(d < 16) by (nonlinear_arith)
                requires
                    d == n % 16,
            ;
        }
        push_hex(s, m);
        s.append(hex_digit(d));
        proof {
            assert(s@ =~= old(s)@ + hex_seq(n as nat));
        }
    }
}

/// A prefix of `s` holding at most `limit` characters.
pub fn truncate_chars<'a>(s: &'a str, limit: usize) -> (t: &'a str)
    ensures
        s@.len() <= limit ==> t@ == s@,
        s@.len() > limit ==> t@ == s@.subrange(0, limit as int),
{
    let n = s.unicode_len();
    if n <= limit {
        s
    } else {
        s.substring_char(0, limit)
    }
}

} // verus!
