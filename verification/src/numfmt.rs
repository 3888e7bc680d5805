//! Rendering of numbers as text: unsigned decimal, two's-complement signed
//! decimal, and `0x`-prefixed upper-case hexadecimal.

use vstd::prelude::*;

verus! {

/// The decimal digit character for `d` in `[0, 9]`.
pub open spec fn spec_dec_digit(d: int) -> char {
    if d == 0 {
        '0'
    } else if d == 1 {
        '1'
    } else if d == 2 {
        '2'
    } else if d == 3 {
        '3'
    } else if d == 4 {
        '4'
    } else if d == 5 {
        '5'
    } else if d == 6 {
        '6'
    } else if d == 7 {
        '7'
    } else if d == 8 {
        '8'
    } else {
        '9'
    }
}

/// The decimal digit string of `n`, most significant digit first.
pub open spec fn spec_dec(n: nat) -> Seq<char>
    decreases n,
{
    if n < 10 {
        seq![spec_dec_digit(n as int)]
    } else {
        spec_dec(n / 10) + seq![spec_dec_digit((n % 10) as int)]
    }
}

/// The word reinterpreted as a two's-complement signed value.
pub open spec fn spec_signed_val(u: u32) -> int {
    if u < 0x8000_0000 {
        u as int
    } else {
        u as int - 0x1_0000_0000
    }
}

/// The signed decimal rendering of the word: a minus sign and the magnitude
/// when its two's-complement value is negative, plain decimal otherwise.
pub open spec fn spec_signed_dec(u: u32) -> Seq<char> {
    if spec_signed_val(u) < 0 {
        seq!['-'] + spec_dec((-spec_signed_val(u)) as nat)
    } else {
        spec_dec(spec_signed_val(u) as nat)
    }
}

/// The upper-case hexadecimal digit character for `d` in `[0, 15]`.
pub open spec fn spec_hex_digit(d: int) -> char {
    if d == 10 {
        'A'
    } else if d == 11 {
        'B'
    } else if d == 12 {
        'C'
    } else if d == 13 {
        'D'
    } else if d == 14 {
        'E'
    } else if d == 15 {
        'F'
    } else {
        spec_dec_digit(d)
    }
}

/// The hexadecimal digit string of `n`, most significant digit first,
/// without a prefix.
pub open spec fn spec_hex(n: nat) -> Seq<char>
    decreases n,
{
    if n < 16 {
        seq![spec_hex_digit(n as int)]
    } else {
        spec_hex(n / 16) + seq![spec_hex_digit((n % 16) as int)]
    }
}

/// The `0x`-prefixed upper-case hexadecimal rendering of `n`.
pub open spec fn spec_hex_lit(n: nat) -> Seq<char> {
    "0x"@ + spec_hex(n)
}

/// The one-character string of the decimal digit `d`.
fn dec_digit_str(d: u32) -> (s: &'static str)
    requires
        d < 10,
    ensures
        s@ == seq![spec_dec_digit(d as int)],
{
    let s: &'static str = if d == 0 {
        "0"
    } else if d == 1 {
        "1"
    } else if d == 2 {
        "2"
    } else if d == 3 {
        "3"
    } else if d == 4 {
        "4"
    } else if d == 5 {
        "5"
    } else if d == 6 {
        "6"
    } else if d == 7 {
        "7"
    } else if d == 8 {
        "8"
    } else {
        "9"
    };
    proof {
        reveal_strlit("0");
        reveal_strlit("1");
        reveal_strlit("2");
        reveal_strlit("3");
        reveal_strlit("4");
        reveal_strlit("5");
        reveal_strlit("6");
        reveal_strlit("7");
        reveal_strlit("8");
        reveal_strlit("9");
        assert(s@ =~= seq![spec_dec_digit(d as int)]);
    }
    s
}

/// The one-character string of the upper-case hexadecimal digit `d`.
fn hex_digit_str(d: u32) -> (s: &'static str)
    requires
        d < 16,
    ensures
        s@ == seq![spec_hex_digit(d as int)],
{
    if d < 10 {
        dec_digit_str(d)
    } else {
        let s: &'static str = if d == 10 {
            "A"
        } else if d == 11 {
            "B"
        } else if d == 12 {
            "C"
        } else if d == 13 {
            "D"
        } else if d == 14 {
            "E"
        } else {
            "F"
        };
        proof {
            reveal_strlit("A");
            reveal_strlit("B");
            reveal_strlit("C");
            reveal_strlit("D");
            reveal_strlit("E");
            reveal_strlit("F");
            assert(s@ =~= seq![spec_hex_digit(d as int)]);
        }
        s
    }
}

/// Renders `n` in unsigned decimal.
pub fn u32_dec(n: u32) -> (s: String)
    ensures
        s@ == spec_dec(n as nat),
    decreases n,
{
    if n < 10 {
        String::from_str(dec_digit_str(n))
    } else {
        proof {
            assert(n / 10 < n) by (nonlinear_arith)
                requires
                    n >= 10,
            ;
        }
        let mut s = u32_dec(n / 10);
        s.append(dec_digit_str(n % 10));
        s
    }
}

/// Renders the word as a two's-complement signed decimal value.
pub fn u32_signed_dec(u: u32) -> (s: String)
    ensures
        s@ == spec_signed_dec(u),
{
    if u < 0x8000_0000 {
        u32_dec(u)
    } else {
        let magnitude: u32 = (0x1_0000_0000u64 - (u as u64)) as u32;
        let mut s = String::from_str("-");
        let digits = u32_dec(magnitude);
        s.append(digits.as_str());
        proof {
            reveal_strlit("-");
            assert("-"@ =~= seq!['-']);
        }
        s
    }
}

/// Renders `n` as a `0x`-prefixed upper-case hexadecimal literal.
pub fn u32_hex_lit(n: u32) -> (s: String)
    ensures
        s@ == spec_hex_lit(n as nat),
    decreases n,
{
    if n < 16 {
        let mut s = String::from_str("0x");
        s.append(hex_digit_str(n));
        s
    } else {
        proof {
            assert(n / 16 < n) by (nonlinear_arith)
                requires
                    n >= 16,
            ;
        }
        let mut s = u32_hex_lit(n / 16);
        s.append(hex_digit_str(n % 16));
        s
    }
}

} // verus!
