//! Compact display of large counts: a count under a thousand is printed as
//! is; larger ones are scaled to thousands, millions or billions, rounded to
//! one decimal place (halves round up), and suffixed `k`, `m` or `b`.

use vstd::prelude::*;

use vstd::arithmetic::div_mod::lemma_div_decreases;
use vstd::arithmetic::div_mod::lemma_div_is_ordered;
use vstd::arithmetic::div_mod::lemma_div_is_ordered_by_denominator;

verus! {

/// The character of one decimal digit.
pub open spec fn decimal_digit(d: int) -> char {
    if d == 0 {
        '0'
    } else if d == 1 {
        '1'
    } else if d == 2 {
        '2'
    } else if d == 3 {
        '3'
    } else if d == 4 {
        '4'
    } else if d == 5 {
        '5'
    } else if d == 6 {
        '6'
    } else if d == 7 {
        '7'
    } else if d == 8 {
        '8'
    } else {
        '9'
    }
}

/// The decimal digits of a number, most significant first.
pub open spec fn decimal_string(n: nat) -> Seq<char>
    decreases n,
{
    if n < 10 {
        seq![decimal_digit(n as int)]
    } else {
        decimal_string(n / 10) + seq![decimal_digit((n % 10) as int)]
    }
}

/// `n / divisor` rounded to the nearest whole number, halves up.
pub open spec fn rounded_tenths(n: nat, divisor: nat) -> nat {
    n / divisor + if n % divisor >= divisor / 2 {
        1nat
    } else {
        0nat
    }
}

/// `n` scaled down by `10 * divisor` and printed with one decimal place.
pub open spec fn scaled_string(n: nat, divisor: nat) -> Seq<char> {
    decimal_string(rounded_tenths(n, divisor) / 10) + seq!['.'] + decimal_string(
        rounded_tenths(n, divisor) % 10,
    )
}

/// What [`trendy_number_format`] prints.
pub open spec fn trendy_format_spec(n: nat) -> Seq<char> {
    if n < 1000 {
        decimal_string(n)
    } else if n < 1000000 {
        scaled_string(n, 100) + seq!['k']
    } else if n < 1000000000 {
        scaled_string(n, 100000) + seq!['m']
    } else {
        scaled_string(n, 100000000) + seq!['b']
    }
}

/// One decimal digit as a string slice.
fn digit_str(d: u64) -> (r: &'static str)
    requires
        d < 10,
    ensures
        r@ == seq![decimal_digit(d as int)],
{
    if d == 0 {
        proof {
            reveal_strlit("0");
        }
        assert("0"@ =~= seq![decimal_digit(0)]);
        "0"
    } else if d == 1 {
        proof {
            reveal_strlit("1");
        }
        assert("1"@ =~= seq![decimal_digit(1)]);
        "1"
    } else if d == 2 {
        proof {
            reveal_strlit("2");
        }
        assert("2"@ =~= seq![decimal_digit(2)]);
        "2"
    } else if d == 3 {
        proof {
            reveal_strlit("3");
        }
        assert("3"@ =~= seq![decimal_digit(3)]);
        "3"
    } else if d == 4 {
        proof {
            reveal_strlit("4");
        }
        assert("4"@ =~= seq![decimal_digit(4)]);
        "4"
    } else if d == 5 {
        proof {
            reveal_strlit("5");
        }
        assert("5"@ =~= seq![decimal_digit(5)]);
        "5"
    } else if d == 6 {
        proof {
            reveal_strlit("6");
        }
        assert("6"@ =~= seq![decimal_digit(6)]);
        "6"
    } else if d == 7 {
        proof {
            reveal_strlit("7");
        }
        assert("7"@ =~= seq![decimal_digit(7)]);
        "7"
    } else if d == 8 {
        proof {
            reveal_strlit("8");
        }
        assert("8"@ =~= seq![decimal_digit(8)]);
        "8"
    } else {
        proof {
            reveal_strlit("9");
        }
        assert("9"@ =~= seq![decimal_digit(9)]);
        "9"
    }
}

/// Append the decimal digits of `n`.
fn push_decimal(n: u64, out: &mut String)
    ensures
        final(out)@ == old(out)@ + decimal_string(n as nat),
    decreases n,
{
    if n < 10 {
        out.append(digit_str(n));
    } else {
        proof {
            lemma_div_decreases(n as int, 10);
        }
        push_decimal(n / 10, out);
        out.append(digit_str(n % 10));
        assert(final(out)@ =~= old(out)@ + decimal_string(n as nat));
    }
}

/// Append `n` scaled down by `10 * divisor`, with one decimal place.
fn push_scaled(n: u64, divisor: u64, out: &mut String)
    requires
        100 <= divisor,
    ensures
        final(out)@ == old(out)@ + scaled_string(n as nat, divisor as nat),
{
    proof {
        lemma_div_is_ordered(n as int, u64::MAX as int, divisor as int);
        lemma_div_is_ordered_by_denominator(u64::MAX as int, 100, divisor as int);
    }
    let whole = n / divisor;
    let tenths: u64 = if n % divisor >= divisor / 2 {
        whole + 1
    } else {
        whole
    };
    push_decimal(tenths / 10, out);
    out.append(".");
    proof {
        reveal_strlit(".");
    }
    assert("."@ =~= seq!['.']);
    push_decimal(tenths % 10, out);
    assert(final(out)@ =~= old(out)@ + scaled_string(n as nat, divisor as nat));
}

/// A count formatted for display: under a thousand as is, then thousands,
/// millions or billions with one decimal place and a `k`, `m` or `b` suffix.
pub fn trendy_number_format(val: u64) -> (s: String)
    ensures
        s@ == trendy_format_spec(val as nat),
{
    let mut s = String::new();
    if val < 1000 {
        push_decimal(val, &mut s);
        assert(s@ =~= trendy_format_spec(val as nat));
    } else if val < 1000000 {
        push_scaled(val, 100, &mut s);
        s.append("k");
        proof {
            reveal_strlit("k");
        }
        assert("k"@ =~= seq!['k']);
        assert(s@ =~= trendy_format_spec(val as nat));
    } else if val < 1000000000 {
        push_scaled(val, 100000, &mut s);
        s.append("m");
        proof {
            reveal_strlit("m");
        }
        assert("m"@ =~= seq!['m']);
        assert(s@ =~= trendy_format_spec(val as nat));
    } else {
        push_scaled(val, 100000000, &mut s);
        s.append("b");
        proof {
            reveal_strlit("b");
        }
        assert("b"@ =~= seq!['b']);
        assert(s@ =~= trendy_format_spec(val as nat));
    }
    s
}

} // verus!
