//! Decimal numerals as character sequences, with verified renderers.

use vstd::arithmetic::div_mod::lemma_multiply_divide_lt;
use vstd::prelude::*;
use vstd::string::StringExecFns;

verus! {

/// The character for one decimal digit.
pub open spec fn spec_digit(d: int) -> char {
    if d == 0 {
        '0'
    } else if d == 1 {
        '1'
    } else if d == 2 {
        '2'
    } else if d == 3 {
        '3'
    } else if d == 4 {
        '4'
    } else if d == 5 {
        '5'
    } else if d == 6 {
        '6'
    } else if d == 7 {
        '7'
    } else if d == 8 {
        '8'
    } else {
        '9'
    }
}

/// The decimal numeral of a nonnegative integer, most significant digit
/// first, without padding.
pub open spec fn spec_nat_string(n: nat) -> Seq<char>
    decreases n,
{
    if n < 10 {
        seq![spec_digit(n as int)]
    } else {
        spec_nat_string(n / 10) + seq![spec_digit((n % 10) as int)]
    }
}

/// The decimal numeral of an integer: a minus sign before the magnitude of a
/// negative value.
pub open spec fn spec_int_string(i: int) -> Seq<char> {
    if i < 0 {
        seq!['-'] + spec_nat_string((-i) as nat)
    } else {
        spec_nat_string(i as nat)
    }
}

/// The `width` low decimal digits of `n`, zero padded.
pub open spec fn spec_padded_string(n: nat, width: nat) -> Seq<char>
    decreases width,
{
    if width == 0 {
        Seq::empty()
    } else {
        spec_padded_string(n / 10, (width - 1) as nat) + seq![spec_digit((n % 10) as int)]
    }
}

/// The sequence with its trailing zero digits stripped.
pub open spec fn spec_trim_zeros(s: Seq<char>) -> Seq<char>
    decreases s.len(),
{
    if s.len() > 0 && s.last() == '0' {
        spec_trim_zeros(s.drop_last())
    } else {
        s
    }
}

/// Powers of ten.
pub open spec fn pow10(e: nat) -> nat
    decreases e,
{
    if e == 0 {
        1
    } else {
        10 * pow10((e - 1) as nat)
    }
}

/// The one-character string for one decimal digit.
fn digit_str(d: u64) -> (r: &'static str)
    requires
        d < 10,
    ensures
        r@ == seq![spec_digit(d as int)],
{
    let r: &'static str = if d == 0 {
        "0"
    } else if d == 1 {
        "1"
    } else if d == 2 {
        "2"
    } else if d == 3 {
        "3"
    } else if d == 4 {
        "4"
    } else if d == 5 {
        "5"
    } else if d == 6 {
        "6"
    } else if d == 7 {
        "7"
    } else if d == 8 {
        "8"
    } else {
        "9"
    };
    proof {
        reveal_strlit("0");
        reveal_strlit("1");
        reveal_strlit("2");
        reveal_strlit("3");
        reveal_strlit("4");
        reveal_strlit("5");
        reveal_strlit("6");
        reveal_strlit("7");
        reveal_strlit("8");
        reveal_strlit("9");
        assert(r@ =~= seq![spec_digit(d as int)]);
    }
    r
}

/// Renders the decimal numeral of a nonnegative value.
pub fn nat_string(n: u64) -> (s: String)
    ensures
        s@ == spec_nat_string(n as nat),
    decreases n,
{
    if n < 10 {
        String::from_str(digit_str(n))
    } else {
        let mut s = nat_string(n / 10);
        s.append(digit_str(n % 10));
        s
    }
}

/// Renders the decimal numeral of a signed value, minus sign included.
pub fn int_string(i: i64) -> (s: String)
    ensures
        s@ == spec_int_string(i as int),
{
    if i >= 0 {
        nat_string(i as u64)
    } else {
        let magnitude: u64 = (-(i as i128)) as u64;
        let mut s = String::from_str("-");
        proof {
            reveal_strlit("-");
            assert(s@ =~= seq!['-']);
        }
        let rendered = nat_string(magnitude);
        s.append(rendered.as_str());
        s
    }
}

/// Renders the `width` low decimal digits of `n`, zero padded.
fn padded_string(n: u32, width: u32) -> (s: String)
    ensures
        s@ == spec_padded_string(n as nat, width as nat),
    decreases width,
{
    if width == 0 {
        String::new()
    } else {
        let mut s = padded_string(n / 10, width - 1);
        s.append(digit_str((n % 10) as u64));
        s
    }
}

/// Stripping a trailing zero digit commutes with trimming.
proof fn lemma_trim_step(n: nat, width: nat)
    requires
        width > 0,
        n % 10 == 0,
    ensures
        spec_trim_zeros(spec_padded_string(n, width)) == spec_trim_zeros(
            spec_padded_string(n / 10, (width - 1) as nat),
        ),
{
    let padded = spec_padded_string(n, width);
    assert(padded.last() == spec_digit((n % 10) as int));
    assert(padded.drop_last() =~= spec_padded_string(n / 10, (width - 1) as nat));
}

/// A numeral whose low digit is not zero is already trimmed.
proof fn lemma_trim_done(n: nat, width: nat)
    requires
        width > 0,
        n % 10 != 0,
    ensures
        spec_trim_zeros(spec_padded_string(n, width)) == spec_padded_string(n, width),
{
    let padded = spec_padded_string(n, width);
    assert(padded.last() == spec_digit((n % 10) as int));
    assert(padded.last() != '0');
}

/// Renders a sub-second nanosecond count as nine zero-padded decimal digits
/// with the trailing zeros stripped; the count is nonzero, so at least one
/// digit remains.
pub fn fraction_string(nanos: u32) -> (s: String)
    requires
        0 < nanos < 1_000_000_000,
    ensures
        s@ == spec_trim_zeros(spec_padded_string(nanos as nat, 9)),
        s@.len() > 0,
{
    let mut m: u32 = nanos;
    let mut width: u32 = 9;
    proof {
        assert(pow10(9) == 1_000_000_000) by {
            reveal_with_fuel(pow10, 10);
        }
    }
    while m % 10 == 0
        invariant
            1 <= width <= 9,
            0 < m < pow10(width as nat),
            spec_trim_zeros(spec_padded_string(nanos as nat, 9)) == spec_trim_zeros(
                spec_padded_string(m as nat, width as nat),
            ),
        decreases width,
    {
        proof {
            lemma_trim_step(m as nat, width as nat);
            assert(m / 10 < pow10((width - 1) as nat)) by {
                lemma_multiply_divide_lt(m as int, 10, pow10((width - 1) as nat) as int);
            }
        }
        m = m / 10;
        width = width - 1;
    }
    proof {
        lemma_trim_done(m as nat, width as nat);
    }
    let s = padded_string(m, width);
    proof {
        lemma_padded_len(m as nat, width as nat);
    }
    s
}

/// A padded numeral has exactly its width of characters.
proof fn lemma_padded_len(n: nat, width: nat)
    ensures
        spec_padded_string(n, width).len() == width,
    decreases width,
{
    if width > 0 {
        lemma_padded_len(n / 10, (width - 1) as nat);
    }
}

} // verus!
