//! Rendering of numbers as text, shared by the timestamp formatter and the
//! JSON serializer.

use vstd::prelude::*;
use vstd::string::StringExecFns;

verus! {

/// The character for one digit value, with digits ten to fifteen in lower
/// case.
pub open spec fn hex_digit(d: int) -> char {
    if d == 0 {
        '0'
    } else if d == 1 {
        '1'
    } else if d == 2 {
        '2'
    } else if d == 3 {
        '3'
    } else if d == 4 {
        '4'
    } else if d == 5 {
        '5'
    } else if d == 6 {
        '6'
    } else if d == 7 {
        '7'
    } else if d == 8 {
        '8'
    } else if d == 9 {
        '9'
    } else if d == 10 {
        'a'
    } else if d == 11 {
        'b'
    } else if d == 12 {
        'c'
    } else if d == 13 {
        'd'
    } else if d == 14 {
        'e'
    } else {
        'f'
    }
}

/// Decimal rendering of a non-negative number, without leading zeroes.
pub open spec fn dec_str(n: int) -> Seq<char>
    recommends
        n >= 0,
    decreases n,
{
    if n < 10 {
        seq![hex_digit(n)]
    } else {
        dec_str(n / 10) + seq![hex_digit(n % 10)]
    }
}

/// Two-digit zero-padded decimal rendering.
pub open spec fn dec2(n: int) -> Seq<char> {
    seq![hex_digit(n / 10), hex_digit(n % 10)]
}

/// Four-digit zero-padded decimal rendering.
pub open spec fn dec4(n: int) -> Seq<char> {
    seq![hex_digit(n / 1000), hex_digit((n / 100) % 10), hex_digit((n / 10) % 10), hex_digit(n % 10)]
}

/// The one-character string for a digit value.
pub(crate) fn hex_str(d: u8) -> (r: &'static str)
    requires
        d < 16,
    ensures
        r@ =~= seq![hex_digit(d as int)],
{
    proof {
        reveal_strlit("0");
        reveal_strlit("1");
        reveal_strlit("2");
        reveal_strlit("3");
        reveal_strlit("4");
        reveal_strlit("5");
        reveal_strlit("6");
        reveal_strlit("7");
        reveal_strlit("8");
        reveal_strlit("9");
        reveal_strlit("a");
        reveal_strlit("b");
        reveal_strlit("c");
        reveal_strlit("d");
        reveal_strlit("e");
        reveal_strlit("f");
    }
    if d == 0 {
        "0"
    } else if d == 1 {
        "1"
    } else if d == 2 {
        "2"
    } else if d == 3 {
        "3"
    } else if d == 4 {
        "4"
    } else if d == 5 {
        "5"
    } else if d == 6 {
        "6"
    } else if d == 7 {
        "7"
    } else if d == 8 {
        "8"
    } else if d == 9 {
        "9"
    } else if d == 10 {
        "a"
    } else if d == 11 {
        "b"
    } else if d == 12 {
        "c"
    } else if d == 13 {
        "d"
    } else if d == 14 {
        "e"
    } else {
        "f"
    }
}

/// Appends the two-digit rendering of `n`.
pub(crate) fn push_dec2(out: &mut String, n: u8)
    requires
        n < 100,
    ensures
        final(out)@ == old(out)@ + dec2(n as int),
{
    out.append(hex_str(n / 10));
    out.append(hex_str(n % 10));
    assert(out@ =~= old(out)@ + dec2(n as int));
}

/// Appends the four-digit rendering of `n`.
pub(crate) fn push_dec4(out: &mut String, n: u16)
    requires
        n < 10000,
    ensures
        final(out)@ == old(out)@ + dec4(n as int),
{
    out.append(hex_str((n / 1000) as u8));
    out.append(hex_str(((n / 100) % 10) as u8));
    out.append(hex_str(((n / 10) % 10) as u8));
    out.append(hex_str((n % 10) as u8));
    assert(out@ =~= old(out)@ + dec4(n as int));
}

/// Appends the decimal rendering of `n`, without leading zeroes.
pub(crate) fn push_dec(out: &mut String, n: u64)
    ensures
        final(out)@ == old(out)@ + dec_str(n as int),
    decreases n,
{
    if n < 10 {
        out.append(hex_str(n as u8));
        assert(out@ =~= old(out)@ + dec_str(n as int));
    } else {
        push_dec(out, n / 10);
        out.append(hex_str((n % 10) as u8));
        assert(out@ =~= old(out)@ + dec_str(n as int));
    }
}

/// Relies on String::push of std: appends the given character to the end of
/// the string.
#[verifier::external_body]
pub(crate) fn push_char(out: &mut String, c: char)
    ensures
        final(out)@ == old(out)@ + seq![c],
{
    out.push(c);
}

} // verus!
