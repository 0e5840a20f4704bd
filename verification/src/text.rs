//! Decimal rendering of integers, used for note names and device labels.

use vstd::prelude::*;

verus! {

/// The character of a decimal digit.
pub open spec fn digit_char(d: nat) -> char {
    if d == 0 { '0' }
    else if d == 1 { '1' }
    else if d == 2 { '2' }
    else if d == 3 { '3' }
    else if d == 4 { '4' }
    else if d == 5 { '5' }
    else if d == 6 { '6' }
    else if d == 7 { '7' }
    else if d == 8 { '8' }
    else { '9' }
}

/// Decimal digits of a natural number, most significant first, without
/// leading zeros ("0" for zero).
pub open spec fn decimal_digits(n: nat) -> Seq<char>
    decreases n,
{
    if n < 10 {
        seq![digit_char(n)]
    } else {
        decimal_digits(n / 10).push(digit_char(n % 10))
    }
}

/// Decimal rendering of an integer, with a leading '-' when negative.
pub open spec fn decimal(n: int) -> Seq<char> {
    if n < 0 {
        seq!['-'] + decimal_digits((-n) as nat)
    } else {
        decimal_digits(n as nat)
    }
}

/// Append the one-character string of digit `d`.
pub(crate) fn push_digit(s: &mut String, d: u64)
    requires
        d < 10,
    ensures
        final(s)@ == old(s)@.push(digit_char(d as nat)),
{
    let t = if d == 0 { "0" }
        else if d == 1 { "1" }
        else if d == 2 { "2" }
        else if d == 3 { "3" }
        else if d == 4 { "4" }
        else if d == 5 { "5" }
        else if d == 6 { "6" }
        else if d == 7 { "7" }
        else if d == 8 { "8" }
        else { "9" };
    proof {
        reveal_strlit("0");
        reveal_strlit("1");
        reveal_strlit("2");
        reveal_strlit("3");
        reveal_strlit("4");
        reveal_strlit("5");
        reveal_strlit("6");
        reveal_strlit("7");
        reveal_strlit("8");
        reveal_strlit("9");
    }
    s.append(t);
    assert(t@ =~= seq![digit_char(d as nat)]);
}

/// Append the decimal digits of `n` to `s`.
pub fn append_decimal_u64(s: &mut String, n: u64)
    ensures
        final(s)@ == old(s)@ + decimal_digits(n as nat),
    decreases n,
{
    if n < 10 {
        push_digit(s, n);
        assert(old(s)@.push(digit_char(n as nat)) =~= old(s)@ + decimal_digits(n as nat));
    } else {
        append_decimal_u64(s, n / 10);
        push_digit(s, n % 10);
        assert(old(s)@ + decimal_digits(n as nat) =~= (old(s)@ + decimal_digits((n / 10) as nat)).push(
            digit_char((n % 10) as nat),
        ));
    }
}

/// Append the decimal rendering of `n` (with '-' when negative) to `s`.
pub fn append_decimal_i64(s: &mut String, n: i64)
    ensures
        final(s)@ == old(s)@ + decimal(n as int),
{
    if n < 0 {
        s.append("-");
        proof {
            reveal_strlit("-");
        }
        let m: u64 = if n == i64::MIN { 9223372036854775808u64 } else { (-n) as u64 };
        append_decimal_u64(s, m);
        assert(old(s)@ + decimal(n as int) =~= old(s)@ + seq!['-'] + decimal_digits(m as nat));
    } else {
        append_decimal_u64(s, n as u64);
    }
}

/// The last `width` decimal digits of `n`, with leading zeros.
pub open spec fn padded_digits(n: nat, width: nat) -> Seq<char>
    decreases width,
{
    if width == 0 {
        Seq::empty()
    } else {
        padded_digits(n / 10, (width - 1) as nat).push(digit_char(n % 10))
    }
}

/// Append the last `width` decimal digits of `n`, with leading zeros.
pub fn append_padded_decimal(s: &mut String, n: u64, width: u32)
    ensures
        final(s)@ == old(s)@ + padded_digits(n as nat, width as nat),
    decreases width,
{
    if width > 0 {
        append_padded_decimal(s, n / 10, width - 1);
        push_digit(s, n % 10);
        assert(old(s)@ + padded_digits(n as nat, width as nat) =~= (old(s)@ + padded_digits(
            (n / 10) as nat,
            (width - 1) as nat,
        )).push(digit_char((n % 10) as nat)));
    } else {
        assert(old(s)@ + padded_digits(n as nat, 0) =~= old(s)@);
    }
}

} // verus!
