//! Integers written in decimal, as the image format wants them.

use vstd::prelude::*;
use vstd::string::StringExecFns;

verus! {

/// The character of a decimal digit.
pub open spec fn digit(d: int) -> char {
    if d == 0 {
        '0'
    } else if d == 1 {
        '1'
    } else if d == 2 {
        '2'
    } else if d == 3 {
        '3'
    } else if d == 4 {
        '4'
    } else if d == 5 {
        '5'
    } else if d == 6 {
        '6'
    } else if d == 7 {
        '7'
    } else if d == 8 {
        '8'
    } else {
        '9'
    }
}

/// A natural number in decimal, without leading zeros.
pub open spec fn spec_decimal_nat(n: nat) -> Seq<char>
    decreases n,
{
    if n < 10 {
        seq![digit(n as int)]
    } else {
        spec_decimal_nat(n / 10).push(digit((n % 10) as int))
    }
}

/// An integer in decimal: a minus sign where it is negative, then its
/// magnitude without leading zeros.
pub open spec fn spec_decimal(n: int) -> Seq<char> {
    if n < 0 {
        seq!['-'] + spec_decimal_nat((-n) as nat)
    } else {
        spec_decimal_nat(n as nat)
    }
}

/// Whether a character can stand in a decimal number.
pub open spec fn is_decimal_char(c: char) -> bool {
    c == '-' || c == '0' || c == '1' || c == '2' || c == '3' || c == '4' || c == '5' || c == '6'
        || c == '7' || c == '8' || c == '9'
}

/// A decimal number is not empty and holds digits only, after a minus sign
/// where the number is negative: no space and no line break.
pub proof fn lemma_decimal_chars(n: int)
    ensures
        spec_decimal(n).len() >= 1,
        forall|i: int| 0 <= i < spec_decimal(n).len() ==> is_decimal_char(#[trigger] spec_decimal(n)[i]),
{
    if n < 0 {
        lemma_decimal_nat_chars((-n) as nat);
    } else {
        lemma_decimal_nat_chars(n as nat);
    }
}

/// A natural number in decimal is not empty and holds digits only.
proof fn lemma_decimal_nat_chars(n: nat)
    ensures
        spec_decimal_nat(n).len() >= 1,
        forall|i: int|
            0 <= i < spec_decimal_nat(n).len() ==> is_decimal_char(#[trigger] spec_decimal_nat(n)[i]),
    decreases n,
{
    if n >= 10 {
        lemma_decimal_nat_chars(n / 10);
    }
}

/// The text of one decimal digit.
fn digit_str(d: u32) -> (text: &'static str)
    requires
        d < 10,
    ensures
        text@ == seq![digit(d as int)],
{
    proof {
        reveal_strlit("0");
        reveal_strlit("1");
        reveal_strlit("2");
        reveal_strlit("3");
        reveal_strlit("4");
        reveal_strlit("5");
        reveal_strlit("6");
        reveal_strlit("7");
        reveal_strlit("8");
        reveal_strlit("9");
    }
    let text = if d == 0 {
        "0"
    } else if d == 1 {
        "1"
    } else if d == 2 {
        "2"
    } else if d == 3 {
        "3"
    } else if d == 4 {
        "4"
    } else if d == 5 {
        "5"
    } else if d == 6 {
        "6"
    } else if d == 7 {
        "7"
    } else if d == 8 {
        "8"
    } else {
        "9"
    };
    assert(text@ =~= seq![digit(d as int)]);
    text
}

/// Appends a natural number in decimal to `out`.
fn push_decimal_nat(out: &mut String, n: u32)
    ensures
        final(out)@ == old(out)@ + spec_decimal_nat(n as nat),
    decreases n,
{
    if n >= 10 {
        push_decimal_nat(out, n / 10);
    }
    let ghost before = out@;
    out.append(digit_str(n % 10));
    proof {
        if n >= 10 {
            assert(before == old(out)@ + spec_decimal_nat((n / 10) as nat));
            assert(out@ =~= old(out)@ + spec_decimal_nat((n / 10) as nat).push(
                digit((n % 10) as int),
            ));
        }
    }
}

/// Appends an integer in decimal to `out`.
pub fn push_decimal(out: &mut String, n: i32)
    ensures
        final(out)@ == old(out)@ + spec_decimal(n as int),
{
    if n < 0 {
        proof {
            reveal_strlit("-");
        }
        out.append("-");
        let ghost signed = out@;
        let magnitude: u32 = (-(n as i64)) as u32;
        push_decimal_nat(out, magnitude);
        assert(out@ =~= old(out)@ + (seq!['-'] + spec_decimal_nat((-n) as nat)));
    } else {
        push_decimal_nat(out, n as u32);
    }
}

} // verus!
