//! Decimal text of unsigned numbers, as the timestamp header carries it.

use vstd::prelude::*;
use vstd::string::StringExecFns;
use crate::text::{push_char, single_line};

verus! {

/// The character of a decimal digit.
pub open spec fn digit_char(d: nat) -> char {
    (0x30 + d) as char
}

/// The decimal text of `n`: no sign, no leading zero but for zero itself.
pub open spec fn decimal_text(n: nat) -> Seq<char>
    decreases n,
{
    if n < 10 {
        seq![digit_char(n)]
    } else {
        decimal_text(n / 10).push(digit_char(n % 10))
    }
}

/// Whether `c` is one of `0-9`.
pub open spec fn is_decimal_digit(c: char) -> bool {
    '0' <= c && c <= '9'
}

/// `s` read back to front.
pub open spec fn reversed(s: Seq<char>) -> Seq<char> {
    Seq::new(s.len(), |i: int| s[s.len() - 1 - i])
}

/// A decimal text is not empty and holds digits only.
pub proof fn lemma_decimal_text_digits(n: nat)
    ensures
        decimal_text(n).len() > 0,
        forall|i: int| 0 <= i < decimal_text(n).len() ==> is_decimal_digit(
            #[trigger] decimal_text(n)[i],
        ),
        single_line(decimal_text(n)),
    decreases n,
{
    if n >= 10 {
        lemma_decimal_text_digits(n / 10);
    }
}

/// Distinct numbers have distinct decimal texts.
pub proof fn lemma_decimal_text_injective(a: nat, b: nat)
    requires
        decimal_text(a) == decimal_text(b),
    ensures
        a == b,
    decreases a,
{
    lemma_decimal_text_digits(a / 10);
    lemma_decimal_text_digits(b / 10);
    let da = if a < 10 { a } else { a % 10 };
    let db = if b < 10 { b } else { b % 10 };
    assert(digit_char(da) as int == 0x30 + da);
    assert(digit_char(db) as int == 0x30 + db);
    assert(decimal_text(a).last() == digit_char(da));
    assert(decimal_text(b).last() == digit_char(db));
    assert(da == db);
    if a >= 10 && b >= 10 {
        assert(decimal_text(a / 10) =~= decimal_text(a).drop_last());
        assert(decimal_text(b / 10) =~= decimal_text(b).drop_last());
        lemma_decimal_text_injective(a / 10, b / 10);
    } else {
        assert(decimal_text(a).len() == decimal_text(b).len());
    }
}

/// Returns the character of the decimal digit `d`.
pub fn digit_to_char(d: u8) -> (c: char)
    requires
        d < 10,
    ensures
        c == digit_char(d as nat),
        is_decimal_digit(c),
{
    (0x30u8 + d) as char
}

/// Writes `n` in decimal.
pub fn u128_to_decimal(n: u128) -> (out: String)
    ensures
        out@ == decimal_text(n as nat),
        single_line(out@),
{
    let mut low_first: Vec<char> = Vec::new();
    let mut rest: u128 = n;
    while rest >= 10
        invariant
            decimal_text(n as nat) == decimal_text(rest as nat) + reversed(low_first@),
        decreases rest,
    {
        let d: u8 = (rest % 10) as u8;
        low_first.push(digit_to_char(d));
        rest = rest / 10;
    }
    let mut out = String::new();
    push_char(&mut out, digit_to_char(rest as u8));
    let mut k: usize = low_first.len();
    while k > 0
        invariant
            rest < 10,
            k <= low_first@.len(),
            decimal_text(n as nat) == decimal_text(rest as nat) + reversed(low_first@),
            out@ == decimal_text(rest as nat) + reversed(low_first@).take(low_first@.len() - k),
        decreases k,
    {
        k = k - 1;
        let c: char = low_first[k];
        push_char(&mut out, c);
    }
    proof {
        assert(reversed(low_first@).take(low_first@.len() as int) =~= reversed(low_first@));
        lemma_decimal_text_digits(n as nat);
    }
    out
}

/// The decimal text of a signed number: a minus sign before the digits of a
/// negative one.
pub open spec fn signed_decimal_text(n: int) -> Seq<char> {
    if n < 0 {
        seq!['-'] + decimal_text((-n) as nat)
    } else {
        decimal_text(n as nat)
    }
}

/// Writes `n` in decimal, with a minus sign where it is negative.
pub fn i64_to_decimal(n: i64) -> (out: String)
    ensures
        out@ == signed_decimal_text(n as int),
{
    if n < 0 {
        let wide: i128 = n as i128;
        let magnitude: u128 = (0 - wide) as u128;
        let digits = u128_to_decimal(magnitude);
        let mut out = String::new();
        push_char(&mut out, '-');
        out.append(digits.as_str());
        out
    } else {
        u128_to_decimal(n as u128)
    }
}

} // verus!
