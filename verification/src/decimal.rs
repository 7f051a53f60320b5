//! Numbers written in decimal.

use crate::text::push_chars;
use vstd::prelude::*;

verus! {

/// The character that stands for the digit `d`.
pub open spec fn digit(d: nat) -> char {
    if d == 0 {
        '0'
    } else if d == 1 {
        '1'
    } else if d == 2 {
        '2'
    } else if d == 3 {
        '3'
    } else if d == 4 {
        '4'
    } else if d == 5 {
        '5'
    } else if d == 6 {
        '6'
    } else if d == 7 {
        '7'
    } else if d == 8 {
        '8'
    } else {
        '9'
    }
}

/// `n` in decimal, without leading zeros.
pub open spec fn decimal(n: nat) -> Seq<char>
    decreases n,
{
    if n < 10 {
        seq![digit(n)]
    } else {
        decimal(n / 10).push(digit(n % 10))
    }
}

/// The character that stands for the digit `d`.
fn digit_char(d: usize) -> (c: char)
    requires
        d < 10,
    ensures
        c == digit(d as nat),
{
    if d == 0 {
        '0'
    } else if d == 1 {
        '1'
    } else if d == 2 {
        '2'
    } else if d == 3 {
        '3'
    } else if d == 4 {
        '4'
    } else if d == 5 {
        '5'
    } else if d == 6 {
        '6'
    } else if d == 7 {
        '7'
    } else if d == 8 {
        '8'
    } else {
        '9'
    }
}

/// The digits still to be written in front of those already found.
spec fn leading_digits(rest: nat) -> Seq<char> {
    if rest > 0 {
        decimal(rest)
    } else {
        Seq::empty()
    }
}

/// Appends `n`, in decimal, to `s`.
pub fn push_decimal(s: &mut String, n: usize)
    ensures
        final(s)@ == old(s)@ + decimal(n as nat),
{
    let mut low_first: Vec<char> = Vec::new();
    low_first.push(digit_char(n % 10));
    let mut rest: usize = n / 10;
    assert(decimal(n as nat) =~= leading_digits(rest as nat) + low_first@.reverse());
    while rest > 0
        invariant
            decimal(n as nat) == leading_digits(rest as nat) + low_first@.reverse(),
        decreases rest,
    {
        let ghost before = low_first@;
        let d = digit_char(rest % 10);
        low_first.push(d);
        assert(low_first@.reverse() =~= seq![d] + before.reverse());
        assert(leading_digits(rest as nat) =~= leading_digits((rest / 10) as nat) + seq![d]);
        rest = rest / 10;
    }
    let mut high_first: Vec<char> = Vec::new();
    let mut i: usize = low_first.len();
    while i > 0
        invariant
            i <= low_first.len(),
            high_first@ == low_first@.reverse().take(low_first.len() - i),
        decreases i,
    {
        i -= 1;
        high_first.push(low_first[i]);
    }
    assert(high_first@ == low_first@.reverse());
    push_chars(s, &high_first);
}

} // verus!
