//! Decimal notation of unsigned numbers, as shown in the gutter and in the
//! status line.

use vstd::prelude::*;

verus! {

/// The character of a single decimal digit.
pub open spec fn digit_char(d: nat) -> char
    recommends
        d < 10,
{
    if d == 0 {
        '0'
    } else if d == 1 {
        '1'
    } else if d == 2 {
        '2'
    } else if d == 3 {
        '3'
    } else if d == 4 {
        '4'
    } else if d == 5 {
        '5'
    } else if d == 6 {
        '6'
    } else if d == 7 {
        '7'
    } else if d == 8 {
        '8'
    } else {
        '9'
    }
}

/// The decimal notation of `n`, most significant digit first, without
/// leading zeros; zero is written `0`.
pub open spec fn decimal(n: nat) -> Seq<char>
    decreases n,
{
    if n < 10 {
        seq![digit_char(n)]
    } else {
        decimal(n / 10).push(digit_char(n % 10))
    }
}

/// The number of decimal digits of `n`; zero has one digit.
pub open spec fn digit_count(n: nat) -> nat
    decreases n,
{
    if n < 10 {
        1
    } else {
        digit_count(n / 10) + 1
    }
}

/// The notation of a number has as many characters as the number has digits.
pub proof fn lemma_decimal_len(n: nat)
    ensures
        decimal(n).len() == digit_count(n),
    decreases n,
{
    if n >= 10 {
        lemma_decimal_len(n / 10);
    }
}

/// A greater number has no fewer digits.
pub proof fn lemma_digit_count_monotonic(a: nat, b: nat)
    requires
        a <= b,
    ensures
        digit_count(a) <= digit_count(b),
    decreases b,
{
    if a >= 10 {
        lemma_digit_count_monotonic(a / 10, b / 10);
    }
}

/// A number below `2^128` has at most 39 digits.
pub proof fn lemma_digit_count_bound(n: nat)
    requires
        n <= u128::MAX,
    ensures
        1 <= digit_count(n) <= 39,
{
    reveal_with_fuel(digit_count, 40);
}

/// The character of the digit `d`.
pub fn digit_to_char(d: u8) -> (c: char)
    requires
        d < 10,
    ensures
        c == digit_char(d as nat),
{
    match d {
        0 => '0',
        1 => '1',
        2 => '2',
        3 => '3',
        4 => '4',
        5 => '5',
        6 => '6',
        7 => '7',
        8 => '8',
        _ => '9',
    }
}

/// The decimal notation of `n`.
pub fn decimal_chars(n: u128) -> (digits: Vec<char>)
    ensures
        digits@ == decimal(n as nat),
    decreases n,
{
    let d: u8 = (n % 10) as u8;
    if n < 10 {
        vec![digit_to_char(d)]
    } else {
        let mut digits = decimal_chars(n / 10);
        digits.push(digit_to_char(d));
        digits
    }
}

/// Counts the decimal digits of `n`.
pub fn count_digits(n: usize) -> (count: usize)
    ensures
        count == digit_count(n as nat),
        1 <= count <= 39,
{
    let mut rest: usize = n;
    let mut count: usize = 1;
    proof {
        lemma_digit_count_bound(n as nat);
    }
    while rest >= 10
        invariant
            digit_count(n as nat) == digit_count(rest as nat) + count - 1,
            1 <= count,
            digit_count(n as nat) <= 39,
        decreases rest,
    {
        rest = rest / 10;
        count = count + 1;
    }
    count
}

} // verus!
