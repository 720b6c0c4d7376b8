//! Decimal numerals of integers, as they appear in the badge.
use vstd::prelude::*;

use crate::text::push_char;

verus! {

/// The character of a decimal digit `d` (`d < 10`).
pub open spec fn digit_char(d: nat) -> char {
    if d == 0 { '0' }
    else if d == 1 { '1' }
    else if d == 2 { '2' }
    else if d == 3 { '3' }
    else if d == 4 { '4' }
    else if d == 5 { '5' }
    else if d == 6 { '6' }
    else if d == 7 { '7' }
    else if d == 8 { '8' }
    else { '9' }
}

/// The value of a decimal digit character (and 0 for any other character).
pub open spec fn digit_value(c: char) -> nat {
    if c == '1' { 1 }
    else if c == '2' { 2 }
    else if c == '3' { 3 }
    else if c == '4' { 4 }
    else if c == '5' { 5 }
    else if c == '6' { 6 }
    else if c == '7' { 7 }
    else if c == '8' { 8 }
    else if c == '9' { 9 }
    else { 0 }
}

/// Whether `c` is one of the ten decimal digits.
pub open spec fn is_digit(c: char) -> bool {
    '0' <= c <= '9'
}

/// The shortest decimal numeral of `n`: no sign and no leading zero.
pub open spec fn nat_decimal(n: nat) -> Seq<char>
    decreases n,
{
    if n < 10 {
        seq![digit_char(n)]
    } else {
        nat_decimal(n / 10).push(digit_char(n % 10))
    }
}

/// The decimal numeral of an integer: a `-` before the numeral of its
/// magnitude when it is negative.
pub open spec fn int_decimal(i: int) -> Seq<char> {
    if i < 0 {
        seq!['-'] + nat_decimal((-i) as nat)
    } else {
        nat_decimal(i as nat)
    }
}

/// The number that a string of decimal digits denotes.
pub open spec fn decimal_value(s: Seq<char>) -> nat
    decreases s.len(),
{
    if s.len() == 0 {
        0
    } else {
        decimal_value(s.drop_last()) * 10 + digit_value(s.last())
    }
}

/// The integer that a numeral written by `int_decimal` denotes.
pub open spec fn signed_decimal_value(s: Seq<char>) -> int {
    if s.len() > 0 && s[0] == '-' {
        -(decimal_value(s.drop_first()) as int)
    } else {
        decimal_value(s) as int
    }
}

proof fn lemma_digit(d: nat)
    requires
        d < 10,
    ensures
        digit_value(digit_char(d)) == d,
        is_digit(digit_char(d)),
{
}

/// A numeral is made of digits only, and is at least one digit long.
pub proof fn lemma_nat_decimal_digits(n: nat)
    ensures
        nat_decimal(n).len() >= 1,
        forall|i: int| 0 <= i < nat_decimal(n).len() ==> is_digit(#[trigger] nat_decimal(n)[i]),
    decreases n,
{
    if n < 10 {
        lemma_digit(n);
    } else {
        lemma_nat_decimal_digits(n / 10);
        lemma_digit(n % 10);
    }
}

/// Reading back the numeral of `n` gives `n`.
pub proof fn lemma_nat_decimal_value(n: nat)
    ensures
        decimal_value(nat_decimal(n)) == n,
    decreases n,
{
    if n < 10 {
        lemma_digit(n);
        let s = nat_decimal(n);
        assert(s.drop_last() =~= Seq::<char>::empty());
        assert(decimal_value(s.drop_last()) == 0);
        assert(s.last() == digit_char(n));
    } else {
        lemma_nat_decimal_value(n / 10);
        lemma_digit(n % 10);
        let s = nat_decimal(n);
        assert(s.drop_last() =~= nat_decimal(n / 10));
        assert(s.last() == digit_char(n % 10));
        assert(decimal_value(s) == decimal_value(s.drop_last()) * 10 + digit_value(s.last()));
        assert((n / 10) * 10 + n % 10 == n) by (nonlinear_arith);
    }
}

/// Reading back the numeral of an integer gives that integer: the numeral
/// loses nothing of the count it shows.
pub proof fn lemma_int_decimal_round_trip(i: int)
    ensures
        signed_decimal_value(int_decimal(i)) == i,
{
    if i < 0 {
        let m = (-i) as nat;
        lemma_nat_decimal_value(m);
        assert((seq!['-'] + nat_decimal(m)).drop_first() =~= nat_decimal(m));
    } else {
        lemma_nat_decimal_value(i as nat);
        lemma_nat_decimal_digits(i as nat);
        assert(is_digit(nat_decimal(i as nat)[0]));
    }
}

/// Two integers with the same numeral are the same integer.
pub proof fn lemma_int_decimal_injective(a: int, b: int)
    requires
        int_decimal(a) == int_decimal(b),
    ensures
        a == b,
{
    lemma_int_decimal_round_trip(a);
    lemma_int_decimal_round_trip(b);
}

/// The numeral of a `u64`, as a sequence of characters.
pub fn u64_decimal_chars(n: u64) -> (r: Vec<char>)
    ensures
        r@ == nat_decimal(n as nat),
        decimal_value(r@) == n,
        forall|i: int| 0 <= i < r@.len() ==> is_digit(#[trigger] r@[i]),
{
    proof {
        lemma_nat_decimal_value(n as nat);
        lemma_nat_decimal_digits(n as nat);
    }
    let mut m: u64 = n;
    let mut acc: Vec<char> = Vec::new();
    while m >= 10
        invariant
            nat_decimal(n as nat) == nat_decimal(m as nat) + acc@,
        decreases m,
    {
        let d = digit(m % 10);
        let ghost old_acc = acc@;
        acc.insert(0, d);
        assert(nat_decimal(m as nat) == nat_decimal((m / 10) as nat).push(digit_char((m % 10) as nat)));
        assert(nat_decimal((m / 10) as nat).push(digit_char((m % 10) as nat)) + old_acc
            =~= nat_decimal((m / 10) as nat) + acc@);
        m = m / 10;
    }
    let d = digit(m);
    let ghost old_acc = acc@;
    acc.insert(0, d);
    assert(acc@ =~= nat_decimal(m as nat) + old_acc);
    acc
}

/// The character of the digit `d`.
fn digit(d: u64) -> (c: char)
    requires
        d < 10,
    ensures
        c == digit_char(d as nat),
{
    if d == 0 { '0' }
    else if d == 1 { '1' }
    else if d == 2 { '2' }
    else if d == 3 { '3' }
    else if d == 4 { '4' }
    else if d == 5 { '5' }
    else if d == 6 { '6' }
    else if d == 7 { '7' }
    else if d == 8 { '8' }
    else { '9' }
}

/// Appends every character of `chars` to `s`, in order.
pub(crate) fn push_chars(s: &mut String, chars: &Vec<char>)
    ensures
        final(s)@ == old(s)@ + chars@,
{
    let ghost start = s@;
    let mut i: usize = 0;
    while i < chars.len()
        invariant
            i <= chars.len(),
            s@ == start + chars@.subrange(0, i as int),
        decreases chars.len() - i,
    {
        push_char(s, chars[i]);
        assert(chars@.subrange(0, i + 1) =~= chars@.subrange(0, i as int).push(chars@[i as int]));
        i = i + 1;
    }
    assert(chars@.subrange(0, chars.len() as int) =~= chars@);
}

/// The decimal numeral of an `i64`, as `Display` writes it: a `-` in front
/// of a negative number, no sign otherwise.
pub fn i64_to_decimal(n: i64) -> (r: String)
    ensures
        r@ == int_decimal(n as int),
        signed_decimal_value(r@) == n,
{
    proof {
        lemma_int_decimal_round_trip(n as int);
    }
    let mut s = String::new();
    let magnitude: u64;
    if n < 0 {
        push_char(&mut s, '-');
        magnitude = (0i128 - (n as i128)) as u64;
    } else {
        magnitude = n as u64;
    }
    let digits = u64_decimal_chars(magnitude);
    push_chars(&mut s, &digits);
    s
}

/// The decimal numeral of an `i32`, as `Display` writes it.
pub fn i32_to_decimal(n: i32) -> (r: String)
    ensures
        r@ == int_decimal(n as int),
        signed_decimal_value(r@) == n,
{
    i64_to_decimal(n as i64)
}

} // verus!
