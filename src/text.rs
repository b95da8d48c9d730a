//! Decimal rendering of unsigned integers, with optional zero padding.
use vstd::prelude::*;

verus! {

/// The ASCII character of the decimal digit `d`, for `d < 10`.
pub open spec fn digit_char(d: nat) -> char {
    if d == 0 {
        '0'
    } else if d == 1 {
        '1'
    } else if d == 2 {
        '2'
    } else if d == 3 {
        '3'
    } else if d == 4 {
        '4'
    } else if d == 5 {
        '5'
    } else if d == 6 {
        '6'
    } else if d == 7 {
        '7'
    } else if d == 8 {
        '8'
    } else {
        '9'
    }
}

/// The shortest decimal text of `n`, most significant digit first.
pub open spec fn decimal(n: nat) -> Seq<char>
    decreases n,
{
    if n < 10 {
        seq![digit_char(n)]
    } else {
        decimal(n / 10).push(digit_char(n % 10))
    }
}

/// The decimal text of `n`, left-padded with `'0'` to at least `width` characters.
pub open spec fn padded(n: nat, width: nat) -> Seq<char>
    decreases width,
{
    if width <= 1 {
        decimal(n)
    } else {
        padded(n / 10, (width - 1) as nat).push(digit_char(n % 10))
    }
}

/// The value of a decimal digit character.
pub open spec fn digit_value(c: char) -> nat {
    if c == '1' {
        1
    } else if c == '2' {
        2
    } else if c == '3' {
        3
    } else if c == '4' {
        4
    } else if c == '5' {
        5
    } else if c == '6' {
        6
    } else if c == '7' {
        7
    } else if c == '8' {
        8
    } else if c == '9' {
        9
    } else {
        0
    }
}

/// The number that a string of decimal digits reads as.
pub open spec fn digits_value(s: Seq<char>) -> nat
    decreases s.len(),
{
    if s.len() == 0 {
        0
    } else {
        digits_value(s.drop_last()) * 10 + digit_value(s.last())
    }
}

/// Ten to the power `w`.
pub open spec fn pow10(w: nat) -> nat
    decreases w,
{
    if w == 0 {
        1
    } else {
        10 * pow10((w - 1) as nat)
    }
}

proof fn lemma_digit_value(d: nat)
    requires
        d < 10,
    ensures
        digit_value(digit_char(d)) == d,
{
}

/// Decimal text reads back as the number it was made from.
pub proof fn lemma_decimal_value(x: nat)
    ensures
        digits_value(decimal(x)) == x,
    decreases x,
{
    if x >= 10 {
        lemma_decimal_value(x / 10);
        lemma_digit_value(x % 10);
        assert(decimal(x).drop_last() =~= decimal(x / 10));
        assert(decimal(x).last() == digit_char(x % 10));
        assert(digits_value(decimal(x)) == (x / 10) * 10 + x % 10);
    } else {
        lemma_digit_value(x);
        assert(decimal(x).drop_last() =~= Seq::<char>::empty());
        assert(decimal(x).last() == digit_char(x));
        assert(digits_value(decimal(x).drop_last()) == 0);
    }
}

/// Zero-padded decimal text reads back as the number it was made from.
pub proof fn lemma_padded_value(x: nat, w: nat)
    ensures
        digits_value(padded(x, w)) == x,
    decreases w,
{
    if w <= 1 {
        lemma_decimal_value(x);
    } else {
        lemma_padded_value(x / 10, (w - 1) as nat);
        lemma_digit_value(x % 10);
        assert(padded(x, w).drop_last() =~= padded(x / 10, (w - 1) as nat));
        assert(padded(x, w).last() == digit_char(x % 10));
        assert(digits_value(padded(x, w)) == (x / 10) * 10 + x % 10);
    }
}

/// A number below `10^w` takes exactly `w` characters when padded to `w`.
pub proof fn lemma_padded_len(x: nat, w: nat)
    requires
        1 <= w,
        x < pow10(w),
    ensures
        padded(x, w).len() == w,
    decreases w,
{
    if w == 1 {
        assert(pow10(1) == 10 * pow10(0));
    } else {
        let p = pow10((w - 1) as nat);
        assert(x / 10 < p) by (nonlinear_arith)
            requires
                x < 10 * p,
        ;
        lemma_padded_len(x / 10, (w - 1) as nat);
    }
}

/// Relies on `String::push`: the character is appended at the end.
#[verifier::external_body]
pub(crate) fn push_char(s: &mut String, c: char)
    ensures
        final(s)@ == old(s)@.push(c),
{
    s.push(c);
}

fn digit(d: u128) -> (c: char)
    requires
        d < 10,
    ensures
        c == digit_char(d as nat),
{
    if d == 0 {
        '0'
    } else if d == 1 {
        '1'
    } else if d == 2 {
        '2'
    } else if d == 3 {
        '3'
    } else if d == 4 {
        '4'
    } else if d == 5 {
        '5'
    } else if d == 6 {
        '6'
    } else if d == 7 {
        '7'
    } else if d == 8 {
        '8'
    } else {
        '9'
    }
}

/// Appends the decimal text of `n`.
pub fn push_decimal(s: &mut String, n: u128)
    ensures
        final(s)@ == old(s)@ + decimal(n as nat),
    decreases n,
{
    if n >= 10 {
        push_decimal(s, n / 10);
    }
    push_char(s, digit(n % 10));
    assert(final(s)@ =~= old(s)@ + decimal(n as nat));
}

/// Appends the decimal text of `n`, left-padded with `'0'` to `width` characters.
pub fn push_padded(s: &mut String, n: u128, width: usize)
    ensures
        final(s)@ == old(s)@ + padded(n as nat, width as nat),
    decreases width,
{
    if width <= 1 {
        push_decimal(s, n);
    } else {
        push_padded(s, n / 10, width - 1);
        push_char(s, digit(n % 10));
        assert(final(s)@ =~= old(s)@ + padded(n as nat, width as nat));
    }
}

/// The decimal text of `n`.
pub fn decimal_string(n: u128) -> (r: String)
    ensures
        r@ == decimal(n as nat),
{
    let mut s = String::new();
    push_decimal(&mut s, n);
    assert(s@ =~= decimal(n as nat));
    s
}

} // verus!
