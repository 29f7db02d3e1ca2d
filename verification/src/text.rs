//! Number formatting and message building over `String`.
use vstd::prelude::*;
use vstd::string::StringExecFns;

verus! {

/// The character of a digit below sixteen (lower-case letters past nine).
pub open spec fn digit_char(d: nat) -> char {
    if d == 0 { '0' }
    else if d == 1 { '1' }
    else if d == 2 { '2' }
    else if d == 3 { '3' }
    else if d == 4 { '4' }
    else if d == 5 { '5' }
    else if d == 6 { '6' }
    else if d == 7 { '7' }
    else if d == 8 { '8' }
    else if d == 9 { '9' }
    else if d == 10 { 'a' }
    else if d == 11 { 'b' }
    else if d == 12 { 'c' }
    else if d == 13 { 'd' }
    else if d == 14 { 'e' }
    else { 'f' }
}

/// The digits of `n` in base `base`, most significant first, with none for zero.
pub open spec fn digits(n: nat, base: nat) -> Seq<char>
    decreases n,
{
    if n == 0 || base < 2 {
        Seq::empty()
    } else {
        proof {
            lemma_quotient_smaller(n, base);
        }
        digits(n / base, base).push(digit_char(n % base))
    }
}

/// `n` written in base `base` the way `format!` writes it: no leading zeros, "0" for zero.
pub open spec fn radix_text(n: nat, base: nat) -> Seq<char> {
    if n == 0 { seq!['0'] } else { digits(n, base) }
}

/// `n` in decimal, as `{}` formats an unsigned integer.
pub open spec fn decimal(n: nat) -> Seq<char> {
    radix_text(n, 10)
}

/// `n` in lower-case hexadecimal, as `{:x}` formats an unsigned integer.
pub open spec fn lower_hex(n: nat) -> Seq<char> {
    radix_text(n, 16)
}

/// Dividing a positive number by a base of at least two makes it smaller.
pub proof fn lemma_quotient_smaller(n: nat, base: nat)
    requires
        n > 0,
        base >= 2,
    ensures
        n / base < n,
{
    assert(n / base < n) by (nonlinear_arith)
        requires
            n > 0,
            base >= 2,
    ;
}

/// Whether the character is an ASCII decimal digit.
pub open spec fn is_decimal_digit(c: char) -> bool {
    '0' <= c && c <= '9'
}

/// Every character of `s` is a decimal digit.
pub open spec fn all_digits(s: Seq<char>) -> bool {
    forall|i: int| 0 <= i < s.len() ==> is_decimal_digit(#[trigger] s[i])
}

/// The value of a decimal digit character.
pub open spec fn digit_value(c: char) -> nat {
    if c == '1' { 1 }
    else if c == '2' { 2 }
    else if c == '3' { 3 }
    else if c == '4' { 4 }
    else if c == '5' { 5 }
    else if c == '6' { 6 }
    else if c == '7' { 7 }
    else if c == '8' { 8 }
    else if c == '9' { 9 }
    else { 0 }
}

/// The number that a string of decimal digits spells.
pub open spec fn digits_value(s: Seq<char>) -> nat
    decreases s.len(),
{
    if s.len() == 0 {
        0
    } else {
        digits_value(s.drop_last()) * 10 + digit_value(s.last())
    }
}

/// A character that `{:x}` writes: a decimal digit or a letter from `a` to `f`.
pub open spec fn is_lower_hex_char(c: char) -> bool {
    ('0' <= c && c <= '9') || ('a' <= c && c <= 'f')
}

/// Sixteen to the power `k`.
pub open spec fn pow16(k: nat) -> nat
    decreases k,
{
    if k == 0 { 1 } else { 16 * pow16((k - 1) as nat) }
}

proof fn lemma_digit_char_is_hex(d: nat)
    requires
        d < 16,
    ensures
        is_lower_hex_char(digit_char(d)),
{
}

proof fn lemma_hex_digits_shape(n: nat, k: nat)
    requires
        n < pow16(k),
    ensures
        digits(n, 16).len() <= k,
        forall|i: int| 0 <= i < digits(n, 16).len() ==> is_lower_hex_char(#[trigger] digits(n, 16)[i]),
    decreases n,
{
    if n > 0 {
        lemma_quotient_smaller(n, 16);
        let p = pow16((k - 1) as nat);
        if k == 0 {
            assert(false);
        }
        assert(n / 16 < p) by (nonlinear_arith)
            requires
                n < 16 * p,
        ;
        lemma_hex_digits_shape(n / 16, (k - 1) as nat);
        lemma_digit_char_is_hex(n % 16);
        assert forall|i: int| 0 <= i < digits(n, 16).len() implies is_lower_hex_char(#[trigger] digits(n, 16)[i]) by {
            if i < digits(n / 16, 16).len() {
                assert(digits(n, 16)[i] == digits(n / 16, 16)[i]);
            }
        }
    }
}

/// Any `u64` in lower-case hexadecimal is one to sixteen characters, each a
/// decimal digit or a letter from `a` to `f`.
pub proof fn lemma_lower_hex_shape(n: u64)
    ensures
        1 <= lower_hex(n as nat).len() <= 16,
        forall|i: int| 0 <= i < lower_hex(n as nat).len() ==> is_lower_hex_char(#[trigger] lower_hex(n as nat)[i]),
{
    if n > 0 {
        reveal_with_fuel(pow16, 17);
        assert(pow16(16) == 0x1_0000_0000_0000_0000);
        lemma_hex_digits_shape(n as nat, 16);
        lemma_quotient_smaller(n as nat, 16);
    }
}

proof fn lemma_decimal_digits_read_back(n: nat)
    ensures
        all_digits(digits(n, 10)),
        digits_value(digits(n, 10)) == n,
        n > 0 ==> digits(n, 10).len() > 0 && digits(n, 10)[0] != '0',
    decreases n,
{
    if n > 0 {
        lemma_quotient_smaller(n, 10);
        lemma_decimal_digits_read_back(n / 10);
        let s = digits(n, 10);
        let init = digits(n / 10, 10);
        assert(s.drop_last() =~= init);
        assert(digit_value(digit_char(n % 10)) == n % 10);
        assert(is_decimal_digit(digit_char(n % 10)));
        assert forall|i: int| 0 <= i < s.len() implies is_decimal_digit(#[trigger] s[i]) by {
            if i < init.len() {
                assert(s[i] == init[i]);
            }
        }
        if n / 10 == 0 {
            assert(n % 10 != 0);
            assert(s[0] == digit_char(n % 10));
        } else {
            assert(s[0] == init[0]);
        }
    }
}

/// The decimal text of a number is one or more decimal digits, without a
/// leading zero unless the number is zero, and reading it back gives the
/// number.
pub proof fn lemma_decimal_reads_back(n: nat)
    ensures
        decimal(n).len() > 0,
        all_digits(decimal(n)),
        digits_value(decimal(n)) == n,
        decimal(n)[0] == '0' ==> n == 0,
{
    if n == 0 {
        assert(decimal(0) =~= seq!['0']);
        assert(seq!['0'].drop_last() =~= Seq::<char>::empty());
        assert(digits_value(Seq::<char>::empty()) == 0);
        assert(seq!['0'].last() == '0');
        assert(digits_value(seq!['0']) == 0);
    } else {
        lemma_decimal_digits_read_back(n);
    }
}

/// `String::push`: appends one character.
#[verifier::external_body]
fn push_char(s: &mut String, c: char)
    ensures
        final(s)@ == old(s)@.push(c),
{
    s.push(c)
}

fn digit_to_char(d: u64) -> (c: char)
    requires
        d < 16,
    ensures
        c == digit_char(d as nat),
{
    match d {
        0 => '0',
        1 => '1',
        2 => '2',
        3 => '3',
        4 => '4',
        5 => '5',
        6 => '6',
        7 => '7',
        8 => '8',
        9 => '9',
        10 => 'a',
        11 => 'b',
        12 => 'c',
        13 => 'd',
        14 => 'e',
        _ => 'f',
    }
}

fn push_digits(s: &mut String, n: u64, base: u64)
    requires
        2 <= base <= 16,
    ensures
        final(s)@ == old(s)@ + digits(n as nat, base as nat),
    decreases n,
{
    if n == 0 {
        assert(old(s)@ + Seq::<char>::empty() =~= old(s)@);
    } else {
        let ghost before = s@;
        proof {
            lemma_quotient_smaller(n as nat, base as nat);
        }
        push_digits(s, n / base, base);
        push_char(s, digit_to_char(n % base));
        assert(s@ =~= before + digits(n as nat, base as nat));
    }
}

/// Appends `n` written in base `base` (2 to 16) to `s`.
pub fn push_radix(s: &mut String, n: u64, base: u64)
    requires
        2 <= base <= 16,
    ensures
        final(s)@ == old(s)@ + radix_text(n as nat, base as nat),
{
    if n == 0 {
        push_char(s, '0');
        assert(s@ =~= old(s)@ + seq!['0']);
    } else {
        push_digits(s, n, base);
    }
}

/// Appends the decimal text of `n` to `s`.
pub fn push_decimal(s: &mut String, n: u64)
    ensures
        final(s)@ == old(s)@ + decimal(n as nat),
{
    push_radix(s, n, 10);
}

/// Appends `t` to `s`.
pub fn push_text(s: &mut String, t: &str)
    ensures
        final(s)@ == old(s)@ + t@,
{
    s.append(t);
}

/// `n` as lower-case hexadecimal, the text `format!("{:x}", n)` gives.
pub fn hex_string(n: u64) -> (s: String)
    ensures
        s@ == lower_hex(n as nat),
{
    let mut s = String::new();
    push_radix(&mut s, n, 16);
    assert(s@ =~= lower_hex(n as nat));
    s
}

/// `n` in decimal, the text `format!("{}", n)` gives.
pub fn decimal_string(n: u64) -> (s: String)
    ensures
        s@ == decimal(n as nat),
{
    let mut s = String::new();
    push_radix(&mut s, n, 10);
    assert(s@ =~= decimal(n as nat));
    s
}

} // verus!
