//! Rendering of unsigned integers as text, in any radix up to sixteen.

use vstd::arithmetic::div_mod::{lemma_div_decreases, lemma_fundamental_div_mod, lemma_mod_bound};
use vstd::prelude::*;

verus! {

/// The character that stands for the digit `d`; digits above nine are
/// lower-case letters.
pub open spec fn digit_char(d: nat) -> char
    recommends
        d < 16,
{
    "0123456789abcdef"@[d as int]
}

/// The digits of `n` in radix `base`, most significant first, without
/// leading zeros. Zero is the single digit `0`.
pub open spec fn radix_digits(n: nat, base: nat) -> Seq<char>
    recommends
        2 <= base <= 16,
    decreases n,
{
    if base < 2 || n < base {
        seq![digit_char(n)]
    } else {
        proof {
            lemma_div_decreases(n as int, base as int);
        }
        radix_digits(n / base, base).push(digit_char(n % base))
    }
}

/// `n` in decimal.
pub open spec fn decimal(n: nat) -> Seq<char> {
    radix_digits(n, 10)
}

/// `n` in lower-case hexadecimal.
pub open spec fn lower_hex(n: nat) -> Seq<char> {
    radix_digits(n, 16)
}

/// Distinct digits have distinct characters.
pub proof fn lemma_digit_char_injective(a: nat, b: nat)
    requires
        a < 16,
        b < 16,
        digit_char(a) == digit_char(b),
    ensures
        a == b,
{
    reveal_strlit("0123456789abcdef");
}

/// A rendered number always has at least one digit.
pub proof fn lemma_radix_digits_nonempty(n: nat, base: nat)
    ensures
        radix_digits(n, base).len() >= 1,
    decreases n,
{
    if base < 2 || n < base {
    } else {
        lemma_div_decreases(n as int, base as int);
        lemma_radix_digits_nonempty(n / base, base);
    }
}

/// Two numbers with the same digits in one radix are the same number.
pub proof fn lemma_radix_digits_injective(a: nat, b: nat, base: nat)
    requires
        2 <= base <= 16,
        radix_digits(a, base) == radix_digits(b, base),
    ensures
        a == b,
    decreases a,
{
    let digits_a = radix_digits(a, base);
    let digits_b = radix_digits(b, base);
    if a < base {
        if b < base {
            assert(digits_a[0] == digit_char(a));
            lemma_digit_char_injective(a, b);
        } else {
            lemma_radix_digits_nonempty(b / base, base);
        }
    } else {
        let high_a = radix_digits(a / base, base);
        let low_a = digit_char(a % base);
        assert(digits_a == high_a.push(low_a));
        if b < base {
            lemma_radix_digits_nonempty(a / base, base);
        } else {
            let high_b = radix_digits(b / base, base);
            assert(high_a =~= digits_a.drop_last());
            assert(high_b =~= digits_b.drop_last());
            assert(low_a == digits_a.last());
            lemma_div_decreases(a as int, base as int);
            lemma_radix_digits_injective(a / base, b / base, base);
            lemma_mod_bound(a as int, base as int);
            lemma_mod_bound(b as int, base as int);
            lemma_digit_char_injective(a % base, b % base);
            lemma_fundamental_div_mod(a as int, base as int);
            lemma_fundamental_div_mod(b as int, base as int);
        }
    }
}

/// Appends the character of one digit to `out`.
fn push_digit(out: &mut String, d: u64)
    requires
        d < 16,
    ensures
        final(out)@ == old(out)@.push(digit_char(d as nat)),
{
    let digits = "0123456789abcdef";
    proof {
        reveal_strlit("0123456789abcdef");
    }
    let at: usize = d as usize;
    let digit = digits.substring_ascii(at, at + 1);
    out.append(digit);
}

/// Appends `n`, written in radix `base`, to `out`.
pub fn push_radix(out: &mut String, n: u64, base: u64)
    requires
        2 <= base <= 16,
    ensures
        final(out)@ == old(out)@ + radix_digits(n as nat, base as nat),
    decreases n,
{
    if n < base {
        push_digit(out, n);
    } else {
        proof {
            lemma_div_decreases(n as int, base as int);
            lemma_mod_bound(n as int, base as int);
        }
        push_radix(out, n / base, base);
        push_digit(out, n % base);
    }
}

/// Appends `n` in decimal to `out`.
pub fn push_decimal(out: &mut String, n: u64)
    ensures
        final(out)@ == old(out)@ + decimal(n as nat),
{
    push_radix(out, n, 10);
}

/// Appends `n` in lower-case hexadecimal to `out`.
pub fn push_lower_hex(out: &mut String, n: u64)
    ensures
        final(out)@ == old(out)@ + lower_hex(n as nat),
{
    push_radix(out, n, 16);
}

} // verus!
