//! Writing numbers and text into byte buffers.

use vstd::prelude::*;
use vstd::utf8::*;

verus! {

/// The decimal digits of `n` as ASCII bytes, most significant first,
/// without leading zeros.
pub open spec fn decimal_digits(n: nat) -> Seq<u8>
    decreases n,
{
    if n < 10 {
        seq![(48 + n) as u8]
    } else {
        decimal_digits(n / 10).push((48 + n % 10) as u8)
    }
}

/// The first `places` decimal digits, as ASCII bytes, of the fraction
/// `numerator / 2^53`, cut off after the last digit that is not zero.
pub open spec fn fraction_digits(numerator: nat, places: nat) -> Seq<u8>
    decreases places,
{
    if places == 0 || numerator == 0 {
        Seq::empty()
    } else {
        seq![(48 + (numerator * 10) / 0x20_0000_0000_0000) as u8] + fraction_digits(
            (numerator * 10) % 0x20_0000_0000_0000,
            (places - 1) as nat,
        )
    }
}

/// The decimal text of the fraction `numerator / 2^53`: `0.` followed by
/// its digits, exactly; `0.0` for zero.
pub open spec fn fraction_text(numerator: nat) -> Seq<u8> {
    if numerator == 0 {
        seq![48u8, 46u8, 48u8]
    } else {
        seq![48u8, 46u8] + fraction_digits(numerator, 53)
    }
}

/// Ten to the power of `n`.
pub open spec fn pow10(n: nat) -> nat
    decreases n,
{
    if n == 0 {
        1
    } else {
        10 * pow10((n - 1) as nat)
    }
}

/// Two to the power of `n`.
pub open spec fn pow2(n: nat) -> nat
    decreases n,
{
    if n == 0 {
        1
    } else {
        2 * pow2((n - 1) as nat)
    }
}

/// The number that the decimal digits `digits` spell, most significant
/// digit first.
pub open spec fn digits_value(digits: Seq<u8>) -> nat
    decreases digits.len(),
{
    if digits.len() == 0 {
        0
    } else {
        (digits[0] - 48) as nat * pow10((digits.len() - 1) as nat) + digits_value(
            digits.drop_first(),
        )
    }
}

/// What is left of the fraction `numerator / 2^53` after the digits of
/// `fraction_digits(numerator, places)` were taken off, as a numerator
/// over `2^53`.
pub open spec fn fraction_rest(numerator: nat, places: nat) -> nat
    decreases places,
{
    if places == 0 || numerator == 0 {
        numerator
    } else {
        fraction_rest((numerator * 10) % 0x20_0000_0000_0000, (places - 1) as nat)
    }
}

/// The digits of a fraction and what is left after them add up to the
/// fraction: with `n` digits written, `numerator * 10^n` is the number
/// the digits spell times `2^53`, plus the rest.
proof fn lemma_fraction_digits(numerator: nat, places: nat)
    requires
        numerator < 0x20_0000_0000_0000,
    ensures
        numerator * pow10(fraction_digits(numerator, places).len()) == digits_value(
            fraction_digits(numerator, places),
        ) * 0x20_0000_0000_0000 + fraction_rest(numerator, places),
        fraction_digits(numerator, places).len() <= places,
    decreases places,
{
    let scale: nat = 0x20_0000_0000_0000;
    if places == 0 || numerator == 0 {
        assert(fraction_digits(numerator, places).len() == 0);
        assert(pow10(0) == 1);
        assert(digits_value(fraction_digits(numerator, places)) == 0);
        assert(fraction_rest(numerator, places) == numerator);
        assert(numerator * 1 == 0 * scale + numerator);
    } else {
        let next = (numerator * 10) % scale;
        let digit = (numerator * 10) / scale;
        let tail = fraction_digits(next, (places - 1) as nat);
        let digits = fraction_digits(numerator, places);
        lemma_fraction_digits(next, (places - 1) as nat);
        assert(digit < 10);
        assert(digits == seq![(48 + digit) as u8] + tail);
        assert(digits.drop_first() == tail);
        assert(digits[0] == (48 + digit) as u8);
        assert(digits.len() == tail.len() + 1);
        let high = pow10(tail.len());
        assert(pow10(digits.len()) == 10 * high);
        assert(digits_value(digits) == digit * high + digits_value(tail));
        assert(numerator * 10 == digit * scale + next);
        assert(fraction_rest(numerator, places) == fraction_rest(next, (places - 1) as nat));
        assert(numerator * (10 * high) == (digit * high + digits_value(tail)) * scale
            + fraction_rest(next, (places - 1) as nat)) by (nonlinear_arith)
            requires
                numerator * 10 == digit * scale + next,
                next * high == digits_value(tail) * scale + fraction_rest(
                    next,
                    (places - 1) as nat,
                ),
        ;
        assert(numerator * pow10(digits.len()) == digits_value(digits) * scale + fraction_rest(
            numerator,
            places,
        ));
    }
}

/// Powers of two multiply by adding the exponents.
proof fn lemma_pow2_adds(a: nat, b: nat)
    ensures
        pow2(a + b) == pow2(a) * pow2(b),
        pow2(a) > 0,
    decreases a,
{
    lemma_pow2_positive(a);
    if a > 0 {
        let below = (a - 1) as nat;
        lemma_pow2_adds(below, b);
        assert((a + b - 1) as nat == below + b);
        assert(pow2(a + b) == 2 * pow2(below + b));
        assert(pow2(a) == 2 * pow2(below));
        assert(2 * (pow2(below) * pow2(b)) == (2 * pow2(below)) * pow2(b)) by (nonlinear_arith);
    } else {
        assert(pow2(0) == 1);
        assert(pow2(0 + b) == 1 * pow2(b));
    }
}

/// Powers of two are positive.
proof fn lemma_pow2_positive(a: nat)
    ensures
        pow2(a) > 0,
    decreases a,
{
    if a > 0 {
        lemma_pow2_positive((a - 1) as nat);
    }
}

/// A numerator that is a multiple of `2^(53 - places)` leaves nothing
/// after `places` digits.
proof fn lemma_rest_vanishes(numerator: nat, places: nat, factor: nat)
    requires
        places <= 53,
        numerator < 0x20_0000_0000_0000,
        pow2(53) == 0x20_0000_0000_0000,
        numerator == pow2((53 - places) as nat) * factor,
    ensures
        fraction_rest(numerator, places) == 0,
    decreases places,
{
    let scale: nat = 0x20_0000_0000_0000;
    if places == 0 {
        assert(numerator == 0) by (nonlinear_arith)
            requires
                numerator == scale * factor,
                numerator < scale,
                scale > 0,
        ;
    } else if numerator == 0 {
    } else {
        let low = pow2((53 - places) as nat);
        let step = pow2((54 - places) as nat);
        let high = pow2((places - 1) as nat);
        lemma_pow2_adds((54 - places) as nat, (places - 1) as nat);
        lemma_pow2_positive((54 - places) as nat);
        assert(step == 2 * low);
        assert(scale == step * high);
        let next = (numerator * 10) % scale;
        let quotient = (numerator * 10) / scale;
        assert(numerator * 10 == quotient * scale + next);
        assert(numerator * 10 == step * (5 * factor)) by (nonlinear_arith)
            requires
                numerator == low * factor,
                step == 2 * low,
        ;
        assert(next == step * (5 * factor) - step * (quotient * high)) by (nonlinear_arith)
            requires
                numerator * 10 == quotient * scale + next,
                numerator * 10 == step * (5 * factor),
                scale == step * high,
        ;
        assert(5 * factor >= quotient * high) by (nonlinear_arith)
            requires
                next == step * (5 * factor) - step * (quotient * high),
                next >= 0,
                step > 0,
        ;
        let rest: nat = (5 * factor - quotient * high) as nat;
        assert(next == step * rest) by (nonlinear_arith)
            requires
                next == step * (5 * factor) - step * (quotient * high),
                rest == 5 * factor - quotient * high,
        ;
        lemma_rest_vanishes(next, (places - 1) as nat, rest);
    }
}

/// The fraction text is exact: the digits after `0.` spell the fraction
/// `numerator / 2^53` with nothing left over. With `n` digits written,
/// the number they spell, over `10^n`, is `numerator` over `2^53`.
pub proof fn lemma_fraction_exact(numerator: nat)
    requires
        numerator < 0x20_0000_0000_0000,
    ensures
        fraction_digits(numerator, 53).len() <= 53,
        numerator * pow10(fraction_digits(numerator, 53).len()) == digits_value(
            fraction_digits(numerator, 53),
        ) * 0x20_0000_0000_0000,
{
    assert(pow2(53) == 0x20_0000_0000_0000) by {
        reveal_with_fuel(pow2, 54);
    }
    assert(pow2(0) == 1);
    assert(numerator == pow2(0) * numerator);
    lemma_rest_vanishes(numerator, 53, numerator);
    lemma_fraction_digits(numerator, 53);
}

/// The text `true` or `false` as ASCII bytes.
pub open spec fn flag_text(flag: bool) -> Seq<u8> {
    if flag {
        encode_utf8("true"@)
    } else {
        encode_utf8("false"@)
    }
}

/// Appends the UTF-8 bytes of `text` to `out`.
pub fn push_text(out: &mut Vec<u8>, text: &str)
    ensures
        final(out)@ == old(out)@ + encode_utf8(text@),
{
    let bytes: &[u8] = text.as_bytes();
    let mut i: usize = 0;
    while i < bytes.len()
        invariant
            i <= bytes.len(),
            bytes@ == encode_utf8(text@),
            out@ == old(out)@ + bytes@.subrange(0, i as int),
        decreases bytes.len() - i,
    {
        out.push(bytes[i]);
        i += 1;
    }
    assert(bytes@.subrange(0, bytes@.len() as int) == bytes@);
}

/// Appends the decimal digits of `n` to `out`.
pub fn push_decimal(out: &mut Vec<u8>, n: u64)
    ensures
        final(out)@ == old(out)@ + decimal_digits(n as nat),
    decreases n,
{
    if n >= 10 {
        push_decimal(out, n / 10);
    }
    let digit: u8 = (n % 10) as u8;
    out.push(48 + digit);
}

/// Appends the decimal text of the fraction `numerator / 2^53` to `out`.
pub fn push_fraction(out: &mut Vec<u8>, numerator: u64)
    requires
        numerator < 0x20_0000_0000_0000,
    ensures
        final(out)@ == old(out)@ + fraction_text(numerator as nat),
{
    out.push(48);
    out.push(46);
    if numerator == 0 {
        out.push(48);
        return ;
    }
    let mut rest: u64 = numerator;
    let mut left: usize = 53;
    let ghost head = out@;
    while left > 0 && rest != 0
        invariant
            rest < 0x20_0000_0000_0000,
            left <= 53,
            head + fraction_digits(numerator as nat, 53) == out@ + fraction_digits(
                rest as nat,
                left as nat,
            ),
        decreases left,
    {
        let scaled: u64 = rest * 10;
        let digit: u8 = (scaled / 0x20_0000_0000_0000) as u8;
        proof {
            let tail = fraction_digits((scaled % 0x20_0000_0000_0000) as nat, (left - 1) as nat);
            assert(fraction_digits(rest as nat, left as nat) == seq![(48 + digit) as u8] + tail);
            assert(out@ + (seq![(48 + digit) as u8] + tail) == out@.push((48 + digit) as u8)
                + tail);
        }
        out.push(48 + digit);
        rest = scaled % 0x20_0000_0000_0000;
        left -= 1;
    }
    assert(fraction_digits(rest as nat, left as nat) == Seq::<u8>::empty());
    assert(out@ + Seq::<u8>::empty() == out@);
    assert(head == old(out)@ + seq![48u8, 46u8]);
    assert(old(out)@ + (seq![48u8, 46u8] + fraction_digits(numerator as nat, 53)) == head
        + fraction_digits(numerator as nat, 53));
}

/// Appends `true` or `false` to `out`.
pub fn push_flag(out: &mut Vec<u8>, flag: bool)
    ensures
        final(out)@ == old(out)@ + flag_text(flag),
{
    if flag {
        push_text(out, "true");
    } else {
        push_text(out, "false");
    }
}

/// Whether `needle` occurs in `hay` as a run of consecutive bytes.
pub open spec fn has_run(hay: Seq<u8>, needle: Seq<u8>) -> bool {
    exists|at: int| #[trigger] run_at(hay, needle, at)
}

/// Whether `needle` stands in `hay` at position `at`.
pub open spec fn run_at(hay: Seq<u8>, needle: Seq<u8>, at: int) -> bool {
    0 <= at && at + needle.len() <= hay.len() && hay.subrange(at, at + needle.len()) == needle
}

/// Whether the text `needle` occurs in the text `hay`. Both are compared
/// by their UTF-8 bytes.
pub open spec fn mentions(hay: Seq<char>, needle: Seq<char>) -> bool {
    has_run(encode_utf8(hay), encode_utf8(needle))
}

/// Whether `needle` stands in `hay` at position `at`.
fn matches_at(hay: &[u8], needle: &[u8], at: usize) -> (found: bool)
    requires
        at + needle@.len() <= hay@.len(),
    ensures
        found == run_at(hay@, needle@, at as int),
{
    let total: usize = hay.len();
    let mut i: usize = 0;
    while i < needle.len()
        invariant
            i <= needle.len(),
            at + needle@.len() <= hay@.len() == total,
            forall|j: int| 0 <= j < i ==> hay@[at + j] == needle@[j],
        decreases needle.len() - i,
    {
        if hay[at + i] != needle[i] {
            assert(hay@.subrange(at as int, at + needle@.len())[i as int] != needle@[i as int]);
            return false;
        }
        i += 1;
    }
    assert(hay@.subrange(at as int, at + needle@.len()) =~= needle@);
    true
}

/// Searches `hay` for `needle`.
pub fn contains_bytes(hay: &[u8], needle: &[u8]) -> (found: bool)
    ensures
        found == has_run(hay@, needle@),
{
    if needle.len() > hay.len() {
        return false;
    }
    let last: usize = hay.len() - needle.len();
    let mut at: usize = 0;
    loop
        invariant
            at <= last,
            last == hay@.len() - needle@.len(),
            forall|k: int| 0 <= k < at ==> !run_at(hay@, needle@, k),
        decreases last - at,
    {
        if matches_at(hay, needle, at) {
            return true;
        }
        if at == last {
            return false;
        }
        at += 1;
    }
}

/// Whether the text `needle` occurs in the text `hay`.
pub fn text_mentions(hay: &str, needle: &str) -> (found: bool)
    ensures
        found == mentions(hay@, needle@),
{
    contains_bytes(hay.as_bytes(), needle.as_bytes())
}

} // verus!
