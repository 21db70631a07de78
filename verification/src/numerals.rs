//! Numerals: digits, the numbers they write, and the digits that write a
//! number.

use vstd::prelude::*;

verus! {

/// The value of `c` read as one of the digits `0-9`, `a-z`, `A-Z`.
pub open spec fn alphanumeric_value(c: char) -> Option<u32> {
    if '0' <= c <= '9' {
        Some((c as u32 - '0' as u32) as u32)
    } else if 'a' <= c <= 'z' {
        Some((c as u32 - 'a' as u32 + 10) as u32)
    } else if 'A' <= c <= 'Z' {
        Some((c as u32 - 'A' as u32 + 10) as u32)
    } else {
        None
    }
}

/// The value of `c` as a digit in the given radix, if it is one.
pub open spec fn digit_in_radix(c: char, radix: u32) -> Option<u32> {
    match alphanumeric_value(c) {
        Some(v) => if v < radix {
            Some(v)
        } else {
            None
        },
        None => None,
    }
}

/// `char::to_digit` reads `0-9`, `a-z` and `A-Z` as the digits 0 to 35 and
/// returns the digit where it is below the radix. It panics on a radix
/// outside 2..=36, which the precondition excludes.
pub assume_specification[ char::to_digit ](c: char, radix: u32) -> (r: Option<u32>)
    requires
        2 <= radix <= 36,
    ensures
        r == digit_in_radix(c, radix),
;

/// Whether `c` is a digit of the given base (at most 10).
pub open spec fn is_digit(c: char, base: nat) -> bool {
    '0' <= c && (c as nat) < '0' as nat + base
}

/// Whether every character of `s` is a digit of the given base.
pub open spec fn all_digits(s: Seq<char>, base: nat) -> bool {
    forall|i: int| 0 <= i < s.len() ==> is_digit(#[trigger] s[i], base)
}

/// The number that `digits` write in the given base, most significant digit
/// first; 0 for no digits.
pub open spec fn positional_value(digits: Seq<char>, base: nat) -> nat
    decreases digits.len(),
{
    if digits.len() == 0 {
        0
    } else {
        positional_value(digits.drop_last(), base) * base + (digits.last() as nat - '0' as nat) as nat
    }
}

/// `s` without one leading plus sign.
pub open spec fn without_plus(s: Seq<char>) -> Seq<char> {
    if s.len() > 0 && s[0] == '+' {
        s.drop_first()
    } else {
        s
    }
}

/// The byte that `s` writes in decimal: an optional plus sign, then one or
/// more digits, nothing else, and a value of at most 255.
pub open spec fn parse_u8_spec(s: Seq<char>) -> Option<u8> {
    let digits = without_plus(s);
    if digits.len() > 0 && all_digits(digits, 10) && positional_value(digits, 10) <= 255 {
        Some(positional_value(digits, 10) as u8)
    } else {
        None
    }
}

/// `str::parse::<u8>` accepts an optional `+` followed by decimal digits only
/// and fails on an empty string, on any other character and on a value above
/// 255. The kind of failure is dropped.
#[verifier::external_body]
pub(crate) fn parse_u8(s: &str) -> (r: Option<u8>)
    ensures
        r == parse_u8_spec(s@),
{
    s.parse::<u8>().ok()
}

/// `String::push` appends one character.
pub assume_specification[ String::push ](s: &mut String, c: char)
    ensures
        final(s)@ == old(s)@.push(c),
;

/// The character that writes the digit `d`, for `d` below 10.
pub open spec fn digit_char(d: nat) -> char {
    (d + '0' as nat) as char
}

/// The digits of `n` in the given base (at most 10), most significant
/// first, without leading zeros; one zero for 0.
pub open spec fn digits_of(n: nat, base: nat) -> Seq<char>
    recommends
        2 <= base <= 10,
    decreases n,
    via digits_of_decreases
{
    if n < base || base < 2 {
        seq![digit_char(n)]
    } else {
        digits_of(n / base, base).push(digit_char(n % base))
    }
}

#[via_fn]
proof fn digits_of_decreases(n: nat, base: nat) {
    if n >= base && base >= 2 {
        lemma_quotient_is_smaller(n, base);
    }
}

/// Dividing a number by a base of at least 2 that does not exceed it makes
/// it smaller.
pub proof fn lemma_quotient_is_smaller(n: nat, base: nat)
    requires
        2 <= base <= n,
    ensures
        n / base < n,
        n % base < base,
{
    assert(n / base < n && n % base < base) by (nonlinear_arith)
        requires
            2 <= base <= n,
    ;
}

/// The character for one digit.
pub(crate) fn digit_to_char(d: u8) -> (c: char)
    requires
        d < 10,
    ensures
        c == digit_char(d as nat),
{
    (48u8 + d) as char
}

/// Appends the digits of `n` in the given base to `out`.
pub(crate) fn push_digits(out: &mut String, n: u32, base: u32)
    requires
        2 <= base <= 10,
    ensures
        final(out)@ == old(out)@ + digits_of(n as nat, base as nat),
    decreases n,
{
    if n >= base {
        proof {
            lemma_quotient_is_smaller(n as nat, base as nat);
        }
        push_digits(out, n / base, base);
    }
    let d: u32 = n % base;
    out.push(digit_to_char(d as u8));
    proof {
        if n >= base {
            let above = digits_of((n / base) as nat, base as nat);
            assert(out@ =~= old(out)@ + above.push(digit_char(d as nat)));
        } else {
            assert(n % base == n) by (nonlinear_arith)
                requires
                    n < base,
            ;
            assert(out@ =~= old(out)@ + seq![digit_char(n as nat)]);
        }
    }
}

/// `digits` behind as many zeros as it takes to reach `width` characters.
pub open spec fn zero_padded(digits: Seq<char>, width: nat) -> Seq<char> {
    if digits.len() >= width {
        digits
    } else {
        Seq::new((width - digits.len()) as nat, |i: int| '0') + digits
    }
}

/// The digits of a number are digits of the base, at least one, and write
/// the number.
pub proof fn lemma_digits_of_write_number(n: nat, base: nat)
    requires
        2 <= base <= 10,
    ensures
        digits_of(n, base).len() >= 1,
        all_digits(digits_of(n, base), base),
        positional_value(digits_of(n, base), base) == n,
    decreases n,
{
    let digits = digits_of(n, base);
    if n < base {
        assert(digits =~= seq![digit_char(n)]);
        assert(digits.drop_last() =~= Seq::<char>::empty());
        assert(positional_value(digits.drop_last(), base) == 0);
        assert(digits.last() as nat == n + '0' as nat);
        assert(positional_value(digits, base) == 0 * base + n);
        assert(0 * base == 0) by (nonlinear_arith);
    } else {
        lemma_quotient_is_smaller(n, base);
        lemma_digits_of_write_number(n / base, base);
        let above = digits_of(n / base, base);
        assert(digits =~= above.push(digit_char(n % base)));
        assert(digits.drop_last() =~= above);
        assert(digits.last() as nat == n % base + '0' as nat);
        assert(positional_value(digits, base) == (n / base) * base + n % base);
        assert(n == (n / base) * base + n % base) by (nonlinear_arith)
            requires
                base > 0,
        ;
        assert forall|i: int| 0 <= i < digits.len() implies is_digit(#[trigger] digits[i], base) by {
            if i < above.len() {
                assert(digits[i] == above[i]);
            }
        }
    }
}

/// Zeros in front of digits do not change the number written.
pub proof fn lemma_leading_zeros(zeros: nat, digits: Seq<char>, base: nat)
    ensures
        positional_value(Seq::new(zeros, |i: int| '0') + digits, base) == positional_value(
            digits,
            base,
        ),
    decreases digits.len(), zeros,
{
    let padding = Seq::new(zeros, |i: int| '0');
    let all = padding + digits;
    if digits.len() > 0 {
        lemma_leading_zeros(zeros, digits.drop_last(), base);
        assert(all.drop_last() =~= padding + digits.drop_last());
    } else if zeros > 0 {
        let shorter = Seq::new((zeros - 1) as nat, |i: int| '0');
        lemma_leading_zeros((zeros - 1) as nat, digits, base);
        assert(all.drop_last() =~= shorter + digits);
        assert(positional_value(all.drop_last(), base) * base == 0) by (nonlinear_arith)
            requires
                positional_value(all.drop_last(), base) == 0,
        ;
    } else {
        assert(all =~= digits);
    }
}

/// The digits of the number that a numeral writes are the numeral without
/// its leading zeros: padded back to the numeral's length they are the
/// numeral.
pub proof fn lemma_digits_of_numeral(numeral: Seq<char>, base: nat)
    requires
        2 <= base <= 10,
        numeral.len() >= 1,
        all_digits(numeral, base),
    ensures
        zero_padded(digits_of(positional_value(numeral, base), base), numeral.len()) == numeral,
    decreases numeral.len(),
{
    let value = positional_value(numeral, base);
    let front = numeral.drop_last();
    let last = numeral.last();
    let unit = (last as nat - '0' as nat) as nat;
    let above = positional_value(front, base);
    assert(is_digit(last, base));
    assert(digit_char(unit) == last);
    assert(numeral =~= front.push(last));
    if above == 0 {
        assert(value == unit) by (nonlinear_arith)
            requires
                value == above * base + unit,
                above == 0,
        ;
        assert(digits_of(value, base) =~= seq![last]);
        if front.len() == 0 {
        } else {
            lemma_digits_of_numeral(front, base);
            assert(digits_of(0, base) =~= seq!['0']);
            let zeros = Seq::new((numeral.len() - 1) as nat, |i: int| '0');
            if front.len() == 1 {
                assert(front =~= zeros);
            } else {
                assert(front =~= Seq::new((front.len() - 1) as nat, |i: int| '0') + seq!['0']);
                assert(front =~= zeros);
            }
            assert(zero_padded(seq![last], numeral.len()) =~= front.push(last));
        }
    } else {
        assert(front.len() >= 1);
        lemma_digits_of_numeral(front, base);
        assert(value / base == above && value % base == unit && value >= base) by (nonlinear_arith)
            requires
                value == above * base + unit,
                unit < base,
                above > 0,
        ;
        let high = digits_of(above, base);
        assert(digits_of(value, base) =~= high.push(last));
        if high.len() >= front.len() {
            assert(high == front);
        } else {
            let zeros = Seq::new((front.len() - high.len()) as nat, |i: int| '0');
            assert(front == zeros + high);
            assert(zero_padded(high.push(last), numeral.len()) =~= (zeros + high).push(last));
        }
    }
}

/// Padding to a width what was padded to a smaller width is padding to the
/// width at once.
pub proof fn lemma_zero_padded_twice(digits: Seq<char>, inner: nat, outer: nat)
    requires
        inner <= outer,
    ensures
        zero_padded(zero_padded(digits, inner), outer) == zero_padded(digits, outer),
{
    assert(zero_padded(zero_padded(digits, inner), outer) =~= zero_padded(digits, outer));
}

} // verus!
