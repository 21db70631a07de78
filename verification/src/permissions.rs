//! Permission bits of the command channel and their octal text form.

use crate::numerals::{
    all_digits, digit_char, digits_of, is_digit, lemma_digits_of_numeral,
    lemma_digits_of_write_number, lemma_leading_zeros, lemma_zero_padded_twice, positional_value,
    push_digits, zero_padded,
};
use crate::text::{lemma_trimmed_without_margin, trimmed};
use vstd::prelude::*;

verus! {

/// The number of values that the 32-bit word holding the bits can take.
pub const WORD: u64 = 0x1_0000_0000;

/// Permission bits, kept as an unsigned integer and written in octal.
#[derive(Debug, Clone, Copy, PartialEq, Eq, Structural)]
pub struct OctalPermissions {
    inner: u32,
}

/// Why a text is not a permission value.
#[derive(Debug, Clone, Copy, PartialEq, Eq, Structural)]
pub enum ParseError {
    /// A character other than `0` to `7` stands in the text.
    NonOctalDigit,
}

impl ParseError {
    /// The error in words.
    pub fn message(&self) -> (text: &'static str)
        ensures
            text@ == "Cannot parse non digit"@,
    {
        "Cannot parse non digit"
    }
}

impl View for OctalPermissions {
    type V = u32;

    closed spec fn view(&self) -> u32 {
        self.inner
    }
}

/// The value that `text` writes: after trimming, every character is an octal
/// digit and contributes three bits; bits above the 32nd are dropped.
pub open spec fn parse_spec(text: Seq<char>) -> Option<u32> {
    let digits = trimmed(text);
    if all_digits(digits, 8) {
        Some((positional_value(digits, 8) % (WORD as nat)) as u32)
    } else {
        None
    }
}

/// The text of `bits`: its octal digits, zero-padded to three.
pub open spec fn render_spec(bits: u32) -> Seq<char> {
    zero_padded(digits_of(bits as nat, 8), 3)
}

impl OctalPermissions {
    /// The permission value with the given bits.
    pub fn new(bits: u32) -> (r: OctalPermissions)
        ensures
            r@ == bits,
    {
        OctalPermissions { inner: bits }
    }

    /// The bits as an integer.
    pub fn value(&self) -> (bits: u32)
        ensures
            bits == self@,
    {
        self.inner
    }

    /// Reads a permission value from octal text. Surrounding whitespace is
    /// ignored; any character other than `0` to `7` is an error. Each digit
    /// contributes three bits, and bits above the 32nd are dropped; an empty
    /// text gives 0.
    pub fn from_str(string: &str) -> (r: Result<OctalPermissions, ParseError>)
        ensures
            r is Ok <==> all_digits(trimmed(string@), 8),
            match r {
                Ok(p) => parse_spec(string@) == Some(p@),
                Err(e) => parse_spec(string@) is None && e == ParseError::NonOctalDigit,
            },
    {
        let digits = string.trim();
        let mut sum: u32 = 0;
        for c in it: digits.chars()
            invariant
                it.seq() == digits@,
                digits@ == trimmed(string@),
                all_digits(digits@.take(it.index() as int), 8),
                sum == positional_value(digits@.take(it.index() as int), 8) % (WORD as nat),
        {
            let ghost seen = digits@.take(it.index() as int);
            let ghost next = digits@.take(it.index() + 1);
            assert(next.drop_last() =~= seen);
            assert(next.last() == c);
            match c.to_digit(8) {
                Some(digit) => {
                    let shifted: u32 = sum << 3;
                    assert(shifted == (sum * 8) % 0x1_0000_0000 && shifted <= 0xffff_fff8) by (bit_vector)
                        requires
                            shifted == sum << 3,
                    ;
                    proof {
                        lemma_fold_step(positional_value(seen, 8), digit as nat);
                    }
                    sum = shifted + digit;
                },
                None => {
                    assert(!is_digit(digits@[it.index() as int], 8));
                    return Err(ParseError::NonOctalDigit);
                },
            }
        }
        assert(digits@.take(digits@.len() as int) =~= digits@);
        Ok(OctalPermissions { inner: sum })
    }

    /// The value in octal, with leading zeros where it has fewer than three
    /// digits.
    pub fn render(&self) -> (text: String)
        ensures
            text@ == render_spec(self@),
    {
        let mut text = String::new();
        if self.inner < 64 {
            text.push('0');
        }
        if self.inner < 8 {
            text.push('0');
        }
        let ghost zeros = text@;
        push_digits(&mut text, self.inner, 8);
        proof {
            lemma_render_width(self.inner);
            let digits = digits_of(self.inner as nat, 8);
            if digits.len() < 3 {
                assert(zeros =~= Seq::new((3 - digits.len()) as nat, |i: int| '0'));
            } else {
                assert(text@ =~= digits);
            }
        }
        text
    }
}

/// The number of octal digits of a value: one below 8, two below 64, three
/// or more from there on.
proof fn lemma_render_width(bits: u32)
    ensures
        bits < 8 ==> digits_of(bits as nat, 8).len() == 1,
        8 <= bits < 64 ==> digits_of(bits as nat, 8).len() == 2,
        64 <= bits ==> digits_of(bits as nat, 8).len() >= 3,
{
    let n = bits as nat;
    if n >= 8 {
        assert(digits_of(n, 8) == digits_of(n / 8, 8).push(digit_char(n % 8)));
        if n >= 64 {
            assert(digits_of(n / 8, 8) == digits_of(n / 8 / 8, 8).push(digit_char(n / 8 % 8)));
            lemma_digits_of_write_number(n / 8 / 8, 8);
        }
    }
}

/// Rendering a value and parsing the text gives the value back. This holds
/// of every value, the nine permission bits among them.
pub proof fn lemma_render_then_parse(bits: u32)
    ensures
        parse_spec(render_spec(bits)) == Some(bits),
{
    let digits = digits_of(bits as nat, 8);
    let text = render_spec(bits);
    lemma_digits_of_write_number(bits as nat, 8);
    if digits.len() < 3 {
        lemma_leading_zeros((3 - digits.len()) as nat, digits, 8);
    }
    assert(all_digits(text, 8));
    assert(is_digit(text[0], 8) && is_digit(text.last(), 8));
    lemma_trimmed_without_margin(text);
}

/// Folding one more octal digit into a value commutes with dropping the bits
/// above the 32nd.
proof fn lemma_fold_step(value: nat, digit: nat)
    requires
        digit < 8,
    ensures
        (value * 8 + digit) % (WORD as nat) == ((value % (WORD as nat)) * 8) % (WORD as nat) + digit,
{
    let m = WORD as int;
    let v = value as int;
    let r = v % m;
    let q = v / m;
    assert(v == q * m + r) by {
        vstd::arithmetic::div_mod::lemma_fundamental_div_mod(v, m);
    }
    let r8 = (r * 8) % m;
    let k = (r * 8) / m;
    assert(r * 8 == k * m + r8) by {
        vstd::arithmetic::div_mod::lemma_fundamental_div_mod(r * 8, m);
    }
    // r8 is a multiple of 8 below the modulus, so adding a digit stays below it.
    assert(r8 == 8 * (r - k * 0x2000_0000));
    assert(r8 + digit < m);
    assert(v * 8 + digit == (q * 8 + k) * m + (r8 + digit)) by (nonlinear_arith)
        requires
            v == q * m + r,
            r * 8 == k * m + r8,
    ;
    vstd::arithmetic::div_mod::lemma_fundamental_div_mod_converse(
        v * 8 + digit,
        m,
        q * 8 + k,
        r8 + digit,
    );
}

/// Parsing one to three octal digits and rendering the value gives the
/// digits back, zero-padded to three.
pub proof fn lemma_parse_then_render(text: Seq<char>)
    requires
        1 <= text.len() <= 3,
        all_digits(text, 8),
    ensures
        parse_spec(text) is Some,
        render_spec(parse_spec(text)->0) == zero_padded(text, 3),
        render_spec(parse_spec(text)->0).len() == 3,
{
    assert(is_digit(text[0], 8) && is_digit(text.last(), 8));
    lemma_trimmed_without_margin(text);
    let value = positional_value(text, 8);
    lemma_numeral_bound(text);
    lemma_digits_of_numeral(text, 8);
    lemma_zero_padded_twice(digits_of(value, 8), text.len(), 3);
}

/// Up to three octal digits write a number below 512.
proof fn lemma_numeral_bound(text: Seq<char>)
    requires
        text.len() <= 3,
        all_digits(text, 8),
    ensures
        positional_value(text, 8) < 512,
{
    reveal_with_fuel(positional_value, 4);
    if text.len() >= 1 {
        assert(is_digit(text.last(), 8));
        let two = text.drop_last();
        if two.len() >= 1 {
            assert(two.last() == text[text.len() - 2]);
            assert(is_digit(two.last(), 8));
            let one = two.drop_last();
            if one.len() >= 1 {
                assert(one.last() == text[text.len() - 3]);
                assert(is_digit(one.last(), 8));
            }
        }
    }
}

} // verus!
