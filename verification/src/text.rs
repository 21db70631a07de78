//! Text primitives: what the string functions that the daemon relies on
//! return, stated over sequences of characters.

use vstd::prelude::*;

verus! {

/// The characters that carry the Unicode property `White_Space`.
pub open spec fn is_whitespace(c: char) -> bool {
    ||| '\u{9}' <= c <= '\u{d}'
    ||| c == ' '
    ||| c == '\u{85}'
    ||| c == '\u{a0}'
    ||| c == '\u{1680}'
    ||| '\u{2000}' <= c <= '\u{200a}'
    ||| c == '\u{2028}'
    ||| c == '\u{2029}'
    ||| c == '\u{202f}'
    ||| c == '\u{205f}'
    ||| c == '\u{3000}'
}

/// `s` without its leading whitespace.
pub open spec fn trim_start(s: Seq<char>) -> Seq<char>
    decreases s.len(),
{
    if s.len() > 0 && is_whitespace(s[0]) {
        trim_start(s.drop_first())
    } else {
        s
    }
}

/// `s` without its trailing whitespace.
pub open spec fn trim_end(s: Seq<char>) -> Seq<char>
    decreases s.len(),
{
    if s.len() > 0 && is_whitespace(s.last()) {
        trim_end(s.drop_last())
    } else {
        s
    }
}

/// `s` without its leading and trailing whitespace.
pub open spec fn trimmed(s: Seq<char>) -> Seq<char> {
    trim_end(trim_start(s))
}

/// `str::trim` removes the leading and the trailing whitespace, where
/// whitespace is every character with the Unicode property `White_Space`.
pub assume_specification[ str::trim ](s: &str) -> (r: &str)
    ensures
        r@ == trimmed(s@),
;

/// `str::eq` compares two string slices character by character.
pub assume_specification[ <str as PartialEq>::eq ](a: &str, b: &str) -> (r: bool)
    ensures
        r == (a@ == b@),
;

/// Whether `pattern` stands in `s` at index `at`.
pub open spec fn occurs_at(s: Seq<char>, pattern: Seq<char>, at: int) -> bool {
    &&& 0 <= at
    &&& at + pattern.len() <= s.len()
    &&& s.subrange(at, at + pattern.len()) == pattern
}

/// Whether `pattern` stands anywhere in `s`.
pub open spec fn contains_pattern(s: Seq<char>, pattern: Seq<char>) -> bool {
    exists|at: int| occurs_at(s, pattern, at)
}

/// Whether `at` is the leftmost index at which `pattern` stands in `s`.
pub open spec fn is_first_occurrence(s: Seq<char>, pattern: Seq<char>, at: int) -> bool {
    &&& occurs_at(s, pattern, at)
    &&& forall|before: int| 0 <= before < at ==> !occurs_at(s, pattern, before)
}

/// What precedes and what follows the leftmost occurrence of `pattern` in
/// `s`; `None` where there is no occurrence.
pub open spec fn split_once_spec(s: Seq<char>, pattern: Seq<char>) -> Option<
    (Seq<char>, Seq<char>),
> {
    if exists|at: int| is_first_occurrence(s, pattern, at) {
        let at = choose|at: int| is_first_occurrence(s, pattern, at);
        Some((s.subrange(0, at), s.subrange(at + pattern.len(), s.len() as int)))
    } else {
        None
    }
}

/// Where `at` is the leftmost occurrence of `pattern` in `s`, the split is
/// made there.
pub proof fn lemma_split_at_first_occurrence(s: Seq<char>, pattern: Seq<char>, at: int)
    requires
        is_first_occurrence(s, pattern, at),
    ensures
        split_once_spec(s, pattern) == Some(
            (s.subrange(0, at), s.subrange(at + pattern.len(), s.len() as int)),
        ),
{
    let chosen = choose|i: int| is_first_occurrence(s, pattern, i);
    assert(is_first_occurrence(s, pattern, chosen));
    if chosen < at {
        assert(!occurs_at(s, pattern, chosen));
    }
    if at < chosen {
        assert(!occurs_at(s, pattern, at));
    }
}

/// Where `pattern` occurs in `s`, it has a leftmost occurrence.
pub proof fn lemma_occurrence_has_first(s: Seq<char>, pattern: Seq<char>, at: int)
    requires
        occurs_at(s, pattern, at),
    ensures
        exists|first: int| 0 <= first <= at && is_first_occurrence(s, pattern, first),
    decreases at,
{
    if exists|before: int| 0 <= before < at && occurs_at(s, pattern, before) {
        let before = choose|before: int| 0 <= before < at && occurs_at(s, pattern, before);
        lemma_occurrence_has_first(s, pattern, before);
    } else {
        assert(is_first_occurrence(s, pattern, at));
    }
}

/// The characters of an optional string slice.
pub open spec fn text_view(text: Option<&str>) -> Option<Seq<char>> {
    match text {
        Some(s) => Some(s@),
        None => None,
    }
}

/// The views of a pair of string slices.
pub open spec fn pair_view(pair: Option<(&str, &str)>) -> Option<(Seq<char>, Seq<char>)> {
    match pair {
        Some((head, tail)) => Some((head@, tail@)),
        None => None,
    }
}

/// `str::split_once` with a string slice as the delimiter: it splits at the
/// first occurrence of the delimiter and returns what stands before and
/// after it, or `None` where the delimiter does not occur.
#[verifier::external_body]
pub(crate) fn split_once<'a>(s: &'a str, delimiter: &str) -> (r: Option<(&'a str, &'a str)>)
    requires
        delimiter@.len() > 0,
    ensures
        pair_view(r) == split_once_spec(s@, delimiter@),
{
    s.split_once(delimiter)
}

/// Trimming changes nothing in a text that neither begins nor ends with
/// whitespace.
pub proof fn lemma_trimmed_without_margin(s: Seq<char>)
    requires
        s.len() == 0 || (!is_whitespace(s[0]) && !is_whitespace(s.last())),
    ensures
        trimmed(s) == s,
{
}

} // verus!
