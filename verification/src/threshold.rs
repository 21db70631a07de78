//! Validation of threshold values and the text written to a control point.

use crate::numerals::{
    digits_of, is_digit, lemma_digits_of_write_number, parse_u8, parse_u8_spec, push_digits,
};
use crate::text::text_view;
use vstd::prelude::*;

verus! {

/// Why a request led to no write at all.
#[derive(Debug, Clone, Copy, PartialEq, Eq)]
pub enum Complaint {
    /// The request names neither threshold.
    NeitherProvided,
    /// No threshold that the request names is a number from 0 to 255.
    NeitherParsable,
}

/// The writes that a request leads to. Each write is attempted on its own,
/// the start threshold first; the failure of one does not stop the other.
#[derive(Debug, Clone, Copy, PartialEq, Eq)]
pub struct Dispatch {
    /// The value to write to the start control point, if any.
    pub start: Option<u8>,
    /// The value to write to the end control point, if any.
    pub end: Option<u8>,
    /// What to report where nothing is written.
    pub complaint: Option<Complaint>,
}

/// The value that one side of a request gives: present and a number from 0
/// to 255.
pub open spec fn validated(raw: Option<Seq<char>>) -> Option<u8> {
    match raw {
        Some(text) => parse_u8_spec(text),
        None => None,
    }
}

/// The writes for a request: each side is validated by itself, and a side
/// that is absent or no number is left out.
pub open spec fn dispatch_spec(start: Option<Seq<char>>, end: Option<Seq<char>>) -> Dispatch {
    Dispatch {
        start: validated(start),
        end: validated(end),
        complaint: if start is None && end is None {
            Some(Complaint::NeitherProvided)
        } else if validated(start) is None && validated(end) is None {
            Some(Complaint::NeitherParsable)
        } else {
            None
        },
    }
}

/// Validates both sides of a request and says which control points to write.
pub fn set_thresholds(start_o: Option<&str>, end_o: Option<&str>) -> (dispatch: Dispatch)
    ensures
        dispatch == dispatch_spec(text_view(start_o), text_view(end_o)),
{
    if start_o.is_none() && end_o.is_none() {
        return Dispatch { start: None, end: None, complaint: Some(Complaint::NeitherProvided) };
    }
    let mut atleast_one_parsable = false;
    let mut start: Option<u8> = None;
    let mut end: Option<u8> = None;
    if let Some(start_s) = start_o {
        if let Some(value) = parse_u8(start_s) {
            start = Some(value);
            atleast_one_parsable = true;
        }
    }
    if let Some(end_s) = end_o {
        if let Some(value) = parse_u8(end_s) {
            end = Some(value);
            atleast_one_parsable = true;
        }
    }
    let complaint = if !atleast_one_parsable {
        Some(Complaint::NeitherParsable)
    } else {
        None
    };
    Dispatch { start, end, complaint }
}

/// What is written to one control point does not depend on what was asked
/// for the other.
pub proof fn lemma_sides_are_validated_apart(
    start: Option<Seq<char>>,
    end: Option<Seq<char>>,
    other: Option<Seq<char>>,
)
    ensures
        dispatch_spec(start, end).start == dispatch_spec(start, other).start,
        dispatch_spec(start, end).end == dispatch_spec(other, end).end,
{
}

/// There is a complaint exactly where nothing is written.
pub proof fn lemma_complaint_means_no_write(start: Option<Seq<char>>, end: Option<Seq<char>>)
    ensures
        dispatch_spec(start, end).complaint is Some <==> dispatch_spec(start, end).start is None
            && dispatch_spec(start, end).end is None,
{
}

/// The text written to a control point for a value: its decimal digits.
pub open spec fn threshold_text_spec(value: u8) -> Seq<char> {
    digits_of(value as nat, 10)
}

/// The full contents to write to a control point for `value`.
pub fn threshold_text(value: u8) -> (text: String)
    ensures
        text@ == threshold_text_spec(value),
{
    let mut text = String::new();
    push_digits(&mut text, value as u32, 10);
    assert(text@ =~= digits_of(value as nat, 10));
    text
}

/// The text written for a value is read back as that value.
pub proof fn lemma_threshold_text_is_valid(value: u8)
    ensures
        parse_u8_spec(threshold_text_spec(value)) == Some(value),
{
    let text = threshold_text_spec(value);
    lemma_digits_of_write_number(value as nat, 10);
    assert(is_digit(text[0], 10));
}

} // verus!
