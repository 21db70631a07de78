//! The command protocol: one payload read from the channel becomes a request
//! to set one or both thresholds, an error, or nothing.

use crate::text::{
    contains_pattern, is_first_occurrence, lemma_occurrence_has_first,
    lemma_split_at_first_occurrence, occurs_at, pair_view, split_once, split_once_spec, text_view,
    trimmed,
};
use vstd::prelude::*;

verus! {

/// A request to set thresholds, as raw text that is yet to be validated.
#[derive(Debug, Clone, Copy, PartialEq, Eq)]
pub struct ThresholdIntent<'a> {
    /// The text given for the start threshold.
    pub start: Option<&'a str>,
    /// The text given for the end threshold.
    pub end: Option<&'a str>,
}

/// What one payload asks for.
#[derive(Debug, Clone, Copy, PartialEq, Eq)]
pub enum Command<'a> {
    /// Set the thresholds that the intent names.
    Thresholds(ThresholdIntent<'a>),
    /// An assignment to something other than `start` or `end`: an error.
    WrongMode,
    /// Neither a range nor an assignment: passed over.
    Ignored,
}

/// A command over sequences of characters.
pub enum CommandView {
    Thresholds { start: Option<Seq<char>>, end: Option<Seq<char>> },
    WrongMode,
    Ignored,
}

impl<'a> View for Command<'a> {
    type V = CommandView;

    open spec fn view(&self) -> CommandView {
        match *self {
            Command::Thresholds(intent) => CommandView::Thresholds {
                start: text_view(intent.start),
                end: text_view(intent.end),
            },
            Command::WrongMode => CommandView::WrongMode,
            Command::Ignored => CommandView::Ignored,
        }
    }
}

/// Both halves of a pair without their surrounding whitespace.
pub open spec fn trimmed_pair(pair: Option<(Seq<char>, Seq<char>)>) -> Option<
    (Seq<char>, Seq<char>),
> {
    match pair {
        Some((head, tail)) => Some((trimmed(head), trimmed(tail))),
        None => None,
    }
}

/// The command that a payload writes. A payload that holds `..` is a range:
/// what stands before the first `..` is the start threshold, what follows it
/// the end threshold. Otherwise a payload that holds `=` is an assignment of
/// what follows the first `=` to what precedes it, which must be `start` or
/// `end`. Every part is taken without its surrounding whitespace.
pub open spec fn parse_command_spec(payload: Seq<char>) -> CommandView {
    match trimmed_pair(split_once_spec(payload, ".."@)) {
        Some((start, end)) => CommandView::Thresholds { start: Some(start), end: Some(end) },
        None => match trimmed_pair(split_once_spec(payload, "="@)) {
            Some((mode, value)) => if mode == "start"@ {
                CommandView::Thresholds { start: Some(value), end: None }
            } else if mode == "end"@ {
                CommandView::Thresholds { start: None, end: Some(value) }
            } else {
                CommandView::WrongMode
            },
            None => CommandView::Ignored,
        },
    }
}

/// Trims both halves of a pair, if there is one.
pub fn trim_if_some<'a>(v: Option<(&'a str, &'a str)>) -> (r: Option<(&'a str, &'a str)>)
    ensures
        pair_view(r) == trimmed_pair(pair_view(v)),
{
    if let Some((v1, v2)) = v {
        return Some((v1.trim(), v2.trim()));
    }
    None
}

/// Reads one payload.
pub fn parse_command<'a>(payload: &'a str) -> (command: Command<'a>)
    ensures
        command@ == parse_command_spec(payload@),
{
    proof {
        reveal_strlit("..");
        reveal_strlit("=");
    }
    if let Some((start, end)) = trim_if_some(split_once(payload, "..")) {
        Command::Thresholds(ThresholdIntent { start: Some(start), end: Some(end) })
    } else if let Some((mode, value)) = trim_if_some(split_once(payload, "=")) {
        if mode.eq("start") {
            Command::Thresholds(ThresholdIntent { start: Some(value), end: None })
        } else if mode.eq("end") {
            Command::Thresholds(ThresholdIntent { start: None, end: Some(value) })
        } else {
            Command::WrongMode
        }
    } else {
        Command::Ignored
    }
}

/// An empty payload is passed over.
pub proof fn lemma_empty_payload_is_ignored()
    ensures
        parse_command_spec(Seq::empty()) == CommandView::Ignored,
{
    reveal_strlit("..");
    reveal_strlit("=");
    let empty = Seq::<char>::empty();
    assert forall|at: int| !is_first_occurrence(empty, ".."@, at) by {}
    assert forall|at: int| !is_first_occurrence(empty, "="@, at) by {}
}

/// A payload that holds the range delimiter names both thresholds, whatever
/// else it holds.
pub proof fn lemma_range_names_both_sides(payload: Seq<char>)
    requires
        contains_pattern(payload, ".."@),
    ensures
        parse_command_spec(payload) matches CommandView::Thresholds { start, end } && start is Some
            && end is Some,
{
    let at = choose|at: int| occurs_at(payload, ".."@, at);
    lemma_occurrence_has_first(payload, ".."@, at);
}

/// A range whose left side holds no dot names what stands on each side of
/// the delimiter, without the surrounding whitespace.
pub proof fn lemma_range_sides(left: Seq<char>, right: Seq<char>)
    requires
        forall|i: int| 0 <= i < left.len() ==> left[i] != '.',
    ensures
        parse_command_spec(left + ".."@ + right) == (CommandView::Thresholds {
            start: Some(trimmed(left)),
            end: Some(trimmed(right)),
        }),
{
    reveal_strlit("..");
    let payload = left + ".."@ + right;
    let at = left.len() as int;
    assert(payload.subrange(at, at + 2) =~= ".."@);
    assert forall|before: int| 0 <= before < at implies !occurs_at(payload, ".."@, before) by {
        if occurs_at(payload, ".."@, before) {
            assert(payload.subrange(before, before + 2)[0] == left[before]);
        }
    }
    lemma_split_at_first_occurrence(payload, ".."@, at);
    assert(payload.subrange(0, at) =~= left);
    assert(payload.subrange(at + 2, payload.len() as int) =~= right);
}

/// An assignment without the range delimiter, whose left side holds no
/// equals sign, sets the threshold that its left side names to what stands
/// on the right, each without the surrounding whitespace; any other name
/// than `start` and `end` is an error.
pub proof fn lemma_assignment_sides(mode: Seq<char>, value: Seq<char>)
    requires
        forall|i: int| 0 <= i < mode.len() ==> mode[i] != '=',
        !contains_pattern(mode + "="@ + value, ".."@),
    ensures
        parse_command_spec(mode + "="@ + value) == if trimmed(mode) == "start"@ {
            CommandView::Thresholds { start: Some(trimmed(value)), end: None }
        } else if trimmed(mode) == "end"@ {
            CommandView::Thresholds { start: None, end: Some(trimmed(value)) }
        } else {
            CommandView::WrongMode
        },
{
    reveal_strlit("=");
    let payload = mode + "="@ + value;
    let at = mode.len() as int;
    assert(payload.subrange(at, at + 1) =~= "="@);
    assert forall|before: int| 0 <= before < at implies !occurs_at(payload, "="@, before) by {
        if occurs_at(payload, "="@, before) {
            assert(payload.subrange(before, before + 1)[0] == mode[before]);
        }
    }
    lemma_split_at_first_occurrence(payload, "="@, at);
    assert(payload.subrange(0, at) =~= mode);
    assert(payload.subrange(at + 1, payload.len() as int) =~= value);
}

/// A payload that holds neither delimiter is passed over.
pub proof fn lemma_payload_without_delimiter_is_ignored(payload: Seq<char>)
    requires
        !contains_pattern(payload, ".."@),
        !contains_pattern(payload, "="@),
    ensures
        parse_command_spec(payload) == CommandView::Ignored,
{
}

/// An assignment names one threshold at most: a payload without the range
/// delimiter never names both.
pub proof fn lemma_assignment_names_one_side(payload: Seq<char>)
    requires
        !contains_pattern(payload, ".."@),
    ensures
        parse_command_spec(payload) matches CommandView::Thresholds { start, end } ==> (start is None
            != end is None),
{
}

} // verus!
