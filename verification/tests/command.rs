use battery_pipe::command::{parse_command, trim_if_some, Command, ThresholdIntent};

fn both<'a>(start: &'a str, end: &'a str) -> Command<'a> {
    Command::Thresholds(ThresholdIntent { start: Some(start), end: Some(end) })
}

fn start_only(value: &str) -> Command<'_> {
    Command::Thresholds(ThresholdIntent { start: Some(value), end: None })
}

fn end_only(value: &str) -> Command<'_> {
    Command::Thresholds(ThresholdIntent { start: None, end: Some(value) })
}

#[test]
fn range_gives_both_sides() {
    assert_eq!(parse_command("10..20"), both("10", "20"));
}

#[test]
fn range_sides_are_trimmed() {
    assert_eq!(parse_command("  10 .. 20 "), both("10", "20"));
    assert_eq!(parse_command("80..90\n"), both("80", "90"));
    assert_eq!(parse_command("\t1\u{a0}..\u{2009}2\r\n"), both("1", "2"));
}

#[test]
fn range_splits_at_the_first_delimiter() {
    assert_eq!(parse_command("1..2..3"), both("1", "2..3"));
    assert_eq!(parse_command("10...20"), both("10", ".20"));
    assert_eq!(parse_command("....."), both("", "..."));
}

#[test]
fn range_keeps_sides_that_are_no_numbers() {
    assert_eq!(parse_command("abc..def"), both("abc", "def"));
    assert_eq!(parse_command(".."), both("", ""));
    assert_eq!(parse_command("5.."), both("5", ""));
    assert_eq!(parse_command("..5"), both("", "5"));
    assert_eq!(parse_command("256..10"), both("256", "10"));
}

#[test]
fn range_is_tried_before_assignment() {
    assert_eq!(parse_command("start=5..6"), both("start=5", "6"));
    assert_eq!(parse_command("1..end=2"), both("1", "end=2"));
}

#[test]
fn assignment_to_start() {
    assert_eq!(parse_command("start=5"), start_only("5"));
    assert_eq!(parse_command(" start = 5 \n"), start_only("5"));
    assert_eq!(parse_command("start="), start_only(""));
    assert_eq!(parse_command("start=abc"), start_only("abc"));
}

#[test]
fn assignment_to_end() {
    assert_eq!(parse_command("end=5"), end_only("5"));
    assert_eq!(parse_command("end\t=\t75"), end_only("75"));
}

#[test]
fn assignment_splits_at_the_first_equals_sign() {
    assert_eq!(parse_command("start=1=2"), start_only("1=2"));
    assert_eq!(parse_command("end==9"), end_only("=9"));
}

#[test]
fn assignment_to_anything_else_is_an_error() {
    assert_eq!(parse_command("foo=5"), Command::WrongMode);
    assert_eq!(parse_command("=5"), Command::WrongMode);
    assert_eq!(parse_command("="), Command::WrongMode);
    assert_eq!(parse_command("starts=5"), Command::WrongMode);
    assert_eq!(parse_command("sta rt=5"), Command::WrongMode);
    assert_eq!(parse_command("5=start"), Command::WrongMode);
}

#[test]
fn modes_are_case_sensitive() {
    assert_eq!(parse_command("Start=5"), Command::WrongMode);
    assert_eq!(parse_command("END=5"), Command::WrongMode);
}

#[test]
fn anything_else_is_ignored() {
    assert_eq!(parse_command(""), Command::Ignored);
    assert_eq!(parse_command("\n"), Command::Ignored);
    assert_eq!(parse_command("hello"), Command::Ignored);
    assert_eq!(parse_command("10.20"), Command::Ignored);
    assert_eq!(parse_command("start 5"), Command::Ignored);
    assert_eq!(parse_command("10 . . 20"), Command::Ignored);
}

#[test]
fn trim_if_some_trims_both_halves() {
    assert_eq!(trim_if_some(Some(("  a ", "\tb\n"))), Some(("a", "b")));
    assert_eq!(trim_if_some(Some(("a b", " c  d "))), Some(("a b", "c  d")));
    assert_eq!(trim_if_some(Some(("", "   "))), Some(("", "")));
    assert_eq!(trim_if_some(Some(("\u{1680}x\u{205f}", "\u{2028}y\u{2029}"))), Some(("x", "y")));
}

#[test]
fn trim_if_some_keeps_what_is_no_whitespace() {
    assert_eq!(trim_if_some(Some(("\u{200b}a", "b\u{feff}"))), Some(("\u{200b}a", "b\u{feff}")));
    assert_eq!(trim_if_some(Some(("\u{180e}a", "_b_"))), Some(("\u{180e}a", "_b_")));
}

#[test]
fn trim_if_some_passes_none_on() {
    assert_eq!(trim_if_some(None), None);
}
