use battery_pipe::threshold::{set_thresholds, threshold_text, Complaint, Dispatch};

#[test]
fn both_sides_valid() {
    assert_eq!(
        set_thresholds(Some("10"), Some("20")),
        Dispatch { start: Some(10), end: Some(20), complaint: None }
    );
}

#[test]
fn one_side_only() {
    assert_eq!(
        set_thresholds(Some("5"), None),
        Dispatch { start: Some(5), end: None, complaint: None }
    );
    assert_eq!(
        set_thresholds(None, Some("5")),
        Dispatch { start: None, end: Some(5), complaint: None }
    );
}

#[test]
fn neither_side_provided() {
    assert_eq!(
        set_thresholds(None, None),
        Dispatch { start: None, end: None, complaint: Some(Complaint::NeitherProvided) }
    );
}

#[test]
fn only_side_is_no_number() {
    assert_eq!(
        set_thresholds(Some("abc"), None),
        Dispatch { start: None, end: None, complaint: Some(Complaint::NeitherParsable) }
    );
    assert_eq!(
        set_thresholds(None, Some("")),
        Dispatch { start: None, end: None, complaint: Some(Complaint::NeitherParsable) }
    );
}

#[test]
fn both_sides_are_no_numbers() {
    assert_eq!(
        set_thresholds(Some("x"), Some("300")),
        Dispatch { start: None, end: None, complaint: Some(Complaint::NeitherParsable) }
    );
}

#[test]
fn a_bad_side_does_not_block_the_other() {
    assert_eq!(
        set_thresholds(Some("256"), Some("10")),
        Dispatch { start: None, end: Some(10), complaint: None }
    );
    assert_eq!(
        set_thresholds(Some("10"), Some("-1")),
        Dispatch { start: Some(10), end: None, complaint: None }
    );
}

#[test]
fn the_whole_byte_range_is_accepted() {
    for value in 0..=255u8 {
        let text = value.to_string();
        assert_eq!(set_thresholds(Some(&text), None).start, Some(value));
        assert_eq!(set_thresholds(None, Some(&text)).end, Some(value));
    }
}

#[test]
fn values_above_the_byte_range_are_skipped() {
    for text in ["256", "300", "1000", "99999999999999999999999"] {
        assert_eq!(set_thresholds(Some(text), None).start, None, "{}", text);
    }
}

#[test]
fn plus_sign_and_leading_zeros_are_accepted() {
    assert_eq!(set_thresholds(Some("+5"), None).start, Some(5));
    assert_eq!(set_thresholds(Some("007"), None).start, Some(7));
    assert_eq!(set_thresholds(Some("0000000255"), None).start, Some(255));
    assert_eq!(set_thresholds(Some("+000"), None).start, Some(0));
}

#[test]
fn anything_but_digits_is_skipped() {
    for text in ["", "+", "-", "-0", "-5", "++5", "5+", " 5", "5 ", "5.0", "0x10", "1_0", "\u{663}", "\u{ff15}"] {
        assert_eq!(set_thresholds(Some(text), None).start, None, "{:?}", text);
    }
}

#[test]
fn agrees_with_parsing_a_byte() {
    for text in ["0", "9", "10", "99", "100", "255", "256", "+255", "+256", "0256", "a", ""] {
        assert_eq!(set_thresholds(None, Some(text)).end, text.parse::<u8>().ok(), "{:?}", text);
    }
}

#[test]
fn text_is_the_decimal_form() {
    assert_eq!(threshold_text(0), "0");
    assert_eq!(threshold_text(9), "9");
    assert_eq!(threshold_text(10), "10");
    assert_eq!(threshold_text(80), "80");
    assert_eq!(threshold_text(99), "99");
    assert_eq!(threshold_text(100), "100");
    assert_eq!(threshold_text(255), "255");
}

#[test]
fn text_agrees_with_the_standard_form() {
    for value in 0..=255u8 {
        assert_eq!(threshold_text(value), value.to_string());
    }
}

#[test]
fn text_is_read_back_as_the_value() {
    for value in 0..=255u8 {
        let text = threshold_text(value);
        assert_eq!(set_thresholds(Some(&text), Some(&text)).start, Some(value));
    }
}
