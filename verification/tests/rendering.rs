use doc_ingest::coordinator::storage_path;
use doc_ingest::date::CalendarDate;
use doc_ingest::protocol::{IngestError, Stage, TextOrigin};
use doc_ingest::text::{chars_of, is_digit_char, render_decimal, render_padded, render_signed};

#[test]
fn decimal_of_zero_is_one_digit() {
    assert_eq!(render_decimal(0), "0");
}

#[test]
fn decimal_has_no_leading_zeros() {
    assert_eq!(render_decimal(7), "7");
    assert_eq!(render_decimal(10), "10");
    assert_eq!(render_decimal(300), "300");
    assert_eq!(render_decimal(18446744073709551615), "18446744073709551615");
}

#[test]
fn padded_decimal_fills_with_zeros_on_the_left() {
    assert_eq!(render_padded(5, 2), "05");
    assert_eq!(render_padded(12, 2), "12");
    assert_eq!(render_padded(0, 4), "0000");
    assert_eq!(render_padded(42, 4), "0042");
}

#[test]
fn padded_decimal_never_cuts_digits() {
    assert_eq!(render_padded(12345, 4), "12345");
    assert_eq!(render_padded(123, 0), "123");
    assert_eq!(render_padded(0, 0), "0");
}

#[test]
fn signed_decimal_puts_a_minus_before_negative_numbers() {
    assert_eq!(render_signed(0), "0");
    assert_eq!(render_signed(42), "42");
    assert_eq!(render_signed(-42), "-42");
    assert_eq!(render_signed(i32::MAX), "2147483647");
    assert_eq!(render_signed(i32::MIN), "-2147483648");
}

#[test]
fn chars_of_keeps_every_character_in_order() {
    assert_eq!(chars_of("a-1.png"), vec!['a', '-', '1', '.', 'p', 'n', 'g']);
    assert_eq!(chars_of(""), Vec::<char>::new());
    assert_eq!(chars_of("é1"), vec!['é', '1']);
}

#[test]
fn only_ascii_digits_are_digits() {
    assert!(is_digit_char('0'));
    assert!(is_digit_char('9'));
    assert!(!is_digit_char('a'));
    assert!(!is_digit_char('/'));
    assert!(!is_digit_char(':'));
    assert!(!is_digit_char('٣'));
}

#[test]
fn date_is_rendered_as_year_month_day() {
    let day = CalendarDate { year: 2024, month: 3, day: 9 };
    assert_eq!(day.iso_text(), "2024-03-09");
    let day = CalendarDate { year: 1999, month: 12, day: 31 };
    assert_eq!(day.iso_text(), "1999-12-31");
}

#[test]
fn early_years_are_padded_to_four_digits() {
    let day = CalendarDate { year: 33, month: 4, day: 1 };
    assert_eq!(day.iso_text(), "0033-04-01");
    let day = CalendarDate { year: 0, month: 1, day: 1 };
    assert_eq!(day.iso_text(), "0000-01-01");
}

#[test]
fn years_beyond_four_digits_carry_a_sign() {
    let day = CalendarDate { year: 10000, month: 1, day: 1 };
    assert_eq!(day.iso_text(), "+10000-01-01");
    let day = CalendarDate { year: -1, month: 6, day: 15 };
    assert_eq!(day.iso_text(), "-0001-06-15");
    let day = CalendarDate { year: -12345, month: 6, day: 15 };
    assert_eq!(day.iso_text(), "-12345-06-15");
}

#[test]
fn date_text_agrees_with_chrono() {
    let days = [
        (2024, 2, 29),
        (1970, 1, 1),
        (999, 10, 5),
        (1000, 1, 31),
        (9999, 12, 31),
        (10000, 1, 1),
        (0, 3, 3),
        (-1, 12, 31),
        (-9999, 7, 7),
        (262142, 12, 31),
        (-262143, 1, 1),
    ];
    for (year, month, day) in days {
        let theirs = chrono::NaiveDate::from_ymd_opt(year, month, day).unwrap();
        let ours = CalendarDate { year, month, day };
        assert_eq!(ours.iso_text(), theirs.format("%Y-%m-%d").to_string());
    }
}

#[test]
fn stored_document_lies_under_the_root_by_its_identifier() {
    assert_eq!(storage_path("/data", 42), "/data/42.pdf");
    assert_eq!(storage_path("", 1), "/1.pdf");
    assert_eq!(storage_path("archive/pdf", -3), "archive/pdf/-3.pdf");
}

#[test]
fn failures_are_named_as_in_reports() {
    assert_eq!(IngestError::Input.name(), "InputError");
    assert_eq!(IngestError::Parse.name(), "ParseError");
    assert_eq!(IngestError::Conversion.name(), "ConversionError");
    assert_eq!(IngestError::Recognition.name(), "RecognitionError");
    assert_eq!(IngestError::Persistence.name(), "PersistenceError");
    assert_eq!(IngestError::Relocation.name(), "RelocationError");
}

#[test]
fn stages_are_named_as_in_reports() {
    assert_eq!(Stage::Received.name(), "Received");
    assert_eq!(Stage::Identified.name(), "Identified");
    assert_eq!(Stage::Inspected.name(), "Inspected");
    assert_eq!(Stage::NeedsOcr.name(), "NeedsOcr");
    assert_eq!(Stage::Recognized.name(), "Recognized");
    assert_eq!(Stage::HasEmbeddedText.name(), "HasEmbeddedText");
    assert_eq!(Stage::Tagged.name(), "Tagged");
    assert_eq!(Stage::Persisted.name(), "Persisted");
    assert_eq!(Stage::Relocated.name(), "Relocated");
    assert_eq!(Stage::Abandoned.name(), "Abandoned");
}

#[test]
fn each_origin_has_its_stage() {
    assert_eq!(TextOrigin::Embedded.stage(), Stage::HasEmbeddedText);
    assert_eq!(TextOrigin::Recognized.stage(), Stage::Recognized);
}
