//! The position tracker, the scanner and the lazy report, step by step.

use csv_checker::{csv_report, CSVError, CSVState, ErrorType, Position, Scanner};

#[test]
fn position_starts_at_line_one_column_zero() {
    let position = Position::start();
    assert_eq!(position.line_number(), 1);
    assert_eq!(position.col, 0);
    assert!(position.can_advance());
}

#[test]
fn position_moves_right_on_ordinary_bytes() {
    let mut position = Position::start();
    position.advance(b'a');
    position.advance(b',');
    position.advance(b'\r');
    position.advance(b'"');
    assert_eq!(position, Position { line_feeds: 0, col: 4 });
}

#[test]
fn position_starts_a_new_line_on_line_feed() {
    let mut position = Position { line_feeds: 6, col: 41 };
    position.advance(b'\n');
    assert_eq!(position, Position { line_feeds: 7, col: 0 });
    position.advance(b'\n');
    assert_eq!(position, Position { line_feeds: 8, col: 0 });
    position.advance(b'x');
    assert_eq!(position, Position { line_feeds: 8, col: 1 });
}

#[test]
fn line_number_is_one_more_than_the_line_feeds() {
    let mut position = Position::start();
    for byte in b"a\nbc\n\nd" {
        position.advance(*byte);
    }
    assert_eq!(position.line_feeds, 3);
    assert_eq!(position.line_number(), 4);
    assert_eq!(position.col, 1);
    assert_eq!(Position { line_feeds: u64::MAX - 1, col: 0 }.line_number(), u64::MAX);
}

#[test]
fn position_without_room_cannot_advance() {
    assert!(Position { line_feeds: u64::MAX - 1, col: u64::MAX - 1 }.can_advance());
    assert!(!Position { line_feeds: u64::MAX, col: 0 }.can_advance());
    assert!(!Position { line_feeds: 0, col: u64::MAX }.can_advance());
}

#[test]
fn new_scanner_is_at_the_start() {
    let scanner = Scanner::new();
    assert_eq!(scanner.state, CSVState::Start);
    assert_eq!(scanner.position, Position { line_feeds: 0, col: 0 });
}

#[test]
fn feed_reports_the_place_before_the_byte() {
    let mut scanner = Scanner { state: CSVState::QuoteQuote, position: Position { line_feeds: 4, col: 9 } };
    assert_eq!(
        scanner.feed(b'x'),
        Some(CSVError { line: 5, col: 9, error_type: ErrorType::UnexpectedCharacterAfterQuote })
    );
    assert_eq!(scanner.state, CSVState::Error);
    assert_eq!(scanner.position, Position { line_feeds: 4, col: 10 });
}

#[test]
fn feed_advances_past_a_rejected_line_feed() {
    let mut scanner = Scanner { state: CSVState::QuotedValue, position: Position { line_feeds: 0, col: 3 } };
    assert_eq!(
        scanner.feed(b'\n'),
        Some(CSVError { line: 1, col: 3, error_type: ErrorType::UnexpectedEndOfLine })
    );
    assert_eq!(scanner.state, CSVState::Start);
    assert_eq!(scanner.position, Position { line_feeds: 1, col: 0 });
}

#[test]
fn feed_accepts_silently() {
    let mut scanner = Scanner::new();
    assert_eq!(scanner.feed(b'"'), None);
    assert_eq!(scanner.state, CSVState::QuotedValue);
    assert_eq!(scanner.feed(b','), None);
    assert_eq!(scanner.state, CSVState::QuotedValue);
    assert_eq!(scanner.feed(b'"'), None);
    assert_eq!(scanner.state, CSVState::QuoteQuote);
    assert_eq!(scanner.feed(b'\r'), None);
    assert_eq!(scanner.state, CSVState::ExpectLineFeed);
    assert_eq!(scanner.feed(b'\n'), None);
    assert_eq!(scanner.state, CSVState::Start);
    assert_eq!(scanner.position, Position { line_feeds: 1, col: 0 });
}

#[test]
fn skipping_ends_at_the_line_feed() {
    let mut scanner = Scanner { state: CSVState::Error, position: Position::start() };
    for byte in b"\"x\"y\r\r,\"" {
        assert_eq!(scanner.feed(*byte), None);
        assert_eq!(scanner.state, CSVState::Error);
    }
    assert_eq!(scanner.feed(b'\n'), None);
    assert_eq!(scanner.state, CSVState::Start);
}

#[test]
fn report_reads_no_further_than_the_error() {
    let input = b"ab,\"c\"d,e\n\"f\ng\n";
    let mut report = csv_report(input);
    assert_eq!(report.offset(), 0);
    assert_eq!(
        report.next(),
        Some(CSVError { line: 1, col: 6, error_type: ErrorType::UnexpectedCharacterAfterQuote })
    );
    assert_eq!(report.offset(), 7);
    assert_eq!(
        report.next(),
        Some(CSVError { line: 2, col: 2, error_type: ErrorType::UnexpectedEndOfLine })
    );
    assert_eq!(report.offset(), 13);
    assert_eq!(report.next(), None);
    assert_eq!(report.offset(), input.len());
    assert_eq!(report.next(), None);
    assert_eq!(report.offset(), input.len());
}

#[test]
fn collect_hands_out_what_is_left() {
    let input = b"\"a\"x\n\"b\"y\n\"c\"z\n";
    let mut report = csv_report(input);
    assert_eq!(
        report.next(),
        Some(CSVError { line: 1, col: 3, error_type: ErrorType::UnexpectedCharacterAfterQuote })
    );
    assert_eq!(
        report.collect(),
        vec![
            CSVError { line: 2, col: 3, error_type: ErrorType::UnexpectedCharacterAfterQuote },
            CSVError { line: 3, col: 3, error_type: ErrorType::UnexpectedCharacterAfterQuote },
        ]
    );
}

#[test]
fn collect_after_the_end_is_empty() {
    let mut report = csv_report(b"a\rb\n");
    assert!(report.next().is_some());
    assert_eq!(report.next(), None);
    assert_eq!(report.collect(), vec![]);
}

#[test]
fn error_carries_the_message_of_its_kind() {
    let error = CSVError { line: 3, col: 7, error_type: ErrorType::UnexpectedCharacterAfterQuote };
    assert_eq!(error.message(), "Unexpected character after quote");
    assert_eq!(error.message(), error.error_type.message());
}
