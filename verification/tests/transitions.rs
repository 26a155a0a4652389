//! The transition table, row by row.

use csv_checker::state::{COMMA, CR, LF, QUOTE};
use csv_checker::{CSVState, ErrorType};

const OTHER: u8 = b'x';

#[test]
fn control_bytes_have_their_ascii_values() {
    assert_eq!(LF, b'\n');
    assert_eq!(CR, b'\r');
    assert_eq!(QUOTE, b'"');
    assert_eq!(COMMA, b',');
}

#[test]
fn start_row() {
    let state = CSVState::Start;
    assert_eq!(state.parse_byte(QUOTE), Ok(CSVState::QuotedValue));
    assert_eq!(state.parse_byte(COMMA), Ok(CSVState::Start));
    assert_eq!(state.parse_byte(OTHER), Ok(CSVState::NonQuotedValue));
    assert_eq!(state.parse_byte(LF), Ok(CSVState::NonQuotedValue));
    assert_eq!(state.parse_byte(CR), Ok(CSVState::NonQuotedValue));
}

#[test]
fn non_quoted_value_row() {
    let state = CSVState::NonQuotedValue;
    assert_eq!(state.parse_byte(COMMA), Ok(CSVState::Start));
    assert_eq!(state.parse_byte(LF), Ok(CSVState::Start));
    assert_eq!(state.parse_byte(CR), Ok(CSVState::ExpectLineFeed));
    assert_eq!(state.parse_byte(QUOTE), Ok(CSVState::NonQuotedQuote));
    assert_eq!(state.parse_byte(OTHER), Ok(CSVState::NonQuotedValue));
}

#[test]
fn non_quoted_quote_row() {
    let state = CSVState::NonQuotedQuote;
    assert_eq!(state.parse_byte(QUOTE), Ok(CSVState::NonQuotedValue));
    assert_eq!(state.parse_byte(COMMA), Err(ErrorType::UnexpectedEndOfField));
    assert_eq!(state.parse_byte(CR), Err(ErrorType::UnexpectedEndOfLine));
    assert_eq!(state.parse_byte(LF), Err(ErrorType::UnexpectedEndOfLine));
    assert_eq!(state.parse_byte(OTHER), Ok(CSVState::NonQuotedQuote));
}

#[test]
fn quoted_value_row() {
    let state = CSVState::QuotedValue;
    assert_eq!(state.parse_byte(QUOTE), Ok(CSVState::QuoteQuote));
    assert_eq!(state.parse_byte(CR), Err(ErrorType::UnexpectedEndOfLine));
    assert_eq!(state.parse_byte(LF), Err(ErrorType::UnexpectedEndOfLine));
    assert_eq!(state.parse_byte(COMMA), Ok(CSVState::QuotedValue));
    assert_eq!(state.parse_byte(OTHER), Ok(CSVState::QuotedValue));
}

#[test]
fn quote_quote_row() {
    let state = CSVState::QuoteQuote;
    assert_eq!(state.parse_byte(QUOTE), Ok(CSVState::QuotedValue));
    assert_eq!(state.parse_byte(COMMA), Ok(CSVState::Start));
    assert_eq!(state.parse_byte(LF), Ok(CSVState::Start));
    assert_eq!(state.parse_byte(CR), Ok(CSVState::ExpectLineFeed));
    assert_eq!(state.parse_byte(OTHER), Err(ErrorType::UnexpectedCharacterAfterQuote));
}

#[test]
fn expect_line_feed_row() {
    let state = CSVState::ExpectLineFeed;
    assert_eq!(state.parse_byte(LF), Ok(CSVState::Start));
    assert_eq!(state.parse_byte(CR), Err(ErrorType::ExpectedLineFeedAfterCarriageReturn));
    assert_eq!(state.parse_byte(COMMA), Err(ErrorType::ExpectedLineFeedAfterCarriageReturn));
    assert_eq!(state.parse_byte(QUOTE), Err(ErrorType::ExpectedLineFeedAfterCarriageReturn));
    assert_eq!(state.parse_byte(OTHER), Err(ErrorType::ExpectedLineFeedAfterCarriageReturn));
}

#[test]
fn error_row() {
    let state = CSVState::Error;
    assert_eq!(state.parse_byte(LF), Ok(CSVState::Start));
    assert_eq!(state.parse_byte(CR), Ok(CSVState::Error));
    assert_eq!(state.parse_byte(COMMA), Ok(CSVState::Error));
    assert_eq!(state.parse_byte(QUOTE), Ok(CSVState::Error));
    assert_eq!(state.parse_byte(OTHER), Ok(CSVState::Error));
}

#[test]
fn every_other_byte_is_field_content() {
    for byte in 0..=255u8 {
        if byte == LF || byte == CR || byte == QUOTE || byte == COMMA {
            continue;
        }
        assert_eq!(CSVState::Start.parse_byte(byte), Ok(CSVState::NonQuotedValue));
        assert_eq!(CSVState::NonQuotedValue.parse_byte(byte), Ok(CSVState::NonQuotedValue));
        assert_eq!(CSVState::NonQuotedQuote.parse_byte(byte), Ok(CSVState::NonQuotedQuote));
        assert_eq!(CSVState::QuotedValue.parse_byte(byte), Ok(CSVState::QuotedValue));
        assert_eq!(
            CSVState::QuoteQuote.parse_byte(byte),
            Err(ErrorType::UnexpectedCharacterAfterQuote)
        );
        assert_eq!(
            CSVState::ExpectLineFeed.parse_byte(byte),
            Err(ErrorType::ExpectedLineFeedAfterCarriageReturn)
        );
        assert_eq!(CSVState::Error.parse_byte(byte), Ok(CSVState::Error));
    }
}

#[test]
fn early_line_break_resumes_at_start() {
    assert_eq!(ErrorType::UnexpectedEndOfLine.resume(), CSVState::Start);
}

#[test]
fn other_errors_skip_to_the_next_line() {
    assert_eq!(ErrorType::UnexpectedEndOfField.resume(), CSVState::Error);
    assert_eq!(ErrorType::UnexpectedCharacterAfterQuote.resume(), CSVState::Error);
    assert_eq!(ErrorType::ExpectedLineFeedAfterCarriageReturn.resume(), CSVState::Error);
}

#[test]
fn each_kind_has_its_message() {
    assert_eq!(ErrorType::UnexpectedEndOfField.message(), "Unexpected end of field");
    assert_eq!(ErrorType::UnexpectedEndOfLine.message(), "Unexpected end of line");
    assert_eq!(
        ErrorType::UnexpectedCharacterAfterQuote.message(),
        "Unexpected character after quote"
    );
    assert_eq!(
        ErrorType::ExpectedLineFeedAfterCarriageReturn.message(),
        "Expected line feed after carriage return"
    );
}
