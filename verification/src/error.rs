//! The reasons for which a byte is rejected.

use crate::state::CSVState;
use vstd::prelude::*;

verus! {

/// Why a byte was rejected.
#[derive(Debug, Clone, Copy, PartialEq, Eq, Structural)]
pub enum ErrorType {
    /// A comma ended an unquoted field in which a quote was still open.
    UnexpectedEndOfField,
    /// A line break came while a quote was still open.
    UnexpectedEndOfLine,
    /// The closing quote of a quoted field was followed by something other
    /// than a quote, a comma or a line break.
    UnexpectedCharacterAfterQuote,
    /// A carriage return was followed by something other than a line feed.
    ExpectedLineFeedAfterCarriageReturn,
}

impl ErrorType {
    /// The state in which scanning goes on after an error of this kind.
    ///
    /// A line break that came too early has already ended the line, so the
    /// machine starts afresh. Every other error leaves the rest of the line
    /// unread: the machine skips to the next line feed.
    pub open spec fn resume_state(self) -> CSVState {
        match self {
            ErrorType::UnexpectedEndOfLine => CSVState::Start,
            _ => CSVState::Error,
        }
    }

    /// The state in which scanning goes on after an error of this kind.
    #[verifier::when_used_as_spec(resume_state)]
    pub fn resume(self) -> (next: CSVState)
        ensures
            next == self.resume_state(),
    {
        match self {
            ErrorType::UnexpectedEndOfLine => CSVState::Start,
            _ => CSVState::Error,
        }
    }

    /// The text of the message, as a sequence of characters.
    pub open spec fn message_text(self) -> Seq<char> {
        match self {
            ErrorType::UnexpectedEndOfField => "Unexpected end of field"@,
            ErrorType::UnexpectedEndOfLine => "Unexpected end of line"@,
            ErrorType::UnexpectedCharacterAfterQuote => "Unexpected character after quote"@,
            ErrorType::ExpectedLineFeedAfterCarriageReturn => "Expected line feed after carriage return"@,
        }
    }

    /// The fixed, human-readable message of this kind of error.
    pub fn message(&self) -> (text: &'static str)
        ensures
            text@ == self.message_text(),
    {
        match self {
            ErrorType::UnexpectedEndOfField => "Unexpected end of field",
            ErrorType::UnexpectedEndOfLine => "Unexpected end of line",
            ErrorType::UnexpectedCharacterAfterQuote => "Unexpected character after quote",
            ErrorType::ExpectedLineFeedAfterCarriageReturn => "Expected line feed after carriage return",
        }
    }
}

/// One violation of the quoting rules: where it was found and why.
///
/// `line` is counted from one and `col` from zero; both are those of the byte
/// that was rejected.
#[derive(Debug, Clone, Copy, PartialEq, Eq, Structural)]
pub struct CSVError {
    pub line: u64,
    pub col: u64,
    pub error_type: ErrorType,
}

/// The mathematical value of a `CSVError`: the same record with unbounded
/// line and column.
pub struct ErrorRecord {
    pub line: nat,
    pub col: nat,
    pub error_type: ErrorType,
}

impl View for CSVError {
    type V = ErrorRecord;

    open spec fn view(&self) -> ErrorRecord {
        ErrorRecord { line: self.line as nat, col: self.col as nat, error_type: self.error_type }
    }
}

impl CSVError {
    /// The fixed, human-readable message of this error's kind.
    pub fn message(&self) -> (text: &'static str)
        ensures
            text@ == self.error_type.message_text(),
    {
        self.error_type.message()
    }
}

} // verus!
