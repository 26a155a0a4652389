//! The finite-state machine: its states and its transition table.

use crate::error::ErrorType;
use vstd::prelude::*;

verus! {

/// The line feed byte.
pub const LF: u8 = 0x0A;

/// The carriage return byte.
pub const CR: u8 = 0x0D;

/// The double quote byte.
pub const QUOTE: u8 = 0x22;

/// The comma byte.
pub const COMMA: u8 = 0x2C;

/// The states of the machine.
#[derive(Debug, Clone, Copy, PartialEq, Eq, Structural)]
pub enum CSVState {
    /// At the start of a field.
    Start,
    /// Inside an unquoted field, with no quote open.
    NonQuotedValue,
    /// Inside an unquoted field, after a quote that has not been closed.
    NonQuotedQuote,
    /// Inside a quoted field.
    QuotedValue,
    /// After a quote inside a quoted field: either the first half of an
    /// escaped quote or the end of the field.
    QuoteQuote,
    /// After a carriage return that must be followed by a line feed.
    ExpectLineFeed,
    /// After an error: everything up to the next line feed is skipped.
    Error,
}

impl CSVState {
    /// The transition table: the state that follows `self` on `byte`, or the
    /// reason for which `byte` is rejected in `self`.
    pub open spec fn transition(self, byte: u8) -> Result<CSVState, ErrorType> {
        match self {
            CSVState::Start => {
                if byte == QUOTE {
                    Ok(CSVState::QuotedValue)
                } else if byte == COMMA {
                    Ok(CSVState::Start)
                } else {
                    Ok(CSVState::NonQuotedValue)
                }
            },
            CSVState::NonQuotedValue => {
                if byte == COMMA || byte == LF {
                    Ok(CSVState::Start)
                } else if byte == CR {
                    Ok(CSVState::ExpectLineFeed)
                } else if byte == QUOTE {
                    Ok(CSVState::NonQuotedQuote)
                } else {
                    Ok(CSVState::NonQuotedValue)
                }
            },
            CSVState::NonQuotedQuote => {
                if byte == QUOTE {
                    Ok(CSVState::NonQuotedValue)
                } else if byte == COMMA {
                    Err(ErrorType::UnexpectedEndOfField)
                } else if byte == CR || byte == LF {
                    Err(ErrorType::UnexpectedEndOfLine)
                } else {
                    Ok(CSVState::NonQuotedQuote)
                }
            },
            CSVState::QuotedValue => {
                if byte == QUOTE {
                    Ok(CSVState::QuoteQuote)
                } else if byte == CR || byte == LF {
                    Err(ErrorType::UnexpectedEndOfLine)
                } else {
                    Ok(CSVState::QuotedValue)
                }
            },
            CSVState::QuoteQuote => {
                if byte == QUOTE {
                    Ok(CSVState::QuotedValue)
                } else if byte == COMMA || byte == LF {
                    Ok(CSVState::Start)
                } else if byte == CR {
                    Ok(CSVState::ExpectLineFeed)
                } else {
                    Err(ErrorType::UnexpectedCharacterAfterQuote)
                }
            },
            CSVState::ExpectLineFeed => {
                if byte == LF {
                    Ok(CSVState::Start)
                } else {
                    Err(ErrorType::ExpectedLineFeedAfterCarriageReturn)
                }
            },
            CSVState::Error => {
                if byte == LF {
                    Ok(CSVState::Start)
                } else {
                    Ok(CSVState::Error)
                }
            },
        }
    }

    /// Whether `byte` is rejected in this state.
    pub open spec fn rejects(self, byte: u8) -> bool {
        self.transition(byte) is Err
    }

    /// The state in which the machine is after `byte`, whether `byte` was
    /// accepted or rejected.
    pub open spec fn after(self, byte: u8) -> CSVState {
        match self.transition(byte) {
            Ok(next) => next,
            Err(kind) => kind.resume_state(),
        }
    }

    /// Applies the transition table to one byte.
    pub fn parse_byte(&self, byte: u8) -> (result: Result<CSVState, ErrorType>)
        ensures
            result == self.transition(byte),
    {
        match self {
            CSVState::Start => match byte {
                QUOTE => Ok(CSVState::QuotedValue),
                COMMA => Ok(CSVState::Start),
                _ => Ok(CSVState::NonQuotedValue),
            },
            CSVState::NonQuotedValue => match byte {
                COMMA | LF => Ok(CSVState::Start),
                CR => Ok(CSVState::ExpectLineFeed),
                QUOTE => Ok(CSVState::NonQuotedQuote),
                _ => Ok(CSVState::NonQuotedValue),
            },
            CSVState::NonQuotedQuote => match byte {
                QUOTE => Ok(CSVState::NonQuotedValue),
                COMMA => Err(ErrorType::UnexpectedEndOfField),
                CR | LF => Err(ErrorType::UnexpectedEndOfLine),
                _ => Ok(CSVState::NonQuotedQuote),
            },
            CSVState::QuotedValue => match byte {
                QUOTE => Ok(CSVState::QuoteQuote),
                CR | LF => Err(ErrorType::UnexpectedEndOfLine),
                _ => Ok(CSVState::QuotedValue),
            },
            CSVState::QuoteQuote => match byte {
                QUOTE => Ok(CSVState::QuotedValue),
                COMMA | LF => Ok(CSVState::Start),
                CR => Ok(CSVState::ExpectLineFeed),
                _ => Err(ErrorType::UnexpectedCharacterAfterQuote),
            },
            CSVState::ExpectLineFeed => match byte {
                LF => Ok(CSVState::Start),
                _ => Err(ErrorType::ExpectedLineFeedAfterCarriageReturn),
            },
            CSVState::Error => match byte {
                LF => Ok(CSVState::Start),
                _ => Ok(CSVState::Error),
            },
        }
    }
}

} // verus!
