//! The scanner: the machine together with the place it has reached.

use crate::error::{CSVError, ErrorRecord};
use crate::model::{col_at, line_at, record_at, rejected_at, state_at};
use crate::position::{col_after, line_after, Position};
use crate::state::CSVState;
use vstd::prelude::*;

verus! {

/// A scan in progress: the state of the machine and the place of the next
/// byte.
///
/// Feeding the bytes of an input to a new scanner, one by one and in order,
/// yields the errors of that input in the order of the input.
#[derive(Debug, Clone, Copy, PartialEq, Eq, Structural)]
pub struct Scanner {
    pub state: CSVState,
    pub position: Position,
}

impl Scanner {
    /// What feeding `byte` reports: nothing where the machine accepts it, and
    /// where it rejects it, the present place with the reason.
    pub open spec fn report(self, byte: u8) -> Option<ErrorRecord> {
        match self.state.transition(byte) {
            Ok(_) => None,
            Err(kind) => Some(
                ErrorRecord {
                    line: self.position.line(),
                    col: self.position.column(),
                    error_type: kind,
                },
            ),
        }
    }

    /// Whether this scanner is where a scan of `bytes` stands once the first
    /// `i` bytes have been fed to it.
    pub open spec fn reached(self, bytes: Seq<u8>, i: int) -> bool {
        &&& self.state == state_at(bytes, i)
        &&& self.position.line() == line_at(bytes, i)
        &&& self.position.column() == col_at(bytes, i)
    }

    /// A scanner at the start of an input.
    pub fn new() -> (scanner: Scanner)
        ensures
            scanner.state == CSVState::Start,
            scanner.position.line() == 1,
            scanner.position.column() == 0,
    {
        Scanner { state: CSVState::Start, position: Position::start() }
    }

    /// Consumes one byte.
    ///
    /// The place is read before the byte is applied, so an error carries the
    /// place of the byte that caused it. After an error the machine goes on in
    /// the state that the kind of error asks for. The place moves past the
    /// byte whether it was accepted or not.
    pub fn feed(&mut self, byte: u8) -> (found: Option<CSVError>)
        requires
            old(self).position.has_room(),
        ensures
            final(self).state == old(self).state.after(byte),
            final(self).position.line() == line_after(old(self).position.line(), byte),
            final(self).position.column() == col_after(old(self).position.column(), byte),
            found is Some <==> old(self).state.rejects(byte),
            found matches Some(error) ==> old(self).report(byte) == Some(error@),
    {
        let found = match self.state.parse_byte(byte) {
            Ok(next) => {
                self.state = next;
                None
            },
            Err(kind) => {
                self.state = kind.resume();
                Some(
                    CSVError {
                        line: self.position.line_number(),
                        col: self.position.col,
                        error_type: kind,
                    },
                )
            },
        };
        self.position.advance(byte);
        found
    }
}

/// Feeding an input byte by byte follows the input: a scanner that has
/// reached index `i` reports the byte at `i` exactly where that byte is
/// rejected, with its record, and is then where index `i + 1` is reached.
///
/// A new scanner has reached index zero of every input, so the errors that
/// `feed` returns for the bytes of an input, taken in order, are the errors of
/// that input.
pub proof fn lemma_feed_follows_input(scanner: Scanner, bytes: Seq<u8>, i: int)
    requires
        0 <= i < bytes.len(),
        scanner.reached(bytes, i),
    ensures
        rejected_at(bytes, i) ==> scanner.report(bytes[i]) == Some(record_at(bytes, i)),
        !rejected_at(bytes, i) ==> scanner.report(bytes[i]) is None,
        scanner.state.after(bytes[i]) == state_at(bytes, i + 1),
        line_after(scanner.position.line(), bytes[i]) == line_at(bytes, i + 1),
        col_after(scanner.position.column(), bytes[i]) == col_at(bytes, i + 1),
{
}

} // verus!
