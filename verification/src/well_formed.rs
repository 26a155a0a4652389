//! Inputs that are well-formed, and the proof that they have no errors.

use crate::model::{errors_of, rejected_at, rejections_upto, state_at};
use crate::state::{CSVState, COMMA, CR, LF, QUOTE};
use vstd::prelude::*;

verus! {

/// How many quotes stand before index `i`.
pub open spec fn quotes_before(bytes: Seq<u8>, i: int) -> nat
    decreases i,
{
    if i <= 0 {
        0
    } else if bytes[i - 1] == QUOTE {
        quotes_before(bytes, i - 1) + 1
    } else {
        quotes_before(bytes, i - 1)
    }
}

/// Whether a quote is open at index `i`: an odd number of quotes stands
/// before it.
pub open spec fn in_quotes(bytes: Seq<u8>, i: int) -> bool {
    quotes_before(bytes, i) % 2 == 1
}

/// Whether a field begins at index `i`: at the start of the input, after a
/// comma, or after a line feed that ends a line.
///
/// A line feed ends a line where it follows a byte of that line. Where it
/// stands at the start of the input, or follows a comma or another line feed,
/// the machine takes it for the first byte of an unquoted field, and what
/// comes after it belongs to that field.
pub open spec fn at_field_start(bytes: Seq<u8>, i: int) -> bool {
    ||| i == 0
    ||| bytes[i - 1] == COMMA
    ||| (i >= 2 && bytes[i - 1] == LF && bytes[i - 2] != COMMA && bytes[i - 2] != LF)
}

/// What a well-formed input asks of the byte at index `i`.
///
/// - A line break stands outside quotes, so every quote is closed on the line
///   on which it was opened.
/// - A quote that opens begins a field, or is the second half of a doubled
///   quote inside a quoted field.
/// - A quote that closes is followed by another quote, a comma or a line
///   break, or ends the input.
/// - A carriage return is followed by a line feed, or ends the input.
pub open spec fn well_formed_at(bytes: Seq<u8>, i: int) -> bool {
    let byte = bytes[i];
    let last = i + 1 == bytes.len();
    let next = bytes[i + 1];
    &&& (byte == CR || byte == LF) ==> !in_quotes(bytes, i)
    &&& (byte == QUOTE && !in_quotes(bytes, i)) ==> {
        ||| at_field_start(bytes, i)
        ||| bytes[i - 1] == QUOTE
    }
    &&& (byte == QUOTE && in_quotes(bytes, i) && !last) ==> {
        ||| next == QUOTE
        ||| next == COMMA
        ||| next == CR
        ||| next == LF
    }
    &&& (byte == CR && !last) ==> next == LF
}

/// Whether `bytes` is well-formed: quotes are balanced on every line, a
/// field that holds a quote is enclosed in quotes from its first byte to its
/// last, with every quote inside it doubled, and a carriage return comes only
/// before a line feed.
pub open spec fn well_formed(bytes: Seq<u8>) -> bool {
    forall|i: int| 0 <= i < bytes.len() ==> #[trigger] well_formed_at(bytes, i)
}

/// The states in which the machine can reach index `i` of a well-formed
/// input, told from the quotes before `i` and the one or two bytes before it.
spec fn state_fits(bytes: Seq<u8>, i: int, state: CSVState) -> bool {
    if i <= 0 {
        state == CSVState::Start
    } else if in_quotes(bytes, i) {
        state == CSVState::QuotedValue
    } else if bytes[i - 1] == QUOTE {
        state == CSVState::QuoteQuote
    } else if bytes[i - 1] == COMMA {
        state == CSVState::Start
    } else if bytes[i - 1] == CR {
        state == CSVState::ExpectLineFeed || state == CSVState::NonQuotedValue
    } else if bytes[i - 1] == LF {
        ||| state == CSVState::Start
        ||| (state == CSVState::NonQuotedValue && !at_field_start(bytes, i))
    } else {
        state == CSVState::NonQuotedValue
    }
}

/// In a well-formed input the machine reaches every index in a state that
/// fits what stands before it.
proof fn lemma_state_fits(bytes: Seq<u8>, i: int)
    requires
        well_formed(bytes),
        0 <= i <= bytes.len(),
    ensures
        state_fits(bytes, i, state_at(bytes, i)),
    decreases i,
{
    if i > 0 {
        lemma_state_fits(bytes, i - 1);
        assert(well_formed_at(bytes, i - 1));
        if i >= 2 {
            assert(well_formed_at(bytes, i - 2));
        }
        let before = state_at(bytes, i - 1);
        let byte = bytes[i - 1];
        assert(!before.rejects(byte));
        assert(in_quotes(bytes, i) == (if byte == QUOTE {
            !in_quotes(bytes, i - 1)
        } else {
            in_quotes(bytes, i - 1)
        }));
    }
}

/// No byte of a well-formed input is rejected.
pub proof fn lemma_well_formed_accepted(bytes: Seq<u8>, i: int)
    requires
        well_formed(bytes),
        0 <= i < bytes.len(),
    ensures
        !rejected_at(bytes, i),
{
    lemma_state_fits(bytes, i);
    assert(well_formed_at(bytes, i));
    if i > 0 {
        assert(well_formed_at(bytes, i - 1));
    }
}

/// Where no byte below `n` is rejected, there are no rejections below `n`.
proof fn lemma_no_rejections(bytes: Seq<u8>, n: int)
    requires
        forall|i: int| 0 <= i < n ==> !rejected_at(bytes, i),
    ensures
        rejections_upto(bytes, n).len() == 0,
    decreases n,
{
    if n > 0 {
        lemma_no_rejections(bytes, n - 1);
    }
}

/// A well-formed input has no errors.
pub proof fn lemma_well_formed_has_no_errors(bytes: Seq<u8>)
    requires
        well_formed(bytes),
    ensures
        errors_of(bytes).len() == 0,
{
    assert forall|i: int| 0 <= i < bytes.len() implies !rejected_at(bytes, i) by {
        lemma_well_formed_accepted(bytes, i);
    }
    lemma_no_rejections(bytes, bytes.len() as int);
}

} // verus!
