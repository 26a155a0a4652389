//! What holds of the errors of every input.

use crate::error::{ErrorRecord, ErrorType};
use crate::model::{
    col_at, errors_of, lemma_place_bounded, lemma_rejections_sound, line_at, rejected_at,
    rejections, state_at,
};
use crate::state::{CSVState, CR, LF};
use vstd::prelude::*;

verus! {

/// Whether `first` stands before `second` in the input: on an earlier line,
/// or on the same line in an earlier column.
pub open spec fn comes_before(first: ErrorRecord, second: ErrorRecord) -> bool {
    first.line < second.line || (first.line == second.line && first.col < second.col)
}

/// An input has at most as many errors as it has bytes.
pub proof fn lemma_error_count_bounded(bytes: Seq<u8>)
    ensures
        errors_of(bytes).len() <= bytes.len(),
{
    lemma_rejections_sound(bytes, bytes.len() as int);
}

/// Scanning the same bytes again gives the same errors: the errors depend on
/// the bytes of the input and on nothing else.
pub proof fn lemma_scan_repeatable(first: Seq<u8>, second: Seq<u8>)
    requires
        first.len() == second.len(),
        forall|i: int| 0 <= i < first.len() ==> first[i] == second[i],
    ensures
        errors_of(first) == errors_of(second),
{
    assert(first =~= second);
}

/// The first byte of an input stands on line one in column zero.
pub proof fn lemma_input_starts_at_line_one(bytes: Seq<u8>)
    ensures
        line_at(bytes, 0) == 1,
        col_at(bytes, 0) == 0,
{
}

/// The byte after a line feed stands in column zero of the next line; the
/// byte after any other byte stands one column further on the same line.
pub proof fn lemma_line_feed_starts_line(bytes: Seq<u8>, i: int)
    requires
        0 <= i < bytes.len(),
    ensures
        bytes[i] == LF ==> line_at(bytes, i + 1) == line_at(bytes, i) + 1,
        bytes[i] == LF ==> col_at(bytes, i + 1) == 0,
        bytes[i] != LF ==> line_at(bytes, i + 1) == line_at(bytes, i),
        bytes[i] != LF ==> col_at(bytes, i + 1) == col_at(bytes, i) + 1,
{
}

/// The column of a byte is its distance from the start of its line: from the
/// byte after the last line feed before it, or from the start of the input
/// where no line feed stands before it.
pub proof fn lemma_column_counts_from_line_start(bytes: Seq<u8>, start: int, i: int)
    requires
        0 <= start <= i,
        start == 0 || bytes[start - 1] == LF,
        forall|k: int| start <= k < i ==> bytes[k] != LF,
    ensures
        col_at(bytes, i) == i - start,
        line_at(bytes, i) == line_at(bytes, start),
    decreases i - start,
{
    if start < i {
        lemma_column_counts_from_line_start(bytes, start, i - 1);
    }
}

/// Of two bytes, the later one stands on a later line, or on the same line
/// further right.
proof fn lemma_places_rise(bytes: Seq<u8>, i: int, j: int)
    requires
        0 <= i < j,
    ensures
        line_at(bytes, i) <= line_at(bytes, j),
        line_at(bytes, i) == line_at(bytes, j) ==> col_at(bytes, i) < col_at(bytes, j),
    decreases j - i,
{
    if i < j - 1 {
        lemma_places_rise(bytes, i, j - 1);
    }
}

/// Every error stands on line one or later.
pub proof fn lemma_lines_start_at_one(bytes: Seq<u8>, k: int)
    requires
        0 <= k < errors_of(bytes).len(),
    ensures
        errors_of(bytes)[k].line >= 1,
{
    lemma_rejections_sound(bytes, bytes.len() as int);
    lemma_place_bounded(bytes, rejections(bytes)[k]);
}

/// The errors come in the order of the input: each stands before all that
/// follow it. So from one error to the next the line never falls, and on the
/// same line the column rises.
pub proof fn lemma_errors_in_order(bytes: Seq<u8>, k: int, m: int)
    requires
        0 <= k < m < errors_of(bytes).len(),
    ensures
        comes_before(errors_of(bytes)[k], errors_of(bytes)[m]),
        errors_of(bytes)[k].line <= errors_of(bytes)[m].line,
{
    lemma_rejections_sound(bytes, bytes.len() as int);
    lemma_places_rise(bytes, rejections(bytes)[k], rejections(bytes)[m]);
}

/// While the machine skips the rest of a line, it rejects nothing: a byte
/// that is rejected later stands behind the next line feed.
proof fn lemma_skipping_is_silent(bytes: Seq<u8>, i: int, j: int)
    requires
        0 <= i <= j,
        state_at(bytes, i) == CSVState::Error,
        rejected_at(bytes, j),
    ensures
        line_at(bytes, i) < line_at(bytes, j),
    decreases j - i,
{
    if i < j {
        if bytes[i] == LF {
            if i + 1 < j {
                lemma_places_rise(bytes, i + 1, j);
            }
        } else {
            lemma_skipping_is_silent(bytes, i + 1, j);
        }
    }
}

/// After an error, nothing more is reported before the next line feed has
/// been consumed: every later error stands on a later line.
///
/// The one exception is a carriage return that is rejected because a quote is
/// open. It is taken for the line break and the machine starts afresh at
/// once, so what stands between it and the line feed is checked like the
/// start of a line.
pub proof fn lemma_one_error_per_line(bytes: Seq<u8>, k: int, m: int)
    requires
        0 <= k < m < errors_of(bytes).len(),
        !(errors_of(bytes)[k].error_type == ErrorType::UnexpectedEndOfLine
            && bytes[rejections(bytes)[k]] == CR),
    ensures
        errors_of(bytes)[k].line < errors_of(bytes)[m].line,
{
    lemma_rejections_sound(bytes, bytes.len() as int);
    let i = rejections(bytes)[k];
    let j = rejections(bytes)[m];
    assert(rejected_at(bytes, i) && rejected_at(bytes, j) && i < j);
    if bytes[i] == LF {
        if i + 1 < j {
            lemma_places_rise(bytes, i + 1, j);
        }
    } else {
        lemma_skipping_is_silent(bytes, i + 1, j);
    }
}

} // verus!
