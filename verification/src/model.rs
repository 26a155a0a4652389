//! What a scan reports, stated over the whole input.
//!
//! The functions of this module say, for an input and an index into it, in
//! which state the machine reaches the byte at that index, where that byte
//! stands, and whether it is rejected. The errors of an input are the records
//! of its rejected bytes, in the order of the input.

use crate::error::ErrorRecord;
use crate::position::{col_after, line_after};
use crate::state::CSVState;
use vstd::prelude::*;

verus! {

/// The state in which the machine reaches the byte at index `i`, having
/// started at the beginning of `bytes`.
pub open spec fn state_at(bytes: Seq<u8>, i: int) -> CSVState
    decreases i,
{
    if i <= 0 {
        CSVState::Start
    } else {
        state_at(bytes, i - 1).after(bytes[i - 1])
    }
}

/// The line of the byte at index `i`: one more than the number of line feeds
/// before it.
pub open spec fn line_at(bytes: Seq<u8>, i: int) -> nat
    decreases i,
{
    if i <= 0 {
        1
    } else {
        line_after(line_at(bytes, i - 1), bytes[i - 1])
    }
}

/// The column of the byte at index `i`: the number of bytes between it and
/// the last line feed before it, or the start of the input.
pub open spec fn col_at(bytes: Seq<u8>, i: int) -> nat
    decreases i,
{
    if i <= 0 {
        0
    } else {
        col_after(col_at(bytes, i - 1), bytes[i - 1])
    }
}

/// Whether the byte at index `i` is rejected.
pub open spec fn rejected_at(bytes: Seq<u8>, i: int) -> bool {
    state_at(bytes, i).rejects(bytes[i])
}

/// The record of the byte at index `i`, where that byte is rejected.
pub open spec fn record_at(bytes: Seq<u8>, i: int) -> ErrorRecord {
    ErrorRecord {
        line: line_at(bytes, i),
        col: col_at(bytes, i),
        error_type: state_at(bytes, i).transition(bytes[i])->Err_0,
    }
}

/// The indices below `n` of the rejected bytes, in rising order.
pub open spec fn rejections_upto(bytes: Seq<u8>, n: int) -> Seq<int>
    decreases n,
{
    if n <= 0 {
        Seq::empty()
    } else if rejected_at(bytes, n - 1) {
        rejections_upto(bytes, n - 1).push(n - 1)
    } else {
        rejections_upto(bytes, n - 1)
    }
}

/// The indices of all rejected bytes of `bytes`, in rising order.
pub open spec fn rejections(bytes: Seq<u8>) -> Seq<int> {
    rejections_upto(bytes, bytes.len() as int)
}

/// The errors of `bytes`: one record for each rejected byte, in the order of
/// the input.
pub open spec fn errors_of(bytes: Seq<u8>) -> Seq<ErrorRecord> {
    rejections(bytes).map_values(|i: int| record_at(bytes, i))
}

/// The byte at index `i` stands on a line between one and `i + 1`, and the
/// line feeds before it and the bytes since the last of them are among the
/// `i` bytes before it.
pub proof fn lemma_place_bounded(bytes: Seq<u8>, i: int)
    requires
        0 <= i,
    ensures
        1 <= line_at(bytes, i),
        line_at(bytes, i) + col_at(bytes, i) <= i + 1,
    decreases i,
{
    if i > 0 {
        lemma_place_bounded(bytes, i - 1);
    }
}

/// Every index in `rejections_upto(bytes, n)` is below `n` and is that of a
/// rejected byte, and the indices rise strictly.
pub proof fn lemma_rejections_sound(bytes: Seq<u8>, n: int)
    ensures
        rejections_upto(bytes, n).len() <= if n <= 0 { 0 } else { n },
        forall|k: int|
            0 <= k < rejections_upto(bytes, n).len() ==> {
                &&& 0 <= #[trigger] rejections_upto(bytes, n)[k] < n
                &&& rejected_at(bytes, rejections_upto(bytes, n)[k])
            },
        forall|k: int, m: int|
            0 <= k < m < rejections_upto(bytes, n).len() ==> rejections_upto(bytes, n)[k]
                < rejections_upto(bytes, n)[m],
    decreases n,
{
    if n > 0 {
        lemma_rejections_sound(bytes, n - 1);
    }
}

/// Every rejected byte below `n` has its index in `rejections_upto(bytes, n)`.
pub proof fn lemma_rejections_complete(bytes: Seq<u8>, n: int, i: int)
    requires
        0 <= i < n,
        rejected_at(bytes, i),
    ensures
        rejections_upto(bytes, n).contains(i),
    decreases n,
{
    if i == n - 1 {
        assert(rejections_upto(bytes, n).last() == i);
    } else {
        lemma_rejections_complete(bytes, n - 1, i);
        let before = rejections_upto(bytes, n - 1);
        let k = choose|k: int| 0 <= k < before.len() && before[k] == i;
        assert(rejections_upto(bytes, n)[k] == i);
    }
}

/// The rejections below `n` are the first of the rejections below any `m`
/// from `n` on.
pub proof fn lemma_rejections_prefix(bytes: Seq<u8>, n: int, m: int)
    requires
        n <= m,
    ensures
        rejections_upto(bytes, n).len() <= rejections_upto(bytes, m).len(),
        rejections_upto(bytes, n) == rejections_upto(bytes, m).take(
            rejections_upto(bytes, n).len() as int,
        ),
    decreases m - n,
{
    if n < m {
        lemma_rejections_prefix(bytes, n, m - 1);
        if m <= 0 {
            assert(rejections_upto(bytes, n) =~= rejections_upto(bytes, m));
        }
    }
}

} // verus!
