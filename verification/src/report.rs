//! The errors of an input, handed out one at a time.

use crate::error::{CSVError, ErrorRecord};
use crate::model::{
    errors_of, lemma_place_bounded, lemma_rejections_prefix, record_at, rejections,
    rejections_upto,
};
use crate::scanner::{lemma_feed_follows_input, Scanner};
use vstd::prelude::*;

verus! {

/// The values of a sequence of errors.
pub open spec fn records(errors: Seq<CSVError>) -> Seq<ErrorRecord> {
    errors.map_values(|error: CSVError| error@)
}

/// A scan of an input held in memory, which reads only as far as it is asked
/// to.
///
/// Each call of `next` reads on to the next rejected byte and returns its
/// error, or reads to the end of the input and returns `None`.
pub struct Report<'a> {
    bytes: &'a [u8],
    offset: usize,
    scanner: Scanner,
}

impl<'a> Report<'a> {
    /// The scanner is where the scan of the input stands after the bytes
    /// that have been read.
    #[verifier::type_invariant]
    spec fn in_step(self) -> bool {
        &&& self.offset <= self.bytes@.len()
        &&& self.scanner.reached(self.bytes@, self.offset as int)
    }

    /// The input that is scanned.
    pub closed spec fn source(&self) -> Seq<u8> {
        self.bytes@
    }

    /// How many bytes of the input have been read.
    pub closed spec fn consumed(&self) -> nat {
        self.offset as nat
    }

    /// How many errors have been handed out: as many as there are rejected
    /// bytes among those that have been read.
    pub open spec fn yielded(&self) -> nat {
        rejections_upto(self.source(), self.consumed() as int).len()
    }

    /// The index of the rejected byte whose error is handed out next.
    pub open spec fn next_rejection(&self) -> int {
        rejections(self.source())[self.yielded() as int]
    }

    /// The errors that have not been handed out yet.
    pub open spec fn remaining(&self) -> Seq<ErrorRecord> {
        errors_of(self.source()).skip(self.yielded() as int)
    }

    /// How many bytes of the input have been read.
    pub fn offset(&self) -> (offset: usize)
        ensures
            offset == self.consumed(),
            offset <= self.source().len(),
    {
        proof {
            use_type_invariant(self);
        }
        self.offset
    }

    /// Hands out the next error of the input, or `None` when there is none
    /// left.
    ///
    /// The scan reads no further than the byte that is rejected; when it
    /// returns `None` it has read the whole input.
    pub fn next(&mut self) -> (found: Option<CSVError>)
        ensures
            final(self).source() == old(self).source(),
            found is Some <==> old(self).yielded() < errors_of(old(self).source()).len(),
            found matches Some(error) ==> error@ == old(self).remaining().first(),
            found is Some ==> final(self).yielded() == old(self).yielded() + 1,
            found is Some ==> final(self).consumed() == old(self).next_rejection() + 1,
            found is None ==> final(self).yielded() == old(self).yielded(),
            found is None ==> final(self).consumed() == old(self).source().len(),
    {
        proof {
            use_type_invariant(&*self);
        }
        let bytes = self.bytes;
        let mut offset = self.offset;
        let mut scanner = self.scanner;
        let mut found: Option<CSVError> = None;
        let ghost before = rejections_upto(bytes@, offset as int);
        while offset < bytes.len() && found.is_none()
            invariant
                offset <= bytes@.len(),
                scanner.reached(bytes@, offset as int),
                found is None ==> rejections_upto(bytes@, offset as int) == before,
                found matches Some(error) ==> {
                    &&& offset > 0
                    &&& rejections_upto(bytes@, offset as int) == before.push(offset - 1)
                    &&& error@ == record_at(bytes@, offset - 1)
                },
            decreases bytes@.len() - offset,
        {
            proof {
                lemma_place_bounded(bytes@, offset as int);
                lemma_feed_follows_input(scanner, bytes@, offset as int);
            }
            found = scanner.feed(bytes[offset]);
            offset = offset + 1;
        }
        proof {
            lemma_rejections_prefix(bytes@, offset as int, bytes@.len() as int);
            if found is Some {
                let reached = rejections_upto(bytes@, offset as int);
                assert(reached[before.len() as int] == offset - 1);
                assert(rejections(bytes@).take(reached.len() as int)[before.len() as int] == offset
                    - 1);
            }
        }
        *self = Report { bytes, offset, scanner };
        found
    }

    /// Hands out all the errors that are left, in the order of the input.
    pub fn collect(self) -> (errors: Vec<CSVError>)
        ensures
            records(errors@) == self.remaining(),
    {
        let mut report = self;
        let mut errors: Vec<CSVError> = Vec::new();
        let ghost all = errors_of(self.source());
        let ghost start = self.yielded();
        proof {
            use_type_invariant(&report);
            lemma_rejections_prefix(
                self.source(),
                self.consumed() as int,
                self.source().len() as int,
            );
            assert(records(errors@) =~= all.subrange(start as int, start as int));
        }
        loop
            invariant
                report.source() == self.source(),
                start <= report.yielded() <= all.len(),
                all == errors_of(self.source()),
                start == self.yielded(),
                records(errors@) == all.subrange(start as int, report.yielded() as int),
            ensures
                report.yielded() == all.len(),
                records(errors@) == all.subrange(start as int, all.len() as int),
            decreases all.len() - report.yielded(),
        {
            let ghost had = report.yielded();
            match report.next() {
                Some(error) => {
                    errors.push(error);
                    assert(records(errors@) =~= all.subrange(start as int, had as int).push(
                        error@,
                    ));
                },
                None => {
                    break ;
                },
            }
        }
        errors
    }
}

/// Scans `bytes` for violations of the quoting rules.
///
/// The result hands out the errors of `bytes` one at a time, in the order of
/// the input, and reads `bytes` only as far as it is asked to.
pub fn csv_report(bytes: &[u8]) -> (report: Report<'_>)
    ensures
        report.source() == bytes@,
        report.consumed() == 0,
        report.remaining() == errors_of(bytes@),
{
    Report { bytes, offset: 0, scanner: Scanner::new() }
}

} // verus!
