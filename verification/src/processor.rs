//! The worker: it decides on each record of a batch, keeps the textual form
//! of the selected ones in a buffer of its own and counts them, and hands
//! both over when the batch is done.

use crate::fixed::{clone_finders, found_in, needles_of, occurs};
use crate::predicate::{
    either_fixed_holds, either_regex_holds, primary_fixed_holds, read_regex_holds,
    secondary_fixed_holds, selects, Criteria,
};
use crate::record::{
    append_record, emitted, lemma_emitted_len, Record, RecordFormatError, RecordView,
};
use crate::regexp::{clone_regexes, matched_in, matches_in, spans_of_all};
use memchr::memmem::Finder;
use regex::bytes::Regex;
use vstd::prelude::*;

verus! {

/// Room that a fresh output buffer has.
pub const DEFAULT_BUFFER_SIZE: usize = 64 * 1024;

/// What a worker hands over at the end of a batch: the bytes to write to the
/// shared output in one piece, and the number of selections to add to the
/// shared count.
pub struct BatchOutput {
    pub bytes: Vec<u8>,
    pub matches: usize,
}

/// What becomes of one item of a batch.
pub ghost enum Outcome {
    /// The criteria do not select it.
    Skipped,
    /// They select it, and it cannot be written out.
    Refused,
    /// They select it, and these bytes are written out for it.
    Emitted(Seq<u8>),
}

/// What becomes of a single read under the criteria `c`.
pub open spec fn single_outcome(c: Criteria, record: RecordView) -> Outcome {
    if !selects(c, record.seq, Seq::<u8>::empty()) {
        Outcome::Skipped
    } else {
        match record.qual {
            Some(qual) => Outcome::Emitted(emitted(record.id, record.seq, qual)),
            None => Outcome::Refused,
        }
    }
}

/// What becomes of a pair of reads under the criteria `c`: a selected pair is
/// written out primary first.
pub open spec fn pair_outcome(c: Criteria, first: RecordView, second: RecordView) -> Outcome {
    if !selects(c, first.seq, second.seq) {
        Outcome::Skipped
    } else {
        match (first.qual, second.qual) {
            (Some(q1), Some(q2)) => Outcome::Emitted(
                emitted(first.id, first.seq, q1) + emitted(second.id, second.seq, q2),
            ),
            _ => Outcome::Refused,
        }
    }
}

/// A worker's criteria and its local state.
pub struct GrepProcessor {
    mp1: Vec<Finder<'static>>,
    mp2: Vec<Finder<'static>>,
    pat: Vec<Finder<'static>>,
    re1: Vec<Regex>,
    re2: Vec<Regex>,
    re: Vec<Regex>,
    invert: bool,
    local_buffer: Vec<u8>,
    local_counter: usize,
}

impl GrepProcessor {
    /// Each counted selection has left at least six bytes in the buffer, so
    /// the count cannot outgrow the machine's integers.
    #[verifier::type_invariant]
    spec fn counted_is_buffered(&self) -> bool {
        6 * self.local_counter <= self.local_buffer@.len()
    }

    /// The criteria that this worker decides by.
    pub closed spec fn criteria(&self) -> Criteria {
        Criteria {
            fixed_primary: needles_of(self.mp1@),
            fixed_secondary: needles_of(self.mp2@),
            fixed_either: needles_of(self.pat@),
            regex_primary: spans_of_all(self.re1@),
            regex_secondary: spans_of_all(self.re2@),
            regex_either: spans_of_all(self.re@),
            invert: self.invert,
        }
    }

    /// The bytes buffered since the last hand-over.
    pub closed spec fn buffered(&self) -> Seq<u8> {
        self.local_buffer@
    }

    /// The number of selections since the last hand-over.
    pub closed spec fn counted(&self) -> nat {
        self.local_counter as nat
    }

    /// A worker with the given compiled patterns, an empty buffer and a count
    /// of zero.
    pub fn new(
        mp1: Vec<Finder<'static>>,
        mp2: Vec<Finder<'static>>,
        pat: Vec<Finder<'static>>,
        re1: Vec<Regex>,
        re2: Vec<Regex>,
        re: Vec<Regex>,
        invert: bool,
    ) -> (worker: Self)
        ensures
            worker.criteria() == (Criteria {
                fixed_primary: needles_of(mp1@),
                fixed_secondary: needles_of(mp2@),
                fixed_either: needles_of(pat@),
                regex_primary: spans_of_all(re1@),
                regex_secondary: spans_of_all(re2@),
                regex_either: spans_of_all(re@),
                invert,
            }),
            worker.buffered() == Seq::<u8>::empty(),
            worker.counted() == 0,
    {
        Self {
            mp1,
            mp2,
            pat,
            re1,
            re2,
            re,
            invert,
            local_buffer: Vec::with_capacity(DEFAULT_BUFFER_SIZE),
            local_counter: 0,
        }
    }

    /// The check on the primary read's fixed patterns: every one of them is
    /// found in `seq`. An empty list passes, and so does an empty read.
    pub fn search_primary(&self, seq: &[u8]) -> (holds: bool)
        ensures
            holds == primary_fixed_holds(self.criteria().fixed_primary, seq@),
    {
        if self.mp1.is_empty() || seq.is_empty() {
            return true;
        }
        let ghost needles = needles_of(self.mp1@);
        let mut k: usize = 0;
        while k < self.mp1.len()
            invariant
                k <= self.mp1.len(),
                seq@.len() > 0,
                needles == needles_of(self.mp1@),
                forall|j: int| 0 <= j < k ==> occurs(seq@, #[trigger] needles[j]),
            decreases self.mp1.len() - k,
        {
            if !found_in(&self.mp1[k], seq) {
                assert(!occurs(seq@, needles[k as int]));
                return false;
            }
            k += 1;
        }
        true
    }

    /// The check on the secondary read's fixed patterns: one of them is found
    /// in `seq`. An empty list passes, and so does an empty read.
    pub fn search_secondary(&self, seq: &[u8]) -> (holds: bool)
        ensures
            holds == secondary_fixed_holds(self.criteria().fixed_secondary, seq@),
    {
        if self.mp2.is_empty() || seq.is_empty() {
            return true;
        }
        let ghost needles = needles_of(self.mp2@);
        let mut k: usize = 0;
        while k < self.mp2.len()
            invariant
                k <= self.mp2.len(),
                needles == needles_of(self.mp2@),
                forall|j: int| 0 <= j < k ==> !occurs(seq@, #[trigger] needles[j]),
            decreases self.mp2.len() - k,
        {
            if found_in(&self.mp2[k], seq) {
                assert(occurs(seq@, needles[k as int]));
                return true;
            }
            k += 1;
        }
        false
    }

    /// The check on the fixed patterns for either read: one of them is found
    /// in `r1` or in `r2`. An empty list passes.
    pub fn search_either(&self, r1: &[u8], r2: &[u8]) -> (holds: bool)
        ensures
            holds == either_fixed_holds(self.criteria().fixed_either, r1@, r2@),
    {
        if self.pat.is_empty() {
            return true;
        }
        let ghost needles = needles_of(self.pat@);
        let mut k: usize = 0;
        while k < self.pat.len()
            invariant
                k <= self.pat.len(),
                needles == needles_of(self.pat@),
                forall|j: int|
                    0 <= j < k ==> !occurs(r1@, #[trigger] needles[j])
                        && !occurs(r2@, needles[j]),
            decreases self.pat.len() - k,
        {
            if found_in(&self.pat[k], r1) || found_in(&self.pat[k], r2) {
                assert(occurs(r1@, needles[k as int]) || occurs(
                    r2@,
                    needles[k as int],
                ));
                return true;
            }
            k += 1;
        }
        false
    }

    /// The check on the primary read's expressions: one of them matches in
    /// `seq`. An empty list passes; an empty read is searched like any other.
    pub fn regex_primary(&self, seq: &[u8]) -> (holds: bool)
        ensures
            holds == read_regex_holds(self.criteria().regex_primary, seq@),
    {
        if self.re1.is_empty() {
            return true;
        }
        let ghost expressions = spans_of_all(self.re1@);
        let mut k: usize = 0;
        while k < self.re1.len()
            invariant
                k <= self.re1.len(),
                expressions == spans_of_all(self.re1@),
                forall|j: int| 0 <= j < k ==> !matches_in(#[trigger] expressions[j], seq@),
            decreases self.re1.len() - k,
        {
            if matched_in(&self.re1[k], seq) {
                assert(matches_in(expressions[k as int], seq@));
                return true;
            }
            k += 1;
        }
        false
    }

    /// The check on the secondary read's expressions: one of them matches in
    /// `seq`. An empty list passes; an empty read is searched like any other.
    pub fn regex_secondary(&self, seq: &[u8]) -> (holds: bool)
        ensures
            holds == read_regex_holds(self.criteria().regex_secondary, seq@),
    {
        if self.re2.is_empty() {
            return true;
        }
        let ghost expressions = spans_of_all(self.re2@);
        let mut k: usize = 0;
        while k < self.re2.len()
            invariant
                k <= self.re2.len(),
                expressions == spans_of_all(self.re2@),
                forall|j: int| 0 <= j < k ==> !matches_in(#[trigger] expressions[j], seq@),
            decreases self.re2.len() - k,
        {
            if matched_in(&self.re2[k], seq) {
                assert(matches_in(expressions[k as int], seq@));
                return true;
            }
            k += 1;
        }
        false
    }

    /// The check on the expressions for either read: one of them matches in
    /// `r1` or in `r2`. An empty list passes.
    pub fn regex_either(&self, r1: &[u8], r2: &[u8]) -> (holds: bool)
        ensures
            holds == either_regex_holds(self.criteria().regex_either, r1@, r2@),
    {
        if self.re.is_empty() {
            return true;
        }
        let ghost expressions = spans_of_all(self.re@);
        let mut k: usize = 0;
        while k < self.re.len()
            invariant
                k <= self.re.len(),
                expressions == spans_of_all(self.re@),
                forall|j: int|
                    0 <= j < k ==> !matches_in(#[trigger] expressions[j], r1@) && !matches_in(
                        expressions[j],
                        r2@,
                    ),
            decreases self.re.len() - k,
        {
            if matched_in(&self.re[k], r1) || matched_in(&self.re[k], r2) {
                assert(matches_in(expressions[k as int], r1@) || matches_in(expressions[k as int], r2@));
                return true;
            }
            k += 1;
        }
        false
    }

    /// The decision on a pair of reads: whether all six checks hold, turned
    /// round where the criteria are inverted.
    pub fn pattern_match(&self, primary: &[u8], secondary: &[u8]) -> (selected: bool)
        ensures
            selected == selects(self.criteria(), primary@, secondary@),
    {
        let pred = self.search_primary(primary) && self.search_secondary(secondary)
            && self.search_either(primary, secondary) && self.regex_primary(primary)
            && self.regex_secondary(secondary) && self.regex_either(primary, secondary);
        if self.invert {
            !pred
        } else {
            pred
        }
    }

    /// Appends the textual form of `record` to the local buffer. A record
    /// without a quality string is refused and leaves the worker as it was.
    pub fn write_record(&mut self, record: &Record) -> (done: Result<(), RecordFormatError>)
        ensures
            final(self).criteria() == old(self).criteria(),
            final(self).counted() == old(self).counted(),
            match record.qual {
                Some(qual) => done is Ok && final(self).buffered() == old(self).buffered()
                    + emitted(record.id@, record.seq@, qual@),
                None => done == Err::<(), RecordFormatError>(RecordFormatError::MissingQuality)
                    && final(self).buffered() == old(self).buffered(),
            },
    {
        match record.qual {
            Some(qual) => {
                let (mut buffer, counter) = self.take_local();
                append_record(&mut buffer, record.id, record.seq, qual);
                self.put_local(buffer, counter);
                Ok(())
            },
            None => Err(RecordFormatError::MissingQuality),
        }
    }

    /// One single read of a batch: where the criteria select it, with an
    /// empty secondary read, its textual form joins the buffer and the count
    /// goes up by one. A selected record without a quality string is refused.
    /// On a refusal, and where the read is not selected, nothing changes.
    pub fn process_record(&mut self, record: &Record) -> (done: Result<(), RecordFormatError>)
        ensures
            final(self).criteria() == old(self).criteria(),
            match single_outcome(old(self).criteria(), record@) {
                Outcome::Skipped => done is Ok && final(self).buffered() == old(self).buffered()
                    && final(self).counted() == old(self).counted(),
                Outcome::Refused => done == Err::<(), RecordFormatError>(
                    RecordFormatError::MissingQuality,
                ) && final(self).buffered() == old(self).buffered() && final(self).counted()
                    == old(self).counted(),
                Outcome::Emitted(bytes) => done is Ok && final(self).buffered() == old(
                    self,
                ).buffered() + bytes && final(self).counted() == old(self).counted() + 1,
            },
    {
        let no_secondary: Vec<u8> = Vec::new();
        if self.pattern_match(record.seq, no_secondary.as_slice()) {
            match record.qual {
                Some(qual) => {
                    let (mut buffer, counter) = self.take_local();
                    append_record(&mut buffer, record.id, record.seq, qual);
                    proof {
                        lemma_emitted_len(record.id@, record.seq@, qual@);
                        assert(buffer.len() <= usize::MAX);
                    }
                    self.put_local(buffer, counter + 1);
                },
                None => {
                    return Err(RecordFormatError::MissingQuality);
                },
            }
        }
        Ok(())
    }

    /// One pair of reads of a batch: where the criteria select it, the
    /// textual forms of both reads join the buffer, primary first, and the
    /// count goes up by one. A selected pair in which a read has no quality
    /// string is refused. On a refusal, and where the pair is not selected,
    /// nothing changes.
    pub fn process_record_pair(&mut self, record1: &Record, record2: &Record) -> (done: Result<
        (),
        RecordFormatError,
    >)
        ensures
            final(self).criteria() == old(self).criteria(),
            match pair_outcome(old(self).criteria(), record1@, record2@) {
                Outcome::Skipped => done is Ok && final(self).buffered() == old(self).buffered()
                    && final(self).counted() == old(self).counted(),
                Outcome::Refused => done == Err::<(), RecordFormatError>(
                    RecordFormatError::MissingQuality,
                ) && final(self).buffered() == old(self).buffered() && final(self).counted()
                    == old(self).counted(),
                Outcome::Emitted(bytes) => done is Ok && final(self).buffered() == old(
                    self,
                ).buffered() + bytes && final(self).counted() == old(self).counted() + 1,
            },
    {
        if self.pattern_match(record1.seq, record2.seq) {
            match (record1.qual, record2.qual) {
                (Some(qual1), Some(qual2)) => {
                    let (mut buffer, counter) = self.take_local();
                    append_record(&mut buffer, record1.id, record1.seq, qual1);
                    append_record(&mut buffer, record2.id, record2.seq, qual2);
                    proof {
                        lemma_emitted_len(record1.id@, record1.seq@, qual1@);
                        assert(buffer.len() <= usize::MAX);
                        assert(buffer@ =~= old(self).local_buffer@ + (emitted(
                            record1.id@,
                            record1.seq@,
                            qual1@,
                        ) + emitted(record2.id@, record2.seq@, qual2@)));
                    }
                    self.put_local(buffer, counter + 1);
                },
                _ => {
                    return Err(RecordFormatError::MissingQuality);
                },
            }
        }
        Ok(())
    }

    /// The end of a batch: hands over what was buffered and counted since the
    /// last hand-over, and starts afresh with an empty buffer and a count of
    /// zero.
    pub fn on_batch_complete(&mut self) -> (output: BatchOutput)
        ensures
            output.bytes@ == old(self).buffered(),
            output.matches == old(self).counted(),
            final(self).buffered() == Seq::<u8>::empty(),
            final(self).counted() == 0,
            final(self).criteria() == old(self).criteria(),
    {
        let (bytes, matches) = self.take_local();
        self.put_local(Vec::with_capacity(DEFAULT_BUFFER_SIZE), 0);
        BatchOutput { bytes, matches }
    }

    /// Takes the buffer and the count out of the worker, which is left with
    /// an empty buffer and a count of zero until they are put back.
    fn take_local(&mut self) -> (local: (Vec<u8>, usize))
        ensures
            local.0@ == old(self).buffered(),
            local.1 == old(self).counted(),
            6 * local.1 <= local.0@.len(),
            final(self).buffered() == Seq::<u8>::empty(),
            final(self).counted() == 0,
            final(self).criteria() == old(self).criteria(),
    {
        proof {
            use_type_invariant(&*self);
        }
        let counter = self.local_counter;
        self.local_counter = 0;
        let mut buffer: Vec<u8> = Vec::new();
        core::mem::swap(&mut buffer, &mut self.local_buffer);
        (buffer, counter)
    }

    /// Puts a buffer and a count into a worker that holds none.
    fn put_local(&mut self, buffer: Vec<u8>, counter: usize)
        requires
            old(self).counted() == 0,
            6 * counter <= buffer@.len(),
        ensures
            final(self).buffered() == buffer@,
            final(self).counted() == counter,
            final(self).criteria() == old(self).criteria(),
    {
        self.local_buffer = buffer;
        self.local_counter = counter;
    }
}

impl Clone for GrepProcessor {
    /// A worker with the same criteria and the same local state.
    fn clone(&self) -> (copy: Self)
        ensures
            copy.criteria() == self.criteria(),
            copy.buffered() == self.buffered(),
            copy.counted() == self.counted(),
    {
        proof {
            use_type_invariant(self);
        }
        let local_buffer = self.local_buffer.clone();
        assert(local_buffer@ =~= self.local_buffer@);
        Self {
            mp1: clone_finders(&self.mp1),
            mp2: clone_finders(&self.mp2),
            pat: clone_finders(&self.pat),
            re1: clone_regexes(&self.re1),
            re2: clone_regexes(&self.re2),
            re: clone_regexes(&self.re),
            invert: self.invert,
            local_buffer,
            local_counter: self.local_counter,
        }
    }
}

} // verus!
