//! Sequence records and their four-line textual form.

use vstd::prelude::*;

verus! {

/// One read as a reader hands it over: identifier, sequence and, where the
/// input format carries it, the quality string.
pub struct Record<'a> {
    pub id: &'a [u8],
    pub seq: &'a [u8],
    pub qual: Option<&'a [u8]>,
}

/// What a record holds, as mathematical byte strings.
pub ghost struct RecordView {
    pub id: Seq<u8>,
    pub seq: Seq<u8>,
    pub qual: Option<Seq<u8>>,
}

impl<'a> View for Record<'a> {
    type V = RecordView;

    open spec fn view(&self) -> RecordView {
        RecordView {
            id: self.id@,
            seq: self.seq@,
            qual: match self.qual {
                Some(q) => Some(q@),
                None => None,
            },
        }
    }
}

/// A record cannot be written out: the output format needs what it lacks.
#[derive(Debug, Clone, Copy, PartialEq, Eq, Structural)]
pub enum RecordFormatError {
    /// The record carries no quality string.
    MissingQuality,
}

impl RecordFormatError {
    /// A sentence for the user.
    pub fn message(&self) -> (text: String)
        ensures
            text@ == "record has no quality string, which the output format requires"@,
    {
        "record has no quality string, which the output format requires".to_string()
    }
}

pub const HEADER_MARK: u8 = 0x40;

pub const SEPARATOR_MARK: u8 = 0x2b;

pub const LINE_END: u8 = 0x0a;

/// The bytes of one record in the output: the identifier line behind `@`,
/// the sequence line, a line that holds only `+`, and the quality line.
pub open spec fn emitted(id: Seq<u8>, seq: Seq<u8>, qual: Seq<u8>) -> Seq<u8> {
    seq![HEADER_MARK] + id + seq![LINE_END] + seq + seq![LINE_END, SEPARATOR_MARK, LINE_END]
        + qual + seq![LINE_END]
}

/// The textual form is six bytes longer than what it carries.
pub proof fn lemma_emitted_len(id: Seq<u8>, seq: Seq<u8>, qual: Seq<u8>)
    ensures
        emitted(id, seq, qual).len() == id.len() + seq.len() + qual.len() + 6,
{
}

/// Appends the textual form of one record to `out`, byte for byte.
pub fn append_record(out: &mut Vec<u8>, id: &[u8], seq: &[u8], qual: &[u8])
    ensures
        final(out)@ == old(out)@ + emitted(id@, seq@, qual@),
{
    out.push(HEADER_MARK);
    out.extend_from_slice(id);
    out.push(LINE_END);
    out.extend_from_slice(seq);
    out.push(LINE_END);
    out.push(SEPARATOR_MARK);
    out.push(LINE_END);
    out.extend_from_slice(qual);
    out.push(LINE_END);
    assert(out@ =~= old(out)@ + emitted(id@, seq@, qual@));
}

/// The number of bytes in front of the first line end of `bytes`; the length
/// of `bytes` where it holds none.
pub open spec fn line_len(bytes: Seq<u8>) -> int
    decreases bytes.len(),
{
    if bytes.len() == 0 || bytes[0] == LINE_END {
        0
    } else {
        1 + line_len(bytes.skip(1))
    }
}

/// No byte of `bytes` is a line end.
pub open spec fn is_one_line(bytes: Seq<u8>) -> bool {
    forall|k: int| 0 <= k < bytes.len() ==> bytes[k] != LINE_END
}

/// The first line of `bytes` and what follows its line end; `None` where no
/// line ends in `bytes`.
pub open spec fn read_line(bytes: Seq<u8>) -> Option<(Seq<u8>, Seq<u8>)> {
    let n = line_len(bytes);
    if n < bytes.len() {
        Some((bytes.take(n), bytes.skip(n + 1)))
    } else {
        None
    }
}

/// How a reader of the four-line format takes one record from the front of
/// `bytes`: the record and the bytes behind it, or `None` where `bytes` does
/// not start with a whole record. A record is whole where its first line
/// starts with `@`, its third line is `+`, and its quality line is as long as
/// its sequence line.
pub open spec fn read_record(bytes: Seq<u8>) -> Option<(RecordView, Seq<u8>)> {
    if bytes.len() == 0 || bytes[0] != HEADER_MARK {
        None
    } else {
        match read_line(bytes.skip(1)) {
            None => None,
            Some((id, after_id)) => match read_line(after_id) {
                None => None,
                Some((seq, after_seq)) => match read_line(after_seq) {
                    None => None,
                    Some((separator, after_separator)) => match read_line(after_separator) {
                        None => None,
                        Some((qual, rest)) => if separator == seq![SEPARATOR_MARK] && qual.len()
                            == seq.len() {
                            Some((RecordView { id, seq, qual: Some(qual) }, rest))
                        } else {
                            None
                        },
                    },
                },
            },
        }
    }
}

/// A line without a line end in it, followed by a line end, is read back as
/// it was written, and what stood behind it is left over.
pub proof fn lemma_read_line_back(line: Seq<u8>, rest: Seq<u8>)
    requires
        is_one_line(line),
    ensures
        line_len(line + seq![LINE_END] + rest) == line.len(),
        read_line(line + seq![LINE_END] + rest) == Some((line, rest)),
    decreases line.len(),
{
    let bytes = line + seq![LINE_END] + rest;
    if line.len() == 0 {
        assert(bytes[0] == LINE_END);
        assert(bytes.take(0) =~= line);
        assert(bytes.skip(1) =~= rest);
    } else {
        let tail = line.skip(1);
        assert(bytes[0] == line[0]);
        assert(bytes.skip(1) =~= tail + seq![LINE_END] + rest);
        assert forall|k: int| 0 <= k < tail.len() implies tail[k] != LINE_END by {
            assert(tail[k] == line[k + 1]);
        }
        lemma_read_line_back(tail, rest);
        assert(line_len(bytes) == line.len());
        assert(bytes.take(line.len() as int) =~= line);
        assert(bytes.skip(line.len() as int + 1) =~= rest);
    }
}

/// What was written for a record is read back as that record: identifier,
/// sequence and quality come back byte for byte, and what stood behind the
/// record is left over. This holds of every record whose three parts hold no
/// line end and whose quality is as long as its sequence.
pub proof fn law_emitted_reads_back(id: Seq<u8>, seq: Seq<u8>, qual: Seq<u8>, rest: Seq<u8>)
    requires
        is_one_line(id),
        is_one_line(seq),
        is_one_line(qual),
        qual.len() == seq.len(),
    ensures
        read_record(emitted(id, seq, qual) + rest) == Some(
            (RecordView { id, seq, qual: Some(qual) }, rest),
        ),
{
    let nl = seq![LINE_END];
    let plus = seq![SEPARATOR_MARK];
    let bytes = emitted(id, seq, qual) + rest;
    let after_qual = rest;
    let after_separator = qual + nl + after_qual;
    let after_seq = plus + nl + after_separator;
    let after_id = seq + nl + after_seq;
    assert(bytes[0] == HEADER_MARK);
    assert(bytes.skip(1) =~= id + nl + after_id);
    lemma_read_line_back(id, after_id);
    lemma_read_line_back(seq, after_seq);
    assert(is_one_line(plus));
    lemma_read_line_back(plus, after_separator);
    lemma_read_line_back(qual, after_qual);
}

} // verus!
