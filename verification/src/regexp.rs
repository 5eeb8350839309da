//! Byte-oriented regular expressions, compiled and run by the `regex` crate.
//!
//! An expression is known here by what it finds: for each read in which it
//! matches, the span of its leftmost match. Two expressions with the same
//! source text may find different things where they were built with
//! different options, so nothing is stated of an expression by its text
//! alone; only of one that was compiled here from that text.

use regex::bytes::Regex;
use vstd::prelude::*;

verus! {

/// A compiled byte-oriented regular expression, carried as an opaque value.
#[verifier::external_type_specification]
#[verifier::external_body]
pub struct ExRegex(Regex);

/// The reason why `regex` refused a source, carried as an opaque value.
#[verifier::external_type_specification]
#[verifier::external_body]
pub struct ExRegexError(regex::Error);

/// What an expression finds: the reads in which it matches, each with the
/// span `(start, end)` of the leftmost match.
pub type Spans = Map<Seq<u8>, (usize, usize)>;

/// What a compiled expression finds: for each read, what `Regex::find`
/// returns on it.
pub uninterp spec fn spans_of(re: Regex) -> Map<Seq<u8>, (usize, usize)>;

/// What `regex::bytes::Regex::new` makes of `source`: `None` where it refuses
/// the source, and otherwise what the expression that it builds finds.
pub uninterp spec fn compiled(source: Seq<char>) -> Option<Map<Seq<u8>, (usize, usize)>>;

/// `regex::bytes::Regex::new` accepts `source`.
pub open spec fn compiles(source: Seq<char>) -> bool {
    compiled(source) is Some
}

/// The span of the leftmost match in `hay`, where there is one.
pub open spec fn span_in(spans: Spans, hay: Seq<u8>) -> Option<(usize, usize)> {
    if spans.dom().contains(hay) {
        Some(spans[hay])
    } else {
        None
    }
}

/// The expression matches somewhere in `hay`.
pub open spec fn matches_in(spans: Spans, hay: Seq<u8>) -> bool {
    spans.dom().contains(hay)
}

/// What the expressions of a list find, in order.
pub open spec fn spans_of_all(res: Seq<Regex>) -> Seq<Spans> {
    Seq::new(res.len(), |k: int| spans_of(res[k]))
}

/// The texts of a list of sources, in order.
pub open spec fn texts_of(sources: Seq<String>) -> Seq<Seq<char>> {
    Seq::new(sources.len(), |k: int| sources[k]@)
}

/// What the expressions compiled from a list of texts find, in order. It is
/// meant for lists of which every text compiles.
pub open spec fn compiled_all(texts: Seq<Seq<char>>) -> Seq<Spans> {
    Seq::new(texts.len(), |k: int| compiled(texts[k]).unwrap())
}

/// Every source of the list is accepted.
pub open spec fn all_compile(texts: Seq<Seq<char>>) -> bool {
    forall|k: int| 0 <= k < texts.len() ==> compiles(#[trigger] texts[k])
}

/// The source at `at` is the first of the list that is refused.
pub open spec fn first_refused(texts: Seq<Seq<char>>, at: int) -> bool {
    &&& 0 <= at < texts.len()
    &&& !compiles(texts[at])
    &&& forall|j: int| 0 <= j < at ==> compiles(#[trigger] texts[j])
}

/// Calls `regex::bytes::Regex::new`, which builds with fixed options:
/// whether it accepts a source, and what the expression then finds, depends
/// on the source text alone.
#[verifier::external_body]
pub(crate) fn compile(source: &str) -> (built: Result<Regex, regex::Error>)
    ensures
        match built {
            Ok(re) => compiled(source@) == Some(spans_of(re)),
            Err(_) => compiled(source@) is None,
        },
{
    Regex::new(source)
}

/// Calls `regex::bytes::Regex::find` and hands back the offsets of the match:
/// what this expression finds in `hay`.
#[verifier::external_body]
pub(crate) fn find_match(re: &Regex, hay: &[u8]) -> (span: Option<(usize, usize)>)
    ensures
        span == span_in(spans_of(*re), hay@),
{
    re.find(hay).map(|m| (m.start(), m.end()))
}

/// Calls `Regex::clone`: the copy finds what the expression finds.
#[verifier::external_body]
pub(crate) fn clone_regex(re: &Regex) -> (copy: Regex)
    ensures
        spans_of(copy) == spans_of(*re),
{
    re.clone()
}

/// Compiles the sources in order. Where all are accepted the expressions
/// come back, one for each source; otherwise the position of the first
/// source that is refused.
pub fn compile_all(sources: &Vec<String>) -> (built: Result<Vec<Regex>, usize>)
    ensures
        match built {
            Ok(res) => all_compile(texts_of(sources@)) && spans_of_all(res@) == compiled_all(
                texts_of(sources@),
            ),
            Err(at) => first_refused(texts_of(sources@), at as int),
        },
{
    let ghost texts = texts_of(sources@);
    let mut res: Vec<Regex> = Vec::with_capacity(sources.len());
    let mut k: usize = 0;
    while k < sources.len()
        invariant
            k <= sources.len(),
            res.len() == k,
            texts == texts_of(sources@),
            forall|j: int| 0 <= j < k ==> compiles(#[trigger] texts[j]),
            forall|j: int| 0 <= j < k ==> compiled(texts[j]) == Some(spans_of(#[trigger] res[j])),
        decreases sources.len() - k,
    {
        match compile(sources[k].as_str()) {
            Ok(re) => {
                res.push(re);
            },
            Err(_) => {
                assert(!compiles(texts[k as int]));
                return Err(k);
            },
        }
        k += 1;
    }
    assert(spans_of_all(res@) =~= compiled_all(texts));
    Ok(res)
}

/// A copy of a list of compiled expressions: each copy finds what the
/// expression in its place finds.
pub fn clone_regexes(res: &Vec<Regex>) -> (copies: Vec<Regex>)
    ensures
        spans_of_all(copies@) == spans_of_all(res@),
{
    let mut copies: Vec<Regex> = Vec::with_capacity(res.len());
    let mut k: usize = 0;
    while k < res.len()
        invariant
            k <= res.len(),
            copies.len() == k,
            forall|j: int| 0 <= j < k ==> spans_of(#[trigger] copies[j]) == spans_of(res[j]),
        decreases res.len() - k,
    {
        copies.push(clone_regex(&res[k]));
        k += 1;
    }
    assert(spans_of_all(copies@) =~= spans_of_all(res@));
    copies
}

/// Whether the expression matches somewhere in `hay`.
pub fn matched_in(re: &Regex, hay: &[u8]) -> (hit: bool)
    ensures
        hit == matches_in(spans_of(*re), hay@),
{
    find_match(re, hay).is_some()
}

} // verus!
