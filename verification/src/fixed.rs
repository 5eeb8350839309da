//! Exact-substring search on byte strings.

use memchr::memmem::Finder;
use vstd::prelude::*;
use vstd::utf8::encode_utf8;

verus! {

/// The substring searcher of `memchr`, carried as an opaque value.
#[verifier::external_type_specification]
#[verifier::external_body]
pub struct ExFinder<'n>(Finder<'n>);

/// The needle that a searcher was built for: what `Finder::needle` returns.
pub uninterp spec fn needle_of(finder: Finder<'static>) -> Seq<u8>;

/// `needle` stands in `hay` at offset `at`.
pub open spec fn occurs_at(hay: Seq<u8>, needle: Seq<u8>, at: int) -> bool {
    &&& 0 <= at
    &&& at + needle.len() <= hay.len()
    &&& hay.subrange(at, at + needle.len()) == needle
}

/// `needle` stands somewhere in `hay`.
pub open spec fn occurs(hay: Seq<u8>, needle: Seq<u8>) -> bool {
    exists|at: int| occurs_at(hay, needle, at)
}

/// The needles of a list of searchers, in order.
pub open spec fn needles_of(finders: Seq<Finder<'static>>) -> Seq<Seq<u8>> {
    Seq::new(finders.len(), |k: int| needle_of(finders[k]))
}

/// Calls `memchr::memmem::Finder::new` and then `Finder::into_owned`: the
/// searcher that comes back looks for exactly the bytes of `needle`.
#[verifier::external_body]
pub(crate) fn build_finder(needle: &[u8]) -> (finder: Finder<'static>)
    ensures
        needle_of(finder) == needle@,
{
    Finder::new(needle).into_owned()
}

/// Calls `memchr::memmem::Finder::find`, which returns the offset of the
/// first occurrence of the searcher's needle in `hay`, or `None` where the
/// needle does not occur.
#[verifier::external_body]
pub(crate) fn find_first(finder: &Finder<'static>, hay: &[u8]) -> (at: Option<usize>)
    ensures
        match at {
            Some(i) => occurs_at(hay@, needle_of(*finder), i as int) && forall|j: int|
                0 <= j < i ==> !occurs_at(hay@, needle_of(*finder), j),
            None => forall|j: int| !occurs_at(hay@, needle_of(*finder), j),
        },
{
    finder.find(hay)
}

/// The byte forms of a list of pattern texts, in order.
pub open spec fn byte_forms(patterns: Seq<String>) -> Seq<Seq<u8>> {
    Seq::new(patterns.len(), |k: int| encode_utf8(patterns[k]@))
}

/// One searcher for each pattern text, in order, each for the text's bytes.
pub fn build_finders(patterns: &Vec<String>) -> (finders: Vec<Finder<'static>>)
    ensures
        needles_of(finders@) == byte_forms(patterns@),
{
    let mut finders: Vec<Finder<'static>> = Vec::with_capacity(patterns.len());
    let mut k: usize = 0;
    while k < patterns.len()
        invariant
            k <= patterns.len(),
            finders.len() == k,
            forall|j: int|
                0 <= j < k ==> needle_of(#[trigger] finders[j]) == encode_utf8(patterns[j]@),
        decreases patterns.len() - k,
    {
        finders.push(build_finder(patterns[k].as_str().as_bytes()));
        k += 1;
    }
    assert(needles_of(finders@) =~= byte_forms(patterns@));
    finders
}

/// Calls `Finder::clone`: the copy looks for the same needle.
#[verifier::external_body]
pub(crate) fn clone_finder(finder: &Finder<'static>) -> (copy: Finder<'static>)
    ensures
        needle_of(copy) == needle_of(*finder),
{
    finder.clone()
}

/// A copy of a list of searchers, needle for needle.
pub fn clone_finders(finders: &Vec<Finder<'static>>) -> (copies: Vec<Finder<'static>>)
    ensures
        needles_of(copies@) == needles_of(finders@),
{
    let mut copies: Vec<Finder<'static>> = Vec::with_capacity(finders.len());
    let mut k: usize = 0;
    while k < finders.len()
        invariant
            k <= finders.len(),
            copies.len() == k,
            forall|j: int| 0 <= j < k ==> needle_of(#[trigger] copies[j]) == needle_of(finders[j]),
        decreases finders.len() - k,
    {
        copies.push(clone_finder(&finders[k]));
        k += 1;
    }
    assert(needles_of(copies@) =~= needles_of(finders@));
    copies
}

/// Whether the searcher's needle stands somewhere in `hay`.
pub fn found_in(finder: &Finder<'static>, hay: &[u8]) -> (hit: bool)
    ensures
        hit == occurs(hay@, needle_of(*finder)),
{
    find_first(finder, hay).is_some()
}

} // verus!
