//! The match decision, stated over byte strings.
//!
//! Six checks are combined. Each holds outright where its list of patterns is
//! empty. The fixed patterns for the primary read must all be found; of every
//! other list one hit is enough. The two checks on one read's fixed patterns
//! pass an empty read; the checks on regular expressions search it.

use crate::fixed::occurs;
use crate::regexp::{matches_in, Spans};
use vstd::prelude::*;

verus! {

/// The search criteria of a run: fixed patterns and regular expressions for
/// the primary read, for the secondary read and for either of the two, and
/// whether the decision is turned round. A fixed pattern is its bytes; an
/// expression is what it finds.
pub ghost struct Criteria {
    pub fixed_primary: Seq<Seq<u8>>,
    pub fixed_secondary: Seq<Seq<u8>>,
    pub fixed_either: Seq<Seq<u8>>,
    pub regex_primary: Seq<Spans>,
    pub regex_secondary: Seq<Spans>,
    pub regex_either: Seq<Spans>,
    pub invert: bool,
}

/// Every needle stands in `hay`.
pub open spec fn all_occur(needles: Seq<Seq<u8>>, hay: Seq<u8>) -> bool {
    forall|k: int| 0 <= k < needles.len() ==> occurs(hay, #[trigger] needles[k])
}

/// At least one needle stands in `hay`.
pub open spec fn some_occurs(needles: Seq<Seq<u8>>, hay: Seq<u8>) -> bool {
    exists|k: int| 0 <= k < needles.len() && occurs(hay, #[trigger] needles[k])
}

/// At least one needle stands in `first` or in `second`.
pub open spec fn some_occurs_in_either(
    needles: Seq<Seq<u8>>,
    first: Seq<u8>,
    second: Seq<u8>,
) -> bool {
    exists|k: int|
        0 <= k < needles.len() && (occurs(first, #[trigger] needles[k]) || occurs(
            second,
            needles[k],
        ))
}

/// At least one expression matches in `hay`.
pub open spec fn some_matches(expressions: Seq<Spans>, hay: Seq<u8>) -> bool {
    exists|k: int| 0 <= k < expressions.len() && matches_in(#[trigger] expressions[k], hay)
}

/// At least one expression matches in `first` or in `second`.
pub open spec fn some_matches_in_either(
    expressions: Seq<Spans>,
    first: Seq<u8>,
    second: Seq<u8>,
) -> bool {
    exists|k: int|
        0 <= k < expressions.len() && (matches_in(#[trigger] expressions[k], first)
            || matches_in(expressions[k], second))
}

/// The check on the primary read's fixed patterns: all of them are found. An
/// empty read passes.
pub open spec fn primary_fixed_holds(needles: Seq<Seq<u8>>, primary: Seq<u8>) -> bool {
    needles.len() == 0 || primary.len() == 0 || all_occur(needles, primary)
}

/// The check on the secondary read's fixed patterns: one of them is found.
/// An empty read passes.
pub open spec fn secondary_fixed_holds(needles: Seq<Seq<u8>>, secondary: Seq<u8>) -> bool {
    needles.len() == 0 || secondary.len() == 0 || some_occurs(needles, secondary)
}

/// The check on the fixed patterns for either read: one of them is found in
/// one of the two reads.
pub open spec fn either_fixed_holds(
    needles: Seq<Seq<u8>>,
    primary: Seq<u8>,
    secondary: Seq<u8>,
) -> bool {
    needles.len() == 0 || some_occurs_in_either(needles, primary, secondary)
}

/// The check on the expressions for one read: one of them matches in it. An
/// empty read is searched like any other.
pub open spec fn read_regex_holds(expressions: Seq<Spans>, read: Seq<u8>) -> bool {
    expressions.len() == 0 || some_matches(expressions, read)
}

/// The check on the expressions for either read: one of them matches in one
/// of the two reads.
pub open spec fn either_regex_holds(
    expressions: Seq<Spans>,
    primary: Seq<u8>,
    secondary: Seq<u8>,
) -> bool {
    expressions.len() == 0 || some_matches_in_either(expressions, primary, secondary)
}

/// All six checks hold of a pair of reads.
pub open spec fn criteria_hold(c: Criteria, primary: Seq<u8>, secondary: Seq<u8>) -> bool {
    &&& primary_fixed_holds(c.fixed_primary, primary)
    &&& secondary_fixed_holds(c.fixed_secondary, secondary)
    &&& either_fixed_holds(c.fixed_either, primary, secondary)
    &&& read_regex_holds(c.regex_primary, primary)
    &&& read_regex_holds(c.regex_secondary, secondary)
    &&& either_regex_holds(c.regex_either, primary, secondary)
}

/// The decision on a pair of reads: the six checks, negated where the
/// criteria are inverted. A single read is a pair whose secondary is empty.
pub open spec fn selects(c: Criteria, primary: Seq<u8>, secondary: Seq<u8>) -> bool {
    if c.invert {
        !criteria_hold(c, primary, secondary)
    } else {
        criteria_hold(c, primary, secondary)
    }
}

} // verus!
