//! What holds of the match decision for every configuration and every read.

use crate::fixed::{occurs, occurs_at};
use crate::predicate::{
    all_occur, either_fixed_holds, secondary_fixed_holds, selects, some_occurs,
    some_occurs_in_either, Criteria,
};
use vstd::prelude::*;

verus! {

/// The criteria that hold nothing but one fixed pattern for the primary read.
pub open spec fn lone_primary_pattern(needle: Seq<u8>) -> Criteria {
    Criteria {
        fixed_primary: seq![needle],
        fixed_secondary: Seq::empty(),
        fixed_either: Seq::empty(),
        regex_primary: Seq::empty(),
        regex_secondary: Seq::empty(),
        regex_either: Seq::empty(),
        invert: false,
    }
}

/// With one fixed pattern for the primary read and nothing else, a read that
/// is not empty is selected exactly if the pattern stands in it, whatever the
/// secondary read is; and a read in which the pattern stands is selected in
/// any case.
pub proof fn law_lone_primary_pattern(needle: Seq<u8>, primary: Seq<u8>, secondary: Seq<u8>)
    requires
        primary.len() > 0 || occurs(primary, needle),
    ensures
        selects(lone_primary_pattern(needle), primary, secondary) == occurs(primary, needle),
{
    let c = lone_primary_pattern(needle);
    assert(c.fixed_primary[0] == needle);
    if occurs(primary, needle) {
        assert(all_occur(c.fixed_primary, primary));
    } else {
        assert(!all_occur(c.fixed_primary, primary));
    }
}

/// Inverting the criteria negates the decision, on every pair of reads.
pub proof fn law_invert_negates(c: Criteria, primary: Seq<u8>, secondary: Seq<u8>)
    ensures
        selects(Criteria { invert: true, ..c }, primary, secondary) == !selects(
            Criteria { invert: false, ..c },
            primary,
            secondary,
        ),
{
}

/// A pattern that is not empty stands nowhere in an empty read.
pub proof fn law_empty_read_holds_no_pattern(needle: Seq<u8>)
    requires
        needle.len() > 0,
    ensures
        !occurs(Seq::<u8>::empty(), needle),
{
    assert forall|at: int| !occurs_at(Seq::<u8>::empty(), needle, at) by {}
}

/// For a single read, whose secondary is empty, the check on the secondary
/// read's fixed patterns holds whatever the list is, and the check on the
/// patterns for either read, where none of them is empty, comes down to the
/// primary read alone.
pub proof fn law_single_read_fixed_checks(needles: Seq<Seq<u8>>, primary: Seq<u8>)
    ensures
        secondary_fixed_holds(needles, Seq::<u8>::empty()),
        (forall|k: int| 0 <= k < needles.len() ==> (#[trigger] needles[k]).len() > 0)
            ==> either_fixed_holds(needles, primary, Seq::<u8>::empty()) == (needles.len() == 0
            || some_occurs(needles, primary)),
{
    let none = Seq::<u8>::empty();
    if forall|k: int| 0 <= k < needles.len() ==> (#[trigger] needles[k]).len() > 0 {
        assert forall|k: int| 0 <= k < needles.len() implies !occurs(
            none,
            #[trigger] needles[k],
        ) by {
            law_empty_read_holds_no_pattern(needles[k]);
        }
        if some_occurs_in_either(needles, primary, none) {
            let k = choose|k: int|
                0 <= k < needles.len() && (occurs(primary, #[trigger] needles[k]) || occurs(
                    none,
                    needles[k],
                ));
            assert(occurs(primary, needles[k]));
        }
        if some_occurs(needles, primary) {
            let k = choose|k: int| 0 <= k < needles.len() && occurs(primary, #[trigger] needles[k]);
            assert(occurs(primary, needles[k]) || occurs(none, needles[k]));
        }
    }
}

} // verus!
