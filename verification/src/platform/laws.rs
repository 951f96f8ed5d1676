//! What holds of every dependency check.

use crate::commands::dependencies::{names, DependencyView};
use crate::platform::{missing, Platform};
use vstd::prelude::*;

verus! {

/// Whether `part` is made of the items of `whole` at the positions `at`,
/// which go upwards: `part` is picked from `whole` without changing the order.
pub open spec fn picked_from(part: Seq<DependencyView>, whole: Seq<DependencyView>, at: Seq<int>) -> bool {
    &&& at.len() == part.len()
    &&& forall|i: int| 0 <= i < at.len() ==> 0 <= #[trigger] at[i] < whole.len()
    &&& forall|i: int| 0 <= i < at.len() ==> #[trigger] part[i] == whole[at[i]]
    &&& forall|i: int, j: int| 0 <= i < j < at.len() ==> at[i] < at[j]
}

/// The positions of the required packages that a check reports as missing.
pub open spec fn missing_positions(count: nat, absent: Seq<bool>) -> Seq<int>
    decreases count,
{
    if count == 0 {
        Seq::empty()
    } else {
        let before = missing_positions((count - 1) as nat, absent);
        if count - 1 < absent.len() && absent[count - 1] {
            before.push(count - 1)
        } else {
            before
        }
    }
}

/// What a check reports is a part of the list of packages, in the order of
/// that list: exactly the packages at the positions that were reported as
/// unknown.
pub proof fn lemma_missing_is_ordered_part(packages: Seq<DependencyView>, absent: Seq<bool>)
    ensures
        picked_from(
            missing(packages, absent),
            packages,
            missing_positions(packages.len(), absent),
        ),
        forall|p: int|
            0 <= p < packages.len() ==> (#[trigger] missing_positions(
                packages.len(),
                absent,
            ).contains(p) <==> (p < absent.len() && absent[p])),
        missing(packages, absent).len() <= packages.len(),
    decreases packages.len(),
{
    if packages.len() > 0 {
        let last = packages.len() - 1;
        let head = packages.drop_last();
        lemma_missing_is_ordered_part(head, absent);
        let before = missing_positions(head.len(), absent);
        let at = missing_positions(packages.len(), absent);
        let grows = last < absent.len() && absent[last];
        assert(at == if grows {
            before.push(last)
        } else {
            before
        });
        assert forall|p: int| 0 <= p < packages.len() implies (#[trigger] at.contains(p) <==> (p
            < absent.len() && absent[p])) by {
            if at.contains(p) {
                let i = choose|i: int| 0 <= i < at.len() && at[i] == p;
                if i < before.len() {
                    assert(before[i] == p);
                    assert(0 <= before[i] < head.len());
                    assert(before.contains(p));
                }
            }
            if p < absent.len() && absent[p] {
                if p < last {
                    assert(before.contains(p));
                    let i = choose|i: int| 0 <= i < before.len() && before[i] == p;
                    assert(at[i] == p);
                } else {
                    assert(at[before.len() as int] == p);
                }
                assert(at.contains(p));
            }
        }
    }
}

/// Every platform reports only packages of its own list, in the order of
/// that list.
pub proof fn lemma_check_reports_listed_packages<P: Platform>(platform: &P, absent: Seq<bool>)
    ensures
        picked_from(
            missing(platform.packages(), absent),
            platform.packages(),
            missing_positions(platform.packages().len(), absent),
        ),
{
    lemma_missing_is_ordered_part(platform.packages(), absent);
}

/// The install instructions are a function of the packages' names: two
/// lists with the same names in the same order give the same command line.
pub proof fn lemma_instructions_depend_on_names<P: Platform>(
    platform: &P,
    first: Seq<DependencyView>,
    second: Seq<DependencyView>,
)
    requires
        names(first) == names(second),
    ensures
        platform.instructions(names(first)) == platform.instructions(names(second)),
{
}

} // verus!
