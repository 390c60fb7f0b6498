use vstd::prelude::*;
use crate::platform::{file_names, lemma_platform_file_sets_disjoint, Platform, DEPENDENCY_COUNT};

verus! {

/// The positions of `present` that are `false`, in increasing order: the
/// dependency files that do not exist yet.
pub open spec fn missing_positions(present: Seq<bool>) -> Seq<usize>
    decreases present.len(),
{
    if present.len() == 0 {
        Seq::empty()
    } else {
        let rest = missing_positions(present.drop_last());
        if present.last() {
            rest
        } else {
            rest.push((present.len() - 1) as usize)
        }
    }
}

/// Every listed position is in range and names a missing file; a file that
/// exists is never listed.
pub proof fn lemma_missing_positions_only_missing(present: Seq<bool>)
    requires
        present.len() <= usize::MAX,
    ensures
        forall|k: int| 0 <= k < missing_positions(present).len() ==>
            (#[trigger] missing_positions(present)[k] as int) < present.len()
            && !present[missing_positions(present)[k] as int],
        forall|i: int| 0 <= i < present.len() && present[i] ==> !missing_positions(present).contains(i as usize),
    decreases present.len(),
{
    if present.len() > 0 {
        let init = present.drop_last();
        lemma_missing_positions_only_missing(init);
        let rest = missing_positions(init);
        assert forall|k: int| 0 <= k < missing_positions(present).len() implies
            (#[trigger] missing_positions(present)[k] as int) < present.len()
            && !present[missing_positions(present)[k] as int] by {
            if k < rest.len() {
                assert(missing_positions(present)[k] == rest[k]);
                assert((rest[k] as int) < init.len());
                assert(present[rest[k] as int] == init[rest[k] as int]);
            } else {
            }
        }
        assert forall|i: int| 0 <= i < present.len() && present[i] implies !missing_positions(present).contains(i as usize) by {
            if missing_positions(present).contains(i as usize) {
                let k = choose|k: int| 0 <= k < missing_positions(present).len() && missing_positions(present)[k] == i as usize;
                assert(!present[missing_positions(present)[k] as int]);
            }
        }
    }
}

/// When every file already exists, nothing is listed for writing.
pub proof fn lemma_all_present_nothing_missing(present: Seq<bool>)
    requires
        present.len() <= usize::MAX,
        forall|i: int| 0 <= i < present.len() ==> present[i],
    ensures
        missing_positions(present).len() == 0,
{
    lemma_missing_positions_only_missing(present);
    if missing_positions(present).len() > 0 {
        assert(!present[missing_positions(present)[0] as int]);
    }
}

/// Decides which dependency files to write, given whether each one already
/// exists. Only missing files are written; an existing file is neither
/// rewritten nor checked.
pub fn files_to_unpack(present: &Vec<bool>) -> (plan: Vec<usize>)
    ensures
        plan@ == missing_positions(present@),
        forall|i: int| 0 <= i < present@.len() && present@[i] ==> !plan@.contains(i as usize),
        (forall|i: int| 0 <= i < present@.len() ==> present@[i]) ==> plan@.len() == 0,
{
    let mut plan: Vec<usize> = Vec::new();
    let mut i: usize = 0;
    while i < present.len()
        invariant
            i <= present@.len(),
            plan@ == missing_positions(present@.subrange(0, i as int)),
        decreases present@.len() - i,
    {
        assert(present@.subrange(0, i + 1).drop_last() =~= present@.subrange(0, i as int));
        if !present[i] {
            plan.push(i);
        }
        i = i + 1;
    }
    proof {
        assert(present@.subrange(0, i as int) =~= present@);
        lemma_missing_positions_only_missing(present@);
        if forall|i: int| 0 <= i < present@.len() ==> present@[i] {
            lemma_all_present_nothing_missing(present@);
        }
    }
    plan
}

/// The names of the files written for platform `p`, given which of its
/// dependency files already exist.
pub open spec fn unpack_targets(p: Platform, present: Seq<bool>) -> Seq<Seq<char>> {
    missing_positions(present).map_values(|k: usize| file_names(p)[k as int])
}

/// With platform selector `p`, every file the unpacker writes is one of `p`'s
/// dependency files and none of another platform's.
pub proof fn lemma_targets_follow_platform(p: Platform, q: Platform, present: Seq<bool>, k: int)
    requires
        present.len() == DEPENDENCY_COUNT,
        0 <= k < unpack_targets(p, present).len(),
    ensures
        file_names(p).contains(unpack_targets(p, present)[k]),
        p != q ==> !file_names(q).contains(unpack_targets(p, present)[k]),
{
    lemma_missing_positions_only_missing(present);
    let i = missing_positions(present)[k] as int;
    assert(unpack_targets(p, present)[k] == file_names(p)[i]);
    if p != q && file_names(q).contains(unpack_targets(p, present)[k]) {
        let j = choose|j: int| 0 <= j < file_names(q).len() && file_names(q)[j] == unpack_targets(p, present)[k];
        lemma_platform_file_sets_disjoint(p, q, i, j);
    }
}

} // verus!
