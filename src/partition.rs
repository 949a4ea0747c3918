//! Grouping records by their partition path.
//!
//! A group holds the positions of its records in the input, in input order.

use vstd::prelude::*;
use crate::record::{Record, partition_path};

verus! {

/// The records of one partition, by position in the input sequence.
pub struct PartitionGroup {
    pub path: String,
    pub rows: Vec<usize>,
}

/// The positions below `n` of the records whose partition path is `p`, in
/// increasing order.
pub open spec fn rows_with_path(recs: Seq<Record>, n: int, p: Seq<char>) -> Seq<usize>
    decreases n,
{
    if n <= 0 {
        Seq::empty()
    } else {
        let prev = rows_with_path(recs, n - 1, p);
        if partition_path(recs[n - 1]) == p {
            prev.push((n - 1) as usize)
        } else {
            prev
        }
    }
}

/// The number of rows over all groups.
pub open spec fn total_rows(gs: Seq<PartitionGroup>) -> int
    decreases gs.len(),
{
    if gs.len() == 0 {
        0
    } else {
        total_rows(gs.drop_last()) + gs.last().rows.len()
    }
}

/// `gs` groups `recs` by partition path: each group holds exactly the
/// records of its path, in input order, no group is empty, no two groups
/// share a path, and every record's path has a group.
pub open spec fn is_partitioning(recs: Seq<Record>, gs: Seq<PartitionGroup>) -> bool {
    &&& forall|j: int|
        0 <= j < gs.len() ==> (#[trigger] gs[j]).rows@ == rows_with_path(
            recs,
            recs.len() as int,
            gs[j].path@,
        )
    &&& forall|j: int| 0 <= j < gs.len() ==> (#[trigger] gs[j]).rows.len() > 0
    &&& forall|j1: int, j2: int|
        0 <= j1 < gs.len() && 0 <= j2 < gs.len() && j1 != j2 ==> (#[trigger] gs[j1]).path@
            != (#[trigger] gs[j2]).path@
    &&& forall|i: int| 0 <= i < recs.len() ==> has_group(gs, partition_path(#[trigger] recs[i]))
}

/// Some group has path `p`.
pub open spec fn has_group(gs: Seq<PartitionGroup>, p: Seq<char>) -> bool {
    exists|j: int| 0 <= j < gs.len() && (#[trigger] gs[j]).path@ == p
}

/// A position is among `rows_with_path(recs, n, p)` exactly when it is below
/// `n` and its record's path is `p`.
pub proof fn lemma_rows_with_path_contains(recs: Seq<Record>, n: int, p: Seq<char>, x: usize)
    requires
        0 <= n <= recs.len(),
        recs.len() <= usize::MAX,
    ensures
        rows_with_path(recs, n, p).contains(x) <==> (x < n && partition_path(recs[x as int])
            == p),
    decreases n,
{
    if n > 0 {
        lemma_rows_with_path_contains(recs, n - 1, p, x);
        let prev = rows_with_path(recs, n - 1, p);
        if partition_path(recs[n - 1]) == p {
            assert(prev.push((n - 1) as usize)[prev.len() as int] == (n - 1) as usize);
            if prev.contains(x) {
                let k = choose|k: int| 0 <= k < prev.len() && prev[k] == x;
                assert(prev.push((n - 1) as usize)[k] == x);
            }
            let cur = prev.push((n - 1) as usize);
            if cur.contains(x) && x != (n - 1) as usize {
                let k = choose|k: int| 0 <= k < cur.len() && #[trigger] cur[k] == x;
                assert(prev[k] == x);
            }
        }
    }
}

proof fn lemma_rows_empty(recs: Seq<Record>, n: int, p: Seq<char>)
    requires
        0 <= n <= recs.len(),
        forall|k: int| 0 <= k < n ==> partition_path(#[trigger] recs[k]) != p,
    ensures
        rows_with_path(recs, n, p) == Seq::<usize>::empty(),
    decreases n,
{
    if n > 0 {
        lemma_rows_empty(recs, n - 1, p);
    }
}

proof fn lemma_total_update(gs: Seq<PartitionGroup>, j: int, g: PartitionGroup)
    requires
        0 <= j < gs.len(),
    ensures
        total_rows(gs.update(j, g)) == total_rows(gs) - gs[j].rows.len() + g.rows.len(),
    decreases gs.len(),
{
    let u = gs.update(j, g);
    if j == gs.len() - 1 {
        assert(u.drop_last() =~= gs.drop_last());
    } else {
        assert(u.drop_last() =~= gs.drop_last().update(j, g));
        lemma_total_update(gs.drop_last(), j, g);
    }
}

/// Every record lies in exactly one group of a partitioning.
pub proof fn lemma_each_record_in_one_group(recs: Seq<Record>, gs: Seq<PartitionGroup>, i: int)
    requires
        is_partitioning(recs, gs),
        recs.len() <= usize::MAX,
        0 <= i < recs.len(),
    ensures
        exists|j: int| 0 <= j < gs.len() && (#[trigger] gs[j]).rows@.contains(i as usize),
        forall|j1: int, j2: int|
            0 <= j1 < gs.len() && 0 <= j2 < gs.len() && (#[trigger] gs[j1]).rows@.contains(
                i as usize,
            ) && (#[trigger] gs[j2]).rows@.contains(i as usize) ==> j1 == j2,
{
    let n = recs.len() as int;
    assert(has_group(gs, partition_path(recs[i])));
    let j = choose|j: int| 0 <= j < gs.len() && (#[trigger] gs[j]).path@ == partition_path(recs[i]);
    lemma_rows_with_path_contains(recs, n, gs[j].path@, i as usize);
    assert(gs[j].rows@.contains(i as usize));
    assert forall|j1: int, j2: int|
        0 <= j1 < gs.len() && 0 <= j2 < gs.len() && (#[trigger] gs[j1]).rows@.contains(
            i as usize,
        ) && (#[trigger] gs[j2]).rows@.contains(i as usize) implies j1 == j2 by {
        lemma_rows_with_path_contains(recs, n, gs[j1].path@, i as usize);
        lemma_rows_with_path_contains(recs, n, gs[j2].path@, i as usize);
    }
}

/// Three records, the first two sharing a partition path and the third on
/// another, make exactly two groups: one of two rows and one of one row.
pub proof fn lemma_three_records_two_groups(recs: Seq<Record>, gs: Seq<PartitionGroup>)
    requires
        recs.len() == 3,
        partition_path(recs[0]) == partition_path(recs[1]),
        partition_path(recs[0]) != partition_path(recs[2]),
        is_partitioning(recs, gs),
    ensures
        gs.len() == 2,
        exists|ja: int, jb: int|
            0 <= ja < 2 && 0 <= jb < 2 && (#[trigger] gs[ja]).path@ == partition_path(recs[0])
                && gs[ja].rows@ == seq![0usize, 1usize] && (#[trigger] gs[jb]).path@
                == partition_path(recs[2]) && gs[jb].rows@ == seq![2usize],
{
    let pa = partition_path(recs[0]);
    let pb = partition_path(recs[2]);
    reveal_with_fuel(rows_with_path, 4);
    assert(rows_with_path(recs, 3, pa) =~= seq![0usize, 1usize]);
    assert(rows_with_path(recs, 3, pb) =~= seq![2usize]);
    assert forall|j: int| 0 <= j < gs.len() implies (#[trigger] gs[j]).path@ == pa
        || gs[j].path@ == pb by {
        let x = gs[j].rows@[0];
        assert(gs[j].rows@.contains(x));
        lemma_rows_with_path_contains(recs, 3, gs[j].path@, x);
    }
    assert(has_group(gs, partition_path(recs[0])));
    assert(has_group(gs, partition_path(recs[2])));
    let ja = choose|j: int| 0 <= j < gs.len() && (#[trigger] gs[j]).path@ == pa;
    let jb = choose|j: int| 0 <= j < gs.len() && (#[trigger] gs[j]).path@ == pb;
    if gs.len() > 2 {
        assert(gs[0].path@ == pa || gs[0].path@ == pb);
        assert(gs[1].path@ == pa || gs[1].path@ == pb);
        assert(gs[2].path@ == pa || gs[2].path@ == pb);
        assert(false);
    }
    assert(ja != jb);
}

fn find_group(gs: &Vec<PartitionGroup>, p: &String) -> (r: Option<usize>)
    ensures
        match r {
            Some(j) => j < gs.len() && gs@[j as int].path@ == p@,
            None => forall|j: int| 0 <= j < gs.len() ==> (#[trigger] gs@[j]).path@ != p@,
        },
{
    let mut j: usize = 0;
    while j < gs.len()
        invariant
            j <= gs.len(),
            forall|m: int| 0 <= m < j ==> (#[trigger] gs@[m]).path@ != p@,
        decreases gs.len() - j,
    {
        if gs[j].path == *p {
            return Some(j);
        }
        j += 1;
    }
    None
}

/// Groups the records by partition path. Every record lands in the group of
/// its path, in input order, so the group sizes add up to the number of
/// records.
pub fn group_records(recs: &Vec<Record>) -> (gs: Vec<PartitionGroup>)
    ensures
        is_partitioning(recs@, gs@),
        total_rows(gs@) == recs.len(),
{
    let mut gs: Vec<PartitionGroup> = Vec::new();
    let n = recs.len();
    for i in 0..n
        invariant
            n == recs.len(),
            forall|j: int|
                0 <= j < gs.len() ==> (#[trigger] gs@[j]).rows@ == rows_with_path(
                    recs@,
                    i as int,
                    gs@[j].path@,
                ),
            forall|j: int| 0 <= j < gs.len() ==> (#[trigger] gs@[j]).rows.len() > 0,
            forall|j1: int, j2: int|
                0 <= j1 < gs.len() && 0 <= j2 < gs.len() && j1 != j2 ==> (#[trigger] gs@[j1]).path@
                    != (#[trigger] gs@[j2]).path@,
            forall|k: int| 0 <= k < i ==> has_group(gs@, partition_path(#[trigger] recs@[k])),
            total_rows(gs@) == i,
    {
        let p = recs[i].partition_path();
        let ghost old_gs = gs@;
        match find_group(&gs, &p) {
            Some(j) => {
                let mut g = gs.remove(j);
                g.rows.push(i);
                let ghost ng = g;
                gs.insert(j, g);
                proof {
                    assert(gs@ =~= old_gs.update(j as int, ng));
                    lemma_total_update(old_gs, j as int, ng);
                    assert(gs@[j as int].path@ == partition_path(recs@[i as int]));
                    assert forall|k: int| 0 <= k < i + 1 implies has_group(
                        gs@,
                        partition_path(#[trigger] recs@[k]),
                    ) by {
                        if k < i {
                            let jj = choose|jj: int|
                                0 <= jj < old_gs.len() && (#[trigger] old_gs[jj]).path@
                                    == partition_path(recs@[k]);
                            assert(gs@[jj].path@ == old_gs[jj].path@);
                        } else {
                            assert(gs@[j as int].path@ == partition_path(recs@[k]));
                        }
                    }
                }
            },
            None => {
                proof {
                    assert forall|k: int| 0 <= k < i implies partition_path(
                        #[trigger] recs@[k],
                    ) != p@ by {
                        let jj = choose|jj: int|
                            0 <= jj < old_gs.len() && (#[trigger] old_gs[jj]).path@
                                == partition_path(recs@[k]);
                    }
                    lemma_rows_empty(recs@, i as int, p@);
                }
                let mut rows: Vec<usize> = Vec::new();
                rows.push(i);
                gs.push(PartitionGroup { path: p, rows });
                proof {
                    assert(gs@.drop_last() =~= old_gs);
                    assert(gs@[old_gs.len() as int].rows@ =~= rows_with_path(
                        recs@,
                        i + 1,
                        p@,
                    ));
                    assert forall|k: int| 0 <= k < i + 1 implies has_group(
                        gs@,
                        partition_path(#[trigger] recs@[k]),
                    ) by {
                        if k < i {
                            let jj = choose|jj: int|
                                0 <= jj < old_gs.len() && (#[trigger] old_gs[jj]).path@
                                    == partition_path(recs@[k]);
                            assert(gs@[jj].path@ == old_gs[jj].path@);
                        } else {
                            assert(gs@[old_gs.len() as int].path@ == partition_path(recs@[k]));
                        }
                    }
                }
            },
        }
    }
    gs
}

} // verus!
