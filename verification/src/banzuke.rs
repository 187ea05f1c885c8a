//! Merging the two sides of a ranking list into one list in display order.

use crate::model::{entries_view, BanzukeEntry, BanzukeEntryView};
use vstd::prelude::*;

verus! {

/// One more than the greatest rank value.
pub const RANK_LIMIT: u64 = 0x1_0000_0000;

/// The position of the last entry of `side` that has the rank value `rank`, or
/// -1 where no entry has it.
pub open spec fn last_at_rank(side: Seq<BanzukeEntryView>, rank: int) -> int
    decreases side.len(),
{
    if side.len() == 0 {
        -1
    } else if side.last().rank_value == rank {
        side.len() - 1
    } else {
        last_at_rank(side.drop_last(), rank)
    }
}

/// What one side shows at a rank value: its last entry with that rank value,
/// or nothing.
pub open spec fn side_at_rank(side: Seq<BanzukeEntryView>, rank: int) -> Seq<BanzukeEntryView> {
    let i = last_at_rank(side, rank);
    if i >= 0 {
        seq![side[i]]
    } else {
        Seq::empty()
    }
}

/// The merged list for the rank values from `lo` up to, not including, `hi`:
/// rank value by rank value in ascending order, at each one the east entry,
/// then the west entry, each where there is one.
pub open spec fn merged_between(
    east: Seq<BanzukeEntryView>,
    west: Seq<BanzukeEntryView>,
    lo: int,
    hi: int,
) -> Seq<BanzukeEntryView>
    decreases hi - lo,
{
    if hi <= lo {
        Seq::empty()
    } else {
        merged_between(east, west, lo, hi - 1) + side_at_rank(east, hi - 1) + side_at_rank(
            west,
            hi - 1,
        )
    }
}

/// The merged list of all rank values.
pub open spec fn merged(east: Seq<BanzukeEntryView>, west: Seq<BanzukeEntryView>) -> Seq<
    BanzukeEntryView,
> {
    merged_between(east, west, 0, RANK_LIMIT as int)
}

/// Whether no entry of `side` has a rank value from `lo` up to, not
/// including, `hi`.
pub open spec fn none_between(side: Seq<BanzukeEntryView>, lo: int, hi: int) -> bool {
    forall|i: int| 0 <= i < side.len() ==> !(lo <= (#[trigger] side[i]).rank_value < hi)
}

/// `last_at_rank` gives the position of an entry with the rank value asked
/// for, behind which no entry has it, or -1 where no entry has it.
pub proof fn lemma_last_at_rank(side: Seq<BanzukeEntryView>, rank: int)
    ensures
        -1 <= last_at_rank(side, rank) < side.len(),
        last_at_rank(side, rank) >= 0 ==> side[last_at_rank(side, rank)].rank_value == rank,
        forall|j: int|
            last_at_rank(side, rank) < j < side.len() ==> (#[trigger] side[j]).rank_value != rank,
    decreases side.len(),
{
    if side.len() > 0 && side.last().rank_value != rank {
        let rest = side.drop_last();
        lemma_last_at_rank(rest, rank);
        assert forall|j: int| last_at_rank(side, rank) < j < side.len() implies (#[trigger] side[j]).rank_value
            != rank by {
            if j < rest.len() {
                assert(rest[j] == side[j]);
            }
        }
    }
}

/// Rank values that neither side has add nothing to the merged list.
pub proof fn lemma_empty_stretch(
    east: Seq<BanzukeEntryView>,
    west: Seq<BanzukeEntryView>,
    lo: int,
    mid: int,
    hi: int,
)
    requires
        lo <= mid <= hi,
        none_between(east, mid, hi),
        none_between(west, mid, hi),
    ensures
        merged_between(east, west, lo, hi) == merged_between(east, west, lo, mid),
    decreases hi - mid,
{
    if mid < hi {
        lemma_empty_stretch(east, west, lo, mid, hi - 1);
        lemma_last_at_rank(east, hi - 1);
        lemma_last_at_rank(west, hi - 1);
        assert(side_at_rank(east, hi - 1) =~= Seq::empty());
        assert(side_at_rank(west, hi - 1) =~= Seq::empty());
        assert(merged_between(east, west, lo, hi) =~= merged_between(east, west, lo, hi - 1));
    }
}

/// Every entry of the merged list for a stretch of rank values has a rank
/// value of that stretch.
pub proof fn lemma_merged_ranks(
    east: Seq<BanzukeEntryView>,
    west: Seq<BanzukeEntryView>,
    lo: int,
    hi: int,
)
    ensures
        forall|k: int|
            0 <= k < merged_between(east, west, lo, hi).len() ==> lo <= (
            #[trigger] merged_between(east, west, lo, hi)[k]).rank_value < hi,
    decreases hi - lo,
{
    if lo < hi {
        lemma_merged_ranks(east, west, lo, hi - 1);
        lemma_last_at_rank(east, hi - 1);
        lemma_last_at_rank(west, hi - 1);
    }
}

/// Whether the rank values of a list ascend: no entry has a smaller rank value
/// than one before it, and entries that are two or more places apart have
/// different rank values, so that a rank value has two entries at most and
/// those side by side.
pub open spec fn ranks_ascend(list: Seq<BanzukeEntryView>) -> bool {
    &&& forall|i: int, j: int|
        0 <= i < j < list.len() ==> (#[trigger] list[i]).rank_value <= (
        #[trigger] list[j]).rank_value
    &&& forall|i: int, j: int|
        0 <= i && i + 2 <= j < list.len() ==> (#[trigger] list[i]).rank_value < (
        #[trigger] list[j]).rank_value
}

/// The rank values of the merged list for a stretch of rank values ascend.
pub proof fn lemma_merged_between_ascends(
    east: Seq<BanzukeEntryView>,
    west: Seq<BanzukeEntryView>,
    lo: int,
    hi: int,
)
    ensures
        ranks_ascend(merged_between(east, west, lo, hi)),
    decreases hi - lo,
{
    if lo < hi {
        lemma_merged_between_ascends(east, west, lo, hi - 1);
        lemma_merged_ranks(east, west, lo, hi - 1);
        lemma_merged_ranks(east, west, lo, hi);
        lemma_last_at_rank(east, hi - 1);
        lemma_last_at_rank(west, hi - 1);
        let before = merged_between(east, west, lo, hi - 1);
        let all = merged_between(east, west, lo, hi);
        assert(all.len() <= before.len() + 2);
        assert forall|i: int, j: int| 0 <= i < j < all.len() implies (#[trigger] all[i]).rank_value
            <= (#[trigger] all[j]).rank_value by {
            if j < before.len() {
                assert(all[i] == before[i]);
                assert(all[j] == before[j]);
            } else if i < before.len() {
                assert(all[i] == before[i]);
            }
        }
        assert forall|i: int, j: int| 0 <= i && i + 2 <= j < all.len() implies (
        #[trigger] all[i]).rank_value < (#[trigger] all[j]).rank_value by {
            if j < before.len() {
                assert(all[i] == before[i]);
                assert(all[j] == before[j]);
            } else {
                assert(i < before.len());
                assert(all[i] == before[i]);
            }
        }
    }
}

/// The rank values of the merged list ascend, with two entries at most for a
/// rank value.
pub proof fn lemma_merged_ascends(east: Seq<BanzukeEntryView>, west: Seq<BanzukeEntryView>)
    ensures
        ranks_ascend(merged(east, west)),
{
    lemma_merged_between_ascends(east, west, 0, RANK_LIMIT as int);
}

/// The merged list for a stretch of rank values is the list for its lower
/// part followed by the list for its upper part.
pub proof fn lemma_merged_split(
    east: Seq<BanzukeEntryView>,
    west: Seq<BanzukeEntryView>,
    lo: int,
    mid: int,
    hi: int,
)
    requires
        lo <= mid <= hi,
    ensures
        merged_between(east, west, lo, hi) == merged_between(east, west, lo, mid) + merged_between(
            east,
            west,
            mid,
            hi,
        ),
    decreases hi - mid,
{
    if mid < hi {
        lemma_merged_split(east, west, lo, mid, hi - 1);
        assert(merged_between(east, west, lo, hi) =~= merged_between(east, west, lo, mid)
            + merged_between(east, west, mid, hi));
    } else {
        assert(merged_between(east, west, lo, hi) =~= merged_between(east, west, lo, mid)
            + merged_between(east, west, mid, hi));
    }
}

/// Where both sides have an entry at a rank value, the merged list holds the
/// east entry and directly behind it the west entry: at the place that
/// follows the entries of all smaller rank values.
pub proof fn lemma_east_directly_before_west(
    east: Seq<BanzukeEntryView>,
    west: Seq<BanzukeEntryView>,
    rank: int,
)
    requires
        0 <= rank < RANK_LIMIT,
        last_at_rank(east, rank) >= 0,
        last_at_rank(west, rank) >= 0,
    ensures
        ({
            let at = merged_between(east, west, 0, rank).len() as int;
            &&& at + 1 < merged(east, west).len()
            &&& merged(east, west)[at] == east[last_at_rank(east, rank)]
            &&& merged(east, west)[at + 1] == west[last_at_rank(west, rank)]
        }),
{
    lemma_merged_split(east, west, 0, rank + 1, RANK_LIMIT as int);
    let upto = merged_between(east, west, 0, rank + 1);
    assert(upto == merged_between(east, west, 0, rank) + side_at_rank(east, rank) + side_at_rank(
        west,
        rank,
    ));
    let at = merged_between(east, west, 0, rank).len() as int;
    assert(upto.len() == at + 2);
    assert(upto[at] == east[last_at_rank(east, rank)]);
    assert(upto[at + 1] == west[last_at_rank(west, rank)]);
    assert(merged(east, west)[at] == upto[at]);
    assert(merged(east, west)[at + 1] == upto[at + 1]);
}

/// The least rank value of `side` that is at least `from`, if there is one.
fn least_rank_from(side: &Vec<BanzukeEntry>, from: u64) -> (r: Option<u32>)
    ensures
        r is None ==> none_between(entries_view(side@), from as int, RANK_LIMIT as int),
        r is Some ==> from <= r.unwrap() && none_between(
            entries_view(side@),
            from as int,
            r.unwrap() as int,
        ) && exists|i: int| 0 <= i < side.len() && (#[trigger] side@[i]).rank_value == r.unwrap(),
{
    let mut best: Option<u32> = None;
    let mut i: usize = 0;
    while i < side.len()
        invariant
            i <= side.len(),
            best is None ==> forall|j: int|
                0 <= j < i ==> (#[trigger] side@[j]).rank_value < from,
            best is Some ==> from <= best.unwrap() && (forall|j: int|
                0 <= j < i ==> !(from <= (#[trigger] side@[j]).rank_value < best.unwrap()))
                && exists|j: int| 0 <= j < i && (#[trigger] side@[j]).rank_value == best.unwrap(),
        decreases side.len() - i,
    {
        let rank = side[i].rank_value;
        if rank as u64 >= from {
            let better = match best {
                Some(b) => rank < b,
                None => true,
            };
            if better {
                best = Some(rank);
            }
        }
        i = i + 1;
    }
    proof {
        let view = entries_view(side@);
        assert forall|j: int| 0 <= j < view.len() implies view[j].rank_value == side@[j].rank_value by {}
    }
    best
}

/// The position of the last entry of `side` with the rank value `rank`, if
/// there is one.
fn last_with_rank(side: &Vec<BanzukeEntry>, rank: u32) -> (r: Option<usize>)
    ensures
        r is None <==> last_at_rank(entries_view(side@), rank as int) == -1,
        r is Some ==> r.unwrap() == last_at_rank(entries_view(side@), rank as int) && r.unwrap()
            < side.len(),
{
    let ghost view = entries_view(side@);
    let mut found: Option<usize> = None;
    let mut i: usize = 0;
    while i < side.len()
        invariant
            i <= side.len(),
            view == entries_view(side@),
            found is None <==> last_at_rank(view.take(i as int), rank as int) == -1,
            found is Some ==> found.unwrap() == last_at_rank(view.take(i as int), rank as int)
                && found.unwrap() < i,
        decreases side.len() - i,
    {
        assert(view.take(i + 1).drop_last() =~= view.take(i as int));
        assert(view.take(i + 1).last() == side@[i as int]@);
        if side[i].rank_value == rank {
            found = Some(i);
        }
        i = i + 1;
    }
    assert(view.take(i as int) =~= view);
    found
}

/// Merges the two sides of a ranking list: rank value by rank value in
/// ascending order, at each one the east entry, then the west entry. Where a
/// side lists a rank value more than once, its last entry with it counts.
pub fn merge_banzuke(east: Vec<BanzukeEntry>, west: Vec<BanzukeEntry>) -> (list: Vec<BanzukeEntry>)
    ensures
        entries_view(list@) == merged(entries_view(east@), entries_view(west@)),
{
    let ghost e = entries_view(east@);
    let ghost w = entries_view(west@);
    let mut list: Vec<BanzukeEntry> = Vec::new();
    let mut next: u64 = 0;
    assert(entries_view(list@) =~= merged_between(e, w, 0, 0));
    loop
        invariant_except_break
            next <= RANK_LIMIT,
            e == entries_view(east@),
            w == entries_view(west@),
            entries_view(list@) == merged_between(e, w, 0, next as int),
        ensures
            entries_view(list@) == merged(e, w),
        decreases RANK_LIMIT - next,
    {
        let rank: u32 = match (least_rank_from(&east, next), least_rank_from(&west, next)) {
            (Some(a), Some(b)) => if a <= b {
                a
            } else {
                b
            },
            (Some(a), None) => a,
            (None, Some(b)) => b,
            (None, None) => {
                proof {
                    lemma_empty_stretch(e, w, 0, next as int, RANK_LIMIT as int);
                }
                break ;
            },
        };
        proof {
            lemma_empty_stretch(e, w, 0, next as int, rank as int);
            lemma_last_at_rank(e, rank as int);
            lemma_last_at_rank(w, rank as int);
        }
        let ghost before = entries_view(list@);
        if let Some(i) = last_with_rank(&east, rank) {
            list.push(east[i].clone());
        }
        assert(entries_view(list@) =~= before + side_at_rank(e, rank as int));
        let ghost with_east = entries_view(list@);
        if let Some(j) = last_with_rank(&west, rank) {
            list.push(west[j].clone());
        }
        assert(entries_view(list@) =~= with_east + side_at_rank(w, rank as int));
        next = rank as u64 + 1;
    }
    list
}

} // verus!
