//! Paging through the upstream leaderboard: the fixed fetch plan (ten pages
//! of ten records, addressed by a `skip` offset) and the best-effort
//! aggregation of per-page outcomes into one ordered snapshot.

use vstd::prelude::*;
use crate::player::Player;

verus! {

/// How many records one upstream page holds.
pub const PAGE_SIZE: u32 = 10;

/// How many pages one full refresh fetches (the fixed top-100 window).
pub const PAGE_COUNT: u32 = 10;

/// The outcome of fetching one page. A network failure and a non-decodable
/// body are both `Failed`; `Fetched` keeps the page's records verbatim, in
/// upstream order. `Fetched` of an empty list (a legitimately empty page) is
/// distinct from `Failed`.
pub enum PageResult {
    Fetched(Vec<Player>),
    Failed,
}

/// What one page outcome contributes to the aggregated snapshot: its records
/// for a fetched page, nothing for a failed one.
pub open spec fn page_records(p: PageResult) -> Seq<Player> {
    match p {
        PageResult::Fetched(v) => v@,
        PageResult::Failed => Seq::empty(),
    }
}

/// The aggregated snapshot: the concatenation of every page's contribution,
/// in page order, with no reordering and no deduplication.
pub open spec fn spec_aggregate(pages: Seq<PageResult>) -> Seq<Player>
    decreases pages.len(),
{
    if pages.len() == 0 {
        Seq::empty()
    } else {
        spec_aggregate(pages.drop_last()) + page_records(pages.last())
    }
}

/// Whether every page of a refresh cycle was fetched successfully.
pub open spec fn spec_all_ok(pages: Seq<PageResult>) -> bool {
    forall|i: int| 0 <= i < pages.len() ==> pages[i] is Fetched
}

/// The `skip` offset of the page with the given index.
pub open spec fn skip_of(i: int) -> int {
    i * (PAGE_SIZE as int)
}

/// The fetch plan: the `skip` offsets of a full refresh, in the order the
/// pages are to be fetched — strictly ascending, from 0 in steps of
/// `PAGE_SIZE`.
pub fn page_skips() -> (r: Vec<u32>)
    ensures
        r@.len() == PAGE_COUNT,
        forall|i: int| 0 <= i < r@.len() ==> #[trigger] r@[i] == skip_of(i),
{
    let mut r: Vec<u32> = Vec::new();
    let mut k: u32 = 0;
    while k < PAGE_COUNT
        invariant
            k <= PAGE_COUNT,
            r@.len() == k,
            forall|i: int| 0 <= i < r@.len() ==> #[trigger] r@[i] == skip_of(i),
        decreases PAGE_COUNT - k,
    {
        r.push(k * PAGE_SIZE);
        k += 1;
    }
    r
}

/// The fetch plan visits pages in strictly ascending `skip` order.
pub proof fn lemma_skips_strictly_ascending(i: int, j: int)
    requires
        0 <= i < j < PAGE_COUNT,
    ensures
        skip_of(i) < skip_of(j),
{
}

/// Aggregates the outcome of one refresh cycle into a single ordered
/// snapshot: each page's records in page order, a failed page contributing
/// nothing. Best-effort by design: a failure never aborts the aggregation,
/// it only shortens the result.
pub fn leaderboard_players(pages: &Vec<PageResult>) -> (r: Vec<Player>)
    ensures
        r@ == spec_aggregate(pages@),
{
    let mut r: Vec<Player> = Vec::new();
    let mut i: usize = 0;
    while i < pages.len()
        invariant
            i <= pages.len(),
            r@ == spec_aggregate(pages@.take(i as int)),
        decreases pages.len() - i,
    {
        match &pages[i] {
            PageResult::Fetched(v) => {
                let mut j: usize = 0;
                while j < v.len()
                    invariant
                        i < pages.len(),
                        j <= v.len(),
                        pages@[i as int] == PageResult::Fetched(*v),
                        r@ == spec_aggregate(pages@.take(i as int)) + v@.take(j as int),
                    decreases v.len() - j,
                {
                    r.push(v[j].clone());
                    proof {
                        assert(v@.take(j as int).push(v@[j as int]) =~= v@.take(j as int + 1));
                        assert(r@ == spec_aggregate(pages@.take(i as int)) + v@.take(
                            j as int + 1,
                        ));
                    }
                    j += 1;
                }
                proof {
                    assert(v@.take(v@.len() as int) =~= v@);
                }
            },
            PageResult::Failed => {
                proof {
                    assert(r@ =~= spec_aggregate(pages@.take(i as int)) + page_records(
                        pages@[i as int],
                    ));
                }
            },
        }
        proof {
            assert(pages@.take(i as int + 1).drop_last() =~= pages@.take(i as int));
            assert(pages@.take(i as int + 1).last() == pages@[i as int]);
            assert(spec_aggregate(pages@.take(i as int + 1)) == spec_aggregate(
                pages@.take(i as int),
            ) + page_records(pages@[i as int]));
        }
        i += 1;
    }
    proof {
        assert(pages@.take(pages@.len() as int) =~= pages@);
    }
    r
}

/// Aggregation concatenates in order and never reorders: splitting a refresh
/// cycle anywhere splits its aggregated snapshot at the same point.
pub proof fn lemma_aggregate_concat(a: Seq<PageResult>, b: Seq<PageResult>)
    ensures
        spec_aggregate(a + b) == spec_aggregate(a) + spec_aggregate(b),
    decreases b.len(),
{
    if b.len() == 0 {
        assert(a + b =~= a);
        assert(spec_aggregate(a) + Seq::<Player>::empty() =~= spec_aggregate(a));
    } else {
        lemma_aggregate_concat(a, b.drop_last());
        assert((a + b).drop_last() =~= a + b.drop_last());
        assert((a + b).last() == b.last());
        assert(spec_aggregate(a) + (spec_aggregate(b.drop_last()) + page_records(b.last()))
            =~= (spec_aggregate(a) + spec_aggregate(b.drop_last())) + page_records(b.last()));
    }
}

/// A refresh cycle in which the page at index 3 (skip 30) fails while every
/// other page yields a full ten records still aggregates, without aborting,
/// to exactly the successful pages' records in page order — ninety records,
/// not one hundred.
pub proof fn lemma_partial_failure(pages: Seq<PageResult>)
    requires
        pages.len() == PAGE_COUNT,
        pages[3] is Failed,
        forall|i: int|
            0 <= i < pages.len() && i != 3 ==> pages[i] is Fetched && page_records(
                #[trigger] pages[i],
            ).len() == PAGE_SIZE,
    ensures
        spec_aggregate(pages) == page_records(pages[0]) + page_records(pages[1]) + page_records(
            pages[2],
        ) + page_records(pages[4]) + page_records(pages[5]) + page_records(pages[6])
            + page_records(pages[7]) + page_records(pages[8]) + page_records(pages[9]),
        spec_aggregate(pages).len() == (PAGE_COUNT - 1) * PAGE_SIZE,
{
    assert forall|k: int| 1 <= k <= pages.len() implies #[trigger] spec_aggregate(pages.take(k))
        == spec_aggregate(pages.take(k - 1)) + page_records(pages[k - 1]) by {
        assert(pages.take(k).drop_last() =~= pages.take(k - 1));
        assert(pages.take(k).last() == pages[k - 1]);
    }
    assert(pages.take(0) =~= Seq::<PageResult>::empty());
    assert(spec_aggregate(pages.take(1)) == spec_aggregate(pages.take(0)) + page_records(
        pages[0],
    ));
    assert(spec_aggregate(pages.take(2)) == spec_aggregate(pages.take(1)) + page_records(
        pages[1],
    ));
    assert(spec_aggregate(pages.take(3)) == spec_aggregate(pages.take(2)) + page_records(
        pages[2],
    ));
    assert(spec_aggregate(pages.take(4)) == spec_aggregate(pages.take(3)) + page_records(
        pages[3],
    ));
    assert(spec_aggregate(pages.take(5)) == spec_aggregate(pages.take(4)) + page_records(
        pages[4],
    ));
    assert(spec_aggregate(pages.take(6)) == spec_aggregate(pages.take(5)) + page_records(
        pages[5],
    ));
    assert(spec_aggregate(pages.take(7)) == spec_aggregate(pages.take(6)) + page_records(
        pages[6],
    ));
    assert(spec_aggregate(pages.take(8)) == spec_aggregate(pages.take(7)) + page_records(
        pages[7],
    ));
    assert(spec_aggregate(pages.take(9)) == spec_aggregate(pages.take(8)) + page_records(
        pages[8],
    ));
    assert(spec_aggregate(pages.take(10)) == spec_aggregate(pages.take(9)) + page_records(
        pages[9],
    ));
    assert(pages.take(pages.len() as int) =~= pages);
    assert(page_records(pages[3]) == Seq::<Player>::empty());
    assert(Seq::<Player>::empty() + page_records(pages[0]) =~= page_records(pages[0]));
    assert((page_records(pages[0]) + page_records(pages[1]) + page_records(pages[2]))
        + Seq::<Player>::empty() =~= page_records(pages[0]) + page_records(pages[1])
        + page_records(pages[2]));
}

/// Whether every page of the cycle succeeded; exactly `spec_all_ok`.
pub fn all_pages_ok(pages: &Vec<PageResult>) -> (r: bool)
    ensures
        r == spec_all_ok(pages@),
{
    let mut i: usize = 0;
    while i < pages.len()
        invariant
            i <= pages.len(),
            forall|k: int| 0 <= k < i ==> pages@[k] is Fetched,
        decreases pages.len() - i,
    {
        match &pages[i] {
            PageResult::Fetched(_) => {},
            PageResult::Failed => {
                return false;
            },
        }
        i += 1;
    }
    true
}

} // verus!
