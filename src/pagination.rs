//! The model of cursor-based paging through the transaction feed.
//!
//! The feed is the ledger's committed transactions, identified by their state
//! versions in strictly increasing order. A page request names a lower bound
//! (the first state version wanted) and a page size; the endpoint answers with
//! the first items of the feed at or after that bound. After a page, a stream
//! moves its bound to just past the last item it received, or keeps it when
//! the page was empty.
use vstd::prelude::*;

verus! {

/// The state versions of a feed rise strictly.
pub open spec fn strictly_increasing(feed: Seq<u64>) -> bool {
    forall|i: int, j: int| 0 <= i < j < feed.len() ==> feed[i] < feed[j]
}

/// The number of items at the head of the feed that lie before `bound`: on a
/// strictly increasing feed, the index of the first item at or after it.
pub open spec fn window_start(feed: Seq<u64>, bound: int) -> int
    decreases feed.len(),
{
    if feed.len() == 0 {
        0
    } else if feed[0] < bound {
        1 + window_start(feed.drop_first(), bound)
    } else {
        0
    }
}

/// The page that the endpoint serves for a lower bound and a page size: the
/// first `limit` items of the feed at or after `bound`.
pub open spec fn served_page(feed: Seq<u64>, bound: int, limit: nat) -> Seq<u64> {
    let start = window_start(feed, bound);
    let end = if start + limit <= feed.len() {
        start + limit
    } else {
        feed.len() as int
    };
    feed.subrange(start, end)
}

/// The lower bound after a page: just past its last item, or unchanged when
/// the page is empty.
pub open spec fn next_bound(bound: int, page: Seq<u64>) -> int {
    if page.len() == 0 {
        bound
    } else {
        page.last() + 1
    }
}

/// The items of `count` successive pages, each asked for at the bound that the
/// previous one left.
pub open spec fn pages_read(feed: Seq<u64>, bound: int, limit: nat, count: nat) -> Seq<u64>
    decreases count,
{
    if count == 0 {
        Seq::empty()
    } else {
        let page = served_page(feed, bound, limit);
        page + pages_read(feed, next_bound(bound, page), limit, (count - 1) as nat)
    }
}

/// On a strictly increasing feed, the window starts at the first item at or
/// after the bound: every item before it lies below the bound, every later one
/// at or above it.
pub proof fn lemma_window_start(feed: Seq<u64>, bound: int)
    requires
        strictly_increasing(feed),
    ensures
        0 <= window_start(feed, bound) <= feed.len(),
        forall|j: int| 0 <= j < window_start(feed, bound) ==> feed[j] < bound,
        forall|j: int| window_start(feed, bound) <= j < feed.len() ==> feed[j] >= bound,
    decreases feed.len(),
{
    if feed.len() > 0 {
        let rest = feed.drop_first();
        assert(strictly_increasing(rest)) by {
            assert forall|i: int, j: int| 0 <= i < j < rest.len() implies rest[i] < rest[j] by {
                assert(rest[i] == feed[i + 1] && rest[j] == feed[j + 1]);
            }
        }
        lemma_window_start(rest, bound);
        if feed[0] < bound {
            assert forall|j: int| 0 <= j < window_start(feed, bound) implies feed[j] < bound by {
                if j > 0 {
                    assert(feed[j] == rest[j - 1]);
                }
            }
            assert forall|j: int|
                window_start(feed, bound) <= j < feed.len() implies feed[j] >= bound by {
                assert(feed[j] == rest[j - 1]);
            }
        } else {
            assert forall|j: int| 0 <= j < feed.len() implies feed[j] >= bound by {
                if j > 0 {
                    assert(feed[0] < feed[j]);
                }
            }
        }
    }
}

/// On a strictly increasing feed, an index that splits the feed into the
/// items below the bound and those at or above it is the window's start.
pub proof fn lemma_window_start_unique(feed: Seq<u64>, bound: int, i: int)
    requires
        strictly_increasing(feed),
        0 <= i <= feed.len(),
        forall|j: int| 0 <= j < i ==> feed[j] < bound,
        forall|j: int| i <= j < feed.len() ==> feed[j] >= bound,
    ensures
        window_start(feed, bound) == i,
{
    lemma_window_start(feed, bound);
    let w = window_start(feed, bound);
    if w < i {
        assert(feed[w] >= bound);
    } else if w > i {
        assert(feed[i] < bound);
    }
}

/// One page: the window for the bound that a page leaves starts right after
/// that page. Nothing is skipped and nothing is served twice; after an empty
/// page the same window is asked for again.
pub proof fn lemma_next_page_follows(feed: Seq<u64>, bound: int, limit: nat)
    requires
        strictly_increasing(feed),
    ensures
        window_start(feed, next_bound(bound, served_page(feed, bound, limit))) == window_start(
            feed,
            bound,
        ) + served_page(feed, bound, limit).len(),
{
    lemma_window_start(feed, bound);
    let start = window_start(feed, bound);
    let page = served_page(feed, bound, limit);
    let end = start + page.len();
    if page.len() > 0 {
        let next = next_bound(bound, page);
        assert(page.last() == feed[end - 1]);
        assert forall|j: int| 0 <= j < end implies feed[j] < next by {
            if j < end - 1 {
                assert(feed[j] < feed[end - 1]);
            }
        }
        assert forall|j: int| end <= j < feed.len() implies feed[j] >= next by {
            assert(feed[end - 1] < feed[j]);
        }
        lemma_window_start_unique(feed, next, end);
    }
}

/// Paging through a strictly increasing feed reads it in order with no
/// duplicate and no gap: the items of `count` successive pages, each asked for
/// at the bound the previous one left, are exactly the run of the feed that
/// starts at the first item at or after the starting bound, `count * limit`
/// items long or up to the tip of the feed. Once the tip is reached, pages are
/// empty.
pub proof fn lemma_pages_read_feed_in_order(feed: Seq<u64>, bound: int, limit: nat, count: nat)
    requires
        strictly_increasing(feed),
    ensures
        ({
            let start = window_start(feed, bound);
            let end = if start + count * limit <= feed.len() {
                start + count * limit
            } else {
                feed.len() as int
            };
            pages_read(feed, bound, limit, count) == feed.subrange(start, end)
        }),
    decreases count,
{
    lemma_window_start(feed, bound);
    let start = window_start(feed, bound);
    if count > 0 {
        let page = served_page(feed, bound, limit);
        let next = next_bound(bound, page);
        lemma_next_page_follows(feed, bound, limit);
        lemma_pages_read_feed_in_order(feed, next, limit, (count - 1) as nat);
        let mid = start + page.len();
        let rest_end = if mid + (count - 1) * limit <= feed.len() {
            mid + (count - 1) * limit
        } else {
            feed.len() as int
        };
        let end = if start + count * limit <= feed.len() {
            start + count * limit
        } else {
            feed.len() as int
        };
        assert(count * limit == limit + (count - 1) * limit) by (nonlinear_arith)
            requires
                count > 0,
        ;
        assert((count - 1) * limit >= 0) by (nonlinear_arith)
            requires
                count > 0,
        ;
        assert(rest_end == end);
        assert(page == feed.subrange(start, mid));
        assert(window_start(feed, next) == mid);
        assert(pages_read(feed, next, limit, (count - 1) as nat) == feed.subrange(mid, rest_end));
        assert(pages_read(feed, bound, limit, count) == page + pages_read(
            feed,
            next,
            limit,
            (count - 1) as nat,
        ));
        assert(feed.subrange(start, mid) + feed.subrange(mid, end) =~= feed.subrange(start, end));
    } else {
        assert(count * limit == 0) by (nonlinear_arith)
            requires
                count == 0,
        ;
        assert(pages_read(feed, bound, limit, count) =~= feed.subrange(start, start));
    }
}

/// Resuming at the tip: when a page came back empty and new items were then
/// appended to the feed at or after the bound, the next page starts with the
/// first new item, so that nothing is read twice or missed.
pub proof fn lemma_resume_after_tip(feed: Seq<u64>, more: Seq<u64>, bound: int, limit: nat)
    requires
        strictly_increasing(feed + more),
        served_page(feed, bound, limit).len() == 0,
        limit > 0,
        forall|j: int| 0 <= j < more.len() ==> more[j] >= bound,
    ensures
        served_page(feed + more, bound, limit) == more.take(
            if limit <= more.len() {
                limit as int
            } else {
                more.len() as int
            },
        ),
{
    let all = feed + more;
    assert(strictly_increasing(feed)) by {
        assert forall|i: int, j: int| 0 <= i < j < feed.len() implies feed[i] < feed[j] by {
            assert(feed[i] == all[i] && feed[j] == all[j]);
        }
    }
    lemma_window_start(feed, bound);
    assert(window_start(feed, bound) == feed.len());
    assert forall|j: int| 0 <= j < feed.len() implies all[j] < bound by {
        assert(all[j] == feed[j]);
    }
    assert forall|j: int| feed.len() <= j < all.len() implies all[j] >= bound by {
        assert(all[j] == more[j - feed.len()]);
    }
    lemma_window_start_unique(all, bound, feed.len() as int);
    let n = if limit <= more.len() {
        limit as int
    } else {
        more.len() as int
    };
    assert(served_page(all, bound, limit) =~= more.take(n));
}

/// The lower bound after `count` successive pages, each asked for at the bound
/// that the previous one left: what a stream's bound becomes after `count`
/// successful fetches.
pub open spec fn bound_after(feed: Seq<u64>, bound: int, limit: nat, count: nat) -> int
    decreases count,
{
    if count == 0 {
        bound
    } else {
        bound_after(
            feed,
            next_bound(bound, served_page(feed, bound, limit)),
            limit,
            (count - 1) as nat,
        )
    }
}

/// After any number of pages, the stream's bound points right after
/// everything read so far: the next page starts at the first item not yet
/// read, so nothing is read twice and nothing is skipped, however many pages
/// came before.
pub proof fn lemma_bound_after_pages(feed: Seq<u64>, bound: int, limit: nat, count: nat)
    requires
        strictly_increasing(feed),
    ensures
        window_start(feed, bound_after(feed, bound, limit, count)) == window_start(feed, bound)
            + pages_read(feed, bound, limit, count).len(),
    decreases count,
{
    if count > 0 {
        let page = served_page(feed, bound, limit);
        let next = next_bound(bound, page);
        lemma_next_page_follows(feed, bound, limit);
        lemma_bound_after_pages(feed, next, limit, (count - 1) as nat);
    }
}

} // verus!
