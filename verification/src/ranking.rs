//! The ranking: entries of the hourly sorted set and the window of a page.

use vstd::prelude::*;

verus! {

/// Rows on a page of the leaderboard.
pub const PAGE_SIZE: u32 = 25;

/// What a ranking entry is, as mathematics.
pub struct RankedView {
    pub id: Seq<char>,
    pub score: u32,
}

/// One member of the hourly sorted set: a profile's identifier as text, and
/// its score.
#[derive(Clone, Debug)]
pub struct RankingEntry {
    pub id: String,
    pub score: u32,
}

impl View for RankingEntry {
    type V = RankedView;

    open spec fn view(&self) -> RankedView {
        RankedView { id: self.id@, score: self.score }
    }
}

/// The views of a sequence of ranking entries, in order.
pub open spec fn ranked_view(entries: Seq<RankingEntry>) -> Seq<RankedView> {
    Seq::new(entries.len(), |i: int| entries[i]@)
}

/// Whether the scores never rise along the sequence.
pub open spec fn scores_descend(entries: Seq<RankedView>) -> bool {
    forall|i: int, j: int| 0 <= i <= j < entries.len() ==> entries[i].score >= entries[j].score
}

/// The index of the first row of page `page`.
pub open spec fn window_start(page: int) -> int {
    25 * (page - 1)
}

/// The index of the last row of page `page`.
pub open spec fn window_stop(page: int) -> int {
    25 * page - 1
}

/// What a sorted set answers to a range query with inclusive indices from
/// the top: the entries at `start..=stop` that exist, in order.
pub open spec fn range_desc(all: Seq<RankedView>, start: int, stop: int) -> Seq<RankedView> {
    if 0 <= start <= stop && start < all.len() {
        all.subrange(
            start,
            if stop + 1 <= all.len() {
                stop + 1
            } else {
                all.len() as int
            },
        )
    } else {
        Seq::empty()
    }
}

/// The rows of page `page` of a ranking.
pub open spec fn page_of(all: Seq<RankedView>, page: int) -> Seq<RankedView> {
    range_desc(all, window_start(page), window_stop(page))
}

impl RankingEntry {
    /// The entry with the given identifier and score.
    pub fn new(id: String, score: u32) -> (entry: RankingEntry)
        ensures
            entry@ == (RankedView { id: id@, score: score }),
    {
        RankingEntry { id, score }
    }
}

/// The inclusive range of ranks, counted from zero at the top, that page
/// `page` shows. Pages count from one: there is no page zero.
pub fn page_window(page: u32) -> (window: Option<(i64, i64)>)
    ensures
        match window {
            Some((start, stop)) => page >= 1 && start == window_start(page as int) && stop
                == window_stop(page as int),
            None => page == 0,
        },
{
    if page == 0 {
        None
    } else {
        let first: i64 = 25 * (page as i64 - 1);
        Some((first, first + 24))
    }
}

/// A page holds at most twenty-five rows, and is full exactly when the
/// ranking reaches its last row.
pub proof fn lemma_page_size(all: Seq<RankedView>, page: int)
    requires
        page >= 1,
    ensures
        page_of(all, page).len() <= 25,
        page_of(all, page).len() == 25 <==> all.len() >= 25 * page,
        forall|i: int|
            0 <= i < page_of(all, page).len() ==> #[trigger] page_of(all, page)[i] == all[25 * (
            page - 1) + i],
{
}

/// The scores of a page of a descending ranking descend.
pub proof fn lemma_page_descends(all: Seq<RankedView>, page: int)
    requires
        page >= 1,
        scores_descend(all),
    ensures
        scores_descend(page_of(all, page)),
{
    lemma_page_size(all, page);
    let rows = page_of(all, page);
    assert forall|i: int, j: int| 0 <= i <= j < rows.len() implies rows[i].score
        >= rows[j].score by {
        assert(rows[i] == all[25 * (page - 1) + i]);
        assert(rows[j] == all[25 * (page - 1) + j]);
    }
}

} // verus!
