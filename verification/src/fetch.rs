//! The fetch pipeline: resolving a ranked list of story identifiers into
//! story records, one at a time, tolerating individual failures and reporting
//! monotone progress.
//!
//! The pipeline is a step machine. The caller retrieves the index of ranked
//! identifiers, hands it to [`FetchTask::begin`], then resolves one pending
//! identifier at a time and hands each outcome to [`FetchTask::record`],
//! which returns the progress value to report. A failed item is simply
//! skipped; the successes keep their relative rank order.

use vstd::arithmetic::div_mod::lemma_div_by_multiple;
use vstd::arithmetic::div_mod::lemma_div_by_multiple_is_strongly_ordered;
use vstd::arithmetic::div_mod::lemma_div_is_ordered;
use vstd::arithmetic::div_mod::lemma_div_pos_is_pos;
use vstd::prelude::*;

use crate::story::Story;

verus! {

/// The fixed cutoff: only this many of the ranked identifiers are resolved.
pub const MAX_STORIES: usize = 30;

/// The progress value reported when a fetch starts, before the index request.
pub const PROGRESS_START: u16 = 10;

/// The progress value reported once the index request has resolved.
pub const PROGRESS_INDEX_DONE: u16 = 20;

/// The width of the progress band that the per-item loop scales across.
pub const PROGRESS_SPAN: u16 = 70;

/// The progress value reported exactly once, on completion.
pub const PROGRESS_DONE: u16 = 100;

/// The index list after the fixed cutoff: at most [`MAX_STORIES`] of the
/// ranked identifiers, in rank order.
pub open spec fn truncated_ids(ids: Seq<u64>) -> Seq<u64> {
    if ids.len() <= MAX_STORIES {
        ids
    } else {
        ids.subrange(0, MAX_STORIES as int)
    }
}

/// The stories that survive a sequence of per-item outcomes: each successful
/// outcome contributes its record, each failed one is dropped, and the
/// survivors keep their relative order.
pub open spec fn surviving(outcomes: Seq<Option<Story>>) -> Seq<Story>
    decreases outcomes.len(),
{
    if outcomes.len() == 0 {
        Seq::empty()
    } else {
        match outcomes.last() {
            Some(s) => surviving(outcomes.drop_last()).push(s),
            None => surviving(outcomes.drop_last()),
        }
    }
}

/// How many of the per-item outcomes failed.
pub open spec fn failure_count(outcomes: Seq<Option<Story>>) -> nat
    decreases outcomes.len(),
{
    if outcomes.len() == 0 {
        0
    } else {
        failure_count(outcomes.drop_last()) + (if outcomes.last() is None {
            1nat
        } else {
            0nat
        })
    }
}

/// The progress value reported after the item at `index` (zero-based) of
/// `total` has been processed: it scales linearly across the band between
/// [`PROGRESS_INDEX_DONE`] and [`PROGRESS_INDEX_DONE`]` + `[`PROGRESS_SPAN`].
pub open spec fn item_progress(index: int, total: int) -> int
    recommends
        0 <= index < total,
{
    PROGRESS_INDEX_DONE as int + (index * (PROGRESS_SPAN as int)) / total
}

/// Every per-item progress value lies in the band: at least the value
/// reported for the resolved index, strictly below the completion value.
pub proof fn lemma_item_progress_bounds(index: int, total: int)
    requires
        0 <= index < total,
    ensures
        PROGRESS_INDEX_DONE as int <= item_progress(index, total) < PROGRESS_DONE as int,
{
    let span = PROGRESS_SPAN as int;
    lemma_div_pos_is_pos(index * span, total);
    assert(index * span < span * total);
    lemma_div_by_multiple(span, total);
    lemma_div_by_multiple_is_strongly_ordered(index * span, span * total, span, total);
}

/// Per-item progress never decreases as the loop advances.
pub proof fn lemma_item_progress_monotone(i: int, j: int, total: int)
    requires
        0 <= i <= j < total,
    ensures
        item_progress(i, total) <= item_progress(j, total),
{
    let span = PROGRESS_SPAN as int;
    assert(i * span <= j * span);
    lemma_div_is_ordered(i * span, j * span, total);
}

/// The full sequence of progress values a successful fetch of `total` items
/// reports: the start value, the value after index resolution, one value per
/// item, and the completion value.
pub open spec fn progress_reports(total: int) -> Seq<int> {
    seq![PROGRESS_START as int, PROGRESS_INDEX_DONE as int] + Seq::new(
        total as nat,
        |i: int| item_progress(i, total),
    ) + seq![PROGRESS_DONE as int]
}

/// The progress values reported during a successful fetch form a
/// non-decreasing sequence; every value from index resolution on is at least
/// [`PROGRESS_INDEX_DONE`], and the last is exactly [`PROGRESS_DONE`].
pub proof fn lemma_progress_reports(total: int)
    requires
        0 <= total,
    ensures
        progress_reports(total).len() == total + 3,
        progress_reports(total)[0] == PROGRESS_START as int,
        progress_reports(total).last() == PROGRESS_DONE as int,
        forall|i: int|
            1 <= i < progress_reports(total).len() ==> PROGRESS_INDEX_DONE as int
                <= #[trigger] progress_reports(total)[i],
        forall|i: int, j: int|
            0 <= i <= j < progress_reports(total).len() ==> #[trigger] progress_reports(total)[i]
                <= #[trigger] progress_reports(total)[j],
{
    let r = progress_reports(total);
    assert forall|i: int| 1 <= i < r.len() implies PROGRESS_INDEX_DONE as int <= #[trigger] r[i] by {
        if 2 <= i < total + 2 {
            lemma_item_progress_bounds(i - 2, total);
        }
    }
    assert forall|i: int, j: int| 0 <= i <= j < r.len() implies #[trigger] r[i]
        <= #[trigger] r[j] by {
        if 2 <= i < total + 2 {
            lemma_item_progress_bounds(i - 2, total);
        }
        if 2 <= j < total + 2 {
            lemma_item_progress_bounds(j - 2, total);
        }
        if 2 <= i && j < total + 2 {
            lemma_item_progress_monotone(i - 2, j - 2, total);
        }
    }
}

/// The survivors of a run of outcomes are exactly the outcomes that did not
/// fail: their count is the item count less the failure count.
pub proof fn lemma_partial_failure_count(outcomes: Seq<Option<Story>>)
    ensures
        surviving(outcomes).len() + failure_count(outcomes) == outcomes.len(),
    decreases outcomes.len(),
{
    if outcomes.len() > 0 {
        lemma_partial_failure_count(outcomes.drop_last());
    }
}

/// Survivors keep their relative rank order: the survivors of one run of
/// outcomes followed by another are the survivors of the first followed by
/// the survivors of the second.
pub proof fn lemma_surviving_order(a: Seq<Option<Story>>, b: Seq<Option<Story>>)
    ensures
        surviving(a + b) == surviving(a) + surviving(b),
    decreases b.len(),
{
    if b.len() == 0 {
        assert(a + b =~= a);
        assert(surviving(a) + surviving(b) =~= surviving(a));
    } else {
        lemma_surviving_order(a, b.drop_last());
        assert((a + b).drop_last() =~= a + b.drop_last());
        assert((a + b).last() == b.last());
        match b.last() {
            Some(s) => {
                assert(surviving(a) + surviving(b.drop_last()).push(s) =~= (surviving(a)
                    + surviving(b.drop_last())).push(s));
            },
            None => {},
        }
    }
}

/// The records inside a run of outcomes in which nothing failed.
pub open spec fn unwrapped(outcomes: Seq<Option<Story>>) -> Seq<Story> {
    outcomes.map_values(|r: Option<Story>| r->0)
}

/// A fully healthy run drops nothing: the survivors are all the fetched
/// records, as many as there were identifiers, in the same order.
pub proof fn lemma_no_failure_identity(outcomes: Seq<Option<Story>>)
    requires
        failure_count(outcomes) == 0,
    ensures
        surviving(outcomes) == unwrapped(outcomes),
        unwrapped(outcomes).len() == outcomes.len(),
    decreases outcomes.len(),
{
    if outcomes.len() == 0 {
        assert(surviving(outcomes) =~= unwrapped(outcomes));
    } else {
        lemma_no_failure_identity(outcomes.drop_last());
        assert(surviving(outcomes.drop_last()).push(outcomes.last()->0) =~= unwrapped(outcomes));
    }
}

/// One fetch attempt, stepped from outside: the caller resolves one pending
/// identifier at a time and records each outcome.
pub struct FetchTask {
    ids: Vec<u64>,
    position: usize,
    stories: Vec<Story>,
    outcomes: Ghost<Seq<Option<Story>>>,
}

impl FetchTask {
    /// The identifiers this attempt resolves, in rank order.
    pub closed spec fn spec_ids(self) -> Seq<u64> {
        self.ids@
    }

    /// How many identifiers have been processed so far.
    pub closed spec fn spec_pos(self) -> int {
        self.position as int
    }

    /// The records accumulated so far.
    pub closed spec fn spec_stories(self) -> Seq<Story> {
        self.stories@
    }

    /// The per-item outcomes recorded so far.
    pub closed spec fn spec_outcomes(self) -> Seq<Option<Story>> {
        self.outcomes@
    }

    /// The step machine's invariant: one outcome per processed identifier,
    /// and the accumulated records are exactly the survivors of the outcomes.
    pub open spec fn wf(self) -> bool {
        &&& self.spec_pos() <= self.spec_ids().len()
        &&& self.spec_ids().len() <= MAX_STORIES as int
        &&& self.spec_outcomes().len() == self.spec_pos()
        &&& self.spec_stories() == surviving(self.spec_outcomes())
    }

    /// Starts an attempt from the ranked index, truncated to the fixed
    /// cutoff. Nothing is processed yet.
    pub fn begin(ids: Vec<u64>) -> (t: FetchTask)
        ensures
            t.wf(),
            t.spec_ids() == truncated_ids(ids@),
            t.spec_pos() == 0,
            t.spec_outcomes() == Seq::<Option<Story>>::empty(),
    {
        let mut ranked = ids;
        ranked.truncate(MAX_STORIES);
        proof {
            assert(ranked@ =~= truncated_ids(ids@));
        }
        FetchTask { ids: ranked, position: 0, stories: Vec::new(), outcomes: Ghost(Seq::empty()) }
    }

    /// The next identifier to resolve, or nothing once all have been
    /// processed.
    pub fn pending_id(&self) -> (r: Option<u64>)
        requires
            self.wf(),
        ensures
            match r {
                Some(id) => self.spec_pos() < self.spec_ids().len() && id == self.spec_ids()[self.spec_pos()],
                None => self.spec_pos() == self.spec_ids().len(),
            },
    {
        if self.position < self.ids.len() {
            Some(self.ids[self.position])
        } else {
            None
        }
    }

    /// Records the outcome of the pending item: a fetched record is appended,
    /// a failure is skipped. Returns the progress value to report, which lies
    /// strictly below the completion value.
    pub fn record(&mut self, fetched: Option<Story>) -> (p: u16)
        requires
            old(self).wf(),
            old(self).spec_pos() < old(self).spec_ids().len(),
        ensures
            final(self).wf(),
            final(self).spec_ids() == old(self).spec_ids(),
            final(self).spec_pos() == old(self).spec_pos() + 1,
            final(self).spec_outcomes() == old(self).spec_outcomes().push(fetched),
            final(self).spec_stories() == (match fetched {
                Some(s) => old(self).spec_stories().push(s),
                None => old(self).spec_stories(),
            }),
            p as int == item_progress(old(self).spec_pos(), old(self).spec_ids().len() as int),
            PROGRESS_INDEX_DONE <= p < PROGRESS_DONE,
    {
        proof {
            lemma_item_progress_bounds(self.position as int, self.ids@.len() as int);
        }
        let scaled: usize = (self.position * (PROGRESS_SPAN as usize)) / self.ids.len();
        match fetched {
            Some(s) => self.stories.push(s),
            None => {},
        }
        proof {
            self.outcomes@ = self.outcomes@.push(fetched);
            assert(self.outcomes@.drop_last() =~= old(self).spec_outcomes());
        }
        self.position = self.position + 1;
        PROGRESS_INDEX_DONE + (scaled as u16)
    }

    /// Finishes the attempt, yielding the accumulated records. The caller
    /// reports [`PROGRESS_DONE`] alongside.
    pub fn finish(self) -> (r: Vec<Story>)
        requires
            self.wf(),
            self.spec_pos() == self.spec_ids().len(),
        ensures
            r@ == surviving(self.spec_outcomes()),
            r@.len() + failure_count(self.spec_outcomes()) == self.spec_ids().len(),
    {
        proof {
            lemma_partial_failure_count(self.spec_outcomes());
        }
        self.stories
    }
}

} // verus!
