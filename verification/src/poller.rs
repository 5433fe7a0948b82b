//! Live feed poller: one tick recomputes a feed's snapshot from the results
//! of all its data-fetch functions and publishes it only when every fetch
//! succeeded. A failed fetch isolates to its tick — the previous snapshot
//! stays untouched — and a failure judged structural asks the caller to shut
//! the process down instead of serving stale data forever.

use vstd::prelude::*;

use crate::broadcast::Broadcaster;
use crate::broadcast::FeedState;
use crate::broadcast::Snapshot;
use crate::broadcast::spec_publish;
use crate::bytes::copy_bytes;

verus! {

/// What one data-fetch function came back with in one tick.
pub enum FetchOutcome {
    /// The fetch completed with this payload.
    Success(Vec<u8>),
    /// The fetch failed transiently; the tick is skipped and logged.
    Failure,
    /// The fetch failed structurally; the process must stop.
    FatalFailure,
}

/// Abstract counterpart of `FetchOutcome`.
pub enum FetchModel {
    Success(Seq<u8>),
    Failure,
    FatalFailure,
}

impl View for FetchOutcome {
    type V = FetchModel;

    open spec fn view(&self) -> FetchModel {
        match self {
            FetchOutcome::Success(p) => FetchModel::Success(p@),
            FetchOutcome::Failure => FetchModel::Failure,
            FetchOutcome::FatalFailure => FetchModel::FatalFailure,
        }
    }
}

/// The abstract outcomes of a vector of fetch outcomes.
pub open spec fn outcome_views(s: Seq<FetchOutcome>) -> Seq<FetchModel> {
    s.map_values(|r: FetchOutcome| r@)
}

/// Every fetch of the tick succeeded.
pub open spec fn all_succeeded(rs: Seq<FetchModel>) -> bool {
    forall|i: int| 0 <= i < rs.len() ==> rs[i] is Success
}

/// Some fetch of the tick failed structurally.
pub open spec fn any_fatal(rs: Seq<FetchModel>) -> bool {
    exists|i: int| 0 <= i < rs.len() && rs[i] is FatalFailure
}

/// The snapshot combined from an all-successful tick: one payload per
/// fetch, in the feed's fetch order.
pub open spec fn combined(rs: Seq<FetchModel>) -> Seq<Seq<u8>> {
    rs.map_values(
        |r: FetchModel|
            match r {
                FetchModel::Success(p) => p,
                FetchModel::Failure => Seq::empty(),
                FetchModel::FatalFailure => Seq::empty(),
            },
    )
}

/// How one tick resolved.
pub enum TickStatus {
    /// All fetches succeeded; the combined snapshot was published.
    Published,
    /// A fetch failed transiently; nothing was published this tick.
    Skipped,
    /// A fetch failed structurally; the caller must shut down.
    Fatal,
}

/// One poll tick over the abstract feed state: publish the combined
/// snapshot only when every fetch succeeded, otherwise leave the feed
/// exactly as it was.
pub open spec fn spec_tick(st: FeedState, rs: Seq<FetchModel>) -> (FeedState, TickStatus) {
    if any_fatal(rs) {
        (st, TickStatus::Fatal)
    } else if all_succeeded(rs) {
        (spec_publish(st, combined(rs)), TickStatus::Published)
    } else {
        (st, TickStatus::Skipped)
    }
}

/// Resolve one poll tick: combine the fetch results into one snapshot and
/// publish it through the broadcaster if and only if all of them succeeded.
/// The caller performs the fetches and, on a fatal status, shuts down.
pub fn tick(b: &mut Broadcaster, results: &Vec<FetchOutcome>) -> (status: TickStatus)
    requires
        old(b).well_formed(),
        old(b)@.version < u64::MAX,
    ensures
        final(b)@ == spec_tick(old(b)@, outcome_views(results@)).0,
        status == spec_tick(old(b)@, outcome_views(results@)).1,
        final(b).well_formed(),
{
    let ghost rs = outcome_views(results@);
    let mut i: usize = 0;
    while i < results.len()
        invariant
            i <= results.len(),
            rs == outcome_views(results@),
            forall|j: int| 0 <= j < i ==> !(rs[j] is FatalFailure),
            *b == *old(b),
            b.well_formed(),
        decreases results.len() - i,
    {
        if let FetchOutcome::FatalFailure = &results[i] {
            assert(rs[i as int] is FatalFailure);
            return TickStatus::Fatal;
        }
        i = i + 1;
    }
    assert(!any_fatal(rs));
    let mut parts: Vec<Vec<u8>> = Vec::new();
    let mut i: usize = 0;
    while i < results.len()
        invariant
            i <= results.len(),
            rs == outcome_views(results@),
            !any_fatal(rs),
            parts@.len() == i,
            forall|j: int| 0 <= j < i ==> rs[j] is Success,
            forall|j: int| 0 <= j < i ==> parts@[j]@ == combined(rs)[j],
            *b == *old(b),
            b.well_formed(),
            b@.version < u64::MAX,
        decreases results.len() - i,
    {
        match &results[i] {
            FetchOutcome::Success(p) => {
                parts.push(copy_bytes(p));
            },
            FetchOutcome::Failure => {
                assert(!all_succeeded(rs));
                return TickStatus::Skipped;
            },
            FetchOutcome::FatalFailure => {
                assert(rs[i as int] is FatalFailure);
                assert(false);
            },
        }
        i = i + 1;
    }
    assert(all_succeeded(rs));
    let snapshot = Snapshot { parts };
    proof {
        assert(snapshot@ =~= combined(rs));
    }
    b.publish(snapshot);
    TickStatus::Published
}

/// Law: a tick in which any fetch failed leaves the feed exactly as it was
/// before the tick — the snapshot is replaced all-or-nothing, never merged
/// from the fetches that did succeed.
pub proof fn lemma_tick_all_or_nothing(st: FeedState, rs: Seq<FetchModel>)
    requires
        !all_succeeded(rs),
    ensures
        spec_tick(st, rs).0 == st,
        spec_tick(st, rs).1 != TickStatus::Published,
{
}

/// The feed state after a sequence of ticks, resolved in order.
pub open spec fn spec_run(st: FeedState, ticks: Seq<Seq<FetchModel>>) -> FeedState
    decreases ticks.len(),
{
    if ticks.len() == 0 {
        st
    } else {
        spec_run(spec_tick(st, ticks[0]).0, ticks.drop_first())
    }
}

/// Law: ticks in which some fetch failed change nothing, however many of
/// them run in a row.
pub proof fn lemma_failed_run_changes_nothing(st: FeedState, ticks: Seq<Seq<FetchModel>>)
    requires
        forall|i: int| 0 <= i < ticks.len() ==> !all_succeeded(#[trigger] ticks[i]),
    ensures
        spec_run(st, ticks) == st,
    decreases ticks.len(),
{
    if ticks.len() > 0 {
        assert(!all_succeeded(ticks[0]));
        lemma_failed_run_changes_nothing(spec_tick(st, ticks[0]).0, ticks.drop_first());
    }
}

/// Law: after one all-successful tick, the feed holds the combined snapshot
/// of that tick, and it stays frozen there through any run of ticks in
/// which some fetch keeps failing.
pub proof fn lemma_feed_frozen_at_last_good(
    st: FeedState,
    first: Seq<FetchModel>,
    rest: Seq<Seq<FetchModel>>,
)
    requires
        all_succeeded(first),
        forall|i: int| 0 <= i < rest.len() ==> !all_succeeded(#[trigger] rest[i]),
    ensures
        spec_run(spec_tick(st, first).0, rest).current == Some(combined(first)),
        spec_run(spec_tick(st, first).0, rest).version == st.version + 1,
{
    lemma_failed_run_changes_nothing(spec_tick(st, first).0, rest);
}

} // verus!
