//! Change broadcaster: one current value per live feed plus a version
//! counter, with publish, point-in-time read, and cursor-based change
//! detection. Delivery is at-most-current: a subscriber only ever observes
//! the latest published value, never a backlog.

use vstd::prelude::*;

use crate::bytes::copy_bytes;

verus! {

/// A complete, atomically replaced aggregate value standing for the current
/// state of one live feed: one byte payload per data source feeding the feed.
pub struct Snapshot {
    pub parts: Vec<Vec<u8>>,
}

impl View for Snapshot {
    type V = Seq<Seq<u8>>;

    open spec fn view(&self) -> Seq<Seq<u8>> {
        self.parts@.map_values(|p: Vec<u8>| p@)
    }
}

/// The payloads of an optional snapshot, for contracts that compare an
/// executable `Option<Snapshot>` against the abstract feed state.
pub open spec fn snapshot_view(o: Option<Snapshot>) -> Option<Seq<Seq<u8>>> {
    match o {
        Some(s) => Some(s@),
        None => None,
    }
}

/// Abstract state of one feed: the current value, if any was ever
/// published, and the number of publishes so far.
pub struct FeedState {
    pub current: Option<Seq<Seq<u8>>>,
    pub version: nat,
}

/// Publishing replaces the current value wholesale and increments the
/// version by exactly one.
pub open spec fn spec_publish(st: FeedState, v: Seq<Seq<u8>>) -> FeedState {
    FeedState { current: Some(v), version: st.version + 1 }
}

/// What a wait-for-change observes from cursor position `cursor`: the
/// current value and the current version if anything newer was published,
/// otherwise nothing, with the cursor left in place.
pub open spec fn spec_poll(st: FeedState, cursor: nat) -> (Option<Seq<Seq<u8>>>, nat) {
    if st.version > cursor {
        (st.current, st.version)
    } else {
        (None, cursor)
    }
}

impl Snapshot {
    /// A value equal to this snapshot, payload for payload.
    pub fn duplicate(&self) -> (r: Snapshot)
        ensures
            r@ == self@,
    {
        let mut parts: Vec<Vec<u8>> = Vec::new();
        let mut i: usize = 0;
        while i < self.parts.len()
            invariant
                i <= self.parts.len(),
                parts@.len() == i,
                forall|j: int| 0 <= j < i ==> parts@[j]@ == self.parts@[j]@,
            decreases self.parts.len() - i,
        {
            parts.push(copy_bytes(&self.parts[i]));
            i = i + 1;
        }
        let r = Snapshot { parts };
        proof {
            assert(r@ =~= self@);
        }
        r
    }
}

/// A per-connection handle holding the last version its owner has seen.
pub struct Subscriber {
    cursor: u64,
}

impl Subscriber {
    /// The subscriber's high-water mark: the highest version it has observed.
    pub closed spec fn cursor(&self) -> nat {
        self.cursor as nat
    }

    /// The cursor as a plain value, for callers outside the library.
    pub fn current_cursor(&self) -> (c: u64)
        ensures
            c as nat == self.cursor(),
    {
        self.cursor
    }
}

/// Holds one current value and a version counter; the version goes up by
/// one on every publish and never otherwise changes.
pub struct Broadcaster {
    value: Option<Snapshot>,
    version: u64,
}

impl View for Broadcaster {
    type V = FeedState;

    closed spec fn view(&self) -> FeedState {
        FeedState {
            current: snapshot_view(self.value),
            version: self.version as nat,
        }
    }
}

impl Broadcaster {
    /// A value exists exactly when at least one publish happened.
    pub open spec fn well_formed(&self) -> bool {
        self@.current is Some <==> self@.version > 0
    }

    /// A fresh feed: nothing published yet.
    pub fn new() -> (b: Broadcaster)
        ensures
            b@.version == 0,
            b@.current is None,
            b.well_formed(),
    {
        Broadcaster { value: None, version: 0 }
    }

    /// Replace the current value wholesale and increment the version.
    pub fn publish(&mut self, snapshot: Snapshot)
        requires
            old(self)@.version < u64::MAX,
        ensures
            final(self)@ == spec_publish(old(self)@, snapshot@),
            final(self).well_formed(),
    {
        self.value = Some(snapshot);
        self.version = self.version + 1;
    }

    /// Non-blocking point-in-time read of the current value and version.
    pub fn snapshot(&self) -> (r: (Option<Snapshot>, u64))
        ensures
            r.1 as nat == self@.version,
            snapshot_view(r.0) == self@.current,
    {
        match &self.value {
            Some(s) => (Some(s.duplicate()), self.version),
            None => (None, self.version),
        }
    }

    /// A new subscriber starts at the current version, so it will not
    /// replay history published before it joined.
    pub fn subscribe(&self) -> (s: Subscriber)
        ensures
            s.cursor() == self@.version,
    {
        Subscriber { cursor: self.version }
    }

    /// One observation step of wait-for-change: if anything newer than the
    /// subscriber's cursor was published, hand out the latest value and move
    /// the cursor to the latest version; otherwise change nothing. The
    /// caller suspends and retries when nothing is returned.
    pub fn poll_next(&self, sub: &mut Subscriber) -> (r: Option<Snapshot>)
        requires
            self.well_formed(),
            old(sub).cursor() <= self@.version,
        ensures
            snapshot_view(r) == spec_poll(self@, old(sub).cursor()).0,
            final(sub).cursor() == spec_poll(self@, old(sub).cursor()).1,
            final(sub).cursor() <= self@.version,
            old(sub).cursor() <= final(sub).cursor(),
    {
        match &self.value {
            Some(s) => {
                if self.version > sub.cursor {
                    sub.cursor = self.version;
                    Some(s.duplicate())
                } else {
                    None
                }
            },
            None => None,
        }
    }
}

/// Law: with two publishes before any observation, a waiting subscriber is
/// handed the later value only; the earlier one is silently skipped.
pub proof fn lemma_latest_value_wins(st: FeedState, v1: Seq<Seq<u8>>, v2: Seq<Seq<u8>>, cursor: nat)
    requires
        cursor <= st.version,
    ensures
        spec_poll(spec_publish(spec_publish(st, v1), v2), cursor).0 == Some(v2),
        v1 != v2 ==> spec_poll(spec_publish(spec_publish(st, v1), v2), cursor).0 != Some(v1),
{
}

/// Law: a subscriber joining between two publishes reads the first value at
/// once through a point-in-time read, observes nothing until the second
/// publish, and is then handed the second value.
pub proof fn lemma_subscribe_between_publishes(st: FeedState, v1: Seq<Seq<u8>>, v2: Seq<Seq<u8>>)
    ensures
        spec_publish(st, v1).current == Some(v1),
        spec_poll(spec_publish(st, v1), spec_publish(st, v1).version).0 is None,
        spec_poll(spec_publish(spec_publish(st, v1), v2), spec_publish(st, v1).version).0 == Some(
            v2,
        ),
{
}

/// Law: a cursor never runs backwards and never passes the feed's version;
/// and a value is only ever delivered together with a strictly larger
/// version than the cursor it was observed from.
pub proof fn lemma_cursor_bounds(st: FeedState, cursor: nat)
    requires
        cursor <= st.version,
    ensures
        cursor <= spec_poll(st, cursor).1 <= st.version,
        spec_poll(st, cursor).0 is Some ==> spec_poll(st, cursor).1 > cursor,
{
}

/// Law: since the feed's version never decreases, two successive
/// observations that both deliver a value deliver strictly increasing
/// versions — never stale, never out of order.
pub proof fn lemma_deliveries_strictly_ordered(st1: FeedState, st2: FeedState, cursor: nat)
    requires
        cursor <= st1.version,
        st1.version <= st2.version,
        spec_poll(st1, cursor).0 is Some,
        spec_poll(st2, spec_poll(st1, cursor).1).0 is Some,
    ensures
        spec_poll(st1, cursor).1 > cursor,
        spec_poll(st2, spec_poll(st1, cursor).1).1 > spec_poll(st1, cursor).1,
{
}

} // verus!
