//! Waiting for inclusion: given the transactions that are still outstanding
//! and the finalized blocks as they arrive, settle each transaction as
//! included (with or without success) or, once the wait window is used up,
//! as dropped.

use vstd::prelude::*;
use crate::chain::{ExtrinsicEvent, TxKey};
use crate::AccountId;

verus! {

/// The first event in `events` that reports the transaction `key`.
pub open spec fn lookup(events: Seq<ExtrinsicEvent>, key: TxKey) -> Option<ExtrinsicEvent>
    decreases events.len(),
{
    if events.len() == 0 {
        None
    } else if events[0].key == key {
        Some(events[0])
    } else {
        lookup(events.drop_first(), key)
    }
}

/// The transactions that `events` report.
pub open spec fn seen_in(events: Seq<ExtrinsicEvent>) -> spec_fn(TxKey) -> bool {
    |key: TxKey| lookup(events, key) is Some
}

/// The transactions that `events` do not report.
pub open spec fn unseen_in(events: Seq<ExtrinsicEvent>) -> spec_fn(TxKey) -> bool {
    |key: TxKey| lookup(events, key) is None
}

/// How one transaction was settled by a block.
#[derive(Clone, Copy, Debug)]
pub struct Resolution {
    pub key: TxKey,
    /// Whether the transaction ran to success.
    pub success: bool,
    /// The contract it instantiated, if any.
    pub contract: Option<AccountId>,
}

/// What `event` says of the transaction it reports.
pub open spec fn resolution_of(event: ExtrinsicEvent) -> Resolution {
    Resolution { key: event.key, success: event.success, contract: event.contract }
}

/// How `events` settle the transaction `key`, which they report.
pub open spec fn settle(events: Seq<ExtrinsicEvent>) -> spec_fn(TxKey) -> Resolution {
    |key: TxKey| resolution_of(lookup(events, key)->Some_0)
}

/// The outstanding transactions that `events` settle, in the order in which
/// they were tracked, each with what the block says of it.
pub open spec fn resolved_by(outstanding: Seq<TxKey>, events: Seq<ExtrinsicEvent>) -> Seq<
    Resolution,
> {
    outstanding.filter(seen_in(events)).map_values(settle(events))
}

/// The settled transactions that ran to success.
pub open spec fn ran_well() -> spec_fn(Resolution) -> bool {
    |r: Resolution| r.success
}

/// How many of `resolved` ran to success.
pub open spec fn successes(resolved: Seq<Resolution>) -> nat {
    resolved.filter(ran_well()).len()
}

/// A tracker as the contracts see it.
pub struct TrackerState {
    /// The transactions not yet settled, in the order in which they were tracked.
    pub outstanding: Seq<TxKey>,
    /// How much of the wait window is used up.
    pub waited: nat,
    /// The length of the wait window.
    pub limit: nat,
}

impl TrackerState {
    pub open spec fn wf(self) -> bool {
        self.waited <= self.limit <= u64::MAX
    }

    /// One more step of the window, which never counts beyond its end.
    pub open spec fn tick(self) -> nat {
        if self.waited < self.limit {
            self.waited + 1
        } else {
            self.waited
        }
    }

    /// The state after a block with these events.
    pub open spec fn observe(self, events: Seq<ExtrinsicEvent>) -> TrackerState {
        TrackerState {
            outstanding: self.outstanding.filter(unseen_in(events)),
            waited: self.tick(),
            limit: self.limit,
        }
    }

    /// The state after a wait in which no block arrived.
    pub open spec fn idle(self) -> TrackerState {
        TrackerState { outstanding: self.outstanding, waited: self.tick(), limit: self.limit }
    }

    /// Whether the wait window is used up.
    pub open spec fn expired(self) -> bool {
        self.waited >= self.limit
    }
}

/// The outstanding transactions of one wait, and how long the wait has lasted.
#[derive(Debug)]
pub struct Tracker {
    outstanding: Vec<TxKey>,
    waited: u64,
    limit: u64,
}

impl View for Tracker {
    type V = TrackerState;

    closed spec fn view(&self) -> TrackerState {
        TrackerState {
            outstanding: self.outstanding@,
            waited: self.waited as nat,
            limit: self.limit as nat,
        }
    }
}

/// Looks `key` up among the events of a block.
pub fn find_event(events: &Vec<ExtrinsicEvent>, key: &TxKey) -> (out: Option<ExtrinsicEvent>)
    ensures
        out == lookup(events@, *key),
{
    let mut i: usize = 0;
    assert(events@.skip(0) =~= events@);
    while i < events.len()
        invariant
            i <= events.len(),
            lookup(events@, *key) == lookup(events@.skip(i as int), *key),
        decreases events.len() - i,
    {
        assert(events@.skip(i as int).drop_first() =~= events@.skip(i + 1));
        if events[i].key.matches(key) {
            return Some(events[i]);
        }
        i = i + 1;
    }
    None
}

/// Counts the settled transactions that ran to success.
pub fn count_successes(resolved: &Vec<Resolution>) -> (out: usize)
    ensures
        out == successes(resolved@),
        out <= resolved.len(),
{
    let mut count: usize = 0;
    let mut i: usize = 0;
    proof {
        resolved@.take(0).lemma_filter_len(ran_well());
    }
    while i < resolved.len()
        invariant
            i <= resolved.len(),
            count <= i,
            count == successes(resolved@.take(i as int)),
        decreases resolved.len() - i,
    {
        proof {
            let before = resolved@.take(i as int);
            assert(resolved@.take(i + 1) =~= before.push(resolved[i as int]));
            before.lemma_filter_push(resolved[i as int], ran_well());
        }
        if resolved[i].success {
            count = count + 1;
        }
        i = i + 1;
    }
    assert(resolved@.take(i as int) =~= resolved@);
    count
}

impl Tracker {
    pub open spec fn wf(&self) -> bool {
        self@.wf()
    }

    /// A tracker with nothing outstanding and a window of `limit` steps.
    pub fn new(limit: u64) -> (out: Tracker)
        ensures
            out.wf(),
            out@ == (TrackerState { outstanding: Seq::empty(), waited: 0, limit: limit as nat }),
    {
        Tracker { outstanding: Vec::new(), waited: 0, limit }
    }

    /// Takes one more transaction into the outstanding ones.
    pub fn track(&mut self, key: TxKey)
        requires
            old(self).wf(),
        ensures
            final(self).wf(),
            final(self)@ == (TrackerState {
                outstanding: old(self)@.outstanding.push(key),
                ..old(self)@
            }),
    {
        self.outstanding.push(key);
    }

    /// Starts the wait window anew.
    pub fn restart(&mut self)
        requires
            old(self).wf(),
        ensures
            final(self).wf(),
            final(self)@ == (TrackerState { waited: 0, ..old(self)@ }),
    {
        self.waited = 0;
    }

    /// Takes in one finalized block: the outstanding transactions that the
    /// block reports are settled and returned, the others stay outstanding,
    /// and one step of the window is used up.
    pub fn observe(&mut self, events: &Vec<ExtrinsicEvent>) -> (out: Vec<Resolution>)
        requires
            old(self).wf(),
        ensures
            final(self).wf(),
            final(self)@ == old(self)@.observe(events@),
            out@ == resolved_by(old(self)@.outstanding, events@),
    {
        let mut remaining: Vec<TxKey> = Vec::new();
        let mut resolved: Vec<Resolution> = Vec::new();
        let mut i: usize = 0;
        while i < self.outstanding.len()
            invariant
                i <= self.outstanding.len(),
                self.outstanding@ == old(self).outstanding@,
                self.waited == old(self).waited,
                self.limit == old(self).limit,
                remaining@ == self.outstanding@.take(i as int).filter(unseen_in(events@)),
                resolved@ == resolved_by(self.outstanding@.take(i as int), events@),
            decreases self.outstanding.len() - i,
        {
            let key = self.outstanding[i];
            let found = find_event(events, &key);
            proof {
                let before = self.outstanding@.take(i as int);
                assert(self.outstanding@.take(i + 1) =~= before.push(key));
                before.lemma_filter_push(key, unseen_in(events@));
                before.lemma_filter_push(key, seen_in(events@));
                if found is Some {
                    assert(before.push(key).filter(seen_in(events@)).map_values(settle(events@))
                        =~= before.filter(seen_in(events@)).map_values(settle(events@)).push(
                        settle(events@)(key),
                    ));
                }
            }
            match found {
                Some(event) => {
                    resolved.push(
                        Resolution {
                            key: event.key,
                            success: event.success,
                            contract: event.contract,
                        },
                    );
                },
                None => {
                    remaining.push(key);
                },
            }
            i = i + 1;
        }
        assert(self.outstanding@.take(i as int) =~= self.outstanding@);
        self.outstanding = remaining;
        if self.waited < self.limit {
            self.waited = self.waited + 1;
        }
        resolved
    }

    /// Takes in a wait in which no block arrived: one step of the window is
    /// used up and nothing else changes.
    pub fn idle(&mut self)
        requires
            old(self).wf(),
        ensures
            final(self).wf(),
            final(self)@ == old(self)@.idle(),
    {
        if self.waited < self.limit {
            self.waited = self.waited + 1;
        }
    }

    /// How many transactions are still outstanding.
    pub fn outstanding_count(&self) -> (out: usize)
        ensures
            out == self@.outstanding.len(),
    {
        self.outstanding.len()
    }

    /// Whether the wait window is used up.
    pub fn expired(&self) -> (out: bool)
        ensures
            out == self@.expired(),
    {
        self.waited >= self.limit
    }

    /// The transactions that are still outstanding, oldest first.
    pub fn outstanding(&self) -> (out: Vec<TxKey>)
        ensures
            out@ == self@.outstanding,
    {
        let out = self.outstanding.clone();
        out
    }
}

/// Whether some event in `events` reports the transaction `key`.
pub open spec fn reports(events: Seq<ExtrinsicEvent>, key: TxKey) -> bool {
    exists|i: int| 0 <= i < events.len() && (#[trigger] events[i]).key == key
}

/// `lookup` finds an event exactly when the block reports the transaction,
/// and the event it finds is one of the block's and carries that very key.
pub proof fn lookup_is_exact(events: Seq<ExtrinsicEvent>, key: TxKey)
    ensures
        lookup(events, key) is Some <==> reports(events, key),
        lookup(events, key) is Some ==> lookup(events, key)->Some_0.key == key && events.contains(
            lookup(events, key)->Some_0,
        ),
    decreases events.len(),
{
    if events.len() > 0 && events[0].key != key {
        let rest = events.drop_first();
        lookup_is_exact(rest, key);
        if reports(events, key) {
            let i = choose|i: int| 0 <= i < events.len() && (#[trigger] events[i]).key == key;
            assert(rest[i - 1].key == key);
        }
    }
}

/// A block settles some of the outstanding transactions and leaves the
/// others: none is lost and none is counted twice.
pub proof fn observing_conserves(outstanding: Seq<TxKey>, events: Seq<ExtrinsicEvent>)
    ensures
        resolved_by(outstanding, events).len() + outstanding.filter(unseen_in(events)).len()
            == outstanding.len(),
    decreases outstanding.len(),
{
    if outstanding.len() == 0 {
        assert(outstanding.filter(seen_in(events)).len() <= 0) by {
            outstanding.lemma_filter_len(seen_in(events));
        }
        assert(outstanding.filter(unseen_in(events)).len() <= 0) by {
            outstanding.lemma_filter_len(unseen_in(events));
        }
    } else {
        let before = outstanding.drop_last();
        let key = outstanding.last();
        observing_conserves(before, events);
        assert(outstanding =~= before.push(key));
        before.lemma_filter_push(key, seen_in(events));
        before.lemma_filter_push(key, unseen_in(events));
    }
}

/// What a block settles is attributed exactly. Every settled transaction was
/// outstanding and is reported by the block under the same signer and the
/// same nonce, with the outcome that the block gives for it. An outstanding
/// transaction that the block reports is settled and no longer outstanding;
/// one that the block does not report stays outstanding and is not settled.
pub proof fn attribution_is_exact(outstanding: Seq<TxKey>, events: Seq<ExtrinsicEvent>)
    ensures
        forall|r: Resolution| #[trigger]
            resolved_by(outstanding, events).contains(r) ==> outstanding.contains(r.key) && exists|
                e: ExtrinsicEvent,
            | #[trigger]
                events.contains(e) && e.key == r.key && resolution_of(e) == r,
        forall|key: TxKey| #[trigger]
            outstanding.contains(key) && reports(events, key) ==> !outstanding.filter(
                unseen_in(events),
            ).contains(key) && resolved_by(outstanding, events).contains(
                settle(events)(key),
            ) && settle(events)(key).key == key,
        forall|key: TxKey| #[trigger]
            outstanding.contains(key) && !reports(events, key) ==> outstanding.filter(
                unseen_in(events),
            ).contains(key) && forall|r: Resolution| #[trigger]
                resolved_by(outstanding, events).contains(r) ==> r.key != key,
{
    let seen = outstanding.filter(seen_in(events));
    let unseen = outstanding.filter(unseen_in(events));
    let resolved = resolved_by(outstanding, events);
    assert forall|r: Resolution| #[trigger] resolved.contains(r) implies outstanding.contains(
        r.key,
    ) && exists|e: ExtrinsicEvent| #[trigger]
        events.contains(e) && e.key == r.key && resolution_of(e) == r by {
        let i = choose|i: int| 0 <= i < resolved.len() && resolved[i] == r;
        let key = seen[i];
        outstanding.lemma_filter_pred(seen_in(events), i);
        outstanding.lemma_filter_contains_rev(seen_in(events), key);
        lookup_is_exact(events, key);
    }
    assert forall|key: TxKey| #[trigger]
        outstanding.contains(key) && reports(events, key) implies !unseen.contains(key)
        && resolved.contains(settle(events)(key)) && settle(events)(key).key == key by {
        lookup_is_exact(events, key);
        let i = choose|i: int| 0 <= i < outstanding.len() && outstanding[i] == key;
        outstanding.lemma_filter_contains(seen_in(events), i);
        let j = choose|j: int| 0 <= j < seen.len() && seen[j] == key;
        assert(resolved[j] == settle(events)(key));
        if unseen.contains(key) {
            let k = choose|k: int| 0 <= k < unseen.len() && unseen[k] == key;
            outstanding.lemma_filter_pred(unseen_in(events), k);
        }
    }
    assert forall|key: TxKey| #[trigger]
        outstanding.contains(key) && !reports(events, key) implies unseen.contains(key)
        && forall|r: Resolution| #[trigger] resolved.contains(r) ==> r.key != key by {
        lookup_is_exact(events, key);
        let i = choose|i: int| 0 <= i < outstanding.len() && outstanding[i] == key;
        outstanding.lemma_filter_contains(unseen_in(events), i);
        assert forall|r: Resolution| #[trigger] resolved.contains(r) implies r.key != key by {
            if r.key == key {
                let e = choose|e: ExtrinsicEvent| #[trigger]
                    events.contains(e) && e.key == r.key && resolution_of(e) == r;
                assert(reports(events, key)) by {
                    let n = choose|n: int| 0 <= n < events.len() && events[n] == e;
                    assert(events[n].key == key);
                }
            }
        }
    }
}

} // verus!
