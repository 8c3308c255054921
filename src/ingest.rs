use vstd::prelude::*;

use crate::session::{GuildVoiceSession, ResolutionError, SessionModel};
use crate::track::{Track, TrackMetadata};

verus! {

/// One entry of a fetched playlist.
#[derive(Debug)]
pub struct PlaylistItem {
    pub url: String,
    pub duration_secs: u64,
}

/// What the playlist fetcher hands over: the items in source order and the
/// diagnostics it gathered while parsing them.
#[derive(Debug)]
pub struct FetchedPlaylist {
    pub items: Vec<PlaylistItem>,
    pub diagnostics: Vec<String>,
}

/// The limits of one ingestion.
#[derive(Clone, Copy, PartialEq, Eq, Structural, Debug)]
pub struct IngestLimits {
    pub max_items: u64,
    pub max_item_duration_secs: u64,
}

/// The summary of one ingestion.
#[derive(Debug)]
pub struct IngestionResult {
    pub accepted: Vec<Track>,
    pub skipped_by_limit: usize,
    pub skipped_unavailable: usize,
    pub total_duration_secs: u128,
    pub diagnostics: Vec<String>,
}

/// The abstract state of an ingestion.
pub struct RunModel {
    pub accepted: Seq<Track>,
    pub skipped_by_limit: nat,
    pub skipped_unavailable: nat,
    pub total_duration: nat,
}

/// An item is attempted only while fewer than `max_items` items were
/// accepted and its duration is within the limit.
pub open spec fn admits(limits: IngestLimits, accepted: nat, item: PlaylistItem) -> bool {
    accepted < limits.max_items && item.duration_secs <= limits.max_item_duration_secs
}

/// The ingestion state after one more item; `resolved` is what the resolver
/// made of the item, looked at only when the item is attempted.
pub open spec fn ingest_step(
    prev: RunModel,
    item: PlaylistItem,
    resolved: Option<Track>,
    limits: IngestLimits,
) -> RunModel {
    if !admits(limits, prev.accepted.len(), item) {
        RunModel { skipped_by_limit: prev.skipped_by_limit + 1, ..prev }
    } else {
        match resolved {
            Some(t) => RunModel {
                accepted: prev.accepted.push(t),
                total_duration: prev.total_duration + item.duration_secs as nat,
                ..prev
            },
            None => RunModel { skipped_unavailable: prev.skipped_unavailable + 1, ..prev },
        }
    }
}

/// The ingestion of `items` in source order, where `resolved[i]` is what
/// the resolver made of `items[i]`.
pub open spec fn ingest_run(
    items: Seq<PlaylistItem>,
    resolved: Seq<Option<Track>>,
    limits: IngestLimits,
) -> RunModel
    decreases items.len(),
{
    if items.len() == 0 {
        RunModel {
            accepted: Seq::empty(),
            skipped_by_limit: 0,
            skipped_unavailable: 0,
            total_duration: 0,
        }
    } else {
        ingest_step(
            ingest_run(items.drop_last(), resolved, limits),
            items.last(),
            resolved[items.len() - 1],
            limits,
        )
    }
}

/// The tracks of the successful resolutions, in order.
pub open spec fn successes(resolved: Seq<Option<Track>>) -> Seq<Track>
    decreases resolved.len(),
{
    if resolved.len() == 0 {
        Seq::empty()
    } else {
        let prev = successes(resolved.drop_last());
        match resolved.last() {
            Some(t) => prev.push(t),
            None => prev,
        }
    }
}

/// The number of failed resolutions.
pub open spec fn failures(resolved: Seq<Option<Track>>) -> nat
    decreases resolved.len(),
{
    if resolved.len() == 0 {
        0
    } else {
        failures(resolved.drop_last()) + if resolved.last() is None {
            1nat
        } else {
            0nat
        }
    }
}

/// Counts of a run: never more than `max_items` accepted, each item counted
/// once, and the total duration bounded by the per-item limit.
pub proof fn lemma_run_counts(
    items: Seq<PlaylistItem>,
    resolved: Seq<Option<Track>>,
    limits: IngestLimits,
)
    ensures
        ({
            let m = ingest_run(items, resolved, limits);
            &&& m.accepted.len() <= limits.max_items
            &&& m.accepted.len() + m.skipped_by_limit + m.skipped_unavailable == items.len()
            &&& m.total_duration <= m.accepted.len() * limits.max_item_duration_secs
        }),
    decreases items.len(),
{
    if items.len() > 0 {
        lemma_run_counts(items.drop_last(), resolved, limits);
        let p = ingest_run(items.drop_last(), resolved, limits);
        if admits(limits, p.accepted.len(), items.last()) {
            assert((p.accepted.len() + 1) * limits.max_item_duration_secs == p.accepted.len()
                * limits.max_item_duration_secs + limits.max_item_duration_secs)
                by (nonlinear_arith);
        }
    }
}

/// Every item is eligible: its duration is within the limit.
pub open spec fn all_eligible(items: Seq<PlaylistItem>, limits: IngestLimits) -> bool {
    forall|i: int| 0 <= i < items.len() ==> #[trigger] items[i].duration_secs <= limits.max_item_duration_secs
}

/// Every item resolves.
pub open spec fn all_resolve(items: Seq<PlaylistItem>, resolved: Seq<Option<Track>>) -> bool {
    &&& resolved.len() >= items.len()
    &&& forall|i: int| 0 <= i < items.len() ==> #[trigger] resolved[i] is Some
}

/// With eligible items that all resolve, exactly `min(n, max_items)` of the
/// `n` items are accepted and the rest are skipped by the limit; never more
/// than `max_items` are accepted.
pub proof fn lemma_ingest_cap(
    items: Seq<PlaylistItem>,
    resolved: Seq<Option<Track>>,
    limits: IngestLimits,
)
    requires
        all_eligible(items, limits),
        all_resolve(items, resolved),
    ensures
        ({
            let m = ingest_run(items, resolved, limits);
            let k = if items.len() <= limits.max_items {
                items.len()
            } else {
                limits.max_items as nat
            };
            &&& m.accepted.len() == k
            &&& m.skipped_by_limit == items.len() - k
            &&& m.skipped_unavailable == 0
        }),
    decreases items.len(),
{
    lemma_run_counts(items, resolved, limits);
    if items.len() > 0 {
        let prefix = items.drop_last();
        assert forall|i: int| 0 <= i < prefix.len() implies #[trigger] prefix[i].duration_secs
            <= limits.max_item_duration_secs by {
            assert(prefix[i] == items[i]);
        }
        assert forall|i: int| 0 <= i < prefix.len() implies #[trigger] resolved[i] is Some by {
            assert(resolved[i] == resolved[i]);
        }
        lemma_ingest_cap(prefix, resolved, limits);
        assert(items.last() == items[items.len() - 1]);
    }
}

/// With no more items than `max_items`, all eligible, the accepted tracks
/// are exactly the successful resolutions in their original order, every
/// failure is counted as unavailable and nothing is skipped by the limit.
pub proof fn lemma_ingest_partial_failure(
    items: Seq<PlaylistItem>,
    resolved: Seq<Option<Track>>,
    limits: IngestLimits,
)
    requires
        items.len() <= limits.max_items,
        all_eligible(items, limits),
        resolved.len() >= items.len(),
    ensures
        ({
            let m = ingest_run(items, resolved, limits);
            &&& m.accepted == successes(resolved.take(items.len() as int))
            &&& m.skipped_unavailable == failures(resolved.take(items.len() as int))
            &&& m.skipped_by_limit == 0
        }),
    decreases items.len(),
{
    if items.len() > 0 {
        let prefix = items.drop_last();
        assert forall|i: int| 0 <= i < prefix.len() implies #[trigger] prefix[i].duration_secs
            <= limits.max_item_duration_secs by {
            assert(prefix[i] == items[i]);
        }
        lemma_ingest_partial_failure(prefix, resolved, limits);
        lemma_run_counts(prefix, resolved, limits);
        let r = resolved.take(items.len() as int);
        assert(r.drop_last() =~= resolved.take(prefix.len() as int));
        assert(items.last() == items[items.len() - 1]);
        assert(r.last() == resolved[items.len() - 1]);
    } else {
        assert(resolved.take(0) =~= Seq::<Option<Track>>::empty());
    }
}

/// A playlist ingestion in progress, fed one resolution at a time.
pub struct Ingestion {
    items: Vec<PlaylistItem>,
    diagnostics: Vec<String>,
    limits: IngestLimits,
    cursor: usize,
    accepted: Vec<Track>,
    skipped_by_limit: usize,
    skipped_unavailable: usize,
    total_duration_secs: u128,
    resolved: Ghost<Seq<Option<Track>>>,
}

impl Ingestion {
    pub closed spec fn items(&self) -> Seq<PlaylistItem> {
        self.items@
    }

    pub closed spec fn diagnostics(&self) -> Seq<String> {
        self.diagnostics@
    }

    pub closed spec fn limits(&self) -> IngestLimits {
        self.limits
    }

    /// How many items have been visited.
    pub closed spec fn visited(&self) -> nat {
        self.cursor as nat
    }

    /// What the resolver made of each visited item (`None` for an item that
    /// was not attempted).
    pub closed spec fn resolved(&self) -> Seq<Option<Track>> {
        self.resolved@
    }

    /// The state of the run over the items visited so far.
    pub open spec fn model(&self) -> RunModel {
        ingest_run(self.items().take(self.visited() as int), self.resolved(), self.limits())
    }

    /// The next item is waiting for its resolution.
    pub open spec fn pending(&self) -> bool {
        &&& self.visited() < self.items().len()
        &&& admits(self.limits(), self.model().accepted.len(), self.items()[self.visited() as int])
    }

    pub closed spec fn wf(&self) -> bool {
        let m = ingest_run(self.items@.take(self.cursor as int), self.resolved@, self.limits);
        &&& self.cursor <= self.items@.len()
        &&& self.resolved@.len() == self.cursor
        &&& self.accepted@ == m.accepted
        &&& self.skipped_by_limit == m.skipped_by_limit
        &&& self.skipped_unavailable == m.skipped_unavailable
        &&& self.total_duration_secs == m.total_duration
    }

    pub fn new(fetched: FetchedPlaylist, limits: IngestLimits) -> (r: Ingestion)
        ensures
            r.wf(),
            r.items() == fetched.items@,
            r.diagnostics() == fetched.diagnostics@,
            r.limits() == limits,
            r.visited() == 0,
    {
        let FetchedPlaylist { items, diagnostics } = fetched;
        Ingestion {
            items,
            diagnostics,
            limits,
            cursor: 0,
            accepted: Vec::new(),
            skipped_by_limit: 0,
            skipped_unavailable: 0,
            total_duration_secs: 0,
            resolved: Ghost(Seq::empty()),
        }
    }

    pub fn is_done(&self) -> (r: bool)
        requires
            self.wf(),
        ensures
            r == (self.visited() == self.items().len()),
    {
        self.cursor == self.items.len()
    }

    proof fn lemma_take_step(&self)
        requires
            self.cursor < self.items@.len(),
        ensures
            self.items@.take(self.cursor + 1).drop_last() == self.items@.take(self.cursor as int),
            self.items@.take(self.cursor + 1).last() == self.items@[self.cursor as int],
    {
        assert(self.items@.take(self.cursor + 1).drop_last() =~= self.items@.take(
            self.cursor as int,
        ));
    }

    /// Moves past the items that the limits rule out, counting each, and
    /// returns the locator of the next item to resolve, or `None` when every
    /// item has been visited.
    pub fn next_request(&mut self) -> (r: Option<String>)
        requires
            old(self).wf(),
        ensures
            final(self).wf(),
            final(self).items() == old(self).items(),
            final(self).diagnostics() == old(self).diagnostics(),
            final(self).limits() == old(self).limits(),
            old(self).visited() <= final(self).visited(),
            final(self).resolved().take(old(self).visited() as int) == old(self).resolved(),
            forall|i: int|
                old(self).visited() <= i < final(self).visited() ==> #[trigger] final(self).resolved()[i] is None,
            forall|i: int|
                old(self).visited() <= i < final(self).visited() ==> !admits(
                    final(self).limits(),
                    final(self).model().accepted.len(),
                    #[trigger] final(self).items()[i],
                ),
            final(self).model().accepted == old(self).model().accepted,
            r is None ==> final(self).visited() == final(self).items().len(),
            r is Some ==> final(self).pending() && r->0@ == final(self).items()[final(self).visited() as int].url@,
    {
        assert(self.resolved@.take(old(self).cursor as int) =~= old(self).resolved@);
        assert(self.items@.take(self.cursor as int).len() == self.cursor);
        assert(old(self).model().accepted == old(self).accepted@);
        while self.cursor < self.items.len()
            invariant
                self.wf(),
                self.items@ == old(self).items@,
                self.diagnostics@ == old(self).diagnostics@,
                self.limits == old(self).limits,
                old(self).cursor <= self.cursor,
                self.resolved@.take(old(self).cursor as int) == old(self).resolved@,
                forall|i: int| old(self).cursor <= i < self.cursor ==> #[trigger] self.resolved@[i] is None,
                forall|i: int|
                    old(self).cursor <= i < self.cursor ==> !admits(
                        self.limits,
                        self.accepted@.len(),
                        #[trigger] self.items@[i],
                    ),
                self.accepted@ == old(self).accepted@,
                old(self).model().accepted == old(self).accepted@,
            decreases self.items@.len() - self.cursor,
        {
            let item = &self.items[self.cursor];
            let accepted = self.accepted.len();
            if (accepted as u64) < self.limits.max_items && item.duration_secs
                <= self.limits.max_item_duration_secs {
                assert(self.items@.take(self.cursor as int).len() == self.cursor);
                assert(self.model().accepted == self.accepted@);
                return Some(item.url.clone());
            }
            proof {
                self.lemma_take_step();
                lemma_run_counts(self.items@.take(self.cursor as int), self.resolved@, self.limits);
            }
            let ghost old_resolved = self.resolved@;
            self.resolved = Ghost(self.resolved@.push(None));
            assert(self.resolved@.take(old(self).cursor as int) =~= old_resolved.take(
                old(self).cursor as int,
            ));
            proof {
                lemma_run_prefix(
                    self.items@.take(self.cursor as int),
                    old_resolved,
                    self.resolved@,
                    self.limits,
                );
            }
            self.skipped_by_limit = self.skipped_by_limit + 1;
            self.cursor = self.cursor + 1;
        }
        None
    }

    /// Records what the resolver made of the pending item: on success the
    /// track joins the session's queue and the accepted tracks, on failure
    /// the item counts as unavailable.
    pub fn record(
        &mut self,
        session: &mut GuildVoiceSession,
        outcome: Result<TrackMetadata, ResolutionError>,
    ) -> (r: Option<Track>)
        requires
            old(self).wf(),
            old(self).pending(),
        ensures
            final(self).wf(),
            final(self).items() == old(self).items(),
            final(self).diagnostics() == old(self).diagnostics(),
            final(self).limits() == old(self).limits(),
            final(self).visited() == old(self).visited() + 1,
            final(self).resolved() == old(self).resolved().push(r),
            match outcome {
                Ok(meta) => r is Some && r->0.resolved(
                    old(self).items()[old(self).visited() as int].url@,
                    true,
                    meta,
                ) && final(session)@ == old(session)@.with_track(r->0),
                Err(_) => r is None && final(session)@ == old(session)@,
            },
    {
        let ghost old_resolved = self.resolved@;
        proof {
            self.lemma_take_step();
            lemma_run_counts(self.items@.take(self.cursor as int), self.resolved@, self.limits);
        }
        let n = self.items.len();
        assert(self.cursor < n);
        let url = self.items[self.cursor].url.clone();
        let duration = self.items[self.cursor].duration_secs;
        assert(self.items@.take(self.cursor as int).len() == self.cursor);
        assert(self.accepted@.len() + self.skipped_by_limit + self.skipped_unavailable
            == self.cursor);
        let r = match outcome {
            Ok(meta) => {
                let t = Track::from_metadata(url, true, meta);
                session.enqueue(t.copy());
                assert(self.total_duration_secs + duration <= (self.cursor as nat + 1) * (
                u64::MAX as nat)) by (nonlinear_arith)
                    requires
                        self.total_duration_secs <= self.accepted@.len()
                            * self.limits.max_item_duration_secs,
                        self.accepted@.len() <= self.cursor,
                        self.limits.max_item_duration_secs <= u64::MAX,
                        duration <= u64::MAX,
                {}
                assert((self.cursor as nat + 1) * (u64::MAX as nat) <= (u64::MAX as nat) * (
                u64::MAX as nat)) by (nonlinear_arith)
                    requires
                        self.cursor < u64::MAX,
                {}
                self.accepted.push(t.copy());
                self.total_duration_secs = self.total_duration_secs + duration as u128;
                Some(t)
            },
            Err(_) => {
                self.skipped_unavailable = self.skipped_unavailable + 1;
                None
            },
        };
        self.resolved = Ghost(self.resolved@.push(r));
        proof {
            lemma_run_prefix(
                self.items@.take(self.cursor as int),
                old_resolved,
                self.resolved@,
                self.limits,
            );
        }
        self.cursor = self.cursor + 1;
        r
    }

    /// Ends the ingestion once every item was visited; the watchdog of the
    /// session is rearmed when at least one item was accepted.
    pub fn finish(self, session: &mut GuildVoiceSession) -> (r: IngestionResult)
        requires
            self.wf(),
            self.visited() == self.items().len(),
        ensures
            r.accepted@ == ingest_run(self.items(), self.resolved(), self.limits()).accepted,
            r.skipped_by_limit == ingest_run(
                self.items(),
                self.resolved(),
                self.limits(),
            ).skipped_by_limit,
            r.skipped_unavailable == ingest_run(
                self.items(),
                self.resolved(),
                self.limits(),
            ).skipped_unavailable,
            r.total_duration_secs == ingest_run(
                self.items(),
                self.resolved(),
                self.limits(),
            ).total_duration,
            r.diagnostics@ == self.diagnostics(),
            r.accepted@.len() <= self.limits().max_items,
            r.accepted@.len() + r.skipped_by_limit + r.skipped_unavailable == self.items().len(),
            final(session)@ == if r.accepted@.len() > 0 {
                old(session)@.rearmed()
            } else {
                old(session)@
            },
    {
        assert(self.items@.take(self.cursor as int) =~= self.items@);
        proof {
            lemma_run_counts(self.items@, self.resolved@, self.limits);
        }
        let Ingestion {
            accepted,
            skipped_by_limit,
            skipped_unavailable,
            total_duration_secs,
            diagnostics,
            ..
        } = self;
        if accepted.len() > 0 {
            let _ = session.rearm();
        }
        IngestionResult {
            accepted,
            skipped_by_limit,
            skipped_unavailable,
            total_duration_secs,
            diagnostics,
        }
    }
}

/// The run over `items` reads `resolved` only below `items.len()`.
pub proof fn lemma_run_prefix(
    items: Seq<PlaylistItem>,
    a: Seq<Option<Track>>,
    b: Seq<Option<Track>>,
    limits: IngestLimits,
)
    requires
        a.len() >= items.len(),
        b.len() >= items.len(),
        forall|i: int| 0 <= i < items.len() ==> a[i] == b[i],
    ensures
        ingest_run(items, a, limits) == ingest_run(items, b, limits),
    decreases items.len(),
{
    if items.len() > 0 {
        lemma_run_prefix(items.drop_last(), a, b, limits);
    }
}

} // verus!
