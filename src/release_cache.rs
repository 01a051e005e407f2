//! The release cache: a cache-aside lookup of an engine's latest release with a fixed
//! time-to-live and remembered "no latest release" answers.
//!
//! A lookup is a state machine. Each step takes the answer to the request made last and
//! yields the next request: read the cached entry, delete a stale one, ask the release
//! source, save a fresh entry, or finish with the result. Whoever drives it performs the
//! requests against the store and the source.
use crate::source_port::{
    spec_cache_key, spec_release, CachedReleaseView, CachedSourcePortRelease, ReleaseView,
    SourcePort, SourcePortError, SourcePortRelease, NO_LATEST_RELEASE,
};
use crate::storage::StorageError;
use crate::text::same_text;
use vstd::prelude::*;

verus! {

/// How long a cached entry stays fresh: 24 hours, in seconds.
pub const CACHE_TTL_SECONDS: i64 = 86400;

/// Whether an entry cached at `cached_date` is still fresh at `now` (both in seconds since
/// the Unix epoch).
pub open spec fn is_fresh(cached_date: i64, now: i64) -> bool {
    now - cached_date < CACHE_TTL_SECONDS
}

/// Whether an entry cached at `cached_date` is still fresh at `now`.
pub fn entry_is_fresh(cached_date: i64, now: i64) -> (r: bool)
    ensures
        r == is_fresh(cached_date, now),
{
    (now as i128) - (cached_date as i128) < (CACHE_TTL_SECONDS as i128)
}

/// The release that stands for a remembered absence of any latest release.
pub open spec fn absence_marker(port: SourcePort) -> ReleaseView {
    spec_release(port, NO_LATEST_RELEASE@, Seq::empty())
}

/// What a cached entry answers: the remembered absence, or the cached release.
pub open spec fn served(port: SourcePort, entry: CachedReleaseView) -> Result<ReleaseView, SourcePortError> {
    if entry.release.version == NO_LATEST_RELEASE@ {
        Err(SourcePortError::NoLatestRelease(port))
    } else {
        Ok(entry.release)
    }
}

pub open spec fn outcome_view(r: Result<SourcePortRelease, SourcePortError>) -> Result<ReleaseView, SourcePortError> {
    match r {
        Ok(release) => Ok(release@),
        Err(e) => Err(e),
    }
}

/// Where a lookup stands.
#[derive(Debug)]
pub enum LookupPhase {
    /// Waiting for the cached entry.
    ReadingCache,
    /// Waiting for a stale entry to be deleted.
    DeletingStale,
    /// Waiting for the release source's answer.
    Fetching,
    /// Waiting for the new entry to be saved; then the result is returned.
    Saving(Result<SourcePortRelease, SourcePortError>),
    /// The result has been handed out.
    Done,
}

pub enum PhaseView {
    ReadingCache,
    DeletingStale,
    Fetching,
    Saving(Result<ReleaseView, SourcePortError>),
    Done,
}

impl View for LookupPhase {
    type V = PhaseView;

    open spec fn view(&self) -> PhaseView {
        match self {
            LookupPhase::ReadingCache => PhaseView::ReadingCache,
            LookupPhase::DeletingStale => PhaseView::DeletingStale,
            LookupPhase::Fetching => PhaseView::Fetching,
            LookupPhase::Saving(r) => PhaseView::Saving(outcome_view(*r)),
            LookupPhase::Done => PhaseView::Done,
        }
    }
}

/// One lookup of an engine's latest release, made at a fixed instant.
#[derive(Debug)]
pub struct ReleaseLookup {
    pub source_port: SourcePort,
    /// The instant of the lookup, in seconds since the Unix epoch.
    pub now: i64,
    pub phase: LookupPhase,
}

pub struct LookupView {
    pub source_port: SourcePort,
    pub now: i64,
    pub phase: PhaseView,
}

impl View for ReleaseLookup {
    type V = LookupView;

    open spec fn view(&self) -> LookupView {
        LookupView { source_port: self.source_port, now: self.now, phase: self.phase@ }
    }
}

/// The answer to the request a lookup made last.
#[derive(Debug)]
pub enum LookupEvent {
    /// The cached entry, or why it could not be read.
    CacheRead(Result<CachedSourcePortRelease, StorageError>),
    /// Whether the stale entry was deleted.
    CacheDeleted(Result<(), StorageError>),
    /// The release source's answer.
    Fetched(Result<SourcePortRelease, SourcePortError>),
    /// Whether the new entry was saved.
    CacheSaved(Result<(), StorageError>),
}

pub enum EventView {
    CacheRead(Result<CachedReleaseView, StorageError>),
    CacheDeleted(Result<(), StorageError>),
    Fetched(Result<ReleaseView, SourcePortError>),
    CacheSaved(Result<(), StorageError>),
}

impl View for LookupEvent {
    type V = EventView;

    open spec fn view(&self) -> EventView {
        match self {
            LookupEvent::CacheRead(Ok(entry)) => EventView::CacheRead(Ok(entry@)),
            LookupEvent::CacheRead(Err(e)) => EventView::CacheRead(Err(*e)),
            LookupEvent::CacheDeleted(r) => EventView::CacheDeleted(*r),
            LookupEvent::Fetched(r) => EventView::Fetched(outcome_view(*r)),
            LookupEvent::CacheSaved(r) => EventView::CacheSaved(*r),
        }
    }
}

/// What a lookup asks for next.
#[derive(Debug)]
pub enum LookupAction {
    /// Read the entry stored under this key.
    ReadCache(String),
    /// Delete the entry stored under this key.
    DeleteCache(String),
    /// Ask the release source for this engine's latest release.
    FetchLatest(SourcePort),
    /// Save this entry under this key.
    SaveCache(String, CachedSourcePortRelease),
    /// The lookup is over, with this result.
    Finish(Result<SourcePortRelease, SourcePortError>),
    /// The event does not answer the pending request; nothing changed.
    Ignored,
}

pub enum ActionView {
    ReadCache(Seq<char>),
    DeleteCache(Seq<char>),
    FetchLatest(SourcePort),
    SaveCache(Seq<char>, CachedReleaseView),
    Finish(Result<ReleaseView, SourcePortError>),
    Ignored,
}

impl View for LookupAction {
    type V = ActionView;

    open spec fn view(&self) -> ActionView {
        match self {
            LookupAction::ReadCache(k) => ActionView::ReadCache(k@),
            LookupAction::DeleteCache(k) => ActionView::DeleteCache(k@),
            LookupAction::FetchLatest(p) => ActionView::FetchLatest(*p),
            LookupAction::SaveCache(k, entry) => ActionView::SaveCache(k@, entry@),
            LookupAction::Finish(r) => ActionView::Finish(outcome_view(*r)),
            LookupAction::Ignored => ActionView::Ignored,
        }
    }
}

/// The lookup `l` moved to `phase`.
pub open spec fn with_phase(l: LookupView, phase: PhaseView) -> LookupView {
    LookupView { source_port: l.source_port, now: l.now, phase }
}

/// One step of a lookup: its next state and request, given the answer to its last request.
///
/// A fresh entry is served; a stale one is deleted, then the source is asked; a read that
/// fails counts as a miss. The source's release is saved with the lookup's instant and
/// returned. "No latest release" is saved as an absence marker and the source's error is
/// returned. Any other failure of the source ends the lookup with that error and saves
/// nothing; a failure of the store ends it with the store's error.
pub open spec fn lookup_next(l: LookupView, e: EventView) -> (LookupView, ActionView) {
    let port = l.source_port;
    let key = spec_cache_key(port);
    match (l.phase, e) {
        (PhaseView::ReadingCache, EventView::CacheRead(Ok(entry))) => {
            if is_fresh(entry.cached_date, l.now) {
                (with_phase(l, PhaseView::Done), ActionView::Finish(served(port, entry)))
            } else {
                (with_phase(l, PhaseView::DeletingStale), ActionView::DeleteCache(key))
            }
        },
        (PhaseView::ReadingCache, EventView::CacheRead(Err(_))) => {
            (with_phase(l, PhaseView::Fetching), ActionView::FetchLatest(port))
        },
        (PhaseView::DeletingStale, EventView::CacheDeleted(Ok(()))) => {
            (with_phase(l, PhaseView::Fetching), ActionView::FetchLatest(port))
        },
        (PhaseView::DeletingStale, EventView::CacheDeleted(Err(se))) => {
            (with_phase(l, PhaseView::Done), ActionView::Finish(Err(SourcePortError::StorageError(se))))
        },
        (PhaseView::Fetching, EventView::Fetched(Ok(release))) => {
            (
                with_phase(l, PhaseView::Saving(Ok(release))),
                ActionView::SaveCache(key, CachedReleaseView { cached_date: l.now, release }),
            )
        },
        (PhaseView::Fetching, EventView::Fetched(Err(SourcePortError::NoLatestRelease(p)))) => {
            (
                with_phase(l, PhaseView::Saving(Err(SourcePortError::NoLatestRelease(p)))),
                ActionView::SaveCache(key, CachedReleaseView { cached_date: l.now, release: absence_marker(port) }),
            )
        },
        (PhaseView::Fetching, EventView::Fetched(Err(fe))) => {
            (with_phase(l, PhaseView::Done), ActionView::Finish(Err(fe)))
        },
        (PhaseView::Saving(outcome), EventView::CacheSaved(Ok(()))) => {
            (with_phase(l, PhaseView::Done), ActionView::Finish(outcome))
        },
        (PhaseView::Saving(_), EventView::CacheSaved(Err(se))) => {
            (with_phase(l, PhaseView::Done), ActionView::Finish(Err(SourcePortError::StorageError(se))))
        },
        _ => (l, ActionView::Ignored),
    }
}


/// The marker saved when the source reports that no release is the latest.
fn absence_release(port: SourcePort) -> (r: SourcePortRelease)
    ensures
        r@ == absence_marker(port),
{
    let (owner, repository) = port.owner_and_repository();
    let r = SourcePortRelease {
        source_port: port,
        owner: owner.to_owned(),
        repository: repository.to_owned(),
        version: NO_LATEST_RELEASE.to_owned(),
        assets: Vec::new(),
    };
    assert(r@.assets =~= Seq::<(Seq<char>, Seq<char>)>::empty());
    r
}

impl ReleaseLookup {
    /// Starts a lookup of `port`'s latest release at instant `now`; the first request reads
    /// the cached entry.
    pub fn start(port: SourcePort, now: i64) -> (r: (ReleaseLookup, LookupAction))
        ensures
            r.0@ == (LookupView { source_port: port, now, phase: PhaseView::ReadingCache }),
            r.1@ == ActionView::ReadCache(spec_cache_key(port)),
    {
        (ReleaseLookup { source_port: port, now, phase: LookupPhase::ReadingCache }, LookupAction::ReadCache(port.cache_key()))
    }

    /// Whether the lookup has handed out its result.
    pub fn is_done(&self) -> (r: bool)
        ensures
            r == (self@.phase is Done),
    {
        match self.phase {
            LookupPhase::Done => true,
            _ => false,
        }
    }

    /// Moves the lookup on by the answer to its last request.
    pub fn step(self, event: LookupEvent) -> (r: (ReleaseLookup, LookupAction))
        ensures
            (r.0@, r.1@) == lookup_next(self@, event@),
    {
        let port = self.source_port;
        let now = self.now;
        match (self.phase, event) {
            (LookupPhase::ReadingCache, LookupEvent::CacheRead(Ok(entry))) => {
                if entry_is_fresh(entry.cached_date, now) {
                    let outcome = if same_text(entry.release.version.as_str(), NO_LATEST_RELEASE) {
                        Err(SourcePortError::NoLatestRelease(port))
                    } else {
                        Ok(entry.release)
                    };
                    (ReleaseLookup { source_port: port, now, phase: LookupPhase::Done }, LookupAction::Finish(outcome))
                } else {
                    (ReleaseLookup { source_port: port, now, phase: LookupPhase::DeletingStale }, LookupAction::DeleteCache(port.cache_key()))
                }
            },
            (LookupPhase::ReadingCache, LookupEvent::CacheRead(Err(_))) => {
                (ReleaseLookup { source_port: port, now, phase: LookupPhase::Fetching }, LookupAction::FetchLatest(port))
            },
            (LookupPhase::DeletingStale, LookupEvent::CacheDeleted(Ok(()))) => {
                (ReleaseLookup { source_port: port, now, phase: LookupPhase::Fetching }, LookupAction::FetchLatest(port))
            },
            (LookupPhase::DeletingStale, LookupEvent::CacheDeleted(Err(se))) => {
                (
                    ReleaseLookup { source_port: port, now, phase: LookupPhase::Done },
                    LookupAction::Finish(Err(SourcePortError::StorageError(se))),
                )
            },
            (LookupPhase::Fetching, LookupEvent::Fetched(Ok(release))) => {
                let entry = CachedSourcePortRelease { cached_date: now, release: release.clone() };
                (
                    ReleaseLookup { source_port: port, now, phase: LookupPhase::Saving(Ok(release)) },
                    LookupAction::SaveCache(port.cache_key(), entry),
                )
            },
            (LookupPhase::Fetching, LookupEvent::Fetched(Err(SourcePortError::NoLatestRelease(p)))) => {
                let entry = CachedSourcePortRelease { cached_date: now, release: absence_release(port) };
                (
                    ReleaseLookup {
                        source_port: port,
                        now,
                        phase: LookupPhase::Saving(Err(SourcePortError::NoLatestRelease(p))),
                    },
                    LookupAction::SaveCache(port.cache_key(), entry),
                )
            },
            (LookupPhase::Fetching, LookupEvent::Fetched(Err(fe))) => {
                (ReleaseLookup { source_port: port, now, phase: LookupPhase::Done }, LookupAction::Finish(Err(fe)))
            },
            (LookupPhase::Saving(outcome), LookupEvent::CacheSaved(Ok(()))) => {
                (ReleaseLookup { source_port: port, now, phase: LookupPhase::Done }, LookupAction::Finish(outcome))
            },
            (LookupPhase::Saving(_), LookupEvent::CacheSaved(Err(se))) => {
                (
                    ReleaseLookup { source_port: port, now, phase: LookupPhase::Done },
                    LookupAction::Finish(Err(SourcePortError::StorageError(se))),
                )
            },
            (phase, _) => (ReleaseLookup { source_port: port, now, phase }, LookupAction::Ignored),
        }
    }
}


/// The requests a lookup makes when it is given `events` in turn, starting from `l`.
pub open spec fn run_lookup(l: LookupView, events: Seq<EventView>) -> Seq<ActionView>
    decreases events.len(),
{
    if events.len() == 0 {
        Seq::empty()
    } else {
        let (next, action) = lookup_next(l, events[0]);
        seq![action] + run_lookup(next, events.drop_first())
    }
}

/// How many times a list of requests asks the release source.
pub open spec fn source_requests(actions: Seq<ActionView>) -> nat
    decreases actions.len(),
{
    if actions.len() == 0 {
        0
    } else {
        (if actions[0] is FetchLatest { 1nat } else { 0nat }) + source_requests(actions.drop_first())
    }
}

/// Whether a list of requests saves anything to the store.
pub open spec fn saves_any(actions: Seq<ActionView>) -> bool {
    exists|i: int| 0 <= i < actions.len() && (#[trigger] actions[i]) is SaveCache
}

/// The events of a refresh that goes through: the stale entry is deleted, the source answers
/// with `fetched`, and the new entry is saved.
pub open spec fn refresh_events(stale: CachedReleaseView, fetched: Result<ReleaseView, SourcePortError>) -> Seq<EventView> {
    seq![
        EventView::CacheRead(Ok(stale)),
        EventView::CacheDeleted(Ok(())),
        EventView::Fetched(fetched),
        EventView::CacheSaved(Ok(())),
    ]
}

/// A finished lookup ignores whatever it is given: it asks nothing more of the store or the
/// source.
pub proof fn lemma_done_is_final(l: LookupView, events: Seq<EventView>)
    requires
        l.phase is Done,
    ensures
        forall|i: int| 0 <= i < events.len() ==> (#[trigger] run_lookup(l, events)[i]) is Ignored,
        run_lookup(l, events).len() == events.len(),
        source_requests(run_lookup(l, events)) == 0,
        !saves_any(run_lookup(l, events)),
    decreases events.len(),
{
    if events.len() > 0 {
        lemma_done_is_final(l, events.drop_first());
        let rest = run_lookup(l, events.drop_first());
        assert(lookup_next(l, events[0]) == (l, ActionView::Ignored));
        assert(run_lookup(l, events) == seq![ActionView::Ignored] + rest);
        assert forall|i: int| 0 <= i < events.len() implies (#[trigger] run_lookup(l, events)[i]) is Ignored by {
            if i > 0 {
                assert(run_lookup(l, events)[i] == rest[i - 1]);
            }
        }
        assert(run_lookup(l, events).drop_first() =~= rest);
    }
}

/// Freshness: a cache entry younger than the time-to-live is served as it stands (a
/// remembered absence as "no latest release"), and the lookup ends there without asking the
/// release source, whatever it is given afterwards.
pub proof fn lemma_fresh_entry_is_served(l: LookupView, entry: CachedReleaseView, later: Seq<EventView>)
    requires
        l.phase is ReadingCache,
        is_fresh(entry.cached_date, l.now),
    ensures
        lookup_next(l, EventView::CacheRead(Ok(entry)))
            == (with_phase(l, PhaseView::Done), ActionView::Finish(served(l.source_port, entry))),
        entry.release.version != NO_LATEST_RELEASE@ ==> served(l.source_port, entry) == Ok::<ReleaseView, SourcePortError>(entry.release),
        source_requests(run_lookup(l, seq![EventView::CacheRead(Ok(entry))] + later)) == 0,
{
    let events = seq![EventView::CacheRead(Ok(entry))] + later;
    let done = with_phase(l, PhaseView::Done);
    lemma_done_is_final(done, later);
    assert(events.drop_first() =~= later);
    let actions = run_lookup(l, events);
    assert(actions.drop_first() =~= run_lookup(done, later));
}

/// A lookup asks the release source at most once, and not at all once it has asked.
pub proof fn lemma_source_asked_at_most_once(l: LookupView, events: Seq<EventView>)
    ensures
        source_requests(run_lookup(l, events)) <= 1,
        !(l.phase is ReadingCache || l.phase is DeletingStale) ==> source_requests(run_lookup(l, events)) == 0,
    decreases events.len(),
{
    if events.len() > 0 {
        let (next, action) = lookup_next(l, events[0]);
        lemma_source_asked_at_most_once(next, events.drop_first());
        assert(run_lookup(l, events).drop_first() =~= run_lookup(next, events.drop_first()));
        if action is FetchLatest {
            assert(next.phase is Fetching);
        }
        if !(l.phase is ReadingCache || l.phase is DeletingStale) {
            assert(!(action is FetchLatest));
            assert(!(next.phase is ReadingCache || next.phase is DeletingStale));
        }
    }
}

/// Staleness: a cache entry at or past the time-to-live is deleted, the release source is
/// asked once, and the release it gives is saved with the lookup's instant and returned.
pub proof fn lemma_stale_entry_is_refreshed(l: LookupView, stale: CachedReleaseView, fetched: ReleaseView)
    requires
        l.phase is ReadingCache,
        !is_fresh(stale.cached_date, l.now),
    ensures
        run_lookup(l, refresh_events(stale, Ok(fetched))) == seq![
            ActionView::DeleteCache(spec_cache_key(l.source_port)),
            ActionView::FetchLatest(l.source_port),
            ActionView::SaveCache(spec_cache_key(l.source_port), CachedReleaseView { cached_date: l.now, release: fetched }),
            ActionView::Finish(Ok(fetched)),
        ],
        source_requests(run_lookup(l, refresh_events(stale, Ok(fetched)))) == 1,
{
    let events = refresh_events(stale, Ok(fetched));
    let key = spec_cache_key(l.source_port);
    let l1 = with_phase(l, PhaseView::DeletingStale);
    let l2 = with_phase(l, PhaseView::Fetching);
    let l3 = with_phase(l, PhaseView::Saving(Ok(fetched)));
    let l4 = with_phase(l, PhaseView::Done);
    let e1 = events.drop_first();
    let e2 = e1.drop_first();
    let e3 = e2.drop_first();
    let e4 = e3.drop_first();
    assert(e4.len() == 0);
    let a4 = run_lookup(l4, e4);
    let a3 = run_lookup(l3, e3);
    let a2 = run_lookup(l2, e2);
    let a1 = run_lookup(l1, e1);
    let a0 = run_lookup(l, events);
    assert(a3 == seq![ActionView::Finish(Ok(fetched))] + a4);
    assert(a2 == seq![ActionView::SaveCache(key, CachedReleaseView { cached_date: l.now, release: fetched })] + a3);
    assert(a1 == seq![ActionView::FetchLatest(l.source_port)] + a2);
    assert(a0 == seq![ActionView::DeleteCache(key)] + a1);
    assert(a0 =~= seq![
        ActionView::DeleteCache(key),
        ActionView::FetchLatest(l.source_port),
        ActionView::SaveCache(key, CachedReleaseView { cached_date: l.now, release: fetched }),
        ActionView::Finish(Ok(fetched)),
    ]);
    assert(a0.drop_first() =~= a1);
    assert(a1.drop_first() =~= a2);
    assert(a2.drop_first() =~= a3);
    assert(a3.drop_first() =~= a4);
    assert(source_requests(a4) == 0);
    assert(source_requests(a3) == 0);
    assert(source_requests(a2) == 0);
    assert(source_requests(a1) == 1);
    assert(source_requests(a0) == 1);
}

/// Negative memoization: when the source reports that no release is the latest, an absence
/// marker is saved with the lookup's instant and the source's error is returned; a later
/// lookup of the same engine that reads that marker within the time-to-live answers "no
/// latest release" without asking the source.
pub proof fn lemma_absence_is_remembered(l: LookupView, p: SourcePort, later_lookup: LookupView, later: Seq<EventView>)
    requires
        l.phase is Fetching,
        later_lookup.phase is ReadingCache,
        later_lookup.source_port == l.source_port,
        is_fresh(l.now, later_lookup.now),
    ensures
        ({
            let marker = CachedReleaseView { cached_date: l.now, release: absence_marker(l.source_port) };
            let (saving, request) = lookup_next(l, EventView::Fetched(Err(SourcePortError::NoLatestRelease(p))));
            &&& request == ActionView::SaveCache(spec_cache_key(l.source_port), marker)
            &&& lookup_next(saving, EventView::CacheSaved(Ok(())))
                == (with_phase(l, PhaseView::Done), ActionView::Finish(Err(SourcePortError::NoLatestRelease(p))))
            &&& lookup_next(later_lookup, EventView::CacheRead(Ok(marker))).1
                == ActionView::Finish(Err(SourcePortError::NoLatestRelease(l.source_port)))
            &&& source_requests(run_lookup(later_lookup, seq![EventView::CacheRead(Ok(marker))] + later)) == 0
        }),
{
    let marker = CachedReleaseView { cached_date: l.now, release: absence_marker(l.source_port) };
    lemma_fresh_entry_is_served(later_lookup, marker, later);
}

/// Transient failures are not remembered: any failure of the source other than "no latest
/// release" ends the lookup with that very error, and nothing is saved afterwards.
pub proof fn lemma_transient_failure_not_cached(l: LookupView, failure: SourcePortError, later: Seq<EventView>)
    requires
        l.phase is Fetching,
        !(failure is NoLatestRelease),
    ensures
        lookup_next(l, EventView::Fetched(Err(failure)))
            == (with_phase(l, PhaseView::Done), ActionView::Finish(Err(failure))),
        !saves_any(run_lookup(l, seq![EventView::Fetched(Err(failure))] + later)),
{
    let events = seq![EventView::Fetched(Err(failure))] + later;
    let done = with_phase(l, PhaseView::Done);
    lemma_done_is_final(done, later);
    assert(events.drop_first() =~= later);
    let actions = run_lookup(l, events);
    assert(actions.drop_first() =~= run_lookup(done, later));
    if saves_any(actions) {
        let i = choose|i: int| 0 <= i < actions.len() && (#[trigger] actions[i]) is SaveCache;
        if i > 0 {
            assert(actions[i] == run_lookup(done, later)[i - 1]);
        }
    }
}

} // verus!
