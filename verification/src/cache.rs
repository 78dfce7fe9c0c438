//! The cached release catalog of one repository: when the cache file is good
//! enough, when the remote source is asked, and what is served when the
//! source does not answer.

use vstd::prelude::*;
use crate::app::{AppState, AppStateModel, UpdaterState};
use crate::flavors::{Flavor, FlavorModel};
use crate::github_util::{
    clone_releases,
    GitHubUtilError,
    GitHubUtilErrorModel,
    Release,
    ReleaseModel,
};

verus! {

/// For how many seconds after it was written a cache file is served without
/// asking the remote source.
pub const FRESHNESS_WINDOW_SECS: u64 = 84_600;

/// What is known of a cache file before it is read.
#[derive(Clone, Copy, Debug, PartialEq, Eq, Structural)]
pub enum CacheProbe {
    /// There is no cache file.
    Missing,
    /// There is one, but when it was written cannot be told.
    Unreadable,
    /// There is one.
    Found {
        /// When it was written, in seconds since the epoch.
        modified: u64,
        /// How many whole seconds ago that was. `None` where it lies in the
        /// future.
        age_secs: Option<u64>,
    },
}

/// Where a lookup stands.
#[derive(Clone, Copy, Debug, PartialEq, Eq, Structural)]
pub enum LookupPhase {
    /// A fresh cache file is being read.
    ReadingFresh,
    /// The remote source is being asked.
    Fetching,
    /// The source failed; the cache file is being read in its place.
    ReadingStale,
    /// The fetched list is being written to the cache file.
    Persisting,
    /// The lookup is over.
    Done,
}

/// What the caller of a lookup does next.
#[derive(Debug)]
pub enum CatalogAction {
    /// Read the cache file and report what it holds.
    ReadCache,
    /// List every release of the repository and report the result.
    Fetch,
    /// Replace the cache file with this list and report whether that worked.
    Persist(Vec<Release>),
    /// The lookup is over: this is the catalog, or nothing.
    Finish(Option<Vec<Release>>),
}

/// A [`CatalogAction`] as mathematical values.
pub enum CatalogActionModel {
    ReadCache,
    Fetch,
    Persist(Seq<ReleaseModel>),
    Finish(Option<Seq<ReleaseModel>>),
}

impl View for CatalogAction {
    type V = CatalogActionModel;

    open spec fn view(&self) -> CatalogActionModel {
        match self {
            CatalogAction::ReadCache => CatalogActionModel::ReadCache,
            CatalogAction::Fetch => CatalogActionModel::Fetch,
            CatalogAction::Persist(list) => CatalogActionModel::Persist(list.deep_view()),
            CatalogAction::Finish(found) => CatalogActionModel::Finish(found.deep_view()),
        }
    }
}

/// What the caller of a lookup reports back.
#[derive(Debug)]
pub enum CatalogEvent {
    /// The cache file was read: the list it holds, or nothing where it could
    /// not be read or is no release list.
    CacheRead(Option<Vec<Release>>),
    /// The remote source was asked.
    Fetched {
        result: Result<Vec<Release>, GitHubUtilError>,
        /// The time of the answer, in seconds since the epoch.
        now: u64,
    },
    /// The cache file was written, or could not be.
    Persisted(bool),
}

/// A [`CatalogEvent`] as mathematical values.
pub enum CatalogEventModel {
    CacheRead(Option<Seq<ReleaseModel>>),
    Fetched { result: Result<Seq<ReleaseModel>, GitHubUtilErrorModel>, now: u64 },
    Persisted(bool),
}

impl View for CatalogEvent {
    type V = CatalogEventModel;

    open spec fn view(&self) -> CatalogEventModel {
        match self {
            CatalogEvent::CacheRead(found) => CatalogEventModel::CacheRead(found.deep_view()),
            CatalogEvent::Fetched { result, now } => CatalogEventModel::Fetched {
                result: match result {
                    Ok(list) => Ok(list.deep_view()),
                    Err(error) => Err(error@),
                },
                now: *now,
            },
            CatalogEvent::Persisted(ok) => CatalogEventModel::Persisted(*ok),
        }
    }
}

/// One lookup of a repository's catalog.
#[derive(Debug)]
pub struct CatalogLookup {
    probe: CacheProbe,
    phase: LookupPhase,
    pending: Option<Vec<Release>>,
}

/// A [`CatalogLookup`] as mathematical values.
pub struct LookupModel {
    /// What was known of the cache file when the lookup began.
    pub probe: CacheProbe,
    pub phase: LookupPhase,
    /// The fetched list while it is being written to the cache file.
    pub pending: Option<Seq<ReleaseModel>>,
}

impl View for CatalogLookup {
    type V = LookupModel;

    closed spec fn view(&self) -> LookupModel {
        LookupModel { probe: self.probe, phase: self.phase, pending: self.pending.deep_view() }
    }
}

/// One move of a lookup: where it stands afterwards, the time to record as
/// the last check of the catalogs (nothing where that stays as it is), and
/// what the caller does next.
pub struct LookupMove {
    pub lookup: LookupModel,
    pub last_check: Option<u64>,
    pub action: CatalogActionModel,
}

/// The move that ends a lookup with `found`.
pub open spec fn finished(probe: CacheProbe, found: Option<Seq<ReleaseModel>>) -> LookupMove {
    LookupMove {
        lookup: LookupModel { probe, phase: LookupPhase::Done, pending: None },
        last_check: None,
        action: CatalogActionModel::Finish(found),
    }
}

/// The move that asks the remote source.
pub open spec fn fetching(probe: CacheProbe) -> LookupMove {
    LookupMove {
        lookup: LookupModel { probe, phase: LookupPhase::Fetching, pending: None },
        last_check: None,
        action: CatalogActionModel::Fetch,
    }
}

/// Whether a cache file is served without asking the remote source: it is
/// there and younger than the freshness window.
pub open spec fn is_fresh(probe: CacheProbe) -> bool {
    match probe {
        CacheProbe::Found { modified, age_secs } => age_secs is Some && age_secs->0
            < FRESHNESS_WINDOW_SECS,
        _ => false,
    }
}

/// When a cache file was written, where that can be told.
pub open spec fn written_at(probe: CacheProbe) -> Option<u64> {
    match probe {
        CacheProbe::Found { modified, age_secs } => Some(modified),
        _ => None,
    }
}

/// The move that reads the cache file in phase `phase`. The time the file
/// was written counts as the last check, where it can be told.
pub open spec fn reading(probe: CacheProbe, phase: LookupPhase) -> LookupMove {
    LookupMove {
        lookup: LookupModel { probe, phase, pending: None },
        last_check: written_at(probe),
        action: CatalogActionModel::ReadCache,
    }
}

/// The first move of a lookup.
///
/// A fresh cache file is read, unless `renew` asks for the remote source
/// whatever the cache holds. In every other case the source is asked: where
/// the file is too old, where there is none, and where its age cannot be
/// told.
pub open spec fn lookup_begin(renew: bool, probe: CacheProbe) -> LookupMove {
    if !renew && is_fresh(probe) {
        reading(probe, LookupPhase::ReadingFresh)
    } else {
        fetching(probe)
    }
}

/// The move that follows `event`.
///
/// A fresh cache file that holds releases is the catalog; one that holds
/// none, or cannot be read as a release list, counts as damaged and has the
/// source asked. A fetched list that holds releases is written to the cache
/// file, and the time of the answer counts as the last check; it is the
/// catalog once it is written. An empty one ends the lookup with nothing.
/// Where the source fails and there is a cache file, that file is read,
/// however old, the time it was written counts as the last check where it
/// can be told, and what the file holds is the catalog. Where there is none
/// the lookup ends with nothing and the last check stays as it is. A report
/// that does not answer the last action ends the lookup with nothing.
pub open spec fn lookup_advance(lookup: LookupModel, event: CatalogEventModel) -> LookupMove {
    match (lookup.phase, event) {
        (LookupPhase::ReadingFresh, CatalogEventModel::CacheRead(found)) => match found {
            Some(list) => if list.len() == 0 {
                fetching(lookup.probe)
            } else {
                finished(lookup.probe, Some(list))
            },
            None => fetching(lookup.probe),
        },
        (LookupPhase::Fetching, CatalogEventModel::Fetched { result, now }) => match result {
            Ok(list) => if list.len() == 0 {
                finished(lookup.probe, None)
            } else {
                LookupMove {
                    lookup: LookupModel {
                        probe: lookup.probe,
                        phase: LookupPhase::Persisting,
                        pending: Some(list),
                    },
                    last_check: Some(now),
                    action: CatalogActionModel::Persist(list),
                }
            },
            Err(_) => if lookup.probe == CacheProbe::Missing {
                finished(lookup.probe, None)
            } else {
                reading(lookup.probe, LookupPhase::ReadingStale)
            },
        },
        (LookupPhase::ReadingStale, CatalogEventModel::CacheRead(found)) => finished(
            lookup.probe,
            found,
        ),
        (LookupPhase::Persisting, CatalogEventModel::Persisted(ok)) => if ok {
            finished(lookup.probe, lookup.pending)
        } else {
            finished(lookup.probe, None)
        },
        _ => finished(lookup.probe, None),
    }
}

/// `state` with the last check of the catalogs recorded, where there is one
/// to record.
pub open spec fn with_last_check(state: AppStateModel, last_check: Option<u64>) -> AppStateModel {
    match last_check {
        Some(time) => AppStateModel { updater_last_check: Some(time), ..state },
        None => state,
    }
}

impl CatalogLookup {
    /// Begins a lookup. `renew_cache` asks for the remote source whatever the
    /// cache holds; `probe` says what is known of the cache file.
    pub fn begin(renew_cache: bool, probe: CacheProbe, state: &mut AppState) -> (out: (
        CatalogLookup,
        CatalogAction,
    ))
        ensures
            out.0@ == lookup_begin(renew_cache, probe).lookup,
            out.1@ == lookup_begin(renew_cache, probe).action,
            final(state)@ == with_last_check(
                old(state)@,
                lookup_begin(renew_cache, probe).last_check,
            ),
    {
        let fetch = (
            CatalogLookup { probe, phase: LookupPhase::Fetching, pending: None },
            CatalogAction::Fetch,
        );
        if renew_cache {
            return fetch;
        }
        match probe {
            CacheProbe::Found { modified, age_secs: Some(age) } => {
                if age < FRESHNESS_WINDOW_SECS {
                    state.updater_last_check = Some(modified);
                    (
                        CatalogLookup { probe, phase: LookupPhase::ReadingFresh, pending: None },
                        CatalogAction::ReadCache,
                    )
                } else {
                    fetch
                }
            },
            _ => fetch,
        }
    }

    /// Takes in the report on the last action and says what to do next.
    pub fn advance(self, event: CatalogEvent, state: &mut AppState) -> (out: (
        CatalogLookup,
        CatalogAction,
    ))
        ensures
            out.0@ == lookup_advance(self@, event@).lookup,
            out.1@ == lookup_advance(self@, event@).action,
            final(state)@ == with_last_check(
                old(state)@,
                lookup_advance(self@, event@).last_check,
            ),
    {
        let CatalogLookup { probe, phase, pending } = self;
        let done = CatalogLookup { probe, phase: LookupPhase::Done, pending: None };
        let fetch = (
            CatalogLookup { probe, phase: LookupPhase::Fetching, pending: None },
            CatalogAction::Fetch,
        );
        match (phase, event) {
            (LookupPhase::ReadingFresh, CatalogEvent::CacheRead(found)) => match found {
                Some(list) => {
                    if list.len() == 0 {
                        fetch
                    } else {
                        (done, CatalogAction::Finish(Some(list)))
                    }
                },
                None => fetch,
            },
            (LookupPhase::Fetching, CatalogEvent::Fetched { result, now }) => match result {
                Ok(list) => {
                    if list.len() == 0 {
                        (done, CatalogAction::Finish(None))
                    } else {
                        state.updater_last_check = Some(now);
                        let copy = clone_releases(&list);
                        (
                            CatalogLookup {
                                probe,
                                phase: LookupPhase::Persisting,
                                pending: Some(list),
                            },
                            CatalogAction::Persist(copy),
                        )
                    }
                },
                Err(_) => {
                    let stale = (
                        CatalogLookup { probe, phase: LookupPhase::ReadingStale, pending: None },
                        CatalogAction::ReadCache,
                    );
                    match probe {
                        CacheProbe::Missing => (done, CatalogAction::Finish(None)),
                        CacheProbe::Unreadable => stale,
                        CacheProbe::Found { modified, age_secs: _ } => {
                            state.updater_last_check = Some(modified);
                            stale
                        },
                    }
                },
            },
            (LookupPhase::ReadingStale, CatalogEvent::CacheRead(found)) => (
                done,
                CatalogAction::Finish(found),
            ),
            (LookupPhase::Persisting, CatalogEvent::Persisted(ok)) => {
                if ok {
                    (done, CatalogAction::Finish(pending))
                } else {
                    (done, CatalogAction::Finish(None))
                }
            },
            _ => (done, CatalogAction::Finish(None)),
        }
    }
}

/// `state` while the catalogs are being refreshed.
pub open spec fn checking(state: AppStateModel) -> AppStateModel {
    AppStateModel { updater_state: UpdaterState::Checking, ..state }
}

/// `state` once the catalogs have been refreshed to `catalogs`.
pub open spec fn with_catalogs(state: AppStateModel, catalogs: Seq<FlavorModel>) -> AppStateModel {
    AppStateModel { flavors: catalogs, updater_state: UpdaterState::Idle, ..state }
}

impl AppState {
    /// Marks the catalogs as being refreshed.
    pub fn begin_flavor_check(&mut self)
        ensures
            final(self)@ == checking(old(self)@),
    {
        self.updater_state = UpdaterState::Checking;
    }

    /// Takes in the refreshed catalogs and marks the refresh as over.
    pub fn finish_flavor_check(&mut self, catalogs: Vec<Flavor>)
        ensures
            final(self)@ == with_catalogs(old(self)@, catalogs.deep_view()),
    {
        self.flavors = catalogs;
        self.updater_state = UpdaterState::Idle;
    }
}

/// A lookup that is not forced reads a cache file exactly when the file is
/// younger than the freshness window, and asks the remote source in every
/// other case: where the file is at least that old, where it is missing, and
/// where its age cannot be told.
pub proof fn lemma_cache_freshness(probe: CacheProbe, modified: u64, age: u64)
    ensures
        age < FRESHNESS_WINDOW_SECS ==> lookup_begin(
            false,
            CacheProbe::Found { modified, age_secs: Some(age) },
        ).action == CatalogActionModel::ReadCache,
        age >= FRESHNESS_WINDOW_SECS ==> lookup_begin(
            false,
            CacheProbe::Found { modified, age_secs: Some(age) },
        ).action == CatalogActionModel::Fetch,
        is_fresh(probe) ==> lookup_begin(false, probe).action == CatalogActionModel::ReadCache,
        !is_fresh(probe) ==> lookup_begin(false, probe) == fetching(probe),
{
}

/// A lookup ends without the remote source being asked only by serving a
/// fresh cache file that holds releases. A fresh file that holds none, or
/// cannot be read as a release list, has the source asked, and what the
/// source then answers is the catalog.
pub proof fn lemma_unusable_cache_is_refetched(
    probe: CacheProbe,
    cached: Option<Seq<ReleaseModel>>,
    fetched: Seq<ReleaseModel>,
    now: u64,
)
    requires
        is_fresh(probe),
        cached is None || cached->0.len() == 0,
        fetched.len() > 0,
    ensures
        ({
            let read = lookup_advance(
                lookup_begin(false, probe).lookup,
                CatalogEventModel::CacheRead(cached),
            );
            let stored = lookup_advance(
                read.lookup,
                CatalogEventModel::Fetched { result: Ok(fetched), now },
            );
            &&& read == fetching(probe)
            &&& stored.action == CatalogActionModel::Persist(fetched)
            &&& lookup_advance(stored.lookup, CatalogEventModel::Persisted(true)).action
                == CatalogActionModel::Finish(Some(fetched))
        }),
{
}

/// A fresh cache file that holds releases is served without the remote source
/// being asked: the lookup reads the file and ends with what it holds, and
/// the time the file was written is the last check.
pub proof fn lemma_fresh_cache_is_served(modified: u64, age: u64, cached: Seq<ReleaseModel>)
    requires
        age < FRESHNESS_WINDOW_SECS,
        cached.len() > 0,
    ensures
        ({
            let probe = CacheProbe::Found { modified, age_secs: Some(age) };
            let first = lookup_begin(false, probe);
            let second = lookup_advance(first.lookup, CatalogEventModel::CacheRead(Some(cached)));
            &&& first.action == CatalogActionModel::ReadCache
            &&& first.last_check == Some(modified)
            &&& second.action == CatalogActionModel::Finish(Some(cached))
            &&& second.last_check is None
        }),
{
}

/// A forced lookup asks the remote source whatever the cache holds.
pub proof fn lemma_forced_lookup_fetches(probe: CacheProbe)
    ensures
        lookup_begin(true, probe).action == CatalogActionModel::Fetch,
        lookup_begin(true, probe).last_check is None,
{
}

/// Where the remote source fails and a cache file is there, the lookup ends
/// with what the file holds, and the time the file was written is the last
/// check, where it can be told. Where no cache file is there, it ends with
/// nothing and records no check.
pub proof fn lemma_stale_cache_fallback(
    probe: CacheProbe,
    error: GitHubUtilErrorModel,
    now: u64,
    cached: Seq<ReleaseModel>,
)
    ensures
        ({
            let failed = lookup_advance(
                fetching(probe).lookup,
                CatalogEventModel::Fetched { result: Err(error), now },
            );
            &&& probe != CacheProbe::Missing ==> {
                &&& failed.action == CatalogActionModel::ReadCache
                &&& failed.last_check == written_at(probe)
                &&& lookup_advance(
                    failed.lookup,
                    CatalogEventModel::CacheRead(Some(cached)),
                ).action == CatalogActionModel::Finish(Some(cached))
            }
            &&& probe == CacheProbe::Missing ==> {
                &&& failed.action == CatalogActionModel::Finish(None)
                &&& failed.last_check is None
            }
        }),
{
}

/// A fetched catalog is handed out only after it was written to the cache
/// file, and it is the list that was fetched.
pub proof fn lemma_fetched_catalog_is_persisted(probe: CacheProbe, fetched: Seq<ReleaseModel>, now: u64)
    requires
        fetched.len() > 0,
    ensures
        ({
            let stored = lookup_advance(
                fetching(probe).lookup,
                CatalogEventModel::Fetched { result: Ok(fetched), now },
            );
            &&& stored.action == CatalogActionModel::Persist(fetched)
            &&& stored.last_check == Some(now)
            &&& lookup_advance(stored.lookup, CatalogEventModel::Persisted(true)).action
                == CatalogActionModel::Finish(Some(fetched))
            &&& lookup_advance(stored.lookup, CatalogEventModel::Persisted(false)).action
                == CatalogActionModel::Finish(None)
        }),
{
}

} // verus!
