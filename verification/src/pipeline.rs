//! The fetch/cache/fallback decisions.
//!
//! Each refresh trigger runs the same sequence: consult the cache entry
//! ([`plan_fetch`]); if it is fresh, serve it without touching the network;
//! otherwise let the caller perform the one network request and hand the
//! outcome back ([`settle_fetch`]), which merges screenshots into a
//! successful batch and schedules the cache write, or falls back to the
//! cache entry of any age; [`repos_or_fallback`] finally absorbs total
//! failure by substituting the static reference set.
//!
//! The caller (the UI shell) owns the actual I/O: it reads and writes the
//! durable store, issues the request, and reads the clock. These functions
//! decide everything else and are verified for every value the I/O can
//! produce.

use vstd::prelude::*;

use crate::model::CacheEntryView;
use crate::model::CachedRepos;
use crate::model::Repo;
use crate::model::RepoView;
use crate::fallback::static_fallback;
use crate::fallback::static_fallback_view;
use crate::merge::merge_screenshots;
use crate::merge::merge_views;
use crate::CACHE_TTL_SECS;
use crate::is_stale;
use crate::spec_age_secs;
use crate::spec_is_stale;

verus! {

/// Why a network attempt yielded no records: the request never completed,
/// the response carried a non-success status, or the body did not decode.
#[derive(Debug, PartialEq)]
pub enum FetchError {
    Transport(String),
    Status(u16),
    Parse(String),
}

/// The mathematical image of a [`FetchError`].
pub enum FetchErrorView {
    Transport(Seq<char>),
    Status(u16),
    Parse(Seq<char>),
}

impl DeepView for FetchError {
    type V = FetchErrorView;

    open spec fn deep_view(&self) -> FetchErrorView {
        match self {
            FetchError::Transport(m) => FetchErrorView::Transport(m@),
            FetchError::Status(s) => FetchErrorView::Status(*s),
            FetchError::Parse(m) => FetchErrorView::Parse(m@),
        }
    }
}

/// What one network attempt produced: a decoded batch of records, or one of
/// the three failure classes.
#[derive(Debug, PartialEq)]
pub enum FetchOutcome {
    Success(Vec<Repo>),
    Failed(FetchError),
}

/// The mathematical image of a [`FetchOutcome`].
pub enum FetchOutcomeView {
    Success(Seq<RepoView>),
    Failed(FetchErrorView),
}

impl DeepView for FetchOutcome {
    type V = FetchOutcomeView;

    open spec fn deep_view(&self) -> FetchOutcomeView {
        match self {
            FetchOutcome::Success(batch) => FetchOutcomeView::Success(batch.deep_view()),
            FetchOutcome::Failed(e) => FetchOutcomeView::Failed(e.deep_view()),
        }
    }
}

/// The decision taken on entry: serve the fresh cache entry as it is, or go
/// to the network.
#[derive(Debug, PartialEq)]
pub enum FetchPlan {
    UseCache(Vec<Repo>),
    Refresh,
}

/// The mathematical image of a [`FetchPlan`].
pub enum FetchPlanView {
    UseCache(Seq<RepoView>),
    Refresh,
}

impl DeepView for FetchPlan {
    type V = FetchPlanView;

    open spec fn deep_view(&self) -> FetchPlanView {
        match self {
            FetchPlan::UseCache(repos) => FetchPlanView::UseCache(repos.deep_view()),
            FetchPlan::Refresh => FetchPlanView::Refresh,
        }
    }
}

/// Where the records to deliver came from: the cache, a merged network
/// batch, or nowhere (both failed; the wrapper substitutes the static set).
#[derive(Debug, PartialEq)]
pub enum RepoSource {
    Cache(Vec<Repo>),
    Network(Vec<Repo>),
    Unavailable(FetchError),
}

/// The mathematical image of a [`RepoSource`].
pub enum RepoSourceView {
    Cache(Seq<RepoView>),
    Network(Seq<RepoView>),
    Unavailable(FetchErrorView),
}

impl DeepView for RepoSource {
    type V = RepoSourceView;

    open spec fn deep_view(&self) -> RepoSourceView {
        match self {
            RepoSource::Cache(repos) => RepoSourceView::Cache(repos.deep_view()),
            RepoSource::Network(repos) => RepoSourceView::Network(repos.deep_view()),
            RepoSource::Unavailable(e) => RepoSourceView::Unavailable(e.deep_view()),
        }
    }
}

/// How a settled network attempt ends: the records to deliver, and the cache
/// entry to persist, if any. The store is written only on success, and then
/// with exactly the delivered records.
#[derive(Debug, PartialEq)]
pub struct SettledFetch {
    pub result: RepoSource,
    pub store_write: Option<CachedRepos>,
}

/// The mathematical image of a [`SettledFetch`].
#[verifier::ext_equal]
pub struct SettledFetchView {
    pub result: RepoSourceView,
    pub store_write: Option<CacheEntryView>,
}

impl DeepView for SettledFetch {
    type V = SettledFetchView;

    open spec fn deep_view(&self) -> SettledFetchView {
        SettledFetchView {
            result: self.result.deep_view(),
            store_write: self.store_write.deep_view(),
        }
    }
}

/// The decision taken on entry: a cache entry younger than the freshness
/// window is served as it is; anything else (stale or absent) sends the
/// caller to the network.
pub open spec fn plan_fetch_view(cached: Option<CacheEntryView>, now: u64) -> FetchPlanView {
    match cached {
        Some(entry) => if !spec_is_stale(entry.fetched_at, now) {
            FetchPlanView::UseCache(entry.repos)
        } else {
            FetchPlanView::Refresh
        },
        None => FetchPlanView::Refresh,
    }
}

/// How a settled network attempt ends. A successful batch is merged against
/// the static reference set, delivered, and scheduled to overwrite the cache
/// with `now` as its fetch time; on failure a cache entry of any age is
/// delivered unchanged and the store is left untouched; with no cache entry
/// the failure itself is passed on.
pub open spec fn settle_fetch_view(
    outcome: FetchOutcomeView,
    cached: Option<CacheEntryView>,
    now: u64,
) -> SettledFetchView {
    match outcome {
        FetchOutcomeView::Success(batch) => {
            let merged = merge_views(batch, static_fallback_view());
            SettledFetchView {
                result: RepoSourceView::Network(merged),
                store_write: Some(CacheEntryView { repos: merged, fetched_at: now }),
            }
        },
        FetchOutcomeView::Failed(e) => match cached {
            Some(entry) => SettledFetchView {
                result: RepoSourceView::Cache(entry.repos),
                store_write: None,
            },
            None => SettledFetchView {
                result: RepoSourceView::Unavailable(e),
                store_write: None,
            },
        },
    }
}

/// What the caller-facing wrapper delivers: the records of the source, or
/// the static reference set when none are available.
pub open spec fn delivered_view(source: RepoSourceView, fallback: Seq<RepoView>) -> Seq<
    RepoView,
> {
    match source {
        RepoSourceView::Cache(repos) => repos,
        RepoSourceView::Network(repos) => repos,
        RepoSourceView::Unavailable(_) => fallback,
    }
}

/// Decides, from the cache entry as last read and the clock, whether to
/// serve the cache or go to the network. A fresh entry is served exactly as
/// cached, with no network involvement.
pub fn plan_fetch(cached: Option<CachedRepos>, now: u64) -> (plan: FetchPlan)
    ensures
        plan.deep_view() == plan_fetch_view(cached.deep_view(), now),
{
    match cached {
        Some(entry) => {
            if !is_stale(entry.fetched_at, now) {
                FetchPlan::UseCache(entry.repos)
            } else {
                FetchPlan::Refresh
            }
        },
        None => FetchPlan::Refresh,
    }
}

/// Settles a network attempt: merges and persists a successful batch, falls
/// back to the cache entry re-read after a failure, or passes the failure
/// on when there is nothing cached.
pub fn settle_fetch(outcome: FetchOutcome, cached: Option<CachedRepos>, now: u64) -> (settled:
    SettledFetch)
    ensures
        settled.deep_view() == settle_fetch_view(outcome.deep_view(), cached.deep_view(), now),
{
    match outcome {
        FetchOutcome::Success(batch) => {
            let refs = static_fallback();
            let merged = merge_screenshots(batch, &refs);
            let persisted = crate::model::clone_repos(&merged);
            let settled = SettledFetch {
                result: RepoSource::Network(merged),
                store_write: Some(CachedRepos { repos: persisted, fetched_at: now }),
            };
            proof {
                assert(settled.deep_view() =~= settle_fetch_view(
                    outcome.deep_view(),
                    cached.deep_view(),
                    now,
                ));
            }
            settled
        },
        FetchOutcome::Failed(e) => match cached {
            Some(entry) => SettledFetch {
                result: RepoSource::Cache(entry.repos),
                store_write: None,
            },
            None => SettledFetch { result: RepoSource::Unavailable(e), store_write: None },
        },
    }
}

/// The caller-facing last step: never fails. Records from the cache or the
/// network are delivered as they are; when neither was available, the static
/// reference set is delivered verbatim.
pub fn repos_or_fallback(source: RepoSource) -> (repos: Vec<Repo>)
    ensures
        repos.deep_view() == delivered_view(source.deep_view(), static_fallback_view()),
{
    match source {
        RepoSource::Cache(repos) => repos,
        RepoSource::Network(repos) => repos,
        RepoSource::Unavailable(_) => static_fallback(),
    }
}

/// With no cache entry and a failed network attempt, the caller receives
/// exactly the static reference set, unaltered.
pub proof fn lemma_fallback_when_no_cache(e: FetchErrorView, now: u64)
    ensures
        delivered_view(
            settle_fetch_view(FetchOutcomeView::Failed(e), None, now).result,
            static_fallback_view(),
        ) == static_fallback_view(),
{
}

/// A fresh cache entry is always served as it is: whenever the entry's age
/// is within the freshness window, the plan is to deliver the cached records
/// unchanged, with no network attempt.
pub proof fn lemma_fresh_cache_served(entry: CacheEntryView, now: u64)
    requires
        spec_age_secs(entry.fetched_at, now) <= CACHE_TTL_SECS,
    ensures
        plan_fetch_view(Some(entry), now) == FetchPlanView::UseCache(entry.repos),
{
}

/// A network failure never disturbs the store, and a cache entry of any age
/// is then delivered unchanged.
pub proof fn lemma_failure_preserves_cache(e: FetchErrorView, entry: CacheEntryView, now: u64)
    ensures
        settle_fetch_view(FetchOutcomeView::Failed(e), Some(entry), now).store_write is None,
        settle_fetch_view(FetchOutcomeView::Failed(e), Some(entry), now).result
            == RepoSourceView::Cache(entry.repos),
{
}

} // verus!
