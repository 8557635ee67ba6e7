//! A short-lived cache of the answers to the usage query, by admin endpoint.
//!
//! An answer belongs to the Restate environment, not to the RestateDeployment that asked. Staleness
//! is bounded and biased safely: counts fall as work drains, so that a stale answer overstates how
//! busy a deployment is.

use vstd::prelude::*;

use crate::assoc::{keys_ascend, lemma_insert, lemma_remove, lemma_update, locate, map_by};
use crate::restatedeployment::cleanup::{CleanupMode, DeploymentUsage, DeploymentUsageMap};
use crate::restatedeployment::retry::ENDPOINT_SPACING_SECONDS;
use crate::time::{secs, span, Duration, Timestamp};

verus! {

/// Seconds for which an answer may be reused: longer than the spacing of queries, so that a
/// resource that was deferred finds the answer of the query that it waited for.
pub const TTL_SECONDS: u64 = 60;

/// An answer, with the mode of its query.
#[derive(Debug)]
struct Entry {
    mode: CleanupMode,
    usage: DeploymentUsageMap,
    fetched_at: Timestamp,
}

/// An answer, with the mode of its query and its time.
pub struct EntryView {
    pub mode: CleanupMode,
    pub usage: Map<Seq<char>, DeploymentUsage>,
    pub fetched_at: int,
}

/// The answers of one operator process.
#[derive(Debug)]
pub struct UsageCache {
    entries: Vec<(String, Entry)>,
}

/// Whether the answer to a query of one mode serves a caller in another.
///
/// The query of a drain counts unpinned invocations for real, where the others select a constant
/// zero. So the answer of a drain serves every caller, and no other answer serves a drain: it would
/// report queued work as absent.
pub open spec fn answer_serves(answer: CleanupMode, caller: CleanupMode) -> bool {
    answer == caller || answer == CleanupMode::Deleting || (answer == CleanupMode::ForceDeleting
        && caller != CleanupMode::Deleting)
}

/// Whether an answer may be reused.
pub open spec fn reusable(e: EntryView, mode: CleanupMode, now: int) -> bool {
    span(e.fetched_at, now) < secs(TTL_SECONDS as int) && answer_serves(e.mode, mode)
}

/// A drain is only ever given counts that attribute unpinned invocations.
pub proof fn drains_get_real_counts(answer: CleanupMode)
    ensures
        answer_serves(answer, CleanupMode::Deleting) <==> answer == CleanupMode::Deleting,
        answer_serves(CleanupMode::Deleting, CleanupMode::Rollout),
        answer_serves(CleanupMode::Deleting, CleanupMode::ForceDeleting),
{
}

/// A caller that was deferred behind a query, and comes back once the spacing of its endpoint is
/// over, finds the answer of that query still usable.
pub proof fn deferred_callers_find_the_answer(
    e: EntryView,
    mode: CleanupMode,
    admitted_at: int,
    now: int,
)
    requires
        admitted_at <= e.fetched_at,
        now <= admitted_at + secs(ENDPOINT_SPACING_SECONDS as int),
        answer_serves(e.mode, mode),
    ensures
        reusable(e, mode, now),
{
}

impl Entry {
    spec fn view(&self) -> EntryView {
        EntryView { mode: self.mode, usage: self.usage@, fetched_at: self.fetched_at@ }
    }

    /// Whether the answer serves a caller.
    fn serves(&self, mode: CleanupMode) -> (r: bool)
        ensures
            r == answer_serves(self.mode, mode),
    {
        match self.mode {
            CleanupMode::Deleting => true,
            CleanupMode::ForceDeleting => match mode {
                CleanupMode::Deleting => false,
                _ => true,
            },
            CleanupMode::Rollout => match mode {
                CleanupMode::Rollout => true,
                _ => false,
            },
        }
    }
}

impl UsageCache {
    #[verifier::type_invariant]
    closed spec fn ordered(self) -> bool {
        keys_ascend(self.entries@)
    }

    /// The answer of each endpoint.
    pub closed spec fn view(&self) -> Map<Seq<char>, EntryView> {
        map_by(self.entries@, |e: Entry| e@)
    }

    /// No answers.
    pub fn new() -> (r: UsageCache)
        ensures
            r@ == Map::<Seq<char>, EntryView>::empty(),
    {
        let r = UsageCache { entries: Vec::new() };
        proof {
            assert(r@ =~= Map::<Seq<char>, EntryView>::empty());
        }
        r
    }

    /// The answer of an endpoint, where it may be reused.
    pub fn get_at(&self, endpoint: &str, mode: CleanupMode, now: &Timestamp) -> (r: Option<
        DeploymentUsageMap,
    >)
        ensures
            r is Some <==> self@.contains_key(endpoint@) && reusable(self@[endpoint@], mode, now@),
            r is Some ==> r->0@ == self@[endpoint@].usage,
    {
        proof {
            use_type_invariant(self);
        }
        let (found, at) = locate(&self.entries, endpoint);
        if !found {
            return None;
        }
        let e = &self.entries[at].1;
        let age = now.since(&e.fetched_at);
        if age.nanos < Duration::from_secs(TTL_SECONDS).nanos && e.serves(mode) {
            Some(e.usage.duplicate())
        } else {
            None
        }
    }

    fn take(&mut self) -> (r: UsageCache)
        ensures
            r == *old(self),
    {
        let mut taken = UsageCache::new();
        core::mem::swap(self, &mut taken);
        taken
    }

    /// Keeps the answer of an endpoint.
    pub fn insert_at(
        &mut self,
        endpoint: String,
        mode: CleanupMode,
        usage: &DeploymentUsageMap,
        at: Timestamp,
    )
        ensures
            final(self)@ == old(self)@.insert(
                endpoint@,
                EntryView { mode, usage: usage@, fetched_at: at@ },
            ),
    {
        let taken = self.take();
        proof {
            use_type_invariant(&taken);
        }
        let mut entries = taken.entries;
        let entry = Entry { mode, usage: usage.duplicate(), fetched_at: at };
        let (found, place) = locate(&entries, endpoint.as_str());
        if found {
            proof {
                lemma_update(entries@, endpoint, entry, place as int, |e: Entry| e@);
            }
            entries.set(place, (endpoint, entry));
        } else {
            proof {
                lemma_insert(entries@, endpoint, entry, place as int, |e: Entry| e@);
            }
            entries.insert(place, (endpoint, entry));
        }
        *self = UsageCache { entries };
    }

    /// Forgets the answer of an endpoint.
    pub fn invalidate(&mut self, endpoint: &str)
        ensures
            final(self)@ == old(self)@.remove(endpoint@),
    {
        let taken = self.take();
        proof {
            use_type_invariant(&taken);
        }
        let mut entries = taken.entries;
        let (found, place) = locate(&entries, endpoint);
        if found {
            proof {
                lemma_remove(entries@, endpoint@, place as int, |e: Entry| e@);
            }
            entries.remove(place);
        } else {
            proof {
                assert(taken@ =~= taken@.remove(endpoint@));
            }
        }
        *self = UsageCache { entries };
    }
}

} // verus!
