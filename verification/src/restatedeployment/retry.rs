//! Admission control and retry pacing for expensive Restate admin queries.
//!
//! A permit is held until the query completes, rather than for a fixed time, so that a slow query
//! cannot overlap a later one. Callers that are deferred reserve no place in a queue.

use vstd::prelude::*;
use std::hash::BuildHasher;
use std::hash::RandomState;

use crate::assoc::{
    has_key, key_index, keys_ascend, lemma_insert, lemma_remove, lemma_update, locate, map_by,
};
use crate::time::{representable, secs, Duration, Timestamp};

verus! {

/// Seconds of the first backoff.
pub const FLOOR_SECONDS: u64 = 30;

/// Seconds of the longest backoff before jitter.
pub const CEILING_SECONDS: u64 = 300;

/// Seconds of the longest jitter.
pub const MAX_JITTER_SECONDS: u64 = 60;

/// Seconds between two admissions to one endpoint.
pub const ENDPOINT_SPACING_SECONDS: u64 = 30;

/// Whose retries are paced: a resource at an admin endpoint.
#[derive(Debug, PartialEq, Eq, Hash)]
pub struct RetryKey {
    pub endpoint: String,
    pub resource: String,
}

/// The failures of one resource.
#[derive(Debug, Clone, Copy)]
struct RetryState {
    failures: u32,
    /// In nanoseconds since 1970, as it may lie beyond every point in time.
    not_before: Option<i128>,
}

/// One admin endpoint, with the failures of its resources.
#[derive(Debug)]
struct EndpointEntry {
    in_flight: bool,
    /// In nanoseconds since 1970, as it may lie beyond every point in time.
    next_admission: Option<i128>,
    retries: Vec<(String, RetryState)>,
}

/// Coordinates expensive queries for one operator process.
#[derive(Debug)]
pub struct ExpensiveOperationRetries {
    endpoints: Vec<(String, EndpointEntry)>,
}

/// The failures of one resource.
pub struct RetryView {
    pub failures: int,
    pub not_before: Option<int>,
}

/// The state of one endpoint.
pub struct GateView {
    pub in_flight: bool,
    pub next_admission: Option<int>,
}

/// The state of all endpoints and of the resources at them.
#[verifier::ext_equal]
pub struct Pacing {
    pub retry: spec_fn(Seq<char>, Seq<char>) -> RetryView,
    pub gate: spec_fn(Seq<char>) -> GateView,
}

/// A call that may change the pacing.
pub enum Call {
    /// A query asks for the permit.
    Acquire { endpoint: Seq<char>, resource: Seq<char>, now: int },
    /// A query has completed.
    Finish { endpoint: Seq<char> },
    /// A reconcile has failed, and is to wait that long.
    Failure { endpoint: Seq<char>, resource: Seq<char>, now: int, delay: int },
    /// A reconcile has succeeded.
    Reset { endpoint: Seq<char>, resource: Seq<char> },
}

impl Pacing {
    /// How long a query has to wait, nothing where it is admitted.
    pub open spec fn wait(self, endpoint: Seq<char>, resource: Seq<char>, now: int) -> Option<int> {
        admission((self.retry)(endpoint, resource), (self.gate)(endpoint), now)
    }

    /// With other failures of one resource.
    pub open spec fn with_retry(
        self,
        endpoint: Seq<char>,
        resource: Seq<char>,
        retry: RetryView,
    ) -> Pacing {
        let before = self.retry;
        Pacing {
            retry: |e: Seq<char>, r: Seq<char>|
                if e == endpoint && r == resource {
                    retry
                } else {
                    before(e, r)
                },
            ..self
        }
    }

    /// With one endpoint in another state.
    pub open spec fn with_gate(self, endpoint: Seq<char>, gate: GateView) -> Pacing {
        let before = self.gate;
        Pacing {
            gate: |e: Seq<char>|
                if e == endpoint {
                    gate
                } else {
                    before(e)
                },
            ..self
        }
    }

    /// The state after a call. A query that has to wait changes nothing.
    pub open spec fn after(self, call: Call) -> Pacing {
        match call {
            Call::Acquire { endpoint, resource, now } => if self.wait(
                endpoint,
                resource,
                now,
            ) is None {
                self.with_gate(
                    endpoint,
                    GateView {
                        in_flight: true,
                        next_admission: Some(now + secs(ENDPOINT_SPACING_SECONDS as int)),
                    },
                ).with_retry(
                    endpoint,
                    resource,
                    RetryView { not_before: None, ..(self.retry)(endpoint, resource) },
                )
            } else {
                self
            },
            Call::Finish { endpoint } => self.with_gate(
                endpoint,
                GateView { in_flight: false, ..(self.gate)(endpoint) },
            ),
            Call::Failure { endpoint, resource, now, delay } => self.with_retry(
                endpoint,
                resource,
                RetryView {
                    failures: one_more((self.retry)(endpoint, resource).failures),
                    not_before: Some(now + delay),
                },
            ),
            Call::Reset { endpoint, resource } => self.with_retry(
                endpoint,
                resource,
                no_failures(),
            ),
        }
    }
}

/// Nothing in flight, no failures.
pub open spec fn at_rest() -> Pacing {
    Pacing {
        retry: |e: Seq<char>, r: Seq<char>| no_failures(),
        gate: |e: Seq<char>| free_gate(),
    }
}

/// No failure yet.
pub open spec fn no_failures() -> RetryView {
    RetryView { failures: 0, not_before: None }
}

/// A free endpoint.
pub open spec fn free_gate() -> GateView {
    GateView { in_flight: false, next_admission: None }
}

/// How long a query has to wait, nothing where it is admitted: for the backoff of the resource, for
/// the query in flight, and for the spacing of the endpoint.
pub open spec fn admission(retry: RetryView, gate: GateView, now: int) -> Option<int> {
    if retry.not_before matches Some(t) && t > now {
        Some(retry.not_before->0 - now)
    } else if gate.in_flight {
        Some(secs(ENDPOINT_SPACING_SECONDS as int))
    } else if gate.next_admission matches Some(t) && t > now {
        Some(gate.next_admission->0 - now)
    } else {
        None
    }
}

/// The backoff after a number of failures, before jitter: it doubles from the floor to the ceiling.
pub open spec fn base_backoff(failures: int) -> int {
    if failures <= 1 {
        secs(30)
    } else if failures == 2 {
        secs(60)
    } else if failures == 3 {
        secs(120)
    } else if failures == 4 {
        secs(240)
    } else {
        secs(CEILING_SECONDS as int)
    }
}

/// The longest jitter on a backoff: a fifth of it, at most a minute.
pub open spec fn jitter_cap(base: int) -> int {
    if base / 5 <= secs(MAX_JITTER_SECONDS as int) {
        base / 5
    } else {
        secs(MAX_JITTER_SECONDS as int)
    }
}

/// The backoff with the jitter that a draw gives.
pub open spec fn jittered(failures: int, draw: int) -> int {
    base_backoff(failures) + draw % (jitter_cap(base_backoff(failures)) + 1)
}

/// Whether a span is the backoff with some jitter.
pub open spec fn in_backoff(failures: int, d: int) -> bool {
    base_backoff(failures) <= d <= base_backoff(failures) + jitter_cap(base_backoff(failures))
}

/// One failure more, as far as they are counted.
pub open spec fn one_more(failures: int) -> int {
    if failures < u32::MAX {
        failures + 1
    } else {
        u32::MAX as int
    }
}

/// `RandomState::new` of std: a hasher with keys of its own. Nothing is said of them.
#[verifier::external_body]
fn fresh_hasher() -> RandomState {
    RandomState::new()
}

/// `BuildHasher::hash_one` of std: some hash of the key, which the keys of the hasher make
/// unpredictable. Nothing is said of it.
#[verifier::external_body]
fn hash_one(hasher: &RandomState, key: &RetryKey) -> u64 {
    hasher.hash_one(key)
}

/// The backoff after a number of failures, with the jitter that a draw gives.
pub fn backoff_with_draw(failures: u32, draw: u64) -> (r: Duration)
    ensures
        r@ == jittered(failures as int, draw as int),
        in_backoff(failures as int, r@),
{
    let base: u64 = if failures <= 1 {
        30
    } else if failures == 2 {
        60
    } else if failures == 3 {
        120
    } else if failures == 4 {
        240
    } else {
        CEILING_SECONDS
    };
    let nanos: u64 = base * 1_000_000_000;
    let fifth: u64 = nanos / 5;
    let longest: u64 = MAX_JITTER_SECONDS * 1_000_000_000;
    let cap: u64 = if fifth <= longest {
        fifth
    } else {
        longest
    };
    let jitter: u64 = draw % (cap + 1);
    Duration { nanos: (nanos + jitter) as u128 }
}

/// The backoff after a number of failures, with a random jitter.
pub fn backoff_with_positive_jitter(key: &RetryKey, failures: u32) -> (r: Duration)
    ensures
        in_backoff(failures as int, r@),
{
    let hasher = fresh_hasher();
    let draw: u64 = hash_one(&hasher, key);
    backoff_with_draw(failures, draw)
}

spec fn opt_int(n: Option<i128>) -> Option<int> {
    match n {
        Some(n) => Some(n as int),
        None => None,
    }
}

/// How long it is from a point in time to a later moment, nothing where that has come.
fn until(moment: Option<i128>, now: i128) -> (r: Option<Duration>)
    requires
        representable(now as int),
    ensures
        match moment {
            Some(t) => if t > now {
                r matches Some(d) && d@ == t - now
            } else {
                r is None
            },
            None => r is None,
        },
{
    match moment {
        Some(t) => if t > now {
            let nanos: u128 = if t >= 0 && now < 0 {
                t as u128 + (-now) as u128
            } else {
                (t - now) as u128
            };
            Some(Duration { nanos })
        } else {
            None
        },
        None => None,
    }
}

spec fn state_view(s: RetryState) -> RetryView {
    RetryView { failures: s.failures as int, not_before: opt_int(s.not_before) }
}

spec fn retry_in(e: EndpointEntry, resource: Seq<char>) -> RetryView {
    if has_key(e.retries@, resource) {
        state_view(e.retries@[key_index(e.retries@, resource)].1)
    } else {
        no_failures()
    }
}

spec fn gate_in(e: EndpointEntry) -> GateView {
    GateView { in_flight: e.in_flight, next_admission: opt_int(e.next_admission) }
}

proof fn lemma_retry_in(e: EndpointEntry)
    ensures
        forall|r: Seq<char>| #[trigger]
            retry_in(e, r) == ({
                let m = map_by(e.retries@, |s: RetryState| state_view(s));
                if m.contains_key(r) {
                    m[r]
                } else {
                    no_failures()
                }
            }),
{
}

impl EndpointEntry {
    fn get_retry(&self, resource: &str) -> (r: RetryState)
        requires
            keys_ascend(self.retries@),
        ensures
            state_view(r) == retry_in(*self, resource@),
    {
        let (found, at) = locate(&self.retries, resource);
        if found {
            self.retries[at].1
        } else {
            RetryState { failures: 0, not_before: None }
        }
    }

    fn set_retry(&mut self, resource: &str, state: RetryState)
        requires
            keys_ascend(old(self).retries@),
        ensures
            keys_ascend(final(self).retries@),
            gate_in(*final(self)) == gate_in(*old(self)),
            retry_in(*final(self), resource@) == state_view(state),
            forall|r: Seq<char>|
                r != resource@ ==> #[trigger] retry_in(*final(self), r) == retry_in(*old(self), r),
    {
        let ghost before = *self;
        let (found, at) = locate(&self.retries, resource);
        let key: String = resource.to_owned();
        if found {
            proof {
                lemma_update(self.retries@, key, state, at as int, |s: RetryState| state_view(s));
            }
            self.retries.set(at, (key, state));
        } else {
            proof {
                lemma_insert(self.retries@, key, state, at as int, |s: RetryState| state_view(s));
            }
            self.retries.insert(at, (key, state));
        }
        proof {
            lemma_retry_in(before);
            lemma_retry_in(*self);
        }
    }

    fn drop_retry(&mut self, resource: &str)
        requires
            keys_ascend(old(self).retries@),
        ensures
            keys_ascend(final(self).retries@),
            gate_in(*final(self)) == gate_in(*old(self)),
            retry_in(*final(self), resource@) == no_failures(),
            forall|r: Seq<char>|
                r != resource@ ==> #[trigger] retry_in(*final(self), r) == retry_in(*old(self), r),
    {
        let ghost before = *self;
        let (found, at) = locate(&self.retries, resource);
        if found {
            proof {
                lemma_remove(self.retries@, resource@, at as int, |s: RetryState| state_view(s));
            }
            self.retries.remove(at);
        }
        proof {
            lemma_retry_in(before);
            lemma_retry_in(*self);
        }
    }
}

impl ExpensiveOperationRetries {
    #[verifier::type_invariant]
    closed spec fn ordered(self) -> bool {
        &&& keys_ascend(self.endpoints@)
        &&& forall|i: int|
            0 <= i < self.endpoints@.len() ==> keys_ascend(
                (#[trigger] self.endpoints@[i]).1.retries@,
            )
    }

    spec fn map(&self) -> Map<Seq<char>, EndpointEntry> {
        map_by(self.endpoints@, |e: EndpointEntry| e)
    }

    /// The failures of a resource at an endpoint.
    pub closed spec fn retry_of(&self, endpoint: Seq<char>, resource: Seq<char>) -> RetryView {
        if self.map().contains_key(endpoint) {
            retry_in(self.map()[endpoint], resource)
        } else {
            no_failures()
        }
    }

    /// The state of an endpoint.
    pub closed spec fn gate_of(&self, endpoint: Seq<char>) -> GateView {
        if self.map().contains_key(endpoint) {
            gate_in(self.map()[endpoint])
        } else {
            free_gate()
        }
    }

    /// The state of all endpoints and of the resources at them.
    pub open spec fn view(&self) -> Pacing {
        Pacing {
            retry: |e: Seq<char>, r: Seq<char>| self.retry_of(e, r),
            gate: |e: Seq<char>| self.gate_of(e),
        }
    }

    /// Whether everything but one endpoint is as before.
    pub open spec fn same_elsewhere(&self, before: &Self, endpoint: Seq<char>) -> bool {
        &&& forall|e: Seq<char>, r: Seq<char>|
            e != endpoint ==> #[trigger] self.retry_of(e, r) == before.retry_of(e, r)
        &&& forall|e: Seq<char>|
            e != endpoint ==> #[trigger] self.gate_of(e) == before.gate_of(e)
    }

    /// Whether the other resources of an endpoint are as before.
    pub open spec fn same_for_others(
        &self,
        before: &Self,
        endpoint: Seq<char>,
        resource: Seq<char>,
    ) -> bool {
        forall|r: Seq<char>|
            r != resource ==> #[trigger] self.retry_of(endpoint, r) == before.retry_of(endpoint, r)
    }

    /// Nothing in flight, no failures.
    pub fn new() -> (r: ExpensiveOperationRetries)
        ensures
            forall|e: Seq<char>, s: Seq<char>| #[trigger] r.retry_of(e, s) == no_failures(),
            forall|e: Seq<char>| #[trigger] r.gate_of(e) == free_gate(),
            r@ == at_rest(),
    {
        ExpensiveOperationRetries { endpoints: Vec::new() }
    }

    fn take(&mut self) -> (r: ExpensiveOperationRetries)
        ensures
            r == *old(self),
    {
        let mut taken = ExpensiveOperationRetries::new();
        core::mem::swap(self, &mut taken);
        taken
    }

    /// Takes an endpoint out, a free one where it is not known.
    fn take_entry(&mut self, endpoint: &str) -> (r: EndpointEntry)
        ensures
            keys_ascend(r.retries@),
            gate_in(r) == old(self).gate_of(endpoint@),
            forall|s: Seq<char>| #[trigger] retry_in(r, s) == old(self).retry_of(endpoint@, s),
            final(self).map() == old(self).map().remove(endpoint@),
    {
        let taken = self.take();
        proof {
            use_type_invariant(&taken);
        }
        let mut endpoints = taken.endpoints;
        let (found, at) = locate(&endpoints, endpoint);
        if found {
            let ghost before = endpoints@;
            proof {
                lemma_remove(endpoints@, endpoint@, at as int, |e: EndpointEntry| e);
            }
            let e = endpoints.remove(at);
            proof {
                assert forall|i: int| 0 <= i < endpoints@.len() implies keys_ascend(
                    (#[trigger] endpoints@[i]).1.retries@,
                ) by {
                    let p = if i < at { i } else { i + 1 };
                    assert(endpoints@[i] == before[p]);
                }
            }
            *self = ExpensiveOperationRetries { endpoints };
            e.1
        } else {
            *self = ExpensiveOperationRetries { endpoints };
            proof {
                assert(self.map() =~= taken.map().remove(endpoint@));
            }
            EndpointEntry { in_flight: false, next_admission: None, retries: Vec::new() }
        }
    }

    fn put_entry(&mut self, endpoint: &str, entry: EndpointEntry)
        requires
            keys_ascend(entry.retries@),
        ensures
            final(self).map() == old(self).map().insert(endpoint@, entry),
    {
        let taken = self.take();
        proof {
            use_type_invariant(&taken);
        }
        let mut endpoints = taken.endpoints;
        let key: String = endpoint.to_owned();
        let (found, at) = locate(&endpoints, endpoint);
        let ghost before = endpoints@;
        if found {
            proof {
                lemma_update(endpoints@, key, entry, at as int, |e: EndpointEntry| e);
            }
            endpoints.set(at, (key, entry));
        } else {
            proof {
                lemma_insert(endpoints@, key, entry, at as int, |e: EndpointEntry| e);
            }
            endpoints.insert(at, (key, entry));
            proof {
                assert forall|i: int| 0 <= i < endpoints@.len() implies keys_ascend(
                    (#[trigger] endpoints@[i]).1.retries@,
                ) by {
                    let p = if i < at { i } else { i - 1 };
                    if i != at {
                        assert(endpoints@[i] == before[p]);
                    }
                }
            }
        }
        *self = ExpensiveOperationRetries { endpoints };
    }

    /// Takes the permit of an endpoint, or says how long to wait.
    pub fn acquire(&mut self, endpoint: &str, resource: &str, now: &Timestamp) -> (r: Result<
        (),
        Duration,
    >)
        ensures
            match r {
                Ok(()) => old(self)@.wait(endpoint@, resource@, now@) is None,
                Err(d) => old(self)@.wait(endpoint@, resource@, now@) == Some(d@),
            },
            final(self)@ == old(self)@.after(
                Call::Acquire { endpoint: endpoint@, resource: resource@, now: now@ },
            ),
            final(self).gate_of(endpoint@) == if r is Ok {
                GateView {
                    in_flight: true,
                    next_admission: Some(now@ + secs(ENDPOINT_SPACING_SECONDS as int)),
                }
            } else {
                old(self).gate_of(endpoint@)
            },
            final(self).retry_of(endpoint@, resource@) == if r is Ok {
                RetryView {
                    not_before: None,
                    ..old(self).retry_of(endpoint@, resource@)
                }
            } else {
                old(self).retry_of(endpoint@, resource@)
            },
            final(self).same_elsewhere(old(self), endpoint@),
            final(self).same_for_others(old(self), endpoint@, resource@),
    {
        let mut entry = self.take_entry(endpoint);
        let state = entry.get_retry(resource);
        let at: i128 = now.nanos();
        let wait: Option<Duration> = match until(state.not_before, at) {
            Some(d) => Some(d),
            None => if entry.in_flight {
                Some(Duration::from_secs(ENDPOINT_SPACING_SECONDS))
            } else {
                until(entry.next_admission, at)
            },
        };
        match wait {
            Some(d) => {
                self.put_entry(endpoint, entry);
                Err(d)
            },
            None => {
                let ghost before = entry;
                entry.in_flight = true;
                entry.next_admission = Some(at + (ENDPOINT_SPACING_SECONDS as i128) * 1_000_000_000);
                proof {
                    assert forall|r: Seq<char>| #[trigger]
                        retry_in(entry, r) == retry_in(before, r) by {}
                }
                entry.set_retry(resource, RetryState { failures: state.failures, not_before: None });
                self.put_entry(endpoint, entry);
                Ok(())
            },
        }
    }

    /// Gives the permit of an endpoint back. The failures are kept: a whole reconcile has to
    /// succeed before they are forgotten.
    pub fn finish(&mut self, endpoint: &str)
        ensures
            final(self)@ == old(self)@.after(Call::Finish { endpoint: endpoint@ }),
            final(self).gate_of(endpoint@) == (GateView {
                in_flight: false,
                ..old(self).gate_of(endpoint@)
            }),
            forall|r: Seq<char>| #[trigger]
                final(self).retry_of(endpoint@, r) == old(self).retry_of(endpoint@, r),
            final(self).same_elsewhere(old(self), endpoint@),
    {
        let mut entry = self.take_entry(endpoint);
        let ghost before = entry;
        entry.in_flight = false;
        proof {
            assert forall|r: Seq<char>| #[trigger] retry_in(entry, r) == retry_in(before, r) by {}
        }
        self.put_entry(endpoint, entry);
    }

    fn count_failure(&mut self, endpoint: &str, resource: &str) -> (r: u32)
        ensures
            r == one_more(old(self).retry_of(endpoint@, resource@).failures),
            final(self).retry_of(endpoint@, resource@) == (RetryView {
                failures: r as int,
                ..old(self).retry_of(endpoint@, resource@)
            }),
            final(self).gate_of(endpoint@) == old(self).gate_of(endpoint@),
            final(self).same_elsewhere(old(self), endpoint@),
            final(self).same_for_others(old(self), endpoint@, resource@),
    {
        let mut entry = self.take_entry(endpoint);
        let state = entry.get_retry(resource);
        let failures: u32 = if state.failures < u32::MAX {
            state.failures + 1
        } else {
            u32::MAX
        };
        entry.set_retry(resource, RetryState { failures, not_before: state.not_before });
        self.put_entry(endpoint, entry);
        failures
    }

    fn hold_off(&mut self, endpoint: &str, resource: &str, now: &Timestamp, delay: Duration)
        requires
            delay@ <= secs((CEILING_SECONDS + MAX_JITTER_SECONDS) as int),
        ensures
            final(self).retry_of(endpoint@, resource@) == (RetryView {
                not_before: Some(now@ + delay@),
                ..old(self).retry_of(endpoint@, resource@)
            }),
            final(self).gate_of(endpoint@) == old(self).gate_of(endpoint@),
            final(self).same_elsewhere(old(self), endpoint@),
            final(self).same_for_others(old(self), endpoint@, resource@),
    {
        let mut entry = self.take_entry(endpoint);
        let state = entry.get_retry(resource);
        entry.set_retry(
            resource,
            RetryState {
                failures: state.failures,
                not_before: Some(now.nanos() + delay.nanos as i128),
            },
        );
        self.put_entry(endpoint, entry);
    }

    /// Records one failure, and says how long to wait: the backoff with the jitter of the draw.
    pub fn failure_with_draw(&mut self, endpoint: &str, resource: &str, now: &Timestamp, draw: u64) -> (r:
        Duration)
        ensures
            r@ == jittered(one_more(old(self).retry_of(endpoint@, resource@).failures), draw as int),
            in_backoff(one_more(old(self).retry_of(endpoint@, resource@).failures), r@),
            final(self)@ == old(self)@.after(
                Call::Failure {
                    endpoint: endpoint@,
                    resource: resource@,
                    now: now@,
                    delay: r@,
                },
            ),
            final(self).retry_of(endpoint@, resource@) == (RetryView {
                failures: one_more(old(self).retry_of(endpoint@, resource@).failures),
                not_before: Some(now@ + r@),
            }),
            final(self).gate_of(endpoint@) == old(self).gate_of(endpoint@),
            final(self).same_elsewhere(old(self), endpoint@),
            final(self).same_for_others(old(self), endpoint@, resource@),
    {
        let failures = self.count_failure(endpoint, resource);
        let delay = backoff_with_draw(failures, draw);
        self.hold_off(endpoint, resource, now, delay);
        delay
    }

    /// Records one failure, and says how long to wait: the backoff with a random jitter.
    pub fn failure(&mut self, endpoint: &str, resource: &str, now: &Timestamp) -> (r: Duration)
        ensures
            in_backoff(one_more(old(self).retry_of(endpoint@, resource@).failures), r@),
            final(self)@ == old(self)@.after(
                Call::Failure {
                    endpoint: endpoint@,
                    resource: resource@,
                    now: now@,
                    delay: r@,
                },
            ),
            final(self).retry_of(endpoint@, resource@) == (RetryView {
                failures: one_more(old(self).retry_of(endpoint@, resource@).failures),
                not_before: Some(now@ + r@),
            }),
            final(self).gate_of(endpoint@) == old(self).gate_of(endpoint@),
            final(self).same_elsewhere(old(self), endpoint@),
            final(self).same_for_others(old(self), endpoint@, resource@),
    {
        let failures = self.count_failure(endpoint, resource);
        let key = RetryKey { endpoint: endpoint.to_owned(), resource: resource.to_owned() };
        let delay = backoff_with_positive_jitter(&key, failures);
        self.hold_off(endpoint, resource, now, delay);
        delay
    }

    /// Forgets the failures of one resource, after a reconcile that succeeded.
    pub fn reset_resource(&mut self, endpoint: &str, resource: &str)
        ensures
            final(self)@ == old(self)@.after(
                Call::Reset { endpoint: endpoint@, resource: resource@ },
            ),
            final(self).retry_of(endpoint@, resource@) == no_failures(),
            final(self).gate_of(endpoint@) == old(self).gate_of(endpoint@),
            final(self).same_elsewhere(old(self), endpoint@),
            final(self).same_for_others(old(self), endpoint@, resource@),
    {
        let mut entry = self.take_entry(endpoint);
        entry.drop_retry(resource);
        self.put_entry(endpoint, entry);
    }
}

/// No two queries of one endpoint run at once: while one is in flight, every other is deferred.
pub proof fn one_query_at_a_time(retry: RetryView, gate: GateView, now: int)
    requires
        gate.in_flight,
    ensures
        admission(retry, gate, now) is Some,
{
}

/// Two admissions to one endpoint are at least the spacing apart, also where the first query
/// finished early.
pub proof fn admissions_are_spaced(retry: RetryView, gate: GateView, admitted_at: int, now: int)
    requires
        gate.next_admission == Some(admitted_at + secs(ENDPOINT_SPACING_SECONDS as int)),
        admission(retry, gate, now) is None,
    ensures
        now >= admitted_at + secs(ENDPOINT_SPACING_SECONDS as int),
{
}

/// A deferred query is told to wait until it could be admitted as far as is known: after a backoff
/// or a spacing it waits no longer than that.
pub proof fn deferral_ends(retry: RetryView, gate: GateView, now: int)
    requires
        !gate.in_flight,
        admission(retry, gate, now) is Some,
    ensures
        admission(retry, gate, now)->0 > 0,
        retry.not_before is None || retry.not_before->0 <= now ==> admission(
            retry,
            gate,
            now + admission(retry, gate, now)->0,
        ) is None,
{
}

/// The backoff grows with the failures, stays within the floor and the ceiling, and the jitter
/// only adds to it.
pub proof fn backoff_grows_to_the_ceiling(a: int, b: int, draw: int)
    requires
        a <= b,
        0 <= draw,
    ensures
        base_backoff(a) <= base_backoff(b),
        secs(FLOOR_SECONDS as int) <= base_backoff(a) <= secs(CEILING_SECONDS as int),
        in_backoff(a, jittered(a, draw)),
        jittered(a, draw) <= secs((CEILING_SECONDS + MAX_JITTER_SECONDS) as int),
{
    let cap = jitter_cap(base_backoff(a));
    assert(0 <= draw % (cap + 1) <= cap) by (nonlinear_arith)
        requires
            cap >= 0,
            draw >= 0,
    ;
}

} // verus!
