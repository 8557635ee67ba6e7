//! What holds of the pacing of expensive queries over any course of calls.

use vstd::prelude::*;

use crate::restatedeployment::retry::{
    at_rest, base_backoff, in_backoff, jitter_cap, one_more, Call, GateView, Pacing,
    CEILING_SECONDS, ENDPOINT_SPACING_SECONDS, FLOOR_SECONDS,
};
use crate::time::secs;

verus! {

/// The state after a course of calls.
pub open spec fn run(p: Pacing, calls: Seq<Call>) -> Pacing
    decreases calls.len(),
{
    if calls.len() == 0 {
        p
    } else {
        run(p, calls.drop_last()).after(calls.last())
    }
}

/// Whether a call gets the permit of an endpoint.
pub open spec fn admits(p: Pacing, call: Call, endpoint: Seq<char>) -> bool {
    call matches Call::Acquire { endpoint: e, resource, now } && e == endpoint && p.wait(
        e,
        resource,
        now,
    ) is None
}

/// Whether some call of a course gets the permit of an endpoint.
pub open spec fn admits_some(p: Pacing, calls: Seq<Call>, endpoint: Seq<char>) -> bool {
    exists|i: int|
        0 <= i < calls.len() && admits(run(p, calls.take(i)), #[trigger] calls[i], endpoint)
}

/// Whether a query of an endpoint completes in a course of calls.
pub open spec fn finishes(calls: Seq<Call>, endpoint: Seq<char>) -> bool {
    exists|i: int| 0 <= i < calls.len() && #[trigger] calls[i] == (Call::Finish { endpoint })
}

/// Whether a resource is still to wait after a failure.
pub open spec fn is_held(p: Pacing, endpoint: Seq<char>, resource: Seq<char>, now: int) -> bool {
    (p.retry)(endpoint, resource).not_before matches Some(t) && t > now
}

/// Whether a call leaves a resource held until some time: it is no failure or reset of the resource,
/// nor a query of it after that time.
pub open spec fn stays_off(
    call: Call,
    endpoint: Seq<char>,
    resource: Seq<char>,
    until: int,
) -> bool {
    match call {
        Call::Acquire { endpoint: e, resource: r, now } => e == endpoint && r == resource ==> now
            < until,
        Call::Finish { .. } => true,
        Call::Failure { endpoint: e, resource: r, .. } => e != endpoint || r != resource,
        Call::Reset { endpoint: e, resource: r } => e != endpoint || r != resource,
    }
}

/// The failures of a resource in a course of calls, since it was last reset.
pub open spec fn failures_since_reset(
    calls: Seq<Call>,
    endpoint: Seq<char>,
    resource: Seq<char>,
) -> int
    decreases calls.len(),
{
    if calls.len() == 0 {
        0
    } else {
        let before = failures_since_reset(calls.drop_last(), endpoint, resource);
        match calls.last() {
            Call::Failure { endpoint: e, resource: r, .. } => if e == endpoint && r == resource {
                before + 1
            } else {
                before
            },
            Call::Reset { endpoint: e, resource: r } => if e == endpoint && r == resource {
                0
            } else {
                before
            },
            _ => before,
        }
    }
}

/// After a query was admitted and has completed, the next one of its endpoint is admitted when the
/// spacing since that admission has passed, whichever resource asks and whatever else was called in
/// between; until then it is told to wait for just that.
pub proof fn queries_are_spaced(
    p: Pacing,
    endpoint: Seq<char>,
    first: Seq<char>,
    admitted_at: int,
    calls: Seq<Call>,
    next: Seq<char>,
    now: int,
)
    requires
        p.wait(endpoint, first, admitted_at) is None,
        ({
            let q = p.after(Call::Acquire { endpoint, resource: first, now: admitted_at });
            &&& finishes(calls, endpoint)
            &&& !admits_some(q, calls, endpoint)
            &&& !is_held(run(q, calls), endpoint, next, now)
        }),
    ensures
        ({
            let q = p.after(Call::Acquire { endpoint, resource: first, now: admitted_at });
            let free_at = admitted_at + secs(ENDPOINT_SPACING_SECONDS as int);
            run(q, calls).wait(endpoint, next, now) == if now < free_at {
                Some(free_at - now)
            } else {
                None
            }
        }),
{
    let q = p.after(Call::Acquire { endpoint, resource: first, now: admitted_at });
    lemma_gate(q, calls, endpoint);
}

/// While a query is in flight, no other of its endpoint is admitted, however late it comes: it is
/// told to wait for the spacing. Only the end of the query gives the permit back.
pub proof fn permits_are_held_to_the_end(
    p: Pacing,
    endpoint: Seq<char>,
    first: Seq<char>,
    admitted_at: int,
    calls: Seq<Call>,
    next: Seq<char>,
    now: int,
)
    requires
        p.wait(endpoint, first, admitted_at) is None,
        !finishes(calls, endpoint),
        !is_held(
            run(p.after(Call::Acquire { endpoint, resource: first, now: admitted_at }), calls),
            endpoint,
            next,
            now,
        ),
    ensures
        ({
            let q = p.after(Call::Acquire { endpoint, resource: first, now: admitted_at });
            &&& !admits_some(q, calls, endpoint)
            &&& run(q, calls).wait(endpoint, next, now) == Some(
                secs(ENDPOINT_SPACING_SECONDS as int),
            )
        }),
{
    let q = p.after(Call::Acquire { endpoint, resource: first, now: admitted_at });
    lemma_in_flight(q, calls, endpoint);
}

/// The endpoint that a call is about.
pub open spec fn endpoint_of(call: Call) -> Seq<char> {
    match call {
        Call::Acquire { endpoint, .. } => endpoint,
        Call::Finish { endpoint } => endpoint,
        Call::Failure { endpoint, .. } => endpoint,
        Call::Reset { endpoint, .. } => endpoint,
    }
}

/// Whether two states have an endpoint and its resources in common.
pub open spec fn agree_on(p: Pacing, q: Pacing, endpoint: Seq<char>) -> bool {
    &&& (p.gate)(endpoint) == (q.gate)(endpoint)
    &&& forall|r: Seq<char>| (#[trigger] (p.retry)(endpoint, r)) == (q.retry)(endpoint, r)
}

/// What is called of one endpoint has no bearing on another, then or later.
pub proof fn endpoints_are_independent(
    p: Pacing,
    call: Call,
    calls: Seq<Call>,
    other: Seq<char>,
    resource: Seq<char>,
    now: int,
)
    requires
        endpoint_of(call) != other,
    ensures
        run(p.after(call), calls).wait(other, resource, now) == run(p, calls).wait(
            other,
            resource,
            now,
        ),
{
    lemma_agreement_lasts(p.after(call), p, calls, other);
}

/// A query that has to wait reserves nothing: whatever is called later, all is as if it had not
/// asked.
pub proof fn deferred_queries_reserve_nothing(
    p: Pacing,
    endpoint: Seq<char>,
    resource: Seq<char>,
    now: int,
    calls: Seq<Call>,
)
    requires
        p.wait(endpoint, resource, now) is Some,
    ensures
        p.after(Call::Acquire { endpoint, resource, now }) == p,
        run(p.after(Call::Acquire { endpoint, resource, now }), calls) == run(p, calls),
{
}

/// The wait after a failure goes by how many there were since the resource was last reset, whatever
/// else was called: it starts at the floor, doubles up to the ceiling, and the jitter adds at most a
/// fifth.
pub proof fn backoff_goes_by_the_failures(
    calls: Seq<Call>,
    endpoint: Seq<char>,
    resource: Seq<char>,
    delay: int,
)
    requires
        in_backoff(one_more((run(at_rest(), calls).retry)(endpoint, resource).failures), delay),
    ensures
        ({
            let base = base_backoff(failures_since_reset(calls, endpoint, resource) + 1);
            base <= delay <= base + base / 5
        }),
        base_backoff(1) == secs(FLOOR_SECONDS as int),
        forall|n: int|
            n >= 1 ==> #[trigger] base_backoff(n + 1) == if 2 * base_backoff(n) < secs(
                CEILING_SECONDS as int,
            ) {
                2 * base_backoff(n)
            } else {
                secs(CEILING_SECONDS as int)
            },
{
    failures_are_counted(calls, endpoint, resource);
    let n = failures_since_reset(calls, endpoint, resource);
    assert(base_backoff(one_more((run(at_rest(), calls).retry)(endpoint, resource).failures))
        == base_backoff(n + 1));
    assert(jitter_cap(base_backoff(n + 1)) == base_backoff(n + 1) / 5);
}

/// A failure holds its resource off for the whole wait, and nothing else: until it fails again or is
/// reset, it is told the rest of the wait as long as that lasts, and its failures stay counted. No
/// endpoint is any the busier for it.
pub proof fn failures_hold_off(
    p: Pacing,
    endpoint: Seq<char>,
    resource: Seq<char>,
    failed_at: int,
    delay: int,
    calls: Seq<Call>,
    now: int,
)
    requires
        now < failed_at + delay,
        forall|i: int|
            0 <= i < calls.len() ==> stays_off(
                #[trigger] calls[i],
                endpoint,
                resource,
                failed_at + delay,
            ),
    ensures
        ({
            let q = p.after(Call::Failure { endpoint, resource, now: failed_at, delay });
            &&& run(q, calls).wait(endpoint, resource, now) == Some(failed_at + delay - now)
            &&& (run(q, calls).retry)(endpoint, resource).failures == one_more(
                (p.retry)(endpoint, resource).failures,
            )
            &&& q.gate == p.gate
        }),
{
    let q = p.after(Call::Failure { endpoint, resource, now: failed_at, delay });
    lemma_held(q, calls, endpoint, resource, failed_at + delay);
}

/// The failures of a resource are counted since it was last reset, as far as they can be; queries,
/// and the failures of others, do not count.
pub proof fn failures_are_counted(calls: Seq<Call>, endpoint: Seq<char>, resource: Seq<char>)
    ensures
        0 <= failures_since_reset(calls, endpoint, resource),
        (run(at_rest(), calls).retry)(endpoint, resource).failures == if failures_since_reset(
            calls,
            endpoint,
            resource,
        ) < u32::MAX {
            failures_since_reset(calls, endpoint, resource)
        } else {
            u32::MAX as int
        },
    decreases calls.len(),
{
    if calls.len() > 0 {
        failures_are_counted(calls.drop_last(), endpoint, resource);
    }
}

proof fn lemma_gate(q: Pacing, calls: Seq<Call>, endpoint: Seq<char>)
    requires
        !admits_some(q, calls, endpoint),
    ensures
        (run(q, calls).gate)(endpoint) == (GateView {
            in_flight: (q.gate)(endpoint).in_flight && !finishes(calls, endpoint),
            ..(q.gate)(endpoint)
        }),
    decreases calls.len(),
{
    if calls.len() > 0 {
        let before = calls.drop_last();
        let i = calls.len() - 1;
        assert(calls.take(i) =~= before);
        if admits_some(q, before, endpoint) {
            let j = choose|j: int|
                0 <= j < before.len() && admits(
                    run(q, before.take(j)),
                    #[trigger] before[j],
                    endpoint,
                );
            assert(before.take(j) =~= calls.take(j));
            assert(calls[j] == before[j]);
        }
        lemma_gate(q, before, endpoint);
        assert(!admits(run(q, before), calls[i], endpoint));
        lemma_finishes(calls, endpoint);
    }
}

proof fn lemma_finishes(calls: Seq<Call>, endpoint: Seq<char>)
    requires
        calls.len() > 0,
    ensures
        finishes(calls, endpoint) <==> finishes(calls.drop_last(), endpoint) || calls.last() == (
        Call::Finish { endpoint }),
{
    let before = calls.drop_last();
    if finishes(before, endpoint) {
        let j = choose|j: int|
            0 <= j < before.len() && #[trigger] before[j] == (Call::Finish { endpoint });
        assert(calls[j] == before[j]);
    }
    if finishes(calls, endpoint) && calls.last() != (Call::Finish { endpoint }) {
        let j = choose|j: int|
            0 <= j < calls.len() && #[trigger] calls[j] == (Call::Finish { endpoint });
        assert(before[j] == calls[j]);
    }
    assert(calls[calls.len() - 1] == calls.last());
}

proof fn lemma_in_flight(q: Pacing, calls: Seq<Call>, endpoint: Seq<char>)
    requires
        (q.gate)(endpoint).in_flight,
        !finishes(calls, endpoint),
    ensures
        (run(q, calls).gate)(endpoint).in_flight,
        !admits_some(q, calls, endpoint),
    decreases calls.len(),
{
    if calls.len() > 0 {
        let before = calls.drop_last();
        lemma_finishes(calls, endpoint);
        lemma_in_flight(q, before, endpoint);
        if admits_some(q, calls, endpoint) {
            let j = choose|j: int|
                0 <= j < calls.len() && admits(run(q, calls.take(j)), #[trigger] calls[j], endpoint);
            if j < before.len() {
                assert(before.take(j) =~= calls.take(j));
                assert(calls[j] == before[j]);
            } else {
                assert(calls.take(j) =~= before);
            }
        }
    }
}

proof fn lemma_agreement_lasts(p: Pacing, q: Pacing, calls: Seq<Call>, endpoint: Seq<char>)
    requires
        agree_on(p, q, endpoint),
    ensures
        agree_on(run(p, calls), run(q, calls), endpoint),
    decreases calls.len(),
{
    if calls.len() > 0 {
        let before = calls.drop_last();
        lemma_agreement_lasts(p, q, before, endpoint);
        let x = run(p, before);
        let y = run(q, before);
        if let Call::Acquire { endpoint: e, resource, now } = calls.last() {
            if e == endpoint {
                assert((x.retry)(endpoint, resource) == (y.retry)(endpoint, resource));
            }
        }
        if let Call::Failure { resource, .. } = calls.last() {
            assert((x.retry)(endpoint, resource) == (y.retry)(endpoint, resource));
        }
        assert forall|r: Seq<char>|
            (#[trigger] (run(p, calls).retry)(endpoint, r)) == (run(q, calls).retry)(
                endpoint,
                r,
            ) by {
            assert((x.retry)(endpoint, r) == (y.retry)(endpoint, r));
        }
    }
}

proof fn lemma_held(
    q: Pacing,
    calls: Seq<Call>,
    endpoint: Seq<char>,
    resource: Seq<char>,
    until: int,
)
    requires
        (q.retry)(endpoint, resource).not_before == Some(until),
        forall|i: int|
            0 <= i < calls.len() ==> stays_off(#[trigger] calls[i], endpoint, resource, until),
    ensures
        (run(q, calls).retry)(endpoint, resource) == (q.retry)(endpoint, resource),
    decreases calls.len(),
{
    if calls.len() > 0 {
        let before = calls.drop_last();
        assert forall|i: int| 0 <= i < before.len() implies stays_off(
            #[trigger] before[i],
            endpoint,
            resource,
            until,
        ) by {
            assert(before[i] == calls[i]);
        }
        lemma_held(q, before, endpoint, resource, until);
        assert(stays_off(calls[calls.len() - 1], endpoint, resource, until));
    }
}

} // verus!
