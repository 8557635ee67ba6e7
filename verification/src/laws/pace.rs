//! How often things are looked at, tried again and asked for.

use vstd::prelude::*;

use crate::restatedeployment::cleanup::{
    blocked_backoff, blocked_requeue, row_usage, usage_query, CleanupMode, DeploymentUsage,
    DeploymentUsageRow,
};
use crate::restatedeployment::hash::healthy_requeue;
use crate::restatedeployment::retry::{
    admission, base_backoff, in_backoff, jitter_cap, jittered, one_more, Call, GateView, Pacing,
    RetryView,
};
use crate::restatedeployment::usage_cache::{answer_serves, reusable, EntryView};

verus! {

/// A second, in nanoseconds.
pub open spec fn second() -> int {
    1_000_000_000
}

/// A deletion that is held is looked at again after a quarter of the time that it has been held, but
/// no sooner than after thirty seconds, no later than after five minutes, and not past its deadline,
/// where there is at least a second left to that.
pub proof fn when_a_held_deletion_is_looked_at(blocked_for: int, until_deadline: Option<int>)
    requires
        0 <= blocked_for,
    ensures
        ({
            let wait = blocked_backoff(blocked_for);
            &&& 30 * second() <= wait <= 300 * second()
            &&& blocked_for <= 120 * second() ==> wait == 30 * second()
            &&& blocked_for >= 1200 * second() ==> wait == 300 * second()
            &&& 120 * second() <= blocked_for <= 1200 * second() ==> 4 * wait <= blocked_for < 4
                * wait + 4
        }),
        until_deadline is None ==> blocked_requeue(blocked_for, until_deadline) == blocked_backoff(
            blocked_for,
        ),
        until_deadline matches Some(d) ==> {
            let wait = blocked_requeue(blocked_for, until_deadline);
            &&& d >= blocked_backoff(blocked_for) ==> wait == blocked_backoff(blocked_for)
            &&& second() <= d && d <= blocked_backoff(blocked_for) ==> wait == d
            &&& d < second() ==> wait == second()
        },
{
}

/// Failures back off from half a minute, twice as long each time, up to five minutes; the extra time
/// that is drawn is at most a fifth of that and at most a minute, and every extra in that range can
/// be drawn.
pub proof fn how_failures_back_off(failures: int, draw: int)
    requires
        1 <= failures,
        0 <= draw,
    ensures
        base_backoff(1) == 30 * second(),
        base_backoff(0) == 30 * second(),
        2 * base_backoff(failures) <= 300 * second() ==> base_backoff(failures + 1) == 2
            * base_backoff(failures),
        2 * base_backoff(failures) > 300 * second() ==> base_backoff(failures + 1) == 300
            * second(),
        5 * jitter_cap(base_backoff(failures)) == base_backoff(failures),
        jitter_cap(base_backoff(failures)) <= 60 * second(),
        base_backoff(failures) <= jittered(failures, draw) <= base_backoff(failures) + jitter_cap(
            base_backoff(failures),
        ),
        draw <= jitter_cap(base_backoff(failures)) ==> jittered(failures, draw) == base_backoff(
            failures,
        ) + draw,
        in_backoff(failures, jittered(failures, draw)),
{
    let cap = jitter_cap(base_backoff(failures));
    vstd::arithmetic::div_mod::lemma_mod_bound(draw, cap + 1);
    if draw <= cap {
        vstd::arithmetic::div_mod::lemma_small_mod(draw as nat, (cap + 1) as nat);
    }
}

/// A failure is counted, up to the largest count there is.
pub proof fn how_failures_are_counted(failures: int)
    requires
        0 <= failures <= u32::MAX,
    ensures
        failures < u32::MAX ==> one_more(failures) == failures + 1,
        failures == u32::MAX ==> one_more(failures) == u32::MAX,
{
}

/// A query is let in where its own failures do not hold it off, no other is on its way, and the last
/// one was let in long enough ago; otherwise it is told how long to wait.
pub proof fn when_a_query_is_let_in(retry: RetryView, gate: GateView, now: int)
    ensures
        ({
            let held = retry.not_before is Some && retry.not_before->0 > now;
            let early = gate.next_admission is Some && gate.next_admission->0 > now;
            let wait = admission(retry, gate, now);
            &&& wait is None <==> !held && !gate.in_flight && !early
            &&& held ==> wait == Some(retry.not_before->0 - now)
            &&& !held && gate.in_flight ==> wait == Some(30 * second())
            &&& !held && !gate.in_flight && early ==> wait == Some(gate.next_admission->0 - now)
        }),
{
}

/// What each call changes: a query that is let in keeps others out, and the next one is let
/// in no sooner than half a minute later; its end makes way; a failure is counted and holds off
/// its own resource; a success forgets its failures. Nothing else changes.
pub proof fn what_a_call_changes(p: Pacing, call: Call, e: Seq<char>, r: Seq<char>)
    ensures
        ({
            let q = p.after(call);
            &&& call matches Call::Acquire { endpoint, resource, now } ==> {
                let let_in = admission((p.retry)(endpoint, resource), (p.gate)(endpoint), now)
                    is None;
                &&& let_in ==> (q.gate)(endpoint).in_flight && (q.gate)(endpoint).next_admission
                    == Some(now + 30 * second())
                &&& let_in ==> (q.retry)(endpoint, resource).not_before is None && (q.retry)(
                    endpoint,
                    resource,
                ).failures == (p.retry)(endpoint, resource).failures
                &&& !let_in || e != endpoint ==> (q.gate)(e) == (p.gate)(e)
                &&& !let_in || e != endpoint || r != resource ==> (q.retry)(e, r) == (p.retry)(e, r)
            }
            &&& call matches Call::Finish { endpoint } ==> {
                &&& !(q.gate)(endpoint).in_flight
                &&& (q.gate)(endpoint).next_admission == (p.gate)(endpoint).next_admission
                &&& e != endpoint ==> (q.gate)(e) == (p.gate)(e)
                &&& (q.retry)(e, r) == (p.retry)(e, r)
            }
            &&& call matches Call::Failure { endpoint, resource, now, delay } ==> {
                &&& (q.retry)(endpoint, resource).not_before == Some(now + delay)
                &&& (q.retry)(endpoint, resource).failures == one_more(
                    (p.retry)(endpoint, resource).failures,
                )
                &&& e != endpoint || r != resource ==> (q.retry)(e, r) == (p.retry)(e, r)
                &&& (q.gate)(e) == (p.gate)(e)
            }
            &&& call matches Call::Reset { endpoint, resource } ==> {
                &&& (q.retry)(endpoint, resource).not_before is None
                &&& (q.retry)(endpoint, resource).failures == 0
                &&& e != endpoint || r != resource ==> (q.retry)(e, r) == (p.retry)(e, r)
                &&& (q.gate)(e) == (p.gate)(e)
            }
        }),
{
}

/// An answer that is less than a minute old is used again, where it counts what the caller asks for:
/// a drain wants the unpinned work counted, which only another drain has done.
pub proof fn which_answers_are_used_again(e: EntryView, mode: CleanupMode, now: int)
    ensures
        reusable(e, mode, now) <==> now - e.fetched_at < 60 * second() && (mode
            == CleanupMode::Deleting ==> e.mode == CleanupMode::Deleting) && answer_serves(
            e.mode,
            mode,
        ),
        answer_serves(mode, mode),
        answer_serves(CleanupMode::Deleting, mode),
        mode == CleanupMode::Deleting ==> !answer_serves(CleanupMode::Rollout, mode)
            && !answer_serves(CleanupMode::ForceDeleting, mode),
        answer_serves(CleanupMode::ForceDeleting, CleanupMode::Rollout),
        !answer_serves(CleanupMode::Rollout, CleanupMode::ForceDeleting),
{
}

/// A healthy deployment is looked at again after five to six minutes, spread by its identity.
pub proof fn when_a_healthy_deployment_is_looked_at(hash: u64)
    ensures
        300 * second() <= healthy_requeue(hash) <= 360 * second(),
        healthy_requeue(hash) == (300 + hash as int % 61) * second(),
{
}

/// Two reports on a deployment are put together so that whatever speaks for keeping it counts.
pub proof fn how_reports_are_put_together(a: DeploymentUsage, b: DeploymentUsage)
    ensures
        ({
            let m = a.merged_with(b);
            &&& m.latest_for_service <==> a.latest_for_service || b.latest_for_service
            &&& m.pinned_invocations >= a.pinned_invocations && m.pinned_invocations
                >= b.pinned_invocations
            &&& m.pinned_invocations == a.pinned_invocations || m.pinned_invocations
                == b.pinned_invocations
            &&& m.unpinned_invocations >= a.unpinned_invocations && m.unpinned_invocations
                >= b.unpinned_invocations
            &&& m.unpinned_invocations == a.unpinned_invocations || m.unpinned_invocations
                == b.unpinned_invocations
            &&& a.in_flight() == a.pinned_invocations + a.unpinned_invocations
        }),
{
}

/// A row is taken over as it is, but for a negative count, which is none.
pub proof fn how_a_row_is_read(row: DeploymentUsageRow)
    ensures
        ({
            let u = row_usage(row);
            &&& u.latest_for_service == row.latest_for_service
            &&& row.pinned_invocations >= 0 ==> u.pinned_invocations == row.pinned_invocations
            &&& row.pinned_invocations < 0 ==> u.pinned_invocations == 0
            &&& row.unpinned_invocations >= 0 ==> u.unpinned_invocations
                == row.unpinned_invocations
            &&& row.unpinned_invocations < 0 ==> u.unpinned_invocations == 0
        }),
{
}

/// Restate needs a deployment during a rollout for its services and its invocations, during a drain
/// for its invocations alone, and never in a forced deletion.
pub proof fn what_restate_needs_a_deployment_for(u: DeploymentUsage)
    ensures
        u.active(CleanupMode::Rollout) <==> u.latest_for_service || u.pinned_invocations > 0
            || u.unpinned_invocations > 0,
        u.active(CleanupMode::Deleting) <==> u.pinned_invocations > 0 || u.unpinned_invocations > 0,
        !u.active(CleanupMode::ForceDeleting),
        !CleanupMode::Rollout.deleting(),
        CleanupMode::Deleting.deleting(),
        CleanupMode::ForceDeleting.deleting(),
{
}

/// What Restate is asked for: of each of its deployments, whether a service points at it, how many
/// unfinished invocations are pinned to it, and in a drain how many are not pinned to any and would go
/// to it.
pub proof fn what_the_usage_query_asks(mode: CleanupMode)
    ensures
        mode == CleanupMode::Deleting ==> usage_query(mode)
            == "\n            WITH latest AS (\n                SELECT DISTINCT deployment_id AS id\n                FROM sys_service\n                WHERE deployment_id IS NOT NULL\n            ),\n            pinned AS (\n                SELECT pinned_deployment_id AS id, COUNT(*) AS n\n                FROM sys_invocation_status\n                WHERE pinned_deployment_id IS NOT NULL AND status != 'completed'\n                GROUP BY pinned_deployment_id\n            )"@
            + ",\n            unpinned AS (\n                SELECT s.deployment_id AS id, COUNT(*) AS n\n                FROM sys_invocation_status i\n                JOIN sys_service s ON s.name = i.target_service_name\n                WHERE i.pinned_deployment_id IS NULL\n                  AND i.status != 'completed'\n                GROUP BY s.deployment_id\n            )"@
            + "\n            SELECT d.id AS deployment_id,\n                   l.id IS NOT NULL AS latest_for_service,\n                   COALESCE(p.n, 0) AS pinned_invocations,\n                   "@
            + "COALESCE(u.n, 0)"@
            + " AS unpinned_invocations\n            FROM sys_deployment d\n            LEFT JOIN latest l ON d.id = l.id\n            LEFT JOIN pinned p ON d.id = p.id"@
            + "\n            LEFT JOIN unpinned u ON d.id = u.id"@
            + "\n        "@,
        mode != CleanupMode::Deleting ==> usage_query(mode)
            == "\n            WITH latest AS (\n                SELECT DISTINCT deployment_id AS id\n                FROM sys_service\n                WHERE deployment_id IS NOT NULL\n            ),\n            pinned AS (\n                SELECT pinned_deployment_id AS id, COUNT(*) AS n\n                FROM sys_invocation_status\n                WHERE pinned_deployment_id IS NOT NULL AND status != 'completed'\n                GROUP BY pinned_deployment_id\n            )"@
            + "\n            SELECT d.id AS deployment_id,\n                   l.id IS NOT NULL AS latest_for_service,\n                   COALESCE(p.n, 0) AS pinned_invocations,\n                   "@
            + "0"@
            + " AS unpinned_invocations\n            FROM sys_deployment d\n            LEFT JOIN latest l ON d.id = l.id\n            LEFT JOIN pinned p ON d.id = p.id"@
            + "\n        "@,
{
}

} // verus!
