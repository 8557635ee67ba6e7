//! Policy shared by the ReplicaSet and Knative cleanup: what Restate still needs a registered
//! deployment for, how to ask it, and how long a drained version is kept.

use vstd::prelude::*;
use vstd::string::*;

use crate::assoc::{keys_ascend, lemma_insert, lemma_update, locate, map_by};
use crate::json::{no_fields, Json, Object, Value};
use crate::restatedeployment::resource::{DeletePolicy, OnTimeout, RestateDeployment};
use crate::text::{decimal, join, join_strings, opt_text, texts, u64_text};
use crate::time::{moment, opt_time, rfc3339, secs, Duration, Timestamp};

verus! {

/// Why versions are cleaned up.
#[derive(Debug, Clone, Copy, PartialEq, Eq, Structural)]
pub enum CleanupMode {
    /// A newer version took over.
    Rollout,
    /// The deployment is being deleted, and waits for in-flight invocations.
    Deleting,
    /// The deployment is being deleted without waiting: the policy is `force`, or a drain with
    /// `onTimeout: force` has run into its timeout.
    ForceDeleting,
}

/// When a drain stops waiting: that long after the deletion was requested.
pub open spec fn deadline_of(rsd: RestateDeployment) -> Option<int> {
    match rsd.metadata.deletion_timestamp {
        Some(t) => moment(t@ + secs(rsd.spec.restate.timeout())),
        None => None,
    }
}

/// The mode of a cleanup at a point in time.
pub open spec fn mode_of(rsd: RestateDeployment, now: int) -> CleanupMode {
    if rsd.metadata.deletion_timestamp is None {
        CleanupMode::Rollout
    } else if rsd.spec.restate.policy() == DeletePolicy::Force {
        CleanupMode::ForceDeleting
    } else if rsd.spec.restate.timeout_action() == OnTimeout::Force && (deadline_of(
        rsd,
    ) matches Some(d) && d <= now) {
        CleanupMode::ForceDeleting
    } else {
        CleanupMode::Deleting
    }
}

/// When a drain stops waiting: with `onTimeout: force` it removes the deployment, with
/// `onTimeout: hold` it goes on waiting and reports itself overdue.
pub fn drain_deadline(rsd: &RestateDeployment) -> (r: Option<Timestamp>)
    ensures
        opt_time(r) == deadline_of(*rsd),
{
    match &rsd.metadata.deletion_timestamp {
        Some(t) => t.plus_seconds(rsd.spec.restate.drain_timeout_seconds()),
        None => None,
    }
}

impl CleanupMode {
    /// The mode of a cleanup.
    pub fn for_rsd(rsd: &RestateDeployment, now: &Timestamp) -> (r: CleanupMode)
        ensures
            r == mode_of(*rsd, now@),
    {
        if rsd.metadata.deletion_timestamp.is_none() {
            return CleanupMode::Rollout;
        }
        match rsd.spec.restate.delete_policy() {
            DeletePolicy::Force => CleanupMode::ForceDeleting,
            DeletePolicy::Drain => match rsd.spec.restate.drain_on_timeout() {
                OnTimeout::Hold => CleanupMode::Deleting,
                OnTimeout::Force => match drain_deadline(rsd) {
                    Some(deadline) => if now.is_before(&deadline) {
                        CleanupMode::Deleting
                    } else {
                        CleanupMode::ForceDeleting
                    },
                    None => CleanupMode::Deleting,
                },
            },
        }
    }

    /// Whether the deployment is being deleted.
    pub open spec fn deleting(self) -> bool {
        self != CleanupMode::Rollout
    }

    /// Whether the deployment is being deleted.
    pub fn is_deleting(self) -> (r: bool)
        ensures
            r == self.deleting(),
    {
        match self {
            CleanupMode::Rollout => false,
            _ => true,
        }
    }

    /// Whether a version is due for removal the moment it stops being needed, rather than after
    /// the drain delay.
    pub fn skips_drain_delay(self) -> (r: bool)
        ensures
            r == (self == CleanupMode::ForceDeleting),
    {
        match self {
            CleanupMode::ForceDeleting => true,
            _ => false,
        }
    }

    /// Whether the usage query has to attribute unpinned invocations: only a drain waits for them.
    pub fn needs_unpinned_count(self) -> (r: bool)
        ensures
            r == (self == CleanupMode::Deleting),
    {
        match self {
            CleanupMode::Deleting => true,
            _ => false,
        }
    }
}

/// What Restate says of one registered deployment.
#[derive(Debug, Clone, Copy, PartialEq, Eq, Structural)]
pub struct DeploymentUsage {
    /// At least one service still points here.
    pub latest_for_service: bool,
    /// Unfinished invocations bound to this deployment.
    pub pinned_invocations: u64,
    /// Unfinished invocations not yet bound to any deployment.
    pub unpinned_invocations: u64,
}

/// The larger of two numbers.
pub open spec fn larger(a: u64, b: u64) -> u64 {
    if a >= b {
        a
    } else {
        b
    }
}

impl DeploymentUsage {
    /// Of two reports, whichever argues more strongly for keeping the deployment, fact by fact.
    pub open spec fn merged_with(self, other: DeploymentUsage) -> DeploymentUsage {
        DeploymentUsage {
            latest_for_service: self.latest_for_service || other.latest_for_service,
            pinned_invocations: larger(self.pinned_invocations, other.pinned_invocations),
            unpinned_invocations: larger(self.unpinned_invocations, other.unpinned_invocations),
        }
    }

    /// Work that would be stranded by removing the deployment.
    pub open spec fn in_flight(self) -> int {
        self.pinned_invocations + self.unpinned_invocations
    }

    /// Whether Restate still needs the deployment: during a rollout for its services and its
    /// invocations, during a drain for its invocations, in a forced deletion never.
    pub open spec fn active(self, mode: CleanupMode) -> bool {
        match mode {
            CleanupMode::ForceDeleting => false,
            CleanupMode::Deleting => self.in_flight() > 0,
            CleanupMode::Rollout => self.latest_for_service || self.in_flight() > 0,
        }
    }

    /// Keeps whichever value argues more strongly for holding on to the deployment.
    pub fn merge(&mut self, other: DeploymentUsage)
        ensures
            *final(self) == old(self).merged_with(other),
    {
        self.latest_for_service = self.latest_for_service || other.latest_for_service;
        if other.pinned_invocations > self.pinned_invocations {
            self.pinned_invocations = other.pinned_invocations;
        }
        if other.unpinned_invocations > self.unpinned_invocations {
            self.unpinned_invocations = other.unpinned_invocations;
        }
    }

    /// Work that would be stranded by removing the deployment.
    pub fn in_flight_invocations(&self) -> (r: u64)
        requires
            self.in_flight() <= u64::MAX,
        ensures
            r == self.in_flight(),
    {
        self.pinned_invocations + self.unpinned_invocations
    }

    /// Whether Restate still needs the deployment.
    pub fn is_active(&self, mode: CleanupMode) -> (r: bool)
        ensures
            r == self.active(mode),
    {
        let busy: bool = self.pinned_invocations > 0 || self.unpinned_invocations > 0;
        match mode {
            CleanupMode::ForceDeleting => false,
            CleanupMode::Deleting => busy,
            CleanupMode::Rollout => self.latest_for_service || busy,
        }
    }
}

/// Merging reports never makes a deployment look less needed, whichever mode asks.
pub proof fn merging_never_forgets_a_need(
    a: DeploymentUsage,
    b: DeploymentUsage,
    mode: CleanupMode,
)
    ensures
        a.merged_with(b) == b.merged_with(a),
        a.active(mode) || b.active(mode) ==> a.merged_with(b).active(mode),
        a.merged_with(a) == a,
{
}

/// A deployment that a drain waits for, a rollout keeps as well.
pub proof fn rollout_keeps_what_a_drain_waits_for(u: DeploymentUsage)
    ensures
        u.active(CleanupMode::Deleting) ==> u.active(CleanupMode::Rollout),
        !u.active(CleanupMode::ForceDeleting),
{
}

pub const QUERY_HEAD: &'static str = "\n            WITH latest AS (\n                SELECT DISTINCT deployment_id AS id\n                FROM sys_service\n                WHERE deployment_id IS NOT NULL\n            ),\n            pinned AS (\n                SELECT pinned_deployment_id AS id, COUNT(*) AS n\n                FROM sys_invocation_status\n                WHERE pinned_deployment_id IS NOT NULL AND status != 'completed'\n                GROUP BY pinned_deployment_id\n            )";

pub const UNPINNED_CTE: &'static str = ",\n            unpinned AS (\n                SELECT s.deployment_id AS id, COUNT(*) AS n\n                FROM sys_invocation_status i\n                JOIN sys_service s ON s.name = i.target_service_name\n                WHERE i.pinned_deployment_id IS NULL\n                  AND i.status != 'completed'\n                GROUP BY s.deployment_id\n            )";

pub const QUERY_COLUMNS: &'static str = "\n            SELECT d.id AS deployment_id,\n                   l.id IS NOT NULL AS latest_for_service,\n                   COALESCE(p.n, 0) AS pinned_invocations,\n                   ";

pub const QUERY_TABLES: &'static str = " AS unpinned_invocations\n            FROM sys_deployment d\n            LEFT JOIN latest l ON d.id = l.id\n            LEFT JOIN pinned p ON d.id = p.id";

pub const UNPINNED_COUNT: &'static str = "COALESCE(u.n, 0)";

pub const UNPINNED_JOIN: &'static str = "\n            LEFT JOIN unpinned u ON d.id = u.id";

pub const QUERY_END: &'static str = "\n        ";

/// The usage query: one row for each registered deployment. The count of unpinned invocations is
/// expensive, and asked for by a drain alone; the other modes select a constant zero.
pub open spec fn usage_query(mode: CleanupMode) -> Seq<char> {
    if mode == CleanupMode::Deleting {
        QUERY_HEAD@ + UNPINNED_CTE@ + QUERY_COLUMNS@ + UNPINNED_COUNT@ + QUERY_TABLES@
            + UNPINNED_JOIN@ + QUERY_END@
    } else {
        QUERY_HEAD@ + QUERY_COLUMNS@ + "0"@ + QUERY_TABLES@ + QUERY_END@
    }
}

/// The SQL that asks Restate for the usage of its deployments.
pub fn deployment_usage_query(mode: CleanupMode) -> (r: String)
    ensures
        r@ == usage_query(mode),
{
    let mut q: String = QUERY_HEAD.to_owned();
    if mode.needs_unpinned_count() {
        q.append(UNPINNED_CTE);
        q.append(QUERY_COLUMNS);
        q.append(UNPINNED_COUNT);
        q.append(QUERY_TABLES);
        q.append(UNPINNED_JOIN);
        q.append(QUERY_END);
    } else {
        q.append(QUERY_COLUMNS);
        q.append("0");
        q.append(QUERY_TABLES);
        q.append(QUERY_END);
    }
    q
}

/// One row of the answer to the usage query. Counts are signed there.
#[derive(Debug)]
pub struct DeploymentUsageRow {
    pub deployment_id: String,
    pub latest_for_service: bool,
    pub pinned_invocations: i64,
    pub unpinned_invocations: i64,
}

/// The answer to the usage query.
#[derive(Debug)]
pub struct DeploymentUsageRows {
    pub rows: Vec<DeploymentUsageRow>,
}

/// The usage of deployments by their ids.
#[derive(Debug)]
pub struct DeploymentUsageMap {
    entries: Vec<(String, DeploymentUsage)>,
}

/// A count, zero where it is negative.
pub open spec fn clamped(n: i64) -> u64 {
    if n < 0 {
        0
    } else {
        n as u64
    }
}

/// What one row says.
pub open spec fn row_usage(row: DeploymentUsageRow) -> DeploymentUsage {
    DeploymentUsage {
        latest_for_service: row.latest_for_service,
        pinned_invocations: clamped(row.pinned_invocations),
        unpinned_invocations: clamped(row.unpinned_invocations),
    }
}

/// What the rows say together: rows of one deployment are merged.
pub open spec fn rows_usage(rows: Seq<DeploymentUsageRow>) -> Map<Seq<char>, DeploymentUsage>
    decreases rows.len(),
{
    if rows.len() == 0 {
        Map::empty()
    } else {
        let before = rows_usage(rows.drop_last());
        let id = rows.last().deployment_id@;
        let usage = row_usage(rows.last());
        if before.contains_key(id) {
            before.insert(id, before[id].merged_with(usage))
        } else {
            before.insert(id, usage)
        }
    }
}

/// No row is lost: each deployment with a row is there, and looks at least as needed as the row
/// says.
pub proof fn no_usage_row_is_lost(
    rows: Seq<DeploymentUsageRow>,
    i: int,
    mode: CleanupMode,
)
    requires
        0 <= i < rows.len(),
    ensures
        rows_usage(rows).contains_key(rows[i].deployment_id@),
        row_usage(rows[i]).active(mode) ==> rows_usage(rows)[rows[i].deployment_id@].active(mode),
        rows_usage(rows)[rows[i].deployment_id@].in_flight() >= row_usage(rows[i]).in_flight(),
    decreases rows.len(),
{
    if i < rows.len() - 1 {
        assert(rows.drop_last()[i] == rows[i]);
        no_usage_row_is_lost(rows.drop_last(), i, mode);
    }
}

/// The counts of an answer can be added up.
pub proof fn row_counts_add_up(rows: Seq<DeploymentUsageRow>, id: Seq<char>)
    requires
        rows_usage(rows).contains_key(id),
    ensures
        rows_usage(rows)[id].in_flight() <= 2 * i64::MAX,
    decreases rows.len(),
{
    lemma_counts_bounded(rows, id);
}

proof fn lemma_counts_bounded(rows: Seq<DeploymentUsageRow>, id: Seq<char>)
    requires
        rows_usage(rows).contains_key(id),
    ensures
        rows_usage(rows)[id].pinned_invocations <= i64::MAX,
        rows_usage(rows)[id].unpinned_invocations <= i64::MAX,
    decreases rows.len(),
{
    if rows.len() > 0 {
        if rows_usage(rows.drop_last()).contains_key(id) {
            lemma_counts_bounded(rows.drop_last(), id);
        }
    }
}

impl DeploymentUsageMap {
    #[verifier::type_invariant]
    closed spec fn ordered(self) -> bool {
        keys_ascend(self.entries@)
    }

    /// The usage of each deployment.
    pub closed spec fn view(&self) -> Map<Seq<char>, DeploymentUsage> {
        map_by(self.entries@, |u: DeploymentUsage| u)
    }

    /// What is said of one deployment.
    pub open spec fn usage_of(&self, id: Seq<char>) -> Option<DeploymentUsage> {
        if self@.contains_key(id) {
            Some(self@[id])
        } else {
            None
        }
    }

    /// Nothing known.
    pub fn new() -> (r: DeploymentUsageMap)
        ensures
            r@ == Map::<Seq<char>, DeploymentUsage>::empty(),
    {
        let r = DeploymentUsageMap { entries: Vec::new() };
        proof {
            assert(r@ =~= Map::<Seq<char>, DeploymentUsage>::empty());
        }
        r
    }

    /// What is known of one deployment.
    pub fn get(&self, id: &str) -> (r: Option<DeploymentUsage>)
        ensures
            r == self.usage_of(id@),
    {
        proof {
            use_type_invariant(self);
        }
        let (found, at) = locate(&self.entries, id);
        if found {
            Some(self.entries[at].1)
        } else {
            None
        }
    }

    /// Records what is known of one deployment.
    pub fn insert(&mut self, id: String, usage: DeploymentUsage)
        ensures
            final(self)@ == old(self)@.insert(id@, usage),
    {
        let mut taken = DeploymentUsageMap::new();
        core::mem::swap(self, &mut taken);
        proof {
            use_type_invariant(&taken);
        }
        let mut entries: Vec<(String, DeploymentUsage)> = taken.entries;
        let (found, at) = locate(&entries, id.as_str());
        if found {
            proof {
                lemma_update(entries@, id, usage, at as int, |u: DeploymentUsage| u);
            }
            entries.set(at, (id, usage));
        } else {
            proof {
                lemma_insert(entries@, id, usage, at as int, |u: DeploymentUsage| u);
            }
            entries.insert(at, (id, usage));
        }
        *self = DeploymentUsageMap { entries };
    }

    /// The same once more.
    pub fn duplicate(&self) -> (r: DeploymentUsageMap)
        ensures
            r@ == self@,
    {
        proof {
            use_type_invariant(self);
        }
        let mut entries: Vec<(String, DeploymentUsage)> = Vec::new();
        let mut i: usize = 0;
        while i < self.entries.len()
            invariant
                i <= self.entries.len(),
                entries@ == self.entries@.take(i as int),
            decreases self.entries.len() - i,
        {
            let e = &self.entries[i];
            entries.push((e.0.clone(), e.1));
            proof {
                assert(self.entries@.take(i + 1) =~= self.entries@.take(i as int).push(
                    self.entries@[i as int],
                ));
            }
            i = i + 1;
        }
        proof {
            assert(self.entries@.take(self.entries@.len() as int) =~= self.entries@);
        }
        DeploymentUsageMap { entries }
    }
}

impl DeploymentUsageRows {
    /// The usage of each deployment, rows of one deployment merged.
    pub fn into_map(self) -> (r: DeploymentUsageMap)
        ensures
            r@ == rows_usage(self.rows@),
    {
        let rows = self.rows;
        let mut map = DeploymentUsageMap::new();
        let mut i: usize = 0;
        proof {
            assert(rows@.take(0) =~= Seq::empty());
        }
        while i < rows.len()
            invariant
                i <= rows.len(),
                map@ == rows_usage(rows@.take(i as int)),
            decreases rows.len() - i,
        {
            let row = &rows[i];
            let pinned: u64 = if row.pinned_invocations < 0 {
                0
            } else {
                row.pinned_invocations as u64
            };
            let unpinned: u64 = if row.unpinned_invocations < 0 {
                0
            } else {
                row.unpinned_invocations as u64
            };
            let mut usage = DeploymentUsage {
                latest_for_service: row.latest_for_service,
                pinned_invocations: pinned,
                unpinned_invocations: unpinned,
            };
            match map.get(row.deployment_id.as_str()) {
                Some(existing) => {
                    let mut both: DeploymentUsage = existing;
                    both.merge(usage);
                    usage = both;
                },
                None => {},
            }
            map.insert(row.deployment_id.clone(), usage);
            proof {
                assert(rows@.take(i + 1).drop_last() =~= rows@.take(i as int));
                assert(rows@.take(i + 1).last() == rows@[i as int]);
            }
            i = i + 1;
        }
        proof {
            assert(rows@.take(rows@.len() as int) =~= rows@);
        }
        map
    }
}

/// A quarter of the wait so far, between half a minute and five minutes.
pub open spec fn blocked_backoff(blocked_for: int) -> int {
    let quarter = blocked_for / 4;
    if quarter < secs(30) {
        secs(30)
    } else if quarter > secs(300) {
        secs(300)
    } else {
        quarter
    }
}

/// How long to wait before looking again at a deletion that in-flight invocations hold: the
/// backoff, but no longer than until the deadline, and never less than a second.
pub open spec fn blocked_requeue(blocked_for: int, until_deadline: Option<int>) -> int {
    let backoff = blocked_backoff(blocked_for);
    match until_deadline {
        Some(d) => if backoff <= d {
            backoff
        } else if d >= secs(1) {
            d
        } else {
            secs(1)
        },
        None => backoff,
    }
}

/// What an optional span is.
pub open spec fn opt_span(d: Option<Duration>) -> Option<int> {
    match d {
        Some(d) => Some(d@),
        None => None,
    }
}

/// How long to wait before looking again at a deletion that in-flight invocations hold.
pub fn blocked_deletion_requeue(blocked_for: Duration, until_deadline: Option<Duration>) -> (r:
    Duration)
    ensures
        r@ == blocked_requeue(blocked_for@, opt_span(until_deadline)),
{
    let quarter = Duration { nanos: blocked_for.nanos / 4 };
    let backoff = quarter.longer(Duration::from_secs(30)).shorter(Duration::from_secs(300));
    match until_deadline {
        Some(d) => backoff.shorter(d.longer(Duration::from_secs(1))),
        None => backoff,
    }
}

/// A blocked deletion is looked at again within five minutes, never sooner than a second, and
/// never after its deadline unless that is less than a second away.
pub proof fn blocked_deletions_are_polled(blocked_for: int, until_deadline: Option<int>)
    requires
        blocked_for >= 0,
    ensures
        secs(1) <= blocked_requeue(blocked_for, until_deadline) <= secs(300),
        until_deadline is Some && until_deadline->0 >= secs(1) ==> blocked_requeue(
            blocked_for,
            until_deadline,
        ) <= until_deadline->0,
        until_deadline is None ==> blocked_requeue(blocked_for, until_deadline) >= secs(30),
{
}

/// The longer a deletion has waited, the less often it is looked at.
pub proof fn backoff_only_grows(earlier: int, later: int)
    requires
        0 <= earlier <= later,
    ensures
        blocked_backoff(earlier) <= blocked_backoff(later),
{
}

/// A version that cleanup could not remove because Restate still needs it.
#[derive(Debug)]
pub struct BlockingVersion {
    /// The name of the ReplicaSet or Configuration.
    pub name: String,
    /// The Restate deployment that it is registered as.
    pub deployment_id: Option<String>,
    pub usage: DeploymentUsage,
}

/// What is said of such a version.
pub struct BlockingView {
    pub name: Seq<char>,
    pub deployment_id: Option<Seq<char>>,
    pub usage: DeploymentUsage,
}

impl BlockingVersion {
    /// What is said of the version.
    pub open spec fn view(&self) -> BlockingView {
        BlockingView {
            name: self.name@,
            deployment_id: opt_text(self.deployment_id),
            usage: self.usage,
        }
    }
}

/// What is said of each version.
pub open spec fn blocking_views(s: Seq<BlockingVersion>) -> Seq<BlockingView> {
    Seq::new(s.len(), |i: int| s[i]@)
}

/// A version with the count of its pinned and unpinned invocations.
pub open spec fn counted(v: BlockingView) -> Seq<char> {
    v.name + " ("@ + decimal(v.usage.pinned_invocations as nat) + " pinned, "@ + decimal(
        v.usage.unpinned_invocations as nat,
    ) + " unpinned invocations)"@
}

/// A version with the count of its pinned invocations, and of the unpinned ones where there are
/// any.
pub open spec fn counted_as_known(v: BlockingView) -> Seq<char> {
    if v.usage.unpinned_invocations > 0 {
        counted(v)
    } else {
        v.name + " ("@ + decimal(v.usage.pinned_invocations as nat) + " pinned invocations)"@
    }
}

fn count_text(v: &BlockingVersion) -> (r: String)
    ensures
        r@ == counted(v@),
{
    let mut s: String = v.name.clone();
    s.append(" (");
    s.append(u64_text(v.usage.pinned_invocations).as_str());
    s.append(" pinned, ");
    s.append(u64_text(v.usage.unpinned_invocations).as_str());
    s.append(" unpinned invocations)");
    s
}

/// Names the versions that hold a deletion, with the work that holds them.
pub fn describe_blocking_versions(blocking: &Vec<BlockingVersion>) -> (r: String)
    ensures
        r@ == join(blocking_views(blocking@).map_values(|v: BlockingView| counted(v)), ", "@),
{
    let mut parts: Vec<String> = Vec::new();
    let mut i: usize = 0;
    while i < blocking.len()
        invariant
            i <= blocking.len(),
            parts@.len() == i,
            forall|j: int| 0 <= j < i ==> (#[trigger] parts@[j])@ == counted(blocking@[j]@),
        decreases blocking.len() - i,
    {
        parts.push(count_text(&blocking[i]));
        i = i + 1;
    }
    proof {
        assert(texts(parts@) =~= blocking_views(blocking@).map_values(
            |v: BlockingView| counted(v),
        ));
    }
    join_strings(&parts, ", ")
}

/// Names the versions that a forced deletion tore down with work still in flight. The query of a
/// forced deletion does not attribute unpinned work, so that its count is given only where it is
/// known.
pub fn describe_abandoned_versions(abandoned: &Vec<BlockingVersion>) -> (r: String)
    ensures
        r@ == join(
            blocking_views(abandoned@).map_values(|v: BlockingView| counted_as_known(v)),
            ", "@,
        ),
{
    let mut parts: Vec<String> = Vec::new();
    let mut i: usize = 0;
    while i < abandoned.len()
        invariant
            i <= abandoned.len(),
            parts@.len() == i,
            forall|j: int|
                0 <= j < i ==> (#[trigger] parts@[j])@ == counted_as_known(abandoned@[j]@),
        decreases abandoned.len() - i,
    {
        let v = &abandoned[i];
        if v.usage.unpinned_invocations > 0 {
            parts.push(count_text(v));
        } else {
            let mut s: String = v.name.clone();
            s.append(" (");
            s.append(u64_text(v.usage.pinned_invocations).as_str());
            s.append(" pinned invocations)");
            parts.push(s);
        }
        i = i + 1;
    }
    proof {
        assert(texts(parts@) =~= blocking_views(abandoned@).map_values(
            |v: BlockingView| counted_as_known(v),
        ));
    }
    join_strings(&parts, ", ")
}

/// Whether a drained, zero-scaled version is kept for a rollback.
pub fn retain_for_rollback(mode: CleanupMode, historic_count: i32, revision_history_limit: i32) -> (r:
    bool)
    ensures
        r == (!mode.deleting() && historic_count < revision_history_limit),
{
    !mode.is_deleting() && historic_count < revision_history_limit
}

/// When a superseded version may be torn down.
pub const RESTATE_REMOVE_VERSION_AT_ANNOTATION: &'static str = "restate.dev/remove-version-at";

/// Every write of the deadline goes out under this one manager, so that giving up its claim removes
/// the annotation.
pub const REMOVE_VERSION_AT_FIELD_MANAGER: &'static str = "restate-operator/remove-version-at";

/// A patch of annotations under a field manager.
#[derive(Debug)]
pub struct ManagedPatch {
    pub field_manager: String,
    pub body: Value,
}

/// The body of a patch that claims annotations.
pub open spec fn annotations_patch(
    api_version: Seq<char>,
    kind: Seq<char>,
    annotations: Json,
) -> Json {
    Json::Object(
        no_fields().insert("apiVersion"@, Json::Text(api_version)).insert(
            "kind"@,
            Json::Text(kind),
        ).insert("metadata"@, Json::Object(no_fields().insert("annotations"@, annotations))),
    )
}

fn patch_body(api_version: &str, kind: &str, annotations: Object) -> (r: Value)
    ensures
        r@ == annotations_patch(api_version@, kind@, Json::Object(annotations@)),
{
    let mut metadata = Object::new();
    metadata.put("annotations", Value::Object(annotations));
    let mut body = Object::new();
    body.put_text("apiVersion", api_version);
    body.put_text("kind", kind);
    body.put("metadata", Value::Object(metadata));
    Value::Object(body)
}

/// The patch that stamps the deadline on a version.
pub fn stamp_patch(api_version: &str, kind: &str, remove_at: &Timestamp) -> (r: ManagedPatch)
    ensures
        r.field_manager@ == REMOVE_VERSION_AT_FIELD_MANAGER@,
        r.body@ == annotations_patch(
            api_version@,
            kind@,
            Json::Object(
                no_fields().insert(
                    RESTATE_REMOVE_VERSION_AT_ANNOTATION@,
                    Json::Text(rfc3339(remove_at@)),
                ),
            ),
        ),
{
    let mut annotations = Object::new();
    annotations.put_text(RESTATE_REMOVE_VERSION_AT_ANNOTATION, remove_at.to_rfc3339().as_str());
    ManagedPatch {
        field_manager: REMOVE_VERSION_AT_FIELD_MANAGER.to_owned(),
        body: patch_body(api_version, kind, annotations),
    }
}

/// The patch that takes the deadline off: it gives up the claim on the annotation. Only a deadline
/// that this manager owns goes this way, so that one set by hand survives.
pub fn clear_patch(api_version: &str, kind: &str) -> (r: ManagedPatch)
    ensures
        r.field_manager@ == REMOVE_VERSION_AT_FIELD_MANAGER@,
        r.body@ == annotations_patch(api_version@, kind@, Json::Object(no_fields())),
{
    ManagedPatch {
        field_manager: REMOVE_VERSION_AT_FIELD_MANAGER.to_owned(),
        body: patch_body(api_version, kind, Object::new()),
    }
}

} // verus!
