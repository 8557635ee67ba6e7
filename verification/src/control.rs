//! What all controllers share: suspension, conditions, readiness and addresses.

use vstd::prelude::*;
use vstd::string::*;

use crate::meta::ObjectMeta;
use crate::text::{i64_text, int_text, opt_str, opt_text, str_eq};
use crate::error::{Error, KubeFailure, KubeFailureKind};
use crate::time::{opt_time, Duration, Timestamp};

verus! {

/// Break-glass annotation: set to `disabled` on a resource, every controller leaves it and all it
/// owns alone until the annotation is removed.
pub const RECONCILE_ANNOTATION: &'static str = "restate.dev/reconcile";

/// The one annotation value that suspends reconciliation.
pub const RECONCILE_DISABLED: &'static str = "disabled";

/// The condition that is written while a resource is suspended.
pub const RECONCILING_CONDITION: &'static str = "Reconciling";

/// Whether the operator manages a resource.
#[derive(Debug, Clone, Copy, PartialEq, Eq, Structural)]
pub enum ReconciliationState {
    Reconciling,
    Disabled,
    /// Managed again after a suspension, and not yet healthy.
    ResumingReconciliation,
}

/// A condition of a resource.
#[derive(Debug)]
pub struct Condition {
    pub last_transition_time: Option<Timestamp>,
    pub message: Option<String>,
    pub reason: Option<String>,
    pub status: String,
    pub type_: String,
}

/// What a condition says.
pub struct ConditionView {
    pub last_transition_time: Option<int>,
    pub message: Option<Seq<char>>,
    pub reason: Option<Seq<char>>,
    pub status: Seq<char>,
    pub type_: Seq<char>,
}

impl Condition {
    /// What the condition says.
    pub open spec fn view(&self) -> ConditionView {
        ConditionView {
            last_transition_time: opt_time(self.last_transition_time),
            message: opt_text(self.message),
            reason: opt_text(self.reason),
            status: self.status@,
            type_: self.type_@,
        }
    }

    /// The same condition once more.
    pub fn duplicate(&self) -> (r: Condition)
        ensures
            r@ == self@,
    {
        Condition {
            last_transition_time: self.last_transition_time,
            message: self.message.clone(),
            reason: self.reason.clone(),
            status: self.status.clone(),
            type_: self.type_.clone(),
        }
    }
}

/// What each condition says.
pub open spec fn condition_views(s: Seq<Condition>) -> Seq<ConditionView> {
    Seq::new(s.len(), |i: int| s[i]@)
}

/// What the conditions say, none where there is no list.
pub open spec fn opt_conditions(s: Option<Vec<Condition>>) -> Seq<ConditionView> {
    match s {
        Some(s) => condition_views(s@),
        None => Seq::empty(),
    }
}

/// The first condition of a type.
pub open spec fn find_condition(s: Seq<ConditionView>, type_: Seq<char>) -> Option<ConditionView>
    decreases s.len(),
{
    if s.len() == 0 {
        None
    } else if s[0].type_ == type_ {
        Some(s[0])
    } else {
        find_condition(s.skip(1), type_)
    }
}

/// The conditions of every other type, in their order.
pub open spec fn other_conditions(s: Seq<ConditionView>, type_: Seq<char>) -> Seq<ConditionView>
    decreases s.len(),
{
    if s.len() == 0 {
        Seq::empty()
    } else if s.last().type_ == type_ {
        other_conditions(s.drop_last(), type_)
    } else {
        other_conditions(s.drop_last(), type_).push(s.last())
    }
}

/// Finds the first condition of a type.
pub fn condition_of_type<'a>(conditions: &'a Option<Vec<Condition>>, type_: &str) -> (r: Option<
    &'a Condition,
>)
    ensures
        match r {
            Some(c) => find_condition(opt_conditions(*conditions), type_@) == Some(c@),
            None => find_condition(opt_conditions(*conditions), type_@) is None,
        },
{
    match conditions {
        None => None,
        Some(list) => {
            let ghost all = condition_views(list@);
            let mut i: usize = 0;
            proof {
                assert(all.skip(0) =~= all);
            }
            while i < list.len()
                invariant
                    i <= list.len(),
                    all == condition_views(list@),
                    all == opt_conditions(*conditions),
                    find_condition(all, type_@) == find_condition(all.skip(i as int), type_@),
                decreases list.len() - i,
            {
                proof {
                    assert(all.skip(i as int)[0] == list@[i as int]@);
                    assert(all.skip(i as int).skip(1) =~= all.skip(i + 1));
                }
                if str_eq(list[i].type_.as_str(), type_) {
                    return Some(&list[i]);
                }
                i = i + 1;
            }
            None
        },
    }
}

/// The conditions of every other type.
pub fn conditions_except(conditions: &Option<Vec<Condition>>, type_: &str) -> (r: Vec<Condition>)
    ensures
        condition_views(r@) == other_conditions(opt_conditions(*conditions), type_@),
{
    let mut out: Vec<Condition> = Vec::new();
    match conditions {
        None => {
            proof {
                assert(condition_views(out@) =~= Seq::empty());
            }
            out
        },
        Some(list) => {
            let ghost all = condition_views(list@);
            let mut i: usize = 0;
            proof {
                assert(all.take(0) =~= Seq::empty());
                assert(condition_views(out@) =~= Seq::empty());
            }
            while i < list.len()
                invariant
                    i <= list.len(),
                    all == condition_views(list@),
                    condition_views(out@) == other_conditions(all.take(i as int), type_@),
                decreases list.len() - i,
            {
                let ghost before = condition_views(out@);
                proof {
                    assert(all.take(i + 1).drop_last() =~= all.take(i as int));
                    assert(all.take(i + 1).last() == list@[i as int]@);
                }
                if !str_eq(list[i].type_.as_str(), type_) {
                    out.push(list[i].duplicate());
                    proof {
                        assert(condition_views(out@) =~= before.push(list@[i as int]@));
                    }
                }
                i = i + 1;
            }
            proof {
                assert(all.take(all.len() as int) =~= all);
            }
            out
        },
    }
}

/// Whether the reconciliation of an object is suspended: by its annotation, unless it is being
/// deleted. The annotation suspends the management of a resource, not its teardown.
pub open spec fn suspended(meta: ObjectMeta) -> bool {
    meta.deletion_timestamp is None && meta.annotation(RECONCILE_ANNOTATION@) == Some(
        RECONCILE_DISABLED@,
    )
}

/// Whether the reconciliation of an object is suspended.
pub fn reconciliation_suspended(meta: &ObjectMeta) -> (r: bool)
    ensures
        r == suspended(*meta),
{
    if meta.deletion_timestamp.is_some() {
        return false;
    }
    match meta.get_annotation(RECONCILE_ANNOTATION) {
        Some(value) => str_eq(value.as_str(), RECONCILE_DISABLED),
        None => false,
    }
}

/// The message of the condition of a suspended resource.
pub open spec fn suspension_text() -> Seq<char> {
    "Reconciliation is suspended by the "@ + RECONCILE_ANNOTATION@ + "="@ + RECONCILE_DISABLED@
        + " annotation."@
}

/// The message of the condition of a suspended resource.
pub fn suspended_message() -> (r: String)
    ensures
        r@ == suspension_text(),
{
    let mut s: String = "Reconciliation is suspended by the ".to_owned();
    s.append(RECONCILE_ANNOTATION);
    s.append("=");
    s.append(RECONCILE_DISABLED);
    s.append(" annotation.");
    s
}

/// How loud a log line is.
#[derive(Debug, Clone, Copy, PartialEq, Eq, Structural)]
pub enum LogLevel {
    Debug,
    Info,
}

/// The log line of a skipped reconcile: at info when the suspension starts, at debug for as long as
/// it lasts.
pub fn log_suspended(kind: &str, name: &str, previous: Option<ReconciliationState>) -> (r: (
    LogLevel,
    String,
))
    ensures
        r.0 == if previous == Some(ReconciliationState::Disabled) {
            LogLevel::Debug
        } else {
            LogLevel::Info
        },
        r.1@ == "Skipping "@ + kind@ + " "@ + name@ + ": "@ + suspension_text(),
{
    let mut s: String = "Skipping ".to_owned();
    s.append(kind);
    s.append(" ");
    s.append(name);
    s.append(": ");
    s.append(suspended_message().as_str());
    let level = match previous {
        Some(ReconciliationState::Disabled) => LogLevel::Debug,
        _ => LogLevel::Info,
    };
    (level, s)
}

/// The state to report after a reconcile that ran: a resource that was suspended is resuming until
/// it is ready again.
pub open spec fn state_after(
    previous: Option<ReconciliationState>,
    ready_status: Seq<char>,
) -> ReconciliationState {
    match previous {
        Some(state) => if state != ReconciliationState::Reconciling && ready_status != "True"@ {
            ReconciliationState::ResumingReconciliation
        } else {
            ReconciliationState::Reconciling
        },
        None => ReconciliationState::Reconciling,
    }
}

/// The state to report after a reconcile that ran.
pub fn state_after_reconcile(previous: Option<ReconciliationState>, ready_status: &str) -> (r:
    ReconciliationState)
    ensures
        r == state_after(previous, ready_status@),
{
    match previous {
        Some(ReconciliationState::Disabled) | Some(ReconciliationState::ResumingReconciliation) => {
            if str_eq(ready_status, "True") {
                ReconciliationState::Reconciling
            } else {
                ReconciliationState::ResumingReconciliation
            }
        },
        _ => ReconciliationState::Reconciling,
    }
}

impl ReconciliationState {
    /// The name of the state.
    pub open spec fn name(&self) -> Seq<char> {
        match self {
            ReconciliationState::Reconciling => "Reconciling"@,
            ReconciliationState::Disabled => "Disabled"@,
            ReconciliationState::ResumingReconciliation => "ResumingReconciliation"@,
        }
    }

    /// The name of the state.
    pub fn as_str(&self) -> (r: &'static str)
        ensures
            r@ == self.name(),
    {
        match self {
            ReconciliationState::Reconciling => "Reconciling",
            ReconciliationState::Disabled => "Disabled",
            ReconciliationState::ResumingReconciliation => "ResumingReconciliation",
        }
    }
}

/// When to look at a resource again.
#[derive(Debug, Clone, Copy, PartialEq, Eq, Structural)]
pub enum Action {
    /// After that long, if nothing happens before.
    Requeue(Duration),
    /// When it changes.
    AwaitChange,
}

/// When a condition last changed: now where its status is new, else when it did before.
pub open spec fn transition_time(
    existing: Option<ConditionView>,
    status: Seq<char>,
    now: int,
) -> int {
    match existing {
        Some(c) => if c.status == status && c.last_transition_time is Some {
            c.last_transition_time->0
        } else {
            now
        },
        None => now,
    }
}

/// The `Ready` condition of a resource.
pub open spec fn ready_view(
    existing: Option<ConditionView>,
    message: Seq<char>,
    reason: Seq<char>,
    status: Seq<char>,
    now: int,
) -> ConditionView {
    ConditionView {
        last_transition_time: Some(transition_time(existing, status, now)),
        message: Some(message),
        reason: Some(reason),
        status,
        type_: "Ready"@,
    }
}

/// The new `Ready` condition of a resource.
pub fn ready_condition(
    conditions: &Option<Vec<Condition>>,
    message: String,
    reason: String,
    status: String,
    now: Timestamp,
) -> (r: Condition)
    ensures
        r@ == ready_view(
            find_condition(opt_conditions(*conditions), "Ready"@),
            message@,
            reason@,
            status@,
            now@,
        ),
{
    let time: Timestamp = match condition_of_type(conditions, "Ready") {
        Some(c) => if str_eq(c.status.as_str(), status.as_str()) {
            match c.last_transition_time {
                Some(t) => t,
                None => now,
            }
        } else {
            now
        },
        None => now,
    };
    Condition {
        last_transition_time: Some(time),
        message: Some(message),
        reason: Some(reason),
        status,
        type_: "Ready".to_owned(),
    }
}

/// A condition keeps its time as long as its status stays, and changes it when its status does.
pub proof fn time_moves_with_the_status(existing: ConditionView, status: Seq<char>, now: int)
    ensures
        existing.status != status ==> transition_time(Some(existing), status, now) == now,
        existing.status == status && existing.last_transition_time is Some ==> transition_time(
            Some(existing),
            status,
            now,
        ) == existing.last_transition_time->0,
{
}

/// The condition of a suspended resource. Only the start of the suspension is a transition.
pub open spec fn suspended_view(existing: Option<ConditionView>, now: int) -> ConditionView {
    ConditionView {
        last_transition_time: Some(transition_time(existing, "False"@, now)),
        message: Some(suspension_text()),
        reason: Some(ReconciliationState::Disabled.name()),
        status: "False"@,
        type_: RECONCILING_CONDITION@,
    }
}

/// The conditions of a suspended resource: those that it has, and the one that says so.
pub fn suspended_conditions(conditions: &Option<Vec<Condition>>, now: Timestamp) -> (r: Vec<
    Condition,
>)
    ensures
        condition_views(r@) == other_conditions(
            opt_conditions(*conditions),
            RECONCILING_CONDITION@,
        ).push(
            suspended_view(
                find_condition(opt_conditions(*conditions), RECONCILING_CONDITION@),
                now@,
            ),
        ),
{
    let time: Timestamp = match condition_of_type(conditions, RECONCILING_CONDITION) {
        Some(c) => if str_eq(c.status.as_str(), "False") {
            match c.last_transition_time {
                Some(t) => t,
                None => now,
            }
        } else {
            now
        },
        None => now,
    };
    let suspended = Condition {
        last_transition_time: Some(time),
        message: Some(suspended_message()),
        reason: Some(ReconciliationState::Disabled.as_str().to_owned()),
        status: "False".to_owned(),
        type_: RECONCILING_CONDITION.to_owned(),
    };
    let mut out = conditions_except(conditions, RECONCILING_CONDITION);
    let ghost before = condition_views(out@);
    out.push(suspended);
    proof {
        assert(condition_views(out@) =~= before.push(suspended@));
    }
    out
}

/// Suspending a resource leaves its other conditions as they are, and says once that it is
/// suspended.
pub proof fn suspension_keeps_other_conditions(conditions: Seq<ConditionView>, type_: Seq<char>)
    ensures
        forall|i: int|
            0 <= i < other_conditions(conditions, type_).len() ==> (#[trigger] other_conditions(
                conditions,
                type_,
            )[i]).type_ != type_,
        other_conditions(conditions, type_) == conditions.filter(
            |c: ConditionView| c.type_ != type_,
        ),
    decreases conditions.len(),
{
    reveal(Seq::filter);
    if conditions.len() > 0 {
        suspension_keeps_other_conditions(conditions.drop_last(), type_);
    }
}

/// What became of a deletion: whether the object was there. That it was not is no error.
pub fn deletion_outcome(result: Result<(), KubeFailure>) -> (r: Result<bool, Error>)
    ensures
        match result {
            Ok(_) => r == Ok::<bool, Error>(true),
            Err(f) => if f.kind == KubeFailureKind::Api(404) {
                r == Ok::<bool, Error>(false)
            } else {
                r == Err::<bool, Error>(Error::KubeError(f))
            },
        },
{
    match result {
        Ok(_) => Ok(true),
        Err(f) => match f.kind {
            KubeFailureKind::Api(404) => Ok(false),
            _ => Err(Error::KubeError(f)),
        },
    }
}

/// Whether waiting may resolve a failure to ask the apiserver what it serves: it is busy or broken,
/// the group is not served yet, or it was not reached.
pub open spec fn retryable(kind: KubeFailureKind) -> bool {
    match kind {
        KubeFailureKind::Api(code) => code == 404 || code == 429 || code >= 500,
        KubeFailureKind::Transport => true,
        KubeFailureKind::Other => false,
    }
}

/// Whether waiting may resolve a failure to ask the apiserver what it serves.
pub fn is_retryable_discovery_error(failure: &KubeFailure) -> (r: bool)
    ensures
        r == retryable(failure.kind),
{
    match failure.kind {
        KubeFailureKind::Api(code) => code == 404 || code == 429 || code >= 500,
        KubeFailureKind::Transport => true,
        KubeFailureKind::Other => false,
    }
}

/// The generation of a deleted object in its last event. The deletion itself changes nothing else in
/// the metadata, so that without this it would be taken for no change.
pub fn generation_after_deletion(generation: Option<i64>) -> (r: Option<i64>)
    requires
        generation matches Some(g) ==> g < i64::MAX,
    ensures
        r == match generation {
            Some(g) => Some((g + 1) as i64),
            None => Some(0i64),
        },
        r != generation,
{
    match generation {
        Some(g) => Some(g + 1),
        None => Some(0),
    }
}

/// The address that the url crate reads from a text, as it writes it back, or why it reads none.
pub uninterp spec fn parsed_url(text: Seq<char>) -> Result<Seq<char>, Seq<char>>;

/// An address with another path, as the url crate writes it.
pub uninterp spec fn url_with_path(url: Seq<char>, path: Seq<char>) -> Result<Seq<char>, Seq<char>>;

/// What the url crate reads from a reference that is relative to an address, as it writes it, or why
/// it reads none.
pub uninterp spec fn joined_url(base: Seq<char>, reference: Seq<char>) -> Result<
    Seq<char>,
    Seq<char>,
>;

/// `url::Url::parse`, with the address written back as text, or the text of the error. It depends on
/// the text alone.
#[verifier::external_body]
pub(crate) fn parse_url(text: &str) -> (r: Result<String, String>)
    ensures
        match r {
            Ok(u) => parsed_url(text@) == Ok::<Seq<char>, Seq<char>>(u@),
            Err(e) => parsed_url(text@) == Err::<Seq<char>, Seq<char>>(e@),
        },
{
    match url::Url::parse(text) {
        Ok(url) => Ok(url.to_string()),
        Err(e) => Err(e.to_string()),
    }
}

/// `url::Url::set_path` on an address that is given as text, with the address written back. It
/// depends on the two texts alone.
#[verifier::external_body]
fn set_url_path(url: &str, path: &str) -> (r: Result<String, String>)
    ensures
        match r {
            Ok(u) => url_with_path(url@, path@) == Ok::<Seq<char>, Seq<char>>(u@),
            Err(e) => url_with_path(url@, path@) == Err::<Seq<char>, Seq<char>>(e@),
        },
{
    match url::Url::parse(url) {
        Ok(mut url) => {
            url.set_path(path);
            Ok(url.to_string())
        },
        Err(e) => Err(e.to_string()),
    }
}

/// `url::Url::join` on an address that is given as text, with the address written back, or the text
/// of the error. It depends on the two texts alone.
#[verifier::external_body]
fn join_url(base: &str, reference: &str) -> (r: Result<String, String>)
    ensures
        match r {
            Ok(u) => joined_url(base@, reference@) == Ok::<Seq<char>, Seq<char>>(u@),
            Err(e) => joined_url(base@, reference@) == Err::<Seq<char>, Seq<char>>(e@),
        },
{
    match url::Url::parse(base).and_then(|url| url.join(reference)) {
        Ok(url) => Ok(url.to_string()),
        Err(e) => Err(e.to_string()),
    }
}

/// The address of a request: a path at the address of a server.
pub fn request_url(base: &str, path: &str) -> (r: Result<String, Error>)
    ensures
        match joined_url(base@, path@) {
            Ok(u) => r matches Ok(t) && t@ == u,
            Err(e) => r matches Err(Error::InvalidUrl(t)) && t@ == e,
        },
{
    match join_url(base, path) {
        Ok(u) => Ok(u),
        Err(e) => Err(Error::InvalidUrl(e)),
    }
}

/// The address of a Service inside the Kubernetes cluster, as it is written before it is read.
pub open spec fn service_address(
    name: Seq<char>,
    namespace: Seq<char>,
    port: int,
    cluster_dns: Seq<char>,
) -> Seq<char> {
    "http://"@ + name + "."@ + namespace + ".svc."@ + cluster_dns + ":"@ + int_text(port)
}

/// The address of a Service inside the Kubernetes cluster, as it is written before it is read.
pub fn service_address_text(
    service_name: &str,
    service_namespace: &str,
    port: i32,
    cluster_dns: &str,
) -> (r: String)
    ensures
        r@ == service_address(service_name@, service_namespace@, port as int, cluster_dns@),
{
    let mut s: String = "http://".to_owned();
    s.append(service_name);
    s.append(".");
    s.append(service_namespace);
    s.append(".svc.");
    s.append(cluster_dns);
    s.append(":");
    s.append(i64_text(port as i64).as_str());
    s
}

/// An address with a path, where there is one.
pub open spec fn at_path(
    url: Result<Seq<char>, Seq<char>>,
    path: Option<Seq<char>>,
) -> Result<Seq<char>, Seq<char>> {
    match (url, path) {
        (Ok(u), Some(p)) => url_with_path(u, p),
        (u, _) => u,
    }
}

/// The address of a Service inside the Kubernetes cluster.
pub fn service_url(
    service_name: &str,
    service_namespace: &str,
    port: i32,
    path: Option<&str>,
    cluster_dns: &str,
) -> (r: Result<String, Error>)
    ensures
        match at_path(
            parsed_url(
                service_address(service_name@, service_namespace@, port as int, cluster_dns@),
            ),
            opt_str(path),
        ) {
            Ok(u) => r matches Ok(t) && t@ == u,
            Err(e) => r matches Err(Error::InvalidUrl(t)) && t@ == e,
        },
{
    let text = service_address_text(service_name, service_namespace, port, cluster_dns);
    match parse_url(text.as_str()) {
        Err(e) => Err(Error::InvalidUrl(e)),
        Ok(url) => match path {
            None => Ok(url),
            Some(p) => match set_url_path(url.as_str(), p) {
                Ok(u) => Ok(u),
                Err(e) => Err(Error::InvalidUrl(e)),
            },
        },
    }
}

} // verus!
