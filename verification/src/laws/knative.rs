//! A version on Knative: its Configuration and Route, and how its rollout is followed.

use vstd::prelude::*;

use crate::error::Error;
use crate::json::{at2, at3, at4, field, items, no_fields, Json};
use crate::laws::documents::{
    holds_texts, says_owner, values_are_written_as_they_are, what_metadata_says,
};
use crate::meta::{opt_map, MetaView, ObjectMeta};
use crate::restatedeployment::hash::template_hash;
use crate::restatedeployment::knative::{
    configuration_annotations, configuration_json, configuration_owner, hints_protocol,
    initial_scale, is_wait, knative_accepts, ready_place, revision_annotations, revision_conditions,
    revision_labels, revision_wait, route_conditions, route_json, route_url, route_wait, tag_of,
    Configuration, KnativeCondition, Revision, Route, WaitView,
};
use crate::restatedeployment::knative_reconcile::{
    collides, knative_answers, knative_goes_on, observed, started, with_counts, KnativeCommand,
    KnativeEvent, KnativeStage, KnativeView, ProgressView,
};
use crate::restatedeployment::replicaset::owner_of;
use crate::restatedeployment::resource::{KnativeSpec, RestateDeployment};
use crate::restatedeployment::service::PortedContainer;
use crate::text::{begins_with, int_text, integer, opt_text};

verus! {

/// The annotations that a user puts on the pod template.
pub open spec fn users_annotations(rsd: RestateDeployment) -> Map<Seq<char>, Seq<char>> {
    match rsd.spec.template.metadata {
        Some(m) => match m.annotations {
            Some(a) => a@,
            None => Map::empty(),
        },
        None => Map::empty(),
    }
}

/// Whether the annotations of a revision say a number under a key that the user does not set: its
/// decimal text where there is one, and nothing where there is none.
pub open spec fn says_number(
    annotations: Map<Seq<char>, Seq<char>>,
    key: Seq<char>,
    n: Option<i32>,
) -> bool {
    &&& n is Some ==> annotations.contains_key(key) && annotations[key] == int_text(n->0 as int)
    &&& n is None ==> !annotations.contains_key(key)
}

/// A revision is scaled as asked for: the lower bound is the one asked for, and zero where none is;
/// the upper bound and the target are those asked for, and open where none are. What the user says on
/// the template itself wins.
pub proof fn how_a_revision_is_scaled(rsd: RestateDeployment, k: KnativeSpec, key: Seq<char>)
    ensures
        ({
            let a = revision_annotations(rsd, k);
            let user = users_annotations(rsd);
            let min = "autoscaling.knative.dev/min-scale"@;
            let max = "autoscaling.knative.dev/max-scale"@;
            let target = "autoscaling.knative.dev/target"@;
            let deployment = "restate.dev/deployment"@;
            &&& !user.contains_key(min) ==> a.contains_key(min) && a[min] == (match k.min_scale {
                Some(n) => int_text(n as int),
                None => "0"@,
            })
            &&& !user.contains_key(max) ==> says_number(a, max, k.max_scale)
            &&& !user.contains_key(target) ==> says_number(a, target, k.target)
            &&& a.contains_key(deployment) && a[deployment] == rsd.metadata.any_name()
            &&& key != deployment && user.contains_key(key) ==> a.contains_key(key) && a[key]
                == user[key]
            &&& key != deployment && key != min && key != max && key != target
                && !user.contains_key(key) ==> !a.contains_key(key)
        }),
{
    reveal_strlit("autoscaling.knative.dev/min-scale");
    reveal_strlit("autoscaling.knative.dev/max-scale");
    reveal_strlit("autoscaling.knative.dev/target");
    reveal_strlit("restate.dev/deployment");
    assert("autoscaling.knative.dev/min-scale"@.len() == 33);
    assert("autoscaling.knative.dev/max-scale"@.len() == 33);
    assert("autoscaling.knative.dev/target"@.len() == 30);
    assert("restate.dev/deployment"@.len() == 22);
    assert("autoscaling.knative.dev/min-scale"@[25] == 'i');
    assert("autoscaling.knative.dev/max-scale"@[25] == 'a');
}

/// The pods of a revision carry the labels of the template, the mark of the operator, and the label
/// that lets the cluster reach them where there is one.
pub proof fn what_a_revision_is_labelled_with(rsd: RestateDeployment, key: Seq<char>)
    ensures
        ({
            let l = revision_labels(rsd);
            let user = match rsd.spec.template.metadata {
                Some(m) => match m.labels {
                    Some(l) => l@,
                    None => Map::empty(),
                },
                None => Map::empty(),
            };
            let allows = rsd.spec.restate.register.cluster matches Some(c) && key
                == "allow.restate.dev/"@ + c@;
            &&& l.contains_key("app.kubernetes.io/managed-by"@)
                && l["app.kubernetes.io/managed-by"@] == "restate-operator"@
            &&& allows ==> l.contains_key(key) && l[key] == "true"@
            &&& !allows && key != "app.kubernetes.io/managed-by"@ ==> (l.contains_key(key)
                <==> user.contains_key(key)) && (user.contains_key(key) ==> l[key] == user[key])
        }),
{
    reveal_strlit("allow.restate.dev/");
    reveal_strlit("app.kubernetes.io/managed-by");
    assert("allow.restate.dev/"@.len() == 18);
    assert("app.kubernetes.io/managed-by"@.len() == 28);
    if let Some(c) = rsd.spec.restate.register.cluster {
        let label = "allow.restate.dev/"@ + c@;
        assert(label[1] == 'l');
        assert("app.kubernetes.io/managed-by"@[1] == 'p');
    }
}

/// A Configuration records which deployment and tag it is for, and the pod template where its name
/// comes from it, beside the annotations of the deployment but for what kubectl applied last and how
/// long rollouts take.
pub proof fn what_a_configuration_records(
    rsd: RestateDeployment,
    tag: Seq<char>,
    pod_template: Option<Seq<char>>,
    key: Seq<char>,
)
    ensures
        ({
            let a = configuration_annotations(rsd, tag, pod_template);
            let own = match rsd.metadata.annotations {
                Some(a) => a@,
                None => Map::empty(),
            };
            let kept = own.contains_key(key) && key
                != "kubectl.kubernetes.io/last-applied-configuration"@ && key
                != "serving.knative.dev/rollout-duration"@;
            &&& a.contains_key("restate.dev/deployment"@) && a["restate.dev/deployment"@]
                == rsd.metadata.any_name()
            &&& a.contains_key("restate.dev/tag"@) && a["restate.dev/tag"@] == tag
            &&& pod_template matches Some(t) ==> a.contains_key("restate.dev/pod-template"@)
                && a["restate.dev/pod-template"@] == t
            &&& key != "restate.dev/deployment"@ && key != "restate.dev/tag"@ && (key
                != "restate.dev/pod-template"@ || pod_template is None) ==> (a.contains_key(key)
                <==> kept) && (kept ==> a[key] == own[key])
        }),
{
    reveal_strlit("restate.dev/deployment");
    reveal_strlit("restate.dev/tag");
    reveal_strlit("restate.dev/pod-template");
    assert("restate.dev/deployment"@.len() == 22);
    assert("restate.dev/tag"@.len() == 15);
    assert("restate.dev/pod-template"@.len() == 24);
}

/// The Configuration of a version runs the pod specification of the template under the labels and the
/// annotations of its revisions, and is owned by the deployment.
pub proof fn what_a_configuration_says(
    rsd: RestateDeployment,
    k: KnativeSpec,
    name: Seq<char>,
    namespace: Seq<char>,
    tag: Seq<char>,
    pod_template: Option<Seq<char>>,
    key: Seq<char>,
)
    ensures
        ({
            let j = configuration_json(rsd, k, name, namespace, tag, pod_template);
            let owners = items(at2(j, "metadata"@, "ownerReferences"@));
            let own = match rsd.metadata.labels {
                Some(l) => l@,
                None => Map::empty(),
            };
            &&& field(j, "apiVersion"@) == Some(Json::Text("serving.knative.dev/v1"@))
            &&& field(j, "kind"@) == Some(Json::Text("Configuration"@))
            &&& at2(j, "metadata"@, "name"@) == Some(Json::Text(name))
            &&& at2(j, "metadata"@, "namespace"@) == Some(Json::Text(namespace))
            &&& at3(j, "metadata"@, "labels"@, "app.kubernetes.io/managed-by"@) == Some(
                Json::Text("restate-operator"@),
            )
            &&& key != "app.kubernetes.io/managed-by"@ ==> at3(j, "metadata"@, "labels"@, key) == (
            if own.contains_key(key) {
                Some(Json::Text(own[key]))
            } else {
                None
            })
            &&& holds_texts(
                at2(j, "metadata"@, "annotations"@),
                configuration_annotations(rsd, tag, pod_template),
            )
            &&& owners.len() == 1 && says_owner(owners[0], owner_of(rsd))
            &&& holds_texts(
                at4(j, "spec"@, "template"@, "metadata"@, "annotations"@),
                revision_annotations(rsd, k),
            )
            &&& holds_texts(
                at4(j, "spec"@, "template"@, "metadata"@, "labels"@),
                revision_labels(rsd),
            )
            &&& at3(j, "spec"@, "template"@, "spec"@) == Some(
                match rsd.spec.template.spec {
                    Some(s) => s@,
                    None => Json::Object(no_fields()),
                },
            )
        }),
{
    reveal_strlit("apiVersion");
    reveal_strlit("kind");
    reveal_strlit("metadata");
    reveal_strlit("spec");
    reveal_strlit("template");
    reveal_strlit("annotations");
    reveal_strlit("labels");
    assert("apiVersion"@.len() == 10);
    assert("kind"@.len() == 4);
    assert("metadata"@.len() == 8);
    assert("spec"@.len() == 4);
    assert("template"@.len() == 8);
    assert("annotations"@.len() == 11);
    assert("labels"@.len() == 6);
    assert("kind"@[0] == 'k');
    assert("spec"@[0] == 's');
    assert("metadata"@[0] == 'm');
    assert("template"@[0] == 't');
    let own = match rsd.metadata.labels {
        Some(l) => l@,
        None => Map::empty(),
    };
    what_metadata_says(
        MetaView {
            name: Some(name),
            namespace: Some(namespace),
            uid: None,
            labels: Some(own.insert("app.kubernetes.io/managed-by"@, "restate-operator"@)),
            annotations: Some(configuration_annotations(rsd, tag, pod_template)),
            owner_references: Some(seq![owner_of(rsd)]),
        },
    );
    values_are_written_as_they_are(None, None, Some(revision_annotations(rsd, k)), Seq::empty());
    values_are_written_as_they_are(None, None, Some(revision_labels(rsd)), Seq::empty());
}

/// The Route of a version sends all traffic to the latest revision of its Configuration, is visible
/// in the cluster alone, and is owned by the Configuration.
pub proof fn what_a_route_says(
    rsd: RestateDeployment,
    name: Seq<char>,
    namespace: Seq<char>,
    config_name: Seq<char>,
    config: ObjectMeta,
    key: Seq<char>,
)
    requires
        config.name is Some,
        config.uid is Some,
    ensures
        ({
            let j = route_json(rsd, name, namespace, config_name, config);
            let owners = items(at2(j, "metadata"@, "ownerReferences"@));
            let traffic = items(at2(j, "spec"@, "traffic"@));
            let labels = match rsd.metadata.labels {
                Some(l) => l@,
                None => Map::empty(),
            };
            let own = match rsd.metadata.annotations {
                Some(a) => a@,
                None => Map::empty(),
            };
            &&& field(j, "apiVersion"@) == Some(Json::Text("serving.knative.dev/v1"@))
            &&& field(j, "kind"@) == Some(Json::Text("Route"@))
            &&& at2(j, "metadata"@, "name"@) == Some(Json::Text(name))
            &&& at2(j, "metadata"@, "namespace"@) == Some(Json::Text(namespace))
            &&& at3(j, "metadata"@, "labels"@, "app.kubernetes.io/managed-by"@) == Some(
                Json::Text("restate-operator"@),
            )
            &&& at3(j, "metadata"@, "labels"@, "networking.knative.dev/visibility"@) == Some(
                Json::Text("cluster-local"@),
            )
            &&& key != "app.kubernetes.io/managed-by"@ && key
                != "networking.knative.dev/visibility"@ ==> at3(j, "metadata"@, "labels"@, key) == (
            if labels.contains_key(key) {
                Some(Json::Text(labels[key]))
            } else {
                None
            })
            &&& at3(j, "metadata"@, "annotations"@, "restate.dev/deployment"@) == Some(
                Json::Text(rsd.metadata.any_name()),
            )
            &&& key != "restate.dev/deployment"@ ==> at3(j, "metadata"@, "annotations"@, key) == (
            if own.contains_key(key) && key != "kubectl.kubernetes.io/last-applied-configuration"@ {
                Some(Json::Text(own[key]))
            } else {
                None
            })
            &&& owners.len() == 1
            &&& field(owners[0], "apiVersion"@) == Some(Json::Text("serving.knative.dev/v1"@))
            &&& field(owners[0], "kind"@) == Some(Json::Text("Configuration"@))
            &&& field(owners[0], "name"@) == Some(Json::Text(config.name->0@))
            &&& field(owners[0], "uid"@) == Some(Json::Text(config.uid->0@))
            &&& field(owners[0], "controller"@) == Some(Json::Bool(true))
            &&& traffic.len() == 1
            &&& field(traffic[0], "configurationName"@) == Some(Json::Text(config_name))
            &&& field(traffic[0], "latestRevision"@) == Some(Json::Bool(true))
            &&& field(traffic[0], "percent"@) == Some(Json::Int(100))
        }),
{
    reveal_strlit("apiVersion");
    reveal_strlit("kind");
    reveal_strlit("metadata");
    reveal_strlit("spec");
    reveal_strlit("traffic");
    reveal_strlit("configurationName");
    reveal_strlit("latestRevision");
    reveal_strlit("percent");
    reveal_strlit("app.kubernetes.io/managed-by");
    reveal_strlit("networking.knative.dev/visibility");
    reveal_strlit("restate.dev/deployment");
    reveal_strlit("kubectl.kubernetes.io/last-applied-configuration");
    assert("apiVersion"@.len() == 10);
    assert("kind"@.len() == 4);
    assert("metadata"@.len() == 8);
    assert("spec"@.len() == 4);
    assert("traffic"@.len() == 7);
    assert("configurationName"@.len() == 17);
    assert("latestRevision"@.len() == 14);
    assert("percent"@.len() == 7);
    assert("app.kubernetes.io/managed-by"@.len() == 28);
    assert("networking.knative.dev/visibility"@.len() == 33);
    assert("restate.dev/deployment"@.len() == 22);
    assert("kubectl.kubernetes.io/last-applied-configuration"@.len() == 48);
    assert("kind"@[0] == 'k');
    assert("spec"@[0] == 's');
    assert("traffic"@[0] == 't');
    assert("percent"@[0] == 'p');
    let labels = match rsd.metadata.labels {
        Some(l) => l@,
        None => Map::empty(),
    };
    let own = match rsd.metadata.annotations {
        Some(a) => a@,
        None => Map::empty(),
    };
    what_metadata_says(
        MetaView {
            name: Some(name),
            namespace: Some(namespace),
            uid: None,
            labels: Some(
                labels.insert("app.kubernetes.io/managed-by"@, "restate-operator"@).insert(
                    "networking.knative.dev/visibility"@,
                    "cluster-local"@,
                ),
            ),
            annotations: Some(
                own.remove("kubectl.kubernetes.io/last-applied-configuration"@).insert(
                    "restate.dev/deployment"@,
                    rsd.metadata.any_name(),
                ),
            ),
            owner_references: Some(seq![configuration_owner(config)]),
        },
    );
}

/// A version goes by the tag that the user gives, and otherwise by the hash of its template.
pub proof fn what_a_version_goes_by(rsd: RestateDeployment, pod_template: Seq<char>)
    ensures
        rsd.spec.knative matches Some(k) && k.tag is Some ==> tag_of(rsd, pod_template)
            == rsd.spec.knative->0.tag->0@,
        rsd.spec.knative is None || rsd.spec.knative->0.tag is None ==> tag_of(rsd, pod_template)
            == template_hash(rsd, pod_template, None),
{
}

/// Knative takes a pod of which just one container has ports, one of which says its protocol.
pub proof fn which_pods_knative_takes(containers: Seq<PortedContainer>, i: int, j: int)
    requires
        0 <= i < containers.len(),
        containers[i].ports matches Some(ports) && 0 <= j < ports@.len() && ports@[j].name is Some
            && (begins_with(ports@[j].name->0@, "h2c"@) || begins_with(
            ports@[j].name->0@,
            "http1"@,
        )),
        forall|k: int|
            0 <= k < containers.len() && k != i ==> (#[trigger] containers[k]).ports is None
                || containers[k].ports->0@.len() == 0,
    ensures
        knative_accepts(containers),
{
    assert(hints_protocol(containers[i].ports->0@[j]));
    assert(crate::restatedeployment::knative::sole_ported(containers, i));
}

/// A pod that Knative takes has just one container with ports, one of which says its protocol.
pub proof fn what_knative_takes(containers: Seq<PortedContainer>)
    requires
        knative_accepts(containers),
    ensures
        exists|i: int|
            0 <= i < containers.len() && (#[trigger] containers[i]).ports is Some && (exists|j: int|
                0 <= j < containers[i].ports->0@.len() && ((
                #[trigger] containers[i].ports->0@[j]).name matches Some(n) && (begins_with(
                    n@,
                    "h2c"@,
                ) || begins_with(n@, "http1"@)))) && forall|k: int|
                0 <= k < containers.len() && k != i ==> (#[trigger] containers[k]).ports is None
                    || containers[k].ports->0@.len() == 0,
{
    let i = choose|i: int|
        #[trigger] crate::restatedeployment::knative::sole_ported(containers, i)
            && crate::restatedeployment::knative::has_hinted_port(containers[i]);
    assert(containers[i].ports is Some);
}

/// The condition that says whether something is ready is the first of that type.
pub open spec fn first_ready(conditions: Option<Vec<KnativeCondition>>, i: int) -> bool {
    conditions matches Some(c) && 0 <= i < c@.len() && c@[i].type_@ == "Ready"@ && forall|j: int|
        0 <= j < i ==> (#[trigger] c@[j]).type_@ != "Ready"@
}

proof fn lemma_first_ready(conditions: Option<Vec<KnativeCondition>>, i: int)
    requires
        first_ready(conditions, i),
    ensures
        ready_place(conditions, i),
        forall|k: int| #[trigger] ready_place(conditions, k) ==> k == i,
{
    assert(ready_place(conditions, i));
    assert forall|k: int| #[trigger] ready_place(conditions, k) implies k == i by {
        if k < i {
            assert(conditions->0@[k].type_@ != "Ready"@);
        } else if i < k {
            assert(conditions->0@[i].type_@ != "Ready"@);
        }
    }
}

/// Whether a place is that of the first condition of readiness, or there is none.
pub open spec fn readiness_stands_at(
    conditions: Option<Vec<KnativeCondition>>,
    place: Option<int>,
) -> bool {
    match place {
        Some(i) => first_ready(conditions, i),
        None => forall|k: int| !#[trigger] first_ready(conditions, k),
    }
}

proof fn lemma_nothing_ready(conditions: Option<Vec<KnativeCondition>>)
    requires
        readiness_stands_at(conditions, None),
    ensures
        forall|k: int| !#[trigger] ready_place(conditions, k),
{
    assert forall|k: int| !#[trigger] ready_place(conditions, k) by {
        assert(!first_ready(conditions, k));
    }
}

/// A revision is waited for until its first condition of readiness is true, and for five seconds at a
/// time; one that says nothing of its readiness is waited for too.
pub proof fn when_a_revision_is_ready(revision: Revision, place: Option<int>)
    requires
        readiness_stands_at(revision_conditions(revision), place),
    ensures
        place matches Some(i) ==> (revision_wait(revision) is None
            <==> revision_conditions(revision)->0@[i].status@ == "True"@),
        revision_wait(revision) matches Some(w) ==> !w.route && w.requeue_after == 5_000_000_000,
        revision_wait(revision) matches Some(w) ==> match place {
            Some(i) => w.message == "Revision "@ + revision.metadata.any_name()
                + " is not ready: "@ + revision_conditions(revision)->0@[i].message@ && w.reason
                == revision_conditions(revision)->0@[i].reason@,
            None => w.message == "Revision "@ + revision.metadata.any_name()
                + " has out-of-date status information"@ && w.reason == "NoConditions"@,
        },
        place is None ==> revision_wait(revision) is Some,
{
    match place {
        Some(i) => lemma_first_ready(revision_conditions(revision), i),
        None => lemma_nothing_ready(revision_conditions(revision)),
    }
}

/// A Route is waited for while its first condition of readiness is there and not true, and after that
/// until it sends traffic to the revision.
pub proof fn when_a_route_is_ready(
    route: Route,
    revision: Seq<char>,
    place: Option<int>,
)
    requires
        readiness_stands_at(route_conditions(route), place),
    ensures
        ({
            let unready = place is Some && route_conditions(route)->0@[place->0].status@ != "True"@;
            let sends = route.status is Some && route.status->0.traffic is Some && exists|i: int|
                0 <= i < route.status->0.traffic->0@.len() && opt_text(
                    #[trigger] route.status->0.traffic->0@[i],
                ) == Some(revision);
            match route_wait(route, revision) {
                None => !unready && sends,
                Some(w) => {
                    &&& w.route
                    &&& unready || !sends
                    &&& unready ==> w.message == "Route "@ + route.metadata.any_name()
                        + " is not ready: "@ + route_conditions(route)->0@[place->0].message@
                            && w.reason
                        == route_conditions(route)->0@[place->0].reason@ && w.requeue_after
                        == 5_000_000_000
                    &&& !unready ==> w.message == "Route "@ + route.metadata.any_name()
                        + " is not routing traffic to revision "@ + revision && w.reason
                        == "TrafficNotRolledOut"@ && w.requeue_after == 2_000_000_000
                },
            }
        }),
{
    match place {
        Some(i) => lemma_first_ready(route_conditions(route), i),
        None => lemma_nothing_ready(route_conditions(route)),
    }
}

/// The scale that a revision starts with is what its template says, and one where that says nothing
/// that can be read.
pub proof fn what_a_revision_starts_with(annotations: Option<Map<Seq<char>, Seq<char>>>)
    ensures
        ({
            let key = "autoscaling.knative.dev/initial-scale"@;
            let said = match annotations {
                Some(a) => if a.contains_key(key) {
                    integer(a[key])
                } else {
                    None
                },
                None => None,
            };
            &&& said is Some && i32::MIN <= said->0 && said->0 <= i32::MAX
                ==> initial_scale(annotations)
                == said->0
            &&& said is None ==> initial_scale(annotations) == 1
            &&& said is Some && (said->0 < i32::MIN || said->0 > i32::MAX) ==> initial_scale(
                annotations,
            ) == 1
        }),
{
}

/// How many replicas a revision is meant to have: what it says, and otherwise what it starts with.
pub open spec fn meant_replicas(config: Configuration, revision: Revision) -> int {
    if revision.status is Some && revision.status->0.desired_replicas is Some {
        revision.status->0.desired_replicas->0 as int
    } else {
        initial_scale(opt_map(config.template_annotations)) as int
    }
}

/// How many replicas a revision has: what it says, and otherwise none.
pub open spec fn actual_replicas(revision: Revision) -> int {
    if revision.status is Some && revision.status->0.actual_replicas is Some {
        revision.status->0.actual_replicas->0 as int
    } else {
        0
    }
}

/// A status shows the counts of the revision: the actual ones as ready and available, those that it
/// is meant to have, and how many are missing.
pub proof fn what_the_status_counts(p: ProgressView, config: Configuration, revision: Revision)
    requires
        meant_replicas(config, revision) - actual_replicas(revision) <= i32::MAX,
    ensures
        ({
            let q = with_counts(p, config, revision);
            let meant = meant_replicas(config, revision);
            let actual = actual_replicas(revision);
            &&& q.knative == p.knative && q.deployment_id == p.deployment_id
            &&& q.replicas == actual
            &&& q.desired_replicas is Some && q.desired_replicas->0 == meant
            &&& q.ready_replicas is Some && q.ready_replicas->0 == actual
            &&& q.available_replicas is Some && q.available_replicas->0 == actual
            &&& q.unavailable_replicas is Some
            &&& revision.status is None ==> q.unavailable_replicas->0 == meant
            &&& revision.status is Some && meant >= actual ==> q.unavailable_replicas->0 == meant
                - actual
            &&& revision.status is Some && meant < actual ==> q.unavailable_replicas->0 == 0
        }),
{
}

/// A rollout is followed step by step: a Configuration whose status is old is waited for half a
/// second, one without a revision five, and a revision that is not found one; then its counts are
/// shown, and it and its Route are waited for; and only then the address is shown.
pub proof fn how_a_rollout_is_followed(
    p: ProgressView,
    config: Configuration,
    route: Route,
    revision: Option<Revision>,
)
    ensures
        ({
            let (q, wait) = observed(p, config, route, revision);
            let generation = match config.metadata.generation {
                Some(g) => g,
                None => 0,
            };
            let seen = match config.status {
                Some(s) => match s.observed_generation {
                    Some(g) => g,
                    None => 0,
                },
                None => 0,
            };
            let latest = match config.status {
                Some(s) => opt_text(s.latest_created_revision_name),
                None => None,
            };
            &&& generation != seen ==> q == p && (wait matches Some(w) && !w.route && w.reason
                == "ObservedGenerationMismatch"@ && w.requeue_after == 500_000_000 && w.message
                == "Configuration "@ + config.metadata.any_name()
                + " has out-of-date status information"@)
            &&& generation == seen && latest is None ==> q == p && (wait matches Some(w) && !w.route
                && w.reason == "RevisionNotCreated"@ && w.requeue_after == 5_000_000_000 && w.message
                == "Configuration "@ + config.metadata.any_name()
                + " is waiting for initial deployment"@)
            &&& generation == seen && latest is Some && revision is None ==> (wait matches Some(
                w,
            ) && !w.route && w.reason == "RevisionNotFound"@ && w.requeue_after == 1_000_000_000)
            &&& generation == seen && latest is Some && revision is Some ==> wait == match
            revision_wait(revision->0) {
                Some(w) => Some(w),
                None => route_wait(route, latest->0),
            }
            &&& generation == seen && latest is Some && p.knative is Some ==> q.knative is Some
                && q.knative->0.latest_revision == latest && q.knative->0.configuration_name
                == p.knative->0.configuration_name && q.knative->0.route_name
                == p.knative->0.route_name
            &&& generation == seen && latest is Some && revision is Some ==> {
                let counted = with_counts(p, config, revision->0);
                &&& q.replicas == counted.replicas
                &&& q.desired_replicas == counted.desired_replicas
                &&& q.ready_replicas == counted.ready_replicas
                &&& q.available_replicas == counted.available_replicas
                &&& q.unavailable_replicas == counted.unavailable_replicas
            }
            &&& wait is None && p.knative is Some ==> q.knative->0.url == (match route.status {
                Some(s) => opt_text(s.url),
                None => None,
            })
            &&& wait is Some && p.knative is Some ==> q.knative is Some && q.knative->0.url
                == p.knative->0.url
            &&& q.deployment_id == p.deployment_id
        }),
{
}

/// A version whose name comes from its hash collides with a Configuration of that name that was made
/// from another template; one that the user named does not.
pub proof fn when_versions_collide(
    rsd: RestateDeployment,
    pod_template: Seq<char>,
    existing: Option<ObjectMeta>,
)
    ensures
        collides(rsd, pod_template, existing) <==> (rsd.spec.knative is None
            || rsd.spec.knative->0.tag is None) && existing is Some && existing->0.annotation(
            "restate.dev/pod-template"@,
        ) != Some(pod_template),
{
}

/// A version that is new to the status starts with its names and nothing else.
pub proof fn how_a_rollout_starts(p: ProgressView, name: Seq<char>)
    ensures
        p.knative matches Some(k) && k.configuration_name == Some(name) ==> started(p, name) == p,
        p.knative is None || p.knative->0.configuration_name != Some(name) ==> started(p, name) == (
        ProgressView {
            knative: Some(
                KnativeView {
                    configuration_name: Some(name),
                    route_name: Some(name),
                    latest_revision: None,
                    url: None,
                },
            ),
            deployment_id: None,
            replicas: 0,
            desired_replicas: Some(0),
            ready_replicas: Some(0),
            available_replicas: Some(0),
            unavailable_replicas: Some(0),
        }),
{
}

/// What is asked for next in a rollout: the Configuration, its Route, the registration, its record,
/// the usage and the cleanup, each after the one before has come about.
pub proof fn what_comes_next_in_a_rollout(
    rsd: RestateDeployment,
    name: Seq<char>,
    pod_template: Seq<char>,
    now: int,
    from: KnativeStage,
    event: KnativeEvent,
    before: ProgressView,
    after: ProgressView,
    to: KnativeStage,
    command: KnativeCommand,
)
    requires
        knative_answers(from, event),
        knative_goes_on(
            rsd,
            name,
            pod_template,
            now,
            from,
            event,
            before,
            after,
            to,
            command,
        ),
    ensures
        event matches KnativeEvent::Begin { existing } ==> after == started(before, name) && (
        if collides(rsd, pod_template, existing) {
            command == KnativeCommand::Finish(Err(Error::HashCollision))
        } else {
            command is ApplyConfiguration
        }),
        event is ConfigurationApplied ==> command is ApplyRoute && after == before,
        from matches KnativeStage::ApplyingRoute { config } ==> (
        event matches KnativeEvent::RouteApplied { route, revision } ==> {
            let (p, wait) = observed(before, config, route, revision);
            let id = config.metadata.annotation("restate.dev/deployment-id"@);
            &&& wait matches Some(w) ==> after == p && (command matches KnativeCommand::Finish(
                Err(e),
            ) && (w.route ==> e is RouteNotReady) && (!w.route ==> e is ConfigurationNotReady))
            &&& wait is None && id is Some ==> command is AskUsage && after.deployment_id == id
            &&& wait is None && id is None && route_url(route) is Some
                && crate::control::parsed_url(route_url(route)->0) is Ok ==> command is Register
                && after == p
            &&& wait is None && id is None && route_url(route) is None ==> (
            command matches KnativeCommand::Finish(
                Err(Error::RouteNotReady { message, reason, requeue_after }),
            ) && message@ == "Route "@ + route.metadata.any_name()
                + " is waiting for URL assignment"@ && reason@ == "RouteURLNotReady"@ && requeue_after is Some && requeue_after->0@
                == 5_000_000_000)
        }),
        from matches KnativeStage::Registering { config } ==> (
        event matches KnativeEvent::Registered { id } ==> {
            let same = config.metadata.annotation("restate.dev/deployment-id"@) == Some(id@);
            &&& same ==> command is AskUsage
            &&& !same ==> command is Annotate
            &&& after == (ProgressView { deployment_id: Some(id@), ..before })
        }),
        event is Done ==> command is AskUsage,
        event is Usage && rsd.metadata.uid is Some ==> command is CleanUp,
        event is Usage && rsd.metadata.uid is None ==> (command matches KnativeCommand::Finish(
            Err(Error::InvalidRestateConfig(t)),
        ) && t@ == "RestateDeployment must have UID"@),
        event matches KnativeEvent::CleanedUp { next_removal } ==> command
            == KnativeCommand::Finish(Ok(next_removal)),
        command is ApplyConfiguration ==> from is Start,
        command is ApplyRoute ==> event is ConfigurationApplied,
        command is Register ==> event is RouteApplied,
        command is Annotate ==> event is RouteApplied || event is Registered,
        command is AskUsage ==> event is Done || event is RouteApplied || event is Registered,
        command is CleanUp ==> event is Usage && rsd.metadata.uid is Some,
        command matches KnativeCommand::CleanUp { deployments } ==> event == (
        KnativeEvent::Usage { deployments }),
        command matches KnativeCommand::Finish(Ok(t)) ==> event == (KnativeEvent::CleanedUp {
            next_removal: t,
        }),
        event matches KnativeEvent::Failed(e) ==> command == KnativeCommand::Finish(Err(e)) && after
            == before,
        event matches KnativeEvent::Registered { id } ==> after.deployment_id == Some(id@),
        command matches KnativeCommand::Annotate { annotations } ==> {
            &&& annotations@.contains_key("restate.dev/deployment-id"@)
            &&& annotations@["restate.dev/deployment-id"@] == after.deployment_id->0
            &&& annotations@.contains_key("restate.dev/registered-at"@)
            &&& annotations@["restate.dev/registered-at"@] == crate::time::rfc3339(now)
        },
        command matches KnativeCommand::Register { url } ==> {
            &&& event matches KnativeEvent::RouteApplied { route, .. }
            &&& route_url(route) is Some
            &&& crate::control::parsed_url(route_url(route)->0) == Ok::<Seq<char>, Seq<char>>(url@)
        },
{
    reveal_strlit("restate.dev/deployment-id");
    reveal_strlit("restate.dev/registered-at");
    assert("restate.dev/deployment-id"@.len() == 25);
    assert("restate.dev/registered-at"@.len() == 25);
    assert("restate.dev/deployment-id"@[12] == 'd');
    assert("restate.dev/registered-at"@[12] == 'r');
}

/// A wait is told as one for the Route or for the Configuration, with its reason and its time.
pub proof fn how_a_wait_is_told(e: Error, w: WaitView)
    requires
        is_wait(e, w),
    ensures
        w.route ==> (e matches Error::RouteNotReady { message, reason, requeue_after } && message@
            == w.message && reason@ == w.reason && requeue_after is Some && requeue_after->0@
            == w.requeue_after),
        !w.route ==> (e matches Error::ConfigurationNotReady { message, reason, requeue_after }
            && message@ == w.message && reason@ == w.reason && requeue_after is Some
            && requeue_after->0@ == w.requeue_after),
{
}

} // verus!
