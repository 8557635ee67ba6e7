//! What else a cluster owns, and the order in which it is brought about.

use vstd::prelude::*;

use crate::control::{find_condition, opt_conditions, ConditionView};
use crate::error::{error_text, Error, KubeFailure, KubeFailureKind};
use crate::json::{at2, at3, at4, field, inner, items, opt_json, Json};
use crate::laws::documents::{
    holds_opt_texts, holds_texts, lists_texts, text_or_none, what_a_config_map_says,
    what_a_manifest_says, what_metadata_says,
};
use crate::manifest::{config_map_json, with_annotations, EnvVar};
use crate::meta::{meta_json, opt_map, MetaView, ObjectMeta};
use crate::restatecluster::canary::{
    canary_command, canary_failed, canary_job_json, canary_name, canary_pending, canary_prefix,
    canary_state, has_identity_volume, immutable_field, is_not_ready, CanaryKind,
};
use crate::restatecluster::compute::{
    account_annotations, canary_step, compute_steps, config_text, gcp_account, internal_annotations,
    pod_identity_steps, role_arn, security_group_steps, security_groups, service_annotations,
    workload_identity_steps,
};
use crate::restatecluster::labels::{cluster_selector, mandatory, object_view};
use crate::restatecluster::network_policies::network_steps;
use crate::restatecluster::objects::{
    after_at, cluster_service_json, condition_holds, config_map_name, disruption_budget_json,
    gcp_project, h2c_port_json, iam_policy_member_json, pod_identity_json, pvc_patch_json,
    security_group_json, service_account_json, service_json, up_to_at, ConditionedStatus,
};
use crate::restatecluster::provisioning::{
    config_complaint, direct_value, due_complaint, provision_failure, provisioning_complaint,
    to_provision, ProvisionAnswer,
};
use crate::restatecluster::reconcile::{
    cluster_answers, cluster_goes_on, cluster_steps, name_taken, ClusterCommand, ClusterEvent,
    ClusterStage,
};
use crate::restatecluster::resource::{
    OperatorSettings, RestateCluster, RestateClusterSpec, RestateClusterStatus,
    RestateClusterStorage, SigningKey,
};
use crate::restatecluster::statefulset::{statefulset_json, trusted_certs};
use crate::restatecluster::status::{
    base_view, cluster_owner, cluster_verdict, namespace_json, provisioned_after, serves_version,
    ApiGroup,
};
use crate::restatecluster::steps::{OwnedKind, StepView};
use crate::restatecluster::storage::{
    claim_names, has_storage, is_claim_of, stateful_set_complaint, ExistingStorage,
    StatefulSetStatus,
};
use crate::text::{int_text, join, occurs_in, opt_text, same_ignoring_case, texts};

verus! {

/// What a cluster owns is owned by it alone, and is labelled and annotated as it is.
pub proof fn what_a_cluster_hands_on(rc: RestateCluster)
    requires
        rc.metadata.name is Some,
        rc.metadata.uid is Some,
    ensures
        ({
            let m = base_view(rc);
            &&& m.name == Some(rc.metadata.any_name())
            &&& m.namespace is None && m.uid is None
            &&& m.labels == Some(
                match rc.metadata.labels {
                    Some(l) => l@,
                    None => Map::empty(),
                },
            )
            &&& m.annotations == Some(
                match rc.metadata.annotations {
                    Some(a) => a@,
                    None => Map::empty(),
                },
            )
            &&& m.owner_references is Some && m.owner_references->0.len() == 1
            &&& m.owner_references->0[0] == cluster_owner(rc)
            &&& cluster_owner(rc).api_version == "restate.dev/v1"@
            &&& cluster_owner(rc).kind == "RestateCluster"@
            &&& cluster_owner(rc).name == rc.metadata.name->0@
            &&& cluster_owner(rc).uid == rc.metadata.uid->0@
            &&& cluster_owner(rc).controller == Some(true)
            &&& cluster_owner(rc).block_owner_deletion is None
        }),
{
}

/// A cluster stands in a namespace of its own.
pub proof fn what_the_namespace_says(base: MetaView, name: Seq<char>)
    ensures
        ({
            let j = namespace_json(base, name);
            &&& field(j, "apiVersion"@) == Some(Json::Text("v1"@))
            &&& field(j, "kind"@) == Some(Json::Text("Namespace"@))
            &&& field(j, "metadata"@) == Some(meta_json(object_view(base, name)))
            &&& field(j, "spec"@) is None
        }),
{
    what_a_manifest_says("v1"@, "Namespace"@, object_view(base, name), None);
}

/// The service account of the nodes is annotated as asked for, which wins over the annotations of the
/// cluster.
pub proof fn what_the_service_account_says(
    base: MetaView,
    annotations: Option<Map<Seq<char>, Seq<char>>>,
    key: Seq<char>,
)
    requires
        base.annotations is Some,
    ensures
        ({
            let j = service_account_json(base, annotations);
            let said = at3(j, "metadata"@, "annotations"@, key);
            &&& field(j, "apiVersion"@) == Some(Json::Text("v1"@))
            &&& field(j, "kind"@) == Some(Json::Text("ServiceAccount"@))
            &&& at2(j, "metadata"@, "name"@) == Some(Json::Text("restate"@))
            &&& holds_opt_texts(
                at2(j, "metadata"@, "labels"@),
                object_view(base, "restate"@).labels,
            )
            &&& annotations is Some && annotations->0.contains_key(key) ==> said == Some(
                Json::Text(annotations->0[key]),
            )
            &&& annotations is None || !annotations->0.contains_key(key) ==> said == (
            if base.annotations->0.contains_key(key) {
                Some(Json::Text(base.annotations->0[key]))
            } else {
                None
            })
        }),
{
    let m = with_annotations(object_view(base, "restate"@), annotations);
    what_a_manifest_says("v1"@, "ServiceAccount"@, m, None);
    what_metadata_says(m);
    assert(at3(service_account_json(base, annotations), "metadata"@, "annotations"@, key) == inner(
        field(meta_json(m), "annotations"@),
        key,
    ));
}

/// The PodIdentityAssociation ties the service account of the namespace to the role.
pub proof fn what_the_pod_identity_says(
    ns: Seq<char>,
    base: MetaView,
    cluster: Seq<char>,
    role: Seq<char>,
)
    ensures
        ({
            let j = pod_identity_json(ns, base, cluster, role);
            &&& field(j, "apiVersion"@) == Some(Json::Text("eks.services.k8s.aws/v1alpha1"@))
            &&& field(j, "kind"@) == Some(Json::Text("PodIdentityAssociation"@))
            &&& field(j, "metadata"@) == Some(meta_json(object_view(base, "restate"@)))
            &&& at2(j, "spec"@, "clusterName"@) == Some(Json::Text(cluster))
            &&& at2(j, "spec"@, "namespace"@) == Some(Json::Text(ns))
            &&& at2(j, "spec"@, "roleARN"@) == Some(Json::Text(role))
            &&& at2(j, "spec"@, "serviceAccount"@) == Some(Json::Text("restate"@))
        }),
{
    reveal_strlit("apiVersion");
    reveal_strlit("kind");
    reveal_strlit("metadata");
    reveal_strlit("spec");
    reveal_strlit("clusterName");
    reveal_strlit("namespace");
    reveal_strlit("roleARN");
    reveal_strlit("serviceAccount");
    assert("apiVersion"@.len() == 10);
    assert("kind"@.len() == 4);
    assert("metadata"@.len() == 8);
    assert("spec"@.len() == 4);
    assert("clusterName"@.len() == 11);
    assert("namespace"@.len() == 9);
    assert("roleARN"@.len() == 7);
    assert("serviceAccount"@.len() == 14);
    assert("kind"@[0] == 'k');
    assert("spec"@[0] == 's');
}

/// The SecurityGroupPolicy puts the pods of the cluster into the groups.
pub proof fn what_the_security_groups_say(base: MetaView, groups: Seq<Seq<char>>)
    ensures
        ({
            let j = security_group_json(base, groups);
            &&& field(j, "apiVersion"@) == Some(Json::Text("vpcresources.k8s.aws/v1beta1"@))
            &&& field(j, "kind"@) == Some(Json::Text("SecurityGroupPolicy"@))
            &&& field(j, "metadata"@) == Some(meta_json(object_view(base, "restate"@)))
            &&& at2(j, "spec"@, "podSelector"@) == Some(cluster_selector(base.name->0))
            &&& at3(j, "spec"@, "securityGroups"@, "groupIds"@) is Some
            &&& lists_texts(at3(j, "spec"@, "securityGroups"@, "groupIds"@)->0, groups)
        }),
{
    reveal_strlit("apiVersion");
    reveal_strlit("kind");
    reveal_strlit("metadata");
    reveal_strlit("spec");
    reveal_strlit("podSelector");
    reveal_strlit("securityGroups");
    reveal_strlit("groupIds");
    assert("apiVersion"@.len() == 10);
    assert("kind"@.len() == 4);
    assert("metadata"@.len() == 8);
    assert("spec"@.len() == 4);
    assert("podSelector"@.len() == 11);
    assert("securityGroups"@.len() == 14);
    assert("groupIds"@.len() == 8);
    assert("kind"@[0] == 'k');
    assert("spec"@[0] == 's');
    assert("metadata"@[0] == 'm');
    assert("groupIds"@[0] == 'g');
}

/// A port of a Service speaks HTTP/2 without encryption.
pub proof fn what_a_port_says(name: Seq<char>, port: int)
    ensures
        field(h2c_port_json(name, port), "name"@) == Some(Json::Text(name)),
        field(h2c_port_json(name, port), "port"@) == Some(Json::Int(port)),
        field(h2c_port_json(name, port), "appProtocol"@) == Some(Json::Text("kubernetes.io/h2c"@)),
{
    reveal_strlit("name");
    reveal_strlit("port");
    reveal_strlit("appProtocol");
    assert("name"@.len() == 4);
    assert("port"@.len() == 4);
    assert("appProtocol"@.len() == 11);
    assert("name"@[0] == 'n');
    assert("port"@[0] == 'p');
}

/// The Service offers the ingress, the admin API and the metrics of the nodes.
pub proof fn what_the_service_says(
    base: MetaView,
    annotations: Option<Map<Seq<char>, Seq<char>>>,
    key: Seq<char>,
)
    requires
        base.annotations is Some,
    ensures
        ({
            let j = service_json(base, annotations);
            let ports = items(at2(j, "spec"@, "ports"@));
            let said = at3(j, "metadata"@, "annotations"@, key);
            &&& field(j, "apiVersion"@) == Some(Json::Text("v1"@))
            &&& field(j, "kind"@) == Some(Json::Text("Service"@))
            &&& at2(j, "metadata"@, "name"@) == Some(Json::Text("restate"@))
            &&& holds_opt_texts(
                at2(j, "metadata"@, "labels"@),
                object_view(base, "restate"@).labels,
            )
            &&& annotations is Some && annotations->0.contains_key(key) ==> said == Some(
                Json::Text(annotations->0[key]),
            )
            &&& annotations is None || !annotations->0.contains_key(key) ==> said == (
            if base.annotations->0.contains_key(key) {
                Some(Json::Text(base.annotations->0[key]))
            } else {
                None
            })
            &&& holds_texts(at2(j, "spec"@, "selector"@), mandatory(base.name->0))
            &&& ports.len() == 3
            &&& ports[0] == h2c_port_json("ingress"@, 8080)
            &&& ports[1] == h2c_port_json("admin"@, 9070)
            &&& ports[2] == h2c_port_json("metrics"@, 5122)
            &&& at2(j, "spec"@, "clusterIP"@) is None
        }),
{
    reveal_strlit("ports");
    reveal_strlit("selector");
    reveal_strlit("clusterIP");
    assert("ports"@.len() == 5);
    assert("selector"@.len() == 8);
    assert("clusterIP"@.len() == 9);
    let m = with_annotations(object_view(base, "restate"@), annotations);
    let j = service_json(base, annotations);
    what_a_manifest_says("v1"@, "Service"@, m, field(j, "spec"@));
    what_metadata_says(m);
    reveal_strlit("apiVersion");
    reveal_strlit("kind");
    reveal_strlit("metadata");
    reveal_strlit("spec");
    assert("apiVersion"@.len() == 10);
    assert("kind"@.len() == 4);
    assert("metadata"@.len() == 8);
    assert("spec"@.len() == 4);
    assert("kind"@[0] == 'k');
    assert("spec"@[0] == 's');
    assert(at3(j, "metadata"@, "annotations"@, key) == inner(
        field(meta_json(m), "annotations"@),
        key,
    ));
}

/// The headless Service gives each node an address, ready or not.
pub proof fn what_the_headless_service_says(base: MetaView)
    ensures
        ({
            let j = cluster_service_json(base);
            let ports = items(at2(j, "spec"@, "ports"@));
            &&& field(j, "apiVersion"@) == Some(Json::Text("v1"@))
            &&& field(j, "kind"@) == Some(Json::Text("Service"@))
            &&& field(j, "metadata"@) == Some(meta_json(object_view(base, "restate-cluster"@)))
            &&& at2(j, "spec"@, "clusterIP"@) == Some(Json::Text("None"@))
            &&& at2(j, "spec"@, "publishNotReadyAddresses"@) == Some(Json::Bool(true))
            &&& holds_texts(at2(j, "spec"@, "selector"@), mandatory(base.name->0))
            &&& ports.len() == 1
            &&& ports[0] == h2c_port_json("node"@, 5122)
        }),
{
    reveal_strlit("apiVersion");
    reveal_strlit("kind");
    reveal_strlit("metadata");
    reveal_strlit("spec");
    reveal_strlit("clusterIP");
    reveal_strlit("ports");
    reveal_strlit("publishNotReadyAddresses");
    reveal_strlit("selector");
    assert("apiVersion"@.len() == 10);
    assert("kind"@.len() == 4);
    assert("metadata"@.len() == 8);
    assert("spec"@.len() == 4);
    assert("clusterIP"@.len() == 9);
    assert("ports"@.len() == 5);
    assert("publishNotReadyAddresses"@.len() == 24);
    assert("selector"@.len() == 8);
    assert("kind"@[0] == 'k');
    assert("spec"@[0] == 's');
    assert("metadata"@[0] == 'm');
    assert("selector"@[0] == 's');
}

/// At most one node is away at a time.
pub proof fn what_the_disruption_budget_says(base: MetaView)
    ensures
        ({
            let j = disruption_budget_json(base);
            &&& field(j, "apiVersion"@) == Some(Json::Text("policy/v1"@))
            &&& field(j, "kind"@) == Some(Json::Text("PodDisruptionBudget"@))
            &&& field(j, "metadata"@) == Some(meta_json(object_view(base, "restate"@)))
            &&& at2(j, "spec"@, "maxUnavailable"@) == Some(Json::Int(1))
            &&& at2(j, "spec"@, "selector"@) == Some(cluster_selector(base.name->0))
        }),
{
    reveal_strlit("apiVersion");
    reveal_strlit("kind");
    reveal_strlit("metadata");
    reveal_strlit("spec");
    reveal_strlit("maxUnavailable");
    reveal_strlit("selector");
    assert("apiVersion"@.len() == 10);
    assert("kind"@.len() == 4);
    assert("metadata"@.len() == 8);
    assert("spec"@.len() == 4);
    assert("maxUnavailable"@.len() == 14);
    assert("selector"@.len() == 8);
    assert("kind"@[0] == 'k');
    assert("spec"@[0] == 's');
    assert("metadata"@[0] == 'm');
    assert("selector"@[0] == 's');
}

/// A claim is brought to the size and the class that are asked for.
pub proof fn what_a_claim_is_brought_to(name: Seq<char>, storage: RestateClusterStorage)
    ensures
        ({
            let j = pvc_patch_json(name, storage);
            &&& field(j, "apiVersion"@) == Some(Json::Text("v1"@))
            &&& field(j, "kind"@) == Some(Json::Text("PersistentVolumeClaim"@))
            &&& at2(j, "metadata"@, "name"@) == Some(Json::Text(name))
            &&& at4(j, "spec"@, "resources"@, "requests"@, "storage"@) == Some(
                Json::Text(int_text(storage.storage_request_bytes as int)),
            )
            &&& at2(j, "spec"@, "volumeAttributesClassName"@) == text_or_none(
                opt_text(storage.volume_attributes_class_name),
            )
        }),
{
    reveal_strlit("apiVersion");
    reveal_strlit("kind");
    reveal_strlit("metadata");
    reveal_strlit("spec");
    reveal_strlit("resources");
    reveal_strlit("requests");
    reveal_strlit("storage");
    reveal_strlit("volumeAttributesClassName");
    reveal_strlit("name");
    assert("apiVersion"@.len() == 10);
    assert("kind"@.len() == 4);
    assert("metadata"@.len() == 8);
    assert("spec"@.len() == 4);
    assert("resources"@.len() == 9);
    assert("requests"@.len() == 8);
    assert("storage"@.len() == 7);
    assert("volumeAttributesClassName"@.len() == 25);
    assert("name"@.len() == 4);
    assert("kind"@[0] == 'k');
    assert("spec"@[0] == 's');
    assert("name"@[0] == 'n');
    assert("metadata"@[0] == 'm');
    assert("requests"@[0] == 'r');
    let m = MetaView {
        name: Some(name),
        namespace: None,
        uid: None,
        labels: None,
        annotations: None,
        owner_references: None,
    };
    what_metadata_says(m);
}

/// The IAMPolicyMember lets the service account of the namespace act as the account of GCP.
pub proof fn what_the_policy_member_says(
    ns: Seq<char>,
    base: MetaView,
    project: Seq<char>,
    email: Seq<char>,
    key: Seq<char>,
)
    requires
        base.annotations is Some,
    ensures
        ({
            let j = iam_policy_member_json(ns, base, project, email);
            &&& field(j, "apiVersion"@) == Some(Json::Text("iam.cnrm.cloud.google.com/v1beta1"@))
            &&& field(j, "kind"@) == Some(Json::Text("IAMPolicyMember"@))
            &&& at2(j, "metadata"@, "name"@) == Some(Json::Text("restate-workload-identity"@))
            &&& at3(j, "metadata"@, "annotations"@, "cnrm.cloud.google.com/project-id"@) == Some(
                Json::Text(project),
            )
            &&& key != "cnrm.cloud.google.com/project-id"@ ==> at3(
                j,
                "metadata"@,
                "annotations"@,
                key,
            ) == (if base.annotations->0.contains_key(key) {
                Some(Json::Text(base.annotations->0[key]))
            } else {
                None
            })
            &&& at2(j, "spec"@, "member"@) == Some(
                Json::Text("serviceAccount:"@ + project + ".svc.id.goog["@ + ns + "/restate]"@),
            )
            &&& at3(j, "spec"@, "resourceRef"@, "external"@) == Some(
                Json::Text("projects/"@ + project + "/serviceAccounts/"@ + email),
            )
            &&& at3(j, "spec"@, "resourceRef"@, "kind"@) == Some(Json::Text("IAMServiceAccount"@))
            &&& at2(j, "spec"@, "role"@) == Some(Json::Text("roles/iam.workloadIdentityUser"@))
        }),
{
    reveal_strlit("member");
    reveal_strlit("resourceRef");
    reveal_strlit("external");
    reveal_strlit("role");
    assert("member"@.len() == 6);
    assert("resourceRef"@.len() == 11);
    assert("external"@.len() == 8);
    assert("role"@.len() == 4);
    let m = MetaView {
        annotations: Some(
            base.annotations->0.insert("cnrm.cloud.google.com/project-id"@, project),
        ),
        ..object_view(base, "restate-workload-identity"@)
    };
    let j = iam_policy_member_json(ns, base, project, email);
    reveal_strlit("apiVersion");
    reveal_strlit("kind");
    reveal_strlit("metadata");
    reveal_strlit("spec");
    assert("apiVersion"@.len() == 10);
    assert("kind"@.len() == 4);
    assert("metadata"@.len() == 8);
    assert("spec"@.len() == 4);
    assert("kind"@[0] == 'k');
    assert("spec"@[0] == 's');
    what_metadata_says(m);
    assert(field(j, "metadata"@) == Some(meta_json(m)));
    assert(at3(j, "metadata"@, "annotations"@, key) == inner(
        field(meta_json(m), "annotations"@),
        key,
    ));
    assert(at3(j, "metadata"@, "annotations"@, "cnrm.cloud.google.com/project-id"@) == inner(
        field(meta_json(m), "annotations"@),
        "cnrm.cloud.google.com/project-id"@,
    ));
}

/// The project of a service account stands between the sign and the common end of its address.
pub proof fn where_a_project_stands(user: Seq<char>, project: Seq<char>)
    requires
        !user.contains('@'),
        !project.contains('@'),
    ensures
        gcp_project(user + "@"@ + project + ".iam.gserviceaccount.com"@) == Some(project),
        gcp_project(user) is None,
{
    reveal_strlit("@");
    reveal_strlit(".iam.gserviceaccount.com");
    assert("@"@.len() == 1);
    assert(".iam.gserviceaccount.com"@.len() == 24);
    let domain = project + ".iam.gserviceaccount.com"@;
    assert("@"@ =~= seq!['@']);
    assert(user + "@"@ + project + ".iam.gserviceaccount.com"@ =~= user + (seq!['@'] + domain));
    lemma_no_sign();
    assert forall|i: int| 0 <= i < domain.len() implies domain[i] != '@' by {
        if i < project.len() {
            assert(domain[i] == project[i]);
            assert(project.contains(project[i]));
        } else {
            assert(domain[i] == ".iam.gserviceaccount.com"@[i - project.len()]);
        }
    }
    lemma_up_to_the_end(domain);
    lemma_after_the_sign(user, domain);
    lemma_no_domain(user);
    assert(domain.len() == project.len() + ".iam.gserviceaccount.com"@.len());
    assert(domain.subrange(project.len() as int, domain.len() as int)
        =~= ".iam.gserviceaccount.com"@);
    assert(domain.take(project.len() as int) =~= project);
    assert(domain.subrange(0, project.len() as int) =~= project);
    assert(domain.skip(project.len() as int) =~= ".iam.gserviceaccount.com"@);
}

proof fn lemma_no_sign()
    ensures
        forall|i: int|
            0 <= i < ".iam.gserviceaccount.com"@.len() ==> #[trigger] ".iam.gserviceaccount.com"@[i]
                != '@',
{
    reveal_strlit(".iam.gserviceaccount.com");
}

proof fn lemma_up_to_the_end(s: Seq<char>)
    requires
        forall|i: int| 0 <= i < s.len() ==> #[trigger] s[i] != '@',
    ensures
        up_to_at(s) == s,
    decreases s.len(),
{
    if s.len() > 0 {
        lemma_up_to_the_end(s.skip(1));
        assert(seq![s[0]] + s.skip(1) =~= s);
    }
}

proof fn lemma_after_the_sign(user: Seq<char>, domain: Seq<char>)
    requires
        !user.contains('@'),
        forall|i: int| 0 <= i < domain.len() ==> #[trigger] domain[i] != '@',
    ensures
        after_at(user + (seq!['@'] + domain)) == Some(domain),
    decreases user.len(),
{
    let all = user + (seq!['@'] + domain);
    if user.len() == 0 {
        assert(all[0] == '@');
        assert(all.skip(1) =~= domain);
        lemma_up_to_the_end(domain);
    } else {
        assert(user.contains(user[0]));
        assert(all[0] == user[0]);
        let rest = user.skip(1);
        assert(!rest.contains('@')) by {
            if rest.contains('@') {
                let i = choose|i: int| 0 <= i < rest.len() && rest[i] == '@';
                assert(user[i + 1] == '@');
            }
        }
        lemma_after_the_sign(rest, domain);
        assert(all.skip(1) =~= rest + (seq!['@'] + domain));
    }
}

proof fn lemma_no_domain(user: Seq<char>)
    requires
        !user.contains('@'),
    ensures
        after_at(user) is None,
    decreases user.len(),
{
    if user.len() > 0 {
        assert(user.contains(user[0]));
        let rest = user.skip(1);
        assert(!rest.contains('@')) by {
            if rest.contains('@') {
                let i = choose|i: int| 0 <= i < rest.len() && rest[i] == '@';
                assert(user[i + 1] == '@');
            }
        }
        lemma_no_domain(rest);
    }
}

/// What the user asks of the accounts of the nodes is taken over, and nothing is where nothing is
/// asked.
pub proof fn what_is_asked_of_the_accounts(spec: RestateClusterSpec)
    ensures
        spec.security is None ==> role_arn(spec) is None && security_groups(spec).len() == 0
            && account_annotations(spec) is None && service_annotations(spec) is None
                && gcp_account(
            spec,
        ) is None,
        spec.security matches Some(s) ==> {
            &&& role_arn(spec) == opt_text(s.aws_pod_identity_association_role_arn)
            &&& s.aws_pod_security_groups matches Some(g) ==> security_groups(spec) == texts(g@)
            &&& s.aws_pod_security_groups is None ==> security_groups(spec).len() == 0
            &&& account_annotations(spec) == opt_map(s.service_account_annotations)
            &&& service_annotations(spec) == opt_map(s.service_annotations)
            &&& s.service_account_annotations is None ==> gcp_account(spec) is None
            &&& s.service_account_annotations matches Some(a) ==> gcp_account(spec) == (
            if a@.contains_key("iam.gke.io/gcp-service-account"@) {
                Some(a@["iam.gke.io/gcp-service-account"@])
            } else {
                None
            })
        },
        config_text(spec) == (match spec.config {
            Some(c) => c@,
            None => ""@,
        }),
{
}

/// The role is applied and tried out where there is one and the operator serves it, is taken away
/// where there is none, and is warned of where the operator cannot serve it.
pub proof fn how_roles_are_brought_about(
    settings: OperatorSettings,
    ns: Seq<char>,
    base: MetaView,
    spec: RestateClusterSpec,
)
    ensures
        ({
            let s = pod_identity_steps(settings, ns, base, spec);
            let cluster = settings.aws_pod_identity_association_cluster;
            &&& cluster is Some && role_arn(spec) is Some ==> s.len() == 2 && s[0]
                == StepView::ApplyPodIdentityAssociation(
                pod_identity_json(ns, base, cluster->0@, role_arn(spec)->0),
            ) && s[1] == canary_step(
                CanaryKind::PodIdentity,
                base,
                spec,
                settings.canary_image@,
            )
            &&& cluster is Some && role_arn(spec) is None ==> s.len() == 2 && s[0]
                == (StepView::Delete { kind: OwnedKind::PodIdentityAssociation, name: "restate"@ })
                && s[1] == (StepView::Delete { kind: OwnedKind::Job, name: "restate-pia-canary"@ })
            &&& cluster is None && role_arn(spec) is Some
                ==> s.len() == 1 && s[0] == StepView::Warn(
                "Ignoring AWS pod identity association role ARN "@ + role_arn(spec)->0
                    + " as the operator is not configured with --aws-pod-identity-association-cluster"@,
            )
            &&& cluster is None && role_arn(spec) is None ==> s.len() == 0
        }),
{
}

/// The security groups are applied where there are any and the cluster serves them, are taken away
/// where there are none, and are warned of where the cluster cannot serve them.
pub proof fn how_groups_are_brought_about(
    settings: OperatorSettings,
    base: MetaView,
    spec: RestateClusterSpec,
)
    ensures
        ({
            let s = security_group_steps(settings, base, spec);
            let groups = security_groups(spec);
            let served = settings.security_group_policy_installed;
            &&& served ==> s.len() == 1
            &&& served && groups.len() > 0 ==> s[0] == StepView::Apply(
                security_group_json(base, groups),
            )
            &&& served && groups.len() == 0 ==> s[0] == (StepView::Delete {
                kind: OwnedKind::SecurityGroupPolicy,
                name: "restate"@,
            })
            &&& !served && groups.len() > 0 ==> s.len() == 1 && s[0] == StepView::Warn(
                "Ignoring AWS pod security groups "@ + join(groups, ","@)
                    + " as the SecurityGroupPolicy CRD is not installed"@,
            )
            &&& !served && groups.len() == 0 ==> s.len() == 0
        }),
{
}

/// The account of GCP is applied and tried out where there is one and the operator serves it, is
/// taken away where there is none, is refused where its project cannot be told, and is warned of
/// where the operator cannot serve it.
pub proof fn how_accounts_are_brought_about(
    settings: OperatorSettings,
    ns: Seq<char>,
    base: MetaView,
    spec: RestateClusterSpec,
)
    ensures
        ({
            let s = workload_identity_steps(settings, ns, base, spec);
            let email = gcp_account(spec);
            let served = settings.gcp_workload_identity;
            &&& served && email is Some && gcp_project(email->0) is Some ==> s.len() == 2 && s[0]
                == StepView::ApplyIamPolicyMember(
                iam_policy_member_json(ns, base, gcp_project(email->0)->0, email->0),
            ) && s[1] == canary_step(
                CanaryKind::WorkloadIdentity,
                base,
                spec,
                settings.canary_image@,
            )
            &&& served && email is Some && gcp_project(email->0) is None ==> s.len() == 1 && s[0]
                == StepView::Refuse(
                "Cannot parse GCP project from service account email '"@ + email->0
                    + "'; expected format: name@PROJECT.iam.gserviceaccount.com"@,
            )
            &&& served && email is None ==> s.len() == 2 && s[0] == (StepView::Delete {
                kind: OwnedKind::IamPolicyMember,
                name: "restate-workload-identity"@,
            }) && s[1] == (StepView::Delete { kind: OwnedKind::Job, name: "restate-wi-canary"@ })
            &&& !served && email is Some ==> s.len() == 1 && s[0] == StepView::Warn(
                "Ignoring iam.gke.io/gcp-service-account annotation "@ + email->0
                    + " as the operator is not configured with --gcp-workload-identity"@,
            )
            &&& !served && email is None ==> s.len() == 0
        }),
{
}

/// The pods are marked with what they depend on beyond their own document, so that they restart when
/// it changes.
pub proof fn what_restarts_the_nodes(
    settings: OperatorSettings,
    spec: RestateClusterSpec,
    key: Seq<char>,
)
    ensures
        ({
            let a = internal_annotations(settings, spec);
            let m = if a is Some {
                a->0
            } else {
                Map::empty()
            };
            let cluster = settings.aws_pod_identity_association_cluster;
            let role = cluster is Some && role_arn(spec) is Some;
            let groups = settings.security_group_policy_installed && security_groups(spec).len()
                > 0;
            let account = settings.gcp_workload_identity && gcp_account(spec) is Some;
            let certs = trusted_certs(spec).len() > 0;
            let cluster_key = "restate.dev/aws-pod-identity-association-cluster"@;
            let role_key = "restate.dev/aws-pod-identity-association-role-arn"@;
            let groups_key = "restate.dev/aws-security-groups"@;
            let account_key = "restate.dev/gcp-service-account"@;
            let certs_key = "restate.dev/trusted-ca-certs"@;
            &&& role <==> m.contains_key(cluster_key)
            &&& role <==> m.contains_key(role_key)
            &&& groups <==> m.contains_key(groups_key)
            &&& account <==> m.contains_key(account_key)
            &&& certs <==> m.contains_key(certs_key)
            &&& role ==> m[cluster_key] == cluster->0@ && m[role_key] == role_arn(spec)->0
            &&& groups ==> m[groups_key] == join(security_groups(spec), ","@)
            &&& account ==> m[account_key] == gcp_account(spec)->0
            &&& m.contains_key(key) ==> key == cluster_key || key == role_key || key == groups_key
                || key == account_key || key == certs_key
        }),
{
    reveal_strlit("restate.dev/aws-pod-identity-association-cluster");
    reveal_strlit("restate.dev/aws-pod-identity-association-role-arn");
    reveal_strlit("restate.dev/aws-security-groups");
    reveal_strlit("restate.dev/gcp-service-account");
    reveal_strlit("restate.dev/trusted-ca-certs");
    assert("restate.dev/aws-pod-identity-association-cluster"@.len() == 48);
    assert("restate.dev/aws-pod-identity-association-role-arn"@.len() == 49);
    assert("restate.dev/aws-security-groups"@.len() == 31);
    assert("restate.dev/gcp-service-account"@.len() == 31);
    assert("restate.dev/trusted-ca-certs"@.len() == 28);
    assert("restate.dev/aws-security-groups"@[12] == 'a');
    assert("restate.dev/gcp-service-account"@[12] == 'g');
}

/// A cluster is brought about in an order: the account and the configuration of the nodes, then what
/// gives them their rights, then how they are reached and disrupted, then their storage, and at last
/// the nodes themselves.
pub proof fn in_which_order_a_cluster_is_brought_about(
    settings: OperatorSettings,
    ns: Seq<char>,
    base: MetaView,
    spec: RestateClusterSpec,
    signing_key: Option<SigningKey>,
)
    ensures
        ({
            let s = compute_steps(settings, ns, base, spec, signing_key);
            let roles = pod_identity_steps(settings, ns, base, spec);
            let groups = security_group_steps(settings, base, spec);
            let accounts = workload_identity_steps(settings, ns, base, spec);
            let a = (2 + roles.len()) as int;
            let b = a + groups.len();
            let c = b + accounts.len();
            &&& s.len() == c + 5
            &&& s[0] == StepView::Apply(service_account_json(base, account_annotations(spec)))
            &&& s[1] matches StepView::Apply(cm) && field(cm, "metadata"@) == Some(
                meta_json(object_view(base, config_map_name(config_text(spec)))),
            ) && field(cm, "kind"@) == Some(Json::Text("ConfigMap"@)) && at2(
                cm,
                "data"@,
                "config.toml"@,
            ) == Some(Json::Text(config_text(spec)))
            &&& s.subrange(2, a) == roles
            &&& s.subrange(a, b) == groups
            &&& s.subrange(b, c) == accounts
            &&& s[c] == StepView::Apply(service_json(base, service_annotations(spec)))
            &&& s[c + 1] == StepView::Apply(cluster_service_json(base))
            &&& s[c + 2] == StepView::Apply(disruption_budget_json(base))
            &&& s[c + 3] is ReconcileStorage
            &&& s[c + 4] == StepView::ApplyStatefulSet(
                statefulset_json(
                    base,
                    spec,
                    internal_annotations(settings, spec),
                    signing_key,
                    config_map_name(config_text(spec)),
                    settings.canary_image@,
                ),
            )
        }),
{
    let config = config_text(spec);
    let data = Map::<Seq<char>, Seq<char>>::empty().insert("config.toml"@, config);
    what_a_config_map_says(object_view(base, config_map_name(config)), Some(data));
    let s = compute_steps(settings, ns, base, spec, signing_key);
    let roles = pod_identity_steps(settings, ns, base, spec);
    let groups = security_group_steps(settings, base, spec);
    let accounts = workload_identity_steps(settings, ns, base, spec);
    let a = (2 + roles.len()) as int;
    let b = a + groups.len();
    let c = b + accounts.len();
    assert(s.subrange(2, a) =~= roles);
    assert(s.subrange(a, b) =~= groups);
    assert(s.subrange(b, c) =~= accounts);
    let cm = config_map_json(object_view(base, config_map_name(config)), Some(data));
    assert(at2(cm, "data"@, "config.toml"@) == inner(field(cm, "data"@), "config.toml"@));
}

/// A cluster is brought about in its own namespace: that first, then who may talk to whom, then the
/// rest.
pub proof fn a_cluster_starts_with_its_namespace(
    settings: OperatorSettings,
    rc: RestateCluster,
    signing_key: Option<SigningKey>,
)
    ensures
        ({
            let s = cluster_steps(settings, rc, signing_key);
            let name = rc.metadata.any_name();
            let base = base_view(rc);
            let peers = match rc.spec.security {
                Some(sec) => sec.network_peers,
                None => None,
            };
            let rules = match rc.spec.security {
                Some(sec) => sec.network_egress_rules,
                None => None,
            };
            let refused = rc.spec.security is Some
                && rc.spec.security->0.allow_operator_access_to_admin == Some(false);
            let network = network_steps(
                settings,
                name,
                base,
                peers,
                !refused,
                rules,
                role_arn(rc.spec) is Some,
            );
            let rest = compute_steps(settings, name, base, rc.spec, signing_key);
            &&& s.len() == 1 + network.len() + rest.len()
            &&& s[0] == StepView::ApplyNamespace(namespace_json(base, name))
            &&& s.subrange(1, 1 + network.len() as int) == network
            &&& s.skip(1 + network.len() as int) == rest
        }),
{
    let s = cluster_steps(settings, rc, signing_key);
    let name = rc.metadata.any_name();
    let base = base_view(rc);
    let peers = match rc.spec.security {
        Some(sec) => sec.network_peers,
        None => None,
    };
    let rules = match rc.spec.security {
        Some(sec) => sec.network_egress_rules,
        None => None,
    };
    let refused = rc.spec.security is Some && rc.spec.security->0.allow_operator_access_to_admin
        == Some(false);
    let network = network_steps(
        settings,
        name,
        base,
        peers,
        !refused,
        rules,
        role_arn(rc.spec) is Some,
    );
    let rest = compute_steps(settings, name, base, rc.spec, signing_key);
    assert(s =~= seq![StepView::ApplyNamespace(namespace_json(base, name))] + network + rest);
    assert(s.subrange(1, 1 + network.len() as int) =~= network);
    assert(s.skip(1 + network.len() as int) =~= rest);
}

/// The job that tries out the credentials runs once with the account of the nodes, and is no node.
pub proof fn what_a_canary_says(
    base: MetaView,
    tolerations: Option<Json>,
    name: Seq<char>,
    image: Seq<char>,
    command: Seq<Seq<char>>,
)
    requires
        base.name is Some,
    ensures
        ({
            let j = canary_job_json(base, tolerations, name, image, command);
            let pod = at3(j, "spec"@, "template"@, "spec"@);
            let containers = items(inner(pod, "containers"@));
            &&& field(j, "apiVersion"@) == Some(Json::Text("batch/v1"@))
            &&& field(j, "kind"@) == Some(Json::Text("Job"@))
            &&& at2(j, "metadata"@, "name"@) == Some(Json::Text(name))
            &&& at3(j, "metadata"@, "labels"@, "app.kubernetes.io/name"@) == Some(Json::Text(name))
            &&& at3(j, "metadata"@, "labels"@, "app.kubernetes.io/instance"@) == Some(
                Json::Text(base.name->0),
            )
            &&& at2(j, "spec"@, "backoffLimit"@) == Some(Json::Int(1))
            &&& inner(pod, "restartPolicy"@) == Some(Json::Text("Never"@))
            &&& inner(pod, "serviceAccountName"@) == Some(Json::Text("restate"@))
            &&& inner(pod, "tolerations"@) == tolerations
            &&& containers.len() == 1
            &&& field(containers[0], "name"@) == Some(Json::Text("canary"@))
            &&& field(containers[0], "image"@) == Some(Json::Text(image))
            &&& field(containers[0], "command"@) is Some
            &&& lists_texts(field(containers[0], "command"@)->0, command)
        }),
{
    reveal_strlit("containers");
    reveal_strlit("restartPolicy");
    reveal_strlit("serviceAccountName");
    reveal_strlit("tolerations");
    reveal_strlit("name");
    reveal_strlit("image");
    reveal_strlit("command");
    reveal_strlit("backoffLimit");
    reveal_strlit("template");
    reveal_strlit("app.kubernetes.io/name");
    reveal_strlit("app.kubernetes.io/instance");
    assert("containers"@.len() == 10);
    assert("restartPolicy"@.len() == 13);
    assert("serviceAccountName"@.len() == 18);
    assert("tolerations"@.len() == 11);
    assert("name"@.len() == 4);
    assert("image"@.len() == 5);
    assert("command"@.len() == 7);
    assert("backoffLimit"@.len() == 12);
    assert("template"@.len() == 8);
    assert("app.kubernetes.io/name"@.len() == 22);
    assert("app.kubernetes.io/instance"@.len() == 26);
    let meta = object_view(base, name);
    let m = MetaView {
        labels: Some(meta.labels->0.insert("app.kubernetes.io/name"@, name)),
        ..meta
    };
    reveal_strlit("apiVersion");
    reveal_strlit("kind");
    reveal_strlit("metadata");
    reveal_strlit("spec");
    assert("apiVersion"@.len() == 10);
    assert("kind"@.len() == 4);
    assert("metadata"@.len() == 8);
    assert("spec"@.len() == 4);
    assert("kind"@[0] == 'k');
    assert("spec"@[0] == 's');
    let j = canary_job_json(base, tolerations, name, image, command);
    what_metadata_says(m);
    assert(field(j, "metadata"@) == Some(meta_json(m)));
    assert(at3(j, "metadata"@, "labels"@, "app.kubernetes.io/name"@) == inner(
        field(meta_json(m), "labels"@),
        "app.kubernetes.io/name"@,
    ));
    assert(at3(j, "metadata"@, "labels"@, "app.kubernetes.io/instance"@) == inner(
        field(meta_json(m), "labels"@),
        "app.kubernetes.io/instance"@,
    ));
}

/// Each of the two jobs has its own name, and asks for the credentials of its own cloud.
pub proof fn what_a_canary_tries(base: MetaView, spec: RestateClusterSpec, image: Seq<char>)
    ensures
        canary_name(CanaryKind::PodIdentity) == "restate-pia-canary"@,
        canary_name(CanaryKind::WorkloadIdentity) == "restate-wi-canary"@,
        canary_prefix(CanaryKind::PodIdentity) == "PodIdentityAssociation"@,
        canary_prefix(CanaryKind::WorkloadIdentity) == "WorkloadIdentity"@,
        canary_command(CanaryKind::PodIdentity).len() == 4,
        canary_command(CanaryKind::PodIdentity)[0] == "grep"@,
        canary_command(CanaryKind::PodIdentity)[1] == "-q"@,
        canary_command(CanaryKind::PodIdentity)[2] == "AWS_CONTAINER_AUTHORIZATION_TOKEN_FILE"@,
        canary_command(CanaryKind::PodIdentity)[3] == "/proc/self/environ"@,
        canary_command(CanaryKind::WorkloadIdentity).len() == 7,
        canary_command(CanaryKind::WorkloadIdentity)[0] == "wget"@,
        canary_command(CanaryKind::WorkloadIdentity)[1] == "--header"@,
        canary_command(CanaryKind::WorkloadIdentity)[2] == "Metadata-Flavor: Google"@,
        canary_command(CanaryKind::WorkloadIdentity)[3] == "-q"@,
        canary_command(CanaryKind::WorkloadIdentity)[4] == "-O"@,
        canary_command(CanaryKind::WorkloadIdentity)[5] == "/dev/null"@,
        canary_command(CanaryKind::WorkloadIdentity)[6]
            == "http://metadata.google.internal/computeMetadata/v1/instance/service-accounts/default/token"@,
        forall|kind: CanaryKind| #[trigger]
            canary_step(kind, base, spec, image) == (StepView::RunCanary {
                canary: kind,
                job: canary_job_json(
                    base,
                    opt_json(spec.compute.tolerations),
                    canary_name(kind),
                    image,
                    canary_command(kind),
                ),
            }),
        forall|volumes: Seq<Seq<char>>| #[trigger]
            has_identity_volume(volumes) <==> volumes.contains("eks-pod-identity-token"@),
{
}

/// The first condition of a job that is true and says that it is over decides how it ended.
pub proof fn how_a_canary_ended(conditions: Seq<ConditionView>, i: int)
    requires
        0 <= i < conditions.len(),
        conditions[i].status == "True"@,
        conditions[i].type_ == "Complete"@ || conditions[i].type_ == "Failed"@,
        forall|j: int|
            0 <= j < i ==> (#[trigger] conditions[j]).status != "True"@ || (conditions[j].type_
                != "Complete"@ && conditions[j].type_ != "Failed"@),
    ensures
        canary_state(conditions) is Complete <==> conditions[i].type_ == "Complete"@,
        canary_state(conditions) is Failed <==> conditions[i].type_ == "Failed"@,
    decreases conditions.len(),
{
    reveal_strlit("Complete");
    reveal_strlit("Failed");
    assert("Complete"@.len() == 8);
    assert("Failed"@.len() == 6);
    if i > 0 {
        assert(conditions[0].status != "True"@ || (conditions[0].type_ != "Complete"@
            && conditions[0].type_ != "Failed"@));
        let rest = conditions.skip(1);
        assert(rest[i - 1] == conditions[i]);
        assert forall|j: int| 0 <= j < i - 1 implies (#[trigger] rest[j]).status != "True"@ || (
        rest[j].type_ != "Complete"@ && rest[j].type_ != "Failed"@) by {
            assert(rest[j] == conditions[j + 1]);
        }
        how_a_canary_ended(rest, i - 1);
    }
}

/// A job is pending while none of its conditions says that it is over.
pub proof fn when_a_canary_is_pending(conditions: Seq<ConditionView>)
    requires
        forall|j: int|
            0 <= j < conditions.len() ==> (#[trigger] conditions[j]).status != "True"@ || (
            conditions[j].type_ != "Complete"@ && conditions[j].type_ != "Failed"@),
    ensures
        canary_state(conditions) is Pending,
    decreases conditions.len(),
{
    if conditions.len() > 0 {
        let rest = conditions.skip(1);
        assert(conditions[0].status != "True"@ || (conditions[0].type_ != "Complete"@
            && conditions[0].type_ != "Failed"@));
        assert forall|j: int| 0 <= j < rest.len() implies (#[trigger] rest[j]).status != "True"@
            || (rest[j].type_ != "Complete"@ && rest[j].type_ != "Failed"@) by {
            assert(rest[j] == conditions[j + 1]);
        }
        when_a_canary_is_pending(rest);
    }
}

/// The operator provisions a cluster only where it is asked to and has not done so yet.
pub proof fn which_clusters_are_provisioned(
    spec: RestateClusterSpec,
    status: Option<RestateClusterStatus>,
)
    ensures
        to_provision(spec, status) ==> spec.cluster is Some && spec.cluster->0.auto_provision,
        to_provision(spec, status) && status is Some ==> status->0.provisioned != Some(true),
        spec.cluster is Some && spec.cluster->0.auto_provision && (status is None
            || status->0.provisioned != Some(true)) ==> to_provision(spec, status),
{
}

/// The nodes must not provision themselves: either a variable says so, in any case, or the
/// configuration does, and the variable decides where it is set.
pub proof fn what_forbids_provisioning(config: Option<Seq<char>>, variable: Option<Seq<char>>)
    ensures
        variable matches Some(v) && same_ignoring_case(v, "false"@) ==> provisioning_complaint(
            config,
            variable,
        ) is None,
        variable is Some && !same_ignoring_case(variable->0, "false"@) ==> provisioning_complaint(
            config,
            variable,
        ) is Some,
        variable is None && config is None ==> provisioning_complaint(config, variable) is Some,
        variable is None && config is Some ==> provisioning_complaint(config, variable)
            == config_complaint(crate::restatecluster::provisioning::toml_flag(
                config->0,
                "auto-provision"@,
            )),
        config_complaint(Ok(Some(false))) is None,
        config_complaint(Ok(Some(true))) is Some,
        config_complaint(Ok(None)) is Some,
        forall|e: Seq<char>| #[trigger]
            config_complaint(Err(e)) == Some("Failed to parse config TOML: "@ + e),
{
}

/// The value of a variable is that of the first of its name.
pub proof fn which_variable_counts(env: Seq<EnvVar>, name: Seq<char>, i: int)
    requires
        0 <= i < env.len(),
        env[i].name@ == name,
        forall|j: int| 0 <= j < i ==> (#[trigger] env[j]).name@ != name,
    ensures
        direct_value(env, name) == opt_text(env[i].value),
    decreases env.len(),
{
    if i > 0 {
        assert(env[0].name@ != name);
        let rest = env.skip(1);
        assert(rest[i - 1] == env[i]);
        assert forall|j: int| 0 <= j < i - 1 implies (#[trigger] rest[j]).name@ != name by {
            assert(rest[j] == env[j + 1]);
        }
        which_variable_counts(rest, name, i - 1);
    }
}

/// A variable that is not set has no value.
pub proof fn unset_variables_have_no_value(env: Seq<EnvVar>, name: Seq<char>)
    requires
        forall|j: int| 0 <= j < env.len() ==> (#[trigger] env[j]).name@ != name,
    ensures
        direct_value(env, name) is None,
    decreases env.len(),
{
    if env.len() > 0 {
        assert(env[0].name@ != name);
        let rest = env.skip(1);
        assert forall|j: int| 0 <= j < rest.len() implies (#[trigger] rest[j]).name@ != name by {
            assert(rest[j] == env[j + 1]);
        }
        unset_variables_have_no_value(rest, name);
    }
}

/// Provisioning has come about where the node says so now or said so before, and has failed otherwise.
pub proof fn when_provisioning_has_come_about(answer: ProvisionAnswer)
    ensures
        provision_failure(answer) is None <==> answer is Provisioned || answer is AlreadyExists,
        answer matches ProvisionAnswer::InvalidEndpoint(e) ==> provision_failure(answer) == Some(
            "Invalid endpoint URL: "@ + e@,
        ),
        answer matches ProvisionAnswer::NotConnected { endpoint, error } ==> provision_failure(
            answer,
        ) == Some("Failed to connect to "@ + endpoint@ + ": "@ + error@),
        answer matches ProvisionAnswer::Refused { code, message } ==> provision_failure(answer)
            == Some("ProvisionCluster RPC failed: "@ + message@ + " ("@ + code@ + ")"@),
{
}

/// The claims of a cluster are those with both of its labels, in the order in which they are listed.
pub proof fn which_claims_are_resized(claims: Seq<ObjectMeta>, cluster: Seq<char>, i: int)
    requires
        0 <= i < claims.len(),
    ensures
        is_claim_of(claims[i], cluster) <==> claims[i].label("app.kubernetes.io/name"@) == Some(
            "restate"@,
        ) && claims[i].label("app.kubernetes.io/instance"@) == Some(cluster),
        is_claim_of(claims[i], cluster) ==> claim_names(claims, cluster).contains(
            claims[i].any_name(),
        ),
    decreases claims.len(),
{
    let all = claim_names(claims, cluster);
    let before = claim_names(claims.drop_last(), cluster);
    if i == claims.len() - 1 {
        assert(claims.last() == claims[i]);
        if is_claim_of(claims[i], cluster) {
            assert(all[all.len() - 1] == claims[i].any_name());
        }
    } else {
        assert(claims.drop_last()[i] == claims[i]);
        which_claims_are_resized(claims.drop_last(), cluster, i);
        if is_claim_of(claims[i], cluster) {
            let k = choose|k: int| 0 <= k < before.len() && before[k] == claims[i].any_name();
            assert(all[k] == before[k]);
        }
    }
}

/// Only claims of the cluster are resized.
pub proof fn other_claims_are_left_alone(claims: Seq<ObjectMeta>, cluster: Seq<char>, k: int)
    requires
        0 <= k < claim_names(claims, cluster).len(),
    ensures
        exists|i: int|
            0 <= i < claims.len() && is_claim_of(#[trigger] claims[i], cluster)
                && claims[i].any_name() == claim_names(claims, cluster)[k],
    decreases claims.len(),
{
    let before = claim_names(claims.drop_last(), cluster);
    if k < before.len() {
        other_claims_are_left_alone(claims.drop_last(), cluster, k);
        let i = choose|i: int|
            0 <= i < claims.drop_last().len() && is_claim_of(
                #[trigger] claims.drop_last()[i],
                cluster,
            ) && claims.drop_last()[i].any_name() == before[k];
        assert(claims[i] == claims.drop_last()[i]);
    } else {
        assert(claims[claims.len() - 1] == claims.last());
    }
}

/// A StatefulSet is ready where it has just the replicas that are expected, all of them ready.
pub proof fn when_a_statefulset_is_ready(status: Option<StatefulSetStatus>, expected: int)
    ensures
        ({
            let ready = match status {
                Some(s) => match s.ready_replicas {
                    Some(n) => n as int,
                    None => 0,
                },
                None => 0,
            };
            let c = stateful_set_complaint(status, expected);
            &&& c is None <==> status is Some && status->0.replicas == expected && ready == expected
            &&& status is None ==> c == Some(
                (
                    "StatefulSet has no status set; it may have just been created"@,
                    "StatefulSetNoStatus"@,
                ),
            )
            &&& status is Some && status->0.replicas != expected ==> c == Some(
                (
                    "StatefulSetScaling"@,
                    "StatefulSet has "@ + int_text(status->0.replicas as int)
                        + " replicas instead of the expected "@ + int_text(expected)
                        + "; it may be scaling up or down"@,
                ),
            )
            &&& status is Some && status->0.replicas == expected && ready != expected ==> c == Some(
                (
                    "StatefulSetPodNotReady"@,
                    "StatefulSet has "@ + int_text(ready)
                        + " ready replicas instead of the expected "@ + int_text(expected)
                        + "; a pod may not be ready"@,
                ),
            )
        }),
{
}

/// What a cluster that was looked at says of itself, and when it is looked at again: after five
/// minutes where it is ready, after a minute or as asked where it is not yet, and at once where it has
/// just been provisioned.
pub proof fn what_a_cluster_says_of_itself(outcome: Result<(), Error>)
    ensures
        outcome is Ok ==> cluster_verdict(outcome).status == "True"@ && cluster_verdict(
            outcome,
        ).reason == "Provisioned"@ && cluster_verdict(outcome).action == Some(300_000_000_000int),
        outcome matches Err(Error::NotReady { message, reason, requeue_after }) ==> {
            &&& cluster_verdict(outcome).status == "False"@
            &&& cluster_verdict(outcome).message == message@
            &&& cluster_verdict(outcome).reason == reason@
            &&& requeue_after is None ==> cluster_verdict(outcome).action == Some(
                60_000_000_000int,
            )
            &&& requeue_after matches Some(d) ==> cluster_verdict(outcome).action == Some(d@)
        },
        outcome == Err::<(), Error>(Error::Provisioned) ==> cluster_verdict(outcome).status
            == "False"@ && cluster_verdict(outcome).action == Some(0int) && cluster_verdict(
            outcome,
        ).reason == "Provisioned"@,
        outcome matches Err(e) ==> !(e is NotReady) && !(e is Provisioned) ==> {
            &&& cluster_verdict(outcome).status == "Unknown"@
            &&& cluster_verdict(outcome).reason == "FailedReconcile"@
            &&& cluster_verdict(outcome).message == error_text(e)
            &&& cluster_verdict(outcome).action is None
        },
{
}

/// A cluster that was provisioned stays so.
pub proof fn what_is_remembered_of_provisioning(
    status: Option<RestateClusterStatus>,
    outcome: Result<(), Error>,
)
    ensures
        outcome == Err::<(), Error>(Error::Provisioned) ==> provisioned_after(status, outcome)
            == Some(true),
        outcome != Err::<(), Error>(Error::Provisioned) && status is None ==> provisioned_after(
            status,
            outcome,
        ) is None,
        outcome != Err::<(), Error>(Error::Provisioned) && status is Some ==> provisioned_after(
            status,
            outcome,
        ) == status->0.provisioned,
{
}

/// How a reconcile of a cluster goes on once everything is applied: it is provisioned where that is
/// due, and is otherwise ready just when its nodes are.
pub proof fn what_comes_after_the_steps(
    rc: RestateCluster,
    cluster_dns: Seq<char>,
    from: ClusterStage,
    event: ClusterEvent,
    to: ClusterStage,
    command: ClusterCommand,
)
    requires
        cluster_answers(from, event),
        cluster_goes_on(rc, cluster_dns, from, event, to, command),
    ensures
        ({
            let due = rc.spec.cluster is Some && rc.spec.cluster->0.auto_provision && (rc.status
                is None || rc.status->0.provisioned != Some(true));
            let expected = if rc.spec.compute.replicas is Some {
                rc.spec.compute.replicas->0 as int
            } else {
                1
            };
            &&& event matches ClusterEvent::Failed(e) ==> command == ClusterCommand::Finish(Err(e))
            &&& event is Applied && due ==> (command is LookAtNode <==> due_complaint(rc.spec)
                is None)
            &&& event is Applied && !due ==> command is Finish
            &&& command == ClusterCommand::Finish(Ok(())) ==> !due && event is Applied
            &&& event matches ClusterEvent::Applied { set } ==> !due ==> (command
                == ClusterCommand::Finish(Ok(())) <==> stateful_set_complaint(set,
                    expected) is None)
            &&& event matches ClusterEvent::Node { phase } ==> (command is Provision <==> opt_text(
                phase,
            ) == Some("Running"@))
            &&& event is Node && !(command is Provision)
                ==> (command matches ClusterCommand::Finish(
                Err(Error::NotReady { message, reason, requeue_after }),
            ) && message@ == "Waiting for restate-0 pod to be Running before provisioning"@
                && reason@
                == "ProvisioningPodNotRunning"@ && requeue_after is Some && requeue_after->0@
                == 5_000_000_000)
            &&& command matches ClusterCommand::Provision { endpoint } ==> endpoint@
                == "http://restate-0.restate-cluster."@ + rc.metadata.any_name() + ".svc."@
                + cluster_dns + ":5122"@
            &&& event matches ClusterEvent::Answered(a) ==> (command == ClusterCommand::Finish(
                Err(Error::Provisioned),
            ) <==> a is Provisioned || a is AlreadyExists)
            &&& event matches ClusterEvent::Answered(a) ==> provision_failure(a) is Some ==> (
            command matches ClusterCommand::Finish(Err(Error::ProvisioningFailed(t))) && t@
                == provision_failure(a)->0)
            &&& event is Applied && due && due_complaint(rc.spec) is Some ==> (
            command matches ClusterCommand::Finish(Err(Error::InvalidRestateConfig(t))) && t@
                == due_complaint(rc.spec)->0)
            &&& event matches ClusterEvent::Applied { set } ==> !due && stateful_set_complaint(
                set,
                expected,
            ) is Some ==> (command matches ClusterCommand::Finish(
                Err(Error::NotReady { message, reason, requeue_after }),
            ) && stateful_set_complaint(set, expected) == Some((reason@, message@))
                && requeue_after is None)
        }),
{
}

/// A namespace of the cluster's name that something else owns is not taken over.
pub proof fn which_names_are_taken(rc: RestateCluster, existing: Option<ObjectMeta>)
    ensures
        existing is None ==> !name_taken(rc, existing),
        existing matches Some(meta) ==> (name_taken(rc, existing) <==> meta.owner_references is None
            || forall|i: int|
            0 <= i < meta.owner_references->0@.len() ==> (#[trigger] meta.owner_references->0@[i])@
                != cluster_owner(rc)),
{
    if let Some(meta) = existing {
        if let Some(o) = meta.owner_references {
            let views = crate::meta::owner_views(o@);
            if views.contains(cluster_owner(rc)) {
                let i = choose|i: int| 0 <= i < views.len() && views[i] == cluster_owner(rc);
                assert(o@[i]@ == cluster_owner(rc));
            } else {
                assert forall|i: int| 0 <= i < o@.len() implies (#[trigger] o@[i])@ != cluster_owner(
                    rc,
                ) by {
                    assert(views[i] == o@[i]@);
                }
            }
        }
    }
}

/// A StatefulSet has the storage that is asked for where it asks for as many bytes, of the same class.
pub proof fn when_storage_is_as_asked(existing: ExistingStorage, storage: RestateClusterStorage)
    ensures
        has_storage(existing, storage) <==> existing.request is Some
            && crate::restatecluster::quantity::bytes_of(existing.request->0@) == Some(
            storage.storage_request_bytes as int,
        ) && (match (
            existing.volume_attributes_class_name,
            storage.volume_attributes_class_name,
        ) {
            (Some(a), Some(b)) => a@ == b@,
            (None, None) => true,
            _ => false,
        }),
{
}

/// A version of a group is served where it is listed.
pub proof fn which_versions_are_served(group: ApiGroup, name: Seq<char>, version: Seq<char>, i: int)
    ensures
        group.name@ == name && 0 <= i < group.versions@.len() && group.versions@[i]@ == version
            ==> serves_version(group, name, version),
        serves_version(group, name, version) ==> group.name@ == name && exists|k: int|
            0 <= k < group.versions@.len() && (#[trigger] group.versions@[k])@ == version,
{
    let listed = texts(group.versions@);
    if 0 <= i < group.versions@.len() && group.versions@[i]@ == version {
        assert(listed[i] == version);
    }
    if serves_version(group, name, version) {
        let k = choose|k: int| 0 <= k < listed.len() && listed[k] == version;
        assert(group.versions@[k]@ == version);
    }
}

/// A job cannot be changed in place where the apiserver says so.
pub proof fn when_a_job_is_made_anew(f: KubeFailure)
    ensures
        immutable_field(f) <==> f.kind == KubeFailureKind::Api(422) && f.reason@ == "Invalid"@
            && occurs_in(f.message@, "field is immutable"@),
{
}

/// What a failed job says names what may be missing.
pub proof fn what_a_canary_complains_of()
    ensures
        canary_failed(CanaryKind::PodIdentity)
            == "Canary pod did not receive Pod Identity credentials; PIA webhook may need to catch up"@,
        canary_pending(CanaryKind::PodIdentity)
            == "Canary Job has not yet succeeded; PIA webhook may need to catch up"@,
        canary_failed(CanaryKind::WorkloadIdentity)
            == "Canary pod could not obtain a Workload Identity token from the GKE metadata server; check that Workload Identity is enabled and the IAM binding is correct"@,
        canary_pending(CanaryKind::WorkloadIdentity)
            == "Canary Job has not yet succeeded; Workload Identity may need to propagate"@,
{
}

/// The variable that forbids provisioning is the one of Restate.
pub proof fn what_is_looked_at_for_provisioning(spec: RestateClusterSpec)
    ensures
        due_complaint(spec) == provisioning_complaint(
            opt_text(spec.config),
            match spec.compute.env {
                Some(e) => direct_value(e@, "RESTATE_AUTO_PROVISION"@),
                None => None,
            },
        ),
{
}

/// What is not ready yet says why, and is looked at again at the usual time.
pub proof fn what_is_not_ready_says(e: Error, reason: Seq<char>, message: Seq<char>)
    requires
        is_not_ready(e, reason, message),
    ensures
        e is NotReady,
        e->NotReady_reason@ == reason,
        e->NotReady_message@ == message,
        e->NotReady_requeue_after is None,
{
}

/// A condition of a status holds where it is there and true.
pub proof fn when_a_condition_holds(status: Option<ConditionedStatus>, type_: Seq<char>)
    ensures
        status is None ==> !condition_holds(status, type_),
        status matches Some(s) ==> {
            let c = find_condition(opt_conditions(s.conditions), type_);
            condition_holds(status, type_) <==> c is Some && c->0.status == "True"@
        },
{
}

} // verus!
