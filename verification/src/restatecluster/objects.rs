//! The objects beside the StatefulSet of a cluster.

use vstd::prelude::*;
use vstd::string::*;

use crate::control::{condition_of_type, find_condition, opt_conditions, Condition};
use crate::digest::{digest_u32, hex, hex_text, little_endian, text_digest};
use crate::json::{jsons, no_fields, text_array, text_object, with_field, Json, Object, Value};
use crate::manifest::{annotate, manifest, manifest_json, with_annotations, ConfigMap};
use crate::meta::{
    entries, opt_map, opt_text_json, opt_text_value, MetaView, ObjectMeta,
};
use crate::restatecluster::labels::{
    cluster_selector, label_selector, mandatory, mandatory_labels, object_meta, object_view,
};
use crate::restatecluster::resource::RestateClusterStorage;
use crate::string_map::StringMap;
use crate::text::{
    cat, cat3, chars_of, i64_text, int_text, opt_text, str_eq, strip_suffix_str, texts,
    without_suffix,
};

verus! {

/// The ServiceAccount of a cluster.
pub open spec fn service_account_json(
    base: MetaView,
    annotations: Option<Map<Seq<char>, Seq<char>>>,
) -> Json {
    manifest_json(
        "v1"@,
        "ServiceAccount"@,
        with_annotations(object_view(base, "restate"@), annotations),
        None,
    )
}

/// The ServiceAccount of a cluster.
pub fn restate_service_account(base_metadata: &ObjectMeta, annotations: &Option<StringMap>) -> (r:
    Value)
    requires
        base_metadata.name is Some,
    ensures
        r@ == service_account_json(base_metadata@, opt_map(*annotations)),
{
    let metadata = annotate(object_meta(base_metadata, "restate"), annotations);
    manifest("v1", "ServiceAccount", &metadata, None)
}

/// The name of the ConfigMap that holds a configuration. It is made of the digest of the
/// configuration, so that a changed one makes the pods roll.
pub open spec fn config_map_name(config: Seq<char>) -> Seq<char> {
    "restate-config-"@ + hex(little_endian(text_digest(config).take(4)))
}

/// The ConfigMap that holds the configuration of a cluster.
pub fn restate_configmap(base_metadata: &ObjectMeta, config: Option<&str>) -> (r: ConfigMap)
    requires
        base_metadata.name is Some,
    ensures
        ({
            let text = match config {
                Some(c) => c@,
                None => ""@,
            };
            &&& r.metadata@ == object_view(base_metadata@, config_map_name(text))
            &&& r.metadata.name is Some
            &&& opt_map(r.data) == Some(
                Map::<Seq<char>, Seq<char>>::empty().insert("config.toml"@, text),
            )
        }),
{
    let text: &str = match config {
        Some(c) => c,
        None => "",
    };
    let name = cat("restate-config-", hex_text(digest_u32(text)).as_str());
    let mut data = StringMap::new();
    data.insert("config.toml".to_owned(), text.to_owned());
    ConfigMap { metadata: object_meta(base_metadata, name.as_str()), data: Some(data) }
}

/// The PodIdentityAssociation that gives the pods of a cluster an AWS role.
pub open spec fn pod_identity_json(
    ns: Seq<char>,
    base: MetaView,
    cluster: Seq<char>,
    role_arn: Seq<char>,
) -> Json {
    manifest_json(
        "eks.services.k8s.aws/v1alpha1"@,
        "PodIdentityAssociation"@,
        object_view(base, "restate"@),
        Some(
            Json::Object(
                no_fields().insert("clusterName"@, Json::Text(cluster)).insert(
                    "namespace"@,
                    Json::Text(ns),
                ).insert("roleARN"@, Json::Text(role_arn)).insert(
                    "serviceAccount"@,
                    Json::Text("restate"@),
                ),
            ),
        ),
    )
}

/// The PodIdentityAssociation that gives the pods of a cluster an AWS role.
pub fn restate_pod_identity_association(
    ns: &str,
    base_metadata: &ObjectMeta,
    pod_identity_association_cluster: &str,
    pod_identity_association_role_arn: &str,
) -> (r: Value)
    requires
        base_metadata.name is Some,
    ensures
        r@ == pod_identity_json(
            ns@,
            base_metadata@,
            pod_identity_association_cluster@,
            pod_identity_association_role_arn@,
        ),
{
    let mut spec = Object::new();
    spec.put_text("clusterName", pod_identity_association_cluster);
    spec.put_text("namespace", ns);
    spec.put_text("roleARN", pod_identity_association_role_arn);
    spec.put_text("serviceAccount", "restate");
    manifest(
        "eks.services.k8s.aws/v1alpha1",
        "PodIdentityAssociation",
        &object_meta(base_metadata, "restate"),
        Some(Value::Object(spec)),
    )
}

/// The SecurityGroupPolicy that puts the pods of a cluster into AWS security groups.
pub open spec fn security_group_json(base: MetaView, groups: Seq<Seq<char>>) -> Json {
    manifest_json(
        "vpcresources.k8s.aws/v1beta1"@,
        "SecurityGroupPolicy"@,
        object_view(base, "restate"@),
        Some(
            Json::Object(
                no_fields().insert("podSelector"@, cluster_selector(base.name->0)).insert(
                    "securityGroups"@,
                    Json::Object(no_fields().insert("groupIds"@, text_array(groups))),
                ),
            ),
        ),
    )
}

/// The SecurityGroupPolicy that puts the pods of a cluster into AWS security groups.
pub fn restate_security_group_policy(
    base_metadata: &ObjectMeta,
    aws_security_groups: &Vec<String>,
) -> (r: Value)
    requires
        base_metadata.name is Some,
    ensures
        r@ == security_group_json(base_metadata@, texts(aws_security_groups@)),
{
    let mut groups = Object::new();
    groups.put("groupIds", Value::texts(aws_security_groups));
    let mut spec = Object::new();
    spec.put("podSelector", label_selector(base_metadata).value());
    spec.put("securityGroups", Value::Object(groups));
    manifest(
        "vpcresources.k8s.aws/v1beta1",
        "SecurityGroupPolicy",
        &object_meta(base_metadata, "restate"),
        Some(Value::Object(spec)),
    )
}

/// A port of a Service, which speaks HTTP/2 in clear text.
pub open spec fn h2c_port_json(name: Seq<char>, port: int) -> Json {
    Json::Object(
        no_fields().insert("appProtocol"@, Json::Text("kubernetes.io/h2c"@)).insert(
            "name"@,
            Json::Text(name),
        ).insert("port"@, Json::Int(port)),
    )
}

fn h2c_port(name: &str, port: i32) -> (r: Value)
    ensures
        r@ == h2c_port_json(name@, port as int),
{
    let mut o = Object::new();
    o.put_text("appProtocol", "kubernetes.io/h2c");
    o.put_text("name", name);
    o.put("port", Value::Int(port as i64));
    Value::Object(o)
}

/// The Service of a cluster.
pub open spec fn service_json(base: MetaView, annotations: Option<Map<Seq<char>, Seq<char>>>) -> Json {
    manifest_json(
        "v1"@,
        "Service"@,
        with_annotations(object_view(base, "restate"@), annotations),
        Some(
            Json::Object(
                no_fields().insert(
                    "ports"@,
                    Json::Array(
                        seq![
                            h2c_port_json("ingress"@, 8080),
                            h2c_port_json("admin"@, 9070),
                            h2c_port_json("metrics"@, 5122),
                        ],
                    ),
                ).insert("selector"@, text_object(mandatory(base.name->0))),
            ),
        ),
    )
}

/// The Service of a cluster.
pub fn restate_service(base_metadata: &ObjectMeta, annotations: &Option<StringMap>) -> (r: Value)
    requires
        base_metadata.name is Some,
    ensures
        r@ == service_json(base_metadata@, opt_map(*annotations)),
{
    let mut ports: Vec<Value> = Vec::new();
    ports.push(h2c_port("ingress", 8080));
    ports.push(h2c_port("admin", 9070));
    ports.push(h2c_port("metrics", 5122));
    proof {
        assert(jsons(ports@) =~= seq![
            h2c_port_json("ingress"@, 8080),
            h2c_port_json("admin"@, 9070),
            h2c_port_json("metrics"@, 5122),
        ]);
    }
    let mut spec = Object::new();
    spec.put("ports", Value::array(ports));
    spec.put("selector", Value::labels(&mandatory_labels(base_metadata)));
    let metadata = annotate(object_meta(base_metadata, "restate"), annotations);
    manifest("v1", "Service", &metadata, Some(Value::Object(spec)))
}

/// The headless Service by which the nodes of a cluster find each other. It publishes them before
/// they are ready, since they have to talk to each other to become so.
pub open spec fn cluster_service_json(base: MetaView) -> Json {
    manifest_json(
        "v1"@,
        "Service"@,
        object_view(base, "restate-cluster"@),
        Some(
            Json::Object(
                no_fields().insert("clusterIP"@, Json::Text("None"@)).insert(
                    "ports"@,
                    Json::Array(seq![h2c_port_json("node"@, 5122)]),
                ).insert("publishNotReadyAddresses"@, Json::Bool(true)).insert(
                    "selector"@,
                    text_object(mandatory(base.name->0)),
                ),
            ),
        ),
    )
}

/// The headless Service by which the nodes of a cluster find each other.
pub fn restate_cluster_service(base_metadata: &ObjectMeta) -> (r: Value)
    requires
        base_metadata.name is Some,
    ensures
        r@ == cluster_service_json(base_metadata@),
{
    let mut spec = Object::new();
    spec.put_text("clusterIP", "None");
    spec.put("ports", Value::singleton(h2c_port("node", 5122)));
    spec.put("publishNotReadyAddresses", Value::Bool(true));
    spec.put("selector", Value::labels(&mandatory_labels(base_metadata)));
    manifest(
        "v1",
        "Service",
        &object_meta(base_metadata, "restate-cluster"),
        Some(Value::Object(spec)),
    )
}

/// The PodDisruptionBudget of a cluster: one node at a time, whatever the size.
pub open spec fn disruption_budget_json(base: MetaView) -> Json {
    manifest_json(
        "policy/v1"@,
        "PodDisruptionBudget"@,
        object_view(base, "restate"@),
        Some(
            Json::Object(
                no_fields().insert("maxUnavailable"@, Json::Int(1)).insert(
                    "selector"@,
                    cluster_selector(base.name->0),
                ),
            ),
        ),
    )
}

/// The PodDisruptionBudget of a cluster.
pub fn restate_pod_disruption_budget(base_metadata: &ObjectMeta) -> (r: Value)
    requires
        base_metadata.name is Some,
    ensures
        r@ == disruption_budget_json(base_metadata@),
{
    let mut spec = Object::new();
    spec.put("maxUnavailable", Value::Int(1));
    spec.put("selector", label_selector(base_metadata).value());
    manifest(
        "policy/v1",
        "PodDisruptionBudget",
        &object_meta(base_metadata, "restate"),
        Some(Value::Object(spec)),
    )
}

/// The storage that a claim requests.
pub open spec fn pvc_resources_json(storage_request_bytes: int) -> Json {
    Json::Object(
        no_fields().insert(
            "requests"@,
            Json::Object(
                no_fields().insert("storage"@, Json::Text(int_text(storage_request_bytes))),
            ),
        ),
    )
}

/// The storage that a claim requests.
pub fn restate_pvc_resources(storage: &RestateClusterStorage) -> (r: Value)
    ensures
        r@ == pvc_resources_json(storage.storage_request_bytes as int),
{
    let mut requests = Object::new();
    requests.put_text("storage", i64_text(storage.storage_request_bytes).as_str());
    let mut o = Object::new();
    o.put("requests", Value::Object(requests));
    Value::Object(o)
}

/// What is applied to an existing claim: its size, and its class where there is one to set. A class
/// that the driver has chosen is left alone.
pub open spec fn pvc_patch_json(name: Seq<char>, storage: RestateClusterStorage) -> Json {
    manifest_json(
        "v1"@,
        "PersistentVolumeClaim"@,
        MetaView {
            name: Some(name),
            namespace: None,
            uid: None,
            labels: None,
            annotations: None,
            owner_references: None,
        },
        Some(
            Json::Object(
                with_field(
                    no_fields().insert(
                        "resources"@,
                        pvc_resources_json(storage.storage_request_bytes as int),
                    ),
                    "volumeAttributesClassName"@,
                    opt_text_json(opt_text(storage.volume_attributes_class_name)),
                ),
            ),
        ),
    )
}

/// What is applied to an existing claim.
pub fn pvc_patch(name: &str, storage: &RestateClusterStorage) -> (r: Value)
    ensures
        r@ == pvc_patch_json(name@, *storage),
{
    let mut meta = ObjectMeta::empty();
    meta.name = Some(name.to_owned());
    let mut spec = Object::new();
    spec.put("resources", restate_pvc_resources(storage));
    spec.put_opt("volumeAttributesClassName", opt_text_value(&storage.volume_attributes_class_name));
    manifest("v1", "PersistentVolumeClaim", &meta, Some(Value::Object(spec)))
}

/// The text between the first two `@`, or after the only one.
pub open spec fn after_at(email: Seq<char>) -> Option<Seq<char>>
    decreases email.len(),
{
    if email.len() == 0 {
        None
    } else if email[0] == '@' {
        Some(up_to_at(email.skip(1)))
    } else {
        after_at(email.skip(1))
    }
}

/// The text up to the first `@`, or all of it.
pub open spec fn up_to_at(s: Seq<char>) -> Seq<char>
    decreases s.len(),
{
    if s.len() == 0 || s[0] == '@' {
        Seq::empty()
    } else {
        seq![s[0]] + up_to_at(s.skip(1))
    }
}

pub const SERVICE_ACCOUNT_SUFFIX: &'static str = ".iam.gserviceaccount.com";

/// The GCP project of a service account, from an address of the form
/// `name@PROJECT.iam.gserviceaccount.com`.
pub open spec fn gcp_project(email: Seq<char>) -> Option<Seq<char>> {
    match after_at(email) {
        Some(domain) => without_suffix(domain, SERVICE_ACCOUNT_SUFFIX@),
        None => None,
    }
}

fn domain_of(email: &str) -> (r: Option<String>)
    ensures
        opt_text(r) == after_at(email@),
{
    let chars: Vec<char> = chars_of(email);
    let mut i: usize = 0;
    proof {
        assert(chars@.skip(0) =~= chars@);
    }
    while i < chars.len()
        invariant
            i <= chars.len(),
            chars@ == email@,
            after_at(email@) == after_at(chars@.skip(i as int)),
        decreases chars.len() - i,
    {
        let ghost rest = chars@.skip(i as int);
        proof {
            assert(rest[0] == chars@[i as int]);
            assert(rest.skip(1) =~= chars@.skip(i as int + 1));
        }
        if chars[i] == '@' {
            let mut out: String = String::new();
            let mut j: usize = i + 1;
            let ghost tail = chars@.skip(i as int + 1);
            proof {
                assert(out@ + up_to_at(tail) =~= up_to_at(tail));
            }
            while j < chars.len() && chars[j] != '@'
                invariant
                    i < j <= chars.len(),
                    up_to_at(tail) == out@ + up_to_at(chars@.skip(j as int)),
                decreases chars.len() - j,
            {
                let ghost before = out@;
                let ghost left = chars@.skip(j as int);
                out.push(chars[j]);
                proof {
                    assert(left[0] == chars@[j as int]);
                    assert(left.skip(1) =~= chars@.skip(j as int + 1));
                    assert(before + (seq![left[0]] + up_to_at(left.skip(1))) =~= before.push(
                        left[0],
                    ) + up_to_at(left.skip(1)));
                }
                j = j + 1;
            }
            proof {
                let left = chars@.skip(j as int);
                if j < chars@.len() {
                    assert(left[0] == chars@[j as int]);
                }
                assert(up_to_at(left) =~= Seq::empty());
                assert(out@ + Seq::<char>::empty() =~= out@);
            }
            return Some(out);
        }
        i = i + 1;
    }
    None
}

/// The GCP project of a service account.
pub fn parse_gcp_project_from_sa_email(email: &str) -> (r: Option<String>)
    ensures
        opt_text(r) == gcp_project(email@),
{
    match domain_of(email) {
        None => None,
        Some(domain) => match strip_suffix_str(domain.as_str(), SERVICE_ACCOUNT_SUFFIX) {
            Some(p) => Some(p.to_owned()),
            None => None,
        },
    }
}

pub const PROJECT_ANNOTATION: &'static str = "cnrm.cloud.google.com/project-id";

/// The IAMPolicyMember that lets the ServiceAccount of a cluster act as a GCP service account.
pub open spec fn iam_policy_member_json(
    ns: Seq<char>,
    base: MetaView,
    project: Seq<char>,
    email: Seq<char>,
) -> Json {
    let meta = object_view(base, "restate-workload-identity"@);
    manifest_json(
        "iam.cnrm.cloud.google.com/v1beta1"@,
        "IAMPolicyMember"@,
        MetaView {
            annotations: Some(entries(meta.annotations).insert(PROJECT_ANNOTATION@, project)),
            ..meta
        },
        Some(
            Json::Object(
                no_fields().insert(
                    "member"@,
                    Json::Text(
                        "serviceAccount:"@ + project + ".svc.id.goog["@ + ns + "/restate]"@,
                    ),
                ).insert(
                    "resourceRef"@,
                    Json::Object(
                        no_fields().insert(
                            "external"@,
                            Json::Text("projects/"@ + project + "/serviceAccounts/"@ + email),
                        ).insert("kind"@, Json::Text("IAMServiceAccount"@)),
                    ),
                ).insert("role"@, Json::Text("roles/iam.workloadIdentityUser"@)),
            ),
        ),
    )
}

/// The IAMPolicyMember that lets the ServiceAccount of a cluster act as a GCP service account.
pub fn restate_iam_policy_member(
    ns: &str,
    base_metadata: &ObjectMeta,
    gcp_project: &str,
    gcp_service_account_email: &str,
) -> (r: Value)
    requires
        base_metadata.name is Some,
    ensures
        r@ == iam_policy_member_json(
            ns@,
            base_metadata@,
            gcp_project@,
            gcp_service_account_email@,
        ),
{
    let mut metadata = object_meta(base_metadata, "restate-workload-identity");
    let mut annotations: StringMap = match metadata.annotations {
        Some(a) => a,
        None => StringMap::new(),
    };
    annotations.insert(PROJECT_ANNOTATION.to_owned(), gcp_project.to_owned());
    metadata.annotations = Some(annotations);

    let mut member: String = cat3("serviceAccount:", gcp_project, ".svc.id.goog[");
    member.append(ns);
    member.append("/restate]");
    let mut external: String = cat3("projects/", gcp_project, "/serviceAccounts/");
    external.append(gcp_service_account_email);
    let mut reference = Object::new();
    reference.put_text("external", external.as_str());
    reference.put_text("kind", "IAMServiceAccount");
    let mut spec = Object::new();
    spec.put_text("member", member.as_str());
    spec.put("resourceRef", Value::Object(reference));
    spec.put_text("role", "roles/iam.workloadIdentityUser");
    manifest(
        "iam.cnrm.cloud.google.com/v1beta1",
        "IAMPolicyMember",
        &metadata,
        Some(Value::Object(spec)),
    )
}

/// The status of an object that is known by its conditions.
#[derive(Debug)]
pub struct ConditionedStatus {
    pub conditions: Option<Vec<Condition>>,
}

/// Whether the first condition of this type holds.
pub open spec fn condition_holds(status: Option<ConditionedStatus>, type_: Seq<char>) -> bool {
    status matches Some(s) && (find_condition(opt_conditions(s.conditions), type_) matches Some(c)
        && c.status == "True"@)
}

fn holds(status: &Option<ConditionedStatus>, type_: &str) -> (r: bool)
    ensures
        r == condition_holds(*status, type_@),
{
    match status {
        Some(s) => match condition_of_type(&s.conditions, type_) {
            Some(c) => str_eq(c.status.as_str(), "True"),
            None => false,
        },
        None => false,
    }
}

/// Whether a PodIdentityAssociation has been passed on to AWS.
pub fn is_pod_identity_association_synced(status: &Option<ConditionedStatus>) -> (r: bool)
    ensures
        r == condition_holds(*status, "ACK.ResourceSynced"@),
{
    holds(status, "ACK.ResourceSynced")
}

/// Whether an IAMPolicyMember has been passed on to GCP.
pub fn is_iam_policy_member_ready(status: &Option<ConditionedStatus>) -> (r: bool)
    ensures
        r == condition_holds(*status, "Ready"@),
{
    holds(status, "Ready")
}

} // verus!
