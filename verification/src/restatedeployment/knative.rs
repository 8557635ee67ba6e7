//! The Configuration and the Route of a version in Knative mode.

use vstd::prelude::*;
use vstd::string::*;

use crate::control::{parse_url, parsed_url};
use crate::error::Error;
use crate::json::{no_fields, text_object, Json, Object, Value};
use crate::meta::{
    entries, map_or_empty, meta_json, opt_map, MetaView, ObjectMeta, OwnerReference, OwnerView,
};
use crate::restatedeployment::cleanup::CleanupMode;
use crate::restatedeployment::hash::{generate_pod_template_hash, template_hash};
use crate::restatedeployment::replicaset::{
    add_allow_label, owner_of, owner_reference, template_annotations, template_labels,
    with_allow_label, APP_MANAGED_BY_LABEL, LAST_APPLIED_ANNOTATION, MANAGER_NAME,
    RESTATE_POD_TEMPLATE_ANNOTATION,
};
use crate::restatedeployment::resource::{KnativeSpec, RestateDeployment};
use crate::restatedeployment::retirement::CleanupPolicy;
use crate::restatedeployment::service::{ContainerPort, PortedContainer};
use crate::restatedeployment::versions::{
    RESTATE_DEPLOYMENT_ID_ANNOTATION, RESTATE_TAG_ANNOTATION,
};
use crate::string_map::StringMap;
use crate::text::{
    begins_with, cat, cat3, i64_text, int_text, integer, opt_str, opt_text, parse_i32,
    starts_with_str, str_eq,
};
use crate::time::{rfc3339, secs, Duration, Timestamp};

verus! {

pub const RESTATE_REGISTERED_AT_ANNOTATION: &'static str = "restate.dev/registered-at";

pub const RESTATE_DEPLOYMENT_ANNOTATION: &'static str = "restate.dev/deployment";

pub const KNATIVE_INITIAL_SCALE_ANNOTATION: &'static str = "autoscaling.knative.dev/initial-scale";

pub const MIN_SCALE_ANNOTATION: &'static str = "autoscaling.knative.dev/min-scale";

pub const MAX_SCALE_ANNOTATION: &'static str = "autoscaling.knative.dev/max-scale";

pub const TARGET_ANNOTATION: &'static str = "autoscaling.knative.dev/target";

/// An annotation that concerns Routes only.
pub const ROLLOUT_DURATION_ANNOTATION: &'static str = "serving.knative.dev/rollout-duration";

pub const VISIBILITY_LABEL: &'static str = "networking.knative.dev/visibility";

pub const KNATIVE_API_VERSION: &'static str = "serving.knative.dev/v1";

/// Seconds for which a drained Configuration is kept.
pub const KNATIVE_DRAIN_DELAY_SECONDS: i64 = 300;

/// A condition of a Knative object.
#[derive(Debug)]
pub struct KnativeCondition {
    pub type_: String,
    pub status: String,
    pub message: String,
    pub reason: String,
}

/// What the status of a Configuration says.
#[derive(Debug)]
pub struct ConfigurationStatus {
    pub observed_generation: Option<i64>,
    pub latest_created_revision_name: Option<String>,
}

/// A Configuration, as far as the operator reads it.
#[derive(Debug)]
pub struct Configuration {
    pub metadata: ObjectMeta,
    /// The annotations of its revision template.
    pub template_annotations: Option<StringMap>,
    pub status: Option<ConfigurationStatus>,
}

/// What the status of a Revision says.
#[derive(Debug)]
pub struct RevisionStatus {
    pub conditions: Option<Vec<KnativeCondition>>,
    pub desired_replicas: Option<i32>,
    pub actual_replicas: Option<i32>,
}

/// A Revision, as far as the operator reads it.
#[derive(Debug)]
pub struct Revision {
    pub metadata: ObjectMeta,
    pub status: Option<RevisionStatus>,
}

/// What the status of a Route says.
#[derive(Debug)]
pub struct RouteStatus {
    pub conditions: Option<Vec<KnativeCondition>>,
    /// The revision of each traffic target.
    pub traffic: Option<Vec<Option<String>>>,
    pub url: Option<String>,
}

/// A Route, as far as the operator reads it.
#[derive(Debug)]
pub struct Route {
    pub metadata: ObjectMeta,
    pub status: Option<RouteStatus>,
}

/// The tag that a user has chosen.
pub open spec fn chosen_tag(rsd: RestateDeployment) -> Option<Seq<char>> {
    match rsd.spec.knative {
        Some(k) => opt_text(k.tag),
        None => None,
    }
}

/// The tag of a version: the one that the user has chosen, under which updates happen in place, or
/// the hash of the template.
pub open spec fn tag_of(rsd: RestateDeployment, pod_template: Seq<char>) -> Seq<char> {
    match chosen_tag(rsd) {
        Some(t) => t,
        None => template_hash(rsd, pod_template, None),
    }
}

/// Determines the tag of the current version.
pub fn determine_tag(rsd: &RestateDeployment, pod_template: &str) -> (r: String)
    ensures
        r@ == tag_of(*rsd, pod_template@),
{
    match &rsd.spec.knative {
        Some(k) => match &k.tag {
            Some(t) => {
                return t.clone();
            },
            None => {},
        },
        None => {},
    }
    generate_pod_template_hash(rsd, pod_template, None)
}

/// Whether a container defines ports.
pub open spec fn defines_ports(c: PortedContainer) -> bool {
    c.ports matches Some(p) && p@.len() > 0
}

/// Whether the name of a port tells Knative its protocol.
pub open spec fn hints_protocol(p: ContainerPort) -> bool {
    p.name matches Some(n) && (begins_with(n@, "h2c"@) || begins_with(n@, "http1"@))
}

/// Whether a container has a port whose name tells Knative its protocol.
pub open spec fn has_hinted_port(c: PortedContainer) -> bool {
    c.ports matches Some(ports) && exists|i: int|
        0 <= i < ports@.len() && hints_protocol(#[trigger] ports@[i])
}

/// Whether one container alone defines ports.
pub open spec fn sole_ported(containers: Seq<PortedContainer>, i: int) -> bool {
    &&& 0 <= i < containers.len()
    &&& defines_ports(containers[i])
    &&& forall|j: int| 0 <= j < containers.len() && j != i ==> !defines_ports(#[trigger] containers[j])
}

/// Whether Knative can run these containers: exactly one defines ports, and one of its ports names
/// its protocol.
pub open spec fn knative_accepts(containers: Seq<PortedContainer>) -> bool {
    exists|i: int| #[trigger] sole_ported(containers, i) && has_hinted_port(containers[i])
}

pub const SEVERAL_PORTED_TEXT: &'static str = "Only one container is allowed to define ports when using Knative.";

pub const NONE_PORTED_TEXT: &'static str = "No container defines ports. Restate requires an explicit traffic port definition with a valid Knative protocol hint prefix ('h2c...' or 'http1...').";

pub const UNHINTED_TAIL: &'static str = "' defines ports but none have a valid Knative protocol hint prefix ('h2c...' or 'http1...'). Restate requires an explicit traffic port definition.";

/// What is wrong with the containers.
pub open spec fn containers_complaint(containers: Seq<PortedContainer>, text: Seq<char>) -> bool {
    if forall|i: int| 0 <= i < containers.len() ==> !defines_ports(#[trigger] containers[i]) {
        text == NONE_PORTED_TEXT@
    } else if exists|i: int| #[trigger] sole_ported(containers, i) {
        exists|i: int| #[trigger]
            sole_ported(containers, i) && text == "Container '"@ + match containers[i].name {
                Some(n) => n@,
                None => "unknown"@,
            } + UNHINTED_TAIL@
    } else {
        text == SEVERAL_PORTED_TEXT@
    }
}

fn has_ports(c: &PortedContainer) -> (r: bool)
    ensures
        r == defines_ports(*c),
{
    match &c.ports {
        Some(p) => p.len() > 0,
        None => false,
    }
}

fn finds_hinted_port(c: &PortedContainer) -> (r: bool)
    ensures
        r == has_hinted_port(*c),
{
    match &c.ports {
        None => false,
        Some(ports) => {
            let mut i: usize = 0;
            while i < ports.len()
                invariant
                    i <= ports.len(),
                    c.ports == Some(*ports),
                    forall|j: int| 0 <= j < i ==> !hints_protocol(#[trigger] ports@[j]),
                decreases ports.len() - i,
            {
                let hinted: bool = match &ports[i].name {
                    Some(n) => starts_with_str(n.as_str(), "h2c") || starts_with_str(
                        n.as_str(),
                        "http1",
                    ),
                    None => false,
                };
                if hinted {
                    proof {
                        assert(hints_protocol(c.ports->0@[i as int]));
                    }
                    return true;
                }
                i = i + 1;
            }
            false
        },
    }
}

/// Checks that Knative can run the containers.
pub fn validate_knative_containers(containers: &Vec<PortedContainer>) -> (r: Result<(), Error>)
    ensures
        r is Ok <==> knative_accepts(containers@),
        r matches Err(e) ==> (e matches Error::InvalidRestateConfig(t) && containers_complaint(
            containers@,
            t@,
        )),
{
    let mut found: Option<usize> = None;
    let mut i: usize = 0;
    while i < containers.len()
        invariant
            i <= containers.len(),
            match found {
                Some(f) => f < i && defines_ports(containers@[f as int]) && forall|j: int|
                    0 <= j < i && j != f ==> !defines_ports(#[trigger] containers@[j]),
                None => forall|j: int| 0 <= j < i ==> !defines_ports(#[trigger] containers@[j]),
            },
        decreases containers.len() - i,
    {
        if has_ports(&containers[i]) {
            if found.is_some() {
                proof {
                    let a = found->0 as int;
                    let b = i as int;
                    assert(defines_ports(containers@[a]) && defines_ports(containers@[b]));
                    assert forall|k: int| !#[trigger] sole_ported(containers@, k) by {
                        if sole_ported(containers@, k) {
                            if k != a {
                                assert(!defines_ports(containers@[a]));
                            } else {
                                assert(!defines_ports(containers@[b]));
                            }
                        }
                    }
                }
                return Err(Error::InvalidRestateConfig(SEVERAL_PORTED_TEXT.to_owned()));
            }
            found = Some(i);
        }
        i = i + 1;
    }
    match found {
        None => Err(Error::InvalidRestateConfig(NONE_PORTED_TEXT.to_owned())),
        Some(f) => {
            let c = &containers[f];
            proof {
                assert(sole_ported(containers@, f as int));
                assert forall|k: int| #[trigger] sole_ported(containers@, k) implies k == f by {
                    if k != f {
                        assert(!defines_ports(containers@[f as int]));
                    }
                }
            }
            if finds_hinted_port(c) {
                Ok(())
            } else {
                let name: String = match &c.name {
                    Some(n) => n.clone(),
                    None => "unknown".to_owned(),
                };
                Err(
                    Error::InvalidRestateConfig(
                        cat3("Container '", name.as_str(), UNHINTED_TAIL),
                    ),
                )
            }
        },
    }
}

/// The map with an entry where it has none for the key.
pub open spec fn or_insert(
    m: Map<Seq<char>, Seq<char>>,
    key: Seq<char>,
    value: Seq<char>,
) -> Map<Seq<char>, Seq<char>> {
    if m.contains_key(key) {
        m
    } else {
        m.insert(key, value)
    }
}

/// The map with an entry for a number, where there is one and the map has none for the key.
pub open spec fn or_insert_number(
    m: Map<Seq<char>, Seq<char>>,
    key: Seq<char>,
    value: Option<i32>,
) -> Map<Seq<char>, Seq<char>> {
    match value {
        Some(n) => or_insert(m, key, int_text(n as int)),
        None => m,
    }
}

fn put_default(m: &mut StringMap, key: &str, value: String)
    ensures
        final(m)@ == or_insert(old(m)@, key@, value@),
{
    if !m.contains_key(key) {
        m.insert(key.to_owned(), value);
    }
}

fn put_default_number(m: &mut StringMap, key: &str, value: Option<i32>)
    ensures
        final(m)@ == or_insert_number(old(m)@, key@, value),
{
    match value {
        Some(n) => {
            put_default(m, key, i64_text(n as i64));
        },
        None => {},
    }
}

/// The annotations of a Configuration: those of the deployment, without what concerns the object
/// that they were applied to or Routes only, the name of the deployment, the tag, and the template
/// where the tag is its hash.
pub open spec fn configuration_annotations(
    rsd: RestateDeployment,
    tag: Seq<char>,
    pod_template: Option<Seq<char>>,
) -> Map<Seq<char>, Seq<char>> {
    let a = entries(opt_map(rsd.metadata.annotations)).remove(LAST_APPLIED_ANNOTATION@).remove(
        ROLLOUT_DURATION_ANNOTATION@,
    ).insert(RESTATE_DEPLOYMENT_ANNOTATION@, rsd.metadata.any_name()).insert(
        RESTATE_TAG_ANNOTATION@,
        tag,
    );
    match pod_template {
        Some(t) => a.insert(RESTATE_POD_TEMPLATE_ANNOTATION@, t),
        None => a,
    }
}

/// The annotations of a revision template: those of the user, the scaling that the deployment asks
/// for where they do not set it, and the name of the deployment.
pub open spec fn revision_annotations(rsd: RestateDeployment, k: KnativeSpec) -> Map<
    Seq<char>,
    Seq<char>,
> {
    let a = or_insert(
        entries(template_annotations(rsd.spec.template)),
        MIN_SCALE_ANNOTATION@,
        match k.min_scale {
            Some(n) => int_text(n as int),
            None => "0"@,
        },
    );
    let b = or_insert_number(a, MAX_SCALE_ANNOTATION@, k.max_scale);
    let c = or_insert_number(b, TARGET_ANNOTATION@, k.target);
    c.insert(RESTATE_DEPLOYMENT_ANNOTATION@, rsd.metadata.any_name())
}

/// The labels of a revision template: those of the user, the manager, and the one that lets the
/// cluster reach the pods.
pub open spec fn revision_labels(rsd: RestateDeployment) -> Map<Seq<char>, Seq<char>> {
    with_allow_label(
        template_labels(rsd.spec.template).insert(APP_MANAGED_BY_LABEL@, MANAGER_NAME@),
        opt_text(rsd.spec.restate.register.cluster),
    )
}

/// The specification of the pods as the user wrote it, nothing where there is none.
pub open spec fn pod_spec_json(rsd: RestateDeployment) -> Json {
    match rsd.spec.template.spec {
        Some(s) => s@,
        None => Json::Object(no_fields()),
    }
}

/// The Configuration of a version. What the user wrote is embedded as it is, so that fields that
/// the operator does not know are kept.
pub open spec fn configuration_json(
    rsd: RestateDeployment,
    k: KnativeSpec,
    name: Seq<char>,
    namespace: Seq<char>,
    tag: Seq<char>,
    pod_template: Option<Seq<char>>,
) -> Json {
    let metadata = MetaView {
        name: Some(name),
        namespace: Some(namespace),
        uid: None,
        labels: Some(
            entries(opt_map(rsd.metadata.labels)).insert(APP_MANAGED_BY_LABEL@, MANAGER_NAME@),
        ),
        annotations: Some(configuration_annotations(rsd, tag, pod_template)),
        owner_references: Some(seq![owner_of(rsd)]),
    };
    let template_metadata = Json::Object(
        no_fields().insert("annotations"@, text_object(revision_annotations(rsd, k))).insert(
            "labels"@,
            text_object(revision_labels(rsd)),
        ),
    );
    let template = Json::Object(
        no_fields().insert("metadata"@, template_metadata).insert("spec"@, pod_spec_json(rsd)),
    );
    Json::Object(
        no_fields().insert("apiVersion"@, Json::Text(KNATIVE_API_VERSION@)).insert(
            "kind"@,
            Json::Text("Configuration"@),
        ).insert("metadata"@, meta_json(metadata)).insert(
            "spec"@,
            Json::Object(no_fields().insert("template"@, template)),
        ),
    )
}

/// The containers that a Configuration is checked by: those of the pod specification, none where
/// there is none. The parse of the specification can fail.
pub open spec fn checked_containers(
    rsd: RestateDeployment,
    parsed: Result<Vec<PortedContainer>, String>,
) -> Result<Seq<PortedContainer>, Seq<char>> {
    match (rsd.spec.template.spec, parsed) {
        (None, _) => Ok(Seq::empty()),
        (Some(_), Ok(c)) => Ok(c@),
        (Some(_), Err(e)) => Err(e@),
    }
}

/// Builds the Configuration of a version. `parsed` is what reading the pod specification gave.
pub fn build_configuration_spec(
    rsd: &RestateDeployment,
    name: &str,
    namespace: &str,
    tag: &str,
    pod_template: Option<&str>,
    parsed: Result<Vec<PortedContainer>, String>,
) -> (r: Result<Value, Error>)
    requires
        rsd.metadata.name is Some,
        rsd.metadata.uid is Some,
    ensures
        match (rsd.spec.knative, checked_containers(*rsd, parsed)) {
            (None, _) => r matches Err(Error::InvalidRestateConfig(t)) && t@
                == "Missing knative spec"@,
            (Some(_), Err(e)) => r matches Err(Error::InvalidRestateConfig(t)) && t@
                == "Failed to parse pod template spec: "@ + e,
            (Some(k), Ok(containers)) => if knative_accepts(containers) {
                r matches Ok(v) && v@ == configuration_json(
                    *rsd,
                    k,
                    name@,
                    namespace@,
                    tag@,
                    opt_str(pod_template),
                )
            } else {
                r matches Err(Error::InvalidRestateConfig(t)) && containers_complaint(
                    containers,
                    t@,
                )
            },
        },
{
    let k: &KnativeSpec = match &rsd.spec.knative {
        Some(k) => k,
        None => {
            return Err(Error::InvalidRestateConfig("Missing knative spec".to_owned()));
        },
    };
    let containers: Vec<PortedContainer> = match &rsd.spec.template.spec {
        None => Vec::new(),
        Some(_) => match parsed {
            Ok(c) => c,
            Err(e) => {
                return Err(
                    Error::InvalidRestateConfig(
                        cat("Failed to parse pod template spec: ", e.as_str()),
                    ),
                );
            },
        },
    };
    proof {
        assert(rsd.spec.template.spec is None ==> containers@ =~= Seq::empty());
    }
    match validate_knative_containers(&containers) {
        Err(e) => {
            return Err(e);
        },
        Ok(()) => {},
    }

    let mut annotations = map_or_empty(&rsd.metadata.annotations);
    annotations.remove(LAST_APPLIED_ANNOTATION);
    annotations.remove(ROLLOUT_DURATION_ANNOTATION);
    annotations.insert(RESTATE_DEPLOYMENT_ANNOTATION.to_owned(), rsd.metadata.name_any());
    annotations.insert(RESTATE_TAG_ANNOTATION.to_owned(), tag.to_owned());
    match pod_template {
        Some(t) => {
            annotations.insert(RESTATE_POD_TEMPLATE_ANNOTATION.to_owned(), t.to_owned());
        },
        None => {},
    }
    let mut labels = map_or_empty(&rsd.metadata.labels);
    labels.insert(APP_MANAGED_BY_LABEL.to_owned(), MANAGER_NAME.to_owned());
    let mut owners: Vec<OwnerReference> = Vec::new();
    owners.push(owner_reference(rsd));
    let mut metadata = ObjectMeta::empty();
    metadata.name = Some(name.to_owned());
    metadata.namespace = Some(namespace.to_owned());
    metadata.labels = Some(labels);
    metadata.annotations = Some(annotations);
    metadata.owner_references = Some(owners);
    proof {
        assert(metadata@.owner_references->0 =~= seq![owner_of(*rsd)]);
    }

    let mut template_metadata = Object::new();
    template_metadata.put("annotations", Value::labels(&revision_template_annotations(rsd, k)));
    template_metadata.put("labels", Value::labels(&revision_template_labels(rsd)));
    let mut template = Object::new();
    template.put("metadata", Value::Object(template_metadata));
    template.put(
        "spec",
        match &rsd.spec.template.spec {
            Some(s) => s.duplicate(),
            None => Value::Object(Object::new()),
        },
    );
    let mut spec = Object::new();
    spec.put("template", Value::Object(template));
    let mut o = Object::new();
    o.put_text("apiVersion", KNATIVE_API_VERSION);
    o.put_text("kind", "Configuration");
    o.put("metadata", metadata.value());
    o.put("spec", Value::Object(spec));
    Ok(Value::Object(o))
}

fn revision_template_annotations(rsd: &RestateDeployment, k: &KnativeSpec) -> (r: StringMap)
    ensures
        r@ == revision_annotations(*rsd, *k),
{
    let mut a: StringMap = match &rsd.spec.template.metadata {
        Some(m) => map_or_empty(&m.annotations),
        None => StringMap::new(),
    };
    let least: String = match k.min_scale {
        Some(n) => i64_text(n as i64),
        None => "0".to_owned(),
    };
    put_default(&mut a, MIN_SCALE_ANNOTATION, least);
    put_default_number(&mut a, MAX_SCALE_ANNOTATION, k.max_scale);
    put_default_number(&mut a, TARGET_ANNOTATION, k.target);
    a.insert(RESTATE_DEPLOYMENT_ANNOTATION.to_owned(), rsd.metadata.name_any());
    a
}

fn revision_template_labels(rsd: &RestateDeployment) -> (r: StringMap)
    ensures
        r@ == revision_labels(*rsd),
{
    let mut l: StringMap = match &rsd.spec.template.metadata {
        Some(m) => map_or_empty(&m.labels),
        None => StringMap::new(),
    };
    l.insert(APP_MANAGED_BY_LABEL.to_owned(), MANAGER_NAME.to_owned());
    add_allow_label(&mut l, &rsd.spec.restate.register.cluster);
    l
}

/// The scaling that a user sets on the template has precedence over what the deployment asks for.
pub proof fn user_scaling_has_precedence(
    rsd: RestateDeployment,
    k: KnativeSpec,
    key: Seq<char>,
)
    requires
        entries(template_annotations(rsd.spec.template)).contains_key(key),
        key != RESTATE_DEPLOYMENT_ANNOTATION@,
    ensures
        revision_annotations(rsd, k).contains_key(key),
        revision_annotations(rsd, k)[key] == entries(template_annotations(rsd.spec.template))[key],
{
}

/// The reference by which a Configuration owns its Route.
pub open spec fn configuration_owner(config: ObjectMeta) -> OwnerView {
    OwnerView {
        api_version: KNATIVE_API_VERSION@,
        kind: "Configuration"@,
        name: config.name->0@,
        uid: config.uid->0@,
        controller: Some(true),
        block_owner_deletion: None,
    }
}

/// The Route of a version: cluster-local, and with all traffic to the latest revision of its
/// Configuration, which owns it, so that it goes with the Configuration.
pub open spec fn route_json(
    rsd: RestateDeployment,
    name: Seq<char>,
    namespace: Seq<char>,
    config_name: Seq<char>,
    config: ObjectMeta,
) -> Json {
    let metadata = MetaView {
        name: Some(name),
        namespace: Some(namespace),
        uid: None,
        labels: Some(
            entries(opt_map(rsd.metadata.labels)).insert(
                APP_MANAGED_BY_LABEL@,
                MANAGER_NAME@,
            ).insert(VISIBILITY_LABEL@, "cluster-local"@),
        ),
        annotations: Some(
            entries(opt_map(rsd.metadata.annotations)).remove(LAST_APPLIED_ANNOTATION@).insert(
                RESTATE_DEPLOYMENT_ANNOTATION@,
                rsd.metadata.any_name(),
            ),
        ),
        owner_references: Some(seq![configuration_owner(config)]),
    };
    let target = Json::Object(
        no_fields().insert("configurationName"@, Json::Text(config_name)).insert(
            "latestRevision"@,
            Json::Bool(true),
        ).insert("percent"@, Json::Int(100)),
    );
    Json::Object(
        no_fields().insert("apiVersion"@, Json::Text(KNATIVE_API_VERSION@)).insert(
            "kind"@,
            Json::Text("Route"@),
        ).insert("metadata"@, meta_json(metadata)).insert(
            "spec"@,
            Json::Object(no_fields().insert("traffic"@, Json::Array(seq![target]))),
        ),
    )
}

/// Builds the Route of a version.
pub fn build_route_spec(
    rsd: &RestateDeployment,
    name: &str,
    namespace: &str,
    config_name: &str,
    config: &ObjectMeta,
) -> (r: Value)
    requires
        config.name is Some,
        config.uid is Some,
    ensures
        r@ == route_json(*rsd, name@, namespace@, config_name@, *config),
{
    let owner_name: Option<String> = config.name.clone();
    let owner_uid: Option<String> = config.uid.clone();
    let mut owners: Vec<OwnerReference> = Vec::new();
    owners.push(
        OwnerReference {
            api_version: KNATIVE_API_VERSION.to_owned(),
            kind: "Configuration".to_owned(),
            name: owner_name.unwrap(),
            uid: owner_uid.unwrap(),
            controller: Some(true),
            block_owner_deletion: None,
        },
    );
    let mut annotations = map_or_empty(&rsd.metadata.annotations);
    annotations.remove(LAST_APPLIED_ANNOTATION);
    annotations.insert(RESTATE_DEPLOYMENT_ANNOTATION.to_owned(), rsd.metadata.name_any());
    let mut labels = map_or_empty(&rsd.metadata.labels);
    labels.insert(APP_MANAGED_BY_LABEL.to_owned(), MANAGER_NAME.to_owned());
    labels.insert(VISIBILITY_LABEL.to_owned(), "cluster-local".to_owned());
    let mut metadata = ObjectMeta::empty();
    metadata.name = Some(name.to_owned());
    metadata.namespace = Some(namespace.to_owned());
    metadata.labels = Some(labels);
    metadata.annotations = Some(annotations);
    metadata.owner_references = Some(owners);
    proof {
        assert(metadata@.owner_references->0 =~= seq![configuration_owner(*config)]);
    }
    let mut target = Object::new();
    target.put_text("configurationName", config_name);
    target.put("latestRevision", Value::Bool(true));
    target.put("percent", Value::Int(100));
    let mut spec = Object::new();
    spec.put("traffic", Value::singleton(Value::Object(target)));
    let mut o = Object::new();
    o.put_text("apiVersion", KNATIVE_API_VERSION);
    o.put_text("kind", "Route");
    o.put("metadata", metadata.value());
    o.put("spec", Value::Object(spec));
    Value::Object(o)
}

/// The first condition that says whether an object is ready, by its place.
pub open spec fn ready_place(conditions: Option<Vec<KnativeCondition>>, i: int) -> bool {
    conditions matches Some(c) && 0 <= i < c@.len() && c@[i].type_@ == "Ready"@ && forall|j: int|
        0 <= j < i ==> (#[trigger] c@[j]).type_@ != "Ready"@
}

fn find_ready(conditions: &Option<Vec<KnativeCondition>>) -> (r: Option<usize>)
    ensures
        match r {
            Some(i) => ready_place(*conditions, i as int),
            None => forall|i: int| !#[trigger] ready_place(*conditions, i),
        },
{
    match conditions {
        None => None,
        Some(c) => {
            let mut i: usize = 0;
            while i < c.len()
                invariant
                    i <= c.len(),
                    *conditions == Some(*c),
                    forall|j: int| 0 <= j < i ==> (#[trigger] c@[j]).type_@ != "Ready"@,
                decreases c.len() - i,
            {
                if str_eq(c[i].type_.as_str(), "Ready") {
                    return Some(i);
                }
                i = i + 1;
            }
            None
        },
    }
}

/// Something that a version waits for: what is said, why, and after how long to look again.
pub struct WaitView {
    /// Whether the Route is waited for, rather than the Configuration.
    pub route: bool,
    pub message: Seq<char>,
    pub reason: Seq<char>,
    pub requeue_after: int,
}

/// Whether an error says that a version waits.
pub open spec fn is_wait(e: Error, w: WaitView) -> bool {
    match e {
        Error::RouteNotReady { message, reason, requeue_after } => w.route && message@ == w.message
            && reason@ == w.reason && (requeue_after matches Some(d) && d@ == w.requeue_after),
        Error::ConfigurationNotReady { message, reason, requeue_after } => !w.route && message@
            == w.message && reason@ == w.reason && (requeue_after matches Some(d) && d@
            == w.requeue_after),
        _ => false,
    }
}

/// Whether the traffic of a Route goes to a revision.
pub open spec fn routes_to(route: Route, revision: Seq<char>) -> bool {
    route.status matches Some(s) && s.traffic matches Some(t) && exists|i: int|
        0 <= i < t@.len() && opt_text(#[trigger] t@[i]) == Some(revision)
}

/// The conditions of a Route.
pub open spec fn route_conditions(route: Route) -> Option<Vec<KnativeCondition>> {
    match route.status {
        Some(s) => s.conditions,
        None => None,
    }
}

/// What a Route is waited for: that it says it is ready, where it says anything, and that its
/// traffic goes to the revision.
pub open spec fn route_wait(route: Route, revision: Seq<char>) -> Option<WaitView> {
    let conditions = route_conditions(route);
    let i = choose|i: int| #[trigger] ready_place(conditions, i);
    if (exists|i: int| #[trigger] ready_place(conditions, i)) && conditions->0@[i].status@
        != "True"@ {
        Some(
            WaitView {
                route: true,
                message: "Route "@ + route.metadata.any_name() + " is not ready: "@
                    + conditions->0@[i].message@,
                reason: conditions->0@[i].reason@,
                requeue_after: secs(5),
            },
        )
    } else if !routes_to(route, revision) {
        Some(
            WaitView {
                route: true,
                message: "Route "@ + route.metadata.any_name()
                    + " is not routing traffic to revision "@ + revision,
                reason: "TrafficNotRolledOut"@,
                requeue_after: secs(2),
            },
        )
    } else {
        None
    }
}

/// The conditions of a Revision.
pub open spec fn revision_conditions(revision: Revision) -> Option<Vec<KnativeCondition>> {
    match revision.status {
        Some(s) => s.conditions,
        None => None,
    }
}

/// What a Revision is waited for: that it says it is ready.
pub open spec fn revision_wait(revision: Revision) -> Option<WaitView> {
    let conditions = revision_conditions(revision);
    let i = choose|i: int| #[trigger] ready_place(conditions, i);
    if exists|i: int| #[trigger] ready_place(conditions, i) {
        if conditions->0@[i].status@ == "True"@ {
            None
        } else {
            Some(
                WaitView {
                    route: false,
                    message: "Revision "@ + revision.metadata.any_name() + " is not ready: "@
                        + conditions->0@[i].message@,
                    reason: conditions->0@[i].reason@,
                    requeue_after: secs(5),
                },
            )
        }
    } else {
        Some(
            WaitView {
                route: false,
                message: "Revision "@ + revision.metadata.any_name()
                    + " has out-of-date status information"@,
                reason: "NoConditions"@,
                requeue_after: secs(5),
            },
        )
    }
}

proof fn lemma_one_ready_place(conditions: Option<Vec<KnativeCondition>>, i: int, j: int)
    requires
        ready_place(conditions, i),
        ready_place(conditions, j),
    ensures
        i == j,
{
    if i < j {
        assert(conditions->0@[i].type_@ != "Ready"@);
    } else if j < i {
        assert(conditions->0@[j].type_@ != "Ready"@);
    }
}

fn finds_traffic(traffic: &Option<Vec<Option<String>>>, revision: &str) -> (r: bool)
    ensures
        r == (traffic matches Some(t) && exists|i: int|
            0 <= i < t@.len() && opt_text(#[trigger] t@[i]) == Some(revision@)),
{
    match traffic {
        None => false,
        Some(t) => {
            let mut i: usize = 0;
            while i < t.len()
                invariant
                    i <= t.len(),
                    *traffic == Some(*t),
                    forall|j: int| 0 <= j < i ==> opt_text(#[trigger] t@[j]) != Some(revision@),
                decreases t.len() - i,
            {
                let same: bool = match &t[i] {
                    Some(n) => str_eq(n.as_str(), revision),
                    None => false,
                };
                if same {
                    return true;
                }
                i = i + 1;
            }
            false
        },
    }
}

/// Checks that a Route is ready to serve a revision.
pub fn check_route_ready(route: &Route, expected_revision: &str) -> (r: Result<(), Error>)
    ensures
        match route_wait(*route, expected_revision@) {
            None => r is Ok,
            Some(w) => r matches Err(e) && is_wait(e, w),
        },
{
    match &route.status {
        Some(s) => {
            let place = find_ready(&s.conditions);
            proof {
                if let Some(i) = place {
                    let chosen = choose|k: int| #[trigger] ready_place(s.conditions, k);
                    lemma_one_ready_place(s.conditions, i as int, chosen);
                }
            }
            match (&s.conditions, place) {
                (Some(conditions), Some(i)) => {
                    let c = &conditions[i];
                    if !str_eq(c.status.as_str(), "True") {
                        let mut message: String = cat3(
                            "Route ",
                            route.metadata.name_any().as_str(),
                            " is not ready: ",
                        );
                        message.append(c.message.as_str());
                        return Err(
                            Error::RouteNotReady {
                                message,
                                reason: c.reason.clone(),
                                requeue_after: Some(Duration::from_secs(5)),
                            },
                        );
                    }
                },
                _ => {},
            }
        },
        None => {
            proof {
                assert(forall|k: int| !ready_place(route_conditions(*route), k));
            }
        },
    }
    let rolled_out: bool = match &route.status {
        Some(s) => finds_traffic(&s.traffic, expected_revision),
        None => false,
    };
    if !rolled_out {
        let mut message: String = cat3(
            "Route ",
            route.metadata.name_any().as_str(),
            " is not routing traffic to revision ",
        );
        message.append(expected_revision);
        return Err(
            Error::RouteNotReady {
                message,
                reason: "TrafficNotRolledOut".to_owned(),
                requeue_after: Some(Duration::from_secs(2)),
            },
        );
    }
    Ok(())
}

/// Checks that a Revision is ready to serve.
pub fn check_revision_ready(revision: &Revision) -> (r: Result<(), Error>)
    ensures
        match revision_wait(*revision) {
            None => r is Ok,
            Some(w) => r matches Err(e) && is_wait(e, w),
        },
{
    match &revision.status {
        Some(s) => {
            let place = find_ready(&s.conditions);
            proof {
                if let Some(i) = place {
                    let chosen = choose|k: int| #[trigger] ready_place(s.conditions, k);
                    lemma_one_ready_place(s.conditions, i as int, chosen);
                }
            }
            match (&s.conditions, place) {
                (Some(conditions), Some(i)) => {
                    let c = &conditions[i];
                    if str_eq(c.status.as_str(), "True") {
                        return Ok(());
                    }
                    let mut message: String = cat3(
                        "Revision ",
                        revision.metadata.name_any().as_str(),
                        " is not ready: ",
                    );
                    message.append(c.message.as_str());
                    return Err(
                        Error::ConfigurationNotReady {
                            message,
                            reason: c.reason.clone(),
                            requeue_after: Some(Duration::from_secs(5)),
                        },
                    );
                },
                _ => {},
            }
        },
        None => {
            proof {
                assert(forall|k: int| !ready_place(revision_conditions(*revision), k));
            }
        },
    }
    Err(
        Error::ConfigurationNotReady {
            message: cat3(
                "Revision ",
                revision.metadata.name_any().as_str(),
                " has out-of-date status information",
            ),
            reason: "NoConditions".to_owned(),
            requeue_after: Some(Duration::from_secs(5)),
        },
    )
}

/// How a version comes to its deployment id.
#[derive(Debug)]
pub enum DeploymentLookup {
    /// It is recorded on the Configuration.
    Known(String),
    /// The version is to be registered at this address.
    Register(String),
}

/// The address of a Route.
pub open spec fn route_url(route: Route) -> Option<Seq<char>> {
    match route.status {
        Some(s) => opt_text(s.url),
        None => None,
    }
}

/// Looks for the recorded deployment id of a version, or for the address to register it at.
pub fn register_or_lookup_deployment(config: &ObjectMeta, route: &Route) -> (r: Result<
    DeploymentLookup,
    Error,
>)
    ensures
        match config.annotation(RESTATE_DEPLOYMENT_ID_ANNOTATION@) {
            Some(id) => r matches Ok(DeploymentLookup::Known(t)) && t@ == id,
            None => match route_url(*route) {
                None => r matches Err(e) && is_wait(
                    e,
                    (WaitView {
                        route: true,
                        message: "Route "@ + route.metadata.any_name()
                            + " is waiting for URL assignment"@,
                        reason: "RouteURLNotReady"@,
                        requeue_after: secs(5),
                    }),
                ),
                Some(u) => match parsed_url(u) {
                    Ok(a) => r matches Ok(DeploymentLookup::Register(t)) && t@ == a,
                    Err(why) => r matches Err(Error::InvalidUrl(t)) && t@ == why,
                },
            },
        },
{
    match config.get_annotation(RESTATE_DEPLOYMENT_ID_ANNOTATION) {
        Some(id) => {
            return Ok(DeploymentLookup::Known(id.clone()));
        },
        None => {},
    }
    match &route.status {
        Some(s) => match &s.url {
            Some(u) => {
                return match parse_url(u.as_str()) {
                    Ok(a) => Ok(DeploymentLookup::Register(a)),
                    Err(why) => Err(Error::InvalidUrl(why)),
                };
            },
            None => {},
        },
        None => {},
    }
    Err(
        Error::RouteNotReady {
            message: cat3(
                "Route ",
                route.metadata.name_any().as_str(),
                " is waiting for URL assignment",
            ),
            reason: "RouteURLNotReady".to_owned(),
            requeue_after: Some(Duration::from_secs(5)),
        },
    )
}

/// The annotations that record a registration on a Configuration, none where it is recorded.
pub fn registration_annotations(config: &ObjectMeta, deployment_id: &str, now: &Timestamp) -> (r:
    Option<StringMap>)
    ensures
        opt_map(r) == if config.annotation(RESTATE_DEPLOYMENT_ID_ANNOTATION@) == Some(
            deployment_id@,
        ) {
            None
        } else {
            Some(
                Map::<Seq<char>, Seq<char>>::empty().insert(
                    RESTATE_DEPLOYMENT_ID_ANNOTATION@,
                    deployment_id@,
                ).insert(RESTATE_REGISTERED_AT_ANNOTATION@, rfc3339(now@)),
            )
        },
{
    let recorded: bool = match config.get_annotation(RESTATE_DEPLOYMENT_ID_ANNOTATION) {
        Some(id) => str_eq(id.as_str(), deployment_id),
        None => false,
    };
    if recorded {
        return None;
    }
    let mut a = StringMap::new();
    a.insert(RESTATE_DEPLOYMENT_ID_ANNOTATION.to_owned(), deployment_id.to_owned());
    a.insert(RESTATE_REGISTERED_AT_ANNOTATION.to_owned(), now.to_rfc3339());
    Some(a)
}

/// The scale that a revision starts with.
pub open spec fn initial_scale(annotations: Option<Map<Seq<char>, Seq<char>>>) -> i32 {
    match annotations {
        Some(a) => if a.contains_key(KNATIVE_INITIAL_SCALE_ANNOTATION@) {
            match integer(a[KNATIVE_INITIAL_SCALE_ANNOTATION@]) {
                Some(n) => if i32::MIN <= n <= i32::MAX {
                    n as i32
                } else {
                    1
                },
                None => 1,
            }
        } else {
            1
        },
        None => 1,
    }
}

/// The scale that the revisions of a Configuration start with, one unless its template says
/// otherwise.
pub fn get_initial_scale(config: &Configuration) -> (r: i32)
    ensures
        r == initial_scale(opt_map(config.template_annotations)),
{
    match &config.template_annotations {
        Some(a) => match a.get(KNATIVE_INITIAL_SCALE_ANNOTATION) {
            Some(s) => match parse_i32(s.as_str()) {
                Some(n) => n,
                None => 1,
            },
            None => 1,
        },
        None => 1,
    }
}

/// The deployment that a Route or a Revision belongs to, by namespace and name.
pub fn parent_deployment(meta: &ObjectMeta) -> (r: Option<(String, String)>)
    ensures
        match r {
            Some((namespace, name)) => opt_text(meta.namespace) == Some(namespace@)
                && meta.annotation(RESTATE_DEPLOYMENT_ANNOTATION@) == Some(name@),
            None => meta.namespace is None || meta.annotation(RESTATE_DEPLOYMENT_ANNOTATION@)
                is None,
        },
{
    match (meta.get_annotation(RESTATE_DEPLOYMENT_ANNOTATION), &meta.namespace) {
        (Some(name), Some(namespace)) => Some((namespace.clone(), name.clone())),
        _ => None,
    }
}

/// What a cleanup of old Configurations goes by. One that still drains waits for the next ordinary
/// reconciliation.
pub fn configuration_cleanup_policy(rsd: &RestateDeployment, mode: CleanupMode, now: Timestamp) -> (r:
    CleanupPolicy)
    ensures
        r.mode == mode,
        !r.autoscaling,
        r.revision_history_limit == rsd.spec.revision_history_limit,
        r.drain_delay_seconds == KNATIVE_DRAIN_DELAY_SECONDS,
        !r.poll_while_draining,
        r.now == now,
{
    CleanupPolicy {
        mode,
        autoscaling: false,
        revision_history_limit: rsd.spec.revision_history_limit,
        drain_delay_seconds: KNATIVE_DRAIN_DELAY_SECONDS,
        poll_while_draining: false,
        now,
    }
}

} // verus!
