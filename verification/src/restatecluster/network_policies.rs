//! The NetworkPolicies of a cluster.

use vstd::prelude::*;
use vstd::string::*;

use crate::json::{
    jsons, no_fields, opt_json, text_array, with_field, Json, Object, Value,
};
use crate::manifest::{manifest, manifest_json};
use crate::meta::{selector_json, LabelSelector, MetaView, ObjectMeta};
use crate::restatecluster::labels::{
    cluster_selector, label_selector, object_meta, object_view,
};
use crate::restatecluster::resource::{
    NetworkPolicyEgressRule, OperatorSettings, RestateClusterNetworkPeers,
};
use crate::restatecluster::steps::{push_step, step_views, ClusterStep, OwnedKind, StepView};
use crate::string_map::StringMap;
use crate::text::{cat, cat3, texts};

verus! {

pub const AWS_POD_IDENTITY_POLICY_NAME: &'static str = "allow-restate-egress-to-aws-pod-identity";

pub const NAMESPACE_NAME_LABEL: &'static str = "kubernetes.io/metadata.name";

/// A selector of one label.
pub open spec fn one_label(key: Seq<char>, value: Seq<char>) -> Json {
    selector_json(Some(Map::<Seq<char>, Seq<char>>::empty().insert(key, value)), None)
}

fn one_label_selector(key: &str, value: &str) -> (r: Value)
    ensures
        r@ == one_label(key@, value@),
{
    let mut labels = StringMap::new();
    labels.insert(key.to_owned(), value.to_owned());
    LabelSelector { match_labels: Some(labels), match_expressions: None }.value()
}

/// A port of a protocol.
pub open spec fn port_json(protocol: Seq<char>, port: int) -> Json {
    Json::Object(
        no_fields().insert("port"@, Json::Int(port)).insert("protocol"@, Json::Text(protocol)),
    )
}

fn port_value(protocol: &str, port: i32) -> (r: Value)
    ensures
        r@ == port_json(protocol@, port as int),
{
    let mut o = Object::new();
    o.put("port", Value::Int(port as i64));
    o.put_text("protocol", protocol);
    Value::Object(o)
}

/// Pods of namespaces.
pub open spec fn pods_json(namespaces: Json, pods: Json) -> Json {
    Json::Object(
        no_fields().insert("namespaceSelector"@, namespaces).insert("podSelector"@, pods),
    )
}

fn pods_value(namespaces: Value, pods: Value) -> (r: Value)
    ensures
        r@ == pods_json(namespaces@, pods@),
{
    let mut o = Object::new();
    o.put("namespaceSelector", namespaces);
    o.put("podSelector", pods);
    Value::Object(o)
}

/// A range of addresses, without some.
pub open spec fn addresses_json(cidr: Seq<char>, except: Option<Seq<Seq<char>>>) -> Json {
    Json::Object(
        no_fields().insert(
            "ipBlock"@,
            Json::Object(
                with_field(
                    no_fields().insert("cidr"@, Json::Text(cidr)),
                    "except"@,
                    match except {
                        Some(e) => Some(text_array(e)),
                        None => None,
                    },
                ),
            ),
        ),
    )
}

fn addresses_value(cidr: &str, except: &Option<Vec<String>>) -> (r: Value)
    ensures
        r@ == addresses_json(
            cidr@,
            match except {
                Some(e) => Some(texts(e@)),
                None => None,
            },
        ),
{
    let mut block = Object::new();
    block.put_text("cidr", cidr);
    match except {
        Some(e) => {
            block.put("except", Value::texts(e));
        },
        None => {},
    }
    let mut o = Object::new();
    o.put("ipBlock", Value::Object(block));
    Value::Object(o)
}

/// Traffic that is let out.
pub open spec fn egress_json(to: Option<Seq<Json>>, ports: Option<Seq<Json>>) -> Json {
    Json::Object(
        with_field(
            with_field(
                no_fields(),
                "ports"@,
                match ports {
                    Some(p) => Some(Json::Array(p)),
                    None => None,
                },
            ),
            "to"@,
            match to {
                Some(t) => Some(Json::Array(t)),
                None => None,
            },
        ),
    )
}

/// The documents of an optional list.
pub open spec fn opt_jsons(s: Option<Vec<Value>>) -> Option<Seq<Json>> {
    match s {
        Some(s) => Some(jsons(s@)),
        None => None,
    }
}

fn egress_value(to: Option<Vec<Value>>, ports: Option<Vec<Value>>) -> (r: Value)
    ensures
        r@ == egress_json(opt_jsons(to), opt_jsons(ports)),
{
    let mut o = Object::new();
    match ports {
        Some(p) => {
            o.put("ports", Value::array(p));
        },
        None => {},
    }
    match to {
        Some(t) => {
            o.put("to", Value::array(t));
        },
        None => {},
    }
    Value::Object(o)
}

/// A NetworkPolicy.
pub open spec fn policy_json(
    base: MetaView,
    name: Seq<char>,
    pods: Json,
    types: Seq<Seq<char>>,
    egress: Option<Json>,
    ingress: Option<Json>,
) -> Json {
    let a = no_fields().insert("podSelector"@, pods).insert("policyTypes"@, text_array(types));
    manifest_json(
        "networking.k8s.io/v1"@,
        "NetworkPolicy"@,
        object_view(base, name),
        Some(Json::Object(with_field(with_field(a, "egress"@, egress), "ingress"@, ingress))),
    )
}

fn policy(
    base_metadata: &ObjectMeta,
    name: &str,
    pods: Value,
    types: &Vec<String>,
    egress: Option<Value>,
    ingress: Option<Value>,
) -> (r: Value)
    requires
        base_metadata.name is Some,
    ensures
        r@ == policy_json(
            base_metadata@,
            name@,
            pods@,
            texts(types@),
            opt_json(egress),
            opt_json(ingress),
        ),
{
    let mut spec = Object::new();
    spec.put("podSelector", pods);
    spec.put("policyTypes", Value::texts(types));
    spec.put_opt("egress", egress);
    spec.put_opt("ingress", ingress);
    manifest(
        "networking.k8s.io/v1",
        "NetworkPolicy",
        &object_meta(base_metadata, name),
        Some(Value::Object(spec)),
    )
}

fn one_text(t: &str) -> (r: Vec<String>)
    ensures
        texts(r@) == seq![t@],
{
    let mut v: Vec<String> = Vec::new();
    v.push(t.to_owned());
    proof {
        assert(texts(v@) =~= seq![t@]);
    }
    v
}

fn one_value(v: Value) -> (r: Vec<Value>)
    ensures
        jsons(r@) == seq![v@],
{
    let mut out: Vec<Value> = Vec::new();
    out.push(v);
    proof {
        assert(jsons(out@) =~= seq![v@]);
    }
    out
}

/// The policy that lets nothing in or out, for all pods.
pub open spec fn deny_all_json(base: MetaView) -> Json {
    policy_json(
        base,
        "deny-all"@,
        Json::Object(no_fields()),
        seq!["Egress"@, "Ingress"@],
        None,
        None,
    )
}

/// The policy that lets nothing in or out.
pub fn deny_all(base_metadata: &ObjectMeta) -> (r: Value)
    requires
        base_metadata.name is Some,
    ensures
        r@ == deny_all_json(base_metadata@),
{
    let mut types: Vec<String> = Vec::new();
    types.push("Egress".to_owned());
    types.push("Ingress".to_owned());
    proof {
        assert(texts(types@) =~= seq!["Egress"@, "Ingress"@]);
    }
    policy(base_metadata, "deny-all", Value::Object(Object::new()), &types, None, None)
}

/// The policy that lets all pods ask the DNS of the cluster.
pub open spec fn allow_dns_json(base: MetaView) -> Json {
    policy_json(
        base,
        "allow-egress-to-kube-dns"@,
        Json::Object(no_fields()),
        seq!["Egress"@],
        Some(
            Json::Array(
                seq![
                    egress_json(
                        Some(
                            seq![
                                pods_json(
                                    one_label(NAMESPACE_NAME_LABEL@, "kube-system"@),
                                    one_label("k8s-app"@, "kube-dns"@),
                                ),
                            ],
                        ),
                        Some(seq![port_json("UDP"@, 53), port_json("TCP"@, 53)]),
                    ),
                ],
            ),
        ),
        None,
    )
}

/// The policy that lets all pods ask the DNS of the cluster.
pub fn allow_dns(base_metadata: &ObjectMeta) -> (r: Value)
    requires
        base_metadata.name is Some,
    ensures
        r@ == allow_dns_json(base_metadata@),
{
    let to = one_value(
        pods_value(
            one_label_selector(NAMESPACE_NAME_LABEL, "kube-system"),
            one_label_selector("k8s-app", "kube-dns"),
        ),
    );
    let mut ports: Vec<Value> = Vec::new();
    ports.push(port_value("UDP", 53));
    ports.push(port_value("TCP", 53));
    proof {
        assert(jsons(ports@) =~= seq![port_json("UDP"@, 53), port_json("TCP"@, 53)]);
    }
    policy(
        base_metadata,
        "allow-egress-to-kube-dns",
        Value::Object(Object::new()),
        &one_text("Egress"),
        Some(Value::singleton(egress_value(Some(to), Some(ports)))),
        None,
    )
}

/// The policy that lets the nodes reach the public internet: every address but the private and the
/// link-local ones. The space is split in two, since some agents take a range of all addresses
/// amiss.
pub open spec fn allow_public_json(base: MetaView) -> Json {
    policy_json(
        base,
        "allow-restate-egress-to-public-internet"@,
        cluster_selector(base.name->0),
        seq!["Egress"@],
        Some(
            Json::Array(
                seq![
                    egress_json(
                        Some(
                            seq![
                                addresses_json("0.0.0.0/1"@, Some(seq!["10.0.0.0/8"@])),
                                addresses_json(
                                    "128.0.0.0/1"@,
                                    Some(
                                        seq!["192.168.0.0/16"@, "172.16.0.0/12"@, "169.254.0.0/16"@],
                                    ),
                                ),
                            ],
                        ),
                        None,
                    ),
                ],
            ),
        ),
        None,
    )
}

/// The policy that lets the nodes reach the public internet.
pub fn allow_public(base_metadata: &ObjectMeta) -> (r: Value)
    requires
        base_metadata.name is Some,
    ensures
        r@ == allow_public_json(base_metadata@),
{
    let mut except: Vec<String> = Vec::new();
    except.push("192.168.0.0/16".to_owned());
    except.push("172.16.0.0/12".to_owned());
    except.push("169.254.0.0/16".to_owned());
    proof {
        assert(texts(except@) =~= seq!["192.168.0.0/16"@, "172.16.0.0/12"@, "169.254.0.0/16"@]);
    }
    let mut to: Vec<Value> = Vec::new();
    to.push(addresses_value("0.0.0.0/1", &Some(one_text("10.0.0.0/8"))));
    to.push(addresses_value("128.0.0.0/1", &Some(except)));
    proof {
        assert(jsons(to@) =~= seq![
            addresses_json("0.0.0.0/1"@, Some(seq!["10.0.0.0/8"@])),
            addresses_json(
                "128.0.0.0/1"@,
                Some(seq!["192.168.0.0/16"@, "172.16.0.0/12"@, "169.254.0.0/16"@]),
            ),
        ]);
    }
    policy(
        base_metadata,
        "allow-restate-egress-to-public-internet",
        label_selector(base_metadata).value(),
        &one_text("Egress"),
        Some(Value::singleton(egress_value(Some(to), None))),
        None,
    )
}

/// The policy that lets the nodes reach the Pod Identity agent of AWS.
pub open spec fn allow_aws_pod_identity_json(base: MetaView) -> Json {
    policy_json(
        base,
        AWS_POD_IDENTITY_POLICY_NAME@,
        cluster_selector(base.name->0),
        seq!["Egress"@],
        Some(
            Json::Array(
                seq![
                    egress_json(
                        Some(seq![addresses_json("169.254.170.23/32"@, None)]),
                        Some(seq![port_json("TCP"@, 80)]),
                    ),
                ],
            ),
        ),
        None,
    )
}

/// The policy that lets the nodes reach the Pod Identity agent of AWS.
pub fn allow_aws_pod_identity(base_metadata: &ObjectMeta) -> (r: Value)
    requires
        base_metadata.name is Some,
    ensures
        r@ == allow_aws_pod_identity_json(base_metadata@),
{
    policy(
        base_metadata,
        AWS_POD_IDENTITY_POLICY_NAME,
        label_selector(base_metadata).value(),
        &one_text("Egress"),
        Some(
            Value::singleton(
                egress_value(
                    Some(one_value(addresses_value("169.254.170.23/32", &None))),
                    Some(one_value(port_value("TCP", 80))),
                ),
            ),
        ),
        None,
    )
}

/// The policy that lets peers reach a port of the nodes. Without peers it lets no one in.
pub open spec fn allow_access_json(
    port_name: Seq<char>,
    port: int,
    base: MetaView,
    peers: Option<Seq<Json>>,
) -> Json {
    policy_json(
        base,
        "allow-"@ + port_name + "-access"@,
        cluster_selector(base.name->0),
        seq!["Ingress"@],
        None,
        match peers {
            Some(p) => Some(
                Json::Array(
                    seq![
                        Json::Object(
                            no_fields().insert("from"@, Json::Array(p)).insert(
                                "ports"@,
                                Json::Array(seq![port_json("TCP"@, port)]),
                            ),
                        ),
                    ],
                ),
            ),
            None => None,
        },
    )
}

/// The policy that lets peers reach a port of the nodes.
pub fn allow_access(
    port_name: &str,
    port: i32,
    base_metadata: &ObjectMeta,
    peers: Option<Vec<Value>>,
) -> (r: Value)
    requires
        base_metadata.name is Some,
    ensures
        r@ == allow_access_json(port_name@, port as int, base_metadata@, opt_jsons(peers)),
{
    let ingress: Option<Value> = match peers {
        Some(p) => {
            let mut rule = Object::new();
            rule.put("from", Value::array(p));
            rule.put("ports", Value::singleton(port_value("TCP", port)));
            Some(Value::singleton(Value::Object(rule)))
        },
        None => None,
    };
    policy(
        base_metadata,
        cat3("allow-", port_name, "-access").as_str(),
        label_selector(base_metadata).value(),
        &one_text("Ingress"),
        None,
        ingress,
    )
}

/// A rule of the user, as it is.
pub open spec fn user_egress_json(r: NetworkPolicyEgressRule) -> Json {
    egress_json(opt_jsons(r.to), opt_jsons(r.ports))
}

/// The rules of the user.
pub open spec fn user_rules(rules: Option<Vec<NetworkPolicyEgressRule>>) -> Seq<Json> {
    match rules {
        Some(r) => Seq::new(r@.len(), |i: int| user_egress_json(r@[i])),
        None => Seq::empty(),
    }
}

/// The nodes of a cluster.
pub open spec fn own_nodes_json(namespace: Seq<char>, base: MetaView) -> Json {
    pods_json(one_label(NAMESPACE_NAME_LABEL@, namespace), cluster_selector(base.name->0))
}

/// Where the nodes may go: to what the user allows, to each other, and to every pod that is labelled
/// to be reached by them.
pub open spec fn egress_rules(
    namespace: Seq<char>,
    base: MetaView,
    rules: Option<Vec<NetworkPolicyEgressRule>>,
) -> Seq<Json> {
    user_rules(rules).push(
        egress_json(
            Some(seq![own_nodes_json(namespace, base)]),
            Some(seq![port_json("TCP"@, 5122)]),
        ),
    ).push(
        egress_json(
            Some(
                seq![
                    pods_json(
                        Json::Object(no_fields()),
                        one_label("allow.restate.dev/"@ + namespace, "true"@),
                    ),
                ],
            ),
            None,
        ),
    )
}

/// The policy that lets the nodes go where they may.
pub open spec fn allow_egress_json(
    namespace: Seq<char>,
    base: MetaView,
    rules: Option<Vec<NetworkPolicyEgressRule>>,
) -> Json {
    policy_json(
        base,
        "allow-restate-egress"@,
        cluster_selector(base.name->0),
        seq!["Egress"@],
        Some(Json::Array(egress_rules(namespace, base, rules))),
        None,
    )
}

fn duplicate_values(s: &Vec<Value>) -> (r: Vec<Value>)
    ensures
        jsons(r@) == jsons(s@),
{
    let mut out: Vec<Value> = Vec::new();
    let mut i: usize = 0;
    while i < s.len()
        invariant
            i <= s.len(),
            out@.len() == i,
            forall|j: int| 0 <= j < i ==> (#[trigger] out@[j])@ == s@[j]@,
        decreases s.len() - i,
    {
        out.push(s[i].duplicate());
        i = i + 1;
    }
    proof {
        assert(jsons(out@) =~= jsons(s@));
    }
    out
}

fn duplicate_opt_values(s: &Option<Vec<Value>>) -> (r: Option<Vec<Value>>)
    ensures
        opt_jsons(r) == opt_jsons(*s),
{
    match s {
        Some(s) => Some(duplicate_values(s)),
        None => None,
    }
}

fn own_nodes(namespace: &str, base_metadata: &ObjectMeta) -> (r: Value)
    requires
        base_metadata.name is Some,
    ensures
        r@ == own_nodes_json(namespace@, base_metadata@),
{
    pods_value(
        one_label_selector(NAMESPACE_NAME_LABEL, namespace),
        label_selector(base_metadata).value(),
    )
}

/// The policy that lets the nodes reach what the user allows, each other, and every pod that is
/// labelled to be reached by them.
pub fn allow_egress(
    namespace: &str,
    base_metadata: &ObjectMeta,
    user_egress: &Option<Vec<NetworkPolicyEgressRule>>,
) -> (r: Value)
    requires
        base_metadata.name is Some,
    ensures
        r@ == allow_egress_json(namespace@, base_metadata@, *user_egress),
{
    let mut egress: Vec<Value> = Vec::new();
    match user_egress {
        Some(rules) => {
            let mut i: usize = 0;
            while i < rules.len()
                invariant
                    i <= rules.len(),
                    egress@.len() == i,
                    forall|j: int|
                        0 <= j < i ==> (#[trigger] egress@[j])@ == user_egress_json(rules@[j]),
                decreases rules.len() - i,
            {
                egress.push(
                    egress_value(
                        duplicate_opt_values(&rules[i].to),
                        duplicate_opt_values(&rules[i].ports),
                    ),
                );
                i = i + 1;
            }
        },
        None => {},
    }
    proof {
        assert(jsons(egress@) =~= user_rules(*user_egress));
    }
    let ghost before = jsons(egress@);
    let inner = egress_value(
        Some(one_value(own_nodes(namespace, base_metadata))),
        Some(one_value(port_value("TCP", 5122))),
    );
    let ghost first = inner@;
    egress.push(inner);
    let labelled = egress_value(
        Some(
            one_value(
                pods_value(
                    LabelSelector { match_labels: None, match_expressions: None }.value(),
                    one_label_selector(cat("allow.restate.dev/", namespace).as_str(), "true"),
                ),
            ),
        ),
        None,
    );
    let ghost second = labelled@;
    egress.push(labelled);
    proof {
        assert(jsons(egress@) =~= before.push(first).push(second));
    }
    policy(
        base_metadata,
        "allow-restate-egress",
        label_selector(base_metadata).value(),
        &one_text("Egress"),
        Some(Value::array(egress)),
        None,
    )
}

/// The operator, where it can be found.
pub open spec fn operator_peer(settings: OperatorSettings) -> Option<Json> {
    match (
        settings.operator_namespace,
        settings.operator_label_name,
        settings.operator_label_value,
    ) {
        (Some(ns), Some(name), Some(value)) => Some(
            pods_json(one_label(NAMESPACE_NAME_LABEL@, ns@), one_label(name@, value@)),
        ),
        _ => None,
    }
}

/// The peers that may reach a port, by what the user says of each.
pub open spec fn peers_of(peers: Option<Vec<Value>>) -> Seq<Json> {
    match peers {
        Some(p) => jsons(p@),
        None => Seq::empty(),
    }
}

/// Who may reach the admin port: those that the user allows, and the operator where it may.
pub open spec fn admin_peers(
    settings: OperatorSettings,
    peers: Option<RestateClusterNetworkPeers>,
    allow_operator: bool,
) -> Option<Seq<Json>> {
    let asked = match peers {
        Some(p) => p.admin,
        None => None,
    };
    match operator_peer(settings) {
        Some(operator) => if allow_operator {
            Some(peers_of(asked).push(operator))
        } else {
            opt_jsons(asked)
        },
        None => opt_jsons(asked),
    }
}

/// Who may reach the ports of the nodes: those that the user allows to read the metrics, and the
/// nodes themselves, which talk to each other there.
pub open spec fn node_peers(
    namespace: Seq<char>,
    base: MetaView,
    peers: Option<RestateClusterNetworkPeers>,
) -> Seq<Json> {
    peers_of(metrics_asked(peers)).push(own_nodes_json(namespace, base))
}

/// Who the user allows to read the metrics.
pub open spec fn metrics_asked(peers: Option<RestateClusterNetworkPeers>) -> Option<Vec<Value>> {
    match peers {
        Some(p) => p.metrics,
        None => None,
    }
}

/// The steps that bring the NetworkPolicies of a cluster about. Everything is denied before
/// anything is allowed.
pub open spec fn network_steps(
    settings: OperatorSettings,
    namespace: Seq<char>,
    base: MetaView,
    peers: Option<RestateClusterNetworkPeers>,
    allow_operator: bool,
    rules: Option<Vec<NetworkPolicyEgressRule>>,
    aws_pod_identity: bool,
) -> Seq<StepView> {
    seq![
        StepView::Apply(deny_all_json(base)),
        StepView::Apply(allow_dns_json(base)),
        StepView::Apply(allow_public_json(base)),
        if aws_pod_identity {
            StepView::Apply(allow_aws_pod_identity_json(base))
        } else {
            StepView::Delete {
                kind: OwnedKind::NetworkPolicy,
                name: AWS_POD_IDENTITY_POLICY_NAME@,
            }
        },
        StepView::Apply(allow_egress_json(namespace, base, rules)),
        StepView::Apply(
            allow_access_json(
                "ingress"@,
                8080,
                base,
                match peers {
                    Some(p) => opt_jsons(p.ingress),
                    None => None,
                },
            ),
        ),
        StepView::Apply(
            allow_access_json("admin"@, 9070, base, admin_peers(settings, peers, allow_operator)),
        ),
        StepView::Apply(
            allow_access_json("metrics"@, 5122, base, Some(node_peers(namespace, base, peers))),
        ),
    ]
}

fn collect_admin_peers(
    settings: &OperatorSettings,
    peers: &Option<RestateClusterNetworkPeers>,
    allow_operator: bool,
) -> (r: Option<Vec<Value>>)
    ensures
        opt_jsons(r) == admin_peers(*settings, *peers, allow_operator),
{
    let asked: Option<Vec<Value>> = match peers {
        Some(p) => duplicate_opt_values(&p.admin),
        None => None,
    };
    if !allow_operator {
        return asked;
    }
    match (
        &settings.operator_namespace,
        &settings.operator_label_name,
        &settings.operator_label_value,
    ) {
        (Some(ns), Some(name), Some(value)) => {
            let mut out: Vec<Value> = match asked {
                Some(a) => a,
                None => Vec::new(),
            };
            proof {
                assert(asked is None ==> jsons(out@) =~= Seq::empty());
            }
            let ghost before = jsons(out@);
            let operator = pods_value(
                one_label_selector(NAMESPACE_NAME_LABEL, ns.as_str()),
                one_label_selector(name.as_str(), value.as_str()),
            );
            let ghost peer = operator@;
            out.push(operator);
            proof {
                assert(jsons(out@) =~= before.push(peer));
            }
            Some(out)
        },
        _ => asked,
    }
}

/// The steps that bring the NetworkPolicies of a cluster about.
pub fn reconcile_network_policies(
    settings: &OperatorSettings,
    namespace: &str,
    base_metadata: &ObjectMeta,
    network_peers: &Option<RestateClusterNetworkPeers>,
    allow_operator_access_to_admin: bool,
    network_egress_rules: &Option<Vec<NetworkPolicyEgressRule>>,
    aws_pod_identity_enabled: bool,
) -> (r: Vec<ClusterStep>)
    requires
        base_metadata.name is Some,
    ensures
        step_views(r@) == network_steps(
            *settings,
            namespace@,
            base_metadata@,
            *network_peers,
            allow_operator_access_to_admin,
            *network_egress_rules,
            aws_pod_identity_enabled,
        ),
{
    let mut steps: Vec<ClusterStep> = Vec::new();
    proof {
        assert(step_views(steps@) =~= Seq::empty());
    }
    push_step(&mut steps, ClusterStep::Apply(deny_all(base_metadata)));
    push_step(&mut steps, ClusterStep::Apply(allow_dns(base_metadata)));
    push_step(&mut steps, ClusterStep::Apply(allow_public(base_metadata)));
    if aws_pod_identity_enabled {
        push_step(&mut steps, ClusterStep::Apply(allow_aws_pod_identity(base_metadata)));
    } else {
        push_step(
            &mut steps,
            ClusterStep::Delete {
                kind: OwnedKind::NetworkPolicy,
                name: AWS_POD_IDENTITY_POLICY_NAME,
            },
        );
    }
    push_step(
        &mut steps,
        ClusterStep::Apply(allow_egress(namespace, base_metadata, network_egress_rules)),
    );
    let ingress: Option<Vec<Value>> = match network_peers {
        Some(p) => duplicate_opt_values(&p.ingress),
        None => None,
    };
    push_step(
        &mut steps,
        ClusterStep::Apply(allow_access("ingress", 8080, base_metadata, ingress)),
    );
    let admin = collect_admin_peers(settings, network_peers, allow_operator_access_to_admin);
    push_step(&mut steps, ClusterStep::Apply(allow_access("admin", 9070, base_metadata, admin)));
    let mut nodes: Vec<Value> = match network_peers {
        Some(p) => match &p.metrics {
            Some(m) => duplicate_values(m),
            None => Vec::new(),
        },
        None => Vec::new(),
    };
    let ghost before = jsons(nodes@);
    let own = own_nodes(namespace, base_metadata);
    let ghost own_view = own@;
    nodes.push(own);
    proof {
        assert(before =~= peers_of(metrics_asked(*network_peers)));
        assert(jsons(nodes@) =~= before.push(own_view));
    }
    push_step(
        &mut steps,
        ClusterStep::Apply(allow_access("metrics", 5122, base_metadata, Some(nodes))),
    );
    proof {
        assert(step_views(steps@) =~= network_steps(
            *settings,
            namespace@,
            base_metadata@,
            *network_peers,
            allow_operator_access_to_admin,
            *network_egress_rules,
            aws_pod_identity_enabled,
        ));
    }
    steps
}

/// Whatever a user allows, the nodes of a cluster can talk to each other: they may reach each other,
/// and let each other in.
pub proof fn nodes_can_talk(
    namespace: Seq<char>,
    base: MetaView,
    peers: Option<RestateClusterNetworkPeers>,
    rules: Option<Vec<NetworkPolicyEgressRule>>,
)
    ensures
        node_peers(namespace, base, peers).contains(own_nodes_json(namespace, base)),
        egress_rules(namespace, base, rules).contains(
            egress_json(
                Some(seq![own_nodes_json(namespace, base)]),
                Some(seq![port_json("TCP"@, 5122)]),
            ),
        ),
{
    let p = node_peers(namespace, base, peers);
    assert(p[p.len() - 1] == own_nodes_json(namespace, base));
    let rule = egress_json(
        Some(seq![own_nodes_json(namespace, base)]),
        Some(seq![port_json("TCP"@, 5122)]),
    );
    let e = egress_rules(namespace, base, rules);
    assert(e[e.len() - 2] == rule);
}

/// An operator that may reach the admin port and can be found is let in beside everyone that the
/// user lets in.
pub proof fn operator_reaches_the_admin_port(
    settings: OperatorSettings,
    peers: Option<RestateClusterNetworkPeers>,
)
    requires
        operator_peer(settings) is Some,
    ensures
        admin_peers(settings, peers, true) is Some,
        admin_peers(settings, peers, true)->0.contains(operator_peer(settings)->0),
{
    let p = admin_peers(settings, peers, true)->0;
    assert(p[p.len() - 1] == operator_peer(settings)->0);
}

} // verus!
