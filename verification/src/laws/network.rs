//! Who may talk to whom in the namespace of a cluster.

use vstd::prelude::*;

use crate::json::{at2, field, inner, items, jsons, no_fields, Json};
use crate::laws::documents::{holds_texts, lists_texts, what_a_selector_says};
use crate::meta::{meta_json, MetaView};
use crate::restatecluster::labels::{cluster_selector, object_view};
use crate::restatecluster::network_policies::{
    addresses_json, admin_peers, allow_access_json, allow_aws_pod_identity_json, allow_dns_json,
    allow_egress_json, allow_public_json, deny_all_json, egress_json, egress_rules, network_steps,
    node_peers, one_label, operator_peer, opt_jsons, own_nodes_json, pods_json, policy_json,
    port_json, user_egress_json,
};
use crate::restatecluster::resource::{
    NetworkPolicyEgressRule, OperatorSettings, RestateClusterNetworkPeers,
};
use crate::restatecluster::steps::{OwnedKind, StepView};

verus! {

/// Whether a document selects by one label.
pub open spec fn asks_for(selector: Option<Json>, key: Seq<char>, value: Seq<char>) -> bool {
    &&& selector is Some
    &&& holds_texts(
        inner(selector, "matchLabels"@),
        Map::<Seq<char>, Seq<char>>::empty().insert(key, value),
    )
    &&& inner(selector, "matchExpressions"@) is None
}

/// Whether a document is a port.
pub open spec fn is_port(j: Json, protocol: Seq<char>, port: int) -> bool {
    field(j, "port"@) == Some(Json::Int(port)) && field(j, "protocol"@) == Some(
        Json::Text(protocol),
    )
}

/// A selector by one label asks for it and for nothing else.
pub proof fn what_one_label_asks(key: Seq<char>, value: Seq<char>)
    ensures
        asks_for(Some(one_label(key, value)), key, value),
{
    what_a_selector_says(Some(Map::<Seq<char>, Seq<char>>::empty().insert(key, value)), None);
}

/// A port says its number and its protocol, pods in namespaces say both selectors, and addresses say
/// which are left out.
pub proof fn what_peers_say(
    protocol: Seq<char>,
    port: int,
    namespaces: Json,
    pods: Json,
    cidr: Seq<char>,
    except: Option<Seq<Seq<char>>>,
)
    ensures
        is_port(port_json(protocol, port), protocol, port),
        field(pods_json(namespaces, pods), "namespaceSelector"@) == Some(namespaces),
        field(pods_json(namespaces, pods), "podSelector"@) == Some(pods),
        field(pods_json(namespaces, pods), "ipBlock"@) is None,
        at2(addresses_json(cidr, except), "ipBlock"@, "cidr"@) == Some(Json::Text(cidr)),
        except is None ==> at2(addresses_json(cidr, except), "ipBlock"@, "except"@) is None,
        except matches Some(e) ==> at2(addresses_json(cidr, except), "ipBlock"@, "except"@) is Some
            && lists_texts(at2(addresses_json(cidr, except), "ipBlock"@, "except"@)->0, e),
        field(addresses_json(cidr, except), "podSelector"@) is None,
        field(addresses_json(cidr, except), "namespaceSelector"@) is None,
{
    reveal_strlit("port");
    reveal_strlit("protocol");
    reveal_strlit("namespaceSelector");
    reveal_strlit("podSelector");
    reveal_strlit("ipBlock");
    reveal_strlit("cidr");
    reveal_strlit("except");
    assert("port"@.len() == 4);
    assert("protocol"@.len() == 8);
    assert("namespaceSelector"@.len() == 17);
    assert("podSelector"@.len() == 11);
    assert("ipBlock"@.len() == 7);
    assert("cidr"@.len() == 4);
    assert("except"@.len() == 6);
    assert("port"@[0] == 'p');
    assert("cidr"@[0] == 'c');
}

/// A rule on what may be reached says the peers and the ports where it is given them, and leaves open
/// what it is not given.
pub proof fn what_an_egress_rule_says(to: Option<Seq<Json>>, ports: Option<Seq<Json>>)
    ensures
        to is None ==> field(egress_json(to, ports), "to"@) is None,
        to matches Some(t) ==> field(egress_json(to, ports), "to"@) == Some(Json::Array(t)),
        ports is None ==> field(egress_json(to, ports), "ports"@) is None,
        ports matches Some(p) ==> field(egress_json(to, ports), "ports"@) == Some(Json::Array(p)),
{
    reveal_strlit("to");
    reveal_strlit("ports");
    assert("to"@.len() == 2);
    assert("ports"@.len() == 5);
}

/// A policy says which pods it is about, and what it rules.
pub proof fn what_a_policy_says(
    base: MetaView,
    name: Seq<char>,
    pods: Json,
    types: Seq<Seq<char>>,
    egress: Option<Json>,
    ingress: Option<Json>,
)
    ensures
        ({
            let j = policy_json(base, name, pods, types, egress, ingress);
            &&& field(j, "apiVersion"@) == Some(Json::Text("networking.k8s.io/v1"@))
            &&& field(j, "kind"@) == Some(Json::Text("NetworkPolicy"@))
            &&& field(j, "metadata"@) == Some(meta_json(object_view(base, name)))
            &&& at2(j, "spec"@, "podSelector"@) == Some(pods)
            &&& at2(j, "spec"@, "policyTypes"@) is Some
            &&& lists_texts(at2(j, "spec"@, "policyTypes"@)->0, types)
            &&& at2(j, "spec"@, "egress"@) == egress
            &&& at2(j, "spec"@, "ingress"@) == ingress
        }),
{
    reveal_strlit("apiVersion");
    reveal_strlit("kind");
    reveal_strlit("metadata");
    reveal_strlit("spec");
    reveal_strlit("podSelector");
    reveal_strlit("policyTypes");
    reveal_strlit("egress");
    reveal_strlit("ingress");
    assert("apiVersion"@.len() == 10);
    assert("kind"@.len() == 4);
    assert("metadata"@.len() == 8);
    assert("spec"@.len() == 4);
    assert("podSelector"@.len() == 11);
    assert("policyTypes"@.len() == 11);
    assert("egress"@.len() == 6);
    assert("ingress"@.len() == 7);
    assert("kind"@[0] == 'k');
    assert("spec"@[0] == 's');
    assert("podSelector"@[2] == 'd');
    assert("policyTypes"@[2] == 'l');
}

/// At first nothing in the namespace may talk to anything, either way.
pub proof fn everything_is_shut_off_first(base: MetaView)
    ensures
        ({
            let j = deny_all_json(base);
            &&& field(j, "metadata"@) == Some(meta_json(object_view(base, "deny-all"@)))
            &&& at2(j, "spec"@, "podSelector"@) == Some(Json::Object(no_fields()))
            &&& at2(j, "spec"@, "policyTypes"@) is Some
            &&& lists_texts(at2(j, "spec"@, "policyTypes"@)->0, seq!["Egress"@, "Ingress"@])
            &&& at2(j, "spec"@, "egress"@) is None
            &&& at2(j, "spec"@, "ingress"@) is None
        }),
{
    what_a_policy_says(
        base,
        "deny-all"@,
        Json::Object(no_fields()),
        seq!["Egress"@, "Ingress"@],
        None,
        None,
    );
}

/// Every pod may ask the name service of the cluster, over both protocols.
pub proof fn names_can_be_looked_up(base: MetaView)
    ensures
        ({
            let j = allow_dns_json(base);
            let rules = items(at2(j, "spec"@, "egress"@));
            let to = items(field(rules[0], "to"@));
            let ports = items(field(rules[0], "ports"@));
            &&& field(j, "metadata"@) == Some(
                meta_json(object_view(base, "allow-egress-to-kube-dns"@)),
            )
            &&& at2(j, "spec"@, "podSelector"@) == Some(Json::Object(no_fields()))
            &&& lists_texts(at2(j, "spec"@, "policyTypes"@)->0, seq!["Egress"@])
            &&& at2(j, "spec"@, "ingress"@) is None
            &&& rules.len() == 1 && to.len() == 1 && ports.len() == 2
            &&& asks_for(
                field(to[0], "namespaceSelector"@),
                "kubernetes.io/metadata.name"@,
                "kube-system"@,
            )
            &&& asks_for(field(to[0], "podSelector"@), "k8s-app"@, "kube-dns"@)
            &&& is_port(ports[0], "UDP"@, 53)
            &&& is_port(ports[1], "TCP"@, 53)
        }),
{
    let ns = one_label("kubernetes.io/metadata.name"@, "kube-system"@);
    let dns = one_label("k8s-app"@, "kube-dns"@);
    what_one_label_asks("kubernetes.io/metadata.name"@, "kube-system"@);
    what_one_label_asks("k8s-app"@, "kube-dns"@);
    what_peers_say("UDP"@, 53, ns, dns, ""@, None);
    what_peers_say("TCP"@, 53, ns, dns, ""@, None);
    let to = seq![pods_json(ns, dns)];
    let ports = seq![port_json("UDP"@, 53), port_json("TCP"@, 53)];
    what_an_egress_rule_says(Some(to), Some(ports));
    let rules = seq![egress_json(Some(to), Some(ports))];
    what_a_policy_says(
        base,
        "allow-egress-to-kube-dns"@,
        Json::Object(no_fields()),
        seq!["Egress"@],
        Some(Json::Array(rules)),
        None,
    );
    assert(allow_dns_json(base) == policy_json(
        base,
        "allow-egress-to-kube-dns"@,
        Json::Object(no_fields()),
        seq!["Egress"@],
        Some(Json::Array(rules)),
        None,
    ));
    assert(items(at2(allow_dns_json(base), "spec"@, "egress"@)) == rules);
}

/// The nodes may reach every public address, and no private or local one.
pub proof fn public_addresses_can_be_reached(base: MetaView)
    ensures
        ({
            let j = allow_public_json(base);
            let rules = items(at2(j, "spec"@, "egress"@));
            let to = items(field(rules[0], "to"@));
            &&& field(j, "metadata"@) == Some(
                meta_json(object_view(base, "allow-restate-egress-to-public-internet"@)),
            )
            &&& at2(j, "spec"@, "podSelector"@) == Some(cluster_selector(base.name->0))
            &&& lists_texts(at2(j, "spec"@, "policyTypes"@)->0, seq!["Egress"@])
            &&& at2(j, "spec"@, "ingress"@) is None
            &&& rules.len() == 1 && to.len() == 2
            &&& field(rules[0], "ports"@) is None
            &&& at2(to[0], "ipBlock"@, "cidr"@) == Some(Json::Text("0.0.0.0/1"@))
            &&& at2(to[0], "ipBlock"@, "except"@) is Some
            &&& lists_texts(at2(to[0], "ipBlock"@, "except"@)->0, seq!["10.0.0.0/8"@])
            &&& at2(to[1], "ipBlock"@, "cidr"@) == Some(Json::Text("128.0.0.0/1"@))
            &&& at2(to[1], "ipBlock"@, "except"@) is Some
            &&& lists_texts(
                at2(to[1], "ipBlock"@, "except"@)->0,
                seq!["192.168.0.0/16"@, "172.16.0.0/12"@, "169.254.0.0/16"@],
            )
        }),
{
    let low = Some(seq!["10.0.0.0/8"@]);
    let high = Some(seq!["192.168.0.0/16"@, "172.16.0.0/12"@, "169.254.0.0/16"@]);
    let none = Json::Object(no_fields());
    what_peers_say(""@, 0, none, none, "0.0.0.0/1"@, low);
    what_peers_say(""@, 0, none, none, "128.0.0.0/1"@, high);
    let to = seq![addresses_json("0.0.0.0/1"@, low), addresses_json("128.0.0.0/1"@, high)];
    what_an_egress_rule_says(Some(to), None);
    let rules = seq![egress_json(Some(to), None)];
    what_a_policy_says(
        base,
        "allow-restate-egress-to-public-internet"@,
        cluster_selector(base.name->0),
        seq!["Egress"@],
        Some(Json::Array(rules)),
        None,
    );
    assert(allow_public_json(base) == policy_json(
        base,
        "allow-restate-egress-to-public-internet"@,
        cluster_selector(base.name->0),
        seq!["Egress"@],
        Some(Json::Array(rules)),
        None,
    ));
    assert(items(at2(allow_public_json(base), "spec"@, "egress"@)) == rules);
}

/// The nodes may reach the agent that hands out the credentials of their role.
pub proof fn credentials_can_be_fetched(base: MetaView)
    ensures
        ({
            let j = allow_aws_pod_identity_json(base);
            let rules = items(at2(j, "spec"@, "egress"@));
            let to = items(field(rules[0], "to"@));
            let ports = items(field(rules[0], "ports"@));
            &&& field(j, "metadata"@) == Some(
                meta_json(object_view(base, "allow-restate-egress-to-aws-pod-identity"@)),
            )
            &&& at2(j, "spec"@, "podSelector"@) == Some(cluster_selector(base.name->0))
            &&& lists_texts(at2(j, "spec"@, "policyTypes"@)->0, seq!["Egress"@])
            &&& at2(j, "spec"@, "ingress"@) is None
            &&& rules.len() == 1 && to.len() == 1 && ports.len() == 1
            &&& at2(to[0], "ipBlock"@, "cidr"@) == Some(Json::Text("169.254.170.23/32"@))
            &&& at2(to[0], "ipBlock"@, "except"@) is None
            &&& is_port(ports[0], "TCP"@, 80)
        }),
{
    let none = Json::Object(no_fields());
    what_peers_say("TCP"@, 80, none, none, "169.254.170.23/32"@, None);
    let to = seq![addresses_json("169.254.170.23/32"@, None)];
    let ports = seq![port_json("TCP"@, 80)];
    what_an_egress_rule_says(Some(to), Some(ports));
    let rules = seq![egress_json(Some(to), Some(ports))];
    what_a_policy_says(
        base,
        "allow-restate-egress-to-aws-pod-identity"@,
        cluster_selector(base.name->0),
        seq!["Egress"@],
        Some(Json::Array(rules)),
        None,
    );
    assert(allow_aws_pod_identity_json(base) == policy_json(
        base,
        "allow-restate-egress-to-aws-pod-identity"@,
        cluster_selector(base.name->0),
        seq!["Egress"@],
        Some(Json::Array(rules)),
        None,
    ));
    assert(items(at2(allow_aws_pod_identity_json(base), "spec"@, "egress"@)) == rules);
}

/// A port of the nodes is open to just the peers that are let in, and to no one where none are given.
pub proof fn who_is_let_in(
    port_name: Seq<char>,
    port: int,
    base: MetaView,
    peers: Option<Seq<Json>>,
)
    ensures
        ({
            let j = allow_access_json(port_name, port, base, peers);
            let rules = items(at2(j, "spec"@, "ingress"@));
            &&& field(j, "metadata"@) == Some(
                meta_json(object_view(base, "allow-"@ + port_name + "-access"@)),
            )
            &&& at2(j, "spec"@, "podSelector"@) == Some(cluster_selector(base.name->0))
            &&& at2(j, "spec"@, "policyTypes"@) is Some
            &&& lists_texts(at2(j, "spec"@, "policyTypes"@)->0, seq!["Ingress"@])
            &&& at2(j, "spec"@, "egress"@) is None
            &&& peers is None ==> at2(j, "spec"@, "ingress"@) is None
            &&& peers is Some ==> {
                &&& rules.len() == 1
                &&& field(rules[0], "from"@) == Some(Json::Array(peers->0))
                &&& items(field(rules[0], "ports"@)).len() == 1
                &&& is_port(items(field(rules[0], "ports"@))[0], "TCP"@, port)
            }
        }),
{
    reveal_strlit("from");
    reveal_strlit("ports");
    assert("from"@.len() == 4);
    assert("ports"@.len() == 5);
    let none = Json::Object(no_fields());
    what_peers_say("TCP"@, port, none, none, ""@, None);
    let ingress = at2(allow_access_json(port_name, port, base, peers), "spec"@, "ingress"@);
    what_a_policy_says(
        base,
        "allow-"@ + port_name + "-access"@,
        cluster_selector(base.name->0),
        seq!["Ingress"@],
        None,
        match peers {
            Some(p) => Some(
                Json::Array(
                    seq![
                        Json::Object(
                            no_fields().insert("from"@, Json::Array(p)).insert(
                                "ports"@,
                                Json::Array(seq![port_json("TCP"@, port)]),
                            ),
                        ),
                    ],
                ),
            ),
            None => None,
        },
    );
}

/// The nodes may reach what the user allows, each other, and the pods of all namespaces that ask to
/// be reached.
pub proof fn what_the_nodes_may_reach(
    namespace: Seq<char>,
    base: MetaView,
    rules: Option<Vec<NetworkPolicyEgressRule>>,
    i: int,
)
    ensures
        ({
            let j = allow_egress_json(namespace, base, rules);
            let all = items(at2(j, "spec"@, "egress"@));
            let n = if rules is Some {
                rules->0@.len() as int
            } else {
                0
            };
            let nodes = items(field(all[n], "to"@));
            let ports = items(field(all[n], "ports"@));
            let services = items(field(all[n + 1], "to"@));
            &&& field(j, "metadata"@) == Some(meta_json(object_view(base, "allow-restate-egress"@)))
            &&& at2(j, "spec"@, "podSelector"@) == Some(cluster_selector(base.name->0))
            &&& at2(j, "spec"@, "policyTypes"@) is Some
            &&& lists_texts(at2(j, "spec"@, "policyTypes"@)->0, seq!["Egress"@])
            &&& at2(j, "spec"@, "ingress"@) is None
            &&& all.len() == n + 2
            &&& 0 <= i < n ==> {
                let r = rules->0@[i];
                &&& r.to is None ==> field(all[i], "to"@) is None
                &&& r.to matches Some(t) ==> field(all[i], "to"@) == Some(Json::Array(jsons(t@)))
                &&& r.ports is None ==> field(all[i], "ports"@) is None
                &&& r.ports matches Some(p) ==> field(all[i], "ports"@) == Some(
                    Json::Array(jsons(p@)),
                )
            }
            &&& nodes.len() == 1 && ports.len() == 1
            &&& asks_for(
                field(nodes[0], "namespaceSelector"@),
                "kubernetes.io/metadata.name"@,
                namespace,
            )
            &&& field(nodes[0], "podSelector"@) == Some(cluster_selector(base.name->0))
            &&& is_port(ports[0], "TCP"@, 5122)
            &&& services.len() == 1 && field(all[n + 1], "ports"@) is None
            &&& field(services[0], "namespaceSelector"@) == Some(Json::Object(no_fields()))
            &&& asks_for(
                field(services[0], "podSelector"@),
                "allow.restate.dev/"@ + namespace,
                "true"@,
            )
        }),
{
    let none = Json::Object(no_fields());
    let own = one_label("kubernetes.io/metadata.name"@, namespace);
    let allowed = one_label("allow.restate.dev/"@ + namespace, "true"@);
    what_one_label_asks("kubernetes.io/metadata.name"@, namespace);
    what_one_label_asks("allow.restate.dev/"@ + namespace, "true"@);
    what_peers_say("TCP"@, 5122, own, cluster_selector(base.name->0), ""@, None);
    what_peers_say("TCP"@, 5122, none, allowed, ""@, None);
    let nodes = seq![pods_json(own, cluster_selector(base.name->0))];
    let ports = seq![port_json("TCP"@, 5122)];
    let services = seq![pods_json(none, allowed)];
    what_an_egress_rule_says(Some(nodes), Some(ports));
    what_an_egress_rule_says(Some(services), None);
    let all = egress_rules(namespace, base, rules);
    what_a_policy_says(
        base,
        "allow-restate-egress"@,
        cluster_selector(base.name->0),
        seq!["Egress"@],
        Some(Json::Array(all)),
        None,
    );
    let j = allow_egress_json(namespace, base, rules);
    assert(items(at2(j, "spec"@, "egress"@)) == all);
    let n = if rules is Some {
        rules->0@.len() as int
    } else {
        0
    };
    assert(all[n] == egress_json(Some(nodes), Some(ports)));
    assert(all[n + 1] == egress_json(Some(services), None));
    if 0 <= i < n {
        let r = rules->0@[i];
        assert(all[i] == user_egress_json(r));
        what_an_egress_rule_says(opt_jsons(r.to), opt_jsons(r.ports));
    }
}

/// The operator is found by the label of its pods in its own namespace, where it knows all of them.
pub proof fn where_the_operator_stands(settings: OperatorSettings)
    ensures
        ({
            let known = settings.operator_namespace is Some && settings.operator_label_name is Some
                && settings.operator_label_value is Some;
            &&& !known ==> operator_peer(settings) is None
            &&& known ==> operator_peer(settings) is Some && asks_for(
                field(operator_peer(settings)->0, "namespaceSelector"@),
                "kubernetes.io/metadata.name"@,
                settings.operator_namespace->0@,
            ) && asks_for(
                field(operator_peer(settings)->0, "podSelector"@),
                settings.operator_label_name->0@,
                settings.operator_label_value->0@,
            )
        }),
{
    if settings.operator_namespace is Some && settings.operator_label_name is Some
        && settings.operator_label_value is Some {
        let ns = settings.operator_namespace->0@;
        let name = settings.operator_label_name->0@;
        let value = settings.operator_label_value->0@;
        what_one_label_asks("kubernetes.io/metadata.name"@, ns);
        what_one_label_asks(name, value);
        what_peers_say(
            ""@,
            0,
            one_label("kubernetes.io/metadata.name"@, ns),
            one_label(name, value),
            ""@,
            None,
        );
    }
}

/// The admin port is open to those that the user lets in and, unless that is refused, to the operator.
pub proof fn who_reaches_the_admin_port(
    settings: OperatorSettings,
    peers: Option<RestateClusterNetworkPeers>,
    allow_operator: bool,
)
    ensures
        ({
            let asked = if peers is Some {
                peers->0.admin
            } else {
                None
            };
            let listed = if asked is Some {
                jsons(asked->0@)
            } else {
                Seq::empty()
            };
            let operator = operator_peer(settings);
            &&& allow_operator && operator is Some ==> admin_peers(settings, peers, allow_operator)
                == Some(listed.push(operator->0))
            &&& !allow_operator || operator is None ==> admin_peers(settings, peers, allow_operator)
                == (if asked is Some {
                Some(listed)
            } else {
                None
            })
        }),
{
}

/// The port of the metrics is open to those that the user lets in and to the nodes of the cluster.
pub proof fn who_reaches_the_metrics_port(
    namespace: Seq<char>,
    base: MetaView,
    peers: Option<RestateClusterNetworkPeers>,
)
    ensures
        ({
            let asked = if peers is Some {
                peers->0.metrics
            } else {
                None
            };
            let listed = if asked is Some {
                jsons(asked->0@)
            } else {
                Seq::empty()
            };
            let p = node_peers(namespace, base, peers);
            &&& p.len() == listed.len() + 1
            &&& p.drop_last() == listed
            &&& asks_for(
                field(p.last(), "namespaceSelector"@),
                "kubernetes.io/metadata.name"@,
                namespace,
            )
            &&& field(p.last(), "podSelector"@) == Some(cluster_selector(base.name->0))
        }),
{
    what_one_label_asks("kubernetes.io/metadata.name"@, namespace);
    what_peers_say(
        ""@,
        0,
        one_label("kubernetes.io/metadata.name"@, namespace),
        cluster_selector(base.name->0),
        ""@,
        None,
    );
    let asked = if peers is Some {
        peers->0.metrics
    } else {
        None
    };
    let listed = if asked is Some {
        jsons(asked->0@)
    } else {
        Seq::empty()
    };
    assert(node_peers(namespace, base, peers).drop_last() =~= listed);
    assert(node_peers(namespace, base, peers).last() == own_nodes_json(namespace, base));
}

/// The policies come in an order, the one that shuts everything off first; the one for credentials is
/// taken away where there is no role.
pub proof fn in_which_order_the_network_opens(
    settings: OperatorSettings,
    namespace: Seq<char>,
    base: MetaView,
    peers: Option<RestateClusterNetworkPeers>,
    allow_operator: bool,
    rules: Option<Vec<NetworkPolicyEgressRule>>,
    aws_pod_identity: bool,
)
    ensures
        ({
            let s = network_steps(
                settings,
                namespace,
                base,
                peers,
                allow_operator,
                rules,
                aws_pod_identity,
            );
            let ingress = if peers is Some && peers->0.ingress is Some {
                Some(jsons(peers->0.ingress->0@))
            } else {
                None
            };
            &&& s.len() == 8
            &&& s[0] == StepView::Apply(deny_all_json(base))
            &&& s[1] == StepView::Apply(allow_dns_json(base))
            &&& s[2] == StepView::Apply(allow_public_json(base))
            &&& aws_pod_identity ==> s[3] == StepView::Apply(allow_aws_pod_identity_json(base))
            &&& !aws_pod_identity ==> s[3] == (StepView::Delete {
                kind: OwnedKind::NetworkPolicy,
                name: "allow-restate-egress-to-aws-pod-identity"@,
            })
            &&& s[4] == StepView::Apply(allow_egress_json(namespace, base, rules))
            &&& s[5] == StepView::Apply(allow_access_json("ingress"@, 8080, base, ingress))
            &&& s[6] == StepView::Apply(
                allow_access_json(
                    "admin"@,
                    9070,
                    base,
                    admin_peers(settings, peers, allow_operator),
                ),
            )
            &&& s[7] == StepView::Apply(
                allow_access_json(
                    "metrics"@,
                    5122,
                    base,
                    Some(node_peers(namespace, base, peers)),
                ),
            )
        }),
{
}

} // verus!
