//! The Service of a version.

use vstd::prelude::*;
use vstd::string::*;

use crate::json::{no_fields, with_field, Json, Object, Value};
use crate::manifest::{manifest, manifest_json};
use crate::meta::{
    entries, map_or_empty, opt_map, opt_map_json, opt_map_value, opt_owner_views, opt_text_json,
    opt_text_value, owner_views, MetaView, ObjectMeta, OwnerReference, OwnerView,
};
use crate::ssa::{
    annotations_need_apply, labels_need_apply, no_apply_after_an_apply, owns, would_change,
    ANNOTATION_FIELDS, LABEL_FIELDS,
};
use crate::string_map::StringMap;
use crate::text::{opt_text, str_eq};

verus! {

/// The port that a service listens on unless a container says otherwise.
pub const DEFAULT_RESTATE_PORT: i32 = 9080;

/// The field manager of Services.
pub const SERVICE_FIELD_MANAGER: &'static str = "restate-operator";

/// A port by number or by name.
#[derive(Debug)]
pub enum IntOrString {
    Int(i32),
    Name(String),
}

/// A port by number or by name.
pub enum PortView {
    Int(int),
    Name(Seq<char>),
}

/// A port of a Service.
#[derive(Debug)]
pub struct ServicePort {
    pub name: Option<String>,
    pub port: i32,
    pub protocol: Option<String>,
    pub target_port: Option<IntOrString>,
}

/// What the operator sets of a port of a Service.
pub struct ServicePortView {
    pub name: Option<Seq<char>>,
    pub port: int,
    pub protocol: Option<Seq<char>>,
    pub target_port: Option<PortView>,
}

/// What the operator sets of a Service.
#[derive(Debug)]
pub struct ServiceSpec {
    pub selector: Option<StringMap>,
    pub ports: Option<Vec<ServicePort>>,
    pub type_: Option<String>,
}

/// A Service.
#[derive(Debug)]
pub struct Service {
    pub metadata: ObjectMeta,
    pub spec: Option<ServiceSpec>,
}

/// A port of a container.
#[derive(Debug)]
pub struct ContainerPort {
    pub name: Option<String>,
    pub container_port: i32,
}

/// A container, as far as its ports go.
#[derive(Debug)]
pub struct PortedContainer {
    pub name: Option<String>,
    pub ports: Option<Vec<ContainerPort>>,
}

impl IntOrString {
    /// The port.
    pub open spec fn view(&self) -> PortView {
        match self {
            IntOrString::Int(i) => PortView::Int(*i as int),
            IntOrString::Name(s) => PortView::Name(s@),
        }
    }

    fn same(&self, other: &IntOrString) -> (r: bool)
        ensures
            r == (self@ == other@),
    {
        match (self, other) {
            (IntOrString::Int(a), IntOrString::Int(b)) => *a == *b,
            (IntOrString::Name(a), IntOrString::Name(b)) => str_eq(a.as_str(), b.as_str()),
            _ => false,
        }
    }
}

impl ServicePort {
    /// What the operator sets.
    pub open spec fn view(&self) -> ServicePortView {
        ServicePortView {
            name: opt_text(self.name),
            port: self.port as int,
            protocol: opt_text(self.protocol),
            target_port: match self.target_port {
                Some(p) => Some(p@),
                None => None,
            },
        }
    }

    fn same(&self, other: &ServicePort) -> (r: bool)
        ensures
            r == (self@ == other@),
    {
        let target: bool = match (&self.target_port, &other.target_port) {
            (Some(a), Some(b)) => a.same(b),
            (None, None) => true,
            _ => false,
        };
        same_opt(&self.name, &other.name) && self.port == other.port && same_opt(
            &self.protocol,
            &other.protocol,
        ) && target
    }
}

fn same_opt(a: &Option<String>, b: &Option<String>) -> (r: bool)
    ensures
        r == (opt_text(*a) == opt_text(*b)),
{
    match (a, b) {
        (Some(x), Some(y)) => str_eq(x.as_str(), y.as_str()),
        (None, None) => true,
        _ => false,
    }
}

fn same_opt_map(a: &Option<StringMap>, b: &Option<StringMap>) -> (r: bool)
    ensures
        r == (opt_map(*a) == opt_map(*b)),
{
    match (a, b) {
        (Some(x), Some(y)) => x.same(y),
        (None, None) => true,
        _ => false,
    }
}

/// The ports, none where there is no list.
pub open spec fn port_views(ports: Option<Vec<ServicePort>>) -> Seq<ServicePortView> {
    match ports {
        Some(p) => Seq::new(p@.len(), |i: int| p@[i]@),
        None => Seq::empty(),
    }
}

/// The owners, none where there is no list.
pub open spec fn owners_of(meta: ObjectMeta) -> Seq<OwnerView> {
    match opt_owner_views(meta.owner_references) {
        Some(o) => o,
        None => Seq::empty(),
    }
}

/// Whether every element of one sequence is in another.
pub open spec fn all_in<T>(some: Seq<T>, all: Seq<T>) -> bool {
    forall|i: int| 0 <= i < some.len() ==> all.contains(#[trigger] some[i])
}

/// Whether applying a Service would change the live one, in what the operator sets of it. The
/// apiserver defaults the rest, and other writers add labels, annotations and owners of their own.
pub open spec fn service_would_change(existing: Option<Service>, desired: Service) -> bool {
    match existing {
        None => true,
        Some(e) => {
            ||| would_change(
                e.metadata,
                SERVICE_FIELD_MANAGER@,
                LABEL_FIELDS@,
                entries(opt_map(e.metadata.labels)),
                entries(opt_map(desired.metadata.labels)),
            )
            ||| would_change(
                e.metadata,
                SERVICE_FIELD_MANAGER@,
                ANNOTATION_FIELDS@,
                entries(opt_map(e.metadata.annotations)),
                entries(opt_map(desired.metadata.annotations)),
            )
            ||| !all_in(owners_of(desired.metadata), owners_of(e.metadata))
            ||| e.spec is None
            ||| desired.spec is None
            ||| opt_map(e.spec->0.selector) != opt_map(desired.spec->0.selector)
            ||| opt_text(e.spec->0.type_) != opt_text(desired.spec->0.type_)
            ||| !all_in(port_views(desired.spec->0.ports), port_views(e.spec->0.ports))
        },
    }
}

/// A Service that has been applied is left alone, whatever other writers have added to its metadata
/// and the apiserver to its ports and owners.
pub proof fn applied_services_are_left_alone(live: Service, desired: Service)
    requires
        entries(opt_map(desired.metadata.labels)).submap_of(entries(opt_map(live.metadata.labels))),
        entries(opt_map(desired.metadata.annotations)).submap_of(
            entries(opt_map(live.metadata.annotations)),
        ),
        forall|k: Seq<char>| #[trigger]
            owns(live.metadata, SERVICE_FIELD_MANAGER@, LABEL_FIELDS@, k) ==> entries(
                opt_map(desired.metadata.labels),
            ).contains_key(k),
        forall|k: Seq<char>| #[trigger]
            owns(live.metadata, SERVICE_FIELD_MANAGER@, ANNOTATION_FIELDS@, k) ==> entries(
                opt_map(desired.metadata.annotations),
            ).contains_key(k),
        all_in(owners_of(desired.metadata), owners_of(live.metadata)),
        live.spec is Some && desired.spec is Some,
        opt_map(live.spec->0.selector) == opt_map(desired.spec->0.selector),
        opt_text(live.spec->0.type_) == opt_text(desired.spec->0.type_),
        all_in(port_views(desired.spec->0.ports), port_views(live.spec->0.ports)),
    ensures
        !service_would_change(Some(live), desired),
{
    no_apply_after_an_apply(
        live.metadata,
        SERVICE_FIELD_MANAGER@,
        LABEL_FIELDS@,
        entries(opt_map(live.metadata.labels)),
        entries(opt_map(desired.metadata.labels)),
    );
    no_apply_after_an_apply(
        live.metadata,
        SERVICE_FIELD_MANAGER@,
        ANNOTATION_FIELDS@,
        entries(opt_map(live.metadata.annotations)),
        entries(opt_map(desired.metadata.annotations)),
    );
}

fn owners_contained(desired: &Option<Vec<OwnerReference>>, existing: &Option<Vec<OwnerReference>>) -> (r:
    bool)
    ensures
        r == all_in(
            match opt_owner_views(*desired) {
                Some(o) => o,
                None => Seq::empty(),
            },
            match opt_owner_views(*existing) {
                Some(o) => o,
                None => Seq::empty(),
            },
        ),
{
    let wanted = match desired {
        None => {
            return true;
        },
        Some(d) => d,
    };
    let ghost all = match opt_owner_views(*existing) {
        Some(o) => o,
        None => Seq::empty(),
    };
    let ghost some = owner_views(wanted@);
    let mut i: usize = 0;
    while i < wanted.len()
        invariant
            i <= wanted.len(),
            some == owner_views(wanted@),
            opt_owner_views(*desired) == Some(some),
            all == (match opt_owner_views(*existing) {
                Some(o) => o,
                None => Seq::empty(),
            }),
            forall|j: int| 0 <= j < i ==> all.contains(#[trigger] some[j]),
        decreases wanted.len() - i,
    {
        let mut found: bool = false;
        match existing {
            None => {},
            Some(have) => {
                let mut k: usize = 0;
                while k < have.len()
                    invariant
                        k <= have.len(),
                        i < wanted.len(),
                        all == owner_views(have@),
                        found == exists|j: int| 0 <= j < k && #[trigger] all[j] == wanted@[i as int]@,
                    decreases have.len() - k,
                {
                    if have[k].same(&wanted[i]) {
                        found = true;
                        proof {
                            assert(all[k as int] == wanted@[i as int]@);
                        }
                    }
                    k = k + 1;
                }
            },
        }
        proof {
            assert(some[i as int] == wanted@[i as int]@);
            assert(found == all.contains(some[i as int]));
        }
        if !found {
            return false;
        }
        i = i + 1;
    }
    true
}

fn ports_contained(desired: &Option<Vec<ServicePort>>, existing: &Option<Vec<ServicePort>>) -> (r:
    bool)
    ensures
        r == all_in(port_views(*desired), port_views(*existing)),
{
    let wanted = match desired {
        None => {
            return true;
        },
        Some(d) => d,
    };
    let ghost all = port_views(*existing);
    let ghost some = port_views(*desired);
    let mut i: usize = 0;
    while i < wanted.len()
        invariant
            i <= wanted.len(),
            *desired == Some(*wanted),
            some == port_views(*desired),
            all == port_views(*existing),
            forall|j: int| 0 <= j < i ==> all.contains(#[trigger] some[j]),
        decreases wanted.len() - i,
    {
        let mut found: bool = false;
        match existing {
            None => {},
            Some(have) => {
                let mut k: usize = 0;
                while k < have.len()
                    invariant
                        k <= have.len(),
                        i < wanted.len(),
                        *existing == Some(*have),
                        all == port_views(*existing),
                        found == exists|j: int| 0 <= j < k && #[trigger] all[j] == wanted@[i as int]@,
                    decreases have.len() - k,
                {
                    if have[k].same(&wanted[i]) {
                        found = true;
                        proof {
                            assert(all[k as int] == wanted@[i as int]@);
                        }
                    }
                    k = k + 1;
                }
            },
        }
        proof {
            assert(some[i as int] == wanted@[i as int]@);
            assert(found == all.contains(some[i as int]));
        }
        if !found {
            return false;
        }
        i = i + 1;
    }
    true
}

/// Whether applying a Service would change the live one.
pub fn needs_apply(existing: Option<&Service>, desired: &Service) -> (r: bool)
    ensures
        r == service_would_change(
            match existing {
                Some(e) => Some(*e),
                None => None,
            },
            *desired,
        ),
{
    let existing = match existing {
        None => {
            return true;
        },
        Some(e) => e,
    };
    let labels = map_or_empty(&desired.metadata.labels);
    if labels_need_apply(&existing.metadata, SERVICE_FIELD_MANAGER, &labels) {
        return true;
    }
    let annotations = map_or_empty(&desired.metadata.annotations);
    if annotations_need_apply(&existing.metadata, SERVICE_FIELD_MANAGER, &annotations) {
        return true;
    }
    if !owners_contained(&desired.metadata.owner_references, &existing.metadata.owner_references) {
        return true;
    }
    match (&existing.spec, &desired.spec) {
        (Some(e), Some(d)) => {
            !same_opt_map(&e.selector, &d.selector) || !same_opt(&e.type_, &d.type_)
                || !ports_contained(&d.ports, &e.ports)
        },
        _ => true,
    }
}

/// All ports of the first `n` containers, in their order.
pub open spec fn all_ports(containers: Seq<PortedContainer>, n: nat) -> Seq<ContainerPort>
    decreases n,
{
    if n == 0 || n > containers.len() {
        Seq::empty()
    } else {
        all_ports(containers, (n - 1) as nat) + match containers[n - 1].ports {
            Some(p) => p@,
            None => Seq::empty(),
        }
    }
}

/// Whether a port is the one of Restate.
pub open spec fn named_restate(p: ContainerPort) -> bool {
    opt_text(p.name) == Some("restate"@)
}

/// Whether a number is the port to expose: the first that is named `restate`, else the first, else
/// the default.
pub open spec fn is_service_port(ports: Seq<ContainerPort>, port: i32) -> bool {
    if exists|i: int| 0 <= i < ports.len() && named_restate(#[trigger] ports[i]) {
        exists|i: int|
            0 <= i < ports.len() && named_restate(#[trigger] ports[i]) && ports[i].container_port
                == port && forall|j: int| 0 <= j < i ==> !named_restate(#[trigger] ports[j])
    } else if ports.len() > 0 {
        port == ports[0].container_port
    } else {
        port == DEFAULT_RESTATE_PORT
    }
}

fn is_named_restate(p: &ContainerPort) -> (r: bool)
    ensures
        r == named_restate(*p),
{
    match &p.name {
        Some(n) => str_eq(n.as_str(), "restate"),
        None => false,
    }
}

/// Finds the port to expose among the containers of a pod.
pub fn find_service_port(containers: &Vec<PortedContainer>) -> (r: i32)
    ensures
        is_service_port(all_ports(containers@, containers@.len()), r),
{
    let ghost all = all_ports(containers@, containers@.len());
    let mut first: Option<i32> = None;
    let mut i: usize = 0;
    while i < containers.len()
        invariant
            i <= containers.len(),
            all == all_ports(containers@, containers@.len()),
            ({
                let seen = all_ports(containers@, i as nat);
                &&& forall|j: int| 0 <= j < seen.len() ==> !named_restate(#[trigger] seen[j])
                &&& first is None <==> seen.len() == 0
                &&& first is Some ==> first->0 == seen[0].container_port
            }),
        decreases containers.len() - i,
    {
        match &containers[i].ports {
            None => {
                proof {
                    assert(all_ports(containers@, (i + 1) as nat) =~= all_ports(
                        containers@,
                        i as nat,
                    ));
                }
            },
            Some(ports) => {
                let ghost seen = all_ports(containers@, i as nat);
                let mut k: usize = 0;
                proof {
                    assert(all_ports(containers@, (i + 1) as nat) == seen + ports@);
                }
                while k < ports.len()
                    invariant
                        k <= ports.len(),
                        i < containers.len(),
                        all == all_ports(containers@, containers@.len()),
                        all_ports(containers@, (i + 1) as nat) == seen + ports@,
                        forall|j: int| 0 <= j < seen.len() ==> !named_restate(#[trigger] seen[j]),
                        forall|j: int| 0 <= j < k ==> !named_restate(#[trigger] ports@[j]),
                        first is None <==> seen.len() + k == 0,
                        first is Some ==> first->0 == (seen + ports@)[0].container_port,
                    decreases ports.len() - k,
                {
                    if is_named_restate(&ports[k]) {
                        proof {
                            lemma_ports_prefix(containers@, (i + 1) as nat, containers@.len());
                            let at = seen.len() + k;
                            assert(all[at as int] == ports@[k as int]);
                            assert forall|j: int| 0 <= j < at implies !named_restate(
                                #[trigger] all[j],
                            ) by {
                                if j < seen.len() {
                                    assert(all[j] == seen[j]);
                                } else {
                                    assert(all[j] == ports@[j - seen.len()]);
                                }
                            }
                        }
                        return ports[k].container_port;
                    }
                    if first.is_none() {
                        first = Some(ports[k].container_port);
                    }
                    k = k + 1;
                }
                proof {
                    let now = all_ports(containers@, (i + 1) as nat);
                    assert forall|j: int| 0 <= j < now.len() implies !named_restate(
                        #[trigger] now[j],
                    ) by {
                        if j < seen.len() {
                            assert(now[j] == seen[j]);
                        } else {
                            assert(now[j] == ports@[j - seen.len()]);
                        }
                    }
                }
            },
        }
        i = i + 1;
    }
    match first {
        Some(p) => p,
        None => DEFAULT_RESTATE_PORT,
    }
}

proof fn lemma_ports_prefix(containers: Seq<PortedContainer>, m: nat, n: nat)
    requires
        m <= n <= containers.len(),
    ensures
        all_ports(containers, m).len() <= all_ports(containers, n).len(),
        forall|j: int|
            0 <= j < all_ports(containers, m).len() ==> #[trigger] all_ports(containers, n)[j]
                == all_ports(containers, m)[j],
    decreases n - m,
{
    if m < n {
        lemma_ports_prefix(containers, m, (n - 1) as nat);
    }
}

/// The Service of a version: it always exposes 9080, whatever port the pods listen on.
pub fn build_service(
    namespace: &str,
    versioned_name: &str,
    selector: &StringMap,
    labels: &StringMap,
    annotations: &StringMap,
    owner: &OwnerReference,
    target_port: i32,
) -> (r: Service)
    ensures
        r.metadata@ == (MetaView {
            name: Some(versioned_name@),
            namespace: Some(namespace@),
            uid: None,
            labels: Some(labels@),
            annotations: Some(annotations@),
            owner_references: Some(seq![owner@]),
        }),
        r.spec matches Some(s) && opt_map(s.selector) == Some(selector@) && opt_text(s.type_)
            == Some("ClusterIP"@) && port_views(s.ports) == seq![
            ServicePortView {
                name: Some("restate"@),
                port: 9080,
                protocol: Some("TCP"@),
                target_port: Some(PortView::Int(target_port as int)),
            },
        ],
{
    let mut ports: Vec<ServicePort> = Vec::new();
    ports.push(
        ServicePort {
            name: Some("restate".to_owned()),
            port: 9080,
            protocol: Some("TCP".to_owned()),
            target_port: Some(IntOrString::Int(target_port)),
        },
    );
    let mut owners: Vec<OwnerReference> = Vec::new();
    owners.push(owner.duplicate());
    let mut metadata = ObjectMeta::empty();
    metadata.name = Some(versioned_name.to_owned());
    metadata.namespace = Some(namespace.to_owned());
    metadata.labels = Some(labels.duplicate());
    metadata.annotations = Some(annotations.duplicate());
    metadata.owner_references = Some(owners);
    proof {
        assert(metadata@.owner_references->0 =~= seq![owner@]);
    }
    let spec = ServiceSpec {
        selector: Some(selector.duplicate()),
        ports: Some(ports),
        type_: Some("ClusterIP".to_owned()),
    };
    proof {
        assert(port_views(spec.ports) =~= seq![
            ServicePortView {
                name: Some("restate"@),
                port: 9080,
                protocol: Some("TCP"@),
                target_port: Some(PortView::Int(target_port as int)),
            },
        ]);
    }
    Service { metadata, spec: Some(spec) }
}

/// A port of a Service as JSON.
pub open spec fn service_port_json(p: ServicePortView) -> Json {
    let a = with_field(no_fields(), "name"@, opt_text_json(p.name)).insert(
        "port"@,
        Json::Int(p.port),
    );
    let b = with_field(a, "protocol"@, opt_text_json(p.protocol));
    Json::Object(
        with_field(
            b,
            "targetPort"@,
            match p.target_port {
                Some(PortView::Int(n)) => Some(Json::Int(n)),
                Some(PortView::Name(n)) => Some(Json::Text(n)),
                None => None,
            },
        ),
    )
}

/// The specification of a Service as JSON.
pub open spec fn service_spec_json(spec: ServiceSpec) -> Json {
    let a = with_field(
        no_fields(),
        "ports"@,
        match spec.ports {
            Some(_) => Some(
                Json::Array(
                    port_views(spec.ports).map_values(|p: ServicePortView| service_port_json(p)),
                ),
            ),
            None => None,
        },
    );
    let b = with_field(a, "selector"@, opt_map_json(opt_map(spec.selector)));
    Json::Object(with_field(b, "type"@, opt_text_json(opt_text(spec.type_))))
}

impl ServicePort {
    fn value(&self) -> (r: Value)
        ensures
            r@ == service_port_json(self@),
    {
        let mut o = Object::new();
        o.put_opt("name", opt_text_value(&self.name));
        o.put("port", Value::Int(self.port as i64));
        o.put_opt("protocol", opt_text_value(&self.protocol));
        let target: Option<Value> = match &self.target_port {
            Some(IntOrString::Int(n)) => Some(Value::Int(*n as i64)),
            Some(IntOrString::Name(n)) => Some(Value::text(n.as_str())),
            None => None,
        };
        o.put_opt("targetPort", target);
        Value::Object(o)
    }
}

impl ServiceSpec {
    fn value(&self) -> (r: Value)
        ensures
            r@ == service_spec_json(*self),
    {
        let mut o = Object::new();
        match &self.ports {
            Some(ports) => {
                let mut items: Vec<Value> = Vec::new();
                let mut i: usize = 0;
                while i < ports.len()
                    invariant
                        i <= ports.len(),
                        items@.len() == i,
                        forall|j: int|
                            0 <= j < i ==> (#[trigger] items@[j])@ == service_port_json(ports@[j]@),
                    decreases ports.len() - i,
                {
                    items.push(ports[i].value());
                    i = i + 1;
                }
                let list = Value::array(items);
                proof {
                    assert(list@->Array_0 =~= port_views(self.ports).map_values(
                        |p: ServicePortView| service_port_json(p),
                    ));
                }
                o.put("ports", list);
            },
            None => {},
        }
        o.put_opt("selector", opt_map_value(&self.selector));
        o.put_opt("type", opt_text_value(&self.type_));
        Value::Object(o)
    }
}

impl Service {
    /// The Service as JSON.
    pub fn value(&self) -> (r: Value)
        ensures
            r@ == manifest_json(
                "v1"@,
                "Service"@,
                self.metadata@,
                match self.spec {
                    Some(s) => Some(service_spec_json(s)),
                    None => None,
                },
            ),
    {
        let spec: Option<Value> = match &self.spec {
            Some(s) => Some(s.value()),
            None => None,
        };
        manifest("v1", "Service", &self.metadata, spec)
    }
}

} // verus!
