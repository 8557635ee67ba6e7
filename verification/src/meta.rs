//! Kubernetes object metadata.

use vstd::prelude::*;

use crate::json::{no_fields, with_field, Json, Object, Value};
use crate::json::{opt_json, text_array, text_object};
use crate::string_map::StringMap;
use crate::text::{duplicate_texts, opt_text, str_eq, texts};
use crate::time::Timestamp;

verus! {

/// A reference to the object that owns another.
#[derive(Debug)]
pub struct OwnerReference {
    pub api_version: String,
    pub kind: String,
    pub name: String,
    pub uid: String,
    pub controller: Option<bool>,
    pub block_owner_deletion: Option<bool>,
}

/// What one field manager owns of an object.
#[derive(Debug)]
pub struct ManagedFieldsEntry {
    pub manager: Option<String>,
    pub subresource: Option<String>,
    pub fields_v1: Option<Value>,
}

/// The metadata of a Kubernetes object.
#[derive(Debug)]
pub struct ObjectMeta {
    pub name: Option<String>,
    pub generate_name: Option<String>,
    pub namespace: Option<String>,
    pub uid: Option<String>,
    pub generation: Option<i64>,
    pub creation_timestamp: Option<Timestamp>,
    pub deletion_timestamp: Option<Timestamp>,
    pub labels: Option<StringMap>,
    pub annotations: Option<StringMap>,
    pub owner_references: Option<Vec<OwnerReference>>,
    pub managed_fields: Option<Vec<ManagedFieldsEntry>>,
}

/// One requirement of a label selector.
#[derive(Debug)]
pub struct LabelSelectorRequirement {
    pub key: String,
    pub operator: String,
    pub values: Option<Vec<String>>,
}

/// A label selector.
#[derive(Debug)]
pub struct LabelSelector {
    pub match_labels: Option<StringMap>,
    pub match_expressions: Option<Vec<LabelSelectorRequirement>>,
}

/// One requirement of a label selector: its key, its operator and its values.
pub type RequirementView = (Seq<char>, Seq<char>, Option<Seq<Seq<char>>>);

/// What an owner reference says.
pub struct OwnerView {
    pub api_version: Seq<char>,
    pub kind: Seq<char>,
    pub name: Seq<char>,
    pub uid: Seq<char>,
    pub controller: Option<bool>,
    pub block_owner_deletion: Option<bool>,
}

/// The parts of the metadata that the operator writes.
pub struct MetaView {
    pub name: Option<Seq<char>>,
    pub namespace: Option<Seq<char>>,
    pub uid: Option<Seq<char>>,
    pub labels: Option<Map<Seq<char>, Seq<char>>>,
    pub annotations: Option<Map<Seq<char>, Seq<char>>>,
    pub owner_references: Option<Seq<OwnerView>>,
}

/// The entries of an optional map.
pub open spec fn opt_map(m: Option<StringMap>) -> Option<Map<Seq<char>, Seq<char>>> {
    match m {
        Some(m) => Some(m@),
        None => None,
    }
}

/// The entries of an optional map, none where there is no map.
pub open spec fn entries(m: Option<Map<Seq<char>, Seq<char>>>) -> Map<Seq<char>, Seq<char>> {
    match m {
        Some(m) => m,
        None => Map::empty(),
    }
}

/// A text as JSON, where there is one.
pub open spec fn opt_text_json(s: Option<Seq<char>>) -> Option<Json> {
    match s {
        Some(s) => Some(Json::Text(s)),
        None => None,
    }
}

/// A map as JSON, where there is one.
pub open spec fn opt_map_json(m: Option<Map<Seq<char>, Seq<char>>>) -> Option<Json> {
    match m {
        Some(m) => Some(text_object(m)),
        None => None,
    }
}

/// A flag as JSON, where there is one.
pub open spec fn opt_flag_json(b: Option<bool>) -> Option<Json> {
    match b {
        Some(b) => Some(Json::Bool(b)),
        None => None,
    }
}

/// An owner reference as JSON.
pub open spec fn owner_json(o: OwnerView) -> Json {
    Json::Object(
        with_field(
            with_field(
                no_fields().insert("apiVersion"@, Json::Text(o.api_version)).insert(
                    "kind"@,
                    Json::Text(o.kind),
                ).insert("name"@, Json::Text(o.name)).insert("uid"@, Json::Text(o.uid)),
                "controller"@,
                opt_flag_json(o.controller),
            ),
            "blockOwnerDeletion"@,
            opt_flag_json(o.block_owner_deletion),
        ),
    )
}

/// Owner references as JSON, where there are any.
pub open spec fn owners_json(owners: Option<Seq<OwnerView>>) -> Option<Json> {
    match owners {
        Some(o) => Some(Json::Array(Seq::new(o.len(), |i: int| owner_json(o[i])))),
        None => None,
    }
}

/// The written metadata as JSON: what is not set is left out.
pub open spec fn meta_json(m: MetaView) -> Json {
    let a = with_field(no_fields(), "name"@, opt_text_json(m.name));
    let b = with_field(a, "namespace"@, opt_text_json(m.namespace));
    let c = with_field(b, "uid"@, opt_text_json(m.uid));
    let d = with_field(c, "labels"@, opt_map_json(m.labels));
    let e = with_field(d, "annotations"@, opt_map_json(m.annotations));
    Json::Object(with_field(e, "ownerReferences"@, owners_json(m.owner_references)))
}

/// A requirement as JSON.
pub open spec fn requirement_json(r: RequirementView) -> Json {
    Json::Object(
        with_field(
            no_fields().insert("key"@, Json::Text(r.0)).insert("operator"@, Json::Text(r.1)),
            "values"@,
            match r.2 {
                Some(v) => Some(text_array(v)),
                None => None,
            },
        ),
    )
}

/// Requirements as JSON, where there are any.
pub open spec fn requirements_json(rs: Option<Seq<RequirementView>>) -> Option<Json> {
    match rs {
        Some(rs) => Some(Json::Array(Seq::new(rs.len(), |i: int| requirement_json(rs[i])))),
        None => None,
    }
}

/// A label selector as JSON.
pub open spec fn selector_json(
    match_labels: Option<Map<Seq<char>, Seq<char>>>,
    match_expressions: Option<Seq<RequirementView>>,
) -> Json {
    Json::Object(
        with_field(
            with_field(no_fields(), "matchExpressions"@, requirements_json(match_expressions)),
            "matchLabels"@,
            opt_map_json(match_labels),
        ),
    )
}

/// The namespace of an object that may not name one.
pub open spec fn namespace_or_default(ns: Option<Seq<char>>) -> Seq<char> {
    match ns {
        Some(n) => if n.len() == 0 {
            "default"@
        } else {
            n
        },
        None => "default"@,
    }
}

impl OwnerReference {
    /// What the reference says.
    pub open spec fn view(&self) -> OwnerView {
        OwnerView {
            api_version: self.api_version@,
            kind: self.kind@,
            name: self.name@,
            uid: self.uid@,
            controller: self.controller,
            block_owner_deletion: self.block_owner_deletion,
        }
    }

    /// The same reference once more.
    pub fn duplicate(&self) -> (r: OwnerReference)
        ensures
            r@ == self@,
    {
        OwnerReference {
            api_version: self.api_version.clone(),
            kind: self.kind.clone(),
            name: self.name.clone(),
            uid: self.uid.clone(),
            controller: self.controller,
            block_owner_deletion: self.block_owner_deletion,
        }
    }

    /// Whether two references say the same.
    pub fn same(&self, other: &OwnerReference) -> (r: bool)
        ensures
            r == (self@ == other@),
    {
        str_eq(self.api_version.as_str(), other.api_version.as_str()) && str_eq(
            self.kind.as_str(),
            other.kind.as_str(),
        ) && str_eq(self.name.as_str(), other.name.as_str()) && str_eq(
            self.uid.as_str(),
            other.uid.as_str(),
        ) && same_flag(self.controller, other.controller) && same_flag(
            self.block_owner_deletion,
            other.block_owner_deletion,
        )
    }

    /// The reference as JSON.
    pub fn value(&self) -> (r: Value)
        ensures
            r@ == owner_json(self@),
    {
        let mut o = Object::new();
        o.put_text("apiVersion", self.api_version.as_str());
        o.put_text("kind", self.kind.as_str());
        o.put_text("name", self.name.as_str());
        o.put_text("uid", self.uid.as_str());
        o.put_opt("controller", opt_flag_value(self.controller));
        o.put_opt("blockOwnerDeletion", opt_flag_value(self.block_owner_deletion));
        Value::Object(o)
    }
}

fn opt_flag_value(b: Option<bool>) -> (r: Option<Value>)
    ensures
        opt_json(r) == opt_flag_json(b),
{
    match b {
        Some(b) => Some(Value::Bool(b)),
        None => None,
    }
}

fn same_flag(a: Option<bool>, b: Option<bool>) -> (r: bool)
    ensures
        r == (a == b),
{
    match (a, b) {
        (Some(x), Some(y)) => x == y,
        (None, None) => true,
        _ => false,
    }
}

/// What each reference says.
pub open spec fn owner_views(s: Seq<OwnerReference>) -> Seq<OwnerView> {
    Seq::new(s.len(), |i: int| s[i]@)
}

/// What the references say, where there are any.
pub open spec fn opt_owner_views(s: Option<Vec<OwnerReference>>) -> Option<Seq<OwnerView>> {
    match s {
        Some(s) => Some(owner_views(s@)),
        None => None,
    }
}

/// The same references once more.
pub fn duplicate_owners(owners: &Vec<OwnerReference>) -> (r: Vec<OwnerReference>)
    ensures
        owner_views(r@) == owner_views(owners@),
{
    let mut out: Vec<OwnerReference> = Vec::new();
    let mut i: usize = 0;
    while i < owners.len()
        invariant
            i <= owners.len(),
            out@.len() == i,
            forall|j: int| 0 <= j < i ==> (#[trigger] out@[j])@ == owners@[j]@,
        decreases owners.len() - i,
    {
        out.push(owners[i].duplicate());
        i = i + 1;
    }
    proof {
        assert(owner_views(out@) =~= owner_views(owners@));
    }
    out
}

/// What a field manager owns.
pub struct ManagedView {
    pub manager: Option<Seq<char>>,
    pub subresource: Option<Seq<char>>,
    pub fields_v1: Option<Json>,
}

impl ManagedFieldsEntry {
    /// What the manager owns.
    pub open spec fn view(&self) -> ManagedView {
        ManagedView {
            manager: opt_text(self.manager),
            subresource: opt_text(self.subresource),
            fields_v1: opt_json(self.fields_v1),
        }
    }

    /// The same entry once more.
    pub fn duplicate(&self) -> (r: ManagedFieldsEntry)
        ensures
            r@ == self@,
    {
        ManagedFieldsEntry {
            manager: self.manager.clone(),
            subresource: self.subresource.clone(),
            fields_v1: match &self.fields_v1 {
                Some(v) => Some(v.duplicate()),
                None => None,
            },
        }
    }
}

/// What each field manager owns.
pub open spec fn managed_views(s: Seq<ManagedFieldsEntry>) -> Seq<ManagedView> {
    Seq::new(s.len(), |i: int| s[i]@)
}

/// What the field managers own, where they are given.
pub open spec fn opt_managed_views(s: Option<Vec<ManagedFieldsEntry>>) -> Option<Seq<ManagedView>> {
    match s {
        Some(s) => Some(managed_views(s@)),
        None => None,
    }
}

/// The same entries once more.
pub fn duplicate_managed(entries: &Vec<ManagedFieldsEntry>) -> (r: Vec<ManagedFieldsEntry>)
    ensures
        managed_views(r@) == managed_views(entries@),
{
    let mut out: Vec<ManagedFieldsEntry> = Vec::new();
    let mut i: usize = 0;
    while i < entries.len()
        invariant
            i <= entries.len(),
            out@.len() == i,
            forall|j: int| 0 <= j < i ==> (#[trigger] out@[j])@ == entries@[j]@,
        decreases entries.len() - i,
    {
        out.push(entries[i].duplicate());
        i = i + 1;
    }
    proof {
        assert(managed_views(out@) =~= managed_views(entries@));
    }
    out
}

/// A text as JSON, where there is one.
pub fn opt_text_value(s: &Option<String>) -> (r: Option<Value>)
    ensures
        opt_json(r) == opt_text_json(opt_text(*s)),
{
    match s {
        Some(s) => Some(Value::text(s.as_str())),
        None => None,
    }
}

/// A map as JSON, where there is one.
pub fn opt_map_value(m: &Option<StringMap>) -> (r: Option<Value>)
    ensures
        opt_json(r) == opt_map_json(opt_map(*m)),
{
    match m {
        Some(m) => Some(Value::labels(m)),
        None => None,
    }
}

/// The same map once more, where there is one.
pub fn duplicate_opt_map(m: &Option<StringMap>) -> (r: Option<StringMap>)
    ensures
        opt_map(r) == opt_map(*m),
{
    match m {
        Some(m) => Some(m.duplicate()),
        None => None,
    }
}

/// The same map once more, an empty one where there is none.
pub fn map_or_empty(m: &Option<StringMap>) -> (r: StringMap)
    ensures
        r@ == entries(opt_map(*m)),
{
    match m {
        Some(m) => m.duplicate(),
        None => StringMap::new(),
    }
}

/// The namespace of an object that may not name one.
pub fn effective_namespace<'a>(ns: Option<&'a str>) -> (r: &'a str)
    ensures
        r@ == namespace_or_default(crate::text::opt_str(ns)),
{
    match ns {
        Some(n) => if n.is_empty() {
            "default"
        } else {
            n
        },
        None => "default",
    }
}

impl LabelSelectorRequirement {
    /// The requirement.
    pub open spec fn view(&self) -> RequirementView {
        (
            self.key@,
            self.operator@,
            match self.values {
                Some(v) => Some(texts(v@)),
                None => None,
            },
        )
    }

    /// The same requirement once more.
    pub fn duplicate(&self) -> (r: LabelSelectorRequirement)
        ensures
            r@ == self@,
    {
        let values = match &self.values {
            Some(v) => Some(duplicate_texts(v)),
            None => None,
        };
        LabelSelectorRequirement {
            key: self.key.clone(),
            operator: self.operator.clone(),
            values,
        }
    }

    /// The requirement as JSON.
    pub fn value(&self) -> (r: Value)
        ensures
            r@ == requirement_json(self@),
    {
        let mut o = Object::new();
        o.put_text("key", self.key.as_str());
        o.put_text("operator", self.operator.as_str());
        let values = match &self.values {
            Some(v) => Some(Value::texts(v)),
            None => None,
        };
        o.put_opt("values", values);
        Value::Object(o)
    }
}

/// The requirements of a list.
pub open spec fn requirement_views(s: Seq<LabelSelectorRequirement>) -> Seq<RequirementView> {
    Seq::new(s.len(), |i: int| s[i]@)
}

/// The requirements of an optional list.
pub open spec fn opt_requirements(s: Option<Vec<LabelSelectorRequirement>>) -> Option<
    Seq<RequirementView>,
> {
    match s {
        Some(s) => Some(requirement_views(s@)),
        None => None,
    }
}

/// The same requirements once more.
pub fn duplicate_requirements(s: &Option<Vec<LabelSelectorRequirement>>) -> (r: Option<
    Vec<LabelSelectorRequirement>,
>)
    ensures
        opt_requirements(r) == opt_requirements(*s),
{
    match s {
        None => None,
        Some(list) => {
            let mut out: Vec<LabelSelectorRequirement> = Vec::new();
            let mut i: usize = 0;
            while i < list.len()
                invariant
                    i <= list.len(),
                    out@.len() == i,
                    forall|j: int| 0 <= j < i ==> (#[trigger] out@[j])@ == list@[j]@,
                decreases list.len() - i,
            {
                out.push(list[i].duplicate());
                i = i + 1;
            }
            proof {
                assert(requirement_views(out@) =~= requirement_views(list@));
            }
            Some(out)
        },
    }
}

impl LabelSelector {
    /// The selector as JSON.
    pub open spec fn view(&self) -> Json {
        selector_json(opt_map(self.match_labels), opt_requirements(self.match_expressions))
    }

    /// The selector as JSON.
    pub fn value(&self) -> (r: Value)
        ensures
            r@ == self@,
    {
        let mut o = Object::new();
        let expressions = match &self.match_expressions {
            Some(list) => {
                let mut items: Vec<Value> = Vec::new();
                let mut i: usize = 0;
                while i < list.len()
                    invariant
                        i <= list.len(),
                        items@.len() == i,
                        forall|j: int|
                            0 <= j < i ==> (#[trigger] items@[j])@ == requirement_json(list@[j]@),
                    decreases list.len() - i,
                {
                    items.push(list[i].value());
                    i = i + 1;
                }
                let v = Value::array(items);
                proof {
                    let rs = requirement_views(list@);
                    assert(v@->Array_0 =~= Seq::new(rs.len(), |i: int| requirement_json(rs[i])));
                }
                Some(v)
            },
            None => None,
        };
        o.put_opt("matchExpressions", expressions);
        o.put_opt("matchLabels", opt_map_value(&self.match_labels));
        Value::Object(o)
    }
}

impl ObjectMeta {
    /// The parts that the operator writes.
    pub open spec fn view(&self) -> MetaView {
        MetaView {
            name: opt_text(self.name),
            namespace: opt_text(self.namespace),
            uid: opt_text(self.uid),
            labels: opt_map(self.labels),
            annotations: opt_map(self.annotations),
            owner_references: opt_owner_views(self.owner_references),
        }
    }

    /// The name, or the prefix that it is generated from, or nothing.
    pub open spec fn any_name(&self) -> Seq<char> {
        match self.name {
            Some(n) => n@,
            None => match self.generate_name {
                Some(n) => n@,
                None => Seq::empty(),
            },
        }
    }

    /// The value of an annotation.
    pub open spec fn annotation(&self, key: Seq<char>) -> Option<Seq<char>> {
        match self.annotations {
            Some(a) => if a@.contains_key(key) {
                Some(a@[key])
            } else {
                None
            },
            None => None,
        }
    }

    /// The value of a label.
    pub open spec fn label(&self, key: Seq<char>) -> Option<Seq<char>> {
        match self.labels {
            Some(a) => if a@.contains_key(key) {
                Some(a@[key])
            } else {
                None
            },
            None => None,
        }
    }

    /// Metadata with nothing set.
    pub fn empty() -> (r: ObjectMeta)
        ensures
            r@ == (MetaView {
                name: None,
                namespace: None,
                uid: None,
                labels: None,
                annotations: None,
                owner_references: None,
            }),
            r.generate_name is None,
            r.generation is None,
            r.creation_timestamp is None,
            r.deletion_timestamp is None,
            r.managed_fields is None,
    {
        ObjectMeta {
            name: None,
            generate_name: None,
            namespace: None,
            uid: None,
            generation: None,
            creation_timestamp: None,
            deletion_timestamp: None,
            labels: None,
            annotations: None,
            owner_references: None,
            managed_fields: None,
        }
    }

    /// The name, or the prefix that it is generated from, or nothing.
    pub fn name_any(&self) -> (r: String)
        ensures
            r@ == self.any_name(),
    {
        match &self.name {
            Some(n) => n.clone(),
            None => match &self.generate_name {
                Some(n) => n.clone(),
                None => String::new(),
            },
        }
    }

    /// The value of an annotation.
    pub fn get_annotation(&self, key: &str) -> (r: Option<&String>)
        ensures
            r is Some == self.annotation(key@) is Some,
            r is Some ==> r->0@ == self.annotation(key@)->0,
    {
        match &self.annotations {
            Some(a) => a.get(key),
            None => None,
        }
    }

    /// The value of a label.
    pub fn get_label(&self, key: &str) -> (r: Option<&String>)
        ensures
            r is Some == self.label(key@) is Some,
            r is Some ==> r->0@ == self.label(key@)->0,
    {
        match &self.labels {
            Some(a) => a.get(key),
            None => None,
        }
    }

    /// Whether the parts that the operator does not write are those of other metadata.
    pub open spec fn unwritten_as(&self, other: &ObjectMeta) -> bool {
        &&& opt_text(self.generate_name) == opt_text(other.generate_name)
        &&& self.generation == other.generation
        &&& self.creation_timestamp == other.creation_timestamp
        &&& self.deletion_timestamp == other.deletion_timestamp
        &&& opt_managed_views(self.managed_fields) == opt_managed_views(other.managed_fields)
    }

    /// The same metadata once more.
    pub fn duplicate(&self) -> (r: ObjectMeta)
        ensures
            r@ == self@,
            r.unwritten_as(self),
    {
        ObjectMeta {
            name: self.name.clone(),
            generate_name: self.generate_name.clone(),
            namespace: self.namespace.clone(),
            uid: self.uid.clone(),
            generation: self.generation,
            creation_timestamp: self.creation_timestamp,
            deletion_timestamp: self.deletion_timestamp,
            labels: duplicate_opt_map(&self.labels),
            annotations: duplicate_opt_map(&self.annotations),
            owner_references: match &self.owner_references {
                Some(o) => Some(duplicate_owners(o)),
                None => None,
            },
            managed_fields: match &self.managed_fields {
                Some(m) => Some(duplicate_managed(m)),
                None => None,
            },
        }
    }

    /// The written parts as JSON.
    pub fn value(&self) -> (r: Value)
        ensures
            r@ == meta_json(self@),
    {
        let mut o = Object::new();
        o.put_opt("name", opt_text_value(&self.name));
        o.put_opt("namespace", opt_text_value(&self.namespace));
        o.put_opt("uid", opt_text_value(&self.uid));
        o.put_opt("labels", opt_map_value(&self.labels));
        o.put_opt("annotations", opt_map_value(&self.annotations));
        let owners = match &self.owner_references {
            Some(owners) => {
                let mut items: Vec<Value> = Vec::new();
                let mut i: usize = 0;
                while i < owners.len()
                    invariant
                        i <= owners.len(),
                        items@.len() == i,
                        forall|j: int|
                            0 <= j < i ==> (#[trigger] items@[j])@ == owner_json(owners@[j]@),
                    decreases owners.len() - i,
                {
                    items.push(owners[i].value());
                    i = i + 1;
                }
                let v = Value::array(items);
                proof {
                    let o = owner_views(owners@);
                    assert(v@->Array_0 =~= Seq::new(o.len(), |i: int| owner_json(o[i])));
                }
                Some(v)
            },
            None => None,
        };
        o.put_opt("ownerReferences", owners);
        Value::Object(o)
    }
}

} // verus!
