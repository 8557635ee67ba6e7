//! The objects that the operator applies, as JSON.

use vstd::prelude::*;

use crate::json::{no_fields, opt_json, text_object, with_field, Json, Object, Value};
use crate::meta::{
    entries, meta_json, opt_map, opt_map_json, opt_map_value, opt_text_json, opt_text_value,
    MetaView, ObjectMeta,
};
use crate::string_map::StringMap;
use crate::text::{opt_str, opt_text, str_eq};

verus! {

/// An object of this kind, with its specification where it has one.
pub open spec fn manifest_json(
    api_version: Seq<char>,
    kind: Seq<char>,
    meta: MetaView,
    spec: Option<Json>,
) -> Json {
    Json::Object(
        with_field(
            no_fields().insert("apiVersion"@, Json::Text(api_version)).insert(
                "kind"@,
                Json::Text(kind),
            ).insert("metadata"@, meta_json(meta)),
            "spec"@,
            spec,
        ),
    )
}

/// An object of this kind, with its specification where it has one.
pub fn manifest(api_version: &str, kind: &str, meta: &ObjectMeta, spec: Option<Value>) -> (r: Value)
    ensures
        r@ == manifest_json(api_version@, kind@, meta@, opt_json(spec)),
{
    let mut o = Object::new();
    o.put_text("apiVersion", api_version);
    o.put_text("kind", kind);
    o.put("metadata", meta.value());
    o.put_opt("spec", spec);
    Value::Object(o)
}

/// A ConfigMap.
#[derive(Debug)]
pub struct ConfigMap {
    pub metadata: ObjectMeta,
    pub data: Option<StringMap>,
}

impl ConfigMap {
    /// The ConfigMap as JSON.
    pub open spec fn view(&self) -> Json {
        config_map_json(self.metadata@, opt_map(self.data))
    }

    /// The ConfigMap as JSON.
    pub fn value(&self) -> (r: Value)
        ensures
            r@ == self@,
    {
        let mut o = Object::new();
        o.put_text("apiVersion", "v1");
        o.put_text("kind", "ConfigMap");
        o.put("metadata", self.metadata.value());
        o.put_opt("data", opt_map_value(&self.data));
        Value::Object(o)
    }
}

/// A ConfigMap as JSON.
pub open spec fn config_map_json(meta: MetaView, data: Option<Map<Seq<char>, Seq<char>>>) -> Json {
    Json::Object(
        with_field(
            no_fields().insert("apiVersion"@, Json::Text("v1"@)).insert(
                "kind"@,
                Json::Text("ConfigMap"@),
            ).insert("metadata"@, meta_json(meta)),
            "data"@,
            opt_map_json(data),
        ),
    )
}

/// An environment variable of a container: a value, or where one comes from.
#[derive(Debug)]
pub struct EnvVar {
    pub name: String,
    pub value: Option<String>,
    /// Passed through.
    pub value_from: Option<Value>,
}

/// An environment variable.
pub struct EnvView {
    pub name: Seq<char>,
    pub value: Option<Seq<char>>,
    pub value_from: Option<Json>,
}

impl EnvVar {
    /// The variable.
    pub open spec fn view(&self) -> EnvView {
        EnvView {
            name: self.name@,
            value: opt_text(self.value),
            value_from: opt_json(self.value_from),
        }
    }

    /// A variable with a value.
    pub fn plain(name: &str, value: &str) -> (r: EnvVar)
        ensures
            r@ == plain_env(name@, value@),
    {
        EnvVar { name: name.to_owned(), value: Some(value.to_owned()), value_from: None }
    }

    /// The same variable once more.
    pub fn duplicate(&self) -> (r: EnvVar)
        ensures
            r@ == self@,
    {
        let value: Option<String> = match &self.value {
            Some(v) => Some(v.clone()),
            None => None,
        };
        let value_from: Option<Value> = match &self.value_from {
            Some(v) => Some(v.duplicate()),
            None => None,
        };
        EnvVar { name: self.name.clone(), value, value_from }
    }

    /// The variable as JSON.
    pub fn json(&self) -> (r: Value)
        ensures
            r@ == env_json(self@),
    {
        let mut o = Object::new();
        o.put_text("name", self.name.as_str());
        o.put_opt("value", opt_text_value(&self.value));
        let from: Option<Value> = match &self.value_from {
            Some(v) => Some(v.duplicate()),
            None => None,
        };
        o.put_opt("valueFrom", from);
        Value::Object(o)
    }
}

/// A variable with a value.
pub open spec fn plain_env(name: Seq<char>, value: Seq<char>) -> EnvView {
    EnvView { name, value: Some(value), value_from: None }
}

/// A variable as JSON.
pub open spec fn env_json(e: EnvView) -> Json {
    Json::Object(
        with_field(
            with_field(
                no_fields().insert("name"@, Json::Text(e.name)),
                "value"@,
                opt_text_json(e.value),
            ),
            "valueFrom"@,
            e.value_from,
        ),
    )
}

/// Each variable.
pub open spec fn env_views(s: Seq<EnvVar>) -> Seq<EnvView> {
    Seq::new(s.len(), |i: int| s[i]@)
}

/// Variables as JSON.
pub open spec fn envs_json(s: Seq<EnvView>) -> Json {
    Json::Array(s.map_values(|e: EnvView| env_json(e)))
}

/// Variables as JSON.
pub fn env_values(s: &Vec<EnvVar>) -> (r: Value)
    ensures
        r@ == envs_json(env_views(s@)),
{
    let mut items: Vec<Value> = Vec::new();
    let mut i: usize = 0;
    while i < s.len()
        invariant
            i <= s.len(),
            items@.len() == i,
            forall|j: int| 0 <= j < i ==> (#[trigger] items@[j])@ == env_json(s@[j]@),
        decreases s.len() - i,
    {
        items.push(s[i].json());
        i = i + 1;
    }
    let r = Value::array(items);
    proof {
        assert(r@->Array_0 =~= env_views(s@).map_values(|e: EnvView| env_json(e)));
    }
    r
}

/// Whether one of the variables has this name.
pub open spec fn named(custom: Seq<EnvView>, name: Seq<char>) -> bool {
    exists|i: int| 0 <= i < custom.len() && (#[trigger] custom[i]).name == name
}

/// The variables with a default, unless the user sets the variable.
pub open spec fn with_default(
    s: Seq<EnvView>,
    custom: Seq<EnvView>,
    name: Seq<char>,
    value: Seq<char>,
) -> Seq<EnvView> {
    if named(custom, name) {
        s
    } else {
        s.push(plain_env(name, value))
    }
}

/// The variables that a user sets.
pub open spec fn custom_env(custom: Option<Vec<EnvVar>>) -> Seq<EnvView> {
    match custom {
        Some(c) => env_views(c@),
        None => Seq::empty(),
    }
}

fn has_name(custom: &Option<Vec<EnvVar>>, name: &str) -> (r: bool)
    ensures
        r == named(custom_env(*custom), name@),
{
    match custom {
        None => false,
        Some(c) => {
            let ghost views = env_views(c@);
            let mut i: usize = 0;
            while i < c.len()
                invariant
                    i <= c.len(),
                    views == env_views(c@),
                    *custom == Some(*c),
                    forall|j: int| 0 <= j < i ==> (#[trigger] views[j]).name != name@,
                decreases c.len() - i,
            {
                proof {
                    assert(views[i as int] == c@[i as int]@);
                }
                if str_eq(c[i].name.as_str(), name) {
                    return true;
                }
                i = i + 1;
            }
            false
        },
    }
}

/// Adds a default, unless the user sets the variable.
pub fn push_default(out: &mut Vec<EnvVar>, custom: &Option<Vec<EnvVar>>, name: &str, value: &str)
    ensures
        env_views(final(out)@) == with_default(
            env_views(old(out)@),
            custom_env(*custom),
            name@,
            value@,
        ),
{
    if !has_name(custom, name) {
        let ghost before = env_views(out@);
        out.push(EnvVar::plain(name, value));
        proof {
            assert(env_views(out@) =~= before.push(plain_env(name@, value@)));
        }
    }
}

/// Adds a variable.
pub fn push_plain(out: &mut Vec<EnvVar>, name: &str, value: &str)
    ensures
        env_views(final(out)@) == env_views(old(out)@).push(plain_env(name@, value@)),
{
    let ghost before = env_views(out@);
    out.push(EnvVar::plain(name, value));
    proof {
        assert(env_views(out@) =~= before.push(plain_env(name@, value@)));
    }
}

/// Adds the variables that a user sets.
pub fn push_custom(out: &mut Vec<EnvVar>, custom: &Option<Vec<EnvVar>>)
    ensures
        env_views(final(out)@) == env_views(old(out)@) + custom_env(*custom),
{
    let ghost defaults = env_views(out@);
    match custom {
        Some(c) => {
            let mut i: usize = 0;
            proof {
                assert(env_views(c@).take(0) =~= Seq::empty());
                assert(defaults + Seq::<EnvView>::empty() =~= defaults);
            }
            while i < c.len()
                invariant
                    i <= c.len(),
                    env_views(out@) == defaults + env_views(c@).take(i as int),
                decreases c.len() - i,
            {
                let ghost before = env_views(out@);
                out.push(c[i].duplicate());
                proof {
                    assert(env_views(out@) =~= before.push(c@[i as int]@));
                    assert(env_views(c@).take(i as int + 1) =~= env_views(c@).take(
                        i as int,
                    ).push(c@[i as int]@));
                    assert(before.push(c@[i as int]@) =~= defaults + env_views(c@).take(
                        i as int + 1,
                    ));
                }
                i = i + 1;
            }
            proof {
                assert(env_views(c@).take(i as int) =~= env_views(c@));
            }
        },
        None => {
            proof {
                assert(defaults + Seq::<EnvView>::empty() =~= defaults);
            }
        },
    }
}

/// A document that is passed through, once more.
pub fn duplicate_opt_value(v: &Option<Value>) -> (r: Option<Value>)
    ensures
        opt_json(r) == opt_json(*v),
{
    match v {
        Some(v) => Some(v.duplicate()),
        None => None,
    }
}

/// Where a volume is mounted.
pub open spec fn mount_json(
    name: Seq<char>,
    path: Seq<char>,
    sub_path: Option<Seq<char>>,
    read_only: bool,
) -> Json {
    let a = with_field(
        no_fields().insert("mountPath"@, Json::Text(path)).insert("name"@, Json::Text(name)),
        "subPath"@,
        opt_text_json(sub_path),
    );
    Json::Object(
        if read_only {
            a.insert("readOnly"@, Json::Bool(true))
        } else {
            a
        },
    )
}

/// Where a volume is mounted.
pub fn volume_mount(name: &str, path: &str, sub_path: Option<&str>, read_only: bool) -> (r: Value)
    ensures
        r@ == mount_json(name@, path@, opt_str(sub_path), read_only),
{
    let mut o = Object::new();
    o.put_text("mountPath", path);
    o.put_text("name", name);
    match sub_path {
        Some(p) => {
            o.put_text("subPath", p);
        },
        None => {},
    }
    if read_only {
        o.put("readOnly", Value::Bool(true));
    }
    Value::Object(o)
}

/// A key of a ConfigMap or Secret that is projected to a path.
pub open spec fn key_to_path_json(key: Seq<char>, mode: Option<int>, path: Seq<char>) -> Json {
    Json::Object(
        with_field(
            no_fields().insert("key"@, Json::Text(key)),
            "mode"@,
            match mode {
                Some(m) => Some(Json::Int(m)),
                None => None,
            },
        ).insert("path"@, Json::Text(path)),
    )
}

/// A key of a ConfigMap or Secret that is projected to a path.
pub fn key_to_path(key: &str, mode: Option<i64>, path: &str) -> (r: Value)
    ensures
        r@ == key_to_path_json(
            key@,
            match mode {
                Some(m) => Some(m as int),
                None => None,
            },
            path@,
        ),
{
    let mut o = Object::new();
    o.put_text("key", key);
    match mode {
        Some(m) => {
            o.put("mode", Value::Int(m));
        },
        None => {},
    }
    o.put_text("path", path);
    Value::Object(o)
}

/// A volume with one source.
pub open spec fn volume_json(name: Seq<char>, source: Seq<char>, content: Json) -> Json {
    Json::Object(no_fields().insert("name"@, Json::Text(name)).insert(source, content))
}

/// A volume with one source.
pub fn volume(name: &str, source: &str, content: Value) -> (r: Value)
    ensures
        r@ == volume_json(name@, source@, content@),
{
    let mut o = Object::new();
    o.put_text("name", name);
    o.put(source, content);
    Value::Object(o)
}

/// The source of a volume that projects a Secret.
pub open spec fn secret_source_json(name: Seq<char>, item: Json) -> Json {
    Json::Object(
        no_fields().insert("items"@, Json::Array(seq![item])).insert(
            "secretName"@,
            Json::Text(name),
        ),
    )
}

/// The source of a volume that projects a Secret.
pub fn secret_source(name: &str, item: Value) -> (r: Value)
    ensures
        r@ == secret_source_json(name@, item@),
{
    let mut o = Object::new();
    o.put("items", Value::singleton(item));
    o.put_text("secretName", name);
    Value::Object(o)
}

/// The source of a volume that projects a ConfigMap, whole or in part.
pub open spec fn config_map_source_json(name: Seq<char>, item: Option<Json>) -> Json {
    Json::Object(
        with_field(
            no_fields(),
            "items"@,
            match item {
                Some(i) => Some(Json::Array(seq![i])),
                None => None,
            },
        ).insert("name"@, Json::Text(name)),
    )
}

/// The source of a volume that projects a ConfigMap, whole or in part.
pub fn config_map_source(name: &str, item: Option<Value>) -> (r: Value)
    ensures
        r@ == config_map_source_json(name@, opt_json(item)),
{
    let mut o = Object::new();
    match item {
        Some(i) => {
            o.put("items", Value::singleton(i));
        },
        None => {},
    }
    o.put_text("name", name);
    Value::Object(o)
}

/// A named port of a container.
pub open spec fn container_port_json(name: Seq<char>, port: int) -> Json {
    Json::Object(
        no_fields().insert("containerPort"@, Json::Int(port)).insert("name"@, Json::Text(name)),
    )
}

/// A named port of a container.
pub fn container_port(name: &str, port: i32) -> (r: Value)
    ensures
        r@ == container_port_json(name@, port as int),
{
    let mut o = Object::new();
    o.put("containerPort", Value::Int(port as i64));
    o.put_text("name", name);
    Value::Object(o)
}

/// What a container may do: it cannot gain privileges, and where asked its root filesystem is read
/// only.
pub open spec fn container_security_json(read_only_root: bool) -> Json {
    let a = no_fields().insert("allowPrivilegeEscalation"@, Json::Bool(false));
    Json::Object(
        if read_only_root {
            a.insert("readOnlyRootFilesystem"@, Json::Bool(true))
        } else {
            a
        },
    )
}

/// What a container may do.
pub fn container_security(read_only_root: bool) -> (r: Value)
    ensures
        r@ == container_security_json(read_only_root),
{
    let mut o = Object::new();
    o.put("allowPrivilegeEscalation", Value::Bool(false));
    if read_only_root {
        o.put("readOnlyRootFilesystem", Value::Bool(true));
    }
    Value::Object(o)
}

/// Who a pod runs as, and what it may do.
pub open spec fn pod_security_json(non_root: bool) -> Json {
    let a = no_fields().insert("fsGroup"@, Json::Int(2000)).insert(
        "fsGroupChangePolicy"@,
        Json::Text("OnRootMismatch"@),
    ).insert("runAsGroup"@, Json::Int(3000)).insert("runAsUser"@, Json::Int(1000)).insert(
        "seccompProfile"@,
        Json::Object(no_fields().insert("type"@, Json::Text("RuntimeDefault"@))),
    );
    Json::Object(
        if non_root {
            a.insert("runAsNonRoot"@, Json::Bool(true))
        } else {
            a
        },
    )
}

/// Who a pod runs as, and what it may do.
pub fn pod_security(non_root: bool) -> (r: Value)
    ensures
        r@ == pod_security_json(non_root),
{
    let mut seccomp = Object::new();
    seccomp.put_text("type", "RuntimeDefault");
    let mut o = Object::new();
    o.put("fsGroup", Value::Int(2000));
    o.put_text("fsGroupChangePolicy", "OnRootMismatch");
    o.put("runAsGroup", Value::Int(3000));
    o.put("runAsUser", Value::Int(1000));
    o.put("seccompProfile", Value::Object(seccomp));
    if non_root {
        o.put("runAsNonRoot", Value::Bool(true));
    }
    Value::Object(o)
}

/// The metadata of a pod template: labels, and annotations where there are any.
pub open spec fn template_meta_json(
    labels: Map<Seq<char>, Seq<char>>,
    annotations: Option<Map<Seq<char>, Seq<char>>>,
) -> Json {
    Json::Object(
        with_field(
            with_field(no_fields(), "annotations"@, opt_map_json(annotations)),
            "labels"@,
            Some(text_object(labels)),
        ),
    )
}

/// The metadata of a pod template.
pub fn template_meta(labels: &StringMap, annotations: &Option<StringMap>) -> (r: Value)
    ensures
        r@ == template_meta_json(labels@, opt_map(*annotations)),
{
    let mut o = Object::new();
    o.put_opt("annotations", opt_map_value(annotations));
    o.put("labels", Value::labels(labels));
    Value::Object(o)
}

/// The metadata with more annotations, which win over those of the same name.
pub open spec fn with_annotations(meta: MetaView, extra: Option<Map<Seq<char>, Seq<char>>>) -> MetaView {
    match extra {
        Some(a) => MetaView {
            annotations: Some(entries(meta.annotations).union_prefer_right(a)),
            ..meta
        },
        None => meta,
    }
}

/// Adds annotations, which win over those of the same name.
pub fn annotate(meta: ObjectMeta, extra: &Option<StringMap>) -> (r: ObjectMeta)
    ensures
        r@ == with_annotations(meta@, opt_map(*extra)),
{
    let mut meta = meta;
    match extra {
        Some(a) => {
            let mut merged: StringMap = match meta.annotations {
                Some(m) => m,
                None => StringMap::new(),
            };
            merged.extend(a);
            meta.annotations = Some(merged);
        },
        None => {},
    }
    meta
}

} // verus!
