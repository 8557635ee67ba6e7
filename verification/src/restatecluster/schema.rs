//! The parts of the schema of a RestateCluster that are written by hand.

use vstd::prelude::*;
use vstd::string::*;

use crate::json::{jsons, no_fields, text_array, Json, Object, Value};
use crate::text::texts;

verus! {

pub const NAME_PATTERN: &'static str = "^[a-z0-9]([-a-z0-9]*[a-z0-9])?(\\.[a-z0-9]([-a-z0-9]*[a-z0-9])?)*$";

/// A rule that the apiserver checks when an object is changed.
pub open spec fn rule_json(rule: Seq<char>, message: Seq<char>) -> Json {
    Json::Array(
        seq![
            Json::Object(
                no_fields().insert("message"@, Json::Text(message)).insert(
                    "rule"@,
                    Json::Text(rule),
                ),
            ),
        ],
    )
}

fn rule_value(rule: &str, message: &str) -> (r: Value)
    ensures
        r@ == rule_json(rule@, message@),
{
    let mut o = Object::new();
    o.put_text("message", message);
    o.put_text("rule", rule);
    Value::singleton(Value::Object(o))
}

/// The schema of the name of a storage class, which cannot be changed.
pub fn immutable_storage_class_name() -> (r: Value)
    ensures
        r@ == Json::Object(
            no_fields().insert("nullable"@, Json::Bool(true)).insert(
                "type"@,
                Json::Text("string"@),
            ).insert(
                "x-kubernetes-validations"@,
                rule_json("self == oldSelf"@, "storageClassName is immutable"@),
            ),
        ),
{
    let mut o = Object::new();
    o.put("nullable", Value::Bool(true));
    o.put_text("type", "string");
    o.put(
        "x-kubernetes-validations",
        rule_value("self == oldSelf", "storageClassName is immutable"),
    );
    Value::Object(o)
}

/// The schema of a storage request, which may only grow.
pub fn expanding_volume_request() -> (r: Value)
    ensures
        r@ == Json::Object(
            no_fields().insert("format"@, Json::Text("int64"@)).insert(
                "type"@,
                Json::Text("integer"@),
            ).insert(
                "x-kubernetes-validations"@,
                rule_json("self >= oldSelf"@, "storageRequestBytes cannot be decreased"@),
            ),
        ),
{
    let mut o = Object::new();
    o.put_text("format", "int64");
    o.put_text("type", "integer");
    o.put(
        "x-kubernetes-validations",
        rule_value("self >= oldSelf", "storageRequestBytes cannot be decreased"),
    );
    Value::Object(o)
}

/// The schema of a list of variables, which are told apart by name. `item` is the schema of one.
pub fn env_schema(item: Value) -> (r: Value)
    ensures
        r@ == Json::Object(
            no_fields().insert("items"@, item@).insert("nullable"@, Json::Bool(true)).insert(
                "type"@,
                Json::Text("array"@),
            ).insert("x-kubernetes-list-map-keys"@, text_array(seq!["name"@])).insert(
                "x-kubernetes-list-type"@,
                Json::Text("map"@),
            ),
        ),
{
    let mut keys: Vec<String> = Vec::new();
    keys.push("name".to_owned());
    proof {
        assert(texts(keys@) =~= seq!["name"@]);
    }
    let mut o = Object::new();
    o.put("items", item);
    o.put("nullable", Value::Bool(true));
    o.put_text("type", "array");
    o.put("x-kubernetes-list-map-keys", Value::texts(&keys));
    o.put_text("x-kubernetes-list-type", "map");
    Value::Object(o)
}

/// The schema of a list of peers, which is replaced as a whole. `item` is the schema of one.
pub fn network_peers_schema(item: Value) -> (r: Value)
    ensures
        r@ == atomic_list_json(item@),
{
    let mut o = Object::new();
    o.put("items", item);
    o.put("nullable", Value::Bool(true));
    o.put_text("type", "array");
    o.put_text("x-kubernetes-list-type", "atomic");
    Value::Object(o)
}

/// The schema of a list that is replaced as a whole.
pub open spec fn atomic_list_json(item: Json) -> Json {
    Json::Object(
        no_fields().insert("items"@, item).insert("nullable"@, Json::Bool(true)).insert(
            "type"@,
            Json::Text("array"@),
        ).insert("x-kubernetes-list-type"@, Json::Text("atomic"@)),
    )
}

pub const PORT_DESCRIPTION: &'static str = "NetworkPolicyPort describes a port to allow traffic on";

pub const END_PORT_DESCRIPTION: &'static str = "endPort indicates that the range of ports from port to endPort if set, inclusive, should be allowed by the policy. This field cannot be defined if the port field is not defined or if the port field is defined as a named (string) port. The endPort must be equal or greater than port.";

pub const PORT_FIELD_DESCRIPTION: &'static str = "port represents the port on the given protocol. This can either be a numerical or named port on a pod. If this field is not provided, this matches all port names and numbers. If present, only traffic on the specified protocol AND port will be matched.";

pub const PROTOCOL_DESCRIPTION: &'static str = "protocol represents the protocol (TCP, UDP, or SCTP) which traffic must match. If not specified, this field defaults to TCP.";

/// The schema of a type.
pub open spec fn type_json(name: Seq<char>) -> Json {
    Json::Object(no_fields().insert("type"@, Json::Text(name)))
}

/// The schema of a port, which has a number or a name.
pub open spec fn network_port_json() -> Json {
    let end_port = Json::Object(
        no_fields().insert("description"@, Json::Text(END_PORT_DESCRIPTION@)).insert(
            "format"@,
            Json::Text("int32"@),
        ).insert("type"@, Json::Text("integer"@)),
    );
    let port = Json::Object(
        no_fields().insert(
            "anyOf"@,
            Json::Array(seq![type_json("integer"@), type_json("string"@)]),
        ).insert("description"@, Json::Text(PORT_FIELD_DESCRIPTION@)).insert(
            "x-kubernetes-int-or-string"@,
            Json::Bool(true),
        ),
    );
    let protocol = Json::Object(
        no_fields().insert("description"@, Json::Text(PROTOCOL_DESCRIPTION@)).insert(
            "type"@,
            Json::Text("string"@),
        ),
    );
    Json::Object(
        no_fields().insert("description"@, Json::Text(PORT_DESCRIPTION@)).insert(
            "properties"@,
            Json::Object(
                no_fields().insert("endPort"@, end_port).insert("port"@, port).insert(
                    "protocol"@,
                    protocol,
                ),
            ),
        ).insert("type"@, Json::Text("object"@)),
    )
}

fn type_value(name: &str) -> (r: Value)
    ensures
        r@ == type_json(name@),
{
    let mut o = Object::new();
    o.put_text("type", name);
    Value::Object(o)
}

/// The schema of a list of ports, which is replaced as a whole.
pub fn network_ports_schema() -> (r: Value)
    ensures
        r@ == atomic_list_json(network_port_json()),
{
    let mut end_port = Object::new();
    end_port.put_text("description", END_PORT_DESCRIPTION);
    end_port.put_text("format", "int32");
    end_port.put_text("type", "integer");
    let mut kinds: Vec<Value> = Vec::new();
    kinds.push(type_value("integer"));
    kinds.push(type_value("string"));
    proof {
        assert(jsons(kinds@) =~= seq![type_json("integer"@), type_json("string"@)]);
    }
    let mut port = Object::new();
    port.put("anyOf", Value::array(kinds));
    port.put_text("description", PORT_FIELD_DESCRIPTION);
    port.put("x-kubernetes-int-or-string", Value::Bool(true));
    let mut protocol = Object::new();
    protocol.put_text("description", PROTOCOL_DESCRIPTION);
    protocol.put_text("type", "string");
    let mut properties = Object::new();
    properties.put("endPort", Value::Object(end_port));
    properties.put("port", Value::Object(port));
    properties.put("protocol", Value::Object(protocol));
    let mut item = Object::new();
    item.put_text("description", PORT_DESCRIPTION);
    item.put("properties", Value::Object(properties));
    item.put_text("type", "object");
    network_peers_schema(Value::Object(item))
}

/// The schema of the metadata of a RestateCluster: its name has to be one that a namespace can have.
pub open spec fn metadata_json() -> Json {
    Json::Object(
        no_fields().insert(
            "properties"@,
            Json::Object(
                no_fields().insert(
                    "name"@,
                    Json::Object(
                        no_fields().insert("maxLength"@, Json::Int(63)).insert(
                            "minLength"@,
                            Json::Int(1),
                        ).insert("pattern"@, Json::Text(NAME_PATTERN@)).insert(
                            "type"@,
                            Json::Text("string"@),
                        ),
                    ),
                ),
            ),
        ).insert("type"@, Json::Text("object"@)),
    )
}

/// The schema of a RestateCluster, from those of its specification and its status.
pub fn json_schema(spec: Value, status: Value) -> (r: Value)
    ensures
        r@ == Json::Object(
            no_fields().insert(
                "description"@,
                Json::Text(
                    "RestateCluster describes the configuration and status of a Restate cluster."@,
                ),
            ).insert(
                "properties"@,
                Json::Object(
                    no_fields().insert("metadata"@, metadata_json()).insert(
                        "spec"@,
                        spec@,
                    ).insert("status"@, status@),
                ),
            ).insert("required"@, text_array(seq!["metadata"@, "spec"@])).insert(
                "type"@,
                Json::Text("object"@),
            ),
        ),
{
    let mut name = Object::new();
    name.put("maxLength", Value::Int(63));
    name.put("minLength", Value::Int(1));
    name.put_text("pattern", NAME_PATTERN);
    name.put_text("type", "string");
    let mut named = Object::new();
    named.put("name", Value::Object(name));
    let mut metadata = Object::new();
    metadata.put("properties", Value::Object(named));
    metadata.put_text("type", "object");
    let mut properties = Object::new();
    properties.put("metadata", Value::Object(metadata));
    properties.put("spec", spec);
    properties.put("status", status);
    let mut required: Vec<String> = Vec::new();
    required.push("metadata".to_owned());
    required.push("spec".to_owned());
    proof {
        assert(texts(required@) =~= seq!["metadata"@, "spec"@]);
    }
    let mut o = Object::new();
    o.put_text(
        "description",
        "RestateCluster describes the configuration and status of a Restate cluster.",
    );
    o.put("properties", Value::Object(properties));
    o.put("required", Value::texts(&required));
    o.put_text("type", "object");
    Value::Object(o)
}

} // verus!
