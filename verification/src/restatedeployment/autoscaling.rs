//! Autoscaling of the versions that are no longer the latest.

use vstd::prelude::*;

use crate::json::{no_fields, text_object, Json, Object, Value};
use crate::meta::owner_json;
use crate::restatedeployment::replicaset::{
    owner_of, owner_reference, APP_MANAGED_BY_LABEL, MANAGER_NAME, OWNED_BY_LABEL,
};
use crate::restatedeployment::resource::RestateDeployment;
use crate::string_map::StringMap;

verus! {

/// What to do with the HorizontalPodAutoscaler of a version that is active and not the latest.
///
/// Such a version has one exactly if autoscaling is configured.
#[derive(Debug, Clone, Copy, PartialEq, Eq, Structural)]
pub enum HpaPlan {
    /// Create or update it.
    Ensure,
    /// Drop it, and restore the version to its full replica count.
    RemoveAndRestore,
    /// Leave it: it is garbage-collected with the deployment.
    Skip,
}

/// What to do with the HorizontalPodAutoscaler of an active version.
pub open spec fn hpa_plan(autoscaling_configured: bool, rd_deleting: bool) -> HpaPlan {
    if rd_deleting {
        HpaPlan::Skip
    } else if autoscaling_configured {
        HpaPlan::Ensure
    } else {
        HpaPlan::RemoveAndRestore
    }
}

/// Decides what to do with the HorizontalPodAutoscaler of an active version.
pub fn plan_active_version_hpa(autoscaling_configured: bool, rd_deleting: bool) -> (r: HpaPlan)
    ensures
        r == hpa_plan(autoscaling_configured, rd_deleting),
{
    if rd_deleting {
        HpaPlan::Skip
    } else if autoscaling_configured {
        HpaPlan::Ensure
    } else {
        HpaPlan::RemoveAndRestore
    }
}

/// What a HorizontalPodAutoscaler of a version scales: its ReplicaSet.
pub open spec fn scale_target(versioned_name: Seq<char>) -> Json {
    Json::Object(
        no_fields().insert("apiVersion"@, Json::Text("apps/v1"@)).insert(
            "kind"@,
            Json::Text("ReplicaSet"@),
        ).insert("name"@, Json::Text(versioned_name)),
    )
}

/// The specification of the HorizontalPodAutoscaler of a version: the template, with the target of
/// the operator and with at least one replica, for there is no scale to zero.
pub open spec fn hpa_spec(template: Json, versioned_name: Seq<char>) -> Map<Seq<char>, Json> {
    let given = match template {
        Json::Object(m) => m,
        _ => no_fields(),
    };
    let targeted = given.insert("scaleTargetRef"@, scale_target(versioned_name));
    if targeted.contains_key("minReplicas"@) && (targeted["minReplicas"@] matches Json::Int(n) && n
        < 1) {
        targeted.insert("minReplicas"@, Json::Int(1))
    } else {
        targeted
    }
}

/// The HorizontalPodAutoscaler of a version. It shares the name of the ReplicaSet.
pub open spec fn hpa_json(
    rsd: RestateDeployment,
    namespace: Seq<char>,
    versioned_name: Seq<char>,
    template: Json,
) -> Json {
    let labels = Map::<Seq<char>, Seq<char>>::empty().insert(
        APP_MANAGED_BY_LABEL@,
        MANAGER_NAME@,
    ).insert(OWNED_BY_LABEL@, rsd.metadata.any_name());
    let metadata = Json::Object(
        no_fields().insert("name"@, Json::Text(versioned_name)).insert(
            "namespace"@,
            Json::Text(namespace),
        ).insert("labels"@, text_object(labels)).insert(
            "ownerReferences"@,
            Json::Array(seq![owner_json(owner_of(rsd))]),
        ),
    );
    Json::Object(
        no_fields().insert("apiVersion"@, Json::Text("autoscaling/v2"@)).insert(
            "kind"@,
            Json::Text("HorizontalPodAutoscaler"@),
        ).insert("metadata"@, metadata).insert(
            "spec"@,
            Json::Object(hpa_spec(template, versioned_name)),
        ),
    )
}

/// Builds the HorizontalPodAutoscaler of a version from the template of the user.
pub fn build_version_hpa(
    rsd: &RestateDeployment,
    namespace: &str,
    versioned_name: &str,
    template: &Value,
) -> (r: Value)
    requires
        rsd.metadata.name is Some,
        rsd.metadata.uid is Some,
    ensures
        r@ == hpa_json(*rsd, namespace@, versioned_name@, template@),
{
    let mut spec = match template {
        Value::Object(o) => o.duplicate(),
        _ => Object::new(),
    };
    let mut target = Object::new();
    target.put_text("apiVersion", "apps/v1");
    target.put_text("kind", "ReplicaSet");
    target.put_text("name", versioned_name);
    spec.put("scaleTargetRef", Value::Object(target));
    let too_low: bool = match spec.get("minReplicas") {
        Some(Value::Int(n)) => *n < 1,
        _ => false,
    };
    if too_low {
        spec.put("minReplicas", Value::Int(1));
    }

    let mut labels = StringMap::new();
    labels.insert(APP_MANAGED_BY_LABEL.to_owned(), MANAGER_NAME.to_owned());
    labels.insert(OWNED_BY_LABEL.to_owned(), rsd.metadata.name_any());

    let mut metadata = Object::new();
    metadata.put_text("name", versioned_name);
    metadata.put_text("namespace", namespace);
    metadata.put("labels", Value::labels(&labels));
    metadata.put("ownerReferences", Value::singleton(owner_reference(rsd).value()));

    let mut object = Object::new();
    object.put_text("apiVersion", "autoscaling/v2");
    object.put_text("kind", "HorizontalPodAutoscaler");
    object.put("metadata", Value::Object(metadata));
    object.put("spec", Value::Object(spec));
    Value::Object(object)
}

/// A version is never scaled below one replica by its HorizontalPodAutoscaler where the template
/// gives a number, and everything else of the template is passed through.
pub proof fn template_is_passed_through(
    template: Map<Seq<char>, Json>,
    versioned_name: Seq<char>,
    name: Seq<char>,
)
    ensures
        name != "scaleTargetRef"@ && name != "minReplicas"@ ==> (hpa_spec(
            Json::Object(template),
            versioned_name,
        ).contains_key(name) == template.contains_key(name) && (template.contains_key(name)
            ==> hpa_spec(Json::Object(template), versioned_name)[name] == template[name])),
        template.contains_key("minReplicas"@) && template["minReplicas"@] is Int ==> hpa_spec(
            Json::Object(template),
            versioned_name,
        )["minReplicas"@]->Int_0 >= 1,
{
    reveal_strlit("minReplicas");
    reveal_strlit("scaleTargetRef");
    assert("minReplicas"@.len() != "scaleTargetRef"@.len());
}

} // verus!
