//! What the entry points bring about, by what is said elsewhere of its parts.

use vstd::prelude::*;

use crate::error::Error;
use crate::json::Value;
use crate::meta::{opt_map, ObjectMeta};
use crate::restatecloudenvironment::controller::base_view as environment_base;
use crate::restatecloudenvironment::resource::RestateCloudEnvironment;
use crate::restatecloudenvironment::tunnel::{
    proxies, tunnel_deployment_json, tunnel_service_json,
};
use crate::restatecluster::compute::{compute_steps, reconcile_compute};
use crate::restatecluster::network_policies::{network_steps, reconcile_network_policies};
use crate::restatecluster::reconcile::{
    cluster_answers, cluster_goes_on, cluster_step, cluster_steps, name_taken, ClusterCommand,
    ClusterEvent, ClusterStage,
};
use crate::restatecluster::resource::{
    NetworkPolicyEgressRule, OperatorSettings, RestateCluster, RestateClusterNetworkPeers,
    RestateClusterSpec, SigningKey,
};
use crate::restatecluster::steps::{step_views, ClusterStep};
use crate::restatedeployment::autoscaling::{plan_active_version_hpa, HpaPlan};
use crate::restatedeployment::cleanup::{
    deployment_usage_query, retain_for_rollback, usage_query, CleanupMode,
};
use crate::restatedeployment::hash::{
    generate_pod_template_hash, healthy_requeue, healthy_requeue_after, identity, requeue_for_hash,
    template_hash, text_hash,
};
use crate::restatedeployment::knative::{
    build_route_spec, check_revision_ready, check_route_ready, determine_tag, get_initial_scale,
    initial_scale, revision_wait, route_json, route_wait, Configuration, Revision, Route,
};
use crate::restatedeployment::reconcile::{
    answers, goes_on, step, tunnel_name, Command, CurrentVersion, Event, ReconcileInputs, Stage,
};
use crate::restatedeployment::resource::{InProcessTunnelParams, RestateDeployment};
use crate::restatekafkaintegration::controller::{
    base_view as integration_base, kafka_step_views, kafka_steps, KafkaStep,
};
use crate::restatekafkaintegration::resource::RestateKafkaIntegration;
use crate::time::Duration;

verus! {

/// An environment brings about a Deployment and a Service in the namespace of the operator.
pub proof fn what_an_environment_brings_about(
    rce: RestateCloudEnvironment,
    namespace: &str,
    image: &str,
    r: (Value, Value),
)
    requires
        rce.metadata.name is Some,
        rce.metadata.uid is Some,
        call_ensures(
            crate::restatecloudenvironment::controller::reconcile,
            (&rce, namespace, image),
            r,
        ),
    ensures
        ({
            let (deployment, service) = r;
            let base = environment_base(rce, namespace@);
            &&& deployment@ == tunnel_deployment_json(
                base,
                rce.metadata.uid->0@,
                rce.spec,
                image@,
            )
            &&& service@ == tunnel_service_json(base, proxies(rce.spec))
            &&& base.name == Some("tunnel-"@ + rce.metadata.any_name())
            &&& base.namespace == Some(namespace@)
        }),
{
}

/// A cluster brings about its steps in order, unless its name is taken.
pub proof fn what_a_cluster_brings_about(
    settings: OperatorSettings,
    rc: RestateCluster,
    existing: Option<ObjectMeta>,
    signing_key: Option<SigningKey>,
    r: Result<Vec<ClusterStep>, Error>,
)
    requires
        rc.metadata.name is Some,
        rc.metadata.uid is Some,
        call_ensures(
            crate::restatecluster::reconcile::reconcile,
            (&settings, &rc, &existing, &signing_key),
            r,
        ),
    ensures
        name_taken(rc, existing) ==> r == Err::<Vec<ClusterStep>, Error>(Error::NameConflict),
        !name_taken(rc, existing) ==> r is Ok && step_views(r->Ok_0@) == cluster_steps(
            settings,
            rc,
            signing_key,
        ),
{
}

/// The network and the nodes of a cluster are brought about by their own steps.
pub proof fn what_the_parts_of_a_cluster_bring_about(
    settings: OperatorSettings,
    name: &str,
    base: ObjectMeta,
    spec: RestateClusterSpec,
    signing_key: Option<SigningKey>,
    nodes: Vec<ClusterStep>,
    peers: Option<RestateClusterNetworkPeers>,
    allow_operator: bool,
    rules: Option<Vec<NetworkPolicyEgressRule>>,
    with_role: bool,
    network: Vec<ClusterStep>,
)
    requires
        base.name is Some,
        call_ensures(reconcile_compute, (&settings, name, &base, &spec, &signing_key), nodes),
        call_ensures(
            reconcile_network_policies,
            (&settings, name, &base, &peers, allow_operator, &rules, with_role),
            network,
        ),
    ensures
        step_views(nodes@) == compute_steps(settings, name@, base@, spec, signing_key),
        step_views(network@) == network_steps(
            settings,
            name@,
            base@,
            peers,
            allow_operator,
            rules,
            with_role,
        ),
{
}

/// An integration brings about its steps in order, once it has a token where it wants one and its
/// ingress is known.
pub proof fn what_an_integration_brings_about(
    rki: RestateKafkaIntegration,
    namespace: &str,
    ingress: Result<String, Error>,
    image: &str,
    r: Result<Vec<KafkaStep>, Error>,
)
    requires
        rki.metadata.name is Some,
        rki.metadata.uid is Some,
        call_ensures(
            crate::restatekafkaintegration::controller::reconcile,
            (&rki, namespace, ingress, image),
            r,
        ),
    ensures
        ({
            let lacking = rki.spec.restate.ingress.cloud is Some && rki.spec.restate.auth_token
                is None;
            &&& lacking ==> r is Err && r->Err_0 is InvalidRestateConfig
            &&& !lacking && ingress is Err ==> r == Err::<Vec<KafkaStep>, Error>(ingress->Err_0)
            &&& !lacking && ingress is Ok ==> r is Ok && kafka_step_views(r->Ok_0@) == kafka_steps(
                integration_base(rki, namespace@),
                rki.spec,
                ingress->Ok_0@,
                image@,
            )
        }),
{
}

/// A reconcile of a version and one of a cluster go on as is said of their steps.
pub proof fn how_reconciles_go_on(
    inputs: ReconcileInputs,
    from: Stage,
    event: Event,
    r: (Stage, Command),
    rc: RestateCluster,
    dns: &str,
    at: ClusterStage,
    happened: ClusterEvent,
    next: (ClusterStage, ClusterCommand),
)
    requires
        answers(from, event),
        call_ensures(step, (&inputs, from, event), r),
        cluster_answers(at, happened),
        call_ensures(cluster_step, (&rc, dns, at, happened), next),
    ensures
        ({
            let (to, command) = r;
            goes_on(inputs, from, event, to, command)
        }),
        ({
            let (to, command) = next;
            cluster_goes_on(rc, dns@, at, happened, to, command)
        }),
{
}

/// A version keeps the name of its tunnel, and otherwise goes by its own.
pub proof fn what_a_tunnel_is_named(version: CurrentVersion, name: &str, r: String)
    requires
        call_ensures(tunnel_name, (&version, name), r),
    ensures
        version.meta.annotation("restate.dev/tunnel-name"@) matches Some(n) ==> r@ == n,
        version.meta.annotation("restate.dev/tunnel-name"@) is None ==> r@ == name@,
{
}

/// The Route of a version is built from its own name and the Configuration that it leads to.
pub proof fn what_a_route_is_built_from(
    rsd: RestateDeployment,
    name: &str,
    namespace: &str,
    config_name: &str,
    config: ObjectMeta,
    r: Value,
)
    requires
        config.name is Some,
        config.uid is Some,
        call_ensures(build_route_spec, (&rsd, name, namespace, config_name, &config), r),
    ensures
        r@ == route_json(rsd, name@, namespace@, config_name@, config),
{
}

/// A revision and a Route are ready where nothing of them is waited for.
pub proof fn when_a_rollout_is_ready(
    revision: Revision,
    a: Result<(), Error>,
    route: Route,
    expected: &str,
    b: Result<(), Error>,
)
    requires
        call_ensures(check_revision_ready, (&revision,), a),
        call_ensures(check_route_ready, (&route, expected), b),
    ensures
        a is Ok <==> revision_wait(revision) is None,
        b is Ok <==> route_wait(route, expected@) is None,
        a is Err ==> a->Err_0 is ConfigurationNotReady,
        b is Err ==> b->Err_0 is RouteNotReady,
{
}

/// The tag of a version is the user's, or else the hash of its template; and the hash takes in the
/// tunnel that it is given.
pub proof fn what_a_version_is_told_apart_by(
    rsd: RestateDeployment,
    template: &str,
    tag: String,
    tunnel: Option<&InProcessTunnelParams>,
    hash: String,
)
    requires
        call_ensures(determine_tag, (&rsd, template), tag),
        call_ensures(generate_pod_template_hash, (&rsd, template, tunnel), hash),
    ensures
        rsd.spec.knative is Some && rsd.spec.knative->0.tag is Some ==> tag@
            == rsd.spec.knative->0.tag->0@,
        rsd.spec.knative is None || rsd.spec.knative->0.tag is None ==> tag@ == template_hash(
            rsd,
            template@,
            None,
        ),
        hash@ == template_hash(
            rsd,
            template@,
            match tunnel {
                Some(p) => Some(*p),
                None => None,
            },
        ),
{
}

/// An autoscaler is kept up where one is configured, taken away where none is, and left alone in a
/// deletion.
pub proof fn what_becomes_of_an_autoscaler(configured: bool, deleting: bool, r: HpaPlan)
    requires
        call_ensures(plan_active_version_hpa, (configured, deleting), r),
    ensures
        deleting ==> r is Skip,
        !deleting && configured ==> r is Ensure,
        !deleting && !configured ==> r is RemoveAndRestore,
{
}

/// A version is kept for a rollback in a rollout while fewer than the limit are kept.
pub proof fn which_versions_are_kept(mode: CleanupMode, count: i32, limit: i32, r: bool)
    requires
        call_ensures(retain_for_rollback, (mode, count, limit), r),
    ensures
        r <==> mode == CleanupMode::Rollout && count < limit,
{
}

/// What is asked of Restate follows from the mode alone, and the time of the next look at a healthy
/// deployment from its identity alone.
pub proof fn what_follows_from_what(
    mode: CleanupMode,
    query: String,
    rsd: RestateDeployment,
    wait: Duration,
    hash: u64,
    spread: Duration,
    config: Configuration,
    scale: i32,
)
    requires
        call_ensures(deployment_usage_query, (mode,), query),
        call_ensures(healthy_requeue_after, (&rsd,), wait),
        call_ensures(requeue_for_hash, (hash,), spread),
        call_ensures(get_initial_scale, (&config,), scale),
    ensures
        query@ == usage_query(mode),
        wait@ == healthy_requeue(text_hash(identity(rsd))),
        spread@ == healthy_requeue(hash),
        scale == initial_scale(opt_map(config.template_annotations)),
{
}

} // verus!
