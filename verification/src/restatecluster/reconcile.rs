//! The reconcile of a cluster.

use vstd::prelude::*;
use vstd::string::*;

use crate::error::Error;
use crate::meta::ObjectMeta;
use crate::restatecluster::canary::is_not_ready;
use crate::restatecluster::compute::{compute_steps, reconcile_compute, role_arn};
use crate::restatecluster::network_policies::{network_steps, reconcile_network_policies};
use crate::restatecluster::provisioning::{
    check_provisioning_pod, due_complaint, first_node, is_node_wait, provision_failure,
    provisioning_due, provisioning_endpoint, run_provisioning, to_provision, ProvisionAnswer,
};
use crate::restatecluster::resource::{
    NetworkPolicyEgressRule, OperatorSettings, RestateCluster, RestateClusterNetworkPeers,
    RestateClusterSpec, SigningKey,
};
use crate::restatecluster::status::{
    base_metadata, base_view, check_namespace, cluster_namespace, cluster_owner,
    controller_owner_ref, is_owner, namespace_json,
};
use crate::restatecluster::steps::{push_step, step_views, ClusterStep, StepView};
use crate::restatecluster::storage::{
    stateful_set_complaint, validate_stateful_set_status, StatefulSetStatus,
};
use crate::text::opt_text;

verus! {

/// Whom the cluster lets in.
pub open spec fn asked_peers(spec: RestateClusterSpec) -> Option<RestateClusterNetworkPeers> {
    match spec.security {
        Some(s) => s.network_peers,
        None => None,
    }
}

/// Where the cluster may go.
pub open spec fn asked_rules(spec: RestateClusterSpec) -> Option<Vec<NetworkPolicyEgressRule>> {
    match spec.security {
        Some(s) => s.network_egress_rules,
        None => None,
    }
}

/// Whether the operator may reach the admin port: it may unless that is forbidden.
pub open spec fn admin_allowed(spec: RestateClusterSpec) -> bool {
    !(spec.security matches Some(s) && s.allow_operator_access_to_admin == Some(false))
}

/// The steps of a reconcile: the namespace, the network policies, and then the nodes.
pub open spec fn cluster_steps(
    settings: OperatorSettings,
    rc: RestateCluster,
    signing_key: Option<SigningKey>,
) -> Seq<StepView> {
    let name = rc.metadata.any_name();
    let base = base_view(rc);
    seq![StepView::ApplyNamespace(namespace_json(base, name))] + network_steps(
        settings,
        name,
        base,
        asked_peers(rc.spec),
        admin_allowed(rc.spec),
        asked_rules(rc.spec),
        role_arn(rc.spec) is Some,
    ) + compute_steps(settings, name, base, rc.spec, signing_key)
}

/// Whether the name of a cluster is taken, by a namespace that it does not own.
pub open spec fn name_taken(rc: RestateCluster, existing: Option<ObjectMeta>) -> bool {
    existing matches Some(meta) && !is_owner(meta, cluster_owner(rc))
}

fn push_all(steps: &mut Vec<ClusterStep>, more: Vec<ClusterStep>)
    ensures
        step_views(final(steps)@) == step_views(old(steps)@) + step_views(more@),
{
    let ghost before = steps@;
    let ghost added = more@;
    let mut more = more;
    steps.append(&mut more);
    proof {
        assert(step_views(steps@) =~= step_views(before) + step_views(added));
    }
}

/// The steps of the reconcile of a cluster, whose name is also its namespace. `existing` is the
/// namespace of that name, where there is one.
pub fn reconcile(
    settings: &OperatorSettings,
    rc: &RestateCluster,
    existing: &Option<ObjectMeta>,
    signing_key: &Option<SigningKey>,
) -> (r: Result<Vec<ClusterStep>, Error>)
    requires
        rc.metadata.name is Some,
        rc.metadata.uid is Some,
    ensures
        if name_taken(*rc, *existing) {
            r == Err::<Vec<ClusterStep>, Error>(Error::NameConflict)
        } else {
            r matches Ok(steps) && step_views(steps@) == cluster_steps(*settings, *rc, *signing_key)
        },
{
    let owner = controller_owner_ref(rc);
    match check_namespace(existing, &owner) {
        Ok(()) => {},
        Err(e) => return Err(e),
    }
    let name: String = rc.metadata.name_any();
    let base = base_metadata(rc);
    let no_peers: Option<RestateClusterNetworkPeers> = None;
    let no_rules: Option<Vec<NetworkPolicyEgressRule>> = None;
    let peers: &Option<RestateClusterNetworkPeers> = match &rc.spec.security {
        Some(s) => &s.network_peers,
        None => &no_peers,
    };
    let rules: &Option<Vec<NetworkPolicyEgressRule>> = match &rc.spec.security {
        Some(s) => &s.network_egress_rules,
        None => &no_rules,
    };
    let (allowed, role): (bool, bool) = match &rc.spec.security {
        Some(s) => (
            match s.allow_operator_access_to_admin {
                Some(a) => a,
                None => true,
            },
            s.aws_pod_identity_association_role_arn.is_some(),
        ),
        None => (true, false),
    };
    let mut steps: Vec<ClusterStep> = Vec::new();
    proof {
        assert(step_views(steps@) =~= Seq::empty());
    }
    push_step(
        &mut steps,
        ClusterStep::ApplyNamespace(cluster_namespace(&base, name.as_str())),
    );
    push_all(
        &mut steps,
        reconcile_network_policies(
            settings,
            name.as_str(),
            &base,
            peers,
            allowed,
            rules,
            role,
        ),
    );
    push_all(
        &mut steps,
        reconcile_compute(settings, name.as_str(), &base, &rc.spec, signing_key),
    );
    proof {
        assert(step_views(steps@) =~= cluster_steps(*settings, *rc, *signing_key));
    }
    Ok(steps)
}

/// How far a reconcile has got once its steps are taken.
#[derive(Debug, Clone, Copy, PartialEq, Eq, Structural)]
pub enum ClusterStage {
    Applying,
    LookingAtNode,
    Provisioning,
    Finished,
}

/// What came of the last command.
#[derive(Debug)]
pub enum ClusterEvent {
    /// Every step was taken, and the StatefulSet reports this.
    Applied { set: Option<StatefulSetStatus> },
    /// The phase of the first node, where it is there.
    Node { phase: Option<String> },
    Answered(ProvisionAnswer),
    Failed(Error),
}

/// What to do next.
#[derive(Debug)]
pub enum ClusterCommand {
    /// Look at the first node.
    LookAtNode,
    /// Ask the first node to provision the cluster.
    Provision { endpoint: String },
    Finish(Result<(), Error>),
}

/// Whether an event can come of the command that led to a stage.
pub open spec fn cluster_answers(from: ClusterStage, event: ClusterEvent) -> bool {
    match (from, event) {
        (ClusterStage::Finished, _) => false,
        (_, ClusterEvent::Failed(_)) => true,
        (ClusterStage::Applying, ClusterEvent::Applied { .. }) => true,
        (ClusterStage::LookingAtNode, ClusterEvent::Node { .. }) => true,
        (ClusterStage::Provisioning, ClusterEvent::Answered(_)) => true,
        _ => false,
    }
}

/// Whether an event can come of the command that led to a stage.
pub fn cluster_expects(from: ClusterStage, event: &ClusterEvent) -> (r: bool)
    ensures
        r == cluster_answers(from, *event),
{
    match (from, event) {
        (ClusterStage::Finished, _) => false,
        (_, ClusterEvent::Failed(_)) => true,
        (ClusterStage::Applying, ClusterEvent::Applied { .. }) => true,
        (ClusterStage::LookingAtNode, ClusterEvent::Node { .. }) => true,
        (ClusterStage::Provisioning, ClusterEvent::Answered(_)) => true,
        _ => false,
    }
}

/// Whether the reconcile of a cluster ends with this result.
pub open spec fn cluster_ends(to: ClusterStage, command: ClusterCommand, r: Result<(), Error>) -> bool {
    to is Finished && command == ClusterCommand::Finish(r)
}

/// How many nodes a cluster has.
pub open spec fn expected_nodes(spec: RestateClusterSpec) -> int {
    match spec.compute.replicas {
        Some(n) => n as int,
        None => 1,
    }
}

/// How a reconcile goes on. Nodes become ready only once the cluster is provisioned, so that comes
/// before they are waited for.
pub open spec fn cluster_goes_on(
    rc: RestateCluster,
    cluster_dns: Seq<char>,
    from: ClusterStage,
    event: ClusterEvent,
    to: ClusterStage,
    command: ClusterCommand,
) -> bool {
    match (from, event) {
        (_, ClusterEvent::Failed(e)) => cluster_ends(to, command, Err(e)),
        (ClusterStage::Applying, ClusterEvent::Applied { set }) => if to_provision(
            rc.spec,
            rc.status,
        ) {
            match due_complaint(rc.spec) {
                None => to is LookingAtNode && command is LookAtNode,
                Some(t) => {
                    &&& to is Finished
                    &&& command matches ClusterCommand::Finish(Err(Error::InvalidRestateConfig(m)))
                    &&& m@ == t
                },
            }
        } else {
            match stateful_set_complaint(set, expected_nodes(rc.spec)) {
                None => cluster_ends(to, command, Ok(())),
                Some((reason, message)) => {
                    &&& to is Finished
                    &&& command matches ClusterCommand::Finish(Err(e))
                    &&& is_not_ready(e, reason, message)
                },
            }
        },
        (ClusterStage::LookingAtNode, ClusterEvent::Node { phase }) => if opt_text(phase) == Some(
            "Running"@,
        ) {
            &&& to is Provisioning
            &&& command matches ClusterCommand::Provision { endpoint }
            &&& endpoint@ == first_node(rc.metadata.any_name(), cluster_dns)
        } else {
            &&& to is Finished
            &&& command matches ClusterCommand::Finish(Err(e))
            &&& is_node_wait(e)
        },
        (ClusterStage::Provisioning, ClusterEvent::Answered(a)) => match provision_failure(a) {
            None => cluster_ends(to, command, Err(Error::Provisioned)),
            Some(why) => {
                &&& to is Finished
                &&& command matches ClusterCommand::Finish(Err(Error::ProvisioningFailed(t)))
                &&& t@ == why
            },
        },
        _ => false,
    }
}

/// Takes a reconcile on from where its steps are taken.
pub fn cluster_step(
    rc: &RestateCluster,
    cluster_dns: &str,
    from: ClusterStage,
    event: ClusterEvent,
) -> (r: (ClusterStage, ClusterCommand))
    requires
        cluster_answers(from, event),
    ensures
        cluster_goes_on(*rc, cluster_dns@, from, event, r.0, r.1),
{
    match event {
        ClusterEvent::Failed(e) => (ClusterStage::Finished, ClusterCommand::Finish(Err(e))),
        ClusterEvent::Applied { set } => match provisioning_due(&rc.spec, &rc.status) {
            Err(e) => (ClusterStage::Finished, ClusterCommand::Finish(Err(e))),
            Ok(true) => (ClusterStage::LookingAtNode, ClusterCommand::LookAtNode),
            Ok(false) => {
                let expected: i32 = match rc.spec.compute.replicas {
                    Some(n) => n,
                    None => 1,
                };
                match validate_stateful_set_status(set, expected) {
                    Ok(()) => (ClusterStage::Finished, ClusterCommand::Finish(Ok(()))),
                    Err(e) => (ClusterStage::Finished, ClusterCommand::Finish(Err(e))),
                }
            },
        },
        ClusterEvent::Node { phase } => {
            let phase: Option<&str> = match &phase {
                Some(p) => Some(p.as_str()),
                None => None,
            };
            match check_provisioning_pod(phase) {
                Err(e) => (ClusterStage::Finished, ClusterCommand::Finish(Err(e))),
                Ok(()) => {
                    let name: String = rc.metadata.name_any();
                    (
                        ClusterStage::Provisioning,
                        ClusterCommand::Provision {
                            endpoint: provisioning_endpoint(name.as_str(), cluster_dns),
                        },
                    )
                },
            }
        },
        ClusterEvent::Answered(a) => match run_provisioning(&a) {
            Err(e) => (ClusterStage::Finished, ClusterCommand::Finish(Err(e))),
            Ok(()) => (ClusterStage::Finished, ClusterCommand::Finish(Err(Error::Provisioned))),
        },
    }
}

/// A cluster is called ready only where it has nothing left to be provisioned and every node that it
/// asks for is ready.
pub proof fn ready_clusters_are_complete(
    rc: RestateCluster,
    cluster_dns: Seq<char>,
    from: ClusterStage,
    event: ClusterEvent,
    to: ClusterStage,
    command: ClusterCommand,
)
    requires
        cluster_goes_on(rc, cluster_dns, from, event, to, command),
        command == ClusterCommand::Finish(Ok(())),
    ensures
        !to_provision(rc.spec, rc.status),
        event matches ClusterEvent::Applied { set } && stateful_set_complaint(
            set,
            expected_nodes(rc.spec),
        ) is None,
{
}

/// The nodes of a cluster are shut off before they are started: its network policies come before its
/// StatefulSet.
pub proof fn nodes_start_shut_off(
    settings: OperatorSettings,
    rc: RestateCluster,
    signing_key: Option<SigningKey>,
    i: int,
)
    requires
        0 <= i < cluster_steps(settings, rc, signing_key).len(),
        cluster_steps(settings, rc, signing_key)[i] is ApplyStatefulSet,
    ensures
        i > 8,
        cluster_steps(settings, rc, signing_key).subrange(1, 9) == network_steps(
            settings,
            rc.metadata.any_name(),
            base_view(rc),
            asked_peers(rc.spec),
            admin_allowed(rc.spec),
            asked_rules(rc.spec),
            role_arn(rc.spec) is Some,
        ),
{
    let name = rc.metadata.any_name();
    let base = base_view(rc);
    let network = network_steps(
        settings,
        name,
        base,
        asked_peers(rc.spec),
        admin_allowed(rc.spec),
        asked_rules(rc.spec),
        role_arn(rc.spec) is Some,
    );
    let all = cluster_steps(settings, rc, signing_key);
    assert(network.len() == 8);
    assert(all.subrange(1, 9) =~= network);
    assert(all[0] is ApplyNamespace);
    if 1 <= i < 9 {
        assert(all[i] == network[i - 1]);
    }
}

} // verus!
