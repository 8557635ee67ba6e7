//! The nodes of a cluster and what they run with.

use vstd::prelude::*;
use vstd::string::*;

use crate::digest::{hex_bytes, text_digest};
use crate::error::{Error, KubeFailure, KubeFailureKind};
use crate::json::opt_json;
use crate::manifest::config_map_json;
use crate::meta::{entries, opt_map, MetaView, ObjectMeta};
use crate::restatecluster::canary::{
    canary_command, canary_config, canary_job_json, canary_job_spec, canary_name, is_not_ready,
    CanaryKind, PIA_CANARY, WI_CANARY,
};
use crate::restatecluster::labels::object_view;
use crate::restatecluster::objects::{
    cluster_service_json, condition_holds, config_map_name, disruption_budget_json, gcp_project,
    iam_policy_member_json, is_iam_policy_member_ready, is_pod_identity_association_synced,
    parse_gcp_project_from_sa_email, pod_identity_json, restate_cluster_service, restate_configmap,
    restate_iam_policy_member, restate_pod_disruption_budget, restate_pod_identity_association,
    restate_security_group_policy, restate_service, restate_service_account, security_group_json,
    service_account_json, service_json, ConditionedStatus,
};
use crate::restatecluster::resource::{OperatorSettings, RestateClusterSpec, SigningKey};
use crate::restatecluster::statefulset::{
    cert_refs, hash_trusted_ca_cert_refs, restate_statefulset, statefulset_json, trusted_certs,
};
use crate::restatecluster::steps::{push_step, step_views, ClusterStep, OwnedKind, StepView};
use crate::string_map::StringMap;
use crate::text::{cat3, join, join_strings, opt_text, texts};
use crate::time::{secs, Duration};

verus! {

pub const GCP_SERVICE_ACCOUNT_ANNOTATION: &'static str = "iam.gke.io/gcp-service-account";

pub const PIA_CLUSTER_ANNOTATION: &'static str = "restate.dev/aws-pod-identity-association-cluster";

pub const PIA_ROLE_ANNOTATION: &'static str = "restate.dev/aws-pod-identity-association-role-arn";

pub const SECURITY_GROUPS_ANNOTATION: &'static str = "restate.dev/aws-security-groups";

pub const GCP_ANNOTATION: &'static str = "restate.dev/gcp-service-account";

pub const TRUSTED_CA_ANNOTATION: &'static str = "restate.dev/trusted-ca-certs";

/// The AWS role that is asked for.
pub open spec fn role_arn(spec: RestateClusterSpec) -> Option<Seq<char>> {
    match spec.security {
        Some(s) => opt_text(s.aws_pod_identity_association_role_arn),
        None => None,
    }
}

/// The AWS security groups that are asked for.
pub open spec fn security_groups(spec: RestateClusterSpec) -> Seq<Seq<char>> {
    match spec.security {
        Some(s) => match s.aws_pod_security_groups {
            Some(g) => texts(g@),
            None => Seq::empty(),
        },
        None => Seq::empty(),
    }
}

/// The annotations that are asked for on the ServiceAccount.
pub open spec fn account_annotations(spec: RestateClusterSpec) -> Option<Map<Seq<char>, Seq<char>>> {
    match spec.security {
        Some(s) => opt_map(s.service_account_annotations),
        None => None,
    }
}

/// The annotations that are asked for on the Service.
pub open spec fn service_annotations(spec: RestateClusterSpec) -> Option<Map<Seq<char>, Seq<char>>> {
    match spec.security {
        Some(s) => opt_map(s.service_annotations),
        None => None,
    }
}

/// The GCP service account that is asked for.
pub open spec fn gcp_account(spec: RestateClusterSpec) -> Option<Seq<char>> {
    let a = entries(account_annotations(spec));
    if a.contains_key(GCP_SERVICE_ACCOUNT_ANNOTATION@) {
        Some(a[GCP_SERVICE_ACCOUNT_ANNOTATION@])
    } else {
        None
    }
}

/// The step that runs a canary.
pub open spec fn canary_step(
    canary: CanaryKind,
    base: MetaView,
    spec: RestateClusterSpec,
    image: Seq<char>,
) -> StepView {
    StepView::RunCanary {
        canary,
        job: canary_job_json(
            base,
            opt_json(spec.compute.tolerations),
            canary_name(canary),
            image,
            canary_command(canary),
        ),
    }
}

/// The steps that give the pods an AWS role, or take it away.
pub open spec fn pod_identity_steps(
    settings: OperatorSettings,
    ns: Seq<char>,
    base: MetaView,
    spec: RestateClusterSpec,
) -> Seq<StepView> {
    match (opt_text(settings.aws_pod_identity_association_cluster), role_arn(spec)) {
        (Some(cluster), Some(role)) => seq![
            StepView::ApplyPodIdentityAssociation(pod_identity_json(ns, base, cluster, role)),
            canary_step(CanaryKind::PodIdentity, base, spec, settings.canary_image@),
        ],
        (Some(_), None) => seq![
            StepView::Delete { kind: OwnedKind::PodIdentityAssociation, name: "restate"@ },
            StepView::Delete { kind: OwnedKind::Job, name: PIA_CANARY@ },
        ],
        (None, Some(role)) => seq![
            StepView::Warn(
                "Ignoring AWS pod identity association role ARN "@ + role
                    + " as the operator is not configured with --aws-pod-identity-association-cluster"@,
            ),
        ],
        (None, None) => Seq::empty(),
    }
}

/// The steps that put the pods into AWS security groups, or take them out.
pub open spec fn security_group_steps(
    settings: OperatorSettings,
    base: MetaView,
    spec: RestateClusterSpec,
) -> Seq<StepView> {
    let groups = security_groups(spec);
    if settings.security_group_policy_installed {
        if groups.len() > 0 {
            seq![StepView::Apply(security_group_json(base, groups))]
        } else {
            seq![StepView::Delete { kind: OwnedKind::SecurityGroupPolicy, name: "restate"@ }]
        }
    } else if groups.len() > 0 {
        seq![
            StepView::Warn(
                "Ignoring AWS pod security groups "@ + join(groups, ","@)
                    + " as the SecurityGroupPolicy CRD is not installed"@,
            ),
        ]
    } else {
        Seq::empty()
    }
}

/// The steps that let the pods act as a GCP service account, or no longer.
pub open spec fn workload_identity_steps(
    settings: OperatorSettings,
    ns: Seq<char>,
    base: MetaView,
    spec: RestateClusterSpec,
) -> Seq<StepView> {
    match gcp_account(spec) {
        Some(email) => if settings.gcp_workload_identity {
            match gcp_project(email) {
                Some(project) => seq![
                    StepView::ApplyIamPolicyMember(
                        iam_policy_member_json(ns, base, project, email),
                    ),
                    canary_step(CanaryKind::WorkloadIdentity, base, spec, settings.canary_image@),
                ],
                None => seq![
                    StepView::Refuse(
                        "Cannot parse GCP project from service account email '"@ + email
                            + "'; expected format: name@PROJECT.iam.gserviceaccount.com"@,
                    ),
                ],
            }
        } else {
            seq![
                StepView::Warn(
                    "Ignoring iam.gke.io/gcp-service-account annotation "@ + email
                        + " as the operator is not configured with --gcp-workload-identity"@,
                ),
            ]
        },
        None => if settings.gcp_workload_identity {
            seq![
                StepView::Delete {
                    kind: OwnedKind::IamPolicyMember,
                    name: "restate-workload-identity"@,
                },
                StepView::Delete { kind: OwnedKind::Job, name: WI_CANARY@ },
            ]
        } else {
            Seq::empty()
        },
    }
}

/// The annotations with one more, where there is a value for it.
pub open spec fn with_annotation(
    a: Option<Map<Seq<char>, Seq<char>>>,
    key: Seq<char>,
    value: Seq<char>,
) -> Option<Map<Seq<char>, Seq<char>>> {
    Some(entries(a).insert(key, value))
}

/// The annotations by which the operator makes the pods roll: what their credentials, their security
/// groups and their trusted certificates come from.
pub open spec fn internal_annotations(settings: OperatorSettings, spec: RestateClusterSpec) -> Option<
    Map<Seq<char>, Seq<char>>,
> {
    let a = match (opt_text(settings.aws_pod_identity_association_cluster), role_arn(spec)) {
        (Some(cluster), Some(role)) => with_annotation(
            with_annotation(None, PIA_CLUSTER_ANNOTATION@, cluster),
            PIA_ROLE_ANNOTATION@,
            role,
        ),
        _ => None,
    };
    let groups = security_groups(spec);
    let b = if settings.security_group_policy_installed && groups.len() > 0 {
        with_annotation(a, SECURITY_GROUPS_ANNOTATION@, join(groups, ","@))
    } else {
        a
    };
    let c = match gcp_account(spec) {
        Some(email) => if settings.gcp_workload_identity {
            with_annotation(b, GCP_ANNOTATION@, email)
        } else {
            b
        },
        None => b,
    };
    if trusted_certs(spec).len() > 0 {
        with_annotation(
            c,
            TRUSTED_CA_ANNOTATION@,
            hex_bytes(text_digest(cert_refs(trusted_certs(spec)))),
        )
    } else {
        c
    }
}

/// The configuration of the nodes.
pub open spec fn config_text(spec: RestateClusterSpec) -> Seq<char> {
    match spec.config {
        Some(c) => c@,
        None => ""@,
    }
}

/// The steps that bring the nodes of a cluster about, up to its StatefulSet.
pub open spec fn compute_steps(
    settings: OperatorSettings,
    ns: Seq<char>,
    base: MetaView,
    spec: RestateClusterSpec,
    signing_key: Option<SigningKey>,
) -> Seq<StepView> {
    let config = config_text(spec);
    seq![
        StepView::Apply(service_account_json(base, account_annotations(spec))),
        StepView::Apply(
            config_map_json(
                object_view(base, config_map_name(config)),
                Some(Map::<Seq<char>, Seq<char>>::empty().insert("config.toml"@, config)),
            ),
        ),
    ] + pod_identity_steps(settings, ns, base, spec) + security_group_steps(settings, base, spec)
        + workload_identity_steps(settings, ns, base, spec) + seq![
        StepView::Apply(service_json(base, service_annotations(spec))),
        StepView::Apply(cluster_service_json(base)),
        StepView::Apply(disruption_budget_json(base)),
        StepView::ReconcileStorage,
        StepView::ApplyStatefulSet(
            statefulset_json(
                base,
                spec,
                internal_annotations(settings, spec),
                signing_key,
                config_map_name(config),
                settings.canary_image@,
            ),
        ),
    ]
}

fn push_canary(
    steps: &mut Vec<ClusterStep>,
    canary: CanaryKind,
    base_metadata: &ObjectMeta,
    spec: &RestateClusterSpec,
    image: &str,
)
    requires
        base_metadata.name is Some,
    ensures
        step_views(final(steps)@) == step_views(old(steps)@).push(
            canary_step(canary, base_metadata@, *spec, image@),
        ),
{
    let config = canary_config(canary, image);
    let job = canary_job_spec(base_metadata, &spec.compute.tolerations, &config);
    push_step(steps, ClusterStep::RunCanary { canary, job });
}

fn add_annotation(a: &mut Option<StringMap>, key: &str, value: String)
    ensures
        opt_map(*final(a)) == with_annotation(opt_map(*old(a)), key@, value@),
{
    let mut taken: Option<StringMap> = None;
    core::mem::swap(&mut taken, a);
    let mut m: StringMap = match taken {
        Some(m) => m,
        None => StringMap::new(),
    };
    m.insert(key.to_owned(), value);
    *a = Some(m);
}

fn pod_identity(
    steps: &mut Vec<ClusterStep>,
    annotations: &mut Option<StringMap>,
    settings: &OperatorSettings,
    name: &str,
    base_metadata: &ObjectMeta,
    spec: &RestateClusterSpec,
)
    requires
        base_metadata.name is Some,
    ensures
        step_views(final(steps)@) == step_views(old(steps)@) + pod_identity_steps(
            *settings,
            name@,
            base_metadata@,
            *spec,
        ),
        opt_map(*final(annotations)) == match (
            opt_text(settings.aws_pod_identity_association_cluster),
            role_arn(*spec),
        ) {
            (Some(cluster), Some(role)) => with_annotation(
                with_annotation(opt_map(*old(annotations)), PIA_CLUSTER_ANNOTATION@, cluster),
                PIA_ROLE_ANNOTATION@,
                role,
            ),
            _ => opt_map(*old(annotations)),
        },
{
    let ghost before = step_views(steps@);
    let none: Option<String> = None;
    let role: &Option<String> = match &spec.security {
        Some(s) => &s.aws_pod_identity_association_role_arn,
        None => &none,
    };
    match (&settings.aws_pod_identity_association_cluster, role) {
        (Some(cluster), Some(role)) => {
            push_step(
                steps,
                ClusterStep::ApplyPodIdentityAssociation(
                    restate_pod_identity_association(
                        name,
                        base_metadata,
                        cluster.as_str(),
                        role.as_str(),
                    ),
                ),
            );
            push_canary(
                steps,
                CanaryKind::PodIdentity,
                base_metadata,
                spec,
                settings.canary_image.as_str(),
            );
            add_annotation(annotations, PIA_CLUSTER_ANNOTATION, cluster.clone());
            add_annotation(annotations, PIA_ROLE_ANNOTATION, role.clone());
        },
        (Some(_), None) => {
            push_step(
                steps,
                ClusterStep::Delete { kind: OwnedKind::PodIdentityAssociation, name: "restate" },
            );
            push_step(steps, ClusterStep::Delete { kind: OwnedKind::Job, name: PIA_CANARY });
        },
        (None, Some(role)) => {
            push_step(
                steps,
                ClusterStep::Warn(
                    cat3(
                        "Ignoring AWS pod identity association role ARN ",
                        role.as_str(),
                        " as the operator is not configured with --aws-pod-identity-association-cluster",
                    ),
                ),
            );
        },
        (None, None) => {},
    }
    proof {
        assert(step_views(steps@) =~= before + pod_identity_steps(
            *settings,
            name@,
            base_metadata@,
            *spec,
        ));
    }
}

fn security_group(
    steps: &mut Vec<ClusterStep>,
    annotations: &mut Option<StringMap>,
    settings: &OperatorSettings,
    base_metadata: &ObjectMeta,
    spec: &RestateClusterSpec,
)
    requires
        base_metadata.name is Some,
    ensures
        step_views(final(steps)@) == step_views(old(steps)@) + security_group_steps(
            *settings,
            base_metadata@,
            *spec,
        ),
        opt_map(*final(annotations)) == if settings.security_group_policy_installed
            && security_groups(*spec).len() > 0 {
            with_annotation(
                opt_map(*old(annotations)),
                SECURITY_GROUPS_ANNOTATION@,
                join(security_groups(*spec), ","@),
            )
        } else {
            opt_map(*old(annotations))
        },
{
    let ghost before = step_views(steps@);
    let none: Vec<String> = Vec::new();
    let groups: &Vec<String> = match &spec.security {
        Some(s) => match &s.aws_pod_security_groups {
            Some(g) => g,
            None => &none,
        },
        None => &none,
    };
    proof {
        assert(texts(none@) =~= Seq::empty());
        assert(texts(groups@) == security_groups(*spec));
    }
    if settings.security_group_policy_installed {
        if groups.len() > 0 {
            push_step(
                steps,
                ClusterStep::Apply(restate_security_group_policy(base_metadata, groups)),
            );
            add_annotation(annotations, SECURITY_GROUPS_ANNOTATION, join_strings(groups, ","));
        } else {
            push_step(
                steps,
                ClusterStep::Delete { kind: OwnedKind::SecurityGroupPolicy, name: "restate" },
            );
        }
    } else if groups.len() > 0 {
        push_step(
            steps,
            ClusterStep::Warn(
                cat3(
                    "Ignoring AWS pod security groups ",
                    join_strings(groups, ",").as_str(),
                    " as the SecurityGroupPolicy CRD is not installed",
                ),
            ),
        );
    }
    proof {
        assert(step_views(steps@) =~= before + security_group_steps(
            *settings,
            base_metadata@,
            *spec,
        ));
    }
}

fn find_gcp_account(spec: &RestateClusterSpec) -> (r: Option<String>)
    ensures
        opt_text(r) == gcp_account(*spec),
{
    match &spec.security {
        Some(s) => match &s.service_account_annotations {
            Some(a) => match a.get(GCP_SERVICE_ACCOUNT_ANNOTATION) {
                Some(v) => Some(v.clone()),
                None => None,
            },
            None => None,
        },
        None => None,
    }
}

fn workload_identity(
    steps: &mut Vec<ClusterStep>,
    annotations: &mut Option<StringMap>,
    settings: &OperatorSettings,
    name: &str,
    base_metadata: &ObjectMeta,
    spec: &RestateClusterSpec,
)
    requires
        base_metadata.name is Some,
    ensures
        step_views(final(steps)@) == step_views(old(steps)@) + workload_identity_steps(
            *settings,
            name@,
            base_metadata@,
            *spec,
        ),
        opt_map(*final(annotations)) == match gcp_account(*spec) {
            Some(email) => if settings.gcp_workload_identity {
                with_annotation(opt_map(*old(annotations)), GCP_ANNOTATION@, email)
            } else {
                opt_map(*old(annotations))
            },
            None => opt_map(*old(annotations)),
        },
{
    let ghost before = step_views(steps@);
    match find_gcp_account(spec) {
        Some(email) => {
            if settings.gcp_workload_identity {
                match parse_gcp_project_from_sa_email(email.as_str()) {
                    Some(project) => {
                        push_step(
                            steps,
                            ClusterStep::ApplyIamPolicyMember(
                                restate_iam_policy_member(
                                    name,
                                    base_metadata,
                                    project.as_str(),
                                    email.as_str(),
                                ),
                            ),
                        );
                        push_canary(
                            steps,
                            CanaryKind::WorkloadIdentity,
                            base_metadata,
                            spec,
                            settings.canary_image.as_str(),
                        );
                    },
                    None => {
                        push_step(
                            steps,
                            ClusterStep::Refuse(
                                cat3(
                                    "Cannot parse GCP project from service account email '",
                                    email.as_str(),
                                    "'; expected format: name@PROJECT.iam.gserviceaccount.com",
                                ),
                            ),
                        );
                    },
                }
                add_annotation(annotations, GCP_ANNOTATION, email);
            } else {
                push_step(
                    steps,
                    ClusterStep::Warn(
                        cat3(
                            "Ignoring iam.gke.io/gcp-service-account annotation ",
                            email.as_str(),
                            " as the operator is not configured with --gcp-workload-identity",
                        ),
                    ),
                );
            }
        },
        None => {
            if settings.gcp_workload_identity {
                push_step(
                    steps,
                    ClusterStep::Delete {
                        kind: OwnedKind::IamPolicyMember,
                        name: "restate-workload-identity",
                    },
                );
                push_step(steps, ClusterStep::Delete { kind: OwnedKind::Job, name: WI_CANARY });
            }
        },
    }
    proof {
        assert(step_views(steps@) =~= before + workload_identity_steps(
            *settings,
            name@,
            base_metadata@,
            *spec,
        ));
    }
}

fn note_trusted_certs(annotations: &mut Option<StringMap>, spec: &RestateClusterSpec)
    ensures
        opt_map(*final(annotations)) == if trusted_certs(*spec).len() > 0 {
            with_annotation(
                opt_map(*old(annotations)),
                TRUSTED_CA_ANNOTATION@,
                hex_bytes(text_digest(cert_refs(trusted_certs(*spec)))),
            )
        } else {
            opt_map(*old(annotations))
        },
{
    match &spec.security {
        Some(s) => match &s.trusted_ca_certs {
            Some(c) => {
                if c.len() > 0 {
                    add_annotation(
                        annotations,
                        TRUSTED_CA_ANNOTATION,
                        hash_trusted_ca_cert_refs(c),
                    );
                }
            },
            None => {},
        },
        None => {},
    }
}

/// The steps that come last: how the nodes are reached and disrupted, their storage, and themselves.
fn last_steps(
    steps: &mut Vec<ClusterStep>,
    settings: &OperatorSettings,
    base_metadata: &ObjectMeta,
    spec: &RestateClusterSpec,
    signing_key: &Option<SigningKey>,
    annotations: &Option<StringMap>,
    cm_name: &str,
)
    requires
        base_metadata.name is Some,
    ensures
        step_views(final(steps)@) == step_views(old(steps)@) + seq![
            StepView::Apply(service_json(base_metadata@, service_annotations(*spec))),
            StepView::Apply(cluster_service_json(base_metadata@)),
            StepView::Apply(disruption_budget_json(base_metadata@)),
            StepView::ReconcileStorage,
            StepView::ApplyStatefulSet(
                statefulset_json(
                    base_metadata@,
                    *spec,
                    opt_map(*annotations),
                    *signing_key,
                    cm_name@,
                    settings.canary_image@,
                ),
            ),
        ],
{
    let no_annotations: Option<StringMap> = None;
    let on_service: &Option<StringMap> = match &spec.security {
        Some(s) => &s.service_annotations,
        None => &no_annotations,
    };
    let service = restate_service(base_metadata, on_service);
    let cluster_service = restate_cluster_service(base_metadata);
    let budget = restate_pod_disruption_budget(base_metadata);
    let set = restate_statefulset(
        base_metadata,
        spec,
        annotations,
        signing_key,
        cm_name,
        settings.canary_image.as_str(),
    );
    let ghost before = step_views(steps@);
    let ghost added = seq![
        StepView::Apply(service@),
        StepView::Apply(cluster_service@),
        StepView::Apply(budget@),
        StepView::ReconcileStorage,
        StepView::ApplyStatefulSet(set@),
    ];
    push_step(steps, ClusterStep::Apply(service));
    push_step(steps, ClusterStep::Apply(cluster_service));
    push_step(steps, ClusterStep::Apply(budget));
    push_step(steps, ClusterStep::ReconcileStorage);
    push_step(steps, ClusterStep::ApplyStatefulSet(set));
    proof {
        assert(step_views(steps@) =~= before + added);
    }
}

/// The steps that bring the nodes of a cluster about, up to its StatefulSet. The name of the cluster
/// is also its namespace.
pub fn reconcile_compute(
    settings: &OperatorSettings,
    name: &str,
    base_metadata: &ObjectMeta,
    spec: &RestateClusterSpec,
    signing_key: &Option<SigningKey>,
) -> (r: Vec<ClusterStep>)
    requires
        base_metadata.name is Some,
    ensures
        step_views(r@) == compute_steps(
            *settings,
            name@,
            base_metadata@,
            *spec,
            *signing_key,
        ),
{
    let no_annotations: Option<StringMap> = None;
    let on_account: &Option<StringMap> = match &spec.security {
        Some(s) => &s.service_account_annotations,
        None => &no_annotations,
    };
    let config: Option<&str> = match &spec.config {
        Some(c) => Some(c.as_str()),
        None => None,
    };
    let cm = restate_configmap(base_metadata, config);
    let cm_name: Option<String> = cm.metadata.name.clone();
    let cm_name: String = cm_name.unwrap();

    let mut steps: Vec<ClusterStep> = Vec::new();
    let mut annotations: Option<StringMap> = None;
    proof {
        assert(step_views(steps@) =~= Seq::empty());
    }
    push_step(&mut steps, ClusterStep::Apply(restate_service_account(base_metadata, on_account)));
    push_step(&mut steps, ClusterStep::Apply(cm.value()));
    let ghost first = step_views(steps@);
    pod_identity(&mut steps, &mut annotations, settings, name, base_metadata, spec);
    security_group(&mut steps, &mut annotations, settings, base_metadata, spec);
    workload_identity(&mut steps, &mut annotations, settings, name, base_metadata, spec);
    note_trusted_certs(&mut annotations, spec);
    last_steps(&mut steps, settings, base_metadata, spec, signing_key, &annotations, cm_name.as_str());
    proof {
        let c = config_text(*spec);
        let base = base_metadata@;
        assert(first =~= seq![
            StepView::Apply(service_account_json(base, account_annotations(*spec))),
            StepView::Apply(
                config_map_json(
                    object_view(base, config_map_name(c)),
                    Some(Map::<Seq<char>, Seq<char>>::empty().insert("config.toml"@, c)),
                ),
            ),
        ]);
    }
    steps
}

/// Checks that a PodIdentityAssociation has been passed on to AWS.
pub fn judge_pod_identity_association(status: &Option<ConditionedStatus>) -> (r: Result<(), Error>)
    ensures
        r is Ok <==> condition_holds(*status, "ACK.ResourceSynced"@),
        r matches Err(e) ==> is_not_ready(
            e,
            "PodIdentityAssociationNotSynced"@,
            "Waiting for the AWS ACK controller to provision the Pod Identity Association with IAM"@,
        ),
{
    if is_pod_identity_association_synced(status) {
        Ok(())
    } else {
        Err(
            Error::NotReady {
                reason: "PodIdentityAssociationNotSynced".to_owned(),
                message: "Waiting for the AWS ACK controller to provision the Pod Identity Association with IAM".to_owned(),
                requeue_after: None,
            },
        )
    }
}

/// Checks that an IAMPolicyMember was applied and has been passed on to GCP.
pub fn judge_iam_policy_member(applied: Result<Option<ConditionedStatus>, KubeFailure>) -> (r:
    Result<(), Error>)
    ensures
        match applied {
            Err(f) => if f.kind == KubeFailureKind::Api(404) {
                r matches Err(Error::NotReady { message, reason, requeue_after }) && message@
                    == "IAMPolicyMember CRD not found - is Config Connector installed?"@ && reason@
                    == "IAMPolicyMemberCRDNotFound"@ && (requeue_after matches Some(d) && d@
                    == secs(60))
            } else {
                r == Err::<(), Error>(Error::KubeError(f))
            },
            Ok(status) => if condition_holds(status, "Ready"@) {
                r is Ok
            } else {
                r matches Err(e) && is_not_ready(
                    e,
                    "IAMPolicyMemberNotReady"@,
                    "Waiting for Config Connector to provision the IAM policy member binding"@,
                )
            },
        },
{
    match applied {
        Err(f) => {
            let missing: bool = match f.kind {
                KubeFailureKind::Api(code) => code == 404,
                _ => false,
            };
            if missing {
                Err(
                    Error::NotReady {
                        reason: "IAMPolicyMemberCRDNotFound".to_owned(),
                        message: "IAMPolicyMember CRD not found - is Config Connector installed?".to_owned(),
                        requeue_after: Some(Duration::from_secs(60)),
                    },
                )
            } else {
                Err(Error::KubeError(f))
            }
        },
        Ok(status) => if is_iam_policy_member_ready(&status) {
            Ok(())
        } else {
            Err(
                Error::NotReady {
                    reason: "IAMPolicyMemberNotReady".to_owned(),
                    message: "Waiting for Config Connector to provision the IAM policy member binding".to_owned(),
                    requeue_after: None,
                },
            )
        },
    }
}

/// The storage is brought to its size before the StatefulSet is applied, which comes last.
pub proof fn storage_comes_before_the_nodes(
    settings: OperatorSettings,
    ns: Seq<char>,
    base: MetaView,
    spec: RestateClusterSpec,
    signing_key: Option<SigningKey>,
)
    ensures
        ({
            let s = compute_steps(settings, ns, base, spec, signing_key);
            s.len() >= 2 && s[s.len() - 2] is ReconcileStorage && s[s.len() - 1]
                is ApplyStatefulSet
        }),
{
}

/// Pods roll when their AWS role changes: it is among the annotations of the pods.
pub proof fn pods_roll_with_their_role(settings: OperatorSettings, spec: RestateClusterSpec)
    requires
        settings.aws_pod_identity_association_cluster is Some,
        role_arn(spec) is Some,
    ensures
        internal_annotations(settings, spec) is Some,
        internal_annotations(settings, spec)->0.contains_key(PIA_ROLE_ANNOTATION@),
        internal_annotations(settings, spec)->0[PIA_ROLE_ANNOTATION@] == role_arn(spec)->0,
{
    reveal_strlit("restate.dev/aws-pod-identity-association-cluster");
    reveal_strlit("restate.dev/aws-pod-identity-association-role-arn");
    reveal_strlit("restate.dev/aws-security-groups");
    reveal_strlit("restate.dev/gcp-service-account");
    reveal_strlit("restate.dev/trusted-ca-certs");
    assert(PIA_ROLE_ANNOTATION@.len() != PIA_CLUSTER_ANNOTATION@.len());
    assert(PIA_ROLE_ANNOTATION@.len() != SECURITY_GROUPS_ANNOTATION@.len());
    assert(PIA_ROLE_ANNOTATION@.len() != GCP_ANNOTATION@.len());
    assert(PIA_ROLE_ANNOTATION@.len() != TRUSTED_CA_ANNOTATION@.len());
}

} // verus!
