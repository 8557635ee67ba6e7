//! How a version is rolled out and registered: what each step follows from.

use vstd::prelude::*;

use crate::control::opt_conditions;
use crate::error::{Error, ReplicaSetStatus};
use crate::json::{field, Json};
use crate::meta::ObjectMeta;
use crate::restatedeployment::cleanup::DeploymentUsage;
use crate::restatedeployment::controller::{replica_set_complaint, says_ready, ClusterLookup};
use crate::restatedeployment::reconcile::{
    answers, goes_on, planned, recorded_on, Command, Event, ReconcileInputs, Stage,
};
use crate::restatedeployment::registration::{
    by_service, records, registration_body, route_text, routed_to, ActionView, Overwrite,
};
use crate::restatedeployment::versions::{owned_by, stands_in};
use crate::text::{begins_with, int_text, text_lt, texts};

verus! {

/// Whether Restate sends new work to a deployment.
pub open spec fn gets_new_work(
    deployments: Map<Seq<char>, DeploymentUsage>,
    id: Seq<char>,
) -> bool {
    deployments.contains_key(id) && deployments[id].latest_for_service
}

/// Whether another version of this deployment gets new work.
pub open spec fn another_gets_new_work(
    recorded: Seq<char>,
    deployments: Map<Seq<char>, DeploymentUsage>,
    owned: Seq<Seq<char>>,
    id: Seq<char>,
) -> bool {
    owned.contains(id) && id != recorded && gets_new_work(deployments, id)
}

/// What has to be done for a version to get new work: nothing where it does, a registration where
/// Restate does not know it, a promotion where another version of ours gets the work, and nothing can
/// be done where something else does. Of several versions the first in order is named.
pub proof fn what_a_version_needs(
    recorded: Option<Seq<char>>,
    deployments: Map<Seq<char>, DeploymentUsage>,
    owned: Seq<Seq<char>>,
    action: ActionView,
    id: Seq<char>,
)
    requires
        planned(recorded, deployments, owned, action),
    ensures
        recorded is None ==> action is Register,
        recorded is Some && !deployments.contains_key(recorded->0) ==> action is Register,
        recorded is Some && gets_new_work(deployments, recorded->0) ==> action == (
        ActionView::AlreadyLatest { deployment_id: recorded->0 }),
        recorded is Some && deployments.contains_key(recorded->0) && !gets_new_work(
            deployments,
            recorded->0,
        ) ==> {
            &&& action is Promote || action is Conflict
            &&& another_gets_new_work(recorded->0, deployments, owned, id) ==> action is Promote
            &&& action matches ActionView::Promote { superseded_by } ==> {
                &&& another_gets_new_work(recorded->0, deployments, owned, superseded_by)
                &&& another_gets_new_work(recorded->0, deployments, owned, id) ==> id
                    == superseded_by || text_lt(superseded_by, id)
            }
        },
{
    if let Some(r) = recorded {
        assert(crate::restatedeployment::registration::serves_for_us(r, deployments, owned, id)
            == another_gets_new_work(r, deployments, owned, id));
    }
}

/// A registration says the address, whether to overwrite, and which version of HTTP to speak where
/// that is asked for.
pub proof fn what_a_registration_says(uri: Seq<char>, use_http11: Option<bool>, force: bool)
    ensures
        ({
            let j = registration_body(uri, use_http11, force);
            &&& field(j, "uri"@) == Some(Json::Text(uri))
            &&& field(j, "force"@) == Some(Json::Bool(force))
            &&& use_http11 is None ==> field(j, "use_http_11"@) is None
            &&& use_http11 matches Some(b) ==> field(j, "use_http_11"@) == Some(Json::Bool(b))
        }),
{
    reveal_strlit("uri");
    reveal_strlit("force");
    reveal_strlit("use_http_11");
    assert("uri"@.len() == 3);
    assert("force"@.len() == 5);
    assert("use_http_11"@.len() == 11);
}

/// A deployment has recorded an id where one of its objects in its namespace carries it.
pub proof fn which_ids_are_recorded(
    objects: Seq<ObjectMeta>,
    namespace: Seq<char>,
    uid: Seq<char>,
    i: int,
)
    requires
        0 <= i < objects.len(),
    ensures
        stands_in(objects[i], namespace) && owned_by(objects[i], uid) && objects[i].annotation(
            "restate.dev/deployment-id"@,
        ) is Some ==> records(
            objects,
            namespace,
            uid,
            objects[i].annotation("restate.dev/deployment-id"@)->0,
        ),
        forall|id: Seq<char>| #[trigger]
            records(objects, namespace, uid, id) ==> exists|k: int|
                0 <= k < objects.len() && stands_in(#[trigger] objects[k], namespace) && owned_by(
                    objects[k],
                    uid,
                ) && objects[k].annotation("restate.dev/deployment-id"@) == Some(id),
{
}

/// Of the services that Restate lists, the later of two entries counts, and there are no others.
pub proof fn which_deployment_serves(services: Seq<(String, String)>, i: int, service: Seq<char>)
    requires
        0 <= i < services.len(),
        forall|j: int| i < j < services.len() ==> (#[trigger] services[j]).0@ != services[i].0@,
    ensures
        by_service(services).contains_key(services[i].0@),
        by_service(services)[services[i].0@] == services[i].1@,
    decreases services.len(),
{
    if i < services.len() - 1 {
        assert(services[services.len() - 1].0@ != services[i].0@);
        let before = services.drop_last();
        assert(before[i] == services[i]);
        assert forall|j: int| i < j < before.len() implies (#[trigger] before[j]).0@
            != before[i].0@ by {
            assert(before[j] == services[j]);
        }
        which_deployment_serves(before, i, service);
    }
}

/// A service that Restate does not list is served by nothing.
pub proof fn unlisted_services_are_not_served(services: Seq<(String, String)>, service: Seq<char>)
    requires
        forall|j: int| 0 <= j < services.len() ==> (#[trigger] services[j]).0@ != service,
    ensures
        !by_service(services).contains_key(service),
    decreases services.len(),
{
    if services.len() > 0 {
        assert(services[services.len() - 1].0@ != service);
        let before = services.drop_last();
        assert forall|j: int| 0 <= j < before.len() implies (#[trigger] before[j]).0@ != service by {
            assert(before[j] == services[j]);
        }
        unlisted_services_are_not_served(before, service);
    }
}

/// Where a service is routed is told by name.
pub proof fn what_is_told_of_a_route(latest: Map<Seq<char>, Seq<char>>, service: Seq<char>)
    ensures
        latest.contains_key(service) ==> route_text(latest, service) == service + " -> "@
            + latest[service],
        !latest.contains_key(service) ==> route_text(latest, service) == service
            + " -> (unregistered)"@,
{
}

/// A ReplicaSet is ready where it has just the replicas that are asked for, all of them ready and
/// available.
pub proof fn when_a_replica_set_is_ready(status: Option<ReplicaSetStatus>, expected: int)
    ensures
        ({
            let ready = if status is Some && status->0.ready_replicas is Some {
                status->0.ready_replicas->0 as int
            } else {
                0
            };
            let available = if status is Some && status->0.available_replicas is Some {
                status->0.available_replicas->0 as int
            } else {
                0
            };
            let c = replica_set_complaint(status, expected);
            &&& c is None <==> status is Some && status->0.replicas == expected && ready >= expected
                && available >= expected
            &&& status is None ==> (c matches Some((reason, _)) && reason == "ReplicaSetNoStatus"@)
            &&& status is Some && status->0.replicas != expected ==> c == Some(
                (
                    "ReplicaSetScaling"@,
                    "ReplicaSet has "@ + int_text(status->0.replicas as int)
                        + " replicas instead of the expected "@ + int_text(expected)
                        + "; it may be scaling up or down"@,
                ),
            )
            &&& status is Some && status->0.replicas == expected && ready < expected ==> c == Some(
                (
                    "ReplicaSetPodNotReady"@,
                    "ReplicaSet has "@ + int_text(ready)
                        + " ready replicas instead of the expected "@ + int_text(expected)
                        + "; a pod may not be ready"@,
                ),
            )
            &&& status is Some && status->0.replicas == expected && ready >= expected && available
                < expected ==> c == Some(
                (
                    "ReplicaSetPodNotAvailable"@,
                    "ReplicaSet has "@ + int_text(available)
                        + " available replicas instead of the expected "@ + int_text(expected)
                        + "; a pod may not be available"@,
                ),
            )
        }),
{
}

/// A rollout begins with the ReplicaSet; one that is there already is adopted where it was made from
/// the same template by the same deployment, and collides otherwise; its planned removal is taken
/// back where there is one.
pub proof fn how_a_version_comes_about(
    inputs: ReconcileInputs,
    from: Stage,
    event: Event,
    to: Stage,
    command: Command,
)
    requires
        answers(from, event),
        goes_on(inputs, from, event, to, command),
    ensures
        from is Start ==> command is CreateReplicaSet && to is Creating,
        from is Creating ==> (event matches Event::Failed(e) ==> {
            let there = e is KubeError && e->KubeError_0.kind is Api && e->KubeError_0.reason@
                == "AlreadyExists"@;
            &&& there ==> command is FetchReplicaSet && to is Fetching
            &&& !there ==> command == Command::Finish(Err(e)) && to is Finished
        }),
        event matches Event::Fetched { version } ==> {
            let owners = version.meta.owner_references;
            let ours = owners is Some && owners->0@.len() > 0 && owners->0@[0].uid@
                == inputs.my_uid@;
            let same = version.meta.annotation("restate.dev/pod-template"@) == Some(
                inputs.pod_template@,
            );
            &&& ours && same ==> command == (Command::Propagate {
                unschedule: version.meta.annotation("restate.dev/remove-version-at"@) is Some,
            }) && to == (Stage::Propagating { version })
            &&& !ours || !same ==> command == Command::Finish(Err(Error::HashCollision))
        },
        event matches Event::Created { version, has_hpa } ==> {
            &&& has_hpa ==> command is RemoveHpa && to == (Stage::RemovingHpa { version })
            &&& !has_hpa ==> command is ApplyService && to == (Stage::ApplyingService { version })
        },
        from matches Stage::Propagating { version } ==> (event matches Event::Propagated {
            has_hpa,
        } ==> {
            &&& has_hpa ==> command is RemoveHpa && to == (Stage::RemovingHpa { version })
            &&& !has_hpa ==> command is ApplyService && to == (Stage::ApplyingService { version })
        }),
        from matches Stage::RemovingHpa { version } ==> event is Done ==> command is ApplyService
            && to == (Stage::ApplyingService { version }),
{
}

/// Whether a version is registered is asked of Restate: of its services alone where the version has
/// an id and is the only one, which ends the rollout where one of them is routed to it, and of its
/// usage otherwise.
pub proof fn what_is_asked_of_restate(
    inputs: ReconcileInputs,
    from: Stage,
    event: Event,
    to: Stage,
    command: Command,
    service: Seq<char>,
)
    requires
        answers(from, event),
        goes_on(inputs, from, event, to, command),
    ensures
        from matches Stage::ApplyingService { version } ==> (event matches Event::ServiceApplied {
            endpoint,
            other_owned,
        } ==> {
            let id = version.meta.annotation("restate.dev/deployment-id"@);
            &&& endpoint matches Err(e) ==> command == Command::Finish(Err(e))
            &&& endpoint is Ok && !other_owned && id is Some ==> command is AskLatest
            &&& endpoint is Ok && (other_owned || id is None) ==> command is AskUsage
        }),
        from matches Stage::AskingLatest { version, endpoint } ==> (event matches Event::Latest(
            latest,
        ) ==> {
            let id = version.meta.annotation("restate.dev/deployment-id"@);
            &&& command is Finish || command is AskUsage
            &&& command is Finish ==> id is Some && command == Command::Finish(Ok((version, None)))
            &&& id is Some && latest@.contains_key(service) && latest@[service] == id->0 ==> command
                is Finish
            &&& command is AskUsage ==> to == (Stage::AskingUsage { version, endpoint })
        }),
{
    if let Stage::AskingLatest { version, endpoint } = from {
        if let Event::Latest(latest) = event {
            if recorded_on(version) is Some && latest@.contains_key(service) && latest@[service]
                == recorded_on(version)->0 {
                assert(routed_to(latest@, service, recorded_on(version)->0));
            }
        }
    }
}

/// Once the usage is known: a version that gets new work is only cleaned up after, a conflict ends
/// the rollout, and otherwise the version is registered, with overwriting just where it is promoted,
/// once the cluster that it refers to and its own pods are ready. While they are not, old versions
/// are cleaned up, and the rollout fails.
pub proof fn what_follows_from_the_usage(
    inputs: ReconcileInputs,
    from: Stage,
    event: Event,
    to: Stage,
    command: Command,
)
    requires
        answers(from, event),
        goes_on(inputs, from, event, to, command),
    ensures
        from is AskingUsage && event is Usage ==> {
            let version = from->AskingUsage_version;
            let d = event->Usage_deployments;
            let id = version.meta.annotation("restate.dev/deployment-id"@);
            let ready = replica_set_complaint(version.status, inputs.replicas as int) is None;
            let known = id is Some && d@.contains_key(id->0);
            let works = id is Some && gets_new_work(d@, id->0);
            let owned = texts(event->Usage_owned_ids@);
            &&& command is AskCluster || command is Register ==> {
                let action = if to is AskingCluster {
                    to->AskingCluster_action@
                } else {
                    to->Registering_action@
                };
                &&& to is AskingCluster ==> to->AskingCluster_version == version
                    && to->AskingCluster_endpoint == from->AskingUsage_endpoint
                    && to->AskingCluster_deployments == d
                &&& to is Registering ==> to->Registering_version == version
                    && to->Registering_deployments == d
                &&& to is AskingCluster || to is Registering
                &&& !known ==> action is Register
                &&& known ==> action is Promote
            }
            &&& works ==> command == (Command::CleanUp { deployments: d }) && to == (
            Stage::CleaningUp { version })
            &&& !known && inputs.cluster is Some ==> command is AskCluster
            &&& !known && inputs.cluster is None && ready ==> command == (Command::Register {
                endpoint: from->AskingUsage_endpoint,
                overwrite: Overwrite::No,
            })
            &&& !known && inputs.cluster is None && !ready ==> command == (Command::CleanUp {
                deployments: d,
            }) && to is Clearing
            &&& known && !works && (exists|other: Seq<char>| #[trigger]
                another_gets_new_work(id->0, d@, owned, other)) ==> {
                &&& inputs.cluster is Some ==> command is AskCluster
                &&& inputs.cluster is None && ready ==> command == (Command::Register {
                    endpoint: from->AskingUsage_endpoint,
                    overwrite: Overwrite::Yes,
                })
                &&& inputs.cluster is None && !ready ==> command == (Command::CleanUp {
                    deployments: d,
                }) && to is Clearing
            }
            &&& known && !works && (forall|other: Seq<char>| !#[trigger]
                another_gets_new_work(id->0, d@, owned, other))
                    ==> (command matches Command::Finish(
                Err(Error::DeploymentNotLatest { message, reason, requeue_after }),
            ) && reason@ == "ForeignDeployment"@ && requeue_after is None && begins_with(
                message@,
                "Deployment "@ + id->0,
            ))
        },
        from matches Stage::AskingCluster { version, endpoint, deployments, action } ==> (
        event matches Event::Cluster(lookup) ==> {
            let ready = replica_set_complaint(version.status, inputs.replicas as int) is None;
            &&& lookup is NotFound ==> (command matches Command::Finish(
                Err(Error::InvalidRestateConfig(_)),
            ))
            &&& lookup matches ClusterLookup::Failed(f) ==> command == Command::Finish(
                Err(Error::KubeError(f)),
            )
            &&& lookup matches ClusterLookup::Found(c) ==> {
                let up = says_ready(opt_conditions(c));
                &&& up && ready ==> command == (Command::Register {
                    endpoint,
                    overwrite: if action is Promote {
                        Overwrite::Yes
                    } else {
                        Overwrite::No
                    },
                })
                &&& up && ready ==> (to matches Stage::Registering {
                    version: v,
                    deployments: d,
                    action: a,
                } && v == version && d == deployments && a@ == action@)
                &&& !up || !ready
                    ==> command == (Command::CleanUp { deployments }) && to is Clearing
                &&& !up ==> (to matches Stage::Clearing {
                    cause: Error::DeploymentNotReady { reason, requeue_after, .. },
                } && reason@ == "ClusterNotReady"@ && requeue_after is Some && requeue_after->0@
                    == 30_000_000_000)
            }
        }),
        to matches Stage::Clearing { cause } ==> (cause matches Error::DeploymentNotReady {
            message,
            reason,
            requeue_after,
            replica_set_status,
        } && (requeue_after is None ==> {
            let version = if from is AskingUsage {
                from->AskingUsage_version
            } else {
                from->AskingCluster_version
            };
            replica_set_status == version.status && replica_set_complaint(
                version.status,
                inputs.replicas as int,
            ) == Some((reason@, message@))
        }) && (requeue_after is Some ==> from is AskingCluster && reason@ == "ClusterNotReady"@)),
{
    if let Stage::AskingUsage { version, endpoint } = from {
        if let Event::Usage { deployments, owned_ids } = event {
            let id = recorded_on(version);
            if let Some(r) = id {
                let tail = crate::restatedeployment::reconcile::CONFLICT_TAIL@;
                assert(("Deployment "@ + r + tail).take(("Deployment "@ + r).len() as int)
                    =~= "Deployment "@ + r);
            }
            let owned = texts(owned_ids@);
            if let Some(r) = id {
                assert forall|other: Seq<char>| #[trigger]
                    another_gets_new_work(r, deployments@, owned, other)
                        == crate::restatedeployment::registration::serves_for_us(
                        r,
                        deployments@,
                        owned,
                        other,
                    ) by {}
                if exists|other: Seq<char>| #[trigger]
                    another_gets_new_work(r, deployments@, owned, other) {
                    let other = choose|other: Seq<char>| #[trigger]
                        another_gets_new_work(r, deployments@, owned, other);
                    assert(crate::restatedeployment::registration::serves_for_us(
                        r,
                        deployments@,
                        owned,
                        other,
                    ));
                }
                if forall|other: Seq<char>| !#[trigger]
                    another_gets_new_work(r, deployments@, owned, other) {
                    assert forall|other: Seq<char>|
                        !#[trigger] crate::restatedeployment::registration::serves_for_us(
                            r,
                            deployments@,
                            owned,
                            other,
                        ) by {
                        assert(!another_gets_new_work(r, deployments@, owned, other));
                    }
                }
            }
        }
    }
}

/// A new id is recorded before the routes are looked at; a registered version is confirmed where all
/// of its services are routed to it, and a promotion is announced; then old versions are cleaned up,
/// knowing that this one gets new work.
pub proof fn what_follows_a_registration(
    inputs: ReconcileInputs,
    from: Stage,
    event: Event,
    to: Stage,
    command: Command,
    i: int,
)
    requires
        answers(from, event),
        goes_on(inputs, from, event, to, command),
    ensures
        from matches Stage::Registering { version, deployments, action } ==> (
        event matches Event::Registered(registered) ==> {
            let same = version.meta.annotation("restate.dev/deployment-id"@) == Some(
                registered.id@,
            );
            &&& !same ==> (command matches Command::RecordId { id } && id@ == registered.id@) && to
                == (Stage::Recording { version, deployments, action, registered })
            &&& command is AskLatest ==> to == (Stage::Confirming {
                version,
                deployments,
                action,
                registered,
            })
            &&& command is Announce ==> to == (Stage::Announcing {
                version,
                deployments,
                registered,
            })
            &&& command is CleanUp ==> to == (Stage::CleaningUp { version })
            &&& same && registered.services@.len() > 0 ==> command is AskLatest
            &&& same && registered.services@.len() == 0 && action is Promote ==> command is Announce
            &&& same && registered.services@.len() == 0 && !(action is Promote) ==> command
                is CleanUp
        }),
        from matches Stage::Recording { version, deployments, action, registered } ==> event is Done
            ==> {
            &&& command is AskLatest ==> to == (Stage::Confirming {
                version,
                deployments,
                action,
                registered,
            })
            &&& command is Announce ==> to == (Stage::Announcing {
                version,
                deployments,
                registered,
            })
            &&& command is CleanUp ==> to == (Stage::CleaningUp { version })
            &&& registered.services@.len() > 0 ==> command is AskLatest
            &&& registered.services@.len() == 0 && action is Promote ==> command is Announce
            &&& registered.services@.len() == 0 && !(action is Promote) ==> command is CleanUp
        },
        from matches Stage::Confirming { version, deployments, action, registered } ==> (
        event matches Event::Latest(latest) ==> {
            let here = |k: int|
                latest@.contains_key(registered.services@[k]@) && latest@[registered.services@[k]@]
                    == registered.id@;
            &&& 0 <= i < registered.services@.len() && !here(i)
                ==> (command matches Command::Finish(
                Err(Error::DeploymentNotLatest { reason, .. }),
            ) && reason@ == "NotLatest"@)
            &&& (forall|k: int| 0 <= k < registered.services@.len() ==> #[trigger] here(k)) ==> {
                &&& action is Promote ==> command is Announce
                &&& !(action is Promote) ==> command is CleanUp
            }
        }),
        command matches Command::Announce { note } ==> {
            let action = match from {
                Stage::Registering { action, .. } => action,
                Stage::Recording { action, .. } => action,
                Stage::Confirming { action, .. } => action,
                _ => arbitrary(),
            };
            let id = match (from, event) {
                (Stage::Registering { .. }, Event::Registered(r)) => r.id@,
                (Stage::Recording { registered, .. }, _) => registered.id@,
                (Stage::Confirming { registered, .. }, _) => registered.id@,
                _ => arbitrary(),
            };
            &&& action@ is Promote
            &&& note@ == "Promoted deployment "@ + id + " back to latest for "@
                + inputs.versioned_name@ + ", superseding "@ + action@->superseded_by
        },
        from is Announcing && event is Done ==> command is CleanUp,
        command matches Command::CleanUp { deployments: d } ==> {
            let (id, before) = match (from, event) {
                (Stage::Registering { deployments, .. }, Event::Registered(r)) => (
                    r.id@,
                    deployments@,
                ),
                (Stage::Recording { deployments, registered, .. }, _) => (
                    registered.id@,
                    deployments@,
                ),
                (Stage::Confirming { deployments, registered, .. }, _) => (
                    registered.id@,
                    deployments@,
                ),
                (Stage::Announcing { deployments, registered, .. }, _) => (
                    registered.id@,
                    deployments@,
                ),
                _ => arbitrary(),
            };
            from is Registering || from is Recording || from is Confirming || from is Announcing
                ==> {
                &&& gets_new_work(d@, id)
                &&& d@[id].pinned_invocations == 0 && d@[id].unpinned_invocations == 0
                &&& d@.remove(id) =~= before.remove(id)
            }
        },
        from matches Stage::CleaningUp { version } ==> (event matches Event::CleanedUp {
            next_removal,
        } ==> command == Command::Finish(Ok((version, next_removal)))),
        from matches Stage::Clearing { cause } ==> command == Command::Finish(Err(cause)),
        event matches Event::Failed(e) ==> !(from is Creating) && !(from is Clearing) ==> command
            == Command::Finish(Err(e)),
{
    if let Stage::Confirming { version, deployments, action, registered } = from {
        if let Event::Latest(latest) = event {
            let here = |k: int|
                latest@.contains_key(registered.services@[k]@) && latest@[registered.services@[k]@]
                    == registered.id@;
            if 0 <= i < registered.services@.len() && !here(i) {
                assert(!routed_to(latest@, registered.services@[i]@, registered.id@));
            }
            if forall|k: int| 0 <= k < registered.services@.len() ==> #[trigger] here(k) {
                assert forall|k: int| 0 <= k < registered.services@.len() implies routed_to(
                    latest@,
                    (#[trigger] registered.services@[k])@,
                    registered.id@,
                ) by {
                    assert(here(k));
                }
            }
        }
    }
}

/// An object is owned by a deployment where one of its owners is a RestateDeployment of that uid.
pub proof fn who_owns_an_object(meta: ObjectMeta, uid: Seq<char>, i: int)
    ensures
        meta.owner_references is None ==> !owned_by(meta, uid),
        meta.owner_references matches Some(o) ==> 0 <= i < o@.len() && o@[i].uid@ == uid
            && o@[i].kind@ == "RestateDeployment"@ ==> owned_by(meta, uid),
        meta.owner_references matches Some(o) ==> (forall|k: int|
            0 <= k < o@.len() ==> (#[trigger] o@[k]).uid@ != uid || o@[k].kind@
                != "RestateDeployment"@) ==> !owned_by(meta, uid),
{
}

} // verus!
