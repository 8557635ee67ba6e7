//! The reconcile of a RestateService, which so far checks its cluster and reports that it starts.

use vstd::prelude::*;
use vstd::string::*;

use crate::control::{opt_conditions, condition_views, Action, Condition, ConditionView};
use crate::error::{Error, KubeFailure};
use crate::meta::ObjectMeta;
use crate::restatedeployment::controller::{is_ready, says_ready};
use crate::text::cat3;
use crate::time::{secs, Duration, Timestamp};

verus! {

/// A service that is registered with a cluster.
#[derive(Debug)]
pub struct RestateService {
    pub metadata: ObjectMeta,
    pub replicas: Option<i32>,
    /// The RestateCluster to register with.
    pub cluster_ref: String,
}

/// What the operator reports.
#[derive(Debug)]
pub struct RestateServiceStatus {
    pub replicas: Option<i32>,
    pub available_replicas: Option<i32>,
    pub unavailable_replicas: Option<i32>,
    pub updated_replicas: Option<i32>,
    pub observed_generation: Option<i64>,
    pub versions: Option<Vec<String>>,
    pub conditions: Option<Vec<Condition>>,
}

/// Checks that the referenced cluster is there and ready. `cluster` is what looking it up gave: its
/// conditions, or what went wrong.
pub fn check_cluster(rs: &RestateService, cluster: Result<Option<Vec<Condition>>, KubeFailure>) -> (r:
    Result<(), Error>)
    ensures
        match cluster {
            Ok(conditions) => if says_ready(opt_conditions(conditions)) {
                r is Ok
            } else {
                r matches Err(Error::ServiceNotReady { message, reason, requeue_after }) && message@
                    == "Referenced Restate cluster '"@ + rs.cluster_ref@ + "' is not ready"@
                    && reason@ == "ClusterNotReady"@ && (requeue_after matches Some(d) && d@
                    == secs(30))
            },
            Err(f) => r matches Err(Error::InvalidRestateConfig(t)) && t@
                == "Referenced Restate cluster '"@ + rs.cluster_ref@ + "' not found: "@
                + f.message@,
        },
{
    match cluster {
        Ok(conditions) => if is_ready(&conditions) {
            Ok(())
        } else {
            Err(
                Error::ServiceNotReady {
                    message: cat3(
                        "Referenced Restate cluster '",
                        rs.cluster_ref.as_str(),
                        "' is not ready",
                    ),
                    reason: "ClusterNotReady".to_owned(),
                    requeue_after: Some(Duration::from_secs(30)),
                },
            )
        },
        Err(f) => {
            let mut t: String = cat3(
                "Referenced Restate cluster '",
                rs.cluster_ref.as_str(),
                "' not found: ",
            );
            t.append(f.message.as_str());
            Err(Error::InvalidRestateConfig(t))
        },
    }
}

/// The status of a service, and when it is looked at again.
pub fn update_status(rs: &RestateService, now: Timestamp) -> (r: (RestateServiceStatus, Action))
    ensures
        r.0.replicas == rs.replicas,
        r.0.available_replicas == Some(0i32),
        r.0.unavailable_replicas == rs.replicas,
        r.0.updated_replicas == Some(0i32),
        r.0.observed_generation == Some(
            match rs.metadata.generation {
                Some(g) => g,
                None => 0i64,
            },
        ),
        r.0.versions is Some && r.0.versions->0@.len() == 0,
        opt_conditions(r.0.conditions) == seq![
            ConditionView {
                last_transition_time: Some(now@),
                message: Some("RestateService controller is initializing"@),
                reason: Some("Initializing"@),
                status: "False"@,
                type_: "Ready"@,
            },
        ],
        r.1 matches Action::Requeue(d) && d@ == secs(300),
{
    let ready = Condition {
        last_transition_time: Some(now),
        message: Some("RestateService controller is initializing".to_owned()),
        reason: Some("Initializing".to_owned()),
        status: "False".to_owned(),
        type_: "Ready".to_owned(),
    };
    let mut list: Vec<Condition> = Vec::new();
    list.push(ready);
    proof {
        assert(condition_views(list@) =~= seq![ready@]);
    }
    let status = RestateServiceStatus {
        replicas: rs.replicas,
        available_replicas: Some(0),
        unavailable_replicas: rs.replicas,
        updated_replicas: Some(0),
        observed_generation: Some(
            match rs.metadata.generation {
                Some(g) => g,
                None => 0,
            },
        ),
        versions: Some(Vec::new()),
        conditions: Some(list),
    };
    (status, Action::Requeue(Duration::from_secs(300)))
}

} // verus!
