//! Provisioning a cluster once its first node runs.

use vstd::prelude::*;
use vstd::string::*;

use crate::error::Error;
use crate::manifest::EnvVar;
use crate::restatecluster::resource::{RestateClusterSpec, RestateClusterStatus};
use crate::text::{
    cat, cat3, eq_ignoring_case, opt_str, opt_text, same_ignoring_case, str_eq,
};
use crate::time::{secs, Duration};

verus! {

pub const AUTO_PROVISION_VAR: &'static str = "RESTATE_AUTO_PROVISION";

pub const VAR_NOT_FALSE: &'static str = "Cannot use cluster.autoProvision with RESTATE_AUTO_PROVISION != false. Disable cluster auto-provisioning by setting RESTATE_AUTO_PROVISION=false or removing the env var and setting auto-provision = false in config.";

pub const NOT_DISABLED: &'static str = "Cannot use cluster.autoProvision without auto-provision = false in config or RESTATE_AUTO_PROVISION=false env var. Disable cluster auto-provisioning by setting auto-provision = false in config or RESTATE_AUTO_PROVISION=false when using operator-managed provisioning.";

/// What a TOML document sets a top-level key to, where that is a boolean, or why it is no TOML.
pub uninterp spec fn toml_flag(text: Seq<char>, key: Seq<char>) -> Result<Option<bool>, Seq<char>>;

/// `toml::from_str` to a `toml::Value`, and its `get` and `as_bool`: the boolean that the document
/// has under the key, or the text of the error. It depends on the text and the key alone.
#[verifier::external_body]
fn read_toml_flag(text: &str, key: &str) -> (r: Result<Option<bool>, String>)
    ensures
        match r {
            Ok(b) => toml_flag(text@, key@) == Ok::<Option<bool>, Seq<char>>(b),
            Err(e) => toml_flag(text@, key@) == Err::<Option<bool>, Seq<char>>(e@),
        },
{
    match toml::from_str::<toml::Value>(text) {
        Ok(v) => Ok(v.get(key).and_then(|x| x.as_bool())),
        Err(e) => Err(e.to_string()),
    }
}

/// The value that the first variable of the name is set to directly. One that comes from elsewhere
/// cannot be known.
pub open spec fn direct_value(env: Seq<EnvVar>, name: Seq<char>) -> Option<Seq<char>>
    decreases env.len(),
{
    if env.len() == 0 {
        None
    } else if env[0].name@ == name {
        opt_text(env[0].value)
    } else {
        direct_value(env.skip(1), name)
    }
}

fn find_value(env: &Option<Vec<EnvVar>>, name: &str) -> (r: Option<String>)
    ensures
        opt_text(r) == match env {
            Some(e) => direct_value(e@, name@),
            None => None,
        },
{
    match env {
        None => None,
        Some(e) => {
            let mut i: usize = 0;
            proof {
                assert(e@.skip(0) =~= e@);
            }
            while i < e.len()
                invariant
                    i <= e.len(),
                    direct_value(e@, name@) == direct_value(e@.skip(i as int), name@),
                    *env == Some(*e),
                decreases e.len() - i,
            {
                proof {
                    assert(e@.skip(i as int)[0] == e@[i as int]);
                    assert(e@.skip(i as int).skip(1) =~= e@.skip(i as int + 1));
                }
                if str_eq(e[i].name.as_str(), name) {
                    return match &e[i].value {
                        Some(v) => Some(v.clone()),
                        None => None,
                    };
                }
                i = i + 1;
            }
            None
        },
    }
}

/// What is wrong with a configuration of which this is known: nothing only where it says that a
/// node does not provision itself.
pub open spec fn config_complaint(flag: Result<Option<bool>, Seq<char>>) -> Option<Seq<char>> {
    match flag {
        Err(e) => Some("Failed to parse config TOML: "@ + e),
        Ok(Some(false)) => None,
        Ok(_) => Some(NOT_DISABLED@),
    }
}

/// What is wrong with a configuration and an environment. The variable has precedence over the
/// configuration.
pub open spec fn provisioning_complaint(
    config: Option<Seq<char>>,
    variable: Option<Seq<char>>,
) -> Option<Seq<char>> {
    match variable {
        Some(v) => if same_ignoring_case(v, "false"@) {
            None
        } else {
            Some(VAR_NOT_FALSE@)
        },
        None => match config {
            Some(c) => config_complaint(toml_flag(c, "auto-provision"@)),
            None => Some(NOT_DISABLED@),
        },
    }
}

/// Judges what a configuration says of provisioning.
pub fn judge_config(flag: Result<Option<bool>, String>) -> (r: Result<(), Error>)
    ensures
        match config_complaint(
            match flag {
                Ok(b) => Ok(b),
                Err(e) => Err(e@),
            },
        ) {
            None => r is Ok,
            Some(t) => r matches Err(Error::InvalidRestateConfig(m)) && m@ == t,
        },
{
    match flag {
        Err(e) => Err(
            Error::InvalidRestateConfig(cat("Failed to parse config TOML: ", e.as_str())),
        ),
        Ok(Some(false)) => Ok(()),
        Ok(_) => Err(Error::InvalidRestateConfig(NOT_DISABLED.to_owned())),
    }
}

/// Checks that the nodes do not provision themselves, as they would by default, where the operator
/// provisions the cluster.
pub fn validate_config_for_provisioning(config: Option<&str>, env: &Option<Vec<EnvVar>>) -> (r:
    Result<(), Error>)
    ensures
        ({
            let variable = match env {
                Some(e) => direct_value(e@, AUTO_PROVISION_VAR@),
                None => None,
            };
            match provisioning_complaint(opt_str(config), variable) {
                None => r is Ok,
                Some(t) => r matches Err(Error::InvalidRestateConfig(m)) && m@ == t,
            }
        }),
{
    match find_value(env, AUTO_PROVISION_VAR) {
        Some(v) => {
            return if eq_ignoring_case(v.as_str(), "false") {
                Ok(())
            } else {
                Err(Error::InvalidRestateConfig(VAR_NOT_FALSE.to_owned()))
            };
        },
        None => {},
    }
    match config {
        None => Err(Error::InvalidRestateConfig(NOT_DISABLED.to_owned())),
        Some(c) => judge_config(read_toml_flag(c, "auto-provision")),
    }
}

/// Whether a pod runs, by its phase. It becomes ready only after it was provisioned.
pub fn is_pod_running(phase: Option<&str>) -> (r: bool)
    ensures
        r == (opt_str(phase) == Some("Running"@)),
{
    match phase {
        Some(p) => str_eq(p, "Running"),
        None => false,
    }
}

/// Whether an error says that the first node is waited for.
pub open spec fn is_node_wait(e: Error) -> bool {
    e matches Error::NotReady { message, reason, requeue_after } && message@
        == "Waiting for restate-0 pod to be Running before provisioning"@ && reason@
        == "ProvisioningPodNotRunning"@ && (requeue_after matches Some(d) && d@ == secs(5))
}

/// Checks that the first node runs before the cluster is provisioned.
pub fn check_provisioning_pod(phase: Option<&str>) -> (r: Result<(), Error>)
    ensures
        r is Ok <==> opt_str(phase) == Some("Running"@),
        r matches Err(e) ==> is_node_wait(e),
{
    if is_pod_running(phase) {
        Ok(())
    } else {
        Err(
            Error::NotReady {
                reason: "ProvisioningPodNotRunning".to_owned(),
                message: "Waiting for restate-0 pod to be Running before provisioning".to_owned(),
                requeue_after: Some(Duration::from_secs(5)),
            },
        )
    }
}

/// The address of the first node.
pub fn provisioning_endpoint(namespace: &str, cluster_dns: &str) -> (r: String)
    ensures
        r@ == first_node(namespace@, cluster_dns@),
{
    let mut s: String = cat3("http://restate-0.restate-cluster.", namespace, ".svc.");
    s.append(cluster_dns);
    s.append(":5122");
    s
}

/// What came of the provisioning call.
#[derive(Debug)]
pub enum ProvisionAnswer {
    Provisioned,
    /// The cluster was provisioned before.
    AlreadyExists,
    /// The address is no address.
    InvalidEndpoint(String),
    NotConnected { endpoint: String, error: String },
    /// The call failed, with the text of the code.
    Refused { code: String, message: String },
}

/// Why a cluster is not provisioned after the call, where it is not. One that was provisioned before
/// is as good.
pub open spec fn provision_failure(answer: ProvisionAnswer) -> Option<Seq<char>> {
    match answer {
        ProvisionAnswer::Provisioned => None,
        ProvisionAnswer::AlreadyExists => None,
        ProvisionAnswer::InvalidEndpoint(e) => Some("Invalid endpoint URL: "@ + e@),
        ProvisionAnswer::NotConnected { endpoint, error } => Some(
            "Failed to connect to "@ + endpoint@ + ": "@ + error@,
        ),
        ProvisionAnswer::Refused { code, message } => Some(
            "ProvisionCluster RPC failed: "@ + message@ + " ("@ + code@ + ")"@,
        ),
    }
}

/// The address of the first node.
pub open spec fn first_node(namespace: Seq<char>, cluster_dns: Seq<char>) -> Seq<char> {
    "http://restate-0.restate-cluster."@ + namespace + ".svc."@ + cluster_dns + ":5122"@
}

/// Whether a cluster is provisioned after the call.
pub fn run_provisioning(answer: &ProvisionAnswer) -> (r: Result<(), Error>)
    ensures
        match provision_failure(*answer) {
            None => r is Ok,
            Some(why) => r matches Err(Error::ProvisioningFailed(t)) && t@ == why,
        },
{
    match answer {
        ProvisionAnswer::Provisioned => Ok(()),
        ProvisionAnswer::AlreadyExists => Ok(()),
        ProvisionAnswer::InvalidEndpoint(e) => Err(
            Error::ProvisioningFailed(cat("Invalid endpoint URL: ", e.as_str())),
        ),
        ProvisionAnswer::NotConnected { endpoint, error } => {
            let mut t: String = cat3("Failed to connect to ", endpoint.as_str(), ": ");
            t.append(error.as_str());
            Err(Error::ProvisioningFailed(t))
        },
        ProvisionAnswer::Refused { code, message } => {
            let mut t: String = cat3("ProvisionCluster RPC failed: ", message.as_str(), " (");
            t.append(code.as_str());
            t.append(")");
            Err(Error::ProvisioningFailed(t))
        },
    }
}

/// Whether the operator has a cluster to provision.
pub open spec fn to_provision(
    spec: RestateClusterSpec,
    status: Option<RestateClusterStatus>,
) -> bool {
    (spec.cluster matches Some(c) && c.auto_provision) && !(status is Some
        && status->0.provisioned == Some(true))
}

/// Why a cluster that is to be provisioned cannot be.
pub open spec fn due_complaint(spec: RestateClusterSpec) -> Option<Seq<char>> {
    provisioning_complaint(
        opt_text(spec.config),
        match spec.compute.env {
            Some(e) => direct_value(e@, AUTO_PROVISION_VAR@),
            None => None,
        },
    )
}

/// Whether the operator has a cluster to provision: it is asked to, and has not done so yet. Where
/// it has, the configuration is checked first.
pub fn provisioning_due(spec: &RestateClusterSpec, status: &Option<RestateClusterStatus>) -> (r:
    Result<bool, Error>)
    ensures
        if to_provision(*spec, *status) {
            match due_complaint(*spec) {
                None => r == Ok::<bool, Error>(true),
                Some(t) => r matches Err(Error::InvalidRestateConfig(m)) && m@ == t,
            }
        } else {
            r == Ok::<bool, Error>(false)
        },
{
    let asked: bool = match &spec.cluster {
        Some(c) => c.auto_provision,
        None => false,
    };
    let done: bool = match status {
        Some(s) => match s.provisioned {
            Some(p) => p,
            None => false,
        },
        None => false,
    };
    if !asked || done {
        return Ok(false);
    }
    let config: Option<&str> = match &spec.config {
        Some(c) => Some(c.as_str()),
        None => None,
    };
    match validate_config_for_provisioning(config, &spec.compute.env) {
        Ok(()) => Ok(true),
        Err(e) => Err(e),
    }
}

/// The environment variable has precedence: whatever the configuration says, one that is set to
/// `false` suffices and one that is set to anything else does not.
pub proof fn variable_has_precedence(config: Option<Seq<char>>, value: Seq<char>)
    ensures
        provisioning_complaint(config, Some(value)) is None <==> same_ignoring_case(
            value,
            "false"@,
        ),
{
}

} // verus!
