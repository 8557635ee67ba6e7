//! Deciding what to tell Restate about the endpoint of the current version, and confirming that it
//! was heard.
//!
//! Registration and cleanup ask different questions. Cleanup asks whether a deployment may be
//! removed, for which in-flight invocations matter as much as being the endpoint of a service.
//! Registration asks whether new work goes there, for which only the endpoint matters.

use vstd::prelude::*;
use vstd::string::*;

use crate::error::Error;
use crate::json::{no_fields, with_field, Json, Object, Value};
use crate::meta::ObjectMeta;
use crate::restatedeployment::cleanup::{DeploymentUsage, DeploymentUsageMap};
use crate::restatedeployment::versions::{
    is_in_namespace, is_owned_by, owned_by, stands_in, RESTATE_DEPLOYMENT_ID_ANNOTATION,
};
use crate::string_map::StringMap;
use crate::text::{
    cat, cat3, join, join_strings, opt_str, str_eq, str_lt, text_lt, text_lt_irreflexive,
    text_lt_total, text_lt_transitive, texts,
};

verus! {

/// Whether a registration may replace an existing deployment at the same address.
#[derive(Debug, Clone, Copy, PartialEq, Eq, Structural)]
pub enum Overwrite {
    No,
    Yes,
}

impl Overwrite {
    /// The `force` flag of Restate, which also permits breaking changes and is therefore never sent
    /// with a first registration.
    pub fn force(self) -> (r: bool)
        ensures
            r == (self == Overwrite::Yes),
    {
        match self {
            Overwrite::Yes => true,
            Overwrite::No => false,
        }
    }
}

/// What makes a version the one that Restate routes new invocations to.
#[derive(Debug)]
pub enum RegistrationAction {
    /// Nothing is recorded, or Restate does not know the recorded id.
    Register,
    /// Restate knows the id, and another version of this deployment serves new invocations: a
    /// rollback. The endpoint is registered again with overwrite. Carries the id that now serves.
    Promote { superseded_by: String },
    /// It serves new invocations already. Carries the recorded id.
    AlreadyLatest { deployment_id: String },
    /// It is registered but superseded, and no version of this deployment serves either, so that
    /// something outside does. Forcing would start a promotion war, so nothing is written.
    Conflict,
}

/// What makes a version the one that Restate routes new invocations to.
pub enum ActionView {
    Register,
    Promote { superseded_by: Seq<char> },
    AlreadyLatest { deployment_id: Seq<char> },
    Conflict,
}

impl RegistrationAction {
    /// The action.
    pub open spec fn view(&self) -> ActionView {
        match self {
            RegistrationAction::Register => ActionView::Register,
            RegistrationAction::Promote { superseded_by } => ActionView::Promote {
                superseded_by: superseded_by@,
            },
            RegistrationAction::AlreadyLatest { deployment_id } => ActionView::AlreadyLatest {
                deployment_id: deployment_id@,
            },
            RegistrationAction::Conflict => ActionView::Conflict,
        }
    }

    /// Only a promotion overwrites.
    pub fn overwrite(&self) -> (r: Overwrite)
        ensures
            r == if self@ is Promote {
                Overwrite::Yes
            } else {
                Overwrite::No
            },
    {
        match self {
            RegistrationAction::Promote { .. } => Overwrite::Yes,
            _ => Overwrite::No,
        }
    }
}

/// Whether Restate routes new invocations to a deployment.
pub open spec fn serves(deployments: Map<Seq<char>, DeploymentUsage>, id: Seq<char>) -> bool {
    deployments.contains_key(id) && deployments[id].latest_for_service
}

/// Whether the recorded deployment is known to Restate and superseded, the one case in which it
/// matters which deployments belong to the versions of this RestateDeployment.
pub open spec fn is_superseded(
    recorded: Option<Seq<char>>,
    deployments: Map<Seq<char>, DeploymentUsage>,
) -> bool {
    recorded matches Some(id) && deployments.contains_key(id) && !serves(deployments, id)
}

/// Whether another of our versions serves.
pub open spec fn serves_for_us(
    recorded: Seq<char>,
    deployments: Map<Seq<char>, DeploymentUsage>,
    owned: Seq<Seq<char>>,
    id: Seq<char>,
) -> bool {
    owned.contains(id) && id != recorded && serves(deployments, id)
}

/// Whether the action is right for a superseded deployment: promote it over the first, in the order
/// of the ids, of our other versions that serve, and refuse where there is none.
pub open spec fn resolves(
    recorded: Seq<char>,
    deployments: Map<Seq<char>, DeploymentUsage>,
    owned: Seq<Seq<char>>,
    action: ActionView,
) -> bool {
    match action {
        ActionView::Promote { superseded_by } => serves_for_us(
            recorded,
            deployments,
            owned,
            superseded_by,
        ) && forall|id: Seq<char>|
            serves_for_us(recorded, deployments, owned, id) ==> id == superseded_by || text_lt(
                superseded_by,
                id,
            ),
        ActionView::Conflict => forall|id: Seq<char>|
            !serves_for_us(recorded, deployments, owned, id),
        _ => false,
    }
}

/// Decides from what Restate has already told, without any further admin call.
///
/// The ids of our versions are asked for only where the recorded deployment is superseded.
pub fn plan_registration<F: FnOnce() -> Vec<String>>(
    recorded_id: Option<&str>,
    deployments: &DeploymentUsageMap,
    owned_ids: F,
) -> (r: RegistrationAction)
    requires
        is_superseded(opt_str(recorded_id), deployments@) ==> owned_ids.requires(()),
    ensures
        !is_superseded(opt_str(recorded_id), deployments@) ==> r@ == match opt_str(recorded_id) {
            Some(id) => if serves(deployments@, id) {
                ActionView::AlreadyLatest { deployment_id: id }
            } else {
                ActionView::Register
            },
            None => ActionView::Register,
        },
        is_superseded(opt_str(recorded_id), deployments@) ==> exists|ids: Vec<String>|
            owned_ids.ensures((), ids) && #[trigger] resolves(
                opt_str(recorded_id)->0,
                deployments@,
                texts(ids@),
                r@,
            ),
{
    let recorded = match recorded_id {
        None => {
            return RegistrationAction::Register;
        },
        Some(id) => id,
    };
    match deployments.get(recorded) {
        None => {
            return RegistrationAction::Register;
        },
        Some(usage) => {
            if usage.latest_for_service {
                return RegistrationAction::AlreadyLatest { deployment_id: recorded.to_owned() };
            }
        },
    }
    let ids = owned_ids();
    resolve_superseded(recorded, deployments, &ids)
}

/// Decides what to do about a superseded deployment.
pub fn resolve_superseded(
    recorded: &str,
    deployments: &DeploymentUsageMap,
    owned: &Vec<String>,
) -> (r: RegistrationAction)
    ensures
        resolves(recorded@, deployments@, texts(owned@), r@),
{
    let ghost all = texts(owned@);
    let mut best: Option<usize> = None;
    let mut i: usize = 0;
    while i < owned.len()
        invariant
            i <= owned.len(),
            all == texts(owned@),
            best matches Some(b) ==> b < i && serves_for_us(
                recorded@,
                deployments@,
                all,
                owned@[b as int]@,
            ),
            forall|j: int|
                0 <= j < i && (#[trigger] owned@[j])@ != recorded@ && serves(
                    deployments@,
                    owned@[j]@,
                ) ==> (best matches Some(b) && (owned@[j]@ == owned@[b as int]@ || text_lt(
                    owned@[b as int]@,
                    owned@[j]@,
                ))),
        decreases owned.len() - i,
    {
        let id = owned[i].as_str();
        let candidate: bool = !str_eq(id, recorded) && match deployments.get(id) {
            Some(usage) => usage.latest_for_service,
            None => false,
        };
        if candidate {
            proof {
                assert(all[i as int] == id@);
                assert(all.contains(id@));
            }
            let better: bool = match best {
                None => true,
                Some(b) => str_lt(id, owned[b].as_str()),
            };
            proof {
                if let Some(b) = best {
                    text_lt_total(id@, owned@[b as int]@);
                    if better {
                        assert forall|j: int|
                            0 <= j < i && (#[trigger] owned@[j])@ != recorded@ && serves(
                                deployments@,
                                owned@[j]@,
                            ) implies owned@[j]@ == id@ || text_lt(id@, owned@[j]@) by {
                            if owned@[j]@ != owned@[b as int]@ {
                                text_lt_transitive(id@, owned@[b as int]@, owned@[j]@);
                            }
                        }
                    }
                }
            }
            if better {
                best = Some(i);
            }
        }
        i = i + 1;
    }
    proof {
        assert forall|id: Seq<char>| serves_for_us(recorded@, deployments@, all, id) implies best
            is Some && (id == owned@[best->0 as int]@ || text_lt(owned@[best->0 as int]@, id)) by {
            let j = choose|j: int| 0 <= j < all.len() && all[j] == id;
            assert(owned@[j]@ == id);
        }
    }
    match best {
        Some(b) => RegistrationAction::Promote { superseded_by: owned[b].clone() },
        None => RegistrationAction::Conflict,
    }
}

/// What resolves a superseded deployment is one action only.
pub proof fn resolution_is_unique(
    recorded: Seq<char>,
    deployments: Map<Seq<char>, DeploymentUsage>,
    owned: Seq<Seq<char>>,
    a: ActionView,
    b: ActionView,
)
    requires
        resolves(recorded, deployments, owned, a),
        resolves(recorded, deployments, owned, b),
    ensures
        a == b,
{
    match (a, b) {
        (ActionView::Promote { superseded_by: x }, ActionView::Promote { superseded_by: y }) => {
            if x != y {
                assert(text_lt(x, y));
                assert(text_lt(y, x));
                text_lt_transitive(x, y, x);
                text_lt_irreflexive(x);
            }
        },
        _ => {},
    }
}

/// In-flight invocations have no bearing on registration: two reports that agree on the deployments
/// that exist and on those that serve lead to the same action.
pub proof fn invocations_do_not_matter(
    recorded: Seq<char>,
    a: Map<Seq<char>, DeploymentUsage>,
    b: Map<Seq<char>, DeploymentUsage>,
    owned: Seq<Seq<char>>,
    action: ActionView,
)
    requires
        a.dom() == b.dom(),
        forall|id: Seq<char>| #[trigger]
            a.contains_key(id) ==> a[id].latest_for_service == b[id].latest_for_service,
    ensures
        is_superseded(Some(recorded), a) == is_superseded(Some(recorded), b),
        serves(a, recorded) == serves(b, recorded),
        resolves(recorded, a, owned, action) ==> resolves(recorded, b, owned, action),
{
    assert forall|id: Seq<char>| serves(a, id) == serves(b, id) by {
        assert(a.dom().contains(id) == b.dom().contains(id));
        assert(a.contains_key(id) == b.contains_key(id));
    }
    assert(a.dom().contains(recorded) == b.dom().contains(recorded));
    assert forall|id: Seq<char>|
        serves_for_us(recorded, a, owned, id) == serves_for_us(recorded, b, owned, id) by {
        assert(serves(a, id) == serves(b, id));
    }
}

/// Whether one of the objects is ours and records this deployment id.
pub open spec fn records(
    objects: Seq<ObjectMeta>,
    namespace: Seq<char>,
    uid: Seq<char>,
    id: Seq<char>,
) -> bool {
    exists|i: int|
        0 <= i < objects.len() && stands_in(#[trigger] objects[i], namespace) && owned_by(
            objects[i],
            uid,
        ) && objects[i].annotation(RESTATE_DEPLOYMENT_ID_ANNOTATION@) == Some(id)
}

/// The deployment ids recorded on the versioned objects of a RestateDeployment.
pub fn owned_deployment_ids(objects: &Vec<ObjectMeta>, namespace: &str, rsd_uid: &str) -> (r: Vec<
    String,
>)
    ensures
        forall|id: Seq<char>| #[trigger]
            texts(r@).contains(id) <==> records(objects@, namespace@, rsd_uid@, id),
{
    let mut out: Vec<String> = Vec::new();
    let mut i: usize = 0;
    while i < objects.len()
        invariant
            i <= objects.len(),
            forall|a: int|
                0 <= a < out@.len() ==> records(
                    objects@.take(i as int),
                    namespace@,
                    rsd_uid@,
                    (#[trigger] out@[a])@,
                ),
            forall|k: int|
                0 <= k < i && stands_in(#[trigger] objects@[k], namespace@) && owned_by(
                    objects@[k],
                    rsd_uid@,
                ) && objects@[k].annotation(RESTATE_DEPLOYMENT_ID_ANNOTATION@) is Some ==> exists|
                    a: int,
                |
                    0 <= a < out@.len() && (#[trigger] out@[a])@ == objects@[k].annotation(
                        RESTATE_DEPLOYMENT_ID_ANNOTATION@,
                    )->0,
        decreases objects.len() - i,
    {
        let meta = &objects[i];
        let ghost before = out@;
        let ghost short = objects@.take(i as int);
        let ghost long = objects@.take(i + 1);
        proof {
            assert forall|a: int| 0 <= a < before.len() implies records(
                long,
                namespace@,
                rsd_uid@,
                (#[trigger] before[a])@,
            ) by {
                let k = choose|k: int|
                    0 <= k < short.len() && stands_in(#[trigger] short[k], namespace@) && owned_by(
                        short[k],
                        rsd_uid@,
                    ) && short[k].annotation(RESTATE_DEPLOYMENT_ID_ANNOTATION@) == Some(
                        before[a]@,
                    );
                assert(long[k] == short[k]);
            }
            assert(long[i as int] == *meta);
        }
        if is_in_namespace(meta, namespace) && is_owned_by(meta, rsd_uid) {
            match meta.get_annotation(RESTATE_DEPLOYMENT_ID_ANNOTATION) {
                Some(id) => {
                    out.push(id.clone());
                    proof {
                        assert(out@[before.len() as int]@ == id@);
                        assert forall|a: int| 0 <= a < out@.len() implies records(
                            long,
                            namespace@,
                            rsd_uid@,
                            (#[trigger] out@[a])@,
                        ) by {
                            if a < before.len() {
                                assert(out@[a] == before[a]);
                            }
                        }
                        assert forall|k: int|
                            0 <= k < i + 1 && stands_in(#[trigger] objects@[k], namespace@)
                                && owned_by(objects@[k], rsd_uid@) && objects@[k].annotation(
                                RESTATE_DEPLOYMENT_ID_ANNOTATION@,
                            ) is Some implies exists|a: int|
                            0 <= a < out@.len() && (#[trigger] out@[a])@ == objects@[k].annotation(
                                RESTATE_DEPLOYMENT_ID_ANNOTATION@,
                            )->0 by {
                            if k < i {
                                let a = choose|a: int|
                                    0 <= a < before.len() && (#[trigger] before[a])@
                                        == objects@[k].annotation(
                                        RESTATE_DEPLOYMENT_ID_ANNOTATION@,
                                    )->0;
                                assert(out@[a] == before[a]);
                            }
                        }
                    }
                },
                None => {},
            }
        }
        i = i + 1;
    }
    proof {
        assert(objects@.take(objects@.len() as int) =~= objects@);
        let t = texts(out@);
        assert forall|id: Seq<char>| #[trigger] t.contains(id) implies records(
            objects@,
            namespace@,
            rsd_uid@,
            id,
        ) by {
            let a = choose|a: int| 0 <= a < t.len() && t[a] == id;
            assert(out@[a]@ == id);
        }
        assert forall|id: Seq<char>| records(objects@, namespace@, rsd_uid@, id) implies #[trigger]
        t.contains(id) by {
            let k = choose|k: int|
                0 <= k < objects@.len() && stands_in(#[trigger] objects@[k], namespace@)
                    && owned_by(objects@[k], rsd_uid@) && objects@[k].annotation(
                    RESTATE_DEPLOYMENT_ID_ANNOTATION@,
                ) == Some(id);
            let a = choose|a: int|
                0 <= a < out@.len() && (#[trigger] out@[a])@ == objects@[k].annotation(
                    RESTATE_DEPLOYMENT_ID_ANNOTATION@,
                )->0;
            assert(t[a] == id);
        }
    }
    out
}

/// Whether the deployment owns a versioned object other than the named one, so that there is an
/// older version that may have to be drained.
pub fn has_other_owned(
    objects: &Vec<ObjectMeta>,
    namespace: &str,
    rsd_uid: &str,
    except_name: &str,
) -> (r: bool)
    ensures
        r == exists|i: int|
            0 <= i < objects@.len() && stands_in(#[trigger] objects@[i], namespace@)
                && objects@[i].any_name() != except_name@ && owned_by(objects@[i], rsd_uid@),
{
    let mut i: usize = 0;
    while i < objects.len()
        invariant
            i <= objects.len(),
            forall|k: int|
                0 <= k < i ==> !(stands_in(#[trigger] objects@[k], namespace@)
                    && objects@[k].any_name() != except_name@ && owned_by(objects@[k], rsd_uid@)),
        decreases objects.len() - i,
    {
        let meta = &objects[i];
        if is_in_namespace(meta, namespace) && !str_eq(meta.name_any().as_str(), except_name)
            && is_owned_by(meta, rsd_uid) {
            return true;
        }
        i = i + 1;
    }
    false
}

/// A deployment as Restate returned it from a registration.
#[derive(Debug)]
pub struct RegisteredDeployment {
    pub id: String,
    /// The services that Restate found at this endpoint.
    pub services: Vec<String>,
}

/// The body of a registration. The `force` flag is always explicit, because its default has
/// changed between versions of the admin API.
pub open spec fn registration_body(uri: Seq<char>, use_http11: Option<bool>, force: bool) -> Json {
    Json::Object(
        with_field(
            no_fields().insert("uri"@, Json::Text(uri)).insert("force"@, Json::Bool(force)),
            "use_http_11"@,
            match use_http11 {
                Some(b) => Some(Json::Bool(b)),
                None => None,
            },
        ),
    )
}

/// The body of a registration.
pub fn registration_payload(uri: &str, use_http11: Option<bool>, overwrite: Overwrite) -> (r: Value)
    ensures
        r@ == registration_body(uri@, use_http11, overwrite == Overwrite::Yes),
{
    let mut body = Object::new();
    body.put_text("uri", uri);
    body.put("force", Value::Bool(overwrite.force()));
    let http11 = match use_http11 {
        Some(b) => Some(Value::Bool(b)),
        None => None,
    };
    body.put_opt("use_http_11", http11);
    Value::Object(body)
}

/// Whether Restate routes a service to a deployment.
pub open spec fn routed_to(latest: Map<Seq<char>, Seq<char>>, service: Seq<char>, id: Seq<char>) -> bool {
    latest.contains_key(service) && latest[service] == id
}

/// Where Restate routes a service.
pub open spec fn route_text(latest: Map<Seq<char>, Seq<char>>, service: Seq<char>) -> Seq<char> {
    if latest.contains_key(service) {
        service + " -> "@ + latest[service]
    } else {
        service + " -> (unregistered)"@
    }
}

/// The message for services that are routed elsewhere.
pub open spec fn not_latest_text(
    latest: Map<Seq<char>, Seq<char>>,
    services: Seq<Seq<char>>,
    id: Seq<char>,
) -> Seq<char> {
    "Restate registered deployment "@ + id
        + " but still routes new invocations elsewhere: "@ + join(
        services.filter(|s: Seq<char>| !routed_to(latest, s, id)).map_values(
            |s: Seq<char>| route_text(latest, s),
        ),
        ", "@,
    )
}

/// Checks that Restate now routes every service of a deployment to it.
///
/// The answer to a registration cannot tell: registering an endpoint that Restate already knows
/// succeeds without changing anything.
pub fn confirm_latest(latest: &StringMap, registered: &RegisteredDeployment) -> (r: Result<
    (),
    Error,
>)
    ensures
        r is Ok <==> forall|i: int|
            0 <= i < registered.services@.len() ==> routed_to(
                latest@,
                (#[trigger] registered.services@[i])@,
                registered.id@,
            ),
        r matches Err(e) ==> (e matches Error::DeploymentNotLatest {
            message,
            reason,
            requeue_after,
        } && message@ == not_latest_text(latest@, texts(registered.services@), registered.id@)
            && reason@ == "NotLatest"@ && requeue_after is None),
{
    let ghost id = registered.id@;
    let ghost all = texts(registered.services@);
    let ghost stray = |s: Seq<char>| !routed_to(latest@, s, id);
    let ghost tell = |s: Seq<char>| route_text(latest@, s);
    let mut details: Vec<String> = Vec::new();
    let mut i: usize = 0;
    proof {
        reveal(Seq::filter);
        assert(all.take(0).filter(stray).map_values(tell) =~= texts(details@));
    }
    while i < registered.services.len()
        invariant
            i <= registered.services.len(),
            id == registered.id@,
            all == texts(registered.services@),
            stray == (|s: Seq<char>| !routed_to(latest@, s, id)),
            tell == (|s: Seq<char>| route_text(latest@, s)),
            texts(details@) == all.take(i as int).filter(stray).map_values(tell),
            details@.len() == 0 <==> forall|j: int|
                0 <= j < i ==> routed_to(latest@, (#[trigger] registered.services@[j])@, id),
        decreases registered.services.len() - i,
    {
        let service = registered.services[i].as_str();
        let ghost before = details@;
        let ghost chosen = all.take(i as int).filter(stray);
        proof {
            reveal(Seq::filter);
            assert(all.take(i + 1).drop_last() =~= all.take(i as int));
            assert(all.take(i + 1).last() == service@);
        }
        match latest.get(service) {
            Some(other) => {
                if !str_eq(other.as_str(), registered.id.as_str()) {
                    details.push(cat3(service, " -> ", other.as_str()));
                    proof {
                        assert(texts(details@) =~= texts(before).push(tell(service@)));
                        assert(chosen.push(service@).map_values(tell) =~= chosen.map_values(
                            tell,
                        ).push(tell(service@)));
                        assert(!routed_to(latest@, registered.services@[i as int]@, id));
                    }
                }
            },
            None => {
                details.push(cat(service, " -> (unregistered)"));
                proof {
                    assert(texts(details@) =~= texts(before).push(tell(service@)));
                        assert(chosen.push(service@).map_values(tell) =~= chosen.map_values(
                            tell,
                        ).push(tell(service@)));
                    assert(!routed_to(latest@, registered.services@[i as int]@, id));
                }
            },
        }
        i = i + 1;
    }
    proof {
        assert(all.take(all.len() as int) =~= all);
    }
    if details.len() == 0 {
        return Ok(());
    }
    let mut message: String = cat3(
        "Restate registered deployment ",
        registered.id.as_str(),
        " but still routes new invocations elsewhere: ",
    );
    message.append(join_strings(&details, ", ").as_str());
    Err(
        Error::DeploymentNotLatest {
            message,
            reason: "NotLatest".to_owned(),
            requeue_after: None,
        },
    )
}

/// Whether Restate routes at least one service to a deployment, from its list of services. This
/// answers whether a recorded version still takes new invocations without the usage query.
pub fn is_latest_for_some_service(latest: &StringMap, id: &str) -> (r: bool)
    ensures
        r == exists|service: Seq<char>| #[trigger] routed_to(latest@, service, id@),
{
    let n: usize = latest.len();
    let mut i: usize = 0;
    while i < n
        invariant
            i <= n,
            n == latest.pairs().len(),
            crate::string_map::lists(latest.pairs(), latest@),
            forall|j: int| 0 <= j < i ==> (#[trigger] latest.pairs()[j]).1 != id@,
        decreases n - i,
    {
        let (service, other) = latest.entry(i);
        if str_eq(other.as_str(), id) {
            proof {
                assert(routed_to(latest@, service@, id@));
            }
            return true;
        }
        i = i + 1;
    }
    proof {
        assert forall|service: Seq<char>| !#[trigger] routed_to(latest@, service, id@) by {
            if latest@.contains_key(service) {
                let j = choose|j: int|
                    0 <= j < latest.pairs().len() && #[trigger] latest.pairs()[j] == (
                        service,
                        latest@[service],
                    );
                assert(latest.pairs()[j].1 != id@);
            }
        }
    }
    false
}

/// The deployment of each service, by name. Of two entries for one service the later counts.
pub open spec fn by_service(services: Seq<(String, String)>) -> Map<Seq<char>, Seq<char>>
    decreases services.len(),
{
    if services.len() == 0 {
        Map::empty()
    } else {
        by_service(services.drop_last()).insert(services.last().0@, services.last().1@)
    }
}

/// The deployment that Restate routes each service to, from its list of services.
pub fn latest_deployment_by_service(services: &Vec<(String, String)>) -> (r: StringMap)
    ensures
        r@ == by_service(services@),
{
    let mut out = StringMap::new();
    let mut i: usize = 0;
    proof {
        assert(services@.take(0) =~= Seq::empty());
    }
    while i < services.len()
        invariant
            i <= services.len(),
            out@ == by_service(services@.take(i as int)),
        decreases services.len() - i,
    {
        out.insert(services[i].0.clone(), services[i].1.clone());
        proof {
            let next = services@.take(i as int + 1);
            assert(next.drop_last() =~= services@.take(i as int));
            assert(next.last() == services@[i as int]);
        }
        i = i + 1;
    }
    proof {
        assert(services@.take(i as int) =~= services@);
    }
    out
}

/// An answer of the admin API, as far as it decides whether a call went through.
#[derive(Debug)]
pub struct AdminAnswer {
    pub code: u16,
    /// The status as text.
    pub status: String,
    pub url: String,
    pub body: String,
}

/// Checks an answer of the admin API. What it says in its body is kept where it refuses.
pub fn check_admin_response(answer: AdminAnswer) -> (r: Result<String, Error>)
    ensures
        if 200 <= answer.code < 300 {
            r == Ok::<String, Error>(answer.body)
        } else {
            r == Err::<String, Error>(
                Error::AdminCallRejected {
                    status: answer.status,
                    url: answer.url,
                    body: answer.body,
                },
            )
        },
{
    if 200 <= answer.code && answer.code < 300 {
        Ok(answer.body)
    } else {
        Err(
            Error::AdminCallRejected {
                status: answer.status,
                url: answer.url,
                body: answer.body,
            },
        )
    }
}

/// Whether a deployment is gone after the call that removes it: one that Restate does not know
/// counts as removed.
pub fn check_deregistration(answer: AdminAnswer) -> (r: Result<(), Error>)
    ensures
        if 200 <= answer.code < 300 || answer.code == 404 {
            r is Ok
        } else {
            r == Err::<(), Error>(
                Error::AdminCallRejected {
                    status: answer.status,
                    url: answer.url,
                    body: answer.body,
                },
            )
        },
{
    if answer.code == 404 {
        return Ok(());
    }
    match check_admin_response(answer) {
        Ok(_) => Ok(()),
        Err(e) => Err(e),
    }
}

} // verus!
