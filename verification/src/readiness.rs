//! How far the controllers have got towards reconciling, and what they wait for.

use vstd::prelude::*;
use vstd::string::*;

use crate::control::{is_retryable_discovery_error, retryable};
use crate::error::{KubeFailure, KubeFailureKind};
use crate::text::{cat3, decimal, join, join_strings, opt_text, str_eq, texts, u64_text};

verus! {

/// The controllers whose startup gates the readiness of the operator.
#[derive(Debug, Clone, Copy, PartialEq, Eq, Structural)]
pub enum ReadinessGate {
    RestateCluster,
    RestateCloudEnvironment,
    RestateDeployment,
}

/// How far a controller has got.
#[derive(Debug)]
enum GateState {
    /// It has not reported anything yet.
    Starting,
    /// It cannot reconcile until this CRD appears.
    WaitingForCrd(String),
    /// It has its CRD and has started reconciling.
    Ready,
}

/// How far a controller has got.
pub enum GateStateView {
    Starting,
    WaitingForCrd(Seq<char>),
    Ready,
}

/// How far each controller has got. All gates are there from the start, so that readiness is
/// reported truthfully before any controller has run.
#[derive(Debug)]
pub struct Readiness {
    cluster: GateState,
    cloud_environment: GateState,
    deployment: GateState,
}

/// Which controllers are not ready.
#[derive(Debug)]
pub struct ReadinessReport {
    /// Whether every controller has its CRD and has started reconciling.
    pub ready: bool,
    /// The controllers that have not.
    pub pending_controllers: Vec<&'static str>,
}

/// The outcome of waiting for a CRD.
#[derive(Debug, Clone, Copy, PartialEq, Eq, Structural)]
pub enum CrdWait {
    /// It is registered and served.
    Available,
    /// The process was asked to stop.
    ShuttingDown,
}

impl ReadinessGate {
    /// Every gate, in the order of their declaration.
    pub const ALL: [ReadinessGate; 3] = [
        ReadinessGate::RestateCluster,
        ReadinessGate::RestateCloudEnvironment,
        ReadinessGate::RestateDeployment,
    ];

    /// The name of the controller.
    pub open spec fn text(self) -> Seq<char> {
        match self {
            ReadinessGate::RestateCluster => "RestateCluster"@,
            ReadinessGate::RestateCloudEnvironment => "RestateCloudEnvironment"@,
            ReadinessGate::RestateDeployment => "RestateDeployment"@,
        }
    }

    /// The name of the controller.
    pub fn name(self) -> (r: &'static str)
        ensures
            r@ == self.text(),
    {
        match self {
            ReadinessGate::RestateCluster => "RestateCluster",
            ReadinessGate::RestateCloudEnvironment => "RestateCloudEnvironment",
            ReadinessGate::RestateDeployment => "RestateDeployment",
        }
    }
}

impl GateState {
    spec fn view(&self) -> GateStateView {
        match self {
            GateState::Starting => GateStateView::Starting,
            GateState::WaitingForCrd(s) => GateStateView::WaitingForCrd(s@),
            GateState::Ready => GateStateView::Ready,
        }
    }
}

/// The CRD that a controller waits for, where it does.
pub open spec fn waited_for(s: GateStateView) -> Seq<Seq<char>> {
    match s {
        GateStateView::WaitingForCrd(name) => seq![name],
        _ => Seq::empty(),
    }
}

/// The name of a controller, where it is not ready.
pub open spec fn unready(gate: ReadinessGate, s: GateStateView) -> Seq<Seq<char>> {
    match s {
        GateStateView::Ready => Seq::empty(),
        _ => seq![gate.text()],
    }
}

/// The texts of string slices.
pub open spec fn slices(s: Seq<&'static str>) -> Seq<Seq<char>> {
    Seq::new(s.len(), |i: int| s[i]@)
}

fn note_waiting(state: &GateState, out: &mut Vec<String>)
    ensures
        texts(final(out)@) == texts(old(out)@) + waited_for(state@),
{
    let ghost before = texts(out@);
    match state {
        GateState::WaitingForCrd(name) => {
            out.push(name.clone());
        },
        _ => {},
    }
    proof {
        assert(texts(out@) =~= before + waited_for(state@));
    }
}

fn note_unready(gate: ReadinessGate, state: &GateState, out: &mut Vec<&'static str>)
    ensures
        slices(final(out)@) == slices(old(out)@) + unready(gate, state@),
{
    let ghost before = slices(out@);
    match state {
        GateState::Ready => {},
        _ => {
            out.push(gate.name());
        },
    }
    proof {
        assert(slices(out@) =~= before + unready(gate, state@));
    }
}

impl Readiness {
    /// How far a controller has got.
    pub closed spec fn state(&self, gate: ReadinessGate) -> GateStateView {
        match gate {
            ReadinessGate::RestateCluster => self.cluster@,
            ReadinessGate::RestateCloudEnvironment => self.cloud_environment@,
            ReadinessGate::RestateDeployment => self.deployment@,
        }
    }

    /// The CRDs that controllers wait for, in the order of the gates.
    pub open spec fn waiting(&self) -> Seq<Seq<char>> {
        waited_for(self.state(ReadinessGate::RestateCluster)) + waited_for(
            self.state(ReadinessGate::RestateCloudEnvironment),
        ) + waited_for(self.state(ReadinessGate::RestateDeployment))
    }

    /// The controllers that are not ready, in the order of the gates.
    pub open spec fn pending(&self) -> Seq<Seq<char>> {
        unready(
            ReadinessGate::RestateCluster,
            self.state(ReadinessGate::RestateCluster),
        ) + unready(
            ReadinessGate::RestateCloudEnvironment,
            self.state(ReadinessGate::RestateCloudEnvironment),
        ) + unready(
            ReadinessGate::RestateDeployment,
            self.state(ReadinessGate::RestateDeployment),
        )
    }

    /// No controller has reported anything.
    pub fn new() -> (r: Readiness)
        ensures
            forall|g: ReadinessGate| #[trigger] r.state(g) == GateStateView::Starting,
    {
        Readiness {
            cluster: GateState::Starting,
            cloud_environment: GateState::Starting,
            deployment: GateState::Starting,
        }
    }

    fn set(&mut self, gate: ReadinessGate, state: GateState)
        ensures
            final(self).state(gate) == state@,
            forall|g: ReadinessGate| g != gate ==> #[trigger] final(self).state(g) == old(self).state(g),
    {
        match gate {
            ReadinessGate::RestateCluster => {
                self.cluster = state;
            },
            ReadinessGate::RestateCloudEnvironment => {
                self.cloud_environment = state;
            },
            ReadinessGate::RestateDeployment => {
                self.deployment = state;
            },
        }
    }

    /// Records that a controller cannot reconcile until a CRD shows up.
    pub fn mark_waiting_for_crd(&mut self, gate: ReadinessGate, crd_name: &str)
        ensures
            final(self).state(gate) == GateStateView::WaitingForCrd(crd_name@),
            forall|g: ReadinessGate| g != gate ==> #[trigger] final(self).state(g) == old(self).state(g),
    {
        self.set(gate, GateState::WaitingForCrd(crd_name.to_owned()));
    }

    /// Records that a controller has its CRD and is about to start reconciling.
    pub fn mark_ready(&mut self, gate: ReadinessGate)
        ensures
            final(self).state(gate) == GateStateView::Ready,
            forall|g: ReadinessGate| g != gate ==> #[trigger] final(self).state(g) == old(self).state(g),
    {
        self.set(gate, GateState::Ready);
    }

    /// The CRDs that controllers wait for, in the order of the gates.
    pub fn pending_crds(&self) -> (r: Vec<String>)
        ensures
            texts(r@) == self.waiting(),
    {
        let mut out: Vec<String> = Vec::new();
        proof {
            assert(texts(out@) =~= Seq::<Seq<char>>::empty());
        }
        note_waiting(&self.cluster, &mut out);
        note_waiting(&self.cloud_environment, &mut out);
        note_waiting(&self.deployment, &mut out);
        proof {
            assert(texts(out@) =~= self.waiting());
        }
        out
    }

    /// Which controllers are not ready.
    pub fn report(&self) -> (r: ReadinessReport)
        ensures
            slices(r.pending_controllers@) == self.pending(),
            r.ready == (self.pending().len() == 0),
            r.ready == forall|g: ReadinessGate| #[trigger] self.state(g) == GateStateView::Ready,
    {
        let mut out: Vec<&'static str> = Vec::new();
        proof {
            assert(slices(out@) =~= Seq::<Seq<char>>::empty());
        }
        note_unready(ReadinessGate::RestateCluster, &self.cluster, &mut out);
        note_unready(ReadinessGate::RestateCloudEnvironment, &self.cloud_environment, &mut out);
        note_unready(ReadinessGate::RestateDeployment, &self.deployment, &mut out);
        let ready: bool = out.len() == 0;
        proof {
            assert(slices(out@) =~= self.pending());
            let a = self.state(ReadinessGate::RestateCluster);
            let b = self.state(ReadinessGate::RestateCloudEnvironment);
            let c = self.state(ReadinessGate::RestateDeployment);
            assert(out@.len() == slices(out@).len());
            assert(ready == (a is Ready && b is Ready && c is Ready));
            if ready {
                assert forall|g: ReadinessGate| #[trigger]
                    self.state(g) == GateStateView::Ready by {
                    match g {
                        ReadinessGate::RestateCluster => {},
                        ReadinessGate::RestateCloudEnvironment => {},
                        ReadinessGate::RestateDeployment => {},
                    }
                }
            }
        }
        ReadinessReport { ready, pending_controllers: out }
    }
}

/// The note about the CRDs that are waited for.
pub open spec fn note_text(pending: Seq<Seq<char>>) -> Option<Seq<char>> {
    if pending.len() == 0 {
        None
    } else if pending.len() == 1 {
        Some("Waiting for CRD "@ + pending[0] + " to be installed before reconciling it."@)
    } else {
        Some(
            "Waiting for "@ + decimal(pending.len()) + " CRDs to be installed before reconciling them: "@
                + join(pending, ", "@) + "."@,
        )
    }
}

/// The note about the CRDs that are waited for, where there are any.
pub fn pending_crds_note(pending: &Vec<String>) -> (r: Option<String>)
    ensures
        opt_text(r) == note_text(texts(pending@)),
{
    if pending.len() == 0 {
        None
    } else if pending.len() == 1 {
        Some(
            cat3(
                "Waiting for CRD ",
                pending[0].as_str(),
                " to be installed before reconciling it.",
            ),
        )
    } else {
        let mut s: String = cat3(
            "Waiting for ",
            u64_text(pending.len() as u64).as_str(),
            " CRDs to be installed before reconciling them: ",
        );
        s.append(join_strings(pending, ", ").as_str());
        s.append(".");
        Some(s)
    }
}

/// What the apiserver said when asked what it serves of an API version.
#[derive(Debug)]
pub enum DiscoveryAnswer {
    /// The plural names of the resources.
    Resources(Vec<String>),
    Failed(KubeFailure),
}

/// What to do after asking.
#[derive(Debug)]
pub enum CrdPoll {
    /// The CRD is there: start.
    Available,
    /// Say so and ask again later.
    Wait(String),
    /// Waiting will not help.
    Fail(KubeFailure),
}

/// The plural name of a CRD and its group.
pub fn crd_name(plural: &str, group: &str) -> (r: String)
    ensures
        r@ == plural@ + "."@ + group@,
{
    cat3(plural, ".", group)
}

/// Decides after asking the apiserver for a CRD: it is there, or it is worth another try, or it is
/// not.
pub fn judge_crd_poll(answer: DiscoveryAnswer, plural: &str, crd: &str, api_version: &str) -> (r:
    CrdPoll)
    ensures
        match answer {
            DiscoveryAnswer::Resources(names) => if texts(names@).contains(plural@) {
                r is Available
            } else {
                r matches CrdPoll::Wait(t) && t@ == "CRD "@ + crd@
                    + " is not yet available. Is it installed?"@
            },
            DiscoveryAnswer::Failed(f) => if f.kind == KubeFailureKind::Api(404) {
                r matches CrdPoll::Wait(t) && t@ == "API version "@ + api_version@
                    + " is not yet available, so neither is CRD "@ + crd@ + ". Is it installed?"@
            } else if retryable(f.kind) {
                r matches CrdPoll::Wait(t) && t@ == "Could not confirm CRD "@ + crd@
                    + " from the apiserver ("@ + f.message@ + "). Is it reachable?"@
            } else {
                r == CrdPoll::Fail(f)
            },
        },
{
    match answer {
        DiscoveryAnswer::Resources(names) => {
            let ghost all = texts(names@);
            let mut i: usize = 0;
            while i < names.len()
                invariant
                    i <= names.len(),
                    all == texts(names@),
                    answer == DiscoveryAnswer::Resources(names),
                    forall|j: int| 0 <= j < i ==> #[trigger] all[j] != plural@,
                decreases names.len() - i,
            {
                if str_eq(names[i].as_str(), plural) {
                    proof {
                        assert(all[i as int] == plural@);
                    }
                    return CrdPoll::Available;
                }
                i = i + 1;
            }
            proof {
                assert(!all.contains(plural@));
            }
            CrdPoll::Wait(cat3("CRD ", crd, " is not yet available. Is it installed?"))
        },
        DiscoveryAnswer::Failed(f) => {
            let missing: bool = match f.kind {
                KubeFailureKind::Api(404) => true,
                _ => false,
            };
            if missing {
                let mut s: String = cat3(
                    "API version ",
                    api_version,
                    " is not yet available, so neither is CRD ",
                );
                s.append(crd);
                s.append(". Is it installed?");
                CrdPoll::Wait(s)
            } else if is_retryable_discovery_error(&f) {
                let mut s: String = cat3("Could not confirm CRD ", crd, " from the apiserver (");
                s.append(f.message.as_str());
                s.append("). Is it reachable?");
                CrdPoll::Wait(s)
            } else {
                CrdPoll::Fail(f)
            }
        },
    }
}

/// What the report about missing CRDs does next.
#[derive(Debug)]
pub enum CrdReport {
    /// Publish a warning.
    Warn(String),
    /// Publish that all CRDs are there, and stop.
    AllAvailable,
    /// Stop.
    Stop,
    /// Look again later.
    Continue,
}

/// Decides what to publish about missing CRDs: a warning as long as any is waited for, and once an
/// all-clear where there was a warning.
pub fn next_crd_report(readiness: &Readiness, reported_waiting: bool) -> (r: CrdReport)
    ensures
        match note_text(readiness.waiting()) {
            Some(n) => r matches CrdReport::Warn(t) && t@ == n,
            None => if readiness.pending().len() > 0 {
                r is Continue
            } else if reported_waiting {
                r is AllAvailable
            } else {
                r is Stop
            },
        },
{
    let pending = readiness.pending_crds();
    match pending_crds_note(&pending) {
        Some(note) => CrdReport::Warn(note),
        None => {
            let report = readiness.report();
            if !report.ready {
                CrdReport::Continue
            } else if reported_waiting {
                CrdReport::AllAvailable
            } else {
                CrdReport::Stop
            }
        },
    }
}

/// A controller that waits for a CRD is not ready, so that readiness is never reported while one is
/// waited for.
pub proof fn waiting_is_not_ready(readiness: Readiness)
    ensures
        readiness.pending().len() == 0 ==> readiness.waiting().len() == 0,
        readiness.waiting().len() <= readiness.pending().len() <= 3,
{
}

} // verus!
