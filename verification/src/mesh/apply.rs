//! Applying a plan: the steps of each phase, their results, and which phase comes next.

use vstd::prelude::*;
use vstd::string::StringExecFns;
use crate::cli::meshnet;
use crate::keyed;
use crate::keyed::StrMap;
use crate::mesh::action;
use crate::mesh::action::{ActionType, ActionView, Plan, PlannedAction};
use crate::mesh::state;
use crate::mesh::state::{DesiredMesh, MeshState, ServerState, ServerView};
use crate::mesh::subnet;
use crate::mesh::subnet::Warning;
use crate::mesh::subnet_laws;
use crate::cli::firewall;
use crate::cli::plan;
use crate::net;
use crate::net::Ipv4Net;
use crate::split;
use crate::ssh;
use crate::text;

verus! {

/// A command to run on a host, and the action that it carries out.
#[derive(Clone, Debug)]
pub struct Step {
    pub action_type: ActionType,
    pub namespace: String,
    pub command: String,
}

/// What a `Step` says.
#[verifier::ext_equal]
pub struct StepView {
    pub action_type: ActionType,
    pub namespace: Seq<char>,
    pub command: Seq<char>,
}

impl View for Step {
    type V = StepView;

    open spec fn view(&self) -> StepView {
        StepView {
            action_type: self.action_type,
            namespace: self.namespace@,
            command: self.command@,
        }
    }
}

pub open spec fn step_views(s: Seq<Step>) -> Seq<StepView> {
    Seq::new(s.len(), |i: int| s[i]@)
}

/// The step, where it is to run.
pub open spec fn step_if(run: bool, t: ActionType, ns: Seq<char>, command: Seq<char>) -> Seq<StepView> {
    if run {
        seq![StepView { action_type: t, namespace: ns, command }]
    } else {
        Seq::empty()
    }
}

pub fn push_step(steps: &mut Vec<Step>, run: bool, t: ActionType, ns: &str, command: &str)
    ensures
        step_views(final(steps)@) == step_views(old(steps)@) + step_if(run, t, ns@, command@),
{
    let ghost before = step_views(steps@);
    if run {
        steps.push(Step { action_type: t, namespace: ns.to_owned(), command: command.to_owned() });
        proof {
            assert(step_views(steps@) =~= before + step_if(run, t, ns@, command@));
        }
    } else {
        proof {
            assert(before + Seq::<StepView>::empty() =~= before);
        }
    }
}

/// Whether the plan has the action on the host, in the namespace where one is given.
pub open spec fn runs(
    actions: Seq<ActionView>,
    host: Seq<char>,
    t: ActionType,
    ns: Seq<char>,
) -> bool {
    exists|i: int|
        0 <= i < actions.len() && (#[trigger] actions[i]).host == host && actions[i].action_type == t
            && (ns.len() == 0 || actions[i].namespace == ns)
}

pub fn should_run(plan: &Plan, host: &str, action_type: ActionType, namespace: &str) -> (r: bool)
    ensures
        r == runs(action::action_views(plan.actions@), host@, action_type, namespace@),
{
    let ghost acts = action::action_views(plan.actions@);
    let mut i: usize = 0;
    while i < plan.actions.len()
        invariant
            i <= plan.actions@.len(),
            acts == action::action_views(plan.actions@),
            forall|j: int|
                0 <= j < i ==> !((#[trigger] acts[j]).host == host@ && acts[j].action_type
                    == action_type && (namespace@.len() == 0 || acts[j].namespace == namespace@)),
        decreases plan.actions@.len() - i,
    {
        let a: &PlannedAction = &plan.actions[i];
        proof {
            assert(acts[i as int] == a@);
        }
        if text::same(a.host.as_str(), host) && a.action_type == action_type && (
        namespace.is_empty() || text::same(a.namespace.as_str(), namespace)) {
            return true;
        }
        i = i + 1;
    }
    false
}

// ---------------------------------------------------------------------------
// Results
// ---------------------------------------------------------------------------

/// What became of an action.
#[derive(Clone, Debug)]
pub struct ActionResult {
    pub action: PlannedAction,
    pub status: String,
    pub detail: String,
}

/// What an `ActionResult` says.
#[verifier::ext_equal]
pub struct ResultView {
    pub action: ActionView,
    pub status: Seq<char>,
    pub detail: Seq<char>,
}

impl View for ActionResult {
    type V = ResultView;

    open spec fn view(&self) -> ResultView {
        ResultView { action: self.action@, status: self.status@, detail: self.detail@ }
    }
}

pub open spec fn result_views(s: Seq<ActionResult>) -> Seq<ResultView> {
    Seq::new(s.len(), |i: int| s[i]@)
}

/// The action of a step, without a detail.
pub open spec fn bare_action(host: Seq<char>, t: ActionType, ns: Seq<char>) -> ActionView {
    ActionView { host, namespace: ns, action_type: t, detail: Seq::empty() }
}

/// The result of a step that failed.
pub open spec fn failed(host: Seq<char>, t: ActionType, ns: Seq<char>, error: Seq<char>) -> ResultView {
    ResultView { action: bare_action(host, t, ns), status: "error"@, detail: error }
}

/// The result of a step that passed: the first line that it printed.
pub open spec fn passed(host: Seq<char>, t: ActionType, ns: Seq<char>, stdout: Seq<char>) -> ResultView {
    ResultView {
        action: bare_action(host, t, ns),
        status: "ok"@,
        detail: match ssh::first_line_of(stdout) {
            Some(l) => l,
            None => Seq::empty(),
        },
    }
}

/// The result of a host whose phase failed.
pub fn err_result(host: &str, t: ActionType, e: String) -> (r: ActionResult)
    ensures
        r@ == failed(host@, t, Seq::empty(), e@),
{
    ActionResult {
        action: PlannedAction {
            host: host.to_owned(),
            namespace: String::new(),
            action_type: t,
            detail: String::new(),
        },
        status: "error".to_owned(),
        detail: e,
    }
}

/// The result of a step: what it printed, or how it failed.
pub fn step_result(host: &str, step: &Step, outcome: Result<&str, &str>) -> (r: ActionResult)
    ensures
        r@ == (match outcome {
            Ok(stdout) => passed(host@, step.action_type, step.namespace@, stdout@),
            Err(e) => failed(host@, step.action_type, step.namespace@, e@),
        }),
{
    let action: PlannedAction = PlannedAction {
        host: host.to_owned(),
        namespace: step.namespace.clone(),
        action_type: step.action_type,
        detail: String::new(),
    };
    match outcome {
        Ok(stdout) => ActionResult {
            action,
            status: "ok".to_owned(),
            detail: match ssh::first_line(stdout) {
                Some(l) => l,
                None => String::new(),
            },
        },
        Err(e) => ActionResult { action, status: "error".to_owned(), detail: e.to_owned() },
    }
}

/// What a host does after a step.
#[derive(Clone, Debug)]
pub enum HostNext {
    /// It runs the step at this place.
    Run(usize),
    /// It stops: its phase failed.
    Failed(String),
    /// It has run all its steps.
    Finished,
}

/// What a host does with so many steps done: it runs the next one, where there is one.
pub open spec fn next_step_of(next: HostNext, steps: nat, done: nat) -> bool {
    if done < steps {
        next matches HostNext::Run(i) && i == done
    } else {
        next is Finished
    }
}

/// What a host starts with.
pub fn first_step(steps: &Vec<Step>) -> (r: HostNext)
    ensures
        next_step_of(r, steps@.len(), 0),
{
    if steps.len() > 0 {
        HostNext::Run(0)
    } else {
        HostNext::Finished
    }
}

/// What a host does after the step that follows those that are done: where it passed, its
/// result is noted down and the host goes on; where it failed, nothing more is run or noted.
pub fn after_step(
    host: &str,
    steps: &Vec<Step>,
    done: &mut Vec<ActionResult>,
    outcome: Result<&str, &str>,
) -> (r: HostNext)
    requires
        old(done)@.len() < steps@.len(),
    ensures
        match outcome {
            Ok(stdout) => {
                let step = steps@[old(done)@.len() as int];
                &&& result_views(final(done)@) == result_views(old(done)@).push(
                    passed(host@, step.action_type, step.namespace@, stdout@),
                )
                &&& next_step_of(r, steps@.len(), final(done)@.len())
            },
            Err(e) => {
                &&& final(done)@ == old(done)@
                &&& r matches HostNext::Failed(t) && t@ == e@
            },
        },
{
    match outcome {
        Ok(_) => {
            let i: usize = done.len();
            let ghost before = done@;
            done.push(step_result(host, &steps[i], outcome));
            proof {
                assert(result_views(done@) =~= result_views(before).push(done@[i as int]@));
            }
            if done.len() < steps.len() {
                HostNext::Run(done.len())
            } else {
                HostNext::Finished
            }
        },
        Err(e) => HostNext::Failed(e.to_owned()),
    }
}

/// Whether a host builds images: where builders are asked for, those that are named, or all
/// where none is.
pub open spec fn builds_on(d: DesiredMesh, host: Seq<char>) -> bool {
    d.enable_builder && (d.builder_hosts@.len() == 0 || text::views(d.builder_hosts@).contains(
        host,
    ))
}

pub fn is_builder(desired: &DesiredMesh, host: &str) -> (r: bool)
    ensures
        r == builds_on(*desired, host@),
{
    desired.enable_builder && (desired.builder_hosts.len() == 0 || text::has_string(
        &desired.builder_hosts,
        host,
    ))
}

/// What came back from a host in a phase.
#[derive(Clone, Debug)]
pub struct PhaseResult {
    pub host: String,
    pub result: Option<Vec<ActionResult>>,
    pub error: Option<String>,
}

/// The results that a host adds.
pub open spec fn host_results(r: PhaseResult, t: ActionType) -> Seq<ResultView> {
    match r.result {
        Some(v) => result_views(v@),
        None => seq![
            failed(
                r.host@,
                t,
                Seq::empty(),
                match r.error {
                    Some(e) => e@,
                    None => Seq::empty(),
                },
            ),
        ],
    }
}

/// The results that a phase adds.
pub open spec fn phase_results(rs: Seq<PhaseResult>, t: ActionType) -> Seq<ResultView>
    decreases rs.len(),
{
    if rs.len() == 0 {
        Seq::empty()
    } else {
        phase_results(rs.drop_last(), t) + host_results(rs.last(), t)
    }
}

/// Whether a host failed in a phase.
pub open spec fn any_failed(rs: Seq<PhaseResult>) -> bool {
    exists|i: int| 0 <= i < rs.len() && (#[trigger] rs[i]).result is None
}

/// Adds the results of a phase; tells whether a host failed.
pub fn collect_phase(all: &mut Vec<ActionResult>, results: Vec<PhaseResult>, t: ActionType) -> (r: bool)
    ensures
        result_views(final(all)@) == result_views(old(all)@) + phase_results(results@, t),
        r == any_failed(results@),
{
    let ghost rs = results@;
    let ghost before = result_views(all@);
    let mut rest: Vec<PhaseResult> = results;
    let mut bad: bool = false;
    let ghost mut n: int = 0;
    proof {
        assert(rs.take(0) =~= Seq::empty());
        assert(rs.skip(0) =~= rs);
        assert(before + Seq::<ResultView>::empty() =~= before);
    }
    while rest.len() > 0
        invariant
            0 <= n <= rs.len(),
            rest@ == rs.skip(n),
            before == result_views(old(all)@),
            result_views(all@) == before + phase_results(rs.take(n), t),
            bad == exists|i: int| 0 <= i < n && (#[trigger] rs[i]).result is None,
        decreases rest@.len(),
    {
        let r: PhaseResult = rest.remove(0);
        let ghost head = phase_results(rs.take(n), t);
        let ghost now = all@;
        proof {
            assert(rs.take(n + 1).drop_last() =~= rs.take(n));
            assert(rs.take(n + 1).last() == r);
            assert(rs[n] == r);
            assert(rest@ =~= rs.skip(n + 1));
        }
        let PhaseResult { host, result, error } = r;
        match result {
            Some(v) => {
                let mut more: Vec<ActionResult> = v;
                let ghost add = more@;
                all.append(&mut more);
                proof {
                    assert(result_views(all@) =~= result_views(now) + result_views(add));
                    assert((before + head) + result_views(add) =~= before + (head
                        + result_views(add)));
                }
            },
            None => {
                bad = true;
                let e: String = match error {
                    Some(e) => e,
                    None => String::new(),
                };
                let one: ActionResult = err_result(host.as_str(), t, e);
                let ghost view = one@;
                all.push(one);
                proof {
                    assert(result_views(all@) =~= result_views(now) + seq![view]);
                    assert((before + head) + seq![view] =~= before + (head + seq![view]));
                }
            },
        }
        proof {
            n = n + 1;
        }
    }
    proof {
        assert(rs.take(n) =~= rs);
    }
    bad
}

/// The phases of an application, in order.
#[derive(Clone, Copy, Debug, PartialEq, Eq, Structural)]
pub enum Phase {
    Install,
    Configure,
    Agents,
    Central,
    HostTokens,
}

/// What comes after a phase.
#[derive(Clone, Copy, Debug, PartialEq, Eq, Structural)]
pub enum Next {
    Run(Phase),
    Abort(Phase),
    Done,
}

/// What comes after a phase: a failed one ends the application; the agents run where
/// they are wanted, the central host and the host tokens where there is a central host.
pub open spec fn next_of(phase: Phase, bad: bool, install_coold: bool, central: bool) -> Next {
    if bad {
        Next::Abort(phase)
    } else {
        let after_agents = if central {
            Next::Run(Phase::Central)
        } else {
            Next::Done
        };
        match phase {
            Phase::Install => Next::Run(Phase::Configure),
            Phase::Configure => if install_coold {
                Next::Run(Phase::Agents)
            } else {
                after_agents
            },
            Phase::Agents => after_agents,
            Phase::Central => Next::Run(Phase::HostTokens),
            Phase::HostTokens => Next::Done,
        }
    }
}

/// Decides what comes after a phase.
pub fn next_phase(phase: Phase, bad: bool, desired: &DesiredMesh) -> (r: Next)
    ensures
        r == next_of(phase, bad, desired.install_coold, desired.central_host@.len() > 0),
{
    if bad {
        return Next::Abort(phase);
    }
    let after_agents: Next = if desired.central_host.as_str().is_empty() {
        Next::Done
    } else {
        Next::Run(Phase::Central)
    };
    match phase {
        Phase::Install => Next::Run(Phase::Configure),
        Phase::Configure => if desired.install_coold {
            Next::Run(Phase::Agents)
        } else {
            after_agents
        },
        Phase::Agents => after_agents,
        Phase::Central => Next::Run(Phase::HostTokens),
        Phase::HostTokens => Next::Done,
    }
}

/// How far a phase has come.
pub open spec fn rank(p: Phase) -> int {
    match p {
        Phase::Install => 0,
        Phase::Configure => 1,
        Phase::Agents => 2,
        Phase::Central => 3,
        Phase::HostTokens => 4,
    }
}

/// The phases only go forward, so that an application ends.
pub proof fn phases_go_forward(phase: Phase, bad: bool, install_coold: bool, central: bool)
    ensures
        next_of(phase, bad, install_coold, central) matches Next::Run(p) ==> rank(p) > rank(phase),
        bad ==> next_of(phase, bad, install_coold, central) == Next::Abort(phase),
{
}

/// What is said of an application that ended with a phase. On the central host the
/// failed step speaks for itself.
pub open spec fn abort_text(phase: Phase) -> Option<Seq<char>> {
    match phase {
        Phase::Install => Some(
            "phase 1 (install/keygen) failed on one or more mesh hosts; aborting"@,
        ),
        Phase::Configure => Some("phase 2 failed"@),
        Phase::Agents => Some("phase 3 failed"@),
        Phase::Central => None,
        Phase::HostTokens => Some("phase 5 failed"@),
    }
}

pub fn abort_message(phase: Phase) -> (r: Option<&'static str>)
    ensures
        match r {
            Some(m) => abort_text(phase) == Some(m@),
            None => abort_text(phase) is None,
        },
{
    match phase {
        Phase::Install => Some(
            "phase 1 (install/keygen) failed on one or more mesh hosts; aborting",
        ),
        Phase::Configure => Some("phase 2 failed"),
        Phase::Agents => Some("phase 3 failed"),
        Phase::Central => None,
        Phase::HostTokens => Some("phase 5 failed"),
    }
}

/// The action that stands for a host that failed in a phase.
pub open spec fn phase_action(phase: Phase) -> ActionType {
    match phase {
        Phase::Install => ActionType::InstallWg,
        Phase::Configure => ActionType::WriteConfig,
        Phase::Agents => ActionType::InstallCoold,
        Phase::Central => ActionType::InstallScheduler,
        Phase::HostTokens => ActionType::WriteHostJwt,
    }
}

pub fn failed_action(phase: Phase) -> (r: ActionType)
    ensures
        r == phase_action(phase),
{
    match phase {
        Phase::Install => ActionType::InstallWg,
        Phase::Configure => ActionType::WriteConfig,
        Phase::Agents => ActionType::InstallCoold,
        Phase::Central => ActionType::InstallScheduler,
        Phase::HostTokens => ActionType::WriteHostJwt,
    }
}

/// Where a phase runs: every host is installed and configured, the agents and the tokens go
/// to the nodes, and the central host stands alone.
pub open spec fn hosts_of(phase: Phase, d: DesiredMesh) -> Seq<Seq<char>> {
    match phase {
        Phase::Install | Phase::Configure => text::views(d.hosts@),
        Phase::Agents | Phase::HostTokens => text::views(d.nodes@),
        Phase::Central => seq![d.central_host@],
    }
}

pub fn phase_hosts(phase: Phase, desired: &DesiredMesh) -> (r: Vec<String>)
    ensures
        text::views(r@) == hosts_of(phase, *desired),
{
    match phase {
        Phase::Install => text::copy_strings(&desired.hosts),
        Phase::Configure => text::copy_strings(&desired.hosts),
        Phase::Agents => text::copy_strings(&desired.nodes),
        Phase::HostTokens => text::copy_strings(&desired.nodes),
        Phase::Central => {
            let mut one: Vec<String> = Vec::new();
            one.push(desired.central_host.clone());
            proof {
                assert(text::views(one@) =~= seq![desired.central_host@]);
            }
            one
        },
    }
}

/// What the first host that failed says.
pub open spec fn first_error(rs: Seq<PhaseResult>) -> Option<Seq<char>>
    decreases rs.len(),
{
    if rs.len() == 0 {
        None
    } else if rs[0].result is None {
        Some(
            match rs[0].error {
                Some(e) => e@,
                None => Seq::empty(),
            },
        )
    } else {
        first_error(rs.drop_first())
    }
}

/// Finds what the first host that failed says.
fn find_error(results: &Vec<PhaseResult>) -> (r: Option<String>)
    ensures
        text::opt_view(r) == first_error(results@),
        r is Some <==> any_failed(results@),
{
    let mut i: usize = 0;
    proof {
        assert(results@.skip(0) =~= results@);
    }
    while i < results.len()
        invariant
            i <= results@.len(),
            first_error(results@.skip(i as int)) == first_error(results@),
            forall|j: int| 0 <= j < i ==> (#[trigger] results@[j]).result is Some,
        decreases results@.len() - i,
    {
        proof {
            assert(results@.skip(i as int)[0] == results@[i as int]);
            assert(results@.skip(i as int).drop_first() =~= results@.skip(i + 1));
        }
        if results[i].result.is_none() {
            return match &results[i].error {
                Some(e) => Some(e.clone()),
                None => Some(String::new()),
            };
        }
        i = i + 1;
    }
    None
}

/// How an application stands after a phase.
#[derive(Clone, Debug)]
pub enum Progress {
    /// The phase that comes next, with the results so far.
    Run(Phase, Vec<ActionResult>),
    /// The results of all phases.
    Done(Vec<ActionResult>),
    /// Why the application ended.
    Failed(String),
}

/// Whether an application stands like this after a phase, with `before` from the phases that
/// came earlier.
pub open spec fn is_progress(
    p: Progress,
    phase: Phase,
    before: Seq<ResultView>,
    rs: Seq<PhaseResult>,
    d: DesiredMesh,
) -> bool {
    let gathered = before + phase_results(rs, phase_action(phase));
    match next_of(phase, any_failed(rs), d.install_coold, d.central_host@.len() > 0) {
        Next::Run(next) => p matches Progress::Run(q, all) && q == next && result_views(all@)
            == gathered,
        Next::Done => p matches Progress::Done(all) && result_views(all@) == gathered,
        Next::Abort(_) => p matches Progress::Failed(e) && Some(e@) == (match abort_text(phase) {
            Some(m) => Some(m),
            None => first_error(rs),
        }),
    }
}

/// Takes in what came back from the hosts of a phase, and decides how the application goes
/// on: with the next phase, with all results, or not at all.
pub fn finish_phase(
    phase: Phase,
    before: Vec<ActionResult>,
    results: Vec<PhaseResult>,
    desired: &DesiredMesh,
) -> (r: Progress)
    ensures
        is_progress(r, phase, result_views(before@), results@, *desired),
{
    let error: Option<String> = find_error(&results);
    let mut all: Vec<ActionResult> = before;
    let bad: bool = collect_phase(&mut all, results, failed_action(phase));
    match next_phase(phase, bad, desired) {
        Next::Run(next) => Progress::Run(next, all),
        Next::Done => Progress::Done(all),
        Next::Abort(_) => Progress::Failed(
            match (abort_message(phase), error) {
                (Some(m), _) => m.to_owned(),
                (None, Some(e)) => e,
                (None, None) => String::new(),
            },
        ),
    }
}

// ---------------------------------------------------------------------------
// Addresses
// ---------------------------------------------------------------------------

/// The addresses that an application works with.
#[derive(Clone, Debug)]
pub struct Addresses {
    pub mgmt: StrMap<u32>,
    pub subnets: StrMap<StrMap<Ipv4Net>>,
}

/// Whether every host has a management address, and every node a subnet in each namespace.
pub open spec fn ready(d: DesiredMesh, a: Addresses) -> bool {
    &&& forall|x: Seq<char>|
        text::views(d.hosts@).contains(x) ==> #[trigger] keyed::lookup(a.mgmt@, x) is Some
    &&& forall|x: Seq<char>|
        #[trigger] text::views(d.nodes@).contains(x) ==> plan::allotted(
            keyed::nested(a.subnets@),
            keyed::in_order(text::views(d.namespaces@)),
            x,
        )
}

/// Whether a step of a phase on a host tells its gateway in a namespace: the step that makes
/// the network there, or the one that writes the unit of coold.
pub open spec fn tells_gateway(
    phase: Phase,
    d: DesiredMesh,
    acts: Seq<ActionView>,
    host: Seq<char>,
    ns: Seq<char>,
) -> bool {
    let none = Seq::<char>::empty();
    match phase {
        Phase::Configure => text::views(d.nodes@).contains(host) && d.install_podman && (runs(
            acts,
            host,
            ActionType::CreatePodmanNetwork,
            ns,
        ) || runs(acts, host, ActionType::RecreatePodmanNetwork, ns)),
        Phase::Agents => runs(acts, host, ActionType::InstallCooldService, none),
        Phase::HostTokens => runs(acts, host, ActionType::UpdateCooldSchedulerEnv, none),
        Phase::Install | Phase::Central => false,
    }
}

/// Whether a host has its subnet below the highest address, where it has a gateway, wherever a
/// step of a phase tells that gateway.
pub open spec fn has_gateways(
    phase: Phase,
    d: DesiredMesh,
    a: Addresses,
    acts: Seq<ActionView>,
    host: Seq<char>,
) -> bool {
    let nss = keyed::in_order(text::views(d.namespaces@));
    forall|i: int|
        0 <= i < nss.len() && tells_gateway(phase, d, acts, host, #[trigger] nss[i])
            ==> below_highest(a, nss[i], host)
}

/// Whether the subnet of a host in a namespace, if it has one, is below the highest address.
pub open spec fn below_highest(a: Addresses, ns: Seq<char>, host: Seq<char>) -> bool {
    keyed::lookup2(keyed::nested(a.subnets@), ns, host) matches Some(n) ==> n.base() < u32::MAX
}

fn gateway_is_told(
    phase: Phase,
    desired: &DesiredMesh,
    planned: &Plan,
    host: &str,
    ns: &str,
) -> (r: bool)
    ensures
        r == tells_gateway(
            phase,
            *desired,
            action::action_views(planned.actions@),
            host@,
            ns@,
        ),
{
    proof {
        reveal_strlit("");
        assert(""@ =~= Seq::<char>::empty());
    }
    match phase {
        Phase::Configure => desired.is_node(host) && desired.install_podman && (should_run(
            planned,
            host,
            ActionType::CreatePodmanNetwork,
            ns,
        ) || should_run(planned, host, ActionType::RecreatePodmanNetwork, ns)),
        Phase::Agents => should_run(planned, host, ActionType::InstallCooldService, ""),
        Phase::HostTokens => should_run(planned, host, ActionType::UpdateCooldSchedulerEnv, ""),
        Phase::Install | Phase::Central => false,
    }
}

/// Tells whether a host has a gateway wherever a step of a phase tells one.
pub fn gateways_fit(
    phase: Phase,
    desired: &DesiredMesh,
    addresses: &Addresses,
    planned: &Plan,
    host: &str,
) -> (r: bool)
    ensures
        r == has_gateways(
            phase,
            *desired,
            *addresses,
            action::action_views(planned.actions@),
            host@,
        ),
{
    let ghost acts = action::action_views(planned.actions@);
    let nss: Vec<String> = desired.sorted_namespaces();
    let ghost names = keyed::in_order(text::views(desired.namespaces@));
    let mut i: usize = 0;
    while i < nss.len()
        invariant
            i <= nss@.len(),
            acts == action::action_views(planned.actions@),
            names == keyed::in_order(text::views(desired.namespaces@)),
            text::views(nss@) == names,
            forall|j: int|
                0 <= j < i && tells_gateway(phase, *desired, acts, host@, #[trigger] names[j])
                    ==> below_highest(*addresses, names[j], host@),
        decreases nss@.len() - i,
    {
        let ns: &str = nss[i].as_str();
        proof {
            assert(names[i as int] == ns@);
        }
        if let Some(n) = plan::host_subnet(&addresses.subnets, ns, host) {
            if n.network() == u32::MAX && gateway_is_told(phase, desired, planned, host, ns) {
                proof {
                    assert(!below_highest(*addresses, names[i as int], host@));
                }
                return false;
            }
        }
        i = i + 1;
    }
    true
}

/// Assigns the addresses of a mesh as it is probed now.
pub fn assign(desired: &DesiredMesh, fresh: &MeshState) -> (r: Result<Addresses, String>)
    ensures
        match r {
            Ok(a) => {
                &&& plan::mgmt_of(*desired, fresh@) is Ok
                &&& plan::containers_of(*desired, fresh@) is Ok
                &&& a.mgmt@ == plan::mgmt_of(*desired, fresh@)->Ok_0.0
                &&& keyed::nested(a.subnets@) == plan::containers_of(*desired, fresh@)->Ok_0.0
                &&& ready(*desired, a)
            },
            Err(e) => if plan::mgmt_of(*desired, fresh@) is Err {
                plan::mgmt_of(*desired, fresh@)->Err_0 == e@
            } else {
                plan::containers_of(*desired, fresh@) is Err && plan::containers_of(
                    *desired,
                    fresh@,
                )->Err_0 == e@
            },
        },
{
    let (mgmt, _): (StrMap<u32>, Vec<Warning>) = match subnet::allocate_mgmt_ips(
        desired.mgmt_pool,
        &fresh.assigned_mgmt_ips(),
        &desired.hosts,
    ) {
        Ok(x) => x,
        Err(e) => return Err(e),
    };
    let (subnets, _): (StrMap<StrMap<Ipv4Net>>, Vec<Warning>) = match subnet::allocate_namespaced(
        desired.container_pool,
        desired.container_prefix,
        &fresh.assigned_container_subnets(),
        &desired.namespaces,
        &desired.nodes,
    ) {
        Ok(x) => x,
        Err(e) => return Err(e),
    };
    let _len: u8 = desired.mgmt_pool.prefix_len();
    let a: Addresses = Addresses { mgmt, subnets };
    proof {
        subnet_laws::mgmt_ips_are_distinct(
            desired.mgmt_pool,
            state::assigned_ips(fresh@),
            text::views(desired.hosts@),
        );
        assert forall|x: Seq<char>| #[trigger]
            text::views(desired.nodes@).contains(x) implies plan::allotted(
            keyed::nested(a.subnets@),
            keyed::in_order(text::views(desired.namespaces@)),
            x,
        ) by {
            plan::nodes_allotted(*desired, fresh@, x);
        }
    }
    Ok(a)
}

// ---------------------------------------------------------------------------
// Steps that all applications share
// ---------------------------------------------------------------------------

pub const APT_WG: &'static str = "DEBIAN_FRONTEND=noninteractive apt-get update -qq 2>/dev/null && DEBIAN_FRONTEND=noninteractive apt-get install -y -o Dpkg::Options::=\"--force-confold\" wireguard wireguard-tools 2>&1";

pub const APT_PODMAN: &'static str = "DEBIAN_FRONTEND=noninteractive apt-get update -qq 2>/dev/null && DEBIAN_FRONTEND=noninteractive apt-get install -y -o Dpkg::Options::=\"--force-confold\" podman nftables 2>&1";

pub const ENABLE_PODMAN: &'static str = "systemctl enable --now podman.socket 2>&1";

pub const ENABLE_IP_FORWARD: &'static str = "sysctl -w net.ipv4.ip_forward=1 && mkdir -p /etc/sysctl.d && echo 'net.ipv4.ip_forward=1' > /etc/sysctl.d/99-coolify-mesh.conf";

/// What is installed on a host first.
pub open spec fn install_steps(
    d: DesiredMesh,
    st: ServerView,
    acts: Seq<ActionView>,
    host: Seq<char>,
    genkey: Seq<char>,
) -> Seq<StepView> {
    let none = Seq::<char>::empty();
    let podman = text::views(d.nodes@).contains(host) && d.install_podman;
    step_if(
        !st.installed && runs(acts, host, ActionType::InstallWg, none),
        ActionType::InstallWg,
        none,
        APT_WG@,
    ) + step_if(
        !st.keys_exist && runs(acts, host, ActionType::GenKeyPair, none),
        ActionType::GenKeyPair,
        none,
        genkey,
    ) + step_if(
        podman && !st.podman_installed && runs(acts, host, ActionType::InstallPodman, none),
        ActionType::InstallPodman,
        none,
        APT_PODMAN@,
    ) + step_if(
        podman && !st.podman_socket_active && runs(
            acts,
            host,
            ActionType::EnablePodmanSocket,
            none,
        ),
        ActionType::EnablePodmanSocket,
        none,
        ENABLE_PODMAN@,
    ) + step_if(
        podman && !st.ip_forward_enabled && runs(acts, host, ActionType::EnableIpForward, none),
        ActionType::EnableIpForward,
        none,
        ENABLE_IP_FORWARD@,
    )
}

/// The steps that install what a host lacks.
pub fn plan_install(
    desired: &DesiredMesh,
    st: &ServerState,
    planned: &Plan,
    host: &str,
    genkey: &str,
) -> (r: Vec<Step>)
    ensures
        step_views(r@) == install_steps(
            *desired,
            st@,
            action::action_views(planned.actions@),
            host@,
            genkey@,
        ),
{
    let mut out: Vec<Step> = Vec::new();
    proof {
        reveal_strlit("");
        assert(""@ =~= Seq::<char>::empty());
        assert(step_views(out@) =~= Seq::empty());
    }
    let podman: bool = desired.is_node(host) && desired.install_podman;
    let wg: bool = !st.installed && should_run(planned, host, ActionType::InstallWg, "");
    push_step(&mut out, wg, ActionType::InstallWg, "", APT_WG);
    let keys: bool = !st.keys_exist && should_run(planned, host, ActionType::GenKeyPair, "");
    push_step(&mut out, keys, ActionType::GenKeyPair, "", genkey);
    let install: bool = podman && !st.podman_installed && should_run(
        planned,
        host,
        ActionType::InstallPodman,
        "",
    );
    push_step(&mut out, install, ActionType::InstallPodman, "", APT_PODMAN);
    let socket: bool = podman && !st.podman_socket_active && should_run(
        planned,
        host,
        ActionType::EnablePodmanSocket,
        "",
    );
    push_step(&mut out, socket, ActionType::EnablePodmanSocket, "", ENABLE_PODMAN);
    let forward: bool = podman && !st.ip_forward_enabled && should_run(
        planned,
        host,
        ActionType::EnableIpForward,
        "",
    );
    push_step(&mut out, forward, ActionType::EnableIpForward, "", ENABLE_IP_FORWARD);
    proof {
        assert(step_views(out@) =~= install_steps(
            *desired,
            st@,
            action::action_views(planned.actions@),
            host@,
            genkey@,
        ));
    }
    out
}

/// The restart of an interface.
pub open spec fn restart_interface_text(iface: Seq<char>) -> Seq<char> {
    "systemctl restart wg-quick@"@
        + iface
        + " 2>&1 || wg syncconf "@
        + iface
        + " <(wg-quick strip "@
        + iface
        + ") 2>&1"@
}

/// The restart of an interface.
fn restart_interface(iface: &str) -> (r: String)
    ensures
        r@ == restart_interface_text(iface@),
{
    let mut out: String = "systemctl restart wg-quick@".to_owned();
    out.append(iface);
    out.append(" 2>&1 || wg syncconf ");
    out.append(iface);
    out.append(" <(wg-quick strip ");
    out.append(iface);
    out.append(") 2>&1");
    out
}

/// The start of an interface.
pub open spec fn start_interface_text(iface: Seq<char>) -> Seq<char> {
    "systemctl enable --now wg-quick@"@
        + iface
        + " 2>&1"@
}

/// The start of an interface.
fn start_interface(iface: &str) -> (r: String)
    ensures
        r@ == start_interface_text(iface@),
{
    let mut out: String = "systemctl enable --now wg-quick@".to_owned();
    out.append(iface);
    out.append(" 2>&1");
    out
}

/// The replacement of a network.
pub open spec fn replace_network_text(net: Seq<char>, ns: Seq<char>, sn: Ipv4Net, gw: u32) -> Seq<char> {
    "podman network rm -f "@
        + net
        + " 2>&1 && podman network create --driver bridge --disable-dns --label io.coolify.managed=true --label io.coolify.namespace="@
        + ns
        + " --subnet="@
        + sn.cidr()
        + " --gateway="@
        + net::dotted(gw)
        + " "@
        + net
}

/// The replacement of a network.
fn replace_network(net: &str, ns: &str, sn: Ipv4Net, gw: u32) -> (r: String)
    ensures
        r@ == replace_network_text(net@, ns@, sn, gw),
{
    let mut out: String = "podman network rm -f ".to_owned();
    out.append(net);
    out.append(" 2>&1 && podman network create --driver bridge --disable-dns --label io.coolify.managed=true --label io.coolify.namespace=");
    out.append(ns);
    out.append(" --subnet=");
    out.append(sn.text().as_str());
    out.append(" --gateway=");
    out.append(net::ip_text(gw).as_str());
    out.append(" ");
    out.append(net);
    out
}

/// The making of a network.
pub open spec fn make_network_text(net: Seq<char>, ns: Seq<char>, sn: Ipv4Net, gw: u32) -> Seq<char> {
    "podman network exists "@
        + net
        + " 2>/dev/null && echo 'network exists, skipping' || podman network create --driver bridge --disable-dns --label io.coolify.managed=true --label io.coolify.namespace="@
        + ns
        + " --subnet="@
        + sn.cidr()
        + " --gateway="@
        + net::dotted(gw)
        + " "@
        + net
}

/// The making of a network.
fn make_network(net: &str, ns: &str, sn: Ipv4Net, gw: u32) -> (r: String)
    ensures
        r@ == make_network_text(net@, ns@, sn, gw),
{
    let mut out: String = "podman network exists ".to_owned();
    out.append(net);
    out.append(" 2>/dev/null && echo 'network exists, skipping' || podman network create --driver bridge --disable-dns --label io.coolify.managed=true --label io.coolify.namespace=");
    out.append(ns);
    out.append(" --subnet=");
    out.append(sn.text().as_str());
    out.append(" --gateway=");
    out.append(net::ip_text(gw).as_str());
    out.append(" ");
    out.append(net);
    out
}

/// The step that brings an interface up, or restarts it where it is up.
pub open spec fn interface_step(
    iface: Seq<char>,
    active: bool,
    acts: Seq<ActionView>,
    host: Seq<char>,
) -> Seq<StepView> {
    let none = Seq::<char>::empty();
    let t = if active {
        ActionType::ReloadService
    } else {
        ActionType::EnableService
    };
    step_if(
        runs(acts, host, t, none),
        t,
        none,
        if active {
            restart_interface_text(iface)
        } else {
            start_interface_text(iface)
        },
    )
}

/// The step for the network of one namespace.
pub open spec fn network_step(
    acts: Seq<ActionView>,
    sn: Ipv4Net,
    host: Seq<char>,
    ns: Seq<char>,
) -> Seq<StepView> {
    let name = meshnet::podman_network_for_text(ns);
    let gw = (sn.base() + 1) as u32;
    if runs(acts, host, ActionType::RecreatePodmanNetwork, ns) {
        seq![
            StepView {
                action_type: ActionType::RecreatePodmanNetwork,
                namespace: ns,
                command: replace_network_text(name, ns, sn, gw),
            },
        ]
    } else {
        step_if(
            runs(acts, host, ActionType::CreatePodmanNetwork, ns),
            ActionType::CreatePodmanNetwork,
            ns,
            make_network_text(name, ns, sn, gw),
        )
    }
}

/// The steps for the networks of the namespaces.
pub open spec fn network_steps(
    acts: Seq<ActionView>,
    subnets: Seq<(Seq<char>, Seq<(Seq<char>, Ipv4Net)>)>,
    host: Seq<char>,
    nss: Seq<Seq<char>>,
) -> Seq<StepView>
    decreases nss.len(),
{
    if nss.len() == 0 {
        Seq::empty()
    } else {
        network_steps(acts, subnets, host, nss.drop_last()) + network_step(
            acts,
            plan::subnet_of(subnets, nss.last(), host),
            host,
            nss.last(),
        )
    }
}

/// Whether a host has a gateway in each of the namespaces whose network a step makes.
spec fn networks_fit(
    acts: Seq<ActionView>,
    subnets: Seq<(Seq<char>, Seq<(Seq<char>, Ipv4Net)>)>,
    host: Seq<char>,
    nss: Seq<Seq<char>>,
) -> bool {
    forall|i: int|
        0 <= i < nss.len() && (runs(
            acts,
            host,
            ActionType::CreatePodmanNetwork,
            #[trigger] nss[i],
        ) || runs(acts, host, ActionType::RecreatePodmanNetwork, nss[i])) ==> plan::below_highest(
            subnets,
            nss[i],
            host,
        )
}

fn push_networks(
    out: &mut Vec<Step>,
    planned: &Plan,
    subnets: &StrMap<StrMap<Ipv4Net>>,
    host: &str,
    nss: &Vec<String>,
)
    requires
        plan::allotted(keyed::nested(subnets@), text::views(nss@), host@),
        networks_fit(
            action::action_views(planned.actions@),
            keyed::nested(subnets@),
            host@,
            text::views(nss@),
        ),
    ensures
        step_views(final(out)@) == step_views(old(out)@) + network_steps(
            action::action_views(planned.actions@),
            keyed::nested(subnets@),
            host@,
            text::views(nss@),
        ),
{
    let ghost acts = action::action_views(planned.actions@);
    let ghost before = step_views(out@);
    let ghost sub = keyed::nested(subnets@);
    let ghost names = text::views(nss@);
    let mut i: usize = 0;
    proof {
        assert(names.take(0) =~= Seq::empty());
        assert(before + Seq::<StepView>::empty() =~= before);
    }
    while i < nss.len()
        invariant
            i <= nss@.len(),
            acts == action::action_views(planned.actions@),
            sub == keyed::nested(subnets@),
            names == text::views(nss@),
            plan::allotted(sub, names, host@),
            networks_fit(acts, sub, host@, names),
            before == step_views(old(out)@),
            step_views(out@) == before + network_steps(acts, sub, host@, names.take(i as int)),
        decreases nss@.len() - i,
    {
        let ns: &String = &nss[i];
        let ghost head = network_steps(acts, sub, host@, names.take(i as int));
        proof {
            assert(names.take(i + 1).drop_last() =~= names.take(i as int));
            assert(names.take(i + 1).last() == ns@);
            assert(names[i as int] == ns@);
        }
        let create: bool = should_run(
            planned,
            host,
            ActionType::CreatePodmanNetwork,
            ns.as_str(),
        );
        let recreate: bool = should_run(
            planned,
            host,
            ActionType::RecreatePodmanNetwork,
            ns.as_str(),
        );
        if let Some(sn) = plan::host_subnet(subnets, ns.as_str(), host) {
            if create || recreate {
                let name: String = meshnet::podman_network_for(ns.as_str());
                let gw: u32 = subnet::machine_ip(sn);
                push_step(
                    out,
                    recreate,
                    ActionType::RecreatePodmanNetwork,
                    ns.as_str(),
                    replace_network(name.as_str(), ns.as_str(), sn, gw).as_str(),
                );
                push_step(
                    out,
                    !recreate,
                    ActionType::CreatePodmanNetwork,
                    ns.as_str(),
                    make_network(name.as_str(), ns.as_str(), sn, gw).as_str(),
                );
            }
            proof {
                assert(step_views(out@) =~= before + (head + network_step(acts, sn, host@, ns@)));
            }
        }
        i = i + 1;
    }
    proof {
        assert(names.take(i as int) =~= names);
    }
}

/// The steps after the interface configuration: the interface, and on a node its
/// networks and its firewall.
pub open spec fn after_config(
    d: DesiredMesh,
    active: bool,
    acts: Seq<ActionView>,
    subnets: Seq<(Seq<char>, Seq<(Seq<char>, Ipv4Net)>)>,
    host: Seq<char>,
) -> Seq<StepView> {
    let none = Seq::<char>::empty();
    let nss = keyed::in_order(text::views(d.namespaces@));
    interface_step(d.interface@, active, acts, host) + (if text::views(d.nodes@).contains(host)
        && d.install_podman {
        network_steps(acts, subnets, host, nss) + step_if(
            runs(acts, host, ActionType::InstallFirewall, none),
            ActionType::InstallFirewall,
            none,
            firewall::install_text(
                d.interface@,
                plan::subnets_of(subnets, nss, host),
                d.default_deny_containers,
            ),
        )
    } else {
        Seq::empty()
    })
}

/// Adds the steps after the interface configuration.
pub fn push_after_config(
    out: &mut Vec<Step>,
    desired: &DesiredMesh,
    active: bool,
    planned: &Plan,
    addresses: &Addresses,
    host: &str,
)
    requires
        ready(*desired, *addresses),
        has_gateways(
            Phase::Configure,
            *desired,
            *addresses,
            action::action_views(planned.actions@),
            host@,
        ),
    ensures
        step_views(final(out)@) == step_views(old(out)@) + after_config(
            *desired,
            active,
            action::action_views(planned.actions@),
            keyed::nested(addresses.subnets@),
            host@,
        ),
{
    let ghost before = step_views(out@);
    proof {
        reveal_strlit("");
        assert(""@ =~= Seq::<char>::empty());
    }
    let t: ActionType = if active {
        ActionType::ReloadService
    } else {
        ActionType::EnableService
    };
    let cmd: String = if active {
        restart_interface(desired.interface.as_str())
    } else {
        start_interface(desired.interface.as_str())
    };
    let run: bool = should_run(planned, host, t, "");
    push_step(out, run, t, "", cmd.as_str());
    if desired.is_node(host) && desired.install_podman {
        let nss: Vec<String> = desired.sorted_namespaces();
        push_networks(out, planned, &addresses.subnets, host, &nss);
        let nets: Vec<Ipv4Net> = plan::host_subnets(&addresses.subnets, &nss, host);
        let install: String = firewall::install_firewall_command(
            desired.interface.as_str(),
            &nss,
            &nets,
            desired.default_deny_containers,
        );
        let fw: bool = should_run(planned, host, ActionType::InstallFirewall, "");
        push_step(out, fw, ActionType::InstallFirewall, "", install.as_str());
    }
    proof {
        assert(step_views(out@) =~= before + after_config(
            *desired,
            active,
            action::action_views(planned.actions@),
            keyed::nested(addresses.subnets@),
            host@,
        ));
    }
}

/// A node has a gateway in each namespace where the unit of coold is written.
pub proof fn agents_are_served(
    phase: Phase,
    d: DesiredMesh,
    a: Addresses,
    acts: Seq<ActionView>,
    host: Seq<char>,
)
    requires
        ready(d, a),
        has_gateways(phase, d, a, acts, host),
        text::views(d.nodes@).contains(host),
        match phase {
            Phase::Agents => runs(acts, host, ActionType::InstallCooldService, Seq::empty()),
            Phase::HostTokens => runs(
                acts,
                host,
                ActionType::UpdateCooldSchedulerEnv,
                Seq::empty(),
            ),
            _ => false,
        },
    ensures
        plan::served(
            keyed::nested(a.subnets@),
            keyed::in_order(text::views(d.namespaces@)),
            host,
        ),
{
    let nss = keyed::in_order(text::views(d.namespaces@));
    assert forall|i: int| 0 <= i < nss.len() implies below_highest(a, #[trigger] nss[i], host) by {
        assert(tells_gateway(phase, d, acts, host, nss[i]));
    }
}

// ---------------------------------------------------------------------------
// Verification
// ---------------------------------------------------------------------------

/// What a host shows after an application.
#[derive(Clone, Debug)]
pub struct VerifyResult {
    pub host: String,
    pub wireguard_ip: String,
    pub peer_count: usize,
    pub status: String,
}

/// The command whose output shows the state of an interface.
pub open spec fn verify_command_text(iface: Seq<char>) -> Seq<char> {
    "wg show "@
        + iface
        + " dump 2>/dev/null || true"@
}

/// The command whose output shows the state of an interface.
pub fn verify_command(iface: &str) -> (r: String)
    ensures
        r@ == verify_command_text(iface@),
{
    let mut out: String = "wg show ".to_owned();
    out.append(iface);
    out.append(" dump 2>/dev/null || true");
    out
}

/// The address in the first line of a dump: its third field, up to the slash.
pub open spec fn dump_address(line: Seq<char>) -> Seq<char> {
    let fields = split::pieces(line, '\t');
    if fields.len() > 2 {
        split::pieces(fields[2], '/')[0]
    } else {
        Seq::empty()
    }
}

/// Reads what a host shows: its address and the number of its peers, or that it failed.
pub fn verify(host: String, outcome: Result<&str, &str>) -> (r: VerifyResult)
    ensures
        r.host == host,
        match outcome {
            Ok(stdout) => {
                let lines = split::lines_of(stdout@);
                r.status@ == "ok"@ && (if lines.len() == 0 {
                    r.wireguard_ip@ == Seq::<char>::empty() && r.peer_count == 0
                } else {
                    r.wireguard_ip@ == dump_address(lines[0]) && r.peer_count == lines.len() - 1
                })
            },
            Err(_) => r.status@ == "error"@ && r.wireguard_ip@ == Seq::<char>::empty()
                && r.peer_count == 0,
        },
{
    match outcome {
        Ok(stdout) => {
            let lines: Vec<String> = split::lines(stdout);
            let ghost ls = split::lines_of(stdout@);
            proof {
                assert(ls.len() == lines@.len());
            }
            if lines.len() == 0 {
                return VerifyResult {
                    host,
                    wireguard_ip: String::new(),
                    peer_count: 0,
                    status: "ok".to_owned(),
                };
            }
            let fields: Vec<String> = split::split(lines[0].as_str(), '\t');
            proof {
                assert(ls[0] == lines@[0]@);
                assert(text::views(fields@).len() == fields@.len());
            }
            let ip: String = if fields.len() > 2 {
                let parts: Vec<String> = split::split(fields[2].as_str(), '/');
                proof {
                    assert(text::views(fields@)[2] == fields@[2]@);
                    assert(split::pieces(fields@[2]@, '/').len() > 0);
                    assert(text::views(parts@)[0] == parts@[0]@);
                }
                parts[0].clone()
            } else {
                String::new()
            };
            VerifyResult {
                host,
                wireguard_ip: ip,
                peer_count: lines.len() - 1,
                status: "ok".to_owned(),
            }
        },
        Err(_) => VerifyResult {
            host,
            wireguard_ip: String::new(),
            peer_count: 0,
            status: "error".to_owned(),
        },
    }
}

} // verus!
