//! Which host a command goes to, and whether it may.

use vstd::prelude::*;
use vstd::string::StringExecFns;
use crate::flux::envelope;
use crate::flux::envelope::{CommandPayload, DispatchEnvelope, IngressAppConfig, PortMapping, StreamInventoryItem};
use crate::keyed;
use crate::keyed::StrMap;
use crate::text;

verus! {

#[derive(Debug)]
pub struct ImagesPullReq {
    pub reference: String,
}

#[derive(Debug)]
pub struct ImagesListReq {}

#[derive(Debug)]
pub struct ImagesDeleteReq {
    pub reference: String,
    pub force: bool,
}

#[derive(Debug)]
pub struct ContainersCreateReq {
    pub name: String,
    pub image: String,
    pub command: Vec<String>,
    pub env: Vec<String>,
    pub networks: Vec<String>,
    pub volumes: Vec<String>,
    pub ports: Vec<PortMapping>,
    pub dns: Vec<String>,
    pub dns_search: Vec<String>,
    pub network_aliases: Vec<String>,
    pub restart_policy: String,
    pub privileged: bool,
    pub network_mode: String,
    pub capabilities: Vec<String>,
}

#[derive(Debug)]
pub struct ContainersStartReq {
    pub id: String,
}

#[derive(Debug)]
pub struct ContainersStopReq {
    pub id: String,
    pub timeout_seconds: u32,
}

#[derive(Debug)]
pub struct ContainersRestartReq {
    pub id: String,
    pub timeout_seconds: u32,
}

#[derive(Debug)]
pub struct ContainersDeleteReq {
    pub id: String,
    pub force: bool,
}

#[derive(Debug)]
pub struct ContainersInspectReq {
    pub id: String,
}

#[derive(Debug)]
pub struct ContainersListReq {}

#[derive(Debug)]
pub struct ContainersLogsReq {
    pub id: String,
    pub tail: u32,
    pub stdout: bool,
    pub stderr: bool,
}

#[derive(Debug)]
pub struct ContainersExecReq {
    pub id: String,
    pub command: Vec<String>,
}

#[derive(Debug)]
pub struct ContainersHealthcheckRunReq {
    pub id: String,
}

#[derive(Debug)]
pub struct ApplyIngressReq {
    pub kind: String,
    pub config: String,
    pub apps: Vec<IngressAppConfig>,
    pub mesh_network: String,
}

#[derive(Debug)]
pub struct StopIngressReq {
    pub kind: String,
}

/// A rule of the container firewall.
#[derive(Debug)]
pub struct FirewallRule {
    pub id: String,
    pub namespace: String,
    pub src: String,
    pub dst: String,
    pub proto: String,
    pub port: u32,
}

#[derive(Debug)]
pub struct FirewallAllowReq {
    pub rule: Option<FirewallRule>,
}

#[derive(Debug)]
pub struct FirewallRevokeReq {
    pub id: String,
}

#[derive(Debug)]
pub struct FirewallListReq {
    pub namespace: String,
}

#[derive(Debug)]
pub struct FirewallReconcileReq {}

#[derive(Debug)]
pub struct CooldLogsReq {
    pub tail: u32,
}

#[derive(Debug)]
pub struct HostJwtSetReq {
    pub jwt: String,
}

/// A command as an agent gets it.
#[derive(Debug)]
pub enum Command {
    ImagesPull(ImagesPullReq),
    ImagesList(ImagesListReq),
    ImagesDelete(ImagesDeleteReq),
    ContainersCreate(ContainersCreateReq),
    ContainersStart(ContainersStartReq),
    ContainersStop(ContainersStopReq),
    ContainersRestart(ContainersRestartReq),
    ContainersDelete(ContainersDeleteReq),
    ContainersInspect(ContainersInspectReq),
    ContainersList(ContainersListReq),
    ContainersLogs(ContainersLogsReq),
    ContainersExec(ContainersExecReq),
    ContainersHealthcheckRun(ContainersHealthcheckRunReq),
    IngressApply(ApplyIngressReq),
    IngressStop(StopIngressReq),
    FirewallAllow(FirewallAllowReq),
    FirewallRevoke(FirewallRevokeReq),
    FirewallList(FirewallListReq),
    FirewallReconcile(FirewallReconcileReq),
    CooldLogs(CooldLogsReq),
    HostJwtSet(HostJwtSetReq),
    Ping,
}

/// A message to an agent.
#[derive(Debug)]
pub struct ServerMsg {
    pub request_id: String,
    pub command: Option<Command>,
}

/// What is known of a stream: what it may do, and what the agent says it can do.
#[derive(Clone, Debug)]
pub struct StreamHandle {
    pub caps: Vec<String>,
    pub advertised_caps: Vec<String>,
}

/// The streams by their hosts.
#[derive(Clone, Debug)]
pub struct Streams {
    pub handles: StrMap<StreamHandle>,
}

impl Streams {
    pub fn new() -> (r: Self)
        ensures
            r.handles@.len() == 0,
    {
        Streams { handles: StrMap::new() }
    }

    pub fn insert(&mut self, host_id: String, handle: StreamHandle)
        ensures
            final(self).handles@ == keyed::put(old(self).handles@, host_id@, handle),
    {
        self.handles.insert(host_id, handle);
    }

    /// Takes the stream of a host out; tells whether there was one.
    pub fn remove(&mut self, host_id: &str) -> (r: bool)
        ensures
            final(self).handles@ == keyed::without(old(self).handles@, host_id@),
            r == (keyed::lookup(old(self).handles@, host_id@) is Some),
    {
        self.handles.remove(host_id)
    }

    /// The hosts that are connected, and what each may do.
    pub fn snapshot(&self) -> (r: Vec<StreamInventoryItem>)
        ensures
            r@.len() == self.handles@.len(),
            forall|i: int|
                0 <= i < r@.len() ==> (#[trigger] r@[i]).host_id@ == self.handles@[i].0
                    && text::views(r@[i].caps@) == text::views(self.handles@[i].1.caps@),
    {
        let mut out: Vec<StreamInventoryItem> = Vec::new();
        let mut i: usize = 0;
        while i < self.handles.len()
            invariant
                i <= self.handles@.len(),
                out@.len() == i,
                forall|j: int|
                    0 <= j < i ==> (#[trigger] out@[j]).host_id@ == self.handles@[j].0
                        && text::views(out@[j].caps@) == text::views(self.handles@[j].1.caps@),
            decreases self.handles@.len() - i,
        {
            out.push(
                StreamInventoryItem {
                    host_id: self.handles.key(i).clone(),
                    caps: text::copy_strings(&self.handles.value(i).caps),
                },
            );
            i = i + 1;
        }
        out
    }
}

/// Where a command goes: down the stream of its host, or back as an error.
#[derive(Debug)]
pub enum RouteOutcome {
    SendCoold { host_id: String, msg: ServerMsg },
    PushError { code: u32, message: String },
}

/// The command as the agent gets it.
pub open spec fn command_of(c: CommandPayload) -> Command {
    match c {
        CommandPayload::ImagesPull { reference } => Command::ImagesPull(ImagesPullReq { reference }),
        CommandPayload::ImagesList => Command::ImagesList(ImagesListReq {}),
        CommandPayload::ImagesDelete { reference, force } => Command::ImagesDelete(ImagesDeleteReq { reference, force }),
        CommandPayload::ContainersCreate { name, image, command, env, networks, volumes, ports, dns, dns_search, network_aliases, restart_policy, privileged, network_mode, capabilities } => Command::ContainersCreate(ContainersCreateReq { name, image, command, env, networks, volumes, ports, dns, dns_search, network_aliases, restart_policy, privileged, network_mode, capabilities }),
        CommandPayload::ContainersStart { id } => Command::ContainersStart(ContainersStartReq { id }),
        CommandPayload::ContainersStop { id, timeout_seconds } => Command::ContainersStop(ContainersStopReq { id, timeout_seconds }),
        CommandPayload::ContainersRestart { id, timeout_seconds } => Command::ContainersRestart(ContainersRestartReq { id, timeout_seconds }),
        CommandPayload::ContainersDelete { id, force } => Command::ContainersDelete(ContainersDeleteReq { id, force }),
        CommandPayload::ContainersInspect { id } => Command::ContainersInspect(ContainersInspectReq { id }),
        CommandPayload::ContainersList => Command::ContainersList(ContainersListReq {}),
        CommandPayload::ContainersLogs { id, tail, stdout, stderr } => Command::ContainersLogs(ContainersLogsReq { id, tail, stdout, stderr }),
        CommandPayload::ContainersExec { id, command } => Command::ContainersExec(ContainersExecReq { id, command }),
        CommandPayload::ContainersHealthcheckRun { id } => Command::ContainersHealthcheckRun(ContainersHealthcheckRunReq { id }),
        CommandPayload::ApplyIngress { kind, config, apps, mesh_network } => Command::IngressApply(ApplyIngressReq { kind, config, apps, mesh_network }),
        CommandPayload::StopIngress { kind } => Command::IngressStop(StopIngressReq { kind }),
        CommandPayload::FirewallAllow { id, namespace, src, dst, proto, port } => Command::FirewallAllow(FirewallAllowReq { rule: Some(FirewallRule { id, namespace, src, dst, proto, port }) }),
        CommandPayload::FirewallRevoke { id } => Command::FirewallRevoke(FirewallRevokeReq { id }),
        CommandPayload::FirewallList { namespace } => Command::FirewallList(FirewallListReq { namespace }),
        CommandPayload::FirewallReconcile => Command::FirewallReconcile(FirewallReconcileReq {}),
        CommandPayload::CooldLogs { tail } => Command::CooldLogs(CooldLogsReq { tail }),
        CommandPayload::HostJwtSet { jwt } => Command::HostJwtSet(HostJwtSetReq { jwt }),
    }
}

fn to_command(c: CommandPayload) -> (r: Command)
    ensures
        r == command_of(c),
{
    match c {
        CommandPayload::ImagesPull { reference } => Command::ImagesPull(ImagesPullReq { reference }),
        CommandPayload::ImagesList => Command::ImagesList(ImagesListReq {}),
        CommandPayload::ImagesDelete { reference, force } => Command::ImagesDelete(ImagesDeleteReq { reference, force }),
        CommandPayload::ContainersCreate { name, image, command, env, networks, volumes, ports, dns, dns_search, network_aliases, restart_policy, privileged, network_mode, capabilities } => Command::ContainersCreate(ContainersCreateReq { name, image, command, env, networks, volumes, ports, dns, dns_search, network_aliases, restart_policy, privileged, network_mode, capabilities }),
        CommandPayload::ContainersStart { id } => Command::ContainersStart(ContainersStartReq { id }),
        CommandPayload::ContainersStop { id, timeout_seconds } => Command::ContainersStop(ContainersStopReq { id, timeout_seconds }),
        CommandPayload::ContainersRestart { id, timeout_seconds } => Command::ContainersRestart(ContainersRestartReq { id, timeout_seconds }),
        CommandPayload::ContainersDelete { id, force } => Command::ContainersDelete(ContainersDeleteReq { id, force }),
        CommandPayload::ContainersInspect { id } => Command::ContainersInspect(ContainersInspectReq { id }),
        CommandPayload::ContainersList => Command::ContainersList(ContainersListReq {}),
        CommandPayload::ContainersLogs { id, tail, stdout, stderr } => Command::ContainersLogs(ContainersLogsReq { id, tail, stdout, stderr }),
        CommandPayload::ContainersExec { id, command } => Command::ContainersExec(ContainersExecReq { id, command }),
        CommandPayload::ContainersHealthcheckRun { id } => Command::ContainersHealthcheckRun(ContainersHealthcheckRunReq { id }),
        CommandPayload::ApplyIngress { kind, config, apps, mesh_network } => Command::IngressApply(ApplyIngressReq { kind, config, apps, mesh_network }),
        CommandPayload::StopIngress { kind } => Command::IngressStop(StopIngressReq { kind }),
        CommandPayload::FirewallAllow { id, namespace, src, dst, proto, port } => Command::FirewallAllow(FirewallAllowReq { rule: Some(FirewallRule { id, namespace, src, dst, proto, port }) }),
        CommandPayload::FirewallRevoke { id } => Command::FirewallRevoke(FirewallRevokeReq { id }),
        CommandPayload::FirewallList { namespace } => Command::FirewallList(FirewallListReq { namespace }),
        CommandPayload::FirewallReconcile => Command::FirewallReconcile(FirewallReconcileReq {}),
        CommandPayload::CooldLogs { tail } => Command::CooldLogs(CooldLogsReq { tail }),
        CommandPayload::HostJwtSet { jwt } => Command::HostJwtSet(HostJwtSetReq { jwt }),
    }
}

/// The capability that a command takes.
pub fn required_capability(command: &CommandPayload) -> (r: &'static str)
    ensures
        r@ == envelope::kind_of(*command),
{
    command.kind()
}

/// The refusal of what the token does not grant.
pub open spec fn unauthorized_text(cap: Seq<char>) -> Seq<char> {
    "capability "@
        + cap
        + " is not authorized for this host token"@
}

/// The refusal of what the token does not grant.
fn unauthorized(cap: &str) -> (r: String)
    ensures
        r@ == unauthorized_text(cap@),
{
    let mut out: String = "capability ".to_owned();
    out.append(cap);
    out.append(" is not authorized for this host token");
    out
}

/// The refusal of what the host cannot do.
pub open spec fn unsupported_text(cap: Seq<char>) -> Seq<char> {
    "primitive "@
        + cap
        + " is not supported by host"@
}

/// The refusal of what the host cannot do.
fn unsupported(cap: &str) -> (r: String)
    ensures
        r@ == unsupported_text(cap@),
{
    let mut out: String = "primitive ".to_owned();
    out.append(cap);
    out.append(" is not supported by host");
    out
}

/// Why a command for a host with this stream is refused: no stream, a capability that the
/// host has and the token does not grant, or one that the host does not have.
pub open spec fn refusal(stream: Option<StreamHandle>, cap: Seq<char>) -> Option<(u32, Seq<char>)> {
    match stream {
        None => Some((404, "host not connected"@)),
        Some(s) => if text::views(s.caps@).contains(cap) {
            None
        } else if text::views(s.advertised_caps@).contains(cap) {
            Some((403, unauthorized_text(cap)))
        } else {
            Some((501, unsupported_text(cap)))
        },
    }
}

/// Whether an agent gets what it is asked to do: the same verb, with each argument under its own
/// name.
pub open spec fn asks(c: CommandPayload, m: Command) -> bool {
    match (c, m) {
        (CommandPayload::ImagesPull { reference }, Command::ImagesPull(q)) => {
            &&& q.reference == reference
        },
        (CommandPayload::ImagesList, Command::ImagesList(_)) => true,
        (CommandPayload::ImagesDelete { reference, force }, Command::ImagesDelete(q)) => {
            &&& q.reference == reference
            &&& q.force == force
        },
        (CommandPayload::ContainersCreate { name, image, command, env, networks, volumes, ports, dns, dns_search, network_aliases, restart_policy, privileged, network_mode, capabilities }, Command::ContainersCreate(q)) => {
            &&& q.name == name
            &&& q.image == image
            &&& q.command == command
            &&& q.env == env
            &&& q.networks == networks
            &&& q.volumes == volumes
            &&& q.ports == ports
            &&& q.dns == dns
            &&& q.dns_search == dns_search
            &&& q.network_aliases == network_aliases
            &&& q.restart_policy == restart_policy
            &&& q.privileged == privileged
            &&& q.network_mode == network_mode
            &&& q.capabilities == capabilities
        },
        (CommandPayload::ContainersStart { id }, Command::ContainersStart(q)) => {
            &&& q.id == id
        },
        (CommandPayload::ContainersStop { id, timeout_seconds }, Command::ContainersStop(q)) => {
            &&& q.id == id
            &&& q.timeout_seconds == timeout_seconds
        },
        (CommandPayload::ContainersRestart { id, timeout_seconds }, Command::ContainersRestart(q)) => {
            &&& q.id == id
            &&& q.timeout_seconds == timeout_seconds
        },
        (CommandPayload::ContainersDelete { id, force }, Command::ContainersDelete(q)) => {
            &&& q.id == id
            &&& q.force == force
        },
        (CommandPayload::ContainersInspect { id }, Command::ContainersInspect(q)) => {
            &&& q.id == id
        },
        (CommandPayload::ContainersList, Command::ContainersList(_)) => true,
        (CommandPayload::ContainersLogs { id, tail, stdout, stderr }, Command::ContainersLogs(q)) => {
            &&& q.id == id
            &&& q.tail == tail
            &&& q.stdout == stdout
            &&& q.stderr == stderr
        },
        (CommandPayload::ContainersExec { id, command }, Command::ContainersExec(q)) => {
            &&& q.id == id
            &&& q.command == command
        },
        (CommandPayload::ContainersHealthcheckRun { id }, Command::ContainersHealthcheckRun(q)) => {
            &&& q.id == id
        },
        (CommandPayload::ApplyIngress { kind, config, apps, mesh_network }, Command::IngressApply(q)) => {
            &&& q.kind == kind
            &&& q.config == config
            &&& q.apps == apps
            &&& q.mesh_network == mesh_network
        },
        (CommandPayload::StopIngress { kind }, Command::IngressStop(q)) => {
            &&& q.kind == kind
        },
        (CommandPayload::FirewallRevoke { id }, Command::FirewallRevoke(q)) => {
            &&& q.id == id
        },
        (CommandPayload::FirewallList { namespace }, Command::FirewallList(q)) => {
            &&& q.namespace == namespace
        },
        (CommandPayload::FirewallReconcile, Command::FirewallReconcile(_)) => true,
        (CommandPayload::CooldLogs { tail }, Command::CooldLogs(q)) => {
            &&& q.tail == tail
        },
        (CommandPayload::HostJwtSet { jwt }, Command::HostJwtSet(q)) => {
            &&& q.jwt == jwt
        },
        (
            CommandPayload::FirewallAllow { id, namespace, src, dst, proto, port },
            Command::FirewallAllow(q),
        ) => {
            &&& q.rule matches Some(rule)
            &&& rule.id == id
            &&& rule.namespace == namespace
            &&& rule.src == src
            &&& rule.dst == dst
            &&& rule.proto == proto
            &&& rule.port == port
        },
        _ => false,
    }
}

/// Routes a command to its host.
pub fn route_coold(streams: &Streams, env: DispatchEnvelope) -> (r: RouteOutcome)
    ensures
        match refusal(
            keyed::lookup(streams.handles@, env.host_id@),
            envelope::kind_of(env.command),
        ) {
            Some((code, message)) => r matches RouteOutcome::PushError { code: c, message: m } && c
                == code && m@ == message,
            None => r matches RouteOutcome::SendCoold { host_id, msg } && host_id == env.host_id
                && msg.request_id == env.request_id && msg.command == Some(
                command_of(env.command),
            ),
        },
        match keyed::lookup(streams.handles@, env.host_id@) {
            None => r matches RouteOutcome::PushError { code, .. } && code == 404,
            Some(s) => {
                let cap = envelope::kind_of(env.command);
                if text::views(s.caps@).contains(cap) {
                    r matches RouteOutcome::SendCoold { host_id, msg } && host_id@ == env.host_id@
                        && msg.request_id@ == env.request_id@ && (msg.command matches Some(m)
                        && asks(env.command, m))
                } else {
                    r matches RouteOutcome::PushError { code, .. } && code == if text::views(
                        s.advertised_caps@,
                    ).contains(cap) {
                        403u32
                    } else {
                        501u32
                    }
                }
            },
        },
{
    let stream: &StreamHandle = match streams.handles.get(env.host_id.as_str()) {
        Some(s) => s,
        None => {
            return RouteOutcome::PushError {
                code: 404,
                message: "host not connected".to_owned(),
            };
        },
    };
    let cap: &'static str = required_capability(&env.command);
    if !text::has_string(&stream.caps, cap) {
        if text::has_string(&stream.advertised_caps, cap) {
            return RouteOutcome::PushError { code: 403, message: unauthorized(cap) };
        }
        return RouteOutcome::PushError { code: 501, message: unsupported(cap) };
    }
    RouteOutcome::SendCoold {
        host_id: env.host_id,
        msg: ServerMsg { request_id: env.request_id, command: Some(to_command(env.command)) },
    }
}

/// A command that is passed on asks the agent for what the control plane asked for: the verb
/// is the same, and each argument stands under its own name.
pub proof fn commands_keep_their_arguments(c: CommandPayload)
    ensures
        asks(c, command_of(c)),
{
}

/// A command asks for one thing: what an agent gets for one command, it gets for no other.
pub proof fn commands_are_not_confused(a: CommandPayload, b: CommandPayload)
    ensures
        command_of(a) == command_of(b) ==> a == b,
{
}

/// A refusal names the capability that is at issue.
pub proof fn refusals_name_the_capability(stream: Option<StreamHandle>, cap: Seq<char>)
    ensures
        stream matches Some(s) ==> (refusal(stream, cap) matches Some((_, m)) ==> text::has_text(
            m,
            cap,
        )),
{
    if stream is Some {
        let a = "capability "@;
        let b = " is not authorized for this host token"@;
        let c = "primitive "@;
        let d = " is not supported by host"@;
        assert(text::stands_at(a + cap + b, cap, a.len() as int)) by {
            assert((a + cap + b).subrange(a.len() as int, (a.len() + cap.len()) as int) =~= cap);
        }
        assert(text::stands_at(c + cap + d, cap, c.len() as int)) by {
            assert((c + cap + d).subrange(c.len() as int, (c.len() + cap.len()) as int) =~= cap);
        }
    }
}

/// A command is passed on if and only if its host is connected and its token grants the
/// capability that is named like the command.
pub proof fn commands_need_their_capability(streams: Streams, host: Seq<char>, c: CommandPayload)
    ensures
        refusal(keyed::lookup(streams.handles@, host), envelope::kind_of(c)) is None <==> (
        keyed::lookup(streams.handles@, host) matches Some(s) && text::views(s.caps@).contains(
            envelope::kind_of(c),
        )),
{
}

} // verus!
