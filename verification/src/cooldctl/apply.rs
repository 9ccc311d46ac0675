//! What an application runs on each host of a mesh with a central host.

use vstd::prelude::*;
use vstd::string::StringExecFns;
use crate::cli::apply as cluster;
use crate::cli::config;
use crate::cli::config::{PeerConfig, PeerConfigView};
use crate::cli::coold::CooldNamespace;
use crate::cooldctl::builder as maker;
use crate::cooldctl::config as own_config;
use crate::cooldctl::coold;
use crate::cooldctl::coold::BuilderConfig;
use crate::cooldctl::coolify;
use crate::cooldctl::jwt;
use crate::cooldctl::scheduler;
use crate::cooldctl::ssh;
use crate::cli::plan;
use crate::cli::corrosion;
use crate::cli::corrosion::CorrosionFiles;
use crate::keyed;
use crate::mesh::action;
use crate::mesh::action::{ActionType, ActionView, Plan};
use crate::mesh::apply;
use crate::mesh::apply::{Addresses, Phase, Step, StepView};
use crate::mesh::state;
use crate::mesh::state::{DesiredMesh, MeshState, ServerState, ServerView};
use crate::net;
use crate::net::Ipv4Net;
use crate::text;

pub use crate::mesh::apply::{ActionResult, VerifyResult};

verus! {

/// The command that makes the key pair of a host.
pub const GENKEY: &'static str = "mkdir -p /etc/wireguard && wg genkey | tee /etc/wireguard/privatekey | wg pubkey | tee /etc/wireguard/publickey && chmod 600 /etc/wireguard/privatekey";

/// The first phase on a host.
pub fn phase1(desired: &DesiredMesh, current: &MeshState, planned: &Plan, host: &str) -> (r: Vec<Step>)
    ensures
        apply::step_views(r@) == apply::install_steps(
            *desired,
            plan::state_of(current@, host@),
            action::action_views(planned.actions@),
            host@,
            GENKEY@,
        ),
{
    let unknown: ServerState = ServerState::default();
    proof {
        state::server_views_lookup(current.servers@, host@);
    }
    let st: &ServerState = match current.servers.get(host) {
        Some(s) => s,
        None => &unknown,
    };
    apply::plan_install(desired, st, planned, host, GENKEY)
}

/// The peers of a host: the other hosts whose keys are known.
pub open spec fn peers_of(
    d: DesiredMesh,
    cur: Seq<(Seq<char>, ServerView)>,
    mgmt: Seq<(Seq<char>, u32)>,
    subnets: Seq<(Seq<char>, Seq<(Seq<char>, Ipv4Net)>)>,
    host: Seq<char>,
    hosts: Seq<Seq<char>>,
) -> Seq<PeerConfigView>
    decreases hosts.len(),
{
    if hosts.len() == 0 {
        Seq::empty()
    } else {
        let t = peers_of(d, cur, mgmt, subnets, host, hosts.drop_last());
        let p = hosts.last();
        if p != host && plan::key_of(cur, p).len() > 0 {
            t.push(
                PeerConfigView {
                    endpoint: p,
                    public_key: plan::key_of(cur, p),
                    mgmt_ip: keyed::lookup(mgmt, p)->0,
                    container_subnets: if text::views(d.nodes@).contains(p) {
                        plan::subnets_of(
                            subnets,
                            keyed::in_order(text::views(d.namespaces@)),
                            p,
                        )
                    } else {
                        Seq::empty()
                    },
                },
            )
        } else {
            t
        }
    }
}

fn collect_peers(
    desired: &DesiredMesh,
    fresh: &MeshState,
    addresses: &Addresses,
    host: &str,
) -> (r: Vec<PeerConfig>)
    requires
        apply::ready(*desired, *addresses),
    ensures
        config::peer_configs(r@) == peers_of(
            *desired,
            fresh@,
            addresses.mgmt@,
            keyed::nested(addresses.subnets@),
            host@,
            text::views(desired.hosts@),
        ),
{
    broadcast use config::peer_configs_push;

    let ghost hs = text::views(desired.hosts@);
    let ghost sub = keyed::nested(addresses.subnets@);
    let nss: Vec<String> = desired.sorted_namespaces();
    let mut out: Vec<PeerConfig> = Vec::new();
    let mut i: usize = 0;
    proof {
        assert(hs.take(0) =~= Seq::empty());
        assert(config::peer_configs(out@) =~= Seq::empty());
    }
    while i < desired.hosts.len()
        invariant
            i <= desired.hosts@.len(),
            hs == text::views(desired.hosts@),
            sub == keyed::nested(addresses.subnets@),
            text::views(nss@) == keyed::in_order(text::views(desired.namespaces@)),
            apply::ready(*desired, *addresses),
            config::peer_configs(out@) == peers_of(
                *desired,
                fresh@,
                addresses.mgmt@,
                sub,
                host@,
                hs.take(i as int),
            ),
        decreases desired.hosts@.len() - i,
    {
        let p: &str = desired.hosts[i].as_str();
        proof {
            assert(hs.take(i + 1).drop_last() =~= hs.take(i as int));
            assert(hs.take(i + 1).last() == p@);
            assert(hs[i as int] == p@);
            assert(hs.contains(p@));
            assert(keyed::lookup(addresses.mgmt@, p@) is Some);
        }
        let key: String = plan::known_key(fresh, p);
        if !text::same(p, host) && !key.as_str().is_empty() {
            if let Some(ip) = addresses.mgmt.get(p) {
                let nets: Vec<Ipv4Net> = if desired.is_node(p) {
                    plan::host_subnets(&addresses.subnets, &nss, p)
                } else {
                    Vec::new()
                };
                out.push(
                    PeerConfig {
                        endpoint: p.to_owned(),
                        public_key: key,
                        mgmt_ip: *ip,
                        container_subnets: nets,
                    },
                );
            }
        }
        i = i + 1;
    }
    proof {
        assert(hs.take(i as int) =~= hs);
    }
    out
}

/// Whether the interface of a host is up.
pub open spec fn is_active(cur: Seq<(Seq<char>, ServerView)>, host: Seq<char>) -> bool {
    match keyed::lookup(cur, host) {
        Some(s) => s.active,
        None => false,
    }
}

/// What is configured on a host: its interface, and on a node its networks and firewall.
pub open spec fn configure_steps(
    d: DesiredMesh,
    cur: Seq<(Seq<char>, ServerView)>,
    a: Addresses,
    acts: Seq<ActionView>,
    host: Seq<char>,
) -> Seq<StepView> {
    let none = Seq::<char>::empty();
    let sub = keyed::nested(a.subnets@);
    apply::step_if(
        apply::runs(acts, host, ActionType::WriteConfig, none),
        ActionType::WriteConfig,
        none,
        own_config::write_text(
            d.interface@,
            keyed::lookup(a.mgmt@, host)->0,
            d.listen_port,
            peers_of(d, cur, a.mgmt@, sub, host, text::views(d.hosts@)),
        ),
    ) + apply::after_config(d, is_active(cur, host), acts, sub, host)
}

/// The second phase on a host.
pub fn phase2(
    desired: &DesiredMesh,
    fresh: &MeshState,
    addresses: &Addresses,
    planned: &Plan,
    host: &str,
) -> (r: Vec<Step>)
    requires
        apply::ready(*desired, *addresses),
        apply::has_gateways(
            Phase::Configure,
            *desired,
            *addresses,
            action::action_views(planned.actions@),
            host@,
        ),
        text::views(desired.hosts@).contains(host@),
    ensures
        apply::step_views(r@) == configure_steps(
            *desired,
            fresh@,
            *addresses,
            action::action_views(planned.actions@),
            host@,
        ),
{
    let mut out: Vec<Step> = Vec::new();
    proof {
        reveal_strlit("");
        assert(""@ =~= Seq::<char>::empty());
        assert(apply::step_views(out@) =~= Seq::empty());
        assert(keyed::lookup(addresses.mgmt@, host@) is Some);
        state::server_views_lookup(fresh.servers@, host@);
    }
    let peers: Vec<PeerConfig> = collect_peers(desired, fresh, addresses, host);
    if let Some(ip) = addresses.mgmt.get(host) {
        let cmd: String = own_config::write_config_command(
            desired.interface.as_str(),
            *ip,
            desired.listen_port,
            &peers,
        );
        let run: bool = apply::should_run(planned, host, ActionType::WriteConfig, "");
        apply::push_step(&mut out, run, ActionType::WriteConfig, "", cmd.as_str());
    }
    let active: bool = match fresh.servers.get(host) {
        Some(s) => s.active,
        None => false,
    };
    apply::push_after_config(&mut out, desired, active, planned, addresses, host);
    proof {
        let sub = keyed::nested(addresses.subnets@);
        assert(apply::step_views(out@) =~= configure_steps(
            *desired,
            fresh@,
            *addresses,
            action::action_views(planned.actions@),
            host@,
        ));
    }
    out
}

/// The start of coold with its API token.
pub open spec fn start_coold_text(token: Seq<char>, unit: Seq<char>) -> Seq<char> {
    token
        + " && "@
        + unit
        + " && systemctl daemon-reload && systemctl enable --now coold"@
}

/// The start of coold with its API token.
fn start_coold(token: &str, unit: &str) -> (r: String)
    ensures
        r@ == start_coold_text(token@, unit@),
{
    let mut out: String = token.to_owned();
    out.append(" && ");
    out.append(unit);
    out.append(" && systemctl daemon-reload && systemctl enable --now coold");
    out
}

/// The restart of coold with a new unit.
pub open spec fn restart_coold_text(unit: Seq<char>) -> Seq<char> {
    unit
        + " && systemctl daemon-reload && systemctl restart coold"@
}

/// The restart of coold with a new unit.
fn restart_coold(unit: &str) -> (r: String)
    ensures
        r@ == restart_coold_text(unit@),
{
    let mut out: String = unit.to_owned();
    out.append(" && systemctl daemon-reload && systemctl restart coold");
    out
}

/// The start of the scheduler.
pub open spec fn start_scheduler_text(unit: Seq<char>) -> Seq<char> {
    unit
        + " && systemctl daemon-reload && systemctl enable --now scheduler"@
}

/// The start of the scheduler.
fn start_scheduler(unit: &str) -> (r: String)
    ensures
        r@ == start_scheduler_text(unit@),
{
    let mut out: String = unit.to_owned();
    out.append(" && systemctl daemon-reload && systemctl enable --now scheduler");
    out
}

/// The start of Coolify.
pub open spec fn start_coolify_text(unit: Seq<char>) -> Seq<char> {
    unit
        + " && systemctl daemon-reload && systemctl enable --now coolify"@
}

/// The start of Coolify.
fn start_coolify(unit: &str) -> (r: String)
    ensures
        r@ == start_coolify_text(unit@),
{
    let mut out: String = unit.to_owned();
    out.append(" && systemctl daemon-reload && systemctl enable --now coolify");
    out
}

/// The writing of a host token.
pub open spec fn write_token_text(heredoc: Seq<char>) -> Seq<char> {
    "mkdir -p /etc/coolify && "@
        + heredoc
}

/// The writing of a host token.
fn write_token(heredoc: &str) -> (r: String)
    ensures
        r@ == write_token_text(heredoc@),
{
    let mut out: String = "mkdir -p /etc/coolify && ".to_owned();
    out.append(heredoc);
    out
}

/// The address that the scheduler listens on.
pub open spec fn grpc_bind_text(ip: u32) -> Seq<char> {
    net::dotted(ip)
        + ":6443"@
}

/// The address that the scheduler listens on.
fn grpc_bind(ip: u32) -> (r: String)
    ensures
        r@ == grpc_bind_text(ip),
{
    let mut out: String = net::ip_text(ip);
    out.append(":6443");
    out
}

/// The address at which the hosts reach the scheduler.
pub open spec fn scheduler_url_text(ip: u32) -> Seq<char> {
    "http://"@
        + net::dotted(ip)
        + ":6443"@
}

/// The address at which the hosts reach the scheduler.
pub fn scheduler_url(ip: u32) -> (r: String)
    ensures
        r@ == scheduler_url_text(ip),
{
    let mut out: String = "http://".to_owned();
    out.append(net::ip_text(ip).as_str());
    out.append(":6443");
    out
}

/// The third phase on a node: Corrosion and coold.
pub open spec fn phase3_steps(d: DesiredMesh, a: Addresses, acts: Seq<ActionView>, files: CorrosionFiles, host: Seq<char>) -> Seq<StepView> {
    let none = Seq::<char>::empty();
    let mgmt_ip = keyed::lookup(a.mgmt@, host)->0;
    let nss = keyed::in_order(text::views(d.namespaces@));
    let served = plan::coold_namespaces(keyed::nested(a.subnets@), nss, host);
    apply::step_if(
        apply::runs(acts, host, ActionType::InstallCorrosion, none),
        ActionType::InstallCorrosion,
        none,
        corrosion::plain_install_text(files, d.corrosion_version@),
    ) + apply::step_if(
        apply::runs(acts, host, ActionType::InstallCoold, none),
        ActionType::InstallCoold,
        none,
        coold::install_command_text(d.coold_version@),
    ) + apply::step_if(
        apply::runs(acts, host, ActionType::WriteCorrosionConfig, none),
        ActionType::WriteCorrosionConfig,
        none,
        cluster::write_corrosion_text(ssh::heredoc_text("/etc/corrosion/config.toml"@, corrosion::config_of(files, d, a.mgmt@, host), "0644"@)),
    ) + apply::step_if(
        apply::runs(acts, host, ActionType::WriteCorrosionSchema, none),
        ActionType::WriteCorrosionSchema,
        none,
        cluster::write_schema_text(ssh::heredoc_text("/etc/corrosion/schemas/coolify.sql"@, files.schema_sql@, "0644"@)),
    ) + apply::step_if(
        apply::runs(acts, host, ActionType::InstallCorrosionService, none),
        ActionType::InstallCorrosionService,
        none,
        cluster::start_corrosion_text(ssh::heredoc_text("/etc/systemd/system/corrosion.service"@, corrosion::unit_text(files, d.interface@), "0644"@)),
    ) + apply::step_if(
        apply::runs(acts, host, ActionType::InstallCooldService, none),
        ActionType::InstallCooldService,
        none,
        start_coold_text(coold::ensure_api_token_command_text(), ssh::heredoc_text("/etc/systemd/system/coold.service"@, coold::service_unit_text(mgmt_ip, served, None, None), "0644"@)),
    )
}

/// The third phase on a node: Corrosion and coold.
pub fn phase3(desired: &DesiredMesh, addresses: &Addresses, planned: &Plan, files: &CorrosionFiles, host: &str) -> (r: Vec<Step>)
    requires
        apply::ready(*desired, *addresses),
        apply::has_gateways(Phase::Agents, *desired, *addresses, action::action_views(planned.actions@), host@),
        text::views(desired.nodes@).contains(host@),
        keyed::lookup(addresses.mgmt@, host@) is Some,
    ensures
        apply::step_views(r@) == phase3_steps(*desired, *addresses, action::action_views(planned.actions@), *files, host@),
{
    let mut out: Vec<Step> = Vec::new();
    proof {
        reveal_strlit("");
        assert(""@ =~= Seq::<char>::empty());
        assert(apply::step_views(out@) =~= Seq::empty());
    }
    let mgmt_ip: u32 = match addresses.mgmt.get(host) {
        Some(ip) => *ip,
        None => 0,
    };
    let binary: String = corrosion::plain_install(files, desired.corrosion_version.as_str());
    let run_corrosion: bool = apply::should_run(planned, host, ActionType::InstallCorrosion, "");
    apply::push_step(&mut out, run_corrosion, ActionType::InstallCorrosion, "", binary.as_str());
    let install: String = coold::install_command(desired.coold_version.as_str());
    let run_install: bool = apply::should_run(planned, host, ActionType::InstallCoold, "");
    apply::push_step(&mut out, run_install, ActionType::InstallCoold, "", install.as_str());
    let conf: String = cluster::write_corrosion(ssh::heredoc("/etc/corrosion/config.toml", corrosion::node_config(files, desired, &addresses.mgmt, host).as_str(), "0644").as_str());
    let run_conf: bool = apply::should_run(planned, host, ActionType::WriteCorrosionConfig, "");
    apply::push_step(&mut out, run_conf, ActionType::WriteCorrosionConfig, "", conf.as_str());
    let schema: String = cluster::write_schema(ssh::heredoc("/etc/corrosion/schemas/coolify.sql", files.schema_sql.as_str(), "0644").as_str());
    let run_schema: bool = apply::should_run(planned, host, ActionType::WriteCorrosionSchema, "");
    apply::push_step(&mut out, run_schema, ActionType::WriteCorrosionSchema, "", schema.as_str());
    let start: String = cluster::start_corrosion(ssh::heredoc("/etc/systemd/system/corrosion.service", corrosion::unit(files, desired.interface.as_str()).as_str(), "0644").as_str());
    let run_start: bool = apply::should_run(planned, host, ActionType::InstallCorrosionService, "");
    apply::push_step(&mut out, run_start, ActionType::InstallCorrosionService, "", start.as_str());
    let run_service: bool = apply::should_run(planned, host, ActionType::InstallCooldService, "");
    let service: String = if run_service {
        proof {
            apply::agents_are_served(Phase::Agents, *desired, *addresses, action::action_views(planned.actions@), host@);
        }
        let nss: Vec<String> = desired.sorted_namespaces();
        let served: Vec<CooldNamespace> = plan::served_namespaces(&addresses.subnets, &nss, host);
        start_coold(coold::ensure_api_token_command().as_str(), ssh::heredoc("/etc/systemd/system/coold.service", coold::service_unit(mgmt_ip, &served, None, None).as_str(), "0644").as_str())
    } else {
        String::new()
    };
    apply::push_step(&mut out, run_service, ActionType::InstallCooldService, "", service.as_str());
    proof {
        let none = Seq::<char>::empty();
        cluster::chain(
            apply::step_if(run_corrosion, ActionType::InstallCorrosion, none, binary@),
            apply::step_if(run_install, ActionType::InstallCoold, none, install@),
            apply::step_if(run_conf, ActionType::WriteCorrosionConfig, none, conf@),
            apply::step_if(run_schema, ActionType::WriteCorrosionSchema, none, schema@),
            apply::step_if(run_start, ActionType::InstallCorrosionService, none, start@),
            apply::step_if(run_service, ActionType::InstallCooldService, none, service@),
        );
    }
    out
}

/// The fourth phase, on the central host: Coolify and the scheduler.
pub open spec fn phase4_steps(d: DesiredMesh, central_ip: u32, acts: Seq<ActionView>, host: Seq<char>) -> Seq<StepView> {
    let none = Seq::<char>::empty();
    apply::step_if(
        apply::runs(acts, host, ActionType::InstallCoolify, none),
        ActionType::InstallCoolify,
        none,
        coolify::install_script_text(d.coolify_version@, coolify::url_of(d.coolify_version@)),
    ) + apply::step_if(
        apply::runs(acts, host, ActionType::InstallScheduler, none),
        ActionType::InstallScheduler,
        none,
        scheduler::install_command_text(d.scheduler_version@),
    ) + apply::step_if(
        apply::runs(acts, host, ActionType::GenerateJwtKeypair, none),
        ActionType::GenerateJwtKeypair,
        none,
        scheduler::ensure_jwt_keypair_command_text(),
    ) + apply::step_if(
        apply::runs(acts, host, ActionType::InstallSchedulerService, none),
        ActionType::InstallSchedulerService,
        none,
        start_scheduler_text(ssh::heredoc_text("/etc/systemd/system/scheduler.service"@, scheduler::service_unit_text(grpc_bind_text(central_ip), "/etc/coolify/jwt.pub"@, d.interface@), "0644"@)),
    ) + apply::step_if(
        apply::runs(acts, host, ActionType::InstallCoolifyService, none),
        ActionType::InstallCoolifyService,
        none,
        start_coolify_text(ssh::heredoc_text("/etc/systemd/system/coolify.service"@, coolify::service_unit_text(), "0644"@)),
    )
}

/// The fourth phase, on the central host: Coolify and the scheduler.
pub fn phase4(desired: &DesiredMesh, central_ip: u32, planned: &Plan, host: &str) -> (r: Vec<Step>)
    ensures
        apply::step_views(r@) == phase4_steps(*desired, central_ip, action::action_views(planned.actions@), host@),
{
    let mut out: Vec<Step> = Vec::new();
    proof {
        reveal_strlit("");
        assert(""@ =~= Seq::<char>::empty());
        assert(apply::step_views(out@) =~= Seq::empty());
    }
    let install_coolify: String = coolify::install_command(desired.coolify_version.as_str());
    let run_install_coolify: bool = apply::should_run(planned, host, ActionType::InstallCoolify, "");
    apply::push_step(&mut out, run_install_coolify, ActionType::InstallCoolify, "", install_coolify.as_str());
    let install_scheduler: String = scheduler::install_command(desired.scheduler_version.as_str());
    let run_install_scheduler: bool = apply::should_run(planned, host, ActionType::InstallScheduler, "");
    apply::push_step(&mut out, run_install_scheduler, ActionType::InstallScheduler, "", install_scheduler.as_str());
    let keys: String = scheduler::ensure_jwt_keypair_command();
    let run_keys: bool = apply::should_run(planned, host, ActionType::GenerateJwtKeypair, "");
    apply::push_step(&mut out, run_keys, ActionType::GenerateJwtKeypair, "", keys.as_str());
    let sched: String = start_scheduler(ssh::heredoc("/etc/systemd/system/scheduler.service", scheduler::service_unit(grpc_bind(central_ip).as_str(), "/etc/coolify/jwt.pub", desired.interface.as_str()).as_str(), "0644").as_str());
    let run_sched: bool = apply::should_run(planned, host, ActionType::InstallSchedulerService, "");
    apply::push_step(&mut out, run_sched, ActionType::InstallSchedulerService, "", sched.as_str());
    let cool: String = start_coolify(ssh::heredoc("/etc/systemd/system/coolify.service", coolify::service_unit().as_str(), "0644").as_str());
    let run_cool: bool = apply::should_run(planned, host, ActionType::InstallCoolifyService, "");
    apply::push_step(&mut out, run_cool, ActionType::InstallCoolifyService, "", cool.as_str());
    proof {
        assert(apply::step_views(out@) =~= phase4_steps(*desired, central_ip, action::action_views(planned.actions@), host@));
    }
    out
}

/// What a host with builds may use: the settings, and no way into the mesh networks.
pub open spec fn is_builder_of(b: BuilderConfig, d: DesiredMesh) -> bool {
    &&& b.capacity == d.builder_capacity
    &&& b.cpu_quota@ == d.builder_cpu_quota@
    &&& b.memory_max@ == d.builder_memory_max@
    &&& b.timeout_secs == d.builder_timeout_secs
    &&& text::views(b.deny_nets@) == seq![d.mgmt_pool.cidr(), d.container_pool.cidr()]
}

pub fn builder_config(desired: &DesiredMesh) -> (r: BuilderConfig)
    ensures
        is_builder_of(r, *desired),
{
    let mut deny: Vec<String> = Vec::new();
    deny.push(desired.mgmt_pool.text());
    deny.push(desired.container_pool.text());
    proof {
        assert(text::views(deny@) =~= seq![
            desired.mgmt_pool.cidr(),
            desired.container_pool.cidr(),
        ]);
    }
    BuilderConfig {
        capacity: desired.builder_capacity,
        cpu_quota: desired.builder_cpu_quota.clone(),
        memory_max: desired.builder_memory_max.clone(),
        timeout_secs: desired.builder_timeout_secs,
        deny_nets: deny,
    }
}

/// The capabilities of a host token.
pub open spec fn caps_of(builds: bool) -> Seq<Seq<char>> {
    if builds {
        seq!["coold"@, "builder"@]
    } else {
        seq!["coold"@]
    }
}

pub fn host_caps(builds: bool) -> (r: Vec<String>)
    ensures
        text::views(r@) == caps_of(builds),
{
    let mut caps: Vec<String> = Vec::new();
    caps.push("coold".to_owned());
    if builds {
        caps.push("builder".to_owned());
    }
    proof {
        assert(text::views(caps@) =~= caps_of(builds));
    }
    caps
}

/// The fifth phase on a node: its token, its builder, and coold with both.
pub open spec fn phase5_steps(d: DesiredMesh, a: Addresses, acts: Seq<ActionView>, host: Seq<char>, flux: coold::FluxConfig, builder: Option<BuilderConfig>, token: Seq<char>) -> Seq<StepView> {
    let none = Seq::<char>::empty();
    let mgmt_ip = keyed::lookup(a.mgmt@, host)->0;
    let nss = keyed::in_order(text::views(d.namespaces@));
    let served = plan::coold_namespaces(keyed::nested(a.subnets@), nss, host);
    apply::step_if(
        apply::runs(acts, host, ActionType::WriteHostJwt, none),
        ActionType::WriteHostJwt,
        none,
        write_token_text(ssh::heredoc_text("/etc/coolify/host-jwt"@, token, "0600"@)),
    ) + apply::step_if(
        apply::runs(acts, host, ActionType::InstallBuilder, none),
        ActionType::InstallBuilder,
        none,
        maker::install_command_text(d.coold_version@),
    ) + apply::step_if(
        apply::runs(acts, host, ActionType::UpdateCooldSchedulerEnv, none),
        ActionType::UpdateCooldSchedulerEnv,
        none,
        restart_coold_text(ssh::heredoc_text("/etc/systemd/system/coold.service"@, coold::service_unit_text(mgmt_ip, served, Some(flux), builder), "0644"@)),
    )
}

/// The fifth phase on a node: its token, its builder, and coold with both.
pub fn phase5(desired: &DesiredMesh, addresses: &Addresses, planned: &Plan, host: &str, flux: &coold::FluxConfig, builder: Option<&BuilderConfig>, token: &str) -> (r: Vec<Step>)
    requires
        apply::ready(*desired, *addresses),
        apply::has_gateways(Phase::HostTokens, *desired, *addresses, action::action_views(planned.actions@), host@),
        text::views(desired.nodes@).contains(host@),
        keyed::lookup(addresses.mgmt@, host@) is Some,
    ensures
        apply::step_views(r@) == phase5_steps(*desired, *addresses, action::action_views(planned.actions@), host@, *flux, coold::opt_ref(builder), token@),
{
    let mut out: Vec<Step> = Vec::new();
    proof {
        reveal_strlit("");
        assert(""@ =~= Seq::<char>::empty());
        assert(apply::step_views(out@) =~= Seq::empty());
    }
    let mgmt_ip: u32 = match addresses.mgmt.get(host) {
        Some(ip) => *ip,
        None => 0,
    };
    let jwt: String = write_token(ssh::heredoc("/etc/coolify/host-jwt", token, "0600").as_str());
    let run_jwt: bool = apply::should_run(planned, host, ActionType::WriteHostJwt, "");
    apply::push_step(&mut out, run_jwt, ActionType::WriteHostJwt, "", jwt.as_str());
    let install: String = maker::install_command(desired.coold_version.as_str());
    let run_install: bool = apply::should_run(planned, host, ActionType::InstallBuilder, "");
    apply::push_step(&mut out, run_install, ActionType::InstallBuilder, "", install.as_str());
    let run_update: bool = apply::should_run(planned, host, ActionType::UpdateCooldSchedulerEnv, "");
    let update: String = if run_update {
        proof {
            apply::agents_are_served(Phase::HostTokens, *desired, *addresses, action::action_views(planned.actions@), host@);
        }
        let nss: Vec<String> = desired.sorted_namespaces();
        let served: Vec<CooldNamespace> = plan::served_namespaces(&addresses.subnets, &nss, host);
        restart_coold(ssh::heredoc("/etc/systemd/system/coold.service", coold::service_unit(mgmt_ip, &served, Some(flux), builder).as_str(), "0644").as_str())
    } else {
        String::new()
    };
    apply::push_step(&mut out, run_update, ActionType::UpdateCooldSchedulerEnv, "", update.as_str());
    proof {
        assert(apply::step_views(out@) =~= phase5_steps(*desired, *addresses, action::action_views(planned.actions@), host@, *flux, coold::opt_ref(builder), token@));
    }
    out
}

/// How the hosts of a mesh reach the scheduler on its central host.
pub fn scheduler_config(central_ip: u32) -> (r: coold::FluxConfig)
    ensures
        r.url@ == scheduler_url_text(central_ip),
        r.jwt_path@ == "/etc/coolify/host-jwt"@,
{
    coold::FluxConfig {
        url: scheduler_url(central_ip),
        jwt_path: "/etc/coolify/host-jwt".to_owned(),
    }
}

/// Whether this is how a host reaches the scheduler, and how it builds, if it does.
pub open spec fn is_setup(
    flux: coold::FluxConfig,
    builder: Option<BuilderConfig>,
    d: DesiredMesh,
    central_ip: u32,
    builds: bool,
) -> bool {
    &&& flux.url@ == scheduler_url_text(central_ip)
    &&& flux.jwt_path@ == "/etc/coolify/host-jwt"@
    &&& builder is Some <==> builds
    &&& builder matches Some(b) ==> is_builder_of(b, d)
}

/// Whether these are the steps of the fifth phase with some token, which carries `part`, signed
/// by the key in the bytes, where the plan has one.
pub open spec fn is_phase5(
    steps: Seq<StepView>,
    d: DesiredMesh,
    a: Addresses,
    acts: Seq<ActionView>,
    host: Seq<char>,
    central_ip: u32,
    builds: bool,
    part: Seq<char>,
    pem: Seq<u8>,
) -> bool {
    exists|flux: coold::FluxConfig, builder: Option<BuilderConfig>, token: Seq<char>|
        {
            &&& steps == #[trigger] phase5_steps(d, a, acts, host, flux, builder, token)
            &&& is_setup(flux, builder, d, central_ip, builds)
            &&& apply::runs(acts, host, ActionType::WriteHostJwt, Seq::empty()) ==> jwt::carries(
                token,
                part,
                pem,
            )
        }
}

/// The fifth phase on a node, with a token that is minted at `now` where the plan has one:
/// a key that does not parse or sign ends it.
pub fn host_tokens(
    desired: &DesiredMesh,
    addresses: &Addresses,
    planned: &Plan,
    host: &str,
    central_ip: u32,
    signing_key: &Vec<u8>,
    builds: bool,
    now: u64,
) -> (r: Result<Vec<Step>, String>)
    requires
        apply::ready(*desired, *addresses),
        apply::has_gateways(
            Phase::HostTokens,
            *desired,
            *addresses,
            action::action_views(planned.actions@),
            host@,
        ),
        text::views(desired.nodes@).contains(host@),
        keyed::lookup(addresses.mgmt@, host@) is Some,
        now <= u64::MAX - jwt::TOKEN_LIFETIME,
    ensures
        ({
            let acts = action::action_views(planned.actions@);
            let mints = apply::runs(acts, host@, ActionType::WriteHostJwt, Seq::empty());
            match r {
                Ok(steps) => {
                    &&& mints ==> jwt::is_ec_private_pem(signing_key@)
                    &&& is_phase5(
                        apply::step_views(steps@),
                        *desired,
                        *addresses,
                        acts,
                        host@,
                        central_ip,
                        builds,
                        jwt::host_part(host@, caps_of(builds), now),
                        signing_key@,
                    )
                },
                Err(e) => mints && e@ == (if jwt::is_ec_private_pem(signing_key@) {
                    "sign host JWT"@
                } else {
                    "parse EC private key"@
                }),
            }
        }),
{
    proof {
        reveal_strlit("");
        assert(""@ =~= Seq::<char>::empty());
    }
    let token: String = if apply::should_run(planned, host, ActionType::WriteHostJwt, "") {
        match jwt::mint_host_jwt(signing_key, host, &host_caps(builds), now) {
            Ok(t) => t,
            Err(e) => return Err(e),
        }
    } else {
        String::new()
    };
    let flux: coold::FluxConfig = scheduler_config(central_ip);
    let own: BuilderConfig = builder_config(desired);
    let builder: Option<&BuilderConfig> = if builds {
        Some(&own)
    } else {
        None
    };
    let steps: Vec<Step> = phase5(desired, addresses, planned, host, &flux, builder, token.as_str());
    proof {
        let acts = action::action_views(planned.actions@);
        let own = coold::opt_ref(builder);
        assert(is_setup(flux, own, *desired, central_ip, builds));
        assert(apply::step_views(steps@) == phase5_steps(
            *desired,
            *addresses,
            acts,
            host@,
            flux,
            own,
            token@,
        ));
        assert(is_phase5(
            apply::step_views(steps@),
            *desired,
            *addresses,
            acts,
            host@,
            central_ip,
            builds,
            jwt::host_part(host@, caps_of(builds), now),
            signing_key@,
        ));
    }
    Ok(steps)
}

} // verus!
