//! What an application runs on each host of a cluster.

use vstd::prelude::*;
use vstd::string::StringExecFns;
use crate::cli::checksum;
use crate::cli::config;
use crate::cli::config::{PeerConfig, PeerConfigView};
use crate::cli::coold;
use crate::cli::coold::CooldNamespace;
use crate::cli::ssh;
use crate::cli::plan;
use crate::cli::corrosion;
use crate::cli::corrosion::CorrosionFiles;
use crate::keyed;
use crate::mesh::action;
use crate::mesh::action::{ActionType, ActionView, Plan};
use crate::mesh::apply;
use crate::mesh::apply::{Addresses, Phase, Step, StepView};
use crate::mesh::state;
use crate::mesh::state::{
    DesiredMesh, FluxConfig, MeshState, SelfSignedCert, ServerState, ServerView,
};
use crate::net::Ipv4Net;
use crate::text;

pub use crate::mesh::apply::{ActionResult, VerifyResult};

verus! {

/// The first phase on a host.
pub fn phase1(desired: &DesiredMesh, current: &MeshState, planned: &Plan, host: &str) -> (r: Vec<Step>)
    ensures
        apply::step_views(r@) == apply::install_steps(
            *desired,
            plan::state_of(current@, host@),
            action::action_views(planned.actions@),
            host@,
            config::genkey_command_text(),
        ),
{
    let unknown: ServerState = ServerState::default();
    proof {
        state::server_views_lookup(current.servers@, host@);
    }
    let st: &ServerState = match current.servers.get(host) {
        Some(s) => s,
        None => &unknown,
    };
    apply::plan_install(desired, st, planned, host, config::genkey_command().as_str())
}

/// The peers of a host: the other hosts whose keys are known.
pub open spec fn peers_of(
    d: DesiredMesh,
    cur: Seq<(Seq<char>, ServerView)>,
    mgmt: Seq<(Seq<char>, u32)>,
    subnets: Seq<(Seq<char>, Seq<(Seq<char>, Ipv4Net)>)>,
    host: Seq<char>,
    hosts: Seq<Seq<char>>,
) -> Seq<PeerConfigView>
    decreases hosts.len(),
{
    if hosts.len() == 0 {
        Seq::empty()
    } else {
        let t = peers_of(d, cur, mgmt, subnets, host, hosts.drop_last());
        let p = hosts.last();
        if p != host && plan::key_of(cur, p).len() > 0 {
            t.push(
                PeerConfigView {
                    endpoint: state::endpoint_of(d, p),
                    public_key: plan::key_of(cur, p),
                    mgmt_ip: keyed::lookup(mgmt, p)->0,
                    container_subnets: if text::views(d.nodes@).contains(p) {
                        plan::subnets_of(
                            subnets,
                            keyed::in_order(text::views(d.namespaces@)),
                            p,
                        )
                    } else {
                        Seq::empty()
                    },
                },
            )
        } else {
            t
        }
    }
}

fn collect_peers(
    desired: &DesiredMesh,
    fresh: &MeshState,
    addresses: &Addresses,
    host: &str,
) -> (r: Vec<PeerConfig>)
    requires
        apply::ready(*desired, *addresses),
    ensures
        config::peer_configs(r@) == peers_of(
            *desired,
            fresh@,
            addresses.mgmt@,
            keyed::nested(addresses.subnets@),
            host@,
            text::views(desired.hosts@),
        ),
{
    broadcast use config::peer_configs_push;

    let ghost hs = text::views(desired.hosts@);
    let ghost sub = keyed::nested(addresses.subnets@);
    let nss: Vec<String> = desired.sorted_namespaces();
    let mut out: Vec<PeerConfig> = Vec::new();
    let mut i: usize = 0;
    proof {
        assert(hs.take(0) =~= Seq::empty());
        assert(config::peer_configs(out@) =~= Seq::empty());
    }
    while i < desired.hosts.len()
        invariant
            i <= desired.hosts@.len(),
            hs == text::views(desired.hosts@),
            sub == keyed::nested(addresses.subnets@),
            text::views(nss@) == keyed::in_order(text::views(desired.namespaces@)),
            apply::ready(*desired, *addresses),
            config::peer_configs(out@) == peers_of(
                *desired,
                fresh@,
                addresses.mgmt@,
                sub,
                host@,
                hs.take(i as int),
            ),
        decreases desired.hosts@.len() - i,
    {
        let p: &str = desired.hosts[i].as_str();
        proof {
            assert(hs.take(i + 1).drop_last() =~= hs.take(i as int));
            assert(hs.take(i + 1).last() == p@);
            assert(hs[i as int] == p@);
            assert(hs.contains(p@));
            assert(keyed::lookup(addresses.mgmt@, p@) is Some);
        }
        let key: String = plan::known_key(fresh, p);
        if !text::same(p, host) && !key.as_str().is_empty() {
            if let Some(ip) = addresses.mgmt.get(p) {
                let nets: Vec<Ipv4Net> = if desired.is_node(p) {
                    plan::host_subnets(&addresses.subnets, &nss, p)
                } else {
                    Vec::new()
                };
                out.push(
                    PeerConfig {
                        endpoint: desired.endpoint_for(p),
                        public_key: key,
                        mgmt_ip: *ip,
                        container_subnets: nets,
                    },
                );
            }
        }
        i = i + 1;
    }
    proof {
        assert(hs.take(i as int) =~= hs);
    }
    out
}

/// Whether the interface of a host is up.
pub open spec fn is_active(cur: Seq<(Seq<char>, ServerView)>, host: Seq<char>) -> bool {
    match keyed::lookup(cur, host) {
        Some(s) => s.active,
        None => false,
    }
}

/// What is configured on a host: its interface, and on a node its networks and firewall.
pub open spec fn configure_steps(
    d: DesiredMesh,
    cur: Seq<(Seq<char>, ServerView)>,
    a: Addresses,
    acts: Seq<ActionView>,
    host: Seq<char>,
) -> Seq<StepView> {
    let none = Seq::<char>::empty();
    let sub = keyed::nested(a.subnets@);
    apply::step_if(
        apply::runs(acts, host, ActionType::WriteConfig, none),
        ActionType::WriteConfig,
        none,
        config::write_text(
            d.interface@,
            keyed::lookup(a.mgmt@, host)->0,
            state::port_for(d, host),
            peers_of(d, cur, a.mgmt@, sub, host, text::views(d.hosts@)),
        ),
    ) + apply::after_config(d, is_active(cur, host), acts, sub, host)
}

/// The second phase on a host.
pub fn phase2(
    desired: &DesiredMesh,
    fresh: &MeshState,
    addresses: &Addresses,
    planned: &Plan,
    host: &str,
) -> (r: Vec<Step>)
    requires
        apply::ready(*desired, *addresses),
        apply::has_gateways(
            Phase::Configure,
            *desired,
            *addresses,
            action::action_views(planned.actions@),
            host@,
        ),
        text::views(desired.hosts@).contains(host@),
    ensures
        apply::step_views(r@) == configure_steps(
            *desired,
            fresh@,
            *addresses,
            action::action_views(planned.actions@),
            host@,
        ),
{
    let mut out: Vec<Step> = Vec::new();
    proof {
        reveal_strlit("");
        assert(""@ =~= Seq::<char>::empty());
        assert(apply::step_views(out@) =~= Seq::empty());
        assert(keyed::lookup(addresses.mgmt@, host@) is Some);
        state::server_views_lookup(fresh.servers@, host@);
    }
    let peers: Vec<PeerConfig> = collect_peers(desired, fresh, addresses, host);
    if let Some(ip) = addresses.mgmt.get(host) {
        let cmd: String = config::write_config_command(
            desired.interface.as_str(),
            *ip,
            desired.listen_port_for(host),
            &peers,
        );
        let run: bool = apply::should_run(planned, host, ActionType::WriteConfig, "");
        apply::push_step(&mut out, run, ActionType::WriteConfig, "", cmd.as_str());
    }
    let active: bool = match fresh.servers.get(host) {
        Some(s) => s.active,
        None => false,
    };
    apply::push_after_config(&mut out, desired, active, planned, addresses, host);
    proof {
        let sub = keyed::nested(addresses.subnets@);
        assert(apply::step_views(out@) =~= configure_steps(
            *desired,
            fresh@,
            *addresses,
            action::action_views(planned.actions@),
            host@,
        ));
    }
    out
}

/// The writing of the Corrosion configuration.
pub open spec fn write_corrosion_text(heredoc: Seq<char>) -> Seq<char> {
    "mkdir -p /etc/corrosion && "@
        + heredoc
}

/// The writing of the Corrosion configuration.
pub fn write_corrosion(heredoc: &str) -> (r: String)
    ensures
        r@ == write_corrosion_text(heredoc@),
{
    let mut out: String = "mkdir -p /etc/corrosion && ".to_owned();
    out.append(heredoc);
    out
}

/// The writing of the Corrosion schema.
pub open spec fn write_schema_text(heredoc: Seq<char>) -> Seq<char> {
    "mkdir -p /etc/corrosion/schemas && "@
        + heredoc
}

/// The writing of the Corrosion schema.
pub fn write_schema(heredoc: &str) -> (r: String)
    ensures
        r@ == write_schema_text(heredoc@),
{
    let mut out: String = "mkdir -p /etc/corrosion/schemas && ".to_owned();
    out.append(heredoc);
    out
}

/// The start of Corrosion.
pub open spec fn start_corrosion_text(heredoc: Seq<char>) -> Seq<char> {
    heredoc
        + " && systemctl daemon-reload && systemctl enable --now corrosion"@
}

/// The start of Corrosion.
pub fn start_corrosion(heredoc: &str) -> (r: String)
    ensures
        r@ == start_corrosion_text(heredoc@),
{
    let mut out: String = heredoc.to_owned();
    out.append(" && systemctl daemon-reload && systemctl enable --now corrosion");
    out
}

/// The start of coold and its DNS helpers.
pub open spec fn start_coold_text(anchor: Seq<char>, resolver: Seq<char>, unit: Seq<char>) -> Seq<char> {
    "rm -f /etc/systemd/resolved.conf.d/coolify-internal.conf && "@
        + anchor
        + " && "@
        + resolver
        + " && "@
        + unit
        + " && systemctl daemon-reload && systemctl enable --now coolify-mesh-dns-anchor.service coolify-mesh-dns-resolver.service coold"@
}

/// The start of coold and its DNS helpers.
fn start_coold(anchor: &str, resolver: &str, unit: &str) -> (r: String)
    ensures
        r@ == start_coold_text(anchor@, resolver@, unit@),
{
    let mut out: String = "rm -f /etc/systemd/resolved.conf.d/coolify-internal.conf && ".to_owned();
    out.append(anchor);
    out.append(" && ");
    out.append(resolver);
    out.append(" && ");
    out.append(unit);
    out.append(" && systemctl daemon-reload && systemctl enable --now coolify-mesh-dns-anchor.service coolify-mesh-dns-resolver.service coold");
    out
}

/// The directories of coold, and the pinned certificate of flux where there is one. They have
/// to be there before coold starts.
pub open spec fn prepare_coold_text(pin: Option<Seq<char>>) -> Seq<char> {
    "mkdir -p /etc/coolify /data/coolify && "@ + match pin {
        Some(cert) => ssh::heredoc_text(state::FLUX_PIN_PATH@, cert, "0644"@) + " && "@,
        None => Seq::empty(),
    }
}

fn prepare_coold(flux_tls: &Option<SelfSignedCert>) -> (r: String)
    ensures
        r@ == prepare_coold_text(
            match flux_tls {
                Some(c) => Some(c.cert_pem@),
                None => None,
            },
        ),
{
    let mut out: String = "mkdir -p /etc/coolify /data/coolify && ".to_owned();
    match flux_tls {
        Some(c) => {
            let pin: String = ssh::heredoc(state::FLUX_PIN_PATH, c.cert_pem.as_str(), "0644");
            let ghost head = out@;
            out.append(pin.as_str());
            out.append(" && ");
            proof {
                assert(out@ =~= head + (pin@ + " && "@));
            }
        },
        None => {
            proof {
                assert(out@ + Seq::<char>::empty() =~= out@);
            }
        },
    }
    out
}

/// The command that installs coold and its DNS helpers as services.
pub open spec fn coold_command(
    mgmt_ip: u32,
    served: Seq<coold::CooldNamespaceView>,
    flux: Option<state::FluxView>,
    pin: Option<Seq<char>>,
) -> Seq<char> {
    prepare_coold_text(pin) + start_coold_text(
        ssh::heredoc_text(
            "/etc/systemd/system/coolify-mesh-dns-anchor.service"@,
            coold::anchor_unit_text(
                coold::anchor_starts_text(served),
                coold::anchor_stops_text(served),
            ),
            "0644"@,
        ),
        ssh::heredoc_text(
            "/etc/systemd/system/coolify-mesh-dns-resolver.service"@,
            coold::resolver_unit_text(coold::resolver_commands_text(served)),
            "0644"@,
        ),
        ssh::heredoc_text(
            "/etc/systemd/system/coold.service"@,
            coold::service_unit_text(mgmt_ip, served, flux),
            "0644"@,
        ),
    )
}

/// What is installed on a node: Corrosion and coold.
pub open spec fn agent_steps(
    d: DesiredMesh,
    a: Addresses,
    acts: Seq<ActionView>,
    files: CorrosionFiles,
    host: Seq<char>,
) -> Seq<StepView> {
    let none = Seq::<char>::empty();
    let nss = keyed::in_order(text::views(d.namespaces@));
    let served = plan::coold_namespaces(keyed::nested(a.subnets@), nss, host);
    apply::step_if(
        apply::runs(acts, host, ActionType::InstallCorrosion, none),
        ActionType::InstallCorrosion,
        none,
        corrosion::checked_install_text(
            files,
            d.corrosion_version@,
            text::opt_view(d.corrosion_sha256),
        ),
    ) + apply::step_if(
        apply::runs(acts, host, ActionType::InstallCoold, none),
        ActionType::InstallCoold,
        none,
        coold::install_script_text(
            d.coold_version@,
            checksum::snippet(
                "$DLDIR/coold.tar.gz"@,
                "$URL"@,
                "coold"@,
                text::opt_view(d.coold_sha256),
            ),
        ),
    ) + apply::step_if(
        apply::runs(acts, host, ActionType::WriteCorrosionConfig, none),
        ActionType::WriteCorrosionConfig,
        none,
        write_corrosion_text(
            ssh::heredoc_text(
                "/etc/corrosion/config.toml"@,
                corrosion::config_of(files, d, a.mgmt@, host),
                "0644"@,
            ),
        ),
    ) + apply::step_if(
        apply::runs(acts, host, ActionType::WriteCorrosionSchema, none),
        ActionType::WriteCorrosionSchema,
        none,
        write_schema_text(
            ssh::heredoc_text(
                "/etc/corrosion/schemas/coolify.sql"@,
                files.schema_sql@,
                "0644"@,
            ),
        ),
    ) + apply::step_if(
        apply::runs(acts, host, ActionType::InstallCorrosionService, none),
        ActionType::InstallCorrosionService,
        none,
        corrosion::with_gossip_tls(
            d.corrosion_gossip_tls,
            start_corrosion_text(
                ssh::heredoc_text(
                    "/etc/systemd/system/corrosion.service"@,
                    corrosion::unit_text(files, d.interface@),
                    "0644"@,
                ),
            ),
        ),
    ) + apply::step_if(
        apply::runs(acts, host, ActionType::InstallCooldService, none),
        ActionType::InstallCooldService,
        none,
        coold_command(
            keyed::lookup(a.mgmt@, host)->0,
            served,
            state::flux_of(text::opt_view(d.flux_tls_url)),
            match d.flux_tls {
                Some(c) => Some(c.cert_pem@),
                None => None,
            },
        ),
    )
}

pub proof fn chain(
    a: Seq<StepView>,
    b: Seq<StepView>,
    c: Seq<StepView>,
    d: Seq<StepView>,
    e: Seq<StepView>,
    f: Seq<StepView>,
)
    ensures
        Seq::<StepView>::empty() + a + b + c + d + e + f == a + b + c + d + e + f,
{
    assert(Seq::<StepView>::empty() + a =~= a);
}

/// The third phase on a node.
pub fn phase3(
    desired: &DesiredMesh,
    addresses: &Addresses,
    planned: &Plan,
    files: &CorrosionFiles,
    host: &str,
) -> (r: Vec<Step>)
    requires
        apply::ready(*desired, *addresses),
        apply::has_gateways(
            Phase::Agents,
            *desired,
            *addresses,
            action::action_views(planned.actions@),
            host@,
        ),
        text::views(desired.nodes@).contains(host@),
        keyed::lookup(addresses.mgmt@, host@) is Some,
    ensures
        apply::step_views(r@) == agent_steps(
            *desired,
            *addresses,
            action::action_views(planned.actions@),
            *files,
            host@,
        ),
{
    let mut out: Vec<Step> = Vec::new();
    proof {
        reveal_strlit("");
        assert(""@ =~= Seq::<char>::empty());
        assert(apply::step_views(out@) =~= Seq::empty());
    }
    let run: bool = apply::should_run(planned, host, ActionType::InstallCorrosion, "");
    let pinned: Option<&str> = match &desired.corrosion_sha256 {
        Some(s) => Some(s.as_str()),
        None => None,
    };
    let binary: String = corrosion::checked_install(
        files,
        desired.corrosion_version.as_str(),
        pinned,
    );
    apply::push_step(
        &mut out,
        run,
        ActionType::InstallCorrosion,
        "",
        binary.as_str(),
    );
    let sha: Option<&str> = match &desired.coold_sha256 {
        Some(s) => Some(s.as_str()),
        None => None,
    };
    let install: String = coold::install_command(desired.coold_version.as_str(), sha);
    let agent: bool = apply::should_run(planned, host, ActionType::InstallCoold, "");
    apply::push_step(&mut out, agent, ActionType::InstallCoold, "", install.as_str());
    let config: String = corrosion::node_config(files, desired, &addresses.mgmt, host);
    let write: String = write_corrosion(
        ssh::heredoc("/etc/corrosion/config.toml", config.as_str(), "0644").as_str(),
    );
    let conf: bool = apply::should_run(planned, host, ActionType::WriteCorrosionConfig, "");
    apply::push_step(&mut out, conf, ActionType::WriteCorrosionConfig, "", write.as_str());
    let schema: String = write_schema(
        ssh::heredoc(
            "/etc/corrosion/schemas/coolify.sql",
            files.schema_sql.as_str(),
            "0644",
        ).as_str(),
    );
    let sql: bool = apply::should_run(planned, host, ActionType::WriteCorrosionSchema, "");
    apply::push_step(&mut out, sql, ActionType::WriteCorrosionSchema, "", schema.as_str());
    let unit: String = corrosion::unit(files, desired.interface.as_str());
    let start: String = corrosion::after_gossip_tls(
        &desired.corrosion_gossip_tls,
        start_corrosion(
            ssh::heredoc(
                "/etc/systemd/system/corrosion.service",
                unit.as_str(),
                "0644",
            ).as_str(),
        ).as_str(),
    );
    let service: bool = apply::should_run(planned, host, ActionType::InstallCorrosionService, "");
    apply::push_step(&mut out, service, ActionType::InstallCorrosionService, "", start.as_str());
    let coold_service: bool = apply::should_run(
        planned,
        host,
        ActionType::InstallCooldService,
        "",
    );
    let cmd: String = if coold_service {
        proof {
            apply::agents_are_served(
                Phase::Agents,
                *desired,
                *addresses,
                action::action_views(planned.actions@),
                host@,
            );
        }
        coold_service_command(desired, addresses, host)
    } else {
        String::new()
    };
    apply::push_step(&mut out, coold_service, ActionType::InstallCooldService, "", cmd.as_str());
    proof {
        let none = Seq::<char>::empty();
        chain(
            apply::step_if(
                run,
                ActionType::InstallCorrosion,
                none,
                binary@,
            ),
            apply::step_if(agent, ActionType::InstallCoold, none, install@),
            apply::step_if(conf, ActionType::WriteCorrosionConfig, none, write@),
            apply::step_if(sql, ActionType::WriteCorrosionSchema, none, schema@),
            apply::step_if(service, ActionType::InstallCorrosionService, none, start@),
            apply::step_if(coold_service, ActionType::InstallCooldService, none, cmd@),
        );
    }
    out
}

fn coold_service_command(desired: &DesiredMesh, addresses: &Addresses, host: &str) -> (r: String)
    requires
        plan::served(
            keyed::nested(addresses.subnets@),
            keyed::in_order(text::views(desired.namespaces@)),
            host@,
        ),
        keyed::lookup(addresses.mgmt@, host@) is Some,
    ensures
        r@ == coold_command(
            keyed::lookup(addresses.mgmt@, host@)->0,
            plan::coold_namespaces(
                keyed::nested(addresses.subnets@),
                keyed::in_order(text::views(desired.namespaces@)),
                host@,
            ),
            state::flux_of(text::opt_view(desired.flux_tls_url)),
            match desired.flux_tls {
                Some(c) => Some(c.cert_pem@),
                None => None,
            },
        ),
{
    let mgmt_ip: u32 = match addresses.mgmt.get(host) {
        Some(ip) => *ip,
        None => 0,
    };
    let nss: Vec<String> = desired.sorted_namespaces();
    let served: Vec<CooldNamespace> = plan::served_namespaces(&addresses.subnets, &nss, host);
    let flux: Option<FluxConfig> = desired.coold_flux_config();
    let anchor: String = coold::mesh_dns_anchor_unit(&served);
    let resolver: String = coold::mesh_dns_resolver_unit(&served);
    let unit: String = coold::service_unit(mgmt_ip, &served, flux.as_ref());
    let start: String = start_coold(
        ssh::heredoc(
            "/etc/systemd/system/coolify-mesh-dns-anchor.service",
            anchor.as_str(),
            "0644",
        ).as_str(),
        ssh::heredoc(
            "/etc/systemd/system/coolify-mesh-dns-resolver.service",
            resolver.as_str(),
            "0644",
        ).as_str(),
        ssh::heredoc("/etc/systemd/system/coold.service", unit.as_str(), "0644").as_str(),
    );
    let mut out: String = prepare_coold(&desired.flux_tls);
    out.append(start.as_str());
    out
}

} // verus!
