//! From the flags of a run with a central host to the mesh that it should make.

use vstd::prelude::*;
use vstd::string::StringExecFns;
use crate::cli::init;
use crate::cli::meshnet;
use crate::cli::meshnet::MeshNetMultiFlags;
use crate::cooldctl::ssh;
use crate::cooldctl::ssh::SshMeshFlags;
use crate::keyed::StrMap;
use crate::mesh::intent::Intent;
use crate::mesh::state::DesiredMesh;
use crate::net;
use crate::net::Ipv4Net;
use crate::text;

pub use crate::cli::init::{clean_hosts, PlanIntent};

verus! {

/// The commands of `init`.
#[derive(Clone, Debug)]
pub enum InitCommand {
    Plan(PlanCommand),
    Bootstrap(ApplyCommand),
    Extend(ExtendCommand),
    Upgrade(UpgradeCommand),
}

/// What every command of `init` takes.
#[derive(Clone, Debug)]
pub struct BaseInitFlags {
    pub ssh: SshMeshFlags,
    pub mesh: MeshNetMultiFlags,
    pub wg_mgmt_pool: String,
    pub wg_interface: String,
    pub wg_listen_port: u16,
    pub skip_default_deny: bool,
    pub coold_version: String,
    pub corrosion_version: String,
    pub corrosion_gossip_port: u16,
    pub corrosion_api_port: u16,
    pub yes: bool,
    /// The control-plane host, or nothing.
    pub central: String,
    pub coolify_version: String,
    pub scheduler_version: String,
    pub enable_builder: bool,
    pub builder_hosts: Vec<String>,
    pub builder_capacity: u32,
    pub builder_cpu_quota: String,
    pub builder_memory_max: String,
    pub builder_timeout_secs: u32,
}

/// Show what would be done.
#[derive(Clone, Debug)]
pub struct PlanCommand {
    pub base: BaseInitFlags,
    pub intent: PlanIntent,
    pub new_nodes: Vec<String>,
    pub allow_replace: bool,
    pub allow_nightly: bool,
}

/// Set a mesh up.
#[derive(Clone, Debug)]
pub struct ApplyCommand {
    pub base: BaseInitFlags,
}

/// Add nodes to a mesh.
#[derive(Clone, Debug)]
pub struct ExtendCommand {
    pub base: BaseInitFlags,
    pub new_nodes: Vec<String>,
    pub allow_replace: bool,
}

/// Bump the versions in a mesh.
#[derive(Clone, Debug)]
pub struct UpgradeCommand {
    pub base: BaseInitFlags,
    pub allow_nightly: bool,
}

/// What a run does: only plan, or plan and apply.
#[derive(Clone, Debug)]
pub struct Run {
    pub base: BaseInitFlags,
    pub apply: bool,
    pub intent: Intent,
    pub new_nodes: Vec<String>,
    pub allow_replace: bool,
    pub allow_nightly: bool,
    /// Whether the run goes on without a word about what it changes.
    pub skip_gate: bool,
    pub header: &'static str,
}

/// What a command stands for. Extending needs the new nodes.
pub fn run(cmd: InitCommand) -> (r: Result<Run, String>)
    ensures
        match cmd {
            InitCommand::Plan(c) => r matches Ok(x) && x.base == c.base && !x.apply && x.intent
                == init::intent_of(c.intent) && x.new_nodes == c.new_nodes && x.allow_replace
                == c.allow_replace && x.allow_nightly == c.allow_nightly,
            InitCommand::Bootstrap(c) => r matches Ok(x) && x.base == c.base && x.apply && x.intent
                == Intent::Bootstrap && x.new_nodes@.len() == 0 && !x.allow_replace
                && !x.allow_nightly && !x.skip_gate && x.header@ == "Bootstrapping mesh..."@,
            InitCommand::Extend(c) => if c.new_nodes@.len() == 0 {
                r matches Err(e) && e@
                    == "--new-nodes is required: list the subset of --nodes that is brand-new"@
            } else {
                r matches Ok(x) && x.base == c.base && x.apply && x.intent == Intent::Extend
                    && x.new_nodes == c.new_nodes && x.allow_replace == c.allow_replace
                    && !x.allow_nightly && x.skip_gate && x.header@ == "Extending mesh..."@
            },
            InitCommand::Upgrade(c) => r matches Ok(x) && x.base == c.base && x.apply && x.intent
                == Intent::Upgrade && x.new_nodes@.len() == 0 && !x.allow_replace
                && x.allow_nightly == c.allow_nightly && x.skip_gate && x.header@
                == "Upgrading agent binaries..."@,
        },
{
    match cmd {
        InitCommand::Plan(c) => Ok(
            Run {
                base: c.base,
                apply: false,
                intent: Intent::from(c.intent),
                new_nodes: c.new_nodes,
                allow_replace: c.allow_replace,
                allow_nightly: c.allow_nightly,
                skip_gate: true,
                header: "",
            },
        ),
        InitCommand::Bootstrap(c) => Ok(
            Run {
                base: c.base,
                apply: true,
                intent: Intent::Bootstrap,
                new_nodes: Vec::new(),
                allow_replace: false,
                allow_nightly: false,
                skip_gate: false,
                header: "Bootstrapping mesh...",
            },
        ),
        InitCommand::Extend(c) => {
            if c.new_nodes.len() == 0 {
                return Err(
                    "--new-nodes is required: list the subset of --nodes that is brand-new".to_owned(),
                );
            }
            Ok(
                Run {
                    base: c.base,
                    apply: true,
                    intent: Intent::Extend,
                    new_nodes: c.new_nodes,
                    allow_replace: c.allow_replace,
                    allow_nightly: false,
                    skip_gate: true,
                    header: "Extending mesh...",
                },
            )
        },
        InitCommand::Upgrade(c) => Ok(
            Run {
                base: c.base,
                apply: true,
                intent: Intent::Upgrade,
                new_nodes: Vec::new(),
                allow_replace: false,
                allow_nightly: c.allow_nightly,
                skip_gate: true,
                header: "Upgrading agent binaries...",
            },
        ),
    }
}

/// What is said before anything else.
pub const ALPHA_BANNER: &'static str = "\n[ALPHA] cooldctl init targets Coolify v5 and is experimental.\n[ALPHA] WireGuard mesh bootstrap requires root/sudo and modifies network configuration.\n[ALPHA] Test in non-production environments first. Stability is not guaranteed.\n";

/// The nodes other than the central host.
pub open spec fn others(nodes: Seq<Seq<char>>, central: Seq<char>) -> Seq<Seq<char>>
    decreases nodes.len(),
{
    if nodes.len() == 0 {
        Seq::empty()
    } else if nodes.last() == central {
        others(nodes.drop_last(), central)
    } else {
        others(nodes.drop_last(), central).push(nodes.last())
    }
}

/// The hosts of a mesh: the central host, then the nodes, none twice.
pub open spec fn all_hosts(central: Seq<char>, nodes: Seq<Seq<char>>) -> Result<
    Seq<Seq<char>>,
    Seq<char>,
> {
    match init::distinct_nodes(nodes) {
        Err(e) => Err(e),
        Ok(ns) => if central.len() == 0 {
            Ok(ns)
        } else {
            Ok(seq![central] + others(ns, central))
        },
    }
}

/// The hosts of a mesh: the central host, then the nodes. A node may be the central host,
/// but no node may be named twice.
pub fn mesh_hosts(central: &str, nodes: &Vec<String>) -> (r: Result<Vec<String>, String>)
    ensures
        init::list_view(r) == all_hosts(central@, text::views(nodes@)),
{
    broadcast use text::views_push;

    let distinct: Vec<String> = init::mesh_hosts(nodes)?;
    if central.is_empty() {
        return Ok(distinct);
    }
    let ghost ns = text::views(distinct@);
    let mut out: Vec<String> = Vec::new();
    out.push(central.to_owned());
    let mut i: usize = 0;
    proof {
        assert(ns.take(0) =~= Seq::empty());
        assert(text::views(out@) =~= seq![central@] + others(ns.take(0), central@));
    }
    while i < distinct.len()
        invariant
            i <= distinct@.len(),
            ns == text::views(distinct@),
            text::views(out@) == seq![central@] + others(ns.take(i as int), central@),
        decreases distinct@.len() - i,
    {
        proof {
            assert(ns.take(i + 1).drop_last() =~= ns.take(i as int));
            assert(ns.take(i + 1).last() == distinct@[i as int]@);
        }
        if !text::same(distinct[i].as_str(), central) {
            proof {
                let done = others(ns.take(i as int), central@);
                assert((seq![central@] + done).push(ns[i as int]) =~= seq![central@] + done.push(
                    ns[i as int],
                ));
            }
            out.push(distinct[i].clone());
        }
        i = i + 1;
    }
    proof {
        assert(ns.take(i as int) =~= ns);
    }
    Ok(out)
}

/// The refusal of a builder that is no node.
pub open spec fn stray_builder_text(host: Seq<char>) -> Seq<char> {
    "--builder-hosts entry "@
        + text::quoted(host)
        + " is not in --nodes"@
}

/// The refusal of a builder that is no node.
fn stray_builder(host: &str) -> (r: String)
    ensures
        r@ == stray_builder_text(host@),
{
    let mut out: String = "--builder-hosts entry ".to_owned();
    out.append(text::quote(host).as_str());
    out.append(" is not in --nodes");
    out
}

/// The first of `hosts[i..]` that is no node.
pub open spec fn first_stray(hosts: Seq<Seq<char>>, nodes: Seq<Seq<char>>, i: int) -> Option<
    Seq<char>,
>
    decreases hosts.len() - i,
{
    if i < 0 || i >= hosts.len() {
        None
    } else if !nodes.contains(hosts[i]) {
        Some(hosts[i])
    } else {
        first_stray(hosts, nodes, i + 1)
    }
}

/// Checks that every builder is a node.
fn check_builders(hosts: &Vec<String>, nodes: &Vec<String>) -> (r: Result<(), String>)
    ensures
        match first_stray(text::views(hosts@), text::views(nodes@), 0) {
            Some(h) => r matches Err(e) && e@ == stray_builder_text(h),
            None => r is Ok,
        },
{
    let ghost hs = text::views(hosts@);
    let ghost ns = text::views(nodes@);
    let mut i: usize = 0;
    while i < hosts.len()
        invariant
            i <= hosts@.len(),
            hs == text::views(hosts@),
            ns == text::views(nodes@),
            first_stray(hs, ns, i as int) == first_stray(hs, ns, 0),
        decreases hosts@.len() - i,
    {
        proof {
            assert(hs[i as int] == hosts@[i as int]@);
        }
        if !text::has_string(nodes, hosts[i].as_str()) {
            return Err(stray_builder(hosts[i].as_str()));
        }
        i = i + 1;
    }
    Ok(())
}

/// The nodes of a mesh.
pub open spec fn wanted_nodes(base: BaseInitFlags) -> Seq<Seq<char>> {
    init::cleaned(text::views(base.ssh.nodes@))
}

/// What is wrong with the flags, first to last.
pub open spec fn desired_error(base: BaseInitFlags) -> Option<Seq<char>> {
    let nodes = wanted_nodes(base);
    if ssh::key_error(base.ssh) is Some {
        ssh::key_error(base.ssh)
    } else if meshnet::namespaces_error(text::views(base.mesh.namespaces@)) is Some {
        meshnet::namespaces_error(text::views(base.mesh.namespaces@))
    } else if base.central@.len() == 0 && nodes.len() == 0 {
        Some("at least one of --central or --nodes is required"@)
    } else {
        match (
            first_stray(text::views(base.builder_hosts@), nodes, 0),
            all_hosts(base.central@, nodes),
        ) {
            (Some(h), _) => Some(stray_builder_text(h)),
            (None, Err(e)) => Some(e),
            (None, Ok(_)) => if net::net_parsed(base.wg_mgmt_pool@) is None || net::net_parsed(
                base.mesh.container_pool@,
            ) is None {
                Some("invalid IP address syntax"@)
            } else {
                None
            },
        }
    }
}

/// Whether `d` is the mesh that the flags ask for.
pub open spec fn asked_for(
    d: DesiredMesh,
    base: BaseInitFlags,
    intent: Intent,
    new_nodes: Seq<Seq<char>>,
    allow_replace: bool,
    allow_nightly: bool,
) -> bool {
    &&& all_hosts(base.central@, wanted_nodes(base)) == Ok::<Seq<Seq<char>>, Seq<char>>(
        text::views(d.hosts@),
    )
    &&& text::views(d.nodes@) == wanted_nodes(base)
    &&& d.interface@ == base.wg_interface@
    &&& net::net_parsed(base.wg_mgmt_pool@) == Some((d.mgmt_pool.ip(), d.mgmt_pool.prefix()))
    &&& net::net_parsed(base.mesh.container_pool@) == Some(
        (d.container_pool.ip(), d.container_pool.prefix()),
    )
    &&& d.container_prefix == base.mesh.container_prefix
    &&& d.listen_port == base.wg_listen_port
    &&& d.listen_port_overrides@.len() == 0
    &&& d.endpoint_overrides@.len() == 0
    &&& d.install_podman && d.install_coold
    &&& text::views(d.namespaces@) == text::views(base.mesh.namespaces@)
    &&& d.default_deny_containers == !base.skip_default_deny
    &&& d.coold_version@ == base.coold_version@
    &&& d.corrosion_version@ == base.corrosion_version@
    &&& d.corrosion_gossip_port == base.corrosion_gossip_port
    &&& d.corrosion_api_port == base.corrosion_api_port
    &&& d.coold_sha256 is None && d.corrosion_sha256 is None
    &&& d.corrosion_gossip_tls is None && d.flux_tls is None && d.flux_tls_url is None
    &&& d.central_host@ == base.central@
    &&& d.coolify_version@ == base.coolify_version@
    &&& d.scheduler_version@ == base.scheduler_version@
    &&& d.enable_builder == base.enable_builder
    &&& text::views(d.builder_hosts@) == text::views(base.builder_hosts@)
    &&& d.builder_capacity == base.builder_capacity
    &&& d.builder_cpu_quota@ == base.builder_cpu_quota@
    &&& d.builder_memory_max@ == base.builder_memory_max@
    &&& d.builder_timeout_secs == base.builder_timeout_secs
    &&& d.intent == intent
    &&& text::views(d.new_nodes@) == init::cleaned(new_nodes)
    &&& d.allow_replace == allow_replace
    &&& d.allow_nightly == allow_nightly
}

/// The mesh that the flags ask for.
pub fn build_desired(
    base: &BaseInitFlags,
    intent: Intent,
    new_nodes: &Vec<String>,
    allow_replace: bool,
    allow_nightly: bool,
) -> (r: Result<DesiredMesh, String>)
    ensures
        match (r, desired_error(*base)) {
            (Err(e), Some(t)) => e@ == t,
            (Ok(d), None) => asked_for(
                d,
                *base,
                intent,
                text::views(new_nodes@),
                allow_replace,
                allow_nightly,
            ),
            _ => false,
        },
{
    base.ssh.validate_ssh_key()?;
    meshnet::validate_namespaces(&base.mesh.namespaces)?;
    let nodes: Vec<String> = init::clean_hosts(&base.ssh.nodes);
    proof {
        assert(wanted_nodes(*base).len() == nodes@.len());
    }
    if base.central.as_str().is_empty() && nodes.len() == 0 {
        return Err("at least one of --central or --nodes is required".to_owned());
    }
    check_builders(&base.builder_hosts, &nodes)?;
    let hosts: Vec<String> = mesh_hosts(base.central.as_str(), &nodes)?;
    match (Ipv4Net::parse(base.wg_mgmt_pool.as_str()), Ipv4Net::parse(
        base.mesh.container_pool.as_str(),
    )) {
        (Some(mgmt_pool), Some(container_pool)) => Ok(
            DesiredMesh {
                hosts,
                nodes,
                interface: base.wg_interface.clone(),
                mgmt_pool,
                container_pool,
                container_prefix: base.mesh.container_prefix,
                listen_port: base.wg_listen_port,
                listen_port_overrides: StrMap::new(),
                endpoint_overrides: StrMap::new(),
                install_podman: true,
                namespaces: text::copy_strings(&base.mesh.namespaces),
                default_deny_containers: !base.skip_default_deny,
                install_coold: true,
                coold_version: base.coold_version.clone(),
                corrosion_version: base.corrosion_version.clone(),
                corrosion_gossip_port: base.corrosion_gossip_port,
                corrosion_api_port: base.corrosion_api_port,
                coold_sha256: None,
                corrosion_sha256: None,
                corrosion_gossip_tls: None,
                flux_tls: None,
                flux_tls_url: None,
                central_host: base.central.clone(),
                coolify_version: base.coolify_version.clone(),
                scheduler_version: base.scheduler_version.clone(),
                enable_builder: base.enable_builder,
                builder_hosts: text::copy_strings(&base.builder_hosts),
                builder_capacity: base.builder_capacity,
                builder_cpu_quota: base.builder_cpu_quota.clone(),
                builder_memory_max: base.builder_memory_max.clone(),
                builder_timeout_secs: base.builder_timeout_secs,
                intent,
                new_nodes: init::clean_hosts(new_nodes),
                allow_replace,
                allow_nightly,
            },
        ),
        _ => Err("invalid IP address syntax".to_owned()),
    }
}

/// No host of a mesh is named twice, every node is one of its hosts, and the central host
/// is the first of them.
pub proof fn hosts_are_distinct(central: Seq<char>, nodes: Seq<Seq<char>>, hosts: Seq<Seq<char>>)
    requires
        all_hosts(central, nodes) == Ok::<Seq<Seq<char>>, Seq<char>>(hosts),
    ensures
        hosts.no_duplicates(),
        forall|n: Seq<char>|
            n.len() > 0 ==> (#[trigger] hosts.contains(n) <==> nodes.contains(n) || n == central),
        central.len() > 0 ==> hosts.len() > 0 && hosts[0] == central,
{
    let ns = init::distinct_nodes(nodes)->Ok_0;
    init::distinct_nodes_are_distinct(nodes);
    if central.len() > 0 {
        others_hold(ns, central);
        let o = others(ns, central);
        assert(hosts =~= seq![central] + o);
        assert forall|i: int, j: int| 0 <= i < j < hosts.len() implies hosts[i] != hosts[j] by {
            assert(hosts[j] == o[j - 1]);
            assert(o.contains(hosts[j]));
            if i > 0 {
                assert(hosts[i] == o[i - 1]);
            }
        }
        assert forall|n: Seq<char>| n.len() > 0 implies (#[trigger] hosts.contains(n)
            <==> nodes.contains(n) || n == central) by {
            if hosts.contains(n) {
                let i = choose|i: int| 0 <= i < hosts.len() && hosts[i] == n;
                if i > 0 {
                    assert(o[i - 1] == n);
                    assert(o.contains(n));
                }
            }
            if n == central {
                assert(hosts[0] == n);
            } else if nodes.contains(n) {
                assert(o.contains(n));
                let i = choose|i: int| 0 <= i < o.len() && o[i] == n;
                assert(hosts[i + 1] == n);
            }
        }
    } else {
        assert(hosts == ns);
    }
}

proof fn others_hold(ns: Seq<Seq<char>>, central: Seq<char>)
    requires
        ns.no_duplicates(),
    ensures
        others(ns, central).no_duplicates(),
        forall|n: Seq<char>|
            #[trigger] others(ns, central).contains(n) <==> ns.contains(n) && n != central,
    decreases ns.len(),
{
    if ns.len() > 0 {
        let p = ns.drop_last();
        assert(p.no_duplicates());
        others_hold(p, central);
        assert forall|n: Seq<char>| #[trigger]
            others(ns, central).contains(n) <==> ns.contains(n) && n != central by {
            init::contains_push(p, ns.last(), n);
            assert(ns =~= p.push(ns.last()));
            init::contains_push(others(p, central), ns.last(), n);
        }
        if ns.last() != central {
            assert(!p.contains(ns.last()));
            assert(!others(p, central).contains(ns.last()));
            assert(others(ns, central) == others(p, central).push(ns.last()));
        }
    }
}

} // verus!
