//! From the flags of a run to the mesh that it should make.

use vstd::prelude::*;
use vstd::string::StringExecFns;
use crate::cli::meshnet;
use crate::cli::meshnet::MeshNetMultiFlags;
use crate::cli::ssh;
use crate::cli::ssh::SshMeshFlags;
use crate::cli::tls;
use crate::keyed;
use crate::keyed::StrMap;
use crate::mesh::action::Plan;
use crate::mesh::intent::Intent;
use crate::mesh::state::{DesiredMesh, SelfSignedCert};
use crate::net;
use crate::net::Ipv4Net;
use crate::number;
use crate::split;
use crate::text;

verus! {

/// The commands of `init`.
#[derive(Clone, Debug)]
pub enum InitCommand {
    Plan(PlanCommand),
    Bootstrap(ApplyCommand),
    Extend(ExtendCommand),
    Upgrade(UpgradeCommand),
}

/// What every command of `init` takes.
#[derive(Clone, Debug)]
pub struct BaseInitFlags {
    pub ssh: SshMeshFlags,
    pub mesh: MeshNetMultiFlags,
    pub wg_mgmt_pool: String,
    pub wg_interface: String,
    pub wg_listen_port: u16,
    /// Listen ports of single nodes: `node=port`.
    pub wg_listen_port_overrides: Vec<String>,
    /// Endpoints of single nodes: `node=host:port`.
    pub wg_endpoint_overrides: Vec<String>,
    pub skip_default_deny: bool,
    pub coold_version: String,
    pub corrosion_version: String,
    pub corrosion_gossip_port: u16,
    pub corrosion_api_port: u16,
    pub coold_sha256: Option<String>,
    pub corrosion_sha256: Option<String>,
    /// Run Corrosion gossip over TLS.
    pub enable_corrosion_gossip_tls: bool,
    /// Let coold dial flux over pinned TLS.
    pub enable_flux_tls: bool,
    /// The names of flux; one of them has to be reachable from the nodes.
    pub flux_tls_san: Vec<String>,
    pub flux_port: u16,
    pub flux_tls_out_dir: String,
    pub yes: bool,
}

/// Show what would be done.
#[derive(Clone, Debug)]
pub struct PlanCommand {
    pub base: BaseInitFlags,
    pub intent: PlanIntent,
    pub new_nodes: Vec<String>,
    pub allow_replace: bool,
    pub allow_nightly: bool,
}

/// Set a mesh up.
#[derive(Clone, Debug)]
pub struct ApplyCommand {
    pub base: BaseInitFlags,
}

/// Add nodes to a mesh.
#[derive(Clone, Debug)]
pub struct ExtendCommand {
    pub base: BaseInitFlags,
    pub new_nodes: Vec<String>,
    pub allow_replace: bool,
}

/// Bump the versions in a mesh.
#[derive(Clone, Debug)]
pub struct UpgradeCommand {
    pub base: BaseInitFlags,
    pub allow_nightly: bool,
}

/// The intent that a plan is shown for.
#[derive(Clone, Copy, Debug, PartialEq, Eq, Structural)]
pub enum PlanIntent {
    Bootstrap,
    Extend,
    Upgrade,
}

/// The intent of a plan.
pub open spec fn intent_of(v: PlanIntent) -> Intent {
    match v {
        PlanIntent::Bootstrap => Intent::Bootstrap,
        PlanIntent::Extend => Intent::Extend,
        PlanIntent::Upgrade => Intent::Upgrade,
    }
}

impl From<PlanIntent> for Intent {
    fn from(v: PlanIntent) -> (r: Self) {
        match v {
            PlanIntent::Bootstrap => Intent::Bootstrap,
            PlanIntent::Extend => Intent::Extend,
            PlanIntent::Upgrade => Intent::Upgrade,
        }
    }
}

impl vstd::std_specs::convert::FromSpecImpl<PlanIntent> for Intent {
    open spec fn obeys_from_spec() -> bool {
        true
    }

    open spec fn from_spec(v: PlanIntent) -> Self {
        intent_of(v)
    }
}

/// What a run does: only plan, or plan and apply.
#[derive(Clone, Debug)]
pub struct Run {
    pub base: BaseInitFlags,
    pub apply: bool,
    pub intent: Intent,
    pub new_nodes: Vec<String>,
    pub allow_replace: bool,
    pub allow_nightly: bool,
    /// Whether the run goes on without a word about what it changes.
    pub skip_gate: bool,
    pub header: &'static str,
}

/// What a command stands for. Extending needs the new nodes.
pub fn run(cmd: InitCommand) -> (r: Result<Run, String>)
    ensures
        match cmd {
            InitCommand::Plan(c) => r matches Ok(x) && x.base == c.base && !x.apply && x.intent
                == intent_of(c.intent) && x.new_nodes == c.new_nodes && x.allow_replace
                == c.allow_replace && x.allow_nightly == c.allow_nightly,
            InitCommand::Bootstrap(c) => r matches Ok(x) && x.base == c.base && x.apply && x.intent
                == Intent::Bootstrap && x.new_nodes@.len() == 0 && !x.allow_replace
                && !x.allow_nightly && !x.skip_gate && x.header@ == "Bootstrapping mesh..."@,
            InitCommand::Extend(c) => if c.new_nodes@.len() == 0 {
                r matches Err(e) && e@
                    == "--new-nodes is required: list the subset of --nodes that is brand-new"@
            } else {
                r matches Ok(x) && x.base == c.base && x.apply && x.intent == Intent::Extend
                    && x.new_nodes == c.new_nodes && x.allow_replace == c.allow_replace
                    && !x.allow_nightly && x.skip_gate && x.header@ == "Extending mesh..."@
            },
            InitCommand::Upgrade(c) => r matches Ok(x) && x.base == c.base && x.apply && x.intent
                == Intent::Upgrade && x.new_nodes@.len() == 0 && !x.allow_replace
                && x.allow_nightly == c.allow_nightly && x.skip_gate && x.header@
                == "Upgrading agent binaries..."@,
        },
{
    match cmd {
        InitCommand::Plan(c) => Ok(
            Run {
                base: c.base,
                apply: false,
                intent: Intent::from(c.intent),
                new_nodes: c.new_nodes,
                allow_replace: c.allow_replace,
                allow_nightly: c.allow_nightly,
                skip_gate: true,
                header: "",
            },
        ),
        InitCommand::Bootstrap(c) => Ok(
            Run {
                base: c.base,
                apply: true,
                intent: Intent::Bootstrap,
                new_nodes: Vec::new(),
                allow_replace: false,
                allow_nightly: false,
                skip_gate: false,
                header: "Bootstrapping mesh...",
            },
        ),
        InitCommand::Extend(c) => {
            if c.new_nodes.len() == 0 {
                return Err(
                    "--new-nodes is required: list the subset of --nodes that is brand-new".to_owned(),
                );
            }
            Ok(
                Run {
                    base: c.base,
                    apply: true,
                    intent: Intent::Extend,
                    new_nodes: c.new_nodes,
                    allow_replace: c.allow_replace,
                    allow_nightly: false,
                    skip_gate: true,
                    header: "Extending mesh...",
                },
            )
        },
        InitCommand::Upgrade(c) => Ok(
            Run {
                base: c.base,
                apply: true,
                intent: Intent::Upgrade,
                new_nodes: Vec::new(),
                allow_replace: false,
                allow_nightly: c.allow_nightly,
                skip_gate: true,
                header: "Upgrading agent binaries...",
            },
        ),
    }
}

/// Whether only a process on the same host could reach this name.
pub open spec fn local_san(san: Seq<char>) -> bool {
    let s = split::lowered(split::trimmed(san));
    s == "localhost"@ || s == "127.0.0.1"@ || s == "::1"@ || s == "0.0.0.0"@ || s == ""@
}

pub fn is_localhost_san(san: &str) -> (r: bool)
    ensures
        r == local_san(san@),
{
    let t: String = split::to_lower(split::trim(san).as_str());
    let s: &str = t.as_str();
    text::same(s, "localhost") || text::same(s, "127.0.0.1") || text::same(s, "::1") || text::same(
        s,
        "0.0.0.0",
    ) || text::same(s, "")
}

/// The hosts, trimmed, without the blank ones.
pub open spec fn cleaned(hosts: Seq<Seq<char>>) -> Seq<Seq<char>>
    decreases hosts.len(),
{
    if hosts.len() == 0 {
        Seq::empty()
    } else if split::is_blank(hosts.last()) {
        cleaned(hosts.drop_last())
    } else {
        cleaned(hosts.drop_last()).push(split::trimmed(hosts.last()))
    }
}

pub fn clean_hosts(hosts: &Vec<String>) -> (r: Vec<String>)
    ensures
        text::views(r@) == cleaned(text::views(hosts@)),
{
    broadcast use text::views_push;

    let ghost hs = text::views(hosts@);
    let mut out: Vec<String> = Vec::new();
    let mut i: usize = 0;
    proof {
        assert(hs.take(0) =~= Seq::empty());
        assert(text::views(out@) =~= Seq::empty());
    }
    while i < hosts.len()
        invariant
            i <= hosts@.len(),
            hs == text::views(hosts@),
            text::views(out@) == cleaned(hs.take(i as int)),
        decreases hosts@.len() - i,
    {
        proof {
            assert(hs.take(i + 1).drop_last() =~= hs.take(i as int));
            assert(hs.take(i + 1).last() == hosts@[i as int]@);
        }
        if !split::blank(hosts[i].as_str()) {
            out.push(split::trim(hosts[i].as_str()));
        }
        i = i + 1;
    }
    proof {
        assert(hs.take(i as int) =~= hs);
    }
    out
}

/// The nodes without the empty ones; nothing where one is named twice.
pub open spec fn distinct_nodes(nodes: Seq<Seq<char>>) -> Result<Seq<Seq<char>>, Seq<char>>
    decreases nodes.len(),
{
    if nodes.len() == 0 {
        Ok(Seq::empty())
    } else {
        match distinct_nodes(nodes.drop_last()) {
            Err(e) => Err(e),
            Ok(t) => if nodes.last().len() == 0 {
                Ok(t)
            } else if t.contains(nodes.last()) {
                Err(duplicate_node_text(nodes.last()))
            } else {
                Ok(t.push(nodes.last()))
            },
        }
    }
}

pub proof fn contains_push(s: Seq<Seq<char>>, x: Seq<char>, n: Seq<char>)
    ensures
        s.push(x).contains(n) <==> s.contains(n) || n == x,
{
    if s.contains(n) {
        let i = choose|i: int| 0 <= i < s.len() && s[i] == n;
        assert(s.push(x)[i] == n);
    }
    if n == x {
        assert(s.push(x)[s.len() as int] == n);
    }
    if s.push(x).contains(n) {
        let i = choose|i: int| 0 <= i < s.push(x).len() && s.push(x)[i] == n;
        if i < s.len() {
            assert(s[i] == n);
        }
    }
}

/// Where the nodes are accepted, they are kept, but for the empty ones, and none stands
/// there twice.
pub proof fn distinct_nodes_are_distinct(nodes: Seq<Seq<char>>)
    requires
        distinct_nodes(nodes) is Ok,
    ensures
        distinct_nodes(nodes)->Ok_0.no_duplicates(),
        forall|n: Seq<char>|
            #[trigger] distinct_nodes(nodes)->Ok_0.contains(n) <==> nodes.contains(n) && n.len()
                > 0,
    decreases nodes.len(),
{
    if nodes.len() > 0 {
        let p = nodes.drop_last();
        distinct_nodes_are_distinct(p);
        let t = distinct_nodes(p)->Ok_0;
        assert forall|n: Seq<char>| #[trigger]
            distinct_nodes(nodes)->Ok_0.contains(n) <==> nodes.contains(n) && n.len() > 0 by {
            contains_push(p, nodes.last(), n);
            assert(nodes =~= p.push(nodes.last()));
            contains_push(t, nodes.last(), n);
        }
    }
}

/// A list result by its characters.
pub open spec fn list_view(r: Result<Vec<String>, String>) -> Result<Seq<Seq<char>>, Seq<char>> {
    match r {
        Ok(v) => Ok(text::views(v@)),
        Err(e) => Err(e@),
    }
}

proof fn distinct_err_stays(nodes: Seq<Seq<char>>, i: int)
    requires
        0 <= i <= nodes.len(),
        distinct_nodes(nodes.take(i)) is Err,
    ensures
        distinct_nodes(nodes) == distinct_nodes(nodes.take(i)),
    decreases nodes.len() - i,
{
    if i < nodes.len() {
        assert(nodes.take(i + 1).drop_last() =~= nodes.take(i));
        distinct_err_stays(nodes, i + 1);
    } else {
        assert(nodes.take(i) =~= nodes);
    }
}

/// The hosts of a mesh: its nodes in order.
pub fn mesh_hosts(nodes: &Vec<String>) -> (r: Result<Vec<String>, String>)
    ensures
        list_view(r) == distinct_nodes(text::views(nodes@)),
{
    broadcast use text::views_push;

    let ghost ns = text::views(nodes@);
    let mut out: Vec<String> = Vec::new();
    let mut i: usize = 0;
    proof {
        assert(ns.take(0) =~= Seq::empty());
        assert(text::views(out@) =~= Seq::empty());
    }
    while i < nodes.len()
        invariant
            i <= nodes@.len(),
            ns == text::views(nodes@),
            distinct_nodes(ns.take(i as int)) == Ok::<Seq<Seq<char>>, Seq<char>>(
                text::views(out@),
            ),
        decreases nodes@.len() - i,
    {
        let node: &str = nodes[i].as_str();
        proof {
            assert(ns.take(i + 1).drop_last() =~= ns.take(i as int));
            assert(ns.take(i + 1).last() == node@);
        }
        if !node.is_empty() {
            if text::has_string(&out, node) {
                proof {
                    distinct_err_stays(ns, i + 1);
                }
                return Err(duplicate_node(node));
            }
            let ghost before = text::views(out@);
            proof {
                assert(distinct_nodes(ns.take(i + 1)) == Ok::<Seq<Seq<char>>, Seq<char>>(
                    before.push(node@),
                ));
            }
            out.push(node.to_owned());
            proof {
                assert(text::views(out@) == before.push(node@));
            }
        } else {
            proof {
                assert(distinct_nodes(ns.take(i + 1)) == distinct_nodes(ns.take(i as int)));
            }
        }
        i = i + 1;
    }
    proof {
        assert(ns.take(i as int) =~= ns);
    }
    Ok(out)
}

/// The refusal of a node that is named twice.
pub open spec fn duplicate_node_text(node: Seq<char>) -> Seq<char> {
    "duplicate node in --nodes: "@
        + node
}

/// The refusal of a node that is named twice.
pub fn duplicate_node(node: &str) -> (r: String)
    ensures
        r@ == duplicate_node_text(node@),
{
    let mut out: String = "duplicate node in --nodes: ".to_owned();
    out.append(node);
    out
}

/// The refusal of an override without a port.
pub open spec fn bad_port_override_text(value: Seq<char>) -> Seq<char> {
    "invalid --wg-listen-port-overrides entry "@
        + text::quoted(value)
        + "; expected node=port"@
}

/// The refusal of an override without a port.
fn bad_port_override(value: &str) -> (r: String)
    ensures
        r@ == bad_port_override_text(value@),
{
    let mut out: String = "invalid --wg-listen-port-overrides entry ".to_owned();
    out.append(text::quote(value).as_str());
    out.append("; expected node=port");
    out
}

/// The refusal of an override without an endpoint.
pub open spec fn bad_endpoint_override_text(value: Seq<char>) -> Seq<char> {
    "invalid --wg-endpoint-overrides entry "@
        + text::quoted(value)
        + "; expected node=host:port"@
}

/// The refusal of an override without an endpoint.
fn bad_endpoint_override(value: &str) -> (r: String)
    ensures
        r@ == bad_endpoint_override_text(value@),
{
    let mut out: String = "invalid --wg-endpoint-overrides entry ".to_owned();
    out.append(text::quote(value).as_str());
    out.append("; expected node=host:port");
    out
}

/// The ports by node, or what is wrong with the first bad entry.
pub open spec fn port_overrides(values: Seq<Seq<char>>) -> Result<Seq<(Seq<char>, u16)>, Seq<char>>
    decreases values.len(),
{
    if values.len() == 0 {
        Ok(Seq::empty())
    } else {
        match port_overrides(values.drop_last()) {
            Err(e) => Err(e),
            Ok(m) => match text::split_once_spec(values.last(), '=') {
                None => Err(bad_port_override_text(values.last())),
                Some((host, raw)) => match number::parsed(raw, 65535) {
                    None => Err(number::u16_error_text(raw)),
                    Some(p) => Ok(keyed::put(m, split::trimmed(host), p as u16)),
                },
            },
        }
    }
}

proof fn port_err_stays(values: Seq<Seq<char>>, i: int)
    requires
        0 <= i <= values.len(),
        port_overrides(values.take(i)) is Err,
    ensures
        port_overrides(values) == port_overrides(values.take(i)),
    decreases values.len() - i,
{
    if i < values.len() {
        assert(values.take(i + 1).drop_last() =~= values.take(i));
        port_err_stays(values, i + 1);
    } else {
        assert(values.take(i) =~= values);
    }
}

/// Reads the listen ports of single nodes.
pub fn parse_port_overrides(values: &Vec<String>) -> (r: Result<StrMap<u16>, String>)
    ensures
        match r {
            Ok(m) => port_overrides(text::views(values@)) == Ok::<
                Seq<(Seq<char>, u16)>,
                Seq<char>,
            >(m@),
            Err(e) => port_overrides(text::views(values@)) == Err::<
                Seq<(Seq<char>, u16)>,
                Seq<char>,
            >(e@),
        },
{
    let ghost vs = text::views(values@);
    let mut out: StrMap<u16> = StrMap::new();
    let mut i: usize = 0;
    proof {
        assert(vs.take(0) =~= Seq::empty());
    }
    while i < values.len()
        invariant
            i <= values@.len(),
            vs == text::views(values@),
            port_overrides(vs.take(i as int)) == Ok::<Seq<(Seq<char>, u16)>, Seq<char>>(out@),
        decreases values@.len() - i,
    {
        let value: &str = values[i].as_str();
        proof {
            assert(vs.take(i + 1).drop_last() =~= vs.take(i as int));
            assert(vs.take(i + 1).last() == value@);
        }
        match text::split_once(value, '=') {
            None => {
                proof {
                    port_err_stays(vs, i + 1);
                }
                return Err(bad_port_override(value));
            },
            Some((host, raw)) => match number::parse_bounded(raw.as_str(), 65535) {
                None => {
                    proof {
                        port_err_stays(vs, i + 1);
                    }
                    return Err(number::u16_error(raw.as_str()));
                },
                Some(p) => {
                    out.insert(split::trim(host.as_str()), p as u16);
                },
            },
        }
        i = i + 1;
    }
    proof {
        assert(vs.take(i as int) =~= vs);
    }
    Ok(out)
}

/// String entries by their characters.
pub open spec fn string_entries(s: Seq<(Seq<char>, String)>) -> Seq<(Seq<char>, Seq<char>)> {
    Seq::new(s.len(), |i: int| (s[i].0, s[i].1@))
}

proof fn string_entries_put(s: Seq<(Seq<char>, String)>, k: Seq<char>, v: String)
    ensures
        string_entries(keyed::put(s, k, v)) == keyed::put(string_entries(s), k, v@),
    decreases s.len(),
{
    if s.len() > 0 {
        assert(string_entries(s).drop_first() =~= string_entries(s.drop_first()));
        string_entries_put(s.drop_first(), k, v);
    }
    assert(string_entries(keyed::put(s, k, v)) =~= keyed::put(string_entries(s), k, v@));
}

/// The endpoints by node, or what is wrong with the first bad entry.
pub open spec fn endpoint_overrides(values: Seq<Seq<char>>) -> Result<
    Seq<(Seq<char>, Seq<char>)>,
    Seq<char>,
>
    decreases values.len(),
{
    if values.len() == 0 {
        Ok(Seq::empty())
    } else {
        match endpoint_overrides(values.drop_last()) {
            Err(e) => Err(e),
            Ok(m) => match text::split_once_spec(values.last(), '=') {
                None => Err(bad_endpoint_override_text(values.last())),
                Some((host, endpoint)) => Ok(
                    keyed::put(m, split::trimmed(host), split::trimmed(endpoint)),
                ),
            },
        }
    }
}

proof fn endpoint_err_stays(values: Seq<Seq<char>>, i: int)
    requires
        0 <= i <= values.len(),
        endpoint_overrides(values.take(i)) is Err,
    ensures
        endpoint_overrides(values) == endpoint_overrides(values.take(i)),
    decreases values.len() - i,
{
    if i < values.len() {
        assert(values.take(i + 1).drop_last() =~= values.take(i));
        endpoint_err_stays(values, i + 1);
    } else {
        assert(values.take(i) =~= values);
    }
}

/// Reads the endpoints of single nodes.
pub fn parse_endpoint_overrides(values: &Vec<String>) -> (r: Result<StrMap<String>, String>)
    ensures
        match r {
            Ok(m) => endpoint_overrides(text::views(values@)) == Ok::<
                Seq<(Seq<char>, Seq<char>)>,
                Seq<char>,
            >(string_entries(m@)),
            Err(e) => endpoint_overrides(text::views(values@)) == Err::<
                Seq<(Seq<char>, Seq<char>)>,
                Seq<char>,
            >(e@),
        },
{
    let ghost vs = text::views(values@);
    let mut out: StrMap<String> = StrMap::new();
    let mut i: usize = 0;
    proof {
        assert(vs.take(0) =~= Seq::empty());
        assert(string_entries(out@) =~= Seq::empty());
    }
    while i < values.len()
        invariant
            i <= values@.len(),
            vs == text::views(values@),
            endpoint_overrides(vs.take(i as int)) == Ok::<
                Seq<(Seq<char>, Seq<char>)>,
                Seq<char>,
            >(string_entries(out@)),
        decreases values@.len() - i,
    {
        let value: &str = values[i].as_str();
        proof {
            assert(vs.take(i + 1).drop_last() =~= vs.take(i as int));
            assert(vs.take(i + 1).last() == value@);
        }
        match text::split_once(value, '=') {
            None => {
                proof {
                    endpoint_err_stays(vs, i + 1);
                }
                return Err(bad_endpoint_override(value));
            },
            Some((host, endpoint)) => {
                let k: String = split::trim(host.as_str());
                let v: String = split::trim(endpoint.as_str());
                proof {
                    string_entries_put(out@, k@, v);
                }
                out.insert(k, v);
            },
        }
        i = i + 1;
    }
    proof {
        assert(vs.take(i as int) =~= vs);
    }
    Ok(out)
}

/// What is said before anything else.
pub const ALPHA_BANNER: &'static str = "\n[ALPHA] coolify init targets Coolify v5 and is experimental.\n[ALPHA] WireGuard mesh bootstrap requires root/sudo and modifies network configuration.\n[ALPHA] Test in non-production environments first. Stability is not guaranteed.\n";

/// Whether a run says that it changes the network before it does.
pub fn warns(skip_gate: bool, yes: bool, non_interactive: &str) -> (r: bool)
    ensures
        r == (!skip_gate && !yes && non_interactive@ != "1"@),
{
    !skip_gate && !yes && !text::same(non_interactive, "1")
}

/// What is left to do by hand where flux runs over TLS.
pub open spec fn flux_tls_notice_text(url: Seq<char>, cert: Seq<char>, key: Seq<char>) -> Seq<char> {
    "flux TLS enabled.\n  Automatic (node side): each coold unit dials "@
        + url
        + " over pinned TLS\n    (COOLIFY_COOLD_FLUX_URL + COOLIFY_COOLD_FLUX_TLS_PIN_PATH), and the pin\n    file /etc/coolify/flux.pin was dropped on every node.\n  Wrote "@
        + cert
        + " and "@
        + key
        + ".\n  Remaining MANUAL steps (CLI does not manage flux or host JWTs):\n    1. Copy cert.pem/key.pem to the flux host.\n    2. Start flux with COOLIFY_FLUX_TLS_CERT_PATH="@
        + cert
        + " \\\n         COOLIFY_FLUX_TLS_KEY_PATH="@
        + key
        + "\n       (flux must bind its mesh IP — the SAN above — not localhost).\n    3. Install each node's per-host JWT at /etc/coolify/host-jwt — coold exits at boot\n       if the flux URL is set but the JWT file is missing."@
}

/// What is left to do by hand where flux runs over TLS.
fn flux_tls_notice(url: &str, cert: &str, key: &str) -> (r: String)
    ensures
        r@ == flux_tls_notice_text(url@, cert@, key@),
{
    let mut out: String = "flux TLS enabled.\n  Automatic (node side): each coold unit dials ".to_owned();
    out.append(url);
    out.append(" over pinned TLS\n    (COOLIFY_COOLD_FLUX_URL + COOLIFY_COOLD_FLUX_TLS_PIN_PATH), and the pin\n    file /etc/coolify/flux.pin was dropped on every node.\n  Wrote ");
    out.append(cert);
    out.append(" and ");
    out.append(key);
    out.append(".\n  Remaining MANUAL steps (CLI does not manage flux or host JWTs):\n    1. Copy cert.pem/key.pem to the flux host.\n    2. Start flux with COOLIFY_FLUX_TLS_CERT_PATH=");
    out.append(cert);
    out.append(" \\\n         COOLIFY_FLUX_TLS_KEY_PATH=");
    out.append(key);
    out.append("\n       (flux must bind its mesh IP — the SAN above — not localhost).\n    3. Install each node's per-host JWT at /etc/coolify/host-jwt — coold exits at boot\n       if the flux URL is set but the JWT file is missing.");
    out
}

/// What is left to do by hand, with the address of flux where one is known.
pub open spec fn flux_tls_output(url: Option<Seq<char>>, cert: Seq<char>, key: Seq<char>) -> Seq<
    char,
> {
    flux_tls_notice_text(
        match url {
            Some(u) => u,
            None => "https://<flux-mesh-ip>:6443"@,
        },
        cert,
        key,
    )
}

/// What is left to do by hand once the certificate of flux has been written.
pub fn flux_tls_message(flux_url: &Option<String>, cert_path: &str, key_path: &str) -> (r: String)
    ensures
        r@ == flux_tls_output(text::opt_view(*flux_url), cert_path@, key_path@),
{
    match flux_url {
        Some(u) => flux_tls_notice(u.as_str(), cert_path, key_path),
        None => flux_tls_notice("https://<flux-mesh-ip>:6443", cert_path, key_path),
    }
}

/// The first of `sans[i..]` that another host could reach.
pub open spec fn reachable_from(sans: Seq<Seq<char>>, i: int) -> Option<Seq<char>>
    decreases sans.len() - i,
{
    if i < 0 || i >= sans.len() {
        None
    } else if !local_san(sans[i]) {
        Some(sans[i])
    } else {
        reachable_from(sans, i + 1)
    }
}

/// The first name that another host could reach.
fn flux_host(sans: &Vec<String>) -> (r: Option<String>)
    ensures
        text::opt_view(r) == reachable_from(text::views(sans@), 0),
{
    let ghost ss = text::views(sans@);
    let mut i: usize = 0;
    while i < sans.len()
        invariant
            i <= sans@.len(),
            ss == text::views(sans@),
            reachable_from(ss, i as int) == reachable_from(ss, 0),
        decreases sans@.len() - i,
    {
        proof {
            assert(ss[i as int] == sans@[i as int]@);
        }
        if !is_localhost_san(sans[i].as_str()) {
            return Some(sans[i].clone());
        }
        i = i + 1;
    }
    None
}

/// The refusal of names that only a process beside flux could reach.
pub open spec fn local_sans_text(sans: Seq<char>) -> Seq<char> {
    "--enable-flux-tls requires --flux-tls-san to include the flux host's mesh IP or hostname (got "@
        + sans
        + "); a localhost-only SAN cannot be reached by remote coold nodes over TLS"@
}

/// The refusal of names that only a process beside flux could reach.
fn local_sans(sans: &str) -> (r: String)
    ensures
        r@ == local_sans_text(sans@),
{
    let mut out: String = "--enable-flux-tls requires --flux-tls-san to include the flux host's mesh IP or hostname (got ".to_owned();
    out.append(sans);
    out.append("); a localhost-only SAN cannot be reached by remote coold nodes over TLS");
    out
}

/// The address at which coold dials flux.
pub open spec fn flux_url_text(host: Seq<char>, port: u16) -> Seq<char> {
    "https://"@
        + host
        + ":"@
        + number::decimal(port as nat)
}

/// The address at which coold dials flux.
fn flux_url(host: &str, port: u16) -> (r: String)
    ensures
        r@ == flux_url_text(host@, port),
{
    let mut out: String = "https://".to_owned();
    out.append(host);
    out.append(":");
    out.append(number::decimal_of(port as u64).as_str());
    out
}

/// What is wrong with the flags that are checked first.
pub open spec fn flags_error(base: BaseInitFlags) -> Option<Seq<char>> {
    if ssh::access_error(base.ssh) is Some {
        ssh::access_error(base.ssh)
    } else if meshnet::namespaces_error(text::views(base.mesh.namespaces@)) is Some {
        meshnet::namespaces_error(text::views(base.mesh.namespaces@))
    } else if meshnet::interface_error(base.wg_interface@) is Some {
        meshnet::interface_error(base.wg_interface@)
    } else if meshnet::version_error("--coold-version"@, base.coold_version@) is Some {
        meshnet::version_error("--coold-version"@, base.coold_version@)
    } else {
        meshnet::version_error("--corrosion-version"@, base.corrosion_version@)
    }
}

fn check_flags(base: &BaseInitFlags) -> (r: Result<(), String>)
    ensures
        ssh::says(r, flags_error(*base)),
{
    base.ssh.validate_ssh_access()?;
    meshnet::validate_namespaces(&base.mesh.namespaces)?;
    meshnet::validate_interface(base.wg_interface.as_str())?;
    meshnet::validate_version("--coold-version", base.coold_version.as_str())?;
    meshnet::validate_version("--corrosion-version", base.corrosion_version.as_str())
}

/// The names of flux.
pub open spec fn flux_sans(base: BaseInitFlags) -> Seq<Seq<char>> {
    cleaned(text::views(base.flux_tls_san@))
}

/// What is wrong with the names of flux.
pub open spec fn sans_error(base: BaseInitFlags) -> Option<Seq<char>> {
    if reachable_from(flux_sans(base), 0) is Some {
        None
    } else {
        Some(local_sans_text(text::quoted_list(text::views(base.flux_tls_san@))))
    }
}

/// The nodes of a mesh.
pub open spec fn wanted_nodes(base: BaseInitFlags) -> Seq<Seq<char>> {
    cleaned(text::views(base.ssh.nodes@))
}

/// What is wrong with the flags that are checked last.
pub open spec fn hosts_error(base: BaseInitFlags) -> Option<Seq<char>> {
    if wanted_nodes(base).len() == 0 {
        Some("--nodes is required"@)
    } else {
        match (
            distinct_nodes(wanted_nodes(base)),
            port_overrides(text::views(base.wg_listen_port_overrides@)),
            endpoint_overrides(text::views(base.wg_endpoint_overrides@)),
        ) {
            (Err(e), _, _) => Some(e),
            (Ok(_), Err(e), _) => Some(e),
            (Ok(_), Ok(_), Err(e)) => Some(e),
            (Ok(_), Ok(_), Ok(_)) => if net::net_parsed(base.wg_mgmt_pool@) is None
                || net::net_parsed(base.mesh.container_pool@) is None {
                Some("invalid IP address syntax"@)
            } else {
                None
            },
        }
    }
}

/// The failure to make a certificate.
pub open spec fn cert_error_text(what: Seq<char>, cause: Seq<char>) -> Seq<char> {
    "generate "@ + what + " TLS cert: "@ + cause
}

/// The failure to make a certificate.
fn cert_error(what: &str, cause: &str) -> (r: String)
    ensures
        r@ == cert_error_text(what@, cause@),
{
    let mut out: String = "generate ".to_owned();
    out.append(what);
    out.append(" TLS cert: ");
    out.append(cause);
    out
}

/// Why a certificate could not be made.
pub open spec fn cause_of(made: Option<Result<SelfSignedCert, String>>) -> Option<Seq<char>> {
    match made {
        Some(Err(e)) => Some(e@),
        _ => None,
    }
}

/// What is wrong with the flags, first to last, given why the certificates that they ask for
/// could not be made.
pub open spec fn desired_error(
    base: BaseInitFlags,
    gossip: Option<Seq<char>>,
    flux: Option<Seq<char>>,
) -> Option<Seq<char>> {
    if flags_error(base) is Some {
        flags_error(base)
    } else if base.enable_corrosion_gossip_tls && gossip is Some {
        Some(cert_error_text("corrosion gossip"@, gossip->0))
    } else if base.enable_flux_tls && sans_error(base) is Some {
        sans_error(base)
    } else if base.enable_flux_tls && flux is Some {
        Some(cert_error_text("flux"@, flux->0))
    } else {
        hosts_error(base)
    }
}

/// The address at which coold dials flux.
pub open spec fn wanted_flux_url(base: BaseInitFlags) -> Option<Seq<char>> {
    if base.enable_flux_tls {
        match reachable_from(flux_sans(base), 0) {
            Some(host) => Some(flux_url_text(host, base.flux_port)),
            None => None,
        }
    } else {
        None
    }
}

/// Whether `d` is the mesh that the flags ask for.
pub open spec fn asked_for(
    d: DesiredMesh,
    base: BaseInitFlags,
    intent: Intent,
    new_nodes: Seq<Seq<char>>,
    allow_replace: bool,
    allow_nightly: bool,
) -> bool {
    &&& distinct_nodes(wanted_nodes(base)) == Ok::<Seq<Seq<char>>, Seq<char>>(
        text::views(d.hosts@),
    )
    &&& text::views(d.nodes@) == wanted_nodes(base)
    &&& d.interface@ == base.wg_interface@
    &&& net::net_parsed(base.wg_mgmt_pool@) == Some((d.mgmt_pool.ip(), d.mgmt_pool.prefix()))
    &&& net::net_parsed(base.mesh.container_pool@) == Some(
        (d.container_pool.ip(), d.container_pool.prefix()),
    )
    &&& d.container_prefix == base.mesh.container_prefix
    &&& d.listen_port == base.wg_listen_port
    &&& port_overrides(text::views(base.wg_listen_port_overrides@)) == Ok::<
        Seq<(Seq<char>, u16)>,
        Seq<char>,
    >(d.listen_port_overrides@)
    &&& endpoint_overrides(text::views(base.wg_endpoint_overrides@)) == Ok::<
        Seq<(Seq<char>, Seq<char>)>,
        Seq<char>,
    >(string_entries(d.endpoint_overrides@))
    &&& d.install_podman && d.install_coold
    &&& text::views(d.namespaces@) == text::views(base.mesh.namespaces@)
    &&& d.default_deny_containers == !base.skip_default_deny
    &&& d.coold_version@ == base.coold_version@
    &&& d.corrosion_version@ == base.corrosion_version@
    &&& d.corrosion_gossip_port == base.corrosion_gossip_port
    &&& d.corrosion_api_port == base.corrosion_api_port
    &&& text::opt_view(d.coold_sha256) == text::opt_view(base.coold_sha256)
    &&& text::opt_view(d.corrosion_sha256) == text::opt_view(base.corrosion_sha256)
    &&& d.corrosion_gossip_tls is Some == base.enable_corrosion_gossip_tls
    &&& d.flux_tls is Some == base.enable_flux_tls
    &&& text::opt_view(d.flux_tls_url) == wanted_flux_url(base)
    &&& d.central_host@.len() == 0
    &&& d.intent == intent
    &&& text::views(d.new_nodes@) == cleaned(new_nodes)
    &&& d.allow_replace == allow_replace
    &&& d.allow_nightly == allow_nightly
}

/// Whether the certificate is the one that was made, if one was.
pub open spec fn made_cert(
    c: Option<SelfSignedCert>,
    made: Option<Result<SelfSignedCert, String>>,
) -> bool {
    match made {
        Some(Ok(m)) => c == Some(m),
        _ => c is None,
    }
}

/// The mesh that the flags ask for, with what came of the certificates that they ask for.
pub fn desired_with(
    base: &BaseInitFlags,
    intent: Intent,
    new_nodes: &Vec<String>,
    allow_replace: bool,
    allow_nightly: bool,
    gossip: Option<Result<SelfSignedCert, String>>,
    flux: Option<Result<SelfSignedCert, String>>,
) -> (r: Result<DesiredMesh, String>)
    requires
        base.enable_corrosion_gossip_tls == (gossip is Some),
        base.enable_flux_tls == (flux is Some),
    ensures
        match (r, desired_error(*base, cause_of(gossip), cause_of(flux))) {
            (Err(e), Some(t)) => e@ == t,
            (Ok(d), None) => asked_for(
                d,
                *base,
                intent,
                text::views(new_nodes@),
                allow_replace,
                allow_nightly,
            ) && made_cert(d.corrosion_gossip_tls, gossip) && made_cert(d.flux_tls, flux),
            _ => false,
        },
{
    check_flags(base)?;
    let gossip: Option<SelfSignedCert> = match gossip {
        Some(Ok(c)) => Some(c),
        Some(Err(e)) => return Err(cert_error("corrosion gossip", e.as_str())),
        None => None,
    };
    let mut url: Option<String> = None;
    if base.enable_flux_tls {
        let sans: Vec<String> = clean_hosts(&base.flux_tls_san);
        match flux_host(&sans) {
            None => {
                return Err(local_sans(text::quote_list(&base.flux_tls_san).as_str()));
            },
            Some(host) => {
                url = Some(flux_url(host.as_str(), base.flux_port));
            },
        }
    }
    let flux: Option<SelfSignedCert> = match flux {
        Some(Ok(c)) => Some(c),
        Some(Err(e)) => return Err(cert_error("flux", e.as_str())),
        None => None,
    };
    let nodes: Vec<String> = clean_hosts(&base.ssh.nodes);
    proof {
        assert(wanted_nodes(*base).len() == nodes@.len());
    }
    if nodes.len() == 0 {
        return Err("--nodes is required".to_owned());
    }
    let hosts: Vec<String> = mesh_hosts(&nodes)?;
    let ports: StrMap<u16> = parse_port_overrides(&base.wg_listen_port_overrides)?;
    let endpoints: StrMap<String> = parse_endpoint_overrides(&base.wg_endpoint_overrides)?;
    match (Ipv4Net::parse(base.wg_mgmt_pool.as_str()), Ipv4Net::parse(
        base.mesh.container_pool.as_str(),
    )) {
        (Some(mgmt_pool), Some(container_pool)) => Ok(
            DesiredMesh {
                hosts,
                nodes,
                interface: base.wg_interface.clone(),
                mgmt_pool,
                container_pool,
                container_prefix: base.mesh.container_prefix,
                listen_port: base.wg_listen_port,
                listen_port_overrides: ports,
                endpoint_overrides: endpoints,
                install_podman: true,
                namespaces: text::copy_strings(&base.mesh.namespaces),
                default_deny_containers: !base.skip_default_deny,
                install_coold: true,
                coold_version: base.coold_version.clone(),
                corrosion_version: base.corrosion_version.clone(),
                corrosion_gossip_port: base.corrosion_gossip_port,
                corrosion_api_port: base.corrosion_api_port,
                coold_sha256: text::copy_opt(&base.coold_sha256),
                corrosion_sha256: text::copy_opt(&base.corrosion_sha256),
                corrosion_gossip_tls: gossip,
                flux_tls: flux,
                flux_tls_url: url,
                central_host: String::new(),
                coolify_version: String::new(),
                scheduler_version: String::new(),
                enable_builder: false,
                builder_hosts: Vec::new(),
                builder_capacity: 0,
                builder_cpu_quota: String::new(),
                builder_memory_max: String::new(),
                builder_timeout_secs: 0,
                intent,
                new_nodes: clean_hosts(new_nodes),
                allow_replace,
                allow_nightly,
            },
        ),
        _ => Err("invalid IP address syntax".to_owned()),
    }
}

/// The name of the certificate that the gossip of Corrosion goes under.
pub const GOSSIP_NAME: &'static str = "coolify-corrosion-gossip";

/// The name of the certificate of flux.
pub const FLUX_NAME: &'static str = "coolify-flux";

/// Whether the result is what the flags ask for, given why the certificates could not be
/// made: with a certificate of the gossip without other names, and one of flux with its names.
pub open spec fn built(
    r: Result<DesiredMesh, String>,
    base: BaseInitFlags,
    intent: Intent,
    new_nodes: Seq<Seq<char>>,
    allow_replace: bool,
    allow_nightly: bool,
    gossip: Option<Seq<char>>,
    flux: Option<Seq<char>>,
) -> bool {
    match (r, desired_error(base, gossip, flux)) {
        (Err(e), Some(t)) => e@ == t,
        (Ok(d), None) => {
            &&& asked_for(d, base, intent, new_nodes, allow_replace, allow_nightly)
            &&& d.corrosion_gossip_tls matches Some(c) ==> tls::is_cert_of(
                c,
                GOSSIP_NAME@,
                Seq::empty(),
            )
            &&& d.flux_tls matches Some(c) ==> tls::is_cert_of(c, FLUX_NAME@, flux_sans(base))
        },
        _ => false,
    }
}

/// The mesh that the flags ask for, with fresh certificates where they ask for some. Whether
/// a certificate can be made is open, except that none can be for a name that cannot stand
/// in it; without certificates the result is exact.
pub fn build_desired(
    base: &BaseInitFlags,
    intent: Intent,
    new_nodes: &Vec<String>,
    allow_replace: bool,
    allow_nightly: bool,
) -> (r: Result<DesiredMesh, String>)
    ensures
        exists|gossip: Option<Seq<char>>, flux: Option<Seq<char>>|
            {
                &&& #[trigger] built(
                    r,
                    *base,
                    intent,
                    text::views(new_nodes@),
                    allow_replace,
                    allow_nightly,
                    gossip,
                    flux,
                )
                &&& base.enable_flux_tls ==> (tls::first_invalid(flux_sans(*base), 0) matches Some(
                    s,
                ) ==> flux == Some(tls::invalid_san_text(s)))
            },
{
    let gossip: Option<Result<SelfSignedCert, String>> = if base.enable_corrosion_gossip_tls {
        let none: Vec<String> = Vec::new();
        proof {
            assert(text::views(none@) =~= Seq::empty());
        }
        Some(tls::generate_self_signed(GOSSIP_NAME, &none))
    } else {
        None
    };
    let flux: Option<Result<SelfSignedCert, String>> = if base.enable_flux_tls {
        Some(tls::generate_self_signed(FLUX_NAME, &clean_hosts(&base.flux_tls_san)))
    } else {
        None
    };
    let ghost g = cause_of(gossip);
    let ghost f = cause_of(flux);
    let r: Result<DesiredMesh, String> = desired_with(
        base,
        intent,
        new_nodes,
        allow_replace,
        allow_nightly,
        gossip,
        flux,
    );
    proof {
        assert(built(
            r,
            *base,
            intent,
            text::views(new_nodes@),
            allow_replace,
            allow_nightly,
            g,
            f,
        ));
    }
    r
}

} // verus!
