//! The plan: what has to be done on which host to get from the probed mesh to the desired one.

use vstd::prelude::*;
use vstd::string::{StringExecFns, StringSliceAdditionalSpecFns};
use crate::cli::coold;
use crate::cli::coold::{CooldNamespace, CooldNamespaceView};
use crate::cli::corrosion;
use crate::cli::corrosion::{ConfigInputs, CorrosionFiles};
use crate::cli::firewall;
use crate::cli::meshnet;
use crate::digest;
use crate::keyed;
use crate::keyed::StrMap;
use crate::mesh::action;
use crate::mesh::action::{ActionType, ActionView, Plan, PlannedAction, SkippedView};
use crate::mesh::intent;
use crate::mesh::state;
use crate::mesh::state::{DesiredMesh, FluxConfig, MeshState, Peer, PeerView, ServerState, ServerView};
use crate::mesh::subnet;
use crate::mesh::subnet::{Warning, WarningView};
use crate::mesh::subnet_laws;
use crate::net;
use crate::net::Ipv4Net;
use crate::number;
use crate::text;

verus! {

/// Whether a binary has to be installed: it is absent or of another version, or the
/// version wanted is a moving one.
pub open spec fn drifts(want: Seq<char>, installed: bool, have: Seq<char>) -> bool {
    !installed || have.len() == 0 || want == "nightly"@ || want == "latest"@ || have != want
}

pub fn binary_version_drift(want: &str, installed: bool, have: &str) -> (r: bool)
    ensures
        r == drifts(want@, installed, have@),
{
    !installed || have.is_empty() || text::same(want, "nightly") || text::same(want, "latest")
        || !text::same(have, want)
}

/// Whether the first eight bytes of a key end between two characters.
pub open spec fn truncatable(k: Seq<char>) -> bool {
    let b = vstd::utf8::encode_utf8(k);
    b.len() <= 8 || vstd::utf8::is_char_boundary(b, 8)
}

/// A key cut to its first eight bytes.
pub open spec fn truncated(k: Seq<char>) -> Seq<char> {
    let b = vstd::utf8::encode_utf8(k);
    if b.len() <= 8 {
        k
    } else {
        vstd::utf8::decode_utf8(b.subrange(0, 8)) + "..."@
    }
}

pub fn truncate_key(k: &str) -> (r: String)
    requires
        truncatable(k@),
    ensures
        r@ == truncated(k@),
{
    broadcast use vstd::utf8::encode_utf8_decode_utf8;

    if k.as_bytes().len() <= 8 {
        k.to_owned()
    } else {
        let (head, _): (&str, &str) = k.split_at(8);
        let mut out: String = head.to_owned();
        out.append("...");
        out
    }
}

// ---------------------------------------------------------------------------
// Details
// ---------------------------------------------------------------------------

/// The detail of a configuration that is written.
pub open spec fn config_detail_text(interface: Seq<char>, peers: nat) -> Seq<char> {
    interface
        + ".conf ("@
        + number::decimal(peers)
        + " peer(s))"@
}

/// The detail of a configuration that is written.
fn config_detail(interface: &str, peers: usize) -> (r: String)
    ensures
        r@ == config_detail_text(interface@, peers as nat),
{
    let mut out: String = interface.to_owned();
    out.append(".conf (");
    out.append(number::decimal_of(peers as u64).as_str());
    out.append(" peer(s))");
    out
}

/// The detail of an interface that is brought up.
pub open spec fn enable_detail_text(interface: Seq<char>) -> Seq<char> {
    "systemctl enable --now wg-quick@"@
        + interface
}

/// The detail of an interface that is brought up.
fn enable_detail(interface: &str) -> (r: String)
    ensures
        r@ == enable_detail_text(interface@),
{
    let mut out: String = "systemctl enable --now wg-quick@".to_owned();
    out.append(interface);
    out
}

/// The detail of an interface that is reloaded.
pub open spec fn reload_detail_text(interface: Seq<char>) -> Seq<char> {
    "systemctl reload wg-quick@"@
        + interface
        + " (config changed)"@
}

/// The detail of an interface that is reloaded.
fn reload_detail(interface: &str) -> (r: String)
    ensures
        r@ == reload_detail_text(interface@),
{
    let mut out: String = "systemctl reload wg-quick@".to_owned();
    out.append(interface);
    out.append(" (config changed)");
    out
}

/// The detail of a network that is made.
pub open spec fn network_detail_text(name: Seq<char>, subnet: Ipv4Net, gateway: u32) -> Seq<char> {
    name
        + " subnet="@
        + subnet.cidr()
        + " gateway="@
        + net::dotted(gateway)
}

/// The detail of a network that is made.
fn network_detail(name: &str, subnet: Ipv4Net, gateway: u32) -> (r: String)
    ensures
        r@ == network_detail_text(name@, subnet, gateway),
{
    let mut out: String = name.to_owned();
    out.append(" subnet=");
    out.append(subnet.text().as_str());
    out.append(" gateway=");
    out.append(net::ip_text(gateway).as_str());
    out
}

/// The detail of a network that is made anew.
pub open spec fn drift_detail_text(name: Seq<char>) -> Seq<char> {
    name
        + " — drift"@
}

/// The detail of a network that is made anew.
fn drift_detail(name: &str) -> (r: String)
    ensures
        r@ == drift_detail_text(name@),
{
    let mut out: String = name.to_owned();
    out.append(" — drift");
    out
}

/// The detail of a firewall that is installed.
pub open spec fn firewall_detail_text(interface: Seq<char>, count: nat, deny: Seq<char>) -> Seq<char> {
    "coolify-mesh-fw.service ("@
        + interface
        + ", "@
        + number::decimal(count)
        + " namespace(s), default-deny="@
        + deny
        + ")"@
}

/// The detail of a firewall that is installed.
fn firewall_detail(interface: &str, count: usize, deny: &str) -> (r: String)
    ensures
        r@ == firewall_detail_text(interface@, count as nat, deny@),
{
    let mut out: String = "coolify-mesh-fw.service (".to_owned();
    out.append(interface);
    out.append(", ");
    out.append(number::decimal_of(count as u64).as_str());
    out.append(" namespace(s), default-deny=");
    out.append(deny);
    out.append(")");
    out
}

/// The detail of a Corrosion release that is installed.
pub open spec fn corrosion_detail_text(version: Seq<char>) -> Seq<char> {
    "corrosion "@
        + version
        + " → /usr/local/bin/corrosion"@
}

/// The detail of a Corrosion release that is installed.
fn corrosion_detail(version: &str) -> (r: String)
    ensures
        r@ == corrosion_detail_text(version@),
{
    let mut out: String = "corrosion ".to_owned();
    out.append(version);
    out.append(" → /usr/local/bin/corrosion");
    out
}

/// The detail of a coold release that is installed.
pub open spec fn coold_detail_text(version: Seq<char>) -> Seq<char> {
    "coold "@
        + version
        + " → /usr/local/bin/coold"@
}

/// The detail of a coold release that is installed.
fn coold_detail(version: &str) -> (r: String)
    ensures
        r@ == coold_detail_text(version@),
{
    let mut out: String = "coold ".to_owned();
    out.append(version);
    out.append(" → /usr/local/bin/coold");
    out
}

/// The detail of a Corrosion configuration that is written.
pub open spec fn corrosion_config_detail_text(peers: nat) -> Seq<char> {
    "/etc/corrosion/config.toml (peers="@
        + number::decimal(peers)
        + ")"@
}

/// The detail of a Corrosion configuration that is written.
fn corrosion_config_detail(peers: usize) -> (r: String)
    ensures
        r@ == corrosion_config_detail_text(peers as nat),
{
    let mut out: String = "/etc/corrosion/config.toml (peers=".to_owned();
    out.append(number::decimal_of(peers as u64).as_str());
    out.append(")");
    out
}

/// The detail of a coold service that is installed.
pub open spec fn coold_service_detail_text(mgmt_ip: u32, count: nat) -> Seq<char> {
    "systemctl enable --now coold (mgmt="@
        + net::dotted(mgmt_ip)
        + ", namespaces="@
        + number::decimal(count)
        + ")"@
}

/// The detail of a coold service that is installed.
fn coold_service_detail(mgmt_ip: u32, count: usize) -> (r: String)
    ensures
        r@ == coold_service_detail_text(mgmt_ip, count as nat),
{
    let mut out: String = "systemctl enable --now coold (mgmt=".to_owned();
    out.append(net::ip_text(mgmt_ip).as_str());
    out.append(", namespaces=");
    out.append(number::decimal_of(count as u64).as_str());
    out.append(")");
    out
}

/// The refusal of a node without nftables.
pub open spec fn no_nft_text(host: Seq<char>) -> Seq<char> {
    "host "@
        + host
        + ": nft binary not available; install nftables or pass --skip-default-deny"@
}

/// The refusal of a node without nftables.
fn no_nft(host: &str) -> (r: String)
    ensures
        r@ == no_nft_text(host@),
{
    let mut out: String = "host ".to_owned();
    out.append(host);
    out.append(": nft binary not available; install nftables or pass --skip-default-deny");
    out
}


/// A truth value as text.
pub open spec fn bool_text(b: bool) -> Seq<char> {
    if b {
        "true"@
    } else {
        "false"@
    }
}

fn bool_name(b: bool) -> (r: &'static str)
    ensures
        r@ == bool_text(b),
{
    if b {
        "true"
    } else {
        "false"
    }
}

// ---------------------------------------------------------------------------
// Actions
// ---------------------------------------------------------------------------

/// An action on a host.
pub open spec fn act(host: Seq<char>, ns: Seq<char>, t: ActionType, detail: Seq<char>) -> ActionView {
    ActionView { host, namespace: ns, action_type: t, detail }
}

/// The action, where it is needed.
pub open spec fn when(needed: bool, a: ActionView) -> Seq<ActionView> {
    if needed {
        seq![a]
    } else {
        Seq::empty()
    }
}

fn push(
    actions: &mut Vec<PlannedAction>,
    needed: bool,
    host: &str,
    ns: &str,
    action_type: ActionType,
    detail: &str,
)
    ensures
        action::action_views(final(actions)@) == action::action_views(old(actions)@) + when(
            needed,
            act(host@, ns@, action_type, detail@),
        ),
{
    if needed {
        let a: PlannedAction = PlannedAction {
            host: host.to_owned(),
            namespace: ns.to_owned(),
            action_type,
            detail: detail.to_owned(),
        };
        proof {
            action::action_views_push(actions@, a);
            let v = action::action_views(actions@);
            assert(v.push(a@) =~= v + seq![a@]);
        }
        actions.push(a);
    } else {
        proof {
            let v = action::action_views(actions@);
            assert(v + Seq::<ActionView>::empty() =~= v);
        }
    }
}

/// What is known of a host.
pub open spec fn state_of(cur: Seq<(Seq<char>, ServerView)>, host: Seq<char>) -> ServerView {
    match keyed::lookup(cur, host) {
        Some(s) => s,
        None => state::unknown_server(),
    }
}

/// The public key of a host, empty where it is not known.
pub open spec fn key_of(cur: Seq<(Seq<char>, ServerView)>, host: Seq<char>) -> Seq<char> {
    match keyed::lookup(cur, host) {
        Some(s) => s.public_key,
        None => Seq::empty(),
    }
}

/// The keys that a host has as peers.
pub open spec fn current_keys(peers: Seq<PeerView>) -> Seq<(Seq<char>, ())>
    decreases peers.len(),
{
    if peers.len() == 0 {
        Seq::empty()
    } else {
        keyed::put(current_keys(peers.drop_last()), peers.last().public_key, ())
    }
}

/// The known keys of the other hosts.
pub open spec fn desired_keys(
    hosts: Seq<Seq<char>>,
    cur: Seq<(Seq<char>, ServerView)>,
    host: Seq<char>,
) -> Seq<(Seq<char>, ())>
    decreases hosts.len(),
{
    if hosts.len() == 0 {
        Seq::empty()
    } else {
        let k = desired_keys(hosts.drop_last(), cur, host);
        let p = hosts.last();
        if p != host && key_of(cur, p).len() > 0 {
            keyed::put(k, key_of(cur, p), ())
        } else {
            k
        }
    }
}

/// Whether the key of another host is not known yet.
pub open spec fn key_pending(
    hosts: Seq<Seq<char>>,
    cur: Seq<(Seq<char>, ServerView)>,
    host: Seq<char>,
) -> bool {
    exists|i: int|
        0 <= i < hosts.len() && #[trigger] hosts[i] != host && key_of(cur, hosts[i]).len() == 0
}

/// An action for each key of `a` that `b` lacks, in the order of the keys.
pub open spec fn key_actions(
    a: Seq<(Seq<char>, ())>,
    b: Seq<(Seq<char>, ())>,
    host: Seq<char>,
    t: ActionType,
) -> Seq<ActionView>
    decreases a.len(),
{
    if a.len() == 0 {
        Seq::empty()
    } else {
        key_actions(a.drop_last(), b, host, t) + when(
            keyed::lookup(b, a.last().0) is None,
            act(host, Seq::empty(), t, truncated(a.last().0)),
        )
    }
}

/// Whether `b` lacks a key of `a`.
pub open spec fn lacks(a: Seq<(Seq<char>, ())>, b: Seq<(Seq<char>, ())>) -> bool {
    exists|i: int| 0 <= i < a.len() && keyed::lookup(b, (#[trigger] a[i]).0) is None
}

/// The number of peers of each host.
pub open spec fn peer_count(hosts: Seq<Seq<char>>) -> nat {
    if hosts.len() == 0 {
        0
    } else {
        (hosts.len() - 1) as nat
    }
}

/// Whether the interface configuration of a host has to be written.
pub open spec fn needs_config(
    d: DesiredMesh,
    cur: Seq<(Seq<char>, ServerView)>,
    host: Seq<char>,
    mgmt_ip: u32,
) -> bool {
    let st = state_of(cur, host);
    let hosts = text::views(d.hosts@);
    ||| st.wireguard_mgmt_ip != Some(mgmt_ip)
    ||| lacks(desired_keys(hosts, cur, host), current_keys(st.peers))
    ||| key_pending(hosts, cur, host)
    ||| !st.keys_exist
    ||| !st.installed
    ||| hosts.len() > 1 && st.listen_port != state::port_for(d, host)
}

/// What the interface of a host needs.
pub open spec fn wireguard_actions(
    d: DesiredMesh,
    cur: Seq<(Seq<char>, ServerView)>,
    host: Seq<char>,
    mgmt_ip: u32,
) -> Seq<ActionView> {
    let st = state_of(cur, host);
    let hosts = text::views(d.hosts@);
    let have = current_keys(st.peers);
    let want = desired_keys(hosts, cur, host);
    let none = Seq::<char>::empty();
    let needs = needs_config(d, cur, host, mgmt_ip);
    when(!st.installed, act(host, none, ActionType::InstallWg, "wireguard not installed"@)) + when(
        !st.keys_exist,
        act(host, none, ActionType::GenKeyPair, "missing /etc/wireguard/privatekey"@),
    ) + key_actions(want, have, host, ActionType::AddPeer) + key_actions(
        have,
        want,
        host,
        ActionType::RemovePeer,
    ) + when(
        needs,
        act(
            host,
            none,
            ActionType::WriteConfig,
            config_detail_text(d.interface@, peer_count(hosts)),
        ),
    ) + when(
        !st.active,
        act(host, none, ActionType::EnableService, enable_detail_text(d.interface@)),
    ) + when(
        st.active && needs,
        act(host, none, ActionType::ReloadService, reload_detail_text(d.interface@)),
    )
}

/// The subnet of a host in a namespace.
pub open spec fn subnet_of(
    subnets: Seq<(Seq<char>, Seq<(Seq<char>, Ipv4Net)>)>,
    ns: Seq<char>,
    host: Seq<char>,
) -> Ipv4Net {
    keyed::lookup2(subnets, ns, host)->0
}

/// What the network of one namespace needs on a host.
pub open spec fn network_action(
    st: ServerView,
    want: Ipv4Net,
    host: Seq<char>,
    ns: Seq<char>,
) -> Seq<ActionView> {
    let name = meshnet::podman_network_for_text(ns);
    let create = act(
        host,
        ns,
        ActionType::CreatePodmanNetwork,
        network_detail_text(name, want, (want.base() + 1) as u32),
    );
    match keyed::lookup(st.namespaces, ns) {
        None => seq![create],
        Some(n) => if !n.network_exists {
            seq![create]
        } else {
            when(
                n.dns_enabled || n.container_subnet != Some(want) || n.label != ns,
                act(host, ns, ActionType::RecreatePodmanNetwork, drift_detail_text(name)),
            )
        },
    }
}

/// What the networks of the namespaces need on a host.
pub open spec fn network_actions(
    st: ServerView,
    subnets: Seq<(Seq<char>, Seq<(Seq<char>, Ipv4Net)>)>,
    host: Seq<char>,
    nss: Seq<Seq<char>>,
) -> Seq<ActionView>
    decreases nss.len(),
{
    if nss.len() == 0 {
        Seq::empty()
    } else {
        network_actions(st, subnets, host, nss.drop_last()) + network_action(
            st,
            subnet_of(subnets, nss.last(), host),
            host,
            nss.last(),
        )
    }
}

/// The subnets of a host in the namespaces.
pub open spec fn subnets_of(
    subnets: Seq<(Seq<char>, Seq<(Seq<char>, Ipv4Net)>)>,
    nss: Seq<Seq<char>>,
    host: Seq<char>,
) -> Seq<Ipv4Net> {
    Seq::new(nss.len(), |i: int| subnet_of(subnets, nss[i], host))
}

/// What Podman and the firewall need on a node.
pub open spec fn podman_actions(
    d: DesiredMesh,
    st: ServerView,
    subnets: Seq<(Seq<char>, Seq<(Seq<char>, Ipv4Net)>)>,
    host: Seq<char>,
) -> Seq<ActionView> {
    let nss = keyed::in_order(text::views(d.namespaces@));
    let none = Seq::<char>::empty();
    when(!st.podman_installed, act(host, none, ActionType::InstallPodman, "podman not installed"@))
        + when(
        !st.podman_socket_active,
        act(
            host,
            none,
            ActionType::EnablePodmanSocket,
            "systemctl enable --now podman.socket"@,
        ),
    ) + when(
        !st.ip_forward_enabled,
        act(host, none, ActionType::EnableIpForward, "net.ipv4.ip_forward=1"@),
    ) + network_actions(st, subnets, host, nss) + firewall_action(d, st, subnets, host)
}

/// The firewall of a node, where it is not up, or not as it is wanted.
pub open spec fn firewall_action(
    d: DesiredMesh,
    st: ServerView,
    subnets: Seq<(Seq<char>, Seq<(Seq<char>, Ipv4Net)>)>,
    host: Seq<char>,
) -> Seq<ActionView> {
    let nss = keyed::in_order(text::views(d.namespaces@));
    let deny = d.default_deny_containers;
    let unit = firewall::unit_text(d.interface@, subnets_of(subnets, nss, host), deny);
    when(
        !st.firewall_active || st.default_deny_active != deny || st.firewall_unit_sha256
            != digest::sha256_of(unit),
        act(
            host,
            Seq::empty(),
            ActionType::InstallFirewall,
            firewall_detail_text(d.interface@, nss.len(), bool_text(deny)),
        ),
    )
}

/// The namespaces as coold serves them on a node.
pub open spec fn coold_namespaces(
    subnets: Seq<(Seq<char>, Seq<(Seq<char>, Ipv4Net)>)>,
    nss: Seq<Seq<char>>,
    host: Seq<char>,
) -> Seq<CooldNamespaceView> {
    Seq::new(
        nss.len(),
        |i: int|
            CooldNamespaceView {
                name: nss[i],
                network: meshnet::podman_network_for_text(nss[i]),
                bridge_gateway: (subnet_of(subnets, nss[i], host).base() + 1) as u32,
            },
    )
}

/// What Corrosion and coold need on a node.
pub open spec fn coold_actions(
    d: DesiredMesh,
    st: ServerView,
    mgmt: Seq<(Seq<char>, u32)>,
    subnets: Seq<(Seq<char>, Seq<(Seq<char>, Ipv4Net)>)>,
    files: CorrosionFiles,
    host: Seq<char>,
    mgmt_ip: u32,
) -> Seq<ActionView> {
    let nss = keyed::in_order(text::views(d.namespaces@));
    let none = Seq::<char>::empty();
    let corrosion_drift = drifts(d.corrosion_version@, st.corrosion_installed, st.corrosion_version);
    let coold_drift = drifts(d.coold_version@, st.coold_installed, st.coold_version);
    let config_drift = st.corrosion_config_hash != digest::sha256_of(
        corrosion::config_of(files, d, mgmt, host),
    );
    let schema_drift = st.corrosion_schema_sha256 != digest::sha256_of(files.schema_sql@);
    let served = coold_namespaces(subnets, nss, host);
    let unit = coold::service_unit_text(
        mgmt_ip,
        served,
        state::flux_of(text::opt_view(d.flux_tls_url)),
    );
    let unit_drift = st.coold_unit_sha256 != digest::sha256_of(unit);
    when(
        corrosion_drift,
        act(host, none, ActionType::InstallCorrosion, corrosion_detail_text(d.corrosion_version@)),
    ) + when(
        coold_drift,
        act(host, none, ActionType::InstallCoold, coold_detail_text(d.coold_version@)),
    ) + when(
        config_drift,
        act(
            host,
            none,
            ActionType::WriteCorrosionConfig,
            corrosion_config_detail_text(
                corrosion::peer_ips(text::views(d.nodes@), mgmt, host).len(),
            ),
        ),
    ) + when(
        !st.corrosion_schema_exists || schema_drift,
        act(
            host,
            none,
            ActionType::WriteCorrosionSchema,
            if schema_drift && st.corrosion_schema_sha256.len() > 0 {
                "/etc/corrosion/schemas/coolify.sql [schema drift — DB will be reset]"@
            } else {
                "/etc/corrosion/schemas/coolify.sql"@
            },
        ),
    ) + when(
        !st.corrosion_active || config_drift || corrosion_drift || schema_drift,
        act(
            host,
            none,
            ActionType::InstallCorrosionService,
            "systemctl enable --now corrosion"@,
        ),
    ) + when(
        !st.coold_active || config_drift || coold_drift || unit_drift,
        act(
            host,
            none,
            ActionType::InstallCooldService,
            coold_service_detail_text(mgmt_ip, nss.len()),
        ),
    )
}

/// What a host needs.
pub open spec fn host_actions(
    d: DesiredMesh,
    cur: Seq<(Seq<char>, ServerView)>,
    mgmt: Seq<(Seq<char>, u32)>,
    subnets: Seq<(Seq<char>, Seq<(Seq<char>, Ipv4Net)>)>,
    files: CorrosionFiles,
    host: Seq<char>,
) -> Seq<ActionView> {
    let mgmt_ip = keyed::lookup(mgmt, host)->0;
    let st = state_of(cur, host);
    let node = text::views(d.nodes@).contains(host);
    wireguard_actions(d, cur, host, mgmt_ip) + (if node && d.install_podman {
        podman_actions(d, st, subnets, host)
    } else {
        Seq::empty()
    }) + (if node && d.install_coold {
        coold_actions(d, st, mgmt, subnets, files, host, mgmt_ip)
    } else {
        Seq::empty()
    })
}

/// What the hosts need, in their order.
pub open spec fn all_actions(
    d: DesiredMesh,
    cur: Seq<(Seq<char>, ServerView)>,
    mgmt: Seq<(Seq<char>, u32)>,
    subnets: Seq<(Seq<char>, Seq<(Seq<char>, Ipv4Net)>)>,
    files: CorrosionFiles,
    hosts: Seq<Seq<char>>,
) -> Seq<ActionView>
    decreases hosts.len(),
{
    if hosts.len() == 0 {
        Seq::empty()
    } else {
        all_actions(d, cur, mgmt, subnets, files, hosts.drop_last()) + host_actions(
            d,
            cur,
            mgmt,
            subnets,
            files,
            hosts.last(),
        )
    }
}

/// The first of `nodes[i..]` that is known to lack nftables.
pub open spec fn first_without_nft(
    nodes: Seq<Seq<char>>,
    cur: Seq<(Seq<char>, ServerView)>,
    i: int,
) -> Option<Seq<char>>
    decreases nodes.len() - i,
{
    if i < 0 || i >= nodes.len() {
        None
    } else if keyed::lookup(cur, nodes[i]) is Some && !keyed::lookup(cur, nodes[i])->0.nft_available {
        Some(nodes[i])
    } else {
        first_without_nft(nodes, cur, i + 1)
    }
}

/// Why the desired mesh cannot be planned, before any address is assigned.
pub open spec fn refusal(d: DesiredMesh, cur: Seq<(Seq<char>, ServerView)>) -> Option<Seq<char>> {
    let nodes = text::views(d.nodes@);
    if nodes.len() > 0 && d.default_deny_containers && !d.install_podman {
        Some("--default-deny requires --podman"@)
    } else if nodes.len() > 0 && d.install_coold && !d.install_podman {
        Some("--install-coold requires --podman"@)
    } else if nodes.len() > 0 && d.install_podman && d.namespaces@.len() == 0 {
        Some("at least one namespace is required"@)
    } else if intent::intent_error(d) is Some {
        intent::intent_error(d)
    } else if d.default_deny_containers && first_without_nft(nodes, cur, 0) is Some {
        Some(no_nft_text(first_without_nft(nodes, cur, 0)->0))
    } else {
        None
    }
}

/// What a plan says.
#[verifier::ext_equal]
pub struct PlanView {
    pub actions: Seq<ActionView>,
    pub mgmt: Seq<(Seq<char>, u32)>,
    pub subnets: Seq<(Seq<char>, Seq<(Seq<char>, Ipv4Net)>)>,
    pub warnings: Seq<WarningView>,
    pub skipped: Seq<SkippedView>,
}

impl View for Plan {
    type V = PlanView;

    open spec fn view(&self) -> PlanView {
        PlanView {
            actions: action::action_views(self.actions@),
            mgmt: self.mgmt_assignments@,
            subnets: keyed::nested(self.subnet_assignments@),
            warnings: subnet::warning_views(self.warnings@),
            skipped: action::skipped_views(self.skipped@),
        }
    }
}

/// The management addresses of the mesh.
pub open spec fn mgmt_of(
    d: DesiredMesh,
    cur: Seq<(Seq<char>, ServerView)>,
) -> Result<(Seq<(Seq<char>, u32)>, Seq<WarningView>), Seq<char>> {
    subnet::ip_allocation(d.mgmt_pool, state::assigned_ips(cur), text::views(d.hosts@))
}

/// The container subnets of the mesh.
pub open spec fn containers_of(
    d: DesiredMesh,
    cur: Seq<(Seq<char>, ServerView)>,
) -> Result<(Seq<(Seq<char>, Seq<(Seq<char>, Ipv4Net)>)>, Seq<WarningView>), Seq<char>> {
    subnet::namespaced_allocation(
        d.container_pool,
        d.container_prefix,
        state::assigned_subnets(cur),
        text::views(d.namespaces@),
        text::views(d.nodes@),
    )
}

/// The plan for the desired mesh, or why there is none.
pub open spec fn plan_of(
    d: DesiredMesh,
    cur: Seq<(Seq<char>, ServerView)>,
    files: CorrosionFiles,
) -> Result<PlanView, Seq<char>> {
    if refusal(d, cur) is Some {
        Err(refusal(d, cur)->0)
    } else {
        match mgmt_of(d, cur) {
            Err(e) => Err(e),
            Ok((mgmt, mgmt_warnings)) => match containers_of(d, cur) {
                Err(e) => Err(e),
                Ok((subnets, warnings)) => {
                    let hosts = text::views(d.hosts@);
                    let new = text::views(d.new_nodes@);
                    let all = all_actions(d, cur, mgmt, subnets, files, hosts);
                    Ok(
                        PlanView {
                            actions: intent::kept_actions(all, d.intent, d.allow_replace, new),
                            mgmt,
                            subnets,
                            warnings: mgmt_warnings + warnings,
                            skipped: intent::skipped_actions(
                                all,
                                d.intent,
                                d.allow_replace,
                                new,
                            ),
                        },
                    )
                },
            },
        }
    }
}

/// A plan result by what it says.
pub open spec fn plan_view(r: Result<Plan, String>) -> Result<PlanView, Seq<char>> {
    match r {
        Ok(p) => Ok(p@),
        Err(e) => Err(e@),
    }
}

/// Whether the keys of a mesh can be shown.
pub open spec fn showable(cur: Seq<(Seq<char>, ServerView)>) -> bool {
    forall|i: int|
        0 <= i < cur.len() ==> truncatable((#[trigger] cur[i]).1.public_key) && forall|j: int|
            0 <= j < cur[i].1.peers.len() ==> truncatable(
                (#[trigger] cur[i].1.peers[j]).public_key,
            )
}

/// Whether a node has its subnet below the highest address.
pub open spec fn below_highest(
    subnets: Seq<(Seq<char>, Seq<(Seq<char>, Ipv4Net)>)>,
    ns: Seq<char>,
    host: Seq<char>,
) -> bool {
    subnet_of(subnets, ns, host).base() < u32::MAX
}

/// Whether the network of a namespace stands on a host.
pub open spec fn network_stands(st: ServerView, ns: Seq<char>) -> bool {
    keyed::lookup(st.namespaces, ns) matches Some(n) && n.network_exists
}

/// Whether a plan tells the gateway of a node in a namespace: where coold serves it, or where
/// its network has to be made.
pub open spec fn tells_gateway(
    d: DesiredMesh,
    cur: Seq<(Seq<char>, ServerView)>,
    ns: Seq<char>,
    host: Seq<char>,
) -> bool {
    text::views(d.hosts@).contains(host) && (d.install_coold || (d.install_podman
        && !network_stands(state_of(cur, host), ns)))
}

/// Whether no node whose gateway a plan tells gets its container subnet at the highest address,
/// where it would have none.
pub open spec fn has_gateways(d: DesiredMesh, cur: Seq<(Seq<char>, ServerView)>) -> bool {
    containers_of(d, cur) matches Ok(x) ==> forall|ns: Seq<char>, host: Seq<char>|
        text::views(d.namespaces@).contains(ns) && text::views(d.nodes@).contains(host)
            && tells_gateway(d, cur, ns, host) ==> #[trigger] below_highest(x.0, ns, host)
}

/// Whether a gateway is there wherever the plan for the desired mesh tells one: a mesh that is
/// refused has no plan.
pub open spec fn gateways_told(d: DesiredMesh, cur: Seq<(Seq<char>, ServerView)>) -> bool {
    refusal(d, cur) is None && mgmt_of(d, cur) is Ok ==> has_gateways(d, cur)
}

/// Subnets of more than one address have gateways, and so have those of a pool that ends below
/// the highest address.
pub proof fn gateways_exist(d: DesiredMesh, cur: Seq<(Seq<char>, ServerView)>)
    requires
        d.container_prefix == 32 ==> d.container_pool.top() < u32::MAX,
    ensures
        gateways_told(d, cur),
        containers_of(d, cur) matches Ok(x) ==> forall|host: Seq<char>| #[trigger]
            text::views(d.nodes@).contains(host) ==> served(
                x.0,
                keyed::in_order(text::views(d.namespaces@)),
                host,
            ),
{
    if containers_of(d, cur) is Ok {
        let names = text::views(d.namespaces@);
        let nodes = text::views(d.nodes@);
        let sub = containers_of(d, cur)->Ok_0.0;
        let flat_in = subnet::flattened(state::assigned_subnets(cur), names, nodes);
        let all = subnet::all_keys(names, nodes);
        let flat = subnet::allocation(d.container_pool, d.container_prefix, flat_in, all)->Ok_0.0;
        assert forall|ns: Seq<char>, host: Seq<char>|
            names.contains(ns) && nodes.contains(host) implies #[trigger] below_highest(
            sub,
            ns,
            host,
        ) by {
            grouped_lookup(flat, names, nodes, ns, host);
            subnet::all_keys_contains(names, nodes, ns, host);
            subnet::allocation_covers(
                d.container_pool,
                d.container_prefix,
                flat_in,
                all,
                subnet::pair_key(ns, host),
            );
            subnet_laws::allocated_below_top(
                d.container_pool,
                d.container_prefix,
                flat_in,
                all,
                subnet::pair_key(ns, host),
            );
        }
        let sorted = keyed::in_order(names);
        assert forall|host: Seq<char>| #[trigger] nodes.contains(host) implies served(
            sub,
            sorted,
            host,
        ) by {
            nodes_allotted(d, cur, host);
            assert forall|i: int| 0 <= i < sorted.len() implies below_highest(
                sub,
                #[trigger] sorted[i],
                host,
            ) by {
                assert(sorted.contains(sorted[i]));
                keyed::in_order_contains(names, sorted[i]);
            }
        }
    }
}

/// Whether no node whose gateway a plan tells gets its subnet of a namespace at the highest
/// address.
spec fn namespace_fits(
    d: DesiredMesh,
    cur: Seq<(Seq<char>, ServerView)>,
    subnets: Seq<(Seq<char>, Seq<(Seq<char>, Ipv4Net)>)>,
    ns: Seq<char>,
) -> bool {
    let nodes = text::views(d.nodes@);
    forall|b: int|
        0 <= b < nodes.len() && tells_gateway(d, cur, ns, #[trigger] nodes[b]) ==> below_highest(
            subnets,
            ns,
            nodes[b],
        )
}

/// Tells whether a plan tells the gateway of a node in a namespace.
fn gateway_is_told(desired: &DesiredMesh, current: &MeshState, ns: &str, host: &str) -> (r: bool)
    ensures
        r == tells_gateway(*desired, current@, ns@, host@),
{
    proof {
        state::server_views_lookup(current.servers@, host@);
    }
    let stands: bool = match current.servers.get(host) {
        Some(st) => {
            proof {
                state::namespace_views_lookup(st.namespaces@, ns@);
            }
            match st.namespaces.get(ns) {
                Some(n) => n.network_exists,
                None => false,
            }
        },
        None => false,
    };
    text::has_string(&desired.hosts, host) && (desired.install_coold || (desired.install_podman
        && !stands))
}

fn check_namespace(
    desired: &DesiredMesh,
    current: &MeshState,
    subnets: &StrMap<StrMap<Ipv4Net>>,
    ns: &str,
) -> (r: bool)
    requires
        forall|b: int|
            0 <= b < desired.nodes@.len() ==> keyed::lookup2(
                keyed::nested(subnets@),
                ns@,
                (#[trigger] desired.nodes@[b])@,
            ) is Some,
    ensures
        r == namespace_fits(*desired, current@, keyed::nested(subnets@), ns@),
{
    let ghost hosts = text::views(desired.nodes@);
    let ghost sub = keyed::nested(subnets@);
    let mut j: usize = 0;
    while j < desired.nodes.len()
        invariant
            j <= desired.nodes@.len(),
            hosts == text::views(desired.nodes@),
            sub == keyed::nested(subnets@),
            forall|b: int|
                0 <= b < desired.nodes@.len() ==> keyed::lookup2(
                    sub,
                    ns@,
                    (#[trigger] desired.nodes@[b])@,
                ) is Some,
            forall|b: int|
                0 <= b < j && tells_gateway(*desired, current@, ns@, #[trigger] hosts[b])
                    ==> below_highest(sub, ns@, hosts[b]),
        decreases desired.nodes@.len() - j,
    {
        let host: &str = desired.nodes[j].as_str();
        proof {
            assert(hosts[j as int] == host@);
        }
        if let Some(n) = host_subnet(subnets, ns, host) {
            if n.network() == u32::MAX && gateway_is_told(desired, current, ns, host) {
                proof {
                    assert(!below_highest(sub, ns@, hosts[j as int]));
                }
                return false;
            }
        }
        j = j + 1;
    }
    true
}

/// The nodes have gateways where they have them in each namespace; and each has a subnet there.
proof fn namespaces_fit(d: DesiredMesh, cur: Seq<(Seq<char>, ServerView)>)
    requires
        containers_of(d, cur) is Ok,
    ensures
        ({
            let names = text::views(d.namespaces@);
            let nodes = text::views(d.nodes@);
            let sub = containers_of(d, cur)->Ok_0.0;
            &&& has_gateways(d, cur) == all_fit(d, cur, sub)
            &&& forall|a: int, b: int|
                0 <= a < names.len() && 0 <= b < nodes.len() ==> keyed::lookup2(
                    sub,
                    #[trigger] names[a],
                    #[trigger] nodes[b],
                ) is Some
        }),
{
    let names = text::views(d.namespaces@);
    let nodes = text::views(d.nodes@);
    let sub = containers_of(d, cur)->Ok_0.0;
    let fits = has_gateways(d, cur);
    assert forall|a: int, b: int|
        0 <= a < names.len() && 0 <= b < nodes.len() implies keyed::lookup2(
        sub,
        #[trigger] names[a],
        #[trigger] nodes[b],
    ) is Some by {
        container_is_known(d, cur, names[a], nodes[b]);
    }
    if all_fit(d, cur, sub) {
        assert forall|ns: Seq<char>, host: Seq<char>|
            names.contains(ns) && nodes.contains(host) && tells_gateway(
                d,
                cur,
                ns,
                host,
            ) implies #[trigger] below_highest(sub, ns, host) by {
            let a = choose|a: int| 0 <= a < names.len() && names[a] == ns;
            let b = choose|b: int| 0 <= b < nodes.len() && nodes[b] == host;
            assert(namespace_fits(d, cur, sub, names[a]));
            assert(below_highest(sub, ns, nodes[b]));
        }
        assert(fits);
    }
    if fits {
        assert forall|a: int| 0 <= a < names.len() implies namespace_fits(
            d,
            cur,
            sub,
            #[trigger] names[a],
        ) by {
            assert(names.contains(names[a]));
            assert forall|b: int|
                0 <= b < nodes.len() && tells_gateway(
                    d,
                    cur,
                    names[a],
                    #[trigger] nodes[b],
                ) implies below_highest(sub, names[a], nodes[b]) by {
                assert(nodes.contains(nodes[b]));
            }
        }
    }
}

/// Whether no namespace has a node whose gateway a plan tells at the highest address.
spec fn all_fit(
    d: DesiredMesh,
    cur: Seq<(Seq<char>, ServerView)>,
    subnets: Seq<(Seq<char>, Seq<(Seq<char>, Ipv4Net)>)>,
) -> bool {
    let names = text::views(d.namespaces@);
    forall|a: int|
        0 <= a < names.len() ==> namespace_fits(d, cur, subnets, #[trigger] names[a])
}

fn check_namespaces(
    desired: &DesiredMesh,
    current: &MeshState,
    subnets: &StrMap<StrMap<Ipv4Net>>,
) -> (r: bool)
    requires
        forall|a: int, b: int|
            0 <= a < desired.namespaces@.len() && 0 <= b < desired.nodes@.len() ==> keyed::lookup2(
                keyed::nested(subnets@),
                (#[trigger] desired.namespaces@[a])@,
                (#[trigger] desired.nodes@[b])@,
            ) is Some,
    ensures
        r == all_fit(*desired, current@, keyed::nested(subnets@)),
{
    let ghost names = text::views(desired.namespaces@);
    let ghost sub = keyed::nested(subnets@);
    let mut i: usize = 0;
    while i < desired.namespaces.len()
        invariant
            i <= desired.namespaces@.len(),
            names == text::views(desired.namespaces@),
            sub == keyed::nested(subnets@),
            forall|a: int, b: int|
                0 <= a < desired.namespaces@.len() && 0 <= b < desired.nodes@.len()
                    ==> keyed::lookup2(
                    sub,
                    (#[trigger] desired.namespaces@[a])@,
                    (#[trigger] desired.nodes@[b])@,
                ) is Some,
            forall|a: int|
                0 <= a < i ==> namespace_fits(*desired, current@, sub, #[trigger] names[a]),
        decreases desired.namespaces@.len() - i,
    {
        let ns: &str = desired.namespaces[i].as_str();
        proof {
            assert(names[i as int] == ns@);
        }
        if !check_namespace(desired, current, subnets, ns) {
            return false;
        }
        i = i + 1;
    }
    true
}

fn check_gateways(desired: &DesiredMesh, current: &MeshState) -> (r: bool)
    ensures
        r == has_gateways(*desired, current@),
{
    let subnets: StrMap<StrMap<Ipv4Net>> = match subnet::allocate_namespaced(
        desired.container_pool,
        desired.container_prefix,
        &current.assigned_container_subnets(),
        &desired.namespaces,
        &desired.nodes,
    ) {
        Ok((m, _)) => m,
        Err(_) => return true,
    };
    proof {
        namespaces_fit(*desired, current@);
        let names = text::views(desired.namespaces@);
        let nodes = text::views(desired.nodes@);
        assert forall|a: int, b: int|
            0 <= a < desired.namespaces@.len() && 0 <= b < desired.nodes@.len()
                implies keyed::lookup2(
            keyed::nested(subnets@),
            (#[trigger] desired.namespaces@[a])@,
            (#[trigger] desired.nodes@[b])@,
        ) is Some by {
            assert(names[a] == desired.namespaces@[a]@);
            assert(nodes[b] == desired.nodes@[b]@);
        }
    }
    check_namespaces(desired, current, &subnets)
}

/// Tells whether a gateway is there wherever the plan tells one.
pub fn plan_fits(desired: &DesiredMesh, current: &MeshState) -> (r: bool)
    ensures
        r == gateways_told(*desired, current@),
{
    if refuse(desired, current).is_some() {
        return true;
    }
    match subnet::allocate_mgmt_ips(
        desired.mgmt_pool,
        &current.assigned_mgmt_ips(),
        &desired.hosts,
    ) {
        Ok(_) => check_gateways(desired, current),
        Err(_) => true,
    }
}

/// Every node has a subnet in every namespace.
proof fn container_is_known(
    d: DesiredMesh,
    cur: Seq<(Seq<char>, ServerView)>,
    ns: Seq<char>,
    host: Seq<char>,
)
    requires
        containers_of(d, cur) is Ok,
        text::views(d.namespaces@).contains(ns),
        text::views(d.nodes@).contains(host),
    ensures
        keyed::lookup2(containers_of(d, cur)->Ok_0.0, ns, host) is Some,
{
    let names = text::views(d.namespaces@);
    let nodes = text::views(d.nodes@);
    let flat_in = subnet::flattened(state::assigned_subnets(cur), names, nodes);
    let all = subnet::all_keys(names, nodes);
    let flat = subnet::allocation(d.container_pool, d.container_prefix, flat_in, all)->Ok_0.0;
    grouped_lookup(flat, names, nodes, ns, host);
    subnet::all_keys_contains(names, nodes, ns, host);
    subnet::allocation_covers(
        d.container_pool,
        d.container_prefix,
        flat_in,
        all,
        subnet::pair_key(ns, host),
    );
}

// ---------------------------------------------------------------------------
// Planning
// ---------------------------------------------------------------------------

proof fn current_keys_show(peers: Seq<PeerView>)
    requires
        forall|j: int| 0 <= j < peers.len() ==> truncatable((#[trigger] peers[j]).public_key),
    ensures
        forall|i: int|
            0 <= i < current_keys(peers).len() ==> truncatable((#[trigger] current_keys(peers)[i]).0),
    decreases peers.len(),
{
    if peers.len() > 0 {
        let t = peers.drop_last();
        assert forall|j: int| 0 <= j < t.len() implies truncatable(
            (#[trigger] t[j]).public_key,
        ) by {
            assert(t[j] == peers[j]);
        }
        current_keys_show(t);
        let k = current_keys(t);
        let last = peers.last().public_key;
        assert(truncatable(peers[peers.len() - 1].public_key));
        keyed::put_entries(k, last, ());
        let p = keyed::put(k, last, ());
        assert forall|i: int| 0 <= i < p.len() implies truncatable((#[trigger] p[i]).0) by {
            if p[i].0 != last {
                let j = choose|j: int| 0 <= j < k.len() && k[j] == p[i];
                assert(truncatable(k[j].0));
            }
        }
    }
}

proof fn known_key_shows(cur: Seq<(Seq<char>, ServerView)>, host: Seq<char>)
    requires
        showable(cur),
    ensures
        truncatable(key_of(cur, host)),
        forall|j: int|
            0 <= j < state_of(cur, host).peers.len() ==> truncatable(
                (#[trigger] state_of(cur, host).peers[j]).public_key,
            ),
    decreases cur.len(),
{
    if cur.len() > 0 {
        if cur[0].0 == host {
            assert(truncatable(cur[0].1.public_key));
            assert forall|j: int| 0 <= j < cur[0].1.peers.len() implies truncatable(
                (#[trigger] cur[0].1.peers[j]).public_key,
            ) by {}
        } else {
            let t = cur.drop_first();
            assert forall|i: int| 0 <= i < t.len() implies truncatable(
                (#[trigger] t[i]).1.public_key,
            ) && forall|j: int|
                0 <= j < t[i].1.peers.len() ==> truncatable(
                    (#[trigger] t[i].1.peers[j]).public_key,
                ) by {
                assert(t[i] == cur[i + 1]);
                assert(truncatable(cur[i + 1].1.public_key));
            }
            known_key_shows(t, host);
        }
    } else {
        let empty = Seq::<char>::empty();
        assert(vstd::utf8::encode_utf8(empty).len() == 0);
    }
}

proof fn desired_keys_show(
    hosts: Seq<Seq<char>>,
    cur: Seq<(Seq<char>, ServerView)>,
    host: Seq<char>,
)
    requires
        showable(cur),
    ensures
        forall|i: int|
            0 <= i < desired_keys(hosts, cur, host).len() ==> truncatable(
                (#[trigger] desired_keys(hosts, cur, host)[i]).0,
            ),
    decreases hosts.len(),
{
    if hosts.len() > 0 {
        desired_keys_show(hosts.drop_last(), cur, host);
        known_key_shows(cur, hosts.last());
        let k = desired_keys(hosts.drop_last(), cur, host);
        let last = key_of(cur, hosts.last());
        keyed::put_entries(k, last, ());
        let p = keyed::put(k, last, ());
        assert forall|i: int| 0 <= i < p.len() implies truncatable((#[trigger] p[i]).0) by {
            if p[i].0 != last {
                let j = choose|j: int| 0 <= j < k.len() && k[j] == p[i];
                assert(truncatable(k[j].0));
            }
        }
    }
}

fn current_key_set(peers: &Vec<Peer>) -> (r: StrMap<()>)
    ensures
        r@ == current_keys(state::peer_views(peers@)),
{
    let ghost ps = state::peer_views(peers@);
    let mut out: StrMap<()> = StrMap::new();
    let mut i: usize = 0;
    proof {
        assert(ps.take(0) =~= Seq::empty());
    }
    while i < peers.len()
        invariant
            i <= peers@.len(),
            ps == state::peer_views(peers@),
            out@ == current_keys(ps.take(i as int)),
        decreases peers@.len() - i,
    {
        proof {
            assert(ps.take(i + 1).drop_last() =~= ps.take(i as int));
            assert(ps.take(i + 1).last() == peers@[i as int]@);
        }
        out.insert(peers[i].public_key.clone(), ());
        i = i + 1;
    }
    proof {
        assert(ps.take(i as int) =~= ps);
    }
    out
}

/// The public key of a host, empty where it is not known.
pub fn known_key(current: &MeshState, host: &str) -> (r: String)
    ensures
        r@ == key_of(current@, host@),
{
    proof {
        state::server_views_lookup(current.servers@, host@);
    }
    match current.servers.get(host) {
        Some(s) => s.public_key.clone(),
        None => String::new(),
    }
}

fn desired_key_set(hosts: &Vec<String>, current: &MeshState, host: &str) -> (r: StrMap<()>)
    ensures
        r@ == desired_keys(text::views(hosts@), current@, host@),
{
    let ghost hs = text::views(hosts@);
    let mut out: StrMap<()> = StrMap::new();
    let mut i: usize = 0;
    proof {
        assert(hs.take(0) =~= Seq::empty());
    }
    while i < hosts.len()
        invariant
            i <= hosts@.len(),
            hs == text::views(hosts@),
            out@ == desired_keys(hs.take(i as int), current@, host@),
        decreases hosts@.len() - i,
    {
        let p: &String = &hosts[i];
        proof {
            assert(hs.take(i + 1).drop_last() =~= hs.take(i as int));
            assert(hs.take(i + 1).last() == p@);
        }
        if !text::same(p.as_str(), host) {
            let key: String = known_key(current, p.as_str());
            if !key.as_str().is_empty() {
                out.insert(key, ());
            }
        }
        i = i + 1;
    }
    proof {
        assert(hs.take(i as int) =~= hs);
    }
    out
}

fn peer_key_pending(hosts: &Vec<String>, current: &MeshState, host: &str) -> (r: bool)
    ensures
        r == key_pending(text::views(hosts@), current@, host@),
{
    let ghost hs = text::views(hosts@);
    let mut i: usize = 0;
    while i < hosts.len()
        invariant
            i <= hosts@.len(),
            hs == text::views(hosts@),
            forall|j: int|
                0 <= j < i ==> !(#[trigger] hs[j] != host@ && key_of(current@, hs[j]).len() == 0),
        decreases hosts@.len() - i,
    {
        let p: &String = &hosts[i];
        proof {
            assert(hs[i as int] == p@);
        }
        if !text::same(p.as_str(), host) && known_key(current, p.as_str()).as_str().is_empty() {
            return true;
        }
        i = i + 1;
    }
    false
}

fn lacks_key(a: &StrMap<()>, b: &StrMap<()>) -> (r: bool)
    ensures
        r == lacks(a@, b@),
{
    let mut i: usize = 0;
    while i < a.len()
        invariant
            i <= a@.len(),
            forall|j: int| 0 <= j < i ==> keyed::lookup(b@, (#[trigger] a@[j]).0) is Some,
        decreases a@.len() - i,
    {
        if !b.contains_key(a.key(i).as_str()) {
            proof {
                assert(keyed::lookup(b@, a@[i as int].0) is None);
            }
            return true;
        }
        i = i + 1;
    }
    false
}

fn push_keys(
    actions: &mut Vec<PlannedAction>,
    a: &StrMap<()>,
    b: &StrMap<()>,
    host: &str,
    t: ActionType,
)
    requires
        forall|i: int| 0 <= i < a@.len() ==> truncatable((#[trigger] a@[i]).0),
    ensures
        action::action_views(final(actions)@) == action::action_views(old(actions)@) + key_actions(
            a@,
            b@,
            host@,
            t,
        ),
{
    let ghost before = action::action_views(actions@);
    let mut i: usize = 0;
    proof {
        assert(a@.take(0) =~= Seq::empty());
        assert(before + Seq::<ActionView>::empty() =~= before);
    }
    while i < a.len()
        invariant
            i <= a@.len(),
            forall|j: int| 0 <= j < a@.len() ==> truncatable((#[trigger] a@[j]).0),
            before == action::action_views(old(actions)@),
            action::action_views(actions@) == before + key_actions(a@.take(i as int), b@, host@, t),
        decreases a@.len() - i,
    {
        proof {
            assert(a@.take(i + 1).drop_last() =~= a@.take(i as int));
            assert(truncatable(a@[i as int].0));
        }
        let key: &String = a.key(i);
        let needed: bool = !b.contains_key(key.as_str());
        push(actions, needed, host, "", t, truncate_key(key.as_str()).as_str());
        proof {
            reveal_strlit("");
            assert(""@ =~= Seq::<char>::empty());
            let head = key_actions(a@.take(i as int), b@, host@, t);
            let one = when(needed, act(host@, Seq::empty(), t, truncated(key@)));
            assert((before + head) + one =~= before + (head + one));
        }
        i = i + 1;
    }
    proof {
        assert(a@.take(i as int) =~= a@);
    }
}

fn plan_wireguard(
    actions: &mut Vec<PlannedAction>,
    desired: &DesiredMesh,
    current: &MeshState,
    st: &ServerState,
    host: &str,
    mgmt_ip: u32,
)
    requires
        showable(current@),
        st@ == state_of(current@, host@),
    ensures
        action::action_views(final(actions)@) == action::action_views(old(actions)@)
            + wireguard_actions(*desired, current@, host@, mgmt_ip),
{
    let ghost v0 = action::action_views(actions@);
    proof {
        reveal_strlit("");
        assert(""@ =~= Seq::<char>::empty());
        known_key_shows(current@, host@);
        current_keys_show(st@.peers);
        desired_keys_show(text::views(desired.hosts@), current@, host@);
    }
    push(actions, !st.installed, host, "", ActionType::InstallWg, "wireguard not installed");
    push(
        actions,
        !st.keys_exist,
        host,
        "",
        ActionType::GenKeyPair,
        "missing /etc/wireguard/privatekey",
    );
    let have: StrMap<()> = current_key_set(&st.peers);
    let want: StrMap<()> = desired_key_set(&desired.hosts, current, host);
    push_keys(actions, &want, &have, host, ActionType::AddPeer);
    push_keys(actions, &have, &want, host, ActionType::RemovePeer);
    let mismatch: bool = match st.wireguard_mgmt_ip {
        Some(ip) => ip != mgmt_ip,
        None => true,
    };
    let pending: bool = peer_key_pending(&desired.hosts, current, host);
    let needs: bool = mismatch || lacks_key(&want, &have) || pending || !st.keys_exist
        || !st.installed || (desired.hosts.len() > 1 && st.listen_port != desired.listen_port_for(
        host,
    ));
    let count: usize = if desired.hosts.len() == 0 {
        0
    } else {
        desired.hosts.len() - 1
    };
    push(
        actions,
        needs,
        host,
        "",
        ActionType::WriteConfig,
        config_detail(desired.interface.as_str(), count).as_str(),
    );
    push(
        actions,
        !st.active,
        host,
        "",
        ActionType::EnableService,
        enable_detail(desired.interface.as_str()).as_str(),
    );
    push(
        actions,
        st.active && needs,
        host,
        "",
        ActionType::ReloadService,
        reload_detail(desired.interface.as_str()).as_str(),
    );
    proof {
        let none = Seq::<char>::empty();
        regroup_seven(
            v0,
            when(
                !st.installed,
                act(host@, none, ActionType::InstallWg, "wireguard not installed"@),
            ),
            when(
                !st.keys_exist,
                act(host@, none, ActionType::GenKeyPair, "missing /etc/wireguard/privatekey"@),
            ),
            key_actions(want@, have@, host@, ActionType::AddPeer),
            key_actions(have@, want@, host@, ActionType::RemovePeer),
            when(
                needs,
                act(
                    host@,
                    none,
                    ActionType::WriteConfig,
                    config_detail_text(desired.interface@, count as nat),
                ),
            ),
            when(
                !st.active,
                act(
                    host@,
                    none,
                    ActionType::EnableService,
                    enable_detail_text(desired.interface@),
                ),
            ),
            when(
                st.active && needs,
                act(
                    host@,
                    none,
                    ActionType::ReloadService,
                    reload_detail_text(desired.interface@),
                ),
            ),
        );
    }
}

/// Whether a host has a subnet in each of the namespaces.
pub open spec fn allotted(
    subnets: Seq<(Seq<char>, Seq<(Seq<char>, Ipv4Net)>)>,
    nss: Seq<Seq<char>>,
    host: Seq<char>,
) -> bool {
    forall|i: int| 0 <= i < nss.len() ==> keyed::lookup2(subnets, #[trigger] nss[i], host) is Some
}

/// Whether a host has a gateway in each of the namespaces whose network has to be made.
pub open spec fn creatable(
    st: ServerView,
    subnets: Seq<(Seq<char>, Seq<(Seq<char>, Ipv4Net)>)>,
    nss: Seq<Seq<char>>,
    host: Seq<char>,
) -> bool {
    forall|i: int|
        0 <= i < nss.len() && !network_stands(st, #[trigger] nss[i]) ==> below_highest(
            subnets,
            nss[i],
            host,
        )
}

/// Whether a host has a subnet with a gateway in each of the namespaces.
pub open spec fn served(
    subnets: Seq<(Seq<char>, Seq<(Seq<char>, Ipv4Net)>)>,
    nss: Seq<Seq<char>>,
    host: Seq<char>,
) -> bool {
    forall|i: int|
        0 <= i < nss.len() ==> keyed::lookup2(subnets, #[trigger] nss[i], host) is Some
            && subnet_of(subnets, nss[i], host).base() < u32::MAX
}

/// The subnet of a host in a namespace.
pub fn host_subnet(subnets: &StrMap<StrMap<Ipv4Net>>, ns: &str, host: &str) -> (r: Option<Ipv4Net>)
    ensures
        r == keyed::lookup2(keyed::nested(subnets@), ns@, host@),
{
    proof {
        keyed::nested_lookup(subnets@, ns@);
    }
    match subnets.get(ns) {
        Some(m) => match m.get(host) {
            Some(n) => Some(*n),
            None => None,
        },
        None => None,
    }
}

fn plan_networks(
    actions: &mut Vec<PlannedAction>,
    st: &ServerState,
    subnets: &StrMap<StrMap<Ipv4Net>>,
    host: &str,
    nss: &Vec<String>,
)
    requires
        allotted(keyed::nested(subnets@), text::views(nss@), host@),
        creatable(st@, keyed::nested(subnets@), text::views(nss@), host@),
    ensures
        action::action_views(final(actions)@) == action::action_views(old(actions)@)
            + network_actions(st@, keyed::nested(subnets@), host@, text::views(nss@)),
{
    let ghost before = action::action_views(actions@);
    let ghost sub = keyed::nested(subnets@);
    let ghost names = text::views(nss@);
    let mut i: usize = 0;
    proof {
        assert(names.take(0) =~= Seq::empty());
        assert(before + Seq::<ActionView>::empty() =~= before);
    }
    while i < nss.len()
        invariant
            i <= nss@.len(),
            sub == keyed::nested(subnets@),
            names == text::views(nss@),
            allotted(sub, names, host@),
            creatable(st@, sub, names, host@),
            before == action::action_views(old(actions)@),
            action::action_views(actions@) == before + network_actions(
                st@,
                sub,
                host@,
                names.take(i as int),
            ),
        decreases nss@.len() - i,
    {
        let ns: &String = &nss[i];
        let ghost head = network_actions(st@, sub, host@, names.take(i as int));
        proof {
            assert(names.take(i + 1).drop_last() =~= names.take(i as int));
            assert(names.take(i + 1).last() == ns@);
            assert(names[i as int] == ns@);
            state::namespace_views_lookup(st.namespaces@, ns@);
        }
        if let Some(want) = host_subnet(subnets, ns.as_str(), host) {
            let name: String = meshnet::podman_network_for(ns.as_str());
            let exists: bool = match st.namespaces.get(ns.as_str()) {
                Some(n) => n.network_exists,
                None => false,
            };
            let drift: bool = match st.namespaces.get(ns.as_str()) {
                Some(n) => {
                    let other: bool = match n.container_subnet {
                        Some(have) => have != want,
                        None => true,
                    };
                    n.dns_enabled || other || !text::same(n.label.as_str(), ns.as_str())
                },
                None => false,
            };
            if !exists {
                push(
                    actions,
                    true,
                    host,
                    ns.as_str(),
                    ActionType::CreatePodmanNetwork,
                    network_detail(name.as_str(), want, subnet::machine_ip(want)).as_str(),
                );
            }
            push(
                actions,
                exists && drift,
                host,
                ns.as_str(),
                ActionType::RecreatePodmanNetwork,
                drift_detail(name.as_str()).as_str(),
            );
            proof {
                let one = network_action(st@, want, host@, ns@);
                assert(action::action_views(actions@) =~= before + (head + one));
            }
        }
        i = i + 1;
    }
    proof {
        assert(names.take(i as int) =~= names);
    }
}

/// The subnets of a host in the namespaces.
pub fn host_subnets(
    subnets: &StrMap<StrMap<Ipv4Net>>,
    nss: &Vec<String>,
    host: &str,
) -> (r: Vec<Ipv4Net>)
    requires
        allotted(keyed::nested(subnets@), text::views(nss@), host@),
    ensures
        r@ == subnets_of(keyed::nested(subnets@), text::views(nss@), host@),
{
    let ghost sub = keyed::nested(subnets@);
    let ghost names = text::views(nss@);
    let mut out: Vec<Ipv4Net> = Vec::new();
    let mut i: usize = 0;
    while i < nss.len()
        invariant
            i <= nss@.len(),
            sub == keyed::nested(subnets@),
            names == text::views(nss@),
            allotted(sub, names, host@),
            out@.len() == i,
            forall|j: int| 0 <= j < i ==> out@[j] == subnet_of(sub, names[j], host@),
        decreases nss@.len() - i,
    {
        proof {
            assert(names[i as int] == nss@[i as int]@);
        }
        if let Some(n) = host_subnet(subnets, nss[i].as_str(), host) {
            out.push(n);
        }
        i = i + 1;
    }
    proof {
        assert(out@ =~= subnets_of(sub, names, host@));
    }
    out
}

fn plan_firewall(
    actions: &mut Vec<PlannedAction>,
    desired: &DesiredMesh,
    st: &ServerState,
    subnets: &StrMap<StrMap<Ipv4Net>>,
    host: &str,
    nss: &Vec<String>,
)
    requires
        allotted(keyed::nested(subnets@), text::views(nss@), host@),
        text::views(nss@) == keyed::in_order(text::views(desired.namespaces@)),
    ensures
        action::action_views(final(actions)@) == action::action_views(old(actions)@)
            + firewall_action(*desired, st@, keyed::nested(subnets@), host@),
{
    proof {
        reveal_strlit("");
        assert(""@ =~= Seq::<char>::empty());
    }
    let nets: Vec<Ipv4Net> = host_subnets(subnets, nss, host);
    let expected: String = firewall::firewall_service_unit(
        desired.interface.as_str(),
        nss,
        &nets,
        desired.default_deny_containers,
    );
    let digest: String = digest::sha256_hex(expected.as_str());
    let drift: bool = !st.firewall_active || st.default_deny_active
        != desired.default_deny_containers || !text::same(
        st.firewall_unit_sha256.as_str(),
        digest.as_str(),
    );
    push(
        actions,
        drift,
        host,
        "",
        ActionType::InstallFirewall,
        firewall_detail(
            desired.interface.as_str(),
            nets.len(),
            bool_name(desired.default_deny_containers),
        ).as_str(),
    );
}

proof fn five_parts(
    v: Seq<ActionView>,
    a: Seq<ActionView>,
    b: Seq<ActionView>,
    c: Seq<ActionView>,
    d: Seq<ActionView>,
    e: Seq<ActionView>,
)
    ensures
        v + a + b + c + d + e == v + (a + b + c + d + e),
{
    assert(v + a + b + c + d + e =~= v + (a + b + c + d + e));
}

fn plan_podman(
    actions: &mut Vec<PlannedAction>,
    desired: &DesiredMesh,
    st: &ServerState,
    subnets: &StrMap<StrMap<Ipv4Net>>,
    host: &str,
)
    requires
        allotted(
            keyed::nested(subnets@),
            keyed::in_order(text::views(desired.namespaces@)),
            host@,
        ),
        creatable(
            st@,
            keyed::nested(subnets@),
            keyed::in_order(text::views(desired.namespaces@)),
            host@,
        ),
    ensures
        action::action_views(final(actions)@) == action::action_views(old(actions)@)
            + podman_actions(*desired, st@, keyed::nested(subnets@), host@),
{
    proof {
        let none = Seq::<char>::empty();
        reveal_strlit("");
        assert(""@ =~= none);
        five_parts(
            action::action_views(actions@),
            when(
                !st.podman_installed,
                act(host@, none, ActionType::InstallPodman, "podman not installed"@),
            ),
            when(
                !st.podman_socket_active,
                act(
                    host@,
                    none,
                    ActionType::EnablePodmanSocket,
                    "systemctl enable --now podman.socket"@,
                ),
            ),
            when(
                !st.ip_forward_enabled,
                act(host@, none, ActionType::EnableIpForward, "net.ipv4.ip_forward=1"@),
            ),
            network_actions(
                st@,
                keyed::nested(subnets@),
                host@,
                keyed::in_order(text::views(desired.namespaces@)),
            ),
            firewall_action(*desired, st@, keyed::nested(subnets@), host@),
        );
    }
    let nss: Vec<String> = desired.sorted_namespaces();
    push(
        actions,
        !st.podman_installed,
        host,
        "",
        ActionType::InstallPodman,
        "podman not installed",
    );
    push(
        actions,
        !st.podman_socket_active,
        host,
        "",
        ActionType::EnablePodmanSocket,
        "systemctl enable --now podman.socket",
    );
    push(
        actions,
        !st.ip_forward_enabled,
        host,
        "",
        ActionType::EnableIpForward,
        "net.ipv4.ip_forward=1",
    );
    plan_networks(actions, st, subnets, host, &nss);
    plan_firewall(actions, desired, st, subnets, host, &nss);
}

/// The namespaces as coold serves them on a node.
pub fn served_namespaces(
    subnets: &StrMap<StrMap<Ipv4Net>>,
    nss: &Vec<String>,
    host: &str,
) -> (r: Vec<CooldNamespace>)
    requires
        served(keyed::nested(subnets@), text::views(nss@), host@),
    ensures
        coold::namespace_views(r@) == coold_namespaces(
            keyed::nested(subnets@),
            text::views(nss@),
            host@,
        ),
{
    let ghost sub = keyed::nested(subnets@);
    let ghost names = text::views(nss@);
    let mut out: Vec<CooldNamespace> = Vec::new();
    let mut i: usize = 0;
    while i < nss.len()
        invariant
            i <= nss@.len(),
            sub == keyed::nested(subnets@),
            names == text::views(nss@),
            served(sub, names, host@),
            out@.len() == i,
            forall|j: int|
                0 <= j < i ==> (#[trigger] out@[j])@ == coold_namespaces(sub, names, host@)[j],
        decreases nss@.len() - i,
    {
        proof {
            assert(names[i as int] == nss@[i as int]@);
        }
        if let Some(n) = host_subnet(subnets, nss[i].as_str(), host) {
            out.push(
                CooldNamespace {
                    name: nss[i].clone(),
                    network: meshnet::podman_network_for(nss[i].as_str()),
                    bridge_gateway: subnet::machine_ip(n),
                },
            );
        }
        i = i + 1;
    }
    proof {
        assert(coold::namespace_views(out@) =~= coold_namespaces(sub, names, host@));
    }
    out
}

proof fn regroup_seven(
    v: Seq<ActionView>,
    a: Seq<ActionView>,
    b: Seq<ActionView>,
    c: Seq<ActionView>,
    d: Seq<ActionView>,
    e: Seq<ActionView>,
    f: Seq<ActionView>,
    g: Seq<ActionView>,
)
    ensures
        v + a + b + c + d + e + f + g == v + (a + b + c + d + e + f + g),
{
    assert(v + a + b + c + d + e + f + g =~= v + (a + b + c + d + e + f + g));
}

proof fn regroup(
    v: Seq<ActionView>,
    a: Seq<ActionView>,
    b: Seq<ActionView>,
    c: Seq<ActionView>,
    d: Seq<ActionView>,
    e: Seq<ActionView>,
    f: Seq<ActionView>,
)
    ensures
        v + a + b + c + d + e + f == v + (a + b + c + d + e + f),
{
    assert(v + a + b + c + d + e + f =~= v + (a + b + c + d + e + f));
}

fn plan_coold(
    actions: &mut Vec<PlannedAction>,
    desired: &DesiredMesh,
    st: &ServerState,
    mgmt: &StrMap<u32>,
    subnets: &StrMap<StrMap<Ipv4Net>>,
    files: &CorrosionFiles,
    host: &str,
    mgmt_ip: u32,
)
    requires
        served(
            keyed::nested(subnets@),
            keyed::in_order(text::views(desired.namespaces@)),
            host@,
        ),
        keyed::lookup(mgmt@, host@) is Some,
    ensures
        action::action_views(final(actions)@) == action::action_views(old(actions)@)
            + coold_actions(
            *desired,
            st@,
            mgmt@,
            keyed::nested(subnets@),
            *files,
            host@,
            mgmt_ip,
        ),
{
    let ghost v0 = action::action_views(actions@);
    proof {
        reveal_strlit("");
        assert(""@ =~= Seq::<char>::empty());
    }
    let nss: Vec<String> = desired.sorted_namespaces();
    let corrosion_drift: bool = binary_version_drift(
        desired.corrosion_version.as_str(),
        st.corrosion_installed,
        st.corrosion_version.as_str(),
    );
    let coold_drift: bool = binary_version_drift(
        desired.coold_version.as_str(),
        st.coold_installed,
        st.coold_version.as_str(),
    );
    push(
        actions,
        corrosion_drift,
        host,
        "",
        ActionType::InstallCorrosion,
        corrosion_detail(desired.corrosion_version.as_str()).as_str(),
    );
    push(
        actions,
        coold_drift,
        host,
        "",
        ActionType::InstallCoold,
        coold_detail(desired.coold_version.as_str()).as_str(),
    );
    let inputs: ConfigInputs = corrosion::config_inputs(desired, mgmt, host);
    let config: String = corrosion::fill_config(files.config.as_str(), &inputs);
    let config_digest: String = digest::sha256_hex(config.as_str());
    let config_drift: bool = !text::same(
        st.corrosion_config_hash.as_str(),
        config_digest.as_str(),
    );
    push(
        actions,
        config_drift,
        host,
        "",
        ActionType::WriteCorrosionConfig,
        corrosion_config_detail(inputs.peers.len()).as_str(),
    );
    let schema_digest: String = digest::sha256_hex(files.schema_sql.as_str());
    let schema_drift: bool = !text::same(
        st.corrosion_schema_sha256.as_str(),
        schema_digest.as_str(),
    );
    push(
        actions,
        !st.corrosion_schema_exists || schema_drift,
        host,
        "",
        ActionType::WriteCorrosionSchema,
        if schema_drift && !st.corrosion_schema_sha256.as_str().is_empty() {
            "/etc/corrosion/schemas/coolify.sql [schema drift — DB will be reset]"
        } else {
            "/etc/corrosion/schemas/coolify.sql"
        },
    );
    let served: Vec<CooldNamespace> = served_namespaces(subnets, &nss, host);
    let flux: Option<FluxConfig> = desired.coold_flux_config();
    let unit: String = coold::service_unit(mgmt_ip, &served, flux.as_ref());
    let unit_digest: String = digest::sha256_hex(unit.as_str());
    let unit_drift: bool = !text::same(st.coold_unit_sha256.as_str(), unit_digest.as_str());
    push(
        actions,
        !st.corrosion_active || config_drift || corrosion_drift || schema_drift,
        host,
        "",
        ActionType::InstallCorrosionService,
        "systemctl enable --now corrosion",
    );
    push(
        actions,
        !st.coold_active || config_drift || coold_drift || unit_drift,
        host,
        "",
        ActionType::InstallCooldService,
        coold_service_detail(mgmt_ip, served.len()).as_str(),
    );
    proof {
        assert(coold::namespace_views(served@).len() == served@.len());
        let none = Seq::<char>::empty();
        let all = text::views(desired.nodes@);
        regroup(
            v0,
            when(
                corrosion_drift,
                act(
                    host@,
                    none,
                    ActionType::InstallCorrosion,
                    corrosion_detail_text(desired.corrosion_version@),
                ),
            ),
            when(
                coold_drift,
                act(
                    host@,
                    none,
                    ActionType::InstallCoold,
                    coold_detail_text(desired.coold_version@),
                ),
            ),
            when(
                config_drift,
                act(
                    host@,
                    none,
                    ActionType::WriteCorrosionConfig,
                    corrosion_config_detail_text(
                        corrosion::peer_ips(all, mgmt@, host@).len(),
                    ),
                ),
            ),
            when(
                !st.corrosion_schema_exists || schema_drift,
                act(
                    host@,
                    none,
                    ActionType::WriteCorrosionSchema,
                    if schema_drift && st.corrosion_schema_sha256@.len() > 0 {
                        "/etc/corrosion/schemas/coolify.sql [schema drift — DB will be reset]"@
                    } else {
                        "/etc/corrosion/schemas/coolify.sql"@
                    },
                ),
            ),
            when(
                !st.corrosion_active || config_drift || corrosion_drift || schema_drift,
                act(
                    host@,
                    none,
                    ActionType::InstallCorrosionService,
                    "systemctl enable --now corrosion"@,
                ),
            ),
            when(
                !st.coold_active || config_drift || coold_drift || unit_drift,
                act(
                    host@,
                    none,
                    ActionType::InstallCooldService,
                    coold_service_detail_text(mgmt_ip, served@.len()),
                ),
            ),
        );
    }
}

proof fn row_lookup(
    flat: Seq<(Seq<char>, Ipv4Net)>,
    ns: Seq<char>,
    hosts: Seq<Seq<char>>,
    host: Seq<char>,
)
    requires
        hosts.contains(host),
    ensures
        keyed::lookup(subnet::row(flat, ns, hosts), host) == Some(
            keyed::lookup(flat, subnet::pair_key(ns, host))->0,
        ),
    decreases hosts.len(),
{
    let t = hosts.drop_last();
    keyed::lookup_put(
        subnet::row(flat, ns, t),
        hosts.last(),
        keyed::lookup(flat, subnet::pair_key(ns, hosts.last()))->0,
        host,
    );
    if host != hosts.last() {
        let i = choose|i: int| 0 <= i < hosts.len() && hosts[i] == host;
        assert(t[i] == host);
        row_lookup(flat, ns, t, host);
    }
}

/// The subnet of a host in a namespace is the one under their pair key.
pub proof fn grouped_lookup(
    flat: Seq<(Seq<char>, Ipv4Net)>,
    namespaces: Seq<Seq<char>>,
    hosts: Seq<Seq<char>>,
    ns: Seq<char>,
    host: Seq<char>,
)
    requires
        namespaces.contains(ns),
        hosts.contains(host),
    ensures
        keyed::lookup2(subnet::grouped(flat, namespaces, hosts), ns, host) == Some(
            keyed::lookup(flat, subnet::pair_key(ns, host))->0,
        ),
    decreases namespaces.len(),
{
    let t = namespaces.drop_last();
    let last = namespaces.last();
    row_lookup(flat, last, hosts, host);
    keyed::lookup_put(
        subnet::grouped(flat, t, hosts),
        last,
        subnet::row(flat, last, hosts),
        ns,
    );
    if ns != last {
        let i = choose|i: int| 0 <= i < namespaces.len() && namespaces[i] == ns;
        assert(t[i] == ns);
        grouped_lookup(flat, t, hosts, ns, host);
    }
}

/// Every node of a successful allocation has a subnet in each namespace.
pub proof fn nodes_allotted(d: DesiredMesh, cur: Seq<(Seq<char>, ServerView)>, host: Seq<char>)
    requires
        containers_of(d, cur) is Ok,
        text::views(d.nodes@).contains(host),
    ensures
        allotted(
            containers_of(d, cur)->Ok_0.0,
            keyed::in_order(text::views(d.namespaces@)),
            host,
        ),
{
    let names = text::views(d.namespaces@);
    let sorted = keyed::in_order(names);
    let sub = containers_of(d, cur)->Ok_0.0;
    assert forall|i: int| 0 <= i < sorted.len() implies keyed::lookup2(
        sub,
        #[trigger] sorted[i],
        host,
    ) is Some by {
        let ns = sorted[i];
        assert(sorted.contains(ns));
        keyed::in_order_contains(names, ns);
        container_is_known(d, cur, ns, host);
    }
}

/// What the plan of a node reads is there.
proof fn gateways_read(d: DesiredMesh, cur: Seq<(Seq<char>, ServerView)>, host: Seq<char>)
    requires
        has_gateways(d, cur),
        containers_of(d, cur) is Ok,
        text::views(d.nodes@).contains(host),
        text::views(d.hosts@).contains(host),
    ensures
        ({
            let sub = containers_of(d, cur)->Ok_0.0;
            let sorted = keyed::in_order(text::views(d.namespaces@));
            &&& allotted(sub, sorted, host)
            &&& d.install_coold ==> served(sub, sorted, host)
            &&& d.install_podman ==> creatable(state_of(cur, host), sub, sorted, host)
        }),
{
    let names = text::views(d.namespaces@);
    let sorted = keyed::in_order(names);
    let sub = containers_of(d, cur)->Ok_0.0;
    assert forall|i: int| 0 <= i < sorted.len() implies keyed::lookup2(
        sub,
        #[trigger] sorted[i],
        host,
    ) is Some && (tells_gateway(d, cur, sorted[i], host) ==> below_highest(sub, sorted[i], host)) by {
        let ns = sorted[i];
        assert(sorted.contains(ns));
        keyed::in_order_contains(names, ns);
        container_is_known(d, cur, ns, host);
    }
}

fn without_nft(nodes: &Vec<String>, current: &MeshState) -> (r: Option<String>)
    ensures
        text::opt_view(r) == first_without_nft(text::views(nodes@), current@, 0),
{
    let ghost ns = text::views(nodes@);
    let mut i: usize = 0;
    while i < nodes.len()
        invariant
            i <= nodes@.len(),
            ns == text::views(nodes@),
            first_without_nft(ns, current@, i as int) == first_without_nft(ns, current@, 0),
        decreases nodes@.len() - i,
    {
        proof {
            assert(ns[i as int] == nodes@[i as int]@);
            state::server_views_lookup(current.servers@, nodes@[i as int]@);
        }
        if let Some(s) = current.servers.get(nodes[i].as_str()) {
            if !s.nft_available {
                return Some(nodes[i].clone());
            }
        }
        i = i + 1;
    }
    None
}

fn refuse(desired: &DesiredMesh, current: &MeshState) -> (r: Option<String>)
    ensures
        text::opt_view(r) == refusal(*desired, current@),
{
    let some: bool = desired.nodes.len() > 0;
    if some && desired.default_deny_containers && !desired.install_podman {
        return Some("--default-deny requires --podman".to_owned());
    }
    if some && desired.install_coold && !desired.install_podman {
        return Some("--install-coold requires --podman".to_owned());
    }
    if some && desired.install_podman && desired.namespaces.len() == 0 {
        return Some("at least one namespace is required".to_owned());
    }
    if let Err(e) = intent::validate_intent(desired) {
        return Some(e);
    }
    if desired.default_deny_containers {
        if let Some(h) = without_nft(&desired.nodes, current) {
            return Some(no_nft(h.as_str()));
        }
    }
    None
}

/// Plans what a host needs.
fn plan_host(
    actions: &mut Vec<PlannedAction>,
    desired: &DesiredMesh,
    current: &MeshState,
    mgmt: &StrMap<u32>,
    subnets: &StrMap<StrMap<Ipv4Net>>,
    files: &CorrosionFiles,
    host: &str,
)
    requires
        showable(current@),
        keyed::lookup(mgmt@, host@) is Some,
        text::views(desired.nodes@).contains(host@) ==> {
            let sub = keyed::nested(subnets@);
            let sorted = keyed::in_order(text::views(desired.namespaces@));
            &&& allotted(sub, sorted, host@)
            &&& desired.install_coold ==> served(sub, sorted, host@)
            &&& desired.install_podman ==> creatable(
                state_of(current@, host@),
                sub,
                sorted,
                host@,
            )
        },
    ensures
        action::action_views(final(actions)@) == action::action_views(old(actions)@)
            + host_actions(
            *desired,
            current@,
            mgmt@,
            keyed::nested(subnets@),
            *files,
            host@,
        ),
{
    let unknown: ServerState = ServerState::default();
    proof {
        state::server_views_lookup(current.servers@, host@);
    }
    let st: &ServerState = match current.servers.get(host) {
        Some(s) => s,
        None => &unknown,
    };
    let ghost v0 = action::action_views(actions@);
    let mgmt_ip: u32 = match mgmt.get(host) {
        Some(ip) => *ip,
        None => 0,
    };
    plan_wireguard(actions, desired, current, st, host, mgmt_ip);
    let node: bool = desired.is_node(host);
    if node && desired.install_podman {
        plan_podman(actions, desired, st, subnets, host);
    }
    if node && desired.install_coold {
        plan_coold(actions, desired, st, mgmt, subnets, files, host, mgmt_ip);
    }
    proof {
        assert(action::action_views(actions@) =~= v0 + host_actions(
            *desired,
            current@,
            mgmt@,
            keyed::nested(subnets@),
            *files,
            host@,
        ));
    }
}

/// Plans what brings the probed mesh to the desired one. A key whose first eight bytes
/// end inside a character cannot be shown, and a subnet at the highest address has no
/// gateway.
pub fn build_plan(
    desired: &DesiredMesh,
    current: &MeshState,
    files: &CorrosionFiles,
) -> (r: Result<Plan, String>)
    requires
        showable(current@),
        gateways_told(*desired, current@),
    ensures
        plan_view(r) == plan_of(*desired, current@, *files),
{
    if let Some(e) = refuse(desired, current) {
        return Err(e);
    }
    let (mgmt, mut warnings): (StrMap<u32>, Vec<Warning>) = match subnet::allocate_mgmt_ips(
        desired.mgmt_pool,
        &current.assigned_mgmt_ips(),
        &desired.hosts,
    ) {
        Ok(x) => x,
        Err(e) => return Err(e),
    };
    let (subnets, mut more): (
        StrMap<StrMap<Ipv4Net>>,
        Vec<Warning>,
    ) = match subnet::allocate_namespaced(
        desired.container_pool,
        desired.container_prefix,
        &current.assigned_container_subnets(),
        &desired.namespaces,
        &desired.nodes,
    ) {
        Ok(x) => x,
        Err(e) => return Err(e),
    };
    let ghost w1 = subnet::warning_views(warnings@);
    let ghost w2 = subnet::warning_views(more@);
    warnings.append(&mut more);
    proof {
        assert(subnet::warning_views(warnings@) =~= w1 + w2);
    }
    let mgmt_len: u8 = desired.mgmt_pool.prefix_len();
    let ghost sub = keyed::nested(subnets@);
    let ghost hs = text::views(desired.hosts@);
    let mut actions: Vec<PlannedAction> = Vec::new();
    let mut i: usize = 0;
    proof {
        assert(hs.take(0) =~= Seq::empty());
        assert(action::action_views(actions@) =~= Seq::empty());
        subnet_laws::mgmt_ips_are_distinct(
            desired.mgmt_pool,
            state::assigned_ips(current@),
            hs,
        );
    }
    while i < desired.hosts.len()
        invariant
            i <= desired.hosts@.len(),
            showable(current@),
            has_gateways(*desired, current@),
            containers_of(*desired, current@) is Ok,
            sub == containers_of(*desired, current@)->Ok_0.0,
            sub == keyed::nested(subnets@),
            hs == text::views(desired.hosts@),
            forall|x: Seq<char>| #[trigger] keyed::lookup(mgmt@, x) is Some <==> hs.contains(x),
            action::action_views(actions@) == all_actions(
                *desired,
                current@,
                mgmt@,
                sub,
                *files,
                hs.take(i as int),
            ),
        decreases desired.hosts@.len() - i,
    {
        let host: &str = desired.hosts[i].as_str();
        proof {
            assert(hs.take(i + 1).drop_last() =~= hs.take(i as int));
            assert(hs.take(i + 1).last() == host@);
            assert(hs[i as int] == host@);
            if text::views(desired.nodes@).contains(host@) {
                gateways_read(*desired, current@, host@);
            }
        }
        plan_host(&mut actions, desired, current, &mgmt, &subnets, files, host);
        i = i + 1;
    }
    proof {
        assert(hs.take(i as int) =~= hs);
    }
    let mut plan: Plan = Plan {
        actions,
        mgmt_assignments: mgmt,
        subnet_assignments: subnets,
        warnings,
        skipped: Vec::new(),
    };
    proof {
        assert(action::skipped_views(plan.skipped@) =~= Seq::empty());
    }
    intent::filter_by_intent(&mut plan, desired);
    proof {
        let new = text::views(desired.new_nodes@);
        let all = all_actions(*desired, current@, mgmt@, sub, *files, hs);
        let skipped = intent::skipped_actions(all, desired.intent, desired.allow_replace, new);
        assert(Seq::<SkippedView>::empty() + skipped =~= skipped);
    }
    Ok(plan)
}

} // verus!
