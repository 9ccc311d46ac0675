//! What holds of every application: whom a host joins, and what runs on it.

use vstd::prelude::*;
use crate::cli::apply as cluster;
use crate::cli::config;
use crate::cli::config::PeerConfigView;
use crate::cli::coold;
use crate::cli::checksum;
use crate::cli::corrosion;
use crate::cli::corrosion::CorrosionFiles;
use crate::cli::script_laws;
use crate::cli::ssh;
use crate::cli::firewall;
use crate::cli::meshnet;
use crate::cli::plan;
use crate::keyed;
use crate::mesh::action::{ActionType, ActionView};
use crate::mesh::apply;
use crate::mesh::apply::{Addresses, StepView};
use crate::mesh::state;
use crate::mesh::state::{DesiredMesh, ServerView};
use crate::net;
use crate::net::Ipv4Net;
use crate::text;

verus! {

/// Whether this is the endpoint of a host: the one given for it, or else its name, up to a colon
/// where it has one.
pub open spec fn is_endpoint(d: DesiredMesh, host: Seq<char>, endpoint: Seq<char>) -> bool {
    match keyed::lookup(d.endpoint_overrides@, host) {
        Some(e) => endpoint == e@,
        None => if host.contains(':') {
            !endpoint.contains(':') && text::has_prefix(host, endpoint.push(':'))
        } else {
            endpoint == host
        },
    }
}

/// Whether an entry is that of another host of the mesh, with its own endpoint, key, address and
/// subnets.
pub open spec fn is_entry_of(
    d: DesiredMesh,
    cur: Seq<(Seq<char>, ServerView)>,
    mgmt: Seq<(Seq<char>, u32)>,
    subnets: Seq<(Seq<char>, Seq<(Seq<char>, Ipv4Net)>)>,
    e: PeerConfigView,
    p: Seq<char>,
) -> bool {
    let nss = keyed::in_order(text::views(d.namespaces@));
    &&& is_endpoint(d, p, e.endpoint)
    &&& keyed::lookup(cur, p) matches Some(s) && e.public_key == s.public_key
    &&& e.mgmt_ip == keyed::lookup(mgmt, p)->0
    &&& if text::views(d.nodes@).contains(p) {
        e.container_subnets.len() == nss.len() && forall|k: int|
            0 <= k < nss.len() ==> #[trigger] e.container_subnets[k] == keyed::lookup2(
                subnets,
                nss[k],
                p,
            )->0
    } else {
        e.container_subnets.len() == 0
    }
}

/// Whether a host is another one whose key is known.
pub open spec fn can_join(
    cur: Seq<(Seq<char>, ServerView)>,
    host: Seq<char>,
    p: Seq<char>,
) -> bool {
    p != host && (keyed::lookup(cur, p) matches Some(s) && s.public_key.len() > 0)
}

/// Whether the entries are, one after the other, those of the hosts at these places.
pub open spec fn are_entries_of(
    d: DesiredMesh,
    cur: Seq<(Seq<char>, ServerView)>,
    mgmt: Seq<(Seq<char>, u32)>,
    subnets: Seq<(Seq<char>, Seq<(Seq<char>, Ipv4Net)>)>,
    entries: Seq<PeerConfigView>,
    hosts: Seq<Seq<char>>,
    places: Seq<int>,
) -> bool {
    &&& places.len() == entries.len()
    &&& forall|i: int|
        0 <= i < places.len() ==> 0 <= #[trigger] places[i] < hosts.len() && is_entry_of(
            d,
            cur,
            mgmt,
            subnets,
            entries[i],
            hosts[places[i]],
        )
    &&& forall|i: int, j: int| 0 <= i < j < places.len() ==> places[i] < places[j]
}

proof fn endpoints_are(d: DesiredMesh, host: Seq<char>)
    ensures
        is_endpoint(d, host, state::endpoint_of(d, host)),
{
    if keyed::lookup(d.endpoint_overrides@, host) is None {
        text::find_char_props(host, ':');
        let i = text::find_char(host, ':');
        let e = state::endpoint_of(d, host);
        if host.contains(':') {
            let k = choose|k: int| 0 <= k < host.len() && host[k] == ':';
            assert(i < host.len());
            assert(e.push(':') =~= host.take(i + 1));
            if e.contains(':') {
                let j = choose|j: int| 0 <= j < e.len() && e[j] == ':';
                assert(host[j] == ':');
            }
        }
    }
}

proof fn peers_have_places(
    d: DesiredMesh,
    cur: Seq<(Seq<char>, ServerView)>,
    mgmt: Seq<(Seq<char>, u32)>,
    subnets: Seq<(Seq<char>, Seq<(Seq<char>, Ipv4Net)>)>,
    host: Seq<char>,
    hosts: Seq<Seq<char>>,
) -> (places: Seq<int>)
    ensures
        are_entries_of(
            d,
            cur,
            mgmt,
            subnets,
            cluster::peers_of(d, cur, mgmt, subnets, host, hosts),
            hosts,
            places,
        ),
        forall|j: int|
            0 <= j < hosts.len() ==> (can_join(cur, host, #[trigger] hosts[j]) <==> places.contains(
                j,
            )),
    decreases hosts.len(),
{
    if hosts.len() == 0 {
        Seq::empty()
    } else {
        let t = hosts.drop_last();
        let p = hosts.last();
        let n = t.len() as int;
        let before = peers_have_places(d, cur, mgmt, subnets, host, t);
        let es = cluster::peers_of(d, cur, mgmt, subnets, host, t);
        let all = cluster::peers_of(d, cur, mgmt, subnets, host, hosts);
        assert forall|i: int| 0 <= i < before.len() implies 0 <= #[trigger] before[i] < n
            && hosts[before[i]] == t[before[i]] && is_entry_of(
            d,
            cur,
            mgmt,
            subnets,
            es[i],
            hosts[before[i]],
        ) by {}
        let places = if can_join(cur, host, p) {
            before.push(n)
        } else {
            before
        };
        endpoints_are(d, p);
        assert(hosts[n] == p);
        assert forall|i: int| 0 <= i < places.len() implies 0 <= #[trigger] places[i] < hosts.len()
            && is_entry_of(d, cur, mgmt, subnets, all[i], hosts[places[i]]) by {
            if i < before.len() {
                assert(places[i] == before[i]);
                assert(all[i] == es[i]);
            }
        }
        assert forall|i: int, j: int| 0 <= i < j < places.len() implies places[i] < places[j] by {
            assert(places[i] == before[i]);
            if j < before.len() {
                assert(places[j] == before[j]);
            }
        }
        assert forall|j: int| 0 <= j < hosts.len() implies (can_join(cur, host, #[trigger] hosts[j])
            <==> places.contains(j)) by {
            if j < n {
                assert(hosts[j] == t[j]);
                if before.contains(j) {
                    let i = choose|i: int| 0 <= i < before.len() && before[i] == j;
                    assert(places[i] == j);
                }
                if places.contains(j) {
                    let i = choose|i: int| 0 <= i < places.len() && places[i] == j;
                    assert(i < before.len());
                    assert(before[i] == j);
                }
            } else {
                if can_join(cur, host, p) {
                    assert(places[before.len() as int] == j);
                }
                if places.contains(j) {
                    let i = choose|i: int| 0 <= i < places.len() && places[i] == j;
                    if i < before.len() {
                        assert(places[i] == before[i]);
                    }
                }
            }
        }
        places
    }
}

/// A host joins the other hosts whose keys are known, in their order and each of them once, and
/// each entry is that host's own: its endpoint, its key, its management address and its
/// container subnets.
pub proof fn peers_are_the_other_hosts(
    d: DesiredMesh,
    cur: Seq<(Seq<char>, ServerView)>,
    mgmt: Seq<(Seq<char>, u32)>,
    subnets: Seq<(Seq<char>, Seq<(Seq<char>, Ipv4Net)>)>,
    host: Seq<char>,
)
    ensures
        ({
            let hosts = text::views(d.hosts@);
            exists|places: Seq<int>|
                #[trigger] are_entries_of(
                    d,
                    cur,
                    mgmt,
                    subnets,
                    cluster::peers_of(d, cur, mgmt, subnets, host, hosts),
                    hosts,
                    places,
                ) && forall|j: int|
                    0 <= j < hosts.len() ==> (can_join(cur, host, #[trigger] hosts[j])
                        <==> places.contains(j))
        }),
{
    let places = peers_have_places(d, cur, mgmt, subnets, host, text::views(d.hosts@));
}

/// No host dials itself, where no endpoints are given and no name holds a colon.
pub proof fn hosts_do_not_dial_themselves(
    d: DesiredMesh,
    cur: Seq<(Seq<char>, ServerView)>,
    mgmt: Seq<(Seq<char>, u32)>,
    subnets: Seq<(Seq<char>, Seq<(Seq<char>, Ipv4Net)>)>,
    host: Seq<char>,
    i: int,
)
    requires
        d.endpoint_overrides@.len() == 0,
        forall|j: int| 0 <= j < d.hosts@.len() ==> !(#[trigger] text::views(d.hosts@)[j]).contains(':'),
        0 <= i < cluster::peers_of(d, cur, mgmt, subnets, host, text::views(d.hosts@)).len(),
    ensures
        cluster::peers_of(d, cur, mgmt, subnets, host, text::views(d.hosts@))[i].endpoint != host,
{
    let hosts = text::views(d.hosts@);
    let places = peers_have_places(d, cur, mgmt, subnets, host, hosts);
    let p = hosts[places[i]];
    assert(places.contains(places[i]));
    assert(can_join(cur, host, p));
    assert(keyed::lookup(d.endpoint_overrides@, p) is None);
    assert(!p.contains(':'));
}

// ---------------------------------------------------------------------------
// Steps
// ---------------------------------------------------------------------------

/// Whether a list of steps holds this command for this action and namespace.
pub open spec fn does(s: Seq<StepView>, t: ActionType, ns: Seq<char>, command: Seq<char>) -> bool {
    exists|i: int|
        0 <= i < s.len() && (#[trigger] s[i]).action_type == t && s[i].namespace == ns
            && s[i].command == command
}

pub proof fn does_sum(
    a: Seq<StepView>,
    b: Seq<StepView>,
    t: ActionType,
    ns: Seq<char>,
    c: Seq<char>,
)
    ensures
        does(a + b, t, ns, c) <==> does(a, t, ns, c) || does(b, t, ns, c),
{
    let s = a + b;
    if does(s, t, ns, c) {
        let i = choose|i: int|
            0 <= i < s.len() && (#[trigger] s[i]).action_type == t && s[i].namespace == ns
                && s[i].command == c;
        if i < a.len() {
            assert(a[i] == s[i]);
        } else {
            assert(b[i - a.len()] == s[i]);
        }
    }
    if does(a, t, ns, c) {
        let i = choose|i: int|
            0 <= i < a.len() && (#[trigger] a[i]).action_type == t && a[i].namespace == ns
                && a[i].command == c;
        assert(s[i] == a[i]);
    }
    if does(b, t, ns, c) {
        let i = choose|i: int|
            0 <= i < b.len() && (#[trigger] b[i]).action_type == t && b[i].namespace == ns
                && b[i].command == c;
        assert(s[i + a.len()] == b[i]);
    }
}

pub proof fn does_if(
    run: bool,
    k: ActionType,
    m: Seq<char>,
    command: Seq<char>,
    t: ActionType,
    ns: Seq<char>,
    c: Seq<char>,
)
    ensures
        does(apply::step_if(run, k, m, command), t, ns, c) <==> run && k == t && m == ns && command
            == c,
{
    if run {
        assert(apply::step_if(run, k, m, command)[0].action_type == k);
    }
}

/// What is lacking on a host is installed, where the plan has it: WireGuard and the key pair on
/// any host, Podman, its socket and forwarding on nodes. What is there already is left alone.
pub proof fn only_what_is_lacking_is_installed(
    d: DesiredMesh,
    st: ServerView,
    acts: Seq<ActionView>,
    host: Seq<char>,
    genkey: Seq<char>,
    t: ActionType,
    ns: Seq<char>,
    c: Seq<char>,
)
    ensures
        ({
            let podman = text::views(d.nodes@).contains(host) && d.install_podman;
            does(apply::install_steps(d, st, acts, host, genkey), t, ns, c) <==> ns.len() == 0
                && apply::runs(acts, host, t, Seq::empty()) && match t {
                ActionType::InstallWg => !st.installed && c == apply::APT_WG@,
                ActionType::GenKeyPair => !st.keys_exist && c == genkey,
                ActionType::InstallPodman => podman && !st.podman_installed && c
                    == apply::APT_PODMAN@,
                ActionType::EnablePodmanSocket => podman && !st.podman_socket_active && c
                    == apply::ENABLE_PODMAN@,
                ActionType::EnableIpForward => podman && !st.ip_forward_enabled && c
                    == apply::ENABLE_IP_FORWARD@,
                _ => false,
            }
        }),
{
    let none = Seq::<char>::empty();
    let podman = text::views(d.nodes@).contains(host) && d.install_podman;
    if ns.len() == 0 {
        assert(ns =~= none);
    }
    let r0 = !st.installed && apply::runs(acts, host, ActionType::InstallWg, none);
    let r1 = !st.keys_exist && apply::runs(acts, host, ActionType::GenKeyPair, none);
    let r2 = podman && !st.podman_installed && apply::runs(
        acts,
        host,
        ActionType::InstallPodman,
        none,
    );
    let r3 = podman && !st.podman_socket_active && apply::runs(
        acts,
        host,
        ActionType::EnablePodmanSocket,
        none,
    );
    let r4 = podman && !st.ip_forward_enabled && apply::runs(
        acts,
        host,
        ActionType::EnableIpForward,
        none,
    );
    let s0 = apply::step_if(r0, ActionType::InstallWg, none, apply::APT_WG@);
    let s1 = apply::step_if(r1, ActionType::GenKeyPair, none, genkey);
    let s2 = apply::step_if(r2, ActionType::InstallPodman, none, apply::APT_PODMAN@);
    let s3 = apply::step_if(r3, ActionType::EnablePodmanSocket, none, apply::ENABLE_PODMAN@);
    let s4 = apply::step_if(r4, ActionType::EnableIpForward, none, apply::ENABLE_IP_FORWARD@);
    does_if(r0, ActionType::InstallWg, none, apply::APT_WG@, t, ns, c);
    does_if(r1, ActionType::GenKeyPair, none, genkey, t, ns, c);
    does_if(r2, ActionType::InstallPodman, none, apply::APT_PODMAN@, t, ns, c);
    does_if(r3, ActionType::EnablePodmanSocket, none, apply::ENABLE_PODMAN@, t, ns, c);
    does_if(r4, ActionType::EnableIpForward, none, apply::ENABLE_IP_FORWARD@, t, ns, c);
    does_sum(s0, s1, t, ns, c);
    does_sum(s0 + s1, s2, t, ns, c);
    does_sum(s0 + s1 + s2, s3, t, ns, c);
    does_sum(s0 + s1 + s2 + s3, s4, t, ns, c);
}

proof fn network_steps_do(
    acts: Seq<ActionView>,
    subnets: Seq<(Seq<char>, Seq<(Seq<char>, Ipv4Net)>)>,
    host: Seq<char>,
    nss: Seq<Seq<char>>,
    t: ActionType,
    ns: Seq<char>,
    c: Seq<char>,
)
    ensures
        does(apply::network_steps(acts, subnets, host, nss), t, ns, c) <==> nss.contains(ns) && does(
            apply::network_step(acts, plan::subnet_of(subnets, ns, host), host, ns),
            t,
            ns,
            c,
        ),
    decreases nss.len(),
{
    if nss.len() > 0 {
        let p = nss.drop_last();
        let last = nss.last();
        network_steps_do(acts, subnets, host, p, t, ns, c);
        let own = apply::network_step(acts, plan::subnet_of(subnets, last, host), host, last);
        does_sum(apply::network_steps(acts, subnets, host, p), own, t, ns, c);
        if does(own, t, ns, c) {
            assert(ns == last);
        }
        if p.contains(ns) {
            let i = choose|i: int| 0 <= i < p.len() && p[i] == ns;
            assert(nss[i] == ns);
        }
        if nss.contains(ns) {
            let i = choose|i: int| 0 <= i < nss.len() && nss[i] == ns;
            if i < p.len() {
                assert(p[i] == ns);
            }
        }
        assert(nss[nss.len() - 1] == last);
    }
}

/// What is configured on a host after its interface configuration is written: an interface that
/// is down is brought up, one that is up is restarted, and on a node each network of the plan is
/// made or replaced with the subnet of the node and its first address as the gateway, and the
/// firewall of the node's subnets is installed.
pub proof fn hosts_are_configured_as_planned(
    d: DesiredMesh,
    cur: Seq<(Seq<char>, ServerView)>,
    a: Addresses,
    acts: Seq<ActionView>,
    host: Seq<char>,
    t: ActionType,
    ns: Seq<char>,
    c: Seq<char>,
)
    ensures
        ({
            let none = Seq::<char>::empty();
            let sub = keyed::nested(a.subnets@);
            let active = keyed::lookup(cur, host) matches Some(s) && s.active;
            let node = text::views(d.nodes@).contains(host) && d.install_podman;
            let nss = keyed::in_order(text::views(d.namespaces@));
            let sn = keyed::lookup2(sub, ns, host)->0;
            let gw = (sn.base() + 1) as u32;
            let net = "coolify-"@ + ns + "-mesh"@;
            does(cluster::configure_steps(d, cur, a, acts, host), t, ns, c) <==> match t {
                ActionType::WriteConfig => ns.len() == 0 && apply::runs(acts, host, t, none) && c
                    == config::write_text(
                    d.interface@,
                    keyed::lookup(a.mgmt@, host)->0,
                    match keyed::lookup(d.listen_port_overrides@, host) {
                        Some(port) => port,
                        None => d.listen_port,
                    },
                    cluster::peers_of(d, cur, a.mgmt@, sub, host, text::views(d.hosts@)),
                ),
                ActionType::EnableService => ns.len() == 0 && !active && apply::runs(
                    acts,
                    host,
                    t,
                    none,
                ) && c == apply::start_interface_text(d.interface@),
                ActionType::ReloadService => ns.len() == 0 && active && apply::runs(
                    acts,
                    host,
                    t,
                    none,
                ) && c == apply::restart_interface_text(d.interface@),
                ActionType::RecreatePodmanNetwork => node && nss.contains(ns) && apply::runs(
                    acts,
                    host,
                    t,
                    ns,
                ) && c == apply::replace_network_text(net, ns, sn, gw),
                ActionType::CreatePodmanNetwork => node && nss.contains(ns) && apply::runs(
                    acts,
                    host,
                    t,
                    ns,
                ) && !apply::runs(acts, host, ActionType::RecreatePodmanNetwork, ns) && c
                    == apply::make_network_text(net, ns, sn, gw),
                ActionType::InstallFirewall => node && ns.len() == 0 && apply::runs(
                    acts,
                    host,
                    t,
                    none,
                ) && c == firewall::install_text(
                    d.interface@,
                    Seq::new(nss.len(), |i: int| keyed::lookup2(sub, nss[i], host)->0),
                    d.default_deny_containers,
                ),
                _ => false,
            }
        }),
{
    let none = Seq::<char>::empty();
    let sub = keyed::nested(a.subnets@);
    let active = cluster::is_active(cur, host);
    let node = text::views(d.nodes@).contains(host) && d.install_podman;
    let nss = keyed::in_order(text::views(d.namespaces@));
    let sn = keyed::lookup2(sub, ns, host)->0;
    let gw = (sn.base() + 1) as u32;
    if ns.len() == 0 {
        assert(ns =~= none);
    }
    let write = config::write_text(
        d.interface@,
        keyed::lookup(a.mgmt@, host)->0,
        state::port_for(d, host),
        cluster::peers_of(d, cur, a.mgmt@, sub, host, text::views(d.hosts@)),
    );
    let r0 = apply::runs(acts, host, ActionType::WriteConfig, none);
    let s0 = apply::step_if(r0, ActionType::WriteConfig, none, write);
    does_if(r0, ActionType::WriteConfig, none, write, t, ns, c);
    let k1 = if active {
        ActionType::ReloadService
    } else {
        ActionType::EnableService
    };
    let c1 = if active {
        apply::restart_interface_text(d.interface@)
    } else {
        apply::start_interface_text(d.interface@)
    };
    let r1 = apply::runs(acts, host, k1, none);
    let s1 = apply::step_if(r1, k1, none, c1);
    does_if(r1, k1, none, c1, t, ns, c);
    let s2 = apply::network_steps(acts, sub, host, nss);
    network_steps_do(acts, sub, host, nss, t, ns, c);
    let net = meshnet::podman_network_for_text(ns);
    let own = apply::network_step(acts, sn, host, ns);
    let recreate = apply::runs(acts, host, ActionType::RecreatePodmanNetwork, ns);
    does_if(
        apply::runs(acts, host, ActionType::CreatePodmanNetwork, ns),
        ActionType::CreatePodmanNetwork,
        ns,
        apply::make_network_text(net, ns, sn, gw),
        t,
        ns,
        c,
    );
    if recreate {
        assert(own[0].action_type == ActionType::RecreatePodmanNetwork);
    }
    let nets = plan::subnets_of(sub, nss, host);
    assert(nets =~= Seq::new(nss.len(), |i: int| keyed::lookup2(sub, nss[i], host)->0));
    let fw = firewall::install_text(d.interface@, nets, d.default_deny_containers);
    let r3 = apply::runs(acts, host, ActionType::InstallFirewall, none);
    let s3 = apply::step_if(r3, ActionType::InstallFirewall, none, fw);
    does_if(r3, ActionType::InstallFirewall, none, fw, t, ns, c);
    does_sum(s2, s3, t, ns, c);
    let rest = if node {
        s2 + s3
    } else {
        Seq::empty()
    };
    does_sum(s1, rest, t, ns, c);
    does_sum(s0, s1 + rest, t, ns, c);
}

/// A network is made with its own name, the label of its namespace, its subnet and its gateway
/// and without name service; one that is replaced is removed first.
pub proof fn networks_are_made_with_their_settings(
    net: Seq<char>,
    ns: Seq<char>,
    sn: Ipv4Net,
    gw: u32,
)
    ensures
        ({
            let settings = "podman network create --driver bridge --disable-dns --label io.coolify.managed=true --label io.coolify.namespace="@
                + ns + " --subnet="@ + sn.cidr() + " --gateway="@ + net::dotted(gw) + " "@ + net;
            &&& text::has_suffix(apply::make_network_text(net, ns, sn, gw), settings)
            &&& text::has_suffix(apply::replace_network_text(net, ns, sn, gw), settings)
            &&& text::has_prefix(
                apply::make_network_text(net, ns, sn, gw),
                "podman network exists "@ + net + " "@,
            )
            &&& text::has_prefix(
                apply::replace_network_text(net, ns, sn, gw),
                "podman network rm -f "@ + net + " "@,
            )
        }),
{
    let create = "podman network create --driver bridge --disable-dns --label io.coolify.managed=true --label io.coolify.namespace="@;
    let rest = ns + " --subnet="@ + sn.cidr() + " --gateway="@ + net::dotted(gw) + " "@ + net;
    let settings = create + ns + " --subnet="@ + sn.cidr() + " --gateway="@ + net::dotted(gw) + " "@
        + net;
    assert(settings =~= create + rest);
    let m0 = " 2>/dev/null && echo 'network exists, skipping' || podman network create --driver bridge --disable-dns --label io.coolify.managed=true --label io.coolify.namespace="@;
    let m1 = " 2>&1 && podman network create --driver bridge --disable-dns --label io.coolify.managed=true --label io.coolify.namespace="@;
    reveal_strlit(" ");
    assert(" "@ =~= seq![' ']);
    assert(m0 =~= " 2>/dev/null && echo 'network exists, skipping' || "@ + create && m0.len() > 0 && m0[0] == ' ')
        by {
        reveal_strlit("podman network create --driver bridge --disable-dns --label io.coolify.managed=true --label io.coolify.namespace=");
        reveal_strlit(" 2>/dev/null && echo 'network exists, skipping' || podman network create --driver bridge --disable-dns --label io.coolify.managed=true --label io.coolify.namespace=");
        reveal_strlit(" 2>/dev/null && echo 'network exists, skipping' || ");
    }
    assert(m1 =~= " 2>&1 && "@ + create && m1.len() > 0 && m1[0] == ' ') by {
        reveal_strlit("podman network create --driver bridge --disable-dns --label io.coolify.managed=true --label io.coolify.namespace=");
        reveal_strlit(" 2>&1 && podman network create --driver bridge --disable-dns --label io.coolify.managed=true --label io.coolify.namespace=");
        reveal_strlit(" 2>&1 && ");
    }
    made_of("podman network exists "@ + net, " 2>/dev/null && echo 'network exists, skipping' || "@, create, rest);
    made_of("podman network rm -f "@ + net, " 2>&1 && "@, create, rest);
    let t0 = apply::make_network_text(net, ns, sn, gw);
    let t1 = apply::replace_network_text(net, ns, sn, gw);
    assert(t0 =~= ("podman network exists "@ + net) + m0 + rest);
    assert(t1 =~= ("podman network rm -f "@ + net) + m1 + rest);
    let h0 = "podman network exists "@ + net;
    let h1 = "podman network rm -f "@ + net;
    assert(t0.take((h0.len() + 1) as int) =~= h0 + " "@);
    assert(t1.take((h1.len() + 1) as int) =~= h1 + " "@);
}

proof fn made_of(h: Seq<char>, m: Seq<char>, create: Seq<char>, rest: Seq<char>)
    ensures
        text::has_suffix(h + (m + create) + rest, create + rest),
{
    let s = h + (m + create) + rest;
    let e = create + rest;
    assert(s.skip(s.len() - e.len()) =~= e);
}

/// coold serves each namespace under its name, on the network that is made for it, with the
/// first address of the node's subnet there as the gateway.
pub proof fn namespaces_are_served_on_their_networks(
    subnets: Seq<(Seq<char>, Seq<(Seq<char>, Ipv4Net)>)>,
    nss: Seq<Seq<char>>,
    host: Seq<char>,
    i: int,
)
    requires
        0 <= i < nss.len(),
    ensures
        plan::coold_namespaces(subnets, nss, host).len() == nss.len(),
        plan::coold_namespaces(subnets, nss, host)[i].name == nss[i],
        plan::coold_namespaces(subnets, nss, host)[i].network == "coolify-"@ + nss[i] + "-mesh"@,
        keyed::lookup2(subnets, nss[i], host) matches Some(n) ==> n.prefix() <= 32 ==> n.base()
            < u32::MAX ==> plan::coold_namespaces(subnets, nss, host)[i].bridge_gateway == n.base()
            + 1,
{
    if let Some(n) = keyed::lookup2(subnets, nss[i], host) {
        if n.prefix() <= 32 {
            net::block_size_bounds(n.prefix());
            vstd::arithmetic::div_mod::lemma_mod_decreases(
                n.ip() as nat,
                net::block_size(n.prefix()) as nat,
            );
        }
    }
}

/// What is installed on a node is what the plan has for it: the releases that are wanted, checked against
/// the digests that are pinned, the configuration and the schema where Corrosion reads them, and the
/// services with the units of this node.
pub proof fn agents_are_installed_as_planned(
    d: DesiredMesh,
    a: Addresses,
    acts: Seq<ActionView>,
    files: CorrosionFiles,
    host: Seq<char>,
    t: ActionType,
    ns: Seq<char>,
    c: Seq<char>,
)
    ensures
        ({
            let served = plan::coold_namespaces(
                keyed::nested(a.subnets@),
                keyed::in_order(text::views(d.namespaces@)),
                host,
            );
            does(cluster::agent_steps(d, a, acts, files, host), t, ns, c) <==> ns.len() == 0 && apply::runs(acts, host, t, Seq::empty()) && match t {
                ActionType::InstallCorrosion => c == corrosion::checked_install_text(files, d.corrosion_version@, text::opt_view(d.corrosion_sha256)),
                ActionType::InstallCoold => c == coold::install_script_text(d.coold_version@, checksum::snippet("$DLDIR/coold.tar.gz"@, "$URL"@, "coold"@, text::opt_view(d.coold_sha256))),
                ActionType::WriteCorrosionConfig => c == "mkdir -p /etc/corrosion && "@ + ssh::heredoc_text("/etc/corrosion/config.toml"@, corrosion::config_of(files, d, a.mgmt@, host), "0644"@),
                ActionType::WriteCorrosionSchema => c == "mkdir -p /etc/corrosion/schemas && "@ + ssh::heredoc_text("/etc/corrosion/schemas/coolify.sql"@, files.schema_sql@, "0644"@),
                ActionType::InstallCorrosionService => c == corrosion::with_gossip_tls(d.corrosion_gossip_tls, ssh::heredoc_text("/etc/systemd/system/corrosion.service"@, corrosion::unit_text(files, d.interface@), "0644"@) + " && systemctl daemon-reload && systemctl enable --now corrosion"@),
                ActionType::InstallCooldService => c == cluster::coold_command(keyed::lookup(a.mgmt@, host)->0, served, state::flux_of(text::opt_view(d.flux_tls_url)), match d.flux_tls { Some(c) => Some(c.cert_pem@), None => None }),
                _ => false,
            }
        }),
{
    let none = Seq::<char>::empty();
    if ns.len() == 0 {
        assert(ns =~= none);
    }
    let served = plan::coold_namespaces(
        keyed::nested(a.subnets@),
        keyed::in_order(text::views(d.namespaces@)),
        host,
    );
    let c0 = corrosion::checked_install_text(files, d.corrosion_version@, text::opt_view(d.corrosion_sha256));
    let r0 = apply::runs(acts, host, ActionType::InstallCorrosion, none);
    let s0 = apply::step_if(r0, ActionType::InstallCorrosion, none, c0);
    does_if(r0, ActionType::InstallCorrosion, none, c0, t, ns, c);
    let c1 = coold::install_script_text(d.coold_version@, checksum::snippet("$DLDIR/coold.tar.gz"@, "$URL"@, "coold"@, text::opt_view(d.coold_sha256)));
    let r1 = apply::runs(acts, host, ActionType::InstallCoold, none);
    let s1 = apply::step_if(r1, ActionType::InstallCoold, none, c1);
    does_if(r1, ActionType::InstallCoold, none, c1, t, ns, c);
    let c2 = "mkdir -p /etc/corrosion && "@ + ssh::heredoc_text("/etc/corrosion/config.toml"@, corrosion::config_of(files, d, a.mgmt@, host), "0644"@);
    let r2 = apply::runs(acts, host, ActionType::WriteCorrosionConfig, none);
    let s2 = apply::step_if(r2, ActionType::WriteCorrosionConfig, none, c2);
    does_if(r2, ActionType::WriteCorrosionConfig, none, c2, t, ns, c);
    let c3 = "mkdir -p /etc/corrosion/schemas && "@ + ssh::heredoc_text("/etc/corrosion/schemas/coolify.sql"@, files.schema_sql@, "0644"@);
    let r3 = apply::runs(acts, host, ActionType::WriteCorrosionSchema, none);
    let s3 = apply::step_if(r3, ActionType::WriteCorrosionSchema, none, c3);
    does_if(r3, ActionType::WriteCorrosionSchema, none, c3, t, ns, c);
    let c4 = corrosion::with_gossip_tls(d.corrosion_gossip_tls, ssh::heredoc_text("/etc/systemd/system/corrosion.service"@, corrosion::unit_text(files, d.interface@), "0644"@) + " && systemctl daemon-reload && systemctl enable --now corrosion"@);
    let r4 = apply::runs(acts, host, ActionType::InstallCorrosionService, none);
    let s4 = apply::step_if(r4, ActionType::InstallCorrosionService, none, c4);
    does_if(r4, ActionType::InstallCorrosionService, none, c4, t, ns, c);
    let c5 = cluster::coold_command(keyed::lookup(a.mgmt@, host)->0, served, state::flux_of(text::opt_view(d.flux_tls_url)), match d.flux_tls { Some(c) => Some(c.cert_pem@), None => None });
    let r5 = apply::runs(acts, host, ActionType::InstallCooldService, none);
    let s5 = apply::step_if(r5, ActionType::InstallCooldService, none, c5);
    does_if(r5, ActionType::InstallCooldService, none, c5, t, ns, c);
    does_sum(s0, s1, t, ns, c);
    does_sum(s0 + s1, s2, t, ns, c);
    does_sum(s0 + s1 + s2, s3, t, ns, c);
    does_sum(s0 + s1 + s2 + s3, s4, t, ns, c);
    does_sum(s0 + s1 + s2 + s3 + s4, s5, t, ns, c);
}

/// coold is installed with its directories made first, then the pinned certificate of flux where
/// there is one, then the units of its helpers and its own unit, and it is started last.
pub proof fn coold_starts_after_what_it_needs(
    mgmt_ip: u32,
    served: Seq<coold::CooldNamespaceView>,
    flux: Option<state::FluxView>,
    pin: Option<Seq<char>>,
)
    ensures
        ({
            let c = cluster::coold_command(mgmt_ip, served, flux, pin);
            let unit = ssh::heredoc_text(
                "/etc/systemd/system/coold.service"@,
                coold::service_unit_text(mgmt_ip, served, flux),
                "0644"@,
            );
            &&& text::has_prefix(c, "mkdir -p /etc/coolify /data/coolify && "@)
            &&& pin matches Some(cert) ==> text::has_prefix(
                c,
                "mkdir -p /etc/coolify /data/coolify && "@ + ssh::heredoc_text(
                    "/etc/coolify/flux.pin"@,
                    cert,
                    "0644"@,
                ),
            )
            &&& text::has_suffix(
                c,
                unit
                    + " && systemctl daemon-reload && systemctl enable --now coolify-mesh-dns-anchor.service coolify-mesh-dns-resolver.service coold"@,
            )
        }),
{
    let anchor = ssh::heredoc_text(
        "/etc/systemd/system/coolify-mesh-dns-anchor.service"@,
        coold::anchor_unit_text(
            coold::anchor_starts_text(served),
            coold::anchor_stops_text(served),
        ),
        "0644"@,
    );
    let resolver = ssh::heredoc_text(
        "/etc/systemd/system/coolify-mesh-dns-resolver.service"@,
        coold::resolver_unit_text(coold::resolver_commands_text(served)),
        "0644"@,
    );
    let unit = ssh::heredoc_text(
        "/etc/systemd/system/coold.service"@,
        coold::service_unit_text(mgmt_ip, served, flux),
        "0644"@,
    );
    starts_end_with_the_unit(cluster::prepare_coold_text(pin), anchor, resolver, unit);
    preparations_come_first(pin, cluster::start_coold_text(anchor, resolver, unit));
}

proof fn starts_end_with_the_unit(
    prep: Seq<char>,
    anchor: Seq<char>,
    resolver: Seq<char>,
    unit: Seq<char>,
)
    ensures
        text::has_suffix(
            prep + cluster::start_coold_text(anchor, resolver, unit),
            unit
                + " && systemctl daemon-reload && systemctl enable --now coolify-mesh-dns-anchor.service coolify-mesh-dns-resolver.service coold"@,
        ),
{
    let last = " && systemctl daemon-reload && systemctl enable --now coolify-mesh-dns-anchor.service coolify-mesh-dns-resolver.service coold"@;
    let head = "rm -f /etc/systemd/resolved.conf.d/coolify-internal.conf && "@ + anchor + " && "@
        + resolver + " && "@;
    assert(cluster::start_coold_text(anchor, resolver, unit) =~= head + (unit + last));
    assert(prep + (head + (unit + last)) =~= (prep + head) + (unit + last));
    script_laws::stands_last(prep + head, unit + last);
}

proof fn preparations_come_first(pin: Option<Seq<char>>, rest: Seq<char>)
    ensures
        text::has_prefix(
            cluster::prepare_coold_text(pin) + rest,
            "mkdir -p /etc/coolify /data/coolify && "@,
        ),
        pin matches Some(cert) ==> text::has_prefix(
            cluster::prepare_coold_text(pin) + rest,
            "mkdir -p /etc/coolify /data/coolify && "@ + ssh::heredoc_text(
                "/etc/coolify/flux.pin"@,
                cert,
                "0644"@,
            ),
        ),
{
    let first = "mkdir -p /etc/coolify /data/coolify && "@;
    let all = cluster::prepare_coold_text(pin) + rest;
    match pin {
        Some(cert) => {
            let p = ssh::heredoc_text(state::FLUX_PIN_PATH@, cert, "0644"@);
            joined_parts(first, p, " && "@, rest);
            script_laws::stands_first(first, p + " && "@ + rest);
            script_laws::stands_first(first + p, " && "@ + rest);
        },
        None => {
            assert(all =~= first + rest);
            script_laws::stands_first(first, rest);
        },
    }
}

proof fn joined_parts(a: Seq<char>, b: Seq<char>, c: Seq<char>, d: Seq<char>)
    ensures
        (a + (b + c)) + d == a + (b + c + d),
        (a + (b + c)) + d == (a + b) + (c + d),
{
    assert((a + (b + c)) + d =~= a + (b + c + d));
    assert((a + (b + c)) + d =~= (a + b) + (c + d));
}

/// The certificate and the key of gossip are written before Corrosion starts, the key readable by
/// its owner alone; where gossip is plain nothing but the start is left.
pub proof fn gossip_certificates_come_first(
    tls: Option<state::SelfSignedCert>,
    then: Seq<char>,
)
    ensures
        ({
            let c = corrosion::with_gossip_tls(tls, then);
            &&& text::has_suffix(c, then)
            &&& tls is None ==> c == then
            &&& tls matches Some(x) ==> text::has_text(
                c,
                ssh::heredoc_text("/etc/corrosion/tls/cert.pem"@, x.cert_pem@, "0644"@),
            ) && text::has_text(
                c,
                "(umask 077 && "@ + ssh::heredoc_text(
                    "/etc/corrosion/tls/key.pem"@,
                    x.key_pem@,
                    "0600"@,
                ) + ") && "@,
            )
        }),
{
    let c = corrosion::with_gossip_tls(tls, then);
    match tls {
        None => {
            script_laws::stands_last(Seq::empty(), then);
            assert(Seq::<char>::empty() + then =~= then);
        },
        Some(x) => {
            let a = "mkdir -p /etc/corrosion/tls && "@;
            let cert = ssh::heredoc_text("/etc/corrosion/tls/cert.pem"@, x.cert_pem@, "0644"@);
            let key = ssh::heredoc_text("/etc/corrosion/tls/key.pem"@, x.key_pem@, "0600"@);
            let m = " && (umask 077 && "@;
            assert(m =~= " && "@ + "(umask 077 && "@) by {
                reveal_strlit(" && (umask 077 && ");
                reveal_strlit(" && ");
                reveal_strlit("(umask 077 && ");
            }
            let k = "(umask 077 && "@ + key + ") && "@;
            assert(c =~= (a + cert + " && "@ + k) + then);
            script_laws::stands_last(a + cert + " && "@ + k, then);
            assert(c =~= a + cert + (" && "@ + k + then));
            script_laws::stands_between(a, cert, " && "@ + k + then);
            assert(c =~= (a + cert + " && "@) + k + then);
            script_laws::stands_between(a + cert + " && "@, k, then);
        },
    }
}

} // verus!
