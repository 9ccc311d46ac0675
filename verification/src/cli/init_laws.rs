//! How the flags of a run become the mesh that is wanted.

use vstd::prelude::*;
use crate::cli::config_laws;
use crate::cli::init;
use crate::cli::init::BaseInitFlags;
use crate::cooldctl::init as control;
use crate::keyed;
use crate::mesh::intent::Intent;
use crate::mesh::state::DesiredMesh;
use crate::net;
use crate::number;
use crate::split;
use crate::text;

verus! {

/// The nodes are the ones that are named, without the white space around them; blank ones are
/// left out.
pub proof fn nodes_are_trimmed(hosts: Seq<Seq<char>>, x: Seq<char>)
    ensures
        init::cleaned(hosts).contains(x) <==> exists|i: int|
            0 <= i < hosts.len() && !split::is_blank(#[trigger] hosts[i]) && split::trimmed(hosts[i])
                == x,
    decreases hosts.len(),
{
    if hosts.len() > 0 {
        let p = hosts.drop_last();
        let l = hosts.last();
        nodes_are_trimmed(p, x);
        assert(hosts[hosts.len() - 1] == l);
        if init::cleaned(p).contains(x) {
            let i = choose|i: int|
                0 <= i < p.len() && !split::is_blank(#[trigger] p[i]) && split::trimmed(p[i]) == x;
            assert(hosts[i] == p[i]);
        }
        if !split::is_blank(l) {
            init::contains_push(init::cleaned(p), split::trimmed(l), x);
        }
        if exists|i: int|
            0 <= i < hosts.len() && !split::is_blank(#[trigger] hosts[i]) && split::trimmed(hosts[i])
                == x {
            let i = choose|i: int|
                0 <= i < hosts.len() && !split::is_blank(#[trigger] hosts[i]) && split::trimmed(
                    hosts[i],
                ) == x;
            if i < p.len() {
                assert(p[i] == hosts[i]);
            }
        }
    }
}

/// Nodes are refused if and only if one of them is named twice.
pub proof fn nodes_are_refused_only_where_repeated(nodes: Seq<Seq<char>>)
    ensures
        init::distinct_nodes(nodes) is Err <==> exists|i: int, j: int|
            0 <= i < j < nodes.len() && #[trigger] nodes[i] == #[trigger] nodes[j] && nodes[i].len()
                > 0,
    decreases nodes.len(),
{
    if nodes.len() > 0 {
        let p = nodes.drop_last();
        let l = nodes.last();
        nodes_are_refused_only_where_repeated(p);
        assert(nodes[nodes.len() - 1] == l);
        if init::distinct_nodes(p) is Err {
            let (i, j) = choose|i: int, j: int|
                0 <= i < j < p.len() && #[trigger] p[i] == #[trigger] p[j] && p[i].len() > 0;
            assert(nodes[i] == nodes[j]);
        } else {
            init::distinct_nodes_are_distinct(p);
            let t = init::distinct_nodes(p)->Ok_0;
            if l.len() > 0 && t.contains(l) {
                assert(p.contains(l));
                let i = choose|i: int| 0 <= i < p.len() && p[i] == l;
                assert(nodes[i] == nodes[nodes.len() - 1]);
            }
        }
        if exists|i: int, j: int|
            0 <= i < j < nodes.len() && #[trigger] nodes[i] == #[trigger] nodes[j] && nodes[i].len()
                > 0 {
            let (i, j) = choose|i: int, j: int|
                0 <= i < j < nodes.len() && #[trigger] nodes[i] == #[trigger] nodes[j]
                    && nodes[i].len() > 0;
            if j < p.len() {
                assert(p[i] == p[j]);
            } else {
                assert(p[i] == l);
                assert(p.contains(l));
                if init::distinct_nodes(p) is Ok {
                    init::distinct_nodes_are_distinct(p);
                    assert(init::distinct_nodes(p)->Ok_0.contains(l));
                }
            }
        }
    }
}

proof fn splits_at_the_sign(host: Seq<char>, tail: Seq<char>)
    requires
        !host.contains('='),
    ensures
        text::split_once_spec(host + "="@ + tail, '=') == Some((host, tail)),
{
    reveal_strlit("=");
    let s = host + "="@ + tail;
    assert forall|j: int| 0 <= j < host.len() implies s[j] != '=' by {
        assert(s[j] == host[j]);
    }
    assert(s[host.len() as int] == '=');
    text::find_char_is(s, '=', host.len() as int);
    assert(s.take(host.len() as int) =~= host);
    assert(s.skip(host.len() as int + 1) =~= tail);
}

/// A port that is given for a node is the port of that node, and of no other.
pub proof fn ports_are_those_of_their_nodes(
    values: Seq<Seq<char>>,
    host: Seq<char>,
    port: u16,
    other: Seq<char>,
)
    requires
        init::port_overrides(values) is Ok,
        !host.contains('='),
    ensures
        ({
            let r = init::port_overrides(values.push(host + "="@ + number::decimal(port as nat)));
            &&& r is Ok
            &&& keyed::lookup(r->Ok_0, split::trimmed(host)) == Some(port)
            &&& other != split::trimmed(host) ==> keyed::lookup(r->Ok_0, other) == keyed::lookup(
                init::port_overrides(values)->Ok_0,
                other,
            )
        }),
{
    let raw = number::decimal(port as nat);
    let v = host + "="@ + raw;
    let m = init::port_overrides(values)->Ok_0;
    splits_at_the_sign(host, raw);
    config_laws::number_reads_back(port as nat, 65535);
    assert(values.push(v).drop_last() =~= values);
    keyed::lookup_put(m, split::trimmed(host), port, split::trimmed(host));
    keyed::lookup_put(m, split::trimmed(host), port, other);
}

/// An endpoint that is given for a node is the endpoint of that node, and of no other.
pub proof fn endpoints_are_those_of_their_nodes(
    values: Seq<Seq<char>>,
    host: Seq<char>,
    endpoint: Seq<char>,
    other: Seq<char>,
)
    requires
        init::endpoint_overrides(values) is Ok,
        !host.contains('='),
    ensures
        ({
            let r = init::endpoint_overrides(values.push(host + "="@ + endpoint));
            &&& r is Ok
            &&& keyed::lookup(r->Ok_0, split::trimmed(host)) == Some(split::trimmed(endpoint))
            &&& other != split::trimmed(host) ==> keyed::lookup(r->Ok_0, other) == keyed::lookup(
                init::endpoint_overrides(values)->Ok_0,
                other,
            )
        }),
{
    let v = host + "="@ + endpoint;
    let m = init::endpoint_overrides(values)->Ok_0;
    splits_at_the_sign(host, endpoint);
    assert(values.push(v).drop_last() =~= values);
    keyed::lookup_put(m, split::trimmed(host), split::trimmed(endpoint), split::trimmed(host));
    keyed::lookup_put(m, split::trimmed(host), split::trimmed(endpoint), other);
}

/// An override that does not name its node is refused.
pub proof fn overrides_name_their_nodes(values: Seq<Seq<char>>, v: Seq<char>)
    requires
        !v.contains('='),
    ensures
        init::port_overrides(values.push(v)) is Err,
        init::endpoint_overrides(values.push(v)) is Err,
{
    assert(values.push(v).drop_last() =~= values);
    text::find_char_props(v, '=');
    if text::find_char(v, '=') < v.len() {
        assert(v.contains(v[text::find_char(v, '=')]));
    }
}

/// Flux is dialled by the first of its names that is not a name of the local host alone; there is
/// none only where each name is.
pub proof fn flux_is_dialled_from_elsewhere(sans: Seq<Seq<char>>, i: int)
    requires
        0 <= i <= sans.len(),
    ensures
        init::reachable_from(sans, i) matches Some(x) ==> sans.contains(x) && !init::local_san(x),
        init::reachable_from(sans, i) is None <==> forall|j: int|
            i <= j < sans.len() ==> init::local_san(#[trigger] sans[j]),
    decreases sans.len() - i,
{
    if i < sans.len() {
        flux_is_dialled_from_elsewhere(sans, i + 1);
        if init::local_san(sans[i]) {
            assert forall|j: int| i <= j < sans.len() && (forall|k: int|
                i + 1 <= k < sans.len() ==> init::local_san(#[trigger] sans[k])) implies
                init::local_san(#[trigger] sans[j]) by {}
        }
    }
}

/// The names of the local host are its own name and the addresses that only it answers, in any
/// case and with white space around them.
pub proof fn local_names_stay_local(san: Seq<char>)
    ensures
        init::local_san(san) <==> seq!["localhost"@, "127.0.0.1"@, "::1"@, "0.0.0.0"@, ""@].contains(
            split::lowered(split::trimmed(san)),
        ),
{
    let a = seq!["localhost"@, "127.0.0.1"@, "::1"@, "0.0.0.0"@, ""@];
    assert(a[0] == "localhost"@ && a[1] == "127.0.0.1"@ && a[2] == "::1"@ && a[3] == "0.0.0.0"@
        && a[4] == ""@);
}

/// Where flux is dialled over TLS, the nodes dial one of its names that is not local, at its port.
pub proof fn flux_urls_name_the_flux_host(base: BaseInitFlags)
    ensures
        !base.enable_flux_tls ==> init::wanted_flux_url(base) is None,
        base.enable_flux_tls ==> (init::wanted_flux_url(base) is Some <==> init::sans_error(base)
            is None),
        init::wanted_flux_url(base) matches Some(u) ==> exists|host: Seq<char>|
            #[trigger] init::cleaned(text::views(base.flux_tls_san@)).contains(host)
                && !init::local_san(host) && u == "https://"@ + host + ":"@ + number::decimal(
                base.flux_port as nat,
            ),
{
    flux_is_dialled_from_elsewhere(init::flux_sans(base), 0);
}

/// The mesh that is wanted has the nodes, the network, the ports, the versions and the switches
/// that were asked for, each of them from its own flag.
pub proof fn meshes_are_as_asked(
    d: DesiredMesh,
    base: BaseInitFlags,
    intent: Intent,
    new_nodes: Seq<Seq<char>>,
    allow_replace: bool,
    allow_nightly: bool,
    x: Seq<char>,
)
    requires
        init::asked_for(d, base, intent, new_nodes, allow_replace, allow_nightly),
    ensures
        text::views(d.hosts@).no_duplicates(),
        text::views(d.hosts@).contains(x) <==> init::cleaned(text::views(base.ssh.nodes@)).contains(
            x,
        ) && x.len() > 0,
        text::views(d.nodes@).contains(x) <==> init::cleaned(text::views(base.ssh.nodes@)).contains(
            x,
        ),
        d.interface@ == base.wg_interface@,
        net::net_parsed(base.wg_mgmt_pool@) == Some((d.mgmt_pool.ip(), d.mgmt_pool.prefix())),
        net::net_parsed(base.mesh.container_pool@) == Some(
            (d.container_pool.ip(), d.container_pool.prefix()),
        ),
        d.container_prefix == base.mesh.container_prefix,
        d.listen_port == base.wg_listen_port,
        d.install_podman && d.install_coold,
        text::views(d.namespaces@) == text::views(base.mesh.namespaces@),
        d.default_deny_containers <==> !base.skip_default_deny,
        d.coold_version@ == base.coold_version@,
        d.corrosion_version@ == base.corrosion_version@,
        d.corrosion_gossip_port == base.corrosion_gossip_port,
        d.corrosion_api_port == base.corrosion_api_port,
        text::opt_view(d.coold_sha256) == text::opt_view(base.coold_sha256),
        text::opt_view(d.corrosion_sha256) == text::opt_view(base.corrosion_sha256),
        d.corrosion_gossip_tls is Some <==> base.enable_corrosion_gossip_tls,
        d.flux_tls is Some <==> base.enable_flux_tls,
        d.flux_tls_url is Some ==> base.enable_flux_tls,
        d.central_host@.len() == 0,
        d.intent == intent,
        d.allow_replace == allow_replace,
        d.allow_nightly == allow_nightly,
        text::views(d.new_nodes@).contains(x) <==> exists|i: int|
            0 <= i < new_nodes.len() && !split::is_blank(#[trigger] new_nodes[i]) && split::trimmed(
                new_nodes[i],
            ) == x,
{
    init::distinct_nodes_are_distinct(init::wanted_nodes(base));
    nodes_are_trimmed(new_nodes, x);
}

/// A mesh is wanted only where nodes are named, and none of them twice, and both address pools can
/// be read.
pub proof fn flags_are_checked(base: BaseInitFlags, gossip: Option<Seq<char>>, flux: Option<Seq<char>>)
    requires
        init::desired_error(base, gossip, flux) is None,
    ensures
        init::flags_error(base) is None,
        init::cleaned(text::views(base.ssh.nodes@)).len() > 0,
        init::distinct_nodes(init::cleaned(text::views(base.ssh.nodes@))) is Ok,
        net::net_parsed(base.wg_mgmt_pool@) is Some,
        net::net_parsed(base.mesh.container_pool@) is Some,
        base.enable_corrosion_gossip_tls ==> gossip is None,
        base.enable_flux_tls ==> flux is None && init::sans_error(base) is None,
{
}

proof fn others_are_others(nodes: Seq<Seq<char>>, central: Seq<char>, x: Seq<char>)
    ensures
        control::others(nodes, central).contains(x) <==> nodes.contains(x) && x != central,
    decreases nodes.len(),
{
    if nodes.len() > 0 {
        let p = nodes.drop_last();
        let l = nodes.last();
        others_are_others(p, central, x);
        assert(nodes =~= p.push(l));
        init::contains_push(p, l, x);
        init::contains_push(control::others(p, central), l, x);
    }
}

/// With a central host, the hosts are that one and the nodes; without, they are the nodes.
pub proof fn the_central_host_is_among_the_hosts(
    central: Seq<char>,
    nodes: Seq<Seq<char>>,
    x: Seq<char>,
)
    requires
        control::all_hosts(central, nodes) is Ok,
    ensures
        control::all_hosts(central, nodes)->Ok_0.contains(x) <==> (x.len() > 0 && nodes.contains(x))
            || (x == central && central.len() > 0),
        central.len() > 0 ==> control::all_hosts(central, nodes)->Ok_0[0] == central,
{
    let ns = init::distinct_nodes(nodes)->Ok_0;
    init::distinct_nodes_are_distinct(nodes);
    assert(ns.contains(x) <==> nodes.contains(x) && x.len() > 0);
    others_are_others(ns, central, x);
    if central.len() > 0 {
        let o = control::others(ns, central);
        let all = seq![central] + o;
        assert(all[0] == central);
        if o.contains(x) {
            let k = choose|k: int| 0 <= k < o.len() && o[k] == x;
            assert(all[k + 1] == x);
        }
        if all.contains(x) {
            let k = choose|k: int| 0 <= k < all.len() && all[k] == x;
            if k > 0 {
                assert(o[k - 1] == x);
            }
        }
    }
}

/// Builders are nodes of the mesh: there is a stray one if and only if some builder is no node.
pub proof fn builders_are_nodes(hosts: Seq<Seq<char>>, nodes: Seq<Seq<char>>, i: int)
    requires
        0 <= i <= hosts.len(),
    ensures
        control::first_stray(hosts, nodes, i) is None <==> forall|j: int|
            i <= j < hosts.len() ==> nodes.contains(#[trigger] hosts[j]),
        control::first_stray(hosts, nodes, i) matches Some(h) ==> hosts.contains(h)
            && !nodes.contains(h),
    decreases hosts.len() - i,
{
    if i < hosts.len() {
        builders_are_nodes(hosts, nodes, i + 1);
        if nodes.contains(hosts[i]) {
            assert forall|j: int| i <= j < hosts.len() && (forall|k: int|
                i + 1 <= k < hosts.len() ==> nodes.contains(#[trigger] hosts[k])) implies
                nodes.contains(#[trigger] hosts[j]) by {}
        }
    }
}

/// The mesh that is wanted with a control plane has the nodes, the central host, the builders, the
/// network, the ports and the versions that were asked for, each of them from its own flag.
pub proof fn controlled_meshes_are_as_asked(
    d: DesiredMesh,
    base: control::BaseInitFlags,
    intent: Intent,
    new_nodes: Seq<Seq<char>>,
    allow_replace: bool,
    allow_nightly: bool,
    x: Seq<char>,
)
    requires
        control::asked_for(d, base, intent, new_nodes, allow_replace, allow_nightly),
    ensures
        text::views(d.hosts@).contains(x) <==> (x.len() > 0 && init::cleaned(
            text::views(base.ssh.nodes@),
        ).contains(x)) || (x == base.central@ && base.central@.len() > 0),
        text::views(d.nodes@) == init::cleaned(text::views(base.ssh.nodes@)),
        d.central_host@ == base.central@,
        d.interface@ == base.wg_interface@,
        net::net_parsed(base.wg_mgmt_pool@) == Some((d.mgmt_pool.ip(), d.mgmt_pool.prefix())),
        net::net_parsed(base.mesh.container_pool@) == Some(
            (d.container_pool.ip(), d.container_pool.prefix()),
        ),
        d.container_prefix == base.mesh.container_prefix,
        d.listen_port == base.wg_listen_port,
        d.listen_port_overrides@.len() == 0 && d.endpoint_overrides@.len() == 0,
        d.install_podman && d.install_coold,
        text::views(d.namespaces@) == text::views(base.mesh.namespaces@),
        d.default_deny_containers <==> !base.skip_default_deny,
        d.coold_version@ == base.coold_version@,
        d.corrosion_version@ == base.corrosion_version@,
        d.coolify_version@ == base.coolify_version@,
        d.scheduler_version@ == base.scheduler_version@,
        d.corrosion_gossip_port == base.corrosion_gossip_port,
        d.corrosion_api_port == base.corrosion_api_port,
        d.enable_builder <==> base.enable_builder,
        text::views(d.builder_hosts@) == text::views(base.builder_hosts@),
        d.builder_capacity == base.builder_capacity,
        d.builder_cpu_quota@ == base.builder_cpu_quota@,
        d.builder_memory_max@ == base.builder_memory_max@,
        d.builder_timeout_secs == base.builder_timeout_secs,
        d.intent == intent,
        d.allow_replace == allow_replace,
        d.allow_nightly == allow_nightly,
        text::views(d.new_nodes@).contains(x) <==> exists|i: int|
            0 <= i < new_nodes.len() && !split::is_blank(#[trigger] new_nodes[i]) && split::trimmed(
                new_nodes[i],
            ) == x,
{
    the_central_host_is_among_the_hosts(base.central@, control::wanted_nodes(base), x);
    nodes_are_trimmed(new_nodes, x);
}

} // verus!
