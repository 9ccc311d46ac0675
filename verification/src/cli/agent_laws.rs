//! What the agents of a node are configured with.

use vstd::prelude::*;
use crate::cli::checksum;
use crate::cli::config;
use crate::cli::config::PeerConfigView;
use crate::cli::config_laws;
use crate::cli::coold;
use crate::cli::coold::CooldNamespaceView;
use crate::cli::corrosion;
use crate::cli::corrosion::{CorrosionFiles, InputsView};
use crate::cli::script_laws::{stands_between, stands_inside};
use crate::keyed;
use crate::mesh::state::{DesiredMesh, FluxView};
use crate::net;
use crate::net::Ipv4Net;
use crate::number;
use crate::split;
use crate::text;

verus! {

/// A node gossips with the other nodes of the mesh that have an address, and not with itself.
pub proof fn nodes_gossip_with_the_others(
    nodes: Seq<Seq<char>>,
    mgmt: Seq<(Seq<char>, u32)>,
    host: Seq<char>,
    ip: u32,
)
    ensures
        corrosion::peer_ips(nodes, mgmt, host).contains(ip) <==> exists|i: int|
            0 <= i < nodes.len() && #[trigger] nodes[i] != host && keyed::lookup(mgmt, nodes[i])
                == Some(ip),
    decreases nodes.len(),
{
    if nodes.len() > 0 {
        let p = nodes.drop_last();
        let l = nodes.last();
        let q = corrosion::peer_ips(p, mgmt, host);
        let r = corrosion::peer_ips(nodes, mgmt, host);
        nodes_gossip_with_the_others(p, mgmt, host, ip);
        assert(nodes[nodes.len() - 1] == l);
        if q.contains(ip) {
            let k = choose|k: int| 0 <= k < q.len() && q[k] == ip;
            assert(r[k] == ip);
            let i = choose|i: int|
                0 <= i < p.len() && #[trigger] p[i] != host && keyed::lookup(mgmt, p[i]) == Some(ip);
            assert(nodes[i] == p[i]);
        }
        if r.contains(ip) && !q.contains(ip) {
            let k = choose|k: int| 0 <= k < r.len() && r[k] == ip;
            if k < q.len() {
                assert(q[k] == ip);
            }
        }
        if exists|i: int|
            0 <= i < nodes.len() && #[trigger] nodes[i] != host && keyed::lookup(mgmt, nodes[i])
                == Some(ip) {
            let i = choose|i: int|
                0 <= i < nodes.len() && #[trigger] nodes[i] != host && keyed::lookup(mgmt, nodes[i])
                    == Some(ip);
            if i < p.len() {
                assert(p[i] == nodes[i]);
            } else {
                assert(r[q.len() as int] == ip);
            }
        }
    }
}

/// Corrosion binds the address of its node, listens on the ports of the mesh, and gossips over TLS
/// if and only if the mesh has a certificate for it.
pub proof fn corrosion_binds_its_node(
    d: DesiredMesh,
    mgmt: Seq<(Seq<char>, u32)>,
    host: Seq<char>,
    ip: u32,
)
    requires
        keyed::lookup(mgmt, host) == Some(ip),
    ensures
        corrosion::inputs_of(d, mgmt, host).mgmt_ip == ip,
        corrosion::inputs_of(d, mgmt, host).gossip_port == d.corrosion_gossip_port,
        corrosion::inputs_of(d, mgmt, host).api_port == d.corrosion_api_port,
        corrosion::inputs_of(d, mgmt, host).gossip_tls <==> d.corrosion_gossip_tls is Some,
        forall|x: u32|
            corrosion::inputs_of(d, mgmt, host).peers.contains(x) <==> exists|i: int|
                0 <= i < d.nodes@.len() && #[trigger] text::views(d.nodes@)[i] != host
                    && keyed::lookup(mgmt, text::views(d.nodes@)[i]) == Some(x),
{
    let nodes = text::views(d.nodes@);
    assert forall|x: u32|
        corrosion::inputs_of(d, mgmt, host).peers.contains(x) <==> exists|i: int|
            0 <= i < d.nodes@.len() && #[trigger] nodes[i] != host && keyed::lookup(mgmt, nodes[i])
                == Some(x) by {
        nodes_gossip_with_the_others(nodes, mgmt, host, x);
    }
}

// ---------------------------------------------------------------------------
// Places
// ---------------------------------------------------------------------------

proof fn nothing_is_replaced(s: Seq<char>, q: Seq<char>, to: Seq<char>, i: int)
    requires
        0 <= i <= s.len(),
        forall|j: int| 0 <= j < s.len() ==> !text::stands_at(s, q, j),
    ensures
        text::replaced_from(s, q, to, i) == s.skip(i),
    decreases s.len() - i,
{
    if i < s.len() {
        nothing_is_replaced(s, q, to, i + 1);
        assert(!text::stands_at(s, q, i));
        assert(seq![s[i]] + s.skip(i + 1) =~= s.skip(i));
    } else {
        assert(s.skip(i) =~= Seq::empty());
    }
}

proof fn place_is_replaced(x: Seq<char>, p: Seq<char>, y: Seq<char>, to: Seq<char>, i: int)
    requires
        p.len() > 0,
        p[0] == '{',
        !x.contains('{'),
        !y.contains('{'),
        0 <= i <= x.len(),
    ensures
        text::replaced_from(x + p + y, p, to, i) == x.skip(i) + to + y,
    decreases x.len() - i,
{
    let s = x + p + y;
    let n = (x.len() + p.len()) as int;
    if i < x.len() {
        if text::stands_at(s, p, i) {
            assert(s.subrange(i, i + p.len())[0] == s[i]);
            assert(s[i] == x[i]);
            assert(x.contains(x[i]));
        }
        place_is_replaced(x, p, y, to, i + 1);
        assert(s[i] == x[i]);
        assert(seq![x[i]] + (x.skip(i + 1) + to + y) =~= x.skip(i) + to + y);
    } else {
        assert(s.subrange(i, i + p.len()) =~= p);
        assert(text::stands_at(s, p, i));
        tail_is_kept(x, p, y, to, n);
        assert(to + s.skip(n) =~= x.skip(i) + to + y);
    }
}

proof fn tail_is_kept(x: Seq<char>, p: Seq<char>, y: Seq<char>, to: Seq<char>, i: int)
    requires
        p.len() > 0,
        p[0] == '{',
        !y.contains('{'),
        x.len() + p.len() <= i <= (x + p + y).len(),
    ensures
        text::replaced_from(x + p + y, p, to, i) == (x + p + y).skip(i),
    decreases (x + p + y).len() - i,
{
    let s = x + p + y;
    if i < s.len() {
        let k = i - x.len() - p.len();
        if text::stands_at(s, p, i) {
            assert(s.subrange(i, i + p.len())[0] == s[i]);
            assert(s[i] == y[k]);
            assert(y.contains(y[k]));
        }
        tail_is_kept(x, p, y, to, i + 1);
        assert(seq![s[i]] + s.skip(i + 1) =~= s.skip(i));
    } else {
        assert(s.skip(i) =~= Seq::empty());
    }
}

/// Whether a text is a place that is filled in.
spec fn is_place(p: Seq<char>) -> bool {
    p.len() > 2 && p[0] == '{' && p[1] == '{' && forall|j: int|
        2 <= j < p.len() ==> #[trigger] p[j] != '{'
}

proof fn other_places_stay(
    x: Seq<char>,
    p: Seq<char>,
    y: Seq<char>,
    q: Seq<char>,
    to: Seq<char>,
    j: int,
)
    requires
        is_place(p),
        is_place(q),
        !x.contains('{'),
        !y.contains('{'),
        0 <= j < p.len(),
        0 <= j < q.len(),
        p[j] != q[j],
    ensures
        text::replaced_text(x + p + y, q, to) == x + p + y,
{
    let s = x + p + y;
    assert forall|i: int| 0 <= i < s.len() implies !text::stands_at(s, q, i) by {
        if text::stands_at(s, q, i) {
            let sub = s.subrange(i, i + q.len());
            assert(sub[0] == s[i] && sub[1] == s[i + 1] && sub[j] == s[i + j]);
            let k = i - x.len();
            if i < x.len() {
                assert(s[i] == x[i]);
                assert(x.contains(x[i]));
            } else if k == 0 {
                assert(s[i + j] == p[j]);
            } else if k == 1 {
                assert(s[i + 1] == p[2]);
            } else if k < p.len() {
                assert(s[i] == p[k]);
            } else {
                assert(s[i] == y[k - p.len()]);
                assert(y.contains(y[k - p.len()]));
            }
        }
    }
    nothing_is_replaced(s, q, to, 0);
    assert(s.skip(0) =~= s);
}

proof fn plain_text_stays(s: Seq<char>, q: Seq<char>, to: Seq<char>)
    requires
        is_place(q),
        !s.contains('{'),
    ensures
        text::replaced_text(s, q, to) == s,
{
    assert forall|i: int| 0 <= i < s.len() implies !text::stands_at(s, q, i) by {
        if text::stands_at(s, q, i) {
            assert(s.subrange(i, i + q.len())[0] == s[i]);
            assert(s.contains(s[i]));
        }
    }
    nothing_is_replaced(s, q, to, 0);
    assert(s.skip(0) =~= s);
}

proof fn places_are_places()
    ensures
        is_place("{{mgmt_ip}}"@),
        is_place("{{gossip_port}}"@),
        is_place("{{api_port}}"@),
        is_place("{{peers}}"@),
        is_place("{{gossip_tls}}"@),
        "{{mgmt_ip}}"@[2] == 'm',
        "{{gossip_port}}"@[2] == 'g',
        "{{api_port}}"@[2] == 'a',
        "{{peers}}"@[2] == 'p',
        "{{gossip_tls}}"@[2] == 'g',
        "{{gossip_port}}"@[9] == 'p',
        "{{gossip_tls}}"@[9] == 't',
        "{{gossip_port}}"@.len() == 15,
        "{{gossip_tls}}"@.len() == 14,
{
    reveal_strlit("{{mgmt_ip}}");
    reveal_strlit("{{gossip_port}}");
    reveal_strlit("{{api_port}}");
    reveal_strlit("{{peers}}");
    reveal_strlit("{{gossip_tls}}");
}

proof fn braceless(x: Seq<char>, m: Seq<char>, y: Seq<char>)
    requires
        !x.contains('{'),
        !m.contains('{'),
        !y.contains('{'),
    ensures
        !(x + m + y).contains('{'),
{
    config_laws::no_char_add(x, m, '{');
    config_laws::no_char_add(x + m, y, '{');
}

/// The place of the address in the configuration of Corrosion gets the address of the node.
pub proof fn the_place_of_the_address_gets_the_address(
    x: Seq<char>,
    y: Seq<char>,
    v: InputsView,
)
    requires
        !x.contains('{'),
        !y.contains('{'),
    ensures
        corrosion::filled(x + "{{mgmt_ip}}"@ + y, v) == x + net::dotted(v.mgmt_ip) + y,
{
    places_are_places();
    let to = net::dotted(v.mgmt_ip);
    place_is_replaced(x, "{{mgmt_ip}}"@, y, to, 0);
    assert(x.skip(0) =~= x);
    config_laws::dotted_net_like(v.mgmt_ip);
    assert(!to.contains('{'));
    braceless(x, to, y);
    let s = x + to + y;
    plain_text_stays(s, "{{gossip_port}}"@, number::decimal(v.gossip_port as nat));
    plain_text_stays(s, "{{api_port}}"@, number::decimal(v.api_port as nat));
    plain_text_stays(s, "{{peers}}"@, corrosion::peers_text(v.peers, v.gossip_port));
    plain_text_stays(s, "{{gossip_tls}}"@, corrosion::gossip_tls_text(v.gossip_tls));
}

/// The place of the gossip port in the configuration of Corrosion gets that port.
pub proof fn the_place_of_the_gossip_port_gets_the_gossip_port(
    x: Seq<char>,
    y: Seq<char>,
    v: InputsView,
)
    requires
        !x.contains('{'),
        !y.contains('{'),
    ensures
        corrosion::filled(x + "{{gossip_port}}"@ + y, v) == x + number::decimal(
            v.gossip_port as nat,
        ) + y,
{
    places_are_places();
    let p = "{{gossip_port}}"@;
    let to = number::decimal(v.gossip_port as nat);
    other_places_stay(x, p, y, "{{mgmt_ip}}"@, net::dotted(v.mgmt_ip), 2);
    place_is_replaced(x, p, y, to, 0);
    assert(x.skip(0) =~= x);
    config_laws::decimal_reads_back(v.gossip_port as nat);
    config_laws::digits_hold_no(to, '{');
    braceless(x, to, y);
    let s = x + to + y;
    plain_text_stays(s, "{{api_port}}"@, number::decimal(v.api_port as nat));
    plain_text_stays(s, "{{peers}}"@, corrosion::peers_text(v.peers, v.gossip_port));
    plain_text_stays(s, "{{gossip_tls}}"@, corrosion::gossip_tls_text(v.gossip_tls));
}

/// The place of the interface port in the configuration of Corrosion gets that port.
pub proof fn the_place_of_the_api_port_gets_the_api_port(x: Seq<char>, y: Seq<char>, v: InputsView)
    requires
        !x.contains('{'),
        !y.contains('{'),
    ensures
        corrosion::filled(x + "{{api_port}}"@ + y, v) == x + number::decimal(v.api_port as nat) + y,
{
    places_are_places();
    let p = "{{api_port}}"@;
    let to = number::decimal(v.api_port as nat);
    other_places_stay(x, p, y, "{{mgmt_ip}}"@, net::dotted(v.mgmt_ip), 2);
    other_places_stay(x, p, y, "{{gossip_port}}"@, number::decimal(v.gossip_port as nat), 2);
    place_is_replaced(x, p, y, to, 0);
    assert(x.skip(0) =~= x);
    config_laws::decimal_reads_back(v.api_port as nat);
    config_laws::digits_hold_no(to, '{');
    braceless(x, to, y);
    let s = x + to + y;
    plain_text_stays(s, "{{peers}}"@, corrosion::peers_text(v.peers, v.gossip_port));
    plain_text_stays(s, "{{gossip_tls}}"@, corrosion::gossip_tls_text(v.gossip_tls));
}

proof fn peers_hold_no_brace(peers: Seq<u32>, port: u16)
    ensures
        !corrosion::peers_text(peers, port).contains('{'),
{
    let parts = Seq::new(peers.len(), |i: int| corrosion::peer_text(peers[i], port));
    assert forall|i: int| 0 <= i < parts.len() implies !(#[trigger] parts[i]).contains('{') by {
        reveal_strlit("\"");
        reveal_strlit(":");
        let d = net::dotted(peers[i]);
        let n = number::decimal(port as nat);
        config_laws::dotted_net_like(peers[i]);
        config_laws::decimal_reads_back(port as nat);
        config_laws::digits_hold_no(n, '{');
        config_laws::no_char_add("\""@, d, '{');
        config_laws::no_char_add("\""@ + d, ":"@, '{');
        config_laws::no_char_add("\""@ + d + ":"@, n, '{');
        config_laws::no_char_add("\""@ + d + ":"@ + n, "\""@, '{');
    }
    joined_holds_no_brace(parts);
}

proof fn joined_holds_no_brace(parts: Seq<Seq<char>>)
    requires
        forall|i: int| 0 <= i < parts.len() ==> !(#[trigger] parts[i]).contains('{'),
    ensures
        !split::joined(parts, ", "@).contains('{'),
    decreases parts.len(),
{
    reveal_strlit(", ");
    if parts.len() > 1 {
        let p = parts.drop_last();
        assert forall|i: int| 0 <= i < p.len() implies !(#[trigger] p[i]).contains('{') by {
            assert(p[i] == parts[i]);
        }
        joined_holds_no_brace(p);
        assert(!parts[parts.len() - 1].contains('{'));
        config_laws::no_char_add(split::joined(p, ", "@), ", "@, '{');
        config_laws::no_char_add(split::joined(p, ", "@) + ", "@, parts.last(), '{');
    } else if parts.len() == 1 {
        assert(!parts[0].contains('{'));
    }
}

/// The place of the peers in the configuration of Corrosion gets the addresses of the peers, each
/// with the gossip port.
pub proof fn the_place_of_the_peers_gets_the_peers(x: Seq<char>, y: Seq<char>, v: InputsView)
    requires
        !x.contains('{'),
        !y.contains('{'),
    ensures
        corrosion::filled(x + "{{peers}}"@ + y, v) == x + split::joined(
            Seq::new(
                v.peers.len(),
                |i: int|
                    "\""@ + net::dotted(v.peers[i]) + ":"@ + number::decimal(v.gossip_port as nat)
                        + "\""@,
            ),
            ", "@,
        ) + y,
{
    places_are_places();
    let p = "{{peers}}"@;
    let to = corrosion::peers_text(v.peers, v.gossip_port);
    other_places_stay(x, p, y, "{{mgmt_ip}}"@, net::dotted(v.mgmt_ip), 2);
    other_places_stay(x, p, y, "{{gossip_port}}"@, number::decimal(v.gossip_port as nat), 2);
    other_places_stay(x, p, y, "{{api_port}}"@, number::decimal(v.api_port as nat), 2);
    place_is_replaced(x, p, y, to, 0);
    assert(x.skip(0) =~= x);
    peers_hold_no_brace(v.peers, v.gossip_port);
    braceless(x, to, y);
    plain_text_stays(x + to + y, "{{gossip_tls}}"@, corrosion::gossip_tls_text(v.gossip_tls));
    assert(Seq::new(v.peers.len(), |i: int| corrosion::peer_text(v.peers[i], v.gossip_port))
        =~= Seq::new(
        v.peers.len(),
        |i: int|
            "\""@ + net::dotted(v.peers[i]) + ":"@ + number::decimal(v.gossip_port as nat)
                + "\""@,
    ));
}

/// The place of the transport in the configuration of Corrosion gets the certificate and its key
/// where there is one, and plain text where there is none.
pub proof fn the_place_of_the_transport_gets_the_transport(
    x: Seq<char>,
    y: Seq<char>,
    v: InputsView,
)
    requires
        !x.contains('{'),
        !y.contains('{'),
    ensures
        v.gossip_tls ==> corrosion::filled(x + "{{gossip_tls}}"@ + y, v) == x
            + ("plaintext = false\n\n[gossip.tls]\ncert_file = \""@ + "/etc/corrosion/tls/cert.pem"@
            + "\"\nkey_file = \""@ + "/etc/corrosion/tls/key.pem"@ + "\"\ninsecure = true"@) + y,
        !v.gossip_tls ==> corrosion::filled(x + "{{gossip_tls}}"@ + y, v) == x + "plaintext = true"@
            + y,
{
    places_are_places();
    let p = "{{gossip_tls}}"@;
    other_places_stay(x, p, y, "{{mgmt_ip}}"@, net::dotted(v.mgmt_ip), 2);
    other_places_stay(x, p, y, "{{gossip_port}}"@, number::decimal(v.gossip_port as nat), 9);
    other_places_stay(x, p, y, "{{api_port}}"@, number::decimal(v.api_port as nat), 2);
    other_places_stay(x, p, y, "{{peers}}"@, corrosion::peers_text(v.peers, v.gossip_port), 2);
    place_is_replaced(x, p, y, corrosion::gossip_tls_text(v.gossip_tls), 0);
    assert(x.skip(0) =~= x);
}

// ---------------------------------------------------------------------------
// Peers
// ---------------------------------------------------------------------------

/// A peer is reached at the port that its endpoint names, and otherwise at the port of the mesh.
pub proof fn peers_are_reached_at_their_port(name: Seq<char>, named: u16, port: u16)
    requires
        !name.contains(':'),
    ensures
        config::endpoint_with_port(name, port) == name + ":"@ + number::decimal(port as nat),
        config::endpoint_with_port(name + ":"@ + number::decimal(named as nat), port) == name + ":"@
            + number::decimal(named as nat),
{
    reveal_strlit(":");
    assert forall|j: int| -1 < j < name.len() implies name[j] != ':' by {
        assert(name.contains(name[j]));
    }
    text::rfind_char_is(name, ':', -1);
    let raw = number::decimal(named as nat);
    let s = name + ":"@ + raw;
    config_laws::number_reads_back(named as nat, 65535);
    config_laws::decimal_reads_back(named as nat);
    config_laws::digits_hold_no(raw, ':');
    let i = name.len() as int;
    assert(s[i] == ':');
    assert forall|j: int| i < j < s.len() implies s[j] != ':' by {
        assert(s[j] == raw[j - i - 1]);
        assert(raw.contains(raw[j - i - 1]));
    }
    text::rfind_char_is(s, ':', i);
    assert(s.skip(i + 1) =~= raw);
}

/// A peer is allowed its own address and its subnets, and nothing else.
pub proof fn peers_are_allowed_what_is_theirs(p: PeerConfigView)
    ensures
        exists|parts: Seq<Seq<char>>|
            #![trigger split::joined(parts, ", "@)]
            config::allowed_ips(p) == split::joined(parts, ", "@) && parts.len() == 1
                + p.container_subnets.len() && parts[0] == net::dotted(p.mgmt_ip) + "/32"@
                && forall|i: int|
                0 <= i < p.container_subnets.len() ==> parts[i + 1]
                    == (#[trigger] p.container_subnets[i]).cidr(),
{
    let parts = seq![net::dotted(p.mgmt_ip) + "/32"@] + crate::cli::firewall::cidrs(
        p.container_subnets,
    );
    assert(config::allowed_ips(p) == split::joined(parts, ", "@));
    assert forall|i: int| 0 <= i < p.container_subnets.len() implies parts[i + 1] == (
    #[trigger] p.container_subnets[i]).cidr() by {}
}

proof fn bytes_stand_apart(a: int, b: int, c: int, e: int)
    requires
        0 <= a <= 255,
        0 <= b <= 255,
        0 <= c <= 255,
        0 <= e <= 255,
    ensures
        ({
            let n = a * 0x100_0000 + b * 0x1_0000 + c * 0x100 + e;
            &&& 0 <= n <= u32::MAX
            &&& n / 0x100_0000 == a
            &&& n / 0x1_0000 == a * 0x100 + b
            &&& n / 0x100 == a * 0x1_0000 + b * 0x100 + c
            &&& n % 0x100 == e
        }),
{
}

proof fn lower_bytes(a: int, b: int, c: int)
    requires
        0 <= b <= 255,
        0 <= c <= 255,
    ensures
        (a * 0x100 + b) % 0x100 == b,
        (a * 0x1_0000 + b * 0x100 + c) % 0x100 == c,
{
    vstd::arithmetic::div_mod::lemma_mod_multiples_vanish(a, b, 0x100);
    vstd::arithmetic::div_mod::lemma_mod_multiples_vanish(a * 0x100 + b, c, 0x100);
    vstd::arithmetic::div_mod::lemma_small_mod(b as nat, 0x100);
    vstd::arithmetic::div_mod::lemma_small_mod(c as nat, 0x100);
    assert(0x100 * (a * 0x100 + b) + c == a * 0x1_0000 + b * 0x100 + c);
}

/// An address is written as its four bytes, the highest one first.
pub proof fn addresses_are_written_in_bytes(addr: u32, a: u8, b: u8, c: u8, e: u8)
    requires
        addr == a * 0x100_0000 + b * 0x1_0000 + c * 0x100 + e,
    ensures
        net::dotted(addr) == number::decimal(a as nat) + "."@ + number::decimal(b as nat) + "."@
            + number::decimal(c as nat) + "."@ + number::decimal(e as nat),
{
    bytes_stand_apart(a as int, b as int, c as int, e as int);
    lower_bytes(a as int, b as int, c as int);
    assert(addr / 0x100_0000 == a);
    assert(addr / 0x1_0000 % 0x100 == b);
    assert(addr / 0x100 % 0x100 == c);
    assert(addr % 0x100 == e);
}

// ---------------------------------------------------------------------------
// Units and scripts
// ---------------------------------------------------------------------------

/// The unit of the agent holds its node, its namespaces where it serves any, and flux where it has
/// one, with the certificate to pin where there is one.
pub proof fn units_tell_the_agent_what_it_is_given(
    ip: u32,
    served: Seq<CooldNamespaceView>,
    f: FluxView,
)
    ensures
        ({
            let units = if served.len() == 0 {
                Seq::empty()
            } else {
                " coolify-mesh-dns-anchor.service coolify-mesh-dns-resolver.service"@
            };
            let env = if served.len() == 0 {
                Seq::empty()
            } else {
                coold::ns_env_text(coold::namespaces_env_value_text(served))
            };
            let dial = "Environment=COOLIFY_COOLD_FLUX_URL="@ + f.url
                + "\nEnvironment=COOLIFY_COOLD_HOST_JWT_PATH="@ + f.jwt_path + "\n"@;
            let hard = coold::hardening_directives_text();
            &&& coold::service_unit_text(ip, served, None) == coold::assemble_unit_text(
                ip,
                units,
                env,
                Seq::empty(),
                hard,
            )
            &&& f.tls_pin_path is None ==> coold::service_unit_text(ip, served, Some(f))
                == coold::assemble_unit_text(ip, units, env, dial, hard)
            &&& f.tls_pin_path matches Some(pin) ==> coold::service_unit_text(ip, served, Some(f))
                == coold::assemble_unit_text(
                ip,
                units,
                env,
                dial + ("Environment=COOLIFY_COOLD_FLUX_TLS_PIN_PATH="@ + pin + "\n"@),
                hard,
            )
        }),
{
}

/// The agent is told each namespace that it serves, with its network and its gateway; each has an
/// anchor on its network, which goes with it, and is resolved by its gateway.
pub proof fn every_namespace_is_served(served: Seq<CooldNamespaceView>)
    ensures
        coold::namespaces_env_value_text(served) == split::joined(
            Seq::new(
                served.len(),
                |i: int|
                    served[i].name + ":"@ + served[i].network + ":"@ + net::dotted(
                        served[i].bridge_gateway,
                    ),
            ),
            ","@,
        ),
        coold::anchor_starts_text(served) == split::joined(
            Seq::new(served.len(), |i: int| coold::anchor_start(served[i])),
            "; "@,
        ),
        coold::anchor_stops_text(served) == split::joined(
            Seq::new(served.len(), |i: int| coold::anchor_stop(served[i])),
            "; "@,
        ),
        coold::resolver_commands_text(served) == split::joined(
            Seq::new(served.len(), |i: int| coold::resolver_command(served[i])),
            "; "@,
        ),
        forall|i: int|
            0 <= i < served.len() ==> text::has_text(
                coold::anchor_starts_text(served),
                #[trigger] coold::anchor_start(served[i]),
            ),
        forall|i: int|
            0 <= i < served.len() ==> text::has_text(
                coold::anchor_stops_text(served),
                #[trigger] coold::anchor_stop(served[i]),
            ),
        forall|i: int|
            0 <= i < served.len() ==> text::has_text(
                coold::resolver_commands_text(served),
                #[trigger] coold::resolver_command(served[i]),
            ),
{
    assert(Seq::new(served.len(), |i: int| coold::env_entry(served[i])) =~= Seq::new(
        served.len(),
        |i: int|
            served[i].name + ":"@ + served[i].network + ":"@ + net::dotted(
                served[i].bridge_gateway,
            ),
    ));
    assert forall|i: int| 0 <= i < served.len() implies text::has_text(
        coold::anchor_starts_text(served),
        #[trigger] coold::anchor_start(served[i]),
    ) by {
        let parts = Seq::new(served.len(), |i: int| coold::anchor_start(served[i]));
        part_stands(parts, "; "@, i);
        assert(parts[i] == coold::anchor_start(served[i]));
    }
    assert forall|i: int| 0 <= i < served.len() implies text::has_text(
        coold::anchor_stops_text(served),
        #[trigger] coold::anchor_stop(served[i]),
    ) by {
        let parts = Seq::new(served.len(), |i: int| coold::anchor_stop(served[i]));
        part_stands(parts, "; "@, i);
        assert(parts[i] == coold::anchor_stop(served[i]));
    }
    assert forall|i: int| 0 <= i < served.len() implies text::has_text(
        coold::resolver_commands_text(served),
        #[trigger] coold::resolver_command(served[i]),
    ) by {
        let parts = Seq::new(served.len(), |i: int| coold::resolver_command(served[i]));
        part_stands(parts, "; "@, i);
        assert(parts[i] == coold::resolver_command(served[i]));
    }
}

proof fn part_stands(parts: Seq<Seq<char>>, sep: Seq<char>, i: int)
    requires
        0 <= i < parts.len(),
    ensures
        text::has_text(split::joined(parts, sep), parts[i]),
    decreases parts.len(),
{
    let none = Seq::<char>::empty();
    if parts.len() == 1 {
        stands_between(none, parts[0], none);
        assert(none + parts[0] + none =~= split::joined(parts, sep));
    } else {
        let p = parts.drop_last();
        let a = split::joined(p, sep);
        let l = parts.last();
        if i < p.len() {
            assert(p[i] == parts[i]);
            part_stands(p, sep, i);
            stands_inside(none, a, sep + l, parts[i]);
            assert(none + a + (sep + l) =~= split::joined(parts, sep));
        } else {
            stands_between(a + sep, l, none);
            assert(a + sep + l + none =~= split::joined(parts, sep));
        }
    }
}

/// An archive is checked against the digest that is given for it, and otherwise against the one that
/// is published beside it.
pub proof fn archives_are_checked_against_their_digest(
    tarball: Seq<char>,
    url: Seq<char>,
    artifact: Seq<char>,
    digest: Seq<char>,
)
    ensures
        checksum::snippet(tarball, url, artifact, Some(digest)) == checksum::pinned_text(
            tarball,
            artifact,
            digest,
        ),
        checksum::snippet(tarball, url, artifact, None) == checksum::published_text(
            tarball,
            url,
            artifact,
        ),
{
}

/// Corrosion is fetched first, then checked, and unpacked only then.
pub proof fn corrosion_is_checked_before_it_is_unpacked(
    files: CorrosionFiles,
    version: Seq<char>,
    sha256: Option<Seq<char>>,
)
    ensures
        corrosion::checked_install_text(files, version, sha256) == corrosion::download_text(
            files,
            version,
        ) + "\n"@ + checksum::snippet(
            "$DLDIR/corrosion.tar.gz"@,
            "$URL"@,
            "corrosion"@,
            sha256,
        ) + "\n"@ + corrosion::unpack_text(files, version),
        corrosion::plain_install_text(files, version) == corrosion::download_text(files, version)
            + "\n"@ + corrosion::unpack_text(files, version),
{
}

/// The scripts of Corrosion get the version that is asked for, and its unit the interface that it
/// waits for.
pub proof fn scripts_get_their_version(
    files: CorrosionFiles,
    x: Seq<char>,
    y: Seq<char>,
    v: Seq<char>,
)
    requires
        !x.contains('{'),
        !y.contains('{'),
    ensures
        files.download@ == x + "{{version}}"@ + y ==> corrosion::download_text(files, v) == x + v + y,
        files.install@ == x + "{{version}}"@ + y ==> corrosion::unpack_text(files, v) == x + v + y,
        files.service_unit@ == x + "{{interface}}"@ + y ==> corrosion::unit_text(files, v) == x + v
            + y,
{
    reveal_strlit("{{version}}");
    reveal_strlit("{{interface}}");
    place_is_replaced(x, "{{version}}"@, y, v, 0);
    place_is_replaced(x, "{{interface}}"@, y, v, 0);
    assert(x.skip(0) =~= x);
}

} // verus!
