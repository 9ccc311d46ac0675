//! Probing: from what a host prints to what is known of it.

use vstd::prelude::*;
use vstd::string::StringExecFns;
use base64::Engine;
use crate::keyed;
use crate::keyed::StrMap;
use crate::mesh::state;
use crate::mesh::state::{
    MeshState,
    NamespaceServerState,
    NamespaceView,
    Peer,
    PeerView,
    ServerState,
    ServerView,
};
use crate::net;
use crate::net::Ipv4Net;
use crate::number;
use crate::split;
use crate::text;

verus! {

/// The script that prints what is to be known of a host.
pub open spec fn probe_script_text(iface: Seq<char>, nslist: Seq<char>) -> Seq<char> {
    "set +e\nprintf 'WG_INSTALLED='; command -v wg >/dev/null 2>&1 && echo 1 || echo 0\nprintf 'KEYS_EXIST='; test -s /etc/wireguard/publickey && test -s /etc/wireguard/privatekey && echo 1 || echo 0\nprintf 'PUBLIC_KEY='; cat /etc/wireguard/publickey 2>/dev/null || true; echo\nprintf 'CONFIG_B64='; base64 -w0 /etc/wireguard/"@
        + iface
        + ".conf 2>/dev/null || true; echo\nprintf 'WG_DUMP_B64='; wg show "@
        + iface
        + " dump 2>/dev/null | base64 -w0 || true; echo\nprintf 'PODMAN_INSTALLED='; command -v podman >/dev/null 2>&1 && echo 1 || echo 0\nprintf 'PODMAN_SOCKET_ACTIVE='; systemctl is-active --quiet podman.socket && echo 1 || echo 0\nprintf 'IP_FORWARD='; cat /proc/sys/net/ipv4/ip_forward 2>/dev/null || echo 0\nprintf 'FW_ACTIVE='; systemctl is-active --quiet coolify-mesh-fw.service && echo 1 || echo 0\nprintf 'DEFAULT_DENY='; iptables -S COOLIFY-INTRA 2>/dev/null | grep -q -- '-A COOLIFY-INTRA -j DROP' && echo 1 || echo 0\nprintf 'FW_HASH='; sha256sum /etc/systemd/system/coolify-mesh-fw.service 2>/dev/null | awk '{print $1}'; echo\nprintf 'NFT_AVAILABLE='; command -v nft >/dev/null 2>&1 && echo 1 || echo 0\nprintf 'BRIDGE_TABLE='; nft list table bridge coolify_bridge >/dev/null 2>&1 && echo 1 || echo 0\nprintf 'CORROSION_INSTALLED='; test -x /usr/local/bin/corrosion && echo 1 || echo 0\nprintf 'CORROSION_ACTIVE='; systemctl is-active --quiet corrosion && echo 1 || echo 0\nprintf 'CORROSION_CONFIG_HASH='; sha256sum /etc/corrosion/config.toml 2>/dev/null | awk '{print $1}'; echo\nprintf 'CORROSION_SCHEMA_EXISTS='; test -s /etc/corrosion/schemas/coolify.sql && echo 1 || echo 0\nprintf 'CORROSION_SCHEMA_HASH='; sha256sum /etc/corrosion/schemas/coolify.sql 2>/dev/null | awk '{print $1}'; echo\nprintf 'COOLIFY_COOLD_INSTALLED='; test -x /usr/local/bin/coold && echo 1 || echo 0\nprintf 'COOLIFY_COOLD_ACTIVE='; systemctl is-active --quiet coold && echo 1 || echo 0\nprintf 'CORROSION_VERSION='; cat /usr/local/bin/corrosion.version 2>/dev/null || true; echo\nprintf 'COOLIFY_COOLD_VERSION='; cat /usr/local/bin/coold.version 2>/dev/null || true; echo\nprintf 'COOLIFY_COOLD_UNIT_HASH='; sha256sum /etc/systemd/system/coold.service 2>/dev/null | awk '{print $1}'; echo\nfor ns in "@
        + nslist
        + "; do net=\"coolify-${ns}-mesh\"; printf 'NS=%s|' \"$ns\"; podman network inspect \"$net\" --format '{{.Name}}|{{range .Subnets}}{{.Subnet}}{{end}}|{{.DNSEnabled}}|{{index .Labels \"io.coolify.namespace\"}}' 2>/dev/null || echo 'missing|||'; done\n"@
}

/// The script that prints what is to be known of a host.
fn probe_script(iface: &str, nslist: &str) -> (r: String)
    ensures
        r@ == probe_script_text(iface@, nslist@),
{
    let mut out: String = "set +e\nprintf 'WG_INSTALLED='; command -v wg >/dev/null 2>&1 && echo 1 || echo 0\nprintf 'KEYS_EXIST='; test -s /etc/wireguard/publickey && test -s /etc/wireguard/privatekey && echo 1 || echo 0\nprintf 'PUBLIC_KEY='; cat /etc/wireguard/publickey 2>/dev/null || true; echo\nprintf 'CONFIG_B64='; base64 -w0 /etc/wireguard/".to_owned();
    out.append(iface);
    out.append(".conf 2>/dev/null || true; echo\nprintf 'WG_DUMP_B64='; wg show ");
    out.append(iface);
    out.append(" dump 2>/dev/null | base64 -w0 || true; echo\nprintf 'PODMAN_INSTALLED='; command -v podman >/dev/null 2>&1 && echo 1 || echo 0\nprintf 'PODMAN_SOCKET_ACTIVE='; systemctl is-active --quiet podman.socket && echo 1 || echo 0\nprintf 'IP_FORWARD='; cat /proc/sys/net/ipv4/ip_forward 2>/dev/null || echo 0\nprintf 'FW_ACTIVE='; systemctl is-active --quiet coolify-mesh-fw.service && echo 1 || echo 0\nprintf 'DEFAULT_DENY='; iptables -S COOLIFY-INTRA 2>/dev/null | grep -q -- '-A COOLIFY-INTRA -j DROP' && echo 1 || echo 0\nprintf 'FW_HASH='; sha256sum /etc/systemd/system/coolify-mesh-fw.service 2>/dev/null | awk '{print $1}'; echo\nprintf 'NFT_AVAILABLE='; command -v nft >/dev/null 2>&1 && echo 1 || echo 0\nprintf 'BRIDGE_TABLE='; nft list table bridge coolify_bridge >/dev/null 2>&1 && echo 1 || echo 0\nprintf 'CORROSION_INSTALLED='; test -x /usr/local/bin/corrosion && echo 1 || echo 0\nprintf 'CORROSION_ACTIVE='; systemctl is-active --quiet corrosion && echo 1 || echo 0\nprintf 'CORROSION_CONFIG_HASH='; sha256sum /etc/corrosion/config.toml 2>/dev/null | awk '{print $1}'; echo\nprintf 'CORROSION_SCHEMA_EXISTS='; test -s /etc/corrosion/schemas/coolify.sql && echo 1 || echo 0\nprintf 'CORROSION_SCHEMA_HASH='; sha256sum /etc/corrosion/schemas/coolify.sql 2>/dev/null | awk '{print $1}'; echo\nprintf 'COOLIFY_COOLD_INSTALLED='; test -x /usr/local/bin/coold && echo 1 || echo 0\nprintf 'COOLIFY_COOLD_ACTIVE='; systemctl is-active --quiet coold && echo 1 || echo 0\nprintf 'CORROSION_VERSION='; cat /usr/local/bin/corrosion.version 2>/dev/null || true; echo\nprintf 'COOLIFY_COOLD_VERSION='; cat /usr/local/bin/coold.version 2>/dev/null || true; echo\nprintf 'COOLIFY_COOLD_UNIT_HASH='; sha256sum /etc/systemd/system/coold.service 2>/dev/null | awk '{print $1}'; echo\nfor ns in ");
    out.append(nslist);
    out.append("; do net=\"coolify-${ns}-mesh\"; printf 'NS=%s|' \"$ns\"; podman network inspect \"$net\" --format '{{.Name}}|{{range .Subnets}}{{.Subnet}}{{end}}|{{.DNSEnabled}}|{{index .Labels \"io.coolify.namespace\"}}' 2>/dev/null || echo 'missing|||'; done\n");
    out
}

/// The script that probes a host for these namespaces.
pub fn probe_command(iface: &str, namespaces: &Vec<String>) -> (r: String)
    ensures
        r@ == probe_script_text(iface@, split::joined(text::views(namespaces@), " "@)),
{
    probe_script(iface, split::join(namespaces, " ").as_str())
}

/// The bytes that a text stands for in base 64.
pub uninterp spec fn base64_decoded(s: Seq<char>) -> Option<Seq<u8>>;

/// Optional bytes as a sequence.
pub open spec fn bytes_view(r: Option<Vec<u8>>) -> Option<Seq<u8>> {
    match r {
        Some(b) => Some(b@),
        None => None,
    }
}

/// `base64`'s standard engine: the bytes that the text stands for, where it is valid.
#[verifier::external_body]
fn base64_decode(s: &str) -> (r: Option<Vec<u8>>)
    ensures
        bytes_view(r) == base64_decoded(s@),
{
    base64::engine::general_purpose::STANDARD.decode(s).ok()
}

/// The text in base 64, empty where it does not decode to UTF-8.
pub open spec fn decoded(s: Seq<char>) -> Seq<char> {
    match base64_decoded(split::trimmed(s)) {
        Some(b) => if vstd::utf8::valid_utf8(b) {
            vstd::utf8::decode_utf8(b)
        } else {
            Seq::empty()
        },
        None => Seq::empty(),
    }
}

pub fn decode_b64(s: &str) -> (r: String)
    ensures
        r@ == decoded(s@),
{
    broadcast use vstd::utf8::encode_utf8_decode_utf8;

    match base64_decode(split::trim(s).as_str()) {
        Some(b) => match text::utf8_string(b) {
            Some(t) => t,
            None => String::new(),
        },
        None => String::new(),
    }
}

/// What the lines of a probe have said so far.
pub struct ProbeView {
    pub server: ServerView,
    pub config: Seq<char>,
    pub dump: Seq<char>,
}

struct Probe {
    server: ServerState,
    config: String,
    dump: String,
}

impl View for Probe {
    type V = ProbeView;

    closed spec fn view(&self) -> ProbeView {
        ProbeView { server: self.server@, config: self.config@, dump: self.dump@ }
    }
}

/// A yes or no about WireGuard, Podman and the firewall.
pub open spec fn with_host_flag(s: ServerView, k: Seq<char>, v: bool) -> ServerView {
    if k == "WG_INSTALLED"@ {
        ServerView { installed: v, ..s }
    } else if k == "KEYS_EXIST"@ {
        ServerView { keys_exist: v, ..s }
    } else if k == "PODMAN_INSTALLED"@ {
        ServerView { podman_installed: v, ..s }
    } else if k == "PODMAN_SOCKET_ACTIVE"@ {
        ServerView { podman_socket_active: v, ..s }
    } else if k == "IP_FORWARD"@ {
        ServerView { ip_forward_enabled: v, ..s }
    } else if k == "FW_ACTIVE"@ {
        ServerView { firewall_active: v, ..s }
    } else if k == "DEFAULT_DENY"@ {
        ServerView { default_deny_active: v, ..s }
    } else if k == "NFT_AVAILABLE"@ {
        ServerView { nft_available: v, ..s }
    } else {
        s
    }
}

fn set_host_flag(s: &mut ServerState, k: &str, v: bool)
    ensures
        final(s)@ == with_host_flag(old(s)@, k@, v),
{
    if text::same(k, "WG_INSTALLED") {
        s.installed = v;
        return ;
    }
    if text::same(k, "KEYS_EXIST") {
        s.keys_exist = v;
        return ;
    }
    if text::same(k, "PODMAN_INSTALLED") {
        s.podman_installed = v;
        return ;
    }
    if text::same(k, "PODMAN_SOCKET_ACTIVE") {
        s.podman_socket_active = v;
        return ;
    }
    if text::same(k, "IP_FORWARD") {
        s.ip_forward_enabled = v;
        return ;
    }
    if text::same(k, "FW_ACTIVE") {
        s.firewall_active = v;
        return ;
    }
    if text::same(k, "DEFAULT_DENY") {
        s.default_deny_active = v;
        return ;
    }
    if text::same(k, "NFT_AVAILABLE") {
        s.nft_available = v;
        return ;
    }
}

/// A yes or no about nftables, Corrosion and coold.
pub open spec fn with_agent_flag(s: ServerView, k: Seq<char>, v: bool) -> ServerView {
    if k == "BRIDGE_TABLE"@ {
        ServerView { bridge_table_exists: v, ..s }
    } else if k == "CORROSION_INSTALLED"@ {
        ServerView { corrosion_installed: v, ..s }
    } else if k == "CORROSION_ACTIVE"@ {
        ServerView { corrosion_active: v, ..s }
    } else if k == "CORROSION_SCHEMA_EXISTS"@ {
        ServerView { corrosion_schema_exists: v, ..s }
    } else if k == "COOLIFY_COOLD_INSTALLED"@ {
        ServerView { coold_installed: v, ..s }
    } else if k == "COOLIFY_COOLD_ACTIVE"@ {
        ServerView { coold_active: v, ..s }
    } else {
        s
    }
}

fn set_agent_flag(s: &mut ServerState, k: &str, v: bool)
    ensures
        final(s)@ == with_agent_flag(old(s)@, k@, v),
{
    if text::same(k, "BRIDGE_TABLE") {
        s.bridge_table_exists = v;
        return ;
    }
    if text::same(k, "CORROSION_INSTALLED") {
        s.corrosion_installed = v;
        return ;
    }
    if text::same(k, "CORROSION_ACTIVE") {
        s.corrosion_active = v;
        return ;
    }
    if text::same(k, "CORROSION_SCHEMA_EXISTS") {
        s.corrosion_schema_exists = v;
        return ;
    }
    if text::same(k, "COOLIFY_COOLD_INSTALLED") {
        s.coold_installed = v;
        return ;
    }
    if text::same(k, "COOLIFY_COOLD_ACTIVE") {
        s.coold_active = v;
        return ;
    }
}

/// A text about the host.
pub open spec fn with_value(s: ServerView, k: Seq<char>, v: Seq<char>) -> ServerView {
    if k == "PUBLIC_KEY"@ {
        ServerView { public_key: v, ..s }
    } else if k == "FW_HASH"@ {
        ServerView { firewall_unit_sha256: v, ..s }
    } else if k == "CORROSION_CONFIG_HASH"@ {
        ServerView { corrosion_config_hash: v, ..s }
    } else if k == "CORROSION_SCHEMA_HASH"@ {
        ServerView { corrosion_schema_sha256: v, ..s }
    } else if k == "CORROSION_VERSION"@ {
        ServerView { corrosion_version: v, ..s }
    } else if k == "COOLIFY_COOLD_VERSION"@ {
        ServerView { coold_version: v, ..s }
    } else if k == "COOLIFY_COOLD_UNIT_HASH"@ {
        ServerView { coold_unit_sha256: v, ..s }
    } else {
        s
    }
}

fn set_value(s: &mut ServerState, k: &str, v: String)
    ensures
        final(s)@ == with_value(old(s)@, k@, v@),
{
    if text::same(k, "PUBLIC_KEY") {
        s.public_key = v;
        return ;
    }
    if text::same(k, "FW_HASH") {
        s.firewall_unit_sha256 = v;
        return ;
    }
    if text::same(k, "CORROSION_CONFIG_HASH") {
        s.corrosion_config_hash = v;
        return ;
    }
    if text::same(k, "CORROSION_SCHEMA_HASH") {
        s.corrosion_schema_sha256 = v;
        return ;
    }
    if text::same(k, "CORROSION_VERSION") {
        s.corrosion_version = v;
        return ;
    }
    if text::same(k, "COOLIFY_COOLD_VERSION") {
        s.coold_version = v;
        return ;
    }
    if text::same(k, "COOLIFY_COOLD_UNIT_HASH") {
        s.coold_unit_sha256 = v;
        return ;
    }
}

/// What one `key=value` line adds.
pub open spec fn probe_value(p: ProbeView, k: Seq<char>, raw: Seq<char>) -> ProbeView {
    let v = split::trimmed(raw);
    let on = v == "1"@;
    if k == "CONFIG_B64"@ {
        ProbeView { config: decoded(raw), ..p }
    } else if k == "WG_DUMP_B64"@ {
        ProbeView { dump: decoded(raw), ..p }
    } else {
        ProbeView {
            server: with_value(with_agent_flag(with_host_flag(p.server, k, on), k, on), k, v),
            ..p
        }
    }
}

/// What one line adds.
pub open spec fn probe_line(p: ProbeView, line: Seq<char>) -> ProbeView {
    match text::split_once_spec(line, '=') {
        Some((k, v)) => probe_value(p, k, v),
        None => p,
    }
}

/// What the lines add, one after the other.
pub open spec fn probe_lines(p: ProbeView, lines: Seq<Seq<char>>) -> ProbeView
    decreases lines.len(),
{
    if lines.len() == 0 {
        p
    } else {
        probe_line(probe_lines(p, lines.drop_last()), lines.last())
    }
}

fn take_value(p: &mut Probe, k: &str, raw: &str)
    ensures
        final(p)@ == probe_value(old(p)@, k@, raw@),
{
    let v: String = split::trim(raw);
    let on: bool = text::same(v.as_str(), "1");
    if text::same(k, "CONFIG_B64") {
        p.config = decode_b64(raw);
    } else if text::same(k, "WG_DUMP_B64") {
        p.dump = decode_b64(raw);
    } else {
        set_host_flag(&mut p.server, k, on);
        set_agent_flag(&mut p.server, k, on);
        set_value(&mut p.server, k, v);
    }
}

fn take_lines(p: &mut Probe, lines: &Vec<String>)
    ensures
        final(p)@ == probe_lines(old(p)@, text::views(lines@)),
{
    let ghost ls = text::views(lines@);
    let mut i: usize = 0;
    proof {
        assert(ls.take(0) =~= Seq::empty());
    }
    while i < lines.len()
        invariant
            i <= lines@.len(),
            ls == text::views(lines@),
            p@ == probe_lines(old(p)@, ls.take(i as int)),
        decreases lines@.len() - i,
    {
        proof {
            assert(ls.take(i + 1).drop_last() =~= ls.take(i as int));
            assert(ls.take(i + 1).last() == lines@[i as int]@);
        }
        if let Some((k, v)) = text::split_once(lines[i].as_str(), '=') {
            take_value(p, k.as_str(), v.as_str());
        }
        i = i + 1;
    }
    proof {
        assert(ls.take(i as int) =~= ls);
    }
}

// ---------------------------------------------------------------------------
// The interface configuration
// ---------------------------------------------------------------------------

/// A configuration that is being read: the host, and the peer whose section is open.
pub struct ConfigView {
    pub server: ServerView,
    pub cur: Option<PeerView>,
}

/// A number of at most 65535, or zero.
pub open spec fn port_or_zero(v: Seq<char>) -> u16 {
    match number::parsed(v, 65535) {
        Some(n) => n as u16,
        None => 0,
    }
}

fn parse_port(v: &str) -> (r: u16)
    ensures
        r == port_or_zero(v@),
{
    match number::parse_bounded(v, 65535) {
        Some(n) => n as u16,
        None => 0,
    }
}

/// The parts of a comma-separated list, trimmed.
pub open spec fn trimmed_parts(v: Seq<char>) -> Seq<Seq<char>> {
    let p = split::pieces(v, ',');
    Seq::new(p.len(), |i: int| split::trimmed(p[i]))
}

fn parts_of(v: &str) -> (r: Vec<String>)
    ensures
        text::views(r@) == trimmed_parts(v@),
{
    let p: Vec<String> = split::split(v, ',');
    let ghost ps = split::pieces(v@, ',');
    let mut out: Vec<String> = Vec::new();
    let mut i: usize = 0;
    while i < p.len()
        invariant
            i <= p@.len(),
            ps == text::views(p@),
            out@.len() == i,
            forall|j: int| 0 <= j < i ==> (#[trigger] out@[j])@ == split::trimmed(ps[j]),
        decreases p@.len() - i,
    {
        proof {
            assert(ps[i as int] == p@[i as int]@);
        }
        out.push(split::trim(p[i].as_str()));
        i = i + 1;
    }
    proof {
        assert(text::views(out@) =~= trimmed_parts(v@));
    }
    out
}

/// The host after the open peer section is closed.
pub open spec fn close_peer(c: ConfigView) -> ServerView {
    match c.cur {
        Some(p) => ServerView { peers: c.server.peers.push(p), ..c.server },
        None => c.server,
    }
}

/// What one `key = value` line of a configuration says.
pub open spec fn config_value(c: ConfigView, k: Seq<char>, v: Seq<char>) -> ConfigView {
    match c.cur {
        None => if k == "Address"@ {
            match net::ip_parsed(split::pieces(v, '/')[0]) {
                Some(ip) => ConfigView {
                    server: ServerView { wireguard_mgmt_ip: Some(ip as u32), ..c.server },
                    ..c
                },
                None => c,
            }
        } else if k == "ListenPort"@ {
            ConfigView { server: ServerView { listen_port: port_or_zero(v), ..c.server }, ..c }
        } else {
            c
        },
        Some(p) => if k == "PublicKey"@ {
            ConfigView { cur: Some(PeerView { public_key: v, ..p }), ..c }
        } else if k == "Endpoint"@ {
            ConfigView { cur: Some(PeerView { endpoint: v, ..p }), ..c }
        } else if k == "AllowedIPs"@ {
            ConfigView { cur: Some(PeerView { allowed_ips: trimmed_parts(v), ..p }), ..c }
        } else if k == "PersistentKeepalive"@ {
            ConfigView { cur: Some(PeerView { persistent_keepalive: port_or_zero(v), ..p }), ..c }
        } else {
            c
        },
    }
}

/// What one line of a configuration says.
pub open spec fn config_line(c: ConfigView, raw: Seq<char>) -> ConfigView {
    let line = split::trimmed(raw);
    if line == "[Peer]"@ {
        ConfigView { server: close_peer(c), cur: Some(state::new_peer()) }
    } else {
        match text::split_once_spec(line, '=') {
            Some((k, v)) => config_value(c, split::trimmed(k), split::trimmed(v)),
            None => c,
        }
    }
}

/// What the lines of a configuration say, one after the other.
pub open spec fn config_lines(c: ConfigView, lines: Seq<Seq<char>>) -> ConfigView
    decreases lines.len(),
{
    if lines.len() == 0 {
        c
    } else {
        config_line(config_lines(c, lines.drop_last()), lines.last())
    }
}

/// The host after its configuration is read.
pub open spec fn configured(s: ServerView, cfg: Seq<char>) -> ServerView {
    close_peer(config_lines(ConfigView { server: s, cur: None }, split::lines_of(cfg)))
}

/// An optional peer by what it says.
pub open spec fn peer_view(p: Option<Peer>) -> Option<PeerView> {
    match p {
        Some(p) => Some(p@),
        None => None,
    }
}

fn take_config_value(s: &mut ServerState, cur: Option<Peer>, k: &str, v: String) -> (r: Option<Peer>)
    ensures
        (ConfigView { server: final(s)@, cur: peer_view(r) }) == config_value(
            (ConfigView { server: old(s)@, cur: peer_view(cur) }),
            k@,
            v@,
        ),
{
    match cur {
        None => {
            if text::same(k, "Address") {
                let parts: Vec<String> = split::split(v.as_str(), '/');
                proof {
                    pieces_not_empty(v@, '/');
                    assert(text::views(parts@)[0] == parts@[0]@);
                }
                if let Some(ip) = net::parse_ip(parts[0].as_str()) {
                    s.wireguard_mgmt_ip = Some(ip);
                }
            } else if text::same(k, "ListenPort") {
                s.listen_port = parse_port(v.as_str());
            }
            None
        },
        Some(p) => {
            let mut q: Peer = p;
            if text::same(k, "PublicKey") {
                q.public_key = v;
            } else if text::same(k, "Endpoint") {
                q.endpoint = v;
            } else if text::same(k, "AllowedIPs") {
                q.allowed_ips = parts_of(v.as_str());
            } else if text::same(k, "PersistentKeepalive") {
                q.persistent_keepalive = parse_port(v.as_str());
            }
            Some(q)
        },
    }
}

proof fn pieces_not_empty(s: Seq<char>, c: char)
    ensures
        split::pieces(s, c).len() > 0,
{
}

fn close_section(s: &mut ServerState, cur: Option<Peer>)
    ensures
        final(s)@ == close_peer((ConfigView { server: old(s)@, cur: peer_view(cur) })),
{
    broadcast use state::peer_views_push;

    if let Some(p) = cur {
        s.peers.push(p);
    }
}

/// Reads an interface configuration.
pub fn parse_config(s: &mut ServerState, cfg: &str)
    ensures
        final(s)@ == configured(old(s)@, cfg@),
{
    let lines: Vec<String> = split::lines(cfg);
    let ghost ls = split::lines_of(cfg@);
    let ghost start = ConfigView { server: s@, cur: None };
    let mut cur: Option<Peer> = None;
    let mut i: usize = 0;
    proof {
        assert(ls.take(0) =~= Seq::empty());
    }
    while i < lines.len()
        invariant
            i <= lines@.len(),
            ls == text::views(lines@),
            (ConfigView { server: s@, cur: peer_view(cur) }) == config_lines(
                start,
                ls.take(i as int),
            ),
        decreases lines@.len() - i,
    {
        proof {
            assert(ls.take(i + 1).drop_last() =~= ls.take(i as int));
            assert(ls.take(i + 1).last() == lines@[i as int]@);
        }
        let line: String = split::trim(lines[i].as_str());
        if text::same(line.as_str(), "[Peer]") {
            close_section(s, cur);
            cur = Some(Peer::default());
        } else if let Some((k, v)) = text::split_once(line.as_str(), '=') {
            let key: String = split::trim(k.as_str());
            cur = take_config_value(s, cur, key.as_str(), split::trim(v.as_str()));
        }
        i = i + 1;
    }
    proof {
        assert(ls.take(i as int) =~= ls);
    }
    close_section(s, cur);
}

// ---------------------------------------------------------------------------
// The interface dump
// ---------------------------------------------------------------------------

/// A signed number, or zero.
pub open spec fn signed_or_zero(v: Seq<char>) -> i64 {
    match number::parsed_signed(v) {
        Some(n) => n as i64,
        None => 0,
    }
}

/// A peer after its line of the dump, where it has one with more than five fields.
pub open spec fn dumped_peer(p: PeerView, i: int, lines: Seq<Seq<char>>) -> PeerView {
    if i + 1 < lines.len() && split::pieces(lines[i + 1], '\t').len() > 5 {
        PeerView {
            latest_handshake: signed_or_zero(split::pieces(lines[i + 1], '\t')[5]),
            ..p
        }
    } else {
        p
    }
}

/// The host after its dump is read: it is active where the dump says anything, and the
/// peers have the times of their last handshakes.
pub open spec fn dumped(s: ServerView, dump: Seq<char>) -> ServerView {
    let lines = split::lines_of(dump);
    ServerView {
        active: s.active || !split::is_blank(dump),
        peers: Seq::new(s.peers.len(), |i: int| dumped_peer(s.peers[i], i, lines)),
        ..s
    }
}

fn note_handshakes(peers: &mut Vec<Peer>, lines: &Vec<String>)
    ensures
        state::peer_views(final(peers)@) == Seq::new(
            old(peers)@.len(),
            |i: int| dumped_peer(old(peers)@[i]@, i, text::views(lines@)),
        ),
{
    let ghost ls = text::views(lines@);
    let ghost p0 = peers@;
    let mut i: usize = 0;
    while i < peers.len()
        invariant
            i <= peers@.len() == p0.len(),
            p0 == old(peers)@,
            ls == text::views(lines@),
            forall|j: int| 0 <= j < i ==> (#[trigger] peers@[j])@ == dumped_peer(p0[j]@, j, ls),
            forall|j: int| i <= j < p0.len() ==> #[trigger] peers@[j] == p0[j],
        decreases peers@.len() - i,
    {
        if lines.len() > 1 && i < lines.len() - 1 {
            proof {
                assert(ls[i + 1] == lines@[i + 1]@);
            }
            let fields: Vec<String> = split::split(lines[i + 1].as_str(), '\t');
            proof {
                assert(text::views(fields@).len() == fields@.len());
            }
            if fields.len() > 5 {
                proof {
                    assert(text::views(fields@)[5] == fields@[5]@);
                }
                let time: i64 = match number::parse_signed(fields[5].as_str()) {
                    Some(t) => t,
                    None => 0,
                };
                peers[i].latest_handshake = time;
            }
        }
        i = i + 1;
    }
    proof {
        assert(state::peer_views(peers@) =~= Seq::new(
            p0.len(),
            |i: int| dumped_peer(p0[i]@, i, ls),
        ));
    }
}

/// Reads an interface dump.
pub fn parse_dump(s: &mut ServerState, dump: &str)
    ensures
        final(s)@ == dumped(old(s)@, dump@),
{
    if !split::blank(dump) {
        s.active = true;
    }
    let lines: Vec<String> = split::lines(dump);
    note_handshakes(&mut s.peers, &lines);
    proof {
        assert(s@.peers =~= dumped(old(s)@, dump@).peers);
    }
}

// ---------------------------------------------------------------------------
// The namespaces
// ---------------------------------------------------------------------------

/// What a namespace line says, where it has its five parts.
pub open spec fn namespace_line(line: Seq<char>) -> Option<NamespaceView> {
    match text::strip_prefix_spec(line, "NS="@) {
        Some(rest) => {
            let p = split::pieces(rest, '|');
            if p.len() >= 5 {
                Some(
                    NamespaceView {
                        namespace: p[0],
                        network_exists: p[1] != "missing"@,
                        container_subnet: match net::net_parsed(p[2]) {
                            Some((a, l)) => Some(Ipv4Net::make(a, l)),
                            None => None,
                        },
                        dns_enabled: split::trimmed(p[3]) == "true"@,
                        label: split::trimmed(p[4]),
                    },
                )
            } else {
                None
            }
        },
        None => None,
    }
}

/// The namespaces that the lines tell of.
pub open spec fn told_namespaces(
    m: Seq<(Seq<char>, NamespaceView)>,
    lines: Seq<Seq<char>>,
) -> Seq<(Seq<char>, NamespaceView)>
    decreases lines.len(),
{
    if lines.len() == 0 {
        m
    } else {
        let t = told_namespaces(m, lines.drop_last());
        match namespace_line(lines.last()) {
            Some(n) => keyed::put(t, n.namespace, n),
            None => t,
        }
    }
}

/// A namespace that nothing was told of.
pub open spec fn absent_namespace(ns: Seq<char>) -> NamespaceView {
    NamespaceView {
        namespace: ns,
        network_exists: false,
        container_subnet: None,
        dns_enabled: false,
        label: Seq::empty(),
    }
}

/// The namespaces with an entry for each of `nss`.
pub open spec fn with_namespaces(
    m: Seq<(Seq<char>, NamespaceView)>,
    nss: Seq<Seq<char>>,
) -> Seq<(Seq<char>, NamespaceView)>
    decreases nss.len(),
{
    if nss.len() == 0 {
        m
    } else {
        let t = with_namespaces(m, nss.drop_last());
        if keyed::lookup(t, nss.last()) is Some {
            t
        } else {
            keyed::put(t, nss.last(), absent_namespace(nss.last()))
        }
    }
}

fn read_namespace(line: &str) -> (r: Option<NamespaceServerState>)
    ensures
        match r {
            Some(n) => namespace_line(line@) == Some(n@),
            None => namespace_line(line@) is None,
        },
{
    match text::strip_prefix(line, "NS=") {
        Some(rest) => {
            let p: Vec<String> = split::split(rest.as_str(), '|');
            proof {
                assert(text::views(p@).len() == p@.len());
            }
            if p.len() < 5 {
                return None;
            }
            proof {
                assert(text::views(p@)[0] == p@[0]@);
                assert(text::views(p@)[1] == p@[1]@);
                assert(text::views(p@)[2] == p@[2]@);
                assert(text::views(p@)[3] == p@[3]@);
                assert(text::views(p@)[4] == p@[4]@);
            }
            let subnet: Option<Ipv4Net> = Ipv4Net::parse(p[2].as_str());
            proof {
                broadcast use net::make_parts;

                if let Some(n) = subnet {
                    net::same_net(n, Ipv4Net::make(n.ip(), n.prefix()));
                }
            }
            Some(
                NamespaceServerState {
                    namespace: p[0].clone(),
                    network_exists: !text::same(p[1].as_str(), "missing"),
                    container_subnet: subnet,
                    dns_enabled: text::same(split::trim(p[3].as_str()).as_str(), "true"),
                    label: split::trim(p[4].as_str()),
                },
            )
        },
        None => None,
    }
}

fn read_namespaces(lines: &Vec<String>, nss: &Vec<String>) -> (r: StrMap<NamespaceServerState>)
    ensures
        state::namespace_views(r@) == with_namespaces(
            told_namespaces(Seq::empty(), text::views(lines@)),
            text::views(nss@),
        ),
{
    let ghost ls = text::views(lines@);
    let ghost names = text::views(nss@);
    let ghost none = Seq::<(Seq<char>, NamespaceView)>::empty();
    let mut out: StrMap<NamespaceServerState> = StrMap::new();
    let mut i: usize = 0;
    proof {
        assert(ls.take(0) =~= Seq::empty());
        assert(state::namespace_views(out@) =~= none);
    }
    while i < lines.len()
        invariant
            i <= lines@.len(),
            ls == text::views(lines@),
            none == Seq::<(Seq<char>, NamespaceView)>::empty(),
            state::namespace_views(out@) == told_namespaces(none, ls.take(i as int)),
        decreases lines@.len() - i,
    {
        proof {
            assert(ls.take(i + 1).drop_last() =~= ls.take(i as int));
            assert(ls.take(i + 1).last() == lines@[i as int]@);
        }
        if let Some(n) = read_namespace(lines[i].as_str()) {
            proof {
                state::namespace_views_put(out@, n.namespace@, n);
            }
            out.insert(n.namespace.clone(), n);
        }
        i = i + 1;
    }
    proof {
        assert(ls.take(i as int) =~= ls);
    }
    let ghost told = state::namespace_views(out@);
    let mut j: usize = 0;
    proof {
        assert(names.take(0) =~= Seq::empty());
    }
    while j < nss.len()
        invariant
            j <= nss@.len(),
            names == text::views(nss@),
            state::namespace_views(out@) == with_namespaces(told, names.take(j as int)),
        decreases nss@.len() - j,
    {
        let ns: &String = &nss[j];
        proof {
            assert(names.take(j + 1).drop_last() =~= names.take(j as int));
            assert(names.take(j + 1).last() == ns@);
            state::namespace_views_lookup(out@, ns@);
        }
        if !out.contains_key(ns.as_str()) {
            let n: NamespaceServerState = NamespaceServerState {
                namespace: ns.clone(),
                network_exists: false,
                container_subnet: None,
                dns_enabled: false,
                label: String::new(),
            };
            proof {
                state::namespace_views_put(out@, ns@, n);
            }
            out.insert(ns.clone(), n);
        }
        j = j + 1;
    }
    proof {
        assert(names.take(j as int) =~= names);
    }
    out
}

/// What is known of a host from what its probe printed.
pub open spec fn probed(
    host: Seq<char>,
    iface: Seq<char>,
    namespaces: Seq<Seq<char>>,
    output: Seq<char>,
) -> ServerView {
    let lines = split::lines_of(output);
    let start = ServerView { host, interface: iface, ..state::unknown_server() };
    let p = probe_lines(
        ProbeView { server: start, config: Seq::empty(), dump: Seq::empty() },
        lines,
    );
    let s = dumped(configured(p.server, p.config), p.dump);
    ServerView {
        namespaces: with_namespaces(told_namespaces(Seq::empty(), lines), namespaces),
        ..s
    }
}

/// Reads what a probe printed.
pub fn parse_probe(host: &str, iface: &str, namespaces: &Vec<String>, text: &str) -> (r: ServerState)
    ensures
        r@ == probed(host@, iface@, text::views(namespaces@), text@),
{
    let mut s: ServerState = ServerState::default();
    s.host = host.to_owned();
    s.interface = iface.to_owned();
    let lines: Vec<String> = split::lines(text);
    let mut p: Probe = Probe { server: s, config: String::new(), dump: String::new() };
    take_lines(&mut p, &lines);
    let Probe { server, config, dump } = p;
    let mut s: ServerState = server;
    parse_config(&mut s, config.as_str());
    parse_dump(&mut s, dump.as_str());
    s.namespaces = read_namespaces(&lines, namespaces);
    s
}

/// What came back from a host.
#[derive(Clone, Debug)]
pub struct ProbeResult {
    pub host: String,
    pub result: Option<ServerState>,
    pub error: Option<String>,
}

/// The note on a host whose probe failed.
pub open spec fn probe_error_text(host: Seq<char>, error: Seq<char>) -> Seq<char> {
    host
        + ": "@
        + error
}

/// The note on a host whose probe failed.
fn probe_error(host: &str, error: &str) -> (r: String)
    ensures
        r@ == probe_error_text(host@, error@),
{
    let mut out: String = host.to_owned();
    out.append(": ");
    out.append(error);
    out
}

/// The warning about hosts whose probes failed.
pub open spec fn probe_warning_text(errors: Seq<char>) -> Seq<char> {
    "Warning: probe failed on some hosts: "@
        + errors
}

/// The warning about hosts whose probes failed.
pub fn probe_warning(errors: &str) -> (r: String)
    ensures
        r@ == probe_warning_text(errors@),
{
    let mut out: String = "Warning: probe failed on some hosts: ".to_owned();
    out.append(errors);
    out
}

/// The mesh that the results tell of.
pub open spec fn collected(results: Seq<ProbeResult>) -> Seq<(Seq<char>, ServerView)>
    decreases results.len(),
{
    if results.len() == 0 {
        Seq::empty()
    } else {
        let t = collected(results.drop_last());
        match results.last().result {
            Some(s) => keyed::put(t, results.last().host@, s@),
            None => t,
        }
    }
}

/// The notes on the hosts that failed.
pub open spec fn failures(results: Seq<ProbeResult>) -> Seq<Seq<char>>
    decreases results.len(),
{
    if results.len() == 0 {
        Seq::empty()
    } else {
        let t = failures(results.drop_last());
        let last = results.last();
        if last.result is None && last.error is Some {
            t.push(probe_error_text(last.host@, last.error->0@))
        } else {
            t
        }
    }
}

/// Puts the results of all probes together: the mesh as far as it is known, and a note
/// for each host that failed.
pub fn reconstruct(results: Vec<ProbeResult>) -> (r: (MeshState, Vec<String>))
    ensures
        r.0@ == collected(results@),
        text::views(r.1@) == failures(results@),
{
    broadcast use text::views_push;

    let ghost all = results@;
    let mut rest: Vec<ProbeResult> = results;
    let mut mesh: MeshState = MeshState::default();
    let mut errors: Vec<String> = Vec::new();
    let ghost mut n: int = 0;
    proof {
        assert(all.take(0) =~= Seq::empty());
        assert(text::views(errors@) =~= Seq::empty());
        assert(all.skip(0) =~= all);
    }
    while rest.len() > 0
        invariant
            0 <= n <= all.len(),
            rest@ == all.skip(n),
            mesh@ == collected(all.take(n)),
            text::views(errors@) == failures(all.take(n)),
        decreases rest@.len(),
    {
        let r: ProbeResult = rest.remove(0);
        proof {
            assert(all.take(n + 1).drop_last() =~= all.take(n));
            assert(all.take(n + 1).last() == r);
            assert(rest@ =~= all.skip(n + 1));
        }
        let ProbeResult { host, result, error } = r;
        match result {
            Some(s) => {
                proof {
                    state::server_views_put(mesh.servers@, host@, s);
                }
                mesh.servers.insert(host, s);
            },
            None => {
                if let Some(e) = error {
                    errors.push(probe_error(host.as_str(), e.as_str()));
                }
            },
        }
        proof {
            n = n + 1;
        }
    }
    proof {
        assert(all.take(n) =~= all);
    }
    (mesh, errors)
}

} // verus!
