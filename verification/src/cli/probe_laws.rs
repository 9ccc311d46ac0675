//! What is known of a host is what its probe printed.

use vstd::prelude::*;
use crate::cli::reconstruct;
use crate::cli::reconstruct::{ConfigView, ProbeView};
use crate::keyed;
use crate::mesh::state;
use crate::mesh::state::{NamespaceView, PeerView, ServerView};
use crate::net;
use crate::net::Ipv4Net;
use crate::split;
use crate::text;

verus! {

/// What the last of the lines `key=..` says, where there is one.
#[verifier::opaque]
pub open spec fn told(lines: Seq<Seq<char>>, key: Seq<char>) -> Option<Seq<char>>
    decreases lines.len(),
{
    if lines.len() == 0 {
        None
    } else if text::has_prefix(lines.last(), key.push('=')) {
        Some(lines.last().skip(key.len() as int + 1))
    } else {
        told(lines.drop_last(), key)
    }
}

/// Whether the lines say yes to this.
pub open spec fn says_yes(lines: Seq<Seq<char>>, key: Seq<char>) -> bool {
    told(lines, key) matches Some(v) && split::trimmed(v) == "1"@
}

/// The text that the lines give for this, without white space around it; none where they give
/// none.
pub open spec fn says(lines: Seq<Seq<char>>, key: Seq<char>) -> Seq<char> {
    match told(lines, key) {
        Some(v) => split::trimmed(v),
        None => Seq::empty(),
    }
}

/// The file that the lines give in base 64 for this; empty where they give none.
pub open spec fn encloses(lines: Seq<Seq<char>>, key: Seq<char>) -> Seq<char> {
    match told(lines, key) {
        Some(v) => reconstruct::decoded(v),
        None => Seq::empty(),
    }
}

/// Whether this is what the lines say of WireGuard, Podman and the firewall on a host.
pub open spec fn host_is_told(s: ServerView, lines: Seq<Seq<char>>) -> bool {
    &&& s.installed == says_yes(lines, "WG_INSTALLED"@)
    &&& s.keys_exist == says_yes(lines, "KEYS_EXIST"@)
    &&& s.podman_installed == says_yes(lines, "PODMAN_INSTALLED"@)
    &&& s.podman_socket_active == says_yes(lines, "PODMAN_SOCKET_ACTIVE"@)
    &&& s.ip_forward_enabled == says_yes(lines, "IP_FORWARD"@)
    &&& s.firewall_active == says_yes(lines, "FW_ACTIVE"@)
    &&& s.default_deny_active == says_yes(lines, "DEFAULT_DENY"@)
    &&& s.nft_available == says_yes(lines, "NFT_AVAILABLE"@)
}

/// Whether this is what the lines say of nftables, Corrosion and coold on a host.
pub open spec fn agents_are_told(s: ServerView, lines: Seq<Seq<char>>) -> bool {
    &&& s.bridge_table_exists == says_yes(lines, "BRIDGE_TABLE"@)
    &&& s.corrosion_installed == says_yes(lines, "CORROSION_INSTALLED"@)
    &&& s.corrosion_active == says_yes(lines, "CORROSION_ACTIVE"@)
    &&& s.corrosion_schema_exists == says_yes(lines, "CORROSION_SCHEMA_EXISTS"@)
    &&& s.coold_installed == says_yes(lines, "COOLIFY_COOLD_INSTALLED"@)
    &&& s.coold_active == says_yes(lines, "COOLIFY_COOLD_ACTIVE"@)
}

/// Whether these are the key, the digests and the versions that the lines give.
pub open spec fn texts_are_told(s: ServerView, lines: Seq<Seq<char>>) -> bool {
    &&& s.public_key == says(lines, "PUBLIC_KEY"@)
    &&& s.firewall_unit_sha256 == says(lines, "FW_HASH"@)
    &&& s.corrosion_config_hash == says(lines, "CORROSION_CONFIG_HASH"@)
    &&& s.corrosion_schema_sha256 == says(lines, "CORROSION_SCHEMA_HASH"@)
    &&& s.corrosion_version == says(lines, "CORROSION_VERSION"@)
    &&& s.coold_version == says(lines, "COOLIFY_COOLD_VERSION"@)
    &&& s.coold_unit_sha256 == says(lines, "COOLIFY_COOLD_UNIT_HASH"@)
}

/// Whether this is what the lines say of the software on a host.
pub open spec fn is_told(s: ServerView, lines: Seq<Seq<char>>) -> bool {
    &&& host_is_told(s, lines)
    &&& agents_are_told(s, lines)
    &&& texts_are_told(s, lines)
}

/// What tells the keys of the lines apart.
proof fn keys_differ()
    ensures
        "WG_INSTALLED"@.len() == 12,
        "WG_INSTALLED"@[0] == 'W',
        !"WG_INSTALLED"@.contains('='),
        "KEYS_EXIST"@.len() == 10,
        "KEYS_EXIST"@[0] == 'K',
        !"KEYS_EXIST"@.contains('='),
        "PODMAN_INSTALLED"@.len() == 16,
        "PODMAN_INSTALLED"@[0] == 'P',
        !"PODMAN_INSTALLED"@.contains('='),
        "PODMAN_SOCKET_ACTIVE"@.len() == 20,
        "PODMAN_SOCKET_ACTIVE"@[0] == 'P',
        !"PODMAN_SOCKET_ACTIVE"@.contains('='),
        "IP_FORWARD"@.len() == 10,
        "IP_FORWARD"@[0] == 'I',
        !"IP_FORWARD"@.contains('='),
        "FW_ACTIVE"@.len() == 9,
        !"FW_ACTIVE"@.contains('='),
        "DEFAULT_DENY"@.len() == 12,
        "DEFAULT_DENY"@[0] == 'D',
        !"DEFAULT_DENY"@.contains('='),
        "NFT_AVAILABLE"@.len() == 13,
        !"NFT_AVAILABLE"@.contains('='),
        "BRIDGE_TABLE"@.len() == 12,
        "BRIDGE_TABLE"@[0] == 'B',
        !"BRIDGE_TABLE"@.contains('='),
        "CORROSION_INSTALLED"@.len() == 19,
        !"CORROSION_INSTALLED"@.contains('='),
        "CORROSION_ACTIVE"@.len() == 16,
        "CORROSION_ACTIVE"@[0] == 'C',
        !"CORROSION_ACTIVE"@.contains('='),
        "CORROSION_SCHEMA_EXISTS"@.len() == 23,
        "CORROSION_SCHEMA_EXISTS"@[14] == 'M',
        !"CORROSION_SCHEMA_EXISTS"@.contains('='),
        "COOLIFY_COOLD_INSTALLED"@.len() == 23,
        "COOLIFY_COOLD_INSTALLED"@[14] == 'I',
        !"COOLIFY_COOLD_INSTALLED"@.contains('='),
        "COOLIFY_COOLD_ACTIVE"@.len() == 20,
        "COOLIFY_COOLD_ACTIVE"@[0] == 'C',
        !"COOLIFY_COOLD_ACTIVE"@.contains('='),
        "PUBLIC_KEY"@.len() == 10,
        "PUBLIC_KEY"@[0] == 'P',
        !"PUBLIC_KEY"@.contains('='),
        "FW_HASH"@.len() == 7,
        !"FW_HASH"@.contains('='),
        "CORROSION_CONFIG_HASH"@.len() == 21,
        "CORROSION_CONFIG_HASH"@[10] == 'C',
        !"CORROSION_CONFIG_HASH"@.contains('='),
        "CORROSION_SCHEMA_HASH"@.len() == 21,
        "CORROSION_SCHEMA_HASH"@[10] == 'S',
        !"CORROSION_SCHEMA_HASH"@.contains('='),
        "CORROSION_VERSION"@.len() == 17,
        !"CORROSION_VERSION"@.contains('='),
        "COOLIFY_COOLD_VERSION"@.len() == 21,
        "COOLIFY_COOLD_VERSION"@[10] == 'O',
        !"COOLIFY_COOLD_VERSION"@.contains('='),
        "COOLIFY_COOLD_UNIT_HASH"@.len() == 23,
        "COOLIFY_COOLD_UNIT_HASH"@[14] == 'U',
        !"COOLIFY_COOLD_UNIT_HASH"@.contains('='),
        "CONFIG_B64"@.len() == 10,
        "CONFIG_B64"@[0] == 'C',
        !"CONFIG_B64"@.contains('='),
        "WG_DUMP_B64"@.len() == 11,
        !"WG_DUMP_B64"@.contains('='),
{
    reveal_strlit("WG_INSTALLED");
    reveal_strlit("KEYS_EXIST");
    reveal_strlit("PODMAN_INSTALLED");
    reveal_strlit("PODMAN_SOCKET_ACTIVE");
    reveal_strlit("IP_FORWARD");
    reveal_strlit("FW_ACTIVE");
    reveal_strlit("DEFAULT_DENY");
    reveal_strlit("NFT_AVAILABLE");
    reveal_strlit("BRIDGE_TABLE");
    reveal_strlit("CORROSION_INSTALLED");
    reveal_strlit("CORROSION_ACTIVE");
    reveal_strlit("CORROSION_SCHEMA_EXISTS");
    reveal_strlit("COOLIFY_COOLD_INSTALLED");
    reveal_strlit("COOLIFY_COOLD_ACTIVE");
    reveal_strlit("PUBLIC_KEY");
    reveal_strlit("FW_HASH");
    reveal_strlit("CORROSION_CONFIG_HASH");
    reveal_strlit("CORROSION_SCHEMA_HASH");
    reveal_strlit("CORROSION_VERSION");
    reveal_strlit("COOLIFY_COOLD_VERSION");
    reveal_strlit("COOLIFY_COOLD_UNIT_HASH");
    reveal_strlit("CONFIG_B64");
    reveal_strlit("WG_DUMP_B64");
}

/// A line `key=..` is split at its first equals sign.
proof fn told_is_split(line: Seq<char>, key: Seq<char>)
    requires
        !key.contains('='),
    ensures
        text::has_prefix(line, key.push('=')) <==> (text::split_once_spec(line, '=') matches Some(
            (k, _),
        ) && k == key),
        text::has_prefix(line, key.push('=')) ==> text::split_once_spec(line, '=') == Some(
            (key, line.skip(key.len() as int + 1)),
        ),
{
    let p = key.push('=');
    text::find_char_props(line, '=');
    let i = text::find_char(line, '=');
    if text::has_prefix(line, p) {
        let n = key.len() as int;
        assert(line.subrange(0, n + 1) == p);
        assert forall|j: int| 0 <= j < n implies line[j] != '=' by {
            assert(line.subrange(0, n + 1)[j] == line[j]);
            assert(p[j] == key[j]);
        }
        assert(line.subrange(0, n + 1)[n] == line[n]);
        text::find_char_is(line, '=', n);
        assert(line.take(n) =~= key) by {
            assert forall|j: int| 0 <= j < n implies line[j] == key[j] by {
                assert(line.subrange(0, n + 1)[j] == line[j]);
                assert(p[j] == key[j]);
            }
        }
    }
    if let Some((k, _)) = text::split_once_spec(line, '=') {
        if k == key {
            assert(line.subrange(0, key.len() as int + 1) =~= p);
        }
    }
}

/// What one more line says.
proof fn one_more_told(lines: Seq<Seq<char>>, key: Seq<char>)
    requires
        lines.len() > 0,
        !key.contains('='),
    ensures
        told(lines, key) == (match text::split_once_spec(lines.last(), '=') {
            Some((k, v)) => if k == key {
                Some(v)
            } else {
                told(lines.drop_last(), key)
            },
            None => told(lines.drop_last(), key),
        }),
{
    reveal_with_fuel(told, 2);
    told_is_split(lines.last(), key);
}

proof fn nothing_told(key: Seq<char>)
    ensures
        told(Seq::empty(), key) is None,
{
    reveal_with_fuel(told, 1);
}

/// A host of which nothing but its name and interface is known.
pub open spec fn fresh_server(host: Seq<char>, iface: Seq<char>) -> ServerView {
    ServerView { host, interface: iface, ..state::unknown_server() }
}

/// Whether two states agree in all that the interface configuration, the dump and the networks
/// say.
spec fn same_interface(a: ServerView, b: ServerView) -> bool {
    &&& a.host == b.host
    &&& a.interface == b.interface
    &&& a.wireguard_mgmt_ip == b.wireguard_mgmt_ip
    &&& a.listen_port == b.listen_port
    &&& a.active == b.active
    &&& a.peers == b.peers
    &&& a.namespaces == b.namespaces
}

proof fn host_flags_are_set(s: ServerView, k: Seq<char>, v: bool)
    ensures
        reconstruct::with_host_flag(s, k, v) == (ServerView {
            installed: if k == "WG_INSTALLED"@ {
                v
            } else {
                s.installed
            },
            keys_exist: if k == "KEYS_EXIST"@ {
                v
            } else {
                s.keys_exist
            },
            podman_installed: if k == "PODMAN_INSTALLED"@ {
                v
            } else {
                s.podman_installed
            },
            podman_socket_active: if k == "PODMAN_SOCKET_ACTIVE"@ {
                v
            } else {
                s.podman_socket_active
            },
            ip_forward_enabled: if k == "IP_FORWARD"@ {
                v
            } else {
                s.ip_forward_enabled
            },
            firewall_active: if k == "FW_ACTIVE"@ {
                v
            } else {
                s.firewall_active
            },
            default_deny_active: if k == "DEFAULT_DENY"@ {
                v
            } else {
                s.default_deny_active
            },
            nft_available: if k == "NFT_AVAILABLE"@ {
                v
            } else {
                s.nft_available
            },
            ..s
        }),
{
    keys_differ();
}

proof fn agent_flags_are_set(s: ServerView, k: Seq<char>, v: bool)
    ensures
        reconstruct::with_agent_flag(s, k, v) == (ServerView {
            bridge_table_exists: if k == "BRIDGE_TABLE"@ {
                v
            } else {
                s.bridge_table_exists
            },
            corrosion_installed: if k == "CORROSION_INSTALLED"@ {
                v
            } else {
                s.corrosion_installed
            },
            corrosion_active: if k == "CORROSION_ACTIVE"@ {
                v
            } else {
                s.corrosion_active
            },
            corrosion_schema_exists: if k == "CORROSION_SCHEMA_EXISTS"@ {
                v
            } else {
                s.corrosion_schema_exists
            },
            coold_installed: if k == "COOLIFY_COOLD_INSTALLED"@ {
                v
            } else {
                s.coold_installed
            },
            coold_active: if k == "COOLIFY_COOLD_ACTIVE"@ {
                v
            } else {
                s.coold_active
            },
            ..s
        }),
{
    keys_differ();
}

proof fn values_are_set(s: ServerView, k: Seq<char>, v: Seq<char>)
    ensures
        reconstruct::with_value(s, k, v) == (ServerView {
            public_key: if k == "PUBLIC_KEY"@ {
                v
            } else {
                s.public_key
            },
            firewall_unit_sha256: if k == "FW_HASH"@ {
                v
            } else {
                s.firewall_unit_sha256
            },
            corrosion_config_hash: if k == "CORROSION_CONFIG_HASH"@ {
                v
            } else {
                s.corrosion_config_hash
            },
            corrosion_schema_sha256: if k == "CORROSION_SCHEMA_HASH"@ {
                v
            } else {
                s.corrosion_schema_sha256
            },
            corrosion_version: if k == "CORROSION_VERSION"@ {
                v
            } else {
                s.corrosion_version
            },
            coold_version: if k == "COOLIFY_COOLD_VERSION"@ {
                v
            } else {
                s.coold_version
            },
            coold_unit_sha256: if k == "COOLIFY_COOLD_UNIT_HASH"@ {
                v
            } else {
                s.coold_unit_sha256
            },
            ..s
        }),
{
    keys_differ();
}

/// What one more line says.
proof fn one_more_says(lines: Seq<Seq<char>>, key: Seq<char>, k: Seq<char>, raw: Seq<char>)
    requires
        lines.len() > 0,
        !key.contains('='),
        text::split_once_spec(lines.last(), '=') == Some((k, raw)),
    ensures
        says_yes(lines, key) == (if k == key {
            split::trimmed(raw) == "1"@
        } else {
            says_yes(lines.drop_last(), key)
        }),
        says(lines, key) == (if k == key {
            split::trimmed(raw)
        } else {
            says(lines.drop_last(), key)
        }),
{
    one_more_told(lines, key);
}

proof fn host_keys_are_plain()
    ensures
        !"WG_INSTALLED"@.contains('='),
        !"KEYS_EXIST"@.contains('='),
        !"PODMAN_INSTALLED"@.contains('='),
        !"PODMAN_SOCKET_ACTIVE"@.contains('='),
        !"IP_FORWARD"@.contains('='),
        !"FW_ACTIVE"@.contains('='),
        !"DEFAULT_DENY"@.contains('='),
        !"NFT_AVAILABLE"@.contains('='),
{
    keys_differ();
}

proof fn agent_keys_are_plain()
    ensures
        !"BRIDGE_TABLE"@.contains('='),
        !"CORROSION_INSTALLED"@.contains('='),
        !"CORROSION_ACTIVE"@.contains('='),
        !"CORROSION_SCHEMA_EXISTS"@.contains('='),
        !"COOLIFY_COOLD_INSTALLED"@.contains('='),
        !"COOLIFY_COOLD_ACTIVE"@.contains('='),
{
    keys_differ();
}

proof fn text_keys_are_plain()
    ensures
        !"PUBLIC_KEY"@.contains('='),
        !"FW_HASH"@.contains('='),
        !"CORROSION_CONFIG_HASH"@.contains('='),
        !"CORROSION_SCHEMA_HASH"@.contains('='),
        !"CORROSION_VERSION"@.contains('='),
        !"COOLIFY_COOLD_VERSION"@.contains('='),
        !"COOLIFY_COOLD_UNIT_HASH"@.contains('='),
{
    keys_differ();
}

proof fn host_flags_are_told(s: ServerView, lines: Seq<Seq<char>>, k: Seq<char>, raw: Seq<char>)
    requires
        lines.len() > 0,
        text::split_once_spec(lines.last(), '=') == Some((k, raw)),
        host_is_told(s, lines.drop_last()),
    ensures
        host_is_told(reconstruct::with_host_flag(s, k, split::trimmed(raw) == "1"@), lines),
{
    host_flags_are_set(s, k, split::trimmed(raw) == "1"@);
    host_keys_are_plain();
    one_more_says(lines, "WG_INSTALLED"@, k, raw);
    one_more_says(lines, "KEYS_EXIST"@, k, raw);
    one_more_says(lines, "PODMAN_INSTALLED"@, k, raw);
    one_more_says(lines, "PODMAN_SOCKET_ACTIVE"@, k, raw);
    one_more_says(lines, "IP_FORWARD"@, k, raw);
    one_more_says(lines, "FW_ACTIVE"@, k, raw);
    one_more_says(lines, "DEFAULT_DENY"@, k, raw);
    one_more_says(lines, "NFT_AVAILABLE"@, k, raw);
}

proof fn agent_flags_are_told(s: ServerView, lines: Seq<Seq<char>>, k: Seq<char>, raw: Seq<char>)
    requires
        lines.len() > 0,
        text::split_once_spec(lines.last(), '=') == Some((k, raw)),
        agents_are_told(s, lines.drop_last()),
    ensures
        agents_are_told(reconstruct::with_agent_flag(s, k, split::trimmed(raw) == "1"@), lines),
{
    agent_flags_are_set(s, k, split::trimmed(raw) == "1"@);
    agent_keys_are_plain();
    one_more_says(lines, "BRIDGE_TABLE"@, k, raw);
    one_more_says(lines, "CORROSION_INSTALLED"@, k, raw);
    one_more_says(lines, "CORROSION_ACTIVE"@, k, raw);
    one_more_says(lines, "CORROSION_SCHEMA_EXISTS"@, k, raw);
    one_more_says(lines, "COOLIFY_COOLD_INSTALLED"@, k, raw);
    one_more_says(lines, "COOLIFY_COOLD_ACTIVE"@, k, raw);
}

proof fn values_are_told(s: ServerView, lines: Seq<Seq<char>>, k: Seq<char>, raw: Seq<char>)
    requires
        lines.len() > 0,
        text::split_once_spec(lines.last(), '=') == Some((k, raw)),
        texts_are_told(s, lines.drop_last()),
    ensures
        texts_are_told(reconstruct::with_value(s, k, split::trimmed(raw)), lines),
{
    values_are_set(s, k, split::trimmed(raw));
    text_keys_are_plain();
    one_more_says(lines, "PUBLIC_KEY"@, k, raw);
    one_more_says(lines, "FW_HASH"@, k, raw);
    one_more_says(lines, "CORROSION_CONFIG_HASH"@, k, raw);
    one_more_says(lines, "CORROSION_SCHEMA_HASH"@, k, raw);
    one_more_says(lines, "CORROSION_VERSION"@, k, raw);
    one_more_says(lines, "COOLIFY_COOLD_VERSION"@, k, raw);
    one_more_says(lines, "COOLIFY_COOLD_UNIT_HASH"@, k, raw);
}

/// A line that holds a file says nothing of the software.
proof fn files_say_nothing(s: ServerView, lines: Seq<Seq<char>>, k: Seq<char>, raw: Seq<char>)
    requires
        lines.len() > 0,
        text::split_once_spec(lines.last(), '=') == Some((k, raw)),
        is_told(s, lines.drop_last()),
        k == "CONFIG_B64"@ || k == "WG_DUMP_B64"@,
    ensures
        is_told(s, lines),
{
    keys_differ();
    one_more_says(lines, "WG_INSTALLED"@, k, raw);
    one_more_says(lines, "KEYS_EXIST"@, k, raw);
    one_more_says(lines, "PODMAN_INSTALLED"@, k, raw);
    one_more_says(lines, "PODMAN_SOCKET_ACTIVE"@, k, raw);
    one_more_says(lines, "IP_FORWARD"@, k, raw);
    one_more_says(lines, "FW_ACTIVE"@, k, raw);
    one_more_says(lines, "DEFAULT_DENY"@, k, raw);
    one_more_says(lines, "NFT_AVAILABLE"@, k, raw);
    one_more_says(lines, "BRIDGE_TABLE"@, k, raw);
    one_more_says(lines, "CORROSION_INSTALLED"@, k, raw);
    one_more_says(lines, "CORROSION_ACTIVE"@, k, raw);
    one_more_says(lines, "CORROSION_SCHEMA_EXISTS"@, k, raw);
    one_more_says(lines, "COOLIFY_COOLD_INSTALLED"@, k, raw);
    one_more_says(lines, "COOLIFY_COOLD_ACTIVE"@, k, raw);
    one_more_says(lines, "PUBLIC_KEY"@, k, raw);
    one_more_says(lines, "FW_HASH"@, k, raw);
    one_more_says(lines, "CORROSION_CONFIG_HASH"@, k, raw);
    one_more_says(lines, "CORROSION_SCHEMA_HASH"@, k, raw);
    one_more_says(lines, "CORROSION_VERSION"@, k, raw);
    one_more_says(lines, "COOLIFY_COOLD_VERSION"@, k, raw);
    one_more_says(lines, "COOLIFY_COOLD_UNIT_HASH"@, k, raw);
}

/// A line without an equals sign says nothing.
proof fn other_lines_say_nothing(s: ServerView, lines: Seq<Seq<char>>)
    requires
        lines.len() > 0,
        text::split_once_spec(lines.last(), '=') is None,
        is_told(s, lines.drop_last()),
    ensures
        is_told(s, lines),
{
    host_keys_are_plain();
    agent_keys_are_plain();
    text_keys_are_plain();
    one_more_told(lines, "WG_INSTALLED"@);
    one_more_told(lines, "KEYS_EXIST"@);
    one_more_told(lines, "PODMAN_INSTALLED"@);
    one_more_told(lines, "PODMAN_SOCKET_ACTIVE"@);
    one_more_told(lines, "IP_FORWARD"@);
    one_more_told(lines, "FW_ACTIVE"@);
    one_more_told(lines, "DEFAULT_DENY"@);
    one_more_told(lines, "NFT_AVAILABLE"@);
    one_more_told(lines, "BRIDGE_TABLE"@);
    one_more_told(lines, "CORROSION_INSTALLED"@);
    one_more_told(lines, "CORROSION_ACTIVE"@);
    one_more_told(lines, "CORROSION_SCHEMA_EXISTS"@);
    one_more_told(lines, "COOLIFY_COOLD_INSTALLED"@);
    one_more_told(lines, "COOLIFY_COOLD_ACTIVE"@);
    one_more_told(lines, "PUBLIC_KEY"@);
    one_more_told(lines, "FW_HASH"@);
    one_more_told(lines, "CORROSION_CONFIG_HASH"@);
    one_more_told(lines, "CORROSION_SCHEMA_HASH"@);
    one_more_told(lines, "CORROSION_VERSION"@);
    one_more_told(lines, "COOLIFY_COOLD_VERSION"@);
    one_more_told(lines, "COOLIFY_COOLD_UNIT_HASH"@);
}

/// What one more line says of the software.
proof fn one_more_is_told(p: ProbeView, lines: Seq<Seq<char>>)
    requires
        lines.len() > 0,
        is_told(p.server, lines.drop_last()),
    ensures
        is_told(reconstruct::probe_line(p, lines.last()).server, lines),
{
    match text::split_once_spec(lines.last(), '=') {
        Some((k, raw)) => {
            if k == "CONFIG_B64"@ || k == "WG_DUMP_B64"@ {
                files_say_nothing(p.server, lines, k, raw);
            } else {
                let v = split::trimmed(raw);
                let on = v == "1"@;
                let a = reconstruct::with_host_flag(p.server, k, on);
                let b = reconstruct::with_agent_flag(a, k, on);
                host_flags_are_told(p.server, lines, k, raw);
                host_flags_are_set(p.server, k, on);
                agent_flags_are_told(a, lines, k, raw);
                agent_flags_are_set(a, k, on);
                values_are_told(b, lines, k, raw);
                values_are_set(b, k, v);
            }
        },
        None => {
            other_lines_say_nothing(p.server, lines);
        },
    }
}

proof fn lines_are_told(host: Seq<char>, iface: Seq<char>, lines: Seq<Seq<char>>)
    ensures
        ({
            let start = fresh_server(host, iface);
            let p = reconstruct::probe_lines(
                ProbeView { server: start, config: Seq::empty(), dump: Seq::empty() },
                lines,
            );
            &&& is_told(p.server, lines)
            &&& same_interface(p.server, start)
            &&& p.config == encloses(lines, "CONFIG_B64"@)
            &&& p.dump == encloses(lines, "WG_DUMP_B64"@)
        }),
    decreases lines.len(),
{
    if lines.len() == 0 {
        assert(lines =~= Seq::empty());
        nothing_told("WG_INSTALLED"@);
        nothing_told("KEYS_EXIST"@);
        nothing_told("PODMAN_INSTALLED"@);
        nothing_told("PODMAN_SOCKET_ACTIVE"@);
        nothing_told("IP_FORWARD"@);
        nothing_told("FW_ACTIVE"@);
        nothing_told("DEFAULT_DENY"@);
        nothing_told("NFT_AVAILABLE"@);
        nothing_told("BRIDGE_TABLE"@);
        nothing_told("CORROSION_INSTALLED"@);
        nothing_told("CORROSION_ACTIVE"@);
        nothing_told("CORROSION_SCHEMA_EXISTS"@);
        nothing_told("COOLIFY_COOLD_INSTALLED"@);
        nothing_told("COOLIFY_COOLD_ACTIVE"@);
        nothing_told("PUBLIC_KEY"@);
        nothing_told("FW_HASH"@);
        nothing_told("CORROSION_CONFIG_HASH"@);
        nothing_told("CORROSION_SCHEMA_HASH"@);
        nothing_told("CORROSION_VERSION"@);
        nothing_told("COOLIFY_COOLD_VERSION"@);
        nothing_told("COOLIFY_COOLD_UNIT_HASH"@);
        nothing_told("CONFIG_B64"@);
        nothing_told("WG_DUMP_B64"@);
    } else {
        let t = lines.drop_last();
        let start = fresh_server(host, iface);
        lines_are_told(host, iface, t);
        keys_differ();
        one_more_told(lines, "CONFIG_B64"@);
        one_more_told(lines, "WG_DUMP_B64"@);
        let p = reconstruct::probe_lines(
            ProbeView { server: start, config: Seq::empty(), dump: Seq::empty() },
            t,
        );
        one_more_is_told(p, lines);
        one_more_keeps(p, lines.last());
    }
}

/// A line says nothing of the interface but by the two files that it may hold.
proof fn one_more_keeps(p: ProbeView, line: Seq<char>)
    ensures
        same_interface(reconstruct::probe_line(p, line).server, p.server),
{
    if let Some((k, raw)) = text::split_once_spec(line, '=') {
        let v = split::trimmed(raw);
        let on = v == "1"@;
        let a = reconstruct::with_host_flag(p.server, k, on);
        let b = reconstruct::with_agent_flag(a, k, on);
        host_flags_are_set(p.server, k, on);
        agent_flags_are_set(a, k, on);
        values_are_set(b, k, v);
    }
}

/// Whether two states agree in all but what an interface configuration says.
spec fn same_software(a: ServerView, b: ServerView) -> bool {
    &&& a.host == b.host
    &&& a.interface == b.interface
    &&& a.active == b.active
    &&& a.namespaces == b.namespaces
    &&& a.installed == b.installed
    &&& a.keys_exist == b.keys_exist
    &&& a.podman_installed == b.podman_installed
    &&& a.podman_socket_active == b.podman_socket_active
    &&& a.ip_forward_enabled == b.ip_forward_enabled
    &&& a.firewall_active == b.firewall_active
    &&& a.default_deny_active == b.default_deny_active
    &&& a.nft_available == b.nft_available
    &&& a.bridge_table_exists == b.bridge_table_exists
    &&& a.corrosion_installed == b.corrosion_installed
    &&& a.corrosion_active == b.corrosion_active
    &&& a.corrosion_schema_exists == b.corrosion_schema_exists
    &&& a.coold_installed == b.coold_installed
    &&& a.coold_active == b.coold_active
    &&& a.public_key == b.public_key
    &&& a.firewall_unit_sha256 == b.firewall_unit_sha256
    &&& a.corrosion_config_hash == b.corrosion_config_hash
    &&& a.corrosion_schema_sha256 == b.corrosion_schema_sha256
    &&& a.corrosion_version == b.corrosion_version
    &&& a.coold_version == b.coold_version
    &&& a.coold_unit_sha256 == b.coold_unit_sha256
}

/// Reading a configuration changes nothing but the address, the port and the peers.
proof fn configurations_change_the_interface(c: ConfigView, lines: Seq<Seq<char>>)
    ensures
        same_software(reconstruct::config_lines(c, lines).server, c.server),
    decreases lines.len(),
{
    if lines.len() > 0 {
        configurations_change_the_interface(c, lines.drop_last());
        one_line_changes_the_interface(
            reconstruct::config_lines(c, lines.drop_last()),
            lines.last(),
        );
    }
}

proof fn one_line_changes_the_interface(c: ConfigView, line: Seq<char>)
    ensures
        same_software(reconstruct::config_line(c, line).server, c.server),
{
    let t = split::trimmed(line);
    if t != "[Peer]"@ {
        if let Some((k, v)) = text::split_once_spec(t, '=') {
            one_setting_changes_the_interface(c, split::trimmed(k), split::trimmed(v));
        }
    }
}

proof fn changed(s: ServerView, ip: Option<u32>, port: u16)
    ensures
        same_software(ServerView { wireguard_mgmt_ip: ip, ..s }, s),
        same_software(ServerView { listen_port: port, ..s }, s),
        same_software(s, s),
{
}

#[verifier::rlimit(60)]
proof fn one_setting_changes_the_interface(c: ConfigView, k: Seq<char>, v: Seq<char>)
    ensures
        same_software(reconstruct::config_value(c, k, v).server, c.server),
{
    match c.cur {
        None => {
            if k == "Address"@ {
                if let Some(ip) = net::ip_parsed(split::pieces(v, '/')[0]) {
                    changed(c.server, Some(ip as u32), c.server.listen_port);
                }
            } else if k == "ListenPort"@ {
                changed(c.server, c.server.wireguard_mgmt_ip, reconstruct::port_or_zero(v));
            }
        },
        Some(_) => {},
    }
}

/// What is known of the software on a host is what the lines of its probe say: each fact comes
/// from the last line with its own key, and from nowhere else.
pub proof fn probes_tell_what_is_known(
    host: Seq<char>,
    iface: Seq<char>,
    namespaces: Seq<Seq<char>>,
    output: Seq<char>,
)
    ensures
        is_told(
            reconstruct::probed(host, iface, namespaces, output),
            split::lines_of(output),
        ),
        reconstruct::probed(host, iface, namespaces, output).host == host,
        reconstruct::probed(host, iface, namespaces, output).interface == iface,
{
    let lines = split::lines_of(output);
    let start = fresh_server(host, iface);
    lines_are_told(host, iface, lines);
    let p = reconstruct::probe_lines(
        ProbeView { server: start, config: Seq::empty(), dump: Seq::empty() },
        lines,
    );
    configurations_change_the_interface(
        ConfigView { server: p.server, cur: None },
        split::lines_of(p.config),
    );
}

/// An interface is known as active if and only if its probe prints a dump that is not blank:
/// a host whose interface runs prints its dump, and one whose interface is down prints none.
pub proof fn dumps_tell_what_is_active(
    host: Seq<char>,
    iface: Seq<char>,
    namespaces: Seq<Seq<char>>,
    output: Seq<char>,
)
    ensures
        reconstruct::probed(host, iface, namespaces, output).active <==> (told(
            split::lines_of(output),
            "WG_DUMP_B64"@,
        ) matches Some(v) && split::trimmed(reconstruct::decoded(v)).len() > 0),
{
    let lines = split::lines_of(output);
    let start = fresh_server(host, iface);
    lines_are_told(host, iface, lines);
    let p = reconstruct::probe_lines(
        ProbeView { server: start, config: Seq::empty(), dump: Seq::empty() },
        lines,
    );
    configurations_change_the_interface(
        ConfigView { server: p.server, cur: None },
        split::lines_of(p.config),
    );
    assert(split::trimmed(Seq::empty()).len() == 0);
}

/// The address, the port and the peers of an interface are those of the configuration that its
/// probe prints; the dump adds nothing to a peer but the time of its last handshake.
pub proof fn configurations_tell_the_peers(
    host: Seq<char>,
    iface: Seq<char>,
    namespaces: Seq<Seq<char>>,
    output: Seq<char>,
)
    ensures
        ({
            let s = reconstruct::probed(host, iface, namespaces, output);
            let lines = split::lines_of(output);
            let c = reconstruct::configured(
                fresh_server(host, iface),
                encloses(lines, "CONFIG_B64"@),
            );
            &&& s.wireguard_mgmt_ip == c.wireguard_mgmt_ip
            &&& s.listen_port == c.listen_port
            &&& s.peers.len() == c.peers.len()
            &&& forall|i: int|
                0 <= i < s.peers.len() ==> (#[trigger] s.peers[i]) == (PeerView {
                    latest_handshake: s.peers[i].latest_handshake,
                    ..c.peers[i]
                })
        }),
{
    let lines = split::lines_of(output);
    let start = fresh_server(host, iface);
    lines_are_told(host, iface, lines);
    let p = reconstruct::probe_lines(
        ProbeView { server: start, config: Seq::empty(), dump: Seq::empty() },
        lines,
    );
    same_configuration(
        ConfigView { server: p.server, cur: None },
        ConfigView { server: start, cur: None },
        split::lines_of(p.config),
    );
}

/// What a configuration says does not depend on what else is known of the host.
proof fn same_configuration(a: ConfigView, b: ConfigView, lines: Seq<Seq<char>>)
    requires
        same_interface(a.server, b.server),
        a.cur == b.cur,
    ensures
        same_interface(
            reconstruct::config_lines(a, lines).server,
            reconstruct::config_lines(b, lines).server,
        ),
        reconstruct::config_lines(a, lines).cur == reconstruct::config_lines(b, lines).cur,
    decreases lines.len(),
{
    if lines.len() > 0 {
        same_configuration(a, b, lines.drop_last());
    }
}

/// The time of a peer's last handshake is the sixth field of its line in the dump, where the
/// dump has such a line: the peers follow the interface in it, in order.
pub proof fn dumps_tell_the_handshakes(s: ServerView, dump: Seq<char>, i: int)
    requires
        0 <= i < s.peers.len(),
    ensures
        ({
            let lines = split::lines_of(dump);
            let p = reconstruct::dumped(s, dump).peers[i];
            &&& reconstruct::dumped(s, dump).peers.len() == s.peers.len()
            &&& i + 1 < lines.len() && split::pieces(lines[i + 1], '\t').len() > 5
                ==> p.latest_handshake == reconstruct::signed_or_zero(
                split::pieces(lines[i + 1], '\t')[5],
            )
            &&& i + 1 >= lines.len() ==> p.latest_handshake == s.peers[i].latest_handshake
            &&& p.public_key == s.peers[i].public_key
            &&& p.endpoint == s.peers[i].endpoint
            &&& p.allowed_ips == s.peers[i].allowed_ips
            &&& p.persistent_keepalive == s.peers[i].persistent_keepalive
        }),
{
}

// ---------------------------------------------------------------------------
// Namespaces
// ---------------------------------------------------------------------------

/// Whether a line tells of this namespace: `NS=`, its name and four more parts.
pub open spec fn tells_of(line: Seq<char>, ns: Seq<char>) -> bool {
    text::has_prefix(line, "NS="@) && {
        let p = split::pieces(line.skip(3), '|');
        p.len() >= 5 && p[0] == ns
    }
}

/// Whether this is what a line says of its network: there unless it says that it is missing,
/// then its subnet, whether it answers names, and its label.
pub open spec fn is_network_of(n: NamespaceView, line: Seq<char>) -> bool {
    let p = split::pieces(line.skip(3), '|');
    &&& n.namespace == p[0]
    &&& n.network_exists <==> p[1] != "missing"@
    &&& n.dns_enabled <==> split::trimmed(p[3]) == "true"@
    &&& n.label == split::trimmed(p[4])
    &&& match net::net_parsed(p[2]) {
        Some((a, l)) => n.container_subnet == Some(Ipv4Net::make(a, l)),
        None => n.container_subnet is None,
    }
}

proof fn lines_tell_networks(lines: Seq<Seq<char>>, ns: Seq<char>)
    ensures
        match keyed::lookup(reconstruct::told_namespaces(Seq::empty(), lines), ns) {
            Some(n) => exists|i: int|
                0 <= i < lines.len() && tells_of(#[trigger] lines[i], ns) && is_network_of(
                    n,
                    lines[i],
                ) && forall|j: int| i < j < lines.len() ==> !tells_of(#[trigger] lines[j], ns),
            None => forall|i: int| 0 <= i < lines.len() ==> !tells_of(#[trigger] lines[i], ns),
        },
    decreases lines.len(),
{
    reveal_strlit("NS=");
    let m = reconstruct::told_namespaces(Seq::empty(), lines);
    if lines.len() > 0 {
        let t = lines.drop_last();
        let last = lines.last();
        lines_tell_networks(t, ns);
        let before = reconstruct::told_namespaces(Seq::empty(), t);
        assert(lines[lines.len() - 1] == last);
        if let Some(n) = reconstruct::namespace_line(last) {
            keyed::lookup_put(before, n.namespace, n, ns);
        }
        assert(tells_of(last, ns) <==> (reconstruct::namespace_line(last) matches Some(n)
            && n.namespace == ns));
        if tells_of(last, ns) {
            let n = reconstruct::namespace_line(last)->0;
            assert(is_network_of(n, lines[lines.len() - 1]));
        } else {
            assert(keyed::lookup(m, ns) == keyed::lookup(before, ns));
            match keyed::lookup(before, ns) {
                Some(n) => {
                    let i = choose|i: int|
                        0 <= i < t.len() && tells_of(#[trigger] t[i], ns) && is_network_of(n, t[i])
                            && forall|j: int| i < j < t.len() ==> !tells_of(#[trigger] t[j], ns);
                    assert(lines[i] == t[i]);
                    assert forall|j: int| i < j < lines.len() implies !tells_of(
                        #[trigger] lines[j],
                        ns,
                    ) by {
                        if j < t.len() {
                            assert(lines[j] == t[j]);
                        }
                    }
                },
                None => {
                    assert forall|i: int| 0 <= i < lines.len() implies !tells_of(
                        #[trigger] lines[i],
                        ns,
                    ) by {
                        if i < t.len() {
                            assert(lines[i] == t[i]);
                        }
                    }
                },
            }
        }
    }
}

proof fn asked_namespaces_are_there(
    m: Seq<(Seq<char>, NamespaceView)>,
    nss: Seq<Seq<char>>,
    ns: Seq<char>,
)
    ensures
        keyed::lookup(reconstruct::with_namespaces(m, nss), ns) == (if keyed::lookup(m, ns) is Some {
            keyed::lookup(m, ns)
        } else if nss.contains(ns) {
            Some(reconstruct::absent_namespace(ns))
        } else {
            None
        }),
    decreases nss.len(),
{
    if nss.len() > 0 {
        let t = nss.drop_last();
        asked_namespaces_are_there(m, t, ns);
        asked_namespaces_are_there(m, t, nss.last());
        keyed::lookup_put(
            reconstruct::with_namespaces(m, t),
            nss.last(),
            reconstruct::absent_namespace(nss.last()),
            ns,
        );
        if t.contains(ns) {
            let i = choose|i: int| 0 <= i < t.len() && t[i] == ns;
            assert(nss[i] == ns);
        }
        if nss.contains(ns) {
            let i = choose|i: int| 0 <= i < nss.len() && nss[i] == ns;
            if i < t.len() {
                assert(t[i] == ns);
            }
        }
        assert(nss[nss.len() - 1] == nss.last());
    }
}

/// What is known of the network of a namespace is what the last line on that namespace says. A
/// namespace that was asked for and that no line tells of has no network.
pub proof fn probes_tell_the_networks(
    host: Seq<char>,
    iface: Seq<char>,
    namespaces: Seq<Seq<char>>,
    output: Seq<char>,
    ns: Seq<char>,
)
    ensures
        ({
            let lines = split::lines_of(output);
            let known = keyed::lookup(
                reconstruct::probed(host, iface, namespaces, output).namespaces,
                ns,
            );
            if exists|i: int| 0 <= i < lines.len() && tells_of(#[trigger] lines[i], ns) {
                known matches Some(n) && exists|i: int|
                    0 <= i < lines.len() && tells_of(#[trigger] lines[i], ns) && is_network_of(
                        n,
                        lines[i],
                    ) && forall|j: int| i < j < lines.len() ==> !tells_of(#[trigger] lines[j], ns)
            } else if namespaces.contains(ns) {
                known matches Some(n) && n.namespace == ns && !n.network_exists
                    && n.container_subnet is None
            } else {
                known is None
            }
        }),
{
    let lines = split::lines_of(output);
    lines_tell_networks(lines, ns);
    asked_namespaces_are_there(
        reconstruct::told_namespaces(Seq::empty(), lines),
        namespaces,
        ns,
    );
}

// ---------------------------------------------------------------------------
// The mesh
// ---------------------------------------------------------------------------

/// What is known of a host of the mesh is what its last successful probe told, and nothing is
/// known of a host without one.
pub proof fn meshes_are_what_was_probed(
    results: Seq<reconstruct::ProbeResult>,
    host: Seq<char>,
)
    ensures
        match keyed::lookup(reconstruct::collected(results), host) {
            Some(s) => exists|i: int|
                0 <= i < results.len() && (#[trigger] results[i]).host@ == host
                    && (results[i].result matches Some(r) && r@ == s) && forall|j: int|
                    i < j < results.len() ==> (#[trigger] results[j]).host@ != host
                        || results[j].result is None,
            None => forall|i: int|
                0 <= i < results.len() ==> (#[trigger] results[i]).host@ != host
                    || results[i].result is None,
        },
    decreases results.len(),
{
    if results.len() > 0 {
        let t = results.drop_last();
        let last = results.last();
        meshes_are_what_was_probed(t, host);
        assert(results[results.len() - 1] == last);
        if let Some(s) = last.result {
            keyed::lookup_put(reconstruct::collected(t), last.host@, s@, host);
        }
        if last.result is Some && last.host@ == host {
            assert(results[results.len() - 1].result is Some);
        } else {
            match keyed::lookup(reconstruct::collected(t), host) {
                Some(s) => {
                    let i = choose|i: int|
                        0 <= i < t.len() && (#[trigger] t[i]).host@ == host && (
                        t[i].result matches Some(r) && r@ == s) && forall|j: int|
                            i < j < t.len() ==> (#[trigger] t[j]).host@ != host || t[j].result is None;
                    assert(results[i] == t[i]);
                    assert forall|j: int| i < j < results.len() implies (
                    #[trigger] results[j]).host@ != host || results[j].result is None by {
                        if j < t.len() {
                            assert(results[j] == t[j]);
                        }
                    }
                },
                None => {
                    assert forall|i: int| 0 <= i < results.len() implies (
                    #[trigger] results[i]).host@ != host || results[i].result is None by {
                        if i < t.len() {
                            assert(results[i] == t[i]);
                        }
                    }
                },
            }
        }
    }
}

} // verus!
