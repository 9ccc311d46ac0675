//! Names that are accepted, files and the commands that write them, and what is reported.

use vstd::prelude::*;
use crate::cli::config;
use crate::cli::config::PeerConfigView;
use crate::cli::meshnet;
use crate::cli::script_laws::{stands_between, stands_first, stands_last, stands_inside};
use crate::cooldctl::config as control_config;
use crate::cooldctl::firewall;
use crate::cooldctl::output;
use crate::mesh::action::{ActionType, ActionView, SkippedView};
use crate::mesh::apply;
use crate::mesh::report;
use crate::net;
use crate::number;
use crate::text;
use crate::web;

verus! {

/// Whether a character is a letter in lower case or a digit.
spec fn low(c: char) -> bool {
    ('a' <= c && c <= 'z') || ('0' <= c && c <= '9')
}

/// A namespace is named by one to sixty-three letters in lower case, digits and hyphens, with no
/// hyphen at either end.
pub proof fn namespaces_are_named_by_labels(ns: Seq<char>)
    ensures
        meshnet::namespace_error(ns) is None <==> 1 <= ns.len() <= 63 && ns[0] != '-' && ns[ns.len()
            - 1] != '-' && forall|i: int|
            0 <= i < ns.len() ==> ('a' <= #[trigger] ns[i] && ns[i] <= 'z') || ('0' <= ns[i] && ns[i]
                <= '9') || ns[i] == '-',
{
    if meshnet::namespace_error(ns) is None {
        assert forall|i: int| 0 <= i < ns.len() implies ('a' <= #[trigger] ns[i] && ns[i] <= 'z')
            || ('0' <= ns[i] && ns[i] <= '9') || ns[i] == '-' by {}
    }
    if 1 <= ns.len() <= 63 && ns[0] != '-' && ns[ns.len() - 1] != '-' && forall|i: int|
        0 <= i < ns.len() ==> ('a' <= #[trigger] ns[i] && ns[i] <= 'z') || ('0' <= ns[i] && ns[i]
            <= '9') || ns[i] == '-' {
        assert(low(ns[0]) && low(ns[ns.len() - 1]));
        assert forall|i: int| 0 <= i < ns.len() implies meshnet::small_alnum(#[trigger] ns[i])
            || ns[i] == '-' by {}
    }
}

/// Whether a text is a name of at most so many letters, digits, dots, underscores and hyphens that
/// begins with a letter or a digit.
pub open spec fn is_plain(s: Seq<char>, max: nat) -> bool {
    1 <= s.len() <= max && s[0] != '.' && s[0] != '_' && s[0] != '-' && forall|i: int|
        0 <= i < s.len() ==> ('a' <= #[trigger] s[i] && s[i] <= 'z') || ('A' <= s[i] && s[i] <= 'Z')
            || ('0' <= s[i] && s[i] <= '9') || s[i] == '.' || s[i] == '_' || s[i] == '-'
}

proof fn plain_names_are_plain(s: Seq<char>, max: nat)
    ensures
        meshnet::plain_name(s, max) <==> is_plain(s, max),
{
    if is_plain(s, max) {
        assert(meshnet::alnum(s[0]));
        assert forall|i: int| 0 <= i < s.len() implies meshnet::name_char(#[trigger] s[i]) by {}
    }
    if meshnet::plain_name(s, max) {
        assert forall|i: int| 0 <= i < s.len() implies ('a' <= #[trigger] s[i] && s[i] <= 'z') || (
        'A' <= s[i] && s[i] <= 'Z') || ('0' <= s[i] && s[i] <= '9') || s[i] == '.' || s[i] == '_'
            || s[i] == '-' by {
            assert(meshnet::name_char(s[i]));
        }
    }
}

/// An interface is named by one to fifteen letters, digits, dots, underscores and hyphens, and a
/// version by one to sixty-four of them; the first is a letter or a digit.
pub proof fn interfaces_and_versions_are_plain(s: Seq<char>, label: Seq<char>)
    ensures
        meshnet::interface_error(s) is None <==> is_plain(s, 15),
        meshnet::version_error(label, s) is None <==> is_plain(s, 64),
{
    plain_names_are_plain(s, 15);
    plain_names_are_plain(s, 64);
}

proof fn good_from(nss: Seq<Seq<char>>, i: int)
    requires
        0 <= i <= nss.len(),
    ensures
        meshnet::first_bad(nss, i) is None <==> forall|j: int|
            i <= j < nss.len() ==> meshnet::namespace_error(#[trigger] nss[j]) is None
                && !nss.take(j).contains(nss[j]),
    decreases nss.len() - i,
{
    if i < nss.len() {
        good_from(nss, i + 1);
        if meshnet::first_bad(nss, i) is None {
            assert forall|j: int| i <= j < nss.len() implies meshnet::namespace_error(
                #[trigger] nss[j],
            ) is None && !nss.take(j).contains(nss[j]) by {}
        } else if forall|j: int|
            i <= j < nss.len() ==> meshnet::namespace_error(#[trigger] nss[j]) is None && !nss.take(
                j,
            ).contains(nss[j]) {
            assert(meshnet::namespace_error(nss[i]) is None);
            assert forall|j: int| i + 1 <= j < nss.len() implies meshnet::namespace_error(
                #[trigger] nss[j],
            ) is None && !nss.take(j).contains(nss[j]) by {}
        }
    }
}

/// Namespaces are accepted if and only if there is one, each is named by a label, and none is named
/// twice.
pub proof fn namespaces_are_named_once(nss: Seq<Seq<char>>)
    ensures
        meshnet::namespaces_error(nss) is None <==> nss.len() > 0 && (forall|i: int|
            0 <= i < nss.len() ==> meshnet::namespace_error(#[trigger] nss[i]) is None)
            && forall|i: int, j: int|
            0 <= i < j < nss.len() ==> #[trigger] nss[i] != #[trigger] nss[j],
{
    good_from(nss, 0);
    if nss.len() > 0 && meshnet::namespaces_error(nss) is None {
        assert forall|i: int, j: int| 0 <= i < j < nss.len() implies #[trigger] nss[i]
            != #[trigger] nss[j] by {
            assert(nss.take(j)[i] == nss[i]);
            assert(!nss.take(j).contains(nss[j]));
        }
    }
    if nss.len() > 0 && (forall|i: int|
        0 <= i < nss.len() ==> meshnet::namespace_error(#[trigger] nss[i]) is None) && forall|
        i: int,
        j: int,
    |
        0 <= i < j < nss.len() ==> #[trigger] nss[i] != #[trigger] nss[j] {
        assert forall|j: int| 0 <= j < nss.len() implies meshnet::namespace_error(#[trigger] nss[j])
            is None && !nss.take(j).contains(nss[j]) by {
            if nss.take(j).contains(nss[j]) {
                let i = choose|i: int| 0 <= i < j && nss.take(j)[i] == nss[j];
                assert(nss[i] == nss[j]);
            }
        }
    }
}

// ---------------------------------------------------------------------------
// Configurations
// ---------------------------------------------------------------------------

/// The command that writes this line.
pub open spec fn echoed(line: Seq<char>) -> Seq<char> {
    "echo \""@ + line + "\"; "@
}

/// A line of a file.
pub open spec fn on_file(line: Seq<char>) -> Seq<char> {
    line + "\n"@
}

proof fn next_line(
    left: Seq<char>,
    done: Seq<char>,
    k: Seq<char>,
    v: Seq<char>,
    b: Seq<char>,
    next: Seq<char>,
)
    requires
        left == done + k,
        b == "\n"@ + next,
    ensures
        left + v + b == done + on_file(k + v) + next,
{
    assert(left + v + b =~= done + on_file(k + v) + next);
}

proof fn next_echo(
    left: Seq<char>,
    done: Seq<char>,
    k: Seq<char>,
    v: Seq<char>,
    b: Seq<char>,
    next: Seq<char>,
)
    requires
        left == done + ("echo \""@ + k),
        b == "\"; "@ + next,
    ensures
        left + v + b == done + echoed(k + v) + next,
{
    assert(left + v + b =~= done + echoed(k + v) + next);
}

/// The section of a peer and the command that writes it say the same, line by line.
pub proof fn sections_are_written_as_they_are(
    name: Seq<char>,
    key: Seq<char>,
    ips: Seq<char>,
    endpoint: Seq<char>,
)
    ensures
        config::peer_section_text(name, key, ips, endpoint) == on_file(""@) + on_file("[Peer]"@)
            + on_file("# "@ + name) + on_file("PublicKey = "@ + key) + on_file("AllowedIPs = "@ + ips)
            + on_file("Endpoint = "@ + endpoint) + on_file("PersistentKeepalive = 25"@),
        config::peer_echo_text(name, key, ips, endpoint) == echoed(""@) + echoed("[Peer]"@) + echoed(
            "# "@ + name,
        ) + echoed("PublicKey = "@ + key) + echoed("AllowedIPs = "@ + ips) + echoed(
            "Endpoint = "@ + endpoint,
        ) + echoed("PersistentKeepalive = 25"@),
{
    assert("\n[Peer]\n# "@ =~= on_file(""@) + on_file("[Peer]"@) + "# "@) by {
        reveal_strlit("\n[Peer]\n# ");
        reveal_strlit("");
        reveal_strlit("\n");
        reveal_strlit("[Peer]");
        reveal_strlit("# ");
    }
    assert("\nPublicKey = "@ =~= "\n"@ + "PublicKey = "@) by {
        reveal_strlit("\nPublicKey = ");
        reveal_strlit("\n");
        reveal_strlit("PublicKey = ");
    }
    assert("\nAllowedIPs = "@ =~= "\n"@ + "AllowedIPs = "@) by {
        reveal_strlit("\nAllowedIPs = ");
        reveal_strlit("\n");
        reveal_strlit("AllowedIPs = ");
    }
    assert("\nEndpoint = "@ =~= "\n"@ + "Endpoint = "@) by {
        reveal_strlit("\nEndpoint = ");
        reveal_strlit("\n");
        reveal_strlit("Endpoint = ");
    }
    assert("\nPersistentKeepalive = 25\n"@ =~= "\n"@ + on_file("PersistentKeepalive = 25"@)) by {
        reveal_strlit("\nPersistentKeepalive = 25\n");
        reveal_strlit("\n");
        reveal_strlit("PersistentKeepalive = 25");
    }
    let d0 = on_file(""@) + on_file("[Peer]"@);
    let l0 = "\n[Peer]\n# "@;
    next_line(l0, d0, "# "@, name, "\nPublicKey = "@, "PublicKey = "@);
    let d1 = d0 + on_file("# "@ + name);
    let l1 = l0 + name + "\nPublicKey = "@;
    next_line(l1, d1, "PublicKey = "@, key, "\nAllowedIPs = "@, "AllowedIPs = "@);
    let d2 = d1 + on_file("PublicKey = "@ + key);
    let l2 = l1 + key + "\nAllowedIPs = "@;
    next_line(l2, d2, "AllowedIPs = "@, ips, "\nEndpoint = "@, "Endpoint = "@);
    let d3 = d2 + on_file("AllowedIPs = "@ + ips);
    let l3 = l2 + ips + "\nEndpoint = "@;
    next_line(
        l3,
        d3,
        "Endpoint = "@,
        endpoint,
        "\nPersistentKeepalive = 25\n"@,
        on_file("PersistentKeepalive = 25"@),
    );
    peers_are_echoed(name, key, ips, endpoint);
}

proof fn peers_are_echoed(name: Seq<char>, key: Seq<char>, ips: Seq<char>, endpoint: Seq<char>)
    ensures
        config::peer_echo_text(name, key, ips, endpoint) == echoed(""@) + echoed("[Peer]"@) + echoed(
            "# "@ + name,
        ) + echoed("PublicKey = "@ + key) + echoed("AllowedIPs = "@ + ips) + echoed(
            "Endpoint = "@ + endpoint,
        ) + echoed("PersistentKeepalive = 25"@),
{
    assert("echo \"\"; echo \"[Peer]\"; echo \"# "@ =~= echoed(""@) + echoed("[Peer]"@) + ("echo \""@ + "# "@)) by {
        reveal_strlit("echo \"\"; echo \"[Peer]\"; echo \"# ");
        reveal_strlit("echo \"");
        reveal_strlit("");
        reveal_strlit("\"; ");
        reveal_strlit("[Peer]");
        reveal_strlit("# ");
    }
    assert("\"; echo \"PublicKey = "@ =~= "\"; "@ + ("echo \""@ + "PublicKey = "@)) by {
        reveal_strlit("\"; echo \"PublicKey = ");
        reveal_strlit("\"; ");
        reveal_strlit("echo \"");
        reveal_strlit("PublicKey = ");
    }
    assert("\"; echo \"AllowedIPs = "@ =~= "\"; "@ + ("echo \""@ + "AllowedIPs = "@)) by {
        reveal_strlit("\"; echo \"AllowedIPs = ");
        reveal_strlit("\"; ");
        reveal_strlit("echo \"");
        reveal_strlit("AllowedIPs = ");
    }
    assert("\"; echo \"Endpoint = "@ =~= "\"; "@ + ("echo \""@ + "Endpoint = "@)) by {
        reveal_strlit("\"; echo \"Endpoint = ");
        reveal_strlit("\"; ");
        reveal_strlit("echo \"");
        reveal_strlit("Endpoint = ");
    }
    assert("\"; echo \"PersistentKeepalive = 25\"; "@ =~= "\"; "@ + echoed("PersistentKeepalive = 25"@)) by {
        reveal_strlit("\"; echo \"PersistentKeepalive = 25\"; ");
        reveal_strlit("\"; ");
        reveal_strlit("echo \"");
        reveal_strlit("PersistentKeepalive = 25");
    }
    let d0 = echoed(""@) + echoed("[Peer]"@);
    let l0 = "echo \"\"; echo \"[Peer]\"; echo \"# "@;
    next_echo(l0, d0, "# "@, name, "\"; echo \"PublicKey = "@, "echo \""@ + "PublicKey = "@);
    let d1 = d0 + echoed("# "@ + name);
    let l1 = l0 + name + "\"; echo \"PublicKey = "@;
    next_echo(l1, d1, "PublicKey = "@, key, "\"; echo \"AllowedIPs = "@, "echo \""@ + "AllowedIPs = "@);
    let d2 = d1 + echoed("PublicKey = "@ + key);
    let l2 = l1 + key + "\"; echo \"AllowedIPs = "@;
    next_echo(l2, d2, "AllowedIPs = "@, ips, "\"; echo \"Endpoint = "@, "echo \""@ + "Endpoint = "@);
    let d3 = d2 + echoed("AllowedIPs = "@ + ips);
    let l3 = l2 + ips + "\"; echo \"Endpoint = "@;
    next_echo(l3, d3, "Endpoint = "@, endpoint, "\"; echo \"PersistentKeepalive = 25\"; "@, echoed("PersistentKeepalive = 25"@));
}

/// The section of the interface and the command that writes it say the same, line by line, but for
/// the private key, which the command reads on the host.
pub proof fn interfaces_are_written_as_they_are(ip: u32, port: u16)
    ensures
        config::interface_section_text(ip, port) == on_file("[Interface]"@) + on_file(
            "Address = "@ + (net::dotted(ip) + "/32"@),
        ) + on_file("ListenPort = "@ + number::decimal(port as nat)) + on_file(
            "PrivateKey = __PRIVKEY__"@,
        ),
        config::interface_echo_text(ip, port)
            == "PRIVKEY=$(cat /etc/wireguard/privatekey) && mkdir -p /etc/wireguard && { "@ + echoed(
            "[Interface]"@,
        ) + echoed("Address = "@ + (net::dotted(ip) + "/32"@)) + echoed(
            "ListenPort = "@ + number::decimal(port as nat),
        ) + echoed("PrivateKey = $PRIVKEY"@),
{
    let a = net::dotted(ip);
    let n = number::decimal(port as nat);
    assert("[Interface]\nAddress = "@ =~= on_file("[Interface]"@) + "Address = "@) by {
        reveal_strlit("[Interface]\nAddress = ");
        reveal_strlit("[Interface]");
        reveal_strlit("\n");
        reveal_strlit("Address = ");
    }
    assert("/32\nListenPort = "@ =~= "/32"@ + ("\n"@ + "ListenPort = "@)) by {
        reveal_strlit("/32\nListenPort = ");
        reveal_strlit("/32");
        reveal_strlit("\n");
        reveal_strlit("ListenPort = ");
    }
    assert("\nPrivateKey = __PRIVKEY__\n"@ =~= "\n"@ + on_file("PrivateKey = __PRIVKEY__"@)) by {
        reveal_strlit("\nPrivateKey = __PRIVKEY__\n");
        reveal_strlit("\n");
        reveal_strlit("PrivateKey = __PRIVKEY__");
    }
    let l0 = "[Interface]\nAddress = "@;
    let d0 = on_file("[Interface]"@);
    let b0 = "\n"@ + "ListenPort = "@;
    next_line(l0, d0, "Address = "@, a + "/32"@, b0, "ListenPort = "@);
    assert(l0 + a + ("/32"@ + b0) =~= l0 + (a + "/32"@) + b0);
    let l1 = l0 + (a + "/32"@) + b0;
    let d1 = d0 + on_file("Address = "@ + (a + "/32"@));
    next_line(
        l1,
        d1,
        "ListenPort = "@,
        n,
        "\nPrivateKey = __PRIVKEY__\n"@,
        on_file("PrivateKey = __PRIVKEY__"@),
    );
    interfaces_are_echoed(ip, port);
}

proof fn interfaces_are_echoed(ip: u32, port: u16)
    ensures
        config::interface_echo_text(ip, port)
            == "PRIVKEY=$(cat /etc/wireguard/privatekey) && mkdir -p /etc/wireguard && { "@ + echoed(
            "[Interface]"@,
        ) + echoed("Address = "@ + (net::dotted(ip) + "/32"@)) + echoed(
            "ListenPort = "@ + number::decimal(port as nat),
        ) + echoed("PrivateKey = $PRIVKEY"@),
{
    let a = net::dotted(ip);
    let n = number::decimal(port as nat);
    assert("PRIVKEY=$(cat /etc/wireguard/privatekey) && mkdir -p /etc/wireguard && { echo \"[Interface]\"; echo \"Address = "@ =~= "PRIVKEY=$(cat /etc/wireguard/privatekey) && mkdir -p /etc/wireguard && { "@ + echoed("[Interface]"@) + ("echo \""@ + "Address = "@)) by {
        reveal_strlit("PRIVKEY=$(cat /etc/wireguard/privatekey) && mkdir -p /etc/wireguard && { echo \"[Interface]\"; echo \"Address = ");
        reveal_strlit("PRIVKEY=$(cat /etc/wireguard/privatekey) && mkdir -p /etc/wireguard && { ");
        reveal_strlit("echo \"");
        reveal_strlit("[Interface]");
        reveal_strlit("\"; ");
        reveal_strlit("Address = ");
    }
    assert("/32\"; echo \"ListenPort = "@ =~= "/32"@ + ("\"; "@ + ("echo \""@ + "ListenPort = "@))) by {
        reveal_strlit("/32\"; echo \"ListenPort = ");
        reveal_strlit("/32");
        reveal_strlit("\"; ");
        reveal_strlit("echo \"");
        reveal_strlit("ListenPort = ");
    }
    assert("\"; echo \"PrivateKey = $PRIVKEY\"; "@ =~= "\"; "@ + echoed("PrivateKey = $PRIVKEY"@)) by {
        reveal_strlit("\"; echo \"PrivateKey = $PRIVKEY\"; ");
        reveal_strlit("\"; ");
        reveal_strlit("echo \"");
        reveal_strlit("PrivateKey = $PRIVKEY");
    }
    let l0 = "PRIVKEY=$(cat /etc/wireguard/privatekey) && mkdir -p /etc/wireguard && { echo \"[Interface]\"; echo \"Address = "@;
    let d0 = "PRIVKEY=$(cat /etc/wireguard/privatekey) && mkdir -p /etc/wireguard && { "@ + echoed("[Interface]"@);
    let b0 = "\"; "@ + ("echo \""@ + "ListenPort = "@);
    next_echo(l0, d0, "Address = "@, a + "/32"@, b0, "echo \""@ + "ListenPort = "@);
    assert(l0 + a + ("/32"@ + b0) =~= l0 + (a + "/32"@) + b0);
    let l1 = l0 + (a + "/32"@) + b0;
    let d1 = d0 + echoed("Address = "@ + (a + "/32"@));
    next_echo(l1, d1, "ListenPort = "@, n, "\"; echo \"PrivateKey = $PRIVKEY\"; "@, echoed("PrivateKey = $PRIVKEY"@));
}

/// Each peer of an interface is written to it, with its name, its key, what it is allowed and where
/// it is reached.
pub proof fn every_peer_is_written(
    iface: Seq<char>,
    ip: u32,
    port: u16,
    peers: Seq<PeerConfigView>,
    i: int,
)
    requires
        0 <= i < peers.len(),
    ensures
        text::has_text(
            config::write_text(iface, ip, port, peers),
            config::peer_echo_text(
                peers[i].endpoint,
                peers[i].public_key,
                config::allowed_ips(peers[i]),
                config::endpoint_with_port(peers[i].endpoint, port),
            ),
        ),
        text::has_text(
            control_config::write_text(iface, ip, port, peers),
            config::peer_echo_text(
                peers[i].endpoint,
                peers[i].public_key,
                config::allowed_ips(peers[i]),
                peers[i].endpoint + ":"@ + number::decimal(port as nat),
            ),
        ),
        text::has_text(
            control_config::config_text(ip, port, peers),
            config::peer_section_text(
                peers[i].endpoint,
                peers[i].public_key,
                config::allowed_ips(peers[i]),
                peers[i].endpoint + ":"@ + number::decimal(port as nat),
            ),
        ),
        text::has_prefix(
            config::write_text(iface, ip, port, peers),
            config::interface_echo_text(ip, port),
        ),
        text::has_prefix(
            control_config::write_text(iface, ip, port, peers),
            config::interface_echo_text(ip, port),
        ),
        text::has_suffix(
            config::write_text(iface, ip, port, peers),
            config::move_config_text(iface),
        ),
        text::has_suffix(
            control_config::write_text(iface, ip, port, peers),
            config::move_config_text(iface),
        ),
{
    let head = config::interface_echo_text(ip, port);
    let tail = config::move_config_text(iface);
    echo_stands(port, peers, i);
    stands_inside(head, config::echos(port, peers), tail, config::echo_of(port, peers[i]));
    stands_inside(
        head,
        control_config::echos(port, peers),
        tail,
        control_config::echo_of(port, peers[i]),
    );
    let front = config::interface_section_text(ip, port);
    let none = Seq::<char>::empty();
    stands_inside(
        front,
        control_config::sections(port, peers),
        none,
        control_config::section_of(port, peers[i]),
    );
    assert(front + control_config::sections(port, peers) + none =~= control_config::config_text(
        ip,
        port,
        peers,
    ));
    assert(config::write_text(iface, ip, port, peers) =~= head + (config::echos(port, peers) + tail));
    stands_first(head, config::echos(port, peers) + tail);
    assert(control_config::write_text(iface, ip, port, peers) =~= head + (control_config::echos(
        port,
        peers,
    ) + tail));
    stands_first(head, control_config::echos(port, peers) + tail);
    stands_last(head + config::echos(port, peers), tail);
    stands_last(head + control_config::echos(port, peers), tail);
}

proof fn echo_stands(port: u16, peers: Seq<PeerConfigView>, i: int)
    requires
        0 <= i < peers.len(),
    ensures
        text::has_text(config::echos(port, peers), config::echo_of(port, peers[i])),
        text::has_text(control_config::echos(port, peers), control_config::echo_of(port, peers[i])),
        text::has_text(
            control_config::sections(port, peers),
            control_config::section_of(port, peers[i]),
        ),
    decreases peers.len(),
{
    let p = peers.drop_last();
    let l = peers.last();
    let none = Seq::<char>::empty();
    if i < p.len() {
        assert(p[i] == peers[i]);
        echo_stands(port, p, i);
        let a = config::echos(port, p);
        stands_inside(none, a, config::echo_of(port, l), config::echo_of(port, peers[i]));
        assert(none + a + config::echo_of(port, l) =~= config::echos(port, peers));
        let b = control_config::echos(port, p);
        stands_inside(
            none,
            b,
            control_config::echo_of(port, l),
            control_config::echo_of(port, peers[i]),
        );
        assert(none + b + control_config::echo_of(port, l) =~= control_config::echos(port, peers));
        let c = control_config::sections(port, p);
        stands_inside(
            none,
            c,
            control_config::section_of(port, l),
            control_config::section_of(port, peers[i]),
        );
        assert(none + c + control_config::section_of(port, l) =~= control_config::sections(
            port,
            peers,
        ));
    } else {
        let a = config::echos(port, p);
        stands_between(a, config::echo_of(port, l), none);
        assert(a + config::echo_of(port, l) + none =~= config::echos(port, peers));
        let b = control_config::echos(port, p);
        stands_between(b, control_config::echo_of(port, l), none);
        assert(b + control_config::echo_of(port, l) + none =~= control_config::echos(port, peers));
        let c = control_config::sections(port, p);
        stands_between(c, control_config::section_of(port, l), none);
        assert(c + control_config::section_of(port, l) + none =~= control_config::sections(
            port,
            peers,
        ));
    }
}

// ---------------------------------------------------------------------------
// Reports
// ---------------------------------------------------------------------------

/// Every action of a plan is announced with its host, its name and its detail; a plan without any
/// is announced as converged.
pub proof fn every_action_is_announced(actions: Seq<ActionView>, i: int)
    requires
        0 <= i < actions.len(),
    ensures
        text::has_text(
            report::announced(actions),
            "  ["@ + actions[i].host + "] "@ + actions[i].action_type.label() + "  "@
                + actions[i].detail + "\n"@,
        ),
        text::has_text(
            report::announced(Seq::empty()),
            "No changes needed. Mesh is already converged."@,
        ),
{
    let line = report::action_line_text(
        actions[i].host,
        actions[i].action_type,
        actions[i].detail,
    );
    line_stands(actions, i);
    let none = Seq::<char>::empty();
    stands_inside("Plan:\n"@, report::action_lines_text(actions), none, line);
    assert("Plan:\n"@ + report::action_lines_text(actions) + none =~= report::announced(actions));
    stands_between(none, "No changes needed. Mesh is already converged."@, "\n"@);
    assert(none + "No changes needed. Mesh is already converged."@ + "\n"@ =~= report::announced(
        Seq::empty(),
    ));
}

proof fn line_stands(actions: Seq<ActionView>, i: int)
    requires
        0 <= i < actions.len(),
    ensures
        text::has_text(
            report::action_lines_text(actions),
            report::action_line_text(actions[i].host, actions[i].action_type, actions[i].detail),
        ),
    decreases actions.len(),
{
    let p = actions.drop_last();
    let l = actions.last();
    let last = report::action_line_text(l.host, l.action_type, l.detail);
    let a = report::action_lines_text(p);
    let none = Seq::<char>::empty();
    if i < p.len() {
        assert(p[i] == actions[i]);
        line_stands(p, i);
        stands_inside(
            none,
            a,
            last,
            report::action_line_text(actions[i].host, actions[i].action_type, actions[i].detail),
        );
        assert(none + a + last =~= report::action_lines_text(actions));
    } else {
        stands_between(a, last, none);
        assert(a + last + none =~= report::action_lines_text(actions));
    }
}

/// Every action that is left out is told with its host, its name and the reason.
pub proof fn every_skipped_action_is_told(skipped: Seq<SkippedView>, i: int)
    requires
        0 <= i < skipped.len(),
    ensures
        text::has_text(
            report::skipped_lines_text(skipped),
            "  ["@ + skipped[i].action.host + "] "@ + skipped[i].action.action_type.label() + " — "@
                + skipped[i].reason + "\n"@,
        ),
    decreases skipped.len(),
{
    let p = skipped.drop_last();
    let l = skipped.last();
    let last = report::skipped_line_text(l.action.host, l.action.action_type, l.reason);
    let a = report::skipped_lines_text(p);
    let none = Seq::<char>::empty();
    if i < p.len() {
        assert(p[i] == skipped[i]);
        every_skipped_action_is_told(p, i);
        stands_inside(
            none,
            a,
            last,
            report::skipped_line_text(
                skipped[i].action.host,
                skipped[i].action.action_type,
                skipped[i].reason,
            ),
        );
        assert(none + a + last =~= report::skipped_lines_text(skipped));
    } else {
        stands_between(a, last, none);
        assert(a + last + none =~= report::skipped_lines_text(skipped));
    }
}

/// The rows of the tables hold what their headings say.
pub proof fn rows_hold_what_their_headings_say(
    actions: Seq<ActionView>,
    results: Seq<apply::ResultView>,
    rules: Seq<firewall::RuleView>,
    containers: Seq<firewall::ContainerView>,
    i: int,
)
    ensures
        0 <= i < actions.len() ==> report::plan_rows_cells(actions)[i] == seq![
            actions[i].host,
            actions[i].action_type.label(),
            actions[i].detail,
        ],
        0 <= i < results.len() ==> report::result_rows_cells(results)[i] == seq![
            results[i].action.host,
            results[i].action.action_type.label(),
            results[i].status,
            results[i].detail,
        ],
        0 <= i < rules.len() ==> firewall::rule_rows_cells(rules)[i].take(1) == seq![rules[i].id],
        0 <= i < rules.len() ==> firewall::rule_rows_cells(rules)[i][2] == rules[i].src
            && firewall::rule_rows_cells(rules)[i][3] == rules[i].dst && firewall::rule_rows_cells(
            rules,
        )[i][4] == rules[i].proto,
        0 <= i < containers.len() ==> firewall::container_rows_cells(containers)[i] == seq![
            containers[i].server,
            containers[i].namespace,
            containers[i].id,
            containers[i].name,
            containers[i].ip,
            containers[i].state,
        ],
{
    if 0 <= i < rules.len() {
        assert(firewall::rule_rows_cells(rules)[i].take(1) =~= seq![rules[i].id]);
    }
}

proof fn cell_stands(row: Seq<Seq<char>>, w: Seq<nat>, n: nat, i: int)
    requires
        0 <= i < row.len(),
    ensures
        text::has_text(output::cells(row, w, n), row[i]),
    decreases row.len(),
{
    let p = row.drop_last();
    let l = row.last();
    let k = row.len() - 1;
    let a = output::cells(p, w, n);
    let sep = output::separator(k, n);
    let pad = output::padded(l, w[k]);
    if i < p.len() {
        assert(p[i] == row[i]);
        cell_stands(p, w, n, i);
        let none = Seq::<char>::empty();
        stands_inside(none, a, pad + sep, row[i]);
        assert(none + a + (pad + sep) =~= output::cells(row, w, n));
    } else {
        let fill = pad.skip(l.len() as int);
        assert(pad =~= l + fill);
        stands_between(a, l, fill + sep);
        assert(a + l + (fill + sep) =~= output::cells(row, w, n));
    }
}

/// Every heading and every cell of a table stands in it.
pub proof fn tables_show_every_cell(
    headers: Seq<Seq<char>>,
    rows: Seq<Seq<Seq<char>>>,
    i: int,
    j: int,
)
    ensures
        0 <= j < headers.len() ==> text::has_text(output::table_text(headers, rows), headers[j]),
        0 <= i < rows.len() && 0 <= j < rows[i].len() ==> text::has_text(
            output::table_text(headers, rows),
            rows[i][j],
        ),
{
    let w = output::column_widths(headers, rows);
    let head = output::cells(headers, w, headers.len());
    let rule = output::rule(w, w.len());
    let body = output::body(rows, w, headers.len());
    let none = Seq::<char>::empty();
    if 0 <= j < headers.len() {
        cell_stands(headers, w, headers.len(), j);
        stands_inside(none, head, rule + body, headers[j]);
        assert(none + head + (rule + body) =~= output::table_text(headers, rows));
    }
    if 0 <= i < rows.len() && 0 <= j < rows[i].len() {
        row_stands(rows, w, headers.len(), i, j);
        stands_inside(head + rule, body, none, rows[i][j]);
        assert(head + rule + body + none =~= output::table_text(headers, rows));
    }
}

proof fn row_stands(rows: Seq<Seq<Seq<char>>>, w: Seq<nat>, n: nat, i: int, j: int)
    requires
        0 <= i < rows.len(),
        0 <= j < rows[i].len(),
    ensures
        text::has_text(output::body(rows, w, n), rows[i][j]),
    decreases rows.len(),
{
    let p = rows.drop_last();
    let a = output::body(p, w, n);
    let last = output::cells(rows.last(), w, n);
    let none = Seq::<char>::empty();
    if i < p.len() {
        assert(p[i] == rows[i]);
        row_stands(p, w, n, i, j);
        stands_inside(none, a, last, rows[i][j]);
        assert(none + a + last =~= output::body(rows, w, n));
    } else {
        cell_stands(rows[i], w, n, j);
        stands_inside(a, last, none, rows[i][j]);
        assert(a + last + none =~= output::body(rows, w, n));
    }
}

/// No cell of a table is wider than its column.
pub proof fn columns_fit_their_cells(
    headers: Seq<Seq<char>>,
    rows: Seq<Seq<Seq<char>>>,
    i: int,
    j: int,
)
    ensures
        headers.len() <= output::column_widths(headers, rows).len(),
        0 <= j < headers.len() ==> output::byte_len(headers[j]) <= output::column_widths(
            headers,
            rows,
        )[j],
        0 <= i < rows.len() && 0 <= j < rows[i].len() ==> j < output::column_widths(
            headers,
            rows,
        ).len() && output::byte_len(rows[i][j]) <= output::column_widths(headers, rows)[j],
    decreases rows.len(),
{
    if rows.len() > 0 {
        let p = rows.drop_last();
        columns_fit_their_cells(headers, p, i, j);
        if i < p.len() && i >= 0 {
            assert(p[i] == rows[i]);
        }
    }
}

} // verus!
