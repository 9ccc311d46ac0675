//! What the mesh firewall lets through and what it stops.

use vstd::prelude::*;
use crate::cli::script_laws::{stands_between, stands_inside, stands_last};
use crate::cli::config_laws;
use crate::cli::firewall;
use crate::cli::reconstruct;
use crate::keyed;
use crate::net::Ipv4Net;
use crate::number;
use crate::split;
use crate::text;

verus! {

/// Whether a text stays on a line, wherever it stands.
pub open spec fn is_plain(s: Seq<char>) -> bool {
    !s.contains('\n') && !s.contains('\r')
}

proof fn plain_add(a: Seq<char>, b: Seq<char>)
    requires
        is_plain(a),
        is_plain(b),
    ensures
        is_plain(a + b),
{
    config_laws::no_char_add(a, b, '\n');
    config_laws::no_char_add(a, b, '\r');
}

proof fn cidr_is_plain(n: Ipv4Net)
    ensures
        is_plain(n.cidr()),
{
    reveal_strlit("/");
    config_laws::dotted_net_like(n.ip());
    config_laws::decimal_net_like(n.prefix() as nat);
    assert(config_laws::net_like("/"@));
    config_laws::net_like_add(crate::net::dotted(n.ip()), "/"@);
    config_laws::net_like_add(
        crate::net::dotted(n.ip()) + "/"@,
        number::decimal(n.prefix() as nat),
    );
    let s = n.cidr();
    assert forall|i: int| 0 <= i < s.len() implies s[i] != '\n' && s[i] != '\r' by {
        assert(config_laws::net_char(s[i]));
    }
}

/// A line and what follows it.
proof fn line_then(a: Seq<char>, rest: Seq<char>)
    requires
        is_plain(a),
    ensures
        split::lines_of(a + seq!['\n'] + rest) == seq![a] + split::lines_of(rest),
{
    if a.len() > 0 {
        assert(a.contains(a.last()));
    }
    config_laws::lines_head(a, rest);
}

proof fn no_lines()
    ensures
        split::lines_of(Seq::empty()) == Seq::<Seq<char>>::empty(),
{
}

spec fn head_lines(iface: Seq<char>) -> Seq<Seq<char>> {
    seq![
        "[Unit]"@,
        "Description=Coolify mesh firewall rules"@,
        "After=wg-quick@"@ + iface + ".service network-online.target"@,
        "Wants=network-online.target"@,
        Seq::empty(),
        "[Service]"@,
        "Type=oneshot"@,
        "RemainAfterExit=yes"@,
        Seq::empty(),
    ]
}

proof fn head_is_lines(iface: Seq<char>)
    requires
        is_plain(iface),
    ensures
        split::lines_of(firewall::head_text(iface)) == head_lines(iface),
        firewall::head_text(iface).len() > 0,
        firewall::head_text(iface).last() == '\n',
{
    let nl = seq!['\n'];
    let none = Seq::<char>::empty();
    assert(is_plain(none));
    assert(is_plain("[Unit]"@)) by {
        reveal_strlit("[Unit]");
    }
    assert(is_plain("Description=Coolify mesh firewall rules"@)) by {
        reveal_strlit("Description=Coolify mesh firewall rules");
    }
    assert(is_plain("After=wg-quick@"@)) by {
        reveal_strlit("After=wg-quick@");
    }
    assert(is_plain(".service network-online.target"@)) by {
        reveal_strlit(".service network-online.target");
    }
    assert(is_plain("Wants=network-online.target"@)) by {
        reveal_strlit("Wants=network-online.target");
    }
    assert(is_plain("[Service]"@)) by {
        reveal_strlit("[Service]");
    }
    assert(is_plain("Type=oneshot"@)) by {
        reveal_strlit("Type=oneshot");
    }
    assert(is_plain("RemainAfterExit=yes"@)) by {
        reveal_strlit("RemainAfterExit=yes");
    }
    assert("[Unit]\nDescription=Coolify mesh firewall rules\nAfter=wg-quick@"@ =~= "[Unit]"@ + nl + "Description=Coolify mesh firewall rules"@ + nl + "After=wg-quick@"@) by {
        reveal_strlit("[Unit]\nDescription=Coolify mesh firewall rules\nAfter=wg-quick@");
        reveal_strlit("[Unit]");
        reveal_strlit("Description=Coolify mesh firewall rules");
        reveal_strlit("After=wg-quick@");
    }
    assert(".service network-online.target\nWants=network-online.target\n\n[Service]\nType=oneshot\nRemainAfterExit=yes\n\n"@ =~= ".service network-online.target"@ + nl + "Wants=network-online.target"@ + nl + none + nl + "[Service]"@ + nl + "Type=oneshot"@ + nl + "RemainAfterExit=yes"@ + nl + none + nl + none) by {
        reveal_strlit(".service network-online.target\nWants=network-online.target\n\n[Service]\nType=oneshot\nRemainAfterExit=yes\n\n");
        reveal_strlit(".service network-online.target");
        reveal_strlit("Wants=network-online.target");
        reveal_strlit("[Service]");
        reveal_strlit("Type=oneshot");
        reveal_strlit("RemainAfterExit=yes");
    }
    let l0 = "[Unit]"@;
    let l1 = "Description=Coolify mesh firewall rules"@;
    let l2 = "After=wg-quick@"@ + iface + ".service network-online.target"@;
    plain_add("After=wg-quick@"@, iface);
    plain_add("After=wg-quick@"@ + iface, ".service network-online.target"@);
    let l3 = "Wants=network-online.target"@;
    let l4 = none;
    let l5 = "[Service]"@;
    let l6 = "Type=oneshot"@;
    let l7 = "RemainAfterExit=yes"@;
    let l8 = none;
    let r9 = none;
    let r8 = l8 + nl + r9;
    let r7 = l7 + nl + r8;
    let r6 = l6 + nl + r7;
    let r5 = l5 + nl + r6;
    let r4 = l4 + nl + r5;
    let r3 = l3 + nl + r4;
    let r2 = l2 + nl + r3;
    let r1 = l1 + nl + r2;
    let r0 = l0 + nl + r1;
    assert(firewall::head_text(iface) =~= r0);
    no_lines();
    line_then(l8, r9);
    line_then(l7, r8);
    line_then(l6, r7);
    line_then(l5, r6);
    line_then(l4, r5);
    line_then(l3, r4);
    line_then(l2, r3);
    line_then(l1, r2);
    line_then(l0, r1);
    assert(split::lines_of(r0) =~= head_lines(iface));
}

spec fn nat_lines(iface: Seq<char>, sn: Ipv4Net) -> Seq<Seq<char>> {
    seq![
        "ExecStart=/bin/sh -c \"/usr/sbin/iptables -t nat -C POSTROUTING -s "@ + sn.cidr() + " -o "@ + iface + " -j RETURN 2>/dev/null || /usr/sbin/iptables -t nat -I POSTROUTING -s "@ + sn.cidr() + " -o "@ + iface + " -j RETURN\""@,
    ]
}

proof fn nat_is_lines(iface: Seq<char>, sn: Ipv4Net)
    requires
        is_plain(iface),
    ensures
        split::lines_of(firewall::nat_rules_row_text(iface, sn)) == nat_lines(iface, sn),
        firewall::nat_rules_row_text(iface, sn).len() > 0,
        firewall::nat_rules_row_text(iface, sn).last() == '\n',
{
    cidr_is_plain(sn);
    let nl = seq!['\n'];
    let none = Seq::<char>::empty();
    assert(is_plain(none));
    assert(is_plain("ExecStart=/bin/sh -c \"/usr/sbin/iptables -t nat -C POSTROUTING -s "@)) by {
        reveal_strlit("ExecStart=/bin/sh -c \"/usr/sbin/iptables -t nat -C POSTROUTING -s ");
    }
    assert(is_plain(" -o "@)) by {
        reveal_strlit(" -o ");
    }
    assert(is_plain(" -j RETURN 2>/dev/null || /usr/sbin/iptables -t nat -I POSTROUTING -s "@)) by {
        reveal_strlit(" -j RETURN 2>/dev/null || /usr/sbin/iptables -t nat -I POSTROUTING -s ");
    }
    assert(is_plain(" -j RETURN\""@)) by {
        reveal_strlit(" -j RETURN\"");
    }
    assert(" -j RETURN\"\n"@ =~= " -j RETURN\""@ + nl + none) by {
        reveal_strlit(" -j RETURN\"\n");
        reveal_strlit(" -j RETURN\"");
    }
    let l0 = "ExecStart=/bin/sh -c \"/usr/sbin/iptables -t nat -C POSTROUTING -s "@ + sn.cidr() + " -o "@ + iface + " -j RETURN 2>/dev/null || /usr/sbin/iptables -t nat -I POSTROUTING -s "@ + sn.cidr() + " -o "@ + iface + " -j RETURN\""@;
    plain_add("ExecStart=/bin/sh -c \"/usr/sbin/iptables -t nat -C POSTROUTING -s "@, sn.cidr());
    plain_add("ExecStart=/bin/sh -c \"/usr/sbin/iptables -t nat -C POSTROUTING -s "@ + sn.cidr(), " -o "@);
    plain_add("ExecStart=/bin/sh -c \"/usr/sbin/iptables -t nat -C POSTROUTING -s "@ + sn.cidr() + " -o "@, iface);
    plain_add("ExecStart=/bin/sh -c \"/usr/sbin/iptables -t nat -C POSTROUTING -s "@ + sn.cidr() + " -o "@ + iface, " -j RETURN 2>/dev/null || /usr/sbin/iptables -t nat -I POSTROUTING -s "@);
    plain_add("ExecStart=/bin/sh -c \"/usr/sbin/iptables -t nat -C POSTROUTING -s "@ + sn.cidr() + " -o "@ + iface + " -j RETURN 2>/dev/null || /usr/sbin/iptables -t nat -I POSTROUTING -s "@, sn.cidr());
    plain_add("ExecStart=/bin/sh -c \"/usr/sbin/iptables -t nat -C POSTROUTING -s "@ + sn.cidr() + " -o "@ + iface + " -j RETURN 2>/dev/null || /usr/sbin/iptables -t nat -I POSTROUTING -s "@ + sn.cidr(), " -o "@);
    plain_add("ExecStart=/bin/sh -c \"/usr/sbin/iptables -t nat -C POSTROUTING -s "@ + sn.cidr() + " -o "@ + iface + " -j RETURN 2>/dev/null || /usr/sbin/iptables -t nat -I POSTROUTING -s "@ + sn.cidr() + " -o "@, iface);
    plain_add("ExecStart=/bin/sh -c \"/usr/sbin/iptables -t nat -C POSTROUTING -s "@ + sn.cidr() + " -o "@ + iface + " -j RETURN 2>/dev/null || /usr/sbin/iptables -t nat -I POSTROUTING -s "@ + sn.cidr() + " -o "@ + iface, " -j RETURN\""@);
    let r1 = none;
    let r0 = l0 + nl + r1;
    assert(firewall::nat_rules_row_text(iface, sn) =~= r0);
    no_lines();
    line_then(l0, r1);
    assert(split::lines_of(r0) =~= nat_lines(iface, sn));
}

spec fn removal_lines(sn: Ipv4Net) -> Seq<Seq<char>> {
    seq![
        "ExecStart=/bin/sh -c \"/usr/sbin/iptables -D FORWARD -s "@ + sn.cidr() + " -j ACCEPT 2>/dev/null || true\""@,
        "ExecStart=/bin/sh -c \"/usr/sbin/iptables -D FORWARD -d "@ + sn.cidr() + " -j ACCEPT 2>/dev/null || true\""@,
    ]
}

proof fn removal_is_lines(sn: Ipv4Net)
    ensures
        split::lines_of(firewall::accept_removals_row_text(sn)) == removal_lines(sn),
        firewall::accept_removals_row_text(sn).len() > 0,
        firewall::accept_removals_row_text(sn).last() == '\n',
{
    cidr_is_plain(sn);
    let nl = seq!['\n'];
    let none = Seq::<char>::empty();
    assert(is_plain(none));
    assert(is_plain("ExecStart=/bin/sh -c \"/usr/sbin/iptables -D FORWARD -s "@)) by {
        reveal_strlit("ExecStart=/bin/sh -c \"/usr/sbin/iptables -D FORWARD -s ");
    }
    assert(is_plain(" -j ACCEPT 2>/dev/null || true\""@)) by {
        reveal_strlit(" -j ACCEPT 2>/dev/null || true\"");
    }
    assert(is_plain("ExecStart=/bin/sh -c \"/usr/sbin/iptables -D FORWARD -d "@)) by {
        reveal_strlit("ExecStart=/bin/sh -c \"/usr/sbin/iptables -D FORWARD -d ");
    }
    assert(" -j ACCEPT 2>/dev/null || true\"\nExecStart=/bin/sh -c \"/usr/sbin/iptables -D FORWARD -d "@ =~= " -j ACCEPT 2>/dev/null || true\""@ + nl + "ExecStart=/bin/sh -c \"/usr/sbin/iptables -D FORWARD -d "@) by {
        reveal_strlit(" -j ACCEPT 2>/dev/null || true\"\nExecStart=/bin/sh -c \"/usr/sbin/iptables -D FORWARD -d ");
        reveal_strlit(" -j ACCEPT 2>/dev/null || true\"");
        reveal_strlit("ExecStart=/bin/sh -c \"/usr/sbin/iptables -D FORWARD -d ");
    }
    assert(" -j ACCEPT 2>/dev/null || true\"\n"@ =~= " -j ACCEPT 2>/dev/null || true\""@ + nl + none) by {
        reveal_strlit(" -j ACCEPT 2>/dev/null || true\"\n");
        reveal_strlit(" -j ACCEPT 2>/dev/null || true\"");
    }
    let l0 = "ExecStart=/bin/sh -c \"/usr/sbin/iptables -D FORWARD -s "@ + sn.cidr() + " -j ACCEPT 2>/dev/null || true\""@;
    plain_add("ExecStart=/bin/sh -c \"/usr/sbin/iptables -D FORWARD -s "@, sn.cidr());
    plain_add("ExecStart=/bin/sh -c \"/usr/sbin/iptables -D FORWARD -s "@ + sn.cidr(), " -j ACCEPT 2>/dev/null || true\""@);
    let l1 = "ExecStart=/bin/sh -c \"/usr/sbin/iptables -D FORWARD -d "@ + sn.cidr() + " -j ACCEPT 2>/dev/null || true\""@;
    plain_add("ExecStart=/bin/sh -c \"/usr/sbin/iptables -D FORWARD -d "@, sn.cidr());
    plain_add("ExecStart=/bin/sh -c \"/usr/sbin/iptables -D FORWARD -d "@ + sn.cidr(), " -j ACCEPT 2>/dev/null || true\""@);
    let r2 = none;
    let r1 = l1 + nl + r2;
    let r0 = l0 + nl + r1;
    assert(firewall::accept_removals_row_text(sn) =~= r0);
    no_lines();
    line_then(l1, r2);
    line_then(l0, r1);
    assert(split::lines_of(r0) =~= removal_lines(sn));
}

spec fn chains_lines() -> Seq<Seq<char>> {
    seq![
        Seq::empty(),
        "ExecStart=/bin/sh -c \"/usr/sbin/iptables -N COOLIFY-ALLOW 2>/dev/null || true\""@,
        "ExecStart=/bin/sh -c \"/usr/sbin/iptables -N COOLIFY-INTRA 2>/dev/null || true\""@,
        "ExecStart=/usr/sbin/iptables -F COOLIFY-INTRA"@,
        "ExecStart=/usr/sbin/iptables -A COOLIFY-INTRA -j COOLIFY-ALLOW"@,
        "ExecStart=/usr/sbin/iptables -A COOLIFY-INTRA -j DROP"@,
        "ExecStart=/bin/sh -c \"[ -s /etc/coolify/allow.rules ] && /usr/sbin/iptables -F COOLIFY-ALLOW && /usr/sbin/iptables-restore --noflush < /etc/coolify/allow.rules || true\""@,
        "ExecStart=/bin/sh -c \"/usr/sbin/iptables -C FORWARD -m conntrack --ctstate ESTABLISHED,RELATED -j ACCEPT 2>/dev/null || /usr/sbin/iptables -I FORWARD 1 -m conntrack --ctstate ESTABLISHED,RELATED -j ACCEPT\""@,
    ]
}

proof fn chains_is_lines()
    ensures
        split::lines_of(firewall::deny_chains_text()) == chains_lines(),
        firewall::deny_chains_text().len() > 0,
        firewall::deny_chains_text().last() == '\n',
{
    let nl = seq!['\n'];
    let none = Seq::<char>::empty();
    assert(is_plain(none));
    assert(is_plain("ExecStart=/bin/sh -c \"/usr/sbin/iptables -N COOLIFY-ALLOW 2>/dev/null || true\""@)) by {
        reveal_strlit("ExecStart=/bin/sh -c \"/usr/sbin/iptables -N COOLIFY-ALLOW 2>/dev/null || true\"");
    }
    assert(is_plain("ExecStart=/bin/sh -c \"/usr/sbin/iptables -N COOLIFY-INTRA 2>/dev/null || true\""@)) by {
        reveal_strlit("ExecStart=/bin/sh -c \"/usr/sbin/iptables -N COOLIFY-INTRA 2>/dev/null || true\"");
    }
    assert(is_plain("ExecStart=/usr/sbin/iptables -F COOLIFY-INTRA"@)) by {
        reveal_strlit("ExecStart=/usr/sbin/iptables -F COOLIFY-INTRA");
    }
    assert(is_plain("ExecStart=/usr/sbin/iptables -A COOLIFY-INTRA -j COOLIFY-ALLOW"@)) by {
        reveal_strlit("ExecStart=/usr/sbin/iptables -A COOLIFY-INTRA -j COOLIFY-ALLOW");
    }
    assert(is_plain("ExecStart=/usr/sbin/iptables -A COOLIFY-INTRA -j DROP"@)) by {
        reveal_strlit("ExecStart=/usr/sbin/iptables -A COOLIFY-INTRA -j DROP");
    }
    assert(is_plain("ExecStart=/bin/sh -c \"[ -s /etc/coolify/allow.rules ] && /usr/sbin/iptables -F COOLIFY-ALLOW && /usr/sbin/iptables-restore --noflush < /etc/coolify/allow.rules || true\""@)) by {
        reveal_strlit("ExecStart=/bin/sh -c \"[ -s /etc/coolify/allow.rules ] && /usr/sbin/iptables -F COOLIFY-ALLOW && /usr/sbin/iptables-restore --noflush < /etc/coolify/allow.rules || true\"");
    }
    assert(is_plain("ExecStart=/bin/sh -c \"/usr/sbin/iptables -C FORWARD -m conntrack --ctstate ESTABLISHED,RELATED -j ACCEPT 2>/dev/null || /usr/sbin/iptables -I FORWARD 1 -m conntrack --ctstate ESTABLISHED,RELATED -j ACCEPT\""@)) by {
        reveal_strlit("ExecStart=/bin/sh -c \"/usr/sbin/iptables -C FORWARD -m conntrack --ctstate ESTABLISHED,RELATED -j ACCEPT 2>/dev/null || /usr/sbin/iptables -I FORWARD 1 -m conntrack --ctstate ESTABLISHED,RELATED -j ACCEPT\"");
    }
    assert("\nExecStart=/bin/sh -c \"/usr/sbin/iptables -N COOLIFY-ALLOW 2>/dev/null || true\"\nExecStart=/bin/sh -c \"/usr/sbin/iptables -N COOLIFY-INTRA 2>/dev/null || true\"\nExecStart=/usr/sbin/iptables -F COOLIFY-INTRA\nExecStart=/usr/sbin/iptables -A COOLIFY-INTRA -j COOLIFY-ALLOW\nExecStart=/usr/sbin/iptables -A COOLIFY-INTRA -j DROP\nExecStart=/bin/sh -c \"[ -s /etc/coolify/allow.rules ] && /usr/sbin/iptables -F COOLIFY-ALLOW && /usr/sbin/iptables-restore --noflush < /etc/coolify/allow.rules || true\"\nExecStart=/bin/sh -c \"/usr/sbin/iptables -C FORWARD -m conntrack --ctstate ESTABLISHED,RELATED -j ACCEPT 2>/dev/null || /usr/sbin/iptables -I FORWARD 1 -m conntrack --ctstate ESTABLISHED,RELATED -j ACCEPT\"\n"@ =~= none + nl + "ExecStart=/bin/sh -c \"/usr/sbin/iptables -N COOLIFY-ALLOW 2>/dev/null || true\""@ + nl + "ExecStart=/bin/sh -c \"/usr/sbin/iptables -N COOLIFY-INTRA 2>/dev/null || true\""@ + nl + "ExecStart=/usr/sbin/iptables -F COOLIFY-INTRA"@ + nl + "ExecStart=/usr/sbin/iptables -A COOLIFY-INTRA -j COOLIFY-ALLOW"@ + nl + "ExecStart=/usr/sbin/iptables -A COOLIFY-INTRA -j DROP"@ + nl + "ExecStart=/bin/sh -c \"[ -s /etc/coolify/allow.rules ] && /usr/sbin/iptables -F COOLIFY-ALLOW && /usr/sbin/iptables-restore --noflush < /etc/coolify/allow.rules || true\""@ + nl + "ExecStart=/bin/sh -c \"/usr/sbin/iptables -C FORWARD -m conntrack --ctstate ESTABLISHED,RELATED -j ACCEPT 2>/dev/null || /usr/sbin/iptables -I FORWARD 1 -m conntrack --ctstate ESTABLISHED,RELATED -j ACCEPT\""@ + nl + none) by {
        reveal_strlit("\nExecStart=/bin/sh -c \"/usr/sbin/iptables -N COOLIFY-ALLOW 2>/dev/null || true\"\nExecStart=/bin/sh -c \"/usr/sbin/iptables -N COOLIFY-INTRA 2>/dev/null || true\"\nExecStart=/usr/sbin/iptables -F COOLIFY-INTRA\nExecStart=/usr/sbin/iptables -A COOLIFY-INTRA -j COOLIFY-ALLOW\nExecStart=/usr/sbin/iptables -A COOLIFY-INTRA -j DROP\nExecStart=/bin/sh -c \"[ -s /etc/coolify/allow.rules ] && /usr/sbin/iptables -F COOLIFY-ALLOW && /usr/sbin/iptables-restore --noflush < /etc/coolify/allow.rules || true\"\nExecStart=/bin/sh -c \"/usr/sbin/iptables -C FORWARD -m conntrack --ctstate ESTABLISHED,RELATED -j ACCEPT 2>/dev/null || /usr/sbin/iptables -I FORWARD 1 -m conntrack --ctstate ESTABLISHED,RELATED -j ACCEPT\"\n");
        reveal_strlit("ExecStart=/bin/sh -c \"/usr/sbin/iptables -N COOLIFY-ALLOW 2>/dev/null || true\"");
        reveal_strlit("ExecStart=/bin/sh -c \"/usr/sbin/iptables -N COOLIFY-INTRA 2>/dev/null || true\"");
        reveal_strlit("ExecStart=/usr/sbin/iptables -F COOLIFY-INTRA");
        reveal_strlit("ExecStart=/usr/sbin/iptables -A COOLIFY-INTRA -j COOLIFY-ALLOW");
        reveal_strlit("ExecStart=/usr/sbin/iptables -A COOLIFY-INTRA -j DROP");
        reveal_strlit("ExecStart=/bin/sh -c \"[ -s /etc/coolify/allow.rules ] && /usr/sbin/iptables -F COOLIFY-ALLOW && /usr/sbin/iptables-restore --noflush < /etc/coolify/allow.rules || true\"");
        reveal_strlit("ExecStart=/bin/sh -c \"/usr/sbin/iptables -C FORWARD -m conntrack --ctstate ESTABLISHED,RELATED -j ACCEPT 2>/dev/null || /usr/sbin/iptables -I FORWARD 1 -m conntrack --ctstate ESTABLISHED,RELATED -j ACCEPT\"");
    }
    let l0 = none;
    let l1 = "ExecStart=/bin/sh -c \"/usr/sbin/iptables -N COOLIFY-ALLOW 2>/dev/null || true\""@;
    let l2 = "ExecStart=/bin/sh -c \"/usr/sbin/iptables -N COOLIFY-INTRA 2>/dev/null || true\""@;
    let l3 = "ExecStart=/usr/sbin/iptables -F COOLIFY-INTRA"@;
    let l4 = "ExecStart=/usr/sbin/iptables -A COOLIFY-INTRA -j COOLIFY-ALLOW"@;
    let l5 = "ExecStart=/usr/sbin/iptables -A COOLIFY-INTRA -j DROP"@;
    let l6 = "ExecStart=/bin/sh -c \"[ -s /etc/coolify/allow.rules ] && /usr/sbin/iptables -F COOLIFY-ALLOW && /usr/sbin/iptables-restore --noflush < /etc/coolify/allow.rules || true\""@;
    let l7 = "ExecStart=/bin/sh -c \"/usr/sbin/iptables -C FORWARD -m conntrack --ctstate ESTABLISHED,RELATED -j ACCEPT 2>/dev/null || /usr/sbin/iptables -I FORWARD 1 -m conntrack --ctstate ESTABLISHED,RELATED -j ACCEPT\""@;
    let r8 = none;
    let r7 = l7 + nl + r8;
    let r6 = l6 + nl + r7;
    let r5 = l5 + nl + r6;
    let r4 = l4 + nl + r5;
    let r3 = l3 + nl + r4;
    let r2 = l2 + nl + r3;
    let r1 = l1 + nl + r2;
    let r0 = l0 + nl + r1;
    assert(firewall::deny_chains_text() =~= r0);
    no_lines();
    line_then(l7, r8);
    line_then(l6, r7);
    line_then(l5, r6);
    line_then(l4, r5);
    line_then(l3, r4);
    line_then(l2, r3);
    line_then(l1, r2);
    line_then(l0, r1);
    assert(split::lines_of(r0) =~= chains_lines());
}

spec fn sending_lines(sn: Ipv4Net) -> Seq<Seq<char>> {
    seq![
        "ExecStart=/bin/sh -c \"/usr/sbin/iptables -C FORWARD -d "@ + sn.cidr() + " -j COOLIFY-INTRA 2>/dev/null || /usr/sbin/iptables -A FORWARD -d "@ + sn.cidr() + " -j COOLIFY-INTRA\""@,
        "ExecStart=/bin/sh -c \"/usr/sbin/iptables -C FORWARD -s "@ + sn.cidr() + " -j COOLIFY-INTRA 2>/dev/null || /usr/sbin/iptables -A FORWARD -s "@ + sn.cidr() + " -j COOLIFY-INTRA\""@,
    ]
}

proof fn sending_is_lines(sn: Ipv4Net)
    ensures
        split::lines_of(firewall::intra_rules_row_text(sn)) == sending_lines(sn),
        firewall::intra_rules_row_text(sn).len() > 0,
        firewall::intra_rules_row_text(sn).last() == '\n',
{
    cidr_is_plain(sn);
    let nl = seq!['\n'];
    let none = Seq::<char>::empty();
    assert(is_plain(none));
    assert(is_plain("ExecStart=/bin/sh -c \"/usr/sbin/iptables -C FORWARD -d "@)) by {
        reveal_strlit("ExecStart=/bin/sh -c \"/usr/sbin/iptables -C FORWARD -d ");
    }
    assert(is_plain(" -j COOLIFY-INTRA 2>/dev/null || /usr/sbin/iptables -A FORWARD -d "@)) by {
        reveal_strlit(" -j COOLIFY-INTRA 2>/dev/null || /usr/sbin/iptables -A FORWARD -d ");
    }
    assert(is_plain(" -j COOLIFY-INTRA\""@)) by {
        reveal_strlit(" -j COOLIFY-INTRA\"");
    }
    assert(is_plain("ExecStart=/bin/sh -c \"/usr/sbin/iptables -C FORWARD -s "@)) by {
        reveal_strlit("ExecStart=/bin/sh -c \"/usr/sbin/iptables -C FORWARD -s ");
    }
    assert(is_plain(" -j COOLIFY-INTRA 2>/dev/null || /usr/sbin/iptables -A FORWARD -s "@)) by {
        reveal_strlit(" -j COOLIFY-INTRA 2>/dev/null || /usr/sbin/iptables -A FORWARD -s ");
    }
    assert(" -j COOLIFY-INTRA\"\nExecStart=/bin/sh -c \"/usr/sbin/iptables -C FORWARD -s "@ =~= " -j COOLIFY-INTRA\""@ + nl + "ExecStart=/bin/sh -c \"/usr/sbin/iptables -C FORWARD -s "@) by {
        reveal_strlit(" -j COOLIFY-INTRA\"\nExecStart=/bin/sh -c \"/usr/sbin/iptables -C FORWARD -s ");
        reveal_strlit(" -j COOLIFY-INTRA\"");
        reveal_strlit("ExecStart=/bin/sh -c \"/usr/sbin/iptables -C FORWARD -s ");
    }
    assert(" -j COOLIFY-INTRA\"\n"@ =~= " -j COOLIFY-INTRA\""@ + nl + none) by {
        reveal_strlit(" -j COOLIFY-INTRA\"\n");
        reveal_strlit(" -j COOLIFY-INTRA\"");
    }
    let l0 = "ExecStart=/bin/sh -c \"/usr/sbin/iptables -C FORWARD -d "@ + sn.cidr() + " -j COOLIFY-INTRA 2>/dev/null || /usr/sbin/iptables -A FORWARD -d "@ + sn.cidr() + " -j COOLIFY-INTRA\""@;
    plain_add("ExecStart=/bin/sh -c \"/usr/sbin/iptables -C FORWARD -d "@, sn.cidr());
    plain_add("ExecStart=/bin/sh -c \"/usr/sbin/iptables -C FORWARD -d "@ + sn.cidr(), " -j COOLIFY-INTRA 2>/dev/null || /usr/sbin/iptables -A FORWARD -d "@);
    plain_add("ExecStart=/bin/sh -c \"/usr/sbin/iptables -C FORWARD -d "@ + sn.cidr() + " -j COOLIFY-INTRA 2>/dev/null || /usr/sbin/iptables -A FORWARD -d "@, sn.cidr());
    plain_add("ExecStart=/bin/sh -c \"/usr/sbin/iptables -C FORWARD -d "@ + sn.cidr() + " -j COOLIFY-INTRA 2>/dev/null || /usr/sbin/iptables -A FORWARD -d "@ + sn.cidr(), " -j COOLIFY-INTRA\""@);
    let l1 = "ExecStart=/bin/sh -c \"/usr/sbin/iptables -C FORWARD -s "@ + sn.cidr() + " -j COOLIFY-INTRA 2>/dev/null || /usr/sbin/iptables -A FORWARD -s "@ + sn.cidr() + " -j COOLIFY-INTRA\""@;
    plain_add("ExecStart=/bin/sh -c \"/usr/sbin/iptables -C FORWARD -s "@, sn.cidr());
    plain_add("ExecStart=/bin/sh -c \"/usr/sbin/iptables -C FORWARD -s "@ + sn.cidr(), " -j COOLIFY-INTRA 2>/dev/null || /usr/sbin/iptables -A FORWARD -s "@);
    plain_add("ExecStart=/bin/sh -c \"/usr/sbin/iptables -C FORWARD -s "@ + sn.cidr() + " -j COOLIFY-INTRA 2>/dev/null || /usr/sbin/iptables -A FORWARD -s "@, sn.cidr());
    plain_add("ExecStart=/bin/sh -c \"/usr/sbin/iptables -C FORWARD -s "@ + sn.cidr() + " -j COOLIFY-INTRA 2>/dev/null || /usr/sbin/iptables -A FORWARD -s "@ + sn.cidr(), " -j COOLIFY-INTRA\""@);
    let r2 = none;
    let r1 = l1 + nl + r2;
    let r0 = l0 + nl + r1;
    assert(firewall::intra_rules_row_text(sn) =~= r0);
    no_lines();
    line_then(l1, r2);
    line_then(l0, r1);
    assert(split::lines_of(r0) =~= sending_lines(sn));
}

spec fn bridge_lines() -> Seq<Seq<char>> {
    seq![
        "ExecStart=/bin/sh -c \"nft list table bridge coolify_bridge >/dev/null 2>&1 || nft add table bridge coolify_bridge\""@,
        "ExecStart=/bin/sh -c \"nft add chain bridge coolify_bridge coolify_allow '{ }' 2>/dev/null || true\""@,
        "ExecStart=/bin/sh -c \"nft delete chain bridge coolify_bridge forward 2>/dev/null || true\""@,
        "ExecStart=/bin/sh -c \"nft delete chain bridge coolify_bridge coolify_intra 2>/dev/null || true\""@,
        "ExecStart=/bin/sh -c \"nft -f /etc/coolify/bridge-fw.nft\""@,
        "ExecStart=/bin/sh -c \"[ -s /etc/coolify/allow.nft ] && nft -f /etc/coolify/allow.nft || true\""@,
    ]
}

proof fn bridge_is_lines()
    ensures
        split::lines_of(firewall::bridge_rules_text()) == bridge_lines(),
        firewall::bridge_rules_text().len() > 0,
        firewall::bridge_rules_text().last() == '\n',
{
    let nl = seq!['\n'];
    let none = Seq::<char>::empty();
    assert(is_plain(none));
    assert(is_plain("ExecStart=/bin/sh -c \"nft list table bridge coolify_bridge >/dev/null 2>&1 || nft add table bridge coolify_bridge\""@)) by {
        reveal_strlit("ExecStart=/bin/sh -c \"nft list table bridge coolify_bridge >/dev/null 2>&1 || nft add table bridge coolify_bridge\"");
    }
    assert(is_plain("ExecStart=/bin/sh -c \"nft add chain bridge coolify_bridge coolify_allow '{ }' 2>/dev/null || true\""@)) by {
        reveal_strlit("ExecStart=/bin/sh -c \"nft add chain bridge coolify_bridge coolify_allow '{ }' 2>/dev/null || true\"");
    }
    assert(is_plain("ExecStart=/bin/sh -c \"nft delete chain bridge coolify_bridge forward 2>/dev/null || true\""@)) by {
        reveal_strlit("ExecStart=/bin/sh -c \"nft delete chain bridge coolify_bridge forward 2>/dev/null || true\"");
    }
    assert(is_plain("ExecStart=/bin/sh -c \"nft delete chain bridge coolify_bridge coolify_intra 2>/dev/null || true\""@)) by {
        reveal_strlit("ExecStart=/bin/sh -c \"nft delete chain bridge coolify_bridge coolify_intra 2>/dev/null || true\"");
    }
    assert(is_plain("ExecStart=/bin/sh -c \"nft -f /etc/coolify/bridge-fw.nft\""@)) by {
        reveal_strlit("ExecStart=/bin/sh -c \"nft -f /etc/coolify/bridge-fw.nft\"");
    }
    assert(is_plain("ExecStart=/bin/sh -c \"[ -s /etc/coolify/allow.nft ] && nft -f /etc/coolify/allow.nft || true\""@)) by {
        reveal_strlit("ExecStart=/bin/sh -c \"[ -s /etc/coolify/allow.nft ] && nft -f /etc/coolify/allow.nft || true\"");
    }
    assert("ExecStart=/bin/sh -c \"nft list table bridge coolify_bridge >/dev/null 2>&1 || nft add table bridge coolify_bridge\"\nExecStart=/bin/sh -c \"nft add chain bridge coolify_bridge coolify_allow '{ }' 2>/dev/null || true\"\nExecStart=/bin/sh -c \"nft delete chain bridge coolify_bridge forward 2>/dev/null || true\"\nExecStart=/bin/sh -c \"nft delete chain bridge coolify_bridge coolify_intra 2>/dev/null || true\"\nExecStart=/bin/sh -c \"nft -f /etc/coolify/bridge-fw.nft\"\nExecStart=/bin/sh -c \"[ -s /etc/coolify/allow.nft ] && nft -f /etc/coolify/allow.nft || true\"\n"@ =~= "ExecStart=/bin/sh -c \"nft list table bridge coolify_bridge >/dev/null 2>&1 || nft add table bridge coolify_bridge\""@ + nl + "ExecStart=/bin/sh -c \"nft add chain bridge coolify_bridge coolify_allow '{ }' 2>/dev/null || true\""@ + nl + "ExecStart=/bin/sh -c \"nft delete chain bridge coolify_bridge forward 2>/dev/null || true\""@ + nl + "ExecStart=/bin/sh -c \"nft delete chain bridge coolify_bridge coolify_intra 2>/dev/null || true\""@ + nl + "ExecStart=/bin/sh -c \"nft -f /etc/coolify/bridge-fw.nft\""@ + nl + "ExecStart=/bin/sh -c \"[ -s /etc/coolify/allow.nft ] && nft -f /etc/coolify/allow.nft || true\""@ + nl + none) by {
        reveal_strlit("ExecStart=/bin/sh -c \"nft list table bridge coolify_bridge >/dev/null 2>&1 || nft add table bridge coolify_bridge\"\nExecStart=/bin/sh -c \"nft add chain bridge coolify_bridge coolify_allow '{ }' 2>/dev/null || true\"\nExecStart=/bin/sh -c \"nft delete chain bridge coolify_bridge forward 2>/dev/null || true\"\nExecStart=/bin/sh -c \"nft delete chain bridge coolify_bridge coolify_intra 2>/dev/null || true\"\nExecStart=/bin/sh -c \"nft -f /etc/coolify/bridge-fw.nft\"\nExecStart=/bin/sh -c \"[ -s /etc/coolify/allow.nft ] && nft -f /etc/coolify/allow.nft || true\"\n");
        reveal_strlit("ExecStart=/bin/sh -c \"nft list table bridge coolify_bridge >/dev/null 2>&1 || nft add table bridge coolify_bridge\"");
        reveal_strlit("ExecStart=/bin/sh -c \"nft add chain bridge coolify_bridge coolify_allow '{ }' 2>/dev/null || true\"");
        reveal_strlit("ExecStart=/bin/sh -c \"nft delete chain bridge coolify_bridge forward 2>/dev/null || true\"");
        reveal_strlit("ExecStart=/bin/sh -c \"nft delete chain bridge coolify_bridge coolify_intra 2>/dev/null || true\"");
        reveal_strlit("ExecStart=/bin/sh -c \"nft -f /etc/coolify/bridge-fw.nft\"");
        reveal_strlit("ExecStart=/bin/sh -c \"[ -s /etc/coolify/allow.nft ] && nft -f /etc/coolify/allow.nft || true\"");
    }
    let l0 = "ExecStart=/bin/sh -c \"nft list table bridge coolify_bridge >/dev/null 2>&1 || nft add table bridge coolify_bridge\""@;
    let l1 = "ExecStart=/bin/sh -c \"nft add chain bridge coolify_bridge coolify_allow '{ }' 2>/dev/null || true\""@;
    let l2 = "ExecStart=/bin/sh -c \"nft delete chain bridge coolify_bridge forward 2>/dev/null || true\""@;
    let l3 = "ExecStart=/bin/sh -c \"nft delete chain bridge coolify_bridge coolify_intra 2>/dev/null || true\""@;
    let l4 = "ExecStart=/bin/sh -c \"nft -f /etc/coolify/bridge-fw.nft\""@;
    let l5 = "ExecStart=/bin/sh -c \"[ -s /etc/coolify/allow.nft ] && nft -f /etc/coolify/allow.nft || true\""@;
    let r6 = none;
    let r5 = l5 + nl + r6;
    let r4 = l4 + nl + r5;
    let r3 = l3 + nl + r4;
    let r2 = l2 + nl + r3;
    let r1 = l1 + nl + r2;
    let r0 = l0 + nl + r1;
    assert(firewall::bridge_rules_text() =~= r0);
    no_lines();
    line_then(l5, r6);
    line_then(l4, r5);
    line_then(l3, r4);
    line_then(l2, r3);
    line_then(l1, r2);
    line_then(l0, r1);
    assert(split::lines_of(r0) =~= bridge_lines());
}

spec fn teardown_lines() -> Seq<Seq<char>> {
    seq![
        "# Tear down default-deny scaffold from prior run."@,
        "ExecStart=/bin/sh -c \"/usr/sbin/iptables -F COOLIFY-INTRA 2>/dev/null || true\""@,
        "ExecStart=/bin/sh -c \"/usr/sbin/iptables -X COOLIFY-INTRA 2>/dev/null || true\""@,
        "ExecStart=/bin/sh -c \"nft delete table bridge coolify_bridge 2>/dev/null || true\""@,
    ]
}

proof fn teardown_is_lines()
    ensures
        split::lines_of(firewall::deny_teardown_text()) == teardown_lines(),
        firewall::deny_teardown_text().len() > 0,
        firewall::deny_teardown_text().last() == '\n',
{
    let nl = seq!['\n'];
    let none = Seq::<char>::empty();
    assert(is_plain(none));
    assert(is_plain("# Tear down default-deny scaffold from prior run."@)) by {
        reveal_strlit("# Tear down default-deny scaffold from prior run.");
    }
    assert(is_plain("ExecStart=/bin/sh -c \"/usr/sbin/iptables -F COOLIFY-INTRA 2>/dev/null || true\""@)) by {
        reveal_strlit("ExecStart=/bin/sh -c \"/usr/sbin/iptables -F COOLIFY-INTRA 2>/dev/null || true\"");
    }
    assert(is_plain("ExecStart=/bin/sh -c \"/usr/sbin/iptables -X COOLIFY-INTRA 2>/dev/null || true\""@)) by {
        reveal_strlit("ExecStart=/bin/sh -c \"/usr/sbin/iptables -X COOLIFY-INTRA 2>/dev/null || true\"");
    }
    assert(is_plain("ExecStart=/bin/sh -c \"nft delete table bridge coolify_bridge 2>/dev/null || true\""@)) by {
        reveal_strlit("ExecStart=/bin/sh -c \"nft delete table bridge coolify_bridge 2>/dev/null || true\"");
    }
    assert("# Tear down default-deny scaffold from prior run.\nExecStart=/bin/sh -c \"/usr/sbin/iptables -F COOLIFY-INTRA 2>/dev/null || true\"\nExecStart=/bin/sh -c \"/usr/sbin/iptables -X COOLIFY-INTRA 2>/dev/null || true\"\nExecStart=/bin/sh -c \"nft delete table bridge coolify_bridge 2>/dev/null || true\"\n"@ =~= "# Tear down default-deny scaffold from prior run."@ + nl + "ExecStart=/bin/sh -c \"/usr/sbin/iptables -F COOLIFY-INTRA 2>/dev/null || true\""@ + nl + "ExecStart=/bin/sh -c \"/usr/sbin/iptables -X COOLIFY-INTRA 2>/dev/null || true\""@ + nl + "ExecStart=/bin/sh -c \"nft delete table bridge coolify_bridge 2>/dev/null || true\""@ + nl + none) by {
        reveal_strlit("# Tear down default-deny scaffold from prior run.\nExecStart=/bin/sh -c \"/usr/sbin/iptables -F COOLIFY-INTRA 2>/dev/null || true\"\nExecStart=/bin/sh -c \"/usr/sbin/iptables -X COOLIFY-INTRA 2>/dev/null || true\"\nExecStart=/bin/sh -c \"nft delete table bridge coolify_bridge 2>/dev/null || true\"\n");
        reveal_strlit("# Tear down default-deny scaffold from prior run.");
        reveal_strlit("ExecStart=/bin/sh -c \"/usr/sbin/iptables -F COOLIFY-INTRA 2>/dev/null || true\"");
        reveal_strlit("ExecStart=/bin/sh -c \"/usr/sbin/iptables -X COOLIFY-INTRA 2>/dev/null || true\"");
        reveal_strlit("ExecStart=/bin/sh -c \"nft delete table bridge coolify_bridge 2>/dev/null || true\"");
    }
    let l0 = "# Tear down default-deny scaffold from prior run."@;
    let l1 = "ExecStart=/bin/sh -c \"/usr/sbin/iptables -F COOLIFY-INTRA 2>/dev/null || true\""@;
    let l2 = "ExecStart=/bin/sh -c \"/usr/sbin/iptables -X COOLIFY-INTRA 2>/dev/null || true\""@;
    let l3 = "ExecStart=/bin/sh -c \"nft delete table bridge coolify_bridge 2>/dev/null || true\""@;
    let r4 = none;
    let r3 = l3 + nl + r4;
    let r2 = l2 + nl + r3;
    let r1 = l1 + nl + r2;
    let r0 = l0 + nl + r1;
    assert(firewall::deny_teardown_text() =~= r0);
    no_lines();
    line_then(l3, r4);
    line_then(l2, r3);
    line_then(l1, r2);
    line_then(l0, r1);
    assert(split::lines_of(r0) =~= teardown_lines());
}

spec fn accepting_lines(sn: Ipv4Net) -> Seq<Seq<char>> {
    seq![
        "ExecStart=/bin/sh -c \"/usr/sbin/iptables -C FORWARD -s "@ + sn.cidr() + " -j ACCEPT 2>/dev/null || /usr/sbin/iptables -I FORWARD -s "@ + sn.cidr() + " -j ACCEPT\""@,
        "ExecStart=/bin/sh -c \"/usr/sbin/iptables -C FORWARD -d "@ + sn.cidr() + " -j ACCEPT 2>/dev/null || /usr/sbin/iptables -I FORWARD -d "@ + sn.cidr() + " -j ACCEPT\""@,
    ]
}

proof fn accepting_is_lines(sn: Ipv4Net)
    ensures
        split::lines_of(firewall::accept_rules_row_text(sn)) == accepting_lines(sn),
        firewall::accept_rules_row_text(sn).len() > 0,
        firewall::accept_rules_row_text(sn).last() == '\n',
{
    cidr_is_plain(sn);
    let nl = seq!['\n'];
    let none = Seq::<char>::empty();
    assert(is_plain(none));
    assert(is_plain("ExecStart=/bin/sh -c \"/usr/sbin/iptables -C FORWARD -s "@)) by {
        reveal_strlit("ExecStart=/bin/sh -c \"/usr/sbin/iptables -C FORWARD -s ");
    }
    assert(is_plain(" -j ACCEPT 2>/dev/null || /usr/sbin/iptables -I FORWARD -s "@)) by {
        reveal_strlit(" -j ACCEPT 2>/dev/null || /usr/sbin/iptables -I FORWARD -s ");
    }
    assert(is_plain(" -j ACCEPT\""@)) by {
        reveal_strlit(" -j ACCEPT\"");
    }
    assert(is_plain("ExecStart=/bin/sh -c \"/usr/sbin/iptables -C FORWARD -d "@)) by {
        reveal_strlit("ExecStart=/bin/sh -c \"/usr/sbin/iptables -C FORWARD -d ");
    }
    assert(is_plain(" -j ACCEPT 2>/dev/null || /usr/sbin/iptables -I FORWARD -d "@)) by {
        reveal_strlit(" -j ACCEPT 2>/dev/null || /usr/sbin/iptables -I FORWARD -d ");
    }
    assert(" -j ACCEPT\"\nExecStart=/bin/sh -c \"/usr/sbin/iptables -C FORWARD -d "@ =~= " -j ACCEPT\""@ + nl + "ExecStart=/bin/sh -c \"/usr/sbin/iptables -C FORWARD -d "@) by {
        reveal_strlit(" -j ACCEPT\"\nExecStart=/bin/sh -c \"/usr/sbin/iptables -C FORWARD -d ");
        reveal_strlit(" -j ACCEPT\"");
        reveal_strlit("ExecStart=/bin/sh -c \"/usr/sbin/iptables -C FORWARD -d ");
    }
    assert(" -j ACCEPT\"\n"@ =~= " -j ACCEPT\""@ + nl + none) by {
        reveal_strlit(" -j ACCEPT\"\n");
        reveal_strlit(" -j ACCEPT\"");
    }
    let l0 = "ExecStart=/bin/sh -c \"/usr/sbin/iptables -C FORWARD -s "@ + sn.cidr() + " -j ACCEPT 2>/dev/null || /usr/sbin/iptables -I FORWARD -s "@ + sn.cidr() + " -j ACCEPT\""@;
    plain_add("ExecStart=/bin/sh -c \"/usr/sbin/iptables -C FORWARD -s "@, sn.cidr());
    plain_add("ExecStart=/bin/sh -c \"/usr/sbin/iptables -C FORWARD -s "@ + sn.cidr(), " -j ACCEPT 2>/dev/null || /usr/sbin/iptables -I FORWARD -s "@);
    plain_add("ExecStart=/bin/sh -c \"/usr/sbin/iptables -C FORWARD -s "@ + sn.cidr() + " -j ACCEPT 2>/dev/null || /usr/sbin/iptables -I FORWARD -s "@, sn.cidr());
    plain_add("ExecStart=/bin/sh -c \"/usr/sbin/iptables -C FORWARD -s "@ + sn.cidr() + " -j ACCEPT 2>/dev/null || /usr/sbin/iptables -I FORWARD -s "@ + sn.cidr(), " -j ACCEPT\""@);
    let l1 = "ExecStart=/bin/sh -c \"/usr/sbin/iptables -C FORWARD -d "@ + sn.cidr() + " -j ACCEPT 2>/dev/null || /usr/sbin/iptables -I FORWARD -d "@ + sn.cidr() + " -j ACCEPT\""@;
    plain_add("ExecStart=/bin/sh -c \"/usr/sbin/iptables -C FORWARD -d "@, sn.cidr());
    plain_add("ExecStart=/bin/sh -c \"/usr/sbin/iptables -C FORWARD -d "@ + sn.cidr(), " -j ACCEPT 2>/dev/null || /usr/sbin/iptables -I FORWARD -d "@);
    plain_add("ExecStart=/bin/sh -c \"/usr/sbin/iptables -C FORWARD -d "@ + sn.cidr() + " -j ACCEPT 2>/dev/null || /usr/sbin/iptables -I FORWARD -d "@, sn.cidr());
    plain_add("ExecStart=/bin/sh -c \"/usr/sbin/iptables -C FORWARD -d "@ + sn.cidr() + " -j ACCEPT 2>/dev/null || /usr/sbin/iptables -I FORWARD -d "@ + sn.cidr(), " -j ACCEPT\""@);
    let r2 = none;
    let r1 = l1 + nl + r2;
    let r0 = l0 + nl + r1;
    assert(firewall::accept_rules_row_text(sn) =~= r0);
    no_lines();
    line_then(l1, r2);
    line_then(l0, r1);
    assert(split::lines_of(r0) =~= accepting_lines(sn));
}

spec fn note_lines() -> Seq<Seq<char>> {
    seq![
        "# Remove blanket ACCEPT from prior mode-A run."@,
    ]
}

proof fn note_is_lines()
    ensures
        split::lines_of("# Remove blanket ACCEPT from prior mode-A run.\n"@) == note_lines(),
        "# Remove blanket ACCEPT from prior mode-A run.\n"@.len() > 0,
        "# Remove blanket ACCEPT from prior mode-A run.\n"@.last() == '\n',
{
    let nl = seq!['\n'];
    let none = Seq::<char>::empty();
    assert(is_plain(none));
    assert(is_plain("# Remove blanket ACCEPT from prior mode-A run."@)) by {
        reveal_strlit("# Remove blanket ACCEPT from prior mode-A run.");
    }
    assert("# Remove blanket ACCEPT from prior mode-A run.\n"@ =~= "# Remove blanket ACCEPT from prior mode-A run."@ + nl + none) by {
        reveal_strlit("# Remove blanket ACCEPT from prior mode-A run.\n");
        reveal_strlit("# Remove blanket ACCEPT from prior mode-A run.");
    }
    let l0 = "# Remove blanket ACCEPT from prior mode-A run."@;
    let r1 = none;
    let r0 = l0 + nl + r1;
    assert("# Remove blanket ACCEPT from prior mode-A run.\n"@ =~= r0);
    no_lines();
    line_then(l0, r1);
    assert(split::lines_of(r0) =~= note_lines());
}

spec fn tail_lines() -> Seq<Seq<char>> {
    seq![
        Seq::empty(),
        "[Install]"@,
        "WantedBy=multi-user.target"@,
    ]
}

proof fn tail_is_lines()
    ensures
        split::lines_of("\n[Install]\nWantedBy=multi-user.target\n"@) == tail_lines(),
        "\n[Install]\nWantedBy=multi-user.target\n"@.len() > 0,
        "\n[Install]\nWantedBy=multi-user.target\n"@.last() == '\n',
{
    let nl = seq!['\n'];
    let none = Seq::<char>::empty();
    assert(is_plain(none));
    assert(is_plain("[Install]"@)) by {
        reveal_strlit("[Install]");
    }
    assert(is_plain("WantedBy=multi-user.target"@)) by {
        reveal_strlit("WantedBy=multi-user.target");
    }
    assert("\n[Install]\nWantedBy=multi-user.target\n"@ =~= none + nl + "[Install]"@ + nl + "WantedBy=multi-user.target"@ + nl + none) by {
        reveal_strlit("\n[Install]\nWantedBy=multi-user.target\n");
        reveal_strlit("[Install]");
        reveal_strlit("WantedBy=multi-user.target");
    }
    let l0 = none;
    let l1 = "[Install]"@;
    let l2 = "WantedBy=multi-user.target"@;
    let r3 = none;
    let r2 = l2 + nl + r3;
    let r1 = l1 + nl + r2;
    let r0 = l0 + nl + r1;
    assert("\n[Install]\nWantedBy=multi-user.target\n"@ =~= r0);
    no_lines();
    line_then(l2, r3);
    line_then(l1, r2);
    line_then(l0, r1);
    assert(split::lines_of(r0) =~= tail_lines());
}

/// How a rule of the denying chain begins.
pub open spec fn denial_rule() -> Seq<char> {
    "ExecStart=/usr/sbin/iptables -A COOLIFY-INTRA"@
}

/// Whether a line adds no rule to the denying chain.
pub open spec fn adds_no_denial(line: Seq<char>) -> bool {
    !text::has_prefix(line, denial_rule())
}

/// Whether a line drops nothing.
pub open spec fn drops_nothing(line: Seq<char>) -> bool {
    !text::has_suffix(line, "DROP"@) && !text::has_suffix(line, "DROP\""@)
}

proof fn differs_at(line: Seq<char>, i: int)
    requires
        0 <= i < denial_rule().len(),
        i < line.len() ==> line[i] != denial_rule()[i],
    ensures
        adds_no_denial(line),
{
    if text::has_prefix(line, denial_rule()) {
        assert(line.subrange(0, denial_rule().len() as int)[i] == line[i]);
    }
}

proof fn ends_otherwise(line: Seq<char>)
    requires
        line.len() > 0 ==> line.last() != 'P',
        line.len() > 1 && line.last() == '"' ==> line[line.len() - 2] != 'P',
    ensures
        drops_nothing(line),
{
    reveal_strlit("DROP");
    reveal_strlit("DROP\"");
    let n = line.len() as int;
    if text::has_suffix(line, "DROP"@) {
        assert(line.subrange(n - 4, n)[3] == line[n - 1]);
    }
    if text::has_suffix(line, "DROP\""@) {
        assert(line.subrange(n - 5, n)[3] == line[n - 2]);
        assert(line.subrange(n - 5, n)[4] == line[n - 1]);
    }
}

proof fn head_is_tame(iface: Seq<char>)
    ensures
        head_lines(iface).len() == 9,
        adds_no_denial(head_lines(iface)[0]),
        drops_nothing(head_lines(iface)[0]),
        adds_no_denial(head_lines(iface)[1]),
        drops_nothing(head_lines(iface)[1]),
        adds_no_denial(head_lines(iface)[2]),
        drops_nothing(head_lines(iface)[2]),
        adds_no_denial(head_lines(iface)[3]),
        drops_nothing(head_lines(iface)[3]),
        adds_no_denial(head_lines(iface)[4]),
        drops_nothing(head_lines(iface)[4]),
        adds_no_denial(head_lines(iface)[5]),
        drops_nothing(head_lines(iface)[5]),
        adds_no_denial(head_lines(iface)[6]),
        drops_nothing(head_lines(iface)[6]),
        adds_no_denial(head_lines(iface)[7]),
        drops_nothing(head_lines(iface)[7]),
        adds_no_denial(head_lines(iface)[8]),
        drops_nothing(head_lines(iface)[8]),
{
    reveal_strlit("ExecStart=/usr/sbin/iptables -A COOLIFY-INTRA");
    reveal_strlit("[Unit]");
    reveal_strlit("Description=Coolify mesh firewall rules");
    reveal_strlit("After=wg-quick@");
    reveal_strlit(".service network-online.target");
    reveal_strlit("Wants=network-online.target");
    reveal_strlit("[Service]");
    reveal_strlit("Type=oneshot");
    reveal_strlit("RemainAfterExit=yes");
    let l0 = head_lines(iface)[0];
    assert(l0[0] == "[Unit]"@[0]);
    differs_at(l0, 0);
    assert(l0.last() == "[Unit]"@[5]);
    assert(l0[l0.len() - 2] == "[Unit]"@[4]);
    ends_otherwise(l0);
    let l1 = head_lines(iface)[1];
    assert(l1[0] == "Description=Coolify mesh firewall rules"@[0]);
    differs_at(l1, 0);
    assert(l1.last() == "Description=Coolify mesh firewall rules"@[38]);
    assert(l1[l1.len() - 2] == "Description=Coolify mesh firewall rules"@[37]);
    ends_otherwise(l1);
    let l2 = head_lines(iface)[2];
    assert(l2[0] == "After=wg-quick@"@[0]);
    differs_at(l2, 0);
    assert(l2.last() == ".service network-online.target"@[29]);
    assert(l2[l2.len() - 2] == ".service network-online.target"@[28]);
    ends_otherwise(l2);
    let l3 = head_lines(iface)[3];
    assert(l3[0] == "Wants=network-online.target"@[0]);
    differs_at(l3, 0);
    assert(l3.last() == "Wants=network-online.target"@[26]);
    assert(l3[l3.len() - 2] == "Wants=network-online.target"@[25]);
    ends_otherwise(l3);
    let l4 = head_lines(iface)[4];
    assert(l4.len() == 0);
    differs_at(l4, 0);
    ends_otherwise(l4);
    let l5 = head_lines(iface)[5];
    assert(l5[0] == "[Service]"@[0]);
    differs_at(l5, 0);
    assert(l5.last() == "[Service]"@[8]);
    assert(l5[l5.len() - 2] == "[Service]"@[7]);
    ends_otherwise(l5);
    let l6 = head_lines(iface)[6];
    assert(l6[0] == "Type=oneshot"@[0]);
    differs_at(l6, 0);
    assert(l6.last() == "Type=oneshot"@[11]);
    assert(l6[l6.len() - 2] == "Type=oneshot"@[10]);
    ends_otherwise(l6);
    let l7 = head_lines(iface)[7];
    assert(l7[0] == "RemainAfterExit=yes"@[0]);
    differs_at(l7, 0);
    assert(l7.last() == "RemainAfterExit=yes"@[18]);
    assert(l7[l7.len() - 2] == "RemainAfterExit=yes"@[17]);
    ends_otherwise(l7);
    let l8 = head_lines(iface)[8];
    assert(l8.len() == 0);
    differs_at(l8, 0);
    ends_otherwise(l8);
}

proof fn nat_is_tame(iface: Seq<char>, sn: Ipv4Net)
    ensures
        nat_lines(iface, sn).len() == 1,
        adds_no_denial(nat_lines(iface, sn)[0]),
        drops_nothing(nat_lines(iface, sn)[0]),
{
    reveal_strlit("ExecStart=/usr/sbin/iptables -A COOLIFY-INTRA");
    reveal_strlit("ExecStart=/bin/sh -c \"/usr/sbin/iptables -t nat -C POSTROUTING -s ");
    reveal_strlit(" -j RETURN\"");
    let l0 = nat_lines(iface, sn)[0];
    assert(l0[11] == "ExecStart=/bin/sh -c \"/usr/sbin/iptables -t nat -C POSTROUTING -s "@[11]);
    differs_at(l0, 11);
    assert(l0.last() == " -j RETURN\""@[10]);
    assert(l0[l0.len() - 2] == " -j RETURN\""@[9]);
    ends_otherwise(l0);
}

proof fn removal_is_tame(sn: Ipv4Net)
    ensures
        removal_lines(sn).len() == 2,
        adds_no_denial(removal_lines(sn)[0]),
        drops_nothing(removal_lines(sn)[0]),
        adds_no_denial(removal_lines(sn)[1]),
        drops_nothing(removal_lines(sn)[1]),
{
    reveal_strlit("ExecStart=/usr/sbin/iptables -A COOLIFY-INTRA");
    reveal_strlit("ExecStart=/bin/sh -c \"/usr/sbin/iptables -D FORWARD -s ");
    reveal_strlit(" -j ACCEPT 2>/dev/null || true\"");
    reveal_strlit("ExecStart=/bin/sh -c \"/usr/sbin/iptables -D FORWARD -d ");
    let l0 = removal_lines(sn)[0];
    assert(l0[11] == "ExecStart=/bin/sh -c \"/usr/sbin/iptables -D FORWARD -s "@[11]);
    differs_at(l0, 11);
    assert(l0.last() == " -j ACCEPT 2>/dev/null || true\""@[30]);
    assert(l0[l0.len() - 2] == " -j ACCEPT 2>/dev/null || true\""@[29]);
    ends_otherwise(l0);
    let l1 = removal_lines(sn)[1];
    assert(l1[11] == "ExecStart=/bin/sh -c \"/usr/sbin/iptables -D FORWARD -d "@[11]);
    differs_at(l1, 11);
    assert(l1.last() == " -j ACCEPT 2>/dev/null || true\""@[30]);
    assert(l1[l1.len() - 2] == " -j ACCEPT 2>/dev/null || true\""@[29]);
    ends_otherwise(l1);
}

proof fn chains_is_tame()
    ensures
        chains_lines().len() == 8,
        adds_no_denial(chains_lines()[0]),
        drops_nothing(chains_lines()[0]),
        adds_no_denial(chains_lines()[1]),
        drops_nothing(chains_lines()[1]),
        adds_no_denial(chains_lines()[2]),
        drops_nothing(chains_lines()[2]),
        adds_no_denial(chains_lines()[3]),
        drops_nothing(chains_lines()[3]),
        drops_nothing(chains_lines()[4]),
        adds_no_denial(chains_lines()[6]),
        drops_nothing(chains_lines()[6]),
        adds_no_denial(chains_lines()[7]),
        drops_nothing(chains_lines()[7]),
{
    reveal_strlit("ExecStart=/usr/sbin/iptables -A COOLIFY-INTRA");
    reveal_strlit("ExecStart=/bin/sh -c \"/usr/sbin/iptables -N COOLIFY-ALLOW 2>/dev/null || true\"");
    reveal_strlit("ExecStart=/bin/sh -c \"/usr/sbin/iptables -N COOLIFY-INTRA 2>/dev/null || true\"");
    reveal_strlit("ExecStart=/usr/sbin/iptables -F COOLIFY-INTRA");
    reveal_strlit("ExecStart=/usr/sbin/iptables -A COOLIFY-INTRA -j COOLIFY-ALLOW");
    reveal_strlit("ExecStart=/usr/sbin/iptables -A COOLIFY-INTRA -j DROP");
    reveal_strlit("ExecStart=/bin/sh -c \"[ -s /etc/coolify/allow.rules ] && /usr/sbin/iptables -F COOLIFY-ALLOW && /usr/sbin/iptables-restore --noflush < /etc/coolify/allow.rules || true\"");
    reveal_strlit("ExecStart=/bin/sh -c \"/usr/sbin/iptables -C FORWARD -m conntrack --ctstate ESTABLISHED,RELATED -j ACCEPT 2>/dev/null || /usr/sbin/iptables -I FORWARD 1 -m conntrack --ctstate ESTABLISHED,RELATED -j ACCEPT\"");
    let l0 = chains_lines()[0];
    assert(l0.len() == 0);
    differs_at(l0, 0);
    ends_otherwise(l0);
    let l1 = chains_lines()[1];
    assert(l1[11] == "ExecStart=/bin/sh -c \"/usr/sbin/iptables -N COOLIFY-ALLOW 2>/dev/null || true\""@[11]);
    differs_at(l1, 11);
    assert(l1.last() == "ExecStart=/bin/sh -c \"/usr/sbin/iptables -N COOLIFY-ALLOW 2>/dev/null || true\""@[77]);
    assert(l1[l1.len() - 2] == "ExecStart=/bin/sh -c \"/usr/sbin/iptables -N COOLIFY-ALLOW 2>/dev/null || true\""@[76]);
    ends_otherwise(l1);
    let l2 = chains_lines()[2];
    assert(l2[11] == "ExecStart=/bin/sh -c \"/usr/sbin/iptables -N COOLIFY-INTRA 2>/dev/null || true\""@[11]);
    differs_at(l2, 11);
    assert(l2.last() == "ExecStart=/bin/sh -c \"/usr/sbin/iptables -N COOLIFY-INTRA 2>/dev/null || true\""@[77]);
    assert(l2[l2.len() - 2] == "ExecStart=/bin/sh -c \"/usr/sbin/iptables -N COOLIFY-INTRA 2>/dev/null || true\""@[76]);
    ends_otherwise(l2);
    let l3 = chains_lines()[3];
    assert(l3[30] == "ExecStart=/usr/sbin/iptables -F COOLIFY-INTRA"@[30]);
    differs_at(l3, 30);
    assert(l3.last() == "ExecStart=/usr/sbin/iptables -F COOLIFY-INTRA"@[44]);
    assert(l3[l3.len() - 2] == "ExecStart=/usr/sbin/iptables -F COOLIFY-INTRA"@[43]);
    ends_otherwise(l3);
    let l4 = chains_lines()[4];
    assert(l4.last() == "ExecStart=/usr/sbin/iptables -A COOLIFY-INTRA -j COOLIFY-ALLOW"@[61]);
    assert(l4[l4.len() - 2] == "ExecStart=/usr/sbin/iptables -A COOLIFY-INTRA -j COOLIFY-ALLOW"@[60]);
    ends_otherwise(l4);
    let l5 = chains_lines()[5];
    let l6 = chains_lines()[6];
    assert(l6[11] == "ExecStart=/bin/sh -c \"[ -s /etc/coolify/allow.rules ] && /usr/sbin/iptables -F COOLIFY-ALLOW && /usr/sbin/iptables-restore --noflush < /etc/coolify/allow.rules || true\""@[11]);
    differs_at(l6, 11);
    assert(l6.last() == "ExecStart=/bin/sh -c \"[ -s /etc/coolify/allow.rules ] && /usr/sbin/iptables -F COOLIFY-ALLOW && /usr/sbin/iptables-restore --noflush < /etc/coolify/allow.rules || true\""@[167]);
    assert(l6[l6.len() - 2] == "ExecStart=/bin/sh -c \"[ -s /etc/coolify/allow.rules ] && /usr/sbin/iptables -F COOLIFY-ALLOW && /usr/sbin/iptables-restore --noflush < /etc/coolify/allow.rules || true\""@[166]);
    ends_otherwise(l6);
    let l7 = chains_lines()[7];
    assert(l7[11] == "ExecStart=/bin/sh -c \"/usr/sbin/iptables -C FORWARD -m conntrack --ctstate ESTABLISHED,RELATED -j ACCEPT 2>/dev/null || /usr/sbin/iptables -I FORWARD 1 -m conntrack --ctstate ESTABLISHED,RELATED -j ACCEPT\""@[11]);
    differs_at(l7, 11);
    assert(l7.last() == "ExecStart=/bin/sh -c \"/usr/sbin/iptables -C FORWARD -m conntrack --ctstate ESTABLISHED,RELATED -j ACCEPT 2>/dev/null || /usr/sbin/iptables -I FORWARD 1 -m conntrack --ctstate ESTABLISHED,RELATED -j ACCEPT\""@[204]);
    assert(l7[l7.len() - 2] == "ExecStart=/bin/sh -c \"/usr/sbin/iptables -C FORWARD -m conntrack --ctstate ESTABLISHED,RELATED -j ACCEPT 2>/dev/null || /usr/sbin/iptables -I FORWARD 1 -m conntrack --ctstate ESTABLISHED,RELATED -j ACCEPT\""@[203]);
    ends_otherwise(l7);
}

proof fn sending_is_tame(sn: Ipv4Net)
    ensures
        sending_lines(sn).len() == 2,
        adds_no_denial(sending_lines(sn)[0]),
        drops_nothing(sending_lines(sn)[0]),
        adds_no_denial(sending_lines(sn)[1]),
        drops_nothing(sending_lines(sn)[1]),
{
    reveal_strlit("ExecStart=/usr/sbin/iptables -A COOLIFY-INTRA");
    reveal_strlit("ExecStart=/bin/sh -c \"/usr/sbin/iptables -C FORWARD -d ");
    reveal_strlit(" -j COOLIFY-INTRA\"");
    reveal_strlit("ExecStart=/bin/sh -c \"/usr/sbin/iptables -C FORWARD -s ");
    let l0 = sending_lines(sn)[0];
    assert(l0[11] == "ExecStart=/bin/sh -c \"/usr/sbin/iptables -C FORWARD -d "@[11]);
    differs_at(l0, 11);
    assert(l0.last() == " -j COOLIFY-INTRA\""@[17]);
    assert(l0[l0.len() - 2] == " -j COOLIFY-INTRA\""@[16]);
    ends_otherwise(l0);
    let l1 = sending_lines(sn)[1];
    assert(l1[11] == "ExecStart=/bin/sh -c \"/usr/sbin/iptables -C FORWARD -s "@[11]);
    differs_at(l1, 11);
    assert(l1.last() == " -j COOLIFY-INTRA\""@[17]);
    assert(l1[l1.len() - 2] == " -j COOLIFY-INTRA\""@[16]);
    ends_otherwise(l1);
}

proof fn bridge_is_tame()
    ensures
        bridge_lines().len() == 6,
        adds_no_denial(bridge_lines()[0]),
        drops_nothing(bridge_lines()[0]),
        adds_no_denial(bridge_lines()[1]),
        drops_nothing(bridge_lines()[1]),
        adds_no_denial(bridge_lines()[2]),
        drops_nothing(bridge_lines()[2]),
        adds_no_denial(bridge_lines()[3]),
        drops_nothing(bridge_lines()[3]),
        adds_no_denial(bridge_lines()[4]),
        drops_nothing(bridge_lines()[4]),
        adds_no_denial(bridge_lines()[5]),
        drops_nothing(bridge_lines()[5]),
{
    reveal_strlit("ExecStart=/usr/sbin/iptables -A COOLIFY-INTRA");
    reveal_strlit("ExecStart=/bin/sh -c \"nft list table bridge coolify_bridge >/dev/null 2>&1 || nft add table bridge coolify_bridge\"");
    reveal_strlit("ExecStart=/bin/sh -c \"nft add chain bridge coolify_bridge coolify_allow '{ }' 2>/dev/null || true\"");
    reveal_strlit("ExecStart=/bin/sh -c \"nft delete chain bridge coolify_bridge forward 2>/dev/null || true\"");
    reveal_strlit("ExecStart=/bin/sh -c \"nft delete chain bridge coolify_bridge coolify_intra 2>/dev/null || true\"");
    reveal_strlit("ExecStart=/bin/sh -c \"nft -f /etc/coolify/bridge-fw.nft\"");
    reveal_strlit("ExecStart=/bin/sh -c \"[ -s /etc/coolify/allow.nft ] && nft -f /etc/coolify/allow.nft || true\"");
    let l0 = bridge_lines()[0];
    assert(l0[11] == "ExecStart=/bin/sh -c \"nft list table bridge coolify_bridge >/dev/null 2>&1 || nft add table bridge coolify_bridge\""@[11]);
    differs_at(l0, 11);
    assert(l0.last() == "ExecStart=/bin/sh -c \"nft list table bridge coolify_bridge >/dev/null 2>&1 || nft add table bridge coolify_bridge\""@[113]);
    assert(l0[l0.len() - 2] == "ExecStart=/bin/sh -c \"nft list table bridge coolify_bridge >/dev/null 2>&1 || nft add table bridge coolify_bridge\""@[112]);
    ends_otherwise(l0);
    let l1 = bridge_lines()[1];
    assert(l1[11] == "ExecStart=/bin/sh -c \"nft add chain bridge coolify_bridge coolify_allow '{ }' 2>/dev/null || true\""@[11]);
    differs_at(l1, 11);
    assert(l1.last() == "ExecStart=/bin/sh -c \"nft add chain bridge coolify_bridge coolify_allow '{ }' 2>/dev/null || true\""@[97]);
    assert(l1[l1.len() - 2] == "ExecStart=/bin/sh -c \"nft add chain bridge coolify_bridge coolify_allow '{ }' 2>/dev/null || true\""@[96]);
    ends_otherwise(l1);
    let l2 = bridge_lines()[2];
    assert(l2[11] == "ExecStart=/bin/sh -c \"nft delete chain bridge coolify_bridge forward 2>/dev/null || true\""@[11]);
    differs_at(l2, 11);
    assert(l2.last() == "ExecStart=/bin/sh -c \"nft delete chain bridge coolify_bridge forward 2>/dev/null || true\""@[88]);
    assert(l2[l2.len() - 2] == "ExecStart=/bin/sh -c \"nft delete chain bridge coolify_bridge forward 2>/dev/null || true\""@[87]);
    ends_otherwise(l2);
    let l3 = bridge_lines()[3];
    assert(l3[11] == "ExecStart=/bin/sh -c \"nft delete chain bridge coolify_bridge coolify_intra 2>/dev/null || true\""@[11]);
    differs_at(l3, 11);
    assert(l3.last() == "ExecStart=/bin/sh -c \"nft delete chain bridge coolify_bridge coolify_intra 2>/dev/null || true\""@[94]);
    assert(l3[l3.len() - 2] == "ExecStart=/bin/sh -c \"nft delete chain bridge coolify_bridge coolify_intra 2>/dev/null || true\""@[93]);
    ends_otherwise(l3);
    let l4 = bridge_lines()[4];
    assert(l4[11] == "ExecStart=/bin/sh -c \"nft -f /etc/coolify/bridge-fw.nft\""@[11]);
    differs_at(l4, 11);
    assert(l4.last() == "ExecStart=/bin/sh -c \"nft -f /etc/coolify/bridge-fw.nft\""@[55]);
    assert(l4[l4.len() - 2] == "ExecStart=/bin/sh -c \"nft -f /etc/coolify/bridge-fw.nft\""@[54]);
    ends_otherwise(l4);
    let l5 = bridge_lines()[5];
    assert(l5[11] == "ExecStart=/bin/sh -c \"[ -s /etc/coolify/allow.nft ] && nft -f /etc/coolify/allow.nft || true\""@[11]);
    differs_at(l5, 11);
    assert(l5.last() == "ExecStart=/bin/sh -c \"[ -s /etc/coolify/allow.nft ] && nft -f /etc/coolify/allow.nft || true\""@[92]);
    assert(l5[l5.len() - 2] == "ExecStart=/bin/sh -c \"[ -s /etc/coolify/allow.nft ] && nft -f /etc/coolify/allow.nft || true\""@[91]);
    ends_otherwise(l5);
}

proof fn teardown_is_tame()
    ensures
        teardown_lines().len() == 4,
        adds_no_denial(teardown_lines()[0]),
        drops_nothing(teardown_lines()[0]),
        adds_no_denial(teardown_lines()[1]),
        drops_nothing(teardown_lines()[1]),
        adds_no_denial(teardown_lines()[2]),
        drops_nothing(teardown_lines()[2]),
        adds_no_denial(teardown_lines()[3]),
        drops_nothing(teardown_lines()[3]),
{
    reveal_strlit("ExecStart=/usr/sbin/iptables -A COOLIFY-INTRA");
    reveal_strlit("# Tear down default-deny scaffold from prior run.");
    reveal_strlit("ExecStart=/bin/sh -c \"/usr/sbin/iptables -F COOLIFY-INTRA 2>/dev/null || true\"");
    reveal_strlit("ExecStart=/bin/sh -c \"/usr/sbin/iptables -X COOLIFY-INTRA 2>/dev/null || true\"");
    reveal_strlit("ExecStart=/bin/sh -c \"nft delete table bridge coolify_bridge 2>/dev/null || true\"");
    let l0 = teardown_lines()[0];
    assert(l0[0] == "# Tear down default-deny scaffold from prior run."@[0]);
    differs_at(l0, 0);
    assert(l0.last() == "# Tear down default-deny scaffold from prior run."@[48]);
    assert(l0[l0.len() - 2] == "# Tear down default-deny scaffold from prior run."@[47]);
    ends_otherwise(l0);
    let l1 = teardown_lines()[1];
    assert(l1[11] == "ExecStart=/bin/sh -c \"/usr/sbin/iptables -F COOLIFY-INTRA 2>/dev/null || true\""@[11]);
    differs_at(l1, 11);
    assert(l1.last() == "ExecStart=/bin/sh -c \"/usr/sbin/iptables -F COOLIFY-INTRA 2>/dev/null || true\""@[77]);
    assert(l1[l1.len() - 2] == "ExecStart=/bin/sh -c \"/usr/sbin/iptables -F COOLIFY-INTRA 2>/dev/null || true\""@[76]);
    ends_otherwise(l1);
    let l2 = teardown_lines()[2];
    assert(l2[11] == "ExecStart=/bin/sh -c \"/usr/sbin/iptables -X COOLIFY-INTRA 2>/dev/null || true\""@[11]);
    differs_at(l2, 11);
    assert(l2.last() == "ExecStart=/bin/sh -c \"/usr/sbin/iptables -X COOLIFY-INTRA 2>/dev/null || true\""@[77]);
    assert(l2[l2.len() - 2] == "ExecStart=/bin/sh -c \"/usr/sbin/iptables -X COOLIFY-INTRA 2>/dev/null || true\""@[76]);
    ends_otherwise(l2);
    let l3 = teardown_lines()[3];
    assert(l3[11] == "ExecStart=/bin/sh -c \"nft delete table bridge coolify_bridge 2>/dev/null || true\""@[11]);
    differs_at(l3, 11);
    assert(l3.last() == "ExecStart=/bin/sh -c \"nft delete table bridge coolify_bridge 2>/dev/null || true\""@[80]);
    assert(l3[l3.len() - 2] == "ExecStart=/bin/sh -c \"nft delete table bridge coolify_bridge 2>/dev/null || true\""@[79]);
    ends_otherwise(l3);
}

proof fn accepting_is_tame(sn: Ipv4Net)
    ensures
        accepting_lines(sn).len() == 2,
        adds_no_denial(accepting_lines(sn)[0]),
        drops_nothing(accepting_lines(sn)[0]),
        adds_no_denial(accepting_lines(sn)[1]),
        drops_nothing(accepting_lines(sn)[1]),
{
    reveal_strlit("ExecStart=/usr/sbin/iptables -A COOLIFY-INTRA");
    reveal_strlit("ExecStart=/bin/sh -c \"/usr/sbin/iptables -C FORWARD -s ");
    reveal_strlit(" -j ACCEPT\"");
    reveal_strlit("ExecStart=/bin/sh -c \"/usr/sbin/iptables -C FORWARD -d ");
    let l0 = accepting_lines(sn)[0];
    assert(l0[11] == "ExecStart=/bin/sh -c \"/usr/sbin/iptables -C FORWARD -s "@[11]);
    differs_at(l0, 11);
    assert(l0.last() == " -j ACCEPT\""@[10]);
    assert(l0[l0.len() - 2] == " -j ACCEPT\""@[9]);
    ends_otherwise(l0);
    let l1 = accepting_lines(sn)[1];
    assert(l1[11] == "ExecStart=/bin/sh -c \"/usr/sbin/iptables -C FORWARD -d "@[11]);
    differs_at(l1, 11);
    assert(l1.last() == " -j ACCEPT\""@[10]);
    assert(l1[l1.len() - 2] == " -j ACCEPT\""@[9]);
    ends_otherwise(l1);
}

proof fn note_is_tame()
    ensures
        note_lines().len() == 1,
        adds_no_denial(note_lines()[0]),
        drops_nothing(note_lines()[0]),
{
    reveal_strlit("ExecStart=/usr/sbin/iptables -A COOLIFY-INTRA");
    reveal_strlit("# Remove blanket ACCEPT from prior mode-A run.");
    let l0 = note_lines()[0];
    assert(l0[0] == "# Remove blanket ACCEPT from prior mode-A run."@[0]);
    differs_at(l0, 0);
    assert(l0.last() == "# Remove blanket ACCEPT from prior mode-A run."@[45]);
    assert(l0[l0.len() - 2] == "# Remove blanket ACCEPT from prior mode-A run."@[44]);
    ends_otherwise(l0);
}

proof fn tail_is_tame()
    ensures
        tail_lines().len() == 3,
        adds_no_denial(tail_lines()[0]),
        drops_nothing(tail_lines()[0]),
        adds_no_denial(tail_lines()[1]),
        drops_nothing(tail_lines()[1]),
        adds_no_denial(tail_lines()[2]),
        drops_nothing(tail_lines()[2]),
{
    reveal_strlit("ExecStart=/usr/sbin/iptables -A COOLIFY-INTRA");
    reveal_strlit("[Install]");
    reveal_strlit("WantedBy=multi-user.target");
    let l0 = tail_lines()[0];
    assert(l0.len() == 0);
    differs_at(l0, 0);
    ends_otherwise(l0);
    let l1 = tail_lines()[1];
    assert(l1[0] == "[Install]"@[0]);
    differs_at(l1, 0);
    assert(l1.last() == "[Install]"@[8]);
    assert(l1[l1.len() - 2] == "[Install]"@[7]);
    ends_otherwise(l1);
    let l2 = tail_lines()[2];
    assert(l2[0] == "WantedBy=multi-user.target"@[0]);
    differs_at(l2, 0);
    assert(l2.last() == "WantedBy=multi-user.target"@[25]);
    assert(l2[l2.len() - 2] == "WantedBy=multi-user.target"@[24]);
    ends_otherwise(l2);
}

/// Whether the lines neither add a rule to the denying chain nor drop anything.
spec fn tame(lines: Seq<Seq<char>>) -> bool {
    forall|k: int|
        0 <= k < lines.len() ==> adds_no_denial(#[trigger] lines[k]) && drops_nothing(lines[k])
}

proof fn tame_add(a: Seq<Seq<char>>, b: Seq<Seq<char>>)
    requires
        tame(a),
        tame(b),
    ensures
        tame(a + b),
{
    assert forall|k: int| 0 <= k < (a + b).len() implies adds_no_denial(#[trigger] (a + b)[k])
        && drops_nothing((a + b)[k]) by {
        if k < a.len() {
            assert((a + b)[k] == a[k]);
        } else {
            assert((a + b)[k] == b[k - a.len()]);
        }
    }
}

/// Whether a text is made of whole lines.
spec fn whole(s: Seq<char>) -> bool {
    s.len() > 0 ==> s.last() == '\n'
}

proof fn whole_add(a: Seq<char>, b: Seq<char>)
    requires
        whole(a),
        whole(b),
    ensures
        whole(a + b),
        split::lines_of(a + b) == split::lines_of(a) + split::lines_of(b),
{
    config_laws::lines_add(a, b);
    if b.len() > 0 {
        assert((a + b).last() == b.last());
    } else {
        assert(a + b =~= a);
    }
}

proof fn contains_add(a: Seq<Seq<char>>, b: Seq<Seq<char>>, x: Seq<char>)
    ensures
        (a + b).contains(x) <==> a.contains(x) || b.contains(x),
{
    if (a + b).contains(x) {
        let i = choose|i: int| 0 <= i < (a + b).len() && (a + b)[i] == x;
        if i < a.len() {
            assert(a[i] == x);
        } else {
            assert(b[i - a.len()] == x);
        }
    }
    if a.contains(x) {
        let i = choose|i: int| 0 <= i < a.len() && a[i] == x;
        assert((a + b)[i] == x);
    }
    if b.contains(x) {
        let i = choose|i: int| 0 <= i < b.len() && b[i] == x;
        assert((a + b)[i + a.len()] == x);
    }
}

proof fn nat_rows(iface: Seq<char>, v: Seq<Ipv4Net>)
    requires
        is_plain(iface),
    ensures
        whole(firewall::nat_rules(iface, v)),
        tame(split::lines_of(firewall::nat_rules(iface, v))),
        forall|m: int, q: int|
            0 <= m < v.len() && 0 <= q < 1 ==> split::lines_of(firewall::nat_rules(iface, v)).contains(
                #[trigger] nat_lines(iface, v[m])[q],
            ),
    decreases v.len(),
{
    no_lines();
    if v.len() > 0 {
        let t = v.drop_last();
        let a = firewall::nat_rules(iface, t);
        let b = firewall::nat_rules_row_text(iface, v.last());
        nat_rows(iface, t);
        nat_is_lines(iface, v.last());
        nat_is_tame(iface, v.last());
        whole_add(a, b);
        tame_add(split::lines_of(a), split::lines_of(b));
        assert forall|m: int, q: int| 0 <= m < v.len() && 0 <= q < 1 implies split::lines_of(
            firewall::nat_rules(iface, v),
        ).contains(#[trigger] nat_lines(iface, v[m])[q]) by {
            contains_add(
                split::lines_of(a),
                split::lines_of(b),
                nat_lines(iface, v[m])[q],
            );
            if m < t.len() {
                assert(t[m] == v[m]);
                assert(split::lines_of(a).contains(nat_lines(iface, t[m])[q]));
            } else {
                assert(split::lines_of(b)[q] == nat_lines(iface, v[m])[q]);
            }
        }
    }
}

proof fn removal_rows(v: Seq<Ipv4Net>)
    ensures
        whole(firewall::accept_removals(v)),
        tame(split::lines_of(firewall::accept_removals(v))),
        forall|m: int, q: int|
            0 <= m < v.len() && 0 <= q < 2 ==> split::lines_of(firewall::accept_removals(v)).contains(
                #[trigger] removal_lines(v[m])[q],
            ),
    decreases v.len(),
{
    no_lines();
    if v.len() > 0 {
        let t = v.drop_last();
        let a = firewall::accept_removals(t);
        let b = firewall::accept_removals_row_text(v.last());
        removal_rows(t);
        removal_is_lines(v.last());
        removal_is_tame(v.last());
        whole_add(a, b);
        tame_add(split::lines_of(a), split::lines_of(b));
        assert forall|m: int, q: int| 0 <= m < v.len() && 0 <= q < 2 implies split::lines_of(
            firewall::accept_removals(v),
        ).contains(#[trigger] removal_lines(v[m])[q]) by {
            contains_add(
                split::lines_of(a),
                split::lines_of(b),
                removal_lines(v[m])[q],
            );
            if m < t.len() {
                assert(t[m] == v[m]);
                assert(split::lines_of(a).contains(removal_lines(t[m])[q]));
            } else {
                assert(split::lines_of(b)[q] == removal_lines(v[m])[q]);
            }
        }
    }
}

proof fn sending_rows(v: Seq<Ipv4Net>)
    ensures
        whole(firewall::intra_rules(v)),
        tame(split::lines_of(firewall::intra_rules(v))),
        forall|m: int, q: int|
            0 <= m < v.len() && 0 <= q < 2 ==> split::lines_of(firewall::intra_rules(v)).contains(
                #[trigger] sending_lines(v[m])[q],
            ),
    decreases v.len(),
{
    no_lines();
    if v.len() > 0 {
        let t = v.drop_last();
        let a = firewall::intra_rules(t);
        let b = firewall::intra_rules_row_text(v.last());
        sending_rows(t);
        sending_is_lines(v.last());
        sending_is_tame(v.last());
        whole_add(a, b);
        tame_add(split::lines_of(a), split::lines_of(b));
        assert forall|m: int, q: int| 0 <= m < v.len() && 0 <= q < 2 implies split::lines_of(
            firewall::intra_rules(v),
        ).contains(#[trigger] sending_lines(v[m])[q]) by {
            contains_add(
                split::lines_of(a),
                split::lines_of(b),
                sending_lines(v[m])[q],
            );
            if m < t.len() {
                assert(t[m] == v[m]);
                assert(split::lines_of(a).contains(sending_lines(t[m])[q]));
            } else {
                assert(split::lines_of(b)[q] == sending_lines(v[m])[q]);
            }
        }
    }
}

proof fn accepting_rows(v: Seq<Ipv4Net>)
    ensures
        whole(firewall::accept_rules(v)),
        tame(split::lines_of(firewall::accept_rules(v))),
        forall|m: int, q: int|
            0 <= m < v.len() && 0 <= q < 2 ==> split::lines_of(firewall::accept_rules(v)).contains(
                #[trigger] accepting_lines(v[m])[q],
            ),
    decreases v.len(),
{
    no_lines();
    if v.len() > 0 {
        let t = v.drop_last();
        let a = firewall::accept_rules(t);
        let b = firewall::accept_rules_row_text(v.last());
        accepting_rows(t);
        accepting_is_lines(v.last());
        accepting_is_tame(v.last());
        whole_add(a, b);
        tame_add(split::lines_of(a), split::lines_of(b));
        assert forall|m: int, q: int| 0 <= m < v.len() && 0 <= q < 2 implies split::lines_of(
            firewall::accept_rules(v),
        ).contains(#[trigger] accepting_lines(v[m])[q]) by {
            contains_add(
                split::lines_of(a),
                split::lines_of(b),
                accepting_lines(v[m])[q],
            );
            if m < t.len() {
                assert(t[m] == v[m]);
                assert(split::lines_of(a).contains(accepting_lines(t[m])[q]));
            } else {
                assert(split::lines_of(b)[q] == accepting_lines(v[m])[q]);
            }
        }
    }
}


/// The lines of a unit that denies by default: those before the denying chain is filled, those
/// that fill it, and those after it.
proof fn denying_unit(iface: Seq<char>, v: Seq<Ipv4Net>) -> (parts: (Seq<Seq<char>>, Seq<Seq<char>>))
    requires
        is_plain(iface),
    ensures
        split::lines_of(firewall::unit_text(iface, v, true)) == parts.0 + chains_lines() + parts.1,
        tame(parts.0),
        tame(parts.1),
        forall|m: int|
            0 <= m < v.len() ==> parts.0.contains(#[trigger] nat_lines(iface, v[m])[0]),
        forall|m: int, q: int|
            0 <= m < v.len() && 0 <= q < 2 ==> parts.0.contains(#[trigger] removal_lines(v[m])[q]),
        forall|m: int, q: int|
            0 <= m < v.len() && 0 <= q < 2 ==> parts.1.contains(#[trigger] sending_lines(v[m])[q]),
        forall|q: int| 0 <= q < 6 ==> parts.1.contains(#[trigger] bridge_lines()[q]),
{
    let h = firewall::head_text(iface);
    let n = firewall::nat_rules(iface, v);
    let c = "# Remove blanket ACCEPT from prior mode-A run.\n"@;
    let r = firewall::accept_removals(v);
    let d = firewall::deny_chains_text();
    let s = firewall::intra_rules(v);
    let b = firewall::bridge_rules_text();
    let t = "\n[Install]\nWantedBy=multi-user.target\n"@;
    head_is_lines(iface);
    head_is_tame(iface);
    nat_rows(iface, v);
    note_is_lines();
    note_is_tame();
    removal_rows(v);
    chains_is_lines();
    sending_rows(v);
    bridge_is_lines();
    bridge_is_tame();
    tail_is_lines();
    tail_is_tame();
    let lh = split::lines_of(h);
    let ln = split::lines_of(n);
    let lc = split::lines_of(c);
    let lr = split::lines_of(r);
    let ls = split::lines_of(s);
    let lb = split::lines_of(b);
    let lt = split::lines_of(t);
    whole_add(h, n);
    whole_add(h + n, c);
    whole_add(h + n + c, r);
    whole_add(h + n + c + r, d);
    whole_add(h + n + c + r + d, s);
    whole_add(h + n + c + r + d + s, b);
    whole_add(h + n + c + r + d + s + b, t);
    let before = lh + ln + lc + lr;
    let after = ls + lb + lt;
    tame_add(lh, ln);
    tame_add(lh + ln, lc);
    tame_add(lh + ln + lc, lr);
    tame_add(ls, lb);
    tame_add(ls + lb, lt);
    assert(firewall::unit_text(iface, v, true) =~= h + n + c + r + d + s + b + t);
    assert(before + chains_lines() + ls + lb + lt =~= before + chains_lines() + after);
    assert forall|m: int| 0 <= m < v.len() implies before.contains(
        #[trigger] nat_lines(iface, v[m])[0],
    ) by {
        let x = nat_lines(iface, v[m])[0];
        contains_add(lh, ln, x);
        contains_add(lh + ln, lc, x);
        contains_add(lh + ln + lc, lr, x);
    }
    assert forall|m: int, q: int| 0 <= m < v.len() && 0 <= q < 2 implies before.contains(
        #[trigger] removal_lines(v[m])[q],
    ) by {
        contains_add(lh + ln + lc, lr, removal_lines(v[m])[q]);
    }
    assert forall|m: int, q: int| 0 <= m < v.len() && 0 <= q < 2 implies after.contains(
        #[trigger] sending_lines(v[m])[q],
    ) by {
        let x = sending_lines(v[m])[q];
        contains_add(ls, lb, x);
        contains_add(ls + lb, lt, x);
    }
    assert forall|q: int| 0 <= q < 6 implies after.contains(#[trigger] bridge_lines()[q]) by {
        let x = bridge_lines()[q];
        assert(lb.contains(x));
        contains_add(ls, lb, x);
        contains_add(ls + lb, lt, x);
    }
    (before, after)
}

/// With default-deny, the denying chain sends what comes to it to the allowed rules first, and
/// drops what these leave; no other rule is added to it, and nothing else in the unit drops.
pub proof fn default_deny_drops_what_no_rule_allows(iface: Seq<char>, subnets: Seq<Ipv4Net>)
    requires
        is_plain(iface),
    ensures
        ({
            let lines = split::lines_of(firewall::unit_text(iface, subnets, true));
            exists|i: int|
                0 <= i && i + 1 < lines.len() && #[trigger] lines[i]
                    == "ExecStart=/usr/sbin/iptables -A COOLIFY-INTRA -j COOLIFY-ALLOW"@ && lines[i
                    + 1] == "ExecStart=/usr/sbin/iptables -A COOLIFY-INTRA -j DROP"@ && forall|k: int|
                    0 <= k < lines.len() && k != i && k != i + 1 ==> adds_no_denial(
                        #[trigger] lines[k],
                    ) && drops_nothing(lines[k])
        }),
{
    let (before, after) = denying_unit(iface, subnets);
    let lines = split::lines_of(firewall::unit_text(iface, subnets, true));
    let i = before.len() as int + 4;
    chains_is_tame();
    assert(lines[i] == chains_lines()[4]);
    assert(lines[i + 1] == chains_lines()[5]);
    assert forall|k: int| 0 <= k < lines.len() && k != i && k != i + 1 implies adds_no_denial(
        #[trigger] lines[k],
    ) && drops_nothing(lines[k]) by {
        if k < before.len() {
            assert(lines[k] == before[k]);
        } else if k < before.len() + 8 {
            let q = k - before.len();
            assert(lines[k] == chains_lines()[q]);
            assert(q == 0 || q == 1 || q == 2 || q == 3 || q == 6 || q == 7);
        } else {
            assert(lines[k] == after[k - before.len() - 8]);
        }
    }
}

/// The rule that sends the traffic to (`-d`) or from (`-s`) a subnet to the denying chain.
pub open spec fn sending_rule(direction: Seq<char>, sn: Ipv4Net) -> Seq<char> {
    "/usr/sbin/iptables -A FORWARD "@ + direction + " "@ + sn.cidr() + " -j COOLIFY-INTRA\""@
}

/// The rule that accepts the traffic to (`-d`) or from (`-s`) a subnet.
pub open spec fn accepting_rule(direction: Seq<char>, sn: Ipv4Net) -> Seq<char> {
    "/usr/sbin/iptables -I FORWARD "@ + direction + " "@ + sn.cidr() + " -j ACCEPT\""@
}

/// Whether a line of a unit ends with this rule.
pub open spec fn runs_rule(unit: Seq<char>, rule: Seq<char>) -> bool {
    exists|k: int|
        0 <= k < split::lines_of(unit).len() && text::has_suffix(
            #[trigger] split::lines_of(unit)[k],
            rule,
        )
}

proof fn found_rule(unit: Seq<char>, line: Seq<char>, rule: Seq<char>)
    requires
        split::lines_of(unit).contains(line),
        text::has_suffix(line, rule),
    ensures
        runs_rule(unit, rule),
{
    let k = choose|k: int| 0 <= k < split::lines_of(unit).len() && split::lines_of(unit)[k] == line;
    assert(text::has_suffix(split::lines_of(unit)[k], rule));
}

proof fn suffix_of(a: Seq<char>, b: Seq<char>)
    ensures
        text::has_suffix(a + b, b),
{
    assert((a + b).subrange(a.len() as int, (a + b).len() as int) =~= b);
}

proof fn sending_lines_end(sn: Ipv4Net)
    ensures
        text::has_suffix(sending_lines(sn)[0], sending_rule("-d"@, sn)),
        text::has_suffix(sending_lines(sn)[1], sending_rule("-s"@, sn)),
{
    let c = sn.cidr();
    let d = sending_lines(sn)[0];
    let s = sending_lines(sn)[1];
    assert(" -j COOLIFY-INTRA 2>/dev/null || /usr/sbin/iptables -A FORWARD -d "@
        =~= " -j COOLIFY-INTRA 2>/dev/null || "@ + ("/usr/sbin/iptables -A FORWARD "@ + "-d"@
        + " "@)) by {
        reveal_strlit(" -j COOLIFY-INTRA 2>/dev/null || /usr/sbin/iptables -A FORWARD -d ");
        reveal_strlit(" -j COOLIFY-INTRA 2>/dev/null || ");
        reveal_strlit("/usr/sbin/iptables -A FORWARD ");
        reveal_strlit("-d");
        reveal_strlit(" ");
    }
    assert(" -j COOLIFY-INTRA 2>/dev/null || /usr/sbin/iptables -A FORWARD -s "@
        =~= " -j COOLIFY-INTRA 2>/dev/null || "@ + ("/usr/sbin/iptables -A FORWARD "@ + "-s"@
        + " "@)) by {
        reveal_strlit(" -j COOLIFY-INTRA 2>/dev/null || /usr/sbin/iptables -A FORWARD -s ");
        reveal_strlit(" -j COOLIFY-INTRA 2>/dev/null || ");
        reveal_strlit("/usr/sbin/iptables -A FORWARD ");
        reveal_strlit("-s");
        reveal_strlit(" ");
    }
    let hd = "ExecStart=/bin/sh -c \"/usr/sbin/iptables -C FORWARD -d "@ + c
        + " -j COOLIFY-INTRA 2>/dev/null || "@;
    let hs = "ExecStart=/bin/sh -c \"/usr/sbin/iptables -C FORWARD -s "@ + c
        + " -j COOLIFY-INTRA 2>/dev/null || "@;
    assert(d =~= hd + sending_rule("-d"@, sn));
    assert(s =~= hs + sending_rule("-s"@, sn));
    suffix_of(hd, sending_rule("-d"@, sn));
    suffix_of(hs, sending_rule("-s"@, sn));
}

/// With default-deny, the traffic from and to each subnet of the node is sent to the denying
/// chain, and what an earlier unit accepted of it is not accepted any more.
pub proof fn default_deny_covers_each_subnet(iface: Seq<char>, subnets: Seq<Ipv4Net>, m: int)
    requires
        is_plain(iface),
        0 <= m < subnets.len(),
    ensures
        ({
            let unit = firewall::unit_text(iface, subnets, true);
            &&& runs_rule(unit, sending_rule("-s"@, subnets[m]))
            &&& runs_rule(unit, sending_rule("-d"@, subnets[m]))
            &&& split::lines_of(unit).contains(
                "ExecStart=/bin/sh -c \"/usr/sbin/iptables -D FORWARD -s "@ + subnets[m].cidr()
                    + " -j ACCEPT 2>/dev/null || true\""@,
            )
            &&& split::lines_of(unit).contains(
                "ExecStart=/bin/sh -c \"/usr/sbin/iptables -D FORWARD -d "@ + subnets[m].cidr()
                    + " -j ACCEPT 2>/dev/null || true\""@,
            )
        }),
{
    let unit = firewall::unit_text(iface, subnets, true);
    let (before, after) = denying_unit(iface, subnets);
    let sn = subnets[m];
    let mid = chains_lines();
    let d = sending_lines(sn)[0];
    let s = sending_lines(sn)[1];
    contains_add(before, mid, removal_lines(sn)[0]);
    contains_add(before, mid, removal_lines(sn)[1]);
    contains_add(before + mid, after, removal_lines(sn)[0]);
    contains_add(before + mid, after, removal_lines(sn)[1]);
    contains_add(before + mid, after, d);
    contains_add(before + mid, after, s);
    sending_lines_end(sn);
    found_rule(unit, d, sending_rule("-d"@, sn));
    found_rule(unit, s, sending_rule("-s"@, sn));
}

/// With default-deny, the bridge table is loaded from its file.
pub proof fn default_deny_loads_the_bridge_table(iface: Seq<char>, subnets: Seq<Ipv4Net>)
    requires
        is_plain(iface),
    ensures
        split::lines_of(firewall::unit_text(iface, subnets, true)).contains(
            "ExecStart=/bin/sh -c \"nft -f /etc/coolify/bridge-fw.nft\""@,
        ),
{
    let (before, after) = denying_unit(iface, subnets);
    contains_add(before + chains_lines(), after, bridge_lines()[4]);
}

/// The lines of a unit that does not deny by default.
proof fn accepting_unit(iface: Seq<char>, v: Seq<Ipv4Net>)
    requires
        is_plain(iface),
    ensures
        tame(split::lines_of(firewall::unit_text(iface, v, false))),
        forall|m: int|
            0 <= m < v.len() ==> split::lines_of(firewall::unit_text(iface, v, false)).contains(
                #[trigger] nat_lines(iface, v[m])[0],
            ),
        forall|m: int, q: int|
            0 <= m < v.len() && 0 <= q < 2 ==> split::lines_of(
                firewall::unit_text(iface, v, false),
            ).contains(#[trigger] accepting_lines(v[m])[q]),
        forall|q: int|
            0 <= q < 4 ==> split::lines_of(firewall::unit_text(iface, v, false)).contains(
                #[trigger] teardown_lines()[q],
            ),
{
    let h = firewall::head_text(iface);
    let n = firewall::nat_rules(iface, v);
    let d = firewall::deny_teardown_text();
    let s = firewall::accept_rules(v);
    let t = "\n[Install]\nWantedBy=multi-user.target\n"@;
    head_is_lines(iface);
    head_is_tame(iface);
    nat_rows(iface, v);
    teardown_is_lines();
    teardown_is_tame();
    accepting_rows(v);
    tail_is_lines();
    tail_is_tame();
    let lh = split::lines_of(h);
    let ln = split::lines_of(n);
    let ld = split::lines_of(d);
    let ls = split::lines_of(s);
    let lt = split::lines_of(t);
    whole_add(h, n);
    whole_add(h + n, d);
    whole_add(h + n + d, s);
    whole_add(h + n + d + s, t);
    tame_add(lh, ln);
    tame_add(lh + ln, ld);
    tame_add(lh + ln + ld, ls);
    tame_add(lh + ln + ld + ls, lt);
    assert(firewall::unit_text(iface, v, false) =~= h + n + d + s + t);
    let all = lh + ln + ld + ls + lt;
    assert forall|m: int| 0 <= m < v.len() implies all.contains(
        #[trigger] nat_lines(iface, v[m])[0],
    ) by {
        let x = nat_lines(iface, v[m])[0];
        contains_add(lh, ln, x);
        contains_add(lh + ln, ld, x);
        contains_add(lh + ln + ld, ls, x);
        contains_add(lh + ln + ld + ls, lt, x);
    }
    assert forall|m: int, q: int| 0 <= m < v.len() && 0 <= q < 2 implies all.contains(
        #[trigger] accepting_lines(v[m])[q],
    ) by {
        let x = accepting_lines(v[m])[q];
        contains_add(lh + ln + ld, ls, x);
        contains_add(lh + ln + ld + ls, lt, x);
    }
    assert forall|q: int| 0 <= q < 4 implies all.contains(#[trigger] teardown_lines()[q]) by {
        let x = teardown_lines()[q];
        assert(ld.contains(x));
        contains_add(lh + ln, ld, x);
        contains_add(lh + ln + ld, ls, x);
        contains_add(lh + ln + ld + ls, lt, x);
    }
}

/// Without default-deny nothing is dropped: no rule is added to the denying chain, which is
/// emptied and removed, and the traffic from and to each subnet of the node is accepted.
pub proof fn without_default_deny_nothing_is_dropped(iface: Seq<char>, subnets: Seq<Ipv4Net>)
    requires
        is_plain(iface),
    ensures
        ({
            let unit = firewall::unit_text(iface, subnets, false);
            let lines = split::lines_of(unit);
            &&& forall|k: int|
                0 <= k < lines.len() ==> adds_no_denial(#[trigger] lines[k]) && drops_nothing(
                    lines[k],
                )
            &&& lines.contains(
                "ExecStart=/bin/sh -c \"/usr/sbin/iptables -F COOLIFY-INTRA 2>/dev/null || true\""@,
            )
            &&& lines.contains(
                "ExecStart=/bin/sh -c \"/usr/sbin/iptables -X COOLIFY-INTRA 2>/dev/null || true\""@,
            )
            &&& forall|m: int|
                0 <= m < subnets.len() ==> runs_rule(
                    unit,
                    #[trigger] accepting_rule("-s"@, subnets[m]),
                ) && runs_rule(unit, accepting_rule("-d"@, subnets[m]))
        }),
{
    let unit = firewall::unit_text(iface, subnets, false);
    accepting_unit(iface, subnets);
    assert(split::lines_of(unit).contains(teardown_lines()[1]));
    assert(split::lines_of(unit).contains(teardown_lines()[2]));
    assert forall|m: int| 0 <= m < subnets.len() implies runs_rule(
        unit,
        #[trigger] accepting_rule("-s"@, subnets[m]),
    ) && runs_rule(unit, accepting_rule("-d"@, subnets[m])) by {
        let sn = subnets[m];
        let c = sn.cidr();
        let s = accepting_lines(sn)[0];
        let d = accepting_lines(sn)[1];
        assert(" -j ACCEPT 2>/dev/null || /usr/sbin/iptables -I FORWARD -d "@
            =~= " -j ACCEPT 2>/dev/null || "@ + ("/usr/sbin/iptables -I FORWARD "@ + "-d"@ + " "@))
            by {
            reveal_strlit(" -j ACCEPT 2>/dev/null || /usr/sbin/iptables -I FORWARD -d ");
            reveal_strlit(" -j ACCEPT 2>/dev/null || ");
            reveal_strlit("/usr/sbin/iptables -I FORWARD ");
            reveal_strlit("-d");
            reveal_strlit(" ");
        }
        assert(" -j ACCEPT 2>/dev/null || /usr/sbin/iptables -I FORWARD -s "@
            =~= " -j ACCEPT 2>/dev/null || "@ + ("/usr/sbin/iptables -I FORWARD "@ + "-s"@ + " "@))
            by {
            reveal_strlit(" -j ACCEPT 2>/dev/null || /usr/sbin/iptables -I FORWARD -s ");
            reveal_strlit(" -j ACCEPT 2>/dev/null || ");
            reveal_strlit("/usr/sbin/iptables -I FORWARD ");
            reveal_strlit("-s");
            reveal_strlit(" ");
        }
        let hd = "ExecStart=/bin/sh -c \"/usr/sbin/iptables -C FORWARD -d "@ + c
            + " -j ACCEPT 2>/dev/null || "@;
        let hs = "ExecStart=/bin/sh -c \"/usr/sbin/iptables -C FORWARD -s "@ + c
            + " -j ACCEPT 2>/dev/null || "@;
        assert(d =~= hd + accepting_rule("-d"@, sn));
        assert(s =~= hs + accepting_rule("-s"@, sn));
        suffix_of(hd, accepting_rule("-d"@, sn));
        suffix_of(hs, accepting_rule("-s"@, sn));
        found_rule(unit, d, accepting_rule("-d"@, sn));
        found_rule(unit, s, accepting_rule("-s"@, sn));
    }
}

/// The subnets of a node leave through the interface as they are, with default-deny and without.
pub proof fn subnets_leave_untranslated(
    iface: Seq<char>,
    subnets: Seq<Ipv4Net>,
    deny: bool,
    m: int,
)
    requires
        is_plain(iface),
        0 <= m < subnets.len(),
    ensures
        runs_rule(
            firewall::unit_text(iface, subnets, deny),
            "/usr/sbin/iptables -t nat -I POSTROUTING -s "@ + subnets[m].cidr() + " -o "@ + iface
                + " -j RETURN\""@,
        ),
{
    let unit = firewall::unit_text(iface, subnets, deny);
    let c = subnets[m].cidr();
    let line = nat_lines(iface, subnets[m])[0];
    let rule = "/usr/sbin/iptables -t nat -I POSTROUTING -s "@ + c + " -o "@ + iface
        + " -j RETURN\""@;
    if deny {
        let (before, after) = denying_unit(iface, subnets);
        contains_add(before, chains_lines(), line);
        contains_add(before + chains_lines(), after, line);
    } else {
        accepting_unit(iface, subnets);
    }
    assert(" -j RETURN 2>/dev/null || /usr/sbin/iptables -t nat -I POSTROUTING -s "@
        =~= " -j RETURN 2>/dev/null || "@ + "/usr/sbin/iptables -t nat -I POSTROUTING -s "@) by {
        reveal_strlit(" -j RETURN 2>/dev/null || /usr/sbin/iptables -t nat -I POSTROUTING -s ");
        reveal_strlit(" -j RETURN 2>/dev/null || ");
        reveal_strlit("/usr/sbin/iptables -t nat -I POSTROUTING -s ");
    }
    let head = "ExecStart=/bin/sh -c \"/usr/sbin/iptables -t nat -C POSTROUTING -s "@ + c + " -o "@
        + iface + " -j RETURN 2>/dev/null || "@;
    assert(line =~= head + rule);
    suffix_of(head, rule);
    found_rule(unit, line, rule);
}

/// The chains are filled anew, let through what was let through before, and what belongs to a connection
/// that is under way.
pub proof fn chains_keep_what_is_allowed()
    ensures
        text::has_text(firewall::deny_chains_text(), "ExecStart=/usr/sbin/iptables -F COOLIFY-INTRA\nExecStart=/usr/sbin/iptables -A COOLIFY-INTRA -j COOLIFY-ALLOW\nExecStart=/usr/sbin/iptables -A COOLIFY-INTRA -j DROP\n"@),
        text::has_text(firewall::deny_chains_text(), "ExecStart=/bin/sh -c \"[ -s /etc/coolify/allow.rules ] && /usr/sbin/iptables -F COOLIFY-ALLOW && /usr/sbin/iptables-restore --noflush < /etc/coolify/allow.rules || true\"\n"@),
        text::has_text(firewall::deny_chains_text(), "-I FORWARD 1 -m conntrack --ctstate ESTABLISHED,RELATED -j ACCEPT\"\n"@),
        text::has_text(firewall::bridge_rules_text(), "ExecStart=/bin/sh -c \"nft -f /etc/coolify/bridge-fw.nft\"\nExecStart=/bin/sh -c \"[ -s /etc/coolify/allow.nft ] && nft -f /etc/coolify/allow.nft || true\"\n"@),
        text::has_text(firewall::deny_teardown_text(), "ExecStart=/bin/sh -c \"nft delete table bridge coolify_bridge 2>/dev/null || true\"\n"@),
{
    assert(text::has_text(firewall::deny_chains_text(), "ExecStart=/usr/sbin/iptables -F COOLIFY-INTRA\nExecStart=/usr/sbin/iptables -A COOLIFY-INTRA -j COOLIFY-ALLOW\nExecStart=/usr/sbin/iptables -A COOLIFY-INTRA -j DROP\n"@)) by {
        assert("\nExecStart=/bin/sh -c \"/usr/sbin/iptables -N COOLIFY-ALLOW 2>/dev/null || true\"\nExecStart=/bin/sh -c \"/usr/sbin/iptables -N COOLIFY-INTRA 2>/dev/null || true\"\nExecStart=/usr/sbin/iptables -F COOLIFY-INTRA\nExecStart=/usr/sbin/iptables -A COOLIFY-INTRA -j COOLIFY-ALLOW\nExecStart=/usr/sbin/iptables -A COOLIFY-INTRA -j DROP\nExecStart=/bin/sh -c \"[ -s /etc/coolify/allow.rules ] && /usr/sbin/iptables -F COOLIFY-ALLOW && /usr/sbin/iptables-restore --noflush < /etc/coolify/allow.rules || true\"\nExecStart=/bin/sh -c \"/usr/sbin/iptables -C FORWARD -m conntrack --ctstate ESTABLISHED,RELATED -j ACCEPT 2>/dev/null || /usr/sbin/iptables -I FORWARD 1 -m conntrack --ctstate ESTABLISHED,RELATED -j ACCEPT\"\n"@ =~= "\nExecStart=/bin/sh -c \"/usr/sbin/iptables -N COOLIFY-ALLOW 2>/dev/null || true\"\nExecStart=/bin/sh -c \"/usr/sbin/iptables -N COOLIFY-INTRA 2>/dev/null || true\"\n"@ + "ExecStart=/usr/sbin/iptables -F COOLIFY-INTRA\nExecStart=/usr/sbin/iptables -A COOLIFY-INTRA -j COOLIFY-ALLOW\nExecStart=/usr/sbin/iptables -A COOLIFY-INTRA -j DROP\n"@ + "ExecStart=/bin/sh -c \"[ -s /etc/coolify/allow.rules ] && /usr/sbin/iptables -F COOLIFY-ALLOW && /usr/sbin/iptables-restore --noflush < /etc/coolify/allow.rules || true\"\nExecStart=/bin/sh -c \"/usr/sbin/iptables -C FORWARD -m conntrack --ctstate ESTABLISHED,RELATED -j ACCEPT 2>/dev/null || /usr/sbin/iptables -I FORWARD 1 -m conntrack --ctstate ESTABLISHED,RELATED -j ACCEPT\"\n"@) by {
            reveal_strlit("\nExecStart=/bin/sh -c \"/usr/sbin/iptables -N COOLIFY-ALLOW 2>/dev/null || true\"\nExecStart=/bin/sh -c \"/usr/sbin/iptables -N COOLIFY-INTRA 2>/dev/null || true\"\nExecStart=/usr/sbin/iptables -F COOLIFY-INTRA\nExecStart=/usr/sbin/iptables -A COOLIFY-INTRA -j COOLIFY-ALLOW\nExecStart=/usr/sbin/iptables -A COOLIFY-INTRA -j DROP\nExecStart=/bin/sh -c \"[ -s /etc/coolify/allow.rules ] && /usr/sbin/iptables -F COOLIFY-ALLOW && /usr/sbin/iptables-restore --noflush < /etc/coolify/allow.rules || true\"\nExecStart=/bin/sh -c \"/usr/sbin/iptables -C FORWARD -m conntrack --ctstate ESTABLISHED,RELATED -j ACCEPT 2>/dev/null || /usr/sbin/iptables -I FORWARD 1 -m conntrack --ctstate ESTABLISHED,RELATED -j ACCEPT\"\n");
            reveal_strlit("\nExecStart=/bin/sh -c \"/usr/sbin/iptables -N COOLIFY-ALLOW 2>/dev/null || true\"\nExecStart=/bin/sh -c \"/usr/sbin/iptables -N COOLIFY-INTRA 2>/dev/null || true\"\n");
            reveal_strlit("ExecStart=/usr/sbin/iptables -F COOLIFY-INTRA\nExecStart=/usr/sbin/iptables -A COOLIFY-INTRA -j COOLIFY-ALLOW\nExecStart=/usr/sbin/iptables -A COOLIFY-INTRA -j DROP\n");
            reveal_strlit("ExecStart=/bin/sh -c \"[ -s /etc/coolify/allow.rules ] && /usr/sbin/iptables -F COOLIFY-ALLOW && /usr/sbin/iptables-restore --noflush < /etc/coolify/allow.rules || true\"\nExecStart=/bin/sh -c \"/usr/sbin/iptables -C FORWARD -m conntrack --ctstate ESTABLISHED,RELATED -j ACCEPT 2>/dev/null || /usr/sbin/iptables -I FORWARD 1 -m conntrack --ctstate ESTABLISHED,RELATED -j ACCEPT\"\n");
        }
        let x = "\nExecStart=/bin/sh -c \"/usr/sbin/iptables -N COOLIFY-ALLOW 2>/dev/null || true\"\nExecStart=/bin/sh -c \"/usr/sbin/iptables -N COOLIFY-INTRA 2>/dev/null || true\"\n"@;
        let m = "ExecStart=/usr/sbin/iptables -F COOLIFY-INTRA\nExecStart=/usr/sbin/iptables -A COOLIFY-INTRA -j COOLIFY-ALLOW\nExecStart=/usr/sbin/iptables -A COOLIFY-INTRA -j DROP\n"@;
        let y = "ExecStart=/bin/sh -c \"[ -s /etc/coolify/allow.rules ] && /usr/sbin/iptables -F COOLIFY-ALLOW && /usr/sbin/iptables-restore --noflush < /etc/coolify/allow.rules || true\"\nExecStart=/bin/sh -c \"/usr/sbin/iptables -C FORWARD -m conntrack --ctstate ESTABLISHED,RELATED -j ACCEPT 2>/dev/null || /usr/sbin/iptables -I FORWARD 1 -m conntrack --ctstate ESTABLISHED,RELATED -j ACCEPT\"\n"@;
        assert(firewall::deny_chains_text() =~= x + m + y);
        stands_between(x, m, y);
    }
    assert(text::has_text(firewall::deny_chains_text(), "ExecStart=/bin/sh -c \"[ -s /etc/coolify/allow.rules ] && /usr/sbin/iptables -F COOLIFY-ALLOW && /usr/sbin/iptables-restore --noflush < /etc/coolify/allow.rules || true\"\n"@)) by {
        assert("\nExecStart=/bin/sh -c \"/usr/sbin/iptables -N COOLIFY-ALLOW 2>/dev/null || true\"\nExecStart=/bin/sh -c \"/usr/sbin/iptables -N COOLIFY-INTRA 2>/dev/null || true\"\nExecStart=/usr/sbin/iptables -F COOLIFY-INTRA\nExecStart=/usr/sbin/iptables -A COOLIFY-INTRA -j COOLIFY-ALLOW\nExecStart=/usr/sbin/iptables -A COOLIFY-INTRA -j DROP\nExecStart=/bin/sh -c \"[ -s /etc/coolify/allow.rules ] && /usr/sbin/iptables -F COOLIFY-ALLOW && /usr/sbin/iptables-restore --noflush < /etc/coolify/allow.rules || true\"\nExecStart=/bin/sh -c \"/usr/sbin/iptables -C FORWARD -m conntrack --ctstate ESTABLISHED,RELATED -j ACCEPT 2>/dev/null || /usr/sbin/iptables -I FORWARD 1 -m conntrack --ctstate ESTABLISHED,RELATED -j ACCEPT\"\n"@ =~= "\nExecStart=/bin/sh -c \"/usr/sbin/iptables -N COOLIFY-ALLOW 2>/dev/null || true\"\nExecStart=/bin/sh -c \"/usr/sbin/iptables -N COOLIFY-INTRA 2>/dev/null || true\"\nExecStart=/usr/sbin/iptables -F COOLIFY-INTRA\nExecStart=/usr/sbin/iptables -A COOLIFY-INTRA -j COOLIFY-ALLOW\nExecStart=/usr/sbin/iptables -A COOLIFY-INTRA -j DROP\n"@ + "ExecStart=/bin/sh -c \"[ -s /etc/coolify/allow.rules ] && /usr/sbin/iptables -F COOLIFY-ALLOW && /usr/sbin/iptables-restore --noflush < /etc/coolify/allow.rules || true\"\n"@ + "ExecStart=/bin/sh -c \"/usr/sbin/iptables -C FORWARD -m conntrack --ctstate ESTABLISHED,RELATED -j ACCEPT 2>/dev/null || /usr/sbin/iptables -I FORWARD 1 -m conntrack --ctstate ESTABLISHED,RELATED -j ACCEPT\"\n"@) by {
            reveal_strlit("\nExecStart=/bin/sh -c \"/usr/sbin/iptables -N COOLIFY-ALLOW 2>/dev/null || true\"\nExecStart=/bin/sh -c \"/usr/sbin/iptables -N COOLIFY-INTRA 2>/dev/null || true\"\nExecStart=/usr/sbin/iptables -F COOLIFY-INTRA\nExecStart=/usr/sbin/iptables -A COOLIFY-INTRA -j COOLIFY-ALLOW\nExecStart=/usr/sbin/iptables -A COOLIFY-INTRA -j DROP\nExecStart=/bin/sh -c \"[ -s /etc/coolify/allow.rules ] && /usr/sbin/iptables -F COOLIFY-ALLOW && /usr/sbin/iptables-restore --noflush < /etc/coolify/allow.rules || true\"\nExecStart=/bin/sh -c \"/usr/sbin/iptables -C FORWARD -m conntrack --ctstate ESTABLISHED,RELATED -j ACCEPT 2>/dev/null || /usr/sbin/iptables -I FORWARD 1 -m conntrack --ctstate ESTABLISHED,RELATED -j ACCEPT\"\n");
            reveal_strlit("\nExecStart=/bin/sh -c \"/usr/sbin/iptables -N COOLIFY-ALLOW 2>/dev/null || true\"\nExecStart=/bin/sh -c \"/usr/sbin/iptables -N COOLIFY-INTRA 2>/dev/null || true\"\nExecStart=/usr/sbin/iptables -F COOLIFY-INTRA\nExecStart=/usr/sbin/iptables -A COOLIFY-INTRA -j COOLIFY-ALLOW\nExecStart=/usr/sbin/iptables -A COOLIFY-INTRA -j DROP\n");
            reveal_strlit("ExecStart=/bin/sh -c \"[ -s /etc/coolify/allow.rules ] && /usr/sbin/iptables -F COOLIFY-ALLOW && /usr/sbin/iptables-restore --noflush < /etc/coolify/allow.rules || true\"\n");
            reveal_strlit("ExecStart=/bin/sh -c \"/usr/sbin/iptables -C FORWARD -m conntrack --ctstate ESTABLISHED,RELATED -j ACCEPT 2>/dev/null || /usr/sbin/iptables -I FORWARD 1 -m conntrack --ctstate ESTABLISHED,RELATED -j ACCEPT\"\n");
        }
        let x = "\nExecStart=/bin/sh -c \"/usr/sbin/iptables -N COOLIFY-ALLOW 2>/dev/null || true\"\nExecStart=/bin/sh -c \"/usr/sbin/iptables -N COOLIFY-INTRA 2>/dev/null || true\"\nExecStart=/usr/sbin/iptables -F COOLIFY-INTRA\nExecStart=/usr/sbin/iptables -A COOLIFY-INTRA -j COOLIFY-ALLOW\nExecStart=/usr/sbin/iptables -A COOLIFY-INTRA -j DROP\n"@;
        let m = "ExecStart=/bin/sh -c \"[ -s /etc/coolify/allow.rules ] && /usr/sbin/iptables -F COOLIFY-ALLOW && /usr/sbin/iptables-restore --noflush < /etc/coolify/allow.rules || true\"\n"@;
        let y = "ExecStart=/bin/sh -c \"/usr/sbin/iptables -C FORWARD -m conntrack --ctstate ESTABLISHED,RELATED -j ACCEPT 2>/dev/null || /usr/sbin/iptables -I FORWARD 1 -m conntrack --ctstate ESTABLISHED,RELATED -j ACCEPT\"\n"@;
        assert(firewall::deny_chains_text() =~= x + m + y);
        stands_between(x, m, y);
    }
    assert(text::has_text(firewall::deny_chains_text(), "-I FORWARD 1 -m conntrack --ctstate ESTABLISHED,RELATED -j ACCEPT\"\n"@)) by {
        assert("\nExecStart=/bin/sh -c \"/usr/sbin/iptables -N COOLIFY-ALLOW 2>/dev/null || true\"\nExecStart=/bin/sh -c \"/usr/sbin/iptables -N COOLIFY-INTRA 2>/dev/null || true\"\nExecStart=/usr/sbin/iptables -F COOLIFY-INTRA\nExecStart=/usr/sbin/iptables -A COOLIFY-INTRA -j COOLIFY-ALLOW\nExecStart=/usr/sbin/iptables -A COOLIFY-INTRA -j DROP\nExecStart=/bin/sh -c \"[ -s /etc/coolify/allow.rules ] && /usr/sbin/iptables -F COOLIFY-ALLOW && /usr/sbin/iptables-restore --noflush < /etc/coolify/allow.rules || true\"\nExecStart=/bin/sh -c \"/usr/sbin/iptables -C FORWARD -m conntrack --ctstate ESTABLISHED,RELATED -j ACCEPT 2>/dev/null || /usr/sbin/iptables -I FORWARD 1 -m conntrack --ctstate ESTABLISHED,RELATED -j ACCEPT\"\n"@ =~= "\nExecStart=/bin/sh -c \"/usr/sbin/iptables -N COOLIFY-ALLOW 2>/dev/null || true\"\nExecStart=/bin/sh -c \"/usr/sbin/iptables -N COOLIFY-INTRA 2>/dev/null || true\"\nExecStart=/usr/sbin/iptables -F COOLIFY-INTRA\nExecStart=/usr/sbin/iptables -A COOLIFY-INTRA -j COOLIFY-ALLOW\nExecStart=/usr/sbin/iptables -A COOLIFY-INTRA -j DROP\nExecStart=/bin/sh -c \"[ -s /etc/coolify/allow.rules ] && /usr/sbin/iptables -F COOLIFY-ALLOW && /usr/sbin/iptables-restore --noflush < /etc/coolify/allow.rules || true\"\nExecStart=/bin/sh -c \"/usr/sbin/iptables -C FORWARD -m conntrack --ctstate ESTABLISHED,RELATED -j ACCEPT 2>/dev/null || /usr/sbin/iptables "@ + "-I FORWARD 1 -m conntrack --ctstate ESTABLISHED,RELATED -j ACCEPT\"\n"@) by {
            reveal_strlit("\nExecStart=/bin/sh -c \"/usr/sbin/iptables -N COOLIFY-ALLOW 2>/dev/null || true\"\nExecStart=/bin/sh -c \"/usr/sbin/iptables -N COOLIFY-INTRA 2>/dev/null || true\"\nExecStart=/usr/sbin/iptables -F COOLIFY-INTRA\nExecStart=/usr/sbin/iptables -A COOLIFY-INTRA -j COOLIFY-ALLOW\nExecStart=/usr/sbin/iptables -A COOLIFY-INTRA -j DROP\nExecStart=/bin/sh -c \"[ -s /etc/coolify/allow.rules ] && /usr/sbin/iptables -F COOLIFY-ALLOW && /usr/sbin/iptables-restore --noflush < /etc/coolify/allow.rules || true\"\nExecStart=/bin/sh -c \"/usr/sbin/iptables -C FORWARD -m conntrack --ctstate ESTABLISHED,RELATED -j ACCEPT 2>/dev/null || /usr/sbin/iptables -I FORWARD 1 -m conntrack --ctstate ESTABLISHED,RELATED -j ACCEPT\"\n");
            reveal_strlit("\nExecStart=/bin/sh -c \"/usr/sbin/iptables -N COOLIFY-ALLOW 2>/dev/null || true\"\nExecStart=/bin/sh -c \"/usr/sbin/iptables -N COOLIFY-INTRA 2>/dev/null || true\"\nExecStart=/usr/sbin/iptables -F COOLIFY-INTRA\nExecStart=/usr/sbin/iptables -A COOLIFY-INTRA -j COOLIFY-ALLOW\nExecStart=/usr/sbin/iptables -A COOLIFY-INTRA -j DROP\nExecStart=/bin/sh -c \"[ -s /etc/coolify/allow.rules ] && /usr/sbin/iptables -F COOLIFY-ALLOW && /usr/sbin/iptables-restore --noflush < /etc/coolify/allow.rules || true\"\nExecStart=/bin/sh -c \"/usr/sbin/iptables -C FORWARD -m conntrack --ctstate ESTABLISHED,RELATED -j ACCEPT 2>/dev/null || /usr/sbin/iptables ");
            reveal_strlit("-I FORWARD 1 -m conntrack --ctstate ESTABLISHED,RELATED -j ACCEPT\"\n");
        }
        let x = "\nExecStart=/bin/sh -c \"/usr/sbin/iptables -N COOLIFY-ALLOW 2>/dev/null || true\"\nExecStart=/bin/sh -c \"/usr/sbin/iptables -N COOLIFY-INTRA 2>/dev/null || true\"\nExecStart=/usr/sbin/iptables -F COOLIFY-INTRA\nExecStart=/usr/sbin/iptables -A COOLIFY-INTRA -j COOLIFY-ALLOW\nExecStart=/usr/sbin/iptables -A COOLIFY-INTRA -j DROP\nExecStart=/bin/sh -c \"[ -s /etc/coolify/allow.rules ] && /usr/sbin/iptables -F COOLIFY-ALLOW && /usr/sbin/iptables-restore --noflush < /etc/coolify/allow.rules || true\"\nExecStart=/bin/sh -c \"/usr/sbin/iptables -C FORWARD -m conntrack --ctstate ESTABLISHED,RELATED -j ACCEPT 2>/dev/null || /usr/sbin/iptables "@;
        let m = "-I FORWARD 1 -m conntrack --ctstate ESTABLISHED,RELATED -j ACCEPT\"\n"@;
        let y = Seq::<char>::empty();
        assert(firewall::deny_chains_text() =~= x + m + y);
        stands_between(x, m, y);
    }
    assert(text::has_text(firewall::bridge_rules_text(), "ExecStart=/bin/sh -c \"nft -f /etc/coolify/bridge-fw.nft\"\nExecStart=/bin/sh -c \"[ -s /etc/coolify/allow.nft ] && nft -f /etc/coolify/allow.nft || true\"\n"@)) by {
        assert("ExecStart=/bin/sh -c \"nft list table bridge coolify_bridge >/dev/null 2>&1 || nft add table bridge coolify_bridge\"\nExecStart=/bin/sh -c \"nft add chain bridge coolify_bridge coolify_allow '{ }' 2>/dev/null || true\"\nExecStart=/bin/sh -c \"nft delete chain bridge coolify_bridge forward 2>/dev/null || true\"\nExecStart=/bin/sh -c \"nft delete chain bridge coolify_bridge coolify_intra 2>/dev/null || true\"\nExecStart=/bin/sh -c \"nft -f /etc/coolify/bridge-fw.nft\"\nExecStart=/bin/sh -c \"[ -s /etc/coolify/allow.nft ] && nft -f /etc/coolify/allow.nft || true\"\n"@ =~= "ExecStart=/bin/sh -c \"nft list table bridge coolify_bridge >/dev/null 2>&1 || nft add table bridge coolify_bridge\"\nExecStart=/bin/sh -c \"nft add chain bridge coolify_bridge coolify_allow '{ }' 2>/dev/null || true\"\nExecStart=/bin/sh -c \"nft delete chain bridge coolify_bridge forward 2>/dev/null || true\"\nExecStart=/bin/sh -c \"nft delete chain bridge coolify_bridge coolify_intra 2>/dev/null || true\"\n"@ + "ExecStart=/bin/sh -c \"nft -f /etc/coolify/bridge-fw.nft\"\nExecStart=/bin/sh -c \"[ -s /etc/coolify/allow.nft ] && nft -f /etc/coolify/allow.nft || true\"\n"@) by {
            reveal_strlit("ExecStart=/bin/sh -c \"nft list table bridge coolify_bridge >/dev/null 2>&1 || nft add table bridge coolify_bridge\"\nExecStart=/bin/sh -c \"nft add chain bridge coolify_bridge coolify_allow '{ }' 2>/dev/null || true\"\nExecStart=/bin/sh -c \"nft delete chain bridge coolify_bridge forward 2>/dev/null || true\"\nExecStart=/bin/sh -c \"nft delete chain bridge coolify_bridge coolify_intra 2>/dev/null || true\"\nExecStart=/bin/sh -c \"nft -f /etc/coolify/bridge-fw.nft\"\nExecStart=/bin/sh -c \"[ -s /etc/coolify/allow.nft ] && nft -f /etc/coolify/allow.nft || true\"\n");
            reveal_strlit("ExecStart=/bin/sh -c \"nft list table bridge coolify_bridge >/dev/null 2>&1 || nft add table bridge coolify_bridge\"\nExecStart=/bin/sh -c \"nft add chain bridge coolify_bridge coolify_allow '{ }' 2>/dev/null || true\"\nExecStart=/bin/sh -c \"nft delete chain bridge coolify_bridge forward 2>/dev/null || true\"\nExecStart=/bin/sh -c \"nft delete chain bridge coolify_bridge coolify_intra 2>/dev/null || true\"\n");
            reveal_strlit("ExecStart=/bin/sh -c \"nft -f /etc/coolify/bridge-fw.nft\"\nExecStart=/bin/sh -c \"[ -s /etc/coolify/allow.nft ] && nft -f /etc/coolify/allow.nft || true\"\n");
        }
        let x = "ExecStart=/bin/sh -c \"nft list table bridge coolify_bridge >/dev/null 2>&1 || nft add table bridge coolify_bridge\"\nExecStart=/bin/sh -c \"nft add chain bridge coolify_bridge coolify_allow '{ }' 2>/dev/null || true\"\nExecStart=/bin/sh -c \"nft delete chain bridge coolify_bridge forward 2>/dev/null || true\"\nExecStart=/bin/sh -c \"nft delete chain bridge coolify_bridge coolify_intra 2>/dev/null || true\"\n"@;
        let m = "ExecStart=/bin/sh -c \"nft -f /etc/coolify/bridge-fw.nft\"\nExecStart=/bin/sh -c \"[ -s /etc/coolify/allow.nft ] && nft -f /etc/coolify/allow.nft || true\"\n"@;
        let y = Seq::<char>::empty();
        assert(firewall::bridge_rules_text() =~= x + m + y);
        stands_between(x, m, y);
    }
    assert(text::has_text(firewall::deny_teardown_text(), "ExecStart=/bin/sh -c \"nft delete table bridge coolify_bridge 2>/dev/null || true\"\n"@)) by {
        assert("# Tear down default-deny scaffold from prior run.\nExecStart=/bin/sh -c \"/usr/sbin/iptables -F COOLIFY-INTRA 2>/dev/null || true\"\nExecStart=/bin/sh -c \"/usr/sbin/iptables -X COOLIFY-INTRA 2>/dev/null || true\"\nExecStart=/bin/sh -c \"nft delete table bridge coolify_bridge 2>/dev/null || true\"\n"@ =~= "# Tear down default-deny scaffold from prior run.\nExecStart=/bin/sh -c \"/usr/sbin/iptables -F COOLIFY-INTRA 2>/dev/null || true\"\nExecStart=/bin/sh -c \"/usr/sbin/iptables -X COOLIFY-INTRA 2>/dev/null || true\"\n"@ + "ExecStart=/bin/sh -c \"nft delete table bridge coolify_bridge 2>/dev/null || true\"\n"@) by {
            reveal_strlit("# Tear down default-deny scaffold from prior run.\nExecStart=/bin/sh -c \"/usr/sbin/iptables -F COOLIFY-INTRA 2>/dev/null || true\"\nExecStart=/bin/sh -c \"/usr/sbin/iptables -X COOLIFY-INTRA 2>/dev/null || true\"\nExecStart=/bin/sh -c \"nft delete table bridge coolify_bridge 2>/dev/null || true\"\n");
            reveal_strlit("# Tear down default-deny scaffold from prior run.\nExecStart=/bin/sh -c \"/usr/sbin/iptables -F COOLIFY-INTRA 2>/dev/null || true\"\nExecStart=/bin/sh -c \"/usr/sbin/iptables -X COOLIFY-INTRA 2>/dev/null || true\"\n");
            reveal_strlit("ExecStart=/bin/sh -c \"nft delete table bridge coolify_bridge 2>/dev/null || true\"\n");
        }
        let x = "# Tear down default-deny scaffold from prior run.\nExecStart=/bin/sh -c \"/usr/sbin/iptables -F COOLIFY-INTRA 2>/dev/null || true\"\nExecStart=/bin/sh -c \"/usr/sbin/iptables -X COOLIFY-INTRA 2>/dev/null || true\"\n"@;
        let m = "ExecStart=/bin/sh -c \"nft delete table bridge coolify_bridge 2>/dev/null || true\"\n"@;
        let y = Seq::<char>::empty();
        assert(firewall::deny_teardown_text() =~= x + m + y);
        stands_between(x, m, y);
    }
}

/// With default deny, the rules that were let through are loaded again and connections that are under
/// way go on; without it, the table of the bridge is gone.
pub proof fn allowed_rules_survive(iface: Seq<char>, subnets: Seq<Ipv4Net>)
    ensures
        text::has_text(firewall::unit_text(iface, subnets, true), "ExecStart=/usr/sbin/iptables -F COOLIFY-INTRA\nExecStart=/usr/sbin/iptables -A COOLIFY-INTRA -j COOLIFY-ALLOW\nExecStart=/usr/sbin/iptables -A COOLIFY-INTRA -j DROP\n"@),
        text::has_text(firewall::unit_text(iface, subnets, true), "ExecStart=/bin/sh -c \"[ -s /etc/coolify/allow.rules ] && /usr/sbin/iptables -F COOLIFY-ALLOW && /usr/sbin/iptables-restore --noflush < /etc/coolify/allow.rules || true\"\n"@),
        text::has_text(firewall::unit_text(iface, subnets, true), "-I FORWARD 1 -m conntrack --ctstate ESTABLISHED,RELATED -j ACCEPT\"\n"@),
        text::has_text(firewall::unit_text(iface, subnets, true), "ExecStart=/bin/sh -c \"nft -f /etc/coolify/bridge-fw.nft\"\nExecStart=/bin/sh -c \"[ -s /etc/coolify/allow.nft ] && nft -f /etc/coolify/allow.nft || true\"\n"@),
        text::has_text(firewall::unit_text(iface, subnets, false), "ExecStart=/bin/sh -c \"nft delete table bridge coolify_bridge 2>/dev/null || true\"\n"@),
{
    chains_keep_what_is_allowed();
    let start = firewall::head_text(iface) + firewall::nat_rules(iface, subnets);
    let end = "\n[Install]\nWantedBy=multi-user.target\n"@;
    let x = start + "# Remove blanket ACCEPT from prior mode-A run.\n"@ + firewall::accept_removals(
        subnets,
    );
    let m = firewall::deny_chains_text();
    let intra = firewall::intra_rules(subnets);
    let bridge = firewall::bridge_rules_text();
    assert(firewall::unit_text(iface, subnets, true) =~= x + m + (intra + bridge + end));
    stands_inside(x, m, intra + bridge + end, "ExecStart=/usr/sbin/iptables -F COOLIFY-INTRA\nExecStart=/usr/sbin/iptables -A COOLIFY-INTRA -j COOLIFY-ALLOW\nExecStart=/usr/sbin/iptables -A COOLIFY-INTRA -j DROP\n"@);
    stands_inside(x, m, intra + bridge + end, "ExecStart=/bin/sh -c \"[ -s /etc/coolify/allow.rules ] && /usr/sbin/iptables -F COOLIFY-ALLOW && /usr/sbin/iptables-restore --noflush < /etc/coolify/allow.rules || true\"\n"@);
    stands_inside(x, m, intra + bridge + end, "-I FORWARD 1 -m conntrack --ctstate ESTABLISHED,RELATED -j ACCEPT\"\n"@);
    assert(firewall::unit_text(iface, subnets, true) =~= (x + m + intra) + bridge + end);
    stands_inside(x + m + intra, bridge, end, "ExecStart=/bin/sh -c \"nft -f /etc/coolify/bridge-fw.nft\"\nExecStart=/bin/sh -c \"[ -s /etc/coolify/allow.nft ] && nft -f /etc/coolify/allow.nft || true\"\n"@);
    let accept = firewall::accept_rules(subnets);
    assert(firewall::unit_text(iface, subnets, false) =~= start + firewall::deny_teardown_text() + (
    accept + end));
    stands_inside(start, firewall::deny_teardown_text(), accept + end, "ExecStart=/bin/sh -c \"nft delete table bridge coolify_bridge 2>/dev/null || true\"\n"@);
}

/// The table of the bridge is about the subnets of the node, all of them and no others.
pub proof fn the_bridge_covers_the_subnets(subnets: Seq<Ipv4Net>)
    ensures
        exists|parts: Seq<Seq<char>>|
            #![trigger split::joined(parts, ", "@)]
            firewall::scaffold_of(subnets) == firewall::scaffold_text(
                "{ "@ + split::joined(parts, ", "@) + " }"@,
            ) && forall|x: Seq<char>|
                #[trigger] parts.contains(x) <==> exists|i: int|
                    0 <= i < subnets.len() && (#[trigger] subnets[i]).cidr() == x,
{
    let all = firewall::cidrs(subnets);
    let parts = keyed::in_order(all);
    assert forall|x: Seq<char>|
        #[trigger] parts.contains(x) <==> exists|i: int|
            0 <= i < subnets.len() && (#[trigger] subnets[i]).cidr() == x by {
        keyed::in_order_contains(all, x);
        if all.contains(x) {
            let i = choose|i: int| 0 <= i < all.len() && all[i] == x;
            assert(subnets[i].cidr() == x);
        }
        if exists|i: int| 0 <= i < subnets.len() && (#[trigger] subnets[i]).cidr() == x {
            let i = choose|i: int| 0 <= i < subnets.len() && (#[trigger] subnets[i]).cidr() == x;
            assert(all[i] == x);
        }
    }
    assert(firewall::scaffold_of(subnets) == firewall::scaffold_text(
        "{ "@ + split::joined(parts, ", "@) + " }"@,
    ));
}

/// The firewall is written to its unit and restarted; with default deny the table of the bridge is
/// written too, and without it taken away.
pub proof fn firewalls_are_installed_whole(iface: Seq<char>, subnets: Seq<Ipv4Net>)
    ensures
        firewall::install_text(iface, subnets, true) == firewall::write_unit_text(
            firewall::unit_text(iface, subnets, true),
        ) + firewall::write_scaffold_text(firewall::scaffold_of(subnets))
            + firewall::restart_firewall_text(),
        firewall::install_text(iface, subnets, false) == firewall::write_unit_text(
            firewall::unit_text(iface, subnets, false),
        ) + "rm -f /etc/coolify/bridge-fw.nft && "@ + firewall::restart_firewall_text(),
{
}

} // verus!
