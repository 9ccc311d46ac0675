//! The mesh firewall of a node.

use vstd::prelude::*;
use vstd::string::StringExecFns;
use crate::keyed;
use crate::net::Ipv4Net;
use crate::split;
use crate::text;

verus! {

pub const ALLOW_RULES_PATH: &'static str = "/etc/coolify/allow.rules";

pub const BRIDGE_TABLE_NAME: &'static str = "coolify_bridge";

pub const BRIDGE_ALLOW_RULES_PATH: &'static str = "/etc/coolify/allow.nft";

pub const BRIDGE_SCAFFOLD_PATH: &'static str = "/etc/coolify/bridge-fw.nft";

/// The head of the firewall unit.
pub open spec fn head_text(iface: Seq<char>) -> Seq<char> {
    "[Unit]\nDescription=Coolify mesh firewall rules\nAfter=wg-quick@"@
        + iface
        + ".service network-online.target\nWants=network-online.target\n\n[Service]\nType=oneshot\nRemainAfterExit=yes\n\n"@
}

/// The head of the firewall unit.
fn head(iface: &str) -> (r: String)
    ensures
        r@ == head_text(iface@),
{
    let mut out: String = "[Unit]\nDescription=Coolify mesh firewall rules\nAfter=wg-quick@".to_owned();
    out.append(iface);
    out.append(".service network-online.target\nWants=network-online.target\n\n[Service]\nType=oneshot\nRemainAfterExit=yes\n\n");
    out
}

/// What lets a subnet through the interface without address translation.
pub open spec fn nat_rules_row_text(iface: Seq<char>, sn: Ipv4Net) -> Seq<char> {
    "ExecStart=/bin/sh -c \"/usr/sbin/iptables -t nat -C POSTROUTING -s "@
        + sn.cidr()
        + " -o "@
        + iface
        + " -j RETURN 2>/dev/null || /usr/sbin/iptables -t nat -I POSTROUTING -s "@
        + sn.cidr()
        + " -o "@
        + iface
        + " -j RETURN\"\n"@
}

/// What lets a subnet through the interface without address translation.
fn nat_rules_row(iface: &str, sn: Ipv4Net) -> (r: String)
    ensures
        r@ == nat_rules_row_text(iface@, sn),
{
    let mut out: String = "ExecStart=/bin/sh -c \"/usr/sbin/iptables -t nat -C POSTROUTING -s ".to_owned();
    out.append(sn.text().as_str());
    out.append(" -o ");
    out.append(iface);
    out.append(" -j RETURN 2>/dev/null || /usr/sbin/iptables -t nat -I POSTROUTING -s ");
    out.append(sn.text().as_str());
    out.append(" -o ");
    out.append(iface);
    out.append(" -j RETURN\"\n");
    out
}

/// What lets a subnet through the interface without address translation, for each in turn.
pub open spec fn nat_rules(iface: Seq<char>, v: Seq<Ipv4Net>) -> Seq<char>
    decreases v.len(),
{
    if v.len() == 0 {
        Seq::empty()
    } else {
        nat_rules(iface, v.drop_last()) + nat_rules_row_text(iface, v.last())
    }
}

fn nat_rules_onto(out: &mut String, iface: &str, v: &Vec<Ipv4Net>)
    ensures
        final(out)@ == old(out)@ + nat_rules(iface@, v@),
{
    let mut i: usize = 0;
    proof {
        assert(v@.take(0) =~= Seq::empty());
        assert(out@ =~= out@ + Seq::<char>::empty());
    }
    while i < v.len()
        invariant
            i <= v@.len(),
            out@ == old(out)@ + nat_rules(iface@, v@.take(i as int)),
        decreases v@.len() - i,
    {
        proof {
            assert(v@.take(i + 1).drop_last() =~= v@.take(i as int));
            assert((old(out)@ + nat_rules(iface@, v@.take(i as int))) + nat_rules_row_text(iface@, v@[i as int])
                =~= old(out)@ + nat_rules(iface@, v@.take(i + 1)));
        }
        out.append(nat_rules_row(iface, v[i]).as_str());
        i = i + 1;
    }
    proof {
        assert(v@.take(i as int) =~= v@);
    }
}

/// What removes the blanket acceptance of a subnet.
pub open spec fn accept_removals_row_text(sn: Ipv4Net) -> Seq<char> {
    "ExecStart=/bin/sh -c \"/usr/sbin/iptables -D FORWARD -s "@
        + sn.cidr()
        + " -j ACCEPT 2>/dev/null || true\"\nExecStart=/bin/sh -c \"/usr/sbin/iptables -D FORWARD -d "@
        + sn.cidr()
        + " -j ACCEPT 2>/dev/null || true\"\n"@
}

/// What removes the blanket acceptance of a subnet.
fn accept_removals_row(sn: Ipv4Net) -> (r: String)
    ensures
        r@ == accept_removals_row_text(sn),
{
    let mut out: String = "ExecStart=/bin/sh -c \"/usr/sbin/iptables -D FORWARD -s ".to_owned();
    out.append(sn.text().as_str());
    out.append(" -j ACCEPT 2>/dev/null || true\"\nExecStart=/bin/sh -c \"/usr/sbin/iptables -D FORWARD -d ");
    out.append(sn.text().as_str());
    out.append(" -j ACCEPT 2>/dev/null || true\"\n");
    out
}

/// What removes the blanket acceptance of a subnet, for each in turn.
pub open spec fn accept_removals(v: Seq<Ipv4Net>) -> Seq<char>
    decreases v.len(),
{
    if v.len() == 0 {
        Seq::empty()
    } else {
        accept_removals(v.drop_last()) + accept_removals_row_text(v.last())
    }
}

fn accept_removals_onto(out: &mut String, v: &Vec<Ipv4Net>)
    ensures
        final(out)@ == old(out)@ + accept_removals(v@),
{
    let mut i: usize = 0;
    proof {
        assert(v@.take(0) =~= Seq::empty());
        assert(out@ =~= out@ + Seq::<char>::empty());
    }
    while i < v.len()
        invariant
            i <= v@.len(),
            out@ == old(out)@ + accept_removals(v@.take(i as int)),
        decreases v@.len() - i,
    {
        proof {
            assert(v@.take(i + 1).drop_last() =~= v@.take(i as int));
            assert((old(out)@ + accept_removals(v@.take(i as int))) + accept_removals_row_text(v@[i as int])
                =~= old(out)@ + accept_removals(v@.take(i + 1)));
        }
        out.append(accept_removals_row(v[i]).as_str());
        i = i + 1;
    }
    proof {
        assert(v@.take(i as int) =~= v@);
    }
}

/// The chains that deny by default.
pub open spec fn deny_chains_text() -> Seq<char> {
    "\nExecStart=/bin/sh -c \"/usr/sbin/iptables -N COOLIFY-ALLOW 2>/dev/null || true\"\nExecStart=/bin/sh -c \"/usr/sbin/iptables -N COOLIFY-INTRA 2>/dev/null || true\"\nExecStart=/usr/sbin/iptables -F COOLIFY-INTRA\nExecStart=/usr/sbin/iptables -A COOLIFY-INTRA -j COOLIFY-ALLOW\nExecStart=/usr/sbin/iptables -A COOLIFY-INTRA -j DROP\nExecStart=/bin/sh -c \"[ -s /etc/coolify/allow.rules ] && /usr/sbin/iptables -F COOLIFY-ALLOW && /usr/sbin/iptables-restore --noflush < /etc/coolify/allow.rules || true\"\nExecStart=/bin/sh -c \"/usr/sbin/iptables -C FORWARD -m conntrack --ctstate ESTABLISHED,RELATED -j ACCEPT 2>/dev/null || /usr/sbin/iptables -I FORWARD 1 -m conntrack --ctstate ESTABLISHED,RELATED -j ACCEPT\"\n"@
}

/// The chains that deny by default.
fn deny_chains() -> (r: String)
    ensures
        r@ == deny_chains_text(),
{
    "\nExecStart=/bin/sh -c \"/usr/sbin/iptables -N COOLIFY-ALLOW 2>/dev/null || true\"\nExecStart=/bin/sh -c \"/usr/sbin/iptables -N COOLIFY-INTRA 2>/dev/null || true\"\nExecStart=/usr/sbin/iptables -F COOLIFY-INTRA\nExecStart=/usr/sbin/iptables -A COOLIFY-INTRA -j COOLIFY-ALLOW\nExecStart=/usr/sbin/iptables -A COOLIFY-INTRA -j DROP\nExecStart=/bin/sh -c \"[ -s /etc/coolify/allow.rules ] && /usr/sbin/iptables -F COOLIFY-ALLOW && /usr/sbin/iptables-restore --noflush < /etc/coolify/allow.rules || true\"\nExecStart=/bin/sh -c \"/usr/sbin/iptables -C FORWARD -m conntrack --ctstate ESTABLISHED,RELATED -j ACCEPT 2>/dev/null || /usr/sbin/iptables -I FORWARD 1 -m conntrack --ctstate ESTABLISHED,RELATED -j ACCEPT\"\n".to_owned()
}

/// What sends the traffic of a subnet to the denying chain.
pub open spec fn intra_rules_row_text(sn: Ipv4Net) -> Seq<char> {
    "ExecStart=/bin/sh -c \"/usr/sbin/iptables -C FORWARD -d "@
        + sn.cidr()
        + " -j COOLIFY-INTRA 2>/dev/null || /usr/sbin/iptables -A FORWARD -d "@
        + sn.cidr()
        + " -j COOLIFY-INTRA\"\nExecStart=/bin/sh -c \"/usr/sbin/iptables -C FORWARD -s "@
        + sn.cidr()
        + " -j COOLIFY-INTRA 2>/dev/null || /usr/sbin/iptables -A FORWARD -s "@
        + sn.cidr()
        + " -j COOLIFY-INTRA\"\n"@
}

/// What sends the traffic of a subnet to the denying chain.
fn intra_rules_row(sn: Ipv4Net) -> (r: String)
    ensures
        r@ == intra_rules_row_text(sn),
{
    let mut out: String = "ExecStart=/bin/sh -c \"/usr/sbin/iptables -C FORWARD -d ".to_owned();
    out.append(sn.text().as_str());
    out.append(" -j COOLIFY-INTRA 2>/dev/null || /usr/sbin/iptables -A FORWARD -d ");
    out.append(sn.text().as_str());
    out.append(" -j COOLIFY-INTRA\"\nExecStart=/bin/sh -c \"/usr/sbin/iptables -C FORWARD -s ");
    out.append(sn.text().as_str());
    out.append(" -j COOLIFY-INTRA 2>/dev/null || /usr/sbin/iptables -A FORWARD -s ");
    out.append(sn.text().as_str());
    out.append(" -j COOLIFY-INTRA\"\n");
    out
}

/// What sends the traffic of a subnet to the denying chain, for each in turn.
pub open spec fn intra_rules(v: Seq<Ipv4Net>) -> Seq<char>
    decreases v.len(),
{
    if v.len() == 0 {
        Seq::empty()
    } else {
        intra_rules(v.drop_last()) + intra_rules_row_text(v.last())
    }
}

fn intra_rules_onto(out: &mut String, v: &Vec<Ipv4Net>)
    ensures
        final(out)@ == old(out)@ + intra_rules(v@),
{
    let mut i: usize = 0;
    proof {
        assert(v@.take(0) =~= Seq::empty());
        assert(out@ =~= out@ + Seq::<char>::empty());
    }
    while i < v.len()
        invariant
            i <= v@.len(),
            out@ == old(out)@ + intra_rules(v@.take(i as int)),
        decreases v@.len() - i,
    {
        proof {
            assert(v@.take(i + 1).drop_last() =~= v@.take(i as int));
            assert((old(out)@ + intra_rules(v@.take(i as int))) + intra_rules_row_text(v@[i as int])
                =~= old(out)@ + intra_rules(v@.take(i + 1)));
        }
        out.append(intra_rules_row(v[i]).as_str());
        i = i + 1;
    }
    proof {
        assert(v@.take(i as int) =~= v@);
    }
}

/// The loading of the bridge table.
pub open spec fn bridge_rules_text() -> Seq<char> {
    "ExecStart=/bin/sh -c \"nft list table bridge coolify_bridge >/dev/null 2>&1 || nft add table bridge coolify_bridge\"\nExecStart=/bin/sh -c \"nft add chain bridge coolify_bridge coolify_allow '{ }' 2>/dev/null || true\"\nExecStart=/bin/sh -c \"nft delete chain bridge coolify_bridge forward 2>/dev/null || true\"\nExecStart=/bin/sh -c \"nft delete chain bridge coolify_bridge coolify_intra 2>/dev/null || true\"\nExecStart=/bin/sh -c \"nft -f /etc/coolify/bridge-fw.nft\"\nExecStart=/bin/sh -c \"[ -s /etc/coolify/allow.nft ] && nft -f /etc/coolify/allow.nft || true\"\n"@
}

/// The loading of the bridge table.
fn bridge_rules() -> (r: String)
    ensures
        r@ == bridge_rules_text(),
{
    "ExecStart=/bin/sh -c \"nft list table bridge coolify_bridge >/dev/null 2>&1 || nft add table bridge coolify_bridge\"\nExecStart=/bin/sh -c \"nft add chain bridge coolify_bridge coolify_allow '{ }' 2>/dev/null || true\"\nExecStart=/bin/sh -c \"nft delete chain bridge coolify_bridge forward 2>/dev/null || true\"\nExecStart=/bin/sh -c \"nft delete chain bridge coolify_bridge coolify_intra 2>/dev/null || true\"\nExecStart=/bin/sh -c \"nft -f /etc/coolify/bridge-fw.nft\"\nExecStart=/bin/sh -c \"[ -s /etc/coolify/allow.nft ] && nft -f /etc/coolify/allow.nft || true\"\n".to_owned()
}

/// What tears the denying chains down.
pub open spec fn deny_teardown_text() -> Seq<char> {
    "# Tear down default-deny scaffold from prior run.\nExecStart=/bin/sh -c \"/usr/sbin/iptables -F COOLIFY-INTRA 2>/dev/null || true\"\nExecStart=/bin/sh -c \"/usr/sbin/iptables -X COOLIFY-INTRA 2>/dev/null || true\"\nExecStart=/bin/sh -c \"nft delete table bridge coolify_bridge 2>/dev/null || true\"\n"@
}

/// What tears the denying chains down.
fn deny_teardown() -> (r: String)
    ensures
        r@ == deny_teardown_text(),
{
    "# Tear down default-deny scaffold from prior run.\nExecStart=/bin/sh -c \"/usr/sbin/iptables -F COOLIFY-INTRA 2>/dev/null || true\"\nExecStart=/bin/sh -c \"/usr/sbin/iptables -X COOLIFY-INTRA 2>/dev/null || true\"\nExecStart=/bin/sh -c \"nft delete table bridge coolify_bridge 2>/dev/null || true\"\n".to_owned()
}

/// What accepts the traffic of a subnet.
pub open spec fn accept_rules_row_text(sn: Ipv4Net) -> Seq<char> {
    "ExecStart=/bin/sh -c \"/usr/sbin/iptables -C FORWARD -s "@
        + sn.cidr()
        + " -j ACCEPT 2>/dev/null || /usr/sbin/iptables -I FORWARD -s "@
        + sn.cidr()
        + " -j ACCEPT\"\nExecStart=/bin/sh -c \"/usr/sbin/iptables -C FORWARD -d "@
        + sn.cidr()
        + " -j ACCEPT 2>/dev/null || /usr/sbin/iptables -I FORWARD -d "@
        + sn.cidr()
        + " -j ACCEPT\"\n"@
}

/// What accepts the traffic of a subnet.
fn accept_rules_row(sn: Ipv4Net) -> (r: String)
    ensures
        r@ == accept_rules_row_text(sn),
{
    let mut out: String = "ExecStart=/bin/sh -c \"/usr/sbin/iptables -C FORWARD -s ".to_owned();
    out.append(sn.text().as_str());
    out.append(" -j ACCEPT 2>/dev/null || /usr/sbin/iptables -I FORWARD -s ");
    out.append(sn.text().as_str());
    out.append(" -j ACCEPT\"\nExecStart=/bin/sh -c \"/usr/sbin/iptables -C FORWARD -d ");
    out.append(sn.text().as_str());
    out.append(" -j ACCEPT 2>/dev/null || /usr/sbin/iptables -I FORWARD -d ");
    out.append(sn.text().as_str());
    out.append(" -j ACCEPT\"\n");
    out
}

/// What accepts the traffic of a subnet, for each in turn.
pub open spec fn accept_rules(v: Seq<Ipv4Net>) -> Seq<char>
    decreases v.len(),
{
    if v.len() == 0 {
        Seq::empty()
    } else {
        accept_rules(v.drop_last()) + accept_rules_row_text(v.last())
    }
}

fn accept_rules_onto(out: &mut String, v: &Vec<Ipv4Net>)
    ensures
        final(out)@ == old(out)@ + accept_rules(v@),
{
    let mut i: usize = 0;
    proof {
        assert(v@.take(0) =~= Seq::empty());
        assert(out@ =~= out@ + Seq::<char>::empty());
    }
    while i < v.len()
        invariant
            i <= v@.len(),
            out@ == old(out)@ + accept_rules(v@.take(i as int)),
        decreases v@.len() - i,
    {
        proof {
            assert(v@.take(i + 1).drop_last() =~= v@.take(i as int));
            assert((old(out)@ + accept_rules(v@.take(i as int))) + accept_rules_row_text(v@[i as int])
                =~= old(out)@ + accept_rules(v@.take(i + 1)));
        }
        out.append(accept_rules_row(v[i]).as_str());
        i = i + 1;
    }
    proof {
        assert(v@.take(i as int) =~= v@);
    }
}

/// The firewall unit: subnets leave through the interface as they are, and between
/// containers either nothing passes but what is allowed, or everything.
pub open spec fn unit_text(iface: Seq<char>, subnets: Seq<Ipv4Net>, default_deny: bool) -> Seq<char> {
    let start = head_text(iface) + nat_rules(iface, subnets);
    (if default_deny {
        start + "# Remove blanket ACCEPT from prior mode-A run.\n"@ + accept_removals(subnets)
            + deny_chains_text() + intra_rules(subnets) + bridge_rules_text()
    } else {
        start + deny_teardown_text() + accept_rules(subnets)
    }) + "\n[Install]\nWantedBy=multi-user.target\n"@
}

/// The firewall unit of a node.
pub fn firewall_service_unit(
    iface: &str,
    _namespaces: &Vec<String>,
    container_subnets: &Vec<Ipv4Net>,
    default_deny: bool,
) -> (r: String)
    ensures
        r@ == unit_text(iface@, container_subnets@, default_deny),
{
    let mut b: String = head(iface);
    nat_rules_onto(&mut b, iface, container_subnets);
    if default_deny {
        b.append("# Remove blanket ACCEPT from prior mode-A run.\n");
        accept_removals_onto(&mut b, container_subnets);
        b.append(deny_chains().as_str());
        intra_rules_onto(&mut b, container_subnets);
        b.append(bridge_rules().as_str());
    } else {
        b.append(deny_teardown().as_str());
        accept_rules_onto(&mut b, container_subnets);
    }
    b.append("\n[Install]\nWantedBy=multi-user.target\n");
    b
}

/// The subnets in CIDR form.
pub open spec fn cidrs(subnets: Seq<Ipv4Net>) -> Seq<Seq<char>> {
    Seq::new(subnets.len(), |i: int| subnets[i].cidr())
}

pub fn cidr_strings(subnets: &Vec<Ipv4Net>) -> (r: Vec<String>)
    ensures
        text::views(r@) == cidrs(subnets@),
{
    broadcast use text::views_push;

    let mut out: Vec<String> = Vec::new();
    let mut i: usize = 0;
    proof {
        assert(text::views(out@) =~= Seq::empty());
    }
    while i < subnets.len()
        invariant
            i <= subnets@.len(),
            text::views(out@) == Seq::new(i as nat, |j: int| subnets@[j].cidr()),
        decreases subnets@.len() - i,
    {
        proof {
            assert(Seq::new((i + 1) as nat, |j: int| subnets@[j].cidr()) =~= Seq::new(
                i as nat,
                |j: int| subnets@[j].cidr(),
            ).push(subnets@[i as int].cidr()));
        }
        out.push(subnets[i].text());
        i = i + 1;
    }
    proof {
        assert(cidrs(subnets@) =~= Seq::new(i as nat, |j: int| subnets@[j].cidr()));
    }
    out
}

/// The bridge table around the set of subnets.
pub open spec fn scaffold_text(set: Seq<char>) -> Seq<char> {
    "# Managed by coolify — do not edit manually.\nadd table bridge coolify_bridge\nadd chain bridge coolify_bridge coolify_intra\nflush chain bridge coolify_bridge coolify_intra\nadd rule bridge coolify_bridge coolify_intra jump coolify_allow\nadd rule bridge coolify_bridge coolify_intra drop\nadd chain bridge coolify_bridge forward { type filter hook forward priority -200; policy accept; }\nflush chain bridge coolify_bridge forward\nadd rule bridge coolify_bridge forward meta protocol != ip accept\nadd rule bridge coolify_bridge forward ct state established,related accept\nadd rule bridge coolify_bridge forward ip saddr "@
        + set
        + " jump coolify_intra\nadd rule bridge coolify_bridge forward ip daddr "@
        + set
        + " jump coolify_intra\n"@
}

/// The bridge table around the set of subnets.
fn scaffold(set: &str) -> (r: String)
    ensures
        r@ == scaffold_text(set@),
{
    let mut out: String = "# Managed by coolify — do not edit manually.\nadd table bridge coolify_bridge\nadd chain bridge coolify_bridge coolify_intra\nflush chain bridge coolify_bridge coolify_intra\nadd rule bridge coolify_bridge coolify_intra jump coolify_allow\nadd rule bridge coolify_bridge coolify_intra drop\nadd chain bridge coolify_bridge forward { type filter hook forward priority -200; policy accept; }\nflush chain bridge coolify_bridge forward\nadd rule bridge coolify_bridge forward meta protocol != ip accept\nadd rule bridge coolify_bridge forward ct state established,related accept\nadd rule bridge coolify_bridge forward ip saddr ".to_owned();
    out.append(set);
    out.append(" jump coolify_intra\nadd rule bridge coolify_bridge forward ip daddr ");
    out.append(set);
    out.append(" jump coolify_intra\n");
    out
}

/// The bridge table of a node: its subnets as a set, in order.
pub open spec fn scaffold_of(subnets: Seq<Ipv4Net>) -> Seq<char> {
    scaffold_text("{ "@ + split::joined(keyed::in_order(cidrs(subnets)), ", "@) + " }"@)
}

/// The bridge table of a node.
pub fn render_bridge_scaffold(subnets: &Vec<Ipv4Net>) -> (r: String)
    ensures
        r@ == scaffold_of(subnets@),
{
    let names: Vec<String> = keyed::sort_strings(&cidr_strings(subnets));
    let mut set: String = "{ ".to_owned();
    set.append(split::join(&names, ", ").as_str());
    set.append(" }");
    scaffold(set.as_str())
}

/// The writing of the firewall unit.
pub open spec fn write_unit_text(unit: Seq<char>) -> Seq<char> {
    "cat > /etc/systemd/system/coolify-mesh-fw.service.tmp <<'COOLIFY_FW_EOF'\n"@
        + unit
        + "COOLIFY_FW_EOF\nmv /etc/systemd/system/coolify-mesh-fw.service.tmp /etc/systemd/system/coolify-mesh-fw.service && mkdir -p /etc/coolify && "@
}

/// The writing of the firewall unit.
fn write_unit(unit: &str) -> (r: String)
    ensures
        r@ == write_unit_text(unit@),
{
    let mut out: String = "cat > /etc/systemd/system/coolify-mesh-fw.service.tmp <<'COOLIFY_FW_EOF'\n".to_owned();
    out.append(unit);
    out.append("COOLIFY_FW_EOF\nmv /etc/systemd/system/coolify-mesh-fw.service.tmp /etc/systemd/system/coolify-mesh-fw.service && mkdir -p /etc/coolify && ");
    out
}

/// The writing of the bridge table.
pub open spec fn write_scaffold_text(scaffold: Seq<char>) -> Seq<char> {
    "cat > /etc/coolify/bridge-fw.nft.tmp <<'COOLIFY_BR_EOF'\n"@
        + scaffold
        + "COOLIFY_BR_EOF\nmv /etc/coolify/bridge-fw.nft.tmp /etc/coolify/bridge-fw.nft && "@
}

/// The writing of the bridge table.
fn write_scaffold(scaffold: &str) -> (r: String)
    ensures
        r@ == write_scaffold_text(scaffold@),
{
    let mut out: String = "cat > /etc/coolify/bridge-fw.nft.tmp <<'COOLIFY_BR_EOF'\n".to_owned();
    out.append(scaffold);
    out.append("COOLIFY_BR_EOF\nmv /etc/coolify/bridge-fw.nft.tmp /etc/coolify/bridge-fw.nft && ");
    out
}

/// The removal of the bridge table.
pub open spec fn drop_scaffold_text() -> Seq<char> {
    "rm -f /etc/coolify/bridge-fw.nft && "@
}

/// The removal of the bridge table.
fn drop_scaffold() -> (r: String)
    ensures
        r@ == drop_scaffold_text(),
{
    "rm -f /etc/coolify/bridge-fw.nft && ".to_owned()
}

/// The restart of the firewall.
pub open spec fn restart_firewall_text() -> Seq<char> {
    "systemctl daemon-reload && systemctl enable coolify-mesh-fw.service && systemctl restart coolify-mesh-fw.service"@
}

/// The restart of the firewall.
fn restart_firewall() -> (r: String)
    ensures
        r@ == restart_firewall_text(),
{
    "systemctl daemon-reload && systemctl enable coolify-mesh-fw.service && systemctl restart coolify-mesh-fw.service".to_owned()
}

/// The command that installs the firewall of a node.
pub open spec fn install_text(iface: Seq<char>, subnets: Seq<Ipv4Net>, default_deny: bool) -> Seq<char> {
    write_unit_text(unit_text(iface, subnets, default_deny)) + (if default_deny {
        write_scaffold_text(scaffold_of(subnets))
    } else {
        drop_scaffold_text()
    }) + restart_firewall_text()
}

/// The command that installs the firewall of a node.
pub fn install_firewall_command(
    iface: &str,
    namespaces: &Vec<String>,
    subnets: &Vec<Ipv4Net>,
    default_deny: bool,
) -> (r: String)
    ensures
        r@ == install_text(iface@, subnets@, default_deny),
{
    let unit: String = firewall_service_unit(iface, namespaces, subnets, default_deny);
    let mut cmd: String = write_unit(unit.as_str());
    if default_deny {
        cmd.append(write_scaffold(render_bridge_scaffold(subnets).as_str()).as_str());
    } else {
        cmd.append(drop_scaffold().as_str());
    }
    cmd.append(restart_firewall().as_str());
    cmd
}

} // verus!
