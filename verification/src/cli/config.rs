//! The interface configuration of a host.

use vstd::prelude::*;
use vstd::string::StringExecFns;
use crate::cli::firewall;
use crate::net;
use crate::net::Ipv4Net;
use crate::number;
use crate::split;
use crate::text;

verus! {

/// A peer as it stands in a configuration.
#[derive(Clone, Debug)]
pub struct PeerConfig {
    pub endpoint: String,
    pub public_key: String,
    pub mgmt_ip: u32,
    pub container_subnets: Vec<Ipv4Net>,
}

/// What a `PeerConfig` says.
#[verifier::ext_equal]
pub struct PeerConfigView {
    pub endpoint: Seq<char>,
    pub public_key: Seq<char>,
    pub mgmt_ip: u32,
    pub container_subnets: Seq<Ipv4Net>,
}

impl View for PeerConfig {
    type V = PeerConfigView;

    open spec fn view(&self) -> PeerConfigView {
        PeerConfigView {
            endpoint: self.endpoint@,
            public_key: self.public_key@,
            mgmt_ip: self.mgmt_ip,
            container_subnets: self.container_subnets@,
        }
    }
}

pub open spec fn peer_configs(s: Seq<PeerConfig>) -> Seq<PeerConfigView> {
    Seq::new(s.len(), |i: int| s[i]@)
}

pub broadcast proof fn peer_configs_push(s: Seq<PeerConfig>, x: PeerConfig)
    ensures
        #[trigger] peer_configs(s.push(x)) == peer_configs(s).push(x@),
{
    assert(peer_configs(s.push(x)) =~= peer_configs(s).push(x@));
}

/// The command that makes the key pair of a host. The umask keeps the private key from
/// ever being readable by others.
pub open spec fn genkey_command_text() -> Seq<char> {
    "mkdir -p /etc/wireguard && (umask 077; wg genkey | tee /etc/wireguard/privatekey | wg pubkey | tee /etc/wireguard/publickey) && chmod 600 /etc/wireguard/privatekey"@
}

/// The command that makes the key pair of a host. The umask keeps the private key from
/// ever being readable by others.
pub fn genkey_command() -> (r: String)
    ensures
        r@ == genkey_command_text(),
{
    "mkdir -p /etc/wireguard && (umask 077; wg genkey | tee /etc/wireguard/privatekey | wg pubkey | tee /etc/wireguard/publickey) && chmod 600 /etc/wireguard/privatekey".to_owned()
}

/// The addresses that a peer may use: its management address and its container subnets.
pub open spec fn allowed_ips(p: PeerConfigView) -> Seq<char> {
    split::joined(
        seq![net::dotted(p.mgmt_ip) + "/32"@] + firewall::cidrs(p.container_subnets),
        ", "@,
    )
}

pub fn allowed_ips_line(p: &PeerConfig) -> (r: String)
    ensures
        r@ == allowed_ips(p@),
{
    let mut first: String = net::ip_text(p.mgmt_ip);
    first.append("/32");
    let ghost head = first@;
    let mut parts: Vec<String> = Vec::new();
    parts.push(first);
    let mut rest: Vec<String> = firewall::cidr_strings(&p.container_subnets);
    let ghost tail = text::views(rest@);
    parts.append(&mut rest);
    proof {
        assert(text::views(parts@) =~= seq![head] + tail);
    }
    split::join(&parts, ", ")
}

/// The address of an endpoint: with its own port, or with the port that all listen on.
pub open spec fn endpoint_with_port(endpoint: Seq<char>, listen_port: u16) -> Seq<char> {
    match text::rsplit_once_spec(endpoint, ':') {
        Some((_, port)) => if number::parsed(port, 65535) is Some {
            endpoint
        } else {
            endpoint + ":"@ + number::decimal(listen_port as nat)
        },
        None => endpoint + ":"@ + number::decimal(listen_port as nat),
    }
}

pub fn endpoint_addr(endpoint: &str, listen_port: u16) -> (r: String)
    ensures
        r@ == endpoint_with_port(endpoint@, listen_port),
{
    let own: bool = match text::rsplit_once(endpoint, ':') {
        Some((_, port)) => number::parse_bounded(port.as_str(), 65535).is_some(),
        None => false,
    };
    let mut out: String = endpoint.to_owned();
    if !own {
        out.append(":");
        out.append(number::decimal_of(listen_port as u64).as_str());
    }
    out
}

/// A peer section.
pub open spec fn peer_section_text(name: Seq<char>, key: Seq<char>, ips: Seq<char>, endpoint: Seq<char>) -> Seq<char> {
    "\n[Peer]\n# "@
        + name
        + "\nPublicKey = "@
        + key
        + "\nAllowedIPs = "@
        + ips
        + "\nEndpoint = "@
        + endpoint
        + "\nPersistentKeepalive = 25\n"@
}

/// A peer section.
pub fn peer_section(name: &str, key: &str, ips: &str, endpoint: &str) -> (r: String)
    ensures
        r@ == peer_section_text(name@, key@, ips@, endpoint@),
{
    let mut out: String = "\n[Peer]\n# ".to_owned();
    out.append(name);
    out.append("\nPublicKey = ");
    out.append(key);
    out.append("\nAllowedIPs = ");
    out.append(ips);
    out.append("\nEndpoint = ");
    out.append(endpoint);
    out.append("\nPersistentKeepalive = 25\n");
    out
}

/// The commands that print a peer section.
pub open spec fn peer_echo_text(name: Seq<char>, key: Seq<char>, ips: Seq<char>, endpoint: Seq<char>) -> Seq<char> {
    "echo \"\"; echo \"[Peer]\"; echo \"# "@
        + name
        + "\"; echo \"PublicKey = "@
        + key
        + "\"; echo \"AllowedIPs = "@
        + ips
        + "\"; echo \"Endpoint = "@
        + endpoint
        + "\"; echo \"PersistentKeepalive = 25\"; "@
}

/// The commands that print a peer section.
pub fn peer_echo(name: &str, key: &str, ips: &str, endpoint: &str) -> (r: String)
    ensures
        r@ == peer_echo_text(name@, key@, ips@, endpoint@),
{
    let mut out: String = "echo \"\"; echo \"[Peer]\"; echo \"# ".to_owned();
    out.append(name);
    out.append("\"; echo \"PublicKey = ");
    out.append(key);
    out.append("\"; echo \"AllowedIPs = ");
    out.append(ips);
    out.append("\"; echo \"Endpoint = ");
    out.append(endpoint);
    out.append("\"; echo \"PersistentKeepalive = 25\"; ");
    out
}

/// The interface section.
pub open spec fn interface_section_text(mgmt_ip: u32, listen_port: u16) -> Seq<char> {
    "[Interface]\nAddress = "@
        + net::dotted(mgmt_ip)
        + "/32\nListenPort = "@
        + number::decimal(listen_port as nat)
        + "\nPrivateKey = __PRIVKEY__\n"@
}

/// The interface section.
pub fn interface_section(mgmt_ip: u32, listen_port: u16) -> (r: String)
    ensures
        r@ == interface_section_text(mgmt_ip, listen_port),
{
    let mut out: String = "[Interface]\nAddress = ".to_owned();
    out.append(net::ip_text(mgmt_ip).as_str());
    out.append("/32\nListenPort = ");
    out.append(number::decimal_of(listen_port as u64).as_str());
    out.append("\nPrivateKey = __PRIVKEY__\n");
    out
}

/// The commands that print the interface section with the private key of the host.
pub open spec fn interface_echo_text(mgmt_ip: u32, listen_port: u16) -> Seq<char> {
    "PRIVKEY=$(cat /etc/wireguard/privatekey) && mkdir -p /etc/wireguard && { echo \"[Interface]\"; echo \"Address = "@
        + net::dotted(mgmt_ip)
        + "/32\"; echo \"ListenPort = "@
        + number::decimal(listen_port as nat)
        + "\"; echo \"PrivateKey = $PRIVKEY\"; "@
}

/// The commands that print the interface section with the private key of the host.
pub fn interface_echo(mgmt_ip: u32, listen_port: u16) -> (r: String)
    ensures
        r@ == interface_echo_text(mgmt_ip, listen_port),
{
    let mut out: String = "PRIVKEY=$(cat /etc/wireguard/privatekey) && mkdir -p /etc/wireguard && { echo \"[Interface]\"; echo \"Address = ".to_owned();
    out.append(net::ip_text(mgmt_ip).as_str());
    out.append("/32\"; echo \"ListenPort = ");
    out.append(number::decimal_of(listen_port as u64).as_str());
    out.append("\"; echo \"PrivateKey = $PRIVKEY\"; ");
    out
}

/// The end of the command: the configuration takes its place in one step.
pub open spec fn move_config_text(iface: Seq<char>) -> Seq<char> {
    "} > /etc/wireguard/"@
        + iface
        + ".conf.tmp && chmod 600 /etc/wireguard/"@
        + iface
        + ".conf.tmp && mv /etc/wireguard/"@
        + iface
        + ".conf.tmp /etc/wireguard/"@
        + iface
        + ".conf"@
}

/// The end of the command: the configuration takes its place in one step.
pub fn move_config(iface: &str) -> (r: String)
    ensures
        r@ == move_config_text(iface@),
{
    let mut out: String = "} > /etc/wireguard/".to_owned();
    out.append(iface);
    out.append(".conf.tmp && chmod 600 /etc/wireguard/");
    out.append(iface);
    out.append(".conf.tmp && mv /etc/wireguard/");
    out.append(iface);
    out.append(".conf.tmp /etc/wireguard/");
    out.append(iface);
    out.append(".conf");
    out
}

/// A peer as a section.
pub open spec fn section_of(listen_port: u16, p: PeerConfigView) -> Seq<char> {
    peer_section_text(p.endpoint, p.public_key, allowed_ips(p), endpoint_with_port(p.endpoint, listen_port))
}

fn section_of_exec(listen_port: u16, p: &PeerConfig) -> (r: String)
    ensures
        r@ == section_of(listen_port, p@),
{
    peer_section(
        p.endpoint.as_str(),
        p.public_key.as_str(),
        allowed_ips_line(p).as_str(),
        endpoint_addr(p.endpoint.as_str(), listen_port).as_str(),
    )
}

/// The peers, one after the other.
pub open spec fn sections(listen_port: u16, peers: Seq<PeerConfigView>) -> Seq<char>
    decreases peers.len(),
{
    if peers.len() == 0 {
        Seq::empty()
    } else {
        sections(listen_port, peers.drop_last()) + section_of(listen_port, peers.last())
    }
}

fn sections_onto(out: &mut String, listen_port: u16, peers: &Vec<PeerConfig>)
    ensures
        final(out)@ == old(out)@ + sections(listen_port, peer_configs(peers@)),
{
    let ghost ps = peer_configs(peers@);
    let mut i: usize = 0;
    proof {
        assert(ps.take(0) =~= Seq::empty());
        assert(out@ =~= out@ + Seq::<char>::empty());
    }
    while i < peers.len()
        invariant
            i <= peers@.len(),
            ps == peer_configs(peers@),
            out@ == old(out)@ + sections(listen_port, ps.take(i as int)),
        decreases peers@.len() - i,
    {
        proof {
            assert(ps.take(i + 1).drop_last() =~= ps.take(i as int));
            assert(ps.take(i + 1).last() == peers@[i as int]@);
            assert((old(out)@ + sections(listen_port, ps.take(i as int))) + section_of(listen_port, peers@[i as int]@)
                =~= old(out)@ + sections(listen_port, ps.take(i + 1)));
        }
        out.append(section_of_exec(listen_port, &peers[i]).as_str());
        i = i + 1;
    }
    proof {
        assert(ps.take(i as int) =~= ps);
    }
}

/// A peer as a row of commands.
pub open spec fn echo_of(listen_port: u16, p: PeerConfigView) -> Seq<char> {
    peer_echo_text(p.endpoint, p.public_key, allowed_ips(p), endpoint_with_port(p.endpoint, listen_port))
}

fn echo_of_exec(listen_port: u16, p: &PeerConfig) -> (r: String)
    ensures
        r@ == echo_of(listen_port, p@),
{
    peer_echo(
        p.endpoint.as_str(),
        p.public_key.as_str(),
        allowed_ips_line(p).as_str(),
        endpoint_addr(p.endpoint.as_str(), listen_port).as_str(),
    )
}

/// The peers, one after the other.
pub open spec fn echos(listen_port: u16, peers: Seq<PeerConfigView>) -> Seq<char>
    decreases peers.len(),
{
    if peers.len() == 0 {
        Seq::empty()
    } else {
        echos(listen_port, peers.drop_last()) + echo_of(listen_port, peers.last())
    }
}

fn echos_onto(out: &mut String, listen_port: u16, peers: &Vec<PeerConfig>)
    ensures
        final(out)@ == old(out)@ + echos(listen_port, peer_configs(peers@)),
{
    let ghost ps = peer_configs(peers@);
    let mut i: usize = 0;
    proof {
        assert(ps.take(0) =~= Seq::empty());
        assert(out@ =~= out@ + Seq::<char>::empty());
    }
    while i < peers.len()
        invariant
            i <= peers@.len(),
            ps == peer_configs(peers@),
            out@ == old(out)@ + echos(listen_port, ps.take(i as int)),
        decreases peers@.len() - i,
    {
        proof {
            assert(ps.take(i + 1).drop_last() =~= ps.take(i as int));
            assert(ps.take(i + 1).last() == peers@[i as int]@);
            assert((old(out)@ + echos(listen_port, ps.take(i as int))) + echo_of(listen_port, peers@[i as int]@)
                =~= old(out)@ + echos(listen_port, ps.take(i + 1)));
        }
        out.append(echo_of_exec(listen_port, &peers[i]).as_str());
        i = i + 1;
    }
    proof {
        assert(ps.take(i as int) =~= ps);
    }
}

/// The configuration with a place for the private key.
pub open spec fn config_text(mgmt_ip: u32, listen_port: u16, peers: Seq<PeerConfigView>) -> Seq<char> {
    interface_section_text(mgmt_ip, listen_port) + sections(listen_port, peers)
}

pub fn render_config(mgmt_ip: u32, listen_port: u16, peers: &Vec<PeerConfig>) -> (r: String)
    ensures
        r@ == config_text(mgmt_ip, listen_port, peer_configs(peers@)),
{
    let mut s: String = interface_section(mgmt_ip, listen_port);
    sections_onto(&mut s, listen_port, peers);
    s
}

/// The command that writes the configuration with the private key of the host.
pub open spec fn write_text(
    iface: Seq<char>,
    mgmt_ip: u32,
    listen_port: u16,
    peers: Seq<PeerConfigView>,
) -> Seq<char> {
    interface_echo_text(mgmt_ip, listen_port) + echos(listen_port, peers) + move_config_text(iface)
}

pub fn write_config_command(
    iface: &str,
    mgmt_ip: u32,
    listen_port: u16,
    peers: &Vec<PeerConfig>,
) -> (r: String)
    ensures
        r@ == write_text(iface@, mgmt_ip, listen_port, peer_configs(peers@)),
{
    let mut cmd: String = interface_echo(mgmt_ip, listen_port);
    echos_onto(&mut cmd, listen_port, peers);
    cmd.append(move_config(iface).as_str());
    cmd
}

} // verus!
