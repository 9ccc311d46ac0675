//! The interface configuration of a host whose peers all listen on one port.

use vstd::prelude::*;
use vstd::string::StringExecFns;
use crate::cli::config;
use crate::number;

pub use crate::cli::config::{allowed_ips_line, PeerConfig, PeerConfigView};

verus! {

/// An endpoint with the port that all listen on.
pub open spec fn at_port(endpoint: Seq<char>, listen_port: u16) -> Seq<char> {
    endpoint + ":"@ + number::decimal(listen_port as nat)
}

fn with_port(endpoint: &str, listen_port: u16) -> (r: String)
    ensures
        r@ == at_port(endpoint@, listen_port),
{
    let mut out: String = endpoint.to_owned();
    out.append(":");
    out.append(number::decimal_of(listen_port as u64).as_str());
    out
}

/// A peer as a section.
pub open spec fn section_of(listen_port: u16, p: PeerConfigView) -> Seq<char> {
    config::peer_section_text(p.endpoint, p.public_key, config::allowed_ips(p), at_port(p.endpoint, listen_port))
}

fn section_of_exec(listen_port: u16, p: &PeerConfig) -> (r: String)
    ensures
        r@ == section_of(listen_port, p@),
{
    config::peer_section(
        p.endpoint.as_str(),
        p.public_key.as_str(),
        config::allowed_ips_line(p).as_str(),
        with_port(p.endpoint.as_str(), listen_port).as_str(),
    )
}

/// The peers, one after the other.
pub open spec fn sections(listen_port: u16, peers: Seq<PeerConfigView>) -> Seq<char>
    decreases peers.len(),
{
    if peers.len() == 0 {
        Seq::empty()
    } else {
        sections(listen_port, peers.drop_last()) + section_of(listen_port, peers.last())
    }
}

fn sections_onto(out: &mut String, listen_port: u16, peers: &Vec<PeerConfig>)
    ensures
        final(out)@ == old(out)@ + sections(listen_port, config::peer_configs(peers@)),
{
    let ghost ps = config::peer_configs(peers@);
    let mut i: usize = 0;
    proof {
        assert(ps.take(0) =~= Seq::empty());
        assert(out@ =~= out@ + Seq::<char>::empty());
    }
    while i < peers.len()
        invariant
            i <= peers@.len(),
            ps == config::peer_configs(peers@),
            out@ == old(out)@ + sections(listen_port, ps.take(i as int)),
        decreases peers@.len() - i,
    {
        proof {
            assert(ps.take(i + 1).drop_last() =~= ps.take(i as int));
            assert(ps.take(i + 1).last() == peers@[i as int]@);
            assert((old(out)@ + sections(listen_port, ps.take(i as int))) + section_of(listen_port, peers@[i as int]@)
                =~= old(out)@ + sections(listen_port, ps.take(i + 1)));
        }
        out.append(section_of_exec(listen_port, &peers[i]).as_str());
        i = i + 1;
    }
    proof {
        assert(ps.take(i as int) =~= ps);
    }
}

/// A peer as a row of commands.
pub open spec fn echo_of(listen_port: u16, p: PeerConfigView) -> Seq<char> {
    config::peer_echo_text(p.endpoint, p.public_key, config::allowed_ips(p), at_port(p.endpoint, listen_port))
}

fn echo_of_exec(listen_port: u16, p: &PeerConfig) -> (r: String)
    ensures
        r@ == echo_of(listen_port, p@),
{
    config::peer_echo(
        p.endpoint.as_str(),
        p.public_key.as_str(),
        config::allowed_ips_line(p).as_str(),
        with_port(p.endpoint.as_str(), listen_port).as_str(),
    )
}

/// The peers, one after the other.
pub open spec fn echos(listen_port: u16, peers: Seq<PeerConfigView>) -> Seq<char>
    decreases peers.len(),
{
    if peers.len() == 0 {
        Seq::empty()
    } else {
        echos(listen_port, peers.drop_last()) + echo_of(listen_port, peers.last())
    }
}

fn echos_onto(out: &mut String, listen_port: u16, peers: &Vec<PeerConfig>)
    ensures
        final(out)@ == old(out)@ + echos(listen_port, config::peer_configs(peers@)),
{
    let ghost ps = config::peer_configs(peers@);
    let mut i: usize = 0;
    proof {
        assert(ps.take(0) =~= Seq::empty());
        assert(out@ =~= out@ + Seq::<char>::empty());
    }
    while i < peers.len()
        invariant
            i <= peers@.len(),
            ps == config::peer_configs(peers@),
            out@ == old(out)@ + echos(listen_port, ps.take(i as int)),
        decreases peers@.len() - i,
    {
        proof {
            assert(ps.take(i + 1).drop_last() =~= ps.take(i as int));
            assert(ps.take(i + 1).last() == peers@[i as int]@);
            assert((old(out)@ + echos(listen_port, ps.take(i as int))) + echo_of(listen_port, peers@[i as int]@)
                =~= old(out)@ + echos(listen_port, ps.take(i + 1)));
        }
        out.append(echo_of_exec(listen_port, &peers[i]).as_str());
        i = i + 1;
    }
    proof {
        assert(ps.take(i as int) =~= ps);
    }
}

/// The configuration with a place for the private key.
pub open spec fn config_text(mgmt_ip: u32, listen_port: u16, peers: Seq<PeerConfigView>) -> Seq<char> {
    config::interface_section_text(mgmt_ip, listen_port) + sections(listen_port, peers)
}

pub fn render_config(mgmt_ip: u32, listen_port: u16, peers: &Vec<PeerConfig>) -> (r: String)
    ensures
        r@ == config_text(mgmt_ip, listen_port, config::peer_configs(peers@)),
{
    let mut s: String = config::interface_section(mgmt_ip, listen_port);
    sections_onto(&mut s, listen_port, peers);
    s
}

/// The command that writes the configuration with the private key of the host.
pub open spec fn write_text(
    iface: Seq<char>,
    mgmt_ip: u32,
    listen_port: u16,
    peers: Seq<PeerConfigView>,
) -> Seq<char> {
    config::interface_echo_text(mgmt_ip, listen_port) + echos(listen_port, peers) + config::move_config_text(iface)
}

pub fn write_config_command(
    iface: &str,
    mgmt_ip: u32,
    listen_port: u16,
    peers: &Vec<PeerConfig>,
) -> (r: String)
    ensures
        r@ == write_text(iface@, mgmt_ip, listen_port, config::peer_configs(peers@)),
{
    let mut cmd: String = config::interface_echo(mgmt_ip, listen_port);
    echos_onto(&mut cmd, listen_port, peers);
    cmd.append(config::move_config(iface).as_str());
    cmd
}

} // verus!
