//! What the nodes are given of Corrosion: its configuration, its binary, its unit and the
//! certificate of its gossip.

use vstd::prelude::*;
use vstd::string::StringExecFns;
use crate::cli::checksum;
use crate::cli::ssh;
use crate::keyed;
use crate::keyed::StrMap;
use crate::mesh::state::{DesiredMesh, SelfSignedCert};
use crate::net;
use crate::number;
use crate::split;
use crate::text;

verus! {

/// The Corrosion files, with places that are filled in for each node.
#[derive(Clone, Debug)]
pub struct CorrosionFiles {
    /// The configuration. Its places are `{{mgmt_ip}}`, `{{gossip_port}}`, `{{api_port}}`,
    /// `{{peers}}` and `{{gossip_tls}}`.
    pub config: String,
    pub schema_sql: String,
    /// The script that fetches the release `{{version}}` from `$URL` to
    /// `$DLDIR/corrosion.tar.gz`.
    pub download: String,
    /// The script that goes on from there.
    pub install: String,
    /// The unit, which waits for `{{interface}}`.
    pub service_unit: String,
}

/// What the configuration of a node is made from.
#[derive(Clone, Debug)]
pub struct ConfigInputs {
    /// The address that Corrosion binds on the node.
    pub mgmt_ip: u32,
    pub gossip_port: u16,
    pub api_port: u16,
    /// The addresses of the other nodes.
    pub peers: Vec<u32>,
    pub gossip_tls: bool,
}

/// What `ConfigInputs` say.
#[verifier::ext_equal]
pub struct InputsView {
    pub mgmt_ip: u32,
    pub gossip_port: u16,
    pub api_port: u16,
    pub peers: Seq<u32>,
    pub gossip_tls: bool,
}

impl View for ConfigInputs {
    type V = InputsView;

    open spec fn view(&self) -> InputsView {
        InputsView {
            mgmt_ip: self.mgmt_ip,
            gossip_port: self.gossip_port,
            api_port: self.api_port,
            peers: self.peers@,
            gossip_tls: self.gossip_tls,
        }
    }
}

/// The management addresses of the other nodes, in their order.
pub open spec fn peer_ips(
    nodes: Seq<Seq<char>>,
    mgmt: Seq<(Seq<char>, u32)>,
    host: Seq<char>,
) -> Seq<u32>
    decreases nodes.len(),
{
    if nodes.len() == 0 {
        Seq::empty()
    } else if nodes.last() != host && keyed::lookup(mgmt, nodes.last()) is Some {
        peer_ips(nodes.drop_last(), mgmt, host).push(keyed::lookup(mgmt, nodes.last())->0)
    } else {
        peer_ips(nodes.drop_last(), mgmt, host)
    }
}

/// What the configuration of a node is made from: its address, the two ports, the addresses
/// of the other nodes, and whether gossip runs over TLS.
pub open spec fn inputs_of(
    d: DesiredMesh,
    mgmt: Seq<(Seq<char>, u32)>,
    host: Seq<char>,
) -> InputsView {
    InputsView {
        mgmt_ip: keyed::lookup(mgmt, host)->0,
        gossip_port: d.corrosion_gossip_port,
        api_port: d.corrosion_api_port,
        peers: peer_ips(text::views(d.nodes@), mgmt, host),
        gossip_tls: d.corrosion_gossip_tls is Some,
    }
}

/// What the configuration of a node is made from.
pub fn config_inputs(desired: &DesiredMesh, mgmt: &StrMap<u32>, host: &str) -> (r: ConfigInputs)
    requires
        keyed::lookup(mgmt@, host@) is Some,
    ensures
        r@ == inputs_of(*desired, mgmt@, host@),
{
    let ghost ns = text::views(desired.nodes@);
    let mgmt_ip: u32 = match mgmt.get(host) {
        Some(ip) => *ip,
        None => 0,
    };
    let mut peers: Vec<u32> = Vec::new();
    let mut i: usize = 0;
    proof {
        assert(ns.take(0) =~= Seq::empty());
    }
    while i < desired.nodes.len()
        invariant
            i <= desired.nodes@.len(),
            ns == text::views(desired.nodes@),
            peers@ == peer_ips(ns.take(i as int), mgmt@, host@),
        decreases desired.nodes@.len() - i,
    {
        proof {
            assert(ns.take(i + 1).drop_last() =~= ns.take(i as int));
            assert(ns.take(i + 1).last() == desired.nodes@[i as int]@);
        }
        if !text::same(desired.nodes[i].as_str(), host) {
            if let Some(ip) = mgmt.get(desired.nodes[i].as_str()) {
                peers.push(*ip);
            }
        }
        i = i + 1;
    }
    proof {
        assert(ns.take(i as int) =~= ns);
    }
    ConfigInputs {
        mgmt_ip,
        gossip_port: desired.corrosion_gossip_port,
        api_port: desired.corrosion_api_port,
        peers,
        gossip_tls: desired.corrosion_gossip_tls.is_some(),
    }
}

/// A node that gossip starts from.
pub open spec fn peer_text(ip: u32, port: u16) -> Seq<char> {
    "\""@
        + net::dotted(ip)
        + ":"@
        + number::decimal(port as nat)
        + "\""@
}

fn show_peer(ip: u32, port: u16) -> (r: String)
    ensures
        r@ == peer_text(ip, port),
{
    let mut out: String = "\"".to_owned();
    out.append(net::ip_text(ip).as_str());
    out.append(":");
    out.append(number::decimal_of(port as u64).as_str());
    out.append("\"");
    out
}

/// The nodes that gossip starts from.
pub open spec fn peers_text(peers: Seq<u32>, port: u16) -> Seq<char> {
    split::joined(Seq::new(peers.len(), |i: int| peer_text(peers[i], port)), ", "@)
}

fn show_peers(peers: &Vec<u32>, port: u16) -> (r: String)
    ensures
        r@ == peers_text(peers@, port),
{
    broadcast use text::views_push;

    let mut shown: Vec<String> = Vec::new();
    let mut i: usize = 0;
    proof {
        assert(text::views(shown@) =~= Seq::empty());
    }
    while i < peers.len()
        invariant
            i <= peers@.len(),
            text::views(shown@) == Seq::new(i as nat, |j: int| peer_text(peers@[j], port)),
        decreases peers@.len() - i,
    {
        proof {
            assert(Seq::new((i + 1) as nat, |j: int| peer_text(peers@[j], port)) =~= Seq::new(
                i as nat,
                |j: int| peer_text(peers@[j], port),
            ).push(peer_text(peers@[i as int], port)));
        }
        shown.push(show_peer(peers[i], port));
        i = i + 1;
    }
    split::join(&shown, ", ")
}

/// Where the certificate of gossip stands on a node.
pub const GOSSIP_CERT_PATH: &'static str = "/etc/corrosion/tls/cert.pem";

/// Where the key of that certificate stands.
pub const GOSSIP_KEY_PATH: &'static str = "/etc/corrosion/tls/key.pem";

/// How gossip is secured. Over TLS it is encrypted only: a certificate that all nodes share
/// cannot tell them apart, so that no authority is checked.
pub open spec fn gossip_tls_text(tls: bool) -> Seq<char> {
    if tls {
        "plaintext = false\n\n[gossip.tls]\ncert_file = \""@ + GOSSIP_CERT_PATH@
            + "\"\nkey_file = \""@ + GOSSIP_KEY_PATH@ + "\"\ninsecure = true"@
    } else {
        "plaintext = true"@
    }
}

fn show_gossip_tls(tls: bool) -> (r: String)
    ensures
        r@ == gossip_tls_text(tls),
{
    if tls {
        let mut out: String = "plaintext = false\n\n[gossip.tls]\ncert_file = \"".to_owned();
        out.append(GOSSIP_CERT_PATH);
        out.append("\"\nkey_file = \"");
        out.append(GOSSIP_KEY_PATH);
        out.append("\"\ninsecure = true");
        out
    } else {
        "plaintext = true".to_owned()
    }
}

/// A configuration with its places filled in.
pub open spec fn filled(config: Seq<char>, v: InputsView) -> Seq<char> {
    let a = text::replaced_text(config, "{{mgmt_ip}}"@, net::dotted(v.mgmt_ip));
    let b = text::replaced_text(a, "{{gossip_port}}"@, number::decimal(v.gossip_port as nat));
    let c = text::replaced_text(b, "{{api_port}}"@, number::decimal(v.api_port as nat));
    let d = text::replaced_text(c, "{{peers}}"@, peers_text(v.peers, v.gossip_port));
    text::replaced_text(d, "{{gossip_tls}}"@, gossip_tls_text(v.gossip_tls))
}

/// Fills in the places of a configuration.
pub fn fill_config(config: &str, v: &ConfigInputs) -> (r: String)
    ensures
        r@ == filled(config@, v@),
{
    let a: String = text::replace_text(config, "{{mgmt_ip}}", net::ip_text(v.mgmt_ip).as_str());
    let b: String = text::replace_text(
        a.as_str(),
        "{{gossip_port}}",
        number::decimal_of(v.gossip_port as u64).as_str(),
    );
    let c: String = text::replace_text(
        b.as_str(),
        "{{api_port}}",
        number::decimal_of(v.api_port as u64).as_str(),
    );
    let d: String = text::replace_text(
        c.as_str(),
        "{{peers}}",
        show_peers(&v.peers, v.gossip_port).as_str(),
    );
    text::replace_text(d.as_str(), "{{gossip_tls}}", show_gossip_tls(v.gossip_tls).as_str())
}

/// The configuration of a node.
pub open spec fn config_of(
    files: CorrosionFiles,
    d: DesiredMesh,
    mgmt: Seq<(Seq<char>, u32)>,
    host: Seq<char>,
) -> Seq<char> {
    filled(files.config@, inputs_of(d, mgmt, host))
}

/// The configuration of a node.
pub fn node_config(
    files: &CorrosionFiles,
    desired: &DesiredMesh,
    mgmt: &StrMap<u32>,
    host: &str,
) -> (r: String)
    requires
        keyed::lookup(mgmt@, host@) is Some,
    ensures
        r@ == config_of(*files, *desired, mgmt@, host@),
{
    fill_config(files.config.as_str(), &config_inputs(desired, mgmt, host))
}

/// The script that fetches a release.
pub open spec fn download_text(files: CorrosionFiles, version: Seq<char>) -> Seq<char> {
    text::replaced_text(files.download@, "{{version}}"@, version)
}

/// The script that installs a release that was fetched.
pub open spec fn unpack_text(files: CorrosionFiles, version: Seq<char>) -> Seq<char> {
    text::replaced_text(files.install@, "{{version}}"@, version)
}

/// The script that installs a release. What was fetched is checked before it is unpacked:
/// against the pinned digest, or against the published one where there is one.
pub open spec fn checked_install_text(
    files: CorrosionFiles,
    version: Seq<char>,
    sha256: Option<Seq<char>>,
) -> Seq<char> {
    download_text(files, version) + "\n"@ + checksum::snippet(
        "$DLDIR/corrosion.tar.gz"@,
        "$URL"@,
        "corrosion"@,
        sha256,
    ) + "\n"@ + unpack_text(files, version)
}

/// The script that installs a release that is checked.
pub fn checked_install(files: &CorrosionFiles, version: &str, sha256: Option<&str>) -> (r: String)
    ensures
        r@ == checked_install_text(*files, version@, checksum::digest_view(sha256)),
{
    let mut out: String = text::replace_text(files.download.as_str(), "{{version}}", version);
    out.append("\n");
    out.append(
        checksum::checksum_verify_snippet(
            "$DLDIR/corrosion.tar.gz",
            "$URL",
            "corrosion",
            sha256,
        ).as_str(),
    );
    out.append("\n");
    out.append(text::replace_text(files.install.as_str(), "{{version}}", version).as_str());
    out
}

/// The script that installs a release as it was fetched.
pub open spec fn plain_install_text(files: CorrosionFiles, version: Seq<char>) -> Seq<char> {
    download_text(files, version) + "\n"@ + unpack_text(files, version)
}

/// The script that installs a release as it was fetched.
pub fn plain_install(files: &CorrosionFiles, version: &str) -> (r: String)
    ensures
        r@ == plain_install_text(*files, version@),
{
    let mut out: String = text::replace_text(files.download.as_str(), "{{version}}", version);
    out.append("\n");
    out.append(text::replace_text(files.install.as_str(), "{{version}}", version).as_str());
    out
}

/// The unit of Corrosion.
pub open spec fn unit_text(files: CorrosionFiles, interface: Seq<char>) -> Seq<char> {
    text::replaced_text(files.service_unit@, "{{interface}}"@, interface)
}

/// The unit of Corrosion.
pub fn unit(files: &CorrosionFiles, interface: &str) -> (r: String)
    ensures
        r@ == unit_text(*files, interface@),
{
    text::replace_text(files.service_unit.as_str(), "{{interface}}", interface)
}

/// The writing of the certificate and the key of gossip, with what comes behind it: nothing
/// but that where gossip is plain. The key is at no time readable by others.
pub open spec fn with_gossip_tls(tls: Option<SelfSignedCert>, then: Seq<char>) -> Seq<char> {
    match tls {
        None => then,
        Some(c) => "mkdir -p /etc/corrosion/tls && "@ + ssh::heredoc_text(
            GOSSIP_CERT_PATH@,
            c.cert_pem@,
            "0644"@,
        ) + " && (umask 077 && "@ + ssh::heredoc_text(GOSSIP_KEY_PATH@, c.key_pem@, "0600"@)
            + ") && "@ + then,
    }
}

/// Puts the writing of the certificate and the key of gossip before a command.
pub fn after_gossip_tls(tls: &Option<SelfSignedCert>, then: &str) -> (r: String)
    ensures
        r@ == with_gossip_tls(*tls, then@),
{
    match tls {
        None => then.to_owned(),
        Some(c) => {
            let mut out: String = "mkdir -p /etc/corrosion/tls && ".to_owned();
            out.append(ssh::heredoc(GOSSIP_CERT_PATH, c.cert_pem.as_str(), "0644").as_str());
            out.append(" && (umask 077 && ");
            out.append(ssh::heredoc(GOSSIP_KEY_PATH, c.key_pem.as_str(), "0600").as_str());
            out.append(") && ");
            out.append(then);
            out
        },
    }
}

} // verus!
