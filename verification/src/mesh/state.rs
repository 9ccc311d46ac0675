//! What the mesh is and what it should be.

use vstd::prelude::*;
use crate::keyed;
use crate::keyed::StrMap;
use crate::mesh::intent::Intent;
use crate::net::Ipv4Net;
use crate::text;

verus! {

/// A peer of a WireGuard interface.
#[derive(Clone, Debug)]
pub struct Peer {
    pub public_key: String,
    pub endpoint: String,
    pub allowed_ips: Vec<String>,
    pub latest_handshake: i64,
    pub persistent_keepalive: u16,
}

/// What a `Peer` says.
pub struct PeerView {
    pub public_key: Seq<char>,
    pub endpoint: Seq<char>,
    pub allowed_ips: Seq<Seq<char>>,
    pub latest_handshake: i64,
    pub persistent_keepalive: u16,
}

impl View for Peer {
    type V = PeerView;

    open spec fn view(&self) -> PeerView {
        PeerView {
            public_key: self.public_key@,
            endpoint: self.endpoint@,
            allowed_ips: text::views(self.allowed_ips@),
            latest_handshake: self.latest_handshake,
            persistent_keepalive: self.persistent_keepalive,
        }
    }
}

pub open spec fn peer_views(s: Seq<Peer>) -> Seq<PeerView> {
    Seq::new(s.len(), |i: int| s[i]@)
}

pub broadcast proof fn peer_views_push(s: Seq<Peer>, x: Peer)
    ensures
        #[trigger] peer_views(s.push(x)) == peer_views(s).push(x@),
{
    assert(peer_views(s.push(x)) =~= peer_views(s).push(x@));
}

/// A peer of which nothing is known yet.
pub open spec fn new_peer() -> PeerView {
    PeerView {
        public_key: Seq::empty(),
        endpoint: Seq::empty(),
        allowed_ips: Seq::empty(),
        latest_handshake: 0,
        persistent_keepalive: 0,
    }
}

impl Default for Peer {
    fn default() -> (r: Self)
        ensures
            r@ == new_peer(),
    {
        let r: Peer = Peer {
            public_key: String::new(),
            endpoint: String::new(),
            allowed_ips: Vec::new(),
            latest_handshake: 0,
            persistent_keepalive: 0,
        };
        proof {
            assert(text::views(r.allowed_ips@) =~= Seq::empty());
        }
        r
    }
}

/// A namespace on a host, as probed.
#[derive(Clone, Debug)]
pub struct NamespaceServerState {
    pub namespace: String,
    pub network_exists: bool,
    pub container_subnet: Option<Ipv4Net>,
    pub dns_enabled: bool,
    pub label: String,
}

/// What a `NamespaceServerState` says.
pub struct NamespaceView {
    pub namespace: Seq<char>,
    pub network_exists: bool,
    pub container_subnet: Option<Ipv4Net>,
    pub dns_enabled: bool,
    pub label: Seq<char>,
}

impl View for NamespaceServerState {
    type V = NamespaceView;

    open spec fn view(&self) -> NamespaceView {
        NamespaceView {
            namespace: self.namespace@,
            network_exists: self.network_exists,
            container_subnet: self.container_subnet,
            dns_enabled: self.dns_enabled,
            label: self.label@,
        }
    }
}

/// Namespace entries by what they say.
pub open spec fn namespace_views(s: Seq<(Seq<char>, NamespaceServerState)>) -> Seq<(
    Seq<char>,
    NamespaceView,
)> {
    Seq::new(s.len(), |i: int| (s[i].0, s[i].1@))
}

pub proof fn namespace_views_lookup(
    s: Seq<(Seq<char>, NamespaceServerState)>,
    k: Seq<char>,
)
    ensures
        keyed::lookup(namespace_views(s), k) == (match keyed::lookup(s, k) {
            Some(n) => Some(n@),
            None => None,
        }),
    decreases s.len(),
{
    if s.len() > 0 {
        assert(namespace_views(s).drop_first() =~= namespace_views(s.drop_first()));
        namespace_views_lookup(s.drop_first(), k);
    }
}

pub proof fn namespace_views_put(
    s: Seq<(Seq<char>, NamespaceServerState)>,
    k: Seq<char>,
    n: NamespaceServerState,
)
    ensures
        namespace_views(keyed::put(s, k, n)) == keyed::put(namespace_views(s), k, n@),
    decreases s.len(),
{
    if s.len() > 0 {
        assert(namespace_views(s).drop_first() =~= namespace_views(s.drop_first()));
        namespace_views_put(s.drop_first(), k, n);
    }
    assert(namespace_views(keyed::put(s, k, n)) =~= keyed::put(namespace_views(s), k, n@));
}

/// A host, as probed.
#[derive(Clone, Debug)]
pub struct ServerState {
    pub host: String,
    pub installed: bool,
    pub keys_exist: bool,
    pub public_key: String,
    pub wireguard_mgmt_ip: Option<u32>,
    pub listen_port: u16,
    pub interface: String,
    pub active: bool,
    pub peers: Vec<Peer>,
    pub podman_installed: bool,
    pub podman_socket_active: bool,
    pub namespaces: StrMap<NamespaceServerState>,
    pub ip_forward_enabled: bool,
    pub firewall_active: bool,
    pub default_deny_active: bool,
    pub firewall_unit_sha256: String,
    pub bridge_table_exists: bool,
    pub nft_available: bool,
    pub corrosion_installed: bool,
    pub corrosion_active: bool,
    pub corrosion_config_hash: String,
    pub corrosion_schema_exists: bool,
    pub corrosion_schema_sha256: String,
    pub coold_installed: bool,
    pub coold_active: bool,
    pub corrosion_version: String,
    pub coold_version: String,
    pub coold_unit_sha256: String,
}

/// What a `ServerState` says.
pub struct ServerView {
    pub host: Seq<char>,
    pub installed: bool,
    pub keys_exist: bool,
    pub public_key: Seq<char>,
    pub wireguard_mgmt_ip: Option<u32>,
    pub listen_port: u16,
    pub interface: Seq<char>,
    pub active: bool,
    pub peers: Seq<PeerView>,
    pub podman_installed: bool,
    pub podman_socket_active: bool,
    pub namespaces: Seq<(Seq<char>, NamespaceView)>,
    pub ip_forward_enabled: bool,
    pub firewall_active: bool,
    pub default_deny_active: bool,
    pub firewall_unit_sha256: Seq<char>,
    pub bridge_table_exists: bool,
    pub nft_available: bool,
    pub corrosion_installed: bool,
    pub corrosion_active: bool,
    pub corrosion_config_hash: Seq<char>,
    pub corrosion_schema_exists: bool,
    pub corrosion_schema_sha256: Seq<char>,
    pub coold_installed: bool,
    pub coold_active: bool,
    pub corrosion_version: Seq<char>,
    pub coold_version: Seq<char>,
    pub coold_unit_sha256: Seq<char>,
}

impl View for ServerState {
    type V = ServerView;

    open spec fn view(&self) -> ServerView {
        ServerView {
            host: self.host@,
            installed: self.installed,
            keys_exist: self.keys_exist,
            public_key: self.public_key@,
            wireguard_mgmt_ip: self.wireguard_mgmt_ip,
            listen_port: self.listen_port,
            interface: self.interface@,
            active: self.active,
            peers: peer_views(self.peers@),
            podman_installed: self.podman_installed,
            podman_socket_active: self.podman_socket_active,
            namespaces: namespace_views(self.namespaces@),
            ip_forward_enabled: self.ip_forward_enabled,
            firewall_active: self.firewall_active,
            default_deny_active: self.default_deny_active,
            firewall_unit_sha256: self.firewall_unit_sha256@,
            bridge_table_exists: self.bridge_table_exists,
            nft_available: self.nft_available,
            corrosion_installed: self.corrosion_installed,
            corrosion_active: self.corrosion_active,
            corrosion_config_hash: self.corrosion_config_hash@,
            corrosion_schema_exists: self.corrosion_schema_exists,
            corrosion_schema_sha256: self.corrosion_schema_sha256@,
            coold_installed: self.coold_installed,
            coold_active: self.coold_active,
            corrosion_version: self.corrosion_version@,
            coold_version: self.coold_version@,
            coold_unit_sha256: self.coold_unit_sha256@,
        }
    }
}

/// A host of which nothing is known.
pub open spec fn unknown_server() -> ServerView {
    ServerView {
        host: Seq::empty(),
        installed: false,
        keys_exist: false,
        public_key: Seq::empty(),
        wireguard_mgmt_ip: None,
        listen_port: 0,
        interface: Seq::empty(),
        active: false,
        peers: Seq::empty(),
        podman_installed: false,
        podman_socket_active: false,
        namespaces: Seq::empty(),
        ip_forward_enabled: false,
        firewall_active: false,
        default_deny_active: false,
        firewall_unit_sha256: Seq::empty(),
        bridge_table_exists: false,
        nft_available: false,
        corrosion_installed: false,
        corrosion_active: false,
        corrosion_config_hash: Seq::empty(),
        corrosion_schema_exists: false,
        corrosion_schema_sha256: Seq::empty(),
        coold_installed: false,
        coold_active: false,
        corrosion_version: Seq::empty(),
        coold_version: Seq::empty(),
        coold_unit_sha256: Seq::empty(),
    }
}

impl Default for ServerState {
    fn default() -> (r: Self)
        ensures
            r@ == unknown_server(),
    {
        let r: ServerState = ServerState {
            host: String::new(),
            installed: false,
            keys_exist: false,
            public_key: String::new(),
            wireguard_mgmt_ip: None,
            listen_port: 0,
            interface: String::new(),
            active: false,
            peers: Vec::new(),
            podman_installed: false,
            podman_socket_active: false,
            namespaces: StrMap::new(),
            ip_forward_enabled: false,
            firewall_active: false,
            default_deny_active: false,
            firewall_unit_sha256: String::new(),
            bridge_table_exists: false,
            nft_available: false,
            corrosion_installed: false,
            corrosion_active: false,
            corrosion_config_hash: String::new(),
            corrosion_schema_exists: false,
            corrosion_schema_sha256: String::new(),
            coold_installed: false,
            coold_active: false,
            corrosion_version: String::new(),
            coold_version: String::new(),
            coold_unit_sha256: String::new(),
        };
        proof {
            assert(peer_views(r.peers@) =~= Seq::empty());
            assert(namespace_views(r.namespaces@) =~= Seq::empty());
        }
        r
    }
}

/// The hosts of a mesh, as probed.
#[derive(Clone, Debug)]
pub struct MeshState {
    pub servers: StrMap<ServerState>,
}

/// Server entries by what they say.
pub open spec fn server_views(s: Seq<(Seq<char>, ServerState)>) -> Seq<(Seq<char>, ServerView)> {
    Seq::new(s.len(), |i: int| (s[i].0, s[i].1@))
}

pub proof fn server_views_lookup(s: Seq<(Seq<char>, ServerState)>, k: Seq<char>)
    ensures
        keyed::lookup(server_views(s), k) == (match keyed::lookup(s, k) {
            Some(n) => Some(n@),
            None => None,
        }),
    decreases s.len(),
{
    if s.len() > 0 {
        assert(server_views(s).drop_first() =~= server_views(s.drop_first()));
        server_views_lookup(s.drop_first(), k);
    }
}

pub proof fn server_views_put(s: Seq<(Seq<char>, ServerState)>, k: Seq<char>, n: ServerState)
    ensures
        server_views(keyed::put(s, k, n)) == keyed::put(server_views(s), k, n@),
    decreases s.len(),
{
    if s.len() > 0 {
        assert(server_views(s).drop_first() =~= server_views(s.drop_first()));
        server_views_put(s.drop_first(), k, n);
    }
    assert(server_views(keyed::put(s, k, n)) =~= keyed::put(server_views(s), k, n@));
}

impl View for MeshState {
    type V = Seq<(Seq<char>, ServerView)>;

    open spec fn view(&self) -> Seq<(Seq<char>, ServerView)> {
        server_views(self.servers@)
    }
}

impl Default for MeshState {
    fn default() -> (r: Self)
        ensures
            r@ == Seq::<(Seq<char>, ServerView)>::empty(),
    {
        let r: MeshState = MeshState { servers: StrMap::new() };
        proof {
            assert(r@ =~= Seq::empty());
        }
        r
    }
}

/// The management addresses of the hosts that have one.
pub open spec fn assigned_ips(s: Seq<(Seq<char>, ServerView)>) -> Seq<(Seq<char>, u32)>
    decreases s.len(),
{
    if s.len() == 0 {
        Seq::empty()
    } else {
        match s.last().1.wireguard_mgmt_ip {
            Some(ip) => keyed::put(assigned_ips(s.drop_last()), s.last().0, ip),
            None => assigned_ips(s.drop_last()),
        }
    }
}

/// The subnets of one host's namespaces, put into `out`.
pub open spec fn host_subnets(
    host: Seq<char>,
    nss: Seq<(Seq<char>, NamespaceView)>,
    out: Seq<(Seq<char>, Seq<(Seq<char>, Ipv4Net)>)>,
) -> Seq<(Seq<char>, Seq<(Seq<char>, Ipv4Net)>)>
    decreases nss.len(),
{
    if nss.len() == 0 {
        out
    } else {
        let before = host_subnets(host, nss.drop_last(), out);
        match nss.last().1.container_subnet {
            Some(n) => keyed::put2(before, nss.last().0, host, n),
            None => before,
        }
    }
}

/// The container subnets by namespace and host.
pub open spec fn assigned_subnets(s: Seq<(Seq<char>, ServerView)>) -> Seq<(
    Seq<char>,
    Seq<(Seq<char>, Ipv4Net)>,
)>
    decreases s.len(),
{
    if s.len() == 0 {
        Seq::empty()
    } else {
        host_subnets(s.last().0, s.last().1.namespaces, assigned_subnets(s.drop_last()))
    }
}

impl MeshState {
    pub fn assigned_mgmt_ips(&self) -> (r: StrMap<u32>)
        ensures
            r@ == assigned_ips(self@),
    {
        let mut out: StrMap<u32> = StrMap::new();
        let mut i: usize = 0;
        proof {
            assert(self@.take(0) =~= Seq::empty());
        }
        while i < self.servers.len()
            invariant
                i <= self.servers@.len(),
                out@ == assigned_ips(self@.take(i as int)),
            decreases self.servers@.len() - i,
        {
            proof {
                assert(self@.take(i + 1).drop_last() =~= self@.take(i as int));
                assert(self@.take(i + 1).last() == (self.servers@[i as int].0,
                    self.servers@[i as int].1@));
            }
            if let Some(ip) = self.servers.value(i).wireguard_mgmt_ip {
                out.insert(self.servers.key(i).clone(), ip);
            }
            i = i + 1;
        }
        proof {
            assert(self@.take(i as int) =~= self@);
        }
        out
    }

    pub fn assigned_container_subnets(&self) -> (r: StrMap<StrMap<Ipv4Net>>)
        ensures
            keyed::nested(r@) == assigned_subnets(self@),
    {
        let mut out: StrMap<StrMap<Ipv4Net>> = StrMap::new();
        let mut i: usize = 0;
        proof {
            assert(self@.take(0) =~= Seq::empty());
            assert(keyed::nested(out@) =~= Seq::empty());
        }
        while i < self.servers.len()
            invariant
                i <= self.servers@.len(),
                keyed::sorted(out@),
                keyed::nested(out@) == assigned_subnets(self@.take(i as int)),
            decreases self.servers@.len() - i,
        {
            let host: &String = self.servers.key(i);
            let st: &ServerState = self.servers.value(i);
            let ghost nss = namespace_views(st.namespaces@);
            let ghost out0 = keyed::nested(out@);
            let mut j: usize = 0;
            proof {
                assert(self@.take(i + 1).drop_last() =~= self@.take(i as int));
                assert(self@.take(i + 1).last() == (host@, st@));
                assert(nss.take(0) =~= Seq::empty());
            }
            while j < st.namespaces.len()
                invariant
                    j <= st.namespaces@.len(),
                    keyed::sorted(out@),
                    nss == namespace_views(st.namespaces@),
                    keyed::nested(out@) == host_subnets(host@, nss.take(j as int), out0),
                decreases st.namespaces@.len() - j,
            {
                proof {
                    assert(nss.take(j + 1).drop_last() =~= nss.take(j as int));
                    assert(nss.take(j + 1).last() == (st.namespaces@[j as int].0,
                        st.namespaces@[j as int].1@));
                }
                if let Some(n) = st.namespaces.value(j).container_subnet {
                    out.insert_inner(st.namespaces.key(j).as_str(), host.as_str(), n);
                }
                j = j + 1;
            }
            proof {
                assert(nss.take(j as int) =~= nss);
            }
            i = i + 1;
        }
        proof {
            assert(self@.take(i as int) =~= self@);
        }
        out
    }
}

/// How the mesh should be.
#[derive(Clone, Debug)]
pub struct DesiredMesh {
    /// All WireGuard participants: the central control-plane host, when configured,
    /// and all deployment nodes.
    pub hosts: Vec<String>,
    /// The hosts that run Podman, coold, Corrosion and the firewall.
    pub nodes: Vec<String>,
    pub interface: String,
    pub mgmt_pool: Ipv4Net,
    pub container_pool: Ipv4Net,
    pub container_prefix: u8,
    pub listen_port: u16,
    pub listen_port_overrides: StrMap<u16>,
    pub endpoint_overrides: StrMap<String>,
    pub install_podman: bool,
    pub namespaces: Vec<String>,
    pub default_deny_containers: bool,
    pub install_coold: bool,
    pub coold_version: String,
    pub corrosion_version: String,
    pub corrosion_gossip_port: u16,
    pub corrosion_api_port: u16,
    pub coold_sha256: Option<String>,
    pub corrosion_sha256: Option<String>,
    /// The certificate that Corrosion gossip shares, where it runs over TLS.
    pub corrosion_gossip_tls: Option<SelfSignedCert>,
    /// The certificate of flux, where coold dials it over TLS.
    pub flux_tls: Option<SelfSignedCert>,
    /// The address at which coold dials flux over pinned TLS.
    pub flux_tls_url: Option<String>,
    pub central_host: String,
    pub coolify_version: String,
    pub scheduler_version: String,
    pub enable_builder: bool,
    pub builder_hosts: Vec<String>,
    pub builder_capacity: u32,
    pub builder_cpu_quota: String,
    pub builder_memory_max: String,
    pub builder_timeout_secs: u32,
    pub intent: Intent,
    pub new_nodes: Vec<String>,
    pub allow_replace: bool,
    pub allow_nightly: bool,
}

/// A self-signed certificate and its private key in PEM form.
#[derive(Clone, Debug)]
pub struct SelfSignedCert {
    pub cert_pem: String,
    pub key_pem: String,
}

/// How coold reaches flux.
#[derive(Clone, Debug)]
pub struct FluxConfig {
    pub url: String,
    pub jwt_path: String,
    /// Where coold reads the pinned certificate of flux; without one it dials plainly.
    pub tls_pin_path: Option<String>,
}

/// What a `FluxConfig` says.
#[verifier::ext_equal]
pub struct FluxView {
    pub url: Seq<char>,
    pub jwt_path: Seq<char>,
    pub tls_pin_path: Option<Seq<char>>,
}

impl View for FluxConfig {
    type V = FluxView;

    open spec fn view(&self) -> FluxView {
        FluxView {
            url: self.url@,
            jwt_path: self.jwt_path@,
            tls_pin_path: text::opt_view(self.tls_pin_path),
        }
    }
}

/// How coold reaches flux, where flux runs over TLS.
pub open spec fn flux_of(url: Option<Seq<char>>) -> Option<FluxView> {
    match url {
        Some(u) => Some(
            FluxView { url: u, jwt_path: HOST_JWT_PATH@, tls_pin_path: Some(FLUX_PIN_PATH@) },
        ),
        None => None,
    }
}

/// An optional flux configuration by what it says.
pub open spec fn flux_view(f: Option<FluxConfig>) -> Option<FluxView> {
    match f {
        Some(f) => Some(f@),
        None => None,
    }
}

pub const FLUX_PIN_PATH: &'static str = "/etc/coolify/flux.pin";

pub const HOST_JWT_PATH: &'static str = "/etc/coolify/host-jwt";

/// The port that a host listens on: its own, where one is given.
pub open spec fn port_for(d: DesiredMesh, host: Seq<char>) -> u16 {
    match keyed::lookup(d.listen_port_overrides@, host) {
        Some(p) => p,
        None => d.listen_port,
    }
}

/// The text before the first colon, or all of it.
pub open spec fn before_colon(host: Seq<char>) -> Seq<char> {
    match text::split_once_spec(host, ':') {
        Some((h, _)) => h,
        None => host,
    }
}

/// The endpoint of a host: the one given for it, or its address without a port.
pub open spec fn endpoint_of(d: DesiredMesh, host: Seq<char>) -> Seq<char> {
    match keyed::lookup(d.endpoint_overrides@, host) {
        Some(e) => e@,
        None => before_colon(host),
    }
}

impl DesiredMesh {
    pub fn is_node(&self, host: &str) -> (r: bool)
        ensures
            r == text::views(self.nodes@).contains(host@),
    {
        text::has_string(&self.nodes, host)
    }

    pub fn sorted_namespaces(&self) -> (r: Vec<String>)
        ensures
            text::views(r@) == keyed::in_order(text::views(self.namespaces@)),
    {
        keyed::sort_strings(&self.namespaces)
    }

    pub fn listen_port_for(&self, host: &str) -> (r: u16)
        ensures
            r == port_for(*self, host@),
    {
        match self.listen_port_overrides.get(host) {
            Some(p) => *p,
            None => self.listen_port,
        }
    }

    pub fn endpoint_for(&self, host: &str) -> (r: String)
        ensures
            r@ == endpoint_of(*self, host@),
    {
        match self.endpoint_overrides.get(host) {
            Some(e) => e.clone(),
            None => match text::split_once(host, ':') {
                Some((h, _)) => h,
                None => host.to_owned(),
            },
        }
    }

    /// How coold reaches flux, where flux runs over TLS.
    pub fn coold_flux_config(&self) -> (r: Option<FluxConfig>)
        ensures
            flux_view(r) == flux_of(text::opt_view(self.flux_tls_url)),
    {
        match &self.flux_tls_url {
            Some(url) => Some(
                FluxConfig {
                    url: url.clone(),
                    jwt_path: HOST_JWT_PATH.to_owned(),
                    tls_pin_path: Some(FLUX_PIN_PATH.to_owned()),
                },
            ),
            None => None,
        }
    }
}

} // verus!
