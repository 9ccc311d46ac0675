//! The coold agent on a node: its unit, its DNS helpers and its installation.

use vstd::prelude::*;
use vstd::string::StringExecFns;
use crate::cli::checksum;
use crate::mesh::state::{FluxConfig, FluxView};
use crate::net;
use crate::split;
use crate::text;

verus! {

pub const DEFAULT_COOLD_DNS_ZONE: &'static str = "coolify.internal";

pub const MESH_DNS_ANCHOR_SERVICE: &'static str = "coolify-mesh-dns-anchor.service";

pub const MESH_DNS_RESOLVER_SERVICE: &'static str = "coolify-mesh-dns-resolver.service";

pub const MESH_DNS_ANCHOR_IMAGE: &'static str = "docker.io/library/alpine:3.20";

/// A namespace that coold serves on a node.
#[derive(Clone, Debug)]
pub struct CooldNamespace {
    pub name: String,
    pub network: String,
    pub bridge_gateway: u32,
}

/// What a `CooldNamespace` says.
#[verifier::ext_equal]
pub struct CooldNamespaceView {
    pub name: Seq<char>,
    pub network: Seq<char>,
    pub bridge_gateway: u32,
}

impl View for CooldNamespace {
    type V = CooldNamespaceView;

    open spec fn view(&self) -> CooldNamespaceView {
        CooldNamespaceView {
            name: self.name@,
            network: self.network@,
            bridge_gateway: self.bridge_gateway,
        }
    }
}

pub open spec fn namespace_views(s: Seq<CooldNamespace>) -> Seq<CooldNamespaceView> {
    Seq::new(s.len(), |i: int| s[i]@)
}

/// The container that keeps the gateway of a namespace up.
pub open spec fn mesh_dns_anchor_container_name_text(namespace: Seq<char>) -> Seq<char> {
    "coolify-mesh-dns-anchor-"@
        + namespace
}

/// The container that keeps the gateway of a namespace up.
pub fn mesh_dns_anchor_container_name(namespace: &str) -> (r: String)
    ensures
        r@ == mesh_dns_anchor_container_name_text(namespace@),
{
    let mut out: String = "coolify-mesh-dns-anchor-".to_owned();
    out.append(namespace);
    out
}

/// A namespace in the list that coold reads.
pub open spec fn env_entry(n: CooldNamespaceView) -> Seq<char> {
    n.name
        + ":"@
        + n.network
        + ":"@
        + net::dotted(n.bridge_gateway)
}

fn env_entry_exec(n: &CooldNamespace) -> (r: String)
    ensures
        r@ == env_entry(n@),
{
    let mut out: String = n.name.clone();
    out.append(":");
    out.append(n.network.as_str());
    out.append(":");
    out.append(net::ip_text(n.bridge_gateway).as_str());
    out
}

/// The namespaces as coold reads them.
pub open spec fn namespaces_env_value_text(ns: Seq<CooldNamespaceView>) -> Seq<char> {
    split::joined(Seq::new(ns.len(), |i: int| env_entry(ns[i])), ","@)
}

pub fn namespaces_env_value(ns: &Vec<CooldNamespace>) -> (r: String)
    ensures
        r@ == namespaces_env_value_text(namespace_views(ns@)),
{
    broadcast use text::views_push;

    let ghost vs = namespace_views(ns@);
    let mut parts: Vec<String> = Vec::new();
    let mut i: usize = 0;
    proof {
        assert(text::views(parts@) =~= Seq::empty());
    }
    while i < ns.len()
        invariant
            i <= ns@.len(),
            vs == namespace_views(ns@),
            text::views(parts@) == Seq::new(i as nat, |j: int| env_entry(vs[j])),
        decreases ns@.len() - i,
    {
        proof {
            assert(Seq::new((i + 1) as nat, |j: int| env_entry(vs[j])) =~= Seq::new(
                i as nat,
                |j: int| env_entry(vs[j]),
            ).push(env_entry(ns@[i as int]@)));
        }
        parts.push(env_entry_exec(&ns[i]));
        i = i + 1;
    }
    split::join(&parts, ",")
}

/// What shrinks the reach of an agent that has to run as root: no new privileges, a file
/// system that is read-only but for its own paths, no view of the homes, a `/tmp` of its
/// own. The capabilities that it needs stay ambient.
pub open spec fn hardening_directives_text() -> Seq<char> {
    "NoNewPrivileges=yes\nProtectSystem=strict\nProtectHome=yes\nPrivateTmp=yes\nReadWritePaths=/etc/coolify /data/coolify /var/lib/containers\nReadWritePaths=-/run/containers -/run/netavark -/run/libpod\n"@
}

/// What shrinks the reach of an agent that has to run as root: no new privileges, a file
/// system that is read-only but for its own paths, no view of the homes, a `/tmp` of its
/// own. The capabilities that it needs stay ambient.
pub fn hardening_directives() -> (r: String)
    ensures
        r@ == hardening_directives_text(),
{
    "NoNewPrivileges=yes\nProtectSystem=strict\nProtectHome=yes\nPrivateTmp=yes\nReadWritePaths=/etc/coolify /data/coolify /var/lib/containers\nReadWritePaths=-/run/containers -/run/netavark -/run/libpod\n".to_owned()
}

/// The environment of an agent with namespaces.
pub open spec fn ns_env_text(value: Seq<char>) -> Seq<char> {
    "Environment=COOLIFY_COOLD_NAMESPACES="@
        + value
        + "\nEnvironment=COOLIFY_COOLD_DNS_ZONE=coolify.internal\n"@
}

/// The environment of an agent with namespaces.
pub fn ns_env(value: &str) -> (r: String)
    ensures
        r@ == ns_env_text(value@),
{
    let mut out: String = "Environment=COOLIFY_COOLD_NAMESPACES=".to_owned();
    out.append(value);
    out.append("\nEnvironment=COOLIFY_COOLD_DNS_ZONE=coolify.internal\n");
    out
}

/// The environment of an agent that dials flux.
pub open spec fn flux_env_text(url: Seq<char>, jwt_path: Seq<char>) -> Seq<char> {
    "Environment=COOLIFY_COOLD_FLUX_URL="@
        + url
        + "\nEnvironment=COOLIFY_COOLD_HOST_JWT_PATH="@
        + jwt_path
        + "\n"@
}

/// The environment of an agent that dials flux.
fn flux_env(url: &str, jwt_path: &str) -> (r: String)
    ensures
        r@ == flux_env_text(url@, jwt_path@),
{
    let mut out: String = "Environment=COOLIFY_COOLD_FLUX_URL=".to_owned();
    out.append(url);
    out.append("\nEnvironment=COOLIFY_COOLD_HOST_JWT_PATH=");
    out.append(jwt_path);
    out.append("\n");
    out
}

/// The environment of an agent that pins the certificate of flux.
pub open spec fn pin_env_text(path: Seq<char>) -> Seq<char> {
    "Environment=COOLIFY_COOLD_FLUX_TLS_PIN_PATH="@
        + path
        + "\n"@
}

/// The environment of an agent that pins the certificate of flux.
fn pin_env(path: &str) -> (r: String)
    ensures
        r@ == pin_env_text(path@),
{
    let mut out: String = "Environment=COOLIFY_COOLD_FLUX_TLS_PIN_PATH=".to_owned();
    out.append(path);
    out.append("\n");
    out
}

/// The unit around its variable parts.
pub open spec fn assemble_unit_text(mgmt_ip: u32, mesh_dns_units: Seq<char>, ns_env: Seq<char>, flux_env: Seq<char>, hardening: Seq<char>) -> Seq<char> {
    "[Unit]\nDescription=Coolify host agent\nWants=corrosion.service"@
        + mesh_dns_units
        + "\nAfter=corrosion.service network-online.target podman.socket coolify-mesh-fw.service"@
        + mesh_dns_units
        + "\n\n[Service]\nEnvironment=COOLIFY_COOLD_HOST_MGMT_IP="@
        + net::dotted(mgmt_ip)
        + "\n"@
        + ns_env
        + flux_env
        + "ExecStart=/usr/local/bin/coold\nAmbientCapabilities=CAP_NET_BIND_SERVICE CAP_NET_ADMIN CAP_NET_RAW\n"@
        + hardening
        + "Restart=on-failure\nRestartSec=2s\n\n[Install]\nWantedBy=multi-user.target\n"@
}

/// The unit around its variable parts.
fn assemble_unit(mgmt_ip: u32, mesh_dns_units: &str, ns_env: &str, flux_env: &str, hardening: &str) -> (r: String)
    ensures
        r@ == assemble_unit_text(mgmt_ip, mesh_dns_units@, ns_env@, flux_env@, hardening@),
{
    let mut out: String = "[Unit]\nDescription=Coolify host agent\nWants=corrosion.service".to_owned();
    out.append(mesh_dns_units);
    out.append("\nAfter=corrosion.service network-online.target podman.socket coolify-mesh-fw.service");
    out.append(mesh_dns_units);
    out.append("\n\n[Service]\nEnvironment=COOLIFY_COOLD_HOST_MGMT_IP=");
    out.append(net::ip_text(mgmt_ip).as_str());
    out.append("\n");
    out.append(ns_env);
    out.append(flux_env);
    out.append("ExecStart=/usr/local/bin/coold\nAmbientCapabilities=CAP_NET_BIND_SERVICE CAP_NET_ADMIN CAP_NET_RAW\n");
    out.append(hardening);
    out.append("Restart=on-failure\nRestartSec=2s\n\n[Install]\nWantedBy=multi-user.target\n");
    out
}

/// The environment for flux: nothing, its address and token, and the pin where there is one.
pub open spec fn flux_part(flux: Option<FluxView>) -> Seq<char> {
    match flux {
        None => Seq::empty(),
        Some(f) => match f.tls_pin_path {
            Some(p) => flux_env_text(f.url, f.jwt_path) + pin_env_text(p),
            None => flux_env_text(f.url, f.jwt_path),
        },
    }
}

/// The unit of coold on a node.
pub open spec fn service_unit_text(
    mgmt_ip: u32,
    namespaces: Seq<CooldNamespaceView>,
    flux: Option<FluxView>,
) -> Seq<char> {
    assemble_unit_text(
        mgmt_ip,
        if namespaces.len() == 0 {
            Seq::empty()
        } else {
            " coolify-mesh-dns-anchor.service coolify-mesh-dns-resolver.service"@
        },
        if namespaces.len() == 0 {
            Seq::empty()
        } else {
            ns_env_text(namespaces_env_value_text(namespaces))
        },
        flux_part(flux),
        hardening_directives_text(),
    )
}

/// The unit of coold on a node.
pub fn service_unit(
    mgmt_ip: u32,
    namespaces: &Vec<CooldNamespace>,
    flux: Option<&FluxConfig>,
) -> (r: String)
    ensures
        r@ == service_unit_text(
            mgmt_ip,
            namespace_views(namespaces@),
            match flux {
                Some(f) => Some(f@),
                None => None,
            },
        ),
{
    let dns: String = if namespaces.len() == 0 {
        String::new()
    } else {
        " coolify-mesh-dns-anchor.service coolify-mesh-dns-resolver.service".to_owned()
    };
    let env: String = if namespaces.len() == 0 {
        String::new()
    } else {
        ns_env(namespaces_env_value(namespaces).as_str())
    };
    let flux_env: String = match flux {
        None => String::new(),
        Some(f) => {
            let mut e: String = flux_env(f.url.as_str(), f.jwt_path.as_str());
            if let Some(p) = &f.tls_pin_path {
                e.append(pin_env(p.as_str()).as_str());
            }
            e
        },
    };
    assemble_unit(
        mgmt_ip,
        dns.as_str(),
        env.as_str(),
        flux_env.as_str(),
        hardening_directives().as_str(),
    )
}

/// The start of one anchor container.
pub open spec fn anchor_start(n: CooldNamespaceView) -> Seq<char> {
    "podman run -d --replace --name "@
        + mesh_dns_anchor_container_name_text(n.name)
        + " --network "@
        + n.network
        + " --label io.coolify.managed=true --label io.coolify.role=mesh-dns-anchor --label io.coolify.namespace="@
        + n.name
        + " docker.io/library/alpine:3.20 sleep infinity >/dev/null"@
}

fn anchor_start_exec(n: &CooldNamespace) -> (r: String)
    ensures
        r@ == anchor_start(n@),
{
    let mut out: String = "podman run -d --replace --name ".to_owned();
    out.append(mesh_dns_anchor_container_name(n.name.as_str()).as_str());
    out.append(" --network ");
    out.append(n.network.as_str());
    out.append(" --label io.coolify.managed=true --label io.coolify.role=mesh-dns-anchor --label io.coolify.namespace=");
    out.append(n.name.as_str());
    out.append(" docker.io/library/alpine:3.20 sleep infinity >/dev/null");
    out
}

/// The removal of one anchor container.
pub open spec fn anchor_stop(n: CooldNamespaceView) -> Seq<char> {
    "podman rm -f "@
        + mesh_dns_anchor_container_name_text(n.name)
        + " >/dev/null 2>&1 || true"@
}

fn anchor_stop_exec(n: &CooldNamespace) -> (r: String)
    ensures
        r@ == anchor_stop(n@),
{
    let mut out: String = "podman rm -f ".to_owned();
    out.append(mesh_dns_anchor_container_name(n.name.as_str()).as_str());
    out.append(" >/dev/null 2>&1 || true");
    out
}

/// The start of all anchor containers.
pub open spec fn anchor_starts_text(ns: Seq<CooldNamespaceView>) -> Seq<char> {
    split::joined(Seq::new(ns.len(), |i: int| anchor_start(ns[i])), "; "@)
}

fn anchor_starts(ns: &Vec<CooldNamespace>) -> (r: String)
    ensures
        r@ == anchor_starts_text(namespace_views(ns@)),
{
    broadcast use text::views_push;

    let ghost vs = namespace_views(ns@);
    let mut parts: Vec<String> = Vec::new();
    let mut i: usize = 0;
    proof {
        assert(text::views(parts@) =~= Seq::empty());
    }
    while i < ns.len()
        invariant
            i <= ns@.len(),
            vs == namespace_views(ns@),
            text::views(parts@) == Seq::new(i as nat, |j: int| anchor_start(vs[j])),
        decreases ns@.len() - i,
    {
        proof {
            assert(Seq::new((i + 1) as nat, |j: int| anchor_start(vs[j])) =~= Seq::new(
                i as nat,
                |j: int| anchor_start(vs[j]),
            ).push(anchor_start(ns@[i as int]@)));
        }
        parts.push(anchor_start_exec(&ns[i]));
        i = i + 1;
    }
    split::join(&parts, "; ")
}

/// The removal of all anchor containers.
pub open spec fn anchor_stops_text(ns: Seq<CooldNamespaceView>) -> Seq<char> {
    split::joined(Seq::new(ns.len(), |i: int| anchor_stop(ns[i])), "; "@)
}

fn anchor_stops(ns: &Vec<CooldNamespace>) -> (r: String)
    ensures
        r@ == anchor_stops_text(namespace_views(ns@)),
{
    broadcast use text::views_push;

    let ghost vs = namespace_views(ns@);
    let mut parts: Vec<String> = Vec::new();
    let mut i: usize = 0;
    proof {
        assert(text::views(parts@) =~= Seq::empty());
    }
    while i < ns.len()
        invariant
            i <= ns@.len(),
            vs == namespace_views(ns@),
            text::views(parts@) == Seq::new(i as nat, |j: int| anchor_stop(vs[j])),
        decreases ns@.len() - i,
    {
        proof {
            assert(Seq::new((i + 1) as nat, |j: int| anchor_stop(vs[j])) =~= Seq::new(
                i as nat,
                |j: int| anchor_stop(vs[j]),
            ).push(anchor_stop(ns@[i as int]@)));
        }
        parts.push(anchor_stop_exec(&ns[i]));
        i = i + 1;
    }
    split::join(&parts, "; ")
}

/// The anchor unit around its commands.
pub open spec fn anchor_unit_text(starts: Seq<char>, stops: Seq<char>) -> Seq<char> {
    "[Unit]\nDescription=Coolify mesh DNS anchor containers\nAfter=network-online.target podman.socket\nRequires=podman.socket\n\n[Service]\nType=oneshot\nRemainAfterExit=yes\nExecStart=/bin/sh -eu -c '"@
        + starts
        + "'\nExecStop=/bin/sh -c '"@
        + stops
        + "'\n\n[Install]\nWantedBy=multi-user.target\n"@
}

/// The anchor unit around its commands.
fn anchor_unit(starts: &str, stops: &str) -> (r: String)
    ensures
        r@ == anchor_unit_text(starts@, stops@),
{
    let mut out: String = "[Unit]\nDescription=Coolify mesh DNS anchor containers\nAfter=network-online.target podman.socket\nRequires=podman.socket\n\n[Service]\nType=oneshot\nRemainAfterExit=yes\nExecStart=/bin/sh -eu -c '".to_owned();
    out.append(starts);
    out.append("'\nExecStop=/bin/sh -c '");
    out.append(stops);
    out.append("'\n\n[Install]\nWantedBy=multi-user.target\n");
    out
}

/// The unit that keeps an anchor container in each namespace.
pub fn mesh_dns_anchor_unit(namespaces: &Vec<CooldNamespace>) -> (r: String)
    ensures
        r@ == anchor_unit_text(
            anchor_starts_text(namespace_views(namespaces@)),
            anchor_stops_text(namespace_views(namespaces@)),
        ),
{
    anchor_unit(anchor_starts(namespaces).as_str(), anchor_stops(namespaces).as_str())
}

/// The routing of the mesh zone to the gateway of one namespace.
pub open spec fn resolver_command(n: CooldNamespaceView) -> Seq<char> {
    "iface=$(podman network inspect "@
        + n.network
        + " --format '{{.NetworkInterface}}' 2>/dev/null || true); if [ -n \"$iface\" ]; then resolvectl dns \"$iface\" "@
        + net::dotted(n.bridge_gateway)
        + " || true; resolvectl domain \"$iface\" '~coolify.internal' || true; resolvectl default-route \"$iface\" false || true; fi"@
}

fn resolver_command_exec(n: &CooldNamespace) -> (r: String)
    ensures
        r@ == resolver_command(n@),
{
    let mut out: String = "iface=$(podman network inspect ".to_owned();
    out.append(n.network.as_str());
    out.append(" --format '{{.NetworkInterface}}' 2>/dev/null || true); if [ -n \"$iface\" ]; then resolvectl dns \"$iface\" ");
    out.append(net::ip_text(n.bridge_gateway).as_str());
    out.append(" || true; resolvectl domain \"$iface\" '~coolify.internal' || true; resolvectl default-route \"$iface\" false || true; fi");
    out
}

/// The routing of the mesh zone to all gateways.
pub open spec fn resolver_commands_text(ns: Seq<CooldNamespaceView>) -> Seq<char> {
    split::joined(Seq::new(ns.len(), |i: int| resolver_command(ns[i])), "; "@)
}

fn resolver_commands(ns: &Vec<CooldNamespace>) -> (r: String)
    ensures
        r@ == resolver_commands_text(namespace_views(ns@)),
{
    broadcast use text::views_push;

    let ghost vs = namespace_views(ns@);
    let mut parts: Vec<String> = Vec::new();
    let mut i: usize = 0;
    proof {
        assert(text::views(parts@) =~= Seq::empty());
    }
    while i < ns.len()
        invariant
            i <= ns@.len(),
            vs == namespace_views(ns@),
            text::views(parts@) == Seq::new(i as nat, |j: int| resolver_command(vs[j])),
        decreases ns@.len() - i,
    {
        proof {
            assert(Seq::new((i + 1) as nat, |j: int| resolver_command(vs[j])) =~= Seq::new(
                i as nat,
                |j: int| resolver_command(vs[j]),
            ).push(resolver_command(ns@[i as int]@)));
        }
        parts.push(resolver_command_exec(&ns[i]));
        i = i + 1;
    }
    split::join(&parts, "; ")
}

/// The resolver unit around its commands.
pub open spec fn resolver_unit_text(commands: Seq<char>) -> Seq<char> {
    "[Unit]\nDescription=Configure Coolify mesh DNS resolver\nAfter=systemd-resolved.service coolify-mesh-dns-anchor.service\nWants=systemd-resolved.service coolify-mesh-dns-anchor.service\n\n[Service]\nType=oneshot\nExecStart=/bin/sh -eu -c 'command -v resolvectl >/dev/null 2>&1 || exit 0; "@
        + commands
        + "'\n\n[Install]\nWantedBy=multi-user.target\n"@
}

/// The resolver unit around its commands.
fn resolver_unit(commands: &str) -> (r: String)
    ensures
        r@ == resolver_unit_text(commands@),
{
    let mut out: String = "[Unit]\nDescription=Configure Coolify mesh DNS resolver\nAfter=systemd-resolved.service coolify-mesh-dns-anchor.service\nWants=systemd-resolved.service coolify-mesh-dns-anchor.service\n\n[Service]\nType=oneshot\nExecStart=/bin/sh -eu -c 'command -v resolvectl >/dev/null 2>&1 || exit 0; ".to_owned();
    out.append(commands);
    out.append("'\n\n[Install]\nWantedBy=multi-user.target\n");
    out
}

/// The unit that routes the mesh zone to the gateways of the namespaces.
pub fn mesh_dns_resolver_unit(namespaces: &Vec<CooldNamespace>) -> (r: String)
    ensures
        r@ == resolver_unit_text(resolver_commands_text(namespace_views(namespaces@))),
{
    resolver_unit(resolver_commands(namespaces).as_str())
}

/// The script that installs a coold release once `verify` has passed.
pub open spec fn install_script_text(version: Seq<char>, verify: Seq<char>) -> Seq<char> {
    "set -e\nDEBIAN_FRONTEND=noninteractive apt-get update -qq 2>/dev/null\nDEBIAN_FRONTEND=noninteractive apt-get install -y -o Dpkg::Options::=\"--force-confold\" ca-certificates curl tar 2>&1 >/dev/null\nARCH_RAW=$(uname -m)\ncase \"$ARCH_RAW\" in\n  x86_64)  ARCH=amd64 ;;\n  aarch64) ARCH=arm64 ;;\n  *) echo \"unsupported arch: $ARCH_RAW\" >&2; exit 1 ;;\nesac\nURL=\"https://github.com/coollabsio/coold/releases/download/"@
        + version
        + "/coold-linux-${ARCH}.tar.gz\"\nDLDIR=$(mktemp -d)\ntrap 'rm -rf \"$DLDIR\"' EXIT\ncurl -fsSL --retry 3 --max-time 120 -o \"$DLDIR/coold.tar.gz\" \"$URL\"\n"@
        + verify
        + "\ntar -xzf \"$DLDIR/coold.tar.gz\" -C \"$DLDIR\"\ntest -f \"$DLDIR/coold\" || { echo \"coold binary not found in tarball\" >&2; exit 1; }\ninstall -m 0755 \"$DLDIR/coold\" /usr/local/bin/coold.tmp\nmv /usr/local/bin/coold.tmp /usr/local/bin/coold\necho '"@
        + version
        + "' > /usr/local/bin/coold.version"@
}

/// The script that installs a coold release once `verify` has passed.
fn install_script(version: &str, verify: &str) -> (r: String)
    ensures
        r@ == install_script_text(version@, verify@),
{
    let mut out: String = "set -e\nDEBIAN_FRONTEND=noninteractive apt-get update -qq 2>/dev/null\nDEBIAN_FRONTEND=noninteractive apt-get install -y -o Dpkg::Options::=\"--force-confold\" ca-certificates curl tar 2>&1 >/dev/null\nARCH_RAW=$(uname -m)\ncase \"$ARCH_RAW\" in\n  x86_64)  ARCH=amd64 ;;\n  aarch64) ARCH=arm64 ;;\n  *) echo \"unsupported arch: $ARCH_RAW\" >&2; exit 1 ;;\nesac\nURL=\"https://github.com/coollabsio/coold/releases/download/".to_owned();
    out.append(version);
    out.append("/coold-linux-${ARCH}.tar.gz\"\nDLDIR=$(mktemp -d)\ntrap 'rm -rf \"$DLDIR\"' EXIT\ncurl -fsSL --retry 3 --max-time 120 -o \"$DLDIR/coold.tar.gz\" \"$URL\"\n");
    out.append(verify);
    out.append("\ntar -xzf \"$DLDIR/coold.tar.gz\" -C \"$DLDIR\"\ntest -f \"$DLDIR/coold\" || { echo \"coold binary not found in tarball\" >&2; exit 1; }\ninstall -m 0755 \"$DLDIR/coold\" /usr/local/bin/coold.tmp\nmv /usr/local/bin/coold.tmp /usr/local/bin/coold\necho '");
    out.append(version);
    out.append("' > /usr/local/bin/coold.version");
    out
}

/// The script that installs a coold release, checked against a pinned digest where there
/// is one.
pub fn install_command(version: &str, sha256: Option<&str>) -> (r: String)
    ensures
        r@ == install_script_text(
            version@,
            checksum::snippet("$DLDIR/coold.tar.gz"@, "$URL"@, "coold"@, checksum::digest_view(sha256)),
        ),
{
    let verify: String = checksum::checksum_verify_snippet(
        "$DLDIR/coold.tar.gz",
        "$URL",
        "coold",
        sha256,
    );
    install_script(version, verify.as_str())
}

} // verus!
