//! The coold agent with its own API and builder.

use vstd::prelude::*;
use vstd::string::StringExecFns;
use crate::cli::coold;
use crate::net;
use crate::number;
use crate::split;
use crate::text;

pub use crate::cli::coold::{namespaces_env_value, CooldNamespace};

verus! {

pub const COOLIFY_COOLD_API_PORT: u16 = 8443;

pub const COOLIFY_COOLD_API_TOKEN_PATH: &'static str = "/etc/coolify/api-token";

/// How coold reaches flux.
#[derive(Clone, Debug)]
pub struct FluxConfig {
    pub url: String,
    pub jwt_path: String,
}

/// What a build may use. Zero and empty values stand for the defaults.
#[derive(Clone, Debug)]
pub struct BuilderConfig {
    pub capacity: u32,
    pub cpu_quota: String,
    pub memory_max: String,
    pub timeout_secs: u32,
    pub deny_nets: Vec<String>,
}

/// The environment of the API.
pub open spec fn api_env_text(mgmt_ip: u32) -> Seq<char> {
    "Environment=COOLIFY_COOLD_API_BIND="@
        + net::dotted(mgmt_ip)
        + ":8443\nEnvironment=COOLIFY_COOLD_API_TOKEN_FILE=/etc/coolify/api-token\n"@
}

/// The environment of the API.
fn api_env(mgmt_ip: u32) -> (r: String)
    ensures
        r@ == api_env_text(mgmt_ip),
{
    let mut out: String = "Environment=COOLIFY_COOLD_API_BIND=".to_owned();
    out.append(net::ip_text(mgmt_ip).as_str());
    out.append(":8443\nEnvironment=COOLIFY_COOLD_API_TOKEN_FILE=/etc/coolify/api-token\n");
    out
}

/// The environment of an agent that dials flux.
pub open spec fn flux_env_text(url: Seq<char>, jwt_path: Seq<char>) -> Seq<char> {
    "Environment=COOLIFY_COOLD_FLUX_URL="@
        + url
        + "\nEnvironment=COOLIFY_COOLD_HOST_JWT_PATH="@
        + jwt_path
        + "\n"@
}

/// The environment of an agent that dials flux.
fn flux_env(url: &str, jwt_path: &str) -> (r: String)
    ensures
        r@ == flux_env_text(url@, jwt_path@),
{
    let mut out: String = "Environment=COOLIFY_COOLD_FLUX_URL=".to_owned();
    out.append(url);
    out.append("\nEnvironment=COOLIFY_COOLD_HOST_JWT_PATH=");
    out.append(jwt_path);
    out.append("\n");
    out
}

/// The environment of an agent that builds.
pub open spec fn builder_env_text(cap: u32, cpu: Seq<char>, mem: Seq<char>, timeout: u32, deny: Seq<char>) -> Seq<char> {
    "Environment=COOLIFY_COOLD_BUILDER_ENABLED=true\nEnvironment=COOLIFY_COOLD_BUILDER_WORK_DIR=/var/lib/coolify-builder/work\nEnvironment=COOLIFY_COOLD_BUILDER_CAPACITY="@
        + number::decimal(cap as nat)
        + "\nEnvironment=COOLIFY_COOLD_BUILDER_CPU_QUOTA="@
        + cpu
        + "\nEnvironment=COOLIFY_COOLD_BUILDER_MEMORY_MAX="@
        + mem
        + "\nEnvironment=COOLIFY_COOLD_BUILDER_TIMEOUT_SECS="@
        + number::decimal(timeout as nat)
        + "\nEnvironment=COOLIFY_COOLD_BUILDER_BIN=/usr/local/bin/builder\nEnvironment=COOLIFY_COOLD_BUILDER_DENY_NETS="@
        + deny
        + "\n"@
}

/// The environment of an agent that builds.
fn builder_env(cap: u32, cpu: &str, mem: &str, timeout: u32, deny: &str) -> (r: String)
    ensures
        r@ == builder_env_text(cap, cpu@, mem@, timeout, deny@),
{
    let mut out: String = "Environment=COOLIFY_COOLD_BUILDER_ENABLED=true\nEnvironment=COOLIFY_COOLD_BUILDER_WORK_DIR=/var/lib/coolify-builder/work\nEnvironment=COOLIFY_COOLD_BUILDER_CAPACITY=".to_owned();
    out.append(number::decimal_of(cap as u64).as_str());
    out.append("\nEnvironment=COOLIFY_COOLD_BUILDER_CPU_QUOTA=");
    out.append(cpu);
    out.append("\nEnvironment=COOLIFY_COOLD_BUILDER_MEMORY_MAX=");
    out.append(mem);
    out.append("\nEnvironment=COOLIFY_COOLD_BUILDER_TIMEOUT_SECS=");
    out.append(number::decimal_of(timeout as u64).as_str());
    out.append("\nEnvironment=COOLIFY_COOLD_BUILDER_BIN=/usr/local/bin/builder\nEnvironment=COOLIFY_COOLD_BUILDER_DENY_NETS=");
    out.append(deny);
    out.append("\n");
    out
}

/// The unit around its variable parts.
pub open spec fn assemble_unit_text(mgmt_ip: u32, ns_env: Seq<char>, api_env: Seq<char>, flux_env: Seq<char>, builder_env: Seq<char>, builder_pre: Seq<char>) -> Seq<char> {
    "[Unit]\nDescription=Coolify host agent\nWants=corrosion.service\nAfter=corrosion.service network-online.target podman.socket coolify-mesh-fw.service\n\n[Service]\nEnvironment=COOLIFY_COOLD_HOST_MGMT_IP="@
        + net::dotted(mgmt_ip)
        + "\n"@
        + ns_env
        + api_env
        + flux_env
        + builder_env
        + builder_pre
        + "ExecStart=/usr/local/bin/coold\nAmbientCapabilities=CAP_NET_BIND_SERVICE CAP_NET_ADMIN CAP_NET_RAW\nRestart=on-failure\nRestartSec=2s\n\n[Install]\nWantedBy=multi-user.target\n"@
}

/// The unit around its variable parts.
fn assemble_unit(mgmt_ip: u32, ns_env: &str, api_env: &str, flux_env: &str, builder_env: &str, builder_pre: &str) -> (r: String)
    ensures
        r@ == assemble_unit_text(mgmt_ip, ns_env@, api_env@, flux_env@, builder_env@, builder_pre@),
{
    let mut out: String = "[Unit]\nDescription=Coolify host agent\nWants=corrosion.service\nAfter=corrosion.service network-online.target podman.socket coolify-mesh-fw.service\n\n[Service]\nEnvironment=COOLIFY_COOLD_HOST_MGMT_IP=".to_owned();
    out.append(net::ip_text(mgmt_ip).as_str());
    out.append("\n");
    out.append(ns_env);
    out.append(api_env);
    out.append(flux_env);
    out.append(builder_env);
    out.append(builder_pre);
    out.append("ExecStart=/usr/local/bin/coold\nAmbientCapabilities=CAP_NET_BIND_SERVICE CAP_NET_ADMIN CAP_NET_RAW\nRestart=on-failure\nRestartSec=2s\n\n[Install]\nWantedBy=multi-user.target\n");
    out
}

/// The environment of the builder, with its defaults.
pub open spec fn builder_part(b: Option<BuilderConfig>) -> Seq<char> {
    match b {
        None => Seq::empty(),
        Some(b) => builder_env_text(
            if b.capacity == 0 {
                2
            } else {
                b.capacity
            },
            if b.cpu_quota@.len() == 0 {
                "200%"@
            } else {
                b.cpu_quota@
            },
            if b.memory_max@.len() == 0 {
                "2G"@
            } else {
                b.memory_max@
            },
            if b.timeout_secs == 0 {
                1800
            } else {
                b.timeout_secs
            },
            split::joined(text::views(b.deny_nets@), ","@),
        ),
    }
}

/// The unit of coold.
pub open spec fn service_unit_text(
    mgmt_ip: u32,
    namespaces: Seq<coold::CooldNamespaceView>,
    flux: Option<FluxConfig>,
    builder: Option<BuilderConfig>,
) -> Seq<char> {
    assemble_unit_text(
        mgmt_ip,
        if namespaces.len() == 0 {
            Seq::empty()
        } else {
            coold::ns_env_text(coold::namespaces_env_value_text(namespaces))
        },
        api_env_text(mgmt_ip),
        match flux {
            Some(f) => flux_env_text(f.url@, f.jwt_path@),
            None => Seq::empty(),
        },
        builder_part(builder),
        match builder {
            Some(_) => "ExecStartPre=/bin/mkdir -p /var/lib/coolify-builder/work\n"@,
            None => Seq::empty(),
        },
    )
}

/// The configuration behind an optional reference.
pub open spec fn opt_ref<A>(x: Option<&A>) -> Option<A> {
    match x {
        Some(a) => Some(*a),
        None => None,
    }
}

/// The unit of coold.
pub fn service_unit(
    mgmt_ip: u32,
    namespaces: &Vec<CooldNamespace>,
    flux: Option<&FluxConfig>,
    builder: Option<&BuilderConfig>,
) -> (r: String)
    ensures
        r@ == service_unit_text(
            mgmt_ip,
            coold::namespace_views(namespaces@),
            opt_ref(flux),
            opt_ref(builder),
        ),
{
    let ns: String = if namespaces.len() == 0 {
        String::new()
    } else {
        coold::ns_env(coold::namespaces_env_value(namespaces).as_str())
    };
    let fx: String = match flux {
        Some(f) => flux_env(f.url.as_str(), f.jwt_path.as_str()),
        None => String::new(),
    };
    let (env, pre): (String, String) = match builder {
        Some(b) => {
            let cap: u32 = if b.capacity == 0 {
                2
            } else {
                b.capacity
            };
            let cpu: &str = if b.cpu_quota.as_str().is_empty() {
                "200%"
            } else {
                b.cpu_quota.as_str()
            };
            let mem: &str = if b.memory_max.as_str().is_empty() {
                "2G"
            } else {
                b.memory_max.as_str()
            };
            let timeout: u32 = if b.timeout_secs == 0 {
                1800
            } else {
                b.timeout_secs
            };
            let deny: String = split::join(&b.deny_nets, ",");
            (
                builder_env(cap, cpu, mem, timeout, deny.as_str()),
                "ExecStartPre=/bin/mkdir -p /var/lib/coolify-builder/work\n".to_owned(),
            )
        },
        None => (String::new(), String::new()),
    };
    assemble_unit(
        mgmt_ip,
        ns.as_str(),
        api_env(mgmt_ip).as_str(),
        fx.as_str(),
        env.as_str(),
        pre.as_str(),
    )
}

/// The script that installs a coold release.
pub open spec fn install_command_text(version: Seq<char>) -> Seq<char> {
    "set -e\nDEBIAN_FRONTEND=noninteractive apt-get update -qq 2>/dev/null\nDEBIAN_FRONTEND=noninteractive apt-get install -y -o Dpkg::Options::=\"--force-confold\" ca-certificates curl tar 2>&1 >/dev/null\nARCH_RAW=$(uname -m)\ncase \"$ARCH_RAW\" in\n  x86_64)  ARCH=amd64 ;;\n  aarch64) ARCH=arm64 ;;\n  *) echo \"unsupported arch: $ARCH_RAW\" >&2; exit 1 ;;\nesac\nURL=\"https://github.com/coollabsio/coold/releases/download/"@
        + version
        + "/coold-linux-${ARCH}.tar.gz\"\nDLDIR=$(mktemp -d)\ntrap 'rm -rf \"$DLDIR\"' EXIT\ncurl -fsSL --retry 3 --max-time 120 -o \"$DLDIR/coold.tar.gz\" \"$URL\"\ntar -xzf \"$DLDIR/coold.tar.gz\" -C \"$DLDIR\"\ntest -f \"$DLDIR/coold\" || { echo \"coold binary not found in tarball\" >&2; exit 1; }\ninstall -m 0755 \"$DLDIR/coold\" /usr/local/bin/coold.tmp\nmv /usr/local/bin/coold.tmp /usr/local/bin/coold\necho '"@
        + version
        + "' > /usr/local/bin/coold.version"@
}

/// The script that installs a coold release.
pub fn install_command(version: &str) -> (r: String)
    ensures
        r@ == install_command_text(version@),
{
    let mut out: String = "set -e\nDEBIAN_FRONTEND=noninteractive apt-get update -qq 2>/dev/null\nDEBIAN_FRONTEND=noninteractive apt-get install -y -o Dpkg::Options::=\"--force-confold\" ca-certificates curl tar 2>&1 >/dev/null\nARCH_RAW=$(uname -m)\ncase \"$ARCH_RAW\" in\n  x86_64)  ARCH=amd64 ;;\n  aarch64) ARCH=arm64 ;;\n  *) echo \"unsupported arch: $ARCH_RAW\" >&2; exit 1 ;;\nesac\nURL=\"https://github.com/coollabsio/coold/releases/download/".to_owned();
    out.append(version);
    out.append("/coold-linux-${ARCH}.tar.gz\"\nDLDIR=$(mktemp -d)\ntrap 'rm -rf \"$DLDIR\"' EXIT\ncurl -fsSL --retry 3 --max-time 120 -o \"$DLDIR/coold.tar.gz\" \"$URL\"\ntar -xzf \"$DLDIR/coold.tar.gz\" -C \"$DLDIR\"\ntest -f \"$DLDIR/coold\" || { echo \"coold binary not found in tarball\" >&2; exit 1; }\ninstall -m 0755 \"$DLDIR/coold\" /usr/local/bin/coold.tmp\nmv /usr/local/bin/coold.tmp /usr/local/bin/coold\necho '");
    out.append(version);
    out.append("' > /usr/local/bin/coold.version");
    out
}

/// The command that makes the token of the API, where there is none.
pub open spec fn ensure_api_token_command_text() -> Seq<char> {
    "mkdir -p /etc/coolify && if [ ! -s /etc/coolify/api-token ]; then openssl rand -hex 32 > /etc/coolify/api-token.tmp && chmod 0600 /etc/coolify/api-token.tmp && mv /etc/coolify/api-token.tmp /etc/coolify/api-token; fi"@
}

/// The command that makes the token of the API, where there is none.
pub fn ensure_api_token_command() -> (r: String)
    ensures
        r@ == ensure_api_token_command_text(),
{
    "mkdir -p /etc/coolify && if [ ! -s /etc/coolify/api-token ]; then openssl rand -hex 32 > /etc/coolify/api-token.tmp && chmod 0600 /etc/coolify/api-token.tmp && mv /etc/coolify/api-token.tmp /etc/coolify/api-token; fi".to_owned()
}

} // verus!
