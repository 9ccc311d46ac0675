//! The scheduler on the central host.

use vstd::prelude::*;
use vstd::string::StringExecFns;

verus! {

pub const SCHEDULER_GRPC_PORT: u16 = 6443;

pub const SCHEDULER_JWT_PUB_PATH: &'static str = "/etc/coolify/jwt.pub";

pub const SCHEDULER_JWT_PRIV_PATH: &'static str = "/etc/coolify/jwt.priv";

pub const HOST_JWT_PATH: &'static str = "/etc/coolify/host-jwt";

pub const SCHEDULER_UNIX_SOCKET_PATH: &'static str = "/run/coolify/scheduler.sock";

/// The unit of the service.
pub open spec fn service_unit_text(grpc_bind: Seq<char>, jwt_pub_path: Seq<char>, iface: Seq<char>) -> Seq<char> {
    "[Unit]\nDescription=Coolify scheduler\nAfter=network-online.target wg-quick@"@
        + iface
        + ".service\nRequires=wg-quick@"@
        + iface
        + ".service\n\n[Service]\nRuntimeDirectory=coolify\nRuntimeDirectoryMode=0750\nEnvironment=SCHEDULER_GRPC_BIND="@
        + grpc_bind
        + "\nEnvironment=SCHEDULER_UNIX_SOCKET_PATH=/run/coolify/scheduler.sock\nEnvironment=SCHEDULER_JWT_PUBLIC_KEY_PATH="@
        + jwt_pub_path
        + "\nExecStart=/usr/local/bin/scheduler\nRestart=on-failure\nRestartSec=2s\n\n[Install]\nWantedBy=multi-user.target\n"@
}

/// The unit of the service.
pub fn service_unit(grpc_bind: &str, jwt_pub_path: &str, iface: &str) -> (r: String)
    ensures
        r@ == service_unit_text(grpc_bind@, jwt_pub_path@, iface@),
{
    let mut out: String = "[Unit]\nDescription=Coolify scheduler\nAfter=network-online.target wg-quick@".to_owned();
    out.append(iface);
    out.append(".service\nRequires=wg-quick@");
    out.append(iface);
    out.append(".service\n\n[Service]\nRuntimeDirectory=coolify\nRuntimeDirectoryMode=0750\nEnvironment=SCHEDULER_GRPC_BIND=");
    out.append(grpc_bind);
    out.append("\nEnvironment=SCHEDULER_UNIX_SOCKET_PATH=/run/coolify/scheduler.sock\nEnvironment=SCHEDULER_JWT_PUBLIC_KEY_PATH=");
    out.append(jwt_pub_path);
    out.append("\nExecStart=/usr/local/bin/scheduler\nRestart=on-failure\nRestartSec=2s\n\n[Install]\nWantedBy=multi-user.target\n");
    out
}

/// The script that installs a release.
pub open spec fn install_command_text(version: Seq<char>) -> Seq<char> {
    "set -e\nARCH_RAW=$(uname -m)\ncase \"$ARCH_RAW\" in\n  x86_64)  ARCH=amd64 ;;\n  aarch64) ARCH=arm64 ;;\n  *) echo \"unsupported arch: $ARCH_RAW\" >&2; exit 1 ;;\nesac\nURL=\"https://github.com/coollabsio/coold/releases/download/"@
        + version
        + "/scheduler-linux-${ARCH}.tar.gz\"\nDLDIR=$(mktemp -d)\ntrap 'rm -rf \"$DLDIR\"' EXIT\ncurl -fsSL --retry 3 --max-time 120 -o \"$DLDIR/scheduler.tar.gz\" \"$URL\"\ntar -xzf \"$DLDIR/scheduler.tar.gz\" -C \"$DLDIR\"\ntest -f \"$DLDIR/scheduler\" || { echo \"scheduler binary not found in tarball\" >&2; exit 1; }\ninstall -m 0755 \"$DLDIR/scheduler\" /usr/local/bin/scheduler.tmp\nmv /usr/local/bin/scheduler.tmp /usr/local/bin/scheduler\necho '"@
        + version
        + "' > /usr/local/bin/scheduler.version"@
}

/// The script that installs a release.
pub fn install_command(version: &str) -> (r: String)
    ensures
        r@ == install_command_text(version@),
{
    let mut out: String = "set -e\nARCH_RAW=$(uname -m)\ncase \"$ARCH_RAW\" in\n  x86_64)  ARCH=amd64 ;;\n  aarch64) ARCH=arm64 ;;\n  *) echo \"unsupported arch: $ARCH_RAW\" >&2; exit 1 ;;\nesac\nURL=\"https://github.com/coollabsio/coold/releases/download/".to_owned();
    out.append(version);
    out.append("/scheduler-linux-${ARCH}.tar.gz\"\nDLDIR=$(mktemp -d)\ntrap 'rm -rf \"$DLDIR\"' EXIT\ncurl -fsSL --retry 3 --max-time 120 -o \"$DLDIR/scheduler.tar.gz\" \"$URL\"\ntar -xzf \"$DLDIR/scheduler.tar.gz\" -C \"$DLDIR\"\ntest -f \"$DLDIR/scheduler\" || { echo \"scheduler binary not found in tarball\" >&2; exit 1; }\ninstall -m 0755 \"$DLDIR/scheduler\" /usr/local/bin/scheduler.tmp\nmv /usr/local/bin/scheduler.tmp /usr/local/bin/scheduler\necho '");
    out.append(version);
    out.append("' > /usr/local/bin/scheduler.version");
    out
}

/// The command that makes the key pair for host tokens, where there is none.
pub open spec fn ensure_jwt_keypair_command_text() -> Seq<char> {
    "mkdir -p /etc/coolify && if [ ! -f /etc/coolify/jwt.priv ]; then openssl genpkey -algorithm EC -pkeyopt ec_paramgen_curve:P-256 -out /etc/coolify/jwt.priv.tmp 2>&1 && chmod 0600 /etc/coolify/jwt.priv.tmp && mv /etc/coolify/jwt.priv.tmp /etc/coolify/jwt.priv && openssl pkey -in /etc/coolify/jwt.priv -pubout -out /etc/coolify/jwt.pub 2>&1 && chmod 0644 /etc/coolify/jwt.pub; fi"@
}

/// The command that makes the key pair for host tokens, where there is none.
pub fn ensure_jwt_keypair_command() -> (r: String)
    ensures
        r@ == ensure_jwt_keypair_command_text(),
{
    "mkdir -p /etc/coolify && if [ ! -f /etc/coolify/jwt.priv ]; then openssl genpkey -algorithm EC -pkeyopt ec_paramgen_curve:P-256 -out /etc/coolify/jwt.priv.tmp 2>&1 && chmod 0600 /etc/coolify/jwt.priv.tmp && mv /etc/coolify/jwt.priv.tmp /etc/coolify/jwt.priv && openssl pkey -in /etc/coolify/jwt.priv -pubout -out /etc/coolify/jwt.pub 2>&1 && chmod 0644 /etc/coolify/jwt.pub; fi".to_owned()
}

} // verus!
