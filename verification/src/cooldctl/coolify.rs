//! The Coolify service on the central host.

use vstd::prelude::*;
use vstd::string::StringExecFns;
use crate::text;

verus! {

pub const COOLIFY_BINARY_PATH: &'static str = "/usr/local/bin/coolify";

pub const COOLIFY_VERSION_PATH: &'static str = "/usr/local/bin/coolify.version";

pub const COOLIFY_DB_PATH: &'static str = "/var/lib/coolify/coolify.db";

pub const COOLIFY_API_BIND: &'static str = "0.0.0.0:3000";

/// The address of a release with this tag.
pub open spec fn tagged_url_text(version: Seq<char>) -> Seq<char> {
    "https://github.com/coollabsio/coold/releases/download/"@
        + version
        + "/coolify-linux-${ARCH}.tar.gz"@
}

/// The address of a release with this tag.
fn tagged_url(version: &str) -> (r: String)
    ensures
        r@ == tagged_url_text(version@),
{
    let mut out: String = "https://github.com/coollabsio/coold/releases/download/".to_owned();
    out.append(version);
    out.append("/coolify-linux-${ARCH}.tar.gz");
    out
}

/// The address of a release: the latest, or the one with this tag.
pub open spec fn url_of(version: Seq<char>) -> Seq<char> {
    if version == "latest"@ {
        "https://github.com/coollabsio/coold/releases/latest/download/coolify-linux-${ARCH}.tar.gz"@
    } else {
        tagged_url_text(version)
    }
}

/// The address of a release.
pub fn release_url(version: &str) -> (r: String)
    ensures
        r@ == url_of(version@),
{
    if text::same(version, "latest") {
        "https://github.com/coollabsio/coold/releases/latest/download/coolify-linux-${ARCH}.tar.gz".to_owned()
    } else {
        tagged_url(version)
    }
}

/// The script that installs a release from an address.
pub open spec fn install_script_text(version: Seq<char>, url: Seq<char>) -> Seq<char> {
    "set -e\nARCH_RAW=$(uname -m)\ncase \"$ARCH_RAW\" in\n  x86_64)  ARCH=amd64 ;;\n  aarch64) ARCH=arm64 ;;\n  *) echo \"unsupported arch: $ARCH_RAW\" >&2; exit 1 ;;\nesac\nURL=\""@
        + url
        + "\"\nDLDIR=$(mktemp -d)\ntrap 'rm -rf \"$DLDIR\"' EXIT\ncurl -fsSL --retry 3 --max-time 120 -o \"$DLDIR/coolify.tar.gz\" \"$URL\"\ntar -xzf \"$DLDIR/coolify.tar.gz\" -C \"$DLDIR\"\ntest -f \"$DLDIR/coolify\" || { echo \"coolify binary not found in tarball\" >&2; exit 1; }\ninstall -m 0755 \"$DLDIR/coolify\" /usr/local/bin/coolify.tmp\nmv /usr/local/bin/coolify.tmp /usr/local/bin/coolify\necho '"@
        + version
        + "' > /usr/local/bin/coolify.version"@
}

/// The script that installs a release from an address.
fn install_script(version: &str, url: &str) -> (r: String)
    ensures
        r@ == install_script_text(version@, url@),
{
    let mut out: String = "set -e\nARCH_RAW=$(uname -m)\ncase \"$ARCH_RAW\" in\n  x86_64)  ARCH=amd64 ;;\n  aarch64) ARCH=arm64 ;;\n  *) echo \"unsupported arch: $ARCH_RAW\" >&2; exit 1 ;;\nesac\nURL=\"".to_owned();
    out.append(url);
    out.append("\"\nDLDIR=$(mktemp -d)\ntrap 'rm -rf \"$DLDIR\"' EXIT\ncurl -fsSL --retry 3 --max-time 120 -o \"$DLDIR/coolify.tar.gz\" \"$URL\"\ntar -xzf \"$DLDIR/coolify.tar.gz\" -C \"$DLDIR\"\ntest -f \"$DLDIR/coolify\" || { echo \"coolify binary not found in tarball\" >&2; exit 1; }\ninstall -m 0755 \"$DLDIR/coolify\" /usr/local/bin/coolify.tmp\nmv /usr/local/bin/coolify.tmp /usr/local/bin/coolify\necho '");
    out.append(version);
    out.append("' > /usr/local/bin/coolify.version");
    out
}

/// The script that installs a release.
pub fn install_command(version: &str) -> (r: String)
    ensures
        r@ == install_script_text(version@, url_of(version@)),
{
    install_script(version, release_url(version).as_str())
}

/// The unit of the service.
pub open spec fn service_unit_text() -> Seq<char> {
    "[Unit]\nDescription=Coolify UI/API\nAfter=network-online.target scheduler.service\nWants=network-online.target scheduler.service\n\n[Service]\nStateDirectory=coolify\nWorkingDirectory=/var/lib/coolify\nEnvironment=COOLIFY_API_BIND=0.0.0.0:3000\nEnvironment=COOLIFY_API_DB=/var/lib/coolify/coolify.db\nEnvironment=COOLIFY_SCHEDULER_SOCKET=/run/coolify/scheduler.sock\nExecStart=/usr/local/bin/coolify serve\nRestart=on-failure\nRestartSec=2s\n\n[Install]\nWantedBy=multi-user.target\n"@
}

/// The unit of the service.
pub fn service_unit() -> (r: String)
    ensures
        r@ == service_unit_text(),
{
    "[Unit]\nDescription=Coolify UI/API\nAfter=network-online.target scheduler.service\nWants=network-online.target scheduler.service\n\n[Service]\nStateDirectory=coolify\nWorkingDirectory=/var/lib/coolify\nEnvironment=COOLIFY_API_BIND=0.0.0.0:3000\nEnvironment=COOLIFY_API_DB=/var/lib/coolify/coolify.db\nEnvironment=COOLIFY_SCHEDULER_SOCKET=/run/coolify/scheduler.sock\nExecStart=/usr/local/bin/coolify serve\nRestart=on-failure\nRestartSec=2s\n\n[Install]\nWantedBy=multi-user.target\n".to_owned()
}

} // verus!
