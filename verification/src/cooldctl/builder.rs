//! The builder on a node.

use vstd::prelude::*;
use vstd::string::StringExecFns;

verus! {

pub const BUILDER_WORK_DIR: &'static str = "/var/lib/coolify-builder/work";

pub const BUILDER_BINARY_PATH: &'static str = "/usr/local/bin/builder";

/// The script that installs a builder release.
pub open spec fn install_command_text(version: Seq<char>) -> Seq<char> {
    "set -e\nDEBIAN_FRONTEND=noninteractive apt-get update -qq 2>/dev/null\nDEBIAN_FRONTEND=noninteractive apt-get install -y -o Dpkg::Options::=\"--force-confold\" buildah git ca-certificates 2>&1 >/dev/null\nmkdir -p /var/lib/coolify-builder/work\nARCH_RAW=$(uname -m)\ncase \"$ARCH_RAW\" in\n  x86_64)  ARCH=amd64 ;;\n  aarch64) ARCH=arm64 ;;\n  *) echo \"unsupported arch: $ARCH_RAW\" >&2; exit 1 ;;\nesac\nURL=\"https://github.com/coollabsio/coold/releases/download/"@
        + version
        + "/builder-linux-${ARCH}.tar.gz\"\nDLDIR=$(mktemp -d)\ntrap 'rm -rf \"$DLDIR\"' EXIT\ncurl -fsSL --retry 3 --max-time 120 -o \"$DLDIR/builder.tar.gz\" \"$URL\"\ntar -xzf \"$DLDIR/builder.tar.gz\" -C \"$DLDIR\"\ntest -f \"$DLDIR/builder\" || { echo \"builder binary not found in tarball\" >&2; exit 1; }\ninstall -m 0755 \"$DLDIR/builder\" /usr/local/bin/builder.tmp\nmv /usr/local/bin/builder.tmp /usr/local/bin/builder\necho '"@
        + version
        + "' > /usr/local/bin/builder.version"@
}

/// The script that installs a builder release.
pub fn install_command(version: &str) -> (r: String)
    ensures
        r@ == install_command_text(version@),
{
    let mut out: String = "set -e\nDEBIAN_FRONTEND=noninteractive apt-get update -qq 2>/dev/null\nDEBIAN_FRONTEND=noninteractive apt-get install -y -o Dpkg::Options::=\"--force-confold\" buildah git ca-certificates 2>&1 >/dev/null\nmkdir -p /var/lib/coolify-builder/work\nARCH_RAW=$(uname -m)\ncase \"$ARCH_RAW\" in\n  x86_64)  ARCH=amd64 ;;\n  aarch64) ARCH=arm64 ;;\n  *) echo \"unsupported arch: $ARCH_RAW\" >&2; exit 1 ;;\nesac\nURL=\"https://github.com/coollabsio/coold/releases/download/".to_owned();
    out.append(version);
    out.append("/builder-linux-${ARCH}.tar.gz\"\nDLDIR=$(mktemp -d)\ntrap 'rm -rf \"$DLDIR\"' EXIT\ncurl -fsSL --retry 3 --max-time 120 -o \"$DLDIR/builder.tar.gz\" \"$URL\"\ntar -xzf \"$DLDIR/builder.tar.gz\" -C \"$DLDIR\"\ntest -f \"$DLDIR/builder\" || { echo \"builder binary not found in tarball\" >&2; exit 1; }\ninstall -m 0755 \"$DLDIR/builder\" /usr/local/bin/builder.tmp\nmv /usr/local/bin/builder.tmp /usr/local/bin/builder\necho '");
    out.append(version);
    out.append("' > /usr/local/bin/builder.version");
    out
}

} // verus!
