//! What the commands and the units that go to the hosts of a controlled mesh say.

use vstd::prelude::*;
use crate::cli::coold as agent;
use crate::cli::script_laws::{stands_between, stands_first, stands_last};
use crate::cooldctl::builder;
use crate::cooldctl::coold;
use crate::cooldctl::coolify;
use crate::cooldctl::flux;
use crate::cooldctl::scheduler;
use crate::cooldctl::ssh;
use crate::net;
use crate::number;
use crate::text;

verus! {

/// The agent is fetched in the version that is asked for, for the machine that it runs on, takes its place
/// in one step, and leaves its version beside it.
pub proof fn agents_are_fetched_in_their_version(version: Seq<char>)
    ensures
        text::has_text(coold::install_command_text(version), "URL=\"https://github.com/coollabsio/coold/releases/download/"@ + version + "/coold-linux-${ARCH}.tar.gz\"\n"@),
        text::has_text(coold::install_command_text(version), "curl -fsSL --retry 3 --max-time 120 -o \"$DLDIR/coold.tar.gz\" \"$URL\"\ntar -xzf \"$DLDIR/coold.tar.gz\" -C \"$DLDIR\"\n"@),
        text::has_text(coold::install_command_text(version), "install -m 0755 \"$DLDIR/coold\" /usr/local/bin/coold.tmp\nmv /usr/local/bin/coold.tmp /usr/local/bin/coold\n"@),
        text::has_suffix(coold::install_command_text(version), "echo '"@ + version + "' > /usr/local/bin/coold.version"@),
{
    assert(text::has_text(coold::install_command_text(version), "URL=\"https://github.com/coollabsio/coold/releases/download/"@ + version + "/coold-linux-${ARCH}.tar.gz\"\n"@)) by {
        assert("set -e\nDEBIAN_FRONTEND=noninteractive apt-get update -qq 2>/dev/null\nDEBIAN_FRONTEND=noninteractive apt-get install -y -o Dpkg::Options::=\"--force-confold\" ca-certificates curl tar 2>&1 >/dev/null\nARCH_RAW=$(uname -m)\ncase \"$ARCH_RAW\" in\n  x86_64)  ARCH=amd64 ;;\n  aarch64) ARCH=arm64 ;;\n  *) echo \"unsupported arch: $ARCH_RAW\" >&2; exit 1 ;;\nesac\nURL=\"https://github.com/coollabsio/coold/releases/download/"@ =~= "set -e\nDEBIAN_FRONTEND=noninteractive apt-get update -qq 2>/dev/null\nDEBIAN_FRONTEND=noninteractive apt-get install -y -o Dpkg::Options::=\"--force-confold\" ca-certificates curl tar 2>&1 >/dev/null\nARCH_RAW=$(uname -m)\ncase \"$ARCH_RAW\" in\n  x86_64)  ARCH=amd64 ;;\n  aarch64) ARCH=arm64 ;;\n  *) echo \"unsupported arch: $ARCH_RAW\" >&2; exit 1 ;;\nesac\n"@ + "URL=\"https://github.com/coollabsio/coold/releases/download/"@) by {
            reveal_strlit("set -e\nDEBIAN_FRONTEND=noninteractive apt-get update -qq 2>/dev/null\nDEBIAN_FRONTEND=noninteractive apt-get install -y -o Dpkg::Options::=\"--force-confold\" ca-certificates curl tar 2>&1 >/dev/null\nARCH_RAW=$(uname -m)\ncase \"$ARCH_RAW\" in\n  x86_64)  ARCH=amd64 ;;\n  aarch64) ARCH=arm64 ;;\n  *) echo \"unsupported arch: $ARCH_RAW\" >&2; exit 1 ;;\nesac\nURL=\"https://github.com/coollabsio/coold/releases/download/");
            reveal_strlit("set -e\nDEBIAN_FRONTEND=noninteractive apt-get update -qq 2>/dev/null\nDEBIAN_FRONTEND=noninteractive apt-get install -y -o Dpkg::Options::=\"--force-confold\" ca-certificates curl tar 2>&1 >/dev/null\nARCH_RAW=$(uname -m)\ncase \"$ARCH_RAW\" in\n  x86_64)  ARCH=amd64 ;;\n  aarch64) ARCH=arm64 ;;\n  *) echo \"unsupported arch: $ARCH_RAW\" >&2; exit 1 ;;\nesac\n");
            reveal_strlit("URL=\"https://github.com/coollabsio/coold/releases/download/");
        }
        assert("/coold-linux-${ARCH}.tar.gz\"\nDLDIR=$(mktemp -d)\ntrap 'rm -rf \"$DLDIR\"' EXIT\ncurl -fsSL --retry 3 --max-time 120 -o \"$DLDIR/coold.tar.gz\" \"$URL\"\ntar -xzf \"$DLDIR/coold.tar.gz\" -C \"$DLDIR\"\ntest -f \"$DLDIR/coold\" || { echo \"coold binary not found in tarball\" >&2; exit 1; }\ninstall -m 0755 \"$DLDIR/coold\" /usr/local/bin/coold.tmp\nmv /usr/local/bin/coold.tmp /usr/local/bin/coold\necho '"@ =~= "/coold-linux-${ARCH}.tar.gz\"\n"@ + "DLDIR=$(mktemp -d)\ntrap 'rm -rf \"$DLDIR\"' EXIT\ncurl -fsSL --retry 3 --max-time 120 -o \"$DLDIR/coold.tar.gz\" \"$URL\"\ntar -xzf \"$DLDIR/coold.tar.gz\" -C \"$DLDIR\"\ntest -f \"$DLDIR/coold\" || { echo \"coold binary not found in tarball\" >&2; exit 1; }\ninstall -m 0755 \"$DLDIR/coold\" /usr/local/bin/coold.tmp\nmv /usr/local/bin/coold.tmp /usr/local/bin/coold\necho '"@) by {
            reveal_strlit("/coold-linux-${ARCH}.tar.gz\"\nDLDIR=$(mktemp -d)\ntrap 'rm -rf \"$DLDIR\"' EXIT\ncurl -fsSL --retry 3 --max-time 120 -o \"$DLDIR/coold.tar.gz\" \"$URL\"\ntar -xzf \"$DLDIR/coold.tar.gz\" -C \"$DLDIR\"\ntest -f \"$DLDIR/coold\" || { echo \"coold binary not found in tarball\" >&2; exit 1; }\ninstall -m 0755 \"$DLDIR/coold\" /usr/local/bin/coold.tmp\nmv /usr/local/bin/coold.tmp /usr/local/bin/coold\necho '");
            reveal_strlit("/coold-linux-${ARCH}.tar.gz\"\n");
            reveal_strlit("DLDIR=$(mktemp -d)\ntrap 'rm -rf \"$DLDIR\"' EXIT\ncurl -fsSL --retry 3 --max-time 120 -o \"$DLDIR/coold.tar.gz\" \"$URL\"\ntar -xzf \"$DLDIR/coold.tar.gz\" -C \"$DLDIR\"\ntest -f \"$DLDIR/coold\" || { echo \"coold binary not found in tarball\" >&2; exit 1; }\ninstall -m 0755 \"$DLDIR/coold\" /usr/local/bin/coold.tmp\nmv /usr/local/bin/coold.tmp /usr/local/bin/coold\necho '");
        }
        let x = "set -e\nDEBIAN_FRONTEND=noninteractive apt-get update -qq 2>/dev/null\nDEBIAN_FRONTEND=noninteractive apt-get install -y -o Dpkg::Options::=\"--force-confold\" ca-certificates curl tar 2>&1 >/dev/null\nARCH_RAW=$(uname -m)\ncase \"$ARCH_RAW\" in\n  x86_64)  ARCH=amd64 ;;\n  aarch64) ARCH=arm64 ;;\n  *) echo \"unsupported arch: $ARCH_RAW\" >&2; exit 1 ;;\nesac\n"@;
        let m = "URL=\"https://github.com/coollabsio/coold/releases/download/"@ + version + "/coold-linux-${ARCH}.tar.gz\"\n"@;
        let y = "DLDIR=$(mktemp -d)\ntrap 'rm -rf \"$DLDIR\"' EXIT\ncurl -fsSL --retry 3 --max-time 120 -o \"$DLDIR/coold.tar.gz\" \"$URL\"\ntar -xzf \"$DLDIR/coold.tar.gz\" -C \"$DLDIR\"\ntest -f \"$DLDIR/coold\" || { echo \"coold binary not found in tarball\" >&2; exit 1; }\ninstall -m 0755 \"$DLDIR/coold\" /usr/local/bin/coold.tmp\nmv /usr/local/bin/coold.tmp /usr/local/bin/coold\necho '"@ + version + "' > /usr/local/bin/coold.version"@;
        assert(coold::install_command_text(version) =~= x + m + y);
        stands_between(x, m, y);
    }
    assert(text::has_text(coold::install_command_text(version), "curl -fsSL --retry 3 --max-time 120 -o \"$DLDIR/coold.tar.gz\" \"$URL\"\ntar -xzf \"$DLDIR/coold.tar.gz\" -C \"$DLDIR\"\n"@)) by {
        assert("/coold-linux-${ARCH}.tar.gz\"\nDLDIR=$(mktemp -d)\ntrap 'rm -rf \"$DLDIR\"' EXIT\ncurl -fsSL --retry 3 --max-time 120 -o \"$DLDIR/coold.tar.gz\" \"$URL\"\ntar -xzf \"$DLDIR/coold.tar.gz\" -C \"$DLDIR\"\ntest -f \"$DLDIR/coold\" || { echo \"coold binary not found in tarball\" >&2; exit 1; }\ninstall -m 0755 \"$DLDIR/coold\" /usr/local/bin/coold.tmp\nmv /usr/local/bin/coold.tmp /usr/local/bin/coold\necho '"@ =~= "/coold-linux-${ARCH}.tar.gz\"\nDLDIR=$(mktemp -d)\ntrap 'rm -rf \"$DLDIR\"' EXIT\n"@ + "curl -fsSL --retry 3 --max-time 120 -o \"$DLDIR/coold.tar.gz\" \"$URL\"\ntar -xzf \"$DLDIR/coold.tar.gz\" -C \"$DLDIR\"\n"@ + "test -f \"$DLDIR/coold\" || { echo \"coold binary not found in tarball\" >&2; exit 1; }\ninstall -m 0755 \"$DLDIR/coold\" /usr/local/bin/coold.tmp\nmv /usr/local/bin/coold.tmp /usr/local/bin/coold\necho '"@) by {
            reveal_strlit("/coold-linux-${ARCH}.tar.gz\"\nDLDIR=$(mktemp -d)\ntrap 'rm -rf \"$DLDIR\"' EXIT\ncurl -fsSL --retry 3 --max-time 120 -o \"$DLDIR/coold.tar.gz\" \"$URL\"\ntar -xzf \"$DLDIR/coold.tar.gz\" -C \"$DLDIR\"\ntest -f \"$DLDIR/coold\" || { echo \"coold binary not found in tarball\" >&2; exit 1; }\ninstall -m 0755 \"$DLDIR/coold\" /usr/local/bin/coold.tmp\nmv /usr/local/bin/coold.tmp /usr/local/bin/coold\necho '");
            reveal_strlit("/coold-linux-${ARCH}.tar.gz\"\nDLDIR=$(mktemp -d)\ntrap 'rm -rf \"$DLDIR\"' EXIT\n");
            reveal_strlit("curl -fsSL --retry 3 --max-time 120 -o \"$DLDIR/coold.tar.gz\" \"$URL\"\ntar -xzf \"$DLDIR/coold.tar.gz\" -C \"$DLDIR\"\n");
            reveal_strlit("test -f \"$DLDIR/coold\" || { echo \"coold binary not found in tarball\" >&2; exit 1; }\ninstall -m 0755 \"$DLDIR/coold\" /usr/local/bin/coold.tmp\nmv /usr/local/bin/coold.tmp /usr/local/bin/coold\necho '");
        }
        let x = "set -e\nDEBIAN_FRONTEND=noninteractive apt-get update -qq 2>/dev/null\nDEBIAN_FRONTEND=noninteractive apt-get install -y -o Dpkg::Options::=\"--force-confold\" ca-certificates curl tar 2>&1 >/dev/null\nARCH_RAW=$(uname -m)\ncase \"$ARCH_RAW\" in\n  x86_64)  ARCH=amd64 ;;\n  aarch64) ARCH=arm64 ;;\n  *) echo \"unsupported arch: $ARCH_RAW\" >&2; exit 1 ;;\nesac\nURL=\"https://github.com/coollabsio/coold/releases/download/"@ + version + "/coold-linux-${ARCH}.tar.gz\"\nDLDIR=$(mktemp -d)\ntrap 'rm -rf \"$DLDIR\"' EXIT\n"@;
        let m = "curl -fsSL --retry 3 --max-time 120 -o \"$DLDIR/coold.tar.gz\" \"$URL\"\ntar -xzf \"$DLDIR/coold.tar.gz\" -C \"$DLDIR\"\n"@;
        let y = "test -f \"$DLDIR/coold\" || { echo \"coold binary not found in tarball\" >&2; exit 1; }\ninstall -m 0755 \"$DLDIR/coold\" /usr/local/bin/coold.tmp\nmv /usr/local/bin/coold.tmp /usr/local/bin/coold\necho '"@ + version + "' > /usr/local/bin/coold.version"@;
        assert(coold::install_command_text(version) =~= x + m + y);
        stands_between(x, m, y);
    }
    assert(text::has_text(coold::install_command_text(version), "install -m 0755 \"$DLDIR/coold\" /usr/local/bin/coold.tmp\nmv /usr/local/bin/coold.tmp /usr/local/bin/coold\n"@)) by {
        assert("/coold-linux-${ARCH}.tar.gz\"\nDLDIR=$(mktemp -d)\ntrap 'rm -rf \"$DLDIR\"' EXIT\ncurl -fsSL --retry 3 --max-time 120 -o \"$DLDIR/coold.tar.gz\" \"$URL\"\ntar -xzf \"$DLDIR/coold.tar.gz\" -C \"$DLDIR\"\ntest -f \"$DLDIR/coold\" || { echo \"coold binary not found in tarball\" >&2; exit 1; }\ninstall -m 0755 \"$DLDIR/coold\" /usr/local/bin/coold.tmp\nmv /usr/local/bin/coold.tmp /usr/local/bin/coold\necho '"@ =~= "/coold-linux-${ARCH}.tar.gz\"\nDLDIR=$(mktemp -d)\ntrap 'rm -rf \"$DLDIR\"' EXIT\ncurl -fsSL --retry 3 --max-time 120 -o \"$DLDIR/coold.tar.gz\" \"$URL\"\ntar -xzf \"$DLDIR/coold.tar.gz\" -C \"$DLDIR\"\ntest -f \"$DLDIR/coold\" || { echo \"coold binary not found in tarball\" >&2; exit 1; }\n"@ + "install -m 0755 \"$DLDIR/coold\" /usr/local/bin/coold.tmp\nmv /usr/local/bin/coold.tmp /usr/local/bin/coold\n"@ + "echo '"@) by {
            reveal_strlit("/coold-linux-${ARCH}.tar.gz\"\nDLDIR=$(mktemp -d)\ntrap 'rm -rf \"$DLDIR\"' EXIT\ncurl -fsSL --retry 3 --max-time 120 -o \"$DLDIR/coold.tar.gz\" \"$URL\"\ntar -xzf \"$DLDIR/coold.tar.gz\" -C \"$DLDIR\"\ntest -f \"$DLDIR/coold\" || { echo \"coold binary not found in tarball\" >&2; exit 1; }\ninstall -m 0755 \"$DLDIR/coold\" /usr/local/bin/coold.tmp\nmv /usr/local/bin/coold.tmp /usr/local/bin/coold\necho '");
            reveal_strlit("/coold-linux-${ARCH}.tar.gz\"\nDLDIR=$(mktemp -d)\ntrap 'rm -rf \"$DLDIR\"' EXIT\ncurl -fsSL --retry 3 --max-time 120 -o \"$DLDIR/coold.tar.gz\" \"$URL\"\ntar -xzf \"$DLDIR/coold.tar.gz\" -C \"$DLDIR\"\ntest -f \"$DLDIR/coold\" || { echo \"coold binary not found in tarball\" >&2; exit 1; }\n");
            reveal_strlit("install -m 0755 \"$DLDIR/coold\" /usr/local/bin/coold.tmp\nmv /usr/local/bin/coold.tmp /usr/local/bin/coold\n");
            reveal_strlit("echo '");
        }
        let x = "set -e\nDEBIAN_FRONTEND=noninteractive apt-get update -qq 2>/dev/null\nDEBIAN_FRONTEND=noninteractive apt-get install -y -o Dpkg::Options::=\"--force-confold\" ca-certificates curl tar 2>&1 >/dev/null\nARCH_RAW=$(uname -m)\ncase \"$ARCH_RAW\" in\n  x86_64)  ARCH=amd64 ;;\n  aarch64) ARCH=arm64 ;;\n  *) echo \"unsupported arch: $ARCH_RAW\" >&2; exit 1 ;;\nesac\nURL=\"https://github.com/coollabsio/coold/releases/download/"@ + version + "/coold-linux-${ARCH}.tar.gz\"\nDLDIR=$(mktemp -d)\ntrap 'rm -rf \"$DLDIR\"' EXIT\ncurl -fsSL --retry 3 --max-time 120 -o \"$DLDIR/coold.tar.gz\" \"$URL\"\ntar -xzf \"$DLDIR/coold.tar.gz\" -C \"$DLDIR\"\ntest -f \"$DLDIR/coold\" || { echo \"coold binary not found in tarball\" >&2; exit 1; }\n"@;
        let m = "install -m 0755 \"$DLDIR/coold\" /usr/local/bin/coold.tmp\nmv /usr/local/bin/coold.tmp /usr/local/bin/coold\n"@;
        let y = "echo '"@ + version + "' > /usr/local/bin/coold.version"@;
        assert(coold::install_command_text(version) =~= x + m + y);
        stands_between(x, m, y);
    }
    assert(text::has_suffix(coold::install_command_text(version), "echo '"@ + version + "' > /usr/local/bin/coold.version"@)) by {
        assert("/coold-linux-${ARCH}.tar.gz\"\nDLDIR=$(mktemp -d)\ntrap 'rm -rf \"$DLDIR\"' EXIT\ncurl -fsSL --retry 3 --max-time 120 -o \"$DLDIR/coold.tar.gz\" \"$URL\"\ntar -xzf \"$DLDIR/coold.tar.gz\" -C \"$DLDIR\"\ntest -f \"$DLDIR/coold\" || { echo \"coold binary not found in tarball\" >&2; exit 1; }\ninstall -m 0755 \"$DLDIR/coold\" /usr/local/bin/coold.tmp\nmv /usr/local/bin/coold.tmp /usr/local/bin/coold\necho '"@ =~= "/coold-linux-${ARCH}.tar.gz\"\nDLDIR=$(mktemp -d)\ntrap 'rm -rf \"$DLDIR\"' EXIT\ncurl -fsSL --retry 3 --max-time 120 -o \"$DLDIR/coold.tar.gz\" \"$URL\"\ntar -xzf \"$DLDIR/coold.tar.gz\" -C \"$DLDIR\"\ntest -f \"$DLDIR/coold\" || { echo \"coold binary not found in tarball\" >&2; exit 1; }\ninstall -m 0755 \"$DLDIR/coold\" /usr/local/bin/coold.tmp\nmv /usr/local/bin/coold.tmp /usr/local/bin/coold\n"@ + "echo '"@) by {
            reveal_strlit("/coold-linux-${ARCH}.tar.gz\"\nDLDIR=$(mktemp -d)\ntrap 'rm -rf \"$DLDIR\"' EXIT\ncurl -fsSL --retry 3 --max-time 120 -o \"$DLDIR/coold.tar.gz\" \"$URL\"\ntar -xzf \"$DLDIR/coold.tar.gz\" -C \"$DLDIR\"\ntest -f \"$DLDIR/coold\" || { echo \"coold binary not found in tarball\" >&2; exit 1; }\ninstall -m 0755 \"$DLDIR/coold\" /usr/local/bin/coold.tmp\nmv /usr/local/bin/coold.tmp /usr/local/bin/coold\necho '");
            reveal_strlit("/coold-linux-${ARCH}.tar.gz\"\nDLDIR=$(mktemp -d)\ntrap 'rm -rf \"$DLDIR\"' EXIT\ncurl -fsSL --retry 3 --max-time 120 -o \"$DLDIR/coold.tar.gz\" \"$URL\"\ntar -xzf \"$DLDIR/coold.tar.gz\" -C \"$DLDIR\"\ntest -f \"$DLDIR/coold\" || { echo \"coold binary not found in tarball\" >&2; exit 1; }\ninstall -m 0755 \"$DLDIR/coold\" /usr/local/bin/coold.tmp\nmv /usr/local/bin/coold.tmp /usr/local/bin/coold\n");
            reveal_strlit("echo '");
        }
        let x = "set -e\nDEBIAN_FRONTEND=noninteractive apt-get update -qq 2>/dev/null\nDEBIAN_FRONTEND=noninteractive apt-get install -y -o Dpkg::Options::=\"--force-confold\" ca-certificates curl tar 2>&1 >/dev/null\nARCH_RAW=$(uname -m)\ncase \"$ARCH_RAW\" in\n  x86_64)  ARCH=amd64 ;;\n  aarch64) ARCH=arm64 ;;\n  *) echo \"unsupported arch: $ARCH_RAW\" >&2; exit 1 ;;\nesac\nURL=\"https://github.com/coollabsio/coold/releases/download/"@ + version + "/coold-linux-${ARCH}.tar.gz\"\nDLDIR=$(mktemp -d)\ntrap 'rm -rf \"$DLDIR\"' EXIT\ncurl -fsSL --retry 3 --max-time 120 -o \"$DLDIR/coold.tar.gz\" \"$URL\"\ntar -xzf \"$DLDIR/coold.tar.gz\" -C \"$DLDIR\"\ntest -f \"$DLDIR/coold\" || { echo \"coold binary not found in tarball\" >&2; exit 1; }\ninstall -m 0755 \"$DLDIR/coold\" /usr/local/bin/coold.tmp\nmv /usr/local/bin/coold.tmp /usr/local/bin/coold\n"@;
        let m = "echo '"@ + version + "' > /usr/local/bin/coold.version"@;
        let y = Seq::<char>::empty();
        assert(coold::install_command_text(version) =~= x + m + y);
        assert(x + m + y =~= x + m);
        stands_last(x, m);
    }
}

/// The scheduler is fetched in the version that is asked for, for the machine that it runs on, takes its place
/// in one step, and leaves its version beside it.
pub proof fn schedulers_are_fetched_in_their_version(version: Seq<char>)
    ensures
        text::has_text(scheduler::install_command_text(version), "URL=\"https://github.com/coollabsio/coold/releases/download/"@ + version + "/scheduler-linux-${ARCH}.tar.gz\"\n"@),
        text::has_text(scheduler::install_command_text(version), "curl -fsSL --retry 3 --max-time 120 -o \"$DLDIR/scheduler.tar.gz\" \"$URL\"\ntar -xzf \"$DLDIR/scheduler.tar.gz\" -C \"$DLDIR\"\n"@),
        text::has_text(scheduler::install_command_text(version), "install -m 0755 \"$DLDIR/scheduler\" /usr/local/bin/scheduler.tmp\nmv /usr/local/bin/scheduler.tmp /usr/local/bin/scheduler\n"@),
        text::has_suffix(scheduler::install_command_text(version), "echo '"@ + version + "' > /usr/local/bin/scheduler.version"@),
{
    assert(text::has_text(scheduler::install_command_text(version), "URL=\"https://github.com/coollabsio/coold/releases/download/"@ + version + "/scheduler-linux-${ARCH}.tar.gz\"\n"@)) by {
        assert("set -e\nARCH_RAW=$(uname -m)\ncase \"$ARCH_RAW\" in\n  x86_64)  ARCH=amd64 ;;\n  aarch64) ARCH=arm64 ;;\n  *) echo \"unsupported arch: $ARCH_RAW\" >&2; exit 1 ;;\nesac\nURL=\"https://github.com/coollabsio/coold/releases/download/"@ =~= "set -e\nARCH_RAW=$(uname -m)\ncase \"$ARCH_RAW\" in\n  x86_64)  ARCH=amd64 ;;\n  aarch64) ARCH=arm64 ;;\n  *) echo \"unsupported arch: $ARCH_RAW\" >&2; exit 1 ;;\nesac\n"@ + "URL=\"https://github.com/coollabsio/coold/releases/download/"@) by {
            reveal_strlit("set -e\nARCH_RAW=$(uname -m)\ncase \"$ARCH_RAW\" in\n  x86_64)  ARCH=amd64 ;;\n  aarch64) ARCH=arm64 ;;\n  *) echo \"unsupported arch: $ARCH_RAW\" >&2; exit 1 ;;\nesac\nURL=\"https://github.com/coollabsio/coold/releases/download/");
            reveal_strlit("set -e\nARCH_RAW=$(uname -m)\ncase \"$ARCH_RAW\" in\n  x86_64)  ARCH=amd64 ;;\n  aarch64) ARCH=arm64 ;;\n  *) echo \"unsupported arch: $ARCH_RAW\" >&2; exit 1 ;;\nesac\n");
            reveal_strlit("URL=\"https://github.com/coollabsio/coold/releases/download/");
        }
        assert("/scheduler-linux-${ARCH}.tar.gz\"\nDLDIR=$(mktemp -d)\ntrap 'rm -rf \"$DLDIR\"' EXIT\ncurl -fsSL --retry 3 --max-time 120 -o \"$DLDIR/scheduler.tar.gz\" \"$URL\"\ntar -xzf \"$DLDIR/scheduler.tar.gz\" -C \"$DLDIR\"\ntest -f \"$DLDIR/scheduler\" || { echo \"scheduler binary not found in tarball\" >&2; exit 1; }\ninstall -m 0755 \"$DLDIR/scheduler\" /usr/local/bin/scheduler.tmp\nmv /usr/local/bin/scheduler.tmp /usr/local/bin/scheduler\necho '"@ =~= "/scheduler-linux-${ARCH}.tar.gz\"\n"@ + "DLDIR=$(mktemp -d)\ntrap 'rm -rf \"$DLDIR\"' EXIT\ncurl -fsSL --retry 3 --max-time 120 -o \"$DLDIR/scheduler.tar.gz\" \"$URL\"\ntar -xzf \"$DLDIR/scheduler.tar.gz\" -C \"$DLDIR\"\ntest -f \"$DLDIR/scheduler\" || { echo \"scheduler binary not found in tarball\" >&2; exit 1; }\ninstall -m 0755 \"$DLDIR/scheduler\" /usr/local/bin/scheduler.tmp\nmv /usr/local/bin/scheduler.tmp /usr/local/bin/scheduler\necho '"@) by {
            reveal_strlit("/scheduler-linux-${ARCH}.tar.gz\"\nDLDIR=$(mktemp -d)\ntrap 'rm -rf \"$DLDIR\"' EXIT\ncurl -fsSL --retry 3 --max-time 120 -o \"$DLDIR/scheduler.tar.gz\" \"$URL\"\ntar -xzf \"$DLDIR/scheduler.tar.gz\" -C \"$DLDIR\"\ntest -f \"$DLDIR/scheduler\" || { echo \"scheduler binary not found in tarball\" >&2; exit 1; }\ninstall -m 0755 \"$DLDIR/scheduler\" /usr/local/bin/scheduler.tmp\nmv /usr/local/bin/scheduler.tmp /usr/local/bin/scheduler\necho '");
            reveal_strlit("/scheduler-linux-${ARCH}.tar.gz\"\n");
            reveal_strlit("DLDIR=$(mktemp -d)\ntrap 'rm -rf \"$DLDIR\"' EXIT\ncurl -fsSL --retry 3 --max-time 120 -o \"$DLDIR/scheduler.tar.gz\" \"$URL\"\ntar -xzf \"$DLDIR/scheduler.tar.gz\" -C \"$DLDIR\"\ntest -f \"$DLDIR/scheduler\" || { echo \"scheduler binary not found in tarball\" >&2; exit 1; }\ninstall -m 0755 \"$DLDIR/scheduler\" /usr/local/bin/scheduler.tmp\nmv /usr/local/bin/scheduler.tmp /usr/local/bin/scheduler\necho '");
        }
        let x = "set -e\nARCH_RAW=$(uname -m)\ncase \"$ARCH_RAW\" in\n  x86_64)  ARCH=amd64 ;;\n  aarch64) ARCH=arm64 ;;\n  *) echo \"unsupported arch: $ARCH_RAW\" >&2; exit 1 ;;\nesac\n"@;
        let m = "URL=\"https://github.com/coollabsio/coold/releases/download/"@ + version + "/scheduler-linux-${ARCH}.tar.gz\"\n"@;
        let y = "DLDIR=$(mktemp -d)\ntrap 'rm -rf \"$DLDIR\"' EXIT\ncurl -fsSL --retry 3 --max-time 120 -o \"$DLDIR/scheduler.tar.gz\" \"$URL\"\ntar -xzf \"$DLDIR/scheduler.tar.gz\" -C \"$DLDIR\"\ntest -f \"$DLDIR/scheduler\" || { echo \"scheduler binary not found in tarball\" >&2; exit 1; }\ninstall -m 0755 \"$DLDIR/scheduler\" /usr/local/bin/scheduler.tmp\nmv /usr/local/bin/scheduler.tmp /usr/local/bin/scheduler\necho '"@ + version + "' > /usr/local/bin/scheduler.version"@;
        assert(scheduler::install_command_text(version) =~= x + m + y);
        stands_between(x, m, y);
    }
    assert(text::has_text(scheduler::install_command_text(version), "curl -fsSL --retry 3 --max-time 120 -o \"$DLDIR/scheduler.tar.gz\" \"$URL\"\ntar -xzf \"$DLDIR/scheduler.tar.gz\" -C \"$DLDIR\"\n"@)) by {
        assert("/scheduler-linux-${ARCH}.tar.gz\"\nDLDIR=$(mktemp -d)\ntrap 'rm -rf \"$DLDIR\"' EXIT\ncurl -fsSL --retry 3 --max-time 120 -o \"$DLDIR/scheduler.tar.gz\" \"$URL\"\ntar -xzf \"$DLDIR/scheduler.tar.gz\" -C \"$DLDIR\"\ntest -f \"$DLDIR/scheduler\" || { echo \"scheduler binary not found in tarball\" >&2; exit 1; }\ninstall -m 0755 \"$DLDIR/scheduler\" /usr/local/bin/scheduler.tmp\nmv /usr/local/bin/scheduler.tmp /usr/local/bin/scheduler\necho '"@ =~= "/scheduler-linux-${ARCH}.tar.gz\"\nDLDIR=$(mktemp -d)\ntrap 'rm -rf \"$DLDIR\"' EXIT\n"@ + "curl -fsSL --retry 3 --max-time 120 -o \"$DLDIR/scheduler.tar.gz\" \"$URL\"\ntar -xzf \"$DLDIR/scheduler.tar.gz\" -C \"$DLDIR\"\n"@ + "test -f \"$DLDIR/scheduler\" || { echo \"scheduler binary not found in tarball\" >&2; exit 1; }\ninstall -m 0755 \"$DLDIR/scheduler\" /usr/local/bin/scheduler.tmp\nmv /usr/local/bin/scheduler.tmp /usr/local/bin/scheduler\necho '"@) by {
            reveal_strlit("/scheduler-linux-${ARCH}.tar.gz\"\nDLDIR=$(mktemp -d)\ntrap 'rm -rf \"$DLDIR\"' EXIT\ncurl -fsSL --retry 3 --max-time 120 -o \"$DLDIR/scheduler.tar.gz\" \"$URL\"\ntar -xzf \"$DLDIR/scheduler.tar.gz\" -C \"$DLDIR\"\ntest -f \"$DLDIR/scheduler\" || { echo \"scheduler binary not found in tarball\" >&2; exit 1; }\ninstall -m 0755 \"$DLDIR/scheduler\" /usr/local/bin/scheduler.tmp\nmv /usr/local/bin/scheduler.tmp /usr/local/bin/scheduler\necho '");
            reveal_strlit("/scheduler-linux-${ARCH}.tar.gz\"\nDLDIR=$(mktemp -d)\ntrap 'rm -rf \"$DLDIR\"' EXIT\n");
            reveal_strlit("curl -fsSL --retry 3 --max-time 120 -o \"$DLDIR/scheduler.tar.gz\" \"$URL\"\ntar -xzf \"$DLDIR/scheduler.tar.gz\" -C \"$DLDIR\"\n");
            reveal_strlit("test -f \"$DLDIR/scheduler\" || { echo \"scheduler binary not found in tarball\" >&2; exit 1; }\ninstall -m 0755 \"$DLDIR/scheduler\" /usr/local/bin/scheduler.tmp\nmv /usr/local/bin/scheduler.tmp /usr/local/bin/scheduler\necho '");
        }
        let x = "set -e\nARCH_RAW=$(uname -m)\ncase \"$ARCH_RAW\" in\n  x86_64)  ARCH=amd64 ;;\n  aarch64) ARCH=arm64 ;;\n  *) echo \"unsupported arch: $ARCH_RAW\" >&2; exit 1 ;;\nesac\nURL=\"https://github.com/coollabsio/coold/releases/download/"@ + version + "/scheduler-linux-${ARCH}.tar.gz\"\nDLDIR=$(mktemp -d)\ntrap 'rm -rf \"$DLDIR\"' EXIT\n"@;
        let m = "curl -fsSL --retry 3 --max-time 120 -o \"$DLDIR/scheduler.tar.gz\" \"$URL\"\ntar -xzf \"$DLDIR/scheduler.tar.gz\" -C \"$DLDIR\"\n"@;
        let y = "test -f \"$DLDIR/scheduler\" || { echo \"scheduler binary not found in tarball\" >&2; exit 1; }\ninstall -m 0755 \"$DLDIR/scheduler\" /usr/local/bin/scheduler.tmp\nmv /usr/local/bin/scheduler.tmp /usr/local/bin/scheduler\necho '"@ + version + "' > /usr/local/bin/scheduler.version"@;
        assert(scheduler::install_command_text(version) =~= x + m + y);
        stands_between(x, m, y);
    }
    assert(text::has_text(scheduler::install_command_text(version), "install -m 0755 \"$DLDIR/scheduler\" /usr/local/bin/scheduler.tmp\nmv /usr/local/bin/scheduler.tmp /usr/local/bin/scheduler\n"@)) by {
        assert("/scheduler-linux-${ARCH}.tar.gz\"\nDLDIR=$(mktemp -d)\ntrap 'rm -rf \"$DLDIR\"' EXIT\ncurl -fsSL --retry 3 --max-time 120 -o \"$DLDIR/scheduler.tar.gz\" \"$URL\"\ntar -xzf \"$DLDIR/scheduler.tar.gz\" -C \"$DLDIR\"\ntest -f \"$DLDIR/scheduler\" || { echo \"scheduler binary not found in tarball\" >&2; exit 1; }\ninstall -m 0755 \"$DLDIR/scheduler\" /usr/local/bin/scheduler.tmp\nmv /usr/local/bin/scheduler.tmp /usr/local/bin/scheduler\necho '"@ =~= "/scheduler-linux-${ARCH}.tar.gz\"\nDLDIR=$(mktemp -d)\ntrap 'rm -rf \"$DLDIR\"' EXIT\ncurl -fsSL --retry 3 --max-time 120 -o \"$DLDIR/scheduler.tar.gz\" \"$URL\"\ntar -xzf \"$DLDIR/scheduler.tar.gz\" -C \"$DLDIR\"\ntest -f \"$DLDIR/scheduler\" || { echo \"scheduler binary not found in tarball\" >&2; exit 1; }\n"@ + "install -m 0755 \"$DLDIR/scheduler\" /usr/local/bin/scheduler.tmp\nmv /usr/local/bin/scheduler.tmp /usr/local/bin/scheduler\n"@ + "echo '"@) by {
            reveal_strlit("/scheduler-linux-${ARCH}.tar.gz\"\nDLDIR=$(mktemp -d)\ntrap 'rm -rf \"$DLDIR\"' EXIT\ncurl -fsSL --retry 3 --max-time 120 -o \"$DLDIR/scheduler.tar.gz\" \"$URL\"\ntar -xzf \"$DLDIR/scheduler.tar.gz\" -C \"$DLDIR\"\ntest -f \"$DLDIR/scheduler\" || { echo \"scheduler binary not found in tarball\" >&2; exit 1; }\ninstall -m 0755 \"$DLDIR/scheduler\" /usr/local/bin/scheduler.tmp\nmv /usr/local/bin/scheduler.tmp /usr/local/bin/scheduler\necho '");
            reveal_strlit("/scheduler-linux-${ARCH}.tar.gz\"\nDLDIR=$(mktemp -d)\ntrap 'rm -rf \"$DLDIR\"' EXIT\ncurl -fsSL --retry 3 --max-time 120 -o \"$DLDIR/scheduler.tar.gz\" \"$URL\"\ntar -xzf \"$DLDIR/scheduler.tar.gz\" -C \"$DLDIR\"\ntest -f \"$DLDIR/scheduler\" || { echo \"scheduler binary not found in tarball\" >&2; exit 1; }\n");
            reveal_strlit("install -m 0755 \"$DLDIR/scheduler\" /usr/local/bin/scheduler.tmp\nmv /usr/local/bin/scheduler.tmp /usr/local/bin/scheduler\n");
            reveal_strlit("echo '");
        }
        let x = "set -e\nARCH_RAW=$(uname -m)\ncase \"$ARCH_RAW\" in\n  x86_64)  ARCH=amd64 ;;\n  aarch64) ARCH=arm64 ;;\n  *) echo \"unsupported arch: $ARCH_RAW\" >&2; exit 1 ;;\nesac\nURL=\"https://github.com/coollabsio/coold/releases/download/"@ + version + "/scheduler-linux-${ARCH}.tar.gz\"\nDLDIR=$(mktemp -d)\ntrap 'rm -rf \"$DLDIR\"' EXIT\ncurl -fsSL --retry 3 --max-time 120 -o \"$DLDIR/scheduler.tar.gz\" \"$URL\"\ntar -xzf \"$DLDIR/scheduler.tar.gz\" -C \"$DLDIR\"\ntest -f \"$DLDIR/scheduler\" || { echo \"scheduler binary not found in tarball\" >&2; exit 1; }\n"@;
        let m = "install -m 0755 \"$DLDIR/scheduler\" /usr/local/bin/scheduler.tmp\nmv /usr/local/bin/scheduler.tmp /usr/local/bin/scheduler\n"@;
        let y = "echo '"@ + version + "' > /usr/local/bin/scheduler.version"@;
        assert(scheduler::install_command_text(version) =~= x + m + y);
        stands_between(x, m, y);
    }
    assert(text::has_suffix(scheduler::install_command_text(version), "echo '"@ + version + "' > /usr/local/bin/scheduler.version"@)) by {
        assert("/scheduler-linux-${ARCH}.tar.gz\"\nDLDIR=$(mktemp -d)\ntrap 'rm -rf \"$DLDIR\"' EXIT\ncurl -fsSL --retry 3 --max-time 120 -o \"$DLDIR/scheduler.tar.gz\" \"$URL\"\ntar -xzf \"$DLDIR/scheduler.tar.gz\" -C \"$DLDIR\"\ntest -f \"$DLDIR/scheduler\" || { echo \"scheduler binary not found in tarball\" >&2; exit 1; }\ninstall -m 0755 \"$DLDIR/scheduler\" /usr/local/bin/scheduler.tmp\nmv /usr/local/bin/scheduler.tmp /usr/local/bin/scheduler\necho '"@ =~= "/scheduler-linux-${ARCH}.tar.gz\"\nDLDIR=$(mktemp -d)\ntrap 'rm -rf \"$DLDIR\"' EXIT\ncurl -fsSL --retry 3 --max-time 120 -o \"$DLDIR/scheduler.tar.gz\" \"$URL\"\ntar -xzf \"$DLDIR/scheduler.tar.gz\" -C \"$DLDIR\"\ntest -f \"$DLDIR/scheduler\" || { echo \"scheduler binary not found in tarball\" >&2; exit 1; }\ninstall -m 0755 \"$DLDIR/scheduler\" /usr/local/bin/scheduler.tmp\nmv /usr/local/bin/scheduler.tmp /usr/local/bin/scheduler\n"@ + "echo '"@) by {
            reveal_strlit("/scheduler-linux-${ARCH}.tar.gz\"\nDLDIR=$(mktemp -d)\ntrap 'rm -rf \"$DLDIR\"' EXIT\ncurl -fsSL --retry 3 --max-time 120 -o \"$DLDIR/scheduler.tar.gz\" \"$URL\"\ntar -xzf \"$DLDIR/scheduler.tar.gz\" -C \"$DLDIR\"\ntest -f \"$DLDIR/scheduler\" || { echo \"scheduler binary not found in tarball\" >&2; exit 1; }\ninstall -m 0755 \"$DLDIR/scheduler\" /usr/local/bin/scheduler.tmp\nmv /usr/local/bin/scheduler.tmp /usr/local/bin/scheduler\necho '");
            reveal_strlit("/scheduler-linux-${ARCH}.tar.gz\"\nDLDIR=$(mktemp -d)\ntrap 'rm -rf \"$DLDIR\"' EXIT\ncurl -fsSL --retry 3 --max-time 120 -o \"$DLDIR/scheduler.tar.gz\" \"$URL\"\ntar -xzf \"$DLDIR/scheduler.tar.gz\" -C \"$DLDIR\"\ntest -f \"$DLDIR/scheduler\" || { echo \"scheduler binary not found in tarball\" >&2; exit 1; }\ninstall -m 0755 \"$DLDIR/scheduler\" /usr/local/bin/scheduler.tmp\nmv /usr/local/bin/scheduler.tmp /usr/local/bin/scheduler\n");
            reveal_strlit("echo '");
        }
        let x = "set -e\nARCH_RAW=$(uname -m)\ncase \"$ARCH_RAW\" in\n  x86_64)  ARCH=amd64 ;;\n  aarch64) ARCH=arm64 ;;\n  *) echo \"unsupported arch: $ARCH_RAW\" >&2; exit 1 ;;\nesac\nURL=\"https://github.com/coollabsio/coold/releases/download/"@ + version + "/scheduler-linux-${ARCH}.tar.gz\"\nDLDIR=$(mktemp -d)\ntrap 'rm -rf \"$DLDIR\"' EXIT\ncurl -fsSL --retry 3 --max-time 120 -o \"$DLDIR/scheduler.tar.gz\" \"$URL\"\ntar -xzf \"$DLDIR/scheduler.tar.gz\" -C \"$DLDIR\"\ntest -f \"$DLDIR/scheduler\" || { echo \"scheduler binary not found in tarball\" >&2; exit 1; }\ninstall -m 0755 \"$DLDIR/scheduler\" /usr/local/bin/scheduler.tmp\nmv /usr/local/bin/scheduler.tmp /usr/local/bin/scheduler\n"@;
        let m = "echo '"@ + version + "' > /usr/local/bin/scheduler.version"@;
        let y = Seq::<char>::empty();
        assert(scheduler::install_command_text(version) =~= x + m + y);
        assert(x + m + y =~= x + m);
        stands_last(x, m);
    }
}

/// The gateway is fetched in the version that is asked for, for the machine that it runs on, takes its place
/// in one step, and leaves its version beside it.
pub proof fn flux_is_fetched_in_its_version(version: Seq<char>)
    ensures
        text::has_text(flux::install_command_text(version), "URL=\"https://github.com/coollabsio/coold/releases/download/"@ + version + "/flux-linux-${ARCH}.tar.gz\"\n"@),
        text::has_text(flux::install_command_text(version), "curl -fsSL --retry 3 --max-time 120 -o \"$DLDIR/flux.tar.gz\" \"$URL\"\ntar -xzf \"$DLDIR/flux.tar.gz\" -C \"$DLDIR\"\n"@),
        text::has_text(flux::install_command_text(version), "install -m 0755 \"$DLDIR/flux\" /usr/local/bin/flux.tmp\nmv /usr/local/bin/flux.tmp /usr/local/bin/flux\n"@),
        text::has_suffix(flux::install_command_text(version), "echo '"@ + version + "' > /usr/local/bin/flux.version"@),
{
    assert(text::has_text(flux::install_command_text(version), "URL=\"https://github.com/coollabsio/coold/releases/download/"@ + version + "/flux-linux-${ARCH}.tar.gz\"\n"@)) by {
        assert("set -e\nARCH_RAW=$(uname -m)\ncase \"$ARCH_RAW\" in\n  x86_64)  ARCH=amd64 ;;\n  aarch64) ARCH=arm64 ;;\n  *) echo \"unsupported arch: $ARCH_RAW\" >&2; exit 1 ;;\nesac\nURL=\"https://github.com/coollabsio/coold/releases/download/"@ =~= "set -e\nARCH_RAW=$(uname -m)\ncase \"$ARCH_RAW\" in\n  x86_64)  ARCH=amd64 ;;\n  aarch64) ARCH=arm64 ;;\n  *) echo \"unsupported arch: $ARCH_RAW\" >&2; exit 1 ;;\nesac\n"@ + "URL=\"https://github.com/coollabsio/coold/releases/download/"@) by {
            reveal_strlit("set -e\nARCH_RAW=$(uname -m)\ncase \"$ARCH_RAW\" in\n  x86_64)  ARCH=amd64 ;;\n  aarch64) ARCH=arm64 ;;\n  *) echo \"unsupported arch: $ARCH_RAW\" >&2; exit 1 ;;\nesac\nURL=\"https://github.com/coollabsio/coold/releases/download/");
            reveal_strlit("set -e\nARCH_RAW=$(uname -m)\ncase \"$ARCH_RAW\" in\n  x86_64)  ARCH=amd64 ;;\n  aarch64) ARCH=arm64 ;;\n  *) echo \"unsupported arch: $ARCH_RAW\" >&2; exit 1 ;;\nesac\n");
            reveal_strlit("URL=\"https://github.com/coollabsio/coold/releases/download/");
        }
        assert("/flux-linux-${ARCH}.tar.gz\"\nDLDIR=$(mktemp -d)\ntrap 'rm -rf \"$DLDIR\"' EXIT\ncurl -fsSL --retry 3 --max-time 120 -o \"$DLDIR/flux.tar.gz\" \"$URL\"\ntar -xzf \"$DLDIR/flux.tar.gz\" -C \"$DLDIR\"\ntest -f \"$DLDIR/flux\" || { echo \"flux binary not found in tarball\" >&2; exit 1; }\ninstall -m 0755 \"$DLDIR/flux\" /usr/local/bin/flux.tmp\nmv /usr/local/bin/flux.tmp /usr/local/bin/flux\necho '"@ =~= "/flux-linux-${ARCH}.tar.gz\"\n"@ + "DLDIR=$(mktemp -d)\ntrap 'rm -rf \"$DLDIR\"' EXIT\ncurl -fsSL --retry 3 --max-time 120 -o \"$DLDIR/flux.tar.gz\" \"$URL\"\ntar -xzf \"$DLDIR/flux.tar.gz\" -C \"$DLDIR\"\ntest -f \"$DLDIR/flux\" || { echo \"flux binary not found in tarball\" >&2; exit 1; }\ninstall -m 0755 \"$DLDIR/flux\" /usr/local/bin/flux.tmp\nmv /usr/local/bin/flux.tmp /usr/local/bin/flux\necho '"@) by {
            reveal_strlit("/flux-linux-${ARCH}.tar.gz\"\nDLDIR=$(mktemp -d)\ntrap 'rm -rf \"$DLDIR\"' EXIT\ncurl -fsSL --retry 3 --max-time 120 -o \"$DLDIR/flux.tar.gz\" \"$URL\"\ntar -xzf \"$DLDIR/flux.tar.gz\" -C \"$DLDIR\"\ntest -f \"$DLDIR/flux\" || { echo \"flux binary not found in tarball\" >&2; exit 1; }\ninstall -m 0755 \"$DLDIR/flux\" /usr/local/bin/flux.tmp\nmv /usr/local/bin/flux.tmp /usr/local/bin/flux\necho '");
            reveal_strlit("/flux-linux-${ARCH}.tar.gz\"\n");
            reveal_strlit("DLDIR=$(mktemp -d)\ntrap 'rm -rf \"$DLDIR\"' EXIT\ncurl -fsSL --retry 3 --max-time 120 -o \"$DLDIR/flux.tar.gz\" \"$URL\"\ntar -xzf \"$DLDIR/flux.tar.gz\" -C \"$DLDIR\"\ntest -f \"$DLDIR/flux\" || { echo \"flux binary not found in tarball\" >&2; exit 1; }\ninstall -m 0755 \"$DLDIR/flux\" /usr/local/bin/flux.tmp\nmv /usr/local/bin/flux.tmp /usr/local/bin/flux\necho '");
        }
        let x = "set -e\nARCH_RAW=$(uname -m)\ncase \"$ARCH_RAW\" in\n  x86_64)  ARCH=amd64 ;;\n  aarch64) ARCH=arm64 ;;\n  *) echo \"unsupported arch: $ARCH_RAW\" >&2; exit 1 ;;\nesac\n"@;
        let m = "URL=\"https://github.com/coollabsio/coold/releases/download/"@ + version + "/flux-linux-${ARCH}.tar.gz\"\n"@;
        let y = "DLDIR=$(mktemp -d)\ntrap 'rm -rf \"$DLDIR\"' EXIT\ncurl -fsSL --retry 3 --max-time 120 -o \"$DLDIR/flux.tar.gz\" \"$URL\"\ntar -xzf \"$DLDIR/flux.tar.gz\" -C \"$DLDIR\"\ntest -f \"$DLDIR/flux\" || { echo \"flux binary not found in tarball\" >&2; exit 1; }\ninstall -m 0755 \"$DLDIR/flux\" /usr/local/bin/flux.tmp\nmv /usr/local/bin/flux.tmp /usr/local/bin/flux\necho '"@ + version + "' > /usr/local/bin/flux.version"@;
        assert(flux::install_command_text(version) =~= x + m + y);
        stands_between(x, m, y);
    }
    assert(text::has_text(flux::install_command_text(version), "curl -fsSL --retry 3 --max-time 120 -o \"$DLDIR/flux.tar.gz\" \"$URL\"\ntar -xzf \"$DLDIR/flux.tar.gz\" -C \"$DLDIR\"\n"@)) by {
        assert("/flux-linux-${ARCH}.tar.gz\"\nDLDIR=$(mktemp -d)\ntrap 'rm -rf \"$DLDIR\"' EXIT\ncurl -fsSL --retry 3 --max-time 120 -o \"$DLDIR/flux.tar.gz\" \"$URL\"\ntar -xzf \"$DLDIR/flux.tar.gz\" -C \"$DLDIR\"\ntest -f \"$DLDIR/flux\" || { echo \"flux binary not found in tarball\" >&2; exit 1; }\ninstall -m 0755 \"$DLDIR/flux\" /usr/local/bin/flux.tmp\nmv /usr/local/bin/flux.tmp /usr/local/bin/flux\necho '"@ =~= "/flux-linux-${ARCH}.tar.gz\"\nDLDIR=$(mktemp -d)\ntrap 'rm -rf \"$DLDIR\"' EXIT\n"@ + "curl -fsSL --retry 3 --max-time 120 -o \"$DLDIR/flux.tar.gz\" \"$URL\"\ntar -xzf \"$DLDIR/flux.tar.gz\" -C \"$DLDIR\"\n"@ + "test -f \"$DLDIR/flux\" || { echo \"flux binary not found in tarball\" >&2; exit 1; }\ninstall -m 0755 \"$DLDIR/flux\" /usr/local/bin/flux.tmp\nmv /usr/local/bin/flux.tmp /usr/local/bin/flux\necho '"@) by {
            reveal_strlit("/flux-linux-${ARCH}.tar.gz\"\nDLDIR=$(mktemp -d)\ntrap 'rm -rf \"$DLDIR\"' EXIT\ncurl -fsSL --retry 3 --max-time 120 -o \"$DLDIR/flux.tar.gz\" \"$URL\"\ntar -xzf \"$DLDIR/flux.tar.gz\" -C \"$DLDIR\"\ntest -f \"$DLDIR/flux\" || { echo \"flux binary not found in tarball\" >&2; exit 1; }\ninstall -m 0755 \"$DLDIR/flux\" /usr/local/bin/flux.tmp\nmv /usr/local/bin/flux.tmp /usr/local/bin/flux\necho '");
            reveal_strlit("/flux-linux-${ARCH}.tar.gz\"\nDLDIR=$(mktemp -d)\ntrap 'rm -rf \"$DLDIR\"' EXIT\n");
            reveal_strlit("curl -fsSL --retry 3 --max-time 120 -o \"$DLDIR/flux.tar.gz\" \"$URL\"\ntar -xzf \"$DLDIR/flux.tar.gz\" -C \"$DLDIR\"\n");
            reveal_strlit("test -f \"$DLDIR/flux\" || { echo \"flux binary not found in tarball\" >&2; exit 1; }\ninstall -m 0755 \"$DLDIR/flux\" /usr/local/bin/flux.tmp\nmv /usr/local/bin/flux.tmp /usr/local/bin/flux\necho '");
        }
        let x = "set -e\nARCH_RAW=$(uname -m)\ncase \"$ARCH_RAW\" in\n  x86_64)  ARCH=amd64 ;;\n  aarch64) ARCH=arm64 ;;\n  *) echo \"unsupported arch: $ARCH_RAW\" >&2; exit 1 ;;\nesac\nURL=\"https://github.com/coollabsio/coold/releases/download/"@ + version + "/flux-linux-${ARCH}.tar.gz\"\nDLDIR=$(mktemp -d)\ntrap 'rm -rf \"$DLDIR\"' EXIT\n"@;
        let m = "curl -fsSL --retry 3 --max-time 120 -o \"$DLDIR/flux.tar.gz\" \"$URL\"\ntar -xzf \"$DLDIR/flux.tar.gz\" -C \"$DLDIR\"\n"@;
        let y = "test -f \"$DLDIR/flux\" || { echo \"flux binary not found in tarball\" >&2; exit 1; }\ninstall -m 0755 \"$DLDIR/flux\" /usr/local/bin/flux.tmp\nmv /usr/local/bin/flux.tmp /usr/local/bin/flux\necho '"@ + version + "' > /usr/local/bin/flux.version"@;
        assert(flux::install_command_text(version) =~= x + m + y);
        stands_between(x, m, y);
    }
    assert(text::has_text(flux::install_command_text(version), "install -m 0755 \"$DLDIR/flux\" /usr/local/bin/flux.tmp\nmv /usr/local/bin/flux.tmp /usr/local/bin/flux\n"@)) by {
        assert("/flux-linux-${ARCH}.tar.gz\"\nDLDIR=$(mktemp -d)\ntrap 'rm -rf \"$DLDIR\"' EXIT\ncurl -fsSL --retry 3 --max-time 120 -o \"$DLDIR/flux.tar.gz\" \"$URL\"\ntar -xzf \"$DLDIR/flux.tar.gz\" -C \"$DLDIR\"\ntest -f \"$DLDIR/flux\" || { echo \"flux binary not found in tarball\" >&2; exit 1; }\ninstall -m 0755 \"$DLDIR/flux\" /usr/local/bin/flux.tmp\nmv /usr/local/bin/flux.tmp /usr/local/bin/flux\necho '"@ =~= "/flux-linux-${ARCH}.tar.gz\"\nDLDIR=$(mktemp -d)\ntrap 'rm -rf \"$DLDIR\"' EXIT\ncurl -fsSL --retry 3 --max-time 120 -o \"$DLDIR/flux.tar.gz\" \"$URL\"\ntar -xzf \"$DLDIR/flux.tar.gz\" -C \"$DLDIR\"\ntest -f \"$DLDIR/flux\" || { echo \"flux binary not found in tarball\" >&2; exit 1; }\n"@ + "install -m 0755 \"$DLDIR/flux\" /usr/local/bin/flux.tmp\nmv /usr/local/bin/flux.tmp /usr/local/bin/flux\n"@ + "echo '"@) by {
            reveal_strlit("/flux-linux-${ARCH}.tar.gz\"\nDLDIR=$(mktemp -d)\ntrap 'rm -rf \"$DLDIR\"' EXIT\ncurl -fsSL --retry 3 --max-time 120 -o \"$DLDIR/flux.tar.gz\" \"$URL\"\ntar -xzf \"$DLDIR/flux.tar.gz\" -C \"$DLDIR\"\ntest -f \"$DLDIR/flux\" || { echo \"flux binary not found in tarball\" >&2; exit 1; }\ninstall -m 0755 \"$DLDIR/flux\" /usr/local/bin/flux.tmp\nmv /usr/local/bin/flux.tmp /usr/local/bin/flux\necho '");
            reveal_strlit("/flux-linux-${ARCH}.tar.gz\"\nDLDIR=$(mktemp -d)\ntrap 'rm -rf \"$DLDIR\"' EXIT\ncurl -fsSL --retry 3 --max-time 120 -o \"$DLDIR/flux.tar.gz\" \"$URL\"\ntar -xzf \"$DLDIR/flux.tar.gz\" -C \"$DLDIR\"\ntest -f \"$DLDIR/flux\" || { echo \"flux binary not found in tarball\" >&2; exit 1; }\n");
            reveal_strlit("install -m 0755 \"$DLDIR/flux\" /usr/local/bin/flux.tmp\nmv /usr/local/bin/flux.tmp /usr/local/bin/flux\n");
            reveal_strlit("echo '");
        }
        let x = "set -e\nARCH_RAW=$(uname -m)\ncase \"$ARCH_RAW\" in\n  x86_64)  ARCH=amd64 ;;\n  aarch64) ARCH=arm64 ;;\n  *) echo \"unsupported arch: $ARCH_RAW\" >&2; exit 1 ;;\nesac\nURL=\"https://github.com/coollabsio/coold/releases/download/"@ + version + "/flux-linux-${ARCH}.tar.gz\"\nDLDIR=$(mktemp -d)\ntrap 'rm -rf \"$DLDIR\"' EXIT\ncurl -fsSL --retry 3 --max-time 120 -o \"$DLDIR/flux.tar.gz\" \"$URL\"\ntar -xzf \"$DLDIR/flux.tar.gz\" -C \"$DLDIR\"\ntest -f \"$DLDIR/flux\" || { echo \"flux binary not found in tarball\" >&2; exit 1; }\n"@;
        let m = "install -m 0755 \"$DLDIR/flux\" /usr/local/bin/flux.tmp\nmv /usr/local/bin/flux.tmp /usr/local/bin/flux\n"@;
        let y = "echo '"@ + version + "' > /usr/local/bin/flux.version"@;
        assert(flux::install_command_text(version) =~= x + m + y);
        stands_between(x, m, y);
    }
    assert(text::has_suffix(flux::install_command_text(version), "echo '"@ + version + "' > /usr/local/bin/flux.version"@)) by {
        assert("/flux-linux-${ARCH}.tar.gz\"\nDLDIR=$(mktemp -d)\ntrap 'rm -rf \"$DLDIR\"' EXIT\ncurl -fsSL --retry 3 --max-time 120 -o \"$DLDIR/flux.tar.gz\" \"$URL\"\ntar -xzf \"$DLDIR/flux.tar.gz\" -C \"$DLDIR\"\ntest -f \"$DLDIR/flux\" || { echo \"flux binary not found in tarball\" >&2; exit 1; }\ninstall -m 0755 \"$DLDIR/flux\" /usr/local/bin/flux.tmp\nmv /usr/local/bin/flux.tmp /usr/local/bin/flux\necho '"@ =~= "/flux-linux-${ARCH}.tar.gz\"\nDLDIR=$(mktemp -d)\ntrap 'rm -rf \"$DLDIR\"' EXIT\ncurl -fsSL --retry 3 --max-time 120 -o \"$DLDIR/flux.tar.gz\" \"$URL\"\ntar -xzf \"$DLDIR/flux.tar.gz\" -C \"$DLDIR\"\ntest -f \"$DLDIR/flux\" || { echo \"flux binary not found in tarball\" >&2; exit 1; }\ninstall -m 0755 \"$DLDIR/flux\" /usr/local/bin/flux.tmp\nmv /usr/local/bin/flux.tmp /usr/local/bin/flux\n"@ + "echo '"@) by {
            reveal_strlit("/flux-linux-${ARCH}.tar.gz\"\nDLDIR=$(mktemp -d)\ntrap 'rm -rf \"$DLDIR\"' EXIT\ncurl -fsSL --retry 3 --max-time 120 -o \"$DLDIR/flux.tar.gz\" \"$URL\"\ntar -xzf \"$DLDIR/flux.tar.gz\" -C \"$DLDIR\"\ntest -f \"$DLDIR/flux\" || { echo \"flux binary not found in tarball\" >&2; exit 1; }\ninstall -m 0755 \"$DLDIR/flux\" /usr/local/bin/flux.tmp\nmv /usr/local/bin/flux.tmp /usr/local/bin/flux\necho '");
            reveal_strlit("/flux-linux-${ARCH}.tar.gz\"\nDLDIR=$(mktemp -d)\ntrap 'rm -rf \"$DLDIR\"' EXIT\ncurl -fsSL --retry 3 --max-time 120 -o \"$DLDIR/flux.tar.gz\" \"$URL\"\ntar -xzf \"$DLDIR/flux.tar.gz\" -C \"$DLDIR\"\ntest -f \"$DLDIR/flux\" || { echo \"flux binary not found in tarball\" >&2; exit 1; }\ninstall -m 0755 \"$DLDIR/flux\" /usr/local/bin/flux.tmp\nmv /usr/local/bin/flux.tmp /usr/local/bin/flux\n");
            reveal_strlit("echo '");
        }
        let x = "set -e\nARCH_RAW=$(uname -m)\ncase \"$ARCH_RAW\" in\n  x86_64)  ARCH=amd64 ;;\n  aarch64) ARCH=arm64 ;;\n  *) echo \"unsupported arch: $ARCH_RAW\" >&2; exit 1 ;;\nesac\nURL=\"https://github.com/coollabsio/coold/releases/download/"@ + version + "/flux-linux-${ARCH}.tar.gz\"\nDLDIR=$(mktemp -d)\ntrap 'rm -rf \"$DLDIR\"' EXIT\ncurl -fsSL --retry 3 --max-time 120 -o \"$DLDIR/flux.tar.gz\" \"$URL\"\ntar -xzf \"$DLDIR/flux.tar.gz\" -C \"$DLDIR\"\ntest -f \"$DLDIR/flux\" || { echo \"flux binary not found in tarball\" >&2; exit 1; }\ninstall -m 0755 \"$DLDIR/flux\" /usr/local/bin/flux.tmp\nmv /usr/local/bin/flux.tmp /usr/local/bin/flux\n"@;
        let m = "echo '"@ + version + "' > /usr/local/bin/flux.version"@;
        let y = Seq::<char>::empty();
        assert(flux::install_command_text(version) =~= x + m + y);
        assert(x + m + y =~= x + m);
        stands_last(x, m);
    }
}

/// The builder is fetched in the version that is asked for, for the machine that it runs on, takes its place
/// in one step, and leaves its version beside it.
pub proof fn builders_are_fetched_in_their_version(version: Seq<char>)
    ensures
        text::has_text(builder::install_command_text(version), "URL=\"https://github.com/coollabsio/coold/releases/download/"@ + version + "/builder-linux-${ARCH}.tar.gz\"\n"@),
        text::has_text(builder::install_command_text(version), "curl -fsSL --retry 3 --max-time 120 -o \"$DLDIR/builder.tar.gz\" \"$URL\"\ntar -xzf \"$DLDIR/builder.tar.gz\" -C \"$DLDIR\"\n"@),
        text::has_text(builder::install_command_text(version), "install -m 0755 \"$DLDIR/builder\" /usr/local/bin/builder.tmp\nmv /usr/local/bin/builder.tmp /usr/local/bin/builder\n"@),
        text::has_suffix(builder::install_command_text(version), "echo '"@ + version + "' > /usr/local/bin/builder.version"@),
{
    assert(text::has_text(builder::install_command_text(version), "URL=\"https://github.com/coollabsio/coold/releases/download/"@ + version + "/builder-linux-${ARCH}.tar.gz\"\n"@)) by {
        assert("set -e\nDEBIAN_FRONTEND=noninteractive apt-get update -qq 2>/dev/null\nDEBIAN_FRONTEND=noninteractive apt-get install -y -o Dpkg::Options::=\"--force-confold\" buildah git ca-certificates 2>&1 >/dev/null\nmkdir -p /var/lib/coolify-builder/work\nARCH_RAW=$(uname -m)\ncase \"$ARCH_RAW\" in\n  x86_64)  ARCH=amd64 ;;\n  aarch64) ARCH=arm64 ;;\n  *) echo \"unsupported arch: $ARCH_RAW\" >&2; exit 1 ;;\nesac\nURL=\"https://github.com/coollabsio/coold/releases/download/"@ =~= "set -e\nDEBIAN_FRONTEND=noninteractive apt-get update -qq 2>/dev/null\nDEBIAN_FRONTEND=noninteractive apt-get install -y -o Dpkg::Options::=\"--force-confold\" buildah git ca-certificates 2>&1 >/dev/null\nmkdir -p /var/lib/coolify-builder/work\nARCH_RAW=$(uname -m)\ncase \"$ARCH_RAW\" in\n  x86_64)  ARCH=amd64 ;;\n  aarch64) ARCH=arm64 ;;\n  *) echo \"unsupported arch: $ARCH_RAW\" >&2; exit 1 ;;\nesac\n"@ + "URL=\"https://github.com/coollabsio/coold/releases/download/"@) by {
            reveal_strlit("set -e\nDEBIAN_FRONTEND=noninteractive apt-get update -qq 2>/dev/null\nDEBIAN_FRONTEND=noninteractive apt-get install -y -o Dpkg::Options::=\"--force-confold\" buildah git ca-certificates 2>&1 >/dev/null\nmkdir -p /var/lib/coolify-builder/work\nARCH_RAW=$(uname -m)\ncase \"$ARCH_RAW\" in\n  x86_64)  ARCH=amd64 ;;\n  aarch64) ARCH=arm64 ;;\n  *) echo \"unsupported arch: $ARCH_RAW\" >&2; exit 1 ;;\nesac\nURL=\"https://github.com/coollabsio/coold/releases/download/");
            reveal_strlit("set -e\nDEBIAN_FRONTEND=noninteractive apt-get update -qq 2>/dev/null\nDEBIAN_FRONTEND=noninteractive apt-get install -y -o Dpkg::Options::=\"--force-confold\" buildah git ca-certificates 2>&1 >/dev/null\nmkdir -p /var/lib/coolify-builder/work\nARCH_RAW=$(uname -m)\ncase \"$ARCH_RAW\" in\n  x86_64)  ARCH=amd64 ;;\n  aarch64) ARCH=arm64 ;;\n  *) echo \"unsupported arch: $ARCH_RAW\" >&2; exit 1 ;;\nesac\n");
            reveal_strlit("URL=\"https://github.com/coollabsio/coold/releases/download/");
        }
        assert("/builder-linux-${ARCH}.tar.gz\"\nDLDIR=$(mktemp -d)\ntrap 'rm -rf \"$DLDIR\"' EXIT\ncurl -fsSL --retry 3 --max-time 120 -o \"$DLDIR/builder.tar.gz\" \"$URL\"\ntar -xzf \"$DLDIR/builder.tar.gz\" -C \"$DLDIR\"\ntest -f \"$DLDIR/builder\" || { echo \"builder binary not found in tarball\" >&2; exit 1; }\ninstall -m 0755 \"$DLDIR/builder\" /usr/local/bin/builder.tmp\nmv /usr/local/bin/builder.tmp /usr/local/bin/builder\necho '"@ =~= "/builder-linux-${ARCH}.tar.gz\"\n"@ + "DLDIR=$(mktemp -d)\ntrap 'rm -rf \"$DLDIR\"' EXIT\ncurl -fsSL --retry 3 --max-time 120 -o \"$DLDIR/builder.tar.gz\" \"$URL\"\ntar -xzf \"$DLDIR/builder.tar.gz\" -C \"$DLDIR\"\ntest -f \"$DLDIR/builder\" || { echo \"builder binary not found in tarball\" >&2; exit 1; }\ninstall -m 0755 \"$DLDIR/builder\" /usr/local/bin/builder.tmp\nmv /usr/local/bin/builder.tmp /usr/local/bin/builder\necho '"@) by {
            reveal_strlit("/builder-linux-${ARCH}.tar.gz\"\nDLDIR=$(mktemp -d)\ntrap 'rm -rf \"$DLDIR\"' EXIT\ncurl -fsSL --retry 3 --max-time 120 -o \"$DLDIR/builder.tar.gz\" \"$URL\"\ntar -xzf \"$DLDIR/builder.tar.gz\" -C \"$DLDIR\"\ntest -f \"$DLDIR/builder\" || { echo \"builder binary not found in tarball\" >&2; exit 1; }\ninstall -m 0755 \"$DLDIR/builder\" /usr/local/bin/builder.tmp\nmv /usr/local/bin/builder.tmp /usr/local/bin/builder\necho '");
            reveal_strlit("/builder-linux-${ARCH}.tar.gz\"\n");
            reveal_strlit("DLDIR=$(mktemp -d)\ntrap 'rm -rf \"$DLDIR\"' EXIT\ncurl -fsSL --retry 3 --max-time 120 -o \"$DLDIR/builder.tar.gz\" \"$URL\"\ntar -xzf \"$DLDIR/builder.tar.gz\" -C \"$DLDIR\"\ntest -f \"$DLDIR/builder\" || { echo \"builder binary not found in tarball\" >&2; exit 1; }\ninstall -m 0755 \"$DLDIR/builder\" /usr/local/bin/builder.tmp\nmv /usr/local/bin/builder.tmp /usr/local/bin/builder\necho '");
        }
        let x = "set -e\nDEBIAN_FRONTEND=noninteractive apt-get update -qq 2>/dev/null\nDEBIAN_FRONTEND=noninteractive apt-get install -y -o Dpkg::Options::=\"--force-confold\" buildah git ca-certificates 2>&1 >/dev/null\nmkdir -p /var/lib/coolify-builder/work\nARCH_RAW=$(uname -m)\ncase \"$ARCH_RAW\" in\n  x86_64)  ARCH=amd64 ;;\n  aarch64) ARCH=arm64 ;;\n  *) echo \"unsupported arch: $ARCH_RAW\" >&2; exit 1 ;;\nesac\n"@;
        let m = "URL=\"https://github.com/coollabsio/coold/releases/download/"@ + version + "/builder-linux-${ARCH}.tar.gz\"\n"@;
        let y = "DLDIR=$(mktemp -d)\ntrap 'rm -rf \"$DLDIR\"' EXIT\ncurl -fsSL --retry 3 --max-time 120 -o \"$DLDIR/builder.tar.gz\" \"$URL\"\ntar -xzf \"$DLDIR/builder.tar.gz\" -C \"$DLDIR\"\ntest -f \"$DLDIR/builder\" || { echo \"builder binary not found in tarball\" >&2; exit 1; }\ninstall -m 0755 \"$DLDIR/builder\" /usr/local/bin/builder.tmp\nmv /usr/local/bin/builder.tmp /usr/local/bin/builder\necho '"@ + version + "' > /usr/local/bin/builder.version"@;
        assert(builder::install_command_text(version) =~= x + m + y);
        stands_between(x, m, y);
    }
    assert(text::has_text(builder::install_command_text(version), "curl -fsSL --retry 3 --max-time 120 -o \"$DLDIR/builder.tar.gz\" \"$URL\"\ntar -xzf \"$DLDIR/builder.tar.gz\" -C \"$DLDIR\"\n"@)) by {
        assert("/builder-linux-${ARCH}.tar.gz\"\nDLDIR=$(mktemp -d)\ntrap 'rm -rf \"$DLDIR\"' EXIT\ncurl -fsSL --retry 3 --max-time 120 -o \"$DLDIR/builder.tar.gz\" \"$URL\"\ntar -xzf \"$DLDIR/builder.tar.gz\" -C \"$DLDIR\"\ntest -f \"$DLDIR/builder\" || { echo \"builder binary not found in tarball\" >&2; exit 1; }\ninstall -m 0755 \"$DLDIR/builder\" /usr/local/bin/builder.tmp\nmv /usr/local/bin/builder.tmp /usr/local/bin/builder\necho '"@ =~= "/builder-linux-${ARCH}.tar.gz\"\nDLDIR=$(mktemp -d)\ntrap 'rm -rf \"$DLDIR\"' EXIT\n"@ + "curl -fsSL --retry 3 --max-time 120 -o \"$DLDIR/builder.tar.gz\" \"$URL\"\ntar -xzf \"$DLDIR/builder.tar.gz\" -C \"$DLDIR\"\n"@ + "test -f \"$DLDIR/builder\" || { echo \"builder binary not found in tarball\" >&2; exit 1; }\ninstall -m 0755 \"$DLDIR/builder\" /usr/local/bin/builder.tmp\nmv /usr/local/bin/builder.tmp /usr/local/bin/builder\necho '"@) by {
            reveal_strlit("/builder-linux-${ARCH}.tar.gz\"\nDLDIR=$(mktemp -d)\ntrap 'rm -rf \"$DLDIR\"' EXIT\ncurl -fsSL --retry 3 --max-time 120 -o \"$DLDIR/builder.tar.gz\" \"$URL\"\ntar -xzf \"$DLDIR/builder.tar.gz\" -C \"$DLDIR\"\ntest -f \"$DLDIR/builder\" || { echo \"builder binary not found in tarball\" >&2; exit 1; }\ninstall -m 0755 \"$DLDIR/builder\" /usr/local/bin/builder.tmp\nmv /usr/local/bin/builder.tmp /usr/local/bin/builder\necho '");
            reveal_strlit("/builder-linux-${ARCH}.tar.gz\"\nDLDIR=$(mktemp -d)\ntrap 'rm -rf \"$DLDIR\"' EXIT\n");
            reveal_strlit("curl -fsSL --retry 3 --max-time 120 -o \"$DLDIR/builder.tar.gz\" \"$URL\"\ntar -xzf \"$DLDIR/builder.tar.gz\" -C \"$DLDIR\"\n");
            reveal_strlit("test -f \"$DLDIR/builder\" || { echo \"builder binary not found in tarball\" >&2; exit 1; }\ninstall -m 0755 \"$DLDIR/builder\" /usr/local/bin/builder.tmp\nmv /usr/local/bin/builder.tmp /usr/local/bin/builder\necho '");
        }
        let x = "set -e\nDEBIAN_FRONTEND=noninteractive apt-get update -qq 2>/dev/null\nDEBIAN_FRONTEND=noninteractive apt-get install -y -o Dpkg::Options::=\"--force-confold\" buildah git ca-certificates 2>&1 >/dev/null\nmkdir -p /var/lib/coolify-builder/work\nARCH_RAW=$(uname -m)\ncase \"$ARCH_RAW\" in\n  x86_64)  ARCH=amd64 ;;\n  aarch64) ARCH=arm64 ;;\n  *) echo \"unsupported arch: $ARCH_RAW\" >&2; exit 1 ;;\nesac\nURL=\"https://github.com/coollabsio/coold/releases/download/"@ + version + "/builder-linux-${ARCH}.tar.gz\"\nDLDIR=$(mktemp -d)\ntrap 'rm -rf \"$DLDIR\"' EXIT\n"@;
        let m = "curl -fsSL --retry 3 --max-time 120 -o \"$DLDIR/builder.tar.gz\" \"$URL\"\ntar -xzf \"$DLDIR/builder.tar.gz\" -C \"$DLDIR\"\n"@;
        let y = "test -f \"$DLDIR/builder\" || { echo \"builder binary not found in tarball\" >&2; exit 1; }\ninstall -m 0755 \"$DLDIR/builder\" /usr/local/bin/builder.tmp\nmv /usr/local/bin/builder.tmp /usr/local/bin/builder\necho '"@ + version + "' > /usr/local/bin/builder.version"@;
        assert(builder::install_command_text(version) =~= x + m + y);
        stands_between(x, m, y);
    }
    assert(text::has_text(builder::install_command_text(version), "install -m 0755 \"$DLDIR/builder\" /usr/local/bin/builder.tmp\nmv /usr/local/bin/builder.tmp /usr/local/bin/builder\n"@)) by {
        assert("/builder-linux-${ARCH}.tar.gz\"\nDLDIR=$(mktemp -d)\ntrap 'rm -rf \"$DLDIR\"' EXIT\ncurl -fsSL --retry 3 --max-time 120 -o \"$DLDIR/builder.tar.gz\" \"$URL\"\ntar -xzf \"$DLDIR/builder.tar.gz\" -C \"$DLDIR\"\ntest -f \"$DLDIR/builder\" || { echo \"builder binary not found in tarball\" >&2; exit 1; }\ninstall -m 0755 \"$DLDIR/builder\" /usr/local/bin/builder.tmp\nmv /usr/local/bin/builder.tmp /usr/local/bin/builder\necho '"@ =~= "/builder-linux-${ARCH}.tar.gz\"\nDLDIR=$(mktemp -d)\ntrap 'rm -rf \"$DLDIR\"' EXIT\ncurl -fsSL --retry 3 --max-time 120 -o \"$DLDIR/builder.tar.gz\" \"$URL\"\ntar -xzf \"$DLDIR/builder.tar.gz\" -C \"$DLDIR\"\ntest -f \"$DLDIR/builder\" || { echo \"builder binary not found in tarball\" >&2; exit 1; }\n"@ + "install -m 0755 \"$DLDIR/builder\" /usr/local/bin/builder.tmp\nmv /usr/local/bin/builder.tmp /usr/local/bin/builder\n"@ + "echo '"@) by {
            reveal_strlit("/builder-linux-${ARCH}.tar.gz\"\nDLDIR=$(mktemp -d)\ntrap 'rm -rf \"$DLDIR\"' EXIT\ncurl -fsSL --retry 3 --max-time 120 -o \"$DLDIR/builder.tar.gz\" \"$URL\"\ntar -xzf \"$DLDIR/builder.tar.gz\" -C \"$DLDIR\"\ntest -f \"$DLDIR/builder\" || { echo \"builder binary not found in tarball\" >&2; exit 1; }\ninstall -m 0755 \"$DLDIR/builder\" /usr/local/bin/builder.tmp\nmv /usr/local/bin/builder.tmp /usr/local/bin/builder\necho '");
            reveal_strlit("/builder-linux-${ARCH}.tar.gz\"\nDLDIR=$(mktemp -d)\ntrap 'rm -rf \"$DLDIR\"' EXIT\ncurl -fsSL --retry 3 --max-time 120 -o \"$DLDIR/builder.tar.gz\" \"$URL\"\ntar -xzf \"$DLDIR/builder.tar.gz\" -C \"$DLDIR\"\ntest -f \"$DLDIR/builder\" || { echo \"builder binary not found in tarball\" >&2; exit 1; }\n");
            reveal_strlit("install -m 0755 \"$DLDIR/builder\" /usr/local/bin/builder.tmp\nmv /usr/local/bin/builder.tmp /usr/local/bin/builder\n");
            reveal_strlit("echo '");
        }
        let x = "set -e\nDEBIAN_FRONTEND=noninteractive apt-get update -qq 2>/dev/null\nDEBIAN_FRONTEND=noninteractive apt-get install -y -o Dpkg::Options::=\"--force-confold\" buildah git ca-certificates 2>&1 >/dev/null\nmkdir -p /var/lib/coolify-builder/work\nARCH_RAW=$(uname -m)\ncase \"$ARCH_RAW\" in\n  x86_64)  ARCH=amd64 ;;\n  aarch64) ARCH=arm64 ;;\n  *) echo \"unsupported arch: $ARCH_RAW\" >&2; exit 1 ;;\nesac\nURL=\"https://github.com/coollabsio/coold/releases/download/"@ + version + "/builder-linux-${ARCH}.tar.gz\"\nDLDIR=$(mktemp -d)\ntrap 'rm -rf \"$DLDIR\"' EXIT\ncurl -fsSL --retry 3 --max-time 120 -o \"$DLDIR/builder.tar.gz\" \"$URL\"\ntar -xzf \"$DLDIR/builder.tar.gz\" -C \"$DLDIR\"\ntest -f \"$DLDIR/builder\" || { echo \"builder binary not found in tarball\" >&2; exit 1; }\n"@;
        let m = "install -m 0755 \"$DLDIR/builder\" /usr/local/bin/builder.tmp\nmv /usr/local/bin/builder.tmp /usr/local/bin/builder\n"@;
        let y = "echo '"@ + version + "' > /usr/local/bin/builder.version"@;
        assert(builder::install_command_text(version) =~= x + m + y);
        stands_between(x, m, y);
    }
    assert(text::has_suffix(builder::install_command_text(version), "echo '"@ + version + "' > /usr/local/bin/builder.version"@)) by {
        assert("/builder-linux-${ARCH}.tar.gz\"\nDLDIR=$(mktemp -d)\ntrap 'rm -rf \"$DLDIR\"' EXIT\ncurl -fsSL --retry 3 --max-time 120 -o \"$DLDIR/builder.tar.gz\" \"$URL\"\ntar -xzf \"$DLDIR/builder.tar.gz\" -C \"$DLDIR\"\ntest -f \"$DLDIR/builder\" || { echo \"builder binary not found in tarball\" >&2; exit 1; }\ninstall -m 0755 \"$DLDIR/builder\" /usr/local/bin/builder.tmp\nmv /usr/local/bin/builder.tmp /usr/local/bin/builder\necho '"@ =~= "/builder-linux-${ARCH}.tar.gz\"\nDLDIR=$(mktemp -d)\ntrap 'rm -rf \"$DLDIR\"' EXIT\ncurl -fsSL --retry 3 --max-time 120 -o \"$DLDIR/builder.tar.gz\" \"$URL\"\ntar -xzf \"$DLDIR/builder.tar.gz\" -C \"$DLDIR\"\ntest -f \"$DLDIR/builder\" || { echo \"builder binary not found in tarball\" >&2; exit 1; }\ninstall -m 0755 \"$DLDIR/builder\" /usr/local/bin/builder.tmp\nmv /usr/local/bin/builder.tmp /usr/local/bin/builder\n"@ + "echo '"@) by {
            reveal_strlit("/builder-linux-${ARCH}.tar.gz\"\nDLDIR=$(mktemp -d)\ntrap 'rm -rf \"$DLDIR\"' EXIT\ncurl -fsSL --retry 3 --max-time 120 -o \"$DLDIR/builder.tar.gz\" \"$URL\"\ntar -xzf \"$DLDIR/builder.tar.gz\" -C \"$DLDIR\"\ntest -f \"$DLDIR/builder\" || { echo \"builder binary not found in tarball\" >&2; exit 1; }\ninstall -m 0755 \"$DLDIR/builder\" /usr/local/bin/builder.tmp\nmv /usr/local/bin/builder.tmp /usr/local/bin/builder\necho '");
            reveal_strlit("/builder-linux-${ARCH}.tar.gz\"\nDLDIR=$(mktemp -d)\ntrap 'rm -rf \"$DLDIR\"' EXIT\ncurl -fsSL --retry 3 --max-time 120 -o \"$DLDIR/builder.tar.gz\" \"$URL\"\ntar -xzf \"$DLDIR/builder.tar.gz\" -C \"$DLDIR\"\ntest -f \"$DLDIR/builder\" || { echo \"builder binary not found in tarball\" >&2; exit 1; }\ninstall -m 0755 \"$DLDIR/builder\" /usr/local/bin/builder.tmp\nmv /usr/local/bin/builder.tmp /usr/local/bin/builder\n");
            reveal_strlit("echo '");
        }
        let x = "set -e\nDEBIAN_FRONTEND=noninteractive apt-get update -qq 2>/dev/null\nDEBIAN_FRONTEND=noninteractive apt-get install -y -o Dpkg::Options::=\"--force-confold\" buildah git ca-certificates 2>&1 >/dev/null\nmkdir -p /var/lib/coolify-builder/work\nARCH_RAW=$(uname -m)\ncase \"$ARCH_RAW\" in\n  x86_64)  ARCH=amd64 ;;\n  aarch64) ARCH=arm64 ;;\n  *) echo \"unsupported arch: $ARCH_RAW\" >&2; exit 1 ;;\nesac\nURL=\"https://github.com/coollabsio/coold/releases/download/"@ + version + "/builder-linux-${ARCH}.tar.gz\"\nDLDIR=$(mktemp -d)\ntrap 'rm -rf \"$DLDIR\"' EXIT\ncurl -fsSL --retry 3 --max-time 120 -o \"$DLDIR/builder.tar.gz\" \"$URL\"\ntar -xzf \"$DLDIR/builder.tar.gz\" -C \"$DLDIR\"\ntest -f \"$DLDIR/builder\" || { echo \"builder binary not found in tarball\" >&2; exit 1; }\ninstall -m 0755 \"$DLDIR/builder\" /usr/local/bin/builder.tmp\nmv /usr/local/bin/builder.tmp /usr/local/bin/builder\n"@;
        let m = "echo '"@ + version + "' > /usr/local/bin/builder.version"@;
        let y = Seq::<char>::empty();
        assert(builder::install_command_text(version) =~= x + m + y);
        assert(x + m + y =~= x + m);
        stands_last(x, m);
    }
}

/// The control plane is fetched from its address, takes its place in one step, and leaves its version
/// beside it.
pub proof fn the_control_plane_is_fetched_in_its_version(version: Seq<char>, url: Seq<char>)
    ensures
        text::has_text(coolify::install_script_text(version, url), "URL=\""@ + url + "\"\n"@),
        text::has_text(coolify::install_script_text(version, url), "curl -fsSL --retry 3 --max-time 120 -o \"$DLDIR/coolify.tar.gz\" \"$URL\"\ntar -xzf \"$DLDIR/coolify.tar.gz\" -C \"$DLDIR\"\n"@),
        text::has_text(coolify::install_script_text(version, url), "install -m 0755 \"$DLDIR/coolify\" /usr/local/bin/coolify.tmp\nmv /usr/local/bin/coolify.tmp /usr/local/bin/coolify\n"@),
        text::has_suffix(coolify::install_script_text(version, url), "echo '"@ + version + "' > /usr/local/bin/coolify.version"@),
{
    assert(text::has_text(coolify::install_script_text(version, url), "URL=\""@ + url + "\"\n"@)) by {
        assert("set -e\nARCH_RAW=$(uname -m)\ncase \"$ARCH_RAW\" in\n  x86_64)  ARCH=amd64 ;;\n  aarch64) ARCH=arm64 ;;\n  *) echo \"unsupported arch: $ARCH_RAW\" >&2; exit 1 ;;\nesac\nURL=\""@ =~= "set -e\nARCH_RAW=$(uname -m)\ncase \"$ARCH_RAW\" in\n  x86_64)  ARCH=amd64 ;;\n  aarch64) ARCH=arm64 ;;\n  *) echo \"unsupported arch: $ARCH_RAW\" >&2; exit 1 ;;\nesac\n"@ + "URL=\""@) by {
            reveal_strlit("set -e\nARCH_RAW=$(uname -m)\ncase \"$ARCH_RAW\" in\n  x86_64)  ARCH=amd64 ;;\n  aarch64) ARCH=arm64 ;;\n  *) echo \"unsupported arch: $ARCH_RAW\" >&2; exit 1 ;;\nesac\nURL=\"");
            reveal_strlit("set -e\nARCH_RAW=$(uname -m)\ncase \"$ARCH_RAW\" in\n  x86_64)  ARCH=amd64 ;;\n  aarch64) ARCH=arm64 ;;\n  *) echo \"unsupported arch: $ARCH_RAW\" >&2; exit 1 ;;\nesac\n");
            reveal_strlit("URL=\"");
        }
        assert("\"\nDLDIR=$(mktemp -d)\ntrap 'rm -rf \"$DLDIR\"' EXIT\ncurl -fsSL --retry 3 --max-time 120 -o \"$DLDIR/coolify.tar.gz\" \"$URL\"\ntar -xzf \"$DLDIR/coolify.tar.gz\" -C \"$DLDIR\"\ntest -f \"$DLDIR/coolify\" || { echo \"coolify binary not found in tarball\" >&2; exit 1; }\ninstall -m 0755 \"$DLDIR/coolify\" /usr/local/bin/coolify.tmp\nmv /usr/local/bin/coolify.tmp /usr/local/bin/coolify\necho '"@ =~= "\"\n"@ + "DLDIR=$(mktemp -d)\ntrap 'rm -rf \"$DLDIR\"' EXIT\ncurl -fsSL --retry 3 --max-time 120 -o \"$DLDIR/coolify.tar.gz\" \"$URL\"\ntar -xzf \"$DLDIR/coolify.tar.gz\" -C \"$DLDIR\"\ntest -f \"$DLDIR/coolify\" || { echo \"coolify binary not found in tarball\" >&2; exit 1; }\ninstall -m 0755 \"$DLDIR/coolify\" /usr/local/bin/coolify.tmp\nmv /usr/local/bin/coolify.tmp /usr/local/bin/coolify\necho '"@) by {
            reveal_strlit("\"\nDLDIR=$(mktemp -d)\ntrap 'rm -rf \"$DLDIR\"' EXIT\ncurl -fsSL --retry 3 --max-time 120 -o \"$DLDIR/coolify.tar.gz\" \"$URL\"\ntar -xzf \"$DLDIR/coolify.tar.gz\" -C \"$DLDIR\"\ntest -f \"$DLDIR/coolify\" || { echo \"coolify binary not found in tarball\" >&2; exit 1; }\ninstall -m 0755 \"$DLDIR/coolify\" /usr/local/bin/coolify.tmp\nmv /usr/local/bin/coolify.tmp /usr/local/bin/coolify\necho '");
            reveal_strlit("\"\n");
            reveal_strlit("DLDIR=$(mktemp -d)\ntrap 'rm -rf \"$DLDIR\"' EXIT\ncurl -fsSL --retry 3 --max-time 120 -o \"$DLDIR/coolify.tar.gz\" \"$URL\"\ntar -xzf \"$DLDIR/coolify.tar.gz\" -C \"$DLDIR\"\ntest -f \"$DLDIR/coolify\" || { echo \"coolify binary not found in tarball\" >&2; exit 1; }\ninstall -m 0755 \"$DLDIR/coolify\" /usr/local/bin/coolify.tmp\nmv /usr/local/bin/coolify.tmp /usr/local/bin/coolify\necho '");
        }
        let x = "set -e\nARCH_RAW=$(uname -m)\ncase \"$ARCH_RAW\" in\n  x86_64)  ARCH=amd64 ;;\n  aarch64) ARCH=arm64 ;;\n  *) echo \"unsupported arch: $ARCH_RAW\" >&2; exit 1 ;;\nesac\n"@;
        let m = "URL=\""@ + url + "\"\n"@;
        let y = "DLDIR=$(mktemp -d)\ntrap 'rm -rf \"$DLDIR\"' EXIT\ncurl -fsSL --retry 3 --max-time 120 -o \"$DLDIR/coolify.tar.gz\" \"$URL\"\ntar -xzf \"$DLDIR/coolify.tar.gz\" -C \"$DLDIR\"\ntest -f \"$DLDIR/coolify\" || { echo \"coolify binary not found in tarball\" >&2; exit 1; }\ninstall -m 0755 \"$DLDIR/coolify\" /usr/local/bin/coolify.tmp\nmv /usr/local/bin/coolify.tmp /usr/local/bin/coolify\necho '"@ + version + "' > /usr/local/bin/coolify.version"@;
        assert(coolify::install_script_text(version, url) =~= x + m + y);
        stands_between(x, m, y);
    }
    assert(text::has_text(coolify::install_script_text(version, url), "curl -fsSL --retry 3 --max-time 120 -o \"$DLDIR/coolify.tar.gz\" \"$URL\"\ntar -xzf \"$DLDIR/coolify.tar.gz\" -C \"$DLDIR\"\n"@)) by {
        assert("\"\nDLDIR=$(mktemp -d)\ntrap 'rm -rf \"$DLDIR\"' EXIT\ncurl -fsSL --retry 3 --max-time 120 -o \"$DLDIR/coolify.tar.gz\" \"$URL\"\ntar -xzf \"$DLDIR/coolify.tar.gz\" -C \"$DLDIR\"\ntest -f \"$DLDIR/coolify\" || { echo \"coolify binary not found in tarball\" >&2; exit 1; }\ninstall -m 0755 \"$DLDIR/coolify\" /usr/local/bin/coolify.tmp\nmv /usr/local/bin/coolify.tmp /usr/local/bin/coolify\necho '"@ =~= "\"\nDLDIR=$(mktemp -d)\ntrap 'rm -rf \"$DLDIR\"' EXIT\n"@ + "curl -fsSL --retry 3 --max-time 120 -o \"$DLDIR/coolify.tar.gz\" \"$URL\"\ntar -xzf \"$DLDIR/coolify.tar.gz\" -C \"$DLDIR\"\n"@ + "test -f \"$DLDIR/coolify\" || { echo \"coolify binary not found in tarball\" >&2; exit 1; }\ninstall -m 0755 \"$DLDIR/coolify\" /usr/local/bin/coolify.tmp\nmv /usr/local/bin/coolify.tmp /usr/local/bin/coolify\necho '"@) by {
            reveal_strlit("\"\nDLDIR=$(mktemp -d)\ntrap 'rm -rf \"$DLDIR\"' EXIT\ncurl -fsSL --retry 3 --max-time 120 -o \"$DLDIR/coolify.tar.gz\" \"$URL\"\ntar -xzf \"$DLDIR/coolify.tar.gz\" -C \"$DLDIR\"\ntest -f \"$DLDIR/coolify\" || { echo \"coolify binary not found in tarball\" >&2; exit 1; }\ninstall -m 0755 \"$DLDIR/coolify\" /usr/local/bin/coolify.tmp\nmv /usr/local/bin/coolify.tmp /usr/local/bin/coolify\necho '");
            reveal_strlit("\"\nDLDIR=$(mktemp -d)\ntrap 'rm -rf \"$DLDIR\"' EXIT\n");
            reveal_strlit("curl -fsSL --retry 3 --max-time 120 -o \"$DLDIR/coolify.tar.gz\" \"$URL\"\ntar -xzf \"$DLDIR/coolify.tar.gz\" -C \"$DLDIR\"\n");
            reveal_strlit("test -f \"$DLDIR/coolify\" || { echo \"coolify binary not found in tarball\" >&2; exit 1; }\ninstall -m 0755 \"$DLDIR/coolify\" /usr/local/bin/coolify.tmp\nmv /usr/local/bin/coolify.tmp /usr/local/bin/coolify\necho '");
        }
        let x = "set -e\nARCH_RAW=$(uname -m)\ncase \"$ARCH_RAW\" in\n  x86_64)  ARCH=amd64 ;;\n  aarch64) ARCH=arm64 ;;\n  *) echo \"unsupported arch: $ARCH_RAW\" >&2; exit 1 ;;\nesac\nURL=\""@ + url + "\"\nDLDIR=$(mktemp -d)\ntrap 'rm -rf \"$DLDIR\"' EXIT\n"@;
        let m = "curl -fsSL --retry 3 --max-time 120 -o \"$DLDIR/coolify.tar.gz\" \"$URL\"\ntar -xzf \"$DLDIR/coolify.tar.gz\" -C \"$DLDIR\"\n"@;
        let y = "test -f \"$DLDIR/coolify\" || { echo \"coolify binary not found in tarball\" >&2; exit 1; }\ninstall -m 0755 \"$DLDIR/coolify\" /usr/local/bin/coolify.tmp\nmv /usr/local/bin/coolify.tmp /usr/local/bin/coolify\necho '"@ + version + "' > /usr/local/bin/coolify.version"@;
        assert(coolify::install_script_text(version, url) =~= x + m + y);
        stands_between(x, m, y);
    }
    assert(text::has_text(coolify::install_script_text(version, url), "install -m 0755 \"$DLDIR/coolify\" /usr/local/bin/coolify.tmp\nmv /usr/local/bin/coolify.tmp /usr/local/bin/coolify\n"@)) by {
        assert("\"\nDLDIR=$(mktemp -d)\ntrap 'rm -rf \"$DLDIR\"' EXIT\ncurl -fsSL --retry 3 --max-time 120 -o \"$DLDIR/coolify.tar.gz\" \"$URL\"\ntar -xzf \"$DLDIR/coolify.tar.gz\" -C \"$DLDIR\"\ntest -f \"$DLDIR/coolify\" || { echo \"coolify binary not found in tarball\" >&2; exit 1; }\ninstall -m 0755 \"$DLDIR/coolify\" /usr/local/bin/coolify.tmp\nmv /usr/local/bin/coolify.tmp /usr/local/bin/coolify\necho '"@ =~= "\"\nDLDIR=$(mktemp -d)\ntrap 'rm -rf \"$DLDIR\"' EXIT\ncurl -fsSL --retry 3 --max-time 120 -o \"$DLDIR/coolify.tar.gz\" \"$URL\"\ntar -xzf \"$DLDIR/coolify.tar.gz\" -C \"$DLDIR\"\ntest -f \"$DLDIR/coolify\" || { echo \"coolify binary not found in tarball\" >&2; exit 1; }\n"@ + "install -m 0755 \"$DLDIR/coolify\" /usr/local/bin/coolify.tmp\nmv /usr/local/bin/coolify.tmp /usr/local/bin/coolify\n"@ + "echo '"@) by {
            reveal_strlit("\"\nDLDIR=$(mktemp -d)\ntrap 'rm -rf \"$DLDIR\"' EXIT\ncurl -fsSL --retry 3 --max-time 120 -o \"$DLDIR/coolify.tar.gz\" \"$URL\"\ntar -xzf \"$DLDIR/coolify.tar.gz\" -C \"$DLDIR\"\ntest -f \"$DLDIR/coolify\" || { echo \"coolify binary not found in tarball\" >&2; exit 1; }\ninstall -m 0755 \"$DLDIR/coolify\" /usr/local/bin/coolify.tmp\nmv /usr/local/bin/coolify.tmp /usr/local/bin/coolify\necho '");
            reveal_strlit("\"\nDLDIR=$(mktemp -d)\ntrap 'rm -rf \"$DLDIR\"' EXIT\ncurl -fsSL --retry 3 --max-time 120 -o \"$DLDIR/coolify.tar.gz\" \"$URL\"\ntar -xzf \"$DLDIR/coolify.tar.gz\" -C \"$DLDIR\"\ntest -f \"$DLDIR/coolify\" || { echo \"coolify binary not found in tarball\" >&2; exit 1; }\n");
            reveal_strlit("install -m 0755 \"$DLDIR/coolify\" /usr/local/bin/coolify.tmp\nmv /usr/local/bin/coolify.tmp /usr/local/bin/coolify\n");
            reveal_strlit("echo '");
        }
        let x = "set -e\nARCH_RAW=$(uname -m)\ncase \"$ARCH_RAW\" in\n  x86_64)  ARCH=amd64 ;;\n  aarch64) ARCH=arm64 ;;\n  *) echo \"unsupported arch: $ARCH_RAW\" >&2; exit 1 ;;\nesac\nURL=\""@ + url + "\"\nDLDIR=$(mktemp -d)\ntrap 'rm -rf \"$DLDIR\"' EXIT\ncurl -fsSL --retry 3 --max-time 120 -o \"$DLDIR/coolify.tar.gz\" \"$URL\"\ntar -xzf \"$DLDIR/coolify.tar.gz\" -C \"$DLDIR\"\ntest -f \"$DLDIR/coolify\" || { echo \"coolify binary not found in tarball\" >&2; exit 1; }\n"@;
        let m = "install -m 0755 \"$DLDIR/coolify\" /usr/local/bin/coolify.tmp\nmv /usr/local/bin/coolify.tmp /usr/local/bin/coolify\n"@;
        let y = "echo '"@ + version + "' > /usr/local/bin/coolify.version"@;
        assert(coolify::install_script_text(version, url) =~= x + m + y);
        stands_between(x, m, y);
    }
    assert(text::has_suffix(coolify::install_script_text(version, url), "echo '"@ + version + "' > /usr/local/bin/coolify.version"@)) by {
        assert("\"\nDLDIR=$(mktemp -d)\ntrap 'rm -rf \"$DLDIR\"' EXIT\ncurl -fsSL --retry 3 --max-time 120 -o \"$DLDIR/coolify.tar.gz\" \"$URL\"\ntar -xzf \"$DLDIR/coolify.tar.gz\" -C \"$DLDIR\"\ntest -f \"$DLDIR/coolify\" || { echo \"coolify binary not found in tarball\" >&2; exit 1; }\ninstall -m 0755 \"$DLDIR/coolify\" /usr/local/bin/coolify.tmp\nmv /usr/local/bin/coolify.tmp /usr/local/bin/coolify\necho '"@ =~= "\"\nDLDIR=$(mktemp -d)\ntrap 'rm -rf \"$DLDIR\"' EXIT\ncurl -fsSL --retry 3 --max-time 120 -o \"$DLDIR/coolify.tar.gz\" \"$URL\"\ntar -xzf \"$DLDIR/coolify.tar.gz\" -C \"$DLDIR\"\ntest -f \"$DLDIR/coolify\" || { echo \"coolify binary not found in tarball\" >&2; exit 1; }\ninstall -m 0755 \"$DLDIR/coolify\" /usr/local/bin/coolify.tmp\nmv /usr/local/bin/coolify.tmp /usr/local/bin/coolify\n"@ + "echo '"@) by {
            reveal_strlit("\"\nDLDIR=$(mktemp -d)\ntrap 'rm -rf \"$DLDIR\"' EXIT\ncurl -fsSL --retry 3 --max-time 120 -o \"$DLDIR/coolify.tar.gz\" \"$URL\"\ntar -xzf \"$DLDIR/coolify.tar.gz\" -C \"$DLDIR\"\ntest -f \"$DLDIR/coolify\" || { echo \"coolify binary not found in tarball\" >&2; exit 1; }\ninstall -m 0755 \"$DLDIR/coolify\" /usr/local/bin/coolify.tmp\nmv /usr/local/bin/coolify.tmp /usr/local/bin/coolify\necho '");
            reveal_strlit("\"\nDLDIR=$(mktemp -d)\ntrap 'rm -rf \"$DLDIR\"' EXIT\ncurl -fsSL --retry 3 --max-time 120 -o \"$DLDIR/coolify.tar.gz\" \"$URL\"\ntar -xzf \"$DLDIR/coolify.tar.gz\" -C \"$DLDIR\"\ntest -f \"$DLDIR/coolify\" || { echo \"coolify binary not found in tarball\" >&2; exit 1; }\ninstall -m 0755 \"$DLDIR/coolify\" /usr/local/bin/coolify.tmp\nmv /usr/local/bin/coolify.tmp /usr/local/bin/coolify\n");
            reveal_strlit("echo '");
        }
        let x = "set -e\nARCH_RAW=$(uname -m)\ncase \"$ARCH_RAW\" in\n  x86_64)  ARCH=amd64 ;;\n  aarch64) ARCH=arm64 ;;\n  *) echo \"unsupported arch: $ARCH_RAW\" >&2; exit 1 ;;\nesac\nURL=\""@ + url + "\"\nDLDIR=$(mktemp -d)\ntrap 'rm -rf \"$DLDIR\"' EXIT\ncurl -fsSL --retry 3 --max-time 120 -o \"$DLDIR/coolify.tar.gz\" \"$URL\"\ntar -xzf \"$DLDIR/coolify.tar.gz\" -C \"$DLDIR\"\ntest -f \"$DLDIR/coolify\" || { echo \"coolify binary not found in tarball\" >&2; exit 1; }\ninstall -m 0755 \"$DLDIR/coolify\" /usr/local/bin/coolify.tmp\nmv /usr/local/bin/coolify.tmp /usr/local/bin/coolify\n"@;
        let m = "echo '"@ + version + "' > /usr/local/bin/coolify.version"@;
        let y = Seq::<char>::empty();
        assert(coolify::install_script_text(version, url) =~= x + m + y);
        assert(x + m + y =~= x + m);
        stands_last(x, m);
    }
}

/// The latest control plane comes from the latest release, and any other version from its own.
pub proof fn the_latest_control_plane_is_the_latest_release(version: Seq<char>)
    ensures
        version == "latest"@ ==> coolify::url_of(version)
            == "https://github.com/coollabsio/coold/releases/latest/download/coolify-linux-${ARCH}.tar.gz"@,
        version != "latest"@ ==> coolify::url_of(version)
            == "https://github.com/coollabsio/coold/releases/download/"@ + version
            + "/coolify-linux-${ARCH}.tar.gz"@,
{
}

/// A token for the interface of the agent is made only where there is none, is readable by its owner alone
/// before it takes its place, and is random.
pub proof fn tokens_are_made_once()
    ensures
        text::has_suffix(coold::ensure_api_token_command_text(), "if [ ! -s /etc/coolify/api-token ]; then openssl rand -hex 32 > /etc/coolify/api-token.tmp && chmod 0600 /etc/coolify/api-token.tmp && mv /etc/coolify/api-token.tmp /etc/coolify/api-token; fi"@),
{
    assert(text::has_suffix(coold::ensure_api_token_command_text(), "if [ ! -s /etc/coolify/api-token ]; then openssl rand -hex 32 > /etc/coolify/api-token.tmp && chmod 0600 /etc/coolify/api-token.tmp && mv /etc/coolify/api-token.tmp /etc/coolify/api-token; fi"@)) by {
        assert("mkdir -p /etc/coolify && if [ ! -s /etc/coolify/api-token ]; then openssl rand -hex 32 > /etc/coolify/api-token.tmp && chmod 0600 /etc/coolify/api-token.tmp && mv /etc/coolify/api-token.tmp /etc/coolify/api-token; fi"@ =~= "mkdir -p /etc/coolify && "@ + "if [ ! -s /etc/coolify/api-token ]; then openssl rand -hex 32 > /etc/coolify/api-token.tmp && chmod 0600 /etc/coolify/api-token.tmp && mv /etc/coolify/api-token.tmp /etc/coolify/api-token; fi"@) by {
            reveal_strlit("mkdir -p /etc/coolify && if [ ! -s /etc/coolify/api-token ]; then openssl rand -hex 32 > /etc/coolify/api-token.tmp && chmod 0600 /etc/coolify/api-token.tmp && mv /etc/coolify/api-token.tmp /etc/coolify/api-token; fi");
            reveal_strlit("mkdir -p /etc/coolify && ");
            reveal_strlit("if [ ! -s /etc/coolify/api-token ]; then openssl rand -hex 32 > /etc/coolify/api-token.tmp && chmod 0600 /etc/coolify/api-token.tmp && mv /etc/coolify/api-token.tmp /etc/coolify/api-token; fi");
        }
        let x = "mkdir -p /etc/coolify && "@;
        let m = "if [ ! -s /etc/coolify/api-token ]; then openssl rand -hex 32 > /etc/coolify/api-token.tmp && chmod 0600 /etc/coolify/api-token.tmp && mv /etc/coolify/api-token.tmp /etc/coolify/api-token; fi"@;
        let y = Seq::<char>::empty();
        assert(coold::ensure_api_token_command_text() =~= x + m + y);
        assert(x + m + y =~= x + m);
        stands_last(x, m);
    }
}

/// The keys that tokens are signed with are made only where there are none. The private one is readable by
/// its owner alone before it takes its place, and the public one is that of the private one.
pub proof fn signing_keys_are_made_once()
    ensures
        text::has_text(scheduler::ensure_jwt_keypair_command_text(), "if [ ! -f /etc/coolify/jwt.priv ]; then "@),
        text::has_text(scheduler::ensure_jwt_keypair_command_text(), "-algorithm EC -pkeyopt ec_paramgen_curve:P-256 -out /etc/coolify/jwt.priv.tmp"@),
        text::has_suffix(scheduler::ensure_jwt_keypair_command_text(), "chmod 0600 /etc/coolify/jwt.priv.tmp && mv /etc/coolify/jwt.priv.tmp /etc/coolify/jwt.priv && openssl pkey -in /etc/coolify/jwt.priv -pubout -out /etc/coolify/jwt.pub 2>&1 && chmod 0644 /etc/coolify/jwt.pub; fi"@),
        text::has_text(flux::ensure_jwt_keypair_command_text(), "if [ ! -f /etc/coolify/jwt.priv ]; then "@),
        text::has_text(flux::ensure_jwt_keypair_command_text(), "-algorithm EC -pkeyopt ec_paramgen_curve:P-256 -out /etc/coolify/jwt.priv.tmp"@),
        text::has_suffix(flux::ensure_jwt_keypair_command_text(), "chmod 0600 /etc/coolify/jwt.priv.tmp && mv /etc/coolify/jwt.priv.tmp /etc/coolify/jwt.priv && openssl pkey -in /etc/coolify/jwt.priv -pubout -out /etc/coolify/jwt.pub 2>&1 && chmod 0644 /etc/coolify/jwt.pub; fi"@),
{
    assert(text::has_text(scheduler::ensure_jwt_keypair_command_text(), "if [ ! -f /etc/coolify/jwt.priv ]; then "@)) by {
        assert("mkdir -p /etc/coolify && if [ ! -f /etc/coolify/jwt.priv ]; then openssl genpkey -algorithm EC -pkeyopt ec_paramgen_curve:P-256 -out /etc/coolify/jwt.priv.tmp 2>&1 && chmod 0600 /etc/coolify/jwt.priv.tmp && mv /etc/coolify/jwt.priv.tmp /etc/coolify/jwt.priv && openssl pkey -in /etc/coolify/jwt.priv -pubout -out /etc/coolify/jwt.pub 2>&1 && chmod 0644 /etc/coolify/jwt.pub; fi"@ =~= "mkdir -p /etc/coolify && "@ + "if [ ! -f /etc/coolify/jwt.priv ]; then "@ + "openssl genpkey -algorithm EC -pkeyopt ec_paramgen_curve:P-256 -out /etc/coolify/jwt.priv.tmp 2>&1 && chmod 0600 /etc/coolify/jwt.priv.tmp && mv /etc/coolify/jwt.priv.tmp /etc/coolify/jwt.priv && openssl pkey -in /etc/coolify/jwt.priv -pubout -out /etc/coolify/jwt.pub 2>&1 && chmod 0644 /etc/coolify/jwt.pub; fi"@) by {
            reveal_strlit("mkdir -p /etc/coolify && if [ ! -f /etc/coolify/jwt.priv ]; then openssl genpkey -algorithm EC -pkeyopt ec_paramgen_curve:P-256 -out /etc/coolify/jwt.priv.tmp 2>&1 && chmod 0600 /etc/coolify/jwt.priv.tmp && mv /etc/coolify/jwt.priv.tmp /etc/coolify/jwt.priv && openssl pkey -in /etc/coolify/jwt.priv -pubout -out /etc/coolify/jwt.pub 2>&1 && chmod 0644 /etc/coolify/jwt.pub; fi");
            reveal_strlit("mkdir -p /etc/coolify && ");
            reveal_strlit("if [ ! -f /etc/coolify/jwt.priv ]; then ");
            reveal_strlit("openssl genpkey -algorithm EC -pkeyopt ec_paramgen_curve:P-256 -out /etc/coolify/jwt.priv.tmp 2>&1 && chmod 0600 /etc/coolify/jwt.priv.tmp && mv /etc/coolify/jwt.priv.tmp /etc/coolify/jwt.priv && openssl pkey -in /etc/coolify/jwt.priv -pubout -out /etc/coolify/jwt.pub 2>&1 && chmod 0644 /etc/coolify/jwt.pub; fi");
        }
        let x = "mkdir -p /etc/coolify && "@;
        let m = "if [ ! -f /etc/coolify/jwt.priv ]; then "@;
        let y = "openssl genpkey -algorithm EC -pkeyopt ec_paramgen_curve:P-256 -out /etc/coolify/jwt.priv.tmp 2>&1 && chmod 0600 /etc/coolify/jwt.priv.tmp && mv /etc/coolify/jwt.priv.tmp /etc/coolify/jwt.priv && openssl pkey -in /etc/coolify/jwt.priv -pubout -out /etc/coolify/jwt.pub 2>&1 && chmod 0644 /etc/coolify/jwt.pub; fi"@;
        assert(scheduler::ensure_jwt_keypair_command_text() =~= x + m + y);
        stands_between(x, m, y);
    }
    assert(text::has_text(scheduler::ensure_jwt_keypair_command_text(), "-algorithm EC -pkeyopt ec_paramgen_curve:P-256 -out /etc/coolify/jwt.priv.tmp"@)) by {
        assert("mkdir -p /etc/coolify && if [ ! -f /etc/coolify/jwt.priv ]; then openssl genpkey -algorithm EC -pkeyopt ec_paramgen_curve:P-256 -out /etc/coolify/jwt.priv.tmp 2>&1 && chmod 0600 /etc/coolify/jwt.priv.tmp && mv /etc/coolify/jwt.priv.tmp /etc/coolify/jwt.priv && openssl pkey -in /etc/coolify/jwt.priv -pubout -out /etc/coolify/jwt.pub 2>&1 && chmod 0644 /etc/coolify/jwt.pub; fi"@ =~= "mkdir -p /etc/coolify && if [ ! -f /etc/coolify/jwt.priv ]; then openssl genpkey "@ + "-algorithm EC -pkeyopt ec_paramgen_curve:P-256 -out /etc/coolify/jwt.priv.tmp"@ + " 2>&1 && chmod 0600 /etc/coolify/jwt.priv.tmp && mv /etc/coolify/jwt.priv.tmp /etc/coolify/jwt.priv && openssl pkey -in /etc/coolify/jwt.priv -pubout -out /etc/coolify/jwt.pub 2>&1 && chmod 0644 /etc/coolify/jwt.pub; fi"@) by {
            reveal_strlit("mkdir -p /etc/coolify && if [ ! -f /etc/coolify/jwt.priv ]; then openssl genpkey -algorithm EC -pkeyopt ec_paramgen_curve:P-256 -out /etc/coolify/jwt.priv.tmp 2>&1 && chmod 0600 /etc/coolify/jwt.priv.tmp && mv /etc/coolify/jwt.priv.tmp /etc/coolify/jwt.priv && openssl pkey -in /etc/coolify/jwt.priv -pubout -out /etc/coolify/jwt.pub 2>&1 && chmod 0644 /etc/coolify/jwt.pub; fi");
            reveal_strlit("mkdir -p /etc/coolify && if [ ! -f /etc/coolify/jwt.priv ]; then openssl genpkey ");
            reveal_strlit("-algorithm EC -pkeyopt ec_paramgen_curve:P-256 -out /etc/coolify/jwt.priv.tmp");
            reveal_strlit(" 2>&1 && chmod 0600 /etc/coolify/jwt.priv.tmp && mv /etc/coolify/jwt.priv.tmp /etc/coolify/jwt.priv && openssl pkey -in /etc/coolify/jwt.priv -pubout -out /etc/coolify/jwt.pub 2>&1 && chmod 0644 /etc/coolify/jwt.pub; fi");
        }
        let x = "mkdir -p /etc/coolify && if [ ! -f /etc/coolify/jwt.priv ]; then openssl genpkey "@;
        let m = "-algorithm EC -pkeyopt ec_paramgen_curve:P-256 -out /etc/coolify/jwt.priv.tmp"@;
        let y = " 2>&1 && chmod 0600 /etc/coolify/jwt.priv.tmp && mv /etc/coolify/jwt.priv.tmp /etc/coolify/jwt.priv && openssl pkey -in /etc/coolify/jwt.priv -pubout -out /etc/coolify/jwt.pub 2>&1 && chmod 0644 /etc/coolify/jwt.pub; fi"@;
        assert(scheduler::ensure_jwt_keypair_command_text() =~= x + m + y);
        stands_between(x, m, y);
    }
    assert(text::has_suffix(scheduler::ensure_jwt_keypair_command_text(), "chmod 0600 /etc/coolify/jwt.priv.tmp && mv /etc/coolify/jwt.priv.tmp /etc/coolify/jwt.priv && openssl pkey -in /etc/coolify/jwt.priv -pubout -out /etc/coolify/jwt.pub 2>&1 && chmod 0644 /etc/coolify/jwt.pub; fi"@)) by {
        assert("mkdir -p /etc/coolify && if [ ! -f /etc/coolify/jwt.priv ]; then openssl genpkey -algorithm EC -pkeyopt ec_paramgen_curve:P-256 -out /etc/coolify/jwt.priv.tmp 2>&1 && chmod 0600 /etc/coolify/jwt.priv.tmp && mv /etc/coolify/jwt.priv.tmp /etc/coolify/jwt.priv && openssl pkey -in /etc/coolify/jwt.priv -pubout -out /etc/coolify/jwt.pub 2>&1 && chmod 0644 /etc/coolify/jwt.pub; fi"@ =~= "mkdir -p /etc/coolify && if [ ! -f /etc/coolify/jwt.priv ]; then openssl genpkey -algorithm EC -pkeyopt ec_paramgen_curve:P-256 -out /etc/coolify/jwt.priv.tmp 2>&1 && "@ + "chmod 0600 /etc/coolify/jwt.priv.tmp && mv /etc/coolify/jwt.priv.tmp /etc/coolify/jwt.priv && openssl pkey -in /etc/coolify/jwt.priv -pubout -out /etc/coolify/jwt.pub 2>&1 && chmod 0644 /etc/coolify/jwt.pub; fi"@) by {
            reveal_strlit("mkdir -p /etc/coolify && if [ ! -f /etc/coolify/jwt.priv ]; then openssl genpkey -algorithm EC -pkeyopt ec_paramgen_curve:P-256 -out /etc/coolify/jwt.priv.tmp 2>&1 && chmod 0600 /etc/coolify/jwt.priv.tmp && mv /etc/coolify/jwt.priv.tmp /etc/coolify/jwt.priv && openssl pkey -in /etc/coolify/jwt.priv -pubout -out /etc/coolify/jwt.pub 2>&1 && chmod 0644 /etc/coolify/jwt.pub; fi");
            reveal_strlit("mkdir -p /etc/coolify && if [ ! -f /etc/coolify/jwt.priv ]; then openssl genpkey -algorithm EC -pkeyopt ec_paramgen_curve:P-256 -out /etc/coolify/jwt.priv.tmp 2>&1 && ");
            reveal_strlit("chmod 0600 /etc/coolify/jwt.priv.tmp && mv /etc/coolify/jwt.priv.tmp /etc/coolify/jwt.priv && openssl pkey -in /etc/coolify/jwt.priv -pubout -out /etc/coolify/jwt.pub 2>&1 && chmod 0644 /etc/coolify/jwt.pub; fi");
        }
        let x = "mkdir -p /etc/coolify && if [ ! -f /etc/coolify/jwt.priv ]; then openssl genpkey -algorithm EC -pkeyopt ec_paramgen_curve:P-256 -out /etc/coolify/jwt.priv.tmp 2>&1 && "@;
        let m = "chmod 0600 /etc/coolify/jwt.priv.tmp && mv /etc/coolify/jwt.priv.tmp /etc/coolify/jwt.priv && openssl pkey -in /etc/coolify/jwt.priv -pubout -out /etc/coolify/jwt.pub 2>&1 && chmod 0644 /etc/coolify/jwt.pub; fi"@;
        let y = Seq::<char>::empty();
        assert(scheduler::ensure_jwt_keypair_command_text() =~= x + m + y);
        assert(x + m + y =~= x + m);
        stands_last(x, m);
    }
    assert(text::has_text(flux::ensure_jwt_keypair_command_text(), "if [ ! -f /etc/coolify/jwt.priv ]; then "@)) by {
        assert("mkdir -p /etc/coolify && if [ ! -f /etc/coolify/jwt.priv ]; then openssl genpkey -algorithm EC -pkeyopt ec_paramgen_curve:P-256 -out /etc/coolify/jwt.priv.tmp 2>&1 && chmod 0600 /etc/coolify/jwt.priv.tmp && mv /etc/coolify/jwt.priv.tmp /etc/coolify/jwt.priv && openssl pkey -in /etc/coolify/jwt.priv -pubout -out /etc/coolify/jwt.pub 2>&1 && chmod 0644 /etc/coolify/jwt.pub; fi"@ =~= "mkdir -p /etc/coolify && "@ + "if [ ! -f /etc/coolify/jwt.priv ]; then "@ + "openssl genpkey -algorithm EC -pkeyopt ec_paramgen_curve:P-256 -out /etc/coolify/jwt.priv.tmp 2>&1 && chmod 0600 /etc/coolify/jwt.priv.tmp && mv /etc/coolify/jwt.priv.tmp /etc/coolify/jwt.priv && openssl pkey -in /etc/coolify/jwt.priv -pubout -out /etc/coolify/jwt.pub 2>&1 && chmod 0644 /etc/coolify/jwt.pub; fi"@) by {
            reveal_strlit("mkdir -p /etc/coolify && if [ ! -f /etc/coolify/jwt.priv ]; then openssl genpkey -algorithm EC -pkeyopt ec_paramgen_curve:P-256 -out /etc/coolify/jwt.priv.tmp 2>&1 && chmod 0600 /etc/coolify/jwt.priv.tmp && mv /etc/coolify/jwt.priv.tmp /etc/coolify/jwt.priv && openssl pkey -in /etc/coolify/jwt.priv -pubout -out /etc/coolify/jwt.pub 2>&1 && chmod 0644 /etc/coolify/jwt.pub; fi");
            reveal_strlit("mkdir -p /etc/coolify && ");
            reveal_strlit("if [ ! -f /etc/coolify/jwt.priv ]; then ");
            reveal_strlit("openssl genpkey -algorithm EC -pkeyopt ec_paramgen_curve:P-256 -out /etc/coolify/jwt.priv.tmp 2>&1 && chmod 0600 /etc/coolify/jwt.priv.tmp && mv /etc/coolify/jwt.priv.tmp /etc/coolify/jwt.priv && openssl pkey -in /etc/coolify/jwt.priv -pubout -out /etc/coolify/jwt.pub 2>&1 && chmod 0644 /etc/coolify/jwt.pub; fi");
        }
        let x = "mkdir -p /etc/coolify && "@;
        let m = "if [ ! -f /etc/coolify/jwt.priv ]; then "@;
        let y = "openssl genpkey -algorithm EC -pkeyopt ec_paramgen_curve:P-256 -out /etc/coolify/jwt.priv.tmp 2>&1 && chmod 0600 /etc/coolify/jwt.priv.tmp && mv /etc/coolify/jwt.priv.tmp /etc/coolify/jwt.priv && openssl pkey -in /etc/coolify/jwt.priv -pubout -out /etc/coolify/jwt.pub 2>&1 && chmod 0644 /etc/coolify/jwt.pub; fi"@;
        assert(flux::ensure_jwt_keypair_command_text() =~= x + m + y);
        stands_between(x, m, y);
    }
    assert(text::has_text(flux::ensure_jwt_keypair_command_text(), "-algorithm EC -pkeyopt ec_paramgen_curve:P-256 -out /etc/coolify/jwt.priv.tmp"@)) by {
        assert("mkdir -p /etc/coolify && if [ ! -f /etc/coolify/jwt.priv ]; then openssl genpkey -algorithm EC -pkeyopt ec_paramgen_curve:P-256 -out /etc/coolify/jwt.priv.tmp 2>&1 && chmod 0600 /etc/coolify/jwt.priv.tmp && mv /etc/coolify/jwt.priv.tmp /etc/coolify/jwt.priv && openssl pkey -in /etc/coolify/jwt.priv -pubout -out /etc/coolify/jwt.pub 2>&1 && chmod 0644 /etc/coolify/jwt.pub; fi"@ =~= "mkdir -p /etc/coolify && if [ ! -f /etc/coolify/jwt.priv ]; then openssl genpkey "@ + "-algorithm EC -pkeyopt ec_paramgen_curve:P-256 -out /etc/coolify/jwt.priv.tmp"@ + " 2>&1 && chmod 0600 /etc/coolify/jwt.priv.tmp && mv /etc/coolify/jwt.priv.tmp /etc/coolify/jwt.priv && openssl pkey -in /etc/coolify/jwt.priv -pubout -out /etc/coolify/jwt.pub 2>&1 && chmod 0644 /etc/coolify/jwt.pub; fi"@) by {
            reveal_strlit("mkdir -p /etc/coolify && if [ ! -f /etc/coolify/jwt.priv ]; then openssl genpkey -algorithm EC -pkeyopt ec_paramgen_curve:P-256 -out /etc/coolify/jwt.priv.tmp 2>&1 && chmod 0600 /etc/coolify/jwt.priv.tmp && mv /etc/coolify/jwt.priv.tmp /etc/coolify/jwt.priv && openssl pkey -in /etc/coolify/jwt.priv -pubout -out /etc/coolify/jwt.pub 2>&1 && chmod 0644 /etc/coolify/jwt.pub; fi");
            reveal_strlit("mkdir -p /etc/coolify && if [ ! -f /etc/coolify/jwt.priv ]; then openssl genpkey ");
            reveal_strlit("-algorithm EC -pkeyopt ec_paramgen_curve:P-256 -out /etc/coolify/jwt.priv.tmp");
            reveal_strlit(" 2>&1 && chmod 0600 /etc/coolify/jwt.priv.tmp && mv /etc/coolify/jwt.priv.tmp /etc/coolify/jwt.priv && openssl pkey -in /etc/coolify/jwt.priv -pubout -out /etc/coolify/jwt.pub 2>&1 && chmod 0644 /etc/coolify/jwt.pub; fi");
        }
        let x = "mkdir -p /etc/coolify && if [ ! -f /etc/coolify/jwt.priv ]; then openssl genpkey "@;
        let m = "-algorithm EC -pkeyopt ec_paramgen_curve:P-256 -out /etc/coolify/jwt.priv.tmp"@;
        let y = " 2>&1 && chmod 0600 /etc/coolify/jwt.priv.tmp && mv /etc/coolify/jwt.priv.tmp /etc/coolify/jwt.priv && openssl pkey -in /etc/coolify/jwt.priv -pubout -out /etc/coolify/jwt.pub 2>&1 && chmod 0644 /etc/coolify/jwt.pub; fi"@;
        assert(flux::ensure_jwt_keypair_command_text() =~= x + m + y);
        stands_between(x, m, y);
    }
    assert(text::has_suffix(flux::ensure_jwt_keypair_command_text(), "chmod 0600 /etc/coolify/jwt.priv.tmp && mv /etc/coolify/jwt.priv.tmp /etc/coolify/jwt.priv && openssl pkey -in /etc/coolify/jwt.priv -pubout -out /etc/coolify/jwt.pub 2>&1 && chmod 0644 /etc/coolify/jwt.pub; fi"@)) by {
        assert("mkdir -p /etc/coolify && if [ ! -f /etc/coolify/jwt.priv ]; then openssl genpkey -algorithm EC -pkeyopt ec_paramgen_curve:P-256 -out /etc/coolify/jwt.priv.tmp 2>&1 && chmod 0600 /etc/coolify/jwt.priv.tmp && mv /etc/coolify/jwt.priv.tmp /etc/coolify/jwt.priv && openssl pkey -in /etc/coolify/jwt.priv -pubout -out /etc/coolify/jwt.pub 2>&1 && chmod 0644 /etc/coolify/jwt.pub; fi"@ =~= "mkdir -p /etc/coolify && if [ ! -f /etc/coolify/jwt.priv ]; then openssl genpkey -algorithm EC -pkeyopt ec_paramgen_curve:P-256 -out /etc/coolify/jwt.priv.tmp 2>&1 && "@ + "chmod 0600 /etc/coolify/jwt.priv.tmp && mv /etc/coolify/jwt.priv.tmp /etc/coolify/jwt.priv && openssl pkey -in /etc/coolify/jwt.priv -pubout -out /etc/coolify/jwt.pub 2>&1 && chmod 0644 /etc/coolify/jwt.pub; fi"@) by {
            reveal_strlit("mkdir -p /etc/coolify && if [ ! -f /etc/coolify/jwt.priv ]; then openssl genpkey -algorithm EC -pkeyopt ec_paramgen_curve:P-256 -out /etc/coolify/jwt.priv.tmp 2>&1 && chmod 0600 /etc/coolify/jwt.priv.tmp && mv /etc/coolify/jwt.priv.tmp /etc/coolify/jwt.priv && openssl pkey -in /etc/coolify/jwt.priv -pubout -out /etc/coolify/jwt.pub 2>&1 && chmod 0644 /etc/coolify/jwt.pub; fi");
            reveal_strlit("mkdir -p /etc/coolify && if [ ! -f /etc/coolify/jwt.priv ]; then openssl genpkey -algorithm EC -pkeyopt ec_paramgen_curve:P-256 -out /etc/coolify/jwt.priv.tmp 2>&1 && ");
            reveal_strlit("chmod 0600 /etc/coolify/jwt.priv.tmp && mv /etc/coolify/jwt.priv.tmp /etc/coolify/jwt.priv && openssl pkey -in /etc/coolify/jwt.priv -pubout -out /etc/coolify/jwt.pub 2>&1 && chmod 0644 /etc/coolify/jwt.pub; fi");
        }
        let x = "mkdir -p /etc/coolify && if [ ! -f /etc/coolify/jwt.priv ]; then openssl genpkey -algorithm EC -pkeyopt ec_paramgen_curve:P-256 -out /etc/coolify/jwt.priv.tmp 2>&1 && "@;
        let m = "chmod 0600 /etc/coolify/jwt.priv.tmp && mv /etc/coolify/jwt.priv.tmp /etc/coolify/jwt.priv && openssl pkey -in /etc/coolify/jwt.priv -pubout -out /etc/coolify/jwt.pub 2>&1 && chmod 0644 /etc/coolify/jwt.pub; fi"@;
        let y = Seq::<char>::empty();
        assert(flux::ensure_jwt_keypair_command_text() =~= x + m + y);
        assert(x + m + y =~= x + m);
        stands_last(x, m);
    }
}

/// The scheduler and flux wait for the interface, listen where they are told, and check tokens with the key
/// that they are told.
pub proof fn gateways_wait_for_their_interface(grpc_bind: Seq<char>, jwt_pub_path: Seq<char>, iface: Seq<char>)
    ensures
        text::has_text(scheduler::service_unit_text(grpc_bind, jwt_pub_path, iface), "After=network-online.target wg-quick@"@ + iface + ".service\nRequires=wg-quick@"@ + iface + ".service\n"@),
        text::has_text(scheduler::service_unit_text(grpc_bind, jwt_pub_path, iface), "\nEnvironment=SCHEDULER_GRPC_BIND="@ + grpc_bind + "\n"@),
        text::has_text(scheduler::service_unit_text(grpc_bind, jwt_pub_path, iface), "\nEnvironment=SCHEDULER_UNIX_SOCKET_PATH=/run/coolify/scheduler.sock\n"@),
        text::has_text(scheduler::service_unit_text(grpc_bind, jwt_pub_path, iface), "\nEnvironment=SCHEDULER_JWT_PUBLIC_KEY_PATH="@ + jwt_pub_path + "\n"@),
        text::has_text(scheduler::service_unit_text(grpc_bind, jwt_pub_path, iface), "\nExecStart=/usr/local/bin/scheduler\nRestart=on-failure\n"@),
        text::has_text(flux::service_unit_text(grpc_bind, jwt_pub_path, iface), "After=network-online.target wg-quick@"@ + iface + ".service\nRequires=wg-quick@"@ + iface + ".service\n"@),
        text::has_text(flux::service_unit_text(grpc_bind, jwt_pub_path, iface), "\nEnvironment=COOLIFY_FLUX_GRPC_BIND="@ + grpc_bind + "\n"@),
        text::has_text(flux::service_unit_text(grpc_bind, jwt_pub_path, iface), "\nEnvironment=COOLIFY_FLUX_UNIX_SOCKET_PATH=/run/coolify/flux.sock\n"@),
        text::has_text(flux::service_unit_text(grpc_bind, jwt_pub_path, iface), "\nEnvironment=COOLIFY_FLUX_JWT_PUBLIC_KEY_PATH="@ + jwt_pub_path + "\n"@),
        text::has_text(flux::service_unit_text(grpc_bind, jwt_pub_path, iface), "\nExecStart=/usr/local/bin/flux\nRestart=on-failure\n"@),
{
    assert(text::has_text(scheduler::service_unit_text(grpc_bind, jwt_pub_path, iface), "After=network-online.target wg-quick@"@ + iface + ".service\nRequires=wg-quick@"@ + iface + ".service\n"@)) by {
        assert("[Unit]\nDescription=Coolify scheduler\nAfter=network-online.target wg-quick@"@ =~= "[Unit]\nDescription=Coolify scheduler\n"@ + "After=network-online.target wg-quick@"@) by {
            reveal_strlit("[Unit]\nDescription=Coolify scheduler\nAfter=network-online.target wg-quick@");
            reveal_strlit("[Unit]\nDescription=Coolify scheduler\n");
            reveal_strlit("After=network-online.target wg-quick@");
        }
        assert(".service\n\n[Service]\nRuntimeDirectory=coolify\nRuntimeDirectoryMode=0750\nEnvironment=SCHEDULER_GRPC_BIND="@ =~= ".service\n"@ + "\n[Service]\nRuntimeDirectory=coolify\nRuntimeDirectoryMode=0750\nEnvironment=SCHEDULER_GRPC_BIND="@) by {
            reveal_strlit(".service\n\n[Service]\nRuntimeDirectory=coolify\nRuntimeDirectoryMode=0750\nEnvironment=SCHEDULER_GRPC_BIND=");
            reveal_strlit(".service\n");
            reveal_strlit("\n[Service]\nRuntimeDirectory=coolify\nRuntimeDirectoryMode=0750\nEnvironment=SCHEDULER_GRPC_BIND=");
        }
        let x = "[Unit]\nDescription=Coolify scheduler\n"@;
        let m = "After=network-online.target wg-quick@"@ + iface + ".service\nRequires=wg-quick@"@ + iface + ".service\n"@;
        let y = "\n[Service]\nRuntimeDirectory=coolify\nRuntimeDirectoryMode=0750\nEnvironment=SCHEDULER_GRPC_BIND="@ + grpc_bind + "\nEnvironment=SCHEDULER_UNIX_SOCKET_PATH=/run/coolify/scheduler.sock\nEnvironment=SCHEDULER_JWT_PUBLIC_KEY_PATH="@ + jwt_pub_path + "\nExecStart=/usr/local/bin/scheduler\nRestart=on-failure\nRestartSec=2s\n\n[Install]\nWantedBy=multi-user.target\n"@;
        assert(scheduler::service_unit_text(grpc_bind, jwt_pub_path, iface) =~= x + m + y);
        stands_between(x, m, y);
    }
    assert(text::has_text(scheduler::service_unit_text(grpc_bind, jwt_pub_path, iface), "\nEnvironment=SCHEDULER_GRPC_BIND="@ + grpc_bind + "\n"@)) by {
        assert(".service\n\n[Service]\nRuntimeDirectory=coolify\nRuntimeDirectoryMode=0750\nEnvironment=SCHEDULER_GRPC_BIND="@ =~= ".service\n\n[Service]\nRuntimeDirectory=coolify\nRuntimeDirectoryMode=0750"@ + "\nEnvironment=SCHEDULER_GRPC_BIND="@) by {
            reveal_strlit(".service\n\n[Service]\nRuntimeDirectory=coolify\nRuntimeDirectoryMode=0750\nEnvironment=SCHEDULER_GRPC_BIND=");
            reveal_strlit(".service\n\n[Service]\nRuntimeDirectory=coolify\nRuntimeDirectoryMode=0750");
            reveal_strlit("\nEnvironment=SCHEDULER_GRPC_BIND=");
        }
        assert("\nEnvironment=SCHEDULER_UNIX_SOCKET_PATH=/run/coolify/scheduler.sock\nEnvironment=SCHEDULER_JWT_PUBLIC_KEY_PATH="@ =~= "\n"@ + "Environment=SCHEDULER_UNIX_SOCKET_PATH=/run/coolify/scheduler.sock\nEnvironment=SCHEDULER_JWT_PUBLIC_KEY_PATH="@) by {
            reveal_strlit("\nEnvironment=SCHEDULER_UNIX_SOCKET_PATH=/run/coolify/scheduler.sock\nEnvironment=SCHEDULER_JWT_PUBLIC_KEY_PATH=");
            reveal_strlit("\n");
            reveal_strlit("Environment=SCHEDULER_UNIX_SOCKET_PATH=/run/coolify/scheduler.sock\nEnvironment=SCHEDULER_JWT_PUBLIC_KEY_PATH=");
        }
        let x = "[Unit]\nDescription=Coolify scheduler\nAfter=network-online.target wg-quick@"@ + iface + ".service\nRequires=wg-quick@"@ + iface + ".service\n\n[Service]\nRuntimeDirectory=coolify\nRuntimeDirectoryMode=0750"@;
        let m = "\nEnvironment=SCHEDULER_GRPC_BIND="@ + grpc_bind + "\n"@;
        let y = "Environment=SCHEDULER_UNIX_SOCKET_PATH=/run/coolify/scheduler.sock\nEnvironment=SCHEDULER_JWT_PUBLIC_KEY_PATH="@ + jwt_pub_path + "\nExecStart=/usr/local/bin/scheduler\nRestart=on-failure\nRestartSec=2s\n\n[Install]\nWantedBy=multi-user.target\n"@;
        assert(scheduler::service_unit_text(grpc_bind, jwt_pub_path, iface) =~= x + m + y);
        stands_between(x, m, y);
    }
    assert(text::has_text(scheduler::service_unit_text(grpc_bind, jwt_pub_path, iface), "\nEnvironment=SCHEDULER_UNIX_SOCKET_PATH=/run/coolify/scheduler.sock\n"@)) by {
        assert("\nEnvironment=SCHEDULER_UNIX_SOCKET_PATH=/run/coolify/scheduler.sock\nEnvironment=SCHEDULER_JWT_PUBLIC_KEY_PATH="@ =~= "\nEnvironment=SCHEDULER_UNIX_SOCKET_PATH=/run/coolify/scheduler.sock\n"@ + "Environment=SCHEDULER_JWT_PUBLIC_KEY_PATH="@) by {
            reveal_strlit("\nEnvironment=SCHEDULER_UNIX_SOCKET_PATH=/run/coolify/scheduler.sock\nEnvironment=SCHEDULER_JWT_PUBLIC_KEY_PATH=");
            reveal_strlit("\nEnvironment=SCHEDULER_UNIX_SOCKET_PATH=/run/coolify/scheduler.sock\n");
            reveal_strlit("Environment=SCHEDULER_JWT_PUBLIC_KEY_PATH=");
        }
        let x = "[Unit]\nDescription=Coolify scheduler\nAfter=network-online.target wg-quick@"@ + iface + ".service\nRequires=wg-quick@"@ + iface + ".service\n\n[Service]\nRuntimeDirectory=coolify\nRuntimeDirectoryMode=0750\nEnvironment=SCHEDULER_GRPC_BIND="@ + grpc_bind;
        let m = "\nEnvironment=SCHEDULER_UNIX_SOCKET_PATH=/run/coolify/scheduler.sock\n"@;
        let y = "Environment=SCHEDULER_JWT_PUBLIC_KEY_PATH="@ + jwt_pub_path + "\nExecStart=/usr/local/bin/scheduler\nRestart=on-failure\nRestartSec=2s\n\n[Install]\nWantedBy=multi-user.target\n"@;
        assert(scheduler::service_unit_text(grpc_bind, jwt_pub_path, iface) =~= x + m + y);
        stands_between(x, m, y);
    }
    assert(text::has_text(scheduler::service_unit_text(grpc_bind, jwt_pub_path, iface), "\nEnvironment=SCHEDULER_JWT_PUBLIC_KEY_PATH="@ + jwt_pub_path + "\n"@)) by {
        assert("\nEnvironment=SCHEDULER_UNIX_SOCKET_PATH=/run/coolify/scheduler.sock\nEnvironment=SCHEDULER_JWT_PUBLIC_KEY_PATH="@ =~= "\nEnvironment=SCHEDULER_UNIX_SOCKET_PATH=/run/coolify/scheduler.sock"@ + "\nEnvironment=SCHEDULER_JWT_PUBLIC_KEY_PATH="@) by {
            reveal_strlit("\nEnvironment=SCHEDULER_UNIX_SOCKET_PATH=/run/coolify/scheduler.sock\nEnvironment=SCHEDULER_JWT_PUBLIC_KEY_PATH=");
            reveal_strlit("\nEnvironment=SCHEDULER_UNIX_SOCKET_PATH=/run/coolify/scheduler.sock");
            reveal_strlit("\nEnvironment=SCHEDULER_JWT_PUBLIC_KEY_PATH=");
        }
        assert("\nExecStart=/usr/local/bin/scheduler\nRestart=on-failure\nRestartSec=2s\n\n[Install]\nWantedBy=multi-user.target\n"@ =~= "\n"@ + "ExecStart=/usr/local/bin/scheduler\nRestart=on-failure\nRestartSec=2s\n\n[Install]\nWantedBy=multi-user.target\n"@) by {
            reveal_strlit("\nExecStart=/usr/local/bin/scheduler\nRestart=on-failure\nRestartSec=2s\n\n[Install]\nWantedBy=multi-user.target\n");
            reveal_strlit("\n");
            reveal_strlit("ExecStart=/usr/local/bin/scheduler\nRestart=on-failure\nRestartSec=2s\n\n[Install]\nWantedBy=multi-user.target\n");
        }
        let x = "[Unit]\nDescription=Coolify scheduler\nAfter=network-online.target wg-quick@"@ + iface + ".service\nRequires=wg-quick@"@ + iface + ".service\n\n[Service]\nRuntimeDirectory=coolify\nRuntimeDirectoryMode=0750\nEnvironment=SCHEDULER_GRPC_BIND="@ + grpc_bind + "\nEnvironment=SCHEDULER_UNIX_SOCKET_PATH=/run/coolify/scheduler.sock"@;
        let m = "\nEnvironment=SCHEDULER_JWT_PUBLIC_KEY_PATH="@ + jwt_pub_path + "\n"@;
        let y = "ExecStart=/usr/local/bin/scheduler\nRestart=on-failure\nRestartSec=2s\n\n[Install]\nWantedBy=multi-user.target\n"@;
        assert(scheduler::service_unit_text(grpc_bind, jwt_pub_path, iface) =~= x + m + y);
        stands_between(x, m, y);
    }
    assert(text::has_text(scheduler::service_unit_text(grpc_bind, jwt_pub_path, iface), "\nExecStart=/usr/local/bin/scheduler\nRestart=on-failure\n"@)) by {
        assert("\nExecStart=/usr/local/bin/scheduler\nRestart=on-failure\nRestartSec=2s\n\n[Install]\nWantedBy=multi-user.target\n"@ =~= "\nExecStart=/usr/local/bin/scheduler\nRestart=on-failure\n"@ + "RestartSec=2s\n\n[Install]\nWantedBy=multi-user.target\n"@) by {
            reveal_strlit("\nExecStart=/usr/local/bin/scheduler\nRestart=on-failure\nRestartSec=2s\n\n[Install]\nWantedBy=multi-user.target\n");
            reveal_strlit("\nExecStart=/usr/local/bin/scheduler\nRestart=on-failure\n");
            reveal_strlit("RestartSec=2s\n\n[Install]\nWantedBy=multi-user.target\n");
        }
        let x = "[Unit]\nDescription=Coolify scheduler\nAfter=network-online.target wg-quick@"@ + iface + ".service\nRequires=wg-quick@"@ + iface + ".service\n\n[Service]\nRuntimeDirectory=coolify\nRuntimeDirectoryMode=0750\nEnvironment=SCHEDULER_GRPC_BIND="@ + grpc_bind + "\nEnvironment=SCHEDULER_UNIX_SOCKET_PATH=/run/coolify/scheduler.sock\nEnvironment=SCHEDULER_JWT_PUBLIC_KEY_PATH="@ + jwt_pub_path;
        let m = "\nExecStart=/usr/local/bin/scheduler\nRestart=on-failure\n"@;
        let y = "RestartSec=2s\n\n[Install]\nWantedBy=multi-user.target\n"@;
        assert(scheduler::service_unit_text(grpc_bind, jwt_pub_path, iface) =~= x + m + y);
        stands_between(x, m, y);
    }
    assert(text::has_text(flux::service_unit_text(grpc_bind, jwt_pub_path, iface), "After=network-online.target wg-quick@"@ + iface + ".service\nRequires=wg-quick@"@ + iface + ".service\n"@)) by {
        assert("[Unit]\nDescription=Coolify flux\nAfter=network-online.target wg-quick@"@ =~= "[Unit]\nDescription=Coolify flux\n"@ + "After=network-online.target wg-quick@"@) by {
            reveal_strlit("[Unit]\nDescription=Coolify flux\nAfter=network-online.target wg-quick@");
            reveal_strlit("[Unit]\nDescription=Coolify flux\n");
            reveal_strlit("After=network-online.target wg-quick@");
        }
        assert(".service\n\n[Service]\nRuntimeDirectory=coolify\nRuntimeDirectoryMode=0750\nEnvironment=COOLIFY_FLUX_GRPC_BIND="@ =~= ".service\n"@ + "\n[Service]\nRuntimeDirectory=coolify\nRuntimeDirectoryMode=0750\nEnvironment=COOLIFY_FLUX_GRPC_BIND="@) by {
            reveal_strlit(".service\n\n[Service]\nRuntimeDirectory=coolify\nRuntimeDirectoryMode=0750\nEnvironment=COOLIFY_FLUX_GRPC_BIND=");
            reveal_strlit(".service\n");
            reveal_strlit("\n[Service]\nRuntimeDirectory=coolify\nRuntimeDirectoryMode=0750\nEnvironment=COOLIFY_FLUX_GRPC_BIND=");
        }
        let x = "[Unit]\nDescription=Coolify flux\n"@;
        let m = "After=network-online.target wg-quick@"@ + iface + ".service\nRequires=wg-quick@"@ + iface + ".service\n"@;
        let y = "\n[Service]\nRuntimeDirectory=coolify\nRuntimeDirectoryMode=0750\nEnvironment=COOLIFY_FLUX_GRPC_BIND="@ + grpc_bind + "\nEnvironment=COOLIFY_FLUX_UNIX_SOCKET_PATH=/run/coolify/flux.sock\nEnvironment=COOLIFY_FLUX_JWT_PUBLIC_KEY_PATH="@ + jwt_pub_path + "\nExecStart=/usr/local/bin/flux\nRestart=on-failure\nRestartSec=2s\n\n[Install]\nWantedBy=multi-user.target\n"@;
        assert(flux::service_unit_text(grpc_bind, jwt_pub_path, iface) =~= x + m + y);
        stands_between(x, m, y);
    }
    assert(text::has_text(flux::service_unit_text(grpc_bind, jwt_pub_path, iface), "\nEnvironment=COOLIFY_FLUX_GRPC_BIND="@ + grpc_bind + "\n"@)) by {
        assert(".service\n\n[Service]\nRuntimeDirectory=coolify\nRuntimeDirectoryMode=0750\nEnvironment=COOLIFY_FLUX_GRPC_BIND="@ =~= ".service\n\n[Service]\nRuntimeDirectory=coolify\nRuntimeDirectoryMode=0750"@ + "\nEnvironment=COOLIFY_FLUX_GRPC_BIND="@) by {
            reveal_strlit(".service\n\n[Service]\nRuntimeDirectory=coolify\nRuntimeDirectoryMode=0750\nEnvironment=COOLIFY_FLUX_GRPC_BIND=");
            reveal_strlit(".service\n\n[Service]\nRuntimeDirectory=coolify\nRuntimeDirectoryMode=0750");
            reveal_strlit("\nEnvironment=COOLIFY_FLUX_GRPC_BIND=");
        }
        assert("\nEnvironment=COOLIFY_FLUX_UNIX_SOCKET_PATH=/run/coolify/flux.sock\nEnvironment=COOLIFY_FLUX_JWT_PUBLIC_KEY_PATH="@ =~= "\n"@ + "Environment=COOLIFY_FLUX_UNIX_SOCKET_PATH=/run/coolify/flux.sock\nEnvironment=COOLIFY_FLUX_JWT_PUBLIC_KEY_PATH="@) by {
            reveal_strlit("\nEnvironment=COOLIFY_FLUX_UNIX_SOCKET_PATH=/run/coolify/flux.sock\nEnvironment=COOLIFY_FLUX_JWT_PUBLIC_KEY_PATH=");
            reveal_strlit("\n");
            reveal_strlit("Environment=COOLIFY_FLUX_UNIX_SOCKET_PATH=/run/coolify/flux.sock\nEnvironment=COOLIFY_FLUX_JWT_PUBLIC_KEY_PATH=");
        }
        let x = "[Unit]\nDescription=Coolify flux\nAfter=network-online.target wg-quick@"@ + iface + ".service\nRequires=wg-quick@"@ + iface + ".service\n\n[Service]\nRuntimeDirectory=coolify\nRuntimeDirectoryMode=0750"@;
        let m = "\nEnvironment=COOLIFY_FLUX_GRPC_BIND="@ + grpc_bind + "\n"@;
        let y = "Environment=COOLIFY_FLUX_UNIX_SOCKET_PATH=/run/coolify/flux.sock\nEnvironment=COOLIFY_FLUX_JWT_PUBLIC_KEY_PATH="@ + jwt_pub_path + "\nExecStart=/usr/local/bin/flux\nRestart=on-failure\nRestartSec=2s\n\n[Install]\nWantedBy=multi-user.target\n"@;
        assert(flux::service_unit_text(grpc_bind, jwt_pub_path, iface) =~= x + m + y);
        stands_between(x, m, y);
    }
    assert(text::has_text(flux::service_unit_text(grpc_bind, jwt_pub_path, iface), "\nEnvironment=COOLIFY_FLUX_UNIX_SOCKET_PATH=/run/coolify/flux.sock\n"@)) by {
        assert("\nEnvironment=COOLIFY_FLUX_UNIX_SOCKET_PATH=/run/coolify/flux.sock\nEnvironment=COOLIFY_FLUX_JWT_PUBLIC_KEY_PATH="@ =~= "\nEnvironment=COOLIFY_FLUX_UNIX_SOCKET_PATH=/run/coolify/flux.sock\n"@ + "Environment=COOLIFY_FLUX_JWT_PUBLIC_KEY_PATH="@) by {
            reveal_strlit("\nEnvironment=COOLIFY_FLUX_UNIX_SOCKET_PATH=/run/coolify/flux.sock\nEnvironment=COOLIFY_FLUX_JWT_PUBLIC_KEY_PATH=");
            reveal_strlit("\nEnvironment=COOLIFY_FLUX_UNIX_SOCKET_PATH=/run/coolify/flux.sock\n");
            reveal_strlit("Environment=COOLIFY_FLUX_JWT_PUBLIC_KEY_PATH=");
        }
        let x = "[Unit]\nDescription=Coolify flux\nAfter=network-online.target wg-quick@"@ + iface + ".service\nRequires=wg-quick@"@ + iface + ".service\n\n[Service]\nRuntimeDirectory=coolify\nRuntimeDirectoryMode=0750\nEnvironment=COOLIFY_FLUX_GRPC_BIND="@ + grpc_bind;
        let m = "\nEnvironment=COOLIFY_FLUX_UNIX_SOCKET_PATH=/run/coolify/flux.sock\n"@;
        let y = "Environment=COOLIFY_FLUX_JWT_PUBLIC_KEY_PATH="@ + jwt_pub_path + "\nExecStart=/usr/local/bin/flux\nRestart=on-failure\nRestartSec=2s\n\n[Install]\nWantedBy=multi-user.target\n"@;
        assert(flux::service_unit_text(grpc_bind, jwt_pub_path, iface) =~= x + m + y);
        stands_between(x, m, y);
    }
    assert(text::has_text(flux::service_unit_text(grpc_bind, jwt_pub_path, iface), "\nEnvironment=COOLIFY_FLUX_JWT_PUBLIC_KEY_PATH="@ + jwt_pub_path + "\n"@)) by {
        assert("\nEnvironment=COOLIFY_FLUX_UNIX_SOCKET_PATH=/run/coolify/flux.sock\nEnvironment=COOLIFY_FLUX_JWT_PUBLIC_KEY_PATH="@ =~= "\nEnvironment=COOLIFY_FLUX_UNIX_SOCKET_PATH=/run/coolify/flux.sock"@ + "\nEnvironment=COOLIFY_FLUX_JWT_PUBLIC_KEY_PATH="@) by {
            reveal_strlit("\nEnvironment=COOLIFY_FLUX_UNIX_SOCKET_PATH=/run/coolify/flux.sock\nEnvironment=COOLIFY_FLUX_JWT_PUBLIC_KEY_PATH=");
            reveal_strlit("\nEnvironment=COOLIFY_FLUX_UNIX_SOCKET_PATH=/run/coolify/flux.sock");
            reveal_strlit("\nEnvironment=COOLIFY_FLUX_JWT_PUBLIC_KEY_PATH=");
        }
        assert("\nExecStart=/usr/local/bin/flux\nRestart=on-failure\nRestartSec=2s\n\n[Install]\nWantedBy=multi-user.target\n"@ =~= "\n"@ + "ExecStart=/usr/local/bin/flux\nRestart=on-failure\nRestartSec=2s\n\n[Install]\nWantedBy=multi-user.target\n"@) by {
            reveal_strlit("\nExecStart=/usr/local/bin/flux\nRestart=on-failure\nRestartSec=2s\n\n[Install]\nWantedBy=multi-user.target\n");
            reveal_strlit("\n");
            reveal_strlit("ExecStart=/usr/local/bin/flux\nRestart=on-failure\nRestartSec=2s\n\n[Install]\nWantedBy=multi-user.target\n");
        }
        let x = "[Unit]\nDescription=Coolify flux\nAfter=network-online.target wg-quick@"@ + iface + ".service\nRequires=wg-quick@"@ + iface + ".service\n\n[Service]\nRuntimeDirectory=coolify\nRuntimeDirectoryMode=0750\nEnvironment=COOLIFY_FLUX_GRPC_BIND="@ + grpc_bind + "\nEnvironment=COOLIFY_FLUX_UNIX_SOCKET_PATH=/run/coolify/flux.sock"@;
        let m = "\nEnvironment=COOLIFY_FLUX_JWT_PUBLIC_KEY_PATH="@ + jwt_pub_path + "\n"@;
        let y = "ExecStart=/usr/local/bin/flux\nRestart=on-failure\nRestartSec=2s\n\n[Install]\nWantedBy=multi-user.target\n"@;
        assert(flux::service_unit_text(grpc_bind, jwt_pub_path, iface) =~= x + m + y);
        stands_between(x, m, y);
    }
    assert(text::has_text(flux::service_unit_text(grpc_bind, jwt_pub_path, iface), "\nExecStart=/usr/local/bin/flux\nRestart=on-failure\n"@)) by {
        assert("\nExecStart=/usr/local/bin/flux\nRestart=on-failure\nRestartSec=2s\n\n[Install]\nWantedBy=multi-user.target\n"@ =~= "\nExecStart=/usr/local/bin/flux\nRestart=on-failure\n"@ + "RestartSec=2s\n\n[Install]\nWantedBy=multi-user.target\n"@) by {
            reveal_strlit("\nExecStart=/usr/local/bin/flux\nRestart=on-failure\nRestartSec=2s\n\n[Install]\nWantedBy=multi-user.target\n");
            reveal_strlit("\nExecStart=/usr/local/bin/flux\nRestart=on-failure\n");
            reveal_strlit("RestartSec=2s\n\n[Install]\nWantedBy=multi-user.target\n");
        }
        let x = "[Unit]\nDescription=Coolify flux\nAfter=network-online.target wg-quick@"@ + iface + ".service\nRequires=wg-quick@"@ + iface + ".service\n\n[Service]\nRuntimeDirectory=coolify\nRuntimeDirectoryMode=0750\nEnvironment=COOLIFY_FLUX_GRPC_BIND="@ + grpc_bind + "\nEnvironment=COOLIFY_FLUX_UNIX_SOCKET_PATH=/run/coolify/flux.sock\nEnvironment=COOLIFY_FLUX_JWT_PUBLIC_KEY_PATH="@ + jwt_pub_path;
        let m = "\nExecStart=/usr/local/bin/flux\nRestart=on-failure\n"@;
        let y = "RestartSec=2s\n\n[Install]\nWantedBy=multi-user.target\n"@;
        assert(flux::service_unit_text(grpc_bind, jwt_pub_path, iface) =~= x + m + y);
        stands_between(x, m, y);
    }
}

/// The control plane listens on its port, keeps its database in its directory, and reaches the scheduler by
/// its socket.
pub proof fn the_control_plane_reaches_the_scheduler()
    ensures
        text::has_text(coolify::service_unit_text(), "\nEnvironment=COOLIFY_API_BIND=0.0.0.0:3000\n"@),
        text::has_text(coolify::service_unit_text(), "\nEnvironment=COOLIFY_API_DB=/var/lib/coolify/coolify.db\n"@),
        text::has_text(coolify::service_unit_text(), "\nEnvironment=COOLIFY_SCHEDULER_SOCKET=/run/coolify/scheduler.sock\n"@),
        text::has_text(coolify::service_unit_text(), "\nExecStart=/usr/local/bin/coolify serve\nRestart=on-failure\n"@),
{
    assert(text::has_text(coolify::service_unit_text(), "\nEnvironment=COOLIFY_API_BIND=0.0.0.0:3000\n"@)) by {
        assert("[Unit]\nDescription=Coolify UI/API\nAfter=network-online.target scheduler.service\nWants=network-online.target scheduler.service\n\n[Service]\nStateDirectory=coolify\nWorkingDirectory=/var/lib/coolify\nEnvironment=COOLIFY_API_BIND=0.0.0.0:3000\nEnvironment=COOLIFY_API_DB=/var/lib/coolify/coolify.db\nEnvironment=COOLIFY_SCHEDULER_SOCKET=/run/coolify/scheduler.sock\nExecStart=/usr/local/bin/coolify serve\nRestart=on-failure\nRestartSec=2s\n\n[Install]\nWantedBy=multi-user.target\n"@ =~= "[Unit]\nDescription=Coolify UI/API\nAfter=network-online.target scheduler.service\nWants=network-online.target scheduler.service\n\n[Service]\nStateDirectory=coolify\nWorkingDirectory=/var/lib/coolify"@ + "\nEnvironment=COOLIFY_API_BIND=0.0.0.0:3000\n"@ + "Environment=COOLIFY_API_DB=/var/lib/coolify/coolify.db\nEnvironment=COOLIFY_SCHEDULER_SOCKET=/run/coolify/scheduler.sock\nExecStart=/usr/local/bin/coolify serve\nRestart=on-failure\nRestartSec=2s\n\n[Install]\nWantedBy=multi-user.target\n"@) by {
            reveal_strlit("[Unit]\nDescription=Coolify UI/API\nAfter=network-online.target scheduler.service\nWants=network-online.target scheduler.service\n\n[Service]\nStateDirectory=coolify\nWorkingDirectory=/var/lib/coolify\nEnvironment=COOLIFY_API_BIND=0.0.0.0:3000\nEnvironment=COOLIFY_API_DB=/var/lib/coolify/coolify.db\nEnvironment=COOLIFY_SCHEDULER_SOCKET=/run/coolify/scheduler.sock\nExecStart=/usr/local/bin/coolify serve\nRestart=on-failure\nRestartSec=2s\n\n[Install]\nWantedBy=multi-user.target\n");
            reveal_strlit("[Unit]\nDescription=Coolify UI/API\nAfter=network-online.target scheduler.service\nWants=network-online.target scheduler.service\n\n[Service]\nStateDirectory=coolify\nWorkingDirectory=/var/lib/coolify");
            reveal_strlit("\nEnvironment=COOLIFY_API_BIND=0.0.0.0:3000\n");
            reveal_strlit("Environment=COOLIFY_API_DB=/var/lib/coolify/coolify.db\nEnvironment=COOLIFY_SCHEDULER_SOCKET=/run/coolify/scheduler.sock\nExecStart=/usr/local/bin/coolify serve\nRestart=on-failure\nRestartSec=2s\n\n[Install]\nWantedBy=multi-user.target\n");
        }
        let x = "[Unit]\nDescription=Coolify UI/API\nAfter=network-online.target scheduler.service\nWants=network-online.target scheduler.service\n\n[Service]\nStateDirectory=coolify\nWorkingDirectory=/var/lib/coolify"@;
        let m = "\nEnvironment=COOLIFY_API_BIND=0.0.0.0:3000\n"@;
        let y = "Environment=COOLIFY_API_DB=/var/lib/coolify/coolify.db\nEnvironment=COOLIFY_SCHEDULER_SOCKET=/run/coolify/scheduler.sock\nExecStart=/usr/local/bin/coolify serve\nRestart=on-failure\nRestartSec=2s\n\n[Install]\nWantedBy=multi-user.target\n"@;
        assert(coolify::service_unit_text() =~= x + m + y);
        stands_between(x, m, y);
    }
    assert(text::has_text(coolify::service_unit_text(), "\nEnvironment=COOLIFY_API_DB=/var/lib/coolify/coolify.db\n"@)) by {
        assert("[Unit]\nDescription=Coolify UI/API\nAfter=network-online.target scheduler.service\nWants=network-online.target scheduler.service\n\n[Service]\nStateDirectory=coolify\nWorkingDirectory=/var/lib/coolify\nEnvironment=COOLIFY_API_BIND=0.0.0.0:3000\nEnvironment=COOLIFY_API_DB=/var/lib/coolify/coolify.db\nEnvironment=COOLIFY_SCHEDULER_SOCKET=/run/coolify/scheduler.sock\nExecStart=/usr/local/bin/coolify serve\nRestart=on-failure\nRestartSec=2s\n\n[Install]\nWantedBy=multi-user.target\n"@ =~= "[Unit]\nDescription=Coolify UI/API\nAfter=network-online.target scheduler.service\nWants=network-online.target scheduler.service\n\n[Service]\nStateDirectory=coolify\nWorkingDirectory=/var/lib/coolify\nEnvironment=COOLIFY_API_BIND=0.0.0.0:3000"@ + "\nEnvironment=COOLIFY_API_DB=/var/lib/coolify/coolify.db\n"@ + "Environment=COOLIFY_SCHEDULER_SOCKET=/run/coolify/scheduler.sock\nExecStart=/usr/local/bin/coolify serve\nRestart=on-failure\nRestartSec=2s\n\n[Install]\nWantedBy=multi-user.target\n"@) by {
            reveal_strlit("[Unit]\nDescription=Coolify UI/API\nAfter=network-online.target scheduler.service\nWants=network-online.target scheduler.service\n\n[Service]\nStateDirectory=coolify\nWorkingDirectory=/var/lib/coolify\nEnvironment=COOLIFY_API_BIND=0.0.0.0:3000\nEnvironment=COOLIFY_API_DB=/var/lib/coolify/coolify.db\nEnvironment=COOLIFY_SCHEDULER_SOCKET=/run/coolify/scheduler.sock\nExecStart=/usr/local/bin/coolify serve\nRestart=on-failure\nRestartSec=2s\n\n[Install]\nWantedBy=multi-user.target\n");
            reveal_strlit("[Unit]\nDescription=Coolify UI/API\nAfter=network-online.target scheduler.service\nWants=network-online.target scheduler.service\n\n[Service]\nStateDirectory=coolify\nWorkingDirectory=/var/lib/coolify\nEnvironment=COOLIFY_API_BIND=0.0.0.0:3000");
            reveal_strlit("\nEnvironment=COOLIFY_API_DB=/var/lib/coolify/coolify.db\n");
            reveal_strlit("Environment=COOLIFY_SCHEDULER_SOCKET=/run/coolify/scheduler.sock\nExecStart=/usr/local/bin/coolify serve\nRestart=on-failure\nRestartSec=2s\n\n[Install]\nWantedBy=multi-user.target\n");
        }
        let x = "[Unit]\nDescription=Coolify UI/API\nAfter=network-online.target scheduler.service\nWants=network-online.target scheduler.service\n\n[Service]\nStateDirectory=coolify\nWorkingDirectory=/var/lib/coolify\nEnvironment=COOLIFY_API_BIND=0.0.0.0:3000"@;
        let m = "\nEnvironment=COOLIFY_API_DB=/var/lib/coolify/coolify.db\n"@;
        let y = "Environment=COOLIFY_SCHEDULER_SOCKET=/run/coolify/scheduler.sock\nExecStart=/usr/local/bin/coolify serve\nRestart=on-failure\nRestartSec=2s\n\n[Install]\nWantedBy=multi-user.target\n"@;
        assert(coolify::service_unit_text() =~= x + m + y);
        stands_between(x, m, y);
    }
    assert(text::has_text(coolify::service_unit_text(), "\nEnvironment=COOLIFY_SCHEDULER_SOCKET=/run/coolify/scheduler.sock\n"@)) by {
        assert("[Unit]\nDescription=Coolify UI/API\nAfter=network-online.target scheduler.service\nWants=network-online.target scheduler.service\n\n[Service]\nStateDirectory=coolify\nWorkingDirectory=/var/lib/coolify\nEnvironment=COOLIFY_API_BIND=0.0.0.0:3000\nEnvironment=COOLIFY_API_DB=/var/lib/coolify/coolify.db\nEnvironment=COOLIFY_SCHEDULER_SOCKET=/run/coolify/scheduler.sock\nExecStart=/usr/local/bin/coolify serve\nRestart=on-failure\nRestartSec=2s\n\n[Install]\nWantedBy=multi-user.target\n"@ =~= "[Unit]\nDescription=Coolify UI/API\nAfter=network-online.target scheduler.service\nWants=network-online.target scheduler.service\n\n[Service]\nStateDirectory=coolify\nWorkingDirectory=/var/lib/coolify\nEnvironment=COOLIFY_API_BIND=0.0.0.0:3000\nEnvironment=COOLIFY_API_DB=/var/lib/coolify/coolify.db"@ + "\nEnvironment=COOLIFY_SCHEDULER_SOCKET=/run/coolify/scheduler.sock\n"@ + "ExecStart=/usr/local/bin/coolify serve\nRestart=on-failure\nRestartSec=2s\n\n[Install]\nWantedBy=multi-user.target\n"@) by {
            reveal_strlit("[Unit]\nDescription=Coolify UI/API\nAfter=network-online.target scheduler.service\nWants=network-online.target scheduler.service\n\n[Service]\nStateDirectory=coolify\nWorkingDirectory=/var/lib/coolify\nEnvironment=COOLIFY_API_BIND=0.0.0.0:3000\nEnvironment=COOLIFY_API_DB=/var/lib/coolify/coolify.db\nEnvironment=COOLIFY_SCHEDULER_SOCKET=/run/coolify/scheduler.sock\nExecStart=/usr/local/bin/coolify serve\nRestart=on-failure\nRestartSec=2s\n\n[Install]\nWantedBy=multi-user.target\n");
            reveal_strlit("[Unit]\nDescription=Coolify UI/API\nAfter=network-online.target scheduler.service\nWants=network-online.target scheduler.service\n\n[Service]\nStateDirectory=coolify\nWorkingDirectory=/var/lib/coolify\nEnvironment=COOLIFY_API_BIND=0.0.0.0:3000\nEnvironment=COOLIFY_API_DB=/var/lib/coolify/coolify.db");
            reveal_strlit("\nEnvironment=COOLIFY_SCHEDULER_SOCKET=/run/coolify/scheduler.sock\n");
            reveal_strlit("ExecStart=/usr/local/bin/coolify serve\nRestart=on-failure\nRestartSec=2s\n\n[Install]\nWantedBy=multi-user.target\n");
        }
        let x = "[Unit]\nDescription=Coolify UI/API\nAfter=network-online.target scheduler.service\nWants=network-online.target scheduler.service\n\n[Service]\nStateDirectory=coolify\nWorkingDirectory=/var/lib/coolify\nEnvironment=COOLIFY_API_BIND=0.0.0.0:3000\nEnvironment=COOLIFY_API_DB=/var/lib/coolify/coolify.db"@;
        let m = "\nEnvironment=COOLIFY_SCHEDULER_SOCKET=/run/coolify/scheduler.sock\n"@;
        let y = "ExecStart=/usr/local/bin/coolify serve\nRestart=on-failure\nRestartSec=2s\n\n[Install]\nWantedBy=multi-user.target\n"@;
        assert(coolify::service_unit_text() =~= x + m + y);
        stands_between(x, m, y);
    }
    assert(text::has_text(coolify::service_unit_text(), "\nExecStart=/usr/local/bin/coolify serve\nRestart=on-failure\n"@)) by {
        assert("[Unit]\nDescription=Coolify UI/API\nAfter=network-online.target scheduler.service\nWants=network-online.target scheduler.service\n\n[Service]\nStateDirectory=coolify\nWorkingDirectory=/var/lib/coolify\nEnvironment=COOLIFY_API_BIND=0.0.0.0:3000\nEnvironment=COOLIFY_API_DB=/var/lib/coolify/coolify.db\nEnvironment=COOLIFY_SCHEDULER_SOCKET=/run/coolify/scheduler.sock\nExecStart=/usr/local/bin/coolify serve\nRestart=on-failure\nRestartSec=2s\n\n[Install]\nWantedBy=multi-user.target\n"@ =~= "[Unit]\nDescription=Coolify UI/API\nAfter=network-online.target scheduler.service\nWants=network-online.target scheduler.service\n\n[Service]\nStateDirectory=coolify\nWorkingDirectory=/var/lib/coolify\nEnvironment=COOLIFY_API_BIND=0.0.0.0:3000\nEnvironment=COOLIFY_API_DB=/var/lib/coolify/coolify.db\nEnvironment=COOLIFY_SCHEDULER_SOCKET=/run/coolify/scheduler.sock"@ + "\nExecStart=/usr/local/bin/coolify serve\nRestart=on-failure\n"@ + "RestartSec=2s\n\n[Install]\nWantedBy=multi-user.target\n"@) by {
            reveal_strlit("[Unit]\nDescription=Coolify UI/API\nAfter=network-online.target scheduler.service\nWants=network-online.target scheduler.service\n\n[Service]\nStateDirectory=coolify\nWorkingDirectory=/var/lib/coolify\nEnvironment=COOLIFY_API_BIND=0.0.0.0:3000\nEnvironment=COOLIFY_API_DB=/var/lib/coolify/coolify.db\nEnvironment=COOLIFY_SCHEDULER_SOCKET=/run/coolify/scheduler.sock\nExecStart=/usr/local/bin/coolify serve\nRestart=on-failure\nRestartSec=2s\n\n[Install]\nWantedBy=multi-user.target\n");
            reveal_strlit("[Unit]\nDescription=Coolify UI/API\nAfter=network-online.target scheduler.service\nWants=network-online.target scheduler.service\n\n[Service]\nStateDirectory=coolify\nWorkingDirectory=/var/lib/coolify\nEnvironment=COOLIFY_API_BIND=0.0.0.0:3000\nEnvironment=COOLIFY_API_DB=/var/lib/coolify/coolify.db\nEnvironment=COOLIFY_SCHEDULER_SOCKET=/run/coolify/scheduler.sock");
            reveal_strlit("\nExecStart=/usr/local/bin/coolify serve\nRestart=on-failure\n");
            reveal_strlit("RestartSec=2s\n\n[Install]\nWantedBy=multi-user.target\n");
        }
        let x = "[Unit]\nDescription=Coolify UI/API\nAfter=network-online.target scheduler.service\nWants=network-online.target scheduler.service\n\n[Service]\nStateDirectory=coolify\nWorkingDirectory=/var/lib/coolify\nEnvironment=COOLIFY_API_BIND=0.0.0.0:3000\nEnvironment=COOLIFY_API_DB=/var/lib/coolify/coolify.db\nEnvironment=COOLIFY_SCHEDULER_SOCKET=/run/coolify/scheduler.sock"@;
        let m = "\nExecStart=/usr/local/bin/coolify serve\nRestart=on-failure\n"@;
        let y = "RestartSec=2s\n\n[Install]\nWantedBy=multi-user.target\n"@;
        assert(coolify::service_unit_text() =~= x + m + y);
        stands_between(x, m, y);
    }
}

/// A file is written beside its place first, gets its mode there, and takes its place in one step.
pub proof fn files_are_written_in_one_step(path: Seq<char>, body: Seq<char>, mode: Seq<char>)
    ensures
        text::has_prefix(ssh::heredoc_text(path, body, mode), "cat > "@ + path + ".tmp <<'COOLDCTL_EOF'\n"@ + body + "COOLDCTL_EOF\n"@),
        text::has_suffix(ssh::heredoc_text(path, body, mode), "COOLDCTL_EOF\nchmod "@ + mode + " "@ + path + ".tmp && mv "@ + path + ".tmp "@ + path),
{
    assert(text::has_prefix(ssh::heredoc_text(path, body, mode), "cat > "@ + path + ".tmp <<'COOLDCTL_EOF'\n"@ + body + "COOLDCTL_EOF\n"@)) by {
        assert("COOLDCTL_EOF\nchmod "@ =~= "COOLDCTL_EOF\n"@ + "chmod "@) by {
            reveal_strlit("COOLDCTL_EOF\nchmod ");
            reveal_strlit("COOLDCTL_EOF\n");
            reveal_strlit("chmod ");
        }
        let x = Seq::<char>::empty();
        let m = "cat > "@ + path + ".tmp <<'COOLDCTL_EOF'\n"@ + body + "COOLDCTL_EOF\n"@;
        let y = "chmod "@ + mode + " "@ + path + ".tmp && mv "@ + path + ".tmp "@ + path;
        assert(ssh::heredoc_text(path, body, mode) =~= x + m + y);
        assert(x + m + y =~= m + y);
        stands_first(m, y);
    }
    assert(text::has_suffix(ssh::heredoc_text(path, body, mode), "COOLDCTL_EOF\nchmod "@ + mode + " "@ + path + ".tmp && mv "@ + path + ".tmp "@ + path)) by {
        let x = "cat > "@ + path + ".tmp <<'COOLDCTL_EOF'\n"@ + body;
        let m = "COOLDCTL_EOF\nchmod "@ + mode + " "@ + path + ".tmp && mv "@ + path + ".tmp "@ + path;
        let y = Seq::<char>::empty();
        assert(ssh::heredoc_text(path, body, mode) =~= x + m + y);
        assert(x + m + y =~= x + m);
        stands_last(x, m);
    }
}

/// The interface of the agent listens on the address of its node in the mesh, and asks for the token of the
/// node.
pub proof fn agents_listen_on_the_mesh(mgmt_ip: u32)
    ensures
        text::has_prefix(coold::api_env_text(mgmt_ip), "Environment=COOLIFY_COOLD_API_BIND="@ + net::dotted(mgmt_ip) + ":8443\n"@),
        text::has_suffix(coold::api_env_text(mgmt_ip), "\nEnvironment=COOLIFY_COOLD_API_TOKEN_FILE=/etc/coolify/api-token\n"@),
{
    assert(text::has_prefix(coold::api_env_text(mgmt_ip), "Environment=COOLIFY_COOLD_API_BIND="@ + net::dotted(mgmt_ip) + ":8443\n"@)) by {
        assert(":8443\nEnvironment=COOLIFY_COOLD_API_TOKEN_FILE=/etc/coolify/api-token\n"@ =~= ":8443\n"@ + "Environment=COOLIFY_COOLD_API_TOKEN_FILE=/etc/coolify/api-token\n"@) by {
            reveal_strlit(":8443\nEnvironment=COOLIFY_COOLD_API_TOKEN_FILE=/etc/coolify/api-token\n");
            reveal_strlit(":8443\n");
            reveal_strlit("Environment=COOLIFY_COOLD_API_TOKEN_FILE=/etc/coolify/api-token\n");
        }
        let x = Seq::<char>::empty();
        let m = "Environment=COOLIFY_COOLD_API_BIND="@ + net::dotted(mgmt_ip) + ":8443\n"@;
        let y = "Environment=COOLIFY_COOLD_API_TOKEN_FILE=/etc/coolify/api-token\n"@;
        assert(coold::api_env_text(mgmt_ip) =~= x + m + y);
        assert(x + m + y =~= m + y);
        stands_first(m, y);
    }
    assert(text::has_suffix(coold::api_env_text(mgmt_ip), "\nEnvironment=COOLIFY_COOLD_API_TOKEN_FILE=/etc/coolify/api-token\n"@)) by {
        assert(":8443\nEnvironment=COOLIFY_COOLD_API_TOKEN_FILE=/etc/coolify/api-token\n"@ =~= ":8443"@ + "\nEnvironment=COOLIFY_COOLD_API_TOKEN_FILE=/etc/coolify/api-token\n"@) by {
            reveal_strlit(":8443\nEnvironment=COOLIFY_COOLD_API_TOKEN_FILE=/etc/coolify/api-token\n");
            reveal_strlit(":8443");
            reveal_strlit("\nEnvironment=COOLIFY_COOLD_API_TOKEN_FILE=/etc/coolify/api-token\n");
        }
        let x = "Environment=COOLIFY_COOLD_API_BIND="@ + net::dotted(mgmt_ip) + ":8443"@;
        let m = "\nEnvironment=COOLIFY_COOLD_API_TOKEN_FILE=/etc/coolify/api-token\n"@;
        let y = Seq::<char>::empty();
        assert(coold::api_env_text(mgmt_ip) =~= x + m + y);
        assert(x + m + y =~= x + m);
        stands_last(x, m);
    }
}

/// The agent dials flux at its address with the token of its host.
pub proof fn agents_dial_flux_with_their_token(url: Seq<char>, jwt_path: Seq<char>)
    ensures
        text::has_prefix(coold::flux_env_text(url, jwt_path), "Environment=COOLIFY_COOLD_FLUX_URL="@ + url + "\n"@),
        text::has_suffix(coold::flux_env_text(url, jwt_path), "\nEnvironment=COOLIFY_COOLD_HOST_JWT_PATH="@ + jwt_path + "\n"@),
{
    assert(text::has_prefix(coold::flux_env_text(url, jwt_path), "Environment=COOLIFY_COOLD_FLUX_URL="@ + url + "\n"@)) by {
        assert("\nEnvironment=COOLIFY_COOLD_HOST_JWT_PATH="@ =~= "\n"@ + "Environment=COOLIFY_COOLD_HOST_JWT_PATH="@) by {
            reveal_strlit("\nEnvironment=COOLIFY_COOLD_HOST_JWT_PATH=");
            reveal_strlit("\n");
            reveal_strlit("Environment=COOLIFY_COOLD_HOST_JWT_PATH=");
        }
        let x = Seq::<char>::empty();
        let m = "Environment=COOLIFY_COOLD_FLUX_URL="@ + url + "\n"@;
        let y = "Environment=COOLIFY_COOLD_HOST_JWT_PATH="@ + jwt_path + "\n"@;
        assert(coold::flux_env_text(url, jwt_path) =~= x + m + y);
        assert(x + m + y =~= m + y);
        stands_first(m, y);
    }
    assert(text::has_suffix(coold::flux_env_text(url, jwt_path), "\nEnvironment=COOLIFY_COOLD_HOST_JWT_PATH="@ + jwt_path + "\n"@)) by {
        let x = "Environment=COOLIFY_COOLD_FLUX_URL="@ + url;
        let m = "\nEnvironment=COOLIFY_COOLD_HOST_JWT_PATH="@ + jwt_path + "\n"@;
        let y = Seq::<char>::empty();
        assert(coold::flux_env_text(url, jwt_path) =~= x + m + y);
        assert(x + m + y =~= x + m);
        stands_last(x, m);
    }
}

/// Builds are limited as they are told, and keep away from the networks that are denied to them.
pub proof fn builders_keep_their_limits(cap: u32, cpu: Seq<char>, mem: Seq<char>, timeout: u32, deny: Seq<char>)
    ensures
        text::has_text(coold::builder_env_text(cap, cpu, mem, timeout, deny), "\nEnvironment=COOLIFY_COOLD_BUILDER_CAPACITY="@ + number::decimal(cap as nat) + "\n"@),
        text::has_text(coold::builder_env_text(cap, cpu, mem, timeout, deny), "\nEnvironment=COOLIFY_COOLD_BUILDER_CPU_QUOTA="@ + cpu + "\n"@),
        text::has_text(coold::builder_env_text(cap, cpu, mem, timeout, deny), "\nEnvironment=COOLIFY_COOLD_BUILDER_MEMORY_MAX="@ + mem + "\n"@),
        text::has_text(coold::builder_env_text(cap, cpu, mem, timeout, deny), "\nEnvironment=COOLIFY_COOLD_BUILDER_TIMEOUT_SECS="@ + number::decimal(timeout as nat) + "\n"@),
        text::has_suffix(coold::builder_env_text(cap, cpu, mem, timeout, deny), "\nEnvironment=COOLIFY_COOLD_BUILDER_DENY_NETS="@ + deny + "\n"@),
{
    assert(text::has_text(coold::builder_env_text(cap, cpu, mem, timeout, deny), "\nEnvironment=COOLIFY_COOLD_BUILDER_CAPACITY="@ + number::decimal(cap as nat) + "\n"@)) by {
        assert("Environment=COOLIFY_COOLD_BUILDER_ENABLED=true\nEnvironment=COOLIFY_COOLD_BUILDER_WORK_DIR=/var/lib/coolify-builder/work\nEnvironment=COOLIFY_COOLD_BUILDER_CAPACITY="@ =~= "Environment=COOLIFY_COOLD_BUILDER_ENABLED=true\nEnvironment=COOLIFY_COOLD_BUILDER_WORK_DIR=/var/lib/coolify-builder/work"@ + "\nEnvironment=COOLIFY_COOLD_BUILDER_CAPACITY="@) by {
            reveal_strlit("Environment=COOLIFY_COOLD_BUILDER_ENABLED=true\nEnvironment=COOLIFY_COOLD_BUILDER_WORK_DIR=/var/lib/coolify-builder/work\nEnvironment=COOLIFY_COOLD_BUILDER_CAPACITY=");
            reveal_strlit("Environment=COOLIFY_COOLD_BUILDER_ENABLED=true\nEnvironment=COOLIFY_COOLD_BUILDER_WORK_DIR=/var/lib/coolify-builder/work");
            reveal_strlit("\nEnvironment=COOLIFY_COOLD_BUILDER_CAPACITY=");
        }
        assert("\nEnvironment=COOLIFY_COOLD_BUILDER_CPU_QUOTA="@ =~= "\n"@ + "Environment=COOLIFY_COOLD_BUILDER_CPU_QUOTA="@) by {
            reveal_strlit("\nEnvironment=COOLIFY_COOLD_BUILDER_CPU_QUOTA=");
            reveal_strlit("\n");
            reveal_strlit("Environment=COOLIFY_COOLD_BUILDER_CPU_QUOTA=");
        }
        let x = "Environment=COOLIFY_COOLD_BUILDER_ENABLED=true\nEnvironment=COOLIFY_COOLD_BUILDER_WORK_DIR=/var/lib/coolify-builder/work"@;
        let m = "\nEnvironment=COOLIFY_COOLD_BUILDER_CAPACITY="@ + number::decimal(cap as nat) + "\n"@;
        let y = "Environment=COOLIFY_COOLD_BUILDER_CPU_QUOTA="@ + cpu + "\nEnvironment=COOLIFY_COOLD_BUILDER_MEMORY_MAX="@ + mem + "\nEnvironment=COOLIFY_COOLD_BUILDER_TIMEOUT_SECS="@ + number::decimal(timeout as nat) + "\nEnvironment=COOLIFY_COOLD_BUILDER_BIN=/usr/local/bin/builder\nEnvironment=COOLIFY_COOLD_BUILDER_DENY_NETS="@ + deny + "\n"@;
        assert(coold::builder_env_text(cap, cpu, mem, timeout, deny) =~= x + m + y);
        stands_between(x, m, y);
    }
    assert(text::has_text(coold::builder_env_text(cap, cpu, mem, timeout, deny), "\nEnvironment=COOLIFY_COOLD_BUILDER_CPU_QUOTA="@ + cpu + "\n"@)) by {
        assert("\nEnvironment=COOLIFY_COOLD_BUILDER_MEMORY_MAX="@ =~= "\n"@ + "Environment=COOLIFY_COOLD_BUILDER_MEMORY_MAX="@) by {
            reveal_strlit("\nEnvironment=COOLIFY_COOLD_BUILDER_MEMORY_MAX=");
            reveal_strlit("\n");
            reveal_strlit("Environment=COOLIFY_COOLD_BUILDER_MEMORY_MAX=");
        }
        let x = "Environment=COOLIFY_COOLD_BUILDER_ENABLED=true\nEnvironment=COOLIFY_COOLD_BUILDER_WORK_DIR=/var/lib/coolify-builder/work\nEnvironment=COOLIFY_COOLD_BUILDER_CAPACITY="@ + number::decimal(cap as nat);
        let m = "\nEnvironment=COOLIFY_COOLD_BUILDER_CPU_QUOTA="@ + cpu + "\n"@;
        let y = "Environment=COOLIFY_COOLD_BUILDER_MEMORY_MAX="@ + mem + "\nEnvironment=COOLIFY_COOLD_BUILDER_TIMEOUT_SECS="@ + number::decimal(timeout as nat) + "\nEnvironment=COOLIFY_COOLD_BUILDER_BIN=/usr/local/bin/builder\nEnvironment=COOLIFY_COOLD_BUILDER_DENY_NETS="@ + deny + "\n"@;
        assert(coold::builder_env_text(cap, cpu, mem, timeout, deny) =~= x + m + y);
        stands_between(x, m, y);
    }
    assert(text::has_text(coold::builder_env_text(cap, cpu, mem, timeout, deny), "\nEnvironment=COOLIFY_COOLD_BUILDER_MEMORY_MAX="@ + mem + "\n"@)) by {
        assert("\nEnvironment=COOLIFY_COOLD_BUILDER_TIMEOUT_SECS="@ =~= "\n"@ + "Environment=COOLIFY_COOLD_BUILDER_TIMEOUT_SECS="@) by {
            reveal_strlit("\nEnvironment=COOLIFY_COOLD_BUILDER_TIMEOUT_SECS=");
            reveal_strlit("\n");
            reveal_strlit("Environment=COOLIFY_COOLD_BUILDER_TIMEOUT_SECS=");
        }
        let x = "Environment=COOLIFY_COOLD_BUILDER_ENABLED=true\nEnvironment=COOLIFY_COOLD_BUILDER_WORK_DIR=/var/lib/coolify-builder/work\nEnvironment=COOLIFY_COOLD_BUILDER_CAPACITY="@ + number::decimal(cap as nat) + "\nEnvironment=COOLIFY_COOLD_BUILDER_CPU_QUOTA="@ + cpu;
        let m = "\nEnvironment=COOLIFY_COOLD_BUILDER_MEMORY_MAX="@ + mem + "\n"@;
        let y = "Environment=COOLIFY_COOLD_BUILDER_TIMEOUT_SECS="@ + number::decimal(timeout as nat) + "\nEnvironment=COOLIFY_COOLD_BUILDER_BIN=/usr/local/bin/builder\nEnvironment=COOLIFY_COOLD_BUILDER_DENY_NETS="@ + deny + "\n"@;
        assert(coold::builder_env_text(cap, cpu, mem, timeout, deny) =~= x + m + y);
        stands_between(x, m, y);
    }
    assert(text::has_text(coold::builder_env_text(cap, cpu, mem, timeout, deny), "\nEnvironment=COOLIFY_COOLD_BUILDER_TIMEOUT_SECS="@ + number::decimal(timeout as nat) + "\n"@)) by {
        assert("\nEnvironment=COOLIFY_COOLD_BUILDER_BIN=/usr/local/bin/builder\nEnvironment=COOLIFY_COOLD_BUILDER_DENY_NETS="@ =~= "\n"@ + "Environment=COOLIFY_COOLD_BUILDER_BIN=/usr/local/bin/builder\nEnvironment=COOLIFY_COOLD_BUILDER_DENY_NETS="@) by {
            reveal_strlit("\nEnvironment=COOLIFY_COOLD_BUILDER_BIN=/usr/local/bin/builder\nEnvironment=COOLIFY_COOLD_BUILDER_DENY_NETS=");
            reveal_strlit("\n");
            reveal_strlit("Environment=COOLIFY_COOLD_BUILDER_BIN=/usr/local/bin/builder\nEnvironment=COOLIFY_COOLD_BUILDER_DENY_NETS=");
        }
        let x = "Environment=COOLIFY_COOLD_BUILDER_ENABLED=true\nEnvironment=COOLIFY_COOLD_BUILDER_WORK_DIR=/var/lib/coolify-builder/work\nEnvironment=COOLIFY_COOLD_BUILDER_CAPACITY="@ + number::decimal(cap as nat) + "\nEnvironment=COOLIFY_COOLD_BUILDER_CPU_QUOTA="@ + cpu + "\nEnvironment=COOLIFY_COOLD_BUILDER_MEMORY_MAX="@ + mem;
        let m = "\nEnvironment=COOLIFY_COOLD_BUILDER_TIMEOUT_SECS="@ + number::decimal(timeout as nat) + "\n"@;
        let y = "Environment=COOLIFY_COOLD_BUILDER_BIN=/usr/local/bin/builder\nEnvironment=COOLIFY_COOLD_BUILDER_DENY_NETS="@ + deny + "\n"@;
        assert(coold::builder_env_text(cap, cpu, mem, timeout, deny) =~= x + m + y);
        stands_between(x, m, y);
    }
    assert(text::has_suffix(coold::builder_env_text(cap, cpu, mem, timeout, deny), "\nEnvironment=COOLIFY_COOLD_BUILDER_DENY_NETS="@ + deny + "\n"@)) by {
        assert("\nEnvironment=COOLIFY_COOLD_BUILDER_BIN=/usr/local/bin/builder\nEnvironment=COOLIFY_COOLD_BUILDER_DENY_NETS="@ =~= "\nEnvironment=COOLIFY_COOLD_BUILDER_BIN=/usr/local/bin/builder"@ + "\nEnvironment=COOLIFY_COOLD_BUILDER_DENY_NETS="@) by {
            reveal_strlit("\nEnvironment=COOLIFY_COOLD_BUILDER_BIN=/usr/local/bin/builder\nEnvironment=COOLIFY_COOLD_BUILDER_DENY_NETS=");
            reveal_strlit("\nEnvironment=COOLIFY_COOLD_BUILDER_BIN=/usr/local/bin/builder");
            reveal_strlit("\nEnvironment=COOLIFY_COOLD_BUILDER_DENY_NETS=");
        }
        let x = "Environment=COOLIFY_COOLD_BUILDER_ENABLED=true\nEnvironment=COOLIFY_COOLD_BUILDER_WORK_DIR=/var/lib/coolify-builder/work\nEnvironment=COOLIFY_COOLD_BUILDER_CAPACITY="@ + number::decimal(cap as nat) + "\nEnvironment=COOLIFY_COOLD_BUILDER_CPU_QUOTA="@ + cpu + "\nEnvironment=COOLIFY_COOLD_BUILDER_MEMORY_MAX="@ + mem + "\nEnvironment=COOLIFY_COOLD_BUILDER_TIMEOUT_SECS="@ + number::decimal(timeout as nat) + "\nEnvironment=COOLIFY_COOLD_BUILDER_BIN=/usr/local/bin/builder"@;
        let m = "\nEnvironment=COOLIFY_COOLD_BUILDER_DENY_NETS="@ + deny + "\n"@;
        let y = Seq::<char>::empty();
        assert(coold::builder_env_text(cap, cpu, mem, timeout, deny) =~= x + m + y);
        assert(x + m + y =~= x + m);
        stands_last(x, m);
    }
}

/// The unit of the agent waits for what it needs, knows the address of its node, and holds the settings that
/// it is given before its program.
pub proof fn units_hold_their_settings(mgmt_ip: u32, ns_env: Seq<char>, api_env: Seq<char>, flux_env: Seq<char>, builder_env: Seq<char>, builder_pre: Seq<char>)
    ensures
        text::has_text(coold::assemble_unit_text(mgmt_ip, ns_env, api_env, flux_env, builder_env, builder_pre), "\nAfter=corrosion.service network-online.target podman.socket coolify-mesh-fw.service\n"@),
        text::has_text(coold::assemble_unit_text(mgmt_ip, ns_env, api_env, flux_env, builder_env, builder_pre), "\nEnvironment=COOLIFY_COOLD_HOST_MGMT_IP="@ + net::dotted(mgmt_ip) + "\n"@ + ns_env + api_env + flux_env + builder_env + builder_pre + "ExecStart=/usr/local/bin/coold\n"@),
        text::has_text(coold::assemble_unit_text(mgmt_ip, ns_env, api_env, flux_env, builder_env, builder_pre), "\nAmbientCapabilities=CAP_NET_BIND_SERVICE CAP_NET_ADMIN CAP_NET_RAW\nRestart=on-failure\n"@),
{
    assert(text::has_text(coold::assemble_unit_text(mgmt_ip, ns_env, api_env, flux_env, builder_env, builder_pre), "\nAfter=corrosion.service network-online.target podman.socket coolify-mesh-fw.service\n"@)) by {
        assert("[Unit]\nDescription=Coolify host agent\nWants=corrosion.service\nAfter=corrosion.service network-online.target podman.socket coolify-mesh-fw.service\n\n[Service]\nEnvironment=COOLIFY_COOLD_HOST_MGMT_IP="@ =~= "[Unit]\nDescription=Coolify host agent\nWants=corrosion.service"@ + "\nAfter=corrosion.service network-online.target podman.socket coolify-mesh-fw.service\n"@ + "\n[Service]\nEnvironment=COOLIFY_COOLD_HOST_MGMT_IP="@) by {
            reveal_strlit("[Unit]\nDescription=Coolify host agent\nWants=corrosion.service\nAfter=corrosion.service network-online.target podman.socket coolify-mesh-fw.service\n\n[Service]\nEnvironment=COOLIFY_COOLD_HOST_MGMT_IP=");
            reveal_strlit("[Unit]\nDescription=Coolify host agent\nWants=corrosion.service");
            reveal_strlit("\nAfter=corrosion.service network-online.target podman.socket coolify-mesh-fw.service\n");
            reveal_strlit("\n[Service]\nEnvironment=COOLIFY_COOLD_HOST_MGMT_IP=");
        }
        let x = "[Unit]\nDescription=Coolify host agent\nWants=corrosion.service"@;
        let m = "\nAfter=corrosion.service network-online.target podman.socket coolify-mesh-fw.service\n"@;
        let y = "\n[Service]\nEnvironment=COOLIFY_COOLD_HOST_MGMT_IP="@ + net::dotted(mgmt_ip) + "\n"@ + ns_env + api_env + flux_env + builder_env + builder_pre + "ExecStart=/usr/local/bin/coold\nAmbientCapabilities=CAP_NET_BIND_SERVICE CAP_NET_ADMIN CAP_NET_RAW\nRestart=on-failure\nRestartSec=2s\n\n[Install]\nWantedBy=multi-user.target\n"@;
        assert(coold::assemble_unit_text(mgmt_ip, ns_env, api_env, flux_env, builder_env, builder_pre) =~= x + m + y);
        stands_between(x, m, y);
    }
    assert(text::has_text(coold::assemble_unit_text(mgmt_ip, ns_env, api_env, flux_env, builder_env, builder_pre), "\nEnvironment=COOLIFY_COOLD_HOST_MGMT_IP="@ + net::dotted(mgmt_ip) + "\n"@ + ns_env + api_env + flux_env + builder_env + builder_pre + "ExecStart=/usr/local/bin/coold\n"@)) by {
        assert("[Unit]\nDescription=Coolify host agent\nWants=corrosion.service\nAfter=corrosion.service network-online.target podman.socket coolify-mesh-fw.service\n\n[Service]\nEnvironment=COOLIFY_COOLD_HOST_MGMT_IP="@ =~= "[Unit]\nDescription=Coolify host agent\nWants=corrosion.service\nAfter=corrosion.service network-online.target podman.socket coolify-mesh-fw.service\n\n[Service]"@ + "\nEnvironment=COOLIFY_COOLD_HOST_MGMT_IP="@) by {
            reveal_strlit("[Unit]\nDescription=Coolify host agent\nWants=corrosion.service\nAfter=corrosion.service network-online.target podman.socket coolify-mesh-fw.service\n\n[Service]\nEnvironment=COOLIFY_COOLD_HOST_MGMT_IP=");
            reveal_strlit("[Unit]\nDescription=Coolify host agent\nWants=corrosion.service\nAfter=corrosion.service network-online.target podman.socket coolify-mesh-fw.service\n\n[Service]");
            reveal_strlit("\nEnvironment=COOLIFY_COOLD_HOST_MGMT_IP=");
        }
        assert("ExecStart=/usr/local/bin/coold\nAmbientCapabilities=CAP_NET_BIND_SERVICE CAP_NET_ADMIN CAP_NET_RAW\nRestart=on-failure\nRestartSec=2s\n\n[Install]\nWantedBy=multi-user.target\n"@ =~= "ExecStart=/usr/local/bin/coold\n"@ + "AmbientCapabilities=CAP_NET_BIND_SERVICE CAP_NET_ADMIN CAP_NET_RAW\nRestart=on-failure\nRestartSec=2s\n\n[Install]\nWantedBy=multi-user.target\n"@) by {
            reveal_strlit("ExecStart=/usr/local/bin/coold\nAmbientCapabilities=CAP_NET_BIND_SERVICE CAP_NET_ADMIN CAP_NET_RAW\nRestart=on-failure\nRestartSec=2s\n\n[Install]\nWantedBy=multi-user.target\n");
            reveal_strlit("ExecStart=/usr/local/bin/coold\n");
            reveal_strlit("AmbientCapabilities=CAP_NET_BIND_SERVICE CAP_NET_ADMIN CAP_NET_RAW\nRestart=on-failure\nRestartSec=2s\n\n[Install]\nWantedBy=multi-user.target\n");
        }
        let x = "[Unit]\nDescription=Coolify host agent\nWants=corrosion.service\nAfter=corrosion.service network-online.target podman.socket coolify-mesh-fw.service\n\n[Service]"@;
        let m = "\nEnvironment=COOLIFY_COOLD_HOST_MGMT_IP="@ + net::dotted(mgmt_ip) + "\n"@ + ns_env + api_env + flux_env + builder_env + builder_pre + "ExecStart=/usr/local/bin/coold\n"@;
        let y = "AmbientCapabilities=CAP_NET_BIND_SERVICE CAP_NET_ADMIN CAP_NET_RAW\nRestart=on-failure\nRestartSec=2s\n\n[Install]\nWantedBy=multi-user.target\n"@;
        assert(coold::assemble_unit_text(mgmt_ip, ns_env, api_env, flux_env, builder_env, builder_pre) =~= x + m + y);
        stands_between(x, m, y);
    }
    assert(text::has_text(coold::assemble_unit_text(mgmt_ip, ns_env, api_env, flux_env, builder_env, builder_pre), "\nAmbientCapabilities=CAP_NET_BIND_SERVICE CAP_NET_ADMIN CAP_NET_RAW\nRestart=on-failure\n"@)) by {
        assert("ExecStart=/usr/local/bin/coold\nAmbientCapabilities=CAP_NET_BIND_SERVICE CAP_NET_ADMIN CAP_NET_RAW\nRestart=on-failure\nRestartSec=2s\n\n[Install]\nWantedBy=multi-user.target\n"@ =~= "ExecStart=/usr/local/bin/coold"@ + "\nAmbientCapabilities=CAP_NET_BIND_SERVICE CAP_NET_ADMIN CAP_NET_RAW\nRestart=on-failure\n"@ + "RestartSec=2s\n\n[Install]\nWantedBy=multi-user.target\n"@) by {
            reveal_strlit("ExecStart=/usr/local/bin/coold\nAmbientCapabilities=CAP_NET_BIND_SERVICE CAP_NET_ADMIN CAP_NET_RAW\nRestart=on-failure\nRestartSec=2s\n\n[Install]\nWantedBy=multi-user.target\n");
            reveal_strlit("ExecStart=/usr/local/bin/coold");
            reveal_strlit("\nAmbientCapabilities=CAP_NET_BIND_SERVICE CAP_NET_ADMIN CAP_NET_RAW\nRestart=on-failure\n");
            reveal_strlit("RestartSec=2s\n\n[Install]\nWantedBy=multi-user.target\n");
        }
        let x = "[Unit]\nDescription=Coolify host agent\nWants=corrosion.service\nAfter=corrosion.service network-online.target podman.socket coolify-mesh-fw.service\n\n[Service]\nEnvironment=COOLIFY_COOLD_HOST_MGMT_IP="@ + net::dotted(mgmt_ip) + "\n"@ + ns_env + api_env + flux_env + builder_env + builder_pre + "ExecStart=/usr/local/bin/coold"@;
        let m = "\nAmbientCapabilities=CAP_NET_BIND_SERVICE CAP_NET_ADMIN CAP_NET_RAW\nRestart=on-failure\n"@;
        let y = "RestartSec=2s\n\n[Install]\nWantedBy=multi-user.target\n"@;
        assert(coold::assemble_unit_text(mgmt_ip, ns_env, api_env, flux_env, builder_env, builder_pre) =~= x + m + y);
        stands_between(x, m, y);
    }
}

/// A setting that a builder is not given has its default: two builds at once, two processors, two
/// gigabytes and half an hour. A setting that it is given stands.
pub proof fn builders_have_default_limits(b: coold::BuilderConfig)
    ensures
        coold::builder_part(Some(b)) == coold::builder_env_text(
            if b.capacity > 0 {
                b.capacity
            } else {
                2
            },
            if b.cpu_quota@.len() > 0 {
                b.cpu_quota@
            } else {
                "200%"@
            },
            if b.memory_max@.len() > 0 {
                b.memory_max@
            } else {
                "2G"@
            },
            if b.timeout_secs > 0 {
                b.timeout_secs
            } else {
                1800
            },
            crate::split::joined(text::views(b.deny_nets@), ","@),
        ),
        coold::builder_part(None).len() == 0,
{
}

/// The unit of an agent holds the address of flux if and only if it is given one, and the limits of
/// the builder if and only if it builds.
pub proof fn agents_are_told_what_they_are_given(
    mgmt_ip: u32,
    namespaces: Seq<agent::CooldNamespaceView>,
    f: coold::FluxConfig,
    b: coold::BuilderConfig,
)
    ensures
        ({
            let ns = if namespaces.len() == 0 {
                Seq::empty()
            } else {
                agent::ns_env_text(agent::namespaces_env_value_text(namespaces))
            };
            let api = coold::api_env_text(mgmt_ip);
            let dial = coold::flux_env_text(f.url@, f.jwt_path@);
            let limits = coold::builder_part(Some(b));
            let none = Seq::<char>::empty();
            let dir = "ExecStartPre=/bin/mkdir -p /var/lib/coolify-builder/work\n"@;
            &&& coold::service_unit_text(mgmt_ip, namespaces, None, None)
                == coold::assemble_unit_text(mgmt_ip, ns, api, none, none, none)
            &&& coold::service_unit_text(mgmt_ip, namespaces, Some(f), None)
                == coold::assemble_unit_text(mgmt_ip, ns, api, dial, none, none)
            &&& coold::service_unit_text(mgmt_ip, namespaces, None, Some(b))
                == coold::assemble_unit_text(mgmt_ip, ns, api, none, limits, dir)
            &&& coold::service_unit_text(mgmt_ip, namespaces, Some(f), Some(b))
                == coold::assemble_unit_text(mgmt_ip, ns, api, dial, limits, dir)
        }),
{
}

} // verus!
