//! What the commands and the files that go to the hosts say.

use vstd::prelude::*;
use crate::cli::apply as cluster;
use crate::cli::checksum;
use crate::cli::config;
use crate::cli::coold;
use crate::cli::coold::CooldNamespaceView;
use crate::cli::corrosion;
use crate::cli::corrosion::CorrosionFiles;
use crate::cli::firewall;
use crate::cli::reconstruct;
use crate::cli::ssh;
use crate::keyed;
use crate::mesh::apply;
use crate::mesh::state::FluxView;
use crate::net;
use crate::number;
use crate::split;
use crate::text;

verus! {

/// A part of a text stands in it.
pub proof fn stands_between(x: Seq<char>, m: Seq<char>, y: Seq<char>)
    ensures
        text::has_text(x + m + y, m),
{
    assert((x + m + y).subrange(x.len() as int, (x.len() + m.len()) as int) =~= m);
    assert(text::stands_at(x + m + y, m, x.len() as int));
}

/// A text begins with its first part.
pub proof fn stands_first(m: Seq<char>, y: Seq<char>)
    ensures
        text::has_prefix(m + y, m),
{
    assert((m + y).subrange(0, m.len() as int) =~= m);
}

/// A text ends with its last part.
pub proof fn stands_last(x: Seq<char>, m: Seq<char>)
    ensures
        text::has_suffix(x + m, m),
{
    assert((x + m).subrange(x.len() as int, (x + m).len() as int) =~= m);
}

/// What stands in a part of a text stands in it.
pub proof fn stands_inside(x: Seq<char>, m: Seq<char>, y: Seq<char>, p: Seq<char>)
    requires
        text::has_text(m, p),
    ensures
        text::has_text(x + m + y, p),
{
    let i = choose|i: int| text::stands_at(m, p, i);
    let s = x + m + y;
    let k = x.len() + i;
    assert(s.subrange(k, k + p.len()) =~= m.subrange(i, i + p.len()));
    assert(text::stands_at(s, p, k));
}

/// A file is written beside its place first, gets its mode there, and takes its place in one step.
pub proof fn files_are_written_in_one_step(path: Seq<char>, body: Seq<char>, mode: Seq<char>)
    ensures
        text::has_prefix(ssh::heredoc_text(path, body, mode), "cat > "@ + path + ".tmp <<'COOLIFY_CLI_EOF'\n"@ + body + "COOLIFY_CLI_EOF\n"@),
        text::has_suffix(ssh::heredoc_text(path, body, mode), "COOLIFY_CLI_EOF\nchmod "@ + mode + " "@ + path + ".tmp && mv "@ + path + ".tmp "@ + path),
{
    assert(text::has_prefix(ssh::heredoc_text(path, body, mode), "cat > "@ + path + ".tmp <<'COOLIFY_CLI_EOF'\n"@ + body + "COOLIFY_CLI_EOF\n"@)) by {
        assert("COOLIFY_CLI_EOF\nchmod "@ =~= "COOLIFY_CLI_EOF\n"@ + "chmod "@) by {
            reveal_strlit("COOLIFY_CLI_EOF\nchmod ");
            reveal_strlit("COOLIFY_CLI_EOF\n");
            reveal_strlit("chmod ");
        }
        let x = Seq::<char>::empty();
        let m = "cat > "@ + path + ".tmp <<'COOLIFY_CLI_EOF'\n"@ + body + "COOLIFY_CLI_EOF\n"@;
        let y = "chmod "@ + mode + " "@ + path + ".tmp && mv "@ + path + ".tmp "@ + path;
        assert(ssh::heredoc_text(path, body, mode) =~= x + m + y);
        assert(x + m + y =~= m + y);
        stands_first(m, y);
    }
    assert(text::has_suffix(ssh::heredoc_text(path, body, mode), "COOLIFY_CLI_EOF\nchmod "@ + mode + " "@ + path + ".tmp && mv "@ + path + ".tmp "@ + path)) by {
        let x = "cat > "@ + path + ".tmp <<'COOLIFY_CLI_EOF'\n"@ + body;
        let m = "COOLIFY_CLI_EOF\nchmod "@ + mode + " "@ + path + ".tmp && mv "@ + path + ".tmp "@ + path;
        let y = Seq::<char>::empty();
        assert(ssh::heredoc_text(path, body, mode) =~= x + m + y);
        assert(x + m + y =~= x + m);
        stands_last(x, m);
    }
}

/// A private key is made by WireGuard, is at no time readable by others, and the public key is that of
/// the private key.
pub proof fn private_keys_stay_private()
    ensures
        text::has_text(config::genkey_command_text(), "(umask 077; wg genkey | tee /etc/wireguard/privatekey | wg pubkey | tee /etc/wireguard/publickey)"@),
        text::has_suffix(config::genkey_command_text(), "chmod 600 /etc/wireguard/privatekey"@),
{
    assert(text::has_text(config::genkey_command_text(), "(umask 077; wg genkey | tee /etc/wireguard/privatekey | wg pubkey | tee /etc/wireguard/publickey)"@)) by {
        assert("mkdir -p /etc/wireguard && (umask 077; wg genkey | tee /etc/wireguard/privatekey | wg pubkey | tee /etc/wireguard/publickey) && chmod 600 /etc/wireguard/privatekey"@ =~= "mkdir -p /etc/wireguard && "@ + "(umask 077; wg genkey | tee /etc/wireguard/privatekey | wg pubkey | tee /etc/wireguard/publickey)"@ + " && chmod 600 /etc/wireguard/privatekey"@) by {
            reveal_strlit("mkdir -p /etc/wireguard && (umask 077; wg genkey | tee /etc/wireguard/privatekey | wg pubkey | tee /etc/wireguard/publickey) && chmod 600 /etc/wireguard/privatekey");
            reveal_strlit("mkdir -p /etc/wireguard && ");
            reveal_strlit("(umask 077; wg genkey | tee /etc/wireguard/privatekey | wg pubkey | tee /etc/wireguard/publickey)");
            reveal_strlit(" && chmod 600 /etc/wireguard/privatekey");
        }
        let x = "mkdir -p /etc/wireguard && "@;
        let m = "(umask 077; wg genkey | tee /etc/wireguard/privatekey | wg pubkey | tee /etc/wireguard/publickey)"@;
        let y = " && chmod 600 /etc/wireguard/privatekey"@;
        assert(config::genkey_command_text() =~= x + m + y);
        stands_between(x, m, y);
    }
    assert(text::has_suffix(config::genkey_command_text(), "chmod 600 /etc/wireguard/privatekey"@)) by {
        assert("mkdir -p /etc/wireguard && (umask 077; wg genkey | tee /etc/wireguard/privatekey | wg pubkey | tee /etc/wireguard/publickey) && chmod 600 /etc/wireguard/privatekey"@ =~= "mkdir -p /etc/wireguard && (umask 077; wg genkey | tee /etc/wireguard/privatekey | wg pubkey | tee /etc/wireguard/publickey) && "@ + "chmod 600 /etc/wireguard/privatekey"@) by {
            reveal_strlit("mkdir -p /etc/wireguard && (umask 077; wg genkey | tee /etc/wireguard/privatekey | wg pubkey | tee /etc/wireguard/publickey) && chmod 600 /etc/wireguard/privatekey");
            reveal_strlit("mkdir -p /etc/wireguard && (umask 077; wg genkey | tee /etc/wireguard/privatekey | wg pubkey | tee /etc/wireguard/publickey) && ");
            reveal_strlit("chmod 600 /etc/wireguard/privatekey");
        }
        let x = "mkdir -p /etc/wireguard && (umask 077; wg genkey | tee /etc/wireguard/privatekey | wg pubkey | tee /etc/wireguard/publickey) && "@;
        let m = "chmod 600 /etc/wireguard/privatekey"@;
        let y = Seq::<char>::empty();
        assert(config::genkey_command_text() =~= x + m + y);
        assert(x + m + y =~= x + m);
        stands_last(x, m);
    }
}

/// A configuration is readable by its owner alone before it takes the place of the interface.
pub proof fn configurations_take_their_place_in_one_step(iface: Seq<char>)
    ensures
        text::has_prefix(config::move_config_text(iface), "} > /etc/wireguard/"@ + iface + ".conf.tmp && chmod 600 /etc/wireguard/"@ + iface + ".conf.tmp && mv /etc/wireguard/"@ + iface + ".conf.tmp /etc/wireguard/"@ + iface + ".conf"@),
{
    assert(text::has_prefix(config::move_config_text(iface), "} > /etc/wireguard/"@ + iface + ".conf.tmp && chmod 600 /etc/wireguard/"@ + iface + ".conf.tmp && mv /etc/wireguard/"@ + iface + ".conf.tmp /etc/wireguard/"@ + iface + ".conf"@)) by {
        let x = Seq::<char>::empty();
        let m = "} > /etc/wireguard/"@ + iface + ".conf.tmp && chmod 600 /etc/wireguard/"@ + iface + ".conf.tmp && mv /etc/wireguard/"@ + iface + ".conf.tmp /etc/wireguard/"@ + iface + ".conf"@;
        let y = Seq::<char>::empty();
        assert(config::move_config_text(iface) =~= x + m + y);
        assert(x + m + y =~= m + y);
        stands_first(m, y);
    }
}

/// An interface that is down is enabled and started; one that is up is restarted, or takes up its new
/// configuration where that fails.
pub proof fn interfaces_are_started_and_restarted(iface: Seq<char>)
    ensures
        text::has_prefix(apply::restart_interface_text(iface), "systemctl restart wg-quick@"@ + iface + " "@),
        text::has_text(apply::restart_interface_text(iface), " || wg syncconf "@ + iface + " <(wg-quick strip "@ + iface + ")"@),
        text::has_prefix(apply::start_interface_text(iface), "systemctl enable --now wg-quick@"@ + iface + " "@),
{
    assert(text::has_prefix(apply::restart_interface_text(iface), "systemctl restart wg-quick@"@ + iface + " "@)) by {
        assert(" 2>&1 || wg syncconf "@ =~= " "@ + "2>&1 || wg syncconf "@) by {
            reveal_strlit(" 2>&1 || wg syncconf ");
            reveal_strlit(" ");
            reveal_strlit("2>&1 || wg syncconf ");
        }
        let x = Seq::<char>::empty();
        let m = "systemctl restart wg-quick@"@ + iface + " "@;
        let y = "2>&1 || wg syncconf "@ + iface + " <(wg-quick strip "@ + iface + ") 2>&1"@;
        assert(apply::restart_interface_text(iface) =~= x + m + y);
        assert(x + m + y =~= m + y);
        stands_first(m, y);
    }
    assert(text::has_text(apply::restart_interface_text(iface), " || wg syncconf "@ + iface + " <(wg-quick strip "@ + iface + ")"@)) by {
        assert(" 2>&1 || wg syncconf "@ =~= " 2>&1"@ + " || wg syncconf "@) by {
            reveal_strlit(" 2>&1 || wg syncconf ");
            reveal_strlit(" 2>&1");
            reveal_strlit(" || wg syncconf ");
        }
        assert(") 2>&1"@ =~= ")"@ + " 2>&1"@) by {
            reveal_strlit(") 2>&1");
            reveal_strlit(")");
            reveal_strlit(" 2>&1");
        }
        let x = "systemctl restart wg-quick@"@ + iface + " 2>&1"@;
        let m = " || wg syncconf "@ + iface + " <(wg-quick strip "@ + iface + ")"@;
        let y = " 2>&1"@;
        assert(apply::restart_interface_text(iface) =~= x + m + y);
        stands_between(x, m, y);
    }
    assert(text::has_prefix(apply::start_interface_text(iface), "systemctl enable --now wg-quick@"@ + iface + " "@)) by {
        assert(" 2>&1"@ =~= " "@ + "2>&1"@) by {
            reveal_strlit(" 2>&1");
            reveal_strlit(" ");
            reveal_strlit("2>&1");
        }
        let x = Seq::<char>::empty();
        let m = "systemctl enable --now wg-quick@"@ + iface + " "@;
        let y = "2>&1"@;
        assert(apply::start_interface_text(iface) =~= x + m + y);
        assert(x + m + y =~= m + y);
        stands_first(m, y);
    }
}

/// An artifact whose digest is not the pinned one is not installed.
pub proof fn pinned_digests_are_enforced(tarball: Seq<char>, artifact: Seq<char>, digest: Seq<char>)
    ensures
        text::has_text(checksum::pinned_text(tarball, artifact, digest), "'"@ + digest + "' \""@ + tarball + "\" | sha256sum -c - >/dev/null 2>&1 || {"@),
        text::has_suffix(checksum::pinned_text(tarball, artifact, digest), "exit 1; }"@),
{
    assert(text::has_text(checksum::pinned_text(tarball, artifact, digest), "'"@ + digest + "' \""@ + tarball + "\" | sha256sum -c - >/dev/null 2>&1 || {"@)) by {
        assert("printf '%s  %s\\n' '"@ =~= "printf '%s  %s\\n' "@ + "'"@) by {
            reveal_strlit("printf '%s  %s\\n' '");
            reveal_strlit("printf '%s  %s\\n' ");
            reveal_strlit("'");
        }
        assert("\" | sha256sum -c - >/dev/null 2>&1 || { echo \""@ =~= "\" | sha256sum -c - >/dev/null 2>&1 || {"@ + " echo \""@) by {
            reveal_strlit("\" | sha256sum -c - >/dev/null 2>&1 || { echo \"");
            reveal_strlit("\" | sha256sum -c - >/dev/null 2>&1 || {");
            reveal_strlit(" echo \"");
        }
        let x = "printf '%s  %s\\n' "@;
        let m = "'"@ + digest + "' \""@ + tarball + "\" | sha256sum -c - >/dev/null 2>&1 || {"@;
        let y = " echo \""@ + artifact + ": sha256 mismatch (expected pinned "@ + digest + ")\" >&2; exit 1; }"@;
        assert(checksum::pinned_text(tarball, artifact, digest) =~= x + m + y);
        stands_between(x, m, y);
    }
    assert(text::has_suffix(checksum::pinned_text(tarball, artifact, digest), "exit 1; }"@)) by {
        assert(")\" >&2; exit 1; }"@ =~= ")\" >&2; "@ + "exit 1; }"@) by {
            reveal_strlit(")\" >&2; exit 1; }");
            reveal_strlit(")\" >&2; ");
            reveal_strlit("exit 1; }");
        }
        let x = "printf '%s  %s\\n' '"@ + digest + "' \""@ + tarball + "\" | sha256sum -c - >/dev/null 2>&1 || { echo \""@ + artifact + ": sha256 mismatch (expected pinned "@ + digest + ")\" >&2; "@;
        let m = "exit 1; }"@;
        let y = Seq::<char>::empty();
        assert(checksum::pinned_text(tarball, artifact, digest) =~= x + m + y);
        assert(x + m + y =~= x + m);
        stands_last(x, m);
    }
}

/// An artifact is checked against the digest that is published beside it, where one is, and is not
/// installed where it differs.
pub proof fn published_digests_are_checked(tarball: Seq<char>, url: Seq<char>, artifact: Seq<char>)
    ensures
        text::has_prefix(checksum::published_text(tarball, url, artifact), "if curl -fsSL --retry 3 --max-time 60 -o \""@ + tarball + ".sha256\" \""@ + url + ".sha256\" 2>/dev/null; then "@),
        text::has_text(checksum::published_text(tarball, url, artifact), "\"$(awk '{print $1}' \""@ + tarball + ".sha256\")\" \""@ + tarball + "\" | sha256sum -c - >/dev/null 2>&1 || {"@),
        text::has_text(checksum::published_text(tarball, url, artifact), "exit 1; }; else"@),
{
    assert(text::has_prefix(checksum::published_text(tarball, url, artifact), "if curl -fsSL --retry 3 --max-time 60 -o \""@ + tarball + ".sha256\" \""@ + url + ".sha256\" 2>/dev/null; then "@)) by {
        assert(".sha256\" 2>/dev/null; then printf '%s  %s\\n' \"$(awk '{print $1}' \""@ =~= ".sha256\" 2>/dev/null; then "@ + "printf '%s  %s\\n' \"$(awk '{print $1}' \""@) by {
            reveal_strlit(".sha256\" 2>/dev/null; then printf '%s  %s\\n' \"$(awk '{print $1}' \"");
            reveal_strlit(".sha256\" 2>/dev/null; then ");
            reveal_strlit("printf '%s  %s\\n' \"$(awk '{print $1}' \"");
        }
        let x = Seq::<char>::empty();
        let m = "if curl -fsSL --retry 3 --max-time 60 -o \""@ + tarball + ".sha256\" \""@ + url + ".sha256\" 2>/dev/null; then "@;
        let y = "printf '%s  %s\\n' \"$(awk '{print $1}' \""@ + tarball + ".sha256\")\" \""@ + tarball + "\" | sha256sum -c - >/dev/null 2>&1 || { echo \""@ + artifact + ": sha256 mismatch vs published checksum\" >&2; exit 1; }; else echo \""@ + artifact + ": no published sha256 to verify against; proceeding (pin one to enforce)\" >&2; fi"@;
        assert(checksum::published_text(tarball, url, artifact) =~= x + m + y);
        assert(x + m + y =~= m + y);
        stands_first(m, y);
    }
    assert(text::has_text(checksum::published_text(tarball, url, artifact), "\"$(awk '{print $1}' \""@ + tarball + ".sha256\")\" \""@ + tarball + "\" | sha256sum -c - >/dev/null 2>&1 || {"@)) by {
        assert(".sha256\" 2>/dev/null; then printf '%s  %s\\n' \"$(awk '{print $1}' \""@ =~= ".sha256\" 2>/dev/null; then printf '%s  %s\\n' "@ + "\"$(awk '{print $1}' \""@) by {
            reveal_strlit(".sha256\" 2>/dev/null; then printf '%s  %s\\n' \"$(awk '{print $1}' \"");
            reveal_strlit(".sha256\" 2>/dev/null; then printf '%s  %s\\n' ");
            reveal_strlit("\"$(awk '{print $1}' \"");
        }
        assert("\" | sha256sum -c - >/dev/null 2>&1 || { echo \""@ =~= "\" | sha256sum -c - >/dev/null 2>&1 || {"@ + " echo \""@) by {
            reveal_strlit("\" | sha256sum -c - >/dev/null 2>&1 || { echo \"");
            reveal_strlit("\" | sha256sum -c - >/dev/null 2>&1 || {");
            reveal_strlit(" echo \"");
        }
        let x = "if curl -fsSL --retry 3 --max-time 60 -o \""@ + tarball + ".sha256\" \""@ + url + ".sha256\" 2>/dev/null; then printf '%s  %s\\n' "@;
        let m = "\"$(awk '{print $1}' \""@ + tarball + ".sha256\")\" \""@ + tarball + "\" | sha256sum -c - >/dev/null 2>&1 || {"@;
        let y = " echo \""@ + artifact + ": sha256 mismatch vs published checksum\" >&2; exit 1; }; else echo \""@ + artifact + ": no published sha256 to verify against; proceeding (pin one to enforce)\" >&2; fi"@;
        assert(checksum::published_text(tarball, url, artifact) =~= x + m + y);
        stands_between(x, m, y);
    }
    assert(text::has_text(checksum::published_text(tarball, url, artifact), "exit 1; }; else"@)) by {
        assert(": sha256 mismatch vs published checksum\" >&2; exit 1; }; else echo \""@ =~= ": sha256 mismatch vs published checksum\" >&2; "@ + "exit 1; }; else"@ + " echo \""@) by {
            reveal_strlit(": sha256 mismatch vs published checksum\" >&2; exit 1; }; else echo \"");
            reveal_strlit(": sha256 mismatch vs published checksum\" >&2; ");
            reveal_strlit("exit 1; }; else");
            reveal_strlit(" echo \"");
        }
        let x = "if curl -fsSL --retry 3 --max-time 60 -o \""@ + tarball + ".sha256\" \""@ + url + ".sha256\" 2>/dev/null; then printf '%s  %s\\n' \"$(awk '{print $1}' \""@ + tarball + ".sha256\")\" \""@ + tarball + "\" | sha256sum -c - >/dev/null 2>&1 || { echo \""@ + artifact + ": sha256 mismatch vs published checksum\" >&2; "@;
        let m = "exit 1; }; else"@;
        let y = " echo \""@ + artifact + ": no published sha256 to verify against; proceeding (pin one to enforce)\" >&2; fi"@;
        assert(checksum::published_text(tarball, url, artifact) =~= x + m + y);
        stands_between(x, m, y);
    }
}

/// The release of coold that is asked for is fetched, checked, and only then unpacked and put in its
/// place, and its version is noted down where the probe reads it.
pub proof fn coold_is_checked_before_it_is_installed(version: Seq<char>, verify: Seq<char>)
    ensures
        text::has_prefix(coold::install_script_text(version, verify), "set -e\n"@),
        text::has_text(coold::install_script_text(version, verify), "/releases/download/"@ + version + "/coold-linux-${ARCH}.tar.gz\"\n"@),
        text::has_text(coold::install_script_text(version, verify), "curl -fsSL --retry 3 --max-time 120 -o \"$DLDIR/coold.tar.gz\" \"$URL\"\n"@ + verify + "\ntar -xzf \"$DLDIR/coold.tar.gz\" -C \"$DLDIR\"\n"@),
        text::has_text(coold::install_script_text(version, verify), "mv /usr/local/bin/coold.tmp /usr/local/bin/coold\n"@),
        text::has_suffix(coold::install_script_text(version, verify), "echo '"@ + version + "' > /usr/local/bin/coold.version"@),
{
    assert(text::has_prefix(coold::install_script_text(version, verify), "set -e\n"@)) by {
        assert("set -e\nDEBIAN_FRONTEND=noninteractive apt-get update -qq 2>/dev/null\nDEBIAN_FRONTEND=noninteractive apt-get install -y -o Dpkg::Options::=\"--force-confold\" ca-certificates curl tar 2>&1 >/dev/null\nARCH_RAW=$(uname -m)\ncase \"$ARCH_RAW\" in\n  x86_64)  ARCH=amd64 ;;\n  aarch64) ARCH=arm64 ;;\n  *) echo \"unsupported arch: $ARCH_RAW\" >&2; exit 1 ;;\nesac\nURL=\"https://github.com/coollabsio/coold/releases/download/"@ =~= "set -e\n"@ + "DEBIAN_FRONTEND=noninteractive apt-get update -qq 2>/dev/null\nDEBIAN_FRONTEND=noninteractive apt-get install -y -o Dpkg::Options::=\"--force-confold\" ca-certificates curl tar 2>&1 >/dev/null\nARCH_RAW=$(uname -m)\ncase \"$ARCH_RAW\" in\n  x86_64)  ARCH=amd64 ;;\n  aarch64) ARCH=arm64 ;;\n  *) echo \"unsupported arch: $ARCH_RAW\" >&2; exit 1 ;;\nesac\nURL=\"https://github.com/coollabsio/coold/releases/download/"@) by {
            reveal_strlit("set -e\nDEBIAN_FRONTEND=noninteractive apt-get update -qq 2>/dev/null\nDEBIAN_FRONTEND=noninteractive apt-get install -y -o Dpkg::Options::=\"--force-confold\" ca-certificates curl tar 2>&1 >/dev/null\nARCH_RAW=$(uname -m)\ncase \"$ARCH_RAW\" in\n  x86_64)  ARCH=amd64 ;;\n  aarch64) ARCH=arm64 ;;\n  *) echo \"unsupported arch: $ARCH_RAW\" >&2; exit 1 ;;\nesac\nURL=\"https://github.com/coollabsio/coold/releases/download/");
            reveal_strlit("set -e\n");
            reveal_strlit("DEBIAN_FRONTEND=noninteractive apt-get update -qq 2>/dev/null\nDEBIAN_FRONTEND=noninteractive apt-get install -y -o Dpkg::Options::=\"--force-confold\" ca-certificates curl tar 2>&1 >/dev/null\nARCH_RAW=$(uname -m)\ncase \"$ARCH_RAW\" in\n  x86_64)  ARCH=amd64 ;;\n  aarch64) ARCH=arm64 ;;\n  *) echo \"unsupported arch: $ARCH_RAW\" >&2; exit 1 ;;\nesac\nURL=\"https://github.com/coollabsio/coold/releases/download/");
        }
        let x = Seq::<char>::empty();
        let m = "set -e\n"@;
        let y = "DEBIAN_FRONTEND=noninteractive apt-get update -qq 2>/dev/null\nDEBIAN_FRONTEND=noninteractive apt-get install -y -o Dpkg::Options::=\"--force-confold\" ca-certificates curl tar 2>&1 >/dev/null\nARCH_RAW=$(uname -m)\ncase \"$ARCH_RAW\" in\n  x86_64)  ARCH=amd64 ;;\n  aarch64) ARCH=arm64 ;;\n  *) echo \"unsupported arch: $ARCH_RAW\" >&2; exit 1 ;;\nesac\nURL=\"https://github.com/coollabsio/coold/releases/download/"@ + version + "/coold-linux-${ARCH}.tar.gz\"\nDLDIR=$(mktemp -d)\ntrap 'rm -rf \"$DLDIR\"' EXIT\ncurl -fsSL --retry 3 --max-time 120 -o \"$DLDIR/coold.tar.gz\" \"$URL\"\n"@ + verify + "\ntar -xzf \"$DLDIR/coold.tar.gz\" -C \"$DLDIR\"\ntest -f \"$DLDIR/coold\" || { echo \"coold binary not found in tarball\" >&2; exit 1; }\ninstall -m 0755 \"$DLDIR/coold\" /usr/local/bin/coold.tmp\nmv /usr/local/bin/coold.tmp /usr/local/bin/coold\necho '"@ + version + "' > /usr/local/bin/coold.version"@;
        assert(coold::install_script_text(version, verify) =~= x + m + y);
        assert(x + m + y =~= m + y);
        stands_first(m, y);
    }
    assert(text::has_text(coold::install_script_text(version, verify), "/releases/download/"@ + version + "/coold-linux-${ARCH}.tar.gz\"\n"@)) by {
        assert("set -e\nDEBIAN_FRONTEND=noninteractive apt-get update -qq 2>/dev/null\nDEBIAN_FRONTEND=noninteractive apt-get install -y -o Dpkg::Options::=\"--force-confold\" ca-certificates curl tar 2>&1 >/dev/null\nARCH_RAW=$(uname -m)\ncase \"$ARCH_RAW\" in\n  x86_64)  ARCH=amd64 ;;\n  aarch64) ARCH=arm64 ;;\n  *) echo \"unsupported arch: $ARCH_RAW\" >&2; exit 1 ;;\nesac\nURL=\"https://github.com/coollabsio/coold/releases/download/"@ =~= "set -e\nDEBIAN_FRONTEND=noninteractive apt-get update -qq 2>/dev/null\nDEBIAN_FRONTEND=noninteractive apt-get install -y -o Dpkg::Options::=\"--force-confold\" ca-certificates curl tar 2>&1 >/dev/null\nARCH_RAW=$(uname -m)\ncase \"$ARCH_RAW\" in\n  x86_64)  ARCH=amd64 ;;\n  aarch64) ARCH=arm64 ;;\n  *) echo \"unsupported arch: $ARCH_RAW\" >&2; exit 1 ;;\nesac\nURL=\"https://github.com/coollabsio/coold"@ + "/releases/download/"@) by {
            reveal_strlit("set -e\nDEBIAN_FRONTEND=noninteractive apt-get update -qq 2>/dev/null\nDEBIAN_FRONTEND=noninteractive apt-get install -y -o Dpkg::Options::=\"--force-confold\" ca-certificates curl tar 2>&1 >/dev/null\nARCH_RAW=$(uname -m)\ncase \"$ARCH_RAW\" in\n  x86_64)  ARCH=amd64 ;;\n  aarch64) ARCH=arm64 ;;\n  *) echo \"unsupported arch: $ARCH_RAW\" >&2; exit 1 ;;\nesac\nURL=\"https://github.com/coollabsio/coold/releases/download/");
            reveal_strlit("set -e\nDEBIAN_FRONTEND=noninteractive apt-get update -qq 2>/dev/null\nDEBIAN_FRONTEND=noninteractive apt-get install -y -o Dpkg::Options::=\"--force-confold\" ca-certificates curl tar 2>&1 >/dev/null\nARCH_RAW=$(uname -m)\ncase \"$ARCH_RAW\" in\n  x86_64)  ARCH=amd64 ;;\n  aarch64) ARCH=arm64 ;;\n  *) echo \"unsupported arch: $ARCH_RAW\" >&2; exit 1 ;;\nesac\nURL=\"https://github.com/coollabsio/coold");
            reveal_strlit("/releases/download/");
        }
        assert("/coold-linux-${ARCH}.tar.gz\"\nDLDIR=$(mktemp -d)\ntrap 'rm -rf \"$DLDIR\"' EXIT\ncurl -fsSL --retry 3 --max-time 120 -o \"$DLDIR/coold.tar.gz\" \"$URL\"\n"@ =~= "/coold-linux-${ARCH}.tar.gz\"\n"@ + "DLDIR=$(mktemp -d)\ntrap 'rm -rf \"$DLDIR\"' EXIT\ncurl -fsSL --retry 3 --max-time 120 -o \"$DLDIR/coold.tar.gz\" \"$URL\"\n"@) by {
            reveal_strlit("/coold-linux-${ARCH}.tar.gz\"\nDLDIR=$(mktemp -d)\ntrap 'rm -rf \"$DLDIR\"' EXIT\ncurl -fsSL --retry 3 --max-time 120 -o \"$DLDIR/coold.tar.gz\" \"$URL\"\n");
            reveal_strlit("/coold-linux-${ARCH}.tar.gz\"\n");
            reveal_strlit("DLDIR=$(mktemp -d)\ntrap 'rm -rf \"$DLDIR\"' EXIT\ncurl -fsSL --retry 3 --max-time 120 -o \"$DLDIR/coold.tar.gz\" \"$URL\"\n");
        }
        let x = "set -e\nDEBIAN_FRONTEND=noninteractive apt-get update -qq 2>/dev/null\nDEBIAN_FRONTEND=noninteractive apt-get install -y -o Dpkg::Options::=\"--force-confold\" ca-certificates curl tar 2>&1 >/dev/null\nARCH_RAW=$(uname -m)\ncase \"$ARCH_RAW\" in\n  x86_64)  ARCH=amd64 ;;\n  aarch64) ARCH=arm64 ;;\n  *) echo \"unsupported arch: $ARCH_RAW\" >&2; exit 1 ;;\nesac\nURL=\"https://github.com/coollabsio/coold"@;
        let m = "/releases/download/"@ + version + "/coold-linux-${ARCH}.tar.gz\"\n"@;
        let y = "DLDIR=$(mktemp -d)\ntrap 'rm -rf \"$DLDIR\"' EXIT\ncurl -fsSL --retry 3 --max-time 120 -o \"$DLDIR/coold.tar.gz\" \"$URL\"\n"@ + verify + "\ntar -xzf \"$DLDIR/coold.tar.gz\" -C \"$DLDIR\"\ntest -f \"$DLDIR/coold\" || { echo \"coold binary not found in tarball\" >&2; exit 1; }\ninstall -m 0755 \"$DLDIR/coold\" /usr/local/bin/coold.tmp\nmv /usr/local/bin/coold.tmp /usr/local/bin/coold\necho '"@ + version + "' > /usr/local/bin/coold.version"@;
        assert(coold::install_script_text(version, verify) =~= x + m + y);
        stands_between(x, m, y);
    }
    assert(text::has_text(coold::install_script_text(version, verify), "curl -fsSL --retry 3 --max-time 120 -o \"$DLDIR/coold.tar.gz\" \"$URL\"\n"@ + verify + "\ntar -xzf \"$DLDIR/coold.tar.gz\" -C \"$DLDIR\"\n"@)) by {
        assert("/coold-linux-${ARCH}.tar.gz\"\nDLDIR=$(mktemp -d)\ntrap 'rm -rf \"$DLDIR\"' EXIT\ncurl -fsSL --retry 3 --max-time 120 -o \"$DLDIR/coold.tar.gz\" \"$URL\"\n"@ =~= "/coold-linux-${ARCH}.tar.gz\"\nDLDIR=$(mktemp -d)\ntrap 'rm -rf \"$DLDIR\"' EXIT\n"@ + "curl -fsSL --retry 3 --max-time 120 -o \"$DLDIR/coold.tar.gz\" \"$URL\"\n"@) by {
            reveal_strlit("/coold-linux-${ARCH}.tar.gz\"\nDLDIR=$(mktemp -d)\ntrap 'rm -rf \"$DLDIR\"' EXIT\ncurl -fsSL --retry 3 --max-time 120 -o \"$DLDIR/coold.tar.gz\" \"$URL\"\n");
            reveal_strlit("/coold-linux-${ARCH}.tar.gz\"\nDLDIR=$(mktemp -d)\ntrap 'rm -rf \"$DLDIR\"' EXIT\n");
            reveal_strlit("curl -fsSL --retry 3 --max-time 120 -o \"$DLDIR/coold.tar.gz\" \"$URL\"\n");
        }
        assert("\ntar -xzf \"$DLDIR/coold.tar.gz\" -C \"$DLDIR\"\ntest -f \"$DLDIR/coold\" || { echo \"coold binary not found in tarball\" >&2; exit 1; }\ninstall -m 0755 \"$DLDIR/coold\" /usr/local/bin/coold.tmp\nmv /usr/local/bin/coold.tmp /usr/local/bin/coold\necho '"@ =~= "\ntar -xzf \"$DLDIR/coold.tar.gz\" -C \"$DLDIR\"\n"@ + "test -f \"$DLDIR/coold\" || { echo \"coold binary not found in tarball\" >&2; exit 1; }\ninstall -m 0755 \"$DLDIR/coold\" /usr/local/bin/coold.tmp\nmv /usr/local/bin/coold.tmp /usr/local/bin/coold\necho '"@) by {
            reveal_strlit("\ntar -xzf \"$DLDIR/coold.tar.gz\" -C \"$DLDIR\"\ntest -f \"$DLDIR/coold\" || { echo \"coold binary not found in tarball\" >&2; exit 1; }\ninstall -m 0755 \"$DLDIR/coold\" /usr/local/bin/coold.tmp\nmv /usr/local/bin/coold.tmp /usr/local/bin/coold\necho '");
            reveal_strlit("\ntar -xzf \"$DLDIR/coold.tar.gz\" -C \"$DLDIR\"\n");
            reveal_strlit("test -f \"$DLDIR/coold\" || { echo \"coold binary not found in tarball\" >&2; exit 1; }\ninstall -m 0755 \"$DLDIR/coold\" /usr/local/bin/coold.tmp\nmv /usr/local/bin/coold.tmp /usr/local/bin/coold\necho '");
        }
        let x = "set -e\nDEBIAN_FRONTEND=noninteractive apt-get update -qq 2>/dev/null\nDEBIAN_FRONTEND=noninteractive apt-get install -y -o Dpkg::Options::=\"--force-confold\" ca-certificates curl tar 2>&1 >/dev/null\nARCH_RAW=$(uname -m)\ncase \"$ARCH_RAW\" in\n  x86_64)  ARCH=amd64 ;;\n  aarch64) ARCH=arm64 ;;\n  *) echo \"unsupported arch: $ARCH_RAW\" >&2; exit 1 ;;\nesac\nURL=\"https://github.com/coollabsio/coold/releases/download/"@ + version + "/coold-linux-${ARCH}.tar.gz\"\nDLDIR=$(mktemp -d)\ntrap 'rm -rf \"$DLDIR\"' EXIT\n"@;
        let m = "curl -fsSL --retry 3 --max-time 120 -o \"$DLDIR/coold.tar.gz\" \"$URL\"\n"@ + verify + "\ntar -xzf \"$DLDIR/coold.tar.gz\" -C \"$DLDIR\"\n"@;
        let y = "test -f \"$DLDIR/coold\" || { echo \"coold binary not found in tarball\" >&2; exit 1; }\ninstall -m 0755 \"$DLDIR/coold\" /usr/local/bin/coold.tmp\nmv /usr/local/bin/coold.tmp /usr/local/bin/coold\necho '"@ + version + "' > /usr/local/bin/coold.version"@;
        assert(coold::install_script_text(version, verify) =~= x + m + y);
        stands_between(x, m, y);
    }
    assert(text::has_text(coold::install_script_text(version, verify), "mv /usr/local/bin/coold.tmp /usr/local/bin/coold\n"@)) by {
        assert("\ntar -xzf \"$DLDIR/coold.tar.gz\" -C \"$DLDIR\"\ntest -f \"$DLDIR/coold\" || { echo \"coold binary not found in tarball\" >&2; exit 1; }\ninstall -m 0755 \"$DLDIR/coold\" /usr/local/bin/coold.tmp\nmv /usr/local/bin/coold.tmp /usr/local/bin/coold\necho '"@ =~= "\ntar -xzf \"$DLDIR/coold.tar.gz\" -C \"$DLDIR\"\ntest -f \"$DLDIR/coold\" || { echo \"coold binary not found in tarball\" >&2; exit 1; }\ninstall -m 0755 \"$DLDIR/coold\" /usr/local/bin/coold.tmp\n"@ + "mv /usr/local/bin/coold.tmp /usr/local/bin/coold\n"@ + "echo '"@) by {
            reveal_strlit("\ntar -xzf \"$DLDIR/coold.tar.gz\" -C \"$DLDIR\"\ntest -f \"$DLDIR/coold\" || { echo \"coold binary not found in tarball\" >&2; exit 1; }\ninstall -m 0755 \"$DLDIR/coold\" /usr/local/bin/coold.tmp\nmv /usr/local/bin/coold.tmp /usr/local/bin/coold\necho '");
            reveal_strlit("\ntar -xzf \"$DLDIR/coold.tar.gz\" -C \"$DLDIR\"\ntest -f \"$DLDIR/coold\" || { echo \"coold binary not found in tarball\" >&2; exit 1; }\ninstall -m 0755 \"$DLDIR/coold\" /usr/local/bin/coold.tmp\n");
            reveal_strlit("mv /usr/local/bin/coold.tmp /usr/local/bin/coold\n");
            reveal_strlit("echo '");
        }
        let x = "set -e\nDEBIAN_FRONTEND=noninteractive apt-get update -qq 2>/dev/null\nDEBIAN_FRONTEND=noninteractive apt-get install -y -o Dpkg::Options::=\"--force-confold\" ca-certificates curl tar 2>&1 >/dev/null\nARCH_RAW=$(uname -m)\ncase \"$ARCH_RAW\" in\n  x86_64)  ARCH=amd64 ;;\n  aarch64) ARCH=arm64 ;;\n  *) echo \"unsupported arch: $ARCH_RAW\" >&2; exit 1 ;;\nesac\nURL=\"https://github.com/coollabsio/coold/releases/download/"@ + version + "/coold-linux-${ARCH}.tar.gz\"\nDLDIR=$(mktemp -d)\ntrap 'rm -rf \"$DLDIR\"' EXIT\ncurl -fsSL --retry 3 --max-time 120 -o \"$DLDIR/coold.tar.gz\" \"$URL\"\n"@ + verify + "\ntar -xzf \"$DLDIR/coold.tar.gz\" -C \"$DLDIR\"\ntest -f \"$DLDIR/coold\" || { echo \"coold binary not found in tarball\" >&2; exit 1; }\ninstall -m 0755 \"$DLDIR/coold\" /usr/local/bin/coold.tmp\n"@;
        let m = "mv /usr/local/bin/coold.tmp /usr/local/bin/coold\n"@;
        let y = "echo '"@ + version + "' > /usr/local/bin/coold.version"@;
        assert(coold::install_script_text(version, verify) =~= x + m + y);
        stands_between(x, m, y);
    }
    assert(text::has_suffix(coold::install_script_text(version, verify), "echo '"@ + version + "' > /usr/local/bin/coold.version"@)) by {
        assert("\ntar -xzf \"$DLDIR/coold.tar.gz\" -C \"$DLDIR\"\ntest -f \"$DLDIR/coold\" || { echo \"coold binary not found in tarball\" >&2; exit 1; }\ninstall -m 0755 \"$DLDIR/coold\" /usr/local/bin/coold.tmp\nmv /usr/local/bin/coold.tmp /usr/local/bin/coold\necho '"@ =~= "\ntar -xzf \"$DLDIR/coold.tar.gz\" -C \"$DLDIR\"\ntest -f \"$DLDIR/coold\" || { echo \"coold binary not found in tarball\" >&2; exit 1; }\ninstall -m 0755 \"$DLDIR/coold\" /usr/local/bin/coold.tmp\nmv /usr/local/bin/coold.tmp /usr/local/bin/coold\n"@ + "echo '"@) by {
            reveal_strlit("\ntar -xzf \"$DLDIR/coold.tar.gz\" -C \"$DLDIR\"\ntest -f \"$DLDIR/coold\" || { echo \"coold binary not found in tarball\" >&2; exit 1; }\ninstall -m 0755 \"$DLDIR/coold\" /usr/local/bin/coold.tmp\nmv /usr/local/bin/coold.tmp /usr/local/bin/coold\necho '");
            reveal_strlit("\ntar -xzf \"$DLDIR/coold.tar.gz\" -C \"$DLDIR\"\ntest -f \"$DLDIR/coold\" || { echo \"coold binary not found in tarball\" >&2; exit 1; }\ninstall -m 0755 \"$DLDIR/coold\" /usr/local/bin/coold.tmp\nmv /usr/local/bin/coold.tmp /usr/local/bin/coold\n");
            reveal_strlit("echo '");
        }
        let x = "set -e\nDEBIAN_FRONTEND=noninteractive apt-get update -qq 2>/dev/null\nDEBIAN_FRONTEND=noninteractive apt-get install -y -o Dpkg::Options::=\"--force-confold\" ca-certificates curl tar 2>&1 >/dev/null\nARCH_RAW=$(uname -m)\ncase \"$ARCH_RAW\" in\n  x86_64)  ARCH=amd64 ;;\n  aarch64) ARCH=arm64 ;;\n  *) echo \"unsupported arch: $ARCH_RAW\" >&2; exit 1 ;;\nesac\nURL=\"https://github.com/coollabsio/coold/releases/download/"@ + version + "/coold-linux-${ARCH}.tar.gz\"\nDLDIR=$(mktemp -d)\ntrap 'rm -rf \"$DLDIR\"' EXIT\ncurl -fsSL --retry 3 --max-time 120 -o \"$DLDIR/coold.tar.gz\" \"$URL\"\n"@ + verify + "\ntar -xzf \"$DLDIR/coold.tar.gz\" -C \"$DLDIR\"\ntest -f \"$DLDIR/coold\" || { echo \"coold binary not found in tarball\" >&2; exit 1; }\ninstall -m 0755 \"$DLDIR/coold\" /usr/local/bin/coold.tmp\nmv /usr/local/bin/coold.tmp /usr/local/bin/coold\n"@;
        let m = "echo '"@ + version + "' > /usr/local/bin/coold.version"@;
        let y = Seq::<char>::empty();
        assert(coold::install_script_text(version, verify) =~= x + m + y);
        assert(x + m + y =~= x + m);
        stands_last(x, m);
    }
}

/// The anchor of a namespace runs on the network of that namespace under its own name, bears its label,
/// and is removed under the name that it runs under.
pub proof fn anchors_stand_on_their_networks(n: CooldNamespaceView)
    ensures
        text::has_prefix(coold::anchor_start(n), "podman run -d --replace --name "@ + coold::mesh_dns_anchor_container_name_text(n.name) + " --network "@ + n.network + " "@),
        text::has_text(coold::anchor_start(n), "--label io.coolify.namespace="@ + n.name + " "@),
        text::has_prefix(coold::anchor_stop(n), "podman rm -f "@ + coold::mesh_dns_anchor_container_name_text(n.name) + " "@),
{
    assert(text::has_prefix(coold::anchor_start(n), "podman run -d --replace --name "@ + coold::mesh_dns_anchor_container_name_text(n.name) + " --network "@ + n.network + " "@)) by {
        assert(" --label io.coolify.managed=true --label io.coolify.role=mesh-dns-anchor --label io.coolify.namespace="@ =~= " "@ + "--label io.coolify.managed=true --label io.coolify.role=mesh-dns-anchor --label io.coolify.namespace="@) by {
            reveal_strlit(" --label io.coolify.managed=true --label io.coolify.role=mesh-dns-anchor --label io.coolify.namespace=");
            reveal_strlit(" ");
            reveal_strlit("--label io.coolify.managed=true --label io.coolify.role=mesh-dns-anchor --label io.coolify.namespace=");
        }
        let x = Seq::<char>::empty();
        let m = "podman run -d --replace --name "@ + coold::mesh_dns_anchor_container_name_text(n.name) + " --network "@ + n.network + " "@;
        let y = "--label io.coolify.managed=true --label io.coolify.role=mesh-dns-anchor --label io.coolify.namespace="@ + n.name + " docker.io/library/alpine:3.20 sleep infinity >/dev/null"@;
        assert(coold::anchor_start(n) =~= x + m + y);
        assert(x + m + y =~= m + y);
        stands_first(m, y);
    }
    assert(text::has_text(coold::anchor_start(n), "--label io.coolify.namespace="@ + n.name + " "@)) by {
        assert(" --label io.coolify.managed=true --label io.coolify.role=mesh-dns-anchor --label io.coolify.namespace="@ =~= " --label io.coolify.managed=true --label io.coolify.role=mesh-dns-anchor "@ + "--label io.coolify.namespace="@) by {
            reveal_strlit(" --label io.coolify.managed=true --label io.coolify.role=mesh-dns-anchor --label io.coolify.namespace=");
            reveal_strlit(" --label io.coolify.managed=true --label io.coolify.role=mesh-dns-anchor ");
            reveal_strlit("--label io.coolify.namespace=");
        }
        assert(" docker.io/library/alpine:3.20 sleep infinity >/dev/null"@ =~= " "@ + "docker.io/library/alpine:3.20 sleep infinity >/dev/null"@) by {
            reveal_strlit(" docker.io/library/alpine:3.20 sleep infinity >/dev/null");
            reveal_strlit(" ");
            reveal_strlit("docker.io/library/alpine:3.20 sleep infinity >/dev/null");
        }
        let x = "podman run -d --replace --name "@ + coold::mesh_dns_anchor_container_name_text(n.name) + " --network "@ + n.network + " --label io.coolify.managed=true --label io.coolify.role=mesh-dns-anchor "@;
        let m = "--label io.coolify.namespace="@ + n.name + " "@;
        let y = "docker.io/library/alpine:3.20 sleep infinity >/dev/null"@;
        assert(coold::anchor_start(n) =~= x + m + y);
        stands_between(x, m, y);
    }
    assert(text::has_prefix(coold::anchor_stop(n), "podman rm -f "@ + coold::mesh_dns_anchor_container_name_text(n.name) + " "@)) by {
        assert(" >/dev/null 2>&1 || true"@ =~= " "@ + ">/dev/null 2>&1 || true"@) by {
            reveal_strlit(" >/dev/null 2>&1 || true");
            reveal_strlit(" ");
            reveal_strlit(">/dev/null 2>&1 || true");
        }
        let x = Seq::<char>::empty();
        let m = "podman rm -f "@ + coold::mesh_dns_anchor_container_name_text(n.name) + " "@;
        let y = ">/dev/null 2>&1 || true"@;
        assert(coold::anchor_stop(n) =~= x + m + y);
        assert(x + m + y =~= m + y);
        stands_first(m, y);
    }
}

/// The resolver asks the gateway of a network for the names of the mesh, and for no others.
pub proof fn names_of_the_mesh_are_asked_at_the_gateway(n: CooldNamespaceView)
    ensures
        text::has_text(coold::resolver_command(n), "podman network inspect "@ + n.network + " "@),
        text::has_text(coold::resolver_command(n), "resolvectl dns \"$iface\" "@ + net::dotted(n.bridge_gateway) + " "@),
        text::has_text(coold::resolver_command(n), "resolvectl domain \"$iface\" '~coolify.internal' "@),
        text::has_text(coold::resolver_command(n), "resolvectl default-route \"$iface\" false "@),
{
    assert(text::has_text(coold::resolver_command(n), "podman network inspect "@ + n.network + " "@)) by {
        assert("iface=$(podman network inspect "@ =~= "iface=$("@ + "podman network inspect "@) by {
            reveal_strlit("iface=$(podman network inspect ");
            reveal_strlit("iface=$(");
            reveal_strlit("podman network inspect ");
        }
        assert(" --format '{{.NetworkInterface}}' 2>/dev/null || true); if [ -n \"$iface\" ]; then resolvectl dns \"$iface\" "@ =~= " "@ + "--format '{{.NetworkInterface}}' 2>/dev/null || true); if [ -n \"$iface\" ]; then resolvectl dns \"$iface\" "@) by {
            reveal_strlit(" --format '{{.NetworkInterface}}' 2>/dev/null || true); if [ -n \"$iface\" ]; then resolvectl dns \"$iface\" ");
            reveal_strlit(" ");
            reveal_strlit("--format '{{.NetworkInterface}}' 2>/dev/null || true); if [ -n \"$iface\" ]; then resolvectl dns \"$iface\" ");
        }
        let x = "iface=$("@;
        let m = "podman network inspect "@ + n.network + " "@;
        let y = "--format '{{.NetworkInterface}}' 2>/dev/null || true); if [ -n \"$iface\" ]; then resolvectl dns \"$iface\" "@ + net::dotted(n.bridge_gateway) + " || true; resolvectl domain \"$iface\" '~coolify.internal' || true; resolvectl default-route \"$iface\" false || true; fi"@;
        assert(coold::resolver_command(n) =~= x + m + y);
        stands_between(x, m, y);
    }
    assert(text::has_text(coold::resolver_command(n), "resolvectl dns \"$iface\" "@ + net::dotted(n.bridge_gateway) + " "@)) by {
        assert(" --format '{{.NetworkInterface}}' 2>/dev/null || true); if [ -n \"$iface\" ]; then resolvectl dns \"$iface\" "@ =~= " --format '{{.NetworkInterface}}' 2>/dev/null || true); if [ -n \"$iface\" ]; then "@ + "resolvectl dns \"$iface\" "@) by {
            reveal_strlit(" --format '{{.NetworkInterface}}' 2>/dev/null || true); if [ -n \"$iface\" ]; then resolvectl dns \"$iface\" ");
            reveal_strlit(" --format '{{.NetworkInterface}}' 2>/dev/null || true); if [ -n \"$iface\" ]; then ");
            reveal_strlit("resolvectl dns \"$iface\" ");
        }
        assert(" || true; resolvectl domain \"$iface\" '~coolify.internal' || true; resolvectl default-route \"$iface\" false || true; fi"@ =~= " "@ + "|| true; resolvectl domain \"$iface\" '~coolify.internal' || true; resolvectl default-route \"$iface\" false || true; fi"@) by {
            reveal_strlit(" || true; resolvectl domain \"$iface\" '~coolify.internal' || true; resolvectl default-route \"$iface\" false || true; fi");
            reveal_strlit(" ");
            reveal_strlit("|| true; resolvectl domain \"$iface\" '~coolify.internal' || true; resolvectl default-route \"$iface\" false || true; fi");
        }
        let x = "iface=$(podman network inspect "@ + n.network + " --format '{{.NetworkInterface}}' 2>/dev/null || true); if [ -n \"$iface\" ]; then "@;
        let m = "resolvectl dns \"$iface\" "@ + net::dotted(n.bridge_gateway) + " "@;
        let y = "|| true; resolvectl domain \"$iface\" '~coolify.internal' || true; resolvectl default-route \"$iface\" false || true; fi"@;
        assert(coold::resolver_command(n) =~= x + m + y);
        stands_between(x, m, y);
    }
    assert(text::has_text(coold::resolver_command(n), "resolvectl domain \"$iface\" '~coolify.internal' "@)) by {
        assert(" || true; resolvectl domain \"$iface\" '~coolify.internal' || true; resolvectl default-route \"$iface\" false || true; fi"@ =~= " || true; "@ + "resolvectl domain \"$iface\" '~coolify.internal' "@ + "|| true; resolvectl default-route \"$iface\" false || true; fi"@) by {
            reveal_strlit(" || true; resolvectl domain \"$iface\" '~coolify.internal' || true; resolvectl default-route \"$iface\" false || true; fi");
            reveal_strlit(" || true; ");
            reveal_strlit("resolvectl domain \"$iface\" '~coolify.internal' ");
            reveal_strlit("|| true; resolvectl default-route \"$iface\" false || true; fi");
        }
        let x = "iface=$(podman network inspect "@ + n.network + " --format '{{.NetworkInterface}}' 2>/dev/null || true); if [ -n \"$iface\" ]; then resolvectl dns \"$iface\" "@ + net::dotted(n.bridge_gateway) + " || true; "@;
        let m = "resolvectl domain \"$iface\" '~coolify.internal' "@;
        let y = "|| true; resolvectl default-route \"$iface\" false || true; fi"@;
        assert(coold::resolver_command(n) =~= x + m + y);
        stands_between(x, m, y);
    }
    assert(text::has_text(coold::resolver_command(n), "resolvectl default-route \"$iface\" false "@)) by {
        assert(" || true; resolvectl domain \"$iface\" '~coolify.internal' || true; resolvectl default-route \"$iface\" false || true; fi"@ =~= " || true; resolvectl domain \"$iface\" '~coolify.internal' || true; "@ + "resolvectl default-route \"$iface\" false "@ + "|| true; fi"@) by {
            reveal_strlit(" || true; resolvectl domain \"$iface\" '~coolify.internal' || true; resolvectl default-route \"$iface\" false || true; fi");
            reveal_strlit(" || true; resolvectl domain \"$iface\" '~coolify.internal' || true; ");
            reveal_strlit("resolvectl default-route \"$iface\" false ");
            reveal_strlit("|| true; fi");
        }
        let x = "iface=$(podman network inspect "@ + n.network + " --format '{{.NetworkInterface}}' 2>/dev/null || true); if [ -n \"$iface\" ]; then resolvectl dns \"$iface\" "@ + net::dotted(n.bridge_gateway) + " || true; resolvectl domain \"$iface\" '~coolify.internal' || true; "@;
        let m = "resolvectl default-route \"$iface\" false "@;
        let y = "|| true; fi"@;
        assert(coold::resolver_command(n) =~= x + m + y);
        stands_between(x, m, y);
    }
}

/// coold is given each namespace with its network and its gateway, in this order.
pub proof fn namespaces_are_given_with_network_and_gateway(n: CooldNamespaceView)
    ensures
        text::has_prefix(coold::env_entry(n), n.name + ":"@ + n.network + ":"@ + net::dotted(n.bridge_gateway)),
{
    assert(text::has_prefix(coold::env_entry(n), n.name + ":"@ + n.network + ":"@ + net::dotted(n.bridge_gateway))) by {
        let x = Seq::<char>::empty();
        let m = n.name + ":"@ + n.network + ":"@ + net::dotted(n.bridge_gateway);
        let y = Seq::<char>::empty();
        assert(coold::env_entry(n) =~= x + m + y);
        assert(x + m + y =~= m + y);
        stands_first(m, y);
    }
}

/// In the bridge table, what comes from or goes to a subnet of the node is allowed by a rule or dropped;
/// what belongs to a connection that stands passes.
pub proof fn bridges_deny_by_default(set: Seq<char>)
    ensures
        text::has_text(firewall::scaffold_text(set), "add rule bridge coolify_bridge coolify_intra jump coolify_allow\nadd rule bridge coolify_bridge coolify_intra drop\n"@),
        text::has_text(firewall::scaffold_text(set), "add rule bridge coolify_bridge forward ct state established,related accept\n"@),
        text::has_text(firewall::scaffold_text(set), "add rule bridge coolify_bridge forward ip saddr "@ + set + " jump coolify_intra\n"@),
        text::has_text(firewall::scaffold_text(set), "add rule bridge coolify_bridge forward ip daddr "@ + set + " jump coolify_intra\n"@),
{
    assert(text::has_text(firewall::scaffold_text(set), "add rule bridge coolify_bridge coolify_intra jump coolify_allow\nadd rule bridge coolify_bridge coolify_intra drop\n"@)) by {
        assert("# Managed by coolify — do not edit manually.\nadd table bridge coolify_bridge\nadd chain bridge coolify_bridge coolify_intra\nflush chain bridge coolify_bridge coolify_intra\nadd rule bridge coolify_bridge coolify_intra jump coolify_allow\nadd rule bridge coolify_bridge coolify_intra drop\nadd chain bridge coolify_bridge forward { type filter hook forward priority -200; policy accept; }\nflush chain bridge coolify_bridge forward\nadd rule bridge coolify_bridge forward meta protocol != ip accept\nadd rule bridge coolify_bridge forward ct state established,related accept\nadd rule bridge coolify_bridge forward ip saddr "@ =~= "# Managed by coolify — do not edit manually.\nadd table bridge coolify_bridge\nadd chain bridge coolify_bridge coolify_intra\nflush chain bridge coolify_bridge coolify_intra\n"@ + "add rule bridge coolify_bridge coolify_intra jump coolify_allow\nadd rule bridge coolify_bridge coolify_intra drop\n"@ + "add chain bridge coolify_bridge forward { type filter hook forward priority -200; policy accept; }\nflush chain bridge coolify_bridge forward\nadd rule bridge coolify_bridge forward meta protocol != ip accept\nadd rule bridge coolify_bridge forward ct state established,related accept\nadd rule bridge coolify_bridge forward ip saddr "@) by {
            reveal_strlit("# Managed by coolify — do not edit manually.\nadd table bridge coolify_bridge\nadd chain bridge coolify_bridge coolify_intra\nflush chain bridge coolify_bridge coolify_intra\nadd rule bridge coolify_bridge coolify_intra jump coolify_allow\nadd rule bridge coolify_bridge coolify_intra drop\nadd chain bridge coolify_bridge forward { type filter hook forward priority -200; policy accept; }\nflush chain bridge coolify_bridge forward\nadd rule bridge coolify_bridge forward meta protocol != ip accept\nadd rule bridge coolify_bridge forward ct state established,related accept\nadd rule bridge coolify_bridge forward ip saddr ");
            reveal_strlit("# Managed by coolify — do not edit manually.\nadd table bridge coolify_bridge\nadd chain bridge coolify_bridge coolify_intra\nflush chain bridge coolify_bridge coolify_intra\n");
            reveal_strlit("add rule bridge coolify_bridge coolify_intra jump coolify_allow\nadd rule bridge coolify_bridge coolify_intra drop\n");
            reveal_strlit("add chain bridge coolify_bridge forward { type filter hook forward priority -200; policy accept; }\nflush chain bridge coolify_bridge forward\nadd rule bridge coolify_bridge forward meta protocol != ip accept\nadd rule bridge coolify_bridge forward ct state established,related accept\nadd rule bridge coolify_bridge forward ip saddr ");
        }
        let x = "# Managed by coolify — do not edit manually.\nadd table bridge coolify_bridge\nadd chain bridge coolify_bridge coolify_intra\nflush chain bridge coolify_bridge coolify_intra\n"@;
        let m = "add rule bridge coolify_bridge coolify_intra jump coolify_allow\nadd rule bridge coolify_bridge coolify_intra drop\n"@;
        let y = "add chain bridge coolify_bridge forward { type filter hook forward priority -200; policy accept; }\nflush chain bridge coolify_bridge forward\nadd rule bridge coolify_bridge forward meta protocol != ip accept\nadd rule bridge coolify_bridge forward ct state established,related accept\nadd rule bridge coolify_bridge forward ip saddr "@ + set + " jump coolify_intra\nadd rule bridge coolify_bridge forward ip daddr "@ + set + " jump coolify_intra\n"@;
        assert(firewall::scaffold_text(set) =~= x + m + y);
        stands_between(x, m, y);
    }
    assert(text::has_text(firewall::scaffold_text(set), "add rule bridge coolify_bridge forward ct state established,related accept\n"@)) by {
        assert("# Managed by coolify — do not edit manually.\nadd table bridge coolify_bridge\nadd chain bridge coolify_bridge coolify_intra\nflush chain bridge coolify_bridge coolify_intra\nadd rule bridge coolify_bridge coolify_intra jump coolify_allow\nadd rule bridge coolify_bridge coolify_intra drop\nadd chain bridge coolify_bridge forward { type filter hook forward priority -200; policy accept; }\nflush chain bridge coolify_bridge forward\nadd rule bridge coolify_bridge forward meta protocol != ip accept\nadd rule bridge coolify_bridge forward ct state established,related accept\nadd rule bridge coolify_bridge forward ip saddr "@ =~= "# Managed by coolify — do not edit manually.\nadd table bridge coolify_bridge\nadd chain bridge coolify_bridge coolify_intra\nflush chain bridge coolify_bridge coolify_intra\nadd rule bridge coolify_bridge coolify_intra jump coolify_allow\nadd rule bridge coolify_bridge coolify_intra drop\nadd chain bridge coolify_bridge forward { type filter hook forward priority -200; policy accept; }\nflush chain bridge coolify_bridge forward\nadd rule bridge coolify_bridge forward meta protocol != ip accept\n"@ + "add rule bridge coolify_bridge forward ct state established,related accept\n"@ + "add rule bridge coolify_bridge forward ip saddr "@) by {
            reveal_strlit("# Managed by coolify — do not edit manually.\nadd table bridge coolify_bridge\nadd chain bridge coolify_bridge coolify_intra\nflush chain bridge coolify_bridge coolify_intra\nadd rule bridge coolify_bridge coolify_intra jump coolify_allow\nadd rule bridge coolify_bridge coolify_intra drop\nadd chain bridge coolify_bridge forward { type filter hook forward priority -200; policy accept; }\nflush chain bridge coolify_bridge forward\nadd rule bridge coolify_bridge forward meta protocol != ip accept\nadd rule bridge coolify_bridge forward ct state established,related accept\nadd rule bridge coolify_bridge forward ip saddr ");
            reveal_strlit("# Managed by coolify — do not edit manually.\nadd table bridge coolify_bridge\nadd chain bridge coolify_bridge coolify_intra\nflush chain bridge coolify_bridge coolify_intra\nadd rule bridge coolify_bridge coolify_intra jump coolify_allow\nadd rule bridge coolify_bridge coolify_intra drop\nadd chain bridge coolify_bridge forward { type filter hook forward priority -200; policy accept; }\nflush chain bridge coolify_bridge forward\nadd rule bridge coolify_bridge forward meta protocol != ip accept\n");
            reveal_strlit("add rule bridge coolify_bridge forward ct state established,related accept\n");
            reveal_strlit("add rule bridge coolify_bridge forward ip saddr ");
        }
        let x = "# Managed by coolify — do not edit manually.\nadd table bridge coolify_bridge\nadd chain bridge coolify_bridge coolify_intra\nflush chain bridge coolify_bridge coolify_intra\nadd rule bridge coolify_bridge coolify_intra jump coolify_allow\nadd rule bridge coolify_bridge coolify_intra drop\nadd chain bridge coolify_bridge forward { type filter hook forward priority -200; policy accept; }\nflush chain bridge coolify_bridge forward\nadd rule bridge coolify_bridge forward meta protocol != ip accept\n"@;
        let m = "add rule bridge coolify_bridge forward ct state established,related accept\n"@;
        let y = "add rule bridge coolify_bridge forward ip saddr "@ + set + " jump coolify_intra\nadd rule bridge coolify_bridge forward ip daddr "@ + set + " jump coolify_intra\n"@;
        assert(firewall::scaffold_text(set) =~= x + m + y);
        stands_between(x, m, y);
    }
    assert(text::has_text(firewall::scaffold_text(set), "add rule bridge coolify_bridge forward ip saddr "@ + set + " jump coolify_intra\n"@)) by {
        assert("# Managed by coolify — do not edit manually.\nadd table bridge coolify_bridge\nadd chain bridge coolify_bridge coolify_intra\nflush chain bridge coolify_bridge coolify_intra\nadd rule bridge coolify_bridge coolify_intra jump coolify_allow\nadd rule bridge coolify_bridge coolify_intra drop\nadd chain bridge coolify_bridge forward { type filter hook forward priority -200; policy accept; }\nflush chain bridge coolify_bridge forward\nadd rule bridge coolify_bridge forward meta protocol != ip accept\nadd rule bridge coolify_bridge forward ct state established,related accept\nadd rule bridge coolify_bridge forward ip saddr "@ =~= "# Managed by coolify — do not edit manually.\nadd table bridge coolify_bridge\nadd chain bridge coolify_bridge coolify_intra\nflush chain bridge coolify_bridge coolify_intra\nadd rule bridge coolify_bridge coolify_intra jump coolify_allow\nadd rule bridge coolify_bridge coolify_intra drop\nadd chain bridge coolify_bridge forward { type filter hook forward priority -200; policy accept; }\nflush chain bridge coolify_bridge forward\nadd rule bridge coolify_bridge forward meta protocol != ip accept\nadd rule bridge coolify_bridge forward ct state established,related accept\n"@ + "add rule bridge coolify_bridge forward ip saddr "@) by {
            reveal_strlit("# Managed by coolify — do not edit manually.\nadd table bridge coolify_bridge\nadd chain bridge coolify_bridge coolify_intra\nflush chain bridge coolify_bridge coolify_intra\nadd rule bridge coolify_bridge coolify_intra jump coolify_allow\nadd rule bridge coolify_bridge coolify_intra drop\nadd chain bridge coolify_bridge forward { type filter hook forward priority -200; policy accept; }\nflush chain bridge coolify_bridge forward\nadd rule bridge coolify_bridge forward meta protocol != ip accept\nadd rule bridge coolify_bridge forward ct state established,related accept\nadd rule bridge coolify_bridge forward ip saddr ");
            reveal_strlit("# Managed by coolify — do not edit manually.\nadd table bridge coolify_bridge\nadd chain bridge coolify_bridge coolify_intra\nflush chain bridge coolify_bridge coolify_intra\nadd rule bridge coolify_bridge coolify_intra jump coolify_allow\nadd rule bridge coolify_bridge coolify_intra drop\nadd chain bridge coolify_bridge forward { type filter hook forward priority -200; policy accept; }\nflush chain bridge coolify_bridge forward\nadd rule bridge coolify_bridge forward meta protocol != ip accept\nadd rule bridge coolify_bridge forward ct state established,related accept\n");
            reveal_strlit("add rule bridge coolify_bridge forward ip saddr ");
        }
        assert(" jump coolify_intra\nadd rule bridge coolify_bridge forward ip daddr "@ =~= " jump coolify_intra\n"@ + "add rule bridge coolify_bridge forward ip daddr "@) by {
            reveal_strlit(" jump coolify_intra\nadd rule bridge coolify_bridge forward ip daddr ");
            reveal_strlit(" jump coolify_intra\n");
            reveal_strlit("add rule bridge coolify_bridge forward ip daddr ");
        }
        let x = "# Managed by coolify — do not edit manually.\nadd table bridge coolify_bridge\nadd chain bridge coolify_bridge coolify_intra\nflush chain bridge coolify_bridge coolify_intra\nadd rule bridge coolify_bridge coolify_intra jump coolify_allow\nadd rule bridge coolify_bridge coolify_intra drop\nadd chain bridge coolify_bridge forward { type filter hook forward priority -200; policy accept; }\nflush chain bridge coolify_bridge forward\nadd rule bridge coolify_bridge forward meta protocol != ip accept\nadd rule bridge coolify_bridge forward ct state established,related accept\n"@;
        let m = "add rule bridge coolify_bridge forward ip saddr "@ + set + " jump coolify_intra\n"@;
        let y = "add rule bridge coolify_bridge forward ip daddr "@ + set + " jump coolify_intra\n"@;
        assert(firewall::scaffold_text(set) =~= x + m + y);
        stands_between(x, m, y);
    }
    assert(text::has_text(firewall::scaffold_text(set), "add rule bridge coolify_bridge forward ip daddr "@ + set + " jump coolify_intra\n"@)) by {
        assert(" jump coolify_intra\nadd rule bridge coolify_bridge forward ip daddr "@ =~= " jump coolify_intra\n"@ + "add rule bridge coolify_bridge forward ip daddr "@) by {
            reveal_strlit(" jump coolify_intra\nadd rule bridge coolify_bridge forward ip daddr ");
            reveal_strlit(" jump coolify_intra\n");
            reveal_strlit("add rule bridge coolify_bridge forward ip daddr ");
        }
        let x = "# Managed by coolify — do not edit manually.\nadd table bridge coolify_bridge\nadd chain bridge coolify_bridge coolify_intra\nflush chain bridge coolify_bridge coolify_intra\nadd rule bridge coolify_bridge coolify_intra jump coolify_allow\nadd rule bridge coolify_bridge coolify_intra drop\nadd chain bridge coolify_bridge forward { type filter hook forward priority -200; policy accept; }\nflush chain bridge coolify_bridge forward\nadd rule bridge coolify_bridge forward meta protocol != ip accept\nadd rule bridge coolify_bridge forward ct state established,related accept\nadd rule bridge coolify_bridge forward ip saddr "@ + set + " jump coolify_intra\n"@;
        let m = "add rule bridge coolify_bridge forward ip daddr "@ + set + " jump coolify_intra\n"@;
        let y = Seq::<char>::empty();
        assert(firewall::scaffold_text(set) =~= x + m + y);
        stands_between(x, m, y);
    }
}

/// The unit and the bridge table of a firewall are written whole to the places that the unit and the probe
/// read, and the firewall is restarted.
pub proof fn firewalls_are_written_and_restarted(unit: Seq<char>, scaffold: Seq<char>)
    ensures
        text::has_prefix(firewall::write_unit_text(unit), "cat > /etc/systemd/system/coolify-mesh-fw.service.tmp <<'COOLIFY_FW_EOF'\n"@ + unit + "COOLIFY_FW_EOF\nmv /etc/systemd/system/coolify-mesh-fw.service.tmp /etc/systemd/system/coolify-mesh-fw.service && "@),
        text::has_prefix(firewall::write_scaffold_text(scaffold), "cat > /etc/coolify/bridge-fw.nft.tmp <<'COOLIFY_BR_EOF'\n"@ + scaffold + "COOLIFY_BR_EOF\nmv /etc/coolify/bridge-fw.nft.tmp /etc/coolify/bridge-fw.nft && "@),
        text::has_suffix(firewall::restart_firewall_text(), "systemctl restart coolify-mesh-fw.service"@),
{
    assert(text::has_prefix(firewall::write_unit_text(unit), "cat > /etc/systemd/system/coolify-mesh-fw.service.tmp <<'COOLIFY_FW_EOF'\n"@ + unit + "COOLIFY_FW_EOF\nmv /etc/systemd/system/coolify-mesh-fw.service.tmp /etc/systemd/system/coolify-mesh-fw.service && "@)) by {
        assert("COOLIFY_FW_EOF\nmv /etc/systemd/system/coolify-mesh-fw.service.tmp /etc/systemd/system/coolify-mesh-fw.service && mkdir -p /etc/coolify && "@ =~= "COOLIFY_FW_EOF\nmv /etc/systemd/system/coolify-mesh-fw.service.tmp /etc/systemd/system/coolify-mesh-fw.service && "@ + "mkdir -p /etc/coolify && "@) by {
            reveal_strlit("COOLIFY_FW_EOF\nmv /etc/systemd/system/coolify-mesh-fw.service.tmp /etc/systemd/system/coolify-mesh-fw.service && mkdir -p /etc/coolify && ");
            reveal_strlit("COOLIFY_FW_EOF\nmv /etc/systemd/system/coolify-mesh-fw.service.tmp /etc/systemd/system/coolify-mesh-fw.service && ");
            reveal_strlit("mkdir -p /etc/coolify && ");
        }
        let x = Seq::<char>::empty();
        let m = "cat > /etc/systemd/system/coolify-mesh-fw.service.tmp <<'COOLIFY_FW_EOF'\n"@ + unit + "COOLIFY_FW_EOF\nmv /etc/systemd/system/coolify-mesh-fw.service.tmp /etc/systemd/system/coolify-mesh-fw.service && "@;
        let y = "mkdir -p /etc/coolify && "@;
        assert(firewall::write_unit_text(unit) =~= x + m + y);
        assert(x + m + y =~= m + y);
        stands_first(m, y);
    }
    assert(text::has_prefix(firewall::write_scaffold_text(scaffold), "cat > /etc/coolify/bridge-fw.nft.tmp <<'COOLIFY_BR_EOF'\n"@ + scaffold + "COOLIFY_BR_EOF\nmv /etc/coolify/bridge-fw.nft.tmp /etc/coolify/bridge-fw.nft && "@)) by {
        let x = Seq::<char>::empty();
        let m = "cat > /etc/coolify/bridge-fw.nft.tmp <<'COOLIFY_BR_EOF'\n"@ + scaffold + "COOLIFY_BR_EOF\nmv /etc/coolify/bridge-fw.nft.tmp /etc/coolify/bridge-fw.nft && "@;
        let y = Seq::<char>::empty();
        assert(firewall::write_scaffold_text(scaffold) =~= x + m + y);
        assert(x + m + y =~= m + y);
        stands_first(m, y);
    }
    assert(text::has_suffix(firewall::restart_firewall_text(), "systemctl restart coolify-mesh-fw.service"@)) by {
        assert("systemctl daemon-reload && systemctl enable coolify-mesh-fw.service && systemctl restart coolify-mesh-fw.service"@ =~= "systemctl daemon-reload && systemctl enable coolify-mesh-fw.service && "@ + "systemctl restart coolify-mesh-fw.service"@) by {
            reveal_strlit("systemctl daemon-reload && systemctl enable coolify-mesh-fw.service && systemctl restart coolify-mesh-fw.service");
            reveal_strlit("systemctl daemon-reload && systemctl enable coolify-mesh-fw.service && ");
            reveal_strlit("systemctl restart coolify-mesh-fw.service");
        }
        let x = "systemctl daemon-reload && systemctl enable coolify-mesh-fw.service && "@;
        let m = "systemctl restart coolify-mesh-fw.service"@;
        let y = Seq::<char>::empty();
        assert(firewall::restart_firewall_text() =~= x + m + y);
        assert(x + m + y =~= x + m);
        stands_last(x, m);
    }
}

/// The command that writes a configuration prints each setting under its own name: the address and the
/// port of the interface, the private key of the host, and the key, the addresses and the endpoint of
/// a peer.
pub proof fn settings_are_written_under_their_names(mgmt_ip: u32, listen_port: u16, name: Seq<char>, key: Seq<char>, ips: Seq<char>, endpoint: Seq<char>)
    ensures
        text::has_prefix(config::interface_echo_text(mgmt_ip, listen_port), "PRIVKEY=$(cat /etc/wireguard/privatekey) && "@),
        text::has_text(config::interface_echo_text(mgmt_ip, listen_port), "{ echo \"[Interface]\"; echo \"Address = "@ + net::dotted(mgmt_ip) + "/32\"; echo \"ListenPort = "@ + number::decimal(listen_port as nat) + "\"; echo \"PrivateKey = $PRIVKEY\"; "@),
        text::has_text(config::peer_echo_text(name, key, ips, endpoint), "echo \"[Peer]\"; "@),
        text::has_text(config::peer_echo_text(name, key, ips, endpoint), "echo \"PublicKey = "@ + key + "\"; echo \"AllowedIPs = "@ + ips + "\"; echo \"Endpoint = "@ + endpoint + "\"; echo \"PersistentKeepalive = 25\"; "@),
{
    assert(text::has_prefix(config::interface_echo_text(mgmt_ip, listen_port), "PRIVKEY=$(cat /etc/wireguard/privatekey) && "@)) by {
        assert("PRIVKEY=$(cat /etc/wireguard/privatekey) && mkdir -p /etc/wireguard && { echo \"[Interface]\"; echo \"Address = "@ =~= "PRIVKEY=$(cat /etc/wireguard/privatekey) && "@ + "mkdir -p /etc/wireguard && { echo \"[Interface]\"; echo \"Address = "@) by {
            reveal_strlit("PRIVKEY=$(cat /etc/wireguard/privatekey) && mkdir -p /etc/wireguard && { echo \"[Interface]\"; echo \"Address = ");
            reveal_strlit("PRIVKEY=$(cat /etc/wireguard/privatekey) && ");
            reveal_strlit("mkdir -p /etc/wireguard && { echo \"[Interface]\"; echo \"Address = ");
        }
        let x = Seq::<char>::empty();
        let m = "PRIVKEY=$(cat /etc/wireguard/privatekey) && "@;
        let y = "mkdir -p /etc/wireguard && { echo \"[Interface]\"; echo \"Address = "@ + net::dotted(mgmt_ip) + "/32\"; echo \"ListenPort = "@ + number::decimal(listen_port as nat) + "\"; echo \"PrivateKey = $PRIVKEY\"; "@;
        assert(config::interface_echo_text(mgmt_ip, listen_port) =~= x + m + y);
        assert(x + m + y =~= m + y);
        stands_first(m, y);
    }
    assert(text::has_text(config::interface_echo_text(mgmt_ip, listen_port), "{ echo \"[Interface]\"; echo \"Address = "@ + net::dotted(mgmt_ip) + "/32\"; echo \"ListenPort = "@ + number::decimal(listen_port as nat) + "\"; echo \"PrivateKey = $PRIVKEY\"; "@)) by {
        assert("PRIVKEY=$(cat /etc/wireguard/privatekey) && mkdir -p /etc/wireguard && { echo \"[Interface]\"; echo \"Address = "@ =~= "PRIVKEY=$(cat /etc/wireguard/privatekey) && mkdir -p /etc/wireguard && "@ + "{ echo \"[Interface]\"; echo \"Address = "@) by {
            reveal_strlit("PRIVKEY=$(cat /etc/wireguard/privatekey) && mkdir -p /etc/wireguard && { echo \"[Interface]\"; echo \"Address = ");
            reveal_strlit("PRIVKEY=$(cat /etc/wireguard/privatekey) && mkdir -p /etc/wireguard && ");
            reveal_strlit("{ echo \"[Interface]\"; echo \"Address = ");
        }
        let x = "PRIVKEY=$(cat /etc/wireguard/privatekey) && mkdir -p /etc/wireguard && "@;
        let m = "{ echo \"[Interface]\"; echo \"Address = "@ + net::dotted(mgmt_ip) + "/32\"; echo \"ListenPort = "@ + number::decimal(listen_port as nat) + "\"; echo \"PrivateKey = $PRIVKEY\"; "@;
        let y = Seq::<char>::empty();
        assert(config::interface_echo_text(mgmt_ip, listen_port) =~= x + m + y);
        stands_between(x, m, y);
    }
    assert(text::has_text(config::peer_echo_text(name, key, ips, endpoint), "echo \"[Peer]\"; "@)) by {
        assert("echo \"\"; echo \"[Peer]\"; echo \"# "@ =~= "echo \"\"; "@ + "echo \"[Peer]\"; "@ + "echo \"# "@) by {
            reveal_strlit("echo \"\"; echo \"[Peer]\"; echo \"# ");
            reveal_strlit("echo \"\"; ");
            reveal_strlit("echo \"[Peer]\"; ");
            reveal_strlit("echo \"# ");
        }
        let x = "echo \"\"; "@;
        let m = "echo \"[Peer]\"; "@;
        let y = "echo \"# "@ + name + "\"; echo \"PublicKey = "@ + key + "\"; echo \"AllowedIPs = "@ + ips + "\"; echo \"Endpoint = "@ + endpoint + "\"; echo \"PersistentKeepalive = 25\"; "@;
        assert(config::peer_echo_text(name, key, ips, endpoint) =~= x + m + y);
        stands_between(x, m, y);
    }
    assert(text::has_text(config::peer_echo_text(name, key, ips, endpoint), "echo \"PublicKey = "@ + key + "\"; echo \"AllowedIPs = "@ + ips + "\"; echo \"Endpoint = "@ + endpoint + "\"; echo \"PersistentKeepalive = 25\"; "@)) by {
        assert("\"; echo \"PublicKey = "@ =~= "\"; "@ + "echo \"PublicKey = "@) by {
            reveal_strlit("\"; echo \"PublicKey = ");
            reveal_strlit("\"; ");
            reveal_strlit("echo \"PublicKey = ");
        }
        let x = "echo \"\"; echo \"[Peer]\"; echo \"# "@ + name + "\"; "@;
        let m = "echo \"PublicKey = "@ + key + "\"; echo \"AllowedIPs = "@ + ips + "\"; echo \"Endpoint = "@ + endpoint + "\"; echo \"PersistentKeepalive = 25\"; "@;
        let y = Seq::<char>::empty();
        assert(config::peer_echo_text(name, key, ips, endpoint) =~= x + m + y);
        stands_between(x, m, y);
    }
}

/// coold gets no new privileges and sees the system read-only but for its own directories and those of
/// the containers.
pub proof fn coold_is_confined()
    ensures
        text::has_text(coold::hardening_directives_text(), "NoNewPrivileges=yes\n"@),
        text::has_text(coold::hardening_directives_text(), "ProtectSystem=strict\n"@),
        text::has_text(coold::hardening_directives_text(), "ProtectHome=yes\n"@),
        text::has_text(coold::hardening_directives_text(), "PrivateTmp=yes\n"@),
        text::has_text(coold::hardening_directives_text(), "ReadWritePaths=/etc/coolify /data/coolify /var/lib/containers\n"@),
{
    assert(text::has_text(coold::hardening_directives_text(), "NoNewPrivileges=yes\n"@)) by {
        assert("NoNewPrivileges=yes\nProtectSystem=strict\nProtectHome=yes\nPrivateTmp=yes\nReadWritePaths=/etc/coolify /data/coolify /var/lib/containers\nReadWritePaths=-/run/containers -/run/netavark -/run/libpod\n"@ =~= "NoNewPrivileges=yes\n"@ + "ProtectSystem=strict\nProtectHome=yes\nPrivateTmp=yes\nReadWritePaths=/etc/coolify /data/coolify /var/lib/containers\nReadWritePaths=-/run/containers -/run/netavark -/run/libpod\n"@) by {
            reveal_strlit("NoNewPrivileges=yes\nProtectSystem=strict\nProtectHome=yes\nPrivateTmp=yes\nReadWritePaths=/etc/coolify /data/coolify /var/lib/containers\nReadWritePaths=-/run/containers -/run/netavark -/run/libpod\n");
            reveal_strlit("NoNewPrivileges=yes\n");
            reveal_strlit("ProtectSystem=strict\nProtectHome=yes\nPrivateTmp=yes\nReadWritePaths=/etc/coolify /data/coolify /var/lib/containers\nReadWritePaths=-/run/containers -/run/netavark -/run/libpod\n");
        }
        let x = Seq::<char>::empty();
        let m = "NoNewPrivileges=yes\n"@;
        let y = "ProtectSystem=strict\nProtectHome=yes\nPrivateTmp=yes\nReadWritePaths=/etc/coolify /data/coolify /var/lib/containers\nReadWritePaths=-/run/containers -/run/netavark -/run/libpod\n"@;
        assert(coold::hardening_directives_text() =~= x + m + y);
        stands_between(x, m, y);
    }
    assert(text::has_text(coold::hardening_directives_text(), "ProtectSystem=strict\n"@)) by {
        assert("NoNewPrivileges=yes\nProtectSystem=strict\nProtectHome=yes\nPrivateTmp=yes\nReadWritePaths=/etc/coolify /data/coolify /var/lib/containers\nReadWritePaths=-/run/containers -/run/netavark -/run/libpod\n"@ =~= "NoNewPrivileges=yes\n"@ + "ProtectSystem=strict\n"@ + "ProtectHome=yes\nPrivateTmp=yes\nReadWritePaths=/etc/coolify /data/coolify /var/lib/containers\nReadWritePaths=-/run/containers -/run/netavark -/run/libpod\n"@) by {
            reveal_strlit("NoNewPrivileges=yes\nProtectSystem=strict\nProtectHome=yes\nPrivateTmp=yes\nReadWritePaths=/etc/coolify /data/coolify /var/lib/containers\nReadWritePaths=-/run/containers -/run/netavark -/run/libpod\n");
            reveal_strlit("NoNewPrivileges=yes\n");
            reveal_strlit("ProtectSystem=strict\n");
            reveal_strlit("ProtectHome=yes\nPrivateTmp=yes\nReadWritePaths=/etc/coolify /data/coolify /var/lib/containers\nReadWritePaths=-/run/containers -/run/netavark -/run/libpod\n");
        }
        let x = "NoNewPrivileges=yes\n"@;
        let m = "ProtectSystem=strict\n"@;
        let y = "ProtectHome=yes\nPrivateTmp=yes\nReadWritePaths=/etc/coolify /data/coolify /var/lib/containers\nReadWritePaths=-/run/containers -/run/netavark -/run/libpod\n"@;
        assert(coold::hardening_directives_text() =~= x + m + y);
        stands_between(x, m, y);
    }
    assert(text::has_text(coold::hardening_directives_text(), "ProtectHome=yes\n"@)) by {
        assert("NoNewPrivileges=yes\nProtectSystem=strict\nProtectHome=yes\nPrivateTmp=yes\nReadWritePaths=/etc/coolify /data/coolify /var/lib/containers\nReadWritePaths=-/run/containers -/run/netavark -/run/libpod\n"@ =~= "NoNewPrivileges=yes\nProtectSystem=strict\n"@ + "ProtectHome=yes\n"@ + "PrivateTmp=yes\nReadWritePaths=/etc/coolify /data/coolify /var/lib/containers\nReadWritePaths=-/run/containers -/run/netavark -/run/libpod\n"@) by {
            reveal_strlit("NoNewPrivileges=yes\nProtectSystem=strict\nProtectHome=yes\nPrivateTmp=yes\nReadWritePaths=/etc/coolify /data/coolify /var/lib/containers\nReadWritePaths=-/run/containers -/run/netavark -/run/libpod\n");
            reveal_strlit("NoNewPrivileges=yes\nProtectSystem=strict\n");
            reveal_strlit("ProtectHome=yes\n");
            reveal_strlit("PrivateTmp=yes\nReadWritePaths=/etc/coolify /data/coolify /var/lib/containers\nReadWritePaths=-/run/containers -/run/netavark -/run/libpod\n");
        }
        let x = "NoNewPrivileges=yes\nProtectSystem=strict\n"@;
        let m = "ProtectHome=yes\n"@;
        let y = "PrivateTmp=yes\nReadWritePaths=/etc/coolify /data/coolify /var/lib/containers\nReadWritePaths=-/run/containers -/run/netavark -/run/libpod\n"@;
        assert(coold::hardening_directives_text() =~= x + m + y);
        stands_between(x, m, y);
    }
    assert(text::has_text(coold::hardening_directives_text(), "PrivateTmp=yes\n"@)) by {
        assert("NoNewPrivileges=yes\nProtectSystem=strict\nProtectHome=yes\nPrivateTmp=yes\nReadWritePaths=/etc/coolify /data/coolify /var/lib/containers\nReadWritePaths=-/run/containers -/run/netavark -/run/libpod\n"@ =~= "NoNewPrivileges=yes\nProtectSystem=strict\nProtectHome=yes\n"@ + "PrivateTmp=yes\n"@ + "ReadWritePaths=/etc/coolify /data/coolify /var/lib/containers\nReadWritePaths=-/run/containers -/run/netavark -/run/libpod\n"@) by {
            reveal_strlit("NoNewPrivileges=yes\nProtectSystem=strict\nProtectHome=yes\nPrivateTmp=yes\nReadWritePaths=/etc/coolify /data/coolify /var/lib/containers\nReadWritePaths=-/run/containers -/run/netavark -/run/libpod\n");
            reveal_strlit("NoNewPrivileges=yes\nProtectSystem=strict\nProtectHome=yes\n");
            reveal_strlit("PrivateTmp=yes\n");
            reveal_strlit("ReadWritePaths=/etc/coolify /data/coolify /var/lib/containers\nReadWritePaths=-/run/containers -/run/netavark -/run/libpod\n");
        }
        let x = "NoNewPrivileges=yes\nProtectSystem=strict\nProtectHome=yes\n"@;
        let m = "PrivateTmp=yes\n"@;
        let y = "ReadWritePaths=/etc/coolify /data/coolify /var/lib/containers\nReadWritePaths=-/run/containers -/run/netavark -/run/libpod\n"@;
        assert(coold::hardening_directives_text() =~= x + m + y);
        stands_between(x, m, y);
    }
    assert(text::has_text(coold::hardening_directives_text(), "ReadWritePaths=/etc/coolify /data/coolify /var/lib/containers\n"@)) by {
        assert("NoNewPrivileges=yes\nProtectSystem=strict\nProtectHome=yes\nPrivateTmp=yes\nReadWritePaths=/etc/coolify /data/coolify /var/lib/containers\nReadWritePaths=-/run/containers -/run/netavark -/run/libpod\n"@ =~= "NoNewPrivileges=yes\nProtectSystem=strict\nProtectHome=yes\nPrivateTmp=yes\n"@ + "ReadWritePaths=/etc/coolify /data/coolify /var/lib/containers\n"@ + "ReadWritePaths=-/run/containers -/run/netavark -/run/libpod\n"@) by {
            reveal_strlit("NoNewPrivileges=yes\nProtectSystem=strict\nProtectHome=yes\nPrivateTmp=yes\nReadWritePaths=/etc/coolify /data/coolify /var/lib/containers\nReadWritePaths=-/run/containers -/run/netavark -/run/libpod\n");
            reveal_strlit("NoNewPrivileges=yes\nProtectSystem=strict\nProtectHome=yes\nPrivateTmp=yes\n");
            reveal_strlit("ReadWritePaths=/etc/coolify /data/coolify /var/lib/containers\n");
            reveal_strlit("ReadWritePaths=-/run/containers -/run/netavark -/run/libpod\n");
        }
        let x = "NoNewPrivileges=yes\nProtectSystem=strict\nProtectHome=yes\nPrivateTmp=yes\n"@;
        let m = "ReadWritePaths=/etc/coolify /data/coolify /var/lib/containers\n"@;
        let y = "ReadWritePaths=-/run/containers -/run/netavark -/run/libpod\n"@;
        assert(coold::hardening_directives_text() =~= x + m + y);
        stands_between(x, m, y);
    }
}

/// The unit of coold tells it the address of its node and holds the parts that it is made of.
pub proof fn units_of_coold_hold_their_parts(mgmt_ip: u32, mesh_dns_units: Seq<char>, ns_env: Seq<char>, flux_env: Seq<char>, hardening: Seq<char>)
    ensures
        text::has_text(coold::assemble_unit_text(mgmt_ip, mesh_dns_units, ns_env, flux_env, hardening), "Environment=COOLIFY_COOLD_HOST_MGMT_IP="@ + net::dotted(mgmt_ip) + "\n"@ + ns_env + flux_env + "ExecStart=/usr/local/bin/coold\n"@),
        text::has_text(coold::assemble_unit_text(mgmt_ip, mesh_dns_units, ns_env, flux_env, hardening), "\n"@ + hardening + "Restart=on-failure\n"@),
        text::has_text(coold::assemble_unit_text(mgmt_ip, mesh_dns_units, ns_env, flux_env, hardening), "After=corrosion.service network-online.target podman.socket coolify-mesh-fw.service"@ + mesh_dns_units + "\n"@),
{
    assert(text::has_text(coold::assemble_unit_text(mgmt_ip, mesh_dns_units, ns_env, flux_env, hardening), "Environment=COOLIFY_COOLD_HOST_MGMT_IP="@ + net::dotted(mgmt_ip) + "\n"@ + ns_env + flux_env + "ExecStart=/usr/local/bin/coold\n"@)) by {
        assert("\n\n[Service]\nEnvironment=COOLIFY_COOLD_HOST_MGMT_IP="@ =~= "\n\n[Service]\n"@ + "Environment=COOLIFY_COOLD_HOST_MGMT_IP="@) by {
            reveal_strlit("\n\n[Service]\nEnvironment=COOLIFY_COOLD_HOST_MGMT_IP=");
            reveal_strlit("\n\n[Service]\n");
            reveal_strlit("Environment=COOLIFY_COOLD_HOST_MGMT_IP=");
        }
        assert("ExecStart=/usr/local/bin/coold\nAmbientCapabilities=CAP_NET_BIND_SERVICE CAP_NET_ADMIN CAP_NET_RAW\n"@ =~= "ExecStart=/usr/local/bin/coold\n"@ + "AmbientCapabilities=CAP_NET_BIND_SERVICE CAP_NET_ADMIN CAP_NET_RAW\n"@) by {
            reveal_strlit("ExecStart=/usr/local/bin/coold\nAmbientCapabilities=CAP_NET_BIND_SERVICE CAP_NET_ADMIN CAP_NET_RAW\n");
            reveal_strlit("ExecStart=/usr/local/bin/coold\n");
            reveal_strlit("AmbientCapabilities=CAP_NET_BIND_SERVICE CAP_NET_ADMIN CAP_NET_RAW\n");
        }
        let x = "[Unit]\nDescription=Coolify host agent\nWants=corrosion.service"@ + mesh_dns_units + "\nAfter=corrosion.service network-online.target podman.socket coolify-mesh-fw.service"@ + mesh_dns_units + "\n\n[Service]\n"@;
        let m = "Environment=COOLIFY_COOLD_HOST_MGMT_IP="@ + net::dotted(mgmt_ip) + "\n"@ + ns_env + flux_env + "ExecStart=/usr/local/bin/coold\n"@;
        let y = "AmbientCapabilities=CAP_NET_BIND_SERVICE CAP_NET_ADMIN CAP_NET_RAW\n"@ + hardening + "Restart=on-failure\nRestartSec=2s\n\n[Install]\nWantedBy=multi-user.target\n"@;
        assert(coold::assemble_unit_text(mgmt_ip, mesh_dns_units, ns_env, flux_env, hardening) =~= x + m + y);
        stands_between(x, m, y);
    }
    assert(text::has_text(coold::assemble_unit_text(mgmt_ip, mesh_dns_units, ns_env, flux_env, hardening), "\n"@ + hardening + "Restart=on-failure\n"@)) by {
        assert("ExecStart=/usr/local/bin/coold\nAmbientCapabilities=CAP_NET_BIND_SERVICE CAP_NET_ADMIN CAP_NET_RAW\n"@ =~= "ExecStart=/usr/local/bin/coold\nAmbientCapabilities=CAP_NET_BIND_SERVICE CAP_NET_ADMIN CAP_NET_RAW"@ + "\n"@) by {
            reveal_strlit("ExecStart=/usr/local/bin/coold\nAmbientCapabilities=CAP_NET_BIND_SERVICE CAP_NET_ADMIN CAP_NET_RAW\n");
            reveal_strlit("ExecStart=/usr/local/bin/coold\nAmbientCapabilities=CAP_NET_BIND_SERVICE CAP_NET_ADMIN CAP_NET_RAW");
            reveal_strlit("\n");
        }
        assert("Restart=on-failure\nRestartSec=2s\n\n[Install]\nWantedBy=multi-user.target\n"@ =~= "Restart=on-failure\n"@ + "RestartSec=2s\n\n[Install]\nWantedBy=multi-user.target\n"@) by {
            reveal_strlit("Restart=on-failure\nRestartSec=2s\n\n[Install]\nWantedBy=multi-user.target\n");
            reveal_strlit("Restart=on-failure\n");
            reveal_strlit("RestartSec=2s\n\n[Install]\nWantedBy=multi-user.target\n");
        }
        let x = "[Unit]\nDescription=Coolify host agent\nWants=corrosion.service"@ + mesh_dns_units + "\nAfter=corrosion.service network-online.target podman.socket coolify-mesh-fw.service"@ + mesh_dns_units + "\n\n[Service]\nEnvironment=COOLIFY_COOLD_HOST_MGMT_IP="@ + net::dotted(mgmt_ip) + "\n"@ + ns_env + flux_env + "ExecStart=/usr/local/bin/coold\nAmbientCapabilities=CAP_NET_BIND_SERVICE CAP_NET_ADMIN CAP_NET_RAW"@;
        let m = "\n"@ + hardening + "Restart=on-failure\n"@;
        let y = "RestartSec=2s\n\n[Install]\nWantedBy=multi-user.target\n"@;
        assert(coold::assemble_unit_text(mgmt_ip, mesh_dns_units, ns_env, flux_env, hardening) =~= x + m + y);
        stands_between(x, m, y);
    }
    assert(text::has_text(coold::assemble_unit_text(mgmt_ip, mesh_dns_units, ns_env, flux_env, hardening), "After=corrosion.service network-online.target podman.socket coolify-mesh-fw.service"@ + mesh_dns_units + "\n"@)) by {
        assert("\nAfter=corrosion.service network-online.target podman.socket coolify-mesh-fw.service"@ =~= "\n"@ + "After=corrosion.service network-online.target podman.socket coolify-mesh-fw.service"@) by {
            reveal_strlit("\nAfter=corrosion.service network-online.target podman.socket coolify-mesh-fw.service");
            reveal_strlit("\n");
            reveal_strlit("After=corrosion.service network-online.target podman.socket coolify-mesh-fw.service");
        }
        assert("\n\n[Service]\nEnvironment=COOLIFY_COOLD_HOST_MGMT_IP="@ =~= "\n"@ + "\n[Service]\nEnvironment=COOLIFY_COOLD_HOST_MGMT_IP="@) by {
            reveal_strlit("\n\n[Service]\nEnvironment=COOLIFY_COOLD_HOST_MGMT_IP=");
            reveal_strlit("\n");
            reveal_strlit("\n[Service]\nEnvironment=COOLIFY_COOLD_HOST_MGMT_IP=");
        }
        let x = "[Unit]\nDescription=Coolify host agent\nWants=corrosion.service"@ + mesh_dns_units + "\n"@;
        let m = "After=corrosion.service network-online.target podman.socket coolify-mesh-fw.service"@ + mesh_dns_units + "\n"@;
        let y = "\n[Service]\nEnvironment=COOLIFY_COOLD_HOST_MGMT_IP="@ + net::dotted(mgmt_ip) + "\n"@ + ns_env + flux_env + "ExecStart=/usr/local/bin/coold\nAmbientCapabilities=CAP_NET_BIND_SERVICE CAP_NET_ADMIN CAP_NET_RAW\n"@ + hardening + "Restart=on-failure\nRestartSec=2s\n\n[Install]\nWantedBy=multi-user.target\n"@;
        assert(coold::assemble_unit_text(mgmt_ip, mesh_dns_units, ns_env, flux_env, hardening) =~= x + m + y);
        stands_between(x, m, y);
    }
}

/// The probe prints the public key, the configuration and the dump of the interface under their keys.
#[verifier::rlimit(40)]
pub proof fn probes_read_the_interface(iface: Seq<char>, nslist: Seq<char>)
    ensures
        text::has_text(reconstruct::probe_script_text(iface, nslist), "printf 'PUBLIC_KEY='; cat /etc/wireguard/publickey "@),
        text::has_text(reconstruct::probe_script_text(iface, nslist), "printf 'CONFIG_B64='; base64 -w0 /etc/wireguard/"@ + iface + ".conf "@),
        text::has_text(reconstruct::probe_script_text(iface, nslist), "printf 'WG_DUMP_B64='; wg show "@ + iface + " dump 2>/dev/null | base64 -w0 "@),
{
    assert(text::has_text(reconstruct::probe_script_text(iface, nslist), "printf 'PUBLIC_KEY='; cat /etc/wireguard/publickey "@)) by {
        assert("set +e\nprintf 'WG_INSTALLED='; command -v wg >/dev/null 2>&1 && echo 1 || echo 0\nprintf 'KEYS_EXIST='; test -s /etc/wireguard/publickey && test -s /etc/wireguard/privatekey && echo 1 || echo 0\nprintf 'PUBLIC_KEY='; cat /etc/wireguard/publickey 2>/dev/null || true; echo\nprintf 'CONFIG_B64='; base64 -w0 /etc/wireguard/"@ =~= "set +e\nprintf 'WG_INSTALLED='; command -v wg >/dev/null 2>&1 && echo 1 || echo 0\nprintf 'KEYS_EXIST='; test -s /etc/wireguard/publickey && test -s /etc/wireguard/privatekey && echo 1 || echo 0\n"@ + "printf 'PUBLIC_KEY='; cat /etc/wireguard/publickey "@ + "2>/dev/null || true; echo\nprintf 'CONFIG_B64='; base64 -w0 /etc/wireguard/"@) by {
            reveal_strlit("set +e\nprintf 'WG_INSTALLED='; command -v wg >/dev/null 2>&1 && echo 1 || echo 0\nprintf 'KEYS_EXIST='; test -s /etc/wireguard/publickey && test -s /etc/wireguard/privatekey && echo 1 || echo 0\nprintf 'PUBLIC_KEY='; cat /etc/wireguard/publickey 2>/dev/null || true; echo\nprintf 'CONFIG_B64='; base64 -w0 /etc/wireguard/");
            reveal_strlit("set +e\nprintf 'WG_INSTALLED='; command -v wg >/dev/null 2>&1 && echo 1 || echo 0\nprintf 'KEYS_EXIST='; test -s /etc/wireguard/publickey && test -s /etc/wireguard/privatekey && echo 1 || echo 0\n");
            reveal_strlit("printf 'PUBLIC_KEY='; cat /etc/wireguard/publickey ");
            reveal_strlit("2>/dev/null || true; echo\nprintf 'CONFIG_B64='; base64 -w0 /etc/wireguard/");
        }
        let x = "set +e\nprintf 'WG_INSTALLED='; command -v wg >/dev/null 2>&1 && echo 1 || echo 0\nprintf 'KEYS_EXIST='; test -s /etc/wireguard/publickey && test -s /etc/wireguard/privatekey && echo 1 || echo 0\n"@;
        let m = "printf 'PUBLIC_KEY='; cat /etc/wireguard/publickey "@;
        let y = "2>/dev/null || true; echo\nprintf 'CONFIG_B64='; base64 -w0 /etc/wireguard/"@ + iface + ".conf 2>/dev/null || true; echo\nprintf 'WG_DUMP_B64='; wg show "@ + iface + " dump 2>/dev/null | base64 -w0 || true; echo\nprintf 'PODMAN_INSTALLED='; command -v podman >/dev/null 2>&1 && echo 1 || echo 0\nprintf 'PODMAN_SOCKET_ACTIVE='; systemctl is-active --quiet podman.socket && echo 1 || echo 0\nprintf 'IP_FORWARD='; cat /proc/sys/net/ipv4/ip_forward 2>/dev/null || echo 0\nprintf 'FW_ACTIVE='; systemctl is-active --quiet coolify-mesh-fw.service && echo 1 || echo 0\nprintf 'DEFAULT_DENY='; iptables -S COOLIFY-INTRA 2>/dev/null | grep -q -- '-A COOLIFY-INTRA -j DROP' && echo 1 || echo 0\nprintf 'FW_HASH='; sha256sum /etc/systemd/system/coolify-mesh-fw.service 2>/dev/null | awk '{print $1}'; echo\nprintf 'NFT_AVAILABLE='; command -v nft >/dev/null 2>&1 && echo 1 || echo 0\nprintf 'BRIDGE_TABLE='; nft list table bridge coolify_bridge >/dev/null 2>&1 && echo 1 || echo 0\nprintf 'CORROSION_INSTALLED='; test -x /usr/local/bin/corrosion && echo 1 || echo 0\nprintf 'CORROSION_ACTIVE='; systemctl is-active --quiet corrosion && echo 1 || echo 0\nprintf 'CORROSION_CONFIG_HASH='; sha256sum /etc/corrosion/config.toml 2>/dev/null | awk '{print $1}'; echo\nprintf 'CORROSION_SCHEMA_EXISTS='; test -s /etc/corrosion/schemas/coolify.sql && echo 1 || echo 0\nprintf 'CORROSION_SCHEMA_HASH='; sha256sum /etc/corrosion/schemas/coolify.sql 2>/dev/null | awk '{print $1}'; echo\nprintf 'COOLIFY_COOLD_INSTALLED='; test -x /usr/local/bin/coold && echo 1 || echo 0\nprintf 'COOLIFY_COOLD_ACTIVE='; systemctl is-active --quiet coold && echo 1 || echo 0\nprintf 'CORROSION_VERSION='; cat /usr/local/bin/corrosion.version 2>/dev/null || true; echo\nprintf 'COOLIFY_COOLD_VERSION='; cat /usr/local/bin/coold.version 2>/dev/null || true; echo\nprintf 'COOLIFY_COOLD_UNIT_HASH='; sha256sum /etc/systemd/system/coold.service 2>/dev/null | awk '{print $1}'; echo\nfor ns in "@ + nslist + "; do net=\"coolify-${ns}-mesh\"; printf 'NS=%s|' \"$ns\"; podman network inspect \"$net\" --format '{{.Name}}|{{range .Subnets}}{{.Subnet}}{{end}}|{{.DNSEnabled}}|{{index .Labels \"io.coolify.namespace\"}}' 2>/dev/null || echo 'missing|||'; done\n"@;
        assert(reconstruct::probe_script_text(iface, nslist) =~= x + m + y);
        stands_between(x, m, y);
    }
    assert(text::has_text(reconstruct::probe_script_text(iface, nslist), "printf 'CONFIG_B64='; base64 -w0 /etc/wireguard/"@ + iface + ".conf "@)) by {
        assert("set +e\nprintf 'WG_INSTALLED='; command -v wg >/dev/null 2>&1 && echo 1 || echo 0\nprintf 'KEYS_EXIST='; test -s /etc/wireguard/publickey && test -s /etc/wireguard/privatekey && echo 1 || echo 0\nprintf 'PUBLIC_KEY='; cat /etc/wireguard/publickey 2>/dev/null || true; echo\nprintf 'CONFIG_B64='; base64 -w0 /etc/wireguard/"@ =~= "set +e\nprintf 'WG_INSTALLED='; command -v wg >/dev/null 2>&1 && echo 1 || echo 0\nprintf 'KEYS_EXIST='; test -s /etc/wireguard/publickey && test -s /etc/wireguard/privatekey && echo 1 || echo 0\nprintf 'PUBLIC_KEY='; cat /etc/wireguard/publickey 2>/dev/null || true; echo\n"@ + "printf 'CONFIG_B64='; base64 -w0 /etc/wireguard/"@) by {
            reveal_strlit("set +e\nprintf 'WG_INSTALLED='; command -v wg >/dev/null 2>&1 && echo 1 || echo 0\nprintf 'KEYS_EXIST='; test -s /etc/wireguard/publickey && test -s /etc/wireguard/privatekey && echo 1 || echo 0\nprintf 'PUBLIC_KEY='; cat /etc/wireguard/publickey 2>/dev/null || true; echo\nprintf 'CONFIG_B64='; base64 -w0 /etc/wireguard/");
            reveal_strlit("set +e\nprintf 'WG_INSTALLED='; command -v wg >/dev/null 2>&1 && echo 1 || echo 0\nprintf 'KEYS_EXIST='; test -s /etc/wireguard/publickey && test -s /etc/wireguard/privatekey && echo 1 || echo 0\nprintf 'PUBLIC_KEY='; cat /etc/wireguard/publickey 2>/dev/null || true; echo\n");
            reveal_strlit("printf 'CONFIG_B64='; base64 -w0 /etc/wireguard/");
        }
        assert(".conf 2>/dev/null || true; echo\nprintf 'WG_DUMP_B64='; wg show "@ =~= ".conf "@ + "2>/dev/null || true; echo\nprintf 'WG_DUMP_B64='; wg show "@) by {
            reveal_strlit(".conf 2>/dev/null || true; echo\nprintf 'WG_DUMP_B64='; wg show ");
            reveal_strlit(".conf ");
            reveal_strlit("2>/dev/null || true; echo\nprintf 'WG_DUMP_B64='; wg show ");
        }
        let x = "set +e\nprintf 'WG_INSTALLED='; command -v wg >/dev/null 2>&1 && echo 1 || echo 0\nprintf 'KEYS_EXIST='; test -s /etc/wireguard/publickey && test -s /etc/wireguard/privatekey && echo 1 || echo 0\nprintf 'PUBLIC_KEY='; cat /etc/wireguard/publickey 2>/dev/null || true; echo\n"@;
        let m = "printf 'CONFIG_B64='; base64 -w0 /etc/wireguard/"@ + iface + ".conf "@;
        let y = "2>/dev/null || true; echo\nprintf 'WG_DUMP_B64='; wg show "@ + iface + " dump 2>/dev/null | base64 -w0 || true; echo\nprintf 'PODMAN_INSTALLED='; command -v podman >/dev/null 2>&1 && echo 1 || echo 0\nprintf 'PODMAN_SOCKET_ACTIVE='; systemctl is-active --quiet podman.socket && echo 1 || echo 0\nprintf 'IP_FORWARD='; cat /proc/sys/net/ipv4/ip_forward 2>/dev/null || echo 0\nprintf 'FW_ACTIVE='; systemctl is-active --quiet coolify-mesh-fw.service && echo 1 || echo 0\nprintf 'DEFAULT_DENY='; iptables -S COOLIFY-INTRA 2>/dev/null | grep -q -- '-A COOLIFY-INTRA -j DROP' && echo 1 || echo 0\nprintf 'FW_HASH='; sha256sum /etc/systemd/system/coolify-mesh-fw.service 2>/dev/null | awk '{print $1}'; echo\nprintf 'NFT_AVAILABLE='; command -v nft >/dev/null 2>&1 && echo 1 || echo 0\nprintf 'BRIDGE_TABLE='; nft list table bridge coolify_bridge >/dev/null 2>&1 && echo 1 || echo 0\nprintf 'CORROSION_INSTALLED='; test -x /usr/local/bin/corrosion && echo 1 || echo 0\nprintf 'CORROSION_ACTIVE='; systemctl is-active --quiet corrosion && echo 1 || echo 0\nprintf 'CORROSION_CONFIG_HASH='; sha256sum /etc/corrosion/config.toml 2>/dev/null | awk '{print $1}'; echo\nprintf 'CORROSION_SCHEMA_EXISTS='; test -s /etc/corrosion/schemas/coolify.sql && echo 1 || echo 0\nprintf 'CORROSION_SCHEMA_HASH='; sha256sum /etc/corrosion/schemas/coolify.sql 2>/dev/null | awk '{print $1}'; echo\nprintf 'COOLIFY_COOLD_INSTALLED='; test -x /usr/local/bin/coold && echo 1 || echo 0\nprintf 'COOLIFY_COOLD_ACTIVE='; systemctl is-active --quiet coold && echo 1 || echo 0\nprintf 'CORROSION_VERSION='; cat /usr/local/bin/corrosion.version 2>/dev/null || true; echo\nprintf 'COOLIFY_COOLD_VERSION='; cat /usr/local/bin/coold.version 2>/dev/null || true; echo\nprintf 'COOLIFY_COOLD_UNIT_HASH='; sha256sum /etc/systemd/system/coold.service 2>/dev/null | awk '{print $1}'; echo\nfor ns in "@ + nslist + "; do net=\"coolify-${ns}-mesh\"; printf 'NS=%s|' \"$ns\"; podman network inspect \"$net\" --format '{{.Name}}|{{range .Subnets}}{{.Subnet}}{{end}}|{{.DNSEnabled}}|{{index .Labels \"io.coolify.namespace\"}}' 2>/dev/null || echo 'missing|||'; done\n"@;
        assert(reconstruct::probe_script_text(iface, nslist) =~= x + m + y);
        stands_between(x, m, y);
    }
    assert(text::has_text(reconstruct::probe_script_text(iface, nslist), "printf 'WG_DUMP_B64='; wg show "@ + iface + " dump 2>/dev/null | base64 -w0 "@)) by {
        assert(".conf 2>/dev/null || true; echo\nprintf 'WG_DUMP_B64='; wg show "@ =~= ".conf 2>/dev/null || true; echo\n"@ + "printf 'WG_DUMP_B64='; wg show "@) by {
            reveal_strlit(".conf 2>/dev/null || true; echo\nprintf 'WG_DUMP_B64='; wg show ");
            reveal_strlit(".conf 2>/dev/null || true; echo\n");
            reveal_strlit("printf 'WG_DUMP_B64='; wg show ");
        }
        assert(" dump 2>/dev/null | base64 -w0 || true; echo\nprintf 'PODMAN_INSTALLED='; command -v podman >/dev/null 2>&1 && echo 1 || echo 0\nprintf 'PODMAN_SOCKET_ACTIVE='; systemctl is-active --quiet podman.socket && echo 1 || echo 0\nprintf 'IP_FORWARD='; cat /proc/sys/net/ipv4/ip_forward 2>/dev/null || echo 0\nprintf 'FW_ACTIVE='; systemctl is-active --quiet coolify-mesh-fw.service && echo 1 || echo 0\nprintf 'DEFAULT_DENY='; iptables -S COOLIFY-INTRA 2>/dev/null | grep -q -- '-A COOLIFY-INTRA -j DROP' && echo 1 || echo 0\nprintf 'FW_HASH='; sha256sum /etc/systemd/system/coolify-mesh-fw.service 2>/dev/null | awk '{print $1}'; echo\nprintf 'NFT_AVAILABLE='; command -v nft >/dev/null 2>&1 && echo 1 || echo 0\nprintf 'BRIDGE_TABLE='; nft list table bridge coolify_bridge >/dev/null 2>&1 && echo 1 || echo 0\nprintf 'CORROSION_INSTALLED='; test -x /usr/local/bin/corrosion && echo 1 || echo 0\nprintf 'CORROSION_ACTIVE='; systemctl is-active --quiet corrosion && echo 1 || echo 0\nprintf 'CORROSION_CONFIG_HASH='; sha256sum /etc/corrosion/config.toml 2>/dev/null | awk '{print $1}'; echo\nprintf 'CORROSION_SCHEMA_EXISTS='; test -s /etc/corrosion/schemas/coolify.sql && echo 1 || echo 0\nprintf 'CORROSION_SCHEMA_HASH='; sha256sum /etc/corrosion/schemas/coolify.sql 2>/dev/null | awk '{print $1}'; echo\nprintf 'COOLIFY_COOLD_INSTALLED='; test -x /usr/local/bin/coold && echo 1 || echo 0\nprintf 'COOLIFY_COOLD_ACTIVE='; systemctl is-active --quiet coold && echo 1 || echo 0\nprintf 'CORROSION_VERSION='; cat /usr/local/bin/corrosion.version 2>/dev/null || true; echo\nprintf 'COOLIFY_COOLD_VERSION='; cat /usr/local/bin/coold.version 2>/dev/null || true; echo\nprintf 'COOLIFY_COOLD_UNIT_HASH='; sha256sum /etc/systemd/system/coold.service 2>/dev/null | awk '{print $1}'; echo\nfor ns in "@ =~= " dump 2>/dev/null | base64 -w0 "@ + "|| true; echo\nprintf 'PODMAN_INSTALLED='; command -v podman >/dev/null 2>&1 && echo 1 || echo 0\nprintf 'PODMAN_SOCKET_ACTIVE='; systemctl is-active --quiet podman.socket && echo 1 || echo 0\nprintf 'IP_FORWARD='; cat /proc/sys/net/ipv4/ip_forward 2>/dev/null || echo 0\nprintf 'FW_ACTIVE='; systemctl is-active --quiet coolify-mesh-fw.service && echo 1 || echo 0\nprintf 'DEFAULT_DENY='; iptables -S COOLIFY-INTRA 2>/dev/null | grep -q -- '-A COOLIFY-INTRA -j DROP' && echo 1 || echo 0\nprintf 'FW_HASH='; sha256sum /etc/systemd/system/coolify-mesh-fw.service 2>/dev/null | awk '{print $1}'; echo\nprintf 'NFT_AVAILABLE='; command -v nft >/dev/null 2>&1 && echo 1 || echo 0\nprintf 'BRIDGE_TABLE='; nft list table bridge coolify_bridge >/dev/null 2>&1 && echo 1 || echo 0\nprintf 'CORROSION_INSTALLED='; test -x /usr/local/bin/corrosion && echo 1 || echo 0\nprintf 'CORROSION_ACTIVE='; systemctl is-active --quiet corrosion && echo 1 || echo 0\nprintf 'CORROSION_CONFIG_HASH='; sha256sum /etc/corrosion/config.toml 2>/dev/null | awk '{print $1}'; echo\nprintf 'CORROSION_SCHEMA_EXISTS='; test -s /etc/corrosion/schemas/coolify.sql && echo 1 || echo 0\nprintf 'CORROSION_SCHEMA_HASH='; sha256sum /etc/corrosion/schemas/coolify.sql 2>/dev/null | awk '{print $1}'; echo\nprintf 'COOLIFY_COOLD_INSTALLED='; test -x /usr/local/bin/coold && echo 1 || echo 0\nprintf 'COOLIFY_COOLD_ACTIVE='; systemctl is-active --quiet coold && echo 1 || echo 0\nprintf 'CORROSION_VERSION='; cat /usr/local/bin/corrosion.version 2>/dev/null || true; echo\nprintf 'COOLIFY_COOLD_VERSION='; cat /usr/local/bin/coold.version 2>/dev/null || true; echo\nprintf 'COOLIFY_COOLD_UNIT_HASH='; sha256sum /etc/systemd/system/coold.service 2>/dev/null | awk '{print $1}'; echo\nfor ns in "@) by {
            reveal_strlit(" dump 2>/dev/null | base64 -w0 || true; echo\nprintf 'PODMAN_INSTALLED='; command -v podman >/dev/null 2>&1 && echo 1 || echo 0\nprintf 'PODMAN_SOCKET_ACTIVE='; systemctl is-active --quiet podman.socket && echo 1 || echo 0\nprintf 'IP_FORWARD='; cat /proc/sys/net/ipv4/ip_forward 2>/dev/null || echo 0\nprintf 'FW_ACTIVE='; systemctl is-active --quiet coolify-mesh-fw.service && echo 1 || echo 0\nprintf 'DEFAULT_DENY='; iptables -S COOLIFY-INTRA 2>/dev/null | grep -q -- '-A COOLIFY-INTRA -j DROP' && echo 1 || echo 0\nprintf 'FW_HASH='; sha256sum /etc/systemd/system/coolify-mesh-fw.service 2>/dev/null | awk '{print $1}'; echo\nprintf 'NFT_AVAILABLE='; command -v nft >/dev/null 2>&1 && echo 1 || echo 0\nprintf 'BRIDGE_TABLE='; nft list table bridge coolify_bridge >/dev/null 2>&1 && echo 1 || echo 0\nprintf 'CORROSION_INSTALLED='; test -x /usr/local/bin/corrosion && echo 1 || echo 0\nprintf 'CORROSION_ACTIVE='; systemctl is-active --quiet corrosion && echo 1 || echo 0\nprintf 'CORROSION_CONFIG_HASH='; sha256sum /etc/corrosion/config.toml 2>/dev/null | awk '{print $1}'; echo\nprintf 'CORROSION_SCHEMA_EXISTS='; test -s /etc/corrosion/schemas/coolify.sql && echo 1 || echo 0\nprintf 'CORROSION_SCHEMA_HASH='; sha256sum /etc/corrosion/schemas/coolify.sql 2>/dev/null | awk '{print $1}'; echo\nprintf 'COOLIFY_COOLD_INSTALLED='; test -x /usr/local/bin/coold && echo 1 || echo 0\nprintf 'COOLIFY_COOLD_ACTIVE='; systemctl is-active --quiet coold && echo 1 || echo 0\nprintf 'CORROSION_VERSION='; cat /usr/local/bin/corrosion.version 2>/dev/null || true; echo\nprintf 'COOLIFY_COOLD_VERSION='; cat /usr/local/bin/coold.version 2>/dev/null || true; echo\nprintf 'COOLIFY_COOLD_UNIT_HASH='; sha256sum /etc/systemd/system/coold.service 2>/dev/null | awk '{print $1}'; echo\nfor ns in ");
            reveal_strlit(" dump 2>/dev/null | base64 -w0 ");
            reveal_strlit("|| true; echo\nprintf 'PODMAN_INSTALLED='; command -v podman >/dev/null 2>&1 && echo 1 || echo 0\nprintf 'PODMAN_SOCKET_ACTIVE='; systemctl is-active --quiet podman.socket && echo 1 || echo 0\nprintf 'IP_FORWARD='; cat /proc/sys/net/ipv4/ip_forward 2>/dev/null || echo 0\nprintf 'FW_ACTIVE='; systemctl is-active --quiet coolify-mesh-fw.service && echo 1 || echo 0\nprintf 'DEFAULT_DENY='; iptables -S COOLIFY-INTRA 2>/dev/null | grep -q -- '-A COOLIFY-INTRA -j DROP' && echo 1 || echo 0\nprintf 'FW_HASH='; sha256sum /etc/systemd/system/coolify-mesh-fw.service 2>/dev/null | awk '{print $1}'; echo\nprintf 'NFT_AVAILABLE='; command -v nft >/dev/null 2>&1 && echo 1 || echo 0\nprintf 'BRIDGE_TABLE='; nft list table bridge coolify_bridge >/dev/null 2>&1 && echo 1 || echo 0\nprintf 'CORROSION_INSTALLED='; test -x /usr/local/bin/corrosion && echo 1 || echo 0\nprintf 'CORROSION_ACTIVE='; systemctl is-active --quiet corrosion && echo 1 || echo 0\nprintf 'CORROSION_CONFIG_HASH='; sha256sum /etc/corrosion/config.toml 2>/dev/null | awk '{print $1}'; echo\nprintf 'CORROSION_SCHEMA_EXISTS='; test -s /etc/corrosion/schemas/coolify.sql && echo 1 || echo 0\nprintf 'CORROSION_SCHEMA_HASH='; sha256sum /etc/corrosion/schemas/coolify.sql 2>/dev/null | awk '{print $1}'; echo\nprintf 'COOLIFY_COOLD_INSTALLED='; test -x /usr/local/bin/coold && echo 1 || echo 0\nprintf 'COOLIFY_COOLD_ACTIVE='; systemctl is-active --quiet coold && echo 1 || echo 0\nprintf 'CORROSION_VERSION='; cat /usr/local/bin/corrosion.version 2>/dev/null || true; echo\nprintf 'COOLIFY_COOLD_VERSION='; cat /usr/local/bin/coold.version 2>/dev/null || true; echo\nprintf 'COOLIFY_COOLD_UNIT_HASH='; sha256sum /etc/systemd/system/coold.service 2>/dev/null | awk '{print $1}'; echo\nfor ns in ");
        }
        let x = "set +e\nprintf 'WG_INSTALLED='; command -v wg >/dev/null 2>&1 && echo 1 || echo 0\nprintf 'KEYS_EXIST='; test -s /etc/wireguard/publickey && test -s /etc/wireguard/privatekey && echo 1 || echo 0\nprintf 'PUBLIC_KEY='; cat /etc/wireguard/publickey 2>/dev/null || true; echo\nprintf 'CONFIG_B64='; base64 -w0 /etc/wireguard/"@ + iface + ".conf 2>/dev/null || true; echo\n"@;
        let m = "printf 'WG_DUMP_B64='; wg show "@ + iface + " dump 2>/dev/null | base64 -w0 "@;
        let y = "|| true; echo\nprintf 'PODMAN_INSTALLED='; command -v podman >/dev/null 2>&1 && echo 1 || echo 0\nprintf 'PODMAN_SOCKET_ACTIVE='; systemctl is-active --quiet podman.socket && echo 1 || echo 0\nprintf 'IP_FORWARD='; cat /proc/sys/net/ipv4/ip_forward 2>/dev/null || echo 0\nprintf 'FW_ACTIVE='; systemctl is-active --quiet coolify-mesh-fw.service && echo 1 || echo 0\nprintf 'DEFAULT_DENY='; iptables -S COOLIFY-INTRA 2>/dev/null | grep -q -- '-A COOLIFY-INTRA -j DROP' && echo 1 || echo 0\nprintf 'FW_HASH='; sha256sum /etc/systemd/system/coolify-mesh-fw.service 2>/dev/null | awk '{print $1}'; echo\nprintf 'NFT_AVAILABLE='; command -v nft >/dev/null 2>&1 && echo 1 || echo 0\nprintf 'BRIDGE_TABLE='; nft list table bridge coolify_bridge >/dev/null 2>&1 && echo 1 || echo 0\nprintf 'CORROSION_INSTALLED='; test -x /usr/local/bin/corrosion && echo 1 || echo 0\nprintf 'CORROSION_ACTIVE='; systemctl is-active --quiet corrosion && echo 1 || echo 0\nprintf 'CORROSION_CONFIG_HASH='; sha256sum /etc/corrosion/config.toml 2>/dev/null | awk '{print $1}'; echo\nprintf 'CORROSION_SCHEMA_EXISTS='; test -s /etc/corrosion/schemas/coolify.sql && echo 1 || echo 0\nprintf 'CORROSION_SCHEMA_HASH='; sha256sum /etc/corrosion/schemas/coolify.sql 2>/dev/null | awk '{print $1}'; echo\nprintf 'COOLIFY_COOLD_INSTALLED='; test -x /usr/local/bin/coold && echo 1 || echo 0\nprintf 'COOLIFY_COOLD_ACTIVE='; systemctl is-active --quiet coold && echo 1 || echo 0\nprintf 'CORROSION_VERSION='; cat /usr/local/bin/corrosion.version 2>/dev/null || true; echo\nprintf 'COOLIFY_COOLD_VERSION='; cat /usr/local/bin/coold.version 2>/dev/null || true; echo\nprintf 'COOLIFY_COOLD_UNIT_HASH='; sha256sum /etc/systemd/system/coold.service 2>/dev/null | awk '{print $1}'; echo\nfor ns in "@ + nslist + "; do net=\"coolify-${ns}-mesh\"; printf 'NS=%s|' \"$ns\"; podman network inspect \"$net\" --format '{{.Name}}|{{range .Subnets}}{{.Subnet}}{{end}}|{{.DNSEnabled}}|{{index .Labels \"io.coolify.namespace\"}}' 2>/dev/null || echo 'missing|||'; done\n"@;
        assert(reconstruct::probe_script_text(iface, nslist) =~= x + m + y);
        stands_between(x, m, y);
    }
}

/// The probe takes a node for one that denies by default if it finds the rule that the unit adds.
#[verifier::rlimit(40)]
pub proof fn probes_look_for_the_dropping_rule(iface: Seq<char>, nslist: Seq<char>)
    ensures
        text::has_text(reconstruct::probe_script_text(iface, nslist), "printf 'DEFAULT_DENY='; iptables -S COOLIFY-INTRA 2>/dev/null | grep -q -- '-A COOLIFY-INTRA -j DROP' && echo 1 || echo 0\n"@),
{
    assert(text::has_text(reconstruct::probe_script_text(iface, nslist), "printf 'DEFAULT_DENY='; iptables -S COOLIFY-INTRA 2>/dev/null | grep -q -- '-A COOLIFY-INTRA -j DROP' && echo 1 || echo 0\n"@)) by {
        assert(" dump 2>/dev/null | base64 -w0 || true; echo\nprintf 'PODMAN_INSTALLED='; command -v podman >/dev/null 2>&1 && echo 1 || echo 0\nprintf 'PODMAN_SOCKET_ACTIVE='; systemctl is-active --quiet podman.socket && echo 1 || echo 0\nprintf 'IP_FORWARD='; cat /proc/sys/net/ipv4/ip_forward 2>/dev/null || echo 0\nprintf 'FW_ACTIVE='; systemctl is-active --quiet coolify-mesh-fw.service && echo 1 || echo 0\nprintf 'DEFAULT_DENY='; iptables -S COOLIFY-INTRA 2>/dev/null | grep -q -- '-A COOLIFY-INTRA -j DROP' && echo 1 || echo 0\nprintf 'FW_HASH='; sha256sum /etc/systemd/system/coolify-mesh-fw.service 2>/dev/null | awk '{print $1}'; echo\nprintf 'NFT_AVAILABLE='; command -v nft >/dev/null 2>&1 && echo 1 || echo 0\nprintf 'BRIDGE_TABLE='; nft list table bridge coolify_bridge >/dev/null 2>&1 && echo 1 || echo 0\nprintf 'CORROSION_INSTALLED='; test -x /usr/local/bin/corrosion && echo 1 || echo 0\nprintf 'CORROSION_ACTIVE='; systemctl is-active --quiet corrosion && echo 1 || echo 0\nprintf 'CORROSION_CONFIG_HASH='; sha256sum /etc/corrosion/config.toml 2>/dev/null | awk '{print $1}'; echo\nprintf 'CORROSION_SCHEMA_EXISTS='; test -s /etc/corrosion/schemas/coolify.sql && echo 1 || echo 0\nprintf 'CORROSION_SCHEMA_HASH='; sha256sum /etc/corrosion/schemas/coolify.sql 2>/dev/null | awk '{print $1}'; echo\nprintf 'COOLIFY_COOLD_INSTALLED='; test -x /usr/local/bin/coold && echo 1 || echo 0\nprintf 'COOLIFY_COOLD_ACTIVE='; systemctl is-active --quiet coold && echo 1 || echo 0\nprintf 'CORROSION_VERSION='; cat /usr/local/bin/corrosion.version 2>/dev/null || true; echo\nprintf 'COOLIFY_COOLD_VERSION='; cat /usr/local/bin/coold.version 2>/dev/null || true; echo\nprintf 'COOLIFY_COOLD_UNIT_HASH='; sha256sum /etc/systemd/system/coold.service 2>/dev/null | awk '{print $1}'; echo\nfor ns in "@ =~= " dump 2>/dev/null | base64 -w0 || true; echo\nprintf 'PODMAN_INSTALLED='; command -v podman >/dev/null 2>&1 && echo 1 || echo 0\nprintf 'PODMAN_SOCKET_ACTIVE='; systemctl is-active --quiet podman.socket && echo 1 || echo 0\nprintf 'IP_FORWARD='; cat /proc/sys/net/ipv4/ip_forward 2>/dev/null || echo 0\nprintf 'FW_ACTIVE='; systemctl is-active --quiet coolify-mesh-fw.service && echo 1 || echo 0\n"@ + "printf 'DEFAULT_DENY='; iptables -S COOLIFY-INTRA 2>/dev/null | grep -q -- '-A COOLIFY-INTRA -j DROP' && echo 1 || echo 0\n"@ + "printf 'FW_HASH='; sha256sum /etc/systemd/system/coolify-mesh-fw.service 2>/dev/null | awk '{print $1}'; echo\nprintf 'NFT_AVAILABLE='; command -v nft >/dev/null 2>&1 && echo 1 || echo 0\nprintf 'BRIDGE_TABLE='; nft list table bridge coolify_bridge >/dev/null 2>&1 && echo 1 || echo 0\nprintf 'CORROSION_INSTALLED='; test -x /usr/local/bin/corrosion && echo 1 || echo 0\nprintf 'CORROSION_ACTIVE='; systemctl is-active --quiet corrosion && echo 1 || echo 0\nprintf 'CORROSION_CONFIG_HASH='; sha256sum /etc/corrosion/config.toml 2>/dev/null | awk '{print $1}'; echo\nprintf 'CORROSION_SCHEMA_EXISTS='; test -s /etc/corrosion/schemas/coolify.sql && echo 1 || echo 0\nprintf 'CORROSION_SCHEMA_HASH='; sha256sum /etc/corrosion/schemas/coolify.sql 2>/dev/null | awk '{print $1}'; echo\nprintf 'COOLIFY_COOLD_INSTALLED='; test -x /usr/local/bin/coold && echo 1 || echo 0\nprintf 'COOLIFY_COOLD_ACTIVE='; systemctl is-active --quiet coold && echo 1 || echo 0\nprintf 'CORROSION_VERSION='; cat /usr/local/bin/corrosion.version 2>/dev/null || true; echo\nprintf 'COOLIFY_COOLD_VERSION='; cat /usr/local/bin/coold.version 2>/dev/null || true; echo\nprintf 'COOLIFY_COOLD_UNIT_HASH='; sha256sum /etc/systemd/system/coold.service 2>/dev/null | awk '{print $1}'; echo\nfor ns in "@) by {
            reveal_strlit(" dump 2>/dev/null | base64 -w0 || true; echo\nprintf 'PODMAN_INSTALLED='; command -v podman >/dev/null 2>&1 && echo 1 || echo 0\nprintf 'PODMAN_SOCKET_ACTIVE='; systemctl is-active --quiet podman.socket && echo 1 || echo 0\nprintf 'IP_FORWARD='; cat /proc/sys/net/ipv4/ip_forward 2>/dev/null || echo 0\nprintf 'FW_ACTIVE='; systemctl is-active --quiet coolify-mesh-fw.service && echo 1 || echo 0\nprintf 'DEFAULT_DENY='; iptables -S COOLIFY-INTRA 2>/dev/null | grep -q -- '-A COOLIFY-INTRA -j DROP' && echo 1 || echo 0\nprintf 'FW_HASH='; sha256sum /etc/systemd/system/coolify-mesh-fw.service 2>/dev/null | awk '{print $1}'; echo\nprintf 'NFT_AVAILABLE='; command -v nft >/dev/null 2>&1 && echo 1 || echo 0\nprintf 'BRIDGE_TABLE='; nft list table bridge coolify_bridge >/dev/null 2>&1 && echo 1 || echo 0\nprintf 'CORROSION_INSTALLED='; test -x /usr/local/bin/corrosion && echo 1 || echo 0\nprintf 'CORROSION_ACTIVE='; systemctl is-active --quiet corrosion && echo 1 || echo 0\nprintf 'CORROSION_CONFIG_HASH='; sha256sum /etc/corrosion/config.toml 2>/dev/null | awk '{print $1}'; echo\nprintf 'CORROSION_SCHEMA_EXISTS='; test -s /etc/corrosion/schemas/coolify.sql && echo 1 || echo 0\nprintf 'CORROSION_SCHEMA_HASH='; sha256sum /etc/corrosion/schemas/coolify.sql 2>/dev/null | awk '{print $1}'; echo\nprintf 'COOLIFY_COOLD_INSTALLED='; test -x /usr/local/bin/coold && echo 1 || echo 0\nprintf 'COOLIFY_COOLD_ACTIVE='; systemctl is-active --quiet coold && echo 1 || echo 0\nprintf 'CORROSION_VERSION='; cat /usr/local/bin/corrosion.version 2>/dev/null || true; echo\nprintf 'COOLIFY_COOLD_VERSION='; cat /usr/local/bin/coold.version 2>/dev/null || true; echo\nprintf 'COOLIFY_COOLD_UNIT_HASH='; sha256sum /etc/systemd/system/coold.service 2>/dev/null | awk '{print $1}'; echo\nfor ns in ");
            reveal_strlit(" dump 2>/dev/null | base64 -w0 || true; echo\nprintf 'PODMAN_INSTALLED='; command -v podman >/dev/null 2>&1 && echo 1 || echo 0\nprintf 'PODMAN_SOCKET_ACTIVE='; systemctl is-active --quiet podman.socket && echo 1 || echo 0\nprintf 'IP_FORWARD='; cat /proc/sys/net/ipv4/ip_forward 2>/dev/null || echo 0\nprintf 'FW_ACTIVE='; systemctl is-active --quiet coolify-mesh-fw.service && echo 1 || echo 0\n");
            reveal_strlit("printf 'DEFAULT_DENY='; iptables -S COOLIFY-INTRA 2>/dev/null | grep -q -- '-A COOLIFY-INTRA -j DROP' && echo 1 || echo 0\n");
            reveal_strlit("printf 'FW_HASH='; sha256sum /etc/systemd/system/coolify-mesh-fw.service 2>/dev/null | awk '{print $1}'; echo\nprintf 'NFT_AVAILABLE='; command -v nft >/dev/null 2>&1 && echo 1 || echo 0\nprintf 'BRIDGE_TABLE='; nft list table bridge coolify_bridge >/dev/null 2>&1 && echo 1 || echo 0\nprintf 'CORROSION_INSTALLED='; test -x /usr/local/bin/corrosion && echo 1 || echo 0\nprintf 'CORROSION_ACTIVE='; systemctl is-active --quiet corrosion && echo 1 || echo 0\nprintf 'CORROSION_CONFIG_HASH='; sha256sum /etc/corrosion/config.toml 2>/dev/null | awk '{print $1}'; echo\nprintf 'CORROSION_SCHEMA_EXISTS='; test -s /etc/corrosion/schemas/coolify.sql && echo 1 || echo 0\nprintf 'CORROSION_SCHEMA_HASH='; sha256sum /etc/corrosion/schemas/coolify.sql 2>/dev/null | awk '{print $1}'; echo\nprintf 'COOLIFY_COOLD_INSTALLED='; test -x /usr/local/bin/coold && echo 1 || echo 0\nprintf 'COOLIFY_COOLD_ACTIVE='; systemctl is-active --quiet coold && echo 1 || echo 0\nprintf 'CORROSION_VERSION='; cat /usr/local/bin/corrosion.version 2>/dev/null || true; echo\nprintf 'COOLIFY_COOLD_VERSION='; cat /usr/local/bin/coold.version 2>/dev/null || true; echo\nprintf 'COOLIFY_COOLD_UNIT_HASH='; sha256sum /etc/systemd/system/coold.service 2>/dev/null | awk '{print $1}'; echo\nfor ns in ");
        }
        let x = "set +e\nprintf 'WG_INSTALLED='; command -v wg >/dev/null 2>&1 && echo 1 || echo 0\nprintf 'KEYS_EXIST='; test -s /etc/wireguard/publickey && test -s /etc/wireguard/privatekey && echo 1 || echo 0\nprintf 'PUBLIC_KEY='; cat /etc/wireguard/publickey 2>/dev/null || true; echo\nprintf 'CONFIG_B64='; base64 -w0 /etc/wireguard/"@ + iface + ".conf 2>/dev/null || true; echo\nprintf 'WG_DUMP_B64='; wg show "@ + iface + " dump 2>/dev/null | base64 -w0 || true; echo\nprintf 'PODMAN_INSTALLED='; command -v podman >/dev/null 2>&1 && echo 1 || echo 0\nprintf 'PODMAN_SOCKET_ACTIVE='; systemctl is-active --quiet podman.socket && echo 1 || echo 0\nprintf 'IP_FORWARD='; cat /proc/sys/net/ipv4/ip_forward 2>/dev/null || echo 0\nprintf 'FW_ACTIVE='; systemctl is-active --quiet coolify-mesh-fw.service && echo 1 || echo 0\n"@;
        let m = "printf 'DEFAULT_DENY='; iptables -S COOLIFY-INTRA 2>/dev/null | grep -q -- '-A COOLIFY-INTRA -j DROP' && echo 1 || echo 0\n"@;
        let y = "printf 'FW_HASH='; sha256sum /etc/systemd/system/coolify-mesh-fw.service 2>/dev/null | awk '{print $1}'; echo\nprintf 'NFT_AVAILABLE='; command -v nft >/dev/null 2>&1 && echo 1 || echo 0\nprintf 'BRIDGE_TABLE='; nft list table bridge coolify_bridge >/dev/null 2>&1 && echo 1 || echo 0\nprintf 'CORROSION_INSTALLED='; test -x /usr/local/bin/corrosion && echo 1 || echo 0\nprintf 'CORROSION_ACTIVE='; systemctl is-active --quiet corrosion && echo 1 || echo 0\nprintf 'CORROSION_CONFIG_HASH='; sha256sum /etc/corrosion/config.toml 2>/dev/null | awk '{print $1}'; echo\nprintf 'CORROSION_SCHEMA_EXISTS='; test -s /etc/corrosion/schemas/coolify.sql && echo 1 || echo 0\nprintf 'CORROSION_SCHEMA_HASH='; sha256sum /etc/corrosion/schemas/coolify.sql 2>/dev/null | awk '{print $1}'; echo\nprintf 'COOLIFY_COOLD_INSTALLED='; test -x /usr/local/bin/coold && echo 1 || echo 0\nprintf 'COOLIFY_COOLD_ACTIVE='; systemctl is-active --quiet coold && echo 1 || echo 0\nprintf 'CORROSION_VERSION='; cat /usr/local/bin/corrosion.version 2>/dev/null || true; echo\nprintf 'COOLIFY_COOLD_VERSION='; cat /usr/local/bin/coold.version 2>/dev/null || true; echo\nprintf 'COOLIFY_COOLD_UNIT_HASH='; sha256sum /etc/systemd/system/coold.service 2>/dev/null | awk '{print $1}'; echo\nfor ns in "@ + nslist + "; do net=\"coolify-${ns}-mesh\"; printf 'NS=%s|' \"$ns\"; podman network inspect \"$net\" --format '{{.Name}}|{{range .Subnets}}{{.Subnet}}{{end}}|{{.DNSEnabled}}|{{index .Labels \"io.coolify.namespace\"}}' 2>/dev/null || echo 'missing|||'; done\n"@;
        assert(reconstruct::probe_script_text(iface, nslist) =~= x + m + y);
        stands_between(x, m, y);
    }
}

/// The probe digests the unit of the firewall where it is written.
#[verifier::rlimit(40)]
pub proof fn probes_digest_the_firewall(iface: Seq<char>, nslist: Seq<char>)
    ensures
        text::has_text(reconstruct::probe_script_text(iface, nslist), "printf 'FW_HASH='; sha256sum /etc/systemd/system/coolify-mesh-fw.service "@),
{
    assert(text::has_text(reconstruct::probe_script_text(iface, nslist), "printf 'FW_HASH='; sha256sum /etc/systemd/system/coolify-mesh-fw.service "@)) by {
        assert(" dump 2>/dev/null | base64 -w0 || true; echo\nprintf 'PODMAN_INSTALLED='; command -v podman >/dev/null 2>&1 && echo 1 || echo 0\nprintf 'PODMAN_SOCKET_ACTIVE='; systemctl is-active --quiet podman.socket && echo 1 || echo 0\nprintf 'IP_FORWARD='; cat /proc/sys/net/ipv4/ip_forward 2>/dev/null || echo 0\nprintf 'FW_ACTIVE='; systemctl is-active --quiet coolify-mesh-fw.service && echo 1 || echo 0\nprintf 'DEFAULT_DENY='; iptables -S COOLIFY-INTRA 2>/dev/null | grep -q -- '-A COOLIFY-INTRA -j DROP' && echo 1 || echo 0\nprintf 'FW_HASH='; sha256sum /etc/systemd/system/coolify-mesh-fw.service 2>/dev/null | awk '{print $1}'; echo\nprintf 'NFT_AVAILABLE='; command -v nft >/dev/null 2>&1 && echo 1 || echo 0\nprintf 'BRIDGE_TABLE='; nft list table bridge coolify_bridge >/dev/null 2>&1 && echo 1 || echo 0\nprintf 'CORROSION_INSTALLED='; test -x /usr/local/bin/corrosion && echo 1 || echo 0\nprintf 'CORROSION_ACTIVE='; systemctl is-active --quiet corrosion && echo 1 || echo 0\nprintf 'CORROSION_CONFIG_HASH='; sha256sum /etc/corrosion/config.toml 2>/dev/null | awk '{print $1}'; echo\nprintf 'CORROSION_SCHEMA_EXISTS='; test -s /etc/corrosion/schemas/coolify.sql && echo 1 || echo 0\nprintf 'CORROSION_SCHEMA_HASH='; sha256sum /etc/corrosion/schemas/coolify.sql 2>/dev/null | awk '{print $1}'; echo\nprintf 'COOLIFY_COOLD_INSTALLED='; test -x /usr/local/bin/coold && echo 1 || echo 0\nprintf 'COOLIFY_COOLD_ACTIVE='; systemctl is-active --quiet coold && echo 1 || echo 0\nprintf 'CORROSION_VERSION='; cat /usr/local/bin/corrosion.version 2>/dev/null || true; echo\nprintf 'COOLIFY_COOLD_VERSION='; cat /usr/local/bin/coold.version 2>/dev/null || true; echo\nprintf 'COOLIFY_COOLD_UNIT_HASH='; sha256sum /etc/systemd/system/coold.service 2>/dev/null | awk '{print $1}'; echo\nfor ns in "@ =~= " dump 2>/dev/null | base64 -w0 || true; echo\nprintf 'PODMAN_INSTALLED='; command -v podman >/dev/null 2>&1 && echo 1 || echo 0\nprintf 'PODMAN_SOCKET_ACTIVE='; systemctl is-active --quiet podman.socket && echo 1 || echo 0\nprintf 'IP_FORWARD='; cat /proc/sys/net/ipv4/ip_forward 2>/dev/null || echo 0\nprintf 'FW_ACTIVE='; systemctl is-active --quiet coolify-mesh-fw.service && echo 1 || echo 0\nprintf 'DEFAULT_DENY='; iptables -S COOLIFY-INTRA 2>/dev/null | grep -q -- '-A COOLIFY-INTRA -j DROP' && echo 1 || echo 0\n"@ + "printf 'FW_HASH='; sha256sum /etc/systemd/system/coolify-mesh-fw.service "@ + "2>/dev/null | awk '{print $1}'; echo\nprintf 'NFT_AVAILABLE='; command -v nft >/dev/null 2>&1 && echo 1 || echo 0\nprintf 'BRIDGE_TABLE='; nft list table bridge coolify_bridge >/dev/null 2>&1 && echo 1 || echo 0\nprintf 'CORROSION_INSTALLED='; test -x /usr/local/bin/corrosion && echo 1 || echo 0\nprintf 'CORROSION_ACTIVE='; systemctl is-active --quiet corrosion && echo 1 || echo 0\nprintf 'CORROSION_CONFIG_HASH='; sha256sum /etc/corrosion/config.toml 2>/dev/null | awk '{print $1}'; echo\nprintf 'CORROSION_SCHEMA_EXISTS='; test -s /etc/corrosion/schemas/coolify.sql && echo 1 || echo 0\nprintf 'CORROSION_SCHEMA_HASH='; sha256sum /etc/corrosion/schemas/coolify.sql 2>/dev/null | awk '{print $1}'; echo\nprintf 'COOLIFY_COOLD_INSTALLED='; test -x /usr/local/bin/coold && echo 1 || echo 0\nprintf 'COOLIFY_COOLD_ACTIVE='; systemctl is-active --quiet coold && echo 1 || echo 0\nprintf 'CORROSION_VERSION='; cat /usr/local/bin/corrosion.version 2>/dev/null || true; echo\nprintf 'COOLIFY_COOLD_VERSION='; cat /usr/local/bin/coold.version 2>/dev/null || true; echo\nprintf 'COOLIFY_COOLD_UNIT_HASH='; sha256sum /etc/systemd/system/coold.service 2>/dev/null | awk '{print $1}'; echo\nfor ns in "@) by {
            reveal_strlit(" dump 2>/dev/null | base64 -w0 || true; echo\nprintf 'PODMAN_INSTALLED='; command -v podman >/dev/null 2>&1 && echo 1 || echo 0\nprintf 'PODMAN_SOCKET_ACTIVE='; systemctl is-active --quiet podman.socket && echo 1 || echo 0\nprintf 'IP_FORWARD='; cat /proc/sys/net/ipv4/ip_forward 2>/dev/null || echo 0\nprintf 'FW_ACTIVE='; systemctl is-active --quiet coolify-mesh-fw.service && echo 1 || echo 0\nprintf 'DEFAULT_DENY='; iptables -S COOLIFY-INTRA 2>/dev/null | grep -q -- '-A COOLIFY-INTRA -j DROP' && echo 1 || echo 0\nprintf 'FW_HASH='; sha256sum /etc/systemd/system/coolify-mesh-fw.service 2>/dev/null | awk '{print $1}'; echo\nprintf 'NFT_AVAILABLE='; command -v nft >/dev/null 2>&1 && echo 1 || echo 0\nprintf 'BRIDGE_TABLE='; nft list table bridge coolify_bridge >/dev/null 2>&1 && echo 1 || echo 0\nprintf 'CORROSION_INSTALLED='; test -x /usr/local/bin/corrosion && echo 1 || echo 0\nprintf 'CORROSION_ACTIVE='; systemctl is-active --quiet corrosion && echo 1 || echo 0\nprintf 'CORROSION_CONFIG_HASH='; sha256sum /etc/corrosion/config.toml 2>/dev/null | awk '{print $1}'; echo\nprintf 'CORROSION_SCHEMA_EXISTS='; test -s /etc/corrosion/schemas/coolify.sql && echo 1 || echo 0\nprintf 'CORROSION_SCHEMA_HASH='; sha256sum /etc/corrosion/schemas/coolify.sql 2>/dev/null | awk '{print $1}'; echo\nprintf 'COOLIFY_COOLD_INSTALLED='; test -x /usr/local/bin/coold && echo 1 || echo 0\nprintf 'COOLIFY_COOLD_ACTIVE='; systemctl is-active --quiet coold && echo 1 || echo 0\nprintf 'CORROSION_VERSION='; cat /usr/local/bin/corrosion.version 2>/dev/null || true; echo\nprintf 'COOLIFY_COOLD_VERSION='; cat /usr/local/bin/coold.version 2>/dev/null || true; echo\nprintf 'COOLIFY_COOLD_UNIT_HASH='; sha256sum /etc/systemd/system/coold.service 2>/dev/null | awk '{print $1}'; echo\nfor ns in ");
            reveal_strlit(" dump 2>/dev/null | base64 -w0 || true; echo\nprintf 'PODMAN_INSTALLED='; command -v podman >/dev/null 2>&1 && echo 1 || echo 0\nprintf 'PODMAN_SOCKET_ACTIVE='; systemctl is-active --quiet podman.socket && echo 1 || echo 0\nprintf 'IP_FORWARD='; cat /proc/sys/net/ipv4/ip_forward 2>/dev/null || echo 0\nprintf 'FW_ACTIVE='; systemctl is-active --quiet coolify-mesh-fw.service && echo 1 || echo 0\nprintf 'DEFAULT_DENY='; iptables -S COOLIFY-INTRA 2>/dev/null | grep -q -- '-A COOLIFY-INTRA -j DROP' && echo 1 || echo 0\n");
            reveal_strlit("printf 'FW_HASH='; sha256sum /etc/systemd/system/coolify-mesh-fw.service ");
            reveal_strlit("2>/dev/null | awk '{print $1}'; echo\nprintf 'NFT_AVAILABLE='; command -v nft >/dev/null 2>&1 && echo 1 || echo 0\nprintf 'BRIDGE_TABLE='; nft list table bridge coolify_bridge >/dev/null 2>&1 && echo 1 || echo 0\nprintf 'CORROSION_INSTALLED='; test -x /usr/local/bin/corrosion && echo 1 || echo 0\nprintf 'CORROSION_ACTIVE='; systemctl is-active --quiet corrosion && echo 1 || echo 0\nprintf 'CORROSION_CONFIG_HASH='; sha256sum /etc/corrosion/config.toml 2>/dev/null | awk '{print $1}'; echo\nprintf 'CORROSION_SCHEMA_EXISTS='; test -s /etc/corrosion/schemas/coolify.sql && echo 1 || echo 0\nprintf 'CORROSION_SCHEMA_HASH='; sha256sum /etc/corrosion/schemas/coolify.sql 2>/dev/null | awk '{print $1}'; echo\nprintf 'COOLIFY_COOLD_INSTALLED='; test -x /usr/local/bin/coold && echo 1 || echo 0\nprintf 'COOLIFY_COOLD_ACTIVE='; systemctl is-active --quiet coold && echo 1 || echo 0\nprintf 'CORROSION_VERSION='; cat /usr/local/bin/corrosion.version 2>/dev/null || true; echo\nprintf 'COOLIFY_COOLD_VERSION='; cat /usr/local/bin/coold.version 2>/dev/null || true; echo\nprintf 'COOLIFY_COOLD_UNIT_HASH='; sha256sum /etc/systemd/system/coold.service 2>/dev/null | awk '{print $1}'; echo\nfor ns in ");
        }
        let x = "set +e\nprintf 'WG_INSTALLED='; command -v wg >/dev/null 2>&1 && echo 1 || echo 0\nprintf 'KEYS_EXIST='; test -s /etc/wireguard/publickey && test -s /etc/wireguard/privatekey && echo 1 || echo 0\nprintf 'PUBLIC_KEY='; cat /etc/wireguard/publickey 2>/dev/null || true; echo\nprintf 'CONFIG_B64='; base64 -w0 /etc/wireguard/"@ + iface + ".conf 2>/dev/null || true; echo\nprintf 'WG_DUMP_B64='; wg show "@ + iface + " dump 2>/dev/null | base64 -w0 || true; echo\nprintf 'PODMAN_INSTALLED='; command -v podman >/dev/null 2>&1 && echo 1 || echo 0\nprintf 'PODMAN_SOCKET_ACTIVE='; systemctl is-active --quiet podman.socket && echo 1 || echo 0\nprintf 'IP_FORWARD='; cat /proc/sys/net/ipv4/ip_forward 2>/dev/null || echo 0\nprintf 'FW_ACTIVE='; systemctl is-active --quiet coolify-mesh-fw.service && echo 1 || echo 0\nprintf 'DEFAULT_DENY='; iptables -S COOLIFY-INTRA 2>/dev/null | grep -q -- '-A COOLIFY-INTRA -j DROP' && echo 1 || echo 0\n"@;
        let m = "printf 'FW_HASH='; sha256sum /etc/systemd/system/coolify-mesh-fw.service "@;
        let y = "2>/dev/null | awk '{print $1}'; echo\nprintf 'NFT_AVAILABLE='; command -v nft >/dev/null 2>&1 && echo 1 || echo 0\nprintf 'BRIDGE_TABLE='; nft list table bridge coolify_bridge >/dev/null 2>&1 && echo 1 || echo 0\nprintf 'CORROSION_INSTALLED='; test -x /usr/local/bin/corrosion && echo 1 || echo 0\nprintf 'CORROSION_ACTIVE='; systemctl is-active --quiet corrosion && echo 1 || echo 0\nprintf 'CORROSION_CONFIG_HASH='; sha256sum /etc/corrosion/config.toml 2>/dev/null | awk '{print $1}'; echo\nprintf 'CORROSION_SCHEMA_EXISTS='; test -s /etc/corrosion/schemas/coolify.sql && echo 1 || echo 0\nprintf 'CORROSION_SCHEMA_HASH='; sha256sum /etc/corrosion/schemas/coolify.sql 2>/dev/null | awk '{print $1}'; echo\nprintf 'COOLIFY_COOLD_INSTALLED='; test -x /usr/local/bin/coold && echo 1 || echo 0\nprintf 'COOLIFY_COOLD_ACTIVE='; systemctl is-active --quiet coold && echo 1 || echo 0\nprintf 'CORROSION_VERSION='; cat /usr/local/bin/corrosion.version 2>/dev/null || true; echo\nprintf 'COOLIFY_COOLD_VERSION='; cat /usr/local/bin/coold.version 2>/dev/null || true; echo\nprintf 'COOLIFY_COOLD_UNIT_HASH='; sha256sum /etc/systemd/system/coold.service 2>/dev/null | awk '{print $1}'; echo\nfor ns in "@ + nslist + "; do net=\"coolify-${ns}-mesh\"; printf 'NS=%s|' \"$ns\"; podman network inspect \"$net\" --format '{{.Name}}|{{range .Subnets}}{{.Subnet}}{{end}}|{{.DNSEnabled}}|{{index .Labels \"io.coolify.namespace\"}}' 2>/dev/null || echo 'missing|||'; done\n"@;
        assert(reconstruct::probe_script_text(iface, nslist) =~= x + m + y);
        stands_between(x, m, y);
    }
}

/// The probe digests the configuration and the schema of Corrosion where they are written.
#[verifier::rlimit(40)]
pub proof fn probes_digest_the_corrosion_files(iface: Seq<char>, nslist: Seq<char>)
    ensures
        text::has_text(reconstruct::probe_script_text(iface, nslist), "printf 'CORROSION_CONFIG_HASH='; sha256sum /etc/corrosion/config.toml "@),
        text::has_text(reconstruct::probe_script_text(iface, nslist), "printf 'CORROSION_SCHEMA_HASH='; sha256sum /etc/corrosion/schemas/coolify.sql "@),
{
    assert(text::has_text(reconstruct::probe_script_text(iface, nslist), "printf 'CORROSION_CONFIG_HASH='; sha256sum /etc/corrosion/config.toml "@)) by {
        assert(" dump 2>/dev/null | base64 -w0 || true; echo\nprintf 'PODMAN_INSTALLED='; command -v podman >/dev/null 2>&1 && echo 1 || echo 0\nprintf 'PODMAN_SOCKET_ACTIVE='; systemctl is-active --quiet podman.socket && echo 1 || echo 0\nprintf 'IP_FORWARD='; cat /proc/sys/net/ipv4/ip_forward 2>/dev/null || echo 0\nprintf 'FW_ACTIVE='; systemctl is-active --quiet coolify-mesh-fw.service && echo 1 || echo 0\nprintf 'DEFAULT_DENY='; iptables -S COOLIFY-INTRA 2>/dev/null | grep -q -- '-A COOLIFY-INTRA -j DROP' && echo 1 || echo 0\nprintf 'FW_HASH='; sha256sum /etc/systemd/system/coolify-mesh-fw.service 2>/dev/null | awk '{print $1}'; echo\nprintf 'NFT_AVAILABLE='; command -v nft >/dev/null 2>&1 && echo 1 || echo 0\nprintf 'BRIDGE_TABLE='; nft list table bridge coolify_bridge >/dev/null 2>&1 && echo 1 || echo 0\nprintf 'CORROSION_INSTALLED='; test -x /usr/local/bin/corrosion && echo 1 || echo 0\nprintf 'CORROSION_ACTIVE='; systemctl is-active --quiet corrosion && echo 1 || echo 0\nprintf 'CORROSION_CONFIG_HASH='; sha256sum /etc/corrosion/config.toml 2>/dev/null | awk '{print $1}'; echo\nprintf 'CORROSION_SCHEMA_EXISTS='; test -s /etc/corrosion/schemas/coolify.sql && echo 1 || echo 0\nprintf 'CORROSION_SCHEMA_HASH='; sha256sum /etc/corrosion/schemas/coolify.sql 2>/dev/null | awk '{print $1}'; echo\nprintf 'COOLIFY_COOLD_INSTALLED='; test -x /usr/local/bin/coold && echo 1 || echo 0\nprintf 'COOLIFY_COOLD_ACTIVE='; systemctl is-active --quiet coold && echo 1 || echo 0\nprintf 'CORROSION_VERSION='; cat /usr/local/bin/corrosion.version 2>/dev/null || true; echo\nprintf 'COOLIFY_COOLD_VERSION='; cat /usr/local/bin/coold.version 2>/dev/null || true; echo\nprintf 'COOLIFY_COOLD_UNIT_HASH='; sha256sum /etc/systemd/system/coold.service 2>/dev/null | awk '{print $1}'; echo\nfor ns in "@ =~= " dump 2>/dev/null | base64 -w0 || true; echo\nprintf 'PODMAN_INSTALLED='; command -v podman >/dev/null 2>&1 && echo 1 || echo 0\nprintf 'PODMAN_SOCKET_ACTIVE='; systemctl is-active --quiet podman.socket && echo 1 || echo 0\nprintf 'IP_FORWARD='; cat /proc/sys/net/ipv4/ip_forward 2>/dev/null || echo 0\nprintf 'FW_ACTIVE='; systemctl is-active --quiet coolify-mesh-fw.service && echo 1 || echo 0\nprintf 'DEFAULT_DENY='; iptables -S COOLIFY-INTRA 2>/dev/null | grep -q -- '-A COOLIFY-INTRA -j DROP' && echo 1 || echo 0\nprintf 'FW_HASH='; sha256sum /etc/systemd/system/coolify-mesh-fw.service 2>/dev/null | awk '{print $1}'; echo\nprintf 'NFT_AVAILABLE='; command -v nft >/dev/null 2>&1 && echo 1 || echo 0\nprintf 'BRIDGE_TABLE='; nft list table bridge coolify_bridge >/dev/null 2>&1 && echo 1 || echo 0\nprintf 'CORROSION_INSTALLED='; test -x /usr/local/bin/corrosion && echo 1 || echo 0\nprintf 'CORROSION_ACTIVE='; systemctl is-active --quiet corrosion && echo 1 || echo 0\n"@ + "printf 'CORROSION_CONFIG_HASH='; sha256sum /etc/corrosion/config.toml "@ + "2>/dev/null | awk '{print $1}'; echo\nprintf 'CORROSION_SCHEMA_EXISTS='; test -s /etc/corrosion/schemas/coolify.sql && echo 1 || echo 0\nprintf 'CORROSION_SCHEMA_HASH='; sha256sum /etc/corrosion/schemas/coolify.sql 2>/dev/null | awk '{print $1}'; echo\nprintf 'COOLIFY_COOLD_INSTALLED='; test -x /usr/local/bin/coold && echo 1 || echo 0\nprintf 'COOLIFY_COOLD_ACTIVE='; systemctl is-active --quiet coold && echo 1 || echo 0\nprintf 'CORROSION_VERSION='; cat /usr/local/bin/corrosion.version 2>/dev/null || true; echo\nprintf 'COOLIFY_COOLD_VERSION='; cat /usr/local/bin/coold.version 2>/dev/null || true; echo\nprintf 'COOLIFY_COOLD_UNIT_HASH='; sha256sum /etc/systemd/system/coold.service 2>/dev/null | awk '{print $1}'; echo\nfor ns in "@) by {
            reveal_strlit(" dump 2>/dev/null | base64 -w0 || true; echo\nprintf 'PODMAN_INSTALLED='; command -v podman >/dev/null 2>&1 && echo 1 || echo 0\nprintf 'PODMAN_SOCKET_ACTIVE='; systemctl is-active --quiet podman.socket && echo 1 || echo 0\nprintf 'IP_FORWARD='; cat /proc/sys/net/ipv4/ip_forward 2>/dev/null || echo 0\nprintf 'FW_ACTIVE='; systemctl is-active --quiet coolify-mesh-fw.service && echo 1 || echo 0\nprintf 'DEFAULT_DENY='; iptables -S COOLIFY-INTRA 2>/dev/null | grep -q -- '-A COOLIFY-INTRA -j DROP' && echo 1 || echo 0\nprintf 'FW_HASH='; sha256sum /etc/systemd/system/coolify-mesh-fw.service 2>/dev/null | awk '{print $1}'; echo\nprintf 'NFT_AVAILABLE='; command -v nft >/dev/null 2>&1 && echo 1 || echo 0\nprintf 'BRIDGE_TABLE='; nft list table bridge coolify_bridge >/dev/null 2>&1 && echo 1 || echo 0\nprintf 'CORROSION_INSTALLED='; test -x /usr/local/bin/corrosion && echo 1 || echo 0\nprintf 'CORROSION_ACTIVE='; systemctl is-active --quiet corrosion && echo 1 || echo 0\nprintf 'CORROSION_CONFIG_HASH='; sha256sum /etc/corrosion/config.toml 2>/dev/null | awk '{print $1}'; echo\nprintf 'CORROSION_SCHEMA_EXISTS='; test -s /etc/corrosion/schemas/coolify.sql && echo 1 || echo 0\nprintf 'CORROSION_SCHEMA_HASH='; sha256sum /etc/corrosion/schemas/coolify.sql 2>/dev/null | awk '{print $1}'; echo\nprintf 'COOLIFY_COOLD_INSTALLED='; test -x /usr/local/bin/coold && echo 1 || echo 0\nprintf 'COOLIFY_COOLD_ACTIVE='; systemctl is-active --quiet coold && echo 1 || echo 0\nprintf 'CORROSION_VERSION='; cat /usr/local/bin/corrosion.version 2>/dev/null || true; echo\nprintf 'COOLIFY_COOLD_VERSION='; cat /usr/local/bin/coold.version 2>/dev/null || true; echo\nprintf 'COOLIFY_COOLD_UNIT_HASH='; sha256sum /etc/systemd/system/coold.service 2>/dev/null | awk '{print $1}'; echo\nfor ns in ");
            reveal_strlit(" dump 2>/dev/null | base64 -w0 || true; echo\nprintf 'PODMAN_INSTALLED='; command -v podman >/dev/null 2>&1 && echo 1 || echo 0\nprintf 'PODMAN_SOCKET_ACTIVE='; systemctl is-active --quiet podman.socket && echo 1 || echo 0\nprintf 'IP_FORWARD='; cat /proc/sys/net/ipv4/ip_forward 2>/dev/null || echo 0\nprintf 'FW_ACTIVE='; systemctl is-active --quiet coolify-mesh-fw.service && echo 1 || echo 0\nprintf 'DEFAULT_DENY='; iptables -S COOLIFY-INTRA 2>/dev/null | grep -q -- '-A COOLIFY-INTRA -j DROP' && echo 1 || echo 0\nprintf 'FW_HASH='; sha256sum /etc/systemd/system/coolify-mesh-fw.service 2>/dev/null | awk '{print $1}'; echo\nprintf 'NFT_AVAILABLE='; command -v nft >/dev/null 2>&1 && echo 1 || echo 0\nprintf 'BRIDGE_TABLE='; nft list table bridge coolify_bridge >/dev/null 2>&1 && echo 1 || echo 0\nprintf 'CORROSION_INSTALLED='; test -x /usr/local/bin/corrosion && echo 1 || echo 0\nprintf 'CORROSION_ACTIVE='; systemctl is-active --quiet corrosion && echo 1 || echo 0\n");
            reveal_strlit("printf 'CORROSION_CONFIG_HASH='; sha256sum /etc/corrosion/config.toml ");
            reveal_strlit("2>/dev/null | awk '{print $1}'; echo\nprintf 'CORROSION_SCHEMA_EXISTS='; test -s /etc/corrosion/schemas/coolify.sql && echo 1 || echo 0\nprintf 'CORROSION_SCHEMA_HASH='; sha256sum /etc/corrosion/schemas/coolify.sql 2>/dev/null | awk '{print $1}'; echo\nprintf 'COOLIFY_COOLD_INSTALLED='; test -x /usr/local/bin/coold && echo 1 || echo 0\nprintf 'COOLIFY_COOLD_ACTIVE='; systemctl is-active --quiet coold && echo 1 || echo 0\nprintf 'CORROSION_VERSION='; cat /usr/local/bin/corrosion.version 2>/dev/null || true; echo\nprintf 'COOLIFY_COOLD_VERSION='; cat /usr/local/bin/coold.version 2>/dev/null || true; echo\nprintf 'COOLIFY_COOLD_UNIT_HASH='; sha256sum /etc/systemd/system/coold.service 2>/dev/null | awk '{print $1}'; echo\nfor ns in ");
        }
        let x = "set +e\nprintf 'WG_INSTALLED='; command -v wg >/dev/null 2>&1 && echo 1 || echo 0\nprintf 'KEYS_EXIST='; test -s /etc/wireguard/publickey && test -s /etc/wireguard/privatekey && echo 1 || echo 0\nprintf 'PUBLIC_KEY='; cat /etc/wireguard/publickey 2>/dev/null || true; echo\nprintf 'CONFIG_B64='; base64 -w0 /etc/wireguard/"@ + iface + ".conf 2>/dev/null || true; echo\nprintf 'WG_DUMP_B64='; wg show "@ + iface + " dump 2>/dev/null | base64 -w0 || true; echo\nprintf 'PODMAN_INSTALLED='; command -v podman >/dev/null 2>&1 && echo 1 || echo 0\nprintf 'PODMAN_SOCKET_ACTIVE='; systemctl is-active --quiet podman.socket && echo 1 || echo 0\nprintf 'IP_FORWARD='; cat /proc/sys/net/ipv4/ip_forward 2>/dev/null || echo 0\nprintf 'FW_ACTIVE='; systemctl is-active --quiet coolify-mesh-fw.service && echo 1 || echo 0\nprintf 'DEFAULT_DENY='; iptables -S COOLIFY-INTRA 2>/dev/null | grep -q -- '-A COOLIFY-INTRA -j DROP' && echo 1 || echo 0\nprintf 'FW_HASH='; sha256sum /etc/systemd/system/coolify-mesh-fw.service 2>/dev/null | awk '{print $1}'; echo\nprintf 'NFT_AVAILABLE='; command -v nft >/dev/null 2>&1 && echo 1 || echo 0\nprintf 'BRIDGE_TABLE='; nft list table bridge coolify_bridge >/dev/null 2>&1 && echo 1 || echo 0\nprintf 'CORROSION_INSTALLED='; test -x /usr/local/bin/corrosion && echo 1 || echo 0\nprintf 'CORROSION_ACTIVE='; systemctl is-active --quiet corrosion && echo 1 || echo 0\n"@;
        let m = "printf 'CORROSION_CONFIG_HASH='; sha256sum /etc/corrosion/config.toml "@;
        let y = "2>/dev/null | awk '{print $1}'; echo\nprintf 'CORROSION_SCHEMA_EXISTS='; test -s /etc/corrosion/schemas/coolify.sql && echo 1 || echo 0\nprintf 'CORROSION_SCHEMA_HASH='; sha256sum /etc/corrosion/schemas/coolify.sql 2>/dev/null | awk '{print $1}'; echo\nprintf 'COOLIFY_COOLD_INSTALLED='; test -x /usr/local/bin/coold && echo 1 || echo 0\nprintf 'COOLIFY_COOLD_ACTIVE='; systemctl is-active --quiet coold && echo 1 || echo 0\nprintf 'CORROSION_VERSION='; cat /usr/local/bin/corrosion.version 2>/dev/null || true; echo\nprintf 'COOLIFY_COOLD_VERSION='; cat /usr/local/bin/coold.version 2>/dev/null || true; echo\nprintf 'COOLIFY_COOLD_UNIT_HASH='; sha256sum /etc/systemd/system/coold.service 2>/dev/null | awk '{print $1}'; echo\nfor ns in "@ + nslist + "; do net=\"coolify-${ns}-mesh\"; printf 'NS=%s|' \"$ns\"; podman network inspect \"$net\" --format '{{.Name}}|{{range .Subnets}}{{.Subnet}}{{end}}|{{.DNSEnabled}}|{{index .Labels \"io.coolify.namespace\"}}' 2>/dev/null || echo 'missing|||'; done\n"@;
        assert(reconstruct::probe_script_text(iface, nslist) =~= x + m + y);
        stands_between(x, m, y);
    }
    assert(text::has_text(reconstruct::probe_script_text(iface, nslist), "printf 'CORROSION_SCHEMA_HASH='; sha256sum /etc/corrosion/schemas/coolify.sql "@)) by {
        assert(" dump 2>/dev/null | base64 -w0 || true; echo\nprintf 'PODMAN_INSTALLED='; command -v podman >/dev/null 2>&1 && echo 1 || echo 0\nprintf 'PODMAN_SOCKET_ACTIVE='; systemctl is-active --quiet podman.socket && echo 1 || echo 0\nprintf 'IP_FORWARD='; cat /proc/sys/net/ipv4/ip_forward 2>/dev/null || echo 0\nprintf 'FW_ACTIVE='; systemctl is-active --quiet coolify-mesh-fw.service && echo 1 || echo 0\nprintf 'DEFAULT_DENY='; iptables -S COOLIFY-INTRA 2>/dev/null | grep -q -- '-A COOLIFY-INTRA -j DROP' && echo 1 || echo 0\nprintf 'FW_HASH='; sha256sum /etc/systemd/system/coolify-mesh-fw.service 2>/dev/null | awk '{print $1}'; echo\nprintf 'NFT_AVAILABLE='; command -v nft >/dev/null 2>&1 && echo 1 || echo 0\nprintf 'BRIDGE_TABLE='; nft list table bridge coolify_bridge >/dev/null 2>&1 && echo 1 || echo 0\nprintf 'CORROSION_INSTALLED='; test -x /usr/local/bin/corrosion && echo 1 || echo 0\nprintf 'CORROSION_ACTIVE='; systemctl is-active --quiet corrosion && echo 1 || echo 0\nprintf 'CORROSION_CONFIG_HASH='; sha256sum /etc/corrosion/config.toml 2>/dev/null | awk '{print $1}'; echo\nprintf 'CORROSION_SCHEMA_EXISTS='; test -s /etc/corrosion/schemas/coolify.sql && echo 1 || echo 0\nprintf 'CORROSION_SCHEMA_HASH='; sha256sum /etc/corrosion/schemas/coolify.sql 2>/dev/null | awk '{print $1}'; echo\nprintf 'COOLIFY_COOLD_INSTALLED='; test -x /usr/local/bin/coold && echo 1 || echo 0\nprintf 'COOLIFY_COOLD_ACTIVE='; systemctl is-active --quiet coold && echo 1 || echo 0\nprintf 'CORROSION_VERSION='; cat /usr/local/bin/corrosion.version 2>/dev/null || true; echo\nprintf 'COOLIFY_COOLD_VERSION='; cat /usr/local/bin/coold.version 2>/dev/null || true; echo\nprintf 'COOLIFY_COOLD_UNIT_HASH='; sha256sum /etc/systemd/system/coold.service 2>/dev/null | awk '{print $1}'; echo\nfor ns in "@ =~= " dump 2>/dev/null | base64 -w0 || true; echo\nprintf 'PODMAN_INSTALLED='; command -v podman >/dev/null 2>&1 && echo 1 || echo 0\nprintf 'PODMAN_SOCKET_ACTIVE='; systemctl is-active --quiet podman.socket && echo 1 || echo 0\nprintf 'IP_FORWARD='; cat /proc/sys/net/ipv4/ip_forward 2>/dev/null || echo 0\nprintf 'FW_ACTIVE='; systemctl is-active --quiet coolify-mesh-fw.service && echo 1 || echo 0\nprintf 'DEFAULT_DENY='; iptables -S COOLIFY-INTRA 2>/dev/null | grep -q -- '-A COOLIFY-INTRA -j DROP' && echo 1 || echo 0\nprintf 'FW_HASH='; sha256sum /etc/systemd/system/coolify-mesh-fw.service 2>/dev/null | awk '{print $1}'; echo\nprintf 'NFT_AVAILABLE='; command -v nft >/dev/null 2>&1 && echo 1 || echo 0\nprintf 'BRIDGE_TABLE='; nft list table bridge coolify_bridge >/dev/null 2>&1 && echo 1 || echo 0\nprintf 'CORROSION_INSTALLED='; test -x /usr/local/bin/corrosion && echo 1 || echo 0\nprintf 'CORROSION_ACTIVE='; systemctl is-active --quiet corrosion && echo 1 || echo 0\nprintf 'CORROSION_CONFIG_HASH='; sha256sum /etc/corrosion/config.toml 2>/dev/null | awk '{print $1}'; echo\nprintf 'CORROSION_SCHEMA_EXISTS='; test -s /etc/corrosion/schemas/coolify.sql && echo 1 || echo 0\n"@ + "printf 'CORROSION_SCHEMA_HASH='; sha256sum /etc/corrosion/schemas/coolify.sql "@ + "2>/dev/null | awk '{print $1}'; echo\nprintf 'COOLIFY_COOLD_INSTALLED='; test -x /usr/local/bin/coold && echo 1 || echo 0\nprintf 'COOLIFY_COOLD_ACTIVE='; systemctl is-active --quiet coold && echo 1 || echo 0\nprintf 'CORROSION_VERSION='; cat /usr/local/bin/corrosion.version 2>/dev/null || true; echo\nprintf 'COOLIFY_COOLD_VERSION='; cat /usr/local/bin/coold.version 2>/dev/null || true; echo\nprintf 'COOLIFY_COOLD_UNIT_HASH='; sha256sum /etc/systemd/system/coold.service 2>/dev/null | awk '{print $1}'; echo\nfor ns in "@) by {
            reveal_strlit(" dump 2>/dev/null | base64 -w0 || true; echo\nprintf 'PODMAN_INSTALLED='; command -v podman >/dev/null 2>&1 && echo 1 || echo 0\nprintf 'PODMAN_SOCKET_ACTIVE='; systemctl is-active --quiet podman.socket && echo 1 || echo 0\nprintf 'IP_FORWARD='; cat /proc/sys/net/ipv4/ip_forward 2>/dev/null || echo 0\nprintf 'FW_ACTIVE='; systemctl is-active --quiet coolify-mesh-fw.service && echo 1 || echo 0\nprintf 'DEFAULT_DENY='; iptables -S COOLIFY-INTRA 2>/dev/null | grep -q -- '-A COOLIFY-INTRA -j DROP' && echo 1 || echo 0\nprintf 'FW_HASH='; sha256sum /etc/systemd/system/coolify-mesh-fw.service 2>/dev/null | awk '{print $1}'; echo\nprintf 'NFT_AVAILABLE='; command -v nft >/dev/null 2>&1 && echo 1 || echo 0\nprintf 'BRIDGE_TABLE='; nft list table bridge coolify_bridge >/dev/null 2>&1 && echo 1 || echo 0\nprintf 'CORROSION_INSTALLED='; test -x /usr/local/bin/corrosion && echo 1 || echo 0\nprintf 'CORROSION_ACTIVE='; systemctl is-active --quiet corrosion && echo 1 || echo 0\nprintf 'CORROSION_CONFIG_HASH='; sha256sum /etc/corrosion/config.toml 2>/dev/null | awk '{print $1}'; echo\nprintf 'CORROSION_SCHEMA_EXISTS='; test -s /etc/corrosion/schemas/coolify.sql && echo 1 || echo 0\nprintf 'CORROSION_SCHEMA_HASH='; sha256sum /etc/corrosion/schemas/coolify.sql 2>/dev/null | awk '{print $1}'; echo\nprintf 'COOLIFY_COOLD_INSTALLED='; test -x /usr/local/bin/coold && echo 1 || echo 0\nprintf 'COOLIFY_COOLD_ACTIVE='; systemctl is-active --quiet coold && echo 1 || echo 0\nprintf 'CORROSION_VERSION='; cat /usr/local/bin/corrosion.version 2>/dev/null || true; echo\nprintf 'COOLIFY_COOLD_VERSION='; cat /usr/local/bin/coold.version 2>/dev/null || true; echo\nprintf 'COOLIFY_COOLD_UNIT_HASH='; sha256sum /etc/systemd/system/coold.service 2>/dev/null | awk '{print $1}'; echo\nfor ns in ");
            reveal_strlit(" dump 2>/dev/null | base64 -w0 || true; echo\nprintf 'PODMAN_INSTALLED='; command -v podman >/dev/null 2>&1 && echo 1 || echo 0\nprintf 'PODMAN_SOCKET_ACTIVE='; systemctl is-active --quiet podman.socket && echo 1 || echo 0\nprintf 'IP_FORWARD='; cat /proc/sys/net/ipv4/ip_forward 2>/dev/null || echo 0\nprintf 'FW_ACTIVE='; systemctl is-active --quiet coolify-mesh-fw.service && echo 1 || echo 0\nprintf 'DEFAULT_DENY='; iptables -S COOLIFY-INTRA 2>/dev/null | grep -q -- '-A COOLIFY-INTRA -j DROP' && echo 1 || echo 0\nprintf 'FW_HASH='; sha256sum /etc/systemd/system/coolify-mesh-fw.service 2>/dev/null | awk '{print $1}'; echo\nprintf 'NFT_AVAILABLE='; command -v nft >/dev/null 2>&1 && echo 1 || echo 0\nprintf 'BRIDGE_TABLE='; nft list table bridge coolify_bridge >/dev/null 2>&1 && echo 1 || echo 0\nprintf 'CORROSION_INSTALLED='; test -x /usr/local/bin/corrosion && echo 1 || echo 0\nprintf 'CORROSION_ACTIVE='; systemctl is-active --quiet corrosion && echo 1 || echo 0\nprintf 'CORROSION_CONFIG_HASH='; sha256sum /etc/corrosion/config.toml 2>/dev/null | awk '{print $1}'; echo\nprintf 'CORROSION_SCHEMA_EXISTS='; test -s /etc/corrosion/schemas/coolify.sql && echo 1 || echo 0\n");
            reveal_strlit("printf 'CORROSION_SCHEMA_HASH='; sha256sum /etc/corrosion/schemas/coolify.sql ");
            reveal_strlit("2>/dev/null | awk '{print $1}'; echo\nprintf 'COOLIFY_COOLD_INSTALLED='; test -x /usr/local/bin/coold && echo 1 || echo 0\nprintf 'COOLIFY_COOLD_ACTIVE='; systemctl is-active --quiet coold && echo 1 || echo 0\nprintf 'CORROSION_VERSION='; cat /usr/local/bin/corrosion.version 2>/dev/null || true; echo\nprintf 'COOLIFY_COOLD_VERSION='; cat /usr/local/bin/coold.version 2>/dev/null || true; echo\nprintf 'COOLIFY_COOLD_UNIT_HASH='; sha256sum /etc/systemd/system/coold.service 2>/dev/null | awk '{print $1}'; echo\nfor ns in ");
        }
        let x = "set +e\nprintf 'WG_INSTALLED='; command -v wg >/dev/null 2>&1 && echo 1 || echo 0\nprintf 'KEYS_EXIST='; test -s /etc/wireguard/publickey && test -s /etc/wireguard/privatekey && echo 1 || echo 0\nprintf 'PUBLIC_KEY='; cat /etc/wireguard/publickey 2>/dev/null || true; echo\nprintf 'CONFIG_B64='; base64 -w0 /etc/wireguard/"@ + iface + ".conf 2>/dev/null || true; echo\nprintf 'WG_DUMP_B64='; wg show "@ + iface + " dump 2>/dev/null | base64 -w0 || true; echo\nprintf 'PODMAN_INSTALLED='; command -v podman >/dev/null 2>&1 && echo 1 || echo 0\nprintf 'PODMAN_SOCKET_ACTIVE='; systemctl is-active --quiet podman.socket && echo 1 || echo 0\nprintf 'IP_FORWARD='; cat /proc/sys/net/ipv4/ip_forward 2>/dev/null || echo 0\nprintf 'FW_ACTIVE='; systemctl is-active --quiet coolify-mesh-fw.service && echo 1 || echo 0\nprintf 'DEFAULT_DENY='; iptables -S COOLIFY-INTRA 2>/dev/null | grep -q -- '-A COOLIFY-INTRA -j DROP' && echo 1 || echo 0\nprintf 'FW_HASH='; sha256sum /etc/systemd/system/coolify-mesh-fw.service 2>/dev/null | awk '{print $1}'; echo\nprintf 'NFT_AVAILABLE='; command -v nft >/dev/null 2>&1 && echo 1 || echo 0\nprintf 'BRIDGE_TABLE='; nft list table bridge coolify_bridge >/dev/null 2>&1 && echo 1 || echo 0\nprintf 'CORROSION_INSTALLED='; test -x /usr/local/bin/corrosion && echo 1 || echo 0\nprintf 'CORROSION_ACTIVE='; systemctl is-active --quiet corrosion && echo 1 || echo 0\nprintf 'CORROSION_CONFIG_HASH='; sha256sum /etc/corrosion/config.toml 2>/dev/null | awk '{print $1}'; echo\nprintf 'CORROSION_SCHEMA_EXISTS='; test -s /etc/corrosion/schemas/coolify.sql && echo 1 || echo 0\n"@;
        let m = "printf 'CORROSION_SCHEMA_HASH='; sha256sum /etc/corrosion/schemas/coolify.sql "@;
        let y = "2>/dev/null | awk '{print $1}'; echo\nprintf 'COOLIFY_COOLD_INSTALLED='; test -x /usr/local/bin/coold && echo 1 || echo 0\nprintf 'COOLIFY_COOLD_ACTIVE='; systemctl is-active --quiet coold && echo 1 || echo 0\nprintf 'CORROSION_VERSION='; cat /usr/local/bin/corrosion.version 2>/dev/null || true; echo\nprintf 'COOLIFY_COOLD_VERSION='; cat /usr/local/bin/coold.version 2>/dev/null || true; echo\nprintf 'COOLIFY_COOLD_UNIT_HASH='; sha256sum /etc/systemd/system/coold.service 2>/dev/null | awk '{print $1}'; echo\nfor ns in "@ + nslist + "; do net=\"coolify-${ns}-mesh\"; printf 'NS=%s|' \"$ns\"; podman network inspect \"$net\" --format '{{.Name}}|{{range .Subnets}}{{.Subnet}}{{end}}|{{.DNSEnabled}}|{{index .Labels \"io.coolify.namespace\"}}' 2>/dev/null || echo 'missing|||'; done\n"@;
        assert(reconstruct::probe_script_text(iface, nslist) =~= x + m + y);
        stands_between(x, m, y);
    }
}

/// The probe digests the unit of coold where it is written, and reads its version where it is noted.
#[verifier::rlimit(40)]
pub proof fn probes_digest_the_unit_of_coold(iface: Seq<char>, nslist: Seq<char>)
    ensures
        text::has_text(reconstruct::probe_script_text(iface, nslist), "printf 'COOLIFY_COOLD_UNIT_HASH='; sha256sum /etc/systemd/system/coold.service "@),
        text::has_text(reconstruct::probe_script_text(iface, nslist), "printf 'COOLIFY_COOLD_VERSION='; cat /usr/local/bin/coold.version "@),
{
    assert(text::has_text(reconstruct::probe_script_text(iface, nslist), "printf 'COOLIFY_COOLD_UNIT_HASH='; sha256sum /etc/systemd/system/coold.service "@)) by {
        assert(" dump 2>/dev/null | base64 -w0 || true; echo\nprintf 'PODMAN_INSTALLED='; command -v podman >/dev/null 2>&1 && echo 1 || echo 0\nprintf 'PODMAN_SOCKET_ACTIVE='; systemctl is-active --quiet podman.socket && echo 1 || echo 0\nprintf 'IP_FORWARD='; cat /proc/sys/net/ipv4/ip_forward 2>/dev/null || echo 0\nprintf 'FW_ACTIVE='; systemctl is-active --quiet coolify-mesh-fw.service && echo 1 || echo 0\nprintf 'DEFAULT_DENY='; iptables -S COOLIFY-INTRA 2>/dev/null | grep -q -- '-A COOLIFY-INTRA -j DROP' && echo 1 || echo 0\nprintf 'FW_HASH='; sha256sum /etc/systemd/system/coolify-mesh-fw.service 2>/dev/null | awk '{print $1}'; echo\nprintf 'NFT_AVAILABLE='; command -v nft >/dev/null 2>&1 && echo 1 || echo 0\nprintf 'BRIDGE_TABLE='; nft list table bridge coolify_bridge >/dev/null 2>&1 && echo 1 || echo 0\nprintf 'CORROSION_INSTALLED='; test -x /usr/local/bin/corrosion && echo 1 || echo 0\nprintf 'CORROSION_ACTIVE='; systemctl is-active --quiet corrosion && echo 1 || echo 0\nprintf 'CORROSION_CONFIG_HASH='; sha256sum /etc/corrosion/config.toml 2>/dev/null | awk '{print $1}'; echo\nprintf 'CORROSION_SCHEMA_EXISTS='; test -s /etc/corrosion/schemas/coolify.sql && echo 1 || echo 0\nprintf 'CORROSION_SCHEMA_HASH='; sha256sum /etc/corrosion/schemas/coolify.sql 2>/dev/null | awk '{print $1}'; echo\nprintf 'COOLIFY_COOLD_INSTALLED='; test -x /usr/local/bin/coold && echo 1 || echo 0\nprintf 'COOLIFY_COOLD_ACTIVE='; systemctl is-active --quiet coold && echo 1 || echo 0\nprintf 'CORROSION_VERSION='; cat /usr/local/bin/corrosion.version 2>/dev/null || true; echo\nprintf 'COOLIFY_COOLD_VERSION='; cat /usr/local/bin/coold.version 2>/dev/null || true; echo\nprintf 'COOLIFY_COOLD_UNIT_HASH='; sha256sum /etc/systemd/system/coold.service 2>/dev/null | awk '{print $1}'; echo\nfor ns in "@ =~= " dump 2>/dev/null | base64 -w0 || true; echo\nprintf 'PODMAN_INSTALLED='; command -v podman >/dev/null 2>&1 && echo 1 || echo 0\nprintf 'PODMAN_SOCKET_ACTIVE='; systemctl is-active --quiet podman.socket && echo 1 || echo 0\nprintf 'IP_FORWARD='; cat /proc/sys/net/ipv4/ip_forward 2>/dev/null || echo 0\nprintf 'FW_ACTIVE='; systemctl is-active --quiet coolify-mesh-fw.service && echo 1 || echo 0\nprintf 'DEFAULT_DENY='; iptables -S COOLIFY-INTRA 2>/dev/null | grep -q -- '-A COOLIFY-INTRA -j DROP' && echo 1 || echo 0\nprintf 'FW_HASH='; sha256sum /etc/systemd/system/coolify-mesh-fw.service 2>/dev/null | awk '{print $1}'; echo\nprintf 'NFT_AVAILABLE='; command -v nft >/dev/null 2>&1 && echo 1 || echo 0\nprintf 'BRIDGE_TABLE='; nft list table bridge coolify_bridge >/dev/null 2>&1 && echo 1 || echo 0\nprintf 'CORROSION_INSTALLED='; test -x /usr/local/bin/corrosion && echo 1 || echo 0\nprintf 'CORROSION_ACTIVE='; systemctl is-active --quiet corrosion && echo 1 || echo 0\nprintf 'CORROSION_CONFIG_HASH='; sha256sum /etc/corrosion/config.toml 2>/dev/null | awk '{print $1}'; echo\nprintf 'CORROSION_SCHEMA_EXISTS='; test -s /etc/corrosion/schemas/coolify.sql && echo 1 || echo 0\nprintf 'CORROSION_SCHEMA_HASH='; sha256sum /etc/corrosion/schemas/coolify.sql 2>/dev/null | awk '{print $1}'; echo\nprintf 'COOLIFY_COOLD_INSTALLED='; test -x /usr/local/bin/coold && echo 1 || echo 0\nprintf 'COOLIFY_COOLD_ACTIVE='; systemctl is-active --quiet coold && echo 1 || echo 0\nprintf 'CORROSION_VERSION='; cat /usr/local/bin/corrosion.version 2>/dev/null || true; echo\nprintf 'COOLIFY_COOLD_VERSION='; cat /usr/local/bin/coold.version 2>/dev/null || true; echo\n"@ + "printf 'COOLIFY_COOLD_UNIT_HASH='; sha256sum /etc/systemd/system/coold.service "@ + "2>/dev/null | awk '{print $1}'; echo\nfor ns in "@) by {
            reveal_strlit(" dump 2>/dev/null | base64 -w0 || true; echo\nprintf 'PODMAN_INSTALLED='; command -v podman >/dev/null 2>&1 && echo 1 || echo 0\nprintf 'PODMAN_SOCKET_ACTIVE='; systemctl is-active --quiet podman.socket && echo 1 || echo 0\nprintf 'IP_FORWARD='; cat /proc/sys/net/ipv4/ip_forward 2>/dev/null || echo 0\nprintf 'FW_ACTIVE='; systemctl is-active --quiet coolify-mesh-fw.service && echo 1 || echo 0\nprintf 'DEFAULT_DENY='; iptables -S COOLIFY-INTRA 2>/dev/null | grep -q -- '-A COOLIFY-INTRA -j DROP' && echo 1 || echo 0\nprintf 'FW_HASH='; sha256sum /etc/systemd/system/coolify-mesh-fw.service 2>/dev/null | awk '{print $1}'; echo\nprintf 'NFT_AVAILABLE='; command -v nft >/dev/null 2>&1 && echo 1 || echo 0\nprintf 'BRIDGE_TABLE='; nft list table bridge coolify_bridge >/dev/null 2>&1 && echo 1 || echo 0\nprintf 'CORROSION_INSTALLED='; test -x /usr/local/bin/corrosion && echo 1 || echo 0\nprintf 'CORROSION_ACTIVE='; systemctl is-active --quiet corrosion && echo 1 || echo 0\nprintf 'CORROSION_CONFIG_HASH='; sha256sum /etc/corrosion/config.toml 2>/dev/null | awk '{print $1}'; echo\nprintf 'CORROSION_SCHEMA_EXISTS='; test -s /etc/corrosion/schemas/coolify.sql && echo 1 || echo 0\nprintf 'CORROSION_SCHEMA_HASH='; sha256sum /etc/corrosion/schemas/coolify.sql 2>/dev/null | awk '{print $1}'; echo\nprintf 'COOLIFY_COOLD_INSTALLED='; test -x /usr/local/bin/coold && echo 1 || echo 0\nprintf 'COOLIFY_COOLD_ACTIVE='; systemctl is-active --quiet coold && echo 1 || echo 0\nprintf 'CORROSION_VERSION='; cat /usr/local/bin/corrosion.version 2>/dev/null || true; echo\nprintf 'COOLIFY_COOLD_VERSION='; cat /usr/local/bin/coold.version 2>/dev/null || true; echo\nprintf 'COOLIFY_COOLD_UNIT_HASH='; sha256sum /etc/systemd/system/coold.service 2>/dev/null | awk '{print $1}'; echo\nfor ns in ");
            reveal_strlit(" dump 2>/dev/null | base64 -w0 || true; echo\nprintf 'PODMAN_INSTALLED='; command -v podman >/dev/null 2>&1 && echo 1 || echo 0\nprintf 'PODMAN_SOCKET_ACTIVE='; systemctl is-active --quiet podman.socket && echo 1 || echo 0\nprintf 'IP_FORWARD='; cat /proc/sys/net/ipv4/ip_forward 2>/dev/null || echo 0\nprintf 'FW_ACTIVE='; systemctl is-active --quiet coolify-mesh-fw.service && echo 1 || echo 0\nprintf 'DEFAULT_DENY='; iptables -S COOLIFY-INTRA 2>/dev/null | grep -q -- '-A COOLIFY-INTRA -j DROP' && echo 1 || echo 0\nprintf 'FW_HASH='; sha256sum /etc/systemd/system/coolify-mesh-fw.service 2>/dev/null | awk '{print $1}'; echo\nprintf 'NFT_AVAILABLE='; command -v nft >/dev/null 2>&1 && echo 1 || echo 0\nprintf 'BRIDGE_TABLE='; nft list table bridge coolify_bridge >/dev/null 2>&1 && echo 1 || echo 0\nprintf 'CORROSION_INSTALLED='; test -x /usr/local/bin/corrosion && echo 1 || echo 0\nprintf 'CORROSION_ACTIVE='; systemctl is-active --quiet corrosion && echo 1 || echo 0\nprintf 'CORROSION_CONFIG_HASH='; sha256sum /etc/corrosion/config.toml 2>/dev/null | awk '{print $1}'; echo\nprintf 'CORROSION_SCHEMA_EXISTS='; test -s /etc/corrosion/schemas/coolify.sql && echo 1 || echo 0\nprintf 'CORROSION_SCHEMA_HASH='; sha256sum /etc/corrosion/schemas/coolify.sql 2>/dev/null | awk '{print $1}'; echo\nprintf 'COOLIFY_COOLD_INSTALLED='; test -x /usr/local/bin/coold && echo 1 || echo 0\nprintf 'COOLIFY_COOLD_ACTIVE='; systemctl is-active --quiet coold && echo 1 || echo 0\nprintf 'CORROSION_VERSION='; cat /usr/local/bin/corrosion.version 2>/dev/null || true; echo\nprintf 'COOLIFY_COOLD_VERSION='; cat /usr/local/bin/coold.version 2>/dev/null || true; echo\n");
            reveal_strlit("printf 'COOLIFY_COOLD_UNIT_HASH='; sha256sum /etc/systemd/system/coold.service ");
            reveal_strlit("2>/dev/null | awk '{print $1}'; echo\nfor ns in ");
        }
        let x = "set +e\nprintf 'WG_INSTALLED='; command -v wg >/dev/null 2>&1 && echo 1 || echo 0\nprintf 'KEYS_EXIST='; test -s /etc/wireguard/publickey && test -s /etc/wireguard/privatekey && echo 1 || echo 0\nprintf 'PUBLIC_KEY='; cat /etc/wireguard/publickey 2>/dev/null || true; echo\nprintf 'CONFIG_B64='; base64 -w0 /etc/wireguard/"@ + iface + ".conf 2>/dev/null || true; echo\nprintf 'WG_DUMP_B64='; wg show "@ + iface + " dump 2>/dev/null | base64 -w0 || true; echo\nprintf 'PODMAN_INSTALLED='; command -v podman >/dev/null 2>&1 && echo 1 || echo 0\nprintf 'PODMAN_SOCKET_ACTIVE='; systemctl is-active --quiet podman.socket && echo 1 || echo 0\nprintf 'IP_FORWARD='; cat /proc/sys/net/ipv4/ip_forward 2>/dev/null || echo 0\nprintf 'FW_ACTIVE='; systemctl is-active --quiet coolify-mesh-fw.service && echo 1 || echo 0\nprintf 'DEFAULT_DENY='; iptables -S COOLIFY-INTRA 2>/dev/null | grep -q -- '-A COOLIFY-INTRA -j DROP' && echo 1 || echo 0\nprintf 'FW_HASH='; sha256sum /etc/systemd/system/coolify-mesh-fw.service 2>/dev/null | awk '{print $1}'; echo\nprintf 'NFT_AVAILABLE='; command -v nft >/dev/null 2>&1 && echo 1 || echo 0\nprintf 'BRIDGE_TABLE='; nft list table bridge coolify_bridge >/dev/null 2>&1 && echo 1 || echo 0\nprintf 'CORROSION_INSTALLED='; test -x /usr/local/bin/corrosion && echo 1 || echo 0\nprintf 'CORROSION_ACTIVE='; systemctl is-active --quiet corrosion && echo 1 || echo 0\nprintf 'CORROSION_CONFIG_HASH='; sha256sum /etc/corrosion/config.toml 2>/dev/null | awk '{print $1}'; echo\nprintf 'CORROSION_SCHEMA_EXISTS='; test -s /etc/corrosion/schemas/coolify.sql && echo 1 || echo 0\nprintf 'CORROSION_SCHEMA_HASH='; sha256sum /etc/corrosion/schemas/coolify.sql 2>/dev/null | awk '{print $1}'; echo\nprintf 'COOLIFY_COOLD_INSTALLED='; test -x /usr/local/bin/coold && echo 1 || echo 0\nprintf 'COOLIFY_COOLD_ACTIVE='; systemctl is-active --quiet coold && echo 1 || echo 0\nprintf 'CORROSION_VERSION='; cat /usr/local/bin/corrosion.version 2>/dev/null || true; echo\nprintf 'COOLIFY_COOLD_VERSION='; cat /usr/local/bin/coold.version 2>/dev/null || true; echo\n"@;
        let m = "printf 'COOLIFY_COOLD_UNIT_HASH='; sha256sum /etc/systemd/system/coold.service "@;
        let y = "2>/dev/null | awk '{print $1}'; echo\nfor ns in "@ + nslist + "; do net=\"coolify-${ns}-mesh\"; printf 'NS=%s|' \"$ns\"; podman network inspect \"$net\" --format '{{.Name}}|{{range .Subnets}}{{.Subnet}}{{end}}|{{.DNSEnabled}}|{{index .Labels \"io.coolify.namespace\"}}' 2>/dev/null || echo 'missing|||'; done\n"@;
        assert(reconstruct::probe_script_text(iface, nslist) =~= x + m + y);
        stands_between(x, m, y);
    }
    assert(text::has_text(reconstruct::probe_script_text(iface, nslist), "printf 'COOLIFY_COOLD_VERSION='; cat /usr/local/bin/coold.version "@)) by {
        assert(" dump 2>/dev/null | base64 -w0 || true; echo\nprintf 'PODMAN_INSTALLED='; command -v podman >/dev/null 2>&1 && echo 1 || echo 0\nprintf 'PODMAN_SOCKET_ACTIVE='; systemctl is-active --quiet podman.socket && echo 1 || echo 0\nprintf 'IP_FORWARD='; cat /proc/sys/net/ipv4/ip_forward 2>/dev/null || echo 0\nprintf 'FW_ACTIVE='; systemctl is-active --quiet coolify-mesh-fw.service && echo 1 || echo 0\nprintf 'DEFAULT_DENY='; iptables -S COOLIFY-INTRA 2>/dev/null | grep -q -- '-A COOLIFY-INTRA -j DROP' && echo 1 || echo 0\nprintf 'FW_HASH='; sha256sum /etc/systemd/system/coolify-mesh-fw.service 2>/dev/null | awk '{print $1}'; echo\nprintf 'NFT_AVAILABLE='; command -v nft >/dev/null 2>&1 && echo 1 || echo 0\nprintf 'BRIDGE_TABLE='; nft list table bridge coolify_bridge >/dev/null 2>&1 && echo 1 || echo 0\nprintf 'CORROSION_INSTALLED='; test -x /usr/local/bin/corrosion && echo 1 || echo 0\nprintf 'CORROSION_ACTIVE='; systemctl is-active --quiet corrosion && echo 1 || echo 0\nprintf 'CORROSION_CONFIG_HASH='; sha256sum /etc/corrosion/config.toml 2>/dev/null | awk '{print $1}'; echo\nprintf 'CORROSION_SCHEMA_EXISTS='; test -s /etc/corrosion/schemas/coolify.sql && echo 1 || echo 0\nprintf 'CORROSION_SCHEMA_HASH='; sha256sum /etc/corrosion/schemas/coolify.sql 2>/dev/null | awk '{print $1}'; echo\nprintf 'COOLIFY_COOLD_INSTALLED='; test -x /usr/local/bin/coold && echo 1 || echo 0\nprintf 'COOLIFY_COOLD_ACTIVE='; systemctl is-active --quiet coold && echo 1 || echo 0\nprintf 'CORROSION_VERSION='; cat /usr/local/bin/corrosion.version 2>/dev/null || true; echo\nprintf 'COOLIFY_COOLD_VERSION='; cat /usr/local/bin/coold.version 2>/dev/null || true; echo\nprintf 'COOLIFY_COOLD_UNIT_HASH='; sha256sum /etc/systemd/system/coold.service 2>/dev/null | awk '{print $1}'; echo\nfor ns in "@ =~= " dump 2>/dev/null | base64 -w0 || true; echo\nprintf 'PODMAN_INSTALLED='; command -v podman >/dev/null 2>&1 && echo 1 || echo 0\nprintf 'PODMAN_SOCKET_ACTIVE='; systemctl is-active --quiet podman.socket && echo 1 || echo 0\nprintf 'IP_FORWARD='; cat /proc/sys/net/ipv4/ip_forward 2>/dev/null || echo 0\nprintf 'FW_ACTIVE='; systemctl is-active --quiet coolify-mesh-fw.service && echo 1 || echo 0\nprintf 'DEFAULT_DENY='; iptables -S COOLIFY-INTRA 2>/dev/null | grep -q -- '-A COOLIFY-INTRA -j DROP' && echo 1 || echo 0\nprintf 'FW_HASH='; sha256sum /etc/systemd/system/coolify-mesh-fw.service 2>/dev/null | awk '{print $1}'; echo\nprintf 'NFT_AVAILABLE='; command -v nft >/dev/null 2>&1 && echo 1 || echo 0\nprintf 'BRIDGE_TABLE='; nft list table bridge coolify_bridge >/dev/null 2>&1 && echo 1 || echo 0\nprintf 'CORROSION_INSTALLED='; test -x /usr/local/bin/corrosion && echo 1 || echo 0\nprintf 'CORROSION_ACTIVE='; systemctl is-active --quiet corrosion && echo 1 || echo 0\nprintf 'CORROSION_CONFIG_HASH='; sha256sum /etc/corrosion/config.toml 2>/dev/null | awk '{print $1}'; echo\nprintf 'CORROSION_SCHEMA_EXISTS='; test -s /etc/corrosion/schemas/coolify.sql && echo 1 || echo 0\nprintf 'CORROSION_SCHEMA_HASH='; sha256sum /etc/corrosion/schemas/coolify.sql 2>/dev/null | awk '{print $1}'; echo\nprintf 'COOLIFY_COOLD_INSTALLED='; test -x /usr/local/bin/coold && echo 1 || echo 0\nprintf 'COOLIFY_COOLD_ACTIVE='; systemctl is-active --quiet coold && echo 1 || echo 0\nprintf 'CORROSION_VERSION='; cat /usr/local/bin/corrosion.version 2>/dev/null || true; echo\n"@ + "printf 'COOLIFY_COOLD_VERSION='; cat /usr/local/bin/coold.version "@ + "2>/dev/null || true; echo\nprintf 'COOLIFY_COOLD_UNIT_HASH='; sha256sum /etc/systemd/system/coold.service 2>/dev/null | awk '{print $1}'; echo\nfor ns in "@) by {
            reveal_strlit(" dump 2>/dev/null | base64 -w0 || true; echo\nprintf 'PODMAN_INSTALLED='; command -v podman >/dev/null 2>&1 && echo 1 || echo 0\nprintf 'PODMAN_SOCKET_ACTIVE='; systemctl is-active --quiet podman.socket && echo 1 || echo 0\nprintf 'IP_FORWARD='; cat /proc/sys/net/ipv4/ip_forward 2>/dev/null || echo 0\nprintf 'FW_ACTIVE='; systemctl is-active --quiet coolify-mesh-fw.service && echo 1 || echo 0\nprintf 'DEFAULT_DENY='; iptables -S COOLIFY-INTRA 2>/dev/null | grep -q -- '-A COOLIFY-INTRA -j DROP' && echo 1 || echo 0\nprintf 'FW_HASH='; sha256sum /etc/systemd/system/coolify-mesh-fw.service 2>/dev/null | awk '{print $1}'; echo\nprintf 'NFT_AVAILABLE='; command -v nft >/dev/null 2>&1 && echo 1 || echo 0\nprintf 'BRIDGE_TABLE='; nft list table bridge coolify_bridge >/dev/null 2>&1 && echo 1 || echo 0\nprintf 'CORROSION_INSTALLED='; test -x /usr/local/bin/corrosion && echo 1 || echo 0\nprintf 'CORROSION_ACTIVE='; systemctl is-active --quiet corrosion && echo 1 || echo 0\nprintf 'CORROSION_CONFIG_HASH='; sha256sum /etc/corrosion/config.toml 2>/dev/null | awk '{print $1}'; echo\nprintf 'CORROSION_SCHEMA_EXISTS='; test -s /etc/corrosion/schemas/coolify.sql && echo 1 || echo 0\nprintf 'CORROSION_SCHEMA_HASH='; sha256sum /etc/corrosion/schemas/coolify.sql 2>/dev/null | awk '{print $1}'; echo\nprintf 'COOLIFY_COOLD_INSTALLED='; test -x /usr/local/bin/coold && echo 1 || echo 0\nprintf 'COOLIFY_COOLD_ACTIVE='; systemctl is-active --quiet coold && echo 1 || echo 0\nprintf 'CORROSION_VERSION='; cat /usr/local/bin/corrosion.version 2>/dev/null || true; echo\nprintf 'COOLIFY_COOLD_VERSION='; cat /usr/local/bin/coold.version 2>/dev/null || true; echo\nprintf 'COOLIFY_COOLD_UNIT_HASH='; sha256sum /etc/systemd/system/coold.service 2>/dev/null | awk '{print $1}'; echo\nfor ns in ");
            reveal_strlit(" dump 2>/dev/null | base64 -w0 || true; echo\nprintf 'PODMAN_INSTALLED='; command -v podman >/dev/null 2>&1 && echo 1 || echo 0\nprintf 'PODMAN_SOCKET_ACTIVE='; systemctl is-active --quiet podman.socket && echo 1 || echo 0\nprintf 'IP_FORWARD='; cat /proc/sys/net/ipv4/ip_forward 2>/dev/null || echo 0\nprintf 'FW_ACTIVE='; systemctl is-active --quiet coolify-mesh-fw.service && echo 1 || echo 0\nprintf 'DEFAULT_DENY='; iptables -S COOLIFY-INTRA 2>/dev/null | grep -q -- '-A COOLIFY-INTRA -j DROP' && echo 1 || echo 0\nprintf 'FW_HASH='; sha256sum /etc/systemd/system/coolify-mesh-fw.service 2>/dev/null | awk '{print $1}'; echo\nprintf 'NFT_AVAILABLE='; command -v nft >/dev/null 2>&1 && echo 1 || echo 0\nprintf 'BRIDGE_TABLE='; nft list table bridge coolify_bridge >/dev/null 2>&1 && echo 1 || echo 0\nprintf 'CORROSION_INSTALLED='; test -x /usr/local/bin/corrosion && echo 1 || echo 0\nprintf 'CORROSION_ACTIVE='; systemctl is-active --quiet corrosion && echo 1 || echo 0\nprintf 'CORROSION_CONFIG_HASH='; sha256sum /etc/corrosion/config.toml 2>/dev/null | awk '{print $1}'; echo\nprintf 'CORROSION_SCHEMA_EXISTS='; test -s /etc/corrosion/schemas/coolify.sql && echo 1 || echo 0\nprintf 'CORROSION_SCHEMA_HASH='; sha256sum /etc/corrosion/schemas/coolify.sql 2>/dev/null | awk '{print $1}'; echo\nprintf 'COOLIFY_COOLD_INSTALLED='; test -x /usr/local/bin/coold && echo 1 || echo 0\nprintf 'COOLIFY_COOLD_ACTIVE='; systemctl is-active --quiet coold && echo 1 || echo 0\nprintf 'CORROSION_VERSION='; cat /usr/local/bin/corrosion.version 2>/dev/null || true; echo\n");
            reveal_strlit("printf 'COOLIFY_COOLD_VERSION='; cat /usr/local/bin/coold.version ");
            reveal_strlit("2>/dev/null || true; echo\nprintf 'COOLIFY_COOLD_UNIT_HASH='; sha256sum /etc/systemd/system/coold.service 2>/dev/null | awk '{print $1}'; echo\nfor ns in ");
        }
        let x = "set +e\nprintf 'WG_INSTALLED='; command -v wg >/dev/null 2>&1 && echo 1 || echo 0\nprintf 'KEYS_EXIST='; test -s /etc/wireguard/publickey && test -s /etc/wireguard/privatekey && echo 1 || echo 0\nprintf 'PUBLIC_KEY='; cat /etc/wireguard/publickey 2>/dev/null || true; echo\nprintf 'CONFIG_B64='; base64 -w0 /etc/wireguard/"@ + iface + ".conf 2>/dev/null || true; echo\nprintf 'WG_DUMP_B64='; wg show "@ + iface + " dump 2>/dev/null | base64 -w0 || true; echo\nprintf 'PODMAN_INSTALLED='; command -v podman >/dev/null 2>&1 && echo 1 || echo 0\nprintf 'PODMAN_SOCKET_ACTIVE='; systemctl is-active --quiet podman.socket && echo 1 || echo 0\nprintf 'IP_FORWARD='; cat /proc/sys/net/ipv4/ip_forward 2>/dev/null || echo 0\nprintf 'FW_ACTIVE='; systemctl is-active --quiet coolify-mesh-fw.service && echo 1 || echo 0\nprintf 'DEFAULT_DENY='; iptables -S COOLIFY-INTRA 2>/dev/null | grep -q -- '-A COOLIFY-INTRA -j DROP' && echo 1 || echo 0\nprintf 'FW_HASH='; sha256sum /etc/systemd/system/coolify-mesh-fw.service 2>/dev/null | awk '{print $1}'; echo\nprintf 'NFT_AVAILABLE='; command -v nft >/dev/null 2>&1 && echo 1 || echo 0\nprintf 'BRIDGE_TABLE='; nft list table bridge coolify_bridge >/dev/null 2>&1 && echo 1 || echo 0\nprintf 'CORROSION_INSTALLED='; test -x /usr/local/bin/corrosion && echo 1 || echo 0\nprintf 'CORROSION_ACTIVE='; systemctl is-active --quiet corrosion && echo 1 || echo 0\nprintf 'CORROSION_CONFIG_HASH='; sha256sum /etc/corrosion/config.toml 2>/dev/null | awk '{print $1}'; echo\nprintf 'CORROSION_SCHEMA_EXISTS='; test -s /etc/corrosion/schemas/coolify.sql && echo 1 || echo 0\nprintf 'CORROSION_SCHEMA_HASH='; sha256sum /etc/corrosion/schemas/coolify.sql 2>/dev/null | awk '{print $1}'; echo\nprintf 'COOLIFY_COOLD_INSTALLED='; test -x /usr/local/bin/coold && echo 1 || echo 0\nprintf 'COOLIFY_COOLD_ACTIVE='; systemctl is-active --quiet coold && echo 1 || echo 0\nprintf 'CORROSION_VERSION='; cat /usr/local/bin/corrosion.version 2>/dev/null || true; echo\n"@;
        let m = "printf 'COOLIFY_COOLD_VERSION='; cat /usr/local/bin/coold.version "@;
        let y = "2>/dev/null || true; echo\nprintf 'COOLIFY_COOLD_UNIT_HASH='; sha256sum /etc/systemd/system/coold.service 2>/dev/null | awk '{print $1}'; echo\nfor ns in "@ + nslist + "; do net=\"coolify-${ns}-mesh\"; printf 'NS=%s|' \"$ns\"; podman network inspect \"$net\" --format '{{.Name}}|{{range .Subnets}}{{.Subnet}}{{end}}|{{.DNSEnabled}}|{{index .Labels \"io.coolify.namespace\"}}' 2>/dev/null || echo 'missing|||'; done\n"@;
        assert(reconstruct::probe_script_text(iface, nslist) =~= x + m + y);
        stands_between(x, m, y);
    }
}

/// The probe inspects the network of each namespace that it is asked about, under its own name.
#[verifier::rlimit(40)]
pub proof fn probes_inspect_the_networks(iface: Seq<char>, nslist: Seq<char>)
    ensures
        text::has_text(reconstruct::probe_script_text(iface, nslist), "for ns in "@ + nslist + "; do net=\"coolify-${ns}-mesh\"; printf 'NS=%s|' \"$ns\"; podman network inspect \"$net\" "@),
{
    assert(text::has_text(reconstruct::probe_script_text(iface, nslist), "for ns in "@ + nslist + "; do net=\"coolify-${ns}-mesh\"; printf 'NS=%s|' \"$ns\"; podman network inspect \"$net\" "@)) by {
        assert(" dump 2>/dev/null | base64 -w0 || true; echo\nprintf 'PODMAN_INSTALLED='; command -v podman >/dev/null 2>&1 && echo 1 || echo 0\nprintf 'PODMAN_SOCKET_ACTIVE='; systemctl is-active --quiet podman.socket && echo 1 || echo 0\nprintf 'IP_FORWARD='; cat /proc/sys/net/ipv4/ip_forward 2>/dev/null || echo 0\nprintf 'FW_ACTIVE='; systemctl is-active --quiet coolify-mesh-fw.service && echo 1 || echo 0\nprintf 'DEFAULT_DENY='; iptables -S COOLIFY-INTRA 2>/dev/null | grep -q -- '-A COOLIFY-INTRA -j DROP' && echo 1 || echo 0\nprintf 'FW_HASH='; sha256sum /etc/systemd/system/coolify-mesh-fw.service 2>/dev/null | awk '{print $1}'; echo\nprintf 'NFT_AVAILABLE='; command -v nft >/dev/null 2>&1 && echo 1 || echo 0\nprintf 'BRIDGE_TABLE='; nft list table bridge coolify_bridge >/dev/null 2>&1 && echo 1 || echo 0\nprintf 'CORROSION_INSTALLED='; test -x /usr/local/bin/corrosion && echo 1 || echo 0\nprintf 'CORROSION_ACTIVE='; systemctl is-active --quiet corrosion && echo 1 || echo 0\nprintf 'CORROSION_CONFIG_HASH='; sha256sum /etc/corrosion/config.toml 2>/dev/null | awk '{print $1}'; echo\nprintf 'CORROSION_SCHEMA_EXISTS='; test -s /etc/corrosion/schemas/coolify.sql && echo 1 || echo 0\nprintf 'CORROSION_SCHEMA_HASH='; sha256sum /etc/corrosion/schemas/coolify.sql 2>/dev/null | awk '{print $1}'; echo\nprintf 'COOLIFY_COOLD_INSTALLED='; test -x /usr/local/bin/coold && echo 1 || echo 0\nprintf 'COOLIFY_COOLD_ACTIVE='; systemctl is-active --quiet coold && echo 1 || echo 0\nprintf 'CORROSION_VERSION='; cat /usr/local/bin/corrosion.version 2>/dev/null || true; echo\nprintf 'COOLIFY_COOLD_VERSION='; cat /usr/local/bin/coold.version 2>/dev/null || true; echo\nprintf 'COOLIFY_COOLD_UNIT_HASH='; sha256sum /etc/systemd/system/coold.service 2>/dev/null | awk '{print $1}'; echo\nfor ns in "@ =~= " dump 2>/dev/null | base64 -w0 || true; echo\nprintf 'PODMAN_INSTALLED='; command -v podman >/dev/null 2>&1 && echo 1 || echo 0\nprintf 'PODMAN_SOCKET_ACTIVE='; systemctl is-active --quiet podman.socket && echo 1 || echo 0\nprintf 'IP_FORWARD='; cat /proc/sys/net/ipv4/ip_forward 2>/dev/null || echo 0\nprintf 'FW_ACTIVE='; systemctl is-active --quiet coolify-mesh-fw.service && echo 1 || echo 0\nprintf 'DEFAULT_DENY='; iptables -S COOLIFY-INTRA 2>/dev/null | grep -q -- '-A COOLIFY-INTRA -j DROP' && echo 1 || echo 0\nprintf 'FW_HASH='; sha256sum /etc/systemd/system/coolify-mesh-fw.service 2>/dev/null | awk '{print $1}'; echo\nprintf 'NFT_AVAILABLE='; command -v nft >/dev/null 2>&1 && echo 1 || echo 0\nprintf 'BRIDGE_TABLE='; nft list table bridge coolify_bridge >/dev/null 2>&1 && echo 1 || echo 0\nprintf 'CORROSION_INSTALLED='; test -x /usr/local/bin/corrosion && echo 1 || echo 0\nprintf 'CORROSION_ACTIVE='; systemctl is-active --quiet corrosion && echo 1 || echo 0\nprintf 'CORROSION_CONFIG_HASH='; sha256sum /etc/corrosion/config.toml 2>/dev/null | awk '{print $1}'; echo\nprintf 'CORROSION_SCHEMA_EXISTS='; test -s /etc/corrosion/schemas/coolify.sql && echo 1 || echo 0\nprintf 'CORROSION_SCHEMA_HASH='; sha256sum /etc/corrosion/schemas/coolify.sql 2>/dev/null | awk '{print $1}'; echo\nprintf 'COOLIFY_COOLD_INSTALLED='; test -x /usr/local/bin/coold && echo 1 || echo 0\nprintf 'COOLIFY_COOLD_ACTIVE='; systemctl is-active --quiet coold && echo 1 || echo 0\nprintf 'CORROSION_VERSION='; cat /usr/local/bin/corrosion.version 2>/dev/null || true; echo\nprintf 'COOLIFY_COOLD_VERSION='; cat /usr/local/bin/coold.version 2>/dev/null || true; echo\nprintf 'COOLIFY_COOLD_UNIT_HASH='; sha256sum /etc/systemd/system/coold.service 2>/dev/null | awk '{print $1}'; echo\n"@ + "for ns in "@) by {
            reveal_strlit(" dump 2>/dev/null | base64 -w0 || true; echo\nprintf 'PODMAN_INSTALLED='; command -v podman >/dev/null 2>&1 && echo 1 || echo 0\nprintf 'PODMAN_SOCKET_ACTIVE='; systemctl is-active --quiet podman.socket && echo 1 || echo 0\nprintf 'IP_FORWARD='; cat /proc/sys/net/ipv4/ip_forward 2>/dev/null || echo 0\nprintf 'FW_ACTIVE='; systemctl is-active --quiet coolify-mesh-fw.service && echo 1 || echo 0\nprintf 'DEFAULT_DENY='; iptables -S COOLIFY-INTRA 2>/dev/null | grep -q -- '-A COOLIFY-INTRA -j DROP' && echo 1 || echo 0\nprintf 'FW_HASH='; sha256sum /etc/systemd/system/coolify-mesh-fw.service 2>/dev/null | awk '{print $1}'; echo\nprintf 'NFT_AVAILABLE='; command -v nft >/dev/null 2>&1 && echo 1 || echo 0\nprintf 'BRIDGE_TABLE='; nft list table bridge coolify_bridge >/dev/null 2>&1 && echo 1 || echo 0\nprintf 'CORROSION_INSTALLED='; test -x /usr/local/bin/corrosion && echo 1 || echo 0\nprintf 'CORROSION_ACTIVE='; systemctl is-active --quiet corrosion && echo 1 || echo 0\nprintf 'CORROSION_CONFIG_HASH='; sha256sum /etc/corrosion/config.toml 2>/dev/null | awk '{print $1}'; echo\nprintf 'CORROSION_SCHEMA_EXISTS='; test -s /etc/corrosion/schemas/coolify.sql && echo 1 || echo 0\nprintf 'CORROSION_SCHEMA_HASH='; sha256sum /etc/corrosion/schemas/coolify.sql 2>/dev/null | awk '{print $1}'; echo\nprintf 'COOLIFY_COOLD_INSTALLED='; test -x /usr/local/bin/coold && echo 1 || echo 0\nprintf 'COOLIFY_COOLD_ACTIVE='; systemctl is-active --quiet coold && echo 1 || echo 0\nprintf 'CORROSION_VERSION='; cat /usr/local/bin/corrosion.version 2>/dev/null || true; echo\nprintf 'COOLIFY_COOLD_VERSION='; cat /usr/local/bin/coold.version 2>/dev/null || true; echo\nprintf 'COOLIFY_COOLD_UNIT_HASH='; sha256sum /etc/systemd/system/coold.service 2>/dev/null | awk '{print $1}'; echo\nfor ns in ");
            reveal_strlit(" dump 2>/dev/null | base64 -w0 || true; echo\nprintf 'PODMAN_INSTALLED='; command -v podman >/dev/null 2>&1 && echo 1 || echo 0\nprintf 'PODMAN_SOCKET_ACTIVE='; systemctl is-active --quiet podman.socket && echo 1 || echo 0\nprintf 'IP_FORWARD='; cat /proc/sys/net/ipv4/ip_forward 2>/dev/null || echo 0\nprintf 'FW_ACTIVE='; systemctl is-active --quiet coolify-mesh-fw.service && echo 1 || echo 0\nprintf 'DEFAULT_DENY='; iptables -S COOLIFY-INTRA 2>/dev/null | grep -q -- '-A COOLIFY-INTRA -j DROP' && echo 1 || echo 0\nprintf 'FW_HASH='; sha256sum /etc/systemd/system/coolify-mesh-fw.service 2>/dev/null | awk '{print $1}'; echo\nprintf 'NFT_AVAILABLE='; command -v nft >/dev/null 2>&1 && echo 1 || echo 0\nprintf 'BRIDGE_TABLE='; nft list table bridge coolify_bridge >/dev/null 2>&1 && echo 1 || echo 0\nprintf 'CORROSION_INSTALLED='; test -x /usr/local/bin/corrosion && echo 1 || echo 0\nprintf 'CORROSION_ACTIVE='; systemctl is-active --quiet corrosion && echo 1 || echo 0\nprintf 'CORROSION_CONFIG_HASH='; sha256sum /etc/corrosion/config.toml 2>/dev/null | awk '{print $1}'; echo\nprintf 'CORROSION_SCHEMA_EXISTS='; test -s /etc/corrosion/schemas/coolify.sql && echo 1 || echo 0\nprintf 'CORROSION_SCHEMA_HASH='; sha256sum /etc/corrosion/schemas/coolify.sql 2>/dev/null | awk '{print $1}'; echo\nprintf 'COOLIFY_COOLD_INSTALLED='; test -x /usr/local/bin/coold && echo 1 || echo 0\nprintf 'COOLIFY_COOLD_ACTIVE='; systemctl is-active --quiet coold && echo 1 || echo 0\nprintf 'CORROSION_VERSION='; cat /usr/local/bin/corrosion.version 2>/dev/null || true; echo\nprintf 'COOLIFY_COOLD_VERSION='; cat /usr/local/bin/coold.version 2>/dev/null || true; echo\nprintf 'COOLIFY_COOLD_UNIT_HASH='; sha256sum /etc/systemd/system/coold.service 2>/dev/null | awk '{print $1}'; echo\n");
            reveal_strlit("for ns in ");
        }
        assert("; do net=\"coolify-${ns}-mesh\"; printf 'NS=%s|' \"$ns\"; podman network inspect \"$net\" --format '{{.Name}}|{{range .Subnets}}{{.Subnet}}{{end}}|{{.DNSEnabled}}|{{index .Labels \"io.coolify.namespace\"}}' 2>/dev/null || echo 'missing|||'; done\n"@ =~= "; do net=\"coolify-${ns}-mesh\"; printf 'NS=%s|' \"$ns\"; podman network inspect \"$net\" "@ + "--format '{{.Name}}|{{range .Subnets}}{{.Subnet}}{{end}}|{{.DNSEnabled}}|{{index .Labels \"io.coolify.namespace\"}}' 2>/dev/null || echo 'missing|||'; done\n"@) by {
            reveal_strlit("; do net=\"coolify-${ns}-mesh\"; printf 'NS=%s|' \"$ns\"; podman network inspect \"$net\" --format '{{.Name}}|{{range .Subnets}}{{.Subnet}}{{end}}|{{.DNSEnabled}}|{{index .Labels \"io.coolify.namespace\"}}' 2>/dev/null || echo 'missing|||'; done\n");
            reveal_strlit("; do net=\"coolify-${ns}-mesh\"; printf 'NS=%s|' \"$ns\"; podman network inspect \"$net\" ");
            reveal_strlit("--format '{{.Name}}|{{range .Subnets}}{{.Subnet}}{{end}}|{{.DNSEnabled}}|{{index .Labels \"io.coolify.namespace\"}}' 2>/dev/null || echo 'missing|||'; done\n");
        }
        let x = "set +e\nprintf 'WG_INSTALLED='; command -v wg >/dev/null 2>&1 && echo 1 || echo 0\nprintf 'KEYS_EXIST='; test -s /etc/wireguard/publickey && test -s /etc/wireguard/privatekey && echo 1 || echo 0\nprintf 'PUBLIC_KEY='; cat /etc/wireguard/publickey 2>/dev/null || true; echo\nprintf 'CONFIG_B64='; base64 -w0 /etc/wireguard/"@ + iface + ".conf 2>/dev/null || true; echo\nprintf 'WG_DUMP_B64='; wg show "@ + iface + " dump 2>/dev/null | base64 -w0 || true; echo\nprintf 'PODMAN_INSTALLED='; command -v podman >/dev/null 2>&1 && echo 1 || echo 0\nprintf 'PODMAN_SOCKET_ACTIVE='; systemctl is-active --quiet podman.socket && echo 1 || echo 0\nprintf 'IP_FORWARD='; cat /proc/sys/net/ipv4/ip_forward 2>/dev/null || echo 0\nprintf 'FW_ACTIVE='; systemctl is-active --quiet coolify-mesh-fw.service && echo 1 || echo 0\nprintf 'DEFAULT_DENY='; iptables -S COOLIFY-INTRA 2>/dev/null | grep -q -- '-A COOLIFY-INTRA -j DROP' && echo 1 || echo 0\nprintf 'FW_HASH='; sha256sum /etc/systemd/system/coolify-mesh-fw.service 2>/dev/null | awk '{print $1}'; echo\nprintf 'NFT_AVAILABLE='; command -v nft >/dev/null 2>&1 && echo 1 || echo 0\nprintf 'BRIDGE_TABLE='; nft list table bridge coolify_bridge >/dev/null 2>&1 && echo 1 || echo 0\nprintf 'CORROSION_INSTALLED='; test -x /usr/local/bin/corrosion && echo 1 || echo 0\nprintf 'CORROSION_ACTIVE='; systemctl is-active --quiet corrosion && echo 1 || echo 0\nprintf 'CORROSION_CONFIG_HASH='; sha256sum /etc/corrosion/config.toml 2>/dev/null | awk '{print $1}'; echo\nprintf 'CORROSION_SCHEMA_EXISTS='; test -s /etc/corrosion/schemas/coolify.sql && echo 1 || echo 0\nprintf 'CORROSION_SCHEMA_HASH='; sha256sum /etc/corrosion/schemas/coolify.sql 2>/dev/null | awk '{print $1}'; echo\nprintf 'COOLIFY_COOLD_INSTALLED='; test -x /usr/local/bin/coold && echo 1 || echo 0\nprintf 'COOLIFY_COOLD_ACTIVE='; systemctl is-active --quiet coold && echo 1 || echo 0\nprintf 'CORROSION_VERSION='; cat /usr/local/bin/corrosion.version 2>/dev/null || true; echo\nprintf 'COOLIFY_COOLD_VERSION='; cat /usr/local/bin/coold.version 2>/dev/null || true; echo\nprintf 'COOLIFY_COOLD_UNIT_HASH='; sha256sum /etc/systemd/system/coold.service 2>/dev/null | awk '{print $1}'; echo\n"@;
        let m = "for ns in "@ + nslist + "; do net=\"coolify-${ns}-mesh\"; printf 'NS=%s|' \"$ns\"; podman network inspect \"$net\" "@;
        let y = "--format '{{.Name}}|{{range .Subnets}}{{.Subnet}}{{end}}|{{.DNSEnabled}}|{{index .Labels \"io.coolify.namespace\"}}' 2>/dev/null || echo 'missing|||'; done\n"@;
        assert(reconstruct::probe_script_text(iface, nslist) =~= x + m + y);
        stands_between(x, m, y);
    }
}

} // verus!
