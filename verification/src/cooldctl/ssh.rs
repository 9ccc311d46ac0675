//! SSH access of the provisioning tool.

use vstd::prelude::*;
use vstd::string::StringExecFns;
use crate::cli::ssh as access;
use crate::number;
use crate::ssh;
use crate::text;

pub use crate::ssh::{first_line, parse_duration, RunOutput, ServerResult};

verus! {

/// Which servers to reach, and how.
#[derive(Clone, Debug)]
pub struct SshMeshFlags {
    pub nodes: Vec<String>,
    pub ssh_key: String,
    pub ssh_user: String,
    pub ssh_port: u16,
    pub ssh_passphrase_prompt: bool,
    pub concurrency: usize,
    pub ssh_timeout: String,
}

/// What a connection needs.
#[derive(Clone, Debug)]
pub struct SshClient {
    pub key: String,
    pub timeout_millis: u128,
}

/// Why there is no key to reach the servers with.
pub open spec fn key_error(f: SshMeshFlags) -> Option<Seq<char>> {
    if f.ssh_key@.len() == 0 {
        Some("--ssh-key is required"@)
    } else {
        None
    }
}

/// Why the flags cannot be used.
pub open spec fn flags_error(f: SshMeshFlags) -> Option<Seq<char>> {
    if f.nodes@.len() == 0 {
        Some("--servers is required"@)
    } else {
        key_error(f)
    }
}

impl SshMeshFlags {
    pub fn validate(&self) -> (r: Result<(), String>)
        ensures
            access::says(r, flags_error(*self)),
    {
        if self.nodes.len() == 0 {
            return Err("--servers is required".to_owned());
        }
        self.validate_ssh_key()
    }

    pub fn validate_ssh_key(&self) -> (r: Result<(), String>)
        ensures
            access::says(r, key_error(*self)),
    {
        if self.ssh_key.as_str().is_empty() {
            Err("--ssh-key is required".to_owned())
        } else {
            Ok(())
        }
    }

    /// The timeout in milliseconds.
    pub fn timeout(&self) -> (r: u128)
        requires
            ssh::countable(self.ssh_timeout@),
        ensures
            r == ssh::timeout_millis(self.ssh_timeout@),
    {
        ssh::timeout_of(self.ssh_timeout.as_str())
    }

    pub fn client(&self) -> (r: SshClient)
        requires
            ssh::countable(self.ssh_timeout@),
        ensures
            r.key@ == self.ssh_key@,
            r.timeout_millis == ssh::timeout_millis(self.ssh_timeout@),
    {
        SshClient { key: self.ssh_key.clone(), timeout_millis: self.timeout() }
    }
}

/// The command that writes a file in one step.
pub open spec fn heredoc_text(path: Seq<char>, body: Seq<char>, mode: Seq<char>) -> Seq<char> {
    "cat > "@
        + path
        + ".tmp <<'COOLDCTL_EOF'\n"@
        + body
        + "COOLDCTL_EOF\nchmod "@
        + mode
        + " "@
        + path
        + ".tmp && mv "@
        + path
        + ".tmp "@
        + path
}

/// The command that writes a file in one step.
pub fn heredoc(path: &str, body: &str, mode: &str) -> (r: String)
    ensures
        r@ == heredoc_text(path@, body@, mode@),
{
    let mut out: String = "cat > ".to_owned();
    out.append(path);
    out.append(".tmp <<'COOLDCTL_EOF'\n");
    out.append(body);
    out.append("COOLDCTL_EOF\nchmod ");
    out.append(mode);
    out.append(" ");
    out.append(path);
    out.append(".tmp && mv ");
    out.append(path);
    out.append(".tmp ");
    out.append(path);
    out
}

/// The arguments of `ssh`.
pub open spec fn ssh_args(
    key: Seq<char>,
    millis: nat,
    port: u16,
    user: Seq<char>,
    host: Seq<char>,
    cmd: Seq<char>,
) -> Seq<Seq<char>> {
    seq![
        "-i"@,
        key,
        "-p"@,
        number::decimal(port as nat),
        "-o"@,
        "StrictHostKeyChecking=no"@,
        "-o"@,
        "UserKnownHostsFile=/dev/null"@,
        "-o"@,
        access::connect_timeout_text(ssh::connect_seconds(millis)),
        user + "@"@ + host,
        cmd,
    ]
}

/// The arguments of `ssh`. The timeout has to be countable in seconds.
pub fn ssh_command_args(
    client: &SshClient,
    host: &str,
    user: &str,
    port: u16,
    cmd: &str,
) -> (r: Vec<String>)
    requires
        client.timeout_millis / 1000 <= u64::MAX,
    ensures
        text::views(r@) == ssh_args(
            client.key@,
            client.timeout_millis as nat,
            port,
            user@,
            host@,
            cmd@,
        ),
{
    broadcast use text::views_push;

    let mut args: Vec<String> = Vec::new();
    proof {
        assert(text::views(args@) =~= Seq::empty());
    }
    let secs: u64 = if client.timeout_millis / 1000 < 1 {
        1
    } else {
        (client.timeout_millis / 1000) as u64
    };
    let mut dest: String = user.to_owned();
    dest.append("@");
    dest.append(host);
    args.push("-i".to_owned());
    args.push(client.key.clone());
    args.push("-p".to_owned());
    args.push(number::decimal_of(port as u64));
    args.push("-o".to_owned());
    args.push("StrictHostKeyChecking=no".to_owned());
    args.push("-o".to_owned());
    args.push("UserKnownHostsFile=/dev/null".to_owned());
    args.push("-o".to_owned());
    args.push(access::connect_timeout(secs));
    args.push(dest);
    args.push(cmd.to_owned());
    proof {
        assert(text::views(args@) =~= ssh_args(
            client.key@,
            client.timeout_millis as nat,
            port,
            user@,
            host@,
            cmd@,
        ));
    }
    args
}

} // verus!
