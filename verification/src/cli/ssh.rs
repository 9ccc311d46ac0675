//! SSH access of the cluster command line.

use vstd::prelude::*;
use vstd::string::StringExecFns;
use crate::number;
use crate::ssh;
use crate::text;

pub use crate::ssh::{first_line, parse_duration, RunOutput, ServerResult};

verus! {

/// Which nodes to reach, and how.
#[derive(Clone, Debug)]
pub struct SshMeshFlags {
    pub nodes: Vec<String>,
    pub ssh_key: Option<String>,
    pub ssh_config: Option<String>,
    pub ssh_user: String,
    pub ssh_port: u16,
    pub ssh_passphrase_prompt: bool,
    pub concurrency: usize,
    pub ssh_timeout: String,
}

/// What a connection needs.
#[derive(Clone, Debug)]
pub struct SshClient {
    pub key: Option<String>,
    pub config: Option<String>,
    pub timeout_millis: u128,
}

/// Why the flags name no way to reach the nodes.
pub open spec fn access_error(f: SshMeshFlags) -> Option<Seq<char>> {
    if f.ssh_key is None && f.ssh_config is None {
        Some("--ssh-key or --ssh-config is required"@)
    } else {
        None
    }
}

/// Why the flags cannot be used.
pub open spec fn flags_error(f: SshMeshFlags) -> Option<Seq<char>> {
    if f.nodes@.len() == 0 {
        Some("--nodes is required"@)
    } else {
        access_error(f)
    }
}

/// Whether a check passed, or what it said.
pub open spec fn says(r: Result<(), String>, error: Option<Seq<char>>) -> bool {
    match r {
        Ok(_) => error is None,
        Err(e) => error == Some(e@),
    }
}

impl SshMeshFlags {
    pub fn validate(&self) -> (r: Result<(), String>)
        ensures
            says(r, flags_error(*self)),
    {
        if self.nodes.len() == 0 {
            return Err("--nodes is required".to_owned());
        }
        self.validate_ssh_access()
    }

    pub fn validate_ssh_access(&self) -> (r: Result<(), String>)
        ensures
            says(r, access_error(*self)),
    {
        if self.ssh_key.is_none() && self.ssh_config.is_none() {
            Err("--ssh-key or --ssh-config is required".to_owned())
        } else {
            Ok(())
        }
    }

    /// The timeout in milliseconds.
    pub fn timeout(&self) -> (r: u128)
        requires
            ssh::countable(self.ssh_timeout@),
        ensures
            r == ssh::timeout_millis(self.ssh_timeout@),
    {
        ssh::timeout_of(self.ssh_timeout.as_str())
    }

    pub fn client(&self) -> (r: SshClient)
        requires
            ssh::countable(self.ssh_timeout@),
        ensures
            text::opt_view(r.key) == text::opt_view(self.ssh_key),
            text::opt_view(r.config) == text::opt_view(self.ssh_config),
            r.timeout_millis == ssh::timeout_millis(self.ssh_timeout@),
    {
        SshClient {
            key: text::copy_opt(&self.ssh_key),
            config: text::copy_opt(&self.ssh_config),
            timeout_millis: self.timeout(),
        }
    }
}

/// The command that writes a file in one step.
pub open spec fn heredoc_text(path: Seq<char>, body: Seq<char>, mode: Seq<char>) -> Seq<char> {
    "cat > "@
        + path
        + ".tmp <<'COOLIFY_CLI_EOF'\n"@
        + body
        + "COOLIFY_CLI_EOF\nchmod "@
        + mode
        + " "@
        + path
        + ".tmp && mv "@
        + path
        + ".tmp "@
        + path
}

/// The command that writes a file in one step.
pub fn heredoc(path: &str, body: &str, mode: &str) -> (r: String)
    ensures
        r@ == heredoc_text(path@, body@, mode@),
{
    let mut out: String = "cat > ".to_owned();
    out.append(path);
    out.append(".tmp <<'COOLIFY_CLI_EOF'\n");
    out.append(body);
    out.append("COOLIFY_CLI_EOF\nchmod ");
    out.append(mode);
    out.append(" ");
    out.append(path);
    out.append(".tmp && mv ");
    out.append(path);
    out.append(".tmp ");
    out.append(path);
    out
}

/// The host and the port of a node: its own port where it names one.
pub open spec fn host_and_port(host: Seq<char>, default_port: u16) -> (Seq<char>, u16) {
    match text::rsplit_once_spec(host, ':') {
        None => (host, default_port),
        Some((name, raw)) => if name.len() == 0 || name.contains(':') {
            (host, default_port)
        } else {
            match number::parsed(raw, 65535) {
                Some(p) => (name, p as u16),
                None => (host, default_port),
            }
        },
    }
}

pub fn split_host_port(host: &str, default_port: u16) -> (r: (String, u16))
    ensures
        (r.0@, r.1) == host_and_port(host@, default_port),
{
    match text::rsplit_once(host, ':') {
        None => (host.to_owned(), default_port),
        Some((name, raw)) => {
            if name.as_str().is_empty() || text::has_char(name.as_str(), ':') {
                return (host.to_owned(), default_port);
            }
            match number::parse_bounded(raw.as_str(), 65535) {
                Some(p) => (name, p as u16),
                None => (host.to_owned(), default_port),
            }
        },
    }
}

/// Whether a character means nothing but itself to a shell.
pub open spec fn plain(c: char) -> bool {
    ('a' <= c && c <= 'z') || ('A' <= c && c <= 'Z') || ('0' <= c && c <= '9') || c == '-' || c
        == '_' || c == '=' || c == '/' || c == ',' || c == '.' || c == '+'
}

/// A text between single quotes: those in it, and exclamation marks, step outside of the
/// quotes behind a backslash.
pub open spec fn between_quotes(s: Seq<char>) -> Seq<char>
    decreases s.len(),
{
    if s.len() == 0 {
        Seq::empty()
    } else if s[0] == '\'' || s[0] == '!' {
        seq!['\'', '\\', s[0], '\''] + between_quotes(s.drop_first())
    } else {
        seq![s[0]] + between_quotes(s.drop_first())
    }
}

/// A text as one word of a shell command: as it is where it is plain, and in single quotes
/// otherwise.
pub open spec fn shell_escaped(s: Seq<char>) -> Seq<char> {
    if s.len() > 0 && (forall|i: int| 0 <= i < s.len() ==> plain(#[trigger] s[i])) {
        s
    } else {
        seq!['\''] + between_quotes(s) + seq!['\'']
    }
}

/// `shell_escape::unix::escape`, which is what `shell_escape::escape` is on Unix: the text as
/// one word of a shell command.
#[verifier::external_body]
fn shell_escape(s: &str) -> (r: String)
    ensures
        r@ == shell_escaped(s@),
{
    shell_escape::unix::escape(s.into()).into_owned()
}

/// What a shell reads one word as, from inside or outside of single quotes: nothing where the
/// text is more than one word, or something else to the shell.
pub open spec fn shell_word(s: Seq<char>, quoted: bool) -> Option<Seq<char>>
    decreases s.len(),
{
    if s.len() == 0 {
        if quoted {
            None
        } else {
            Some(Seq::empty())
        }
    } else if s[0] == '\'' {
        shell_word(s.drop_first(), !quoted)
    } else if quoted || plain(s[0]) {
        match shell_word(s.drop_first(), quoted) {
            Some(w) => Some(seq![s[0]] + w),
            None => None,
        }
    } else if s[0] == '\\' && s.len() > 1 && s[1] != '\n' {
        match shell_word(s.skip(2), false) {
            Some(w) => Some(seq![s[1]] + w),
            None => None,
        }
    } else {
        None
    }
}

proof fn quotes_read_back(s: Seq<char>)
    ensures
        shell_word(between_quotes(s) + seq!['\''], true) == Some(s),
    decreases s.len(),
{
    let whole = between_quotes(s) + seq!['\''];
    if s.len() == 0 {
        reveal_with_fuel(shell_word, 2);
        assert(whole.drop_first() =~= Seq::<char>::empty());
        assert(s =~= Seq::<char>::empty());
    } else {
        let rest = s.drop_first();
        let tail = between_quotes(rest) + seq!['\''];
        quotes_read_back(rest);
        assert(seq![s[0]] + rest =~= s);
        if s[0] == '\'' || s[0] == '!' {
            let outside = whole.drop_first();
            assert(whole[0] == '\'');
            assert(outside[0] == '\\' && outside[1] == s[0]);
            assert(outside.skip(2) =~= seq!['\''] + tail);
            assert((seq!['\''] + tail).drop_first() =~= tail);
            assert(shell_word(seq!['\''] + tail, false) == Some(rest));
            assert(shell_word(outside, false) == Some(s));
        } else {
            assert(whole[0] == s[0]);
            assert(whole.drop_first() =~= tail);
        }
    }
}

proof fn plain_reads_back(s: Seq<char>)
    requires
        forall|i: int| 0 <= i < s.len() ==> plain(#[trigger] s[i]),
    ensures
        shell_word(s, false) == Some(s),
    decreases s.len(),
{
    if s.len() > 0 {
        let rest = s.drop_first();
        assert forall|i: int| 0 <= i < rest.len() implies plain(#[trigger] rest[i]) by {
            assert(rest[i] == s[i + 1]);
        }
        plain_reads_back(rest);
        assert(plain(s[0]));
        assert(seq![s[0]] + rest =~= s);
    } else {
        assert(s =~= Seq::<char>::empty());
    }
}

/// An escaped text is one word to a shell, and that word is the text: no command can break
/// out of the one that runs it.
pub proof fn escaped_commands_are_one_word(s: Seq<char>)
    ensures
        shell_word(shell_escaped(s), false) == Some(s),
{
    if s.len() > 0 && (forall|i: int| 0 <= i < s.len() ==> plain(#[trigger] s[i])) {
        plain_reads_back(s);
    } else {
        let e = shell_escaped(s);
        quotes_read_back(s);
        assert(e[0] == '\'');
        assert(e.drop_first() =~= between_quotes(s) + seq!['\'']);
    }
}

/// The command as it runs on a host: for another user than root through `sudo`.
pub open spec fn remote_text(user: Seq<char>, cmd: Seq<char>) -> Seq<char> {
    if user == "root"@ {
        cmd
    } else {
        "sudo -n bash -lc "@ + shell_escaped(cmd)
    }
}

pub fn remote_command(user: &str, cmd: &str) -> (r: String)
    ensures
        r@ == remote_text(user@, cmd@),
{
    if text::same(user, "root") {
        cmd.to_owned()
    } else {
        let mut out: String = "sudo -n bash -lc ".to_owned();
        out.append(shell_escape(cmd).as_str());
        out
    }
}

/// The option for the time that a connection may take.
pub open spec fn connect_timeout_text(secs: nat) -> Seq<char> {
    "ConnectTimeout="@
        + number::decimal(secs)
}

/// The option for the time that a connection may take.
pub fn connect_timeout(secs: u64) -> (r: String)
    ensures
        r@ == connect_timeout_text(secs as nat),
{
    let mut out: String = "ConnectTimeout=".to_owned();
    out.append(number::decimal_of(secs).as_str());
    out
}

/// The first arguments: the configuration file, or the key and the port.
pub open spec fn access_args(config: Option<Seq<char>>, key: Option<Seq<char>>, port: u16) -> Seq<
    Seq<char>,
> {
    match config {
        Some(c) => seq!["-F"@, c],
        None => seq!["-i"@, key->0, "-p"@, number::decimal(port as nat)],
    }
}

/// The arguments of `ssh`: without a configuration file of their own, connections to a
/// host share one for a minute.
pub open spec fn ssh_args(
    config: Option<Seq<char>>,
    key: Option<Seq<char>>,
    millis: nat,
    port: u16,
    dest: Seq<char>,
    cmd: Seq<char>,
) -> Seq<Seq<char>> {
    access_args(config, key, port) + seq![
        "-o"@,
        "StrictHostKeyChecking=no"@,
        "-o"@,
        "UserKnownHostsFile=/dev/null"@,
        "-o"@,
        connect_timeout_text(ssh::connect_seconds(millis)),
    ] + (if config is None {
        seq![
            "-o"@,
            "ControlMaster=auto"@,
            "-o"@,
            "ControlPath=/tmp/coolify-ssh-%C"@,
            "-o"@,
            "ControlPersist=60s"@,
        ]
    } else {
        Seq::empty()
    }) + seq![dest, cmd]
}

/// The arguments of `ssh`. Without a configuration file a key is needed, and the timeout
/// has to be countable in seconds.
pub fn ssh_command_args(
    config: Option<&String>,
    key: Option<&String>,
    timeout_millis: u128,
    port: u16,
    dest: &str,
    remote_cmd: &str,
) -> (r: Vec<String>)
    requires
        config is Some || key is Some,
        timeout_millis / 1000 <= u64::MAX,
    ensures
        text::views(r@) == ssh_args(
            text::ref_view(config),
            text::ref_view(key),
            timeout_millis as nat,
            port,
            dest@,
            remote_cmd@,
        ),
{
    broadcast use text::views_push;

    let mut args: Vec<String> = Vec::new();
    proof {
        assert(text::views(args@) =~= Seq::empty());
    }
    if let Some(c) = config {
        args.push("-F".to_owned());
        args.push(c.clone());
    } else if let Some(k) = key {
        args.push("-i".to_owned());
        args.push(k.clone());
        args.push("-p".to_owned());
        args.push(number::decimal_of(port as u64));
    }
    let secs: u64 = if timeout_millis / 1000 < 1 {
        1
    } else {
        (timeout_millis / 1000) as u64
    };
    args.push("-o".to_owned());
    args.push("StrictHostKeyChecking=no".to_owned());
    args.push("-o".to_owned());
    args.push("UserKnownHostsFile=/dev/null".to_owned());
    args.push("-o".to_owned());
    args.push(connect_timeout(secs));
    if config.is_none() {
        args.push("-o".to_owned());
        args.push("ControlMaster=auto".to_owned());
        args.push("-o".to_owned());
        args.push("ControlPath=/tmp/coolify-ssh-%C".to_owned());
        args.push("-o".to_owned());
        args.push("ControlPersist=60s".to_owned());
    }
    args.push(dest.to_owned());
    args.push(remote_cmd.to_owned());
    proof {
        assert(text::views(args@) =~= ssh_args(
            text::ref_view(config),
            text::ref_view(key),
            timeout_millis as nat,
            port,
            dest@,
            remote_cmd@,
        ));
    }
    args
}

} // verus!
