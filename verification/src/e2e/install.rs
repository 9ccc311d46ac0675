//! What is checked on installed machines.

use vstd::prelude::*;
use vstd::string::StringExecFns;
use crate::json;
use crate::number;
use crate::split;
use crate::text;

verus! {

pub const TEST_IMAGE: &'static str = "docker.io/library/alpine:3.19";

pub const NAMESPACE: &'static str = "default";

pub const NET: &'static str = "coolify-default-mesh";

/// What the tests are run with.
#[derive(Clone, Debug)]
pub struct InstallEnv {
    pub ssh_key: String,
    pub coolify_bin: String,
    pub cooldctl_bin: String,
}

/// What is said where a setting is missing.
pub open spec fn missing_env_text(name: Seq<char>) -> Seq<char> {
    "env "@
        + name
        + " required"@
}

/// What is said where a setting is missing.
pub fn missing_env(name: &str) -> (r: String)
    ensures
        r@ == missing_env_text(name@),
{
    let mut out: String = "env ".to_owned();
    out.append(name);
    out.append(" required");
    out
}

/// A setting, or what it is by default.
pub open spec fn setting_or(v: Option<String>, default: Seq<char>) -> Seq<char> {
    match v {
        Some(s) => s@,
        None => default,
    }
}

impl InstallEnv {
    /// What the tests are run with: the key has to be set, the programs have defaults.
    pub fn from_env(
        ssh_key: Option<String>,
        coolify_bin: Option<String>,
        cooldctl_bin: Option<String>,
    ) -> (r: Result<Self, String>)
        ensures
            match (ssh_key, r) {
                (Some(k), Ok(e)) => e.ssh_key == k && e.coolify_bin@ == setting_or(
                    coolify_bin,
                    "coolify"@,
                ) && e.cooldctl_bin@ == setting_or(cooldctl_bin, "cooldctl"@),
                (None, Err(e)) => e@ == missing_env_text("SSH_KEY"@),
                _ => false,
            },
    {
        match ssh_key {
            None => Err(missing_env("SSH_KEY")),
            Some(ssh_key) => {
                let coolify_bin: String = match coolify_bin {
                    Some(s) => s,
                    None => "coolify".to_owned(),
                };
                let cooldctl_bin: String = match cooldctl_bin {
                    Some(s) => s,
                    None => "cooldctl".to_owned(),
                };
                Ok(InstallEnv { ssh_key, coolify_bin, cooldctl_bin })
            },
        }
    }
}

/// The command that shows the address of the mesh interface.
pub const WG0_IP_COMMAND: &'static str = "ip -4 -o addr show wg0 | awk '{print $4}' | cut -d/ -f1";

/// Reads the address of the mesh interface.
pub fn wg0_ip(stdout: &str) -> (r: String)
    ensures
        r@ == split::trimmed(stdout@),
{
    split::trim(stdout)
}

/// The command that shows when the peers were last heard of.
pub const HANDSHAKES_COMMAND: &'static str = "wg show wg0 latest-handshakes";

/// Whether a line tells of a peer.
pub open spec fn tells_of_peer(line: Seq<char>) -> bool {
    split::words_of(line).len() >= 2
}

/// Whether a line tells of a peer that was never heard of.
pub open spec fn never_heard(line: Seq<char>) -> bool {
    tells_of_peer(line) && split::words_of(line)[1] == "0"@
}

/// Whether there are peers, and all of them were heard of.
pub open spec fn all_heard(lines: Seq<Seq<char>>) -> bool {
    &&& exists|i: int| 0 <= i < lines.len() && tells_of_peer(#[trigger] lines[i])
    &&& forall|i: int| 0 <= i < lines.len() ==> !never_heard(#[trigger] lines[i])
}

/// An outcome by its characters.
pub open spec fn outcome_view(o: Result<&str, &str>) -> Option<Seq<char>> {
    match o {
        Ok(s) => Some(s@),
        Err(_) => None,
    }
}

/// Whether every peer was heard of.
pub fn wg_peers_handshaken(outcome: Result<&str, &str>) -> (r: bool)
    ensures
        r == (outcome_view(outcome) matches Some(s) && all_heard(split::lines_of(s))),
{
    let out: &str = match outcome {
        Ok(s) => s,
        Err(_) => {
            return false;
        },
    };
    let lines: Vec<String> = split::lines(out);
    let ghost ls = split::lines_of(out@);
    let mut any: bool = false;
    let mut i: usize = 0;
    while i < lines.len()
        invariant
            i <= lines@.len(),
            ls == text::views(lines@),
            ls == split::lines_of(out@),
            outcome_view(outcome) == Some(out@),
            any == exists|j: int| 0 <= j < i && tells_of_peer(#[trigger] ls[j]),
            forall|j: int| 0 <= j < i ==> !never_heard(#[trigger] ls[j]),
        decreases lines@.len() - i,
    {
        let parts: Vec<String> = split::words(lines[i].as_str());
        let ghost ps = split::words_of(ls[i as int]);
        proof {
            assert(ls[i as int] == lines@[i as int]@);
            assert(text::views(parts@).len() == parts@.len());
        }
        if parts.len() >= 2 {
            proof {
                assert(ps[1] == parts@[1]@);
                assert(tells_of_peer(ls[i as int]));
            }
            any = true;
            if text::same(parts[1].as_str(), "0") {
                proof {
                    assert(never_heard(ls[i as int]));
                }
                return false;
            }
        }
        i = i + 1;
    }
    any
}

/// The command that shows whether a unit is active.
pub open spec fn unit_active_command_text(unit: Seq<char>) -> Seq<char> {
    "systemctl is-active "@
        + unit
        + " 2>&1 || true"@
}

/// The command that shows whether a unit is active.
pub fn unit_active_command(unit: &str) -> (r: String)
    ensures
        r@ == unit_active_command_text(unit@),
{
    let mut out: String = "systemctl is-active ".to_owned();
    out.append(unit);
    out.append(" 2>&1 || true");
    out
}

/// Whether an outcome says just this.
pub open spec fn says_just(o: Result<&str, &str>, word: Seq<char>) -> bool {
    outcome_view(o) matches Some(s) && split::trimmed(s) == word
}

fn says(outcome: Result<&str, &str>, word: &str) -> (r: bool)
    ensures
        r == says_just(outcome, word@),
{
    match outcome {
        Ok(s) => text::same(split::trim(s).as_str(), word),
        Err(_) => false,
    }
}

/// Whether a unit is active.
pub fn unit_active(outcome: Result<&str, &str>) -> (r: bool)
    ensures
        r == says_just(outcome, "active"@),
{
    says(outcome, "active")
}

/// The command that pulls an image.
pub open spec fn podman_pull_text(image: Seq<char>) -> Seq<char> {
    "podman pull "@
        + image
}

/// The command that pulls an image.
pub fn podman_pull(image: &str) -> (r: String)
    ensures
        r@ == podman_pull_text(image@),
{
    let mut out: String = "podman pull ".to_owned();
    out.append(image);
    out
}

/// The command that starts a container.
pub open spec fn run_container_command_text(name: Seq<char>, net: Seq<char>, image: Seq<char>) -> Seq<char> {
    "podman run -d --name "@
        + name
        + " --network "@
        + net
        + " "@
        + image
        + " sleep infinity >/dev/null"@
}

/// The command that starts a container.
pub fn run_container_command(name: &str, net: &str, image: &str) -> (r: String)
    ensures
        r@ == run_container_command_text(name@, net@, image@),
{
    let mut out: String = "podman run -d --name ".to_owned();
    out.append(name);
    out.append(" --network ");
    out.append(net);
    out.append(" ");
    out.append(image);
    out.append(" sleep infinity >/dev/null");
    out
}

/// The command that shows the address of a container.
pub open spec fn inspect_command_text(net: Seq<char>, name: Seq<char>) -> Seq<char> {
    "podman inspect -f '{{(index .NetworkSettings.Networks \""@
        + net
        + "\").IPAddress}}' "@
        + name
}

/// The command that shows the address of a container.
pub fn inspect_command(net: &str, name: &str) -> (r: String)
    ensures
        r@ == inspect_command_text(net@, name@),
{
    let mut out: String = "podman inspect -f '{{(index .NetworkSettings.Networks \"".to_owned();
    out.append(net);
    out.append("\").IPAddress}}' ");
    out.append(name);
    out
}

/// What the inspection of a container on a network is asked, once it runs: nothing where it
/// could not be started.
pub fn inspect_after(run: Result<&str, &str>, net: &str, name: &str) -> (r: Option<String>)
    ensures
        match run {
            Ok(_) => r matches Some(c) && c@ == inspect_command_text(net@, name@),
            Err(_) => r is None,
        },
{
    match run {
        Ok(_) => Some(inspect_command(net, name)),
        Err(_) => None,
    }
}

/// The address of a container that was started, out of its inspection. One that could not be
/// started or inspected, or that has no address, is left out.
pub fn run_container(run: Result<&str, &str>, inspect: Result<&str, &str>) -> (r: String)
    requires
        run is Ok,
        inspect matches Ok(t) && !split::is_blank(t@),
    ensures
        inspect matches Ok(t) && r@ == split::trimmed(t@),
{
    match inspect {
        Ok(t) => split::trim(t),
        Err(_) => String::new(),
    }
}

/// The command that removes a container.
pub open spec fn rm_container_text(name: Seq<char>) -> Seq<char> {
    "podman rm -f "@
        + name
        + " 2>/dev/null || true"@
}

/// The command that removes a container.
pub fn rm_container(name: &str) -> (r: String)
    ensures
        r@ == rm_container_text(name@),
{
    let mut out: String = "podman rm -f ".to_owned();
    out.append(name);
    out.append(" 2>/dev/null || true");
    out
}

/// The command that pings from a container.
pub open spec fn podman_ping_command_text(from: Seq<char>, to_ip: Seq<char>) -> Seq<char> {
    "podman exec "@
        + from
        + " ping -c1 -W2 "@
        + to_ip
        + " >/dev/null 2>&1 && echo Y || echo N"@
}

/// The command that pings from a container.
pub fn podman_ping_command(from: &str, to_ip: &str) -> (r: String)
    ensures
        r@ == podman_ping_command_text(from@, to_ip@),
{
    let mut out: String = "podman exec ".to_owned();
    out.append(from);
    out.append(" ping -c1 -W2 ");
    out.append(to_ip);
    out.append(" >/dev/null 2>&1 && echo Y || echo N");
    out
}

/// Whether a ping from a container was answered.
pub fn podman_ping(outcome: Result<&str, &str>) -> (r: bool)
    ensures
        r == says_just(outcome, "Y"@),
{
    says(outcome, "Y")
}

/// The command that pings from a machine.
pub open spec fn ssh_ping_command_text(target_ip: Seq<char>) -> Seq<char> {
    "ping -c1 -W2 "@
        + target_ip
        + " >/dev/null 2>&1 && echo Y || echo N"@
}

/// The command that pings from a machine.
pub fn ssh_ping_command(target_ip: &str) -> (r: String)
    ensures
        r@ == ssh_ping_command_text(target_ip@),
{
    let mut out: String = "ping -c1 -W2 ".to_owned();
    out.append(target_ip);
    out.append(" >/dev/null 2>&1 && echo Y || echo N");
    out
}

/// Whether a ping from a machine was answered.
pub fn ssh_ping(outcome: Result<&str, &str>) -> (r: bool)
    ensures
        r == says_just(outcome, "Y"@),
{
    says(outcome, "Y")
}

/// Where coold keeps its token.
pub fn api_token_path() -> (r: &'static str)
    ensures
        r@ == "/etc/coolify/api-token"@,
{
    "/etc/coolify/api-token"
}

/// The command that shows the token of coold.
pub const TOKEN_COMMAND: &'static str = "cat /etc/coolify/api-token";

/// Reads the token of coold.
pub fn coold_token(stdout: &str) -> (r: String)
    ensures
        r@ == split::trimmed(stdout@),
{
    split::trim(stdout)
}

/// The command that adds a rule.
pub open spec fn coold_allow_command_text(mgmt_ip: Seq<char>, token: Seq<char>, body_json: Seq<char>) -> Seq<char> {
    "curl -fsS -XPOST -H 'Authorization: Bearer "@
        + token
        + "' -H 'Content-Type: application/json' http://"@
        + mgmt_ip
        + ":8443/api/v1/firewall/allow -d '"@
        + body_json
        + "'"@
}

/// The command that adds a rule.
pub fn coold_allow_command(mgmt_ip: &str, token: &str, body_json: &str) -> (r: String)
    ensures
        r@ == coold_allow_command_text(mgmt_ip@, token@, body_json@),
{
    let mut out: String = "curl -fsS -XPOST -H 'Authorization: Bearer ".to_owned();
    out.append(token);
    out.append("' -H 'Content-Type: application/json' http://");
    out.append(mgmt_ip);
    out.append(":8443/api/v1/firewall/allow -d '");
    out.append(body_json);
    out.append("'");
    out
}

/// The command that takes a rule back.
pub open spec fn coold_revoke_text(mgmt_ip: Seq<char>, token: Seq<char>, id: Seq<char>) -> Seq<char> {
    "curl -fsS -XDELETE -H 'Authorization: Bearer "@
        + token
        + "' http://"@
        + mgmt_ip
        + ":8443/api/v1/firewall/allow/"@
        + id
}

/// The command that takes a rule back.
pub fn coold_revoke(mgmt_ip: &str, token: &str, id: &str) -> (r: String)
    ensures
        r@ == coold_revoke_text(mgmt_ip@, token@, id@),
{
    let mut out: String = "curl -fsS -XDELETE -H 'Authorization: Bearer ".to_owned();
    out.append(token);
    out.append("' http://");
    out.append(mgmt_ip);
    out.append(":8443/api/v1/firewall/allow/");
    out.append(id);
    out
}

/// What is said of a reply without an id.
pub open spec fn no_rule_id_text(reply: Seq<char>) -> Seq<char> {
    "no id in allow response: "@
        + reply
}

/// What is said of a reply without an id.
fn no_rule_id(reply: &str) -> (r: String)
    ensures
        r@ == no_rule_id_text(reply@),
{
    let mut out: String = "no id in allow response: ".to_owned();
    out.append(reply);
    out
}

/// What is said of a reply that is no document.
pub open spec fn bad_rule_text(reply: Seq<char>, e: Seq<char>) -> Seq<char> {
    "parse allow response "@
        + text::quoted(reply)
        + ": "@
        + e
}

/// What is said of a reply that is no document.
fn bad_rule(reply: &str, e: &str) -> (r: String)
    ensures
        r@ == bad_rule_text(reply@, e@),
{
    let mut out: String = "parse allow response ".to_owned();
    out.append(text::quote(reply).as_str());
    out.append(": ");
    out.append(e);
    out
}

/// Reads the id of the rule that was added.
pub fn coold_allow(reply: &str) -> (r: Result<String, String>)
    ensures
        match json::json_error_text(split::trimmed(reply@)) {
            Some(t) => r matches Err(e) && e@ == bad_rule_text(reply@, t),
            None => match (json::text_at(split::trimmed(reply@), "/id"@), r) {
                (Some(id), Ok(x)) => x@ == id,
                (None, Err(e)) => e@ == no_rule_id_text(reply@),
                _ => false,
            },
        },
{
    let document: String = split::trim(reply);
    if let Some(e) = json::json_error(document.as_str()) {
        return Err(bad_rule(reply, e.as_str()));
    }
    match json::read_text(document.as_str(), "/id") {
        Some(id) => Ok(id),
        None => Err(no_rule_id(reply)),
    }
}

/// A request as a command.
pub open spec fn http_line_text(method: Seq<char>, body: Seq<char>, url: Seq<char>) -> Seq<char> {
    "curl -sS -X "@
        + method
        + body
        + " -w '\\n__CODE__%{http_code}__' "@
        + url
}

/// A request as a command.
fn http_line(method: &str, body: &str, url: &str) -> (r: String)
    ensures
        r@ == http_line_text(method@, body@, url@),
{
    let mut out: String = "curl -sS -X ".to_owned();
    out.append(method);
    out.append(body);
    out.append(" -w '\\n__CODE__%{http_code}__' ");
    out.append(url);
    out
}

/// The body of a request as arguments.
pub open spec fn http_body_text(body: Seq<char>) -> Seq<char> {
    " -H 'Content-Type: application/json' --data '"@
        + body
        + "'"@
}

/// The body of a request as arguments.
fn http_body(body: &str) -> (r: String)
    ensures
        r@ == http_body_text(body@),
{
    let mut out: String = " -H 'Content-Type: application/json' --data '".to_owned();
    out.append(body);
    out.append("'");
    out
}

/// An optional body by its characters.
pub open spec fn body_view(b: Option<&str>) -> Option<Seq<char>> {
    match b {
        Some(s) => Some(s@),
        None => None,
    }
}

/// A request as a command.
pub open spec fn http_text(method: Seq<char>, url: Seq<char>, body: Option<Seq<char>>) -> Seq<char> {
    http_line_text(
        method,
        match body {
            Some(b) => http_body_text(b),
            None => ""@,
        },
        url,
    )
}

/// The command that makes a request, and shows its status after the body.
pub fn ssh_http_command(method: &str, url: &str, json_body: Option<&str>) -> (r: String)
    ensures
        r@ == http_text(method@, url@, body_view(json_body)),
{
    match json_body {
        Some(b) => http_line(method, http_body(b).as_str(), url),
        None => http_line(method, "", url),
    }
}

/// What is said of a reply without a status.
pub open spec fn no_code_text(shown: Seq<char>) -> Seq<char> {
    "missing __CODE__ marker in curl output: "@
        + text::quoted(shown)
}

/// What is said of a reply without a status.
fn no_code(shown: &str) -> (r: String)
    ensures
        r@ == no_code_text(shown@),
{
    let mut out: String = "missing __CODE__ marker in curl output: ".to_owned();
    out.append(text::quote(shown).as_str());
    out
}

/// What is said of a status that is no number.
pub open spec fn bad_code_text(part: Seq<char>, e: Seq<char>) -> Seq<char> {
    "parse http code "@
        + text::quoted(part)
        + ": "@
        + e
}

/// What is said of a status that is no number.
fn bad_code(part: &str, e: &str) -> (r: String)
    ensures
        r@ == bad_code_text(part@, e@),
{
    let mut out: String = "parse http code ".to_owned();
    out.append(text::quote(part).as_str());
    out.append(": ");
    out.append(e);
    out
}

/// The status and the body of a reply, or what is wrong with it.
pub open spec fn reply_of(out: Seq<char>) -> Result<(u16, Seq<char>), Seq<char>> {
    match text::rsplit_at_text(out, "__CODE__"@) {
        None => Err(no_code_text(out)),
        Some((body, part)) => {
            let digits = split::trimmed(split::without_trailing(part, '_'));
            match number::parsed(digits, 65535) {
                Some(code) => Ok((code as u16, split::trim_end(body))),
                None => Err(bad_code_text(part, number::u16_error_text(digits))),
            }
        },
    }
}

/// Reads the status and the body of a reply.
pub fn ssh_http(out: &str) -> (r: Result<(u16, String), String>)
    ensures
        match (r, reply_of(out@)) {
            (Ok((code, body)), Ok((c, b))) => code == c && body@ == b,
            (Err(e), Err(t)) => e@ == t,
            _ => false,
        },
{
    match text::rsplit_once_text(out, "__CODE__") {
        None => Err(no_code(out)),
        Some((body, part)) => {
            let digits: String = split::trim(split::trim_end_char(part.as_str(), '_').as_str());
            match number::parse_bounded(digits.as_str(), 65535) {
                Some(code) => Ok((code as u16, split::trim_right(body.as_str()))),
                None => Err(
                    bad_code(part.as_str(), number::u16_error(digits.as_str()).as_str()),
                ),
            }
        },
    }
}

/// An exit status in words: a number, or none where a signal ended the command.
pub open spec fn exit_text(code: Option<i32>) -> Seq<char> {
    match code {
        Some(c) => "Some("@ + number::signed_decimal(c as int) + ")"@,
        None => "None"@,
    }
}

fn show_exit(code: Option<i32>) -> (r: String)
    ensures
        r@ == exit_text(code),
{
    match code {
        Some(c) => {
            let mut out: String = "Some(".to_owned();
            out.append(number::signed_decimal_of(c as i64).as_str());
            out.append(")");
            out
        },
        None => "None".to_owned(),
    }
}

/// What is said of a command that failed.
pub open spec fn ssh_failed_text(host: Seq<char>, code: Seq<char>, stderr: Seq<char>) -> Seq<char> {
    "ssh "@
        + host
        + " exit "@
        + code
        + ": "@
        + stderr
}

/// What is said of a command that failed.
fn ssh_failed(host: &str, code: &str, stderr: &str) -> (r: String)
    ensures
        r@ == ssh_failed_text(host@, code@, stderr@),
{
    let mut out: String = "ssh ".to_owned();
    out.append(host);
    out.append(" exit ");
    out.append(code);
    out.append(": ");
    out.append(stderr);
    out
}

/// What is said of a copy that failed.
pub open spec fn scp_failed_text(local: Seq<char>, host: Seq<char>, remote: Seq<char>, code: Seq<char>, stderr: Seq<char>) -> Seq<char> {
    "scp "@
        + local
        + " -> "@
        + host
        + ":"@
        + remote
        + " exit "@
        + code
        + ": "@
        + stderr
}

/// What is said of a copy that failed.
fn scp_failed(local: &str, host: &str, remote: &str, code: &str, stderr: &str) -> (r: String)
    ensures
        r@ == scp_failed_text(local@, host@, remote@, code@, stderr@),
{
    let mut out: String = "scp ".to_owned();
    out.append(local);
    out.append(" -> ");
    out.append(host);
    out.append(":");
    out.append(remote);
    out.append(" exit ");
    out.append(code);
    out.append(": ");
    out.append(stderr);
    out
}

/// What came of a command on a machine.
pub fn ssh(host: &str, success: bool, code: Option<i32>, stdout: String, stderr: &str) -> (r:
    Result<String, String>)
    ensures
        match r {
            Ok(out) => success && out == stdout,
            Err(e) => !success && e@ == ssh_failed_text(
                host@,
                exit_text(code),
                split::trimmed(stderr@),
            ),
        },
{
    if success {
        Ok(stdout)
    } else {
        Err(ssh_failed(host, show_exit(code).as_str(), split::trim(stderr).as_str()))
    }
}

/// What came of a copy to a machine.
pub fn scp_upload(
    local: &str,
    host: &str,
    remote: &str,
    success: bool,
    code: Option<i32>,
    stderr: &str,
) -> (r: Result<(), String>)
    ensures
        match r {
            Ok(_) => success,
            Err(e) => !success && e@ == scp_failed_text(
                local@,
                host@,
                remote@,
                exit_text(code),
                split::trimmed(stderr@),
            ),
        },
{
    if success {
        Ok(())
    } else {
        Err(
            scp_failed(
                local,
                host,
                remote,
                show_exit(code).as_str(),
                split::trim(stderr).as_str(),
            ),
        )
    }
}

} // verus!
