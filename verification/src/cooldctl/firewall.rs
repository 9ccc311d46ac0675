//! The container firewall: its rules, and the requests that read and change them.

use vstd::prelude::*;
use vstd::string::StringExecFns;
use crate::cli::meshnet;
use crate::cli::meshnet::MeshNetSingleFlags;
use crate::cli::ssh as access;
use crate::cooldctl::coold;
use crate::cooldctl::output;
use crate::cooldctl::ssh;
use crate::cooldctl::ssh::SshMeshFlags;
use crate::digest;
use crate::json;
use crate::json::{Field, FieldView};
use crate::number;
use crate::split;
use crate::ssh::ServerResult;
use crate::text;

verus! {

/// The commands of `firewall`.
#[derive(Clone, Debug)]
pub enum FirewallCommand {
    Containers(ContainersCommand),
    List(ListCommand),
    Allow(AllowCommand),
    Revoke(RevokeCommand),
}

/// What every command of `firewall` takes.
#[derive(Clone, Debug)]
pub struct FirewallFlags {
    pub ssh: SshMeshFlags,
    pub mesh: MeshNetSingleFlags,
    pub wg_interface: String,
    pub coold_token: Option<String>,
    pub coold_port: u16,
}

/// List the containers of the hosts.
#[derive(Clone, Debug)]
pub struct ContainersCommand {
    pub flags: FirewallFlags,
    pub all_namespaces: bool,
}

/// List the rules of the hosts.
#[derive(Clone, Debug)]
pub struct ListCommand {
    pub flags: FirewallFlags,
    pub all_namespaces: bool,
}

/// Let one container reach another.
#[derive(Clone, Debug)]
pub struct AllowCommand {
    pub flags: FirewallFlags,
    pub from: String,
    pub to: String,
    pub proto: String,
    pub port: Option<u16>,
}

/// Take a rule back, by its id or by what it says.
#[derive(Clone, Debug)]
pub struct RevokeCommand {
    pub flags: FirewallFlags,
    pub id: Option<String>,
    pub from: Option<String>,
    pub to: Option<String>,
    pub proto: String,
    pub port: Option<u16>,
}

/// A rule that lets traffic through.
#[derive(Clone, Debug)]
pub struct AllowRule {
    pub id: String,
    pub namespace: Option<String>,
    pub src: String,
    pub dst: String,
    pub proto: String,
    pub port: Option<u16>,
}

/// What an `AllowRule` says.
#[verifier::ext_equal]
pub struct RuleView {
    pub id: Seq<char>,
    pub namespace: Option<Seq<char>>,
    pub src: Seq<char>,
    pub dst: Seq<char>,
    pub proto: Seq<char>,
    pub port: Option<u16>,
}

impl View for AllowRule {
    type V = RuleView;

    open spec fn view(&self) -> RuleView {
        RuleView {
            id: self.id@,
            namespace: text::opt_view(self.namespace),
            src: self.src@,
            dst: self.dst@,
            proto: self.proto@,
            port: self.port,
        }
    }
}

pub open spec fn rule_views(s: Seq<AllowRule>) -> Seq<RuleView> {
    Seq::new(s.len(), |i: int| s[i]@)
}

/// A container on a host.
#[derive(Clone, Debug)]
pub struct ContainerRow {
    pub server: String,
    pub namespace: String,
    pub id: String,
    pub name: String,
    pub ip: String,
    pub state: String,
}

/// What a `ContainerRow` says.
#[verifier::ext_equal]
pub struct ContainerView {
    pub server: Seq<char>,
    pub namespace: Seq<char>,
    pub id: Seq<char>,
    pub name: Seq<char>,
    pub ip: Seq<char>,
    pub state: Seq<char>,
}

impl View for ContainerRow {
    type V = ContainerView;

    open spec fn view(&self) -> ContainerView {
        ContainerView {
            server: self.server@,
            namespace: self.namespace@,
            id: self.id@,
            name: self.name@,
            ip: self.ip@,
            state: self.state@,
        }
    }
}

pub open spec fn container_views(s: Seq<ContainerRow>) -> Seq<ContainerView> {
    Seq::new(s.len(), |i: int| s[i]@)
}

pub broadcast proof fn container_views_push(s: Seq<ContainerRow>, x: ContainerRow)
    ensures
        #[trigger] container_views(s.push(x)) == container_views(s).push(x@),
{
    assert(container_views(s.push(x)) =~= container_views(s).push(x@));
}

/// What became of a change on a host.
#[derive(Clone, Debug)]
pub struct MutationOutput {
    pub server: String,
    pub id: String,
    pub status: String,
}

/// What is wrong with the flags.
pub open spec fn flags_error(f: FirewallFlags) -> Option<Seq<char>> {
    if ssh::flags_error(f.ssh) is Some {
        ssh::flags_error(f.ssh)
    } else {
        meshnet::namespace_error(f.mesh.namespace@)
    }
}

pub fn validate(flags: &FirewallFlags) -> (r: Result<(), String>)
    ensures
        access::says(r, flags_error(*flags)),
{
    flags.ssh.validate()?;
    meshnet::validate_namespace(flags.mesh.namespace.as_str())
}

/// A protocol in lower case.
pub open spec fn lower_proto(proto: Seq<char>) -> Seq<char> {
    if vstd::utf8::is_ascii_chars(proto) {
        split::lowered(proto)
    } else {
        split::lowercased(proto)
    }
}

/// What a rule says, in one text.
pub open spec fn rule_text(
    namespace: Seq<char>,
    src: Seq<char>,
    dst: Seq<char>,
    proto: Option<Seq<char>>,
    port: Option<u16>,
) -> Seq<char> {
    (if namespace.len() == 0 {
        "default"@
    } else {
        namespace
    }) + "|"@ + src + "|"@ + dst + "|"@ + (match proto {
        Some(p) => lower_proto(p),
        None => lower_proto(""@),
    }) + "|"@ + number::decimal(
        match port {
            Some(p) => p as nat,
            None => 0,
        },
    )
}

/// The id of a rule: the first twelve digits of the digest of what it says.
pub open spec fn id_of(
    namespace: Seq<char>,
    src: Seq<char>,
    dst: Seq<char>,
    proto: Option<Seq<char>>,
    port: Option<u16>,
) -> Seq<char> {
    digest::sha256_of(rule_text(namespace, src, dst, proto, port)).take(12)
}

/// An optional text by its characters.
pub open spec fn str_view(s: Option<&str>) -> Option<Seq<char>> {
    match s {
        Some(s) => Some(s@),
        None => None,
    }
}

/// The id of a rule.
pub fn rule_id(
    namespace: &str,
    src: &str,
    dst: &str,
    proto: Option<&str>,
    port: Option<u16>,
) -> (r: String)
    ensures
        r@ == id_of(namespace@, src@, dst@, str_view(proto), port),
        r@.len() == 12,
        all_hex(r@),
{
    let mut said: String = if namespace.is_empty() {
        "default".to_owned()
    } else {
        namespace.to_owned()
    };
    said.append("|");
    said.append(src);
    said.append("|");
    said.append(dst);
    said.append("|");
    let proto: &str = match proto {
        Some(p) => p,
        None => "",
    };
    said.append(split::to_lowercase(proto).as_str());
    said.append("|");
    let port: u64 = match port {
        Some(p) => p as u64,
        None => 0,
    };
    said.append(number::decimal_of(port).as_str());
    let hex: String = digest::sha256_hex(said.as_str());
    let digits: Vec<char> = text::to_chars(hex.as_str());
    let id: String = text::string_of(&digits, 0, 12);
    proof {
        assert(id@ =~= hex@.take(12));
        digest::hex_text_digits(digest::sha256(vstd::utf8::encode_utf8(said@)));
        assert forall|i: int| 0 <= i < id@.len() implies number::is_digit(#[trigger] id@[i]) || 'a'
            <= id@[i] <= 'f' by {
            assert(id@[i] == hex@[i]);
        }
    }
    id
}

/// Whether a text is a row of hexadecimal digits in lower case.
pub open spec fn all_hex(s: Seq<char>) -> bool {
    forall|i: int|
        0 <= i < s.len() ==> number::is_digit(#[trigger] s[i]) || 'a' <= s[i] <= 'f'
}

/// Rules that say the same have the same id: protocols that differ in case alone are one, no protocol is an empty one, no port is port
/// zero, and no namespace is the default one.
pub proof fn equal_rules_have_equal_ids(
    ns: Seq<char>,
    src: Seq<char>,
    dst: Seq<char>,
    p: Seq<char>,
    q: Seq<char>,
    port: Option<u16>,
)
    ensures
        lower_proto(p) == lower_proto(q) ==> id_of(ns, src, dst, Some(p), port) == id_of(
            ns,
            src,
            dst,
            Some(q),
            port,
        ),
        vstd::utf8::is_ascii_chars(p) && vstd::utf8::is_ascii_chars(q) && split::lowered(p)
            == split::lowered(q) ==> id_of(ns, src, dst, Some(p), port) == id_of(
            ns,
            src,
            dst,
            Some(q),
            port,
        ),
        forall|o: Option<Seq<char>>|
            #![trigger id_of(""@, src, dst, o, port)]
            id_of(""@, src, dst, o, port) == id_of("default"@, src, dst, o, port),
        id_of(ns, src, dst, None, port) == id_of(ns, src, dst, Some(""@), port),
        forall|o: Option<Seq<char>>|
            #![trigger id_of(ns, src, dst, o, None)]
            id_of(ns, src, dst, o, None) == id_of(ns, src, dst, o, Some(0)),
{
    reveal_strlit("");
    reveal_strlit("default");
    assert(""@.len() == 0);
    assert("default"@.len() > 0);
}

/// The command that shows the address of an interface.
pub open spec fn address_command_text(iface: Seq<char>) -> Seq<char> {
    "ip -4 -o addr show dev "@
        + iface
        + " | awk '{print $4}' | cut -d/ -f1 | head -n1"@
}

/// The command that shows the address of an interface.
pub fn address_command(iface: &str) -> (r: String)
    ensures
        r@ == address_command_text(iface@),
{
    let mut out: String = "ip -4 -o addr show dev ".to_owned();
    out.append(iface);
    out.append(" | awk '{print $4}' | cut -d/ -f1 | head -n1");
    out
}

/// The failure to find an address.
pub open spec fn no_address_text(iface: Seq<char>) -> Seq<char> {
    "could not discover IPv4 address on "@
        + iface
}

/// The failure to find an address.
fn no_address(iface: &str) -> (r: String)
    ensures
        r@ == no_address_text(iface@),
{
    let mut out: String = "could not discover IPv4 address on ".to_owned();
    out.append(iface);
    out
}

/// Reads the address of coold.
pub fn coold_ip(stdout: &str, iface: &str) -> (r: Result<String, String>)
    ensures
        match r {
            Ok(ip) => !split::is_blank(stdout@) && ip@ == split::trimmed(stdout@),
            Err(e) => split::is_blank(stdout@) && e@ == no_address_text(iface@),
        },
{
    if split::blank(stdout) {
        Err(no_address(iface))
    } else {
        Ok(split::trim(stdout))
    }
}

/// Where the token of coold comes from.
#[derive(Clone, Debug)]
pub enum TokenSource {
    /// It is known already.
    Known(String),
    /// It is in a file on the host.
    File,
}

/// Where the token comes from: the flag, then the environment, then the file on the host.
pub fn token_source(flag: &Option<String>, env: &Option<String>) -> (r: TokenSource)
    ensures
        match (*flag, *env) {
            (Some(t), _) => r matches TokenSource::Known(k) && k@ == t@,
            (None, Some(t)) => if split::is_blank(t@) {
                r is File
            } else {
                r matches TokenSource::Known(k) && k@ == t@
            },
            (None, None) => r is File,
        },
{
    if let Some(t) = flag {
        return TokenSource::Known(t.clone());
    }
    if let Some(t) = env {
        if !split::blank(t.as_str()) {
            return TokenSource::Known(t.clone());
        }
    }
    TokenSource::File
}

/// The command that shows the token of coold.
pub const TOKEN_COMMAND: &'static str = "cat /etc/coolify/api-token";

/// The failure to find a token.
pub open spec fn no_token_text(host: Seq<char>) -> Seq<char> {
    "coold token file is empty on "@
        + host
}

/// The failure to find a token.
fn no_token(host: &str) -> (r: String)
    ensures
        r@ == no_token_text(host@),
{
    let mut out: String = "coold token file is empty on ".to_owned();
    out.append(host);
    out
}

/// Reads the token of coold from what its file holds.
pub fn token(stdout: &str, host: &str) -> (r: Result<String, String>)
    ensures
        match r {
            Ok(t) => !split::is_blank(stdout@) && t@ == split::trimmed(stdout@),
            Err(e) => split::is_blank(stdout@) && e@ == no_token_text(host@),
        },
{
    if split::blank(stdout) {
        Err(no_token(host))
    } else {
        Ok(split::trim(stdout))
    }
}

/// A request as a command.
pub open spec fn curl_line_text(method: Seq<char>, token: Seq<char>, data: Seq<char>, ip: Seq<char>, port: u16, path: Seq<char>) -> Seq<char> {
    "curl -fsS -X "@
        + method
        + " -H 'Authorization: Bearer "@
        + token
        + "' -H 'Content-Type: application/json' "@
        + data
        + " 'http://"@
        + ip
        + ":"@
        + number::decimal(port as nat)
        + path
        + "'"@
}

/// A request as a command.
fn curl_line(method: &str, token: &str, data: &str, ip: &str, port: u16, path: &str) -> (r: String)
    ensures
        r@ == curl_line_text(method@, token@, data@, ip@, port, path@),
{
    let mut out: String = "curl -fsS -X ".to_owned();
    out.append(method);
    out.append(" -H 'Authorization: Bearer ");
    out.append(token);
    out.append("' -H 'Content-Type: application/json' ");
    out.append(data);
    out.append(" 'http://");
    out.append(ip);
    out.append(":");
    out.append(number::decimal_of(port as u64).as_str());
    out.append(path);
    out.append("'");
    out
}

/// The body of a request as an argument.
pub open spec fn data_argument_text(body: Seq<char>) -> Seq<char> {
    "--data '"@
        + body
        + "'"@
}

/// The body of a request as an argument.
fn data_argument(body: &str) -> (r: String)
    ensures
        r@ == data_argument_text(body@),
{
    let mut out: String = "--data '".to_owned();
    out.append(body);
    out.append("'");
    out
}

/// A request to coold as a command. A single quote in the body is closed, quoted and
/// opened again.
pub open spec fn curl_text(
    method: Seq<char>,
    token: Seq<char>,
    port: u16,
    ip: Seq<char>,
    path: Seq<char>,
    body: Option<Seq<char>>,
) -> Seq<char> {
    curl_line_text(
        method,
        token,
        match body {
            Some(b) => data_argument_text(text::replaced(b, '\'', "'\"'\"'"@)),
            None => ""@,
        },
        ip,
        port,
        path,
    )
}

pub fn build_curl_command(
    method: &str,
    token: &str,
    port: u16,
    ip: &str,
    path: &str,
    body: Option<&str>,
) -> (r: String)
    ensures
        r@ == curl_text(method@, token@, port, ip@, path@, str_view(body)),
{
    match body {
        Some(b) => curl_line(
            method,
            token,
            data_argument(text::replace(b, '\'', "'\"'\"'").as_str()).as_str(),
            ip,
            port,
            path,
        ),
        None => curl_line(method, token, "", ip, port, path),
    }
}

/// The filter for one namespace.
pub open spec fn network_filter_text(namespace: Seq<char>) -> Seq<char> {
    "--filter network=coolify-"@
        + namespace
        + "-mesh"@
}

/// The filter for one namespace.
fn network_filter(namespace: &str) -> (r: String)
    ensures
        r@ == network_filter_text(namespace@),
{
    let mut out: String = "--filter network=coolify-".to_owned();
    out.append(namespace);
    out.append("-mesh");
    out
}

/// The command that lists containers.
pub open spec fn containers_line_text(filter: Seq<char>) -> Seq<char> {
    "podman ps --format '{{.ID}}|{{.Names}}|{{.Networks}}|{{.Status}}' "@
        + filter
}

/// The command that lists containers.
fn containers_line(filter: &str) -> (r: String)
    ensures
        r@ == containers_line_text(filter@),
{
    let mut out: String = "podman ps --format '{{.ID}}|{{.Names}}|{{.Networks}}|{{.Status}}' ".to_owned();
    out.append(filter);
    out
}

/// The command that lists the containers of a namespace, or of all.
pub open spec fn containers_text(namespace: Seq<char>, all: bool) -> Seq<char> {
    containers_line_text(
        if all {
            ""@
        } else {
            network_filter_text(namespace)
        },
    )
}

pub fn containers_command(namespace: &str, all: bool) -> (r: String)
    ensures
        r@ == containers_text(namespace@, all),
{
    if all {
        containers_line("")
    } else {
        containers_line(network_filter(namespace).as_str())
    }
}

/// The namespace whose network this is.
pub open spec fn network_namespace(network: Seq<char>) -> Option<Seq<char>> {
    match text::strip_prefix_spec(network, "coolify-"@) {
        Some(rest) => text::strip_suffix_spec(rest, "-mesh"@),
        None => None,
    }
}

/// The namespace of the first of `networks[i..]` that is one of ours.
pub open spec fn first_namespace(networks: Seq<Seq<char>>, i: int) -> Option<Seq<char>>
    decreases networks.len() - i,
{
    if i < 0 || i >= networks.len() {
        None
    } else if network_namespace(networks[i]) is Some {
        network_namespace(networks[i])
    } else {
        first_namespace(networks, i + 1)
    }
}

fn find_namespace(networks: &str) -> (r: Option<String>)
    ensures
        text::opt_view(r) == first_namespace(split::pieces(networks@, ','), 0),
{
    let parts: Vec<String> = split::split(networks, ',');
    let ghost ps = split::pieces(networks@, ',');
    let mut i: usize = 0;
    while i < parts.len()
        invariant
            i <= parts@.len(),
            ps == text::views(parts@),
            ps == split::pieces(networks@, ','),
            first_namespace(ps, i as int) == first_namespace(ps, 0),
        decreases parts@.len() - i,
    {
        proof {
            assert(ps[i as int] == parts@[i as int]@);
        }
        if let Some(rest) = text::strip_prefix(parts[i].as_str(), "coolify-") {
            if let Some(ns) = text::strip_suffix(rest.as_str(), "-mesh") {
                return Some(ns);
            }
        }
        i = i + 1;
    }
    None
}

/// The container that a line tells of.
pub open spec fn container_of(line: Seq<char>, host: Seq<char>, namespace: Seq<char>, all: bool) -> Option<
    ContainerView,
> {
    let p = split::pieces(line, '|');
    if p.len() < 4 {
        None
    } else {
        Some(
            ContainerView {
                server: host,
                namespace: if all {
                    match first_namespace(split::pieces(p[2], ','), 0) {
                        Some(ns) => ns,
                        None => namespace,
                    }
                } else {
                    namespace
                },
                id: p[0],
                name: p[1],
                ip: Seq::empty(),
                state: p[3],
            },
        )
    }
}

fn parse_container(line: &str, host: &str, namespace: &str, all: bool) -> (r: Option<ContainerRow>)
    ensures
        match (r, container_of(line@, host@, namespace@, all)) {
            (Some(c), Some(v)) => c@ == v,
            (None, None) => true,
            _ => false,
        },
{
    let p: Vec<String> = split::split(line, '|');
    let ghost ps = text::views(p@);
    proof {
        assert(ps.len() == p@.len());
    }
    if p.len() < 4 {
        return None;
    }
    let ns: String = if all {
        match find_namespace(p[2].as_str()) {
            Some(ns) => ns,
            None => namespace.to_owned(),
        }
    } else {
        namespace.to_owned()
    };
    let c: ContainerRow = ContainerRow {
        server: host.to_owned(),
        namespace: ns,
        id: p[0].clone(),
        name: p[1].clone(),
        ip: String::new(),
        state: p[3].clone(),
    };
    proof {
        assert(ps[0] == p@[0]@ && ps[1] == p@[1]@ && ps[2] == p@[2]@ && ps[3] == p@[3]@);
        assert(c.ip@ =~= Seq::empty());
    }
    Some(c)
}

/// The containers that the lines tell of; a line with too few fields tells of none.
pub open spec fn containers_of(
    lines: Seq<Seq<char>>,
    host: Seq<char>,
    namespace: Seq<char>,
    all: bool,
) -> Seq<ContainerView>
    decreases lines.len(),
{
    if lines.len() == 0 {
        Seq::empty()
    } else {
        match container_of(lines.last(), host, namespace, all) {
            Some(c) => containers_of(lines.drop_last(), host, namespace, all).push(c),
            None => containers_of(lines.drop_last(), host, namespace, all),
        }
    }
}

/// Reads the containers of a host.
pub fn discover_containers(stdout: &str, host: &str, namespace: &str, all: bool) -> (r: Vec<
    ContainerRow,
>)
    ensures
        container_views(r@) == containers_of(split::lines_of(stdout@), host@, namespace@, all),
{
    broadcast use container_views_push;

    let lines: Vec<String> = split::lines(stdout);
    let ghost ls = split::lines_of(stdout@);
    let mut out: Vec<ContainerRow> = Vec::new();
    let mut i: usize = 0;
    proof {
        assert(ls.take(0) =~= Seq::empty());
        assert(container_views(out@) =~= Seq::empty());
    }
    while i < lines.len()
        invariant
            i <= lines@.len(),
            ls == text::views(lines@),
            ls == split::lines_of(stdout@),
            container_views(out@) == containers_of(ls.take(i as int), host@, namespace@, all),
        decreases lines@.len() - i,
    {
        proof {
            assert(ls.take(i + 1).drop_last() =~= ls.take(i as int));
            assert(ls.take(i + 1).last() == lines@[i as int]@);
        }
        if let Some(c) = parse_container(lines[i].as_str(), host, namespace, all) {
            out.push(c);
        }
        i = i + 1;
    }
    proof {
        assert(ls.take(i as int) =~= ls);
    }
    out
}

/// What is said of a host that failed.
pub open spec fn host_warning_text(host: Seq<char>, error: Seq<char>) -> Seq<char> {
    "warning ["@
        + host
        + "]: "@
        + error
}

/// What is said of a host that failed.
fn host_warning(host: &str, error: &str) -> (r: String)
    ensures
        r@ == host_warning_text(host@, error@),
{
    let mut out: String = "warning [".to_owned();
    out.append(host);
    out.append("]: ");
    out.append(error);
    out
}

/// What all the hosts that answered gave, in order.
pub open spec fn gathered<T>(rs: Seq<ServerResult<Vec<T>>>) -> Seq<T>
    decreases rs.len(),
{
    if rs.len() == 0 {
        Seq::empty()
    } else {
        match rs.last().result {
            Some(v) => gathered(rs.drop_last()) + v@,
            None => gathered(rs.drop_last()),
        }
    }
}

/// What is said of the hosts that did not answer.
pub open spec fn warnings<T>(rs: Seq<ServerResult<Vec<T>>>) -> Seq<Seq<char>>
    decreases rs.len(),
{
    if rs.len() == 0 {
        Seq::empty()
    } else if rs.last().result is Some {
        warnings(rs.drop_last())
    } else {
        warnings(rs.drop_last()).push(
            host_warning_text(
                rs.last().host@,
                match rs.last().error {
                    Some(e) => e@,
                    None => ""@,
                },
            ),
        )
    }
}

/// Brings together what the hosts gave, and what is said of those that failed.
pub fn gather<T>(results: Vec<ServerResult<Vec<T>>>) -> (r: (Vec<T>, Vec<String>))
    ensures
        r.0@ == gathered(results@),
        text::views(r.1@) == warnings(results@),
{
    broadcast use text::views_push;

    let ghost rs = results@;
    let mut rest: Vec<ServerResult<Vec<T>>> = results;
    let mut all: Vec<T> = Vec::new();
    let mut said: Vec<String> = Vec::new();
    let ghost mut n: int = 0;
    proof {
        assert(rs.take(0) =~= Seq::empty());
        assert(rs.skip(0) =~= rs);
        assert(text::views(said@) =~= Seq::empty());
    }
    while rest.len() > 0
        invariant
            0 <= n <= rs.len(),
            rest@ == rs.skip(n),
            all@ == gathered(rs.take(n)),
            text::views(said@) == warnings(rs.take(n)),
        decreases rest@.len(),
    {
        let r: ServerResult<Vec<T>> = rest.remove(0);
        proof {
            assert(rs.take(n + 1).drop_last() =~= rs.take(n));
            assert(rs.take(n + 1).last() == r);
            assert(rest@ =~= rs.skip(n + 1));
        }
        let ServerResult { host, result, error } = r;
        match result {
            Some(v) => {
                let mut more: Vec<T> = v;
                all.append(&mut more);
            },
            None => {
                let w: String = match error {
                    Some(e) => host_warning(host.as_str(), e.as_str()),
                    None => host_warning(host.as_str(), ""),
                };
                said.push(w);
            },
        }
        proof {
            n = n + 1;
        }
    }
    proof {
        assert(rs.take(n) =~= rs);
    }
    (all, said)
}

/// The rows of the containers.
pub open spec fn container_rows_cells(v: Seq<ContainerView>) -> Seq<Seq<Seq<char>>> {
    Seq::new(v.len(), |i: int| seq![v[i].server, v[i].namespace, v[i].id, v[i].name, v[i].ip, v[i].state])
}

/// The rows of the containers.
fn container_rows(v: &Vec<ContainerRow>) -> (r: Vec<Vec<String>>)
    ensures
        output::row_views(r@) == container_rows_cells(container_views(v@)),
{
    broadcast use text::views_push;

    let ghost vs = container_views(v@);
    let mut out: Vec<Vec<String>> = Vec::new();
    let mut i: usize = 0;
    while i < v.len()
        invariant
            i <= v@.len(),
            vs == container_views(v@),
            out@.len() == i,
            forall|j: int| 0 <= j < i ==> text::views((#[trigger] out@[j])@) == container_rows_cells(vs)[j],
        decreases v@.len() - i,
    {
        let mut row: Vec<String> = Vec::new();
        proof {
            assert(text::views(row@) =~= Seq::empty());
            assert(vs[i as int] == v@[i as int]@);
        }
        row.push(v[i].server.clone());
        row.push(v[i].namespace.clone());
        row.push(v[i].id.clone());
        row.push(v[i].name.clone());
        row.push(v[i].ip.clone());
        row.push(v[i].state.clone());
        proof {
            assert(text::views(row@) =~= container_rows_cells(vs)[i as int]);
        }
        out.push(row);
        i = i + 1;
    }
    proof {
        assert(output::row_views(out@) =~= container_rows_cells(vs));
    }
    out
}

/// The table of the containers.
pub fn containers(rows: &Vec<ContainerRow>) -> (r: String)
    ensures
        r@ == output::table_text(seq!["SERVER"@, "NS"@, "ID"@, "NAME"@, "IP"@, "STATE"@], container_rows_cells(container_views(rows@))),
{
    broadcast use text::views_push;

    let mut headers: Vec<String> = Vec::new();
    proof {
        assert(text::views(headers@) =~= Seq::empty());
    }
    headers.push("SERVER".to_owned());
    headers.push("NS".to_owned());
    headers.push("ID".to_owned());
    headers.push("NAME".to_owned());
    headers.push("IP".to_owned());
    headers.push("STATE".to_owned());
    proof {
        assert(text::views(headers@) =~= seq!["SERVER"@, "NS"@, "ID"@, "NAME"@, "IP"@, "STATE"@]);
    }
    output::table(&headers, &container_rows(rows))
}

/// Where the rules are listed.
pub const ALLOW_PATH: &'static str = "/api/v1/firewall/allow";

/// Where the rules of a namespace are listed.
pub open spec fn namespaced_path_text(namespace: Seq<char>) -> Seq<char> {
    "/api/v1/firewall/allow?namespace="@
        + namespace
}

/// Where the rules of a namespace are listed.
fn namespaced_path(namespace: &str) -> (r: String)
    ensures
        r@ == namespaced_path_text(namespace@),
{
    let mut out: String = "/api/v1/firewall/allow?namespace=".to_owned();
    out.append(namespace);
    out
}

/// Where the rules of a namespace, or of all, are listed.
pub fn list_path(namespace: &str, all: bool) -> (r: String)
    ensures
        r@ == (if all {
            ALLOW_PATH@
        } else {
            namespaced_path_text(namespace@)
        }),
{
    if all {
        ALLOW_PATH.to_owned()
    } else {
        namespaced_path(namespace)
    }
}

/// A rule, in the given namespace where it names none.
pub open spec fn placed(rule: RuleView, namespace: Seq<char>) -> RuleView {
    RuleView {
        namespace: match rule.namespace {
            Some(ns) => Some(ns),
            None => Some(namespace),
        },
        ..rule
    }
}

/// Puts the rules that name no namespace into the given one.
pub fn place_rules(rules: &Vec<AllowRule>, namespace: &str) -> (r: Vec<AllowRule>)
    ensures
        r@.len() == rules@.len(),
        forall|i: int| 0 <= i < r@.len() ==> (#[trigger] r@[i])@ == placed(rules@[i]@, namespace@),
{
    let mut out: Vec<AllowRule> = Vec::new();
    let mut i: usize = 0;
    while i < rules.len()
        invariant
            i <= rules@.len(),
            out@.len() == i,
            forall|j: int| 0 <= j < i ==> (#[trigger] out@[j])@ == placed(
                rules@[j]@,
                namespace@,
            ),
        decreases rules@.len() - i,
    {
        let rule: &AllowRule = &rules[i];
        let ns: String = match &rule.namespace {
            Some(ns) => ns.clone(),
            None => namespace.to_owned(),
        };
        let next: AllowRule = AllowRule {
            id: rule.id.clone(),
            namespace: Some(ns),
            src: rule.src.clone(),
            dst: rule.dst.clone(),
            proto: rule.proto.clone(),
            port: rule.port,
        };
        proof {
            assert(next@ =~= placed(rules@[i as int]@, namespace@));
        }
        out.push(next);
        i = i + 1;
    }
    out
}

/// A port in decimal, or nothing.
pub open spec fn port_text(port: Option<u16>) -> Seq<char> {
    match port {
        Some(p) => number::decimal(p as nat),
        None => ""@,
    }
}

fn show_port(port: Option<u16>) -> (r: String)
    ensures
        r@ == port_text(port),
{
    match port {
        Some(p) => number::decimal_of(p as u64),
        None => "".to_owned(),
    }
}

/// A namespace, or nothing.
pub open spec fn shown_namespace(ns: Option<Seq<char>>) -> Seq<char> {
    match ns {
        Some(ns) => ns,
        None => ""@,
    }
}

fn show_namespace(ns: &Option<String>) -> (r: String)
    ensures
        r@ == shown_namespace(text::opt_view(*ns)),
{
    match ns {
        Some(ns) => ns.clone(),
        None => "".to_owned(),
    }
}

/// The rows of the rules.
pub open spec fn rule_rows_cells(v: Seq<RuleView>) -> Seq<Seq<Seq<char>>> {
    Seq::new(v.len(), |i: int| seq![v[i].id, shown_namespace(v[i].namespace), v[i].src, v[i].dst, v[i].proto, port_text(v[i].port)])
}

/// The rows of the rules.
fn rule_rows(v: &Vec<AllowRule>) -> (r: Vec<Vec<String>>)
    ensures
        output::row_views(r@) == rule_rows_cells(rule_views(v@)),
{
    broadcast use text::views_push;

    let ghost vs = rule_views(v@);
    let mut out: Vec<Vec<String>> = Vec::new();
    let mut i: usize = 0;
    while i < v.len()
        invariant
            i <= v@.len(),
            vs == rule_views(v@),
            out@.len() == i,
            forall|j: int| 0 <= j < i ==> text::views((#[trigger] out@[j])@) == rule_rows_cells(vs)[j],
        decreases v@.len() - i,
    {
        let mut row: Vec<String> = Vec::new();
        proof {
            assert(text::views(row@) =~= Seq::empty());
            assert(vs[i as int] == v@[i as int]@);
        }
        row.push(v[i].id.clone());
        row.push(show_namespace(&v[i].namespace));
        row.push(v[i].src.clone());
        row.push(v[i].dst.clone());
        row.push(v[i].proto.clone());
        row.push(show_port(v[i].port));
        proof {
            assert(text::views(row@) =~= rule_rows_cells(vs)[i as int]);
        }
        out.push(row);
        i = i + 1;
    }
    proof {
        assert(output::row_views(out@) =~= rule_rows_cells(vs));
    }
    out
}

/// The table of the rules.
pub fn list(rows: &Vec<AllowRule>) -> (r: String)
    ensures
        r@ == output::table_text(seq!["ID"@, "NS"@, "SRC"@, "DST"@, "PROTO"@, "PORT"@], rule_rows_cells(rule_views(rows@))),
{
    broadcast use text::views_push;

    let mut headers: Vec<String> = Vec::new();
    proof {
        assert(text::views(headers@) =~= Seq::empty());
    }
    headers.push("ID".to_owned());
    headers.push("NS".to_owned());
    headers.push("SRC".to_owned());
    headers.push("DST".to_owned());
    headers.push("PROTO".to_owned());
    headers.push("PORT".to_owned());
    proof {
        assert(text::views(headers@) =~= seq!["ID"@, "NS"@, "SRC"@, "DST"@, "PROTO"@, "PORT"@]);
    }
    output::table(&headers, &rule_rows(rows))
}

/// The protocol of a rule: it counts only where there is a port.
pub open spec fn proto_of(proto: Seq<char>, port: Option<u16>) -> Option<Seq<char>> {
    if port is Some {
        Some(proto)
    } else {
        None
    }
}

/// What a request for a rule says.
pub open spec fn allow_fields(c: AllowCommand) -> Seq<(Seq<char>, FieldView)> {
    let ns = c.flags.mesh.namespace@;
    let base = seq![
        (
            "id"@,
            FieldView::Text(id_of(ns, c.from@, c.to@, proto_of(c.proto@, c.port), c.port)),
        ),
        ("namespace"@, FieldView::Text(ns)),
        ("src"@, FieldView::Text(c.from@)),
        ("dst"@, FieldView::Text(c.to@)),
    ];
    match c.port {
        Some(p) => base.push(("proto"@, FieldView::Text(c.proto@))).push(
            ("port"@, FieldView::Number(p as i64)),
        ),
        None => base,
    }
}

/// The body of the request for a rule.
pub fn allow(c: &AllowCommand) -> (r: Result<String, String>)
    ensures
        match (r, flags_error(c.flags)) {
            (Err(e), Some(t)) => e@ == t,
            (Ok(body), None) => body@ == json::object_text(allow_fields(*c)),
            _ => false,
        },
{
    broadcast use json::field_views_push;

    validate(&c.flags)?;
    let proto: Option<&str> = if c.port.is_some() {
        Some(c.proto.as_str())
    } else {
        None
    };
    let ns: &str = c.flags.mesh.namespace.as_str();
    let id: String = rule_id(ns, c.from.as_str(), c.to.as_str(), proto, c.port);
    let mut fields: Vec<(String, Field)> = Vec::new();
    proof {
        assert(json::field_views(fields@) =~= Seq::empty());
    }
    fields.push(json::text_field("id", id.as_str()));
    fields.push(json::text_field("namespace", ns));
    fields.push(json::text_field("src", c.from.as_str()));
    fields.push(json::text_field("dst", c.to.as_str()));
    if let Some(p) = c.port {
        fields.push(json::text_field("proto", c.proto.as_str()));
        fields.push(json::number_field("port", p as i64));
    }
    proof {
        assert(json::field_views(fields@) =~= allow_fields(*c));
    }
    Ok(json::render_object(&fields))
}

/// Where a rule stands.
pub open spec fn rule_path_text(id: Seq<char>) -> Seq<char> {
    "/api/v1/firewall/allow/"@
        + id
}

/// Where a rule stands.
fn rule_path(id: &str) -> (r: String)
    ensures
        r@ == rule_path_text(id@),
{
    let mut out: String = "/api/v1/firewall/allow/".to_owned();
    out.append(id);
    out
}

/// The id of the rule to take back, or what is missing.
pub open spec fn revoked_id(c: RevokeCommand) -> Result<Seq<char>, Seq<char>> {
    match (c.id, c.from, c.to) {
        (Some(id), _, _) => Ok(id@),
        (None, None, _) => Err("--from required when --id is omitted"@),
        (None, Some(_), None) => Err("--to required when --id is omitted"@),
        (None, Some(from), Some(to)) => Ok(
            id_of(c.flags.mesh.namespace@, from@, to@, proto_of(c.proto@, c.port), c.port),
        ),
    }
}

/// Taking a rule back by what it says names the rule that letting it through made, whatever
/// the case in which the protocol was written.
pub proof fn revoking_names_the_allowed_rule(a: AllowCommand, c: RevokeCommand)
    requires
        c.id is None,
        c.from is Some && c.from->Some_0@ == a.from@,
        c.to is Some && c.to->Some_0@ == a.to@,
        c.flags.mesh.namespace@ == a.flags.mesh.namespace@,
        lower_proto(c.proto@) == lower_proto(a.proto@),
        c.port == a.port,
    ensures
        revoked_id(c) matches Ok(id) && allow_fields(a)[0] == ("id"@, FieldView::Text(id)),
{
    equal_rules_have_equal_ids(
        a.flags.mesh.namespace@,
        a.from@,
        a.to@,
        c.proto@,
        a.proto@,
        a.port,
    );
}

/// Where the rule to take back stands.
pub fn revoke(c: &RevokeCommand) -> (r: Result<String, String>)
    ensures
        match (r, flags_error(c.flags), revoked_id(*c)) {
            (Err(e), Some(t), _) => e@ == t,
            (Err(e), None, Err(t)) => e@ == t,
            (Ok(path), None, Ok(id)) => path@ == rule_path_text(id),
            _ => false,
        },
{
    validate(&c.flags)?;
    if let Some(id) = &c.id {
        return Ok(rule_path(id.as_str()));
    }
    match (&c.from, &c.to) {
        (None, _) => Err("--from required when --id is omitted".to_owned()),
        (Some(_), None) => Err("--to required when --id is omitted".to_owned()),
        (Some(from), Some(to)) => {
            let proto: Option<&str> = if c.port.is_some() {
                Some(c.proto.as_str())
            } else {
                None
            };
            let id: String = rule_id(
                c.flags.mesh.namespace.as_str(),
                from.as_str(),
                to.as_str(),
                proto,
                c.port,
            );
            Ok(rule_path(id.as_str()))
        },
    }
}

/// What follows the last slash.
pub open spec fn last_part(path: Seq<char>) -> Seq<char> {
    match text::rsplit_once_spec(path, '/') {
        Some((_, tail)) => tail,
        None => path,
    }
}

/// The status of a change that failed.
pub open spec fn mutation_error_text(error: Seq<char>) -> Seq<char> {
    "error: "@
        + error
}

/// The status of a change that failed.
fn mutation_error(error: &str) -> (r: String)
    ensures
        r@ == mutation_error_text(error@),
{
    let mut out: String = "error: ".to_owned();
    out.append(error);
    out
}

/// What became of a change on a host.
pub fn mutate(host: String, path: &str, outcome: Result<(), String>) -> (r: MutationOutput)
    ensures
        r.server == host,
        match outcome {
            Ok(_) => r.id@ == last_part(path@) && r.status@ == "ok"@,
            Err(e) => r.id@ == ""@ && r.status@ == mutation_error_text(e@),
        },
{
    match outcome {
        Ok(_) => {
            let id: String = match text::rsplit_once(path, '/') {
                Some((_, tail)) => tail,
                None => path.to_owned(),
            };
            MutationOutput { server: host, id, status: "ok".to_owned() }
        },
        Err(e) => MutationOutput {
            server: host,
            id: "".to_owned(),
            status: mutation_error(e.as_str()),
        },
    }
}

/// The rows of the changes.
pub open spec fn mutation_rows_cells(v: Seq<MutationOutput>) -> Seq<Seq<Seq<char>>> {
    Seq::new(v.len(), |i: int| seq![v[i].server@, v[i].id@, v[i].status@])
}

/// The rows of the changes.
fn mutation_rows(v: &Vec<MutationOutput>) -> (r: Vec<Vec<String>>)
    ensures
        output::row_views(r@) == mutation_rows_cells(v@),
{
    broadcast use text::views_push;

    let ghost vs = v@;
    let mut out: Vec<Vec<String>> = Vec::new();
    let mut i: usize = 0;
    while i < v.len()
        invariant
            i <= v@.len(),
            vs == v@,
            out@.len() == i,
            forall|j: int| 0 <= j < i ==> text::views((#[trigger] out@[j])@) == mutation_rows_cells(vs)[j],
        decreases v@.len() - i,
    {
        let mut row: Vec<String> = Vec::new();
        proof {
            assert(text::views(row@) =~= Seq::empty());
            assert(vs[i as int] == v@[i as int]);
        }
        row.push(v[i].server.clone());
        row.push(v[i].id.clone());
        row.push(v[i].status.clone());
        proof {
            assert(text::views(row@) =~= mutation_rows_cells(vs)[i as int]);
        }
        out.push(row);
        i = i + 1;
    }
    proof {
        assert(output::row_views(out@) =~= mutation_rows_cells(vs));
    }
    out
}

/// The table of the changes.
pub fn mutations(rows: &Vec<MutationOutput>) -> (r: String)
    ensures
        r@ == output::table_text(seq!["SERVER"@, "ID"@, "STATUS"@], mutation_rows_cells(rows@)),
{
    broadcast use text::views_push;

    let mut headers: Vec<String> = Vec::new();
    proof {
        assert(text::views(headers@) =~= Seq::empty());
    }
    headers.push("SERVER".to_owned());
    headers.push("ID".to_owned());
    headers.push("STATUS".to_owned());
    proof {
        assert(text::views(headers@) =~= seq!["SERVER"@, "ID"@, "STATUS"@]);
    }
    output::table(&headers, &mutation_rows(rows))
}

} // verus!
