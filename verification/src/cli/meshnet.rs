//! Names and ranges of the mesh networks.

use vstd::prelude::*;
use vstd::string::StringExecFns;
use crate::cli::ssh;
use crate::text;

verus! {

pub const DEFAULT_NAMESPACE: &'static str = "default";

/// The namespaces of a mesh, and where their subnets come from.
#[derive(Clone, Debug)]
pub struct MeshNetMultiFlags {
    pub namespaces: Vec<String>,
    pub container_pool: String,
    pub container_prefix: u8,
}

/// One namespace.
#[derive(Clone, Debug)]
pub struct MeshNetSingleFlags {
    pub namespace: String,
}

/// The Podman network of a namespace.
pub open spec fn podman_network_for_text(namespace: Seq<char>) -> Seq<char> {
    "coolify-"@
        + namespace
        + "-mesh"@
}

/// The Podman network of a namespace.
pub fn podman_network_for(namespace: &str) -> (r: String)
    ensures
        r@ == podman_network_for_text(namespace@),
{
    let mut out: String = "coolify-".to_owned();
    out.append(namespace);
    out.append("-mesh");
    out
}

/// A small letter or a digit.
pub open spec fn small_alnum(c: char) -> bool {
    'a' <= c <= 'z' || '0' <= c <= '9'
}

/// A letter or a digit.
pub open spec fn alnum(c: char) -> bool {
    small_alnum(c) || 'A' <= c <= 'Z'
}

/// A character of an interface or version name.
pub open spec fn name_char(c: char) -> bool {
    alnum(c) || c == '.' || c == '_' || c == '-'
}

/// Whether `s` is a DNS label: small letters, digits and hyphens, no hyphen at either end.
pub open spec fn dns_label(s: Seq<char>) -> bool {
    &&& 1 <= s.len() <= 63
    &&& small_alnum(s[0])
    &&& small_alnum(s.last())
    &&& forall|i: int| 0 <= i < s.len() ==> small_alnum(#[trigger] s[i]) || s[i] == '-'
}

/// Whether `s` is a plain name of at most `max` characters that starts with a letter or digit.
pub open spec fn plain_name(s: Seq<char>, max: nat) -> bool {
    &&& 1 <= s.len() <= max
    &&& alnum(s[0])
    &&& forall|i: int| 0 <= i < s.len() ==> name_char(#[trigger] s[i])
}

fn is_small_alnum(c: char) -> (r: bool)
    ensures
        r == small_alnum(c),
{
    ('a' <= c && c <= 'z') || ('0' <= c && c <= '9')
}

fn is_dns_label(s: &str) -> (r: bool)
    ensures
        r == dns_label(s@),
{
    let v: Vec<char> = text::to_chars(s);
    let n: usize = v.len();
    if n < 1 || n > 63 || !is_small_alnum(v[0]) || !is_small_alnum(v[n - 1]) {
        return false;
    }
    let mut i: usize = 0;
    while i < n
        invariant
            i <= n == v@.len(),
            v@ == s@,
            forall|j: int| 0 <= j < i ==> small_alnum(#[trigger] v@[j]) || v@[j] == '-',
        decreases n - i,
    {
        if !is_small_alnum(v[i]) && v[i] != '-' {
            return false;
        }
        i = i + 1;
    }
    true
}

fn is_plain_name(s: &str, max: usize) -> (r: bool)
    ensures
        r == plain_name(s@, max as nat),
{
    let v: Vec<char> = text::to_chars(s);
    let n: usize = v.len();
    if n < 1 || n > max || !(is_small_alnum(v[0]) || ('A' <= v[0] && v[0] <= 'Z')) {
        return false;
    }
    let mut i: usize = 0;
    while i < n
        invariant
            i <= n == v@.len(),
            v@ == s@,
            forall|j: int| 0 <= j < i ==> name_char(#[trigger] v@[j]),
        decreases n - i,
    {
        let c: char = v[i];
        if !(is_small_alnum(c) || ('A' <= c && c <= 'Z') || c == '.' || c == '_' || c == '-') {
            return false;
        }
        i = i + 1;
    }
    true
}

/// The refusal of one of several namespaces.
pub open spec fn invalid_namespace_text(ns: Seq<char>) -> Seq<char> {
    "invalid namespace "@
        + text::quoted(ns)
        + " (must be a DNS label: lowercase alphanumerics + '-', 1-63 chars)"@
}

/// The refusal of one of several namespaces.
fn invalid_namespace(ns: &str) -> (r: String)
    ensures
        r@ == invalid_namespace_text(ns@),
{
    let mut out: String = "invalid namespace ".to_owned();
    out.append(text::quote(ns).as_str());
    out.append(" (must be a DNS label: lowercase alphanumerics + '-', 1-63 chars)");
    out
}

/// The refusal of a namespace that is named twice.
pub open spec fn repeated_namespace_text(ns: Seq<char>) -> Seq<char> {
    "duplicate namespace "@
        + text::quoted(ns)
        + " in --namespaces"@
}

/// The refusal of a namespace that is named twice.
fn repeated_namespace(ns: &str) -> (r: String)
    ensures
        r@ == repeated_namespace_text(ns@),
{
    let mut out: String = "duplicate namespace ".to_owned();
    out.append(text::quote(ns).as_str());
    out.append(" in --namespaces");
    out
}

/// The refusal of a namespace.
pub open spec fn invalid_single_text(ns: Seq<char>) -> Seq<char> {
    "invalid --namespace "@
        + text::quoted(ns)
        + " (must be a DNS label: lowercase alphanumerics + '-', 1-63 chars)"@
}

/// The refusal of a namespace.
fn invalid_single(ns: &str) -> (r: String)
    ensures
        r@ == invalid_single_text(ns@),
{
    let mut out: String = "invalid --namespace ".to_owned();
    out.append(text::quote(ns).as_str());
    out.append(" (must be a DNS label: lowercase alphanumerics + '-', 1-63 chars)");
    out
}

/// The refusal of an interface name.
pub open spec fn invalid_interface_text(iface: Seq<char>) -> Seq<char> {
    "invalid --wg-interface "@
        + text::quoted(iface)
        + " (must be 1-15 chars: alphanumerics, '-', '_', '.', leading alphanumeric)"@
}

/// The refusal of an interface name.
fn invalid_interface(iface: &str) -> (r: String)
    ensures
        r@ == invalid_interface_text(iface@),
{
    let mut out: String = "invalid --wg-interface ".to_owned();
    out.append(text::quote(iface).as_str());
    out.append(" (must be 1-15 chars: alphanumerics, '-', '_', '.', leading alphanumeric)");
    out
}

/// The refusal of a version.
pub open spec fn invalid_version_text(label: Seq<char>, version: Seq<char>) -> Seq<char> {
    "invalid "@
        + label
        + " "@
        + text::quoted(version)
        + " (must be 1-64 chars: alphanumerics, '.', '_', '-', leading alphanumeric)"@
}

/// The refusal of a version.
fn invalid_version(label: &str, version: &str) -> (r: String)
    ensures
        r@ == invalid_version_text(label@, version@),
{
    let mut out: String = "invalid ".to_owned();
    out.append(label);
    out.append(" ");
    out.append(text::quote(version).as_str());
    out.append(" (must be 1-64 chars: alphanumerics, '.', '_', '-', leading alphanumeric)");
    out
}

/// What is wrong with the first of `nss[i..]` that is no label or stands earlier too.
pub open spec fn first_bad(nss: Seq<Seq<char>>, i: int) -> Option<Seq<char>>
    decreases nss.len() - i,
{
    if i < 0 || i >= nss.len() {
        None
    } else if !dns_label(nss[i]) {
        Some(invalid_namespace_text(nss[i]))
    } else if nss.take(i).contains(nss[i]) {
        Some(repeated_namespace_text(nss[i]))
    } else {
        first_bad(nss, i + 1)
    }
}

/// What is wrong with the namespaces.
pub open spec fn namespaces_error(nss: Seq<Seq<char>>) -> Option<Seq<char>> {
    if nss.len() == 0 {
        Some("--namespaces must list at least one namespace"@)
    } else {
        first_bad(nss, 0)
    }
}

/// Checks that the namespaces are labels, and none named twice.
pub fn validate_namespaces(namespaces: &Vec<String>) -> (r: Result<(), String>)
    ensures
        ssh::says(r, namespaces_error(text::views(namespaces@))),
{
    let ghost nss = text::views(namespaces@);
    if namespaces.len() == 0 {
        return Err("--namespaces must list at least one namespace".to_owned());
    }
    let mut i: usize = 0;
    while i < namespaces.len()
        invariant
            i <= namespaces@.len(),
            namespaces@.len() > 0,
            nss == text::views(namespaces@),
            first_bad(nss, i as int) == first_bad(nss, 0),
        decreases namespaces@.len() - i,
    {
        let ns: &str = namespaces[i].as_str();
        proof {
            assert(nss[i as int] == ns@);
        }
        if !is_dns_label(ns) {
            return Err(invalid_namespace(ns));
        }
        let mut j: usize = 0;
        while j < i
            invariant
                j <= i < namespaces@.len(),
                namespaces@.len() > 0,
                nss == text::views(namespaces@),
                ns@ == nss[i as int],
                dns_label(ns@),
                first_bad(nss, i as int) == first_bad(nss, 0),
                forall|k: int| 0 <= k < j ==> nss[k] != ns@,
            decreases i - j,
        {
            if text::same(namespaces[j].as_str(), ns) {
                proof {
                    assert(nss.take(i as int)[j as int] == ns@);
                }
                return Err(repeated_namespace(ns));
            }
            j = j + 1;
        }
        proof {
            assert forall|k: int| 0 <= k < nss.take(i as int).len() implies nss.take(i as int)[k]
                != ns@ by {
                assert(nss.take(i as int)[k] == nss[k]);
            }
        }
        i = i + 1;
    }
    Ok(())
}

/// What is wrong with a namespace.
pub open spec fn namespace_error(ns: Seq<char>) -> Option<Seq<char>> {
    if dns_label(ns) {
        None
    } else {
        Some(invalid_single_text(ns))
    }
}

pub fn validate_namespace(ns: &str) -> (r: Result<(), String>)
    ensures
        ssh::says(r, namespace_error(ns@)),
{
    if is_dns_label(ns) {
        Ok(())
    } else {
        Err(invalid_single(ns))
    }
}

/// What is wrong with an interface name.
pub open spec fn interface_error(iface: Seq<char>) -> Option<Seq<char>> {
    if plain_name(iface, 15) {
        None
    } else {
        Some(invalid_interface_text(iface))
    }
}

/// Checks a name that goes into shell commands and unit names.
pub fn validate_interface(iface: &str) -> (r: Result<(), String>)
    ensures
        ssh::says(r, interface_error(iface@)),
{
    if is_plain_name(iface, 15) {
        Ok(())
    } else {
        Err(invalid_interface(iface))
    }
}

/// What is wrong with a version.
pub open spec fn version_error(label: Seq<char>, version: Seq<char>) -> Option<Seq<char>> {
    if plain_name(version, 64) {
        None
    } else {
        Some(invalid_version_text(label, version))
    }
}

/// Checks a version that goes into shell commands and addresses.
pub fn validate_version(label: &str, version: &str) -> (r: Result<(), String>)
    ensures
        ssh::says(r, version_error(label@, version@)),
{
    if is_plain_name(version, 64) {
        Ok(())
    } else {
        Err(invalid_version(label, version))
    }
}

/// A character with a meaning of its own in a shell, a path or a unit name.
pub open spec fn special(c: char) -> bool {
    ||| c == ' ' || c == '\t' || c == '\n' || c == '\r'
    ||| c == ';' || c == '&' || c == '|' || c == '<' || c == '>'
    ||| c == '$' || c == '`' || c == '(' || c == ')' || c == '{' || c == '}'
    ||| c == '[' || c == ']' || c == '*' || c == '?' || c == '~' || c == '!' || c == '#'
    ||| c == '\'' || c == '"' || c == '\\' || c == '/' || c == '@' || c == '%' || c == '='
}

/// A validated name holds no character with a meaning of its own in a shell, a path or
/// a unit name.
pub proof fn validated_names_are_inert(s: Seq<char>, label: Seq<char>)
    requires
        namespace_error(s) is None || interface_error(s) is None || version_error(label, s) is None,
    ensures
        forall|i: int| 0 <= i < s.len() ==> !special(#[trigger] s[i]),
{
}

/// Validated namespaces are labels, and no two are equal.
pub proof fn validated_namespaces_are_distinct(nss: Seq<Seq<char>>)
    requires
        namespaces_error(nss) is None,
    ensures
        nss.len() > 0,
        forall|i: int| 0 <= i < nss.len() ==> dns_label(#[trigger] nss[i]),
        forall|i: int, j: int| 0 <= i < j < nss.len() ==> nss[i] != nss[j],
{
    first_bad_none(nss, 0);
}

proof fn first_bad_none(nss: Seq<Seq<char>>, i: int)
    requires
        0 <= i <= nss.len(),
        first_bad(nss, i) is None,
    ensures
        forall|j: int| i <= j < nss.len() ==> dns_label(#[trigger] nss[j]),
        forall|a: int, b: int| 0 <= a < b < nss.len() && i <= b ==> nss[a] != nss[b],
    decreases nss.len() - i,
{
    if i < nss.len() {
        first_bad_none(nss, i + 1);
        assert forall|a: int, b: int| 0 <= a < b < nss.len() && i <= b implies nss[a] != nss[b] by {
            if b == i {
                assert(nss.take(i)[a] == nss[a]);
            }
        }
    }
}

} // verus!
