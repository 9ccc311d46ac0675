//! Release artifacts are checked before they are installed.

use vstd::prelude::*;
use vstd::string::StringExecFns;

verus! {

/// An optional digest by its characters.
pub open spec fn digest_view(d: Option<&str>) -> Option<Seq<char>> {
    match d {
        Some(x) => Some(x@),
        None => None,
    }
}

/// The check against a pinned digest: a mismatch aborts the installation.
pub open spec fn pinned_text(tarball: Seq<char>, artifact: Seq<char>, digest: Seq<char>) -> Seq<char> {
    "printf '%s  %s\\n' '"@
        + digest
        + "' \""@
        + tarball
        + "\" | sha256sum -c - >/dev/null 2>&1 || { echo \""@
        + artifact
        + ": sha256 mismatch (expected pinned "@
        + digest
        + ")\" >&2; exit 1; }"@
}

/// The check against a pinned digest: a mismatch aborts the installation.
fn pinned(tarball: &str, artifact: &str, digest: &str) -> (r: String)
    ensures
        r@ == pinned_text(tarball@, artifact@, digest@),
{
    let mut out: String = "printf '%s  %s\\n' '".to_owned();
    out.append(digest);
    out.append("' \"");
    out.append(tarball);
    out.append("\" | sha256sum -c - >/dev/null 2>&1 || { echo \"");
    out.append(artifact);
    out.append(": sha256 mismatch (expected pinned ");
    out.append(digest);
    out.append(")\" >&2; exit 1; }");
    out
}

/// The check against the digest that is published beside the artifact, where one is.
pub open spec fn published_text(tarball: Seq<char>, url: Seq<char>, artifact: Seq<char>) -> Seq<char> {
    "if curl -fsSL --retry 3 --max-time 60 -o \""@
        + tarball
        + ".sha256\" \""@
        + url
        + ".sha256\" 2>/dev/null; then printf '%s  %s\\n' \"$(awk '{print $1}' \""@
        + tarball
        + ".sha256\")\" \""@
        + tarball
        + "\" | sha256sum -c - >/dev/null 2>&1 || { echo \""@
        + artifact
        + ": sha256 mismatch vs published checksum\" >&2; exit 1; }; else echo \""@
        + artifact
        + ": no published sha256 to verify against; proceeding (pin one to enforce)\" >&2; fi"@
}

/// The check against the digest that is published beside the artifact, where one is.
fn published(tarball: &str, url: &str, artifact: &str) -> (r: String)
    ensures
        r@ == published_text(tarball@, url@, artifact@),
{
    let mut out: String = "if curl -fsSL --retry 3 --max-time 60 -o \"".to_owned();
    out.append(tarball);
    out.append(".sha256\" \"");
    out.append(url);
    out.append(".sha256\" 2>/dev/null; then printf '%s  %s\\n' \"$(awk '{print $1}' \"");
    out.append(tarball);
    out.append(".sha256\")\" \"");
    out.append(tarball);
    out.append("\" | sha256sum -c - >/dev/null 2>&1 || { echo \"");
    out.append(artifact);
    out.append(": sha256 mismatch vs published checksum\" >&2; exit 1; }; else echo \"");
    out.append(artifact);
    out.append(": no published sha256 to verify against; proceeding (pin one to enforce)\" >&2; fi");
    out
}

/// The shell text that checks a downloaded artifact: against the pinned digest, or
/// against the published one where there is one.
pub open spec fn snippet(
    tarball: Seq<char>,
    url: Seq<char>,
    artifact: Seq<char>,
    sha256: Option<Seq<char>>,
) -> Seq<char> {
    match sha256 {
        Some(digest) => pinned_text(tarball, artifact, digest),
        None => published_text(tarball, url, artifact),
    }
}

/// The shell text that checks a downloaded artifact.
pub fn checksum_verify_snippet(
    tarball: &str,
    url: &str,
    artifact: &str,
    sha256: Option<&str>,
) -> (r: String)
    ensures
        r@ == snippet(tarball@, url@, artifact@, digest_view(sha256)),
{
    match sha256 {
        Some(digest) => pinned(tarball, artifact, digest),
        None => published(tarball, url, artifact),
    }
}

} // verus!
