//! Running commands on hosts over SSH: arguments, outputs and what they mean.

use vstd::prelude::*;
use vstd::string::StringExecFns;
use crate::number;
use crate::split;
use crate::text;

verus! {

/// What a command printed, and its exit status.
#[derive(Clone, Debug)]
pub struct RunOutput {
    pub stdout: String,
    pub stderr: String,
    pub status: i32,
}

/// What came back from one of several hosts.
#[derive(Clone, Debug)]
pub struct ServerResult<T> {
    pub host: String,
    pub result: Option<T>,
    pub error: Option<String>,
}

/// The result of one host.
pub fn server_result<T>(host: String, outcome: Result<T, String>) -> (r: ServerResult<T>)
    ensures
        r.host == host,
        r.result == (match outcome {
            Ok(x) => Some(x),
            Err(_) => None,
        }),
        r.error == (match outcome {
            Ok(_) => None,
            Err(e) => Some(e),
        }),
{
    match outcome {
        Ok(x) => ServerResult { host, result: Some(x), error: None },
        Err(e) => ServerResult { host, result: None, error: Some(e) },
    }
}

/// The first of `lines[i..]` that is not blank, trimmed.
pub open spec fn first_of(lines: Seq<Seq<char>>, i: int) -> Option<Seq<char>>
    decreases lines.len() - i,
{
    if i < 0 || i >= lines.len() {
        None
    } else if !split::is_blank(lines[i]) {
        Some(split::trimmed(lines[i]))
    } else {
        first_of(lines, i + 1)
    }
}

/// The first line of a text that is not blank, trimmed.
pub open spec fn first_line_of(s: Seq<char>) -> Option<Seq<char>> {
    first_of(split::lines_of(s), 0)
}

pub fn first_line(s: &str) -> (r: Option<String>)
    ensures
        text::opt_view(r) == first_line_of(s@),
{
    let lines: Vec<String> = split::lines(s);
    let ghost ls = split::lines_of(s@);
    let mut i: usize = 0;
    while i < lines.len()
        invariant
            i <= lines@.len(),
            ls == text::views(lines@),
            ls == split::lines_of(s@),
            first_of(ls, i as int) == first_of(ls, 0),
        decreases lines@.len() - i,
    {
        proof {
            assert(ls[i as int] == lines@[i as int]@);
        }
        if !split::blank(lines[i].as_str()) {
            return Some(split::trim(lines[i].as_str()));
        }
        i = i + 1;
    }
    None
}

/// The failure of a command on a host.
pub open spec fn exit_error_text(host: Seq<char>, status: i32, line: Seq<char>) -> Seq<char> {
    "ssh "@
        + host
        + ": exit "@
        + number::signed_decimal(status as int)
        + ": "@
        + line
}

/// The failure of a command on a host.
fn exit_error(host: &str, status: i32, line: &str) -> (r: String)
    ensures
        r@ == exit_error_text(host@, status, line@),
{
    let mut out: String = "ssh ".to_owned();
    out.append(host);
    out.append(": exit ");
    out.append(number::signed_decimal_of(status as i64).as_str());
    out.append(": ");
    out.append(line);
    out
}

/// What tells of a failure: the first line of the error output, or of the output.
pub open spec fn failure_line(stdout: Seq<char>, stderr: Seq<char>) -> Seq<char> {
    match first_line_of(stderr) {
        Some(l) => l,
        None => match first_line_of(stdout) {
            Some(l) => l,
            None => Seq::empty(),
        },
    }
}

/// The outcome of a command that ended: its output, or what tells of its failure.
pub fn run_result(host: &str, success: bool, out: RunOutput) -> (r: Result<RunOutput, String>)
    ensures
        success ==> r == Ok::<RunOutput, String>(out),
        !success ==> (r matches Err(e) && e@ == exit_error_text(
            host@,
            out.status,
            failure_line(out.stdout@, out.stderr@),
        )),
{
    if success {
        Ok(out)
    } else {
        let line: String = match first_line(out.stderr.as_str()) {
            Some(l) => l,
            None => match first_line(out.stdout.as_str()) {
                Some(l) => l,
                None => String::new(),
            },
        };
        Err(exit_error(host, out.status, line.as_str()))
    }
}

/// The number before a unit, where the text ends in the unit.
pub open spec fn amount(s: Seq<char>, unit: Seq<char>) -> Option<nat> {
    number::parsed(s.take(s.len() - unit.len()), 0xffff_ffff_ffff_ffff)
}

/// The milliseconds that a text stands for: a number with `ms`, `s` or `m`, or of seconds.
pub open spec fn duration_millis(s: Seq<char>) -> Option<nat> {
    if text::has_suffix(s, "ms"@) {
        amount(s, "ms"@)
    } else if text::has_suffix(s, "s"@) {
        match amount(s, "s"@) {
            Some(n) => Some(n * 1000),
            None => None,
        }
    } else if text::has_suffix(s, "m"@) {
        match amount(s, "m"@) {
            Some(n) => Some(n * 60000),
            None => None,
        }
    } else {
        match number::parsed(s, 0xffff_ffff_ffff_ffff) {
            Some(n) => Some(n * 1000),
            None => None,
        }
    }
}

/// Whether a number of minutes can be counted in seconds.
pub open spec fn countable(s: Seq<char>) -> bool {
    !text::has_suffix(s, "ms"@) && !text::has_suffix(s, "s"@) && text::has_suffix(s, "m"@) ==> (
    amount(s, "m"@) matches Some(n) ==> n * 60 <= 0xffff_ffff_ffff_ffff)
}

fn amount_of(s: &str, unit: &str) -> (r: Option<u64>)
    requires
        text::has_suffix(s@, unit@),
    ensures
        match r {
            Some(n) => amount(s@, unit@) == Some(n as nat),
            None => amount(s@, unit@) is None,
        },
{
    let v: Vec<char> = text::to_chars(s);
    let u: Vec<char> = text::to_chars(unit);
    let head: String = text::string_of(&v, 0, v.len() - u.len());
    proof {
        assert(head@ =~= s@.take(s@.len() - unit@.len()));
    }
    number::parse_bounded(head.as_str(), 0xffff_ffff_ffff_ffff)
}

/// Reads a duration in milliseconds. More minutes than can be counted in seconds are
/// left out.
pub fn parse_duration(s: &str) -> (r: Option<u128>)
    requires
        countable(s@),
    ensures
        match r {
            Some(n) => duration_millis(s@) == Some(n as nat),
            None => duration_millis(s@) is None,
        },
{
    if text::ends_with(s, "ms") {
        match amount_of(s, "ms") {
            Some(n) => Some(n as u128),
            None => None,
        }
    } else if text::ends_with(s, "s") {
        match amount_of(s, "s") {
            Some(n) => Some(n as u128 * 1000),
            None => None,
        }
    } else if text::ends_with(s, "m") {
        match amount_of(s, "m") {
            Some(n) => Some(n as u128 * 60000),
            None => None,
        }
    } else {
        match number::parse_bounded(s, 0xffff_ffff_ffff_ffff) {
            Some(n) => Some(n as u128 * 1000),
            None => None,
        }
    }
}

/// A timeout in milliseconds: the one given, or half a minute.
pub open spec fn timeout_millis(s: Seq<char>) -> nat {
    match duration_millis(s) {
        Some(n) => n,
        None => 30000,
    }
}

pub fn timeout_of(s: &str) -> (r: u128)
    requires
        countable(s@),
    ensures
        r == timeout_millis(s@),
{
    match parse_duration(s) {
        Some(n) => n,
        None => 30000,
    }
}

/// The seconds that a connection may take: those of the timeout, at least one.
pub open spec fn connect_seconds(millis: nat) -> nat {
    if millis / 1000 < 1 {
        1
    } else {
        millis / 1000
    }
}

} // verus!
