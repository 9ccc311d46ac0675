//! How hosts are reached, and how long they are waited for.

use vstd::prelude::*;
use crate::cli::config_laws;
use crate::cli::script_laws::stands_last;
use crate::cli::ssh as access;
use crate::cooldctl::ssh as control;
use crate::number;
use crate::split;
use crate::ssh;
use crate::text;

verus! {

/// A host is reached at the port that it names, and at the default port where it names none.
pub proof fn hosts_are_reached_at_their_port(name: Seq<char>, port: u16, default_port: u16)
    requires
        name.len() > 0,
        !name.contains(':'),
    ensures
        access::host_and_port(name + ":"@ + number::decimal(port as nat), default_port) == (
            name,
            port,
        ),
        access::host_and_port(name, default_port) == (name, default_port),
{
    reveal_strlit(":");
    let raw = number::decimal(port as nat);
    let s = name + ":"@ + raw;
    config_laws::number_reads_back(port as nat, 65535);
    config_laws::decimal_reads_back(port as nat);
    config_laws::digits_hold_no(raw, ':');
    let i = name.len() as int;
    assert(s[i] == ':');
    assert forall|j: int| i < j < s.len() implies s[j] != ':' by {
        assert(s[j] == raw[j - i - 1]);
        assert(raw.contains(raw[j - i - 1]));
    }
    text::rfind_char_is(s, ':', i);
    assert(s.take(i) =~= name);
    assert(s.skip(i + 1) =~= raw);
    assert forall|j: int| -1 < j < name.len() implies name[j] != ':' by {
        assert(name.contains(name[j]));
    }
    text::rfind_char_is(name, ':', -1);
}

proof fn amounts_read_back(n: nat, unit: Seq<char>)
    requires
        n <= 0xffff_ffff_ffff_ffff,
    ensures
        text::has_suffix(number::decimal(n) + unit, unit),
        ssh::amount(number::decimal(n) + unit, unit) == Some(n),
{
    let d = number::decimal(n);
    let s = d + unit;
    stands_last(d, unit);
    assert(s.take(s.len() - unit.len()) =~= d);
    config_laws::number_reads_back(n, 0xffff_ffff_ffff_ffff);
}

/// A time without a unit is in seconds; `s` stands for seconds, `ms` for thousandths of them and `m`
/// for minutes.
pub proof fn durations_are_in_their_unit(n: nat)
    requires
        n <= 0xffff_ffff_ffff_ffff,
    ensures
        ssh::duration_millis(number::decimal(n) + "ms"@) == Some(n),
        ssh::duration_millis(number::decimal(n) + "s"@) == Some(n * 1000),
        ssh::duration_millis(number::decimal(n) + "m"@) == Some(n * 60 * 1000),
        ssh::duration_millis(number::decimal(n)) == Some(n * 1000),
{
    reveal_strlit("ms");
    reveal_strlit("s");
    reveal_strlit("m");
    let d = number::decimal(n);
    config_laws::decimal_reads_back(n);
    config_laws::number_reads_back(n, 0xffff_ffff_ffff_ffff);
    amounts_read_back(n, "ms"@);
    amounts_read_back(n, "s"@);
    amounts_read_back(n, "m"@);
    assert(number::is_digit(d[d.len() - 1]));
    let s = d + "s"@;
    if text::has_suffix(s, "ms"@) {
        assert(s.subrange(s.len() - 2, s.len() as int)[0] == 'm');
        assert(s[s.len() - 2] == d[d.len() - 1]);
    }
    let m = d + "m"@;
    if text::has_suffix(m, "ms"@) {
        assert(m.subrange(m.len() - 2, m.len() as int)[1] == 's');
        assert(m[m.len() - 1] == 'm');
    }
    if text::has_suffix(m, "s"@) {
        assert(m.subrange(m.len() - 1, m.len() as int)[0] == 's');
        assert(m[m.len() - 1] == 'm');
    }
    if text::has_suffix(d, "ms"@) {
        assert(d.subrange(d.len() - 2, d.len() as int)[1] == 's');
    }
    if text::has_suffix(d, "s"@) {
        assert(d.subrange(d.len() - 1, d.len() as int)[0] == 's');
    }
    if text::has_suffix(d, "m"@) {
        assert(d.subrange(d.len() - 1, d.len() as int)[0] == 'm');
    }
}

/// A host is waited for as long as it is told, or half a minute where that makes no sense; a
/// connection is given whole seconds, at least one.
pub proof fn hosts_are_waited_for(s: Seq<char>, millis: nat)
    ensures
        ssh::duration_millis(s) matches Some(n) ==> ssh::timeout_millis(s) == n,
        ssh::duration_millis(s) is None ==> ssh::timeout_millis(s) == 30 * 1000,
        ssh::connect_seconds(millis) >= 1,
        millis >= 1000 ==> ssh::connect_seconds(millis) * 1000 <= millis < (ssh::connect_seconds(
            millis,
        ) + 1) * 1000,
{
}

proof fn first_is_first(lines: Seq<Seq<char>>, i: int)
    requires
        0 <= i <= lines.len(),
    ensures
        match ssh::first_of(lines, i) {
            Some(l) => exists|k: int|
                i <= k < lines.len() && !split::is_blank(#[trigger] lines[k]) && split::trimmed(
                    lines[k],
                ) == l && (forall|j: int| i <= j < k ==> split::is_blank(#[trigger] lines[j])),
            None => forall|j: int| i <= j < lines.len() ==> split::is_blank(#[trigger] lines[j]),
        },
    decreases lines.len() - i,
{
    if i < lines.len() && split::is_blank(lines[i]) {
        first_is_first(lines, i + 1);
        match ssh::first_of(lines, i + 1) {
            Some(l) => {
                let k = choose|k: int|
                    i + 1 <= k < lines.len() && !split::is_blank(#[trigger] lines[k])
                        && split::trimmed(lines[k]) == l && (forall|j: int|
                        i + 1 <= j < k ==> split::is_blank(#[trigger] lines[j]));
                assert forall|j: int| i <= j < k implies split::is_blank(#[trigger] lines[j]) by {}
                assert(!split::is_blank(lines[k]));
            },
            None => {
                assert forall|j: int| i <= j < lines.len() implies split::is_blank(
                    #[trigger] lines[j],
                ) by {}
            },
        }
    } else if i < lines.len() {
        assert(!split::is_blank(lines[i]) && split::trimmed(lines[i]) == split::trimmed(lines[i]));
    }
}

/// What a command said in short is its first line that is not blank, without the white space around
/// it; there is none only where every line is blank.
pub proof fn the_first_line_that_says_something_counts(s: Seq<char>)
    ensures
        match ssh::first_line_of(s) {
            Some(l) => exists|k: int|
                0 <= k < split::lines_of(s).len() && !split::is_blank(
                    #[trigger] split::lines_of(s)[k],
                ) && split::trimmed(split::lines_of(s)[k]) == l && (forall|j: int|
                    0 <= j < k ==> split::is_blank(#[trigger] split::lines_of(s)[j])),
            None => forall|j: int|
                0 <= j < split::lines_of(s).len() ==> split::is_blank(
                    #[trigger] split::lines_of(s)[j],
                ),
        },
{
    first_is_first(split::lines_of(s), 0);
}

/// What went wrong with a command is what it complained of, or what it said where it did not
/// complain.
pub proof fn complaints_come_first(stdout: Seq<char>, stderr: Seq<char>)
    ensures
        ssh::first_line_of(stderr) matches Some(l) ==> ssh::failure_line(stdout, stderr) == l,
        ssh::first_line_of(stderr) is None && ssh::first_line_of(stdout) is Some
            ==> ssh::failure_line(stdout, stderr) == ssh::first_line_of(stdout)->0,
{
}

/// A command runs as root: as it is where the user is root, and otherwise as one word of a command
/// that gives it that right without asking.
pub proof fn commands_run_as_root(user: Seq<char>, cmd: Seq<char>)
    ensures
        user == "root"@ ==> access::remote_text(user, cmd) == cmd,
        user != "root"@ ==> access::remote_text(user, cmd) == "sudo -n bash -lc "@
            + access::shell_escaped(cmd),
{
}

/// A host is reached by its configuration where there is one, and otherwise with the key and at the
/// port that are given; the command comes last, behind the destination.
pub proof fn keys_and_ports_are_those_given(
    config: Option<Seq<char>>,
    key: Seq<char>,
    millis: nat,
    port: u16,
    dest: Seq<char>,
    cmd: Seq<char>,
)
    ensures
        ({
            let a = access::ssh_args(config, Some(key), millis, port, dest, cmd);
            &&& a.len() >= 2 && a[a.len() - 1] == cmd && a[a.len() - 2] == dest
            &&& config matches Some(c) ==> a[0] == "-F"@ && a[1] == c
            &&& config is None ==> a[0] == "-i"@ && a[1] == key && a[2] == "-p"@ && a[3]
                == number::decimal(port as nat)
            &&& a.contains("ConnectTimeout="@ + number::decimal(ssh::connect_seconds(millis)))
        }),
{
    let a = access::ssh_args(config, Some(key), millis, port, dest, cmd);
    let n = access::access_args(config, Some(key), port).len() as int;
    assert(a[n + 5] == "ConnectTimeout="@ + number::decimal(ssh::connect_seconds(millis)));
}

/// A host of a controlled mesh is reached with the key, at the port and as the user that are given;
/// the command comes last.
pub proof fn controlled_hosts_are_reached_as_given(
    key: Seq<char>,
    millis: nat,
    port: u16,
    user: Seq<char>,
    host: Seq<char>,
    cmd: Seq<char>,
)
    ensures
        ({
            let a = control::ssh_args(key, millis, port, user, host, cmd);
            &&& a[0] == "-i"@ && a[1] == key && a[2] == "-p"@ && a[3] == number::decimal(
                port as nat,
            )
            &&& a[a.len() - 1] == cmd && a[a.len() - 2] == user + "@"@ + host
            &&& a.contains("ConnectTimeout="@ + number::decimal(ssh::connect_seconds(millis)))
        }),
{
    let a = control::ssh_args(key, millis, port, user, host, cmd);
    assert(a[9] == "ConnectTimeout="@ + number::decimal(ssh::connect_seconds(millis)));
}

/// A host is reached only with a key or a configuration.
pub proof fn access_needs_a_key(f: access::SshMeshFlags, g: control::SshMeshFlags)
    ensures
        access::access_error(f) is None <==> f.ssh_key is Some || f.ssh_config is Some,
        access::flags_error(f) is None <==> f.nodes@.len() > 0 && (f.ssh_key is Some
            || f.ssh_config is Some),
        control::key_error(g) is None <==> g.ssh_key@.len() > 0,
        control::flags_error(g) is None <==> g.nodes@.len() > 0 && g.ssh_key@.len() > 0,
{
}

} // verus!
