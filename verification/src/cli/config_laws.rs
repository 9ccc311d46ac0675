//! What is written as an interface configuration is read back from it.

use vstd::prelude::*;
use crate::cli::config;
use crate::cli::config::PeerConfigView;
use crate::cli::firewall;
use crate::cli::reconstruct;
use crate::cli::reconstruct::ConfigView;
use crate::mesh::state;
use crate::mesh::state::{PeerView, ServerView};
use crate::net;
use crate::number;
use crate::split;
use crate::text;

verus! {

/// A decimal number is a row of digits that stands for it.
pub proof fn decimal_reads_back(n: nat)
    ensures
        number::decimal(n).len() > 0,
        number::all_digits(number::decimal(n)),
        number::digits_value(number::decimal(n)) == n,
        n < 10 ==> number::decimal(n).len() == 1,
        n < 100 ==> number::decimal(n).len() <= 2,
        n < 1000 ==> number::decimal(n).len() <= 3,
        n > 0 ==> number::decimal(n)[0] != '0',
    decreases n,
{
    let s = number::decimal(n);
    if n < 10 {
        assert(s.drop_last() =~= Seq::<char>::empty());
        assert(number::digits_value(s.drop_last()) == 0);
        assert(s.last() == number::digit(n));
    } else {
        let t = number::decimal(n / 10);
        decimal_reads_back(n / 10);
        assert(s.drop_last() =~= t);
        assert(s.last() == number::digit(n % 10));
        assert(s[0] == t[0]);
        assert forall|i: int| 0 <= i < s.len() implies number::is_digit(#[trigger] s[i]) by {
            if i < t.len() {
                assert(s[i] == t[i]);
            }
        }
    }
}

/// A number is read back from its decimal form.
pub proof fn number_reads_back(n: nat, max: nat)
    requires
        n <= max,
    ensures
        number::parsed(number::decimal(n), max) == Some(n),
{
    let s = number::decimal(n);
    decimal_reads_back(n);
    assert(number::is_digit(s[0]));
    assert(number::without_plus(s) == s);
}

/// A text is cut at its first separator.
pub proof fn pieces_head(a: Seq<char>, c: char, rest: Seq<char>)
    requires
        !a.contains(c),
    ensures
        split::pieces(a + seq![c] + rest, c) == seq![a] + split::pieces(rest, c),
{
    let s = a + seq![c] + rest;
    assert forall|j: int| 0 <= j < a.len() implies s[j] != c by {
        assert(s[j] == a[j]);
    }
    text::find_char_is(s, c, a.len() as int);
    assert(s.take(a.len() as int) =~= a);
    assert(s.skip(a.len() as int + 1) =~= rest);
}

/// A text without a separator is one piece.
pub proof fn pieces_last(a: Seq<char>, c: char)
    requires
        !a.contains(c),
    ensures
        split::pieces(a, c) == seq![a],
{
    text::find_char_is(a, c, a.len() as int);
}

/// Whether a character stands in an address or a network.
pub open spec fn net_char(c: char) -> bool {
    number::is_digit(c) || c == '.' || c == '/'
}

/// Whether a text is an address or a network, as far as its characters tell.
pub open spec fn net_like(s: Seq<char>) -> bool {
    s.len() > 0 && forall|i: int| 0 <= i < s.len() ==> net_char(#[trigger] s[i])
}

pub proof fn net_like_add(a: Seq<char>, b: Seq<char>)
    requires
        net_like(a),
        net_like(b),
    ensures
        net_like(a + b),
{
    let s = a + b;
    assert forall|i: int| 0 <= i < s.len() implies net_char(#[trigger] s[i]) by {
        if i < a.len() {
            assert(s[i] == a[i]);
        } else {
            assert(s[i] == b[i - a.len()]);
        }
    }
}

pub proof fn decimal_net_like(n: nat)
    ensures
        net_like(number::decimal(n)),
{
    decimal_reads_back(n);
    let s = number::decimal(n);
    assert forall|i: int| 0 <= i < s.len() implies net_char(#[trigger] s[i]) by {
        assert(number::is_digit(s[i]));
    }
}

pub proof fn dotted_net_like(addr: u32)
    ensures
        net_like(net::dotted(addr)),
        !net::dotted(addr).contains('/'),
{
    reveal_strlit(".");
    let a = number::decimal((addr / 0x100_0000) as nat);
    let b = number::decimal((addr / 0x1_0000 % 0x100) as nat);
    let c = number::decimal((addr / 0x100 % 0x100) as nat);
    let d = number::decimal((addr % 0x100) as nat);
    decimal_net_like((addr / 0x100_0000) as nat);
    decimal_net_like((addr / 0x1_0000 % 0x100) as nat);
    decimal_net_like((addr / 0x100 % 0x100) as nat);
    decimal_net_like((addr % 0x100) as nat);
    decimal_reads_back((addr / 0x100_0000) as nat);
    decimal_reads_back((addr / 0x1_0000 % 0x100) as nat);
    decimal_reads_back((addr / 0x100 % 0x100) as nat);
    decimal_reads_back((addr % 0x100) as nat);
    assert(net_like("."@));
    net_like_add(a, "."@);
    net_like_add(a + "."@, b);
    net_like_add(a + "."@ + b, "."@);
    net_like_add(a + "."@ + b + "."@, c);
    net_like_add(a + "."@ + b + "."@ + c, "."@);
    net_like_add(a + "."@ + b + "."@ + c + "."@, d);
    no_char_add(a, "."@, '/');
    no_char_add(a + "."@, b, '/');
    no_char_add(a + "."@ + b, "."@, '/');
    no_char_add(a + "."@ + b + "."@, c, '/');
    no_char_add(a + "."@ + b + "."@ + c, "."@, '/');
    no_char_add(a + "."@ + b + "."@ + c + "."@, d, '/');
    assert(!"."@.contains('/'));
    digits_hold_no(a, '/');
    digits_hold_no(b, '/');
    digits_hold_no(c, '/');
    digits_hold_no(d, '/');
}

/// A row of digits holds nothing else.
pub proof fn digits_hold_no(s: Seq<char>, c: char)
    requires
        number::all_digits(s),
        !number::is_digit(c),
    ensures
        !s.contains(c),
{
    if s.contains(c) {
        let i = choose|i: int| 0 <= i < s.len() && s[i] == c;
        assert(number::is_digit(s[i]));
    }
}

pub proof fn no_char_add(a: Seq<char>, b: Seq<char>, c: char)
    ensures
        (a + b).contains(c) <==> a.contains(c) || b.contains(c),
{
    let s = a + b;
    if s.contains(c) {
        let i = choose|i: int| 0 <= i < s.len() && s[i] == c;
        if i < a.len() {
            assert(a[i] == c);
        } else {
            assert(b[i - a.len()] == c);
        }
    }
    if a.contains(c) {
        let i = choose|i: int| 0 <= i < a.len() && a[i] == c;
        assert(s[i] == c);
    }
    if b.contains(c) {
        let i = choose|i: int| 0 <= i < b.len() && b[i] == c;
        assert(s[i + a.len()] == c);
    }
}

proof fn octet_reads_back(n: nat)
    requires
        n <= 255,
    ensures
        net::octet(number::decimal(n)) == Some(n),
        !number::decimal(n).contains('.'),
{
    decimal_reads_back(n);
    digits_hold_no(number::decimal(n), '.');
}

proof fn four_pieces(a: Seq<char>, b: Seq<char>, c: Seq<char>, d: Seq<char>)
    requires
        !a.contains('.'),
        !b.contains('.'),
        !c.contains('.'),
        !d.contains('.'),
    ensures
        split::pieces(a + "."@ + b + "."@ + c + "."@ + d, '.') == seq![a, b, c, d],
{
    reveal_strlit(".");
    let dot = seq!['.'];
    assert("."@ =~= dot);
    let r2 = c + dot + d;
    let r1 = b + dot + r2;
    let r0 = a + dot + r1;
    assert(a + dot + b + dot + c + dot + d =~= r0);
    pieces_last(d, '.');
    pieces_head(c, '.', d);
    pieces_head(b, '.', r2);
    pieces_head(a, '.', r1);
    assert(split::pieces(r2, '.') =~= seq![c, d]);
    assert(split::pieces(r1, '.') =~= seq![b, c, d]);
    assert(split::pieces(r0, '.') =~= seq![a, b, c, d]);
}

proof fn octets_add_up(addr: u32)
    ensures
        (addr / 0x100_0000) * 0x100_0000 + (addr / 0x1_0000 % 0x100) * 0x1_0000 + (addr / 0x100
            % 0x100) * 0x100 + addr % 0x100 == addr,
        addr / 0x100_0000 <= 255,
{
}

/// An address is read back from its dotted form.
pub proof fn addresses_read_back(addr: u32)
    ensures
        net::ip_parsed(net::dotted(addr)) == Some(addr as nat),
{
    let n0 = (addr / 0x100_0000) as nat;
    let n1 = (addr / 0x1_0000 % 0x100) as nat;
    let n2 = (addr / 0x100 % 0x100) as nat;
    let n3 = (addr % 0x100) as nat;
    octets_add_up(addr);
    octet_reads_back(n0);
    octet_reads_back(n1);
    octet_reads_back(n2);
    octet_reads_back(n3);
    four_pieces(
        number::decimal(n0),
        number::decimal(n1),
        number::decimal(n2),
        number::decimal(n3),
    );
}

/// A network is read back from its text.
pub proof fn networks_read_back(n: net::Ipv4Net)
    requires
        n.prefix() <= 32,
    ensures
        net::net_parsed(n.cidr()) == Some((n.ip(), n.prefix())),
{
    let addr = n.ip();
    let len = n.prefix() as nat;
    let n0 = (addr / 0x100_0000) as nat;
    let n1 = (addr / 0x1_0000 % 0x100) as nat;
    let n2 = (addr / 0x100 % 0x100) as nat;
    let n3 = (addr % 0x100) as nat;
    reveal_strlit("/");
    assert("/"@ =~= seq!['/']);
    dotted_net_like(addr);
    decimal_reads_back(len);
    digits_hold_no(number::decimal(len), '/');
    pieces_last(number::decimal(len), '/');
    pieces_head(net::dotted(addr), '/', number::decimal(len));
    let halves = split::pieces(n.cidr(), '/');
    assert(halves =~= seq![net::dotted(addr), number::decimal(len)]);
    octets_add_up(addr);
    octet_reads_back(n0);
    octet_reads_back(n1);
    octet_reads_back(n2);
    octet_reads_back(n3);
    four_pieces(
        number::decimal(n0),
        number::decimal(n1),
        number::decimal(n2),
        number::decimal(n3),
    );
    let p = split::pieces(halves[0], '.');
    assert forall|i: int| 0 <= i < 4 implies net::short_number(#[trigger] p[i], 3, 256) is Some by {
        assert(net::octet(p[i]) is Some);
    }
}

// ---------------------------------------------------------------------------
// Lines
// ---------------------------------------------------------------------------

/// Whether a text can stand on a line of its own.
pub open spec fn on_a_line(a: Seq<char>) -> bool {
    !a.contains('\n') && (a.len() > 0 ==> a.last() != '\r')
}

pub proof fn lines_head(a: Seq<char>, rest: Seq<char>)
    requires
        on_a_line(a),
    ensures
        split::lines_of(a + seq!['\n'] + rest) == seq![a] + split::lines_of(rest),
{
    let s = a + seq!['\n'] + rest;
    assert forall|j: int| 0 <= j < a.len() implies s[j] != '\n' by {
        assert(s[j] == a[j]);
    }
    assert(s[a.len() as int] == '\n');
    text::find_char_is(s, '\n', a.len() as int);
    assert(s.take(a.len() as int) =~= a);
    assert(s.skip(a.len() as int + 1) =~= rest);
}

/// The lines of a text that ends with a line, and of what follows it.
pub proof fn lines_add(t: Seq<char>, u: Seq<char>)
    requires
        t.len() > 0 ==> t.last() == '\n',
    ensures
        split::lines_of(t + u) == split::lines_of(t) + split::lines_of(u),
    decreases t.len(),
{
    if t.len() == 0 {
        assert(t + u =~= u);
        assert(split::lines_of(t) + split::lines_of(u) =~= split::lines_of(u));
    } else {
        let i = text::find_char(t, '\n');
        text::find_char_props(t, '\n');
        if i >= t.len() {
            assert(t[t.len() - 1] == '\n');
        }
        let s = t + u;
        assert forall|j: int| 0 <= j < i implies s[j] != '\n' by {
            assert(s[j] == t[j]);
        }
        assert(s[i] == t[i]);
        text::find_char_is(s, '\n', i);
        let rest = t.skip(i + 1);
        assert(s.take(i) =~= t.take(i));
        assert(s.skip(i + 1) =~= rest + u);
        if rest.len() > 0 {
            assert(rest.last() == t.last());
        }
        lines_add(rest, u);
        let one = seq![split::without_cr(t.take(i))];
        assert(one + (split::lines_of(rest) + split::lines_of(u)) =~= (one + split::lines_of(rest))
            + split::lines_of(u));
    }
}

proof fn config_lines_add(c: ConfigView, xs: Seq<Seq<char>>, ys: Seq<Seq<char>>)
    ensures
        reconstruct::config_lines(c, xs + ys) == reconstruct::config_lines(
            reconstruct::config_lines(c, xs),
            ys,
        ),
    decreases ys.len(),
{
    if ys.len() == 0 {
        assert(xs + ys =~= xs);
    } else {
        assert((xs + ys).drop_last() =~= xs + ys.drop_last());
        assert((xs + ys).last() == ys.last());
        config_lines_add(c, xs, ys.drop_last());
    }
}

/// Whether a line takes a configuration that is being read from one state to another.
#[verifier::opaque]
spec fn line_gives(c: ConfigView, line: Seq<char>, d: ConfigView) -> bool {
    reconstruct::config_line(c, line) == d
}

/// Whether lines take a configuration that is being read from one state to another.
#[verifier::opaque]
spec fn lines_give(c: ConfigView, lines: Seq<Seq<char>>, d: ConfigView) -> bool {
    reconstruct::config_lines(c, lines) == d
}

proof fn no_lines_give(c: ConfigView)
    ensures
        lines_give(c, Seq::empty(), c),
{
    reveal(lines_give);
}

proof fn one_more_gives(
    c: ConfigView,
    lines: Seq<Seq<char>>,
    d: ConfigView,
    line: Seq<char>,
    e: ConfigView,
)
    requires
        lines_give(c, lines, d),
        line_gives(d, line, e),
    ensures
        lines_give(c, lines.push(line), e),
{
    reveal(lines_give);
    reveal(line_gives);
    assert(lines.push(line).drop_last() =~= lines);
}

// ---------------------------------------------------------------------------
// Settings
// ---------------------------------------------------------------------------

/// Whether a text is not empty and has no white space at its ends.
pub open spec fn is_tight(s: Seq<char>) -> bool {
    s.len() > 0 && !split::is_space(s[0]) && !split::is_space(s.last())
}

/// Whether a text can be a key or an endpoint: tight, and on one line.
pub open spec fn is_setting(s: Seq<char>) -> bool {
    is_tight(s) && !s.contains('\n')
}

/// A setting as it stands on its line.
spec fn setting_line(k: Seq<char>, v: Seq<char>) -> Seq<char> {
    k + seq![' ', '=', ' '] + v
}

proof fn tight_stays(s: Seq<char>)
    requires
        is_tight(s),
    ensures
        split::trimmed(s) == s,
{
}

proof fn setting_reads_back(c: ConfigView, k: Seq<char>, v: Seq<char>)
    requires
        is_tight(k),
        is_tight(v),
        !k.contains('='),
        k[0] != '[',
    ensures
        line_gives(c, setting_line(k, v), reconstruct::config_value(c, k, v)),
{
    reveal(line_gives);
    reveal_strlit("[Peer]");
    let line = setting_line(k, v);
    let n = k.len() as int;
    assert(line[0] == k[0]);
    assert(line.last() == v.last());
    tight_stays(line);
    assert("[Peer]"@[0] == '[');
    assert forall|j: int| 0 <= j < n + 1 implies line[j] != '=' by {
        if j < n {
            assert(line[j] == k[j]);
        }
    }
    assert(line[n + 1] == '=');
    text::find_char_is(line, '=', n + 1);
    let left = line.take(n + 1);
    let right = line.skip(n + 2);
    assert(left =~= k + seq![' ']);
    assert(right =~= seq![' '] + v);
    assert(left[0] == k[0]);
    split::trim_start_is(left, 0);
    assert(left.skip(0) =~= left);
    split::trim_end_is(left, n);
    assert(left.take(n) =~= k);
    split::trim_start_is(right, 1);
    assert(right.skip(1) =~= v);
}

proof fn trim_end_keeps_first(s: Seq<char>)
    requires
        s.len() > 0,
        !split::is_space(s[0]),
    ensures
        split::trim_end(s).len() > 0,
        split::trim_end(s)[0] == s[0],
    decreases s.len(),
{
    if split::is_space(s.last()) {
        trim_end_keeps_first(s.drop_last());
    }
}

/// A comment says nothing.
proof fn comment_is_skipped(c: ConfigView, e: Seq<char>)
    requires
        is_tight(e),
    ensures
        line_gives(c, "# "@ + e, c),
{
    reveal(line_gives);
    reveal_strlit("# ");
    reveal_strlit("[Peer]");
    reveal_strlit("Address");
    reveal_strlit("ListenPort");
    reveal_strlit("PublicKey");
    reveal_strlit("Endpoint");
    reveal_strlit("AllowedIPs");
    reveal_strlit("PersistentKeepalive");
    let line = "# "@ + e;
    assert(line[0] == '#');
    assert(line.last() == e.last());
    tight_stays(line);
    assert("[Peer]"@[0] == '[');
    text::find_char_props(line, '=');
    let i = text::find_char(line, '=');
    if i < line.len() {
        let left = line.take(i);
        if i == 0 {
            assert(line[0] == '=');
        }
        assert(left[0] == '#');
        trim_end_keeps_first(left);
        let k = split::trimmed(left);
        assert(k[0] == '#');
        assert("Address"@[0] == 'A' && "ListenPort"@[0] == 'L' && "PublicKey"@[0] == 'P'
            && "Endpoint"@[0] == 'E' && "AllowedIPs"@[0] == 'A' && "PersistentKeepalive"@[0]
            == 'P');
    }
}


// ---------------------------------------------------------------------------
// Lists
// ---------------------------------------------------------------------------

proof fn net_like_is_tight(s: Seq<char>)
    requires
        net_like(s),
    ensures
        is_setting(s),
        !s.contains(','),
        on_a_line(s),
{
    assert(net_char(s[0]) && net_char(s.last()));
    if s.contains(',') {
        let i = choose|i: int| 0 <= i < s.len() && s[i] == ',';
        assert(net_char(s[i]));
    }
    if s.contains('\n') {
        let i = choose|i: int| 0 <= i < s.len() && s[i] == '\n';
        assert(net_char(s[i]));
    }
}

/// The pieces of a text with one more behind it.
proof fn pieces_push(s: Seq<char>, c: char, a: Seq<char>)
    requires
        !a.contains(c),
    ensures
        split::pieces(s + seq![c] + a, c) == split::pieces(s, c).push(a),
    decreases s.len(),
{
    let i = text::find_char(s, c);
    text::find_char_props(s, c);
    let whole = s + seq![c] + a;
    if i < s.len() {
        let rest = s.skip(i + 1);
        assert forall|j: int| 0 <= j < i implies whole[j] != c by {
            assert(whole[j] == s[j]);
        }
        assert(whole[i] == s[i]);
        text::find_char_is(whole, c, i);
        assert(whole.take(i) =~= s.take(i));
        assert(whole.skip(i + 1) =~= rest + seq![c] + a);
        pieces_push(rest, c, a);
        assert(seq![s.take(i)] + split::pieces(rest, c).push(a) =~= (seq![s.take(i)]
            + split::pieces(rest, c)).push(a));
    } else {
        if s.contains(c) {
            let j = choose|j: int| 0 <= j < s.len() && s[j] == c;
            assert(s[j] != c);
        }
        pieces_head(s, c, a);
        pieces_last(a, c);
        assert(seq![s] + seq![a] =~= seq![s].push(a));
    }
}

/// A list of addresses and networks is read back from its line.
proof fn list_reads_back(parts: Seq<Seq<char>>)
    requires
        parts.len() > 0,
        forall|i: int| 0 <= i < parts.len() ==> net_like(#[trigger] parts[i]),
    ensures
        reconstruct::trimmed_parts(split::joined(parts, ", "@)) == parts,
        is_setting(split::joined(parts, ", "@)),
    decreases parts.len(),
{
    reveal_strlit(", ");
    let s = split::joined(parts, ", "@);
    let a = parts.last();
    assert(net_like(a));
    net_like_is_tight(a);
    if parts.len() == 1 {
        pieces_last(a, ',');
        tight_stays(a);
        assert(reconstruct::trimmed_parts(s) =~= parts);
    } else {
        let front = parts.drop_last();
        let t = split::joined(front, ", "@);
        assert forall|i: int| 0 <= i < front.len() implies net_like(#[trigger] front[i]) by {
            assert(front[i] == parts[i]);
        }
        list_reads_back(front);
        let spaced = seq![' '] + a;
        assert(s =~= t + seq![','] + spaced);
        no_char_add(seq![' '], a, ',');
        assert(!seq![' '].contains(','));
        pieces_push(t, ',', spaced);
        split::trim_start_is(spaced, 1);
        assert(spaced.skip(1) =~= a);
        assert(split::trimmed(spaced) == a);
        let p = split::pieces(t, ',');
        let q = reconstruct::trimmed_parts(s);
        assert forall|i: int| 0 <= i < q.len() implies q[i] == parts[i] by {
            if i < p.len() {
                assert(q[i] == reconstruct::trimmed_parts(t)[i]);
            }
        }
        assert(q =~= parts);
        assert(s[0] == t[0]);
        assert(s.last() == a.last());
        assert(s == t + ", "@ + a);
        no_char_add(t, ", "@, '\n');
        no_char_add(t + ", "@, a, '\n');
        assert(!", "@.contains('\n'));
    }
}

/// The parts of the line of addresses.
pub open spec fn allowed_parts(p: PeerConfigView) -> Seq<Seq<char>> {
    seq![net::dotted(p.mgmt_ip) + "/32"@] + firewall::cidrs(p.container_subnets)
}

proof fn allowed_net_like(p: PeerConfigView)
    ensures
        forall|i: int|
            0 <= i < allowed_parts(p).len() ==> net_like(#[trigger] allowed_parts(p)[i]),
{
    reveal_strlit("/32");
    reveal_strlit("/");
    let parts = allowed_parts(p);
    assert forall|i: int| 0 <= i < parts.len() implies net_like(#[trigger] parts[i]) by {
        if i == 0 {
            dotted_net_like(p.mgmt_ip);
            assert(net_like("/32"@));
            net_like_add(net::dotted(p.mgmt_ip), "/32"@);
        } else {
            let n = p.container_subnets[i - 1];
            assert(parts[i] == n.cidr());
            dotted_net_like(n.ip());
            assert(net_like("/"@));
            net_like_add(net::dotted(n.ip()), "/"@);
            decimal_net_like(n.prefix() as nat);
            net_like_add(net::dotted(n.ip()) + "/"@, number::decimal(n.prefix() as nat));
        }
    }
}

/// The address of an endpoint is a setting where the endpoint is.
proof fn endpoint_is_setting(e: Seq<char>, port: u16)
    requires
        is_setting(e),
    ensures
        is_setting(config::endpoint_with_port(e, port)),
{
    reveal_strlit(":");
    let d = number::decimal(port as nat);
    decimal_net_like(port as nat);
    net_like_is_tight(d);
    let s = e + ":"@ + d;
    assert(s[0] == e[0]);
    assert(s.last() == d.last());
    no_char_add(e, ":"@, '\n');
    no_char_add(e + ":"@, d, '\n');
    assert(!":"@.contains('\n'));
}

// ---------------------------------------------------------------------------
// Configurations
// ---------------------------------------------------------------------------

proof fn setting_on_a_line(k: Seq<char>, v: Seq<char>)
    requires
        !k.contains('\n'),
        is_setting(v),
    ensures
        on_a_line(setting_line(k, v)),
{
    let mid = seq![' ', '=', ' '];
    no_char_add(k, mid, '\n');
    no_char_add(k + mid, v, '\n');
    assert(!mid.contains('\n'));
    assert(setting_line(k, v).last() == v.last());
}

/// The lines of the interface section.
spec fn interface_lines(ip: u32, port: u16) -> Seq<Seq<char>> {
    seq![
        "[Interface]"@,
        setting_line("Address"@, net::dotted(ip) + "/32"@),
        setting_line("ListenPort"@, number::decimal(port as nat)),
        setting_line("PrivateKey"@, "__PRIVKEY__"@),
    ]
}

proof fn interface_is_lines(ip: u32, port: u16)
    ensures
        split::lines_of(config::interface_section_text(ip, port)) == interface_lines(ip, port),
        config::interface_section_text(ip, port).last() == '\n',
{
    reveal_strlit("[Interface]\nAddress = ");
    reveal_strlit("/32\nListenPort = ");
    reveal_strlit("\nPrivateKey = __PRIVKEY__\n");
    reveal_strlit("[Interface]");
    reveal_strlit("Address");
    reveal_strlit("ListenPort");
    reveal_strlit("PrivateKey");
    reveal_strlit("__PRIVKEY__");
    reveal_strlit("/32");
    let nl = seq!['\n'];
    let mid = seq![' ', '=', ' '];
    let a = net::dotted(ip);
    let d = number::decimal(port as nat);
    let l0 = "[Interface]"@;
    let l1 = setting_line("Address"@, a + "/32"@);
    let l2 = setting_line("ListenPort"@, d);
    let l3 = setting_line("PrivateKey"@, "__PRIVKEY__"@);
    dotted_net_like(ip);
    assert(net_like("/32"@));
    net_like_add(a, "/32"@);
    net_like_is_tight(a + "/32"@);
    decimal_net_like(port as nat);
    net_like_is_tight(d);
    assert(!"Address"@.contains('\n'));
    assert(!"ListenPort"@.contains('\n'));
    assert(!"PrivateKey"@.contains('\n'));
    assert(!"__PRIVKEY__"@.contains('\n'));
    assert(on_a_line(l0));
    setting_on_a_line("Address"@, a + "/32"@);
    setting_on_a_line("ListenPort"@, d);
    setting_on_a_line("PrivateKey"@, "__PRIVKEY__"@);
    assert("[Interface]\nAddress = "@ =~= l0 + nl + ("Address"@ + mid));
    assert("/32\nListenPort = "@ =~= "/32"@ + nl + ("ListenPort"@ + mid));
    assert("\nPrivateKey = __PRIVKEY__\n"@ =~= nl + l3 + nl);
    let none = Seq::<char>::empty();
    let r3 = l3 + nl + none;
    let r2 = l2 + nl + r3;
    let r1 = l1 + nl + r2;
    let r0 = l0 + nl + r1;
    interface_parts(l0, nl, "Address"@ + mid, a, "/32"@, "ListenPort"@ + mid, d, l3);
    assert(l1 =~= ("Address"@ + mid) + a + "/32"@);
    assert(l2 =~= ("ListenPort"@ + mid) + d);
    assert(config::interface_section_text(ip, port) == r0);
    lines_head(l3, none);
    lines_head(l2, r3);
    lines_head(l1, r2);
    lines_head(l0, r1);
    assert(split::lines_of(none) =~= Seq::<Seq<char>>::empty());
    assert(split::lines_of(r0) =~= interface_lines(ip, port));
}

proof fn interface_parts(
    l0: Seq<char>,
    nl: Seq<char>,
    k1: Seq<char>,
    a: Seq<char>,
    m: Seq<char>,
    k2: Seq<char>,
    d: Seq<char>,
    l3: Seq<char>,
)
    ensures
        (l0 + nl + k1) + a + (m + nl + k2) + d + (nl + l3 + nl) == l0 + nl + ((k1 + a + m) + nl + ((
        k2 + d) + nl + (l3 + nl + Seq::<char>::empty()))),
{
    assert((l0 + nl + k1) + a + (m + nl + k2) + d + (nl + l3 + nl) =~= l0 + nl + ((k1 + a + m) + nl
        + ((k2 + d) + nl + (l3 + nl + Seq::<char>::empty()))));
}

/// The lines of a peer section.
spec fn peer_lines(port: u16, p: PeerConfigView) -> Seq<Seq<char>> {
    seq![
        Seq::empty(),
        "[Peer]"@,
        "# "@ + p.endpoint,
        setting_line("PublicKey"@, p.public_key),
        setting_line("AllowedIPs"@, config::allowed_ips(p)),
        setting_line("Endpoint"@, config::endpoint_with_port(p.endpoint, port)),
        setting_line("PersistentKeepalive"@, "25"@),
    ]
}

proof fn peer_parts(
    nl: Seq<char>,
    l1: Seq<char>,
    h: Seq<char>,
    e: Seq<char>,
    k3: Seq<char>,
    key: Seq<char>,
    k4: Seq<char>,
    ips: Seq<char>,
    k5: Seq<char>,
    ep: Seq<char>,
    l6: Seq<char>,
)
    ensures
        (nl + l1 + nl + h) + e + (nl + k3) + key + (nl + k4) + ips + (nl + k5) + ep + (nl + l6 + nl)
            == Seq::<char>::empty() + nl + (l1 + nl + ((h + e) + nl + ((k3 + key) + nl + ((k4 + ips)
            + nl + ((k5 + ep) + nl + (l6 + nl + Seq::<char>::empty())))))),
{
    let none = Seq::<char>::empty();
    let r6 = l6 + nl + none;
    let r5 = (k5 + ep) + nl + r6;
    let r4 = (k4 + ips) + nl + r5;
    let r3 = (k3 + key) + nl + r4;
    let x3 = (nl + l1 + nl + h) + e;
    let x4 = x3 + (nl + k3) + key;
    let x5 = x4 + (nl + k4) + ips;
    assert(nl + l6 + nl =~= nl + r6);
    setting_parts(x5, nl, k5, ep, r6);
    setting_parts(x4, nl, k4, ips, r5);
    setting_parts(x3, nl, k3, key, r4);
    heading_parts(nl, l1, h, e, r3);
}

proof fn setting_parts(x: Seq<char>, nl: Seq<char>, k: Seq<char>, v: Seq<char>, r: Seq<char>)
    ensures
        x + (nl + k) + v + (nl + r) == x + (nl + ((k + v) + nl + r)),
{
    assert(x + (nl + k) + v + (nl + r) =~= x + (nl + ((k + v) + nl + r)));
}

proof fn heading_parts(nl: Seq<char>, l1: Seq<char>, h: Seq<char>, e: Seq<char>, r: Seq<char>)
    ensures
        ((nl + l1 + nl + h) + e) + (nl + r) == Seq::<char>::empty() + nl + (l1 + nl + ((h + e) + nl
            + r)),
{
    assert(((nl + l1 + nl + h) + e) + (nl + r) =~= Seq::<char>::empty() + nl + (l1 + nl + ((h + e)
        + nl + r)));
}

proof fn peer_is_lines(port: u16, p: PeerConfigView)
    requires
        is_setting(p.endpoint),
        is_setting(p.public_key),
    ensures
        split::lines_of(config::section_of(port, p)) == peer_lines(port, p),
        config::section_of(port, p).len() > 0,
        config::section_of(port, p).last() == '\n',
{
    reveal_strlit("\n[Peer]\n# ");
    reveal_strlit("\nPublicKey = ");
    reveal_strlit("\nAllowedIPs = ");
    reveal_strlit("\nEndpoint = ");
    reveal_strlit("\nPersistentKeepalive = 25\n");
    reveal_strlit("[Peer]");
    reveal_strlit("# ");
    reveal_strlit("PublicKey");
    reveal_strlit("AllowedIPs");
    reveal_strlit("Endpoint");
    reveal_strlit("PersistentKeepalive");
    reveal_strlit("25");
    let nl = seq!['\n'];
    let mid = seq![' ', '=', ' '];
    let none = Seq::<char>::empty();
    let ips = config::allowed_ips(p);
    let ep = config::endpoint_with_port(p.endpoint, port);
    let l1 = "[Peer]"@;
    let l2 = "# "@ + p.endpoint;
    let l3 = setting_line("PublicKey"@, p.public_key);
    let l4 = setting_line("AllowedIPs"@, ips);
    let l5 = setting_line("Endpoint"@, ep);
    let l6 = setting_line("PersistentKeepalive"@, "25"@);
    allowed_net_like(p);
    list_reads_back(allowed_parts(p));
    endpoint_is_setting(p.endpoint, port);
    assert("\n[Peer]\n# "@ =~= nl + l1 + nl + "# "@);
    assert("\nPublicKey = "@ =~= nl + ("PublicKey"@ + mid));
    assert("\nAllowedIPs = "@ =~= nl + ("AllowedIPs"@ + mid));
    assert("\nEndpoint = "@ =~= nl + ("Endpoint"@ + mid));
    assert("\nPersistentKeepalive = 25\n"@ =~= nl + l6 + nl);
    peer_parts(
        nl,
        l1,
        "# "@,
        p.endpoint,
        "PublicKey"@ + mid,
        p.public_key,
        "AllowedIPs"@ + mid,
        ips,
        "Endpoint"@ + mid,
        ep,
        l6,
    );
    let r6 = l6 + nl + none;
    let r5 = l5 + nl + r6;
    let r4 = l4 + nl + r5;
    let r3 = l3 + nl + r4;
    let r2 = l2 + nl + r3;
    let r1 = l1 + nl + r2;
    let r0 = none + nl + r1;
    assert(config::section_of(port, p) == r0);
    assert(!"PublicKey"@.contains('\n') && !"AllowedIPs"@.contains('\n')
        && !"Endpoint"@.contains('\n') && !"PersistentKeepalive"@.contains('\n')
        && !"25"@.contains('\n') && !"[Peer]"@.contains('\n') && !"# "@.contains('\n'));
    setting_on_a_line("PublicKey"@, p.public_key);
    setting_on_a_line("AllowedIPs"@, ips);
    setting_on_a_line("Endpoint"@, ep);
    setting_on_a_line("PersistentKeepalive"@, "25"@);
    no_char_add("# "@, p.endpoint, '\n');
    assert(l2.last() == p.endpoint.last());
    lines_head(l6, none);
    lines_head(l5, r6);
    lines_head(l4, r5);
    lines_head(l3, r4);
    lines_head(l2, r3);
    lines_head(l1, r2);
    lines_head(none, r1);
    assert(split::lines_of(none) =~= Seq::<Seq<char>>::empty());
    assert(split::lines_of(r0) =~= peer_lines(port, p));
    let text = config::section_of(port, p);
    assert(text.last() == "\nPersistentKeepalive = 25\n"@.last());
}

/// A peer as it is read back.
pub open spec fn read_back(port: u16, p: PeerConfigView) -> PeerView {
    PeerView {
        public_key: p.public_key,
        endpoint: config::endpoint_with_port(p.endpoint, port),
        allowed_ips: allowed_parts(p),
        latest_handshake: 0,
        persistent_keepalive: 25,
    }
}

proof fn keys_differ()
    ensures
        "ListenPort"@ != "Address"@,
        "PrivateKey"@ != "Address"@,
        "PrivateKey"@ != "ListenPort"@,
        "Endpoint"@ != "PublicKey"@,
        "AllowedIPs"@ != "PublicKey"@,
        "AllowedIPs"@ != "Endpoint"@,
        "PersistentKeepalive"@ != "PublicKey"@,
        "PersistentKeepalive"@ != "Endpoint"@,
        "PersistentKeepalive"@ != "AllowedIPs"@,
{
    reveal_strlit("Address");
    reveal_strlit("ListenPort");
    reveal_strlit("PrivateKey");
    reveal_strlit("PublicKey");
    reveal_strlit("Endpoint");
    reveal_strlit("AllowedIPs");
    reveal_strlit("PersistentKeepalive");
    assert("Address"@.len() == 7 && "ListenPort"@[0] == 'L' && "PrivateKey"@[0] == 'P'
        && "PrivateKey"@.len() == 10 && "Endpoint"@.len() == 8 && "PublicKey"@.len() == 9
        && "AllowedIPs"@.len() == 10 && "PersistentKeepalive"@.len() == 19);
}

proof fn heading_is_skipped(c: ConfigView)
    ensures
        line_gives(c, "[Interface]"@, c),
{
    reveal(line_gives);
    reveal_strlit("[Interface]");
    reveal_strlit("[Peer]");
    let l0 = "[Interface]"@;
    tight_stays(l0);
    text::find_char_is(l0, '=', l0.len() as int);
    assert("[Peer]"@.len() != l0.len());
}

proof fn address_reads_back(s: ServerView, ip: u32)
    ensures
        line_gives(
            ConfigView { server: s, cur: None },
            setting_line("Address"@, net::dotted(ip) + "/32"@),
            ConfigView { server: ServerView { wireguard_mgmt_ip: Some(ip), ..s }, cur: None },
        ),
{
    reveal_strlit("Address");
    reveal_strlit("/32");
    let c = ConfigView { server: s, cur: None };
    let a = net::dotted(ip);
    let v = a + "/32"@;
    dotted_net_like(ip);
    assert(net_like("/32"@));
    net_like_add(a, "/32"@);
    net_like_is_tight(v);
    assert(!"Address"@.contains('='));
    setting_reads_back(c, "Address"@, v);
    assert(v =~= a + seq!['/'] + seq!['3', '2']);
    pieces_head(a, '/', seq!['3', '2']);
    assert(split::pieces(v, '/')[0] == a);
    addresses_read_back(ip);
}

proof fn port_reads_back(s: ServerView, port: u16)
    ensures
        line_gives(
            ConfigView { server: s, cur: None },
            setting_line("ListenPort"@, number::decimal(port as nat)),
            ConfigView { server: ServerView { listen_port: port, ..s }, cur: None },
        ),
{
    reveal_strlit("ListenPort");
    keys_differ();
    let d = number::decimal(port as nat);
    decimal_net_like(port as nat);
    net_like_is_tight(d);
    assert(!"ListenPort"@.contains('='));
    setting_reads_back(ConfigView { server: s, cur: None }, "ListenPort"@, d);
    number_reads_back(port as nat, 65535);
}

proof fn private_key_is_skipped(s: ServerView)
    ensures
        line_gives(
            ConfigView { server: s, cur: None },
            setting_line("PrivateKey"@, "__PRIVKEY__"@),
            ConfigView { server: s, cur: None },
        ),
{
    reveal_strlit("PrivateKey");
    reveal_strlit("__PRIVKEY__");
    keys_differ();
    assert(!"PrivateKey"@.contains('='));
    setting_reads_back(ConfigView { server: s, cur: None }, "PrivateKey"@, "__PRIVKEY__"@);
}

/// The section of the interface says its address and its port.
proof fn interface_reads_back(s: ServerView, ip: u32, port: u16)
    ensures
        lines_give(
            ConfigView { server: s, cur: None },
            interface_lines(ip, port),
            ConfigView {
                server: ServerView { wireguard_mgmt_ip: Some(ip), listen_port: port, ..s },
                cur: None,
            },
        ),
{
    let c = ConfigView { server: s, cur: None };
    let ls = interface_lines(ip, port);
    let s1 = ServerView { wireguard_mgmt_ip: Some(ip), ..s };
    let s2 = ServerView { listen_port: port, ..s1 };
    let c1 = ConfigView { server: s1, cur: None };
    let c2 = ConfigView { server: s2, cur: None };
    let none = Seq::<Seq<char>>::empty();
    heading_is_skipped(c);
    address_reads_back(s, ip);
    port_reads_back(s1, port);
    private_key_is_skipped(s2);
    no_lines_give(c);
    one_more_gives(c, none, c, ls[0], c);
    one_more_gives(c, none.push(ls[0]), c, ls[1], c1);
    one_more_gives(c, none.push(ls[0]).push(ls[1]), c1, ls[2], c2);
    one_more_gives(c, none.push(ls[0]).push(ls[1]).push(ls[2]), c2, ls[3], c2);
    assert(none.push(ls[0]).push(ls[1]).push(ls[2]).push(ls[3]) =~= ls);
}

proof fn blank_is_skipped(c: ConfigView)
    ensures
        line_gives(c, Seq::empty(), c),
{
    reveal(line_gives);
    reveal_strlit("[Peer]");
    assert("[Peer]"@.len() == 6);
}

proof fn peer_opens(c: ConfigView)
    ensures
        line_gives(
            c,
            "[Peer]"@,
            ConfigView { server: reconstruct::close_peer(c), cur: Some(state::new_peer()) },
        ),
{
    reveal(line_gives);
    reveal_strlit("[Peer]");
    tight_stays("[Peer]"@);
}

proof fn keys_are_keys()
    ensures
        is_tight("PublicKey"@) && !"PublicKey"@.contains('=') && "PublicKey"@[0] != '[',
        is_tight("AllowedIPs"@) && !"AllowedIPs"@.contains('=') && "AllowedIPs"@[0] != '[',
        is_tight("Endpoint"@) && !"Endpoint"@.contains('=') && "Endpoint"@[0] != '[',
        is_tight("PersistentKeepalive"@) && !"PersistentKeepalive"@.contains('=')
            && "PersistentKeepalive"@[0] != '[',
        is_tight("25"@),
{
    reveal_strlit("PublicKey");
    reveal_strlit("AllowedIPs");
    reveal_strlit("Endpoint");
    reveal_strlit("PersistentKeepalive");
    reveal_strlit("25");
}

/// The section of a peer closes the one before it and says the peer.
proof fn peer_reads_back(c: ConfigView, port: u16, p: PeerConfigView)
    requires
        is_setting(p.endpoint),
        is_setting(p.public_key),
    ensures
        lines_give(
            c,
            peer_lines(port, p),
            ConfigView {
                server: reconstruct::close_peer(c),
                cur: Some(read_back(port, p)),
            },
        ),
{
    keys_differ();
    keys_are_keys();
    let server = reconstruct::close_peer(c);
    let ips = config::allowed_ips(p);
    let ep = config::endpoint_with_port(p.endpoint, port);
    let p0 = state::new_peer();
    let p1 = PeerView { public_key: p.public_key, ..p0 };
    let p2 = PeerView { allowed_ips: allowed_parts(p), ..p1 };
    let p3 = PeerView { endpoint: ep, ..p2 };
    let p4 = PeerView { persistent_keepalive: 25, ..p3 };
    let c0 = ConfigView { server, cur: Some(p0) };
    let c1 = ConfigView { server, cur: Some(p1) };
    let c2 = ConfigView { server, cur: Some(p2) };
    let c3 = ConfigView { server, cur: Some(p3) };
    let c4 = ConfigView { server, cur: Some(p4) };
    blank_is_skipped(c);
    peer_opens(c);
    comment_is_skipped(c0, p.endpoint);
    setting_reads_back(c0, "PublicKey"@, p.public_key);
    allowed_net_like(p);
    list_reads_back(allowed_parts(p));
    setting_reads_back(c1, "AllowedIPs"@, ips);
    endpoint_is_setting(p.endpoint, port);
    setting_reads_back(c2, "Endpoint"@, ep);
    setting_reads_back(c3, "PersistentKeepalive"@, "25"@);
    keepalive_reads_back();
    assert(p4 == read_back(port, p));
    seven_lines(c, peer_lines(port, p), c, c0, c0, c1, c2, c3, c4);
}

proof fn seven_lines(
    c: ConfigView,
    ls: Seq<Seq<char>>,
    d0: ConfigView,
    d1: ConfigView,
    d2: ConfigView,
    d3: ConfigView,
    d4: ConfigView,
    d5: ConfigView,
    d6: ConfigView,
)
    requires
        ls.len() == 7,
        line_gives(c, ls[0], d0),
        line_gives(d0, ls[1], d1),
        line_gives(d1, ls[2], d2),
        line_gives(d2, ls[3], d3),
        line_gives(d3, ls[4], d4),
        line_gives(d4, ls[5], d5),
        line_gives(d5, ls[6], d6),
    ensures
        lines_give(c, ls, d6),
{
    no_lines_give(c);
    assert(ls.take(0) =~= Seq::empty());
    assert(ls.take(0).push(ls[0]) =~= ls.take(1));
    assert(ls.take(1).push(ls[1]) =~= ls.take(2));
    assert(ls.take(2).push(ls[2]) =~= ls.take(3));
    assert(ls.take(3).push(ls[3]) =~= ls.take(4));
    assert(ls.take(4).push(ls[4]) =~= ls.take(5));
    assert(ls.take(5).push(ls[5]) =~= ls.take(6));
    assert(ls.take(6).push(ls[6]) =~= ls);
    one_more_gives(c, ls.take(0), c, ls[0], d0);
    one_more_gives(c, ls.take(1), d0, ls[1], d1);
    one_more_gives(c, ls.take(2), d1, ls[2], d2);
    one_more_gives(c, ls.take(3), d2, ls[3], d3);
    one_more_gives(c, ls.take(4), d3, ls[4], d4);
    one_more_gives(c, ls.take(5), d4, ls[5], d5);
    one_more_gives(c, ls.take(6), d5, ls[6], d6);
}

proof fn keepalive_reads_back()
    ensures
        reconstruct::port_or_zero("25"@) == 25,
{
    reveal_strlit("25");
    let s = "25"@;
    assert(number::without_plus(s) == s);
    assert(s.drop_last() =~= seq!['2']);
    assert(seq!['2'].drop_last() =~= Seq::<char>::empty());
    assert(number::digits_value(Seq::<char>::empty()) == 0);
    assert(number::digits_value(seq!['2']) == 2);
    assert(number::digits_value(s) == 25);
}

/// The peers as they are read back.
pub open spec fn all_read_back(port: u16, peers: Seq<PeerConfigView>) -> Seq<PeerView> {
    Seq::new(peers.len(), |i: int| read_back(port, peers[i]))
}

proof fn sections_read_back(
    s: ServerView,
    ip: u32,
    port: u16,
    peers: Seq<PeerConfigView>,
) -> (c: ConfigView)
    requires
        forall|i: int|
            0 <= i < peers.len() ==> is_setting((#[trigger] peers[i]).endpoint) && is_setting(
                peers[i].public_key,
            ),
    ensures
        c == reconstruct::config_lines(
            ConfigView { server: s, cur: None },
            split::lines_of(config::config_text(ip, port, peers)),
        ),
        reconstruct::close_peer(c) == (ServerView {
            wireguard_mgmt_ip: Some(ip),
            listen_port: port,
            peers: s.peers + all_read_back(port, peers),
            ..s
        }),
        config::config_text(ip, port, peers).last() == '\n',
        config::config_text(ip, port, peers).len() > 0,
    decreases peers.len(),
{
    let start = ConfigView { server: s, cur: None };
    let head = config::interface_section_text(ip, port);
    interface_is_lines(ip, port);
    if peers.len() == 0 {
        assert(config::config_text(ip, port, peers) =~= head);
        interface_reads_back(s, ip, port);
        reveal(lines_give);
        let c = reconstruct::config_lines(start, interface_lines(ip, port));
        assert(s.peers + all_read_back(port, peers) =~= s.peers);
        c
    } else {
        let front = peers.drop_last();
        let p = peers.last();
        assert forall|i: int| 0 <= i < front.len() implies is_setting(
            (#[trigger] front[i]).endpoint,
        ) && is_setting(front[i].public_key) by {
            assert(front[i] == peers[i]);
        }
        assert(peers[peers.len() - 1] == p);
        let before = sections_read_back(s, ip, port, front);
        let t = config::config_text(ip, port, front);
        let u = config::section_of(port, p);
        peer_is_lines(port, p);
        assert(config::config_text(ip, port, peers) =~= t + u);
        lines_add(t, u);
        config_lines_add(start, split::lines_of(t), split::lines_of(u));
        peer_reads_back(before, port, p);
        reveal(lines_give);
        let c = ConfigView {
            server: reconstruct::close_peer(before),
            cur: Some(read_back(port, p)),
        };
        assert(s.peers + all_read_back(port, peers) =~= (s.peers + all_read_back(port, front)).push(
            read_back(port, p),
        ));
        assert((t + u).last() == u.last());
        c
    }
}

/// What is written as a configuration is read back from it: the address and the port of the
/// interface, and each peer in order with its key, its endpoint, its addresses and its
/// keepalive. All else that is known of the host stays. The keys and endpoints must be texts
/// on one line without white space at their ends.
pub proof fn configurations_read_back(
    s: ServerView,
    ip: u32,
    port: u16,
    peers: Seq<PeerConfigView>,
)
    requires
        forall|i: int|
            0 <= i < peers.len() ==> is_setting((#[trigger] peers[i]).endpoint) && is_setting(
                peers[i].public_key,
            ),
    ensures
        reconstruct::configured(s, config::config_text(ip, port, peers)) == (ServerView {
            wireguard_mgmt_ip: Some(ip),
            listen_port: port,
            peers: s.peers + all_read_back(port, peers),
            ..s
        }),
        forall|i: int|
            0 <= i < peers.len() ==> split::joined(
                (#[trigger] all_read_back(port, peers)[i]).allowed_ips,
                ", "@,
            ) == config::allowed_ips(peers[i]),
{
    let c = sections_read_back(s, ip, port, peers);
}

} // verus!
