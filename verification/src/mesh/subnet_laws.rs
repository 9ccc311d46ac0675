//! What holds of every allocation.

use vstd::prelude::*;
use crate::keyed;
use crate::mesh::subnet;
use crate::net;
use crate::net::Ipv4Net;

verus! {

// ---------------------------------------------------------------------------
// Arithmetic
// ---------------------------------------------------------------------------

/// Whether `x` is a multiple of `b`.
pub open spec fn aligned(x: int, b: int) -> bool {
    x % b == 0
}

proof fn aligned_gap(x: int, y: int, b: int)
    requires
        b >= 1,
        aligned(x, b),
        aligned(y, b),
        x < y,
    ensures
        x + b <= y,
{
    vstd::arithmetic::div_mod::lemma_fundamental_div_mod(x, b);
    vstd::arithmetic::div_mod::lemma_fundamental_div_mod(y, b);
    let p = x / b;
    let q = y / b;
    assert(b * p < b * q);
    assert(p < q) by (nonlinear_arith)
        requires
            b >= 1,
            b * p < b * q,
    ;
    assert(b * q >= b * p + b) by (nonlinear_arith)
        requires
            b >= 1,
            q >= p + 1,
    ;
}

proof fn aligned_sum(x: int, y: int, b: int)
    requires
        b >= 1,
        aligned(x, b),
        aligned(y, b),
    ensures
        aligned(x + y, b),
{
    vstd::arithmetic::div_mod::lemma_mod_adds(x, y, b);
    vstd::arithmetic::div_mod::lemma_add_mod_noop(x, y, b);
}

/// A network's block is a multiple of every smaller block.
proof fn block_multiple(len: u8, prefix: u8)
    requires
        len <= prefix <= 32,
    ensures
        aligned(net::block_size(len), net::block_size(prefix)),
{
    let e = (32 - prefix) as nat;
    let d = (prefix - len) as nat;
    vstd::arithmetic::power2::lemma_pow2_adds(d, e);
    assert((32 - len) as nat == d + e);
    net::block_size_bounds(prefix);
    vstd::arithmetic::div_mod::lemma_mod_multiples_basic(
        vstd::arithmetic::power2::pow2(d) as int,
        net::block_size(prefix),
    );
}

pub proof fn network_aligned(addr: u32, len: u8, prefix: u8)
    requires
        len <= prefix <= 32,
    ensures
        aligned(net::network_of(addr, len), net::block_size(prefix)),
        0 <= net::network_of(addr, len) <= addr,
        net::network_of(addr, len) + net::block_size(len) > addr,
{
    let big = net::block_size(len);
    let b = net::block_size(prefix);
    net::block_size_bounds(len);
    net::block_size_bounds(prefix);
    vstd::arithmetic::div_mod::lemma_fundamental_div_mod(addr as int, big);
    let q = addr as int / big;
    assert(net::network_of(addr, len) == big * q);
    block_multiple(len, prefix);
    vstd::arithmetic::div_mod::lemma_fundamental_div_mod(big, b);
    let m = big / b;
    assert(big == b * m);
    assert(big * q == (m * q) * b) by (nonlinear_arith)
        requires
            big == b * m,
    ;
    vstd::arithmetic::div_mod::lemma_mod_multiples_basic(m * q, b);
    vstd::arithmetic::div_mod::lemma_mod_division_less_than_divisor(addr as int, big);
    assert(addr as int % big <= addr) by {
        assert(big * q >= 0) by (nonlinear_arith)
            requires
                big >= 1,
                q >= 0,
        ;
    }
}

/// A network ends at the highest address at the latest.
pub proof fn top_bound(addr: u32, len: u8)
    requires
        len <= 32,
    ensures
        net::broadcast_of(addr, len) <= u32::MAX,
{
    network_aligned(addr, len, len);
    block_multiple(0, len);
    net::block_size_bounds(len);
    vstd::arithmetic::power2::lemma2_to64();
    aligned_gap(net::network_of(addr, len), 0x1_0000_0000, net::block_size(len));
}

pub proof fn network_of_aligned(addr: u32, len: u8)
    requires
        len <= 32,
        aligned(addr as int, net::block_size(len)),
    ensures
        net::network_of(addr, len) == addr,
{
}

// ---------------------------------------------------------------------------
// The search for a free place
// ---------------------------------------------------------------------------

pub proof fn first_free_props(n: int, step: int, top: int, used: Set<int>)
    requires
        n >= 0,
        step >= 1,
    ensures
        subnet::first_free(n, step, top, used) matches Some(r) ==> {
            &&& n <= r <= top
            &&& r <= u32::MAX
            &&& !used.contains(r)
            &&& top < u32::MAX && aligned(n, step) ==> aligned(r, step)
        },
    decreases u32::MAX + 1 - n,
{
    if n <= top && n < u32::MAX && used.contains(n) {
        if n + step > u32::MAX {
            first_free_props(u32::MAX as int, step, top, used);
        } else {
            first_free_props(n + step, step, top, used);
            if aligned(n, step) {
                assert(aligned(step, step)) by {
                    vstd::arithmetic::div_mod::lemma_mod_self_0(step);
                }
                aligned_sum(n, step, step);
            }
        }
    }
}

// ---------------------------------------------------------------------------
// Subnets
// ---------------------------------------------------------------------------

/// Whether an allocation under way is sound: its hosts in order and asked for, its
/// subnets of the right size, in the pool, taken, and no two at one place.
pub open spec fn sound(
    pool: Ipv4Net,
    prefix: u8,
    hosts: Seq<Seq<char>>,
    a: subnet::Allocation<Ipv4Net>,
) -> bool {
    &&& keyed::sorted(a.entries)
    &&& forall|i: int|
        0 <= i < a.entries.len() ==> {
            let e = #[trigger] a.entries[i];
            hosts.contains(e.0) && e.1.prefix() == prefix && pool.holds(e.1.base())
                && a.used.contains(e.1.base())
        }
    &&& forall|i: int, j: int|
        0 <= i < j < a.entries.len() ==> (#[trigger] a.entries[i]).1.base() != (
        #[trigger] a.entries[j]).1.base()
}

proof fn put_sound(
    pool: Ipv4Net,
    prefix: u8,
    hosts: Seq<Seq<char>>,
    a: subnet::Allocation<Ipv4Net>,
    host: Seq<char>,
    n: Ipv4Net,
)
    requires
        sound(pool, prefix, hosts, a),
        hosts.contains(host),
        n.prefix() == prefix,
        pool.holds(n.base()),
        !a.used.contains(n.base()),
    ensures
        sound(
            pool,
            prefix,
            hosts,
            subnet::Allocation {
                entries: keyed::put(a.entries, host, n),
                used: a.used.insert(n.base()),
                warnings: a.warnings,
            },
        ),
{
    let s = a.entries;
    let p = keyed::put(s, host, n);
    let u = a.used.insert(n.base());
    keyed::put_sorted(s, host, n);
    keyed::put_entries(s, host, n);
    keyed::lookup_put(s, host, n, host);
    assert forall|i: int| 0 <= i < p.len() implies {
        let e = #[trigger] p[i];
        hosts.contains(e.0) && e.1.prefix() == prefix && pool.holds(e.1.base()) && u.contains(
            e.1.base(),
        )
    } by {
        if p[i].0 == host {
            keyed::lookup_at(p, i);
        } else {
            let j = choose|j: int| 0 <= j < s.len() && s[j] == p[i];
            assert(s[j] == p[i]);
        }
    }
    assert forall|i: int, j: int| 0 <= i < j < p.len() implies (#[trigger] p[i]).1.base() != (
    #[trigger] p[j]).1.base() by {
        assert(keyed::before(p[i].0, p[j].0));
        keyed::before_irreflexive(p[i].0);
        if p[i].0 == host {
            keyed::lookup_at(p, i);
            let b = choose|b: int| 0 <= b < s.len() && s[b] == p[j];
            assert(a.used.contains(s[b].1.base()));
        } else if p[j].0 == host {
            keyed::lookup_at(p, j);
            let b = choose|b: int| 0 <= b < s.len() && s[b] == p[i];
            assert(a.used.contains(s[b].1.base()));
        } else {
            let x = choose|x: int| 0 <= x < s.len() && s[x] == p[i];
            let y = choose|y: int| 0 <= y < s.len() && s[y] == p[j];
            assert(s[x] == p[i] && s[y] == p[j]);
            if x < y {
                assert(s[x].1.base() != s[y].1.base());
            } else if y < x {
                assert(s[y].1.base() != s[x].1.base());
            }
        }
    }
}

/// What stays is sound.
pub proof fn kept_sound(
    pool: Ipv4Net,
    prefix: u8,
    existing: Seq<(Seq<char>, Ipv4Net)>,
    hosts: Seq<Seq<char>>,
)
    ensures
        sound(pool, prefix, hosts, subnet::kept(pool, prefix, existing, hosts)),
    decreases existing.len(),
{
    if existing.len() > 0 {
        kept_sound(pool, prefix, existing.drop_last(), hosts);
        let k = subnet::kept(pool, prefix, existing.drop_last(), hosts);
        let (host, n) = existing.last();
        if hosts.contains(host) && n.prefix() == prefix && pool.holds(n.base())
            && !k.used.contains(n.base()) {
            put_sound(pool, prefix, hosts, k, host, n);
        }
    }
}

/// How many subnets of the size the pool is made of.
pub open spec fn blocks(pool: Ipv4Net, prefix: u8) -> int {
    net::block_size(pool.prefix()) / net::block_size(prefix)
}

/// Whether the search for a free subnet cannot run into the highest address: the pool ends
/// below it, or it is searched address by address, or there are no more hosts than subnets.
pub open spec fn has_room(
    pool: Ipv4Net,
    prefix: u8,
    existing: Seq<(Seq<char>, Ipv4Net)>,
    hosts: Seq<Seq<char>>,
) -> bool {
    ||| pool.top() < u32::MAX
    ||| prefix == 32
    ||| keyed::sorted(existing) && hosts.len() <= blocks(pool, prefix)
}

/// Whether no more places are taken than there are entries.
pub open spec fn counted(a: subnet::Allocation<Ipv4Net>) -> bool {
    a.used.finite() && a.used.len() <= a.entries.len()
}

/// A new key adds an entry.
pub proof fn put_adds<V>(s: Seq<(Seq<char>, V)>, k: Seq<char>, v: V)
    requires
        keyed::lookup(s, k) is None,
    ensures
        keyed::put(s, k, v).len() == s.len() + 1,
    decreases s.len(),
{
    if s.len() > 0 && !keyed::before(k, s[0].0) {
        put_adds(s.drop_first(), k, v);
    }
}

/// What stays was there before.
pub proof fn kept_from_existing(
    pool: Ipv4Net,
    prefix: u8,
    existing: Seq<(Seq<char>, Ipv4Net)>,
    hosts: Seq<Seq<char>>,
    x: Seq<char>,
)
    requires
        keyed::lookup(subnet::kept(pool, prefix, existing, hosts).entries, x) is Some,
    ensures
        exists|i: int| 0 <= i < existing.len() && (#[trigger] existing[i]).0 == x,
    decreases existing.len(),
{
    if existing.len() > 0 {
        let t = existing.drop_last();
        let k = subnet::kept(pool, prefix, t, hosts);
        let (host, n) = existing.last();
        keyed::lookup_put(k.entries, host, n, x);
        if keyed::lookup(k.entries, x) is Some {
            kept_from_existing(pool, prefix, t, hosts, x);
            let i = choose|i: int| 0 <= i < t.len() && (#[trigger] t[i]).0 == x;
            assert(existing[i] == t[i]);
        } else {
            assert(existing[existing.len() - 1].0 == x);
        }
    }
}

/// What stays takes no more places than it has entries.
pub proof fn kept_counted(
    pool: Ipv4Net,
    prefix: u8,
    existing: Seq<(Seq<char>, Ipv4Net)>,
    hosts: Seq<Seq<char>>,
)
    requires
        keyed::sorted(existing),
    ensures
        counted(subnet::kept(pool, prefix, existing, hosts)),
    decreases existing.len(),
{
    if existing.len() > 0 {
        let t = existing.drop_last();
        let k = subnet::kept(pool, prefix, t, hosts);
        let (host, n) = existing.last();
        kept_counted(pool, prefix, t, hosts);
        if keyed::lookup(k.entries, host) is Some {
            kept_from_existing(pool, prefix, t, hosts, host);
            let i = choose|i: int| 0 <= i < t.len() && (#[trigger] t[i]).0 == host;
            assert(existing[i] == t[i]);
            assert(keyed::before(existing[i].0, existing[existing.len() - 1].0));
            keyed::before_irreflexive(host);
        }
        put_adds(k.entries, host, n);
    }
}

/// Fewer entries than hosts where one of the hosts has none.
pub proof fn entries_are_fewer<V>(
    m: Seq<(Seq<char>, V)>,
    hosts: Seq<Seq<char>>,
    x: Seq<char>,
)
    requires
        keyed::sorted(m),
        forall|i: int| 0 <= i < m.len() ==> hosts.contains((#[trigger] m[i]).0),
        hosts.contains(x),
        keyed::lookup(m, x) is None,
    ensures
        m.len() < hosts.len(),
{
    let ks = keyed::keys(m);
    assert forall|i: int, j: int| 0 <= i < ks.len() && 0 <= j < ks.len() && i != j implies ks[i]
        != ks[j] by {
        keyed::before_irreflexive(ks[i]);
        if i < j {
            assert(keyed::before(m[i].0, m[j].0));
        } else {
            assert(keyed::before(m[j].0, m[i].0));
        }
    }
    ks.unique_seq_to_set();
    hosts.lemma_cardinality_of_set();
    assert(!ks.to_set().contains(x)) by {
        if ks.contains(x) {
            let i = choose|i: int| 0 <= i < ks.len() && ks[i] == x;
            keyed::lookup_at(m, i);
        }
    }
    let more = ks.to_set().insert(x);
    assert(more.subset_of(hosts.to_set())) by {
        assert forall|y: Seq<char>| more.contains(y) implies hosts.to_set().contains(y) by {
            if y != x {
                let i = choose|i: int| 0 <= i < ks.len() && ks[i] == y;
                assert(hosts.contains(m[i].0));
            }
        }
    }
    vstd::set_lib::lemma_len_subset(more, hosts.to_set());
}

/// The first `n` places of a pool.
spec fn first_places(base: int, step: int, n: nat) -> Set<int>
    decreases n,
{
    if n == 0 {
        Set::empty()
    } else {
        first_places(base, step, (n - 1) as nat).insert(base + (n - 1) * step)
    }
}

proof fn first_places_count(base: int, step: int, n: nat)
    requires
        step >= 1,
    ensures
        first_places(base, step, n).finite(),
        first_places(base, step, n).len() == n,
        forall|x: int|
            first_places(base, step, n).contains(x) ==> exists|i: int|
                0 <= i < n && x == base + #[trigger] (i * step),
    decreases n,
{
    if n > 0 {
        let m = (n - 1) as nat;
        first_places_count(base, step, m);
        let x = base + m * step;
        if first_places(base, step, m).contains(x) {
            let i = choose|i: int| 0 <= i < m && x == base + #[trigger] (i * step);
            assert(i * step < m * step) by (nonlinear_arith)
                requires
                    i < m,
                    step >= 1,
            ;
        }
        assert forall|y: int| first_places(base, step, n).contains(y) implies exists|i: int|
            0 <= i < n && y == base + #[trigger] (i * step) by {
            if y == x {
                assert(y == base + m * step);
            } else {
                let i = choose|i: int| 0 <= i < m && y == base + #[trigger] (i * step);
                assert(0 <= i < n && y == base + i * step);
            }
        }
    }
}

/// Where fewer places are taken than there are, one of them is free.
proof fn some_place_is_free(base: int, step: int, n: nat, used: Set<int>) -> (i: int)
    requires
        step >= 1,
        used.finite(),
        used.len() < n,
    ensures
        0 <= i < n,
        !used.contains(base + i * step),
{
    let all = first_places(base, step, n);
    first_places_count(base, step, n);
    if all.subset_of(used) {
        vstd::set_lib::lemma_len_subset(all, used);
    }
    let x = choose|x: int| all.contains(x) && !used.contains(x);
    let i = choose|i: int| 0 <= i < n && x == base + #[trigger] (i * step);
    i
}

/// Where a place is free, the search stops there at the latest, without running into the
/// highest address.
proof fn free_place_is_found(n: int, step: int, top: int, used: Set<int>, k: int)
    requires
        n >= 0,
        step >= 1,
        k >= 0,
        n + k * step <= top <= u32::MAX,
        !used.contains(n + k * step),
        aligned(n, step),
    ensures
        subnet::first_free(n, step, top, used) matches Some(r) && n <= r <= top && aligned(r, step)
            && !used.contains(r),
    decreases k,
{
    assert(k * step >= 0) by (nonlinear_arith)
        requires
            k >= 0,
            step >= 1,
    ;
    if used.contains(n) {
        assert(k > 0) by {
            if k == 0 {
                assert(k * step == 0) by (nonlinear_arith)
                    requires
                        k == 0,
                ;
            }
        }
        assert(k * step == (k - 1) * step + step) by (nonlinear_arith);
        assert((k - 1) * step >= 0) by (nonlinear_arith)
            requires
                k >= 1,
                step >= 1,
        ;
        vstd::arithmetic::div_mod::lemma_mod_self_0(step);
        aligned_sum(n, step, step);
        free_place_is_found(n + step, step, top, used, k - 1);
    }
}

/// In a pool with room the search finds an aligned place.
pub proof fn search_finds(
    pool: Ipv4Net,
    prefix: u8,
    all: Seq<Seq<char>>,
    a: subnet::Allocation<Ipv4Net>,
    x: Seq<char>,
)
    requires
        pool.prefix() <= prefix <= 32,
        sound(pool, prefix, all, a),
        counted(a),
        all.len() <= blocks(pool, prefix),
        all.contains(x),
        keyed::lookup(a.entries, x) is None,
    ensures
        subnet::first_free(pool.base(), net::block_size(prefix), pool.top(), a.used) matches Some(r)
            && aligned(r, net::block_size(prefix)),
{
    let b = net::block_size(prefix);
    let big = net::block_size(pool.prefix());
    let n = blocks(pool, prefix);
    net::block_size_bounds(prefix);
    net::block_size_bounds(pool.prefix());
    block_multiple(pool.prefix(), prefix);
    vstd::arithmetic::div_mod::lemma_fundamental_div_mod(big, b);
    assert(b * n == big);
    entries_are_fewer(a.entries, all, x);
    let i = some_place_is_free(pool.base(), b, n as nat, a.used);
    network_aligned(pool.ip(), pool.prefix(), prefix);
    top_bound(pool.ip(), pool.prefix());
    assert(i * b + b <= b * n) by (nonlinear_arith)
        requires
            i + 1 <= n,
            b >= 1,
    ;
    free_place_is_found(pool.base(), b, pool.top(), a.used, i);
}

/// Filling up keeps an allocation sound.
pub proof fn filled_sound(
    pool: Ipv4Net,
    prefix: u8,
    all: Seq<Seq<char>>,
    k: subnet::Allocation<Ipv4Net>,
    hosts: Seq<Seq<char>>,
)
    requires
        pool.prefix() <= prefix <= 32,
        prefix > 0,
        pool.top() < u32::MAX || prefix == 32 || counted(k) && all.len() <= blocks(pool, prefix),
        forall|i: int| 0 <= i < hosts.len() ==> all.contains(#[trigger] hosts[i]),
        sound(pool, prefix, all, k),
        subnet::filled(pool, prefix, k, hosts) is Some,
    ensures
        sound(pool, prefix, all, subnet::filled(pool, prefix, k, hosts)->0),
        counted(k) ==> counted(subnet::filled(pool, prefix, k, hosts)->0),
    decreases hosts.len(),
{
    broadcast use net::make_parts;

    if hosts.len() > 0 {
        let t = hosts.drop_last();
        assert forall|i: int| 0 <= i < t.len() implies all.contains(#[trigger] t[i]) by {
            assert(t[i] == hosts[i]);
        }
        filled_sound(pool, prefix, all, k, t);
        let a = subnet::filled(pool, prefix, k, t)->0;
        if keyed::lookup(a.entries, hosts.last()) is None {
            let b = net::block_size(prefix);
            net::block_size_bounds(prefix);
            network_aligned(pool.ip(), pool.prefix(), prefix);
            first_free_props(pool.base(), b, pool.top(), a.used);
            let n = subnet::first_free(pool.base(), b, pool.top(), a.used)->0;
            if pool.top() >= u32::MAX {
                if prefix == 32 {
                    vstd::arithmetic::power2::lemma2_to64();
                } else {
                    assert(hosts.last() == hosts[hosts.len() - 1]);
                    search_finds(pool, prefix, all, a, hosts.last());
                }
            }
            put_adds(a.entries, hosts.last(), Ipv4Net::make(n as u32, prefix));
            let made = Ipv4Net::make(n as u32, prefix);
            network_of_aligned(n as u32, prefix);
            assert(made.base() == n);
            put_sound(pool, prefix, all, a, hosts.last(), made);
        }
    }
}

/// Allocated subnets have the asked size, lie in the pool, and no two overlap, where the pool
/// has room. Prefix length zero is left out.
pub proof fn subnets_are_disjoint(
    pool: Ipv4Net,
    prefix: u8,
    existing: Seq<(Seq<char>, Ipv4Net)>,
    hosts: Seq<Seq<char>>,
)
    requires
        has_room(pool, prefix, existing, hosts),
        prefix > 0,
        subnet::allocation(pool, prefix, existing, hosts) is Ok,
    ensures
        ({
            let m = subnet::allocation(pool, prefix, existing, hosts)->Ok_0.0;
            &&& forall|i: int|
                0 <= i < m.len() ==> {
                    let n = (#[trigger] m[i]).1;
                    n.prefix() == prefix && pool.base() <= n.base() && n.top() <= pool.top()
                }
            &&& forall|i: int, j: int|
                0 <= i < j < m.len() ==> (#[trigger] m[i]).1.top() < (#[trigger] m[j]).1.base()
                    || m[j].1.top() < m[i].1.base()
        }),
{
    let k = subnet::kept(pool, prefix, existing, hosts);
    kept_sound(pool, prefix, existing, hosts);
    if keyed::sorted(existing) {
        kept_counted(pool, prefix, existing, hosts);
    }
    assert forall|i: int| 0 <= i < hosts.len() implies hosts.contains(#[trigger] hosts[i]) by {}
    filled_sound(pool, prefix, hosts, k, hosts);
    let a = subnet::filled(pool, prefix, k, hosts)->0;
    let m = a.entries;
    let b = net::block_size(prefix);
    net::block_size_bounds(prefix);
    network_aligned(pool.ip(), pool.prefix(), prefix);
    block_multiple(pool.prefix(), prefix);
    aligned_sum(pool.base(), net::block_size(pool.prefix()), b);
    assert forall|i: int| 0 <= i < m.len() implies {
        let n = (#[trigger] m[i]).1;
        n.prefix() == prefix && pool.base() <= n.base() && n.top() <= pool.top()
    } by {
        let n = m[i].1;
        network_aligned(n.ip(), n.prefix(), prefix);
        aligned_gap(n.base(), pool.top() + 1, b);
    }
    assert forall|i: int, j: int| 0 <= i < j < m.len() implies (#[trigger] m[i]).1.top() < (
    #[trigger] m[j]).1.base() || m[j].1.top() < m[i].1.base() by {
        let x = m[i].1;
        let y = m[j].1;
        network_aligned(x.ip(), x.prefix(), prefix);
        network_aligned(y.ip(), y.prefix(), prefix);
        if x.base() < y.base() {
            aligned_gap(x.base(), y.base(), b);
        } else {
            aligned_gap(y.base(), x.base(), b);
        }
    }
}

proof fn below_top_kept(
    pool: Ipv4Net,
    prefix: u8,
    existing: Seq<(Seq<char>, Ipv4Net)>,
    hosts: Seq<Seq<char>>,
    x: Seq<char>,
)
    ensures
        keyed::lookup(subnet::kept(pool, prefix, existing, hosts).entries, x) matches Some(n)
            ==> n.prefix() == prefix && n.base() <= pool.top(),
    decreases existing.len(),
{
    if existing.len() > 0 {
        below_top_kept(pool, prefix, existing.drop_last(), hosts, x);
        let k = subnet::kept(pool, prefix, existing.drop_last(), hosts);
        let (host, n) = existing.last();
        keyed::lookup_put(k.entries, host, n, x);
    }
}

proof fn below_top_filled(
    pool: Ipv4Net,
    prefix: u8,
    k: subnet::Allocation<Ipv4Net>,
    hosts: Seq<Seq<char>>,
    x: Seq<char>,
)
    requires
        pool.prefix() <= prefix <= 32,
        keyed::lookup(k.entries, x) matches Some(n) ==> n.prefix() == prefix && n.base()
            <= pool.top(),
        subnet::filled(pool, prefix, k, hosts) is Some,
    ensures
        keyed::lookup(subnet::filled(pool, prefix, k, hosts)->0.entries, x) matches Some(n)
            ==> n.prefix() == prefix && n.base() <= pool.top(),
    decreases hosts.len(),
{
    broadcast use net::make_parts;

    if hosts.len() > 0 {
        below_top_filled(pool, prefix, k, hosts.drop_last(), x);
        let a = subnet::filled(pool, prefix, k, hosts.drop_last())->0;
        if keyed::lookup(a.entries, hosts.last()) is None {
            net::block_size_bounds(prefix);
            network_aligned(pool.ip(), pool.prefix(), prefix);
            first_free_props(pool.base(), subnet::step_of(prefix), pool.top(), a.used);
            let n = subnet::first_free(
                pool.base(),
                subnet::step_of(prefix),
                pool.top(),
                a.used,
            )->0;
            network_aligned(n as u32, prefix, prefix);
            keyed::lookup_put(a.entries, hosts.last(), Ipv4Net::make(n as u32, prefix), x);
        }
    }
}

/// An allocated subnet starts below the highest address, so that it has a gateway;
/// single addresses do where the pool ends below it.
pub proof fn allocated_below_top(
    pool: Ipv4Net,
    prefix: u8,
    existing: Seq<(Seq<char>, Ipv4Net)>,
    hosts: Seq<Seq<char>>,
    host: Seq<char>,
)
    requires
        subnet::allocation(pool, prefix, existing, hosts) is Ok,
        keyed::lookup(subnet::allocation(pool, prefix, existing, hosts)->Ok_0.0, host) is Some,
        prefix == 32 ==> pool.top() < u32::MAX,
    ensures
        keyed::lookup(
            subnet::allocation(pool, prefix, existing, hosts)->Ok_0.0,
            host,
        )->0.base() < u32::MAX,
{
    let k = subnet::kept(pool, prefix, existing, hosts);
    below_top_kept(pool, prefix, existing, hosts, host);
    below_top_filled(pool, prefix, k, hosts, host);
    let n = keyed::lookup(
        subnet::allocation(pool, prefix, existing, hosts)->Ok_0.0,
        host,
    )->0;
    if prefix < 32 {
        network_aligned(n.ip(), prefix, prefix);
        block_multiple(0, prefix);
        net::block_size_bounds(prefix);
        vstd::arithmetic::power2::lemma2_to64();
        vstd::arithmetic::power2::lemma_pow2_strictly_increases(0, (32 - prefix) as nat);
        aligned_gap(n.base(), 0x1_0000_0000, net::block_size(prefix));
    }
}

/// Whether the hosts of an allocation under way stand in order and are asked for.
spec fn in_place(hosts: Seq<Seq<char>>, m: Seq<(Seq<char>, Ipv4Net)>) -> bool {
    keyed::sorted(m) && forall|i: int| 0 <= i < m.len() ==> hosts.contains((#[trigger] m[i]).0)
}

proof fn put_in_place(hosts: Seq<Seq<char>>, m: Seq<(Seq<char>, Ipv4Net)>, h: Seq<char>, n: Ipv4Net)
    requires
        in_place(hosts, m),
        hosts.contains(h),
    ensures
        in_place(hosts, keyed::put(m, h, n)),
{
    keyed::put_sorted(m, h, n);
    keyed::put_entries(m, h, n);
    let p = keyed::put(m, h, n);
    assert forall|i: int| 0 <= i < p.len() implies hosts.contains((#[trigger] p[i]).0) by {
        if p[i].0 != h {
            let j = choose|j: int| 0 <= j < m.len() && m[j] == p[i];
            assert(hosts.contains(m[j].0));
        }
    }
}

proof fn filled_in_place(
    pool: Ipv4Net,
    prefix: u8,
    all: Seq<Seq<char>>,
    k: subnet::Allocation<Ipv4Net>,
    hosts: Seq<Seq<char>>,
)
    requires
        in_place(all, k.entries),
        forall|i: int| 0 <= i < hosts.len() ==> all.contains(#[trigger] hosts[i]),
        subnet::filled(pool, prefix, k, hosts) is Some,
    ensures
        in_place(all, subnet::filled(pool, prefix, k, hosts)->0.entries),
    decreases hosts.len(),
{
    if hosts.len() > 0 {
        let t = hosts.drop_last();
        assert forall|i: int| 0 <= i < t.len() implies all.contains(#[trigger] t[i]) by {
            assert(t[i] == hosts[i]);
        }
        filled_in_place(pool, prefix, all, k, t);
        let a = subnet::filled(pool, prefix, k, t)->0;
        assert(hosts.last() == hosts[hosts.len() - 1]);
        if keyed::lookup(a.entries, hosts.last()) is None {
            let n = subnet::first_free(
                pool.base(),
                subnet::step_of(prefix),
                pool.top(),
                a.used,
            )->0;
            put_in_place(all, a.entries, hosts.last(), Ipv4Net::make(n as u32, prefix));
        }
    }
}

/// The hosts of a successful allocation are those asked for, in order.
pub proof fn allocation_hosts(
    pool: Ipv4Net,
    prefix: u8,
    existing: Seq<(Seq<char>, Ipv4Net)>,
    hosts: Seq<Seq<char>>,
    host: Seq<char>,
)
    requires
        subnet::allocation(pool, prefix, existing, hosts) is Ok,
    ensures
        keyed::sorted(subnet::allocation(pool, prefix, existing, hosts)->Ok_0.0),
        keyed::lookup(subnet::allocation(pool, prefix, existing, hosts)->Ok_0.0, host) is Some
            <==> hosts.contains(host),
{
    let k = subnet::kept(pool, prefix, existing, hosts);
    kept_sound(pool, prefix, existing, hosts);
    assert forall|i: int| 0 <= i < hosts.len() implies hosts.contains(#[trigger] hosts[i]) by {}
    filled_in_place(pool, prefix, hosts, k, hosts);
    let m = subnet::filled(pool, prefix, k, hosts)->0.entries;
    keyed::lookup_some(m, host);
    if hosts.contains(host) {
        subnet::allocation_covers(pool, prefix, existing, hosts, host);
    }
}

/// The places of the entries.
spec fn places(m: Seq<(Seq<char>, Ipv4Net)>) -> Set<int> {
    Set::new(|x: int| exists|i: int| 0 <= i < m.len() && (#[trigger] m[i]).1.base() == x)
}

proof fn kept_of_sound(
    pool: Ipv4Net,
    prefix: u8,
    hosts: Seq<Seq<char>>,
    a: subnet::Allocation<Ipv4Net>,
    n: int,
)
    requires
        sound(pool, prefix, hosts, a),
        0 <= n <= a.entries.len(),
    ensures
        ({
            let k = subnet::kept(pool, prefix, a.entries.take(n), hosts);
            k.entries == a.entries.take(n) && k.warnings.len() == 0 && k.used =~= places(
                a.entries.take(n),
            )
        }),
    decreases n,
{
    let m = a.entries;
    if n > 0 {
        kept_of_sound(pool, prefix, hosts, a, n - 1);
        let s = m.take(n - 1);
        assert(m.take(n).drop_last() =~= s);
        assert(m.take(n).last() == m[n - 1]);
        assert forall|i: int| 0 <= i < s.len() implies keyed::before(
            (#[trigger] s[i]).0,
            m[n - 1].0,
        ) by {
            assert(s[i] == m[i]);
        }
        keyed::put_at_end(s, m[n - 1].0, m[n - 1].1);
        assert(s.push(m[n - 1]) =~= m.take(n));
        assert(!places(s).contains(m[n - 1].1.base())) by {
            if places(s).contains(m[n - 1].1.base()) {
                let i = choose|i: int|
                    0 <= i < s.len() && (#[trigger] s[i]).1.base() == m[n - 1].1.base();
                assert(s[i] == m[i]);
                assert(m[i].1.base() != m[n - 1].1.base());
            }
        }
        assert(places(m.take(n)) =~= places(s).insert(m[n - 1].1.base())) by {
            assert forall|x: int| places(m.take(n)).contains(x) <==> places(s).insert(
                m[n - 1].1.base(),
            ).contains(x) by {
                if places(s).contains(x) {
                    let i = choose|i: int| 0 <= i < s.len() && (#[trigger] s[i]).1.base() == x;
                    assert(m.take(n)[i] == s[i]);
                }
                if x == m[n - 1].1.base() {
                    assert(m.take(n)[n - 1].1.base() == x);
                }
                if places(m.take(n)).contains(x) {
                    let i = choose|i: int|
                        0 <= i < m.take(n).len() && (#[trigger] m.take(n)[i]).1.base() == x;
                    if i < n - 1 {
                        assert(s[i] == m.take(n)[i]);
                    }
                }
            }
        }
    } else {
        assert(m.take(0) =~= Seq::empty());
        assert(places(m.take(0)) =~= Set::empty());
    }
}

proof fn filled_of_full(
    pool: Ipv4Net,
    prefix: u8,
    k: subnet::Allocation<Ipv4Net>,
    hosts: Seq<Seq<char>>,
)
    requires
        forall|i: int|
            0 <= i < hosts.len() ==> keyed::lookup(k.entries, #[trigger] hosts[i]) is Some,
    ensures
        subnet::filled(pool, prefix, k, hosts) == Some(k),
    decreases hosts.len(),
{
    if hosts.len() > 0 {
        let t = hosts.drop_last();
        assert forall|i: int| 0 <= i < t.len() implies keyed::lookup(
            k.entries,
            #[trigger] t[i],
        ) is Some by {
            assert(t[i] == hosts[i]);
        }
        filled_of_full(pool, prefix, k, t);
        assert(hosts.last() == hosts[hosts.len() - 1]);
    }
}

/// A second run on the result of a first changes nothing and notes nothing, where the pool
/// has room. Prefix length zero is left out.
pub proof fn allocation_is_stable(
    pool: Ipv4Net,
    prefix: u8,
    existing: Seq<(Seq<char>, Ipv4Net)>,
    hosts: Seq<Seq<char>>,
)
    requires
        has_room(pool, prefix, existing, hosts),
        prefix > 0,
        subnet::allocation(pool, prefix, existing, hosts) is Ok,
    ensures
        ({
            let m = subnet::allocation(pool, prefix, existing, hosts)->Ok_0.0;
            subnet::allocation(pool, prefix, m, hosts) == Ok::<
                (Seq<(Seq<char>, Ipv4Net)>, Seq<subnet::WarningView>),
                Seq<char>,
            >((m, Seq::empty()))
        }),
{
    let k = subnet::kept(pool, prefix, existing, hosts);
    kept_sound(pool, prefix, existing, hosts);
    if keyed::sorted(existing) {
        kept_counted(pool, prefix, existing, hosts);
    }
    assert forall|i: int| 0 <= i < hosts.len() implies hosts.contains(#[trigger] hosts[i]) by {}
    filled_sound(pool, prefix, hosts, k, hosts);
    let a = subnet::filled(pool, prefix, k, hosts)->0;
    let m = a.entries;
    kept_of_sound(pool, prefix, hosts, a, m.len() as int);
    assert(m.take(m.len() as int) =~= m);
    let again = subnet::kept(pool, prefix, m, hosts);
    assert forall|i: int| 0 <= i < hosts.len() implies keyed::lookup(
        again.entries,
        #[trigger] hosts[i],
    ) is Some by {
        subnet::allocation_covers(pool, prefix, existing, hosts, hosts[i]);
    }
    filled_of_full(pool, prefix, again, hosts);
    assert(again.warnings =~= Seq::empty());
}

/// An existing subnet of the right size and place whose place no earlier host has
/// stays with its host.
pub proof fn valid_subnets_stay(
    pool: Ipv4Net,
    prefix: u8,
    existing: Seq<(Seq<char>, Ipv4Net)>,
    hosts: Seq<Seq<char>>,
    i: int,
)
    requires
        keyed::sorted(existing),
        0 <= i < existing.len(),
        hosts.contains(existing[i].0),
        existing[i].1.prefix() == prefix,
        pool.holds(existing[i].1.base()),
        forall|j: int|
            0 <= j < i ==> (#[trigger] existing[j]).1.base() != existing[i].1.base(),
        subnet::allocation(pool, prefix, existing, hosts) is Ok,
    ensures
        keyed::lookup(subnet::allocation(pool, prefix, existing, hosts)->Ok_0.0, existing[i].0)
            == Some(existing[i].1),
{
    kept_has(pool, prefix, existing, hosts, i, existing.len() as int);
    assert(existing.take(existing.len() as int) =~= existing);
    subnet::filled_keeps_entry(
        pool,
        prefix,
        subnet::kept(pool, prefix, existing, hosts),
        hosts,
        existing[i].0,
    );
}

/// What is taken by what stays was there before.
pub proof fn kept_used(
    pool: Ipv4Net,
    prefix: u8,
    existing: Seq<(Seq<char>, Ipv4Net)>,
    hosts: Seq<Seq<char>>,
    x: int,
)
    requires
        subnet::kept(pool, prefix, existing, hosts).used.contains(x),
    ensures
        exists|j: int| 0 <= j < existing.len() && (#[trigger] existing[j]).1.base() == x,
    decreases existing.len(),
{
    if existing.len() > 0 {
        let t = existing.drop_last();
        if subnet::kept(pool, prefix, t, hosts).used.contains(x) {
            kept_used(pool, prefix, t, hosts, x);
            let j = choose|j: int| 0 <= j < t.len() && (#[trigger] t[j]).1.base() == x;
            assert(existing[j] == t[j]);
        } else {
            assert(existing[existing.len() - 1].1.base() == x);
        }
    }
}

proof fn kept_has(
    pool: Ipv4Net,
    prefix: u8,
    existing: Seq<(Seq<char>, Ipv4Net)>,
    hosts: Seq<Seq<char>>,
    i: int,
    n: int,
)
    requires
        keyed::sorted(existing),
        0 <= i < n <= existing.len(),
        hosts.contains(existing[i].0),
        existing[i].1.prefix() == prefix,
        pool.holds(existing[i].1.base()),
        forall|j: int|
            0 <= j < i ==> (#[trigger] existing[j]).1.base() != existing[i].1.base(),
    ensures
        keyed::lookup(
            subnet::kept(pool, prefix, existing.take(n), hosts).entries,
            existing[i].0,
        ) == Some(existing[i].1),
    decreases n,
{
    let t = existing.take(n);
    let s = existing.take(n - 1);
    assert(t.drop_last() =~= s);
    assert(t.last() == existing[n - 1]);
    let k = subnet::kept(pool, prefix, s, hosts);
    keyed::lookup_put(k.entries, existing[n - 1].0, existing[n - 1].1, existing[i].0);
    if i == n - 1 {
        if k.used.contains(existing[i].1.base()) {
            kept_used(pool, prefix, s, hosts, existing[i].1.base());
            let j = choose|j: int|
                0 <= j < s.len() && (#[trigger] s[j]).1.base() == existing[i].1.base();
            assert(existing[j] == s[j]);
        }
    } else {
        kept_has(pool, prefix, existing, hosts, i, n - 1);
        assert(keyed::before(existing[i].0, existing[n - 1].0));
        keyed::before_irreflexive(existing[i].0);
    }
}

// ---------------------------------------------------------------------------
// Management addresses
// ---------------------------------------------------------------------------

/// Whether an address allocation under way is sound: its hosts in order and asked for,
/// its addresses strictly inside the pool, taken, and no two equal.
pub open spec fn sound_ips(
    pool: Ipv4Net,
    hosts: Seq<Seq<char>>,
    a: subnet::Allocation<u32>,
) -> bool {
    &&& keyed::sorted(a.entries)
    &&& forall|i: int|
        0 <= i < a.entries.len() ==> {
            let e = #[trigger] a.entries[i];
            hosts.contains(e.0) && pool.base() < e.1 < pool.top() && a.used.contains(e.1 as int)
        }
    &&& forall|i: int, j: int|
        0 <= i < j < a.entries.len() ==> (#[trigger] a.entries[i]).1 != (
        #[trigger] a.entries[j]).1
}

proof fn put_sound_ips(
    pool: Ipv4Net,
    hosts: Seq<Seq<char>>,
    a: subnet::Allocation<u32>,
    host: Seq<char>,
    n: u32,
)
    requires
        sound_ips(pool, hosts, a),
        hosts.contains(host),
        pool.base() < n < pool.top(),
        !a.used.contains(n as int),
    ensures
        sound_ips(
            pool,
            hosts,
            subnet::Allocation {
                entries: keyed::put(a.entries, host, n),
                used: a.used.insert(n as int),
                warnings: a.warnings,
            },
        ),
{
    let s = a.entries;
    let p = keyed::put(s, host, n);
    let u = a.used.insert(n as int);
    keyed::put_sorted(s, host, n);
    keyed::put_entries(s, host, n);
    keyed::lookup_put(s, host, n, host);
    assert forall|i: int| 0 <= i < p.len() implies {
        let e = #[trigger] p[i];
        hosts.contains(e.0) && pool.base() < e.1 < pool.top() && u.contains(e.1 as int)
    } by {
        if p[i].0 == host {
            keyed::lookup_at(p, i);
        } else {
            let j = choose|j: int| 0 <= j < s.len() && s[j] == p[i];
            assert(s[j] == p[i]);
        }
    }
    assert forall|i: int, j: int| 0 <= i < j < p.len() implies (#[trigger] p[i]).1 != (
    #[trigger] p[j]).1 by {
        assert(keyed::before(p[i].0, p[j].0));
        keyed::before_irreflexive(p[i].0);
        if p[i].0 == host {
            keyed::lookup_at(p, i);
            let b = choose|b: int| 0 <= b < s.len() && s[b] == p[j];
            assert(a.used.contains(s[b].1 as int));
        } else if p[j].0 == host {
            keyed::lookup_at(p, j);
            let b = choose|b: int| 0 <= b < s.len() && s[b] == p[i];
            assert(a.used.contains(s[b].1 as int));
        } else {
            let x = choose|x: int| 0 <= x < s.len() && s[x] == p[i];
            let y = choose|y: int| 0 <= y < s.len() && s[y] == p[j];
            assert(s[x] == p[i] && s[y] == p[j]);
            if x < y {
                assert(s[x].1 != s[y].1);
            } else if y < x {
                assert(s[y].1 != s[x].1);
            }
        }
    }
}

/// What addresses stay are sound.
pub proof fn kept_ips_sound(pool: Ipv4Net, existing: Seq<(Seq<char>, u32)>, hosts: Seq<Seq<char>>)
    ensures
        sound_ips(pool, hosts, subnet::kept_ips(pool, existing, hosts)),
    decreases existing.len(),
{
    if existing.len() > 0 {
        kept_ips_sound(pool, existing.drop_last(), hosts);
        let k = subnet::kept_ips(pool, existing.drop_last(), hosts);
        let (host, ip) = existing.last();
        if hosts.contains(host) && pool.base() < ip < pool.top() && !k.used.contains(ip as int) {
            put_sound_ips(pool, hosts, k, host, ip);
        }
    }
}

/// Filling up keeps an allocation of addresses sound.
pub proof fn filled_ips_sound(
    pool: Ipv4Net,
    all: Seq<Seq<char>>,
    k: subnet::Allocation<u32>,
    hosts: Seq<Seq<char>>,
)
    requires
        pool.prefix() <= 32,
        forall|i: int| 0 <= i < hosts.len() ==> all.contains(#[trigger] hosts[i]),
        sound_ips(pool, all, k),
        subnet::filled_ips(pool, k, hosts) is Some,
    ensures
        sound_ips(pool, all, subnet::filled_ips(pool, k, hosts)->0),
        forall|x: Seq<char>|
            hosts.contains(x) || keyed::lookup(k.entries, x) is Some
                ==> #[trigger] keyed::lookup(
                subnet::filled_ips(pool, k, hosts)->0.entries,
                x,
            ) is Some,
    decreases hosts.len(),
{
    if hosts.len() > 0 {
        let t = hosts.drop_last();
        assert forall|i: int| 0 <= i < t.len() implies all.contains(#[trigger] t[i]) by {
            assert(t[i] == hosts[i]);
        }
        filled_ips_sound(pool, all, k, t);
        let a = subnet::filled_ips(pool, k, t)->0;
        let r = subnet::filled_ips(pool, k, hosts)->0;
        let first = subnet::first_host(pool);
        network_aligned(pool.ip(), pool.prefix(), pool.prefix());
        top_bound(pool.ip(), pool.prefix());
        first_free_props(first, 1, pool.top() - 1, a.used);
        let n = subnet::first_free(first, 1, pool.top() - 1, a.used)->0;
        if keyed::lookup(a.entries, hosts.last()) is None {
            put_sound_ips(pool, all, a, hosts.last(), n as u32);
        }
        assert forall|x: Seq<char>|
            hosts.contains(x) || keyed::lookup(k.entries, x) is Some implies
            #[trigger] keyed::lookup(r.entries, x) is Some by {
            if x != hosts.last() && hosts.contains(x) {
                let i = choose|i: int| 0 <= i < hosts.len() && hosts[i] == x;
                assert(t[i] == x);
            }
            keyed::lookup_put(a.entries, hosts.last(), n as u32, x);
        }
    }
}

/// Management addresses lie strictly between the network's own and the broadcast
/// address, no two hosts share one, and exactly the hosts asked for have one.
pub proof fn mgmt_ips_are_distinct(
    pool: Ipv4Net,
    existing: Seq<(Seq<char>, u32)>,
    hosts: Seq<Seq<char>>,
)
    requires
        pool.prefix() <= 32,
        subnet::ip_allocation(pool, existing, hosts) is Ok,
    ensures
        ({
            let m = subnet::ip_allocation(pool, existing, hosts)->Ok_0.0;
            &&& forall|i: int|
                0 <= i < m.len() ==> pool.base() < (#[trigger] m[i]).1 < pool.top()
            &&& forall|i: int, j: int|
                0 <= i < j < m.len() ==> (#[trigger] m[i]).1 != (#[trigger] m[j]).1
            &&& forall|x: Seq<char>|
                #[trigger] keyed::lookup(m, x) is Some <==> hosts.contains(x)
        }),
{
    let k = subnet::kept_ips(pool, existing, hosts);
    kept_ips_sound(pool, existing, hosts);
    assert forall|i: int| 0 <= i < hosts.len() implies hosts.contains(#[trigger] hosts[i]) by {}
    filled_ips_sound(pool, hosts, k, hosts);
    let m = subnet::filled_ips(pool, k, hosts)->0.entries;
    assert forall|x: Seq<char>| #[trigger]
        keyed::lookup(m, x) is Some <==> hosts.contains(x) by {
        keyed::lookup_some(m, x);
    }
}

spec fn ip_places(m: Seq<(Seq<char>, u32)>) -> Set<int> {
    Set::new(|x: int| exists|i: int| 0 <= i < m.len() && (#[trigger] m[i]).1 == x)
}

proof fn kept_of_sound_ips(
    pool: Ipv4Net,
    hosts: Seq<Seq<char>>,
    a: subnet::Allocation<u32>,
    n: int,
)
    requires
        sound_ips(pool, hosts, a),
        0 <= n <= a.entries.len(),
    ensures
        ({
            let k = subnet::kept_ips(pool, a.entries.take(n), hosts);
            k.entries == a.entries.take(n) && k.warnings.len() == 0 && k.used =~= ip_places(
                a.entries.take(n),
            )
        }),
    decreases n,
{
    let m = a.entries;
    if n > 0 {
        kept_of_sound_ips(pool, hosts, a, n - 1);
        let s = m.take(n - 1);
        assert(m.take(n).drop_last() =~= s);
        assert(m.take(n).last() == m[n - 1]);
        assert forall|i: int| 0 <= i < s.len() implies keyed::before(
            (#[trigger] s[i]).0,
            m[n - 1].0,
        ) by {
            assert(s[i] == m[i]);
        }
        keyed::put_at_end(s, m[n - 1].0, m[n - 1].1);
        assert(s.push(m[n - 1]) =~= m.take(n));
        let last = m[n - 1].1 as int;
        assert(!ip_places(s).contains(last)) by {
            if ip_places(s).contains(last) {
                let i = choose|i: int| 0 <= i < s.len() && (#[trigger] s[i]).1 == last;
                assert(s[i] == m[i]);
                assert(m[i].1 != m[n - 1].1);
            }
        }
        assert(ip_places(m.take(n)) =~= ip_places(s).insert(last)) by {
            assert forall|x: int| ip_places(m.take(n)).contains(x) <==> ip_places(s).insert(
                last,
            ).contains(x) by {
                if ip_places(s).contains(x) {
                    let i = choose|i: int| 0 <= i < s.len() && (#[trigger] s[i]).1 == x;
                    assert(m.take(n)[i] == s[i]);
                }
                if x == last {
                    assert(m.take(n)[n - 1].1 == x);
                }
                if ip_places(m.take(n)).contains(x) {
                    let i = choose|i: int|
                        0 <= i < m.take(n).len() && (#[trigger] m.take(n)[i]).1 == x;
                    if i < n - 1 {
                        assert(s[i] == m.take(n)[i]);
                    }
                }
            }
        }
    } else {
        assert(m.take(0) =~= Seq::empty());
        assert(ip_places(m.take(0)) =~= Set::empty());
    }
}

proof fn filled_ips_of_full(pool: Ipv4Net, k: subnet::Allocation<u32>, hosts: Seq<Seq<char>>)
    requires
        forall|i: int|
            0 <= i < hosts.len() ==> keyed::lookup(k.entries, #[trigger] hosts[i]) is Some,
    ensures
        subnet::filled_ips(pool, k, hosts) == Some(k),
    decreases hosts.len(),
{
    if hosts.len() > 0 {
        let t = hosts.drop_last();
        assert forall|i: int| 0 <= i < t.len() implies keyed::lookup(
            k.entries,
            #[trigger] t[i],
        ) is Some by {
            assert(t[i] == hosts[i]);
        }
        filled_ips_of_full(pool, k, t);
        assert(hosts.last() == hosts[hosts.len() - 1]);
    }
}

/// A second run on the addresses of a first changes nothing and notes nothing.
pub proof fn mgmt_allocation_is_stable(
    pool: Ipv4Net,
    existing: Seq<(Seq<char>, u32)>,
    hosts: Seq<Seq<char>>,
)
    requires
        pool.prefix() <= 32,
        subnet::ip_allocation(pool, existing, hosts) is Ok,
    ensures
        ({
            let m = subnet::ip_allocation(pool, existing, hosts)->Ok_0.0;
            subnet::ip_allocation(pool, m, hosts) == Ok::<
                (Seq<(Seq<char>, u32)>, Seq<subnet::WarningView>),
                Seq<char>,
            >((m, Seq::empty()))
        }),
{
    let k = subnet::kept_ips(pool, existing, hosts);
    kept_ips_sound(pool, existing, hosts);
    assert forall|i: int| 0 <= i < hosts.len() implies hosts.contains(#[trigger] hosts[i]) by {}
    filled_ips_sound(pool, hosts, k, hosts);
    let a = subnet::filled_ips(pool, k, hosts)->0;
    let m = a.entries;
    kept_of_sound_ips(pool, hosts, a, m.len() as int);
    assert(m.take(m.len() as int) =~= m);
    let again = subnet::kept_ips(pool, m, hosts);
    assert forall|i: int| 0 <= i < hosts.len() implies keyed::lookup(
        again.entries,
        #[trigger] hosts[i],
    ) is Some by {
        assert(hosts.contains(hosts[i]));
    }
    filled_ips_of_full(pool, again, hosts);
    assert(again.warnings =~= Seq::empty());
}

} // verus!
