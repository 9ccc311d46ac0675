//! Which addresses and subnets hosts get, and when there is none for them.

use vstd::prelude::*;
use crate::cli::plan;
use crate::keyed;
use crate::mesh::state;
use crate::mesh::state::{DesiredMesh, NamespaceView, ServerView};
use crate::mesh::subnet;
use crate::mesh::subnet::{Allocation, WarningView};
use crate::mesh::subnet_laws;
use crate::net;
use crate::net::Ipv4Net;
use crate::text;

verus! {

// ---------------------------------------------------------------------------
// The search
// ---------------------------------------------------------------------------

/// The search passes over what is taken, and over nothing else.
proof fn search_passes_the_taken(n: int, step: int, top: int, used: Set<int>, i: int)
    requires
        n >= 0,
        step >= 1,
        i >= 0,
        top <= u32::MAX,
        match subnet::first_free(n, step, top, used) {
            Some(r) => n + i * step < r,
            None => n + i * step <= top,
        },
    ensures
        used.contains(n + i * step),
    decreases i,
{
    assert(i * step >= 0) by (nonlinear_arith)
        requires
            i >= 0,
            step >= 1,
    ;
    if i == 0 {
        assert(i * step == 0) by (nonlinear_arith)
            requires
                i == 0,
        ;
    } else {
        assert(i * step == (i - 1) * step + step) by (nonlinear_arith);
        assert((i - 1) * step >= 0) by (nonlinear_arith)
            requires
                i >= 1,
                step >= 1,
        ;
        free_is_in_range(n, step, top, used);
        assert(used.contains(n));
        assert(n + step <= top);
        search_passes_the_taken(n + step, step, top, used, i - 1);
    }
}

proof fn free_is_in_range(n: int, step: int, top: int, used: Set<int>)
    requires
        n >= 0,
        step >= 1,
    ensures
        subnet::first_free(n, step, top, used) matches Some(r) ==> n <= r <= top && r <= u32::MAX
            && !used.contains(r),
    decreases u32::MAX + 1 - n,
{
    if n <= top && n < u32::MAX && used.contains(n) {
        if n + step > u32::MAX {
            free_is_in_range(u32::MAX as int, step, top, used);
        } else {
            free_is_in_range(n + step, step, top, used);
        }
    }
}

proof fn repeat_is_a_repeat(hosts: Seq<Seq<char>>, i: int)
    requires
        0 <= i,
        subnet::first_repeat(hosts, i) is Some,
    ensures
        exists|a: int, b: int| 0 <= a < b < hosts.len() && #[trigger] hosts[a] == #[trigger] hosts[b],
    decreases hosts.len() - i,
{
    if i < hosts.len() {
        if hosts.take(i).contains(hosts[i]) {
            let a = choose|a: int| 0 <= a < i && hosts.take(i)[a] == hosts[i];
            assert(hosts[a] == hosts[i]);
        } else {
            repeat_is_a_repeat(hosts, i + 1);
        }
    }
}

// ---------------------------------------------------------------------------
// Management addresses
// ---------------------------------------------------------------------------

/// Whether some host has this address.
spec fn has_address(m: Seq<(Seq<char>, u32)>, y: int) -> bool {
    exists|x: Seq<char>|
        (#[trigger] keyed::lookup(m, x)) is Some && keyed::lookup(m, x)->0 as int == y
}

/// Whether what is taken is taken by an entry.
spec fn held(a: Allocation<u32>) -> bool {
    forall|y: int| (#[trigger] a.used.contains(y)) ==> has_address(a.entries, y)
}

proof fn put_is_held(a: Allocation<u32>, host: Seq<char>, ip: u32)
    requires
        held(a),
        keyed::lookup(a.entries, host) is None,
    ensures
        held(
            Allocation {
                entries: keyed::put(a.entries, host, ip),
                used: a.used.insert(ip as int),
                warnings: a.warnings,
            },
        ),
{
    let r = Allocation {
        entries: keyed::put(a.entries, host, ip),
        used: a.used.insert(ip as int),
        warnings: a.warnings,
    };
    assert forall|y: int| #[trigger] r.used.contains(y) implies has_address(r.entries, y) by {
        if y == ip as int {
            keyed::lookup_put(a.entries, host, ip, host);
            assert(keyed::lookup(r.entries, host) is Some);
        } else {
            assert(a.used.contains(y));
            let x = choose|x: Seq<char>|
                (#[trigger] keyed::lookup(a.entries, x)) is Some && keyed::lookup(
                    a.entries,
                    x,
                )->0 as int == y;
            keyed::lookup_put(a.entries, host, ip, x);
            assert(keyed::lookup(r.entries, x) is Some);
        }
    }
}

proof fn kept_ips_from_existing(
    pool: Ipv4Net,
    existing: Seq<(Seq<char>, u32)>,
    hosts: Seq<Seq<char>>,
    x: Seq<char>,
)
    requires
        keyed::lookup(subnet::kept_ips(pool, existing, hosts).entries, x) is Some,
    ensures
        exists|i: int| 0 <= i < existing.len() && (#[trigger] existing[i]).0 == x,
    decreases existing.len(),
{
    if existing.len() > 0 {
        let t = existing.drop_last();
        let k = subnet::kept_ips(pool, t, hosts);
        let (host, ip) = existing.last();
        keyed::lookup_put(k.entries, host, ip, x);
        if keyed::lookup(k.entries, x) is Some {
            kept_ips_from_existing(pool, t, hosts, x);
            let i = choose|i: int| 0 <= i < t.len() && (#[trigger] t[i]).0 == x;
            assert(existing[i] == t[i]);
        } else {
            assert(existing[existing.len() - 1].0 == x);
        }
    }
}

proof fn last_is_new(pool: Ipv4Net, existing: Seq<(Seq<char>, u32)>, hosts: Seq<Seq<char>>)
    requires
        keyed::sorted(existing),
        existing.len() > 0,
    ensures
        keyed::lookup(
            subnet::kept_ips(pool, existing.drop_last(), hosts).entries,
            existing.last().0,
        ) is None,
{
    let t = existing.drop_last();
    let host = existing.last().0;
    if keyed::lookup(subnet::kept_ips(pool, t, hosts).entries, host) is Some {
        kept_ips_from_existing(pool, t, hosts, host);
        let i = choose|i: int| 0 <= i < t.len() && (#[trigger] t[i]).0 == host;
        assert(existing[i] == t[i]);
        assert(keyed::before(existing[i].0, existing[existing.len() - 1].0));
        keyed::before_irreflexive(host);
    }
}

proof fn kept_ips_hold(pool: Ipv4Net, existing: Seq<(Seq<char>, u32)>, hosts: Seq<Seq<char>>)
    requires
        keyed::sorted(existing),
    ensures
        held(subnet::kept_ips(pool, existing, hosts)),
        subnet::kept_ips(pool, existing, hosts).used.finite(),
        subnet::kept_ips(pool, existing, hosts).used.len() <= subnet::kept_ips(
            pool,
            existing,
            hosts,
        ).entries.len(),
    decreases existing.len(),
{
    if existing.len() > 0 {
        let t = existing.drop_last();
        let k = subnet::kept_ips(pool, t, hosts);
        let (host, ip) = existing.last();
        kept_ips_hold(pool, t, hosts);
        last_is_new(pool, existing, hosts);
        put_is_held(k, host, ip);
        subnet_laws::put_adds(k.entries, host, ip);
    }
}

/// What holds while the hosts get their addresses.
proof fn filled_ips_hold(pool: Ipv4Net, k: Allocation<u32>, hosts: Seq<Seq<char>>)
    requires
        pool.prefix() <= 32,
        held(k),
        k.used.finite(),
        k.used.len() <= k.entries.len(),
        subnet::filled_ips(pool, k, hosts) is Some,
    ensures
        ({
            let a = subnet::filled_ips(pool, k, hosts)->0;
            &&& held(a)
            &&& a.used.finite() && a.used.len() <= a.entries.len()
            &&& forall|y: int| k.used.contains(y) ==> a.used.contains(y)
            &&& forall|x: Seq<char>| #[trigger]
                keyed::lookup(k.entries, x) is Some ==> keyed::lookup(a.entries, x)
                    == keyed::lookup(k.entries, x)
            &&& forall|x: Seq<char>, y: int|
                #![trigger keyed::lookup(a.entries, x), a.used.contains(y)]
                keyed::lookup(k.entries, x) is None && keyed::lookup(a.entries, x) is Some
                    && pool.base() < y < keyed::lookup(a.entries, x)->0 ==> a.used.contains(y)
            &&& a.warnings == k.warnings
        }),
    decreases hosts.len(),
{
    if hosts.len() > 0 {
        let t = hosts.drop_last();
        filled_ips_hold(pool, k, t);
        let a = subnet::filled_ips(pool, k, t)->0;
        let r = subnet::filled_ips(pool, k, hosts)->0;
        let host = hosts.last();
        if keyed::lookup(a.entries, host) is None {
            net::block_size_bounds(pool.prefix());
            pool_is_in_range(pool);
            let first = subnet::first_host(pool);
            let n = subnet::first_free(first, 1, pool.top() - 1, a.used)->0;
            free_is_in_range(first, 1, pool.top() - 1, a.used);
            put_is_held(a, host, n as u32);
            subnet_laws::put_adds(a.entries, host, n as u32);
            assert forall|x: Seq<char>| #[trigger] keyed::lookup(k.entries, x) is Some implies
                keyed::lookup(r.entries, x) == keyed::lookup(k.entries, x) by {
                keyed::lookup_put(a.entries, host, n as u32, x);
            }
            assert forall|x: Seq<char>, y: int|
                #![trigger keyed::lookup(r.entries, x), r.used.contains(y)]
                keyed::lookup(k.entries, x) is None && keyed::lookup(r.entries, x) is Some
                    && pool.base() < y < keyed::lookup(r.entries, x)->0 implies r.used.contains(
                y,
            ) by {
                keyed::lookup_put(a.entries, host, n as u32, x);
                if x == host {
                    search_passes_the_taken(first, 1, pool.top() - 1, a.used, y - first);
                    assert((y - first) * 1 == y - first);
                } else {
                    assert(keyed::lookup(a.entries, x) is Some);
                    assert(a.used.contains(y));
                }
            }
        }
    }
}

proof fn pool_is_in_range(pool: Ipv4Net)
    requires
        pool.prefix() <= 32,
    ensures
        0 <= pool.base() <= pool.top() <= u32::MAX,
{
    net::block_size_bounds(pool.prefix());
    subnet_laws::top_bound(pool.ip(), pool.prefix());
    subnet_laws::network_aligned(pool.ip(), pool.prefix(), pool.prefix());
}

/// A host that has an address keeps it where it lies inside the pool and no host before it has the
/// same.
pub proof fn valid_addresses_stay(
    pool: Ipv4Net,
    existing: Seq<(Seq<char>, u32)>,
    hosts: Seq<Seq<char>>,
    i: int,
)
    requires
        pool.prefix() <= 32,
        keyed::sorted(existing),
        0 <= i < existing.len(),
        hosts.contains(existing[i].0),
        pool.base() < existing[i].1 < pool.top(),
        forall|j: int| 0 <= j < i ==> (#[trigger] existing[j]).1 != existing[i].1,
        subnet::ip_allocation(pool, existing, hosts) is Ok,
    ensures
        keyed::lookup(subnet::ip_allocation(pool, existing, hosts)->Ok_0.0, existing[i].0) == Some(
            existing[i].1,
        ),
{
    kept_ips_have(pool, existing, hosts, i, existing.len() as int);
    assert(existing.take(existing.len() as int) =~= existing);
    kept_ips_hold(pool, existing, hosts);
    filled_ips_hold(pool, subnet::kept_ips(pool, existing, hosts), hosts);
}

proof fn kept_ips_used(
    pool: Ipv4Net,
    existing: Seq<(Seq<char>, u32)>,
    hosts: Seq<Seq<char>>,
    x: int,
)
    requires
        subnet::kept_ips(pool, existing, hosts).used.contains(x),
    ensures
        exists|j: int| 0 <= j < existing.len() && (#[trigger] existing[j]).1 as int == x,
    decreases existing.len(),
{
    if existing.len() > 0 {
        let t = existing.drop_last();
        if subnet::kept_ips(pool, t, hosts).used.contains(x) {
            kept_ips_used(pool, t, hosts, x);
            let j = choose|j: int| 0 <= j < t.len() && (#[trigger] t[j]).1 as int == x;
            assert(existing[j] == t[j]);
        } else {
            assert(existing[existing.len() - 1].1 as int == x);
        }
    }
}

proof fn kept_ips_have(
    pool: Ipv4Net,
    existing: Seq<(Seq<char>, u32)>,
    hosts: Seq<Seq<char>>,
    i: int,
    n: int,
)
    requires
        keyed::sorted(existing),
        0 <= i < n <= existing.len(),
        hosts.contains(existing[i].0),
        pool.base() < existing[i].1 < pool.top(),
        forall|j: int| 0 <= j < i ==> (#[trigger] existing[j]).1 != existing[i].1,
    ensures
        keyed::lookup(subnet::kept_ips(pool, existing.take(n), hosts).entries, existing[i].0)
            == Some(existing[i].1),
    decreases n,
{
    let t = existing.take(n);
    let s = existing.take(n - 1);
    assert(t.drop_last() =~= s);
    assert(t.last() == existing[n - 1]);
    let k = subnet::kept_ips(pool, s, hosts);
    keyed::lookup_put(k.entries, existing[n - 1].0, existing[n - 1].1, existing[i].0);
    if i == n - 1 {
        if k.used.contains(existing[i].1 as int) {
            kept_ips_used(pool, s, hosts, existing[i].1 as int);
            let j = choose|j: int|
                0 <= j < s.len() && (#[trigger] s[j]).1 as int == existing[i].1 as int;
            assert(existing[j] == s[j]);
        }
    } else {
        kept_ips_have(pool, existing, hosts, i, n - 1);
        assert(keyed::before(existing[i].0, existing[n - 1].0));
        keyed::before_irreflexive(existing[i].0);
    }
}

/// A host that has no address yet gets the lowest one that is free: each lower address inside the
/// pool is that of another host.
pub proof fn fresh_addresses_are_the_lowest(
    pool: Ipv4Net,
    existing: Seq<(Seq<char>, u32)>,
    hosts: Seq<Seq<char>>,
    host: Seq<char>,
    y: u32,
)
    requires
        pool.prefix() <= 32,
        keyed::sorted(existing),
        hosts.contains(host),
        keyed::lookup(existing, host) is None,
        subnet::ip_allocation(pool, existing, hosts) is Ok,
        pool.base() < y,
        keyed::lookup(subnet::ip_allocation(pool, existing, hosts)->Ok_0.0, host) matches Some(ip)
            && y < ip,
    ensures
        exists|x: Seq<char>| #[trigger]
            keyed::lookup(subnet::ip_allocation(pool, existing, hosts)->Ok_0.0, x) == Some(y),
{
    let k = subnet::kept_ips(pool, existing, hosts);
    kept_ips_hold(pool, existing, hosts);
    filled_ips_hold(pool, k, hosts);
    if keyed::lookup(k.entries, host) is Some {
        kept_ips_from_existing(pool, existing, hosts, host);
        keyed::lookup_some(existing, host);
    }
    let a = subnet::filled_ips(pool, k, hosts)->0;
    assert(keyed::lookup(a.entries, host) is Some);
    assert(a.used.contains(y as int));
    assert(has_address(a.entries, y as int));
    let x = choose|x: Seq<char>|
        (#[trigger] keyed::lookup(a.entries, x)) is Some && keyed::lookup(a.entries, x)->0 as int
            == y as int;
    assert(keyed::lookup(subnet::ip_allocation(pool, existing, hosts)->Ok_0.0, x) == Some(y));
}

/// Addresses are refused only where a host is named twice or the pool has fewer addresses than
/// there are hosts; and they are refused where a host is named twice.
pub proof fn addresses_run_out_only_where_the_pool_is_full(
    pool: Ipv4Net,
    existing: Seq<(Seq<char>, u32)>,
    hosts: Seq<Seq<char>>,
)
    requires
        pool.prefix() <= 32,
        keyed::sorted(existing),
    ensures
        subnet::ip_allocation(pool, existing, hosts) is Err ==> hosts.len() > pool.top()
            - pool.base() - 1 || exists|a: int, b: int|
            0 <= a < b < hosts.len() && #[trigger] hosts[a] == #[trigger] hosts[b],
        (exists|a: int, b: int|
            0 <= a < b < hosts.len() && #[trigger] hosts[a] == #[trigger] hosts[b])
            ==> subnet::ip_allocation(pool, existing, hosts) is Err,
{
    if subnet::first_repeat(hosts, 0) is Some {
        repeat_is_a_repeat(hosts, 0);
    } else {
        subnet::first_repeat_none(hosts, 0);
        let k = subnet::kept_ips(pool, existing, hosts);
        kept_ips_hold(pool, existing, hosts);
        subnet_laws::kept_ips_sound(pool, existing, hosts);
        if subnet::filled_ips(pool, k, hosts) is None && hosts.len() <= pool.top() - pool.base() - 1 {
            assert forall|i: int| 0 <= i < hosts.len() implies hosts.contains(
                #[trigger] hosts[i],
            ) by {}
            room_is_found(pool, hosts, k, hosts);
        }
    }
}

proof fn room_is_found(
    pool: Ipv4Net,
    all: Seq<Seq<char>>,
    k: Allocation<u32>,
    hosts: Seq<Seq<char>>,
)
    requires
        pool.prefix() <= 32,
        all.len() <= pool.top() - pool.base() - 1,
        forall|i: int| 0 <= i < hosts.len() ==> all.contains(#[trigger] hosts[i]),
        subnet_laws::sound_ips(pool, all, k),
        held(k),
        k.used.finite(),
        k.used.len() <= k.entries.len(),
    ensures
        subnet::filled_ips(pool, k, hosts) is Some,
    decreases hosts.len(),
{
    if hosts.len() > 0 {
        let t = hosts.drop_last();
        assert forall|i: int| 0 <= i < t.len() implies all.contains(#[trigger] t[i]) by {
            assert(t[i] == hosts[i]);
        }
        room_is_found(pool, all, k, t);
        filled_ips_hold(pool, k, t);
        subnet_laws::filled_ips_sound(pool, all, k, t);
        let a = subnet::filled_ips(pool, k, t)->0;
        let host = hosts.last();
        if keyed::lookup(a.entries, host) is None {
            assert(all.contains(hosts[hosts.len() - 1]));
            subnet_laws::entries_are_fewer(a.entries, all, host);
            pool_is_in_range(pool);
            let first = subnet::first_host(pool);
            if subnet::first_free(first, 1, pool.top() - 1, a.used) is None {
                let inside = vstd::set_lib::set_int_range(pool.base() + 1, pool.top());
                vstd::set_lib::lemma_int_range(pool.base() + 1, pool.top());
                assert forall|y: int| inside.contains(y) implies a.used.contains(y) by {
                    assert((y - first) * 1 == y - first);
                    search_passes_the_taken(first, 1, pool.top() - 1, a.used, y - first);
                }
                vstd::set_lib::lemma_len_subset(inside, a.used);
            }
        }
    }
}

proof fn kept_ips_noted(
    pool: Ipv4Net,
    existing: Seq<(Seq<char>, u32)>,
    hosts: Seq<Seq<char>>,
    i: int,
)
    requires
        keyed::sorted(existing),
        0 <= i < existing.len(),
        hosts.contains(existing[i].0),
    ensures
        ({
            let k = subnet::kept_ips(pool, existing, hosts);
            keyed::lookup(k.entries, existing[i].0) == Some(existing[i].1) || exists|w: int|
                0 <= w < k.warnings.len() && (#[trigger] k.warnings[w]).host == existing[i].0
        }),
    decreases existing.len(),
{
    let t = existing.drop_last();
    let k = subnet::kept_ips(pool, t, hosts);
    let r = subnet::kept_ips(pool, existing, hosts);
    let (host, ip) = existing.last();
    keyed::lookup_put(k.entries, host, ip, existing[i].0);
    if i < t.len() {
        assert(t[i] == existing[i]);
        kept_ips_noted(pool, t, hosts, i);
        assert(keyed::before(existing[i].0, existing[existing.len() - 1].0));
        keyed::before_irreflexive(existing[i].0);
        if keyed::lookup(k.entries, existing[i].0) != Some(existing[i].1) {
            let w = choose|w: int|
                0 <= w < k.warnings.len() && (#[trigger] k.warnings[w]).host == existing[i].0;
            assert(r.warnings[w] == k.warnings[w]);
        }
    } else if keyed::lookup(r.entries, host) != Some(ip) {
        assert(r.warnings[k.warnings.len() as int].host == host);
    }
}

/// A host that loses its address is noted.
pub proof fn moved_addresses_are_noted(
    pool: Ipv4Net,
    existing: Seq<(Seq<char>, u32)>,
    hosts: Seq<Seq<char>>,
    i: int,
)
    requires
        pool.prefix() <= 32,
        keyed::sorted(existing),
        0 <= i < existing.len(),
        hosts.contains(existing[i].0),
        subnet::ip_allocation(pool, existing, hosts) is Ok,
        keyed::lookup(subnet::ip_allocation(pool, existing, hosts)->Ok_0.0, existing[i].0) != Some(
            existing[i].1,
        ),
    ensures
        exists|w: int|
            0 <= w < subnet::ip_allocation(pool, existing, hosts)->Ok_0.1.len() && (
            #[trigger] subnet::ip_allocation(pool, existing, hosts)->Ok_0.1[w]).host
                == existing[i].0,
{
    let k = subnet::kept_ips(pool, existing, hosts);
    kept_ips_noted(pool, existing, hosts, i);
    kept_ips_hold(pool, existing, hosts);
    filled_ips_hold(pool, k, hosts);
    let w = choose|w: int|
        0 <= w < k.warnings.len() && (#[trigger] k.warnings[w]).host == existing[i].0;
    assert(subnet::ip_allocation(pool, existing, hosts)->Ok_0.1[w].host == existing[i].0);
}

// ---------------------------------------------------------------------------
// Container subnets
// ---------------------------------------------------------------------------

/// Subnets are there for every host where their size fits the pool, no host is named twice and the
/// pool has as many subnets as there are hosts.
pub proof fn subnets_run_out_only_where_the_pool_is_full(
    pool: Ipv4Net,
    prefix: u8,
    existing: Seq<(Seq<char>, Ipv4Net)>,
    hosts: Seq<Seq<char>>,
)
    requires
        keyed::sorted(existing),
        pool.prefix() <= prefix <= 32,
        prefix > 0,
        hosts.len() <= subnet_laws::blocks(pool, prefix),
        forall|a: int, b: int|
            0 <= a < b < hosts.len() ==> #[trigger] hosts[a] != #[trigger] hosts[b],
    ensures
        subnet::allocation(pool, prefix, existing, hosts) is Ok,
{
    if subnet::first_repeat(hosts, 0) is Some {
        repeat_is_a_repeat(hosts, 0);
    }
    subnet_laws::kept_sound(pool, prefix, existing, hosts);
    subnet_laws::kept_counted(pool, prefix, existing, hosts);
    assert forall|i: int| 0 <= i < hosts.len() implies hosts.contains(#[trigger] hosts[i]) by {}
    subnet_room_is_found(
        pool,
        prefix,
        hosts,
        subnet::kept(pool, prefix, existing, hosts),
        hosts,
    );
}

proof fn subnet_room_is_found(
    pool: Ipv4Net,
    prefix: u8,
    all: Seq<Seq<char>>,
    k: Allocation<Ipv4Net>,
    hosts: Seq<Seq<char>>,
)
    requires
        pool.prefix() <= prefix <= 32,
        prefix > 0,
        all.len() <= subnet_laws::blocks(pool, prefix),
        subnet_laws::counted(k),
        subnet_laws::sound(pool, prefix, all, k),
        forall|i: int| 0 <= i < hosts.len() ==> all.contains(#[trigger] hosts[i]),
    ensures
        subnet::filled(pool, prefix, k, hosts) is Some,
    decreases hosts.len(),
{
    if hosts.len() > 0 {
        let t = hosts.drop_last();
        assert forall|i: int| 0 <= i < t.len() implies all.contains(#[trigger] t[i]) by {
            assert(t[i] == hosts[i]);
        }
        subnet_room_is_found(pool, prefix, all, k, t);
        subnet_laws::filled_sound(pool, prefix, all, k, t);
        let a = subnet::filled(pool, prefix, k, t)->0;
        if keyed::lookup(a.entries, hosts.last()) is None {
            assert(all.contains(hosts[hosts.len() - 1]));
            subnet_laws::search_finds(pool, prefix, all, a, hosts.last());
        }
    }
}

/// Whether some host has the subnet at this place.
spec fn has_place(m: Seq<(Seq<char>, Ipv4Net)>, y: int) -> bool {
    exists|x: Seq<char>|
        (#[trigger] keyed::lookup(m, x)) is Some && keyed::lookup(m, x)->0.base() == y
}

/// Whether each place that is taken is taken by an entry.
spec fn placed(a: Allocation<Ipv4Net>) -> bool {
    forall|y: int| (#[trigger] a.used.contains(y)) ==> has_place(a.entries, y)
}

proof fn put_is_placed(a: Allocation<Ipv4Net>, host: Seq<char>, n: Ipv4Net)
    requires
        placed(a),
        keyed::lookup(a.entries, host) is None,
    ensures
        placed(
            Allocation {
                entries: keyed::put(a.entries, host, n),
                used: a.used.insert(n.base()),
                warnings: a.warnings,
            },
        ),
{
    let r = Allocation {
        entries: keyed::put(a.entries, host, n),
        used: a.used.insert(n.base()),
        warnings: a.warnings,
    };
    assert forall|y: int| #[trigger] r.used.contains(y) implies has_place(r.entries, y) by {
        if y == n.base() {
            keyed::lookup_put(a.entries, host, n, host);
            assert(keyed::lookup(r.entries, host) is Some);
        } else {
            assert(a.used.contains(y));
            let x = choose|x: Seq<char>|
                (#[trigger] keyed::lookup(a.entries, x)) is Some && keyed::lookup(
                    a.entries,
                    x,
                )->0.base() == y;
            keyed::lookup_put(a.entries, host, n, x);
            assert(keyed::lookup(r.entries, x) is Some);
        }
    }
}

proof fn kept_is_placed(
    pool: Ipv4Net,
    prefix: u8,
    existing: Seq<(Seq<char>, Ipv4Net)>,
    hosts: Seq<Seq<char>>,
)
    requires
        keyed::sorted(existing),
    ensures
        placed(subnet::kept(pool, prefix, existing, hosts)),
    decreases existing.len(),
{
    if existing.len() > 0 {
        let t = existing.drop_last();
        let k = subnet::kept(pool, prefix, t, hosts);
        let (host, n) = existing.last();
        kept_is_placed(pool, prefix, t, hosts);
        if keyed::lookup(k.entries, host) is Some {
            subnet_laws::kept_from_existing(pool, prefix, t, hosts, host);
            let i = choose|i: int| 0 <= i < t.len() && (#[trigger] t[i]).0 == host;
            assert(existing[i] == t[i]);
            assert(keyed::before(existing[i].0, existing[existing.len() - 1].0));
            keyed::before_irreflexive(host);
        }
        put_is_placed(k, host, n);
    }
}

proof fn filled_is_placed(
    pool: Ipv4Net,
    prefix: u8,
    all: Seq<Seq<char>>,
    k: Allocation<Ipv4Net>,
    hosts: Seq<Seq<char>>,
    x: Seq<char>,
    i: int,
)
    requires
        pool.prefix() <= prefix <= 32,
        prefix > 0,
        pool.top() < u32::MAX,
        forall|j: int| 0 <= j < hosts.len() ==> all.contains(#[trigger] hosts[j]),
        subnet_laws::sound(pool, prefix, all, k),
        placed(k),
        subnet::filled(pool, prefix, k, hosts) is Some,
        i >= 0,
    ensures
        ({
            let a = subnet::filled(pool, prefix, k, hosts)->0;
            &&& placed(a)
            &&& forall|y: int| k.used.contains(y) ==> a.used.contains(y)
            &&& keyed::lookup(k.entries, x) is None && keyed::lookup(a.entries, x) is Some
                && pool.base() + i * net::block_size(prefix) < keyed::lookup(a.entries, x)->0.base()
                ==> a.used.contains(pool.base() + i * net::block_size(prefix))
        }),
    decreases hosts.len(),
{
    broadcast use net::make_parts;

    if hosts.len() > 0 {
        let t = hosts.drop_last();
        assert forall|j: int| 0 <= j < t.len() implies all.contains(#[trigger] t[j]) by {
            assert(t[j] == hosts[j]);
        }
        filled_is_placed(pool, prefix, all, k, t, x, i);
        subnet_laws::filled_sound(pool, prefix, all, k, t);
        let a = subnet::filled(pool, prefix, k, t)->0;
        let host = hosts.last();
        if keyed::lookup(a.entries, host) is None {
            let b = net::block_size(prefix);
            net::block_size_bounds(prefix);
            pool_is_in_range(pool);
            subnet_laws::network_aligned(pool.ip(), pool.prefix(), prefix);
            subnet_laws::first_free_props(pool.base(), b, pool.top(), a.used);
            let n = subnet::first_free(pool.base(), b, pool.top(), a.used)->0;
            let made = Ipv4Net::make(n as u32, prefix);
            subnet_laws::network_of_aligned(n as u32, prefix);
            assert(made.base() == n);
            put_is_placed(a, host, made);
            keyed::lookup_put(a.entries, host, made, x);
            if x == host && pool.base() + i * b < n {
                search_passes_the_taken(pool.base(), b, pool.top(), a.used, i);
            }
        }
    }
}

/// A host that has no subnet yet gets the lowest one that is free: each lower place in the pool is
/// that of another host. The pool ends below the highest address.
pub proof fn fresh_subnets_are_the_lowest(
    pool: Ipv4Net,
    prefix: u8,
    existing: Seq<(Seq<char>, Ipv4Net)>,
    hosts: Seq<Seq<char>>,
    host: Seq<char>,
    i: int,
)
    requires
        pool.prefix() <= prefix <= 32,
        prefix > 0,
        pool.top() < u32::MAX,
        keyed::sorted(existing),
        keyed::lookup(existing, host) is None,
        subnet::allocation(pool, prefix, existing, hosts) is Ok,
        i >= 0,
        keyed::lookup(subnet::allocation(pool, prefix, existing, hosts)->Ok_0.0, host) matches Some(
            n,
        ) && pool.base() + i * net::block_size(prefix) < n.base(),
    ensures
        exists|x: Seq<char>| #[trigger]
            keyed::lookup(subnet::allocation(pool, prefix, existing, hosts)->Ok_0.0, x) is Some
                && keyed::lookup(
                subnet::allocation(pool, prefix, existing, hosts)->Ok_0.0,
                x,
            )->0.base() == pool.base() + i * net::block_size(prefix),
{
    let k = subnet::kept(pool, prefix, existing, hosts);
    subnet_laws::kept_sound(pool, prefix, existing, hosts);
    kept_is_placed(pool, prefix, existing, hosts);
    assert forall|j: int| 0 <= j < hosts.len() implies hosts.contains(#[trigger] hosts[j]) by {}
    filled_is_placed(pool, prefix, hosts, k, hosts, host, i);
    if keyed::lookup(k.entries, host) is Some {
        subnet_laws::kept_from_existing(pool, prefix, existing, hosts, host);
        keyed::lookup_some(existing, host);
    }
    let a = subnet::filled(pool, prefix, k, hosts)->0;
    assert(a.used.contains(pool.base() + i * net::block_size(prefix)));
}

// ---------------------------------------------------------------------------
// What the hosts have
// ---------------------------------------------------------------------------

/// The addresses that are assigned are those that the hosts have.
pub proof fn assigned_addresses_are_those_of_the_hosts(
    cur: Seq<(Seq<char>, ServerView)>,
    host: Seq<char>,
)
    requires
        keyed::sorted(cur),
    ensures
        keyed::sorted(state::assigned_ips(cur)),
        keyed::lookup(state::assigned_ips(cur), host) == (match keyed::lookup(cur, host) {
            Some(s) => s.wireguard_mgmt_ip,
            None => None,
        }),
    decreases cur.len(),
{
    if cur.len() > 0 {
        let p = cur.drop_last();
        let (h, s) = cur.last();
        assigned_addresses_are_those_of_the_hosts(p, host);
        let m = state::assigned_ips(p);
        keyed::lookup_some(p, host);
        keyed::lookup_some(cur, host);
        if host == h {
            keyed::lookup_at(cur, cur.len() - 1);
            if keyed::lookup(p, host) is Some {
                let i = choose|i: int| 0 <= i < p.len() && (#[trigger] p[i]).0 == host;
                assert(keyed::before(cur[i].0, cur[cur.len() - 1].0));
                keyed::before_irreflexive(host);
            }
        } else if keyed::lookup(cur, host) is Some {
            let i = choose|i: int| 0 <= i < cur.len() && (#[trigger] cur[i]).0 == host;
            assert(p[i] == cur[i]);
            keyed::lookup_at(cur, i);
            keyed::lookup_at(p, i);
        } else if keyed::lookup(p, host) is Some {
            let i = choose|i: int| 0 <= i < p.len() && (#[trigger] p[i]).0 == host;
            assert(cur[i] == p[i]);
        }
        if s.wireguard_mgmt_ip is Some {
            keyed::put_sorted(m, h, s.wireguard_mgmt_ip->0);
            keyed::lookup_put(m, h, s.wireguard_mgmt_ip->0, host);
        }
    }
}

proof fn without_nft(nodes: Seq<Seq<char>>, cur: Seq<(Seq<char>, ServerView)>, i: int)
    requires
        0 <= i <= nodes.len(),
    ensures
        plan::first_without_nft(nodes, cur, i) is Some <==> exists|j: int|
            i <= j < nodes.len() && (keyed::lookup(cur, #[trigger] nodes[j]) matches Some(s)
                && !s.nft_available),
    decreases nodes.len() - i,
{
    if i < nodes.len() {
        without_nft(nodes, cur, i + 1);
    }
}

/// A mesh is refused if and only if its nodes are to be closed, or get agents, without podman; or
/// get podman without a namespace; or its intent is not in order; or a node that is to be closed is
/// known to lack the packet filter.
pub proof fn meshes_are_refused_for_a_reason(d: DesiredMesh, cur: Seq<(Seq<char>, ServerView)>)
    requires
        d.nodes@.len() > 0,
    ensures
        plan::refusal(d, cur) is None <==> {
            &&& d.default_deny_containers ==> d.install_podman
            &&& d.install_coold ==> d.install_podman
            &&& d.install_podman ==> d.namespaces@.len() > 0
            &&& crate::mesh::intent::intent_error(d) is None
            &&& d.default_deny_containers ==> forall|j: int|
                0 <= j < d.nodes@.len() ==> (keyed::lookup(
                    cur,
                    #[trigger] text::views(d.nodes@)[j],
                ) matches Some(s) ==> s.nft_available)
        },
{
    without_nft(text::views(d.nodes@), cur, 0);
}

} // verus!
