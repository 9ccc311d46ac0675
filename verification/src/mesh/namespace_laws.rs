//! The subnets that hosts have in their namespaces.

use vstd::prelude::*;
use crate::cli::corrosion::CorrosionFiles;
use crate::cli::plan;
use crate::keyed;
use crate::mesh::state;
use crate::mesh::address_laws;
use crate::mesh::state::{DesiredMesh, NamespaceView, ServerView};
use crate::mesh::subnet;
use crate::mesh::subnet_laws;
use crate::net::Ipv4Net;
use crate::text;

verus! {

/// Whether a name can stand for a namespace in the key of a pair.
pub open spec fn is_label(ns: Seq<char>) -> bool {
    !ns.contains('/')
}

/// A pair of a namespace and a host has a key of its own.
pub proof fn pairs_are_told_apart(ns: Seq<char>, host: Seq<char>, ns2: Seq<char>, host2: Seq<char>)
    requires
        is_label(ns),
        is_label(ns2),
        subnet::pair_key(ns, host) == subnet::pair_key(ns2, host2),
    ensures
        ns == ns2,
        host == host2,
{
    reveal_strlit("/");
    let k = subnet::pair_key(ns, host);
    let k2 = subnet::pair_key(ns2, host2);
    let a = ns.len() as int;
    let b = ns2.len() as int;
    assert(k[a] == '/');
    assert(k2[b] == '/');
    if a < b {
        assert(k2[a] == ns2[a]);
        assert(ns2.contains(ns2[a]));
    }
    if b < a {
        assert(k[b] == ns[b]);
        assert(ns.contains(ns[b]));
    }
    assert(k.take(a) =~= ns);
    assert(k2.take(a) =~= ns2);
    assert(k.skip(a + 1) =~= host);
    assert(k2.skip(a + 1) =~= host2);
}

proof fn row_is_flat(
    existing: Seq<(Seq<char>, Seq<(Seq<char>, Ipv4Net)>)>,
    ns: Seq<char>,
    hosts: Seq<Seq<char>>,
    flat: Seq<(Seq<char>, Ipv4Net)>,
    ns2: Seq<char>,
    host: Seq<char>,
)
    requires
        is_label(ns),
        is_label(ns2),
        keyed::sorted(flat),
    ensures
        keyed::sorted(subnet::row_flattened(existing, ns, hosts, flat)),
        keyed::lookup(
            subnet::row_flattened(existing, ns, hosts, flat),
            subnet::pair_key(ns2, host),
        ) == (if ns2 == ns && hosts.contains(host) && keyed::lookup2(existing, ns, host) is Some {
            keyed::lookup2(existing, ns, host)
        } else {
            keyed::lookup(flat, subnet::pair_key(ns2, host))
        }),
    decreases hosts.len(),
{
    if hosts.len() > 0 {
        let p = hosts.drop_last();
        let l = hosts.last();
        row_is_flat(existing, ns, p, flat, ns2, host);
        let before = subnet::row_flattened(existing, ns, p, flat);
        assert(hosts =~= p.push(l));
        crate::cli::init::contains_push(p, l, host);
        if keyed::lookup2(existing, ns, l) is Some {
            let n = keyed::lookup2(existing, ns, l)->0;
            keyed::put_sorted(before, subnet::pair_key(ns, l), n);
            keyed::lookup_put(before, subnet::pair_key(ns, l), n, subnet::pair_key(ns2, host));
            if subnet::pair_key(ns, l) == subnet::pair_key(ns2, host) {
                pairs_are_told_apart(ns, l, ns2, host);
            }
        }
    }
}

proof fn all_is_flat(
    existing: Seq<(Seq<char>, Seq<(Seq<char>, Ipv4Net)>)>,
    namespaces: Seq<Seq<char>>,
    hosts: Seq<Seq<char>>,
    ns: Seq<char>,
    host: Seq<char>,
)
    requires
        forall|i: int| 0 <= i < namespaces.len() ==> is_label(#[trigger] namespaces[i]),
        is_label(ns),
    ensures
        keyed::sorted(subnet::flattened(existing, namespaces, hosts)),
        keyed::lookup(
            subnet::flattened(existing, namespaces, hosts),
            subnet::pair_key(ns, host),
        ) == (if namespaces.contains(ns) && hosts.contains(host) {
            keyed::lookup2(existing, ns, host)
        } else {
            None
        }),
    decreases namespaces.len(),
{
    if namespaces.len() > 0 {
        let p = namespaces.drop_last();
        let l = namespaces.last();
        assert(is_label(namespaces[namespaces.len() - 1]));
        assert forall|i: int| 0 <= i < p.len() implies is_label(#[trigger] p[i]) by {
            assert(p[i] == namespaces[i]);
        }
        all_is_flat(existing, p, hosts, ns, host);
        assert(namespaces =~= p.push(l));
        crate::cli::init::contains_push(p, l, ns);
        row_is_flat(existing, l, hosts, subnet::flattened(existing, p, hosts), ns, host);
    }
}

proof fn row_entries(
    existing: Seq<(Seq<char>, Seq<(Seq<char>, Ipv4Net)>)>,
    ns: Seq<char>,
    hosts: Seq<Seq<char>>,
    flat: Seq<(Seq<char>, Ipv4Net)>,
    k: Seq<char>,
)
    requires
        keyed::lookup(subnet::row_flattened(existing, ns, hosts, flat), k) is Some,
        keyed::lookup(flat, k) is None,
    ensures
        exists|h: Seq<char>| hosts.contains(h) && k == #[trigger] subnet::pair_key(ns, h),
    decreases hosts.len(),
{
    if hosts.len() > 0 {
        let p = hosts.drop_last();
        let l = hosts.last();
        let before = subnet::row_flattened(existing, ns, p, flat);
        assert(hosts =~= p.push(l));
        assert(hosts[hosts.len() - 1] == l);
        if keyed::lookup2(existing, ns, l) is Some {
            keyed::lookup_put(
                before,
                subnet::pair_key(ns, l),
                keyed::lookup2(existing, ns, l)->0,
                k,
            );
        }
        if keyed::lookup(before, k) is Some {
            row_entries(existing, ns, p, flat, k);
            let h = choose|h: Seq<char>|
                p.contains(h) && k == #[trigger] subnet::pair_key(ns, h);
            crate::cli::init::contains_push(p, l, h);
            assert(hosts.contains(h) && k == subnet::pair_key(ns, h));
        } else {
            assert(hosts.contains(l) && k == subnet::pair_key(ns, l));
        }
    }
}

proof fn all_entries(
    existing: Seq<(Seq<char>, Seq<(Seq<char>, Ipv4Net)>)>,
    namespaces: Seq<Seq<char>>,
    hosts: Seq<Seq<char>>,
    k: Seq<char>,
)
    requires
        keyed::lookup(subnet::flattened(existing, namespaces, hosts), k) is Some,
    ensures
        exists|ns: Seq<char>, h: Seq<char>|
            namespaces.contains(ns) && hosts.contains(h) && k == #[trigger] subnet::pair_key(ns, h),
    decreases namespaces.len(),
{
    if namespaces.len() > 0 {
        let p = namespaces.drop_last();
        let l = namespaces.last();
        assert(namespaces =~= p.push(l));
        assert(namespaces[namespaces.len() - 1] == l);
        let before = subnet::flattened(existing, p, hosts);
        if keyed::lookup(before, k) is Some {
            all_entries(existing, p, hosts, k);
            let (ns, h) = choose|ns: Seq<char>, h: Seq<char>|
                p.contains(ns) && hosts.contains(h) && k == #[trigger] subnet::pair_key(ns, h);
            crate::cli::init::contains_push(p, l, ns);
            assert(namespaces.contains(ns) && hosts.contains(h) && k == subnet::pair_key(ns, h));
        } else {
            row_entries(existing, l, hosts, before, k);
            let h = choose|h: Seq<char>|
                hosts.contains(h) && k == #[trigger] subnet::pair_key(l, h);
            assert(namespaces.contains(l) && hosts.contains(h) && k == subnet::pair_key(l, h));
        }
    }
}

/// A host that has a subnet in a namespace keeps it there where it has the right size, lies in the
/// pool and no other host has one at its place in any namespace.
pub proof fn valid_subnets_stay_in_their_namespace(
    pool: Ipv4Net,
    prefix: u8,
    existing: Seq<(Seq<char>, Seq<(Seq<char>, Ipv4Net)>)>,
    namespaces: Seq<Seq<char>>,
    hosts: Seq<Seq<char>>,
    ns: Seq<char>,
    host: Seq<char>,
)
    requires
        forall|i: int| 0 <= i < namespaces.len() ==> is_label(#[trigger] namespaces[i]),
        namespaces.contains(ns),
        hosts.contains(host),
        keyed::lookup2(existing, ns, host) matches Some(n) && n.prefix() == prefix && pool.holds(
            n.base(),
        ) && forall|ns2: Seq<char>, h2: Seq<char>|
            namespaces.contains(ns2) && hosts.contains(h2) && (ns2 != ns || h2 != host) ==> (
            #[trigger] keyed::lookup2(existing, ns2, h2) matches Some(m) ==> m.base() != n.base()),
        subnet::namespaced_allocation(pool, prefix, existing, namespaces, hosts) is Ok,
    ensures
        keyed::lookup2(
            subnet::namespaced_allocation(pool, prefix, existing, namespaces, hosts)->Ok_0.0,
            ns,
            host,
        ) == keyed::lookup2(existing, ns, host),
{
    let flat = subnet::flattened(existing, namespaces, hosts);
    let keys = subnet::all_keys(namespaces, hosts);
    let k = subnet::pair_key(ns, host);
    let n = keyed::lookup2(existing, ns, host)->0;
    let at = choose|i: int| 0 <= i < namespaces.len() && namespaces[i] == ns;
    assert(is_label(namespaces[at]));
    all_is_flat(existing, namespaces, hosts, ns, host);
    subnet::all_keys_contains(namespaces, hosts, ns, host);
    keyed::lookup_some(flat, k);
    let i = choose|i: int| 0 <= i < flat.len() && (#[trigger] flat[i]).0 == k;
    keyed::lookup_at(flat, i);
    assert forall|j: int| 0 <= j < i implies (#[trigger] flat[j]).1.base() != flat[i].1.base() by {
        keyed::lookup_at(flat, j);
        all_entries(existing, namespaces, hosts, flat[j].0);
        let (ns2, h2) = choose|ns2: Seq<char>, h2: Seq<char>|
            namespaces.contains(ns2) && hosts.contains(h2) && flat[j].0
                == #[trigger] subnet::pair_key(ns2, h2);
        let b = choose|b: int| 0 <= b < namespaces.len() && namespaces[b] == ns2;
        assert(is_label(namespaces[b]));
        all_is_flat(existing, namespaces, hosts, ns2, h2);
        assert(keyed::before(flat[j].0, flat[i].0));
        keyed::before_irreflexive(flat[j].0);
        assert(ns2 != ns || h2 != host);
        assert(keyed::lookup2(existing, ns2, h2) == Some(flat[j].1));
    }
    subnet_laws::valid_subnets_stay(pool, prefix, flat, keys, i);
    let out = subnet::allocation(pool, prefix, flat, keys)->Ok_0.0;
    plan::grouped_lookup(out, namespaces, hosts, ns, host);
}

/// Each host has a subnet in each namespace, of the right size and in the pool, and no two of them
/// overlap, whatever their hosts and namespaces.
pub proof fn namespaces_share_no_subnets(
    pool: Ipv4Net,
    prefix: u8,
    existing: Seq<(Seq<char>, Seq<(Seq<char>, Ipv4Net)>)>,
    namespaces: Seq<Seq<char>>,
    hosts: Seq<Seq<char>>,
    ns: Seq<char>,
    host: Seq<char>,
    ns2: Seq<char>,
    host2: Seq<char>,
)
    requires
        forall|i: int| 0 <= i < namespaces.len() ==> is_label(#[trigger] namespaces[i]),
        subnet_laws::has_room(
            pool,
            prefix,
            subnet::flattened(existing, namespaces, hosts),
            subnet::all_keys(namespaces, hosts),
        ),
        prefix > 0,
        subnet::namespaced_allocation(pool, prefix, existing, namespaces, hosts) is Ok,
        namespaces.contains(ns) && hosts.contains(host),
        namespaces.contains(ns2) && hosts.contains(host2),
    ensures
        ({
            let m = subnet::namespaced_allocation(
                pool,
                prefix,
                existing,
                namespaces,
                hosts,
            )->Ok_0.0;
            &&& keyed::lookup2(m, ns, host) matches Some(a) && a.prefix() == prefix && pool.base()
                <= a.base() && a.top() <= pool.top()
            &&& ns != ns2 || host != host2 ==> (keyed::lookup2(m, ns, host) matches Some(a) && (
            keyed::lookup2(m, ns2, host2) matches Some(b) && (a.top() < b.base() || b.top()
                < a.base())))
        }),
{
    let flat = subnet::flattened(existing, namespaces, hosts);
    let keys = subnet::all_keys(namespaces, hosts);
    let k = subnet::pair_key(ns, host);
    let k2 = subnet::pair_key(ns2, host2);
    let out = subnet::allocation(pool, prefix, flat, keys)->Ok_0.0;
    let a = choose|i: int| 0 <= i < namespaces.len() && namespaces[i] == ns;
    let b = choose|i: int| 0 <= i < namespaces.len() && namespaces[i] == ns2;
    assert(is_label(namespaces[a]) && is_label(namespaces[b]));
    subnet_laws::subnets_are_disjoint(pool, prefix, flat, keys);
    subnet::all_keys_contains(namespaces, hosts, ns, host);
    subnet::all_keys_contains(namespaces, hosts, ns2, host2);
    subnet_laws::allocation_hosts(pool, prefix, flat, keys, k);
    subnet_laws::allocation_hosts(pool, prefix, flat, keys, k2);
    plan::grouped_lookup(out, namespaces, hosts, ns, host);
    plan::grouped_lookup(out, namespaces, hosts, ns2, host2);
    keyed::lookup_some(out, k);
    keyed::lookup_some(out, k2);
    let i = choose|i: int| 0 <= i < out.len() && (#[trigger] out[i]).0 == k;
    let j = choose|j: int| 0 <= j < out.len() && (#[trigger] out[j]).0 == k2;
    keyed::lookup_at(out, i);
    keyed::lookup_at(out, j);
    if ns != ns2 || host != host2 {
        if k == k2 {
            pairs_are_told_apart(ns, host, ns2, host2);
        }
        if i < j {
            assert(out[i].1.top() < out[j].1.base() || out[j].1.top() < out[i].1.base());
        } else {
            assert(out[j].1.top() < out[i].1.base() || out[i].1.top() < out[j].1.base());
        }
    }
}

proof fn put_in_namespace(
    s: Seq<(Seq<char>, Seq<(Seq<char>, Ipv4Net)>)>,
    k: Seq<char>,
    x: Seq<char>,
    v: Ipv4Net,
    a: Seq<char>,
    b: Seq<char>,
)
    ensures
        keyed::lookup2(keyed::put2(s, k, x, v), a, b) == (if a == k && b == x {
            Some(v)
        } else {
            keyed::lookup2(s, a, b)
        }),
{
    let inner = match keyed::lookup(s, k) {
        Some(m) => m,
        None => Seq::empty(),
    };
    keyed::lookup_put(s, k, keyed::put(inner, x, v), a);
    keyed::lookup_put(inner, x, v, b);
}

proof fn last_lookup<V>(s: Seq<(Seq<char>, V)>, k: Seq<char>)
    requires
        keyed::sorted(s),
        s.len() > 0,
    ensures
        keyed::sorted(s.drop_last()),
        keyed::lookup(s, k) == (if k == s.last().0 {
            Some(s.last().1)
        } else {
            keyed::lookup(s.drop_last(), k)
        }),
        k == s.last().0 ==> keyed::lookup(s.drop_last(), k) is None,
{
    let p = s.drop_last();
    keyed::lookup_some(s, k);
    keyed::lookup_some(p, k);
    if k == s.last().0 {
        keyed::lookup_at(s, s.len() - 1);
        if keyed::lookup(p, k) is Some {
            let i = choose|i: int| 0 <= i < p.len() && (#[trigger] p[i]).0 == k;
            assert(keyed::before(s[i].0, s[s.len() - 1].0));
            keyed::before_irreflexive(k);
        }
    } else if keyed::lookup(s, k) is Some {
        let i = choose|i: int| 0 <= i < s.len() && (#[trigger] s[i]).0 == k;
        assert(p[i] == s[i]);
        keyed::lookup_at(s, i);
        keyed::lookup_at(p, i);
    } else if keyed::lookup(p, k) is Some {
        let i = choose|i: int| 0 <= i < p.len() && (#[trigger] p[i]).0 == k;
        assert(s[i] == p[i]);
    }
}

/// The subnet that a host is known to have in a namespace.
pub open spec fn known_subnet(s: ServerView, ns: Seq<char>) -> Option<Ipv4Net> {
    match keyed::lookup(s.namespaces, ns) {
        Some(v) => v.container_subnet,
        None => None,
    }
}

proof fn host_has_its_subnets(
    host: Seq<char>,
    nss: Seq<(Seq<char>, NamespaceView)>,
    out: Seq<(Seq<char>, Seq<(Seq<char>, Ipv4Net)>)>,
    ns: Seq<char>,
    h: Seq<char>,
)
    requires
        keyed::sorted(nss),
    ensures
        keyed::lookup2(state::host_subnets(host, nss, out), ns, h) == (if h == host && (
        keyed::lookup(nss, ns) matches Some(v) && v.container_subnet is Some) {
            keyed::lookup(nss, ns)->0.container_subnet
        } else {
            keyed::lookup2(out, ns, h)
        }),
    decreases nss.len(),
{
    if nss.len() > 0 {
        let p = nss.drop_last();
        last_lookup(nss, ns);
        host_has_its_subnets(host, p, out, ns, h);
        let before = state::host_subnets(host, p, out);
        if nss.last().1.container_subnet is Some {
            put_in_namespace(
                before,
                nss.last().0,
                host,
                nss.last().1.container_subnet->0,
                ns,
                h,
            );
        }
    }
}

/// The subnets that are assigned are those that the hosts have in their namespaces.
pub proof fn assigned_subnets_are_those_of_the_hosts(
    cur: Seq<(Seq<char>, ServerView)>,
    ns: Seq<char>,
    host: Seq<char>,
)
    requires
        keyed::sorted(cur),
        forall|i: int| 0 <= i < cur.len() ==> keyed::sorted((#[trigger] cur[i]).1.namespaces),
    ensures
        keyed::lookup2(state::assigned_subnets(cur), ns, host) == (match keyed::lookup(cur, host) {
            Some(s) => known_subnet(s, ns),
            None => None,
        }),
    decreases cur.len(),
{
    if cur.len() > 0 {
        let p = cur.drop_last();
        last_lookup(cur, host);
        assert forall|i: int| 0 <= i < p.len() implies keyed::sorted(
            (#[trigger] p[i]).1.namespaces,
        ) by {
            assert(p[i] == cur[i]);
        }
        assert(keyed::sorted(cur[cur.len() - 1].1.namespaces));
        assigned_subnets_are_those_of_the_hosts(p, ns, host);
        host_has_its_subnets(
            cur.last().0,
            cur.last().1.namespaces,
            state::assigned_subnets(p),
            ns,
            host,
        );
    }
}

/// A host of the mesh that has an address inside the pool which no other host has keeps it in every
/// plan.
pub proof fn plans_keep_the_addresses_of_the_hosts(
    d: DesiredMesh,
    cur: Seq<(Seq<char>, ServerView)>,
    files: CorrosionFiles,
    host: Seq<char>,
    s: ServerView,
    ip: u32,
)
    requires
        d.mgmt_pool.prefix() <= 32,
        keyed::sorted(cur),
        plan::plan_of(d, cur, files) is Ok,
        text::views(d.hosts@).contains(host),
        keyed::lookup(cur, host) == Some(s),
        s.wireguard_mgmt_ip == Some(ip),
        d.mgmt_pool.base() < ip < d.mgmt_pool.top(),
        forall|x: Seq<char>|
            x != host && (#[trigger] keyed::lookup(cur, x)) is Some ==> keyed::lookup(
                cur,
                x,
            )->0.wireguard_mgmt_ip != Some(ip),
    ensures
        keyed::lookup(plan::plan_of(d, cur, files)->Ok_0.mgmt, host) == Some(ip),
{
    let m = state::assigned_ips(cur);
    address_laws::assigned_addresses_are_those_of_the_hosts(cur, host);
    keyed::lookup_some(m, host);
    let i = choose|i: int| 0 <= i < m.len() && (#[trigger] m[i]).0 == host;
    keyed::lookup_at(m, i);
    assert forall|j: int| 0 <= j < i implies (#[trigger] m[j]).1 != m[i].1 by {
        keyed::lookup_at(m, j);
        address_laws::assigned_addresses_are_those_of_the_hosts(cur, m[j].0);
        assert(keyed::before(m[j].0, m[i].0));
        keyed::before_irreflexive(host);
        assert(keyed::lookup(cur, m[j].0) is Some);
    }
    address_laws::valid_addresses_stay(d.mgmt_pool, m, text::views(d.hosts@), i);
}

/// A node that has a subnet of the right size in the pool which no other node has keeps it in every
/// plan.
pub proof fn plans_keep_the_subnets_of_the_nodes(
    d: DesiredMesh,
    cur: Seq<(Seq<char>, ServerView)>,
    files: CorrosionFiles,
    ns: Seq<char>,
    host: Seq<char>,
    s: ServerView,
    n: Ipv4Net,
)
    requires
        keyed::sorted(cur),
        forall|i: int| 0 <= i < cur.len() ==> keyed::sorted((#[trigger] cur[i]).1.namespaces),
        plan::plan_of(d, cur, files) is Ok,
        forall|i: int|
            0 <= i < d.namespaces@.len() ==> is_label((#[trigger] text::views(d.namespaces@)[i])),
        text::views(d.namespaces@).contains(ns),
        text::views(d.nodes@).contains(host),
        keyed::lookup(cur, host) == Some(s),
        known_subnet(s, ns) == Some(n),
        n.prefix() == d.container_prefix,
        d.container_pool.holds(n.base()),
        forall|x: Seq<char>, y: Seq<char>|
            (x != ns || y != host) && keyed::lookup(cur, y) is Some ==> (#[trigger] known_subnet(
                keyed::lookup(cur, y)->0,
                x,
            ) matches Some(m) ==> m.base() != n.base()),
    ensures
        keyed::lookup2(plan::plan_of(d, cur, files)->Ok_0.subnets, ns, host) == Some(n),
{
    let existing = state::assigned_subnets(cur);
    let namespaces = text::views(d.namespaces@);
    let hosts = text::views(d.nodes@);
    assigned_subnets_are_those_of_the_hosts(cur, ns, host);
    assert forall|ns2: Seq<char>, h2: Seq<char>|
        namespaces.contains(ns2) && hosts.contains(h2) && (ns2 != ns || h2 != host) implies (
    #[trigger] keyed::lookup2(existing, ns2, h2) matches Some(m) ==> m.base() != n.base()) by {
        assigned_subnets_are_those_of_the_hosts(cur, ns2, h2);
        if keyed::lookup(cur, h2) is Some {
            let k = known_subnet(keyed::lookup(cur, h2)->0, ns2);
        }
    }
    valid_subnets_stay_in_their_namespace(
        d.container_pool,
        d.container_prefix,
        existing,
        namespaces,
        hosts,
        ns,
        host,
    );
}

} // verus!
