//! Subnets and management addresses for the hosts of a mesh.

use vstd::prelude::*;
use vstd::string::StringExecFns;
use crate::keyed;
use crate::keyed::StrMap;
use crate::net;
use crate::net::Ipv4Net;
use crate::number;
use crate::text;

verus! {

/// A note on an existing assignment that could not be kept.
#[derive(Clone, Debug)]
pub struct Warning {
    pub host: String,
    pub reason: String,
}

/// What a `Warning` says.
#[verifier::ext_equal]
pub struct WarningView {
    pub host: Seq<char>,
    pub reason: Seq<char>,
}

impl View for Warning {
    type V = WarningView;

    open spec fn view(&self) -> WarningView {
        WarningView { host: self.host@, reason: self.reason@ }
    }
}

pub open spec fn warning_views(s: Seq<Warning>) -> Seq<WarningView> {
    Seq::new(s.len(), |i: int| s[i]@)
}

pub broadcast proof fn warning_views_push(s: Seq<Warning>, x: Warning)
    ensures
        #[trigger] warning_views(s.push(x)) == warning_views(s).push(x@),
{
    assert(warning_views(s.push(x)) =~= warning_views(s).push(x@));
}

/// The refusal of a prefix length that does not fit the pool.
pub open spec fn bad_prefix_text(prefix: u8, pool: Ipv4Net) -> Seq<char> {
    "prefix /"@
        + number::decimal(prefix as nat)
        + " is not valid inside pool "@
        + pool.cidr()
}

/// The refusal of a prefix length that does not fit the pool.
fn bad_prefix(prefix: u8, pool: Ipv4Net) -> (r: String)
    ensures
        r@ == bad_prefix_text(prefix, pool),
{
    let mut out: String = "prefix /".to_owned();
    out.append(number::decimal_of(prefix as u64).as_str());
    out.append(" is not valid inside pool ");
    out.append(pool.text().as_str());
    out
}

/// The refusal of a host that is named twice.
pub open spec fn duplicate_host_text(host: Seq<char>) -> Seq<char> {
    "duplicate host in --servers: "@
        + host
}

/// The refusal of a host that is named twice.
fn duplicate_host(host: &str) -> (r: String)
    ensures
        r@ == duplicate_host_text(host@),
{
    let mut out: String = "duplicate host in --servers: ".to_owned();
    out.append(host);
    out
}

/// The refusal of a namespace that is named twice.
pub open spec fn duplicate_namespace_text(ns: Seq<char>) -> Seq<char> {
    "duplicate namespace in --namespaces: "@
        + ns
}

/// The refusal of a namespace that is named twice.
fn duplicate_namespace(ns: &str) -> (r: String)
    ensures
        r@ == duplicate_namespace_text(ns@),
{
    let mut out: String = "duplicate namespace in --namespaces: ".to_owned();
    out.append(ns);
    out
}

/// The note on a subnet of another size or outside the pool.
pub open spec fn misplaced_text(net: Ipv4Net, prefix: u8, pool: Ipv4Net) -> Seq<char> {
    "existing subnet "@
        + net.cidr()
        + " is not a /"@
        + number::decimal(prefix as nat)
        + " inside pool "@
        + pool.cidr()
        + ", reassigning"@
}

/// The note on a subnet of another size or outside the pool.
fn misplaced(net: Ipv4Net, prefix: u8, pool: Ipv4Net) -> (r: String)
    ensures
        r@ == misplaced_text(net, prefix, pool),
{
    let mut out: String = "existing subnet ".to_owned();
    out.append(net.text().as_str());
    out.append(" is not a /");
    out.append(number::decimal_of(prefix as u64).as_str());
    out.append(" inside pool ");
    out.append(pool.text().as_str());
    out.append(", reassigning");
    out
}

/// The note on a subnet that another host has.
pub open spec fn taken_text(net: Ipv4Net) -> Seq<char> {
    "duplicate subnet "@
        + net.cidr()
        + ", reassigning"@
}

/// The note on a subnet that another host has.
fn taken(net: Ipv4Net) -> (r: String)
    ensures
        r@ == taken_text(net),
{
    let mut out: String = "duplicate subnet ".to_owned();
    out.append(net.text().as_str());
    out.append(", reassigning");
    out
}

/// The refusal of a pool without a free subnet.
pub open spec fn exhausted_text(pool: Ipv4Net, prefix: u8) -> Seq<char> {
    "pool "@
        + pool.cidr()
        + " is exhausted (no free /"@
        + number::decimal(prefix as nat)
        + " subnets)"@
}

/// The refusal of a pool without a free subnet.
fn exhausted(pool: Ipv4Net, prefix: u8) -> (r: String)
    ensures
        r@ == exhausted_text(pool, prefix),
{
    let mut out: String = "pool ".to_owned();
    out.append(pool.text().as_str());
    out.append(" is exhausted (no free /");
    out.append(number::decimal_of(prefix as u64).as_str());
    out.append(" subnets)");
    out
}

/// The note on a management address that no host of the pool can have.
pub open spec fn unusable_text(ip: u32, pool: Ipv4Net) -> Seq<char> {
    "existing mgmt IP "@
        + net::dotted(ip)
        + " is not usable inside pool "@
        + pool.cidr()
        + ", reassigning"@
}

/// The note on a management address that no host of the pool can have.
fn unusable(ip: u32, pool: Ipv4Net) -> (r: String)
    ensures
        r@ == unusable_text(ip, pool),
{
    let mut out: String = "existing mgmt IP ".to_owned();
    out.append(net::ip_text(ip).as_str());
    out.append(" is not usable inside pool ");
    out.append(pool.text().as_str());
    out.append(", reassigning");
    out
}

/// The note on a management address that another host has.
pub open spec fn taken_ip_text(ip: u32) -> Seq<char> {
    "duplicate mgmt IP "@
        + net::dotted(ip)
        + ", reassigning"@
}

/// The note on a management address that another host has.
fn taken_ip(ip: u32) -> (r: String)
    ensures
        r@ == taken_ip_text(ip),
{
    let mut out: String = "duplicate mgmt IP ".to_owned();
    out.append(net::ip_text(ip).as_str());
    out.append(", reassigning");
    out
}

/// The refusal of a pool without a free management address.
pub open spec fn exhausted_ips_text(pool: Ipv4Net) -> Seq<char> {
    "pool "@
        + pool.cidr()
        + " is exhausted (no free management IPs)"@
}

/// The refusal of a pool without a free management address.
fn exhausted_ips(pool: Ipv4Net) -> (r: String)
    ensures
        r@ == exhausted_ips_text(pool),
{
    let mut out: String = "pool ".to_owned();
    out.append(pool.text().as_str());
    out.append(" is exhausted (no free management IPs)");
    out
}


/// The first of `hosts[i..]` that stands at an earlier index too.
pub open spec fn first_repeat(hosts: Seq<Seq<char>>, i: int) -> Option<Seq<char>>
    decreases hosts.len() - i,
{
    if i < 0 || i >= hosts.len() {
        None
    } else if hosts.take(i).contains(hosts[i]) {
        Some(hosts[i])
    } else {
        first_repeat(hosts, i + 1)
    }
}

pub proof fn first_repeat_none(hosts: Seq<Seq<char>>, i: int)
    requires
        0 <= i <= hosts.len(),
        first_repeat(hosts, i) is None,
    ensures
        forall|a: int, b: int| 0 <= a < b < hosts.len() && i <= b ==> hosts[a] != hosts[b],
    decreases hosts.len() - i,
{
    if i < hosts.len() {
        first_repeat_none(hosts, i + 1);
        assert forall|a: int, b: int| 0 <= a < b < hosts.len() && i <= b implies hosts[a]
            != hosts[b] by {
            if b == i {
                assert(hosts.take(i)[a] == hosts[a]);
            }
        }
    }
}

fn repeated(hosts: &Vec<String>) -> (r: Option<String>)
    ensures
        text::opt_view(r) == first_repeat(text::views(hosts@), 0),
{
    let ghost hs = text::views(hosts@);
    let mut i: usize = 0;
    while i < hosts.len()
        invariant
            i <= hosts@.len(),
            hs == text::views(hosts@),
            first_repeat(hs, i as int) == first_repeat(hs, 0),
        decreases hosts@.len() - i,
    {
        let mut j: usize = 0;
        while j < i
            invariant
                j <= i < hosts@.len(),
                hs == text::views(hosts@),
                first_repeat(hs, i as int) == first_repeat(hs, 0),
                forall|k: int| 0 <= k < j ==> hs[k] != hs[i as int],
            decreases i - j,
        {
            if text::same(hosts[j].as_str(), hosts[i].as_str()) {
                proof {
                    assert(hs.take(i as int)[j as int] == hs[i as int]);
                }
                return Some(hosts[i].clone());
            }
            j = j + 1;
        }
        proof {
            assert forall|k: int| 0 <= k < hs.take(i as int).len() implies hs.take(i as int)[k]
                != hs[i as int] by {
                assert(hs.take(i as int)[k] == hs[k]);
            }
        }
        i = i + 1;
    }
    None
}

/// The first candidate from `n` on, in steps of `step`, that is not used and not above
/// `top`. The steps stop at the highest address.
pub open spec fn first_free(n: int, step: int, top: int, used: Set<int>) -> Option<int>
    decreases u32::MAX + 1 - n,
{
    if n > top || n > u32::MAX || step < 1 {
        None
    } else if !used.contains(n) {
        Some(n)
    } else if n == u32::MAX {
        None
    } else {
        first_free(
            if n + step > u32::MAX {
                u32::MAX as int
            } else {
                n + step
            },
            step,
            top,
            used,
        )
    }
}

/// The values of `v` as a set of integers.
pub open spec fn number_set(v: Seq<u32>) -> Set<int> {
    Set::new(|x: int| exists|i: int| 0 <= i < v.len() && #[trigger] v[i] == x)
}

pub proof fn number_set_push(v: Seq<u32>, x: u32)
    ensures
        number_set(v.push(x)) == number_set(v).insert(x as int),
{
    assert forall|y: int| number_set(v.push(x)).contains(y) <==> number_set(v).insert(
        x as int,
    ).contains(y) by {
        if number_set(v).contains(y) {
            let i = choose|i: int| 0 <= i < v.len() && #[trigger] v[i] == y;
            assert(v.push(x)[i] == y);
        }
        if y == x {
            assert(v.push(x)[v.len() as int] == y);
        }
        if number_set(v.push(x)).contains(y) {
            let i = choose|i: int| 0 <= i < v.push(x).len() && #[trigger] v.push(x)[i] == y;
            if i < v.len() {
                assert(v[i] == y);
            }
        }
    }
    assert(number_set(v.push(x)) =~= number_set(v).insert(x as int));
}

fn has_number(v: &Vec<u32>, x: u32) -> (r: bool)
    ensures
        r == number_set(v@).contains(x as int),
{
    let mut i: usize = 0;
    while i < v.len()
        invariant
            i <= v@.len(),
            forall|j: int| 0 <= j < i ==> v@[j] != x,
        decreases v@.len() - i,
    {
        if v[i] == x {
            return true;
        }
        i = i + 1;
    }
    false
}

fn find_free(from: u32, step: u32, top: u32, used: &Vec<u32>) -> (r: Option<u32>)
    requires
        step >= 1,
    ensures
        match r {
            Some(n) => first_free(from as int, step as int, top as int, number_set(used@)) == Some(
                n as int,
            ),
            None => first_free(from as int, step as int, top as int, number_set(used@)) is None,
        },
{
    let mut n: u32 = from;
    loop
        invariant
            step >= 1,
            first_free(n as int, step as int, top as int, number_set(used@)) == first_free(
                from as int,
                step as int,
                top as int,
                number_set(used@),
            ),
        decreases u32::MAX - n,
    {
        if n > top {
            return None;
        }
        if !has_number(used, n) {
            return Some(n);
        }
        if n == u32::MAX {
            return None;
        }
        if step > u32::MAX - n {
            n = u32::MAX;
        } else {
            n = n + step;
        }
    }
}

/// An allocation under way: what is assigned, what is taken, what was noted.
#[verifier::ext_equal]
pub struct Allocation<V> {
    pub entries: Seq<(Seq<char>, V)>,
    pub used: Set<int>,
    pub warnings: Seq<WarningView>,
}

/// The distance between candidate subnets. At prefix length zero the candidates are
/// single addresses.
pub open spec fn step_of(prefix: u8) -> int {
    if prefix == 0 {
        1
    } else {
        net::block_size(prefix)
    }
}

/// The existing subnets that can stay, in the order of their hosts.
pub open spec fn kept(
    pool: Ipv4Net,
    prefix: u8,
    existing: Seq<(Seq<char>, Ipv4Net)>,
    hosts: Seq<Seq<char>>,
) -> Allocation<Ipv4Net>
    decreases existing.len(),
{
    if existing.len() == 0 {
        Allocation { entries: Seq::empty(), used: Set::empty(), warnings: Seq::empty() }
    } else {
        let k = kept(pool, prefix, existing.drop_last(), hosts);
        let (host, n) = existing.last();
        if !hosts.contains(host) {
            k
        } else if n.prefix() != prefix || !pool.holds(n.base()) {
            Allocation {
                warnings: k.warnings.push(
                    WarningView { host, reason: misplaced_text(n, prefix, pool) },
                ),
                ..k
            }
        } else if k.used.contains(n.base()) {
            Allocation {
                warnings: k.warnings.push(WarningView { host, reason: taken_text(n) }),
                ..k
            }
        } else {
            Allocation {
                entries: keyed::put(k.entries, host, n),
                used: k.used.insert(n.base()),
                warnings: k.warnings,
            }
        }
    }
}

/// The allocation after each of `hosts` without a subnet got the first free one.
pub open spec fn filled(
    pool: Ipv4Net,
    prefix: u8,
    k: Allocation<Ipv4Net>,
    hosts: Seq<Seq<char>>,
) -> Option<Allocation<Ipv4Net>>
    decreases hosts.len(),
{
    if hosts.len() == 0 {
        Some(k)
    } else {
        match filled(pool, prefix, k, hosts.drop_last()) {
            None => None,
            Some(a) => if keyed::lookup(a.entries, hosts.last()) is Some {
                Some(a)
            } else {
                match first_free(pool.base(), step_of(prefix), pool.top(), a.used) {
                    None => None,
                    Some(n) => Some(
                        Allocation {
                            entries: keyed::put(
                                a.entries,
                                hosts.last(),
                                Ipv4Net::make(n as u32, prefix),
                            ),
                            used: a.used.insert(n),
                            warnings: a.warnings,
                        },
                    ),
                }
            },
        }
    }
}

/// A subnet for each host, and the notes; or why there is none.
pub open spec fn allocation(
    pool: Ipv4Net,
    prefix: u8,
    existing: Seq<(Seq<char>, Ipv4Net)>,
    hosts: Seq<Seq<char>>,
) -> Result<(Seq<(Seq<char>, Ipv4Net)>, Seq<WarningView>), Seq<char>> {
    if prefix < pool.prefix() || prefix > 32 {
        Err(bad_prefix_text(prefix, pool))
    } else if first_repeat(hosts, 0) is Some {
        Err(duplicate_host_text(first_repeat(hosts, 0)->0))
    } else {
        match filled(pool, prefix, kept(pool, prefix, existing, hosts), hosts) {
            None => Err(exhausted_text(pool, prefix)),
            Some(a) => Ok((a.entries, a.warnings)),
        }
    }
}

/// An allocation result as `allocation` states it.
pub open spec fn result_view<V>(
    r: Result<(StrMap<V>, Vec<Warning>), String>,
) -> Result<(Seq<(Seq<char>, V)>, Seq<WarningView>), Seq<char>> {
    match r {
        Ok((m, w)) => Ok((m@, warning_views(w@))),
        Err(e) => Err(e@),
    }
}

/// The first address of a subnet that a host can have.
pub fn machine_ip(net: Ipv4Net) -> (r: u32)
    requires
        net.base() < u32::MAX,
    ensures
        r == net.base() + 1,
{
    net.network() + 1
}

fn keep_existing(
    pool: Ipv4Net,
    prefix: u8,
    existing: &StrMap<Ipv4Net>,
    hosts: &Vec<String>,
) -> (r: (StrMap<Ipv4Net>, Vec<u32>, Vec<Warning>))
    ensures
        ({
            let k = kept(pool, prefix, existing@, text::views(hosts@));
            r.0@ == k.entries && number_set(r.1@) == k.used && warning_views(r.2@) == k.warnings
        }),
{
    broadcast use warning_views_push;

    let mut result: StrMap<Ipv4Net> = StrMap::new();
    let mut used: Vec<u32> = Vec::new();
    let mut warnings: Vec<Warning> = Vec::new();
    let mut i: usize = 0;
    let ghost hs = text::views(hosts@);
    proof {
        assert(existing@.take(0) =~= Seq::empty());
        assert(number_set(used@) =~= Set::empty());
        assert(warning_views(warnings@) =~= Seq::empty());
    }
    while i < existing.len()
        invariant
            i <= existing@.len(),
            hs == text::views(hosts@),
            ({
                let k = kept(pool, prefix, existing@.take(i as int), hs);
                result@ == k.entries && number_set(used@) == k.used && warning_views(warnings@)
                    == k.warnings
            }),
        decreases existing@.len() - i,
    {
        let ghost next = existing@.take(i + 1);
        proof {
            assert(next.drop_last() =~= existing@.take(i as int));
            assert(next.last() == existing@[i as int]);
        }
        let host: &String = existing.key(i);
        let n: Ipv4Net = *existing.value(i);
        i = i + 1;
        if !text::has_string(hosts, host.as_str()) {
            continue ;
        }
        if n.prefix_len() != prefix || !pool.contains(n.network()) {
            warnings.push(Warning { host: host.clone(), reason: misplaced(n, prefix, pool) });
            continue ;
        }
        let at: u32 = n.network();
        if has_number(&used, at) {
            warnings.push(Warning { host: host.clone(), reason: taken(n) });
            continue ;
        }
        proof {
            number_set_push(used@, at);
        }
        used.push(at);
        result.insert(host.clone(), n);
    }
    proof {
        assert(existing@.take(i as int) =~= existing@);
    }
    (result, used, warnings)
}

/// Assigns each host a subnet of the pool: valid existing ones stay, the others get the
/// first free one.
pub fn allocate(
    pool: Ipv4Net,
    prefix: u8,
    existing: &StrMap<Ipv4Net>,
    hosts: &Vec<String>,
) -> (r: Result<(StrMap<Ipv4Net>, Vec<Warning>), String>)
    ensures
        result_view(r) == allocation(pool, prefix, existing@, text::views(hosts@)),
{
    broadcast use net::make_parts;

    if prefix < pool.prefix_len() || prefix > 32 {
        return Err(bad_prefix(prefix, pool));
    }
    if let Some(h) = repeated(hosts) {
        return Err(duplicate_host(h.as_str()));
    }
    let base: u32 = pool.network();
    let top: u32 = pool.broadcast();
    let step: u32 = if prefix == 0 {
        1
    } else {
        net::block(prefix)
    };
    proof {
        net::block_size_bounds(prefix);
    }
    let (mut result, mut used, warnings): (StrMap<Ipv4Net>, Vec<u32>, Vec<Warning>) = keep_existing(
        pool,
        prefix,
        existing,
        hosts,
    );
    let ghost hs = text::views(hosts@);
    let ghost k = kept(pool, prefix, existing@, hs);
    let mut i: usize = 0;
    proof {
        assert(hs.take(0) =~= Seq::empty());
    }
    while i < hosts.len()
        invariant
            i <= hosts@.len(),
            hs == text::views(hosts@),
            k == kept(pool, prefix, existing@, hs),
            pool.prefix() <= prefix <= 32,
            first_repeat(hs, 0) is None,
            base == pool.base(),
            top == pool.top(),
            step == step_of(prefix),
            step >= 1,
            filled(pool, prefix, k, hs.take(i as int)) == Some(
                Allocation {
                    entries: result@,
                    used: number_set(used@),
                    warnings: warning_views(warnings@),
                },
            ),
        decreases hosts@.len() - i,
    {
        let ghost next = hs.take(i + 1);
        proof {
            assert(next.drop_last() =~= hs.take(i as int));
            assert(next.last() == hosts@[i as int]@);
        }
        let host: &String = &hosts[i];
        if !result.contains_key(host.as_str()) {
            match find_free(base, step, top, &used) {
                None => {
                    proof {
                        filled_none_stays(pool, prefix, k, hs, i + 1);
                    }
                    return Err(exhausted(pool, prefix));
                },
                Some(n) => {
                    proof {
                        number_set_push(used@, n);
                    }
                    used.push(n);
                    if let Some(net) = Ipv4Net::new(n, prefix) {
                        result.insert(host.clone(), net);
                    }
                },
            }
        }
        i = i + 1;
    }
    proof {
        assert(hs.take(i as int) =~= hs);
    }
    Ok((result, warnings))
}

/// Once the pool is exhausted, more hosts do not help.
proof fn filled_none_stays(
    pool: Ipv4Net,
    prefix: u8,
    k: Allocation<Ipv4Net>,
    hosts: Seq<Seq<char>>,
    i: int,
)
    requires
        0 <= i <= hosts.len(),
        filled(pool, prefix, k, hosts.take(i)) is None,
    ensures
        filled(pool, prefix, k, hosts) is None,
    decreases hosts.len() - i,
{
    if i < hosts.len() {
        assert(hosts.take(i + 1).drop_last() =~= hosts.take(i));
        filled_none_stays(pool, prefix, k, hosts, i + 1);
    } else {
        assert(hosts.take(i) =~= hosts);
    }
}

/// The existing management addresses that can stay, in the order of their hosts.
pub open spec fn kept_ips(
    pool: Ipv4Net,
    existing: Seq<(Seq<char>, u32)>,
    hosts: Seq<Seq<char>>,
) -> Allocation<u32>
    decreases existing.len(),
{
    if existing.len() == 0 {
        Allocation { entries: Seq::empty(), used: Set::empty(), warnings: Seq::empty() }
    } else {
        let k = kept_ips(pool, existing.drop_last(), hosts);
        let (host, ip) = existing.last();
        if !hosts.contains(host) {
            k
        } else if ip == pool.base() || ip == pool.top() || !pool.holds(ip as int) {
            Allocation {
                warnings: k.warnings.push(WarningView { host, reason: unusable_text(ip, pool) }),
                ..k
            }
        } else if k.used.contains(ip as int) {
            Allocation {
                warnings: k.warnings.push(WarningView { host, reason: taken_ip_text(ip) }),
                ..k
            }
        } else {
            Allocation {
                entries: keyed::put(k.entries, host, ip),
                used: k.used.insert(ip as int),
                warnings: k.warnings,
            }
        }
    }
}

/// The first address after the network's own.
pub open spec fn first_host(pool: Ipv4Net) -> int {
    if pool.base() >= u32::MAX {
        u32::MAX as int
    } else {
        pool.base() + 1
    }
}

/// The allocation after each of `hosts` without an address got the first free one.
pub open spec fn filled_ips(
    pool: Ipv4Net,
    k: Allocation<u32>,
    hosts: Seq<Seq<char>>,
) -> Option<Allocation<u32>>
    decreases hosts.len(),
{
    if hosts.len() == 0 {
        Some(k)
    } else {
        match filled_ips(pool, k, hosts.drop_last()) {
            None => None,
            Some(a) => if keyed::lookup(a.entries, hosts.last()) is Some {
                Some(a)
            } else {
                match first_free(first_host(pool), 1, pool.top() - 1, a.used) {
                    None => None,
                    Some(n) => Some(
                        Allocation {
                            entries: keyed::put(a.entries, hosts.last(), n as u32),
                            used: a.used.insert(n),
                            warnings: a.warnings,
                        },
                    ),
                }
            },
        }
    }
}

/// A management address for each host, and the notes; or why there is none.
pub open spec fn ip_allocation(
    pool: Ipv4Net,
    existing: Seq<(Seq<char>, u32)>,
    hosts: Seq<Seq<char>>,
) -> Result<(Seq<(Seq<char>, u32)>, Seq<WarningView>), Seq<char>> {
    if first_repeat(hosts, 0) is Some {
        Err(duplicate_host_text(first_repeat(hosts, 0)->0))
    } else {
        match filled_ips(pool, kept_ips(pool, existing, hosts), hosts) {
            None => Err(exhausted_ips_text(pool)),
            Some(a) => Ok((a.entries, a.warnings)),
        }
    }
}

fn keep_ips(pool: Ipv4Net, existing: &StrMap<u32>, hosts: &Vec<String>) -> (r: (
    StrMap<u32>,
    Vec<u32>,
    Vec<Warning>,
))
    ensures
        ({
            let k = kept_ips(pool, existing@, text::views(hosts@));
            r.0@ == k.entries && number_set(r.1@) == k.used && warning_views(r.2@) == k.warnings
        }),
{
    broadcast use warning_views_push;

    let base: u32 = pool.network();
    let top: u32 = pool.broadcast();
    let mut result: StrMap<u32> = StrMap::new();
    let mut used: Vec<u32> = Vec::new();
    let mut warnings: Vec<Warning> = Vec::new();
    let mut i: usize = 0;
    let ghost hs = text::views(hosts@);
    proof {
        assert(existing@.take(0) =~= Seq::empty());
        assert(number_set(used@) =~= Set::empty());
        assert(warning_views(warnings@) =~= Seq::empty());
    }
    while i < existing.len()
        invariant
            i <= existing@.len(),
            hs == text::views(hosts@),
            base == pool.base(),
            top == pool.top(),
            ({
                let k = kept_ips(pool, existing@.take(i as int), hs);
                result@ == k.entries && number_set(used@) == k.used && warning_views(warnings@)
                    == k.warnings
            }),
        decreases existing@.len() - i,
    {
        let ghost next = existing@.take(i + 1);
        proof {
            assert(next.drop_last() =~= existing@.take(i as int));
            assert(next.last() == existing@[i as int]);
        }
        let host: &String = existing.key(i);
        let ip: u32 = *existing.value(i);
        i = i + 1;
        if !text::has_string(hosts, host.as_str()) {
            continue ;
        }
        if ip == base || ip == top || !pool.contains(ip) {
            warnings.push(Warning { host: host.clone(), reason: unusable(ip, pool) });
            continue ;
        }
        if has_number(&used, ip) {
            warnings.push(Warning { host: host.clone(), reason: taken_ip(ip) });
            continue ;
        }
        proof {
            number_set_push(used@, ip);
        }
        used.push(ip);
        result.insert(host.clone(), ip);
    }
    proof {
        assert(existing@.take(i as int) =~= existing@);
    }
    (result, used, warnings)
}

/// Assigns each host a management address of the pool: valid existing ones stay, the
/// others get the first free one between the network's own and the broadcast address.
pub fn allocate_mgmt_ips(
    pool: Ipv4Net,
    existing: &StrMap<u32>,
    hosts: &Vec<String>,
) -> (r: Result<(StrMap<u32>, Vec<Warning>), String>)
    ensures
        result_view(r) == ip_allocation(pool, existing@, text::views(hosts@)),
{
    broadcast use warning_views_push;

    if let Some(h) = repeated(hosts) {
        return Err(duplicate_host(h.as_str()));
    }
    let base: u32 = pool.network();
    let top: u32 = pool.broadcast();
    let first: u32 = if base == u32::MAX {
        u32::MAX
    } else {
        base + 1
    };
    let (mut result, mut used, warnings): (StrMap<u32>, Vec<u32>, Vec<Warning>) = keep_ips(
        pool,
        existing,
        hosts,
    );
    let ghost hs = text::views(hosts@);
    let ghost k = kept_ips(pool, existing@, hs);
    let mut i: usize = 0;
    proof {
        assert(hs.take(0) =~= Seq::empty());
    }
    while i < hosts.len()
        invariant
            i <= hosts@.len(),
            hs == text::views(hosts@),
            k == kept_ips(pool, existing@, hs),
            first_repeat(hs, 0) is None,
            first == first_host(pool),
            top == pool.top(),
            filled_ips(pool, k, hs.take(i as int)) == Some(
                Allocation {
                    entries: result@,
                    used: number_set(used@),
                    warnings: warning_views(warnings@),
                },
            ),
        decreases hosts@.len() - i,
    {
        let ghost next = hs.take(i + 1);
        proof {
            assert(next.drop_last() =~= hs.take(i as int));
            assert(next.last() == hosts@[i as int]@);
        }
        let host: &String = &hosts[i];
        if !result.contains_key(host.as_str()) {
            let free: Option<u32> = if top == 0 {
                None
            } else {
                find_free(first, 1, top - 1, &used)
            };
            match free {
                None => {
                    proof {
                        filled_ips_none_stays(pool, k, hs, i + 1);
                    }
                    return Err(exhausted_ips(pool));
                },
                Some(n) => {
                    proof {
                        number_set_push(used@, n);
                    }
                    used.push(n);
                    result.insert(host.clone(), n);
                },
            }
        }
        i = i + 1;
    }
    proof {
        assert(hs.take(i as int) =~= hs);
    }
    Ok((result, warnings))
}

/// Once the pool is exhausted, more hosts do not help.
proof fn filled_ips_none_stays(pool: Ipv4Net, k: Allocation<u32>, hosts: Seq<Seq<char>>, i: int)
    requires
        0 <= i <= hosts.len(),
        filled_ips(pool, k, hosts.take(i)) is None,
    ensures
        filled_ips(pool, k, hosts) is None,
    decreases hosts.len() - i,
{
    if i < hosts.len() {
        assert(hosts.take(i + 1).drop_last() =~= hosts.take(i));
        filled_ips_none_stays(pool, k, hosts, i + 1);
    } else {
        assert(hosts.take(i) =~= hosts);
    }
}

// ---------------------------------------------------------------------------
// Namespaces
// ---------------------------------------------------------------------------

/// The key of a host in a namespace.
pub open spec fn pair_key(ns: Seq<char>, host: Seq<char>) -> Seq<char> {
    ns + "/"@ + host
}

fn pair_name(ns: &str, host: &str) -> (r: String)
    ensures
        r@ == pair_key(ns@, host@),
{
    let mut out: String = ns.to_owned();
    out.append("/");
    out.append(host);
    out
}

/// The keys of `hosts` in one namespace.
pub open spec fn row_keys(ns: Seq<char>, hosts: Seq<Seq<char>>) -> Seq<Seq<char>> {
    Seq::new(hosts.len(), |i: int| pair_key(ns, hosts[i]))
}

/// The keys of all pairs, namespace by namespace.
pub open spec fn all_keys(namespaces: Seq<Seq<char>>, hosts: Seq<Seq<char>>) -> Seq<Seq<char>>
    decreases namespaces.len(),
{
    if namespaces.len() == 0 {
        Seq::empty()
    } else {
        all_keys(namespaces.drop_last(), hosts) + row_keys(namespaces.last(), hosts)
    }
}

/// The existing subnets of one namespace under their pair keys, put into `flat`.
pub open spec fn row_flattened(
    existing: Seq<(Seq<char>, Seq<(Seq<char>, Ipv4Net)>)>,
    ns: Seq<char>,
    hosts: Seq<Seq<char>>,
    flat: Seq<(Seq<char>, Ipv4Net)>,
) -> Seq<(Seq<char>, Ipv4Net)>
    decreases hosts.len(),
{
    if hosts.len() == 0 {
        flat
    } else {
        let before = row_flattened(existing, ns, hosts.drop_last(), flat);
        match keyed::lookup2(existing, ns, hosts.last()) {
            Some(n) => keyed::put(before, pair_key(ns, hosts.last()), n),
            None => before,
        }
    }
}

/// The existing subnets of all pairs under their pair keys.
pub open spec fn flattened(
    existing: Seq<(Seq<char>, Seq<(Seq<char>, Ipv4Net)>)>,
    namespaces: Seq<Seq<char>>,
    hosts: Seq<Seq<char>>,
) -> Seq<(Seq<char>, Ipv4Net)>
    decreases namespaces.len(),
{
    if namespaces.len() == 0 {
        Seq::empty()
    } else {
        row_flattened(
            existing,
            namespaces.last(),
            hosts,
            flattened(existing, namespaces.drop_last(), hosts),
        )
    }
}

/// The subnets of one namespace by host.
pub open spec fn row(
    flat: Seq<(Seq<char>, Ipv4Net)>,
    ns: Seq<char>,
    hosts: Seq<Seq<char>>,
) -> Seq<(Seq<char>, Ipv4Net)>
    decreases hosts.len(),
{
    if hosts.len() == 0 {
        Seq::empty()
    } else {
        keyed::put(
            row(flat, ns, hosts.drop_last()),
            hosts.last(),
            keyed::lookup(flat, pair_key(ns, hosts.last()))->0,
        )
    }
}

/// The subnets by namespace and host. Without hosts no namespace has an entry.
pub open spec fn grouped(
    flat: Seq<(Seq<char>, Ipv4Net)>,
    namespaces: Seq<Seq<char>>,
    hosts: Seq<Seq<char>>,
) -> Seq<(Seq<char>, Seq<(Seq<char>, Ipv4Net)>)>
    decreases namespaces.len(),
{
    if namespaces.len() == 0 || hosts.len() == 0 {
        Seq::empty()
    } else {
        keyed::put(
            grouped(flat, namespaces.drop_last(), hosts),
            namespaces.last(),
            row(flat, namespaces.last(), hosts),
        )
    }
}

/// A subnet for each host in each namespace, and the notes; or why there is none.
pub open spec fn namespaced_allocation(
    pool: Ipv4Net,
    prefix: u8,
    existing: Seq<(Seq<char>, Seq<(Seq<char>, Ipv4Net)>)>,
    namespaces: Seq<Seq<char>>,
    hosts: Seq<Seq<char>>,
) -> Result<(Seq<(Seq<char>, Seq<(Seq<char>, Ipv4Net)>)>, Seq<WarningView>), Seq<char>> {
    if first_repeat(namespaces, 0) is Some {
        Err(duplicate_namespace_text(first_repeat(namespaces, 0)->0))
    } else {
        match allocation(
            pool,
            prefix,
            flattened(existing, namespaces, hosts),
            all_keys(namespaces, hosts),
        ) {
            Err(e) => Err(e),
            Ok((flat, warnings)) => Ok((grouped(flat, namespaces, hosts), warnings)),
        }
    }
}

/// A namespaced result as `namespaced_allocation` states it.
pub open spec fn nested_result(
    r: Result<(StrMap<StrMap<Ipv4Net>>, Vec<Warning>), String>,
) -> Result<(Seq<(Seq<char>, Seq<(Seq<char>, Ipv4Net)>)>, Seq<WarningView>), Seq<char>> {
    match r {
        Ok((m, w)) => Ok((keyed::nested(m@), warning_views(w@))),
        Err(e) => Err(e@),
    }
}

proof fn filled_keeps(
    pool: Ipv4Net,
    prefix: u8,
    k: Allocation<Ipv4Net>,
    hosts: Seq<Seq<char>>,
    x: Seq<char>,
)
    requires
        filled(pool, prefix, k, hosts) is Some,
    ensures
        hosts.contains(x) ==> keyed::lookup(filled(pool, prefix, k, hosts)->0.entries, x) is Some,
        keyed::lookup(k.entries, x) is Some ==> keyed::lookup(
            filled(pool, prefix, k, hosts)->0.entries,
            x,
        ) == keyed::lookup(k.entries, x),
    decreases hosts.len(),
{
    if hosts.len() > 0 {
        let a = filled(pool, prefix, k, hosts.drop_last())->0;
        filled_keeps(pool, prefix, k, hosts.drop_last(), x);
        if hosts.contains(x) && x != hosts.last() {
            let i = choose|i: int| 0 <= i < hosts.len() && hosts[i] == x;
            assert(hosts.drop_last()[i] == x);
        }
        if keyed::lookup(a.entries, hosts.last()) is None {
            let n = first_free(pool.base(), step_of(prefix), pool.top(), a.used)->0;
            keyed::lookup_put(a.entries, hosts.last(), Ipv4Net::make(n as u32, prefix), x);
        }
    }
}

/// What was kept stays as more hosts are served.
pub proof fn filled_keeps_entry(
    pool: Ipv4Net,
    prefix: u8,
    k: Allocation<Ipv4Net>,
    hosts: Seq<Seq<char>>,
    x: Seq<char>,
)
    requires
        filled(pool, prefix, k, hosts) is Some,
        keyed::lookup(k.entries, x) is Some,
    ensures
        keyed::lookup(filled(pool, prefix, k, hosts)->0.entries, x) == keyed::lookup(k.entries, x),
{
    filled_keeps(pool, prefix, k, hosts, x);
}

/// Every host of a successful allocation has a subnet.
pub proof fn allocation_covers(
    pool: Ipv4Net,
    prefix: u8,
    existing: Seq<(Seq<char>, Ipv4Net)>,
    hosts: Seq<Seq<char>>,
    host: Seq<char>,
)
    requires
        allocation(pool, prefix, existing, hosts) is Ok,
        hosts.contains(host),
    ensures
        keyed::lookup(allocation(pool, prefix, existing, hosts)->Ok_0.0, host) is Some,
{
    filled_keeps(pool, prefix, kept(pool, prefix, existing, hosts), hosts, host);
}

pub proof fn all_keys_contains(
    namespaces: Seq<Seq<char>>,
    hosts: Seq<Seq<char>>,
    ns: Seq<char>,
    host: Seq<char>,
)
    requires
        namespaces.contains(ns),
        hosts.contains(host),
    ensures
        all_keys(namespaces, hosts).contains(pair_key(ns, host)),
    decreases namespaces.len(),
{
    let early = all_keys(namespaces.drop_last(), hosts);
    let late = row_keys(namespaces.last(), hosts);
    if ns == namespaces.last() {
        let i = choose|i: int| 0 <= i < hosts.len() && hosts[i] == host;
        assert(late[i] == pair_key(ns, host));
        assert((early + late)[early.len() + i] == pair_key(ns, host));
    } else {
        let i = choose|i: int| 0 <= i < namespaces.len() && namespaces[i] == ns;
        assert(namespaces.drop_last()[i] == ns);
        all_keys_contains(namespaces.drop_last(), hosts, ns, host);
        let j = choose|j: int| 0 <= j < early.len() && early[j] == pair_key(ns, host);
        assert((early + late)[j] == pair_key(ns, host));
    }
}

fn flatten(
    existing: &StrMap<StrMap<Ipv4Net>>,
    namespaces: &Vec<String>,
    hosts: &Vec<String>,
) -> (r: (StrMap<Ipv4Net>, Vec<String>))
    ensures
        r.0@ == flattened(
            keyed::nested(existing@),
            text::views(namespaces@),
            text::views(hosts@),
        ),
        text::views(r.1@) == all_keys(text::views(namespaces@), text::views(hosts@)),
{
    broadcast use text::views_push;

    let ghost ex = keyed::nested(existing@);
    let ghost nss = text::views(namespaces@);
    let ghost hs = text::views(hosts@);
    let mut flat: StrMap<Ipv4Net> = StrMap::new();
    let mut keys: Vec<String> = Vec::new();
    let mut i: usize = 0;
    proof {
        assert(nss.take(0) =~= Seq::empty());
        assert(text::views(keys@) =~= Seq::empty());
    }
    while i < namespaces.len()
        invariant
            i <= namespaces@.len(),
            ex == keyed::nested(existing@),
            nss == text::views(namespaces@),
            hs == text::views(hosts@),
            flat@ == flattened(ex, nss.take(i as int), hs),
            text::views(keys@) == all_keys(nss.take(i as int), hs),
        decreases namespaces@.len() - i,
    {
        let ns: &String = &namespaces[i];
        let ghost flat0 = flat@;
        let ghost keys0 = text::views(keys@);
        let mut j: usize = 0;
        proof {
            assert(hs.take(0) =~= Seq::empty());
            assert(keys0 + row_keys(ns@, hs.take(0)) =~= keys0);
        }
        while j < hosts.len()
            invariant
                j <= hosts@.len(),
                ex == keyed::nested(existing@),
                hs == text::views(hosts@),
                flat@ == row_flattened(ex, ns@, hs.take(j as int), flat0),
                text::views(keys@) == keys0 + row_keys(ns@, hs.take(j as int)),
            decreases hosts@.len() - j,
        {
            let h: &String = &hosts[j];
            proof {
                assert(hs.take(j + 1).drop_last() =~= hs.take(j as int));
                assert(hs.take(j + 1).last() == h@);
                keyed::nested_lookup(existing@, ns@);
                assert(keys0 + row_keys(ns@, hs.take(j + 1)) =~= (keys0 + row_keys(
                    ns@,
                    hs.take(j as int),
                )).push(pair_key(ns@, h@)));
            }
            if let Some(m) = existing.get(ns.as_str()) {
                if let Some(n) = m.get(h.as_str()) {
                    flat.insert(pair_name(ns.as_str(), h.as_str()), *n);
                }
            }
            keys.push(pair_name(ns.as_str(), h.as_str()));
            j = j + 1;
        }
        proof {
            assert(hs.take(j as int) =~= hs);
            assert(nss.take(i + 1).drop_last() =~= nss.take(i as int));
            assert(nss.take(i + 1).last() == ns@);
        }
        i = i + 1;
    }
    proof {
        assert(nss.take(i as int) =~= nss);
    }
    (flat, keys)
}

/// Assigns each host a subnet of the pool in each namespace.
pub fn allocate_namespaced(
    pool: Ipv4Net,
    prefix: u8,
    existing: &StrMap<StrMap<Ipv4Net>>,
    namespaces: &Vec<String>,
    hosts: &Vec<String>,
) -> (r: Result<(StrMap<StrMap<Ipv4Net>>, Vec<Warning>), String>)
    ensures
        nested_result(r) == namespaced_allocation(
            pool,
            prefix,
            keyed::nested(existing@),
            text::views(namespaces@),
            text::views(hosts@),
        ),
{
    let ghost ex = keyed::nested(existing@);
    let ghost nss = text::views(namespaces@);
    let ghost hs = text::views(hosts@);
    if let Some(ns) = repeated(namespaces) {
        return Err(duplicate_namespace(ns.as_str()));
    }
    let (all_existing, all): (StrMap<Ipv4Net>, Vec<String>) = flatten(existing, namespaces, hosts);
    let (flat, warnings): (StrMap<Ipv4Net>, Vec<Warning>) = match allocate(
        pool,
        prefix,
        &all_existing,
        &all,
    ) {
        Ok(x) => x,
        Err(e) => return Err(e),
    };
    let mut out: StrMap<StrMap<Ipv4Net>> = StrMap::new();
    let mut i: usize = 0;
    proof {
        assert(nss.take(0) =~= Seq::empty());
        assert(keyed::nested(out@) =~= Seq::empty());
    }
    while i < namespaces.len()
        invariant
            i <= namespaces@.len(),
            nss == text::views(namespaces@),
            hs == text::views(hosts@),
            allocation(pool, prefix, flattened(ex, nss, hs), all_keys(nss, hs)) is Ok,
            flat@ == allocation(pool, prefix, flattened(ex, nss, hs), all_keys(nss, hs))->Ok_0.0,
            keyed::nested(out@) == grouped(flat@, nss.take(i as int), hs),
        decreases namespaces@.len() - i,
    {
        let ns: &String = &namespaces[i];
        let mut inner: StrMap<Ipv4Net> = StrMap::new();
        let mut j: usize = 0;
        proof {
            assert(hs.take(0) =~= Seq::empty());
            assert(nss.take(i + 1).drop_last() =~= nss.take(i as int));
            assert(nss.take(i + 1).last() == ns@);
            assert(nss[i as int] == ns@);
        }
        while j < hosts.len()
            invariant
                j <= hosts@.len(),
                nss == text::views(namespaces@),
                hs == text::views(hosts@),
                nss.contains(ns@),
                allocation(pool, prefix, flattened(ex, nss, hs), all_keys(nss, hs)) is Ok,
                flat@ == allocation(
                    pool,
                    prefix,
                    flattened(ex, nss, hs),
                    all_keys(nss, hs),
                )->Ok_0.0,
                inner@ == row(flat@, ns@, hs.take(j as int)),
            decreases hosts@.len() - j,
        {
            let h: &String = &hosts[j];
            let key: String = pair_name(ns.as_str(), h.as_str());
            proof {
                assert(hs.take(j + 1).drop_last() =~= hs.take(j as int));
                assert(hs.take(j + 1).last() == h@);
                assert(hs[j as int] == h@);
                all_keys_contains(nss, hs, ns@, h@);
                allocation_covers(
                    pool,
                    prefix,
                    flattened(ex, nss, hs),
                    all_keys(nss, hs),
                    key@,
                );
            }
            if let Some(n) = flat.get(key.as_str()) {
                inner.insert(h.clone(), *n);
            }
            j = j + 1;
        }
        proof {
            assert(hs.take(j as int) =~= hs);
            keyed::nested_put(out@, ns@, inner);
        }
        if hosts.len() > 0 {
            out.insert(ns.clone(), inner);
        }
        i = i + 1;
    }
    proof {
        assert(nss.take(i as int) =~= nss);
    }
    Ok((out, warnings))
}

} // verus!
