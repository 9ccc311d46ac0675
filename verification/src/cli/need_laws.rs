//! What a plan foresees for a host, and in which order.

use vstd::prelude::*;
use crate::cli::coold;
use crate::cli::corrosion;
use crate::cli::corrosion::CorrosionFiles;
use crate::cli::firewall;
use crate::cli::plan;
use crate::cli::plan::PlanView;
use crate::digest;
use crate::keyed;
use crate::mesh::action::{ActionType, ActionView, SkippedView};
use crate::mesh::intent;
use crate::mesh::intent::Category;
use crate::mesh::state;
use crate::mesh::state::{DesiredMesh, PeerView, ServerView};
use crate::mesh::subnet;
use crate::mesh::subnet_laws;
use crate::net::Ipv4Net;
use crate::text;

verus! {

/// Whether an action of this kind for this host and namespace stands in a list.
pub open spec fn stands(s: Seq<ActionView>, host: Seq<char>, t: ActionType, ns: Seq<char>) -> bool {
    exists|i: int|
        0 <= i < s.len() && (#[trigger] s[i]).host == host && s[i].action_type == t
            && s[i].namespace == ns
}

/// Whether a plan foresees an action: it is carried out, or left out with a reason.
pub open spec fn foresees(p: PlanView, host: Seq<char>, t: ActionType, ns: Seq<char>) -> bool {
    stands(p.actions, host, t, ns) || stands(intent::actions_of(p.skipped), host, t, ns)
}

/// Whether a host has a peer with this key.
pub open spec fn has_peer(peers: Seq<PeerView>, key: Seq<char>) -> bool {
    exists|k: int| 0 <= k < peers.len() && (#[trigger] peers[k]).public_key == key
}

/// Whether a host knows another as its peer: the other has a key, and a peer of the host has
/// that key.
pub open spec fn knows(
    cur: Seq<(Seq<char>, ServerView)>,
    host: Seq<char>,
    other: Seq<char>,
) -> bool {
    keyed::lookup(cur, other) matches Some(o) && o.public_key.len() > 0 && (keyed::lookup(cur, host) matches Some(st)
        && has_peer(st.peers, o.public_key))
}

/// Whether a key is the one of another host of the mesh.
pub open spec fn is_key_of_other(
    hosts: Seq<Seq<char>>,
    cur: Seq<(Seq<char>, ServerView)>,
    host: Seq<char>,
    key: Seq<char>,
) -> bool {
    exists|j: int|
        0 <= j < hosts.len() && #[trigger] hosts[j] != host && key.len() > 0 && (keyed::lookup(
            cur,
            hosts[j],
        ) matches Some(o) && o.public_key == key)
}

proof fn stands_sum(
    a: Seq<ActionView>,
    b: Seq<ActionView>,
    host: Seq<char>,
    t: ActionType,
    ns: Seq<char>,
)
    ensures
        stands(a + b, host, t, ns) <==> stands(a, host, t, ns) || stands(b, host, t, ns),
{
    let s = a + b;
    if stands(s, host, t, ns) {
        let i = choose|i: int|
            0 <= i < s.len() && (#[trigger] s[i]).host == host && s[i].action_type == t
                && s[i].namespace == ns;
        if i < a.len() {
            assert(a[i] == s[i]);
        } else {
            assert(b[i - a.len()] == s[i]);
        }
    }
    if stands(a, host, t, ns) {
        let i = choose|i: int|
            0 <= i < a.len() && (#[trigger] a[i]).host == host && a[i].action_type == t
                && a[i].namespace == ns;
        assert(s[i] == a[i]);
    }
    if stands(b, host, t, ns) {
        let i = choose|i: int|
            0 <= i < b.len() && (#[trigger] b[i]).host == host && b[i].action_type == t
                && b[i].namespace == ns;
        assert(s[i + a.len()] == b[i]);
    }
}

proof fn stands_when(needed: bool, a: ActionView, host: Seq<char>, t: ActionType, ns: Seq<char>)
    ensures
        stands(plan::when(needed, a), host, t, ns) <==> needed && a.host == host && a.action_type == t
            && a.namespace == ns,
{
    if needed {
        assert(plan::when(needed, a)[0] == a);
    }
}

proof fn stands_keys(
    a: Seq<(Seq<char>, ())>,
    b: Seq<(Seq<char>, ())>,
    host: Seq<char>,
    k: ActionType,
    t: ActionType,
    ns: Seq<char>,
)
    ensures
        stands(plan::key_actions(a, b, host, k), host, t, ns) <==> k == t && ns.len() == 0
            && plan::lacks(a, b),
    decreases a.len(),
{
    if a.len() > 0 {
        let p = a.drop_last();
        let last = a.last().0;
        stands_keys(p, b, host, k, t, ns);
        stands_sum(
            plan::key_actions(p, b, host, k),
            plan::when(
                keyed::lookup(b, last) is None,
                plan::act(host, Seq::empty(), k, plan::truncated(last)),
            ),
            host,
            t,
            ns,
        );
        stands_when(
            keyed::lookup(b, last) is None,
            plan::act(host, Seq::empty(), k, plan::truncated(last)),
            host,
            t,
            ns,
        );
        if ns.len() == 0 {
            assert(ns =~= Seq::<char>::empty());
        }
        if plan::lacks(p, b) {
            let i = choose|i: int| 0 <= i < p.len() && keyed::lookup(b, (#[trigger] p[i]).0) is None;
            assert(a[i] == p[i]);
        }
        if plan::lacks(a, b) {
            let i = choose|i: int| 0 <= i < a.len() && keyed::lookup(b, (#[trigger] a[i]).0) is None;
            if i < p.len() {
                assert(p[i] == a[i]);
            }
        }
        if keyed::lookup(b, last) is None {
            assert(keyed::lookup(b, a[a.len() - 1].0) is None);
        }
    }
}

/// The keys that a host has are those of its peers.
proof fn current_keys_are(peers: Seq<PeerView>, key: Seq<char>)
    ensures
        keyed::lookup(plan::current_keys(peers), key) is Some <==> has_peer(peers, key),
    decreases peers.len(),
{
    if peers.len() > 0 {
        let t = peers.drop_last();
        current_keys_are(t, key);
        keyed::lookup_put(plan::current_keys(t), peers.last().public_key, (), key);
        if has_peer(t, key) {
            let k = choose|k: int| 0 <= k < t.len() && (#[trigger] t[k]).public_key == key;
            assert(peers[k] == t[k]);
        }
        if has_peer(peers, key) {
            let k = choose|k: int| 0 <= k < peers.len() && (#[trigger] peers[k]).public_key == key;
            if k < t.len() {
                assert(t[k] == peers[k]);
            }
        }
        assert(peers[peers.len() - 1] == peers.last());
    }
}

/// The keys that a host should have are those of the other hosts.
proof fn desired_keys_are(
    hosts: Seq<Seq<char>>,
    cur: Seq<(Seq<char>, ServerView)>,
    host: Seq<char>,
    key: Seq<char>,
)
    ensures
        keyed::lookup(plan::desired_keys(hosts, cur, host), key) is Some <==> is_key_of_other(
            hosts,
            cur,
            host,
            key,
        ),
    decreases hosts.len(),
{
    if hosts.len() > 0 {
        let t = hosts.drop_last();
        let p = hosts.last();
        desired_keys_are(t, cur, host, key);
        keyed::lookup_put(plan::desired_keys(t, cur, host), plan::key_of(cur, p), (), key);
        if is_key_of_other(t, cur, host, key) {
            let j = choose|j: int|
                0 <= j < t.len() && #[trigger] t[j] != host && key.len() > 0 && (keyed::lookup(
                    cur,
                    t[j],
                ) matches Some(o) && o.public_key == key);
            assert(hosts[j] == t[j]);
        }
        if is_key_of_other(hosts, cur, host, key) {
            let j = choose|j: int|
                0 <= j < hosts.len() && #[trigger] hosts[j] != host && key.len() > 0 && (
                keyed::lookup(cur, hosts[j]) matches Some(o) && o.public_key == key);
            if j < t.len() {
                assert(t[j] == hosts[j]);
            }
        }
        assert(hosts[hosts.len() - 1] == p);
    }
}

/// A host lacks a peer, or the key of another host is not known, where it does not know another
/// host.
proof fn lacking_is_not_knowing(
    hosts: Seq<Seq<char>>,
    cur: Seq<(Seq<char>, ServerView)>,
    host: Seq<char>,
)
    ensures
        ({
            let st = plan::state_of(cur, host);
            let want = plan::desired_keys(hosts, cur, host);
            let have = plan::current_keys(st.peers);
            &&& plan::lacks(want, have) || plan::key_pending(hosts, cur, host) <==> exists|j: int|
                0 <= j < hosts.len() && #[trigger] hosts[j] != host && !knows(cur, host, hosts[j])
            &&& plan::lacks(want, have) <==> exists|j: int|
                0 <= j < hosts.len() && #[trigger] hosts[j] != host && plan::key_of(
                    cur,
                    hosts[j],
                ).len() > 0 && !knows(cur, host, hosts[j])
            &&& plan::lacks(have, want) <==> exists|k: int|
                0 <= k < st.peers.len() && !is_key_of_other(
                    hosts,
                    cur,
                    host,
                    (#[trigger] st.peers[k]).public_key,
                )
        }),
{
    let st = plan::state_of(cur, host);
    let want = plan::desired_keys(hosts, cur, host);
    let have = plan::current_keys(st.peers);
    if plan::lacks(want, have) {
        let i = choose|i: int|
            0 <= i < want.len() && keyed::lookup(have, (#[trigger] want[i]).0) is None;
        let key = want[i].0;
        keyed::lookup_some(want, key);
        desired_keys_are(hosts, cur, host, key);
        current_keys_are(st.peers, key);
        let j = choose|j: int|
            0 <= j < hosts.len() && #[trigger] hosts[j] != host && key.len() > 0 && (keyed::lookup(
                cur,
                hosts[j],
            ) matches Some(o) && o.public_key == key);
        assert(hosts[j] != host && plan::key_of(cur, hosts[j]).len() > 0 && !knows(
            cur,
            host,
            hosts[j],
        ));
    }
    if plan::key_pending(hosts, cur, host) {
        let j = choose|j: int|
            0 <= j < hosts.len() && #[trigger] hosts[j] != host && plan::key_of(cur, hosts[j]).len()
                == 0;
        assert(hosts[j] != host && !knows(cur, host, hosts[j]));
    }
    if exists|j: int|
        0 <= j < hosts.len() && #[trigger] hosts[j] != host && !knows(cur, host, hosts[j])
            && plan::key_of(cur, hosts[j]).len() > 0 {
        let j = choose|j: int|
            0 <= j < hosts.len() && #[trigger] hosts[j] != host && !knows(cur, host, hosts[j])
                && plan::key_of(cur, hosts[j]).len() > 0;
        let key = plan::key_of(cur, hosts[j]);
        assert(is_key_of_other(hosts, cur, host, key));
        desired_keys_are(hosts, cur, host, key);
        current_keys_are(st.peers, key);
        keyed::lookup_some(want, key);
        let i = choose|i: int| 0 <= i < want.len() && (#[trigger] want[i]).0 == key;
        assert(keyed::lookup(have, want[i].0) is None);
    }
    if exists|j: int|
        0 <= j < hosts.len() && #[trigger] hosts[j] != host && !knows(cur, host, hosts[j]) {
        let j = choose|j: int|
            0 <= j < hosts.len() && #[trigger] hosts[j] != host && !knows(cur, host, hosts[j]);
        if plan::key_of(cur, hosts[j]).len() > 0 {
            assert(plan::lacks(want, have));
        } else {
            assert(plan::key_pending(hosts, cur, host));
        }
    }
    if plan::lacks(have, want) {
        let i = choose|i: int|
            0 <= i < have.len() && keyed::lookup(want, (#[trigger] have[i]).0) is None;
        let key = have[i].0;
        keyed::lookup_some(have, key);
        desired_keys_are(hosts, cur, host, key);
        current_keys_are(st.peers, key);
        let k = choose|k: int| 0 <= k < st.peers.len() && (#[trigger] st.peers[k]).public_key == key;
        assert(!is_key_of_other(hosts, cur, host, st.peers[k].public_key));
    }
    if exists|k: int|
        0 <= k < st.peers.len() && !is_key_of_other(
            hosts,
            cur,
            host,
            (#[trigger] st.peers[k]).public_key,
        ) {
        let k = choose|k: int|
            0 <= k < st.peers.len() && !is_key_of_other(
                hosts,
                cur,
                host,
                (#[trigger] st.peers[k]).public_key,
            );
        let key = st.peers[k].public_key;
        assert(has_peer(st.peers, key));
        desired_keys_are(hosts, cur, host, key);
        current_keys_are(st.peers, key);
        keyed::lookup_some(have, key);
        let i = choose|i: int| 0 <= i < have.len() && (#[trigger] have[i]).0 == key;
        assert(keyed::lookup(want, have[i].0) is None);
    }
}

proof fn stands_networks(
    st: ServerView,
    subnets: Seq<(Seq<char>, Seq<(Seq<char>, Ipv4Net)>)>,
    host: Seq<char>,
    nss: Seq<Seq<char>>,
    t: ActionType,
    ns: Seq<char>,
)
    ensures
        stands(plan::network_actions(st, subnets, host, nss), host, t, ns) <==> nss.contains(ns) && stands(
            plan::network_action(st, plan::subnet_of(subnets, ns, host), host, ns),
            host,
            t,
            ns,
        ),
    decreases nss.len(),
{
    if nss.len() > 0 {
        let p = nss.drop_last();
        let last = nss.last();
        stands_networks(st, subnets, host, p, t, ns);
        let own = plan::network_action(st, plan::subnet_of(subnets, last, host), host, last);
        stands_sum(plan::network_actions(st, subnets, host, p), own, host, t, ns);
        if stands(own, host, t, ns) {
            assert(ns == last);
        }
        if p.contains(ns) {
            let i = choose|i: int| 0 <= i < p.len() && p[i] == ns;
            assert(nss[i] == ns);
        }
        if nss.contains(ns) {
            let i = choose|i: int| 0 <= i < nss.len() && nss[i] == ns;
            if i < p.len() {
                assert(p[i] == ns);
            }
        }
        assert(nss[nss.len() - 1] == last);
    }
}

/// A host's own actions are those that stand for it among all.
proof fn stands_all(
    d: DesiredMesh,
    cur: Seq<(Seq<char>, ServerView)>,
    mgmt: Seq<(Seq<char>, u32)>,
    subnets: Seq<(Seq<char>, Seq<(Seq<char>, Ipv4Net)>)>,
    files: CorrosionFiles,
    hosts: Seq<Seq<char>>,
    host: Seq<char>,
    t: ActionType,
    ns: Seq<char>,
)
    ensures
        stands(plan::all_actions(d, cur, mgmt, subnets, files, hosts), host, t, ns)
            <==> hosts.contains(host) && stands(
            plan::host_actions(d, cur, mgmt, subnets, files, host),
            host,
            t,
            ns,
        ),
    decreases hosts.len(),
{
    if hosts.len() > 0 {
        let p = hosts.drop_last();
        let last = hosts.last();
        stands_all(d, cur, mgmt, subnets, files, p, host, t, ns);
        let own = plan::host_actions(d, cur, mgmt, subnets, files, last);
        stands_sum(plan::all_actions(d, cur, mgmt, subnets, files, p), own, host, t, ns);
        own_host(d, cur, mgmt, subnets, files, last);
        if stands(own, host, t, ns) {
            assert(host == last);
        }
        if p.contains(host) {
            let i = choose|i: int| 0 <= i < p.len() && p[i] == host;
            assert(hosts[i] == host);
        }
        if hosts.contains(host) {
            let i = choose|i: int| 0 <= i < hosts.len() && hosts[i] == host;
            if i < p.len() {
                assert(p[i] == host);
            }
        }
        assert(hosts[hosts.len() - 1] == last);
    }
}

// ---------------------------------------------------------------------------
// Order
// ---------------------------------------------------------------------------

/// The stage at which an action is due on a host.
pub open spec fn stage(t: ActionType) -> int {
    match t {
        ActionType::InstallWg => 0,
        ActionType::GenKeyPair => 1,
        ActionType::AddPeer => 2,
        ActionType::RemovePeer => 3,
        ActionType::WriteConfig => 4,
        ActionType::EnableService => 5,
        ActionType::ReloadService => 6,
        ActionType::InstallPodman => 7,
        ActionType::EnablePodmanSocket => 8,
        ActionType::EnableIpForward => 9,
        ActionType::CreatePodmanNetwork | ActionType::RecreatePodmanNetwork => 10,
        ActionType::InstallFirewall => 11,
        ActionType::InstallCorrosion => 12,
        ActionType::InstallCoold => 13,
        ActionType::WriteCorrosionConfig => 14,
        ActionType::WriteCorrosionSchema => 15,
        ActionType::InstallCorrosionService => 16,
        ActionType::InstallCooldService => 17,
        _ => 18,
    }
}

/// Whether several actions of one stage may be due on a host: one for each peer, one for each
/// network.
pub open spec fn repeats(t: ActionType) -> bool {
    t == ActionType::AddPeer || t == ActionType::RemovePeer || t == ActionType::CreatePodmanNetwork
        || t == ActionType::RecreatePodmanNetwork
}

/// Whether the first of two actions on a host may come before the second.
pub open spec fn may_precede(a: ActionView, b: ActionView) -> bool {
    a.host == b.host ==> stage(a.action_type) < stage(b.action_type) || (stage(a.action_type)
        == stage(b.action_type) && repeats(a.action_type))
}

/// Whether the actions on each host stand in the order in which they are due, and none twice
/// but for several peers or networks.
pub open spec fn in_due_order(s: Seq<ActionView>) -> bool {
    forall|i: int, j: int| 0 <= i < j < s.len() ==> may_precede(#[trigger] s[i], #[trigger] s[j])
}

/// Whether all actions are for this host and of stages from `lo` up to below `hi`, in order.
spec fn staged(s: Seq<ActionView>, host: Seq<char>, lo: int, hi: int) -> bool {
    &&& in_due_order(s)
    &&& forall|i: int|
        0 <= i < s.len() ==> (#[trigger] s[i]).host == host && lo <= stage(s[i].action_type) < hi
}

proof fn staged_sum(a: Seq<ActionView>, b: Seq<ActionView>, host: Seq<char>, lo: int, mid: int, hi: int)
    requires
        lo <= mid <= hi,
        staged(a, host, lo, mid),
        staged(b, host, mid, hi),
    ensures
        staged(a + b, host, lo, hi),
{
    let s = a + b;
    assert forall|i: int| 0 <= i < s.len() implies (#[trigger] s[i]).host == host && lo <= stage(
        s[i].action_type,
    ) < hi by {
        if i < a.len() {
            assert(s[i] == a[i]);
        } else {
            assert(s[i] == b[i - a.len()]);
        }
    }
    assert forall|i: int, j: int| 0 <= i < j < s.len() implies may_precede(
        #[trigger] s[i],
        #[trigger] s[j],
    ) by {
        if j < a.len() {
            assert(s[i] == a[i] && s[j] == a[j]);
        } else if i >= a.len() {
            assert(s[i] == b[i - a.len()] && s[j] == b[j - a.len()]);
        } else {
            assert(s[i] == a[i] && s[j] == b[j - a.len()]);
        }
    }
}

proof fn staged_when(needed: bool, a: ActionView)
    ensures
        staged(plan::when(needed, a), a.host, stage(a.action_type), stage(a.action_type) + 1),
{
}

proof fn staged_none(host: Seq<char>, lo: int, hi: int)
    ensures
        staged(Seq::empty(), host, lo, hi),
{
}

proof fn staged_keys(
    a: Seq<(Seq<char>, ())>,
    b: Seq<(Seq<char>, ())>,
    host: Seq<char>,
    t: ActionType,
)
    requires
        t == ActionType::AddPeer || t == ActionType::RemovePeer,
    ensures
        staged(plan::key_actions(a, b, host, t), host, stage(t), stage(t) + 1),
        forall|i: int|
            0 <= i < plan::key_actions(a, b, host, t).len() ==> (#[trigger] plan::key_actions(
                a,
                b,
                host,
                t,
            )[i]).action_type == t,
    decreases a.len(),
{
    if a.len() > 0 {
        staged_keys(a.drop_last(), b, host, t);
    }
}

proof fn staged_networks(
    st: ServerView,
    subnets: Seq<(Seq<char>, Seq<(Seq<char>, Ipv4Net)>)>,
    host: Seq<char>,
    nss: Seq<Seq<char>>,
)
    ensures
        staged(plan::network_actions(st, subnets, host, nss), host, 10, 11),
        forall|i: int|
            0 <= i < plan::network_actions(st, subnets, host, nss).len() ==> repeats(
                (#[trigger] plan::network_actions(st, subnets, host, nss)[i]).action_type,
            ),
    decreases nss.len(),
{
    if nss.len() > 0 {
        staged_networks(st, subnets, host, nss.drop_last());
    }
}

proof fn staged_wireguard(
    d: DesiredMesh,
    cur: Seq<(Seq<char>, ServerView)>,
    host: Seq<char>,
    mgmt_ip: u32,
)
    ensures
        staged(plan::wireguard_actions(d, cur, host, mgmt_ip), host, 0, 7),
{
    let st = plan::state_of(cur, host);
    let hosts = text::views(d.hosts@);
    let have = plan::current_keys(st.peers);
    let want = plan::desired_keys(hosts, cur, host);
    staged_keys(want, have, host, ActionType::AddPeer);
    staged_keys(have, want, host, ActionType::RemovePeer);
}

proof fn staged_podman(
    d: DesiredMesh,
    st: ServerView,
    subnets: Seq<(Seq<char>, Seq<(Seq<char>, Ipv4Net)>)>,
    host: Seq<char>,
)
    ensures
        staged(plan::podman_actions(d, st, subnets, host), host, 7, 12),
{
    staged_networks(st, subnets, host, keyed::in_order(text::views(d.namespaces@)));
}

/// Whether a release has to be installed: it is absent, of no known version or of another one,
/// or the version that is wanted moves.
pub open spec fn outdated(want: Seq<char>, installed: bool, have: Seq<char>) -> bool {
    ||| !installed
    ||| have.len() == 0
    ||| have != want
    ||| want == "nightly"@
    ||| want == "latest"@
}

/// Six actions on a host, where they are needed.
spec fn six(
    host: Seq<char>,
    a: (bool, Seq<char>),
    b: (bool, Seq<char>),
    c: (bool, Seq<char>),
    e: (bool, Seq<char>),
    f: (bool, Seq<char>),
    g: (bool, Seq<char>),
) -> Seq<ActionView> {
    let none = Seq::<char>::empty();
    plan::when(a.0, plan::act(host, none, ActionType::InstallCorrosion, a.1)) + plan::when(
        b.0,
        plan::act(host, none, ActionType::InstallCoold, b.1),
    ) + plan::when(c.0, plan::act(host, none, ActionType::WriteCorrosionConfig, c.1)) + plan::when(
        e.0,
        plan::act(host, none, ActionType::WriteCorrosionSchema, e.1),
    ) + plan::when(f.0, plan::act(host, none, ActionType::InstallCorrosionService, f.1))
        + plan::when(g.0, plan::act(host, none, ActionType::InstallCooldService, g.1))
}

proof fn six_staged(
    host: Seq<char>,
    a: (bool, Seq<char>),
    b: (bool, Seq<char>),
    c: (bool, Seq<char>),
    e: (bool, Seq<char>),
    f: (bool, Seq<char>),
    g: (bool, Seq<char>),
)
    ensures
        staged(six(host, a, b, c, e, f, g), host, 12, 18),
{
    let none = Seq::<char>::empty();
    let x0 = plan::act(host, none, ActionType::InstallCorrosion, a.1);
    let x1 = plan::act(host, none, ActionType::InstallCoold, b.1);
    let x2 = plan::act(host, none, ActionType::WriteCorrosionConfig, c.1);
    let x3 = plan::act(host, none, ActionType::WriteCorrosionSchema, e.1);
    let x4 = plan::act(host, none, ActionType::InstallCorrosionService, f.1);
    let x5 = plan::act(host, none, ActionType::InstallCooldService, g.1);
    staged_when(a.0, x0);
    staged_when(b.0, x1);
    staged_when(c.0, x2);
    staged_when(e.0, x3);
    staged_when(f.0, x4);
    staged_when(g.0, x5);
    let s0 = plan::when(a.0, x0);
    let s1 = s0 + plan::when(b.0, x1);
    let s2 = s1 + plan::when(c.0, x2);
    let s3 = s2 + plan::when(e.0, x3);
    let s4 = s3 + plan::when(f.0, x4);
    staged_sum(s0, plan::when(b.0, x1), host, 12, 13, 14);
    staged_sum(s1, plan::when(c.0, x2), host, 12, 14, 15);
    staged_sum(s2, plan::when(e.0, x3), host, 12, 15, 16);
    staged_sum(s3, plan::when(f.0, x4), host, 12, 16, 17);
    staged_sum(s4, plan::when(g.0, x5), host, 12, 17, 18);
}

proof fn six_stand(
    host: Seq<char>,
    a: (bool, Seq<char>),
    b: (bool, Seq<char>),
    c: (bool, Seq<char>),
    e: (bool, Seq<char>),
    f: (bool, Seq<char>),
    g: (bool, Seq<char>),
    t: ActionType,
    ns: Seq<char>,
)
    ensures
        stands(six(host, a, b, c, e, f, g), host, t, ns) <==> ns.len() == 0 && match t {
            ActionType::InstallCorrosion => a.0,
            ActionType::InstallCoold => b.0,
            ActionType::WriteCorrosionConfig => c.0,
            ActionType::WriteCorrosionSchema => e.0,
            ActionType::InstallCorrosionService => f.0,
            ActionType::InstallCooldService => g.0,
            _ => false,
        },
{
    let none = Seq::<char>::empty();
    if ns.len() == 0 {
        assert(ns =~= none);
    }
    let x0 = plan::act(host, none, ActionType::InstallCorrosion, a.1);
    let x1 = plan::act(host, none, ActionType::InstallCoold, b.1);
    let x2 = plan::act(host, none, ActionType::WriteCorrosionConfig, c.1);
    let x3 = plan::act(host, none, ActionType::WriteCorrosionSchema, e.1);
    let x4 = plan::act(host, none, ActionType::InstallCorrosionService, f.1);
    let x5 = plan::act(host, none, ActionType::InstallCooldService, g.1);
    stands_when(a.0, x0, host, t, ns);
    stands_when(b.0, x1, host, t, ns);
    stands_when(c.0, x2, host, t, ns);
    stands_when(e.0, x3, host, t, ns);
    stands_when(f.0, x4, host, t, ns);
    stands_when(g.0, x5, host, t, ns);
    let s0 = plan::when(a.0, x0);
    let s1 = s0 + plan::when(b.0, x1);
    let s2 = s1 + plan::when(c.0, x2);
    let s3 = s2 + plan::when(e.0, x3);
    let s4 = s3 + plan::when(f.0, x4);
    stands_sum(s0, plan::when(b.0, x1), host, t, ns);
    stands_sum(s1, plan::when(c.0, x2), host, t, ns);
    stands_sum(s2, plan::when(e.0, x3), host, t, ns);
    stands_sum(s3, plan::when(f.0, x4), host, t, ns);
    stands_sum(s4, plan::when(g.0, x5), host, t, ns);
}

/// Whether the firewall of a node is not as it is wanted.
pub open spec fn firewall_differs(
    d: DesiredMesh,
    st: ServerView,
    subnets: Seq<(Seq<char>, Seq<(Seq<char>, Ipv4Net)>)>,
    host: Seq<char>,
) -> bool {
    st.firewall_unit_sha256 != digest::sha256_of(
        firewall::unit_text(
            d.interface@,
            plan::subnets_of(subnets, keyed::in_order(text::views(d.namespaces@)), host),
            d.default_deny_containers,
        ),
    )
}

/// Whether the unit of coold on a node is not the one that is wanted.
pub open spec fn unit_differs(
    d: DesiredMesh,
    st: ServerView,
    subnets: Seq<(Seq<char>, Seq<(Seq<char>, Ipv4Net)>)>,
    host: Seq<char>,
    mgmt_ip: u32,
) -> bool {
    st.coold_unit_sha256 != digest::sha256_of(
        coold::service_unit_text(
            mgmt_ip,
            plan::coold_namespaces(
                subnets,
                keyed::in_order(text::views(d.namespaces@)),
                host,
            ),
            state::flux_of(text::opt_view(d.flux_tls_url)),
        ),
    )
}

/// Whether the Corrosion configuration of a node is not the one that is wanted.
pub open spec fn config_differs(
    d: DesiredMesh,
    st: ServerView,
    mgmt: Seq<(Seq<char>, u32)>,
    files: CorrosionFiles,
    host: Seq<char>,
) -> bool {
    st.corrosion_config_hash != digest::sha256_of(corrosion::config_of(files, d, mgmt, host))
}

/// Whether the schema of a node is not the one that is wanted.
pub open spec fn schema_differs(st: ServerView, files: CorrosionFiles) -> bool {
    st.corrosion_schema_sha256 != digest::sha256_of(files.schema_sql@)
}

/// The details of the actions for Corrosion and coold.
spec fn details(
    d: DesiredMesh,
    st: ServerView,
    mgmt: Seq<(Seq<char>, u32)>,
    files: CorrosionFiles,
    host: Seq<char>,
    mgmt_ip: u32,
) -> (Seq<char>, Seq<char>, Seq<char>, Seq<char>, Seq<char>, Seq<char>) {
    (
        plan::corrosion_detail_text(d.corrosion_version@),
        plan::coold_detail_text(d.coold_version@),
        plan::corrosion_config_detail_text(
            corrosion::peer_ips(text::views(d.nodes@), mgmt, host).len(),
        ),
        if schema_differs(st, files) && st.corrosion_schema_sha256.len() > 0 {
            "/etc/corrosion/schemas/coolify.sql [schema drift — DB will be reset]"@
        } else {
            "/etc/corrosion/schemas/coolify.sql"@
        },
        "systemctl enable --now corrosion"@,
        plan::coold_service_detail_text(
            mgmt_ip,
            keyed::in_order(text::views(d.namespaces@)).len(),
        ),
    )
}

proof fn coold_shape(
    d: DesiredMesh,
    st: ServerView,
    mgmt: Seq<(Seq<char>, u32)>,
    subnets: Seq<(Seq<char>, Seq<(Seq<char>, Ipv4Net)>)>,
    files: CorrosionFiles,
    host: Seq<char>,
    mgmt_ip: u32,
)
    ensures
        ({
            let x = details(d, st, mgmt, files, host, mgmt_ip);
            let old_corrosion = outdated(
                d.corrosion_version@,
                st.corrosion_installed,
                st.corrosion_version,
            );
            let old_coold = outdated(d.coold_version@, st.coold_installed, st.coold_version);
            let config = config_differs(d, st, mgmt, files, host);
            let schema = schema_differs(st, files);
            plan::coold_actions(d, st, mgmt, subnets, files, host, mgmt_ip) == six(
                host,
                (old_corrosion, x.0),
                (old_coold, x.1),
                (config, x.2),
                (!st.corrosion_schema_exists || schema, x.3),
                (!st.corrosion_active || config || old_corrosion || schema, x.4),
                (
                    !st.coold_active || config || old_coold || unit_differs(
                        d,
                        st,
                        subnets,
                        host,
                        mgmt_ip,
                    ),
                    x.5,
                ),
            )
        }),
{
}

proof fn staged_coold(
    d: DesiredMesh,
    st: ServerView,
    mgmt: Seq<(Seq<char>, u32)>,
    subnets: Seq<(Seq<char>, Seq<(Seq<char>, Ipv4Net)>)>,
    files: CorrosionFiles,
    host: Seq<char>,
    mgmt_ip: u32,
)
    ensures
        staged(plan::coold_actions(d, st, mgmt, subnets, files, host, mgmt_ip), host, 12, 18),
{
    let x = details(d, st, mgmt, files, host, mgmt_ip);
    let old_corrosion = outdated(
        d.corrosion_version@,
        st.corrosion_installed,
        st.corrosion_version,
    );
    let old_coold = outdated(d.coold_version@, st.coold_installed, st.coold_version);
    let config = config_differs(d, st, mgmt, files, host);
    let schema = schema_differs(st, files);
    let unit = unit_differs(d, st, subnets, host, mgmt_ip);
    coold_shape(d, st, mgmt, subnets, files, host, mgmt_ip);
    six_staged(
        host,
        (old_corrosion, x.0),
        (old_coold, x.1),
        (config, x.2),
        (!st.corrosion_schema_exists || schema, x.3),
        (!st.corrosion_active || config || old_corrosion || schema, x.4),
        (!st.coold_active || config || old_coold || unit, x.5),
    );
}

proof fn own_host(
    d: DesiredMesh,
    cur: Seq<(Seq<char>, ServerView)>,
    mgmt: Seq<(Seq<char>, u32)>,
    subnets: Seq<(Seq<char>, Seq<(Seq<char>, Ipv4Net)>)>,
    files: CorrosionFiles,
    host: Seq<char>,
)
    ensures
        staged(plan::host_actions(d, cur, mgmt, subnets, files, host), host, 0, 18),
{
    let mgmt_ip = keyed::lookup(mgmt, host)->0;
    let st = plan::state_of(cur, host);
    let node = text::views(d.nodes@).contains(host);
    let none = Seq::<ActionView>::empty();
    let w = plan::wireguard_actions(d, cur, host, mgmt_ip);
    let p = if node && d.install_podman {
        plan::podman_actions(d, st, subnets, host)
    } else {
        none
    };
    let c = if node && d.install_coold {
        plan::coold_actions(d, st, mgmt, subnets, files, host, mgmt_ip)
    } else {
        none
    };
    staged_wireguard(d, cur, host, mgmt_ip);
    staged_podman(d, st, subnets, host);
    staged_coold(d, st, mgmt, subnets, files, host, mgmt_ip);
    staged_none(host, 7, 12);
    staged_none(host, 12, 18);
    staged_sum(w, p, host, 0, 7, 12);
    staged_sum(w + p, c, host, 0, 12, 18);
}

/// The hosts come one after the other, each with its actions in order.
proof fn all_in_order(
    d: DesiredMesh,
    cur: Seq<(Seq<char>, ServerView)>,
    mgmt: Seq<(Seq<char>, u32)>,
    subnets: Seq<(Seq<char>, Seq<(Seq<char>, Ipv4Net)>)>,
    files: CorrosionFiles,
    hosts: Seq<Seq<char>>,
)
    requires
        forall|a: int, b: int| 0 <= a < b < hosts.len() ==> hosts[a] != hosts[b],
    ensures
        in_due_order(plan::all_actions(d, cur, mgmt, subnets, files, hosts)),
        forall|i: int|
            0 <= i < plan::all_actions(d, cur, mgmt, subnets, files, hosts).len()
                ==> hosts.contains(
                (#[trigger] plan::all_actions(d, cur, mgmt, subnets, files, hosts)[i]).host,
            ),
    decreases hosts.len(),
{
    if hosts.len() > 0 {
        let t = hosts.drop_last();
        let last = hosts.last();
        assert forall|a: int, b: int| 0 <= a < b < t.len() implies t[a] != t[b] by {
            assert(t[a] == hosts[a] && t[b] == hosts[b]);
        }
        all_in_order(d, cur, mgmt, subnets, files, t);
        own_host(d, cur, mgmt, subnets, files, last);
        let x = plan::all_actions(d, cur, mgmt, subnets, files, t);
        let y = plan::host_actions(d, cur, mgmt, subnets, files, last);
        let s = x + y;
        assert(hosts[hosts.len() - 1] == last);
        assert forall|i: int| 0 <= i < s.len() implies hosts.contains((#[trigger] s[i]).host) by {
            if i < x.len() {
                assert(s[i] == x[i]);
                let k = choose|k: int| 0 <= k < t.len() && t[k] == x[i].host;
                assert(hosts[k] == x[i].host);
            } else {
                assert(s[i] == y[i - x.len()]);
            }
        }
        assert forall|i: int, j: int| 0 <= i < j < s.len() implies may_precede(
            #[trigger] s[i],
            #[trigger] s[j],
        ) by {
            if j < x.len() {
                assert(s[i] == x[i] && s[j] == x[j]);
            } else if i >= x.len() {
                assert(s[i] == y[i - x.len()] && s[j] == y[j - x.len()]);
            } else {
                assert(s[i] == x[i] && s[j] == y[j - x.len()]);
                let k = choose|k: int| 0 <= k < t.len() && t[k] == x[i].host;
                assert(hosts[k] != hosts[hosts.len() - 1]);
            }
        }
    }
}

/// What stays of a list in order is in order.
proof fn kept_in_order(
    s: Seq<ActionView>,
    i: intent::Intent,
    replace: bool,
    new: Seq<Seq<char>>,
)
    requires
        in_due_order(s),
    ensures
        in_due_order(intent::kept_actions(s, i, replace, new)),
        forall|k: int|
            0 <= k < intent::kept_actions(s, i, replace, new).len() ==> s.contains(
                #[trigger] intent::kept_actions(s, i, replace, new)[k],
            ),
    decreases s.len(),
{
    if s.len() > 0 {
        let t = s.drop_last();
        assert forall|a: int, b: int| 0 <= a < b < t.len() implies may_precede(
            #[trigger] t[a],
            #[trigger] t[b],
        ) by {
            assert(t[a] == s[a] && t[b] == s[b]);
        }
        kept_in_order(t, i, replace, new);
        let k0 = intent::kept_actions(t, i, replace, new);
        let k1 = intent::kept_actions(s, i, replace, new);
        assert(s[s.len() - 1] == s.last());
        assert forall|k: int| 0 <= k < k0.len() implies s.contains(#[trigger] k0[k]) && may_precede(
            k0[k],
            s.last(),
        ) by {
            let q = choose|q: int| 0 <= q < t.len() && t[q] == k0[k];
            assert(s[q] == k0[k]);
            assert(may_precede(s[q], s[s.len() - 1]));
        }
        assert forall|a: int, b: int| 0 <= a < b < k1.len() implies may_precede(
            #[trigger] k1[a],
            #[trigger] k1[b],
        ) by {
            if b < k0.len() {
                assert(k1[a] == k0[a] && k1[b] == k0[b]);
            } else {
                assert(k1[a] == k0[a]);
            }
        }
        assert forall|k: int| 0 <= k < k1.len() implies s.contains(#[trigger] k1[k]) by {
            if k < k0.len() {
                assert(k1[k] == k0[k]);
            }
        }
    }
}

/// The actions on a host stand in a plan in the order in which they are due: the interface is
/// configured before it is brought up or reloaded, the networks come before the firewall and both
/// before the agents, and nothing is done twice but for several peers or networks.
pub proof fn actions_are_in_order(
    d: DesiredMesh,
    cur: Seq<(Seq<char>, ServerView)>,
    files: CorrosionFiles,
    p: PlanView,
)
    requires
        plan::plan_of(d, cur, files) == Ok::<PlanView, Seq<char>>(p),
    ensures
        in_due_order(p.actions),
{
    let hosts = text::views(d.hosts@);
    subnet::first_repeat_none(hosts, 0);
    all_in_order(d, cur, p.mgmt, p.subnets, files, hosts);
    kept_in_order(
        plan::all_actions(d, cur, p.mgmt, p.subnets, files, hosts),
        d.intent,
        d.allow_replace,
        text::views(d.new_nodes@),
    );
}

// ---------------------------------------------------------------------------
// Needs
// ---------------------------------------------------------------------------

proof fn wireguard_stands(
    d: DesiredMesh,
    cur: Seq<(Seq<char>, ServerView)>,
    host: Seq<char>,
    mgmt_ip: u32,
    t: ActionType,
    ns: Seq<char>,
)
    ensures
        ({
            let st = plan::state_of(cur, host);
            let hosts = text::views(d.hosts@);
            let have = plan::current_keys(st.peers);
            let want = plan::desired_keys(hosts, cur, host);
            let needs = plan::needs_config(d, cur, host, mgmt_ip);
            stands(plan::wireguard_actions(d, cur, host, mgmt_ip), host, t, ns) <==> ns.len() == 0
                && match t {
                ActionType::InstallWg => !st.installed,
                ActionType::GenKeyPair => !st.keys_exist,
                ActionType::AddPeer => plan::lacks(want, have),
                ActionType::RemovePeer => plan::lacks(have, want),
                ActionType::WriteConfig => needs,
                ActionType::EnableService => !st.active,
                ActionType::ReloadService => st.active && needs,
                _ => false,
            }
        }),
{
    let st = plan::state_of(cur, host);
    let hosts = text::views(d.hosts@);
    let have = plan::current_keys(st.peers);
    let want = plan::desired_keys(hosts, cur, host);
    let none = Seq::<char>::empty();
    let needs = plan::needs_config(d, cur, host, mgmt_ip);
    if ns.len() == 0 {
        assert(ns =~= none);
    }
    let a0 = plan::act(host, none, ActionType::InstallWg, "wireguard not installed"@);
    let a1 = plan::act(
        host,
        none,
        ActionType::GenKeyPair,
        "missing /etc/wireguard/privatekey"@,
    );
    let a4 = plan::act(
        host,
        none,
        ActionType::WriteConfig,
        plan::config_detail_text(d.interface@, plan::peer_count(hosts)),
    );
    let a5 = plan::act(
        host,
        none,
        ActionType::EnableService,
        plan::enable_detail_text(d.interface@),
    );
    let a6 = plan::act(
        host,
        none,
        ActionType::ReloadService,
        plan::reload_detail_text(d.interface@),
    );
    stands_when(!st.installed, a0, host, t, ns);
    stands_when(!st.keys_exist, a1, host, t, ns);
    stands_keys(want, have, host, ActionType::AddPeer, t, ns);
    stands_keys(have, want, host, ActionType::RemovePeer, t, ns);
    stands_when(needs, a4, host, t, ns);
    stands_when(!st.active, a5, host, t, ns);
    stands_when(st.active && needs, a6, host, t, ns);
    let s0 = plan::when(!st.installed, a0);
    let s1 = s0 + plan::when(!st.keys_exist, a1);
    let s2 = s1 + plan::key_actions(want, have, host, ActionType::AddPeer);
    let s3 = s2 + plan::key_actions(have, want, host, ActionType::RemovePeer);
    let s4 = s3 + plan::when(needs, a4);
    let s5 = s4 + plan::when(!st.active, a5);
    stands_sum(s0, plan::when(!st.keys_exist, a1), host, t, ns);
    stands_sum(s1, plan::key_actions(want, have, host, ActionType::AddPeer), host, t, ns);
    stands_sum(s2, plan::key_actions(have, want, host, ActionType::RemovePeer), host, t, ns);
    stands_sum(s3, plan::when(needs, a4), host, t, ns);
    stands_sum(s4, plan::when(!st.active, a5), host, t, ns);
    stands_sum(s5, plan::when(st.active && needs, a6), host, t, ns);
}

/// Whether the network of a namespace is on a host.
pub open spec fn network_is_up(st: ServerView, ns: Seq<char>) -> bool {
    keyed::lookup(st.namespaces, ns) matches Some(n) && n.network_exists
}

/// Whether the network of a namespace is on a host, and not as it should be: it answers names, it
/// has another subnet than the host has in the namespace, or it bears another label.
pub open spec fn network_is_off(st: ServerView, want: Option<Ipv4Net>, ns: Seq<char>) -> bool {
    keyed::lookup(st.namespaces, ns) matches Some(n) && n.network_exists && (n.dns_enabled
        || n.container_subnet != want || n.label != ns)
}

proof fn podman_stands(
    d: DesiredMesh,
    st: ServerView,
    subnets: Seq<(Seq<char>, Seq<(Seq<char>, Ipv4Net)>)>,
    host: Seq<char>,
    t: ActionType,
    ns: Seq<char>,
)
    ensures
        ({
            let nss = keyed::in_order(text::views(d.namespaces@));
            stands(plan::podman_actions(d, st, subnets, host), host, t, ns) <==> match t {
                ActionType::InstallPodman => ns.len() == 0 && !st.podman_installed,
                ActionType::EnablePodmanSocket => ns.len() == 0 && !st.podman_socket_active,
                ActionType::EnableIpForward => ns.len() == 0 && !st.ip_forward_enabled,
                ActionType::CreatePodmanNetwork => nss.contains(ns) && !network_is_up(st, ns),
                ActionType::RecreatePodmanNetwork => nss.contains(ns) && network_is_off(
                    st,
                    Some(plan::subnet_of(subnets, ns, host)),
                    ns,
                ),
                ActionType::InstallFirewall => ns.len() == 0 && (!st.firewall_active
                    || st.default_deny_active != d.default_deny_containers || firewall_differs(
                    d,
                    st,
                    subnets,
                    host,
                )),
                _ => false,
            }
        }),
{
    let nss = keyed::in_order(text::views(d.namespaces@));
    let none = Seq::<char>::empty();
    if ns.len() == 0 {
        assert(ns =~= none);
    }
    let a0 = plan::act(host, none, ActionType::InstallPodman, "podman not installed"@);
    let a1 = plan::act(
        host,
        none,
        ActionType::EnablePodmanSocket,
        "systemctl enable --now podman.socket"@,
    );
    let a2 = plan::act(host, none, ActionType::EnableIpForward, "net.ipv4.ip_forward=1"@);
    stands_when(!st.podman_installed, a0, host, t, ns);
    stands_when(!st.podman_socket_active, a1, host, t, ns);
    stands_when(!st.ip_forward_enabled, a2, host, t, ns);
    stands_networks(st, subnets, host, nss, t, ns);
    let want = plan::subnet_of(subnets, ns, host);
    let net = plan::network_action(st, want, host, ns);
    assert(stands(net, host, t, ns) <==> (t == ActionType::CreatePodmanNetwork && !network_is_up(
        st,
        ns,
    )) || (t == ActionType::RecreatePodmanNetwork && network_is_off(st, Some(want), ns))) by {
        if net.len() > 0 {
            assert(net[0].host == host && net[0].namespace == ns);
        }
    }
    let fw = plan::firewall_action(d, st, subnets, host);
    assert(stands(fw, host, t, ns) <==> t == ActionType::InstallFirewall && ns.len() == 0 && fw.len()
        > 0) by {
        if fw.len() > 0 {
            assert(fw[0].host == host && fw[0].action_type == ActionType::InstallFirewall
                && fw[0].namespace == none);
        }
    }
    let s0 = plan::when(!st.podman_installed, a0);
    let s1 = s0 + plan::when(!st.podman_socket_active, a1);
    let s2 = s1 + plan::when(!st.ip_forward_enabled, a2);
    let s3 = s2 + plan::network_actions(st, subnets, host, nss);
    stands_sum(s0, plan::when(!st.podman_socket_active, a1), host, t, ns);
    stands_sum(s1, plan::when(!st.ip_forward_enabled, a2), host, t, ns);
    stands_sum(s2, plan::network_actions(st, subnets, host, nss), host, t, ns);
    stands_sum(s3, fw, host, t, ns);
}

/// What a plan foresees for a host is what the host's own needs are.
proof fn foreseen_is_needed(
    d: DesiredMesh,
    cur: Seq<(Seq<char>, ServerView)>,
    files: CorrosionFiles,
    p: PlanView,
    host: Seq<char>,
    t: ActionType,
    ns: Seq<char>,
)
    requires
        plan::plan_of(d, cur, files) == Ok::<PlanView, Seq<char>>(p),
        text::views(d.hosts@).contains(host),
    ensures
        ({
            let st = plan::state_of(cur, host);
            let node = text::views(d.nodes@).contains(host);
            let mgmt_ip = keyed::lookup(p.mgmt, host)->0;
            foresees(p, host, t, ns) <==> stands(
                plan::wireguard_actions(d, cur, host, mgmt_ip),
                host,
                t,
                ns,
            ) || (node && d.install_podman && stands(
                plan::podman_actions(d, st, p.subnets, host),
                host,
                t,
                ns,
            )) || (node && d.install_coold && stands(
                plan::coold_actions(d, st, p.mgmt, p.subnets, files, host, mgmt_ip),
                host,
                t,
                ns,
            ))
        }),
{
    let hosts = text::views(d.hosts@);
    let new = text::views(d.new_nodes@);
    let all = plan::all_actions(d, cur, p.mgmt, p.subnets, files, hosts);
    stands_all(d, cur, p.mgmt, p.subnets, files, hosts, host, t, ns);
    let left = intent::actions_of(p.skipped);
    if stands(all, host, t, ns) {
        let i = choose|i: int|
            0 <= i < all.len() && (#[trigger] all[i]).host == host && all[i].action_type == t
                && all[i].namespace == ns;
        intent::filter_partitions(all, d.intent, d.allow_replace, new, all[i]);
        assert(all.contains(all[i]));
        if p.actions.contains(all[i]) {
            let k = choose|k: int| 0 <= k < p.actions.len() && p.actions[k] == all[i];
            assert(p.actions[k].host == host);
        } else {
            let k = choose|k: int| 0 <= k < left.len() && left[k] == all[i];
            assert(left[k].host == host);
        }
    }
    if stands(p.actions, host, t, ns) {
        let k = choose|k: int|
            0 <= k < p.actions.len() && (#[trigger] p.actions[k]).host == host
                && p.actions[k].action_type == t && p.actions[k].namespace == ns;
        intent::filter_partitions(all, d.intent, d.allow_replace, new, p.actions[k]);
        assert(p.actions.contains(p.actions[k]));
        let i = choose|i: int| 0 <= i < all.len() && all[i] == p.actions[k];
        assert(all[i].host == host);
    }
    if stands(left, host, t, ns) {
        let k = choose|k: int|
            0 <= k < left.len() && (#[trigger] left[k]).host == host && left[k].action_type == t
                && left[k].namespace == ns;
        intent::filter_partitions(all, d.intent, d.allow_replace, new, left[k]);
        assert(left.contains(left[k]));
        let i = choose|i: int| 0 <= i < all.len() && all[i] == left[k];
        assert(all[i].host == host);
    }
    let mgmt_ip = keyed::lookup(p.mgmt, host)->0;
    let st = plan::state_of(cur, host);
    let node = text::views(d.nodes@).contains(host);
    let none = Seq::<ActionView>::empty();
    let w = plan::wireguard_actions(d, cur, host, mgmt_ip);
    let q = if node && d.install_podman {
        plan::podman_actions(d, st, p.subnets, host)
    } else {
        none
    };
    let c = if node && d.install_coold {
        plan::coold_actions(d, st, p.mgmt, p.subnets, files, host, mgmt_ip)
    } else {
        none
    };
    stands_sum(w, q, host, t, ns);
    stands_sum(w + q, c, host, t, ns);
}

/// A host gets what its interface lacks. WireGuard is installed where it is not, keys are made
/// where there are none, and an interface that is down is brought up. A configuration is written
/// where the address or the port is another, where the keys or WireGuard are missing, or where
/// another host is not known as a peer; and a running interface is reloaded if and only if its
/// configuration is written.
pub proof fn interfaces_get_what_they_lack(
    d: DesiredMesh,
    cur: Seq<(Seq<char>, ServerView)>,
    files: CorrosionFiles,
    p: PlanView,
    host: Seq<char>,
)
    requires
        plan::plan_of(d, cur, files) == Ok::<PlanView, Seq<char>>(p),
        text::views(d.hosts@).contains(host),
        d.mgmt_pool.prefix() <= 32,
    ensures
        ({
            let none = Seq::<char>::empty();
            let st = plan::state_of(cur, host);
            let hosts = text::views(d.hosts@);
            &&& foresees(p, host, ActionType::InstallWg, none) <==> !st.installed
            &&& foresees(p, host, ActionType::GenKeyPair, none) <==> !st.keys_exist
            &&& foresees(p, host, ActionType::EnableService, none) <==> !st.active
            &&& foresees(p, host, ActionType::ReloadService, none) <==> st.active && foresees(
                p,
                host,
                ActionType::WriteConfig,
                none,
            )
            &&& foresees(p, host, ActionType::WriteConfig, none) <==> {
                ||| !st.installed
                ||| !st.keys_exist
                ||| st.wireguard_mgmt_ip != keyed::lookup(p.mgmt, host)
                ||| hosts.len() > 1 && st.listen_port != (match keyed::lookup(
                    d.listen_port_overrides@,
                    host,
                ) {
                    Some(port) => port,
                    None => d.listen_port,
                })
                ||| exists|j: int|
                    0 <= j < hosts.len() && #[trigger] hosts[j] != host && !knows(
                        cur,
                        host,
                        hosts[j],
                    )
            }
        }),
{
    let none = Seq::<char>::empty();
    let hosts = text::views(d.hosts@);
    let mgmt_ip = keyed::lookup(p.mgmt, host)->0;
    address_is_known(d, cur, files, p, host);
    lacking_is_not_knowing(hosts, cur, host);
    foreseen_interface(d, cur, files, p, host, ActionType::InstallWg);
    foreseen_interface(d, cur, files, p, host, ActionType::GenKeyPair);
    foreseen_interface(d, cur, files, p, host, ActionType::EnableService);
    foreseen_interface(d, cur, files, p, host, ActionType::ReloadService);
    foreseen_interface(d, cur, files, p, host, ActionType::WriteConfig);
    wireguard_stands(d, cur, host, mgmt_ip, ActionType::InstallWg, none);
    wireguard_stands(d, cur, host, mgmt_ip, ActionType::GenKeyPair, none);
    wireguard_stands(d, cur, host, mgmt_ip, ActionType::EnableService, none);
    wireguard_stands(d, cur, host, mgmt_ip, ActionType::ReloadService, none);
    wireguard_stands(d, cur, host, mgmt_ip, ActionType::WriteConfig, none);
}

proof fn address_is_known(
    d: DesiredMesh,
    cur: Seq<(Seq<char>, ServerView)>,
    files: CorrosionFiles,
    p: PlanView,
    host: Seq<char>,
)
    requires
        plan::plan_of(d, cur, files) == Ok::<PlanView, Seq<char>>(p),
        text::views(d.hosts@).contains(host),
        d.mgmt_pool.prefix() <= 32,
    ensures
        keyed::lookup(p.mgmt, host) is Some,
{
    subnet_laws::mgmt_ips_are_distinct(
        d.mgmt_pool,
        state::assigned_ips(cur),
        text::views(d.hosts@),
    );
}

/// What a plan foresees for the interface of a host.
#[verifier::rlimit(40)]
proof fn foreseen_interface(
    d: DesiredMesh,
    cur: Seq<(Seq<char>, ServerView)>,
    files: CorrosionFiles,
    p: PlanView,
    host: Seq<char>,
    t: ActionType,
)
    requires
        plan::plan_of(d, cur, files) == Ok::<PlanView, Seq<char>>(p),
        text::views(d.hosts@).contains(host),
        stage(t) < 7,
    ensures
        foresees(p, host, t, Seq::empty()) <==> stands(
            plan::wireguard_actions(d, cur, host, keyed::lookup(p.mgmt, host)->0),
            host,
            t,
            Seq::empty(),
        ),
{
    let st = plan::state_of(cur, host);
    foreseen_is_needed(d, cur, files, p, host, t, Seq::empty());
    podman_stands(d, st, p.subnets, host, t, Seq::empty());
    coold_stands(
        d,
        st,
        p.mgmt,
        p.subnets,
        files,
        host,
        keyed::lookup(p.mgmt, host)->0,
        t,
        Seq::empty(),
    );
}

/// A peer is added where the key of another host is known and no peer of the host has it, and
/// taken away where a peer of the host has a key that no other host has.
pub proof fn peers_follow_the_hosts(
    d: DesiredMesh,
    cur: Seq<(Seq<char>, ServerView)>,
    files: CorrosionFiles,
    p: PlanView,
    host: Seq<char>,
)
    requires
        plan::plan_of(d, cur, files) == Ok::<PlanView, Seq<char>>(p),
        text::views(d.hosts@).contains(host),
    ensures
        ({
            let none = Seq::<char>::empty();
            let hosts = text::views(d.hosts@);
            let peers = plan::state_of(cur, host).peers;
            &&& foresees(p, host, ActionType::AddPeer, none) <==> exists|j: int|
                0 <= j < hosts.len() && #[trigger] hosts[j] != host && (keyed::lookup(
                    cur,
                    hosts[j],
                ) matches Some(o) && o.public_key.len() > 0 && !has_peer(peers, o.public_key))
            &&& foresees(p, host, ActionType::RemovePeer, none) <==> exists|k: int|
                0 <= k < peers.len() && !is_key_of_other(
                    hosts,
                    cur,
                    host,
                    (#[trigger] peers[k]).public_key,
                )
        }),
{
    let none = Seq::<char>::empty();
    let hosts = text::views(d.hosts@);
    let mgmt_ip = keyed::lookup(p.mgmt, host)->0;
    let peers = plan::state_of(cur, host).peers;
    lacking_is_not_knowing(hosts, cur, host);
    foreseen_interface(d, cur, files, p, host, ActionType::AddPeer);
    foreseen_interface(d, cur, files, p, host, ActionType::RemovePeer);
    wireguard_stands(d, cur, host, mgmt_ip, ActionType::AddPeer, none);
    wireguard_stands(d, cur, host, mgmt_ip, ActionType::RemovePeer, none);
    if exists|j: int|
        0 <= j < hosts.len() && #[trigger] hosts[j] != host && plan::key_of(cur, hosts[j]).len() > 0
            && !knows(cur, host, hosts[j]) {
        let j = choose|j: int|
            0 <= j < hosts.len() && #[trigger] hosts[j] != host && plan::key_of(
                cur,
                hosts[j],
            ).len() > 0 && !knows(cur, host, hosts[j]);
        assert(hosts[j] != host);
    }
    if exists|j: int|
        0 <= j < hosts.len() && #[trigger] hosts[j] != host && (keyed::lookup(
            cur,
            hosts[j],
        ) matches Some(o) && o.public_key.len() > 0 && !has_peer(peers, o.public_key)) {
        let j = choose|j: int|
            0 <= j < hosts.len() && #[trigger] hosts[j] != host && (keyed::lookup(
                cur,
                hosts[j],
            ) matches Some(o) && o.public_key.len() > 0 && !has_peer(peers, o.public_key));
        assert(hosts[j] != host && plan::key_of(cur, hosts[j]).len() > 0 && !knows(
            cur,
            host,
            hosts[j],
        ));
    }
}

/// A node gets what its containers lack, where Podman is wanted: Podman, its socket, forwarding,
/// a network for each namespace that has none, another network where the one that is there is
/// not as it should be, and the firewall where it is down or another. A host that is no node gets
/// none of it.
pub proof fn nodes_get_what_containers_lack(
    d: DesiredMesh,
    cur: Seq<(Seq<char>, ServerView)>,
    files: CorrosionFiles,
    p: PlanView,
    host: Seq<char>,
    ns: Seq<char>,
)
    requires
        plan::plan_of(d, cur, files) == Ok::<PlanView, Seq<char>>(p),
        text::views(d.hosts@).contains(host),
        text::views(d.namespaces@).contains(ns),
    ensures
        ({
            let none = Seq::<char>::empty();
            let st = plan::state_of(cur, host);
            let due = d.install_podman && text::views(d.nodes@).contains(host);
            &&& foresees(p, host, ActionType::InstallPodman, none) <==> due && !st.podman_installed
            &&& foresees(p, host, ActionType::EnablePodmanSocket, none) <==> due
                && !st.podman_socket_active
            &&& foresees(p, host, ActionType::EnableIpForward, none) <==> due
                && !st.ip_forward_enabled
            &&& foresees(p, host, ActionType::CreatePodmanNetwork, ns) <==> due && !network_is_up(
                st,
                ns,
            )
            &&& foresees(p, host, ActionType::RecreatePodmanNetwork, ns) <==> due && network_is_off(
                st,
                keyed::lookup2(p.subnets, ns, host),
                ns,
            )
            &&& foresees(p, host, ActionType::InstallFirewall, none) <==> due && (
            !st.firewall_active || st.default_deny_active != d.default_deny_containers
                || firewall_differs(d, st, p.subnets, host))
        }),
{
    let none = Seq::<char>::empty();
    let st = plan::state_of(cur, host);
    let names = text::views(d.namespaces@);
    keyed::in_order_contains(names, ns);
    if text::views(d.nodes@).contains(host) {
        plan::nodes_allotted(d, cur, host);
        let sorted = keyed::in_order(names);
        let i = choose|i: int| 0 <= i < sorted.len() && sorted[i] == ns;
        assert(keyed::lookup2(p.subnets, sorted[i], host) is Some);
    }
    foreseen_containers(d, cur, files, p, host, ActionType::InstallPodman, none);
    foreseen_containers(d, cur, files, p, host, ActionType::EnablePodmanSocket, none);
    foreseen_containers(d, cur, files, p, host, ActionType::EnableIpForward, none);
    foreseen_containers(d, cur, files, p, host, ActionType::CreatePodmanNetwork, ns);
    foreseen_containers(d, cur, files, p, host, ActionType::RecreatePodmanNetwork, ns);
    foreseen_containers(d, cur, files, p, host, ActionType::InstallFirewall, none);
    podman_stands(d, st, p.subnets, host, ActionType::InstallPodman, none);
    podman_stands(d, st, p.subnets, host, ActionType::EnablePodmanSocket, none);
    podman_stands(d, st, p.subnets, host, ActionType::EnableIpForward, none);
    podman_stands(d, st, p.subnets, host, ActionType::CreatePodmanNetwork, ns);
    podman_stands(d, st, p.subnets, host, ActionType::RecreatePodmanNetwork, ns);
    podman_stands(d, st, p.subnets, host, ActionType::InstallFirewall, none);
}

/// What a plan foresees for the containers of a host.
#[verifier::rlimit(40)]
proof fn foreseen_containers(
    d: DesiredMesh,
    cur: Seq<(Seq<char>, ServerView)>,
    files: CorrosionFiles,
    p: PlanView,
    host: Seq<char>,
    t: ActionType,
    ns: Seq<char>,
)
    requires
        plan::plan_of(d, cur, files) == Ok::<PlanView, Seq<char>>(p),
        text::views(d.hosts@).contains(host),
        7 <= stage(t) < 12,
    ensures
        foresees(p, host, t, ns) <==> text::views(d.nodes@).contains(host) && d.install_podman
            && stands(
            plan::podman_actions(d, plan::state_of(cur, host), p.subnets, host),
            host,
            t,
            ns,
        ),
{
    let st = plan::state_of(cur, host);
    let mgmt_ip = keyed::lookup(p.mgmt, host)->0;
    foreseen_is_needed(d, cur, files, p, host, t, ns);
    wireguard_stands(d, cur, host, mgmt_ip, t, ns);
    coold_stands(d, st, p.mgmt, p.subnets, files, host, mgmt_ip, t, ns);
}

proof fn coold_stands(
    d: DesiredMesh,
    st: ServerView,
    mgmt: Seq<(Seq<char>, u32)>,
    subnets: Seq<(Seq<char>, Seq<(Seq<char>, Ipv4Net)>)>,
    files: CorrosionFiles,
    host: Seq<char>,
    mgmt_ip: u32,
    t: ActionType,
    ns: Seq<char>,
)
    ensures
        ({
            let old_corrosion = outdated(
                d.corrosion_version@,
                st.corrosion_installed,
                st.corrosion_version,
            );
            let old_coold = outdated(d.coold_version@, st.coold_installed, st.coold_version);
            let config = config_differs(d, st, mgmt, files, host);
            let schema = schema_differs(st, files);
            stands(
                plan::coold_actions(d, st, mgmt, subnets, files, host, mgmt_ip),
                host,
                t,
                ns,
            ) <==> ns.len() == 0 && match t {
                ActionType::InstallCorrosion => old_corrosion,
                ActionType::InstallCoold => old_coold,
                ActionType::WriteCorrosionConfig => config,
                ActionType::WriteCorrosionSchema => !st.corrosion_schema_exists || schema,
                ActionType::InstallCorrosionService => !st.corrosion_active || config
                    || old_corrosion || schema,
                ActionType::InstallCooldService => !st.coold_active || config || old_coold
                    || unit_differs(d, st, subnets, host, mgmt_ip),
                _ => false,
            }
        }),
{
    let x = details(d, st, mgmt, files, host, mgmt_ip);
    let old_corrosion = outdated(
        d.corrosion_version@,
        st.corrosion_installed,
        st.corrosion_version,
    );
    let old_coold = outdated(d.coold_version@, st.coold_installed, st.coold_version);
    let config = config_differs(d, st, mgmt, files, host);
    let schema = schema_differs(st, files);
    let unit = unit_differs(d, st, subnets, host, mgmt_ip);
    coold_shape(d, st, mgmt, subnets, files, host, mgmt_ip);
    six_stand(
        host,
        (old_corrosion, x.0),
        (old_coold, x.1),
        (config, x.2),
        (!st.corrosion_schema_exists || schema, x.3),
        (!st.corrosion_active || config || old_corrosion || schema, x.4),
        (!st.coold_active || config || old_coold || unit, x.5),
        t,
        ns,
    );
}

/// What a plan foresees for the agents of a host.
proof fn foreseen_agents(
    d: DesiredMesh,
    cur: Seq<(Seq<char>, ServerView)>,
    files: CorrosionFiles,
    p: PlanView,
    host: Seq<char>,
    t: ActionType,
)
    requires
        plan::plan_of(d, cur, files) == Ok::<PlanView, Seq<char>>(p),
        text::views(d.hosts@).contains(host),
        12 <= stage(t),
    ensures
        foresees(p, host, t, Seq::empty()) <==> text::views(d.nodes@).contains(host)
            && d.install_coold && stands(
            plan::coold_actions(
                d,
                plan::state_of(cur, host),
                p.mgmt,
                p.subnets,
                files,
                host,
                keyed::lookup(p.mgmt, host)->0,
            ),
            host,
            t,
            Seq::empty(),
        ),
{
    let st = plan::state_of(cur, host);
    let mgmt_ip = keyed::lookup(p.mgmt, host)->0;
    foreseen_is_needed(d, cur, files, p, host, t, Seq::empty());
    wireguard_stands(d, cur, host, mgmt_ip, t, Seq::empty());
    podman_stands(d, st, p.subnets, host, t, Seq::empty());
}

/// A node gets what its agents lack, where coold is wanted: a release that is absent or another,
/// a configuration or a schema that is not the one wanted. Corrosion is restarted after any
/// change of its release, configuration or schema, and coold after any change of its release, its
/// unit or that configuration. A host that is no node gets none of it.
pub proof fn nodes_get_what_agents_lack(
    d: DesiredMesh,
    cur: Seq<(Seq<char>, ServerView)>,
    files: CorrosionFiles,
    p: PlanView,
    host: Seq<char>,
)
    requires
        plan::plan_of(d, cur, files) == Ok::<PlanView, Seq<char>>(p),
        text::views(d.hosts@).contains(host),
    ensures
        ({
            let none = Seq::<char>::empty();
            let st = plan::state_of(cur, host);
            let due = d.install_coold && text::views(d.nodes@).contains(host);
            let corrosion = foresees(p, host, ActionType::InstallCorrosion, none);
            let agent = foresees(p, host, ActionType::InstallCoold, none);
            let config = foresees(p, host, ActionType::WriteCorrosionConfig, none);
            &&& corrosion <==> due && outdated(
                d.corrosion_version@,
                st.corrosion_installed,
                st.corrosion_version,
            )
            &&& agent <==> due && outdated(d.coold_version@, st.coold_installed, st.coold_version)
            &&& config <==> due && config_differs(d, st, p.mgmt, files, host)
            &&& foresees(p, host, ActionType::WriteCorrosionSchema, none) <==> due && (
            !st.corrosion_schema_exists || schema_differs(st, files))
            &&& foresees(p, host, ActionType::InstallCorrosionService, none) <==> due && (
            !st.corrosion_active || corrosion || config || schema_differs(st, files))
            &&& foresees(p, host, ActionType::InstallCooldService, none) <==> due && (
            !st.coold_active || agent || config || unit_differs(
                d,
                st,
                p.subnets,
                host,
                keyed::lookup(p.mgmt, host)->0,
            ))
        }),
{
    let none = Seq::<char>::empty();
    let st = plan::state_of(cur, host);
    let mgmt_ip = keyed::lookup(p.mgmt, host)->0;
    foreseen_agents(d, cur, files, p, host, ActionType::InstallCorrosion);
    foreseen_agents(d, cur, files, p, host, ActionType::InstallCoold);
    foreseen_agents(d, cur, files, p, host, ActionType::WriteCorrosionConfig);
    foreseen_agents(d, cur, files, p, host, ActionType::WriteCorrosionSchema);
    foreseen_agents(d, cur, files, p, host, ActionType::InstallCorrosionService);
    foreseen_agents(d, cur, files, p, host, ActionType::InstallCooldService);
    coold_stands(d, st, p.mgmt, p.subnets, files, host, mgmt_ip, ActionType::InstallCorrosion, none);
    coold_stands(d, st, p.mgmt, p.subnets, files, host, mgmt_ip, ActionType::InstallCoold, none);
    coold_stands(
        d,
        st,
        p.mgmt,
        p.subnets,
        files,
        host,
        mgmt_ip,
        ActionType::WriteCorrosionConfig,
        none,
    );
    coold_stands(
        d,
        st,
        p.mgmt,
        p.subnets,
        files,
        host,
        mgmt_ip,
        ActionType::WriteCorrosionSchema,
        none,
    );
    coold_stands(
        d,
        st,
        p.mgmt,
        p.subnets,
        files,
        host,
        mgmt_ip,
        ActionType::InstallCorrosionService,
        none,
    );
    coold_stands(
        d,
        st,
        p.mgmt,
        p.subnets,
        files,
        host,
        mgmt_ip,
        ActionType::InstallCooldService,
        none,
    );
}

} // verus!
