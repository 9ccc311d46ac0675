//! What holds of every plan.

use vstd::prelude::*;
use crate::cli::coold;
use crate::cli::firewall;
use crate::cli::plan;
use crate::cli::corrosion;
use crate::cli::corrosion::CorrosionFiles;
use crate::cli::plan::PlanView;
use crate::digest;
use crate::keyed;
use crate::mesh::action::{ActionType, ActionView};
use crate::mesh::intent;
use crate::mesh::state;
use crate::mesh::state::{DesiredMesh, ServerView};
use crate::net::Ipv4Net;
use crate::text;

verus! {

/// Whether an action is one that every host may need; the others are for nodes alone.
pub open spec fn for_any_host(t: ActionType) -> bool {
    t == ActionType::InstallWg || t == ActionType::GenKeyPair || t == ActionType::AddPeer || t
        == ActionType::RemovePeer || t == ActionType::WriteConfig || t == ActionType::EnableService
        || t == ActionType::ReloadService
}

/// Whether an action is for a host of the mesh, and for a node where only nodes need it.
pub open spec fn well_placed(d: DesiredMesh, a: ActionView) -> bool {
    &&& text::views(d.hosts@).contains(a.host)
    &&& for_any_host(a.action_type) || text::views(d.nodes@).contains(a.host)
}

/// Whether all actions are for this host, and all of them for any host unless it is a node.
spec fn all_for(actions: Seq<ActionView>, host: Seq<char>, node: bool) -> bool {
    forall|i: int|
        0 <= i < actions.len() ==> (#[trigger] actions[i]).host == host && (node || for_any_host(
            actions[i].action_type,
        ))
}

proof fn all_for_sum(a: Seq<ActionView>, b: Seq<ActionView>, host: Seq<char>, node: bool)
    requires
        all_for(a, host, node),
        all_for(b, host, node),
    ensures
        all_for(a + b, host, node),
{
    assert forall|i: int| 0 <= i < (a + b).len() implies (#[trigger] (a + b)[i]).host == host && (
    node || for_any_host((a + b)[i].action_type)) by {
        if i < a.len() {
            assert((a + b)[i] == a[i]);
        } else {
            assert((a + b)[i] == b[i - a.len()]);
        }
    }
}

proof fn key_actions_for(
    a: Seq<(Seq<char>, ())>,
    b: Seq<(Seq<char>, ())>,
    host: Seq<char>,
    t: ActionType,
    node: bool,
)
    requires
        for_any_host(t),
    ensures
        all_for(plan::key_actions(a, b, host, t), host, node),
    decreases a.len(),
{
    if a.len() > 0 {
        key_actions_for(a.drop_last(), b, host, t, node);
        all_for_sum(
            plan::key_actions(a.drop_last(), b, host, t),
            plan::when(
                keyed::lookup(b, a.last().0) is None,
                plan::act(host, Seq::empty(), t, plan::truncated(a.last().0)),
            ),
            host,
            node,
        );
    }
}

proof fn network_actions_for(
    st: ServerView,
    subnets: Seq<(Seq<char>, Seq<(Seq<char>, Ipv4Net)>)>,
    host: Seq<char>,
    nss: Seq<Seq<char>>,
)
    ensures
        all_for(plan::network_actions(st, subnets, host, nss), host, true),
    decreases nss.len(),
{
    if nss.len() > 0 {
        network_actions_for(st, subnets, host, nss.drop_last());
        all_for_sum(
            plan::network_actions(st, subnets, host, nss.drop_last()),
            plan::network_action(st, plan::subnet_of(subnets, nss.last(), host), host, nss.last()),
            host,
            true,
        );
    }
}

proof fn wireguard_actions_for(
    d: DesiredMesh,
    cur: Seq<(Seq<char>, ServerView)>,
    host: Seq<char>,
    mgmt_ip: u32,
    node: bool,
)
    ensures
        all_for(plan::wireguard_actions(d, cur, host, mgmt_ip), host, node),
{
    let st = plan::state_of(cur, host);
    let hosts = text::views(d.hosts@);
    let have = plan::current_keys(st.peers);
    let want = plan::desired_keys(hosts, cur, host);
    key_actions_for(want, have, host, ActionType::AddPeer, node);
    key_actions_for(have, want, host, ActionType::RemovePeer, node);
}

proof fn podman_actions_for(
    d: DesiredMesh,
    st: ServerView,
    subnets: Seq<(Seq<char>, Seq<(Seq<char>, Ipv4Net)>)>,
    host: Seq<char>,
)
    ensures
        all_for(plan::podman_actions(d, st, subnets, host), host, true),
{
    network_actions_for(st, subnets, host, keyed::in_order(text::views(d.namespaces@)));
}

proof fn coold_actions_for(
    d: DesiredMesh,
    st: ServerView,
    mgmt: Seq<(Seq<char>, u32)>,
    subnets: Seq<(Seq<char>, Seq<(Seq<char>, Ipv4Net)>)>,
    files: CorrosionFiles,
    host: Seq<char>,
    mgmt_ip: u32,
)
    ensures
        all_for(plan::coold_actions(d, st, mgmt, subnets, files, host, mgmt_ip), host, true),
{
}

proof fn host_actions_for(
    d: DesiredMesh,
    cur: Seq<(Seq<char>, ServerView)>,
    mgmt: Seq<(Seq<char>, u32)>,
    subnets: Seq<(Seq<char>, Seq<(Seq<char>, Ipv4Net)>)>,
    files: CorrosionFiles,
    host: Seq<char>,
)
    ensures
        all_for(
            plan::host_actions(d, cur, mgmt, subnets, files, host),
            host,
            text::views(d.nodes@).contains(host),
        ),
{
    let mgmt_ip = keyed::lookup(mgmt, host)->0;
    let st = plan::state_of(cur, host);
    let node = text::views(d.nodes@).contains(host);
    let none = Seq::<ActionView>::empty();
    let w = plan::wireguard_actions(d, cur, host, mgmt_ip);
    let p = if node && d.install_podman {
        plan::podman_actions(d, st, subnets, host)
    } else {
        none
    };
    let c = if node && d.install_coold {
        plan::coold_actions(d, st, mgmt, subnets, files, host, mgmt_ip)
    } else {
        none
    };
    wireguard_actions_for(d, cur, host, mgmt_ip, node);
    podman_actions_for(d, st, subnets, host);
    coold_actions_for(d, st, mgmt, subnets, files, host, mgmt_ip);
    all_for_sum(w, p, host, node);
    all_for_sum(w + p, c, host, node);
}

proof fn all_actions_placed(
    d: DesiredMesh,
    cur: Seq<(Seq<char>, ServerView)>,
    mgmt: Seq<(Seq<char>, u32)>,
    subnets: Seq<(Seq<char>, Seq<(Seq<char>, Ipv4Net)>)>,
    files: CorrosionFiles,
    hosts: Seq<Seq<char>>,
)
    requires
        forall|i: int|
            0 <= i < hosts.len() ==> text::views(d.hosts@).contains(#[trigger] hosts[i]),
    ensures
        forall|i: int|
            0 <= i < plan::all_actions(d, cur, mgmt, subnets, files, hosts).len() ==> well_placed(
                d,
                #[trigger] plan::all_actions(d, cur, mgmt, subnets, files, hosts)[i],
            ),
    decreases hosts.len(),
{
    if hosts.len() > 0 {
        let t = hosts.drop_last();
        assert forall|i: int| 0 <= i < t.len() implies text::views(d.hosts@).contains(
            #[trigger] t[i],
        ) by {
            assert(t[i] == hosts[i]);
        }
        all_actions_placed(d, cur, mgmt, subnets, files, t);
        let before = plan::all_actions(d, cur, mgmt, subnets, files, t);
        let own = plan::host_actions(d, cur, mgmt, subnets, files, hosts.last());
        host_actions_for(d, cur, mgmt, subnets, files, hosts.last());
        assert(text::views(d.hosts@).contains(hosts[hosts.len() - 1]));
        let all = before + own;
        assert forall|i: int| 0 <= i < all.len() implies well_placed(d, #[trigger] all[i]) by {
            if i < before.len() {
                assert(all[i] == before[i]);
            } else {
                assert(all[i] == own[i - before.len()]);
            }
        }
    }
}

/// A plan touches no host outside the mesh, and what only nodes need is planned for nodes
/// alone.
pub proof fn plans_stay_in_the_mesh(
    d: DesiredMesh,
    cur: Seq<(Seq<char>, ServerView)>,
    files: CorrosionFiles,
    p: PlanView,
)
    requires
        plan::plan_of(d, cur, files) == Ok::<PlanView, Seq<char>>(p),
    ensures
        forall|i: int| 0 <= i < p.actions.len() ==> well_placed(d, #[trigger] p.actions[i]),
        forall|i: int| 0 <= i < p.skipped.len() ==> well_placed(d, (#[trigger] p.skipped[i]).action),
{
    let hosts = text::views(d.hosts@);
    let mgmt = plan::mgmt_of(d, cur)->Ok_0.0;
    let subnets = plan::containers_of(d, cur)->Ok_0.0;
    let all = plan::all_actions(d, cur, mgmt, subnets, files, hosts);
    let new = text::views(d.new_nodes@);
    assert forall|i: int| 0 <= i < hosts.len() implies hosts.contains(#[trigger] hosts[i]) by {}
    all_actions_placed(d, cur, mgmt, subnets, files, hosts);
    kept_come_from(d, all, d.intent, d.allow_replace, new);
}

proof fn kept_come_from(
    d: DesiredMesh,
    all: Seq<ActionView>,
    i: intent::Intent,
    replace: bool,
    new: Seq<Seq<char>>,
)
    requires
        forall|k: int| 0 <= k < all.len() ==> well_placed(d, #[trigger] all[k]),
    ensures
        forall|k: int|
            0 <= k < intent::kept_actions(all, i, replace, new).len() ==> well_placed(
                d,
                #[trigger] intent::kept_actions(all, i, replace, new)[k],
            ),
        forall|k: int|
            0 <= k < intent::skipped_actions(all, i, replace, new).len() ==> well_placed(
                d,
                (#[trigger] intent::skipped_actions(all, i, replace, new)[k]).action,
            ),
    decreases all.len(),
{
    if all.len() > 0 {
        let t = all.drop_last();
        assert forall|k: int| 0 <= k < t.len() implies well_placed(d, #[trigger] t[k]) by {
            assert(t[k] == all[k]);
        }
        assert(well_placed(d, all[all.len() - 1]));
        kept_come_from(d, t, i, replace, new);
        let k0 = intent::kept_actions(t, i, replace, new);
        let k1 = intent::kept_actions(all, i, replace, new);
        assert forall|k: int| 0 <= k < k1.len() implies well_placed(d, #[trigger] k1[k]) by {
            if k < k0.len() {
                assert(k1[k] == k0[k]);
            }
        }
        let s0 = intent::skipped_actions(t, i, replace, new);
        let s1 = intent::skipped_actions(all, i, replace, new);
        assert forall|k: int| 0 <= k < s1.len() implies well_placed(
            d,
            (#[trigger] s1[k]).action,
        ) by {
            if k < s0.len() {
                assert(s1[k] == s0[k]);
            }
        }
    }
}

/// Whether the interface of a host is as it should be: installed, up, at its address and
/// port, with the keys of the other hosts for peers and no others.
pub open spec fn connected(
    d: DesiredMesh,
    cur: Seq<(Seq<char>, ServerView)>,
    host: Seq<char>,
    mgmt_ip: u32,
) -> bool {
    let st = plan::state_of(cur, host);
    let hosts = text::views(d.hosts@);
    let have = plan::current_keys(st.peers);
    let want = plan::desired_keys(hosts, cur, host);
    &&& st.installed && st.keys_exist && st.active
    &&& st.wireguard_mgmt_ip == Some(mgmt_ip)
    &&& hosts.len() > 1 ==> st.listen_port == state::port_for(d, host)
    &&& !plan::key_pending(hosts, cur, host)
    &&& !plan::lacks(want, have)
    &&& !plan::lacks(have, want)
}

/// Whether the network of a namespace is as it should be on a node.
pub open spec fn networked(st: ServerView, want: Ipv4Net, ns: Seq<char>) -> bool {
    keyed::lookup(st.namespaces, ns) matches Some(n) && n.network_exists && !n.dns_enabled
        && n.container_subnet == Some(want) && n.label == ns
}

/// Whether Podman and the firewall are as they should be on a node.
pub open spec fn contained(
    d: DesiredMesh,
    st: ServerView,
    subnets: Seq<(Seq<char>, Seq<(Seq<char>, Ipv4Net)>)>,
    host: Seq<char>,
) -> bool {
    let nss = keyed::in_order(text::views(d.namespaces@));
    &&& st.podman_installed && st.podman_socket_active && st.ip_forward_enabled
    &&& forall|i: int|
        0 <= i < nss.len() ==> networked(
            st,
            plan::subnet_of(subnets, #[trigger] nss[i], host),
            nss[i],
        )
    &&& st.firewall_active
    &&& st.default_deny_active == d.default_deny_containers
    &&& st.firewall_unit_sha256 == digest::sha256_of(
        firewall::unit_text(
            d.interface@,
            plan::subnets_of(subnets, nss, host),
            d.default_deny_containers,
        ),
    )
}

/// Whether Corrosion and coold are as they should be on a node.
pub open spec fn serving(
    d: DesiredMesh,
    st: ServerView,
    mgmt: Seq<(Seq<char>, u32)>,
    subnets: Seq<(Seq<char>, Seq<(Seq<char>, Ipv4Net)>)>,
    files: CorrosionFiles,
    host: Seq<char>,
    mgmt_ip: u32,
) -> bool {
    let nss = keyed::in_order(text::views(d.namespaces@));
    &&& !plan::drifts(d.corrosion_version@, st.corrosion_installed, st.corrosion_version)
    &&& !plan::drifts(d.coold_version@, st.coold_installed, st.coold_version)
    &&& st.corrosion_config_hash == digest::sha256_of(
        corrosion::config_of(files, d, mgmt, host),
    )
    &&& st.corrosion_schema_exists
    &&& st.corrosion_schema_sha256 == digest::sha256_of(files.schema_sql@)
    &&& st.corrosion_active && st.coold_active
    &&& st.coold_unit_sha256 == digest::sha256_of(
        coold::service_unit_text(
            mgmt_ip,
            plan::coold_namespaces(subnets, nss, host),
            state::flux_of(text::opt_view(d.flux_tls_url)),
        ),
    )
}

/// Whether a host is as it should be.
pub open spec fn settled(
    d: DesiredMesh,
    cur: Seq<(Seq<char>, ServerView)>,
    mgmt: Seq<(Seq<char>, u32)>,
    subnets: Seq<(Seq<char>, Seq<(Seq<char>, Ipv4Net)>)>,
    files: CorrosionFiles,
    host: Seq<char>,
) -> bool {
    let mgmt_ip = keyed::lookup(mgmt, host)->0;
    let st = plan::state_of(cur, host);
    let node = text::views(d.nodes@).contains(host);
    &&& connected(d, cur, host, mgmt_ip)
    &&& node && d.install_podman ==> contained(d, st, subnets, host)
    &&& node && d.install_coold ==> serving(d, st, mgmt, subnets, files, host, mgmt_ip)
}

proof fn no_key_actions(
    a: Seq<(Seq<char>, ())>,
    b: Seq<(Seq<char>, ())>,
    host: Seq<char>,
    t: ActionType,
)
    ensures
        plan::key_actions(a, b, host, t).len() == 0 <==> !plan::lacks(a, b),
    decreases a.len(),
{
    if a.len() > 0 {
        let p = a.drop_last();
        no_key_actions(p, b, host, t);
        if plan::lacks(p, b) {
            let i = choose|i: int| 0 <= i < p.len() && keyed::lookup(b, (#[trigger] p[i]).0) is None;
            assert(a[i] == p[i]);
        }
        if plan::lacks(a, b) {
            let i = choose|i: int| 0 <= i < a.len() && keyed::lookup(b, (#[trigger] a[i]).0) is None;
            if i < p.len() {
                assert(p[i] == a[i]);
            }
        }
        if keyed::lookup(b, a.last().0) is None {
            assert(keyed::lookup(b, a[a.len() - 1].0) is None);
        }
    }
}

proof fn no_network_actions(
    st: ServerView,
    subnets: Seq<(Seq<char>, Seq<(Seq<char>, Ipv4Net)>)>,
    host: Seq<char>,
    nss: Seq<Seq<char>>,
)
    ensures
        plan::network_actions(st, subnets, host, nss).len() == 0 <==> forall|i: int|
            0 <= i < nss.len() ==> networked(
                st,
                plan::subnet_of(subnets, #[trigger] nss[i], host),
                nss[i],
            ),
    decreases nss.len(),
{
    if nss.len() > 0 {
        let p = nss.drop_last();
        no_network_actions(st, subnets, host, p);
        let last = nss.last();
        let own = plan::network_action(st, plan::subnet_of(subnets, last, host), host, last);
        assert(own.len() == 0 <==> networked(st, plan::subnet_of(subnets, last, host), last));
        if plan::network_actions(st, subnets, host, nss).len() == 0 {
            assert forall|i: int| 0 <= i < nss.len() implies networked(
                st,
                plan::subnet_of(subnets, #[trigger] nss[i], host),
                nss[i],
            ) by {
                if i < p.len() {
                    assert(p[i] == nss[i]);
                }
            }
        }
        if forall|i: int|
            0 <= i < nss.len() ==> networked(
                st,
                plan::subnet_of(subnets, #[trigger] nss[i], host),
                nss[i],
            ) {
            assert(networked(st, plan::subnet_of(subnets, nss[nss.len() - 1], host), last));
            assert forall|i: int| 0 <= i < p.len() implies networked(
                st,
                plan::subnet_of(subnets, #[trigger] p[i], host),
                p[i],
            ) by {
                assert(p[i] == nss[i]);
            }
        }
    }
}

proof fn settled_hosts_need_nothing(
    d: DesiredMesh,
    cur: Seq<(Seq<char>, ServerView)>,
    mgmt: Seq<(Seq<char>, u32)>,
    subnets: Seq<(Seq<char>, Seq<(Seq<char>, Ipv4Net)>)>,
    files: CorrosionFiles,
    host: Seq<char>,
)
    ensures
        plan::host_actions(d, cur, mgmt, subnets, files, host).len() == 0 <==> settled(
            d,
            cur,
            mgmt,
            subnets,
            files,
            host,
        ),
{
    let st = plan::state_of(cur, host);
    let have = plan::current_keys(st.peers);
    let want = plan::desired_keys(text::views(d.hosts@), cur, host);
    no_key_actions(want, have, host, ActionType::AddPeer);
    no_key_actions(have, want, host, ActionType::RemovePeer);
    no_network_actions(st, subnets, host, keyed::in_order(text::views(d.namespaces@)));
}

proof fn nothing_needed(
    d: DesiredMesh,
    cur: Seq<(Seq<char>, ServerView)>,
    mgmt: Seq<(Seq<char>, u32)>,
    subnets: Seq<(Seq<char>, Seq<(Seq<char>, Ipv4Net)>)>,
    files: CorrosionFiles,
    hosts: Seq<Seq<char>>,
)
    ensures
        plan::all_actions(d, cur, mgmt, subnets, files, hosts).len() == 0 <==> forall|i: int|
            0 <= i < hosts.len() ==> settled(d, cur, mgmt, subnets, files, #[trigger] hosts[i]),
    decreases hosts.len(),
{
    if hosts.len() > 0 {
        let t = hosts.drop_last();
        nothing_needed(d, cur, mgmt, subnets, files, t);
        settled_hosts_need_nothing(d, cur, mgmt, subnets, files, hosts.last());
        if plan::all_actions(d, cur, mgmt, subnets, files, hosts).len() == 0 {
            assert forall|i: int| 0 <= i < hosts.len() implies settled(
                d,
                cur,
                mgmt,
                subnets,
                files,
                #[trigger] hosts[i],
            ) by {
                if i < t.len() {
                    assert(t[i] == hosts[i]);
                }
            }
        }
        if forall|i: int|
            0 <= i < hosts.len() ==> settled(d, cur, mgmt, subnets, files, #[trigger] hosts[i]) {
            assert(settled(d, cur, mgmt, subnets, files, hosts[hosts.len() - 1]));
            assert forall|i: int| 0 <= i < t.len() implies settled(
                d,
                cur,
                mgmt,
                subnets,
                files,
                #[trigger] t[i],
            ) by {
                assert(t[i] == hosts[i]);
            }
        }
    }
}

/// A plan neither does nor skips anything if and only if every host is as it should be: a
/// converged mesh stays untouched, and nothing else counts as converged.
pub proof fn converged_meshes_need_nothing(
    d: DesiredMesh,
    cur: Seq<(Seq<char>, ServerView)>,
    files: CorrosionFiles,
    p: PlanView,
)
    requires
        plan::plan_of(d, cur, files) == Ok::<PlanView, Seq<char>>(p),
    ensures
        p.actions.len() == 0 && p.skipped.len() == 0 <==> forall|i: int|
            0 <= i < d.hosts@.len() ==> settled(
                d,
                cur,
                p.mgmt,
                p.subnets,
                files,
                #[trigger] text::views(d.hosts@)[i],
            ),
{
    let hosts = text::views(d.hosts@);
    let all = plan::all_actions(d, cur, p.mgmt, p.subnets, files, hosts);
    let new = text::views(d.new_nodes@);
    nothing_needed(d, cur, p.mgmt, p.subnets, files, hosts);
    kept_and_skipped(all, d.intent, d.allow_replace, new);
    assert(hosts.len() == d.hosts@.len());
}

proof fn kept_and_skipped(
    all: Seq<ActionView>,
    i: intent::Intent,
    replace: bool,
    new: Seq<Seq<char>>,
)
    ensures
        intent::kept_actions(all, i, replace, new).len() + intent::skipped_actions(
            all,
            i,
            replace,
            new,
        ).len() == all.len(),
    decreases all.len(),
{
    if all.len() > 0 {
        kept_and_skipped(all.drop_last(), i, replace, new);
    }
}

} // verus!
