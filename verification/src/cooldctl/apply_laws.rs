//! What holds of every application on a mesh with a central host.

use vstd::prelude::*;
use crate::cli::apply as cluster;
use crate::cli::apply_laws::{can_join, does, does_if, does_sum};
use crate::cli::config::PeerConfigView;
use crate::cli::coold::CooldNamespaceView;
use crate::cli::corrosion;
use crate::cli::corrosion::CorrosionFiles;
use crate::cli::plan;
use crate::cooldctl::apply as own;
use crate::cooldctl::builder as maker;
use crate::cooldctl::coold;
use crate::cooldctl::coold::BuilderConfig;
use crate::cooldctl::coolify;
use crate::cooldctl::scheduler;
use crate::cooldctl::ssh;
use crate::keyed;
use crate::mesh::action::{ActionType, ActionView};
use crate::mesh::apply;
use crate::mesh::apply::{Addresses, StepView};
use crate::mesh::state;
use crate::mesh::state::{DesiredMesh, ServerView};
use crate::net;
use crate::net::Ipv4Net;
use crate::text;

verus! {

/// Whether an entry is that of another host of the mesh, with its own name, key, address and
/// subnets.
pub open spec fn is_entry_of(
    d: DesiredMesh,
    cur: Seq<(Seq<char>, ServerView)>,
    mgmt: Seq<(Seq<char>, u32)>,
    subnets: Seq<(Seq<char>, Seq<(Seq<char>, Ipv4Net)>)>,
    e: PeerConfigView,
    p: Seq<char>,
) -> bool {
    let nss = keyed::in_order(text::views(d.namespaces@));
    &&& e.endpoint == p
    &&& keyed::lookup(cur, p) matches Some(s) && e.public_key == s.public_key
    &&& e.mgmt_ip == keyed::lookup(mgmt, p)->0
    &&& if text::views(d.nodes@).contains(p) {
        e.container_subnets.len() == nss.len() && forall|k: int|
            0 <= k < nss.len() ==> #[trigger] e.container_subnets[k] == keyed::lookup2(
                subnets,
                nss[k],
                p,
            )->0
    } else {
        e.container_subnets.len() == 0
    }
}

/// Whether the entries are, one after the other, those of the hosts at these places.
pub open spec fn are_entries_of(
    d: DesiredMesh,
    cur: Seq<(Seq<char>, ServerView)>,
    mgmt: Seq<(Seq<char>, u32)>,
    subnets: Seq<(Seq<char>, Seq<(Seq<char>, Ipv4Net)>)>,
    entries: Seq<PeerConfigView>,
    hosts: Seq<Seq<char>>,
    places: Seq<int>,
) -> bool {
    &&& places.len() == entries.len()
    &&& forall|i: int|
        0 <= i < places.len() ==> 0 <= #[trigger] places[i] < hosts.len() && is_entry_of(
            d,
            cur,
            mgmt,
            subnets,
            entries[i],
            hosts[places[i]],
        )
    &&& forall|i: int, j: int| 0 <= i < j < places.len() ==> places[i] < places[j]
}

proof fn peers_have_places(
    d: DesiredMesh,
    cur: Seq<(Seq<char>, ServerView)>,
    mgmt: Seq<(Seq<char>, u32)>,
    subnets: Seq<(Seq<char>, Seq<(Seq<char>, Ipv4Net)>)>,
    host: Seq<char>,
    hosts: Seq<Seq<char>>,
) -> (places: Seq<int>)
    ensures
        are_entries_of(
            d,
            cur,
            mgmt,
            subnets,
            own::peers_of(d, cur, mgmt, subnets, host, hosts),
            hosts,
            places,
        ),
        forall|j: int|
            0 <= j < hosts.len() ==> (can_join(cur, host, #[trigger] hosts[j]) <==> places.contains(
                j,
            )),
    decreases hosts.len(),
{
    if hosts.len() == 0 {
        Seq::empty()
    } else {
        let t = hosts.drop_last();
        let p = hosts.last();
        let n = t.len() as int;
        let before = peers_have_places(d, cur, mgmt, subnets, host, t);
        let es = own::peers_of(d, cur, mgmt, subnets, host, t);
        let all = own::peers_of(d, cur, mgmt, subnets, host, hosts);
        assert forall|i: int| 0 <= i < before.len() implies 0 <= #[trigger] before[i] < n
            && hosts[before[i]] == t[before[i]] && is_entry_of(
            d,
            cur,
            mgmt,
            subnets,
            es[i],
            hosts[before[i]],
        ) by {}
        let places = if can_join(cur, host, p) {
            before.push(n)
        } else {
            before
        };
        assert(hosts[n] == p);
        assert forall|i: int| 0 <= i < places.len() implies 0 <= #[trigger] places[i] < hosts.len()
            && is_entry_of(d, cur, mgmt, subnets, all[i], hosts[places[i]]) by {
            if i < before.len() {
                assert(places[i] == before[i]);
                assert(all[i] == es[i]);
            }
        }
        assert forall|i: int, j: int| 0 <= i < j < places.len() implies places[i] < places[j] by {
            assert(places[i] == before[i]);
            if j < before.len() {
                assert(places[j] == before[j]);
            }
        }
        assert forall|j: int| 0 <= j < hosts.len() implies (can_join(cur, host, #[trigger] hosts[j])
            <==> places.contains(j)) by {
            if j < n {
                assert(hosts[j] == t[j]);
                if before.contains(j) {
                    let i = choose|i: int| 0 <= i < before.len() && before[i] == j;
                    assert(places[i] == j);
                }
                if places.contains(j) {
                    let i = choose|i: int| 0 <= i < places.len() && places[i] == j;
                    assert(i < before.len());
                    assert(before[i] == j);
                }
            } else {
                if can_join(cur, host, p) {
                    assert(places[before.len() as int] == j);
                }
                if places.contains(j) {
                    let i = choose|i: int| 0 <= i < places.len() && places[i] == j;
                    if i < before.len() {
                        assert(places[i] == before[i]);
                    }
                }
            }
        }
        places
    }
}

/// A host joins the other hosts whose keys are known, in their order and each of them once, and
/// each entry is that host's own: its endpoint, its key, its management address and its
/// container subnets.
pub proof fn peers_are_the_other_hosts(
    d: DesiredMesh,
    cur: Seq<(Seq<char>, ServerView)>,
    mgmt: Seq<(Seq<char>, u32)>,
    subnets: Seq<(Seq<char>, Seq<(Seq<char>, Ipv4Net)>)>,
    host: Seq<char>,
)
    ensures
        ({
            let hosts = text::views(d.hosts@);
            exists|places: Seq<int>|
                #[trigger] are_entries_of(
                    d,
                    cur,
                    mgmt,
                    subnets,
                    own::peers_of(d, cur, mgmt, subnets, host, hosts),
                    hosts,
                    places,
                ) && forall|j: int|
                    0 <= j < hosts.len() ==> (can_join(cur, host, #[trigger] hosts[j])
                        <==> places.contains(j))
        }),
{
    let places = peers_have_places(d, cur, mgmt, subnets, host, text::views(d.hosts@));
}

/// What is installed on a node is what the plan has for it.
pub proof fn agents_are_installed_as_planned(
    d: DesiredMesh,
    a: Addresses,
    acts: Seq<ActionView>,
    files: CorrosionFiles,
    host: Seq<char>,
    t: ActionType,
    ns: Seq<char>,
    c: Seq<char>,
)
    ensures
        ({
            let mgmt_ip = keyed::lookup(a.mgmt@, host)->0;
            let served = plan::coold_namespaces(
                keyed::nested(a.subnets@),
                keyed::in_order(text::views(d.namespaces@)),
                host,
            );
            does(own::phase3_steps(d, a, acts, files, host), t, ns, c) <==> ns.len() == 0 && apply::runs(acts, host, t, Seq::empty()) && match t {
                ActionType::InstallCorrosion => c == corrosion::plain_install_text(files, d.corrosion_version@),
                ActionType::InstallCoold => c == coold::install_command_text(d.coold_version@),
                ActionType::WriteCorrosionConfig => c == "mkdir -p /etc/corrosion && "@ + ssh::heredoc_text("/etc/corrosion/config.toml"@, corrosion::config_of(files, d, a.mgmt@, host), "0644"@),
                ActionType::WriteCorrosionSchema => c == "mkdir -p /etc/corrosion/schemas && "@ + ssh::heredoc_text("/etc/corrosion/schemas/coolify.sql"@, files.schema_sql@, "0644"@),
                ActionType::InstallCorrosionService => c == ssh::heredoc_text("/etc/systemd/system/corrosion.service"@, corrosion::unit_text(files, d.interface@), "0644"@) + " && systemctl daemon-reload && systemctl enable --now corrosion"@,
                ActionType::InstallCooldService => c == coold::ensure_api_token_command_text() + " && "@ + ssh::heredoc_text("/etc/systemd/system/coold.service"@, coold::service_unit_text(mgmt_ip, served, None, None), "0644"@) + " && systemctl daemon-reload && systemctl enable --now coold"@,
                _ => false,
            }
        }),
{
    let none = Seq::<char>::empty();
    if ns.len() == 0 {
        assert(ns =~= none);
    }
    let mgmt_ip = keyed::lookup(a.mgmt@, host)->0;
    let served = plan::coold_namespaces(
        keyed::nested(a.subnets@),
        keyed::in_order(text::views(d.namespaces@)),
        host,
    );
    let c0 = corrosion::plain_install_text(files, d.corrosion_version@);
    let r0 = apply::runs(acts, host, ActionType::InstallCorrosion, none);
    let s0 = apply::step_if(r0, ActionType::InstallCorrosion, none, c0);
    does_if(r0, ActionType::InstallCorrosion, none, c0, t, ns, c);
    let c1 = coold::install_command_text(d.coold_version@);
    let r1 = apply::runs(acts, host, ActionType::InstallCoold, none);
    let s1 = apply::step_if(r1, ActionType::InstallCoold, none, c1);
    does_if(r1, ActionType::InstallCoold, none, c1, t, ns, c);
    let c2 = "mkdir -p /etc/corrosion && "@ + ssh::heredoc_text("/etc/corrosion/config.toml"@, corrosion::config_of(files, d, a.mgmt@, host), "0644"@);
    let r2 = apply::runs(acts, host, ActionType::WriteCorrosionConfig, none);
    let s2 = apply::step_if(r2, ActionType::WriteCorrosionConfig, none, c2);
    does_if(r2, ActionType::WriteCorrosionConfig, none, c2, t, ns, c);
    let c3 = "mkdir -p /etc/corrosion/schemas && "@ + ssh::heredoc_text("/etc/corrosion/schemas/coolify.sql"@, files.schema_sql@, "0644"@);
    let r3 = apply::runs(acts, host, ActionType::WriteCorrosionSchema, none);
    let s3 = apply::step_if(r3, ActionType::WriteCorrosionSchema, none, c3);
    does_if(r3, ActionType::WriteCorrosionSchema, none, c3, t, ns, c);
    let c4 = ssh::heredoc_text("/etc/systemd/system/corrosion.service"@, corrosion::unit_text(files, d.interface@), "0644"@) + " && systemctl daemon-reload && systemctl enable --now corrosion"@;
    let r4 = apply::runs(acts, host, ActionType::InstallCorrosionService, none);
    let s4 = apply::step_if(r4, ActionType::InstallCorrosionService, none, c4);
    does_if(r4, ActionType::InstallCorrosionService, none, c4, t, ns, c);
    let c5 = coold::ensure_api_token_command_text() + " && "@ + ssh::heredoc_text("/etc/systemd/system/coold.service"@, coold::service_unit_text(mgmt_ip, served, None, None), "0644"@) + " && systemctl daemon-reload && systemctl enable --now coold"@;
    let r5 = apply::runs(acts, host, ActionType::InstallCooldService, none);
    let s5 = apply::step_if(r5, ActionType::InstallCooldService, none, c5);
    does_if(r5, ActionType::InstallCooldService, none, c5, t, ns, c);
    does_sum(s0, s1, t, ns, c);
    does_sum(s0 + s1, s2, t, ns, c);
    does_sum(s0 + s1 + s2, s3, t, ns, c);
    does_sum(s0 + s1 + s2 + s3, s4, t, ns, c);
    does_sum(s0 + s1 + s2 + s3 + s4, s5, t, ns, c);
}

/// What is installed on the central host is what the plan has for it: Coolify, the scheduler, its keys and
/// both services; the scheduler listens on the address of the central host in the mesh.
pub proof fn the_central_host_is_installed_as_planned(
    d: DesiredMesh,
    central_ip: u32,
    acts: Seq<ActionView>,
    host: Seq<char>,
    t: ActionType,
    ns: Seq<char>,
    c: Seq<char>,
)
    ensures
        ({
            does(own::phase4_steps(d, central_ip, acts, host), t, ns, c) <==> ns.len() == 0 && apply::runs(acts, host, t, Seq::empty()) && match t {
                ActionType::InstallCoolify => c == coolify::install_script_text(d.coolify_version@, coolify::url_of(d.coolify_version@)),
                ActionType::InstallScheduler => c == scheduler::install_command_text(d.scheduler_version@),
                ActionType::GenerateJwtKeypair => c == scheduler::ensure_jwt_keypair_command_text(),
                ActionType::InstallSchedulerService => c == ssh::heredoc_text("/etc/systemd/system/scheduler.service"@, scheduler::service_unit_text(net::dotted(central_ip) + ":6443"@, "/etc/coolify/jwt.pub"@, d.interface@), "0644"@) + " && systemctl daemon-reload && systemctl enable --now scheduler"@,
                ActionType::InstallCoolifyService => c == ssh::heredoc_text("/etc/systemd/system/coolify.service"@, coolify::service_unit_text(), "0644"@) + " && systemctl daemon-reload && systemctl enable --now coolify"@,
                _ => false,
            }
        }),
{
    let none = Seq::<char>::empty();
    if ns.len() == 0 {
        assert(ns =~= none);
    }
    let c0 = coolify::install_script_text(d.coolify_version@, coolify::url_of(d.coolify_version@));
    let r0 = apply::runs(acts, host, ActionType::InstallCoolify, none);
    let s0 = apply::step_if(r0, ActionType::InstallCoolify, none, c0);
    does_if(r0, ActionType::InstallCoolify, none, c0, t, ns, c);
    let c1 = scheduler::install_command_text(d.scheduler_version@);
    let r1 = apply::runs(acts, host, ActionType::InstallScheduler, none);
    let s1 = apply::step_if(r1, ActionType::InstallScheduler, none, c1);
    does_if(r1, ActionType::InstallScheduler, none, c1, t, ns, c);
    let c2 = scheduler::ensure_jwt_keypair_command_text();
    let r2 = apply::runs(acts, host, ActionType::GenerateJwtKeypair, none);
    let s2 = apply::step_if(r2, ActionType::GenerateJwtKeypair, none, c2);
    does_if(r2, ActionType::GenerateJwtKeypair, none, c2, t, ns, c);
    let c3 = ssh::heredoc_text("/etc/systemd/system/scheduler.service"@, scheduler::service_unit_text(net::dotted(central_ip) + ":6443"@, "/etc/coolify/jwt.pub"@, d.interface@), "0644"@) + " && systemctl daemon-reload && systemctl enable --now scheduler"@;
    let r3 = apply::runs(acts, host, ActionType::InstallSchedulerService, none);
    let s3 = apply::step_if(r3, ActionType::InstallSchedulerService, none, c3);
    does_if(r3, ActionType::InstallSchedulerService, none, c3, t, ns, c);
    let c4 = ssh::heredoc_text("/etc/systemd/system/coolify.service"@, coolify::service_unit_text(), "0644"@) + " && systemctl daemon-reload && systemctl enable --now coolify"@;
    let r4 = apply::runs(acts, host, ActionType::InstallCoolifyService, none);
    let s4 = apply::step_if(r4, ActionType::InstallCoolifyService, none, c4);
    does_if(r4, ActionType::InstallCoolifyService, none, c4, t, ns, c);
    does_sum(s0, s1, t, ns, c);
    does_sum(s0 + s1, s2, t, ns, c);
    does_sum(s0 + s1 + s2, s3, t, ns, c);
    does_sum(s0 + s1 + s2 + s3, s4, t, ns, c);
}

/// What a node gets last is what the plan has for it: its token, readable by its owner alone where coold
/// reads it, its builder, and coold with both.
pub proof fn tokens_and_builders_go_out_as_planned(
    d: DesiredMesh,
    a: Addresses,
    acts: Seq<ActionView>,
    host: Seq<char>,
    flux: coold::FluxConfig,
    builder: Option<BuilderConfig>,
    token: Seq<char>,
    t: ActionType,
    ns: Seq<char>,
    c: Seq<char>,
)
    ensures
        ({
            let mgmt_ip = keyed::lookup(a.mgmt@, host)->0;
            let served = plan::coold_namespaces(
                keyed::nested(a.subnets@),
                keyed::in_order(text::views(d.namespaces@)),
                host,
            );
            does(own::phase5_steps(d, a, acts, host, flux, builder, token), t, ns, c) <==> ns.len() == 0 && apply::runs(acts, host, t, Seq::empty()) && match t {
                ActionType::WriteHostJwt => c == "mkdir -p /etc/coolify && "@ + ssh::heredoc_text("/etc/coolify/host-jwt"@, token, "0600"@),
                ActionType::InstallBuilder => c == maker::install_command_text(d.coold_version@),
                ActionType::UpdateCooldSchedulerEnv => c == ssh::heredoc_text("/etc/systemd/system/coold.service"@, coold::service_unit_text(mgmt_ip, served, Some(flux), builder), "0644"@) + " && systemctl daemon-reload && systemctl restart coold"@,
                _ => false,
            }
        }),
{
    let none = Seq::<char>::empty();
    if ns.len() == 0 {
        assert(ns =~= none);
    }
    let mgmt_ip = keyed::lookup(a.mgmt@, host)->0;
    let served = plan::coold_namespaces(
        keyed::nested(a.subnets@),
        keyed::in_order(text::views(d.namespaces@)),
        host,
    );
    let c0 = "mkdir -p /etc/coolify && "@ + ssh::heredoc_text("/etc/coolify/host-jwt"@, token, "0600"@);
    let r0 = apply::runs(acts, host, ActionType::WriteHostJwt, none);
    let s0 = apply::step_if(r0, ActionType::WriteHostJwt, none, c0);
    does_if(r0, ActionType::WriteHostJwt, none, c0, t, ns, c);
    let c1 = maker::install_command_text(d.coold_version@);
    let r1 = apply::runs(acts, host, ActionType::InstallBuilder, none);
    let s1 = apply::step_if(r1, ActionType::InstallBuilder, none, c1);
    does_if(r1, ActionType::InstallBuilder, none, c1, t, ns, c);
    let c2 = ssh::heredoc_text("/etc/systemd/system/coold.service"@, coold::service_unit_text(mgmt_ip, served, Some(flux), builder), "0644"@) + " && systemctl daemon-reload && systemctl restart coold"@;
    let r2 = apply::runs(acts, host, ActionType::UpdateCooldSchedulerEnv, none);
    let s2 = apply::step_if(r2, ActionType::UpdateCooldSchedulerEnv, none, c2);
    does_if(r2, ActionType::UpdateCooldSchedulerEnv, none, c2, t, ns, c);
    does_sum(s0, s1, t, ns, c);
    does_sum(s0 + s1, s2, t, ns, c);
}

/// The agents of a mesh dial the scheduler on the central host with the token of their host. A node
/// that builds keeps the limits of the mesh and away from its networks; a node that does not has no
/// limits to keep.
pub proof fn agents_are_set_up_for_the_central_host(
    flux: coold::FluxConfig,
    b: Option<BuilderConfig>,
    d: DesiredMesh,
    central_ip: u32,
    builds: bool,
)
    requires
        own::is_setup(flux, b, d, central_ip, builds),
    ensures
        flux.url@ == "http://"@ + net::dotted(central_ip) + ":6443"@,
        flux.jwt_path@ == "/etc/coolify/host-jwt"@,
        b is Some <==> builds,
        b matches Some(c) ==> c.capacity == d.builder_capacity && c.cpu_quota@
            == d.builder_cpu_quota@ && c.memory_max@ == d.builder_memory_max@ && c.timeout_secs
            == d.builder_timeout_secs && text::views(c.deny_nets@).contains(d.mgmt_pool.cidr())
            && text::views(c.deny_nets@).contains(d.container_pool.cidr()) && c.deny_nets@.len() == 2,
        own::grpc_bind_text(central_ip) == net::dotted(central_ip) + ":6443"@,
{
    if b is Some {
        let nets = seq![d.mgmt_pool.cidr(), d.container_pool.cidr()];
        assert(nets[0] == d.mgmt_pool.cidr() && nets[1] == d.container_pool.cidr());
        assert(text::views(b->0.deny_nets@).len() == 2);
    }
}

/// The token of a host lets its agent in, and lets it build if and only if the host builds.
pub proof fn host_tokens_grant_what_the_host_does(builds: bool)
    ensures
        own::caps_of(builds).contains("coold"@),
        own::caps_of(builds).contains("builder"@) <==> builds,
        own::caps_of(builds).len() <= 2,
{
    reveal_strlit("coold");
    reveal_strlit("builder");
    assert("coold"@.len() != "builder"@.len());
    let a = own::caps_of(true);
    assert(a[0] == "coold"@ && a[1] == "builder"@);
    let b = own::caps_of(false);
    assert(b[0] == "coold"@);
    assert forall|i: int| 0 <= i < b.len() implies b[i] != "builder"@ by {}
}

} // verus!
