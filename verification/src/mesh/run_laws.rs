//! What an intent lets through, and how the phases of a run follow each other.

use vstd::prelude::*;
use crate::cli::config_laws;
use crate::cli::script_laws::{stands_between, stands_first, stands_last};
use crate::mesh::action::ActionView;
use crate::mesh::action::ActionType;
use crate::mesh::apply;
use crate::mesh::apply::{Next, Phase, PhaseResult, Progress, ResultView};
use crate::mesh::intent;
use crate::mesh::intent::Intent;
use crate::keyed;
use crate::mesh::state;
use crate::mesh::state::DesiredMesh;
use crate::split;
use crate::text;
use crate::text_laws;

verus! {

/// Extending leaves the versions and the database of a host that is not new alone, and replaces a
/// network there only where that is allowed; anything else that is planned for it is done.
pub proof fn extending_changes_nothing_in_place(
    s: Seq<ActionView>,
    allow_replace: bool,
    new_hosts: Seq<Seq<char>>,
    a: ActionView,
)
    requires
        !new_hosts.contains(a.host),
    ensures
        intent::kept_actions(s, Intent::Extend, allow_replace, new_hosts).contains(a)
            <==> s.contains(a) && a.action_type != ActionType::InstallCorrosion && a.action_type
            != ActionType::InstallCoold && a.action_type != ActionType::InstallCoolify
            && a.action_type != ActionType::InstallScheduler && a.action_type
            != ActionType::InstallBuilder && !(a.action_type == ActionType::RecreatePodmanNetwork
            && !allow_replace) && !(a.action_type == ActionType::WriteCorrosionSchema
            && text::has_text(a.detail, "DB will be reset"@)),
{
    intent::filter_partitions(s, Intent::Extend, allow_replace, new_hosts, a);
}

/// Upgrading installs the programs and the services that run them, on any host, and does nothing
/// else.
pub proof fn upgrading_touches_no_network(
    s: Seq<ActionView>,
    allow_replace: bool,
    new_hosts: Seq<Seq<char>>,
    a: ActionView,
)
    ensures
        intent::kept_actions(s, Intent::Upgrade, allow_replace, new_hosts).contains(a)
            <==> s.contains(a) && (a.action_type == ActionType::InstallCorrosion || a.action_type
            == ActionType::InstallCoold || a.action_type == ActionType::InstallCoolify
            || a.action_type == ActionType::InstallScheduler || a.action_type
            == ActionType::InstallBuilder || a.action_type == ActionType::InstallCorrosionService
            || a.action_type == ActionType::InstallCooldService || a.action_type
            == ActionType::InstallCoolifyService || a.action_type
            == ActionType::InstallSchedulerService),
{
    intent::filter_partitions(s, Intent::Upgrade, allow_replace, new_hosts, a);
}

/// A schema that differs from the one on a host resets the database, so that extending does not
/// write it to a host that is not new.
pub proof fn databases_survive_extending(
    s: Seq<ActionView>,
    allow_replace: bool,
    new_hosts: Seq<Seq<char>>,
    a: ActionView,
)
    requires
        !new_hosts.contains(a.host),
        a.action_type == ActionType::WriteCorrosionSchema,
        a.detail == "/etc/corrosion/schemas/coolify.sql [schema drift — DB will be reset]"@,
    ensures
        !intent::kept_actions(s, Intent::Extend, allow_replace, new_hosts).contains(a),
{
    let x = "/etc/corrosion/schemas/coolify.sql [schema drift — "@;
    let m = "DB will be reset"@;
    let y = "]"@;
    assert(a.detail =~= x + m + y) by {
        reveal_strlit("/etc/corrosion/schemas/coolify.sql [schema drift — DB will be reset]");
        reveal_strlit("/etc/corrosion/schemas/coolify.sql [schema drift — ");
        reveal_strlit("DB will be reset");
        reveal_strlit("]");
    }
    assert(a.detail.subrange(x.len() as int, (x.len() + m.len()) as int) =~= m);
    assert(text::stands_at(a.detail, m, x.len() as int));
    extending_changes_nothing_in_place(s, allow_replace, new_hosts, a);
}

proof fn unlisted_is_unlisted(new_hosts: Seq<Seq<char>>, hosts: Seq<Seq<char>>, i: int)
    requires
        0 <= i <= new_hosts.len(),
    ensures
        intent::first_unlisted(new_hosts, hosts, i) is None <==> forall|j: int|
            i <= j < new_hosts.len() ==> hosts.contains(#[trigger] new_hosts[j]),
        intent::first_unlisted(new_hosts, hosts, i) matches Some(h) ==> new_hosts.contains(h)
            && !hosts.contains(h),
    decreases new_hosts.len() - i,
{
    if i < new_hosts.len() {
        unlisted_is_unlisted(new_hosts, hosts, i + 1);
        if hosts.contains(new_hosts[i]) {
            assert forall|j: int| i <= j < new_hosts.len() && (forall|k: int|
                i + 1 <= k < new_hosts.len() ==> hosts.contains(
                    #[trigger] new_hosts[k],
                )) implies hosts.contains(#[trigger] new_hosts[j]) by {}
        }
    }
}

/// A bootstrap is always in order; an extension is where it names new hosts, and no others than
/// those of the mesh; an upgrade is where each version is fixed, unless moving ones are allowed.
pub proof fn intents_are_checked(d: DesiredMesh)
    ensures
        d.intent == Intent::Bootstrap ==> intent::intent_error(d) is None,
        d.intent == Intent::Extend ==> (intent::intent_error(d) is None <==> d.new_nodes@.len() > 0
            && (forall|j: int|
            0 <= j < d.new_nodes@.len() ==> text::views(d.hosts@).contains(
                (#[trigger] d.new_nodes@[j])@,
            ))),
        d.intent == Intent::Upgrade ==> (intent::intent_error(d) is None <==> d.allow_nightly || (
        d.coold_version@ != "nightly"@ && d.corrosion_version@ != "nightly"@ && d.coolify_version@
            != "nightly"@ && d.scheduler_version@ != "nightly"@)),
{
    let new = text::views(d.new_nodes@);
    let hosts = text::views(d.hosts@);
    unlisted_is_unlisted(new, hosts, 0);
    assert(forall|j: int| 0 <= j < new.len() ==> #[trigger] new[j] == d.new_nodes@[j]@);
    if forall|j: int| 0 <= j < d.new_nodes@.len() ==> hosts.contains((#[trigger] d.new_nodes@[j])@) {
        assert forall|j: int| 0 <= j < new.len() implies hosts.contains(#[trigger] new[j]) by {
            assert(hosts.contains(d.new_nodes@[j]@));
        }
    }
    if forall|j: int| 0 <= j < new.len() ==> hosts.contains(#[trigger] new[j]) {
        assert forall|j: int| 0 <= j < d.new_nodes@.len() implies hosts.contains(
            (#[trigger] d.new_nodes@[j])@,
        ) by {
            assert(hosts.contains(new[j]));
        }
    }
}

/// Every host is set up and then configured, the agents follow where they are wanted, the central
/// host comes after them where there is one, and its tokens go out last. A run is over when none
/// of these is left.
pub proof fn phases_follow_each_other(phase: Phase, install_coold: bool, central: bool)
    ensures
        ({
            let n = apply::next_of(phase, false, install_coold, central);
            &&& n == Next::Run(Phase::Configure) <==> phase is Install
            &&& n == Next::Run(Phase::Agents) <==> phase is Configure && install_coold
            &&& n == Next::Run(Phase::Central) <==> central && (phase is Agents || (phase is Configure
                && !install_coold))
            &&& n == Next::Run(Phase::HostTokens) <==> phase is Central
            &&& n is Done <==> phase is HostTokens || (!central && (phase is Agents || (
            phase is Configure && !install_coold)))
            &&& n != Next::Run(Phase::Install)
        }),
{
}

/// The hosts are set up and configured, the agents and their tokens go to the nodes, and the
/// control plane goes to the central host alone.
pub proof fn phases_run_on_their_hosts(d: DesiredMesh, x: Seq<char>)
    ensures
        apply::hosts_of(Phase::Install, d).contains(x) <==> text::views(d.hosts@).contains(x),
        apply::hosts_of(Phase::Configure, d).contains(x) <==> text::views(d.hosts@).contains(x),
        apply::hosts_of(Phase::Agents, d).contains(x) <==> text::views(d.nodes@).contains(x),
        apply::hosts_of(Phase::HostTokens, d).contains(x) <==> text::views(d.nodes@).contains(x),
        apply::hosts_of(Phase::Central, d).contains(x) <==> x == d.central_host@,
{
    let c = apply::hosts_of(Phase::Central, d);
    assert(c[0] == d.central_host@);
}

/// Images are built on the hosts that are named for it, or on all where none is, and nowhere
/// unless building is enabled.
pub proof fn builders_are_named(d: DesiredMesh, host: Seq<char>)
    ensures
        !d.enable_builder ==> !apply::builds_on(d, host),
        d.enable_builder && d.builder_hosts@.len() == 0 ==> apply::builds_on(d, host),
        d.enable_builder && d.builder_hosts@.len() > 0 ==> (apply::builds_on(d, host)
            <==> text::views(d.builder_hosts@).contains(host)),
{
}

proof fn results_are_gathered(rs: Seq<PhaseResult>, t: ActionType, i: int, x: ResultView)
    requires
        0 <= i < rs.len(),
        apply::host_results(rs[i], t).contains(x),
    ensures
        apply::phase_results(rs, t).contains(x),
    decreases rs.len(),
{
    let p = apply::phase_results(rs.drop_last(), t);
    let l = apply::host_results(rs.last(), t);
    if i == rs.len() - 1 {
        let k = choose|k: int| 0 <= k < l.len() && l[k] == x;
        assert((p + l)[p.len() + k] == x);
    } else {
        assert(rs.drop_last()[i] == rs[i]);
        results_are_gathered(rs.drop_last(), t, i, x);
        let k = choose|k: int| 0 <= k < p.len() && p[k] == x;
        assert((p + l)[k] == x);
    }
}

/// A phase that failed on any host ends the run; otherwise the run goes on, or is done, and keeps
/// the results that it had and those that each host came back with.
pub proof fn runs_go_on_only_where_every_host_came_through(
    p: Progress,
    phase: Phase,
    before: Seq<ResultView>,
    rs: Seq<PhaseResult>,
    d: DesiredMesh,
)
    requires
        apply::is_progress(p, phase, before, rs, d),
    ensures
        p is Failed <==> exists|i: int| 0 <= i < rs.len() && (#[trigger] rs[i]).result is None,
        match p {
            Progress::Run(_, all) | Progress::Done(all) => {
                let v = apply::result_views(all@);
                &&& v.len() >= before.len()
                &&& v.take(before.len() as int) == before
                &&& forall|i: int, j: int|
                    0 <= i < rs.len() && 0 <= j < rs[i].result->Some_0@.len() ==> v.contains(
                        (#[trigger] rs[i].result->Some_0@[j])@,
                    )
            },
            Progress::Failed(_) => true,
        },
{
    let t = apply::phase_action(phase);
    let gathered = before + apply::phase_results(rs, t);
    match p {
        Progress::Run(_, all) | Progress::Done(all) => {
            let v = apply::result_views(all@);
            assert(v == gathered);
            assert(v.take(before.len() as int) =~= before);
            assert forall|i: int, j: int|
                0 <= i < rs.len() && 0 <= j < rs[i].result->Some_0@.len() implies v.contains(
                (#[trigger] rs[i].result->Some_0@[j])@,
            ) by {
                assert(rs[i].result is Some);
                let h = apply::host_results(rs[i], t);
                assert(h[j] == rs[i].result->Some_0@[j]@);
                results_are_gathered(rs, t, i, h[j]);
                let q = apply::phase_results(rs, t);
                let k = choose|k: int| 0 <= k < q.len() && q[k] == h[j];
                assert(gathered[before.len() + k] == h[j]);
            }
        },
        Progress::Failed(_) => {},
    }
}

/// A step that came through is reported as such, one that failed with its error; either way with
/// its host, its kind and its namespace.
pub proof fn steps_are_reported_as_they_went(
    host: Seq<char>,
    t: ActionType,
    ns: Seq<char>,
    said: Seq<char>,
)
    ensures
        apply::passed(host, t, ns, said).status == "ok"@,
        apply::passed(host, t, ns, said).action.host == host,
        apply::passed(host, t, ns, said).action.action_type == t,
        apply::passed(host, t, ns, said).action.namespace == ns,
        apply::failed(host, t, ns, said).status == "error"@,
        apply::failed(host, t, ns, said).detail == said,
        apply::failed(host, t, ns, said).action.host == host,
        apply::failed(host, t, ns, said).action.action_type == t,
        apply::failed(host, t, ns, said).action.namespace == ns,
{
}

/// A host runs its steps in order, each once.
pub proof fn steps_run_in_order(next: apply::HostNext, steps: nat, done: nat)
    requires
        apply::next_step_of(next, steps, done),
    ensures
        next is Finished <==> done >= steps,
        next matches apply::HostNext::Run(i) ==> i == done && i < steps,
        !(next is Failed),
{
}

/// A host listens on the port that is given for it, and otherwise on the port of the mesh.
pub proof fn hosts_listen_on_their_port(d: DesiredMesh, host: Seq<char>, port: u16)
    ensures
        keyed::lookup(d.listen_port_overrides@, host) == Some(port) ==> state::port_for(d, host)
            == port,
        keyed::lookup(d.listen_port_overrides@, host) is None ==> state::port_for(d, host)
            == d.listen_port,
{
}

/// A host is dialled at the endpoint that is given for it, and otherwise by its name without a port.
pub proof fn hosts_are_dialled_by_name(d: DesiredMesh, name: Seq<char>, port: Seq<char>)
    requires
        !name.contains(':'),
    ensures
        keyed::lookup(d.endpoint_overrides@, name) matches Some(e) ==> state::endpoint_of(d, name)
            == e@,
        keyed::lookup(d.endpoint_overrides@, name) is None ==> state::endpoint_of(d, name) == name,
        keyed::lookup(d.endpoint_overrides@, name + ":"@ + port) is None ==> state::endpoint_of(
            d,
            name + ":"@ + port,
        ) == name,
{
    reveal_strlit(":");
    let s = name + ":"@ + port;
    let i = name.len() as int;
    assert forall|j: int| 0 <= j < i implies s[j] != ':' by {
        assert(s[j] == name[j]);
        assert(name.contains(name[j]));
    }
    assert(s[i] == ':');
    text::find_char_is(s, ':', i);
    assert(s.take(i) =~= name);
    assert forall|j: int| 0 <= j < i implies name[j] != ':' by {
        assert(name.contains(name[j]));
    }
    text::find_char_is(name, ':', i);
}

/// Agents dial flux only where it has an address, with the token of their host, and trust only the
/// certificate that was left on it.
pub proof fn agents_pin_the_certificate_of_flux(url: Seq<char>)
    ensures
        state::flux_of(Some(url)) matches Some(f) && f.url == url && f.jwt_path
            == "/etc/coolify/host-jwt"@ && f.tls_pin_path == Some("/etc/coolify/flux.pin"@),
        state::flux_of(None) is None,
{
}

/// A host of which nothing is known has nothing, and what it has not cannot be relied on.
pub proof fn unknown_hosts_have_nothing()
    ensures
        ({
            let s = state::unknown_server();
            &&& !s.installed && !s.keys_exist && !s.active && s.public_key.len() == 0
            &&& s.wireguard_mgmt_ip is None && s.peers.len() == 0 && s.namespaces.len() == 0
            &&& !s.podman_installed && !s.podman_socket_active && !s.ip_forward_enabled
            &&& !s.firewall_active && !s.default_deny_active && s.firewall_unit_sha256.len() == 0
            &&& !s.corrosion_installed && !s.corrosion_active && !s.corrosion_schema_exists
            &&& !s.coold_installed && !s.coold_active && s.coold_unit_sha256.len() == 0
            &&& s.corrosion_config_hash.len() == 0 && s.corrosion_schema_sha256.len() == 0
        }),
{
}

/// WireGuard, Podman and the packet filter are installed by name, the socket of Podman is enabled, and
/// forwarding is turned on at once and for good.
pub proof fn hosts_are_set_up_by_these_commands()
    ensures
        text::has_suffix(apply::APT_WG@, " wireguard wireguard-tools 2>&1"@),
        text::has_suffix(apply::APT_PODMAN@, " podman nftables 2>&1"@),
        text::has_prefix(apply::ENABLE_PODMAN@, "systemctl enable --now podman.socket"@),
        text::has_prefix(apply::ENABLE_IP_FORWARD@, "sysctl -w net.ipv4.ip_forward=1 && "@),
        text::has_suffix(apply::ENABLE_IP_FORWARD@, "echo 'net.ipv4.ip_forward=1' > /etc/sysctl.d/99-coolify-mesh.conf"@),
{
    assert(text::has_suffix(apply::APT_WG@, " wireguard wireguard-tools 2>&1"@)) by {
        assert("DEBIAN_FRONTEND=noninteractive apt-get update -qq 2>/dev/null && DEBIAN_FRONTEND=noninteractive apt-get install -y -o Dpkg::Options::=\"--force-confold\" wireguard wireguard-tools 2>&1"@ =~= "DEBIAN_FRONTEND=noninteractive apt-get update -qq 2>/dev/null && DEBIAN_FRONTEND=noninteractive apt-get install -y -o Dpkg::Options::=\"--force-confold\""@ + " wireguard wireguard-tools 2>&1"@) by {
            reveal_strlit("DEBIAN_FRONTEND=noninteractive apt-get update -qq 2>/dev/null && DEBIAN_FRONTEND=noninteractive apt-get install -y -o Dpkg::Options::=\"--force-confold\" wireguard wireguard-tools 2>&1");
            reveal_strlit("DEBIAN_FRONTEND=noninteractive apt-get update -qq 2>/dev/null && DEBIAN_FRONTEND=noninteractive apt-get install -y -o Dpkg::Options::=\"--force-confold\"");
            reveal_strlit(" wireguard wireguard-tools 2>&1");
        }
        let x = "DEBIAN_FRONTEND=noninteractive apt-get update -qq 2>/dev/null && DEBIAN_FRONTEND=noninteractive apt-get install -y -o Dpkg::Options::=\"--force-confold\""@;
        let m = " wireguard wireguard-tools 2>&1"@;
        let y = Seq::<char>::empty();
        assert(apply::APT_WG@ =~= x + m + y);
        assert(x + m + y =~= x + m);
        stands_last(x, m);
    }
    assert(text::has_suffix(apply::APT_PODMAN@, " podman nftables 2>&1"@)) by {
        assert("DEBIAN_FRONTEND=noninteractive apt-get update -qq 2>/dev/null && DEBIAN_FRONTEND=noninteractive apt-get install -y -o Dpkg::Options::=\"--force-confold\" podman nftables 2>&1"@ =~= "DEBIAN_FRONTEND=noninteractive apt-get update -qq 2>/dev/null && DEBIAN_FRONTEND=noninteractive apt-get install -y -o Dpkg::Options::=\"--force-confold\""@ + " podman nftables 2>&1"@) by {
            reveal_strlit("DEBIAN_FRONTEND=noninteractive apt-get update -qq 2>/dev/null && DEBIAN_FRONTEND=noninteractive apt-get install -y -o Dpkg::Options::=\"--force-confold\" podman nftables 2>&1");
            reveal_strlit("DEBIAN_FRONTEND=noninteractive apt-get update -qq 2>/dev/null && DEBIAN_FRONTEND=noninteractive apt-get install -y -o Dpkg::Options::=\"--force-confold\"");
            reveal_strlit(" podman nftables 2>&1");
        }
        let x = "DEBIAN_FRONTEND=noninteractive apt-get update -qq 2>/dev/null && DEBIAN_FRONTEND=noninteractive apt-get install -y -o Dpkg::Options::=\"--force-confold\""@;
        let m = " podman nftables 2>&1"@;
        let y = Seq::<char>::empty();
        assert(apply::APT_PODMAN@ =~= x + m + y);
        assert(x + m + y =~= x + m);
        stands_last(x, m);
    }
    assert(text::has_prefix(apply::ENABLE_PODMAN@, "systemctl enable --now podman.socket"@)) by {
        assert("systemctl enable --now podman.socket 2>&1"@ =~= "systemctl enable --now podman.socket"@ + " 2>&1"@) by {
            reveal_strlit("systemctl enable --now podman.socket 2>&1");
            reveal_strlit("systemctl enable --now podman.socket");
            reveal_strlit(" 2>&1");
        }
        let x = Seq::<char>::empty();
        let m = "systemctl enable --now podman.socket"@;
        let y = " 2>&1"@;
        assert(apply::ENABLE_PODMAN@ =~= x + m + y);
        assert(x + m + y =~= m + y);
        stands_first(m, y);
    }
    assert(text::has_prefix(apply::ENABLE_IP_FORWARD@, "sysctl -w net.ipv4.ip_forward=1 && "@)) by {
        assert("sysctl -w net.ipv4.ip_forward=1 && mkdir -p /etc/sysctl.d && echo 'net.ipv4.ip_forward=1' > /etc/sysctl.d/99-coolify-mesh.conf"@ =~= "sysctl -w net.ipv4.ip_forward=1 && "@ + "mkdir -p /etc/sysctl.d && echo 'net.ipv4.ip_forward=1' > /etc/sysctl.d/99-coolify-mesh.conf"@) by {
            reveal_strlit("sysctl -w net.ipv4.ip_forward=1 && mkdir -p /etc/sysctl.d && echo 'net.ipv4.ip_forward=1' > /etc/sysctl.d/99-coolify-mesh.conf");
            reveal_strlit("sysctl -w net.ipv4.ip_forward=1 && ");
            reveal_strlit("mkdir -p /etc/sysctl.d && echo 'net.ipv4.ip_forward=1' > /etc/sysctl.d/99-coolify-mesh.conf");
        }
        let x = Seq::<char>::empty();
        let m = "sysctl -w net.ipv4.ip_forward=1 && "@;
        let y = "mkdir -p /etc/sysctl.d && echo 'net.ipv4.ip_forward=1' > /etc/sysctl.d/99-coolify-mesh.conf"@;
        assert(apply::ENABLE_IP_FORWARD@ =~= x + m + y);
        assert(x + m + y =~= m + y);
        stands_first(m, y);
    }
    assert(text::has_suffix(apply::ENABLE_IP_FORWARD@, "echo 'net.ipv4.ip_forward=1' > /etc/sysctl.d/99-coolify-mesh.conf"@)) by {
        assert("sysctl -w net.ipv4.ip_forward=1 && mkdir -p /etc/sysctl.d && echo 'net.ipv4.ip_forward=1' > /etc/sysctl.d/99-coolify-mesh.conf"@ =~= "sysctl -w net.ipv4.ip_forward=1 && mkdir -p /etc/sysctl.d && "@ + "echo 'net.ipv4.ip_forward=1' > /etc/sysctl.d/99-coolify-mesh.conf"@) by {
            reveal_strlit("sysctl -w net.ipv4.ip_forward=1 && mkdir -p /etc/sysctl.d && echo 'net.ipv4.ip_forward=1' > /etc/sysctl.d/99-coolify-mesh.conf");
            reveal_strlit("sysctl -w net.ipv4.ip_forward=1 && mkdir -p /etc/sysctl.d && ");
            reveal_strlit("echo 'net.ipv4.ip_forward=1' > /etc/sysctl.d/99-coolify-mesh.conf");
        }
        let x = "sysctl -w net.ipv4.ip_forward=1 && mkdir -p /etc/sysctl.d && "@;
        let m = "echo 'net.ipv4.ip_forward=1' > /etc/sysctl.d/99-coolify-mesh.conf"@;
        let y = Seq::<char>::empty();
        assert(apply::ENABLE_IP_FORWARD@ =~= x + m + y);
        assert(x + m + y =~= x + m);
        stands_last(x, m);
    }
}

/// The address that a host is told to have is the third field of the first line of its dump, without
/// the length of its prefix.
pub proof fn dumps_tell_the_address(
    a: Seq<char>,
    b: Seq<char>,
    ip: Seq<char>,
    prefix: Seq<char>,
    rest: Seq<char>,
)
    requires
        !a.contains('\t'),
        !b.contains('\t'),
        !ip.contains('\t'),
        !ip.contains('/'),
        !prefix.contains('\t'),
    ensures
        apply::dump_address(
            a + seq!['\t'] + (b + seq!['\t'] + ((ip + seq!['/'] + prefix) + seq!['\t'] + rest)),
        ) == ip,
{
    let third = ip + seq!['/'] + prefix;
    assert(!third.contains('\t')) by {
        config_laws::no_char_add(ip, seq!['/'], '\t');
        config_laws::no_char_add(ip + seq!['/'], prefix, '\t');
    }
    let r2 = third + seq!['\t'] + rest;
    let r1 = b + seq!['\t'] + r2;
    config_laws::pieces_head(third, '\t', rest);
    config_laws::pieces_head(b, '\t', r2);
    config_laws::pieces_head(a, '\t', r1);
    config_laws::pieces_head(ip, '/', prefix);
    let all = split::pieces(a + seq!['\t'] + r1, '\t');
    assert(all =~= seq![a] + (seq![b] + (seq![third] + split::pieces(rest, '\t'))));
    assert(all[2] == third);
    text_laws::pieces_make_up_the_text(rest, '\t');
}

} // verus!
