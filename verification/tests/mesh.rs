//! The mesh: addresses, intents, plans.

use coolify::cli;
use coolify::cli::corrosion::{config_inputs, fill_config, CorrosionFiles};
use coolify::cli::plan::{binary_version_drift, build_plan, plan_fits};
use coolify::cooldctl as ctl;
use coolify::keyed::StrMap;
use coolify::mesh::action::{ActionType, Plan, PlannedAction};
use coolify::mesh::apply::{
    abort_message, after_step, assign, collect_phase, err_result, failed_action, finish_phase,
    first_step, gateways_fit, is_builder, next_phase, phase_hosts, step_result, verify, Addresses,
    HostNext, Next, Phase, PhaseResult, Progress, Step,
};
use coolify::mesh::intent::{categorize, filter_by_intent, validate_intent, Category, Intent};
use coolify::mesh::report;
use coolify::mesh::state::{DesiredMesh, MeshState, ServerState};
use coolify::mesh::subnet::{
    allocate, allocate_mgmt_ips, allocate_namespaced, machine_ip,
};
use coolify::net::{ip_text, parse_ip, Ipv4Net};

fn net(s: &str) -> Ipv4Net {
    Ipv4Net::parse(s).unwrap()
}

fn ip(s: &str) -> u32 {
    parse_ip(s).unwrap()
}

fn hosts(v: &[&str]) -> Vec<String> {
    v.iter().map(|s| s.to_string()).collect()
}

fn subnets(v: &[(&str, &str)]) -> StrMap<Ipv4Net> {
    let mut m = StrMap::new();
    for (k, s) in v {
        m.insert(k.to_string(), net(s));
    }
    m
}

fn ips(v: &[(&str, &str)]) -> StrMap<u32> {
    let mut m = StrMap::new();
    for (k, s) in v {
        m.insert(k.to_string(), ip(s));
    }
    m
}

fn subnet_of(m: &StrMap<Ipv4Net>, host: &str) -> String {
    m.get(host).unwrap().text()
}

fn ip_of(m: &StrMap<u32>, host: &str) -> String {
    ip_text(*m.get(host).unwrap())
}

fn desired(intent: Intent) -> DesiredMesh {
    DesiredMesh {
        hosts: hosts(&["A", "B"]),
        nodes: hosts(&["A", "B"]),
        interface: "wg0".into(),
        mgmt_pool: net("100.64.0.0/16"),
        container_pool: net("10.210.0.0/16"),
        container_prefix: 24,
        listen_port: 51820,
        listen_port_overrides: StrMap::new(),
        endpoint_overrides: StrMap::new(),
        install_podman: true,
        namespaces: hosts(&["default"]),
        default_deny_containers: true,
        install_coold: true,
        coold_version: "v1".into(),
        corrosion_version: "v1".into(),
        corrosion_gossip_port: 8787,
        corrosion_api_port: 8080,
        coold_sha256: None,
        corrosion_sha256: None,
        corrosion_gossip_tls: None,
        flux_tls: None,
        flux_tls_url: None,
        central_host: String::new(),
        coolify_version: "v1".into(),
        scheduler_version: "v1".into(),
        enable_builder: true,
        builder_hosts: vec![],
        builder_capacity: 2,
        builder_cpu_quota: "200%".into(),
        builder_memory_max: "2G".into(),
        builder_timeout_secs: 1800,
        intent,
        new_nodes: vec![],
        allow_replace: false,
        allow_nightly: false,
    }
}

fn action(host: &str, action_type: ActionType) -> PlannedAction {
    PlannedAction {
        host: host.into(),
        namespace: String::new(),
        action_type,
        detail: String::new(),
    }
}

fn plan(actions: Vec<PlannedAction>) -> Plan {
    Plan {
        actions,
        mgmt_assignments: StrMap::new(),
        subnet_assignments: StrMap::new(),
        warnings: vec![],
        skipped: vec![],
    }
}

fn files() -> CorrosionFiles {
    CorrosionFiles {
        config: "addr = \"{{mgmt_ip}}:{{gossip_port}}\"\nbootstrap = [{{peers}}]\n{{gossip_tls}}\n[api]\naddr = \"{{mgmt_ip}}:{{api_port}}\"\n".into(),
        schema_sql: "CREATE TABLE containers (id TEXT);".into(),
        download: "get {{version}}".into(),
        install: "put {{version}}".into(),
        service_unit: "[Unit]\nAfter=wg-quick@{{interface}}.service\n".into(),
    }
}

fn empty_mesh() -> MeshState {
    MeshState { servers: StrMap::new() }
}

#[test]
fn allocates_stable_subnets() {
    let (got, _) = allocate(
        net("10.210.0.0/16"),
        24,
        &StrMap::new(),
        &hosts(&["a", "b"]),
    )
    .unwrap();
    assert_eq!(subnet_of(&got, "a"), "10.210.0.0/24");
    assert_eq!(subnet_of(&got, "b"), "10.210.1.0/24");
}

#[test]
fn machine_ip_uses_first_host_address() {
    for (subnet, want) in [
        ("10.210.0.0/24", "10.210.0.1"),
        ("10.210.5.0/24", "10.210.5.1"),
        ("192.168.0.0/24", "192.168.0.1"),
    ] {
        assert_eq!(ip_text(machine_ip(net(subnet))), want);
    }
}

#[test]
fn allocate_mgmt_ips_starts_after_pool_network_and_reuses_existing() {
    let pool = net("100.64.0.0/16");
    let (got, warnings) =
        allocate_mgmt_ips(pool, &StrMap::new(), &hosts(&["h1", "h2"])).expect("allocate");
    assert!(warnings.is_empty());
    assert_eq!(ip_of(&got, "h1"), "100.64.0.1");
    assert_eq!(ip_of(&got, "h2"), "100.64.0.2");

    let existing = ips(&[("h1", "100.64.0.42")]);
    let (got, warnings) =
        allocate_mgmt_ips(pool, &existing, &hosts(&["h1", "h2"])).expect("allocate");
    assert!(warnings.is_empty());
    assert_eq!(ip_of(&got, "h1"), "100.64.0.42");
    assert_eq!(ip_of(&got, "h2"), "100.64.0.1");
}

#[test]
fn allocate_mgmt_ips_rejects_pool_network_broadcast_and_duplicates() {
    let pool = net("100.64.0.0/16");
    let existing = ips(&[
        ("hN", "100.64.0.0"),
        ("hB", "100.64.255.255"),
        ("h1", "100.64.0.42"),
        ("h2", "100.64.0.42"),
    ]);
    let (got, warnings) =
        allocate_mgmt_ips(pool, &existing, &hosts(&["hN", "hB", "h1", "h2"])).unwrap();
    assert_eq!(warnings.len(), 3);
    assert_eq!(ip_of(&got, "h1"), "100.64.0.42");
    assert_ne!(ip_of(&got, "hN"), "100.64.0.0");
    assert_ne!(ip_of(&got, "hB"), "100.64.255.255");
    assert_ne!(ip_of(&got, "h2"), "100.64.0.42");
}

#[test]
fn allocate_fills_gaps_and_warns_on_duplicate_or_invalid_existing() {
    let pool = net("10.210.0.0/16");
    let existing = subnets(&[("h1", "10.210.0.0/24"), ("h2", "10.210.2.0/24")]);
    let (got, warnings) = allocate(pool, 24, &existing, &hosts(&["h1", "h2", "h3"])).unwrap();
    assert!(warnings.is_empty());
    assert_eq!(subnet_of(&got, "h3"), "10.210.1.0/24");

    let duplicate = subnets(&[("ha", "10.210.5.0/24"), ("hb", "10.210.5.0/24")]);
    let (got, warnings) = allocate(pool, 24, &duplicate, &hosts(&["ha", "hb"])).unwrap();
    assert_eq!(warnings.len(), 1);
    assert_eq!(warnings[0].host, "hb");
    assert!(warnings[0].reason.contains("duplicate subnet"));
    assert_eq!(subnet_of(&got, "ha"), "10.210.5.0/24");
    assert_ne!(subnet_of(&got, "hb"), "10.210.5.0/24");

    let invalid = subnets(&[("h1", "192.168.0.0/24")]);
    let (got, warnings) = allocate(pool, 24, &invalid, &hosts(&["h1"])).unwrap();
    assert_eq!(warnings.len(), 1);
    assert!(warnings[0].reason.contains("not a /24 inside pool"));
    assert!(pool.contains(got.get("h1").unwrap().network()));
}

#[test]
fn allocate_rejects_duplicate_hosts_and_exhaustion() {
    let pool = net("10.210.0.0/16");
    let err = allocate(pool, 24, &StrMap::new(), &hosts(&["h1", "h1"])).unwrap_err();
    assert!(err.contains("duplicate host"));

    let small = net("10.0.0.0/28");
    let err = allocate(small, 28, &StrMap::new(), &hosts(&["h1", "h2"])).unwrap_err();
    assert!(err.contains("exhausted"));
}

#[test]
fn allocate_namespaced_detects_duplicate_namespaces() {
    let err = allocate_namespaced(
        net("10.210.0.0/16"),
        24,
        &StrMap::new(),
        &hosts(&["default", "default"]),
        &hosts(&["h1"]),
    )
    .unwrap_err();
    assert!(err.contains("duplicate namespace"));
}

#[test]
fn validate_intent_extend_requires_new_hosts_in_servers() {
    let mut d = desired(Intent::Extend);
    let err = validate_intent(&d).unwrap_err();
    assert!(err.contains("NewHosts"));

    d.new_nodes = hosts(&["C"]);
    let err = validate_intent(&d).unwrap_err();
    assert!(err.contains("\"C\""));
    assert!(err.contains("--servers"));

    d.hosts.push("C".into());
    assert!(validate_intent(&d).is_ok());
}

#[test]
fn validate_intent_upgrade_rejects_nightly_by_default() {
    let mut coold = desired(Intent::Upgrade);
    coold.coold_version = "nightly".into();
    let mut corrosion = desired(Intent::Upgrade);
    corrosion.corrosion_version = "nightly".into();
    let mut scheduler = desired(Intent::Upgrade);
    scheduler.scheduler_version = "nightly".into();
    for (field, mut d) in [
        ("coold", coold),
        ("corrosion", corrosion),
        ("scheduler", scheduler),
    ] {
        let err = validate_intent(&d).expect_err(field);
        assert!(err.contains("nightly"));
        d.allow_nightly = true;
        assert!(validate_intent(&d).is_ok());
    }
}

#[test]
fn filter_bootstrap_keeps_everything() {
    let mut p = plan(vec![
        action("A", ActionType::InstallCoold),
        action("B", ActionType::RecreatePodmanNetwork),
    ]);
    filter_by_intent(&mut p, &desired(Intent::Bootstrap));
    assert_eq!(p.actions.len(), 2);
    assert!(p.skipped.is_empty());
}

#[test]
fn filter_extend_existing_hosts_keep_peer_refresh_only() {
    let mut p = plan(vec![
        action("A-old", ActionType::WriteConfig),
        action("A-old", ActionType::ReloadService),
        action("A-old", ActionType::WriteCorrosionConfig),
        action("A-old", ActionType::InstallFirewall),
        action("A-old", ActionType::InstallCoold),
        action("A-old", ActionType::InstallBuilder),
        action("A-new", ActionType::InstallCoold),
    ]);
    let mut d = desired(Intent::Extend);
    d.hosts = hosts(&["A-old", "A-new"]);
    d.new_nodes = hosts(&["A-new"]);
    filter_by_intent(&mut p, &d);

    let kept = p
        .actions
        .iter()
        .map(|a| (a.host.as_str(), a.action_type))
        .collect::<Vec<_>>();
    assert!(kept.contains(&("A-old", ActionType::WriteConfig)));
    assert!(kept.contains(&("A-old", ActionType::InstallFirewall)));
    assert!(kept.contains(&("A-new", ActionType::InstallCoold)));
    assert!(!kept.contains(&("A-old", ActionType::InstallCoold)));
    assert_eq!(p.skipped.len(), 2);
}

#[test]
fn filter_extend_blocks_destructive_existing_unless_allowed() {
    let mut p = plan(vec![action("A-old", ActionType::RecreatePodmanNetwork)]);
    let mut d = desired(Intent::Extend);
    d.new_nodes = hosts(&["A-new"]);
    filter_by_intent(&mut p, &d);
    assert!(p.actions.is_empty());
    assert!(p.skipped[0].reason.contains("destructive-replace"));

    let mut p = plan(vec![action("A-old", ActionType::RecreatePodmanNetwork)]);
    d.allow_replace = true;
    filter_by_intent(&mut p, &d);
    assert_eq!(p.actions.len(), 1);
    assert!(p.skipped.is_empty());
}

#[test]
fn filter_upgrade_keeps_version_bumps_and_service_reinstalls_only() {
    let mut p = plan(vec![
        action("A", ActionType::InstallCoold),
        action("A", ActionType::InstallCorrosion),
        action("A", ActionType::InstallScheduler),
        action("A", ActionType::InstallCooldService),
        action("A", ActionType::WriteConfig),
        action("A", ActionType::CreatePodmanNetwork),
    ]);
    filter_by_intent(&mut p, &desired(Intent::Upgrade));
    let kept = p.actions.iter().map(|a| a.action_type).collect::<Vec<_>>();
    assert_eq!(
        kept,
        vec![
            ActionType::InstallCoold,
            ActionType::InstallCorrosion,
            ActionType::InstallScheduler,
            ActionType::InstallCooldService,
        ]
    );
    assert_eq!(p.skipped.len(), 2);
}

#[test]
fn categorize_schema_wipe_vs_first_write() {
    let first = PlannedAction {
        detail: "/etc/corrosion/schemas/coolify.sql".into(),
        ..action("A", ActionType::WriteCorrosionSchema)
    };
    let wipe = PlannedAction {
        detail: "/etc/corrosion/schemas/coolify.sql [schema drift — DB will be reset]".into(),
        ..action("A", ActionType::WriteCorrosionSchema)
    };
    assert_eq!(categorize(&first), Category::SchemaFirstWrite);
    assert_eq!(categorize(&wipe), Category::WipeDb);
}

#[test]
fn upgrade_rejects_nightly() {
    let mut d = desired(Intent::Upgrade);
    d.hosts = hosts(&["h"]);
    d.nodes = hosts(&["h"]);
    d.default_deny_containers = false;
    d.coold_version = "nightly".into();
    assert!(build_plan(&d, &empty_mesh(), &files()).is_err());
}

#[test]
fn latest_is_treated_as_moving_release_version() {
    assert!(binary_version_drift("latest", true, "latest"));
    assert!(binary_version_drift("nightly", true, "nightly"));
    assert!(!binary_version_drift("v1.2.3", true, "v1.2.3"));
}

#[test]
fn version_drift_of_what_is_absent_or_older() {
    assert!(binary_version_drift("v1.2.3", false, ""));
    assert!(binary_version_drift("v1.2.3", true, "v1.2.2"));
}

#[test]
fn allocated_subnets_do_not_overlap() {
    let (got, _) = allocate(
        net("10.0.0.0/24"),
        26,
        &subnets(&[("b", "10.0.0.64/26")]),
        &hosts(&["a", "b", "c", "d"]),
    )
    .unwrap();
    assert_eq!(subnet_of(&got, "a"), "10.0.0.0/26");
    assert_eq!(subnet_of(&got, "b"), "10.0.0.64/26");
    assert_eq!(subnet_of(&got, "c"), "10.0.0.128/26");
    assert_eq!(subnet_of(&got, "d"), "10.0.0.192/26");
    for i in 0..got.len() {
        for j in 0..got.len() {
            if i != j {
                assert!(!got.value(i).contains(got.value(j).network()));
            }
        }
    }
}

#[test]
fn allocation_gives_itself_back() {
    let pool = net("10.0.0.0/24");
    let names = hosts(&["a", "b", "c"]);
    let (first, _) = allocate(pool, 26, &StrMap::new(), &names).unwrap();
    let (again, warnings) = allocate(pool, 26, &first, &names).unwrap();
    assert!(warnings.is_empty());
    for h in &names {
        assert_eq!(subnet_of(&first, h), subnet_of(&again, h));
    }
}

#[test]
fn mgmt_allocation_gives_itself_back() {
    let pool = net("100.64.0.0/29");
    let names = hosts(&["a", "b", "c", "d", "e", "f"]);
    let (first, _) = allocate_mgmt_ips(pool, &StrMap::new(), &names).unwrap();
    assert_eq!(ip_of(&first, "f"), "100.64.0.6");
    let (again, warnings) = allocate_mgmt_ips(pool, &first, &names).unwrap();
    assert!(warnings.is_empty());
    for h in &names {
        assert_eq!(ip_of(&first, h), ip_of(&again, h));
    }
    let more = hosts(&["a", "b", "c", "d", "e", "f", "g"]);
    assert!(allocate_mgmt_ips(pool, &StrMap::new(), &more)
        .unwrap_err()
        .contains("exhausted"));
}

#[test]
fn namespaces_share_one_pool() {
    let (got, warnings) = allocate_namespaced(
        net("10.210.0.0/16"),
        24,
        &StrMap::new(),
        &hosts(&["default", "alpha"]),
        &hosts(&["h1", "h2"]),
    )
    .unwrap();
    assert!(warnings.is_empty());
    assert_eq!(got.len(), 2);
    let mut seen: Vec<String> = vec![];
    for i in 0..got.len() {
        for j in 0..got.value(i).len() {
            seen.push(got.value(i).value(j).text());
        }
    }
    seen.sort();
    assert_eq!(
        seen,
        ["10.210.0.0/24", "10.210.1.0/24", "10.210.2.0/24", "10.210.3.0/24"]
    );
}

#[test]
fn networks_are_read_and_written() {
    let n = net("10.210.7.9/24");
    assert_eq!(n.text(), "10.210.7.9/24");
    assert_eq!(ip_text(n.network()), "10.210.7.0");
    assert_eq!(ip_text(n.broadcast()), "10.210.7.255");
    assert!(n.contains(ip("10.210.7.200")));
    assert!(!n.contains(ip("10.210.8.0")));
    assert_eq!(ip_text(net("0.0.0.0/0").broadcast()), "255.255.255.255");
    assert!(Ipv4Net::new(ip("1.2.3.4"), 33).is_none());
    for bad in ["10.0.0.0", "10.0.0.0/33", "10.0.0/8", "", "a/8"] {
        assert!(Ipv4Net::parse(bad).is_none());
    }
}

#[test]
fn addresses_are_read_and_written() {
    assert_eq!(parse_ip("1.2.3.4"), Some(0x01020304));
    assert_eq!(ip_text(0x01020304), "1.2.3.4");
    for bad in ["", "1.2.3", "1.2.3.4.5", "256.0.0.1", "01.2.3.4", "1.2.3.x", " 1.2.3.4"] {
        assert_eq!(parse_ip(bad), None);
    }
}

#[test]
fn maps_keep_their_keys_in_order() {
    let mut m: StrMap<u8> = StrMap::new();
    m.insert("b".into(), 2);
    m.insert("a".into(), 1);
    m.insert("b".into(), 3);
    assert_eq!(m.len(), 2);
    assert_eq!(m.key(0), "a");
    assert_eq!(m.get("b"), Some(&3));
    assert!(m.remove("a"));
    assert!(!m.remove("a"));
    assert!(!m.contains_key("a"));
}

#[test]
fn extend_spares_existing_hosts_of_a_real_plan() {
    let mut d = desired(Intent::Extend);
    d.hosts = hosts(&["A", "B", "C"]);
    d.nodes = hosts(&["A", "B", "C"]);
    d.new_nodes = hosts(&["C"]);
    let p = build_plan(&d, &empty_mesh(), &files()).unwrap();
    assert!(p
        .actions
        .iter()
        .any(|a| a.host == "C" && a.action_type == ActionType::InstallCoold));
    assert!(!p
        .actions
        .iter()
        .any(|a| a.host == "A" && a.action_type == ActionType::InstallCoold));
    assert!(p
        .skipped
        .iter()
        .any(|s| s.action.host == "A" && s.action.action_type == ActionType::InstallCoold));
    assert!(p.actions.iter().all(|a| d.hosts.contains(&a.host)));
}

#[test]
fn a_first_plan_installs_everything_in_order() {
    let d = desired(Intent::Bootstrap);
    let p = build_plan(&d, &empty_mesh(), &files()).unwrap();
    let of_a: Vec<ActionType> = p
        .actions
        .iter()
        .filter(|a| a.host == "A")
        .map(|a| a.action_type)
        .collect();
    let at = |t: ActionType| of_a.iter().position(|x| *x == t).unwrap();
    assert!(at(ActionType::InstallWg) < at(ActionType::WriteConfig));
    assert!(at(ActionType::WriteConfig) < at(ActionType::EnableService));
    assert!(at(ActionType::InstallCorrosion) < at(ActionType::InstallCooldService));
    assert!(!p.is_empty());
    assert!(p.skipped.is_empty());
    assert_eq!(ip_of(&p.mgmt_assignments, "A"), "100.64.0.1");
    assert_eq!(ip_of(&p.mgmt_assignments, "B"), "100.64.0.2");
}

#[test]
fn phases_follow_one_another() {
    let mut d = desired(Intent::Bootstrap);
    assert_eq!(next_phase(Phase::Install, false, &d), Next::Run(Phase::Configure));
    assert_eq!(next_phase(Phase::Configure, false, &d), Next::Run(Phase::Agents));
    assert_eq!(next_phase(Phase::Agents, false, &d), Next::Done);
    d.central_host = "A".into();
    assert_eq!(next_phase(Phase::Agents, false, &d), Next::Run(Phase::Central));
    assert_eq!(next_phase(Phase::Central, false, &d), Next::Run(Phase::HostTokens));
    assert_eq!(next_phase(Phase::HostTokens, false, &d), Next::Done);
    assert_eq!(next_phase(Phase::Install, true, &d), Next::Abort(Phase::Install));
    assert!(abort_message(Phase::Install).is_some());
    assert_eq!(failed_action(Phase::Install), ActionType::InstallWg);
    assert_eq!(phase_hosts(Phase::Install, &d), d.hosts);
    assert_eq!(phase_hosts(Phase::HostTokens, &d), d.nodes);
    assert_eq!(phase_hosts(Phase::Central, &d), vec!["A".to_string()]);
}

#[test]
fn step_results_carry_the_outcome() {
    let step = Step {
        action_type: ActionType::InstallWg,
        namespace: String::new(),
        command: "true".into(),
    };
    let good = step_result("h", &step, Ok("fine\n"));
    assert_eq!((good.status.as_str(), good.detail.as_str()), ("ok", "fine"));
    let bad = step_result("h", &step, Err("boom"));
    assert_eq!(bad.status, "error");
    assert_eq!(bad.detail, "boom");
    let e = err_result("h", ActionType::InstallWg, "no route".to_string());
    assert_eq!((e.status.as_str(), e.detail.as_str()), ("error", "no route"));
    let mut all = vec![];
    let failed = collect_phase(
        &mut all,
        vec![
            PhaseResult { host: "h".into(), result: Some(vec![good]), error: None },
            PhaseResult { host: "g".into(), result: None, error: Some("ssh".into()) },
        ],
        ActionType::InstallWg,
    );
    assert!(failed);
    assert_eq!(all.len(), 2);
    assert_eq!(all[1].action.host, "g");
    assert_eq!(all[1].detail, "ssh");
}

#[test]
fn a_failed_phase_ends_the_application() {
    let mut d = desired(Intent::Bootstrap);
    let good = || err_result("A", ActionType::InstallWg, "kept".into());
    let fine = || PhaseResult { host: "A".into(), result: Some(vec![good()]), error: None };
    let down = || PhaseResult { host: "B".into(), result: None, error: Some("no route".into()) };
    match finish_phase(Phase::Install, vec![good()], vec![fine()], &d) {
        Progress::Run(p, all) => assert_eq!((p, all.len()), (Phase::Configure, 2)),
        other => panic!("{other:?}"),
    }
    match finish_phase(Phase::Install, vec![], vec![fine(), down()], &d) {
        Progress::Failed(e) => {
            assert_eq!(e, "phase 1 (install/keygen) failed on one or more mesh hosts; aborting")
        }
        other => panic!("{other:?}"),
    }
    match finish_phase(Phase::Agents, vec![good()], vec![], &d) {
        Progress::Done(all) => assert_eq!(all[0].detail, "kept"),
        other => panic!("{other:?}"),
    }
    d.central_host = "A".into();
    match finish_phase(Phase::Central, vec![], vec![down()], &d) {
        Progress::Failed(e) => assert_eq!(e, "no route"),
        other => panic!("{other:?}"),
    }
}

#[test]
fn reports_name_what_is_planned() {
    let mut d = desired(Intent::Upgrade);
    d.allow_nightly = true;
    let mut p = plan(vec![
        action("A", ActionType::InstallCoold),
        action("A", ActionType::WriteConfig),
    ]);
    filter_by_intent(&mut p, &d);
    let (out, beside) = report::render_plan(&p);
    assert!(out.starts_with("HOST"));
    assert!(beside.starts_with("Skipped by intent filter:\n  [A] "));
    let (out, beside) = report::render_plan(&plan(vec![]));
    assert_eq!(out, "No changes needed. Mesh is already converged.\n");
    assert_eq!(beside, "");
    assert_eq!(report::announce(&plan(vec![])), out);
    assert!(report::announce(&p).starts_with("Plan:\n"));
}

#[test]
fn hosts_are_verified_by_their_dump() {
    let v = verify("A".into(), Err("down"));
    assert_eq!((v.host.as_str(), v.peer_count), ("A", 0));
    assert_ne!(v.status, "ok");
    let v = verify("A".into(), Ok("k\tp\t100.64.0.1/32\toff\npeer\t1\npeer\t2\n"));
    assert_eq!((v.wireguard_ip.as_str(), v.peer_count, v.status.as_str()), ("100.64.0.1", 2, "ok"));
    let shown = report::render_apply(&vec![], &vec![v]);
    assert!(shown.starts_with("HOST"));
    assert!(shown.contains("100.64.0.1"));
}

/// Two hosts with keys, and the addresses that they get.
fn keyed_mesh(d: &DesiredMesh) -> (MeshState, Addresses) {
    let mut servers = StrMap::new();
    for (host, key) in [("A", "keyAkeyAkeyA="), ("B", "keyBkeyBkeyB=")] {
        let mut s = ServerState::default();
        s.public_key = key.into();
        s.active = host == "B";
        servers.insert(host.to_string(), s);
    }
    let state = MeshState { servers };
    let addresses = assign(d, &state).unwrap();
    (state, addresses)
}

fn kinds(steps: &[Step]) -> Vec<ActionType> {
    steps.iter().map(|s| s.action_type).collect()
}

fn command(steps: &[Step], t: ActionType) -> String {
    steps.iter().find(|s| s.action_type == t).unwrap().command.clone()
}

#[test]
fn installing_runs_what_is_planned_and_lacking() {
    let d = desired(Intent::Bootstrap);
    let p = build_plan(&d, &empty_mesh(), &files()).unwrap();
    let steps = cli::apply::phase1(&d, &empty_mesh(), &p, "A");
    let all = vec![
        ActionType::InstallWg,
        ActionType::GenKeyPair,
        ActionType::InstallPodman,
        ActionType::EnablePodmanSocket,
        ActionType::EnableIpForward,
    ];
    assert_eq!(kinds(&steps), all);
    assert!(command(&steps, ActionType::GenKeyPair).contains("umask 077"));
    assert_eq!(
        command(&steps, ActionType::EnablePodmanSocket),
        "systemctl enable --now podman.socket 2>&1"
    );
    let own = ctl::apply::phase1(&d, &empty_mesh(), &p, "A");
    assert_eq!(kinds(&own), all);
    assert_eq!(command(&own, ActionType::GenKeyPair), "mkdir -p /etc/wireguard && wg genkey | tee /etc/wireguard/privatekey | wg pubkey | tee /etc/wireguard/publickey && chmod 600 /etc/wireguard/privatekey");
    assert!(cli::apply::phase1(&d, &empty_mesh(), &plan(vec![]), "A").is_empty());
    assert!(cli::apply::phase1(&d, &empty_mesh(), &p, "stranger").is_empty());
}

#[test]
fn configuring_joins_the_mesh_and_makes_the_networks() {
    let d = desired(Intent::Bootstrap);
    let (state, addresses) = keyed_mesh(&d);
    let mut network = action("A", ActionType::CreatePodmanNetwork);
    network.namespace = "default".into();
    let p = plan(vec![
        action("A", ActionType::WriteConfig),
        action("A", ActionType::EnableService),
        action("A", ActionType::ReloadService),
        action("B", ActionType::EnableService),
        action("B", ActionType::ReloadService),
        network,
        action("A", ActionType::InstallFirewall),
    ]);
    let steps = cli::apply::phase2(&d, &state, &addresses, &p, "A");
    assert_eq!(
        kinds(&steps),
        vec![
            ActionType::WriteConfig,
            ActionType::EnableService,
            ActionType::CreatePodmanNetwork,
            ActionType::InstallFirewall,
        ]
    );
    let conf = command(&steps, ActionType::WriteConfig);
    assert!(conf.contains("keyBkeyBkeyB=") && !conf.contains("keyAkeyAkeyA="), "{conf}");
    assert!(conf.contains("100.64.0.2/32") && conf.contains("10.210.1.0/24"), "{conf}");
    assert_eq!(
        command(&steps, ActionType::EnableService),
        "systemctl enable --now wg-quick@wg0 2>&1"
    );
    assert_eq!(steps[2].namespace, "default");
    assert!(steps[2]
        .command
        .contains("--label io.coolify.namespace=default --subnet=10.210.0.0/24 --gateway=10.210.0.1 "));
    let other = cli::apply::phase2(&d, &state, &addresses, &p, "B");
    assert_eq!(kinds(&other), vec![ActionType::ReloadService]);
    assert_eq!(
        other[0].command,
        "systemctl restart wg-quick@wg0 2>&1 || wg syncconf wg0 <(wg-quick strip wg0) 2>&1"
    );
    assert_eq!(kinds(&ctl::apply::phase2(&d, &state, &addresses, &p, "A")), kinds(&steps));
}

#[test]
fn agents_are_installed_before_they_are_started() {
    let d = desired(Intent::Bootstrap);
    let (_, addresses) = keyed_mesh(&d);
    let order = [
        ActionType::InstallCorrosion,
        ActionType::InstallCoold,
        ActionType::WriteCorrosionConfig,
        ActionType::WriteCorrosionSchema,
        ActionType::InstallCorrosionService,
        ActionType::InstallCooldService,
    ];
    let p = plan(order.iter().rev().map(|t| action("A", *t)).collect());
    let steps = cli::apply::phase3(&d, &addresses, &p, &files(), "A");
    assert_eq!(kinds(&steps), order);
    assert!(steps[0].command.starts_with("get v1\nif curl "));
    assert!(steps[3].command.starts_with("mkdir -p /etc/corrosion/schemas && "));
    assert!(steps[3].command.contains("CREATE TABLE containers (id TEXT);"));
    assert!(steps[4].command.ends_with(" && systemctl daemon-reload && systemctl enable --now corrosion"));
    assert!(steps[5].command.starts_with("mkdir -p /etc/coolify /data/coolify && rm -f /etc/systemd/resolved.conf.d/coolify-internal.conf && "));
    assert!(steps[5].command.contains("COOLIFY_COOLD_HOST_MGMT_IP=100.64.0.1"));
    assert!(steps[5].command.contains("10.210.0.1"));
    let own = ctl::apply::phase3(&d, &addresses, &p, &files(), "A");
    assert_eq!(kinds(&own), order);
    assert!(cli::apply::phase3(&d, &addresses, &p, &files(), "B").is_empty());
}

#[test]
fn the_central_host_serves_the_scheduler() {
    let mut d = desired(Intent::Bootstrap);
    d.central_host = "A".into();
    let order = [
        ActionType::InstallCoolify,
        ActionType::InstallScheduler,
        ActionType::GenerateJwtKeypair,
        ActionType::InstallSchedulerService,
        ActionType::InstallCoolifyService,
    ];
    let p = plan(order.iter().map(|t| action("A", *t)).collect());
    let steps = ctl::apply::phase4(&d, ip("100.64.0.1"), &p, "A");
    assert_eq!(kinds(&steps), order);
    assert!(steps[3].command.contains("100.64.0.1:6443"));
    assert!(steps[3].command.ends_with(" && systemctl daemon-reload && systemctl enable --now scheduler"));
    assert!(steps[4].command.ends_with(" && systemctl daemon-reload && systemctl enable --now coolify"));
    assert!(ctl::apply::phase4(&d, ip("100.64.0.1"), &plan(vec![]), "A").is_empty());
}

#[test]
fn host_tokens_are_written_where_they_are_planned() {
    let mut d = desired(Intent::Bootstrap);
    d.central_host = "A".into();
    let (_, addresses) = keyed_mesh(&d);
    let p = plan(vec![
        action("A", ActionType::WriteHostJwt),
        action("A", ActionType::UpdateCooldSchedulerEnv),
    ]);
    let pem = rcgen::KeyPair::generate().unwrap().serialize_pem().into_bytes();
    let central = ip("100.64.0.1");
    let steps =
        ctl::apply::host_tokens(&d, &addresses, &p, "A", central, &pem, true, 1_700_000_000)
            .unwrap();
    assert_eq!(
        kinds(&steps),
        vec![ActionType::WriteHostJwt, ActionType::UpdateCooldSchedulerEnv]
    );
    assert!(steps[0].command.starts_with("mkdir -p /etc/coolify && "));
    let token = steps[0].command.lines().find(|l| l.starts_with("ey")).unwrap();
    let claims = base64::Engine::decode(
        &base64::engine::general_purpose::URL_SAFE_NO_PAD,
        token.split('.').nth(1).unwrap(),
    )
    .unwrap();
    let claims: serde_json::Value = serde_json::from_slice(&claims).unwrap();
    assert_eq!(claims["sub"], "A");
    assert_eq!(claims["aud"], "coold");
    assert_eq!(claims["caps"][1], "builder");
    assert_eq!(claims["exp"], 1_700_000_000 + 365 * 24 * 60 * 60);
    assert!(steps[1].command.contains("http://100.64.0.1:6443"));
    let refused = ctl::apply::host_tokens(&d, &addresses, &p, "A", central, &vec![], false, 0);
    assert_eq!(refused.unwrap_err(), "parse EC private key");
    let idle = plan(vec![]);
    let none = ctl::apply::host_tokens(&d, &addresses, &idle, "A", central, &vec![], false, 0);
    assert!(none.unwrap().is_empty());
}

#[test]
fn pools_that_end_at_the_last_address_are_stable() {
    let pool = net("255.255.255.0/24");
    let names = hosts(&["a", "b", "c", "d"]);
    let (got, warnings) = allocate(pool, 26, &StrMap::new(), &names).unwrap();
    assert!(warnings.is_empty());
    assert_eq!(subnet_of(&got, "d"), "255.255.255.192/26");
    let (again, warnings) = allocate(pool, 26, &got, &names).unwrap();
    assert!(warnings.is_empty());
    for name in &names {
        assert_eq!(subnet_of(&again, name), subnet_of(&got, name));
    }
}

#[test]
fn the_last_address_has_no_gateway() {
    let mut d = desired(Intent::Bootstrap);
    assert!(plan_fits(&d, &empty_mesh()));
    d.container_pool = net("255.255.255.254/31");
    d.container_prefix = 32;
    d.namespaces = hosts(&["default"]);
    d.install_podman = true;
    d.install_coold = true;
    assert!(!plan_fits(&d, &empty_mesh()));
    // No gateway is told where nothing is installed, nor in a plan that is refused.
    d.install_coold = false;
    d.install_podman = false;
    d.default_deny_containers = false;
    assert!(plan_fits(&d, &empty_mesh()));
    assert!(build_plan(&d, &empty_mesh(), &files()).is_ok());
    d.install_coold = true;
    assert!(plan_fits(&d, &empty_mesh()));
    assert!(build_plan(&d, &empty_mesh(), &files()).is_err());
    d.install_podman = true;
    d.hosts = hosts(&["A"]);
    d.nodes = hosts(&["A"]);
    assert!(plan_fits(&d, &empty_mesh()));
}

#[test]
fn steps_ask_for_a_gateway_where_they_tell_it() {
    let mut d = desired(Intent::Bootstrap);
    d.container_pool = net("255.255.255.254/31");
    d.container_prefix = 32;
    d.namespaces = hosts(&["default"]);
    let (state, addresses) = keyed_mesh(&d);
    let own = addresses.subnets.get("default").unwrap();
    assert_eq!(own.get("B").unwrap().text(), "255.255.255.255/32");
    let mut network = action("B", ActionType::RecreatePodmanNetwork);
    network.namespace = "default".into();
    let p = plan(vec![
        network,
        action("B", ActionType::InstallCooldService),
        action("B", ActionType::UpdateCooldSchedulerEnv),
    ]);
    for phase in [Phase::Configure, Phase::Agents, Phase::HostTokens] {
        assert!(!gateways_fit(phase, &d, &addresses, &p, "B"));
        assert!(gateways_fit(phase, &d, &addresses, &p, "A"));
        assert!(gateways_fit(phase, &d, &addresses, &plan(vec![]), "B"));
    }
    assert!(gateways_fit(Phase::Central, &d, &addresses, &p, "B"));
    // The other steps run on a node without a gateway.
    let p = plan(vec![
        action("B", ActionType::WriteConfig),
        action("B", ActionType::InstallCoold),
    ]);
    assert!(gateways_fit(Phase::Configure, &d, &addresses, &p, "B"));
    let steps = cli::apply::phase2(&d, &state, &addresses, &p, "B");
    assert_eq!(kinds(&steps), vec![ActionType::WriteConfig]);
    assert!(gateways_fit(Phase::Agents, &d, &addresses, &p, "B"));
    let steps = cli::apply::phase3(&d, &addresses, &p, &files(), "B");
    assert_eq!(kinds(&steps), vec![ActionType::InstallCoold]);
}

#[test]
fn hosts_stop_at_their_first_failure() {
    let step = |command: &str| Step {
        action_type: ActionType::InstallWg,
        namespace: String::new(),
        command: command.into(),
    };
    let steps = vec![step("one"), step("two"), step("three")];
    let mut done = vec![];
    assert!(matches!(first_step(&steps), HostNext::Run(0)));
    assert!(matches!(after_step("h", &steps, &mut done, Ok("fine\nmore")), HostNext::Run(1)));
    assert_eq!((done.len(), done[0].detail.as_str()), (1, "fine"));
    match after_step("h", &steps, &mut done, Err("broken")) {
        HostNext::Failed(e) => assert_eq!(e, "broken"),
        other => panic!("{other:?}"),
    }
    assert_eq!(done.len(), 1);
    assert!(matches!(after_step("h", &steps, &mut done, Ok("")), HostNext::Run(2)));
    assert!(matches!(after_step("h", &steps, &mut done, Ok("")), HostNext::Finished));
    assert!(matches!(first_step(&vec![]), HostNext::Finished));
}

#[test]
fn builders_are_named_or_all() {
    let mut d = desired(Intent::Bootstrap);
    d.enable_builder = false;
    assert!(!is_builder(&d, "A"));
    d.enable_builder = true;
    d.builder_hosts = vec![];
    assert!(is_builder(&d, "A"));
    d.builder_hosts = hosts(&["B"]);
    assert!(!is_builder(&d, "A") && is_builder(&d, "B"));
}

#[test]
fn corrosion_is_configured_from_the_mesh() {
    let mut d = desired(Intent::Bootstrap);
    d.corrosion_gossip_port = 8787;
    d.corrosion_api_port = 8080;
    d.nodes = hosts(&["A", "B", "C"]);
    let mgmt = ips(&[("A", "100.64.0.1"), ("B", "100.64.0.2"), ("C", "100.64.0.3")]);
    let inputs = config_inputs(&d, &mgmt, "B");
    assert_eq!(inputs.mgmt_ip, ip("100.64.0.2"));
    assert_eq!((inputs.gossip_port, inputs.api_port), (8787, 8080));
    assert_eq!(inputs.peers, vec![ip("100.64.0.1"), ip("100.64.0.3")]);
    assert!(!inputs.gossip_tls);
    assert_eq!(
        fill_config(&files().config, &inputs),
        "addr = \"100.64.0.2:8787\"\nbootstrap = [\"100.64.0.1:8787\", \"100.64.0.3:8787\"]\nplaintext = true\n[api]\naddr = \"100.64.0.2:8080\"\n"
    );
    d.corrosion_gossip_tls = Some(cli::tls::generate_self_signed("gossip", &vec![]).unwrap());
    let inputs = config_inputs(&d, &mgmt, "A");
    let text = fill_config(&files().config, &inputs);
    assert!(text.contains("plaintext = false\n\n[gossip.tls]\ncert_file = \"/etc/corrosion/tls/cert.pem\"\nkey_file = \"/etc/corrosion/tls/key.pem\"\ninsecure = true\n"));
    assert_eq!(fill_config("{{mgmt_ip}{{{peers}}{{", &inputs), "{{mgmt_ip}{\"100.64.0.2:8787\", \"100.64.0.3:8787\"{{");
}

#[test]
fn nodes_are_prepared_before_their_services_start() {
    let mut d = desired(Intent::Bootstrap);
    d.interface = "wg0".into();
    d.corrosion_version = "v1.0.0".into();
    d.corrosion_sha256 = Some("cafe".into());
    let (_, addresses) = keyed_mesh(&d);
    let p = plan(vec![
        action("A", ActionType::InstallCorrosion),
        action("A", ActionType::InstallCorrosionService),
        action("A", ActionType::InstallCooldService),
    ]);
    let steps = cli::apply::phase3(&d, &addresses, &p, &files(), "A");
    assert!(steps[0].command.starts_with("get v1.0.0\nprintf '%s  %s\\n' 'cafe' \"$DLDIR/corrosion.tar.gz\""));
    assert!(steps[0].command.ends_with("\nput v1.0.0"));
    assert!(steps[1].command.contains("After=wg-quick@wg0.service"));
    assert!(!steps[1].command.contains("/etc/corrosion/tls"));
    assert!(steps[2].command.starts_with("mkdir -p /etc/coolify /data/coolify && rm -f "));
    assert!(!steps[2].command.contains("flux.pin"));

    let gossip = cli::tls::generate_self_signed("gossip", &vec![]).unwrap();
    let flux = cli::tls::generate_self_signed("flux", &vec![]).unwrap();
    d.corrosion_gossip_tls = Some(gossip.clone());
    d.flux_tls = Some(flux.clone());
    d.flux_tls_url = Some("https://100.64.0.1:6443".into());
    let steps = cli::apply::phase3(&d, &addresses, &p, &files(), "A");
    let order = |text: &str, parts: &[&str]| {
        let at: Vec<usize> = parts.iter().map(|p| text.find(p).expect(p)).collect();
        assert!(at.windows(2).all(|w| w[0] < w[1]), "{parts:?} in {text}");
    };
    order(
        &steps[1].command,
        &[
            "mkdir -p /etc/corrosion/tls",
            gossip.cert_pem.as_str(),
            "chmod 0644 /etc/corrosion/tls/cert.pem",
            "(umask 077 && cat > /etc/corrosion/tls/key.pem.tmp",
            gossip.key_pem.as_str(),
            "chmod 0600 /etc/corrosion/tls/key.pem",
            "systemctl enable --now corrosion",
        ],
    );
    order(
        &steps[2].command,
        &[
            "mkdir -p /etc/coolify /data/coolify",
            "cat > /etc/coolify/flux.pin.tmp",
            flux.cert_pem.as_str(),
            "COOLIFY_COOLD_FLUX_TLS_PIN_PATH=/etc/coolify/flux.pin",
            "systemctl enable --now",
        ],
    );
    assert!(!steps[2].command.contains(&flux.key_pem));
}

#[test]
fn networks_are_read_back_from_their_text() {
    for text in ["0.0.0.0/0", "10.210.7.9/16", "255.255.255.255/32", "100.64.0.1/9"] {
        assert_eq!(net(text).text(), text);
    }
    assert_eq!(net("010.000.7.9/08").text(), "10.0.7.9/8");
    for odd in ["", "10.0.0.0", "10.0.0.0/33", "10.0.0/8", "256.0.0.0/8", "1.2.3.4/", "1.2.3.4/008", "0001.2.3.4/8", " 1.2.3.4/8", "1.2.3.4/8/9", "+1.2.3.4/8"] {
        assert!(Ipv4Net::parse(odd).is_none(), "{odd:?}");
    }
}
