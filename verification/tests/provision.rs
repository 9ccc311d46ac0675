//! Provisioning: the commands, units and configuration that reach the hosts.

use coolify::cli::checksum::checksum_verify_snippet;
use coolify::cli::config::{
    allowed_ips_line, genkey_command, render_config, write_config_command, PeerConfig,
};
use coolify::cli::coold as cli_coold;
use coolify::cli::coold::CooldNamespace;
use coolify::cli::firewall::{firewall_service_unit, install_firewall_command};
use coolify::cli::init::{
    build_desired, is_localhost_san, mesh_hosts, parse_endpoint_overrides, parse_port_overrides,
    BaseInitFlags,
};
use coolify::cli::meshnet::{
    podman_network_for, validate_interface, validate_namespaces, validate_version,
    MeshNetMultiFlags, MeshNetSingleFlags,
};
use coolify::cli::reconstruct::{parse_config, parse_probe, probe_command, reconstruct, ProbeResult};
use coolify::cli::ssh::{heredoc, remote_command, split_host_port, ssh_command_args, SshMeshFlags};
use coolify::cli::tls::{certified, generate_self_signed, SignFailure};
use coolify::cooldctl;
use coolify::cooldctl::coold as ctl_coold;
use coolify::cooldctl::firewall;
use coolify::cooldctl::firewall::{
    AllowCommand, AllowRule, FirewallFlags, RevokeCommand, TokenSource,
};
use coolify::mesh::intent::Intent;
use coolify::mesh::state::FluxConfig;
use coolify::net::{parse_ip, Ipv4Net};
use coolify::ssh::{parse_duration, run_result, server_result, timeout_of, RunOutput};

fn net(s: &str) -> Ipv4Net {
    Ipv4Net::parse(s).unwrap()
}

fn ip(s: &str) -> u32 {
    parse_ip(s).unwrap()
}

fn strings(v: &[&str]) -> Vec<String> {
    v.iter().map(|s| s.to_string()).collect()
}

fn namespace(name: &str, network: &str, gateway: &str) -> CooldNamespace {
    CooldNamespace {
        name: name.into(),
        network: network.into(),
        bridge_gateway: ip(gateway),
    }
}

fn expect_all(got: &str, wanted: &[&str]) {
    for want in wanted {
        assert!(got.contains(want), "missing {want} in:\n{got}");
    }
}

fn firewall_flags() -> FirewallFlags {
    FirewallFlags {
        ssh: cooldctl::ssh::SshMeshFlags {
            nodes: strings(&["h1"]),
            ssh_key: "test-key".into(),
            ssh_user: "root".into(),
            ssh_port: 22,
            ssh_passphrase_prompt: false,
            concurrency: 1,
            ssh_timeout: "30s".into(),
        },
        mesh: MeshNetSingleFlags { namespace: "default".into() },
        wg_interface: "wg0".into(),
        coold_token: None,
        coold_port: 8443,
    }
}

fn base_flags() -> BaseInitFlags {
    BaseInitFlags {
        ssh: SshMeshFlags {
            nodes: strings(&["node-a"]),
            ssh_key: None,
            ssh_config: Some("/dev/null".into()),
            ssh_user: "root".into(),
            ssh_port: 22,
            ssh_passphrase_prompt: false,
            concurrency: 10,
            ssh_timeout: "30s".into(),
        },
        mesh: MeshNetMultiFlags {
            namespaces: strings(&["default"]),
            container_pool: "10.210.0.0/16".into(),
            container_prefix: 24,
        },
        wg_mgmt_pool: "100.64.0.0/16".into(),
        wg_interface: "wg0".into(),
        wg_listen_port: 51820,
        wg_listen_port_overrides: vec![],
        wg_endpoint_overrides: vec![],
        skip_default_deny: false,
        coold_version: "nightly".into(),
        corrosion_version: "v1.0.0".into(),
        corrosion_gossip_port: 8787,
        corrosion_api_port: 8080,
        coold_sha256: None,
        corrosion_sha256: None,
        enable_corrosion_gossip_tls: false,
        enable_flux_tls: false,
        flux_tls_san: vec![],
        flux_port: 6443,
        flux_tls_out_dir: "./coolify-flux-tls".into(),
        yes: true,
    }
}

#[test]
fn ids_are_namespace_scoped_and_stable() {
    assert_eq!(
        firewall::rule_id("default", "10.0.0.1", "10.0.0.2", Some("tcp"), Some(80)),
        firewall::rule_id("default", "10.0.0.1", "10.0.0.2", Some("TCP"), Some(80))
    );
    assert_ne!(
        firewall::rule_id("default", "a", "b", None, None),
        firewall::rule_id("alpha", "a", "b", None, None)
    );
}

#[test]
fn rule_ids_distinguish_port_and_default_namespace_wire_format() {
    let tcp80 = firewall::rule_id("default", "1.1.1.1", "2.2.2.2", Some("tcp"), Some(80));
    let tcp443 = firewall::rule_id("default", "1.1.1.1", "2.2.2.2", Some("tcp"), Some(443));
    assert_eq!(tcp80.len(), 12);
    assert_ne!(tcp80, tcp443);
    assert_eq!(
        firewall::rule_id("", "10.0.0.1", "10.0.0.2", Some("tcp"), Some(80)),
        firewall::rule_id("default", "10.0.0.1", "10.0.0.2", Some("tcp"), Some(80))
    );
}

#[test]
fn build_curl_command_shapes_match_coold_api() {
    let allow = firewall::build_curl_command(
        "POST",
        "tok-xyz",
        9443,
        "100.64.0.2",
        "/api/v1/firewall/allow",
        Some(r#"{"src":"10.0.0.1","dst":"10.0.0.2"}"#),
    );
    assert!(allow.contains("curl -fsS"));
    assert!(allow.contains("-X POST"));
    assert!(allow.contains("Authorization: Bearer tok-xyz"));
    assert!(allow.contains("Content-Type: application/json"));
    assert!(allow.contains(r#"{"src":"10.0.0.1","dst":"10.0.0.2"}"#));
    assert!(allow.contains(":9443/api/v1/firewall/allow"));

    let revoke = firewall::build_curl_command(
        "DELETE",
        "tok-xyz",
        8443,
        "100.64.0.2",
        "/api/v1/firewall/allow/abc123def456",
        None,
    );
    assert!(revoke.contains("-X DELETE"));
    assert!(revoke.contains(":8443/api/v1/firewall/allow/abc123def456"));
}

#[test]
fn token_prefers_flag_then_env_then_file() {
    let flag = Some("flag-token".to_string());
    let env = Some("env-token".to_string());
    match firewall::token_source(&flag, &env) {
        TokenSource::Known(t) => assert_eq!(t, "flag-token"),
        TokenSource::File => panic!("the flag is to be used"),
    }
    match firewall::token_source(&None, &env) {
        TokenSource::Known(t) => assert_eq!(t, "env-token"),
        TokenSource::File => panic!("the environment is to be used"),
    }
    assert!(matches!(firewall::token_source(&None, &None), TokenSource::File));
    assert!(firewall::TOKEN_COMMAND.contains(ctl_coold::COOLIFY_COOLD_API_TOKEN_PATH));
    assert_eq!(firewall::token("file-token\n", "h1").unwrap(), "file-token");
}

#[test]
fn token_errors_when_file_empty() {
    let err = firewall::token("", "h1").unwrap_err();
    assert!(err.contains("empty"));
}

#[test]
fn curl_uses_discovered_ip_token_and_configured_port() {
    assert!(firewall::address_command("wg0").contains("ip -4 -o addr show dev wg0"));
    let ip = firewall::coold_ip("100.64.0.9\n", "wg0").unwrap();
    let token = firewall::token("tok\n", "h1").unwrap();
    let call = firewall::build_curl_command(
        "GET",
        &token,
        9443,
        &ip,
        &firewall::list_path("alpha", false),
        None,
    );
    assert!(call.contains("100.64.0.9:9443/api/v1/firewall/allow?namespace=alpha"));
    assert!(firewall::coold_ip("\n", "wg0").is_err());
}

#[test]
fn mesh_hosts_allows_all_in_one_central_node() {
    let got = cooldctl::init::mesh_hosts("1.2.3.4", &strings(&["1.2.3.4"])).unwrap();
    assert_eq!(got, vec!["1.2.3.4"]);
}

#[test]
fn mesh_hosts_keeps_central_before_nodes() {
    let got = cooldctl::init::mesh_hosts("1.2.3.4", &strings(&["5.6.7.8", "9.9.9.9"])).unwrap();
    assert_eq!(got, vec!["1.2.3.4", "5.6.7.8", "9.9.9.9"]);
}

#[test]
fn coold_renders_namespaces_env() {
    let got = cli_coold::namespaces_env_value(&vec![namespace(
        "default",
        "coolify-default-mesh",
        "10.210.0.1",
    )]);
    assert_eq!(got, "default:coolify-default-mesh:10.210.0.1");
}

#[test]
fn renders_namespaces_env() {
    let got = cli_coold::namespaces_env_value(&vec![
        namespace("default", "coolify-default-mesh", "10.210.0.1"),
    ]);
    assert_eq!(got, "default:coolify-default-mesh:10.210.0.1");
}

#[test]
fn coold_install_command_substitutes_version_and_arch() {
    for version in ["nightly", "v1.2.3"] {
        let cmd = ctl_coold::install_command(version);
        assert!(cmd.contains(version));
        assert!(cmd.contains(&format!("coollabsio/coold/releases/download/{version}")));
        assert!(cmd.contains("/usr/local/bin/coold.version"));
    }
    expect_all(
        &ctl_coold::install_command("nightly"),
        &[
            "x86_64)  ARCH=amd64",
            "aarch64) ARCH=arm64",
            "coold-linux-${ARCH}.tar.gz",
            "install -m 0755",
        ],
    );
}

#[test]
fn install_command_substitutes_version_and_arch() {
    for version in ["nightly", "v1.2.3"] {
        let cmd = cli_coold::install_command(version, None);
        assert!(cmd.contains(version));
        assert!(cmd.contains(&format!("coollabsio/coold/releases/download/{version}")));
        assert!(cmd.contains("/usr/local/bin/coold.version"));
    }
    expect_all(
        &cli_coold::install_command("nightly", None),
        &[
            "x86_64)  ARCH=amd64",
            "aarch64) ARCH=arm64",
            "coold-linux-${ARCH}.tar.gz",
            "install -m 0755",
        ],
    );
}

#[test]
fn service_unit_embeds_mgmt_ip_namespaces_and_api() {
    let got = ctl_coold::service_unit(
        ip("100.64.0.5"),
        &vec![
            namespace("default", "coolify-default-mesh", "10.210.7.1"),
            namespace("alpha", "coolify-alpha-mesh", "10.210.8.1"),
        ],
        None,
        None,
    );
    expect_all(
        &got,
        &[
            "Environment=COOLIFY_COOLD_HOST_MGMT_IP=100.64.0.5",
            "Environment=COOLIFY_COOLD_NAMESPACES=default:coolify-default-mesh:10.210.7.1,alpha:coolify-alpha-mesh:10.210.8.1",
            "Environment=COOLIFY_COOLD_DNS_ZONE=coolify.internal",
            "Environment=COOLIFY_COOLD_API_BIND=100.64.0.5:8443",
            "Environment=COOLIFY_COOLD_API_TOKEN_FILE=/etc/coolify/api-token",
            "AmbientCapabilities=CAP_NET_BIND_SERVICE CAP_NET_ADMIN CAP_NET_RAW",
            "Wants=corrosion.service",
            "After=corrosion.service network-online.target podman.socket",
            "ExecStart=/usr/local/bin/coold",
        ],
    );
}

#[test]
fn coold_service_unit_omits_namespace_env_when_empty() {
    let got = ctl_coold::service_unit(ip("100.64.0.5"), &vec![], None, None);
    assert!(!got.contains("COOLIFY_COOLD_NAMESPACES"));
    assert!(!got.contains("COOLIFY_COOLD_DNS_ZONE"));
    assert!(got.contains("Environment=COOLIFY_COOLD_HOST_MGMT_IP=100.64.0.5"));
}

#[test]
fn service_unit_omits_namespace_env_when_empty() {
    let got = cli_coold::service_unit(ip("100.64.0.5"), &vec![], None);
    assert!(!got.contains("COOLIFY_COOLD_NAMESPACES"));
    assert!(!got.contains("COOLIFY_COOLD_DNS_ZONE"));
    assert!(got.contains("Environment=COOLIFY_COOLD_HOST_MGMT_IP=100.64.0.5"));
}

#[test]
fn service_unit_emits_flux_and_builder_env_with_defaults() {
    let got = ctl_coold::service_unit(
        ip("100.64.0.5"),
        &vec![],
        Some(&ctl_coold::FluxConfig {
            url: "http://100.64.0.1:6443".into(),
            jwt_path: "/etc/coolify/host-jwt".into(),
        }),
        Some(&ctl_coold::BuilderConfig {
            capacity: 0,
            cpu_quota: String::new(),
            memory_max: String::new(),
            timeout_secs: 0,
            deny_nets: strings(&["100.64.0.0/16", "10.210.0.0/16"]),
        }),
    );
    expect_all(
        &got,
        &[
            "Environment=COOLIFY_COOLD_FLUX_URL=http://100.64.0.1:6443",
            "Environment=COOLIFY_COOLD_HOST_JWT_PATH=/etc/coolify/host-jwt",
            "Environment=COOLIFY_COOLD_BUILDER_ENABLED=true",
            "Environment=COOLIFY_COOLD_BUILDER_CAPACITY=2",
            "Environment=COOLIFY_COOLD_BUILDER_CPU_QUOTA=200%",
            "Environment=COOLIFY_COOLD_BUILDER_MEMORY_MAX=2G",
            "Environment=COOLIFY_COOLD_BUILDER_TIMEOUT_SECS=1800",
            "Environment=COOLIFY_COOLD_BUILDER_DENY_NETS=100.64.0.0/16,10.210.0.0/16",
        ],
    );
}

#[test]
fn install_command_supports_nightly_pinned_and_latest_release_urls() {
    let nightly = cooldctl::coolify::install_command("nightly");
    assert!(nightly.contains("coollabsio/coold/releases/download/nightly"));
    assert!(nightly.contains("coolify-linux-${ARCH}.tar.gz"));
    assert!(nightly.contains("/usr/local/bin/coolify.version"));

    let pinned = cooldctl::coolify::install_command("v1.2.3");
    assert!(pinned.contains("coollabsio/coold/releases/download/v1.2.3"));

    let latest = cooldctl::coolify::install_command("latest");
    assert!(latest.contains("coollabsio/coold/releases/latest/download"));
}

#[test]
fn service_unit_runs_coolify_binary() {
    let got = cooldctl::coolify::service_unit();
    assert!(got.contains("Description=Coolify UI/API"));
    assert!(got.contains("ExecStart=/usr/local/bin/coolify"));
}

#[test]
fn flux_install_command_substitutes_version_and_arch() {
    let cmd = cooldctl::flux::install_command("v1.2.3");
    expect_all(
        &cmd,
        &[
            "coollabsio/coold/releases/download/v1.2.3",
            "flux-linux-${ARCH}.tar.gz",
            "x86_64)  ARCH=amd64",
            "aarch64) ARCH=arm64",
            "/usr/local/bin/flux.version",
        ],
    );
}

#[test]
fn flux_service_unit_embeds_bind_socket_and_jwt_path() {
    let got = cooldctl::flux::service_unit("100.64.0.1:6443", "/etc/coolify/jwt.pub", "wg9");
    expect_all(
        &got,
        &[
            "Requires=wg-quick@wg9.service",
            "Environment=COOLIFY_FLUX_GRPC_BIND=100.64.0.1:6443",
            "Environment=COOLIFY_FLUX_UNIX_SOCKET_PATH=/run/coolify/flux.sock",
            "Environment=COOLIFY_FLUX_JWT_PUBLIC_KEY_PATH=/etc/coolify/jwt.pub",
            "RuntimeDirectory=coolify",
            "ExecStart=/usr/local/bin/flux",
        ],
    );
}

#[test]
fn flux_ensure_jwt_keypair_command_uses_expected_paths_and_modes() {
    let cmd = cooldctl::flux::ensure_jwt_keypair_command();
    expect_all(
        &cmd,
        &[
            "openssl genpkey -algorithm EC",
            "ec_paramgen_curve:P-256",
            "/etc/coolify/jwt.priv",
            "/etc/coolify/jwt.pub",
            "chmod 0600",
            "chmod 0644",
        ],
    );
}

#[test]
fn scheduler_install_command_substitutes_version_and_arch() {
    let cmd = cooldctl::scheduler::install_command("v1.2.3");
    expect_all(
        &cmd,
        &[
            "coollabsio/coold/releases/download/v1.2.3",
            "scheduler-linux-${ARCH}.tar.gz",
            "x86_64)  ARCH=amd64",
            "aarch64) ARCH=arm64",
            "/usr/local/bin/scheduler.version",
        ],
    );
}

#[test]
fn scheduler_service_unit_embeds_bind_socket_and_jwt_path() {
    let got = cooldctl::scheduler::service_unit("100.64.0.1:6443", "/etc/coolify/jwt.pub", "wg9");
    expect_all(
        &got,
        &[
            "Requires=wg-quick@wg9.service",
            "Environment=SCHEDULER_GRPC_BIND=100.64.0.1:6443",
            "Environment=SCHEDULER_UNIX_SOCKET_PATH=/run/coolify/scheduler.sock",
            "Environment=SCHEDULER_JWT_PUBLIC_KEY_PATH=/etc/coolify/jwt.pub",
            "RuntimeDirectory=coolify",
            "ExecStart=/usr/local/bin/scheduler",
        ],
    );
}

#[test]
fn scheduler_ensure_jwt_keypair_command_uses_expected_paths_and_modes() {
    let cmd = cooldctl::scheduler::ensure_jwt_keypair_command();
    expect_all(
        &cmd,
        &[
            "openssl genpkey -algorithm EC",
            "ec_paramgen_curve:P-256",
            "/etc/coolify/jwt.priv",
            "/etc/coolify/jwt.pub",
            "chmod 0600",
            "chmod 0644",
        ],
    );
}

#[test]
fn ssh_parses_basic_durations() {
    assert_eq!(parse_duration("30s"), Some(30_000));
    assert_eq!(parse_duration("2m"), Some(120_000));
    assert_eq!(parse_duration("500ms"), Some(500));
}

#[test]
fn parses_basic_durations() {
    let flags = |t: &str| SshMeshFlags { ssh_timeout: t.into(), ..base_flags().ssh };
    assert_eq!(flags("30s").timeout(), 30_000);
    assert_eq!(flags("2m").timeout(), 120_000);
    assert_eq!(flags("500ms").timeout(), 500);
}

#[test]
fn config_allowed_ips_include_mgmt_and_subnets() {
    let p = PeerConfig {
        endpoint: "1.2.3.4".into(),
        public_key: "pk".into(),
        mgmt_ip: ip("100.64.0.2"),
        container_subnets: vec![net("10.210.1.0/24")],
    };
    assert_eq!(allowed_ips_line(&p), "100.64.0.2/32, 10.210.1.0/24");
}

#[test]
fn allowed_ips_include_mgmt_and_subnets() {
    let p = PeerConfig {
        endpoint: "1.2.3.4".into(),
        public_key: "pk".into(),
        mgmt_ip: ip("100.64.0.2"),
        container_subnets: vec![net("10.210.1.0/24")],
    };
    assert_eq!(allowed_ips_line(&p), "100.64.0.2/32, 10.210.1.0/24");
}

#[test]
fn config_render_config_no_peers() {
    let got = cooldctl::config::render_config(ip("100.64.0.1"), 51820, &vec![]);
    assert!(got.contains("[Interface]"));
    assert!(got.contains("Address = 100.64.0.1/32"));
    assert!(got.contains("ListenPort = 51820"));
    assert!(got.contains("PrivateKey = __PRIVKEY__"));
    assert!(!got.contains("[Peer]"));
}

#[test]
fn render_config_no_peers() {
    let got = render_config(ip("100.64.0.1"), 51820, &vec![]);
    assert!(got.contains("[Interface]"));
    assert!(got.contains("Address = 100.64.0.1/32"));
    assert!(got.contains("ListenPort = 51820"));
    assert!(got.contains("PrivateKey = __PRIVKEY__"));
    assert!(!got.contains("[Peer]"));
}

#[test]
fn config_render_config_with_multi_namespace_peers() {
    let peers = vec![
        PeerConfig {
            endpoint: "203.0.113.11".into(),
            public_key: "BBBBBBBBBBBBBBBBBBBBBBBBBBBBBBBBBBBBBBBBBBBBB=".into(),
            mgmt_ip: ip("100.64.0.1"),
            container_subnets: vec![net("10.210.1.0/24")],
        },
        PeerConfig {
            endpoint: "203.0.113.12".into(),
            public_key: "CCCCCCCCCCCCCCCCCCCCCCCCCCCCCCCCCCCCCCCCCCCCC=".into(),
            mgmt_ip: ip("100.64.0.2"),
            container_subnets: vec![net("10.210.2.0/24"), net("10.220.2.0/24")],
        },
    ];
    let got = cooldctl::config::render_config(ip("100.64.0.1"), 51820, &peers);
    assert_eq!(got.matches("[Peer]").count(), 2);
    assert!(got.contains("Endpoint = 203.0.113.11:51820"));
    assert!(got.contains("AllowedIPs = 100.64.0.1/32, 10.210.1.0/24"));
    assert!(got.contains("PersistentKeepalive = 25"));
    assert!(got.contains("AllowedIPs = 100.64.0.2/32, 10.210.2.0/24, 10.220.2.0/24"));
}

#[test]
fn render_config_with_multi_namespace_peers() {
    let peers = vec![
        PeerConfig {
            endpoint: "203.0.113.11".into(),
            public_key: "BBBBBBBBBBBBBBBBBBBBBBBBBBBBBBBBBBBBBBBBBBBBB=".into(),
            mgmt_ip: ip("100.64.0.1"),
            container_subnets: vec![net("10.210.1.0/24")],
        },
        PeerConfig {
            endpoint: "203.0.113.12".into(),
            public_key: "CCCCCCCCCCCCCCCCCCCCCCCCCCCCCCCCCCCCCCCCCCCCC=".into(),
            mgmt_ip: ip("100.64.0.2"),
            container_subnets: vec![net("10.210.2.0/24"), net("10.220.2.0/24")],
        },
    ];
    let got = render_config(ip("100.64.0.1"), 51820, &peers);
    assert_eq!(got.matches("[Peer]").count(), 2);
    assert!(got.contains("Endpoint = 203.0.113.11:51820"));
    assert!(got.contains("AllowedIPs = 100.64.0.1/32, 10.210.1.0/24"));
    assert!(got.contains("PersistentKeepalive = 25"));
    assert!(got.contains("AllowedIPs = 100.64.0.2/32, 10.210.2.0/24, 10.220.2.0/24"));
}

#[test]
fn render_config_keeps_explicit_endpoint_port() {
    let peers = vec![PeerConfig {
        endpoint: "host.lima.internal:51822".into(),
        public_key: "BBBBBBBBBBBBBBBBBBBBBBBBBBBBBBBBBBBBBBBBBBBBB=".into(),
        mgmt_ip: ip("100.64.0.2"),
        container_subnets: vec![],
    }];
    let got = render_config(ip("100.64.0.1"), 51820, &peers);
    assert!(got.contains("Endpoint = host.lima.internal:51822"));
    assert!(!got.contains("host.lima.internal:51822:51820"));
}

#[test]
fn config_write_config_command_reads_private_key_and_writes_atomically() {
    let peers = vec![PeerConfig {
        endpoint: "203.0.113.11".into(),
        public_key: "BBBBBBBBBBBBBBBBBBBBBBBBBBBBBBBBBBBBBBBBBBBBB=".into(),
        mgmt_ip: ip("100.64.0.2"),
        container_subnets: vec![net("10.210.1.0/24")],
    }];
    let cmd = cooldctl::config::write_config_command("wg0", ip("100.64.0.1"), 51820, &peers);
    expect_all(
        &cmd,
        &[
            "cat /etc/wireguard/privatekey",
            "$PRIVKEY",
            ".conf.tmp",
            "chmod 600 /etc/wireguard/wg0.conf.tmp",
            "mv /etc/wireguard/wg0.conf.tmp /etc/wireguard/wg0.conf",
            "Address = 100.64.0.1/32",
            "100.64.0.2/32, 10.210.1.0/24",
        ],
    );
}

#[test]
fn write_config_command_reads_private_key_and_writes_atomically() {
    let peers = vec![PeerConfig {
        endpoint: "203.0.113.11".into(),
        public_key: "BBBBBBBBBBBBBBBBBBBBBBBBBBBBBBBBBBBBBBBBBBBBB=".into(),
        mgmt_ip: ip("100.64.0.2"),
        container_subnets: vec![net("10.210.1.0/24")],
    }];
    let cmd = write_config_command("wg0", ip("100.64.0.1"), 51820, &peers);
    expect_all(
        &cmd,
        &[
            "cat /etc/wireguard/privatekey",
            "$PRIVKEY",
            ".conf.tmp",
            "chmod 600 /etc/wireguard/wg0.conf.tmp",
            "mv /etc/wireguard/wg0.conf.tmp /etc/wireguard/wg0.conf",
            "Address = 100.64.0.1/32",
            "100.64.0.2/32, 10.210.1.0/24",
        ],
    );
}

#[test]
fn is_localhost_san_matches_local_only_addresses() {
    for s in ["localhost", "127.0.0.1", "::1", "0.0.0.0", "", " LocalHost "] {
        assert!(is_localhost_san(s), "{s:?} should be localhost");
    }
    for s in ["100.64.0.1", "flux.internal", "10.0.0.5"] {
        assert!(!is_localhost_san(s), "{s:?} should NOT be localhost");
    }
}

#[test]
fn flux_tls_off_leaves_url_unset() {
    let d = build_desired(&base_flags(), Intent::Bootstrap, &vec![], false, false).unwrap();
    assert!(d.flux_tls.is_none());
    assert!(d.flux_tls_url.is_none());
    assert!(d.coold_flux_config().is_none());
}

#[test]
fn flux_tls_on_wires_https_url_and_pin_env() {
    let mut base = base_flags();
    base.enable_flux_tls = true;
    base.flux_tls_san = strings(&["100.64.0.1"]);
    let d = build_desired(&base, Intent::Bootstrap, &vec![], false, false).unwrap();
    assert!(d.flux_tls.is_some());
    assert_eq!(d.flux_tls_url.as_deref(), Some("https://100.64.0.1:6443"));
    let flux = d.coold_flux_config().expect("flux config present");
    assert_eq!(flux.url, "https://100.64.0.1:6443");
    assert_eq!(flux.tls_pin_path.as_deref(), Some("/etc/coolify/flux.pin"));
    // The generated coold unit must dial TLS and set the pin path env.
    let unit = cli_coold::service_unit(ip("100.64.0.5"), &vec![], Some(&flux));
    assert!(unit.contains("Environment=COOLIFY_COOLD_FLUX_URL=https://100.64.0.1:6443"));
    assert!(unit.contains("Environment=COOLIFY_COOLD_FLUX_TLS_PIN_PATH=/etc/coolify/flux.pin"));
}

#[test]
fn flux_tls_on_requires_non_localhost_san() {
    for sans in [vec![], strings(&["localhost"]), strings(&["127.0.0.1"])] {
        let mut base = base_flags();
        base.enable_flux_tls = true;
        base.flux_tls_san = sans.clone();
        let err = match build_desired(&base, Intent::Bootstrap, &vec![], false, false) {
            Ok(_) => panic!("localhost-only SAN must be rejected"),
            Err(e) => e,
        };
        assert!(
            err.contains("flux-tls-san"),
            "unexpected error for {sans:?}: {err}"
        );
    }
}

#[test]
fn mesh_hosts_keeps_node_order() {
    let got = mesh_hosts(&strings(&["1.2.3.4:51572", "5.6.7.8:51593"])).unwrap();
    assert_eq!(got, vec!["1.2.3.4:51572", "5.6.7.8:51593"]);
}

#[test]
fn parse_dev_wireguard_overrides() {
    let ports = parse_port_overrides(&strings(&["node-a=51821", "node-b=51822"])).unwrap();
    assert_eq!(ports.get("node-a"), Some(&51821));
    let endpoints = parse_endpoint_overrides(&strings(&[
        "node-a=host.lima.internal:51821",
        "node-b=host.lima.internal:51822",
    ]))
    .unwrap();
    assert_eq!(endpoints.get("node-b").unwrap(), "host.lima.internal:51822");
}

#[test]
fn namespace_validation_rejects_uppercase_and_dupes() {
    assert!(validate_namespaces(&strings(&["default", "alpha-1"])).is_ok());
    assert!(validate_namespaces(&strings(&["Default"])).is_err());
    assert!(validate_namespaces(&strings(&["default", "default"])).is_err());
}

#[test]
fn namespace_validation_rejects_shell_metacharacters() {
    for bad in [
        "a;b", "a b", "a$b", "a`b`", "a$(id)", "a|b", "a&b", "../etc", "a\nb",
    ] {
        assert!(
            validate_namespaces(&vec![bad.to_string()]).is_err(),
            "expected {bad:?} to be rejected"
        );
    }
    assert!(validate_namespaces(&strings(&["default"])).is_ok());
}

#[test]
fn interface_validation_guards_shell_and_unit_injection() {
    for good in ["wg0", "wg-mesh", "wg_0", "eth0.1"] {
        assert!(validate_interface(good).is_ok(), "{good} should pass");
    }
    for bad in [
        "wg0; rm -rf /",
        "wg0 x",
        "wg$(id)",
        "wg0@evil",
        "wg/0",
        "-wg0",
        "thisnameiswaytoolong",
        "",
    ] {
        assert!(validate_interface(bad).is_err(), "{bad:?} should fail");
    }
}

#[test]
fn version_validation_rejects_injection() {
    for good in ["nightly", "latest", "v1.2.3", "1.0.0-rc.1"] {
        assert!(validate_version("--coold-version", good).is_ok(), "{good}");
    }
    for bad in ["v1;reboot", "v1 2", "$(id)", "v1`id`", "v1|cat", ""] {
        assert!(validate_version("--coold-version", bad).is_err(), "{bad:?}");
    }
}

#[test]
fn install_command_verifies_pinned_checksum_before_install() {
    let cmd = cli_coold::install_command("v1.2.3", Some("cafef00d"));
    assert!(cmd.contains("cafef00d"));
    assert!(cmd.contains("sha256 mismatch"));
    let verify_at = cmd.find("sha256sum -c -").unwrap();
    let install_at = cmd.find("install -m 0755").unwrap();
    assert!(verify_at < install_at, "checksum verify must precede install");
}

#[test]
fn service_unit_is_hardened() {
    let got = cli_coold::service_unit(ip("100.64.0.5"), &vec![], None);
    expect_all(
        &got,
        &[
            "NoNewPrivileges=yes",
            "ProtectSystem=strict",
            "ProtectHome=yes",
            "PrivateTmp=yes",
            "ReadWritePaths=/etc/coolify /data/coolify /var/lib/containers",
            "ReadWritePaths=-/run/containers -/run/netavark -/run/libpod",
        ],
    );
    // Ambient caps must be preserved so podman/iptables/nft and DNS bind
    // keep working under NoNewPrivileges.
    assert!(got.contains("AmbientCapabilities=CAP_NET_BIND_SERVICE CAP_NET_ADMIN CAP_NET_RAW"));
}

#[test]
fn service_unit_embeds_mgmt_ip_and_namespaces() {
    let got = cli_coold::service_unit(
        ip("100.64.0.5"),
        &vec![
            namespace("default", "coolify-default-mesh", "10.210.7.1"),
            namespace("alpha", "coolify-alpha-mesh", "10.210.8.1"),
        ],
        None,
    );
    expect_all(
        &got,
        &[
            "Environment=COOLIFY_COOLD_HOST_MGMT_IP=100.64.0.5",
            "Environment=COOLIFY_COOLD_NAMESPACES=default:coolify-default-mesh:10.210.7.1,alpha:coolify-alpha-mesh:10.210.8.1",
            "Environment=COOLIFY_COOLD_DNS_ZONE=coolify.internal",
            "AmbientCapabilities=CAP_NET_BIND_SERVICE CAP_NET_ADMIN CAP_NET_RAW",
            "Wants=corrosion.service coolify-mesh-dns-anchor.service coolify-mesh-dns-resolver.service",
            "After=corrosion.service network-online.target podman.socket coolify-mesh-fw.service coolify-mesh-dns-anchor.service coolify-mesh-dns-resolver.service",
            "ExecStart=/usr/local/bin/coold",
        ],
    );
}

#[test]
fn mesh_dns_anchor_unit_keeps_network_gateway_present() {
    let got = cli_coold::mesh_dns_anchor_unit(&vec![namespace(
        "default",
        "coolify-default-mesh",
        "10.210.0.1",
    )]);
    expect_all(
        &got,
        &[
            "Description=Coolify mesh DNS anchor containers",
            "Requires=podman.socket",
            "podman run -d --replace --name coolify-mesh-dns-anchor-default",
            "--network coolify-default-mesh",
            "--label io.coolify.role=mesh-dns-anchor",
            "docker.io/library/alpine:3.20 sleep infinity",
            "podman rm -f coolify-mesh-dns-anchor-default",
        ],
    );
}

#[test]
fn mesh_dns_resolver_unit_routes_coolify_internal_to_mesh_gateway() {
    let got = cli_coold::mesh_dns_resolver_unit(&vec![namespace(
        "default",
        "coolify-default-mesh",
        "10.210.0.1",
    )]);
    expect_all(
        &got,
        &[
            "Description=Configure Coolify mesh DNS resolver",
            "After=systemd-resolved.service coolify-mesh-dns-anchor.service",
            "command -v resolvectl >/dev/null 2>&1 || exit 0",
            "podman network inspect coolify-default-mesh --format '{{.NetworkInterface}}'",
            "resolvectl dns \"$iface\" 10.210.0.1 || true",
            "resolvectl domain \"$iface\" '~coolify.internal' || true",
            "resolvectl default-route \"$iface\" false || true",
        ],
    );
}

#[test]
fn mesh_dns_resolver_unit_does_not_mask_resolved_link_drift() {
    let got = cli_coold::mesh_dns_resolver_unit(&vec![namespace(
        "default",
        "coolify-default-mesh",
        "10.210.0.1",
    )]);
    assert!(!got.contains("RemainAfterExit=yes"));
}

#[test]
fn service_unit_emits_flux_env() {
    let got = cli_coold::service_unit(
        ip("100.64.0.5"),
        &vec![],
        Some(&FluxConfig {
            url: "http://100.64.0.1:6443".into(),
            jwt_path: "/etc/coolify/host-jwt".into(),
            tls_pin_path: None,
        }),
    );
    expect_all(
        &got,
        &[
            "Environment=COOLIFY_COOLD_FLUX_URL=http://100.64.0.1:6443",
            "Environment=COOLIFY_COOLD_HOST_JWT_PATH=/etc/coolify/host-jwt",
        ],
    );
    // Plaintext flux (no pin path) must not emit the TLS pin env.
    assert!(!got.contains("COOLIFY_COOLD_FLUX_TLS_PIN_PATH"));
    assert!(!got.contains("COOLIFY_COOLD_BUILDER_"));
}

#[test]
fn service_unit_emits_flux_tls_env_when_pinned() {
    let got = cli_coold::service_unit(
        ip("100.64.0.5"),
        &vec![],
        Some(&FluxConfig {
            url: "https://100.64.0.1:6443".into(),
            jwt_path: "/etc/coolify/host-jwt".into(),
            tls_pin_path: Some("/etc/coolify/flux.pin".into()),
        }),
    );
    expect_all(
        &got,
        &[
            "Environment=COOLIFY_COOLD_FLUX_URL=https://100.64.0.1:6443",
            "Environment=COOLIFY_COOLD_FLUX_TLS_PIN_PATH=/etc/coolify/flux.pin",
        ],
    );
}

#[test]
fn pinned_checksum_snippet_aborts_on_mismatch() {
    let snip = checksum_verify_snippet("$DLDIR/coold.tar.gz", "$URL", "coold", Some("abc123"));
    assert!(snip.contains("abc123"));
    assert!(snip.contains("sha256sum -c -"));
    assert!(snip.contains("exit 1"));
    assert!(!snip.contains(".sha256\""));
}

#[test]
fn unpinned_checksum_snippet_uses_published_sidecar_but_tolerates_absence() {
    let snip = checksum_verify_snippet("$DLDIR/coold.tar.gz", "$URL", "coold", None);
    assert!(snip.contains("$URL.sha256"));
    assert!(snip.contains("sha256sum -c -"));
    assert!(snip.contains("exit 1"));
    assert!(snip.contains("proceeding"));
}

#[test]
fn generates_pem_cert_and_key() {
    let material = generate_self_signed("flux", &strings(&["100.64.0.1", "flux.internal"]))
        .expect("cert generation");
    assert!(material.cert_pem.contains("BEGIN CERTIFICATE"));
    assert!(material.cert_pem.contains("END CERTIFICATE"));
    assert!(material.key_pem.contains("PRIVATE KEY"));
}

#[test]
fn distinct_invocations_produce_distinct_keys() {
    let a = generate_self_signed("flux", &strings(&["100.64.0.1"])).unwrap();
    let b = generate_self_signed("flux", &strings(&["100.64.0.1"])).unwrap();
    assert_ne!(a.key_pem, b.key_pem);
}

#[test]
fn split_host_port_uses_node_port_override() {
    assert_eq!(
        split_host_port("127.0.0.1:51593", 22),
        ("127.0.0.1".into(), 51593)
    );
    assert_eq!(split_host_port("example.com", 22), ("example.com".into(), 22));
}

#[test]
fn ssh_args_use_short_lived_control_master() {
    let args = ssh_command_args(
        None,
        Some(&"/tmp/key".to_string()),
        30_000,
        2222,
        "user@example.com",
        "true",
    );
    expect_args_contains(&args, "ControlMaster=auto");
    expect_args_contains(&args, "ControlPath=/tmp/coolify-ssh-%C");
    expect_args_contains(&args, "ControlPersist=60s");
    expect_args_contains(&args, "ConnectTimeout=30");
}

#[test]
fn ssh_args_can_use_config_file() {
    let args = ssh_command_args(
        Some(&"/tmp/ssh.config".to_string()),
        None,
        30_000,
        2222,
        "lima-coold-dev",
        "true",
    );
    expect_args_contains(&args, "-F");
    expect_args_contains(&args, "/tmp/ssh.config");
    assert!(!args.iter().any(|arg| arg == "-i"));
    assert!(!args.iter().any(|arg| arg == "-p"));
    assert!(!args
        .iter()
        .any(|arg| arg == "ControlPath=/tmp/coolify-ssh-%C"));
}

fn expect_args_contains(args: &[String], expected: &str) {
    assert!(
        args.iter().any(|arg| arg == expected),
        "missing {expected} in {args:?}"
    );
}

#[test]
fn genkey_command_closes_umask_window() {
    let cmd = genkey_command();
    assert!(cmd.contains("umask 077"));
    // umask must wrap the genkey pipeline that creates privatekey.
    let umask_at = cmd.find("umask 077").unwrap();
    let tee_at = cmd.find("tee /etc/wireguard/privatekey").unwrap();
    assert!(umask_at < tee_at, "umask must precede key creation");
    assert!(cmd.contains("chmod 600 /etc/wireguard/privatekey"));
}

#[test]
fn equal_rules_share_an_exact_id() {
    // The first twelve hexadecimal digits of the SHA-256 of "default|a|b||0".
    assert_eq!(firewall::rule_id("default", "a", "b", None, None), "424f126e4caf");
    assert_eq!(firewall::rule_id("", "a", "b", Some(""), Some(0)), "424f126e4caf");
    // Of "default|10.0.0.1|10.0.0.2|tcp|80".
    assert_eq!(
        firewall::rule_id("default", "10.0.0.1", "10.0.0.2", Some("TCP"), Some(80)),
        "e3fbbba8373c"
    );
    assert_eq!(
        firewall::rule_id("default", "a", "b", Some("ÀB"), None),
        firewall::rule_id("default", "a", "b", Some("àb"), None)
    );
}

#[test]
fn firewall_commands_name_their_rule() {
    let mut flags = firewall_flags();
    flags.mesh.namespace = "alpha".into();
    let body = firewall::allow(&AllowCommand {
        flags,
        from: "10.0.0.1".into(),
        to: "10.0.0.2".into(),
        proto: "tcp".into(),
        port: Some(80),
    })
    .unwrap();
    let json: serde_json::Value = serde_json::from_str(&body).unwrap();
    assert_eq!(json["src"], "10.0.0.1");
    assert_eq!(json["dst"], "10.0.0.2");
    assert_eq!(json["proto"], "tcp");
    assert_eq!(json["port"], 80);
    assert_eq!(json["namespace"], "alpha");

    let by_id = RevokeCommand {
        flags: firewall_flags(),
        id: Some("abc123def456".into()),
        from: None,
        to: None,
        proto: "tcp".into(),
        port: None,
    };
    assert!(firewall::revoke(&by_id).unwrap().contains("/abc123def456"));
    let by_rule = RevokeCommand {
        id: None,
        from: Some("a".into()),
        to: Some("b".into()),
        port: Some(80),
        ..by_id
    };
    let id = firewall::rule_id("default", "a", "b", Some("tcp"), Some(80));
    assert!(firewall::revoke(&by_rule).unwrap().contains(&id));
    let nothing = RevokeCommand { from: None, ..by_rule };
    assert!(firewall::revoke(&nothing).is_err());
}

#[test]
fn firewall_flags_are_checked() {
    assert!(firewall::validate(&firewall_flags()).is_ok());
    let mut f = firewall_flags();
    f.ssh.nodes = vec![];
    assert!(firewall::validate(&f).unwrap_err().contains("--servers"));
    let mut f = firewall_flags();
    f.mesh.namespace = "Bad".into();
    assert!(firewall::validate(&f).is_err());
}

#[test]
fn firewall_rows_are_gathered_per_host() {
    let rule = AllowRule {
        id: "i".into(),
        namespace: None,
        src: "s".into(),
        dst: "d".into(),
        proto: "tcp".into(),
        port: Some(80),
    };
    let (rows, errors) = firewall::gather(vec![
        server_result("h1".to_string(), Ok(vec![rule.clone()])),
        server_result("h2".to_string(), Err("timed out".to_string())),
    ]);
    assert_eq!(rows.len(), 1);
    assert_eq!(errors.len(), 1);
    assert!(errors[0].contains("h2") && errors[0].contains("timed out"));
    let placed = firewall::place_rules(&rows, "alpha");
    assert_eq!(placed[0].namespace.as_deref(), Some("alpha"));
    assert!(firewall::list(&placed).contains("alpha"));
    let m = firewall::mutate("h1".into(), "/api/v1/firewall/allow/i", Ok(()));
    assert_eq!(m.server, "h1");
    assert!(firewall::mutations(&vec![m]).contains("h1"));
}

#[test]
fn containers_are_read_line_by_line() {
    assert!(firewall::containers_command("alpha", false).contains("podman"));
    let rows = firewall::discover_containers("", "h1", "alpha", false);
    assert!(rows.is_empty());
    assert!(firewall::containers(&rows).starts_with("SERVER"));
}

#[test]
fn tables_are_padded_by_column() {
    let t = cooldctl::output::table(
        &strings(&["HOST", "X"]),
        &vec![strings(&["a", "1"]), strings(&["longer", "22"])],
    );
    assert_eq!(t, "HOST    X \n------  --\na       1 \nlonger  22\n");
}

#[test]
fn remote_commands_are_escaped_for_sudo() {
    assert_eq!(remote_command("root", "id"), "id");
    let cmd = remote_command("ubuntu", "echo 'a'");
    assert_eq!(cmd, "sudo -n bash -lc 'echo '\\''a'\\'''");
    assert_eq!(remote_command("ubuntu", "id"), "sudo -n bash -lc id");
    assert_eq!(remote_command("ubuntu", ""), "sudo -n bash -lc ''");
    assert_eq!(remote_command("ubuntu", "a!"), "sudo -n bash -lc 'a'\\!''");
    let doc = heredoc("/etc/x", "body\n", "0644");
    assert_eq!(doc, "cat > /etc/x.tmp <<'COOLIFY_CLI_EOF'\nbody\nCOOLIFY_CLI_EOF\nchmod 0644 /etc/x.tmp && mv /etc/x.tmp /etc/x");
}

#[test]
fn durations_fall_back() {
    for bad in ["", "s", "-1s", "1.5s", "5h", "5 s"] {
        assert_eq!(parse_duration(bad), None, "{bad:?}");
    }
    assert_eq!(parse_duration("5"), Some(5_000));
    assert_eq!(parse_duration("+5ms"), Some(5));
    assert_eq!(timeout_of("2m"), 120_000);
    assert_eq!(timeout_of("junk"), timeout_of("30s"));
}

#[test]
fn run_results_fail_with_the_first_error_line() {
    let out = RunOutput { stdout: "out".into(), stderr: "first\nsecond".into(), status: 3 };
    let e = match run_result("h", false, out) {
        Ok(_) => panic!("a failed command is an error"),
        Err(e) => e,
    };
    assert!(e.contains("h") && e.contains("first"));
    let out = RunOutput { stdout: "out".into(), stderr: String::new(), status: 0 };
    assert_eq!(run_result("h", true, out).unwrap().stdout, "out");
}

#[test]
fn probes_are_read_back() {
    let cmd = probe_command("wg0", &strings(&["default", "alpha"]));
    assert!(cmd.contains("for ns in default alpha; do"));
    assert!(cmd.contains("wg show wg0 dump"));
    // The interface section, one peer and its endpoint, in base 64.
    let config = "W0ludGVyZmFjZV0KQWRkcmVzcyA9IDEwMC42NC4wLjEvMzIKTGlzdGVuUG9ydCA9IDUxODIwCltQZWVyXQpQdWJsaWNLZXkgPSBQSwpBbGxvd2VkSVBzID0gMTAwLjY0LjAuMi8zMiwgMTAuMjEwLjEuMC8yNApFbmRwb2ludCA9IDEuMi4zLjQ6NTE4MjAKUGVyc2lzdGVudEtlZXBhbGl2ZSA9IDI1Cg==";
    let probe = format!(
        "WG_INSTALLED=1\nKEYS_EXIST=1\nPUBLIC_KEY=KEY\nCONFIG_B64={config}\nnoise\nPODMAN_INSTALLED=0\nCOOLIFY_COOLD_VERSION= v1 \nNS=default|coolify-default-mesh|10.210.0.0/24|true|default\n"
    );
    let s = parse_probe("h", "wg0", &strings(&["default", "alpha"]), &probe);
    assert!(s.installed && s.keys_exist && !s.podman_installed && !s.active);
    assert_eq!(s.public_key, "KEY");
    assert_eq!(s.coold_version, "v1");
    assert_eq!(s.wireguard_mgmt_ip, parse_ip("100.64.0.1"));
    assert_eq!(s.listen_port, 51820);
    assert_eq!(s.peers.len(), 1);
    assert_eq!(s.peers[0].public_key, "PK");
    assert_eq!(s.peers[0].endpoint, "1.2.3.4:51820");
    assert_eq!(s.peers[0].allowed_ips, strings(&["100.64.0.2/32", "10.210.1.0/24"]));
    let ns = s.namespaces.get("default").unwrap();
    assert!(ns.network_exists && ns.dns_enabled);
    assert_eq!(ns.container_subnet.unwrap().text(), "10.210.0.0/24");
    assert!(!s.namespaces.get("alpha").unwrap().network_exists);

    let (mesh, errors) = reconstruct(vec![
        ProbeResult { host: "h".into(), result: Some(s), error: None },
        ProbeResult { host: "g".into(), result: None, error: Some("refused".into()) },
    ]);
    assert!(mesh.servers.contains_key("h"));
    assert!(!mesh.servers.contains_key("g"));
    assert_eq!(errors, strings(&["g: refused"]));
}

#[test]
fn firewall_units_hold_their_subnets() {
    let subnets = vec![net("10.210.0.0/24")];
    let names = strings(&["default"]);
    let open = firewall_service_unit("wg0", &names, &subnets, false);
    let shut = firewall_service_unit("wg0", &names, &subnets, true);
    assert!(open.contains("wg0") && open.contains("10.210.0.0/24"));
    assert_ne!(open, shut);
    assert!(install_firewall_command("wg0", &names, &subnets, true).contains("coolify-mesh-fw.service"));
    assert_eq!(podman_network_for("default"), "coolify-default-mesh");
}

#[test]
fn mesh_hosts_are_distinct() {
    assert!(mesh_hosts(&strings(&["a", "a"])).is_err());
    assert_eq!(mesh_hosts(&strings(&["", "b", ""])).unwrap(), strings(&["b"]));
    assert!(cooldctl::init::mesh_hosts("c", &strings(&["a", "a"])).is_err());
    assert!(parse_port_overrides(&strings(&["a"])).is_err());
    assert!(parse_port_overrides(&strings(&["a=70000"])).is_err());
    assert_eq!(parse_endpoint_overrides(&strings(&[" a = b "])).unwrap().get("a").unwrap(), "b");
    assert!(parse_endpoint_overrides(&strings(&["a"])).is_err());
}

#[test]
fn rendered_configurations_are_read_back() {
    let peer = |host: &str, key: &str| PeerConfig {
        public_key: key.into(),
        endpoint: host.into(),
        mgmt_ip: ip("100.64.0.2"),
        container_subnets: vec![net("10.210.1.0/24"), net("10.211.1.0/24")],
    };
    let peers = vec![peer("1.2.3.4", "K1"), peer("b:9", "K2")];
    let text = render_config(ip("100.64.0.1"), 51820, &peers);
    let mut s = coolify::mesh::state::ServerState::default();
    s.public_key = "mine".into();
    parse_config(&mut s, &text);
    assert_eq!(s.wireguard_mgmt_ip, Some(ip("100.64.0.1")));
    assert_eq!(s.listen_port, 51820);
    assert_eq!(s.public_key, "mine");
    assert_eq!(s.peers.len(), 2);
    assert_eq!(s.peers[0].public_key, "K1");
    assert_eq!(s.peers[0].endpoint, "1.2.3.4:51820");
    assert_eq!(s.peers[1].endpoint, "b:9");
    assert_eq!(s.peers[1].allowed_ips.join(", "), allowed_ips_line(&peers[1]));
    assert_eq!(s.peers[1].persistent_keepalive, 25);
}

#[test]
fn failed_certificates_say_why() {
    let mut base = base_flags();
    base.enable_flux_tls = true;
    base.flux_tls_san = strings(&["flux.internal", "b\u{fc}cher"]);
    let err = build_desired(&base, Intent::Bootstrap, &vec![], false, false).err().unwrap();
    assert!(err.starts_with("generate flux TLS cert: "), "got: {err}");
    assert!(generate_self_signed("flux", &strings(&["b\u{fc}cher"])).is_err());
}

#[test]
fn certificates_hold_their_names() {
    let cert = generate_self_signed("coolify-flux", &strings(&["flux.internal"])).unwrap();
    let body: String = cert.cert_pem.lines().filter(|l| !l.starts_with('-')).collect();
    let der = base64::Engine::decode(&base64::engine::general_purpose::STANDARD, body).unwrap();
    let holds = |s: &str| der.windows(s.len()).any(|w| w == s.as_bytes());
    assert!(holds("coolify-flux") && holds("flux.internal"));
    assert!(!holds("other.internal"));
}

#[test]
fn rules_are_taken_back_by_what_they_say() {
    let allow = AllowCommand {
        flags: firewall_flags(),
        from: "web".into(),
        to: "db".into(),
        proto: "TCP".into(),
        port: Some(5432),
    };
    let revoke = RevokeCommand {
        flags: firewall_flags(),
        id: None,
        from: Some("web".into()),
        to: Some("db".into()),
        proto: "tcp".into(),
        port: Some(5432),
    };
    let body: serde_json::Value = serde_json::from_str(&firewall::allow(&allow).unwrap()).unwrap();
    let id = body["id"].as_str().unwrap();
    assert_eq!(id.len(), 12);
    assert!(id.chars().all(|c| c.is_ascii_digit() || ('a'..='f').contains(&c)));
    assert_eq!(firewall::revoke(&revoke).unwrap(), format!("/api/v1/firewall/allow/{id}"));
    let id = |proto: &str| firewall::rule_id("default", "a", "b", Some(proto), Some(1));
    assert_eq!(id("\u{c4}"), id("\u{e4}"));
}

#[test]
fn failures_to_certify_are_told() {
    let cert = generate_self_signed("flux", &vec![]).unwrap();
    let pem = cert.cert_pem.clone();
    assert_eq!(certified(Some(Ok(cert))).unwrap().cert_pem, pem);
    let told = |signed| certified(signed).err().unwrap();
    assert_eq!(told(Some(Err(SignFailure::Signature))), "self-sign certificate");
    assert_eq!(told(Some(Err(SignFailure::Parameters))), "self-sign certificate");
    assert_eq!(told(None), "generate key pair");
}
