//! Flux: configuration, admission of agents, routing of commands and their answers.

use coolify::flux::bridge::{
    code_to_status, coold_dispatch, coold_err, missing_jti, socket_mode, DispatchEvent,
    DispatchNext, Stage,
};
use coolify::flux::config::{
    at_least_a_second, env_flag, flag_default_true, key_id, Config, FLUX_LOG_FILE_PATH,
};
use coolify::flux::envelope::{
    default_logs_stdout, default_mesh_network, response_body_type, AgentResponse, Body,
    CommandPayload, Data, DispatchEnvelope, ImageSummary, IngressAppConfig, PortMapping,
    ResponseBody,
};
use coolify::flux::gateway::{
    admit_stream, admit_token, allow_public_bind, bearer, contains_wildcard_profile,
    deliver_response, effective_capabilities, liveness_update, missing_capabilities, on_event,
    schema_overlaps, tls_paths, validate_bind, BindAddr, Disconnect, Hello, Liveness, Refusal,
    StreamEvent, StreamStep, FLUX_SCHEMA_MAX, FLUX_SCHEMA_MIN,
};
use coolify::flux::auth::{HostBinding, VerifiedJwt};
use coolify::flux::pending::{Delivery, Heartbeats, InsertOutcome, ParkResult, Pending};
use coolify::flux::registry::RegistryClient;
use coolify::flux::resource_status::{
    coold_status_update, publish_error, resource_status_payload, ResourceStatusPublisher,
    ResourceStatusUpdate,
};
use coolify::flux::routing::{
    route_coold, Command, RouteOutcome, StreamHandle, Streams,
};
use coolify::json::Field;
use coolify::model::ContainerSummary;
use coolify::scheduler::Report;
use serde_json::Value;

fn strings(v: &[&str]) -> Vec<String> {
    v.iter().map(|s| s.to_string()).collect()
}

fn addr(text: &str, ip: &str) -> BindAddr {
    BindAddr { text: text.into(), ip: ip.into() }
}

fn field_value(f: &Field) -> Value {
    match f {
        Field::Text(s) => Value::from(s.as_str()),
        Field::Number(n) => Value::from(*n),
        Field::Flag(b) => Value::from(*b),
        Field::Texts(v) => Value::from(v.clone()),
        Field::Ids(v) => Value::from(v.clone()),
        Field::Labels(v) => {
            Value::Object(v.iter().map(|l| (l.0.clone(), Value::from(l.1.as_str()))).collect())
        }
    }
}

fn object(fields: &[(String, Field)]) -> Value {
    Value::Object(fields.iter().map(|f| (f.0.clone(), field_value(&f.1))).collect())
}

fn data_value(d: Data) -> Value {
    match d {
        Data::Fields(f) => object(&f),
        Data::Rows(rows) => Value::Array(rows.iter().map(|r| object(r)).collect()),
        Data::Document(s) => serde_json::from_str(&s).unwrap(),
    }
}

fn data_for(body: Body) -> Value {
    match ResponseBody::try_from_proto(AgentResponse {
        request_id: "r1".into(),
        body: Some(body),
    })
    .expect("response body")
    {
        ResponseBody::Success { data } => data_value(data),
        ResponseBody::Error { code, message } => {
            panic!("expected ok response, got {code}: {message}")
        }
    }
}

fn insert_host(streams: &mut Streams, host_id: &str, caps: &[&str]) {
    streams.insert(
        host_id.to_owned(),
        StreamHandle { caps: strings(caps), advertised_caps: strings(caps) },
    );
}

fn dispatch(host: &str, command: CommandPayload) -> DispatchEnvelope {
    DispatchEnvelope { host_id: host.into(), request_id: "r1".into(), command }
}

fn route_command(command: CommandPayload) -> Command {
    let mut streams = Streams::new();
    insert_host(
        &mut streams,
        "H",
        &[
            "images.pull",
            "images.list",
            "images.delete",
            "containers.create",
            "containers.start",
            "containers.stop",
            "containers.restart",
            "containers.delete",
            "containers.inspect",
            "containers.list",
            "containers.logs",
            "containers.exec",
            "containers.healthcheck.run",
            "ingress.apply",
            "ingress.stop",
        ],
    );
    match route_coold(&streams, dispatch("H", command)) {
        RouteOutcome::SendCoold { msg, .. } => msg.command.unwrap(),
        RouteOutcome::PushError { code, message } => {
            panic!("expected routed command, got {code}: {message}")
        }
    }
}

fn containers_create() -> CommandPayload {
    CommandPayload::ContainersCreate {
        name: "web".into(),
        image: "docker.io/library/nginx:alpine".into(),
        command: strings(&["nginx", "-g", "daemon off;"]),
        env: strings(&["APP_ENV=production"]),
        networks: strings(&["coolify-default-mesh"]),
        volumes: strings(&["/data/web:/app"]),
        ports: vec![PortMapping {
            host_ip: "127.0.0.1".into(),
            host_port: 8080,
            container_port: 80,
            protocol: "tcp".into(),
        }],
        dns: strings(&["10.210.0.1"]),
        dns_search: strings(&["default.coolify.internal"]),
        network_aliases: strings(&["coolify-v5-nginx-test"]),
        restart_policy: "unless-stopped".into(),
        privileged: false,
        network_mode: String::new(),
        capabilities: vec![],
    }
}

fn ingress_apply() -> CommandPayload {
    CommandPayload::ApplyIngress {
        kind: "caddy".into(),
        config: "example.com { respond \"ok\" }".into(),
        mesh_network: "coolify-default-mesh".into(),
        apps: vec![IngressAppConfig {
            name: "web".into(),
            config: "web.example.com { reverse_proxy web:3000 }".into(),
        }],
    }
}

#[test]
fn default_true_flag_is_on_when_unset() {
    assert!(flag_default_true(None));
}

#[test]
fn default_true_flag_only_off_for_explicit_falsy() {
    for off in ["0", "false", "FALSE", "no", "off", " off "] {
        assert!(!flag_default_true(Some(off)), "{off:?} should be off");
    }
    for on in ["1", "true", "yes", "on", "anything"] {
        assert!(flag_default_true(Some(on)), "{on:?} should be on");
    }
}

#[test]
fn defaults_flux_file_log_to_laravel_storage_logs() {
    assert_eq!(FLUX_LOG_FILE_PATH, "/var/www/html/storage/logs/flux.log");
}

#[test]
fn defaults_coold_heartbeat_timing() {
    let config = Config::new("127.0.0.1:6443".into());
    assert_eq!(config.coold_ping_interval_secs, 10);
    assert_eq!(config.coold_pong_timeout_secs, 45);
}

#[test]
fn maps_all_image_primitive_responses_to_flux_json() {
    let pull = data_for(Body::ImagesPull {
        digest: "sha256:abc".into(),
        output: "pulled".into(),
    });
    assert_eq!(pull["digest"], "sha256:abc");
    assert_eq!(pull["output"], "pulled");

    let list = data_for(Body::ImagesList {
        images: vec![ImageSummary {
            id: "image-id".into(),
            repo_tags: strings(&["docker.io/library/nginx:alpine"]),
            repo_digests: strings(&["docker.io/library/nginx@sha256:abc"]),
            size: 123,
            created: "2026-06-21T00:00:00Z".into(),
        }],
    });
    assert_eq!(list[0]["id"], "image-id");
    assert_eq!(list[0]["repo_tags"][0], "docker.io/library/nginx:alpine");
    assert_eq!(list[0]["size"], 123);

    let delete = data_for(Body::ImagesDelete { output: "deleted".into() });
    assert_eq!(delete["output"], "deleted");
}

#[test]
fn maps_all_container_primitive_responses_to_flux_json() {
    let create = data_for(Body::ContainersCreate { id: "container-id".into() });
    assert_eq!(create["id"], "container-id");

    let start = data_for(Body::ContainersStart { output: "started".into() });
    assert_eq!(start["output"], "started");

    let stop = data_for(Body::ContainersStop { output: "stopped".into() });
    assert_eq!(stop["output"], "stopped");

    let restart = data_for(Body::ContainersRestart { output: "restarted".into() });
    assert_eq!(restart["output"], "restarted");

    let delete = data_for(Body::ContainersDelete { output: "deleted".into() });
    assert_eq!(delete["output"], "deleted");

    let inspect = data_for(Body::ContainersInspect {
        json: r#"{"Id":"container-id","State":{"Status":"running"}}"#.into(),
    });
    assert_eq!(inspect["Id"], "container-id");
    assert_eq!(inspect["State"]["Status"], "running");

    let list = data_for(Body::ContainersList {
        containers: vec![ContainerSummary {
            id: "container-id".into(),
            name: "web".into(),
            image: "docker.io/library/nginx:alpine".into(),
            state: "running".into(),
            networks: strings(&["coolify-default-mesh"]),
        }],
    });
    assert_eq!(list[0]["id"], "container-id");
    assert_eq!(list[0]["name"], "web");
    assert_eq!(list[0]["networks"][0], "coolify-default-mesh");

    let logs = data_for(Body::ContainersLogs { output: "hello logs".into() });
    assert_eq!(logs["output"], "hello logs");

    let exec = data_for(Body::ContainersExec { exit_code: 0, output: "hello exec".into() });
    assert_eq!(exec["exit_code"], 0);
    assert_eq!(exec["output"], "hello exec");

    let healthcheck = data_for(Body::ContainersHealthcheckRun { output: "healthy".into() });
    assert_eq!(healthcheck["output"], "healthy");
}

#[test]
fn rejects_ipv4_unspecified_without_override() {
    let err = validate_bind(&addr("0.0.0.0:6443", "0.0.0.0"), false).unwrap_err();
    assert!(err.contains("refusing to bind"), "got: {err}");
}

#[test]
fn rejects_ipv6_unspecified_without_override() {
    let err = validate_bind(&addr("[::]:6443", "::"), false).unwrap_err();
    assert!(err.contains("refusing to bind"), "got: {err}");
}

#[test]
fn accepts_ipv4_unspecified_with_override() {
    validate_bind(&addr("0.0.0.0:6443", "0.0.0.0"), true).unwrap();
}

#[test]
fn accepts_ipv6_unspecified_with_override() {
    validate_bind(&addr("[::]:6443", "::"), true).unwrap();
}

#[test]
fn accepts_specific_ipv4_without_override() {
    validate_bind(&addr("10.42.0.1:6443", "10.42.0.1"), false).unwrap();
}

#[test]
fn accepts_loopback_without_override() {
    validate_bind(&addr("127.0.0.1:6443", "127.0.0.1"), false).unwrap();
}

#[test]
fn missing_hello_capabilities_are_degraded_not_rejected() {
    let advertised = strings(&["containers.list", "coold.logs"]);
    let jwt_caps = strings(&["containers.list"]);
    let effective = effective_capabilities(&advertised, &jwt_caps, false);
    assert_eq!(effective, vec!["containers.list"]);
}

// With the escape hatch OFF (production default), a wildcard-profile token grants NOTHING —
// the caps claim is authoritative.
#[test]
fn wildcard_profile_grants_nothing_when_flag_off() {
    let advertised = strings(&["containers.list", "coold.logs"]);
    let jwt_caps = strings(&["*"]);
    let effective = effective_capabilities(&advertised, &jwt_caps, false);
    assert!(effective.is_empty());
}

// An explicit caps list still works with the flag OFF — exactly the intersection with
// advertised is authorized.
#[test]
fn wildcard_profile_plus_explicit_caps_authorizes_only_explicit_when_flag_off() {
    let advertised = strings(&["containers.list", "coold.logs"]);
    let jwt_caps = strings(&["*", "containers.list"]);
    let effective = effective_capabilities(&advertised, &jwt_caps, false);
    assert_eq!(effective, vec!["containers.list"]);
}

// With the escape hatch ON, wildcard expands to all advertised.
#[test]
fn wildcard_profile_authorizes_all_advertised_when_flag_on() {
    let advertised = strings(&["containers.list", "coold.logs"]);
    let jwt_caps = strings(&["*"]);
    let effective = effective_capabilities(&advertised, &jwt_caps, true);
    assert_eq!(effective, advertised);
}

#[test]
fn detects_wildcard_profile_strings() {
    assert!(contains_wildcard_profile(&strings(&["*"])));
    assert!(contains_wildcard_profile(&strings(&["host-agent:dev"])));
    assert!(contains_wildcard_profile(&strings(&["host-agent:default"])));
    assert!(!contains_wildcard_profile(&strings(&["containers.list"])));
}

#[test]
fn explicitly_granted_capabilities_are_allowed() {
    let advertised = strings(&["containers.list", "ingress.apply"]);
    let jwt_caps = strings(&["containers.list", "ingress.apply"]);
    assert_eq!(
        effective_capabilities(&advertised, &jwt_caps, false),
        advertised
    );
}

#[test]
fn missing_capability_is_left_out_of_effective_capabilities() {
    let advertised = strings(&["containers.list", "ingress.apply"]);
    let jwt_caps = strings(&["containers.list"]);
    let effective = effective_capabilities(&advertised, &jwt_caps, false);
    assert_eq!(effective, vec!["containers.list"]);
    assert_eq!(
        missing_capabilities(&advertised, &effective),
        vec!["ingress.apply"]
    );
}

#[test]
fn schema_ranges_overlap_is_accepted() {
    assert!(schema_overlaps(1, 1, FLUX_SCHEMA_MIN, FLUX_SCHEMA_MAX));
    assert!(schema_overlaps(1, 3, FLUX_SCHEMA_MIN, FLUX_SCHEMA_MAX));
    assert!(schema_overlaps(0, 1, FLUX_SCHEMA_MIN, FLUX_SCHEMA_MAX));
}

#[test]
fn schema_ranges_without_overlap_are_rejected() {
    // coold only speaks schema 2+, flux caps at 1.
    assert!(!schema_overlaps(2, 3, FLUX_SCHEMA_MIN, FLUX_SCHEMA_MAX));
    // coold unset (0,0) while flux requires >= 1.
    assert!(!schema_overlaps(0, 0, FLUX_SCHEMA_MIN, FLUX_SCHEMA_MAX));
}

#[test]
fn builds_server_status_update_for_coold_liveness() {
    let update = coold_status_update("100.64.0.5", "unreachable", "coold heartbeat timed out.");
    assert_eq!(update.resource_type, "server");
    assert_eq!(update.host_id, "100.64.0.5");
    assert_eq!(update.status, "unreachable");
    assert_eq!(update.status_message, "coold heartbeat timed out.");
}

#[test]
fn serializes_status_payload_for_laravel_http() {
    let update = ResourceStatusUpdate {
        resource_type: "application".into(),
        host_id: "100.64.0.5".into(),
        container_id: "abc".into(),
        container_name: "web".into(),
        status: "running".into(),
        status_message: "Status received from coold through flux.".into(),
    };
    let payload = resource_status_payload(&update).text();
    let json: Value = serde_json::from_str(&payload).unwrap();
    assert!(payload.starts_with("{\"resource_type\":\"application\",\"host_id\":"));

    assert_eq!(json["resource_type"], "application");
    assert_eq!(json["host_id"], "100.64.0.5");
    assert_eq!(json["container_id"], "abc");
    assert_eq!(json["container_name"], "web");
    assert_eq!(json["status"], "running");
    assert_eq!(
        json["status_message"],
        "Status received from coold through flux."
    );
}

#[test]
fn route_coold_rejects_disconnected_host() {
    let streams = Streams::new();
    match route_coold(&streams, dispatch("missing", CommandPayload::ContainersList)) {
        RouteOutcome::PushError { code, message } => {
            assert_eq!(code, 404);
            assert_eq!(message, "host not connected");
        }
        other => panic!("expected PushError, got {other:?}"),
    }
}

#[test]
fn route_coold_rejects_host_missing_required_primitive_capability() {
    let mut streams = Streams::new();
    insert_host(&mut streams, "H", &["images.list"]);
    match route_coold(&streams, dispatch("H", CommandPayload::ContainersList)) {
        RouteOutcome::PushError { code, message } => {
            assert_eq!(code, 501);
            assert_eq!(
                message,
                "primitive containers.list is not supported by host"
            );
        }
        other => panic!("expected PushError, got {other:?}"),
    }
}

#[test]
fn route_coold_reports_unauthorized_capability_when_host_advertised_it() {
    let mut streams = Streams::new();
    streams.insert(
        "H".into(),
        StreamHandle {
            caps: strings(&["containers.list"]),
            advertised_caps: strings(&["containers.list", "coold.logs"]),
        },
    );
    match route_coold(&streams, dispatch("H", CommandPayload::CooldLogs { tail: 200 })) {
        RouteOutcome::PushError { code, message } => {
            assert_eq!(code, 403);
            assert_eq!(
                message,
                "capability coold.logs is not authorized for this host token"
            );
        }
        other => panic!("expected PushError, got {other:?}"),
    }
}

#[test]
fn route_coold_builds_containers_list_message() {
    let mut streams = Streams::new();
    insert_host(&mut streams, "H", &["containers.list"]);
    match route_coold(&streams, dispatch("H", CommandPayload::ContainersList)) {
        RouteOutcome::SendCoold { host_id, msg } => {
            assert_eq!(host_id, "H");
            assert!(matches!(msg.command, Some(Command::ContainersList(_))));
        }
        other => panic!("expected SendCoold, got {other:?}"),
    }
}

#[test]
fn route_coold_builds_images_list_message() {
    let mut streams = Streams::new();
    insert_host(&mut streams, "H", &["images.list"]);
    match route_coold(&streams, dispatch("H", CommandPayload::ImagesList)) {
        RouteOutcome::SendCoold { msg, .. } => {
            assert_eq!(msg.request_id, "r1");
            assert!(matches!(msg.command, Some(Command::ImagesList(_))));
        }
        other => panic!("expected SendCoold, got {other:?}"),
    }
}

#[test]
fn routes_all_image_primitives_from_dotted_json_names() {
    let pull = CommandPayload::ImagesPull { reference: "docker.io/library/nginx:alpine".into() };
    assert_eq!(pull.kind(), "images.pull");
    match route_command(pull) {
        Command::ImagesPull(r) => assert_eq!(r.reference, "docker.io/library/nginx:alpine"),
        other => panic!("{other:?}"),
    }

    assert_eq!(CommandPayload::ImagesList.kind(), "images.list");
    assert!(matches!(route_command(CommandPayload::ImagesList), Command::ImagesList(_)));

    let delete = CommandPayload::ImagesDelete {
        reference: "docker.io/library/nginx:alpine".into(),
        force: true,
    };
    assert_eq!(delete.kind(), "images.delete");
    match route_command(delete) {
        Command::ImagesDelete(r) => {
            assert_eq!(r.reference, "docker.io/library/nginx:alpine");
            assert!(r.force);
        }
        other => panic!("{other:?}"),
    }
}

#[test]
fn routes_all_container_primitives_from_dotted_json_names() {
    assert_eq!(containers_create().kind(), "containers.create");
    match route_command(containers_create()) {
        Command::ContainersCreate(r) => {
            assert_eq!(r.name, "web");
            assert_eq!(r.dns_search, vec!["default.coolify.internal"]);
            assert_eq!(r.network_aliases, vec!["coolify-v5-nginx-test"]);
            assert_eq!(r.image, "docker.io/library/nginx:alpine");
            assert_eq!(r.ports.len(), 1);
            assert_eq!(r.ports[0].container_port, 80);
        }
        other => panic!("{other:?}"),
    }

    match route_command(CommandPayload::ContainersStart { id: "abc".into() }) {
        Command::ContainersStart(r) => assert_eq!(r.id, "abc"),
        other => panic!("{other:?}"),
    }
    match route_command(CommandPayload::ContainersStop { id: "abc".into(), timeout_seconds: 3 }) {
        Command::ContainersStop(r) => assert_eq!((r.id.as_str(), r.timeout_seconds), ("abc", 3)),
        other => panic!("{other:?}"),
    }
    match route_command(CommandPayload::ContainersRestart { id: "abc".into(), timeout_seconds: 4 })
    {
        Command::ContainersRestart(r) => assert_eq!((r.id.as_str(), r.timeout_seconds), ("abc", 4)),
        other => panic!("{other:?}"),
    }
    match route_command(CommandPayload::ContainersDelete { id: "abc".into(), force: true }) {
        Command::ContainersDelete(r) => assert_eq!((r.id.as_str(), r.force), ("abc", true)),
        other => panic!("{other:?}"),
    }
    match route_command(CommandPayload::ContainersInspect { id: "abc".into() }) {
        Command::ContainersInspect(r) => assert_eq!(r.id, "abc"),
        other => panic!("{other:?}"),
    }
    assert!(matches!(
        route_command(CommandPayload::ContainersList),
        Command::ContainersList(_)
    ));
    match route_command(CommandPayload::ContainersLogs {
        id: "abc".into(),
        tail: 50,
        stdout: true,
        stderr: true,
    }) {
        Command::ContainersLogs(r) => {
            assert_eq!((r.id.as_str(), r.tail, r.stdout, r.stderr), ("abc", 50, true, true))
        }
        other => panic!("{other:?}"),
    }
    match route_command(CommandPayload::ContainersExec {
        id: "abc".into(),
        command: strings(&["echo", "ok"]),
    }) {
        Command::ContainersExec(r) => {
            assert_eq!(r.id, "abc");
            assert_eq!(r.command, ["echo", "ok"]);
        }
        other => panic!("{other:?}"),
    }
    match route_command(CommandPayload::ContainersHealthcheckRun { id: "abc".into() }) {
        Command::ContainersHealthcheckRun(r) => assert_eq!(r.id, "abc"),
        other => panic!("{other:?}"),
    }
}

#[test]
fn routes_ingress_primitives_from_dotted_json_names() {
    assert_eq!(ingress_apply().kind(), "ingress.apply");
    match route_command(ingress_apply()) {
        Command::IngressApply(r) => {
            assert_eq!(r.kind, "caddy");
            assert!(r.config.contains("example.com"));
            assert_eq!(r.apps.len(), 1);
            assert_eq!(r.apps[0].name, "web");
            assert!(r.apps[0].config.contains("reverse_proxy"));
        }
        other => panic!("{other:?}"),
    }
    let stop = CommandPayload::StopIngress { kind: "caddy".into() };
    assert_eq!(stop.kind(), "ingress.stop");
    match route_command(stop) {
        Command::IngressStop(r) => assert_eq!(r.kind, "caddy"),
        other => panic!("{other:?}"),
    }
}

#[test]
fn every_primitive_requires_its_matching_capability() {
    let id = || "abc".to_string();
    let reference = || "docker.io/library/nginx:alpine".to_string();
    let cases = vec![
        ("images.pull", CommandPayload::ImagesPull { reference: reference() }),
        ("images.list", CommandPayload::ImagesList),
        ("images.delete", CommandPayload::ImagesDelete { reference: reference(), force: false }),
        ("containers.create", containers_create()),
        ("containers.start", CommandPayload::ContainersStart { id: id() }),
        ("containers.stop", CommandPayload::ContainersStop { id: id(), timeout_seconds: 0 }),
        ("containers.restart", CommandPayload::ContainersRestart { id: id(), timeout_seconds: 0 }),
        ("containers.delete", CommandPayload::ContainersDelete { id: id(), force: false }),
        ("containers.inspect", CommandPayload::ContainersInspect { id: id() }),
        ("containers.list", CommandPayload::ContainersList),
        (
            "containers.logs",
            CommandPayload::ContainersLogs {
                id: id(),
                tail: 0,
                stdout: default_logs_stdout(),
                stderr: false,
            },
        ),
        (
            "containers.exec",
            CommandPayload::ContainersExec { id: id(), command: strings(&["echo", "ok"]) },
        ),
        ("containers.healthcheck.run", CommandPayload::ContainersHealthcheckRun { id: id() }),
        ("coold.logs", CommandPayload::CooldLogs { tail: 0 }),
        (
            "ingress.apply",
            CommandPayload::ApplyIngress {
                kind: "caddy".into(),
                config: "example.com { respond \"ok\" }".into(),
                apps: vec![],
                mesh_network: default_mesh_network(),
            },
        ),
        ("ingress.stop", CommandPayload::StopIngress { kind: "caddy".into() }),
        (
            "firewall.allow",
            CommandPayload::FirewallAllow {
                id: "rule-api-postgres".into(),
                namespace: "default".into(),
                src: "coolify-v5-nginx-a".into(),
                dst: "coolify-v5-nginx-b".into(),
                proto: "tcp".into(),
                port: 5432,
            },
        ),
        ("firewall.revoke", CommandPayload::FirewallRevoke { id: "abc123".into() }),
        ("firewall.list", CommandPayload::FirewallList { namespace: "default".into() }),
        ("firewall.reconcile", CommandPayload::FirewallReconcile),
    ];
    for (capability, command) in cases {
        let mut streams = Streams::new();
        insert_host(&mut streams, "H", &[capability]);
        assert_eq!(command.kind(), capability);
        assert!(
            matches!(
                route_coold(&streams, dispatch("H", command)),
                RouteOutcome::SendCoold { .. }
            ),
            "expected {capability} to allow dispatch"
        );
    }
}

#[test]
fn streams_are_listed_by_host() {
    let mut streams = Streams::new();
    insert_host(&mut streams, "b", &["x"]);
    insert_host(&mut streams, "a", &["y"]);
    let l = streams.snapshot();
    assert_eq!(l.len(), 2);
    assert_eq!((l[0].host_id.as_str(), l[0].caps.clone()), ("a", strings(&["y"])));
    assert!(streams.remove("a"));
    assert!(!streams.remove("a"));
    assert_eq!(streams.snapshot().len(), 1);
}

#[test]
fn answers_without_a_body_are_errors() {
    assert_eq!(response_body_type(&None), "none");
    assert_eq!(response_body_type(&Some(Body::Error { code: 1, message: String::new() })), "error");
    let error = Body::Error { code: 404, message: "no such container".into() };
    for (body, want) in [(None, (500, "empty response body")), (Some(error), (404, "no such container"))] {
        match ResponseBody::try_from_proto(AgentResponse { request_id: "r".into(), body }).unwrap() {
            ResponseBody::Error { code, message } => assert_eq!((code, message.as_str()), want),
            ResponseBody::Success { .. } => panic!("an error stays an error"),
        }
    }
}

#[test]
fn unreadable_inspections_are_kept_as_text() {
    let inspect = data_for(Body::ContainersInspect { json: "not json".into() });
    assert_eq!(inspect["raw"], "not json");
}

#[test]
fn agents_are_admitted_by_binding_and_schema() {
    let hello = |ip: &str, min: u32, max: u32| Hello {
        capabilities: strings(&["containers.list", "coold.logs"]),
        schema_min: min,
        schema_max: max,
        host_mgmt_ip: ip.into(),
        coold_version: "1".into(),
    };
    let caps = strings(&["containers.list", "*"]);
    let a = admit_stream("10.0.0.1", &caps, &hello("10.0.0.1", 1, 1), Some("10.0.0.1"), true, false)
        .unwrap();
    assert_eq!(a.binding, HostBinding::Transport);
    assert_eq!(a.effective, strings(&["containers.list"]));
    assert_eq!(a.missing, strings(&["coold.logs"]));
    assert!(a.idle_wildcard);
    let refused =
        admit_stream("10.0.0.1", &caps, &hello("10.0.0.1", 1, 1), Some("10.0.0.2"), true, false);
    assert_eq!(refused.unwrap_err(), Refusal::InvalidCredentials);
    let refused =
        admit_stream("10.0.0.1", &caps, &hello("10.0.0.1", 2, 3), Some("10.0.0.1"), true, false);
    assert_eq!(refused.unwrap_err(), Refusal::IncompatibleSchema);
    assert_eq!(
        Refusal::IncompatibleSchema.message(),
        "coold/flux schema versions are incompatible"
    );
}

#[test]
fn tokens_need_a_bearer_and_a_team() {
    assert_eq!(bearer(Some("Bearer abc")).unwrap(), "abc");
    assert_eq!(bearer(None).unwrap_err(), Refusal::InvalidCredentials);
    assert_eq!(Refusal::InvalidCredentials.status(), "UNAUTHENTICATED");
    assert_eq!(Refusal::HelloRequired.status(), "INVALID_ARGUMENT");
    assert_eq!(Refusal::IncompatibleSchema.status(), "FAILED_PRECONDITION");
    assert_eq!(bearer(Some("abc")).unwrap_err(), Refusal::InvalidCredentials);
    let jwt = |team: Option<&str>| VerifiedJwt {
        host_id: "h".into(),
        caps: vec![],
        exp: 1,
        team_id: team.map(|t| t.to_string()),
    };
    assert!(admit_token(Ok(jwt(Some("t"))), true).is_ok());
    assert!(admit_token(Ok(jwt(None)), false).is_ok());
    assert_eq!(admit_token(Ok(jwt(None)), true).unwrap_err(), Refusal::InvalidCredentials);
    assert_eq!(admit_token(Err("bad".into()), false).unwrap_err(), Refusal::InvalidCredentials);
}

#[test]
fn streams_end_with_their_token() {
    assert_eq!(on_event(StreamEvent::Expired), StreamStep::Stop(Disconnect::TokenExpired));
    assert_eq!(on_event(StreamEvent::Closed), StreamStep::Stop(Disconnect::StreamClosed));
    assert_eq!(on_event(StreamEvent::Failed), StreamStep::Stop(Disconnect::StreamError));
    assert_eq!(on_event(StreamEvent::Response), StreamStep::Deliver);
    assert_eq!(on_event(StreamEvent::Pong { restored: true }), StreamStep::Restore);
    assert_eq!(on_event(StreamEvent::Pong { restored: false }), StreamStep::Ignore);
    assert_eq!(Disconnect::TokenExpired.reason(), "token_expired");
    assert_eq!(liveness_update("h", Liveness::Restored).status, "installed");
    assert_eq!(
        liveness_update("h", Liveness::TimedOut).status_message,
        "coold heartbeat timed out."
    );
}

#[test]
fn answers_reach_only_those_who_wait() {
    let answer = || AgentResponse {
        request_id: "r".into(),
        body: Some(Body::ContainersStart { output: "up".into() }),
    };
    assert!(deliver_response(false, answer()).is_none());
    assert!(deliver_response(true, answer()).is_some());
}

#[test]
fn dispatches_are_refused_with_a_status() {
    assert_eq!(code_to_status(404), 404);
    let (status, envelope) = coold_err("r1", 404, "host not connected");
    assert_eq!(status, 404);
    assert_eq!(envelope.request_id, "r1");
    assert!(matches!(
        coold_dispatch(Stage::Note, DispatchEvent::Inserted),
        DispatchNext::Proceed(Stage::Park)
    ));
    match coold_dispatch(Stage::Send, DispatchEvent::QueueFull) {
        DispatchNext::Refuse { code, message, forget } => {
            assert_eq!((code, message, forget), (503, "host command queue full", true))
        }
        other => panic!("{other:?}"),
    }
    assert!(missing_jti(" ").is_some());
    assert!(missing_jti("a").is_none());
    assert_ne!(socket_mode(&None), socket_mode(&Some("www-data".into())));
}

#[test]
fn flags_and_paths_are_read() {
    assert!(env_flag(Some("true")));
    assert!(!env_flag(None));
    assert!(allow_public_bind(Some("1")));
    assert!(!allow_public_bind(None));
    assert_eq!(at_least_a_second(0), 1);
    assert_eq!(at_least_a_second(7), 7);
    assert_eq!(key_id("2026-q3.pub").as_deref(), Some("2026-q3"));
    assert_eq!(key_id("a.b.pub").as_deref(), Some("a.b"));
    for other in [".pub", "pub", "key.pem", ""] {
        assert_eq!(key_id(other), None, "{other:?}");
    }
    assert_eq!(tls_paths(&None, &None), None);
    assert_eq!(
        tls_paths(&Some("c".into()), &Some("k".into())),
        Some(("c".into(), "k".into()))
    );
    assert_eq!(tls_paths(&Some("c".into()), &None), None);
    assert_eq!(tls_paths(&None, &Some("k".into())), None);
}

#[test]
fn status_updates_go_to_the_configured_address() {
    let some = |s: &str| Some(s.to_string());
    let p = ResourceStatusPublisher::new(&some("http://laravel/ "), &some(" tok "));
    let (url, token) = p.target().unwrap();
    assert!(url.starts_with("http://laravel/"));
    assert!(!url.contains("//api") && !url.ends_with(' '));
    assert_eq!(token, "tok");
    assert!(ResourceStatusPublisher::new(&None, &some("tok")).target().is_none());
    assert!(ResourceStatusPublisher::new(&some("http://laravel"), &some("  ")).target().is_none());
    let e = publish_error("http://x", "500", "boom");
    assert!(e.contains("http://x") && e.contains("500") && e.contains("boom"));
}

#[test]
fn requests_wait_once_and_within_the_limit() {
    let mut p = Pending::new();
    assert_eq!(p.insert_waiting("a".into(), "h".into(), 10, 2), InsertOutcome::Inserted);
    assert_eq!(p.insert_waiting("a".into(), "h".into(), 10, 2), InsertOutcome::Duplicate);
    assert_eq!(p.insert_waiting("b".into(), "h".into(), 15, 2), InsertOutcome::Inserted);
    assert_eq!(p.insert_waiting("c".into(), "h".into(), 15, 2), InsertOutcome::AtCapacity);
    assert!(p.contains("a") && p.contains("b") && !p.contains("c"));
    assert_eq!(p.drain_expired(39, 30), Vec::<String>::new());
    assert_eq!(p.drain_expired(40, 30), vec!["a".to_string()]);
    assert!(!p.contains("a") && p.contains("b"));
    assert!(p.remove("b"));
    assert!(!p.remove("b"));
    assert_eq!(InsertOutcome::Duplicate.event(), DispatchEvent::Duplicate);
}

#[test]
fn silent_agents_are_reported_once() {
    let mut b = Heartbeats::new();
    b.connected("h".into(), 100);
    b.connected("g".into(), 130);
    assert_eq!(b.mark_stale(145, 45), Vec::<String>::new());
    assert_eq!(b.mark_stale(146, 45), vec!["h".to_string()]);
    assert_eq!(b.mark_stale(150, 45), Vec::<String>::new());
    assert!(b.touch("h", 160));
    assert!(!b.touch("h", 161));
    assert!(!b.touch("nobody", 161));
    b.disconnected("h");
    assert_eq!(b.mark_stale(1000, 45), vec!["g".to_string()]);
}

#[test]
fn requests_of_a_lost_stream_are_unavailable() {
    let mut p = Pending::new();
    p.insert_waiting("a".into(), "h".into(), 10, 9);
    p.insert_waiting("b".into(), "g".into(), 10, 9);
    p.insert_waiting("c".into(), "h".into(), 11, 9);
    assert_eq!(p.drain_host("h"), vec!["a".to_string(), "c".to_string()]);
    assert!(!p.contains("a") && p.contains("b") && !p.contains("c"));
    assert_eq!(p.drain_host("h"), Vec::<String>::new());
    match coold_dispatch(Stage::Wait, DispatchEvent::StreamDropped) {
        DispatchNext::Refuse { code, message, forget } => {
            assert_eq!((code, message, forget), (503, "host stream gone", false));
        }
        other => panic!("{other:?}"),
    }
    match coold_dispatch(Stage::Wait, DispatchEvent::SinkDropped) {
        DispatchNext::Refuse { code, .. } => assert_eq!(code, 504),
        other => panic!("{other:?}"),
    }
}

#[test]
fn rotated_tokens_are_pushed_and_answered() {
    let mut streams = Streams::new();
    insert_host(&mut streams, "H", &["host.jwt.set"]);
    let command = CommandPayload::HostJwtSet { jwt: "a.b.c".into() };
    assert_eq!(command.kind(), "host.jwt.set");
    match route_coold(&streams, dispatch("H", command)) {
        RouteOutcome::SendCoold { msg, .. } => match msg.command {
            Some(Command::HostJwtSet(req)) => assert_eq!(req.jwt, "a.b.c"),
            other => panic!("{other:?}"),
        },
        other => panic!("{other:?}"),
    }
    insert_host(&mut streams, "G", &["containers.list"]);
    let command = CommandPayload::HostJwtSet { jwt: "a.b.c".into() };
    assert!(matches!(
        route_coold(&streams, dispatch("G", command)),
        RouteOutcome::PushError { .. }
    ));
    let answer = AgentResponse { request_id: "r".into(), body: Some(Body::HostJwtSet) };
    match ResponseBody::try_from_proto(answer) {
        Some(ResponseBody::Success { data: Data::Fields(fields) }) => assert!(fields.is_empty()),
        other => panic!("{other:?}"),
    }
}

#[test]
fn flux_reports_where_it_is_told_to() {
    let mut config = Config::new("0.0.0.0:6443".into());
    assert!(RegistryClient::from_config(&config).is_none());
    config.laravel_api_url = Some("https://laravel/ ".into());
    config.laravel_api_token = Some(" tok ".into());
    config.flux_id = Some("flux-eu-1".into());
    config.flux_public_url = Some("https://flux".into());
    assert!(RegistryClient::from_config(&config).is_none());
    config.flux_internal_url = Some("http://flux".into());
    let c = RegistryClient::from_config(&config).unwrap();
    assert_eq!((c.token.as_str(), c.flux_id.as_str()), ("tok", "flux-eu-1"));
    assert_eq!(c.url(Report::Heartbeat), format!("{}/api/v1/internal/fluxs/heartbeat", c.base_url));
    assert!(c.url(Report::Connected).ends_with("/api/v1/internal/agent-connections/upsert"));
    assert!(c.url(Report::Disconnected).ends_with("/api/v1/internal/agent-connections/disconnect"));
    let up = c.connection_payload("h", vec!["a".into()], Some("1.0".into()));
    assert_eq!((up.flux_id.as_str(), up.host_id.as_str()), ("flux-eu-1", "h"));
    assert_eq!(up.capabilities, vec!["a"]);
    assert_eq!(c.disconnect_payload("h", "token_expired").reason, "token_expired");
    assert_eq!(c.heartbeat_payload(3).connected_agents_count, 3);
}

#[test]
fn answers_that_beat_their_caller_are_kept_for_a_while() {
    let mut p = Pending::new();
    for id in ["a", "b", "c"] {
        p.insert_waiting(id.into(), "h".into(), 10, 9);
    }
    assert_eq!(p.park("a"), ParkResult::Parked);
    assert_eq!(p.park("x"), ParkResult::NotFound);
    assert_eq!(p.deliver("a", 11), Delivery::ToCaller);
    assert!(!p.contains("a"));
    assert_eq!(p.deliver("a", 11), Delivery::Unknown);
    assert_eq!(p.deliver("b", 12), Delivery::Kept);
    assert_eq!(p.deliver("c", 13), Delivery::Kept);
    assert_eq!(p.drain_expired(99, 30), Vec::<String>::new());
    assert_eq!(p.drain_host("h"), Vec::<String>::new());
    assert_eq!(p.park("c"), ParkResult::AlreadyLanded);
    assert!(!p.contains("c"));
    assert_eq!(p.drain_landed(41), Vec::<String>::new());
    assert_eq!(p.drain_landed(42), vec!["b".to_string()]);
    assert!(!p.contains("b"));
    assert_eq!(ParkResult::Parked.event(), DispatchEvent::Parked);
    assert_eq!(ParkResult::AlreadyLanded.event(), DispatchEvent::Lost);
    assert_eq!(ParkResult::NotFound.event(), DispatchEvent::Lost);
}

#[test]
fn requests_go_from_stage_to_stage() {
    let way = [
        (Stage::Route, DispatchEvent::Routed, Stage::Note),
        (Stage::Note, DispatchEvent::Inserted, Stage::Park),
        (Stage::Park, DispatchEvent::Parked, Stage::Find),
        (Stage::Find, DispatchEvent::StreamFound, Stage::Send),
        (Stage::Send, DispatchEvent::Sent, Stage::Wait),
    ];
    for (stage, event, next) in way {
        match coold_dispatch(stage, event) {
            DispatchNext::Proceed(s) => assert_eq!(s, next),
            other => panic!("{other:?}"),
        }
    }
    assert!(matches!(
        coold_dispatch(Stage::Wait, DispatchEvent::Answered),
        DispatchNext::Answer
    ));
}
