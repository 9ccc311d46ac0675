//! The control plane: what is kept of servers, what the web answers, and the test harness.

use coolify::digest::sha256_hex;
use coolify::e2e::hetzner::{
    create_server, delete_key, ephemeral_ssh_args, find_key_by_pubkey, normalize_pubkey,
    labeled_items, listed_keys, read_reply, upload_key, HetznerClient, KeySearch, ListedKey,
};
use coolify::e2e::install::{
    coold_allow, inspect_after, podman_ping, run_container, scp_upload, ssh, ssh_http,
    ssh_http_command, unit_active, wg0_ip, wg_peers_handshaken, InstallEnv,
};
use coolify::e2e::{load_dotenv, log_line};
use coolify::json::json_valid;
use coolify::model::{
    now, validate_name, AppId, Build, BuildId, BuildStatus, Cluster, ClusterId, CoreError, Event,
    EventSeverity, SchedulerStream, Server, ServerId, ServerStatus, Timestamp,
};
use coolify::number::{decimal_of, parse_bounded, parse_signed, signed_decimal_of};
use coolify::scheduler::{
    registry_error, AgentConnectionPayload, Config, HeartbeatPayload, RegistryClient, Report,
};
use coolify::split;
use coolify::storage::{
    build_row, build_status_to_str, cluster_row, event_row, fmt_ts, list_limit, parse_ts,
    parse_uuid, row_build, row_cluster, row_event, row_server, server_row, severity_to_str,
    status_to_str, str_to_build_status, str_to_severity, str_to_status, BuildRow, ServerRow,
    StorageError,
};
use coolify::text;
use coolify::web::{
    container_host, healthcheck, parse_server_id, probe_request, probe_target, server_live_status,
    ApiError, Cli, Command, SchedulerError, Sync,
};

fn strings(v: &[&str]) -> Vec<String> {
    v.iter().map(|s| s.to_string()).collect()
}

fn some(s: &str) -> Option<String> {
    Some(s.to_string())
}

fn status_of(e: ApiError) -> u16 {
    e.into_response().0
}

#[test]
fn validates_empty_names() {
    assert!(matches!(
        validate_name("x", " "),
        Err(CoreError::Empty { field: "x" })
    ));
}

#[test]
fn creates_server_defaults() {
    let s = Server::new("hetzner-1", "203.0.113.10").unwrap();
    assert_eq!(s.status, ServerStatus::Unknown);
    assert_eq!(s.name, "hetzner-1");
}

#[test]
fn ids_are_uuid_v7_strings() {
    let id = ServerId::new().to_string();
    assert_eq!(id.len(), 36);
}

#[test]
fn serializes_server_timestamps_as_rfc3339_strings() {
    let mut server = Server::new("node-a", "203.0.113.10").unwrap();
    server.last_seen_at = Some(now());
    let row = server_row(&server).unwrap();
    assert!(row.created_at.contains('T'), "created_at must be a date and a time");
    assert!(row.updated_at.contains('T'), "updated_at must be a date and a time");
    assert!(
        row.last_seen_at.unwrap().contains('T'),
        "last_seen_at must be a date and a time when present"
    );
    server.last_seen_at = None;
    assert!(server_row(&server).unwrap().last_seen_at.is_none());
}

#[test]
fn names_have_a_shortest_and_a_longest() {
    assert!(validate_name("x", "a").is_ok());
    assert_eq!(
        validate_name("x", "").unwrap_err().to_string(),
        "x must not be empty"
    );
    assert!(validate_name("x", &"a".repeat(128)).is_ok());
    // The length is that of the bytes.
    assert!(validate_name("x", &"é".repeat(65)).is_err());
    match validate_name("x", &"a".repeat(129)) {
        Err(CoreError::Invalid { field, reason }) => {
            assert_eq!(field, "x");
            assert_eq!(reason, "must be at most 128 characters");
        }
        other => panic!("{other:?}"),
    }
}

#[test]
fn migrates_and_round_trips_records() {
    let mut server = Server::new("node-a", "203.0.113.10").unwrap();
    server.host_id = some("host-a");
    server.capabilities = strings(&["coold", "builder"]);
    server.last_seen_at = Some(now());
    let stored = row_server(server_row(&server).unwrap()).unwrap();
    assert_eq!(stored.name, "node-a");
    assert_eq!(stored.host_id.as_deref(), Some("host-a"));
    assert_eq!(stored.capabilities, vec!["coold", "builder"]);
    assert!(stored.last_seen_at.is_some());
    assert_eq!(stored, server);

    let cluster = Cluster::new("prod", "main cluster").unwrap();
    let stored = row_cluster(cluster_row(&cluster).unwrap()).unwrap();
    assert_eq!(stored, cluster);

    let event = Event::info("bootstrap", "created cluster").unwrap();
    let stored = row_event(event_row(&event).unwrap()).unwrap();
    assert_eq!(stored.subject, "bootstrap");
    assert_eq!(stored, event);
}

#[test]
fn instants_are_written_and_read() {
    let at = |nanos: i128, offset: i32| Timestamp { nanos, offset };
    assert_eq!(fmt_ts(at(0, 0)).unwrap(), "1970-01-01T00:00:00Z");
    assert_eq!(parse_ts("1970-01-01T00:00:01Z"), Ok(at(1_000_000_000, 0)));
    // A time keeps the offset that it is told in.
    let east = parse_ts("2026-01-02T03:04:05.5+05:30").unwrap();
    assert_eq!(east.offset, 19_800);
    assert_eq!(fmt_ts(east).unwrap(), "2026-01-02T03:04:05.5+05:30");
    let west = parse_ts("2026-01-02T03:04:05-00:30").unwrap();
    assert_eq!(fmt_ts(west).unwrap(), "2026-01-02T03:04:05-00:30");
    assert_eq!(fmt_ts(at(0, 1)), None);
    assert_eq!(fmt_ts(at(0, 90_000)), None);
    assert_eq!(now().offset, 0);
    assert!(matches!(parse_ts("yesterday"), Err(StorageError::Time(_))));
    assert_eq!(fmt_ts(at(i128::MAX, 0)), None);
    assert!(matches!(parse_uuid("x"), Err(StorageError::Uuid(_))));
    assert_eq!(
        parse_uuid("00000000-0000-0000-0000-00000000002a"),
        Ok(42)
    );
    assert_eq!(ClusterId(42).to_string(), "00000000-0000-0000-0000-00000000002a");
}

#[test]
fn rows_that_cannot_be_read_are_errors() {
    let good = ServerRow {
        id: ServerId(1).to_string(),
        name: "n".into(),
        address: "a".into(),
        mgmt_ip: None,
        status: "online".into(),
        coold_version: None,
        host_id: None,
        capabilities: "[]".into(),
        last_seen_at: None,
        created_at: "1970-01-01T00:00:00Z".into(),
        updated_at: "1970-01-01T00:00:00Z".into(),
    };
    assert_eq!(row_server(good.clone()).unwrap().status, ServerStatus::Online);
    assert!(row_server(ServerRow { id: "x".into(), ..good.clone() }).is_err());
    assert!(row_server(ServerRow { created_at: "x".into(), ..good.clone() }).is_err());
    let odd = row_server(ServerRow { capabilities: "x".into(), ..good }).unwrap();
    assert!(odd.capabilities.is_empty());
    let row = BuildRow {
        id: ServerId(7).to_string(),
        app_id: None,
        server_id: None,
        status: "running".into(),
        image_ref: None,
        message: "m".into(),
        created_at: "1970-01-01T00:00:00Z".into(),
        updated_at: "1970-01-01T00:00:00Z".into(),
    };
    assert!(row_build(BuildRow { updated_at: "x".into(), ..row.clone() }).is_err());
    let b = row_build(row).unwrap();
    assert_eq!(b.status, BuildStatus::Running);
}

#[test]
fn statuses_survive_storage() {
    for s in [
        ServerStatus::Unknown,
        ServerStatus::Provisioning,
        ServerStatus::Online,
        ServerStatus::Offline,
        ServerStatus::Error,
    ] {
        assert_eq!(str_to_status(status_to_str(s)), s);
    }
    for s in [EventSeverity::Info, EventSeverity::Warning, EventSeverity::Error] {
        assert_eq!(str_to_severity(severity_to_str(s)), s);
    }
    for s in [
        BuildStatus::Queued,
        BuildStatus::Running,
        BuildStatus::Succeeded,
        BuildStatus::Failed,
        BuildStatus::Cancelled,
    ] {
        assert_eq!(str_to_build_status(build_status_to_str(s)), s);
    }
    assert_eq!(str_to_status("gone"), ServerStatus::Unknown);
    assert_eq!(list_limit(7), 7);
    assert_eq!(list_limit(100_000), 500);
}

#[test]
fn sync_streams_creates_and_updates_servers() {
    let stream = |host: &str| SchedulerStream {
        host_id: host.into(),
        caps: strings(&["coold", "builder"]),
        builder_capacity: 2,
    };
    let mut sync = Sync::start();
    let at = |nanos: i128| Timestamp { nanos, offset: 0 };
    let made = sync.step(None, stream("host-new"), ServerId(5), at(9)).unwrap();
    assert_eq!(made.id, ServerId(5));
    assert_eq!(made.name, "host-new");
    assert_eq!(made.host_id.as_deref(), Some("host-new"));
    assert_eq!(made.status, ServerStatus::Online);
    assert_eq!(made.last_seen_at, Some(at(9)));
    let known = Server::new("node-a", "203.0.113.10").unwrap();
    let id = known.id;
    let seen = sync.step(Some(known), stream("host-a"), ServerId(6), at(10)).unwrap();
    assert_eq!((seen.id, seen.name.as_str()), (id, "node-a"));
    assert_eq!(seen.capabilities, vec!["coold", "builder"]);
    assert_eq!(status_of(sync.step(None, stream(" "), ServerId(7), at(11)).unwrap_err()), 400);
    let (result, note) = sync.finish();
    assert_eq!((result.created, result.updated), (1, 1));
    assert_eq!(result.server_ids, vec![ServerId(5), id]);
    assert_eq!(note, "synced scheduler streams: created=1 updated=1");
}

#[test]
fn containers_missing_host_id_is_conflict() {
    let mut server = Server::new("node-a", "203.0.113.10").unwrap();
    assert_eq!(status_of(container_host(&server).unwrap_err()), 409);
    server.host_id = some("");
    assert_eq!(status_of(container_host(&server).unwrap_err()), 409);
    server.host_id = some("host-a");
    assert_eq!(container_host(&server).unwrap(), "host-a");
    let live = server_live_status(server.clone(), true);
    assert!(live.reachable && live.server_id == server.id);
    assert!(!server_live_status(server, false).reachable);
}

#[test]
fn containers_maps_scheduler_404_to_host_offline() {
    let e = ApiError::from(SchedulerError::HostNotConnected);
    assert_eq!(e.into_response(), (404, "host not connected".to_string()));
}

#[test]
fn containers_timeout_is_504() {
    assert_eq!(status_of(ApiError::from(SchedulerError::Timeout)), 504);
}

#[test]
fn malformed_scheduler_response_is_502() {
    assert_eq!(status_of(ApiError::from(SchedulerError::Malformed("bad".into()))), 502);
    assert_eq!(status_of(ApiError::from(SchedulerError::Json("bad".into()))), 502);
    assert_eq!(status_of(ApiError::from(SchedulerError::Io("bad".into()))), 502);
}

#[test]
fn other_failures_have_their_status() {
    assert_eq!(status_of(ApiError::from(StorageError::NotFound)), 404);
    assert_eq!(
        ApiError::from(StorageError::Sqlx("locked".into())).into_response(),
        (500, "locked".to_string())
    );
    assert_eq!(status_of(ApiError::from(SchedulerError::NotConfigured)), 503);
    let odd = |status: u16| SchedulerError::Scheduler { status, message: "m".into() };
    assert_eq!(status_of(ApiError::from(odd(418))), 418);
    assert_eq!(status_of(ApiError::from(odd(7))), 502);
    assert_eq!(status_of(ApiError::BadRequest("b".into())), 400);
    assert_eq!(
        parse_server_id("nope").unwrap_err().into_response(),
        (400, "invalid server id".to_string())
    );
    let id = ServerId::new();
    assert_eq!(parse_server_id(&id.to_string()).unwrap(), id);
}

#[test]
fn probes_are_made_and_judged() {
    assert_eq!(
        probe_target("http://127.0.0.1:8000/healthz").unwrap(),
        ("127.0.0.1:8000".to_string(), "/healthz".to_string())
    );
    assert_eq!(probe_target("http://h").unwrap().1, "/");
    assert!(probe_target("https://h/").is_err());
    assert_eq!(
        probe_request("h", "/x"),
        "GET /x HTTP/1.1\r\nHost: h\r\nConnection: close\r\n\r\n"
    );
    assert!(healthcheck("u", "HTTP/1.1 200 OK\r\n\r\nok").is_ok());
    assert!(healthcheck("u", "").unwrap_err().contains("unhealthy response from u"));
    assert!(matches!(Cli { debug: false, command: None }.chosen(), Command::Serve));
}

#[test]
fn heartbeat_payload_includes_scheduler_identity_and_capacity() {
    let payload = HeartbeatPayload::new(
        "sched-eu-1",
        "https://sched-eu-1.agent.coolify.io",
        "http://sched-eu-1.internal:6444",
        Some("eu"),
        10_000,
        42,
    );
    assert_eq!(payload.scheduler_id, "sched-eu-1");
    assert_eq!(payload.public_url, "https://sched-eu-1.agent.coolify.io");
    assert_eq!(payload.internal_url, "http://sched-eu-1.internal:6444");
    assert_eq!(payload.region.as_deref(), Some("eu"));
    assert_eq!(payload.capacity, 10_000);
    assert_eq!(payload.connected_agents_count, 42);
}

#[test]
fn connection_payload_carries_stream_ownership() {
    let payload = AgentConnectionPayload::connected(
        "sched-eu-1",
        "100.64.0.5",
        strings(&["coold", "builder"]),
        2,
        some("0.1.0"),
    );
    assert_eq!(payload.scheduler_id, "sched-eu-1");
    assert_eq!(payload.host_id, "100.64.0.5");
    assert_eq!(payload.capabilities, vec!["coold", "builder"]);
    assert_eq!(payload.builder_capacity, 2);
    assert_eq!(payload.coold_version.as_deref(), Some("0.1.0"));
}

#[test]
fn registries_need_every_part_of_their_configuration() {
    let mut c = Config::new("127.0.0.1:6443".into());
    assert_eq!(c.pending_max, 10_000);
    assert!(RegistryClient::from_config(&c).is_none());
    c.laravel_api_url = some("http://laravel/");
    c.laravel_api_token = some(" tok ");
    c.scheduler_id = some("s1");
    c.scheduler_public_url = some("http://p");
    assert!(RegistryClient::from_config(&c).is_none());
    c.scheduler_internal_url = some("http://i");
    let r = RegistryClient::from_config(&c).unwrap();
    assert_eq!((r.base_url.as_str(), r.token.as_str()), ("http://laravel", "tok"));
    assert_eq!(
        r.url(Report::Heartbeat),
        "http://laravel/api/v1/internal/schedulers/heartbeat"
    );
    assert_eq!(r.heartbeat_payload(3).connected_agents_count, 3);
    assert_eq!(r.connection_payload("h", vec![], 1, None).scheduler_id, "s1");
    assert_eq!(r.disconnect_payload("h", "gone").reason, "gone");
    assert_eq!(registry_error("u", "500", "b"), "Laravel registry u returned 500: b");
}

#[test]
fn dotenv_files_are_read() {
    let got = load_dotenv("# c\n\nA=1\n B = \"two\" \nno\nC='3'=x\n");
    assert_eq!(
        got,
        vec![
            ("A".to_string(), "1".to_string()),
            ("B".to_string(), "two".to_string()),
            ("C".to_string(), "3'=x".to_string()),
        ]
    );
    assert_eq!(log_line("", "m"), "m");
    assert_eq!(log_line("t", "m"), "[t] m");
}

#[test]
fn harness_replies_are_read() {
    assert_eq!(ssh_http("{\"ok\":true}\n__CODE__200__"), Ok((200, "{\"ok\":true}".to_string())));
    assert!(ssh_http("no marker").unwrap_err().contains("missing __CODE__ marker"));
    assert!(ssh_http("__CODE__abc__").unwrap_err().contains("parse http code"));
    assert!(ssh_http_command("POST", "http://h", Some("{}")).contains("--data '{}'"));
    assert!(wg_peers_handshaken(Ok("k1 17\nk2 9\n")));
    assert!(!wg_peers_handshaken(Ok("k1 17\nk2 0\n")));
    assert!(!wg_peers_handshaken(Ok("")));
    assert!(!wg_peers_handshaken(Err("down")));
    assert_eq!(wg0_ip("100.64.0.1\n"), "100.64.0.1");
    assert!(unit_active(Ok("active\n")));
    assert!(!unit_active(Ok("inactive\n")));
    assert!(podman_ping(Ok("Y\n")));
    assert_eq!(coold_allow(" {\"id\":\"abc\"} "), Ok("abc".to_string()));
    assert!(coold_allow("{}").unwrap_err().contains("no id in allow response"));
    assert!(coold_allow("x").unwrap_err().contains("parse allow response"));
    assert_eq!(ssh("h", true, Some(0), "out".into(), ""), Ok("out".to_string()));
    assert!(ssh("h", false, Some(3), String::new(), " bad ").unwrap_err().contains("bad"));
    assert!(scp_upload("l", "h", "r", false, Some(1), "no").unwrap_err().contains("l -> h:r"));
    assert!(InstallEnv::from_env(None, None, None).is_err());
    let env = InstallEnv::from_env(some("k"), some("a"), some("b")).unwrap();
    assert_eq!(env.ssh_key, "k");
}

#[test]
fn cloud_keys_are_found_page_by_page() {
    assert_eq!(normalize_pubkey(" ssh-ed25519  AAAA me@here\n"), "ssh-ed25519 AAAA");
    assert_eq!(normalize_pubkey(" odd "), "odd");
    let key = |k: &str, id: u64| ListedKey { public_key: some(k), id: Some(id) };
    let page = vec![key("ssh-ed25519 AAAA x", 1), key("ssh-ed25519 BBBB y", 2)];
    assert!(matches!(
        find_key_by_pubkey(&page, "ssh-ed25519 BBBB", 1, 3),
        KeySearch::Done(Some(2))
    ));
    assert!(matches!(find_key_by_pubkey(&page, "ssh-ed25519 CCCC", 1, 3), KeySearch::Page(2)));
    assert!(matches!(find_key_by_pubkey(&page, "ssh-ed25519 CCCC", 3, 3), KeySearch::Done(None)));
    assert!(matches!(find_key_by_pubkey(&vec![], "ssh-ed25519 CCCC", 1, 3), KeySearch::Done(None)));
}

#[test]
fn cloud_requests_and_replies() {
    assert!(HetznerClient::from_env(None, None).is_err());
    let c = HetznerClient::from_env(some("SECRET"), some("p")).unwrap();
    let args = c.curl("POST", "/servers", Some("{}"));
    assert!(args.iter().any(|a| a == "POST"));
    assert!(args.iter().any(|a| a.ends_with("/servers")));
    let body: serde_json::Value =
        serde_json::from_str(&c.create_server_body("n", 5, "img", "cx22", "fsn1")).unwrap();
    assert_eq!(body["name"], "n");
    assert_eq!(body["ssh_keys"][0], 5);
    let body: serde_json::Value = serde_json::from_str(&c.upload_key_body("ssh-x", "k")).unwrap();
    assert_eq!(body["public_key"], "ssh-x");
    assert_eq!(upload_key("{\"ssh_key\":{\"id\":9}}"), Ok(9));
    assert!(upload_key("{}").is_err());
    let s = create_server(
        "n",
        "{\"server\":{\"id\":4,\"public_net\":{\"ipv4\":{\"ip\":\"1.2.3.4\"}}}}",
    )
    .unwrap();
    assert_eq!((s.id, s.ipv4.as_str()), (4, "1.2.3.4"));
    assert!(create_server("n", "{}").is_err());
    assert!(read_reply("GET", "/x", "oops").is_err());
    assert_eq!(delete_key(7), "/ssh_keys/7");
    assert!(ephemeral_ssh_args("key").iter().any(|a| a == "key"));
}

#[test]
fn digests_and_documents() {
    assert_eq!(
        sha256_hex("abc"),
        "ba7816bf8f01cfea414140de5dae2223b00361a396177a9cb410ff61f20015ad"
    );
    assert!(json_valid("{\"a\":[1]}"));
    assert!(!json_valid("{"));
}

#[test]
fn spaces_are_those_of_unicode() {
    for c in (0..=0x10FFFFu32).filter_map(char::from_u32) {
        assert_eq!(split::space(c), c.is_whitespace(), "{c:?}");
    }
    assert_eq!(split::trim("\u{3000} a b \n"), "a b");
    assert!(split::blank(" \t"));
}

#[test]
fn texts_are_taken_apart() {
    assert_eq!(split::lines("a\r\nb\n\nc"), "a\r\nb\n\nc".lines().collect::<Vec<_>>());
    assert_eq!(split::words(" a  b\n"), vec!["a", "b"]);
    assert_eq!(split::split("a||b", '|'), vec!["a", "", "b"]);
    assert_eq!(split::join(&strings(&["a", "b"]), ", "), "a, b");
    assert_eq!(text::split_once("a=b=c", '='), Some(("a".into(), "b=c".into())));
    assert_eq!(text::rsplit_once("a=b=c", '='), Some(("a=b".into(), "c".into())));
    assert_eq!(text::strip_prefix("abc", "ab").as_deref(), Some("c"));
    assert_eq!(text::strip_suffix("abc", "bc").as_deref(), Some("a"));
    assert_eq!(text::replace("a/b", '/', "--"), "a--b");
    assert!(text::contains("abc", "bc") && !text::contains("abc", "cb"));
    assert!(text::ends_with("abc", "c") && !text::ends_with("abc", "b"));
    assert_eq!(text::quote_list(&strings(&["a", "b\""])), format!("{:?}", vec!["a", "b\""]));
}

#[test]
fn numbers_are_read_and_written() {
    assert_eq!(decimal_of(0), "0");
    assert_eq!(decimal_of(u64::MAX), u64::MAX.to_string());
    assert_eq!(signed_decimal_of(i64::MIN), i64::MIN.to_string());
    assert_eq!(parse_bounded("+65535", 65_535), Some(65_535));
    for bad in ["", "+", "-1", "65536", "1 ", "0x1"] {
        assert_eq!(parse_bounded(bad, 65_535), None, "{bad:?}");
    }
    assert_eq!(parse_signed("-7"), Some(-7));
    assert_eq!(parse_signed(&i64::MIN.to_string()), Some(i64::MIN));
    assert_eq!(parse_signed("9223372036854775808"), None);
}

#[test]
fn builds_are_read_back_without_their_source() {
    let at = parse_ts("2026-01-02T03:04:05+02:00").unwrap();
    let build = Build {
        id: BuildId(1),
        app_id: Some(AppId(2)),
        server_id: Some(ServerId(3)),
        status: BuildStatus::Failed,
        image_ref: some("img"),
        message: "m".into(),
        created_at: at,
        updated_at: at,
    };
    let row = build_row(&build).unwrap();
    assert_eq!(row.app_id.as_deref(), Some("00000000-0000-0000-0000-000000000002"));
    assert_eq!(row.created_at, "2026-01-02T03:04:05+02:00");
    let stored = row_build(row).unwrap();
    assert_eq!(stored, Build { app_id: None, server_id: None, ..build });
}

#[test]
fn containers_are_inspected_once_they_run() {
    assert_eq!(inspect_after(Err("no"), "net", "c"), None);
    let command = inspect_after(Ok(""), "net", "c").unwrap();
    assert_eq!(
        command,
        "podman inspect -f '{{(index .NetworkSettings.Networks \"net\").IPAddress}}' c"
    );
    assert_eq!(run_container(Ok(""), Ok(" 10.0.0.2\n")), "10.0.0.2");
}

#[test]
fn pages_of_keys_are_read() {
    let reply = "{\"ssh_keys\":[{\"id\":7,\"public_key\":\"ssh-rsa A\"},{\"name\":\"n\"}],\"meta\":{\"pagination\":{\"last_page\":3}}}";
    let (keys, last) = listed_keys(reply);
    assert_eq!(last, 3);
    assert_eq!(keys.len(), 2);
    assert_eq!((keys[0].public_key.as_deref(), keys[0].id), (Some("ssh-rsa A"), Some(7)));
    assert_eq!((keys[1].public_key.as_deref(), keys[1].id), (None, None));
    for odd in ["", "{}", "{\"ssh_keys\":3}"] {
        let (keys, last) = listed_keys(odd);
        assert!(keys.is_empty() && last == 1);
    }
    assert_eq!(labeled_items("{\"servers\":[{\"id\": 1}, 2]}", "servers"), vec!["{\"id\":1}", "2"]);
    assert!(labeled_items("{\"servers\":[]}", "volumes").is_empty());
}

#[test]
fn replies_are_quoted_as_documents() {
    assert_eq!(upload_key("").unwrap_err(), "no ssh_key.id in response: null");
    assert_eq!(
        upload_key("{ \"b\": 1,  \"a\": [ ] }").unwrap_err(),
        "no ssh_key.id in response: {\"a\":[],\"b\":1}"
    );
    assert_eq!(create_server("n", " {} ").unwrap_err(), "no server.id in response: {}");
    assert_eq!(
        create_server("n", "{\"server\": {\"id\": 3}}").unwrap_err(),
        "no public_net.ipv4.ip in response: {\"server\":{\"id\":3}}"
    );
}
