//! What is answered, what is stored, and what is known of a server.

use vstd::prelude::*;
use crate::cli::script_laws::{stands_first, stands_last};
use crate::cooldctl::output;
use crate::model;
use crate::model::{BuildStatus, CoreErrorView, EventSeverity, ServerId, ServerStatus, ServerView, Timestamp};
use crate::split;
use crate::storage;
use crate::storage::{ServerRow, StorageError};
use crate::text;
use crate::web;
use crate::web::{ApiError, SchedulerError};

verus! {

/// A failed request is answered with what went wrong: 404 for what is not there, 400 for what makes
/// no sense, 409 for a conflict, 503 without a scheduler, 504 where it did not answer in time, 502
/// where its answer is not understood, 500 where the storage failed, and with the scheduler's own
/// status where it gave one. The message is the one that the failure came with.
pub proof fn failures_are_answered_as_they_are(e: ApiError)
    ensures
        ({
            let a = web::answer_of(e);
            match e {
                ApiError::Storage(s) => {
                    &&& s is NotFound ==> a.0 == 404
                    &&& !(s is NotFound) ==> a.0 == 500
                    &&& s matches StorageError::Sqlx(m) ==> a.1 == m@
                    &&& s matches StorageError::Time(m) ==> a.1 == m@
                    &&& s matches StorageError::Uuid(m) ==> a.1 == m@
                },
                ApiError::Scheduler(s) => {
                    &&& s is NotConfigured ==> a.0 == 503
                    &&& s is HostNotConnected ==> a.0 == 404
                    &&& s is Timeout ==> a.0 == 504
                    &&& s matches SchedulerError::Scheduler { status, message } ==> a.1 == message@
                        && (100 <= status <= 999 ==> a.0 == status) && (!(100 <= status <= 999)
                        ==> a.0 == 502)
                    &&& s matches SchedulerError::Malformed(m) ==> a == (502u16, m@)
                    &&& s matches SchedulerError::Io(m) ==> a == (502u16, m@)
                    &&& s matches SchedulerError::Json(m) ==> a == (502u16, m@)
                },
                ApiError::BadRequest(m) => a == (400u16, m@),
                ApiError::Conflict(m) => a == (409u16, m@),
            }
        }),
{
}

/// A server that has a stream is online as of now with the capabilities of the stream; its id, its
/// name, its addresses, its host and when it was made stay.
pub proof fn streams_refresh_their_servers(s: ServerView, caps: Seq<Seq<char>>, at: Timestamp)
    ensures
        web::seen(s, caps, at).status == ServerStatus::Online,
        web::seen(s, caps, at).capabilities == caps,
        web::seen(s, caps, at).last_seen_at == Some(at),
        web::seen(s, caps, at).updated_at == at,
        web::seen(s, caps, at).id == s.id,
        web::seen(s, caps, at).name == s.name,
        web::seen(s, caps, at).address == s.address,
        web::seen(s, caps, at).mgmt_ip == s.mgmt_ip,
        web::seen(s, caps, at).coold_version == s.coold_version,
        web::seen(s, caps, at).host_id == s.host_id,
        web::seen(s, caps, at).created_at == s.created_at,
{
}

/// A server that is found by its stream is named and reached by its host; one that is made is as
/// its name and address say, and nothing else is known of it.
pub proof fn servers_are_made_of_what_is_known(
    id: ServerId,
    name: Seq<char>,
    address: Seq<char>,
    at: Timestamp,
)
    ensures
        ({
            let f = web::found(id, name, at);
            f.id == id && f.host_id == Some(name) && f.name == name && f.address == name
                && f.created_at == at
        }),
        ({
            let n = model::new_server(id, name, address, at);
            &&& n.id == id && n.name == name && n.address == address
            &&& n.status == ServerStatus::Unknown && n.host_id is None && n.mgmt_ip is None
            &&& n.coold_version is None && n.capabilities.len() == 0 && n.last_seen_at is None
            &&& n.created_at == at && n.updated_at == at
        }),
{
}

/// A name is accepted if and only if it is not blank and its bytes without the white space around
/// it are at most 128; which of the two is wrong is told with the field.
pub proof fn names_are_short_and_not_blank(field: Seq<char>, value: Seq<char>)
    ensures
        model::name_error(field, value) is None <==> !split::is_blank(value) && output::byte_len(
            split::trimmed(value),
        ) <= 128,
        split::is_blank(value) ==> model::name_error(field, value) == Some(
            CoreErrorView::Empty(field),
        ),
        !split::is_blank(value) && output::byte_len(split::trimmed(value)) > 128 ==> (
        model::name_error(field, value) matches Some(CoreErrorView::Invalid(f, _)) && f == field),
{
}

/// A server is accepted if and only if both its name and its address are.
pub proof fn servers_need_a_name_and_an_address(name: Seq<char>, address: Seq<char>)
    ensures
        model::server_error(name, address) is None <==> model::name_error("server.name"@, name)
            is None && model::name_error("server.address"@, address) is None,
{
}

/// A server has a host where it names one that is not empty.
pub proof fn hosts_are_not_empty(host: Seq<char>)
    ensures
        web::has_host(Some(host)) <==> host.len() > 0,
        !web::has_host(None),
{
}

/// The states are stored under their own names.
pub proof fn states_are_stored_under_their_names()
    ensures
        storage::status_label(ServerStatus::Unknown) == "unknown"@,
        storage::status_label(ServerStatus::Provisioning) == "provisioning"@,
        storage::status_label(ServerStatus::Online) == "online"@,
        storage::status_label(ServerStatus::Offline) == "offline"@,
        storage::status_label(ServerStatus::Error) == "error"@,
        storage::severity_label(EventSeverity::Info) == "info"@,
        storage::severity_label(EventSeverity::Warning) == "warning"@,
        storage::severity_label(EventSeverity::Error) == "error"@,
        storage::build_label(BuildStatus::Queued) == "queued"@,
        storage::build_label(BuildStatus::Running) == "running"@,
        storage::build_label(BuildStatus::Succeeded) == "succeeded"@,
        storage::build_label(BuildStatus::Failed) == "failed"@,
        storage::build_label(BuildStatus::Cancelled) == "cancelled"@,
{
}

/// What is stored of a state that has no name of its own stands for the state that claims least.
pub proof fn unknown_names_claim_nothing(s: Seq<char>)
    ensures
        s != "provisioning"@ && s != "online"@ && s != "offline"@ && s != "error"@
            ==> storage::status_label_parsed(s) == ServerStatus::Unknown,
        s != "warning"@ && s != "error"@ ==> storage::severity_label_parsed(s)
            == EventSeverity::Info,
        s != "running"@ && s != "succeeded"@ && s != "failed"@ && s != "cancelled"@
            ==> storage::build_label_parsed(s) == BuildStatus::Queued,
{
}

/// A server is stored with each of its values under the name of that value, and read back from
/// there.
pub proof fn servers_are_stored_by_their_columns(row: ServerRow, s: ServerView)
    requires
        storage::is_row_of(row, s),
    ensures
        row.name@ == s.name,
        row.address@ == s.address,
        text::opt_view(row.mgmt_ip) == s.mgmt_ip,
        text::opt_view(row.coold_version) == s.coold_version,
        text::opt_view(row.host_id) == s.host_id,
        storage::time_text(s.created_at) == Some(row.created_at@),
        storage::time_text(s.updated_at) == Some(row.updated_at@),
        s.last_seen_at is Some <==> row.last_seen_at is Some,
        storage::server_of(row).name == s.name,
        storage::server_of(row).address == s.address,
        storage::server_of(row).mgmt_ip == s.mgmt_ip,
        storage::server_of(row).coold_version == s.coold_version,
        storage::server_of(row).host_id == s.host_id,
        storage::server_of(row).status == s.status,
{
    storage::server_status_survives(s.status);
}

/// A health check goes to the host and the path that its address names: the address is the scheme,
/// the host and the path, or has no path, which stands for the root.
pub proof fn probes_go_where_their_address_says(url: Seq<char>)
    ensures
        match web::probe_parts(url) {
            Ok((host, path)) => {
                &&& url == "http://"@ + host + path || (url == "http://"@ + host && path == "/"@)
                &&& path.len() > 0 && path[0] == '/'
                &&& !host.contains('/')
            },
            Err(_) => !text::has_prefix(url, "http://"@),
        },
{
    reveal_strlit("/");
    match text::strip_prefix_spec(url, "http://"@) {
        None => {},
        Some(rest) => {
            assert(url =~= "http://"@ + rest);
            text::find_char_props(rest, '/');
            let i = text::find_char(rest, '/');
            if i < rest.len() {
                let path = "/"@ + rest.skip(i + 1);
                assert(rest =~= rest.take(i) + path);
                assert("http://"@ + rest =~= "http://"@ + rest.take(i) + path);
                assert forall|k: int| 0 <= k < i implies rest.take(i)[k] != '/' by {
                    assert(rest[k] != '/');
                }
            } else {
                assert forall|k: int| 0 <= k < rest.len() implies rest[k] != '/' by {}
            }
        },
    }
}

/// A cluster, an event and a build are stored with each of their values under the name of that
/// value.
pub proof fn records_are_stored_by_their_columns(
    cr: storage::ClusterRow,
    c: model::Cluster,
    er: storage::EventRow,
    e: model::Event,
    br: storage::BuildRow,
    b: model::Build,
)
    requires
        storage::is_cluster_row_of(cr, c),
        storage::is_event_row_of(er, e),
        storage::is_build_row_of(br, b),
    ensures
        cr.id@ == model::uuid_text(c.id.0),
        cr.name@ == c.name@,
        cr.description@ == c.description@,
        storage::time_text(c.created_at) == Some(cr.created_at@),
        storage::time_text(c.updated_at) == Some(cr.updated_at@),
        er.id@ == model::uuid_text(e.id.0),
        er.severity@ == storage::severity_label(e.severity),
        er.subject@ == e.subject@,
        er.message@ == e.message@,
        storage::time_text(e.created_at) == Some(er.created_at@),
        br.id@ == model::uuid_text(b.id.0),
        b.app_id matches Some(id) ==> br.app_id is Some && br.app_id->Some_0@ == model::uuid_text(
            id.0,
        ),
        b.server_id matches Some(id) ==> br.server_id is Some && br.server_id->Some_0@
            == model::uuid_text(id.0),
        br.status@ == storage::build_label(b.status),
        text::opt_view(br.image_ref) == text::opt_view(b.image_ref),
        br.message@ == b.message@,
        storage::time_text(b.created_at) == Some(br.created_at@),
        storage::time_text(b.updated_at) == Some(br.updated_at@),
{
}

/// A row is read if and only if its id and each of its times can be read.
pub proof fn rows_are_read_where_they_make_sense(
    id: Seq<char>,
    seen: Option<Seq<char>>,
    created: Seq<char>,
    updated: Option<Seq<char>>,
)
    ensures
        storage::row_error(id, seen, created, updated) is None <==> model::uuid_parsed(id) is Ok
            && storage::rfc3339_parsed(created) is Ok && (seen matches Some(s)
            ==> storage::rfc3339_parsed(s) is Ok) && (updated matches Some(u)
            ==> storage::rfc3339_parsed(u) is Ok),
        model::uuid_parsed(id) is Err ==> (storage::row_error(id, seen, created, updated) matches Some(
            (true, _),
        )),
        model::uuid_parsed(id) is Ok ==> !(storage::row_error(id, seen, created, updated) matches Some(
            (true, _),
        )),
{
}

/// A health check asks the host for the path, and for nothing after it.
pub proof fn probes_ask_for_their_path(host: Seq<char>, path: Seq<char>)
    ensures
        text::has_prefix(
            web::probe_request_text(host, path),
            "GET "@ + path + " HTTP/1.1\r\nHost: "@ + host,
        ),
        text::has_suffix(web::probe_request_text(host, path), "\r\nConnection: close\r\n\r\n"@),
{
    let a = "GET "@ + path + " HTTP/1.1\r\nHost: "@ + host;
    let b = "\r\nConnection: close\r\n\r\n"@;
    assert(web::probe_request_text(host, path) =~= a + b);
    stands_first(a, b);
    stands_last(a, b);
}

} // verus!
