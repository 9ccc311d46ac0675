//! How records are kept: as rows of texts.

use vstd::prelude::*;
use vstd::string::StringExecFns;
use crate::json;
use crate::model;
use crate::model::{Build, BuildId, BuildStatus, Cluster, ClusterId, Event, EventId, EventSeverity, Server, ServerId, ServerStatus, ServerView, Timestamp};
use crate::text;

verus! {

/// Why a record could not be kept or found. A database, a time or an id that fails says why.
#[derive(Clone, Debug, PartialEq, Eq)]
pub enum StorageError {
    NotFound,
    Sqlx(String),
    Time(String),
    Uuid(String),
}

/// What a `StorageError` says.
pub open spec fn storage_text(e: StorageError) -> Seq<char> {
    match e {
        StorageError::NotFound => "not found"@,
        StorageError::Sqlx(s) => s@,
        StorageError::Time(s) => s@,
        StorageError::Uuid(s) => s@,
    }
}

impl StorageError {
    /// What is said of the error.
    pub fn to_string(&self) -> (r: String)
        ensures
            r@ == storage_text(*self),
    {
        match self {
            StorageError::NotFound => "not found".to_owned(),
            StorageError::Sqlx(s) => s.clone(),
            StorageError::Time(s) => s.clone(),
            StorageError::Uuid(s) => s.clone(),
        }
    }
}

/// How many records of a list are given at most.
pub fn list_limit(limit: u32) -> (r: u32)
    ensures
        r == (if limit < 500 {
            limit
        } else {
            500
        }),
{
    if limit < 500 {
        limit
    } else {
        500
    }
}

/// A time as RFC 3339 writes it, where it can: the nanoseconds since 1970, told by a clock
/// that is so many seconds ahead of UTC.
pub uninterp spec fn rfc3339(nanos: i128, offset: i32) -> Option<Seq<char>>;

/// A time as RFC 3339 writes it, where it can.
pub open spec fn time_text(at: Timestamp) -> Option<Seq<char>> {
    rfc3339(at.nanos, at.offset)
}

/// `time::OffsetDateTime::format` with `Rfc3339`, of the time that is so many nanoseconds
/// after 1970, in the given offset from UTC.
#[verifier::external_body]
fn format_time(nanos: i128, offset: i32) -> (r: Option<String>)
    ensures
        text::opt_view(r) == rfc3339(nanos, offset),
{
    let offset = time::UtcOffset::from_whole_seconds(offset).ok()?;
    let at = time::OffsetDateTime::from_unix_timestamp_nanos(nanos).ok()?;
    let at = at.checked_to_offset(offset)?;
    at.format(&time::format_description::well_known::Rfc3339).ok()
}

/// The time in a text, or what is wrong with the text: the nanoseconds since 1970 and the
/// offset from UTC in seconds.
pub uninterp spec fn rfc3339_parsed(s: Seq<char>) -> Result<(i128, i32), Seq<char>>;

/// Whether `at` is the time that `s` is written for, if it is written for any.
pub open spec fn time_read_back(s: Seq<char>, at: Option<(i128, i32)>) -> bool {
    forall|n: i128, o: i32| #[trigger] rfc3339(n, o) == Some(s) ==> at == Some((n, o))
}

/// `time::OffsetDateTime::parse` with `Rfc3339`, in nanoseconds after 1970 and with the
/// offset from UTC. It reads back what a time is written as.
#[verifier::external_body]
fn parse_time(s: &str) -> (r: Result<(i128, i32), String>)
    ensures
        match r {
            Ok(at) => rfc3339_parsed(s@) == Ok::<(i128, i32), Seq<char>>(at),
            Err(e) => rfc3339_parsed(s@) == Err::<(i128, i32), Seq<char>>(e@),
        },
        time_read_back(s@, r.ok()),
{
    let format = &time::format_description::well_known::Rfc3339;
    let parsed = time::OffsetDateTime::parse(s, format);
    let split = |at: time::OffsetDateTime| (at.unix_timestamp_nanos(), at.offset().whole_seconds());
    parsed.map(split).map_err(|e| e.to_string())
}

/// A time as text; nothing where RFC 3339 has no text for it.
pub fn fmt_ts(at: Timestamp) -> (r: Option<String>)
    ensures
        text::opt_view(r) == time_text(at),
{
    format_time(at.nanos, at.offset)
}

/// The time in a text that holds one.
pub open spec fn time_in(s: Seq<char>) -> Timestamp {
    Timestamp { nanos: rfc3339_parsed(s)->Ok_0.0, offset: rfc3339_parsed(s)->Ok_0.1 }
}

/// Reads a time. What was written is read back.
pub fn parse_ts(s: &str) -> (r: Result<Timestamp, StorageError>)
    ensures
        match (rfc3339_parsed(s@), r) {
            (Ok(_), Ok(t)) => t == time_in(s@),
            (Err(e), Err(StorageError::Time(t))) => t@ == e,
            _ => false,
        },
        forall|at: Timestamp| #[trigger] time_text(at) == Some(s@) ==> r == Ok::<Timestamp, StorageError>(at),
{
    match parse_time(s) {
        Ok(at) => Ok(Timestamp { nanos: at.0, offset: at.1 }),
        Err(e) => Err(StorageError::Time(e)),
    }
}

/// A result of reading an id.
pub open spec fn uuid_result(s: Seq<char>, r: Result<u128, StorageError>) -> bool {
    match (model::uuid_parsed(s), r) {
        (Ok(u), Ok(v)) => u == v,
        (Err(e), Err(StorageError::Uuid(t))) => t@ == e,
        _ => false,
    }
}

/// Reads an id.
pub fn parse_uuid(s: &str) -> (r: Result<u128, StorageError>)
    ensures
        uuid_result(s@, r),
        model::uuid_read_back(s@, r.ok()),
{
    match model::parse_uuid(s) {
        Ok(u) => Ok(u),
        Err(e) => Err(StorageError::Uuid(e)),
    }
}

/// What the status of a server is written as.
pub open spec fn status_label(s: ServerStatus) -> Seq<char> {
    match s {
        ServerStatus::Unknown => "unknown"@,
        ServerStatus::Provisioning => "provisioning"@,
        ServerStatus::Online => "online"@,
        ServerStatus::Offline => "offline"@,
        ServerStatus::Error => "error"@,
    }
}

/// What a text stands for.
pub open spec fn status_label_parsed(s: Seq<char>) -> ServerStatus {
    if s == "provisioning"@ {
        ServerStatus::Provisioning
    } else if s == "online"@ {
        ServerStatus::Online
    } else if s == "offline"@ {
        ServerStatus::Offline
    } else if s == "error"@ {
        ServerStatus::Error
    } else {
        ServerStatus::Unknown
    }
}

pub fn status_to_str(s: ServerStatus) -> (r: &'static str)
    ensures
        r@ == status_label(s),
{
    match s {
        ServerStatus::Unknown => "unknown",
        ServerStatus::Provisioning => "provisioning",
        ServerStatus::Online => "online",
        ServerStatus::Offline => "offline",
        ServerStatus::Error => "error",
    }
}

pub fn str_to_status(s: &str) -> (r: ServerStatus)
    ensures
        r == status_label_parsed(s@),
{
    if text::same(s, "provisioning") {
        ServerStatus::Provisioning
    } else if text::same(s, "online") {
        ServerStatus::Online
    } else if text::same(s, "offline") {
        ServerStatus::Offline
    } else if text::same(s, "error") {
        ServerStatus::Error
    } else {
        ServerStatus::Unknown
    }
}

/// What was written is read back.
pub proof fn server_status_survives(s: ServerStatus)
    ensures
        status_label_parsed(status_label(s)) == s,
{
    reveal_strlit("unknown");
    reveal_strlit("provisioning");
    reveal_strlit("online");
    reveal_strlit("offline");
    reveal_strlit("error");
    assert("unknown"@.len() == 7 && "unknown"@[0] == 'u' && "unknown"@[1] == 'n');
    assert("provisioning"@.len() == 12 && "provisioning"@[0] == 'p' && "provisioning"@[1] == 'r');
    assert("online"@.len() == 6 && "online"@[0] == 'o' && "online"@[1] == 'n');
    assert("offline"@.len() == 7 && "offline"@[0] == 'o' && "offline"@[1] == 'f');
    assert("error"@.len() == 5 && "error"@[0] == 'e' && "error"@[1] == 'r');
}

/// What the severity of an event is written as.
pub open spec fn severity_label(s: EventSeverity) -> Seq<char> {
    match s {
        EventSeverity::Info => "info"@,
        EventSeverity::Warning => "warning"@,
        EventSeverity::Error => "error"@,
    }
}

/// What a text stands for.
pub open spec fn severity_label_parsed(s: Seq<char>) -> EventSeverity {
    if s == "warning"@ {
        EventSeverity::Warning
    } else if s == "error"@ {
        EventSeverity::Error
    } else {
        EventSeverity::Info
    }
}

pub fn severity_to_str(s: EventSeverity) -> (r: &'static str)
    ensures
        r@ == severity_label(s),
{
    match s {
        EventSeverity::Info => "info",
        EventSeverity::Warning => "warning",
        EventSeverity::Error => "error",
    }
}

pub fn str_to_severity(s: &str) -> (r: EventSeverity)
    ensures
        r == severity_label_parsed(s@),
{
    if text::same(s, "warning") {
        EventSeverity::Warning
    } else if text::same(s, "error") {
        EventSeverity::Error
    } else {
        EventSeverity::Info
    }
}

/// What was written is read back.
pub proof fn event_severity_survives(s: EventSeverity)
    ensures
        severity_label_parsed(severity_label(s)) == s,
{
    reveal_strlit("info");
    reveal_strlit("warning");
    reveal_strlit("error");
    assert("info"@.len() == 4 && "info"@[0] == 'i' && "info"@[1] == 'n');
    assert("warning"@.len() == 7 && "warning"@[0] == 'w' && "warning"@[1] == 'a');
    assert("error"@.len() == 5 && "error"@[0] == 'e' && "error"@[1] == 'r');
}

/// What the status of a build is written as.
pub open spec fn build_label(s: BuildStatus) -> Seq<char> {
    match s {
        BuildStatus::Queued => "queued"@,
        BuildStatus::Running => "running"@,
        BuildStatus::Succeeded => "succeeded"@,
        BuildStatus::Failed => "failed"@,
        BuildStatus::Cancelled => "cancelled"@,
    }
}

/// What a text stands for.
pub open spec fn build_label_parsed(s: Seq<char>) -> BuildStatus {
    if s == "running"@ {
        BuildStatus::Running
    } else if s == "succeeded"@ {
        BuildStatus::Succeeded
    } else if s == "failed"@ {
        BuildStatus::Failed
    } else if s == "cancelled"@ {
        BuildStatus::Cancelled
    } else {
        BuildStatus::Queued
    }
}

pub fn build_status_to_str(s: BuildStatus) -> (r: &'static str)
    ensures
        r@ == build_label(s),
{
    match s {
        BuildStatus::Queued => "queued",
        BuildStatus::Running => "running",
        BuildStatus::Succeeded => "succeeded",
        BuildStatus::Failed => "failed",
        BuildStatus::Cancelled => "cancelled",
    }
}

pub fn str_to_build_status(s: &str) -> (r: BuildStatus)
    ensures
        r == build_label_parsed(s@),
{
    if text::same(s, "running") {
        BuildStatus::Running
    } else if text::same(s, "succeeded") {
        BuildStatus::Succeeded
    } else if text::same(s, "failed") {
        BuildStatus::Failed
    } else if text::same(s, "cancelled") {
        BuildStatus::Cancelled
    } else {
        BuildStatus::Queued
    }
}

/// What was written is read back.
pub proof fn build_status_survives(s: BuildStatus)
    ensures
        build_label_parsed(build_label(s)) == s,
{
    reveal_strlit("queued");
    reveal_strlit("running");
    reveal_strlit("succeeded");
    reveal_strlit("failed");
    reveal_strlit("cancelled");
    assert("queued"@.len() == 6 && "queued"@[0] == 'q' && "queued"@[1] == 'u');
    assert("running"@.len() == 7 && "running"@[0] == 'r' && "running"@[1] == 'u');
    assert("succeeded"@.len() == 9 && "succeeded"@[0] == 's' && "succeeded"@[1] == 'u');
    assert("failed"@.len() == 6 && "failed"@[0] == 'f' && "failed"@[1] == 'a');
    assert("cancelled"@.len() == 9 && "cancelled"@[0] == 'c' && "cancelled"@[1] == 'a');
}

/// A server as a row.
#[derive(Clone, Debug)]
pub struct ServerRow {
    pub id: String,
    pub name: String,
    pub address: String,
    pub mgmt_ip: Option<String>,
    pub status: String,
    pub coold_version: Option<String>,
    pub host_id: Option<String>,
    pub capabilities: String,
    pub last_seen_at: Option<String>,
    pub created_at: String,
    pub updated_at: String,
}

/// Whether a row is that of a server.
pub open spec fn is_row_of(row: ServerRow, s: ServerView) -> bool {
    &&& row.id@ == model::uuid_text(s.id.0)
    &&& row.name@ == s.name
    &&& row.address@ == s.address
    &&& text::opt_view(row.mgmt_ip) == s.mgmt_ip
    &&& row.status@ == status_label(s.status)
    &&& text::opt_view(row.coold_version) == s.coold_version
    &&& text::opt_view(row.host_id) == s.host_id
    &&& row.capabilities@ == json::texts_json(s.capabilities)
    &&& match s.last_seen_at {
        Some(at) => row.last_seen_at is Some && time_text(at) == Some(row.last_seen_at->Some_0@),
        None => row.last_seen_at is None,
    }
    &&& time_text(s.created_at) == Some(row.created_at@)
    &&& time_text(s.updated_at) == Some(row.updated_at@)
}

/// Whether RFC 3339 has a text for every time of a server.
pub open spec fn writable(s: ServerView) -> bool {
    &&& s.last_seen_at matches Some(at) ==> time_text(at) is Some
    &&& time_text(s.created_at) is Some
    &&& time_text(s.updated_at) is Some
}

/// The row of a server; nothing where one of its times cannot be written.
pub fn server_row(s: &Server) -> (r: Option<ServerRow>)
    ensures
        match r {
            Some(row) => is_row_of(row, s@),
            None => !writable(s@),
        },
{
    let last_seen_at: Option<String> = match s.last_seen_at {
        Some(at) => match fmt_ts(at) {
            Some(t) => Some(t),
            None => {
                return None;
            },
        },
        None => None,
    };
    match (fmt_ts(s.created_at), fmt_ts(s.updated_at)) {
        (Some(created_at), Some(updated_at)) => Some(
            ServerRow {
                id: s.id.to_string(),
                name: s.name.clone(),
                address: s.address.clone(),
                mgmt_ip: text::copy_opt(&s.mgmt_ip),
                status: status_to_str(s.status).to_owned(),
                coold_version: text::copy_opt(&s.coold_version),
                host_id: text::copy_opt(&s.host_id),
                capabilities: json::render_texts(&s.capabilities),
                last_seen_at,
                created_at,
                updated_at,
            },
        ),
        _ => None,
    }
}

/// The capabilities in a row; none where they cannot be read.
pub open spec fn row_capabilities(s: Seq<char>) -> Seq<Seq<char>> {
    match json::texts_parsed(s) {
        Some(v) => v,
        None => Seq::empty(),
    }
}

/// What is wrong with the texts of a row, first to last; the id, then the times.
pub open spec fn row_error(
    id: Seq<char>,
    seen: Option<Seq<char>>,
    created: Seq<char>,
    updated: Option<Seq<char>>,
) -> Option<(bool, Seq<char>)> {
    match model::uuid_parsed(id) {
        Err(e) => Some((true, e)),
        Ok(_) => if seen is Some && rfc3339_parsed(seen->Some_0) is Err {
            Some((false, rfc3339_parsed(seen->Some_0)->Err_0))
        } else if rfc3339_parsed(created) is Err {
            Some((false, rfc3339_parsed(created)->Err_0))
        } else if updated is Some && rfc3339_parsed(updated->Some_0) is Err {
            Some((false, rfc3339_parsed(updated->Some_0)->Err_0))
        } else {
            None
        },
    }
}

/// Whether an error is that of an id or of a time, as told.
pub open spec fn is_row_error(e: StorageError, told: (bool, Seq<char>)) -> bool {
    if told.0 {
        e matches StorageError::Uuid(t) && t@ == told.1
    } else {
        e matches StorageError::Time(t) && t@ == told.1
    }
}

/// The server in a row, where its texts can be read.
pub open spec fn server_of(row: ServerRow) -> ServerView {
    ServerView {
        id: ServerId(model::uuid_parsed(row.id@)->Ok_0),
        name: row.name@,
        address: row.address@,
        mgmt_ip: text::opt_view(row.mgmt_ip),
        status: status_label_parsed(row.status@),
        coold_version: text::opt_view(row.coold_version),
        host_id: text::opt_view(row.host_id),
        capabilities: row_capabilities(row.capabilities@),
        last_seen_at: match row.last_seen_at {
            Some(t) => Some(time_in(t@)),
            None => None,
        },
        created_at: time_in(row.created_at@),
        updated_at: time_in(row.updated_at@),
    }
}

/// Reads a server from its row. What was written is read back: the row of a server gives
/// that server.
pub fn row_server(row: ServerRow) -> (r: Result<Server, StorageError>)
    ensures
        match (
            r,
            row_error(
                row.id@,
                text::opt_view(row.last_seen_at),
                row.created_at@,
                Some(row.updated_at@),
            ),
        ) {
            (Ok(s), None) => s@ == server_of(row),
            (Err(e), Some(told)) => is_row_error(e, told),
            _ => false,
        },
        forall|s: ServerView| #[trigger] is_row_of(row, s) ==> (r matches Ok(x) && x@ == s),
{
    let ghost r0 = row;
    let caps: Vec<String> = match json::parse_texts(row.capabilities.as_str()) {
        Some(v) => v,
        None => Vec::new(),
    };
    let ghost cs = text::views(caps@);
    proof {
        assert(cs =~= row_capabilities(row.capabilities@));
        assert forall|s: ServerView| #[trigger] is_row_of(row, s) implies cs == s.capabilities
            && status_label_parsed(row.status@) == s.status by {
            server_status_survives(s.status);
        }
    }
    let status: ServerStatus = str_to_status(row.status.as_str());
    let id: u128 = parse_uuid(row.id.as_str())?;
    let last_seen_at: Option<Timestamp> = match &row.last_seen_at {
        Some(t) => Some(parse_ts(t.as_str())?),
        None => None,
    };
    let created_at: Timestamp = parse_ts(row.created_at.as_str())?;
    let updated_at: Timestamp = parse_ts(row.updated_at.as_str())?;
    let s: Server = Server {
        id: ServerId(id),
        name: row.name,
        address: row.address,
        mgmt_ip: row.mgmt_ip,
        status,
        coold_version: row.coold_version,
        host_id: row.host_id,
        capabilities: caps,
        last_seen_at,
        created_at,
        updated_at,
    };
    proof {
        assert(s@ =~= server_of(r0));
        assert forall|v: ServerView| #[trigger] is_row_of(r0, v) implies s@ == v by {
            assert(s@ =~= v);
        }
    }
    Ok(s)
}

/// A cluster as a row.
#[derive(Clone, Debug)]
pub struct ClusterRow {
    pub id: String,
    pub name: String,
    pub description: String,
    pub created_at: String,
    pub updated_at: String,
}

/// Whether a row is that of a cluster.
pub open spec fn is_cluster_row_of(row: ClusterRow, c: Cluster) -> bool {
    &&& row.id@ == model::uuid_text(c.id.0)
    &&& row.name@ == c.name@
    &&& row.description@ == c.description@
    &&& time_text(c.created_at) == Some(row.created_at@)
    &&& time_text(c.updated_at) == Some(row.updated_at@)
}

/// Whether two clusters are the same in every field.
pub open spec fn same_cluster(a: Cluster, b: Cluster) -> bool {
    &&& a.id == b.id
    &&& a.name@ == b.name@
    &&& a.description@ == b.description@
    &&& a.created_at == b.created_at
    &&& a.updated_at == b.updated_at
}

/// The row of a cluster; nothing where one of its times cannot be written.
pub fn cluster_row(c: &Cluster) -> (r: Option<ClusterRow>)
    ensures
        match r {
            Some(row) => is_cluster_row_of(row, *c),
            None => time_text(c.created_at) is None || time_text(c.updated_at) is None,
        },
{
    match (fmt_ts(c.created_at), fmt_ts(c.updated_at)) {
        (Some(created_at), Some(updated_at)) => Some(
            ClusterRow {
                id: c.id.to_string(),
                name: c.name.clone(),
                description: c.description.clone(),
                created_at,
                updated_at,
            },
        ),
        _ => None,
    }
}

/// Reads a cluster from its row. What was written is read back.
pub fn row_cluster(row: ClusterRow) -> (r: Result<Cluster, StorageError>)
    ensures
        match (r, row_error(row.id@, None, row.created_at@, Some(row.updated_at@))) {
            (Ok(c), None) => c.id.0 == model::uuid_parsed(row.id@)->Ok_0 && c.name == row.name
                && c.description == row.description && c.created_at == time_in(row.created_at@)
                && c.updated_at == time_in(row.updated_at@),
            (Err(e), Some(told)) => is_row_error(e, told),
            _ => false,
        },
        forall|c: Cluster| #[trigger]
            is_cluster_row_of(row, c) ==> (r matches Ok(x) && same_cluster(x, c)),
{
    let id: u128 = parse_uuid(row.id.as_str())?;
    let created_at: Timestamp = parse_ts(row.created_at.as_str())?;
    let updated_at: Timestamp = parse_ts(row.updated_at.as_str())?;
    Ok(
        Cluster {
            id: ClusterId(id),
            name: row.name,
            description: row.description,
            created_at,
            updated_at,
        },
    )
}

/// An event as a row.
#[derive(Clone, Debug)]
pub struct EventRow {
    pub id: String,
    pub severity: String,
    pub subject: String,
    pub message: String,
    pub created_at: String,
}

/// Whether a row is that of an event.
pub open spec fn is_event_row_of(row: EventRow, e: Event) -> bool {
    &&& row.id@ == model::uuid_text(e.id.0)
    &&& row.severity@ == severity_label(e.severity)
    &&& row.subject@ == e.subject@
    &&& row.message@ == e.message@
    &&& time_text(e.created_at) == Some(row.created_at@)
}

/// Whether two events are the same in every field.
pub open spec fn same_event(a: Event, b: Event) -> bool {
    &&& a.id == b.id
    &&& a.severity == b.severity
    &&& a.subject@ == b.subject@
    &&& a.message@ == b.message@
    &&& a.created_at == b.created_at
}

/// The row of an event; nothing where its time cannot be written.
pub fn event_row(e: &Event) -> (r: Option<EventRow>)
    ensures
        match r {
            Some(row) => is_event_row_of(row, *e),
            None => time_text(e.created_at) is None,
        },
{
    match fmt_ts(e.created_at) {
        Some(created_at) => Some(
            EventRow {
                id: e.id.to_string(),
                severity: severity_to_str(e.severity).to_owned(),
                subject: e.subject.clone(),
                message: e.message.clone(),
                created_at,
            },
        ),
        None => None,
    }
}

/// Reads an event from its row. What was written is read back.
pub fn row_event(row: EventRow) -> (r: Result<Event, StorageError>)
    ensures
        match (r, row_error(row.id@, None, row.created_at@, None)) {
            (Ok(e), None) => e.id.0 == model::uuid_parsed(row.id@)->Ok_0 && e.severity
                == severity_label_parsed(row.severity@) && e.subject == row.subject && e.message
                == row.message && e.created_at == time_in(row.created_at@),
            (Err(e), Some(told)) => is_row_error(e, told),
            _ => false,
        },
        forall|e: Event| #[trigger]
            is_event_row_of(row, e) ==> (r matches Ok(x) && same_event(x, e)),
{
    proof {
        assert forall|e: Event| #[trigger] is_event_row_of(row, e) implies severity_label_parsed(
            row.severity@,
        ) == e.severity by {
            event_severity_survives(e.severity);
        }
    }
    let id: u128 = parse_uuid(row.id.as_str())?;
    let severity: EventSeverity = str_to_severity(row.severity.as_str());
    let created_at: Timestamp = parse_ts(row.created_at.as_str())?;
    Ok(
        Event {
            id: EventId(id),
            severity,
            subject: row.subject,
            message: row.message,
            created_at,
        },
    )
}

/// A build as a row.
#[derive(Clone, Debug)]
pub struct BuildRow {
    pub id: String,
    pub app_id: Option<String>,
    pub server_id: Option<String>,
    pub status: String,
    pub image_ref: Option<String>,
    pub message: String,
    pub created_at: String,
    pub updated_at: String,
}

/// Whether a row is that of a build.
pub open spec fn is_build_row_of(row: BuildRow, b: Build) -> bool {
    &&& row.id@ == model::uuid_text(b.id.0)
    &&& match b.app_id {
        Some(id) => row.app_id is Some && row.app_id->Some_0@ == model::uuid_text(id.0),
        None => row.app_id is None,
    }
    &&& match b.server_id {
        Some(id) => row.server_id is Some && row.server_id->Some_0@ == model::uuid_text(id.0),
        None => row.server_id is None,
    }
    &&& row.status@ == build_label(b.status)
    &&& text::opt_view(row.image_ref) == text::opt_view(b.image_ref)
    &&& row.message@ == b.message@
    &&& time_text(b.created_at) == Some(row.created_at@)
    &&& time_text(b.updated_at) == Some(row.updated_at@)
}

/// Whether a build is another one, of which it is not told what it was built from and where.
pub open spec fn same_build(a: Build, b: Build) -> bool {
    &&& a.id == b.id
    &&& a.app_id is None
    &&& a.server_id is None
    &&& a.status == b.status
    &&& text::opt_view(a.image_ref) == text::opt_view(b.image_ref)
    &&& a.message@ == b.message@
    &&& a.created_at == b.created_at
    &&& a.updated_at == b.updated_at
}

/// The row of a build; nothing where one of its times cannot be written.
pub fn build_row(b: &Build) -> (r: Option<BuildRow>)
    ensures
        match r {
            Some(row) => is_build_row_of(row, *b),
            None => time_text(b.created_at) is None || time_text(b.updated_at) is None,
        },
{
    match (fmt_ts(b.created_at), fmt_ts(b.updated_at)) {
        (Some(created_at), Some(updated_at)) => Some(
            BuildRow {
                id: b.id.to_string(),
                app_id: match &b.app_id {
                    Some(id) => Some(id.to_string()),
                    None => None,
                },
                server_id: match &b.server_id {
                    Some(id) => Some(id.to_string()),
                    None => None,
                },
                status: build_status_to_str(b.status).to_owned(),
                image_ref: text::copy_opt(&b.image_ref),
                message: b.message.clone(),
                created_at,
                updated_at,
            },
        ),
        _ => None,
    }
}

/// Reads a build from its row. What was written is read back, but for what the build was
/// built from and where.
pub fn row_build(row: BuildRow) -> (r: Result<Build, StorageError>)
    ensures
        match (r, row_error(row.id@, None, row.created_at@, Some(row.updated_at@))) {
            (Ok(b), None) => b.id.0 == model::uuid_parsed(row.id@)->Ok_0 && b.app_id is None
                && b.server_id is None && b.status == build_label_parsed(row.status@)
                && b.image_ref == row.image_ref && b.message == row.message && b.created_at
                == time_in(row.created_at@) && b.updated_at == time_in(row.updated_at@),
            (Err(e), Some(told)) => is_row_error(e, told),
            _ => false,
        },
        forall|b: Build| #[trigger]
            is_build_row_of(row, b) ==> (r matches Ok(x) && same_build(x, b)),
{
    proof {
        assert forall|b: Build| #[trigger] is_build_row_of(row, b) implies build_label_parsed(
            row.status@,
        ) == b.status by {
            build_status_survives(b.status);
        }
    }
    let id: u128 = parse_uuid(row.id.as_str())?;
    let status: BuildStatus = str_to_build_status(row.status.as_str());
    let created_at: Timestamp = parse_ts(row.created_at.as_str())?;
    let updated_at: Timestamp = parse_ts(row.updated_at.as_str())?;
    Ok(
        Build {
            id: BuildId(id),
            app_id: None,
            server_id: None,
            status,
            image_ref: row.image_ref,
            message: row.message,
            created_at,
            updated_at,
        },
    )
}

} // verus!
