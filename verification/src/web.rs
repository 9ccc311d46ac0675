//! The web API: how requests are answered from what is kept and what the scheduler knows.

use vstd::prelude::*;
use vstd::string::StringExecFns;
use crate::model;
use crate::model::{
    SchedulerStream,
    Server,
    ServerId,
    ServerLiveStatus,
    ServerStatus,
    ServerSyncResult,
    Timestamp,
    ServerView,
};
use crate::number;
use crate::storage;
use crate::storage::StorageError;
use crate::text;

verus! {

/// Why the scheduler did not answer. A reply, a socket or a document that fails says why.
#[derive(Clone, Debug, PartialEq, Eq)]
pub enum SchedulerError {
    NotConfigured,
    HostNotConnected,
    Timeout,
    Scheduler { status: u16, message: String },
    Malformed(String),
    Io(String),
    Json(String),
}

/// Why a request failed.
#[derive(Clone, Debug, PartialEq, Eq)]
pub enum ApiError {
    Storage(StorageError),
    Scheduler(SchedulerError),
    BadRequest(String),
    Conflict(String),
}

impl From<StorageError> for ApiError {
    fn from(value: StorageError) -> (r: Self) {
        ApiError::Storage(value)
    }
}

impl vstd::std_specs::convert::FromSpecImpl<StorageError> for ApiError {
    open spec fn obeys_from_spec() -> bool {
        true
    }

    open spec fn from_spec(value: StorageError) -> Self {
        ApiError::Storage(value)
    }
}

impl From<SchedulerError> for ApiError {
    fn from(value: SchedulerError) -> (r: Self) {
        ApiError::Scheduler(value)
    }
}

impl vstd::std_specs::convert::FromSpecImpl<SchedulerError> for ApiError {
    open spec fn obeys_from_spec() -> bool {
        true
    }

    open spec fn from_spec(value: SchedulerError) -> Self {
        ApiError::Scheduler(value)
    }
}

/// The status and the message that a failed request is answered with.
pub open spec fn answer_of(e: ApiError) -> (u16, Seq<char>) {
    match e {
        ApiError::Storage(StorageError::NotFound) => (404, "not found"@),
        ApiError::Storage(e) => (500, storage::storage_text(e)),
        ApiError::Scheduler(SchedulerError::NotConfigured) => (
            503,
            "scheduler is not configured"@,
        ),
        ApiError::Scheduler(SchedulerError::HostNotConnected) => (404, "host not connected"@),
        ApiError::Scheduler(SchedulerError::Timeout) => (504, "scheduler timeout"@),
        ApiError::Scheduler(SchedulerError::Scheduler { status, message }) => (
            if 100 <= status <= 999 {
                status
            } else {
                502
            },
            message@,
        ),
        ApiError::Scheduler(SchedulerError::Malformed(m)) => (502, m@),
        ApiError::Scheduler(SchedulerError::Io(m)) => (502, m@),
        ApiError::Scheduler(SchedulerError::Json(m)) => (502, m@),
        ApiError::BadRequest(m) => (400, m@),
        ApiError::Conflict(m) => (409, m@),
    }
}

impl ApiError {
    /// The status and the message that a failed request is answered with.
    pub fn into_response(self) -> (r: (u16, String))
        ensures
            (r.0, r.1@) == answer_of(self),
    {
        match self {
            ApiError::Storage(StorageError::NotFound) => (404, "not found".to_owned()),
            ApiError::Storage(e) => (500, e.to_string()),
            ApiError::Scheduler(SchedulerError::NotConfigured) => (
                503,
                "scheduler is not configured".to_owned(),
            ),
            ApiError::Scheduler(SchedulerError::HostNotConnected) => (
                404,
                "host not connected".to_owned(),
            ),
            ApiError::Scheduler(SchedulerError::Timeout) => (504, "scheduler timeout".to_owned()),
            ApiError::Scheduler(SchedulerError::Scheduler { status, message }) => {
                let status: u16 = if 100 <= status && status <= 999 {
                    status
                } else {
                    502
                };
                (status, message)
            },
            ApiError::Scheduler(SchedulerError::Malformed(m)) => (502, m),
            ApiError::Scheduler(SchedulerError::Io(m)) => (502, m),
            ApiError::Scheduler(SchedulerError::Json(m)) => (502, m),
            ApiError::BadRequest(m) => (400, m),
            ApiError::Conflict(m) => (409, m),
        }
    }
}

/// Reads the id of a server; what an id is written as is read back.
pub fn parse_server_id(id: &str) -> (r: Result<ServerId, ApiError>)
    ensures
        match (model::uuid_parsed(id@), r) {
            (Ok(u), Ok(s)) => s.0 == u,
            (Err(_), Err(e)) => e matches ApiError::BadRequest(m) && m@ == "invalid server id"@,
            _ => false,
        },
        forall|u: u128| #[trigger] model::uuid_text(u) == id@ ==> (r matches Ok(s) && s.0 == u),
{
    match model::parse_uuid(id) {
        Ok(u) => Ok(ServerId(u)),
        Err(_) => Err(ApiError::BadRequest("invalid server id".to_owned())),
    }
}

/// Whether a server has a host that the scheduler may know.
pub open spec fn has_host(host_id: Option<Seq<char>>) -> bool {
    host_id matches Some(h) && h.len() > 0
}

/// How a server is right now.
pub fn server_live_status(server: Server, scheduler_configured: bool) -> (r: ServerLiveStatus)
    ensures
        r.server_id == server.id,
        r.host_id == server.host_id,
        r.scheduler_configured == scheduler_configured,
        r.reachable == (has_host(server@.host_id) && scheduler_configured),
        r.capabilities == server.capabilities,
{
    let known: bool = match &server.host_id {
        Some(h) => !h.as_str().is_empty(),
        None => false,
    };
    ServerLiveStatus {
        server_id: server.id,
        host_id: server.host_id,
        scheduler_configured,
        reachable: known && scheduler_configured,
        capabilities: server.capabilities,
    }
}

/// The host whose containers are asked for.
pub fn container_host(server: &Server) -> (r: Result<String, ApiError>)
    ensures
        match r {
            Ok(h) => server@.host_id == Some(h@) && h@.len() > 0,
            Err(e) => !has_host(server@.host_id) && (e matches ApiError::Conflict(m) && m@
                == "server has no scheduler host_id"@),
        },
{
    match &server.host_id {
        Some(h) => if !h.as_str().is_empty() {
            return Ok(h.clone());
        },
        None => {},
    }
    Err(ApiError::Conflict("server has no scheduler host_id".to_owned()))
}

/// A server that a stream of its host was seen for.
pub open spec fn seen(s: ServerView, caps: Seq<Seq<char>>, at: Timestamp) -> ServerView {
    ServerView {
        capabilities: caps,
        status: ServerStatus::Online,
        last_seen_at: Some(at),
        updated_at: at,
        ..s
    }
}

/// The server of a host that was not known: named after the host, which is its address too.
pub open spec fn found(id: ServerId, host: Seq<char>, at: Timestamp) -> ServerView {
    ServerView { host_id: Some(host), ..model::new_server(id, host, host, at) }
}

/// How many servers were created and updated so far, and which.
#[derive(Clone, Debug)]
pub struct Sync {
    pub created: u32,
    pub updated: u32,
    pub server_ids: Vec<ServerId>,
}

/// What is noted of bringing the servers up to date.
pub open spec fn synced_text(created: u32, updated: u32) -> Seq<char> {
    "synced scheduler streams: created="@
        + number::decimal(created as nat)
        + " updated="@
        + number::decimal(updated as nat)
}

/// What is noted of bringing the servers up to date.
fn synced(created: u32, updated: u32) -> (r: String)
    ensures
        r@ == synced_text(created, updated),
{
    let mut out: String = "synced scheduler streams: created=".to_owned();
    out.append(number::decimal_of(created as u64).as_str());
    out.append(" updated=");
    out.append(number::decimal_of(updated as u64).as_str());
    out
}

impl Sync {
    /// Every server was either created or updated.
    pub open spec fn wf(&self) -> bool {
        self.created + self.updated == self.server_ids@.len()
    }

    pub fn start() -> (r: Self)
        ensures
            r.wf(),
            r.created == 0,
            r.updated == 0,
            r.server_ids@.len() == 0,
    {
        Sync { created: 0, updated: 0, server_ids: Vec::new() }
    }

    /// Brings the server of a stream up to date: the one that is kept for its host, or a new
    /// one with the id `fresh`. A host whose name makes no server stops it all.
    pub fn step(
        &mut self,
        existing: Option<Server>,
        stream: SchedulerStream,
        fresh: ServerId,
        at: Timestamp,
    ) -> (r: Result<Server, ApiError>)
        requires
            old(self).wf(),
            old(self).server_ids@.len() < u32::MAX,
        ensures
            match existing {
                Some(s) => {
                    &&& r matches Ok(x)
                    &&& x@ == seen(s@, text::views(stream.caps@), at)
                    &&& final(self).created == old(self).created
                    &&& final(self).updated == old(self).updated + 1
                    &&& final(self).server_ids@ == old(self).server_ids@.push(s.id)
                    &&& final(self).wf()
                },
                None => match model::server_error(stream.host_id@, stream.host_id@) {
                    None => {
                        &&& r matches Ok(x)
                        &&& x@ == seen(
                            found(fresh, stream.host_id@, at),
                            text::views(stream.caps@),
                            at,
                        )
                        &&& final(self).created == old(self).created + 1
                        &&& final(self).updated == old(self).updated
                        &&& final(self).server_ids@ == old(self).server_ids@.push(fresh)
                        &&& final(self).wf()
                    },
                    Some(v) => {
                        &&& r matches Err(ApiError::BadRequest(m))
                        &&& m@ == model::error_text(v)
                        &&& *final(self) == *old(self)
                    },
                },
            },
    {
        let mut server: Server = match existing {
            Some(s) => {
                self.updated = self.updated + 1;
                s
            },
            None => match Server::made(
                fresh,
                stream.host_id.as_str(),
                stream.host_id.as_str(),
                at,
            ) {
                Ok(s) => {
                    self.created = self.created + 1;
                    let mut s: Server = s;
                    s.host_id = Some(stream.host_id.clone());
                    s
                },
                Err(e) => {
                    return Err(ApiError::BadRequest(e.to_string()));
                },
            },
        };
        server.capabilities = stream.caps;
        server.status = ServerStatus::Online;
        server.last_seen_at = Some(at);
        server.updated_at = at;
        self.server_ids.push(server.id);
        Ok(server)
    }

    /// What was done, and what is noted of it.
    pub fn finish(self) -> (r: (ServerSyncResult, String))
        ensures
            r.0.created == self.created,
            r.0.updated == self.updated,
            r.0.server_ids == self.server_ids,
            r.1@ == synced_text(self.created, self.updated),
    {
        let note: String = synced(self.created, self.updated);
        (
            ServerSyncResult {
                created: self.created,
                updated: self.updated,
                server_ids: self.server_ids,
            },
            note,
        )
    }
}

/// What an event of bringing the servers up to date is about.
pub const SYNC_SUBJECT: &'static str = "scheduler.sync";

/// How many events and builds are listed.
pub const LISTED: u32 = 100;

/// What the program was asked for.
#[derive(Clone, Debug)]
pub struct Cli {
    pub debug: bool,
    pub command: Option<Command>,
}

/// The commands: to serve, to probe a server that serves, or to look after the database.
#[derive(Clone, Debug)]
pub enum Command {
    Serve,
    Healthcheck { url: String, timeout_ms: u64 },
    Db { command: DbCommand },
}

/// What is done with the database.
#[derive(Clone, Copy, Debug, PartialEq, Eq, Structural)]
pub enum DbCommand {
    Migrate,
    Info,
}

impl Cli {
    /// The command: to serve, where none is named.
    pub fn chosen(self) -> (r: Command)
        ensures
            r == (match self.command {
                Some(c) => c,
                None => Command::Serve,
            }),
    {
        match self.command {
            Some(c) => c,
            None => Command::Serve,
        }
    }
}

/// The host and the path of an address to probe.
pub open spec fn probe_parts(url: Seq<char>) -> Result<(Seq<char>, Seq<char>), Seq<char>> {
    match text::strip_prefix_spec(url, "http://"@) {
        None => Err("only http:// healthcheck URLs are supported for now"@),
        Some(rest) => match text::split_once_spec(rest, '/') {
            Some((host, path)) => Ok((host, "/"@ + path)),
            None => Ok((rest, "/"@)),
        },
    }
}

/// The host and the path of an address to probe.
pub fn probe_target(url: &str) -> (r: Result<(String, String), String>)
    ensures
        match (r, probe_parts(url@)) {
            (Ok((h, p)), Ok((host, path))) => h@ == host && p@ == path,
            (Err(e), Err(t)) => e@ == t,
            _ => false,
        },
{
    match text::strip_prefix(url, "http://") {
        None => Err("only http:// healthcheck URLs are supported for now".to_owned()),
        Some(rest) => match text::split_once(rest.as_str(), '/') {
            Some((host, path)) => {
                let mut p: String = "/".to_owned();
                p.append(path.as_str());
                Ok((host, p))
            },
            None => Ok((rest, "/".to_owned())),
        },
    }
}

/// The request that probes a host.
pub open spec fn probe_request_text(host: Seq<char>, path: Seq<char>) -> Seq<char> {
    "GET "@
        + path
        + " HTTP/1.1\r\nHost: "@
        + host
        + "\r\nConnection: close\r\n\r\n"@
}

/// The request that probes a host.
pub fn probe_request(host: &str, path: &str) -> (r: String)
    ensures
        r@ == probe_request_text(host@, path@),
{
    let mut out: String = "GET ".to_owned();
    out.append(path);
    out.append(" HTTP/1.1\r\nHost: ");
    out.append(host);
    out.append("\r\nConnection: close\r\n\r\n");
    out
}

/// What is said of a reply that is not well.
pub open spec fn unhealthy_text(url: Seq<char>, reply: Seq<char>) -> Seq<char> {
    "unhealthy response from "@
        + url
        + ": "@
        + reply
}

/// What is said of a reply that is not well.
fn unhealthy(url: &str, reply: &str) -> (r: String)
    ensures
        r@ == unhealthy_text(url@, reply@),
{
    let mut out: String = "unhealthy response from ".to_owned();
    out.append(url);
    out.append(": ");
    out.append(reply);
    out
}

/// Judges the reply to a probe.
pub fn healthcheck(url: &str, reply: &str) -> (r: Result<(), String>)
    ensures
        match r {
            Ok(_) => text::has_text(reply@, "ok"@),
            Err(e) => !text::has_text(reply@, "ok"@) && e@ == unhealthy_text(url@, reply@),
        },
{
    if text::contains(reply, "ok") {
        Ok(())
    } else {
        Err(unhealthy(url, reply))
    }
}

} // verus!
