//! Servers, clusters, builds and events: what the control plane keeps of them.

use vstd::prelude::*;
use vstd::string::StringExecFns;
use crate::cooldctl::output;
use crate::digest;
use crate::split;
use crate::text;

verus! {

/// What is wrong with a value.
#[derive(Clone, Debug, PartialEq, Eq)]
pub enum CoreError {
    Empty { field: &'static str },
    Invalid { field: &'static str, reason: String },
}

/// What a `CoreError` says.
#[verifier::ext_equal]
pub enum CoreErrorView {
    Empty(Seq<char>),
    Invalid(Seq<char>, Seq<char>),
}

impl View for CoreError {
    type V = CoreErrorView;

    open spec fn view(&self) -> CoreErrorView {
        match self {
            CoreError::Empty { field } => CoreErrorView::Empty(field@),
            CoreError::Invalid { field, reason } => CoreErrorView::Invalid(field@, reason@),
        }
    }
}

/// What is said of a value that is missing.
pub open spec fn empty_message_text(field: Seq<char>) -> Seq<char> {
    field
        + " must not be empty"@
}

/// What is said of a value that is missing.
fn empty_message(field: &str) -> (r: String)
    ensures
        r@ == empty_message_text(field@),
{
    let mut out: String = field.to_owned();
    out.append(" must not be empty");
    out
}

/// What is said of a value that is wrong.
pub open spec fn invalid_message_text(field: Seq<char>, reason: Seq<char>) -> Seq<char> {
    "invalid "@
        + field
        + ": "@
        + reason
}

/// What is said of a value that is wrong.
fn invalid_message(field: &str, reason: &str) -> (r: String)
    ensures
        r@ == invalid_message_text(field@, reason@),
{
    let mut out: String = "invalid ".to_owned();
    out.append(field);
    out.append(": ");
    out.append(reason);
    out
}

/// What is said of what is wrong.
pub open spec fn error_text(e: CoreErrorView) -> Seq<char> {
    match e {
        CoreErrorView::Empty(field) => empty_message_text(field),
        CoreErrorView::Invalid(field, reason) => invalid_message_text(field, reason),
    }
}

impl CoreError {
    /// What is said of what is wrong.
    pub fn to_string(&self) -> (r: String)
        ensures
            r@ == error_text(self@),
    {
        match self {
            CoreError::Empty { field } => empty_message(field),
            CoreError::Invalid { field, reason } => invalid_message(field, reason.as_str()),
        }
    }
}

/// Which of the 32 hexadecimal digits of an id stands at a place of its text.
pub open spec fn digit_at(i: int) -> int {
    if i < 8 {
        i
    } else if i < 13 {
        i - 1
    } else if i < 18 {
        i - 2
    } else if i < 23 {
        i - 3
    } else {
        i - 4
    }
}

/// The text of an id: 32 hexadecimal digits, highest first, in five groups.
pub open spec fn uuid_text(u: u128) -> Seq<char> {
    Seq::new(
        36,
        |i: int|
            if i == 8 || i == 13 || i == 18 || i == 23 {
                '-'
            } else {
                digest::hex_digit(
                    (u as int / vstd::arithmetic::power::pow(16, (31 - digit_at(i)) as nat) % 16) as u8,
                )
            },
    )
}

/// `uuid::Uuid` as text: 32 digits in groups of eight, four, four, four and twelve.
#[verifier::external_body]
fn show_uuid(u: u128) -> (r: String)
    ensures
        r@ == uuid_text(u),
{
    uuid::Uuid::from_u128(u).to_string()
}

/// Whether an id says that it was made from the time and chance: its version is seven, and
/// its variant the usual one.
pub open spec fn time_ordered(u: u128) -> bool {
    &&& (u / 75557863725914323419136) % 16 == 7
    &&& (u / 4611686018427387904) % 4 == 2
}

/// `uuid::Uuid::now_v7`: a new id. Which one rests on the time and on chance.
#[verifier::external_body]
fn fresh_uuid() -> (r: u128)
    ensures
        time_ordered(r),
{
    uuid::Uuid::now_v7().as_u128()
}

/// The id in a text, or what is wrong with the text.
pub uninterp spec fn uuid_parsed(s: Seq<char>) -> Result<u128, Seq<char>>;

/// Whether `u` is the id that `s` is the text of, if it is that of any.
pub open spec fn uuid_read_back(s: Seq<char>, u: Option<u128>) -> bool {
    forall|w: u128| #[trigger] uuid_text(w) == s ==> u == Some(w)
}

/// `uuid::Uuid::parse_str`: the id in a text. It reads back what an id is written as.
#[verifier::external_body]
pub(crate) fn parse_uuid(s: &str) -> (r: Result<u128, String>)
    ensures
        match r {
            Ok(u) => uuid_parsed(s@) == Ok::<u128, Seq<char>>(u),
            Err(e) => uuid_parsed(s@) == Err::<u128, Seq<char>>(e@),
        },
        uuid_read_back(s@, r.ok()),
{
    uuid::Uuid::parse_str(s).map(|u| u.as_u128()).map_err(|e| e.to_string())
}

/// The id of a server.
#[derive(Clone, Copy, Debug, PartialEq, Eq, PartialOrd, Ord, Hash, Structural)]
pub struct ServerId(pub u128);

impl ServerId {
    /// A new id.
    pub fn new() -> (r: Self)
        ensures
            time_ordered(r.0),
    {
        ServerId(fresh_uuid())
    }

    /// The text of the id.
    pub fn to_string(&self) -> (r: String)
        ensures
            r@ == uuid_text(self.0),
            r@.len() == 36,
    {
        show_uuid(self.0)
    }
}

impl Default for ServerId {
    fn default() -> (r: Self)
        ensures
            time_ordered(r.0),
    {
        ServerId::new()
    }
}

impl From<u128> for ServerId {
    fn from(value: u128) -> (r: Self) {
        ServerId(value)
    }
}

impl vstd::std_specs::convert::FromSpecImpl<u128> for ServerId {
    open spec fn obeys_from_spec() -> bool {
        true
    }

    open spec fn from_spec(value: u128) -> Self {
        ServerId(value)
    }
}

/// The id of a cluster.
#[derive(Clone, Copy, Debug, PartialEq, Eq, PartialOrd, Ord, Hash, Structural)]
pub struct ClusterId(pub u128);

impl ClusterId {
    /// A new id.
    pub fn new() -> (r: Self)
        ensures
            time_ordered(r.0),
    {
        ClusterId(fresh_uuid())
    }

    /// The text of the id.
    pub fn to_string(&self) -> (r: String)
        ensures
            r@ == uuid_text(self.0),
            r@.len() == 36,
    {
        show_uuid(self.0)
    }
}

impl Default for ClusterId {
    fn default() -> (r: Self)
        ensures
            time_ordered(r.0),
    {
        ClusterId::new()
    }
}

impl From<u128> for ClusterId {
    fn from(value: u128) -> (r: Self) {
        ClusterId(value)
    }
}

impl vstd::std_specs::convert::FromSpecImpl<u128> for ClusterId {
    open spec fn obeys_from_spec() -> bool {
        true
    }

    open spec fn from_spec(value: u128) -> Self {
        ClusterId(value)
    }
}

/// The id of an application.
#[derive(Clone, Copy, Debug, PartialEq, Eq, PartialOrd, Ord, Hash, Structural)]
pub struct AppId(pub u128);

impl AppId {
    /// A new id.
    pub fn new() -> (r: Self)
        ensures
            time_ordered(r.0),
    {
        AppId(fresh_uuid())
    }

    /// The text of the id.
    pub fn to_string(&self) -> (r: String)
        ensures
            r@ == uuid_text(self.0),
            r@.len() == 36,
    {
        show_uuid(self.0)
    }
}

impl Default for AppId {
    fn default() -> (r: Self)
        ensures
            time_ordered(r.0),
    {
        AppId::new()
    }
}

impl From<u128> for AppId {
    fn from(value: u128) -> (r: Self) {
        AppId(value)
    }
}

impl vstd::std_specs::convert::FromSpecImpl<u128> for AppId {
    open spec fn obeys_from_spec() -> bool {
        true
    }

    open spec fn from_spec(value: u128) -> Self {
        AppId(value)
    }
}

/// The id of a build.
#[derive(Clone, Copy, Debug, PartialEq, Eq, PartialOrd, Ord, Hash, Structural)]
pub struct BuildId(pub u128);

impl BuildId {
    /// A new id.
    pub fn new() -> (r: Self)
        ensures
            time_ordered(r.0),
    {
        BuildId(fresh_uuid())
    }

    /// The text of the id.
    pub fn to_string(&self) -> (r: String)
        ensures
            r@ == uuid_text(self.0),
            r@.len() == 36,
    {
        show_uuid(self.0)
    }
}

impl Default for BuildId {
    fn default() -> (r: Self)
        ensures
            time_ordered(r.0),
    {
        BuildId::new()
    }
}

impl From<u128> for BuildId {
    fn from(value: u128) -> (r: Self) {
        BuildId(value)
    }
}

impl vstd::std_specs::convert::FromSpecImpl<u128> for BuildId {
    open spec fn obeys_from_spec() -> bool {
        true
    }

    open spec fn from_spec(value: u128) -> Self {
        BuildId(value)
    }
}

/// The id of a deployment.
#[derive(Clone, Copy, Debug, PartialEq, Eq, PartialOrd, Ord, Hash, Structural)]
pub struct DeploymentId(pub u128);

impl DeploymentId {
    /// A new id.
    pub fn new() -> (r: Self)
        ensures
            time_ordered(r.0),
    {
        DeploymentId(fresh_uuid())
    }

    /// The text of the id.
    pub fn to_string(&self) -> (r: String)
        ensures
            r@ == uuid_text(self.0),
            r@.len() == 36,
    {
        show_uuid(self.0)
    }
}

impl Default for DeploymentId {
    fn default() -> (r: Self)
        ensures
            time_ordered(r.0),
    {
        DeploymentId::new()
    }
}

impl From<u128> for DeploymentId {
    fn from(value: u128) -> (r: Self) {
        DeploymentId(value)
    }
}

impl vstd::std_specs::convert::FromSpecImpl<u128> for DeploymentId {
    open spec fn obeys_from_spec() -> bool {
        true
    }

    open spec fn from_spec(value: u128) -> Self {
        DeploymentId(value)
    }
}

/// The id of an event.
#[derive(Clone, Copy, Debug, PartialEq, Eq, PartialOrd, Ord, Hash, Structural)]
pub struct EventId(pub u128);

impl EventId {
    /// A new id.
    pub fn new() -> (r: Self)
        ensures
            time_ordered(r.0),
    {
        EventId(fresh_uuid())
    }

    /// The text of the id.
    pub fn to_string(&self) -> (r: String)
        ensures
            r@ == uuid_text(self.0),
            r@.len() == 36,
    {
        show_uuid(self.0)
    }
}

impl Default for EventId {
    fn default() -> (r: Self)
        ensures
            time_ordered(r.0),
    {
        EventId::new()
    }
}

impl From<u128> for EventId {
    fn from(value: u128) -> (r: Self) {
        EventId(value)
    }
}

impl vstd::std_specs::convert::FromSpecImpl<u128> for EventId {
    open spec fn obeys_from_spec() -> bool {
        true
    }

    open spec fn from_spec(value: u128) -> Self {
        EventId(value)
    }
}

/// The id of a firewall rule.
#[derive(Clone, Copy, Debug, PartialEq, Eq, PartialOrd, Ord, Hash, Structural)]
pub struct FirewallRuleId(pub u128);

impl FirewallRuleId {
    /// A new id.
    pub fn new() -> (r: Self)
        ensures
            time_ordered(r.0),
    {
        FirewallRuleId(fresh_uuid())
    }

    /// The text of the id.
    pub fn to_string(&self) -> (r: String)
        ensures
            r@ == uuid_text(self.0),
            r@.len() == 36,
    {
        show_uuid(self.0)
    }
}

impl Default for FirewallRuleId {
    fn default() -> (r: Self)
        ensures
            time_ordered(r.0),
    {
        FirewallRuleId::new()
    }
}

impl From<u128> for FirewallRuleId {
    fn from(value: u128) -> (r: Self) {
        FirewallRuleId(value)
    }
}

impl vstd::std_specs::convert::FromSpecImpl<u128> for FirewallRuleId {
    open spec fn obeys_from_spec() -> bool {
        true
    }

    open spec fn from_spec(value: u128) -> Self {
        FirewallRuleId(value)
    }
}

/// How a server is.
#[derive(Clone, Copy, Debug, PartialEq, Eq, Structural, Default)]
pub enum ServerStatus {
    #[default]
    Unknown,
    Provisioning,
    Online,
    Offline,
    Error,
}

/// How a build is.
#[derive(Clone, Copy, Debug, PartialEq, Eq, Structural)]
pub enum BuildStatus {
    Queued,
    Running,
    Succeeded,
    Failed,
    Cancelled,
}

/// How a deployment is.
#[derive(Clone, Copy, Debug, PartialEq, Eq, Structural)]
pub enum DeploymentStatus {
    Pending,
    Running,
    Succeeded,
    Failed,
    Cancelled,
}

/// How much an event matters.
#[derive(Clone, Copy, Debug, PartialEq, Eq, Structural)]
pub enum EventSeverity {
    Info,
    Warning,
    Error,
}

/// A time: the nanoseconds since 1970, and the seconds by which the clock that tells it is
/// ahead of UTC.
#[derive(Clone, Copy, Debug, PartialEq, Eq, Structural)]
pub struct Timestamp {
    pub nanos: i128,
    pub offset: i32,
}

/// A server. Times are in nanoseconds since 1970.
#[derive(Clone, Debug, PartialEq, Eq)]
pub struct Server {
    pub id: ServerId,
    pub name: String,
    pub address: String,
    pub mgmt_ip: Option<String>,
    pub status: ServerStatus,
    pub coold_version: Option<String>,
    pub host_id: Option<String>,
    pub capabilities: Vec<String>,
    pub last_seen_at: Option<Timestamp>,
    pub created_at: Timestamp,
    pub updated_at: Timestamp,
}

/// What a `Server` says.
#[verifier::ext_equal]
pub struct ServerView {
    pub id: ServerId,
    pub name: Seq<char>,
    pub address: Seq<char>,
    pub mgmt_ip: Option<Seq<char>>,
    pub status: ServerStatus,
    pub coold_version: Option<Seq<char>>,
    pub host_id: Option<Seq<char>>,
    pub capabilities: Seq<Seq<char>>,
    pub last_seen_at: Option<Timestamp>,
    pub created_at: Timestamp,
    pub updated_at: Timestamp,
}

impl View for Server {
    type V = ServerView;

    open spec fn view(&self) -> ServerView {
        ServerView {
            id: self.id,
            name: self.name@,
            address: self.address@,
            mgmt_ip: text::opt_view(self.mgmt_ip),
            status: self.status,
            coold_version: text::opt_view(self.coold_version),
            host_id: text::opt_view(self.host_id),
            capabilities: text::views(self.capabilities@),
            last_seen_at: self.last_seen_at,
            created_at: self.created_at,
            updated_at: self.updated_at,
        }
    }
}

/// A stream that the scheduler knows.
#[derive(Clone, Debug, PartialEq, Eq)]
pub struct SchedulerStream {
    pub host_id: String,
    pub caps: Vec<String>,
    pub builder_capacity: u32,
}

/// What bringing the servers up to date did.
#[derive(Clone, Debug, PartialEq, Eq)]
pub struct ServerSyncResult {
    pub created: u32,
    pub updated: u32,
    pub server_ids: Vec<ServerId>,
}

/// A container in a list.
#[derive(Clone, Debug, PartialEq, Eq)]
pub struct ContainerSummary {
    pub id: String,
    pub name: String,
    pub image: String,
    pub state: String,
    pub networks: Vec<String>,
}

/// How a server is right now.
#[derive(Clone, Debug, PartialEq, Eq)]
pub struct ServerLiveStatus {
    pub server_id: ServerId,
    pub host_id: Option<String>,
    pub scheduler_configured: bool,
    pub reachable: bool,
    pub capabilities: Vec<String>,
}

/// A cluster.
#[derive(Clone, Debug, PartialEq, Eq)]
pub struct Cluster {
    pub id: ClusterId,
    pub name: String,
    pub description: String,
    pub created_at: Timestamp,
    pub updated_at: Timestamp,
}

/// An application.
#[derive(Clone, Debug, PartialEq, Eq)]
pub struct App {
    pub id: AppId,
    pub name: String,
    pub cluster_id: ClusterId,
    pub git_url: Option<String>,
    pub created_at: Timestamp,
    pub updated_at: Timestamp,
}

/// A build.
#[derive(Clone, Debug, PartialEq, Eq)]
pub struct Build {
    pub id: BuildId,
    pub app_id: Option<AppId>,
    pub server_id: Option<ServerId>,
    pub status: BuildStatus,
    pub image_ref: Option<String>,
    pub message: String,
    pub created_at: Timestamp,
    pub updated_at: Timestamp,
}

/// A deployment.
#[derive(Clone, Debug, PartialEq, Eq)]
pub struct Deployment {
    pub id: DeploymentId,
    pub app_id: AppId,
    pub build_id: Option<BuildId>,
    pub status: DeploymentStatus,
    pub created_at: Timestamp,
    pub updated_at: Timestamp,
}

/// A rule of the container firewall.
#[derive(Clone, Debug, PartialEq, Eq)]
pub struct FirewallPolicy {
    pub id: FirewallRuleId,
    pub namespace: String,
    pub src: String,
    pub dst: String,
    pub proto: Option<String>,
    pub port: Option<u16>,
}

/// Something that happened.
#[derive(Clone, Debug, PartialEq, Eq)]
pub struct Event {
    pub id: EventId,
    pub severity: EventSeverity,
    pub subject: String,
    pub message: String,
    pub created_at: Timestamp,
}

/// What is wrong with a name: it must not be blank, nor longer than 128 bytes once trimmed.
pub open spec fn name_error(field: Seq<char>, value: Seq<char>) -> Option<CoreErrorView> {
    if split::is_blank(value) {
        Some(CoreErrorView::Empty(field))
    } else if output::byte_len(split::trimmed(value)) > 128 {
        Some(CoreErrorView::Invalid(field, "must be at most 128 characters"@))
    } else {
        None
    }
}

/// Whether a check came out as it should.
pub open spec fn checked(r: Result<(), CoreError>, error: Option<CoreErrorView>) -> bool {
    match (r, error) {
        (Ok(_), None) => true,
        (Err(e), Some(v)) => e@ == v,
        _ => false,
    }
}

pub fn validate_name(field: &'static str, value: &str) -> (r: Result<(), CoreError>)
    ensures
        checked(r, name_error(field@, value@)),
{
    if split::blank(value) {
        return Err(CoreError::Empty { field });
    }
    let trimmed: String = split::trim(value);
    if output::cell_len(trimmed.as_str()) > 128 {
        return Err(
            CoreError::Invalid { field, reason: "must be at most 128 characters".to_owned() },
        );
    }
    Ok(())
}

/// `time::OffsetDateTime::now_utc`: the time, told in UTC. Which time it is rests on the
/// clock.
#[verifier::external_body]
pub fn now() -> (r: Timestamp)
    ensures
        r.offset == 0,
{
    let at = time::OffsetDateTime::now_utc();
    Timestamp { nanos: at.unix_timestamp_nanos(), offset: at.offset().whole_seconds() }
}

/// A server of which nothing but its name and address is known.
pub open spec fn new_server(id: ServerId, name: Seq<char>, address: Seq<char>, at: Timestamp) -> ServerView {
    ServerView {
        id,
        name,
        address,
        mgmt_ip: None,
        status: ServerStatus::Unknown,
        coold_version: None,
        host_id: None,
        capabilities: Seq::empty(),
        last_seen_at: None,
        created_at: at,
        updated_at: at,
    }
}

/// What is wrong with a name and an address.
pub open spec fn server_error(name: Seq<char>, address: Seq<char>) -> Option<CoreErrorView> {
    if name_error("server.name"@, name) is Some {
        name_error("server.name"@, name)
    } else {
        name_error("server.address"@, address)
    }
}

impl Server {
    /// A server of which nothing but its name and address is known, with this id and as of
    /// this time.
    pub fn made(id: ServerId, name: &str, address: &str, at: Timestamp) -> (r: Result<Self, CoreError>)
        ensures
            match (r, server_error(name@, address@)) {
                (Ok(s), None) => s@ == new_server(id, name@, address@, at),
                (Err(e), Some(v)) => e@ == v,
                _ => false,
            },
    {
        validate_name("server.name", name)?;
        validate_name("server.address", address)?;
        let s: Server = Server {
            id,
            name: name.to_owned(),
            address: address.to_owned(),
            mgmt_ip: None,
            status: ServerStatus::Unknown,
            coold_version: None,
            host_id: None,
            capabilities: Vec::new(),
            last_seen_at: None,
            created_at: at,
            updated_at: at,
        };
        proof {
            assert(text::views(s.capabilities@) =~= Seq::empty());
        }
        Ok(s)
    }

    /// A new server of which nothing but its name and address is known.
    pub fn new(name: &str, address: &str) -> (r: Result<Self, CoreError>)
        ensures
            match (r, server_error(name@, address@)) {
                (Ok(s), None) => time_ordered(s.id.0) && s@ == new_server(
                    s.id,
                    name@,
                    address@,
                    s.created_at,
                ),
                (Err(e), Some(v)) => e@ == v,
                _ => false,
            },
    {
        Server::made(ServerId::new(), name, address, now())
    }
}

impl Cluster {
    /// A cluster with this id and as of this time.
    pub fn made(id: ClusterId, name: &str, description: &str, at: Timestamp) -> (r: Result<
        Self,
        CoreError,
    >)
        ensures
            match (r, name_error("cluster.name"@, name@)) {
                (Ok(c), None) => c.id == id && c.name@ == name@ && c.description@ == description@
                    && c.created_at == at && c.updated_at == at,
                (Err(e), Some(v)) => e@ == v,
                _ => false,
            },
    {
        validate_name("cluster.name", name)?;
        Ok(
            Cluster {
                id,
                name: name.to_owned(),
                description: description.to_owned(),
                created_at: at,
                updated_at: at,
            },
        )
    }

    /// A new cluster.
    pub fn new(name: &str, description: &str) -> (r: Result<Self, CoreError>)
        ensures
            match (r, name_error("cluster.name"@, name@)) {
                (Ok(c), None) => time_ordered(c.id.0) && c.name@ == name@ && c.description@
                    == description@ && c.created_at == c.updated_at,
                (Err(e), Some(v)) => e@ == v,
                _ => false,
            },
    {
        Cluster::made(ClusterId::new(), name, description, now())
    }
}

impl Event {
    /// An event of interest, with this id and as of this time.
    pub fn made(id: EventId, subject: &str, message: &str, at: Timestamp) -> (r: Result<
        Self,
        CoreError,
    >)
        ensures
            match (r, name_error("event.subject"@, subject@)) {
                (Ok(e), None) => e.id == id && e.severity == EventSeverity::Info && e.subject@
                    == subject@ && e.message@ == message@ && e.created_at == at,
                (Err(e), Some(v)) => e@ == v,
                _ => false,
            },
    {
        validate_name("event.subject", subject)?;
        Ok(
            Event {
                id,
                severity: EventSeverity::Info,
                subject: subject.to_owned(),
                message: message.to_owned(),
                created_at: at,
            },
        )
    }

    /// A new event of interest.
    pub fn info(subject: &str, message: &str) -> (r: Result<Self, CoreError>)
        ensures
            match (r, name_error("event.subject"@, subject@)) {
                (Ok(e), None) => time_ordered(e.id.0) && e.severity == EventSeverity::Info
                    && e.subject@ == subject@ && e.message@ == message@,
                (Err(e), Some(v)) => e@ == v,
                _ => false,
            },
    {
        Event::made(EventId::new(), subject, message, now())
    }
}

} // verus!
