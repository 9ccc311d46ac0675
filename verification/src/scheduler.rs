//! The scheduler: its set-up, the tokens it takes and what it reports of itself.

use vstd::prelude::*;
use vstd::string::StringExecFns;
use crate::flux::resource_status;
use crate::text;
use crate::token;
use crate::token::TokenHeader;

verus! {

/// How the scheduler is set up.
#[derive(Clone, Debug)]
pub struct Config {
    /// The address that agents dial.
    pub grpc_bind: String,
    /// The socket that the control plane connects to.
    pub unix_socket_path: String,
    /// Who may use the socket besides the scheduler itself.
    pub unix_socket_group: Option<String>,
    /// How many requests may be under way at once.
    pub pending_max: usize,
    /// Where the key is read from.
    pub jwt_public_key_path: String,
    /// The key.
    pub jwt_public_key: String,
    /// What is logged.
    pub log_level: String,
    /// How long a request may take.
    pub dispatch_timeout_secs: u64,
    /// The name of this scheduler.
    pub scheduler_id: Option<String>,
    /// Where agents dial it.
    pub scheduler_public_url: Option<String>,
    /// Where the control plane dials it.
    pub scheduler_internal_url: Option<String>,
    /// Where it stands.
    pub scheduler_region: Option<String>,
    /// The control plane, where it is reported to.
    pub laravel_api_url: Option<String>,
    /// The token for the control plane.
    pub laravel_api_token: Option<String>,
    /// How many agents it takes.
    pub agent_capacity: usize,
    /// How often it reports.
    pub laravel_heartbeat_interval_secs: u64,
}

impl Config {
    /// The defaults, for an address that agents dial.
    pub fn new(grpc_bind: String) -> (r: Self)
        ensures
            r.grpc_bind == grpc_bind,
            r.unix_socket_path@ == "/run/coolify/scheduler.sock"@,
            r.unix_socket_group is None,
            r.pending_max == 10000,
            r.jwt_public_key_path@ == "/etc/coolify/jwt.pub"@,
            r.jwt_public_key@ == ""@,
            r.log_level@ == "info"@,
            r.dispatch_timeout_secs == 30,
            r.scheduler_id is None,
            r.scheduler_public_url is None,
            r.scheduler_internal_url is None,
            r.scheduler_region is None,
            r.laravel_api_url is None,
            r.laravel_api_token is None,
            r.agent_capacity == 10000,
            r.laravel_heartbeat_interval_secs == 10,
    {
        Config {
            grpc_bind,
            unix_socket_path: "/run/coolify/scheduler.sock".to_owned(),
            unix_socket_group: None,
            pending_max: 10000,
            jwt_public_key_path: "/etc/coolify/jwt.pub".to_owned(),
            jwt_public_key: "".to_owned(),
            log_level: "info".to_owned(),
            dispatch_timeout_secs: 30,
            scheduler_id: None,
            scheduler_public_url: None,
            scheduler_internal_url: None,
            scheduler_region: None,
            laravel_api_url: None,
            laravel_api_token: None,
            agent_capacity: 10000,
            laravel_heartbeat_interval_secs: 10,
        }
    }
}

/// What a token claims.
#[derive(Clone, Debug)]
pub struct Claims {
    /// The host that the token was made for.
    pub sub: String,
    pub caps: Vec<String>,
    /// When it expires, in seconds since 1970, where it says so.
    pub exp: Option<u64>,
}

/// A token that was verified.
#[derive(Clone, Debug)]
pub struct VerifiedJwt {
    pub host_id: String,
    pub caps: Vec<String>,
}

/// The kind of the key and the algorithm that a token is to be verified with, or why it is
/// refused before that.
pub open spec fn checked_alg(token: Seq<char>, pem: Seq<char>) -> Result<
    (bool, Seq<char>),
    Seq<char>,
> {
    match token::curve_of(pem) {
        Err(e) => Err(e),
        Ok(ec) => match token::header_of(token) {
            Err(e) => Err(token::header_error_text(e)),
            Ok((alg, _)) => if token::alg_fits(ec, alg) {
                Ok((ec, alg))
            } else {
                Err(token::alg_error_text(alg))
            },
        },
    }
}

/// What becomes of signed claims, read or not: they must not have expired, and must not be
/// misdirected.
pub open spec fn judged(
    r: Result<VerifiedJwt, String>,
    claims: Result<Claims, String>,
    misdirected: Option<Seq<char>>,
    now: u64,
) -> bool {
    match claims {
        Err(t) => r matches Err(e) && e@ == token::decode_error_text(token::unreadable_text(t@)),
        Ok(c) => if c.exp is Some && token::overdue(c.exp->Some_0, now) {
            r matches Err(e) && e@ == token::decode_error_text(token::EXPIRED@)
        } else if misdirected is Some {
            r matches Err(e) && e@ == token::decode_error_text(misdirected->Some_0)
        } else {
            r matches Ok(v) && v.host_id == c.sub && v.caps == c.caps
        },
    }
}

/// Judges signed claims.
pub fn judge_claims(
    claims: Result<Claims, String>,
    misdirected: Option<String>,
    now: u64,
) -> (r: Result<VerifiedJwt, String>)
    ensures
        judged(r, claims, text::opt_view(misdirected), now),
{
    match claims {
        Err(e) => Err(token::decode_error(token::unreadable(e.as_str()).as_str())),
        Ok(c) => {
            let expired: bool = match c.exp {
                Some(exp) => token::has_expired(exp, now),
                None => false,
            };
            if expired {
                Err(token::decode_error(token::EXPIRED))
            } else {
                match misdirected {
                    Some(e) => Err(token::decode_error(e.as_str())),
                    None => Ok(VerifiedJwt { host_id: c.sub, caps: c.caps }),
                }
            }
        },
    }
}

/// Verifies a token. The algorithm in its header has to work with the key, the key has to have
/// signed the token for us, and the claims that `parse` reads must not have expired at `now`.
pub fn verify_jwt<F: Fn(&str) -> Result<Claims, String>>(
    token: &str,
    public_key_pem: &str,
    now: u64,
    parse: F,
) -> (r: Result<VerifiedJwt, String>)
    requires
        forall|json: &str| #[trigger] call_requires(parse, (json,)),
    ensures
        match checked_alg(token@, public_key_pem@) {
            Err(t) => r matches Err(e) && e@ == t,
            Ok((ec, alg)) => match token::signed_claims(
                token@,
                public_key_pem@,
                ec,
                alg,
                token::AUDIENCE@,
                false,
            ) {
                Err(t) => r matches Err(e) && e@ == token::decode_error_text(t),
                Ok(signed) => exists|json: &str, claims: Result<Claims, String>|
                    {
                        &&& json@ == signed
                        &&& #[trigger] call_ensures(parse, (json,), claims)
                        &&& judged(
                            r,
                            claims,
                            token::misdirected(token@, public_key_pem@, ec, alg),
                            now,
                        )
                    },
            },
        },
{
    let ec: bool = token::read_key(public_key_pem)?;
    let header: TokenHeader = token::read_header(token)?;
    token::check_fit(ec, header.alg.as_str())?;
    let json: String = token::read_claims(token, public_key_pem, ec, header.alg.as_str())?;
    let signed: &str = json.as_str();
    let claims: Result<Claims, String> = parse(signed);
    proof {
        assert(call_ensures(parse, (signed,), claims));
    }
    let misdirected: Option<String> = token::check_audience(
        token,
        public_key_pem,
        ec,
        header.alg.as_str(),
    );
    judge_claims(claims, misdirected, now)
}

/// What the scheduler reports of itself.
#[derive(Clone, Debug, PartialEq, Eq)]
pub struct HeartbeatPayload {
    pub scheduler_id: String,
    pub public_url: String,
    pub internal_url: String,
    pub region: Option<String>,
    pub capacity: usize,
    pub connected_agents_count: usize,
}

/// An optional text by its characters.
pub open spec fn region_view(s: Option<&str>) -> Option<Seq<char>> {
    match s {
        Some(s) => Some(s@),
        None => None,
    }
}

impl HeartbeatPayload {
    pub fn new(
        scheduler_id: &str,
        public_url: &str,
        internal_url: &str,
        region: Option<&str>,
        capacity: usize,
        connected_agents_count: usize,
    ) -> (r: Self)
        ensures
            r.scheduler_id@ == scheduler_id@,
            r.public_url@ == public_url@,
            r.internal_url@ == internal_url@,
            text::opt_view(r.region) == region_view(region),
            r.capacity == capacity,
            r.connected_agents_count == connected_agents_count,
    {
        let region: Option<String> = match region {
            Some(s) => Some(s.to_owned()),
            None => None,
        };
        HeartbeatPayload {
            scheduler_id: scheduler_id.to_owned(),
            public_url: public_url.to_owned(),
            internal_url: internal_url.to_owned(),
            region,
            capacity,
            connected_agents_count,
        }
    }
}

/// What the scheduler reports of an agent that has connected.
#[derive(Clone, Debug, PartialEq, Eq)]
pub struct AgentConnectionPayload {
    pub scheduler_id: String,
    pub host_id: String,
    pub capabilities: Vec<String>,
    pub builder_capacity: u32,
    pub coold_version: Option<String>,
}

impl AgentConnectionPayload {
    pub fn connected(
        scheduler_id: &str,
        host_id: &str,
        capabilities: Vec<String>,
        builder_capacity: u32,
        coold_version: Option<String>,
    ) -> (r: Self)
        ensures
            r.scheduler_id@ == scheduler_id@,
            r.host_id@ == host_id@,
            r.capabilities == capabilities,
            r.builder_capacity == builder_capacity,
            r.coold_version == coold_version,
    {
        AgentConnectionPayload {
            scheduler_id: scheduler_id.to_owned(),
            host_id: host_id.to_owned(),
            capabilities,
            builder_capacity,
            coold_version,
        }
    }
}

/// What the scheduler reports of an agent that has left.
#[derive(Clone, Debug, PartialEq, Eq)]
pub struct DisconnectPayload {
    pub scheduler_id: String,
    pub host_id: String,
    pub reason: String,
}

/// Where the scheduler reports to, and as whom.
#[derive(Clone, Debug)]
pub struct RegistryClient {
    pub base_url: String,
    pub token: String,
    pub scheduler_id: String,
    pub public_url: String,
    pub internal_url: String,
    pub region: Option<String>,
    pub capacity: usize,
}

/// What a report is about.
#[derive(Clone, Copy, Debug, PartialEq, Eq, Structural)]
pub enum Report {
    Heartbeat,
    Connected,
    Disconnected,
}

/// Where a report goes.
pub open spec fn report_path(r: Report) -> Seq<char> {
    match r {
        Report::Heartbeat => "/api/v1/internal/schedulers/heartbeat"@,
        Report::Connected => "/api/v1/internal/agent-connections/upsert"@,
        Report::Disconnected => "/api/v1/internal/agent-connections/disconnect"@,
    }
}

impl RegistryClient {
    /// Where the scheduler reports to: nowhere unless the control plane, its token and the
    /// name and addresses of the scheduler are all known.
    pub fn from_config(config: &Config) -> (r: Option<Self>)
        ensures
            match (
                resource_status::some_base(text::opt_view(config.laravel_api_url)),
                resource_status::some_trimmed(text::opt_view(config.laravel_api_token)),
                resource_status::some_trimmed(text::opt_view(config.scheduler_id)),
                resource_status::some_trimmed(text::opt_view(config.scheduler_public_url)),
                resource_status::some_trimmed(text::opt_view(config.scheduler_internal_url)),
            ) {
                (Some(base), Some(token), Some(id), Some(public), Some(internal)) => {
                    &&& r matches Some(c)
                    &&& c.base_url@ == base
                    &&& c.token@ == token
                    &&& c.scheduler_id@ == id
                    &&& c.public_url@ == public
                    &&& c.internal_url@ == internal
                    &&& text::opt_view(c.region) == text::opt_view(config.scheduler_region)
                    &&& c.capacity == config.agent_capacity
                },
                _ => r is None,
            },
    {
        match (
            resource_status::base_opt(&config.laravel_api_url),
            resource_status::trimmed_opt(&config.laravel_api_token),
            resource_status::trimmed_opt(&config.scheduler_id),
            resource_status::trimmed_opt(&config.scheduler_public_url),
            resource_status::trimmed_opt(&config.scheduler_internal_url),
        ) {
            (
                Some(base_url),
                Some(token),
                Some(scheduler_id),
                Some(public_url),
                Some(internal_url),
            ) => Some(
                RegistryClient {
                    base_url,
                    token,
                    scheduler_id,
                    public_url,
                    internal_url,
                    region: text::copy_opt(&config.scheduler_region),
                    capacity: config.agent_capacity,
                },
            ),
            _ => None,
        }
    }

    /// What the scheduler reports of itself.
    pub fn heartbeat_payload(&self, connected_agents_count: usize) -> (r: HeartbeatPayload)
        ensures
            r.scheduler_id@ == self.scheduler_id@,
            r.public_url@ == self.public_url@,
            r.internal_url@ == self.internal_url@,
            text::opt_view(r.region) == text::opt_view(self.region),
            r.capacity == self.capacity,
            r.connected_agents_count == connected_agents_count,
    {
        let region: Option<&str> = match &self.region {
            Some(s) => Some(s.as_str()),
            None => None,
        };
        HeartbeatPayload::new(
            self.scheduler_id.as_str(),
            self.public_url.as_str(),
            self.internal_url.as_str(),
            region,
            self.capacity,
            connected_agents_count,
        )
    }

    /// What the scheduler reports of an agent that has connected.
    pub fn connection_payload(
        &self,
        host_id: &str,
        capabilities: Vec<String>,
        builder_capacity: u32,
        coold_version: Option<String>,
    ) -> (r: AgentConnectionPayload)
        ensures
            r.scheduler_id@ == self.scheduler_id@,
            r.host_id@ == host_id@,
            r.capabilities == capabilities,
            r.builder_capacity == builder_capacity,
            r.coold_version == coold_version,
    {
        AgentConnectionPayload::connected(
            self.scheduler_id.as_str(),
            host_id,
            capabilities,
            builder_capacity,
            coold_version,
        )
    }

    /// What the scheduler reports of an agent that has left.
    pub fn disconnect_payload(&self, host_id: &str, reason: &str) -> (r: DisconnectPayload)
        ensures
            r.scheduler_id@ == self.scheduler_id@,
            r.host_id@ == host_id@,
            r.reason@ == reason@,
    {
        DisconnectPayload {
            scheduler_id: self.scheduler_id.clone(),
            host_id: host_id.to_owned(),
            reason: reason.to_owned(),
        }
    }

    /// Where a report goes.
    pub fn url(&self, report: Report) -> (r: String)
        ensures
            r@ == self.base_url@ + report_path(report),
    {
        let path: &str = match report {
            Report::Heartbeat => "/api/v1/internal/schedulers/heartbeat",
            Report::Connected => "/api/v1/internal/agent-connections/upsert",
            Report::Disconnected => "/api/v1/internal/agent-connections/disconnect",
        };
        let mut out: String = self.base_url.clone();
        out.append(path);
        out
    }
}

/// The failure to report.
pub open spec fn registry_error_text(url: Seq<char>, status: Seq<char>, body: Seq<char>) -> Seq<char> {
    "Laravel registry "@
        + url
        + " returned "@
        + status
        + ": "@
        + body
}

/// The failure to report.
pub fn registry_error(url: &str, status: &str, body: &str) -> (r: String)
    ensures
        r@ == registry_error_text(url@, status@, body@),
{
    let mut out: String = "Laravel registry ".to_owned();
    out.append(url);
    out.append(" returned ");
    out.append(status);
    out.append(": ");
    out.append(body);
    out
}

} // verus!
