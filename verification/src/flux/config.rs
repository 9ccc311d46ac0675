//! How flux is set up.

use vstd::prelude::*;
use vstd::string::StringExecFns;
use crate::keyed::StrMap;
use crate::split;
use crate::text;

verus! {

/// Where flux logs to.
pub const FLUX_LOG_FILE_PATH: &'static str = "/var/www/html/storage/logs/flux.log";

/// How flux is set up.
#[derive(Clone, Debug)]
pub struct Config {
    /// The address that agents dial.
    pub grpc_bind: String,
    /// The socket that the control plane connects to.
    pub unix_socket_path: String,
    /// Who may use the socket besides flux itself.
    pub unix_socket_group: Option<String>,
    /// How many requests may be under way at once.
    pub pending_max: usize,
    /// Where the default key is read from.
    pub jwt_public_key_path: String,
    /// The default key.
    pub jwt_public_key: String,
    /// Where more keys are read from, each from a file named after its id.
    pub jwt_keys_dir: Option<String>,
    /// More keys by their ids.
    pub jwt_additional_keys: StrMap<String>,
    /// Whether a token has to be bound to the host that presents it.
    pub require_host_binding: bool,
    /// Whether a token has to name a tenant.
    pub require_team_id: bool,
    /// Whether a wildcard in a token grants everything.
    pub allow_wildcard_capabilities: bool,
    /// How long a token may last; nothing is no limit.
    pub max_token_lifetime_secs: u64,
    /// Where the denylist is kept.
    pub revocation_path: String,
    /// The certificate of the listener, where it runs over TLS.
    pub tls_cert_path: Option<String>,
    /// The key of the listener, where it runs over TLS.
    pub tls_key_path: Option<String>,
    /// What is logged.
    pub log_level: String,
    /// How long a request may take.
    pub dispatch_timeout_secs: u64,
    /// The name of this flux.
    pub flux_id: Option<String>,
    /// Where agents dial it.
    pub flux_public_url: Option<String>,
    /// Where the control plane dials it.
    pub flux_internal_url: Option<String>,
    /// Where it stands.
    pub flux_region: Option<String>,
    /// The control plane, where it is reported to.
    pub laravel_api_url: Option<String>,
    /// The token for the control plane.
    pub laravel_api_token: Option<String>,
    /// How many agents it takes.
    pub agent_capacity: usize,
    /// How often it reports.
    pub laravel_heartbeat_interval_secs: u64,
    /// How often it pings the agents.
    pub coold_ping_interval_secs: u64,
    /// How long an agent may be silent.
    pub coold_pong_timeout_secs: u64,
}

impl Config {
    /// The defaults, for an address that agents dial.
    pub fn new(grpc_bind: String) -> (r: Self)
        ensures
            r.grpc_bind == grpc_bind,
            r.unix_socket_path@ == "/run/coolify/flux.sock"@,
            r.unix_socket_group is None,
            r.pending_max == 10000,
            r.jwt_public_key_path@ == "/etc/coolify/jwt.pub"@,
            r.jwt_public_key@ == ""@,
            r.jwt_keys_dir is None,
            r.jwt_additional_keys@.len() == 0,
            r.require_host_binding,
            r.require_team_id,
            !r.allow_wildcard_capabilities,
            r.max_token_lifetime_secs == 3600,
            r.revocation_path@ == "/var/www/html/storage/app/flux/revocations.json"@,
            r.tls_cert_path is None,
            r.tls_key_path is None,
            r.log_level@ == "info"@,
            r.dispatch_timeout_secs == 30,
            r.flux_id is None,
            r.flux_public_url is None,
            r.flux_internal_url is None,
            r.flux_region is None,
            r.laravel_api_url is None,
            r.laravel_api_token is None,
            r.agent_capacity == 10000,
            r.laravel_heartbeat_interval_secs == 10,
            r.coold_ping_interval_secs == 10,
            r.coold_pong_timeout_secs == 45,
    {
        Config {
            grpc_bind,
            unix_socket_path: "/run/coolify/flux.sock".to_owned(),
            unix_socket_group: None,
            pending_max: 10000,
            jwt_public_key_path: "/etc/coolify/jwt.pub".to_owned(),
            jwt_public_key: "".to_owned(),
            jwt_keys_dir: None,
            jwt_additional_keys: StrMap::new(),
            require_host_binding: true,
            require_team_id: true,
            allow_wildcard_capabilities: false,
            max_token_lifetime_secs: 3600,
            revocation_path: "/var/www/html/storage/app/flux/revocations.json".to_owned(),
            tls_cert_path: None,
            tls_key_path: None,
            log_level: "info".to_owned(),
            dispatch_timeout_secs: 30,
            flux_id: None,
            flux_public_url: None,
            flux_internal_url: None,
            flux_region: None,
            laravel_api_url: None,
            laravel_api_token: None,
            agent_capacity: 10000,
            laravel_heartbeat_interval_secs: 10,
            coold_ping_interval_secs: 10,
            coold_pong_timeout_secs: 45,
        }
    }
}

/// Whether a text turns a switch on.
pub open spec fn truthy(s: Seq<char>) -> bool {
    let v = split::lowered(split::trimmed(s));
    v == "1"@ || v == "true"@ || v == "yes"@ || v == "on"@
}

/// Whether a text turns a switch off.
pub open spec fn falsy(s: Seq<char>) -> bool {
    let v = split::lowered(split::trimmed(s));
    v == "0"@ || v == "false"@ || v == "no"@ || v == "off"@
}

/// An optional value by its characters.
pub open spec fn value_view(v: Option<&str>) -> Option<Seq<char>> {
    match v {
        Some(s) => Some(s@),
        None => None,
    }
}

/// A switch that is off unless it is turned on.
pub fn env_flag(value: Option<&str>) -> (r: bool)
    ensures
        r == (value_view(value) matches Some(s) && truthy(s)),
{
    match value {
        Some(v) => {
            let t: String = split::to_lower(split::trim(v).as_str());
            let s: &str = t.as_str();
            text::same(s, "1") || text::same(s, "true") || text::same(s, "yes") || text::same(
                s,
                "on",
            )
        },
        None => false,
    }
}

/// A switch that is on unless it is turned off.
pub fn flag_default_true(value: Option<&str>) -> (r: bool)
    ensures
        r == !(value_view(value) matches Some(s) && falsy(s)),
{
    match value {
        Some(v) => {
            let t: String = split::to_lower(split::trim(v).as_str());
            let s: &str = t.as_str();
            !(text::same(s, "0") || text::same(s, "false") || text::same(s, "no") || text::same(
                s,
                "off",
            ))
        },
        None => true,
    }
}

/// The id of the key in a file of this name: what stands before `.pub`, where anything does.
pub open spec fn kid_of(name: Seq<char>) -> Option<Seq<char>> {
    match text::rsplit_once_spec(name, '.') {
        Some((stem, ext)) => if stem.len() > 0 && ext == "pub"@ {
            Some(stem)
        } else {
            None
        },
        None => None,
    }
}

/// The id of the key in a file of this name; other files hold no key.
pub fn key_id(name: &str) -> (r: Option<String>)
    ensures
        text::opt_view(r) == kid_of(name@),
{
    match text::rsplit_once(name, '.') {
        Some((stem, ext)) => if !stem.as_str().is_empty() && text::same(ext.as_str(), "pub") {
            Some(stem)
        } else {
            None
        },
        None => None,
    }
}

/// How often something is done: at least every second.
pub fn at_least_a_second(secs: u64) -> (r: u64)
    ensures
        r == (if secs < 1 {
            1u64
        } else {
            secs
        }),
{
    if secs < 1 {
        1
    } else {
        secs
    }
}

} // verus!
