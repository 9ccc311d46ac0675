//! Streams of agents: who is let in, what a stream may do and when it ends.

use vstd::prelude::*;
use vstd::string::StringExecFns;
use crate::flux::auth;
use crate::flux::auth::{Claims, HostBinding, JwtKeys, RevocationCheck, VerifiedJwt};
use crate::flux::config;
use crate::flux::envelope;
use crate::flux::envelope::{AgentResponse, ResponseBody};
use crate::flux::resource_status;
use crate::flux::resource_status::ResourceStatusUpdate;
use crate::text;

verus! {

/// The wire schemas that flux speaks.
pub const FLUX_SCHEMA_MIN: u32 = 1;

pub const FLUX_SCHEMA_MAX: u32 = 1;

/// How many states may be on their way to the control plane at once.
pub const STATUS_PUBLISH_CONCURRENCY: usize = 256;

/// Whether two ranges of schemas have one in common.
pub fn schema_overlaps(coold_min: u32, coold_max: u32, flux_min: u32, flux_max: u32) -> (r: bool)
    ensures
        r == (coold_min <= flux_max && coold_max >= flux_min),
{
    coold_min <= flux_max && coold_max >= flux_min
}

/// Whether a schema lies in both ranges.
pub open spec fn common(s: u32, a: u32, b: u32, c: u32, d: u32) -> bool {
    a <= s <= b && c <= s <= d
}

/// Two ranges that are not empty overlap if and only if some schema lies in both.
pub proof fn overlap_is_a_common_schema(a: u32, b: u32, c: u32, d: u32)
    requires
        a <= b,
        c <= d,
    ensures
        (a <= d && b >= c) <==> exists|s: u32| common(s, a, b, c, d),
{
    if a <= d && b >= c {
        let s: u32 = if a <= c {
            c
        } else {
            a
        };
        assert(common(s, a, b, c, d));
    }
}

/// An address to listen on, and the IP address in it, both as they are written out.
#[derive(Clone, Debug)]
pub struct BindAddr {
    pub text: String,
    pub ip: String,
}

/// Whether an address stands for every interface.
pub open spec fn unspecified(ip: Seq<char>) -> bool {
    ip == "0.0.0.0"@ || ip == "::"@
}

/// The refusal to listen on every interface.
pub open spec fn public_bind_text(addr: Seq<char>) -> Seq<char> {
    "refusing to bind "@
        + addr
        + ": COOLIFY_FLUX_GRPC_BIND must be a specific interface IP (typically the WireGuard mgmt IP). Set COOLIFY_FLUX_ALLOW_PUBLIC_BIND=1 to override (dev only — JWTs cross the wire in cleartext)."@
}

/// The refusal to listen on every interface.
fn public_bind(addr: &str) -> (r: String)
    ensures
        r@ == public_bind_text(addr@),
{
    let mut out: String = "refusing to bind ".to_owned();
    out.append(addr);
    out.append(": COOLIFY_FLUX_GRPC_BIND must be a specific interface IP (typically the WireGuard mgmt IP). Set COOLIFY_FLUX_ALLOW_PUBLIC_BIND=1 to override (dev only — JWTs cross the wire in cleartext).");
    out
}

/// Refuses to listen on every interface, unless that is allowed.
pub fn validate_bind(addr: &BindAddr, allow_public: bool) -> (r: Result<(), String>)
    ensures
        match r {
            Ok(_) => !unspecified(addr.ip@) || allow_public,
            Err(e) => unspecified(addr.ip@) && !allow_public && e@ == public_bind_text(addr.text@),
        },
{
    let ip: &str = addr.ip.as_str();
    if (text::same(ip, "0.0.0.0") || text::same(ip, "::")) && !allow_public {
        Err(public_bind(addr.text.as_str()))
    } else {
        Ok(())
    }
}

/// Whether listening on every interface is allowed.
pub fn allow_public_bind(value: Option<&str>) -> (r: bool)
    ensures
        r == (config::value_view(value) == Some("1"@)),
{
    match value {
        Some(v) => text::same(v, "1"),
        None => false,
    }
}

/// Where the certificate and the key of the listener are. It stays in plaintext unless both
/// are named.
pub fn tls_paths(cert: &Option<String>, key: &Option<String>) -> (r: Option<(String, String)>)
    ensures
        match (*cert, *key) {
            (Some(c), Some(k)) => r matches Some((a, b)) && a@ == c@ && b@ == k@,
            _ => r is None,
        },
{
    match (cert, key) {
        (Some(c), Some(k)) => Some((c.clone(), k.clone())),
        _ => None,
    }
}

/// Whether a capability stands for all.
pub open spec fn wildcard(cap: Seq<char>) -> bool {
    cap == "*"@ || cap == "host-agent:dev"@ || cap == "host-agent:default"@
}

pub fn capability_profile_authorizes_all(capability: &str) -> (r: bool)
    ensures
        r == wildcard(capability@),
{
    text::same(capability, "*") || text::same(capability, "host-agent:dev") || text::same(
        capability,
        "host-agent:default",
    )
}

/// Whether any of the capabilities stands for all.
pub open spec fn has_wildcard(caps: Seq<Seq<char>>) -> bool {
    exists|i: int| 0 <= i < caps.len() && wildcard(#[trigger] caps[i])
}

pub fn contains_wildcard_profile(jwt_caps: &Vec<String>) -> (r: bool)
    ensures
        r == has_wildcard(text::views(jwt_caps@)),
{
    let ghost caps = text::views(jwt_caps@);
    let mut i: usize = 0;
    while i < jwt_caps.len()
        invariant
            i <= jwt_caps@.len(),
            caps == text::views(jwt_caps@),
            forall|j: int| 0 <= j < i ==> !wildcard(#[trigger] caps[j]),
        decreases jwt_caps@.len() - i,
    {
        proof {
            assert(caps[i as int] == jwt_caps@[i as int]@);
        }
        if capability_profile_authorizes_all(jwt_caps[i].as_str()) {
            return true;
        }
        i = i + 1;
    }
    false
}

/// Those of `all` that stand in `some`, or those that do not, in order.
pub open spec fn chosen(all: Seq<Seq<char>>, some: Seq<Seq<char>>, inside: bool) -> Seq<Seq<char>>
    decreases all.len(),
{
    if all.len() == 0 {
        Seq::empty()
    } else if some.contains(all.last()) == inside {
        chosen(all.drop_last(), some, inside).push(all.last())
    } else {
        chosen(all.drop_last(), some, inside)
    }
}

fn choose_from(all: &Vec<String>, some: &Vec<String>, inside: bool) -> (r: Vec<String>)
    ensures
        text::views(r@) == chosen(text::views(all@), text::views(some@), inside),
{
    broadcast use text::views_push;

    let ghost vs = text::views(all@);
    let ghost ss = text::views(some@);
    let mut out: Vec<String> = Vec::new();
    let mut i: usize = 0;
    proof {
        assert(vs.take(0) =~= Seq::empty());
        assert(text::views(out@) =~= Seq::empty());
    }
    while i < all.len()
        invariant
            i <= all@.len(),
            vs == text::views(all@),
            ss == text::views(some@),
            text::views(out@) == chosen(vs.take(i as int), ss, inside),
        decreases all@.len() - i,
    {
        proof {
            assert(vs.take(i + 1).drop_last() =~= vs.take(i as int));
            assert(vs.take(i + 1).last() == all@[i as int]@);
        }
        if text::has_string(some, all[i].as_str()) == inside {
            out.push(all[i].clone());
        }
        i = i + 1;
    }
    proof {
        assert(vs.take(i as int) =~= vs);
    }
    out
}

/// What a stream may do: what the agent can do and the token grants. Only where wildcards
/// are honored does one grant all that the agent can do.
pub open spec fn effective(advertised: Seq<Seq<char>>, jwt: Seq<Seq<char>>, allow_wildcard: bool) -> Seq<
    Seq<char>,
> {
    if allow_wildcard && has_wildcard(jwt) {
        advertised
    } else {
        chosen(advertised, jwt, true)
    }
}

pub fn effective_capabilities(
    advertised: &Vec<String>,
    jwt_caps: &Vec<String>,
    allow_wildcard: bool,
) -> (r: Vec<String>)
    ensures
        text::views(r@) == effective(
            text::views(advertised@),
            text::views(jwt_caps@),
            allow_wildcard,
        ),
{
    if allow_wildcard && contains_wildcard_profile(jwt_caps) {
        return text::copy_strings(advertised);
    }
    choose_from(advertised, jwt_caps, true)
}

/// What the agent can do and the stream may not.
pub fn missing_capabilities(advertised: &Vec<String>, effective: &Vec<String>) -> (r: Vec<String>)
    ensures
        text::views(r@) == chosen(text::views(advertised@), text::views(effective@), false),
{
    choose_from(advertised, effective, false)
}

proof fn chosen_holds(all: Seq<Seq<char>>, some: Seq<Seq<char>>, inside: bool, x: Seq<char>)
    ensures
        chosen(all, some, inside).contains(x) <==> all.contains(x) && some.contains(x) == inside,
    decreases all.len(),
{
    if all.len() > 0 {
        let p = all.drop_last();
        chosen_holds(p, some, inside, x);
        crate::cli::init::contains_push(p, all.last(), x);
        assert(all =~= p.push(all.last()));
        crate::cli::init::contains_push(chosen(p, some, inside), all.last(), x);
    } else {
        assert(!all.contains(x));
        assert(!chosen(all, some, inside).contains(x));
    }
}

/// What a stream may do is what the agent can do and the token grants: the claim of the
/// token is authoritative. A wildcard grants nothing by itself.
pub proof fn claims_are_authoritative(advertised: Seq<Seq<char>>, jwt: Seq<Seq<char>>, x: Seq<char>)
    ensures
        effective(advertised, jwt, false).contains(x) <==> advertised.contains(x) && jwt.contains(
            x,
        ),
        effective(advertised, jwt, true).contains(x) <==> advertised.contains(x) && (jwt.contains(
            x,
        ) || has_wildcard(jwt)),
{
    chosen_holds(advertised, jwt, true, x);
}

/// A token that holds nothing but wildcards grants nothing to an agent that advertises none
/// of them, unless wildcards are honored.
pub proof fn wildcards_grant_nothing(advertised: Seq<Seq<char>>, jwt: Seq<Seq<char>>)
    requires
        forall|i: int| 0 <= i < jwt.len() ==> wildcard(#[trigger] jwt[i]),
        forall|i: int| 0 <= i < advertised.len() ==> !wildcard(#[trigger] advertised[i]),
    ensures
        effective(advertised, jwt, false) == Seq::<Seq<char>>::empty(),
{
    let e = effective(advertised, jwt, false);
    if e.len() > 0 {
        assert(e.contains(e[0]));
        claims_are_authoritative(advertised, jwt, e[0]);
    }
    assert(e =~= Seq::<Seq<char>>::empty());
}

/// Each capability of an agent is either one that the stream may use or one that it misses.
pub proof fn capabilities_are_split(
    advertised: Seq<Seq<char>>,
    jwt: Seq<Seq<char>>,
    allow_wildcard: bool,
    x: Seq<char>,
)
    requires
        advertised.contains(x),
    ensures
        effective(advertised, jwt, allow_wildcard).contains(x) != chosen(
            advertised,
            effective(advertised, jwt, allow_wildcard),
            false,
        ).contains(x),
{
    chosen_holds(advertised, effective(advertised, jwt, allow_wildcard), false, x);
}

/// A stream misses nothing but what its agent advertises.
pub proof fn only_advertised_are_missing(
    advertised: Seq<Seq<char>>,
    jwt: Seq<Seq<char>>,
    allow_wildcard: bool,
    x: Seq<char>,
)
    requires
        !advertised.contains(x),
    ensures
        !chosen(advertised, effective(advertised, jwt, allow_wildcard), false).contains(x),
{
    chosen_holds(advertised, effective(advertised, jwt, allow_wildcard), false, x);
}

/// Why a stream is refused. What an agent is told does not tell one bad credential from
/// another.
#[derive(Clone, Copy, Debug, PartialEq, Eq, Structural)]
pub enum Refusal {
    InvalidCredentials,
    HelloRequired,
    IncompatibleSchema,
}

impl Refusal {
    /// What the agent is told.
    pub open spec fn told(self) -> Seq<char> {
        match self {
            Refusal::InvalidCredentials => "invalid credentials"@,
            Refusal::HelloRequired => "hello required"@,
            Refusal::IncompatibleSchema => "coold/flux schema versions are incompatible"@,
        }
    }

    /// What the agent is told.
    pub fn message(&self) -> (r: &'static str)
        ensures
            r@ == self.told(),
    {
        match self {
            Refusal::InvalidCredentials => "invalid credentials",
            Refusal::HelloRequired => "hello required",
            Refusal::IncompatibleSchema => "coold/flux schema versions are incompatible",
        }
    }

    /// The gRPC status that goes with it.
    pub open spec fn grpc_status(self) -> Seq<char> {
        match self {
            Refusal::InvalidCredentials => "UNAUTHENTICATED"@,
            Refusal::HelloRequired => "INVALID_ARGUMENT"@,
            Refusal::IncompatibleSchema => "FAILED_PRECONDITION"@,
        }
    }

    /// The gRPC status that goes with it.
    pub fn status(&self) -> (r: &'static str)
        ensures
            r@ == self.grpc_status(),
    {
        match self {
            Refusal::InvalidCredentials => "UNAUTHENTICATED",
            Refusal::HelloRequired => "INVALID_ARGUMENT",
            Refusal::IncompatibleSchema => "FAILED_PRECONDITION",
        }
    }
}

/// The token in the header of a request.
pub fn bearer(authorization: Option<&str>) -> (r: Result<String, Refusal>)
    ensures
        match (config::value_view(authorization), r) {
            (Some(h), Ok(t)) => text::strip_prefix_spec(h, "Bearer "@) == Some(t@),
            (Some(h), Err(e)) => text::strip_prefix_spec(h, "Bearer "@) is None && e
                == Refusal::InvalidCredentials,
            (None, Ok(_)) => false,
            (None, Err(e)) => e == Refusal::InvalidCredentials,
        },
{
    match authorization {
        Some(h) => match text::strip_prefix(h, "Bearer ") {
            Some(t) => Ok(t),
            None => Err(Refusal::InvalidCredentials),
        },
        None => Err(Refusal::InvalidCredentials),
    }
}

/// Lets a token in, where it was verified and names its tenant if it has to.
pub fn admit_token(verified: Result<VerifiedJwt, String>, require_team_id: bool) -> (r: Result<
    VerifiedJwt,
    Refusal,
>)
    ensures
        match (verified, r) {
            (Ok(v), Ok(w)) => v == w && auth::tenant_named(
                text::opt_view(v.team_id),
                require_team_id,
            ),
            (Ok(v), Err(e)) => e == Refusal::InvalidCredentials && !auth::tenant_named(
                text::opt_view(v.team_id),
                require_team_id,
            ),
            (Err(_), Ok(_)) => false,
            (Err(_), Err(e)) => e == Refusal::InvalidCredentials,
        },
{
    match verified {
        Ok(v) => {
            let team: Option<&str> = match &v.team_id {
                Some(t) => Some(t.as_str()),
                None => None,
            };
            if auth::team_id_satisfied(team, require_team_id) {
                Ok(v)
            } else {
                Err(Refusal::InvalidCredentials)
            }
        },
        Err(_) => Err(Refusal::InvalidCredentials),
    }
}

/// A refusal, and the reason that only the log gets.
#[derive(Clone, Debug)]
pub struct Rejection {
    pub refusal: Refusal,
    pub reason: String,
}

/// The token in the header of a request.
pub open spec fn bearer_of(authorization: Option<Seq<char>>) -> Option<Seq<char>> {
    match authorization {
        Some(h) => text::strip_prefix_spec(h, "Bearer "@),
        None => None,
    }
}

/// What is answered to a token that was verified or not: it has to name its tenant if it has
/// to.
pub open spec fn answered(
    r: Result<VerifiedJwt, Rejection>,
    v: Result<VerifiedJwt, String>,
    require_team_id: bool,
) -> bool {
    match v {
        Err(e) => r matches Err(x) && x.refusal == Refusal::InvalidCredentials && x.reason@ == e@,
        Ok(w) => if auth::tenant_named(text::opt_view(w.team_id), require_team_id) {
            r matches Ok(y) && y == w
        } else {
            r matches Err(x) && x.refusal == Refusal::InvalidCredentials && x.reason@
                == "missing or blank team_id (tenant) claim"@
        },
    }
}

/// Decides on the header of a request: it has to hold a token that is verified and names its
/// tenant if it has to. Whatever is wrong, the agent is told the same; the reason says what.
pub fn authenticate<R: RevocationCheck, F: Fn(&str) -> Result<Claims, String>>(
    authorization: Option<&str>,
    keys: &JwtKeys,
    revocation: &R,
    now: u64,
    max_lifetime_secs: u64,
    require_team_id: bool,
    parse: F,
) -> (r: Result<VerifiedJwt, Rejection>)
    requires
        forall|json: &str| #[trigger] call_requires(parse, (json,)),
    ensures
        match (bearer_of(config::value_view(authorization)), r) {
            (None, Ok(_)) => false,
            (None, Err(x)) => x.refusal == Refusal::InvalidCredentials && x.reason@
                == "missing or malformed Authorization"@,
            (Some(token), _) => exists|v: Result<VerifiedJwt, String>|
                {
                    &&& auth::verified(
                        v,
                        token,
                        *keys,
                        *revocation,
                        now,
                        max_lifetime_secs,
                        parse,
                    )
                    &&& #[trigger] answered(r, v, require_team_id)
                },
        },
{
    let token: String = match bearer(authorization) {
        Ok(t) => t,
        Err(refusal) => {
            return Err(
                Rejection { refusal, reason: "missing or malformed Authorization".to_owned() },
            );
        },
    };
    let checked: Result<VerifiedJwt, String> = auth::verify_jwt(
        token.as_str(),
        keys,
        revocation,
        now,
        max_lifetime_secs,
        parse,
    );
    let ghost v = checked;
    proof {
        assert(auth::verified(v, token@, *keys, *revocation, now, max_lifetime_secs, parse));
    }
    let r: Result<VerifiedJwt, Rejection> = match checked {
        Err(reason) => Err(Rejection { refusal: Refusal::InvalidCredentials, reason }),
        Ok(w) => match admit_token(Ok(w), require_team_id) {
            Ok(w) => Ok(w),
            Err(refusal) => Err(
                Rejection {
                    refusal,
                    reason: "missing or blank team_id (tenant) claim".to_owned(),
                },
            ),
        },
    };
    proof {
        assert(answered(r, v, require_team_id));
    }
    r
}

/// The first thing that an agent says.
#[derive(Clone, Debug)]
pub struct Hello {
    pub capabilities: Vec<String>,
    pub schema_min: u32,
    pub schema_max: u32,
    pub host_mgmt_ip: String,
    pub coold_version: String,
}

/// What a stream was let in with.
#[derive(Clone, Debug)]
pub struct Admission {
    pub binding: HostBinding,
    /// What the stream may do.
    pub effective: Vec<String>,
    /// What the agent can do and the stream may not.
    pub missing: Vec<String>,
    /// Whether the token holds a wildcard that grants nothing.
    pub idle_wildcard: bool,
}

/// Whether the stream is let in as these decide: the schemas have to overlap, and the token
/// has to be bound to the host. `named` is the address that the token names.
pub open spec fn admitted(
    r: Result<Admission, Refusal>,
    named: Option<Seq<char>>,
    host: Seq<char>,
    jwt: Seq<Seq<char>>,
    hello: Hello,
    peer: Option<Seq<char>>,
    require_host_binding: bool,
    allow_wildcard: bool,
) -> bool {
    let advertised = text::views(hello.capabilities@);
    if !(hello.schema_min <= FLUX_SCHEMA_MAX && hello.schema_max >= FLUX_SCHEMA_MIN) {
        r == Err::<Admission, Refusal>(Refusal::IncompatibleSchema)
    } else {
        match auth::binding_of(host, named, hello.host_mgmt_ip@, peer, require_host_binding) {
            Err(_) => r == Err::<Admission, Refusal>(Refusal::InvalidCredentials),
            Ok(b) => {
                &&& r matches Ok(a)
                &&& a.binding@ == b
                &&& text::views(a.effective@) == effective(advertised, jwt, allow_wildcard)
                &&& text::views(a.missing@) == chosen(
                    advertised,
                    effective(advertised, jwt, allow_wildcard),
                    false,
                )
                &&& a.idle_wildcard == (!allow_wildcard && has_wildcard(jwt))
            },
        }
    }
}

/// Decides on a stream, given the address that the token names.
pub fn admit_with(
    named: &Option<String>,
    host_id: &str,
    jwt_caps: &Vec<String>,
    hello: &Hello,
    peer_ip: Option<&str>,
    require_host_binding: bool,
    allow_wildcard: bool,
) -> (r: Result<Admission, Refusal>)
    ensures
        admitted(
            r,
            text::opt_view(*named),
            host_id@,
            text::views(jwt_caps@),
            *hello,
            auth::kid_view(peer_ip),
            require_host_binding,
            allow_wildcard,
        ),
{
    if !schema_overlaps(hello.schema_min, hello.schema_max, FLUX_SCHEMA_MIN, FLUX_SCHEMA_MAX) {
        return Err(Refusal::IncompatibleSchema);
    }
    match auth::binding_with(
        host_id,
        named,
        hello.host_mgmt_ip.as_str(),
        peer_ip,
        require_host_binding,
    ) {
        Err(_) => Err(Refusal::InvalidCredentials),
        Ok(binding) => {
            let effective: Vec<String> = effective_capabilities(
                &hello.capabilities,
                jwt_caps,
                allow_wildcard,
            );
            let missing: Vec<String> = missing_capabilities(&hello.capabilities, &effective);
            let idle_wildcard: bool = !allow_wildcard && contains_wildcard_profile(jwt_caps);
            Ok(Admission { binding, effective, missing, idle_wildcard })
        },
    }
}

/// Decides on a stream once the agent has said hello.
pub fn admit_stream(
    host_id: &str,
    jwt_caps: &Vec<String>,
    hello: &Hello,
    peer_ip: Option<&str>,
    require_host_binding: bool,
    allow_wildcard: bool,
) -> (r: Result<Admission, Refusal>)
    ensures
        admitted(
            r,
            auth::canonical_ip(host_id@),
            host_id@,
            text::views(jwt_caps@),
            *hello,
            auth::kid_view(peer_ip),
            require_host_binding,
            allow_wildcard,
        ),
{
    let named: Option<String> = auth::read_ip(host_id);
    admit_with(
        &named,
        host_id,
        jwt_caps,
        hello,
        peer_ip,
        require_host_binding,
        allow_wildcard,
    )
}

/// What happens on a stream.
#[derive(Clone, Copy, Debug, PartialEq, Eq, Structural)]
pub enum StreamEvent {
    /// The token has expired.
    Expired,
    Closed,
    Failed,
    Response,
    StatusUpdate,
    /// The agent answered a ping; it may have been taken for unreachable.
    Pong { restored: bool },
    /// The agent said hello again.
    Hello,
    Other,
}

/// What is done then.
#[derive(Clone, Copy, Debug, PartialEq, Eq, Structural)]
pub enum StreamStep {
    Stop(Disconnect),
    Deliver,
    Publish,
    /// Tell that the agent is back.
    Restore,
    Ignore,
}

/// Why a stream ends.
#[derive(Clone, Copy, Debug, PartialEq, Eq, Structural)]
pub enum Disconnect {
    TokenExpired,
    StreamClosed,
    StreamError,
}

impl Disconnect {
    /// The reason, as it is reported.
    pub open spec fn label(self) -> Seq<char> {
        match self {
            Disconnect::TokenExpired => "token_expired"@,
            Disconnect::StreamClosed => "stream_closed"@,
            Disconnect::StreamError => "stream_error"@,
        }
    }

    /// The reason, as it is reported.
    pub fn reason(&self) -> (r: &'static str)
        ensures
            r@ == self.label(),
    {
        match self {
            Disconnect::TokenExpired => "token_expired",
            Disconnect::StreamClosed => "stream_closed",
            Disconnect::StreamError => "stream_error",
        }
    }
}

/// What is done on an event of a stream.
pub open spec fn step_of(event: StreamEvent) -> StreamStep {
    match event {
        StreamEvent::Expired => StreamStep::Stop(Disconnect::TokenExpired),
        StreamEvent::Closed => StreamStep::Stop(Disconnect::StreamClosed),
        StreamEvent::Failed => StreamStep::Stop(Disconnect::StreamError),
        StreamEvent::Response => StreamStep::Deliver,
        StreamEvent::StatusUpdate => StreamStep::Publish,
        StreamEvent::Pong { restored } => if restored {
            StreamStep::Restore
        } else {
            StreamStep::Ignore
        },
        StreamEvent::Hello => StreamStep::Ignore,
        StreamEvent::Other => StreamStep::Ignore,
    }
}

/// What is done on an event of a stream: it ends with its token, when the agent leaves or
/// when it fails, and goes on otherwise.
pub fn on_event(event: StreamEvent) -> (r: StreamStep)
    ensures
        r == step_of(event),
{
    match event {
        StreamEvent::Expired => StreamStep::Stop(Disconnect::TokenExpired),
        StreamEvent::Closed => StreamStep::Stop(Disconnect::StreamClosed),
        StreamEvent::Failed => StreamStep::Stop(Disconnect::StreamError),
        StreamEvent::Response => StreamStep::Deliver,
        StreamEvent::StatusUpdate => StreamStep::Publish,
        StreamEvent::Pong { restored } => if restored {
            StreamStep::Restore
        } else {
            StreamStep::Ignore
        },
        StreamEvent::Hello => StreamStep::Ignore,
        StreamEvent::Other => StreamStep::Ignore,
    }
}

/// What is delivered of an answer: nothing where nobody waits for it, or where it is not
/// passed on.
pub fn deliver_response(awaited: bool, resp: AgentResponse) -> (r: Option<ResponseBody>)
    ensures
        envelope::response_view(r) == (if awaited {
            envelope::answer_of(resp.body, envelope::inspects(resp.body))
        } else {
            None
        }),
{
    if awaited {
        ResponseBody::try_from_proto(resp)
    } else {
        None
    }
}

/// What becomes of an agent.
#[derive(Clone, Copy, Debug, PartialEq, Eq, Structural)]
pub enum Liveness {
    Connected,
    Restored,
    Disconnected,
    TimedOut,
}

/// What is told of an agent then: its status, and a message.
pub open spec fn liveness_told(l: Liveness) -> (Seq<char>, Seq<char>) {
    match l {
        Liveness::Connected => ("installed"@, "coold stream connected."@),
        Liveness::Restored => ("installed"@, "coold heartbeat restored."@),
        Liveness::Disconnected => ("unreachable"@, "coold stream disconnected."@),
        Liveness::TimedOut => ("unreachable"@, "coold heartbeat timed out."@),
    }
}

/// What is told of an agent.
pub fn liveness_update(host_id: &str, l: Liveness) -> (r: ResourceStatusUpdate)
    ensures
        r.resource_type@ == "server"@,
        r.host_id@ == host_id@,
        r.container_id@ == ""@,
        r.container_name@ == ""@,
        (r.status@, r.status_message@) == liveness_told(l),
{
    let (status, message): (&str, &str) = match l {
        Liveness::Connected => ("installed", "coold stream connected."),
        Liveness::Restored => ("installed", "coold heartbeat restored."),
        Liveness::Disconnected => ("unreachable", "coold stream disconnected."),
        Liveness::TimedOut => ("unreachable", "coold heartbeat timed out."),
    };
    resource_status::coold_status_update(host_id, status, message)
}

} // verus!
