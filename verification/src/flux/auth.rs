//! Who may open a stream: keys, tokens, tenants and the binding of a token to its host.

use vstd::prelude::*;
use vstd::string::StringExecFns;
use crate::keyed;
use crate::keyed::StrMap;
use crate::net;
use crate::number;
use crate::split;
use crate::text;
use crate::token;
use crate::token::TokenHeader;

verus! {

/// The key id of the default key. A token without a key id goes by that key too.
pub const DEFAULT_KID: &'static str = "flux-default";

/// What a token claims.
#[derive(Clone, Debug)]
pub struct Claims {
    /// The host that the token was made for.
    pub sub: String,
    pub caps: Vec<String>,
    /// When it expires, in seconds since 1970.
    pub exp: u64,
    /// What it is revoked by.
    pub jti: Option<String>,
    /// The tenant of the host.
    pub team_id: Option<String>,
}

/// A token that was verified.
#[derive(Clone, Debug)]
pub struct VerifiedJwt {
    pub host_id: String,
    pub caps: Vec<String>,
    /// When it expires, in seconds since 1970. The stream ends with it.
    pub exp: u64,
    pub team_id: Option<String>,
}

/// Who knows which tokens are revoked.
pub trait RevocationCheck {
    /// Whether the token with this id is revoked.
    spec fn revoked(&self, jti: Seq<char>) -> bool;

    /// Whether the token with this id is revoked.
    fn is_revoked(&self, jti: &str) -> (r: bool)
        ensures
            r == self.revoked(jti@),
    ;
}

/// Knows of no revoked token.
pub struct NoRevocations;

impl RevocationCheck for NoRevocations {
    open spec fn revoked(&self, jti: Seq<char>) -> bool {
        false
    }

    fn is_revoked(&self, jti: &str) -> (r: bool) {
        false
    }
}

/// The keys that tokens are verified with: a default one, and more by their ids.
#[derive(Clone, Debug)]
pub struct JwtKeys {
    default_pem: String,
    by_kid: StrMap<String>,
}

/// The refusal of a key id.
pub open spec fn unknown_kid_text(kid: Seq<char>) -> Seq<char> {
    "unknown JWT kid "@
        + text::quoted(kid)
}

/// The refusal of a key id.
fn unknown_kid(kid: &str) -> (r: String)
    ensures
        r@ == unknown_kid_text(kid@),
{
    let mut out: String = "unknown JWT kid ".to_owned();
    out.append(text::quote(kid).as_str());
    out
}

/// The key of an id: the default one where there is no id or the default id, and the one
/// with that id otherwise.
pub open spec fn key_for(
    default_pem: Seq<char>,
    by_kid: Seq<(Seq<char>, String)>,
    kid: Option<Seq<char>>,
) -> Result<Seq<char>, Seq<char>> {
    match kid {
        None => Ok(default_pem),
        Some(k) => if k == DEFAULT_KID@ {
            Ok(default_pem)
        } else {
            match keyed::lookup(by_kid, k) {
                Some(pem) => Ok(pem@),
                None => Err(unknown_kid_text(k)),
            }
        },
    }
}

impl JwtKeys {
    /// The default key.
    pub closed spec fn default_key(self) -> Seq<char> {
        self.default_pem@
    }

    /// The other keys by their ids.
    pub closed spec fn others(self) -> Seq<(Seq<char>, String)> {
        self.by_kid@
    }

    /// The key of an id.
    pub open spec fn key(self, kid: Option<Seq<char>>) -> Result<Seq<char>, Seq<char>> {
        key_for(self.default_key(), self.others(), kid)
    }

    pub fn new(default_pem: String, by_kid: StrMap<String>) -> (r: Self)
        ensures
            r.default_key() == default_pem@,
            r.others() == by_kid@,
    {
        JwtKeys { default_pem, by_kid }
    }

    /// One key alone.
    pub fn single(default_pem: String) -> (r: Self)
        ensures
            r.default_key() == default_pem@,
            r.others() == Seq::<(Seq<char>, String)>::empty(),
    {
        JwtKeys { default_pem, by_kid: StrMap::new() }
    }

    /// The key of an id, or that it is unknown.
    pub fn resolve(&self, kid: Option<&str>) -> (r: Result<String, String>)
        ensures
            match (r, self.key(kid_view(kid))) {
                (Ok(pem), Ok(p)) => pem@ == p,
                (Err(e), Err(t)) => e@ == t,
                _ => false,
            },
    {
        match kid {
            None => Ok(self.default_pem.clone()),
            Some(k) => if text::same(k, DEFAULT_KID) {
                Ok(self.default_pem.clone())
            } else {
                match self.by_kid.get(k) {
                    Some(pem) => Ok(pem.clone()),
                    None => Err(unknown_kid(k)),
                }
            },
        }
    }
}

/// An optional key id by its characters.
pub open spec fn kid_view(kid: Option<&str>) -> Option<Seq<char>> {
    match kid {
        Some(k) => Some(k@),
        None => None,
    }
}

/// How long a token lasts beyond `now`.
pub open spec fn remaining(exp: u64, now: u64) -> u64 {
    if exp > now {
        (exp - now) as u64
    } else {
        0
    }
}

/// The seconds until a token expires: none once it has.
pub fn seconds_until_expiry(exp: u64, now: u64) -> (r: u64)
    ensures
        r == remaining(exp, now),
{
    exp.saturating_sub(now)
}

/// Whether a token has expired.
pub fn token_expired(exp: u64, now: u64) -> (r: bool)
    ensures
        r == (remaining(exp, now) == 0),
{
    now >= exp
}

/// Whether a token lasts no longer than it may.
pub open spec fn within_clamp(exp: u64, now: u64, max: u64) -> bool {
    max == 0 || remaining(exp, now) <= max
}

/// Whether a token lasts no longer than `max_lifetime_secs`; a maximum of nothing is none.
pub fn lifetime_within_clamp(exp: u64, now: u64, max_lifetime_secs: u64) -> (r: bool)
    ensures
        r == within_clamp(exp, now, max_lifetime_secs),
{
    if max_lifetime_secs == 0 {
        return true;
    }
    seconds_until_expiry(exp, now) <= max_lifetime_secs
}

/// The refusal of a token that lasts too long.
pub open spec fn lifetime_error_text(left: u64, max: u64) -> Seq<char> {
    "JWT remaining lifetime "@
        + number::decimal(left as nat)
        + "s exceeds max "@
        + number::decimal(max as nat)
        + "s"@
}

/// The refusal of a token that lasts too long.
fn lifetime_error(left: u64, max: u64) -> (r: String)
    ensures
        r@ == lifetime_error_text(left, max),
{
    let mut out: String = "JWT remaining lifetime ".to_owned();
    out.append(number::decimal_of(left).as_str());
    out.append("s exceeds max ");
    out.append(number::decimal_of(max).as_str());
    out.append("s");
    out
}

/// The refusal of a token that is revoked.
pub open spec fn revoked_error_text(jti: Seq<char>) -> Seq<char> {
    "JWT jti "@
        + jti
        + " revoked"@
}

/// The refusal of a token that is revoked.
fn revoked_error(jti: &str) -> (r: String)
    ensures
        r@ == revoked_error_text(jti@),
{
    let mut out: String = "JWT jti ".to_owned();
    out.append(jti);
    out.append(" revoked");
    out
}

/// What is wrong with signed claims.
pub open spec fn claims_error<R: RevocationCheck>(c: Claims, revocation: R, now: u64, max: u64) -> Option<
    Seq<char>,
> {
    if !within_clamp(c.exp, now, max) {
        Some(lifetime_error_text(remaining(c.exp, now), max))
    } else {
        match c.jti {
            Some(jti) => if revocation.revoked(jti@) {
                Some(revoked_error_text(jti@))
            } else {
                None
            },
            None => None,
        }
    }
}

/// Checks signed claims: a token must not last too long, and must not be revoked.
pub fn accept_claims<R: RevocationCheck>(
    claims: Claims,
    revocation: &R,
    now: u64,
    max_lifetime_secs: u64,
) -> (r: Result<VerifiedJwt, String>)
    ensures
        match (r, claims_error(claims, *revocation, now, max_lifetime_secs)) {
            (Ok(v), None) => v.host_id == claims.sub && v.caps == claims.caps && v.exp
                == claims.exp && v.team_id == claims.team_id,
            (Err(e), Some(t)) => e@ == t,
            _ => false,
        },
{
    if !lifetime_within_clamp(claims.exp, now, max_lifetime_secs) {
        return Err(
            lifetime_error(seconds_until_expiry(claims.exp, now), max_lifetime_secs),
        );
    }
    if let Some(jti) = &claims.jti {
        if revocation.is_revoked(jti.as_str()) {
            return Err(revoked_error(jti.as_str()));
        }
    }
    Ok(
        VerifiedJwt {
            host_id: claims.sub,
            caps: claims.caps,
            exp: claims.exp,
            team_id: claims.team_id,
        },
    )
}

/// The key, its kind and the algorithm that a token is to be verified with, or why it is
/// refused before that.
pub open spec fn checked_key(token: Seq<char>, keys: JwtKeys) -> Result<
    (Seq<char>, bool, Seq<char>),
    Seq<char>,
> {
    match token::header_of(token) {
        Err(e) => Err(token::header_error_text(e)),
        Ok((alg, kid)) => match keys.key(kid) {
            Err(e) => Err(e),
            Ok(pem) => match token::curve_of(pem) {
                Err(e) => Err(e),
                Ok(ec) => if token::alg_allowed(ec, alg) {
                    Ok((pem, ec, alg))
                } else {
                    Err(token::alg_error_text(alg))
                },
            },
        },
    }
}

/// Whether a verified token says what the claims do.
pub open spec fn claimed(v: VerifiedJwt, c: Claims) -> bool {
    v.host_id == c.sub && v.caps == c.caps && v.exp == c.exp && v.team_id == c.team_id
}

/// What becomes of signed claims, read or not: they must not have expired, must not be
/// misdirected, must not last too long and must not be revoked.
pub open spec fn judged<R: RevocationCheck>(
    r: Result<VerifiedJwt, String>,
    claims: Result<Claims, String>,
    misdirected: Option<Seq<char>>,
    revocation: R,
    now: u64,
    max: u64,
) -> bool {
    match claims {
        Err(t) => r matches Err(e) && e@ == token::decode_error_text(token::unreadable_text(t@)),
        Ok(c) => if token::overdue(c.exp, now) {
            r matches Err(e) && e@ == token::decode_error_text(token::EXPIRED@)
        } else if misdirected is Some {
            r matches Err(e) && e@ == token::decode_error_text(misdirected->Some_0)
        } else {
            match claims_error(c, revocation, now, max) {
                Some(t) => r matches Err(e) && e@ == t,
                None => r matches Ok(v) && claimed(v, c),
            }
        },
    }
}

/// Judges signed claims.
pub fn judge_claims<R: RevocationCheck>(
    claims: Result<Claims, String>,
    misdirected: Option<String>,
    revocation: &R,
    now: u64,
    max_lifetime_secs: u64,
) -> (r: Result<VerifiedJwt, String>)
    ensures
        judged(r, claims, text::opt_view(misdirected), *revocation, now, max_lifetime_secs),
{
    match claims {
        Err(e) => Err(token::decode_error(token::unreadable(e.as_str()).as_str())),
        Ok(c) => if token::has_expired(c.exp, now) {
            Err(token::decode_error(token::EXPIRED))
        } else {
            match misdirected {
                Some(e) => Err(token::decode_error(e.as_str())),
                None => accept_claims(c, revocation, now, max_lifetime_secs),
            }
        },
    }
}

/// What becomes of a token: the key id in its header picks the key, the algorithm has to be
/// let through with the key, the key has to have signed the token for us, and the claims that
/// `parse` reads are judged.
pub open spec fn verified<R: RevocationCheck, F: Fn(&str) -> Result<Claims, String>>(
    r: Result<VerifiedJwt, String>,
    token: Seq<char>,
    keys: JwtKeys,
    revocation: R,
    now: u64,
    max: u64,
    parse: F,
) -> bool {
    match checked_key(token, keys) {
        Err(t) => r matches Err(e) && e@ == t,
        Ok((pem, ec, alg)) => match token::signed_claims(
            token,
            pem,
            ec,
            alg,
            token::AUDIENCE@,
            false,
        ) {
            Err(t) => r matches Err(e) && e@ == token::decode_error_text(t),
            Ok(signed) => exists|json: &str, claims: Result<Claims, String>|
                {
                    &&& json@ == signed
                    &&& #[trigger] call_ensures(parse, (json,), claims)
                    &&& judged(
                        r,
                        claims,
                        token::misdirected(token, pem, ec, alg),
                        revocation,
                        now,
                        max,
                    )
                },
        },
    }
}

/// Verifies a token.
pub fn verify_jwt<R: RevocationCheck, F: Fn(&str) -> Result<Claims, String>>(
    token: &str,
    keys: &JwtKeys,
    revocation: &R,
    now: u64,
    max_lifetime_secs: u64,
    parse: F,
) -> (r: Result<VerifiedJwt, String>)
    requires
        forall|json: &str| #[trigger] call_requires(parse, (json,)),
    ensures
        verified(r, token@, *keys, *revocation, now, max_lifetime_secs, parse),
{
    let header: TokenHeader = token::read_header(token)?;
    let kid: Option<&str> = match &header.kid {
        Some(k) => Some(k.as_str()),
        None => None,
    };
    let pem: String = keys.resolve(kid)?;
    let ec: bool = token::read_key(pem.as_str())?;
    token::check_alg(ec, header.alg.as_str())?;
    let json: String = token::read_claims(token, pem.as_str(), ec, header.alg.as_str())?;
    let signed: &str = json.as_str();
    let claims: Result<Claims, String> = parse(signed);
    proof {
        assert(call_ensures(parse, (signed,), claims));
    }
    let misdirected: Option<String> = token::check_audience(
        token,
        pem.as_str(),
        ec,
        header.alg.as_str(),
    );
    judge_claims(claims, misdirected, revocation, now, max_lifetime_secs)
}

/// Whether a tenant is named where one has to be.
pub open spec fn tenant_named(team_id: Option<Seq<char>>, required: bool) -> bool {
    !required || (team_id matches Some(t) && !split::is_blank(t))
}

/// Whether the tenant of a token is named where it has to be.
pub fn team_id_satisfied(team_id: Option<&str>, required: bool) -> (r: bool)
    ensures
        r == tenant_named(kid_view(team_id), required),
{
    if !required {
        return true;
    }
    match team_id {
        Some(t) => !split::blank(t),
        None => false,
    }
}

/// How a token was bound to the host that presents it.
#[derive(Clone, Debug, PartialEq, Eq)]
pub enum HostBinding {
    /// By the address that the connection comes from.
    Transport,
    /// By the address that the host names itself, which is weaker.
    HelloFallback { reason: &'static str },
    /// Not at all; but that is let through.
    Unenforced { detail: String },
}

/// What a `HostBinding` says.
#[verifier::ext_equal]
pub enum BindingView {
    Transport,
    HelloFallback(Seq<char>),
    Unenforced(Seq<char>),
}

impl View for HostBinding {
    type V = BindingView;

    open spec fn view(&self) -> BindingView {
        match self {
            HostBinding::Transport => BindingView::Transport,
            HostBinding::HelloFallback { reason } => BindingView::HelloFallback(reason@),
            HostBinding::Unenforced { detail } => BindingView::Unenforced(detail@),
        }
    }
}

/// A binding or a refusal by what it says.
pub open spec fn binding_view(r: Result<HostBinding, String>) -> Result<BindingView, Seq<char>> {
    match r {
        Ok(b) => Ok(b@),
        Err(e) => Err(e@),
    }
}

/// The IP address in a text, as it is written out.
pub uninterp spec fn canonical_ip(s: Seq<char>) -> Option<Seq<char>>;

/// Whether an IPv4 address in dotted form is read as it stands.
pub open spec fn dotted_stays(s: Seq<char>, ip: Option<Seq<char>>) -> bool {
    forall|n: u32| #[trigger] net::dotted(n) == s ==> ip == Some(s)
}

/// `str::parse` to the IP address of an `ipnet::IpNet`, and what that is written out as. An
/// IPv4 address in dotted form is written out as it stands.
#[verifier::external_body]
pub(crate) fn read_ip(s: &str) -> (r: Option<String>)
    ensures
        text::opt_view(r) == canonical_ip(s@),
        dotted_stays(s@, text::opt_view(r)),
{
    Some(ipnet::IpNet::new(s.parse().ok()?, 0).ok()?.addr().to_string())
}

/// What is said where the connection comes from another host.
pub open spec fn peer_mismatch_text(peer: Seq<char>, sub: Seq<char>) -> Seq<char> {
    "transport peer "@
        + peer
        + " does not match token sub "@
        + sub
}

/// What is said where the connection comes from another host.
fn peer_mismatch(peer: &str, sub: &str) -> (r: String)
    ensures
        r@ == peer_mismatch_text(peer@, sub@),
{
    let mut out: String = "transport peer ".to_owned();
    out.append(peer);
    out.append(" does not match token sub ");
    out.append(sub);
    out
}

/// What is said where the host names another address.
pub open spec fn hello_mismatch_text(reason: Seq<char>, advertised: Seq<char>, sub: Seq<char>) -> Seq<char> {
    reason
        + "; Hello-advertised host_mgmt_ip "@
        + text::quoted(advertised)
        + " does not match token sub "@
        + text::quoted(sub)
}

/// What is said where the host names another address.
fn hello_mismatch(reason: &str, advertised: &str, sub: &str) -> (r: String)
    ensures
        r@ == hello_mismatch_text(reason@, advertised@, sub@),
{
    let mut out: String = reason.to_owned();
    out.append("; Hello-advertised host_mgmt_ip ");
    out.append(text::quote(advertised).as_str());
    out.append(" does not match token sub ");
    out.append(text::quote(sub).as_str());
    out
}

/// A refusal, or a note where nothing is enforced.
pub open spec fn refused(require: bool, detail: Seq<char>) -> Result<BindingView, Seq<char>> {
    if require {
        Err(detail)
    } else {
        Ok(BindingView::Unenforced(detail))
    }
}

pub fn reject_or_unenforced(require: bool, detail: String) -> (r: Result<HostBinding, String>)
    ensures
        binding_view(r) == refused(require, detail@),
{
    if require {
        Err(detail)
    } else {
        Ok(HostBinding::Unenforced { detail })
    }
}

/// The binding by the address that the host names itself.
pub open spec fn hello_binding(
    sub: Seq<char>,
    advertised: Seq<char>,
    require: bool,
    reason: Seq<char>,
) -> Result<BindingView, Seq<char>> {
    if sub.len() > 0 && advertised == sub {
        Ok(BindingView::HelloFallback(reason))
    } else {
        refused(require, hello_mismatch_text(reason, advertised, sub))
    }
}

pub fn bind_via_hello(
    token_sub: &str,
    advertised_mgmt_ip: &str,
    require: bool,
    reason: &'static str,
) -> (r: Result<HostBinding, String>)
    ensures
        binding_view(r) == hello_binding(token_sub@, advertised_mgmt_ip@, require, reason@),
{
    if !token_sub.is_empty() && text::same(advertised_mgmt_ip, token_sub) {
        Ok(HostBinding::HelloFallback { reason })
    } else {
        reject_or_unenforced(require, hello_mismatch(reason, advertised_mgmt_ip, token_sub))
    }
}

/// How a token is bound to the host that presents it: by the address that the connection
/// comes from where the token names an address, and by the address that the host names
/// itself otherwise. `named` is the address that the token names.
pub open spec fn binding_of(
    sub: Seq<char>,
    named: Option<Seq<char>>,
    advertised: Seq<char>,
    peer: Option<Seq<char>>,
    require: bool,
) -> Result<BindingView, Seq<char>> {
    match (peer, named) {
        (Some(p), Some(n)) => if p == n {
            Ok(BindingView::Transport)
        } else {
            refused(require, peer_mismatch_text(p, n))
        },
        (Some(_), None) => hello_binding(
            sub,
            advertised,
            require,
            "token sub is not an IP address; transport binding not applicable"@,
        ),
        (None, _) => hello_binding(
            sub,
            advertised,
            require,
            "transport peer address unavailable"@,
        ),
    }
}

/// Binds a token to the host that presents it, given the address that the token names.
pub fn binding_with(
    token_sub: &str,
    named: &Option<String>,
    advertised_mgmt_ip: &str,
    peer_ip: Option<&str>,
    require: bool,
) -> (r: Result<HostBinding, String>)
    ensures
        binding_view(r) == binding_of(
            token_sub@,
            text::opt_view(*named),
            advertised_mgmt_ip@,
            kid_view(peer_ip),
            require,
        ),
{
    match (peer_ip, named) {
        (Some(peer), Some(sub_ip)) => if text::same(peer, sub_ip.as_str()) {
            Ok(HostBinding::Transport)
        } else {
            reject_or_unenforced(require, peer_mismatch(peer, sub_ip.as_str()))
        },
        (Some(_), None) => bind_via_hello(
            token_sub,
            advertised_mgmt_ip,
            require,
            "token sub is not an IP address; transport binding not applicable",
        ),
        (None, _) => bind_via_hello(
            token_sub,
            advertised_mgmt_ip,
            require,
            "transport peer address unavailable",
        ),
    }
}

/// Binds a token to the host that presents it. `peer_ip` is the address that the connection
/// comes from, as addresses are written out. A token for an IPv4 address is bound to the
/// connections that come from there.
pub fn decide_host_binding(
    token_sub: &str,
    advertised_mgmt_ip: &str,
    peer_ip: Option<&str>,
    require: bool,
) -> (r: Result<HostBinding, String>)
    ensures
        binding_view(r) == binding_of(
            token_sub@,
            canonical_ip(token_sub@),
            advertised_mgmt_ip@,
            kid_view(peer_ip),
            require,
        ),
        forall|n: u32, p: u32|
            token_sub@ == #[trigger] net::dotted(n) && kid_view(peer_ip) == Some(
                #[trigger] net::dotted(p),
            ) ==> binding_view(r) == (if net::dotted(n) == net::dotted(p) {
                Ok(BindingView::Transport)
            } else {
                refused(require, peer_mismatch_text(net::dotted(p), net::dotted(n)))
            }),
{
    let named: Option<String> = read_ip(token_sub);
    binding_with(token_sub, &named, advertised_mgmt_ip, peer_ip, require)
}

/// Without enforcement nobody is refused; with it, a host whose connection comes from
/// another address than its token names is refused, whatever it names itself.
pub proof fn binding_refuses_only_where_required(
    sub: Seq<char>,
    named: Option<Seq<char>>,
    advertised: Seq<char>,
    peer: Option<Seq<char>>,
)
    ensures
        binding_of(sub, named, advertised, peer, false) is Ok,
        binding_of(sub, named, advertised, peer, true) is Err <==> binding_of(
            sub,
            named,
            advertised,
            peer,
            false,
        ) matches Ok(BindingView::Unenforced(_)),
        peer is Some && named is Some && peer != named ==> binding_of(
            sub,
            named,
            advertised,
            peer,
            true,
        ) is Err,
        named is None && sub != advertised ==> binding_of(sub, named, advertised, peer, true) is Err,
{
}

/// A token lasts no longer from one moment to a later one, and once it has expired it stays
/// expired.
pub proof fn tokens_expire_for_good(exp: u64, now: u64, later: u64)
    requires
        now <= later,
    ensures
        remaining(exp, later) <= remaining(exp, now),
        remaining(exp, now) == 0 ==> remaining(exp, later) == 0,
        forall|max: u64|
            within_clamp(exp, now, max) ==> #[trigger] within_clamp(exp, later, max),
{
}

} // verus!
