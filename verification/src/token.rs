//! Host tokens as they come in: their headers, their keys and their signed claims.

use vstd::prelude::*;
use vstd::string::StringExecFns;
use crate::text;

verus! {

/// What the header of a token names: the algorithm, and the key where it names one.
#[derive(Clone, Debug)]
pub struct TokenHeader {
    pub alg: String,
    pub kid: Option<String>,
}

/// The header of a token: its algorithm and key id, or why it cannot be read.
pub uninterp spec fn header_of(token: Seq<char>) -> Result<
    (Seq<char>, Option<Seq<char>>),
    Seq<char>,
>;

/// `jsonwebtoken::decode_header`: the name of the algorithm and the key id of a token.
#[verifier::external_body]
fn decode_header(token: &str) -> (r: Result<TokenHeader, String>)
    ensures
        match r {
            Ok(h) => header_of(token@) == Ok::<(Seq<char>, Option<Seq<char>>), Seq<char>>(
                (h.alg@, text::opt_view(h.kid)),
            ),
            Err(e) => header_of(token@) == Err::<(Seq<char>, Option<Seq<char>>), Seq<char>>(e@),
        },
{
    match jsonwebtoken::decode_header(token) {
        Ok(h) => Ok(TokenHeader { alg: format!("{:?}", h.alg), kid: h.kid }),
        Err(e) => Err(e.to_string()),
    }
}

/// Whether a text is an elliptic-curve public key in PEM form.
pub uninterp spec fn is_ec_public_pem(pem: Seq<char>) -> bool;

/// `jsonwebtoken::DecodingKey::from_ec_pem`: whether it finds a key in the text.
#[verifier::external_body]
fn ec_public(pem: &str) -> (r: bool)
    ensures
        r == is_ec_public_pem(pem@),
{
    jsonwebtoken::DecodingKey::from_ec_pem(pem.as_bytes()).is_ok()
}

/// Why a text is no RSA public key in PEM form.
pub uninterp spec fn rsa_pem_error(pem: Seq<char>) -> Option<Seq<char>>;

/// `jsonwebtoken::DecodingKey::from_rsa_pem`: why it finds no key in the text.
#[verifier::external_body]
fn rsa_public_error(pem: &str) -> (r: Option<String>)
    ensures
        text::opt_view(r) == rsa_pem_error(pem@),
{
    match jsonwebtoken::DecodingKey::from_rsa_pem(pem.as_bytes()) {
        Ok(_) => None,
        Err(e) => Some(e.to_string()),
    }
}

/// The claims of a token as the JSON text that was signed, where the elliptic-curve or RSA key
/// signed them with the algorithm; or why the token is refused. Where the claims are looked at
/// too, they have to say when they expire, and must not be for another audience; whether they
/// have expired is left open.
pub uninterp spec fn signed_claims(
    token: Seq<char>,
    pem: Seq<char>,
    ec: bool,
    alg: Seq<char>,
    audience: Seq<char>,
    looked_at: bool,
) -> Result<Seq<char>, Seq<char>>;

/// A text or a refusal by its characters.
pub open spec fn told(r: Result<String, String>) -> Result<Seq<char>, Seq<char>> {
    match r {
        Ok(s) => Ok(s@),
        Err(e) => Err(e@),
    }
}

/// `jsonwebtoken::decode` with an elliptic-curve key, and with its look at the clock switched off,
/// and that at the other claims as told: the signed claims, or why it refuses the token.
#[verifier::external_body]
fn decode_curve(token: &str, pem: &str, alg: &str, audience: &str, look: bool) -> (r: Result<
    String,
    String,
>)
    ensures
        told(r) == signed_claims(token@, pem@, true, alg@, audience@, look),
{
    let key = jsonwebtoken::DecodingKey::from_ec_pem(pem.as_bytes()).map_err(|e| e.to_string())?;
    let alg = alg.parse::<jsonwebtoken::Algorithm>().map_err(|e| e.to_string())?;
    let mut validation = jsonwebtoken::Validation::new(alg);
    validation.set_audience(&[audience]);
    validation.validate_aud = look;
    validation.set_required_spec_claims(&["exp"][..usize::from(look)]);
    validation.validate_exp = false;
    let data = jsonwebtoken::decode::<Box<serde_json::value::RawValue>>(token, &key, &validation);
    data.map(|d| d.claims.get().to_owned()).map_err(|e| e.to_string())
}

/// `jsonwebtoken::decode` with an RSA key, and with its look at the clock switched off,
/// and that at the other claims as told: the signed claims, or why it refuses the token.
#[verifier::external_body]
fn decode_rsa(token: &str, pem: &str, alg: &str, audience: &str, look: bool) -> (r: Result<
    String,
    String,
>)
    ensures
        told(r) == signed_claims(token@, pem@, false, alg@, audience@, look),
{
    let key = jsonwebtoken::DecodingKey::from_rsa_pem(pem.as_bytes()).map_err(|e| e.to_string())?;
    let alg = alg.parse::<jsonwebtoken::Algorithm>().map_err(|e| e.to_string())?;
    let mut validation = jsonwebtoken::Validation::new(alg);
    validation.set_audience(&[audience]);
    validation.validate_aud = look;
    validation.set_required_spec_claims(&["exp"][..usize::from(look)]);
    validation.validate_exp = false;
    let data = jsonwebtoken::decode::<Box<serde_json::value::RawValue>>(token, &key, &validation);
    data.map(|d| d.claims.get().to_owned()).map_err(|e| e.to_string())
}

/// The refusal of a header.
pub open spec fn header_error_text(e: Seq<char>) -> Seq<char> {
    "JWT header parse: "@
        + e
}

/// The refusal of a header.
fn header_error(e: &str) -> (r: String)
    ensures
        r@ == header_error_text(e@),
{
    let mut out: String = "JWT header parse: ".to_owned();
    out.append(e);
    out
}

/// The refusal of a key.
pub open spec fn key_error_text(e: Seq<char>) -> Seq<char> {
    "load JWT pubkey: "@
        + e
}

/// The refusal of a key.
fn key_error(e: &str) -> (r: String)
    ensures
        r@ == key_error_text(e@),
{
    let mut out: String = "load JWT pubkey: ".to_owned();
    out.append(e);
    out
}

/// The refusal of an algorithm.
pub open spec fn alg_error_text(alg: Seq<char>) -> Seq<char> {
    "JWT alg "@
        + alg
        + " not allowed for loaded key"@
}

/// The refusal of an algorithm.
fn alg_error(alg: &str) -> (r: String)
    ensures
        r@ == alg_error_text(alg@),
{
    let mut out: String = "JWT alg ".to_owned();
    out.append(alg);
    out.append(" not allowed for loaded key");
    out
}

/// The refusal of a token.
pub open spec fn decode_error_text(e: Seq<char>) -> Seq<char> {
    "JWT verification failed: "@
        + e
}

/// The refusal of a token.
pub fn decode_error(e: &str) -> (r: String)
    ensures
        r@ == decode_error_text(e@),
{
    let mut out: String = "JWT verification failed: ".to_owned();
    out.append(e);
    out
}

/// Reads the header of a token.
pub fn read_header(token: &str) -> (r: Result<TokenHeader, String>)
    ensures
        match (r, header_of(token@)) {
            (Ok(h), Ok((alg, kid))) => h.alg@ == alg && text::opt_view(h.kid) == kid,
            (Err(e), Err(t)) => e@ == header_error_text(t),
            _ => false,
        },
{
    match decode_header(token) {
        Ok(h) => Ok(h),
        Err(e) => Err(header_error(e.as_str())),
    }
}

/// Whether the key is an elliptic-curve key, or why it is no key at all.
pub open spec fn curve_of(pem: Seq<char>) -> Result<bool, Seq<char>> {
    if is_ec_public_pem(pem) {
        Ok(true)
    } else {
        match rsa_pem_error(pem) {
            Some(e) => Err(key_error_text(e)),
            None => Ok(false),
        }
    }
}

/// Tells an elliptic-curve key from an RSA key.
pub fn read_key(pem: &str) -> (r: Result<bool, String>)
    ensures
        match (r, curve_of(pem@)) {
            (Ok(ec), Ok(c)) => ec == c,
            (Err(e), Err(t)) => e@ == t,
            _ => false,
        },
{
    if ec_public(pem) {
        return Ok(true);
    }
    match rsa_public_error(pem) {
        Some(e) => Err(key_error(e.as_str())),
        None => Ok(false),
    }
}

/// The algorithms that work with a key. Neither a shared secret nor an Edwards curve nor none
/// works with any.
pub open spec fn alg_fits(ec: bool, alg: Seq<char>) -> bool {
    if ec {
        alg == "ES256"@ || alg == "ES384"@
    } else {
        alg == "RS256"@ || alg == "RS384"@ || alg == "RS512"@ || alg == "PS256"@ || alg
            == "PS384"@ || alg == "PS512"@
    }
}

/// Checks that the algorithm of a token works with the key.
pub fn check_fit(ec: bool, alg: &str) -> (r: Result<(), String>)
    ensures
        match r {
            Ok(_) => alg_fits(ec, alg@),
            Err(e) => !alg_fits(ec, alg@) && e@ == alg_error_text(alg@),
        },
{
    let fits: bool = if ec {
        text::same(alg, "ES256") || text::same(alg, "ES384")
    } else {
        text::same(alg, "RS256") || text::same(alg, "RS384") || text::same(alg, "RS512")
            || text::same(alg, "PS256") || text::same(alg, "PS384") || text::same(alg, "PS512")
    };
    if fits {
        Ok(())
    } else {
        Err(alg_error(alg))
    }
}

/// The algorithms that are let through with a key, fewer than work with it: ES256 alone on a
/// curve; RS256 and those with probabilistic padding with RSA.
pub open spec fn alg_allowed(ec: bool, alg: Seq<char>) -> bool {
    if ec {
        alg == "ES256"@
    } else {
        alg == "RS256"@ || alg == "PS256"@ || alg == "PS384"@ || alg == "PS512"@
    }
}

/// Checks that the algorithm of a token is let through with the key.
pub fn check_alg(ec: bool, alg: &str) -> (r: Result<(), String>)
    ensures
        match r {
            Ok(_) => alg_allowed(ec, alg@),
            Err(e) => !alg_allowed(ec, alg@) && e@ == alg_error_text(alg@),
        },
{
    let allowed: bool = if ec {
        text::same(alg, "ES256")
    } else {
        text::same(alg, "RS256") || text::same(alg, "PS256") || text::same(alg, "PS384")
            || text::same(alg, "PS512")
    };
    if allowed {
        Ok(())
    } else {
        Err(alg_error(alg))
    }
}

/// The audience of a host token.
pub const AUDIENCE: &'static str = "coold";

/// How far clocks may be apart, in seconds.
pub const LEEWAY: u64 = 60;

/// Whether claims have expired, clocks being apart as far as they may.
pub open spec fn overdue(exp: u64, now: u64) -> bool {
    exp + LEEWAY < now
}

/// Whether claims have expired.
pub fn has_expired(exp: u64, now: u64) -> (r: bool)
    ensures
        r == overdue(exp, now),
{
    now >= LEEWAY && exp < now - LEEWAY
}

/// What is said of claims that have expired.
pub const EXPIRED: &'static str = "ExpiredSignature";

/// What is said of claims that cannot be read.
pub open spec fn unreadable_text(e: Seq<char>) -> Seq<char> {
    "JSON error: "@
        + e
}

/// What is said of claims that cannot be read.
pub fn unreadable(e: &str) -> (r: String)
    ensures
        r@ == unreadable_text(e@),
{
    let mut out: String = "JSON error: ".to_owned();
    out.append(e);
    out
}

/// The signed claims of a token, where the key signed it.
pub fn read_claims(token: &str, pem: &str, ec: bool, alg: &str) -> (r: Result<String, String>)
    ensures
        match (signed_claims(token@, pem@, ec, alg@, AUDIENCE@, false), r) {
            (Ok(json), Ok(c)) => c@ == json,
            (Err(t), Err(e)) => e@ == decode_error_text(t),
            _ => false,
        },
{
    let decoded: Result<String, String> = if ec {
        decode_curve(token, pem, alg, AUDIENCE, false)
    } else {
        decode_rsa(token, pem, alg, AUDIENCE, false)
    };
    match decoded {
        Ok(c) => Ok(c),
        Err(e) => Err(decode_error(e.as_str())),
    }
}

/// Why a token is not for us, or does not say when it expires.
pub open spec fn misdirected(token: Seq<char>, pem: Seq<char>, ec: bool, alg: Seq<char>) -> Option<
    Seq<char>,
> {
    match signed_claims(token, pem, ec, alg, AUDIENCE@, true) {
        Ok(_) => None,
        Err(t) => Some(t),
    }
}

/// Why a token is not for us, or does not say when it expires.
pub fn check_audience(token: &str, pem: &str, ec: bool, alg: &str) -> (r: Option<String>)
    ensures
        text::opt_view(r) == misdirected(token@, pem@, ec, alg@),
{
    let decoded: Result<String, String> = if ec {
        decode_curve(token, pem, alg, AUDIENCE, true)
    } else {
        decode_rsa(token, pem, alg, AUDIENCE, true)
    };
    match decoded {
        Ok(_) => None,
        Err(e) => Some(e),
    }
}

/// No algorithm that works on a shared secret goes with a key of either kind: a token that
/// is signed with the bytes of a public key is refused.
pub proof fn shared_secrets_are_refused(ec: bool)
    ensures
        !alg_fits(ec, "HS256"@) && !alg_allowed(ec, "HS256"@),
        !alg_fits(ec, "HS384"@) && !alg_allowed(ec, "HS384"@),
        !alg_fits(ec, "HS512"@) && !alg_allowed(ec, "HS512"@),
        !alg_fits(ec, "EdDSA"@) && !alg_allowed(ec, "EdDSA"@),
        !alg_fits(ec, "none"@) && !alg_allowed(ec, "none"@),
{
    reveal_strlit("HS256");
    reveal_strlit("HS384");
    reveal_strlit("HS512");
    reveal_strlit("EdDSA");
    reveal_strlit("none");
    reveal_strlit("ES256");
    reveal_strlit("ES384");
    reveal_strlit("RS256");
    reveal_strlit("RS384");
    reveal_strlit("RS512");
    reveal_strlit("PS256");
    reveal_strlit("PS384");
    reveal_strlit("PS512");
    assert("HS256"@[0] == 'H' && "HS384"@[0] == 'H' && "HS512"@[0] == 'H');
    assert("EdDSA"@[1] == 'd');
    assert("none"@[0] == 'n');
    assert("ES256"@[0] == 'E' && "ES256"@[1] == 'S' && "ES384"@[0] == 'E' && "ES384"@[1] == 'S');
    assert("RS256"@[0] == 'R' && "RS384"@[0] == 'R' && "RS512"@[0] == 'R');
    assert("PS256"@[0] == 'P' && "PS384"@[0] == 'P' && "PS512"@[0] == 'P');
}

/// The algorithms of one kind of key do not go with the other.
pub proof fn algorithms_do_not_mix(alg: Seq<char>)
    ensures
        !(alg_fits(true, alg) && alg_fits(false, alg)),
        !(alg_allowed(true, alg) && alg_allowed(false, alg)),
        forall|ec: bool| alg_allowed(ec, alg) ==> #[trigger] alg_fits(ec, alg),
{
    reveal_strlit("ES256");
    reveal_strlit("ES384");
    reveal_strlit("RS256");
    reveal_strlit("RS384");
    reveal_strlit("RS512");
    reveal_strlit("PS256");
    reveal_strlit("PS384");
    reveal_strlit("PS512");
    assert("ES256"@[0] == 'E' && "ES384"@[0] == 'E');
    assert("RS256"@[0] == 'R' && "RS384"@[0] == 'R' && "RS512"@[0] == 'R');
    assert("PS256"@[0] == 'P' && "PS384"@[0] == 'P' && "PS512"@[0] == 'P');
}

} // verus!
