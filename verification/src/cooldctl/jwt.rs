//! Host tokens.

use vstd::prelude::*;
use vstd::string::StringExecFns;
use crate::json;
use crate::number;
use crate::text;

verus! {

/// What a host token says.
#[derive(Clone, Debug)]
pub struct HostClaims {
    pub sub: String,
    pub aud: String,
    pub caps: Vec<String>,
    pub iat: u64,
    pub exp: u64,
}

/// A year in seconds: how long a host token lasts.
pub const TOKEN_LIFETIME: u64 = 31536000;

/// The capabilities of a token: those asked for, or `coold` alone.
pub open spec fn caps_or_default(caps: Seq<Seq<char>>) -> Seq<Seq<char>> {
    if caps.len() == 0 {
        seq!["coold"@]
    } else {
        caps
    }
}

/// What a host token made at `now` says.
pub open spec fn is_token_of(c: HostClaims, host: Seq<char>, caps: Seq<Seq<char>>, now: u64) -> bool {
    &&& c.sub@ == host
    &&& c.aud@ == "coold"@
    &&& text::views(c.caps@) == caps_or_default(caps)
    &&& c.iat == now
    &&& c.exp == now + TOKEN_LIFETIME
}

/// The claims of a host token made at `now`.
pub fn host_claims(host_id: &str, caps: &Vec<String>, now: u64) -> (r: HostClaims)
    requires
        now <= u64::MAX - TOKEN_LIFETIME,
    ensures
        is_token_of(r, host_id@, text::views(caps@), now),
{
    let mut own: Vec<String> = text::copy_strings(caps);
    if own.len() == 0 {
        own.push("coold".to_owned());
        proof {
            assert(text::views(own@) =~= seq!["coold"@]);
        }
    }
    HostClaims {
        sub: host_id.to_owned(),
        aud: "coold".to_owned(),
        caps: own,
        iat: now,
        exp: now + TOKEN_LIFETIME,
    }
}

/// Whether the bytes are an elliptic-curve private key in PEM form.
pub uninterp spec fn is_ec_private_pem(pem: Seq<u8>) -> bool;

/// The claims of a token as they are signed.
pub open spec fn claims_text(
    sub: Seq<char>,
    aud: Seq<char>,
    caps: Seq<Seq<char>>,
    iat: u64,
    exp: u64,
) -> Seq<char> {
    json::record_text(
        seq![
            ("sub"@, json::text_json(sub)),
            ("aud"@, json::text_json(aud)),
            ("caps"@, json::texts_json(caps)),
            ("iat"@, number::decimal(iat as nat)),
            ("exp"@, number::decimal(exp as nat)),
        ],
    )
}

/// The claims of a token as they are signed.
pub fn show_claims(c: &HostClaims) -> (r: String)
    ensures
        r@ == claims_text(c.sub@, c.aud@, text::views(c.caps@), c.iat, c.exp),
{
    broadcast use json::label_views_push;

    let mut members: Vec<(String, String)> = Vec::new();
    proof {
        assert(json::label_views(members@) =~= Seq::empty());
    }
    members.push(("sub".to_owned(), json::render_text(c.sub.as_str())));
    members.push(("aud".to_owned(), json::render_text(c.aud.as_str())));
    members.push(("caps".to_owned(), json::render_texts(&c.caps)));
    members.push(("iat".to_owned(), number::decimal_of(c.iat)));
    members.push(("exp".to_owned(), number::decimal_of(c.exp)));
    proof {
        assert(json::label_views(members@) =~= seq![
            ("sub"@, json::text_json(c.sub@)),
            ("aud"@, json::text_json(c.aud@)),
            ("caps"@, json::texts_json(text::views(c.caps@))),
            ("iat"@, number::decimal(c.iat as nat)),
            ("exp"@, number::decimal(c.exp as nat)),
        ]);
    }
    json::render_record(&members)
}

/// The part of a token that is signed: the header of ES256 and the claims, as text.
pub uninterp spec fn signed_part(claims: Seq<char>) -> Seq<char>;

/// The ES256 signature of a part by the key in the bytes, as text. It goes by a number that is
/// drawn for it.
pub uninterp spec fn es256_signature(part: Seq<char>, pem: Seq<u8>, nonce: Seq<u8>) -> Seq<char>;

/// The token of a signed part and a signature.
pub open spec fn joined(part: Seq<char>, signature: Seq<char>) -> Seq<char> {
    part + "."@ + signature
}

/// Whether a token is the part, signed by the key in the bytes.
pub open spec fn carries(token: Seq<char>, part: Seq<char>, pem: Seq<u8>) -> bool {
    exists|nonce: Seq<u8>| token == joined(part, #[trigger] es256_signature(part, pem, nonce))
}

/// Where the signing of a token can fail.
#[derive(Clone, Copy, Debug, PartialEq, Eq, Structural)]
pub enum SignFailure {
    Key,
    Signature,
}

/// `jsonwebtoken::EncodingKey::from_ec_pem` and `jsonwebtoken::encode` with ES256: the claims
/// behind their header, signed by the key in the bytes. The signature rests on chance, and
/// whether a key that is read can sign on its curve is left unsaid.
#[verifier::external_body]
fn sign_es256(claims: &str, pem: &Vec<u8>) -> (r: Result<String, SignFailure>)
    ensures
        r matches Err(SignFailure::Key) <==> !is_ec_private_pem(pem@),
        r matches Ok(t) ==> exists|nonce: Seq<u8>|
            t@ == joined(
                signed_part(claims@),
                #[trigger] es256_signature(signed_part(claims@), pem@, nonce),
            ),
{
    let key = jsonwebtoken::EncodingKey::from_ec_pem(pem).map_err(|_| SignFailure::Key)?;
    let claims = serde_json::value::RawValue::from_string(claims.to_owned());
    let claims = claims.map_err(|_| SignFailure::Signature)?;
    let header = jsonwebtoken::Header::new(jsonwebtoken::Algorithm::ES256);
    jsonwebtoken::encode(&header, &claims, &key).map_err(|_| SignFailure::Signature)
}

/// The part of a host token made at `now` that is signed.
pub open spec fn host_part(host: Seq<char>, caps: Seq<Seq<char>>, now: u64) -> Seq<char> {
    signed_part(
        claims_text(host, "coold"@, caps_or_default(caps), now, (now + TOKEN_LIFETIME) as u64),
    )
}

/// What becomes of a token that was to be signed: the token, or what failed.
pub fn minted(signed: Result<String, SignFailure>) -> (r: Result<String, String>)
    ensures
        match signed {
            Ok(token) => r == Ok::<String, String>(token),
            Err(SignFailure::Key) => r matches Err(e) && e@ == "parse EC private key"@,
            Err(SignFailure::Signature) => r matches Err(e) && e@ == "sign host JWT"@,
        },
{
    match signed {
        Ok(token) => Ok(token),
        Err(SignFailure::Key) => Err("parse EC private key".to_owned()),
        Err(SignFailure::Signature) => Err("sign host JWT".to_owned()),
    }
}

/// Mints the token of a host at `now`: a key that does not parse is refused, and whatever
/// else comes back is a token with the claims of the host, signed by the key, or the failure
/// to sign.
pub fn mint_host_jwt(
    priv_key_pem: &Vec<u8>,
    host_id: &str,
    caps: &Vec<String>,
    now: u64,
) -> (r: Result<String, String>)
    requires
        now <= u64::MAX - TOKEN_LIFETIME,
    ensures
        !is_ec_private_pem(priv_key_pem@) ==> (r matches Err(e) && e@ == "parse EC private key"@),
        is_ec_private_pem(priv_key_pem@) ==> (r matches Err(e) ==> e@ == "sign host JWT"@),
        r matches Ok(t) ==> carries(
            t@,
            host_part(host_id@, text::views(caps@), now),
            priv_key_pem@,
        ),
{
    let claims: HostClaims = host_claims(host_id, caps, now);
    minted(sign_es256(show_claims(&claims).as_str(), priv_key_pem))
}

} // verus!
