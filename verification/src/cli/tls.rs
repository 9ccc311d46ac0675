//! Self-signed certificates for provisioning.

use vstd::prelude::*;
use vstd::string::StringExecFns;
use crate::text;

pub use crate::mesh::state::SelfSignedCert;

verus! {

/// `rcgen::KeyPair`, a fresh key.
#[verifier::external_type_specification]
#[verifier::external_body]
pub struct ExKeyPair(rcgen::KeyPair);

/// Where the signing of a certificate can fail.
#[derive(Clone, Copy, Debug, PartialEq, Eq, Structural)]
pub enum SignFailure {
    Parameters,
    Signature,
}

/// `rcgen::KeyPair::generate`: a new key, of which nothing can be foretold.
#[verifier::external_body]
fn generate_key() -> (r: Option<rcgen::KeyPair>)
{
    rcgen::KeyPair::generate().ok()
}

/// The first of `sans[i..]` that cannot stand in a certificate.
pub open spec fn first_invalid(sans: Seq<Seq<char>>, i: int) -> Option<Seq<char>>
    decreases sans.len() - i,
{
    if i < 0 || i >= sans.len() {
        None
    } else if !vstd::utf8::is_ascii_chars(sans[i]) {
        Some(sans[i])
    } else {
        first_invalid(sans, i + 1)
    }
}

/// The text of the certificate for a name and its alternative names, on a key, with a signature.
/// An alternative name that is an IP address goes in as one, any other as a DNS name.
pub uninterp spec fn cert_text(
    common_name: Seq<char>,
    sans: Seq<Seq<char>>,
    key_pem: Seq<char>,
    signature: Seq<u8>,
) -> Seq<char>;

/// Whether this is a certificate for the name and the alternative names, on its own key, with
/// some signature: a PEM block of a certificate beside one of a private key.
pub open spec fn is_cert_of(c: SelfSignedCert, common_name: Seq<char>, sans: Seq<Seq<char>>) -> bool {
    &&& exists|signature: Seq<u8>|
        c.cert_pem@ == #[trigger] cert_text(common_name, sans, c.key_pem@, signature)
    &&& text::has_text(c.cert_pem@, "BEGIN CERTIFICATE"@)
    &&& text::has_text(c.cert_pem@, "END CERTIFICATE"@)
    &&& text::has_text(c.key_pem@, "PRIVATE KEY"@)
}

/// `rcgen::CertificateParams::self_signed`: a certificate for the name and the alternative
/// names, signed with the key. The parameters are refused only where a name is not ASCII.
/// The signature rests on chance, and whether the key signs is left unsaid.
#[verifier::external_body]
fn self_sign(common_name: &str, sans: &Vec<String>, key: &rcgen::KeyPair) -> (r: Result<
    SelfSignedCert,
    SignFailure,
>)
    ensures
        r matches Ok(c) ==> exists|signature: Seq<u8>|
            c.cert_pem@ == #[trigger] cert_text(
                common_name@,
                text::views(sans@),
                c.key_pem@,
                signature,
            ),
        r matches Ok(c) ==> text::has_text(c.cert_pem@, "BEGIN CERTIFICATE"@) && text::has_text(
            c.cert_pem@,
            "END CERTIFICATE"@,
        ) && text::has_text(c.key_pem@, "PRIVATE KEY"@),
        r matches Err(SignFailure::Parameters) ==> first_invalid(text::views(sans@), 0) is Some,
{
    let mut params = rcgen::CertificateParams::new(sans.clone()).map_err(
        |_| SignFailure::Parameters,
    )?;
    params.distinguished_name = rcgen::DistinguishedName::new();
    params.distinguished_name.push(rcgen::DnType::CommonName, common_name);
    let cert = params.self_signed(key).map_err(|_| SignFailure::Signature)?;
    Ok(SelfSignedCert { cert_pem: cert.pem(), key_pem: key.serialize_pem() })
}

/// The refusal of a name that cannot stand in a certificate.
pub open spec fn invalid_san_text(san: Seq<char>) -> Seq<char> {
    "invalid DNS SAN "@
        + text::quoted(san)
}

/// The refusal of a name that cannot stand in a certificate.
fn invalid_san(san: &str) -> (r: String)
    ensures
        r@ == invalid_san_text(san@),
{
    let mut out: String = "invalid DNS SAN ".to_owned();
    out.append(text::quote(san).as_str());
    out
}

/// What becomes of a certificate that was to be made, given what signing came to where there
/// was a key: the certificate, or what failed.
pub fn certified(signed: Option<Result<SelfSignedCert, SignFailure>>) -> (r: Result<
    SelfSignedCert,
    String,
>)
    ensures
        match signed {
            Some(Ok(c)) => r == Ok::<SelfSignedCert, String>(c),
            Some(Err(_)) => r matches Err(e) && e@ == "self-sign certificate"@,
            None => r matches Err(e) && e@ == "generate key pair"@,
        },
{
    match signed {
        Some(Ok(c)) => Ok(c),
        Some(Err(_)) => Err("self-sign certificate".to_owned()),
        None => Err("generate key pair".to_owned()),
    }
}

/// Makes a self-signed certificate. A name that cannot stand in it is refused; whatever
/// else comes back is a certificate with its key, or what failed.
pub fn generate_self_signed(common_name: &str, sans: &Vec<String>) -> (r: Result<
    SelfSignedCert,
    String,
>)
    ensures
        match first_invalid(text::views(sans@), 0) {
            Some(s) => r matches Err(e) && e@ == invalid_san_text(s),
            None => match r {
                Ok(c) => is_cert_of(c, common_name@, text::views(sans@)),
                Err(e) => e@ == "generate key pair"@ || e@ == "self-sign certificate"@,
            },
        },
{
    let ghost names = text::views(sans@);
    let mut i: usize = 0;
    while i < sans.len()
        invariant
            i <= sans@.len(),
            names == text::views(sans@),
            first_invalid(names, i as int) == first_invalid(names, 0),
        decreases sans@.len() - i,
    {
        let san: &str = sans[i].as_str();
        proof {
            assert(names[i as int] == san@);
        }
        if !san.is_ascii() {
            return Err(invalid_san(san));
        }
        i = i + 1;
    }
    match generate_key() {
        None => certified(None),
        Some(key) => certified(Some(self_sign(common_name, sans, &key))),
    }
}

} // verus!
