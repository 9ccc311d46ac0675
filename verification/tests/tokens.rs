//! Tokens: who may connect to flux and to the scheduler.

use base64::Engine;
use coolify::cooldctl::jwt::{mint_host_jwt, minted, SignFailure};
use coolify::flux::auth;
use coolify::flux::auth::{
    accept_claims, decide_host_binding, lifetime_within_clamp, seconds_until_expiry,
    team_id_satisfied, token_expired, HostBinding, JwtKeys, NoRevocations, RevocationCheck,
    VerifiedJwt, DEFAULT_KID,
};
use coolify::flux::gateway::authenticate;
use coolify::flux::revocation::{RevocationEntry, RevocationStore};
use coolify::keyed::StrMap;
use coolify::scheduler;
use coolify::token;
use jsonwebtoken::{encode, Algorithm, EncodingKey, Header};
use serde_json::Value;
use std::time::{SystemTime, UNIX_EPOCH};

/// An RSA pair for these tests alone: the private part as PKCS#1, the public part as SPKI.
const RSA_PRIVATE_DER: &str = "\
MIIEowIBAAKCAQEA3QWhRMdth5rh/R/k89X8ERdmUwI1tJEstpWfcBuMYJhwj6LTSttLrJ4dGo/REaNEktTdV0v4\
gsKiasEuRTWP0gE1yMiRNM0CVKjoqkDmrQbg6zBEoyU78j9RGviNIcRmBUEG9AFVo4YcNrUFq/JZFi7wanMXYi4o\
6CF3BPFaBKC4N4r5w+i37HDC6lzDPfiqL1z2erRod9Arnenn4BS0+fFkZiQUQdNjd3iu39zTNhFGh8fJU9GXWrCk\
W6rtnG2NQnQJTpBiR7k98qakkH2G4IZXYj4/Tsza29NLEZIknJ4TaswDpgzMHsKz2A3JwY6o7rYc9dT9h+hv7ck8\
Wq3CzwIDAQABAoIBACO0ePYj+MFAgkPX0a7vFs6UsaPfm65vtMH1j4asT0lRhv7lO8NVhDbpag6JmimCbx2rQ+s0\
1iYa7DhZEduos0hRMrpHZbxvu/HSQZfeGTBth+CRRnKhSBBdLdcwvO1DYtnJb1FJdTy6pGHVbN+iAcXwJPLaueB9\
+tTD3IwmCI1DiTNQ4WDj1PQ/0e0IuwVJAmr7l43Fbtpw36/askNmU/XqU/bIxqeZxDlerqcoGMcdnMbE9gQBW8ug\
g25+feFk0DcLVJur+ZfXI8JueZXB+lYoWdj+hHEVPcgTg/EebJ9ZMTTo7itf/0ep1XyUEcQYIZqfHOSJ4SMttjf7\
0YXZitkCgYEA+XgfW1LN1s4J9aiJMPfTRDC3IQ12M1DTFWg+/X2SZSvuzLmvoG0k0FtuelkuDkY1eJpvUKYBNH72\
xlOQmF2SiOmggqpckKkVE9+fOlAffLxDWnEhXxWdEXkmKRuyQDhJJmgH3zIqzrU3r/dfo1EgFzOtyXUjvUm95eWx\
pEOpUJcCgYEA4s7cjUywQ7YtnpCLny+UyKFKsIPQx/QVcfrqo8KXSIx+skLYlIeKdzn4HBmUXK7N7Gzez083SjcJ\
APOk68EIeikU0ikDqFMIO1VQOKXtQLN26CmmP9A8bqIpj0F9Rn4WkVdUQzwZWMTyDjZ5b9/kou/QDOenOl+q38gy\
9kBtrokCgYACCF6JCfWvaGJgZA0qHvrTtWnolQl/hYsSw5Sv0BQfSupZNLIfpoQERppx2MQtTZkl8GwzxgaAfQBZ\
wViORUTqZKzwI585doc7cDkF6p03EPmjhQR2l+B9wfTzpMwhBdRiwbo+sVPz9zoK7wMSe5i9V6h02cV+x1kKxIJc\
CkkY5QKBgQCEYK5zvj3m127a7IzBdXkGfLVmPxldi0X1B7lpqUq5Kl9MVh2o209i9S+t3vQsAE7qXkTRhO/FXkfg\
CVTJ0RnMiyu+2fdriEL2tn2jAp1uNRECwkRpXHXZMMbG+TdQLImpfOoOcAZvPEv3Ja5NMMV2oDezQIXnWS0XffbY\
qZQa2QKBgCWF2TthSphTnQcvAnbtMGwtE7iSz5JHAblCeI7AmmFHf2vgWmwzElmc+f0tykRQZRCEJGi+6OHREmOZ\
5tSYsOaxDTfg0aSuhXmwSWAbnwQYIM2O3FTibrmJ0IuZoDMeHfjPSvG+DPEK6+UV7KBe7nGjTjC3yYnYQ+emgRtD\
ps/l";
const RSA_PUBLIC_DER: &str = "\
MIIBIjANBgkqhkiG9w0BAQEFAAOCAQ8AMIIBCgKCAQEA3QWhRMdth5rh/R/k89X8ERdmUwI1tJEstpWfcBuMYJhw\
j6LTSttLrJ4dGo/REaNEktTdV0v4gsKiasEuRTWP0gE1yMiRNM0CVKjoqkDmrQbg6zBEoyU78j9RGviNIcRmBUEG\
9AFVo4YcNrUFq/JZFi7wanMXYi4o6CF3BPFaBKC4N4r5w+i37HDC6lzDPfiqL1z2erRod9Arnenn4BS0+fFkZiQU\
QdNjd3iu39zTNhFGh8fJU9GXWrCkW6rtnG2NQnQJTpBiR7k98qakkH2G4IZXYj4/Tsza29NLEZIknJ4TaswDpgzM\
HsKz2A3JwY6o7rYc9dT9h+hv7ck8Wq3CzwIDAQAB";

fn now() -> u64 {
    SystemTime::now().duration_since(UNIX_EPOCH).unwrap().as_secs()
}

fn claims(exp_offset: i64) -> serde_json::Map<String, Value> {
    let n = now();
    let mut m = serde_json::Map::new();
    m.insert("sub".into(), Value::from("host-a"));
    m.insert("aud".into(), Value::from("coold"));
    m.insert("caps".into(), Value::from(vec!["containers.list"]));
    m.insert("exp".into(), Value::from(n as i64 + exp_offset));
    m.insert("iat".into(), Value::from(n));
    m.insert("team_id".into(), Value::from("team-1"));
    m
}

fn scheduler_claims(exp_offset: i64) -> serde_json::Map<String, Value> {
    let mut m = claims(exp_offset);
    m.insert("caps".into(), Value::from(vec!["coold"]));
    m.remove("team_id");
    m
}

fn text_of(v: &Value) -> Option<String> {
    v.as_str().map(|s| s.to_string())
}

fn texts_of(v: &Value) -> Vec<String> {
    v.as_array().map_or(vec![], |a| a.iter().filter_map(text_of).collect())
}

fn read_claims(json: &str) -> Result<auth::Claims, String> {
    let v: Value = serde_json::from_str(json).map_err(|e| e.to_string())?;
    Ok(auth::Claims {
        sub: text_of(&v["sub"]).ok_or("missing field `sub`")?,
        caps: texts_of(&v["caps"]),
        exp: v["exp"].as_u64().unwrap_or(0),
        jti: text_of(&v["jti"]),
        team_id: text_of(&v["team_id"]),
    })
}

fn read_scheduler_claims(json: &str) -> Result<scheduler::Claims, String> {
    let v: Value = serde_json::from_str(json).map_err(|e| e.to_string())?;
    Ok(scheduler::Claims {
        sub: text_of(&v["sub"]).ok_or("missing field `sub`")?,
        caps: texts_of(&v["caps"]),
        exp: v["exp"].as_u64(),
    })
}

struct EcKeys {
    private_pem: String,
    public_pem: String,
}

fn gen_ec_keys() -> EcKeys {
    let pair = rcgen::KeyPair::generate().unwrap();
    EcKeys {
        private_pem: pair.serialize_pem(),
        public_pem: pair.public_key_pem(),
    }
}

fn der(s: &str) -> Vec<u8> {
    base64::engine::general_purpose::STANDARD.decode(s).unwrap()
}

fn rsa_public_pem() -> String {
    let dashes = "-".repeat(5);
    let mut pem = format!("{dashes}BEGIN PUBLIC KEY{dashes}\n");
    for chunk in RSA_PUBLIC_DER.as_bytes().chunks(64) {
        pem.push_str(std::str::from_utf8(chunk).unwrap());
        pem.push('\n');
    }
    pem.push_str(&format!("{dashes}END PUBLIC KEY{dashes}\n"));
    pem
}

fn ec_sign(keys: &EcKeys, claims: &serde_json::Map<String, Value>, kid: Option<&str>) -> String {
    let enc = EncodingKey::from_ec_pem(keys.private_pem.as_bytes()).unwrap();
    let mut header = Header::new(Algorithm::ES256);
    header.kid = kid.map(|k| k.to_string());
    encode(&header, claims, &enc).unwrap()
}

fn rsa_sign(claims: &serde_json::Map<String, Value>) -> String {
    let enc = EncodingKey::from_rsa_der(&der(RSA_PRIVATE_DER));
    encode(&Header::new(Algorithm::RS256), claims, &enc).unwrap()
}

fn forge(public_pem: &str, claims: &serde_json::Map<String, Value>) -> String {
    let enc = EncodingKey::from_secret(public_pem.as_bytes());
    encode(&Header::new(Algorithm::HS256), claims, &enc).unwrap()
}

/// Verify against a single default key with the clamp disabled and no revocations.
fn verify_default(jwt: &str, public_pem: &str) -> Result<VerifiedJwt, String> {
    let keys = JwtKeys::single(public_pem.to_string());
    auth::verify_jwt(jwt, &keys, &NoRevocations, now(), 0, read_claims)
}

fn verify_scheduler(jwt: &str, public_pem: &str) -> Result<scheduler::VerifiedJwt, String> {
    scheduler::verify_jwt(jwt, public_pem, now(), read_scheduler_claims)
}

fn revoked(jtis: &[&str]) -> RevocationStore {
    let mut store = RevocationStore::in_memory();
    for j in jtis {
        store.revoke(j.to_string(), None);
    }
    store
}

#[test]
fn auth_es256_accept() {
    let keys = gen_ec_keys();
    let jwt = ec_sign(&keys, &claims(3600), None);
    let v = verify_default(&jwt, &keys.public_pem).unwrap();
    assert_eq!(v.host_id, "host-a");
    assert_eq!(v.caps, vec!["containers.list".to_string()]);
}

#[test]
fn auth_rs256_accept() {
    let jwt = rsa_sign(&claims(3600));
    let v = verify_default(&jwt, &rsa_public_pem()).unwrap();
    assert_eq!(v.host_id, "host-a");
}

#[test]
fn auth_hs256_rejected_against_asymmetric_key() {
    // A token whose shared secret is the text of the public key must be rejected purely on
    // alg, before its signature is looked at.
    let keys = gen_ec_keys();
    let jwt = forge(&keys.public_pem, &claims(3600));
    let err = verify_default(&jwt, &keys.public_pem).err().unwrap();
    assert!(err.contains("not allowed"), "got: {err}");
}

#[test]
fn auth_alg_key_mismatch_rejected() {
    // ES256 token verified against RSA public key — must be rejected on alg.
    let jwt = ec_sign(&gen_ec_keys(), &claims(3600), None);
    let err = verify_default(&jwt, &rsa_public_pem()).err().unwrap();
    assert!(err.contains("not allowed"), "got: {err}");
}

#[test]
fn auth_expired_rejected() {
    let keys = gen_ec_keys();
    let jwt = ec_sign(&keys, &claims(-3600), None);
    let err = verify_default(&jwt, &keys.public_pem).err().unwrap();
    assert!(err.contains("verification failed"), "got: {err}");
}

#[test]
fn es256_accept() {
    let keys = gen_ec_keys();
    let jwt = ec_sign(&keys, &scheduler_claims(3600), None);
    let v = verify_scheduler(&jwt, &keys.public_pem).unwrap();
    assert_eq!(v.host_id, "host-a");
    assert_eq!(v.caps, vec!["coold".to_string()]);
}

#[test]
fn rs256_accept() {
    let jwt = rsa_sign(&scheduler_claims(3600));
    let v = verify_scheduler(&jwt, &rsa_public_pem()).unwrap();
    assert_eq!(v.host_id, "host-a");
}

#[test]
fn hs256_rejected_against_asymmetric_key() {
    let keys = gen_ec_keys();
    let jwt = forge(&keys.public_pem, &scheduler_claims(3600));
    let err = verify_scheduler(&jwt, &keys.public_pem).err().unwrap();
    assert!(err.contains("not allowed"), "got: {err}");
}

#[test]
fn alg_key_mismatch_rejected() {
    let jwt = ec_sign(&gen_ec_keys(), &scheduler_claims(3600), None);
    let err = verify_scheduler(&jwt, &rsa_public_pem()).err().unwrap();
    assert!(err.contains("not allowed"), "got: {err}");
}

#[test]
fn expired_rejected() {
    let keys = gen_ec_keys();
    let jwt = ec_sign(&keys, &scheduler_claims(-3600), None);
    let err = verify_scheduler(&jwt, &keys.public_pem).err().unwrap();
    assert!(err.contains("verification failed"), "got: {err}");
}

#[test]
fn over_clamp_lifetime_rejected_at_connect() {
    let keys = gen_ec_keys();
    // 2h token, clamp 1h → rejected on lifetime, not signature.
    let jwt = ec_sign(&keys, &claims(7200), None);
    let jwtkeys = JwtKeys::single(keys.public_pem);
    let err = auth::verify_jwt(&jwt, &jwtkeys, &NoRevocations, now(), 3600, read_claims)
        .err()
        .unwrap();
    assert!(err.contains("exceeds max"), "got: {err}");
}

#[test]
fn within_clamp_lifetime_accepted() {
    let keys = gen_ec_keys();
    let jwt = ec_sign(&keys, &claims(1800), None);
    let jwtkeys = JwtKeys::single(keys.public_pem);
    let v = auth::verify_jwt(&jwt, &jwtkeys, &NoRevocations, now(), 3600, read_claims).unwrap();
    assert_eq!(v.host_id, "host-a");
}

#[test]
fn expiry_timer_helpers_detect_expiry() {
    assert!(token_expired(100, 100));
    assert!(token_expired(100, 101));
    assert!(!token_expired(100, 99));
    assert_eq!(seconds_until_expiry(150, 100), 50);
    assert_eq!(seconds_until_expiry(100, 150), 0);
    assert!(lifetime_within_clamp(100, 50, 60)); // 50s <= 60s
    assert!(!lifetime_within_clamp(200, 50, 60)); // 150s > 60s
    assert!(lifetime_within_clamp(u64::MAX, 0, 0)); // clamp disabled
}

#[test]
fn revoked_jti_rejected() {
    let keys = gen_ec_keys();
    let mut c = claims(3600);
    c.insert("jti".into(), Value::from("token-1"));
    let jwt = ec_sign(&keys, &c, None);
    let jwtkeys = JwtKeys::single(keys.public_pem);
    let err = auth::verify_jwt(&jwt, &jwtkeys, &revoked(&["token-1"]), now(), 0, read_claims)
        .err()
        .unwrap();
    assert!(err.contains("revoked"), "got: {err}");
}

#[test]
fn unrevoked_jti_accepted() {
    let keys = gen_ec_keys();
    let mut c = claims(3600);
    c.insert("jti".into(), Value::from("token-2"));
    let jwt = ec_sign(&keys, &c, None);
    let jwtkeys = JwtKeys::single(keys.public_pem);
    let v =
        auth::verify_jwt(&jwt, &jwtkeys, &revoked(&["other"]), now(), 0, read_claims).unwrap();
    assert_eq!(v.host_id, "host-a");
}

#[test]
fn agents_are_told_the_same_whatever_is_wrong() {
    let keys = gen_ec_keys();
    let mut c = claims(3600);
    c.insert("jti".into(), Value::from("token-3"));
    let good = format!("Bearer {}", ec_sign(&keys, &c, None));
    c.insert("team_id".into(), Value::from("  "));
    let bare = format!("Bearer {}", ec_sign(&keys, &c, None));
    let jwtkeys = JwtKeys::single(keys.public_pem);
    let ask = |header: Option<&str>, denied: &[&str]| {
        authenticate(header, &jwtkeys, &revoked(denied), now(), 7200, true, read_claims)
    };
    assert_eq!(ask(Some(&good), &[]).unwrap().host_id, "host-a");
    for (header, denied, reason) in [
        (None, &[][..], "missing or malformed Authorization"),
        (Some("Bearer x"), &[], "JWT header parse"),
        (Some(good.as_str()), &["token-3"], "revoked"),
        (Some(bare.as_str()), &[], "team_id"),
    ] {
        let x = ask(header, denied).unwrap_err();
        assert_eq!(x.refusal.message(), "invalid credentials");
        assert!(x.reason.contains(reason), "got: {}", x.reason);
    }
}

#[test]
fn known_kid_verified_against_matching_key() {
    let default_keys = gen_ec_keys();
    let rotated = gen_ec_keys();
    let mut by_kid = StrMap::new();
    by_kid.insert("2026-q3".to_string(), rotated.public_pem.clone());
    let jwtkeys = JwtKeys::new(default_keys.public_pem, by_kid);
    let jwt = ec_sign(&rotated, &claims(3600), Some("2026-q3"));
    let v = auth::verify_jwt(&jwt, &jwtkeys, &NoRevocations, now(), 0, read_claims).unwrap();
    assert_eq!(v.host_id, "host-a");
}

#[test]
fn unknown_kid_rejected() {
    let default_keys = gen_ec_keys();
    let jwt = ec_sign(&default_keys, &claims(3600), Some("nope"));
    let err = verify_default(&jwt, &default_keys.public_pem).err().unwrap();
    assert!(err.contains("unknown JWT kid"), "got: {err}");
}

#[test]
fn no_kid_falls_back_to_default_key() {
    let default_keys = gen_ec_keys();
    let jwt = ec_sign(&default_keys, &claims(3600), None);
    let v = verify_default(&jwt, &default_keys.public_pem).unwrap();
    assert_eq!(v.host_id, "host-a");
}

#[test]
fn flux_default_kid_uses_default_key() {
    let default_keys = gen_ec_keys();
    let jwt = ec_sign(&default_keys, &claims(3600), Some(DEFAULT_KID));
    let v = verify_default(&jwt, &default_keys.public_pem).unwrap();
    assert_eq!(v.host_id, "host-a");
}

#[test]
fn team_id_surfaced_from_verified_token() {
    let keys = gen_ec_keys();
    let jwt = ec_sign(&keys, &claims(3600), None);
    let v = verify_default(&jwt, &keys.public_pem).unwrap();
    assert_eq!(v.team_id.as_deref(), Some("team-1"));
}

#[test]
fn team_id_required_rejects_missing_and_blank() {
    assert!(!team_id_satisfied(None, true));
    assert!(!team_id_satisfied(Some(""), true));
    assert!(!team_id_satisfied(Some("   "), true));
    assert!(team_id_satisfied(Some("team-1"), true));
}

#[test]
fn team_id_not_required_tolerates_missing() {
    assert!(team_id_satisfied(None, false));
    assert!(team_id_satisfied(Some(""), false));
    assert!(team_id_satisfied(Some("team-1"), false));
}

#[test]
fn host_binding_transport_peer_match_accepted() {
    let d = decide_host_binding("10.42.0.7", "10.42.0.7", Some("10.42.0.7"), true);
    assert_eq!(d, Ok(HostBinding::Transport));
}

#[test]
fn host_binding_transport_peer_mismatch_rejected_when_required() {
    // Stolen token (sub=host A) replayed from a different host IP.
    let err = decide_host_binding("10.42.0.7", "10.42.0.7", Some("10.42.0.9"), true).unwrap_err();
    assert!(err.contains("does not match token sub"), "got: {err}");
}

#[test]
fn host_binding_transport_peer_mismatch_tolerated_when_not_required() {
    let d = decide_host_binding("10.42.0.7", "10.42.0.7", Some("10.42.0.9"), false).unwrap();
    assert!(matches!(d, HostBinding::Unenforced { .. }));
}

#[test]
fn host_binding_falls_back_to_hello_when_peer_unavailable() {
    // No transport peer → verify sub against Hello-advertised mgmt IP.
    let d = decide_host_binding("10.42.0.7", "10.42.0.7", None, true).unwrap();
    assert!(matches!(d, HostBinding::HelloFallback { .. }));
}

#[test]
fn host_binding_hello_mismatch_rejected_when_required() {
    let err = decide_host_binding("10.42.0.7", "10.42.0.9", None, true).unwrap_err();
    assert!(err.contains("does not match token sub"), "got: {err}");
}

#[test]
fn host_binding_hello_mismatch_tolerated_when_not_required() {
    let d = decide_host_binding("10.42.0.7", "10.42.0.9", None, false).unwrap();
    assert!(matches!(d, HostBinding::Unenforced { .. }));
}

#[test]
fn host_binding_non_ip_sub_degrades_to_hello_check() {
    // A UUID-style host id can't be compared to a peer IP; degrade to the Hello check rather
    // than break the mesh.
    let d = decide_host_binding("host-uuid-abc", "host-uuid-abc", Some("10.42.0.7"), true).unwrap();
    assert!(matches!(d, HostBinding::HelloFallback { .. }));
}

#[test]
fn host_binding_reads_addresses_in_any_spelling() {
    let d = decide_host_binding("2001:DB8:0::1", "", Some("2001:db8::1"), true);
    assert_eq!(d, Ok(HostBinding::Transport));
}

#[test]
fn revoked_jti_is_reported_revoked() {
    let mut store = RevocationStore::in_memory();
    assert!(!store.is_revoked("a"));
    store.revoke("a".into(), None);
    assert!(store.is_revoked("a"));
    assert!(!store.is_revoked("b"));
}

#[test]
fn unrevoke_removes_entry() {
    let mut store = RevocationStore::in_memory();
    store.revoke("a".into(), None);
    assert!(store.unrevoke("a"));
    assert!(!store.is_revoked("a"));
    assert!(!store.unrevoke("a"), "second unrevoke is a no-op");
}

#[test]
fn revocation_survives_reload_from_disk() {
    let mut store = RevocationStore::load(&None, now());
    store.revoke("token-1".into(), Some(now() + 3600));
    let written: Vec<RevocationEntry> = store.list();

    let reloaded = RevocationStore::load(&Some(written), now());
    assert!(
        reloaded.is_revoked("token-1"),
        "revocation lost across reload"
    );
}

#[test]
fn expired_entries_pruned_on_load() {
    let n = now();
    let mut store = RevocationStore::load(&None, n);
    store.revoke("live".into(), Some(n + 3600));
    store.revoke("dead".into(), Some(n - 10));

    let reloaded = RevocationStore::load(&Some(store.list()), n);
    assert!(reloaded.is_revoked("live"));
    assert!(
        !reloaded.is_revoked("dead"),
        "expired entry should be pruned on load"
    );
}

#[test]
fn prune_drops_expired_entries() {
    let mut store = RevocationStore::in_memory();
    let n = now();
    store.revoke("live".into(), Some(n + 3600));
    store.revoke("dead".into(), Some(n - 1));
    store.revoke("forever".into(), None);

    assert_eq!(store.prune(n), 1);
    assert!(store.is_revoked("live"));
    assert!(store.is_revoked("forever"));
    assert!(!store.is_revoked("dead"));
}

#[test]
fn lists_are_sorted_by_token() {
    let mut store = RevocationStore::in_memory();
    store.revoke("b".into(), Some(7));
    store.revoke("a".into(), None);
    let l = store.list();
    assert_eq!((l[0].jti.as_str(), l[0].expires_at), ("a", None));
    assert_eq!((l[1].jti.as_str(), l[1].expires_at), ("b", Some(7)));
}

#[test]
fn tokens_for_others_are_refused() {
    let keys = gen_ec_keys();
    let mut c = claims(3600);
    c.insert("aud".into(), Value::from("someone-else"));
    let jwt = ec_sign(&keys, &c, None);
    assert!(verify_default(&jwt, &keys.public_pem)
        .err()
        .unwrap()
        .contains("verification failed"));
    let other = gen_ec_keys();
    let jwt = ec_sign(&keys, &claims(3600), None);
    assert!(verify_default(&jwt, &other.public_pem)
        .err()
        .unwrap()
        .contains("verification failed"));
}

#[test]
fn claims_that_cannot_be_read_are_refused() {
    let keys = gen_ec_keys();
    let mut c = claims(3600);
    c.remove("sub");
    let jwt = ec_sign(&keys, &c, None);
    let err = verify_default(&jwt, &keys.public_pem).err().unwrap();
    assert_eq!(err, "JWT verification failed: JSON error: missing field `sub`");
}

#[test]
fn headers_and_keys_are_read() {
    let keys = gen_ec_keys();
    let h = token::read_header(&ec_sign(&keys, &claims(3600), Some("k1"))).unwrap();
    assert_eq!((h.alg.as_str(), h.kid.as_deref()), ("ES256", Some("k1")));
    assert!(token::read_header("not a token").unwrap_err().starts_with("JWT header parse: "));
    assert_eq!(token::read_key(&keys.public_pem), Ok(true));
    assert_eq!(token::read_key(&rsa_public_pem()), Ok(false));
    assert!(token::read_key("junk").unwrap_err().starts_with("load JWT pubkey: "));
    assert_eq!(
        token::check_alg(false, "HS256").unwrap_err(),
        "JWT alg HS256 not allowed for loaded key"
    );
}

#[test]
fn accepted_claims_are_handed_on() {
    let c = read_claims("{\"sub\":\"h\",\"caps\":[\"a\"],\"exp\":90,\"jti\":\"j\"}").unwrap();
    let v = accept_claims(c.clone(), &NoRevocations, 50, 40).unwrap();
    assert_eq!((v.host_id.as_str(), v.exp, v.team_id), ("h", 90, None));
    assert!(accept_claims(c.clone(), &NoRevocations, 50, 39).is_err());
    assert!(accept_claims(c, &revoked(&["j"]), 50, 40).is_err());
}

#[test]
fn host_tokens_are_minted_and_verified() {
    let keys = gen_ec_keys();
    let caps = vec!["containers.list".to_string()];
    let pem = keys.private_pem.as_bytes().to_vec();
    let jwt = mint_host_jwt(&pem, "100.64.0.5", &caps, now()).unwrap();
    let v = verify_default(&jwt, &keys.public_pem).unwrap();
    assert_eq!(v.host_id, "100.64.0.5");
    assert_eq!(v.caps, caps);
    assert!(mint_host_jwt(&vec![1, 2], "h", &caps, now()).is_err());
}

/// A token with any header and any text of claims.
fn raw_sign(keys: &EcKeys, header: &str, claims: &str) -> String {
    let b64 = &base64::engine::general_purpose::URL_SAFE_NO_PAD;
    let part = format!("{}.{}", b64.encode(header), b64.encode(claims));
    let enc = EncodingKey::from_ec_pem(keys.private_pem.as_bytes()).unwrap();
    let signature = jsonwebtoken::crypto::sign(part.as_bytes(), &enc, Algorithm::ES256).unwrap();
    format!("{part}.{signature}")
}

#[test]
fn flux_pins_its_algorithms() {
    let c = claims(3600);
    let rsa = EncodingKey::from_rsa_der(&der(RSA_PRIVATE_DER));
    for alg in [Algorithm::RS256, Algorithm::PS256, Algorithm::PS384, Algorithm::PS512] {
        let jwt = encode(&Header::new(alg), &c, &rsa).unwrap();
        assert_eq!(verify_default(&jwt, &rsa_public_pem()).unwrap().host_id, "host-a");
    }
    for (alg, name) in [(Algorithm::RS384, "RS384"), (Algorithm::RS512, "RS512")] {
        let jwt = encode(&Header::new(alg), &c, &rsa).unwrap();
        let err = verify_default(&jwt, &rsa_public_pem()).err().unwrap();
        assert_eq!(err, format!("JWT alg {name} not allowed for loaded key"));
    }
    let keys = gen_ec_keys();
    let jwt = raw_sign(&keys, "{\"typ\":\"JWT\",\"alg\":\"ES384\"}", "{}");
    let err = verify_default(&jwt, &keys.public_pem).err().unwrap();
    assert_eq!(err, "JWT alg ES384 not allowed for loaded key");
    assert!(token::check_fit(true, "ES384").is_ok());
    assert!(token::check_fit(false, "RS512").is_ok());
    assert!(token::check_fit(true, "RS256").is_err());
}

#[test]
fn expiry_has_a_minute_of_leeway() {
    let keys = gen_ec_keys();
    let c = claims(3600);
    let exp = c["exp"].as_u64().unwrap();
    let jwt = ec_sign(&keys, &c, None);
    let jwtkeys = JwtKeys::single(keys.public_pem.clone());
    let at = |now: u64| auth::verify_jwt(&jwt, &jwtkeys, &NoRevocations, now, 0, read_claims);
    assert!(at(exp + 60).is_ok());
    let err = at(exp + 61).err().unwrap();
    assert_eq!(err, "JWT verification failed: ExpiredSignature");
    let jwt = ec_sign(&keys, &scheduler_claims(-3600), None);
    assert_eq!(
        verify_scheduler(&jwt, &keys.public_pem).err().unwrap(),
        "JWT verification failed: ExpiredSignature"
    );
    assert!(!token::has_expired(0, 60));
    assert!(token::has_expired(0, 61));
}

#[test]
fn claims_are_handed_over_as_they_were_signed() {
    let keys = gen_ec_keys();
    let header = "{\"typ\":\"JWT\",\"alg\":\"ES256\"}";
    let twice = "{\"aud\":\"coold\",\"sub\":\"a\", \"sub\":\"b\",\"exp\":9999999999}";
    let jwt = raw_sign(&keys, header, twice);
    assert!(token::read_claims(&jwt, &keys.public_pem, true, "ES256").is_err());
    let claims = "{\"aud\":\"coold\",\"caps\":[], \"caps\":[\"b\"],\"exp\":9999999999}";
    let jwt = raw_sign(&keys, header, claims);
    assert_eq!(token::read_claims(&jwt, &keys.public_pem, true, "ES256"), Ok(claims.to_string()));
}

#[test]
fn failures_to_sign_are_told() {
    assert_eq!(minted(Ok("t".into())), Ok("t".to_string()));
    assert_eq!(minted(Err(SignFailure::Key)).unwrap_err(), "parse EC private key");
    assert_eq!(minted(Err(SignFailure::Signature)).unwrap_err(), "sign host JWT");
}

#[test]
fn the_first_thing_wrong_is_told() {
    let keys = gen_ec_keys();
    let told = |c: &serde_json::Map<String, Value>| {
        let jwt = ec_sign(&keys, c, None);
        (
            verify_default(&jwt, &keys.public_pem).err().unwrap(),
            verify_scheduler(&jwt, &keys.public_pem).err().unwrap(),
        )
    };
    let failed = |e: &str| {
        let text = format!("JWT verification failed: {e}");
        (text.clone(), text)
    };
    let mut c = claims(-3600);
    c.insert("aud".into(), Value::from("someone-else"));
    assert_eq!(told(&c), failed("ExpiredSignature"));
    c.insert("exp".into(), Value::from(now() + 60));
    assert_eq!(told(&c), failed("InvalidAudience"));
    c.remove("sub");
    assert_eq!(told(&c), failed("JSON error: missing field `sub`"));
    let mut c = scheduler_claims(60);
    c.remove("exp");
    let jwt = ec_sign(&keys, &c, None);
    assert_eq!(
        verify_scheduler(&jwt, &keys.public_pem).err().unwrap(),
        "JWT verification failed: Missing required claim: exp"
    );
}

#[test]
fn claims_are_signed_in_their_order() {
    let keys = gen_ec_keys();
    let pem = keys.private_pem.as_bytes().to_vec();
    let jwt = mint_host_jwt(&pem, "h\"1", &vec![], 1_700_000_000).unwrap();
    let b64 = &base64::engine::general_purpose::URL_SAFE_NO_PAD;
    let claims = String::from_utf8(b64.decode(jwt.split('.').nth(1).unwrap()).unwrap()).unwrap();
    assert_eq!(
        claims,
        "{\"sub\":\"h\\\"1\",\"aud\":\"coold\",\"caps\":[\"coold\"],\"iat\":1700000000,\"exp\":1731536000}"
    );
}
