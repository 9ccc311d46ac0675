//! Who is let in, and what becomes of streams and requests.

use vstd::prelude::*;
use crate::flux::auth;
use crate::flux::auth::{BindingView, Claims, JwtKeys, RevocationCheck, VerifiedJwt};
use crate::flux::bridge;
use crate::flux::bridge::{DispatchEvent, NextView, Stage};
use crate::flux::config;
use crate::flux::gateway;
use crate::flux::gateway::{Admission, Disconnect, Hello, Liveness, Refusal, StreamEvent, StreamStep};
use crate::flux::pending;
use crate::flux::pending::{Beat, Sweep, WaitState, WaitView};
use crate::flux::registry;
use crate::flux::resource_status;
use crate::flux::revocation;
use crate::json;
use crate::keyed;
use crate::scheduler;
use crate::scheduler::Report;
use crate::split;
use crate::text;
use crate::token;

verus! {

// ---------------------------------------------------------------------------
// Tokens
// ---------------------------------------------------------------------------

/// A token is let in if and only if its claims can be read, it expired no more than a minute ago,
/// it is meant for this audience, it lasts no longer than is allowed where that is limited, and
/// its id is not revoked. Its bearer is then the host that it names, with the capabilities, the
/// expiry and the tenant that it names.
pub proof fn tokens_are_let_in_only_if_they_hold<R: RevocationCheck>(
    r: Result<VerifiedJwt, String>,
    claims: Result<Claims, String>,
    misdirected: Option<Seq<char>>,
    revocation: R,
    now: u64,
    max: u64,
)
    requires
        auth::judged(r, claims, misdirected, revocation, now, max),
    ensures
        r is Ok <==> (claims matches Ok(c) && now <= c.exp + 60 && misdirected is None && (max == 0
            || c.exp <= now + max) && (c.jti matches Some(j) ==> !revocation.revoked(j@))),
        r matches Ok(v) ==> (claims matches Ok(c) && v.host_id@ == c.sub@ && v.caps@ == c.caps@
            && v.exp == c.exp && text::opt_view(v.team_id) == text::opt_view(c.team_id)),
{
}

/// A token that is let in was signed with the key that its header names, by an algorithm that
/// goes with that key.
pub proof fn tokens_are_signed_with_the_key_they_name<
    R: RevocationCheck,
    F: Fn(&str) -> Result<Claims, String>,
>(
    r: Result<VerifiedJwt, String>,
    token: Seq<char>,
    keys: JwtKeys,
    revocation: R,
    now: u64,
    max: u64,
    parse: F,
)
    requires
        auth::verified(r, token, keys, revocation, now, max, parse),
        r is Ok,
    ensures
        token::header_of(token) matches Ok((alg, kid)) && (auth::key_for(
            keys.default_key(),
            keys.others(),
            kid,
        ) matches Ok(pem) && (token::curve_of(pem) matches Ok(ec) && token::alg_allowed(ec, alg)
            && token::signed_claims(token, pem, ec, alg, "coold"@, false) is Ok
            && token::signed_claims(token, pem, ec, alg, "coold"@, true) is Ok)),
{
}

/// A token without a key id, or with the default one, is checked with the default key; any other id
/// stands for the key that is registered under it, and an id that is registered nowhere for none.
pub proof fn key_ids_choose_the_key(
    default_pem: Seq<char>,
    by_kid: Seq<(Seq<char>, String)>,
    kid: Option<Seq<char>>,
)
    ensures
        kid is None ==> auth::key_for(default_pem, by_kid, kid) == Ok::<Seq<char>, Seq<char>>(
            default_pem,
        ),
        kid == Some("flux-default"@) ==> auth::key_for(default_pem, by_kid, kid) == Ok::<
            Seq<char>,
            Seq<char>,
        >(default_pem),
        kid matches Some(k) ==> k != "flux-default"@ ==> match keyed::lookup(by_kid, k) {
            Some(pem) => auth::key_for(default_pem, by_kid, kid) == Ok::<Seq<char>, Seq<char>>(pem@),
            None => auth::key_for(default_pem, by_kid, kid) is Err,
        },
{
}

/// Flux takes ES256 with a curve key, RS256 and the PSS algorithms with an RSA key, and nothing
/// else; the scheduler takes the longer variants too.
pub proof fn algorithms_go_with_keys(alg: Seq<char>)
    ensures
        token::alg_allowed(true, alg) <==> alg == "ES256"@,
        token::alg_allowed(false, alg) <==> seq!["RS256"@, "PS256"@, "PS384"@, "PS512"@].contains(
            alg,
        ),
        token::alg_fits(true, alg) <==> seq!["ES256"@, "ES384"@].contains(alg),
        token::alg_fits(false, alg) <==> seq![
            "RS256"@,
            "RS384"@,
            "RS512"@,
            "PS256"@,
            "PS384"@,
            "PS512"@,
        ].contains(alg),
{
    let a = seq!["RS256"@, "PS256"@, "PS384"@, "PS512"@];
    let b = seq!["ES256"@, "ES384"@];
    let c = seq!["RS256"@, "RS384"@, "RS512"@, "PS256"@, "PS384"@, "PS512"@];
    assert(a[0] == "RS256"@ && a[1] == "PS256"@ && a[2] == "PS384"@ && a[3] == "PS512"@);
    assert(b[0] == "ES256"@ && b[1] == "ES384"@);
    assert(c[0] == "RS256"@ && c[1] == "RS384"@ && c[2] == "RS512"@ && c[3] == "PS256"@ && c[4]
        == "PS384"@ && c[5] == "PS512"@);
}

/// The scheduler lets a token in if and only if its claims can be read, it is meant for this
/// audience and it did not expire more than a minute ago; its bearer is the host that it names,
/// with the capabilities that it names.
pub proof fn the_scheduler_lets_in_only_what_holds(
    r: Result<scheduler::VerifiedJwt, String>,
    claims: Result<scheduler::Claims, String>,
    misdirected: Option<Seq<char>>,
    now: u64,
)
    requires
        scheduler::judged(r, claims, misdirected, now),
    ensures
        r is Ok <==> (claims matches Ok(c) && misdirected is None && (c.exp matches Some(e) ==> now
            <= e + 60)),
        r matches Ok(v) ==> (claims matches Ok(c) && v.host_id@ == c.sub@ && v.caps@ == c.caps@),
{
}

/// A token has to name its tenant where that is required, and a blank name is none.
pub proof fn tenants_are_named_where_required(team: Option<Seq<char>>, required: bool)
    ensures
        auth::tenant_named(team, required) <==> (required ==> (team matches Some(t)
            && split::trimmed(t).len() > 0)),
{
}

/// The time that a token has left is what lies between now and its expiry, and none after it.
pub proof fn lifetimes_are_counted_down(exp: u64, now: u64, max: u64)
    ensures
        exp >= now ==> auth::remaining(exp, now) == exp - now,
        exp <= now ==> auth::remaining(exp, now) == 0,
        auth::within_clamp(exp, now, max) <==> max == 0 || exp <= now + max,
{
}

// ---------------------------------------------------------------------------
// Hosts
// ---------------------------------------------------------------------------

/// A host is bound by the address that its connection comes from where that address and the one
/// that its token names are known: it is bound if they are the same, and otherwise let through
/// only where binding is not required. Where one of them is not known, it is bound if it names
/// itself as its token does.
pub proof fn hosts_are_bound_to_their_tokens(
    sub: Seq<char>,
    named: Option<Seq<char>>,
    advertised: Seq<char>,
    peer: Option<Seq<char>>,
    require: bool,
)
    ensures
        ({
            let b = auth::binding_of(sub, named, advertised, peer, require);
            let told = peer is Some && named is Some;
            let same = peer == named;
            let itself = sub.len() > 0 && advertised == sub;
            &&& b == Ok::<BindingView, Seq<char>>(BindingView::Transport) <==> told && same
            &&& (b matches Ok(BindingView::HelloFallback(_))) <==> !told && itself
            &&& (b matches Ok(BindingView::Unenforced(_))) <==> !require && ((told && !same) || (!told
                && !itself))
            &&& b is Err <==> require && ((told && !same) || (!told && !itself))
        }),
{
}

/// A stream is let in if and only if it speaks a schema that flux speaks and its host is bound to
/// its token. It may then do what its agent advertises and its token grants, and it misses the
/// rest of what its agent advertises.
pub proof fn streams_are_let_in_only_if_bound(
    r: Result<Admission, Refusal>,
    named: Option<Seq<char>>,
    host: Seq<char>,
    jwt: Seq<Seq<char>>,
    hello: Hello,
    peer: Option<Seq<char>>,
    require: bool,
    wild: bool,
    x: Seq<char>,
)
    requires
        gateway::admitted(r, named, host, jwt, hello, peer, require, wild),
    ensures
        ({
            let told = peer is Some && named is Some;
            let itself = host.len() > 0 && hello.host_mgmt_ip@ == host;
            let bound = if told {
                peer == named
            } else {
                itself
            };
            let speaks = hello.schema_min <= 1 <= hello.schema_max;
            let advertised = text::views(hello.capabilities@).contains(x);
            let granted = jwt.contains(x) || (wild && gateway::has_wildcard(jwt));
            &&& r is Ok <==> speaks && (bound || !require)
            &&& !speaks ==> r == Err::<Admission, Refusal>(Refusal::IncompatibleSchema)
            &&& speaks && !bound && require ==> r == Err::<Admission, Refusal>(
                Refusal::InvalidCredentials,
            )
            &&& r matches Ok(a) ==> {
                &&& text::views(a.effective@).contains(x) <==> advertised && granted
                &&& text::views(a.missing@).contains(x) <==> advertised && !granted
                &&& a.idle_wildcard <==> !wild && gateway::has_wildcard(jwt)
            }
        }),
{
    let advertised = text::views(hello.capabilities@);
    gateway::claims_are_authoritative(advertised, jwt, x);
    if advertised.contains(x) {
        gateway::capabilities_are_split(advertised, jwt, wild, x);
    } else {
        gateway::only_advertised_are_missing(advertised, jwt, wild, x);
    }
    hosts_are_bound_to_their_tokens(host, named, hello.host_mgmt_ip@, peer, require);
}

/// Three capabilities stand for all, and no other does.
pub proof fn three_profiles_are_wildcards(cap: Seq<char>)
    ensures
        gateway::wildcard(cap) <==> seq!["*"@, "host-agent:dev"@, "host-agent:default"@].contains(
            cap,
        ),
{
    let a = seq!["*"@, "host-agent:dev"@, "host-agent:default"@];
    assert(a[0] == "*"@ && a[1] == "host-agent:dev"@ && a[2] == "host-agent:default"@);
}

/// Flux does not listen on every interface unless that is allowed: the addresses of none stand
/// for every interface.
pub proof fn no_address_stands_for_all(ip: Seq<char>)
    ensures
        gateway::unspecified(ip) <==> seq!["0.0.0.0"@, "::"@].contains(ip),
{
    let a = seq!["0.0.0.0"@, "::"@];
    assert(a[0] == "0.0.0.0"@ && a[1] == "::"@);
}

// ---------------------------------------------------------------------------
// Streams
// ---------------------------------------------------------------------------

/// A stream ends if and only if its token has expired, its agent has left or it has failed, and
/// the reason that is reported says which. An answer is delivered, a state is published, an agent
/// that was taken for unreachable is reported to be back, and nothing else does anything.
pub proof fn streams_end_for_a_reason(event: StreamEvent)
    ensures
        ({
            let s = gateway::step_of(event);
            &&& s is Stop <==> event is Expired || event is Closed || event is Failed
            &&& event is Expired ==> (s matches StreamStep::Stop(d) && d.label()
                == "token_expired"@)
            &&& event is Closed ==> (s matches StreamStep::Stop(d) && d.label()
                == "stream_closed"@)
            &&& event is Failed ==> (s matches StreamStep::Stop(d) && d.label() == "stream_error"@)
            &&& s is Deliver <==> event is Response
            &&& s is Publish <==> event is StatusUpdate
            &&& s is Restore <==> event == (StreamEvent::Pong { restored: true })
        }),
{
}

/// An agent is told to be installed while its stream is up and heard of, and unreachable once the
/// stream has ended or fallen silent.
pub proof fn agents_are_reported_as_they_are(l: Liveness)
    ensures
        l is Connected || l is Restored ==> gateway::liveness_told(l).0 == "installed"@,
        l is Disconnected || l is TimedOut ==> gateway::liveness_told(l).0 == "unreachable"@,
{
}

/// A bad credential is answered as such whatever is wrong with it; a stream without a greeting and
/// one of another schema are told so.
pub proof fn refusals_are_told_apart(r: Refusal)
    ensures
        r is InvalidCredentials ==> r.grpc_status() == "UNAUTHENTICATED"@ && r.told()
            == "invalid credentials"@,
        r is HelloRequired ==> r.grpc_status() == "INVALID_ARGUMENT"@,
        r is IncompatibleSchema ==> r.grpc_status() == "FAILED_PRECONDITION"@,
{
}

// ---------------------------------------------------------------------------
// Requests
// ---------------------------------------------------------------------------

/// A request that fails is answered with what went wrong: a conflict where its id is under way
/// already, an unavailable service where there is no room or its host is gone or does not keep
/// up, and a timeout where no answer came. It is forgotten then if and only if it was noted down
/// and no answer is awaited any more.
pub proof fn failures_are_answered_with_their_codes(event: DispatchEvent)
    ensures
        match bridge::next_of(event) {
            NextView::Proceed(_) => event is Routed || event is Inserted || event is Parked
                || event is StreamFound || event is Sent,
            NextView::Answer => event is Answered,
            NextView::Refuse(code, _, forget) => {
                &&& code == 409 <==> event is Duplicate
                &&& code == 504 <==> event is SinkDropped || event is TimedOut
                &&& code == 500 <==> event is Lost
                &&& code == 503 <==> event is AtCapacity || event is StreamGone || event is QueueFull
                    || event is StreamClosed || event is StreamDropped
                &&& forget <==> event is StreamGone || event is QueueFull || event is StreamClosed
            },
        },
{
}

/// A request goes through its stages one by one: routed, noted down, parked, given a stream, sent
/// and answered.
pub proof fn requests_go_through_their_stages(event: DispatchEvent)
    ensures
        event is Routed ==> bridge::next_of(event) == NextView::Proceed(Stage::Note),
        event is Inserted ==> bridge::next_of(event) == NextView::Proceed(Stage::Park),
        event is Parked ==> bridge::next_of(event) == NextView::Proceed(Stage::Find),
        event is StreamFound ==> bridge::next_of(event) == NextView::Proceed(Stage::Send),
        event is Sent ==> bridge::next_of(event) == NextView::Proceed(Stage::Wait),
{
}

/// The HTTP status of an error is its code where that is a status of an error, and an internal
/// error otherwise: no error is answered as a success.
pub proof fn errors_are_no_successes(code: u32)
    ensures
        400 <= bridge::status_of(code) <= 599,
        400 <= code <= 599 ==> bridge::status_of(code) == code,
        !(400 <= code <= 599) ==> bridge::status_of(code) == 500,
{
}

/// The state of a request under way is the one that is noted down for it.
pub proof fn states_are_those_noted_down(s: Seq<WaitView>, i: int)
    requires
        pending::ids(s).no_duplicates(),
        0 <= i < s.len(),
    ensures
        pending::state_of(s, s[i].request_id) == Some(s[i].state),
        pending::under_way(s, s[i].request_id),
    decreases s.len(),
{
    if i < s.len() - 1 {
        let t = s.drop_last();
        assert(pending::ids(t) =~= pending::ids(s).drop_last());
        assert(pending::ids(s)[i] != pending::ids(s)[s.len() - 1]);
        assert forall|a: int, b: int| 0 <= a < t.len() && 0 <= b < t.len() && a != b implies
            pending::ids(t)[a] != pending::ids(t)[b] by {
            assert(pending::ids(s)[a] != pending::ids(s)[b]);
        }
        assert(t[i] == s[i]);
        states_are_those_noted_down(t, i);
    }
}

/// Moving a request on changes its state alone, and no other request.
pub proof fn moving_spares_the_others(s: Seq<WaitView>, id: Seq<char>, state: WaitState, i: int)
    requires
        0 <= i < s.len(),
    ensures
        pending::moved(s, id, state).len() == s.len(),
        pending::moved(s, id, state)[i].request_id == s[i].request_id,
        pending::moved(s, id, state)[i].host_id == s[i].host_id,
        pending::moved(s, id, state)[i].since == s[i].since,
        pending::moved(s, id, state)[i].state == (if s[i].request_id == id {
            state
        } else {
            s[i].state
        }),
{
}

/// A request is overdue once it has waited for the whole timeout without an answer; a host that is
/// gone takes its unanswered requests with it; and an answer that nobody has come for is given up
/// after half a minute.
pub proof fn sweeps_pick_what_they_are_about(w: WaitView, now: u64, timeout: u64, host: &str)
    ensures
        pending::picks(Sweep::Overdue { now, timeout }, w) <==> !(w.state is Landed) && (timeout == 0
            || now >= w.since + timeout),
        pending::picks(Sweep::Host(host), w) <==> !(w.state is Landed) && w.host_id == host@,
        pending::picks(Sweep::Uncalled { now }, w) <==> (w.state matches WaitState::Landed(at)
            && now >= at + 30),
{
}

// ---------------------------------------------------------------------------
// Heartbeats
// ---------------------------------------------------------------------------

/// An agent is reported silent if and only if it was not reported yet and nothing was heard of it
/// for longer than the timeout; it is marked then, and nothing else of any agent changes.
pub proof fn silent_agents_are_reported(
    s: Seq<(Seq<char>, Beat)>,
    now: u64,
    timeout: u64,
    host: Seq<char>,
)
    ensures
        pending::newly_silent(s, now, timeout).contains(host) <==> exists|i: int|
            0 <= i < s.len() && (#[trigger] s[i]).0 == host && !s[i].1.stale && now > s[i].1.last
                + timeout,
        forall|i: int|
            0 <= i < s.len() ==> (#[trigger] pending::marked(s, now, timeout)[i]).0 == s[i].0
                && pending::marked(s, now, timeout)[i].1.last == s[i].1.last && (pending::marked(
                s,
                now,
                timeout,
            )[i].1.stale <==> s[i].1.stale || now > s[i].1.last + timeout),
    decreases s.len(),
{
    let r = pending::newly_silent(s, now, timeout);
    if s.len() > 0 {
        let t = s.drop_last();
        silent_agents_are_reported(t, now, timeout, host);
        let q = pending::newly_silent(t, now, timeout);
        let last = s.last();
        assert(s[s.len() - 1] == last);
        if q.contains(host) {
            let k = choose|k: int| 0 <= k < q.len() && q[k] == host;
            assert(r[k] == host);
            let i = choose|i: int|
                0 <= i < t.len() && (#[trigger] t[i]).0 == host && !t[i].1.stale && now
                    > t[i].1.last + timeout;
            assert(s[i] == t[i]);
        }
        if r.contains(host) && !q.contains(host) {
            let k = choose|k: int| 0 <= k < r.len() && r[k] == host;
            if k < q.len() {
                assert(q[k] == host);
            }
        }
        if exists|i: int|
            0 <= i < s.len() && (#[trigger] s[i]).0 == host && !s[i].1.stale && now > s[i].1.last
                + timeout {
            let i = choose|i: int|
                0 <= i < s.len() && (#[trigger] s[i]).0 == host && !s[i].1.stale && now
                    > s[i].1.last + timeout;
            if i < t.len() {
                assert(t[i] == s[i]);
            } else {
                assert(r.last() == host);
                assert(r[r.len() - 1] == host);
            }
        }
    }
}

// ---------------------------------------------------------------------------
// Settings
// ---------------------------------------------------------------------------

/// A base address is used without white space around it and without slashes at its end, and a blank
/// one is none; so is a blank text.
pub proof fn blank_settings_are_none(s: Seq<char>)
    ensures
        resource_status::some_trimmed(Some(s)) == (if split::trimmed(s).len() > 0 {
            Some(split::trimmed(s))
        } else {
            None
        }),
        resource_status::some_trimmed(None) is None,
        resource_status::some_base(None) is None,
        resource_status::some_base(Some(s)) matches Some(b) ==> b.len() > 0 && b.last() != '/'
            && text::has_prefix(split::trimmed(s), b),
{
    slashes_are_taken_off(split::trimmed(s));
}

proof fn slashes_are_taken_off(s: Seq<char>)
    ensures
        split::without_trailing(s, '/').len() > 0 ==> split::without_trailing(s, '/').last() != '/',
        text::has_prefix(s, split::without_trailing(s, '/')),
    decreases s.len(),
{
    let b = split::without_trailing(s, '/');
    if s.len() > 0 && s.last() == '/' {
        slashes_are_taken_off(s.drop_last());
        assert(s.subrange(0, b.len() as int) =~= s.drop_last().subrange(0, b.len() as int));
    } else {
        assert(s.subrange(0, s.len() as int) =~= s);
    }
}

/// Each report goes to its own place.
pub proof fn reports_go_to_their_places(r: Report)
    ensures
        r is Heartbeat ==> registry::report_path(r) == "/api/v1/internal/fluxs/heartbeat"@,
        r is Connected ==> registry::report_path(r) == "/api/v1/internal/agent-connections/upsert"@,
        r is Disconnected ==> registry::report_path(r)
            == "/api/v1/internal/agent-connections/disconnect"@,
{
}

/// A switch is turned on by `1`, `true`, `yes` and `on`, and off by `0`, `false`, `no` and `off`, in
/// any case and with white space around them; nothing does both.
pub proof fn switches_are_turned_by_words(s: Seq<char>)
    ensures
        config::truthy(s) <==> seq!["1"@, "true"@, "yes"@, "on"@].contains(
            split::lowered(split::trimmed(s)),
        ),
        config::falsy(s) <==> seq!["0"@, "false"@, "no"@, "off"@].contains(
            split::lowered(split::trimmed(s)),
        ),
        !(config::truthy(s) && config::falsy(s)),
{
    let a = seq!["1"@, "true"@, "yes"@, "on"@];
    let b = seq!["0"@, "false"@, "no"@, "off"@];
    assert(a[0] == "1"@ && a[1] == "true"@ && a[2] == "yes"@ && a[3] == "on"@);
    assert(b[0] == "0"@ && b[1] == "false"@ && b[2] == "no"@ && b[3] == "off"@);
    reveal_strlit("1");
    reveal_strlit("true");
    reveal_strlit("yes");
    reveal_strlit("on");
    reveal_strlit("0");
    reveal_strlit("false");
    reveal_strlit("no");
    reveal_strlit("off");
    assert("1"@[0] == '1' && "true"@[0] == 't' && "yes"@[0] == 'y' && "on"@[0] == 'o' && "on"@.len()
        == 2);
    assert("0"@[0] == '0' && "false"@[0] == 'f' && "no"@[0] == 'n' && "off"@[0] == 'o' && "off"@.len()
        == 3);
}

/// The id of a key is the name of its file without the ending, which has to be `pub`.
pub proof fn keys_are_named_by_their_files(stem: Seq<char>, ext: Seq<char>)
    requires
        !ext.contains('.'),
    ensures
        stem.len() > 0 ==> config::kid_of(stem + ".pub"@) == Some(stem),
        ext != "pub"@ ==> config::kid_of(stem + "."@ + ext) is None,
        config::kid_of(ext) is None,
{
    reveal_strlit(".pub");
    reveal_strlit("pub");
    reveal_strlit(".");
    let i = stem.len() as int;
    let s = stem + ".pub"@;
    assert(s[i] == '.');
    text::rfind_char_is(s, '.', i);
    assert(s.take(i) =~= stem);
    assert(s.skip(i + 1) =~= "pub"@);
    let t = stem + "."@ + ext;
    assert(t[i] == '.');
    assert forall|j: int| i < j < t.len() implies t[j] != '.' by {
        assert(t[j] == ext[j - i - 1]);
        assert(ext.contains(ext[j - i - 1]));
    }
    text::rfind_char_is(t, '.', i);
    assert(t.skip(i + 1) =~= ext);
    assert forall|j: int| -1 < j < ext.len() implies ext[j] != '.' by {
        assert(ext.contains(ext[j]));
    }
    text::rfind_char_is(ext, '.', -1);
}

/// A token is presented behind the word `Bearer`, and nothing else is one.
pub proof fn tokens_are_presented_by_their_bearer(token: Seq<char>, header: Seq<char>)
    ensures
        gateway::bearer_of(Some("Bearer "@ + token)) == Some(token),
        gateway::bearer_of(None) is None,
        !text::has_prefix(header, "Bearer "@) ==> gateway::bearer_of(Some(header)) is None,
{
    let s = "Bearer "@ + token;
    assert(s.subrange(0, "Bearer "@.len() as int) =~= "Bearer "@);
    assert(s.skip("Bearer "@.len() as int) =~= token);
}

/// A state is published with each of its values under the name of that value.
pub proof fn states_are_published_by_their_names(p: resource_status::ResourceStatusPayload)
    ensures
        ({
            let f = resource_status::payload_fields(p);
            &&& f.len() == 6
            &&& f.contains(("resource_type"@, json::text_json(p.resource_type@)))
            &&& f.contains(("host_id"@, json::text_json(p.host_id@)))
            &&& f.contains(("container_id"@, json::text_json(p.container_id@)))
            &&& f.contains(("container_name"@, json::text_json(p.container_name@)))
            &&& f.contains(("status"@, json::text_json(p.status@)))
            &&& f.contains(("status_message"@, json::text_json(p.status_message@)))
        }),
{
    let f = resource_status::payload_fields(p);
    assert(f[0] == ("resource_type"@, json::text_json(p.resource_type@)));
    assert(f[1] == ("host_id"@, json::text_json(p.host_id@)));
    assert(f[2] == ("container_id"@, json::text_json(p.container_id@)));
    assert(f[3] == ("container_name"@, json::text_json(p.container_name@)));
    assert(f[4] == ("status"@, json::text_json(p.status@)));
    assert(f[5] == ("status_message"@, json::text_json(p.status_message@)));
}

/// The reports of the scheduler go to the places of schedulers and their agents.
pub proof fn scheduler_reports_go_to_their_places(r: Report)
    ensures
        r is Heartbeat ==> scheduler::report_path(r) == "/api/v1/internal/schedulers/heartbeat"@,
        r is Connected ==> scheduler::report_path(r) == "/api/v1/internal/agent-connections/upsert"@,
        r is Disconnected ==> scheduler::report_path(r)
            == "/api/v1/internal/agent-connections/disconnect"@,
{
}

/// A token that the scheduler checks is signed by an algorithm that fits its key.
pub proof fn the_scheduler_checks_the_algorithm(token: Seq<char>, pem: Seq<char>)
    ensures
        scheduler::checked_alg(token, pem) matches Ok((ec, alg)) ==> token::curve_of(pem) == Ok::<
            bool,
            Seq<char>,
        >(ec) && (token::header_of(token) matches Ok((a, _)) && a == alg) && token::alg_fits(ec, alg),
        (token::curve_of(pem) matches Ok(ec) && (token::header_of(token) matches Ok((a, _))
            && token::alg_fits(ec, a))) ==> scheduler::checked_alg(token, pem) is Ok,
{
}

/// A denial lasts until its token has expired, and for good where it does not say when that is.
pub proof fn denials_last_as_long_as_their_tokens(exp: u64, now: u64)
    ensures
        revocation::live(Some(exp), now) <==> exp > now,
        revocation::live(None, now),
{
}

} // verus!
