//! What the firewall commands send to the agents, and what they make of their answers.

use vstd::prelude::*;
use crate::cli::config_laws;
use crate::cli::meshnet;
use crate::cli::script_laws::{stands_between, stands_first, stands_last};
use crate::cooldctl::firewall;
use crate::cooldctl::firewall::{AllowCommand, ContainerView, RevokeCommand, RuleView};
use crate::cooldctl::jwt;
use crate::json;
use crate::json::FieldView;
use crate::number;
use crate::split;
use crate::ssh::ServerResult;
use crate::text;

verus! {

/// A rule is identified by its namespace, its source, its destination, its protocol and its port, in
/// that order.
pub proof fn rules_are_identified_in_order(
    ns: Seq<char>,
    src: Seq<char>,
    dst: Seq<char>,
    proto: Seq<char>,
    port: u16,
)
    requires
        ns.len() > 0,
        vstd::utf8::is_ascii_chars(proto),
    ensures
        firewall::rule_text(ns, src, dst, Some(proto), Some(port)) == ns + "|"@ + src + "|"@ + dst
            + "|"@ + split::lowered(proto) + "|"@ + number::decimal(port as nat),
{
}

/// A rule that is let through says where it leads from and to, each under its own name, in its
/// namespace, and with a protocol and a port only where there is a port.
pub proof fn rules_are_sent_as_asked(c: AllowCommand)
    ensures
        ({
            let f = firewall::allow_fields(c);
            &&& f.contains(("namespace"@, FieldView::Text(c.flags.mesh.namespace@)))
            &&& f.contains(("src"@, FieldView::Text(c.from@)))
            &&& f.contains(("dst"@, FieldView::Text(c.to@)))
            &&& c.port is None ==> f.len() == 4
            &&& c.port matches Some(p) ==> f.len() == 6 && f.contains(
                ("proto"@, FieldView::Text(c.proto@)),
            ) && f.contains(("port"@, FieldView::Number(p as i64)))
        }),
{
    let f = firewall::allow_fields(c);
    assert(f[1] == ("namespace"@, FieldView::Text(c.flags.mesh.namespace@)));
    assert(f[2] == ("src"@, FieldView::Text(c.from@)));
    assert(f[3] == ("dst"@, FieldView::Text(c.to@)));
    if c.port is Some {
        assert(f[4] == ("proto"@, FieldView::Text(c.proto@)));
        assert(f[5] == ("port"@, FieldView::Number(c.port->0 as i64)));
    }
}

/// A rule is taken back by its id, or by where it leads from and to; one of these without the
/// other is not enough.
pub proof fn rules_are_taken_back_by_what_names_them(c: RevokeCommand)
    ensures
        firewall::revoked_id(c) is Ok <==> c.id is Some || (c.from is Some && c.to is Some),
        c.id matches Some(id) ==> firewall::revoked_id(c) == Ok::<Seq<char>, Seq<char>>(id@),
{
}

/// A request is sent by its method, with the token, to the port of the address, at its path.
pub proof fn requests_carry_the_token(
    method: Seq<char>,
    token: Seq<char>,
    port: u16,
    ip: Seq<char>,
    path: Seq<char>,
    body: Option<Seq<char>>,
)
    ensures
        text::has_prefix(
            firewall::curl_text(method, token, port, ip, path, body),
            "curl -fsS -X "@ + method + " -H 'Authorization: Bearer "@ + token + "' "@,
        ),
        text::has_suffix(
            firewall::curl_text(method, token, port, ip, path, body),
            " 'http://"@ + ip + ":"@ + number::decimal(port as nat) + path + "'"@,
        ),
        body matches Some(b) ==> text::has_text(
            firewall::curl_text(method, token, port, ip, path, body),
            " --data '"@ + text::replaced(b, '\'', "'\"'\"'"@) + "' "@,
        ),
{
    let t = firewall::curl_text(method, token, port, ip, path, body);
    let data = match body {
        Some(b) => firewall::data_argument_text(text::replaced(b, '\'', "'\"'\"'"@)),
        None => ""@,
    };
    let head = "curl -fsS -X "@ + method + " -H 'Authorization: Bearer "@ + token;
    let tail = ip + ":"@ + number::decimal(port as nat) + path + "'"@;
    assert("' -H 'Content-Type: application/json' "@ =~= "' "@
        + "-H 'Content-Type: application/json'"@ + " "@) by {
        reveal_strlit("' -H 'Content-Type: application/json' ");
        reveal_strlit("' ");
        reveal_strlit("-H 'Content-Type: application/json'");
        reveal_strlit(" ");
    }
    let m = "' "@ + "-H 'Content-Type: application/json'"@ + " "@;
    assert(t =~= head + m + data + " 'http://"@ + tail);
    let p = head + "' "@;
    assert(t =~= p + ("-H 'Content-Type: application/json'"@ + " "@ + data + " 'http://"@ + tail));
    stands_first(p, "-H 'Content-Type: application/json'"@ + " "@ + data + " 'http://"@ + tail);
    let s = " 'http://"@ + tail;
    assert(s =~= " 'http://"@ + ip + ":"@ + number::decimal(port as nat) + path + "'"@);
    assert(t =~= (head + m + data) + s);
    stands_last(head + m + data, s);
    if body is Some {
        let quoted = text::replaced(body->0, '\'', "'\"'\"'"@);
        assert(" 'http://"@ =~= " "@ + "'http://"@) by {
            reveal_strlit(" 'http://");
            reveal_strlit(" ");
            reveal_strlit("'http://");
        }
        assert(" --data '"@ =~= " "@ + "--data '"@) by {
            reveal_strlit(" --data '");
            reveal_strlit(" ");
            reveal_strlit("--data '");
        }
        assert("' "@ =~= "'"@ + " "@) by {
            reveal_strlit("' ");
            reveal_strlit("'");
            reveal_strlit(" ");
        }
        let x = head + "' "@ + "-H 'Content-Type: application/json'"@;
        let d = " --data '"@ + quoted + "' "@;
        let y = "'http://"@ + tail;
        assert(t =~= x + d + y);
        stands_between(x, d, y);
    }
}

/// The containers of a namespace are those on its network; with all namespaces they are not
/// narrowed down.
pub proof fn containers_are_listed_by_their_network(namespace: Seq<char>)
    ensures
        text::has_suffix(
            firewall::containers_text(namespace, false),
            "--filter network="@ + meshnet::podman_network_for_text(namespace),
        ),
        text::has_suffix(
            firewall::containers_text(namespace, true),
            "'{{.ID}}|{{.Names}}|{{.Networks}}|{{.Status}}' "@,
        ),
{
    let line = "podman ps --format '{{.ID}}|{{.Names}}|{{.Networks}}|{{.Status}}' "@;
    let net = "--filter network="@ + meshnet::podman_network_for_text(namespace);
    assert("--filter network=coolify-"@ =~= "--filter network="@ + "coolify-"@) by {
        reveal_strlit("--filter network=coolify-");
        reveal_strlit("--filter network=");
        reveal_strlit("coolify-");
    }
    assert(firewall::containers_text(namespace, false) =~= line + net);
    stands_last(line, net);
    let fields = "'{{.ID}}|{{.Names}}|{{.Networks}}|{{.Status}}' "@;
    assert(line =~= "podman ps --format "@ + fields) by {
        reveal_strlit("podman ps --format '{{.ID}}|{{.Names}}|{{.Networks}}|{{.Status}}' ");
        reveal_strlit("podman ps --format ");
        reveal_strlit("'{{.ID}}|{{.Names}}|{{.Networks}}|{{.Status}}' ");
    }
    reveal_strlit("");
    assert(firewall::containers_text(namespace, true) =~= "podman ps --format "@ + fields);
    stands_last("podman ps --format "@, fields);
}

/// The namespace of a network is the one that the network was named for.
pub proof fn networks_tell_their_namespace(namespace: Seq<char>)
    ensures
        firewall::network_namespace(meshnet::podman_network_for_text(namespace)) == Some(namespace),
{
    let n = meshnet::podman_network_for_text(namespace);
    let rest = namespace + "-mesh"@;
    assert(n =~= "coolify-"@ + rest);
    stands_first("coolify-"@, rest);
    assert(n.skip("coolify-"@.len() as int) =~= rest);
    stands_last(namespace, "-mesh"@);
    assert(rest.take(rest.len() - "-mesh"@.len()) =~= namespace);
}

/// A container that is listed with its id, its name, its networks and its state is known by them,
/// on the host that listed it and in the namespace that was asked for.
pub proof fn containers_are_known_as_listed(
    id: Seq<char>,
    name: Seq<char>,
    networks: Seq<char>,
    state: Seq<char>,
    host: Seq<char>,
    namespace: Seq<char>,
)
    requires
        !id.contains('|'),
        !name.contains('|'),
        !networks.contains('|'),
        !state.contains('|'),
    ensures
        firewall::container_of(
            id + seq!['|'] + (name + seq!['|'] + (networks + seq!['|'] + state)),
            host,
            namespace,
            false,
        ) == Some(
            (ContainerView { server: host, namespace, id, name, ip: Seq::empty(), state }),
        ),
{
    let r2 = networks + seq!['|'] + state;
    let r1 = name + seq!['|'] + r2;
    config_laws::pieces_last(state, '|');
    config_laws::pieces_head(networks, '|', state);
    config_laws::pieces_head(name, '|', r2);
    config_laws::pieces_head(id, '|', r1);
    assert(split::pieces(r2, '|') =~= seq![networks, state]);
    assert(split::pieces(r1, '|') =~= seq![name, networks, state]);
    assert(split::pieces(id + seq!['|'] + r1, '|') =~= seq![id, name, networks, state]);
}

/// A rule without a namespace is in the one that was asked for; nothing else of a rule changes.
pub proof fn rules_are_placed(rule: RuleView, namespace: Seq<char>)
    ensures
        ({
            let p = firewall::placed(rule, namespace);
            &&& p.id == rule.id && p.src == rule.src && p.dst == rule.dst && p.proto == rule.proto
                && p.port == rule.port
            &&& rule.namespace is Some ==> p.namespace == rule.namespace
            &&& rule.namespace is None ==> p.namespace == Some(namespace)
        }),
{
}

/// What the hosts that answered listed is listed, host by host; each host that failed is warned of.
pub proof fn answers_are_gathered<T>(rs: Seq<ServerResult<Vec<T>>>, i: int)
    requires
        0 <= i < rs.len(),
    ensures
        rs[i].result matches Some(v) ==> forall|j: int|
            0 <= j < v@.len() ==> firewall::gathered(rs).contains(#[trigger] v@[j]),
        rs[i].result is None ==> exists|k: int|
            0 <= k < firewall::warnings(rs).len() && text::has_prefix(
                #[trigger] firewall::warnings(rs)[k],
                "warning ["@ + rs[i].host@ + "]: "@,
            ),
    decreases rs.len(),
{
    let p = rs.drop_last();
    let l = rs.last();
    let g = firewall::gathered(p);
    let w = firewall::warnings(p);
    if i < p.len() {
        assert(p[i] == rs[i]);
        answers_are_gathered(p, i);
        if rs[i].result is Some {
            let v = rs[i].result->0;
            assert forall|j: int| 0 <= j < v@.len() implies firewall::gathered(rs).contains(
                #[trigger] v@[j],
            ) by {
                let k = choose|k: int| 0 <= k < g.len() && g[k] == v@[j];
                assert(firewall::gathered(rs)[k] == v@[j]);
            }
        } else {
            let k = choose|k: int|
                0 <= k < w.len() && text::has_prefix(
                    #[trigger] w[k],
                    "warning ["@ + rs[i].host@ + "]: "@,
                );
            assert(firewall::warnings(rs)[k] == w[k]);
        }
    } else if l.result is Some {
        let v = l.result->0;
        assert forall|j: int| 0 <= j < v@.len() implies firewall::gathered(rs).contains(
            #[trigger] v@[j],
        ) by {
            assert(firewall::gathered(rs)[g.len() + j] == v@[j]);
        }
    } else {
        let e = match l.error {
            Some(e) => e@,
            None => ""@,
        };
        let m = "warning ["@ + l.host@ + "]: "@;
        let t = firewall::host_warning_text(l.host@, e);
        assert(t =~= m + e);
        stands_first(m, e);
        assert(firewall::warnings(rs)[w.len() as int] == t);
    }
}

/// A host token is made for its host and for agents alone, lasts a year from now, and holds the
/// capabilities that it is given, or those of an agent where it is given none.
pub proof fn host_tokens_name_their_host(
    c: jwt::HostClaims,
    host: Seq<char>,
    caps: Seq<Seq<char>>,
    now: u64,
)
    requires
        jwt::is_token_of(c, host, caps, now),
    ensures
        c.sub@ == host,
        c.aud@ == "coold"@,
        c.iat == now,
        c.exp - c.iat == 365 * 24 * 60 * 60,
        caps.len() > 0 ==> text::views(c.caps@) == caps,
        caps.len() == 0 ==> text::views(c.caps@) == seq!["coold"@],
{
}

/// The claims of a token hold its host, its audience, its capabilities and its two times, each under
/// its own name.
pub proof fn claims_are_named(
    sub: Seq<char>,
    aud: Seq<char>,
    caps: Seq<Seq<char>>,
    iat: u64,
    exp: u64,
)
    ensures
        exists|m: Seq<(Seq<char>, Seq<char>)>|
            #![trigger json::record_text(m)]
            jwt::claims_text(sub, aud, caps, iat, exp) == json::record_text(m) && m.len() == 5
                && m.contains(("sub"@, json::text_json(sub))) && m.contains(
                ("aud"@, json::text_json(aud)),
            ) && m.contains(("caps"@, json::texts_json(caps))) && m.contains(
                ("iat"@, number::decimal(iat as nat)),
            ) && m.contains(("exp"@, number::decimal(exp as nat))),
{
    let m = seq![
        ("sub"@, json::text_json(sub)),
        ("aud"@, json::text_json(aud)),
        ("caps"@, json::texts_json(caps)),
        ("iat"@, number::decimal(iat as nat)),
        ("exp"@, number::decimal(exp as nat)),
    ];
    assert(m[0] == ("sub"@, json::text_json(sub)));
    assert(m[1] == ("aud"@, json::text_json(aud)));
    assert(m[2] == ("caps"@, json::texts_json(caps)));
    assert(m[3] == ("iat"@, number::decimal(iat as nat)));
    assert(m[4] == ("exp"@, number::decimal(exp as nat)));
    assert(jwt::claims_text(sub, aud, caps, iat, exp) == json::record_text(m));
}

proof fn namespace_is_first(networks: Seq<Seq<char>>, i: int)
    requires
        0 <= i <= networks.len(),
    ensures
        match firewall::first_namespace(networks, i) {
            Some(ns) => exists|k: int|
                i <= k < networks.len() && firewall::network_namespace(#[trigger] networks[k])
                    == Some(ns) && forall|j: int|
                    i <= j < k ==> firewall::network_namespace(#[trigger] networks[j]) is None,
            None => forall|j: int|
                i <= j < networks.len() ==> firewall::network_namespace(#[trigger] networks[j])
                    is None,
        },
    decreases networks.len() - i,
{
    if i < networks.len() {
        if firewall::network_namespace(networks[i]) is Some {
            let ns = firewall::network_namespace(networks[i])->0;
            assert(firewall::network_namespace(networks[i]) == Some(ns));
        } else {
            namespace_is_first(networks, i + 1);
            match firewall::first_namespace(networks, i + 1) {
                Some(ns) => {
                    let k = choose|k: int|
                        i + 1 <= k < networks.len() && firewall::network_namespace(
                            #[trigger] networks[k],
                        ) == Some(ns) && forall|j: int|
                            i + 1 <= j < k ==> firewall::network_namespace(#[trigger] networks[j])
                                is None;
                    assert forall|j: int| i <= j < k implies firewall::network_namespace(
                        #[trigger] networks[j],
                    ) is None by {}
                    assert(firewall::network_namespace(networks[k]) == Some(ns));
                },
                None => {},
            }
        }
    }
}

/// Where all namespaces are listed, a container is in the namespace of the first of its networks
/// that is the network of one.
pub proof fn containers_are_placed_by_their_networks(networks: Seq<Seq<char>>)
    ensures
        match firewall::first_namespace(networks, 0) {
            Some(ns) => exists|k: int|
                0 <= k < networks.len() && firewall::network_namespace(#[trigger] networks[k])
                    == Some(ns) && forall|j: int|
                    0 <= j < k ==> firewall::network_namespace(#[trigger] networks[j]) is None,
            None => forall|j: int|
                0 <= j < networks.len() ==> firewall::network_namespace(#[trigger] networks[j])
                    is None,
        },
{
    namespace_is_first(networks, 0);
}

/// Rules are listed and taken back where they are let through.
pub proof fn rules_stand_in_one_place(namespace: Seq<char>, id: Seq<char>)
    ensures
        firewall::ALLOW_PATH@ == "/api/v1/firewall/allow"@,
        firewall::namespaced_path_text(namespace) == "/api/v1/firewall/allow?namespace="@
            + namespace,
        firewall::rule_path_text(id) == "/api/v1/firewall/allow/"@ + id,
        firewall::network_filter_text(namespace) == "--filter network=coolify-"@ + namespace
            + "-mesh"@,
{
}

} // verus!
