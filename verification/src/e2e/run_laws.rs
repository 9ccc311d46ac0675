//! What a run against real hosts asks for, and what it makes of the answers.

use vstd::prelude::*;
use crate::cli::config_laws;
use crate::cli::script_laws::{stands_between, stands_first, stands_last};
use crate::e2e;
use crate::e2e::hetzner;
use crate::e2e::hetzner::{KeySearch, ListedKey};
use crate::e2e::install;
use crate::json::FieldView;
use crate::number;
use crate::split;
use crate::text;

verus! {

// ---------------------------------------------------------------------------
// Settings
// ---------------------------------------------------------------------------

/// A line that is blank or a comment sets nothing, nor does one without a sign of equality.
pub proof fn comments_set_nothing(line: Seq<char>)
    ensures
        split::trimmed(line).len() == 0 ==> e2e::setting_of(line) is None,
        split::trimmed(line).len() > 0 && split::trimmed(line)[0] == '#' ==> e2e::setting_of(line)
            is None,
        !split::trimmed(line).contains('=') ==> e2e::setting_of(line) is None,
{
    let t = split::trimmed(line);
    text::find_char_props(t, '=');
    if text::find_char(t, '=') < t.len() {
        assert(t.contains(t[text::find_char(t, '=')]));
    }
}

/// A line that sets something sets the name before its first sign of equality to what is behind it,
/// both without the white space around them.
pub proof fn lines_set_names_to_values(line: Seq<char>, name: Seq<char>, value: Seq<char>)
    requires
        split::trimmed(line) == name + "="@ + value,
        name.len() > 0,
        name[0] != '#',
        !name.contains('='),
    ensures
        e2e::setting_of(line) matches Some((k, v)) && k == split::trimmed(name) && v
            == split::stripped(split::stripped(split::trimmed(value), '"'), '\''),
{
    reveal_strlit("=");
    let s = name + "="@ + value;
    assert forall|j: int| 0 <= j < name.len() implies s[j] != '=' by {
        assert(s[j] == name[j]);
    }
    assert(s[0] == name[0]);
    assert(s[name.len() as int] == '=');
    text::find_char_is(s, '=', name.len() as int);
    assert(s.take(name.len() as int) =~= name);
    assert(s.skip(name.len() as int + 1) =~= value);
}

// ---------------------------------------------------------------------------
// Servers
// ---------------------------------------------------------------------------

/// A request carries the token, the method and the body, and goes to its path.
pub proof fn requests_are_sent_as_asked(
    token: Seq<char>,
    method: Seq<char>,
    path: Seq<char>,
    body: Option<Seq<char>>,
)
    ensures
        ({
            let a = hetzner::curl_args(token, method, path, body);
            &&& a[1] == "-X"@ && a[2] == method
            &&& a[3] == "-H"@ && a[4] == "Authorization: Bearer "@ + token
            &&& a[a.len() - 1] == "https://api.hetzner.cloud/v1"@ + path
            &&& body matches Some(b) ==> a.len() == 12 && a[9] == "-d"@ && a[10] == b
            &&& body is None ==> a.len() == 10
        }),
{
}

/// A reply counts if and only if its status is one of success; it is empty, or a document, or told
/// to be none.
pub proof fn replies_count_only_on_success(
    method: Seq<char>,
    path: Seq<char>,
    stdout: Seq<char>,
    error: Option<Seq<char>>,
)
    ensures
        ({
            let (body, status) = hetzner::reply_parts(stdout);
            let r = hetzner::reply_document(method, path, stdout, error);
            &&& r is Ok <==> 200 <= status && status <= 299 && (body.len() == 0 || error is None)
            &&& r matches Ok(Some(b)) ==> b == body && b.len() > 0
            &&& r matches Ok(None) ==> body.len() == 0
        }),
{
}

/// A server is made with its name, its type, its image, its place and its key, each under its own
/// name, and is labelled for its project.
pub proof fn servers_are_made_as_asked(
    name: Seq<char>,
    key: u64,
    image: Seq<char>,
    server_type: Seq<char>,
    location: Seq<char>,
    project: Seq<char>,
)
    ensures
        ({
            let f = hetzner::server_fields(name, key, image, server_type, location, project);
            &&& f.contains(("name"@, FieldView::Text(name)))
            &&& f.contains(("server_type"@, FieldView::Text(server_type)))
            &&& f.contains(("image"@, FieldView::Text(image)))
            &&& f.contains(("location"@, FieldView::Text(location)))
            &&& f.contains(("ssh_keys"@, FieldView::Ids(seq![key])))
            &&& f.contains(("start_after_create"@, FieldView::Flag(true)))
            &&& f.contains(
                (
                    "labels"@,
                    FieldView::Labels(
                        seq![("coolify-e2e"@, "1"@), ("coolify-e2e-project"@, project)],
                    ),
                ),
            )
            &&& f.len() == 7
        }),
{
    let f = hetzner::server_fields(name, key, image, server_type, location, project);
    assert(f[0] == ("name"@, FieldView::Text(name)));
    assert(f[1] == ("server_type"@, FieldView::Text(server_type)));
    assert(f[2] == ("image"@, FieldView::Text(image)));
    assert(f[3] == ("location"@, FieldView::Text(location)));
    assert(f[4] == ("ssh_keys"@, FieldView::Ids(seq![key])));
    assert(f[5].0 == "labels"@);
    assert(f[5] == (
        "labels"@,
        FieldView::Labels(seq![("coolify-e2e"@, "1"@), ("coolify-e2e-project"@, project)]),
    ));
    assert(f[6] == ("start_after_create"@, FieldView::Flag(true)));
}

/// A key is uploaded with its name and without the white space around it, labelled for its project.
pub proof fn keys_are_uploaded_as_asked(name: Seq<char>, pubkey: Seq<char>, project: Seq<char>)
    ensures
        ({
            let f = hetzner::key_fields(name, pubkey, project);
            &&& f.contains(("name"@, FieldView::Text(name)))
            &&& f.contains(("public_key"@, FieldView::Text(split::trimmed(pubkey))))
            &&& f.len() == 3 && f[2].0 == "labels"@
        }),
{
    let f = hetzner::key_fields(name, pubkey, project);
    assert(f[0] == ("name"@, FieldView::Text(name)));
    assert(f[1] == ("public_key"@, FieldView::Text(split::trimmed(pubkey))));
}

/// What is deleted is what the id names.
pub proof fn ids_name_what_is_deleted(id: u64, page: u32)
    ensures
        hetzner::delete_key_text(id) == "/ssh_keys/"@ + number::decimal(id as nat),
        hetzner::delete_server_text(id) == "/servers/"@ + number::decimal(id as nat),
        hetzner::key_page_text(page) == "/ssh_keys?per_page=50&page="@ + number::decimal(
            page as nat,
        ),
{
}

proof fn match_is_a_match(keys: Seq<ListedKey>, target: Seq<char>, i: int)
    requires
        0 <= i <= keys.len(),
    ensures
        match hetzner::first_match(keys, target, i) {
            Some(k) => i <= k < keys.len() && keys[k].public_key is Some && hetzner::normalized(
                keys[k].public_key->Some_0@,
            ) == target,
            None => forall|j: int|
                i <= j < keys.len() ==> ((#[trigger] keys[j]).public_key is Some
                    ==> hetzner::normalized(keys[j].public_key->Some_0@) != target),
        },
    decreases keys.len() - i,
{
    if i < keys.len() {
        match_is_a_match(keys, target, i + 1);
    }
}

/// A key is found where a listed key has the same type and body, whatever their comments; it is
/// looked for page by page up to the last one.
pub proof fn keys_are_found_by_what_they_are(
    keys: Seq<ListedKey>,
    pubkey: Seq<char>,
    page: u32,
    last: u32,
)
    requires
        page < u32::MAX,
    ensures
        match hetzner::search_of(keys, pubkey, page, last) {
            KeySearch::Done(Some(id)) => exists|k: int|
                0 <= k < keys.len() && (#[trigger] keys[k]).id == Some(id) && keys[k].public_key
                    is Some && hetzner::normalized(keys[k].public_key->Some_0@)
                    == hetzner::normalized(pubkey),
            KeySearch::Done(None) => true,
            KeySearch::Page(p) => p == page + 1 && page < last && forall|k: int|
                0 <= k < keys.len() ==> ((#[trigger] keys[k]).public_key is Some
                    ==> hetzner::normalized(keys[k].public_key->Some_0@) != hetzner::normalized(
                    pubkey,
                )),
        },
{
    match_is_a_match(keys, hetzner::normalized(pubkey), 0);
    if let Some(k) = hetzner::first_match(keys, hetzner::normalized(pubkey), 0) {
        assert(keys[k].id == keys[k].id);
    }
}

// ---------------------------------------------------------------------------
// Hosts
// ---------------------------------------------------------------------------

/// The peers of a host are heard of if and only if there is one and each of them was heard of.
pub proof fn peers_are_heard_of(lines: Seq<Seq<char>>)
    ensures
        install::all_heard(lines) <==> (exists|i: int|
            0 <= i < lines.len() && split::words_of(#[trigger] lines[i]).len() >= 2) && (forall|i: int|
            0 <= i < lines.len() && split::words_of(#[trigger] lines[i]).len() >= 2
                ==> split::words_of(lines[i])[1] != "0"@),
{
    if install::all_heard(lines) {
        let i = choose|i: int| 0 <= i < lines.len() && install::tells_of_peer(#[trigger] lines[i]);
        assert(split::words_of(lines[i]).len() >= 2);
        assert forall|i: int|
            0 <= i < lines.len() && split::words_of(#[trigger] lines[i]).len() >= 2 implies
            split::words_of(lines[i])[1] != "0"@ by {
            assert(!install::never_heard(lines[i]));
        }
    }
    if (exists|i: int| 0 <= i < lines.len() && split::words_of(#[trigger] lines[i]).len() >= 2) && (
    forall|i: int|
        0 <= i < lines.len() && split::words_of(#[trigger] lines[i]).len() >= 2 ==> split::words_of(
            lines[i],
        )[1] != "0"@) {
        let i = choose|i: int| 0 <= i < lines.len() && split::words_of(#[trigger] lines[i]).len() >= 2;
        assert(install::tells_of_peer(lines[i]));
        assert forall|j: int| 0 <= j < lines.len() implies !install::never_heard(
            #[trigger] lines[j],
        ) by {
            if install::tells_of_peer(lines[j]) {
                assert(split::words_of(lines[j]).len() >= 2);
            }
        }
    }
}

/// A container runs under its name, on its network and from its image, and is pinged from where and
/// to where it is asked.
pub proof fn containers_run_as_asked(name: Seq<char>, net: Seq<char>, image: Seq<char>, ip: Seq<char>)
    ensures
        text::has_prefix(
            install::run_container_command_text(name, net, image),
            "podman run -d --name "@ + name + " --network "@ + net + " "@ + image,
        ),
        text::has_prefix(
            install::podman_ping_command_text(name, ip),
            "podman exec "@ + name + " ping -c1 -W2 "@ + ip,
        ),
        text::has_prefix(install::ssh_ping_command_text(ip), "ping -c1 -W2 "@ + ip),
        text::has_prefix(install::rm_container_text(name), "podman rm -f "@ + name),
        text::has_prefix(install::unit_active_command_text(name), "systemctl is-active "@ + name),
        install::podman_pull_text(image) == "podman pull "@ + image,
{
    stands_first(
        "podman run -d --name "@ + name + " --network "@ + net + " "@ + image,
        " sleep infinity >/dev/null"@,
    );
    stands_first(
        "podman exec "@ + name + " ping -c1 -W2 "@ + ip,
        " >/dev/null 2>&1 && echo Y || echo N"@,
    );
    stands_first("ping -c1 -W2 "@ + ip, " >/dev/null 2>&1 && echo Y || echo N"@);
    stands_first("podman rm -f "@ + name, " 2>/dev/null || true"@);
    stands_first("systemctl is-active "@ + name, " 2>&1 || true"@);
}

/// A rule is sent to the agent of its node with the token, and taken back there by its id.
pub proof fn rules_go_to_the_agent(
    ip: Seq<char>,
    token: Seq<char>,
    body: Seq<char>,
    id: Seq<char>,
)
    ensures
        text::has_prefix(
            install::coold_allow_command_text(ip, token, body),
            "curl -fsS -XPOST -H 'Authorization: Bearer "@ + token,
        ),
        text::has_suffix(
            install::coold_allow_command_text(ip, token, body),
            ip + ":8443/api/v1/firewall/allow -d '"@ + body + "'"@,
        ),
        text::has_prefix(
            install::coold_revoke_text(ip, token, id),
            "curl -fsS -XDELETE -H 'Authorization: Bearer "@ + token,
        ),
        text::has_suffix(
            install::coold_revoke_text(ip, token, id),
            ip + ":8443/api/v1/firewall/allow/"@ + id,
        ),
{
    let a = "curl -fsS -XPOST -H 'Authorization: Bearer "@ + token;
    let b = "' -H 'Content-Type: application/json' http://"@;
    let c = ip + ":8443/api/v1/firewall/allow -d '"@ + body + "'"@;
    let t = install::coold_allow_command_text(ip, token, body);
    assert(t =~= a + (b + c));
    stands_first(a, b + c);
    assert(t =~= (a + b) + c);
    stands_last(a + b, c);
    let d = "curl -fsS -XDELETE -H 'Authorization: Bearer "@ + token;
    let e = "' http://"@;
    let f = ip + ":8443/api/v1/firewall/allow/"@ + id;
    let u = install::coold_revoke_text(ip, token, id);
    assert(u =~= d + (e + f));
    stands_first(d, e + f);
    assert(u =~= (d + e) + f);
    stands_last(d + e, f);
}

} // verus!
