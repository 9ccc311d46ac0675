//! Machines for the tests: the requests that make and remove them.

use vstd::prelude::*;
use vstd::string::StringExecFns;
use crate::e2e::install;
use crate::json;
use crate::json::{Field, FieldView};
use crate::number;
use crate::split;
use crate::text;

verus! {

/// Where machines come from, and for which project.
#[derive(Clone, Debug)]
pub struct HetznerClient {
    pub token: String,
    pub project: String,
}

/// A machine.
#[derive(Clone, Debug)]
pub struct Server {
    pub id: u64,
    pub name: String,
    pub ipv4: String,
}

/// The header that carries a token.
pub open spec fn bearer_header_text(token: Seq<char>) -> Seq<char> {
    "Authorization: Bearer "@
        + token
}

/// The header that carries a token.
fn bearer_header(token: &str) -> (r: String)
    ensures
        r@ == bearer_header_text(token@),
{
    let mut out: String = "Authorization: Bearer ".to_owned();
    out.append(token);
    out
}

/// The address of a request.
pub open spec fn api_url_text(path: Seq<char>) -> Seq<char> {
    "https://api.hetzner.cloud/v1"@
        + path
}

/// The address of a request.
fn api_url(path: &str) -> (r: String)
    ensures
        r@ == api_url_text(path@),
{
    let mut out: String = "https://api.hetzner.cloud/v1".to_owned();
    out.append(path);
    out
}

/// What is said of a request that failed.
pub open spec fn bad_status_text(method: Seq<char>, path: Seq<char>, status: u16, body: Seq<char>) -> Seq<char> {
    "hetzner "@
        + method
        + " "@
        + path
        + " status="@
        + number::decimal(status as nat)
        + " body="@
        + body
}

/// What is said of a request that failed.
fn bad_status(method: &str, path: &str, status: u16, body: &str) -> (r: String)
    ensures
        r@ == bad_status_text(method@, path@, status, body@),
{
    let mut out: String = "hetzner ".to_owned();
    out.append(method);
    out.append(" ");
    out.append(path);
    out.append(" status=");
    out.append(number::decimal_of(status as u64).as_str());
    out.append(" body=");
    out.append(body);
    out
}

/// What is said of a reply that is no document.
pub open spec fn bad_json_text(method: Seq<char>, path: Seq<char>, e: Seq<char>, body: Seq<char>) -> Seq<char> {
    "parse json "@
        + method
        + " "@
        + path
        + ": "@
        + e
        + ": "@
        + body
}

/// What is said of a reply that is no document.
fn bad_json(method: &str, path: &str, e: &str, body: &str) -> (r: String)
    ensures
        r@ == bad_json_text(method@, path@, e@, body@),
{
    let mut out: String = "parse json ".to_owned();
    out.append(method);
    out.append(" ");
    out.append(path);
    out.append(": ");
    out.append(e);
    out.append(": ");
    out.append(body);
    out
}

/// The arguments of `curl` for a request.
pub open spec fn curl_args(
    token: Seq<char>,
    method: Seq<char>,
    path: Seq<char>,
    body: Option<Seq<char>>,
) -> Seq<Seq<char>> {
    seq![
        "-sS"@,
        "-X"@,
        method,
        "-H"@,
        bearer_header_text(token),
        "-H"@,
        "Content-Type: application/json"@,
        "-w"@,
        "\nHTTP_STATUS:%{http_code}"@,
    ] + (match body {
        Some(b) => seq!["-d"@, b],
        None => Seq::empty(),
    }) + seq![api_url_text(path)]
}

/// The body and the status of a reply. A reply without a status has none, which is zero.
pub open spec fn reply_parts(stdout: Seq<char>) -> (Seq<char>, u16) {
    match text::rsplit_at_text(stdout, "\nHTTP_STATUS:"@) {
        Some((body, status)) => (
            split::trimmed(body),
            match number::parsed(split::trimmed(status), 65535) {
                Some(s) => s as u16,
                None => 0,
            },
        ),
        None => (split::trimmed(stdout), 0),
    }
}

/// The document in a reply, or what is wrong with it. A reply without a body holds none.
/// `error` tells why the body is no document.
pub open spec fn reply_document(
    method: Seq<char>,
    path: Seq<char>,
    stdout: Seq<char>,
    error: Option<Seq<char>>,
) -> Result<Option<Seq<char>>, Seq<char>> {
    let (body, status) = reply_parts(stdout);
    if !(200 <= status < 300) {
        Err(bad_status_text(method, path, status, body))
    } else if body.len() == 0 {
        Ok(None)
    } else {
        match error {
            None => Ok(Some(body)),
            Some(e) => Err(bad_json_text(method, path, e, body)),
        }
    }
}

/// The labels of everything that the tests make.
pub open spec fn labels(project: Seq<char>) -> FieldView {
    FieldView::Labels(seq![("coolify-e2e"@, "1"@), ("coolify-e2e-project"@, project)])
}

fn labels_field(project: &str) -> (r: (String, Field))
    ensures
        r.0@ == "labels"@,
        r.1@ == labels(project@),
{
    let mut v: Vec<(String, String)> = Vec::new();
    v.push(("coolify-e2e".to_owned(), "1".to_owned()));
    v.push(("coolify-e2e-project".to_owned(), project.to_owned()));
    proof {
        assert(json::label_views(v@) =~= seq![
            ("coolify-e2e"@, "1"@),
            ("coolify-e2e-project"@, project@),
        ]);
    }
    ("labels".to_owned(), Field::Labels(v))
}

/// What a request for a key says.
pub open spec fn key_fields(name: Seq<char>, pubkey: Seq<char>, project: Seq<char>) -> Seq<
    (Seq<char>, FieldView),
> {
    seq![
        ("name"@, FieldView::Text(name)),
        ("public_key"@, FieldView::Text(split::trimmed(pubkey))),
        ("labels"@, labels(project)),
    ]
}

/// What a request for a machine says.
pub open spec fn server_fields(
    name: Seq<char>,
    key: u64,
    image: Seq<char>,
    server_type: Seq<char>,
    location: Seq<char>,
    project: Seq<char>,
) -> Seq<(Seq<char>, FieldView)> {
    seq![
        ("name"@, FieldView::Text(name)),
        ("server_type"@, FieldView::Text(server_type)),
        ("image"@, FieldView::Text(image)),
        ("location"@, FieldView::Text(location)),
        ("ssh_keys"@, FieldView::Ids(seq![key])),
        ("labels"@, labels(project)),
        ("start_after_create"@, FieldView::Flag(true)),
    ]
}

/// What is said of a reply without a key.
pub open spec fn no_key_id_text(reply: Seq<char>) -> Seq<char> {
    "no ssh_key.id in response: "@
        + reply
}

/// What is said of a reply without a key.
fn no_key_id(reply: &str) -> (r: String)
    ensures
        r@ == no_key_id_text(reply@),
{
    let mut out: String = "no ssh_key.id in response: ".to_owned();
    out.append(reply);
    out
}

/// What is said of a reply without a machine.
pub open spec fn no_server_id_text(reply: Seq<char>) -> Seq<char> {
    "no server.id in response: "@
        + reply
}

/// What is said of a reply without a machine.
fn no_server_id(reply: &str) -> (r: String)
    ensures
        r@ == no_server_id_text(reply@),
{
    let mut out: String = "no server.id in response: ".to_owned();
    out.append(reply);
    out
}

/// What is said of a reply without an address.
pub open spec fn no_server_ip_text(reply: Seq<char>) -> Seq<char> {
    "no public_net.ipv4.ip in response: "@
        + reply
}

/// What is said of a reply without an address.
fn no_server_ip(reply: &str) -> (r: String)
    ensures
        r@ == no_server_ip_text(reply@),
{
    let mut out: String = "no public_net.ipv4.ip in response: ".to_owned();
    out.append(reply);
    out
}

/// Where a page of the keys is listed.
pub open spec fn key_page_text(page: u32) -> Seq<char> {
    "/ssh_keys?per_page=50&page="@
        + number::decimal(page as nat)
}

/// Where a page of the keys is listed.
pub fn key_page(page: u32) -> (r: String)
    ensures
        r@ == key_page_text(page),
{
    let mut out: String = "/ssh_keys?per_page=50&page=".to_owned();
    out.append(number::decimal_of(page as u64).as_str());
    out
}

/// Where a key stands.
pub open spec fn delete_key_text(id: u64) -> Seq<char> {
    "/ssh_keys/"@
        + number::decimal(id as nat)
}

/// Where a key stands.
pub fn delete_key(id: u64) -> (r: String)
    ensures
        r@ == delete_key_text(id),
{
    let mut out: String = "/ssh_keys/".to_owned();
    out.append(number::decimal_of(id).as_str());
    out
}

/// Where a machine stands.
pub open spec fn delete_server_text(id: u64) -> Seq<char> {
    "/servers/"@
        + number::decimal(id as nat)
}

/// Where a machine stands.
pub fn delete_server(id: u64) -> (r: String)
    ensures
        r@ == delete_server_text(id),
{
    let mut out: String = "/servers/".to_owned();
    out.append(number::decimal_of(id).as_str());
    out
}

/// Where what the tests made is listed.
pub open spec fn list_labeled_text(resource: Seq<char>) -> Seq<char> {
    "/"@
        + resource
        + "?label_selector=coolify-e2e%3D1"@
}

/// Where what the tests made is listed.
pub fn list_labeled(resource: &str) -> (r: String)
    ensures
        r@ == list_labeled_text(resource@),
{
    let mut out: String = "/".to_owned();
    out.append(resource);
    out.append("?label_selector=coolify-e2e%3D1");
    out
}

impl HetznerClient {
    /// Where machines come from: both settings have to be there.
    pub fn from_env(token: Option<String>, project: Option<String>) -> (r: Result<Self, String>)
        ensures
            match (token, project, r) {
                (Some(t), Some(p), Ok(c)) => c.token == t && c.project == p,
                (None, _, Err(e)) => e@ == install::missing_env_text("HETZNER_TOKEN"@),
                (Some(_), None, Err(e)) => e@ == install::missing_env_text("HETZNER_PROJECT"@),
                _ => false,
            },
    {
        match (token, project) {
            (Some(token), Some(project)) => Ok(HetznerClient { token, project }),
            (None, _) => Err(install::missing_env("HETZNER_TOKEN")),
            (Some(_), None) => Err(install::missing_env("HETZNER_PROJECT")),
        }
    }

    /// The arguments of `curl` for a request.
    pub fn curl(&self, method: &str, path: &str, body: Option<&str>) -> (r: Vec<String>)
        ensures
            text::views(r@) == curl_args(
                self.token@,
                method@,
                path@,
                install::body_view(body),
            ),
    {
        broadcast use text::views_push;

        let mut args: Vec<String> = Vec::new();
        proof {
            assert(text::views(args@) =~= Seq::empty());
        }
        args.push("-sS".to_owned());
        args.push("-X".to_owned());
        args.push(method.to_owned());
        args.push("-H".to_owned());
        args.push(bearer_header(self.token.as_str()));
        args.push("-H".to_owned());
        args.push("Content-Type: application/json".to_owned());
        args.push("-w".to_owned());
        args.push("\nHTTP_STATUS:%{http_code}".to_owned());
        if let Some(b) = body {
            args.push("-d".to_owned());
            args.push(b.to_owned());
        }
        args.push(api_url(path));
        proof {
            assert(text::views(args@) =~= curl_args(
                self.token@,
                method@,
                path@,
                install::body_view(body),
            ));
        }
        args
    }

    /// The body of the request that uploads a key.
    pub fn upload_key_body(&self, pubkey: &str, name: &str) -> (r: String)
        ensures
            r@ == json::object_text(key_fields(name@, pubkey@, self.project@)),
    {
        broadcast use json::field_views_push;

        let mut fields: Vec<(String, Field)> = Vec::new();
        proof {
            assert(json::field_views(fields@) =~= Seq::empty());
        }
        fields.push(json::text_field("name", name));
        fields.push(json::text_field("public_key", split::trim(pubkey).as_str()));
        fields.push(labels_field(self.project.as_str()));
        proof {
            assert(json::field_views(fields@) =~= key_fields(name@, pubkey@, self.project@));
        }
        json::render_object(&fields)
    }

    /// The body of the request that makes a machine.
    pub fn create_server_body(
        &self,
        name: &str,
        ssh_key_id: u64,
        image: &str,
        server_type: &str,
        location: &str,
    ) -> (r: String)
        ensures
            r@ == json::object_text(
                server_fields(
                    name@,
                    ssh_key_id,
                    image@,
                    server_type@,
                    location@,
                    self.project@,
                ),
            ),
    {
        broadcast use json::field_views_push;

        let mut fields: Vec<(String, Field)> = Vec::new();
        let mut keys: Vec<u64> = Vec::new();
        keys.push(ssh_key_id);
        proof {
            assert(json::field_views(fields@) =~= Seq::empty());
            assert(keys@ =~= seq![ssh_key_id]);
        }
        fields.push(json::text_field("name", name));
        fields.push(json::text_field("server_type", server_type));
        fields.push(json::text_field("image", image));
        fields.push(json::text_field("location", location));
        fields.push(("ssh_keys".to_owned(), Field::Ids(keys)));
        fields.push(labels_field(self.project.as_str()));
        fields.push(("start_after_create".to_owned(), Field::Flag(true)));
        proof {
            assert(json::field_views(fields@) =~= server_fields(
                name@,
                ssh_key_id,
                image@,
                server_type@,
                location@,
                self.project@,
            ));
        }
        json::render_object(&fields)
    }
}

/// A result of reading a reply.
pub open spec fn document_view(r: Result<Option<String>, String>) -> Result<
    Option<Seq<char>>,
    Seq<char>,
> {
    match r {
        Ok(d) => Ok(text::opt_view(d)),
        Err(e) => Err(e@),
    }
}

/// Reads a reply, given why its body is no document.
pub fn read_reply_with(method: &str, path: &str, stdout: &str, error: &Option<String>) -> (r:
    Result<Option<String>, String>)
    ensures
        document_view(r) == reply_document(method@, path@, stdout@, text::opt_view(*error)),
{
    let (body, status): (String, u16) = match text::rsplit_once_text(stdout, "\nHTTP_STATUS:") {
        Some((b, s)) => (
            split::trim(b.as_str()),
            match number::parse_bounded(split::trim(s.as_str()).as_str(), 65535) {
                Some(n) => n as u16,
                None => 0,
            },
        ),
        None => (split::trim(stdout), 0),
    };
    if !(200 <= status && status < 300) {
        return Err(bad_status(method, path, status, body.as_str()));
    }
    if body.as_str().is_empty() {
        return Ok(None);
    }
    match error {
        None => Ok(Some(body)),
        Some(e) => Err(bad_json(method, path, e.as_str(), body.as_str())),
    }
}

/// Reads a reply: its status has to tell of success, and its body has to be a document where
/// there is one.
pub fn read_reply(method: &str, path: &str, stdout: &str) -> (r: Result<Option<String>, String>)
    ensures
        document_view(r) == reply_document(
            method@,
            path@,
            stdout@,
            json::json_error_text(reply_parts(stdout@).0),
        ),
{
    let body: String = match text::rsplit_once_text(stdout, "\nHTTP_STATUS:") {
        Some((b, _)) => split::trim(b.as_str()),
        None => split::trim(stdout),
    };
    let error: Option<String> = json::json_error(body.as_str());
    read_reply_with(method, path, stdout, &error)
}

/// Reads the id of a key that was uploaded.
pub fn upload_key(reply: &str) -> (r: Result<u64, String>)
    ensures
        match (json::number_at(reply@, "/ssh_key/id"@), r) {
            (Some(id), Ok(x)) => x == id,
            (None, Err(e)) => e@ == no_key_id_text(json::document_text(reply@)),
            _ => false,
        },
{
    match json::read_number(reply, "/ssh_key/id") {
        Some(id) => Ok(id),
        None => Err(no_key_id(json::render_document(reply).as_str())),
    }
}

/// Reads the machine that was made.
pub fn create_server(name: &str, reply: &str) -> (r: Result<Server, String>)
    ensures
        match (
            json::number_at(reply@, "/server/id"@),
            json::text_at(reply@, "/server/public_net/ipv4/ip"@),
            r,
        ) {
            (Some(id), Some(ip), Ok(s)) => s.id == id && s.name@ == name@ && s.ipv4@ == ip,
            (None, _, Err(e)) => e@ == no_server_id_text(json::document_text(reply@)),
            (Some(_), None, Err(e)) => e@ == no_server_ip_text(json::document_text(reply@)),
            _ => false,
        },
{
    match json::read_number(reply, "/server/id") {
        None => Err(no_server_id(json::render_document(reply).as_str())),
        Some(id) => match json::read_text(reply, "/server/public_net/ipv4/ip") {
            None => Err(no_server_ip(json::render_document(reply).as_str())),
            Some(ipv4) => Ok(Server { id, name: name.to_owned(), ipv4 }),
        },
    }
}

/// A public key without its comment.
pub open spec fn normalized(pk: Seq<char>) -> Seq<char> {
    let parts = split::words_of(pk);
    if parts.len() >= 2 {
        parts[0] + " "@ + parts[1]
    } else {
        split::trimmed(pk)
    }
}

/// A public key without its comment, so that two of them can be told apart.
pub fn normalize_pubkey(pk: &str) -> (r: String)
    ensures
        r@ == normalized(pk@),
{
    let parts: Vec<String> = split::words(pk);
    let ghost ps = split::words_of(pk@);
    proof {
        assert(text::views(parts@).len() == parts@.len());
    }
    if parts.len() >= 2 {
        proof {
            assert(ps[0] == parts@[0]@ && ps[1] == parts@[1]@);
        }
        let mut out: String = parts[0].clone();
        out.append(" ");
        out.append(parts[1].as_str());
        out
    } else {
        split::trim(pk)
    }
}

/// A key in a list: its text and its id, where they are there.
#[derive(Clone, Debug)]
pub struct ListedKey {
    pub public_key: Option<String>,
    pub id: Option<u64>,
}

/// The items of a list of a resource, each as a JSON text: none where there is no list.
pub open spec fn items_of(reply: Seq<char>, resource: Seq<char>) -> Seq<Seq<char>> {
    match json::items_under(reply, resource) {
        Some(v) => v,
        None => Seq::empty(),
    }
}

/// Reads the labeled items of a resource out of the reply to their request.
pub fn labeled_items(reply: &str, resource: &str) -> (r: Vec<String>)
    ensures
        text::views(r@) == items_of(reply@, resource@),
{
    match json::read_items(reply, resource) {
        Some(v) => v,
        None => {
            let none: Vec<String> = Vec::new();
            proof {
                assert(text::views(none@) =~= Seq::empty());
            }
            none
        },
    }
}

/// Whether a key is the one that an item says.
pub open spec fn is_listed(k: ListedKey, item: Seq<char>) -> bool {
    &&& text::opt_view(k.public_key) == json::text_at(item, "/public_key"@)
    &&& k.id == json::number_at(item, "/id"@)
}

/// Reads a page of keys: the keys on it, and the number of the last page, which is the first
/// where none is told.
pub fn listed_keys(reply: &str) -> (r: (Vec<ListedKey>, u32))
    ensures
        r.0@.len() == items_of(reply@, "ssh_keys"@).len(),
        forall|i: int|
            0 <= i < r.0@.len() ==> is_listed(
                #[trigger] r.0@[i],
                items_of(reply@, "ssh_keys"@)[i],
            ),
        r.1 == (match json::number_at(reply@, "/meta/pagination/last_page"@) {
            Some(n) => n as u32,
            None => 1,
        }),
{
    let items: Vec<String> = labeled_items(reply, "ssh_keys");
    let ghost all = text::views(items@);
    let mut keys: Vec<ListedKey> = Vec::new();
    let mut i: usize = 0;
    while i < items.len()
        invariant
            i <= items@.len(),
            all == text::views(items@),
            keys@.len() == i,
            forall|j: int| 0 <= j < i ==> is_listed(#[trigger] keys@[j], all[j]),
        decreases items@.len() - i,
    {
        proof {
            assert(all[i as int] == items@[i as int]@);
        }
        let public_key: Option<String> = json::read_text(items[i].as_str(), "/public_key");
        let id: Option<u64> = json::read_number(items[i].as_str(), "/id");
        keys.push(ListedKey { public_key, id });
        i = i + 1;
    }
    let last: u32 = match json::read_number(reply, "/meta/pagination/last_page") {
        Some(n) => n as u32,
        None => 1,
    };
    (keys, last)
}

/// The first of `keys[i..]` with this text.
pub open spec fn first_match(keys: Seq<ListedKey>, target: Seq<char>, i: int) -> Option<int>
    decreases keys.len() - i,
{
    if i < 0 || i >= keys.len() {
        None
    } else if keys[i].public_key is Some && normalized(keys[i].public_key->Some_0@) == target {
        Some(i)
    } else {
        first_match(keys, target, i + 1)
    }
}

/// Where the search for a key goes on.
#[derive(Clone, Copy, Debug, PartialEq, Eq, Structural)]
pub enum KeySearch {
    /// It ends with the id of the key, or without one.
    Done(Option<u64>),
    /// It goes on with this page.
    Page(u32),
}

/// Where the search goes on after a page: it ends where the key was found, on the last page
/// and on an empty page.
pub open spec fn search_of(keys: Seq<ListedKey>, pubkey: Seq<char>, page: u32, last: u32) -> KeySearch {
    match first_match(keys, normalized(pubkey), 0) {
        Some(i) => KeySearch::Done(keys[i].id),
        None => if page >= last || keys.len() == 0 {
            KeySearch::Done(None)
        } else {
            KeySearch::Page((page + 1) as u32)
        },
    }
}

/// Searches a page of keys for one with this text.
pub fn find_key_by_pubkey(keys: &Vec<ListedKey>, pubkey: &str, page: u32, last: u32) -> (r:
    KeySearch)
    ensures
        r == search_of(keys@, pubkey@, page, last),
{
    let target: String = normalize_pubkey(pubkey);
    let mut i: usize = 0;
    while i < keys.len()
        invariant
            i <= keys@.len(),
            target@ == normalized(pubkey@),
            first_match(keys@, target@, i as int) == first_match(keys@, target@, 0),
        decreases keys@.len() - i,
    {
        if let Some(pk) = &keys[i].public_key {
            if text::same(normalize_pubkey(pk.as_str()).as_str(), target.as_str()) {
                return KeySearch::Done(keys[i].id);
            }
        }
        i = i + 1;
    }
    if page >= last || keys.len() == 0 {
        KeySearch::Done(None)
    } else {
        KeySearch::Page(page + 1)
    }
}

/// The pages of a search only go up, and never past the last.
pub proof fn search_ends(keys: Seq<ListedKey>, pubkey: Seq<char>, page: u32, last: u32)
    ensures
        search_of(keys, pubkey, page, last) matches KeySearch::Page(p) ==> page < p <= last,
{
}

/// The arguments of `ssh` for machines whose addresses are used again.
pub open spec fn ephemeral_args(ssh_key: Seq<char>) -> Seq<Seq<char>> {
    seq![
        "-i"@,
        ssh_key,
        "-o"@,
        "ConnectTimeout=10"@,
        "-o"@,
        "BatchMode=yes"@,
        "-o"@,
        "StrictHostKeyChecking=no"@,
        "-o"@,
        "UserKnownHostsFile=/dev/null"@,
        "-o"@,
        "LogLevel=ERROR"@,
    ]
}

pub fn ephemeral_ssh_args(ssh_key: &str) -> (r: Vec<String>)
    ensures
        text::views(r@) == ephemeral_args(ssh_key@),
{
    broadcast use text::views_push;

    let mut args: Vec<String> = Vec::new();
    proof {
        assert(text::views(args@) =~= Seq::empty());
    }
    args.push("-i".to_owned());
    args.push(ssh_key.to_owned());
    args.push("-o".to_owned());
    args.push("ConnectTimeout=10".to_owned());
    args.push("-o".to_owned());
    args.push("BatchMode=yes".to_owned());
    args.push("-o".to_owned());
    args.push("StrictHostKeyChecking=no".to_owned());
    args.push("-o".to_owned());
    args.push("UserKnownHostsFile=/dev/null".to_owned());
    args.push("-o".to_owned());
    args.push("LogLevel=ERROR".to_owned());
    proof {
        assert(text::views(args@) =~= ephemeral_args(ssh_key@));
    }
    args
}

/// The name of a key.
pub open spec fn key_name_text(prefix: Seq<char>, nanos: Seq<char>) -> Seq<char> {
    "coold-e2e-"@
        + prefix
        + "-"@
        + nanos
}

/// The name of a key.
pub fn key_name(prefix: &str, nanos: &str) -> (r: String)
    ensures
        r@ == key_name_text(prefix@, nanos@),
{
    let mut out: String = "coold-e2e-".to_owned();
    out.append(prefix);
    out.append("-");
    out.append(nanos);
    out
}

/// The name of a machine.
pub open spec fn server_name_text(prefix: Seq<char>, nanos: Seq<char>, i: nat) -> Seq<char> {
    "coold-e2e-"@
        + prefix
        + "-"@
        + nanos
        + "-"@
        + number::decimal(i)
}

/// The name of a machine.
pub fn server_name(prefix: &str, nanos: &str, i: usize) -> (r: String)
    ensures
        r@ == server_name_text(prefix@, nanos@, i as nat),
{
    let mut out: String = "coold-e2e-".to_owned();
    out.append(prefix);
    out.append("-");
    out.append(nanos);
    out.append("-");
    out.append(number::decimal_of(i as u64).as_str());
    out
}

} // verus!
