//! The state of resources, as it is told to the control plane.

use vstd::prelude::*;
use vstd::string::StringExecFns;
use crate::json;
use crate::split;
use crate::text;

verus! {

/// What an agent tells of a resource.
#[derive(Clone, Debug)]
pub struct ResourceStatusUpdate {
    pub resource_type: String,
    pub host_id: String,
    pub container_id: String,
    pub container_name: String,
    pub status: String,
    pub status_message: String,
}

/// What the control plane is told of a resource.
#[derive(Clone, Debug)]
pub struct ResourceStatusPayload<'a> {
    pub resource_type: &'a str,
    pub host_id: &'a str,
    pub container_id: &'a str,
    pub container_name: &'a str,
    pub status: &'a str,
    pub status_message: &'a str,
}

/// What the control plane is told: what the agent told.
pub fn resource_status_payload<'a>(update: &'a ResourceStatusUpdate) -> (r: ResourceStatusPayload<
    'a,
>)
    ensures
        r.resource_type@ == update.resource_type@,
        r.host_id@ == update.host_id@,
        r.container_id@ == update.container_id@,
        r.container_name@ == update.container_name@,
        r.status@ == update.status@,
        r.status_message@ == update.status_message@,
{
    ResourceStatusPayload {
        resource_type: update.resource_type.as_str(),
        host_id: update.host_id.as_str(),
        container_id: update.container_id.as_str(),
        container_name: update.container_name.as_str(),
        status: update.status.as_str(),
        status_message: update.status_message.as_str(),
    }
}

/// The fields of what the control plane is told of a resource.
pub open spec fn payload_fields(p: ResourceStatusPayload) -> Seq<(Seq<char>, Seq<char>)> {
    seq![
        ("resource_type"@, json::text_json(p.resource_type@)),
        ("host_id"@, json::text_json(p.host_id@)),
        ("container_id"@, json::text_json(p.container_id@)),
        ("container_name"@, json::text_json(p.container_name@)),
        ("status"@, json::text_json(p.status@)),
        ("status_message"@, json::text_json(p.status_message@)),
    ]
}

impl<'a> ResourceStatusPayload<'a> {
    /// The JSON text that is sent.
    pub fn text(&self) -> (r: String)
        ensures
            r@ == json::record_text(payload_fields(*self)),
    {
        broadcast use json::label_views_push;

        let mut fields: Vec<(String, String)> = Vec::new();
        proof {
            assert(json::label_views(fields@) =~= Seq::empty());
        }
        fields.push(("resource_type".to_owned(), json::render_text(self.resource_type)));
        fields.push(("host_id".to_owned(), json::render_text(self.host_id)));
        fields.push(("container_id".to_owned(), json::render_text(self.container_id)));
        fields.push(("container_name".to_owned(), json::render_text(self.container_name)));
        fields.push(("status".to_owned(), json::render_text(self.status)));
        fields.push(("status_message".to_owned(), json::render_text(self.status_message)));
        proof {
            assert(json::label_views(fields@) =~= payload_fields(*self));
        }
        json::render_record(&fields)
    }
}

/// What is told of coold on a host.
pub fn coold_status_update(host_id: &str, status: &str, status_message: &str) -> (r:
    ResourceStatusUpdate)
    ensures
        r.resource_type@ == "server"@,
        r.host_id@ == host_id@,
        r.container_id@ == ""@,
        r.container_name@ == ""@,
        r.status@ == status@,
        r.status_message@ == status_message@,
{
    ResourceStatusUpdate {
        resource_type: "server".to_owned(),
        host_id: host_id.to_owned(),
        container_id: "".to_owned(),
        container_name: "".to_owned(),
        status: status.to_owned(),
        status_message: status_message.to_owned(),
    }
}

/// Where the state of resources goes, and the token that goes with it.
#[derive(Clone, Debug)]
pub struct ResourceStatusPublisher {
    pub endpoint_url: Option<String>,
    pub token: Option<String>,
}

/// A text without surrounding space, where anything is left.
pub open spec fn some_trimmed(s: Option<Seq<char>>) -> Option<Seq<char>> {
    match s {
        Some(t) => if split::trimmed(t).len() == 0 {
            None
        } else {
            Some(split::trimmed(t))
        },
        None => None,
    }
}

/// A base address without surrounding space and trailing slashes, where anything is left.
pub open spec fn some_base(s: Option<Seq<char>>) -> Option<Seq<char>> {
    match s {
        Some(t) => if split::without_trailing(split::trimmed(t), '/').len() == 0 {
            None
        } else {
            Some(split::without_trailing(split::trimmed(t), '/'))
        },
        None => None,
    }
}

pub fn trimmed_opt(s: &Option<String>) -> (r: Option<String>)
    ensures
        text::opt_view(r) == some_trimmed(text::opt_view(*s)),
{
    match s {
        Some(t) => {
            let t: String = split::trim(t.as_str());
            if t.as_str().is_empty() {
                None
            } else {
                Some(t)
            }
        },
        None => None,
    }
}

pub fn base_opt(s: &Option<String>) -> (r: Option<String>)
    ensures
        text::opt_view(r) == some_base(text::opt_view(*s)),
{
    match s {
        Some(t) => {
            let t: String = split::trim_end_char(split::trim(t.as_str()).as_str(), '/');
            if t.as_str().is_empty() {
                None
            } else {
                Some(t)
            }
        },
        None => None,
    }
}

/// Where the state of resources goes.
pub open spec fn endpoint_text(base: Seq<char>) -> Seq<char> {
    base
        + "/api/v1/internal/flux/resource-status"@
}

/// Where the state of resources goes.
fn endpoint(base: &str) -> (r: String)
    ensures
        r@ == endpoint_text(base@),
{
    let mut out: String = base.to_owned();
    out.append("/api/v1/internal/flux/resource-status");
    out
}

impl ResourceStatusPublisher {
    pub fn new(laravel_api_url: &Option<String>, token: &Option<String>) -> (r: Self)
        ensures
            text::opt_view(r.endpoint_url) == (match some_base(text::opt_view(*laravel_api_url)) {
                Some(base) => Some(endpoint_text(base)),
                None => None,
            }),
            text::opt_view(r.token) == some_trimmed(text::opt_view(*token)),
    {
        let endpoint_url: Option<String> = match base_opt(laravel_api_url) {
            Some(base) => Some(endpoint(base.as_str())),
            None => None,
        };
        ResourceStatusPublisher { endpoint_url, token: trimmed_opt(token) }
    }

    /// Where a state goes and with which token: nowhere unless both are known.
    pub fn target(&self) -> (r: Option<(String, String)>)
        ensures
            text::pair_view(r) == (match (self.endpoint_url, self.token) {
                (Some(url), Some(token)) => Some((url@, token@)),
                _ => None,
            }),
    {
        match (&self.endpoint_url, &self.token) {
            (Some(url), Some(token)) => Some((url.clone(), token.clone())),
            _ => None,
        }
    }
}

/// The failure to tell of a state.
pub open spec fn publish_error_text(url: Seq<char>, status: Seq<char>, body: Seq<char>) -> Seq<char> {
    "Laravel resource status "@
        + url
        + " returned "@
        + status
        + ": "@
        + body
}

/// The failure to tell of a state.
pub fn publish_error(url: &str, status: &str, body: &str) -> (r: String)
    ensures
        r@ == publish_error_text(url@, status@, body@),
{
    let mut out: String = "Laravel resource status ".to_owned();
    out.append(url);
    out.append(" returned ");
    out.append(status);
    out.append(": ");
    out.append(body);
    out
}

} // verus!
