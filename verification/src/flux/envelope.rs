//! What the control plane sends to agents, and what comes back.

use vstd::prelude::*;
use vstd::string::StringExecFns;
use crate::json;
use crate::json::{Field, FieldView};
use crate::model::ContainerSummary;
use crate::text;

verus! {

/// An agent that is connected, and what it may do.
#[derive(Clone, Debug, PartialEq, Eq)]
pub struct StreamInventoryItem {
    pub host_id: String,
    pub caps: Vec<String>,
}

/// A command for a host.
#[derive(Debug)]
pub struct DispatchEnvelope {
    pub host_id: String,
    pub request_id: String,
    pub command: CommandPayload,
}

/// A port of the host that leads to one of a container.
#[derive(Debug)]
pub struct PortMapping {
    pub host_ip: String,
    pub host_port: u32,
    pub container_port: u32,
    pub protocol: String,
}

/// The ingress configuration of one application.
#[derive(Debug)]
pub struct IngressAppConfig {
    pub name: String,
    pub config: String,
}

/// What an agent is asked to do.
#[derive(Debug)]
pub enum CommandPayload {
    ImagesPull { reference: String },
    ImagesList,
    ImagesDelete { reference: String, force: bool },
    ContainersCreate {
        name: String,
        image: String,
        command: Vec<String>,
        env: Vec<String>,
        networks: Vec<String>,
        volumes: Vec<String>,
        ports: Vec<PortMapping>,
        dns: Vec<String>,
        dns_search: Vec<String>,
        network_aliases: Vec<String>,
        restart_policy: String,
        privileged: bool,
        network_mode: String,
        capabilities: Vec<String>,
    },
    ContainersStart { id: String },
    ContainersStop { id: String, timeout_seconds: u32 },
    ContainersRestart { id: String, timeout_seconds: u32 },
    ContainersDelete { id: String, force: bool },
    ContainersInspect { id: String },
    ContainersList,
    ContainersLogs { id: String, tail: u32, stdout: bool, stderr: bool },
    ContainersExec { id: String, command: Vec<String> },
    ContainersHealthcheckRun { id: String },
    ApplyIngress { kind: String, config: String, apps: Vec<IngressAppConfig>, mesh_network: String },
    StopIngress { kind: String },
    FirewallAllow {
        id: String,
        namespace: String,
        src: String,
        dst: String,
        proto: String,
        port: u32,
    },
    FirewallRevoke { id: String },
    FirewallList { namespace: String },
    FirewallReconcile,
    CooldLogs { tail: u32 },
    /// A new token for the host.
    HostJwtSet { jwt: String },
}

/// Whether logs hold the standard output where nothing is said of it.
pub fn default_logs_stdout() -> (r: bool)
    ensures
        r,
{
    true
}

/// The network of the ingress where none is named.
pub fn default_mesh_network() -> (r: String)
    ensures
        r@ == "coolify-default-mesh"@,
{
    "coolify-default-mesh".to_owned()
}

/// The name of a command, which is the capability that it takes.
pub open spec fn kind_of(c: CommandPayload) -> Seq<char> {
    match c {
        CommandPayload::ImagesPull { .. } => "images.pull"@,
        CommandPayload::ImagesList => "images.list"@,
        CommandPayload::ImagesDelete { .. } => "images.delete"@,
        CommandPayload::ContainersCreate { .. } => "containers.create"@,
        CommandPayload::ContainersStart { .. } => "containers.start"@,
        CommandPayload::ContainersStop { .. } => "containers.stop"@,
        CommandPayload::ContainersRestart { .. } => "containers.restart"@,
        CommandPayload::ContainersDelete { .. } => "containers.delete"@,
        CommandPayload::ContainersInspect { .. } => "containers.inspect"@,
        CommandPayload::ContainersList => "containers.list"@,
        CommandPayload::ContainersLogs { .. } => "containers.logs"@,
        CommandPayload::ContainersExec { .. } => "containers.exec"@,
        CommandPayload::ContainersHealthcheckRun { .. } => "containers.healthcheck.run"@,
        CommandPayload::ApplyIngress { .. } => "ingress.apply"@,
        CommandPayload::StopIngress { .. } => "ingress.stop"@,
        CommandPayload::FirewallAllow { .. } => "firewall.allow"@,
        CommandPayload::FirewallRevoke { .. } => "firewall.revoke"@,
        CommandPayload::FirewallList { .. } => "firewall.list"@,
        CommandPayload::FirewallReconcile => "firewall.reconcile"@,
        CommandPayload::CooldLogs { .. } => "coold.logs"@,
        CommandPayload::HostJwtSet { .. } => "host.jwt.set"@,
    }
}

impl CommandPayload {
    /// The name of the command.
    pub fn kind(&self) -> (r: &'static str)
        ensures
            r@ == kind_of(*self),
    {
        match self {
            CommandPayload::ImagesPull { .. } => "images.pull",
            CommandPayload::ImagesList => "images.list",
            CommandPayload::ImagesDelete { .. } => "images.delete",
            CommandPayload::ContainersCreate { .. } => "containers.create",
            CommandPayload::ContainersStart { .. } => "containers.start",
            CommandPayload::ContainersStop { .. } => "containers.stop",
            CommandPayload::ContainersRestart { .. } => "containers.restart",
            CommandPayload::ContainersDelete { .. } => "containers.delete",
            CommandPayload::ContainersInspect { .. } => "containers.inspect",
            CommandPayload::ContainersList => "containers.list",
            CommandPayload::ContainersLogs { .. } => "containers.logs",
            CommandPayload::ContainersExec { .. } => "containers.exec",
            CommandPayload::ContainersHealthcheckRun { .. } => "containers.healthcheck.run",
            CommandPayload::ApplyIngress { .. } => "ingress.apply",
            CommandPayload::StopIngress { .. } => "ingress.stop",
            CommandPayload::FirewallAllow { .. } => "firewall.allow",
            CommandPayload::FirewallRevoke { .. } => "firewall.revoke",
            CommandPayload::FirewallList { .. } => "firewall.list",
            CommandPayload::FirewallReconcile => "firewall.reconcile",
            CommandPayload::CooldLogs { .. } => "coold.logs",
            CommandPayload::HostJwtSet { .. } => "host.jwt.set",
        }
    }
}

/// An image in a list.
#[derive(Clone, Debug)]
pub struct ImageSummary {
    pub id: String,
    pub repo_tags: Vec<String>,
    pub repo_digests: Vec<String>,
    pub size: i64,
    pub created: String,
}

/// What an agent answers.
#[derive(Debug)]
pub enum Body {
    ImagesPull { digest: String, output: String },
    ImagesList { images: Vec<ImageSummary> },
    ImagesDelete { output: String },
    ContainersCreate { id: String },
    ContainersStart { output: String },
    ContainersStop { output: String },
    ContainersRestart { output: String },
    ContainersDelete { output: String },
    /// What the engine says of a container, as a JSON text.
    ContainersInspect { json: String },
    ContainersList { containers: Vec<ContainerSummary> },
    ContainersLogs { output: String },
    ContainersExec { exit_code: i32, output: String },
    ContainersHealthcheckRun { output: String },
    IngressApply { output: String },
    IngressStop { output: String },
    FirewallAllow,
    FirewallRevoke,
    FirewallList,
    FirewallReconcile,
    CooldLogs,
    CorrosionTables,
    HostJwtSet,
    Error { code: u32, message: String },
}

/// An answer to a request.
#[derive(Debug)]
pub struct AgentResponse {
    pub request_id: String,
    pub body: Option<Body>,
}

/// The name of an answer.
pub open spec fn body_kind(body: Option<Body>) -> Seq<char> {
    match body {
        Some(Body::ImagesPull { .. }) => "images.pull"@,
        Some(Body::ImagesList { .. }) => "images.list"@,
        Some(Body::ImagesDelete { .. }) => "images.delete"@,
        Some(Body::ContainersCreate { .. }) => "containers.create"@,
        Some(Body::ContainersStart { .. }) => "containers.start"@,
        Some(Body::ContainersStop { .. }) => "containers.stop"@,
        Some(Body::ContainersRestart { .. }) => "containers.restart"@,
        Some(Body::ContainersDelete { .. }) => "containers.delete"@,
        Some(Body::ContainersInspect { .. }) => "containers.inspect"@,
        Some(Body::ContainersList { .. }) => "containers.list"@,
        Some(Body::ContainersLogs { .. }) => "containers.logs"@,
        Some(Body::ContainersExec { .. }) => "containers.exec"@,
        Some(Body::ContainersHealthcheckRun { .. }) => "containers.healthcheck.run"@,
        Some(Body::IngressApply { .. }) => "ingress.apply"@,
        Some(Body::IngressStop { .. }) => "ingress.stop"@,
        Some(Body::FirewallAllow) => "firewall.allow"@,
        Some(Body::FirewallRevoke) => "firewall.revoke"@,
        Some(Body::FirewallList) => "firewall.list"@,
        Some(Body::FirewallReconcile) => "firewall.reconcile"@,
        Some(Body::CooldLogs) => "coold.logs"@,
        Some(Body::CorrosionTables) => "corrosion.tables"@,
        Some(Body::HostJwtSet) => "host.jwt.set"@,
        Some(Body::Error { .. }) => "error"@,
        None => "none"@,
    }
}

pub fn response_body_type(body: &Option<Body>) -> (r: &'static str)
    ensures
        r@ == body_kind(*body),
{
    match body {
        Some(Body::ImagesPull { .. }) => "images.pull",
        Some(Body::ImagesList { .. }) => "images.list",
        Some(Body::ImagesDelete { .. }) => "images.delete",
        Some(Body::ContainersCreate { .. }) => "containers.create",
        Some(Body::ContainersStart { .. }) => "containers.start",
        Some(Body::ContainersStop { .. }) => "containers.stop",
        Some(Body::ContainersRestart { .. }) => "containers.restart",
        Some(Body::ContainersDelete { .. }) => "containers.delete",
        Some(Body::ContainersInspect { .. }) => "containers.inspect",
        Some(Body::ContainersList { .. }) => "containers.list",
        Some(Body::ContainersLogs { .. }) => "containers.logs",
        Some(Body::ContainersExec { .. }) => "containers.exec",
        Some(Body::ContainersHealthcheckRun { .. }) => "containers.healthcheck.run",
        Some(Body::IngressApply { .. }) => "ingress.apply",
        Some(Body::IngressStop { .. }) => "ingress.stop",
        Some(Body::FirewallAllow) => "firewall.allow",
        Some(Body::FirewallRevoke) => "firewall.revoke",
        Some(Body::FirewallList) => "firewall.list",
        Some(Body::FirewallReconcile) => "firewall.reconcile",
        Some(Body::CooldLogs) => "coold.logs",
        Some(Body::CorrosionTables) => "corrosion.tables",
        Some(Body::HostJwtSet) => "host.jwt.set",
        Some(Body::Error { .. }) => "error",
        None => "none",
    }
}

/// What the control plane is given: an object, a list of objects, or a JSON document.
#[derive(Clone, Debug)]
pub enum Data {
    Fields(Vec<(String, Field)>),
    Rows(Vec<Vec<(String, Field)>>),
    Document(String),
}

/// What a `Data` says.
#[verifier::ext_equal]
pub enum DataView {
    Fields(Seq<(Seq<char>, FieldView)>),
    Rows(Seq<Seq<(Seq<char>, FieldView)>>),
    Document(Seq<char>),
}

impl View for Data {
    type V = DataView;

    open spec fn view(&self) -> DataView {
        match self {
            Data::Fields(f) => DataView::Fields(json::field_views(f@)),
            Data::Rows(rows) => DataView::Rows(json::row_views(rows@)),
            Data::Document(s) => DataView::Document(s@),
        }
    }
}

/// An answer as the control plane is given it.
#[derive(Clone, Debug)]
pub enum ResponseBody {
    Success { data: Data },
    Error { code: u32, message: String },
}

/// What a `ResponseBody` says.
#[verifier::ext_equal]
pub enum ResponseView {
    Success(DataView),
    Error(u32, Seq<char>),
}

impl View for ResponseBody {
    type V = ResponseView;

    open spec fn view(&self) -> ResponseView {
        match self {
            ResponseBody::Success { data } => ResponseView::Success(data@),
            ResponseBody::Error { code, message } => ResponseView::Error(*code, message@),
        }
    }
}

/// An answer to a request as the control plane is given it.
#[derive(Debug)]
pub struct ResponseEnvelope {
    pub request_id: String,
    pub body: ResponseBody,
}

/// What is given of a container.
pub open spec fn container_fields(c: ContainerSummary) -> Seq<(Seq<char>, FieldView)> {
    seq![
        ("id"@, FieldView::Text(c.id@)),
        ("name"@, FieldView::Text(c.name@)),
        ("image"@, FieldView::Text(c.image@)),
        ("state"@, FieldView::Text(c.state@)),
        ("networks"@, FieldView::Texts(text::views(c.networks@))),
    ]
}

/// What is given of an image.
pub open spec fn image_fields(c: ImageSummary) -> Seq<(Seq<char>, FieldView)> {
    seq![
        ("id"@, FieldView::Text(c.id@)),
        ("repo_tags"@, FieldView::Texts(text::views(c.repo_tags@))),
        ("repo_digests"@, FieldView::Texts(text::views(c.repo_digests@))),
        ("size"@, FieldView::Number(c.size)),
        ("created"@, FieldView::Text(c.created@)),
    ]
}

fn container_list(v: &Vec<ContainerSummary>) -> (r: Data)
    ensures
        r@ == DataView::Rows(Seq::new(v@.len(), |i: int| container_fields(v@[i]))),
{
    broadcast use json::field_views_push;

    let mut rows: Vec<Vec<(String, Field)>> = Vec::new();
    let mut i: usize = 0;
    while i < v.len()
        invariant
            i <= v@.len(),
            rows@.len() == i,
            forall|j: int| 0 <= j < i ==> json::field_views((#[trigger] rows@[j])@) == container_fields(v@[j]),
        decreases v@.len() - i,
    {
        let c: &ContainerSummary = &v[i];
        let mut row: Vec<(String, Field)> = Vec::new();
        proof {
            assert(json::field_views(row@) =~= Seq::empty());
        }
        row.push(json::text_field("id", c.id.as_str()));
        row.push(json::text_field("name", c.name.as_str()));
        row.push(json::text_field("image", c.image.as_str()));
        row.push(json::text_field("state", c.state.as_str()));
        row.push(json::texts_field("networks", &c.networks));
        proof {
            assert(json::field_views(row@) =~= container_fields(v@[i as int]));
        }
        rows.push(row);
        i = i + 1;
    }
    proof {
        assert(json::row_views(rows@) =~= Seq::new(v@.len(), |i: int| container_fields(v@[i])));
    }
    Data::Rows(rows)
}

fn image_list(v: &Vec<ImageSummary>) -> (r: Data)
    ensures
        r@ == DataView::Rows(Seq::new(v@.len(), |i: int| image_fields(v@[i]))),
{
    broadcast use json::field_views_push;

    let mut rows: Vec<Vec<(String, Field)>> = Vec::new();
    let mut i: usize = 0;
    while i < v.len()
        invariant
            i <= v@.len(),
            rows@.len() == i,
            forall|j: int| 0 <= j < i ==> json::field_views((#[trigger] rows@[j])@) == image_fields(v@[j]),
        decreases v@.len() - i,
    {
        let c: &ImageSummary = &v[i];
        let mut row: Vec<(String, Field)> = Vec::new();
        proof {
            assert(json::field_views(row@) =~= Seq::empty());
        }
        row.push(json::text_field("id", c.id.as_str()));
        row.push(json::texts_field("repo_tags", &c.repo_tags));
        row.push(json::texts_field("repo_digests", &c.repo_digests));
        row.push(json::number_field("size", c.size));
        row.push(json::text_field("created", c.created.as_str()));
        proof {
            assert(json::field_views(row@) =~= image_fields(v@[i as int]));
        }
        rows.push(row);
        i = i + 1;
    }
    proof {
        assert(json::row_views(rows@) =~= Seq::new(v@.len(), |i: int| image_fields(v@[i])));
    }
    Data::Rows(rows)
}

/// An object with one field.
fn one_field(name: &str, value: &str) -> (r: Data)
    ensures
        r@ == DataView::Fields(seq![(name@, FieldView::Text(value@))]),
{
    let mut fields: Vec<(String, Field)> = Vec::new();
    fields.push(json::text_field(name, value));
    proof {
        assert(json::field_views(fields@) =~= seq![(name@, FieldView::Text(value@))]);
    }
    Data::Fields(fields)
}

/// An object with one field that holds what was put out.
pub open spec fn output_of(output: Seq<char>) -> Option<ResponseView> {
    Some(ResponseView::Success(DataView::Fields(seq![("output"@, FieldView::Text(output))])))
}

/// What the control plane is given of an answer. `inspected` tells whether the text of an
/// inspection is a JSON document. Some answers are not passed on.
pub open spec fn answer_of(body: Option<Body>, inspected: bool) -> Option<ResponseView> {
    match body {
        Some(Body::ContainersList { containers }) => Some(
            ResponseView::Success(
                DataView::Rows(
                    Seq::new(containers@.len(), |i: int| container_fields(containers@[i])),
                ),
            ),
        ),
        Some(Body::ImagesList { images }) => Some(
            ResponseView::Success(
                DataView::Rows(Seq::new(images@.len(), |i: int| image_fields(images@[i]))),
            ),
        ),
        Some(Body::ImagesPull { digest, output }) => Some(
            ResponseView::Success(
                DataView::Fields(
                    seq![
                        ("digest"@, FieldView::Text(digest@)),
                        ("output"@, FieldView::Text(output@)),
                    ],
                ),
            ),
        ),
        Some(Body::ImagesDelete { output }) => output_of(output@),
        Some(Body::ContainersCreate { id }) => Some(
            ResponseView::Success(DataView::Fields(seq![("id"@, FieldView::Text(id@))])),
        ),
        Some(Body::ContainersStart { output }) => output_of(output@),
        Some(Body::ContainersStop { output }) => output_of(output@),
        Some(Body::ContainersRestart { output }) => output_of(output@),
        Some(Body::ContainersDelete { output }) => output_of(output@),
        Some(Body::ContainersLogs { output }) => output_of(output@),
        Some(Body::ContainersHealthcheckRun { output }) => output_of(output@),
        Some(Body::IngressApply { output }) => output_of(output@),
        Some(Body::IngressStop { output }) => output_of(output@),
        Some(Body::ContainersInspect { json }) => Some(
            ResponseView::Success(
                if inspected {
                    DataView::Document(json@)
                } else {
                    DataView::Fields(seq![("raw"@, FieldView::Text(json@))])
                },
            ),
        ),
        Some(Body::ContainersExec { exit_code, output }) => Some(
            ResponseView::Success(
                DataView::Fields(
                    seq![
                        ("exit_code"@, FieldView::Number(exit_code as i64)),
                        ("output"@, FieldView::Text(output@)),
                    ],
                ),
            ),
        ),
        Some(Body::HostJwtSet) => Some(ResponseView::Success(DataView::Fields(Seq::empty()))),
        Some(Body::Error { code, message }) => Some(ResponseView::Error(code, message@)),
        Some(_) => None,
        None => Some(ResponseView::Error(500, "empty response body"@)),
    }
}

/// Whether the text of an inspection is a JSON document.
pub open spec fn inspects(body: Option<Body>) -> bool {
    body matches Some(Body::ContainersInspect { json }) && json::is_json(json@)
}

/// An optional answer by what it says.
pub open spec fn response_view(r: Option<ResponseBody>) -> Option<ResponseView> {
    match r {
        Some(b) => Some(b@),
        None => None,
    }
}

impl ResponseBody {
    /// What the control plane is given of an answer, given whether the text of an inspection
    /// is a JSON document.
    pub fn answer(body: Option<Body>, inspected: bool) -> (r: Option<Self>)
        ensures
            response_view(r) == answer_of(body, inspected),
    {
        broadcast use json::field_views_push;

        match body {
            Some(Body::ContainersList { containers }) => Some(
                ResponseBody::Success { data: container_list(&containers) },
            ),
            Some(Body::ImagesList { images }) => Some(
                ResponseBody::Success { data: image_list(&images) },
            ),
            Some(Body::ImagesPull { digest, output }) => {
                let mut fields: Vec<(String, Field)> = Vec::new();
                proof {
                    assert(json::field_views(fields@) =~= Seq::empty());
                }
                fields.push(json::text_field("digest", digest.as_str()));
                fields.push(json::text_field("output", output.as_str()));
                proof {
                    assert(json::field_views(fields@) =~= seq![
                        ("digest"@, FieldView::Text(digest@)),
                        ("output"@, FieldView::Text(output@)),
                    ]);
                }
                Some(ResponseBody::Success { data: Data::Fields(fields) })
            },
            Some(Body::ImagesDelete { output }) => Some(
                ResponseBody::Success { data: one_field("output", output.as_str()) },
            ),
            Some(Body::ContainersCreate { id }) => Some(
                ResponseBody::Success { data: one_field("id", id.as_str()) },
            ),
            Some(Body::ContainersStart { output }) => Some(
                ResponseBody::Success { data: one_field("output", output.as_str()) },
            ),
            Some(Body::ContainersStop { output }) => Some(
                ResponseBody::Success { data: one_field("output", output.as_str()) },
            ),
            Some(Body::ContainersRestart { output }) => Some(
                ResponseBody::Success { data: one_field("output", output.as_str()) },
            ),
            Some(Body::ContainersDelete { output }) => Some(
                ResponseBody::Success { data: one_field("output", output.as_str()) },
            ),
            Some(Body::ContainersLogs { output }) => Some(
                ResponseBody::Success { data: one_field("output", output.as_str()) },
            ),
            Some(Body::ContainersHealthcheckRun { output }) => Some(
                ResponseBody::Success { data: one_field("output", output.as_str()) },
            ),
            Some(Body::IngressApply { output }) => Some(
                ResponseBody::Success { data: one_field("output", output.as_str()) },
            ),
            Some(Body::IngressStop { output }) => Some(
                ResponseBody::Success { data: one_field("output", output.as_str()) },
            ),
            Some(Body::ContainersInspect { json }) => Some(
                ResponseBody::Success {
                    data: if inspected {
                        Data::Document(json)
                    } else {
                        one_field("raw", json.as_str())
                    },
                },
            ),
            Some(Body::ContainersExec { exit_code, output }) => {
                let mut fields: Vec<(String, Field)> = Vec::new();
                proof {
                    assert(json::field_views(fields@) =~= Seq::empty());
                }
                fields.push(json::number_field("exit_code", exit_code as i64));
                fields.push(json::text_field("output", output.as_str()));
                proof {
                    assert(json::field_views(fields@) =~= seq![
                        ("exit_code"@, FieldView::Number(exit_code as i64)),
                        ("output"@, FieldView::Text(output@)),
                    ]);
                }
                Some(ResponseBody::Success { data: Data::Fields(fields) })
            },
            Some(Body::HostJwtSet) => {
                let fields: Vec<(String, Field)> = Vec::new();
                proof {
                    assert(json::field_views(fields@) =~= Seq::empty());
                }
                Some(ResponseBody::Success { data: Data::Fields(fields) })
            },
            Some(Body::Error { code, message }) => Some(ResponseBody::Error { code, message }),
            Some(_) => None,
            None => Some(
                ResponseBody::Error { code: 500, message: "empty response body".to_owned() },
            ),
        }
    }

    /// What the control plane is given of an answer.
    pub fn try_from_proto(resp: AgentResponse) -> (r: Option<Self>)
        ensures
            response_view(r) == answer_of(resp.body, inspects(resp.body)),
    {
        let inspected: bool = match &resp.body {
            Some(Body::ContainersInspect { json }) => json::json_valid(json.as_str()),
            _ => false,
        };
        ResponseBody::answer(resp.body, inspected)
    }
}

/// An agent's error reaches the control plane as it is, and no answer is turned into
/// success where there was none.
pub proof fn errors_stay_errors(body: Option<Body>, inspected: bool)
    ensures
        body matches Some(Body::Error { code, message }) ==> answer_of(body, inspected) == Some(
            ResponseView::Error(code, message@),
        ),
        body is None ==> (answer_of(body, inspected) matches Some(ResponseView::Error(code, _))
            && code == 500),
        answer_of(body, inspected) matches Some(ResponseView::Success(_)) ==> body is Some && !(
        body->Some_0 is Error),
{
}

/// Whether an answer is one to a command of this verb.
pub open spec fn replies_to(b: Body, c: CommandPayload) -> bool {
    match (c, b) {
        (CommandPayload::ImagesPull { .. }, Body::ImagesPull { .. }) => true,
        (CommandPayload::ImagesList, Body::ImagesList { .. }) => true,
        (CommandPayload::ImagesDelete { .. }, Body::ImagesDelete { .. }) => true,
        (CommandPayload::ContainersCreate { .. }, Body::ContainersCreate { .. }) => true,
        (CommandPayload::ContainersStart { .. }, Body::ContainersStart { .. }) => true,
        (CommandPayload::ContainersStop { .. }, Body::ContainersStop { .. }) => true,
        (CommandPayload::ContainersRestart { .. }, Body::ContainersRestart { .. }) => true,
        (CommandPayload::ContainersDelete { .. }, Body::ContainersDelete { .. }) => true,
        (CommandPayload::ContainersInspect { .. }, Body::ContainersInspect { .. }) => true,
        (CommandPayload::ContainersList, Body::ContainersList { .. }) => true,
        (CommandPayload::ContainersLogs { .. }, Body::ContainersLogs { .. }) => true,
        (CommandPayload::ContainersExec { .. }, Body::ContainersExec { .. }) => true,
        (CommandPayload::ContainersHealthcheckRun { .. }, Body::ContainersHealthcheckRun { .. }) => true,
        (CommandPayload::ApplyIngress { .. }, Body::IngressApply { .. }) => true,
        (CommandPayload::StopIngress { .. }, Body::IngressStop { .. }) => true,
        (CommandPayload::FirewallAllow { .. }, Body::FirewallAllow) => true,
        (CommandPayload::FirewallRevoke { .. }, Body::FirewallRevoke) => true,
        (CommandPayload::FirewallList { .. }, Body::FirewallList) => true,
        (CommandPayload::FirewallReconcile, Body::FirewallReconcile) => true,
        (CommandPayload::CooldLogs { .. }, Body::CooldLogs) => true,
        (CommandPayload::HostJwtSet { .. }, Body::HostJwtSet) => true,
        _ => false,
    }
}

/// An answer bears the name of the command that it answers, and that of no other.
pub proof fn answers_bear_the_name_of_their_command(c: CommandPayload, b: Body)
    ensures
        replies_to(b, c) <==> body_kind(Some(b)) == kind_of(c),
{
    names_differ();
}

/// No two verbs share a name, so that a capability for one does not let another through.
pub proof fn capabilities_are_told_apart(a: CommandPayload, b: CommandPayload)
    ensures
        kind_of(a) == kind_of(b) ==> same_verb(a, b),
{
    names_differ();
}

/// Whether two commands are of one verb.
pub open spec fn same_verb(a: CommandPayload, b: CommandPayload) -> bool {
    match (a, b) {
        (CommandPayload::ImagesPull { .. }, CommandPayload::ImagesPull { .. }) => true,
        (CommandPayload::ImagesList, CommandPayload::ImagesList) => true,
        (CommandPayload::ImagesDelete { .. }, CommandPayload::ImagesDelete { .. }) => true,
        (CommandPayload::ContainersCreate { .. }, CommandPayload::ContainersCreate { .. }) => true,
        (CommandPayload::ContainersStart { .. }, CommandPayload::ContainersStart { .. }) => true,
        (CommandPayload::ContainersStop { .. }, CommandPayload::ContainersStop { .. }) => true,
        (CommandPayload::ContainersRestart { .. }, CommandPayload::ContainersRestart { .. }) => true,
        (CommandPayload::ContainersDelete { .. }, CommandPayload::ContainersDelete { .. }) => true,
        (CommandPayload::ContainersInspect { .. }, CommandPayload::ContainersInspect { .. }) => true,
        (CommandPayload::ContainersList, CommandPayload::ContainersList) => true,
        (CommandPayload::ContainersLogs { .. }, CommandPayload::ContainersLogs { .. }) => true,
        (CommandPayload::ContainersExec { .. }, CommandPayload::ContainersExec { .. }) => true,
        (CommandPayload::ContainersHealthcheckRun { .. }, CommandPayload::ContainersHealthcheckRun { .. }) => true,
        (CommandPayload::ApplyIngress { .. }, CommandPayload::ApplyIngress { .. }) => true,
        (CommandPayload::StopIngress { .. }, CommandPayload::StopIngress { .. }) => true,
        (CommandPayload::FirewallAllow { .. }, CommandPayload::FirewallAllow { .. }) => true,
        (CommandPayload::FirewallRevoke { .. }, CommandPayload::FirewallRevoke { .. }) => true,
        (CommandPayload::FirewallList { .. }, CommandPayload::FirewallList { .. }) => true,
        (CommandPayload::FirewallReconcile, CommandPayload::FirewallReconcile) => true,
        (CommandPayload::CooldLogs { .. }, CommandPayload::CooldLogs { .. }) => true,
        (CommandPayload::HostJwtSet { .. }, CommandPayload::HostJwtSet { .. }) => true,
        _ => false,
    }
}

/// The verbs on images, containers, the ingress and the firewall are named under their subject,
/// and each by its verb.
pub proof fn verbs_are_named_under_their_subject(c: CommandPayload)
    ensures
        c is ImagesPull ==> kind_of(c) == "images.pull"@,
        c is ImagesList ==> kind_of(c) == "images.list"@,
        c is ImagesDelete ==> kind_of(c) == "images.delete"@,
        c is ContainersCreate ==> kind_of(c) == "containers.create"@,
        c is ContainersStart ==> kind_of(c) == "containers.start"@,
        c is ContainersStop ==> kind_of(c) == "containers.stop"@,
        c is ContainersRestart ==> kind_of(c) == "containers.restart"@,
        c is ContainersDelete ==> kind_of(c) == "containers.delete"@,
        c is ContainersInspect ==> kind_of(c) == "containers.inspect"@,
        c is ContainersList ==> kind_of(c) == "containers.list"@,
        c is ContainersLogs ==> kind_of(c) == "containers.logs"@,
        c is ContainersExec ==> kind_of(c) == "containers.exec"@,
        c is ContainersHealthcheckRun ==> kind_of(c) == "containers.healthcheck.run"@,
        c is ApplyIngress ==> kind_of(c) == "ingress.apply"@,
        c is StopIngress ==> kind_of(c) == "ingress.stop"@,
        c is FirewallAllow ==> kind_of(c) == "firewall.allow"@,
        c is FirewallRevoke ==> kind_of(c) == "firewall.revoke"@,
        c is FirewallList ==> kind_of(c) == "firewall.list"@,
        c is FirewallReconcile ==> kind_of(c) == "firewall.reconcile"@,
        c is CooldLogs ==> kind_of(c) == "coold.logs"@,
        c is HostJwtSet ==> kind_of(c) == "host.jwt.set"@,
{
}

/// What tells the names apart: their lengths, and single letters where these agree.
proof fn names_differ()
    ensures
        "images.pull"@.len() == 11,
        "images.pull"@[7] == 'p',
        "images.list"@.len() == 11,
        "images.list"@[7] == 'l',
        "images.delete"@.len() == 13,
        "images.delete"@[1] == 'm',
        "containers.create"@.len() == 17,
        "containers.create"@[11] == 'c',
        "containers.start"@.len() == 16,
        "containers.start"@[2] == 'n',
        "containers.stop"@.len() == 15,
        "containers.stop"@[13] == 'o',
        "containers.restart"@.len() == 18,
        "containers.restart"@[11] == 'r',
        "containers.delete"@.len() == 17,
        "containers.delete"@[11] == 'd',
        "containers.inspect"@.len() == 18,
        "containers.inspect"@[11] == 'i',
        "containers.list"@.len() == 15,
        "containers.list"@[13] == 's',
        "containers.logs"@.len() == 15,
        "containers.logs"@[13] == 'g',
        "containers.exec"@.len() == 15,
        "containers.exec"@[13] == 'e',
        "containers.healthcheck.run"@.len() == 26,
        "ingress.apply"@.len() == 13,
        "ingress.apply"@[1] == 'n',
        "ingress.stop"@.len() == 12,
        "ingress.stop"@[0] == 'i',
        "firewall.allow"@.len() == 14,
        "firewall.revoke"@.len() == 15,
        "firewall.revoke"@[13] == 'k',
        "firewall.list"@.len() == 13,
        "firewall.list"@[1] == 'i',
        "firewall.reconcile"@.len() == 18,
        "firewall.reconcile"@[11] == 'c',
        "coold.logs"@.len() == 10,
        "host.jwt.set"@.len() == 12,
        "host.jwt.set"@[0] == 'h',
        "corrosion.tables"@.len() == 16,
        "corrosion.tables"@[2] == 'r',
        "error"@.len() == 5,
        "none"@.len() == 4,
{
    reveal_strlit("images.pull");
    reveal_strlit("images.list");
    reveal_strlit("images.delete");
    reveal_strlit("containers.create");
    reveal_strlit("containers.start");
    reveal_strlit("containers.stop");
    reveal_strlit("containers.restart");
    reveal_strlit("containers.delete");
    reveal_strlit("containers.inspect");
    reveal_strlit("containers.list");
    reveal_strlit("containers.logs");
    reveal_strlit("containers.exec");
    reveal_strlit("containers.healthcheck.run");
    reveal_strlit("ingress.apply");
    reveal_strlit("ingress.stop");
    reveal_strlit("firewall.allow");
    reveal_strlit("firewall.revoke");
    reveal_strlit("firewall.list");
    reveal_strlit("firewall.reconcile");
    reveal_strlit("coold.logs");
    reveal_strlit("host.jwt.set");
    reveal_strlit("corrosion.tables");
    reveal_strlit("error");
    reveal_strlit("none");
}

/// What a list of fields holds under a name.
pub open spec fn under(fields: Seq<(Seq<char>, FieldView)>, name: Seq<char>) -> Option<FieldView>
    decreases fields.len(),
{
    if fields.len() == 0 {
        None
    } else if fields[0].0 == name {
        Some(fields[0].1)
    } else {
        under(fields.drop_first(), name)
    }
}

/// Whether an answer is a success that holds exactly this under this name.
pub open spec fn gives(r: Option<ResponseView>, name: Seq<char>, value: FieldView) -> bool {
    r matches Some(ResponseView::Success(DataView::Fields(f))) && under(f, name) == Some(value)
}

proof fn one_under(name: Seq<char>, value: FieldView)
    ensures
        under(seq![(name, value)], name) == Some(value),
{
}

proof fn two_under(n: Seq<char>, v: FieldView, m: Seq<char>, w: FieldView)
    requires
        n != m,
    ensures
        under(seq![(n, v), (m, w)], n) == Some(v),
        under(seq![(n, v), (m, w)], m) == Some(w),
{
    assert(seq![(n, v), (m, w)].drop_first() =~= seq![(m, w)]);
    one_under(m, w);
}

/// What an agent answers reaches the control plane under the name it has: the digest of an
/// image that was pulled, the id of a container that was made, the code with which a command
/// ended, and what any of them put out.
pub proof fn answers_keep_their_values(body: Option<Body>, inspected: bool)
    ensures
        ({
            let r = answer_of(body, inspected);
            match body {
                Some(Body::ImagesPull { digest, output }) => gives(
                    r,
                    "digest"@,
                    FieldView::Text(digest@),
                ) && gives(r, "output"@, FieldView::Text(output@)),
                Some(Body::ContainersCreate { id }) => gives(r, "id"@, FieldView::Text(id@)),
                Some(Body::ContainersExec { exit_code, output }) => gives(
                    r,
                    "exit_code"@,
                    FieldView::Number(exit_code as i64),
                ) && gives(r, "output"@, FieldView::Text(output@)),
                Some(Body::ImagesDelete { output })
                | Some(Body::ContainersStart { output })
                | Some(Body::ContainersStop { output })
                | Some(Body::ContainersRestart { output })
                | Some(Body::ContainersDelete { output })
                | Some(Body::ContainersLogs { output })
                | Some(Body::ContainersHealthcheckRun { output })
                | Some(Body::IngressApply { output })
                | Some(Body::IngressStop { output }) => gives(
                    r,
                    "output"@,
                    FieldView::Text(output@),
                ),
                Some(Body::ContainersInspect { json }) => if inspected {
                    r == Some(ResponseView::Success(DataView::Document(json@)))
                } else {
                    gives(r, "raw"@, FieldView::Text(json@))
                },
                Some(Body::HostJwtSet) => r matches Some(ResponseView::Success(_)),
                _ => true,
            }
        }),
{
    reveal_strlit("digest");
    reveal_strlit("output");
    reveal_strlit("exit_code");
    assert("digest"@[0] != "output"@[0]);
    assert("exit_code"@[0] != "output"@[0]);
    match body {
        Some(Body::ImagesPull { digest, output }) => {
            two_under("digest"@, FieldView::Text(digest@), "output"@, FieldView::Text(output@));
        },
        Some(Body::ContainersExec { exit_code, output }) => {
            two_under(
                "exit_code"@,
                FieldView::Number(exit_code as i64),
                "output"@,
                FieldView::Text(output@),
            );
        },
        _ => {},
    }
}

/// A list of containers reaches the control plane with one row for each, in order, and each row
/// holds what the agent says of its container under its own name.
pub proof fn containers_are_listed_as_they_are(
    containers: Vec<ContainerSummary>,
    inspected: bool,
    i: int,
)
    requires
        0 <= i < containers@.len(),
    ensures
        answer_of(Some(Body::ContainersList { containers }), inspected) matches Some(
            ResponseView::Success(DataView::Rows(rows)),
        ) && rows.len() == containers@.len() && under(rows[i], "id"@) == Some(
            FieldView::Text(containers@[i].id@),
        ) && under(rows[i], "name"@) == Some(FieldView::Text(containers@[i].name@)) && under(
            rows[i],
            "image"@,
        ) == Some(FieldView::Text(containers@[i].image@)) && under(rows[i], "state"@) == Some(
            FieldView::Text(containers@[i].state@),
        ) && under(rows[i], "networks"@) == Some(
            FieldView::Texts(text::views(containers@[i].networks@)),
        ),
{
    reveal_strlit("id");
    reveal_strlit("name");
    reveal_strlit("image");
    reveal_strlit("state");
    reveal_strlit("networks");
    assert("id"@.len() == 2 && "name"@.len() == 4 && "networks"@.len() == 8);
    assert("image"@[0] != "state"@[0]);
    reveal_with_fuel(under, 6);
}

/// A list of images reaches the control plane with one row for each, in order, and each row
/// holds what the agent says of its image under its own name.
pub proof fn images_are_listed_as_they_are(images: Vec<ImageSummary>, inspected: bool, i: int)
    requires
        0 <= i < images@.len(),
    ensures
        answer_of(Some(Body::ImagesList { images }), inspected) matches Some(
            ResponseView::Success(DataView::Rows(rows)),
        ) && rows.len() == images@.len() && under(rows[i], "id"@) == Some(
            FieldView::Text(images@[i].id@),
        ) && under(rows[i], "repo_tags"@) == Some(
            FieldView::Texts(text::views(images@[i].repo_tags@)),
        ) && under(rows[i], "repo_digests"@) == Some(
            FieldView::Texts(text::views(images@[i].repo_digests@)),
        ) && under(rows[i], "size"@) == Some(FieldView::Number(images@[i].size)) && under(
            rows[i],
            "created"@,
        ) == Some(FieldView::Text(images@[i].created@)),
{
    reveal_strlit("id");
    reveal_strlit("repo_tags");
    reveal_strlit("repo_digests");
    reveal_strlit("size");
    reveal_strlit("created");
    assert("id"@.len() == 2 && "repo_tags"@.len() == 9 && "repo_digests"@.len() == 12
        && "size"@.len() == 4 && "created"@.len() == 7);
    reveal_with_fuel(under, 6);
}

} // verus!
