//! Requests of the control plane: how each is answered.

use vstd::prelude::*;
use vstd::string::StringExecFns;
use crate::flux::envelope::{ResponseBody, ResponseEnvelope, ResponseView};
use crate::split;

verus! {

/// The HTTP status of an error code: the code itself where it is a status of an error.
pub open spec fn status_of(code: u32) -> u16 {
    if 400 <= code <= 599 {
        code as u16
    } else {
        500
    }
}

pub fn code_to_status(code: u32) -> (r: u16)
    ensures
        r == status_of(code),
{
    if 400 <= code && code <= 599 {
        code as u16
    } else {
        500
    }
}

/// The answer to a request that failed, with its HTTP status.
pub fn coold_err(request_id: &str, code: u32, message: &str) -> (r: (u16, ResponseEnvelope))
    ensures
        r.0 == status_of(code),
        r.1.request_id@ == request_id@,
        r.1.body@ == ResponseView::Error(code, message@),
{
    (
        code_to_status(code),
        ResponseEnvelope {
            request_id: request_id.to_owned(),
            body: ResponseBody::Error { code, message: message.to_owned() },
        },
    )
}

/// What is done with a request next, on its way to an agent and back.
#[derive(Clone, Copy, Debug, PartialEq, Eq, Structural)]
pub enum Stage {
    /// Find out whether its host is there and may do it.
    Route,
    /// Note it down.
    Note,
    /// Let its caller wait.
    Park,
    /// Look up the stream of its host.
    Find,
    /// Send it.
    Send,
    /// Wait for its answer.
    Wait,
}

/// What happens to a request on its way to an agent and back.
#[derive(Clone, Copy, Debug, PartialEq, Eq, Structural)]
pub enum DispatchEvent {
    /// Its host is there and may do it.
    Routed,
    /// It was noted down.
    Inserted,
    /// One with its id is under way already.
    Duplicate,
    /// Too many are under way.
    AtCapacity,
    /// Its caller waits.
    Parked,
    /// It was lost before its caller could wait.
    Lost,
    /// The stream of its host is there.
    StreamFound,
    /// The stream of its host is gone.
    StreamGone,
    /// It was sent.
    Sent,
    /// Its host does not keep up.
    QueueFull,
    /// The stream of its host has closed.
    StreamClosed,
    /// It was answered.
    Answered,
    /// The stream of its host ended before it was answered.
    StreamDropped,
    /// It was given up.
    SinkDropped,
    /// It took too long.
    TimedOut,
}

/// What is done then: the next thing, or the answer is handed on, or an error is answered,
/// after forgetting the request where it is still noted down.
#[derive(Clone, Copy, Debug)]
pub enum DispatchNext {
    Proceed(Stage),
    Answer,
    Refuse { code: u32, message: &'static str, forget: bool },
}

/// What a `DispatchNext` says.
#[verifier::ext_equal]
pub enum NextView {
    Proceed(Stage),
    Answer,
    Refuse(u32, Seq<char>, bool),
}

impl View for DispatchNext {
    type V = NextView;

    open spec fn view(&self) -> NextView {
        match self {
            DispatchNext::Proceed(stage) => NextView::Proceed(*stage),
            DispatchNext::Answer => NextView::Answer,
            DispatchNext::Refuse { code, message, forget } => NextView::Refuse(
                *code,
                message@,
                *forget,
            ),
        }
    }
}

/// What a thing that was done can come to.
pub open spec fn comes_to(stage: Stage, event: DispatchEvent) -> bool {
    match stage {
        Stage::Route => event is Routed,
        Stage::Note => event is Inserted || event is Duplicate || event is AtCapacity,
        Stage::Park => event is Parked || event is Lost,
        Stage::Find => event is StreamFound || event is StreamGone,
        Stage::Send => event is Sent || event is QueueFull || event is StreamClosed,
        Stage::Wait => event is Answered || event is StreamDropped || event is SinkDropped
            || event is TimedOut,
    }
}

/// What is done on an event of a request.
pub open spec fn next_of(event: DispatchEvent) -> NextView {
    match event {
        DispatchEvent::Routed => NextView::Proceed(Stage::Note),
        DispatchEvent::Inserted => NextView::Proceed(Stage::Park),
        DispatchEvent::Parked => NextView::Proceed(Stage::Find),
        DispatchEvent::StreamFound => NextView::Proceed(Stage::Send),
        DispatchEvent::Sent => NextView::Proceed(Stage::Wait),
        DispatchEvent::Answered => NextView::Answer,
        DispatchEvent::Duplicate => NextView::Refuse(409, "request_id already in flight"@, false),
        DispatchEvent::AtCapacity => NextView::Refuse(
            503,
            "flux at pending-dispatch capacity"@,
            false,
        ),
        DispatchEvent::Lost => NextView::Refuse(500, "pending state lost after insert"@, false),
        DispatchEvent::StreamGone => NextView::Refuse(503, "host stream gone"@, true),
        DispatchEvent::QueueFull => NextView::Refuse(503, "host command queue full"@, true),
        DispatchEvent::StreamClosed => NextView::Refuse(503, "host stream send failed"@, true),
        DispatchEvent::StreamDropped => NextView::Refuse(503, "host stream gone"@, false),
        DispatchEvent::SinkDropped => NextView::Refuse(504, "dispatch timeout"@, false),
        DispatchEvent::TimedOut => NextView::Refuse(504, "dispatch timeout"@, false),
    }
}

fn refuse(code: u32, message: &'static str, forget: bool) -> (r: DispatchNext)
    ensures
        r@ == NextView::Refuse(code, message@, forget),
{
    DispatchNext::Refuse { code, message, forget }
}

/// What is done with a request once a stage of its way has come to this event.
pub fn coold_dispatch(stage: Stage, event: DispatchEvent) -> (r: DispatchNext)
    requires
        comes_to(stage, event),
    ensures
        r@ == next_of(event),
{
    match event {
        DispatchEvent::Routed => DispatchNext::Proceed(Stage::Note),
        DispatchEvent::Inserted => DispatchNext::Proceed(Stage::Park),
        DispatchEvent::Parked => DispatchNext::Proceed(Stage::Find),
        DispatchEvent::StreamFound => DispatchNext::Proceed(Stage::Send),
        DispatchEvent::Sent => DispatchNext::Proceed(Stage::Wait),
        DispatchEvent::Answered => DispatchNext::Answer,
        DispatchEvent::Duplicate => refuse(409, "request_id already in flight", false),
        DispatchEvent::AtCapacity => refuse(503, "flux at pending-dispatch capacity", false),
        DispatchEvent::Lost => refuse(500, "pending state lost after insert", false),
        DispatchEvent::StreamGone => refuse(503, "host stream gone", true),
        DispatchEvent::QueueFull => refuse(503, "host command queue full", true),
        DispatchEvent::StreamClosed => refuse(503, "host stream send failed", true),
        DispatchEvent::StreamDropped => refuse(503, "host stream gone", false),
        DispatchEvent::SinkDropped => refuse(504, "dispatch timeout", false),
        DispatchEvent::TimedOut => refuse(504, "dispatch timeout", false),
    }
}

/// Whether a request can go this way from a stage on: each event is one that its stage comes
/// to, and all but the last lead to the next stage.
pub open spec fn goes(stage: Stage, events: Seq<DispatchEvent>) -> bool
    decreases events.len(),
{
    events.len() > 0 && comes_to(stage, events[0]) && match next_of(events[0]) {
        NextView::Proceed(next) => goes(next, events.skip(1)),
        _ => events.len() == 1,
    }
}

/// A request is answered only after it was routed, noted down, parked, given a stream and
/// sent, in this order; and it is noted down before its caller waits, and its caller waits
/// before it is sent.
pub proof fn answers_come_in_order(events: Seq<DispatchEvent>)
    requires
        goes(Stage::Route, events),
    ensures
        events.len() <= 6,
        events.last() is Answered <==> events == seq![
            DispatchEvent::Routed,
            DispatchEvent::Inserted,
            DispatchEvent::Parked,
            DispatchEvent::StreamFound,
            DispatchEvent::Sent,
            DispatchEvent::Answered,
        ],
        next_of(events.last()) is Answer || next_of(events.last()) is Refuse,
{
    reveal_with_fuel(goes, 7);
    let a = events.skip(1);
    let b = a.skip(1);
    let c = b.skip(1);
    let d = c.skip(1);
    let e = d.skip(1);
    if events.len() > 1 {
        assert(a[0] == events[1]);
    }
    if events.len() > 2 {
        assert(b[0] == events[2]);
    }
    if events.len() > 3 {
        assert(c[0] == events[3]);
    }
    if events.len() > 4 {
        assert(d[0] == events[4]);
    }
    if events.len() > 5 {
        assert(e[0] == events[5]);
    }
    if events.last() is Answered {
        assert(events =~= seq![
            DispatchEvent::Routed,
            DispatchEvent::Inserted,
            DispatchEvent::Parked,
            DispatchEvent::StreamFound,
            DispatchEvent::Sent,
            DispatchEvent::Answered,
        ]);
    }
}

/// A request that is refused is answered with the status of an error, and that status is
/// the code it is refused with.
pub proof fn refusals_are_errors(event: DispatchEvent)
    ensures
        next_of(event) matches NextView::Refuse(code, _, _) ==> 400 <= code <= 599 && status_of(
            code,
        ) == code,
{
}

/// Whether the id of a token to revoke is missing.
pub fn missing_jti(jti: &str) -> (r: Option<(u16, &'static str)>)
    ensures
        match r {
            Some((status, error)) => split::is_blank(jti@) && status == 400 && error@
                == "jti is required"@,
            None => !split::is_blank(jti@),
        },
{
    if split::blank(jti) {
        Some((400, "jti is required"))
    } else {
        None
    }
}

/// Who may use the socket: its owner, and a group where one is named. The mode in octal is
/// 660 with a group and 600 without one.
pub fn socket_mode(group: &Option<String>) -> (r: u32)
    ensures
        r == (if group is Some {
            6u32 * 64 + 6 * 8
        } else {
            6u32 * 64
        }),
{
    match group {
        Some(_) => 432,
        None => 384,
    }
}

} // verus!
