//! Replies to requests: a status and a body.

use crate::models::session::Session;
use vstd::prelude::*;

verus! {

/// The status of a reply.
#[derive(Clone, Copy, Debug, PartialEq, Eq, Structural)]
pub enum Status {
    Success,
    Created,
    BadRequest,
    Unauthorized,
}

impl Status {
    /// The number of the status.
    pub open spec fn code_spec(self) -> u16 {
        match self {
            Status::Success => 200,
            Status::Created => 201,
            Status::BadRequest => 400,
            Status::Unauthorized => 401,
        }
    }

    /// The number of the status.
    #[verifier::when_used_as_spec(code_spec)]
    pub fn code(self) -> (code: u16)
        ensures
            code == self.code_spec(),
    {
        match self {
            Status::Success => 200,
            Status::Created => 201,
            Status::BadRequest => 400,
            Status::Unauthorized => 401,
        }
    }
}

/// A listed session: its id and its title.
#[derive(Debug, PartialEq, Eq)]
pub struct SessionPresent {
    pub id: u128,
    pub title: String,
}

impl View for SessionPresent {
    type V = (u128, Seq<char>);

    open spec fn view(&self) -> (u128, Seq<char>) {
        (self.id, self.title@)
    }
}

impl Clone for SessionPresent {
    fn clone(&self) -> (copy: Self)
        ensures
            copy@ == self@,
    {
        SessionPresent { id: self.id, title: self.title.clone() }
    }
}

impl From<Session> for SessionPresent {
    fn from(value: Session) -> (shown: SessionPresent) {
        SessionPresent { id: value.id, title: value.title }
    }
}

impl vstd::std_specs::convert::FromSpecImpl<Session> for SessionPresent {
    open spec fn obeys_from_spec() -> bool {
        true
    }

    open spec fn from_spec(value: Session) -> SessionPresent {
        SessionPresent { id: value.id, title: value.title }
    }
}

/// The body of a reply: an object with no field, with the field
/// `connection`, with the field `servers`, or with the field `error`.
#[derive(Debug, PartialEq, Eq)]
pub enum Body {
    Empty,
    Connection(String),
    Servers(Vec<SessionPresent>),
    Error(String),
}

/// The body of a reply as a mathematical value.
pub enum BodyView {
    Empty,
    Connection(Seq<char>),
    Servers(Seq<(u128, Seq<char>)>),
    Error(Seq<char>),
}

impl View for Body {
    type V = BodyView;

    open spec fn view(&self) -> BodyView {
        match self {
            Body::Empty => BodyView::Empty,
            Body::Connection(text) => BodyView::Connection(text@),
            Body::Servers(list) => BodyView::Servers(list@.map_values(|s: SessionPresent| s@)),
            Body::Error(text) => BodyView::Error(text@),
        }
    }
}

/// A reply to a request.
#[derive(Debug, PartialEq, Eq)]
pub struct Reply {
    pub status: Status,
    pub body: Body,
}

/// A reply as a mathematical value.
pub struct ReplyView {
    pub status: Status,
    pub body: BodyView,
}

impl View for Reply {
    type V = ReplyView;

    open spec fn view(&self) -> ReplyView {
        ReplyView { status: self.status, body: self.body@ }
    }
}

/// The reply with status 200 and the given body.
pub fn ok_json(body: Body) -> (reply: Reply)
    ensures
        reply@ == (ReplyView { status: Status::Success, body: body@ }),
{
    Reply { status: Status::Success, body }
}

/// The reply with status 200 and an empty object.
pub fn just_ok() -> (reply: Reply)
    ensures
        reply@ == (ReplyView { status: Status::Success, body: BodyView::Empty }),
{
    Reply { status: Status::Success, body: Body::Empty }
}

/// The reply with status 201 and the given body.
pub fn created_json(body: Body) -> (reply: Reply)
    ensures
        reply@ == (ReplyView { status: Status::Created, body: body@ }),
{
    Reply { status: Status::Created, body }
}

/// The reply with status 201 and an empty object.
pub fn just_created() -> (reply: Reply)
    ensures
        reply@ == (ReplyView { status: Status::Created, body: BodyView::Empty }),
{
    Reply { status: Status::Created, body: Body::Empty }
}

/// The reply with status 400 and the given body.
pub fn bad_request_json(body: Body) -> (reply: Reply)
    ensures
        reply@ == (ReplyView { status: Status::BadRequest, body: body@ }),
{
    Reply { status: Status::BadRequest, body }
}

/// The reply with status 400 and an empty object.
pub fn just_bad_request() -> (reply: Reply)
    ensures
        reply@ == (ReplyView { status: Status::BadRequest, body: BodyView::Empty }),
{
    Reply { status: Status::BadRequest, body: Body::Empty }
}

/// The reply with status 401 and the given body.
pub fn unauthorized_json(body: Body) -> (reply: Reply)
    ensures
        reply@ == (ReplyView { status: Status::Unauthorized, body: body@ }),
{
    Reply { status: Status::Unauthorized, body }
}

/// The reply with status 401 and an empty object.
pub fn just_unauthorized() -> (reply: Reply)
    ensures
        reply@ == (ReplyView { status: Status::Unauthorized, body: BodyView::Empty }),
{
    Reply { status: Status::Unauthorized, body: Body::Empty }
}

} // verus!
