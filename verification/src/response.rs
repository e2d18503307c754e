//! What a handler answers with: a status, a body, and a line for the
//! server's log where something went wrong.

use crate::models::Event;
use crate::models::EventView;
use crate::models::Team;
use crate::models::TeamView;
use crate::models::event_rows;
use crate::models::optional_text;
use crate::models::team_rows;
use vstd::prelude::*;

verus! {

/// The HTTP statuses that the service answers with.
#[derive(Debug, Clone, Copy, PartialEq, Eq, Structural)]
pub enum Status {
    Success,
    Created,
    NotFound,
    InternalServerError,
}

impl Status {
    /// The status code, as a number.
    pub open spec fn spec_code(self) -> u16 {
        match self {
            Status::Success => 200,
            Status::Created => 201,
            Status::NotFound => 404,
            Status::InternalServerError => 500,
        }
    }

    /// The status code, as a number.
    #[verifier::when_used_as_spec(spec_code)]
    pub fn code(self) -> (code: u16)
        ensures
            code == self.spec_code(),
    {
        match self {
            Status::Success => 200,
            Status::Created => 201,
            Status::NotFound => 404,
            Status::InternalServerError => 500,
        }
    }
}

/// The closed set of bodies that a reply can carry. Rows are sent as JSON,
/// a text as it is.
#[derive(Debug, PartialEq, Eq)]
pub enum Body {
    Text(String),
    Events(Vec<Event>),
    Teams(Vec<Team>),
    Team(Team),
}

/// What a `Body` holds.
pub enum BodyView {
    Text(Seq<char>),
    Events(Seq<EventView>),
    Teams(Seq<TeamView>),
    Team(TeamView),
}

impl View for Body {
    type V = BodyView;

    open spec fn view(&self) -> BodyView {
        match *self {
            Body::Text(text) => BodyView::Text(text@),
            Body::Events(rows) => BodyView::Events(event_rows(rows)),
            Body::Teams(rows) => BodyView::Teams(team_rows(rows)),
            Body::Team(row) => BodyView::Team(row@),
        }
    }
}

/// A handler's answer. `status` and `body` go to the client; `log`, where
/// there is one, goes to the server's log and nowhere else.
#[derive(Debug, PartialEq, Eq)]
pub struct Reply {
    pub status: Status,
    pub body: Body,
    pub log: Option<String>,
}

/// What a `Reply` holds.
pub struct ReplyView {
    pub status: Status,
    pub body: BodyView,
    pub log: Option<Seq<char>>,
}

impl View for Reply {
    type V = ReplyView;

    open spec fn view(&self) -> ReplyView {
        ReplyView { status: self.status, body: self.body@, log: optional_text(self.log) }
    }
}

/// A reply that carries a text and logs nothing.
pub open spec fn plain(status: Status, text: Seq<char>) -> ReplyView {
    ReplyView { status, body: BodyView::Text(text), log: None }
}

/// The reply to a request that the store failed: a server error with a
/// generic text for the client, and a line for the log.
pub open spec fn failure(text: Seq<char>, log: Seq<char>) -> ReplyView {
    ReplyView { status: Status::InternalServerError, body: BodyView::Text(text), log: Some(log) }
}

/// What of a reply reaches the client: the status and the body, not the log.
pub open spec fn sent(reply: ReplyView) -> (Status, BodyView) {
    (reply.status, reply.body)
}

} // verus!
