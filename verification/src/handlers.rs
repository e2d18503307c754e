//! One handler per operation of the service. A handler takes what the store
//! answered to the operation's statement and decides the reply: rows are
//! passed on as they came, a new identity is confirmed in a text, a missing
//! row is reported as not found, and a failure of the store becomes a server
//! error whose text tells the client nothing of the failure.

use crate::decimal::append_decimal;
use crate::decimal::decimal;
use crate::models::CreateEventView;
use crate::models::Event;
use crate::models::EventView;
use crate::models::Team;
use crate::models::TeamView;
use crate::models::event_rows;
use crate::models::team_rows;
use crate::response::Body;
use crate::response::BodyView;
use crate::response::Reply;
use crate::response::ReplyView;
use crate::response::Status;
use crate::response::failure;
use crate::response::plain;
use crate::response::sent;
use crate::storage::Insertion;
use crate::storage::InsertionView;
use crate::storage::StorageError;
use crate::storage::ValueView;
use crate::storage::insert_event;
use crate::storage::select_teams_of_event;
use vstd::prelude::*;

verus! {

/// The reply to the creation of a team.
pub open spec fn team_created(outcome: InsertionView) -> ReplyView {
    match outcome {
        InsertionView::Created(team_id) => plain(
            Status::Created,
            "Team created with ID: "@ + decimal(team_id),
        ),
        InsertionView::Unreadable(detail) => failure(
            "Failed to process team creation"@,
            "Failed to get team_id from row: "@ + detail,
        ),
        InsertionView::Failed(detail) => failure(
            "Failed to create team"@,
            "Error creating team: "@ + detail,
        ),
    }
}

/// The reply to the creation of an event.
pub open spec fn event_created(outcome: InsertionView) -> ReplyView {
    match outcome {
        InsertionView::Created(event_id) => plain(
            Status::Created,
            "Event created with ID: "@ + decimal(event_id),
        ),
        InsertionView::Unreadable(detail) => failure(
            "Failed to process event creation"@,
            "Failed to get event_id from row: "@ + detail,
        ),
        InsertionView::Failed(detail) => failure(
            "Failed to create event"@,
            "Error creating event: "@ + detail,
        ),
    }
}

/// The reply to the deletion of an event, of which the store removed
/// `outcome` rows: success for exactly one row, not found for any other
/// number.
pub open spec fn event_deleted(outcome: Result<int, Seq<char>>) -> ReplyView {
    match outcome {
        Ok(removed) => if removed == 1 {
            plain(Status::Success, "Event deleted"@)
        } else {
            plain(Status::NotFound, "Event not found"@)
        },
        Err(detail) => failure("Failed to delete event"@, "Error deleting event: "@ + detail),
    }
}

/// The reply to the listing of the teams of the event `event_id`: the rows
/// as the store gave them.
pub open spec fn teams_listed(event_id: int, outcome: Result<Seq<TeamView>, Seq<char>>) -> ReplyView {
    match outcome {
        Ok(rows) => ReplyView { status: Status::Success, body: BodyView::Teams(rows), log: None },
        Err(detail) => failure(
            "Failed to fetch teams"@,
            "Error fetching teams for event "@ + decimal(event_id) + ": "@ + detail,
        ),
    }
}

/// The reply to the reading of one team: the row, or not found where the
/// store has none.
pub open spec fn team_read(outcome: Result<Option<TeamView>, Seq<char>>) -> ReplyView {
    match outcome {
        Ok(Some(row)) => ReplyView { status: Status::Success, body: BodyView::Team(row), log: None },
        Ok(None) => plain(Status::NotFound, "Team not found"@),
        Err(detail) => failure("Failed to fetch team"@, "Error fetching team: "@ + detail),
    }
}

/// The reply to the listing of all events: the rows as the store gave them.
pub open spec fn events_listed(outcome: Result<Seq<EventView>, Seq<char>>) -> ReplyView {
    match outcome {
        Ok(rows) => ReplyView { status: Status::Success, body: BodyView::Events(rows), log: None },
        Err(detail) => failure("Failed to fetch events"@, "Error fetching events: "@ + detail),
    }
}

/// What a count of removed rows, or the failure to remove any, holds.
pub open spec fn removal(outcome: Result<u64, StorageError>) -> Result<int, Seq<char>> {
    match outcome {
        Ok(removed) => Ok(removed as int),
        Err(error) => Err(error@),
    }
}

/// What a list of teams, or the failure to read it, holds.
pub open spec fn team_listing(outcome: Result<Vec<Team>, StorageError>) -> Result<
    Seq<TeamView>,
    Seq<char>,
> {
    match outcome {
        Ok(rows) => Ok(team_rows(rows)),
        Err(error) => Err(error@),
    }
}

/// What a team read by its identity, or the failure to read it, holds.
pub open spec fn team_reading(outcome: Result<Option<Team>, StorageError>) -> Result<
    Option<TeamView>,
    Seq<char>,
> {
    match outcome {
        Ok(Some(row)) => Ok(Some(row@)),
        Ok(None) => Ok(None),
        Err(error) => Err(error@),
    }
}

/// What a list of events, or the failure to read it, holds.
pub open spec fn event_listing(outcome: Result<Vec<Event>, StorageError>) -> Result<
    Seq<EventView>,
    Seq<char>,
> {
    match outcome {
        Ok(rows) => Ok(event_rows(rows)),
        Err(error) => Err(error@),
    }
}

/// A reply that carries `text` and logs nothing.
fn answer(status: Status, text: String) -> (reply: Reply)
    ensures
        reply@ == plain(status, text@),
{
    Reply { status, body: Body::Text(text), log: None }
}

/// The reply to a failure of the store: `text` for the client, and for the
/// log `prefix` followed by the failure's detail.
fn fail(text: &str, prefix: &str, error: StorageError) -> (reply: Reply)
    ensures
        reply@ == failure(text@, prefix@ + error@),
{
    let mut log = String::from_str(prefix);
    log.append(error.detail.as_str());
    Reply {
        status: Status::InternalServerError,
        body: Body::Text(String::from_str(text)),
        log: Some(log),
    }
}

/// Answers the creation of a team: 201 with the new identity in the text,
/// or 500 where the store failed.
pub fn create_team(outcome: Insertion) -> (reply: Reply)
    ensures
        reply@ == team_created(outcome@),
{
    match outcome {
        Insertion::Created(team_id) => {
            let mut text = String::from_str("Team created with ID: ");
            append_decimal(&mut text, team_id);
            answer(Status::Created, text)
        },
        Insertion::Unreadable(error) => fail(
            "Failed to process team creation",
            "Failed to get team_id from row: ",
            error,
        ),
        Insertion::Failed(error) => fail("Failed to create team", "Error creating team: ", error),
    }
}

/// Answers the creation of an event: 201 with the new identity in the text,
/// or 500 where the store failed.
pub fn create_event(outcome: Insertion) -> (reply: Reply)
    ensures
        reply@ == event_created(outcome@),
{
    match outcome {
        Insertion::Created(event_id) => {
            let mut text = String::from_str("Event created with ID: ");
            append_decimal(&mut text, event_id);
            answer(Status::Created, text)
        },
        Insertion::Unreadable(error) => fail(
            "Failed to process event creation",
            "Failed to get event_id from row: ",
            error,
        ),
        Insertion::Failed(error) => fail("Failed to create event", "Error creating event: ", error),
    }
}

/// Answers the deletion of an event, given the number of rows that the store
/// removed: 200 for exactly one row, 404 for any other number, 500 where the
/// store failed. A deletion that found no row is never a server error.
pub fn delete_event(outcome: Result<u64, StorageError>) -> (reply: Reply)
    ensures
        reply@ == event_deleted(removal(outcome)),
        reply.status == Status::Success <==> outcome == Ok::<u64, StorageError>(1),
        reply.status == Status::NotFound <==> outcome is Ok && outcome != Ok::<u64, StorageError>(1),
        reply.status == Status::InternalServerError <==> outcome is Err,
{
    match outcome {
        Ok(removed) => if removed == 1 {
            answer(Status::Success, String::from_str("Event deleted"))
        } else {
            answer(Status::NotFound, String::from_str("Event not found"))
        },
        Err(error) => fail("Failed to delete event", "Error deleting event: ", error),
    }
}

/// Answers the listing of the teams of the event `event_id`: 200 with
/// exactly the rows that the store gave, in its order and also where there
/// are none, or 500 where the store failed.
pub fn get_teams_for_event(event_id: i32, outcome: Result<Vec<Team>, StorageError>) -> (reply:
    Reply)
    ensures
        reply@ == teams_listed(event_id as int, team_listing(outcome)),
        outcome matches Ok(rows) ==> reply.body == Body::Teams(rows),
{
    match outcome {
        Ok(rows) => Reply { status: Status::Success, body: Body::Teams(rows), log: None },
        Err(error) => {
            let mut prefix = String::from_str("Error fetching teams for event ");
            append_decimal(&mut prefix, event_id);
            prefix.append(": ");
            fail("Failed to fetch teams", prefix.as_str(), error)
        },
    }
}

/// Answers the reading of one team: 200 with the row, 404 where the store
/// has no such row, or 500 where the store failed.
pub fn get_team(outcome: Result<Option<Team>, StorageError>) -> (reply: Reply)
    ensures
        reply@ == team_read(team_reading(outcome)),
        outcome matches Ok(Some(row)) ==> reply.body == Body::Team(row),
        reply.status == Status::NotFound <==> outcome == Ok::<Option<Team>, StorageError>(None),
{
    match outcome {
        Ok(Some(row)) => Reply { status: Status::Success, body: Body::Team(row), log: None },
        Ok(None) => answer(Status::NotFound, String::from_str("Team not found")),
        Err(error) => fail("Failed to fetch team", "Error fetching team: ", error),
    }
}

/// Answers the listing of all events: 200 with exactly the rows that the
/// store gave, in its order, or 500 where the store failed.
pub fn get_events(outcome: Result<Vec<Event>, StorageError>) -> (reply: Reply)
    ensures
        reply@ == events_listed(event_listing(outcome)),
        outcome matches Ok(rows) ==> reply.body == Body::Events(rows),
{
    match outcome {
        Ok(rows) => Reply { status: Status::Success, body: Body::Events(rows), log: None },
        Err(error) => fail("Failed to fetch events", "Error fetching events: ", error),
    }
}

/// Whether `row` holds the name, date and location that `event` asked for.
pub open spec fn records(row: EventView, event: CreateEventView) -> bool {
    row.name == event.name && row.date == event.date && row.location == event.location
}

/// An event reaches the store, and comes back from it, field for field:
/// the statement that creates `event` binds its name, date and location as
/// they are, and where the rows that the store lists hold a row with these
/// fields, the reply to the listing holds that row at the same place.
pub proof fn lemma_stored_event_is_listed(event: CreateEventView, rows: Seq<EventView>, at: int)
    requires
        0 <= at < rows.len(),
        records(rows[at], event),
    ensures
        insert_event(event).params == seq![
            ValueView::Text(event.name),
            ValueView::OptionalDate(event.date),
            ValueView::OptionalText(event.location),
        ],
        events_listed(Ok(rows)).status == Status::Success,
        events_listed(Ok(rows)).body matches BodyView::Events(listed) && listed.len() == rows.len()
            && records(listed[at], event),
{
}

/// The listing of an event's teams asks the store for the teams of that
/// event and passes its answer on untouched: where the store answers with
/// teams of the event `event_id` only, the reply holds teams of that event
/// only. This includes the answer without any team.
pub proof fn lemma_listed_teams_belong_to_event(event_id: int, rows: Seq<TeamView>)
    requires
        forall|i: int| 0 <= i < rows.len() ==> (#[trigger] rows[i]).event_id == event_id,
    ensures
        select_teams_of_event(event_id).params == seq![ValueView::Int(event_id)],
        teams_listed(event_id, Ok(rows)).status == Status::Success,
        teams_listed(event_id, Ok(rows)).body matches BodyView::Teams(listed) && listed == rows
            && forall|i: int| 0 <= i < listed.len() ==> (#[trigger] listed[i]).event_id == event_id,
{
}

/// A handler answers with a server error exactly when the store failed, and
/// exactly then it writes a line to the log.
pub proof fn lemma_server_error_marks_failure(
    event_id: int,
    insertion: InsertionView,
    removal: Result<int, Seq<char>>,
    team: Result<Option<TeamView>, Seq<char>>,
    teams: Result<Seq<TeamView>, Seq<char>>,
    events: Result<Seq<EventView>, Seq<char>>,
)
    ensures
        team_created(insertion).status == Status::InternalServerError <==> !(insertion is Created),
        team_created(insertion).log is Some <==> !(insertion is Created),
        event_created(insertion).status == Status::InternalServerError <==> !(insertion is Created),
        event_created(insertion).log is Some <==> !(insertion is Created),
        event_deleted(removal).status == Status::InternalServerError <==> removal is Err,
        event_deleted(removal).log is Some <==> removal is Err,
        teams_listed(event_id, teams).status == Status::InternalServerError <==> teams is Err,
        teams_listed(event_id, teams).log is Some <==> teams is Err,
        team_read(team).status == Status::InternalServerError <==> team is Err,
        team_read(team).log is Some <==> team is Err,
        events_listed(events).status == Status::InternalServerError <==> events is Err,
        events_listed(events).log is Some <==> events is Err,
{
}

/// Nothing of a failure of the store reaches the client: whatever the
/// failure's detail, the status and the text sent are the same.
pub proof fn lemma_failure_detail_is_not_sent(event_id: int, one: Seq<char>, other: Seq<char>)
    ensures
        sent(team_created(InsertionView::Unreadable(one))) == sent(
            team_created(InsertionView::Unreadable(other)),
        ),
        sent(team_created(InsertionView::Failed(one))) == sent(
            team_created(InsertionView::Failed(other)),
        ),
        sent(event_created(InsertionView::Unreadable(one))) == sent(
            event_created(InsertionView::Unreadable(other)),
        ),
        sent(event_created(InsertionView::Failed(one))) == sent(
            event_created(InsertionView::Failed(other)),
        ),
        sent(event_deleted(Err(one))) == sent(event_deleted(Err(other))),
        sent(teams_listed(event_id, Err(one))) == sent(teams_listed(event_id, Err(other))),
        sent(team_read(Err(one))) == sent(team_read(Err(other))),
        sent(events_listed(Err(one))) == sent(events_listed(Err(other))),
{
}

} // verus!
