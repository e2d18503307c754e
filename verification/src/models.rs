//! The rows of the two tables and the payloads that create them.

use chrono::NaiveDate;
use chrono::NaiveDateTime;
use vstd::prelude::*;

verus! {

/// `chrono::NaiveDate`, a calendar date without a time zone. The service never
/// looks inside a date: it only carries it between the client and the store.
#[verifier::external_type_specification]
#[verifier::external_body]
pub struct ExNaiveDate(chrono::NaiveDate);

/// `chrono::NaiveDateTime`, a date and time of day without a time zone,
/// carried through like a date.
#[verifier::external_type_specification]
#[verifier::external_body]
pub struct ExNaiveDateTime(chrono::NaiveDateTime);

/// The characters of an optional text.
pub open spec fn optional_text(text: Option<String>) -> Option<Seq<char>> {
    match text {
        Some(s) => Some(s@),
        None => None,
    }
}

/// A row of the `events` table. The store generates `event_id`.
#[derive(Debug, PartialEq, Eq)]
pub struct Event {
    pub event_id: i32,
    pub name: String,
    pub date: Option<NaiveDate>,
    pub location: Option<String>,
}

/// What an `Event` holds.
pub struct EventView {
    pub event_id: int,
    pub name: Seq<char>,
    pub date: Option<NaiveDate>,
    pub location: Option<Seq<char>>,
}

impl View for Event {
    type V = EventView;

    open spec fn view(&self) -> EventView {
        EventView {
            event_id: self.event_id as int,
            name: self.name@,
            date: self.date,
            location: optional_text(self.location),
        }
    }
}

/// What a client sends to create an event.
#[derive(Debug, PartialEq, Eq)]
pub struct CreateEvent {
    pub name: String,
    pub date: Option<NaiveDate>,
    pub location: Option<String>,
}

/// What a `CreateEvent` holds.
pub struct CreateEventView {
    pub name: Seq<char>,
    pub date: Option<NaiveDate>,
    pub location: Option<Seq<char>>,
}

impl View for CreateEvent {
    type V = CreateEventView;

    open spec fn view(&self) -> CreateEventView {
        CreateEventView {
            name: self.name@,
            date: self.date,
            location: optional_text(self.location),
        }
    }
}

/// The fields of an event that a client may ask to change. No operation of
/// the service takes it yet.
#[derive(Debug, PartialEq, Eq)]
pub struct UpdateEvent {
    pub name: Option<String>,
    pub date: Option<NaiveDate>,
    pub location: Option<String>,
}

/// What an `UpdateEvent` holds.
pub struct UpdateEventView {
    pub name: Option<Seq<char>>,
    pub date: Option<NaiveDate>,
    pub location: Option<Seq<char>>,
}

impl View for UpdateEvent {
    type V = UpdateEventView;

    open spec fn view(&self) -> UpdateEventView {
        UpdateEventView {
            name: optional_text(self.name),
            date: self.date,
            location: optional_text(self.location),
        }
    }
}

/// A row of the `teams` table. The store generates `team_id`; `event_id`
/// names the event that the team belongs to.
#[derive(Debug, PartialEq, Eq)]
pub struct Team {
    pub team_id: i32,
    pub event_id: i32,
    pub date_created: NaiveDateTime,
    pub name: String,
    pub content: String,
}

/// What a `Team` holds.
pub struct TeamView {
    pub team_id: int,
    pub event_id: int,
    pub date_created: NaiveDateTime,
    pub name: Seq<char>,
    pub content: Seq<char>,
}

impl View for Team {
    type V = TeamView;

    open spec fn view(&self) -> TeamView {
        TeamView {
            team_id: self.team_id as int,
            event_id: self.event_id as int,
            date_created: self.date_created,
            name: self.name@,
            content: self.content@,
        }
    }
}

/// What a client sends to create a team.
#[derive(Debug, PartialEq, Eq)]
pub struct CreateTeam {
    pub event_id: i32,
    pub date_created: NaiveDateTime,
    pub name: String,
    pub content: String,
}

/// What a `CreateTeam` holds.
pub struct CreateTeamView {
    pub event_id: int,
    pub date_created: NaiveDateTime,
    pub name: Seq<char>,
    pub content: Seq<char>,
}

impl View for CreateTeam {
    type V = CreateTeamView;

    open spec fn view(&self) -> CreateTeamView {
        CreateTeamView {
            event_id: self.event_id as int,
            date_created: self.date_created,
            name: self.name@,
            content: self.content@,
        }
    }
}

/// The rows of a list of events, in its order.
pub open spec fn event_rows(rows: Vec<Event>) -> Seq<EventView> {
    rows@.map_values(|row: Event| row@)
}

/// The rows of a list of teams, in its order.
pub open spec fn team_rows(rows: Vec<Team>) -> Seq<TeamView> {
    rows@.map_values(|row: Team| row@)
}

} // verus!
