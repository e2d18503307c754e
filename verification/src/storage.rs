//! What the service asks of the relational store, and what the store may
//! answer.
//!
//! Every operation is one parameterized statement: a fixed text with numbered
//! placeholders, and the values bound to them in order. A value from a
//! request is only ever bound, never written into the text.

use crate::models::CreateEvent;
use crate::models::CreateEventView;
use crate::models::CreateTeam;
use crate::models::CreateTeamView;
use crate::models::optional_text;
use chrono::NaiveDate;
use chrono::NaiveDateTime;
use vstd::prelude::*;

verus! {

/// Reads every row of `events`.
pub const SELECT_EVENTS: &'static str = "SELECT * FROM events";

/// Adds a row to `events` and asks for its generated identity.
pub const INSERT_EVENT: &'static str =
    "INSERT INTO events (name, date, location) VALUES ($1, $2, $3) RETURNING event_id";

/// Removes the row of `events` with a given identity.
pub const DELETE_EVENT: &'static str = "DELETE FROM events WHERE event_id = $1";

/// Adds a row to `teams` and asks for its generated identity.
pub const INSERT_TEAM: &'static str =
    "INSERT INTO teams (event_id, date_created, name, content) VALUES ($1, $2, $3, $4) RETURNING team_id";

/// Reads the row of `teams` with a given identity.
pub const SELECT_TEAM: &'static str = "SELECT * FROM teams WHERE team_id = $1";

/// Reads the rows of `teams` that belong to a given event.
pub const SELECT_TEAMS_OF_EVENT: &'static str = "SELECT * FROM teams WHERE event_id = $1";

/// The column in which the store hands back the identity of a new event.
pub const EVENT_ID: &'static str = "event_id";

/// The column in which the store hands back the identity of a new team.
pub const TEAM_ID: &'static str = "team_id";

/// A failure of the store: no connection, a violated constraint, a statement
/// that it refused. `detail` describes the failure for the server's log.
#[derive(Debug, PartialEq, Eq)]
pub struct StorageError {
    pub detail: String,
}

impl View for StorageError {
    type V = Seq<char>;

    open spec fn view(&self) -> Seq<char> {
        self.detail@
    }
}

/// The store's answer to an insertion.
#[derive(Debug, PartialEq, Eq)]
pub enum Insertion {
    /// The row was added, under this identity.
    Created(i32),
    /// The row was added, but the identity could not be read from the answer.
    Unreadable(StorageError),
    /// The store did not add the row.
    Failed(StorageError),
}

/// What an `Insertion` holds.
pub enum InsertionView {
    Created(int),
    Unreadable(Seq<char>),
    Failed(Seq<char>),
}

impl View for Insertion {
    type V = InsertionView;

    open spec fn view(&self) -> InsertionView {
        match *self {
            Insertion::Created(id) => InsertionView::Created(id as int),
            Insertion::Unreadable(error) => InsertionView::Unreadable(error@),
            Insertion::Failed(error) => InsertionView::Failed(error@),
        }
    }
}

/// A value bound to a placeholder of a statement.
#[derive(Debug, PartialEq, Eq)]
pub enum Value {
    Int(i32),
    Text(String),
    OptionalText(Option<String>),
    OptionalDate(Option<NaiveDate>),
    Timestamp(NaiveDateTime),
}

/// What a `Value` holds.
pub enum ValueView {
    Int(int),
    Text(Seq<char>),
    OptionalText(Option<Seq<char>>),
    OptionalDate(Option<NaiveDate>),
    Timestamp(NaiveDateTime),
}

impl View for Value {
    type V = ValueView;

    open spec fn view(&self) -> ValueView {
        match *self {
            Value::Int(n) => ValueView::Int(n as int),
            Value::Text(text) => ValueView::Text(text@),
            Value::OptionalText(text) => ValueView::OptionalText(optional_text(text)),
            Value::OptionalDate(date) => ValueView::OptionalDate(date),
            Value::Timestamp(at) => ValueView::Timestamp(at),
        }
    }
}

/// A parameterized statement: `params[i]` is bound to the placeholder
/// `$i+1` of `sql`. An insertion names in `returning` the column in which
/// the store hands back the identity of the new row.
#[derive(Debug, PartialEq, Eq)]
pub struct Statement {
    pub sql: &'static str,
    pub params: Vec<Value>,
    pub returning: Option<&'static str>,
}

/// What a `Statement` holds.
pub struct StatementView {
    pub sql: Seq<char>,
    pub params: Seq<ValueView>,
    pub returning: Option<Seq<char>>,
}

impl View for Statement {
    type V = StatementView;

    open spec fn view(&self) -> StatementView {
        StatementView {
            sql: self.sql@,
            params: self.params@.map_values(|value: Value| value@),
            returning: match self.returning {
                Some(column) => Some(column@),
                None => None,
            },
        }
    }
}

/// The number of dollar signs among the first `upto` characters of `sql`.
pub open spec fn dollars_before(sql: Seq<char>, upto: int) -> nat
    decreases upto,
{
    if upto <= 0 {
        0
    } else {
        dollars_before(sql, upto - 1) + if sql[upto - 1] == '$' {
            1nat
        } else {
            0nat
        }
    }
}

/// The number of placeholders of a statement text. A placeholder is a
/// dollar sign and a number, and the texts have no other dollar sign.
pub open spec fn placeholders(sql: Seq<char>) -> nat {
    dollars_before(sql, sql.len() as int)
}

impl StatementView {
    /// Whether every placeholder has its value: as many values are bound as
    /// the text has placeholders.
    pub open spec fn well_formed(self) -> bool {
        placeholders(self.sql) == self.params.len()
    }
}

/// The statement that lists all events.
pub open spec fn select_events() -> StatementView {
    StatementView { sql: SELECT_EVENTS@, params: seq![], returning: None }
}

/// The statement that creates an event from `event`: name, date and location
/// are bound in this order.
pub open spec fn insert_event(event: CreateEventView) -> StatementView {
    StatementView {
        sql: INSERT_EVENT@,
        params: seq![
            ValueView::Text(event.name),
            ValueView::OptionalDate(event.date),
            ValueView::OptionalText(event.location),
        ],
        returning: Some(EVENT_ID@),
    }
}

/// The statement that deletes the event `event_id`.
pub open spec fn delete_event(event_id: int) -> StatementView {
    StatementView { sql: DELETE_EVENT@, params: seq![ValueView::Int(event_id)], returning: None }
}

/// The statement that creates a team from `team`: event, time of creation,
/// name and content are bound in this order.
pub open spec fn insert_team(team: CreateTeamView) -> StatementView {
    StatementView {
        sql: INSERT_TEAM@,
        params: seq![
            ValueView::Int(team.event_id),
            ValueView::Timestamp(team.date_created),
            ValueView::Text(team.name),
            ValueView::Text(team.content),
        ],
        returning: Some(TEAM_ID@),
    }
}

/// The statement that reads the team `team_id`.
pub open spec fn select_team(team_id: int) -> StatementView {
    StatementView { sql: SELECT_TEAM@, params: seq![ValueView::Int(team_id)], returning: None }
}

/// The statement that lists the teams of the event `event_id`.
pub open spec fn select_teams_of_event(event_id: int) -> StatementView {
    StatementView {
        sql: SELECT_TEAMS_OF_EVENT@,
        params: seq![ValueView::Int(event_id)],
        returning: None,
    }
}

impl Statement {
    /// Lists all events, in the store's order.
    pub fn select_events() -> (statement: Statement)
        ensures
            statement@ == self::select_events(),
            statement@.well_formed(),
    {
        proof {
            lemma_placeholders();
        }
        let statement = Statement { sql: SELECT_EVENTS, params: Vec::new(), returning: None };
        assert(statement@.params =~= seq![]);
        statement
    }

    /// Creates an event; the store answers with the new row's `event_id`.
    pub fn insert_event(event: CreateEvent) -> (statement: Statement)
        ensures
            statement@ == self::insert_event(event@),
            statement@.well_formed(),
    {
        proof {
            lemma_placeholders();
        }
        let mut params: Vec<Value> = Vec::new();
        params.push(Value::Text(event.name));
        params.push(Value::OptionalDate(event.date));
        params.push(Value::OptionalText(event.location));
        let statement = Statement { sql: INSERT_EVENT, params, returning: Some(EVENT_ID) };
        assert(statement@.params =~= self::insert_event(event@).params);
        statement
    }

    /// Deletes the event `event_id`; the store answers with the number of
    /// rows it removed.
    pub fn delete_event(event_id: i32) -> (statement: Statement)
        ensures
            statement@ == self::delete_event(event_id as int),
            statement@.well_formed(),
    {
        proof {
            lemma_placeholders();
        }
        let mut params: Vec<Value> = Vec::new();
        params.push(Value::Int(event_id));
        let statement = Statement { sql: DELETE_EVENT, params, returning: None };
        assert(statement@.params =~= self::delete_event(event_id as int).params);
        statement
    }

    /// Creates a team; the store answers with the new row's `team_id`.
    pub fn insert_team(team: CreateTeam) -> (statement: Statement)
        ensures
            statement@ == self::insert_team(team@),
            statement@.well_formed(),
    {
        proof {
            lemma_placeholders();
        }
        let mut params: Vec<Value> = Vec::new();
        params.push(Value::Int(team.event_id));
        params.push(Value::Timestamp(team.date_created));
        params.push(Value::Text(team.name));
        params.push(Value::Text(team.content));
        let statement = Statement { sql: INSERT_TEAM, params, returning: Some(TEAM_ID) };
        assert(statement@.params =~= self::insert_team(team@).params);
        statement
    }

    /// Reads the team `team_id`; the store answers with the row, or with
    /// none.
    pub fn select_team(team_id: i32) -> (statement: Statement)
        ensures
            statement@ == self::select_team(team_id as int),
            statement@.well_formed(),
    {
        proof {
            lemma_placeholders();
        }
        let mut params: Vec<Value> = Vec::new();
        params.push(Value::Int(team_id));
        let statement = Statement { sql: SELECT_TEAM, params, returning: None };
        assert(statement@.params =~= self::select_team(team_id as int).params);
        statement
    }

    /// Lists the teams of the event `event_id`, in the store's order.
    pub fn select_teams_of_event(event_id: i32) -> (statement: Statement)
        ensures
            statement@ == self::select_teams_of_event(event_id as int),
            statement@.well_formed(),
    {
        proof {
            lemma_placeholders();
        }
        let mut params: Vec<Value> = Vec::new();
        params.push(Value::Int(event_id));
        let statement = Statement { sql: SELECT_TEAMS_OF_EVENT, params, returning: None };
        assert(statement@.params =~= self::select_teams_of_event(event_id as int).params);
        statement
    }
}

/// The number of placeholders of each of the service's statement texts.
proof fn lemma_placeholders()
    ensures
        placeholders(SELECT_EVENTS@) == 0,
        placeholders(INSERT_EVENT@) == 3,
        placeholders(DELETE_EVENT@) == 1,
        placeholders(INSERT_TEAM@) == 4,
        placeholders(SELECT_TEAM@) == 1,
        placeholders(SELECT_TEAMS_OF_EVENT@) == 1,
{
    reveal_with_fuel(dollars_before, 50);
    assert(placeholders(SELECT_EVENTS@) == 0) by {
        reveal_strlit("SELECT * FROM events");
    }
    assert(placeholders(INSERT_EVENT@) == 3) by {
        reveal_strlit(
            "INSERT INTO events (name, date, location) VALUES ($1, $2, $3) RETURNING event_id",
        );
        assert(dollars_before(INSERT_EVENT@, 40) == 0);
        assert(dollars_before(INSERT_EVENT@, 80) == 3);
    }
    assert(placeholders(DELETE_EVENT@) == 1) by {
        reveal_strlit("DELETE FROM events WHERE event_id = $1");
    }
    assert(placeholders(INSERT_TEAM@) == 4) by {
        reveal_strlit(
            "INSERT INTO teams (event_id, date_created, name, content) VALUES ($1, $2, $3, $4) RETURNING team_id",
        );
        assert(dollars_before(INSERT_TEAM@, 33) == 0);
        assert(dollars_before(INSERT_TEAM@, 66) == 0);
        assert(dollars_before(INSERT_TEAM@, 99) == 4);
    }
    assert(placeholders(SELECT_TEAM@) == 1) by {
        reveal_strlit("SELECT * FROM teams WHERE team_id = $1");
    }
    assert(placeholders(SELECT_TEAMS_OF_EVENT@) == 1) by {
        reveal_strlit("SELECT * FROM teams WHERE event_id = $1");
    }
}

/// Each statement of the service binds as many values as its text has
/// placeholders, whatever request it is built from.
pub proof fn lemma_statements_are_well_formed(event: CreateEventView, team: CreateTeamView, id: int)
    ensures
        select_events().well_formed(),
        insert_event(event).well_formed(),
        delete_event(id).well_formed(),
        insert_team(team).well_formed(),
        select_team(id).well_formed(),
        select_teams_of_event(id).well_formed(),
{
    lemma_placeholders();
}

} // verus!
