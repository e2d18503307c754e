use chrono::NaiveDateTime;
use events_api::handlers::create_event;
use events_api::handlers::create_team;
use events_api::handlers::delete_event;
use events_api::handlers::get_events;
use events_api::handlers::get_team;
use events_api::handlers::get_teams_for_event;
use events_api::models::Event;
use events_api::models::Team;
use events_api::response::Body;
use events_api::response::Reply;
use events_api::response::Status;
use events_api::storage::Insertion;
use events_api::storage::StorageError;

fn broken(detail: &str) -> StorageError {
    StorageError { detail: detail.to_string() }
}

fn text(status: Status, text: &str) -> Reply {
    Reply { status, body: Body::Text(text.to_string()), log: None }
}

fn server_error(text: &str, log: &str) -> Reply {
    Reply {
        status: Status::InternalServerError,
        body: Body::Text(text.to_string()),
        log: Some(log.to_string()),
    }
}

fn team(team_id: i32, event_id: i32, name: &str) -> Team {
    let date_created: NaiveDateTime = "2024-05-01T10:00:00".parse().unwrap();
    Team { team_id, event_id, date_created, name: name.to_string(), content: "idea".to_string() }
}

fn event(event_id: i32, name: &str) -> Event {
    Event {
        event_id,
        name: name.to_string(),
        date: Some("2024-05-01".parse().unwrap()),
        location: None,
    }
}

#[test]
fn status_codes() {
    assert_eq!(Status::Success.code(), 200);
    assert_eq!(Status::Created.code(), 201);
    assert_eq!(Status::NotFound.code(), 404);
    assert_eq!(Status::InternalServerError.code(), 500);
}

#[test]
fn created_event_is_confirmed_with_its_identity() {
    assert_eq!(
        create_event(Insertion::Created(42)),
        text(Status::Created, "Event created with ID: 42")
    );
    assert_eq!(
        create_event(Insertion::Created(-7)),
        text(Status::Created, "Event created with ID: -7")
    );
}

#[test]
fn event_whose_identity_cannot_be_read_is_a_server_error() {
    assert_eq!(
        create_event(Insertion::Unreadable(broken("ColumnNotFound(\"event_id\")"))),
        server_error(
            "Failed to process event creation",
            "Failed to get event_id from row: ColumnNotFound(\"event_id\")"
        )
    );
}

#[test]
fn event_that_the_store_refused_is_a_server_error() {
    assert_eq!(
        create_event(Insertion::Failed(broken("PoolTimedOut"))),
        server_error("Failed to create event", "Error creating event: PoolTimedOut")
    );
}

#[test]
fn created_team_is_confirmed_with_its_identity() {
    assert_eq!(
        create_team(Insertion::Created(5)),
        text(Status::Created, "Team created with ID: 5")
    );
    assert_eq!(
        create_team(Insertion::Created(2147483647)),
        text(Status::Created, "Team created with ID: 2147483647")
    );
}

#[test]
fn team_whose_identity_cannot_be_read_is_a_server_error() {
    assert_eq!(
        create_team(Insertion::Unreadable(broken("ColumnNotFound(\"team_id\")"))),
        server_error(
            "Failed to process team creation",
            "Failed to get team_id from row: ColumnNotFound(\"team_id\")"
        )
    );
}

#[test]
fn team_of_a_missing_event_is_a_server_error() {
    assert_eq!(
        create_team(Insertion::Failed(broken("foreign key violation"))),
        server_error("Failed to create team", "Error creating team: foreign key violation")
    );
}

#[test]
fn deleting_one_row_succeeds() {
    assert_eq!(delete_event(Ok(1)), text(Status::Success, "Event deleted"));
}

#[test]
fn deleting_no_row_is_not_found() {
    assert_eq!(delete_event(Ok(0)), text(Status::NotFound, "Event not found"));
}

#[test]
fn deleting_any_other_number_of_rows_is_not_found() {
    assert_eq!(delete_event(Ok(2)), text(Status::NotFound, "Event not found"));
    assert_eq!(delete_event(Ok(u64::MAX)), text(Status::NotFound, "Event not found"));
}

#[test]
fn failed_deletion_is_a_server_error() {
    assert_eq!(
        delete_event(Err(broken("Io(ConnectionReset)"))),
        server_error("Failed to delete event", "Error deleting event: Io(ConnectionReset)")
    );
}

#[test]
fn found_team_is_sent() {
    assert_eq!(
        get_team(Ok(Some(team(9, 2, "Team A")))),
        Reply { status: Status::Success, body: Body::Team(team(9, 2, "Team A")), log: None }
    );
}

#[test]
fn absent_team_is_not_found() {
    assert_eq!(get_team(Ok(None)), text(Status::NotFound, "Team not found"));
}

#[test]
fn failed_team_read_is_a_server_error() {
    assert_eq!(
        get_team(Err(broken("PoolClosed"))),
        server_error("Failed to fetch team", "Error fetching team: PoolClosed")
    );
}

#[test]
fn listed_teams_are_sent_in_the_store_order() {
    let rows = vec![team(3, 7, "c"), team(1, 7, "a"), team(2, 7, "b")];
    let same = vec![team(3, 7, "c"), team(1, 7, "a"), team(2, 7, "b")];
    assert_eq!(
        get_teams_for_event(7, Ok(rows)),
        Reply { status: Status::Success, body: Body::Teams(same), log: None }
    );
}

#[test]
fn event_without_teams_lists_none() {
    assert_eq!(
        get_teams_for_event(7, Ok(Vec::new())),
        Reply { status: Status::Success, body: Body::Teams(Vec::new()), log: None }
    );
}

#[test]
fn failed_team_listing_logs_the_event() {
    assert_eq!(
        get_teams_for_event(123, Err(broken("PoolTimedOut"))),
        server_error("Failed to fetch teams", "Error fetching teams for event 123: PoolTimedOut")
    );
    assert_eq!(
        get_teams_for_event(-5, Err(broken("x"))),
        server_error("Failed to fetch teams", "Error fetching teams for event -5: x")
    );
}

#[test]
fn listed_events_are_sent_in_the_store_order() {
    let rows = vec![event(2, "b"), event(1, "a")];
    let same = vec![event(2, "b"), event(1, "a")];
    assert_eq!(
        get_events(Ok(rows)),
        Reply { status: Status::Success, body: Body::Events(same), log: None }
    );
    assert_eq!(
        get_events(Ok(Vec::new())),
        Reply { status: Status::Success, body: Body::Events(Vec::new()), log: None }
    );
}

#[test]
fn failed_event_listing_is_a_server_error() {
    assert_eq!(
        get_events(Err(broken("Configuration(..)"))),
        server_error("Failed to fetch events", "Error fetching events: Configuration(..)")
    );
}

#[test]
fn failure_detail_is_logged_and_not_sent() {
    let secret = "password=hunter2 host=10.0.0.8";
    let replies = vec![
        create_event(Insertion::Unreadable(broken(secret))),
        create_event(Insertion::Failed(broken(secret))),
        create_team(Insertion::Unreadable(broken(secret))),
        create_team(Insertion::Failed(broken(secret))),
        delete_event(Err(broken(secret))),
        get_team(Err(broken(secret))),
        get_teams_for_event(1, Err(broken(secret))),
        get_events(Err(broken(secret))),
    ];
    for reply in replies {
        assert_eq!(reply.status, Status::InternalServerError);
        match reply.body {
            Body::Text(text) => assert!(!text.contains("hunter2") && !text.contains("10.0.0.8")),
            _ => panic!("a failure is answered with a text"),
        }
        assert!(reply.log.unwrap().ends_with(secret));
    }
}
