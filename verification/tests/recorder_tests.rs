use entry_service::config::ConnectionDescriptor;
use entry_service::recorder::{
    Action, Event, RecordError, Recorded, Recorder, COUNT_STATEMENT, CREATE_TABLE_STATEMENT,
    ERROR_PREFIX, INSERT_STATEMENT, UNEXPECTED_REPLY,
};
use entry_service::token::{is_canonical_text, Token};

const TOKEN_TEXT: &str = "123e4567-e89b-42d3-a456-426614174000";
const OTHER_TEXT: &str = "0f8fad5b-d9cb-469f-a165-70867728950e";

fn descriptor() -> ConnectionDescriptor {
    ConnectionDescriptor {
        host: "localhost".to_string(),
        port: "5432".to_string(),
        user: "u".to_string(),
        password: "p".to_string(),
        database: "d".to_string(),
    }
}

fn token(text: &str) -> Token {
    Token::parse(text).expect("canonical text")
}

fn failed(cause: &str) -> Event {
    Event::Failed(cause.to_string())
}

#[test]
fn statements() {
    assert_eq!(
        CREATE_TABLE_STATEMENT,
        "CREATE TABLE IF NOT EXISTS entries (id SERIAL PRIMARY KEY, data TEXT NOT NULL);"
    );
    assert_eq!(INSERT_STATEMENT, "INSERT INTO entries (data) VALUES ($1);");
    assert_eq!(COUNT_STATEMENT, "SELECT COUNT(*) FROM entries;");
}

#[test]
fn start_asks_for_the_connection() {
    let (recorder, action) = Recorder::start(&descriptor());
    assert_eq!(recorder, Recorder::Connecting);
    assert_eq!(
        action,
        Action::Connect { params: "host=localhost port=5432 user=u password=p dbname=d".to_string() }
    );
    assert!(!recorder.is_over());
    assert_eq!(recorder.outcome(), None);
}

#[test]
fn connection_is_followed_by_the_table() {
    let (recorder, action) = Recorder::Connecting.advance_with(Event::Completed, token(TOKEN_TEXT));
    assert_eq!(recorder, Recorder::CreatingTable);
    assert_eq!(action, Action::CreateTable { statement: CREATE_TABLE_STATEMENT.to_string() });
}

#[test]
fn table_is_followed_by_the_insert_of_the_fresh_token() {
    let (recorder, action) =
        Recorder::CreatingTable.advance_with(Event::Completed, token(TOKEN_TEXT));
    assert_eq!(recorder, Recorder::Inserting(token(TOKEN_TEXT)));
    assert_eq!(
        action,
        Action::Insert { statement: INSERT_STATEMENT.to_string(), data: TOKEN_TEXT.to_string() }
    );
}

#[test]
fn insert_is_followed_by_the_count() {
    let (recorder, action) =
        Recorder::Inserting(token(TOKEN_TEXT)).advance_with(Event::Completed, token(OTHER_TEXT));
    assert_eq!(recorder, Recorder::Counting(token(TOKEN_TEXT)));
    assert_eq!(action, Action::Count { statement: COUNT_STATEMENT.to_string() });
}

#[test]
fn count_ends_the_recording() {
    let (recorder, action) =
        Recorder::Counting(token(TOKEN_TEXT)).advance_with(Event::Counted(17), token(OTHER_TEXT));
    assert_eq!(recorder, Recorder::Finished(Recorded { token: token(TOKEN_TEXT), count: 17 }));
    assert_eq!(action, Action::Stop);
    assert!(recorder.is_over());
    assert_eq!(recorder.outcome(), Some(Ok(Recorded { token: token(TOKEN_TEXT), count: 17 })));
}

#[test]
fn count_is_passed_on_unchanged() {
    for count in [i64::MIN, -1, 0, 1, 2, i64::MAX] {
        let (recorder, _) = Recorder::Counting(token(TOKEN_TEXT))
            .advance_with(Event::Counted(count), token(OTHER_TEXT));
        assert_eq!(recorder, Recorder::Finished(Recorded { token: token(TOKEN_TEXT), count }));
    }
}

#[test]
fn whole_recording_in_order() {
    let (recorder, action) = Recorder::start(&descriptor());
    assert!(matches!(action, Action::Connect { .. }));
    let (recorder, action) = recorder.advance_with(Event::Completed, token(TOKEN_TEXT));
    assert!(matches!(action, Action::CreateTable { .. }));
    let (recorder, action) = recorder.advance_with(Event::Completed, token(TOKEN_TEXT));
    assert!(matches!(action, Action::Insert { .. }));
    let (recorder, action) = recorder.advance_with(Event::Completed, token(OTHER_TEXT));
    assert!(matches!(action, Action::Count { .. }));
    let (recorder, action) = recorder.advance_with(Event::Counted(1), token(OTHER_TEXT));
    assert_eq!(action, Action::Stop);
    assert_eq!(recorder.outcome(), Some(Ok(Recorded { token: token(TOKEN_TEXT), count: 1 })));
}

#[test]
fn failed_connection_is_a_connect_error() {
    let (recorder, action) =
        Recorder::Connecting.advance_with(failed("connection refused"), token(TOKEN_TEXT));
    assert_eq!(recorder, Recorder::Failed(RecordError::Connect("connection refused".to_string())));
    assert_eq!(action, Action::Stop);
    assert!(recorder.is_over());
    assert_eq!(
        recorder.outcome(),
        Some(Err(RecordError::Connect("connection refused".to_string())))
    );
}

#[test]
fn failed_statements_are_query_errors() {
    let states = [
        Recorder::CreatingTable,
        Recorder::Inserting(token(TOKEN_TEXT)),
        Recorder::Counting(token(TOKEN_TEXT)),
    ];
    for state in states {
        let (recorder, action) = state.advance_with(failed("boom"), token(OTHER_TEXT));
        assert_eq!(recorder, Recorder::Failed(RecordError::Query("boom".to_string())));
        assert_eq!(action, Action::Stop);
    }
}

#[test]
fn nothing_is_tried_again_after_a_failure() {
    let (recorder, _) = Recorder::CreatingTable.advance_with(failed("boom"), token(TOKEN_TEXT));
    for event in [Event::Completed, Event::Counted(3), failed("again")] {
        let (after, action) = recorder.clone().advance_with(event, token(OTHER_TEXT));
        assert_eq!(after, recorder);
        assert_eq!(action, Action::Stop);
    }
}

#[test]
fn a_finished_recording_stays_as_it_is() {
    let finished = Recorder::Finished(Recorded { token: token(TOKEN_TEXT), count: 5 });
    for event in [Event::Completed, Event::Counted(9), failed("late")] {
        let (after, action) = finished.clone().advance_with(event, token(OTHER_TEXT));
        assert_eq!(after, finished);
        assert_eq!(action, Action::Stop);
    }
}

#[test]
fn a_count_where_none_was_asked_for_fails_the_recording() {
    let (recorder, action) =
        Recorder::Connecting.advance_with(Event::Counted(1), token(TOKEN_TEXT));
    assert_eq!(recorder, Recorder::Failed(RecordError::Connect(UNEXPECTED_REPLY.to_string())));
    assert_eq!(action, Action::Stop);
    for state in [Recorder::CreatingTable, Recorder::Inserting(token(TOKEN_TEXT))] {
        let (recorder, action) = state.advance_with(Event::Counted(1), token(OTHER_TEXT));
        assert_eq!(recorder, Recorder::Failed(RecordError::Query(UNEXPECTED_REPLY.to_string())));
        assert_eq!(action, Action::Stop);
    }
}

#[test]
fn a_missing_count_fails_the_recording() {
    let (recorder, action) =
        Recorder::Counting(token(TOKEN_TEXT)).advance_with(Event::Completed, token(OTHER_TEXT));
    assert_eq!(recorder, Recorder::Failed(RecordError::Query(UNEXPECTED_REPLY.to_string())));
    assert_eq!(action, Action::Stop);
}

#[test]
fn only_the_step_to_the_insert_takes_a_token() {
    let states = [
        Recorder::Connecting,
        Recorder::CreatingTable,
        Recorder::Inserting(token(TOKEN_TEXT)),
        Recorder::Counting(token(TOKEN_TEXT)),
        Recorder::Finished(Recorded { token: token(TOKEN_TEXT), count: 1 }),
        Recorder::Failed(RecordError::Query("x".to_string())),
    ];
    for state in states {
        for event in [Event::Completed, Event::Counted(1), failed("x")] {
            let expected = state == Recorder::CreatingTable && event == Event::Completed;
            assert_eq!(state.takes_token(&event), expected);
        }
    }
}

#[test]
fn advance_inserts_a_fresh_canonical_token() {
    let (recorder, action) = Recorder::CreatingTable.advance(Event::Completed);
    let Action::Insert { statement, data } = action else {
        panic!("the insert was expected");
    };
    assert_eq!(statement, INSERT_STATEMENT);
    assert!(is_canonical_text(&data));
    assert_eq!(recorder, Recorder::Inserting(token(&data)));
}

#[test]
fn advance_inserts_a_new_token_each_time() {
    let (_, first) = Recorder::CreatingTable.advance(Event::Completed);
    let (_, second) = Recorder::CreatingTable.advance(Event::Completed);
    assert_ne!(first, second);
}

#[test]
fn advance_agrees_with_advance_with_elsewhere() {
    let states = [
        Recorder::Connecting,
        Recorder::Inserting(token(TOKEN_TEXT)),
        Recorder::Counting(token(TOKEN_TEXT)),
        Recorder::Finished(Recorded { token: token(TOKEN_TEXT), count: 1 }),
        Recorder::Failed(RecordError::Connect("x".to_string())),
    ];
    for state in states {
        for event in [Event::Completed, Event::Counted(4), failed("y")] {
            let plain = state.clone().advance(event.clone());
            let given = state.clone().advance_with(event, token(OTHER_TEXT));
            assert_eq!(plain, given);
        }
    }
    for event in [Event::Counted(4), failed("y")] {
        let plain = Recorder::CreatingTable.advance(event.clone());
        let given = Recorder::CreatingTable.advance_with(event, token(OTHER_TEXT));
        assert_eq!(plain, given);
    }
}

#[test]
fn outcome_of_a_running_recording_is_none() {
    assert_eq!(Recorder::Connecting.outcome(), None);
    assert_eq!(Recorder::CreatingTable.outcome(), None);
    assert_eq!(Recorder::Inserting(token(TOKEN_TEXT)).outcome(), None);
    assert_eq!(Recorder::Counting(token(TOKEN_TEXT)).outcome(), None);
}

#[test]
fn error_cause_and_message() {
    let connect = RecordError::Connect("connection refused".to_string());
    let query = RecordError::Query("syntax error".to_string());
    assert_eq!(ERROR_PREFIX, "Database error: ");
    assert_eq!(connect.cause(), "connection refused");
    assert_eq!(query.cause(), "syntax error");
    assert_eq!(connect.message(), "Database error: connection refused");
    assert_eq!(query.message(), "Database error: syntax error");
}
