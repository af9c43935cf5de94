//! The entry recorder: the order in which the store is asked to do its work.
//!
//! Recording one entry takes four requests to the store, strictly in order:
//! open a connection, make sure the table of entries exists, insert a row
//! with a fresh token, and count the rows. The first failure ends the
//! recording; nothing is tried again. The recorder itself talks to nobody: it
//! names the next request, and is told how that request ended.

use vstd::prelude::*;
use vstd::string::*;
use crate::config::{connection_text, ConnectionDescriptor, DescriptorView};
use crate::token::{canonical_witness, is_canonical, is_random_kind, Token};

verus! {

/// The statement that creates the table of entries unless it exists.
pub const CREATE_TABLE_STATEMENT: &'static str =
    "CREATE TABLE IF NOT EXISTS entries (id SERIAL PRIMARY KEY, data TEXT NOT NULL);";

/// The statement that inserts one entry; its only parameter is the token.
pub const INSERT_STATEMENT: &'static str = "INSERT INTO entries (data) VALUES ($1);";

/// The statement that counts the entries.
pub const COUNT_STATEMENT: &'static str = "SELECT COUNT(*) FROM entries;";

/// The cause that is recorded where the store's reply is not one that the
/// pending request can have.
pub const UNEXPECTED_REPLY: &'static str = "the reply does not answer the request";

/// What stands before the cause in a failure's message.
pub const ERROR_PREFIX: &'static str = "Database error: ";

/// Why a recording failed, with the cause as the store reported it.
#[derive(Debug, Clone, PartialEq, Eq)]
pub enum RecordError {
    /// No connection to the store could be opened.
    Connect(String),
    /// One of the three statements failed.
    Query(String),
}

/// A recording's failure as plain values.
pub enum ErrorView {
    Connect(Seq<char>),
    Query(Seq<char>),
}

impl View for RecordError {
    type V = ErrorView;

    open spec fn view(&self) -> ErrorView {
        match *self {
            RecordError::Connect(cause) => ErrorView::Connect(cause@),
            RecordError::Query(cause) => ErrorView::Query(cause@),
        }
    }
}

/// What a recording yields: the token that was inserted and the number of
/// entries that the store counted afterwards.
#[derive(Debug, Clone, PartialEq, Eq)]
pub struct Recorded {
    pub token: Token,
    pub count: i64,
}

/// A recording's yield as plain values.
pub struct RecordedView {
    pub token: Seq<char>,
    pub count: int,
}

impl View for Recorded {
    type V = RecordedView;

    open spec fn view(&self) -> RecordedView {
        RecordedView { token: self.token@, count: self.count as int }
    }
}

/// A request to the store.
#[derive(Debug, Clone, PartialEq, Eq)]
pub enum Action {
    /// Open a connection with these parameters.
    Connect { params: String },
    /// Execute the statement that creates the table.
    CreateTable { statement: String },
    /// Execute the insert statement with `data` as its parameter.
    Insert { statement: String, data: String },
    /// Run the count query and read the number in its single row.
    Count { statement: String },
    /// Nothing is left to do.
    Stop,
}

/// A request to the store as plain values.
pub enum ActionView {
    Connect { params: Seq<char> },
    CreateTable { statement: Seq<char> },
    Insert { statement: Seq<char>, data: Seq<char> },
    Count { statement: Seq<char> },
    Stop,
}

impl View for Action {
    type V = ActionView;

    open spec fn view(&self) -> ActionView {
        match *self {
            Action::Connect { params } => ActionView::Connect { params: params@ },
            Action::CreateTable { statement } => ActionView::CreateTable { statement: statement@ },
            Action::Insert { statement, data } => ActionView::Insert {
                statement: statement@,
                data: data@,
            },
            Action::Count { statement } => ActionView::Count { statement: statement@ },
            Action::Stop => ActionView::Stop,
        }
    }
}

/// How a request to the store ended.
#[derive(Debug, Clone, PartialEq, Eq)]
pub enum Event {
    /// The connection was opened, or the statement was executed.
    Completed,
    /// The count query answered with this number.
    Counted(i64),
    /// The request failed, for this cause.
    Failed(String),
}

/// The end of a request as plain values.
pub enum EventView {
    Completed,
    Counted(int),
    Failed(Seq<char>),
}

impl View for Event {
    type V = EventView;

    open spec fn view(&self) -> EventView {
        match *self {
            Event::Completed => EventView::Completed,
            Event::Counted(count) => EventView::Counted(count as int),
            Event::Failed(cause) => EventView::Failed(cause@),
        }
    }
}

/// Where a recording stands: the request that is pending, or how it ended.
#[derive(Debug, Clone, PartialEq, Eq)]
pub enum Recorder {
    /// The connection is being opened.
    Connecting,
    /// The table is being created.
    CreatingTable,
    /// The entry with this token is being inserted.
    Inserting(Token),
    /// The entries are being counted; this token was inserted.
    Counting(Token),
    /// The recording succeeded.
    Finished(Recorded),
    /// The recording failed.
    Failed(RecordError),
}

/// A recording's state as plain values.
pub enum RecorderView {
    Connecting,
    CreatingTable,
    Inserting(Seq<char>),
    Counting(Seq<char>),
    Finished(RecordedView),
    Failed(ErrorView),
}

impl View for Recorder {
    type V = RecorderView;

    open spec fn view(&self) -> RecorderView {
        match *self {
            Recorder::Connecting => RecorderView::Connecting,
            Recorder::CreatingTable => RecorderView::CreatingTable,
            Recorder::Inserting(token) => RecorderView::Inserting(token@),
            Recorder::Counting(token) => RecorderView::Counting(token@),
            Recorder::Finished(recorded) => RecorderView::Finished(recorded@),
            Recorder::Failed(error) => RecorderView::Failed(error@),
        }
    }
}

/// The first request of a recording against the store that `d` describes.
pub open spec fn first_action(d: DescriptorView) -> ActionView {
    ActionView::Connect { params: connection_text(d) }
}

/// The cause of a failure that `event` brings: the one it reports, or, where
/// it reports none, that the reply was not expected.
pub open spec fn cause_of(event: EventView) -> Seq<char> {
    match event {
        EventView::Failed(cause) => cause,
        _ => UNEXPECTED_REPLY@,
    }
}

/// Whether the recording has ended.
pub open spec fn is_over(state: RecorderView) -> bool {
    state is Finished || state is Failed
}

/// Whether the step from `state` on `event` puts a fresh token to use.
pub open spec fn takes_token(state: RecorderView, event: EventView) -> bool {
    state is CreatingTable && event is Completed
}

/// One step of a recording: the state and the request that follow when the
/// request pending in `state` has ended with `event`. `fresh` is the token
/// that is put to use if the step is the one that starts the insert.
///
/// A recording that is over stays as it is. Otherwise a reply that the
/// pending request cannot have, and a reported failure, both end it: with a
/// connection error while connecting, with a query error later.
pub open spec fn step(state: RecorderView, event: EventView, fresh: Seq<char>) -> (
    RecorderView,
    ActionView,
) {
    match state {
        RecorderView::Connecting => match event {
            EventView::Completed => (
                RecorderView::CreatingTable,
                ActionView::CreateTable { statement: CREATE_TABLE_STATEMENT@ },
            ),
            _ => (RecorderView::Failed(ErrorView::Connect(cause_of(event))), ActionView::Stop),
        },
        RecorderView::CreatingTable => match event {
            EventView::Completed => (
                RecorderView::Inserting(fresh),
                ActionView::Insert { statement: INSERT_STATEMENT@, data: fresh },
            ),
            _ => (RecorderView::Failed(ErrorView::Query(cause_of(event))), ActionView::Stop),
        },
        RecorderView::Inserting(token) => match event {
            EventView::Completed => (
                RecorderView::Counting(token),
                ActionView::Count { statement: COUNT_STATEMENT@ },
            ),
            _ => (RecorderView::Failed(ErrorView::Query(cause_of(event))), ActionView::Stop),
        },
        RecorderView::Counting(token) => match event {
            EventView::Counted(count) => (
                RecorderView::Finished(RecordedView { token, count }),
                ActionView::Stop,
            ),
            _ => (RecorderView::Failed(ErrorView::Query(cause_of(event))), ActionView::Stop),
        },
        RecorderView::Finished(_) => (state, ActionView::Stop),
        RecorderView::Failed(_) => (state, ActionView::Stop),
    }
}

/// What a recording has yielded: nothing while it runs, then the entry or the
/// failure.
pub open spec fn outcome_of(state: RecorderView) -> Option<Result<RecordedView, ErrorView>> {
    match state {
        RecorderView::Finished(recorded) => Some(Ok(recorded)),
        RecorderView::Failed(error) => Some(Err(error)),
        _ => None,
    }
}

/// The view of a recording's yield.
pub open spec fn outcome_view(outcome: Option<Result<Recorded, RecordError>>) -> Option<
    Result<RecordedView, ErrorView>,
> {
    match outcome {
        Some(Ok(recorded)) => Some(Ok(recorded@)),
        Some(Err(error)) => Some(Err(error@)),
        None => None,
    }
}

/// The cause that a failure carries.
pub open spec fn error_cause(error: ErrorView) -> Seq<char> {
    match error {
        ErrorView::Connect(cause) => cause,
        ErrorView::Query(cause) => cause,
    }
}

impl RecordError {
    /// The cause as the store reported it.
    pub fn cause(&self) -> (cause: &str)
        ensures
            cause@ == error_cause(self@),
    {
        match self {
            RecordError::Connect(cause) => cause.as_str(),
            RecordError::Query(cause) => cause.as_str(),
        }
    }

    /// What to tell the operator: the prefix, then the cause. This text is
    /// for the service's own log and never part of a reply.
    pub fn message(&self) -> (text: String)
        ensures
            text@ == ERROR_PREFIX@ + error_cause(self@),
    {
        String::from_str(ERROR_PREFIX).concat(self.cause())
    }
}

fn failure_cause(event: Event) -> (cause: String)
    ensures
        cause@ == cause_of(event@),
{
    match event {
        Event::Failed(cause) => cause,
        _ => String::from_str(UNEXPECTED_REPLY),
    }
}

impl Recorder {
    /// Starts a recording against the store that `descriptor` describes: the
    /// first request opens the connection.
    pub fn start(descriptor: &ConnectionDescriptor) -> (begun: (Recorder, Action))
        ensures
            begun.0@ == RecorderView::Connecting,
            begun.1@ == first_action(descriptor@),
    {
        (Recorder::Connecting, Action::Connect { params: descriptor.connection_string() })
    }

    /// Whether the recording has ended.
    pub fn is_over(&self) -> (over: bool)
        ensures
            over == is_over(self@),
    {
        match self {
            Recorder::Finished(_) => true,
            Recorder::Failed(_) => true,
            _ => false,
        }
    }

    /// Whether the step on `event` puts a fresh token to use.
    pub fn takes_token(&self, event: &Event) -> (takes: bool)
        ensures
            takes == takes_token(self@, event@),
    {
        match self {
            Recorder::CreatingTable => match event {
                Event::Completed => true,
                _ => false,
            },
            _ => false,
        }
    }

    fn advance_on(self, event: Event, fresh: Option<Token>) -> (next: (Recorder, Action))
        requires
            takes_token(self@, event@) ==> fresh.is_some(),
        ensures
            fresh matches Some(token) ==> (next.0@, next.1@) == step(self@, event@, token@),
            !takes_token(self@, event@) ==> forall|any: Seq<char>|
                (next.0@, next.1@) == step(self@, event@, any),
    {
        match self {
            Recorder::Connecting => match event {
                Event::Completed => (
                    Recorder::CreatingTable,
                    Action::CreateTable { statement: String::from_str(CREATE_TABLE_STATEMENT) },
                ),
                _ => (
                    Recorder::Failed(RecordError::Connect(failure_cause(event))),
                    Action::Stop,
                ),
            },
            Recorder::CreatingTable => match event {
                Event::Completed => {
                    let token = fresh.unwrap();
                    let data = String::from_str(token.as_str());
                    (
                        Recorder::Inserting(token),
                        Action::Insert { statement: String::from_str(INSERT_STATEMENT), data },
                    )
                },
                _ => (Recorder::Failed(RecordError::Query(failure_cause(event))), Action::Stop),
            },
            Recorder::Inserting(token) => match event {
                Event::Completed => (
                    Recorder::Counting(token),
                    Action::Count { statement: String::from_str(COUNT_STATEMENT) },
                ),
                _ => (Recorder::Failed(RecordError::Query(failure_cause(event))), Action::Stop),
            },
            Recorder::Counting(token) => match event {
                Event::Counted(count) => (
                    Recorder::Finished(Recorded { token, count }),
                    Action::Stop,
                ),
                _ => (Recorder::Failed(RecordError::Query(failure_cause(event))), Action::Stop),
            },
            Recorder::Finished(recorded) => (Recorder::Finished(recorded), Action::Stop),
            Recorder::Failed(error) => (Recorder::Failed(error), Action::Stop),
        }
    }

    /// Takes one step on `event`, with `fresh` as the token to insert if the
    /// step is the one that starts the insert.
    pub fn advance_with(self, event: Event, fresh: Token) -> (next: (Recorder, Action))
        ensures
            (next.0@, next.1@) == step(self@, event@, fresh@),
    {
        self.advance_on(event, Some(fresh))
    }

    /// Takes one step on `event`. Where the step starts the insert, the token
    /// is a fresh random one; no other step depends on a token.
    pub fn advance(self, event: Event) -> (next: (Recorder, Action))
        ensures
            exists|fresh: Seq<char>|
                is_canonical(fresh) && is_random_kind(fresh) && (next.0@, next.1@) == #[trigger] step(
                    self@,
                    event@,
                    fresh,
                ),
            !takes_token(self@, event@) ==> forall|any: Seq<char>|
                (next.0@, next.1@) == step(self@, event@, any),
    {
        if self.takes_token(&event) {
            let fresh = Token::generate();
            let ghost text = fresh@;
            let next = self.advance_on(event, Some(fresh));
            assert((next.0@, next.1@) == step(self@, event@, text));
            next
        } else {
            let ghost state = self@;
            let ghost happened = event@;
            let next = self.advance_on(event, None);
            proof {
                let witness = canonical_witness();
                assert((next.0@, next.1@) == step(state, happened, witness));
            }
            next
        }
    }

    /// What the recording has yielded: `None` while it runs, then the entry
    /// or the failure. The token of an entry is canonical.
    pub fn outcome(self) -> (outcome: Option<Result<Recorded, RecordError>>)
        ensures
            outcome_view(outcome) == outcome_of(self@),
            outcome matches Some(Ok(recorded)) ==> is_canonical(recorded.token@),
    {
        match self {
            Recorder::Finished(recorded) => {
                let _ = recorded.token.as_str();
                Some(Ok(recorded))
            },
            Recorder::Failed(error) => Some(Err(error)),
            _ => None,
        }
    }
}

} // verus!
