//! The service's three routes and what each answers.
//!
//! `GET /` records an entry and reports it; `GET /status` reports that the
//! service is up; every other request is told that nothing is there. Only
//! the first needs the store, so only there is the program around the
//! library asked to act before the reply is known.

use vstd::prelude::*;
use vstd::string::*;
use crate::config::{ConnectionDescriptor, DescriptorView};
use crate::recorder::{
    first_action, is_over, outcome_of, step, takes_token, Action, ActionView, ErrorView, Event,
    EventView, RecordError, Recorded, RecordedView, Recorder, RecorderView,
};
use crate::text::{decimal, decimal_text, same_text};
use crate::token::{is_canonical, is_random_kind, Token};

verus! {

/// The method that the two served paths answer to.
pub const SERVED_METHOD: &'static str = "GET";

/// The path that records an entry.
pub const ENTRY_PATH: &'static str = "/";

/// The path that reports the service's status.
pub const STATUS_PATH: &'static str = "/status";

/// The message that every reported entry carries.
pub const ENTRY_MESSAGE: &'static str =
    "This is a simple, basic Rust application running on Zerops.io, each request adds an entry to the PostgreSQL database and returns a count. See the source repository (https://github.com/zeropsio/recipe-rust) for more information.";

/// The body that reports the service's status.
pub const STATUS_BODY: &'static str = "{\"status\":\"UP\"}";

/// The body of the reply to a request that no route serves.
pub const NOT_FOUND_BODY: &'static str = "Not Found";

/// The body of the reply to a request whose recording failed. It says
/// nothing of the cause.
pub const INTERNAL_ERROR_BODY: &'static str = "Internal Server Error";

/// The handler that serves a request.
#[derive(Debug, Clone, Copy, PartialEq, Eq, Structural)]
pub enum Route {
    /// Record an entry and report it.
    Entry,
    /// Report that the service is up.
    Status,
    /// Nothing is served here.
    NotFound,
}

/// What kind of text a reply's body is.
#[derive(Debug, Clone, Copy, PartialEq, Eq, Structural)]
pub enum ContentType {
    Json,
    PlainText,
}

/// A reply to the client.
#[derive(Debug, Clone, PartialEq, Eq)]
pub struct Response {
    pub status: u16,
    pub content_type: ContentType,
    pub body: String,
}

/// A reply as plain values.
pub struct ResponseView {
    pub status: int,
    pub content_type: ContentType,
    pub body: Seq<char>,
}

impl View for Response {
    type V = ResponseView;

    open spec fn view(&self) -> ResponseView {
        ResponseView {
            status: self.status as int,
            content_type: self.content_type,
            body: self.body@,
        }
    }
}

/// The handler that serves `method` on `path`: the two served paths answer
/// to `GET` alone, and nothing else is served.
pub open spec fn route_of(method: Seq<char>, path: Seq<char>) -> Route {
    if method == SERVED_METHOD@ && path == ENTRY_PATH@ {
        Route::Entry
    } else if method == SERVED_METHOD@ && path == STATUS_PATH@ {
        Route::Status
    } else {
        Route::NotFound
    }
}

/// The body that reports an entry: an object with the count, the message and
/// the token, its keys in alphabetical order.
pub open spec fn entry_body(token: Seq<char>, count: int) -> Seq<char> {
    "{\"count\":"@ + decimal_text(count) + ",\"message\":\""@ + ENTRY_MESSAGE@
        + "\",\"newEntry\":\""@ + token + "\"}"@
}

/// The reply that reports the service's status.
pub open spec fn status_reply() -> ResponseView {
    ResponseView { status: 200, content_type: ContentType::Json, body: STATUS_BODY@ }
}

/// The reply to a request that no route serves.
pub open spec fn not_found_reply() -> ResponseView {
    ResponseView { status: 404, content_type: ContentType::PlainText, body: NOT_FOUND_BODY@ }
}

/// The reply to a request whose recording failed.
pub open spec fn internal_error_reply() -> ResponseView {
    ResponseView {
        status: 500,
        content_type: ContentType::PlainText,
        body: INTERNAL_ERROR_BODY@,
    }
}

/// The reply that reports a recorded entry.
pub open spec fn entry_reply(recorded: RecordedView) -> ResponseView {
    ResponseView {
        status: 200,
        content_type: ContentType::Json,
        body: entry_body(recorded.token, recorded.count),
    }
}

/// The reply to a request for an entry, by what the recording yielded: every
/// failure gives the same reply.
pub open spec fn outcome_reply(outcome: Result<RecordedView, ErrorView>) -> ResponseView {
    match outcome {
        Ok(recorded) => entry_reply(recorded),
        Err(_) => internal_error_reply(),
    }
}

/// What the service does next for one request: it asks the store for
/// something, or it replies to the client.
pub enum TurnView {
    Ask(RecorderView, ActionView),
    Reply(ResponseView),
}

/// The turn that a recording's state and next request amount to: the reply,
/// once the recording is over; until then the request.
pub open spec fn turn_of(state: RecorderView, action: ActionView) -> TurnView {
    match outcome_of(state) {
        Some(outcome) => TurnView::Reply(outcome_reply(outcome)),
        None => TurnView::Ask(state, action),
    }
}

/// The first turn for a request of `method` on `path`.
pub open spec fn opening(method: Seq<char>, path: Seq<char>, d: DescriptorView) -> TurnView {
    match route_of(method, path) {
        Route::Entry => TurnView::Ask(RecorderView::Connecting, first_action(d)),
        Route::Status => TurnView::Reply(status_reply()),
        Route::NotFound => TurnView::Reply(not_found_reply()),
    }
}

/// The turn that follows when the request pending in `state` has ended with
/// `event`.
pub open spec fn following(state: RecorderView, event: EventView, fresh: Seq<char>) -> TurnView {
    let next = step(state, event, fresh);
    turn_of(next.0, next.1)
}

/// An exchange with one client that is waiting for the store.
#[derive(Debug)]
pub struct Exchange {
    recorder: Recorder,
}

impl View for Exchange {
    type V = RecorderView;

    closed spec fn view(&self) -> RecorderView {
        self.recorder@
    }
}

/// What the service does next for one request.
#[derive(Debug)]
pub enum Turn {
    /// Ask the store for this, and resume the exchange with how it ended.
    Ask(Exchange, Action),
    /// Send this reply; the exchange is over.
    Reply(Response),
}

impl View for Turn {
    type V = TurnView;

    open spec fn view(&self) -> TurnView {
        match *self {
            Turn::Ask(exchange, action) => TurnView::Ask(exchange@, action@),
            Turn::Reply(response) => TurnView::Reply(response@),
        }
    }
}

impl ContentType {
    /// The value of the header that names the body's kind.
    pub fn header_value(&self) -> (value: &'static str)
        ensures
            value@ == (match *self {
                ContentType::Json => "application/json"@,
                ContentType::PlainText => "text/plain; charset=utf-8"@,
            }),
    {
        match self {
            ContentType::Json => "application/json",
            ContentType::PlainText => "text/plain; charset=utf-8",
        }
    }
}

/// Picks the handler that serves `method` on `path`.
pub fn route(method: &str, path: &str) -> (picked: Route)
    ensures
        picked == route_of(method@, path@),
{
    if !same_text(method, SERVED_METHOD) {
        Route::NotFound
    } else if same_text(path, ENTRY_PATH) {
        Route::Entry
    } else if same_text(path, STATUS_PATH) {
        Route::Status
    } else {
        Route::NotFound
    }
}

/// The reply that reports the service's status. It depends on nothing.
pub fn status_response() -> (response: Response)
    ensures
        response@ == status_reply(),
{
    Response {
        status: 200,
        content_type: ContentType::Json,
        body: String::from_str(STATUS_BODY),
    }
}

/// The reply to a request that no route serves.
pub fn not_found_response() -> (response: Response)
    ensures
        response@ == not_found_reply(),
{
    Response {
        status: 404,
        content_type: ContentType::PlainText,
        body: String::from_str(NOT_FOUND_BODY),
    }
}

/// The reply to a request whose recording failed.
pub fn internal_error_response() -> (response: Response)
    ensures
        response@ == internal_error_reply(),
{
    Response {
        status: 500,
        content_type: ContentType::PlainText,
        body: String::from_str(INTERNAL_ERROR_BODY),
    }
}

/// The reply that reports a recorded entry. The token in it is canonical.
pub fn entry_response(recorded: &Recorded) -> (response: Response)
    ensures
        response@ == entry_reply(recorded@),
        is_canonical(recorded@.token),
{
    let mut body = String::from_str("{\"count\":");
    body.append(decimal(recorded.count).as_str());
    body.append(",\"message\":\"");
    body.append(ENTRY_MESSAGE);
    body.append("\",\"newEntry\":\"");
    body.append(recorded.token.as_str());
    body.append("\"}");
    Response { status: 200, content_type: ContentType::Json, body }
}

/// The reply to a request for an entry, by what the recording yielded.
pub fn outcome_response(outcome: &Result<Recorded, RecordError>) -> (response: Response)
    ensures
        response@ == outcome_reply(
            match *outcome {
                Ok(recorded) => Ok(recorded@),
                Err(error) => Err(error@),
            },
        ),
        response.status == 200 <==> outcome.is_ok(),
        response.status == 500 <==> outcome.is_err(),
        outcome matches Ok(recorded) ==> is_canonical(recorded@.token),
{
    match outcome {
        Ok(recorded) => entry_response(recorded),
        Err(_) => internal_error_response(),
    }
}

fn turn(recorder: Recorder, action: Action) -> (turn: Turn)
    ensures
        turn@ == turn_of(recorder@, action@),
        turn@ matches TurnView::Reply(reply) ==> (reply.status == 200 ==> exists|
            token: Seq<char>,
            count: int,
        |
            is_canonical(token) && reply == #[trigger] entry_reply(RecordedView { token, count })),
{
    match recorder {
        Recorder::Finished(recorded) => {
            let response = entry_response(&recorded);
            assert(response@ == entry_reply(
                RecordedView { token: recorded@.token, count: recorded@.count },
            ));
            Turn::Reply(response)
        },
        Recorder::Failed(_) => Turn::Reply(internal_error_response()),
        running => Turn::Ask(Exchange { recorder: running }, action),
    }
}

/// Begins the exchange for a request of `method` on `path`. Only a request
/// for an entry asks anything of the store; the other two are answered at
/// once, whatever the store's state.
pub fn begin(method: &str, path: &str, descriptor: &ConnectionDescriptor) -> (first: Turn)
    ensures
        first@ == opening(method@, path@, descriptor@),
{
    match route(method, path) {
        Route::Entry => {
            let (recorder, action) = Recorder::start(descriptor);
            Turn::Ask(Exchange { recorder }, action)
        },
        Route::Status => Turn::Reply(status_response()),
        Route::NotFound => Turn::Reply(not_found_response()),
    }
}

impl Exchange {
    /// Resumes the exchange when the pending request has ended with `event`,
    /// with `fresh` as the token to insert if the insert starts now. A reply
    /// of success reports a canonical token.
    pub fn resume_with(self, event: Event, fresh: Token) -> (next: Turn)
        ensures
            next@ == following(self@, event@, fresh@),
            next@ matches TurnView::Reply(reply) ==> (reply.status == 200 ==> exists|
                token: Seq<char>,
                count: int,
            |
                is_canonical(token) && reply == #[trigger] entry_reply(
                    RecordedView { token, count },
                )),
    {
        let (recorder, action) = self.recorder.advance_with(event, fresh);
        turn(recorder, action)
    }

    /// Resumes the exchange when the pending request has ended with `event`.
    /// Where the insert starts now, its token is a fresh random one; nothing
    /// else depends on a token. A reply of success reports a canonical token.
    pub fn resume(self, event: Event) -> (next: Turn)
        ensures
            exists|fresh: Seq<char>|
                is_canonical(fresh) && is_random_kind(fresh) && next@ == #[trigger] following(
                    self@,
                    event@,
                    fresh,
                ),
            !takes_token(self@, event@) ==> forall|any: Seq<char>|
                next@ == following(self@, event@, any),
            next@ matches TurnView::Reply(reply) ==> (reply.status == 200 ==> exists|
                token: Seq<char>,
                count: int,
            |
                is_canonical(token) && reply == #[trigger] entry_reply(
                    RecordedView { token, count },
                )),
    {
        let ghost state = self@;
        let ghost happened = event@;
        let (recorder, action) = self.recorder.advance(event);
        let next = turn(recorder, action);
        proof {
            let fresh = choose|fresh: Seq<char>|
                is_canonical(fresh) && is_random_kind(fresh) && (recorder@, action@) == #[trigger] step(
                    state,
                    happened,
                    fresh,
                );
            assert(next@ == following(state, happened, fresh));
            if !takes_token(state, happened) {
                assert forall|any: Seq<char>| next@ == following(state, happened, any) by {
                    assert((recorder@, action@) == step(state, happened, any));
                }
            }
        }
        next
    }
}

/// A request for the status is answered at once with the status reply,
/// however the store is described and whatever state it is in: the store is
/// asked for nothing.
pub proof fn lemma_status_needs_no_store(d: DescriptorView)
    ensures
        opening(SERVED_METHOD@, STATUS_PATH@, d) == TurnView::Reply(status_reply()),
        status_reply().status == 200,
        status_reply().body == STATUS_BODY@,
{
    reveal_strlit("/");
    reveal_strlit("/status");
    assert(ENTRY_PATH@.len() != STATUS_PATH@.len());
}

/// A request on any path but the two served ones is told that nothing is
/// there, whatever its method.
pub proof fn lemma_unserved_path_not_found(method: Seq<char>, path: Seq<char>, d: DescriptorView)
    requires
        path != ENTRY_PATH@,
        path != STATUS_PATH@,
    ensures
        opening(method, path, d) == TurnView::Reply(not_found_reply()),
        not_found_reply().status == 404,
{
}

/// A request on a served path with any method but the served one is told
/// that nothing is there.
pub proof fn lemma_unserved_method_not_found(method: Seq<char>, path: Seq<char>, d: DescriptorView)
    requires
        method != SERVED_METHOD@,
    ensures
        opening(method, path, d) == TurnView::Reply(not_found_reply()),
{
}

/// A request for an entry starts by asking for a connection to the store.
pub proof fn lemma_entry_asks_for_connection(d: DescriptorView)
    ensures
        opening(SERVED_METHOD@, ENTRY_PATH@, d) == TurnView::Ask(
            RecorderView::Connecting,
            first_action(d),
        ),
{
}

/// While a recording runs, a failure of the pending request ends the
/// exchange with the internal-error reply, which is the same for every
/// cause. A store that cannot be reached is the case of the first request.
pub proof fn lemma_failure_is_internal_error(
    state: RecorderView,
    cause: Seq<char>,
    fresh: Seq<char>,
)
    requires
        !is_over(state),
    ensures
        following(state, EventView::Failed(cause), fresh) == TurnView::Reply(internal_error_reply()),
        internal_error_reply().status == 500,
{
}

/// A reply of success comes only at the end of the count, and reports the
/// token that was inserted with the number that the store counted.
pub proof fn lemma_success_reports_the_count(
    state: RecorderView,
    event: EventView,
    fresh: Seq<char>,
)
    requires
        !is_over(state),
        following(state, event, fresh) matches TurnView::Reply(reply) && reply.status == 200,
    ensures
        state is Counting,
        event is Counted,
        following(state, event, fresh) == TurnView::Reply(
            entry_reply(RecordedView { token: state->Counting_0, count: event->Counted_0 }),
        ),
{
}

} // verus!
