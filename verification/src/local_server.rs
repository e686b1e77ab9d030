//! The local callback listener: a single loopback route that captures one
//! authorization code and hands it off exactly once.
//!
//! Binding the socket and serving connections is the caller's work. This
//! module holds the listener's life cycle and what it decides for each
//! inbound request.

use vstd::prelude::*;
use vstd::string::*;
use crate::text::{find_last, last_value, same_text, Pairs};

verus! {

/// Loopback address the listener binds to.
pub const CALLBACK_ADDRESS: [u8; 4] = [127, 0, 0, 1];

/// Fixed port the listener binds to.
pub const CALLBACK_PORT: u16 = 49153;

/// Path of the only route the listener serves.
pub const CALLBACK_PATH: &'static str = "/callback";

/// The same path as a browser may write it, with a slash at its end.
pub const CALLBACK_PATH_SLASH: &'static str = "/callback/";

/// Method of the only route the listener serves.
pub const CALLBACK_METHOD: &'static str = "GET";

/// Query parameter that carries the authorization code.
pub const CODE_PARAMETER: &'static str = "code";

/// Query parameter that carries the state of the request that the answer
/// belongs to.
pub const STATE_PARAMETER: &'static str = "state";

/// Where a listener is in its life.
#[derive(Clone, Copy, Debug, PartialEq, Eq, Structural)]
pub enum ListenerState {
    /// Nothing is bound.
    NotStarted,
    /// The route is served and the hand-off slot is still full.
    Listening,
    /// A code was handed off; the slot is empty for good.
    Delivered,
    /// The listener was shut down before any code arrived.
    Aborted,
}

/// The loopback port is already owned by a login attempt.
#[derive(Clone, Copy, Debug, PartialEq, Eq, Structural)]
pub struct ListenerBindError;

/// What the browser is told.
#[derive(Clone, Copy, Debug, PartialEq, Eq, Structural)]
pub enum CallbackReply {
    /// The request carried an authorization code.
    Authorized,
    /// The request matched the route but carried no authorization code.
    MissingCode,
    /// The request carried a code, but not the state that the listener
    /// expects.
    StateMismatch,
    /// The request is not for the callback route.
    NotFound,
    /// No listener is serving.
    NotListening,
}

/// What one inbound request led to.
#[derive(Debug, PartialEq, Eq)]
pub struct CallbackOutcome {
    /// The page to answer with.
    pub reply: CallbackReply,
    /// The authorization code to hand to the waiting coordinator, if this
    /// request is the one that delivers it.
    pub delivered: Option<String>,
}

/// An inbound request, as the HTTP layer decoded it.
#[derive(Debug, PartialEq, Eq)]
pub struct CallbackRequest {
    pub method: String,
    pub path: String,
    pub query: Vec<(String, String)>,
}

/// The listener on the fixed loopback port.
#[derive(Debug, PartialEq, Eq)]
pub struct Listener {
    state: ListenerState,
    expected_state: Option<String>,
}

/// The non-empty `code` parameter of a query, if it has one.
pub open spec fn code_in(query: Pairs) -> Option<Seq<char>> {
    match last_value(query, CODE_PARAMETER@) {
        Some(code) => if code.len() > 0 {
            Some(code)
        } else {
            None
        },
        None => None,
    }
}

/// Whether a request is for the callback route: a `GET` for the callback
/// path, with or without a slash at its end.
pub open spec fn on_route(method: Seq<char>, path: Seq<char>) -> bool {
    method == CALLBACK_METHOD@ && (path == CALLBACK_PATH@ || path == CALLBACK_PATH_SLASH@)
}

/// Whether a query carries the state that the listener expects. A listener
/// that expects none takes any query.
pub open spec fn state_accepted(expected: Option<Seq<char>>, query: Pairs) -> bool {
    expected matches Some(state) ==> last_value(query, STATE_PARAMETER@) == Some(state)
}

/// The code of a query that delivers: it carries a code, and the state that
/// the listener expects.
pub open spec fn valid_code(expected: Option<Seq<char>>, query: Pairs) -> Option<Seq<char>> {
    if state_accepted(expected, query) {
        code_in(query)
    } else {
        None
    }
}

/// The state after the callback handler saw `query` in `state`.
pub open spec fn state_after_callback(
    state: ListenerState,
    expected: Option<Seq<char>>,
    query: Pairs,
) -> ListenerState {
    if state == ListenerState::Listening && valid_code(expected, query) is Some {
        ListenerState::Delivered
    } else {
        state
    }
}

/// The code the callback handler hands off for `query` in `state`.
pub open spec fn code_handed_off(
    state: ListenerState,
    expected: Option<Seq<char>>,
    query: Pairs,
) -> Option<Seq<char>> {
    if state == ListenerState::Listening {
        valid_code(expected, query)
    } else {
        None
    }
}

/// The page the callback handler answers with for `query` in `state`.
pub open spec fn reply_to_callback(
    state: ListenerState,
    expected: Option<Seq<char>>,
    query: Pairs,
) -> CallbackReply {
    if state == ListenerState::NotStarted || state == ListenerState::Aborted {
        CallbackReply::NotListening
    } else if code_in(query) is None {
        CallbackReply::MissingCode
    } else if !state_accepted(expected, query) {
        CallbackReply::StateMismatch
    } else {
        CallbackReply::Authorized
    }
}

/// Whether a listener in `state` can claim the port: only one that holds
/// nothing can.
pub open spec fn can_start(state: ListenerState) -> bool {
    state == ListenerState::NotStarted
}

/// The state after a listener was released: the port is free again.
pub open spec fn state_after_release(state: ListenerState) -> ListenerState {
    ListenerState::NotStarted
}

/// The state after `start` was asked of a listener in `state`.
pub open spec fn state_after_start(state: ListenerState) -> ListenerState {
    if can_start(state) {
        ListenerState::Listening
    } else {
        state
    }
}

/// The state after `abort` was asked of a listener in `state`.
pub open spec fn state_after_abort(state: ListenerState) -> ListenerState {
    if state == ListenerState::Listening {
        ListenerState::Aborted
    } else {
        state
    }
}

impl View for Listener {
    type V = ListenerState;

    closed spec fn view(&self) -> ListenerState {
        self.state
    }
}

impl View for CallbackRequest {
    type V = (Seq<char>, Seq<char>, Pairs);

    open spec fn view(&self) -> (Seq<char>, Seq<char>, Pairs) {
        (self.method@, self.path@, self.query.deep_view())
    }
}

impl CallbackReply {
    /// The `status` member of the page.
    pub fn status(&self) -> (r: &'static str)
        ensures
            r@ == (if *self == CallbackReply::Authorized {
                "success"@
            } else {
                "error"@
            }),
    {
        match self {
            CallbackReply::Authorized => "success",
            _ => "error",
        }
    }

    /// The HTTP status the page is sent with.
    pub fn http_status(&self) -> (r: u16)
        ensures
            r == match *self {
                CallbackReply::Authorized => 200u16,
                CallbackReply::MissingCode => 200u16,
                CallbackReply::StateMismatch => 400u16,
                CallbackReply::NotFound => 404u16,
                CallbackReply::NotListening => 503u16,
            },
    {
        match self {
            CallbackReply::Authorized => 200,
            CallbackReply::MissingCode => 200,
            CallbackReply::StateMismatch => 400,
            CallbackReply::NotFound => 404,
            CallbackReply::NotListening => 503,
        }
    }

    /// The `message` member of the page.
    pub fn message(&self) -> (r: &'static str)
        ensures
            r@ == match *self {
                CallbackReply::Authorized =>
                    "Successfully authorized! You can close this window and return to the terminal."@,
                CallbackReply::MissingCode => "Authorization failed or code not found."@,
                CallbackReply::StateMismatch =>
                    "Authorization failed: the answer does not belong to this login."@,
                CallbackReply::NotFound => "Not found."@,
                CallbackReply::NotListening => "No login is waiting for a callback."@,
            },
    {
        match self {
            CallbackReply::Authorized =>
                "Successfully authorized! You can close this window and return to the terminal.",
            CallbackReply::MissingCode => "Authorization failed or code not found.",
            CallbackReply::StateMismatch =>
                "Authorization failed: the answer does not belong to this login.",
            CallbackReply::NotFound => "Not found.",
            CallbackReply::NotListening => "No login is waiting for a callback.",
        }
    }
}

impl Listener {
    /// The state that an answer must carry to deliver its code; `None`
    /// where any answer will do.
    pub closed spec fn expected(&self) -> Option<Seq<char>> {
        self.expected_state.deep_view()
    }

    /// A listener that has not been started, and that takes the code of any
    /// answer.
    pub fn new() -> (r: Listener)
        ensures
            r@ == ListenerState::NotStarted,
            r.expected() is None,
    {
        Listener { state: ListenerState::NotStarted, expected_state: None }
    }

    /// A listener that has not been started, and that takes a code only
    /// from an answer that carries `state`.
    pub fn expecting(state: &str) -> (r: Listener)
        ensures
            r@ == ListenerState::NotStarted,
            r.expected() == Some(state@),
    {
        Listener {
            state: ListenerState::NotStarted,
            expected_state: Some(String::from_str(state)),
        }
    }

    /// The listener's state.
    pub fn state(&self) -> (r: ListenerState)
        ensures
            r == self@,
    {
        self.state
    }

    /// Whether the listener holds the port.
    pub fn holds_port(&self) -> (r: bool)
        ensures
            r == !can_start(self@),
    {
        self.state != ListenerState::NotStarted
    }

    /// Claims the port for one login attempt. A listener that was not started
    /// begins listening; any other still owns the port from an attempt that
    /// was not released, and the new attempt fails at once.
    pub fn start(&mut self) -> (r: Result<(), ListenerBindError>)
        ensures
            r is Ok <==> can_start(old(self)@),
            final(self)@ == state_after_start(old(self)@),
            final(self).expected() == old(self).expected(),
    {
        if self.state == ListenerState::NotStarted {
            self.state = ListenerState::Listening;
            Ok(())
        } else {
            Err(ListenerBindError)
        }
    }

    /// Forces a listening listener down; whoever waits on the hand-off sees
    /// it closed. Returns whether the listener was listening.
    pub fn abort(&mut self) -> (r: bool)
        ensures
            r == (old(self)@ == ListenerState::Listening),
            final(self)@ == state_after_abort(old(self)@),
            final(self).expected() == old(self).expected(),
    {
        if self.state == ListenerState::Listening {
            self.state = ListenerState::Aborted;
            true
        } else {
            false
        }
    }

    /// Tears the listener down and gives the port back.
    pub fn release(&mut self)
        ensures
            final(self)@ == state_after_release(old(self)@),
            final(self).expected() == old(self).expected(),
    {
        self.state = ListenerState::NotStarted;
    }
}

/// Reads the authorization code out of a decoded query. An empty `code` is
/// no code.
pub fn authorization_code(query: &Vec<(String, String)>) -> (r: Option<String>)
    ensures
        r.deep_view() == code_in(query.deep_view()),
{
    match find_last(query, CODE_PARAMETER) {
        Some(code) => {
            if code.as_str().unicode_len() > 0 {
                Some(code)
            } else {
                None
            }
        },
        None => None,
    }
}

/// Whether a decoded query carries the state `expected`, where one is
/// expected.
pub fn check_state(expected: &Option<String>, query: &Vec<(String, String)>) -> (r: bool)
    ensures
        r == state_accepted(expected.deep_view(), query.deep_view()),
{
    match expected {
        Some(state) => match find_last(query, STATE_PARAMETER) {
            Some(given) => same_text(given.as_str(), state.as_str()),
            None => false,
        },
        None => true,
    }
}

/// Handles one request that reached the callback route. The first request
/// with a code, and with the state that the listener expects, empties the
/// hand-off slot; every later one finds it empty and delivers nothing. A
/// request without a code, or with another state, changes nothing.
pub fn callback_handler(query: &Vec<(String, String)>, listener: &mut Listener) -> (r:
    CallbackOutcome)
    ensures
        final(listener)@ == state_after_callback(
            old(listener)@,
            old(listener).expected(),
            query.deep_view(),
        ),
        final(listener).expected() == old(listener).expected(),
        r.delivered.deep_view() == code_handed_off(
            old(listener)@,
            old(listener).expected(),
            query.deep_view(),
        ),
        r.reply == reply_to_callback(old(listener)@, old(listener).expected(), query.deep_view()),
{
    match listener.state {
        ListenerState::NotStarted | ListenerState::Aborted => CallbackOutcome {
            reply: CallbackReply::NotListening,
            delivered: None,
        },
        ListenerState::Listening | ListenerState::Delivered => {
            match authorization_code(query) {
                Some(code) => {
                    if !check_state(&listener.expected_state, query) {
                        CallbackOutcome { reply: CallbackReply::StateMismatch, delivered: None }
                    } else if listener.state == ListenerState::Listening {
                        listener.state = ListenerState::Delivered;
                        CallbackOutcome { reply: CallbackReply::Authorized, delivered: Some(code) }
                    } else {
                        CallbackOutcome { reply: CallbackReply::Authorized, delivered: None }
                    }
                },
                None => CallbackOutcome { reply: CallbackReply::MissingCode, delivered: None },
            }
        },
    }
}

/// Serves one inbound request: only a `GET` for the callback path reaches
/// the callback handler, anything else is answered with `NotFound` and
/// changes nothing.
pub fn run_server(listener: &mut Listener, request: &CallbackRequest) -> (r: CallbackOutcome)
    ensures
        final(listener).expected() == old(listener).expected(),
        on_route(request.method@, request.path@) ==> {
            &&& final(listener)@ == state_after_callback(
                old(listener)@,
                old(listener).expected(),
                request.query.deep_view(),
            )
            &&& r.delivered.deep_view() == code_handed_off(
                old(listener)@,
                old(listener).expected(),
                request.query.deep_view(),
            )
            &&& r.reply == reply_to_callback(
                old(listener)@,
                old(listener).expected(),
                request.query.deep_view(),
            )
        },
        !on_route(request.method@, request.path@) ==> {
            &&& final(listener)@ == old(listener)@
            &&& r.delivered is None
            &&& r.reply == CallbackReply::NotFound
        },
{
    if same_text(request.method.as_str(), CALLBACK_METHOD) && (same_text(
        request.path.as_str(),
        CALLBACK_PATH,
    ) || same_text(request.path.as_str(), CALLBACK_PATH_SLASH)) {
        callback_handler(&request.query, listener)
    } else {
        CallbackOutcome { reply: CallbackReply::NotFound, delivered: None }
    }
}

/// The state after the callback handler saw each of `queries` in turn,
/// starting in `state`.
pub open spec fn state_after_callbacks(
    state: ListenerState,
    expected: Option<Seq<char>>,
    queries: Seq<Pairs>,
) -> ListenerState
    decreases queries.len(),
{
    if queries.len() == 0 {
        state
    } else {
        state_after_callbacks(
            state_after_callback(state, expected, queries[0]),
            expected,
            queries.skip(1),
        )
    }
}

/// The codes the callback handler hands off while it sees each of `queries`
/// in turn, starting in `state`.
pub open spec fn codes_handed_off(
    state: ListenerState,
    expected: Option<Seq<char>>,
    queries: Seq<Pairs>,
) -> Seq<Seq<char>>
    decreases queries.len(),
{
    if queries.len() == 0 {
        Seq::empty()
    } else {
        let later = codes_handed_off(
            state_after_callback(state, expected, queries[0]),
            expected,
            queries.skip(1),
        );
        match code_handed_off(state, expected, queries[0]) {
            Some(code) => seq![code] + later,
            None => later,
        }
    }
}

/// Sequential logins: a fresh listener starts; while it holds the port no
/// second start succeeds; and whatever the attempt came to, once the
/// listener is released it starts again.
pub proof fn lemma_sequential_logins(reached: ListenerState)
    ensures
        can_start(ListenerState::NotStarted),
        state_after_start(ListenerState::NotStarted) == ListenerState::Listening,
        !can_start(ListenerState::Listening),
        !can_start(ListenerState::Delivered),
        !can_start(ListenerState::Aborted),
        can_start(state_after_release(reached)),
        state_after_start(state_after_release(reached)) == ListenerState::Listening,
{
}

/// Exactly-once delivery: of two requests that both carry a valid code, the
/// first is handed off and the second is not; the second is answered, and
/// leaves the listener as the first left it.
pub proof fn lemma_exactly_once_delivery(expected: Option<Seq<char>>, first: Pairs, second: Pairs)
    requires
        valid_code(expected, first) is Some,
        valid_code(expected, second) is Some,
    ensures
        code_handed_off(ListenerState::Listening, expected, first) == valid_code(expected, first),
        state_after_callback(ListenerState::Listening, expected, first)
            == ListenerState::Delivered,
        code_handed_off(ListenerState::Delivered, expected, second) is None,
        state_after_callback(ListenerState::Delivered, expected, second)
            == ListenerState::Delivered,
        reply_to_callback(ListenerState::Delivered, expected, second) == CallbackReply::Authorized,
{
}

/// A listener that is not listening hands off nothing, however many
/// requests it sees.
pub proof fn lemma_nothing_without_listening(
    state: ListenerState,
    expected: Option<Seq<char>>,
    queries: Seq<Pairs>,
)
    requires
        state != ListenerState::Listening,
    ensures
        codes_handed_off(state, expected, queries).len() == 0,
        state_after_callbacks(state, expected, queries) == state,
    decreases queries.len(),
{
    if queries.len() > 0 {
        lemma_nothing_without_listening(state, expected, queries.skip(1));
    }
}

/// At most one code is ever handed off, whatever requests arrive and in
/// whatever state the listener is; where one is, it is the code of the first
/// request that carries a valid one.
pub proof fn lemma_at_most_one_delivery(
    state: ListenerState,
    expected: Option<Seq<char>>,
    queries: Seq<Pairs>,
)
    ensures
        codes_handed_off(state, expected, queries).len() <= 1,
        codes_handed_off(state, expected, queries).len() == 1 ==> state
            == ListenerState::Listening && state_after_callbacks(state, expected, queries)
            == ListenerState::Delivered && exists|i: int|
            0 <= i < queries.len() && valid_code(expected, #[trigger] queries[i]) == Some(
                codes_handed_off(state, expected, queries)[0],
            ) && forall|j: int| 0 <= j < i ==> valid_code(expected, #[trigger] queries[j]) is None,
    decreases queries.len(),
{
    if queries.len() > 0 {
        let next = state_after_callback(state, expected, queries[0]);
        let rest = queries.skip(1);
        match code_handed_off(state, expected, queries[0]) {
            Some(code) => {
                lemma_nothing_without_listening(next, expected, rest);
                assert(codes_handed_off(next, expected, rest) =~= Seq::<Seq<char>>::empty());
                assert(codes_handed_off(state, expected, queries) =~= seq![code]);
                assert(valid_code(expected, queries[0]) == Some(code));
            },
            None => {
                lemma_at_most_one_delivery(next, expected, rest);
                if codes_handed_off(state, expected, queries).len() == 1 {
                    let i = choose|i: int|
                        0 <= i < rest.len() && valid_code(expected, #[trigger] rest[i]) == Some(
                            codes_handed_off(next, expected, rest)[0],
                        ) && forall|j: int|
                            0 <= j < i ==> valid_code(expected, #[trigger] rest[j]) is None;
                    assert(rest[i] == queries[i + 1]);
                    assert forall|j: int| 0 <= j < i + 1 implies valid_code(
                        expected,
                        #[trigger] queries[j],
                    ) is None by {
                        if j > 0 {
                            assert(queries[j] == rest[j - 1]);
                        }
                    }
                }
            },
        }
    }
}

/// A request without a code leaves a listening listener listening: nothing
/// is handed off, and the browser is told that the code is missing. So does
/// a request with a code and with another state than the listener expects.
pub proof fn lemma_missing_code_keeps_listening(expected: Option<Seq<char>>, query: Pairs)
    requires
        valid_code(expected, query) is None,
    ensures
        state_after_callback(ListenerState::Listening, expected, query)
            == ListenerState::Listening,
        code_handed_off(ListenerState::Listening, expected, query) is None,
        code_in(query) is None ==> reply_to_callback(ListenerState::Listening, expected, query)
            == CallbackReply::MissingCode,
        code_in(query) is Some ==> reply_to_callback(ListenerState::Listening, expected, query)
            == CallbackReply::StateMismatch,
{
}

/// A listening listener stops listening only when a request carries a valid
/// code, which delivers, or when it is aborted.
pub proof fn lemma_resolution_needs_code_or_abort(expected: Option<Seq<char>>, query: Pairs)
    ensures
        state_after_callback(ListenerState::Listening, expected, query)
            != ListenerState::Listening ==> valid_code(expected, query) is Some
            && state_after_callback(ListenerState::Listening, expected, query)
            == ListenerState::Delivered,
        state_after_abort(ListenerState::Listening) == ListenerState::Aborted,
{
}

/// A listener that expects no state takes every code: a query is valid as
/// soon as it carries one.
pub proof fn lemma_any_state_without_expectation(query: Pairs)
    ensures
        valid_code(None, query) == code_in(query),
{
}

} // verus!
