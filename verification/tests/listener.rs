use tick_cli::local_server::{
    authorization_code, callback_handler, check_state, run_server, CallbackOutcome, CallbackReply,
    CallbackRequest, Listener, ListenerBindError, ListenerState, CALLBACK_ADDRESS,
    CALLBACK_METHOD, CALLBACK_PATH, CALLBACK_PORT,
};
use tick_cli::text::{find_last, same_text};

fn pair(key: &str, value: &str) -> (String, String) {
    (key.to_string(), value.to_string())
}

fn request(method: &str, path: &str, query: Vec<(String, String)>) -> CallbackRequest {
    CallbackRequest { method: method.to_string(), path: path.to_string(), query }
}

#[test]
fn sequential_logins_on_the_same_port() {
    let mut listener = Listener::new();
    assert_eq!(listener.state(), ListenerState::NotStarted);
    assert!(!listener.holds_port());
    assert_eq!(listener.start(), Ok(()));
    assert!(listener.holds_port());
    let outcome = callback_handler(&vec![pair("code", "first")], &mut listener);
    assert_eq!(outcome.delivered, Some("first".to_string()));
    listener.release();
    assert_eq!(listener.state(), ListenerState::NotStarted);
    assert_eq!(listener.start(), Ok(()));
    assert_eq!(listener.state(), ListenerState::Listening);
    let outcome = callback_handler(&vec![pair("code", "second")], &mut listener);
    assert_eq!(outcome.delivered, Some("second".to_string()));
}

#[test]
fn second_start_fails_while_the_port_is_held() {
    let mut listener = Listener::new();
    assert_eq!(listener.start(), Ok(()));
    assert_eq!(listener.start(), Err(ListenerBindError));
    assert_eq!(listener.state(), ListenerState::Listening);
    callback_handler(&vec![pair("code", "c")], &mut listener);
    assert_eq!(listener.start(), Err(ListenerBindError));
    assert_eq!(listener.state(), ListenerState::Delivered);
    let mut aborted = Listener::new();
    assert_eq!(aborted.start(), Ok(()));
    assert!(aborted.abort());
    assert_eq!(aborted.start(), Err(ListenerBindError));
    assert_eq!(aborted.state(), ListenerState::Aborted);
}

#[test]
fn exactly_once_delivery() {
    let mut listener = Listener::new();
    listener.start().unwrap();
    let first = callback_handler(&vec![pair("code", "ONE")], &mut listener);
    assert_eq!(
        first,
        CallbackOutcome { reply: CallbackReply::Authorized, delivered: Some("ONE".to_string()) }
    );
    assert_eq!(listener.state(), ListenerState::Delivered);
    let second = callback_handler(&vec![pair("code", "TWO")], &mut listener);
    assert_eq!(second, CallbackOutcome { reply: CallbackReply::Authorized, delivered: None });
    assert_eq!(listener.state(), ListenerState::Delivered);
    let third = callback_handler(&vec![], &mut listener);
    assert_eq!(third, CallbackOutcome { reply: CallbackReply::MissingCode, delivered: None });
    assert_eq!(listener.state(), ListenerState::Delivered);
}

#[test]
fn request_without_code_keeps_listening() {
    let mut listener = Listener::new();
    listener.start().unwrap();
    for query in [
        vec![],
        vec![pair("state", "xyz")],
        vec![pair("error", "access_denied"), pair("state", "xyz")],
        vec![pair("code", "")],
        vec![pair("Code", "XYZ")],
    ] {
        let outcome = callback_handler(&query, &mut listener);
        assert_eq!(
            outcome,
            CallbackOutcome { reply: CallbackReply::MissingCode, delivered: None }
        );
        assert_eq!(listener.state(), ListenerState::Listening);
    }
    let outcome = callback_handler(&vec![pair("state", "xyz"), pair("code", "XYZ")], &mut listener);
    assert_eq!(outcome.delivered, Some("XYZ".to_string()));
    assert_eq!(listener.state(), ListenerState::Delivered);
}

#[test]
fn abort_closes_a_listening_listener_only() {
    let mut listener = Listener::new();
    assert!(!listener.abort());
    assert_eq!(listener.state(), ListenerState::NotStarted);
    listener.start().unwrap();
    assert!(listener.abort());
    assert_eq!(listener.state(), ListenerState::Aborted);
    let outcome = callback_handler(&vec![pair("code", "late")], &mut listener);
    assert_eq!(outcome, CallbackOutcome { reply: CallbackReply::NotListening, delivered: None });
    assert_eq!(listener.state(), ListenerState::Aborted);

    let mut delivered = Listener::new();
    delivered.start().unwrap();
    callback_handler(&vec![pair("code", "c")], &mut delivered);
    assert!(!delivered.abort());
    assert_eq!(delivered.state(), ListenerState::Delivered);
}

#[test]
fn listener_that_was_not_started_serves_nothing() {
    let mut listener = Listener::new();
    let outcome = callback_handler(&vec![pair("code", "early")], &mut listener);
    assert_eq!(outcome, CallbackOutcome { reply: CallbackReply::NotListening, delivered: None });
    assert_eq!(listener.state(), ListenerState::NotStarted);
}

#[test]
fn the_last_code_of_a_query_counts() {
    assert_eq!(
        authorization_code(&vec![pair("code", "a"), pair("x", "y"), pair("code", "b")]),
        Some("b".to_string())
    );
    assert_eq!(authorization_code(&vec![pair("code", "a"), pair("code", "")]), None);
    assert_eq!(authorization_code(&vec![pair("x", "code")]), None);
}

#[test]
fn only_get_callback_reaches_the_handler() {
    let mut listener = Listener::new();
    listener.start().unwrap();
    for (method, path) in [
        ("POST", "/callback"),
        ("get", "/callback"),
        ("GET", "/"),
        ("GET", "/callback//"),
        ("GET", "//callback"),
        ("GET", "/callback/x"),
        ("GET", "callback"),
        ("GET", "/other"),
    ] {
        let outcome = run_server(&mut listener, &request(method, path, vec![pair("code", "XYZ")]));
        assert_eq!(outcome, CallbackOutcome { reply: CallbackReply::NotFound, delivered: None });
        assert_eq!(listener.state(), ListenerState::Listening);
    }
    let outcome = run_server(&mut listener, &request("GET", "/callback", vec![]));
    assert_eq!(outcome.reply, CallbackReply::MissingCode);
    let outcome = run_server(&mut listener, &request("GET", "/callback/", vec![]));
    assert_eq!(outcome.reply, CallbackReply::MissingCode);
    assert_eq!(listener.state(), ListenerState::Listening);
    let outcome =
        run_server(&mut listener, &request("GET", "/callback", vec![pair("code", "XYZ")]));
    assert_eq!(
        outcome,
        CallbackOutcome { reply: CallbackReply::Authorized, delivered: Some("XYZ".to_string()) }
    );
    assert_eq!(listener.state(), ListenerState::Delivered);
}

#[test]
fn the_route_is_fixed() {
    assert_eq!(CALLBACK_ADDRESS, [127, 0, 0, 1]);
    assert_eq!(CALLBACK_PORT, 49153);
    assert_eq!(CALLBACK_PATH, "/callback");
    assert_eq!(CALLBACK_METHOD, "GET");
    assert_eq!(
        tick_cli::api::REDIRECT_URI,
        format!("http://127.0.0.1:{}{}", CALLBACK_PORT, CALLBACK_PATH)
    );
}

#[test]
fn reply_pages() {
    assert_eq!(CallbackReply::Authorized.status(), "success");
    assert_eq!(
        CallbackReply::Authorized.message(),
        "Successfully authorized! You can close this window and return to the terminal."
    );
    assert_eq!(CallbackReply::MissingCode.status(), "error");
    assert_eq!(CallbackReply::MissingCode.message(), "Authorization failed or code not found.");
    assert_eq!(CallbackReply::NotFound.status(), "error");
    assert_eq!(CallbackReply::NotListening.status(), "error");
    assert_eq!(CallbackReply::Authorized.http_status(), 200);
    assert_eq!(CallbackReply::MissingCode.http_status(), 200);
    assert_eq!(CallbackReply::StateMismatch.http_status(), 400);
    assert_eq!(CallbackReply::NotFound.http_status(), 404);
    assert_eq!(CallbackReply::NotListening.http_status(), 503);
}

#[test]
fn text_helpers() {
    assert!(same_text("", ""));
    assert!(same_text("héllo", "héllo"));
    assert!(!same_text("hello", "hellO"));
    assert!(!same_text("hello", "hell"));
    assert!(!same_text("", "a"));
    let pairs = vec![pair("a", "1"), pair("b", "2"), pair("a", "3")];
    assert_eq!(find_last(&pairs, "a"), Some("3".to_string()));
    assert_eq!(find_last(&pairs, "b"), Some("2".to_string()));
    assert_eq!(find_last(&pairs, "c"), None);
    assert_eq!(find_last(&vec![], "a"), None);
}

#[test]
fn listener_that_expects_a_state_takes_no_other() {
    let mut listener = Listener::expecting("xyz");
    assert_eq!(listener.start(), Ok(()));
    for query in [
        vec![pair("code", "XYZ")],
        vec![pair("code", "XYZ"), pair("state", "abc")],
        vec![pair("code", "XYZ"), pair("state", "")],
        vec![pair("code", "XYZ"), pair("state", "xyz"), pair("state", "abc")],
        vec![pair("code", "XYZ"), pair("State", "xyz")],
    ] {
        let outcome = callback_handler(&query, &mut listener);
        assert_eq!(
            outcome,
            CallbackOutcome { reply: CallbackReply::StateMismatch, delivered: None }
        );
        assert_eq!(listener.state(), ListenerState::Listening);
    }
    let outcome = callback_handler(&vec![pair("state", "xyz")], &mut listener);
    assert_eq!(outcome, CallbackOutcome { reply: CallbackReply::MissingCode, delivered: None });
    assert_eq!(listener.state(), ListenerState::Listening);

    let outcome =
        callback_handler(&vec![pair("code", "XYZ"), pair("state", "xyz")], &mut listener);
    assert_eq!(
        outcome,
        CallbackOutcome { reply: CallbackReply::Authorized, delivered: Some("XYZ".to_string()) }
    );
    assert_eq!(listener.state(), ListenerState::Delivered);

    // Later answers deliver nothing, whatever their state.
    let outcome =
        callback_handler(&vec![pair("code", "ABC"), pair("state", "xyz")], &mut listener);
    assert_eq!(outcome, CallbackOutcome { reply: CallbackReply::Authorized, delivered: None });
    let outcome = callback_handler(&vec![pair("code", "ABC")], &mut listener);
    assert_eq!(outcome, CallbackOutcome { reply: CallbackReply::StateMismatch, delivered: None });
    assert_eq!(listener.state(), ListenerState::Delivered);

    // The expectation outlives a release.
    listener.release();
    listener.start().unwrap();
    let outcome = callback_handler(&vec![pair("code", "XYZ")], &mut listener);
    assert_eq!(outcome.reply, CallbackReply::StateMismatch);
    assert_eq!(CallbackReply::StateMismatch.status(), "error");
    assert_eq!(
        CallbackReply::StateMismatch.message(),
        "Authorization failed: the answer does not belong to this login."
    );
}

#[test]
fn state_check_on_given_values() {
    let query = vec![pair("code", "c"), pair("state", "s1"), pair("state", "s2")];
    assert!(check_state(&None, &query));
    assert!(check_state(&None, &vec![]));
    assert!(check_state(&Some("s2".to_string()), &query));
    assert!(!check_state(&Some("s1".to_string()), &query));
    assert!(!check_state(&Some("".to_string()), &vec![]));
    assert!(check_state(&Some("".to_string()), &vec![pair("state", "")]));
}
