use slack::client::{
    read_frame, reads_frames, step, takes_messages, websocket_domain, websocket_url, Action, Error,
    Frame, Input, Phase, UrlOrigin, WsMessage,
};
use slack::events::Event;

fn internal_text(e: &Error) -> &str {
    match e {
        Error::Internal(m) => m,
        Error::Transport(_) => panic!("not an internal error: {:?}", e),
    }
}

#[test]
fn missing_websocket_url_is_an_error() {
    match websocket_url(&None) {
        Err(e) => assert_eq!(internal_text(&e), "Missing websocket url from slack"),
        Ok(_) => panic!("a missing URL was accepted"),
    }
}

#[test]
fn websocket_url_parses_and_names_its_domain() {
    let url = websocket_url(&Some("wss://cerberus-xxxx.lb.slack-msgs.com/websocket/abc".to_string())).unwrap();
    assert_eq!(url.url, "wss://cerberus-xxxx.lb.slack-msgs.com/websocket/abc");
    assert_eq!(websocket_domain(&url).unwrap(), "cerberus-xxxx.lb.slack-msgs.com");
}

#[test]
fn websocket_url_is_normalised() {
    let url = websocket_url(&Some("WSS://Example.COM:443/a/../b".to_string())).unwrap();
    assert_eq!(url.url, "wss://example.com/b");
    assert!(matches!(url.origin, UrlOrigin::Domain(ref d) if d == "example.com"));
}

#[test]
fn unparsable_websocket_url_is_an_error() {
    match websocket_url(&Some("no url at all".to_string())) {
        Err(e) => assert_eq!(internal_text(&e), "RelativeUrlWithoutBase"),
        Ok(_) => panic!("a relative URL was accepted"),
    }
}

#[test]
fn address_host_has_no_domain() {
    let url = websocket_url(&Some("wss://127.0.0.1:8080/ws".to_string())).unwrap();
    match websocket_domain(&url) {
        Err(e) => assert_eq!(internal_text(&e), "Expected domain in url found: Ipv4(127.0.0.1)"),
        Ok(d) => panic!("an address gave a domain: {}", d),
    }
}

#[test]
fn opaque_origin_has_no_domain() {
    let url = websocket_url(&Some("data:text/plain,hello".to_string())).unwrap();
    match websocket_domain(&url) {
        Err(e) => assert!(internal_text(&e).starts_with("Expected domain origin, found: Opaque(")),
        Ok(d) => panic!("an opaque origin gave a domain: {}", d),
    }
}

#[test]
fn frames_become_inputs() {
    assert!(matches!(read_frame(Frame::Binary(vec![1, 2, 3])), Some(Input::BinaryFrame)));
    assert!(matches!(read_frame(Frame::Text(r#"{"type":"hello"}"#.to_string())), Some(Input::Received(Event::Hello))));
    match read_frame(Frame::Text("oops".to_string())) {
        Some(Input::Unreadable { text, .. }) => assert_eq!(text, "oops"),
        other => panic!("unexpected: {:?}", other.is_some()),
    }
    assert!(read_frame(Frame::Text("{}".to_string())).is_none());
}

fn run(inputs: Vec<Input>) -> (Phase, Vec<Action>) {
    let mut phase = Phase::Connecting;
    let mut actions = Vec::new();
    for input in inputs {
        let (p, a) = step(phase, input);
        phase = p;
        actions.push(a);
    }
    (phase, actions)
}

#[test]
fn a_session_greets_dispatches_and_closes() {
    let (phase, actions) = run(vec![
        Input::Opened,
        Input::Greeted(true),
        Input::Received(Event::Hello),
        Input::Queued(WsMessage::Text("ping".to_string())),
        Input::Handled(true),
        Input::BinaryFrame,
        Input::Queued(WsMessage::Close),
        Input::Closed,
    ]);
    assert!(matches!(phase, Phase::Finished));
    assert!(matches!(actions[0], Action::Greet));
    assert!(matches!(actions[1], Action::Wait));
    assert!(matches!(actions[2], Action::Dispatch(Event::Hello)));
    assert!(matches!(actions[3], Action::Send(ref t) if t == "ping"));
    assert!(matches!(actions[4], Action::Wait));
    assert!(matches!(actions[5], Action::Wait));
    assert!(matches!(actions[6], Action::Farewell));
    assert!(matches!(actions[7], Action::Finish(Ok(()))));
}

#[test]
fn a_failed_open_ends_without_greeting() {
    let (phase, actions) = run(vec![Input::OpenFailed(Error::Transport("refused".to_string())), Input::Opened]);
    assert!(matches!(phase, Phase::Finished));
    assert!(matches!(actions[0], Action::Finish(Err(Error::Transport(ref m))) if m == "refused"));
    assert!(matches!(actions[1], Action::Wait));
}

#[test]
fn a_failed_handler_ends_with_unit_error() {
    let (phase, actions) = run(vec![
        Input::Opened,
        Input::Greeted(true),
        Input::Received(Event::ReconnectUrl),
        Input::Handled(false),
        Input::Closed,
    ]);
    assert!(matches!(phase, Phase::Finished));
    assert!(matches!(actions[3], Action::Farewell));
    assert!(matches!(actions[4], Action::Finish(Err(Error::Internal(ref m))) if m == "Unit Error"));
    let (_, actions) = run(vec![Input::Opened, Input::Greeted(false), Input::Closed]);
    assert!(matches!(actions[1], Action::Farewell));
    assert!(matches!(actions[2], Action::Finish(Err(Error::Internal(ref m))) if m == "Unit Error"));
}

#[test]
fn stream_end_and_failures_close_the_session() {
    let (_, actions) = run(vec![Input::Opened, Input::Greeted(true), Input::StreamEnded, Input::Closed]);
    assert!(matches!(actions[2], Action::Farewell));
    assert!(matches!(actions[3], Action::Finish(Ok(()))));
    let (_, actions) = run(vec![
        Input::Opened,
        Input::Greeted(true),
        Input::StreamFailed(Error::Transport("reset".to_string())),
        Input::Closed,
    ]);
    assert!(matches!(actions[3], Action::Finish(Err(Error::Transport(ref m))) if m == "reset"));
    let (_, actions) = run(vec![Input::Opened, Input::Greeted(true), Input::SendFailed, Input::Closed]);
    assert!(matches!(actions[3], Action::Finish(Err(Error::Internal(ref m))) if m == "Unit Error"));
    let (_, actions) = run(vec![Input::Opened, Input::Greeted(true), Input::QueueEnded, Input::Closed]);
    assert!(matches!(actions[3], Action::Finish(Ok(()))));
}

#[test]
fn unreadable_frames_are_logged_and_reading_goes_on() {
    let (phase, actions) = run(vec![
        Input::Opened,
        Input::Greeted(true),
        read_frame(Frame::Text(r#"{"type":"bogus"}"#.to_string())).unwrap(),
    ]);
    assert!(matches!(phase, Phase::Reading));
    assert!(matches!(actions[2], Action::Log { ref text, .. } if text == r#"{"type":"bogus"}"#));
}

#[test]
fn a_finished_session_does_nothing_more() {
    let (phase, actions) = run(vec![
        Input::OpenFailed(Error::Internal("x".to_string())),
        Input::Opened,
        Input::Greeted(true),
        Input::Queued(WsMessage::Text("late".to_string())),
        Input::Closed,
    ]);
    assert!(matches!(phase, Phase::Finished));
    assert!(actions[1..].iter().all(|a| matches!(a, Action::Wait)));
    let finishes = actions.iter().filter(|a| matches!(a, Action::Finish(_))).count();
    assert_eq!(finishes, 1);
}

#[test]
fn events_wait_for_the_handler() {
    let (phase, actions) = run(vec![
        Input::Opened,
        Input::Greeted(true),
        Input::Received(Event::Hello),
        Input::Received(Event::AccountsChanged),
        Input::Handled(true),
        Input::Received(Event::AccountsChanged),
    ]);
    assert!(matches!(phase, Phase::Dispatching));
    assert!(matches!(actions[3], Action::Wait));
    assert!(matches!(actions[5], Action::Dispatch(Event::AccountsChanged)));
}

#[test]
fn messages_are_not_taken_before_greeting() {
    let (phase, actions) = run(vec![Input::Opened, Input::Queued(WsMessage::Close)]);
    assert!(matches!(phase, Phase::Greeting));
    assert!(matches!(actions[1], Action::Wait));
    assert!(!takes_messages(&phase));
    assert!(!reads_frames(&phase));
    assert!(takes_messages(&Phase::Dispatching));
    assert!(reads_frames(&Phase::Reading));
    assert!(!reads_frames(&Phase::Dispatching));
}
