use reqtui::dispatch::{format_body, uri_error_message, Method, Outcome};
use reqtui::keys::{Key, KeyInput, Modifier};
use reqtui::router::{App, Directive};

fn new_app() -> App {
    App::new(vec!["Request 1".to_string()])
}

fn plain(code: Key) -> KeyInput {
    KeyInput { code, mods: Modifier::Plain }
}

fn ch(c: char) -> KeyInput {
    plain(Key::Char(c))
}

#[test]
fn format_body_pretty_prints_json() {
    let pretty = format_body("{\"a\":1}".to_string());
    assert_eq!(pretty, "{\n  \"a\": 1\n}");
}

#[test]
fn format_body_keeps_non_json_verbatim() {
    let raw = format_body("not json at all".to_string());
    assert_eq!(raw, "not json at all");
}

#[test]
fn send_builds_request_from_editor_state() {
    let mut app = new_app();
    app.step(plain(Key::Right));
    app.step(ch('i'));
    for c in "http://x/".chars() {
        app.step(ch(c));
    }
    app.step(plain(Key::Enter));
    app.step(plain(Key::Esc));
    app.step(plain(Key::Left));
    match app.step(ch('p')) {
        Directive::Send(pr) => {
            assert!(matches!(pr.method, Method::Get));
            assert_eq!(pr.uri, "http://x/");
            assert_eq!(pr.body, "{\n\n}");
        }
        _ => panic!("expected a send directive"),
    }
    assert!(app.pending);
}

#[test]
fn send_is_disabled_while_a_call_is_pending() {
    let mut app = new_app();
    assert!(matches!(app.step(ch('p')), Directive::Send(_)));
    assert!(matches!(app.step(ch('p')), Directive::Nothing));
    app.apply_outcome(Outcome::Failure { message: "x".to_string() });
    assert!(!app.pending);
    assert!(matches!(app.step(ch('p')), Directive::Send(_)));
}

#[test]
fn connection_failure_shows_error_and_no_status() {
    let mut app = new_app();
    assert!(matches!(app.step(ch('p')), Directive::Send(_)));
    let message = uri_error_message();
    app.apply_outcome(Outcome::Failure { message: message.clone() });
    assert_eq!(app.right_state.response_state.response().as_str(), message.as_str());
    assert_eq!(app.right_state.response_state.status_code(), None);
}

#[test]
fn success_stores_status_and_formatted_body() {
    let mut app = new_app();
    assert!(matches!(app.step(ch('p')), Directive::Send(_)));
    app.apply_outcome(Outcome::Success {
        status: 200,
        body: "{\"ok\":true}".to_string(),
        elapsed_ms: 12,
    });
    assert_eq!(app.right_state.response_state.status_code(), Some(200));
    assert_eq!(app.right_state.response_state.elapsed_ms(), 12);
    assert_eq!(
        app.right_state.response_state.response().as_str(),
        "{\n  \"ok\": true\n}"
    );
}

#[test]
fn unsolicited_outcome_is_discarded() {
    let mut app = new_app();
    assert!(!app.pending);
    app.apply_outcome(Outcome::Success {
        status: 500,
        body: "late".to_string(),
        elapsed_ms: 1,
    });
    assert_eq!(app.right_state.response_state.status_code(), None);
    assert_eq!(app.right_state.response_state.response().as_str(), "");
}

#[test]
fn error_message_names_the_scheme() {
    assert_eq!(
        uri_error_message(),
        "Invalid or unavailable URI (Make sure to include the url scheme, for example: http://)"
    );
}
