use reqtui::dispatch::Method;
use reqtui::input_line::InputMode;
use reqtui::keys::{Key, KeyInput, Modifier};
use reqtui::pane::{PaneType, RightStatePane};
use reqtui::router::{App, Directive};

fn new_app() -> App {
    App::new(vec![
        "Request 1".to_string(),
        "Request 2".to_string(),
        "Request 3".to_string(),
    ])
}

fn plain(code: Key) -> KeyInput {
    KeyInput { code, mods: Modifier::Plain }
}

fn ch(c: char) -> KeyInput {
    plain(Key::Char(c))
}

#[test]
fn move_right_walks_the_pane_line() {
    let mut app = new_app();
    assert!(matches!(app.active_pane(), PaneType::RequestList));
    app.step(plain(Key::Right));
    assert!(matches!(app.active_pane(), PaneType::Right(RightStatePane::Request)));
    app.step(plain(Key::Right));
    assert!(matches!(app.active_pane(), PaneType::Right(RightStatePane::Response)));
    app.step(plain(Key::Left));
    assert!(matches!(app.active_pane(), PaneType::Right(RightStatePane::Request)));
}

#[test]
fn keys_without_neighbor_leave_pane_unchanged() {
    let mut app = new_app();
    app.step(plain(Key::Left));
    assert!(matches!(app.active_pane(), PaneType::RequestList));
    app.step(plain(Key::Up));
    assert!(matches!(app.active_pane(), PaneType::RequestList));
    app.step(plain(Key::Down));
    assert!(matches!(app.active_pane(), PaneType::RequestList));
}

#[test]
fn last_pane_remembers_previous() {
    let mut app = new_app();
    app.step(plain(Key::Right));
    assert!(matches!(app.last_pane(), PaneType::RequestList));
    app.step(plain(Key::Right));
    assert!(matches!(app.last_pane(), PaneType::Right(RightStatePane::Request)));
}

#[test]
fn down_presses_walk_and_wrap_the_request_list() {
    let mut app = new_app();
    assert_eq!(app.requests_list.list.selected_index(), None);
    app.step(plain(Key::Down));
    assert_eq!(app.requests_list.list.selected_index(), Some(0));
    assert_eq!(app.requests_list.list.selected().unwrap().as_str(), "Request 1");
    app.step(plain(Key::Down));
    app.step(plain(Key::Down));
    assert_eq!(app.requests_list.list.selected_index(), Some(2));
    app.step(plain(Key::Down));
    assert_eq!(app.requests_list.list.selected_index(), Some(0));
}

#[test]
fn quit_key_returns_quit_directive() {
    let mut app = new_app();
    assert!(matches!(app.step(ch('q')), Directive::Quit));
}

#[test]
fn toggle_request_list_visibility() {
    let mut app = new_app();
    assert!(app.requests_list.list.visible());
    assert!(matches!(app.step(ch('r')), Directive::Nothing));
    assert!(!app.requests_list.list.visible());
    app.step(ch('r'));
    assert!(app.requests_list.list.visible());
}

#[test]
fn method_picker_opens_picks_and_closes() {
    let mut app = new_app();
    assert!(matches!(app.selected_method, Method::Get));
    app.step(ch('m'));
    assert!(app.methods_list.list.visible());
    // while the picker owns input, Down moves its selection, not the list's
    app.step(plain(Key::Down));
    app.step(plain(Key::Enter));
    assert!(!app.methods_list.list.visible());
    assert!(matches!(app.selected_method, Method::Post));
    assert_eq!(app.requests_list.list.selected_index(), None);
}

#[test]
fn method_picker_toggle_key_closes_it_again() {
    let mut app = new_app();
    app.step(ch('m'));
    assert!(app.methods_list.list.visible());
    app.step(ch('m'));
    assert!(!app.methods_list.list.visible());
}

#[test]
fn collection_picker_opens_and_dismisses() {
    let mut app = new_app();
    app.step(ch('c'));
    assert!(app.collection_list.list.visible());
    app.step(plain(Key::Esc));
    assert!(!app.collection_list.list.visible());
    assert!(matches!(app.active_pane(), PaneType::RequestList));
}

#[test]
fn editing_captures_keys_exclusively() {
    let mut app = new_app();
    app.step(plain(Key::Right));
    assert!(matches!(
        app.right_state.request_state.input_mode(),
        InputMode::Normal
    ));
    app.step(ch('i'));
    assert!(matches!(
        app.right_state.request_state.input_mode(),
        InputMode::Hostname
    ));
    // 'q' and 'm' are typed into the line, not treated as shortcuts
    app.step(ch('q'));
    app.step(ch('m'));
    assert!(!app.methods_list.list.visible());
    let line: String = app.right_state.request_state.input_line().value().iter().collect();
    assert_eq!(line, "qm");
    app.step(plain(Key::Enter));
    assert!(matches!(
        app.right_state.request_state.input_mode(),
        InputMode::Normal
    ));
}

#[test]
fn esc_cancels_hostname_edits() {
    let mut app = new_app();
    app.step(plain(Key::Right));
    app.step(ch('i'));
    app.step(ch('x'));
    app.step(plain(Key::Esc));
    assert!(matches!(
        app.right_state.request_state.input_mode(),
        InputMode::Normal
    ));
    let line: String = app.right_state.request_state.input_line().value().iter().collect();
    assert_eq!(line, "");
}

#[test]
fn tabs_cycle_in_request_editor() {
    let mut app = new_app();
    app.step(plain(Key::Right));
    assert_eq!(app.right_state.request_state.tab_index(), 0);
    app.step(plain(Key::Tab));
    assert_eq!(app.right_state.request_state.tab_index(), 1);
    app.step(KeyInput { code: Key::BackTab, mods: Modifier::Shift });
    assert_eq!(app.right_state.request_state.tab_index(), 0);
    app.step(KeyInput { code: Key::BackTab, mods: Modifier::Shift });
    assert_eq!(app.right_state.request_state.tab_index(), 3);
}

#[test]
fn accept_on_body_tab_enters_body_mode() {
    let mut app = new_app();
    app.step(plain(Key::Right));
    app.right_state.request_state.select(3);
    app.step(plain(Key::Enter));
    assert!(matches!(
        app.right_state.request_state.input_mode(),
        InputMode::Body
    ));
    app.step(plain(Key::Esc));
    assert!(matches!(
        app.right_state.request_state.input_mode(),
        InputMode::Normal
    ));
}

#[test]
fn response_scroll_saturates_at_zero() {
    let mut app = new_app();
    app.step(plain(Key::Right));
    app.step(plain(Key::Right));
    assert!(matches!(app.active_pane(), PaneType::Right(RightStatePane::Response)));
    assert_eq!(app.right_state.response_state.scroll(), 0);
    app.step(plain(Key::Down));
    assert_eq!(app.right_state.response_state.scroll(), 0);
    app.step(plain(Key::Up));
    app.step(plain(Key::Up));
    assert_eq!(app.right_state.response_state.scroll(), 2);
    app.step(plain(Key::Down));
    assert_eq!(app.right_state.response_state.scroll(), 1);
}

#[test]
fn response_tabs_cycle() {
    let mut app = new_app();
    app.step(plain(Key::Right));
    app.step(plain(Key::Right));
    assert_eq!(app.right_state.response_state.tab_index(), 0);
    app.step(plain(Key::Tab));
    assert_eq!(app.right_state.response_state.tab_index(), 1);
    app.step(plain(Key::Tab));
    app.step(plain(Key::Tab));
    assert_eq!(app.right_state.response_state.tab_index(), 0);
}

#[test]
fn copy_key_on_response_pane_requests_copy() {
    let mut app = new_app();
    app.step(plain(Key::Right));
    app.step(plain(Key::Right));
    assert!(matches!(app.step(ch('y')), Directive::CopyResponse));
}
