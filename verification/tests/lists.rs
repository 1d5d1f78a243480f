use reqtui::dispatch::Method;
use reqtui::keys::{Action, Movement, NormalKeyAction};
use reqtui::lists::{MethodsList, RequestsList};
use reqtui::select_list::SelectableList;

fn names(items: &[&str]) -> Vec<String> {
    items.iter().map(|s| s.to_string()).collect()
}

#[test]
fn next_wraps_and_cycles_back() {
    let mut l = SelectableList::new(names(&["a", "b", "c"]));
    assert_eq!(l.selected_index(), None);
    l.next();
    assert_eq!(l.selected_index(), Some(0));
    for _ in 0..3 {
        l.next();
        let i = l.selected_index().unwrap();
        assert!(i < 3);
    }
    assert_eq!(l.selected_index(), Some(0));
}

#[test]
fn previous_wraps_to_last() {
    let mut l = SelectableList::new(names(&["a", "b"]));
    l.next();
    assert_eq!(l.selected_index(), Some(0));
    l.previous();
    assert_eq!(l.selected_index(), Some(1));
    l.previous();
    assert_eq!(l.selected_index(), Some(0));
}

#[test]
fn next_on_empty_list_stays_none() {
    let mut l: SelectableList<String> = SelectableList::new(Vec::new());
    l.next();
    assert_eq!(l.selected_index(), None);
    l.previous();
    assert_eq!(l.selected_index(), None);
    assert!(l.selected().is_none());
}

#[test]
fn set_items_resets_selection() {
    let mut l = SelectableList::new(names(&["a", "b"]));
    l.next();
    assert_eq!(l.selected_index(), Some(0));
    l.set_items(names(&["x", "y", "z"]));
    assert_eq!(l.selected_index(), None);
    assert_eq!(l.len(), 3);
}

#[test]
fn selected_returns_item_under_selection() {
    let mut l = SelectableList::new(names(&["a", "b", "c"]));
    l.next();
    l.next();
    assert_eq!(l.selected().unwrap().as_str(), "b");
}

#[test]
fn toggle_visible_is_independent_of_selection() {
    let mut l = SelectableList::new(names(&["a"]));
    assert!(!l.visible());
    l.toggle_visible();
    assert!(l.visible());
    l.toggle_visible();
    assert!(!l.visible());
    assert_eq!(l.selected_index(), None);
}

#[test]
fn requests_list_moves_selection_on_up_down() {
    let mut rl = RequestsList::new(names(&["Request 1", "Request 2"]));
    assert!(rl.handle_key(NormalKeyAction::MoveDown).is_none());
    assert_eq!(rl.list.selected_index(), Some(0));
    assert!(rl.handle_key(NormalKeyAction::MoveUp).is_none());
    assert_eq!(rl.list.selected_index(), Some(1));
}

#[test]
fn requests_list_accept_asks_to_move_right() {
    let mut rl = RequestsList::new(names(&["Request 1"]));
    assert!(matches!(
        rl.handle_key(NormalKeyAction::Accept),
        Some(Action::MoveRelative(Movement::Right))
    ));
    assert!(matches!(
        rl.handle_key(NormalKeyAction::MoveRight),
        Some(Action::MoveRelative(Movement::Right))
    ));
}

#[test]
fn methods_list_starts_on_first_method() {
    let ml = MethodsList::new(vec![Method::Get, Method::Post]);
    assert!(matches!(ml.selected(), Some(Method::Get)));
    assert!(!ml.list.visible());
}

#[test]
fn methods_list_accept_returns_choice_and_hides() {
    let mut ml = MethodsList::new(vec![Method::Get, Method::Post, Method::Put]);
    ml.list.toggle_visible();
    assert!(ml.handle_key(NormalKeyAction::MoveDown).is_none());
    assert!(ml.handle_key(NormalKeyAction::MoveDown).is_none());
    let picked = ml.handle_key(NormalKeyAction::Accept);
    assert!(matches!(picked, Some(Method::Put)));
    assert!(!ml.list.visible());
}

#[test]
fn methods_list_swallows_other_keys() {
    let mut ml = MethodsList::new(vec![Method::Get]);
    assert!(ml.handle_key(NormalKeyAction::NextTab).is_none());
    assert!(matches!(ml.selected(), Some(Method::Get)));
}
