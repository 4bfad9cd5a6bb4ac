use hdfs_proxy_tui::actions::{Action, Actions};
use hdfs_proxy_tui::key::Key;

#[test]
fn should_find_action_by_key() {
    let actions: Actions = Actions::build(vec![Action::Quit, Action::Save]).unwrap();
    let result = actions.find(Key::Char('s'));
    assert_eq!(result, Some(Action::Save));
}

#[test]
fn should_find_action_by_key_not_found() {
    let actions: Actions = Actions::build(vec![Action::Quit]).unwrap();
    let result = actions.find(Key::Alt('w'));
    assert_eq!(result, None);
}

#[test]
fn should_create_actions_from_vec() {
    let _actions: Actions = Actions::build(vec![
        Action::Quit,
        Action::IncrementDelay,
        Action::DecrementDelay,
    ])
    .unwrap();
}

#[test]
fn conflicting_actions_are_refused() {
    let result = Actions::build(vec![
        Action::Quit,
        Action::DecrementDelay,
        Action::IncrementDelay,
        Action::IncrementDelay,
        Action::Quit,
        Action::DecrementDelay,
    ]);
    let (a, b) = result.unwrap_err();
    // The offending pair really does share a key.
    let keys_a = a.keys();
    assert!(keys_a.iter().any(|k| b.keys().contains(k)));
}

#[test]
fn finds_first_matching_action_in_scan_order() {
    // Both Quit and Save are in the set; 'q' belongs to Quit alone.
    let actions = Actions::build(vec![Action::Save, Action::Quit]).unwrap();
    assert_eq!(actions.find(Key::Char('q')), Some(Action::Quit));
    assert_eq!(actions.find(Key::Ctrl('c')), Some(Action::Quit));
    assert_eq!(actions.find(Key::Enter), None);
}

#[test]
fn keys_table_matches_bindings() {
    assert_eq!(Action::Quit.keys(), vec![Key::Ctrl('c'), Key::Char('q')]);
    assert_eq!(Action::MoveDown.keys(), vec![Key::Down, Key::Char('j')]);
    assert_eq!(Action::Save.keys(), vec![Key::Char('s')]);
    assert_eq!(Action::iterator().len(), 8);
    assert_eq!(Action::StepInto.label(), "Step into");
}
