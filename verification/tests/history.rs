use measure::history::History;

#[test]
fn undo_goes_back_and_redo_comes_forward() {
    let mut history = History::new();
    let mut state = 1;

    history.keep(state);
    state = 2;
    history.keep(state);
    state = 3;

    assert!(history.undo(&mut state));
    assert_eq!(state, 2);
    assert!(history.undo(&mut state));
    assert_eq!(state, 1);
    assert!(!history.undo(&mut state));
    assert_eq!(state, 1);

    assert!(history.redo(&mut state));
    assert_eq!(state, 2);
    assert!(history.redo(&mut state));
    assert_eq!(state, 3);
    assert!(!history.redo(&mut state));
    assert_eq!(state, 3);
}

/// The history is a line rather than a tree: keeping something new throws
/// away whatever was undone.
#[test]
fn keeping_something_new_forgets_what_was_undone() {
    let mut history = History::new();
    let mut state = "first".to_owned();

    history.keep(state.clone());
    state = "second".to_owned();
    assert!(history.undo(&mut state));
    assert!(history.can_redo());

    history.keep(state.clone());
    assert!(!history.can_redo());
    assert!(history.can_undo());

    history.clear();
    assert!(!history.can_undo());
}
