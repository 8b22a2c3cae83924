use kubenav::selection::SelectionList;

fn list_of(names: &[&str]) -> SelectionList {
    let mut l = SelectionList::new();
    l.replace(names.iter().map(|s| s.to_string()).collect());
    l
}

#[test]
fn move_up_saturates_at_start() {
    let mut l = list_of(&["a", "b", "c"]);
    assert_eq!(l.cursor, Some(0));
    l.move_up();
    assert_eq!(l.cursor, Some(0));
    l.move_up();
    l.move_up();
    assert_eq!(l.cursor, Some(0));
}

#[test]
fn move_up_steps_back_without_wrapping() {
    let mut l = list_of(&["a", "b", "c"]);
    l.move_down();
    l.move_down();
    assert_eq!(l.cursor, Some(2));
    l.move_up();
    assert_eq!(l.cursor, Some(1));
    l.move_up();
    assert_eq!(l.cursor, Some(0));
    l.move_up();
    assert_eq!(l.cursor, Some(0));
}

#[test]
fn move_down_wraps_at_end() {
    let mut l = list_of(&["a", "b", "c"]);
    l.move_down();
    l.move_down();
    assert_eq!(l.cursor, Some(2));
    l.move_down();
    assert_eq!(l.cursor, Some(0));
}

#[test]
fn move_down_wraps_on_single_item() {
    let mut l = list_of(&["only"]);
    assert_eq!(l.cursor, Some(0));
    l.move_down();
    assert_eq!(l.cursor, Some(0));
}

#[test]
fn replace_resets_cursor_to_first() {
    let mut l = list_of(&["a", "b", "c"]);
    l.move_down();
    l.move_down();
    assert_eq!(l.cursor, Some(2));
    l.replace(vec!["x".to_string(), "y".to_string()]);
    assert_eq!(l.cursor, Some(0));
    assert_eq!(l.items, vec!["x".to_string(), "y".to_string()]);
}

#[test]
fn replace_with_empty_clears_cursor() {
    let mut l = list_of(&["a", "b"]);
    l.replace(Vec::new());
    assert_eq!(l.cursor, None);
    assert!(l.items.is_empty());
}

#[test]
fn operations_on_empty_list_are_noops() {
    let mut l = SelectionList::new();
    l.move_up();
    assert_eq!(l.cursor, None);
    l.move_down();
    assert_eq!(l.cursor, None);
    assert_eq!(l.select(), None);
}

#[test]
fn select_returns_item_under_cursor() {
    let mut l = list_of(&["a", "b", "c"]);
    l.move_down();
    assert_eq!(l.select(), Some("b".to_string()));
}
