use todo_tui::app::AppState;
use todo_tui::models::{CurrentPage, Key, TodoItem};

fn tasks(names: &[&str]) -> Vec<TodoItem> {
    names.iter().map(|n| TodoItem::new(n)).collect()
}

fn state(names: &[&str], selected: Option<usize>) -> AppState {
    let mut s = AppState::with_tasks(tasks(names));
    s.selected = selected;
    s
}

fn descriptions(list: &[TodoItem]) -> Vec<&str> {
    list.iter().map(|t| t.description.as_str()).collect()
}

#[test]
fn new_task_is_not_done() {
    let t = TodoItem::new("Lire la doc");
    assert_eq!(t.description, "Lire la doc");
    assert!(!t.is_done);
}

#[test]
fn default_state_is_empty_and_running() {
    let s = AppState::default();
    assert!(s.items.is_empty());
    assert!(s.archives.is_empty());
    assert_eq!(s.selected, None);
    assert!(s.current_page == CurrentPage::Tasks);
    assert!(s.running);
}

#[test]
fn with_tasks_selects_first() {
    let s = state(&["A", "B"], Some(0));
    assert_eq!(s.selected, Some(0));
    let e = AppState::with_tasks(Vec::new());
    assert_eq!(e.selected, None);
}

#[test]
fn toggle_flips_only_selected() {
    let mut s = state(&["A", "B", "C"], Some(1));
    s.toggle_status();
    assert!(!s.items[0].is_done);
    assert!(s.items[1].is_done);
    assert!(!s.items[2].is_done);
    assert_eq!(s.selected, Some(1));
    assert_eq!(descriptions(&s.items), vec!["A", "B", "C"]);
    s.toggle_status();
    assert!(!s.items[1].is_done);
}

#[test]
fn toggle_is_noop_on_archives_or_without_selection() {
    let mut s = state(&["A"], None);
    s.toggle_status();
    assert!(!s.items[0].is_done);
    let mut s = state(&["A"], Some(0));
    s.archives.push(TodoItem::new("Z"));
    s.current_page = CurrentPage::Archives;
    s.toggle_status();
    assert!(!s.items[0].is_done);
    assert!(!s.archives[0].is_done);
}

#[test]
fn archive_last_task() {
    let mut s = state(&["A", "B", "C"], Some(2));
    s.archive_current();
    assert_eq!(descriptions(&s.items), vec!["A", "B"]);
    assert_eq!(descriptions(&s.archives), vec!["C"]);
    assert_eq!(s.selected, Some(1));
}

#[test]
fn archive_keeps_total_and_content() {
    let mut s = state(&["A", "B", "C"], Some(0));
    s.items[0].is_done = true;
    s.archives.push(TodoItem::new("Z"));
    s.archive_current();
    assert_eq!(s.items.len() + s.archives.len(), 4);
    assert_eq!(descriptions(&s.items), vec!["B", "C"]);
    assert_eq!(descriptions(&s.archives), vec!["Z", "A"]);
    assert!(s.archives[1].is_done);
    assert_eq!(s.selected, Some(0));
}

#[test]
fn archive_is_noop_on_archive_page() {
    let mut s = state(&["A"], Some(0));
    s.archives.push(TodoItem::new("Z"));
    s.current_page = CurrentPage::Archives;
    s.archive_current();
    assert_eq!(descriptions(&s.items), vec!["A"]);
    assert_eq!(descriptions(&s.archives), vec!["Z"]);
}

#[test]
fn archive_only_task_unsets_cursor() {
    let mut s = state(&["A"], Some(0));
    s.archive_current();
    assert!(s.items.is_empty());
    assert_eq!(descriptions(&s.archives), vec!["A"]);
    assert_eq!(s.selected, None);
}

#[test]
fn delete_only_task() {
    let mut s = state(&["A"], Some(0));
    s.delete_current();
    assert!(s.items.is_empty());
    assert_eq!(s.selected, None);
}

#[test]
fn delete_middle_keeps_index() {
    let mut s = state(&["A", "B", "C"], Some(1));
    s.delete_current();
    assert_eq!(descriptions(&s.items), vec!["A", "C"]);
    assert_eq!(s.selected, Some(1));
}

#[test]
fn delete_last_moves_cursor_back() {
    let mut s = state(&["A", "B", "C", "D"], Some(3));
    s.delete_current();
    assert_eq!(descriptions(&s.items), vec!["A", "B", "C"]);
    assert_eq!(s.selected, Some(2));
}

#[test]
fn delete_on_archive_page() {
    let mut s = state(&["A"], Some(0));
    s.archives.push(TodoItem::new("X"));
    s.archives.push(TodoItem::new("Y"));
    s.switch_page(CurrentPage::Archives);
    s.delete_current();
    assert_eq!(descriptions(&s.items), vec!["A"]);
    assert_eq!(descriptions(&s.archives), vec!["Y"]);
    assert_eq!(s.selected, Some(0));
    assert!(!s.archives.iter().any(|t| t.description == "X"));
    assert!(!s.items.iter().any(|t| t.description == "X"));
}

#[test]
fn delete_without_selection_is_noop() {
    let mut s = state(&["A", "B"], None);
    s.delete_current();
    assert_eq!(descriptions(&s.items), vec!["A", "B"]);
    assert_eq!(s.selected, None);
}

#[test]
fn delete_with_cursor_past_end_repairs_cursor() {
    let mut s = state(&["A", "B"], Some(5));
    s.delete_current();
    assert_eq!(descriptions(&s.items), vec!["A", "B"]);
    assert_eq!(s.selected, Some(1));
}

#[test]
fn move_down_first_of_two() {
    let mut s = state(&["A", "B"], Some(0));
    s.move_down();
    assert_eq!(descriptions(&s.items), vec!["B", "A"]);
    assert_eq!(s.selected, Some(1));
}

#[test]
fn move_down_at_last_is_noop() {
    let mut s = state(&["A", "B"], Some(1));
    s.move_down();
    assert_eq!(descriptions(&s.items), vec!["A", "B"]);
    assert_eq!(s.selected, Some(1));
}

#[test]
fn move_down_on_empty_list_is_noop() {
    let mut s = state(&[], None);
    s.move_down();
    assert!(s.items.is_empty());
    assert_eq!(s.selected, None);
    s.selected = Some(0);
    s.move_down();
    assert!(s.items.is_empty());
}

#[test]
fn move_up_at_first_is_noop() {
    let mut s = state(&["A", "B"], Some(0));
    s.move_up();
    assert_eq!(descriptions(&s.items), vec!["A", "B"]);
    assert_eq!(s.selected, Some(0));
}

#[test]
fn move_up_then_down_restores() {
    let mut s = state(&["A", "B", "C", "D"], Some(2));
    s.move_up();
    assert_eq!(descriptions(&s.items), vec!["A", "C", "B", "D"]);
    assert_eq!(s.selected, Some(1));
    s.move_down();
    assert_eq!(descriptions(&s.items), vec!["A", "B", "C", "D"]);
    assert_eq!(s.selected, Some(2));
}

#[test]
fn move_down_then_up_restores() {
    let mut s = state(&["A", "B", "C"], Some(1));
    s.move_down();
    assert_eq!(descriptions(&s.items), vec!["A", "C", "B"]);
    s.move_up();
    assert_eq!(descriptions(&s.items), vec!["A", "B", "C"]);
    assert_eq!(s.selected, Some(1));
}

#[test]
fn navigation_clamps_at_both_ends() {
    let mut s = state(&["A", "B", "C"], Some(0));
    s.previous();
    assert_eq!(s.selected, Some(0));
    s.next();
    s.next();
    assert_eq!(s.selected, Some(2));
    s.next();
    assert_eq!(s.selected, Some(2));
    s.previous();
    assert_eq!(s.selected, Some(1));
}

#[test]
fn navigation_stays_in_bounds() {
    let mut s = state(&["A", "B", "C"], Some(1));
    let moves = [true, true, true, false, true, false, false, false, false, true];
    for down in moves {
        if down {
            s.next();
        } else {
            s.previous();
        }
        let i = s.selected.unwrap();
        assert!(i < 3);
    }
}

#[test]
fn navigation_from_unset_cursor() {
    let mut s = state(&["A", "B", "C"], None);
    s.next();
    assert_eq!(s.selected, Some(0));
    let mut s = state(&["A", "B", "C"], None);
    s.previous();
    assert_eq!(s.selected, Some(2));
    let mut e = state(&[], None);
    e.next();
    assert_eq!(e.selected, None);
}

#[test]
fn switch_page_clamps_cursor() {
    let mut s = state(&["A", "B", "C"], Some(2));
    s.switch_page(CurrentPage::Archives);
    assert!(s.current_page == CurrentPage::Archives);
    assert_eq!(s.selected, None);
    s.archives.push(TodoItem::new("Z"));
    s.switch_page(CurrentPage::Tasks);
    assert_eq!(s.selected, Some(0));
    s.selected = Some(2);
    s.switch_page(CurrentPage::Archives);
    assert_eq!(s.selected, Some(0));
}

#[test]
fn request_exit_stops_running() {
    let mut s = state(&["A"], Some(0));
    s.request_exit();
    assert!(!s.running);
    assert_eq!(descriptions(&s.items), vec!["A"]);
}

#[test]
fn keys_dispatch_to_operations() {
    let mut s = state(&["A", "B", "C"], Some(0));
    s.handle_key(Key::Char('j'));
    assert_eq!(s.selected, Some(1));
    s.handle_key(Key::Down);
    assert_eq!(s.selected, Some(2));
    s.handle_key(Key::Char('k'));
    s.handle_key(Key::Up);
    assert_eq!(s.selected, Some(0));
    s.handle_key(Key::Char(' '));
    assert!(s.items[0].is_done);
    s.handle_key(Key::Char('J'));
    assert_eq!(descriptions(&s.items), vec!["B", "A", "C"]);
    s.handle_key(Key::Char('K'));
    assert_eq!(descriptions(&s.items), vec!["A", "B", "C"]);
    s.handle_key(Key::Enter);
    assert_eq!(descriptions(&s.archives), vec!["A"]);
    s.handle_key(Key::Char('x'));
    assert_eq!(descriptions(&s.items), vec!["C"]);
    s.handle_key(Key::Char('2'));
    assert!(s.current_page == CurrentPage::Archives);
    s.handle_key(Key::Delete);
    assert!(s.archives.is_empty());
    s.handle_key(Key::Char('1'));
    assert!(s.current_page == CurrentPage::Tasks);
    assert_eq!(s.selected, Some(0));
    s.handle_key(Key::Char('z'));
    s.handle_key(Key::Other);
    assert_eq!(descriptions(&s.items), vec!["C"]);
    assert!(s.running);
    s.handle_key(Key::Char('q'));
    assert!(!s.running);
    let mut t = state(&[], None);
    t.handle_key(Key::Esc);
    assert!(!t.running);
}
