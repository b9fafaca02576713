use pomoru::tasks::Task;
use pomoru::tasks::TaskList;

fn list_of(titles: &[&str]) -> TaskList {
    let mut t = TaskList::new();
    for title in titles {
        t.insert(String::from(*title));
    }
    t
}

#[test]
fn insert_appends_and_keeps_selection() {
    let mut t = list_of(&["one"]);
    t.select_next();
    t.insert(String::from("two"));
    assert_eq!(t.tasks.len(), 2);
    assert_eq!(t.selection, Some(0));
    assert_eq!(t.tasks[1].title, "two");
    assert!(!t.tasks[1].is_done);
}

#[test]
fn delete_selected_keeps_index() {
    // two tasks, index 0 selected: after the delete one task remains and the
    // selection still reads 0
    let mut t = list_of(&["a", "b"]);
    t.select_next();
    assert_eq!(t.selection, Some(0));
    t.delete_selected();
    assert_eq!(t.tasks.len(), 1);
    assert_eq!(t.selection, Some(0));
    assert_eq!(t.tasks[0].title, "b");
}

#[test]
fn delete_last_task_clears_selection() {
    let mut t = list_of(&["only"]);
    t.select_next();
    t.delete_selected();
    assert!(t.tasks.is_empty());
    assert_eq!(t.selection, None);
}

#[test]
fn delete_without_selection_is_noop() {
    let mut t = list_of(&["a", "b"]);
    t.delete_selected();
    assert_eq!(t.tasks.len(), 2);
    assert_eq!(t.selection, None);
}

#[test]
fn select_next_on_empty_list_stays_none() {
    let mut t = TaskList::new();
    t.select_next();
    assert_eq!(t.selection, None);
    t.select_previous();
    assert_eq!(t.selection, None);
}

#[test]
fn select_wraps_around() {
    let mut t = list_of(&["a", "b", "c"]);
    t.select_next();
    assert_eq!(t.selection, Some(0));
    t.select_next();
    assert_eq!(t.selection, Some(1));
    t.select_next();
    assert_eq!(t.selection, Some(2));
    t.select_next();
    assert_eq!(t.selection, Some(0));
    t.select_previous();
    assert_eq!(t.selection, Some(2));
}

#[test]
fn select_round_trip_restores_selection() {
    // down-then-up and up-then-down restore every valid selection
    for start in 0..3 {
        let mut t = list_of(&["a", "b", "c"]);
        t.selection = Some(start);
        t.select_next();
        t.select_previous();
        assert_eq!(t.selection, Some(start));
        t.select_previous();
        t.select_next();
        assert_eq!(t.selection, Some(start));
    }
}

#[test]
fn toggle_selected_done_flips_only_selected() {
    let mut t = list_of(&["a", "b"]);
    t.selection = Some(1);
    t.toggle_selected_done();
    assert!(!t.tasks[0].is_done);
    assert!(t.tasks[1].is_done);
    t.toggle_selected_done();
    assert!(!t.tasks[1].is_done);
}

#[test]
fn toggle_without_selection_is_noop() {
    let mut t = list_of(&["a"]);
    t.toggle_selected_done();
    assert!(!t.tasks[0].is_done);
}

#[test]
fn edit_selected_replaces_title() {
    let mut t = list_of(&["a", "b"]);
    t.selection = Some(0);
    t.edit_selected(String::from("renamed"));
    assert_eq!(t.tasks[0].title, "renamed");
    assert_eq!(t.tasks[1].title, "b");
}

#[test]
fn edit_without_selection_is_noop() {
    let mut t = list_of(&["a"]);
    t.edit_selected(String::from("renamed"));
    assert_eq!(t.tasks[0].title, "a");
}

#[test]
fn stale_cursor_after_deleting_last_index() {
    // deleting the task at the last index leaves the cursor one past the
    // end; mutations treat it as no selection and navigation clamps it
    let mut t = list_of(&["a", "b"]);
    t.selection = Some(1);
    t.delete_selected();
    assert_eq!(t.tasks.len(), 1);
    assert_eq!(t.selection, Some(1));
    t.toggle_selected_done();
    assert!(!t.tasks[0].is_done);
    t.select_next();
    assert_eq!(t.selection, Some(0));
}

#[test]
fn task_clone_copies_both_fields() {
    let t = Task { title: String::from("x"), is_done: true };
    let c = t.clone();
    assert_eq!(c.title, "x");
    assert!(c.is_done);
}
