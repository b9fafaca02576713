use pomoru::session::SessionMode;
use pomoru::session::DEFAULT_SHORT_BREAK_SECS;
use pomoru::session::DEFAULT_WORK_SECS;
use pomoru::state::Action;
use pomoru::state::AppScreen;
use pomoru::state::InputMode;
use pomoru::state::Key;
use pomoru::state::Pomo;

fn type_text(p: &mut Pomo, text: &str) {
    for c in text.chars() {
        p.handle_key(Key::Char(c));
    }
}

fn with_tasks(titles: &[&str]) -> Pomo {
    let mut p = Pomo::new();
    p.handle_key(Key::Char('t'));
    for title in titles {
        p.handle_key(Key::Char('i'));
        type_text(&mut p, title);
        p.handle_key(Key::Enter);
    }
    p
}

#[test]
fn fresh_state_shows_stopped_timer() {
    let p = Pomo::new();
    assert!(matches!(p.screen, AppScreen::Timer));
    assert!(matches!(p.input_mode, InputMode::Normal));
    assert!(!p.should_quit);
    assert!(!p.show_help);
    assert!(!p.session.is_running);
    assert!(p.tasks.tasks.is_empty());
    assert_eq!(p.tasks.selection, None);
}

#[test]
fn quit_key_on_timer_screen() {
    let mut p = Pomo::new();
    p.handle_key(Key::Char('q'));
    assert!(p.should_quit);
}

#[test]
fn quit_key_on_task_screen_goes_back() {
    let mut p = Pomo::new();
    p.handle_key(Key::Char('t'));
    assert!(matches!(p.screen, AppScreen::Tasks));
    p.handle_key(Key::Char('q'));
    assert!(matches!(p.screen, AppScreen::Timer));
    assert!(!p.should_quit);
}

#[test]
fn space_toggles_timer() {
    let mut p = Pomo::new();
    p.handle_key(Key::Char(' '));
    assert!(p.session.is_running);
    p.handle_key(Key::Char(' '));
    assert!(!p.session.is_running);
}

#[test]
fn tab_cycles_modes_only_while_stopped() {
    let mut p = Pomo::new();
    p.handle_key(Key::Tab);
    assert!(matches!(p.session.mode, SessionMode::ShortBreak));
    assert_eq!(p.session.time_remaining, DEFAULT_SHORT_BREAK_SECS);
    p.handle_key(Key::Tab);
    assert!(matches!(p.session.mode, SessionMode::LongBreak));
    p.handle_key(Key::Tab);
    assert!(matches!(p.session.mode, SessionMode::Work));
    p.handle_key(Key::Char(' '));
    p.handle_key(Key::Tab);
    assert!(matches!(p.session.mode, SessionMode::Work));
}

#[test]
fn reset_key_restores_full_duration() {
    let mut p = Pomo::new();
    p.handle_key(Key::Char(' '));
    p.tick();
    p.tick();
    assert_eq!(p.session.time_remaining, DEFAULT_WORK_SECS - 2);
    p.handle_key(Key::Char('r'));
    assert_eq!(p.session.time_remaining, DEFAULT_WORK_SECS);
}

#[test]
fn help_toggle() {
    let mut p = Pomo::new();
    p.handle_key(Key::Char('?'));
    assert!(p.show_help);
    p.handle_key(Key::Char('?'));
    assert!(!p.show_help);
}

#[test]
fn insert_task_through_keys() {
    let p = with_tasks(&["write report"]);
    assert_eq!(p.tasks.tasks.len(), 1);
    assert_eq!(p.tasks.tasks[0].title, "write report");
    assert!(!p.tasks.tasks[0].is_done);
    assert!(matches!(p.input_mode, InputMode::Normal));
}

#[test]
fn backspace_edits_the_buffer() {
    let mut p = Pomo::new();
    p.handle_key(Key::Char('t'));
    p.handle_key(Key::Char('i'));
    type_text(&mut p, "ab");
    p.handle_key(Key::Backspace);
    p.handle_key(Key::Enter);
    assert_eq!(p.tasks.tasks[0].title, "a");
}

#[test]
fn escape_discards_the_buffer() {
    let mut p = Pomo::new();
    p.handle_key(Key::Char('t'));
    p.handle_key(Key::Char('i'));
    type_text(&mut p, "abc");
    p.handle_key(Key::Esc);
    assert!(matches!(p.input_mode, InputMode::Normal));
    assert!(p.tasks.tasks.is_empty());
}

#[test]
fn empty_buffer_commit_adds_nothing() {
    let mut p = Pomo::new();
    p.handle_key(Key::Char('t'));
    p.handle_key(Key::Char('i'));
    p.handle_key(Key::Enter);
    assert!(p.tasks.tasks.is_empty());
    assert!(matches!(p.input_mode, InputMode::Normal));
}

#[test]
fn edit_selected_task_through_keys() {
    let mut p = with_tasks(&["old name"]);
    p.handle_key(Key::Char('j'));
    p.handle_key(Key::Char('e'));
    // the buffer is seeded with the current title; clear it first
    for _ in 0.."old name".len() {
        p.handle_key(Key::Backspace);
    }
    type_text(&mut p, "new name");
    p.handle_key(Key::Enter);
    assert_eq!(p.tasks.tasks[0].title, "new name");
}

#[test]
fn edit_without_selection_stays_normal() {
    let mut p = with_tasks(&["a"]);
    p.handle_key(Key::Char('e'));
    assert!(matches!(p.input_mode, InputMode::Normal));
}

#[test]
fn delete_scenario_two_tasks() {
    // two tasks, select index 0, delete: one task left, selection Some(0)
    let mut p = with_tasks(&["a", "b"]);
    p.handle_key(Key::Char('j'));
    assert_eq!(p.tasks.selection, Some(0));
    p.handle_key(Key::Char('d'));
    assert_eq!(p.tasks.tasks.len(), 1);
    assert_eq!(p.tasks.selection, Some(0));
    assert_eq!(p.tasks.tasks[0].title, "b");
}

#[test]
fn navigation_keys_move_selection() {
    let mut p = with_tasks(&["a", "b", "c"]);
    p.handle_key(Key::Down);
    assert_eq!(p.tasks.selection, Some(0));
    p.handle_key(Key::Char('j'));
    assert_eq!(p.tasks.selection, Some(1));
    p.handle_key(Key::Up);
    assert_eq!(p.tasks.selection, Some(0));
    p.handle_key(Key::Char('k'));
    assert_eq!(p.tasks.selection, Some(2));
}

#[test]
fn enter_toggles_task_done() {
    let mut p = with_tasks(&["a"]);
    p.handle_key(Key::Char('j'));
    p.handle_key(Key::Enter);
    assert!(p.tasks.tasks[0].is_done);
    p.handle_key(Key::Enter);
    assert!(!p.tasks.tasks[0].is_done);
}

#[test]
fn timer_edit_sets_duration() {
    let mut p = Pomo::new();
    p.handle_key(Key::Char('e'));
    assert!(matches!(p.input_mode, InputMode::TimerEdit(_)));
    // seeded with the remaining minutes
    if let InputMode::TimerEdit(buf) = &p.input_mode {
        assert_eq!(buf, "25");
    }
    p.handle_key(Key::Backspace);
    p.handle_key(Key::Backspace);
    type_text(&mut p, "30");
    p.handle_key(Key::Enter);
    assert_eq!(p.session.work_secs, 1800);
    assert_eq!(p.session.time_remaining, 1800);
    assert_eq!(p.session.total_duration, 1800);
    assert!(matches!(p.input_mode, InputMode::Normal));
}

#[test]
fn timer_edit_blocked_while_running() {
    let mut p = Pomo::new();
    p.handle_key(Key::Char(' '));
    p.handle_key(Key::Char('e'));
    assert!(matches!(p.input_mode, InputMode::Normal));
}

#[test]
fn malformed_timer_edit_is_discarded() {
    let mut p = Pomo::new();
    p.handle_key(Key::Char('e'));
    type_text(&mut p, "x");
    p.handle_key(Key::Enter);
    assert_eq!(p.session.work_secs, DEFAULT_WORK_SECS);
    assert_eq!(p.session.time_remaining, DEFAULT_WORK_SECS);
    assert!(matches!(p.input_mode, InputMode::Normal));
}

#[test]
fn oversized_timer_edit_is_discarded() {
    let mut p = Pomo::new();
    p.handle_key(Key::Char('e'));
    for _ in 0..2 {
        p.handle_key(Key::Backspace);
    }
    type_text(&mut p, "99999999999999999999");
    p.handle_key(Key::Enter);
    assert_eq!(p.session.work_secs, DEFAULT_WORK_SECS);
}

#[test]
fn buffer_keys_do_not_run_commands() {
    let mut p = Pomo::new();
    p.handle_key(Key::Char('t'));
    p.handle_key(Key::Char('i'));
    // 'q' and ' ' are buffer text now, not commands
    p.handle_key(Key::Char('q'));
    p.handle_key(Key::Char(' '));
    assert!(!p.should_quit);
    assert!(!p.session.is_running);
    p.handle_key(Key::Enter);
    assert_eq!(p.tasks.tasks[0].title, "q ");
}

#[test]
fn tick_returns_notification_on_completion() {
    let mut p = with_tasks(&[]);
    p.handle_key(Key::Char('t'));
    assert!(matches!(p.screen, AppScreen::Timer));
    p.handle_key(Key::Char(' '));
    p.session.time_remaining = 0;
    let note = p.tick().expect("phase completion must notify");
    assert_eq!(note.title, "Work session complete");
    assert!(matches!(p.session.mode, SessionMode::ShortBreak));
}

#[test]
fn apply_action_matches_key_dispatch() {
    let mut a = Pomo::new();
    let mut b = Pomo::new();
    a.handle_key(Key::Char(' '));
    b.apply_action(Action::ToggleTimer);
    assert_eq!(a.session.is_running, b.session.is_running);
}

#[test]
fn get_commands_lists_the_help_table() {
    let p = Pomo::new();
    let cmds = p.get_commands();
    assert_eq!(cmds.len(), 5);
    assert_eq!(cmds[0].key, "Space");
    assert_eq!(cmds[0].desc, "Toggle Timer");
    assert_eq!(cmds[4].key, "q");
    assert_eq!(cmds[4].desc, "Quit");
}
