use pomoru::config::Config;
use pomoru::session::DEFAULT_LONG_BREAK_SECS;
use pomoru::session::DEFAULT_SHORT_BREAK_SECS;
use pomoru::session::DEFAULT_WORK_SECS;
use pomoru::state::Key;
use pomoru::state::Pomo;
use pomoru::tasks::Task;

fn type_text(p: &mut Pomo, text: &str) {
    for c in text.chars() {
        p.handle_key(Key::Char(c));
    }
}

#[test]
fn save_then_load_round_trip() {
    // configure all three durations and two tasks, one done
    let mut p = Pomo::new();
    p.handle_key(Key::Char('e'));
    p.handle_key(Key::Backspace);
    p.handle_key(Key::Backspace);
    type_text(&mut p, "50");
    p.handle_key(Key::Enter);
    p.handle_key(Key::Tab);
    p.handle_key(Key::Char('e'));
    p.handle_key(Key::Backspace);
    type_text(&mut p, "10");
    p.handle_key(Key::Enter);
    p.handle_key(Key::Char('t'));
    p.handle_key(Key::Char('i'));
    type_text(&mut p, "first");
    p.handle_key(Key::Enter);
    p.handle_key(Key::Char('i'));
    type_text(&mut p, "second");
    p.handle_key(Key::Enter);
    p.handle_key(Key::Char('j'));
    p.handle_key(Key::Enter);

    let saved = p.to_config();
    assert_eq!(saved.work_time_mins, 50);
    assert_eq!(saved.short_break_mins, 10);
    assert_eq!(saved.long_break_mins, DEFAULT_LONG_BREAK_SECS / 60);

    let q = Pomo::from_config(saved);
    assert_eq!(q.session.work_secs, p.session.work_secs);
    assert_eq!(q.session.short_break_secs, p.session.short_break_secs);
    assert_eq!(q.session.long_break_secs, p.session.long_break_secs);
    assert_eq!(q.tasks.tasks.len(), 2);
    assert_eq!(q.tasks.tasks[0].title, "first");
    assert!(q.tasks.tasks[0].is_done);
    assert_eq!(q.tasks.tasks[1].title, "second");
    assert!(!q.tasks.tasks[1].is_done);
}

#[test]
fn load_starts_a_stopped_work_phase() {
    let c = Config {
        work_time_mins: 40,
        short_break_mins: 4,
        long_break_mins: 20,
        tasks: vec![Task { title: String::from("t"), is_done: false }],
    };
    let p = Pomo::from_config(c);
    assert_eq!(p.session.work_secs, 2400);
    assert_eq!(p.session.short_break_secs, 240);
    assert_eq!(p.session.long_break_secs, 1200);
    assert_eq!(p.session.time_remaining, 2400);
    assert_eq!(p.session.total_duration, 2400);
    assert!(!p.session.is_running);
    assert_eq!(p.session.completed_work_count, 0);
    assert_eq!(p.tasks.selection, None);
}

#[test]
fn unrepresentable_duration_falls_back_to_default() {
    let c = Config {
        work_time_mins: u64::MAX,
        short_break_mins: 5,
        long_break_mins: u64::MAX / 2,
        tasks: Vec::new(),
    };
    let p = Pomo::from_config(c);
    assert_eq!(p.session.work_secs, DEFAULT_WORK_SECS);
    assert_eq!(p.session.short_break_secs, 300);
    assert_eq!(p.session.long_break_secs, DEFAULT_LONG_BREAK_SECS);
}

#[test]
fn save_reflects_defaults() {
    let p = Pomo::new();
    let c = p.to_config();
    assert_eq!(c.work_time_mins, DEFAULT_WORK_SECS / 60);
    assert_eq!(c.short_break_mins, DEFAULT_SHORT_BREAK_SECS / 60);
    assert_eq!(c.long_break_mins, DEFAULT_LONG_BREAK_SECS / 60);
    assert!(c.tasks.is_empty());
}
