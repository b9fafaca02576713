//! The application state: the session, the task list, the input-mode
//! controller and the screen focus, mutated exclusively through a pure key
//! dispatch (`dispatch`) and the command interpreter (`apply_action`).

use vstd::prelude::*;

use crate::session::Notification;
use crate::session::Session;
use crate::session::SessionMode;
use crate::session::MAX_DURATION_MINS;
use crate::tasks::next_selection;
use crate::tasks::prev_selection;
use crate::tasks::Task;
use crate::tasks::TaskList;
use crate::text::all_digits;
use crate::text::dec_str;
use crate::text::dec_val;
use crate::text::parse_u64;
use crate::text::pop_char;
use crate::text::push_char;
use crate::text::u64_to_string;

verus! {

/// Which screen has focus.
#[derive(Clone, Copy, PartialEq, Eq, Structural, Debug)]
pub enum AppScreen {
    Timer,
    Tasks,
}

/// A keyboard event, as the state machine sees it.  The terminal layer maps
/// its own key representation onto this one.
#[derive(Clone, Copy, PartialEq, Eq, Structural, Debug)]
pub enum Key {
    Char(char),
    Enter,
    Esc,
    Backspace,
    Tab,
    Up,
    Down,
}

/// Whether keystrokes are commands (`Normal`) or edits to a pending text
/// buffer; each buffer mode owns its buffer.
pub enum InputMode {
    Normal,
    Insert(String),
    Edit(String),
    TimerEdit(String),
}

/// The mathematical model of an input mode: the same shape with the buffer
/// as a sequence of characters.
#[verifier::ext_equal]
pub enum InputV {
    Normal,
    Insert(Seq<char>),
    Edit(Seq<char>),
    TimerEdit(Seq<char>),
}

impl View for InputMode {
    type V = InputV;

    open spec fn view(&self) -> InputV {
        match self {
            InputMode::Normal => InputV::Normal,
            InputMode::Insert(b) => InputV::Insert(b@),
            InputMode::Edit(b) => InputV::Edit(b@),
            InputMode::TimerEdit(b) => InputV::TimerEdit(b@),
        }
    }
}

/// One command the user can give; `dispatch` turns a keystroke into one of
/// these, and `apply_action` carries it out.
#[derive(Clone, Copy, PartialEq, Eq, Structural, Debug)]
pub enum Action {
    Idle,
    Quit,
    SwitchScreen(AppScreen),
    ToggleTimer,
    CycleMode,
    ResetTimer,
    EnterTimerEdit,
    EnterInsert,
    EnterEdit,
    DeleteTask,
    NextTask,
    PrevTask,
    ToggleTask,
    ToggleHelp,
    BufferPush(char),
    BufferPop,
    BufferCancel,
    BufferCommit,
}

/// The command a keystroke means, given the focused screen and the input
/// mode.  In any buffer mode every keystroke edits, commits or cancels the
/// buffer; in normal mode the meaning is keyed on the screen.
pub open spec fn spec_dispatch(screen: AppScreen, mode: InputV, key: Key) -> Action {
    if mode is Normal {
        match screen {
            AppScreen::Timer => {
                if key == Key::Char('q') {
                    Action::Quit
                } else if key == Key::Tab {
                    Action::CycleMode
                } else if key == Key::Char('e') {
                    Action::EnterTimerEdit
                } else if key == Key::Char('t') {
                    Action::SwitchScreen(AppScreen::Tasks)
                } else if key == Key::Char(' ') {
                    Action::ToggleTimer
                } else if key == Key::Char('r') {
                    Action::ResetTimer
                } else if key == Key::Char('?') {
                    Action::ToggleHelp
                } else {
                    Action::Idle
                }
            },
            AppScreen::Tasks => {
                if key == Key::Char('q') || key == Key::Char('t') || key == Key::Esc {
                    Action::SwitchScreen(AppScreen::Timer)
                } else if key == Key::Char('i') {
                    Action::EnterInsert
                } else if key == Key::Char('e') {
                    Action::EnterEdit
                } else if key == Key::Char('d') {
                    Action::DeleteTask
                } else if key == Key::Char('j') || key == Key::Down {
                    Action::NextTask
                } else if key == Key::Char('k') || key == Key::Up {
                    Action::PrevTask
                } else if key == Key::Enter {
                    Action::ToggleTask
                } else if key == Key::Char('?') {
                    Action::ToggleHelp
                } else {
                    Action::Idle
                }
            },
        }
    } else {
        match key {
            Key::Enter => Action::BufferCommit,
            Key::Esc => Action::BufferCancel,
            Key::Backspace => Action::BufferPop,
            Key::Char(c) => Action::BufferPush(c),
            _ => Action::Idle,
        }
    }
}

/// The pure dispatch table: no state is read beyond the two coordinates and
/// none is written.
pub fn dispatch(screen: AppScreen, mode: &InputMode, key: Key) -> (a: Action)
    ensures
        a == spec_dispatch(screen, mode@, key),
{
    match mode {
        InputMode::Normal => {
            match screen {
                AppScreen::Timer => {
                    if key == Key::Char('q') {
                        Action::Quit
                    } else if key == Key::Tab {
                        Action::CycleMode
                    } else if key == Key::Char('e') {
                        Action::EnterTimerEdit
                    } else if key == Key::Char('t') {
                        Action::SwitchScreen(AppScreen::Tasks)
                    } else if key == Key::Char(' ') {
                        Action::ToggleTimer
                    } else if key == Key::Char('r') {
                        Action::ResetTimer
                    } else if key == Key::Char('?') {
                        Action::ToggleHelp
                    } else {
                        Action::Idle
                    }
                },
                AppScreen::Tasks => {
                    if key == Key::Char('q') || key == Key::Char('t') || key == Key::Esc {
                        Action::SwitchScreen(AppScreen::Timer)
                    } else if key == Key::Char('i') {
                        Action::EnterInsert
                    } else if key == Key::Char('e') {
                        Action::EnterEdit
                    } else if key == Key::Char('d') {
                        Action::DeleteTask
                    } else if key == Key::Char('j') || key == Key::Down {
                        Action::NextTask
                    } else if key == Key::Char('k') || key == Key::Up {
                        Action::PrevTask
                    } else if key == Key::Enter {
                        Action::ToggleTask
                    } else if key == Key::Char('?') {
                        Action::ToggleHelp
                    } else {
                        Action::Idle
                    }
                },
            }
        },
        _ => {
            match key {
                Key::Enter => Action::BufferCommit,
                Key::Esc => Action::BufferCancel,
                Key::Backspace => Action::BufferPop,
                Key::Char(c) => Action::BufferPush(c),
                _ => Action::Idle,
            }
        },
    }
}

/// One entry of the help table: a key and what it does.
pub struct Command {
    pub key: &'static str,
    pub desc: &'static str,
}

/// The session mode after the cycle-mode command: work, short break and long
/// break in a fixed rotation.
pub open spec fn cycled_mode(m: SessionMode) -> SessionMode {
    match m {
        SessionMode::Work => SessionMode::ShortBreak,
        SessionMode::ShortBreak => SessionMode::LongBreak,
        SessionMode::LongBreak => SessionMode::Work,
    }
}

/// The whole application state: the unit every event mutates.
pub struct Pomo {
    pub session: Session,
    pub tasks: TaskList,
    pub input_mode: InputMode,
    pub screen: AppScreen,
    pub should_quit: bool,
    pub show_help: bool,
}

/// The mathematical model of the application state.
#[verifier::ext_equal]
pub struct PomoV {
    pub session: Session,
    pub tasks: Seq<crate::tasks::TaskV>,
    pub selection: Option<usize>,
    pub input: InputV,
    pub screen: AppScreen,
    pub should_quit: bool,
    pub show_help: bool,
}

impl View for Pomo {
    type V = PomoV;

    open spec fn view(&self) -> PomoV {
        PomoV {
            session: self.session,
            tasks: self.tasks.tasks@.map_values(|t: Task| t@),
            selection: self.tasks.selection,
            input: self.input_mode@,
            screen: self.screen,
            should_quit: self.should_quit,
            show_help: self.show_help,
        }
    }
}

impl PomoV {
    /// True when the cursor points at an existing task.
    pub open spec fn has_valid_selection(self) -> bool {
        self.selection matches Some(i) && i < self.tasks.len()
    }

    /// The pending text, empty in normal mode.
    pub open spec fn buffer(self) -> Seq<char> {
        match self.input {
            InputV::Normal => Seq::empty(),
            InputV::Insert(b) => b,
            InputV::Edit(b) => b,
            InputV::TimerEdit(b) => b,
        }
    }

    /// The same input mode with its buffer replaced; normal mode has no
    /// buffer and is untouched.
    pub open spec fn with_buffer(self, b: Seq<char>) -> PomoV {
        match self.input {
            InputV::Normal => self,
            InputV::Insert(_) => PomoV { input: InputV::Insert(b), ..self },
            InputV::Edit(_) => PomoV { input: InputV::Edit(b), ..self },
            InputV::TimerEdit(_) => PomoV { input: InputV::TimerEdit(b), ..self },
        }
    }

    /// What committing the buffer does: a non-empty buffer becomes a new
    /// task, the selected task's new title, or — if it is a numeral whose
    /// minute count is representable and the timer stands still — the active
    /// mode's new duration; malformed input is discarded.  The controller
    /// always returns to normal mode.
    pub open spec fn committed(self) -> PomoV {
        let b = self.buffer();
        let done = PomoV { input: InputV::Normal, ..self };
        if b.len() == 0 {
            done
        } else {
            match self.input {
                InputV::Normal => self,
                InputV::Insert(_) => PomoV {
                    tasks: self.tasks.push(crate::tasks::TaskV { title: b, is_done: false }),
                    ..done
                },
                InputV::Edit(_) => if self.has_valid_selection() {
                    let i = self.selection->0 as int;
                    PomoV {
                        tasks: self.tasks.update(
                            i,
                            crate::tasks::TaskV { title: b, is_done: self.tasks[i].is_done },
                        ),
                        ..done
                    }
                } else {
                    done
                },
                InputV::TimerEdit(_) => if all_digits(b) && dec_val(b) <= MAX_DURATION_MINS
                    && !self.session.is_running {
                    PomoV {
                        session: self.session.with_current_duration((dec_val(b) * 60) as u64),
                        ..done
                    }
                } else {
                    done
                },
            }
        }
    }

    /// The state after one command; invariant-guarded commands (a missing
    /// selection, a running timer) fall back to the identity.
    pub open spec fn spec_apply(self, a: Action) -> PomoV {
        match a {
            Action::Idle => self,
            Action::Quit => PomoV { should_quit: true, ..self },
            Action::SwitchScreen(s) => PomoV { screen: s, ..self },
            Action::ToggleTimer => PomoV {
                session: Session { is_running: !self.session.is_running, ..self.session },
                ..self
            },
            Action::CycleMode => if self.session.is_running {
                self
            } else {
                let m = cycled_mode(self.session.mode);
                PomoV {
                    session: Session {
                        mode: m,
                        time_remaining: self.session.configured_secs(m),
                        total_duration: self.session.configured_secs(m),
                        ..self.session
                    },
                    ..self
                }
            },
            Action::ResetTimer => PomoV {
                session: Session { time_remaining: self.session.total_duration, ..self.session },
                ..self
            },
            Action::EnterTimerEdit => if self.session.is_running {
                self
            } else {
                PomoV {
                    input: InputV::TimerEdit(dec_str((self.session.time_remaining / 60) as nat)),
                    ..self
                }
            },
            Action::EnterInsert => PomoV { input: InputV::Insert(Seq::<char>::empty()), ..self },
            Action::EnterEdit => if self.has_valid_selection() {
                PomoV { input: InputV::Edit(self.tasks[self.selection->0 as int].title), ..self }
            } else {
                self
            },
            Action::DeleteTask => if self.has_valid_selection() {
                PomoV {
                    tasks: self.tasks.remove(self.selection->0 as int),
                    selection: if self.tasks.len() == 1 {
                        None
                    } else {
                        self.selection
                    },
                    ..self
                }
            } else {
                self
            },
            Action::NextTask => PomoV {
                selection: next_selection(self.tasks.len(), self.selection),
                ..self
            },
            Action::PrevTask => PomoV {
                selection: prev_selection(self.tasks.len(), self.selection),
                ..self
            },
            Action::ToggleTask => if self.has_valid_selection() {
                let i = self.selection->0 as int;
                PomoV {
                    tasks: self.tasks.update(
                        i,
                        crate::tasks::TaskV {
                            title: self.tasks[i].title,
                            is_done: !self.tasks[i].is_done,
                        },
                    ),
                    ..self
                }
            } else {
                self
            },
            Action::ToggleHelp => PomoV { show_help: !self.show_help, ..self },
            Action::BufferPush(c) => if self.input is Normal {
                self
            } else {
                self.with_buffer(self.buffer().push(c))
            },
            Action::BufferPop => if self.input is Normal || self.buffer().len() == 0 {
                self
            } else {
                self.with_buffer(self.buffer().drop_last())
            },
            Action::BufferCancel => PomoV { input: InputV::Normal, ..self },
            Action::BufferCommit => self.committed(),
        }
    }
}

impl Pomo {
    /// Application invariant: the session and the task list each satisfy
    /// their own.
    pub open spec fn wf(self) -> bool {
        &&& self.session.wf()
        &&& self.tasks.wf()
    }

    /// A fresh application: default durations, a stopped work phase, no
    /// tasks, no selection, normal input mode, the timer screen focused.
    pub fn new() -> (p: Pomo)
        ensures
            p.wf(),
            p@.session == Session::spec_default(),
            p@.tasks =~= Seq::<crate::tasks::TaskV>::empty(),
            p@.selection is None,
            p@.input is Normal,
            p@.screen is Timer,
            !p@.should_quit,
            !p@.show_help,
    {
        Pomo {
            session: Session::new(),
            tasks: TaskList::new(),
            input_mode: InputMode::Normal,
            screen: AppScreen::Timer,
            should_quit: false,
            show_help: false,
        }
    }

    /// One second of wall-clock time, handed to the session; everything else
    /// is untouched.  Returns the notification text when a phase completes.
    pub fn tick(&mut self) -> (note: Option<Notification>)
        requires
            old(self).wf(),
        ensures
            final(self).wf(),
            crate::session::tick_rel(old(self)@.session, final(self)@.session, note),
            final(self)@ == (PomoV { session: final(self)@.session, ..old(self)@ }),
    {
        self.session.tick()
    }

    /// Start or pause the countdown.
    pub fn toggle_timer(&mut self)
        requires
            old(self).wf(),
        ensures
            final(self).wf(),
            final(self)@ == old(self)@.spec_apply(Action::ToggleTimer),
    {
        self.session.toggle();
    }

    /// Rotate to the next session mode; a no-op while the timer runs.
    pub fn cycle_mode(&mut self)
        requires
            old(self).wf(),
        ensures
            final(self).wf(),
            final(self)@ == old(self)@.spec_apply(Action::CycleMode),
    {
        if !self.session.is_running {
            let m = match self.session.mode {
                SessionMode::Work => SessionMode::ShortBreak,
                SessionMode::ShortBreak => SessionMode::LongBreak,
                SessionMode::LongBreak => SessionMode::Work,
            };
            self.session.set_mode(m);
        }
    }

    /// Reset the current phase to its full configured duration.
    pub fn reset_timer(&mut self)
        requires
            old(self).wf(),
        ensures
            final(self).wf(),
            final(self)@ == old(self)@.spec_apply(Action::ResetTimer),
    {
        self.session.reset();
    }

    /// Open the timer-edit buffer, seeded with the remaining whole minutes;
    /// a no-op while the timer runs.
    pub fn enter_timer_edit_mode(&mut self)
        requires
            old(self).wf(),
        ensures
            final(self).wf(),
            final(self)@ == old(self)@.spec_apply(Action::EnterTimerEdit),
    {
        if !self.session.is_running {
            let buf = u64_to_string(self.session.time_remaining / 60);
            self.input_mode = InputMode::TimerEdit(buf);
        }
    }

    /// Open an empty buffer for a new task's title.
    pub fn enter_insert_mode(&mut self)
        requires
            old(self).wf(),
        ensures
            final(self).wf(),
            final(self)@ == old(self)@.spec_apply(Action::EnterInsert),
    {
        self.input_mode = InputMode::Insert(String::new());
    }

    /// Open a buffer seeded with the selected task's title; a no-op without
    /// a valid selection.
    pub fn enter_edit_mode(&mut self)
        requires
            old(self).wf(),
        ensures
            final(self).wf(),
            final(self)@ == old(self)@.spec_apply(Action::EnterEdit),
    {
        if let Some(i) = self.tasks.selection {
            if i < self.tasks.tasks.len() {
                let title = self.tasks.tasks[i].title.clone();
                self.input_mode = InputMode::Edit(title);
            }
        }
    }

    /// Remove the selected task (see `TaskList::delete_selected`).
    pub fn delete_task(&mut self)
        requires
            old(self).wf(),
        ensures
            final(self).wf(),
            final(self)@ == old(self)@.spec_apply(Action::DeleteTask),
    {
        self.tasks.delete_selected();
    }

    /// Move the selection one task down, cyclically.
    pub fn next_task(&mut self)
        requires
            old(self).wf(),
        ensures
            final(self).wf(),
            final(self)@ == old(self)@.spec_apply(Action::NextTask),
    {
        self.tasks.select_next();
    }

    /// Move the selection one task up, cyclically.
    pub fn previous_task(&mut self)
        requires
            old(self).wf(),
        ensures
            final(self).wf(),
            final(self)@ == old(self)@.spec_apply(Action::PrevTask),
    {
        self.tasks.select_previous();
    }

    /// Flip the done flag of the selected task.
    pub fn toggle_task(&mut self)
        requires
            old(self).wf(),
        ensures
            final(self).wf(),
            final(self)@ == old(self)@.spec_apply(Action::ToggleTask),
    {
        self.tasks.toggle_selected_done();
    }

    /// Append one character to the pending buffer.
    pub fn push_buffer(&mut self, c: char)
        requires
            old(self).wf(),
        ensures
            final(self).wf(),
            final(self)@ == old(self)@.spec_apply(Action::BufferPush(c)),
    {
        match &mut self.input_mode {
            InputMode::Normal => {},
            InputMode::Insert(b) => push_char(b, c),
            InputMode::Edit(b) => push_char(b, c),
            InputMode::TimerEdit(b) => push_char(b, c),
        }
    }

    /// Drop the last character of the pending buffer.
    pub fn pop_buffer(&mut self)
        requires
            old(self).wf(),
        ensures
            final(self).wf(),
            final(self)@ == old(self)@.spec_apply(Action::BufferPop),
    {
        match &mut self.input_mode {
            InputMode::Normal => {},
            InputMode::Insert(b) => {
                let _ = pop_char(b);
            },
            InputMode::Edit(b) => {
                let _ = pop_char(b);
            },
            InputMode::TimerEdit(b) => {
                let _ = pop_char(b);
            },
        }
    }

    /// Discard the pending buffer and return to normal mode.
    pub fn cancel_buffer(&mut self)
        requires
            old(self).wf(),
        ensures
            final(self).wf(),
            final(self)@ == old(self)@.spec_apply(Action::BufferCancel),
    {
        self.input_mode = InputMode::Normal;
    }

    /// Commit the pending buffer (see `PomoV::committed`) and return to
    /// normal mode.
    pub fn commit_buffer(&mut self)
        requires
            old(self).wf(),
        ensures
            final(self).wf(),
            final(self)@ == old(self)@.spec_apply(Action::BufferCommit),
    {
        let mut mode = InputMode::Normal;
        core::mem::swap(&mut mode, &mut self.input_mode);
        match mode {
            InputMode::Normal => {},
            InputMode::Insert(b) => {
                if !b.as_str().is_empty() {
                    self.tasks.insert(b);
                }
            },
            InputMode::Edit(b) => {
                if !b.as_str().is_empty() {
                    self.tasks.edit_selected(b);
                }
            },
            InputMode::TimerEdit(b) => {
                if !b.as_str().is_empty() && !self.session.is_running {
                    match parse_u64(b.as_str()) {
                        Some(mins) => {
                            if mins <= MAX_DURATION_MINS {
                                self.session.set_duration_for_current_mode(mins);
                            }
                        },
                        None => {},
                    }
                }
            },
        }
    }

    /// Carry out one command.
    pub fn apply_action(&mut self, a: Action)
        requires
            old(self).wf(),
        ensures
            final(self).wf(),
            final(self)@ == old(self)@.spec_apply(a),
    {
        match a {
            Action::Idle => {},
            Action::Quit => {
                self.should_quit = true;
            },
            Action::SwitchScreen(s) => {
                self.screen = s;
            },
            Action::ToggleTimer => self.toggle_timer(),
            Action::CycleMode => self.cycle_mode(),
            Action::ResetTimer => self.reset_timer(),
            Action::EnterTimerEdit => self.enter_timer_edit_mode(),
            Action::EnterInsert => self.enter_insert_mode(),
            Action::EnterEdit => self.enter_edit_mode(),
            Action::DeleteTask => self.delete_task(),
            Action::NextTask => self.next_task(),
            Action::PrevTask => self.previous_task(),
            Action::ToggleTask => self.toggle_task(),
            Action::ToggleHelp => {
                self.show_help = !self.show_help;
            },
            Action::BufferPush(c) => self.push_buffer(c),
            Action::BufferPop => self.pop_buffer(),
            Action::BufferCancel => self.cancel_buffer(),
            Action::BufferCommit => self.commit_buffer(),
        }
    }

    /// Interpret one keystroke and carry it out: dispatch, then apply.
    pub fn handle_key(&mut self, key: Key)
        requires
            old(self).wf(),
        ensures
            final(self).wf(),
            final(self)@ == old(self)@.spec_apply(
                spec_dispatch(old(self).screen, old(self).input_mode@, key),
            ),
    {
        let a = dispatch(self.screen, &self.input_mode, key);
        self.apply_action(a);
    }

    /// The static help table shown by the help toggle.
    pub fn get_commands(&self) -> (r: Vec<Command>)
        ensures
            r@.len() == 5,
            r@[0].key@ == "Space"@ && r@[0].desc@ == "Toggle Timer"@,
            r@[1].key@ == "j/k"@ && r@[1].desc@ == "Navigate Tasks"@,
            r@[2].key@ == "Enter"@ && r@[2].desc@ == "Toggle Done"@,
            r@[3].key@ == "?"@ && r@[3].desc@ == "Toggle Help"@,
            r@[4].key@ == "q"@ && r@[4].desc@ == "Quit"@,
    {
        let mut r: Vec<Command> = Vec::new();
        r.push(Command { key: "Space", desc: "Toggle Timer" });
        r.push(Command { key: "j/k", desc: "Navigate Tasks" });
        r.push(Command { key: "Enter", desc: "Toggle Done" });
        r.push(Command { key: "?", desc: "Toggle Help" });
        r.push(Command { key: "q", desc: "Quit" });
        r
    }
}

} // verus!

