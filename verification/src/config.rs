//! The persisted record: the three configured durations in whole minutes and
//! the task list.  The core builds and consumes this plain value; reading
//! and writing the configuration file, and its serialisation, are the
//! surrounding program's business.  Loading is best-effort: a duration too
//! large to represent in seconds falls back to its default.

use vstd::prelude::*;

use crate::session::Session;
use crate::session::SessionMode;
use crate::session::DEFAULT_LONG_BREAK_SECS;
use crate::session::DEFAULT_SHORT_BREAK_SECS;
use crate::session::DEFAULT_WORK_SECS;
use crate::session::MAX_DURATION_MINS;
use crate::state::AppScreen;
use crate::state::InputMode;
use crate::state::InputV;
use crate::state::Pomo;
use crate::state::PomoV;
use crate::tasks::Task;
use crate::tasks::TaskList;
use crate::tasks::TaskV;

verus! {

/// What gets persisted between runs.
pub struct Config {
    pub work_time_mins: u64,
    pub short_break_mins: u64,
    pub long_break_mins: u64,
    pub tasks: Vec<Task>,
}

/// The mathematical model of the persisted record.
#[verifier::ext_equal]
pub struct ConfigV {
    pub work_time_mins: u64,
    pub short_break_mins: u64,
    pub long_break_mins: u64,
    pub tasks: Seq<TaskV>,
}

impl View for Config {
    type V = ConfigV;

    open spec fn view(&self) -> ConfigV {
        ConfigV {
            work_time_mins: self.work_time_mins,
            short_break_mins: self.short_break_mins,
            long_break_mins: self.long_break_mins,
            tasks: self.tasks@.map_values(|t: Task| t@),
        }
    }
}

/// The record saved from an application state: each duration rounded down
/// to whole minutes (durations are only ever configured in whole minutes,
/// so nothing is lost), and the tasks as they stand.
pub open spec fn spec_to_config(p: PomoV) -> ConfigV {
    ConfigV {
        work_time_mins: (p.session.work_secs / 60) as u64,
        short_break_mins: (p.session.short_break_secs / 60) as u64,
        long_break_mins: (p.session.long_break_secs / 60) as u64,
        tasks: p.tasks,
    }
}

/// A loaded duration in seconds: the persisted minute count where it is
/// representable, the default otherwise.
pub open spec fn loaded_secs(mins: u64, default: u64) -> u64 {
    if mins <= MAX_DURATION_MINS {
        (mins * 60) as u64
    } else {
        default
    }
}

/// The application state seeded from a loaded record: a stopped work phase
/// at its full duration, the loaded tasks, and everything else as on a fresh
/// start.
pub open spec fn spec_from_config(c: ConfigV) -> PomoV {
    let w = loaded_secs(c.work_time_mins, DEFAULT_WORK_SECS);
    let s = loaded_secs(c.short_break_mins, DEFAULT_SHORT_BREAK_SECS);
    let l = loaded_secs(c.long_break_mins, DEFAULT_LONG_BREAK_SECS);
    PomoV {
        session: Session {
            mode: SessionMode::Work,
            work_secs: w,
            short_break_secs: s,
            long_break_secs: l,
            time_remaining: w,
            total_duration: w,
            is_running: false,
            completed_work_count: 0u64,
        },
        tasks: c.tasks,
        selection: None,
        input: InputV::Normal,
        screen: AppScreen::Timer,
        should_quit: false,
        show_help: false,
    }
}

impl Pomo {
    /// The record to persist for this state.
    pub fn to_config(&self) -> (c: Config)
        requires
            self.wf(),
        ensures
            c@ == spec_to_config(self@),
    {
        let mut tasks: Vec<Task> = Vec::new();
        let mut i: usize = 0;
        while i < self.tasks.tasks.len()
            invariant
                i <= self.tasks.tasks.len(),
                tasks@ =~= self.tasks.tasks@.take(i as int),
            decreases self.tasks.tasks.len() - i,
        {
            tasks.push(self.tasks.tasks[i].clone());
            i = i + 1;
        }
        proof {
            assert(tasks@ =~= self.tasks.tasks@);
        }
        let c = Config {
            work_time_mins: self.session.work_secs / 60,
            short_break_mins: self.session.short_break_secs / 60,
            long_break_mins: self.session.long_break_secs / 60,
            tasks,
        };
        proof {
            assert(c@ =~= spec_to_config(self@));
        }
        c
    }

    /// The application state a loaded record seeds.
    pub fn from_config(c: Config) -> (p: Pomo)
        ensures
            p.wf(),
            p@ == spec_from_config(c@),
    {
        let work = if c.work_time_mins <= MAX_DURATION_MINS {
            c.work_time_mins * 60
        } else {
            DEFAULT_WORK_SECS
        };
        let short = if c.short_break_mins <= MAX_DURATION_MINS {
            c.short_break_mins * 60
        } else {
            DEFAULT_SHORT_BREAK_SECS
        };
        let long = if c.long_break_mins <= MAX_DURATION_MINS {
            c.long_break_mins * 60
        } else {
            DEFAULT_LONG_BREAK_SECS
        };
        proof {
            vstd::arithmetic::div_mod::lemma_mod_multiples_basic(c.work_time_mins as int, 60);
            vstd::arithmetic::div_mod::lemma_mod_multiples_basic(c.short_break_mins as int, 60);
            vstd::arithmetic::div_mod::lemma_mod_multiples_basic(c.long_break_mins as int, 60);
        }
        let p = Pomo {
            session: Session {
                mode: SessionMode::Work,
                work_secs: work,
                short_break_secs: short,
                long_break_secs: long,
                time_remaining: work,
                total_duration: work,
                is_running: false,
                completed_work_count: 0,
            },
            tasks: TaskList { tasks: c.tasks, selection: None },
            input_mode: InputMode::Normal,
            screen: AppScreen::Timer,
            should_quit: false,
            show_help: false,
        };
        proof {
            assert(p@ =~= spec_from_config(c@));
        }
        p
    }
}

/// Law: a save-then-load round trip preserves the three configured durations
/// and the tasks — titles and done flags — exactly.
pub proof fn lemma_config_round_trip(p: PomoV)
    requires
        p.session.wf(),
    ensures
        spec_from_config(spec_to_config(p)).session.work_secs == p.session.work_secs,
        spec_from_config(spec_to_config(p)).session.short_break_secs == p.session.short_break_secs,
        spec_from_config(spec_to_config(p)).session.long_break_secs == p.session.long_break_secs,
        spec_from_config(spec_to_config(p)).tasks == p.tasks,
{
    lemma_whole_minutes_round_trip(p.session.work_secs);
    lemma_whole_minutes_round_trip(p.session.short_break_secs);
    lemma_whole_minutes_round_trip(p.session.long_break_secs);
}

/// A second count that is a whole number of minutes survives the trip
/// through its minute count.
proof fn lemma_whole_minutes_round_trip(secs: u64)
    requires
        secs % 60 == 0,
    ensures
        secs / 60 <= MAX_DURATION_MINS,
        (secs / 60) * 60 == secs,
{
    vstd::arithmetic::div_mod::lemma_fundamental_div_mod(secs as int, 60);
    vstd::arithmetic::div_mod::lemma_div_is_ordered(secs as int, u64::MAX as int, 60);
}

} // verus!
