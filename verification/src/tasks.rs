//! The ordered task list and its single optional selection cursor, with
//! cyclic navigation and the invariant-guarded mutations on the selected
//! task.

use vstd::prelude::*;

verus! {

pub struct Task {
    pub title: String,
    pub is_done: bool,
}

/// The mathematical model of a task: the title as a character sequence and
/// the done flag.
#[verifier::ext_equal]
pub struct TaskV {
    pub title: Seq<char>,
    pub is_done: bool,
}

impl View for Task {
    type V = TaskV;

    open spec fn view(&self) -> TaskV {
        TaskV { title: self.title@, is_done: self.is_done }
    }
}

impl Clone for Task {
    fn clone(&self) -> (r: Task)
        ensures
            r == *self,
    {
        Task { title: self.title.clone(), is_done: self.is_done }
    }
}

/// The selection after one step down the list, wrapping past the end to the
/// top; an empty list keeps its (absent) selection, and a list without a
/// selection gets the top selected.
pub open spec fn next_selection(len: nat, sel: Option<usize>) -> Option<usize> {
    if len == 0 {
        sel
    } else {
        match sel {
            None => Some(0usize),
            Some(i) => if i as int >= len - 1 {
                Some(0usize)
            } else {
                Some((i + 1) as usize)
            },
        }
    }
}

/// The selection after one step up the list, wrapping past the top to the
/// end; an empty list keeps its (absent) selection, and a list without a
/// selection gets the top selected.
pub open spec fn prev_selection(len: nat, sel: Option<usize>) -> Option<usize> {
    if len == 0 {
        sel
    } else {
        match sel {
            None => Some(0usize),
            Some(i) => if i == 0 {
                Some((len - 1) as usize)
            } else {
                Some((i - 1) as usize)
            },
        }
    }
}

/// An ordered list of tasks plus an optional selection cursor.
pub struct TaskList {
    pub tasks: Vec<Task>,
    pub selection: Option<usize>,
}

impl TaskList {
    /// List invariant: a selection only exists on a non-empty list and is at
    /// most the length.  Deleting the task at the last index leaves the
    /// cursor one past the end until the next navigation clamps it; the
    /// mutations on the selected task treat such a stale cursor as no
    /// selection.
    pub open spec fn wf(self) -> bool {
        self.selection matches Some(i) ==> 0 < self.tasks.len() && i <= self.tasks.len()
    }

    /// True when the cursor points at an existing task.
    pub open spec fn has_valid_selection(self) -> bool {
        self.selection matches Some(i) && i < self.tasks.len()
    }

    pub fn new() -> (t: TaskList)
        ensures
            t.tasks@ =~= Seq::<Task>::empty(),
            t.selection is None,
            t.wf(),
    {
        TaskList { tasks: Vec::new(), selection: None }
    }

    /// Append a new not-yet-done task; the selection is untouched.
    pub fn insert(&mut self, title: String)
        requires
            old(self).wf(),
        ensures
            final(self).wf(),
            final(self).tasks@ == old(self).tasks@.push(Task { title, is_done: false }),
            final(self).selection == old(self).selection,
    {
        self.tasks.push(Task { title, is_done: false });
    }

    /// Replace the selected task's title; a no-op without a valid selection.
    pub fn edit_selected(&mut self, new_title: String)
        requires
            old(self).wf(),
        ensures
            final(self).wf(),
            final(self).selection == old(self).selection,
            old(self).has_valid_selection() ==> final(self).tasks@ == old(self).tasks@.update(
                old(self).selection->0 as int,
                Task {
                    title: new_title,
                    is_done: old(self).tasks@[old(self).selection->0 as int].is_done,
                },
            ),
            !old(self).has_valid_selection() ==> final(self).tasks@ == old(self).tasks@,
    {
        if let Some(i) = self.selection {
            if i < self.tasks.len() {
                self.tasks[i].title = new_title;
            }
        }
    }

    /// Flip the done flag of the selected task; a no-op without a valid
    /// selection.
    pub fn toggle_selected_done(&mut self)
        requires
            old(self).wf(),
        ensures
            final(self).wf(),
            final(self).selection == old(self).selection,
            old(self).has_valid_selection() ==> final(self).tasks@ == old(self).tasks@.update(
                old(self).selection->0 as int,
                Task {
                    title: old(self).tasks@[old(self).selection->0 as int].title,
                    is_done: !old(self).tasks@[old(self).selection->0 as int].is_done,
                },
            ),
            !old(self).has_valid_selection() ==> final(self).tasks@ == old(self).tasks@,
    {
        if let Some(i) = self.selection {
            if i < self.tasks.len() {
                let cur = self.tasks[i].is_done;
                self.tasks[i].is_done = !cur;
            }
        }
    }

    /// Remove the selected task.  If the list becomes empty the selection
    /// disappears; otherwise the cursor keeps its numeric index, which now
    /// names the following task or sits one past the end until navigation
    /// clamps it.  A no-op without a valid selection.
    pub fn delete_selected(&mut self)
        requires
            old(self).wf(),
        ensures
            final(self).wf(),
            old(self).has_valid_selection() ==> {
                &&& final(self).tasks@ == old(self).tasks@.remove(old(self).selection->0 as int)
                &&& final(self).selection == (if old(self).tasks@.len() == 1 {
                    None::<usize>
                } else {
                    old(self).selection
                })
            },
            !old(self).has_valid_selection() ==> *final(self) == *old(self),
    {
        if let Some(i) = self.selection {
            if i < self.tasks.len() {
                self.tasks.remove(i);
                if self.tasks.len() == 0 {
                    self.selection = None;
                }
            }
        }
    }

    /// Move the selection one task down, cyclically.
    pub fn select_next(&mut self)
        requires
            old(self).wf(),
        ensures
            final(self).wf(),
            final(self).tasks@ == old(self).tasks@,
            final(self).selection == next_selection(old(self).tasks@.len(), old(self).selection),
            final(self).has_valid_selection() || final(self).tasks@.len() == 0,
    {
        let len = self.tasks.len();
        if len > 0 {
            self.selection = match self.selection {
                None => Some(0),
                Some(i) => if i >= len - 1 {
                    Some(0)
                } else {
                    Some(i + 1)
                },
            };
        }
    }

    /// Move the selection one task up, cyclically.
    pub fn select_previous(&mut self)
        requires
            old(self).wf(),
        ensures
            final(self).wf(),
            final(self).tasks@ == old(self).tasks@,
            final(self).selection == prev_selection(old(self).tasks@.len(), old(self).selection),
            final(self).has_valid_selection() || final(self).tasks@.len() == 0,
    {
        let len = self.tasks.len();
        if len > 0 {
            self.selection = match self.selection {
                None => Some(0),
                Some(i) => if i == 0 {
                    Some(len - 1)
                } else {
                    Some(i - 1)
                },
            };
        }
    }
}

/// Law: on a non-empty list with a selection that names an existing task,
/// stepping down and then up (or up and then down) restores the selection.
pub proof fn lemma_select_round_trip(t: TaskList)
    requires
        t.wf(),
        t.has_valid_selection(),
    ensures
        prev_selection(t.tasks@.len(), next_selection(t.tasks@.len(), t.selection)) == t.selection,
        next_selection(t.tasks@.len(), prev_selection(t.tasks@.len(), t.selection)) == t.selection,
{
}

} // verus!
