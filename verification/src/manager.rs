//! The task list, and the edits that address a task by its position.

use vstd::prelude::*;
use crate::due_date::{parse_due_date, spec_due_date, DateError};
use crate::task::{Status, Task, TaskView};
use crate::time::Timestamp;
use crate::urgency::{DEFAULT_URGENCY, MAXIMUM_URGENCY, MINIMUM_URGENCY};

verus! {

/// An ordered list of tasks. A task is addressed by its position, counted from zero;
/// positions change whenever the list is sorted again.
#[derive(Clone, Debug, PartialEq, Eq)]
pub struct TaskManager {
    pub tasks: Vec<Task>,
}

/// Why an edit was refused. A refused edit changes nothing.
#[derive(Clone, Copy, Debug, PartialEq, Eq, Structural)]
pub enum EditError {
    /// No task has the given position.
    InvalidId,
    /// The urgency lies outside the range that can be set by hand.
    UrgencyOutOfRange,
    /// The text gave no due date.
    BadDueDate(DateError),
}

/// The views of a sequence of tasks, position by position.
pub open spec fn views_of(tasks: Seq<Task>) -> Seq<TaskView> {
    Seq::new(tasks.len(), |i: int| tasks[i]@)
}

/// The view of a task as it is when added: inactive, of default urgency, with no
/// description and no due date.
pub open spec fn new_task_view(title: Seq<char>, now: int) -> TaskView {
    TaskView {
        title,
        description: Seq::<char>::empty(),
        status: Status::Inactive,
        urgency: DEFAULT_URGENCY as int,
        start_time: Some(now),
        due_time: None,
    }
}

impl View for TaskManager {
    type V = Seq<TaskView>;

    open spec fn view(&self) -> Seq<TaskView> {
        views_of(self.tasks@)
    }
}

impl TaskManager {
    /// What an edit of the task at `id` leaves behind: the list with `edited` in that
    /// place if there is such a place, the unchanged list and
    /// [`EditError::InvalidId`] if there is none.
    pub open spec fn edit_outcome(
        before: Seq<TaskView>,
        id: usize,
        edited: TaskView,
        after: Seq<TaskView>,
        result: Result<(), EditError>,
    ) -> bool {
        if id < before.len() {
            result == Ok::<(), EditError>(()) && after == before.update(id as int, edited)
        } else {
            result == Err::<(), EditError>(EditError::InvalidId) && after == before
        }
    }

    /// An empty task list.
    pub fn new() -> (manager: TaskManager)
        ensures
            manager@ == Seq::<TaskView>::empty(),
    {
        let manager = TaskManager { tasks: Vec::new() };
        assert(manager@ =~= Seq::<TaskView>::empty());
        manager
    }

    /// Appends a new task with the given title, started at `now`.
    pub fn add_task_at(&mut self, title: String, now: Timestamp)
        ensures
            final(self)@ == old(self)@.push(new_task_view(title@, now@)),
    {
        let task = Task::new(title, now);
        self.tasks.push(task);
        assert(self@ =~= old(self)@.push(new_task_view(title@, now@)));
    }

    /// Appends a new task with the given title, started at the time of the call.
    pub fn add_task(&mut self, title: String)
        ensures
            exists|now: int|
                Timestamp::in_range(now) && final(self)@ == old(self)@.push(
                    #[trigger] new_task_view(title@, now),
                ),
    {
        let now = Timestamp::now();
        proof {
            now.lemma_view_in_range();
        }
        self.add_task_at(title, now);
    }

    /// Whether a task has the position `id`.
    pub fn verify_id(&self, id: usize) -> (valid: bool)
        ensures
            valid == (id < self@.len()),
    {
        id < self.tasks.len()
    }

    /// The task at position `id`, if there is one.
    pub fn task(&self, id: usize) -> (found: Option<&Task>)
        ensures
            match found {
                Some(task) => id < self@.len() && *task == self.tasks@[id as int] && task@ == self@[id as int],
                None => id >= self@.len(),
            },
    {
        if id < self.tasks.len() {
            Some(&self.tasks[id])
        } else {
            None
        }
    }

    /// Gives the task at `id` a new title.
    pub fn set_task_name(&mut self, id: usize, new_name: String) -> (result: Result<(), EditError>)
        ensures
            Self::edit_outcome(
                old(self)@,
                id,
                TaskView { title: new_name@, ..old(self)@[id as int] },
                final(self)@,
                result,
            ),
    {
        if self.verify_id(id) {
            self.tasks[id].title = new_name;
            assert(self@ =~= old(self)@.update(id as int, TaskView { title: new_name@, ..old(self)@[id as int] }));
            Ok(())
        } else {
            Err(EditError::InvalidId)
        }
    }

    /// Gives the task at `id` a new description.
    pub fn set_task_description(&mut self, id: usize, new_description: String) -> (result: Result<
        (),
        EditError,
    >)
        ensures
            Self::edit_outcome(
                old(self)@,
                id,
                TaskView { description: new_description@, ..old(self)@[id as int] },
                final(self)@,
                result,
            ),
    {
        if self.verify_id(id) {
            self.tasks[id].description = new_description;
            assert(self@ =~= old(self)@.update(
                id as int,
                TaskView { description: new_description@, ..old(self)@[id as int] },
            ));
            Ok(())
        } else {
            Err(EditError::InvalidId)
        }
    }

    /// Puts the task at `id` into the given state. Its urgency is not touched.
    pub fn set_task_status(&mut self, id: usize, new_status: Status) -> (result: Result<(), EditError>)
        ensures
            Self::edit_outcome(
                old(self)@,
                id,
                TaskView { status: new_status, ..old(self)@[id as int] },
                final(self)@,
                result,
            ),
    {
        if self.verify_id(id) {
            self.tasks[id].status = new_status;
            assert(self@ =~= old(self)@.update(id as int, TaskView { status: new_status, ..old(self)@[id as int] }));
            Ok(())
        } else {
            Err(EditError::InvalidId)
        }
    }

    /// Sets the urgency of the task at `id` by hand. The urgency must lie between
    /// [`MINIMUM_URGENCY`] and [`MAXIMUM_URGENCY`]; it may be lower than the urgency
    /// that the task has. A position that is not there is reported before an urgency
    /// out of range.
    pub fn set_urgency(&mut self, id: usize, new_urgency: i64) -> (result: Result<(), EditError>)
        ensures
            if id < old(self)@.len() && !(MINIMUM_URGENCY <= new_urgency <= MAXIMUM_URGENCY) {
                result == Err::<(), EditError>(EditError::UrgencyOutOfRange) && final(self)@ == old(self)@
            } else {
                Self::edit_outcome(
                    old(self)@,
                    id,
                    TaskView { urgency: new_urgency as int, ..old(self)@[id as int] },
                    final(self)@,
                    result,
                )
            },
    {
        if self.verify_id(id) {
            if new_urgency >= MINIMUM_URGENCY && new_urgency <= MAXIMUM_URGENCY {
                self.tasks[id].urgency = new_urgency;
                assert(self@ =~= old(self)@.update(
                    id as int,
                    TaskView { urgency: new_urgency as int, ..old(self)@[id as int] },
                ));
                Ok(())
            } else {
                Err(EditError::UrgencyOutOfRange)
            }
        } else {
            Err(EditError::InvalidId)
        }
    }

    /// Gives the task at `id` a due date, or replaces the one it has.
    pub fn set_due_date(&mut self, id: usize, new_due_date: Timestamp) -> (result: Result<(), EditError>)
        ensures
            Self::edit_outcome(
                old(self)@,
                id,
                TaskView { due_time: Some(new_due_date@), ..old(self)@[id as int] },
                final(self)@,
                result,
            ),
    {
        if self.verify_id(id) {
            self.tasks[id].due_time = Some(new_due_date);
            assert(self@ =~= old(self)@.update(
                id as int,
                TaskView { due_time: Some(new_due_date@), ..old(self)@[id as int] },
            ));
            Ok(())
        } else {
            Err(EditError::InvalidId)
        }
    }

    /// Gives the task at `id` the due date written in `date`, as day/month/year. A
    /// text that is no such date is refused before the position is looked at.
    pub fn set_partial_due_date(&mut self, id: usize, date: &str) -> (result: Result<(), EditError>)
        ensures
            match spec_due_date(date@) {
                Ok(instant) => Self::edit_outcome(
                    old(self)@,
                    id,
                    TaskView { due_time: Some(instant), ..old(self)@[id as int] },
                    final(self)@,
                    result,
                ),
                Err(e) => result == Err::<(), EditError>(EditError::BadDueDate(e)) && final(self)@ == old(
                    self,
                )@,
            },
    {
        match parse_due_date(date) {
            Ok(due) => self.set_due_date(id, due),
            Err(e) => Err(EditError::BadDueDate(e)),
        }
    }

    /// Removes the task at `id`. The tasks behind it move up by one position.
    pub fn remove_task_by_id(&mut self, id: usize) -> (result: Result<(), EditError>)
        ensures
            id < old(self)@.len() ==> result == Ok::<(), EditError>(()) && final(self)@ == old(self)@.remove(
                id as int,
            ),
            id >= old(self)@.len() ==> result == Err::<(), EditError>(EditError::InvalidId) && final(self)@
                == old(self)@,
    {
        if self.verify_id(id) {
            let _ = self.tasks.remove(id);
            assert(self@ =~= old(self)@.remove(id as int));
            Ok(())
        } else {
            Err(EditError::InvalidId)
        }
    }
}

} // verus!
