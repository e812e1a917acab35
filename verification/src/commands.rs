//! What the user can ask for, and what each request does to the task list.
//!
//! A request is carried out as far as it can be: each edit that it asks for is tried
//! in turn, and the edits that are refused are reported together at the end.

use vstd::prelude::*;
use crate::due_date::spec_due_date;
use crate::manager::{new_task_view, EditError, TaskManager};
use crate::task::{Status, TaskView};
use crate::time::Timestamp;
use crate::urgency::{MAXIMUM_URGENCY, MINIMUM_URGENCY};

verus! {

/// A request of the user. Urgencies are in thousandths, due dates are written as
/// day/month/year, and a task is addressed by its position in the list.
#[derive(Clone, Debug, PartialEq, Eq)]
#[allow(inconsistent_fields)]
pub enum Command {
    /// Add a task, and give it what else is stated.
    Add { name: String, description: Option<String>, urgency: Option<i64>, due_time: Option<String> },
    /// Show one task.
    View { id: usize },
    /// Show the list.
    List,
    /// Change what is stated of one task.
    Edit {
        id: usize,
        name: Option<String>,
        description: Option<String>,
        urgency: Option<i64>,
        due_time: Option<String>,
    },
    /// Make a task active.
    Start { id: usize },
    /// Make a task inactive.
    Stop { id: usize },
    /// Mark a task as done, which also takes its urgency down to zero.
    Done { id: usize },
    /// Remove a task.
    Remove { id: usize },
}

/// What specifications see of a [`Command`]: its texts as sequences of characters.
#[allow(inconsistent_fields)]
pub enum CommandView {
    Add { name: Seq<char>, description: Option<Seq<char>>, urgency: Option<i64>, due_time: Option<Seq<char>> },
    View { id: usize },
    List,
    Edit {
        id: usize,
        name: Option<Seq<char>>,
        description: Option<Seq<char>>,
        urgency: Option<i64>,
        due_time: Option<Seq<char>>,
    },
    Start { id: usize },
    Stop { id: usize },
    Done { id: usize },
    Remove { id: usize },
}

/// The characters of an optional text.
pub open spec fn text_of(text: Option<String>) -> Option<Seq<char>> {
    match text {
        Some(s) => Some(s@),
        None => None,
    }
}

impl View for Command {
    type V = CommandView;

    open spec fn view(&self) -> CommandView {
        match *self {
            Command::Add { name, description, urgency, due_time } => CommandView::Add {
                name: name@,
                description: text_of(description),
                urgency,
                due_time: text_of(due_time),
            },
            Command::View { id } => CommandView::View { id },
            Command::List => CommandView::List,
            Command::Edit { id, name, description, urgency, due_time } => CommandView::Edit {
                id,
                name: text_of(name),
                description: text_of(description),
                urgency,
                due_time: text_of(due_time),
            },
            Command::Start { id } => CommandView::Start { id },
            Command::Stop { id } => CommandView::Stop { id },
            Command::Done { id } => CommandView::Done { id },
            Command::Remove { id } => CommandView::Remove { id },
        }
    }
}

/// How far a request has been carried out: the list as it stands, and the edits
/// refused so far, in the order in which they were tried.
pub struct Progress {
    pub tasks: Seq<TaskView>,
    pub refusals: Seq<EditError>,
}

impl Progress {
    /// Nothing tried yet.
    pub open spec fn start(tasks: Seq<TaskView>) -> Progress {
        Progress { tasks, refusals: Seq::empty() }
    }

    /// The edit was refused for the given reason.
    pub open spec fn refused(self, reason: EditError) -> Progress {
        Progress { refusals: self.refusals.push(reason), ..self }
    }

    /// The task at `id` is replaced by `edited`, if there is a task at `id`.
    pub open spec fn replaced(self, id: int, edited: TaskView) -> Progress {
        if 0 <= id < self.tasks.len() {
            Progress { tasks: self.tasks.update(id, edited), ..self }
        } else {
            self.refused(EditError::InvalidId)
        }
    }

    /// A new title, if one is given.
    pub open spec fn named(self, id: int, name: Option<Seq<char>>) -> Progress {
        match name {
            Some(title) => self.replaced(id, TaskView { title, ..self.tasks[id] }),
            None => self,
        }
    }

    /// A new description, if one is given.
    pub open spec fn described(self, id: int, description: Option<Seq<char>>) -> Progress {
        match description {
            Some(description) => self.replaced(id, TaskView { description, ..self.tasks[id] }),
            None => self,
        }
    }

    /// A new status.
    pub open spec fn moved_to(self, id: int, status: Status) -> Progress {
        self.replaced(id, TaskView { status, ..self.tasks[id] })
    }

    /// A new urgency, if one is given; set only if it lies in the range that can be
    /// set by hand.
    pub open spec fn rated(self, id: int, urgency: Option<i64>) -> Progress {
        match urgency {
            Some(urgency) => if 0 <= id < self.tasks.len() && !(MINIMUM_URGENCY <= urgency
                <= MAXIMUM_URGENCY) {
                self.refused(EditError::UrgencyOutOfRange)
            } else {
                self.replaced(id, TaskView { urgency: urgency as int, ..self.tasks[id] })
            },
            None => self,
        }
    }

    /// A new due date, if a text is given and is a date.
    pub open spec fn due(self, id: int, date: Option<Seq<char>>) -> Progress {
        match date {
            Some(date) => match spec_due_date(date) {
                Ok(instant) => self.replaced(id, TaskView { due_time: Some(instant), ..self.tasks[id] }),
                Err(e) => self.refused(EditError::BadDueDate(e)),
            },
            None => self,
        }
    }

    /// The task at `id` is taken out of the list, if there is a task at `id`.
    pub open spec fn removed(self, id: int) -> Progress {
        if 0 <= id < self.tasks.len() {
            Progress { tasks: self.tasks.remove(id), ..self }
        } else {
            self.refused(EditError::InvalidId)
        }
    }
}

/// What a request makes of a task list when carried out at `now`.
///
/// To add a task is to append it and then to edit it where it stands, at the end of
/// the list. To mark a task as done is to set its status and then its urgency, so a
/// position that is not there is refused twice. Showing changes nothing.
pub open spec fn spec_execute(tasks: Seq<TaskView>, command: CommandView, now: int) -> Progress {
    match command {
        CommandView::Add { name, description, urgency, due_time } => {
            let last = tasks.len() as int;
            Progress::start(tasks.push(new_task_view(name, now))).described(last, description).rated(
                last,
                urgency,
            ).due(last, due_time)
        },
        CommandView::View { id } => Progress::start(tasks),
        CommandView::List => Progress::start(tasks),
        CommandView::Edit { id, name, description, urgency, due_time } => Progress::start(tasks).named(
            id as int,
            name,
        ).described(id as int, description).rated(id as int, urgency).due(id as int, due_time),
        CommandView::Start { id } => Progress::start(tasks).moved_to(id as int, Status::Active),
        CommandView::Stop { id } => Progress::start(tasks).moved_to(id as int, Status::Inactive),
        CommandView::Done { id } => Progress::start(tasks).moved_to(id as int, Status::Done).rated(
            id as int,
            Some(MINIMUM_URGENCY),
        ),
        CommandView::Remove { id } => Progress::start(tasks).removed(id as int),
    }
}

/// Adds the reason to the refusals if the edit was refused.
fn note(refusals: &mut Vec<EditError>, result: Result<(), EditError>)
    ensures
        final(refusals)@ == match result {
            Ok(_) => old(refusals)@,
            Err(reason) => old(refusals)@.push(reason),
        },
{
    match result {
        Ok(_) => {},
        Err(reason) => {
            refusals.push(reason);
        },
    }
}

impl TaskManager {
    /// The list and the refusals, taken together as the progress made.
    pub open spec fn progress(&self, refusals: Seq<EditError>) -> Progress {
        Progress { tasks: self@, refusals }
    }

    /// Tries the edits that `Add` and `Edit` have in common, in their order:
    /// description, urgency, due date.
    fn apply_details(
        &mut self,
        refusals: &mut Vec<EditError>,
        id: usize,
        description: Option<String>,
        urgency: Option<i64>,
        due_time: Option<String>,
    )
        ensures
            final(self).progress(final(refusals)@) == old(self).progress(old(refusals)@).described(
                id as int,
                text_of(description),
            ).rated(id as int, urgency).due(id as int, text_of(due_time)),
    {
        match description {
            Some(text) => {
                let result = self.set_task_description(id, text);
                note(refusals, result);
            },
            None => {},
        }
        match urgency {
            Some(value) => {
                let result = self.set_urgency(id, value);
                note(refusals, result);
            },
            None => {},
        }
        match due_time {
            Some(text) => {
                let result = self.set_partial_due_date(id, text.as_str());
                note(refusals, result);
            },
            None => {},
        }
    }

    /// Carries out a request at `now` and returns the edits that were refused, in the
    /// order in which they were tried.
    pub fn execute_at(&mut self, command: Command, now: Timestamp) -> (refusals: Vec<EditError>)
        ensures
            final(self).progress(refusals@) == spec_execute(old(self)@, command@, now@),
    {
        let mut refusals: Vec<EditError> = Vec::new();
        match command {
            Command::Add { name, description, urgency, due_time } => {
                self.add_task_at(name, now);
                assert(self.tasks@.len() == self@.len());
                let last: usize = self.tasks.len() - 1;
                self.apply_details(&mut refusals, last, description, urgency, due_time);
            },
            Command::View { id } => {},
            Command::List => {},
            Command::Edit { id, name, description, urgency, due_time } => {
                match name {
                    Some(text) => {
                        let result = self.set_task_name(id, text);
                        note(&mut refusals, result);
                    },
                    None => {},
                }
                self.apply_details(&mut refusals, id, description, urgency, due_time);
            },
            Command::Start { id } => {
                let result = self.set_task_status(id, Status::Active);
                note(&mut refusals, result);
            },
            Command::Stop { id } => {
                let result = self.set_task_status(id, Status::Inactive);
                note(&mut refusals, result);
            },
            Command::Done { id } => {
                let result = self.set_task_status(id, Status::Done);
                note(&mut refusals, result);
                let result = self.set_urgency(id, MINIMUM_URGENCY);
                note(&mut refusals, result);
            },
            Command::Remove { id } => {
                let result = self.remove_task_by_id(id);
                note(&mut refusals, result);
            },
        }
        refusals
    }

    /// Carries out a request at the time of the call and returns the edits that were
    /// refused.
    pub fn execute(&mut self, command: Command) -> (refusals: Vec<EditError>)
        ensures
            exists|now: int|
                Timestamp::in_range(now) && final(self).progress(refusals@) == #[trigger] spec_execute(
                    old(self)@,
                    command@,
                    now,
                ),
    {
        let now = Timestamp::now();
        proof {
            now.lemma_view_in_range();
        }
        self.execute_at(command, now)
    }
}

} // verus!
