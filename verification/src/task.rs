//! A task, and how its urgency is brought up to date.

use vstd::prelude::*;
use crate::time::Timestamp;
use crate::urgency::{spec_urgency_floor, urgency_floor, DEFAULT_URGENCY, MAXIMUM_URGENCY};

verus! {

/// Where a task stands. A task is in exactly one of these states.
#[derive(Clone, Copy, Debug, PartialEq, Eq, Structural)]
pub enum Status {
    Inactive,
    Active,
    Done,
}

impl Status {
    /// The name under which the status is shown.
    pub fn label(&self) -> (name: &'static str)
        ensures
            name@ == match *self {
                Status::Inactive => "Inactive"@,
                Status::Active => "Active"@,
                Status::Done => "Done"@,
            },
    {
        match self {
            Status::Inactive => "Inactive",
            Status::Active => "Active",
            Status::Done => "Done",
        }
    }
}

/// One entry of the task list.
///
/// `urgency` is counted in thousandths. It usually lies between
/// [`MINIMUM_URGENCY`](crate::urgency::MINIMUM_URGENCY) and
/// [`MAXIMUM_URGENCY`](crate::urgency::MAXIMUM_URGENCY), but a task past its due date
/// goes beyond.
#[derive(Clone, Debug, PartialEq, Eq)]
pub struct Task {
    pub title: String,
    pub description: String,
    pub status: Status,
    pub urgency: i64,
    pub start_time: Option<Timestamp>,
    pub due_time: Option<Timestamp>,
}

/// What specifications see of a [`Task`]: its texts as sequences of characters, its
/// urgency as an integer, its times in nanoseconds since the epoch.
pub struct TaskView {
    pub title: Seq<char>,
    pub description: Seq<char>,
    pub status: Status,
    pub urgency: int,
    pub start_time: Option<int>,
    pub due_time: Option<int>,
}

/// The nanosecond count of an optional timestamp.
pub open spec fn instant_of(time: Option<Timestamp>) -> Option<int> {
    match time {
        Some(t) => Some(t@),
        None => None,
    }
}

impl View for Task {
    type V = TaskView;

    open spec fn view(&self) -> TaskView {
        TaskView {
            title: self.title@,
            description: self.description@,
            status: self.status,
            urgency: self.urgency as int,
            start_time: instant_of(self.start_time),
            due_time: instant_of(self.due_time),
        }
    }
}

impl TaskView {
    /// An open task can be brought up to date only if it has a start time; one that is
    /// done is left alone and needs none.
    pub open spec fn ready(self) -> bool {
        self.status != Status::Done ==> self.start_time is Some
    }

    /// The least urgency that the task must have at `now`.
    pub open spec fn floor(self, now: int) -> int
        recommends
            self.start_time is Some,
    {
        spec_urgency_floor(self.start_time->0, self.due_time, now)
    }

    /// The task as of `now`: a task that is done stays as it is; any other has its
    /// urgency raised to its floor, if the floor is higher.
    pub open spec fn recomputed(self, now: int) -> TaskView
        recommends
            self.ready(),
    {
        if self.status == Status::Done || self.floor(now) <= self.urgency {
            self
        } else {
            TaskView { urgency: self.floor(now), ..self }
        }
    }
}

/// Bringing a task up to date never lowers its urgency, changes nothing but the
/// urgency, and leaves a task that is done exactly as it was.
pub proof fn lemma_recompute_only_raises(task: TaskView, now: int)
    ensures
        task.recomputed(now).urgency >= task.urgency,
        task.recomputed(now) == (TaskView { urgency: task.recomputed(now).urgency, ..task }),
        task.status == Status::Done ==> task.recomputed(now) == task,
{
}

/// The urgency of an open task that is up to date is the greater of its floor and the
/// urgency it had.
pub proof fn lemma_recompute_reaches_floor(task: TaskView, now: int)
    requires
        task.status != Status::Done,
    ensures
        task.recomputed(now).urgency == if task.floor(now) > task.urgency {
            task.floor(now)
        } else {
            task.urgency
        },
{
}

/// A task without a due date whose urgency is at most
/// [`MAXIMUM_URGENCY`](crate::urgency::MAXIMUM_URGENCY) stays at or below it, however
/// old it grows.
pub proof fn lemma_recompute_capped_without_due_date(task: TaskView, now: int)
    requires
        task.due_time is None,
        task.urgency <= MAXIMUM_URGENCY,
    ensures
        task.recomputed(now).urgency <= MAXIMUM_URGENCY,
{
}

/// Bringing a task up to date twice as of the same moment changes nothing the
/// second time.
pub proof fn lemma_recompute_idempotent(task: TaskView, now: int)
    ensures
        task.recomputed(now).recomputed(now) == task.recomputed(now),
{
}

impl Task {
    /// A new task: inactive, of default urgency, started at `now`, with no
    /// description and no due date.
    pub fn new(title: String, now: Timestamp) -> (task: Task)
        ensures
            task@ == (TaskView {
                title: title@,
                description: Seq::<char>::empty(),
                status: Status::Inactive,
                urgency: DEFAULT_URGENCY as int,
                start_time: Some(now@),
                due_time: None,
            }),
            task.title == title,
            task.start_time == Some(now),
    {
        Task {
            title,
            description: String::new(),
            status: Status::Inactive,
            urgency: DEFAULT_URGENCY,
            start_time: Some(now),
            due_time: None,
        }
    }

    /// The least urgency that the task must have at `now`.
    pub fn urgency_floor(&self, now: &Timestamp) -> (floor: i64)
        requires
            self.start_time is Some,
        ensures
            floor == self@.floor(now@),
    {
        match &self.start_time {
            Some(start) => urgency_floor(start, self.due_time.as_ref(), now),
            None => 0,
        }
    }

    /// Brings the urgency up to date as of `now`. Only the urgency can change, and it
    /// never falls.
    pub fn recompute(&mut self, now: &Timestamp)
        requires
            old(self)@.ready(),
        ensures
            final(self)@ == old(self)@.recomputed(now@),
            final(self)@.urgency >= old(self)@.urgency,
            final(self).title == old(self).title,
            final(self).description == old(self).description,
            final(self).start_time == old(self).start_time,
            final(self).due_time == old(self).due_time,
    {
        if self.status != Status::Done {
            let floor: i64 = self.urgency_floor(now);
            if floor > self.urgency {
                self.urgency = floor;
            }
        }
    }
}

} // verus!
