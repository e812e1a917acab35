//! The urgency engine: brings every open task's urgency up to date, then puts the
//! list in order, most urgent first.

use vstd::prelude::*;
use crate::manager::{views_of, TaskManager};
use crate::sorting::{is_stable_sort_of, lemma_move_forward_keeps_order, same_order_within_urgency, sorted_by_urgency};
use crate::task::{Status, TaskView};
use crate::urgency::MAXIMUM_URGENCY;
use crate::time::Timestamp;

verus! {

/// Every task can be brought up to date: each open task has a start time.
pub open spec fn all_ready(tasks: Seq<TaskView>) -> bool {
    forall|i: int| 0 <= i < tasks.len() ==> (#[trigger] tasks[i]).ready()
}

/// The list with every task brought up to date as of `now`, each in its place.
pub open spec fn recomputed_all(tasks: Seq<TaskView>, now: int) -> Seq<TaskView> {
    Seq::new(tasks.len(), |i: int| tasks[i].recomputed(now))
}

impl TaskManager {
    /// Whether every open task has a start time, as the engine requires.
    pub fn start_times_present(&self) -> (present: bool)
        ensures
            present == all_ready(self@),
    {
        let mut i: usize = 0;
        while i < self.tasks.len()
            invariant
                i <= self.tasks.len(),
                forall|j: int| 0 <= j < i ==> (#[trigger] self@[j]).ready(),
            decreases self.tasks.len() - i,
        {
            if self.tasks[i].status != Status::Done && self.tasks[i].start_time.is_none() {
                assert(!self@[i as int].ready());
                return false;
            }
            i += 1;
        }
        true
    }

    /// Brings every task's urgency up to date as of `now`: an open task's urgency is
    /// raised to its floor where the floor is higher; a task that is done is left as
    /// it is. No urgency falls, and nothing else changes.
    pub fn calculate_urgencies_at(&mut self, now: &Timestamp)
        requires
            all_ready(old(self)@),
        ensures
            final(self)@ == recomputed_all(old(self)@, now@),
            forall|i: int|
                0 <= i < old(self)@.len() ==> (#[trigger] final(self)@[i]).urgency >= old(self)@[i].urgency,
    {
        let mut i: usize = 0;
        while i < self.tasks.len()
            invariant
                i <= self.tasks.len(),
                self@.len() == old(self)@.len(),
                forall|j: int| 0 <= j < i ==> #[trigger] self@[j] == old(self)@[j].recomputed(now@),
                forall|j: int| i <= j < self@.len() ==> #[trigger] self@[j] == old(self)@[j],
                all_ready(old(self)@),
            decreases self.tasks.len() - i,
        {
            let ghost before = self.tasks@;
            assert(self@[i as int] == old(self)@[i as int]);
            assert(before[i as int]@ == self@[i as int]);
            assert(old(self)@[i as int].ready());
            self.tasks[i].recompute(now);
            proof {
                assert(self.tasks@.len() == before.len());
                assert(forall|j: int| 0 <= j < before.len() && j != i ==> self.tasks@[j] == before[j]);
                assert forall|j: int| 0 <= j < i + 1 implies #[trigger] self@[j] == old(self)@[j].recomputed(
                    now@,
                ) by {
                    if j < i {
                        assert(self@[j] == views_of(before)[j]);
                    }
                }
                assert forall|j: int| i + 1 <= j < self@.len() implies #[trigger] self@[j] == old(self)@[j] by {
                    assert(self@[j] == views_of(before)[j]);
                }
            }
            i += 1;
        }
        assert(self@ =~= recomputed_all(old(self)@, now@));
    }

    /// Brings every task's urgency up to date as of the time of the call.
    pub fn calculate_urgencies(&mut self)
        requires
            all_ready(old(self)@),
        ensures
            exists|now: int|
                Timestamp::in_range(now) && final(self)@ == #[trigger] recomputed_all(old(self)@, now),
            forall|i: int|
                0 <= i < old(self)@.len() ==> (#[trigger] final(self)@[i]).urgency >= old(self)@[i].urgency,
    {
        let now = Timestamp::now();
        proof {
            now.lemma_view_in_range();
        }
        self.calculate_urgencies_at(&now);
    }

    /// Sorts the list by falling urgency. Tasks of equal urgency keep the order they
    /// had.
    pub fn sort_by_urgencies(&mut self)
        ensures
            is_stable_sort_of(final(self)@, old(self)@),
    {
        let count: usize = self.tasks.len();
        let mut sorted: usize = 0;
        while sorted < count
            invariant
                sorted <= count == self.tasks.len(),
                sorted_by_urgency(self@.take(sorted as int)),
                same_order_within_urgency(old(self)@, self@),
                self@.to_multiset() == old(self)@.to_multiset(),
            decreases count - sorted,
        {
            let urgency: i64 = self.tasks[sorted].urgency;
            let mut place: usize = sorted;
            while place > 0 && self.tasks[place - 1].urgency < urgency
                invariant
                    place <= sorted < self.tasks.len(),
                    urgency == self@[sorted as int].urgency,
                    forall|j: int| place <= j < sorted ==> (#[trigger] self@[j]).urgency < urgency,
                decreases place,
            {
                place -= 1;
            }
            let ghost before = self@;
            if place < sorted {
                let task = self.tasks.remove(sorted);
                self.tasks.insert(place, task);
            }
            proof {
                assert(self@ =~= before.remove(sorted as int).insert(place as int, before[sorted as int]));
                lemma_move_forward_keeps_order(before, place as int, sorted as int);
                let prefix = self@.take(sorted as int + 1);
                assert forall|i: int, j: int| 0 <= i < j < prefix.len() implies prefix[i].urgency
                    >= prefix[j].urgency by {
                    let was = before.take(sorted as int);
                    if j < place {
                        assert(prefix[i] == was[i] && prefix[j] == was[j]);
                    } else if j == place {
                        assert(prefix[i] == was[i]);
                        if place > 0 {
                            assert(was[place - 1].urgency >= urgency);
                            assert(i == place - 1 || was[i].urgency >= was[place - 1].urgency);
                        }
                    } else if i < place {
                        assert(prefix[i] == was[i] && prefix[j] == was[j - 1]);
                    } else if i == place {
                        assert(prefix[j] == before[j - 1]);
                    } else {
                        assert(prefix[i] == was[i - 1] && prefix[j] == was[j - 1]);
                    }
                }
            }
            sorted += 1;
        }
        assert(self@.take(count as int) =~= self@);
    }

    /// Brings every urgency up to date as of `now`, then sorts the list: the result is
    /// the list of the updated tasks, stably sorted by falling urgency.
    pub fn recompute_and_sort(&mut self, now: &Timestamp)
        requires
            all_ready(old(self)@),
        ensures
            is_stable_sort_of(final(self)@, recomputed_all(old(self)@, now@)),
    {
        self.calculate_urgencies_at(now);
        self.sort_by_urgencies();
    }
}

/// Bringing a list up to date keeps its length, lowers no urgency, and leaves the
/// tasks that are done as they were.
pub proof fn lemma_recomputed_all_only_raises(tasks: Seq<TaskView>, now: int)
    ensures
        recomputed_all(tasks, now).len() == tasks.len(),
        forall|i: int|
            0 <= i < tasks.len() ==> (#[trigger] recomputed_all(tasks, now)[i]).urgency >= tasks[i].urgency,
        forall|i: int|
            0 <= i < tasks.len() && tasks[i].status == Status::Done ==> #[trigger] recomputed_all(tasks, now)[i]
                == tasks[i],
{
}

/// In a list that is up to date, every task without a due date that was at or below
/// [`MAXIMUM_URGENCY`] still is.
pub proof fn lemma_recomputed_all_capped(tasks: Seq<TaskView>, now: int)
    ensures
        forall|i: int|
            0 <= i < tasks.len() && tasks[i].due_time is None && tasks[i].urgency <= MAXIMUM_URGENCY ==> (
            #[trigger] recomputed_all(tasks, now)[i]).urgency <= MAXIMUM_URGENCY,
{
}

} // verus!
