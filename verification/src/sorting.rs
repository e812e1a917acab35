//! What it means for a task list to be sorted by urgency without disturbing the
//! order of tasks that are equally urgent.

use vstd::prelude::*;
use crate::task::TaskView;

verus! {

/// Most urgent first: no task is followed, anywhere later in the list, by a more
/// urgent one.
pub open spec fn sorted_by_urgency(tasks: Seq<TaskView>) -> bool {
    forall|i: int, j: int| 0 <= i < j < tasks.len() ==> tasks[i].urgency >= tasks[j].urgency
}

/// The test "has exactly this urgency".
pub open spec fn has_urgency(urgency: int) -> spec_fn(TaskView) -> bool {
    |t: TaskView| t.urgency == urgency
}

/// The tasks of the given urgency, in the order in which the list holds them.
pub open spec fn with_urgency(tasks: Seq<TaskView>, urgency: int) -> Seq<TaskView> {
    tasks.filter(has_urgency(urgency))
}

/// Both lists hold the same tasks, and hold the tasks of any one urgency in the same
/// order: going from one list to the other, equally urgent tasks never overtake each
/// other.
pub open spec fn same_order_within_urgency(before: Seq<TaskView>, after: Seq<TaskView>) -> bool {
    forall|urgency: int| #[trigger] with_urgency(after, urgency) == with_urgency(before, urgency)
}

/// `after` is `before`, stably sorted by falling urgency.
pub open spec fn is_stable_sort_of(after: Seq<TaskView>, before: Seq<TaskView>) -> bool {
    &&& sorted_by_urgency(after)
    &&& same_order_within_urgency(before, after)
    &&& after.to_multiset() == before.to_multiset()
}

/// Nothing is selected from a list in which nothing has the wanted urgency.
pub proof fn lemma_with_urgency_absent(tasks: Seq<TaskView>, urgency: int)
    requires
        forall|i: int| 0 <= i < tasks.len() ==> tasks[i].urgency != urgency,
    ensures
        with_urgency(tasks, urgency) == Seq::<TaskView>::empty(),
    decreases tasks.len(),
{
    reveal(Seq::filter);
    if tasks.len() > 0 {
        lemma_with_urgency_absent(tasks.drop_last(), urgency);
    }
}

/// From a list of one task, the task is selected exactly if it has the wanted urgency.
pub proof fn lemma_with_urgency_single(task: TaskView, urgency: int)
    ensures
        with_urgency(seq![task], urgency) == if task.urgency == urgency {
            seq![task]
        } else {
            Seq::<TaskView>::empty()
        },
{
    reveal_with_fuel(Seq::filter, 2);
    let one: Seq<TaskView> = seq![task];
    assert(one.drop_last() =~= Seq::<TaskView>::empty());
    assert(one.last() == task);
    assert(Seq::<TaskView>::empty().push(task) =~= one);
}

/// Moving a task toward the front, past tasks none of which has its urgency, keeps
/// the tasks of every urgency in their order.
pub proof fn lemma_move_forward_keeps_order(tasks: Seq<TaskView>, to: int, from: int)
    requires
        0 <= to <= from < tasks.len(),
        forall|j: int| to <= j < from ==> tasks[j].urgency != tasks[from].urgency,
    ensures
        same_order_within_urgency(tasks, tasks.remove(from).insert(to, tasks[from])),
        tasks.remove(from).insert(to, tasks[from]).to_multiset() == tasks.to_multiset(),
{
    broadcast use vstd::seq_lib::group_to_multiset_ensures;

    let moved = tasks.remove(from).insert(to, tasks[from]);
    let task = tasks[from];
    let head = tasks.subrange(0, to);
    let passed = tasks.subrange(to, from);
    let tail = tasks.subrange(from + 1, tasks.len() as int);
    assert(tasks =~= head + passed + seq![task] + tail);
    assert(moved =~= head + seq![task] + passed + tail);
    assert forall|urgency: int| #[trigger]
        with_urgency(moved, urgency) == with_urgency(tasks, urgency) by {
        let wanted = has_urgency(urgency);
        Seq::filter_distributes_over_add(head + passed + seq![task], tail, wanted);
        Seq::filter_distributes_over_add(head + passed, seq![task], wanted);
        Seq::filter_distributes_over_add(head, passed, wanted);
        Seq::filter_distributes_over_add(head + seq![task] + passed, tail, wanted);
        Seq::filter_distributes_over_add(head + seq![task], passed, wanted);
        Seq::filter_distributes_over_add(head, seq![task], wanted);
        lemma_with_urgency_single(task, urgency);
        if task.urgency == urgency {
            lemma_with_urgency_absent(passed, urgency);
        }
        assert(with_urgency(moved, urgency) =~= with_urgency(tasks, urgency));
    }
    assert(tasks.remove(from).to_multiset() =~= tasks.to_multiset().remove(task));
    assert(moved.to_multiset() =~= tasks.to_multiset());
}

/// The tasks of the last task's urgency end with the last task; the tasks of any
/// other urgency are those of the list without its last task.
pub proof fn lemma_with_urgency_last(tasks: Seq<TaskView>, urgency: int)
    requires
        tasks.len() > 0,
    ensures
        with_urgency(tasks, urgency) == if tasks.last().urgency == urgency {
            with_urgency(tasks.drop_last(), urgency).push(tasks.last())
        } else {
            with_urgency(tasks.drop_last(), urgency)
        },
{
    reveal(Seq::filter);
}

/// A list has only one stable sort: two sorted lists that hold the tasks of every
/// urgency in the same order are the same list.
pub proof fn lemma_sorted_lists_with_same_order_equal(a: Seq<TaskView>, b: Seq<TaskView>)
    requires
        sorted_by_urgency(a),
        sorted_by_urgency(b),
        same_order_within_urgency(a, b),
    ensures
        a == b,
    decreases a.len(),
{
    if a.len() == 0 && b.len() == 0 {
        assert(a =~= b);
    } else if a.len() == 0 {
        let urgency = b.last().urgency;
        lemma_with_urgency_last(b, urgency);
        lemma_with_urgency_absent(a, urgency);
        assert(with_urgency(b, urgency) == with_urgency(a, urgency));
        assert(with_urgency(b, urgency).len() > 0);
    } else if b.len() == 0 {
        let urgency = a.last().urgency;
        lemma_with_urgency_last(a, urgency);
        lemma_with_urgency_absent(b, urgency);
        assert(with_urgency(b, urgency) == with_urgency(a, urgency));
        assert(with_urgency(a, urgency).len() > 0);
    } else {
        let least_a = a.last().urgency;
        let least_b = b.last().urgency;
        lemma_with_urgency_last(a, least_a);
        lemma_with_urgency_last(b, least_b);
        assert(with_urgency(b, least_a) == with_urgency(a, least_a));
        assert(with_urgency(b, least_b) == with_urgency(a, least_b));
        if forall|i: int| 0 <= i < b.len() ==> b[i].urgency != least_a {
            lemma_with_urgency_absent(b, least_a);
            assert(with_urgency(a, least_a).len() > 0);
        }
        if forall|i: int| 0 <= i < a.len() ==> a[i].urgency != least_b {
            lemma_with_urgency_absent(a, least_b);
            assert(with_urgency(b, least_b).len() > 0);
        }
        assert(least_a == least_b);
        lemma_with_urgency_last(b, least_a);
        let group_a = with_urgency(a.drop_last(), least_a);
        let group_b = with_urgency(b.drop_last(), least_a);
        assert(group_a.push(a.last()) == group_b.push(b.last()));
        assert(group_a.push(a.last()).last() == a.last());
        assert(group_b.push(b.last()).last() == b.last());
        assert(group_a.push(a.last()).drop_last() =~= group_a);
        assert(group_b.push(b.last()).drop_last() =~= group_b);
        assert forall|urgency: int| #[trigger]
            with_urgency(b.drop_last(), urgency) == with_urgency(a.drop_last(), urgency) by {
            lemma_with_urgency_last(a, urgency);
            lemma_with_urgency_last(b, urgency);
            assert(with_urgency(b, urgency) == with_urgency(a, urgency));
        }
        assert forall|i: int, j: int| 0 <= i < j < a.drop_last().len() implies a.drop_last()[i].urgency
            >= a.drop_last()[j].urgency by {
            assert(a.drop_last()[i] == a[i] && a.drop_last()[j] == a[j]);
        }
        assert forall|i: int, j: int| 0 <= i < j < b.drop_last().len() implies b.drop_last()[i].urgency
            >= b.drop_last()[j].urgency by {
            assert(b.drop_last()[i] == b[i] && b.drop_last()[j] == b[j]);
        }
        lemma_sorted_lists_with_same_order_equal(a.drop_last(), b.drop_last());
        assert(a =~= a.drop_last().push(a.last()));
        assert(b =~= b.drop_last().push(b.last()));
    }
}

/// Sorting decides the result: whatever is a stable sort of a list is the one stable
/// sort of it.
pub proof fn lemma_stable_sort_unique(before: Seq<TaskView>, a: Seq<TaskView>, b: Seq<TaskView>)
    requires
        is_stable_sort_of(a, before),
        is_stable_sort_of(b, before),
    ensures
        a == b,
{
    assert forall|urgency: int| #[trigger] with_urgency(b, urgency) == with_urgency(a, urgency) by {
        assert(with_urgency(a, urgency) == with_urgency(before, urgency));
        assert(with_urgency(b, urgency) == with_urgency(before, urgency));
    }
    lemma_sorted_lists_with_same_order_equal(a, b);
}

/// A list that is sorted already is its own stable sort: sorting it again changes
/// nothing. In particular, tasks that are all equally urgent stay as they are.
pub proof fn lemma_sorted_list_unchanged(before: Seq<TaskView>, after: Seq<TaskView>)
    requires
        sorted_by_urgency(before),
        is_stable_sort_of(after, before),
    ensures
        after == before,
{
    lemma_stable_sort_unique(before, after, before);
}

/// In a sorted list every task is at least as urgent as its successor.
pub proof fn lemma_sorted_neighbours(tasks: Seq<TaskView>, i: int)
    requires
        sorted_by_urgency(tasks),
        0 <= i,
        i + 1 < tasks.len(),
    ensures
        tasks[i].urgency >= tasks[i + 1].urgency,
{
}

} // verus!
