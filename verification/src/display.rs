//! What the list shows of each task: its position, its urgency, as much of its title
//! as the terminal has room for, and its status.

use vstd::prelude::*;
use vstd::string::{StrSliceExecFns, StringExecFns};
use crate::manager::TaskManager;
use crate::task::{Status, TaskView};

verus! {

/// The width assumed for a terminal that does not tell its own.
pub const DEFAULT_TERMINAL_WIDTH: usize = 95;

/// The columns of a line of the list that are not the title's.
pub const LIST_MARGIN: usize = 32;

/// One line of the list.
#[derive(Clone, Debug, PartialEq, Eq)]
pub struct ListRow {
    pub id: usize,
    pub urgency: i64,
    pub title: String,
    pub status: Status,
}

/// What specifications see of a [`ListRow`].
pub struct ListRowView {
    pub id: int,
    pub urgency: int,
    pub title: Seq<char>,
    pub status: Status,
}

impl View for ListRow {
    type V = ListRowView;

    open spec fn view(&self) -> ListRowView {
        ListRowView { id: self.id as int, urgency: self.urgency as int, title: self.title@, status: self.status }
    }
}

/// The first `width` characters of a text, or all of it if it has no more.
pub open spec fn spec_clip(text: Seq<char>, width: int) -> Seq<char> {
    if width < text.len() {
        text.take(width)
    } else {
        text
    }
}

/// The line that the list shows for the task at position `id`.
pub open spec fn spec_row(task: TaskView, id: int, width: int) -> ListRowView {
    ListRowView { id, urgency: task.urgency, title: spec_clip(task.title, width), status: task.status }
}

/// The lines of the list: one for each task, in the order of the list.
pub open spec fn spec_rows(tasks: Seq<TaskView>, width: int) -> Seq<ListRowView> {
    Seq::new(tasks.len(), |i: int| spec_row(tasks[i], i, width))
}

/// The columns left for the title on a terminal of the given width, or of the
/// default width if the terminal did not tell its own.
pub fn title_width(terminal_width: Option<usize>) -> (width: usize)
    requires
        terminal_width matches Some(w) ==> w >= LIST_MARGIN,
    ensures
        width == match terminal_width {
            Some(w) => w - LIST_MARGIN,
            None => DEFAULT_TERMINAL_WIDTH - LIST_MARGIN,
        },
{
    match terminal_width {
        Some(w) => w - LIST_MARGIN,
        None => DEFAULT_TERMINAL_WIDTH - LIST_MARGIN,
    }
}

/// Cuts a text down to its first `width` characters.
pub fn clip(text: &str, width: usize) -> (cut: &str)
    ensures
        cut@ == spec_clip(text@, width as int),
{
    let length: usize = text.unicode_len();
    if width < length {
        let cut = text.substring_char(0, width);
        assert(text@.subrange(0, width as int) =~= text@.take(width as int));
        cut
    } else {
        text
    }
}

impl TaskManager {
    /// The lines of the list, with titles cut to `width` characters.
    pub fn list_rows(&self, width: usize) -> (rows: Vec<ListRow>)
        ensures
            rows@.map_values(|r: ListRow| r@) == spec_rows(self@, width as int),
    {
        let mut rows: Vec<ListRow> = Vec::new();
        let mut id: usize = 0;
        while id < self.tasks.len()
            invariant
                id <= self.tasks.len(),
                rows@.len() == id,
                forall|i: int| 0 <= i < id ==> (#[trigger] rows@[i])@ == spec_row(self@[i], i, width as int),
            decreases self.tasks.len() - id,
        {
            let task = &self.tasks[id];
            assert(task@ == self@[id as int]);
            let row = ListRow {
                id,
                urgency: task.urgency,
                title: String::from_str(clip(task.title.as_str(), width)),
                status: task.status,
            };
            rows.push(row);
            id += 1;
        }
        assert(rows@.map_values(|r: ListRow| r@) =~= spec_rows(self@, width as int));
        rows
    }
}

} // verus!
