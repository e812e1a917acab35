//! A personal task list whose order is decided by urgency: every open task's
//! urgency rises with its age or with the approach of its due date, and the list
//! is kept sorted, most urgent first.

pub mod commands;
pub mod display;
pub mod due_date;
pub mod engine;
pub mod manager;
pub mod sorting;
pub mod task;
pub mod time;
pub mod urgency;

pub use commands::Command;
pub use manager::{EditError, TaskManager};
pub use task::{Status, Task, TaskView};
pub use time::Timestamp;
