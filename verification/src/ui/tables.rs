//! The plain table of tasks.

use vstd::prelude::*;
use vstd::string::*;
use crate::tick_tick_api::{task_models, Task, TaskModel};

verus! {

/// The cells of a table: its header, and one row for each task.
#[derive(Debug, PartialEq, Eq)]
pub struct TaskTable {
    pub header: Vec<String>,
    pub rows: Vec<Vec<String>>,
}

/// The header of the table of tasks.
pub open spec fn table_header() -> Seq<Seq<char>> {
    seq!["Title"@, "Due Date"@]
}

/// The row of a task: its title and its due date, empty where it has none.
pub open spec fn table_row(task: TaskModel) -> Seq<Seq<char>> {
    seq![
        task.title,
        match task.due_date {
            Some(due) => due,
            None => Seq::empty(),
        },
    ]
}

/// The rows of a list of tasks, in their order.
pub open spec fn table_rows(tasks: Seq<TaskModel>) -> Seq<Seq<Seq<char>>> {
    Seq::new(tasks.len(), |i: int| table_row(tasks[i]))
}

/// Lays a list of tasks out as a table of two columns.
pub fn render_tasks(tasks: &Vec<Task>) -> (r: TaskTable)
    ensures
        r.header.deep_view() == table_header(),
        r.rows.deep_view() == table_rows(task_models(tasks@)),
{
    let mut header: Vec<String> = Vec::new();
    header.push(String::from_str("Title"));
    header.push(String::from_str("Due Date"));
    assert(header.deep_view() =~= table_header());
    let mut rows: Vec<Vec<String>> = Vec::new();
    let mut i: usize = 0;
    while i < tasks.len()
        invariant
            i <= tasks.len(),
            rows.len() == i,
            forall|j: int| 0 <= j < i ==> (#[trigger] rows@[j]).deep_view() == table_row(tasks@[j]@),
        decreases tasks.len() - i,
    {
        let mut row: Vec<String> = Vec::new();
        row.push(tasks[i].title.clone());
        let due = match &tasks[i].due_date {
            Some(due) => due.clone(),
            None => String::new(),
        };
        row.push(due);
        assert(row.deep_view() =~= table_row(tasks@[i as int]@));
        rows.push(row);
        i = i + 1;
    }
    assert(rows.deep_view() =~= table_rows(task_models(tasks@)));
    TaskTable { header, rows }
}

} // verus!
