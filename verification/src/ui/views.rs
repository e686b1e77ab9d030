//! The view of tasks that the user moves through with the keyboard.

use vstd::prelude::*;
use vstd::string::*;
use crate::tick_tick_api::{task_models, Task, TaskModel};

verus! {

/// How a priority is shown.
pub open spec fn priority_label(priority: u32) -> Seq<char> {
    if priority == 0 {
        "―"@
    } else if priority == 1 {
        "🔵 Low"@
    } else if priority == 3 {
        "🟡 Medium"@
    } else if priority == 5 {
        "🔴 High"@
    } else {
        Seq::empty()
    }
}

/// How a priority is shown.
pub fn parse_priority(priority: &u32) -> (r: String)
    ensures
        r@ == priority_label(*priority),
{
    match *priority {
        0 => String::from_str("―"),
        1 => String::from_str("🔵 Low"),
        3 => String::from_str("🟡 Medium"),
        5 => String::from_str("🔴 High"),
        _ => String::new(),
    }
}

/// A key the user pressed.
#[derive(Clone, Copy, Debug, PartialEq, Eq, Structural)]
pub enum KeyPress {
    Char(char),
    Esc,
    Down,
    Up,
    Other,
}

/// A list of tasks, the row the cursor is on, and the task whose details
/// are open.
#[derive(Debug)]
pub struct TaskView {
    items: Vec<Task>,
    cursor: Option<usize>,
    load_details: bool,
    selected: Option<Task>,
}

pub struct TaskViewModel {
    pub items: Seq<TaskModel>,
    pub cursor: Option<int>,
    pub load_details: bool,
    pub selected: Option<TaskModel>,
}

/// What is drawn: how the width is shared, the table, the row the cursor is
/// on, and the details where they are open.
#[derive(Debug, PartialEq, Eq)]
pub struct Screen {
    /// Share of the width, in percent, of the table and, where they are
    /// open, of the details.
    pub split: Vec<u16>,
    pub header: Vec<String>,
    /// Share of the table's width, in percent, of each column.
    pub widths: Vec<u16>,
    pub rows: Vec<Vec<String>>,
    pub highlighted: Option<usize>,
    pub details: Option<String>,
}

pub struct ScreenModel {
    pub split: Seq<u16>,
    pub header: Seq<Seq<char>>,
    pub widths: Seq<u16>,
    pub rows: Seq<Seq<Seq<char>>>,
    pub highlighted: Option<int>,
    pub details: Option<Seq<char>>,
}

impl View for Screen {
    type V = ScreenModel;

    open spec fn view(&self) -> ScreenModel {
        ScreenModel {
            split: self.split@,
            header: self.header.deep_view(),
            widths: self.widths@,
            rows: self.rows.deep_view(),
            highlighted: match self.highlighted {
                Some(i) => Some(i as int),
                None => None,
            },
            details: self.details.deep_view(),
        }
    }
}

impl TaskViewModel {
    /// The cursor, where there is one, is on a row, and where the details
    /// are open there is a task to show.
    pub open spec fn wf(self) -> bool {
        &&& self.cursor matches Some(i) ==> 0 <= i < self.items.len()
        &&& self.load_details ==> self.selected is Some
    }

    /// The view after the task under the cursor was selected: its details
    /// are open. Without a cursor nothing changes.
    pub open spec fn select_item(self) -> TaskViewModel {
        match self.cursor {
            Some(i) => TaskViewModel { selected: Some(self.items[i]), load_details: true, ..self },
            None => self,
        }
    }

    /// The view with the cursor on row `i`, and, where details are open,
    /// with those of that row.
    pub open spec fn moved_to(self, i: int) -> TaskViewModel {
        let moved = TaskViewModel { cursor: Some(i), ..self };
        if self.load_details {
            moved.select_item()
        } else {
            moved
        }
    }

    /// The view after a step down: the cursor goes to the next row, from the
    /// last row to the first, and without a cursor to the first. An empty
    /// list has no cursor.
    pub open spec fn next(self) -> TaskViewModel {
        if self.items.len() == 0 {
            self
        } else {
            match self.cursor {
                Some(i) => if i + 1 >= self.items.len() {
                    self.moved_to(0)
                } else {
                    self.moved_to(i + 1)
                },
                None => self.moved_to(0),
            }
        }
    }

    /// The view after a step up: the cursor goes to the row before, from the
    /// first row to the last, and without a cursor to the first. An empty
    /// list has no cursor.
    pub open spec fn previous(self) -> TaskViewModel {
        if self.items.len() == 0 {
            self
        } else {
            match self.cursor {
                Some(i) => if i == 0 {
                    self.moved_to(self.items.len() - 1)
                } else {
                    self.moved_to(i - 1)
                },
                None => self.moved_to(0),
            }
        }
    }

    /// The view after a key, and whether the user goes on: `q` and escape
    /// leave, down and `j` step down, up and `k` step up, `s` opens the
    /// details of the row under the cursor, and any other key does nothing.
    pub open spec fn after_key(self, key: KeyPress) -> (TaskViewModel, bool) {
        match key {
            KeyPress::Esc => (self, false),
            KeyPress::Down => (self.next(), true),
            KeyPress::Up => (self.previous(), true),
            KeyPress::Char(c) => if c == 'q' {
                (self, false)
            } else if c == 'j' {
                (self.next(), true)
            } else if c == 'k' {
                (self.previous(), true)
            } else if c == 's' {
                (self.select_item(), true)
            } else {
                (self, true)
            },
            KeyPress::Other => (self, true),
        }
    }

    /// What is drawn of the view.
    pub open spec fn screen(self) -> ScreenModel {
        ScreenModel {
            split: if self.load_details {
                seq![70u16, 30u16]
            } else {
                seq![100u16]
            },
            header: seq!["Title"@, "Priority"@, "Due"@],
            widths: seq![40u16, 10u16, 20u16],
            rows: Seq::new(self.items.len(), |i: int| view_row(self.items[i])),
            highlighted: self.cursor,
            details: if self.load_details && self.selected is Some {
                Some(details_text(self.selected->0))
            } else {
                None
            },
        }
    }
}

/// The row of a task in the view: its title, its priority, and its due
/// date, `_` where it has none.
pub open spec fn view_row(task: TaskModel) -> Seq<Seq<char>> {
    seq![
        task.title,
        priority_label(task.priority),
        match task.due_date {
            Some(due) => due,
            None => "_"@,
        },
    ]
}

/// The details of a task, line by line.
pub open spec fn details_text(task: TaskModel) -> Seq<char> {
    "Title: "@ + task.title + "\nPriority: "@ + priority_label(task.priority) + "\nDue Date:"@
        + (match task.due_date {
        Some(due) => due,
        None => "-"@,
    }) + "\nDescription: "@ + (match task.content {
        Some(content) => content,
        None => Seq::empty(),
    })
}

impl View for TaskView {
    type V = TaskViewModel;

    closed spec fn view(&self) -> TaskViewModel {
        TaskViewModel {
            items: task_models(self.items@),
            cursor: match self.cursor {
                Some(i) => Some(i as int),
                None => None,
            },
            load_details: self.load_details,
            selected: match self.selected {
                Some(task) => Some(task@),
                None => None,
            },
        }
    }
}

impl TaskView {
    #[verifier::type_invariant]
    spec fn inv(self) -> bool {
        &&& self.cursor matches Some(i) ==> i < self.items.len()
        &&& self.load_details ==> self.selected is Some
    }

    /// A view of `tasks` with no cursor and no details open.
    pub fn new(tasks: Vec<Task>) -> (r: TaskView)
        ensures
            r@ == (TaskViewModel {
                items: task_models(tasks@),
                cursor: None,
                load_details: false,
                selected: None,
            }),
            r@.wf(),
    {
        TaskView { items: tasks, cursor: None, load_details: false, selected: None }
    }

    /// The row the cursor is on.
    pub fn cursor(&self) -> (r: Option<usize>)
        ensures
            match r {
                Some(i) => self@.cursor == Some(i as int),
                None => self@.cursor is None,
            },
            self@.wf(),
    {
        proof {
            use_type_invariant(self);
        }
        self.cursor
    }

    /// The task whose details are open.
    pub fn details(&self) -> (r: Option<&Task>)
        ensures
            match r {
                Some(task) => self@.load_details && self@.selected == Some(task@),
                None => !self@.load_details,
            },
    {
        proof {
            use_type_invariant(self);
        }
        if self.load_details {
            self.selected.as_ref()
        } else {
            None
        }
    }

    /// Moves the cursor one row down.
    pub fn next(&mut self)
        ensures
            final(self)@ == old(self)@.next(),
            final(self)@.wf(),
    {
        proof {
            use_type_invariant(&*self);
        }
        let n: usize = self.items.len();
        if n > 0 {
            let i: usize = match self.cursor {
                Some(i) => if i >= n - 1 {
                    0
                } else {
                    i + 1
                },
                None => 0,
            };
            self.cursor = Some(i);
            if self.load_details {
                self.selec_item();
            }
        }
    }

    /// Moves the cursor one row up.
    pub fn previous(&mut self)
        ensures
            final(self)@ == old(self)@.previous(),
            final(self)@.wf(),
    {
        proof {
            use_type_invariant(&*self);
        }
        let n: usize = self.items.len();
        if n > 0 {
            let i: usize = match self.cursor {
                Some(i) => if i == 0 {
                    n - 1
                } else {
                    i - 1
                },
                None => 0,
            };
            self.cursor = Some(i);
            if self.load_details {
                self.selec_item();
            }
        }
    }

    /// Opens the details of the task under the cursor.
    pub fn selec_item(&mut self)
        ensures
            final(self)@ == old(self)@.select_item(),
            final(self)@.wf(),
    {
        proof {
            use_type_invariant(&*self);
        }
        if let Some(current) = self.cursor {
            let item = self.items[current].clone();
            self.selected = Some(item);
            self.load_details = true;
        }
    }
}

/// The row of a task in the view.
fn row_of(task: &Task) -> (r: Vec<String>)
    ensures
        r.deep_view() == view_row(task@),
{
    let mut row: Vec<String> = Vec::new();
    row.push(task.title.clone());
    row.push(parse_priority(&task.priority));
    let due = match &task.due_date {
        Some(due) => due.clone(),
        None => String::from_str("_"),
    };
    row.push(due);
    assert(row.deep_view() =~= view_row(task@));
    row
}

/// The details of a task, line by line.
fn details_of(task: &Task) -> (r: String)
    ensures
        r@ == details_text(task@),
{
    let label = parse_priority(&task.priority);
    let text = String::from_str("Title: ").concat(task.title.as_str()).concat(
        "\nPriority: ",
    ).concat(label.as_str()).concat("\nDue Date:");
    let with_due = match &task.due_date {
        Some(due) => text.concat(due.as_str()),
        None => text.concat("-"),
    };
    let with_heading = with_due.concat("\nDescription: ");
    match &task.content {
        Some(content) => with_heading.concat(content.as_str()),
        None => {
            assert(with_heading@ + Seq::<char>::empty() =~= with_heading@);
            with_heading
        },
    }
}

/// Says what is to be drawn of the view: the table of all tasks with the
/// cursor's row, and beside it, where they are open, the details of the
/// selected task.
pub fn draw_tasks(view: &TaskView) -> (r: Screen)
    ensures
        r@ == view@.screen(),
{
    proof {
        use_type_invariant(view);
    }
    let mut split: Vec<u16> = Vec::new();
    if view.load_details {
        split.push(70);
        split.push(30);
    } else {
        split.push(100);
    }
    let mut header: Vec<String> = Vec::new();
    header.push(String::from_str("Title"));
    header.push(String::from_str("Priority"));
    header.push(String::from_str("Due"));
    let mut widths: Vec<u16> = Vec::new();
    widths.push(40);
    widths.push(10);
    widths.push(20);
    let mut rows: Vec<Vec<String>> = Vec::new();
    let mut i: usize = 0;
    while i < view.items.len()
        invariant
            i <= view.items.len(),
            rows.len() == i,
            forall|j: int|
                0 <= j < i ==> (#[trigger] rows@[j]).deep_view() == view_row(view.items@[j]@),
        decreases view.items.len() - i,
    {
        rows.push(row_of(&view.items[i]));
        i = i + 1;
    }
    let details = if view.load_details {
        match &view.selected {
            Some(task) => Some(details_of(task)),
            None => None,
        }
    } else {
        None
    };
    let screen = Screen { split, header, widths, rows, highlighted: view.cursor, details };
    proof {
        let want = view@.screen();
        assert(screen@.split =~= want.split);
        assert(screen@.header =~= want.header);
        assert(screen@.widths =~= want.widths);
        assert(screen@.rows =~= want.rows);
    }
    screen
}

/// Takes one key: moves the view as the key asks, and says whether the user
/// goes on. The caller draws, reads the next key, and comes back.
pub fn render_tasks(view: &mut TaskView, key: KeyPress) -> (r: bool)
    ensures
        (final(view)@, r) == old(view)@.after_key(key),
        final(view)@.wf(),
{
    proof {
        use_type_invariant(&*view);
    }
    match key {
        KeyPress::Esc => false,
        KeyPress::Down => {
            view.next();
            true
        },
        KeyPress::Up => {
            view.previous();
            true
        },
        KeyPress::Char(c) => {
            if c == 'q' {
                false
            } else if c == 'j' {
                view.next();
                true
            } else if c == 'k' {
                view.previous();
                true
            } else if c == 's' {
                view.selec_item();
                true
            } else {
                true
            }
        },
        KeyPress::Other => true,
    }
}

} // verus!
