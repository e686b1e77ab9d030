//! The records of the task service, as they travel in its JSON.

use vstd::prelude::*;
use vstd::string::*;
use crate::text::{copy_text, copy_texts};

verus! {

/// How urgent a task is.
#[derive(Clone, Copy, Debug, PartialEq, Eq, Structural)]
pub enum TaskPriority {
    Low,
    Mid,
    High,
}

/// A project of the service.
#[derive(Debug, PartialEq, Eq)]
pub struct Project {
    pub id: String,
    pub name: String,
    pub kind: Option<String>,
    pub sort_order: u64,
}

/// The body of the request that creates a task.
#[derive(Debug, PartialEq, Eq)]
pub struct CreateTaskBody {
    pub title: String,
    pub project_id: Option<String>,
    pub tags: Vec<String>,
    pub due_date: Option<String>,
    pub time_zone: String,
    pub priority: Option<u32>,
}

/// A task of the service.
#[derive(Debug, PartialEq, Eq)]
pub struct Task {
    pub id: String,
    pub etag: String,
    pub is_all_day: bool,
    pub content: Option<String>,
    pub title: String,
    pub kind: String,
    pub due_date: Option<String>,
    pub priority: u32,
    pub project_id: String,
    pub status: u32,
    pub tags: Option<Vec<String>>,
}

/// A column of a project's board.
#[derive(Debug, PartialEq, Eq)]
pub struct Column {
    pub id: String,
    pub project_id: String,
    pub name: String,
    pub sort_order: i64,
}

/// What the service returns for a project's data.
#[derive(Debug, PartialEq, Eq)]
pub struct ProjectTaskResponse {
    pub columns: Vec<Column>,
    pub tasks: Option<Vec<Task>>,
}

pub struct ProjectModel {
    pub id: Seq<char>,
    pub name: Seq<char>,
    pub kind: Option<Seq<char>>,
    pub sort_order: u64,
}

pub struct CreateTaskBodyModel {
    pub title: Seq<char>,
    pub project_id: Option<Seq<char>>,
    pub tags: Seq<Seq<char>>,
    pub due_date: Option<Seq<char>>,
    pub time_zone: Seq<char>,
    pub priority: Option<u32>,
}

pub struct TaskModel {
    pub id: Seq<char>,
    pub etag: Seq<char>,
    pub is_all_day: bool,
    pub content: Option<Seq<char>>,
    pub title: Seq<char>,
    pub kind: Seq<char>,
    pub due_date: Option<Seq<char>>,
    pub priority: u32,
    pub project_id: Seq<char>,
    pub status: u32,
    pub tags: Option<Seq<Seq<char>>>,
}

pub struct ColumnModel {
    pub id: Seq<char>,
    pub project_id: Seq<char>,
    pub name: Seq<char>,
    pub sort_order: i64,
}

pub struct ProjectTaskResponseModel {
    pub columns: Seq<ColumnModel>,
    pub tasks: Option<Seq<TaskModel>>,
}

impl View for Project {
    type V = ProjectModel;

    open spec fn view(&self) -> ProjectModel {
        ProjectModel {
            id: self.id@,
            name: self.name@,
            kind: self.kind.deep_view(),
            sort_order: self.sort_order,
        }
    }
}

impl View for CreateTaskBody {
    type V = CreateTaskBodyModel;

    open spec fn view(&self) -> CreateTaskBodyModel {
        CreateTaskBodyModel {
            title: self.title@,
            project_id: self.project_id.deep_view(),
            tags: self.tags.deep_view(),
            due_date: self.due_date.deep_view(),
            time_zone: self.time_zone@,
            priority: self.priority,
        }
    }
}

impl View for Task {
    type V = TaskModel;

    open spec fn view(&self) -> TaskModel {
        TaskModel {
            id: self.id@,
            etag: self.etag@,
            is_all_day: self.is_all_day,
            content: self.content.deep_view(),
            title: self.title@,
            kind: self.kind@,
            due_date: self.due_date.deep_view(),
            priority: self.priority,
            project_id: self.project_id@,
            status: self.status,
            tags: self.tags.deep_view(),
        }
    }
}

impl View for Column {
    type V = ColumnModel;

    open spec fn view(&self) -> ColumnModel {
        ColumnModel {
            id: self.id@,
            project_id: self.project_id@,
            name: self.name@,
            sort_order: self.sort_order,
        }
    }
}

/// The views of a list of tasks.
pub open spec fn task_models(tasks: Seq<Task>) -> Seq<TaskModel> {
    Seq::new(tasks.len(), |i: int| tasks[i]@)
}

/// The views of a list of projects.
pub open spec fn project_models(projects: Seq<Project>) -> Seq<ProjectModel> {
    Seq::new(projects.len(), |i: int| projects[i]@)
}

/// The views of a list of columns.
pub open spec fn column_models(columns: Seq<Column>) -> Seq<ColumnModel> {
    Seq::new(columns.len(), |i: int| columns[i]@)
}

impl View for ProjectTaskResponse {
    type V = ProjectTaskResponseModel;

    open spec fn view(&self) -> ProjectTaskResponseModel {
        ProjectTaskResponseModel {
            columns: column_models(self.columns@),
            tasks: match self.tasks {
                Some(tasks) => Some(task_models(tasks@)),
                None => None,
            },
        }
    }
}

impl Clone for Task {
    fn clone(&self) -> (r: Self)
        ensures
            r@ == self@,
    {
        let tags = match &self.tags {
            Some(tags) => Some(copy_texts(tags)),
            None => None,
        };
        Task {
            id: self.id.clone(),
            etag: self.etag.clone(),
            is_all_day: self.is_all_day,
            content: copy_text(&self.content),
            title: self.title.clone(),
            kind: self.kind.clone(),
            due_date: copy_text(&self.due_date),
            priority: self.priority,
            project_id: self.project_id.clone(),
            status: self.status,
            tags,
        }
    }
}

} // verus!
