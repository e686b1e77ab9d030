//! Projects: where they are fetched from, and how a project is picked by
//! name.

use vstd::prelude::*;
use vstd::string::*;
use crate::text::{same_text, text_of};
use crate::tick_tick_api::{project_models, task_models};
use crate::tick_tick_api::{Project, ProjectModel, ProjectTaskResponse, Task};

verus! {

/// The project that needs no lookup.
pub const INBOX: &'static str = "inbox";

/// Why the service's answer was of no use.
#[derive(Clone, Copy, Debug, PartialEq, Eq, Structural)]
pub enum ServiceError {
    /// The project's data holds no list of tasks.
    NoTasks,
    /// No project has a name that contains the wanted one.
    UnknownProject,
}

/// How the project of a command is found.
#[derive(Debug, PartialEq, Eq)]
pub enum ProjectChoice {
    /// The identifier is known as it stands.
    Known(String),
    /// The identifier is that of the first project whose name contains this
    /// one.
    Lookup(String),
}

pub enum ProjectChoiceView {
    Known(Seq<char>),
    Lookup(Seq<char>),
}

impl View for ProjectChoice {
    type V = ProjectChoiceView;

    open spec fn view(&self) -> ProjectChoiceView {
        match self {
            ProjectChoice::Known(id) => ProjectChoiceView::Known(id@),
            ProjectChoice::Lookup(name) => ProjectChoiceView::Lookup(name@),
        }
    }
}

/// The lower-case form of a text, as `str::to_lowercase` gives it.
pub uninterp spec fn lowercase(text: Seq<char>) -> Seq<char>;

/// Whether `needle` occurs in `hay` as a run of consecutive characters.
pub open spec fn occurs_in(needle: Seq<char>, hay: Seq<char>) -> bool {
    exists|i: int|
        0 <= i && i + needle.len() <= hay.len() && #[trigger] hay.subrange(
            i,
            i + needle.len(),
        ) == needle
}

/// Calls `str::to_lowercase`. The contract claims that the result is a
/// function of the text, and names it `lowercase`.
#[verifier::external_body]
fn to_lowercase(text: &str) -> (r: String)
    ensures
        r@ == lowercase(text@),
{
    text.to_lowercase()
}

/// Calls `str::contains` with a string pattern. The contract claims that
/// the result says whether the pattern occurs in the text.
#[verifier::external_body]
fn contains(hay: &str, needle: &str) -> (r: bool)
    ensures
        r == occurs_in(needle@, hay@),
{
    hay.contains(needle)
}

/// The address of the list of projects.
pub open spec fn projects_address(api_host: Seq<char>) -> Seq<char> {
    api_host + "/open/v1/project"@
}

/// The address of a project's data.
pub open spec fn project_data_address(api_host: Seq<char>, project_id: Seq<char>) -> Seq<char> {
    api_host + "/open/v1/project/"@ + project_id + "/data"@
}

/// The address of one task of a project, the inbox where no project is
/// given.
pub open spec fn project_task_address(
    api_host: Seq<char>,
    project_id: Option<Seq<char>>,
    id: Seq<char>,
) -> Seq<char> {
    api_host + "/open/v1/project/"@ + (match project_id {
        Some(project) => project,
        None => INBOX@,
    }) + "/tastk/"@ + id
}

/// The index of the first of `names` in which `needle` occurs.
pub open spec fn first_occurrence(names: Seq<Seq<char>>, needle: Seq<char>) -> Option<int> {
    if exists|i: int| 0 <= i < names.len() && occurs_in(needle, #[trigger] names[i]) {
        Some(
            choose|i: int|
                0 <= i < names.len() && occurs_in(needle, #[trigger] names[i]) && forall|j: int|
                    0 <= j < i ==> !occurs_in(needle, #[trigger] names[j]),
        )
    } else {
        None
    }
}

/// The lower-case names of a list of projects.
pub open spec fn lowercase_names(projects: Seq<ProjectModel>) -> Seq<Seq<char>> {
    Seq::new(projects.len(), |i: int| lowercase(projects[i].name))
}

/// The identifier of the first project whose name contains `wanted`, letter
/// case aside.
pub open spec fn project_id_of(projects: Seq<ProjectModel>, wanted: Seq<char>) -> Result<
    Seq<char>,
    ServiceError,
> {
    match first_occurrence(lowercase_names(projects), lowercase(wanted)) {
        Some(i) => Ok(projects[i].id),
        None => Err(ServiceError::UnknownProject),
    }
}

/// How the project of a command is found: a given name that is on the white
/// list stands for itself, any other is looked up, and without a name the
/// default project is looked up.
pub open spec fn project_choice(name: Option<Seq<char>>, default_project: Seq<char>) -> ProjectChoiceView {
    match name {
        Some(given) => if given == INBOX@ {
            ProjectChoiceView::Known(given)
        } else {
            ProjectChoiceView::Lookup(given)
        },
        None => ProjectChoiceView::Lookup(default_project),
    }
}

impl ServiceError {
    /// The line shown to the user.
    pub fn message(&self) -> (r: &'static str)
        ensures
            r@ == match *self {
                ServiceError::NoTasks => "No tasks found on project"@,
                ServiceError::UnknownProject => "Cannot get project id"@,
            },
    {
        match self {
            ServiceError::NoTasks => "No tasks found on project",
            ServiceError::UnknownProject => "Cannot get project id",
        }
    }
}

/// The address of the list of projects.
pub fn projects_endpoint(api_host: &str) -> (r: String)
    ensures
        r@ == projects_address(api_host@),
{
    String::from_str(api_host).concat("/open/v1/project")
}

/// The address of a project's data.
pub fn project_data_endpoint(api_host: &str, project_id: &str) -> (r: String)
    ensures
        r@ == project_data_address(api_host@, project_id@),
{
    String::from_str(api_host).concat("/open/v1/project/").concat(project_id).concat("/data")
}

/// The address of one task of a project, the inbox where no project is
/// given.
pub fn project_task_endpoint(api_host: &str, project_id: &Option<String>, id: &str) -> (r: String)
    ensures
        r@ == project_task_address(api_host@, project_id.deep_view(), id@),
{
    let base = String::from_str(api_host).concat("/open/v1/project/");
    let with_project = match project_id {
        Some(project) => base.concat(project.as_str()),
        None => base.concat(INBOX),
    };
    with_project.concat("/tastk/").concat(id)
}

/// The tasks in a project's data; data without a list of tasks is an error.
pub fn get_project_tasks(project_data: ProjectTaskResponse) -> (r: Result<Vec<Task>, ServiceError>)
    ensures
        match r {
            Ok(tasks) => project_data@.tasks == Some(task_models(tasks@)),
            Err(e) => project_data@.tasks is None && e == ServiceError::NoTasks,
        },
{
    match project_data.tasks {
        Some(tasks) => Ok(tasks),
        None => Err(ServiceError::NoTasks),
    }
}

/// Whether a project name stands for itself, with no lookup.
pub fn is_white_list_value(name: &str) -> (r: bool)
    ensures
        r == (name@ == INBOX@),
{
    same_text(name, INBOX)
}

/// The index of the first of `names` in which `needle` occurs.
pub fn find_first_occurrence(names: &Vec<String>, needle: &str) -> (r: Option<usize>)
    ensures
        match r {
            Some(i) => first_occurrence(names.deep_view(), needle@) == Some(i as int),
            None => first_occurrence(names.deep_view(), needle@) is None,
        },
        r matches Some(i) ==> i < names.len() && occurs_in(needle@, names@[i as int]@)
            && forall|j: int| 0 <= j < i ==> !occurs_in(needle@, #[trigger] names@[j]@),
        r is None ==> forall|j: int| 0 <= j < names.len() ==> !occurs_in(needle@, #[trigger] names@[j]@),
{
    let ghost all = names.deep_view();
    let mut i: usize = 0;
    while i < names.len()
        invariant
            i <= names.len(),
            all == names.deep_view(),
            forall|j: int| 0 <= j < i ==> !occurs_in(needle@, #[trigger] all[j]),
        decreases names.len() - i,
    {
        assert(all[i as int] == names@[i as int]@);
        if contains(names[i].as_str(), needle) {
            proof {
                let found = first_occurrence(all, needle@);
                assert(found is Some);
                let k = found->0;
                assert(0 <= k < all.len() && occurs_in(needle@, all[k]) && forall|j: int|
                    0 <= j < k ==> !occurs_in(needle@, #[trigger] all[j]));
                assert(k == i) by {
                    if k < i {
                        assert(!occurs_in(needle@, all[k]));
                    }
                    if k > i {
                        assert(!occurs_in(needle@, all[i as int]));
                    }
                }
                assert forall|j: int| 0 <= j < i implies !occurs_in(
                    needle@,
                    #[trigger] names@[j]@,
                ) by {
                    assert(all[j] == names@[j]@);
                }
            }
            return Some(i);
        }
        i = i + 1;
    }
    proof {
        assert forall|j: int| 0 <= j < names.len() implies !occurs_in(
            needle@,
            #[trigger] names@[j]@,
        ) by {
            assert(all[j] == names@[j]@);
        }
    }
    None
}

/// The identifier of the first project whose name contains `project_name`,
/// letter case aside.
pub fn get_project_id(projects: &Vec<Project>, project_name: &str) -> (r: Result<
    String,
    ServiceError,
>)
    ensures
        text_of(r) == project_id_of(project_models(projects@), project_name@),
{
    let wanted = to_lowercase(project_name);
    let mut names: Vec<String> = Vec::new();
    let mut i: usize = 0;
    while i < projects.len()
        invariant
            i <= projects.len(),
            names.len() == i,
            forall|j: int| 0 <= j < i ==> names@[j]@ == lowercase(projects@[j].name@),
        decreases projects.len() - i,
    {
        names.push(to_lowercase(projects[i].name.as_str()));
        i = i + 1;
    }
    assert(names.deep_view() =~= lowercase_names(project_models(projects@)));
    match find_first_occurrence(&names, wanted.as_str()) {
        Some(found) => Ok(projects[found].id.clone()),
        None => Err(ServiceError::UnknownProject),
    }
}

/// How the project of a command is found; see `project_choice`.
pub fn get_project(name: Option<String>, default_project: &str) -> (r: ProjectChoice)
    ensures
        r@ == project_choice(name.deep_view(), default_project@),
{
    match name {
        Some(given) => {
            if is_white_list_value(given.as_str()) {
                ProjectChoice::Known(given)
            } else {
                ProjectChoice::Lookup(given)
            }
        },
        None => ProjectChoice::Lookup(String::from_str(default_project)),
    }
}

} // verus!
