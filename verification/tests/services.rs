use tick_cli::services::projects::{
    find_first_occurrence, get_project, get_project_id, get_project_tasks, is_white_list_value,
    project_data_endpoint, project_task_endpoint, projects_endpoint, ProjectChoice, ServiceError,
};
use tick_cli::services::tasks::{
    create_task, parse_flexible_date, parse_priority, task_endpoint, wall_time_of, CreateArgs,
};
use tick_cli::tick_tick_api::{
    Column, CreateTaskBody, Project, ProjectTaskResponse, Task, TaskPriority,
};
use tick_cli::ui::tables::render_tasks;

fn project(id: &str, name: &str) -> Project {
    Project { id: id.to_string(), name: name.to_string(), kind: None, sort_order: 0 }
}

fn task(title: &str, due: Option<&str>, priority: u32) -> Task {
    Task {
        id: format!("id-{}", title),
        etag: "e".to_string(),
        is_all_day: false,
        content: None,
        title: title.to_string(),
        kind: "TEXT".to_string(),
        due_date: due.map(|d| d.to_string()),
        priority,
        project_id: "home-1".to_string(),
        status: 0,
        tags: None,
    }
}

#[test]
fn endpoints() {
    assert_eq!(projects_endpoint("https://api.example"), "https://api.example/open/v1/project");
    assert_eq!(
        project_data_endpoint("https://api.example", "home-1"),
        "https://api.example/open/v1/project/home-1/data"
    );
    assert_eq!(
        project_task_endpoint("https://api.example", &Some("home-1".to_string()), "t9"),
        "https://api.example/open/v1/project/home-1/tastk/t9"
    );
    assert_eq!(
        project_task_endpoint("https://api.example", &None, "t9"),
        "https://api.example/open/v1/project/inbox/tastk/t9"
    );
    assert_eq!(task_endpoint("https://api.example"), "https://api.example/open/v1/task");
}

#[test]
fn project_data_without_tasks_is_an_error() {
    let column = Column {
        id: "c1".to_string(),
        project_id: "home-1".to_string(),
        name: "Todo".to_string(),
        sort_order: -1,
    };
    let data = ProjectTaskResponse { columns: vec![column], tasks: None };
    assert_eq!(get_project_tasks(data), Err(ServiceError::NoTasks));
    let data =
        ProjectTaskResponse { columns: vec![], tasks: Some(vec![task("a", None, 0)]) };
    assert_eq!(get_project_tasks(data), Ok(vec![task("a", None, 0)]));
    let data = ProjectTaskResponse { columns: vec![], tasks: Some(vec![]) };
    assert_eq!(get_project_tasks(data), Ok(vec![]));
    assert_eq!(ServiceError::NoTasks.message(), "No tasks found on project");
    assert_eq!(ServiceError::UnknownProject.message(), "Cannot get project id");
}

#[test]
fn white_list_is_the_inbox() {
    assert!(is_white_list_value("inbox"));
    assert!(!is_white_list_value("Inbox"));
    assert!(!is_white_list_value("inbox "));
    assert!(!is_white_list_value(""));
}

#[test]
fn project_is_found_by_part_of_its_name_whatever_the_case() {
    let projects = vec![project("home-1", "Home"), project("work-2", "Work"), project("both-3", "Home Work")];
    assert_eq!(get_project_id(&projects, "WORK"), Ok("work-2".to_string()));
    assert_eq!(get_project_id(&projects, "work"), Ok("work-2".to_string()));
    assert_eq!(get_project_id(&projects, "me w"), Ok("both-3".to_string()));
    assert_eq!(get_project_id(&projects, "hom"), Ok("home-1".to_string()));
    assert_eq!(get_project_id(&projects, ""), Ok("home-1".to_string()));
    assert_eq!(get_project_id(&projects, "garden"), Err(ServiceError::UnknownProject));
    assert_eq!(get_project_id(&vec![], "work"), Err(ServiceError::UnknownProject));
    let projects = vec![project("home-1", "ÉCOLE")];
    assert_eq!(get_project_id(&projects, "école"), Ok("home-1".to_string()));
}

#[test]
fn first_occurrence_on_given_values() {
    let names = vec!["home".to_string(), "work".to_string(), "home work".to_string()];
    assert_eq!(find_first_occurrence(&names, "work"), Some(1));
    assert_eq!(find_first_occurrence(&names, "e w"), Some(2));
    assert_eq!(find_first_occurrence(&names, "Work"), None);
    assert_eq!(find_first_occurrence(&names, ""), Some(0));
    assert_eq!(find_first_occurrence(&vec![], ""), None);
}

#[test]
fn project_choice() {
    assert_eq!(
        get_project(Some("inbox".to_string()), "work"),
        ProjectChoice::Known("inbox".to_string())
    );
    assert_eq!(
        get_project(Some("home".to_string()), "work"),
        ProjectChoice::Lookup("home".to_string())
    );
    assert_eq!(get_project(None, "work"), ProjectChoice::Lookup("work".to_string()));
    assert_eq!(get_project(None, "inbox"), ProjectChoice::Lookup("inbox".to_string()));
}

#[test]
fn due_time_is_written_in_universal_time() {
    assert_eq!(
        parse_flexible_date("2025-12-16 2:00pm", "America/New_York"),
        Some("2025-12-16T19:00:00+0000".to_string())
    );
    assert_eq!(
        parse_flexible_date("2025-12-16 12:05am", "Asia/Tokyo"),
        Some("2025-12-15T15:05:00+0000".to_string())
    );
    assert_eq!(
        parse_flexible_date("2025-07-01 11:59PM", "UTC"),
        Some("2025-07-01T23:59:00+0000".to_string())
    );
}

#[test]
fn due_day_is_midnight_on_the_users_clock() {
    assert_eq!(
        parse_flexible_date("2025-12-25", "Europe/Berlin"),
        Some("2025-12-24T23:00:00+0000".to_string())
    );
    assert_eq!(
        parse_flexible_date("2025-12-25", "UTC"),
        Some("2025-12-25T00:00:00+0000".to_string())
    );
    assert_eq!(
        parse_flexible_date("1969-12-31", "UTC"),
        Some("1969-12-31T00:00:00+0000".to_string())
    );
}

#[test]
fn due_date_that_cannot_be_read_is_none() {
    assert_eq!(parse_flexible_date("tomorrow", "UTC"), None);
    assert_eq!(parse_flexible_date("", "UTC"), None);
    assert_eq!(parse_flexible_date("2025-13-01", "UTC"), None);
    assert_eq!(parse_flexible_date("2025-12-16 14:00", "UTC"), None);
    assert_eq!(parse_flexible_date("2025-12-25", "Mars/Olympus"), None);
    assert_eq!(parse_flexible_date("2025-12-25", ""), None);
}

#[test]
fn due_time_that_the_clocks_skip_or_repeat_is_none() {
    // Clocks in New York went from 2:00 to 3:00 on 2025-03-09 ...
    assert_eq!(parse_flexible_date("2025-03-09 2:30am", "America/New_York"), None);
    // ... and showed 1:30 twice on 2025-11-02.
    assert_eq!(parse_flexible_date("2025-11-02 1:30am", "America/New_York"), None);
    assert_eq!(
        parse_flexible_date("2025-11-02 3:30am", "America/New_York"),
        Some("2025-11-02T08:30:00+0000".to_string())
    );
}

#[test]
fn wall_time_on_given_values() {
    assert_eq!(wall_time_of(Some(42), Some(1)), Some(42));
    assert_eq!(wall_time_of(Some(-7), None), Some(-7));
    assert_eq!(wall_time_of(None, Some(719163)), Some(0));
    assert_eq!(wall_time_of(None, Some(719164)), Some(86400));
    assert_eq!(wall_time_of(None, Some(719162)), Some(-86400));
    assert_eq!(wall_time_of(None, Some(i32::MAX)), Some((i32::MAX as i64 - 719163) * 86400));
    assert_eq!(wall_time_of(None, Some(i32::MIN)), Some((i32::MIN as i64 - 719163) * 86400));
    assert_eq!(wall_time_of(None, None), None);
}

#[test]
fn priorities_as_the_service_numbers_them() {
    assert_eq!(parse_priority(&TaskPriority::Low), 1);
    assert_eq!(parse_priority(&TaskPriority::Mid), 3);
    assert_eq!(parse_priority(&TaskPriority::High), 5);
}

#[test]
fn task_body() {
    let args = CreateArgs {
        title: "Write report".to_string(),
        project: "work".to_string(),
        tags: vec!["office".to_string(), "q4".to_string()],
        due: Some("2025-12-16 2:00pm".to_string()),
        priority: Some(TaskPriority::High),
    };
    assert_eq!(
        create_task(&args, "work-2".to_string(), "America/New_York"),
        CreateTaskBody {
            title: "Write report".to_string(),
            project_id: Some("work-2".to_string()),
            tags: vec!["office".to_string(), "q4".to_string()],
            due_date: Some("2025-12-16T19:00:00+0000".to_string()),
            time_zone: "America/New_York".to_string(),
            priority: Some(5),
        }
    );
    let bare = CreateArgs {
        title: "Call".to_string(),
        project: "inbox".to_string(),
        tags: vec![],
        due: None,
        priority: None,
    };
    assert_eq!(
        create_task(&bare, "inbox".to_string(), ""),
        CreateTaskBody {
            title: "Call".to_string(),
            project_id: Some("inbox".to_string()),
            tags: vec![],
            due_date: None,
            time_zone: String::new(),
            priority: None,
        }
    );
    let unreadable = CreateArgs { due: Some("soon".to_string()), ..bare };
    assert_eq!(create_task(&unreadable, "inbox".to_string(), "UTC").due_date, None);
}

#[test]
fn plain_table() {
    let table = render_tasks(&vec![task("a", Some("2025-01-01"), 1), task("b", None, 0)]);
    assert_eq!(table.header, vec!["Title".to_string(), "Due Date".to_string()]);
    assert_eq!(
        table.rows,
        vec![
            vec!["a".to_string(), "2025-01-01".to_string()],
            vec!["b".to_string(), String::new()],
        ]
    );
    assert_eq!(render_tasks(&vec![]).rows, Vec::<Vec<String>>::new());
}

#[test]
fn task_copy_is_equal() {
    let mut first = task("a", Some("2025-01-01"), 3);
    first.content = Some("notes".to_string());
    first.tags = Some(vec!["x".to_string(), "y".to_string()]);
    assert_eq!(first.clone(), first);
}
