use tick_cli::tick_tick_api::Task;
use tick_cli::ui::views::{draw_tasks, parse_priority, render_tasks, KeyPress, TaskView};

fn task(title: &str, due: Option<&str>, priority: u32, content: Option<&str>) -> Task {
    Task {
        id: format!("id-{}", title),
        etag: "e".to_string(),
        is_all_day: false,
        content: content.map(|c| c.to_string()),
        title: title.to_string(),
        kind: "TEXT".to_string(),
        due_date: due.map(|d| d.to_string()),
        priority,
        project_id: "home-1".to_string(),
        status: 0,
        tags: None,
    }
}

fn three() -> Vec<Task> {
    vec![
        task("a", Some("2025-01-01"), 1, Some("first")),
        task("b", None, 5, None),
        task("c", None, 2, None),
    ]
}

#[test]
fn priority_labels() {
    assert_eq!(parse_priority(&0), "―");
    assert_eq!(parse_priority(&1), "🔵 Low");
    assert_eq!(parse_priority(&3), "🟡 Medium");
    assert_eq!(parse_priority(&5), "🔴 High");
    assert_eq!(parse_priority(&2), "");
    assert_eq!(parse_priority(&4), "");
    assert_eq!(parse_priority(&u32::MAX), "");
}

#[test]
fn cursor_goes_down_and_wraps() {
    let mut view = TaskView::new(three());
    assert_eq!(view.cursor(), None);
    view.next();
    assert_eq!(view.cursor(), Some(0));
    view.next();
    assert_eq!(view.cursor(), Some(1));
    view.next();
    assert_eq!(view.cursor(), Some(2));
    view.next();
    assert_eq!(view.cursor(), Some(0));
}

#[test]
fn cursor_goes_up_and_wraps() {
    let mut view = TaskView::new(three());
    view.previous();
    assert_eq!(view.cursor(), Some(0));
    view.previous();
    assert_eq!(view.cursor(), Some(2));
    view.previous();
    assert_eq!(view.cursor(), Some(1));
    view.previous();
    assert_eq!(view.cursor(), Some(0));
}

#[test]
fn empty_view_has_no_cursor() {
    let mut view = TaskView::new(vec![]);
    view.next();
    assert_eq!(view.cursor(), None);
    view.previous();
    assert_eq!(view.cursor(), None);
    view.selec_item();
    assert_eq!(view.details(), None);
    let screen = draw_tasks(&view);
    assert_eq!(screen.rows, Vec::<Vec<String>>::new());
    assert_eq!(screen.split, vec![100]);
    assert_eq!(screen.details, None);
}

#[test]
fn single_row_view_stays_on_its_row() {
    let mut view = TaskView::new(vec![task("only", None, 0, None)]);
    view.next();
    view.next();
    assert_eq!(view.cursor(), Some(0));
    view.previous();
    assert_eq!(view.cursor(), Some(0));
}

#[test]
fn selecting_opens_the_details_and_they_follow_the_cursor() {
    let mut view = TaskView::new(three());
    view.selec_item();
    assert_eq!(view.details(), None);
    view.next();
    view.selec_item();
    assert_eq!(view.details(), Some(&three()[0]));
    view.next();
    assert_eq!(view.details(), Some(&three()[1]));
    view.previous();
    view.previous();
    assert_eq!(view.cursor(), Some(2));
    assert_eq!(view.details(), Some(&three()[2]));
}

#[test]
fn screen_without_details() {
    let mut view = TaskView::new(three());
    view.next();
    let screen = draw_tasks(&view);
    assert_eq!(screen.split, vec![100]);
    assert_eq!(screen.header, vec!["Title", "Priority", "Due"]);
    assert_eq!(screen.widths, vec![40, 10, 20]);
    assert_eq!(
        screen.rows,
        vec![
            vec!["a".to_string(), "🔵 Low".to_string(), "2025-01-01".to_string()],
            vec!["b".to_string(), "🔴 High".to_string(), "_".to_string()],
            vec!["c".to_string(), String::new(), "_".to_string()],
        ]
    );
    assert_eq!(screen.highlighted, Some(0));
    assert_eq!(screen.details, None);
}

#[test]
fn screen_with_details() {
    let mut view = TaskView::new(three());
    view.next();
    view.selec_item();
    let screen = draw_tasks(&view);
    assert_eq!(screen.split, vec![70, 30]);
    assert_eq!(
        screen.details,
        Some("Title: a\nPriority: 🔵 Low\nDue Date:2025-01-01\nDescription: first".to_string())
    );
    view.next();
    let screen = draw_tasks(&view);
    assert_eq!(screen.highlighted, Some(1));
    assert_eq!(
        screen.details,
        Some("Title: b\nPriority: 🔴 High\nDue Date:-\nDescription: ".to_string())
    );
}

#[test]
fn keys() {
    let mut view = TaskView::new(three());
    assert!(render_tasks(&mut view, KeyPress::Down));
    assert_eq!(view.cursor(), Some(0));
    assert!(render_tasks(&mut view, KeyPress::Char('j')));
    assert_eq!(view.cursor(), Some(1));
    assert!(render_tasks(&mut view, KeyPress::Up));
    assert_eq!(view.cursor(), Some(0));
    assert!(render_tasks(&mut view, KeyPress::Char('k')));
    assert_eq!(view.cursor(), Some(2));
    assert!(render_tasks(&mut view, KeyPress::Char('x')));
    assert!(render_tasks(&mut view, KeyPress::Char('J')));
    assert!(render_tasks(&mut view, KeyPress::Other));
    assert_eq!(view.cursor(), Some(2));
    assert_eq!(view.details(), None);
    assert!(render_tasks(&mut view, KeyPress::Char('s')));
    assert_eq!(view.details(), Some(&three()[2]));
    assert!(!render_tasks(&mut view, KeyPress::Char('q')));
    assert!(!render_tasks(&mut view, KeyPress::Esc));
    assert_eq!(view.cursor(), Some(2));
    assert_eq!(view.details(), Some(&three()[2]));
}
