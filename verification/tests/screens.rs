use ticktick_cli::app::{App, CurrentScreen, ProjectWithTasks};
use ticktick_cli::ticktick::{ProjectSummary, TaskSummary};
use ticktick_cli::ui::{decimal, help_text, project_label, task_label};

fn project(name: &str, statuses: &[i32]) -> ProjectWithTasks {
    ProjectWithTasks {
        project: ProjectSummary { id: format!("id-{name}"), name: name.to_string() },
        tasks: statuses
            .iter()
            .enumerate()
            .map(|(i, s)| TaskSummary { id: format!("t{i}"), title: format!("Task {i}"), status: *s })
            .collect(),
    }
}

#[test]
fn decimal_writes_numbers() {
    assert_eq!(decimal(0), "0");
    assert_eq!(decimal(7), "7");
    assert_eq!(decimal(10), "10");
    assert_eq!(decimal(42), "42");
    assert_eq!(decimal(1_000_503), "1000503");
    assert_eq!(decimal(usize::MAX), usize::MAX.to_string());
}

#[test]
fn help_texts_per_screen() {
    assert_eq!(
        help_text(CurrentScreen::ProjectsView),
        "Up/Down: select project | Enter: open tickets | q: quit"
    );
    assert_eq!(help_text(CurrentScreen::ProjectView), "Up/Down: select ticket | Esc: back | q: quit");
}

#[test]
fn labels_of_projects_and_tasks() {
    assert_eq!(project_label(&project("Inbox", &[0, 1, 0])), "Inbox (3)");
    assert_eq!(project_label(&project("Empty", &[])), "Empty (0)");
    let open = TaskSummary { id: "1".into(), title: "Write".into(), status: 0 };
    let done = TaskSummary { id: "2".into(), title: "Read".into(), status: 2 };
    let odd = TaskSummary { id: "3".into(), title: "Odd".into(), status: -1 };
    assert_eq!(task_label(&open), "Write [open]");
    assert_eq!(task_label(&done), "Read [done]");
    assert_eq!(task_label(&odd), "Odd [done]");
}

#[test]
fn project_list_without_projects() {
    let app = App::new(Vec::new());
    let view = app.projects_list();
    assert_eq!(view.title, "Projects");
    assert_eq!(view.items, vec!["No projects found".to_string()]);
    assert_eq!(view.selected, None);
}

#[test]
fn project_list_with_projects() {
    let mut app = App::new(vec![project("Inbox", &[0]), project("Work", &[0, 1])]);
    app.next_project();
    let view = app.projects_list();
    assert_eq!(view.items, vec!["Inbox (1)".to_string(), "Work (2)".to_string()]);
    assert_eq!(view.selected, Some(1));
}

#[test]
fn ticket_list_of_the_selected_project() {
    let mut app = App::new(vec![project("Inbox", &[]), project("Work", &[0, 1])]);
    app.next_project();
    app.open_project_tickets();
    app.next_task();
    let view = app.tickets_list().unwrap();
    assert_eq!(view.title, "Tickets: Work");
    assert_eq!(view.items, vec!["Task 0 [open]".to_string(), "Task 1 [done]".to_string()]);
    assert_eq!(view.selected, Some(1));
}

#[test]
fn ticket_list_of_a_project_without_tasks() {
    let mut app = App::new(vec![project("Inbox", &[])]);
    app.open_project_tickets();
    let view = app.tickets_list().unwrap();
    assert_eq!(view.title, "Tickets: Inbox");
    assert_eq!(view.items, vec!["No tickets in this project".to_string()]);
    assert_eq!(view.selected, None);
}

#[test]
fn ticket_list_without_a_selected_project() {
    let app = App::new(Vec::new());
    assert!(app.tickets_list().is_none());
}
