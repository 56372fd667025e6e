use ticktick_cli::app::{App, CurrentScreen, ProjectWithTasks};
use ticktick_cli::ticktick::{ProjectData, ProjectSummary, TaskSummary};
use ticktick_cli::ui::Key;

fn task(id: &str, title: &str, status: i32) -> TaskSummary {
    TaskSummary { id: id.to_string(), title: title.to_string(), status }
}

fn project(id: &str, name: &str, tasks: usize) -> ProjectWithTasks {
    let tasks = (0..tasks).map(|i| task(&format!("{id}-t{i}"), &format!("Task {i}"), 0)).collect();
    ProjectWithTasks {
        project: ProjectSummary { id: id.to_string(), name: name.to_string() },
        tasks,
    }
}

fn sample() -> App {
    App::new(vec![project("p0", "Inbox", 2), project("p1", "Work", 0), project("p2", "Home", 3)])
}

#[test]
fn new_starts_on_the_project_list() {
    let app = sample();
    assert_eq!(app.current_screen, CurrentScreen::ProjectsView);
    assert!(!app.should_exit);
    assert_eq!(app.selected_project, 0);
    assert_eq!(app.selected_task, 0);
    assert_eq!(app.projects.len(), 3);
}

#[test]
fn next_project_wraps_to_first() {
    let mut app = sample();
    app.next_project();
    assert_eq!(app.selected_project, 1);
    app.next_project();
    assert_eq!(app.selected_project, 2);
    app.next_project();
    assert_eq!(app.selected_project, 0);
}

#[test]
fn previous_project_wraps_to_last() {
    let mut app = sample();
    app.previous_project();
    assert_eq!(app.selected_project, 2);
    app.previous_project();
    assert_eq!(app.selected_project, 1);
}

#[test]
fn project_moves_do_nothing_without_projects() {
    let mut app = App::new(Vec::new());
    app.next_project();
    assert_eq!(app.selected_project, 0);
    app.previous_project();
    assert_eq!(app.selected_project, 0);
    app.open_project_tickets();
    assert_eq!(app.current_screen, CurrentScreen::ProjectsView);
}

#[test]
fn next_project_reduces_an_out_of_range_selection() {
    let mut app = sample();
    app.selected_project = 7;
    app.next_project();
    assert_eq!(app.selected_project, 2);
}

#[test]
fn open_project_tickets_resets_the_task() {
    let mut app = sample();
    app.selected_task = 5;
    app.next_project();
    app.open_project_tickets();
    assert_eq!(app.current_screen, CurrentScreen::ProjectView);
    assert_eq!(app.selected_task, 0);
    assert_eq!(app.selected_project, 1);
}

#[test]
fn back_to_projects_returns_to_the_list() {
    let mut app = sample();
    app.open_project_tickets();
    app.back_to_projects();
    assert_eq!(app.current_screen, CurrentScreen::ProjectsView);
    app.back_to_projects();
    assert_eq!(app.current_screen, CurrentScreen::ProjectsView);
}

#[test]
fn task_moves_wrap_in_both_directions() {
    let mut app = sample();
    app.selected_project = 2;
    app.open_project_tickets();
    app.previous_task();
    assert_eq!(app.selected_task, 2);
    app.next_task();
    assert_eq!(app.selected_task, 0);
    app.next_task();
    app.next_task();
    assert_eq!(app.selected_task, 2);
}

#[test]
fn task_moves_do_nothing_without_tasks_or_project() {
    let mut app = sample();
    app.selected_project = 1;
    app.next_task();
    app.previous_task();
    assert_eq!(app.selected_task, 0);
    app.selected_project = 9;
    app.selected_task = 4;
    app.next_task();
    app.previous_task();
    assert_eq!(app.selected_task, 4);
}

#[test]
fn selected_project_follows_the_index() {
    let mut app = sample();
    app.next_project();
    assert_eq!(app.selected_project().map(|p| p.project.name.clone()), Some("Work".to_string()));
    app.selected_project = 3;
    assert!(app.selected_project().is_none());
}

#[test]
fn quit_asks_to_exit_and_stays() {
    let mut app = sample();
    app.quit();
    assert!(app.should_exit);
    app.next_project();
    app.open_project_tickets();
    app.back_to_projects();
    assert!(app.should_exit);
}

#[test]
fn previous_project_undoes_next_project() {
    for start in 0..3 {
        let mut app = sample();
        app.selected_project = start;
        app.next_project();
        app.previous_project();
        assert_eq!(app.selected_project, start);
        app.previous_project();
        app.next_project();
        assert_eq!(app.selected_project, start);
    }
}

#[test]
fn previous_task_undoes_next_task() {
    for start in 0..3 {
        let mut app = sample();
        app.selected_project = 2;
        app.selected_task = start;
        app.next_task();
        app.previous_task();
        assert_eq!(app.selected_task, start);
        app.previous_task();
        app.next_task();
        assert_eq!(app.selected_task, start);
    }
}

#[test]
fn opening_and_going_back_keeps_the_project() {
    let mut app = sample();
    app.previous_project();
    app.open_project_tickets();
    app.next_task();
    app.back_to_projects();
    assert_eq!(app.current_screen, CurrentScreen::ProjectsView);
    assert_eq!(app.selected_project, 2);
    assert_eq!(app.projects.len(), 3);
}

#[test]
fn keys_on_the_project_list() {
    let mut app = sample();
    app.handle_key(Key::Down);
    assert_eq!(app.selected_project, 1);
    app.handle_key(Key::Up);
    app.handle_key(Key::Up);
    assert_eq!(app.selected_project, 2);
    app.handle_key(Key::Esc);
    assert_eq!(app.current_screen, CurrentScreen::ProjectsView);
    app.handle_key(Key::Char('x'));
    app.handle_key(Key::Other);
    assert_eq!(app.selected_project, 2);
    assert!(!app.should_exit);
    app.handle_key(Key::Enter);
    assert_eq!(app.current_screen, CurrentScreen::ProjectView);
    assert_eq!(app.selected_task, 0);
}

#[test]
fn keys_on_the_task_screen() {
    let mut app = sample();
    app.handle_key(Key::Enter);
    app.handle_key(Key::Down);
    assert_eq!(app.selected_task, 1);
    app.handle_key(Key::Down);
    assert_eq!(app.selected_task, 0);
    app.handle_key(Key::Up);
    assert_eq!(app.selected_task, 1);
    app.handle_key(Key::Enter);
    assert_eq!(app.current_screen, CurrentScreen::ProjectView);
    app.handle_key(Key::Esc);
    assert_eq!(app.current_screen, CurrentScreen::ProjectsView);
    assert_eq!(app.selected_project, 0);
    app.handle_key(Key::Char('q'));
    assert!(app.should_exit);
}

#[test]
fn q_quits_on_the_task_screen() {
    let mut app = sample();
    app.handle_key(Key::Enter);
    app.handle_key(Key::Char('q'));
    assert!(app.should_exit);
    assert_eq!(app.current_screen, CurrentScreen::ProjectView);
}

#[test]
fn project_rows_take_fetched_tasks_or_none() {
    let summary = ProjectSummary { id: "p".to_string(), name: "P".to_string() };
    let data = ProjectData { tasks: vec![task("a", "A", 0), task("b", "B", 2)] };
    let row = ProjectWithTasks::from_fetch(summary.clone(), Some(data));
    assert_eq!(row.project.id, "p");
    assert_eq!(row.tasks.len(), 2);
    assert_eq!(row.tasks[1].title, "B");
    let row = ProjectWithTasks::from_fetch(summary, None);
    assert!(row.tasks.is_empty());
}

#[test]
fn without_projects_every_operation_keeps_both_indices_at_zero() {
    let mut app = App::new(Vec::new());
    app.next_project();
    app.previous_project();
    app.open_project_tickets();
    app.next_task();
    app.previous_task();
    app.back_to_projects();
    app.quit();
    assert_eq!(app.selected_project, 0);
    assert_eq!(app.selected_task, 0);
    assert_eq!(app.current_screen, CurrentScreen::ProjectsView);
    assert!(app.projects.is_empty());
}
