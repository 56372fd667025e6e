use vstd::prelude::*;

use crate::ticktick::{ProjectData, ProjectSummary, TaskSummary};

verus! {

/// Which screen the terminal interface shows.
#[derive(Debug, Clone, Copy, PartialEq, Eq, Structural)]
pub enum CurrentScreen {
    /// The list of projects.
    ProjectsView,
    /// The tasks of the selected project.
    ProjectView,
}

/// A project together with the tasks loaded for it.
#[derive(Debug)]
pub struct ProjectWithTasks {
    pub project: ProjectSummary,
    pub tasks: Vec<TaskSummary>,
}

impl ProjectWithTasks {
    /// A project with the tasks fetched for it, or with no tasks when they
    /// could not be fetched.
    pub fn from_fetch(project: ProjectSummary, fetched: Option<ProjectData>) -> (r: Self)
        ensures
            r.project == project,
            match fetched {
                Some(data) => r.tasks == data.tasks,
                None => r.tasks@.len() == 0,
            },
    {
        let tasks = match fetched {
            Some(data) => data.tasks,
            None => Vec::new(),
        };
        ProjectWithTasks { project, tasks }
    }
}

/// An operation on the interface, one for each method that changes it.
#[derive(Debug, Clone, Copy)]
pub enum AppOp {
    NextProject,
    PreviousProject,
    OpenProjectTickets,
    BackToProjects,
    NextTask,
    PreviousTask,
    Quit,
}

/// The state of the terminal interface.
#[derive(Debug)]
pub struct App {
    pub current_screen: CurrentScreen,
    pub should_exit: bool,
    pub selected_project: usize,
    pub selected_task: usize,
    pub projects: Vec<ProjectWithTasks>,
}

/// The position after `i` on a ring of `len` positions.
pub open spec fn ring_next(i: int, len: int) -> int {
    (i + 1) % len
}

/// The position before `i` on a ring of `len` positions.
pub open spec fn ring_prev(i: int, len: int) -> int {
    if i == 0 {
        len - 1
    } else {
        i - 1
    }
}

/// On a ring of `len` positions, each valid position has a valid successor
/// and a valid predecessor, and moving forth and back returns to it.
pub proof fn lemma_ring_steps(i: int, len: int)
    requires
        0 <= i < len,
    ensures
        0 <= ring_next(i, len) < len,
        0 <= ring_prev(i, len) < len,
        ring_prev(ring_next(i, len), len) == i,
        ring_next(ring_prev(i, len), len) == i,
{
    if i + 1 < len {
        vstd::arithmetic::div_mod::lemma_small_mod((i + 1) as nat, len as nat);
    } else {
        assert((i + 1) % len == 0) by (nonlinear_arith)
            requires
                i + 1 == len,
                len > 0,
        ;
    }
    let p = ring_prev(i, len);
    if p + 1 < len {
        vstd::arithmetic::div_mod::lemma_small_mod((p + 1) as nat, len as nat);
    } else {
        assert((p + 1) % len == 0) by (nonlinear_arith)
            requires
                p + 1 == len,
                len > 0,
        ;
    }
}

impl App {
    /// The number of tasks of project `p`.
    pub open spec fn task_count(self, p: int) -> int {
        self.projects@[p].tasks.len() as int
    }

    /// The selected project exists and has at least one task.
    pub open spec fn has_selected_tasks(self) -> bool {
        &&& self.selected_project < self.projects.len()
        &&& self.task_count(self.selected_project as int) > 0
    }

    /// The selection indices stay inside the lists they point into:
    /// the project index is valid whenever there are projects, and the
    /// task screen is only shown for an existing project.
    pub open spec fn wf(self) -> bool {
        &&& self.projects.len() > 0 ==> self.selected_project < self.projects.len()
        &&& self.current_screen == CurrentScreen::ProjectView ==> self.selected_project
            < self.projects.len()
    }

    /// `wf`, and on the task screen the task index is valid whenever the
    /// project has tasks.
    pub open spec fn ui_wf(self) -> bool {
        &&& self.wf()
        &&& (self.current_screen == CurrentScreen::ProjectView && self.has_selected_tasks())
            ==> self.selected_task < self.task_count(self.selected_project as int)
    }

    /// Moving to the next project cannot overflow.
    pub open spec fn can_advance_project(self) -> bool {
        self.projects.len() > 0 ==> self.selected_project < usize::MAX
    }

    /// Moving to the next task cannot overflow.
    pub open spec fn can_advance_task(self) -> bool {
        self.has_selected_tasks() ==> self.selected_task < usize::MAX
    }

    /// The state after `next_project`.
    pub open spec fn after_next_project(self) -> App {
        if self.projects.len() == 0 {
            self
        } else {
            App {
                selected_project: ring_next(
                    self.selected_project as int,
                    self.projects.len() as int,
                ) as usize,
                ..self
            }
        }
    }

    /// The state after `previous_project`.
    pub open spec fn after_previous_project(self) -> App {
        if self.projects.len() == 0 {
            self
        } else {
            App {
                selected_project: ring_prev(
                    self.selected_project as int,
                    self.projects.len() as int,
                ) as usize,
                ..self
            }
        }
    }

    /// The state after `open_project_tickets`.
    pub open spec fn after_open_project_tickets(self) -> App {
        if self.projects.len() == 0 {
            self
        } else {
            App { selected_task: 0, current_screen: CurrentScreen::ProjectView, ..self }
        }
    }

    /// The state after `back_to_projects`.
    pub open spec fn after_back_to_projects(self) -> App {
        App { current_screen: CurrentScreen::ProjectsView, ..self }
    }

    /// The state after `next_task`.
    pub open spec fn after_next_task(self) -> App {
        if self.has_selected_tasks() {
            App {
                selected_task: ring_next(
                    self.selected_task as int,
                    self.task_count(self.selected_project as int),
                ) as usize,
                ..self
            }
        } else {
            self
        }
    }

    /// The state after `previous_task`.
    pub open spec fn after_previous_task(self) -> App {
        if self.has_selected_tasks() {
            App {
                selected_task: ring_prev(
                    self.selected_task as int,
                    self.task_count(self.selected_project as int),
                ) as usize,
                ..self
            }
        } else {
            self
        }
    }

    /// The state after `quit`.
    pub open spec fn after_quit(self) -> App {
        App { should_exit: true, ..self }
    }

    /// The interface as `new` makes it.
    pub open spec fn initial(projects: Vec<ProjectWithTasks>) -> App {
        App {
            current_screen: CurrentScreen::ProjectsView,
            should_exit: false,
            selected_project: 0,
            selected_task: 0,
            projects,
        }
    }

    /// The state after `op`.
    pub open spec fn after_op(self, op: AppOp) -> App {
        match op {
            AppOp::NextProject => self.after_next_project(),
            AppOp::PreviousProject => self.after_previous_project(),
            AppOp::OpenProjectTickets => self.after_open_project_tickets(),
            AppOp::BackToProjects => self.after_back_to_projects(),
            AppOp::NextTask => self.after_next_task(),
            AppOp::PreviousTask => self.after_previous_task(),
            AppOp::Quit => self.after_quit(),
        }
    }

    /// The state after the operations `ops`, first to last.
    pub open spec fn after_ops(self, ops: Seq<AppOp>) -> App
        decreases ops.len(),
    {
        if ops.len() == 0 {
            self
        } else {
            self.after_op(ops[0]).after_ops(ops.drop_first())
        }
    }

    /// What holds of every state that `new(projects)` and operations reach:
    /// the projects are unchanged, the selection indices stay in range (see
    /// `wf`), and with no projects both indices stay 0.
    pub open spec fn reachable_from(self, projects: Vec<ProjectWithTasks>) -> bool {
        &&& self.projects == projects
        &&& self.wf()
        &&& projects.len() == 0 ==> self.selected_project == 0 && self.selected_task == 0
    }

    /// A fresh interface on the project list, with the first project and the
    /// first task selected.
    pub fn new(projects: Vec<ProjectWithTasks>) -> (app: Self)
        ensures
            app.current_screen == CurrentScreen::ProjectsView,
            !app.should_exit,
            app.selected_project == 0,
            app.selected_task == 0,
            app.projects == projects,
            app == App::initial(projects),
            app.ui_wf(),
    {
        App {
            current_screen: CurrentScreen::ProjectsView,
            should_exit: false,
            selected_project: 0,
            selected_task: 0,
            projects,
        }
    }

    /// Selects the next project, wrapping from the last to the first.
    /// Nothing changes when there are no projects.
    pub fn next_project(&mut self)
        requires
            old(self).can_advance_project(),
        ensures
            *final(self) == old(self).after_next_project(),
    {
        if self.projects.is_empty() {
            return ;
        }
        self.selected_project = (self.selected_project + 1) % self.projects.len();
    }

    /// Selects the previous project, wrapping from the first to the last.
    /// Nothing changes when there are no projects.
    pub fn previous_project(&mut self)
        ensures
            *final(self) == old(self).after_previous_project(),
    {
        if self.projects.is_empty() {
            return ;
        }
        self.selected_project = if self.selected_project == 0 {
            self.projects.len() - 1
        } else {
            self.selected_project - 1
        };
    }

    /// Shows the tasks of the selected project, with its first task selected.
    /// Nothing changes when there are no projects.
    pub fn open_project_tickets(&mut self)
        ensures
            *final(self) == old(self).after_open_project_tickets(),
            old(self).projects.len() > 0 ==> final(self).current_screen
                == CurrentScreen::ProjectView && final(self).selected_task == 0
                && final(self).selected_project == old(self).selected_project
                && final(self).projects == old(self).projects && final(self).should_exit
                == old(self).should_exit,
            old(self).projects.len() == 0 ==> *final(self) == *old(self),
    {
        if self.projects.is_empty() {
            return ;
        }
        self.selected_task = 0;
        self.current_screen = CurrentScreen::ProjectView;
    }

    /// Returns to the project list.
    pub fn back_to_projects(&mut self)
        ensures
            *final(self) == old(self).after_back_to_projects(),
            final(self).current_screen == CurrentScreen::ProjectsView,
            final(self).selected_project == old(self).selected_project,
            final(self).selected_task == old(self).selected_task,
            final(self).projects == old(self).projects,
            final(self).should_exit == old(self).should_exit,
    {
        self.current_screen = CurrentScreen::ProjectsView;
    }

    /// Selects the next task of the selected project, wrapping from the last
    /// to the first. Nothing changes when no project is selected or it has
    /// no tasks.
    pub fn next_task(&mut self)
        requires
            old(self).can_advance_task(),
        ensures
            *final(self) == old(self).after_next_task(),
    {
        if self.selected_project < self.projects.len() {
            let count: usize = self.projects[self.selected_project].tasks.len();
            if count == 0 {
                return ;
            }
            self.selected_task = (self.selected_task + 1) % count;
        }
    }

    /// Selects the previous task of the selected project, wrapping from the
    /// first to the last. Nothing changes when no project is selected or it
    /// has no tasks.
    pub fn previous_task(&mut self)
        ensures
            *final(self) == old(self).after_previous_task(),
    {
        if self.selected_project < self.projects.len() {
            let count: usize = self.projects[self.selected_project].tasks.len();
            if count == 0 {
                return ;
            }
            self.selected_task = if self.selected_task == 0 {
                count - 1
            } else {
                self.selected_task - 1
            };
        }
    }

    /// The selected project, if the selection points at one.
    pub fn selected_project(&self) -> (r: Option<&ProjectWithTasks>)
        ensures
            match r {
                Some(p) => self.selected_project < self.projects.len() && *p
                    == self.projects@[self.selected_project as int],
                None => self.selected_project >= self.projects.len(),
            },
    {
        if self.selected_project < self.projects.len() {
            Some(&self.projects[self.selected_project])
        } else {
            None
        }
    }

    /// Asks the interface to exit.
    pub fn quit(&mut self)
        ensures
            *final(self) == old(self).after_quit(),
    {
        self.should_exit = true;
    }
}

/// Moving to the next project and then back to the previous one leaves the
/// interface exactly as it was, whenever the selection points at a project.
pub proof fn lemma_previous_project_undoes_next(a: App)
    requires
        a.projects.len() > 0,
        a.selected_project < a.projects.len(),
    ensures
        a.after_next_project().after_previous_project() == a,
{
    lemma_ring_steps(a.selected_project as int, a.projects.len() as int);
}

/// Moving to the previous project and then to the next one leaves the
/// interface exactly as it was, whenever the selection points at a project.
pub proof fn lemma_next_project_undoes_previous(a: App)
    requires
        a.projects.len() > 0,
        a.selected_project < a.projects.len(),
    ensures
        a.after_previous_project().after_next_project() == a,
{
    lemma_ring_steps(a.selected_project as int, a.projects.len() as int);
}

/// Moving to the next task and then back to the previous one leaves the
/// interface exactly as it was, whenever the task selection is valid.
pub proof fn lemma_previous_task_undoes_next(a: App)
    requires
        a.has_selected_tasks(),
        a.selected_task < a.task_count(a.selected_project as int),
    ensures
        a.after_next_task().after_previous_task() == a,
{
    lemma_ring_steps(a.selected_task as int, a.task_count(a.selected_project as int));
}

/// Moving to the previous task and then to the next one leaves the interface
/// exactly as it was, whenever the task selection is valid.
pub proof fn lemma_next_task_undoes_previous(a: App)
    requires
        a.has_selected_tasks(),
        a.selected_task < a.task_count(a.selected_project as int),
    ensures
        a.after_previous_task().after_next_task() == a,
{
    lemma_ring_steps(a.selected_task as int, a.task_count(a.selected_project as int));
}

/// Opening a project's tasks and going back shows the project list again
/// with the same project selected and the projects untouched.
pub proof fn lemma_back_after_open_keeps_project(a: App)
    ensures
        a.after_open_project_tickets().after_back_to_projects().current_screen
            == CurrentScreen::ProjectsView,
        a.after_open_project_tickets().after_back_to_projects().selected_project
            == a.selected_project,
        a.after_open_project_tickets().after_back_to_projects().projects == a.projects,
        a.after_open_project_tickets().after_back_to_projects().should_exit == a.should_exit,
{
}

/// Every operation keeps the selection indices inside their lists, and none
/// of them changes the loaded projects.
pub proof fn lemma_operations_keep_wf(a: App)
    requires
        a.wf(),
    ensures
        a.after_next_project().wf(),
        a.after_previous_project().wf(),
        a.after_open_project_tickets().wf(),
        a.after_back_to_projects().wf(),
        a.after_next_task().wf(),
        a.after_previous_task().wf(),
        a.after_quit().wf(),
        a.after_next_project().projects == a.projects,
        a.after_previous_project().projects == a.projects,
        a.after_open_project_tickets().projects == a.projects,
        a.after_back_to_projects().projects == a.projects,
        a.after_next_task().projects == a.projects,
        a.after_previous_task().projects == a.projects,
        a.after_quit().projects == a.projects,
{
}

/// A valid task selection stays valid under the task operations.
pub proof fn lemma_task_moves_keep_task_in_range(a: App)
    requires
        a.has_selected_tasks(),
        a.selected_task < a.task_count(a.selected_project as int),
    ensures
        a.after_next_task().selected_task < a.task_count(a.selected_project as int),
        a.after_previous_task().selected_task < a.task_count(a.selected_project as int),
{
    lemma_ring_steps(a.selected_task as int, a.task_count(a.selected_project as int));
}

/// Each operation keeps what holds of the states reached from `new(projects)`.
pub proof fn lemma_op_keeps_reachable(a: App, projects: Vec<ProjectWithTasks>, op: AppOp)
    requires
        a.reachable_from(projects),
    ensures
        a.after_op(op).reachable_from(projects),
{
    lemma_operations_keep_wf(a);
}

/// Every state that `new(projects)` followed by any sequence of operations
/// reaches keeps the projects, shows the task screen only for an existing
/// project, keeps the project index valid whenever there are projects, and
/// keeps both indices at 0 when there are none.
pub proof fn lemma_reachable_states(projects: Vec<ProjectWithTasks>, ops: Seq<AppOp>)
    ensures
        App::initial(projects).after_ops(ops).reachable_from(projects),
        App::initial(projects).after_ops(ops).current_screen == CurrentScreen::ProjectView
            ==> projects.len() > 0,
{
    lemma_ops_keep_reachable(App::initial(projects), projects, ops);
}

/// A sequence of operations keeps what holds of the states reached from
/// `new(projects)`.
pub proof fn lemma_ops_keep_reachable(a: App, projects: Vec<ProjectWithTasks>, ops: Seq<AppOp>)
    requires
        a.reachable_from(projects),
    ensures
        a.after_ops(ops).reachable_from(projects),
    decreases ops.len(),
{
    if ops.len() > 0 {
        lemma_op_keeps_reachable(a, projects, ops[0]);
        lemma_ops_keep_reachable(a.after_op(ops[0]), projects, ops.drop_first());
    }
}

/// With at least one project, opening a project's tasks shows the task
/// screen with the first task selected, whatever task was selected before,
/// and keeps the selected project, the projects and the exit flag. With no
/// projects it changes nothing.
pub proof fn lemma_open_selects_first_task(a: App)
    ensures
        a.projects.len() > 0 ==> {
            let b = a.after_open_project_tickets();
            &&& b.current_screen == CurrentScreen::ProjectView
            &&& b.selected_task == 0
            &&& b.selected_project == a.selected_project
            &&& b.projects == a.projects
            &&& b.should_exit == a.should_exit
        },
        a.projects.len() == 0 ==> a.after_open_project_tickets() == a,
{
}

/// Going back shows the project list and changes nothing else.
pub proof fn lemma_back_changes_only_the_screen(a: App)
    ensures
        ({
            let b = a.after_back_to_projects();
            &&& b.current_screen == CurrentScreen::ProjectsView
            &&& b.selected_project == a.selected_project
            &&& b.selected_task == a.selected_task
            &&& b.projects == a.projects
            &&& b.should_exit == a.should_exit
        }),
{
}

/// Quitting sets the exit flag and changes nothing else.
pub proof fn lemma_quit_changes_only_the_exit_flag(a: App)
    ensures
        ({
            let b = a.after_quit();
            &&& b.should_exit
            &&& b.current_screen == a.current_screen
            &&& b.selected_project == a.selected_project
            &&& b.selected_task == a.selected_task
            &&& b.projects == a.projects
        }),
{
}

/// With a valid selection, the next project is the one after it, or the
/// first after the last; the previous one is the one before it, or the last
/// before the first. Nothing else changes.
pub proof fn lemma_project_steps(a: App)
    requires
        a.projects.len() > 0,
        a.selected_project < a.projects.len(),
    ensures
        a.after_next_project().selected_project == (if a.selected_project + 1 == a.projects.len() {
            0
        } else {
            a.selected_project + 1
        }),
        a.after_previous_project().selected_project == (if a.selected_project == 0 {
            a.projects.len() - 1
        } else {
            a.selected_project - 1
        }),
        a.after_next_project().selected_task == a.selected_task,
        a.after_previous_project().selected_task == a.selected_task,
        a.after_next_project().current_screen == a.current_screen,
        a.after_previous_project().current_screen == a.current_screen,
        a.after_next_project().projects == a.projects,
        a.after_previous_project().projects == a.projects,
{
    let len = a.projects.len() as int;
    let i = a.selected_project as int;
    if i + 1 < len {
        vstd::arithmetic::div_mod::lemma_small_mod((i + 1) as nat, len as nat);
    } else {
        assert((i + 1) % len == 0) by (nonlinear_arith)
            requires
                i + 1 == len,
                len > 0,
        ;
    }
}

/// With a valid task selection, the next task is the one after it, or the
/// first after the last; the previous one is the one before it, or the last
/// before the first. Nothing else changes.
pub proof fn lemma_task_steps(a: App)
    requires
        a.has_selected_tasks(),
        a.selected_task < a.task_count(a.selected_project as int),
    ensures
        a.after_next_task().selected_task == (if a.selected_task + 1 == a.task_count(
            a.selected_project as int,
        ) {
            0
        } else {
            a.selected_task + 1
        }),
        a.after_previous_task().selected_task == (if a.selected_task == 0 {
            a.task_count(a.selected_project as int) - 1
        } else {
            a.selected_task - 1
        }),
        a.after_next_task().selected_project == a.selected_project,
        a.after_previous_task().selected_project == a.selected_project,
        a.after_next_task().current_screen == a.current_screen,
        a.after_previous_task().current_screen == a.current_screen,
        a.after_next_task().projects == a.projects,
        a.after_previous_task().projects == a.projects,
{
    let len = a.task_count(a.selected_project as int);
    let i = a.selected_task as int;
    if i + 1 < len {
        vstd::arithmetic::div_mod::lemma_small_mod((i + 1) as nat, len as nat);
    } else {
        assert((i + 1) % len == 0) by (nonlinear_arith)
            requires
                i + 1 == len,
                len > 0,
        ;
    }
}

/// With no projects the project moves change nothing; with no selected
/// project or no tasks in it the task moves change nothing.
pub proof fn lemma_moves_without_items_change_nothing(a: App)
    ensures
        a.projects.len() == 0 ==> a.after_next_project() == a && a.after_previous_project() == a,
        (a.selected_project >= a.projects.len() || a.task_count(a.selected_project as int) == 0)
            ==> a.after_next_task() == a && a.after_previous_task() == a,
{
}

/// Once the interface has been asked to exit, no operation takes that back.
pub proof fn lemma_exit_is_final(a: App)
    requires
        a.should_exit,
    ensures
        a.after_next_project().should_exit,
        a.after_previous_project().should_exit,
        a.after_open_project_tickets().should_exit,
        a.after_back_to_projects().should_exit,
        a.after_next_task().should_exit,
        a.after_previous_task().should_exit,
        a.after_quit().should_exit,
{
}

} // verus!
