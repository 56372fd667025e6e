use vstd::prelude::*;

use crate::app::{App, CurrentScreen, ProjectWithTasks};
use crate::ticktick::TaskSummary;

verus! {

/// A key press, as far as the interface tells keys apart.
#[derive(Debug, Clone, Copy, PartialEq, Eq)]
pub enum Key {
    Up,
    Down,
    Enter,
    Esc,
    Char(char),
    /// Any other key.
    Other,
}

/// What a list on screen shows: its title, its lines, and the highlighted line.
#[derive(Debug)]
pub struct ListView {
    pub title: String,
    pub items: Vec<String>,
    pub selected: Option<usize>,
}

impl App {
    /// The state after a key press: on the project list Up/Down move the
    /// project selection, Enter opens the project's tasks and `q` quits; on
    /// the task screen Up/Down move the task selection, Esc returns to the
    /// project list and `q` quits. Other keys change nothing.
    pub open spec fn after_key(self, key: Key) -> App {
        match self.current_screen {
            CurrentScreen::ProjectsView => match key {
                Key::Up => self.after_previous_project(),
                Key::Down => self.after_next_project(),
                Key::Enter => self.after_open_project_tickets(),
                Key::Char(c) => if c == 'q' {
                    self.after_quit()
                } else {
                    self
                },
                _ => self,
            },
            CurrentScreen::ProjectView => match key {
                Key::Up => self.after_previous_task(),
                Key::Down => self.after_next_task(),
                Key::Esc => self.after_back_to_projects(),
                Key::Char(c) => if c == 'q' {
                    self.after_quit()
                } else {
                    self
                },
                _ => self,
            },
        }
    }

    /// The key press cannot overflow a selection index: only Down moves a
    /// selection forward.
    pub open spec fn accepts_key(self, key: Key) -> bool {
        &&& (self.current_screen == CurrentScreen::ProjectsView && key == Key::Down)
            ==> self.can_advance_project()
        &&& (self.current_screen == CurrentScreen::ProjectView && key == Key::Down)
            ==> self.can_advance_task()
    }

    /// Applies one key press to the interface.
    pub fn handle_key(&mut self, key: Key)
        requires
            old(self).accepts_key(key),
        ensures
            *final(self) == old(self).after_key(key),
            (old(self).current_screen == CurrentScreen::ProjectView && key == Key::Esc) ==> {
                &&& final(self).current_screen == CurrentScreen::ProjectsView
                &&& final(self).selected_project == old(self).selected_project
                &&& final(self).selected_task == old(self).selected_task
                &&& final(self).projects == old(self).projects
                &&& final(self).should_exit == old(self).should_exit
            },
            (old(self).current_screen == CurrentScreen::ProjectsView && key == Key::Enter
                && old(self).projects.len() > 0) ==> {
                &&& final(self).current_screen == CurrentScreen::ProjectView
                &&& final(self).selected_task == 0
                &&& final(self).selected_project == old(self).selected_project
            },
            key == Key::Char('q') ==> final(self).should_exit,
    {
        match self.current_screen {
            CurrentScreen::ProjectsView => match key {
                Key::Up => self.previous_project(),
                Key::Down => self.next_project(),
                Key::Enter => self.open_project_tickets(),
                Key::Char(c) => {
                    if c == 'q' {
                        self.quit()
                    }
                },
                _ => {},
            },
            CurrentScreen::ProjectView => match key {
                Key::Up => self.previous_task(),
                Key::Down => self.next_task(),
                Key::Esc => self.back_to_projects(),
                Key::Char(c) => {
                    if c == 'q' {
                        self.quit()
                    }
                },
                _ => {},
            },
        }
    }
}

/// Every key press keeps the interface consistent: whenever a list is shown
/// with at least one line, the highlighted line exists. A consistent
/// interface accepts every key.
pub proof fn lemma_keys_keep_ui_wf(a: App, key: Key)
    requires
        a.ui_wf(),
    ensures
        a.accepts_key(key),
        a.after_key(key).ui_wf(),
{
    crate::app::lemma_operations_keep_wf(a);
    if a.has_selected_tasks() && a.selected_task < a.task_count(a.selected_project as int) {
        crate::app::lemma_task_moves_keep_task_in_range(a);
    }
    if a.projects.len() > 0 && a.selected_project < a.projects.len() {
        crate::app::lemma_ring_steps(a.selected_project as int, a.projects.len() as int);
    }
}

/// In a consistent interface, the highlighted line of a shown list exists:
/// the selected project is a line of the project list whenever there are
/// projects, and on the task screen the selected task is a line of the task
/// list whenever the project has tasks.
pub proof fn lemma_highlight_in_range(a: App)
    requires
        a.ui_wf(),
    ensures
        a.projects.len() > 0 ==> a.selected_project < project_lines(a.projects@).len(),
        (a.current_screen == CurrentScreen::ProjectView && a.has_selected_tasks()) ==> a.selected_task
            < task_lines(a.projects@[a.selected_project as int].tasks@).len(),
{
}

/// What each key does. On the project list: Up and Down move the project
/// selection and nothing else, Enter opens the project's tasks, `q` quits,
/// Esc and other keys change nothing. On the task screen: Up and Down move
/// the task selection and nothing else, Esc shows the project list again and
/// changes nothing else, `q` quits, Enter and other keys change nothing.
pub proof fn lemma_key_table(a: App, key: Key)
    ensures
        a.current_screen == CurrentScreen::ProjectsView ==> {
            let b = a.after_key(key);
            &&& (key == Key::Up || key == Key::Down) ==> b.selected_task == a.selected_task
                && b.current_screen == a.current_screen && b.should_exit == a.should_exit
                && b.projects == a.projects
            &&& (key == Key::Enter && a.projects.len() > 0) ==> b.current_screen
                == CurrentScreen::ProjectView && b.selected_task == 0 && b.selected_project
                == a.selected_project
            &&& (key == Key::Esc || key == Key::Other || (key matches Key::Char(c) && c != 'q'))
                ==> b == a
        },
        a.current_screen == CurrentScreen::ProjectView ==> {
            let b = a.after_key(key);
            &&& (key == Key::Up || key == Key::Down) ==> b.selected_project == a.selected_project
                && b.current_screen == a.current_screen && b.should_exit == a.should_exit
                && b.projects == a.projects
            &&& key == Key::Esc ==> b.current_screen == CurrentScreen::ProjectsView
                && b.selected_project == a.selected_project && b.selected_task == a.selected_task
                && b.projects == a.projects && b.should_exit == a.should_exit
            &&& (key == Key::Enter || key == Key::Other || (key matches Key::Char(c) && c != 'q'))
                ==> b == a
        },
        key == Key::Char('q') ==> {
            let b = a.after_key(key);
            &&& b.should_exit
            &&& b.current_screen == a.current_screen
            &&& b.selected_project == a.selected_project
            &&& b.selected_task == a.selected_task
            &&& b.projects == a.projects
        },
{
}

/// A decimal digit.
pub open spec fn digit_char(d: int) -> char {
    if d == 0 {
        '0'
    } else if d == 1 {
        '1'
    } else if d == 2 {
        '2'
    } else if d == 3 {
        '3'
    } else if d == 4 {
        '4'
    } else if d == 5 {
        '5'
    } else if d == 6 {
        '6'
    } else if d == 7 {
        '7'
    } else if d == 8 {
        '8'
    } else {
        '9'
    }
}

/// The decimal notation of `n`, without leading zeros.
pub open spec fn decimal_text(n: nat) -> Seq<char>
    decreases n,
{
    if n < 10 {
        seq![digit_char(n as int)]
    } else {
        decimal_text(n / 10).push(digit_char((n % 10) as int))
    }
}

/// The number a decimal digit stands for.
pub open spec fn digit_value(c: char) -> int {
    c as int - 48
}

/// A text made of decimal digits only.
pub open spec fn is_digit_word(s: Seq<char>) -> bool {
    forall|i: int| 0 <= i < s.len() ==> 48 <= #[trigger] s[i] as int <= 57
}

/// The number that a text of decimal digits stands for, most significant
/// digit first.
pub open spec fn decimal_value(s: Seq<char>) -> int
    decreases s.len(),
{
    if s.len() == 0 {
        0
    } else {
        decimal_value(s.drop_last()) * 10 + digit_value(s.last())
    }
}

/// Each digit character stands for its digit.
pub proof fn lemma_digit_char(d: int)
    requires
        0 <= d < 10,
    ensures
        digit_value(digit_char(d)) == d,
        48 <= digit_char(d) as int <= 57,
{
    assert('0' as int == 48);
    assert('1' as int == 49);
    assert('2' as int == 50);
    assert('3' as int == 51);
    assert('4' as int == 52);
    assert('5' as int == 53);
    assert('6' as int == 54);
    assert('7' as int == 55);
    assert('8' as int == 56);
    assert('9' as int == 57);
}

/// The decimal notation of `n` is made of digits, stands for `n`, and has no
/// leading zero (unless it is `0` itself).
pub proof fn lemma_decimal_text_stands_for(n: nat)
    ensures
        decimal_value(decimal_text(n)) == n,
        is_digit_word(decimal_text(n)),
        decimal_text(n).len() > 0,
        decimal_text(n)[0] == '0' ==> n == 0,
    decreases n,
{
    let t = decimal_text(n);
    lemma_digit_char((n % 10) as int);
    assert(t.last() == digit_char((n % 10) as int));
    assert(decimal_value(t) == decimal_value(t.drop_last()) * 10 + digit_value(t.last()));
    if n < 10 {
        assert(t.drop_last() =~= Seq::<char>::empty());
        assert(decimal_value(Seq::<char>::empty()) == 0);
        assert(n % 10 == n);
    } else {
        lemma_decimal_text_stands_for(n / 10);
        let s = decimal_text(n / 10);
        assert(t.drop_last() =~= s);
        assert(t[0] == s[0]);
        assert forall|i: int| 0 <= i < t.len() implies 48 <= #[trigger] t[i] as int <= 57 by {
            if i < s.len() {
                assert(t[i] == s[i]);
            }
        }
    }
}

fn digit_str(d: usize) -> (r: &'static str)
    requires
        d < 10,
    ensures
        r@ == seq![digit_char(d as int)],
{
    proof {
        reveal_strlit("0");
        reveal_strlit("1");
        reveal_strlit("2");
        reveal_strlit("3");
        reveal_strlit("4");
        reveal_strlit("5");
        reveal_strlit("6");
        reveal_strlit("7");
        reveal_strlit("8");
        reveal_strlit("9");
    }
    match d {
        0 => "0",
        1 => "1",
        2 => "2",
        3 => "3",
        4 => "4",
        5 => "5",
        6 => "6",
        7 => "7",
        8 => "8",
        _ => "9",
    }
}

/// The decimal notation of `n`.
pub fn decimal(n: usize) -> (r: String)
    ensures
        r@ == decimal_text(n as nat),
        decimal_value(r@) == n,
        is_digit_word(r@),
    decreases n,
{
    proof {
        lemma_decimal_text_stands_for(n as nat);
    }
    if n < 10 {
        String::from_str(digit_str(n))
    } else {
        let mut s = decimal(n / 10);
        s.append(digit_str(n % 10));
        s
    }
}

/// The help line shown under each screen.
pub open spec fn help_line(screen: CurrentScreen) -> Seq<char> {
    match screen {
        CurrentScreen::ProjectsView => "Up/Down: select project | Enter: open tickets | q: quit"@,
        CurrentScreen::ProjectView => "Up/Down: select ticket | Esc: back | q: quit"@,
    }
}

/// The help line shown under `screen`.
pub fn help_text(screen: CurrentScreen) -> (r: &'static str)
    ensures
        r@ == help_line(screen),
{
    match screen {
        CurrentScreen::ProjectsView => "Up/Down: select project | Enter: open tickets | q: quit",
        CurrentScreen::ProjectView => "Up/Down: select ticket | Esc: back | q: quit",
    }
}

/// A project's line in the project list: its name and its number of tasks.
pub open spec fn project_line(p: ProjectWithTasks) -> Seq<char> {
    p.project.name@ + " ("@ + decimal_text(p.tasks.len() as nat) + ")"@
}

/// A task's state word: `open` for status 0, `done` otherwise.
pub open spec fn status_word(status: i32) -> Seq<char> {
    if status == 0 {
        "open"@
    } else {
        "done"@
    }
}

/// A task's line in the task list: its title and its state.
pub open spec fn task_line(t: TaskSummary) -> Seq<char> {
    t.title@ + " ["@ + status_word(t.status) + "]"@
}

/// The lines of the project list.
pub open spec fn project_lines(projects: Seq<ProjectWithTasks>) -> Seq<Seq<char>> {
    if projects.len() == 0 {
        seq!["No projects found"@]
    } else {
        projects.map_values(|p: ProjectWithTasks| project_line(p))
    }
}

/// The lines of a project's task list.
pub open spec fn task_lines(tasks: Seq<TaskSummary>) -> Seq<Seq<char>> {
    if tasks.len() == 0 {
        seq!["No tickets in this project"@]
    } else {
        tasks.map_values(|t: TaskSummary| task_line(t))
    }
}

/// The texts of a list of strings.
pub open spec fn texts(v: Seq<String>) -> Seq<Seq<char>> {
    v.map_values(|s: String| s@)
}

/// A project's line is its name, ` (`, the decimal notation of its number of
/// tasks, and `)`: the digits between the parentheses stand for the number
/// of tasks.
pub proof fn lemma_project_line_shows_task_count(p: ProjectWithTasks)
    ensures
        ({
            let line = project_line(p);
            let k = p.project.name@.len() as int;
            let digits = line.subrange(k + 2, line.len() - 1);
            &&& line.subrange(0, k) == p.project.name@
            &&& line[k] == ' '
            &&& line[k + 1] == '('
            &&& line.last() == ')'
            &&& is_digit_word(digits)
            &&& decimal_value(digits) == p.tasks.len()
        }),
{
    reveal_strlit(" (");
    reveal_strlit(")");
    let line = project_line(p);
    let name = p.project.name@;
    let k = name.len() as int;
    let d = decimal_text(p.tasks.len() as nat);
    lemma_decimal_text_stands_for(p.tasks.len() as nat);
    assert(line == name + " ("@ + d + ")"@);
    assert(line.subrange(0, k) =~= name);
    assert(line.subrange(k + 2, line.len() - 1) =~= d);
}

/// A task's line is its title, ` [`, a state word and `]`; the word is
/// `open` exactly when the status is 0.
pub proof fn lemma_task_line_shows_state(t: TaskSummary)
    ensures
        ({
            let line = task_line(t);
            let k = t.title@.len() as int;
            let word = line.subrange(k + 2, line.len() - 1);
            &&& line.subrange(0, k) == t.title@
            &&& line[k] == ' '
            &&& line[k + 1] == '['
            &&& line.last() == ']'
            &&& (t.status == 0 ==> word == seq!['o', 'p', 'e', 'n'])
            &&& (t.status != 0 ==> word == seq!['d', 'o', 'n', 'e'])
        }),
{
    reveal_strlit(" [");
    reveal_strlit("]");
    reveal_strlit("open");
    reveal_strlit("done");
    let line = task_line(t);
    let title = t.title@;
    let k = title.len() as int;
    let w = status_word(t.status);
    assert(line == title + " ["@ + w + "]"@);
    assert(line.subrange(0, k) =~= title);
    assert(line.subrange(k + 2, line.len() - 1) =~= w);
}

/// The project list has one line per project, in the projects' order, or
/// the single placeholder line when there are none; a task list likewise
/// has one line per task, or its placeholder.
pub proof fn lemma_lists_follow_their_items(ps: Seq<ProjectWithTasks>, ts: Seq<TaskSummary>)
    ensures
        ps.len() == 0 ==> project_lines(ps) == seq!["No projects found"@],
        ps.len() > 0 ==> project_lines(ps).len() == ps.len() && forall|i: int|
            0 <= i < ps.len() ==> #[trigger] project_lines(ps)[i] == project_line(ps[i]),
        ts.len() == 0 ==> task_lines(ts) == seq!["No tickets in this project"@],
        ts.len() > 0 ==> task_lines(ts).len() == ts.len() && forall|i: int|
            0 <= i < ts.len() ==> #[trigger] task_lines(ts)[i] == task_line(ts[i]),
{
}

/// The line of `p` in the project list.
pub fn project_label(p: &ProjectWithTasks) -> (r: String)
    ensures
        r@ == project_line(*p),
{
    let mut s = p.project.name.clone();
    s.append(" (");
    let count = decimal(p.tasks.len());
    s.append(count.as_str());
    s.append(")");
    s
}

/// The line of `t` in a task list.
pub fn task_label(t: &TaskSummary) -> (r: String)
    ensures
        r@ == task_line(*t),
{
    let mut s = t.title.clone();
    s.append(" [");
    if t.status == 0 {
        s.append("open");
    } else {
        s.append("done");
    }
    s.append("]");
    s
}

impl App {
    /// The project list: titled `Projects`, one line per project (or a
    /// placeholder line when there is none), the selected project highlighted
    /// when there are projects.
    pub fn projects_list(&self) -> (r: ListView)
        ensures
            r.title@ == "Projects"@,
            texts(r.items@) == project_lines(self.projects@),
            r.selected == (if self.projects.len() == 0 {
                None
            } else {
                Some(self.selected_project)
            }),
    {
        let mut items: Vec<String> = Vec::new();
        if self.projects.len() == 0 {
            items.push(String::from_str("No projects found"));
        } else {
            let n: usize = self.projects.len();
            let mut i: usize = 0;
            while i < n
                invariant
                    n == self.projects.len(),
                    i <= n,
                    items@.len() == i,
                    forall|j: int| 0 <= j < i ==> #[trigger] items@[j]@ == project_line(self.projects@[j]),
                decreases n - i,
            {
                items.push(project_label(&self.projects[i]));
                i = i + 1;
            }
        }
        assert(texts(items@) =~= project_lines(self.projects@));
        let selected = if self.projects.len() == 0 {
            None
        } else {
            Some(self.selected_project)
        };
        ListView { title: String::from_str("Projects"), items, selected }
    }

    /// The task list of the selected project, or `None` when no project is
    /// selected: titled `Tickets: ` and the project's name, one line per
    /// task (or a placeholder line when there is none), the selected task
    /// highlighted when there are tasks.
    pub fn tickets_list(&self) -> (r: Option<ListView>)
        ensures
            match r {
                None => self.selected_project >= self.projects.len(),
                Some(v) => {
                    let p = self.projects@[self.selected_project as int];
                    &&& self.selected_project < self.projects.len()
                    &&& v.title@ == "Tickets: "@ + p.project.name@
                    &&& texts(v.items@) == task_lines(p.tasks@)
                    &&& v.selected == (if p.tasks.len() == 0 {
                        None
                    } else {
                        Some(self.selected_task)
                    })
                },
            },
    {
        match self.selected_project() {
            None => None,
            Some(p) => {
                let mut items: Vec<String> = Vec::new();
                if p.tasks.len() == 0 {
                    items.push(String::from_str("No tickets in this project"));
                } else {
                    let n: usize = p.tasks.len();
                    let mut i: usize = 0;
                    while i < n
                        invariant
                            n == p.tasks.len(),
                            i <= n,
                            items@.len() == i,
                            forall|j: int| 0 <= j < i ==> #[trigger] items@[j]@ == task_line(p.tasks@[j]),
                        decreases n - i,
                    {
                        items.push(task_label(&p.tasks[i]));
                        i = i + 1;
                    }
                }
                assert(texts(items@) =~= task_lines(p.tasks@));
                let mut title = String::from_str("Tickets: ");
                title.append(p.project.name.as_str());
                let selected = if p.tasks.len() == 0 {
                    None
                } else {
                    Some(self.selected_task)
                };
                Some(ListView { title, items, selected })
            },
        }
    }
}

} // verus!
