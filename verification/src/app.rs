//! The session that runs.
//!
//! The program around the library starts an [`App`] on what it met under
//! the root, and from there on only answers: it reads keys, files and the
//! outcome of commands, hands each to [`App::run`] as an
//! [`Event`](crate::session::Event), and carries out the
//! [`Action`](crate::session::Action) that comes back. The session never
//! waits and never touches the outside world itself.

use crate::discovery::{find_sln_files, Scanned};
use crate::error::AppError;
use crate::navigator::{command_for, move_index, Command, Key, Mode};
use crate::orchestrator::{
    build_invocation, joined, launch_directory_of, report_build, report_profile, run_invocation,
    settings_steps, BuildOutcome, Located,
};
use crate::profile::detect_launch_profile;
use crate::session::{
    lemma_appended, lemma_step_keeps_wf, selected_message, Action, ActionView, Event, Pending,
    Session, MAX_LOGS,
};
use crate::solution::parse_sln_for_projects;
use crate::text::push_decimal;
use vstd::prelude::*;
use vstd::string::StringExecFns;

verus! {

/// A session: the solutions found, the one that is active with its
/// projects, the list on show with its selection, and the log.
#[derive(Debug)]
pub struct App {
    exit: bool,
    sln_files: Vec<String>,
    selected_sln: String,
    projects: Vec<String>,
    mode: Mode,
    selected: usize,
    logs: Vec<String>,
    pending: Pending,
    launch_dir: String,
}

impl View for App {
    type V = Session;

    closed spec fn view(&self) -> Session {
        Session {
            exit: self.exit,
            solutions: self.sln_files.deep_view(),
            active: self.selected_sln@,
            projects: self.projects.deep_view(),
            mode: self.mode,
            selected: self.selected as nat,
            logs: self.logs.deep_view(),
            pending: self.pending,
            launch_dir: self.launch_dir@,
        }
    }
}

/// The message that reports a confirmation carried out at `index`.
fn selected_report(index: usize) -> (r: String)
    ensures
        r@ == selected_message(index as nat),
{
    let mut message = String::from_str("Selected item at index: ");
    push_decimal(&mut message, index);
    message
}

impl App {
    #[verifier::type_invariant]
    spec fn well_formed(self) -> bool {
        self@.wf()
    }

    /// Starts a session on what a walk under the root met. The solutions go
    /// on show with the first of them selected and active, and the action
    /// returned asks for its text. There is no session where the root could
    /// not be opened, nor where no solution file was found.
    pub fn new(scanned: &Vec<Scanned>) -> (r: Result<(App, Action), AppError>)
        ensures
            match r {
                Ok((app, action)) => Session::start(scanned@) == Ok::<
                    (Session, ActionView),
                    AppError,
                >((app@, action@)),
                Err(e) => Session::start(scanned@) == Err::<(Session, ActionView), AppError>(e),
            },
    {
        let sln_files = match find_sln_files(scanned) {
            Ok(files) => files,
            Err(e) => {
                return Err(e);
            },
        };
        if sln_files.len() == 0 {
            return Err(AppError::NoSolutions);
        }
        let path = sln_files[0].clone();
        let selected_sln = sln_files[0].clone();
        let app = App {
            exit: false,
            sln_files,
            selected_sln,
            projects: Vec::new(),
            mode: Mode::Solutions,
            selected: 0,
            logs: Vec::new(),
            pending: Pending::FirstSolution,
            launch_dir: String::new(),
        };
        let action = Action::ReadSolution { path };
        proof {
            let (s, a) = Session::start(scanned@)->Ok_0;
            assert(app@ =~= s);
            assert(action@ =~= a);
        }
        Ok((app, action))
    }

    /// Takes one event and says what to do next: one step of the session,
    /// as the model has it.
    pub fn run(&mut self, event: Event) -> (r: Action)
        ensures
            final(self)@ == old(self)@.step(event).0,
            r@ == old(self)@.step(event).1,
            old(self)@.wf(),
            final(self)@.wf(),
    {
        proof {
            use_type_invariant(&*self);
            lemma_step_keeps_wf(self@, event);
        }
        let pending = self.pending;
        match event {
            Event::Key { key, pressed } => {
                if pending == Pending::Key {
                    return self.on_key(key, pressed);
                }
            },
            Event::Idle => {},
            Event::SolutionRead { text } => {
                if pending == Pending::FirstSolution {
                    return self.first_solution_read(text);
                }
                if pending == Pending::Solution {
                    return self.solution_read(text);
                }
            },
            Event::Located { place } => {
                if pending == Pending::Location {
                    return self.located(place);
                }
            },
            Event::Built { outcome } => {
                if pending == Pending::Build {
                    return self.built(outcome);
                }
            },
            Event::SettingsRead { contents } => {
                if pending == Pending::Settings {
                    return self.settings_read(contents);
                }
            },
            Event::Spawned { started } => {
                if pending == Pending::Spawn {
                    return self.spawned(started);
                }
            },
        }
        self.pending = Pending::Key;
        Action::Wait
    }

    /// Adds a message to the log, and drops the oldest message where the
    /// log would grow beyond its bound.
    pub fn add_log(&mut self, message: String)
        ensures
            final(self)@ == old(self)@.logged(message@),
    {
        proof {
            use_type_invariant(&*self);
            lemma_appended(self@.logs, message@);
        }
        let mut logs: Vec<String> = Vec::new();
        core::mem::swap(&mut self.logs, &mut logs);
        if logs.len() >= MAX_LOGS {
            logs.remove(0);
            assert(logs.deep_view() =~= old(self)@.logs.drop_first());
        }
        let ghost before = logs.deep_view();
        logs.push(message);
        assert(logs.deep_view() =~= before.push(message@));
        self.logs = logs;
    }

    /// Moves the selection by `delta` entries in the list on show, and no
    /// further than its first and last entry.
    fn move_selection(&mut self, delta: i32)
        ensures
            final(self)@ == old(self)@.moved(delta as int),
    {
        proof {
            use_type_invariant(&*self);
        }
        let len = match self.mode {
            Mode::Solutions => self.sln_files.len(),
            Mode::Projects => self.projects.len(),
        };
        self.selected = move_index(self.selected, delta, len);
    }

    /// Makes the selected solution the active one and asks for its text.
    fn select_solution(&mut self) -> (r: Action)
        ensures
            final(self)@ == old(self)@.chosen().0,
            r@ == old(self)@.chosen().1,
    {
        proof {
            use_type_invariant(&*self);
        }
        if self.selected < self.sln_files.len() {
            let path = self.sln_files[self.selected].clone();
            self.selected_sln = self.sln_files[self.selected].clone();
            self.pending = Pending::Solution;
            Action::ReadSolution { path }
        } else {
            Action::Wait
        }
    }

    /// Begins the launch of the selected project by asking where it lies.
    /// Does nothing where no project is selected.
    fn run_selected_project(&mut self) -> (r: Action)
        ensures
            final(self)@ == old(self)@.launched().0,
            r@ == old(self)@.launched().1,
    {
        proof {
            use_type_invariant(&*self);
        }
        if self.selected < self.projects.len() {
            let project = self.projects[self.selected].clone();
            let solution = self.selected_sln.clone();
            self.add_log(joined("Running project: ", project.as_str()));
            self.pending = Pending::Location;
            Action::Locate { solution, project }
        } else {
            Action::Wait
        }
    }

    /// Confirms the selection: a solution is chosen, a project launched.
    fn on_enter_key(&mut self) -> (r: Action)
        ensures
            final(self)@ == old(self)@.confirmed().0,
            r@ == old(self)@.confirmed().1,
    {
        proof {
            use_type_invariant(&*self);
        }
        match self.mode {
            Mode::Solutions => self.select_solution(),
            Mode::Projects => self.run_selected_project(),
        }
    }

    /// Deals with a key event.
    fn on_key(&mut self, key: Key, pressed: bool) -> (r: Action)
        ensures
            final(self)@ == old(self)@.on_key(key, pressed).0,
            r@ == old(self)@.on_key(key, pressed).1,
    {
        proof {
            use_type_invariant(&*self);
        }
        match command_for(key, pressed) {
            None => Action::Wait,
            Some(Command::Quit) => {
                self.exit = true;
                Action::Quit
            },
            Some(Command::Move(delta)) => {
                self.move_selection(delta);
                Action::Wait
            },
            Some(Command::Confirm) => self.on_enter_key(),
        }
    }

    /// Takes in the text of the first solution.
    fn first_solution_read(&mut self, text: Option<String>) -> (r: Action)
        requires
            old(self)@.pending == Pending::FirstSolution,
        ensures
            final(self)@ == old(self)@.first_read(text.deep_view()).0,
            r@ == old(self)@.first_read(text.deep_view()).1,
    {
        proof {
            use_type_invariant(&*self);
        }
        match text {
            Some(t) => {
                self.projects = parse_sln_for_projects(t.as_str());
                self.pending = Pending::Key;
                Action::Wait
            },
            None => {
                self.pending = Pending::Key;
                Action::Fail { error: AppError::SolutionUnreadable }
            },
        }
    }

    /// Takes in the text of the solution that was chosen.
    fn solution_read(&mut self, text: Option<String>) -> (r: Action)
        ensures
            final(self)@ == old(self)@.solution_read(text.deep_view()).0,
            r@ == old(self)@.solution_read(text.deep_view()).1,
    {
        proof {
            use_type_invariant(&*self);
        }
        self.pending = Pending::Key;
        match text {
            Some(t) => {
                self.selected = 0;
                self.projects = parse_sln_for_projects(t.as_str());
                self.mode = Mode::Projects;
                self.add_log(selected_report(0));
                Action::Wait
            },
            None => Action::Fail { error: AppError::SolutionUnreadable },
        }
    }

    /// Takes in where the project lies.
    fn located(&mut self, place: Located) -> (r: Action)
        ensures
            final(self)@ == old(self)@.located(place).0,
            r@ == old(self)@.located(place).1,
    {
        proof {
            use_type_invariant(&*self);
        }
        match place {
            Located::NoSolutionDirectory => {
                self.add_log(String::from_str("Invalid solution path"));
                self.pending = Pending::Key;
                Action::Wait
            },
            Located::Project { path, is_file, parent } => {
                let command = build_invocation(path.as_str());
                match launch_directory_of(path, is_file, parent) {
                    Some(dir) => {
                        self.launch_dir = dir;
                        self.pending = Pending::Build;
                        Action::Build { command }
                    },
                    None => {
                        self.add_log(String::from_str("Cannot determine project directory"));
                        self.pending = Pending::Key;
                        Action::Wait
                    },
                }
            },
        }
    }

    /// Takes in how the build went.
    fn built(&mut self, outcome: BuildOutcome) -> (r: Action)
        ensures
            final(self)@ == old(self)@.built(outcome).0,
            r@ == old(self)@.built(outcome).1,
    {
        proof {
            use_type_invariant(&*self);
        }
        let message = report_build(&outcome);
        let launch = match &outcome {
            BuildOutcome::Finished { success, .. } => *success,
            BuildOutcome::NotStarted { .. } => false,
        };
        self.add_log(message);
        if launch {
            self.pending = Pending::Settings;
            Action::ReadSettings { dir: self.launch_dir.clone(), steps: settings_steps() }
        } else {
            self.pending = Pending::Key;
            Action::Wait
        }
    }

    /// Takes in the launch settings, or word that there are none.
    fn settings_read(&mut self, contents: Option<String>) -> (r: Action)
        ensures
            final(self)@ == old(self)@.settings_read(contents.deep_view()).0,
            r@ == old(self)@.settings_read(contents.deep_view()).1,
    {
        proof {
            use_type_invariant(&*self);
        }
        let profile = match contents {
            Some(text) => detect_launch_profile(text.as_str()),
            None => None,
        };
        self.add_log(report_profile(&profile));
        self.pending = Pending::Spawn;
        Action::Spawn { command: run_invocation(self.launch_dir.as_str(), profile) }
    }

    /// Takes in whether the run command started.
    fn spawned(&mut self, started: bool) -> (r: Action)
        ensures
            final(self)@ == old(self)@.spawned(started).0,
            r@ == old(self)@.spawned(started).1,
    {
        proof {
            use_type_invariant(&*self);
        }
        self.pending = Pending::Key;
        if started {
            self.add_log(selected_report(self.selected));
            Action::Wait
        } else {
            Action::Fail { error: AppError::RunNotStarted }
        }
    }

    /// Whether the user has asked to leave.
    pub fn exit(&self) -> (r: bool)
        ensures
            r == self@.exit,
    {
        self.exit
    }

    /// The solution files that were found.
    pub fn sln_files(&self) -> (r: &Vec<String>)
        ensures
            r.deep_view() == self@.solutions,
    {
        &self.sln_files
    }

    /// The path of the active solution.
    pub fn selected_sln(&self) -> (r: &String)
        ensures
            r@ == self@.active,
    {
        &self.selected_sln
    }

    /// The projects of the active solution.
    pub fn projects(&self) -> (r: &Vec<String>)
        ensures
            r.deep_view() == self@.projects,
    {
        &self.projects
    }

    /// Which list is on show.
    pub fn mode(&self) -> (r: Mode)
        ensures
            r == self@.mode,
    {
        self.mode
    }

    /// The position selected in the list on show.
    pub fn selected(&self) -> (r: usize)
        ensures
            r == self@.selected,
    {
        self.selected
    }

    /// The latest messages, oldest first.
    pub fn logs(&self) -> (r: &Vec<String>)
        ensures
            r.deep_view() == self@.logs,
    {
        &self.logs
    }

    /// What the session is waiting for.
    pub fn pending(&self) -> (r: Pending)
        ensures
            r == self@.pending,
    {
        self.pending
    }

    /// The lines to print when the session is over: an empty line, the
    /// active solution, and its projects, one to a line.
    pub fn summary(&self) -> (r: Vec<String>)
        ensures
            r.deep_view() == self@.summary(),
    {
        let mut out: Vec<String> = Vec::new();
        out.push(String::new());
        out.push(joined("Selected solution: ", self.selected_sln.as_str()));
        out.push(String::from_str("Projects:"));
        let ghost head = out.deep_view();
        let ghost item = |project: Seq<char>| "  - "@ + project;
        let mut i: usize = 0;
        proof {
            assert(head =~= seq![Seq::empty(), "Selected solution: "@ + self@.active, "Projects:"@]);
            assert(self@.projects.take(0).map_values(item) =~= Seq::empty());
            assert(out.deep_view() =~= head + self@.projects.take(0).map_values(item));
        }
        while i < self.projects.len()
            invariant
                i <= self.projects.len(),
                item == |project: Seq<char>| "  - "@ + project,
                out.deep_view() == head + self@.projects.take(i as int).map_values(item),
            decreases self.projects.len() - i,
        {
            let ghost before = out.deep_view();
            out.push(joined("  - ", self.projects[i].as_str()));
            proof {
                assert(out.deep_view() =~= before.push("  - "@ + self.projects[i as int]@));
                assert(self@.projects.take(i as int + 1) =~= self@.projects.take(i as int).push(
                    self@.projects[i as int],
                ));
                assert(self@.projects.take(i as int + 1).map_values(item)
                    =~= self@.projects.take(i as int).map_values(item).push(
                    "  - "@ + self@.projects[i as int],
                ));
            }
            i += 1;
        }
        proof {
            assert(self@.projects.take(i as int) =~= self@.projects);
        }
        out
    }
}

} // verus!
