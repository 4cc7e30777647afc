//! The session as a state machine: its states, the events that reach it,
//! the actions it asks for, and what holds of every run.
//!
//! [`Session`] is the model: a session as plain values, with each
//! transition written as a function from state and event to state and
//! action. [`crate::app::App`] is the session that runs, and its contracts
//! say that it does what the model does.

use crate::discovery::{
    discovered, is_solution, lemma_nothing_discovered, root_unreadable, solution_paths, Scanned,
};
use crate::error::AppError;
use crate::navigator::{command_of, moved_index, Command, Key, Mode};
use crate::orchestrator::{
    build_command, build_failed_message, build_message, invalid_solution_message,
    launch_directory, may_launch, no_directory_message, profile_message, run_command,
    running_message, settings_location, BuildOutcome, Invocation, InvocationView, Located,
};
use crate::profile::launch_profile;
use crate::solution::project_references;
use crate::text::decimal;
use vstd::prelude::*;

verus! {

/// How many messages the log holds at most.
pub const MAX_LOGS: usize = 100;

/// What the session is waiting for.
#[derive(Debug, Clone, Copy, PartialEq, Eq, Structural)]
pub enum Pending {
    /// The next key.
    Key,
    /// The text of the first solution, at the start.
    FirstSolution,
    /// The text of the solution that was chosen.
    Solution,
    /// Where the chosen project lies.
    Location,
    /// The outcome of the build.
    Build,
    /// The text of the launch settings.
    Settings,
    /// Word of whether the run command started.
    Spawn,
}

/// What the program around the session found or did.
#[derive(Debug, PartialEq, Eq)]
pub enum Event {
    /// A key event; `pressed` is false for a key that was let go.
    Key { key: Key, pressed: bool },
    /// No key came within the wait.
    Idle,
    /// The text of the solution file asked for; none where it could not be
    /// read.
    SolutionRead { text: Option<String> },
    /// Where the project asked for lies.
    Located { place: Located },
    /// How the build asked for went.
    Built { outcome: BuildOutcome },
    /// The text of the launch settings asked for; none where there are none
    /// to read.
    SettingsRead { contents: Option<String> },
    /// Whether the run command asked for was started.
    Spawned { started: bool },
}

/// What the program around the session is to do next. Each action but
/// `Wait`, `Quit` and `Fail` is answered with the event of the same kind.
#[derive(Debug, PartialEq, Eq)]
pub enum Action {
    /// Draw the lists and the log, and wait for a key.
    Wait,
    /// Leave the session.
    Quit,
    /// Read the solution file at `path`.
    ReadSolution { path: String },
    /// Find where `project` lies, seen from the directory of `solution`.
    Locate { solution: String, project: String },
    /// Run the build to its end and capture how it went.
    Build { command: Invocation },
    /// Read the file that lies `steps` below `dir`.
    ReadSettings { dir: String, steps: Vec<String> },
    /// Start the command and leave it to itself.
    Spawn { command: Invocation },
    /// Give the session up with this error.
    Fail { error: AppError },
}

/// An [`Action`] as plain text.
#[verifier::ext_equal]
pub enum ActionView {
    Wait,
    Quit,
    ReadSolution { path: Seq<char> },
    Locate { solution: Seq<char>, project: Seq<char> },
    Build { command: InvocationView },
    ReadSettings { dir: Seq<char>, steps: Seq<Seq<char>> },
    Spawn { command: InvocationView },
    Fail { error: AppError },
}

impl View for Action {
    type V = ActionView;

    open spec fn view(&self) -> ActionView {
        match self {
            Action::Wait => ActionView::Wait,
            Action::Quit => ActionView::Quit,
            Action::ReadSolution { path } => ActionView::ReadSolution { path: path@ },
            Action::Locate { solution, project } => ActionView::Locate {
                solution: solution@,
                project: project@,
            },
            Action::Build { command } => ActionView::Build { command: command@ },
            Action::ReadSettings { dir, steps } => ActionView::ReadSettings {
                dir: dir@,
                steps: steps.deep_view(),
            },
            Action::Spawn { command } => ActionView::Spawn { command: command@ },
            Action::Fail { error } => ActionView::Fail { error: *error },
        }
    }
}

/// The log after one more message: the message comes last, and of what
/// would be more than [`MAX_LOGS`] messages the oldest are dropped.
pub open spec fn appended(logs: Seq<Seq<char>>, message: Seq<char>) -> Seq<Seq<char>> {
    let all = logs.push(message);
    if all.len() > MAX_LOGS {
        all.subrange(all.len() - MAX_LOGS, all.len() as int)
    } else {
        all
    }
}

/// What is reported once a confirmation has been carried out.
pub open spec fn selected_message(index: nat) -> Seq<char> {
    "Selected item at index: "@ + decimal(index)
}

/// A session as plain values: the model that the contracts of [`App`] speak
/// of.
#[verifier::ext_equal]
pub struct Session {
    /// Whether the user has asked to leave.
    pub exit: bool,
    /// The solution files, in the order of their discovery.
    pub solutions: Seq<Seq<char>>,
    /// The solution that was chosen last; at the start, the first.
    pub active: Seq<char>,
    /// The projects of the active solution, in the order of its lines.
    pub projects: Seq<Seq<char>>,
    /// Which of the two lists is shown.
    pub mode: Mode,
    /// The position selected in the list that is shown.
    pub selected: nat,
    /// The latest messages, oldest first.
    pub logs: Seq<Seq<char>>,
    /// What the session is waiting for.
    pub pending: Pending,
    /// The directory of the launch that is under way, or of the last one.
    pub launch_dir: Seq<char>,
}

impl Session {
    /// The list that is shown.
    pub open spec fn list(self) -> Seq<Seq<char>> {
        match self.mode {
            Mode::Solutions => self.solutions,
            Mode::Projects => self.projects,
        }
    }

    /// What holds of every session: there is a solution; the selection lies
    /// in the list that is shown, or at 0 where that list is empty; the log
    /// is within its bound; and the first solution is read while the
    /// solutions are shown.
    pub open spec fn wf(self) -> bool {
        &&& self.solutions.len() > 0
        &&& (self.selected < self.list().len() || self.selected == 0)
        &&& self.logs.len() <= MAX_LOGS
        &&& (self.pending == Pending::FirstSolution ==> self.mode == Mode::Solutions)
    }

    /// The session with one more message in its log.
    pub open spec fn logged(self, message: Seq<char>) -> Session {
        Session { logs: appended(self.logs, message), ..self }
    }

    /// The session waiting for something else.
    pub open spec fn awaiting(self, pending: Pending) -> Session {
        Session { pending, ..self }
    }

    /// The session after a move of the selection by `delta`.
    pub open spec fn moved(self, delta: int) -> Session {
        Session { selected: moved_index(self.selected, delta, self.list().len()), ..self }
    }

    /// Choosing the selected solution: it becomes the active one, and its
    /// text is asked for.
    pub open spec fn chosen(self) -> (Session, ActionView) {
        if self.selected < self.solutions.len() {
            let path = self.solutions[self.selected as int];
            (
                Session { active: path, pending: Pending::Solution, ..self },
                ActionView::ReadSolution { path },
            )
        } else {
            (self, ActionView::Wait)
        }
    }

    /// Launching the selected project: its place is asked for. With no
    /// project to select, nothing happens.
    pub open spec fn launched(self) -> (Session, ActionView) {
        if self.selected < self.projects.len() {
            let project = self.projects[self.selected as int];
            (
                self.logged(running_message(project)).awaiting(Pending::Location),
                ActionView::Locate { solution: self.active, project },
            )
        } else {
            (self, ActionView::Wait)
        }
    }

    /// Confirming the selection: a solution is chosen, a project launched.
    pub open spec fn confirmed(self) -> (Session, ActionView) {
        match self.mode {
            Mode::Solutions => self.chosen(),
            Mode::Projects => self.launched(),
        }
    }

    /// A key event at a time when a key is awaited.
    pub open spec fn on_key(self, key: Key, pressed: bool) -> (Session, ActionView) {
        match command_of(key, pressed) {
            None => (self, ActionView::Wait),
            Some(Command::Quit) => (Session { exit: true, ..self }, ActionView::Quit),
            Some(Command::Move(delta)) => (self.moved(delta as int), ActionView::Wait),
            Some(Command::Confirm) => self.confirmed(),
        }
    }

    /// The text of the first solution has come: its projects are taken in,
    /// and the solutions stay on show. Without the text the session fails.
    pub open spec fn first_read(self, text: Option<Seq<char>>) -> (Session, ActionView) {
        match text {
            Some(t) => (
                Session { projects: project_references(t), pending: Pending::Key, ..self },
                ActionView::Wait,
            ),
            None => (
                self.awaiting(Pending::Key),
                ActionView::Fail { error: AppError::SolutionUnreadable },
            ),
        }
    }

    /// The text of the chosen solution has come: its projects replace the
    /// former ones and go on show, with the first of them selected. Without
    /// the text the session fails.
    pub open spec fn solution_read(self, text: Option<Seq<char>>) -> (Session, ActionView) {
        match text {
            Some(t) => (
                Session {
                    projects: project_references(t),
                    mode: Mode::Projects,
                    selected: 0,
                    pending: Pending::Key,
                    ..self
                }.logged(selected_message(0)),
                ActionView::Wait,
            ),
            None => (
                self.awaiting(Pending::Key),
                ActionView::Fail { error: AppError::SolutionUnreadable },
            ),
        }
    }

    /// The place of the project has come: the build is asked for, unless
    /// there is no directory to launch from.
    pub open spec fn located(self, place: Located) -> (Session, ActionView) {
        match place {
            Located::NoSolutionDirectory => (
                self.logged(invalid_solution_message()).awaiting(Pending::Key),
                ActionView::Wait,
            ),
            Located::Project { path, is_file, parent } => match launch_directory(
                path@,
                is_file,
                parent.deep_view(),
            ) {
                Some(dir) => (
                    Session { launch_dir: dir, pending: Pending::Build, ..self },
                    ActionView::Build { command: build_command(path@) },
                ),
                None => (
                    self.logged(no_directory_message()).awaiting(Pending::Key),
                    ActionView::Wait,
                ),
            },
        }
    }

    /// The outcome of the build has come: it is reported, and only after a
    /// build that succeeded are the launch settings asked for.
    pub open spec fn built(self, outcome: BuildOutcome) -> (Session, ActionView) {
        let reported = self.logged(build_message(outcome));
        if may_launch(outcome) {
            (
                reported.awaiting(Pending::Settings),
                ActionView::ReadSettings { dir: self.launch_dir, steps: settings_location() },
            )
        } else {
            (reported.awaiting(Pending::Key), ActionView::Wait)
        }
    }

    /// The launch settings have come, or word that there are none: the
    /// profile they select is reported and the run command asked for.
    pub open spec fn settings_read(self, contents: Option<Seq<char>>) -> (Session, ActionView) {
        let profile = match contents {
            Some(text) => launch_profile(text),
            None => None,
        };
        (
            self.logged(profile_message(profile)).awaiting(Pending::Spawn),
            ActionView::Spawn { command: run_command(self.launch_dir, profile) },
        )
    }

    /// Word of the run command has come: a launch that started is reported,
    /// one that did not ends the session.
    pub open spec fn spawned(self, started: bool) -> (Session, ActionView) {
        if started {
            (
                self.logged(selected_message(self.selected)).awaiting(Pending::Key),
                ActionView::Wait,
            )
        } else {
            (self.awaiting(Pending::Key), ActionView::Fail { error: AppError::RunNotStarted })
        }
    }

    /// One step of the session: the event that was awaited is dealt with;
    /// any other is dropped, and the session waits for a key.
    pub open spec fn step(self, event: Event) -> (Session, ActionView) {
        match (self.pending, event) {
            (Pending::Key, Event::Key { key, pressed }) => self.on_key(key, pressed),
            (Pending::FirstSolution, Event::SolutionRead { text }) => self.first_read(
                text.deep_view(),
            ),
            (Pending::Solution, Event::SolutionRead { text }) => self.solution_read(
                text.deep_view(),
            ),
            (Pending::Location, Event::Located { place }) => self.located(place),
            (Pending::Build, Event::Built { outcome }) => self.built(outcome),
            (Pending::Settings, Event::SettingsRead { contents }) => self.settings_read(
                contents.deep_view(),
            ),
            (Pending::Spawn, Event::Spawned { started }) => self.spawned(started),
            _ => (self.awaiting(Pending::Key), ActionView::Wait),
        }
    }

    /// The start of a session on what a walk under the root met: the
    /// solutions are on show with the first one selected and active, and its
    /// text is asked for. There is no session where the root could not be
    /// opened or no solution was found.
    pub open spec fn start(items: Seq<Scanned>) -> Result<(Session, ActionView), AppError> {
        match discovered(items) {
            Err(e) => Err(e),
            Ok(paths) => if paths.len() == 0 {
                Err(AppError::NoSolutions)
            } else {
                Ok(
                    (
                        Session {
                            exit: false,
                            solutions: paths,
                            active: paths[0],
                            projects: Seq::empty(),
                            mode: Mode::Solutions,
                            selected: 0,
                            logs: Seq::empty(),
                            pending: Pending::FirstSolution,
                            launch_dir: Seq::empty(),
                        },
                        ActionView::ReadSolution { path: paths[0] },
                    ),
                )
            },
        }
    }

    /// What is printed when the session is over: an empty line, the active
    /// solution, and its projects, one to a line.
    pub open spec fn summary(self) -> Seq<Seq<char>> {
        seq![Seq::empty(), "Selected solution: "@ + self.active, "Projects:"@]
            + self.projects.map_values(|project: Seq<char>| "  - "@ + project)
    }
}

/// The log stays within its bound and ends with the message that came last.
pub proof fn lemma_appended(logs: Seq<Seq<char>>, message: Seq<char>)
    requires
        logs.len() <= MAX_LOGS,
    ensures
        appended(logs, message).len() <= MAX_LOGS,
        appended(logs, message).len() > 0,
        appended(logs, message).last() == message,
        logs.len() < MAX_LOGS ==> appended(logs, message) == logs.push(message),
        logs.len() == MAX_LOGS ==> appended(logs, message) == logs.drop_first().push(message),
{
    if logs.len() == MAX_LOGS {
        assert(appended(logs, message) =~= logs.drop_first().push(message));
    }
}

/// Whatever event comes, a session stays a session: the selection stays in
/// the list that is shown and the log within its bound.
pub proof fn lemma_step_keeps_wf(s: Session, event: Event)
    requires
        s.wf(),
    ensures
        s.step(event).0.wf(),
{
    let t = s.step(event).0;
    assert(t.logs == s.logs || exists|m: Seq<char>| t.logs == appended(s.logs, m)) by {
        match (s.pending, event) {
            (Pending::Key, Event::Key { key, pressed }) => {
                if command_of(key, pressed) == Some(Command::Confirm) && s.mode == Mode::Projects
                    && s.selected < s.projects.len() {
                    assert(t.logs == appended(
                        s.logs,
                        running_message(s.projects[s.selected as int]),
                    ));
                }
            },
            (Pending::Solution, Event::SolutionRead { text }) => {
                if text is Some {
                    assert(t.logs == appended(s.logs, selected_message(0)));
                }
            },
            (Pending::Location, Event::Located { place }) => {
                match place {
                    Located::NoSolutionDirectory => {
                        assert(t.logs == appended(s.logs, invalid_solution_message()));
                    },
                    Located::Project { path, is_file, parent } => {
                        if launch_directory(path@, is_file, parent.deep_view()) is None {
                            assert(t.logs == appended(s.logs, no_directory_message()));
                        }
                    },
                }
            },
            (Pending::Build, Event::Built { outcome }) => {
                assert(t.logs == appended(s.logs, build_message(outcome)));
            },
            (Pending::Settings, Event::SettingsRead { contents }) => {
                let profile = match contents.deep_view() {
                    Some(text) => launch_profile(text),
                    None => None,
                };
                assert(t.logs == appended(s.logs, profile_message(profile)));
            },
            (Pending::Spawn, Event::Spawned { started }) => {
                if started {
                    assert(t.logs == appended(s.logs, selected_message(s.selected)));
                }
            },
            _ => {},
        }
    }
    if t.logs != s.logs {
        let m = choose|m: Seq<char>| t.logs == appended(s.logs, m);
        lemma_appended(s.logs, m);
    }
}

/// A move never takes the selection out of the list that is shown, and in
/// an empty list it changes nothing.
pub proof fn lemma_move_stays_in_list(s: Session, delta: int)
    requires
        s.wf(),
    ensures
        s.moved(delta).wf(),
        s.moved(delta).list() == s.list(),
        s.list().len() > 0 ==> s.moved(delta).selected < s.list().len(),
        s.list().len() == 0 ==> s.moved(delta) == s,
{
}

/// The keys that move the selection do so by one entry, and no key event
/// that moves it takes it out of the list.
pub proof fn lemma_move_keys(s: Session, key: Key)
    requires
        s.wf(),
        key == Key::Up || key == Key::Down,
    ensures
        s.on_key(key, true).1 == ActionView::Wait,
        s.on_key(key, true).0 == s.moved(
            if key == Key::Up {
                -1
            } else {
                1
            },
        ),
        s.list().len() > 0 ==> s.on_key(key, true).0.selected < s.list().len(),
        s.list().len() == 0 ==> s.on_key(key, true).0 == s,
{
}

/// Confirming a solution asks for its text, and once the text has come the
/// projects are on show with the first of them selected, however far down
/// the selection stood and however few projects there are.
pub proof fn lemma_confirming_a_solution(s: Session, text: String)
    requires
        s.wf(),
        s.pending == Pending::Key,
        s.mode == Mode::Solutions,
    ensures
        ({
            let (asked, action) = s.step(Event::Key { key: Key::Enter, pressed: true });
            let (shown, next) = asked.step(Event::SolutionRead { text: Some(text) });
            &&& action == ActionView::ReadSolution { path: s.solutions[s.selected as int] }
            &&& asked.active == s.solutions[s.selected as int]
            &&& next == ActionView::Wait
            &&& shown.mode == Mode::Projects
            &&& shown.selected == 0
            &&& shown.projects == project_references(text@)
            &&& shown.pending == Pending::Key
        }),
{
}

/// Once the projects are on show they stay on show, and the solutions that
/// were found stay as they are.
pub proof fn lemma_no_way_back(s: Session, event: Event)
    ensures
        s.step(event).0.solutions == s.solutions,
        s.mode == Mode::Projects ==> s.step(event).0.mode == Mode::Projects,
{
}

/// After a build that failed nothing is launched: the session reports all
/// that the build wrote to standard error and goes back to waiting for a
/// key.
pub proof fn lemma_failed_build_launches_nothing(s: Session, stderr: String)
    requires
        s.wf(),
        s.pending == Pending::Build,
    ensures
        ({
            let (t, action) = s.step(
                Event::Built { outcome: BuildOutcome::Finished { success: false, stderr } },
            );
            &&& action == ActionView::Wait
            &&& t.pending == Pending::Key
            &&& t.logs.len() > 0
            &&& t.logs.last() == build_failed_message(stderr@)
            &&& stderr@.is_suffix_of(t.logs.last())
        }),
{
    let message = build_failed_message(stderr@);
    lemma_appended(s.logs, message);
    assert(message.subrange(message.len() - stderr@.len(), message.len() as int) =~= stderr@);
}

/// The run command is asked for only in answer to the launch settings, and
/// the launch settings only in answer to a build that ran and succeeded.
pub proof fn lemma_launch_follows_a_good_build(s: Session, event: Event)
    ensures
        s.step(event).1 is Spawn ==> s.pending == Pending::Settings && event is SettingsRead,
        s.step(event).0.pending == Pending::Spawn ==> s.pending == Pending::Settings,
        s.step(event).1 is ReadSettings ==> s.pending == Pending::Build && event is Built
            && may_launch(event->outcome),
        s.step(event).0.pending == Pending::Settings ==> s.pending == Pending::Build
            && event is Built && may_launch(event->outcome),
{
}

/// Quitting sets the session to leave and asks for nothing else: no file
/// is read and no command run.
pub proof fn lemma_quit(s: Session, key: Key)
    requires
        s.pending == Pending::Key,
        key == Key::Esc || key == Key::Char('q'),
    ensures
        s.step(Event::Key { key, pressed: true }).1 == ActionView::Quit,
        s.step(Event::Key { key, pressed: true }).0 == (Session { exit: true, ..s }),
{
}

/// Where the walk met no solution file, and the root could be opened, no
/// session starts: the start fails for want of a solution.
pub proof fn lemma_no_solution_no_session(items: Seq<Scanned>)
    requires
        !root_unreadable(items),
        forall|i: int| 0 <= i < items.len() ==> !is_solution(#[trigger] items[i]),
    ensures
        Session::start(items) == Err::<(Session, ActionView), AppError>(AppError::NoSolutions),
        AppError::NoSolutions.not_found(),
{
    lemma_nothing_discovered(items);
}

/// Where the walk met a solution file, and the root could be opened, a
/// session starts that is well formed, shows every solution found, and asks
/// for the text of the first.
pub proof fn lemma_solutions_start_a_session(items: Seq<Scanned>)
    requires
        !root_unreadable(items),
        solution_paths(items).len() > 0,
    ensures
        Session::start(items) is Ok,
        Session::start(items)->Ok_0.0.wf(),
        Session::start(items)->Ok_0.0.solutions == solution_paths(items),
        Session::start(items)->Ok_0.0.mode == Mode::Solutions,
        Session::start(items)->Ok_0.1 == (ActionView::ReadSolution {
            path: solution_paths(items)[0],
        }),
{
}

} // verus!
