use solution_picker::app::App;
use solution_picker::discovery::Scanned;
use solution_picker::error::AppError;
use solution_picker::navigator::{Key, Mode};
use solution_picker::orchestrator::{BuildOutcome, Invocation, Located};
use solution_picker::session::{Action, Event, Pending, MAX_LOGS};

const TWO_PROJECTS: &str = "Microsoft Visual Studio Solution File, Format Version 12.00\nProject(\"{FAE04EC0}\") = \"Web\", \"src/Web/Web.csproj\", \"{1111}\"\nEndProject\nProject(\"{FAE04EC0}\") = \"Core\", \"src/Core/Core.csproj\", \"{2222}\"\nEndProject\nGlobal\nEndGlobal\n";

fn solution(path: &str) -> Scanned {
    Scanned::Entry { path: path.to_string(), extension: Some("sln".to_string()) }
}

fn press(key: Key) -> Event {
    Event::Key { key, pressed: true }
}

fn read(text: &str) -> Event {
    Event::SolutionRead { text: Some(text.to_string()) }
}

fn started(paths: &[&str], first_text: &str) -> App {
    let scanned: Vec<Scanned> = paths.iter().map(|p| solution(p)).collect();
    let (mut app, action) = App::new(&scanned).unwrap();
    assert_eq!(action, Action::ReadSolution { path: paths[0].to_string() });
    assert_eq!(app.run(read(first_text)), Action::Wait);
    app
}

fn showing_projects(text: &str) -> App {
    let mut app = started(&["/r/one.sln"], text);
    assert_eq!(app.run(press(Key::Enter)), Action::ReadSolution { path: "/r/one.sln".to_string() });
    assert_eq!(app.run(read(text)), Action::Wait);
    assert_eq!(app.mode(), Mode::Projects);
    app
}

fn building(text: &str) -> App {
    let mut app = showing_projects(text);
    let action = app.run(press(Key::Enter));
    assert!(matches!(action, Action::Locate { .. }));
    let place = Located::Project {
        path: "/r/src/Web/Web.csproj".to_string(),
        is_file: true,
        parent: Some("/r/src/Web".to_string()),
    };
    let action = app.run(Event::Located { place });
    assert!(matches!(action, Action::Build { .. }));
    app
}

#[test]
fn no_solutions_no_session() {
    assert_eq!(App::new(&vec![]).err(), Some(AppError::NoSolutions));
    let scanned = vec![
        Scanned::Entry { path: "/r".to_string(), extension: None },
        Scanned::Entry { path: "/r/a.csproj".to_string(), extension: Some("csproj".to_string()) },
        Scanned::Unreadable { depth: 2 },
    ];
    let error = App::new(&scanned).err().unwrap();
    assert_eq!(error, AppError::NoSolutions);
    assert!(error.is_not_found());
}

#[test]
fn no_root_no_session() {
    let scanned = vec![Scanned::Unreadable { depth: 0 }];
    assert_eq!(App::new(&scanned).err(), Some(AppError::RootUnreadable));
}

#[test]
fn a_session_starts_on_the_first_solution() {
    let scanned = vec![
        Scanned::Entry { path: "/r".to_string(), extension: None },
        solution("/r/b.sln"),
        solution("/r/a.sln"),
    ];
    let (app, action) = App::new(&scanned).unwrap();
    assert_eq!(action, Action::ReadSolution { path: "/r/b.sln".to_string() });
    assert_eq!(app.sln_files(), &vec!["/r/b.sln".to_string(), "/r/a.sln".to_string()]);
    assert_eq!(app.selected_sln(), "/r/b.sln");
    assert_eq!(app.mode(), Mode::Solutions);
    assert_eq!(app.selected(), 0);
    assert_eq!(app.pending(), Pending::FirstSolution);
    assert!(app.projects().is_empty());
    assert!(app.logs().is_empty());
    assert!(!app.exit());
}

#[test]
fn the_first_solution_must_be_readable() {
    let (mut app, _) = App::new(&vec![solution("/r/a.sln")]).unwrap();
    let action = app.run(Event::SolutionRead { text: None });
    assert_eq!(action, Action::Fail { error: AppError::SolutionUnreadable });
}

#[test]
fn one_solution_with_two_projects_from_start_to_quit() {
    let scanned = vec![solution("/r/one.sln")];
    let (mut app, action) = App::new(&scanned).unwrap();
    assert_eq!(action, Action::ReadSolution { path: "/r/one.sln".to_string() });
    assert_eq!(app.run(read(TWO_PROJECTS)), Action::Wait);
    assert_eq!(app.mode(), Mode::Solutions);
    assert_eq!(app.sln_files().len(), 1);
    assert_eq!(app.selected(), 0);

    assert_eq!(app.run(press(Key::Enter)), Action::ReadSolution { path: "/r/one.sln".to_string() });
    assert_eq!(app.run(read(TWO_PROJECTS)), Action::Wait);
    assert_eq!(app.mode(), Mode::Projects);
    assert_eq!(app.projects(), &vec!["src/Web/Web.csproj".to_string(), "src/Core/Core.csproj".to_string()]);
    assert_eq!(app.selected(), 0);

    assert_eq!(app.run(press(Key::Esc)), Action::Quit);
    assert!(app.exit());
    assert_eq!(app.logs(), &vec!["Selected item at index: 0".to_string()]);
}

#[test]
fn q_quits_as_esc_does() {
    let mut app = started(&["/r/one.sln"], TWO_PROJECTS);
    assert_eq!(app.run(press(Key::Char('q'))), Action::Quit);
    assert!(app.exit());
    let mut app = showing_projects(TWO_PROJECTS);
    assert_eq!(app.run(press(Key::Char('q'))), Action::Quit);
    assert!(app.exit());
}

#[test]
fn keys_without_a_meaning_change_nothing() {
    let mut app = started(&["/r/a.sln", "/r/b.sln"], TWO_PROJECTS);
    for key in [Key::Other, Key::Char('x'), Key::Char('Q')] {
        assert_eq!(app.run(press(key)), Action::Wait);
    }
    for key in [Key::Down, Key::Enter, Key::Esc, Key::Char('q')] {
        assert_eq!(app.run(Event::Key { key, pressed: false }), Action::Wait);
    }
    assert_eq!(app.run(Event::Idle), Action::Wait);
    assert_eq!(app.selected(), 0);
    assert_eq!(app.mode(), Mode::Solutions);
    assert!(!app.exit());
    assert!(app.logs().is_empty());
}

#[test]
fn moves_stay_within_the_solutions() {
    let mut app = started(&["/r/a.sln", "/r/b.sln", "/r/c.sln"], "");
    assert_eq!(app.run(press(Key::Up)), Action::Wait);
    assert_eq!(app.selected(), 0);
    assert_eq!(app.run(press(Key::Down)), Action::Wait);
    assert_eq!(app.selected(), 1);
    app.run(press(Key::Down));
    assert_eq!(app.selected(), 2);
    app.run(press(Key::Down));
    assert_eq!(app.selected(), 2);
    app.run(press(Key::Up));
    assert_eq!(app.selected(), 1);
    for _ in 0..10 {
        app.run(press(Key::Up));
        assert!(app.selected() < 3);
    }
    assert_eq!(app.selected(), 0);
}

#[test]
fn moves_stay_within_the_projects() {
    let mut app = showing_projects(TWO_PROJECTS);
    app.run(press(Key::Down));
    assert_eq!(app.selected(), 1);
    app.run(press(Key::Down));
    assert_eq!(app.selected(), 1);
    app.run(press(Key::Up));
    app.run(press(Key::Up));
    assert_eq!(app.selected(), 0);
}

#[test]
fn moves_in_an_empty_project_list_do_nothing() {
    let mut app = showing_projects("no projects here\n");
    assert!(app.projects().is_empty());
    for key in [Key::Down, Key::Down, Key::Up, Key::Up, Key::Up] {
        assert_eq!(app.run(press(key)), Action::Wait);
        assert_eq!(app.selected(), 0);
    }
}

#[test]
fn confirming_in_an_empty_project_list_does_nothing() {
    let mut app = showing_projects("");
    let logs = app.logs().clone();
    assert_eq!(app.run(press(Key::Enter)), Action::Wait);
    assert_eq!(app.pending(), Pending::Key);
    assert_eq!(app.logs(), &logs);
    assert_eq!(app.mode(), Mode::Projects);
}

#[test]
fn confirming_a_solution_resets_the_selection() {
    let mut app = started(&["/r/a.sln", "/r/b.sln", "/r/c.sln"], TWO_PROJECTS);
    app.run(press(Key::Down));
    app.run(press(Key::Down));
    assert_eq!(app.selected(), 2);
    assert_eq!(app.run(press(Key::Enter)), Action::ReadSolution { path: "/r/c.sln".to_string() });
    assert_eq!(app.selected_sln(), "/r/c.sln");
    assert_eq!(app.pending(), Pending::Solution);
    let one = "Project(\"{X}\") = \"Only\", \"only/Only.csproj\", \"{Y}\"\n";
    assert_eq!(app.run(read(one)), Action::Wait);
    assert_eq!(app.mode(), Mode::Projects);
    assert_eq!(app.selected(), 0);
    assert_eq!(app.projects(), &vec!["only/Only.csproj".to_string()]);
    assert_eq!(app.logs().last().unwrap(), "Selected item at index: 0");
}

#[test]
fn the_projects_of_the_chosen_solution_replace_the_former_ones() {
    let mut app = started(&["/r/a.sln", "/r/b.sln"], TWO_PROJECTS);
    assert_eq!(app.projects().len(), 2);
    app.run(press(Key::Down));
    app.run(press(Key::Enter));
    assert_eq!(app.run(read("nothing")), Action::Wait);
    assert!(app.projects().is_empty());
    assert_eq!(app.mode(), Mode::Projects);
    assert_eq!(app.selected(), 0);
}

#[test]
fn a_chosen_solution_that_cannot_be_read_ends_the_session() {
    let mut app = started(&["/r/a.sln", "/r/b.sln"], TWO_PROJECTS);
    app.run(press(Key::Down));
    app.run(press(Key::Enter));
    let action = app.run(Event::SolutionRead { text: None });
    assert_eq!(action, Action::Fail { error: AppError::SolutionUnreadable });
    assert_eq!(app.selected_sln(), "/r/b.sln");
    assert_eq!(app.projects().len(), 2);
    assert_eq!(app.mode(), Mode::Solutions);
}

#[test]
fn there_is_no_way_back_to_the_solutions() {
    let mut app = showing_projects(TWO_PROJECTS);
    for key in [Key::Up, Key::Down, Key::Other, Key::Char('b')] {
        app.run(press(key));
        assert_eq!(app.mode(), Mode::Projects);
    }
}

#[test]
fn confirming_a_project_builds_and_launches_it() {
    let mut app = showing_projects(TWO_PROJECTS);
    app.run(press(Key::Down));
    let action = app.run(press(Key::Enter));
    assert_eq!(
        action,
        Action::Locate { solution: "/r/one.sln".to_string(), project: "src/Core/Core.csproj".to_string() }
    );
    assert_eq!(app.logs().last().unwrap(), "Running project: src/Core/Core.csproj");

    let place = Located::Project {
        path: "/r/src/Core/Core.csproj".to_string(),
        is_file: true,
        parent: Some("/r/src/Core".to_string()),
    };
    let action = app.run(Event::Located { place });
    assert_eq!(
        action,
        Action::Build {
            command: Invocation {
                program: "dotnet".to_string(),
                args: vec![
                    "build".to_string(),
                    "--configuration".to_string(),
                    "Debug".to_string(),
                    "/r/src/Core/Core.csproj".to_string(),
                ],
                dir: None,
                detached: false,
            }
        }
    );

    let outcome = BuildOutcome::Finished { success: true, stderr: String::new() };
    let action = app.run(Event::Built { outcome });
    assert_eq!(
        action,
        Action::ReadSettings {
            dir: "/r/src/Core".to_string(),
            steps: vec!["Properties".to_string(), "launchSettings.json".to_string()],
        }
    );
    assert_eq!(app.logs().last().unwrap(), "Build successful! Running ...");

    let contents = Some("{\"profiles\": {\"Core\": {}}}".to_string());
    let action = app.run(Event::SettingsRead { contents });
    assert_eq!(
        action,
        Action::Spawn {
            command: Invocation {
                program: "dotnet".to_string(),
                args: vec!["run".to_string(), "--launch-profile".to_string(), "Core".to_string()],
                dir: Some("/r/src/Core".to_string()),
                detached: true,
            }
        }
    );
    assert_eq!(app.logs().last().unwrap(), "Detected launch profile: Core");

    assert_eq!(app.run(Event::Spawned { started: true }), Action::Wait);
    assert_eq!(app.logs().last().unwrap(), "Selected item at index: 1");
    assert_eq!(app.pending(), Pending::Key);
    assert_eq!(app.mode(), Mode::Projects);
    assert_eq!(app.selected(), 1);
    assert!(!app.exit());
}

#[test]
fn a_project_can_be_launched_again() {
    let mut app = building(TWO_PROJECTS);
    app.run(Event::Built { outcome: BuildOutcome::Finished { success: true, stderr: String::new() } });
    app.run(Event::SettingsRead { contents: None });
    assert_eq!(app.run(Event::Spawned { started: true }), Action::Wait);
    let action = app.run(press(Key::Enter));
    assert!(matches!(action, Action::Locate { .. }));
}

#[test]
fn a_located_directory_is_where_the_launch_starts() {
    let mut app = showing_projects(TWO_PROJECTS);
    app.run(press(Key::Enter));
    let place = Located::Project { path: "/r/src/Web".to_string(), is_file: false, parent: Some("/r/src".to_string()) };
    let action = app.run(Event::Located { place });
    assert!(matches!(action, Action::Build { .. }));
    let action = app.run(Event::Built { outcome: BuildOutcome::Finished { success: true, stderr: String::new() } });
    assert_eq!(
        action,
        Action::ReadSettings {
            dir: "/r/src/Web".to_string(),
            steps: vec!["Properties".to_string(), "launchSettings.json".to_string()],
        }
    );
}

#[test]
fn missing_or_broken_settings_launch_without_a_profile() {
    for contents in [None, Some("not json".to_string()), Some("{}".to_string()), Some("{\"profiles\": []}".to_string())] {
        let mut app = building(TWO_PROJECTS);
        app.run(Event::Built { outcome: BuildOutcome::Finished { success: true, stderr: String::new() } });
        let action = app.run(Event::SettingsRead { contents });
        assert_eq!(
            action,
            Action::Spawn {
                command: Invocation {
                    program: "dotnet".to_string(),
                    args: vec!["run".to_string()],
                    dir: Some("/r/src/Web".to_string()),
                    detached: true,
                }
            }
        );
        assert_eq!(app.logs().last().unwrap(), "No launch profile found, running normally...");
    }
}

#[test]
fn a_failed_build_launches_nothing_and_is_reported() {
    let mut app = building(TWO_PROJECTS);
    let stderr = "App.cs(3,1): error CS1002: ; expected".to_string();
    let action = app.run(Event::Built { outcome: BuildOutcome::Finished { success: false, stderr: stderr.clone() } });
    assert_eq!(action, Action::Wait);
    assert_eq!(app.pending(), Pending::Key);
    assert!(app.logs().last().unwrap().contains(&stderr));
    assert_eq!(app.logs().last().unwrap(), "Build failed: App.cs(3,1): error CS1002: ; expected");
    assert_eq!(app.run(Event::SettingsRead { contents: None }), Action::Wait);
    assert_eq!(app.run(Event::Spawned { started: true }), Action::Wait);
    assert_eq!(app.run(Event::Idle), Action::Wait);
    assert!(!app.exit());
    assert_eq!(app.mode(), Mode::Projects);
}

#[test]
fn a_build_that_did_not_start_launches_nothing() {
    let mut app = building(TWO_PROJECTS);
    let outcome = BuildOutcome::NotStarted { reason: "program not found".to_string() };
    assert_eq!(app.run(Event::Built { outcome }), Action::Wait);
    assert_eq!(app.logs().last().unwrap(), "Build could not be started: program not found");
    assert_eq!(app.pending(), Pending::Key);
}

#[test]
fn a_launch_that_did_not_start_ends_the_session() {
    let mut app = building(TWO_PROJECTS);
    app.run(Event::Built { outcome: BuildOutcome::Finished { success: true, stderr: String::new() } });
    app.run(Event::SettingsRead { contents: None });
    let logs = app.logs().clone();
    assert_eq!(app.run(Event::Spawned { started: false }), Action::Fail { error: AppError::RunNotStarted });
    assert_eq!(app.logs(), &logs);
}

#[test]
fn a_solution_without_a_directory_is_reported() {
    let mut app = showing_projects(TWO_PROJECTS);
    app.run(press(Key::Enter));
    assert_eq!(app.run(Event::Located { place: Located::NoSolutionDirectory }), Action::Wait);
    assert_eq!(app.logs().last().unwrap(), "Invalid solution path");
    assert_eq!(app.pending(), Pending::Key);
}

#[test]
fn a_project_file_without_a_directory_is_reported() {
    let mut app = showing_projects(TWO_PROJECTS);
    app.run(press(Key::Enter));
    let place = Located::Project { path: "Web.csproj".to_string(), is_file: true, parent: None };
    assert_eq!(app.run(Event::Located { place }), Action::Wait);
    assert_eq!(app.logs().last().unwrap(), "Cannot determine project directory");
    assert_eq!(app.pending(), Pending::Key);
}

#[test]
fn an_answer_that_was_not_asked_for_is_dropped() {
    let mut app = showing_projects(TWO_PROJECTS);
    let logs = app.logs().clone();
    assert_eq!(app.run(Event::Built { outcome: BuildOutcome::Finished { success: true, stderr: String::new() } }), Action::Wait);
    assert_eq!(app.run(Event::Spawned { started: false }), Action::Wait);
    assert_eq!(app.run(read("Project(x), y")), Action::Wait);
    assert_eq!(app.run(Event::Located { place: Located::NoSolutionDirectory }), Action::Wait);
    assert_eq!(app.logs(), &logs);
    assert_eq!(app.projects().len(), 2);

    app.run(press(Key::Enter));
    assert_eq!(app.pending(), Pending::Location);
    assert_eq!(app.run(press(Key::Esc)), Action::Wait);
    assert_eq!(app.pending(), Pending::Key);
    assert!(!app.exit());
}

#[test]
fn the_log_keeps_the_latest_messages() {
    let mut app = started(&["/r/a.sln"], "");
    assert_eq!(MAX_LOGS, 100);
    for i in 0..100 {
        app.add_log(format!("message {}", i));
    }
    assert_eq!(app.logs().len(), 100);
    assert_eq!(app.logs()[0], "message 0");
    app.add_log("message 100".to_string());
    assert_eq!(app.logs().len(), 100);
    assert_eq!(app.logs()[0], "message 1");
    assert_eq!(app.logs()[99], "message 100");
    for i in 101..250 {
        app.add_log(format!("message {}", i));
        assert_eq!(app.logs().len(), 100);
    }
    assert_eq!(app.logs()[0], "message 150");
    assert_eq!(app.logs()[99], "message 249");
}

#[test]
fn the_summary_names_the_solution_and_its_projects() {
    let app = showing_projects(TWO_PROJECTS);
    assert_eq!(
        app.summary(),
        vec!["", "Selected solution: /r/one.sln", "Projects:", "  - src/Web/Web.csproj", "  - src/Core/Core.csproj"]
    );
    let app = started(&["/r/a.sln"], "");
    assert_eq!(app.summary(), vec!["", "Selected solution: /r/a.sln", "Projects:"]);
}
