//! Building a project and launching it: the commands to run, where to run
//! them, and what to report.
//!
//! The build runs to its end, with its exit status and its standard error
//! captured. Only after a build that succeeded is the project launched: from
//! the directory of the project, with the launch profile that its settings
//! select, and without waiting for it.

use vstd::prelude::*;
use vstd::string::StringExecFns;

verus! {

/// A command for the program around the library to run.
#[derive(Debug, PartialEq, Eq)]
pub struct Invocation {
    /// The program to start.
    pub program: String,
    /// Its arguments, in order.
    pub args: Vec<String>,
    /// The directory to start it in; that of the caller where there is none.
    pub dir: Option<String>,
    /// Whether the command is left to itself once started: nobody waits for
    /// it, reads its output or learns how it ended.
    pub detached: bool,
}

/// An [`Invocation`] as plain text.
#[verifier::ext_equal]
pub struct InvocationView {
    pub program: Seq<char>,
    pub args: Seq<Seq<char>>,
    pub dir: Option<Seq<char>>,
    pub detached: bool,
}

impl View for Invocation {
    type V = InvocationView;

    open spec fn view(&self) -> InvocationView {
        InvocationView {
            program: self.program@,
            args: self.args.deep_view(),
            dir: self.dir.deep_view(),
            detached: self.detached,
        }
    }
}

/// Where a project was found to lie.
#[derive(Debug, PartialEq, Eq)]
pub enum Located {
    /// The path of the solution has no directory part to start from.
    NoSolutionDirectory,
    /// The reference, joined to the directory of the solution, gives `path`.
    /// `is_file` tells whether a regular file lies there, and `parent` is the
    /// directory part of `path`, where it has one.
    Project { path: String, is_file: bool, parent: Option<String> },
}

/// How a build went.
#[derive(Debug, PartialEq, Eq)]
pub enum BuildOutcome {
    /// The build command could not be started.
    NotStarted { reason: String },
    /// The build ran to its end: `success` tells whether its exit status
    /// was zero, and `stderr` is what it wrote to standard error.
    Finished { success: bool, stderr: String },
}

/// The toolchain that builds and runs projects: `dotnet`.
pub open spec fn toolchain() -> Seq<char> {
    "dotnet"@
}

/// The build of the project at `project_path`, in the debug configuration.
pub open spec fn build_command(project_path: Seq<char>) -> InvocationView {
    InvocationView {
        program: toolchain(),
        args: seq!["build"@, "--configuration"@, "Debug"@, project_path],
        dir: None,
        detached: false,
    }
}

/// The launch of the project in `dir`, with `profile` where there is one.
pub open spec fn run_command(dir: Seq<char>, profile: Option<Seq<char>>) -> InvocationView {
    InvocationView {
        program: toolchain(),
        args: match profile {
            Some(name) => seq!["run"@, "--launch-profile"@, name],
            None => seq!["run"@],
        },
        dir: Some(dir),
        detached: true,
    }
}

/// The directory to launch from: that of the project file where the
/// reference leads to a file, else the place the reference leads to. There
/// is none for a file without a directory part.
pub open spec fn launch_directory(
    path: Seq<char>,
    is_file: bool,
    parent: Option<Seq<char>>,
) -> Option<Seq<char>> {
    if is_file {
        parent
    } else {
        Some(path)
    }
}

/// Where the launch settings lie, step by step from the launch directory:
/// `Properties`, and in it `launchSettings.json`.
pub open spec fn settings_location() -> Seq<Seq<char>> {
    seq!["Properties"@, "launchSettings.json"@]
}

/// What is reported when a launch begins.
pub open spec fn running_message(project: Seq<char>) -> Seq<char> {
    "Running project: "@ + project
}

/// What is reported for a solution path without a directory part.
pub open spec fn invalid_solution_message() -> Seq<char> {
    "Invalid solution path"@
}

/// What is reported for a project file without a directory part.
pub open spec fn no_directory_message() -> Seq<char> {
    "Cannot determine project directory"@
}

/// What is reported when the build command could not be started.
pub open spec fn build_not_started_message(reason: Seq<char>) -> Seq<char> {
    "Build could not be started: "@ + reason
}

/// What is reported for a build that failed: all that it wrote to standard
/// error, after a heading.
pub open spec fn build_failed_message(stderr: Seq<char>) -> Seq<char> {
    "Build failed: "@ + stderr
}

/// What is reported for a build that succeeded.
pub open spec fn build_succeeded_message() -> Seq<char> {
    "Build successful! Running ..."@
}

/// What is reported about the launch profile.
pub open spec fn profile_message(profile: Option<Seq<char>>) -> Seq<char> {
    match profile {
        Some(name) => "Detected launch profile: "@ + name,
        None => "No launch profile found, running normally..."@,
    }
}

/// What is reported once a build is over.
pub open spec fn build_message(outcome: BuildOutcome) -> Seq<char> {
    match outcome {
        BuildOutcome::NotStarted { reason } => build_not_started_message(reason@),
        BuildOutcome::Finished { success, stderr } => if success {
            build_succeeded_message()
        } else {
            build_failed_message(stderr@)
        },
    }
}

/// Whether the project may be launched after a build with this outcome:
/// only after one that ran and succeeded.
pub open spec fn may_launch(outcome: BuildOutcome) -> bool {
    outcome matches BuildOutcome::Finished { success, .. } && success
}

/// `head` followed by `tail`.
pub fn joined(head: &str, tail: &str) -> (r: String)
    ensures
        r@ == head@ + tail@,
{
    let mut out = String::from_str(head);
    out.append(tail);
    out
}

/// The command that builds the project at `project_path`.
pub fn build_invocation(project_path: &str) -> (r: Invocation)
    ensures
        r@ == build_command(project_path@),
{
    let mut args: Vec<String> = Vec::new();
    args.push(String::from_str("build"));
    args.push(String::from_str("--configuration"));
    args.push(String::from_str("Debug"));
    args.push(String::from_str(project_path));
    let r = Invocation { program: String::from_str("dotnet"), args, dir: None, detached: false };
    assert(r@.args =~= build_command(project_path@).args);
    r
}

/// The command that launches the project in `dir`, with `profile` where
/// there is one.
pub fn run_invocation(dir: &str, profile: Option<String>) -> (r: Invocation)
    ensures
        r@ == run_command(dir@, profile.deep_view()),
{
    let mut args: Vec<String> = Vec::new();
    args.push(String::from_str("run"));
    match profile {
        Some(name) => {
            args.push(String::from_str("--launch-profile"));
            args.push(name);
        },
        None => {},
    }
    let r = Invocation {
        program: String::from_str("dotnet"),
        args,
        dir: Some(String::from_str(dir)),
        detached: true,
    };
    assert(r@.args =~= run_command(dir@, profile.deep_view()).args);
    r
}

/// The directory to launch a located project from.
pub fn launch_directory_of(path: String, is_file: bool, parent: Option<String>) -> (r: Option<
    String,
>)
    ensures
        r.deep_view() == launch_directory(path@, is_file, parent.deep_view()),
{
    if is_file {
        parent
    } else {
        Some(path)
    }
}

/// The steps from the launch directory to the launch settings.
pub fn settings_steps() -> (r: Vec<String>)
    ensures
        r.deep_view() == settings_location(),
{
    let mut steps: Vec<String> = Vec::new();
    steps.push(String::from_str("Properties"));
    steps.push(String::from_str("launchSettings.json"));
    assert(steps.deep_view() =~= settings_location());
    steps
}

/// The report on a build.
pub fn report_build(outcome: &BuildOutcome) -> (r: String)
    ensures
        r@ == build_message(*outcome),
{
    match outcome {
        BuildOutcome::NotStarted { reason } => joined(
            "Build could not be started: ",
            reason.as_str(),
        ),
        BuildOutcome::Finished { success, stderr } => if *success {
            String::from_str("Build successful! Running ...")
        } else {
            joined("Build failed: ", stderr.as_str())
        },
    }
}

/// The report on the launch profile.
pub fn report_profile(profile: &Option<String>) -> (r: String)
    ensures
        r@ == profile_message(profile.deep_view()),
{
    match profile {
        Some(name) => joined("Detected launch profile: ", name.as_str()),
        None => String::from_str("No launch profile found, running normally..."),
    }
}

/// A failed build is reported with all that it wrote to standard error, and
/// the project may not be launched after it.
pub proof fn lemma_failed_build_is_reported(stderr: String)
    ensures
        !may_launch(BuildOutcome::Finished { success: false, stderr }),
        stderr@.is_suffix_of(build_message(BuildOutcome::Finished { success: false, stderr })),
{
    let all = build_message(BuildOutcome::Finished { success: false, stderr });
    assert(all.subrange(all.len() - stderr@.len(), all.len() as int) =~= stderr@);
}

} // verus!
