//! A picker for build solutions: the rules behind an interactive terminal
//! session that lists the solution files found under a root directory, lets
//! the user step from a solution to the projects it names, and builds and
//! launches the project that is chosen.
//!
//! Everything here works on plain values. Walking directories, reading files,
//! drawing and starting processes are left to the program around the library,
//! which feeds what it found to [`app::App::run`] and carries out the
//! [`session::Action`] that comes back.

pub mod app;
pub mod discovery;
pub mod error;
pub mod navigator;
pub mod orchestrator;
pub mod profile;
pub mod session;
pub mod solution;
pub mod text;
