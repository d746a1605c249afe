//! Desired-state provisioning: a table of packages and preferences, the
//! ordered command plans that converge a machine to it, and the rules that
//! decide what each command's result means for the run.
pub mod command;
pub mod homebrew;
pub mod system;
pub mod config;
pub mod driver;
