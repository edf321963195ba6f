//! Script-runner logic for npm packages: resolving scripts, planning the
//! commands that run them, and rendering what the runner prints.

pub mod cli;
pub mod complete;
pub mod env_file;
pub mod list;
pub mod package_json;
pub mod report;
pub mod run;
pub mod runner;
pub mod style;
pub mod suggest;
pub mod util;
