//! The runner of scheduled scripts that a repository defines.

pub mod config;
pub mod runner;


pub use runner::{CronRunner, CronRunnerArgs};
