//! Pull-based blue-green deployment for a containerised service behind a
//! reverse proxy, and a runner of scheduled scripts: the decisions of both
//! loops, stated and proved.
//!
//! The library does no input or output. Each loop is a function from a phase
//! and the outcome of that phase's effect to the next phase (`runtime`); a
//! host performs the effects and hands the outcomes back.
//!
//! - `state`: the two slots, and the record of the live one.
//! - `git`, `docker`, `traefik`: the commands on the repository, the
//!   container runtime and the proxy, and the small loops around them.
//! - `actors::deployer`: the reconciler that rolls a new build out to the
//!   idle slot and switches traffic once it is healthy.
//! - `actors::protocol`: what the reconciler's effects do to the world, and
//!   what holds of every run.
//! - `cron`: the runner of the jobs that a repository defines.
//! - `text`: reading what commands print.

pub mod actors;
pub mod cron;
pub mod docker;
pub mod git;
pub mod runtime;
pub mod state;
pub mod text;
pub mod traefik;
