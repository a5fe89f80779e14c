//! The list of scheduled jobs that a repository defines.

use vstd::prelude::*;
use vstd::string::*;
use crate::runtime::{Dir, DirView, Effect, EffectView};

verus! {

/// One scheduled job.
#[derive(Debug)]
pub struct Job {
    /// The job's name; at most one run of a name is under way at a time.
    pub name: String,
    /// The script to run, relative to the repository's root.
    pub script: String,
    /// When to run it, as a cron expression.
    pub schedule: String,
}

pub struct JobView {
    pub name: Seq<char>,
    pub script: Seq<char>,
    pub schedule: Seq<char>,
}

impl View for Job {
    type V = JobView;

    open spec fn view(&self) -> JobView {
        JobView { name: self.name@, script: self.script@, schedule: self.schedule@ }
    }
}

/// The jobs that a repository defines.
#[derive(Debug)]
pub struct CronConfig {
    pub jobs: Vec<Job>,
}

/// The views of a list of jobs.
pub open spec fn job_views(jobs: Seq<Job>) -> Seq<JobView> {
    Seq::new(jobs.len(), |i: int| jobs[i]@)
}

impl View for CronConfig {
    type V = Seq<JobView>;

    open spec fn view(&self) -> Seq<JobView> {
        job_views(self.jobs@)
    }
}

/// The file, in the repository's root, that lists the jobs.
pub const CONFIG_FILE: &'static str = "rollploy.cron.yml";

/// The effect that reads the list of jobs of the repository in `repo_path`.
pub open spec fn spec_load(repo_path: Seq<char>) -> EffectView {
    EffectView::Read { dir: DirView::At(repo_path), name: CONFIG_FILE@ }
}

/// The effect that reads the list of jobs of the repository in `repo_path`.
/// The host turns the text that it reads into a `CronConfig`.
pub fn load(repo_path: &str) -> (effect: Effect)
    ensures
        effect@ == spec_load(repo_path@),
{
    Effect::Read { dir: Dir::At(String::from_str(repo_path)), name: String::from_str(CONFIG_FILE) }
}

} // verus!
