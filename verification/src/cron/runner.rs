//! The runner: which jobs are due, and that no job runs twice at a time.

use vstd::prelude::*;
use vstd::string::*;
use std::str::FromStr;
use chrono::Utc;
use crate::cron::config::{job_views, load, spec_load, CronConfig, Job, JobView};
use crate::git::{
    ensure_repo, ensure_repo_effect, pull, pull_effect, spec_ensure_repo, spec_ensure_repo_effect,
    spec_pull, spec_pull_effect, PullStage, PullStageView, RepoStage,
};
use crate::runtime::{Effect, EffectView, Failure, Flow, Outcome, OutcomeView};
use crate::text::{same_text, texts};

verus! {

/// `Schedule` of the `cron` crate: a cron expression that has been taken
/// apart. It is carried through and handed back to the crate; nothing is
/// known of what it holds.
#[verifier::external_type_specification]
#[verifier::external_body]
pub struct ExSchedule(::cron::Schedule);

/// `Error` of the `cron` crate: why an expression was refused. Nothing is
/// known of what it holds.
#[verifier::external_type_specification]
#[verifier::external_body]
pub struct ExScheduleError(::cron::error::Error);

/// Whether `expression` is a cron expression that `cron::Schedule` takes.
pub uninterp spec fn cron_accepts(expression: Seq<char>) -> bool;

/// `Schedule::from_str` of the `cron` crate: the schedule that `expression`
/// stands for, or the crate's error where it is no cron expression. Which of
/// the two depends on the expression alone.
#[verifier::external_body]
fn parse_schedule(expression: &str) -> (r: Result<::cron::Schedule, ::cron::error::Error>)
    ensures
        r is Ok == cron_accepts(expression@),
{
    ::cron::Schedule::from_str(expression)
}

/// A point in time: seconds since the epoch, and nanoseconds beyond them.
#[derive(Debug, Clone, Copy, PartialEq, Eq, Structural)]
pub struct Instant {
    pub secs: i64,
    pub nanos: u32,
}

impl Instant {
    /// Nanoseconds since the epoch.
    pub open spec fn total_nanos(self) -> int {
        self.secs * 1_000_000_000 + self.nanos
    }
}

/// `Schedule::upcoming` of the `cron` crate, on UTC, and the first item of
/// what it gives: the next time after the present at which the schedule
/// fires, if there is one. It depends on the clock, so nothing is claimed of
/// it.
#[verifier::external_body]
fn next_fire(schedule: &::cron::Schedule) -> Option<Instant> {
    match schedule.upcoming(Utc).next() {
        Some(time) => Some(
            Instant { secs: time.timestamp(), nanos: time.timestamp_subsec_nanos() },
        ),
        None => None,
    }
}

/// Whether a schedule whose next fire time is `next` is due at `now`: it is
/// where the two are less than a whole second apart.
pub open spec fn spec_is_due(next: Option<Instant>, now: Instant) -> bool {
    match next {
        Some(next) => -1_000_000_000 < next.total_nanos() - now.total_nanos() < 1_000_000_000,
        None => false,
    }
}

/// Whether a schedule whose next fire time is `next` is due at `now`.
pub fn is_due(next: Option<Instant>, now: Instant) -> (due: bool)
    ensures
        due == spec_is_due(next, now),
{
    match next {
        Some(next) => {
            let apart: i128 = (next.secs as i128 - now.secs as i128) * 1_000_000_000 + (
            next.nanos as i128 - now.nanos as i128);
            -1_000_000_000 < apart && apart < 1_000_000_000
        },
        None => false,
    }
}

/// Whether `schedule` is due at `now`, going by the next time at which it
/// fires after the present. That time comes from the clock, so nothing is
/// claimed of the result here: `is_due` says what it is for each such time.
pub fn should_run(schedule: &::cron::Schedule, now: Instant) -> bool {
    is_due(next_fire(schedule), now)
}

/// A job together with its schedule.
#[derive(Debug)]
pub struct JobState {
    pub job: Job,
    pub schedule: ::cron::Schedule,
}

/// The jobs of a list of scheduled jobs.
pub open spec fn scheduled(list: Seq<JobState>) -> Seq<JobView> {
    Seq::new(list.len(), |i: int| list[i].job@)
}

/// A job whose schedule is no cron expression.
#[derive(Debug)]
pub struct InvalidSchedule {
    /// The job's place in the list.
    pub index: usize,
    /// The job's name.
    pub name: String,
    /// What stands for its schedule.
    pub schedule: String,
}

pub struct InvalidScheduleView {
    pub index: usize,
    pub name: Seq<char>,
    pub schedule: Seq<char>,
}

impl View for InvalidSchedule {
    type V = InvalidScheduleView;

    open spec fn view(&self) -> InvalidScheduleView {
        InvalidScheduleView { index: self.index, name: self.name@, schedule: self.schedule@ }
    }
}

/// The first job of `jobs` whose schedule is no cron expression; none where
/// all are.
pub open spec fn first_refused(jobs: Seq<JobView>) -> Option<InvalidScheduleView>
    decreases jobs.len(),
{
    if jobs.len() == 0 {
        None
    } else {
        match first_refused(jobs.drop_last()) {
            Some(refused) => Some(refused),
            None => if cron_accepts(jobs.last().schedule) {
                None
            } else {
                Some(
                    InvalidScheduleView {
                        index: (jobs.len() - 1) as usize,
                        name: jobs.last().name,
                        schedule: jobs.last().schedule,
                    },
                )
            },
        }
    }
}

/// What `first_refused` finds is the first job that is refused, and it
/// finds none only where every job is accepted.
pub proof fn lemma_first_refused(jobs: Seq<JobView>)
    requires
        jobs.len() <= usize::MAX,
    ensures
        match first_refused(jobs) {
            Some(refused) => {
                &&& refused.index < jobs.len()
                &&& refused.name == jobs[refused.index as int].name
                &&& refused.schedule == jobs[refused.index as int].schedule
                &&& !cron_accepts(refused.schedule)
                &&& forall|k: int|
                    0 <= k < refused.index ==> cron_accepts(#[trigger] jobs[k].schedule)
            },
            None => forall|k: int|
                0 <= k < jobs.len() ==> cron_accepts(#[trigger] jobs[k].schedule),
        },
    decreases jobs.len(),
{
    if jobs.len() > 0 {
        let init = jobs.drop_last();
        lemma_first_refused(init);
        match first_refused(init) {
            Some(refused) => {
                assert forall|k: int| 0 <= k < refused.index implies cron_accepts(
                    #[trigger] jobs[k].schedule,
                ) by {
                    assert(jobs[k] == init[k]);
                }
            },
            None => {
                assert forall|k: int| 0 <= k < jobs.len() - 1 implies cron_accepts(
                    #[trigger] jobs[k].schedule,
                ) by {
                    assert(jobs[k] == init[k]);
                }
            },
        }
    }
}

/// The schedules of `jobs`: each job with its schedule, in the order given,
/// where every schedule is a cron expression; the first job whose schedule
/// is none, where there is one.
pub fn parse_jobs(jobs: Vec<Job>) -> (r: Result<Vec<JobState>, InvalidSchedule>)
    ensures
        match r {
            Ok(list) => first_refused(job_views(jobs@)) is None && scheduled(list@) == job_views(
                jobs@,
            ),
            Err(refused) => first_refused(job_views(jobs@)) == Some(refused@),
        },
{
    let mut result: Vec<JobState> = Vec::new();
    let mut i: usize = 0;
    let ghost all = job_views(jobs@);
    while i < jobs.len()
        invariant
            i <= jobs.len(),
            all == job_views(jobs@),
            first_refused(all.take(i as int)) is None,
            scheduled(result@) == all.take(i as int),
        decreases jobs.len() - i,
    {
        let job = Job {
            name: jobs[i].name.clone(),
            script: jobs[i].script.clone(),
            schedule: jobs[i].schedule.clone(),
        };
        assert(all.take(i + 1).drop_last() =~= all.take(i as int));
        match parse_schedule(job.schedule.as_str()) {
            Ok(schedule) => {
                result.push(JobState { job, schedule });
            },
            Err(_) => {
                proof {
                    lemma_refused_stays(all, i + 1);
                }
                return Err(InvalidSchedule { index: i, name: job.name, schedule: job.schedule });
            },
        }
        i += 1;
    }
    assert(all.take(i as int) =~= all);
    Ok(result)
}

/// A job that is refused among the first `n` is the first refused of all.
pub proof fn lemma_refused_stays(jobs: Seq<JobView>, n: int)
    requires
        0 <= n <= jobs.len(),
        first_refused(jobs.take(n)) is Some,
    ensures
        first_refused(jobs) == first_refused(jobs.take(n)),
    decreases jobs.len() - n,
{
    if n < jobs.len() {
        assert(jobs.take(n + 1).drop_last() =~= jobs.take(n));
        lemma_refused_stays(jobs, n + 1);
    } else {
        assert(jobs.take(n) =~= jobs);
    }
}

/// The runner of one repository's jobs.
#[derive(Debug, Clone, Copy)]
pub struct CronRunner;

/// What a runner is started with.
#[derive(Debug)]
pub struct CronRunnerArgs {
    /// Where the repository is cloned from.
    pub repo_url: String,
    /// The branch to follow.
    pub branch: String,
    /// The working directory that holds the clone.
    pub local_path: String,
    /// Milliseconds between two pulls of the repository.
    pub check_interval: u64,
}

/// What a runner knows: its repository, the jobs with their schedules, and
/// the names of the jobs of which a run is under way.
#[derive(Debug)]
pub struct State {
    repo_url: String,
    branch: String,
    local_path: String,
    jobs: Vec<JobState>,
    running: Vec<String>,
}

pub struct StateView {
    pub repo_url: Seq<char>,
    pub branch: Seq<char>,
    pub local_path: Seq<char>,
    pub jobs: Seq<JobView>,
    pub running: Set<Seq<char>>,
}

impl View for State {
    type V = StateView;

    closed spec fn view(&self) -> StateView {
        StateView {
            repo_url: self.repo_url@,
            branch: self.branch@,
            local_path: self.local_path@,
            jobs: scheduled(self.jobs@),
            running: texts(self.running@).to_set(),
        }
    }
}

/// What wakes a runner up.
#[derive(Debug, Clone, Copy, PartialEq, Eq, Structural)]
pub enum Message {
    /// The second's tick: start the jobs that are due.
    Tick,
    /// The timer: pull the repository, and read the jobs anew if it moved.
    GitPull,
}

/// A script for the host to run in the background.
#[derive(Debug)]
pub struct Launch {
    /// The job's name, to be handed to `finished` when the run has ended.
    pub name: String,
    /// The directory to run in, and to find the script in.
    pub dir: String,
    /// The script, relative to `dir`.
    pub script: String,
}

pub struct LaunchView {
    pub name: Seq<char>,
    pub dir: Seq<char>,
    pub script: Seq<char>,
}

impl View for Launch {
    type V = LaunchView;

    open spec fn view(&self) -> LaunchView {
        LaunchView { name: self.name@, dir: self.dir@, script: self.script@ }
    }
}

/// The views of a list of launches.
pub open spec fn launch_views(list: Seq<Launch>) -> Seq<LaunchView> {
    Seq::new(list.len(), |i: int| list[i]@)
}

/// Whether the job at `i` is marked as due.
pub open spec fn marked(due: Seq<bool>, i: int) -> bool {
    0 <= i < due.len() && due[i]
}

/// Whether the job at `i` is to be started: it is due, no run of its name
/// is under way, and no job before it that is due has its name.
pub open spec fn launched(
    running: Set<Seq<char>>,
    jobs: Seq<JobView>,
    due: Seq<bool>,
    i: int,
) -> bool {
    &&& marked(due, i)
    &&& !running.contains(jobs[i].name)
    &&& forall|k: int| 0 <= k < i && marked(due, k) ==> (#[trigger] jobs[k]).name != jobs[i].name
}

/// The launches of those of the first `n` jobs that are to be started, in
/// the jobs' order.
pub open spec fn launches(
    running: Set<Seq<char>>,
    jobs: Seq<JobView>,
    due: Seq<bool>,
    dir: Seq<char>,
    n: int,
) -> Seq<LaunchView>
    decreases n,
{
    if n <= 0 {
        Seq::empty()
    } else {
        let before = launches(running, jobs, due, dir, n - 1);
        if launched(running, jobs, due, n - 1) {
            before.push(LaunchView { name: jobs[n - 1].name, dir, script: jobs[n - 1].script })
        } else {
            before
        }
    }
}

/// Whether one of the first `n` jobs is due and has the name `name`.
pub open spec fn due_name(jobs: Seq<JobView>, due: Seq<bool>, n: int, name: Seq<char>) -> bool {
    exists|k: int| 0 <= k < n && marked(due, k) && (#[trigger] jobs[k]).name == name
}

/// The names under way once those of the first `n` jobs that are due have
/// been seen to: those that were under way, and the names of the due jobs.
pub open spec fn running_after(
    running: Set<Seq<char>>,
    jobs: Seq<JobView>,
    due: Seq<bool>,
    n: int,
) -> Set<Seq<char>> {
    Set::new(|name: Seq<char>| running.contains(name) || due_name(jobs, due, n, name))
}

/// Whether `name` is among `names`.
fn holds(names: &Vec<String>, name: &str) -> (found: bool)
    ensures
        found == texts(names@).to_set().contains(name@),
{
    let mut i: usize = 0;
    while i < names.len()
        invariant
            i <= names.len(),
            forall|k: int| 0 <= k < i ==> texts(names@)[k] != name@,
        decreases names.len() - i,
    {
        if same_text(names[i].as_str(), name) {
            assert(texts(names@)[i as int] == name@);
            return true;
        }
        i += 1;
    }
    false
}

impl State {
    /// How many jobs there are.
    pub fn job_count(&self) -> (count: usize)
        ensures
            count == self@.jobs.len(),
    {
        self.jobs.len()
    }

    /// Whether a run of the job `name` is under way.
    pub fn is_running(&self, name: &str) -> (running: bool)
        ensures
            running == self@.running.contains(name@),
    {
        holds(&self.running, name)
    }

    /// Where the repository is cloned from.
    pub fn repo_url(&self) -> (url: &str)
        ensures
            url@ == self@.repo_url,
    {
        self.repo_url.as_str()
    }
}

impl CronRunner {
    /// Starts the jobs that `due` marks, each unless a run of its name is
    /// under way already, and notes their names as under way. A job for
    /// which `due` holds no mark counts as not due.
    pub fn launch_due(state: &mut State, due: &Vec<bool>) -> (list: Vec<Launch>)
        ensures
            launch_views(list@) == launches(
                old(state)@.running,
                old(state)@.jobs,
                due@,
                old(state)@.local_path,
                old(state)@.jobs.len() as int,
            ),
            final(state)@ == (StateView {
                running: running_after(
                    old(state)@.running,
                    old(state)@.jobs,
                    due@,
                    old(state)@.jobs.len() as int,
                ),
                ..old(state)@
            }),
    {
        let ghost before = state@.running;
        let ghost jobs = state@.jobs;
        let ghost dir = state@.local_path;
        let mut list: Vec<Launch> = Vec::new();
        let mut i: usize = 0;
        while i < state.jobs.len()
            invariant
                i <= state.jobs.len(),
                state@.jobs == jobs,
                state@.local_path == dir,
                state@.repo_url == old(state)@.repo_url,
                state@.branch == old(state)@.branch,
                state@.running == running_after(before, jobs, due@, i as int),
                launch_views(list@) == launches(before, jobs, due@, dir, i as int),
            decreases state.jobs.len() - i,
        {
            if i < due.len() && due[i] && !holds(&state.running, state.jobs[i].job.name.as_str()) {
                let ghost names = texts(state.running@);
                state.running.push(state.jobs[i].job.name.clone());
                proof {
                    assert(texts(state.running@) =~= names.push(jobs[i as int].name));
                    names.lemma_push_to_set_commute(jobs[i as int].name);
                }
                list.push(
                    Launch {
                        name: state.jobs[i].job.name.clone(),
                        dir: state.local_path.clone(),
                        script: state.jobs[i].job.script.clone(),
                    },
                );
            }
            i += 1;
        }
        list
    }

    /// Starts the jobs whose schedules are due at `now`, each unless a run
    /// of its name is under way already. Which schedules are due depends on
    /// the clock; whichever they are, the jobs are started, and the names
    /// noted, as `launch_due` does for them.
    pub fn tick(state: &mut State, now: Instant) -> (list: Vec<Launch>)
        ensures
            exists|due: Seq<bool>|
                {
                    &&& launch_views(list@) == #[trigger] launches(
                        old(state)@.running,
                        old(state)@.jobs,
                        due,
                        old(state)@.local_path,
                        old(state)@.jobs.len() as int,
                    )
                    &&& final(state)@ == (StateView {
                        running: running_after(
                            old(state)@.running,
                            old(state)@.jobs,
                            due,
                            old(state)@.jobs.len() as int,
                        ),
                        ..old(state)@
                    })
                },
    {
        let mut due: Vec<bool> = Vec::new();
        let mut i: usize = 0;
        while i < state.jobs.len()
            invariant
                i <= state.jobs.len(),
            decreases state.jobs.len() - i,
        {
            due.push(should_run(&state.jobs[i].schedule, now));
            i += 1;
        }
        CronRunner::launch_due(state, &due)
    }

    /// Notes that the run of the job `name` has ended.
    pub fn finished(state: &mut State, name: &str)
        ensures
            final(state)@ == (StateView {
                running: old(state)@.running.remove(name@),
                ..old(state)@
            }),
    {
        let mut kept: Vec<String> = Vec::new();
        let mut i: usize = 0;
        let ghost names = texts(state.running@);
        while i < state.running.len()
            invariant
                i <= state.running.len(),
                names == texts(state.running@),
                texts(kept@).to_set() == names.take(i as int).to_set().remove(name@),
            decreases state.running.len() - i,
        {
            let ghost had = texts(kept@);
            proof {
                assert(names.take(i + 1) =~= names.take(i as int).push(names[i as int]));
                names.take(i as int).lemma_push_to_set_commute(names[i as int]);
            }
            if !same_text(state.running[i].as_str(), name) {
                kept.push(state.running[i].clone());
                proof {
                    assert(texts(kept@) =~= had.push(names[i as int]));
                    had.lemma_push_to_set_commute(names[i as int]);
                }
            }
            assert(texts(kept@).to_set() =~= names.take(i + 1).to_set().remove(name@));
            i += 1;
        }
        assert(names.take(i as int) =~= names);
        state.running = kept;
    }
}

/// No job is started while a run of its name is under way, no two jobs of
/// one name are started together, and every job that is started is one that
/// is due, so that its name is noted as under way.
pub proof fn lemma_one_run_at_a_time(
    running: Set<Seq<char>>,
    jobs: Seq<JobView>,
    due: Seq<bool>,
    dir: Seq<char>,
    n: int,
)
    requires
        0 <= n <= jobs.len(),
    ensures
        forall|i: int|
            0 <= i < launches(running, jobs, due, dir, n).len() ==> !running.contains(
                (#[trigger] launches(running, jobs, due, dir, n)[i]).name,
            ),
        forall|i: int, j: int|
            0 <= i < j < launches(running, jobs, due, dir, n).len() ==> (#[trigger] launches(
                running,
                jobs,
                due,
                dir,
                n,
            )[i]).name != (#[trigger] launches(running, jobs, due, dir, n)[j]).name,
        forall|i: int|
            0 <= i < launches(running, jobs, due, dir, n).len() ==> due_name(
                jobs,
                due,
                n,
                (#[trigger] launches(running, jobs, due, dir, n)[i]).name,
            ),
        forall|i: int|
            0 <= i < launches(running, jobs, due, dir, n).len() ==> running_after(
                running,
                jobs,
                due,
                n,
            ).contains((#[trigger] launches(running, jobs, due, dir, n)[i]).name),
    decreases n,
{
    if n > 0 {
        lemma_one_run_at_a_time(running, jobs, due, dir, n - 1);
        assert(launches(running, jobs, due, dir, n - 1).len() <= launches(
            running,
            jobs,
            due,
            dir,
            n,
        ).len());
    }
}

/// Where a runner stands: idle, stopped, or waiting for the outcome of one
/// effect.
#[derive(Debug)]
pub enum Phase {
    /// Start: making sure that the repository is there.
    EnsuringRepo(RepoStage),
    /// Start: reading the list of jobs.
    LoadingConfig,
    /// Waiting for a trigger.
    Idle,
    /// Pulling the repository to see whether it has moved.
    Pulling(PullStage),
    /// Reading the list of jobs anew.
    Reloading,
    /// The start failed; the runner does nothing more.
    Stopped,
}

pub enum PhaseView {
    EnsuringRepo(RepoStage),
    LoadingConfig,
    Idle,
    Pulling(PullStageView),
    Reloading,
    Stopped,
}

impl View for Phase {
    type V = PhaseView;

    open spec fn view(&self) -> PhaseView {
        match self {
            Phase::EnsuringRepo(stage) => PhaseView::EnsuringRepo(*stage),
            Phase::LoadingConfig => PhaseView::LoadingConfig,
            Phase::Idle => PhaseView::Idle,
            Phase::Pulling(stage) => PhaseView::Pulling(stage@),
            Phase::Reloading => PhaseView::Reloading,
            Phase::Stopped => PhaseView::Stopped,
        }
    }
}

/// Why the jobs could not be had.
#[derive(Debug)]
pub enum Trouble {
    /// The repository could not be made sure of.
    Repository(Failure),
    /// The list of jobs could not be read, or is no list of jobs.
    Unreadable,
    /// A job's schedule is no cron expression.
    Invalid(InvalidSchedule),
}

pub enum TroubleView {
    Repository(Failure),
    Unreadable,
    Invalid(InvalidScheduleView),
}

impl View for Trouble {
    type V = TroubleView;

    open spec fn view(&self) -> TroubleView {
        match self {
            Trouble::Repository(failure) => TroubleView::Repository(*failure),
            Trouble::Unreadable => TroubleView::Unreadable,
            Trouble::Invalid(refused) => TroubleView::Invalid(refused@),
        }
    }
}

/// What a runner has to tell when a piece of its work has ended.
#[derive(Debug)]
pub enum Notice {
    /// The start failed, and the runner has stopped.
    StartFailed(Trouble),
    /// The jobs were read at the start; so many there are.
    Loaded(usize),
    /// The repository has not moved.
    NoUpdates,
    /// The pull failed; the jobs stay as they are.
    PullFailed(Failure),
    /// The repository has moved and the jobs were read anew; so many there
    /// are.
    Reloaded(usize),
    /// The repository has moved but the jobs could not be had; they stay as
    /// they are.
    ReloadFailed(Trouble),
}

pub enum NoticeView {
    StartFailed(TroubleView),
    Loaded(usize),
    NoUpdates,
    PullFailed(Failure),
    Reloaded(usize),
    ReloadFailed(TroubleView),
}

impl View for Notice {
    type V = NoticeView;

    open spec fn view(&self) -> NoticeView {
        match self {
            Notice::StartFailed(trouble) => NoticeView::StartFailed(trouble@),
            Notice::Loaded(count) => NoticeView::Loaded(*count),
            Notice::NoUpdates => NoticeView::NoUpdates,
            Notice::PullFailed(failure) => NoticeView::PullFailed(*failure),
            Notice::Reloaded(count) => NoticeView::Reloaded(*count),
            Notice::ReloadFailed(trouble) => NoticeView::ReloadFailed(trouble@),
        }
    }
}

/// The phase that follows, and what there is to tell.
#[derive(Debug)]
pub struct Step {
    pub phase: Phase,
    pub notice: Option<Notice>,
}

pub struct StepView {
    pub phase: PhaseView,
    pub notice: Option<NoticeView>,
}

impl View for Step {
    type V = StepView;

    open spec fn view(&self) -> StepView {
        StepView {
            phase: self.phase@,
            notice: match self.notice {
                Some(notice) => Some(notice@),
                None => None,
            },
        }
    }
}

/// The state that a runner begins with: its repository, no jobs yet, and no
/// run under way.
pub open spec fn initial_state(args: CronRunnerArgs) -> StateView {
    StateView {
        repo_url: args.repo_url@,
        branch: args.branch@,
        local_path: args.local_path@,
        jobs: Seq::empty(),
        running: Set::empty(),
    }
}

/// The effect that a runner waits for in `phase`; none while idle or
/// stopped.
pub open spec fn spec_effect(state: StateView, phase: PhaseView) -> Option<EffectView> {
    match phase {
        PhaseView::EnsuringRepo(stage) => Some(
            spec_ensure_repo_effect(state.local_path, state.repo_url, state.branch, stage),
        ),
        PhaseView::LoadingConfig => Some(spec_load(state.local_path)),
        PhaseView::Idle => None,
        PhaseView::Pulling(stage) => Some(spec_pull_effect(state.local_path, stage)),
        PhaseView::Reloading => Some(spec_load(state.local_path)),
        PhaseView::Stopped => None,
    }
}

/// The state and the step that follow when the list of jobs has been read
/// as `config`, or could not be read (`None`).
///
/// At the start, a list that cannot be had, or that holds a schedule that is
/// no cron expression, stops the runner; otherwise its jobs are the
/// runner's. Later, such a list leaves the runner with the jobs it has. In
/// any other phase no list is waited for, and nothing changes.
pub open spec fn spec_configure(
    state: StateView,
    phase: PhaseView,
    config: Option<Seq<JobView>>,
) -> (StateView, StepView) {
    let trouble = match config {
        None => Some(TroubleView::Unreadable),
        Some(jobs) => match first_refused(jobs) {
            Some(refused) => Some(TroubleView::Invalid(refused)),
            None => None,
        },
    };
    match phase {
        PhaseView::LoadingConfig => match trouble {
            Some(trouble) => (
                state,
                StepView {
                    phase: PhaseView::Stopped,
                    notice: Some(NoticeView::StartFailed(trouble)),
                },
            ),
            None => (
                StateView { jobs: config->0, ..state },
                StepView {
                    phase: PhaseView::Idle,
                    notice: Some(NoticeView::Loaded(config->0.len() as usize)),
                },
            ),
        },
        PhaseView::Reloading => match trouble {
            Some(trouble) => (
                state,
                StepView {
                    phase: PhaseView::Idle,
                    notice: Some(NoticeView::ReloadFailed(trouble)),
                },
            ),
            None => (
                StateView { jobs: config->0, ..state },
                StepView {
                    phase: PhaseView::Idle,
                    notice: Some(NoticeView::Reloaded(config->0.len() as usize)),
                },
            ),
        },
        _ => (state, StepView { phase, notice: None }),
    }
}

/// The state and the step that follow `outcome`, which arrived in `phase`.
///
/// At the start, a repository that cannot be made sure of stops the runner;
/// otherwise the list of jobs is read. A pull that finds updates leads to
/// the list being read anew; one that finds none, or fails, leads back to
/// idle. Where the list of jobs is waited for, an outcome counts as a list
/// that could not be read. While idle or stopped, nothing changes.
pub open spec fn spec_advance(state: StateView, phase: PhaseView, outcome: OutcomeView) -> (
    StateView,
    StepView,
) {
    match phase {
        PhaseView::EnsuringRepo(stage) => match spec_ensure_repo(stage, outcome) {
            Flow::Continue(next) => (
                state,
                StepView { phase: PhaseView::EnsuringRepo(next), notice: None },
            ),
            Flow::Done(Ok(_)) => (
                state,
                StepView { phase: PhaseView::LoadingConfig, notice: None },
            ),
            Flow::Done(Err(failure)) => (
                state,
                StepView {
                    phase: PhaseView::Stopped,
                    notice: Some(NoticeView::StartFailed(TroubleView::Repository(failure))),
                },
            ),
        },
        PhaseView::Pulling(stage) => match spec_pull(stage, outcome) {
            Flow::Continue(next) => (
                state,
                StepView { phase: PhaseView::Pulling(next), notice: None },
            ),
            Flow::Done(Ok(true)) => (state, StepView { phase: PhaseView::Reloading, notice: None }),
            Flow::Done(Ok(false)) => (
                state,
                StepView { phase: PhaseView::Idle, notice: Some(NoticeView::NoUpdates) },
            ),
            Flow::Done(Err(failure)) => (
                state,
                StepView { phase: PhaseView::Idle, notice: Some(NoticeView::PullFailed(failure)) },
            ),
        },
        PhaseView::LoadingConfig | PhaseView::Reloading => spec_configure(state, phase, None),
        PhaseView::Idle => (state, StepView { phase: PhaseView::Idle, notice: None }),
        PhaseView::Stopped => (state, StepView { phase: PhaseView::Stopped, notice: None }),
    }
}

impl CronRunner {
    /// The state and the phase that a runner begins with.
    pub fn pre_start(args: CronRunnerArgs) -> (start: (State, Phase))
        ensures
            start.0@ == initial_state(args),
            start.1@ == PhaseView::EnsuringRepo(RepoStage::Probing),
    {
        let state = State {
            repo_url: args.repo_url,
            branch: args.branch,
            local_path: args.local_path,
            jobs: Vec::new(),
            running: Vec::new(),
        };
        assert(scheduled(state.jobs@) =~= Seq::<JobView>::empty());
        assert(texts(state.running@).to_set() =~= Set::<Seq<char>>::empty());
        (state, Phase::EnsuringRepo(RepoStage::Probing))
    }

    /// Takes in `message`, which arrived at `now` while the runner was idle:
    /// the phase that follows, and the scripts to start. The second's tick
    /// starts what is due and leaves the runner idle; the timer starts a
    /// pull.
    pub fn handle(state: &mut State, message: Message, now: Instant) -> (next: (Phase, Vec<Launch>))
        ensures
            message == Message::GitPull ==> {
                &&& next.0@ == PhaseView::Pulling(PullStageView::HeadBefore)
                &&& next.1@.len() == 0
                &&& final(state)@ == old(state)@
            },
            message == Message::Tick ==> {
                &&& next.0@ == PhaseView::Idle
                &&& exists|due: Seq<bool>|
                    {
                        &&& launch_views(next.1@) == #[trigger] launches(
                            old(state)@.running,
                            old(state)@.jobs,
                            due,
                            old(state)@.local_path,
                            old(state)@.jobs.len() as int,
                        )
                        &&& final(state)@ == (StateView {
                            running: running_after(
                                old(state)@.running,
                                old(state)@.jobs,
                                due,
                                old(state)@.jobs.len() as int,
                            ),
                            ..old(state)@
                        })
                    }
            },
    {
        match message {
            Message::Tick => {
                let list = CronRunner::tick(state, now);
                (Phase::Idle, list)
            },
            Message::GitPull => (Phase::Pulling(PullStage::HeadBefore), Vec::new()),
        }
    }

    /// The effect that the host is to perform in `phase`; none while idle
    /// or stopped. What the host reads in `LoadingConfig` and in `Reloading`
    /// it hands to `configure`, as a list of jobs; every other outcome it
    /// hands to `advance`.
    pub fn effect(state: &State, phase: &Phase) -> (effect: Option<Effect>)
        ensures
            spec_effect(state@, phase@) == (match effect {
                Some(effect) => Some(effect@),
                None => None,
            }),
    {
        match phase {
            Phase::EnsuringRepo(stage) => Some(
                ensure_repo_effect(
                    state.local_path.as_str(),
                    state.repo_url.as_str(),
                    state.branch.as_str(),
                    *stage,
                ),
            ),
            Phase::LoadingConfig => Some(load(state.local_path.as_str())),
            Phase::Idle => None,
            Phase::Pulling(stage) => Some(pull_effect(state.local_path.as_str(), stage)),
            Phase::Reloading => Some(load(state.local_path.as_str())),
            Phase::Stopped => None,
        }
    }

    /// Takes in the list of jobs that the host has read, or `None` where it
    /// could not read one, and says which phase follows.
    pub fn configure(state: &mut State, phase: Phase, config: Option<CronConfig>) -> (step: Step)
        ensures
            (final(state)@, step@) == spec_configure(
                old(state)@,
                phase@,
                match config {
                    Some(config) => Some(config@),
                    None => None,
                },
            ),
    {
        let starting = match phase {
            Phase::LoadingConfig => true,
            Phase::Reloading => false,
            _ => {
                return Step { phase, notice: None };
            },
        };
        let found = match config {
            None => Err(Trouble::Unreadable),
            Some(config) => match parse_jobs(config.jobs) {
                Ok(jobs) => Ok(jobs),
                Err(refused) => Err(Trouble::Invalid(refused)),
            },
        };
        match found {
            Ok(jobs) => {
                let count = jobs.len();
                state.jobs = jobs;
                if starting {
                    Step { phase: Phase::Idle, notice: Some(Notice::Loaded(count)) }
                } else {
                    Step { phase: Phase::Idle, notice: Some(Notice::Reloaded(count)) }
                }
            },
            Err(trouble) => {
                if starting {
                    Step { phase: Phase::Stopped, notice: Some(Notice::StartFailed(trouble)) }
                } else {
                    Step { phase: Phase::Idle, notice: Some(Notice::ReloadFailed(trouble)) }
                }
            },
        }
    }

    /// Takes in `outcome`, which the effect of `phase` had, and says which
    /// phase follows.
    pub fn advance(state: &mut State, phase: Phase, outcome: &Outcome) -> (step: Step)
        ensures
            (final(state)@, step@) == spec_advance(old(state)@, phase@, outcome@),
    {
        match phase {
            Phase::EnsuringRepo(stage) => match ensure_repo(stage, outcome) {
                Flow::Continue(next) => Step { phase: Phase::EnsuringRepo(next), notice: None },
                Flow::Done(Ok(_)) => Step { phase: Phase::LoadingConfig, notice: None },
                Flow::Done(Err(failure)) => Step {
                    phase: Phase::Stopped,
                    notice: Some(Notice::StartFailed(Trouble::Repository(failure))),
                },
            },
            Phase::Pulling(stage) => match pull(stage, outcome) {
                Flow::Continue(next) => Step { phase: Phase::Pulling(next), notice: None },
                Flow::Done(Ok(true)) => Step { phase: Phase::Reloading, notice: None },
                Flow::Done(Ok(false)) => Step {
                    phase: Phase::Idle,
                    notice: Some(Notice::NoUpdates),
                },
                Flow::Done(Err(failure)) => Step {
                    phase: Phase::Idle,
                    notice: Some(Notice::PullFailed(failure)),
                },
            },
            Phase::LoadingConfig => CronRunner::configure(state, Phase::LoadingConfig, None),
            Phase::Reloading => CronRunner::configure(state, Phase::Reloading, None),
            Phase::Idle => Step { phase: Phase::Idle, notice: None },
            Phase::Stopped => Step { phase: Phase::Stopped, notice: None },
        }
    }
}

} // verus!
