use std::time::{SystemTime, UNIX_EPOCH};

use rollploy::cron::config::{load, CronConfig, Job, CONFIG_FILE};
use rollploy::cron::runner::{
    is_due, parse_jobs, should_run, CronRunner, CronRunnerArgs, Instant, Message, Notice, Phase,
    State, Trouble,
};
use rollploy::git::{PullStage, RepoStage};
use rollploy::runtime::{Dir, Effect, Failure, Outcome, Task};

fn job(name: &str, script: &str, schedule: &str) -> Job {
    Job { name: name.to_string(), script: script.to_string(), schedule: schedule.to_string() }
}

fn runner_args() -> CronRunnerArgs {
    CronRunnerArgs {
        repo_url: "https://git.example.com/acme/jobs.git".to_string(),
        branch: "main".to_string(),
        local_path: "/srv/jobs".to_string(),
        check_interval: 60_000,
    }
}

fn configured(jobs: Vec<Job>) -> State {
    let (mut state, _) = CronRunner::pre_start(runner_args());
    let step = CronRunner::configure(&mut state, Phase::LoadingConfig, Some(CronConfig { jobs }));
    assert!(matches!(step.phase, Phase::Idle));
    state
}

fn every_second() -> &'static str {
    "* * * * * *"
}

fn at(secs: i64, nanos: u32) -> Instant {
    Instant { secs, nanos }
}

#[test]
fn config_file_is_read_from_the_repository() {
    assert_eq!(CONFIG_FILE, "rollploy.cron.yml");
    match load("/srv/jobs") {
        Effect::Read { dir, name } => {
            assert!(matches!(dir, Dir::At(path) if path == "/srv/jobs"));
            assert_eq!(name, "rollploy.cron.yml");
        }
        other => panic!("not a read: {:?}", other),
    }
}

#[test]
fn parse_jobs_keeps_jobs_in_order() {
    let parsed = parse_jobs(vec![
        job("backup", "scripts/backup.sh", "0 30 3 * * *"),
        job("report", "scripts/report.sh", "0 0 9 * * Mon"),
    ])
    .unwrap();
    assert_eq!(parsed.len(), 2);
    assert_eq!(parsed[0].job.name, "backup");
    assert_eq!(parsed[0].job.script, "scripts/backup.sh");
    assert_eq!(parsed[0].job.schedule, "0 30 3 * * *");
    assert_eq!(parsed[0].schedule.source(), "0 30 3 * * *");
    assert_eq!(parsed[1].job.name, "report");
    assert_eq!(parsed[1].schedule.source(), "0 0 9 * * Mon");
}

#[test]
fn parse_jobs_of_no_jobs_is_empty() {
    assert_eq!(parse_jobs(Vec::new()).unwrap().len(), 0);
}

#[test]
fn parse_jobs_names_the_first_bad_schedule() {
    let refused = parse_jobs(vec![
        job("good", "a.sh", "0 0 * * * *"),
        job("bad", "b.sh", "every now and then"),
        job("worse", "c.sh", ""),
    ])
    .unwrap_err();
    assert_eq!(refused.index, 1);
    assert_eq!(refused.name, "bad");
    assert_eq!(refused.schedule, "every now and then");
}

#[test]
fn is_due_within_a_second_of_the_fire_time() {
    assert!(is_due(Some(at(100, 0)), at(100, 0)));
    assert!(is_due(Some(at(100, 0)), at(99, 1)));
    assert!(is_due(Some(at(100, 0)), at(99, 999_999_999)));
    assert!(is_due(Some(at(100, 0)), at(100, 999_999_999)));
}

#[test]
fn is_due_not_a_whole_second_away() {
    assert!(!is_due(Some(at(100, 0)), at(99, 0)));
    assert!(!is_due(Some(at(100, 0)), at(101, 0)));
    assert!(!is_due(Some(at(100, 0)), at(50, 0)));
    assert!(!is_due(Some(at(i64::MAX, 0)), at(i64::MIN, u32::MAX)));
    assert!(!is_due(Some(at(i64::MIN, 0)), at(i64::MAX, u32::MAX)));
}

#[test]
fn is_due_never_without_a_fire_time() {
    assert!(!is_due(None, at(100, 0)));
}

#[test]
fn should_run_is_false_far_from_any_fire_time() {
    let parsed = parse_jobs(vec![job("tick", "t.sh", every_second())]).unwrap();
    assert!(!should_run(&parsed[0].schedule, at(0, 0)));
    let never = parse_jobs(vec![job("once", "o.sh", "0 0 0 1 1 * 2000")]).unwrap();
    let now = SystemTime::now().duration_since(UNIX_EPOCH).unwrap();
    assert!(!should_run(&never[0].schedule, at(now.as_secs() as i64, now.subsec_nanos())));
}

/// The present, never on a whole second.
fn present() -> Instant {
    let now = SystemTime::now().duration_since(UNIX_EPOCH).unwrap();
    at(now.as_secs() as i64, now.subsec_nanos().max(1))
}

#[test]
fn should_run_is_true_when_the_next_second_fires() {
    let parsed = parse_jobs(vec![job("tick", "t.sh", every_second())]).unwrap();
    // A second may begin between reading the clock and asking the schedule.
    let due = (0..5).any(|_| should_run(&parsed[0].schedule, present()));
    assert!(due);
}

#[test]
fn runner_starts_with_the_repository() {
    let (state, phase) = CronRunner::pre_start(runner_args());
    assert!(matches!(phase, Phase::EnsuringRepo(RepoStage::Probing)));
    assert_eq!(state.job_count(), 0);
    assert_eq!(state.repo_url(), "https://git.example.com/acme/jobs.git");
    assert!(matches!(
        CronRunner::effect(&state, &phase),
        Some(Effect::Probe { dir: Dir::At(path) }) if path == "/srv/jobs"
    ));
}

#[test]
fn runner_start_reads_the_jobs() {
    let (mut state, phase) = CronRunner::pre_start(runner_args());
    let step = CronRunner::advance(&mut state, phase, &Outcome::Present(true));
    assert!(matches!(step.phase, Phase::LoadingConfig));
    assert!(matches!(
        CronRunner::effect(&state, &step.phase),
        Some(Effect::Read { name, .. }) if name == "rollploy.cron.yml"
    ));
    let config = CronConfig { jobs: vec![job("a", "a.sh", "0 0 * * * *")] };
    let step = CronRunner::configure(&mut state, step.phase, Some(config));
    assert!(matches!(step.phase, Phase::Idle));
    assert!(matches!(step.notice, Some(Notice::Loaded(1))));
    assert_eq!(state.job_count(), 1);
    assert!(CronRunner::effect(&state, &Phase::Idle).is_none());
}

#[test]
fn runner_stops_when_the_start_fails() {
    let (mut state, _) = CronRunner::pre_start(runner_args());
    let failed = Outcome::Exited { success: false, output: String::new() };
    let step = CronRunner::advance(&mut state, Phase::EnsuringRepo(RepoStage::Cloning), &failed);
    assert!(matches!(step.phase, Phase::Stopped));
    assert!(matches!(
        step.notice,
        Some(Notice::StartFailed(Trouble::Repository(Failure::Infrastructure(Task::CloneRepository))))
    ));
    let step = CronRunner::configure(&mut state, Phase::LoadingConfig, None);
    assert!(matches!(step.phase, Phase::Stopped));
    assert!(matches!(step.notice, Some(Notice::StartFailed(Trouble::Unreadable))));
    let config = CronConfig { jobs: vec![job("a", "a.sh", "whenever")] };
    let step = CronRunner::configure(&mut state, Phase::LoadingConfig, Some(config));
    assert!(matches!(step.phase, Phase::Stopped));
    match step.notice {
        Some(Notice::StartFailed(Trouble::Invalid(refused))) => {
            assert_eq!(refused.index, 0);
            assert_eq!(refused.name, "a");
        }
        other => panic!("unexpected: {:?}", other),
    }
    assert!(CronRunner::effect(&state, &Phase::Stopped).is_none());
    let step = CronRunner::advance(&mut state, Phase::Stopped, &Outcome::Slept);
    assert!(matches!(step.phase, Phase::Stopped));
}

#[test]
fn git_pull_reloads_the_jobs_when_the_repository_moved() {
    let mut state = configured(vec![job("a", "a.sh", "0 0 * * * *")]);
    let (phase, launches) = CronRunner::handle(&mut state, Message::GitPull, at(0, 0));
    assert!(launches.is_empty());
    assert!(matches!(phase, Phase::Pulling(PullStage::HeadBefore)));
    let head = |text: &str| Outcome::Exited { success: true, output: text.to_string() };
    let step = CronRunner::advance(&mut state, phase, &head("aaa"));
    let step = CronRunner::advance(&mut state, step.phase, &head(""));
    let step = CronRunner::advance(&mut state, step.phase, &head("bbb"));
    assert!(matches!(step.phase, Phase::Reloading));
    let config = CronConfig {
        jobs: vec![job("a", "a.sh", "0 0 * * * *"), job("b", "b.sh", "0 5 * * * *")],
    };
    let step = CronRunner::configure(&mut state, step.phase, Some(config));
    assert!(matches!(step.phase, Phase::Idle));
    assert!(matches!(step.notice, Some(Notice::Reloaded(2))));
    assert_eq!(state.job_count(), 2);
}

#[test]
fn git_pull_without_change_keeps_the_jobs() {
    let mut state = configured(vec![job("a", "a.sh", "0 0 * * * *")]);
    let head = |text: &str| Outcome::Exited { success: true, output: text.to_string() };
    let step = CronRunner::advance(&mut state, Phase::Pulling(PullStage::HeadBefore), &head("aaa"));
    let step = CronRunner::advance(&mut state, step.phase, &head(""));
    let step = CronRunner::advance(&mut state, step.phase, &head("aaa"));
    assert!(matches!(step.phase, Phase::Idle));
    assert!(matches!(step.notice, Some(Notice::NoUpdates)));
    assert_eq!(state.job_count(), 1);
}

#[test]
fn a_failed_reload_keeps_the_jobs() {
    let mut state = configured(vec![job("a", "a.sh", "0 0 * * * *")]);
    let step = CronRunner::configure(&mut state, Phase::Reloading, None);
    assert!(matches!(step.phase, Phase::Idle));
    assert!(matches!(step.notice, Some(Notice::ReloadFailed(Trouble::Unreadable))));
    assert_eq!(state.job_count(), 1);
    let config = CronConfig { jobs: vec![job("a", "a.sh", "0 0 * * * *"), job("b", "b.sh", "?")] };
    let step = CronRunner::configure(&mut state, Phase::Reloading, Some(config));
    assert!(matches!(step.phase, Phase::Idle));
    assert!(matches!(step.notice, Some(Notice::ReloadFailed(Trouble::Invalid(_)))));
    assert_eq!(state.job_count(), 1);
    let step = CronRunner::advance(&mut state, Phase::Reloading, &Outcome::Content(None));
    assert!(matches!(step.notice, Some(Notice::ReloadFailed(Trouble::Unreadable))));
}

#[test]
fn a_failed_pull_keeps_the_jobs() {
    let mut state = configured(vec![job("a", "a.sh", "0 0 * * * *")]);
    let step =
        CronRunner::advance(&mut state, Phase::Pulling(PullStage::HeadBefore), &Outcome::Unlaunched);
    assert!(matches!(step.phase, Phase::Idle));
    assert!(matches!(
        step.notice,
        Some(Notice::PullFailed(Failure::Infrastructure(Task::ReadHead)))
    ));
}

#[test]
fn configure_outside_a_config_phase_changes_nothing() {
    let mut state = configured(vec![job("a", "a.sh", "0 0 * * * *")]);
    let step = CronRunner::configure(&mut state, Phase::Idle, Some(CronConfig { jobs: Vec::new() }));
    assert!(matches!(step.phase, Phase::Idle));
    assert!(step.notice.is_none());
    assert_eq!(state.job_count(), 1);
}

#[test]
fn launch_due_starts_what_is_due_and_free() {
    let mut state = configured(vec![
        job("a", "a.sh", "0 0 * * * *"),
        job("b", "b.sh", "0 0 * * * *"),
        job("c", "c.sh", "0 0 * * * *"),
    ]);
    let launches = CronRunner::launch_due(&mut state, &vec![true, false, true]);
    assert_eq!(launches.len(), 2);
    assert_eq!(launches[0].name, "a");
    assert_eq!(launches[0].script, "a.sh");
    assert_eq!(launches[0].dir, "/srv/jobs");
    assert_eq!(launches[1].name, "c");
    assert!(state.is_running("a"));
    assert!(!state.is_running("b"));
    assert!(state.is_running("c"));
}

#[test]
fn launch_due_skips_a_job_that_is_running() {
    let mut state = configured(vec![job("a", "a.sh", "0 0 * * * *"), job("b", "b.sh", "0 0 * * * *")]);
    assert_eq!(CronRunner::launch_due(&mut state, &vec![true, false]).len(), 1);
    let launches = CronRunner::launch_due(&mut state, &vec![true, true]);
    assert_eq!(launches.len(), 1);
    assert_eq!(launches[0].name, "b");
    CronRunner::finished(&mut state, "a");
    assert!(!state.is_running("a"));
    assert!(state.is_running("b"));
    let launches = CronRunner::launch_due(&mut state, &vec![true, true]);
    assert_eq!(launches.len(), 1);
    assert_eq!(launches[0].name, "a");
}

#[test]
fn launch_due_starts_one_of_two_jobs_of_a_name() {
    let mut state = configured(vec![job("a", "one.sh", "0 0 * * * *"), job("a", "two.sh", "0 0 * * * *")]);
    let launches = CronRunner::launch_due(&mut state, &vec![true, true]);
    assert_eq!(launches.len(), 1);
    assert_eq!(launches[0].script, "one.sh");
}

#[test]
fn launch_due_takes_missing_marks_as_not_due() {
    let mut state = configured(vec![job("a", "a.sh", "0 0 * * * *"), job("b", "b.sh", "0 0 * * * *")]);
    assert_eq!(CronRunner::launch_due(&mut state, &Vec::new()).len(), 0);
    let launches = CronRunner::launch_due(&mut state, &vec![false, true, true, true]);
    assert_eq!(launches.len(), 1);
    assert_eq!(launches[0].name, "b");
}

#[test]
fn finished_of_a_job_that_is_not_running_changes_nothing() {
    let mut state = configured(vec![job("a", "a.sh", "0 0 * * * *")]);
    CronRunner::launch_due(&mut state, &vec![true]);
    CronRunner::finished(&mut state, "zzz");
    assert!(state.is_running("a"));
}

#[test]
fn tick_starts_each_due_job_once() {
    let mut state = configured(vec![job("tick", "t.sh", every_second())]);
    let mut started = Vec::new();
    for _ in 0..5 {
        let (phase, launches) = CronRunner::handle(&mut state, Message::Tick, present());
        assert!(matches!(phase, Phase::Idle));
        started.extend(launches);
    }
    assert_eq!(started.len(), 1);
    assert_eq!(started[0].name, "tick");
    assert!(state.is_running("tick"));
}

#[test]
fn tick_far_from_any_fire_time_starts_nothing() {
    let mut state = configured(vec![job("tick", "t.sh", every_second())]);
    assert!(CronRunner::tick(&mut state, at(0, 0)).is_empty());
    assert!(!state.is_running("tick"));
}
