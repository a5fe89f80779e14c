use rollploy::actors::deployer::{deploy_to_slot, ApplyStage};
use rollploy::docker::{wait_healthy, wait_healthy_effect, GateStage, POLL_INTERVAL};
use rollploy::git::{ensure_repo, ensure_repo_effect, pull, pull_effect, PullStage, RepoStage};
use rollploy::runtime::{Dir, Effect, Failure, Flow, Outcome, Task};
use rollploy::traefik::{
    ensure_network, ensure_network_effect, ensure_traefik, ensure_traefik_effect, NetworkStage,
    ProxyStage,
};

fn exited(success: bool, output: &str) -> Outcome {
    Outcome::Exited { success, output: output.to_string() }
}

fn args_of(effect: &Effect) -> Vec<String> {
    match effect {
        Effect::Run(command) => command.args.clone(),
        other => panic!("not a command: {:?}", other),
    }
}

#[test]
fn outcome_succeeded_only_for_zero_status() {
    assert!(exited(true, "").succeeded());
    assert!(!exited(false, "").succeeded());
    assert!(!Outcome::Unlaunched.succeeded());
    assert!(!Outcome::Written(true).succeeded());
    assert!(!Outcome::Slept.succeeded());
    assert!(!Outcome::Present(true).succeeded());
    assert!(!Outcome::Content(None).succeeded());
}

#[test]
fn ensure_repo_on_a_present_path_does_nothing() {
    assert!(matches!(ensure_repo(RepoStage::Probing, &Outcome::Present(true)), Flow::Done(Ok(()))));
}

#[test]
fn ensure_repo_clones_an_absent_path() {
    assert!(matches!(
        ensure_repo(RepoStage::Probing, &Outcome::Present(false)),
        Flow::Continue(RepoStage::Cloning)
    ));
    assert!(matches!(ensure_repo(RepoStage::Cloning, &exited(true, "")), Flow::Done(Ok(()))));
    assert!(matches!(
        ensure_repo(RepoStage::Cloning, &exited(false, "")),
        Flow::Done(Err(Failure::Infrastructure(Task::CloneRepository)))
    ));
    assert!(matches!(
        ensure_repo(RepoStage::Cloning, &Outcome::Unlaunched),
        Flow::Done(Err(Failure::Infrastructure(Task::CloneRepository)))
    ));
    assert!(matches!(
        ensure_repo(RepoStage::Probing, &Outcome::Slept),
        Flow::Done(Err(Failure::Infrastructure(Task::ProbeRepository)))
    ));
}

#[test]
fn ensure_repo_effects() {
    let probe = ensure_repo_effect("/srv/shop", "https://host/shop.git", "main", RepoStage::Probing);
    assert!(matches!(probe, Effect::Probe { dir: Dir::At(path) } if path == "/srv/shop"));
    let clone = ensure_repo_effect("/srv/shop", "https://host/shop.git", "main", RepoStage::Cloning);
    assert_eq!(args_of(&clone)[0], "clone");
    assert_eq!(args_of(&clone)[5], "/srv/shop");
}

#[test]
fn ensure_network_on_an_existing_network_does_nothing() {
    assert!(matches!(
        ensure_network(NetworkStage::Inspecting, &exited(true, "[]")),
        Flow::Done(Ok(()))
    ));
}

#[test]
fn ensure_network_creates_a_missing_network() {
    assert!(matches!(
        ensure_network(NetworkStage::Inspecting, &exited(false, "")),
        Flow::Continue(NetworkStage::Creating)
    ));
    assert!(matches!(
        ensure_network(NetworkStage::Inspecting, &Outcome::Unlaunched),
        Flow::Continue(NetworkStage::Creating)
    ));
    assert!(matches!(ensure_network(NetworkStage::Creating, &exited(true, "")), Flow::Done(Ok(()))));
    assert!(matches!(
        ensure_network(NetworkStage::Creating, &exited(false, "")),
        Flow::Done(Err(Failure::Infrastructure(Task::CreateNetwork)))
    ));
}

#[test]
fn ensure_network_effects() {
    assert_eq!(
        args_of(&ensure_network_effect(NetworkStage::Inspecting)),
        vec!["network".to_string(), "inspect".to_string(), "rollploy".to_string()]
    );
    assert_eq!(
        args_of(&ensure_network_effect(NetworkStage::Creating)),
        vec!["network".to_string(), "create".to_string(), "rollploy".to_string()]
    );
}

#[test]
fn ensure_traefik_leaves_a_running_proxy_alone() {
    assert!(matches!(
        ensure_traefik(ProxyStage::Network(NetworkStage::Inspecting), &exited(true, "")),
        Flow::Continue(ProxyStage::Probing)
    ));
    assert!(matches!(ensure_traefik(ProxyStage::Probing, &exited(true, "4f2a9c")), Flow::Done(Ok(()))));
}

#[test]
fn ensure_traefik_starts_a_missing_proxy() {
    assert!(matches!(
        ensure_traefik(ProxyStage::Network(NetworkStage::Inspecting), &exited(false, "")),
        Flow::Continue(ProxyStage::Network(NetworkStage::Creating))
    ));
    assert!(matches!(
        ensure_traefik(ProxyStage::Network(NetworkStage::Creating), &exited(true, "")),
        Flow::Continue(ProxyStage::Probing)
    ));
    assert!(matches!(
        ensure_traefik(ProxyStage::Probing, &exited(true, "")),
        Flow::Continue(ProxyStage::Writing)
    ));
    assert!(matches!(
        ensure_traefik(ProxyStage::Writing, &Outcome::Written(true)),
        Flow::Continue(ProxyStage::Launching)
    ));
    assert!(matches!(ensure_traefik(ProxyStage::Launching, &exited(true, "")), Flow::Done(Ok(()))));
}

#[test]
fn ensure_traefik_stops_at_the_first_failure() {
    assert!(matches!(
        ensure_traefik(ProxyStage::Network(NetworkStage::Creating), &exited(false, "")),
        Flow::Done(Err(Failure::Infrastructure(Task::CreateNetwork)))
    ));
    assert!(matches!(
        ensure_traefik(ProxyStage::Probing, &Outcome::Unlaunched),
        Flow::Done(Err(Failure::Infrastructure(Task::ProbeProxy)))
    ));
    assert!(matches!(
        ensure_traefik(ProxyStage::Probing, &exited(false, "")),
        Flow::Done(Err(Failure::Infrastructure(Task::ProbeProxy)))
    ));
    assert!(matches!(
        ensure_traefik(ProxyStage::Writing, &Outcome::Written(false)),
        Flow::Done(Err(Failure::Infrastructure(Task::WriteProxyDefinition)))
    ));
    assert!(matches!(
        ensure_traefik(ProxyStage::Launching, &exited(false, "")),
        Flow::Done(Err(Failure::Infrastructure(Task::LaunchProxy)))
    ));
}

#[test]
fn ensure_traefik_effects() {
    assert_eq!(args_of(&ensure_traefik_effect(ProxyStage::Probing))[0], "ps");
    assert_eq!(args_of(&ensure_traefik_effect(ProxyStage::Launching))[0], "compose");
    assert_eq!(
        args_of(&ensure_traefik_effect(ProxyStage::Network(NetworkStage::Creating)))[1],
        "create"
    );
    match ensure_traefik_effect(ProxyStage::Writing) {
        Effect::Write { dir, name, content } => {
            assert!(matches!(dir, Dir::Scratch(scratch) if scratch == "rollploy-traefik"));
            assert_eq!(name, "docker-compose.yml");
            assert!(content.contains("container_name: rollploy-traefik"));
        }
        other => panic!("not a write: {:?}", other),
    }
}

#[test]
fn pull_reports_a_moved_head() {
    let flow = pull(PullStage::HeadBefore, &exited(true, "aaa"));
    let stage = match flow {
        Flow::Continue(stage) => stage,
        other => panic!("ended: {:?}", other),
    };
    assert!(matches!(&stage, PullStage::Pulling { before } if before == "aaa"));
    let stage = match pull(stage, &exited(true, "")) {
        Flow::Continue(stage) => stage,
        other => panic!("ended: {:?}", other),
    };
    assert!(matches!(&stage, PullStage::HeadAfter { before } if before == "aaa"));
    assert!(matches!(pull(stage, &exited(true, "bbb")), Flow::Done(Ok(true))));
}

#[test]
fn pull_reports_an_unmoved_head() {
    let stage = PullStage::HeadAfter { before: "aaa".to_string() };
    assert!(matches!(pull(stage, &exited(true, "aaa")), Flow::Done(Ok(false))));
}

#[test]
fn pull_fails_with_the_command_that_failed() {
    assert!(matches!(
        pull(PullStage::HeadBefore, &exited(false, "aaa")),
        Flow::Done(Err(Failure::Infrastructure(Task::ReadHead)))
    ));
    assert!(matches!(
        pull(PullStage::HeadBefore, &Outcome::Unlaunched),
        Flow::Done(Err(Failure::Infrastructure(Task::ReadHead)))
    ));
    assert!(matches!(
        pull(PullStage::Pulling { before: "aaa".to_string() }, &exited(false, "")),
        Flow::Done(Err(Failure::Infrastructure(Task::Pull)))
    ));
    assert!(matches!(
        pull(PullStage::HeadAfter { before: "aaa".to_string() }, &Outcome::Unlaunched),
        Flow::Done(Err(Failure::Infrastructure(Task::ReadHead)))
    ));
}

#[test]
fn pull_effects() {
    assert_eq!(args_of(&pull_effect("/w", &PullStage::HeadBefore))[0], "rev-parse");
    assert_eq!(args_of(&pull_effect("/w", &PullStage::Pulling { before: String::new() }))[0], "pull");
    assert_eq!(
        args_of(&pull_effect("/w", &PullStage::HeadAfter { before: String::new() }))[0],
        "rev-parse"
    );
}

#[test]
fn deploy_to_slot_writes_then_brings_up() {
    assert!(matches!(
        deploy_to_slot(ApplyStage::Overlay, &Outcome::Written(true)),
        Flow::Continue(ApplyStage::Stack)
    ));
    assert!(matches!(deploy_to_slot(ApplyStage::Stack, &exited(true, "")), Flow::Done(Ok(()))));
    assert!(matches!(
        deploy_to_slot(ApplyStage::Overlay, &Outcome::Written(false)),
        Flow::Done(Err(Failure::Infrastructure(Task::WriteOverlay)))
    ));
    assert!(matches!(
        deploy_to_slot(ApplyStage::Stack, &exited(false, "")),
        Flow::Done(Err(Failure::Infrastructure(Task::StackUp)))
    ));
    assert!(matches!(
        deploy_to_slot(ApplyStage::Stack, &Outcome::Unlaunched),
        Flow::Done(Err(Failure::Infrastructure(Task::StackUp)))
    ));
}

#[test]
fn health_wait_lists_then_inspects() {
    let flow = wait_healthy(5000, GateStage::Listing { started: 100 }, &exited(true, "abc\ndef\n"), 150);
    match flow {
        Flow::Continue(GateStage::Inspecting { started, ids }) => {
            assert_eq!(started, 100);
            assert_eq!(ids, vec!["abc".to_string(), "def".to_string()]);
        }
        other => panic!("unexpected: {:?}", other),
    }
}

#[test]
fn health_wait_sleeps_when_there_are_no_containers() {
    assert!(matches!(
        wait_healthy(5000, GateStage::Listing { started: 100 }, &exited(true, ""), 150),
        Flow::Continue(GateStage::Sleeping { started: 100 })
    ));
}

#[test]
fn health_wait_passes_on_a_healthy_report() {
    let stage = GateStage::Inspecting { started: 100, ids: vec!["abc".to_string()] };
    assert!(matches!(wait_healthy(5000, stage, &exited(true, "healthy\nnone\n"), 150), Flow::Done(Ok(()))));
}

#[test]
fn health_wait_fails_fast_on_an_unhealthy_container() {
    let stage = GateStage::Inspecting { started: 100, ids: vec!["abc".to_string()] };
    assert!(matches!(
        wait_healthy(1_000_000, stage, &exited(true, "healthy\nunhealthy\n"), 101),
        Flow::Done(Err(Failure::HealthUnhealthy))
    ));
}

#[test]
fn health_wait_sleeps_on_a_report_without_verdict() {
    let stage = GateStage::Inspecting { started: 100, ids: vec!["abc".to_string()] };
    assert!(matches!(
        wait_healthy(5000, stage, &exited(true, "starting\n"), 150),
        Flow::Continue(GateStage::Sleeping { started: 100 })
    ));
    let stage = GateStage::Inspecting { started: 100, ids: vec!["abc".to_string()] };
    assert!(matches!(
        wait_healthy(5000, stage, &exited(false, ""), 150),
        Flow::Continue(GateStage::Sleeping { started: 100 })
    ));
}

#[test]
fn health_wait_times_out_only_after_the_time_allowed() {
    assert!(matches!(
        wait_healthy(5000, GateStage::Sleeping { started: 100 }, &Outcome::Slept, 5100),
        Flow::Continue(GateStage::Listing { started: 100 })
    ));
    assert!(matches!(
        wait_healthy(5000, GateStage::Sleeping { started: 100 }, &Outcome::Slept, 5101),
        Flow::Done(Err(Failure::HealthTimeout))
    ));
    assert!(matches!(
        wait_healthy(5000, GateStage::Sleeping { started: 100 }, &Outcome::Slept, 50),
        Flow::Continue(GateStage::Listing { started: 100 })
    ));
    assert!(matches!(
        wait_healthy(u64::MAX, GateStage::Sleeping { started: 0 }, &Outcome::Slept, u64::MAX),
        Flow::Continue(GateStage::Listing { started: 0 })
    ));
}

#[test]
fn health_wait_fails_when_a_query_cannot_be_started() {
    assert!(matches!(
        wait_healthy(5000, GateStage::Listing { started: 100 }, &Outcome::Unlaunched, 150),
        Flow::Done(Err(Failure::Infrastructure(Task::QueryHealth)))
    ));
    let stage = GateStage::Inspecting { started: 100, ids: vec!["abc".to_string()] };
    assert!(matches!(
        wait_healthy(5000, stage, &Outcome::Unlaunched, 150),
        Flow::Done(Err(Failure::Infrastructure(Task::QueryHealth)))
    ));
}

#[test]
fn health_wait_effects() {
    assert_eq!(POLL_INTERVAL, 2000);
    assert_eq!(args_of(&wait_healthy_effect("p", &GateStage::Listing { started: 0 }))[0], "ps");
    let inspecting = GateStage::Inspecting { started: 0, ids: vec!["abc".to_string()] };
    assert_eq!(args_of(&wait_healthy_effect("p", &inspecting))[3], "abc");
    assert!(matches!(
        wait_healthy_effect("p", &GateStage::Sleeping { started: 0 }),
        Effect::Sleep { millis: 2000 }
    ));
}
