//! The deployment reconciler: the loop that watches one application's
//! repository and, when it moves, rolls the new build out to the idle slot,
//! waits for it to become healthy, and only then switches traffic to it.
//!
//! The loop is a function from a phase and the outcome of that phase's
//! effect to the next phase. The host performs the effects, one at a time,
//! and feeds triggers in only while the loop is idle.

use vstd::prelude::*;
use vstd::string::*;
use crate::docker::{
    compose_down, compose_up, spec_compose_down, spec_compose_up, spec_wait_healthy,
    spec_wait_healthy_effect, wait_healthy, wait_healthy_effect, GateStage, GateStageView,
};
use crate::git::{
    ensure_repo, ensure_repo_effect, pull, pull_effect, spec_ensure_repo, spec_ensure_repo_effect,
    spec_pull, spec_pull_effect, PullStage, PullStageView, RepoStage,
};
use crate::runtime::{Dir, DirView, Effect, EffectView, Failure, Flow, Outcome, OutcomeView, Task};
use crate::state::{load, loaded, record_text, save, PersistedState, Slot, STATE_FILE};
use crate::text::{push_owned, push_text, repo_name, spec_repo_name, texts};
use crate::traefik::{
    ensure_traefik, ensure_traefik_effect, generate_override, override_file, spec_ensure_traefik,
    spec_ensure_traefik_effect, spec_generate_override, spec_override_file, NetworkStage,
    ProxyStage,
};

verus! {

/// The reconciler of one application.
#[derive(Debug, Clone, Copy)]
pub struct Deployer;

/// What a reconciler is started with.
#[derive(Debug)]
pub struct DeployerArgs {
    /// Where the application's repository is cloned from.
    pub repo_url: String,
    /// The branch to follow.
    pub branch: String,
    /// The working directory that holds the clone.
    pub local_path: String,
    /// The stack's definition file, relative to the working directory.
    pub compose_file: String,
    /// The service that receives the public traffic.
    pub service: String,
    /// The public domain.
    pub domain: String,
    /// Milliseconds between two looks at the repository.
    pub interval: u64,
    /// Milliseconds that a candidate has to become healthy.
    pub health_timeout: u64,
}

pub struct DeployerArgsView {
    pub repo_url: Seq<char>,
    pub branch: Seq<char>,
    pub local_path: Seq<char>,
    pub compose_file: Seq<char>,
    pub service: Seq<char>,
    pub domain: Seq<char>,
    pub interval: u64,
    pub health_timeout: u64,
}

impl View for DeployerArgs {
    type V = DeployerArgsView;

    open spec fn view(&self) -> DeployerArgsView {
        DeployerArgsView {
            repo_url: self.repo_url@,
            branch: self.branch@,
            local_path: self.local_path@,
            compose_file: self.compose_file@,
            service: self.service@,
            domain: self.domain@,
            interval: self.interval,
            health_timeout: self.health_timeout,
        }
    }
}

/// What a reconciler knows: the application's configuration, which never
/// changes, and the slot that is live, which changes only when a rollout has
/// gone through.
#[derive(Debug)]
pub struct State {
    repo_url: String,
    branch: String,
    local_path: String,
    compose_file: String,
    service: String,
    domain: String,
    active_slot: Slot,
    health_timeout: u64,
    app_name: String,
}

pub struct StateView {
    pub repo_url: Seq<char>,
    pub branch: Seq<char>,
    pub local_path: Seq<char>,
    pub compose_file: Seq<char>,
    pub service: Seq<char>,
    pub domain: Seq<char>,
    pub active_slot: Slot,
    pub health_timeout: u64,
    pub app_name: Seq<char>,
}

impl View for State {
    type V = StateView;

    closed spec fn view(&self) -> StateView {
        StateView {
            repo_url: self.repo_url@,
            branch: self.branch@,
            local_path: self.local_path@,
            compose_file: self.compose_file@,
            service: self.service@,
            domain: self.domain@,
            active_slot: self.active_slot,
            health_timeout: self.health_timeout,
            app_name: self.app_name@,
        }
    }
}

/// What wakes a reconciler up.
#[derive(Debug, Clone, Copy, PartialEq, Eq, Structural)]
pub enum Message {
    /// The timer: roll out if the repository has moved.
    Tick,
    /// The operator: roll out whether it has moved or not.
    ForceRedeploy,
}

/// The name under which the runtime knows the stack of one slot of one
/// application.
pub open spec fn spec_project_name(app_name: Seq<char>, slot: Slot) -> Seq<char> {
    app_name + "-"@ + slot.name()
}

impl StateView {
    /// The project identity of `slot`.
    pub open spec fn project_name(self, slot: Slot) -> Seq<char> {
        spec_project_name(self.app_name, slot)
    }

    /// The definition files of the stack of `slot`: the application's own,
    /// then the slot's overlay.
    pub open spec fn compose_files(self, slot: Slot) -> Seq<Seq<char>> {
        seq![self.compose_file, spec_override_file(self.project_name(slot))]
    }

    /// This state with `slot` as the live one.
    pub open spec fn with_active(self, slot: Slot) -> StateView {
        StateView { active_slot: slot, ..self }
    }
}

/// The state that a reconciler begins with: the configuration it was given,
/// the application's name taken from the repository's URL, and the primary
/// slot as the live one until the record has been read.
pub open spec fn initial_state(args: DeployerArgsView) -> StateView {
    StateView {
        repo_url: args.repo_url,
        branch: args.branch,
        local_path: args.local_path,
        compose_file: args.compose_file,
        service: args.service,
        domain: args.domain,
        active_slot: Slot::Primary,
        health_timeout: args.health_timeout,
        app_name: spec_repo_name(args.repo_url),
    }
}

/// No two slots, of one application or of two, share a project identity.
pub proof fn lemma_project_names_differ(
    app_name: Seq<char>,
    slot: Slot,
    other_app: Seq<char>,
    other_slot: Slot,
)
    ensures
        spec_project_name(app_name, slot) == spec_project_name(other_app, other_slot) <==> (
        app_name == other_app && slot == other_slot),
{
    reveal_strlit("primary");
    reveal_strlit("secondary");
    reveal_strlit("-");
    let a = spec_project_name(app_name, slot);
    let b = spec_project_name(other_app, other_slot);
    if a == b {
        assert(a.len() == app_name.len() + 1 + slot.name().len());
        assert(b.len() == other_app.len() + 1 + other_slot.name().len());
        if slot != other_slot {
            let primary = spec_project_name(
                if slot == Slot::Primary {
                    app_name
                } else {
                    other_app
                },
                Slot::Primary,
            );
            let secondary = spec_project_name(
                if slot == Slot::Primary {
                    other_app
                } else {
                    app_name
                },
                Slot::Secondary,
            );
            assert(primary == secondary);
            assert(primary[primary.len() - 8] == '-');
            assert(secondary[secondary.len() - 8] == 'e');
        } else {
            assert forall|i: int| 0 <= i < app_name.len() implies app_name[i] == other_app[i] by {
                assert(a[i] == app_name[i]);
                assert(b[i] == other_app[i]);
            }
            assert(app_name =~= other_app);
        }
    }
}

impl State {
    /// The slot that is live.
    pub fn active_slot(&self) -> (slot: Slot)
        ensures
            slot == self@.active_slot,
    {
        self.active_slot
    }

    /// The application's name.
    pub fn app_name(&self) -> (name: &str)
        ensures
            name@ == self@.app_name,
    {
        self.app_name.as_str()
    }

    /// Where the application's repository is cloned from.
    pub fn repo_url(&self) -> (url: &str)
        ensures
            url@ == self@.repo_url,
    {
        self.repo_url.as_str()
    }

    /// The project identity of `slot`.
    pub fn project_name(&self, slot: Slot) -> (name: String)
        ensures
            name@ == self@.project_name(slot),
    {
        let mut name = String::from_str(self.app_name.as_str());
        name.append("-");
        name.append(slot.as_str());
        name
    }

    /// The definition files of the stack of `slot`.
    fn compose_files(&self, slot: Slot) -> (files: Vec<String>)
        ensures
            texts(files@) == self@.compose_files(slot),
    {
        let project = self.project_name(slot);
        let mut files: Vec<String> = Vec::new();
        push_text(&mut files, self.compose_file.as_str());
        push_owned(&mut files, override_file(project.as_str()));
        files
    }
}

/// Where applying a slot's posture stands.
#[derive(Debug, Clone, Copy, PartialEq, Eq, Structural)]
pub enum ApplyStage {
    /// Writing the slot's overlay.
    Overlay,
    /// Bringing the slot's stack up with it.
    Stack,
}

impl View for ApplyStage {
    type V = ApplyStage;

    open spec fn view(&self) -> ApplyStage {
        *self
    }
}

/// The effect that `deploy_to_slot` waits for at `stage`: the overlay of
/// `slot` in the posture `active`, then the stack of `slot` brought up from
/// the application's definition and that overlay.
pub open spec fn spec_deploy_to_slot_effect(
    state: StateView,
    slot: Slot,
    active: bool,
    stage: ApplyStage,
) -> EffectView {
    match stage {
        ApplyStage::Overlay => spec_generate_override(
            state.local_path,
            state.service,
            state.domain,
            state.project_name(slot),
            active,
        ),
        ApplyStage::Stack => EffectView::Run(
            spec_compose_up(state.local_path, state.compose_files(slot), state.project_name(slot)),
        ),
    }
}

/// Where applying a slot's posture stands after `outcome`.
pub open spec fn spec_deploy_to_slot(stage: ApplyStage, outcome: OutcomeView) -> Flow<
    ApplyStage,
    (),
> {
    match stage {
        ApplyStage::Overlay => match outcome {
            OutcomeView::Written(true) => Flow::Continue(ApplyStage::Stack),
            _ => Flow::Done(Err(Failure::Infrastructure(Task::WriteOverlay))),
        },
        ApplyStage::Stack => if outcome.succeeded() {
            Flow::Done(Ok(()))
        } else {
            Flow::Done(Err(Failure::Infrastructure(Task::StackUp)))
        },
    }
}

/// The effect that `deploy_to_slot` waits for at `stage`.
pub fn deploy_to_slot_effect(state: &State, slot: Slot, active: bool, stage: ApplyStage) -> (effect:
    Effect)
    ensures
        effect@ == spec_deploy_to_slot_effect(state@, slot, active, stage),
{
    let project = state.project_name(slot);
    match stage {
        ApplyStage::Overlay => generate_override(
            state.local_path.as_str(),
            state.service.as_str(),
            state.domain.as_str(),
            project.as_str(),
            active,
        ),
        ApplyStage::Stack => {
            let files = state.compose_files(slot);
            Effect::Run(compose_up(state.local_path.as_str(), &files, project.as_str()))
        },
    }
}

/// One step of applying a posture to a slot, which begins at
/// `ApplyStage::Overlay`.
pub fn deploy_to_slot(stage: ApplyStage, outcome: &Outcome) -> (flow: Flow<ApplyStage, ()>)
    ensures
        flow == spec_deploy_to_slot(stage, outcome@),
{
    match stage {
        ApplyStage::Overlay => match outcome {
            Outcome::Written(true) => Flow::Continue(ApplyStage::Stack),
            _ => Flow::Done(Err(Failure::Infrastructure(Task::WriteOverlay))),
        },
        ApplyStage::Stack => {
            if outcome.succeeded() {
                Flow::Done(Ok(()))
            } else {
                Flow::Done(Err(Failure::Infrastructure(Task::StackUp)))
            }
        },
    }
}

/// Where a blue-green rollout stands. The candidate is the slot that is not
/// live.
#[derive(Debug)]
pub enum Rollout {
    /// Bringing the candidate up, out of routing.
    Deploying(ApplyStage),
    /// Waiting for the candidate to become healthy.
    HealthGating(GateStage),
    /// Taking the candidate down again, because the health gate failed with this.
    RollingBack(Failure),
    /// Applying the routed posture to the candidate: the cutover.
    CuttingOver(ApplyStage),
    /// Applying the standby posture to the slot that was live.
    DemotingStandby(ApplyStage),
    /// Writing the record that names the candidate as live; `demoted` says
    /// whether the slot that was live took the standby posture.
    Persisting { demoted: bool },
}

pub enum RolloutView {
    Deploying(ApplyStage),
    HealthGating(GateStageView),
    RollingBack(Failure),
    CuttingOver(ApplyStage),
    DemotingStandby(ApplyStage),
    Persisting { demoted: bool },
}

impl View for Rollout {
    type V = RolloutView;

    open spec fn view(&self) -> RolloutView {
        match self {
            Rollout::Deploying(stage) => RolloutView::Deploying(*stage),
            Rollout::HealthGating(stage) => RolloutView::HealthGating(stage@),
            Rollout::RollingBack(failure) => RolloutView::RollingBack(*failure),
            Rollout::CuttingOver(stage) => RolloutView::CuttingOver(*stage),
            Rollout::DemotingStandby(stage) => RolloutView::DemotingStandby(*stage),
            Rollout::Persisting { demoted } => RolloutView::Persisting { demoted: *demoted },
        }
    }
}

/// What a rollout that went through has done.
#[derive(Debug, Clone, Copy, PartialEq, Eq, Structural)]
pub struct Promotion {
    /// The slot that is live now.
    pub slot: Slot,
    /// Whether the slot that was live before took the standby posture. Where
    /// it did not, it may stay routed until an operator forces a rollout.
    pub standby_demoted: bool,
}

/// The effect that a rollout waits for at `stage`.
pub open spec fn spec_blue_green_deploy_effect(state: StateView, stage: RolloutView) -> EffectView {
    let live = state.active_slot;
    let candidate = state.active_slot.spec_other();
    match stage {
        RolloutView::Deploying(stage) => spec_deploy_to_slot_effect(state, candidate, false, stage),
        RolloutView::HealthGating(stage) => spec_wait_healthy_effect(
            state.project_name(candidate),
            stage,
        ),
        RolloutView::RollingBack(_) => EffectView::Run(
            spec_compose_down(
                state.local_path,
                state.compose_files(candidate),
                state.project_name(candidate),
            ),
        ),
        RolloutView::CuttingOver(stage) => spec_deploy_to_slot_effect(
            state,
            candidate,
            true,
            stage,
        ),
        RolloutView::DemotingStandby(stage) => spec_deploy_to_slot_effect(
            state,
            live,
            false,
            stage,
        ),
        RolloutView::Persisting { .. } => EffectView::Write {
            dir: DirView::At(state.local_path),
            name: STATE_FILE@,
            content: record_text(candidate),
        },
    }
}

/// Where a rollout stands after `outcome` arrived at `now`.
///
/// The candidate is brought up out of routing; a failure there ends the
/// rollout. Then the health gate runs, its clock started when the candidate
/// came up. A gate that fails, for whatever reason, leads to the candidate's
/// teardown, after which the rollout ends with the health gate's failure, whatever
/// came of the teardown. A gate that passes leads to the cutover; a failure
/// there ends the rollout. Then the slot that was live is demoted, and
/// whether or not that worked the record is written. The rollout ends well
/// only when the record is written.
pub open spec fn spec_blue_green_deploy(
    state: StateView,
    stage: RolloutView,
    outcome: OutcomeView,
    now: u64,
) -> Flow<RolloutView, Promotion> {
    match stage {
        RolloutView::Deploying(stage) => match spec_deploy_to_slot(stage, outcome) {
            Flow::Continue(next) => Flow::Continue(RolloutView::Deploying(next)),
            Flow::Done(Ok(_)) => Flow::Continue(
                RolloutView::HealthGating(GateStageView::Listing { started: now }),
            ),
            Flow::Done(Err(failure)) => Flow::Done(Err(failure)),
        },
        RolloutView::HealthGating(stage) => match spec_wait_healthy(
            state.health_timeout,
            stage,
            outcome,
            now,
        ) {
            Flow::Continue(next) => Flow::Continue(RolloutView::HealthGating(next)),
            Flow::Done(Ok(_)) => Flow::Continue(RolloutView::CuttingOver(ApplyStage::Overlay)),
            Flow::Done(Err(failure)) => Flow::Continue(RolloutView::RollingBack(failure)),
        },
        RolloutView::RollingBack(failure) => Flow::Done(Err(failure)),
        RolloutView::CuttingOver(stage) => match spec_deploy_to_slot(stage, outcome) {
            Flow::Continue(next) => Flow::Continue(RolloutView::CuttingOver(next)),
            Flow::Done(Ok(_)) => Flow::Continue(RolloutView::DemotingStandby(ApplyStage::Overlay)),
            Flow::Done(Err(failure)) => Flow::Done(Err(failure)),
        },
        RolloutView::DemotingStandby(stage) => match spec_deploy_to_slot(stage, outcome) {
            Flow::Continue(next) => Flow::Continue(RolloutView::DemotingStandby(next)),
            Flow::Done(result) => Flow::Continue(RolloutView::Persisting { demoted: result is Ok }),
        },
        RolloutView::Persisting { demoted } => match outcome {
            OutcomeView::Written(true) => Flow::Done(
                Ok(Promotion { slot: state.active_slot.spec_other(), standby_demoted: demoted }),
            ),
            _ => Flow::Done(Err(Failure::StateIo)),
        },
    }
}

/// The effect that a rollout waits for at `stage`.
pub fn blue_green_deploy_effect(state: &State, stage: &Rollout) -> (effect: Effect)
    ensures
        effect@ == spec_blue_green_deploy_effect(state@, stage@),
{
    let live = state.active_slot;
    let candidate = state.active_slot.other();
    match stage {
        Rollout::Deploying(stage) => deploy_to_slot_effect(state, candidate, false, *stage),
        Rollout::HealthGating(stage) => {
            let project = state.project_name(candidate);
            wait_healthy_effect(project.as_str(), stage)
        },
        Rollout::RollingBack(_) => {
            let project = state.project_name(candidate);
            let files = state.compose_files(candidate);
            Effect::Run(compose_down(state.local_path.as_str(), &files, project.as_str()))
        },
        Rollout::CuttingOver(stage) => deploy_to_slot_effect(state, candidate, true, *stage),
        Rollout::DemotingStandby(stage) => deploy_to_slot_effect(state, live, false, *stage),
        Rollout::Persisting { .. } => Effect::Write {
            dir: Dir::At(state.local_path.clone()),
            name: String::from_str(STATE_FILE),
            content: save(&PersistedState { active_slot: candidate }),
        },
    }
}

/// One step of a blue-green rollout, which begins at
/// `Rollout::Deploying(ApplyStage::Overlay)`. The state is only read: the
/// caller makes the promoted slot the live one when the rollout has ended
/// well.
pub fn blue_green_deploy(state: &State, stage: Rollout, outcome: &Outcome, now: u64) -> (flow: Flow<
    Rollout,
    Promotion,
>)
    ensures
        flow@ == spec_blue_green_deploy(state@, stage@, outcome@, now),
{
    match stage {
        Rollout::Deploying(stage) => match deploy_to_slot(stage, outcome) {
            Flow::Continue(next) => Flow::Continue(Rollout::Deploying(next)),
            Flow::Done(Ok(_)) => Flow::Continue(
                Rollout::HealthGating(GateStage::Listing { started: now }),
            ),
            Flow::Done(Err(failure)) => Flow::Done(Err(failure)),
        },
        Rollout::HealthGating(stage) => match wait_healthy(
            state.health_timeout,
            stage,
            outcome,
            now,
        ) {
            Flow::Continue(next) => Flow::Continue(Rollout::HealthGating(next)),
            Flow::Done(Ok(_)) => Flow::Continue(Rollout::CuttingOver(ApplyStage::Overlay)),
            Flow::Done(Err(failure)) => Flow::Continue(Rollout::RollingBack(failure)),
        },
        Rollout::RollingBack(failure) => Flow::Done(Err(failure)),
        Rollout::CuttingOver(stage) => match deploy_to_slot(stage, outcome) {
            Flow::Continue(next) => Flow::Continue(Rollout::CuttingOver(next)),
            Flow::Done(Ok(_)) => Flow::Continue(Rollout::DemotingStandby(ApplyStage::Overlay)),
            Flow::Done(Err(failure)) => Flow::Done(Err(failure)),
        },
        Rollout::DemotingStandby(stage) => match deploy_to_slot(stage, outcome) {
            Flow::Continue(next) => Flow::Continue(Rollout::DemotingStandby(next)),
            Flow::Done(result) => Flow::Continue(Rollout::Persisting { demoted: result.is_ok() }),
        },
        Rollout::Persisting { demoted } => match outcome {
            Outcome::Written(true) => Flow::Done(
                Ok(Promotion { slot: state.active_slot.other(), standby_demoted: demoted }),
            ),
            _ => Flow::Done(Err(Failure::StateIo)),
        },
    }
}

/// Where a reconciler stands: idle, or waiting for the outcome of one
/// effect.
#[derive(Debug)]
pub enum Phase {
    /// Bootstrap: making sure that the network and the proxy are there.
    EnsuringProxy(ProxyStage),
    /// Bootstrap: making sure that the repository is there.
    EnsuringRepo(RepoStage),
    /// Bootstrap: reading the record of the live slot.
    LoadingRecord,
    /// Bootstrap: bringing the live slot up, routed.
    InitialDeploy(ApplyStage),
    /// Waiting for a trigger.
    Idle,
    /// Pulling the repository to see whether it has moved.
    CheckingForChange(PullStage),
    /// Rolling a new build out.
    Rolling(Rollout),
}

pub enum PhaseView {
    EnsuringProxy(ProxyStage),
    EnsuringRepo(RepoStage),
    LoadingRecord,
    InitialDeploy(ApplyStage),
    Idle,
    CheckingForChange(PullStageView),
    Rolling(RolloutView),
}

impl View for Phase {
    type V = PhaseView;

    open spec fn view(&self) -> PhaseView {
        match self {
            Phase::EnsuringProxy(stage) => PhaseView::EnsuringProxy(*stage),
            Phase::EnsuringRepo(stage) => PhaseView::EnsuringRepo(*stage),
            Phase::LoadingRecord => PhaseView::LoadingRecord,
            Phase::InitialDeploy(stage) => PhaseView::InitialDeploy(*stage),
            Phase::Idle => PhaseView::Idle,
            Phase::CheckingForChange(stage) => PhaseView::CheckingForChange(stage@),
            Phase::Rolling(stage) => PhaseView::Rolling(stage@),
        }
    }
}

/// What a reconciler has to tell when a piece of its work has ended.
#[derive(Debug, Clone, Copy, PartialEq, Eq, Structural)]
pub enum Notice {
    /// The network or the proxy could not be made sure of; the bootstrap goes
    /// on.
    ProxyFailed(Failure),
    /// The repository could not be made sure of; the bootstrap goes on.
    RepositoryFailed(Failure),
    /// The live slot could not be brought up at the start; the loop starts
    /// all the same.
    InitialDeployFailed(Failure),
    /// The repository has not moved.
    NoUpdates,
    /// The repository has moved; a rollout begins.
    UpdatesFound,
    /// The pull failed; nothing is rolled out.
    PullFailed(Failure),
    /// The rollout went through.
    Deployed(Promotion),
    /// The rollout failed; the reconciler holds as live the slot that it
    /// held before.
    DeployFailed(Failure),
}

/// The phase that follows an outcome, and what there is to tell.
#[derive(Debug)]
pub struct Step {
    pub phase: Phase,
    pub notice: Option<Notice>,
}

pub struct StepView {
    pub phase: PhaseView,
    pub notice: Option<Notice>,
}

impl View for Step {
    type V = StepView;

    open spec fn view(&self) -> StepView {
        StepView { phase: self.phase@, notice: self.notice }
    }
}

/// The phase that a reconciler begins in: the first step of its bootstrap.
pub open spec fn first_phase() -> PhaseView {
    PhaseView::EnsuringProxy(ProxyStage::Network(NetworkStage::Inspecting))
}

/// The phase that a trigger leads to from idle: the timer to a pull, the
/// operator straight to a rollout.
pub open spec fn spec_handle(message: Message) -> PhaseView {
    match message {
        Message::Tick => PhaseView::CheckingForChange(PullStageView::HeadBefore),
        Message::ForceRedeploy => PhaseView::Rolling(RolloutView::Deploying(ApplyStage::Overlay)),
    }
}

/// The effect that a reconciler waits for in `phase`; none while idle.
pub open spec fn spec_effect(state: StateView, phase: PhaseView) -> Option<EffectView> {
    match phase {
        PhaseView::EnsuringProxy(stage) => Some(spec_ensure_traefik_effect(stage)),
        PhaseView::EnsuringRepo(stage) => Some(
            spec_ensure_repo_effect(state.local_path, state.repo_url, state.branch, stage),
        ),
        PhaseView::LoadingRecord => Some(
            EffectView::Read { dir: DirView::At(state.local_path), name: STATE_FILE@ },
        ),
        PhaseView::InitialDeploy(stage) => Some(
            spec_deploy_to_slot_effect(state, state.active_slot, true, stage),
        ),
        PhaseView::Idle => None,
        PhaseView::CheckingForChange(stage) => Some(spec_pull_effect(state.local_path, stage)),
        PhaseView::Rolling(stage) => Some(spec_blue_green_deploy_effect(state, stage)),
    }
}

/// The text of the record that an outcome hands over; none where the
/// outcome is not a file's text.
pub open spec fn record_read(outcome: OutcomeView) -> Option<Seq<char>> {
    match outcome {
        OutcomeView::Content(text) => text,
        _ => None,
    }
}

/// The state and the step that follow `outcome`, which arrived at `now` in
/// `phase`.
///
/// The bootstrap goes through the proxy, the repository, the record and the
/// first deployment in this order; a part that fails is told and the next
/// one begins. The record that was read decides which slot is live. While
/// idle nothing is waited for, and an outcome changes nothing. A pull that
/// finds updates leads to a rollout; one that finds none, or fails, leads
/// back to idle. A rollout that goes through makes the promoted slot the
/// live one; one that fails leaves the state as it was. Nothing else ever
/// changes the state.
pub open spec fn spec_advance(
    state: StateView,
    phase: PhaseView,
    outcome: OutcomeView,
    now: u64,
) -> (StateView, StepView) {
    match phase {
        PhaseView::EnsuringProxy(stage) => match spec_ensure_traefik(stage, outcome) {
            Flow::Continue(next) => (
                state,
                StepView { phase: PhaseView::EnsuringProxy(next), notice: None },
            ),
            Flow::Done(Ok(_)) => (
                state,
                StepView { phase: PhaseView::EnsuringRepo(RepoStage::Probing), notice: None },
            ),
            Flow::Done(Err(failure)) => (
                state,
                StepView {
                    phase: PhaseView::EnsuringRepo(RepoStage::Probing),
                    notice: Some(Notice::ProxyFailed(failure)),
                },
            ),
        },
        PhaseView::EnsuringRepo(stage) => match spec_ensure_repo(stage, outcome) {
            Flow::Continue(next) => (
                state,
                StepView { phase: PhaseView::EnsuringRepo(next), notice: None },
            ),
            Flow::Done(Ok(_)) => (
                state,
                StepView { phase: PhaseView::LoadingRecord, notice: None },
            ),
            Flow::Done(Err(failure)) => (
                state,
                StepView {
                    phase: PhaseView::LoadingRecord,
                    notice: Some(Notice::RepositoryFailed(failure)),
                },
            ),
        },
        PhaseView::LoadingRecord => (
            state.with_active(loaded(record_read(outcome))),
            StepView { phase: PhaseView::InitialDeploy(ApplyStage::Overlay), notice: None },
        ),
        PhaseView::InitialDeploy(stage) => match spec_deploy_to_slot(stage, outcome) {
            Flow::Continue(next) => (
                state,
                StepView { phase: PhaseView::InitialDeploy(next), notice: None },
            ),
            Flow::Done(Ok(_)) => (state, StepView { phase: PhaseView::Idle, notice: None }),
            Flow::Done(Err(failure)) => (
                state,
                StepView {
                    phase: PhaseView::Idle,
                    notice: Some(Notice::InitialDeployFailed(failure)),
                },
            ),
        },
        PhaseView::Idle => (state, StepView { phase: PhaseView::Idle, notice: None }),
        PhaseView::CheckingForChange(stage) => match spec_pull(stage, outcome) {
            Flow::Continue(next) => (
                state,
                StepView { phase: PhaseView::CheckingForChange(next), notice: None },
            ),
            Flow::Done(Ok(true)) => (
                state,
                StepView {
                    phase: PhaseView::Rolling(RolloutView::Deploying(ApplyStage::Overlay)),
                    notice: Some(Notice::UpdatesFound),
                },
            ),
            Flow::Done(Ok(false)) => (
                state,
                StepView { phase: PhaseView::Idle, notice: Some(Notice::NoUpdates) },
            ),
            Flow::Done(Err(failure)) => (
                state,
                StepView { phase: PhaseView::Idle, notice: Some(Notice::PullFailed(failure)) },
            ),
        },
        PhaseView::Rolling(stage) => match spec_blue_green_deploy(state, stage, outcome, now) {
            Flow::Continue(next) => (
                state,
                StepView { phase: PhaseView::Rolling(next), notice: None },
            ),
            Flow::Done(Ok(promotion)) => (
                state.with_active(promotion.slot),
                StepView { phase: PhaseView::Idle, notice: Some(Notice::Deployed(promotion)) },
            ),
            Flow::Done(Err(failure)) => (
                state,
                StepView { phase: PhaseView::Idle, notice: Some(Notice::DeployFailed(failure)) },
            ),
        },
    }
}

impl Deployer {
    /// The state and the phase that a reconciler begins with.
    pub fn pre_start(args: DeployerArgs) -> (start: (State, Phase))
        ensures
            start.0@ == initial_state(args@),
            start.1@ == first_phase(),
    {
        let app_name = repo_name(args.repo_url.as_str());
        let state = State {
            repo_url: args.repo_url,
            branch: args.branch,
            local_path: args.local_path,
            compose_file: args.compose_file,
            service: args.service,
            domain: args.domain,
            active_slot: Slot::Primary,
            health_timeout: args.health_timeout,
            app_name,
        };
        (state, Phase::EnsuringProxy(ProxyStage::Network(NetworkStage::Inspecting)))
    }

    /// The phase that `message` leads to from idle. The host hands a trigger
    /// over only while the reconciler is idle, one at a time.
    pub fn handle(message: Message) -> (phase: Phase)
        ensures
            phase@ == spec_handle(message),
    {
        match message {
            Message::Tick => Phase::CheckingForChange(PullStage::HeadBefore),
            Message::ForceRedeploy => Phase::Rolling(Rollout::Deploying(ApplyStage::Overlay)),
        }
    }

    /// The effect that the host is to perform in `phase`; none while idle.
    pub fn effect(state: &State, phase: &Phase) -> (effect: Option<Effect>)
        ensures
            spec_effect(state@, phase@) == (match effect {
                Some(effect) => Some(effect@),
                None => None,
            }),
    {
        match phase {
            Phase::EnsuringProxy(stage) => Some(ensure_traefik_effect(*stage)),
            Phase::EnsuringRepo(stage) => Some(
                ensure_repo_effect(
                    state.local_path.as_str(),
                    state.repo_url.as_str(),
                    state.branch.as_str(),
                    *stage,
                ),
            ),
            Phase::LoadingRecord => Some(
                Effect::Read {
                    dir: Dir::At(state.local_path.clone()),
                    name: String::from_str(STATE_FILE),
                },
            ),
            Phase::InitialDeploy(stage) => Some(
                deploy_to_slot_effect(state, state.active_slot, true, *stage),
            ),
            Phase::Idle => None,
            Phase::CheckingForChange(stage) => Some(pull_effect(state.local_path.as_str(), stage)),
            Phase::Rolling(stage) => Some(blue_green_deploy_effect(state, stage)),
        }
    }

    /// Takes in `outcome`, which the effect of `phase` had at `now` on the
    /// host's clock, in milliseconds, and says which phase follows.
    pub fn advance(state: &mut State, phase: Phase, outcome: &Outcome, now: u64) -> (step: Step)
        ensures
            (final(state)@, step@) == spec_advance(old(state)@, phase@, outcome@, now),
    {
        match phase {
            Phase::EnsuringProxy(stage) => match ensure_traefik(stage, outcome) {
                Flow::Continue(next) => Step { phase: Phase::EnsuringProxy(next), notice: None },
                Flow::Done(Ok(_)) => Step {
                    phase: Phase::EnsuringRepo(RepoStage::Probing),
                    notice: None,
                },
                Flow::Done(Err(failure)) => Step {
                    phase: Phase::EnsuringRepo(RepoStage::Probing),
                    notice: Some(Notice::ProxyFailed(failure)),
                },
            },
            Phase::EnsuringRepo(stage) => match ensure_repo(stage, outcome) {
                Flow::Continue(next) => Step { phase: Phase::EnsuringRepo(next), notice: None },
                Flow::Done(Ok(_)) => Step { phase: Phase::LoadingRecord, notice: None },
                Flow::Done(Err(failure)) => Step {
                    phase: Phase::LoadingRecord,
                    notice: Some(Notice::RepositoryFailed(failure)),
                },
            },
            Phase::LoadingRecord => {
                let record = match outcome {
                    Outcome::Content(Some(text)) => load(Some(text.as_str())),
                    _ => load(None),
                };
                state.active_slot = record.active_slot;
                Step { phase: Phase::InitialDeploy(ApplyStage::Overlay), notice: None }
            },
            Phase::InitialDeploy(stage) => match deploy_to_slot(stage, outcome) {
                Flow::Continue(next) => Step { phase: Phase::InitialDeploy(next), notice: None },
                Flow::Done(Ok(_)) => Step { phase: Phase::Idle, notice: None },
                Flow::Done(Err(failure)) => Step {
                    phase: Phase::Idle,
                    notice: Some(Notice::InitialDeployFailed(failure)),
                },
            },
            Phase::Idle => Step { phase: Phase::Idle, notice: None },
            Phase::CheckingForChange(stage) => match pull(stage, outcome) {
                Flow::Continue(next) => Step {
                    phase: Phase::CheckingForChange(next),
                    notice: None,
                },
                Flow::Done(Ok(true)) => Step {
                    phase: Phase::Rolling(Rollout::Deploying(ApplyStage::Overlay)),
                    notice: Some(Notice::UpdatesFound),
                },
                Flow::Done(Ok(false)) => Step {
                    phase: Phase::Idle,
                    notice: Some(Notice::NoUpdates),
                },
                Flow::Done(Err(failure)) => Step {
                    phase: Phase::Idle,
                    notice: Some(Notice::PullFailed(failure)),
                },
            },
            Phase::Rolling(stage) => match blue_green_deploy(state, stage, outcome, now) {
                Flow::Continue(next) => Step { phase: Phase::Rolling(next), notice: None },
                Flow::Done(Ok(promotion)) => {
                    state.active_slot = promotion.slot;
                    Step { phase: Phase::Idle, notice: Some(Notice::Deployed(promotion)) }
                },
                Flow::Done(Err(failure)) => Step {
                    phase: Phase::Idle,
                    notice: Some(Notice::DeployFailed(failure)),
                },
            },
        }
    }
}

} // verus!
