//! What the reconciler's effects do to the world outside, and what follows
//! for every run of the loop: which slot a completed rollout leaves routed
//! and recorded, and what a failed one leaves untouched.

use vstd::prelude::*;
use crate::actors::deployer::{
    first_phase, initial_state, lemma_project_names_differ, spec_advance,
    spec_blue_green_deploy_effect, spec_deploy_to_slot_effect, spec_effect, spec_handle,
    ApplyStage, DeployerArgsView, Message, Notice, PhaseView, Promotion, RolloutView, StateView,
};
use crate::docker::{
    spec_compose_down, spec_compose_up, spec_wait_healthy, spec_wait_healthy_effect,
    GateStageView,
};
use crate::git::{spec_pull_effect, PullStageView};
use crate::runtime::{CommandView, DirView, EffectView, Failure, Flow, OutcomeView, Task};
use crate::state::{lemma_record_round_trip, loaded, record_text, Slot, STATE_FILE};
use crate::traefik::{
    lemma_override_files_differ, lemma_postures_differ, overlay_text, routed_overlay,
    spec_override_file, standby_overlay,
};

verus! {

/// What the runtime holds of one project.
pub enum Stack {
    /// Nothing.
    Absent,
    /// Its containers, brought up last with the overlay that read so.
    Up(Option<Seq<char>>),
    /// What a command that failed has left.
    Unsettled,
}

/// The world outside, as far as the reconciler changes it: the files it
/// writes, and the stacks it brings up and takes down.
pub struct World {
    /// The text of each file, by directory and name.
    pub files: Map<(DirView, Seq<char>), Seq<char>>,
    /// What the runtime holds of each project, by its identity.
    pub stacks: Map<Seq<char>, Stack>,
}

impl World {
    /// The text of the file `name` in `dir`, if it is there.
    pub open spec fn text(self, dir: DirView, name: Seq<char>) -> Option<Seq<char>> {
        if self.files.dom().contains((dir, name)) {
            Some(self.files[(dir, name)])
        } else {
            None
        }
    }

    /// What the runtime holds of `project`.
    pub open spec fn stack(self, project: Seq<char>) -> Stack {
        if self.stacks.dom().contains(project) {
            self.stacks[project]
        } else {
            Stack::Absent
        }
    }

    /// The record of the live slot in the working directory of `state`.
    pub open spec fn record_of(self, state: StateView) -> Option<Seq<char>> {
        self.text(DirView::At(state.local_path), STATE_FILE@)
    }

    /// The overlay of `slot`.
    pub open spec fn overlay_of(self, state: StateView, slot: Slot) -> Option<Seq<char>> {
        self.text(DirView::At(state.local_path), spec_override_file(state.project_name(slot)))
    }

    /// What the runtime holds of `slot`.
    pub open spec fn stack_of(self, state: StateView, slot: Slot) -> Stack {
        self.stack(state.project_name(slot))
    }
}

/// The definition files that the arguments of a stack command name, where
/// `tail` arguments follow them.
pub open spec fn named_files(args: Seq<Seq<char>>, tail: int) -> Seq<Seq<char>> {
    Seq::new(((args.len() - 3 - tail) / 2) as nat, |i: int| args[4 + 2 * i])
}

/// Whether `command` brings a stack up.
pub open spec fn is_compose_up(command: CommandView) -> bool {
    &&& command.args.len() >= 7
    &&& command.cwd matches Some(DirView::At(cwd)) && command == spec_compose_up(
        cwd,
        named_files(command.args, 4),
        command.args[2],
    )
}

/// Whether `command` takes a stack down.
pub open spec fn is_compose_down(command: CommandView) -> bool {
    &&& command.args.len() >= 4
    &&& command.cwd matches Some(DirView::At(cwd)) && command == spec_compose_down(
        cwd,
        named_files(command.args, 1),
        command.args[2],
    )
}

/// The world after the host has performed `effect` with `outcome`.
///
/// A file that was written reads as it was written; one that could not be
/// written reads as before. A stack that was brought up is up with the text
/// of the last of its definition files, the overlay; one that was taken down
/// is absent; a command on a stack that failed leaves the stack unsettled.
/// Nothing else changes what the world holds.
pub open spec fn world_after(world: World, effect: EffectView, outcome: OutcomeView) -> World {
    match effect {
        EffectView::Write { dir, name, content } => if outcome == OutcomeView::Written(true) {
            World { files: world.files.insert((dir, name), content), ..world }
        } else {
            world
        },
        EffectView::Run(command) => if is_compose_up(command) {
            let overlay = world.text(command.cwd->0, named_files(command.args, 4).last());
            World {
                stacks: world.stacks.insert(
                    command.args[2],
                    if outcome.succeeded() {
                        Stack::Up(overlay)
                    } else {
                        Stack::Unsettled
                    },
                ),
                ..world
            }
        } else if is_compose_down(command) {
            World {
                stacks: world.stacks.insert(
                    command.args[2],
                    if outcome.succeeded() {
                        Stack::Absent
                    } else {
                        Stack::Unsettled
                    },
                ),
                ..world
            }
        } else {
            world
        },
        _ => world,
    }
}

/// A reconciler together with the world that its host acts on. `notice` is
/// what the reconciler told last since the latest trigger.
pub struct System {
    pub state: StateView,
    pub phase: PhaseView,
    pub world: World,
    pub notice: Option<Notice>,
}

/// The system after `message` has been handed to its reconciler.
pub open spec fn triggered(system: System, message: Message) -> System {
    System { phase: spec_handle(message), notice: None, ..system }
}

/// One round of the loop: the host performs the effect of the phase, with
/// `outcome`, and the reconciler takes the outcome in at `now`.
pub open spec fn round(system: System, outcome: OutcomeView, now: u64) -> System {
    let world = match spec_effect(system.state, system.phase) {
        Some(effect) => world_after(system.world, effect, outcome),
        None => system.world,
    };
    let next = spec_advance(system.state, system.phase, outcome, now);
    System {
        state: next.0,
        phase: next.1.phase,
        world,
        notice: if next.1.notice is Some {
            next.1.notice
        } else {
            system.notice
        },
    }
}

/// The system after the rounds of `trace`, each an outcome and the time at
/// which it arrived.
pub open spec fn run(system: System, trace: Seq<(OutcomeView, u64)>) -> System
    decreases trace.len(),
{
    if trace.len() == 0 {
        system
    } else {
        run(round(system, trace[0].0, trace[0].1), trace.drop_first())
    }
}

/// The command that brings a stack up is taken for what it is, with the
/// files and the project that it was made for.
pub proof fn lemma_compose_up_recognised(cwd: Seq<char>, files: Seq<Seq<char>>, project: Seq<char>)
    ensures
        is_compose_up(spec_compose_up(cwd, files, project)),
        !is_compose_down(spec_compose_up(cwd, files, project)),
        named_files(spec_compose_up(cwd, files, project).args, 4) == files,
        spec_compose_up(cwd, files, project).args[2] == project,
{
    let command = spec_compose_up(cwd, files, project);
    let args = command.args;
    assert(named_files(args, 4) =~= files);
}

/// The command that takes a stack down is taken for what it is.
pub proof fn lemma_compose_down_recognised(
    cwd: Seq<char>,
    files: Seq<Seq<char>>,
    project: Seq<char>,
)
    ensures
        is_compose_down(spec_compose_down(cwd, files, project)),
        !is_compose_up(spec_compose_down(cwd, files, project)),
        spec_compose_down(cwd, files, project).args[2] == project,
{
    let command = spec_compose_down(cwd, files, project);
    let args = command.args;
    assert(named_files(args, 1) =~= files);
}

/// The health gate changes nothing in the world, whatever it does.
pub proof fn lemma_gate_leaves_world(
    world: World,
    project: Seq<char>,
    stage: GateStageView,
    outcome: OutcomeView,
)
    ensures
        world_after(world, spec_wait_healthy_effect(project, stage), outcome) == world,
{
    reveal_strlit("compose");
    reveal_strlit("inspect");
    assert("inspect"@[0] != "compose"@[0]);
}

/// A pull changes nothing in the world, whatever it does.
pub proof fn lemma_pull_leaves_world(
    world: World,
    local_path: Seq<char>,
    stage: PullStageView,
    outcome: OutcomeView,
)
    ensures
        world_after(world, spec_pull_effect(local_path, stage), outcome) == world,
{
    reveal_strlit("compose");
    reveal_strlit("pull");
    assert("pull"@.len() != "compose"@.len());
}

/// The record and the two overlays of an application are three files, and
/// its two slots are two projects.
pub proof fn lemma_names_apart(state: StateView, slot: Slot)
    ensures
        state.project_name(slot) != state.project_name(slot.spec_other()),
        spec_override_file(state.project_name(slot)) != spec_override_file(
            state.project_name(slot.spec_other()),
        ),
        spec_override_file(state.project_name(slot)) != STATE_FILE@,
{
    lemma_project_names_differ(state.app_name, slot, state.app_name, slot.spec_other());
    lemma_override_files_differ(state.project_name(slot), state.project_name(slot.spec_other()));
    reveal_strlit("docker-compose.");
    reveal_strlit(".rollploy-state.json");
    assert(spec_override_file(state.project_name(slot))[0] == 'd');
}

/// What applying a posture to `slot` does to the world: its first stage
/// writes the slot's overlay and nothing else; its second brings the slot's
/// stack up with the overlay as it reads then, and touches nothing else.
pub proof fn lemma_apply_changes(
    world: World,
    state: StateView,
    slot: Slot,
    active: bool,
    stage: ApplyStage,
    outcome: OutcomeView,
)
    ensures
        ({
            let after = world_after(
                world,
                spec_deploy_to_slot_effect(state, slot, active, stage),
                outcome,
            );
            let other = slot.spec_other();
            &&& after.record_of(state) == world.record_of(state)
            &&& after.overlay_of(state, other) == world.overlay_of(state, other)
            &&& after.stack_of(state, other) == world.stack_of(state, other)
            &&& stage == ApplyStage::Overlay ==> {
                &&& after.stacks == world.stacks
                &&& after.overlay_of(state, slot) == if outcome == OutcomeView::Written(true) {
                    Some(
                        overlay_text(
                            state.service,
                            state.domain,
                            state.project_name(slot),
                            active,
                        ),
                    )
                } else {
                    world.overlay_of(state, slot)
                }
            }
            &&& stage == ApplyStage::Stack ==> {
                &&& after.files == world.files
                &&& after.stack_of(state, slot) == if outcome.succeeded() {
                    Stack::Up(world.overlay_of(state, slot))
                } else {
                    Stack::Unsettled
                }
            }
        }),
{
    lemma_names_apart(state, slot);
    lemma_compose_up_recognised(
        state.local_path,
        state.compose_files(slot),
        state.project_name(slot),
    );
}

/// What a rollout's effect does to the world in the stages that are not
/// the applying of a posture: the health gate changes nothing; the rollback takes
/// the candidate's stack down and touches nothing else; the last stage
/// writes the record and touches nothing else.
pub proof fn lemma_rollout_changes(
    world: World,
    state: StateView,
    stage: RolloutView,
    outcome: OutcomeView,
)
    ensures
        ({
            let after = world_after(world, spec_blue_green_deploy_effect(state, stage), outcome);
            let live = state.active_slot;
            let candidate = state.active_slot.spec_other();
            &&& stage is HealthGating ==> after == world
            &&& stage is RollingBack ==> {
                &&& after.files == world.files
                &&& after.stack_of(state, live) == world.stack_of(state, live)
                &&& after.stack_of(state, candidate) == if outcome.succeeded() {
                    Stack::Absent
                } else {
                    Stack::Unsettled
                }
            }
            &&& stage is Persisting ==> {
                &&& after.stacks == world.stacks
                &&& after.overlay_of(state, live) == world.overlay_of(state, live)
                &&& after.overlay_of(state, candidate) == world.overlay_of(state, candidate)
                &&& after.record_of(state) == if outcome == OutcomeView::Written(true) {
                    Some(record_text(candidate))
                } else {
                    world.record_of(state)
                }
            }
        }),
{
    let live = state.active_slot;
    let candidate = state.active_slot.spec_other();
    lemma_names_apart(state, live);
    lemma_names_apart(state, candidate);
    match stage {
        RolloutView::HealthGating(stage) => {
            lemma_gate_leaves_world(world, state.project_name(candidate), stage, outcome);
        },
        RolloutView::RollingBack(_) => {
            lemma_compose_down_recognised(
                state.local_path,
                state.compose_files(candidate),
                state.project_name(candidate),
            );
        },
        _ => {},
    }
}

/// Whether `failure` is one that the health gate ends with.
pub open spec fn from_gate(failure: Failure) -> bool {
    failure == Failure::HealthUnhealthy || failure == Failure::HealthTimeout || failure
        == Failure::Infrastructure(Task::QueryHealth)
}

/// Whether `slot` is as it was in `start`: its overlay and its stack.
pub open spec fn slot_kept(start: System, now: System, slot: Slot) -> bool {
    &&& now.world.overlay_of(start.state, slot) == start.world.overlay_of(start.state, slot)
    &&& now.world.stack_of(start.state, slot) == start.world.stack_of(start.state, slot)
}

/// Whether `slot` is routed in `world`: its overlay is the routing one, and
/// its stack is up with it.
pub open spec fn routed(world: World, state: StateView, slot: Slot) -> bool {
    let overlay = Some(routed_overlay(state.service, state.domain, state.project_name(slot)));
    world.overlay_of(state, slot) == overlay && world.stack_of(state, slot) == Stack::Up(overlay)
}

/// Whether `slot` stands by in `world`: its overlay is the one that takes it
/// out of routing, and its stack is up with it.
pub open spec fn standing_by(world: World, state: StateView, slot: Slot) -> bool {
    let overlay = Some(standby_overlay(state.service));
    world.overlay_of(state, slot) == overlay && world.stack_of(state, slot) == Stack::Up(overlay)
}

/// What holds of a system at every point of the cycle that began in `start`
/// with a trigger.
pub open spec fn cycle_inv(start: System, now: System) -> bool {
    let state = start.state;
    let live = state.active_slot;
    let candidate = live.spec_other();
    let record_kept = now.world.record_of(state) == start.world.record_of(state);
    let standby = Some(standby_overlay(state.service));
    let routing = Some(routed_overlay(state.service, state.domain, state.project_name(candidate)));
    match now.phase {
        PhaseView::CheckingForChange(_) => {
            &&& now.state == state
            &&& now.world == start.world
            &&& now.notice is None
        },
        PhaseView::Rolling(stage) => {
            &&& now.state == state
            &&& record_kept
            &&& (now.notice is None || now.notice == Some(Notice::UpdatesFound))
            &&& match stage {
                RolloutView::Deploying(ApplyStage::Overlay) => now.world == start.world,
                RolloutView::Deploying(ApplyStage::Stack) => {
                    &&& slot_kept(start, now, live)
                    &&& now.world.overlay_of(state, candidate) == standby
                },
                RolloutView::HealthGating(_) | RolloutView::CuttingOver(ApplyStage::Overlay) => {
                    &&& slot_kept(start, now, live)
                    &&& standing_by(now.world, state, candidate)
                },
                RolloutView::RollingBack(failure) => {
                    &&& slot_kept(start, now, live)
                    &&& from_gate(failure)
                },
                RolloutView::CuttingOver(ApplyStage::Stack) => {
                    &&& slot_kept(start, now, live)
                    &&& now.world.overlay_of(state, candidate) == routing
                },
                RolloutView::DemotingStandby(ApplyStage::Overlay) => routed(
                    now.world,
                    state,
                    candidate,
                ),
                RolloutView::DemotingStandby(ApplyStage::Stack) => {
                    &&& routed(now.world, state, candidate)
                    &&& now.world.overlay_of(state, live) == standby
                },
                RolloutView::Persisting { demoted } => {
                    &&& routed(now.world, state, candidate)
                    &&& demoted ==> standing_by(now.world, state, live)
                },
            }
        },
        PhaseView::Idle => match now.notice {
            Some(Notice::NoUpdates) | Some(Notice::PullFailed(_)) => {
                &&& now.state == state
                &&& now.world == start.world
            },
            Some(Notice::DeployFailed(failure)) => {
                &&& now.state == state
                &&& record_kept
                &&& failure != Failure::StateIo ==> slot_kept(start, now, live)
                &&& from_gate(failure) ==> {
                    ||| now.world.stack_of(state, candidate) == Stack::Absent
                    ||| now.world.stack_of(state, candidate) == Stack::Unsettled
                }
            },
            Some(Notice::Deployed(promotion)) => {
                &&& now.state == state.with_active(candidate)
                &&& promotion.slot == candidate
                &&& now.world.record_of(state) == Some(record_text(candidate))
                &&& routed(now.world, state, candidate)
                &&& promotion.standby_demoted ==> standing_by(now.world, state, live)
            },
            _ => false,
        },
        _ => false,
    }
}

/// A round keeps what holds of a cycle.
pub proof fn lemma_round_keeps(start: System, now: System, outcome: OutcomeView, at: u64)
    requires
        cycle_inv(start, now),
    ensures
        cycle_inv(start, round(now, outcome, at)),
{
    let state = start.state;
    let live = state.active_slot;
    let candidate = live.spec_other();
    match now.phase {
        PhaseView::CheckingForChange(stage) => {
            lemma_pull_leaves_world(now.world, state.local_path, stage, outcome);
        },
        PhaseView::Rolling(stage) => {
            lemma_rollout_changes(now.world, state, stage, outcome);
            match stage {
                RolloutView::Deploying(apply) => {
                    lemma_apply_changes(now.world, state, candidate, false, apply, outcome);
                },
                RolloutView::CuttingOver(apply) => {
                    lemma_apply_changes(now.world, state, candidate, true, apply, outcome);
                },
                RolloutView::DemotingStandby(apply) => {
                    lemma_apply_changes(now.world, state, live, false, apply, outcome);
                },
                _ => {},
            }
        },
        _ => {},
    }
}

/// Every run of rounds keeps what holds of a cycle.
pub proof fn lemma_run_keeps(start: System, now: System, trace: Seq<(OutcomeView, u64)>)
    requires
        cycle_inv(start, now),
    ensures
        cycle_inv(start, run(now, trace)),
    decreases trace.len(),
{
    if trace.len() > 0 {
        lemma_round_keeps(start, now, trace[0].0, trace[0].1);
        lemma_run_keeps(start, round(now, trace[0].0, trace[0].1), trace.drop_first());
    }
}

/// What holds of a cycle holds after a trigger and any rounds that follow
/// it.
pub proof fn lemma_cycle_holds(start: System, message: Message, trace: Seq<(OutcomeView, u64)>)
    ensures
        cycle_inv(start, run(triggered(start, message), trace)),
{
    lemma_run_keeps(start, triggered(start, message), trace);
}

/// After a rollout that went through, the slot that was idle before is the
/// live one: the reconciler holds it as live, the record names it, its
/// overlay is the routing one and its stack is up with that overlay. Where
/// the promotion says that the slot that was live before was demoted, that
/// slot's overlay is the one that takes it out of routing, and its stack is
/// still up, with that overlay: one slot is routed, and only one. Nothing
/// else of the state has changed.
pub proof fn lemma_completed_rollout(
    start: System,
    message: Message,
    trace: Seq<(OutcomeView, u64)>,
    promotion: Promotion,
)
    requires
        run(triggered(start, message), trace).phase is Idle,
        run(triggered(start, message), trace).notice == Some(Notice::Deployed(promotion)),
    ensures
        ({
            let end = run(triggered(start, message), trace);
            let live = end.state.active_slot;
            &&& live == start.state.active_slot.spec_other()
            &&& promotion.slot == live
            &&& end.state == start.state.with_active(live)
            &&& end.world.record_of(end.state) == Some(record_text(live))
            &&& loaded(end.world.record_of(end.state)) == live
            &&& routed(end.world, end.state, live)
            &&& promotion.standby_demoted ==> standing_by(end.world, end.state, live.spec_other())
            &&& promotion.standby_demoted ==> !routed(end.world, end.state, live.spec_other())
        }),
{
    lemma_cycle_holds(start, message, trace);
    lemma_record_round_trip(start.state.active_slot.spec_other());
    lemma_postures_differ(
        start.state.service,
        start.state.domain,
        start.state.project_name(start.state.active_slot),
    );
}

/// Two rollouts that went through, one after the other, leave the slot live
/// that was live before the first.
pub proof fn lemma_rollouts_alternate(
    start: System,
    first: Message,
    first_trace: Seq<(OutcomeView, u64)>,
    first_promotion: Promotion,
    second: Message,
    second_trace: Seq<(OutcomeView, u64)>,
    second_promotion: Promotion,
)
    requires
        run(triggered(start, first), first_trace).phase is Idle,
        run(triggered(start, first), first_trace).notice == Some(
            Notice::Deployed(first_promotion),
        ),
        run(triggered(run(triggered(start, first), first_trace), second), second_trace).phase
            is Idle,
        run(triggered(run(triggered(start, first), first_trace), second), second_trace).notice
            == Some(Notice::Deployed(second_promotion)),
    ensures
        ({
            let between = run(triggered(start, first), first_trace);
            let end = run(triggered(between, second), second_trace);
            &&& between.state.active_slot == start.state.active_slot.spec_other()
            &&& end.state.active_slot == start.state.active_slot
            &&& end.state == start.state
            &&& second_promotion.slot == start.state.active_slot
            &&& routed(end.world, end.state, start.state.active_slot)
        }),
{
    let between = run(triggered(start, first), first_trace);
    lemma_completed_rollout(start, first, first_trace, first_promotion);
    lemma_completed_rollout(between, second, second_trace, second_promotion);
}

/// A rollout that failed before the record was written has changed neither
/// the reconciler's state nor the record, and has left the live slot as it
/// was: its overlay and its stack. Where it failed at the health gate, the
/// candidate's stack is gone, or unsettled if the teardown failed.
pub proof fn lemma_failed_rollout(
    start: System,
    message: Message,
    trace: Seq<(OutcomeView, u64)>,
    failure: Failure,
)
    requires
        run(triggered(start, message), trace).phase is Idle,
        run(triggered(start, message), trace).notice == Some(Notice::DeployFailed(failure)),
    ensures
        ({
            let end = run(triggered(start, message), trace);
            let live = start.state.active_slot;
            &&& end.state == start.state
            &&& end.world.record_of(end.state) == start.world.record_of(start.state)
            &&& loaded(end.world.record_of(end.state)) == loaded(
                start.world.record_of(start.state),
            )
            &&& failure != Failure::StateIo ==> slot_kept(start, end, live)
            &&& from_gate(failure) ==> {
                ||| end.world.stack_of(end.state, live.spec_other()) == Stack::Absent
                ||| end.world.stack_of(end.state, live.spec_other()) == Stack::Unsettled
            }
        }),
{
    lemma_cycle_holds(start, message, trace);
}

/// When the health gate fails, with an unhealthy container, with the time
/// up or with a query that could not be made, the reconciler next takes the
/// candidate's stack down, and after that is idle again and tells the
/// gate's failure. It has then changed neither its state nor the record nor
/// the live slot, and the candidate's stack is gone if the teardown went
/// well.
pub proof fn lemma_gate_failure_rolls_back(
    start: System,
    message: Message,
    trace: Seq<(OutcomeView, u64)>,
    outcome: OutcomeView,
    at: u64,
    teardown: OutcomeView,
    then: u64,
)
    requires
        run(triggered(start, message), trace).phase matches PhaseView::Rolling(
            RolloutView::HealthGating(stage),
        ) && spec_wait_healthy(start.state.health_timeout, stage, outcome, at) matches Flow::Done(
            Err(_),
        ),
    ensures
        ({
            let gating = run(triggered(start, message), trace);
            let failure = spec_wait_healthy(
                start.state.health_timeout,
                gating.phase->Rolling_0->HealthGating_0,
                outcome,
                at,
            )->Done_0->Err_0;
            let back = round(gating, outcome, at);
            let end = round(back, teardown, then);
            let live = start.state.active_slot;
            let candidate = live.spec_other();
            &&& from_gate(failure)
            &&& back.phase == PhaseView::Rolling(RolloutView::RollingBack(failure))
            &&& spec_effect(back.state, back.phase) == Some(
                EffectView::Run(
                    spec_compose_down(
                        start.state.local_path,
                        start.state.compose_files(candidate),
                        start.state.project_name(candidate),
                    ),
                ),
            )
            &&& end.phase is Idle
            &&& end.notice == Some(Notice::DeployFailed(failure))
            &&& end.state == start.state
            &&& end.world.record_of(end.state) == start.world.record_of(start.state)
            &&& slot_kept(start, end, live)
            &&& end.world.stack_of(end.state, candidate) == if teardown.succeeded() {
                Stack::Absent
            } else {
                Stack::Unsettled
            }
        }),
{
    let gating = run(triggered(start, message), trace);
    lemma_cycle_holds(start, message, trace);
    let back = round(gating, outcome, at);
    lemma_round_keeps(start, back, teardown, then);
}

/// The record is written last: at every point of a cycle, be it cut short
/// there by a crash, the record reads as it did when the trigger came,
/// unless the rollout has gone through, and then the candidate is routed.
pub proof fn lemma_record_written_last(
    start: System,
    message: Message,
    trace: Seq<(OutcomeView, u64)>,
)
    ensures
        ({
            let now = run(triggered(start, message), trace);
            let candidate = start.state.active_slot.spec_other();
            ||| now.world.record_of(start.state) == start.world.record_of(start.state)
            ||| {
                &&& now.phase is Idle
                &&& now.notice matches Some(Notice::Deployed(_))
                &&& now.world.record_of(start.state) == Some(record_text(candidate))
                &&& routed(now.world, start.state, candidate)
            }
        }),
{
    lemma_cycle_holds(start, message, trace);
}

/// A tick that finds the repository where it was, or cannot pull it, rolls
/// nothing out: the state and the world are as before.
pub proof fn lemma_no_updates_no_change(
    start: System,
    trace: Seq<(OutcomeView, u64)>,
)
    requires
        run(triggered(start, Message::Tick), trace).phase is Idle,
        run(triggered(start, Message::Tick), trace).notice == Some(Notice::NoUpdates) || (run(
            triggered(start, Message::Tick),
            trace,
        ).notice matches Some(Notice::PullFailed(_))),
    ensures
        run(triggered(start, Message::Tick), trace).state == start.state,
        run(triggered(start, Message::Tick), trace).world == start.world,
{
    lemma_cycle_holds(start, Message::Tick, trace);
}

/// Through any cycle, the record goes on naming the slot that the
/// reconciler holds as live: where it did so when the trigger came, it does
/// so whenever the reconciler is idle again.
pub proof fn lemma_record_follows_live_slot(
    start: System,
    message: Message,
    trace: Seq<(OutcomeView, u64)>,
)
    requires
        loaded(start.world.record_of(start.state)) == start.state.active_slot,
        run(triggered(start, message), trace).phase is Idle,
    ensures
        ({
            let end = run(triggered(start, message), trace);
            loaded(end.world.record_of(end.state)) == end.state.active_slot
        }),
{
    lemma_cycle_holds(start, message, trace);
    lemma_record_round_trip(start.state.active_slot.spec_other());
}

/// The system at the start of a reconciler that was given `args`, in
/// `world`.
pub open spec fn booting(args: DeployerArgsView, world: World) -> System {
    System { state: initial_state(args), phase: first_phase(), world, notice: None }
}

/// Whether the host answers truthfully where it is asked to read a file:
/// with the text that the file holds in the world, or with its absence.
pub open spec fn truthful(system: System, outcome: OutcomeView) -> bool {
    spec_effect(system.state, system.phase) matches Some(EffectView::Read { dir, name })
        ==> outcome == OutcomeView::Content(system.world.text(dir, name))
}

/// Whether the host answers truthfully to every read in the rounds of
/// `trace`.
pub open spec fn truthful_run(system: System, trace: Seq<(OutcomeView, u64)>) -> bool
    decreases trace.len(),
{
    trace.len() > 0 ==> {
        &&& truthful(system, trace[0].0)
        &&& truthful_run(round(system, trace[0].0, trace[0].1), trace.drop_first())
    }
}

/// What holds of a system at every point of the bootstrap that began in
/// `world`.
pub open spec fn boot_inv(args: DeployerArgsView, world: World, now: System) -> bool {
    let state = initial_state(args);
    let live = loaded(world.record_of(state));
    let routing = Some(routed_overlay(state.service, state.domain, state.project_name(live)));
    &&& now.world.record_of(state) == world.record_of(state)
    &&& match now.phase {
        PhaseView::EnsuringProxy(_) | PhaseView::EnsuringRepo(_) | PhaseView::LoadingRecord => {
            &&& now.state == state
            &&& !(now.notice matches Some(Notice::InitialDeployFailed(_)))
        },
        PhaseView::InitialDeploy(stage) => {
            &&& now.state == state.with_active(live)
            &&& !(now.notice matches Some(Notice::InitialDeployFailed(_)))
            &&& stage == ApplyStage::Stack ==> now.world.overlay_of(state, live) == routing
        },
        PhaseView::Idle => {
            &&& now.state == state.with_active(live)
            &&& !(now.notice matches Some(Notice::InitialDeployFailed(_))) ==> routed(
                now.world,
                state,
                live,
            )
        },
        _ => false,
    }
}

/// A round with a truthful host keeps what holds of a bootstrap.
pub proof fn lemma_boot_round_keeps(
    args: DeployerArgsView,
    world: World,
    now: System,
    outcome: OutcomeView,
    at: u64,
)
    requires
        boot_inv(args, world, now),
        truthful(now, outcome),
    ensures
        boot_inv(args, world, round(now, outcome, at)),
{
    let state = initial_state(args);
    let live = loaded(world.record_of(state));
    match now.phase {
        PhaseView::InitialDeploy(stage) => {
            lemma_apply_changes(now.world, now.state, live, true, stage, outcome);
        },
        _ => {},
    }
}

/// Every run of rounds with a truthful host keeps what holds of a bootstrap.
pub proof fn lemma_boot_run_keeps(
    args: DeployerArgsView,
    world: World,
    now: System,
    trace: Seq<(OutcomeView, u64)>,
)
    requires
        boot_inv(args, world, now),
        truthful_run(now, trace),
    ensures
        boot_inv(args, world, run(now, trace)),
    decreases trace.len(),
{
    if trace.len() > 0 {
        lemma_boot_round_keeps(args, world, now, trace[0].0, trace[0].1);
        lemma_boot_run_keeps(args, world, round(now, trace[0].0, trace[0].1), trace.drop_first());
    }
}

/// When the bootstrap has come to rest, whatever failed on the way, the
/// reconciler holds as live the slot that the record names, the primary one
/// where there is no record or none that can be read; the record is as it
/// was; and unless the reconciler told that the first deployment failed,
/// that slot is routed. The rest of the state is what the reconciler was
/// given.
pub proof fn lemma_startup(args: DeployerArgsView, world: World, trace: Seq<(OutcomeView, u64)>)
    requires
        truthful_run(booting(args, world), trace),
        run(booting(args, world), trace).phase is Idle,
    ensures
        ({
            let end = run(booting(args, world), trace);
            let live = end.state.active_slot;
            &&& live == loaded(world.record_of(initial_state(args)))
            &&& world.record_of(initial_state(args)) is None ==> live == Slot::Primary
            &&& end.state == initial_state(args).with_active(live)
            &&& end.world.record_of(end.state) == world.record_of(initial_state(args))
            &&& loaded(end.world.record_of(end.state)) == live
            &&& !(end.notice matches Some(Notice::InitialDeployFailed(_))) ==> routed(
                end.world,
                end.state,
                live,
            )
        }),
{
    lemma_boot_run_keeps(args, world, booting(args, world), trace);
}

} // verus!
