//! The container runtime: the commands that bring a stack up and down, and
//! the health gate that holds a candidate back until its containers are healthy.

use vstd::prelude::*;
use vstd::string::*;
use crate::runtime::{
    Command, CommandView, Dir, DirView, Effect, EffectView, Failure, Flow, Outcome, OutcomeView,
    Task,
};
use crate::text::{push_owned, push_text, same_text, spec_words, texts, words};

verus! {

/// The flags that name the definition files of a stack: `-f` before each.
pub open spec fn file_flags(files: Seq<Seq<char>>) -> Seq<Seq<char>> {
    Seq::new(
        2 * files.len(),
        |i: int|
            if i % 2 == 0 {
                "-f"@
            } else {
                files[i / 2]
            },
    )
}

/// The arguments that every command on a stack begins with.
pub open spec fn compose_args(files: Seq<Seq<char>>, project: Seq<char>) -> Seq<Seq<char>> {
    seq!["compose"@, "-p"@, project] + file_flags(files)
}

/// The command that brings a stack up, detached, pulling its images anew.
pub open spec fn spec_compose_up(
    cwd: Seq<char>,
    files: Seq<Seq<char>>,
    project: Seq<char>,
) -> CommandView {
    CommandView {
        program: "docker"@,
        args: compose_args(files, project) + seq!["up"@, "-d"@, "--pull"@, "always"@],
        cwd: Some(DirView::At(cwd)),
        capture: false,
    }
}

/// The command that takes a stack down.
pub open spec fn spec_compose_down(
    cwd: Seq<char>,
    files: Seq<Seq<char>>,
    project: Seq<char>,
) -> CommandView {
    CommandView {
        program: "docker"@,
        args: compose_args(files, project) + seq!["down"@],
        cwd: Some(DirView::At(cwd)),
        capture: false,
    }
}

fn compose_prefix(compose_files: &Vec<String>, project: &str) -> (args: Vec<String>)
    ensures
        texts(args@) == compose_args(texts(compose_files@), project@),
{
    let mut args: Vec<String> = Vec::new();
    push_text(&mut args, "compose");
    push_text(&mut args, "-p");
    push_text(&mut args, project);
    let ghost head = texts(args@);
    let ghost files = texts(compose_files@);
    let mut i: usize = 0;
    while i < compose_files.len()
        invariant
            i <= compose_files.len(),
            files == texts(compose_files@),
            head == seq!["compose"@, "-p"@, project@],
            texts(args@) == head + file_flags(files.take(i as int)),
        decreases compose_files.len() - i,
    {
        push_text(&mut args, "-f");
        push_text(&mut args, compose_files[i].as_str());
        i += 1;
    }
    args
}

/// The command that brings up the stack of `project` from the definition
/// files, with `cwd` as working directory.
pub fn compose_up(cwd: &str, compose_files: &Vec<String>, project: &str) -> (command: Command)
    ensures
        command@ == spec_compose_up(cwd@, texts(compose_files@), project@),
{
    let mut args = compose_prefix(compose_files, project);
    let ghost head = texts(args@);
    push_text(&mut args, "up");
    push_text(&mut args, "-d");
    push_text(&mut args, "--pull");
    push_text(&mut args, "always");
    assert(texts(args@) =~= head + seq!["up"@, "-d"@, "--pull"@, "always"@]);
    Command {
        program: String::from_str("docker"),
        args,
        cwd: Some(Dir::At(String::from_str(cwd))),
        capture: false,
    }
}

/// The command that takes down the stack of `project`.
pub fn compose_down(cwd: &str, compose_files: &Vec<String>, project: &str) -> (command: Command)
    ensures
        command@ == spec_compose_down(cwd@, texts(compose_files@), project@),
{
    let mut args = compose_prefix(compose_files, project);
    let ghost head = texts(args@);
    push_text(&mut args, "down");
    assert(texts(args@) =~= head + seq!["down"@]);
    Command {
        program: String::from_str("docker"),
        args,
        cwd: Some(Dir::At(String::from_str(cwd))),
        capture: false,
    }
}

/// The command that asks whether the network `name` exists; it succeeds
/// where it does.
pub open spec fn spec_network_exists(name: Seq<char>) -> CommandView {
    CommandView {
        program: "docker"@,
        args: seq!["network"@, "inspect"@, name],
        cwd: None,
        capture: true,
    }
}

/// The command that creates the network `name`.
pub open spec fn spec_create_network(name: Seq<char>) -> CommandView {
    CommandView {
        program: "docker"@,
        args: seq!["network"@, "create"@, name],
        cwd: None,
        capture: false,
    }
}

/// The command that asks whether the network `name` exists.
pub fn network_exists(name: &str) -> (command: Command)
    ensures
        command@ == spec_network_exists(name@),
{
    let mut args: Vec<String> = Vec::new();
    push_text(&mut args, "network");
    push_text(&mut args, "inspect");
    push_text(&mut args, name);
    assert(texts(args@) =~= seq!["network"@, "inspect"@, name@]);
    Command { program: String::from_str("docker"), args, cwd: None, capture: true }
}

/// The command that creates the network `name`.
pub fn create_network(name: &str) -> (command: Command)
    ensures
        command@ == spec_create_network(name@),
{
    let mut args: Vec<String> = Vec::new();
    push_text(&mut args, "network");
    push_text(&mut args, "create");
    push_text(&mut args, name);
    assert(texts(args@) =~= seq!["network"@, "create"@, name@]);
    Command { program: String::from_str("docker"), args, cwd: None, capture: false }
}

/// The command that lists the containers of `project`, running or not, one
/// identifier to a line.
pub open spec fn spec_list_containers(project: Seq<char>) -> CommandView {
    CommandView {
        program: "docker"@,
        args: seq![
            "ps"@,
            "-a"@,
            "-q"@,
            "--filter"@,
            "label=com.docker.compose.project="@ + project,
        ],
        cwd: None,
        capture: true,
    }
}

/// The command that prints the health of each of the containers `ids`, one
/// to a line: the status that its health check reports, or `none` where it
/// has no health check.
pub open spec fn spec_inspect_health(ids: Seq<Seq<char>>) -> CommandView {
    CommandView {
        program: "docker"@,
        args: seq![
            "inspect"@,
            "--format"@,
            "{{if .State.Health}}{{.State.Health.Status}}{{else}}none{{end}}"@,
        ] + ids,
        cwd: None,
        capture: true,
    }
}

/// The command that lists the containers of `project`.
pub fn list_containers(project: &str) -> (command: Command)
    ensures
        command@ == spec_list_containers(project@),
{
    let mut args: Vec<String> = Vec::new();
    push_text(&mut args, "ps");
    push_text(&mut args, "-a");
    push_text(&mut args, "-q");
    push_text(&mut args, "--filter");
    let mut filter = String::from_str("label=com.docker.compose.project=");
    filter.append(project);
    push_owned(&mut args, filter);
    assert(texts(args@) =~= seq![
        "ps"@,
        "-a"@,
        "-q"@,
        "--filter"@,
        "label=com.docker.compose.project="@ + project@,
    ]);
    Command { program: String::from_str("docker"), args, cwd: None, capture: true }
}

/// The command that prints the health of each of the containers `ids`.
pub fn inspect_health(ids: &Vec<String>) -> (command: Command)
    ensures
        command@ == spec_inspect_health(texts(ids@)),
{
    let mut args: Vec<String> = Vec::new();
    push_text(&mut args, "inspect");
    push_text(&mut args, "--format");
    push_text(&mut args, "{{if .State.Health}}{{.State.Health.Status}}{{else}}none{{end}}");
    let ghost head = texts(args@);
    assert(head =~= seq![
        "inspect"@,
        "--format"@,
        "{{if .State.Health}}{{.State.Health.Status}}{{else}}none{{end}}"@,
    ]);
    let mut i: usize = 0;
    while i < ids.len()
        invariant
            i <= ids.len(),
            texts(args@) == head + texts(ids@).take(i as int),
        decreases ids.len() - i,
    {
        push_text(&mut args, ids[i].as_str());
        i += 1;
    }
    assert(texts(ids@).take(i as int) =~= texts(ids@));
    Command { program: String::from_str("docker"), args, cwd: None, capture: true }
}

/// What a container says of its own health.
#[derive(Debug, Clone, Copy, PartialEq, Eq, Structural)]
pub enum ContainerHealth {
    /// Its health check passes.
    Healthy,
    /// Its health check fails.
    Unhealthy,
    /// It has no health check.
    Unchecked,
    /// Its health check has not decided yet, or the status is not known.
    Pending,
}

/// The health that a status word stands for.
pub open spec fn spec_classify(status: Seq<char>) -> ContainerHealth {
    if status == "healthy"@ {
        ContainerHealth::Healthy
    } else if status == "unhealthy"@ {
        ContainerHealth::Unhealthy
    } else if status == "none"@ {
        ContainerHealth::Unchecked
    } else {
        ContainerHealth::Pending
    }
}

/// The health that a status word stands for.
pub fn classify(status: &str) -> (health: ContainerHealth)
    ensures
        health == spec_classify(status@),
{
    if same_text(status, "healthy") {
        ContainerHealth::Healthy
    } else if same_text(status, "unhealthy") {
        ContainerHealth::Unhealthy
    } else if same_text(status, "none") {
        ContainerHealth::Unchecked
    } else {
        ContainerHealth::Pending
    }
}

/// What one look at a project's containers says of the project.
#[derive(Debug, Clone, Copy, PartialEq, Eq, Structural)]
pub enum Verdict {
    Healthy,
    Unhealthy,
    Pending,
}

/// The verdict on a project whose containers report `statuses`: unhealthy
/// where any container is; healthy where there is a container and each is
/// healthy or has no health check; pending otherwise.
pub open spec fn spec_verdict(statuses: Seq<ContainerHealth>) -> Verdict {
    if exists|i: int| 0 <= i < statuses.len() && statuses[i] == ContainerHealth::Unhealthy {
        Verdict::Unhealthy
    } else if statuses.len() > 0 && forall|i: int|
        0 <= i < statuses.len() ==> statuses[i] != ContainerHealth::Pending {
        Verdict::Healthy
    } else {
        Verdict::Pending
    }
}

/// The health that each word of a report stands for.
pub open spec fn spec_statuses(report: Seq<char>) -> Seq<ContainerHealth> {
    spec_words(report).map_values(|word: Seq<char>| spec_classify(word))
}

/// The health that each word of a report stands for.
pub fn statuses(report: &str) -> (list: Vec<ContainerHealth>)
    ensures
        list@ == spec_statuses(report@),
{
    let found = words(report);
    let mut list: Vec<ContainerHealth> = Vec::new();
    let mut i: usize = 0;
    while i < found.len()
        invariant
            i <= found.len(),
            texts(found@) == spec_words(report@),
            list@ == spec_statuses(report@).take(i as int),
        decreases found.len() - i,
    {
        let health = classify(found[i].as_str());
        list.push(health);
        i += 1;
    }
    list
}

/// The verdict on a project whose containers report `statuses`.
pub fn verdict(statuses: &Vec<ContainerHealth>) -> (r: Verdict)
    ensures
        r == spec_verdict(statuses@),
{
    let mut settled = statuses.len() > 0;
    let mut i: usize = 0;
    while i < statuses.len()
        invariant
            i <= statuses.len(),
            forall|k: int| 0 <= k < i ==> statuses@[k] != ContainerHealth::Unhealthy,
            settled == (statuses@.len() > 0 && forall|k: int|
                0 <= k < i ==> statuses@[k] != ContainerHealth::Pending),
        decreases statuses.len() - i,
    {
        match statuses[i] {
            ContainerHealth::Unhealthy => {
                return Verdict::Unhealthy;
            },
            ContainerHealth::Pending => {
                settled = false;
            },
            _ => {},
        }
        i += 1;
    }
    if settled {
        Verdict::Healthy
    } else {
        Verdict::Pending
    }
}

/// Milliseconds between two looks at a candidate that has not decided.
pub const POLL_INTERVAL: u64 = 2000;

/// Where the health gate stands: which effect it waits for. `started` is the
/// host's clock, in milliseconds, when the health gate was entered.
#[derive(Debug)]
pub enum GateStage {
    /// Listing the project's containers.
    Listing { started: u64 },
    /// Asking the containers `ids` for their health.
    Inspecting { started: u64, ids: Vec<String> },
    /// Waiting before the next look.
    Sleeping { started: u64 },
}

pub enum GateStageView {
    Listing { started: u64 },
    Inspecting { started: u64, ids: Seq<Seq<char>> },
    Sleeping { started: u64 },
}

impl View for GateStage {
    type V = GateStageView;

    open spec fn view(&self) -> GateStageView {
        match self {
            GateStage::Listing { started } => GateStageView::Listing { started: *started },
            GateStage::Inspecting { started, ids } => GateStageView::Inspecting {
                started: *started,
                ids: texts(ids@),
            },
            GateStage::Sleeping { started } => GateStageView::Sleeping { started: *started },
        }
    }
}

/// The effect that the health gate waits for at `stage`.
pub open spec fn spec_wait_healthy_effect(project: Seq<char>, stage: GateStageView) -> EffectView {
    match stage {
        GateStageView::Listing { .. } => EffectView::Run(spec_list_containers(project)),
        GateStageView::Inspecting { ids, .. } => EffectView::Run(spec_inspect_health(ids)),
        GateStageView::Sleeping { .. } => EffectView::Sleep { millis: POLL_INTERVAL },
    }
}

/// Whether a gate entered at `started` has waited longer than `timeout` at
/// `now`, all in milliseconds.
pub open spec fn timed_out(started: u64, now: u64, timeout: u64) -> bool {
    now - started > timeout
}

/// The health gate's next stage, or its end, after `outcome` arrived at `now`.
///
/// A list without containers and a report without verdict lead to a wait; a
/// healthy report ends the health gate with success, an unhealthy one with
/// `HealthUnhealthy`, whatever the clock says. After a wait the health gate ends with
/// `HealthTimeout` where the time is up, and looks again where it is not. A
/// command that could not be started ends it with `Infrastructure`.
pub open spec fn spec_wait_healthy(
    timeout: u64,
    stage: GateStageView,
    outcome: OutcomeView,
    now: u64,
) -> Flow<GateStageView, ()> {
    match stage {
        GateStageView::Listing { started } => match outcome {
            OutcomeView::Exited { output, .. } => if spec_words(output).len() == 0 {
                Flow::Continue(GateStageView::Sleeping { started })
            } else {
                Flow::Continue(GateStageView::Inspecting { started, ids: spec_words(output) })
            },
            _ => Flow::Done(Err(Failure::Infrastructure(Task::QueryHealth))),
        },
        GateStageView::Inspecting { started, .. } => match outcome {
            OutcomeView::Exited { output, .. } => match spec_verdict(spec_statuses(output)) {
                Verdict::Healthy => Flow::Done(Ok(())),
                Verdict::Unhealthy => Flow::Done(Err(Failure::HealthUnhealthy)),
                Verdict::Pending => Flow::Continue(GateStageView::Sleeping { started }),
            },
            _ => Flow::Done(Err(Failure::Infrastructure(Task::QueryHealth))),
        },
        GateStageView::Sleeping { started } => if timed_out(started, now, timeout) {
            Flow::Done(Err(Failure::HealthTimeout))
        } else {
            Flow::Continue(GateStageView::Listing { started })
        },
    }
}

/// The effect that the health gate on `project` waits for at `stage`.
pub fn wait_healthy_effect(project: &str, stage: &GateStage) -> (effect: Effect)
    ensures
        effect@ == spec_wait_healthy_effect(project@, stage@),
{
    match stage {
        GateStage::Listing { .. } => Effect::Run(list_containers(project)),
        GateStage::Inspecting { ids, .. } => Effect::Run(inspect_health(ids)),
        GateStage::Sleeping { .. } => Effect::Sleep { millis: POLL_INTERVAL },
    }
}

/// One step of the health gate: where it stands after `outcome`, the result
/// of the effect of `stage`, arrived at `now` on the host's clock. `timeout`
/// is the time allowed to the candidate, in milliseconds.
pub fn wait_healthy(timeout: u64, stage: GateStage, outcome: &Outcome, now: u64) -> (flow: Flow<
    GateStage,
    (),
>)
    ensures
        flow@ == spec_wait_healthy(timeout, stage@, outcome@, now),
{
    match stage {
        GateStage::Listing { started } => match outcome {
            Outcome::Exited { output, .. } => {
                let ids = words(output.as_str());
                if ids.len() == 0 {
                    Flow::Continue(GateStage::Sleeping { started })
                } else {
                    Flow::Continue(GateStage::Inspecting { started, ids })
                }
            },
            _ => Flow::Done(Err(Failure::Infrastructure(Task::QueryHealth))),
        },
        GateStage::Inspecting { started, .. } => match outcome {
            Outcome::Exited { output, .. } => {
                let seen = statuses(output.as_str());
                match verdict(&seen) {
                    Verdict::Healthy => Flow::Done(Ok(())),
                    Verdict::Unhealthy => Flow::Done(Err(Failure::HealthUnhealthy)),
                    Verdict::Pending => Flow::Continue(GateStage::Sleeping { started }),
                }
            },
            _ => Flow::Done(Err(Failure::Infrastructure(Task::QueryHealth))),
        },
        GateStage::Sleeping { started } => {
            if now > started && now - started > timeout {
                Flow::Done(Err(Failure::HealthTimeout))
            } else {
                Flow::Continue(GateStage::Listing { started })
            }
        },
    }
}

impl GateStageView {
    /// The host's clock when the health gate was entered.
    pub open spec fn started(self) -> u64 {
        match self {
            GateStageView::Listing { started } => started,
            GateStageView::Inspecting { started, .. } => started,
            GateStageView::Sleeping { started } => started,
        }
    }
}

/// Where the health gate stands after the rounds of `trace`, each an outcome and
/// the time at which it arrived. Once the health gate has ended, it stays so.
pub open spec fn gate_run(
    timeout: u64,
    stage: GateStageView,
    trace: Seq<(OutcomeView, u64)>,
) -> Flow<GateStageView, ()>
    decreases trace.len(),
{
    if trace.len() == 0 {
        Flow::Continue(stage)
    } else {
        match spec_wait_healthy(timeout, stage, trace[0].0, trace[0].1) {
            Flow::Continue(next) => gate_run(timeout, next, trace.drop_first()),
            Flow::Done(result) => Flow::Done(result),
        }
    }
}

/// Whether no round of `trace` brings the health gate, which stands at `stage`, a
/// verdict or its end: each list and each report was printed, no report
/// holds an unhealthy container or is healthy throughout, and the time is
/// not up after any wait.
pub open spec fn undecided(
    timeout: u64,
    stage: GateStageView,
    trace: Seq<(OutcomeView, u64)>,
) -> bool
    decreases trace.len(),
{
    if trace.len() == 0 {
        true
    } else {
        &&& trace[0].0 is Exited || stage is Sleeping
        &&& stage is Inspecting ==> spec_verdict(spec_statuses(trace[0].0->output))
            == Verdict::Pending
        &&& stage is Sleeping ==> !timed_out(stage.started(), trace[0].1, timeout)
        &&& spec_wait_healthy(timeout, stage, trace[0].0, trace[0].1) matches Flow::Continue(next)
            ==> undecided(timeout, next, trace.drop_first())
    }
}

/// One report that holds an unhealthy container ends the health gate at once with
/// `HealthUnhealthy`, however much time is left and whatever the other
/// containers say.
pub proof fn lemma_unhealthy_fails_fast(
    timeout: u64,
    started: u64,
    ids: Seq<Seq<char>>,
    success: bool,
    output: Seq<char>,
    now: u64,
)
    requires
        spec_statuses(output).contains(ContainerHealth::Unhealthy),
    ensures
        spec_wait_healthy(
            timeout,
            GateStageView::Inspecting { started, ids },
            OutcomeView::Exited { success, output },
            now,
        ) == Flow::<GateStageView, ()>::Done(Err(Failure::HealthUnhealthy)),
{
}

/// A wait ends the health gate with `HealthTimeout` exactly when more than the
/// time allowed has passed since the health gate was entered; otherwise the health gate
/// looks again.
pub proof fn lemma_timeout_ends_gate(timeout: u64, started: u64, outcome: OutcomeView, now: u64)
    ensures
        now - started > timeout ==> spec_wait_healthy(
            timeout,
            GateStageView::Sleeping { started },
            outcome,
            now,
        ) == Flow::<GateStageView, ()>::Done(Err(Failure::HealthTimeout)),
        now - started <= timeout ==> spec_wait_healthy(
            timeout,
            GateStageView::Sleeping { started },
            outcome,
            now,
        ) == Flow::<GateStageView, ()>::Continue(GateStageView::Listing { started }),
{
}

/// As long as no verdict arrives and the time is not up, the health gate keeps
/// polling: after any number of such rounds it has not ended, and its clock
/// still counts from when it was entered.
pub proof fn lemma_gate_keeps_polling(
    timeout: u64,
    stage: GateStageView,
    trace: Seq<(OutcomeView, u64)>,
)
    requires
        undecided(timeout, stage, trace),
    ensures
        gate_run(timeout, stage, trace) matches Flow::Continue(next) && next.started()
            == stage.started(),
    decreases trace.len(),
{
    if trace.len() > 0 {
        let flow = spec_wait_healthy(timeout, stage, trace[0].0, trace[0].1);
        lemma_gate_keeps_polling(timeout, flow->Continue_0, trace.drop_first());
    }
}

/// The health gate ends well only on a report in which there is a container and
/// every container is healthy or has no health check.
pub proof fn lemma_gate_passes_on_health_only(
    timeout: u64,
    stage: GateStageView,
    outcome: OutcomeView,
    now: u64,
)
    ensures
        spec_wait_healthy(timeout, stage, outcome, now) == Flow::<GateStageView, ()>::Done(Ok(()))
            <==> stage is Inspecting && outcome is Exited && spec_verdict(
            spec_statuses(outcome->output),
        ) == Verdict::Healthy,
{
}

} // verus!
