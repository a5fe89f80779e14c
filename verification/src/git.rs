//! The repository: making sure that it is there, and pulling it to see
//! whether it has moved.

use vstd::prelude::*;
use vstd::string::*;
use crate::runtime::{
    Command, CommandView, Dir, DirView, Effect, EffectView, Failure, Flow, Outcome, OutcomeView,
    Task,
};
use crate::text::{push_text, same_text, texts};

verus! {

/// The command that clones the one branch `branch` of `url` into
/// `local_path`.
pub open spec fn spec_clone_command(
    local_path: Seq<char>,
    url: Seq<char>,
    branch: Seq<char>,
) -> CommandView {
    CommandView {
        program: "git"@,
        args: seq!["clone"@, "--branch"@, branch, "--single-branch"@, url, local_path],
        cwd: None,
        capture: false,
    }
}

/// The command that prints the revision that the working tree in
/// `local_path` stands at.
pub open spec fn spec_get_head(local_path: Seq<char>) -> CommandView {
    CommandView {
        program: "git"@,
        args: seq!["rev-parse"@, "HEAD"@],
        cwd: Some(DirView::At(local_path)),
        capture: true,
    }
}

/// The command that moves the working tree in `local_path` forward to what
/// its remote holds, and fails rather than merge.
pub open spec fn spec_pull_command(local_path: Seq<char>) -> CommandView {
    CommandView {
        program: "git"@,
        args: seq!["pull"@, "--ff-only"@],
        cwd: Some(DirView::At(local_path)),
        capture: false,
    }
}

/// The command that clones the one branch `branch` of `url` into
/// `local_path`.
pub fn clone_command(local_path: &str, url: &str, branch: &str) -> (command: Command)
    ensures
        command@ == spec_clone_command(local_path@, url@, branch@),
{
    let mut args: Vec<String> = Vec::new();
    push_text(&mut args, "clone");
    push_text(&mut args, "--branch");
    push_text(&mut args, branch);
    push_text(&mut args, "--single-branch");
    push_text(&mut args, url);
    push_text(&mut args, local_path);
    assert(texts(args@) =~= seq![
        "clone"@,
        "--branch"@,
        branch@,
        "--single-branch"@,
        url@,
        local_path@,
    ]);
    Command { program: String::from_str("git"), args, cwd: None, capture: false }
}

/// The command that prints the revision that the working tree stands at.
pub fn get_head(local_path: &str) -> (command: Command)
    ensures
        command@ == spec_get_head(local_path@),
{
    let mut args: Vec<String> = Vec::new();
    push_text(&mut args, "rev-parse");
    push_text(&mut args, "HEAD");
    assert(texts(args@) =~= seq!["rev-parse"@, "HEAD"@]);
    Command {
        program: String::from_str("git"),
        args,
        cwd: Some(Dir::At(String::from_str(local_path))),
        capture: true,
    }
}

/// The command that moves the working tree forward to what its remote holds.
pub fn pull_command(local_path: &str) -> (command: Command)
    ensures
        command@ == spec_pull_command(local_path@),
{
    let mut args: Vec<String> = Vec::new();
    push_text(&mut args, "pull");
    push_text(&mut args, "--ff-only");
    assert(texts(args@) =~= seq!["pull"@, "--ff-only"@]);
    Command {
        program: String::from_str("git"),
        args,
        cwd: Some(Dir::At(String::from_str(local_path))),
        capture: false,
    }
}

/// Where making sure of the repository stands.
#[derive(Debug, Clone, Copy, PartialEq, Eq, Structural)]
pub enum RepoStage {
    /// Finding out whether the working directory exists.
    Probing,
    /// Cloning the repository into it.
    Cloning,
}

impl View for RepoStage {
    type V = RepoStage;

    open spec fn view(&self) -> RepoStage {
        *self
    }
}

/// The effect that `ensure_repo` waits for at `stage`.
pub open spec fn spec_ensure_repo_effect(
    local_path: Seq<char>,
    url: Seq<char>,
    branch: Seq<char>,
    stage: RepoStage,
) -> EffectView {
    match stage {
        RepoStage::Probing => EffectView::Probe { dir: DirView::At(local_path) },
        RepoStage::Cloning => EffectView::Run(spec_clone_command(local_path, url, branch)),
    }
}

/// Where making sure of the repository stands after `outcome`: done, with
/// nothing further to do, where the working directory exists; cloning where
/// it does not; done when the clone has ended, well or not.
pub open spec fn spec_ensure_repo(stage: RepoStage, outcome: OutcomeView) -> Flow<RepoStage, ()> {
    match stage {
        RepoStage::Probing => match outcome {
            OutcomeView::Present(true) => Flow::Done(Ok(())),
            OutcomeView::Present(false) => Flow::Continue(RepoStage::Cloning),
            _ => Flow::Done(Err(Failure::Infrastructure(Task::ProbeRepository))),
        },
        RepoStage::Cloning => if outcome.succeeded() {
            Flow::Done(Ok(()))
        } else {
            Flow::Done(Err(Failure::Infrastructure(Task::CloneRepository)))
        },
    }
}

/// The effect that `ensure_repo` waits for at `stage`.
pub fn ensure_repo_effect(local_path: &str, url: &str, branch: &str, stage: RepoStage) -> (effect:
    Effect)
    ensures
        effect@ == spec_ensure_repo_effect(local_path@, url@, branch@, stage),
{
    match stage {
        RepoStage::Probing => Effect::Probe { dir: Dir::At(String::from_str(local_path)) },
        RepoStage::Cloning => Effect::Run(clone_command(local_path, url, branch)),
    }
}

/// One step of making sure that the repository is there. It begins at
/// `RepoStage::Probing`. Where the working directory is present already, it
/// ends at once and nothing is cloned.
pub fn ensure_repo(stage: RepoStage, outcome: &Outcome) -> (flow: Flow<RepoStage, ()>)
    ensures
        flow == spec_ensure_repo(stage, outcome@),
        stage == RepoStage::Probing && outcome@ == OutcomeView::Present(true) ==> flow
            == Flow::<RepoStage, ()>::Done(Ok(())),
{
    match stage {
        RepoStage::Probing => match outcome {
            Outcome::Present(true) => Flow::Done(Ok(())),
            Outcome::Present(false) => Flow::Continue(RepoStage::Cloning),
            _ => Flow::Done(Err(Failure::Infrastructure(Task::ProbeRepository))),
        },
        RepoStage::Cloning => {
            if outcome.succeeded() {
                Flow::Done(Ok(()))
            } else {
                Flow::Done(Err(Failure::Infrastructure(Task::CloneRepository)))
            }
        },
    }
}

/// Where a pull stands.
#[derive(Debug)]
pub enum PullStage {
    /// Reading the revision before the pull.
    HeadBefore,
    /// Pulling; `before` is the revision read first.
    Pulling { before: String },
    /// Reading the revision after the pull.
    HeadAfter { before: String },
}

pub enum PullStageView {
    HeadBefore,
    Pulling { before: Seq<char> },
    HeadAfter { before: Seq<char> },
}

impl View for PullStage {
    type V = PullStageView;

    open spec fn view(&self) -> PullStageView {
        match self {
            PullStage::HeadBefore => PullStageView::HeadBefore,
            PullStage::Pulling { before } => PullStageView::Pulling { before: before@ },
            PullStage::HeadAfter { before } => PullStageView::HeadAfter { before: before@ },
        }
    }
}

/// The effect that `pull` waits for at `stage`.
pub open spec fn spec_pull_effect(local_path: Seq<char>, stage: PullStageView) -> EffectView {
    match stage {
        PullStageView::HeadBefore => EffectView::Run(spec_get_head(local_path)),
        PullStageView::Pulling { .. } => EffectView::Run(spec_pull_command(local_path)),
        PullStageView::HeadAfter { .. } => EffectView::Run(spec_get_head(local_path)),
    }
}

/// Where a pull stands after `outcome`. It ends with whether the revision
/// read after the pull differs from the one read before it, or with the
/// command that failed.
pub open spec fn spec_pull(stage: PullStageView, outcome: OutcomeView) -> Flow<
    PullStageView,
    bool,
> {
    match stage {
        PullStageView::HeadBefore => match outcome {
            OutcomeView::Exited { success: true, output } => Flow::Continue(
                PullStageView::Pulling { before: output },
            ),
            _ => Flow::Done(Err(Failure::Infrastructure(Task::ReadHead))),
        },
        PullStageView::Pulling { before } => if outcome.succeeded() {
            Flow::Continue(PullStageView::HeadAfter { before })
        } else {
            Flow::Done(Err(Failure::Infrastructure(Task::Pull)))
        },
        PullStageView::HeadAfter { before } => match outcome {
            OutcomeView::Exited { success: true, output } => Flow::Done(Ok(before != output)),
            _ => Flow::Done(Err(Failure::Infrastructure(Task::ReadHead))),
        },
    }
}

/// The effect that `pull` waits for at `stage`.
pub fn pull_effect(local_path: &str, stage: &PullStage) -> (effect: Effect)
    ensures
        effect@ == spec_pull_effect(local_path@, stage@),
{
    match stage {
        PullStage::HeadBefore => Effect::Run(get_head(local_path)),
        PullStage::Pulling { .. } => Effect::Run(pull_command(local_path)),
        PullStage::HeadAfter { .. } => Effect::Run(get_head(local_path)),
    }
}

/// One step of a pull, which begins at `PullStage::HeadBefore`. A pull that
/// ends well says whether there were updates.
pub fn pull(stage: PullStage, outcome: &Outcome) -> (flow: Flow<PullStage, bool>)
    ensures
        flow@ == spec_pull(stage@, outcome@),
{
    match stage {
        PullStage::HeadBefore => match outcome {
            Outcome::Exited { success: true, output } => Flow::Continue(
                PullStage::Pulling { before: output.clone() },
            ),
            _ => Flow::Done(Err(Failure::Infrastructure(Task::ReadHead))),
        },
        PullStage::Pulling { before } => {
            if outcome.succeeded() {
                Flow::Continue(PullStage::HeadAfter { before })
            } else {
                Flow::Done(Err(Failure::Infrastructure(Task::Pull)))
            }
        },
        PullStage::HeadAfter { before } => match outcome {
            Outcome::Exited { success: true, output } => Flow::Done(
                Ok(!same_text(before.as_str(), output.as_str())),
            ),
            _ => Flow::Done(Err(Failure::Infrastructure(Task::ReadHead))),
        },
    }
}

} // verus!
