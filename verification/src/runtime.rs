//! The interface to the world outside: what the library asks its host to
//! do (an `Effect`), and what the host reports back (an `Outcome`).
//!
//! The library performs no input or output itself. Each of its control loops
//! is a function from a stage and an outcome to the next stage; the host
//! performs the effect that belongs to a stage and hands the outcome back.

use vstd::prelude::*;
use crate::text::texts;

verus! {

/// A directory on the host.
#[derive(Debug)]
pub enum Dir {
    /// The directory at this path.
    At(String),
    /// The directory of this name under the host's directory for temporary
    /// files, made if it is missing.
    Scratch(String),
}

pub enum DirView {
    At(Seq<char>),
    Scratch(Seq<char>),
}

impl View for Dir {
    type V = DirView;

    open spec fn view(&self) -> DirView {
        match self {
            Dir::At(path) => DirView::At(path@),
            Dir::Scratch(name) => DirView::Scratch(name@),
        }
    }
}

/// A program to run to completion.
#[derive(Debug)]
pub struct Command {
    pub program: String,
    pub args: Vec<String>,
    /// The working directory; the host's own where `None`.
    pub cwd: Option<Dir>,
    /// Whether what the program prints is to be handed back, rather than
    /// shown.
    pub capture: bool,
}

pub struct CommandView {
    pub program: Seq<char>,
    pub args: Seq<Seq<char>>,
    pub cwd: Option<DirView>,
    pub capture: bool,
}

impl View for Command {
    type V = CommandView;

    open spec fn view(&self) -> CommandView {
        CommandView {
            program: self.program@,
            args: texts(self.args@),
            cwd: match self.cwd {
                Some(dir) => Some(dir@),
                None => None,
            },
            capture: self.capture,
        }
    }
}

/// Something for the host to do.
#[derive(Debug)]
pub enum Effect {
    /// Run the command and wait for it to end.
    Run(Command),
    /// Replace the file `name` in `dir` by `content`, in one piece.
    Write { dir: Dir, name: String, content: String },
    /// Read the file `name` in `dir`.
    Read { dir: Dir, name: String },
    /// Find out whether `dir` exists.
    Probe { dir: Dir },
    /// Wait for this many milliseconds.
    Sleep { millis: u64 },
}

pub enum EffectView {
    Run(CommandView),
    Write { dir: DirView, name: Seq<char>, content: Seq<char> },
    Read { dir: DirView, name: Seq<char> },
    Probe { dir: DirView },
    Sleep { millis: u64 },
}

impl View for Effect {
    type V = EffectView;

    open spec fn view(&self) -> EffectView {
        match self {
            Effect::Run(command) => EffectView::Run(command@),
            Effect::Write { dir, name, content } => EffectView::Write {
                dir: dir@,
                name: name@,
                content: content@,
            },
            Effect::Read { dir, name } => EffectView::Read { dir: dir@, name: name@ },
            Effect::Probe { dir } => EffectView::Probe { dir: dir@ },
            Effect::Sleep { millis } => EffectView::Sleep { millis: *millis },
        }
    }
}

/// What came of an effect.
#[derive(Debug)]
pub enum Outcome {
    /// The command ran and ended, with a zero status where `success`;
    /// `output` is what it printed, if that was captured.
    Exited { success: bool, output: String },
    /// The command could not be started.
    Unlaunched,
    /// Whether the file was written.
    Written(bool),
    /// The file's text; `None` where it is absent or cannot be read.
    Content(Option<String>),
    /// Whether the directory exists.
    Present(bool),
    /// The wait is over.
    Slept,
}

pub enum OutcomeView {
    Exited { success: bool, output: Seq<char> },
    Unlaunched,
    Written(bool),
    Content(Option<Seq<char>>),
    Present(bool),
    Slept,
}

impl OutcomeView {
    /// Whether this is the outcome of a command that ended with a zero
    /// status.
    pub open spec fn succeeded(self) -> bool {
        self matches OutcomeView::Exited { success: true, .. }
    }
}

impl View for Outcome {
    type V = OutcomeView;

    open spec fn view(&self) -> OutcomeView {
        match self {
            Outcome::Exited { success, output } => OutcomeView::Exited {
                success: *success,
                output: output@,
            },
            Outcome::Unlaunched => OutcomeView::Unlaunched,
            Outcome::Written(done) => OutcomeView::Written(*done),
            Outcome::Content(text) => OutcomeView::Content(
                match text {
                    Some(text) => Some(text@),
                    None => None,
                },
            ),
            Outcome::Present(present) => OutcomeView::Present(*present),
            Outcome::Slept => OutcomeView::Slept,
        }
    }
}

impl Outcome {
    /// Whether this is the outcome of a command that ended with a zero
    /// status.
    pub fn succeeded(&self) -> (r: bool)
        ensures
            r == self@.succeeded(),
    {
        match self {
            Outcome::Exited { success, .. } => *success,
            _ => false,
        }
    }
}

/// The step of a deployment that failed.
#[derive(Debug, Clone, Copy, PartialEq, Eq, Structural)]
pub enum Task {
    CreateNetwork,
    ProbeProxy,
    WriteProxyDefinition,
    LaunchProxy,
    ProbeRepository,
    CloneRepository,
    ReadHead,
    Pull,
    WriteOverlay,
    StackUp,
    QueryHealth,
}

/// Why an operation failed.
#[derive(Debug, Clone, Copy, PartialEq, Eq, Structural)]
pub enum Failure {
    /// A command or a file operation failed, or a command ended with a
    /// non-zero status.
    Infrastructure(Task),
    /// A container of the candidate reported itself unhealthy.
    HealthUnhealthy,
    /// The candidate did not become healthy in time.
    HealthTimeout,
    /// The record of the live slot could not be written.
    StateIo,
}

/// Where a control loop stands after an outcome: at a further stage, whose
/// effect is to be performed next, or at its end.
#[derive(Debug)]
pub enum Flow<S, T> {
    Continue(S),
    Done(Result<T, Failure>),
}

impl<S: View, T> View for Flow<S, T> {
    type V = Flow<S::V, T>;

    open spec fn view(&self) -> Flow<S::V, T> {
        match self {
            Flow::Continue(stage) => Flow::Continue(stage@),
            Flow::Done(result) => Flow::Done(*result),
        }
    }
}

} // verus!
