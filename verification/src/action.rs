//! What the library asks of its driver, and what the driver reports back.
//!
//! The library touches neither the file system nor any process. Each operation hands
//! out one [`Action`] at a time; the driver performs it and reports an [`Event`].

use vstd::prelude::*;
use crate::failure::{Failure, FailureModel, Subcommand};
use crate::state::{CargoMode, Observation, ObservationView};

verus! {

/// The texts of the strings, in order.
pub open spec fn texts(strings: Seq<String>) -> Seq<Seq<char>> {
    Seq::new(strings.len(), |i: int| strings[i]@)
}

/// The text of the string, if there is one.
pub open spec fn text_of(string: Option<String>) -> Option<Seq<char>> {
    match string {
        Some(s) => Some(s@),
        None => None,
    }
}

/// One run of the build toolchain's driver.
#[derive(Debug, PartialEq, Eq)]
pub struct Invocation {
    /// The subcommand that is run.
    pub subcommand: Subcommand,
    /// The program to start.
    pub program: String,
    /// Its arguments, the subcommand first.
    pub arguments: Vec<String>,
    /// The directory to run it in; `None` for the directory of the driver.
    pub directory: Option<String>,
    /// Whether its output is captured rather than passed on to the terminal.
    pub captured: bool,
}

/// An [`Invocation`] with its texts as sequences of characters.
pub struct InvocationView {
    pub subcommand: Subcommand,
    pub program: Seq<char>,
    pub arguments: Seq<Seq<char>>,
    pub directory: Option<Seq<char>>,
    pub captured: bool,
}

impl View for Invocation {
    type V = InvocationView;

    open spec fn view(&self) -> InvocationView {
        InvocationView {
            subcommand: self.subcommand,
            program: self.program@,
            arguments: texts(self.arguments@),
            directory: text_of(self.directory),
            captured: self.captured,
        }
    }
}

/// Something for the driver to do.
#[derive(Debug, PartialEq, Eq)]
pub enum Action {
    /// Look at the project: read the script at `script` and its modification time,
    /// digest the file at `source`, and take the modification time of the file at
    /// `artifact`. Answered by `Event::Observed`.
    Observe { script: String, source: String, artifact: String },
    /// Write `source` to the file at `source_path`, then `manifest` to the file at
    /// `manifest_path`. Answered by `Event::Completed`.
    Materialize { source_path: String, source: String, manifest_path: String, manifest: String },
    /// Run the toolchain and wait for it. Answered by `Event::Exited`.
    Run(Invocation),
    /// Move the file at `from` to `to` by renaming it, in place of what is there.
    /// Answered by `Event::Completed`.
    Relocate { from: String, to: String },
    /// Delete the directory at the path with all that it holds. Answered by
    /// `Event::Completed`.
    Remove(String),
    /// Replace the running process by `program`, known to itself as `name`, with
    /// `arguments`. Where that succeeds there is nobody left to answer.
    Launch { program: String, name: String, arguments: Vec<String> },
}

/// An [`Action`] with its texts as sequences of characters.
pub enum ActionView {
    Observe { script: Seq<char>, source: Seq<char>, artifact: Seq<char> },
    Materialize {
        source_path: Seq<char>,
        source: Seq<char>,
        manifest_path: Seq<char>,
        manifest: Seq<char>,
    },
    Run(InvocationView),
    Relocate { from: Seq<char>, to: Seq<char> },
    Remove(Seq<char>),
    Launch { program: Seq<char>, name: Seq<char>, arguments: Seq<Seq<char>> },
}

impl View for Action {
    type V = ActionView;

    open spec fn view(&self) -> ActionView {
        match self {
            Action::Observe { script, source, artifact } => ActionView::Observe {
                script: script@,
                source: source@,
                artifact: artifact@,
            },
            Action::Materialize {
                source_path,
                source,
                manifest_path,
                manifest,
            } => ActionView::Materialize {
                source_path: source_path@,
                source: source@,
                manifest_path: manifest_path@,
                manifest: manifest@,
            },
            Action::Run(invocation) => ActionView::Run(invocation@),
            Action::Relocate { from, to } => ActionView::Relocate { from: from@, to: to@ },
            Action::Remove(path) => ActionView::Remove(path@),
            Action::Launch { program, name, arguments } => ActionView::Launch {
                program: program@,
                name: name@,
                arguments: texts(arguments@),
            },
        }
    }
}

/// How a run of the toolchain ended.
#[derive(Debug, PartialEq, Eq)]
pub struct Exit {
    /// The exit status; `None` where the process was ended by a signal.
    pub code: Option<i32>,
    /// What it wrote to standard output, where that was captured.
    pub stdout: String,
    /// What it wrote to standard error, where that was captured.
    pub stderr: String,
}

/// An [`Exit`] with its texts as sequences of characters.
pub struct ExitView {
    pub code: Option<i32>,
    pub stdout: Seq<char>,
    pub stderr: Seq<char>,
}

impl View for Exit {
    type V = ExitView;

    open spec fn view(&self) -> ExitView {
        ExitView { code: self.code, stdout: self.stdout@, stderr: self.stderr@ }
    }
}

impl ExitView {
    /// Whether the process exited with status zero.
    pub open spec fn success(self) -> bool {
        self.code == Some(0i32)
    }
}

/// What the driver reports of the action that it was given.
#[derive(Debug, PartialEq, Eq)]
pub enum Event {
    /// The project was looked at.
    Observed(Observation),
    /// The action was performed.
    Completed,
    /// The toolchain ran, and ended.
    Exited(Exit),
    /// The action could not be performed, or not to its end.
    Failed,
}

/// An [`Event`] with its texts as sequences of characters.
pub enum EventView {
    Observed(ObservationView),
    Completed,
    Exited(ExitView),
    Failed,
}

impl View for Event {
    type V = EventView;

    open spec fn view(&self) -> EventView {
        match self {
            Event::Observed(seen) => EventView::Observed(seen@),
            Event::Completed => EventView::Completed,
            Event::Exited(exit) => EventView::Exited(exit@),
            Event::Failed => EventView::Failed,
        }
    }
}

/// What an operation is after.
#[derive(Clone, Copy, Debug, PartialEq, Eq, Structural)]
pub enum Goal {
    /// The source in the cache written anew, whatever its state.
    Update,
    /// The source in the cache written anew if it differs.
    Updated,
    /// Source and artifact made current, the toolchain run in the given mode.
    Built(CargoMode),
    /// The source written anew and checked by the toolchain.
    Checked,
    /// The source written anew and its tests run.
    Tested,
}

/// Where an operation stands: what it has asked for and waits to hear of.
#[derive(Clone, Copy, Debug, PartialEq, Eq, Structural)]
pub enum Stage {
    /// A first look at the project.
    Checking(Goal),
    /// The source being written to the cache.
    Updating(Goal),
    /// A fresh look at the project, after the source was written.
    Deciding(CargoMode),
    /// A run of the toolchain, and whether its output is captured.
    Running(Subcommand, bool),
    /// A second run of the build, for its event stream.
    Locating,
    /// The artifact being moved to its stable path.
    Moving,
}

/// The outcome of one step of an operation.
#[derive(Debug, PartialEq, Eq)]
pub enum Step {
    /// The operation goes on: the driver performs the action and reports the event
    /// to the stage.
    Next(Stage, Action),
    /// The operation is done.
    Finished,
    /// The operation failed.
    Failed(Failure),
}

/// A [`Step`] with its texts as sequences of characters.
pub enum StepView {
    Next(Stage, ActionView),
    Finished,
    Failed(FailureModel),
}

impl View for Step {
    type V = StepView;

    open spec fn view(&self) -> StepView {
        match self {
            Step::Next(stage, action) => StepView::Next(*stage, action@),
            Step::Finished => StepView::Finished,
            Step::Failed(failure) => StepView::Failed(failure@),
        }
    }
}

/// What the event `event` says of the action `action` that it answers: success, or
/// the failure that it stands for.
///
/// A run of the toolchain succeeds only by exit status zero; any other end is an
/// `ExternalToolFailure` with the subcommand, the status and, where the output of the
/// run was captured, what it wrote to standard error. A launch never succeeds in the eyes of its caller: whatever is
/// reported of it, the process was not replaced. For every other action, and for a run
/// of which no exit is reported, anything but the answer that the action names is an
/// `IoError`.
pub open spec fn verdict(action: ActionView, event: EventView) -> Result<(), FailureModel> {
    match action {
        ActionView::Launch { .. } => Err(FailureModel::ExecutionFailed),
        ActionView::Run(invocation) => match event {
            EventView::Exited(exit) => exit_verdict(invocation.subcommand, invocation.captured, exit),
            _ => Err(FailureModel::IoError),
        },
        ActionView::Observe { .. } => match event {
            EventView::Observed(_) => Ok(()),
            _ => Err(FailureModel::IoError),
        },
        _ => match event {
            EventView::Completed => Ok(()),
            _ => Err(FailureModel::IoError),
        },
    }
}

/// What the end `exit` of a run of `subcommand` says: success by exit status zero, else
/// the failure of the toolchain. The failure of a run whose output was captured carries
/// what the run wrote to standard error; that of any other run carries no output, since
/// the output went to the terminal.
pub open spec fn exit_verdict(subcommand: Subcommand, captured: bool, exit: ExitView) -> Result<
    (),
    FailureModel,
> {
    if exit.success() {
        Ok(())
    } else {
        Err(
            FailureModel::ExternalToolFailure {
                subcommand,
                code: exit.code,
                output: if captured {
                    exit.stderr
                } else {
                    Seq::empty()
                },
            },
        )
    }
}

/// The step that has the toolchain run as `invocation` says.
pub open spec fn run(invocation: InvocationView) -> StepView {
    StepView::Next(
        Stage::Running(invocation.subcommand, invocation.captured),
        ActionView::Run(invocation),
    )
}

impl Exit {
    /// Whether the process exited with status zero.
    pub fn success(&self) -> (r: bool)
        ensures
            r == self@.success(),
    {
        match self.code {
            Some(code) => code == 0,
            None => false,
        }
    }

    /// What this end of a run of `subcommand` says, with its output captured or not:
    /// success, or the failure of the toolchain.
    pub fn settle(self, subcommand: Subcommand, captured: bool) -> (r: Result<(), Failure>)
        ensures
            match r {
                Ok(()) => exit_verdict(subcommand, captured, self@) == Ok::<(), FailureModel>(()),
                Err(e) => exit_verdict(subcommand, captured, self@) == Err::<(), FailureModel>(
                    e@,
                ),
            },
    {
        if self.success() {
            Ok(())
        } else {
            let output = if captured {
                self.stderr
            } else {
                String::new()
            };
            Err(Failure::ExternalToolFailure { subcommand, code: self.code, output })
        }
    }
}

impl Step {
    /// The step that has the toolchain run as `invocation` says.
    pub fn run(invocation: Invocation) -> (r: Step)
        ensures
            r@ == run(invocation@),
    {
        Step::Next(
            Stage::Running(invocation.subcommand, invocation.captured),
            Action::Run(invocation),
        )
    }
}

impl Action {
    /// What `event` says of this action, which it answers: success, or the failure that
    /// it stands for.
    pub fn settle(&self, event: Event) -> (r: Result<(), Failure>)
        ensures
            match r {
                Ok(()) => verdict(self@, event@) == Ok::<(), FailureModel>(()),
                Err(e) => verdict(self@, event@) == Err::<(), FailureModel>(e@),
            },
    {
        match self {
            Action::Launch { .. } => Err(Failure::ExecutionFailed),
            Action::Run(invocation) => match event {
                Event::Exited(exit) => exit.settle(invocation.subcommand, invocation.captured),
                _ => Err(Failure::IoError),
            },
            Action::Observe { .. } => match event {
                Event::Observed(_) => Ok(()),
                _ => Err(Failure::IoError),
            },
            _ => match event {
                Event::Completed => Ok(()),
                _ => Err(Failure::IoError),
            },
        }
    }
}

} // verus!
