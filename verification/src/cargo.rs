//! The operations on the cached build of a project, step by step.
//!
//! An operation is a small state machine. Started, it names a first action; the driver
//! performs the action and reports what came of it to [`Cargo::advance`], which names
//! the next action, until the operation is finished or has failed. Every decision lies
//! here, and none of the work.

use vstd::prelude::*;
use crate::action::{
    exit_verdict, run, texts, Action, ActionView, Event, EventView, Exit, ExitView, Goal, Invocation,
    InvocationView, Stage, Step, StepView,
};
use crate::failure::{Failure, FailureModel, Subcommand};
use crate::manifest::{manifest, manifest_content};
use crate::project::{Project, ProjectView};
use crate::state::{
    staleness, state_of, CargoMode, CargoState, Observation, ObservationView,
};
use crate::stream::{artifact, built_executable_path, readings};

verus! {

/// The run of the toolchain that sets up the home of `project`.
pub open spec fn init_command(project: ProjectView) -> InvocationView {
    InvocationView {
        subcommand: Subcommand::Init,
        program: "cargo"@,
        arguments: seq![
            "init"@,
            "--quiet"@,
            "--vcs"@,
            "none"@,
            "--name"@,
            project.name,
            "--bin"@,
            project.home,
        ],
        directory: None,
        captured: true,
    }
}

/// The optimised build of `project`: silent with its output captured, or verbose with
/// its output passed on in colour.
pub open spec fn build_command(project: ProjectView, mode: CargoMode) -> InvocationView {
    InvocationView {
        subcommand: Subcommand::Build,
        program: "cargo"@,
        arguments: match mode {
            CargoMode::Silent => seq!["build"@, "--release"@],
            CargoMode::Verbose => seq!["build"@, "--color"@, "always"@, "--release"@],
        },
        directory: Some(project.home),
        captured: mode == CargoMode::Silent,
    }
}

/// The optimised build of `project` asked for its event stream, which is captured.
pub open spec fn query_command(project: ProjectView) -> InvocationView {
    InvocationView {
        subcommand: Subcommand::Build,
        program: "cargo"@,
        arguments: seq!["build"@, "--message-format=json"@, "--release"@],
        directory: Some(project.home),
        captured: true,
    }
}

/// The toolchain's check of `project`, or the run of its tests, with the output
/// passed on in colour.
pub open spec fn verify_command(project: ProjectView, subcommand: Subcommand) -> InvocationView {
    InvocationView {
        subcommand,
        program: "cargo"@,
        arguments: seq![
            if subcommand == Subcommand::Test {
                "test"@
            } else {
                "check"@
            },
            "--color"@,
            "always"@,
        ],
        directory: Some(project.home),
        captured: false,
    }
}

/// The step that makes the home of `project` ready for the toolchain: to set it up
/// where its directory of sources is missing, and nothing where it is there.
pub open spec fn ready(project: ProjectView, has_sources: bool) -> StepView {
    if has_sources {
        StepView::Finished
    } else {
        run(init_command(project))
    }
}

/// The look at `project` that its state is derived from.
pub open spec fn observe(project: ProjectView) -> ActionView {
    ActionView::Observe {
        script: project.script,
        source: project.source(),
        artifact: project.artifact(),
    }
}

/// The first step of every operation that begins with a look at the project.
pub open spec fn begin(project: ProjectView, goal: Goal) -> StepView {
    StepView::Next(Stage::Checking(goal), observe(project))
}

/// Whether `goal` has the source written whatever its state.
pub open spec fn forced(goal: Goal) -> bool {
    goal == Goal::Update || goal == Goal::Checked || goal == Goal::Tested
}

/// The step that writes the script with the content `script` to the cache, on the way
/// to `goal`. A script without a manifest fails here, before anything is written or run.
pub open spec fn materialize(project: ProjectView, goal: Goal, script: Seq<char>) -> StepView {
    match manifest(script) {
        None => StepView::Failed(FailureModel::ManifestNotFound),
        Some(found) => StepView::Next(
            Stage::Updating(goal),
            ActionView::Materialize {
                source_path: project.source(),
                source: script,
                manifest_path: project.manifest(),
                manifest: found,
            },
        ),
    }
}

/// The step on the way to `goal` once the source is current and the state is `state`:
/// a build where one is asked for and the artifact is stale, and else the end.
pub open spec fn build_if_stale(project: ProjectView, goal: Goal, state: CargoState) -> StepView {
    match goal {
        Goal::Built(mode) => if state.stale_artifact() {
            run(build_command(project, mode))
        } else {
            StepView::Finished
        },
        _ => StepView::Finished,
    }
}

/// The step after the first look `seen` at the project.
pub open spec fn checked(project: ProjectView, goal: Goal, seen: ObservationView) -> StepView {
    if forced(goal) {
        materialize(project, goal, seen.script)
    } else {
        match staleness(seen) {
            Err(failure) => StepView::Failed(failure),
            Ok(state) => if state.stale_source() {
                materialize(project, goal, seen.script)
            } else {
                build_if_stale(project, goal, state)
            },
        }
    }
}

/// The step after the source was written.
pub open spec fn updated(project: ProjectView, goal: Goal) -> StepView {
    match goal {
        Goal::Update | Goal::Updated => StepView::Finished,
        Goal::Built(mode) => StepView::Next(Stage::Deciding(mode), observe(project)),
        Goal::Checked => run(verify_command(project, Subcommand::Check)),
        Goal::Tested => run(verify_command(project, Subcommand::Test)),
    }
}

/// The step after the fresh look `seen` that follows the writing of the source.
pub open spec fn decided(project: ProjectView, mode: CargoMode, seen: ObservationView) -> StepView {
    match staleness(seen) {
        Err(failure) => StepView::Failed(failure),
        Ok(state) => build_if_stale(project, Goal::Built(mode), state),
    }
}

/// The step after a run of `subcommand` ended in `exit`. A build that succeeded is
/// followed by the query for its event stream; any other run that succeeded ends the
/// operation.
pub open spec fn ran(
    project: ProjectView,
    subcommand: Subcommand,
    captured: bool,
    exit: ExitView,
) -> StepView {
    match exit_verdict(subcommand, captured, exit) {
        Err(failure) => StepView::Failed(failure),
        Ok(()) => if subcommand == Subcommand::Build {
            StepView::Next(Stage::Locating, ActionView::Run(query_command(project)))
        } else {
            StepView::Finished
        },
    }
}

/// The step after the query for the event stream ended in `exit`: the artifact that
/// the stream names is moved to its stable path.
pub open spec fn located(project: ProjectView, exit: ExitView) -> StepView {
    match exit_verdict(Subcommand::Build, true, exit) {
        Err(failure) => StepView::Failed(failure),
        Ok(()) => match artifact(readings(exit.stdout)) {
            None => StepView::Failed(FailureModel::ArtifactPathNotResolved),
            Some(path) => StepView::Next(
                Stage::Moving,
                ActionView::Relocate { from: path, to: project.artifact() },
            ),
        },
    }
}

/// The step that follows when `event` is reported to an operation on `project` that
/// stands at `stage`. An event that does not answer what the stage asked for means
/// that the action was not performed, and fails the operation with `IoError`.
pub open spec fn next(project: ProjectView, stage: Stage, event: EventView) -> StepView {
    match (stage, event) {
        (Stage::Checking(goal), EventView::Observed(seen)) => checked(project, goal, seen),
        (Stage::Updating(goal), EventView::Completed) => updated(project, goal),
        (Stage::Deciding(mode), EventView::Observed(seen)) => decided(project, mode, seen),
        (Stage::Running(subcommand, captured), EventView::Exited(exit)) => ran(
            project,
            subcommand,
            captured,
            exit,
        ),
        (Stage::Locating, EventView::Exited(exit)) => located(project, exit),
        (Stage::Moving, EventView::Completed) => StepView::Finished,
        _ => StepView::Failed(FailureModel::IoError),
    }
}

/// Appends `text` to the arguments.
fn push_arg(arguments: &mut Vec<String>, text: &str)
    ensures
        texts(final(arguments)@) == texts(old(arguments)@).push(text@),
{
    arguments.push(text.to_owned());
    assert(texts(arguments@) =~= texts(old(arguments)@).push(text@));
}

/// The toolchain at work on one project.
#[derive(Debug)]
pub struct Cargo<'p> {
    project: &'p Project,
}

impl<'p> View for Cargo<'p> {
    type V = ProjectView;

    closed spec fn view(&self) -> ProjectView {
        self.project@
    }
}

impl<'p> Cargo<'p> {
    /// The toolchain for `project`, and the step that makes its home ready: to set the
    /// home up where `has_sources` says that its directory of sources is missing, and
    /// nothing where it is there.
    pub fn new(project: &'p Project, has_sources: bool) -> (r: (Cargo<'p>, Step))
        ensures
            r.0@ == project@,
            r.1@ == ready(project@, has_sources),
    {
        let cargo = Cargo { project };
        if has_sources {
            (cargo, Step::Finished)
        } else {
            let mut arguments: Vec<String> = Vec::new();
            assert(texts(arguments@) =~= Seq::<Seq<char>>::empty());
            push_arg(&mut arguments, "init");
            push_arg(&mut arguments, "--quiet");
            push_arg(&mut arguments, "--vcs");
            push_arg(&mut arguments, "none");
            push_arg(&mut arguments, "--name");
            push_arg(&mut arguments, project.name().as_str());
            push_arg(&mut arguments, "--bin");
            push_arg(&mut arguments, project.home().as_str());
            assert(texts(arguments@) =~= init_command(project@).arguments);
            let invocation = Invocation {
                subcommand: Subcommand::Init,
                program: "cargo".to_owned(),
                arguments,
                directory: None,
                captured: true,
            };
            (cargo, Step::run(invocation))
        }
    }

    /// The project that this toolchain works on.
    pub fn project(&self) -> (r: &'p Project)
        ensures
            r@ == self@,
    {
        self.project
    }

    /// The state of the project of which `seen` was seen.
    ///
    /// Fails with `IoError` where a look that the state depends on was refused.
    pub fn state(&self, seen: &Observation) -> (r: Result<CargoState, Failure>)
        ensures
            match r {
                Ok(state) => staleness(seen@) == Ok::<CargoState, FailureModel>(state),
                Err(e) => staleness(seen@) == Err::<CargoState, FailureModel>(e@),
            },
    {
        state_of(seen)
    }

    /// The look at the project that its state is derived from.
    fn observe(&self) -> (r: Action)
        ensures
            r@ == observe(self@),
    {
        Action::Observe {
            script: self.project.script().clone(),
            source: self.project.main_path(),
            artifact: self.project.binary_path(),
        }
    }

    /// The first step of an operation that begins with a look at the project.
    fn begin(&self, goal: Goal) -> (r: Step)
        ensures
            r@ == begin(self@, goal),
    {
        Step::Next(Stage::Checking(goal), self.observe())
    }

    /// Starts writing the source to the cache, whatever its state.
    pub fn update(&self) -> (r: Step)
        ensures
            r@ == begin(self@, Goal::Update),
    {
        self.begin(Goal::Update)
    }

    /// Starts a build of the project in `mode`, whatever its state.
    pub fn build(&self, mode: CargoMode) -> (r: Step)
        ensures
            r@ == run(build_command(self@, mode)),
    {
        Step::run(self.build_command(mode))
    }

    /// Starts making the source in the cache current.
    pub fn ensure_updated(&self) -> (r: Step)
        ensures
            r@ == begin(self@, Goal::Updated),
    {
        self.begin(Goal::Updated)
    }

    /// Starts making source and artifact current, with builds in `mode`.
    pub fn ensure_built(&self, mode: CargoMode) -> (r: Step)
        ensures
            r@ == begin(self@, Goal::Built(mode)),
    {
        self.begin(Goal::Built(mode))
    }

    /// Starts a check of the project by the toolchain, on a source written anew.
    pub fn check(&self) -> (r: Step)
        ensures
            r@ == begin(self@, Goal::Checked),
    {
        self.begin(Goal::Checked)
    }

    /// Starts a run of the project's tests, on a source written anew.
    pub fn test(&self) -> (r: Step)
        ensures
            r@ == begin(self@, Goal::Tested),
    {
        self.begin(Goal::Tested)
    }

    /// The step that follows when `event` is reported to an operation that stands at
    /// `stage`.
    pub fn advance(&self, stage: Stage, event: Event) -> (r: Step)
        ensures
            r@ == next(self@, stage, event@),
    {
        match (stage, event) {
            (Stage::Checking(goal), Event::Observed(seen)) => self.checked(goal, seen),
            (Stage::Updating(goal), Event::Completed) => self.updated(goal),
            (Stage::Deciding(mode), Event::Observed(seen)) => self.decided(mode, &seen),
            (Stage::Running(subcommand, captured), Event::Exited(exit)) => self.ran(
                subcommand,
                captured,
                exit,
            ),
            (Stage::Locating, Event::Exited(exit)) => self.located(exit),
            (Stage::Moving, Event::Completed) => Step::Finished,
            _ => Step::Failed(Failure::IoError),
        }
    }

    /// The optimised build of the project in `mode`.
    fn build_command(&self, mode: CargoMode) -> (r: Invocation)
        ensures
            r@ == build_command(self@, mode),
    {
        let mut arguments: Vec<String> = Vec::new();
        assert(texts(arguments@) =~= Seq::<Seq<char>>::empty());
        push_arg(&mut arguments, "build");
        match mode {
            CargoMode::Silent => {},
            CargoMode::Verbose => {
                push_arg(&mut arguments, "--color");
                push_arg(&mut arguments, "always");
            },
        }
        push_arg(&mut arguments, "--release");
        assert(texts(arguments@) =~= build_command(self@, mode).arguments);
        Invocation {
            subcommand: Subcommand::Build,
            program: "cargo".to_owned(),
            arguments,
            directory: Some(self.project.home().clone()),
            captured: match mode {
                CargoMode::Silent => true,
                CargoMode::Verbose => false,
            },
        }
    }

    /// The optimised build of the project asked for its event stream.
    fn query_command(&self) -> (r: Invocation)
        ensures
            r@ == query_command(self@),
    {
        let mut arguments: Vec<String> = Vec::new();
        assert(texts(arguments@) =~= Seq::<Seq<char>>::empty());
        push_arg(&mut arguments, "build");
        push_arg(&mut arguments, "--message-format=json");
        push_arg(&mut arguments, "--release");
        assert(texts(arguments@) =~= query_command(self@).arguments);
        Invocation {
            subcommand: Subcommand::Build,
            program: "cargo".to_owned(),
            arguments,
            directory: Some(self.project.home().clone()),
            captured: true,
        }
    }

    /// The toolchain's check of the project, or the run of its tests.
    fn verify_command(&self, subcommand: Subcommand) -> (r: Invocation)
        ensures
            r@ == verify_command(self@, subcommand),
    {
        let mut arguments: Vec<String> = Vec::new();
        assert(texts(arguments@) =~= Seq::<Seq<char>>::empty());
        match subcommand {
            Subcommand::Test => push_arg(&mut arguments, "test"),
            _ => push_arg(&mut arguments, "check"),
        }
        push_arg(&mut arguments, "--color");
        push_arg(&mut arguments, "always");
        assert(texts(arguments@) =~= verify_command(self@, subcommand).arguments);
        Invocation {
            subcommand,
            program: "cargo".to_owned(),
            arguments,
            directory: Some(self.project.home().clone()),
            captured: false,
        }
    }

    /// The step that writes the script with the content `script` to the cache.
    fn materialize(&self, goal: Goal, script: String) -> (r: Step)
        ensures
            r@ == materialize(self@, goal, script@),
    {
        match manifest_content(script.as_str()) {
            Err(failure) => Step::Failed(failure),
            Ok(found) => Step::Next(
                Stage::Updating(goal),
                Action::Materialize {
                    source_path: self.project.main_path(),
                    source: script,
                    manifest_path: self.project.manifest_path(),
                    manifest: found,
                },
            ),
        }
    }

    /// The step once the source is current and the state is `state`.
    fn build_if_stale(&self, goal: Goal, state: CargoState) -> (r: Step)
        ensures
            r@ == build_if_stale(self@, goal, state),
    {
        match goal {
            Goal::Built(mode) => {
                if state.needs_build() {
                    self.build(mode)
                } else {
                    Step::Finished
                }
            },
            _ => Step::Finished,
        }
    }

    /// The step after the first look at the project.
    fn checked(&self, goal: Goal, seen: Observation) -> (r: Step)
        ensures
            r@ == checked(self@, goal, seen@),
    {
        let forced = match goal {
            Goal::Update | Goal::Checked | Goal::Tested => true,
            _ => false,
        };
        if forced {
            return self.materialize(goal, seen.script);
        }
        match self.state(&seen) {
            Err(failure) => Step::Failed(failure),
            Ok(state) => {
                if state.needs_update() {
                    self.materialize(goal, seen.script)
                } else {
                    self.build_if_stale(goal, state)
                }
            },
        }
    }

    /// The step after the source was written.
    fn updated(&self, goal: Goal) -> (r: Step)
        ensures
            r@ == updated(self@, goal),
    {
        match goal {
            Goal::Update | Goal::Updated => Step::Finished,
            Goal::Built(mode) => Step::Next(Stage::Deciding(mode), self.observe()),
            Goal::Checked => Step::run(self.verify_command(Subcommand::Check)),
            Goal::Tested => Step::run(self.verify_command(Subcommand::Test)),
        }
    }

    /// The step after the fresh look that follows the writing of the source.
    fn decided(&self, mode: CargoMode, seen: &Observation) -> (r: Step)
        ensures
            r@ == decided(self@, mode, seen@),
    {
        match self.state(seen) {
            Err(failure) => Step::Failed(failure),
            Ok(state) => self.build_if_stale(Goal::Built(mode), state),
        }
    }

    /// The step after a run of `subcommand` ended.
    fn ran(&self, subcommand: Subcommand, captured: bool, exit: Exit) -> (r: Step)
        ensures
            r@ == ran(self@, subcommand, captured, exit@),
    {
        match exit.settle(subcommand, captured) {
            Err(failure) => Step::Failed(failure),
            Ok(()) => match subcommand {
                Subcommand::Build => Step::Next(Stage::Locating, Action::Run(self.query_command())),
                _ => Step::Finished,
            },
        }
    }

    /// The step after the query for the event stream ended.
    fn located(&self, exit: Exit) -> (r: Step)
        ensures
            r@ == located(self@, exit@),
    {
        if !exit.success() {
            return match exit.settle(Subcommand::Build, true) {
                Err(failure) => Step::Failed(failure),
                Ok(()) => Step::Finished,
            };
        }
        match built_executable_path(exit.stdout.as_str()) {
            Err(failure) => Step::Failed(failure),
            Ok(path) => Step::Next(
                Stage::Moving,
                Action::Relocate { from: path, to: self.project.binary_path() },
            ),
        }
    }
}

} // verus!
