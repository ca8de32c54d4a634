use denim::action::{Action, Event, Exit, Goal, Invocation, Stage, Step};
use denim::cargo::Cargo;
use denim::failure::{Failure, Subcommand};
use denim::project::{Project, Resolution};
use denim::state::{CargoMode, CargoState, Observation, Probe};

const HOME: &str = "/cache/project-4fc53cd1e0488003-hello";
const SCRIPT: &str = "/* Cargo.toml\n[package]\nname = \"hello\"\n*/\nfn main() {}\n";
const DIGEST: &str = "aa89409075458d166ca3941e6710c127f3b2b7446445a862a5ffb935d0e143eb";
const BARE: &str = "fn main() {}\n";
const BARE_DIGEST: &str = "536e506bb90914c243a12b397b9a998f85ae2cbd9ba02dfd03a9e155ca5ca0f4";

fn project() -> Project {
    Project::new(Resolution::File("/home/user/scripts/hello.rs".to_string()), "/cache").unwrap()
}

fn strings(items: &[&str]) -> Vec<String> {
    items.iter().map(|item| item.to_string()).collect()
}

fn run(subcommand: Subcommand, arguments: &[&str], captured: bool) -> Action {
    Action::Run(Invocation {
        subcommand,
        program: "cargo".to_string(),
        arguments: strings(arguments),
        directory: Some(HOME.to_string()),
        captured,
    })
}

fn observe() -> Action {
    Action::Observe {
        script: "/home/user/scripts/hello.rs".to_string(),
        source: format!("{}/src/main.rs", HOME),
        artifact: format!("{}/hello", HOME),
    }
}

fn materialize(script: &str, manifest: &str) -> Action {
    Action::Materialize {
        source_path: format!("{}/src/main.rs", HOME),
        source: script.to_string(),
        manifest_path: format!("{}/Cargo.toml", HOME),
        manifest: manifest.to_string(),
    }
}

fn seen(script: &str, source: Probe<String>, artifact: Probe<i128>) -> Event {
    Event::Observed(Observation {
        script: script.to_string(),
        script_modified: Probe::Found(1_000),
        source_digest: source,
        artifact_modified: artifact,
    })
}

fn exited(code: i32, stdout: &str, stderr: &str) -> Event {
    Event::Exited(Exit { code: Some(code), stdout: stdout.to_string(), stderr: stderr.to_string() })
}

fn current() -> Probe<String> {
    Probe::Found(DIGEST.to_string())
}

fn stale() -> Probe<String> {
    Probe::Found(BARE_DIGEST.to_string())
}

#[test]
fn home_without_sources_is_set_up_first() {
    let project = project();
    let (_, step) = Cargo::new(&project, false);
    assert_eq!(
        step,
        Step::Next(
            Stage::Running(Subcommand::Init, true),
            Action::Run(Invocation {
                subcommand: Subcommand::Init,
                program: "cargo".to_string(),
                arguments: strings(&["init", "--quiet", "--vcs", "none", "--name", "hello", "--bin", HOME]),
                directory: None,
                captured: true,
            })
        )
    );
    let (cargo, _) = project.cargo(false);
    assert_eq!(cargo.advance(Stage::Running(Subcommand::Init, true), exited(0, "", "")), Step::Finished);
    assert_eq!(
        cargo.advance(Stage::Running(Subcommand::Init, true), exited(101, "", "error: no home")),
        Step::Failed(Failure::ExternalToolFailure {
            subcommand: Subcommand::Init,
            code: Some(101),
            output: "error: no home".to_string(),
        })
    );
}

#[test]
fn home_with_sources_is_left_alone() {
    let project = project();
    let (cargo, step) = Cargo::new(&project, true);
    assert_eq!(step, Step::Finished);
    assert_eq!(cargo.project(), &project);
    assert_eq!(project.cargo(true).1, Step::Finished);
}

#[test]
fn every_operation_but_build_begins_with_a_look() {
    let project = project();
    let (cargo, _) = Cargo::new(&project, true);
    assert_eq!(cargo.update(), Step::Next(Stage::Checking(Goal::Update), observe()));
    assert_eq!(cargo.ensure_updated(), Step::Next(Stage::Checking(Goal::Updated), observe()));
    assert_eq!(
        cargo.ensure_built(CargoMode::Silent),
        Step::Next(Stage::Checking(Goal::Built(CargoMode::Silent)), observe())
    );
    assert_eq!(cargo.check(), Step::Next(Stage::Checking(Goal::Checked), observe()));
    assert_eq!(cargo.test(), Step::Next(Stage::Checking(Goal::Tested), observe()));
}

#[test]
fn build_runs_the_release_build_in_its_mode() {
    let project = project();
    let (cargo, _) = Cargo::new(&project, true);
    assert_eq!(
        cargo.build(CargoMode::Silent),
        Step::Next(Stage::Running(Subcommand::Build, true), run(Subcommand::Build, &["build", "--release"], true))
    );
    assert_eq!(
        cargo.build(CargoMode::Verbose),
        Step::Next(
            Stage::Running(Subcommand::Build, false),
            run(Subcommand::Build, &["build", "--color", "always", "--release"], false)
        )
    );
}

#[test]
fn state_is_derived_from_what_was_seen() {
    let project = project();
    let (cargo, _) = Cargo::new(&project, true);
    let observation = Observation {
        script: BARE.to_string(),
        script_modified: Probe::Found(5),
        source_digest: Probe::Found(BARE_DIGEST.to_string()),
        artifact_modified: Probe::Found(4),
    };
    assert_eq!(cargo.state(&observation), Ok(CargoState::ArtifactOutdated));
}

#[test]
fn new_script_is_written_looked_at_again_built_and_moved() {
    let project = project();
    let (cargo, _) = Cargo::new(&project, true);
    let mode = CargoMode::Silent;
    let step = cargo.advance(
        Stage::Checking(Goal::Built(mode)),
        seen(SCRIPT, Probe::Missing, Probe::Missing),
    );
    assert_eq!(
        step,
        Step::Next(
            Stage::Updating(Goal::Built(mode)),
            materialize(SCRIPT, "[package]\nname = \"hello\"")
        )
    );
    let step = cargo.advance(Stage::Updating(Goal::Built(mode)), Event::Completed);
    assert_eq!(step, Step::Next(Stage::Deciding(mode), observe()));
    let step = cargo.advance(Stage::Deciding(mode), seen(SCRIPT, current(), Probe::Missing));
    assert_eq!(
        step,
        Step::Next(Stage::Running(Subcommand::Build, true), run(Subcommand::Build, &["build", "--release"], true))
    );
    let step = cargo.advance(Stage::Running(Subcommand::Build, true), exited(0, "", ""));
    assert_eq!(
        step,
        Step::Next(
            Stage::Locating,
            run(Subcommand::Build, &["build", "--message-format=json", "--release"], true)
        )
    );
    let stream = "{\"executable\":null}\n{\"executable\":\"/t/release/hello-bin\"}\n{\"success\":true}";
    let step = cargo.advance(Stage::Locating, exited(0, stream, ""));
    assert_eq!(
        step,
        Step::Next(
            Stage::Moving,
            Action::Relocate { from: "/t/release/hello-bin".to_string(), to: format!("{}/hello", HOME) }
        )
    );
    assert_eq!(cargo.advance(Stage::Moving, Event::Completed), Step::Finished);
}

#[test]
fn written_and_built_project_is_up_to_date() {
    let project = project();
    let (cargo, _) = Cargo::new(&project, true);
    let look = || seen(SCRIPT, current(), Probe::Found(1_000));
    assert_eq!(cargo.advance(Stage::Deciding(CargoMode::Silent), look()), Step::Finished);
    assert_eq!(cargo.advance(Stage::Checking(Goal::Built(CargoMode::Silent)), look()), Step::Finished);
}

#[test]
fn up_to_date_project_asks_for_nothing() {
    let project = project();
    let (cargo, _) = Cargo::new(&project, true);
    let look = || seen(BARE, Probe::Found(BARE_DIGEST.to_string()), Probe::Found(1_000));
    assert_eq!(cargo.advance(Stage::Checking(Goal::Built(CargoMode::Verbose)), look()), Step::Finished);
    assert_eq!(cargo.advance(Stage::Checking(Goal::Updated), look()), Step::Finished);
    assert_eq!(cargo.advance(Stage::Deciding(CargoMode::Verbose), look()), Step::Finished);
}

#[test]
fn current_source_without_artifact_is_built_without_writing() {
    let project = project();
    let (cargo, _) = Cargo::new(&project, true);
    let step = cargo.advance(
        Stage::Checking(Goal::Built(CargoMode::Verbose)),
        seen(BARE, Probe::Found(BARE_DIGEST.to_string()), Probe::Missing),
    );
    assert_eq!(
        step,
        Step::Next(
            Stage::Running(Subcommand::Build, false),
            run(Subcommand::Build, &["build", "--color", "always", "--release"], false)
        )
    );
    let step = cargo.advance(
        Stage::Checking(Goal::Updated),
        seen(BARE, Probe::Found(BARE_DIGEST.to_string()), Probe::Missing),
    );
    assert_eq!(step, Step::Finished);
}

#[test]
fn outdated_artifact_is_built_again() {
    let project = project();
    let (cargo, _) = Cargo::new(&project, true);
    let step = cargo.advance(
        Stage::Deciding(CargoMode::Silent),
        seen(BARE, Probe::Found(BARE_DIGEST.to_string()), Probe::Found(999)),
    );
    assert_eq!(
        step,
        Step::Next(Stage::Running(Subcommand::Build, true), run(Subcommand::Build, &["build", "--release"], true))
    );
}

#[test]
fn stale_source_is_written_once_for_ensure_updated() {
    let project = project();
    let (cargo, _) = Cargo::new(&project, true);
    let step = cargo.advance(Stage::Checking(Goal::Updated), seen(SCRIPT, stale(), Probe::Found(2_000)));
    assert_eq!(
        step,
        Step::Next(Stage::Updating(Goal::Updated), materialize(SCRIPT, "[package]\nname = \"hello\""))
    );
    assert_eq!(cargo.advance(Stage::Updating(Goal::Updated), Event::Completed), Step::Finished);
    assert_eq!(cargo.advance(Stage::Updating(Goal::Update), Event::Completed), Step::Finished);
}

#[test]
fn check_and_test_write_the_source_whatever_its_state() {
    let project = project();
    let (cargo, _) = Cargo::new(&project, true);
    for (goal, subcommand, name) in
        [(Goal::Checked, Subcommand::Check, "check"), (Goal::Tested, Subcommand::Test, "test")]
    {
        let step = cargo.advance(
            Stage::Checking(goal),
            seen(SCRIPT, Probe::Failed, Probe::Failed),
        );
        assert_eq!(
            step,
            Step::Next(Stage::Updating(goal), materialize(SCRIPT, "[package]\nname = \"hello\""))
        );
        let step = cargo.advance(Stage::Updating(goal), Event::Completed);
        assert_eq!(
            step,
            Step::Next(Stage::Running(subcommand, false), run(subcommand, &[name, "--color", "always"], false))
        );
        assert_eq!(cargo.advance(Stage::Running(subcommand, false), exited(0, "", "")), Step::Finished);
        assert_eq!(
            cargo.advance(Stage::Running(subcommand, false), exited(1, "", "")),
            Step::Failed(Failure::ExternalToolFailure {
                subcommand,
                code: Some(1),
                output: String::new(),
            })
        );
    }
}

#[test]
fn forced_update_writes_a_current_source_again() {
    let project = project();
    let (cargo, _) = Cargo::new(&project, true);
    let manifest_only = "/* Cargo.toml\n[package]\n*/\n";
    let step = cargo.advance(
        Stage::Checking(Goal::Update),
        seen(manifest_only, Probe::Missing, Probe::Missing),
    );
    assert_eq!(step, Step::Next(Stage::Updating(Goal::Update), materialize(manifest_only, "[package]")));
}

#[test]
fn script_without_manifest_fails_before_anything_is_run() {
    let project = project();
    let (cargo, _) = Cargo::new(&project, true);
    for goal in [Goal::Update, Goal::Updated, Goal::Built(CargoMode::Silent), Goal::Checked, Goal::Tested] {
        assert_eq!(
            cargo.advance(Stage::Checking(goal), seen(BARE, Probe::Missing, Probe::Missing)),
            Step::Failed(Failure::ManifestNotFound)
        );
    }
}

#[test]
fn failed_build_is_a_tool_failure_with_what_was_captured() {
    let project = project();
    let (cargo, _) = Cargo::new(&project, true);
    assert_eq!(
        cargo.advance(Stage::Running(Subcommand::Build, true), exited(101, "out", "error[E0425]")),
        Step::Failed(Failure::ExternalToolFailure {
            subcommand: Subcommand::Build,
            code: Some(101),
            output: "error[E0425]".to_string(),
        })
    );
    let killed = Event::Exited(Exit { code: None, stdout: String::new(), stderr: String::new() });
    assert_eq!(
        cargo.advance(Stage::Running(Subcommand::Build, true), killed),
        Step::Failed(Failure::ExternalToolFailure {
            subcommand: Subcommand::Build,
            code: None,
            output: String::new(),
        })
    );
    assert_eq!(
        cargo.advance(Stage::Locating, exited(2, "{\"executable\":\"/a\"}", "bad")),
        Step::Failed(Failure::ExternalToolFailure {
            subcommand: Subcommand::Build,
            code: Some(2),
            output: "bad".to_string(),
        })
    );
}

#[test]
fn failure_of_a_run_that_was_not_captured_carries_no_output() {
    let project = project();
    let (cargo, _) = Cargo::new(&project, true);
    assert_eq!(
        cargo.advance(Stage::Running(Subcommand::Build, false), exited(101, "out", "stray")),
        Step::Failed(Failure::ExternalToolFailure {
            subcommand: Subcommand::Build,
            code: Some(101),
            output: String::new(),
        })
    );
    let action = run(Subcommand::Check, &["check", "--color", "always"], false);
    assert_eq!(
        action.settle(exited(1, "", "stray")),
        Err(Failure::ExternalToolFailure {
            subcommand: Subcommand::Check,
            code: Some(1),
            output: String::new(),
        })
    );
}

#[test]
fn stream_without_artifact_fails_the_build() {
    let project = project();
    let (cargo, _) = Cargo::new(&project, true);
    assert_eq!(
        cargo.advance(Stage::Locating, exited(0, "{\"reason\":\"build-finished\"}", "")),
        Step::Failed(Failure::ArtifactPathNotResolved)
    );
}

#[test]
fn refused_look_fails_the_operation() {
    let project = project();
    let (cargo, _) = Cargo::new(&project, true);
    assert_eq!(
        cargo.advance(
            Stage::Checking(Goal::Built(CargoMode::Silent)),
            seen(BARE, Probe::Failed, Probe::Missing)
        ),
        Step::Failed(Failure::IoError)
    );
    assert_eq!(
        cargo.advance(
            Stage::Deciding(CargoMode::Silent),
            seen(BARE, Probe::Found(BARE_DIGEST.to_string()), Probe::Failed)
        ),
        Step::Failed(Failure::IoError)
    );
}

#[test]
fn action_that_was_not_performed_fails_with_io_error() {
    let project = project();
    let (cargo, _) = Cargo::new(&project, true);
    let stages = [
        Stage::Checking(Goal::Updated),
        Stage::Updating(Goal::Checked),
        Stage::Deciding(CargoMode::Silent),
        Stage::Running(Subcommand::Build, true),
        Stage::Locating,
        Stage::Moving,
    ];
    for stage in stages {
        assert_eq!(cargo.advance(stage, Event::Failed), Step::Failed(Failure::IoError));
    }
    assert_eq!(cargo.advance(Stage::Moving, exited(0, "", "")), Step::Failed(Failure::IoError));
    assert_eq!(
        cargo.advance(Stage::Running(Subcommand::Check, false), Event::Completed),
        Step::Failed(Failure::IoError)
    );
    assert_eq!(
        cargo.advance(Stage::Updating(Goal::Update), seen(BARE, Probe::Missing, Probe::Missing)),
        Step::Failed(Failure::IoError)
    );
}

#[test]
fn settle_reads_the_answer_to_a_single_action() {
    let project = project();
    assert_eq!(project.clean().settle(Event::Completed), Ok(()));
    assert_eq!(project.clean().settle(Event::Failed), Err(Failure::IoError));
    assert_eq!(Project::clean_all("/cache").settle(Event::Failed), Err(Failure::IoError));
    assert_eq!(Project::clean_all("/cache").settle(exited(0, "", "")), Err(Failure::IoError));
    assert_eq!(observe().settle(seen(BARE, Probe::Missing, Probe::Missing)), Ok(()));
    assert_eq!(observe().settle(Event::Completed), Err(Failure::IoError));
}

#[test]
fn launch_that_reports_back_has_failed() {
    let project = project();
    assert_eq!(project.execute(vec![]).settle(Event::Failed), Err(Failure::ExecutionFailed));
    assert_eq!(project.execute(vec![]).settle(Event::Completed), Err(Failure::ExecutionFailed));
}

#[test]
fn run_settles_by_its_exit_status() {
    let action = run(Subcommand::Init, &["init"], true);
    assert_eq!(action.settle(exited(0, "", "")), Ok(()));
    assert_eq!(
        action.settle(exited(3, "", "failed")),
        Err(Failure::ExternalToolFailure {
            subcommand: Subcommand::Init,
            code: Some(3),
            output: "failed".to_string(),
        })
    );
    assert_eq!(action.settle(Event::Failed), Err(Failure::IoError));
    let exit = Exit { code: Some(0), stdout: String::new(), stderr: String::new() };
    assert!(exit.success());
    let exit = Exit { code: None, stdout: String::new(), stderr: String::new() };
    assert!(!exit.success());
}
