//! The ways in which an operation on a project can fail.

use vstd::prelude::*;

verus! {

/// Why a script path could not be resolved to a script.
#[derive(Clone, Copy, Debug, PartialEq, Eq, Structural)]
pub enum PathFault {
    /// Nothing exists at the path.
    NotFound,
    /// The path leads to something that is not a regular file.
    NotAFile,
    /// The path is not valid UTF-8.
    EncodingError,
}

/// A subcommand of the build toolchain's driver.
#[derive(Clone, Copy, Debug, PartialEq, Eq, Structural)]
pub enum Subcommand {
    Init,
    Build,
    Check,
    Test,
}

/// Why an operation failed.
#[derive(Debug, PartialEq, Eq)]
pub enum Failure {
    /// The script path does not lead to a script.
    PathResolutionError(PathFault),
    /// The script holds no manifest block, or an empty one.
    ManifestNotFound,
    /// The file system refused a read, write, rename or delete, or a process could not be run.
    IoError,
    /// The toolchain ran and did not exit with status zero. `code` is its exit status, if
    /// it exited on its own; `output` is what it wrote to standard error, if that was captured.
    ExternalToolFailure { subcommand: Subcommand, code: Option<i32>, output: String },
    /// The build succeeded, and its event stream names no artifact.
    ArtifactPathNotResolved,
    /// The artifact could not take the place of the running process.
    ExecutionFailed,
}

/// A [`Failure`] with its text as a sequence of characters.
pub enum FailureModel {
    PathResolutionError(PathFault),
    ManifestNotFound,
    IoError,
    ExternalToolFailure { subcommand: Subcommand, code: Option<i32>, output: Seq<char> },
    ArtifactPathNotResolved,
    ExecutionFailed,
}

impl View for Failure {
    type V = FailureModel;

    open spec fn view(&self) -> FailureModel {
        match self {
            Failure::PathResolutionError(fault) => FailureModel::PathResolutionError(*fault),
            Failure::ManifestNotFound => FailureModel::ManifestNotFound,
            Failure::IoError => FailureModel::IoError,
            Failure::ExternalToolFailure { subcommand, code, output } => FailureModel::ExternalToolFailure {
                subcommand: *subcommand,
                code: *code,
                output: output@,
            },
            Failure::ArtifactPathNotResolved => FailureModel::ArtifactPathNotResolved,
            Failure::ExecutionFailed => FailureModel::ExecutionFailed,
        }
    }
}

} // verus!
