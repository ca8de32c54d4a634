//! What was seen of a project on disk, and how stale that makes its build.

use vstd::prelude::*;
use crate::digest::{hex_digest, sha256_hex};
use crate::failure::{Failure, FailureModel};

verus! {

/// How output of the build toolchain is treated.
#[derive(Clone, Copy, Debug, PartialEq, Eq, Structural)]
pub enum CargoMode {
    /// Output is held back, and shown only where the toolchain fails.
    Silent,
    /// Output goes to the terminal as it is written, in colour.
    Verbose,
}

/// How the cached build of a project stands to its script.
#[derive(Clone, Copy, Debug, PartialEq, Eq, Structural)]
pub enum CargoState {
    /// The source in the cache is not the script's content, or there is none.
    SourceDiffers,
    /// The source is current and no artifact has been built.
    NoArtifact,
    /// The source is current and the artifact is older than the script.
    ArtifactOutdated,
    /// The source is current and the artifact is no older than the script.
    UpToDate,
}

impl CargoState {
    /// Whether the source in the cache is to be written anew.
    pub open spec fn stale_source(self) -> bool {
        self == CargoState::SourceDiffers
    }

    /// Whether the artifact is to be built anew.
    pub open spec fn stale_artifact(self) -> bool {
        self != CargoState::UpToDate
    }

    /// Whether the source in the cache is to be written anew: only where it differs.
    pub fn needs_update(&self) -> (r: bool)
        ensures
            r == self.stale_source(),
    {
        match self {
            CargoState::SourceDiffers => true,
            _ => false,
        }
    }

    /// Whether the artifact is to be built anew: in every state but `UpToDate`.
    pub fn needs_build(&self) -> (r: bool)
        ensures
            r == self.stale_artifact(),
    {
        match self {
            CargoState::SourceDiffers => true,
            CargoState::NoArtifact | CargoState::ArtifactOutdated => true,
            CargoState::UpToDate => false,
        }
    }
}

/// What a look at one file gave.
#[derive(Debug, PartialEq, Eq)]
pub enum Probe<T> {
    /// There is no such file.
    Missing,
    /// The file is there, and this was read of it.
    Found(T),
    /// The file system refused the look.
    Failed,
}

/// What was seen of a project at one moment.
///
/// Times are in nanoseconds since the Unix epoch.
#[derive(Debug, PartialEq, Eq)]
pub struct Observation {
    /// The content of the script.
    pub script: String,
    /// When the script was last modified.
    pub script_modified: Probe<i128>,
    /// The digest of the source in the cache.
    pub source_digest: Probe<String>,
    /// When the artifact at its stable path was last modified.
    pub artifact_modified: Probe<i128>,
}

/// An [`Observation`] with its texts as sequences of characters.
pub struct ObservationView {
    pub script: Seq<char>,
    pub script_modified: Probe<i128>,
    pub source_digest: Probe<Seq<char>>,
    pub artifact_modified: Probe<i128>,
}

impl View for Observation {
    type V = ObservationView;

    open spec fn view(&self) -> ObservationView {
        ObservationView {
            script: self.script@,
            script_modified: self.script_modified,
            source_digest: match self.source_digest {
                Probe::Missing => Probe::Missing,
                Probe::Found(digest) => Probe::Found(digest@),
                Probe::Failed => Probe::Failed,
            },
            artifact_modified: self.artifact_modified,
        }
    }
}

/// The state of a project of which `seen` was seen, where `script_digest` is the digest
/// of the script's content.
///
/// The source decides first: unless the cache holds a source with the script's digest,
/// the source differs, whatever the artifact is like. With a current source, a missing
/// artifact is `NoArtifact`; an artifact modified strictly before the script is
/// `ArtifactOutdated`, and one modified at the same time or later is `UpToDate`.
/// A look that the file system refused is a failure, and never read as a state.
pub open spec fn staleness_by(script_digest: Seq<char>, seen: ObservationView) -> Result<
    CargoState,
    FailureModel,
> {
    match seen.source_digest {
        Probe::Failed => Err(FailureModel::IoError),
        Probe::Missing => Ok(CargoState::SourceDiffers),
        Probe::Found(digest) => if digest != script_digest {
            Ok(CargoState::SourceDiffers)
        } else {
            match (seen.artifact_modified, seen.script_modified) {
                (Probe::Missing, _) => Ok(CargoState::NoArtifact),
                (Probe::Found(built), Probe::Found(edited)) => if built < edited {
                    Ok(CargoState::ArtifactOutdated)
                } else {
                    Ok(CargoState::UpToDate)
                },
                _ => Err(FailureModel::IoError),
            }
        },
    }
}

/// The state of a project of which `seen` was seen.
pub open spec fn staleness(seen: ObservationView) -> Result<CargoState, FailureModel> {
    staleness_by(sha256_hex(seen.script), seen)
}

/// The state of a project of which `seen` was seen, where `script_digest` is the digest
/// of the script's content.
///
/// Fails with `IoError` where a look that the state depends on was refused.
pub fn classify(script_digest: &str, seen: &Observation) -> (r: Result<CargoState, Failure>)
    ensures
        match r {
            Ok(state) => staleness_by(script_digest@, seen@) == Ok::<CargoState, FailureModel>(state),
            Err(e) => staleness_by(script_digest@, seen@) == Err::<CargoState, FailureModel>(e@),
        },
{
    match &seen.source_digest {
        Probe::Failed => Err(Failure::IoError),
        Probe::Missing => Ok(CargoState::SourceDiffers),
        Probe::Found(digest) => {
            if !same_string(digest.as_str(), script_digest) {
                return Ok(CargoState::SourceDiffers);
            }
            match &seen.artifact_modified {
                Probe::Missing => Ok(CargoState::NoArtifact),
                Probe::Failed => Err(Failure::IoError),
                Probe::Found(built) => match &seen.script_modified {
                    Probe::Found(edited) => {
                        if *built < *edited {
                            Ok(CargoState::ArtifactOutdated)
                        } else {
                            Ok(CargoState::UpToDate)
                        }
                    },
                    _ => Err(Failure::IoError),
                },
            }
        },
    }
}

/// Whether the two strings hold the same text.
fn same_string(a: &str, b: &str) -> (r: bool)
    ensures
        r == (a@ == b@),
{
    crate::text::same_text(&crate::text::chars_of(a), &crate::text::chars_of(b))
}

/// The state of a project of which `seen` was seen.
///
/// Fails with `IoError` where a look that the state depends on was refused.
pub fn state_of(seen: &Observation) -> (r: Result<CargoState, Failure>)
    ensures
        match r {
            Ok(state) => staleness(seen@) == Ok::<CargoState, FailureModel>(state),
            Err(e) => staleness(seen@) == Err::<CargoState, FailureModel>(e@),
        },
{
    let digest = hex_digest(seen.script.as_str());
    classify(digest.as_str(), seen)
}

} // verus!
