//! Decisions of a build cache for single-file scripts.
//!
//! A script carries its own manifest. Its build is kept in a cache directory that is
//! derived from where the script lies, and is made anew only when the script has
//! changed. This library decides what is to be done, and leaves the doing to its
//! caller: it names actions, and is told what came of them.

pub mod action;
pub mod cargo;
pub mod digest;
pub mod failure;
pub mod json;
pub mod laws;
pub mod manifest;
pub mod path;
pub mod project;
pub mod state;
pub mod stream;
pub mod text;

pub use crate::cargo::Cargo;
pub use crate::failure::Failure;
pub use crate::project::Project;
pub use crate::state::{CargoMode, CargoState};
