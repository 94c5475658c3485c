//! Errors surfaced by resolution and execution.

use vstd::prelude::*;

verus! {

/// Everything that can go wrong between a raw spec string and a finished
/// child process. Each variant keeps the data a caller needs to render a
/// diagnostic.
#[derive(Debug)]
pub enum Error {
    /// The version part of a spec string is not a valid requirement.
    InvalidVersionSpec { spec_text: String },
    /// A remote registry lookup failed; carries the underlying cause.
    RegistryError { message: String },
    /// A syntactically valid requirement matches no published version.
    NoMatchingVersion { crate_name: String, requirement: String },
    /// The installer collaborator failed; carries the underlying cause.
    InstallFailed { message: String },
    /// A resolved binary path lies outside the managed install directory.
    /// This is a security refusal, never to be downgraded or bypassed.
    PathEscape { path: String },
    /// Spawning or waiting on the child process failed at the OS level, or a
    /// path needed for the containment check could not be resolved.
    ExecutionFailed { message: String },
}

} // verus!
