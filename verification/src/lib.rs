//! Run-plan resolution for versioned command-line binaries.
//!
//! A user names a crate, optionally with a version constraint. The library
//! decides whether an already-installed binary satisfies the request or a
//! concrete version must be installed first, and it gates execution behind a
//! containment check on the managed install directory.

pub mod cli;
pub mod errors;
pub mod executor;
pub mod paths;
pub mod resolver;
pub mod target;
pub mod text;
pub mod version;
pub mod versions;

pub use errors::Error;
pub use executor::InstallRoot;
pub use resolver::{LocalResolution, RemoteAnswer, RemoteQuery, RunPlan};
pub use target::{Target, VersionSpec};
pub use version::SemVer;
pub use versions::InstalledBinary;
