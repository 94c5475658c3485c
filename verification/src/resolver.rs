//! The run-plan resolver: a deterministic decision table over the version
//! spec, the force flag, the installed catalog, and — only when strictly
//! necessary — a remote registry oracle.
//!
//! The oracle is an external collaborator, so resolution happens in two
//! steps. [`resolve_run_plan`] consults only the catalog; it either decides
//! the plan outright or names the one remote query that is needed. The
//! caller performs that query and hands the answer to
//! [`resolve_remote_answer`], which turns it into the final plan. A
//! resolution that decides locally therefore makes zero registry calls, and
//! `force` always routes to the remote step and never reuses an installed
//! binary.

use vstd::prelude::*;

use crate::errors::Error;
use crate::target::{Target, VersionSpec};
use crate::version::{SemVer, ver_le};
use crate::versions::{InstalledBinary, catalog_sorted, find_installed_version, latest_installed, req_ok};

verus! {

/// The resolver's decision: run an already-installed binary unchanged, or
/// install a concrete version and then run it.
#[derive(Debug)]
pub enum RunPlan {
    UseInstalled { path: String },
    InstallAndRun { version: SemVer },
}

/// The one remote question a resolution may need answered.
#[derive(Debug)]
pub enum RemoteQuery {
    /// The newest published version of the crate.
    LatestVersion,
    /// The highest published version satisfying a requirement.
    HighestMatching { requirement: String },
}

/// The outcome of the local step: a finished plan, or the remote query that
/// must be made before one can be finished.
#[derive(Debug)]
pub enum LocalResolution {
    Decided { plan: RunPlan },
    NeedRemote { query: RemoteQuery },
}

/// What the registry oracle said: a concrete version, the report that no
/// published version satisfies the query, or a transport failure.
#[derive(Debug)]
pub enum RemoteAnswer {
    Version { version: SemVer },
    NoMatch,
    Failed { message: String },
}

/// Decide as much of the run plan as the installed catalog allows.
///
/// With `force` unset: an unspecified version reuses the latest installed
/// binary when any exists, and a requirement reuses the highest installed
/// version satisfying it. `Latest`, a bare catalog, an unsatisfied
/// requirement, and `force` in every case name a remote query instead; no
/// registry call is made for a locally decided plan.
pub fn resolve_run_plan(target: &Target, force: bool, installed: &Vec<InstalledBinary>) -> (r:
    LocalResolution)
    requires
        catalog_sorted(installed@),
    ensures
        match target.version {
            VersionSpec::Unspecified => if !force && installed@.len() > 0 {
                r matches LocalResolution::Decided { plan: RunPlan::UseInstalled { path } }
                    && path@ == installed@.last().path@
            } else {
                r matches LocalResolution::NeedRemote { query: RemoteQuery::LatestVersion }
            },
            VersionSpec::Latest => r matches LocalResolution::NeedRemote {
                query: RemoteQuery::LatestVersion,
            },
            VersionSpec::Requirement(t) => if !force && (exists|i: int|
                0 <= i < installed@.len() && req_ok(t@, #[trigger] installed@[i].version)) {
                r matches LocalResolution::Decided { plan: RunPlan::UseInstalled { path } }
                    && exists|i: int|
                    0 <= i < installed@.len() && (#[trigger] installed@[i]).path@ == path@ && req_ok(
                        t@,
                        installed@[i].version,
                    ) && forall|j: int|
                        0 <= j < installed@.len() && req_ok(t@, #[trigger] installed@[j].version)
                            ==> ver_le(installed@[j].version, installed@[i].version)
            } else {
                r matches LocalResolution::NeedRemote {
                    query: RemoteQuery::HighestMatching { requirement },
                } && requirement@ == t@
            },
        },
        force ==> r matches LocalResolution::NeedRemote { .. },
{
    match &target.version {
        VersionSpec::Unspecified => {
            if !force {
                if let Some(e) = latest_installed(installed) {
                    return LocalResolution::Decided { plan: RunPlan::UseInstalled { path: e.path } };
                }
            }
            LocalResolution::NeedRemote { query: RemoteQuery::LatestVersion }
        },
        VersionSpec::Latest => LocalResolution::NeedRemote { query: RemoteQuery::LatestVersion },
        VersionSpec::Requirement(t) => {
            if !force {
                if let Some(e) = find_installed_version(installed, t.as_str()) {
                    return LocalResolution::Decided { plan: RunPlan::UseInstalled { path: e.path } };
                }
            }
            LocalResolution::NeedRemote {
                query: RemoteQuery::HighestMatching { requirement: t.clone() },
            }
        },
    }
}

/// Finish a resolution with the oracle's answer to the named query.
///
/// A transport failure propagates as `RegistryError`; a report that nothing
/// matches becomes `NoMatchingVersion` naming the crate and the requirement.
/// A concrete version is installed and run — except that a `Latest` target
/// without `force` reuses the latest installed binary when its version is
/// already greater than or equal to the remote latest. With `force` set the
/// result is never `UseInstalled`.
pub fn resolve_remote_answer(
    target: &Target,
    force: bool,
    installed: &Vec<InstalledBinary>,
    query: &RemoteQuery,
    answer: &RemoteAnswer,
) -> (r: Result<RunPlan, Error>)
    requires
        catalog_sorted(installed@),
    ensures
        match answer {
            RemoteAnswer::Failed { message } => r matches Err(Error::RegistryError { message: m })
                && m@ == message@,
            RemoteAnswer::NoMatch => (r matches Err(Error::NoMatchingVersion {
                crate_name,
                requirement,
            }) && crate_name@ == target.crate_name@ && requirement@ == (match query {
                RemoteQuery::HighestMatching { requirement: q } => q@,
                RemoteQuery::LatestVersion => Seq::<char>::empty(),
            })),
            RemoteAnswer::Version { version } => match query {
                RemoteQuery::LatestVersion => if (target.version matches VersionSpec::Latest)
                    && !force && installed@.len() > 0 && ver_le(
                    *version,
                    installed@.last().version,
                ) {
                    r matches Ok(RunPlan::UseInstalled { path }) && path@
                        == installed@.last().path@
                } else {
                    r matches Ok(RunPlan::InstallAndRun { version: v }) && v == *version
                },
                RemoteQuery::HighestMatching { .. } => r matches Ok(RunPlan::InstallAndRun {
                    version: v,
                }) && v == *version,
            },
        },
        force ==> !(r matches Ok(RunPlan::UseInstalled { .. })),
{
    match answer {
        RemoteAnswer::Failed { message } => Err(
            Error::RegistryError { message: message.clone() },
        ),
        RemoteAnswer::NoMatch => {
            let requirement = match query {
                RemoteQuery::HighestMatching { requirement } => requirement.clone(),
                RemoteQuery::LatestVersion => String::new(),
            };
            Err(
                Error::NoMatchingVersion { crate_name: target.crate_name.clone(), requirement },
            )
        },
        RemoteAnswer::Version { version } => {
            match query {
                RemoteQuery::LatestVersion => {
                    let is_latest = matches!(target.version, VersionSpec::Latest);
                    if is_latest && !force {
                        if let Some(e) = latest_installed(installed) {
                            if version.le(&e.version) {
                                return Ok(RunPlan::UseInstalled { path: e.path });
                            }
                        }
                    }
                    Ok(RunPlan::InstallAndRun { version: version.clone() })
                },
                RemoteQuery::HighestMatching { .. } => Ok(
                    RunPlan::InstallAndRun { version: version.clone() },
                ),
            }
        },
    }
}

} // verus!

