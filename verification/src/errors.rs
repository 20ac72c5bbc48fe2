//! The error taxonomy of the orchestration pipeline.
//!
//! Every failure is fatal: the pipeline never retries, and the first error
//! aborts the run.  Each variant names the stage that failed so an operator
//! can tell a missing tool from a tool that ran and reported failure.

use vstd::prelude::*;
use vstd::string::StringExecFns;

verus! {

/// A fatal failure of the acquisition, build or link-resolution pipeline.
#[derive(Clone, Copy, Debug, PartialEq, Eq, Structural)]
pub enum BuildError {
    /// A source path did not exist when it had to be canonicalized.
    PathNotFound,
    /// The target triple matched no recognized platform.
    UnsupportedPlatform,
    /// The version-control client could not be invoked at all.
    VcsToolMissing,
    /// A version-control operation ran and returned a non-success status.
    VcsOperationFailed,
    /// The external build tool could not be invoked at all.
    BuildToolMissing,
    /// The configure or build step ran and returned a non-success status.
    BuildFailed,
    /// The explicit install step ran and returned a non-success status.
    InstallFailed,
    /// No build-output root was found above the working output directory.
    MalformedBuildPath,
    /// Link targets were declared but none resolved to an artifact on disk.
    NoLinkableTargets,
    /// A shared object resolved by name but vanished before it was copied.
    MissingSharedObject,
}

impl BuildError {
    /// The short operator-facing description of this failure.
    pub open spec fn spec_message(self) -> Seq<char> {
        match self {
            BuildError::PathNotFound => "path not found; does the source directory exist?"@,
            BuildError::UnsupportedPlatform => "platform not supported by the target triple"@,
            BuildError::VcsToolMissing => "could not invoke the version-control client; is git installed?"@,
            BuildError::VcsOperationFailed => "a git operation failed; see its output above"@,
            BuildError::BuildToolMissing => "could not invoke the build tool; is cmake installed?"@,
            BuildError::BuildFailed => "the build step failed; see the build tool output above"@,
            BuildError::InstallFailed => "the install step failed; see the build tool output above"@,
            BuildError::MalformedBuildPath => "malformed build path: no build root above the output directory"@,
            BuildError::NoLinkableTargets => "no declared link target resolved to a library on disk"@,
            BuildError::MissingSharedObject => "a shared object vanished before it could be copied"@,
        }
    }

    /// A short identifying message naming the stage, and where a tool is
    /// involved, which tool was expected.
    pub fn message(&self) -> (r: String)
        ensures
            r@ == self.spec_message(),
    {
        match self {
            BuildError::PathNotFound => String::from_str(
                "path not found; does the source directory exist?",
            ),
            BuildError::UnsupportedPlatform => String::from_str(
                "platform not supported by the target triple",
            ),
            BuildError::VcsToolMissing => String::from_str(
                "could not invoke the version-control client; is git installed?",
            ),
            BuildError::VcsOperationFailed => String::from_str(
                "a git operation failed; see its output above",
            ),
            BuildError::BuildToolMissing => String::from_str(
                "could not invoke the build tool; is cmake installed?",
            ),
            BuildError::BuildFailed => String::from_str(
                "the build step failed; see the build tool output above",
            ),
            BuildError::InstallFailed => String::from_str(
                "the install step failed; see the build tool output above",
            ),
            BuildError::MalformedBuildPath => String::from_str(
                "malformed build path: no build root above the output directory",
            ),
            BuildError::NoLinkableTargets => String::from_str(
                "no declared link target resolved to a library on disk",
            ),
            BuildError::MissingSharedObject => String::from_str(
                "a shared object vanished before it could be copied",
            ),
        }
    }
}

} // verus!
