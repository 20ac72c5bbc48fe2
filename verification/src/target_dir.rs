//! The target-directory resolver.
//!
//! The true shared build-output root is never handed to this subsystem; only
//! a deeply nested working output directory is.  The resolver climbs parent
//! directories until it recognizes a build-root marker, so that every
//! dependency built in one overall run lands under the same root.  When the
//! walk reaches the filesystem root without a match, one retry on the
//! caller-supplied canonicalized form of the output directory is allowed;
//! after that the path is malformed, which is fatal.

use vstd::prelude::*;
use crate::errors::BuildError;
use crate::fsview::{spec_dir_has_file, FsFacts, FsSnapshot};
use crate::path::DirPath;
use crate::text::str_eq;

verus! {

/// A directory is a build root when it holds the build tool's metadata
/// sentinel file, or a cache-tag file, or — as a fallback — carries the
/// conventional build-root name while its parent holds a project manifest.
pub open spec fn spec_is_build_root(fs: FsFacts, p: Seq<Seq<char>>) -> bool {
    spec_dir_has_file(fs, p, ".rustc_info.json"@) || spec_dir_has_file(fs, p, "CACHEDIR.TAG"@) || (
    p.len() > 0 && p.last() == "target"@ && spec_dir_has_file(fs, p.drop_last(), "Cargo.toml"@))
}

/// Whether the directory at `p` is recognized as a build root.
pub fn is_build_root(p: &DirPath, fs: &FsSnapshot) -> (r: bool)
    ensures
        r == spec_is_build_root(fs@, p@),
{
    if fs.dir_has_file(p, ".rustc_info.json") {
        return true;
    }
    if fs.dir_has_file(p, "CACHEDIR.TAG") {
        return true;
    }
    match p.last_segment() {
        None => false,
        Some(s) => {
            if str_eq(s.as_str(), "target") {
                let mut parent = p.clone();
                parent.pop_segment();
                fs.dir_has_file(&parent, "Cargo.toml")
            } else {
                false
            }
        },
    }
}

/// The first ancestor of `p` (including `p` itself) that is a build root.
pub open spec fn spec_walk_to_root(p: Seq<Seq<char>>, fs: FsFacts) -> Option<Seq<Seq<char>>>
    decreases p.len(),
{
    if spec_is_build_root(fs, p) {
        Some(p)
    } else if p.len() == 0 {
        None
    } else {
        spec_walk_to_root(p.drop_last(), fs)
    }
}

/// Climb from `start` towards the filesystem root, stopping at the first
/// recognized build root.
fn walk_to_root(start: &DirPath, fs: &FsSnapshot) -> (r: Option<DirPath>)
    ensures
        match r {
            Some(p) => spec_walk_to_root(start@, fs@) == Some(p@),
            None => spec_walk_to_root(start@, fs@) is None,
        },
{
    let mut current = start.clone();
    loop
        invariant
            spec_walk_to_root(start@, fs@) == spec_walk_to_root(current@, fs@),
        decreases current@.len(),
    {
        if is_build_root(&current, fs) {
            return Some(current);
        }
        if current.depth() == 0 {
            return None;
        }
        current.pop_segment();
    }
}

/// Locate the shared build-output root above a working output directory.
///
/// The walk starts at `output_directory`; when it reaches the filesystem
/// root without finding a marker, it is retried once from the canonicalized
/// form of the output directory, when the caller could supply one.  A walk
/// that still finds nothing is a malformed build path, which is fatal: in
/// normal operation the output directory is always nested under a
/// discoverable build root.
pub fn resolve_build_root(
    output_directory: &DirPath,
    canonical_output_directory: Option<&DirPath>,
    fs: &FsSnapshot,
) -> (r: Result<DirPath, BuildError>)
    ensures
        match spec_walk_to_root(output_directory@, fs@) {
            Some(p) => r is Ok && r->Ok_0@ == p,
            None => match canonical_output_directory {
                Some(c) => match spec_walk_to_root(c@, fs@) {
                    Some(p) => r is Ok && r->Ok_0@ == p,
                    None => r == Err::<DirPath, BuildError>(BuildError::MalformedBuildPath),
                },
                None => r == Err::<DirPath, BuildError>(BuildError::MalformedBuildPath),
            },
        },
{
    match walk_to_root(output_directory, fs) {
        Some(p) => Ok(p),
        None => match canonical_output_directory {
            Some(c) => match walk_to_root(c, fs) {
                Some(p) => Ok(p),
                None => Err(BuildError::MalformedBuildPath),
            },
            None => Err(BuildError::MalformedBuildPath),
        },
    }
}

} // verus!
