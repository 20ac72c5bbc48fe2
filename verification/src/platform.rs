//! Platform resolution and on-disk library naming conventions.
//!
//! A target triple is mapped to one of the three recognized platforms, and
//! each platform determines the file-name convention for static and shared
//! library artifacts.  Windows carries no `lib` prefix: no naming convention
//! exists there, and adding one would make resolution silently fail.

use vstd::prelude::*;
use vstd::string::StringExecFns;
use crate::errors::BuildError;
use crate::text::{contains_seq, contains_sub};

verus! {

/// The platforms the pipeline knows how to name libraries for.
#[derive(Clone, Copy, Debug, PartialEq, Eq, Structural)]
pub enum Platform {
    Windows,
    Linux,
    MacOS,
}

/// Whether a library artifact is linked statically or as a shared object.
#[derive(Clone, Copy, Debug, PartialEq, Eq, Structural)]
pub enum LinkKind {
    Static,
    Shared,
}

/// The platform a target triple names, if any, checked in the order
/// windows, linux, apple-darwin.
pub open spec fn spec_platform(triple: Seq<char>) -> Option<Platform> {
    if contains_seq(triple, "windows"@) {
        Some(Platform::Windows)
    } else if contains_seq(triple, "linux"@) {
        Some(Platform::Linux)
    } else if contains_seq(triple, "apple-darwin"@) {
        Some(Platform::MacOS)
    } else {
        None
    }
}

/// Resolve a target triple to a platform; an unrecognized triple is an error.
pub fn platform(target: &str) -> (r: Result<Platform, BuildError>)
    ensures
        match spec_platform(target@) {
            Some(p) => r == Ok::<Platform, BuildError>(p),
            None => r == Err::<Platform, BuildError>(BuildError::UnsupportedPlatform),
        },
{
    if contains_sub(target, "windows") {
        Ok(Platform::Windows)
    } else if contains_sub(target, "linux") {
        Ok(Platform::Linux)
    } else if contains_sub(target, "apple-darwin") {
        Ok(Platform::MacOS)
    } else {
        Err(BuildError::UnsupportedPlatform)
    }
}

/// The conventional suffix of a static library on each platform.
pub open spec fn spec_static_library_extension(p: Platform) -> Seq<char> {
    match p {
        Platform::Windows => ".lib"@,
        Platform::Linux => ".a"@,
        Platform::MacOS => ".a"@,
    }
}

/// The conventional suffix of a shared library on each platform.
pub open spec fn spec_shared_library_extension(p: Platform) -> Seq<char> {
    match p {
        Platform::Windows => ".dll"@,
        Platform::Linux => ".so"@,
        Platform::MacOS => ".dylib"@,
    }
}

/// Static library suffix: `.lib` on Windows, `.a` elsewhere.
pub fn static_library_extension(platform: Platform) -> (r: &'static str)
    ensures
        r@ == spec_static_library_extension(platform),
{
    match platform {
        Platform::Windows => ".lib",
        Platform::Linux => ".a",
        Platform::MacOS => ".a",
    }
}

/// Shared library suffix: `.dll` on Windows, `.so` on Linux, `.dylib` on macOS.
pub fn shared_library_extension(platform: Platform) -> (r: &'static str)
    ensures
        r@ == spec_shared_library_extension(platform),
{
    match platform {
        Platform::Windows => ".dll",
        Platform::Linux => ".so",
        Platform::MacOS => ".dylib",
    }
}

/// The suffix for the given platform and link kind.
pub open spec fn spec_library_extension(p: Platform, kind: LinkKind) -> Seq<char> {
    match kind {
        LinkKind::Static => spec_static_library_extension(p),
        LinkKind::Shared => spec_shared_library_extension(p),
    }
}

/// The conventional on-disk file name of a library: Windows omits the `lib`
/// prefix entirely; every other platform prepends it.
pub open spec fn spec_library_file_name(p: Platform, base: Seq<char>, kind: LinkKind) -> Seq<
    char,
> {
    if p is Windows {
        base + spec_library_extension(p, kind)
    } else {
        "lib"@ + base + spec_library_extension(p, kind)
    }
}

/// Compose the conventional on-disk file name for a library base name.
pub fn library_file_name(platform: Platform, base_name: &str, kind: LinkKind) -> (r: String)
    ensures
        r@ == spec_library_file_name(platform, base_name@, kind),
{
    let extension = match kind {
        LinkKind::Static => static_library_extension(platform),
        LinkKind::Shared => shared_library_extension(platform),
    };
    match platform {
        Platform::Windows => String::from_str(base_name).concat(extension),
        _ => String::from_str("lib").concat(base_name).concat(extension),
    }
}

/// The on-disk file name of the static form of a library.
pub fn get_static_library_name(platform: Platform, library_name: &str) -> (r: String)
    ensures
        r@ == spec_library_file_name(platform, library_name@, LinkKind::Static),
{
    library_file_name(platform, library_name, LinkKind::Static)
}

/// The on-disk file name of the shared form of a library.
pub fn get_shared_library_name(platform: Platform, library_name: &str) -> (r: String)
    ensures
        r@ == spec_library_file_name(platform, library_name@, LinkKind::Shared),
{
    library_file_name(platform, library_name, LinkKind::Shared)
}

} // verus!
