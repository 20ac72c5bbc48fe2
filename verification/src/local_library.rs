//! Local library configuration.
//!
//! A `LocalLibrary` holds everything needed to link against a locally
//! installed library: the install directory, candidate include and library
//! search directories, the targets to search for and link (preferring
//! static), and the system targets assumed present on the host.  The
//! candidate directory lists are deduplicated and filtered to existing
//! directories by the link resolver, before any directive is emitted.

use vstd::prelude::*;
use vstd::string::{StrSliceExecFns, StringExecFns};
use crate::cmake_builder::CMakeBuilder;
use crate::errors::BuildError;
use crate::path::DirPath;

verus! {

/// Everything required to link against a locally installed library.
pub struct LocalLibrary {
    pub install_directory: DirPath,
    pub link_targets: Vec<String>,
    pub system_link_targets: Vec<String>,
    pub include_directories: Vec<DirPath>,
    pub library_directories: Vec<DirPath>,
}

/// The mathematical value of a [`LocalLibrary`].
#[verifier::ext_equal]
pub struct LocalLibraryView {
    pub install_directory: Seq<Seq<char>>,
    pub link_targets: Seq<Seq<char>>,
    pub system_link_targets: Seq<Seq<char>>,
    pub include_directories: Seq<Seq<Seq<char>>>,
    pub library_directories: Seq<Seq<Seq<char>>>,
}

impl View for LocalLibrary {
    type V = LocalLibraryView;

    open spec fn view(&self) -> LocalLibraryView {
        LocalLibraryView {
            install_directory: self.install_directory@,
            link_targets: self.link_targets.deep_view(),
            system_link_targets: self.system_link_targets.deep_view(),
            include_directories: self.include_directories.deep_view(),
            library_directories: self.library_directories.deep_view(),
        }
    }
}

/// A fresh library over an install directory: one default include-directory
/// candidate, `include`, and two default library-directory candidates,
/// `lib` and `lib64`, all inside the install directory; no targets yet.
pub open spec fn spec_new_library(install: Seq<Seq<char>>) -> LocalLibraryView {
    LocalLibraryView {
        install_directory: install,
        link_targets: Seq::empty(),
        system_link_targets: Seq::empty(),
        include_directories: seq![install.push("include"@)],
        library_directories: seq![install.push("lib"@), install.push("lib64"@)],
    }
}

/// Copy a vector of paths; the copy has the same segment sequences.
pub fn clone_path_vec(v: &Vec<DirPath>) -> (r: Vec<DirPath>)
    ensures
        r.deep_view() == v.deep_view(),
{
    let mut out: Vec<DirPath> = Vec::new();
    let mut i: usize = 0;
    while i < v.len()
        invariant
            i <= v.len(),
            v.deep_view().len() == v.len(),
            out.deep_view() == v.deep_view().take(i as int),
        decreases v.len() - i,
    {
        let elem = v[i].clone();
        let ghost elem_view = elem@;
        let ghost prev = out@;
        let ghost prev_deep = out.deep_view();
        proof {
            assert(prev_deep.len() == prev.len());
            assert(prev.len() == i as int);
        }
        out.push(elem);
        proof {
            assert(out@ == prev.push(elem));
            assert forall|k: int| 0 <= k <= i implies out.deep_view()[k] == v.deep_view().take(
                i + 1,
            )[k] by {
                assert(out.deep_view()[k] == out@[k].deep_view());
                assert(v.deep_view()[k] == v@[k].deep_view());
                if k < i {
                    assert(out@[k] == prev[k]);
                    assert(prev[k].deep_view() == prev_deep[k]);
                    assert(prev_deep[k] == v.deep_view()[k]);
                } else {
                    assert(out@[k] == elem);
                    assert(elem_view == v@[k]@);
                }
            }
            assert(out.deep_view() =~= v.deep_view().take(i + 1));
        }
        i = i + 1;
    }
    proof {
        assert(v.deep_view().take(v.deep_view().len() as int) =~= v.deep_view());
    }
    out
}

/// Whether a target name is the everything target, compared without regard
/// to ASCII case.
pub open spec fn spec_is_all_target(t: Seq<char>) -> bool {
    t.len() == 3 && (t[0] == 'a' || t[0] == 'A') && (t[1] == 'l' || t[1] == 'L') && (t[2] == 'l'
        || t[2] == 'L')
}

/// Whether a target name is the everything target, without regard to ASCII
/// case.
pub fn is_all_target(t: &str) -> (r: bool)
    ensures
        r == spec_is_all_target(t@),
{
    if t.unicode_len() != 3 {
        return false;
    }
    let c0 = t.get_char(0);
    let c1 = t.get_char(1);
    let c2 = t.get_char(2);
    (c0 == 'a' || c0 == 'A') && (c1 == 'l' || c1 == 'L') && (c2 == 'l' || c2 == 'L')
}

impl Clone for LocalLibrary {
    /// The copy has the same configuration value.
    fn clone(&self) -> (r: LocalLibrary)
        ensures
            r@ == self@,
    {
        let r = LocalLibrary {
            install_directory: self.install_directory.clone(),
            link_targets: crate::path::clone_string_vec(&self.link_targets),
            system_link_targets: crate::path::clone_string_vec(&self.system_link_targets),
            include_directories: clone_path_vec(&self.include_directories),
            library_directories: clone_path_vec(&self.library_directories),
        };
        proof {
            assert(r@ =~~= self@);
        }
        r
    }
}

impl LocalLibrary {
    /// Create a library configuration over an install directory, with the
    /// default include and library directory candidates.
    ///
    /// This suits binaries shipped with the crate as much as freshly built
    /// ones; candidates that do not exist on disk are dropped by the link
    /// resolver, never emitted.
    pub fn new(install_directory: &DirPath) -> (r: LocalLibrary)
        ensures
            r@ == spec_new_library(install_directory@),
    {
        let mut include_directories: Vec<DirPath> = Vec::new();
        include_directories.push(install_directory.join("include"));
        let mut library_directories: Vec<DirPath> = Vec::new();
        library_directories.push(install_directory.join("lib"));
        library_directories.push(install_directory.join("lib64"));
        let r = LocalLibrary {
            install_directory: install_directory.clone(),
            link_targets: Vec::new(),
            system_link_targets: Vec::new(),
            include_directories,
            library_directories,
        };
        proof {
            assert(r@ =~~= spec_new_library(install_directory@));
        }
        r
    }

    /// Create a library configuration from a built project.
    ///
    /// The caller reports whether the builder's install directory exists on
    /// disk; a missing one means the repository was never built, which is
    /// fatal.  A build target other than the everything target is linked
    /// automatically.
    pub fn from(repository: &CMakeBuilder, install_directory_exists: bool) -> (r: Result<
        LocalLibrary,
        BuildError,
    >)
        ensures
            !install_directory_exists ==> r == Err::<LocalLibrary, BuildError>(
                BuildError::PathNotFound,
            ),
            install_directory_exists ==> (r matches Ok(lib) && lib@ == ({
                let base = spec_new_library(repository@.install_directory);
                let target = crate::cmake_builder::spec_resolved_target(repository@.build_target);
                if spec_is_all_target(target) {
                    base
                } else {
                    LocalLibraryView { link_targets: base.link_targets.push(target), ..base }
                }
            })),
    {
        if !install_directory_exists {
            return Err(BuildError::PathNotFound);
        }
        let build_target: String = match repository.get_build_target() {
            Some(t) => t.clone(),
            None => String::from_str("all"),
        };
        let mut local_library = LocalLibrary::new(repository.get_install_directory());
        if !is_all_target(build_target.as_str()) {
            local_library.link_target(build_target.as_str());
            proof {
                let base = spec_new_library(repository@.install_directory);
                let target = crate::cmake_builder::spec_resolved_target(repository@.build_target);
                assert(local_library@ =~~= (LocalLibraryView {
                    link_targets: base.link_targets.push(target),
                    ..base
                }));
            }
        }
        Ok(local_library)
    }

    /// Add a candidate directory, relative to the install directory, that
    /// will be searched for header files.
    pub fn add_include_directory(&mut self, path: &DirPath) -> (r: &mut LocalLibrary)
        ensures
            (*r)@ == (LocalLibraryView {
                include_directories: old(self)@.include_directories.push(
                    old(self)@.install_directory + path@,
                ),
                ..old(self)@
            }),
            *final(self) == *final(r),
    {
        let joined = self.install_directory.concat_path(path);
        self.include_directories.push(joined);
        proof {
            assert(self@ =~~= (LocalLibraryView {
                include_directories: old(self)@.include_directories.push(
                    old(self)@.install_directory + path@,
                ),
                ..old(self)@
            }));
        }
        self
    }

    /// Add a candidate directory, relative to the install directory, that
    /// will be searched for library files.
    pub fn add_library_directory(&mut self, path: &DirPath) -> (r: &mut LocalLibrary)
        ensures
            (*r)@ == (LocalLibraryView {
                library_directories: old(self)@.library_directories.push(
                    old(self)@.install_directory + path@,
                ),
                ..old(self)@
            }),
            *final(self) == *final(r),
    {
        let joined = self.install_directory.concat_path(path);
        self.library_directories.push(joined);
        proof {
            assert(self@ =~~= (LocalLibraryView {
                library_directories: old(self)@.library_directories.push(
                    old(self)@.install_directory + path@,
                ),
                ..old(self)@
            }));
        }
        self
    }

    /// Add a target to search for and link, preferring its static form; a
    /// resolved shared form is copied next to the consumer's binary.
    pub fn link_target(&mut self, target: &str) -> (r: &mut LocalLibrary)
        ensures
            (*r)@ == (LocalLibraryView {
                link_targets: old(self)@.link_targets.push(target@),
                ..old(self)@
            }),
            *final(self) == *final(r),
    {
        self.link_targets.push(String::from_str(target));
        proof {
            assert(self@ =~~= (LocalLibraryView {
                link_targets: old(self)@.link_targets.push(target@),
                ..old(self)@
            }));
        }
        self
    }

    /// Add a system target: assumed shared and already present on the host,
    /// linked unconditionally, never searched for and never copied.
    pub fn link_system_target(&mut self, target: &str) -> (r: &mut LocalLibrary)
        ensures
            (*r)@ == (LocalLibraryView {
                system_link_targets: old(self)@.system_link_targets.push(target@),
                ..old(self)@
            }),
            *final(self) == *final(r),
    {
        self.system_link_targets.push(String::from_str(target));
        proof {
            assert(self@ =~~= (LocalLibraryView {
                system_link_targets: old(self)@.system_link_targets.push(target@),
                ..old(self)@
            }));
        }
        self
    }

    /// Finalize the configuration into an owned value.
    pub fn get(&self) -> (r: LocalLibrary)
        ensures
            r@ == self@,
    {
        self.clone()
    }

    /// The targets to search for and link.
    pub fn get_link_targets(&self) -> (r: &Vec<String>)
        ensures
            r.deep_view() == self@.link_targets,
    {
        &self.link_targets
    }

    /// The system targets linked unconditionally as shared.
    pub fn get_system_link_targets(&self) -> (r: &Vec<String>)
        ensures
            r.deep_view() == self@.system_link_targets,
    {
        &self.system_link_targets
    }

    /// The candidate directories searched for header files.
    pub fn get_include_directories(&self) -> (r: &Vec<DirPath>)
        ensures
            r.deep_view() == self@.include_directories,
    {
        &self.include_directories
    }

    /// The candidate directories searched for library files.
    pub fn get_library_directories(&self) -> (r: &Vec<DirPath>)
        ensures
            r.deep_view() == self@.library_directories,
    {
        &self.library_directories
    }
}

} // verus!
