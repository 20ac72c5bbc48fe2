//! The build orchestrator.
//!
//! A build is described by a builder value holding plain configuration data:
//! source location, generator, profile, compiler flags, defines and the
//! chosen build target.  From it the orchestrator derives a configure
//! request and an install plan; the unverified shell hands those to the
//! external build tool and reports the outcomes back.  The builder is a
//! state machine: a configured builder carries its configure options, and a
//! built one carries only its build directory, so a second build run
//! produces a fresh value instead of mutating the old one.

use vstd::prelude::*;
use vstd::string::StringExecFns;
use crate::errors::BuildError;
use crate::path::{spec_render, DirPath};
use crate::platform::Platform;
use crate::text::str_eq;

verus! {

/// The build profile propagated to the external build tool.
#[derive(Clone, Copy, Debug, PartialEq, Eq, Structural)]
pub enum BuildProfile {
    Debug,
    Release,
    RelWithDebugInfo,
    MinSizeRel,
}

impl BuildProfile {
    /// The profile's conventional name.
    pub open spec fn spec_name(self) -> Seq<char> {
        match self {
            BuildProfile::Debug => "Debug"@,
            BuildProfile::Release => "Release"@,
            BuildProfile::RelWithDebugInfo => "RelWithDebugInfo"@,
            BuildProfile::MinSizeRel => "MinSizeRel"@,
        }
    }

    /// The profile's conventional name.
    pub fn name(self) -> (r: &'static str)
        ensures
            r@ == self.spec_name(),
    {
        match self {
            BuildProfile::Debug => "Debug",
            BuildProfile::Release => "Release",
            BuildProfile::RelWithDebugInfo => "RelWithDebugInfo",
            BuildProfile::MinSizeRel => "MinSizeRel",
        }
    }
}

/// Distinct profiles have distinct names.
pub proof fn lemma_profile_names_distinct(p1: BuildProfile, p2: BuildProfile)
    requires
        p1 != p2,
    ensures
        p1.spec_name() != p2.spec_name(),
{
    reveal_strlit("Debug");
    reveal_strlit("Release");
    reveal_strlit("RelWithDebugInfo");
    reveal_strlit("MinSizeRel");
    assert("Debug"@.len() == 5);
    assert("Release"@.len() == 7);
    assert("RelWithDebugInfo"@.len() == 16);
    assert("MinSizeRel"@.len() == 10);
}

/// The name of the per-profile build-scratch directory placed inside the
/// source tree.
pub open spec fn spec_scratch_dir_name(profile: BuildProfile) -> Seq<char> {
    "cmake-bind-builder-"@ + profile.spec_name()
}

/// The name of the per-profile build-scratch directory.
pub fn scratch_dir_name(profile: BuildProfile) -> (r: String)
    ensures
        r@ == spec_scratch_dir_name(profile),
{
    String::from_str("cmake-bind-builder-").concat(profile.name())
}

/// The install directory is a pure function of the source path and the
/// profile: `<source>/<scratch dir for the profile>/install`.  Repeated
/// configuration of the same source and profile therefore converges on a
/// byte-identical path.
pub open spec fn spec_install_dir(source: Seq<Seq<char>>, profile: BuildProfile) -> Seq<
    Seq<char>,
> {
    source.push(spec_scratch_dir_name(profile)).push("install"@)
}

/// Distinct profiles of one source path get distinct install directories.
pub proof fn lemma_install_dir_depends_on_profile(
    source: Seq<Seq<char>>,
    p1: BuildProfile,
    p2: BuildProfile,
)
    requires
        p1 != p2,
    ensures
        spec_install_dir(source, p1) != spec_install_dir(source, p2),
{
    lemma_profile_names_distinct(p1, p2);
    assert(spec_scratch_dir_name(p1) != spec_scratch_dir_name(p2)) by {
        if spec_scratch_dir_name(p1) == spec_scratch_dir_name(p2) {
            let pre = "cmake-bind-builder-"@;
            assert((pre + p1.spec_name()).skip(pre.len() as int) =~= p1.spec_name());
            assert((pre + p2.spec_name()).skip(pre.len() as int) =~= p2.spec_name());
        }
    }
    assert(spec_install_dir(source, p1)[source.len() as int] == spec_scratch_dir_name(p1));
    assert(spec_install_dir(source, p2)[source.len() as int] == spec_scratch_dir_name(p2));
}

/// The defines handed to the build tool's configure step, as a mapping:
/// the value bound to `k`, when any.
pub open spec fn spec_defines_lookup(
    s: Seq<(Seq<char>, Seq<char>)>,
    k: Seq<char>,
) -> Option<Seq<char>>
    decreases s.len(),
{
    if s.len() == 0 {
        None
    } else if s[0].0 == k {
        Some(s[0].1)
    } else {
        spec_defines_lookup(s.drop_first(), k)
    }
}

/// Binding a define: an existing key keeps its position and takes the new
/// value (last write wins); a new key is appended.
pub open spec fn spec_defines_insert(
    s: Seq<(Seq<char>, Seq<char>)>,
    k: Seq<char>,
    v: Seq<char>,
) -> Seq<(Seq<char>, Seq<char>)>
    decreases s.len(),
{
    if s.len() == 0 {
        seq![(k, v)]
    } else if s[0].0 == k {
        seq![(k, v)] + s.drop_first()
    } else {
        seq![s[0]] + spec_defines_insert(s.drop_first(), k, v)
    }
}

/// No key occurs twice in the define list.
pub open spec fn spec_defines_unique(s: Seq<(Seq<char>, Seq<char>)>) -> bool {
    forall|i: int, j: int| 0 <= i < j < s.len() ==> (#[trigger] s[i]).0 != (#[trigger] s[j]).0
}

/// Binding a define means exactly: the bound key now maps to the new value,
/// every other key keeps its binding, and keys stay unique.
pub proof fn lemma_define_last_write_wins(
    s: Seq<(Seq<char>, Seq<char>)>,
    k: Seq<char>,
    v: Seq<char>,
)
    ensures
        spec_defines_lookup(spec_defines_insert(s, k, v), k) == Some(v),
        forall|k2: Seq<char>|
            k2 != k ==> #[trigger] spec_defines_lookup(spec_defines_insert(s, k, v), k2)
                == spec_defines_lookup(s, k2),
        spec_defines_unique(s) ==> spec_defines_unique(spec_defines_insert(s, k, v)),
    decreases s.len(),
{
    if s.len() == 0 {
        let t = spec_defines_insert(s, k, v);
        assert forall|k2: Seq<char>| k2 != k implies #[trigger] spec_defines_lookup(t, k2)
            == spec_defines_lookup(s, k2) by {
            assert(t.drop_first() =~= Seq::<(Seq<char>, Seq<char>)>::empty());
            assert(spec_defines_lookup(t, k2) == spec_defines_lookup(t.drop_first(), k2));
            assert(spec_defines_lookup(t.drop_first(), k2) is None);
        }
    } else if s[0].0 == k {
        let t = spec_defines_insert(s, k, v);
        assert(t.drop_first() =~= s.drop_first());
        assert(spec_defines_unique(s) ==> spec_defines_unique(t)) by {
            if spec_defines_unique(s) {
                assert(t =~= s.update(0, (k, v)));
                assert forall|i: int, j: int| 0 <= i < j < t.len() implies (#[trigger] t[i]).0 != (
                #[trigger] t[j]).0 by {
                    assert(t[i].0 == s[i].0);
                    assert(t[j].0 == s[j].0);
                    assert(s[i].0 != s[j].0);
                }
            }
        }
    } else {
        lemma_define_last_write_wins(s.drop_first(), k, v);
        let t = spec_defines_insert(s, k, v);
        assert(t.drop_first() =~= spec_defines_insert(s.drop_first(), k, v));
        assert(spec_defines_lookup(t, k) == Some(v));
        assert forall|k2: Seq<char>| k2 != k implies #[trigger] spec_defines_lookup(t, k2)
            == spec_defines_lookup(s, k2) by {
            if k2 == s[0].0 {
            } else {
                assert(spec_defines_lookup(t, k2) == spec_defines_lookup(t.drop_first(), k2));
            }
        }
        assert(spec_defines_unique(s) ==> spec_defines_unique(t)) by {
            if spec_defines_unique(s) {
                assert(spec_defines_unique(s.drop_first())) by {
                    assert forall|i: int, j: int|
                        0 <= i < j < s.drop_first().len() implies (#[trigger] s.drop_first()[i]).0
                        != (#[trigger] s.drop_first()[j]).0 by {
                        assert(s[i + 1].0 != s[j + 1].0);
                    }
                }
                lemma_defines_insert_keys(s.drop_first(), k, v);
                let u = spec_defines_insert(s.drop_first(), k, v);
                assert forall|i: int, j: int| 0 <= i < j < t.len() implies (#[trigger] t[i]).0 != (
                #[trigger] t[j]).0 by {
                    assert(t[j] == t.drop_first()[j - 1]);
                    assert(t[j] == u[j - 1]);
                    if 0 < i {
                        assert(t[i] == t.drop_first()[i - 1]);
                        assert(u[i - 1].0 != u[j - 1].0);
                    } else {
                        assert(t[0] == s[0]);
                        assert(u[j - 1].0 == k || spec_defines_lookup(s.drop_first(), u[j - 1].0)
                            is Some);
                        if t[j].0 == s[0].0 {
                            assert(spec_defines_lookup(s.drop_first(), s[0].0) is Some);
                            lemma_defines_lookup_some_position(s.drop_first(), s[0].0);
                            let m = choose|m: int|
                                0 <= m < s.drop_first().len() && s.drop_first()[m].0 == s[0].0;
                            assert(s[m + 1].0 == s[0].0);
                            assert(false);
                        }
                    }
                }
            }
        }
    }
}

/// Every key of the inserted list is a key of the original list or the
/// inserted key itself.
proof fn lemma_defines_insert_keys(s: Seq<(Seq<char>, Seq<char>)>, k: Seq<char>, v: Seq<char>)
    ensures
        forall|j: int|
            0 <= j < spec_defines_insert(s, k, v).len() ==> (#[trigger] spec_defines_insert(
                s,
                k,
                v,
            )[j]).0 == k || spec_defines_lookup(s, spec_defines_insert(s, k, v)[j].0) is Some,
    decreases s.len(),
{
    let t = spec_defines_insert(s, k, v);
    if s.len() == 0 {
    } else if s[0].0 == k {
        assert forall|j: int| 0 <= j < t.len() implies (#[trigger] t[j]).0 == k
            || spec_defines_lookup(s, t[j].0) is Some by {
            if j > 0 {
                assert(t[j] == s[j]);
                lemma_defines_lookup_present(s, j);
            }
        }
    } else {
        lemma_defines_insert_keys(s.drop_first(), k, v);
        assert forall|j: int| 0 <= j < t.len() implies (#[trigger] t[j]).0 == k
            || spec_defines_lookup(s, t[j].0) is Some by {
            if j == 0 {
                assert(t[0] == s[0]);
                lemma_defines_lookup_present(s, 0);
            } else {
                let u = spec_defines_insert(s.drop_first(), k, v);
                assert(t[j] == u[j - 1]);
                if u[j - 1].0 != k {
                    assert(spec_defines_lookup(s.drop_first(), u[j - 1].0) is Some);
                    assert(spec_defines_lookup(s, u[j - 1].0) is Some);
                }
            }
        }
    }
}

/// A key with a binding stands at some position of the list.
proof fn lemma_defines_lookup_some_position(s: Seq<(Seq<char>, Seq<char>)>, k: Seq<char>)
    requires
        spec_defines_lookup(s, k) is Some,
    ensures
        exists|m: int| 0 <= m < s.len() && (#[trigger] s[m]).0 == k,
    decreases s.len(),
{
    if s[0].0 == k {
        assert(s[0].0 == k);
    } else {
        lemma_defines_lookup_some_position(s.drop_first(), k);
        let m = choose|m: int| 0 <= m < s.drop_first().len() && (#[trigger] s.drop_first()[m]).0
            == k;
        assert(s[m + 1].0 == k);
    }
}

/// A key that stands at some position of the list has a binding.
proof fn lemma_defines_lookup_present(s: Seq<(Seq<char>, Seq<char>)>, i: int)
    requires
        0 <= i < s.len(),
    ensures
        spec_defines_lookup(s, s[i].0) is Some,
    decreases s.len(),
{
    if s[0].0 == s[i].0 {
    } else {
        assert(s.drop_first()[i - 1] == s[i]);
        lemma_defines_lookup_present(s.drop_first(), i - 1);
    }
}

/// Bind a define in the list: replace the value of an existing key in
/// place, or append a new pair.
pub fn defines_insert(defines: &mut Vec<(String, String)>, key: &str, value: &str)
    ensures
        final(defines).deep_view() == spec_defines_insert(old(defines).deep_view(), key@, value@),
{
    let ghost s = defines.deep_view();
    let mut i: usize = 0;
    while i < defines.len()
        invariant
            i <= defines.len(),
            s == defines.deep_view(),
            s == old(defines).deep_view(),
            s.len() == defines.len(),
            forall|k: int| 0 <= k < i ==> (#[trigger] s[k]).0 != key@,
        decreases defines.len() - i,
    {
        proof {
            assert(s[i as int] == defines@[i as int].deep_view());
        }
        if str_eq(defines[i].0.as_str(), key) {
            defines[i] = (String::from_str(key), String::from_str(value));
            proof {
                assert(defines.deep_view() =~= s.update(i as int, (key@, value@)));
                lemma_defines_insert_at(s, key@, value@, i as int);
            }
            return ;
        }
        i = i + 1;
    }
    defines.push((String::from_str(key), String::from_str(value)));
    proof {
        assert(defines.deep_view() =~= s.push((key@, value@)));
        lemma_defines_insert_missing(s, key@, value@);
    }
}

/// When the first occurrence of `k` is at position `i`, inserting updates
/// that position.
proof fn lemma_defines_insert_at(s: Seq<(Seq<char>, Seq<char>)>, k: Seq<char>, v: Seq<char>, i: int)
    requires
        0 <= i < s.len(),
        s[i].0 == k,
        forall|j: int| 0 <= j < i ==> (#[trigger] s[j]).0 != k,
    ensures
        spec_defines_insert(s, k, v) == s.update(i, (k, v)),
    decreases s.len(),
{
    if i == 0 {
        assert(spec_defines_insert(s, k, v) =~= s.update(0, (k, v)));
    } else {
        assert(s.drop_first()[i - 1] == s[i]);
        assert forall|j: int| 0 <= j < i - 1 implies (#[trigger] s.drop_first()[j]).0 != k by {
            assert(s.drop_first()[j] == s[j + 1]);
        }
        lemma_defines_insert_at(s.drop_first(), k, v, i - 1);
        assert(spec_defines_insert(s, k, v) =~= s.update(i, (k, v)));
    }
}

/// When `k` has no binding, inserting appends the pair.
proof fn lemma_defines_insert_missing(s: Seq<(Seq<char>, Seq<char>)>, k: Seq<char>, v: Seq<char>)
    requires
        forall|j: int| 0 <= j < s.len() ==> (#[trigger] s[j]).0 != k,
    ensures
        spec_defines_insert(s, k, v) == s.push((k, v)),
    decreases s.len(),
{
    if s.len() == 0 {
        assert(spec_defines_insert(s, k, v) =~= s.push((k, v)));
    } else {
        assert forall|j: int| 0 <= j < s.drop_first().len() implies (#[trigger] s.drop_first()[j]).0
            != k by {
            assert(s.drop_first()[j] == s[j + 1]);
        }
        lemma_defines_insert_missing(s.drop_first(), k, v);
        assert(spec_defines_insert(s, k, v) =~= s.push((k, v)));
    }
}

/// The plain configuration handed to the external build tool's configure
/// step.
pub struct ConfigureOptions {
    /// The canonicalized source tree the build tool is pointed at.
    pub source_directory: DirPath,
    /// The per-profile scratch directory the build tool works in.
    pub out_directory: DirPath,
    pub generator: Option<String>,
    pub generator_toolset: Option<String>,
    pub cflags: Vec<String>,
    pub cxxflags: Vec<String>,
    pub asmflags: Vec<String>,
    pub defines: Vec<(String, String)>,
    pub registered_deps: Vec<String>,
    pub target_triple: Option<String>,
    pub host_triple: Option<String>,
    pub profile_name: Option<String>,
    pub static_crt: Option<bool>,
    pub configure_args: Vec<String>,
    pub build_args: Vec<String>,
    pub env_vars: Vec<(String, String)>,
    pub always_configure: Option<bool>,
    pub very_verbose: Option<bool>,
}

/// The mathematical value of [`ConfigureOptions`].
#[verifier::ext_equal]
pub struct ConfigureOptionsView {
    pub source_directory: Seq<Seq<char>>,
    pub out_directory: Seq<Seq<char>>,
    pub generator: Option<Seq<char>>,
    pub generator_toolset: Option<Seq<char>>,
    pub cflags: Seq<Seq<char>>,
    pub cxxflags: Seq<Seq<char>>,
    pub asmflags: Seq<Seq<char>>,
    pub defines: Seq<(Seq<char>, Seq<char>)>,
    pub registered_deps: Seq<Seq<char>>,
    pub target_triple: Option<Seq<char>>,
    pub host_triple: Option<Seq<char>>,
    pub profile_name: Option<Seq<char>>,
    pub static_crt: Option<bool>,
    pub configure_args: Seq<Seq<char>>,
    pub build_args: Seq<Seq<char>>,
    pub env_vars: Seq<(Seq<char>, Seq<char>)>,
    pub always_configure: Option<bool>,
    pub very_verbose: Option<bool>,
}

impl View for ConfigureOptions {
    type V = ConfigureOptionsView;

    open spec fn view(&self) -> ConfigureOptionsView {
        ConfigureOptionsView {
            source_directory: self.source_directory@,
            out_directory: self.out_directory@,
            generator: self.generator.deep_view(),
            generator_toolset: self.generator_toolset.deep_view(),
            cflags: self.cflags.deep_view(),
            cxxflags: self.cxxflags.deep_view(),
            asmflags: self.asmflags.deep_view(),
            defines: self.defines.deep_view(),
            registered_deps: self.registered_deps.deep_view(),
            target_triple: self.target_triple.deep_view(),
            host_triple: self.host_triple.deep_view(),
            profile_name: self.profile_name.deep_view(),
            static_crt: self.static_crt,
            configure_args: self.configure_args.deep_view(),
            build_args: self.build_args.deep_view(),
            env_vars: self.env_vars.deep_view(),
            always_configure: self.always_configure,
            very_verbose: self.very_verbose,
        }
    }
}

/// A builder for configuring, building and installing a project of the
/// external build tool.
///
/// A builder made by [`CMakeBuilder::from`] carries configure options; one
/// made by [`CMakeBuilder::from_build_directory`], or returned by
/// [`CMakeBuilder::finish_build`], carries only a build directory and goes
/// straight to the install step.
pub struct CMakeBuilder {
    pub name: String,
    pub config: Option<ConfigureOptions>,
    pub build_directory: Option<DirPath>,
    pub install_directory: DirPath,
    pub build_target: Option<String>,
}

/// The mathematical value of a [`CMakeBuilder`].
#[verifier::ext_equal]
pub struct CMakeBuilderView {
    pub name: Seq<char>,
    pub config: Option<ConfigureOptionsView>,
    pub build_directory: Option<Seq<Seq<char>>>,
    pub install_directory: Seq<Seq<char>>,
    pub build_target: Option<Seq<char>>,
}

impl View for CMakeBuilder {
    type V = CMakeBuilderView;

    open spec fn view(&self) -> CMakeBuilderView {
        CMakeBuilderView {
            name: self.name@,
            config: match self.config {
                Some(ref c) => Some(c@),
                None => None,
            },
            build_directory: match self.build_directory {
                Some(ref d) => Some(d@),
                None => None,
            },
            install_directory: self.install_directory@,
            build_target: self.build_target.deep_view(),
        }
    }
}

impl CMakeBuilderView {
    /// A builder is well-formed when it knows how to reach a build
    /// directory — through configure options or directly — and its define
    /// keys are unique.
    pub open spec fn wf(self) -> bool {
        (self.config is Some || self.build_directory is Some) && (self.config matches Some(c)
            ==> spec_defines_unique(c.defines))
    }

    /// The same builder with its configure options replaced.
    pub open spec fn with_options(self, c: ConfigureOptionsView) -> CMakeBuilderView {
        CMakeBuilderView { config: Some(c), ..self }
    }
}

/// The source directory a configuration will use: the path itself on
/// Windows, where canonical paths take a form the downstream native
/// compiler cannot consume, and the canonicalized path elsewhere — absent
/// when canonicalization failed because the path does not exist.
pub open spec fn spec_source_dir(
    path: Seq<Seq<char>>,
    canonical: Option<Seq<Seq<char>>>,
    platform: Platform,
) -> Option<Seq<Seq<char>>> {
    if platform is Windows {
        Some(path)
    } else {
        canonical
    }
}

/// The configure options a fresh builder starts from: the skip-dependency-
/// install define is always injected, so the external tool's own install
/// pass cannot drag unrelated dependencies in.
pub open spec fn spec_fresh_options(
    source: Seq<Seq<char>>,
    profile: BuildProfile,
) -> ConfigureOptionsView {
    ConfigureOptionsView {
        source_directory: source,
        out_directory: source.push(spec_scratch_dir_name(profile)),
        generator: None,
        generator_toolset: None,
        cflags: Seq::empty(),
        cxxflags: Seq::empty(),
        asmflags: Seq::empty(),
        defines: seq![("CMAKE_SKIP_INSTALL_ALL_DEPENDENCY"@, "true"@)],
        registered_deps: Seq::empty(),
        target_triple: None,
        host_triple: None,
        profile_name: None,
        static_crt: None,
        configure_args: Seq::empty(),
        build_args: Seq::empty(),
        env_vars: Seq::empty(),
        always_configure: None,
        very_verbose: None,
    }
}

/// The builder value that configuring a source tree produces.
pub open spec fn spec_configured_builder(
    name: Seq<char>,
    source: Seq<Seq<char>>,
    profile: BuildProfile,
) -> CMakeBuilderView {
    CMakeBuilderView {
        name: name,
        config: Some(spec_fresh_options(source, profile)),
        build_directory: None,
        install_directory: spec_install_dir(source, profile),
        build_target: None,
    }
}

/// Copy a vector of string pairs; the copy has the same character sequences.
fn clone_string_pairs(v: &Vec<(String, String)>) -> (r: Vec<(String, String)>)
    ensures
        r.deep_view() == v.deep_view(),
{
    let mut out: Vec<(String, String)> = Vec::new();
    let mut i: usize = 0;
    while i < v.len()
        invariant
            i <= v.len(),
            out@ == v@.take(i as int),
        decreases v.len() - i,
    {
        out.push((v[i].0.clone(), v[i].1.clone()));
        proof {
            assert(out@ =~= v@.take(i + 1));
        }
        i = i + 1;
    }
    proof {
        assert(v@.take(v@.len() as int) =~= v@);
        assert(out.deep_view() =~= v.deep_view());
    }
    out
}

/// Copy an optional string; the copy has the same character sequence.
fn clone_opt_string(v: &Option<String>) -> (r: Option<String>)
    ensures
        r.deep_view() == v.deep_view(),
{
    match v {
        Some(s) => Some(s.clone()),
        None => None,
    }
}

impl Clone for ConfigureOptions {
    /// The copy has the same configuration value.
    fn clone(&self) -> (r: ConfigureOptions)
        ensures
            r@ == self@,
    {
        let r = ConfigureOptions {
            source_directory: self.source_directory.clone(),
            out_directory: self.out_directory.clone(),
            generator: clone_opt_string(&self.generator),
            generator_toolset: clone_opt_string(&self.generator_toolset),
            cflags: crate::path::clone_string_vec(&self.cflags),
            cxxflags: crate::path::clone_string_vec(&self.cxxflags),
            asmflags: crate::path::clone_string_vec(&self.asmflags),
            defines: clone_string_pairs(&self.defines),
            registered_deps: crate::path::clone_string_vec(&self.registered_deps),
            target_triple: clone_opt_string(&self.target_triple),
            host_triple: clone_opt_string(&self.host_triple),
            profile_name: clone_opt_string(&self.profile_name),
            static_crt: self.static_crt,
            configure_args: crate::path::clone_string_vec(&self.configure_args),
            build_args: crate::path::clone_string_vec(&self.build_args),
            env_vars: clone_string_pairs(&self.env_vars),
            always_configure: self.always_configure,
            very_verbose: self.very_verbose,
        };
        proof {
            assert(r@ =~~= self@);
        }
        r
    }
}

impl CMakeBuilder {
    /// Create a builder for an existing source tree of the external build
    /// tool.
    ///
    /// Canonicalization requires existence, so the caller passes the
    /// canonicalized form of `path` when it has one; its absence means the
    /// source path was not found, which is fatal.  On Windows the path is
    /// used as given: canonical paths there take a form the downstream
    /// native compiler cannot consume.
    pub fn from(
        name: &str,
        path: &DirPath,
        canonical_path: Option<&DirPath>,
        platform: Platform,
        profile: BuildProfile,
    ) -> (r: Result<CMakeBuilder, BuildError>)
        ensures
            match spec_source_dir(path@, canonical_path.deep_view(), platform) {
                Some(source) => r matches Ok(b) && b@ == spec_configured_builder(
                    name@,
                    source,
                    profile,
                ) && b@.wf(),
                None => r == Err::<CMakeBuilder, BuildError>(BuildError::PathNotFound),
            },
    {
        let source: DirPath = match platform {
            Platform::Windows => path.clone(),
            _ => match canonical_path {
                Some(c) => (*c).clone(),
                None => {
                    return Err(BuildError::PathNotFound);
                },
            },
        };
        let scratch = scratch_dir_name(profile);
        let out_directory = source.join(scratch.as_str());
        let install_directory = out_directory.join("install");
        let mut defines: Vec<(String, String)> = Vec::new();
        defines.push(
            (String::from_str("CMAKE_SKIP_INSTALL_ALL_DEPENDENCY"), String::from_str("true")),
        );
        let ghost source_view = source@;
        let options = ConfigureOptions {
            source_directory: source,
            out_directory,
            generator: None,
            generator_toolset: None,
            cflags: Vec::new(),
            cxxflags: Vec::new(),
            asmflags: Vec::new(),
            defines,
            registered_deps: Vec::new(),
            target_triple: None,
            host_triple: None,
            profile_name: None,
            static_crt: None,
            configure_args: Vec::new(),
            build_args: Vec::new(),
            env_vars: Vec::new(),
            always_configure: None,
            very_verbose: None,
        };
        proof {
            assert(options@ =~~= spec_fresh_options(source_view, profile));
        }
        let b = CMakeBuilder {
            name: String::from_str(name),
            config: Some(options),
            build_directory: None,
            install_directory,
            build_target: None,
        };
        proof {
            assert(b@ =~~= spec_configured_builder(name@, source_view, profile));
        }
        Ok(b)
    }

    /// Create a builder for a build directory the caller has already
    /// configured and built out of band; building it goes straight to the
    /// install step.  The same canonicalization rule as for
    /// [`CMakeBuilder::from`] applies.
    pub fn from_build_directory(
        name: &str,
        build_path: &DirPath,
        canonical_path: Option<&DirPath>,
        platform: Platform,
        profile: BuildProfile,
    ) -> (r: Result<CMakeBuilder, BuildError>)
        ensures
            match spec_source_dir(build_path@, canonical_path.deep_view(), platform) {
                Some(source) => r matches Ok(b) && b@ == (CMakeBuilderView {
                    name: name@,
                    config: None,
                    build_directory: Some(source),
                    install_directory: spec_install_dir(source, profile),
                    build_target: None,
                }) && b@.wf(),
                None => r == Err::<CMakeBuilder, BuildError>(BuildError::PathNotFound),
            },
    {
        let source: DirPath = match platform {
            Platform::Windows => build_path.clone(),
            _ => match canonical_path {
                Some(c) => (*c).clone(),
                None => {
                    return Err(BuildError::PathNotFound);
                },
            },
        };
        let scratch = scratch_dir_name(profile);
        let install_directory = source.join(scratch.as_str()).join("install");
        let b = CMakeBuilder {
            name: String::from_str(name),
            config: None,
            build_directory: Some(source),
            install_directory,
            build_target: None,
        };
        Ok(b)
    }
}

impl CMakeBuilder {

    /// Sets the build-tool generator for the configure step.
    ///
    /// A builder without configure options (one made from a build
    /// directory, or already built) is left unchanged.
    pub fn generator(&mut self, generator: &str) -> (r: &mut CMakeBuilder)
        ensures
            old(self)@.config is None ==> (*r)@ == old(self)@,
            old(self)@.config matches Some(c) ==> (*r)@ == old(self)@.with_options(
                ConfigureOptionsView { generator: Some(generator@), ..c },
            ),
            old(self)@.wf() ==> (*r)@.wf(),
            *final(self) == *final(r),
    {
        match &mut self.config {
            Some(config) => {
                config.generator = Some(String::from_str(generator));
            },
            None => {},
        }
        proof {
            if old(self)@.config is Some {
                let c = old(self)@.config->Some_0;
                assert(self@ =~~= old(self)@.with_options(
                    ConfigureOptionsView { generator: Some(generator@), ..c },
                ));
            }
        }
        self
    }


    /// Sets the generator's toolset name, where the generator supports one.
    ///
    /// A builder without configure options (one made from a build
    /// directory, or already built) is left unchanged.
    pub fn generator_toolset(&mut self, toolset_name: &str) -> (r: &mut CMakeBuilder)
        ensures
            old(self)@.config is None ==> (*r)@ == old(self)@,
            old(self)@.config matches Some(c) ==> (*r)@ == old(self)@.with_options(
                ConfigureOptionsView { generator_toolset: Some(toolset_name@), ..c },
            ),
            old(self)@.wf() ==> (*r)@.wf(),
            *final(self) == *final(r),
    {
        match &mut self.config {
            Some(config) => {
                config.generator_toolset = Some(String::from_str(toolset_name));
            },
            None => {},
        }
        proof {
            if old(self)@.config is Some {
                let c = old(self)@.config->Some_0;
                assert(self@ =~~= old(self)@.with_options(
                    ConfigureOptionsView { generator_toolset: Some(toolset_name@), ..c },
                ));
            }
        }
        self
    }


    /// Sets the target triple handed to the build tool.
    ///
    /// A builder without configure options (one made from a build
    /// directory, or already built) is left unchanged.
    pub fn target(&mut self, target_triple_value: &str) -> (r: &mut CMakeBuilder)
        ensures
            old(self)@.config is None ==> (*r)@ == old(self)@,
            old(self)@.config matches Some(c) ==> (*r)@ == old(self)@.with_options(
                ConfigureOptionsView { target_triple: Some(target_triple_value@), ..c },
            ),
            old(self)@.wf() ==> (*r)@.wf(),
            *final(self) == *final(r),
    {
        match &mut self.config {
            Some(config) => {
                config.target_triple = Some(String::from_str(target_triple_value));
            },
            None => {},
        }
        proof {
            if old(self)@.config is Some {
                let c = old(self)@.config->Some_0;
                assert(self@ =~~= old(self)@.with_options(
                    ConfigureOptionsView { target_triple: Some(target_triple_value@), ..c },
                ));
            }
        }
        self
    }


    /// Sets the host triple handed to the build tool.
    ///
    /// A builder without configure options (one made from a build
    /// directory, or already built) is left unchanged.
    pub fn host(&mut self, host_triple_value: &str) -> (r: &mut CMakeBuilder)
        ensures
            old(self)@.config is None ==> (*r)@ == old(self)@,
            old(self)@.config matches Some(c) ==> (*r)@ == old(self)@.with_options(
                ConfigureOptionsView { host_triple: Some(host_triple_value@), ..c },
            ),
            old(self)@.wf() ==> (*r)@.wf(),
            *final(self) == *final(r),
    {
        match &mut self.config {
            Some(config) => {
                config.host_triple = Some(String::from_str(host_triple_value));
            },
            None => {},
        }
        proof {
            if old(self)@.config is Some {
                let c = old(self)@.config->Some_0;
                assert(self@ =~~= old(self)@.with_options(
                    ConfigureOptionsView { host_triple: Some(host_triple_value@), ..c },
                ));
            }
        }
        self
    }


    /// Sets the build-type profile name handed to the build tool.
    ///
    /// A builder without configure options (one made from a build
    /// directory, or already built) is left unchanged.
    pub fn profile(&mut self, profile_value: &str) -> (r: &mut CMakeBuilder)
        ensures
            old(self)@.config is None ==> (*r)@ == old(self)@,
            old(self)@.config matches Some(c) ==> (*r)@ == old(self)@.with_options(
                ConfigureOptionsView { profile_name: Some(profile_value@), ..c },
            ),
            old(self)@.wf() ==> (*r)@.wf(),
            *final(self) == *final(r),
    {
        match &mut self.config {
            Some(config) => {
                config.profile_name = Some(String::from_str(profile_value));
            },
            None => {},
        }
        proof {
            if old(self)@.config is Some {
                let c = old(self)@.config->Some_0;
                assert(self@ =~~= old(self)@.with_options(
                    ConfigureOptionsView { profile_name: Some(profile_value@), ..c },
                ));
            }
        }
        self
    }


    /// Appends a flag for the C compiler; earlier flags are kept and never shadowed.
    ///
    /// A builder without configure options (one made from a build
    /// directory, or already built) is left unchanged.
    pub fn cflag(&mut self, flag: &str) -> (r: &mut CMakeBuilder)
        ensures
            old(self)@.config is None ==> (*r)@ == old(self)@,
            old(self)@.config matches Some(c) ==> (*r)@ == old(self)@.with_options(
                ConfigureOptionsView { cflags: c.cflags.push(flag@), ..c },
            ),
            old(self)@.wf() ==> (*r)@.wf(),
            *final(self) == *final(r),
    {
        match &mut self.config {
            Some(config) => {
                config.cflags.push(String::from_str(flag));
            },
            None => {},
        }
        proof {
            if old(self)@.config is Some {
                let c = old(self)@.config->Some_0;
                assert(self@ =~~= old(self)@.with_options(
                    ConfigureOptionsView { cflags: c.cflags.push(flag@), ..c },
                ));
            }
        }
        self
    }


    /// Appends a flag for the C++ compiler; earlier flags are kept and never shadowed.
    ///
    /// A builder without configure options (one made from a build
    /// directory, or already built) is left unchanged.
    pub fn cxxflag(&mut self, flag: &str) -> (r: &mut CMakeBuilder)
        ensures
            old(self)@.config is None ==> (*r)@ == old(self)@,
            old(self)@.config matches Some(c) ==> (*r)@ == old(self)@.with_options(
                ConfigureOptionsView { cxxflags: c.cxxflags.push(flag@), ..c },
            ),
            old(self)@.wf() ==> (*r)@.wf(),
            *final(self) == *final(r),
    {
        match &mut self.config {
            Some(config) => {
                config.cxxflags.push(String::from_str(flag));
            },
            None => {},
        }
        proof {
            if old(self)@.config is Some {
                let c = old(self)@.config->Some_0;
                assert(self@ =~~= old(self)@.with_options(
                    ConfigureOptionsView { cxxflags: c.cxxflags.push(flag@), ..c },
                ));
            }
        }
        self
    }


    /// Appends a flag for the assembler; earlier flags are kept and never shadowed.
    ///
    /// A builder without configure options (one made from a build
    /// directory, or already built) is left unchanged.
    pub fn asmflag(&mut self, flag: &str) -> (r: &mut CMakeBuilder)
        ensures
            old(self)@.config is None ==> (*r)@ == old(self)@,
            old(self)@.config matches Some(c) ==> (*r)@ == old(self)@.with_options(
                ConfigureOptionsView { asmflags: c.asmflags.push(flag@), ..c },
            ),
            old(self)@.wf() ==> (*r)@.wf(),
            *final(self) == *final(r),
    {
        match &mut self.config {
            Some(config) => {
                config.asmflags.push(String::from_str(flag));
            },
            None => {},
        }
        proof {
            if old(self)@.config is Some {
                let c = old(self)@.config->Some_0;
                assert(self@ =~~= old(self)@.with_options(
                    ConfigureOptionsView { asmflags: c.asmflags.push(flag@), ..c },
                ));
            }
        }
        self
    }


    /// Registers a dependency whose install prefix the configure step must see.
    ///
    /// A builder without configure options (one made from a build
    /// directory, or already built) is left unchanged.
    pub fn register_dep(&mut self, dep: &str) -> (r: &mut CMakeBuilder)
        ensures
            old(self)@.config is None ==> (*r)@ == old(self)@,
            old(self)@.config matches Some(c) ==> (*r)@ == old(self)@.with_options(
                ConfigureOptionsView { registered_deps: c.registered_deps.push(dep@), ..c },
            ),
            old(self)@.wf() ==> (*r)@.wf(),
            *final(self) == *final(r),
    {
        match &mut self.config {
            Some(config) => {
                config.registered_deps.push(String::from_str(dep));
            },
            None => {},
        }
        proof {
            if old(self)@.config is Some {
                let c = old(self)@.config->Some_0;
                assert(self@ =~~= old(self)@.with_options(
                    ConfigureOptionsView { registered_deps: c.registered_deps.push(dep@), ..c },
                ));
            }
        }
        self
    }


    /// Appends an argument for the configure step.
    ///
    /// A builder without configure options (one made from a build
    /// directory, or already built) is left unchanged.
    pub fn configure_arg(&mut self, arg: &str) -> (r: &mut CMakeBuilder)
        ensures
            old(self)@.config is None ==> (*r)@ == old(self)@,
            old(self)@.config matches Some(c) ==> (*r)@ == old(self)@.with_options(
                ConfigureOptionsView { configure_args: c.configure_args.push(arg@), ..c },
            ),
            old(self)@.wf() ==> (*r)@.wf(),
            *final(self) == *final(r),
    {
        match &mut self.config {
            Some(config) => {
                config.configure_args.push(String::from_str(arg));
            },
            None => {},
        }
        proof {
            if old(self)@.config is Some {
                let c = old(self)@.config->Some_0;
                assert(self@ =~~= old(self)@.with_options(
                    ConfigureOptionsView { configure_args: c.configure_args.push(arg@), ..c },
                ));
            }
        }
        self
    }


    /// Appends an argument for the final build step.
    ///
    /// A builder without configure options (one made from a build
    /// directory, or already built) is left unchanged.
    pub fn build_arg(&mut self, arg: &str) -> (r: &mut CMakeBuilder)
        ensures
            old(self)@.config is None ==> (*r)@ == old(self)@,
            old(self)@.config matches Some(c) ==> (*r)@ == old(self)@.with_options(
                ConfigureOptionsView { build_args: c.build_args.push(arg@), ..c },
            ),
            old(self)@.wf() ==> (*r)@.wf(),
            *final(self) == *final(r),
    {
        match &mut self.config {
            Some(config) => {
                config.build_args.push(String::from_str(arg));
            },
            None => {},
        }
        proof {
            if old(self)@.config is Some {
                let c = old(self)@.config->Some_0;
                assert(self@ =~~= old(self)@.with_options(
                    ConfigureOptionsView { build_args: c.build_args.push(arg@), ..c },
                ));
            }
        }
        self
    }


    /// Chooses between the static and dynamic C runtime on msvc targets.
    ///
    /// A builder without configure options (one made from a build
    /// directory, or already built) is left unchanged.
    pub fn static_crt(&mut self, static_crt_value: bool) -> (r: &mut CMakeBuilder)
        ensures
            old(self)@.config is None ==> (*r)@ == old(self)@,
            old(self)@.config matches Some(c) ==> (*r)@ == old(self)@.with_options(
                ConfigureOptionsView { static_crt: Some(static_crt_value), ..c },
            ),
            old(self)@.wf() ==> (*r)@.wf(),
            *final(self) == *final(r),
    {
        match &mut self.config {
            Some(config) => {
                config.static_crt = Some(static_crt_value);
            },
            None => {},
        }
        proof {
            if old(self)@.config is Some {
                let c = old(self)@.config->Some_0;
                assert(self@ =~~= old(self)@.with_options(
                    ConfigureOptionsView { static_crt: Some(static_crt_value), ..c },
                ));
            }
        }
        self
    }


    /// Forces the configure step to run before every build.
    ///
    /// A builder without configure options (one made from a build
    /// directory, or already built) is left unchanged.
    pub fn always_configure(&mut self, always_configure_value: bool) -> (r: &mut CMakeBuilder)
        ensures
            old(self)@.config is None ==> (*r)@ == old(self)@,
            old(self)@.config matches Some(c) ==> (*r)@ == old(self)@.with_options(
                ConfigureOptionsView { always_configure: Some(always_configure_value), ..c },
            ),
            old(self)@.wf() ==> (*r)@.wf(),
            *final(self) == *final(r),
    {
        match &mut self.config {
            Some(config) => {
                config.always_configure = Some(always_configure_value);
            },
            None => {},
        }
        proof {
            if old(self)@.config is Some {
                let c = old(self)@.config->Some_0;
                assert(self@ =~~= old(self)@.with_options(
                    ConfigureOptionsView { always_configure: Some(always_configure_value), ..c },
                ));
            }
        }
        self
    }


    /// Sets very verbose build-tool output.
    ///
    /// A builder without configure options (one made from a build
    /// directory, or already built) is left unchanged.
    pub fn very_verbose(&mut self, value: bool) -> (r: &mut CMakeBuilder)
        ensures
            old(self)@.config is None ==> (*r)@ == old(self)@,
            old(self)@.config matches Some(c) ==> (*r)@ == old(self)@.with_options(
                ConfigureOptionsView { very_verbose: Some(value), ..c },
            ),
            old(self)@.wf() ==> (*r)@.wf(),
            *final(self) == *final(r),
    {
        match &mut self.config {
            Some(config) => {
                config.very_verbose = Some(value);
            },
            None => {},
        }
        proof {
            if old(self)@.config is Some {
                let c = old(self)@.config->Some_0;
                assert(self@ =~~= old(self)@.with_options(
                    ConfigureOptionsView { very_verbose: Some(value), ..c },
                ));
            }
        }
        self
    }


    /// Appends an environment entry for the build-tool processes.
    ///
    /// A builder without configure options (one made from a build
    /// directory, or already built) is left unchanged.
    pub fn env(&mut self, key: &str, value: &str) -> (r: &mut CMakeBuilder)
        ensures
            old(self)@.config is None ==> (*r)@ == old(self)@,
            old(self)@.config matches Some(c) ==> (*r)@ == old(self)@.with_options(
                ConfigureOptionsView { env_vars: c.env_vars.push((key@, value@)), ..c },
            ),
            old(self)@.wf() ==> (*r)@.wf(),
            *final(self) == *final(r),
    {
        match &mut self.config {
            Some(config) => {
                config.env_vars.push((String::from_str(key), String::from_str(value)));
            },
            None => {},
        }
        proof {
            if old(self)@.config is Some {
                let c = old(self)@.config->Some_0;
                assert(self@ =~~= old(self)@.with_options(
                    ConfigureOptionsView { env_vars: c.env_vars.push((key@, value@)), ..c },
                ));
            }
        }
        self
    }


    /// Binds a define for the configure step: a key bound twice keeps its
    /// position and takes the later value (last write wins), so the define
    /// list is a mapping with unique keys.
    ///
    /// A builder without configure options (one made from a build
    /// directory, or already built) is left unchanged.
    pub fn define(&mut self, k: &str, v: &str) -> (r: &mut CMakeBuilder)
        ensures
            old(self)@.config is None ==> (*r)@ == old(self)@,
            old(self)@.config matches Some(c) ==> (*r)@ == old(self)@.with_options(
                ConfigureOptionsView { defines: spec_defines_insert(c.defines, k@, v@), ..c },
            ),
            old(self)@.wf() ==> (*r)@.wf(),
            *final(self) == *final(r),
    {
        match &mut self.config {
            Some(config) => {
                defines_insert(&mut config.defines, k, v);
            },
            None => {},
        }
        proof {
            if old(self)@.config is Some {
                let c = old(self)@.config->Some_0;
                lemma_define_last_write_wins(c.defines, k@, v@);
                assert(self@ =~~= old(self)@.with_options(
                    ConfigureOptionsView { defines: spec_defines_insert(c.defines, k@, v@), ..c },
                ));
            }
        }
        self
    }


    /// Chooses the build target for the final build step; unset means
    /// everything is built.
    pub fn build_target(&mut self, target_name: &str) -> (r: &mut CMakeBuilder)
        ensures
            (*r)@ == (CMakeBuilderView { build_target: Some(target_name@), ..old(self)@ }),
            old(self)@.wf() ==> (*r)@.wf(),
            *final(self) == *final(r),
    {
        self.build_target = Some(String::from_str(target_name));
        proof {
            assert(self@ =~~= (CMakeBuilderView { build_target: Some(target_name@), ..old(self)@ }));
        }
        self
    }

    /// The install directory the build populates.
    pub fn get_install_directory(&self) -> (r: &DirPath)
        ensures
            r@ == self@.install_directory,
    {
        &self.install_directory
    }

    /// The explicitly chosen build target, when any.
    pub fn get_build_target(&self) -> (r: &Option<String>)
        ensures
            r.deep_view() == self@.build_target,
    {
        &self.build_target
    }

}


/// The effective build target: the explicitly chosen one, else everything.
pub open spec fn spec_resolved_target(t: Option<Seq<char>>) -> Seq<char> {
    match t {
        Some(name) => name,
        None => "all"@,
    }
}

/// The arguments of the explicit install step, run in the build directory.
pub open spec fn spec_install_args(install_directory: Seq<Seq<char>>) -> Seq<Seq<char>> {
    seq!["--install"@, "."@, "--prefix"@, spec_render(install_directory)]
}

/// The configure step the shell must run: the full options, with the
/// install prefix re-asserted, and the resolved build target.
pub struct ConfigureRequest {
    pub options: ConfigureOptions,
    pub build_target: String,
}

/// What the shell must do to build and install: run the configure request
/// when one is present, then run the explicit install step, with the given
/// arguments, in the build directory.
pub struct BuildPlan {
    pub configure: Option<ConfigureRequest>,
    pub build_directory: DirPath,
    pub install_args: Vec<String>,
}

impl CMakeBuilder {
    /// Derive the plan for building and installing this configuration.
    ///
    /// A configured builder yields a configure request whose defines
    /// re-assert the install prefix — the external tool is permitted to
    /// overwrite that define during its own build step, so it is pinned here
    /// — and whose build target defaults to everything; its build directory
    /// is `build` inside the scratch directory.  A builder made from a
    /// build directory yields no configure request and installs from that
    /// directory.  The install step is always explicit: the external tool's
    /// own build step is not trusted to install.
    pub fn build_plan(&self) -> (r: BuildPlan)
        requires
            self@.wf(),
        ensures
            r.install_args.deep_view() == spec_install_args(self@.install_directory),
            self@.config matches Some(c) ==> {
                &&& r.configure matches Some(req)
                &&& req.options@ == (ConfigureOptionsView {
                    defines: spec_defines_insert(
                        c.defines,
                        "CMAKE_INSTALL_PREFIX"@,
                        spec_render(self@.install_directory),
                    ),
                    ..c
                })
                &&& req.build_target@ == spec_resolved_target(self@.build_target)
                &&& r.build_directory@ == c.out_directory.push("build"@)
            },
            self@.config is None ==> r.configure is None && Some(r.build_directory@)
                == self@.build_directory,
    {
        let install_text = self.install_directory.render();
        let mut install_args: Vec<String> = Vec::new();
        install_args.push(String::from_str("--install"));
        install_args.push(String::from_str("."));
        install_args.push(String::from_str("--prefix"));
        install_args.push(install_text.clone());
        proof {
            assert(install_args.deep_view() =~= spec_install_args(self@.install_directory));
        }
        match &self.config {
            Some(config) => {
                let mut options = config.clone();
                defines_insert(&mut options.defines, "CMAKE_INSTALL_PREFIX", install_text.as_str());
                let build_target = match &self.build_target {
                    Some(t) => t.clone(),
                    None => String::from_str("all"),
                };
                let build_directory = config.out_directory.join("build");
                proof {
                    let c = self@.config->Some_0;
                    assert(options@ =~~= (ConfigureOptionsView {
                        defines: spec_defines_insert(
                            c.defines,
                            "CMAKE_INSTALL_PREFIX"@,
                            spec_render(self@.install_directory),
                        ),
                        ..c
                    }));
                }
                BuildPlan {
                    configure: Some(ConfigureRequest { options, build_target }),
                    build_directory,
                    install_args,
                }
            },
            None => {
                let build_directory = match &self.build_directory {
                    Some(d) => d.clone(),
                    None => {
                        proof {
                            assert(false);
                        }
                        DirPath::empty()
                    },
                };
                BuildPlan { configure: None, build_directory, install_args }
            },
        }
    }

    /// Consume a builder whose build and install steps the shell has run
    /// successfully, producing the built state: the configuration is spent,
    /// and only the name, build directory, install directory and target
    /// remain.  Building again from this value re-installs; it never re-uses
    /// the spent configuration.
    pub fn finish_build(self, build_directory: DirPath) -> (r: CMakeBuilder)
        ensures
            r@ == (CMakeBuilderView {
                name: self@.name,
                config: None,
                build_directory: Some(build_directory@),
                install_directory: self@.install_directory,
                build_target: self@.build_target,
            }),
            r@.wf(),
    {
        let r = CMakeBuilder {
            name: self.name,
            config: None,
            build_directory: Some(build_directory),
            install_directory: self.install_directory,
            build_target: self.build_target,
        };
        proof {
            assert(r@ =~~= (CMakeBuilderView {
                name: self@.name,
                config: None,
                build_directory: Some(r.build_directory->Some_0@),
                install_directory: self@.install_directory,
                build_target: self@.build_target,
            }));
        }
        r
    }
}

/// The profile of a one-shot repository build: an optimized consumer build
/// uses the release profile, every other one keeps debug information.
pub fn release_profile(release: bool) -> (r: BuildProfile)
    ensures
        release ==> r == BuildProfile::Release,
        !release ==> r == BuildProfile::RelWithDebugInfo,
{
    if release {
        BuildProfile::Release
    } else {
        BuildProfile::RelWithDebugInfo
    }
}

/// The external build-tool invocations, in pipeline order.
#[derive(Clone, Copy, Debug, PartialEq, Eq, Structural)]
pub enum BuildStage {
    Configure,
    Build,
    Install,
}

/// Interpret the observed outcome of one build-tool invocation: `None` when
/// the tool could not be invoked at all, `Some(code)` when it ran and exited
/// with `code`.  Only exit status zero is success; a failure names the stage
/// that failed.
pub fn judge_build_status(stage: BuildStage, status: Option<i32>) -> (r: Result<(), BuildError>)
    ensures
        r is Ok <==> status == Some(0i32),
        status is None ==> r == Err::<(), BuildError>(BuildError::BuildToolMissing),
        status matches Some(c) && c != 0 ==> r == Err::<(), BuildError>(
            if stage is Install {
                BuildError::InstallFailed
            } else {
                BuildError::BuildFailed
            },
        ),
{
    match status {
        None => Err(BuildError::BuildToolMissing),
        Some(0) => Ok(()),
        Some(_) => match stage {
            BuildStage::Install => Err(BuildError::InstallFailed),
            _ => Err(BuildError::BuildFailed),
        },
    }
}

} // verus!
