//! The linker-metadata resolver.
//!
//! Given a library configuration and a snapshot of the filesystem facts, the
//! resolver deduplicates the candidate directories, drops the ones that do
//! not exist, and decides for each link target whether its static or shared
//! form is linked.  The search is target-major with a global static
//! preference: for each target, every library directory is searched for the
//! static form first, and only when no directory holds it is the shared form
//! searched for — so a static hit anywhere wins over a shared hit anywhere.
//! A resolved shared object is copied next to the consumer's binary; system
//! targets bypass resolution entirely and are always linked shared.

use vstd::prelude::*;
use vstd::string::StringExecFns;
use crate::errors::BuildError;
use crate::fsview::{spec_dir_exists, spec_dir_has_file, FsFacts, FsSnapshot};
use crate::local_library::{LocalLibrary, LocalLibraryView};
use crate::path::DirPath;
use crate::platform::{
    get_shared_library_name,
    get_static_library_name,
    spec_library_file_name,
    LinkKind,
    Platform,
};
use crate::text::contains_string;

verus! {

/// Order-preserving deduplication: the first occurrence of each element is
/// kept, later duplicates are dropped.
pub open spec fn spec_dedup<A>(s: Seq<A>) -> Seq<A>
    decreases s.len(),
{
    if s.len() == 0 {
        Seq::empty()
    } else {
        let rest = spec_dedup(s.drop_last());
        if s.drop_last().contains(s.last()) {
            rest
        } else {
            rest.push(s.last())
        }
    }
}

/// Deduplication keeps exactly the elements of the input sequence.
pub proof fn lemma_dedup_contains<A>(s: Seq<A>, x: A)
    ensures
        spec_dedup(s).contains(x) <==> s.contains(x),
    decreases s.len(),
{
    if s.len() == 0 {
    } else {
        lemma_dedup_contains(s.drop_last(), x);
        let rest = spec_dedup(s.drop_last());
        if s.drop_last().contains(s.last()) {
            assert(s.contains(x) ==> spec_dedup(s).contains(x)) by {
                if s.contains(x) {
                    let k = choose|k: int| 0 <= k < s.len() && s[k] == x;
                    if k == s.len() - 1 {
                        assert(s.drop_last().contains(s.last()));
                    } else {
                        assert(s.drop_last()[k] == x);
                        assert(s.drop_last().contains(x));
                    }
                }
            }
            assert(spec_dedup(s).contains(x) ==> s.contains(x)) by {
                if rest.contains(x) {
                    let k = choose|k: int| 0 <= k < s.drop_last().len() && s.drop_last()[k] == x;
                    assert(s[k] == x);
                }
            }
        } else {
            assert(s.contains(x) ==> spec_dedup(s).contains(x)) by {
                if s.contains(x) {
                    let k = choose|k: int| 0 <= k < s.len() && s[k] == x;
                    if k == s.len() - 1 {
                        assert(rest.push(s.last())[rest.len() as int] == x);
                    } else {
                        assert(s.drop_last()[k] == x);
                        assert(s.drop_last().contains(x));
                        let m = choose|m: int| 0 <= m < rest.len() && rest[m] == x;
                        assert(rest.push(s.last())[m] == x);
                    }
                }
            }
            assert(spec_dedup(s).contains(x) ==> s.contains(x)) by {
                if spec_dedup(s).contains(x) {
                    let k = choose|k: int|
                        0 <= k < spec_dedup(s).len() && spec_dedup(s)[k] == x;
                    if k == rest.len() {
                        assert(s.contains(s.last()));
                    } else {
                        assert(rest[k] == x);
                        let m = choose|m: int|
                            0 <= m < s.drop_last().len() && s.drop_last()[m] == x;
                        assert(s[m] == x);
                    }
                }
            }
        }
    }
}

/// Deduplicate a vector of strings, keeping first occurrences in order.
pub fn dedup_strings(v: &Vec<String>) -> (r: Vec<String>)
    ensures
        r.deep_view() == spec_dedup(v.deep_view()),
{
    let mut out: Vec<String> = Vec::new();
    let mut i: usize = 0;
    while i < v.len()
        invariant
            i <= v.len(),
            v.deep_view().len() == v.len(),
            out.deep_view() == spec_dedup(v.deep_view().take(i as int)),
        decreases v.len() - i,
    {
        proof {
            assert(v.deep_view()[i as int] == v@[i as int]@);
            assert(v.deep_view().take(i + 1).drop_last() =~= v.deep_view().take(i as int));
            assert(v.deep_view().take(i + 1).last() == v.deep_view()[i as int]);
            lemma_dedup_contains(v.deep_view().take(i as int), v.deep_view()[i as int]);
        }
        if !contains_string(&out, v[i].as_str()) {
            let elem = v[i].clone();
            let ghost prev = out@;
            let ghost prev_deep = out.deep_view();
            proof {
                assert(prev_deep.len() == prev.len());
            }
            out.push(elem);
            proof {
                assert(out@ == prev.push(out@[prev.len() as int]));
                assert forall|k: int| 0 <= k < out@.len() implies out.deep_view()[k]
                    == prev_deep.push(v.deep_view()[i as int])[k] by {
                    assert(out.deep_view()[k] == out@[k].deep_view());
                    if k < prev.len() {
                        assert(out@[k] == prev[k]);
                        assert(prev[k].deep_view() == prev_deep[k]);
                    }
                }
                assert(out.deep_view() =~= prev_deep.push(v.deep_view()[i as int]));
            }
        }
        i = i + 1;
    }
    proof {
        assert(v.deep_view().take(v.deep_view().len() as int) =~= v.deep_view());
    }
    out
}

/// Whether `v` holds a path whose segments are `p`.
fn contains_path(v: &Vec<DirPath>, p: &DirPath) -> (r: bool)
    ensures
        r == v.deep_view().contains(p@),
{
    let mut i: usize = 0;
    while i < v.len()
        invariant
            i <= v.len(),
            v.deep_view().len() == v.len(),
            forall|k: int| 0 <= k < i ==> v.deep_view()[k] != p@,
        decreases v.len() - i,
    {
        proof {
            assert(v.deep_view()[i as int] == v@[i as int]@);
        }
        if v[i].path_eq(p) {
            assert(v.deep_view().contains(p@));
            return true;
        }
        i = i + 1;
    }
    proof {
        if v.deep_view().contains(p@) {
            let k = choose|k: int| 0 <= k < v.deep_view().len() && v.deep_view()[k] == p@;
            assert(v.deep_view()[k] == p@);
        }
    }
    false
}

/// Deduplicate a vector of paths, keeping first occurrences in order.
pub fn dedup_paths(v: &Vec<DirPath>) -> (r: Vec<DirPath>)
    ensures
        r.deep_view() == spec_dedup(v.deep_view()),
{
    let mut out: Vec<DirPath> = Vec::new();
    let mut i: usize = 0;
    while i < v.len()
        invariant
            i <= v.len(),
            v.deep_view().len() == v.len(),
            out.deep_view() == spec_dedup(v.deep_view().take(i as int)),
        decreases v.len() - i,
    {
        proof {
            assert(v.deep_view()[i as int] == v@[i as int]@);
            assert(v.deep_view().take(i + 1).drop_last() =~= v.deep_view().take(i as int));
            assert(v.deep_view().take(i + 1).last() == v.deep_view()[i as int]);
            lemma_dedup_contains(v.deep_view().take(i as int), v.deep_view()[i as int]);
        }
        if !contains_path(&out, &v[i]) {
            let elem = v[i].clone();
            let ghost prev = out@;
            let ghost prev_deep = out.deep_view();
            proof {
                assert(prev_deep.len() == prev.len());
            }
            out.push(elem);
            proof {
                assert(out@ == prev.push(out@[prev.len() as int]));
                assert forall|k: int| 0 <= k < out@.len() implies out.deep_view()[k]
                    == prev_deep.push(v.deep_view()[i as int])[k] by {
                    assert(out.deep_view()[k] == out@[k].deep_view());
                    if k < prev.len() {
                        assert(out@[k] == prev[k]);
                        assert(prev[k].deep_view() == prev_deep[k]);
                    }
                }
                assert(out.deep_view() =~= prev_deep.push(v.deep_view()[i as int]));
            }
        }
        i = i + 1;
    }
    proof {
        assert(v.deep_view().take(v.deep_view().len() as int) =~= v.deep_view());
    }
    out
}

/// The candidate directories that exist in the snapshot, in order.
pub open spec fn spec_filter_existing(dirs: Seq<Seq<Seq<char>>>, fs: FsFacts) -> Seq<
    Seq<Seq<char>>,
>
    decreases dirs.len(),
{
    if dirs.len() == 0 {
        Seq::empty()
    } else {
        let rest = spec_filter_existing(dirs.drop_last(), fs);
        if spec_dir_exists(fs, dirs.last()) {
            rest.push(dirs.last())
        } else {
            rest
        }
    }
}

/// Every directory the filter keeps exists in the snapshot.
pub proof fn lemma_filter_existing_members(dirs: Seq<Seq<Seq<char>>>, fs: FsFacts)
    ensures
        forall|p: Seq<Seq<char>>|
            #[trigger] spec_filter_existing(dirs, fs).contains(p) ==> spec_dir_exists(fs, p),
    decreases dirs.len(),
{
    if dirs.len() == 0 {
    } else {
        lemma_filter_existing_members(dirs.drop_last(), fs);
        let rest = spec_filter_existing(dirs.drop_last(), fs);
        assert forall|p: Seq<Seq<char>>|
            #[trigger] spec_filter_existing(dirs, fs).contains(p) implies spec_dir_exists(
            fs,
            p,
        ) by {
            let whole = spec_filter_existing(dirs, fs);
            let k = choose|k: int| 0 <= k < whole.len() && whole[k] == p;
            if spec_dir_exists(fs, dirs.last()) {
                if k < rest.len() {
                    assert(rest[k] == p);
                    assert(rest.contains(p));
                }
            } else {
                assert(rest[k] == p);
                assert(rest.contains(p));
            }
        }
    }
}

/// Keep the candidate directories that exist in the snapshot, in order.
pub fn filter_existing(dirs: &Vec<DirPath>, fs: &FsSnapshot) -> (r: Vec<DirPath>)
    ensures
        r.deep_view() == spec_filter_existing(dirs.deep_view(), fs@),
{
    let mut out: Vec<DirPath> = Vec::new();
    let mut i: usize = 0;
    while i < dirs.len()
        invariant
            i <= dirs.len(),
            dirs.deep_view().len() == dirs.len(),
            out.deep_view() == spec_filter_existing(dirs.deep_view().take(i as int), fs@),
        decreases dirs.len() - i,
    {
        proof {
            assert(dirs.deep_view()[i as int] == dirs@[i as int]@);
            assert(dirs.deep_view().take(i + 1).drop_last() =~= dirs.deep_view().take(i as int));
            assert(dirs.deep_view().take(i + 1).last() == dirs.deep_view()[i as int]);
        }
        if fs.dir_exists(&dirs[i]) {
            let elem = dirs[i].clone();
            let ghost prev = out@;
            let ghost prev_deep = out.deep_view();
            proof {
                assert(prev_deep.len() == prev.len());
            }
            out.push(elem);
            proof {
                assert(out@ == prev.push(out@[prev.len() as int]));
                assert forall|k: int| 0 <= k < out@.len() implies out.deep_view()[k]
                    == prev_deep.push(dirs.deep_view()[i as int])[k] by {
                    assert(out.deep_view()[k] == out@[k].deep_view());
                    if k < prev.len() {
                        assert(out@[k] == prev[k]);
                        assert(prev[k].deep_view() == prev_deep[k]);
                    }
                }
                assert(out.deep_view() =~= prev_deep.push(dirs.deep_view()[i as int]));
            }
        }
        i = i + 1;
    }
    proof {
        assert(dirs.deep_view().take(dirs.deep_view().len() as int) =~= dirs.deep_view());
    }
    out
}

/// The first directory, in declared order, holding a file named `name`.
pub open spec fn spec_find_dir(
    dirs: Seq<Seq<Seq<char>>>,
    fs: FsFacts,
    name: Seq<char>,
) -> Option<int>
    decreases dirs.len(),
{
    if dirs.len() == 0 {
        None
    } else if spec_dir_has_file(fs, dirs[0], name) {
        Some(0int)
    } else {
        match spec_find_dir(dirs.drop_first(), fs, name) {
            Some(i) => Some(i + 1),
            None => None,
        }
    }
}

/// What the found index means: the named file is there, no earlier
/// directory holds it, and a missing result means no directory holds it.
pub proof fn lemma_find_dir_props(dirs: Seq<Seq<Seq<char>>>, fs: FsFacts, name: Seq<char>)
    ensures
        match spec_find_dir(dirs, fs, name) {
            Some(i) => 0 <= i < dirs.len() && spec_dir_has_file(fs, dirs[i], name) && forall|
                k: int,
            |
                0 <= k < i ==> !spec_dir_has_file(fs, #[trigger] dirs[k], name),
            None => forall|k: int|
                0 <= k < dirs.len() ==> !spec_dir_has_file(fs, #[trigger] dirs[k], name),
        },
    decreases dirs.len(),
{
    if dirs.len() == 0 {
    } else if spec_dir_has_file(fs, dirs[0], name) {
    } else {
        lemma_find_dir_props(dirs.drop_first(), fs, name);
        let rest = dirs.drop_first();
        match spec_find_dir(rest, fs, name) {
            Some(i) => {
                assert(spec_find_dir(dirs, fs, name) == Some(i + 1));
                assert(dirs[i + 1] == rest[i]);
                assert forall|k: int| 0 <= k < i + 1 implies !spec_dir_has_file(
                    fs,
                    #[trigger] dirs[k],
                    name,
                ) by {
                    if k > 0 {
                        assert(rest[k - 1] == dirs[k]);
                        assert(!spec_dir_has_file(fs, rest[k - 1], name));
                    }
                }
            },
            None => {
                assert forall|k: int| 0 <= k < dirs.len() implies !spec_dir_has_file(
                    fs,
                    #[trigger] dirs[k],
                    name,
                ) by {
                    if k > 0 {
                        assert(rest[k - 1] == dirs[k]);
                        assert(!spec_dir_has_file(fs, rest[k - 1], name));
                    }
                }
            },
        }
    }
}

/// Find the first directory, in declared order, holding a file named
/// `name`.
fn find_dir_with_file(dirs: &Vec<DirPath>, fs: &FsSnapshot, name: &str) -> (r: Option<usize>)
    ensures
        match r {
            Some(i) => spec_find_dir(dirs.deep_view(), fs@, name@) == Some(i as int),
            None => spec_find_dir(dirs.deep_view(), fs@, name@) is None,
        },
{
    let mut i: usize = 0;
    while i < dirs.len()
        invariant
            i <= dirs.len(),
            dirs.deep_view().len() == dirs.len(),
            forall|k: int|
                0 <= k < i ==> !spec_dir_has_file(fs@, #[trigger] dirs.deep_view()[k], name@),
        decreases dirs.len() - i,
    {
        proof {
            lemma_find_dir_props(dirs.deep_view(), fs@, name@);
            assert(dirs.deep_view()[i as int] == dirs@[i as int]@);
        }
        if fs.dir_has_file(&dirs[i], name) {
            proof {
                match spec_find_dir(dirs.deep_view(), fs@, name@) {
                    Some(j) => {
                        if j < i {
                            assert(!spec_dir_has_file(fs@, dirs.deep_view()[j], name@));
                        }
                        if j > i {
                            assert(!spec_dir_has_file(fs@, dirs.deep_view()[i as int], name@));
                        }
                    },
                    None => {
                        assert(!spec_dir_has_file(fs@, dirs.deep_view()[i as int], name@));
                    },
                }
            }
            return Some(i);
        }
        i = i + 1;
    }
    proof {
        lemma_find_dir_props(dirs.deep_view(), fs@, name@);
        match spec_find_dir(dirs.deep_view(), fs@, name@) {
            Some(j) => {
                assert(!spec_dir_has_file(fs@, dirs.deep_view()[j], name@));
            },
            None => {},
        }
    }
    None
}

/// How one link target resolved.
#[derive(Debug, PartialEq, Eq)]
pub enum ResolvedArtifact {
    /// A static library at this path is linked.
    StaticArtifact(DirPath),
    /// A shared library at this path is linked, and the file is copied next
    /// to the consumer's binary.
    SharedArtifact(DirPath),
    /// No directory holds either form of the target.
    Unresolved,
}

/// The mathematical value of a [`ResolvedArtifact`].
pub enum ArtifactView {
    StaticFile(Seq<Seq<char>>),
    SharedFile(Seq<Seq<char>>),
    NoFile,
}

impl View for ResolvedArtifact {
    type V = ArtifactView;

    open spec fn view(&self) -> ArtifactView {
        match self {
            ResolvedArtifact::StaticArtifact(p) => ArtifactView::StaticFile(p@),
            ResolvedArtifact::SharedArtifact(p) => ArtifactView::SharedFile(p@),
            ResolvedArtifact::Unresolved => ArtifactView::NoFile,
        }
    }
}

/// One link target and how it resolved.
#[derive(Debug, PartialEq, Eq)]
pub struct TargetResolution {
    pub target: String,
    pub artifact: ResolvedArtifact,
}

impl View for TargetResolution {
    type V = (Seq<char>, ArtifactView);

    open spec fn view(&self) -> (Seq<char>, ArtifactView) {
        (self.target@, self.artifact@)
    }
}

impl DeepView for TargetResolution {
    type V = (Seq<char>, ArtifactView);

    open spec fn deep_view(&self) -> (Seq<char>, ArtifactView) {
        self.view()
    }
}

/// How a target resolves against the existing library directories: the
/// first directory holding its static form wins; only when none does, the
/// first directory holding its shared form; else the target is unresolved.
pub open spec fn spec_resolve_target(
    target: Seq<char>,
    dirs: Seq<Seq<Seq<char>>>,
    fs: FsFacts,
    platform: Platform,
) -> ArtifactView {
    let static_name = spec_library_file_name(platform, target, LinkKind::Static);
    let shared_name = spec_library_file_name(platform, target, LinkKind::Shared);
    match spec_find_dir(dirs, fs, static_name) {
        Some(i) => ArtifactView::StaticFile(dirs[i].push(static_name)),
        None => match spec_find_dir(dirs, fs, shared_name) {
            Some(i) => ArtifactView::SharedFile(dirs[i].push(shared_name)),
            None => ArtifactView::NoFile,
        },
    }
}

/// Resolve one link target against the existing library directories.
pub fn resolve_target(
    target: &str,
    dirs: &Vec<DirPath>,
    fs: &FsSnapshot,
    platform: Platform,
) -> (r: TargetResolution)
    ensures
        r@ == (target@, spec_resolve_target(target@, dirs.deep_view(), fs@, platform)),
{
    let static_name = get_static_library_name(platform, target);
    proof {
        lemma_find_dir_props(dirs.deep_view(), fs@, static_name@);
        assert(dirs.deep_view().len() == dirs@.len());
    }
    match find_dir_with_file(dirs, fs, static_name.as_str()) {
        Some(i) => {
            proof {
                assert(dirs.deep_view()[i as int] == dirs@[i as int]@);
            }
            TargetResolution {
                target: String::from_str(target),
                artifact: ResolvedArtifact::StaticArtifact(dirs[i].join(static_name.as_str())),
            }
        },
        None => {
            let shared_name = get_shared_library_name(platform, target);
            proof {
                lemma_find_dir_props(dirs.deep_view(), fs@, shared_name@);
            }
            match find_dir_with_file(dirs, fs, shared_name.as_str()) {
                Some(i) => {
                    proof {
                        assert(dirs.deep_view()[i as int] == dirs@[i as int]@);
                    }
                    TargetResolution {
                        target: String::from_str(target),
                        artifact: ResolvedArtifact::SharedArtifact(
                            dirs[i].join(shared_name.as_str()),
                        ),
                    }
                },
                None => TargetResolution {
                    target: String::from_str(target),
                    artifact: ResolvedArtifact::Unresolved,
                },
            }
        },
    }
}


/// Each deduplicated target paired with how it resolved, in order.
pub open spec fn spec_resolutions(
    targets: Seq<Seq<char>>,
    dirs: Seq<Seq<Seq<char>>>,
    fs: FsFacts,
    platform: Platform,
) -> Seq<(Seq<char>, ArtifactView)>
    decreases targets.len(),
{
    if targets.len() == 0 {
        Seq::empty()
    } else {
        spec_resolutions(targets.drop_last(), dirs, fs, platform).push(
            (targets.last(), spec_resolve_target(targets.last(), dirs, fs, platform)),
        )
    }
}

/// The targets that resolved to a static artifact, in order.
pub open spec fn spec_static_links(
    targets: Seq<Seq<char>>,
    dirs: Seq<Seq<Seq<char>>>,
    fs: FsFacts,
    platform: Platform,
) -> Seq<Seq<char>>
    decreases targets.len(),
{
    if targets.len() == 0 {
        Seq::empty()
    } else {
        let rest = spec_static_links(targets.drop_last(), dirs, fs, platform);
        if spec_resolve_target(targets.last(), dirs, fs, platform) is StaticFile {
            rest.push(targets.last())
        } else {
            rest
        }
    }
}

/// The targets that resolved to a shared artifact, in order.
pub open spec fn spec_shared_links(
    targets: Seq<Seq<char>>,
    dirs: Seq<Seq<Seq<char>>>,
    fs: FsFacts,
    platform: Platform,
) -> Seq<Seq<char>>
    decreases targets.len(),
{
    if targets.len() == 0 {
        Seq::empty()
    } else {
        let rest = spec_shared_links(targets.drop_last(), dirs, fs, platform);
        if spec_resolve_target(targets.last(), dirs, fs, platform) is SharedFile {
            rest.push(targets.last())
        } else {
            rest
        }
    }
}

/// The shared artifacts to copy next to the consumer's binary, in order.
pub open spec fn spec_shared_copies(
    targets: Seq<Seq<char>>,
    dirs: Seq<Seq<Seq<char>>>,
    fs: FsFacts,
    platform: Platform,
) -> Seq<Seq<Seq<char>>>
    decreases targets.len(),
{
    if targets.len() == 0 {
        Seq::empty()
    } else {
        let rest = spec_shared_copies(targets.drop_last(), dirs, fs, platform);
        match spec_resolve_target(targets.last(), dirs, fs, platform) {
            ArtifactView::SharedFile(p) => rest.push(p),
            _ => rest,
        }
    }
}

/// The resolver's output: what to search, what resolved how, what to link
/// and what to copy.
#[derive(Debug, PartialEq, Eq)]
pub struct LinkPlan {
    /// The existing include directories, deduplicated, in order.
    pub include_directories: Vec<DirPath>,
    /// The existing library directories, deduplicated, in order.
    pub library_search_directories: Vec<DirPath>,
    /// Each deduplicated link target and how it resolved.
    pub resolutions: Vec<TargetResolution>,
    /// The targets linked statically, in target order.
    pub static_links: Vec<String>,
    /// The targets linked shared, in target order.
    pub shared_links: Vec<String>,
    /// The shared objects to copy next to the consumer's binary.
    pub shared_copies: Vec<DirPath>,
    /// The system targets, always linked shared, never searched or copied.
    pub system_links: Vec<String>,
}

/// The mathematical value of a [`LinkPlan`].
#[verifier::ext_equal]
pub struct LinkPlanView {
    pub include_directories: Seq<Seq<Seq<char>>>,
    pub library_search_directories: Seq<Seq<Seq<char>>>,
    pub resolutions: Seq<(Seq<char>, ArtifactView)>,
    pub static_links: Seq<Seq<char>>,
    pub shared_links: Seq<Seq<char>>,
    pub shared_copies: Seq<Seq<Seq<char>>>,
    pub system_links: Seq<Seq<char>>,
}

impl View for LinkPlan {
    type V = LinkPlanView;

    open spec fn view(&self) -> LinkPlanView {
        LinkPlanView {
            include_directories: self.include_directories.deep_view(),
            library_search_directories: self.library_search_directories.deep_view(),
            resolutions: self.resolutions.deep_view(),
            static_links: self.static_links.deep_view(),
            shared_links: self.shared_links.deep_view(),
            shared_copies: self.shared_copies.deep_view(),
            system_links: self.system_links.deep_view(),
        }
    }
}

/// The plan a library configuration resolves to under a snapshot.
pub open spec fn spec_link_plan(
    lib: LocalLibraryView,
    platform: Platform,
    fs: FsFacts,
) -> LinkPlanView {
    let libd = spec_filter_existing(spec_dedup(lib.library_directories), fs);
    let tgts = spec_dedup(lib.link_targets);
    LinkPlanView {
        include_directories: spec_filter_existing(spec_dedup(lib.include_directories), fs),
        library_search_directories: libd,
        resolutions: spec_resolutions(tgts, libd, fs, platform),
        static_links: spec_static_links(tgts, libd, fs, platform),
        shared_links: spec_shared_links(tgts, libd, fs, platform),
        shared_copies: spec_shared_copies(tgts, libd, fs, platform),
        system_links: spec_dedup(lib.system_link_targets),
    }
}

/// Whether resolution fails outright: link targets were declared, yet not
/// one resolved to a static or shared artifact.
pub open spec fn spec_resolution_failed(
    lib: LocalLibraryView,
    platform: Platform,
    fs: FsFacts,
) -> bool {
    let libd = spec_filter_existing(spec_dedup(lib.library_directories), fs);
    let tgts = spec_dedup(lib.link_targets);
    lib.link_targets.len() > 0 && spec_static_links(tgts, libd, fs, platform).len() == 0
        && spec_shared_links(tgts, libd, fs, platform).len() == 0
}

/// Resolve a library configuration against a snapshot of the filesystem.
///
/// The candidate directory lists are deduplicated and filtered to existing
/// directories; each deduplicated link target is then resolved, preferring
/// the static form globally over the shared form.  Declaring at least one
/// link target and resolving none is a hard failure — a library with
/// nothing to link against is a configuration error, not an empty result.
pub fn resolve(library: &LocalLibrary, platform: Platform, fs: &FsSnapshot) -> (r: Result<
    LinkPlan,
    BuildError,
>)
    ensures
        spec_resolution_failed(library@, platform, fs@) <==> r == Err::<LinkPlan, BuildError>(
            BuildError::NoLinkableTargets,
        ),
        !spec_resolution_failed(library@, platform, fs@) ==> (r matches Ok(plan) && plan@
            == spec_link_plan(library@, platform, fs@)),
{
    let deduped_includes = dedup_paths(&library.include_directories);
    let include_directories = filter_existing(&deduped_includes, fs);
    let deduped_library_dirs = dedup_paths(&library.library_directories);
    let library_search_directories = filter_existing(&deduped_library_dirs, fs);
    let targets = dedup_strings(&library.link_targets);

    let ghost tgts = targets.deep_view();
    let ghost libd = library_search_directories.deep_view();

    let mut resolutions: Vec<TargetResolution> = Vec::new();
    let mut static_links: Vec<String> = Vec::new();
    let mut shared_links: Vec<String> = Vec::new();
    let mut shared_copies: Vec<DirPath> = Vec::new();

    let mut i: usize = 0;
    while i < targets.len()
        invariant
            i <= targets.len(),
            tgts == targets.deep_view(),
            libd == library_search_directories.deep_view(),
            tgts.len() == targets.len(),
            resolutions.deep_view() == spec_resolutions(tgts.take(i as int), libd, fs@, platform),
            static_links.deep_view() == spec_static_links(
                tgts.take(i as int),
                libd,
                fs@,
                platform,
            ),
            shared_links.deep_view() == spec_shared_links(
                tgts.take(i as int),
                libd,
                fs@,
                platform,
            ),
            shared_copies.deep_view() == spec_shared_copies(
                tgts.take(i as int),
                libd,
                fs@,
                platform,
            ),
        decreases targets.len() - i,
    {
        proof {
            assert(tgts[i as int] == targets@[i as int]@);
            assert(tgts.take(i + 1).drop_last() =~= tgts.take(i as int));
            assert(tgts.take(i + 1).last() == tgts[i as int]);
        }
        let resolution = resolve_target(targets[i].as_str(), &library_search_directories, fs, platform);
        let ghost art = spec_resolve_target(tgts[i as int], libd, fs@, platform);
        match &resolution.artifact {
            ResolvedArtifact::StaticArtifact(_) => {
                let elem = targets[i].clone();
                let ghost prev = static_links@;
                let ghost prev_deep = static_links.deep_view();
                proof {
                    assert(prev_deep.len() == prev.len());
                }
                static_links.push(elem);
                proof {
                    assert(static_links@ == prev.push(static_links@[prev.len() as int]));
                    assert forall|k: int| 0 <= k < static_links@.len() implies static_links.deep_view()[k]
                        == prev_deep.push(tgts[i as int])[k] by {
                        assert(static_links.deep_view()[k] == static_links@[k].deep_view());
                        if k < prev.len() {
                            assert(static_links@[k] == prev[k]);
                            assert(prev[k].deep_view() == prev_deep[k]);
                        }
                    }
                    assert(static_links.deep_view() =~= prev_deep.push(tgts[i as int]));
                }
            },
            ResolvedArtifact::SharedArtifact(artifact_path) => {
                let elem = targets[i].clone();
                let ghost prev = shared_links@;
                let ghost prev_deep = shared_links.deep_view();
                proof {
                    assert(prev_deep.len() == prev.len());
                }
                shared_links.push(elem);
                proof {
                    assert(shared_links@ == prev.push(shared_links@[prev.len() as int]));
                    assert forall|k: int| 0 <= k < shared_links@.len() implies shared_links.deep_view()[k]
                        == prev_deep.push(tgts[i as int])[k] by {
                        assert(shared_links.deep_view()[k] == shared_links@[k].deep_view());
                        if k < prev.len() {
                            assert(shared_links@[k] == prev[k]);
                            assert(prev[k].deep_view() == prev_deep[k]);
                        }
                    }
                    assert(shared_links.deep_view() =~= prev_deep.push(tgts[i as int]));
                }
                let copy = artifact_path.clone();
                let ghost cprev = shared_copies@;
                let ghost cprev_deep = shared_copies.deep_view();
                proof {
                    assert(cprev_deep.len() == cprev.len());
                }
                shared_copies.push(copy);
                proof {
                    let ghost p = art->SharedFile_0;
                    assert(shared_copies@ == cprev.push(shared_copies@[cprev.len() as int]));
                    assert forall|k: int| 0 <= k < shared_copies@.len() implies shared_copies.deep_view()[k]
                        == cprev_deep.push(p)[k] by {
                        assert(shared_copies.deep_view()[k] == shared_copies@[k].deep_view());
                        if k < cprev.len() {
                            assert(shared_copies@[k] == cprev[k]);
                            assert(cprev[k].deep_view() == cprev_deep[k]);
                        }
                    }
                    assert(shared_copies.deep_view() =~= cprev_deep.push(p));
                }
            },
            ResolvedArtifact::Unresolved => {},
        }
        let ghost rprev = resolutions@;
        let ghost rprev_deep = resolutions.deep_view();
        proof {
            assert(rprev_deep.len() == rprev.len());
        }
        resolutions.push(resolution);
        proof {
            assert(resolutions@ == rprev.push(resolutions@[rprev.len() as int]));
            assert forall|k: int| 0 <= k < resolutions@.len() implies resolutions.deep_view()[k]
                == rprev_deep.push((tgts[i as int], art))[k] by {
                assert(resolutions.deep_view()[k] == resolutions@[k].deep_view());
                if k < rprev.len() {
                    assert(resolutions@[k] == rprev[k]);
                    assert(rprev[k].deep_view() == rprev_deep[k]);
                }
            }
            assert(resolutions.deep_view() =~= rprev_deep.push((tgts[i as int], art)));
        }
        i = i + 1;
    }
    proof {
        assert(tgts.take(tgts.len() as int) =~= tgts);
    }

    if library.link_targets.len() > 0 && static_links.len() == 0 && shared_links.len() == 0 {
        return Err(BuildError::NoLinkableTargets);
    }

    let system_links = dedup_strings(&library.system_link_targets);
    let plan = LinkPlan {
        include_directories,
        library_search_directories,
        resolutions,
        static_links,
        shared_links,
        shared_copies,
        system_links,
    };
    proof {
        assert(plan@ =~~= spec_link_plan(library@, platform, fs@));
    }
    Ok(plan)
}

/// Static is preferred over shared, globally: when any library directory
/// holds the static form of a target, the target resolves static — never
/// shared — even when other directories hold its shared form.
pub proof fn lemma_static_preferred(
    target: Seq<char>,
    dirs: Seq<Seq<Seq<char>>>,
    fs: FsFacts,
    platform: Platform,
    d: Seq<Seq<char>>,
)
    requires
        dirs.contains(d),
        spec_dir_has_file(fs, d, spec_library_file_name(platform, target, LinkKind::Static)),
    ensures
        spec_resolve_target(target, dirs, fs, platform) is StaticFile,
{
    let static_name = spec_library_file_name(platform, target, LinkKind::Static);
    lemma_find_dir_props(dirs, fs, static_name);
    match spec_find_dir(dirs, fs, static_name) {
        Some(i) => {},
        None => {
            let k = choose|k: int| 0 <= k < dirs.len() && dirs[k] == d;
            assert(!spec_dir_has_file(fs, dirs[k], static_name));
        },
    }
}

/// System targets bypass resolution: whatever the snapshot holds — even
/// when no matching file exists anywhere on disk — every declared system
/// target is linked shared, never unresolved, and the system links do not
/// depend on the snapshot at all.
pub proof fn lemma_system_targets_bypass_resolution(
    lib: LocalLibraryView,
    platform: Platform,
    fs1: FsFacts,
    fs2: FsFacts,
)
    ensures
        spec_link_plan(lib, platform, fs1).system_links == spec_link_plan(
            lib,
            platform,
            fs2,
        ).system_links,
        forall|t: Seq<char>|
            lib.system_link_targets.contains(t) <==> #[trigger] spec_link_plan(
                lib,
                platform,
                fs1,
            ).system_links.contains(t),
{
    assert forall|t: Seq<char>|
        lib.system_link_targets.contains(t) <==> #[trigger] spec_link_plan(
            lib,
            platform,
            fs1,
        ).system_links.contains(t) by {
        lemma_dedup_contains(lib.system_link_targets, t);
    }
}

/// Directory-existence filtering: a candidate include directory that does
/// not exist in the snapshot never appears among the plan's include
/// directories, and the same holds of the library search directories.
pub proof fn lemma_candidate_directories_exist(
    lib: LocalLibraryView,
    platform: Platform,
    fs: FsFacts,
)
    ensures
        forall|p: Seq<Seq<char>>|
            #[trigger] spec_link_plan(lib, platform, fs).include_directories.contains(p)
                ==> spec_dir_exists(fs, p),
        forall|p: Seq<Seq<char>>|
            #[trigger] spec_link_plan(lib, platform, fs).library_search_directories.contains(p)
                ==> spec_dir_exists(fs, p),
{
    lemma_filter_existing_members(spec_dedup(lib.include_directories), fs);
    lemma_filter_existing_members(spec_dedup(lib.library_directories), fs);
}


/// Confirm that a resolved shared object is still present at copy time: the
/// file was found by name during resolution, but the copy happens later, and
/// a file that vanished in between is fatal.
pub fn confirm_shared_object(still_present: bool) -> (r: Result<(), BuildError>)
    ensures
        r is Ok <==> still_present,
        !still_present ==> r == Err::<(), BuildError>(BuildError::MissingSharedObject),
{
    if still_present {
        Ok(())
    } else {
        Err(BuildError::MissingSharedObject)
    }
}

} // verus!
