//! The linker metadata handed to the external compiler front-end.
//!
//! A resolved link plan is flattened into an ordered list of directives —
//! include paths first, then library search paths, then static links, then
//! shared links, then system shared links — and each printable directive
//! renders to the exact declaration line the consuming build understands.

use vstd::prelude::*;
use vstd::string::StringExecFns;
use crate::linker::{LinkPlan, LinkPlanView};
use crate::path::{spec_render, DirPath};
use crate::platform::Platform;

verus! {

/// One piece of linker metadata for the consuming compilation.
#[derive(Debug, PartialEq, Eq)]
pub enum Directive {
    /// A directory whose headers the consuming compilation includes.
    IncludeDir(DirPath),
    /// A directory searched for libraries at link time.
    SearchDir(DirPath),
    /// A library linked statically, by base name.
    StaticLink(String),
    /// A library linked as a shared object, by base name.
    SharedLink(String),
}

/// The mathematical value of a [`Directive`].
pub enum DirectiveView {
    IncludeDir(Seq<Seq<char>>),
    SearchDir(Seq<Seq<char>>),
    StaticLink(Seq<char>),
    SharedLink(Seq<char>),
}

impl View for Directive {
    type V = DirectiveView;

    open spec fn view(&self) -> DirectiveView {
        match self {
            Directive::IncludeDir(p) => DirectiveView::IncludeDir(p@),
            Directive::SearchDir(p) => DirectiveView::SearchDir(p@),
            Directive::StaticLink(n) => DirectiveView::StaticLink(n@),
            Directive::SharedLink(n) => DirectiveView::SharedLink(n@),
        }
    }
}

impl DeepView for Directive {
    type V = DirectiveView;

    open spec fn deep_view(&self) -> DirectiveView {
        self.view()
    }
}

/// Include-path directives, one per directory, in order.
pub open spec fn spec_include_directives(ps: Seq<Seq<Seq<char>>>) -> Seq<DirectiveView>
    decreases ps.len(),
{
    if ps.len() == 0 {
        Seq::empty()
    } else {
        spec_include_directives(ps.drop_last()).push(DirectiveView::IncludeDir(ps.last()))
    }
}

/// Search-path directives, one per directory, in order.
pub open spec fn spec_search_directives(ps: Seq<Seq<Seq<char>>>) -> Seq<DirectiveView>
    decreases ps.len(),
{
    if ps.len() == 0 {
        Seq::empty()
    } else {
        spec_search_directives(ps.drop_last()).push(DirectiveView::SearchDir(ps.last()))
    }
}

/// Static-link directives, one per target, in order.
pub open spec fn spec_static_link_directives(ns: Seq<Seq<char>>) -> Seq<DirectiveView>
    decreases ns.len(),
{
    if ns.len() == 0 {
        Seq::empty()
    } else {
        spec_static_link_directives(ns.drop_last()).push(DirectiveView::StaticLink(ns.last()))
    }
}

/// Shared-link directives, one per target, in order.
pub open spec fn spec_shared_link_directives(ns: Seq<Seq<char>>) -> Seq<DirectiveView>
    decreases ns.len(),
{
    if ns.len() == 0 {
        Seq::empty()
    } else {
        spec_shared_link_directives(ns.drop_last()).push(DirectiveView::SharedLink(ns.last()))
    }
}

/// The full ordered metadata of a plan: includes, then search paths, then
/// static links, then shared links, then system shared links.
pub open spec fn spec_directives(plan: LinkPlanView) -> Seq<DirectiveView> {
    spec_include_directives(plan.include_directories) + spec_search_directives(
        plan.library_search_directories,
    ) + spec_static_link_directives(plan.static_links) + spec_shared_link_directives(
        plan.shared_links,
    ) + spec_shared_link_directives(plan.system_links)
}

/// Include directives for each directory, in order.
fn include_directives(ps: &Vec<DirPath>) -> (r: Vec<Directive>)
    ensures
        r.deep_view() == spec_include_directives(ps.deep_view()),
{
    let mut out: Vec<Directive> = Vec::new();
    let mut i: usize = 0;
    while i < ps.len()
        invariant
            i <= ps.len(),
            ps.deep_view().len() == ps.len(),
            out.deep_view() == spec_include_directives(ps.deep_view().take(i as int)),
        decreases ps.len() - i,
    {
        proof {
            assert(ps.deep_view()[i as int] == ps@[i as int]@);
            assert(ps.deep_view().take(i + 1).drop_last() =~= ps.deep_view().take(i as int));
            assert(ps.deep_view().take(i + 1).last() == ps.deep_view()[i as int]);
        }
        let elem = Directive::IncludeDir(ps[i].clone());
        let ghost ev = elem@;
        let ghost prev = out@;
        let ghost prev_deep = out.deep_view();
        proof {
            assert(prev_deep.len() == prev.len());
        }
        out.push(elem);
        proof {
            assert(out@ == prev.push(out@[prev.len() as int]));
            assert forall|k: int| 0 <= k < out@.len() implies out.deep_view()[k] == prev_deep.push(
                ev,
            )[k] by {
                assert(out.deep_view()[k] == out@[k].deep_view());
                if k < prev.len() {
                    assert(out@[k] == prev[k]);
                    assert(prev[k].deep_view() == prev_deep[k]);
                }
            }
            assert(out.deep_view() =~= prev_deep.push(ev));
        }
        i = i + 1;
    }
    proof {
        assert(ps.deep_view().take(ps.deep_view().len() as int) =~= ps.deep_view());
    }
    out
}

/// Search-path directives for each directory, in order.
fn search_directives(ps: &Vec<DirPath>) -> (r: Vec<Directive>)
    ensures
        r.deep_view() == spec_search_directives(ps.deep_view()),
{
    let mut out: Vec<Directive> = Vec::new();
    let mut i: usize = 0;
    while i < ps.len()
        invariant
            i <= ps.len(),
            ps.deep_view().len() == ps.len(),
            out.deep_view() == spec_search_directives(ps.deep_view().take(i as int)),
        decreases ps.len() - i,
    {
        proof {
            assert(ps.deep_view()[i as int] == ps@[i as int]@);
            assert(ps.deep_view().take(i + 1).drop_last() =~= ps.deep_view().take(i as int));
            assert(ps.deep_view().take(i + 1).last() == ps.deep_view()[i as int]);
        }
        let elem = Directive::SearchDir(ps[i].clone());
        let ghost ev = elem@;
        let ghost prev = out@;
        let ghost prev_deep = out.deep_view();
        proof {
            assert(prev_deep.len() == prev.len());
        }
        out.push(elem);
        proof {
            assert(out@ == prev.push(out@[prev.len() as int]));
            assert forall|k: int| 0 <= k < out@.len() implies out.deep_view()[k] == prev_deep.push(
                ev,
            )[k] by {
                assert(out.deep_view()[k] == out@[k].deep_view());
                if k < prev.len() {
                    assert(out@[k] == prev[k]);
                    assert(prev[k].deep_view() == prev_deep[k]);
                }
            }
            assert(out.deep_view() =~= prev_deep.push(ev));
        }
        i = i + 1;
    }
    proof {
        assert(ps.deep_view().take(ps.deep_view().len() as int) =~= ps.deep_view());
    }
    out
}

/// Link directives for each base name, in order, static or shared.
fn link_directives(ns: &Vec<String>, shared: bool) -> (r: Vec<Directive>)
    ensures
        shared ==> r.deep_view() == spec_shared_link_directives(ns.deep_view()),
        !shared ==> r.deep_view() == spec_static_link_directives(ns.deep_view()),
{
    let mut out: Vec<Directive> = Vec::new();
    let mut i: usize = 0;
    while i < ns.len()
        invariant
            i <= ns.len(),
            ns.deep_view().len() == ns.len(),
            shared ==> out.deep_view() == spec_shared_link_directives(
                ns.deep_view().take(i as int),
            ),
            !shared ==> out.deep_view() == spec_static_link_directives(
                ns.deep_view().take(i as int),
            ),
        decreases ns.len() - i,
    {
        proof {
            assert(ns.deep_view()[i as int] == ns@[i as int]@);
            assert(ns.deep_view().take(i + 1).drop_last() =~= ns.deep_view().take(i as int));
            assert(ns.deep_view().take(i + 1).last() == ns.deep_view()[i as int]);
        }
        let elem = if shared {
            Directive::SharedLink(ns[i].clone())
        } else {
            Directive::StaticLink(ns[i].clone())
        };
        let ghost ev = elem@;
        let ghost prev = out@;
        let ghost prev_deep = out.deep_view();
        proof {
            assert(prev_deep.len() == prev.len());
        }
        out.push(elem);
        proof {
            assert(out@ == prev.push(out@[prev.len() as int]));
            assert forall|k: int| 0 <= k < out@.len() implies out.deep_view()[k] == prev_deep.push(
                ev,
            )[k] by {
                assert(out.deep_view()[k] == out@[k].deep_view());
                if k < prev.len() {
                    assert(out@[k] == prev[k]);
                    assert(prev[k].deep_view() == prev_deep[k]);
                }
            }
            assert(out.deep_view() =~= prev_deep.push(ev));
        }
        i = i + 1;
    }
    proof {
        assert(ns.deep_view().take(ns.deep_view().len() as int) =~= ns.deep_view());
    }
    out
}

/// Append `tail` to `out`, at the level of directive values.
fn append_directives(out: &mut Vec<Directive>, tail: Vec<Directive>)
    ensures
        final(out).deep_view() == old(out).deep_view() + tail.deep_view(),
{
    let ghost prev = out@;
    let ghost prev_deep = out.deep_view();
    let ghost tail_view = tail@;
    let ghost tail_deep = tail.deep_view();
    proof {
        assert(prev_deep.len() == prev.len());
        assert(tail_deep.len() == tail_view.len());
    }
    let mut tail = tail;
    out.append(&mut tail);
    proof {
        assert(out@ == prev + tail_view);
        assert forall|k: int| 0 <= k < out@.len() implies out.deep_view()[k] == (prev_deep
            + tail_deep)[k] by {
            assert(out.deep_view()[k] == out@[k].deep_view());
            if k < prev.len() {
                assert(out@[k] == prev[k]);
                assert(prev[k].deep_view() == prev_deep[k]);
            } else {
                assert(out@[k] == tail_view[k - prev.len()]);
                assert(tail_view[k - prev.len()].deep_view() == tail_deep[k - prev.len()]);
            }
        }
        assert(out.deep_view() =~= prev_deep + tail_deep);
    }
}

/// Flatten a plan into its ordered metadata: includes, then search paths,
/// then static links, then shared links, then system shared links.
pub fn emit_directives(plan: &LinkPlan) -> (r: Vec<Directive>)
    ensures
        r.deep_view() == spec_directives(plan@),
{
    let mut out = include_directives(&plan.include_directories);
    append_directives(&mut out, search_directives(&plan.library_search_directories));
    append_directives(&mut out, link_directives(&plan.static_links, false));
    append_directives(&mut out, link_directives(&plan.shared_links, true));
    append_directives(&mut out, link_directives(&plan.system_links, true));
    out
}

/// The declaration line adding a native library search path.
pub fn library_search_path_directive(path: &DirPath) -> (r: String)
    ensures
        r@ == "cargo:rustc-link-search=native="@ + spec_render(path@),
{
    let rendered = path.render();
    String::from_str("cargo:rustc-link-search=native=").concat(rendered.as_str())
}

/// The declaration line linking a library statically.
pub fn link_static_library_directive(library_name: &str) -> (r: String)
    ensures
        r@ == "cargo:rustc-link-lib=static="@ + library_name@,
{
    String::from_str("cargo:rustc-link-lib=static=").concat(library_name)
}

/// The declaration line linking a library as a shared object.
pub fn link_shared_library_directive(library_name: &str) -> (r: String)
    ensures
        r@ == "cargo:rustc-link-lib=dylib="@ + library_name@,
{
    String::from_str("cargo:rustc-link-lib=dylib=").concat(library_name)
}

/// The declaration line printing a build warning.
pub fn warning_directive(message: &str) -> (r: String)
    ensures
        r@ == "cargo:warning="@ + message@,
{
    String::from_str("cargo:warning=").concat(message)
}

/// The link-argument line that makes the runtime loader search the binary's
/// own directory for shared objects, where the platform needs one: Linux
/// and macOS do, Windows does not.
pub fn use_relative_r_path(platform: Platform) -> (r: Option<&'static str>)
    ensures
        match platform {
            Platform::Linux => r matches Some(s) && s@ == "cargo:rustc-link-arg=-Wl,-rpath,$ORIGIN"@,
            Platform::MacOS => r matches Some(s) && s@
                == "cargo:rustc-link-arg=-Wl,-rpath,@loader_path"@,
            Platform::Windows => r is None,
        },
{
    match platform {
        Platform::Linux => Some("cargo:rustc-link-arg=-Wl,-rpath,$ORIGIN"),
        Platform::MacOS => Some("cargo:rustc-link-arg=-Wl,-rpath,@loader_path"),
        Platform::Windows => None,
    }
}

/// The search-path declaration lines for an install directory's `lib` and
/// `lib64` subdirectories.
pub fn add_install_dir(path: &DirPath) -> (r: Vec<String>)
    ensures
        r.deep_view() == seq![
            "cargo:rustc-link-search=native="@ + spec_render(path@.push("lib"@)),
            "cargo:rustc-link-search=native="@ + spec_render(path@.push("lib64"@)),
        ],
{
    let mut out: Vec<String> = Vec::new();
    out.push(library_search_path_directive(&path.join("lib")));
    out.push(library_search_path_directive(&path.join("lib64")));
    proof {
        assert(out.deep_view() =~= seq![
            "cargo:rustc-link-search=native="@ + spec_render(path@.push("lib"@)),
            "cargo:rustc-link-search=native="@ + spec_render(path@.push("lib64"@)),
        ]);
    }
    out
}

/// The declaration line linking a library statically.
pub fn link_static_lib(library_name: &str) -> (r: String)
    ensures
        r@ == "cargo:rustc-link-lib=static="@ + library_name@,
{
    link_static_library_directive(library_name)
}

} // verus!
