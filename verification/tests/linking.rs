use cmake_bind_builder::commands::{
    add_install_dir, emit_directives, library_search_path_directive, link_shared_library_directive,
    link_static_lib, link_static_library_directive, use_relative_r_path, warning_directive,
    Directive,
};
use cmake_bind_builder::errors::BuildError;
use cmake_bind_builder::fsview::FsSnapshot;
use cmake_bind_builder::linker::{confirm_shared_object, resolve, ResolvedArtifact};
use cmake_bind_builder::local_library::LocalLibrary;
use cmake_bind_builder::path::DirPath;
use cmake_bind_builder::platform::Platform;

fn lib_path(segments: &[&str]) -> DirPath {
    DirPath::from_segments(segments.iter().map(|s| s.to_string()).collect())
}

fn file_names(files: &[&str]) -> Vec<String> {
    files.iter().map(|s| s.to_string()).collect()
}

fn install_tree(files_in_lib: &[&str]) -> (DirPath, FsSnapshot) {
    let install = lib_path(&["", "inst"]);
    let mut fs = FsSnapshot::empty();
    fs.add_dir(install.join("include"), file_names(&["dep.h"]));
    fs.add_dir(install.join("lib"), file_names(files_in_lib));
    (install, fs)
}

#[test]
fn library_defaults_cover_include_lib_and_lib64() {
    let install = lib_path(&["", "inst"]);
    let library = LocalLibrary::new(&install);
    assert_eq!(library.get_include_directories(), &vec![install.join("include")]);
    assert_eq!(
        library.get_library_directories(),
        &vec![install.join("lib"), install.join("lib64")]
    );
    assert!(library.get_link_targets().is_empty());
    assert!(library.get_system_link_targets().is_empty());
}

#[test]
fn static_is_preferred_over_shared() {
    let (install, fs) = install_tree(&["libfoo.a", "libfoo.so"]);
    let mut library = LocalLibrary::new(&install);
    library.link_target("foo");
    let plan = resolve(&library, Platform::Linux, &fs).unwrap();
    assert_eq!(plan.resolutions.len(), 1);
    assert_eq!(plan.resolutions[0].target, "foo");
    assert_eq!(
        plan.resolutions[0].artifact,
        ResolvedArtifact::StaticArtifact(install.join("lib").join("libfoo.a"))
    );
    assert_eq!(plan.static_links, vec!["foo".to_string()]);
    assert!(plan.shared_links.is_empty());
    assert!(plan.shared_copies.is_empty());
}

#[test]
fn shared_is_used_and_copied_when_no_static_exists() {
    let (install, fs) = install_tree(&["libfoo.so"]);
    let mut library = LocalLibrary::new(&install);
    library.link_target("foo");
    let plan = resolve(&library, Platform::Linux, &fs).unwrap();
    assert_eq!(
        plan.resolutions[0].artifact,
        ResolvedArtifact::SharedArtifact(install.join("lib").join("libfoo.so"))
    );
    assert_eq!(plan.shared_links, vec!["foo".to_string()]);
    assert_eq!(plan.shared_copies, vec![install.join("lib").join("libfoo.so")]);
}

#[test]
fn unresolved_targets_are_a_hard_failure() {
    let (install, fs) = install_tree(&[]);
    let mut library = LocalLibrary::new(&install);
    library.link_target("foo");
    assert_eq!(resolve(&library, Platform::Linux, &fs), Err(BuildError::NoLinkableTargets));
}

#[test]
fn one_resolved_target_carries_unresolved_ones() {
    let (install, fs) = install_tree(&["libfoo.a"]);
    let mut library = LocalLibrary::new(&install);
    library.link_target("foo").link_target("missing");
    let plan = resolve(&library, Platform::Linux, &fs).unwrap();
    assert_eq!(plan.resolutions.len(), 2);
    assert_eq!(plan.resolutions[1].target, "missing");
    assert_eq!(plan.resolutions[1].artifact, ResolvedArtifact::Unresolved);
    assert_eq!(plan.static_links, vec!["foo".to_string()]);
}

#[test]
fn system_targets_bypass_resolution() {
    let (install, fs) = install_tree(&[]);
    let mut library = LocalLibrary::new(&install);
    library.link_system_target("m");
    let plan = resolve(&library, Platform::Linux, &fs).unwrap();
    assert_eq!(plan.system_links, vec!["m".to_string()]);
    let directives = emit_directives(&plan);
    assert!(directives.contains(&Directive::SharedLink("m".to_string())));
    assert!(plan.resolutions.is_empty());
}

#[test]
fn missing_include_candidates_are_never_emitted() {
    let install = lib_path(&["", "inst"]);
    let mut fs = FsSnapshot::empty();
    fs.add_dir(install.join("lib"), file_names(&["libz.a"]));
    let mut library = LocalLibrary::new(&install);
    library.link_target("z");
    let plan = resolve(&library, Platform::Linux, &fs).unwrap();
    // <install>/include does not exist, so it must not appear anywhere.
    assert!(plan.include_directories.is_empty());
    let directives = emit_directives(&plan);
    assert!(directives.iter().all(|d| !matches!(d, Directive::IncludeDir(_))));
}

#[test]
fn candidate_directories_are_deduplicated_in_order() {
    let (install, fs) = install_tree(&["libz.a"]);
    let mut library = LocalLibrary::new(&install);
    library
        .add_include_directory(&lib_path(&["include"]))
        .add_library_directory(&lib_path(&["lib"]))
        .link_target("z")
        .link_target("z");
    let plan = resolve(&library, Platform::Linux, &fs).unwrap();
    assert_eq!(plan.include_directories, vec![install.join("include")]);
    assert_eq!(plan.library_search_directories, vec![install.join("lib")]);
    assert_eq!(plan.resolutions.len(), 1);
    assert_eq!(plan.static_links, vec!["z".to_string()]);
}

#[test]
fn directives_are_emitted_in_declaration_order() {
    let install = lib_path(&["", "inst"]);
    let mut fs = FsSnapshot::empty();
    fs.add_dir(install.join("include"), file_names(&["a.h"]));
    fs.add_dir(install.join("lib"), file_names(&["liba.a", "libb.so"]));
    let mut library = LocalLibrary::new(&install);
    library.link_target("a").link_target("b").link_system_target("m");
    let plan = resolve(&library, Platform::Linux, &fs).unwrap();
    let directives = emit_directives(&plan);
    assert_eq!(
        directives,
        vec![
            Directive::IncludeDir(install.join("include")),
            Directive::SearchDir(install.join("lib")),
            Directive::StaticLink("a".to_string()),
            Directive::SharedLink("b".to_string()),
            Directive::SharedLink("m".to_string()),
        ]
    );
}

#[test]
fn vanished_shared_object_is_fatal() {
    assert_eq!(confirm_shared_object(true), Ok(()));
    assert_eq!(confirm_shared_object(false), Err(BuildError::MissingSharedObject));
}

#[test]
fn declaration_lines_render_exactly() {
    assert_eq!(
        library_search_path_directive(&lib_path(&["", "inst", "lib"])),
        "cargo:rustc-link-search=native=/inst/lib"
    );
    assert_eq!(link_static_library_directive("z"), "cargo:rustc-link-lib=static=z");
    assert_eq!(link_shared_library_directive("z"), "cargo:rustc-link-lib=dylib=z");
    assert_eq!(link_static_lib("z"), "cargo:rustc-link-lib=static=z");
    assert_eq!(warning_directive("careful"), "cargo:warning=careful");
}

#[test]
fn install_dir_declares_lib_and_lib64_search_paths() {
    assert_eq!(
        add_install_dir(&lib_path(&["", "inst"])),
        vec![
            "cargo:rustc-link-search=native=/inst/lib".to_string(),
            "cargo:rustc-link-search=native=/inst/lib64".to_string(),
        ]
    );
}

#[test]
fn relative_r_path_per_platform() {
    assert_eq!(use_relative_r_path(Platform::Linux), Some("cargo:rustc-link-arg=-Wl,-rpath,$ORIGIN"));
    assert_eq!(
        use_relative_r_path(Platform::MacOS),
        Some("cargo:rustc-link-arg=-Wl,-rpath,@loader_path")
    );
    assert_eq!(use_relative_r_path(Platform::Windows), None);
}

#[test]
fn error_messages_name_the_expected_tool() {
    assert_eq!(
        BuildError::VcsToolMissing.message(),
        "could not invoke the version-control client; is git installed?"
    );
    assert_eq!(
        BuildError::BuildToolMissing.message(),
        "could not invoke the build tool; is cmake installed?"
    );
}
