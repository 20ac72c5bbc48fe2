use cmake_bind_builder::cmake_builder::{BuildProfile, CMakeBuilder};
use cmake_bind_builder::errors::BuildError;
use cmake_bind_builder::fsview::FsSnapshot;
use cmake_bind_builder::linker::{resolve, ResolvedArtifact};
use cmake_bind_builder::local_library::LocalLibrary;
use cmake_bind_builder::path::DirPath;
use cmake_bind_builder::platform::Platform;
use cmake_bind_builder::vcs::{acquire_plan, VcsCommand};

fn abs_path(segments: &[&str]) -> DirPath {
    DirPath::from_segments(segments.iter().map(|s| s.to_string()).collect())
}

fn listed(files: &[&str]) -> Vec<String> {
    files.iter().map(|s| s.to_string()).collect()
}

#[test]
fn acquire_build_and_link_zlib_end_to_end() {
    // Acquire id="zlib" at ref v1.3 into an empty destination root.
    let root = abs_path(&["", "deps"]);
    let plan = acquire_plan("zlib", "https://example/zlib.git", "v1.3", &root, false);
    let working_copy = plan.working_copy;
    assert_eq!(working_copy.render(), "/deps/zlib");
    assert!(matches!(plan.steps[0], VcsCommand::Init));
    assert!(
        plan.steps.contains(&VcsCommand::HardReset { refname: "v1.3".to_string() })
    );

    // Configure and build with profile Release.
    let mut builder = CMakeBuilder::from(
        "zlib",
        &working_copy,
        Some(&working_copy),
        Platform::Linux,
        BuildProfile::Release,
    )
    .unwrap();
    builder.build_target("z");
    let build_plan = builder.build_plan();
    assert_eq!(build_plan.configure.as_ref().unwrap().build_target, "z");
    let install = builder.get_install_directory().clone();
    assert_eq!(install.render(), "/deps/zlib/cmake-bind-builder-Release/install");
    let built = builder.finish_build(build_plan.build_directory);

    // The install tree now holds include/zlib.h and lib/libz.a.
    let mut fs = FsSnapshot::empty();
    fs.add_dir(install.join("include"), listed(&["zlib.h"]));
    fs.add_dir(install.join("lib"), listed(&["libz.a"]));

    // The descriptor derived from the built project links target "z".
    let library = LocalLibrary::from(&built, true).unwrap();
    assert_eq!(library.get_link_targets(), &vec!["z".to_string()]);

    let link_plan = resolve(&library, Platform::Linux, &fs).unwrap();
    assert_eq!(link_plan.resolutions.len(), 1);
    assert_eq!(
        link_plan.resolutions[0].artifact,
        ResolvedArtifact::StaticArtifact(install.join("lib").join("libz.a"))
    );
    assert_eq!(link_plan.include_directories, vec![install.join("include")]);
}

#[test]
fn library_from_unbuilt_project_fails() {
    let source = abs_path(&["", "src", "dep"]);
    let builder = CMakeBuilder::from(
        "dep",
        &source,
        Some(&source),
        Platform::Linux,
        BuildProfile::Release,
    )
    .unwrap();
    assert!(matches!(LocalLibrary::from(&builder, false), Err(BuildError::PathNotFound)));
}

#[test]
fn library_from_everything_target_links_nothing() {
    let source = abs_path(&["", "src", "dep"]);
    let builder = CMakeBuilder::from(
        "dep",
        &source,
        Some(&source),
        Platform::Linux,
        BuildProfile::Release,
    )
    .unwrap();
    let library = LocalLibrary::from(&builder, true).unwrap();
    assert!(library.get_link_targets().is_empty());
}

#[test]
fn library_from_explicit_all_spelling_links_nothing() {
    let source = abs_path(&["", "src", "dep"]);
    let mut builder = CMakeBuilder::from(
        "dep",
        &source,
        Some(&source),
        Platform::Linux,
        BuildProfile::Release,
    )
    .unwrap();
    builder.build_target("All");
    let library = LocalLibrary::from(&builder, true).unwrap();
    assert!(library.get_link_targets().is_empty());
}

#[test]
fn finalized_library_equals_its_source() {
    let install = abs_path(&["", "inst"]);
    let mut library = LocalLibrary::new(&install);
    library.link_target("z").link_system_target("m");
    let finalized = library.get();
    assert_eq!(finalized.get_link_targets(), library.get_link_targets());
    assert_eq!(finalized.get_system_link_targets(), library.get_system_link_targets());
    assert_eq!(finalized.get_include_directories(), library.get_include_directories());
    assert_eq!(finalized.get_library_directories(), library.get_library_directories());
}
