use cmake_bind_builder::cmake_builder::{
    judge_build_status, scratch_dir_name, BuildProfile, BuildStage, CMakeBuilder,
};
use cmake_bind_builder::errors::BuildError;
use cmake_bind_builder::path::DirPath;

fn src_path(segments: &[&str]) -> DirPath {
    DirPath::from_segments(segments.iter().map(|s| s.to_string()).collect())
}

fn configured(profile: BuildProfile) -> CMakeBuilder {
    let source = src_path(&["", "src", "dep"]);
    CMakeBuilder::from("dep", &source, Some(&source), cmake_bind_builder::platform::Platform::Linux, profile)
        .unwrap()
}

#[test]
fn profile_names() {
    assert_eq!(BuildProfile::Debug.name(), "Debug");
    assert_eq!(BuildProfile::Release.name(), "Release");
    assert_eq!(BuildProfile::RelWithDebugInfo.name(), "RelWithDebugInfo");
    assert_eq!(BuildProfile::MinSizeRel.name(), "MinSizeRel");
    assert_eq!(scratch_dir_name(BuildProfile::Release), "cmake-bind-builder-Release");
}

#[test]
fn install_dir_is_inside_profile_scratch_dir() {
    let b = configured(BuildProfile::Release);
    assert_eq!(
        b.get_install_directory().render(),
        "/src/dep/cmake-bind-builder-Release/install"
    );
}

#[test]
fn install_dirs_differ_between_profiles() {
    let release = configured(BuildProfile::Release);
    let debug = configured(BuildProfile::Debug);
    assert_ne!(
        release.get_install_directory().render(),
        debug.get_install_directory().render()
    );
}

#[test]
fn repeated_configuration_is_convergent() {
    let once = configured(BuildProfile::MinSizeRel);
    let twice = configured(BuildProfile::MinSizeRel);
    assert_eq!(
        once.get_install_directory().render(),
        twice.get_install_directory().render()
    );
}

#[test]
fn missing_source_path_is_path_not_found() {
    let source = src_path(&["", "src", "gone"]);
    let r = CMakeBuilder::from(
        "gone",
        &source,
        None,
        cmake_bind_builder::platform::Platform::Linux,
        BuildProfile::Debug,
    );
    assert!(matches!(r, Err(BuildError::PathNotFound)));
}

#[test]
fn windows_skips_canonicalization() {
    let source = src_path(&["C:", "src", "dep"]);
    let b = CMakeBuilder::from(
        "dep",
        &source,
        None,
        cmake_bind_builder::platform::Platform::Windows,
        BuildProfile::Debug,
    )
    .unwrap();
    assert_eq!(b.get_install_directory().render(), "C:/src/dep/cmake-bind-builder-Debug/install");
}

#[test]
fn flags_are_appended_in_order() {
    let mut b = configured(BuildProfile::Release);
    b.cflag("-fPIC").cflag("-O2").cxxflag("-std=c++20");
    let plan = b.build_plan();
    let options = plan.configure.unwrap().options;
    assert_eq!(options.cflags, vec!["-fPIC".to_string(), "-O2".to_string()]);
    assert_eq!(options.cxxflags, vec!["-std=c++20".to_string()]);
}

#[test]
fn define_last_write_wins_and_keys_stay_unique() {
    let mut b = configured(BuildProfile::Release);
    b.define("ZLIB_SHARED", "ON").define("FOO", "1").define("ZLIB_SHARED", "OFF");
    let plan = b.build_plan();
    let defines = plan.configure.unwrap().options.defines;
    let shared: Vec<&(String, String)> =
        defines.iter().filter(|kv| kv.0 == "ZLIB_SHARED").collect();
    assert_eq!(shared, vec![&("ZLIB_SHARED".to_string(), "OFF".to_string())]);
    assert!(defines.contains(&("FOO".to_string(), "1".to_string())));
}

#[test]
fn configure_injects_skip_dependency_and_install_prefix() {
    let b = configured(BuildProfile::Release);
    let plan = b.build_plan();
    let defines = plan.configure.unwrap().options.defines;
    assert_eq!(defines[0], ("CMAKE_SKIP_INSTALL_ALL_DEPENDENCY".to_string(), "true".to_string()));
    assert!(defines.contains(&(
        "CMAKE_INSTALL_PREFIX".to_string(),
        "/src/dep/cmake-bind-builder-Release/install".to_string()
    )));
}

#[test]
fn build_plan_defaults_to_all_target() {
    let b = configured(BuildProfile::Release);
    let plan = b.build_plan();
    assert_eq!(plan.configure.unwrap().build_target, "all");
    assert_eq!(plan.build_directory.render(), "/src/dep/cmake-bind-builder-Release/build");
    assert_eq!(
        plan.install_args,
        vec![
            "--install".to_string(),
            ".".to_string(),
            "--prefix".to_string(),
            "/src/dep/cmake-bind-builder-Release/install".to_string(),
        ]
    );
}

#[test]
fn build_plan_uses_chosen_target() {
    let mut b = configured(BuildProfile::Release);
    b.build_target("z");
    let plan = b.build_plan();
    assert_eq!(plan.configure.unwrap().build_target, "z");
}

#[test]
fn from_build_directory_skips_configuration() {
    let dir = src_path(&["", "prebuilt", "dep"]);
    let b = CMakeBuilder::from_build_directory(
        "dep",
        &dir,
        Some(&dir),
        cmake_bind_builder::platform::Platform::Linux,
        BuildProfile::Debug,
    )
    .unwrap();
    let plan = b.build_plan();
    assert!(plan.configure.is_none());
    assert_eq!(plan.build_directory.render(), "/prebuilt/dep");
    assert_eq!(
        b.get_install_directory().render(),
        "/prebuilt/dep/cmake-bind-builder-Debug/install"
    );
}

#[test]
fn finished_build_is_a_fresh_descriptor() {
    let mut b = configured(BuildProfile::Release);
    b.build_target("z");
    let plan = b.build_plan();
    let built = b.finish_build(plan.build_directory);
    // The spent configuration is gone: building again only re-installs.
    let again = built.build_plan();
    assert!(again.configure.is_none());
    assert_eq!(again.build_directory.render(), "/src/dep/cmake-bind-builder-Release/build");
    assert_eq!(built.get_build_target(), &Some("z".to_string()));
}

#[test]
fn setters_are_inert_without_configuration() {
    let dir = src_path(&["", "prebuilt", "dep"]);
    let mut b = CMakeBuilder::from_build_directory(
        "dep",
        &dir,
        Some(&dir),
        cmake_bind_builder::platform::Platform::Linux,
        BuildProfile::Debug,
    )
    .unwrap();
    b.generator("Ninja").cflag("-O2").define("A", "1");
    let plan = b.build_plan();
    assert!(plan.configure.is_none());
}

#[test]
fn build_status_zero_is_success() {
    assert_eq!(judge_build_status(BuildStage::Build, Some(0)), Ok(()));
}

#[test]
fn build_status_missing_tool() {
    assert_eq!(
        judge_build_status(BuildStage::Configure, None),
        Err(BuildError::BuildToolMissing)
    );
}

#[test]
fn build_status_nonzero_build_fails() {
    assert_eq!(judge_build_status(BuildStage::Build, Some(2)), Err(BuildError::BuildFailed));
    assert_eq!(
        judge_build_status(BuildStage::Configure, Some(1)),
        Err(BuildError::BuildFailed)
    );
}

#[test]
fn build_status_nonzero_install_fails() {
    assert_eq!(
        judge_build_status(BuildStage::Install, Some(1)),
        Err(BuildError::InstallFailed)
    );
}
