use cmake_bind_builder::errors::BuildError;
use cmake_bind_builder::fsview::FsSnapshot;
use cmake_bind_builder::path::DirPath;
use cmake_bind_builder::target_dir::resolve_build_root;

fn seg_path(segments: &[&str]) -> DirPath {
    DirPath::from_segments(segments.iter().map(|s| s.to_string()).collect())
}

fn names(files: &[&str]) -> Vec<String> {
    files.iter().map(|s| s.to_string()).collect()
}

#[test]
fn render_absolute_unix_path() {
    assert_eq!(seg_path(&["", "home", "x"]).render(), "/home/x");
}

#[test]
fn render_empty_and_single_segment() {
    assert_eq!(seg_path(&[]).render(), "");
    assert_eq!(seg_path(&["C:"]).render(), "C:");
}

#[test]
fn join_appends_one_segment() {
    let p = seg_path(&["", "opt"]).join("lib");
    assert_eq!(p, seg_path(&["", "opt", "lib"]));
    assert_eq!(p.render(), "/opt/lib");
}

#[test]
fn concat_path_appends_relative_path() {
    let p = seg_path(&["", "opt"]).concat_path(&seg_path(&["a", "b"]));
    assert_eq!(p, seg_path(&["", "opt", "a", "b"]));
}

#[test]
fn build_root_found_by_sentinel_file() {
    let mut fs = FsSnapshot::empty();
    fs.add_dir(seg_path(&["", "work", "target"]), names(&[".rustc_info.json"]));
    let out = seg_path(&["", "work", "target", "debug", "build", "pkg-1f", "out"]);
    let root = resolve_build_root(&out, None, &fs).unwrap();
    assert_eq!(root, seg_path(&["", "work", "target"]));
}

#[test]
fn build_root_found_by_cache_tag() {
    let mut fs = FsSnapshot::empty();
    fs.add_dir(seg_path(&["", "w", "t"]), names(&["CACHEDIR.TAG"]));
    let out = seg_path(&["", "w", "t", "release", "build"]);
    assert_eq!(resolve_build_root(&out, None, &fs).unwrap(), seg_path(&["", "w", "t"]));
}

#[test]
fn build_root_found_by_name_and_manifest() {
    let mut fs = FsSnapshot::empty();
    fs.add_dir(seg_path(&["", "proj"]), names(&["Cargo.toml", "build.rs"]));
    fs.add_dir(seg_path(&["", "proj", "target"]), names(&[]));
    let out = seg_path(&["", "proj", "target", "debug", "build", "dep-aa", "out"]);
    assert_eq!(resolve_build_root(&out, None, &fs).unwrap(), seg_path(&["", "proj", "target"]));
}

#[test]
fn build_root_missing_is_malformed_path() {
    let fs = FsSnapshot::empty();
    let out = seg_path(&["", "nowhere", "deep"]);
    assert_eq!(resolve_build_root(&out, None, &fs), Err(BuildError::MalformedBuildPath));
}

#[test]
fn build_root_retried_on_canonicalized_path() {
    let mut fs = FsSnapshot::empty();
    fs.add_dir(seg_path(&["", "real", "target"]), names(&[".rustc_info.json"]));
    let out = seg_path(&["link", "target", "debug"]);
    let canonical = seg_path(&["", "real", "target", "debug"]);
    let root = resolve_build_root(&out, Some(&canonical), &fs).unwrap();
    assert_eq!(root, seg_path(&["", "real", "target"]));
}
