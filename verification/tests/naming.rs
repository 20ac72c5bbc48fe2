use cmake_bind_builder::errors::BuildError;
use cmake_bind_builder::platform::{
    get_shared_library_name, get_static_library_name, library_file_name, platform,
    shared_library_extension, static_library_extension, LinkKind, Platform,
};

#[test]
fn windows_static_name_has_no_lib_prefix() {
    assert_eq!(get_static_library_name(Platform::Windows, "foo"), "foo.lib");
}

#[test]
fn linux_static_name_has_lib_prefix() {
    assert_eq!(get_static_library_name(Platform::Linux, "foo"), "libfoo.a");
}

#[test]
fn shared_names_per_platform() {
    assert_eq!(get_shared_library_name(Platform::Windows, "foo"), "foo.dll");
    assert_eq!(get_shared_library_name(Platform::Linux, "foo"), "libfoo.so");
    assert_eq!(get_shared_library_name(Platform::MacOS, "foo"), "libfoo.dylib");
}

#[test]
fn library_file_name_matches_specific_helpers() {
    assert_eq!(library_file_name(Platform::Windows, "z", LinkKind::Static), "z.lib");
    assert_eq!(library_file_name(Platform::MacOS, "z", LinkKind::Static), "libz.a");
    assert_eq!(library_file_name(Platform::Linux, "z", LinkKind::Shared), "libz.so");
}

#[test]
fn extensions_per_platform() {
    assert_eq!(static_library_extension(Platform::Windows), ".lib");
    assert_eq!(static_library_extension(Platform::Linux), ".a");
    assert_eq!(static_library_extension(Platform::MacOS), ".a");
    assert_eq!(shared_library_extension(Platform::Windows), ".dll");
    assert_eq!(shared_library_extension(Platform::Linux), ".so");
    assert_eq!(shared_library_extension(Platform::MacOS), ".dylib");
}

#[test]
fn platform_recognizes_triples() {
    assert_eq!(platform("x86_64-pc-windows-msvc"), Ok(Platform::Windows));
    assert_eq!(platform("x86_64-unknown-linux-gnu"), Ok(Platform::Linux));
    assert_eq!(platform("aarch64-apple-darwin"), Ok(Platform::MacOS));
}

#[test]
fn platform_rejects_unknown_triple() {
    assert_eq!(platform("wasm32-wasi"), Err(BuildError::UnsupportedPlatform));
}
