//! Dependency-acquisition and native-build orchestration for build scripts.
//!
//! The crate plans how an external source repository is fetched, how the
//! external build system is configured, built and installed, and how the
//! installed libraries are linked by a downstream compilation step.  All
//! decision logic here is pure: filesystem facts, environment values and
//! the outcomes of external tools are handed in as plain values, and the
//! resulting plans (command sequences, directory layouts, link directives)
//! are handed back to the caller, which performs the actual I/O.

pub mod cmake_builder;
pub mod commands;
pub mod errors;
pub mod fsview;
pub mod linker;
pub mod local_library;
pub mod path;
pub mod platform;
pub mod target_dir;
pub mod text;
pub mod vcs;
