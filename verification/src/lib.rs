//! Platform-abstraction layer for a script-running tool: resolves where
//! cached binaries, generated projects and templates live, reports file
//! modification times and the current time, and decides whether downstream
//! tooling should be told to force colored output.

pub mod platform;
pub mod resolve;

pub use platform::{
    binary_cache_path, cache_dir, current_time, file_last_modified, force_cargo_color,
    force_color_decision, generated_projects_cache_path, templates_dir, PlatformVariant,
    TestCacheState,
};
pub use resolve::{BuildKind, ResolveError};
