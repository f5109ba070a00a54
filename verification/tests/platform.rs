use script_platform::{
    binary_cache_path, cache_dir, current_time, file_last_modified, force_cargo_color,
    force_color_decision, generated_projects_cache_path, templates_dir, BuildKind,
    PlatformVariant, ResolveError, TestCacheState,
};
use script_platform::resolve::{cache_root_from, join_path, templates_from};

#[test]
fn override_takes_precedence() {
    let r = cache_dir(Some("/tmp/custom-cache".to_string()));
    assert_eq!(r, Ok("/tmp/custom-cache".to_string()));
}

#[test]
fn override_is_taken_verbatim() {
    // No validation: a relative, odd-looking path is returned unchanged.
    let r = cache_root_from(Some("relative/./path".to_string()), Some("/ignored".to_string()));
    assert_eq!(r, Ok("relative/./path".to_string()));
}

#[test]
fn platform_default_gets_program_name() {
    let r = cache_root_from(None, Some("/home/u/.cache".to_string()));
    assert_eq!(r, Ok("/home/u/.cache/rust-script".to_string()));
}

#[test]
fn no_directory_available_fails() {
    let r = cache_root_from(None, None);
    assert_eq!(r, Err(ResolveError::DirectoryUnavailable));
    assert_eq!(
        ResolveError::DirectoryUnavailable.message(),
        "Cannot get cache directory".to_string()
    );
}

#[test]
fn binary_cache_path_appends_binaries() {
    let r = binary_cache_path(Some("/tmp/custom-cache".to_string()));
    assert_eq!(r, Ok("/tmp/custom-cache/binaries".to_string()));
}

#[test]
fn generated_projects_path_appends_projects() {
    let r = generated_projects_cache_path(Some("/tmp/custom-cache".to_string()));
    assert_eq!(r, Ok("/tmp/custom-cache/projects".to_string()));
}

#[test]
fn join_path_inserts_separator() {
    assert_eq!(join_path("a".to_string(), "b"), "a/b".to_string());
}

#[test]
fn templates_debug_override_wins_in_development() {
    let r = templates_from(
        BuildKind::Development,
        Some("/dev/tpl".to_string()),
        Some("/data".to_string()),
    );
    assert_eq!(r, Ok("/dev/tpl".to_string()));
}

#[test]
fn templates_override_ignored_in_release() {
    let r = templates_from(
        BuildKind::Release,
        Some("/dev/tpl".to_string()),
        Some("/data".to_string()),
    );
    assert_eq!(r, Ok("/data/rust-script/templates".to_string()));
}

#[test]
fn templates_default_appends_name_and_segment() {
    let r = templates_from(BuildKind::Development, None, Some("/home/u/.local/share".to_string()));
    assert_eq!(r, Ok("/home/u/.local/share/rust-script/templates".to_string()));
}

#[test]
fn templates_unavailable_fails() {
    let r = templates_from(BuildKind::Release, None, None);
    assert_eq!(r, Err(ResolveError::DirectoryUnavailable));
}

#[test]
fn templates_dir_debug_override() {
    let r = templates_dir(BuildKind::Development, Some("/dev/tpl".to_string()));
    assert_eq!(r, Ok("/dev/tpl".to_string()));
}

#[test]
fn freshness_degrades_to_zero() {
    // A failed metadata query is handed over as None and degrades to 0.
    assert_eq!(file_last_modified(None), 0);
}

#[test]
fn freshness_passes_value_through() {
    assert_eq!(file_last_modified(Some(1_700_000_000_000)), 1_700_000_000_000);
}

#[test]
fn current_time_non_decreasing() {
    let a = current_time();
    let b = current_time();
    assert!(a <= b);
    assert!(a > 0);
}

#[test]
fn color_forced_only_on_terminal_capable_tty() {
    assert!(force_color_decision(PlatformVariant::TerminalCapable, true));
    assert!(!force_color_decision(PlatformVariant::TerminalCapable, false));
    assert!(!force_color_decision(PlatformVariant::SideChannel, true));
    assert!(!force_color_decision(PlatformVariant::SideChannel, false));
}

#[test]
fn side_channel_variant_never_forces_color() {
    assert!(!force_cargo_color(PlatformVariant::SideChannel));
}

#[test]
fn test_mode_root_is_stable() {
    let mut state = TestCacheState::new();
    let first = state.cache_root();
    assert!(!first.is_empty());
    let second = state.cache_root();
    let third = state.cache_root();
    assert_eq!(first, second);
    assert_eq!(first, third);
}
