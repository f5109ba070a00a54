//! The platform edge: trusted declarations of the outside queries (standard
//! directories, terminal detection, temporary directories, the clock), and
//! the public operations that combine them with the verified resolution
//! policy of [`crate::resolve`].

use vstd::prelude::*;

use crate::resolve::{
    binaries_model, cache_root_from, cache_root_model, join_path, join_seq, opt_view,
    projects_model, resolves_to, templates_from, templates_model, BuildKind, ResolveError,
};

verus! {

#[verifier::external_type_specification]
#[verifier::external_body]
pub struct ExTempDir(tempfile::TempDir);

#[verifier::external_type_specification]
#[verifier::external_body]
pub struct ExSystemTime(std::time::SystemTime);

/// Relies on dirs_next::cache_dir: the platform's standard user-cache
/// directory, if the platform supplies one. The answer depends on the
/// machine's environment, so nothing is promised of it.
#[verifier::external_body]
fn platform_cache_dir() -> Option<String> {
    match dirs_next::cache_dir() {
        Some(d) => Some(d.to_string_lossy().into_owned()),
        None => None,
    }
}

/// Relies on dirs_next::data_local_dir: the platform's standard user-local
/// data directory, if the platform supplies one. The answer depends on the
/// machine's environment, so nothing is promised of it.
#[verifier::external_body]
fn platform_data_local_dir() -> Option<String> {
    match dirs_next::data_local_dir() {
        Some(d) => Some(d.to_string_lossy().into_owned()),
        None => None,
    }
}

/// Relies on atty::is: whether this process's standard error stream is
/// attached to an interactive terminal. The answer depends on how the
/// process was started, so nothing is promised of it.
#[verifier::external_body]
fn stderr_is_terminal() -> bool {
    atty::is(atty::Stream::Stderr)
}

/// Relies on tempfile::TempDir::new: a fresh temporary directory, created
/// now; panics when the platform cannot create one. Its location is chosen
/// by the platform, so nothing is promised of it.
#[verifier::external_body]
fn new_temp_dir() -> tempfile::TempDir {
    tempfile::TempDir::new().unwrap()
}

/// Relies on tempfile::TempDir::keep: disarms the directory's deletion and
/// hands its path out, here as a plain string.
#[verifier::external_body]
fn keep_temp_dir(dir: tempfile::TempDir) -> String {
    dir.keep().to_string_lossy().into_owned()
}

/// Relies on std::time::SystemTime::now: the current system time. The clock
/// may move either way between calls, so nothing is promised of it.
#[verifier::external_body]
fn system_time_now() -> std::time::SystemTime {
    std::time::SystemTime::now()
}

/// Relies on std::time::SystemTime::duration_since: the span from the UNIX
/// epoch to the given time; panics when the time lies before the epoch (a
/// negative system clock is a fatal precondition violation, by design).
#[verifier::external_body]
fn duration_since_epoch(t: std::time::SystemTime) -> core::time::Duration {
    t.duration_since(std::time::UNIX_EPOCH).unwrap()
}

/// Relies on core::time::Duration::as_millis: the span as a whole number of
/// milliseconds.
#[verifier::external_body]
fn duration_as_millis(d: core::time::Duration) -> u128 {
    d.as_millis()
}

/// Last-modified time of a file, in milliseconds since the epoch, given the
/// outcome of the platform's metadata query. A failed or unsupported query
/// (`None`) degrades to 0, "infinitely old", rather than an error.
pub fn file_last_modified(modified_millis: Option<u128>) -> (t: u128)
    ensures
        modified_millis matches Some(m) ==> t == m,
        modified_millis is None ==> t == 0,
{
    match modified_millis {
        Some(m) => m,
        None => 0,
    }
}

/// Current system time, in milliseconds since the UNIX epoch. Never fails
/// under a sane clock; the trusted clock query answers for its value.
pub fn current_time() -> u128 {
    let now = system_time_now();
    let span = duration_since_epoch(now);
    duration_as_millis(span)
}

/// The base cache directory: the override variable's value verbatim when it
/// is set, else the platform's standard cache directory with the program
/// name appended, else a "directory unavailable" failure.
pub fn cache_dir(override_path: Option<String>) -> (r: Result<String, ResolveError>)
    ensures
        override_path matches Some(p) ==> (r matches Ok(q) && q@ == p@),
        r matches Err(e) ==> (e == ResolveError::DirectoryUnavailable && override_path is None),
        exists|pl: Option<Seq<char>>|
            resolves_to(r, cache_root_model(opt_view(override_path), pl)),
{
    let ghost ovv = opt_view(override_path);
    let platform_cache = platform_cache_dir();
    let r = cache_root_from(override_path, platform_cache);
    proof {
        assert(resolves_to(r, cache_root_model(ovv, opt_view(platform_cache))));
    }
    r
}

/// The generated-projects cache: the cache root with "projects" appended,
/// any failure of the root's resolution propagated unchanged.
pub fn generated_projects_cache_path(override_path: Option<String>) -> (r: Result<
    String,
    ResolveError,
>)
    ensures
        override_path matches Some(p) ==> (r matches Ok(q) && q@ == join_seq(p@, "projects"@)),
        r matches Err(e) ==> (e == ResolveError::DirectoryUnavailable && override_path is None),
        exists|pl: Option<Seq<char>>| resolves_to(r, projects_model(opt_view(override_path), pl)),
{
    let ghost ovv = opt_view(override_path);
    let root = cache_dir(override_path);
    let ghost plw = choose|pl: Option<Seq<char>>| resolves_to(root, cache_root_model(ovv, pl));
    let r = match root {
        Ok(d) => Ok(join_path(d, "projects")),
        Err(e) => Err(e),
    };
    proof {
        assert(resolves_to(r, projects_model(ovv, plw)));
    }
    r
}

/// The compiled-binaries cache: the cache root with "binaries" appended,
/// any failure of the root's resolution propagated unchanged.
pub fn binary_cache_path(override_path: Option<String>) -> (r: Result<String, ResolveError>)
    ensures
        override_path matches Some(p) ==> (r matches Ok(q) && q@ == join_seq(p@, "binaries"@)),
        r matches Err(e) ==> (e == ResolveError::DirectoryUnavailable && override_path is None),
        exists|pl: Option<Seq<char>>| resolves_to(r, binaries_model(opt_view(override_path), pl)),
{
    let ghost ovv = opt_view(override_path);
    let root = cache_dir(override_path);
    let ghost plw = choose|pl: Option<Seq<char>>| resolves_to(root, cache_root_model(ovv, pl));
    let r = match root {
        Ok(d) => Ok(join_path(d, "binaries")),
        Err(e) => Err(e),
    };
    proof {
        assert(resolves_to(r, binaries_model(ovv, plw)));
    }
    r
}

/// The directory holding code templates: in a development build a set debug
/// override wins verbatim; otherwise the platform's standard local-data
/// directory with the program name and "templates" appended, else a
/// "directory unavailable" failure. The override never takes effect in a
/// release build.
pub fn templates_dir(build: BuildKind, debug_override: Option<String>) -> (r: Result<
    String,
    ResolveError,
>)
    ensures
        build == BuildKind::Development ==> (debug_override matches Some(p) ==> (r matches Ok(q)
            && q@ == p@)),
        r matches Err(e) ==> e == ResolveError::DirectoryUnavailable,
        exists|pl: Option<Seq<char>>|
            resolves_to(r, templates_model(build, opt_view(debug_override), pl)),
{
    let ghost ovv = opt_view(debug_override);
    let platform_data = platform_data_local_dir();
    let r = templates_from(build, debug_override, platform_data);
    proof {
        assert(resolves_to(r, templates_model(build, ovv, opt_view(platform_data))));
    }
    r
}

/// Which of the two build-time platform variants the tool was built for:
/// one where terminal attachment of the error stream can signal color
/// support, and one where color must travel over a side channel and this
/// decision is therefore always negative.
#[derive(Clone, Copy, Debug, PartialEq, Eq, Structural)]
pub enum PlatformVariant {
    TerminalCapable,
    SideChannel,
}

/// The color-forcing decision for a known terminal attachment: colored
/// output is forced exactly on the terminal-capable variant with the error
/// stream attached to a terminal.
pub fn force_color_decision(variant: PlatformVariant, stderr_tty: bool) -> (b: bool)
    ensures
        b == (variant == PlatformVariant::TerminalCapable && stderr_tty),
{
    match variant {
        PlatformVariant::TerminalCapable => stderr_tty,
        PlatformVariant::SideChannel => false,
    }
}

/// Whether downstream tooling should be told to force colored output: on the
/// terminal-capable variant, exactly when standard error is attached to a
/// terminal; on the side-channel variant, never.
pub fn force_cargo_color(variant: PlatformVariant) -> (b: bool)
    ensures
        variant == PlatformVariant::SideChannel ==> b == false,
{
    let stderr_tty = stderr_is_terminal();
    force_color_decision(variant, stderr_tty)
}

/// The test-mode cache resolver's state: the path of the process-lifetime
/// temporary directory, once one has been created. Test runs resolve the
/// cache root through this state so they never touch real user cache state.
pub struct TestCacheState {
    root: Option<String>,
}

impl TestCacheState {
    /// The path this state has resolved to, if any call has resolved one.
    pub closed spec fn resolved(&self) -> Option<Seq<char>> {
        opt_view(self.root)
    }

    /// A state in which no resolution has happened yet.
    pub fn new() -> (s: Self)
        ensures
            s.resolved() is None,
    {
        TestCacheState { root: None }
    }

    /// The test-mode cache root: a temporary directory created lazily on the
    /// first call and returned identically by every later call, so that all
    /// resolutions within one process agree.
    pub fn cache_root(&mut self) -> (r: String)
        ensures
            final(self).resolved() == Some(r@),
            old(self).resolved() matches Some(p) ==> r@ == p,
    {
        if let Some(p) = &self.root {
            return p.clone();
        }
        let dir = new_temp_dir();
        let path = keep_temp_dir(dir);
        self.root = Some(path.clone());
        path
    }
}

} // verus!
