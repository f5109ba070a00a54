//! The cache/location resolution policy: an environment override, when set,
//! wins verbatim over the platform default; otherwise the platform's standard
//! directory is extended with the tool's program name; when neither is
//! available, resolution fails. All of it is pure: these functions take the
//! environment and platform answers as plain values and compute the outcome.

use vstd::prelude::*;
use vstd::string::StringExecFns;

verus! {

/// The one way resolution can fail: the platform could not supply a standard
/// directory and no override was set.
#[derive(Clone, Copy, Debug, PartialEq, Eq, Structural)]
pub enum ResolveError {
    DirectoryUnavailable,
}

impl ResolveError {
    /// The fixed human-readable cause carried by the failure.
    pub fn message(&self) -> (m: String)
        ensures
            m@ == "Cannot get cache directory"@,
    {
        "Cannot get cache directory".to_owned()
    }
}

/// Whether the tool itself was built for development or for release; the
/// debug-only template override is honored only in a development build.
#[derive(Clone, Copy, Debug, PartialEq, Eq, Structural)]
pub enum BuildKind {
    Development,
    Release,
}

/// The views of an optional path.
pub open spec fn opt_view(o: Option<String>) -> Option<Seq<char>> {
    match o {
        Some(s) => Some(s@),
        None => None,
    }
}

/// A path extended by one further segment.
pub open spec fn join_seq(base: Seq<char>, seg: Seq<char>) -> Seq<char> {
    base + "/"@ + seg
}

/// The resolved cache root: the override verbatim when set, else the platform
/// cache directory with the program name appended, else failure.
pub open spec fn cache_root_model(
    override_path: Option<Seq<char>>,
    platform_cache: Option<Seq<char>>,
) -> Result<Seq<char>, ResolveError> {
    match override_path {
        Some(p) => Ok(p),
        None => match platform_cache {
            Some(d) => Ok(join_seq(d, "rust-script"@)),
            None => Err(ResolveError::DirectoryUnavailable),
        },
    }
}

/// The generated-projects cache: the cache root with "projects" appended,
/// any failure propagated unchanged.
pub open spec fn projects_model(
    override_path: Option<Seq<char>>,
    platform_cache: Option<Seq<char>>,
) -> Result<Seq<char>, ResolveError> {
    match cache_root_model(override_path, platform_cache) {
        Ok(root) => Ok(join_seq(root, "projects"@)),
        Err(e) => Err(e),
    }
}

/// The compiled-binaries cache: the cache root with "binaries" appended,
/// any failure propagated unchanged.
pub open spec fn binaries_model(
    override_path: Option<Seq<char>>,
    platform_cache: Option<Seq<char>>,
) -> Result<Seq<char>, ResolveError> {
    match cache_root_model(override_path, platform_cache) {
        Ok(root) => Ok(join_seq(root, "binaries"@)),
        Err(e) => Err(e),
    }
}

/// The resolved templates directory: in a development build a set debug
/// override wins verbatim; otherwise the platform's local-data directory with
/// the program name and "templates" appended, else failure.
pub open spec fn templates_model(
    build: BuildKind,
    debug_override: Option<Seq<char>>,
    platform_data: Option<Seq<char>>,
) -> Result<Seq<char>, ResolveError> {
    if build == BuildKind::Development && debug_override is Some {
        Ok(debug_override->0)
    } else {
        match platform_data {
            Some(d) => Ok(join_seq(join_seq(d, "rust-script"@), "templates"@)),
            None => Err(ResolveError::DirectoryUnavailable),
        }
    }
}

/// An executable resolution outcome agrees with a modelled one.
pub open spec fn resolves_to(
    r: Result<String, ResolveError>,
    m: Result<Seq<char>, ResolveError>,
) -> bool {
    match (r, m) {
        (Ok(p), Ok(s)) => p@ == s,
        (Err(e), Err(f)) => e == f,
        _ => false,
    }
}

/// A path extended by one further segment, with a separator between.
pub fn join_path(base: String, seg: &str) -> (r: String)
    ensures
        r@ == join_seq(base@, seg@),
{
    base.concat("/").concat(seg)
}

/// Resolves the cache root from the override variable's value and the
/// platform's standard cache directory.
pub fn cache_root_from(
    override_path: Option<String>,
    platform_cache: Option<String>,
) -> (r: Result<String, ResolveError>)
    ensures
        resolves_to(r, cache_root_model(opt_view(override_path), opt_view(platform_cache))),
{
    match override_path {
        Some(p) => Ok(p),
        None => match platform_cache {
            Some(d) => Ok(join_path(d, "rust-script")),
            None => Err(ResolveError::DirectoryUnavailable),
        },
    }
}

/// Law: the override takes absolute precedence — whenever it is set to a path,
/// cache-root resolution returns exactly that path, whatever the platform
/// would have answered.
pub proof fn lemma_override_precedence(p: Seq<char>, platform_cache: Option<Seq<char>>)
    ensures
        cache_root_model(Some(p), platform_cache) == Ok::<Seq<char>, ResolveError>(p),
{
}

/// Law: the derived paths equal the cache root with "/projects" and
/// "/binaries" appended whenever the cache root resolves, and propagate its
/// failure unchanged otherwise.
pub proof fn lemma_derived_paths(
    override_path: Option<Seq<char>>,
    platform_cache: Option<Seq<char>>,
)
    ensures
        cache_root_model(override_path, platform_cache) matches Ok(root) ==> {
            &&& projects_model(override_path, platform_cache) == Ok::<Seq<char>, ResolveError>(
                join_seq(root, "projects"@),
            )
            &&& binaries_model(override_path, platform_cache) == Ok::<Seq<char>, ResolveError>(
                join_seq(root, "binaries"@),
            )
        },
        cache_root_model(override_path, platform_cache) matches Err(e) ==> {
            &&& projects_model(override_path, platform_cache) == Err::<Seq<char>, ResolveError>(e)
            &&& binaries_model(override_path, platform_cache) == Err::<Seq<char>, ResolveError>(e)
        },
{
}

/// Law: in a release build the debug template override never takes effect —
/// the templates directory resolves as if the override were unset.
pub proof fn lemma_release_ignores_override(
    debug_override: Option<Seq<char>>,
    platform_data: Option<Seq<char>>,
)
    ensures
        templates_model(BuildKind::Release, debug_override, platform_data) == templates_model(
            BuildKind::Release,
            None,
            platform_data,
        ),
{
}

/// Resolves the templates directory from the build kind, the debug override
/// variable's value and the platform's standard local-data directory.
pub fn templates_from(
    build: BuildKind,
    debug_override: Option<String>,
    platform_data: Option<String>,
) -> (r: Result<String, ResolveError>)
    ensures
        resolves_to(
            r,
            templates_model(build, opt_view(debug_override), opt_view(platform_data)),
        ),
{
    if build == BuildKind::Development {
        if let Some(p) = debug_override {
            return Ok(p);
        }
    }
    match platform_data {
        Some(d) => Ok(join_path(join_path(d, "rust-script"), "templates")),
        None => Err(ResolveError::DirectoryUnavailable),
    }
}

} // verus!
