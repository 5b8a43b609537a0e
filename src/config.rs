use vstd::prelude::*;

verus! {

/// The path under the home directory where darling keeps package sources.
pub open spec fn source_suffix() -> Seq<char> {
    "/.local/share/darling/source"@
}

/// The default source location for a user whose home directory is `home`.
pub open spec fn default_source_location(home: Seq<char>) -> Seq<char> {
    home + source_suffix()
}

/// The user-defined configuration options.
pub struct DarlingConfig {
    /// The location of the darling source on the user's machine;
    /// `~/.local/share/darling/source` by default.
    pub source_location: String,
}

impl DarlingConfig {
    /// The default configuration for a user whose home directory is `home`:
    /// sources are kept in `<home>/.local/share/darling/source`.
    pub fn with_home(home: &str) -> (r: DarlingConfig)
        ensures
            r.source_location@ == default_source_location(home@),
    {
        let mut source_location = home.to_string();
        source_location.append("/.local/share/darling/source");
        proof { reveal_strlit("/.local/share/darling/source"); }
        DarlingConfig { source_location }
    }
}

/// Global immutable data about the current darling session, shared by reference
/// with every backend call of one run.
pub struct Context {
    /// The configuration active when running darling.
    pub config: DarlingConfig,
}

impl Context {
    /// A session context holding `config`.
    pub fn new(config: DarlingConfig) -> (r: Context)
        ensures
            r.config == config,
    {
        Context { config }
    }
}

} // verus!
