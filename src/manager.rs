use vstd::prelude::*;
use crate::config::Context;
use crate::entry::InstallationEntry;

verus! {

/// The error type that backends return: an opaque error with a cause chain.
#[verifier::external_type_specification]
#[verifier::external_body]
pub struct ExAnyhowError(anyhow::Error);

/// A package manager which gets a darling implementation: how to install,
/// uninstall, and list packages through one backend.
///
/// `install` and `uninstall` act on the system only; the front end updates its
/// cache file after a successful result. `post_install` runs once after a whole
/// batch of installs (see `crate::batch`).
pub trait PackageManager: Send + Sync {
    /// Returns the name of this package manager: a unique all-lowercase
    /// identifier, commonly the backend crate's name without its `darling-` prefix.
    /// Every call on one value gives the same name.
    fn name(&self) -> String;

    /// Installs one package: the version its properties ask for, else the latest.
    /// Does not touch the cache file. An error if the package could not be installed.
    fn install(&self, context: &Context, package: &InstallationEntry) -> (r: Result<(), anyhow::Error>);

    /// Runs once after a single install or a group of installs, after all of them.
    /// Backends whose finishing work is expensive (a rebuild) do it here once per
    /// batch. The provided implementation does nothing and succeeds.
    fn post_install(&self, context: &Context) -> (r: Result<(), anyhow::Error>)
        default_ensures
            r is Ok,
    {
        Ok(())
    }

    /// Removes a package from the system. Does not touch the cache file.
    /// An error if the package could not be removed.
    fn uninstall(&self, context: &Context, package: &InstallationEntry) -> (r: Result<(), anyhow::Error>);

    /// The name and version of each package explicitly installed on the system,
    /// that is, not only as a dependency of another. Computed from the system
    /// itself, never from darling's cache file.
    fn get_all_explicit(&self, context: &Context) -> (r: Result<Vec<(String, String)>, anyhow::Error>);
}

} // verus!
