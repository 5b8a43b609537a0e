use vstd::prelude::*;
use std::collections::HashMap;

verus! {

/// Data about an (un)installation command: the name of the package, and the
/// properties given for it on the command line.
#[derive(Clone)]
pub struct InstallationEntry {
    /// The name of the package. This is a unique identifier, not a human readable string.
    pub name: String,
    /// Additional properties given on the command line as long arguments
    /// (`--source=aur`). Backends read the keys they know and ignore the rest;
    /// an empty map means "use the defaults".
    pub properties: HashMap<String, String>,
}

impl InstallationEntry {
    /// An entry for package `name` with no properties.
    pub fn new(name: String) -> (r: InstallationEntry)
        ensures
            r.name == name,
            r.properties@ == Map::<String, String>::empty(),
    {
        InstallationEntry { name, properties: HashMap::new() }
    }
}

} // verus!
