//! Locations of the configuration and cache files under the user's data
//! directory, and the storage root they hang off.
//!
//! Reading and writing the files themselves is plain file I/O and lives in
//! the surrounding process layer.

use vstd::prelude::*;
use vstd::string::StringExecFns;

verus! {

/// Path of the agent's own directory under the user's home, if the operating
/// system reports a home. The dot-directory name is this crate's own choice;
/// an installation that keeps the agent's artifacts under another directory
/// hands that directory to the functions that take an explicit root.
pub fn get_claude_dir() -> (r: Option<String>)
    ensures
        (match r {
            Option::Some(p) => exists|h: Seq<char>| p@ == h + "/.agent"@,
            Option::None => true,
        }),
{
    match crate::sys::home_dir_string() {
        Option::Some(h) => {
            let ghost hv = h@;
            let out = h.concat("/.agent");
            proof {
                assert(out@ == hv + "/.agent"@);
            }
            Option::Some(out)
        },
        Option::None => Option::None,
    }
}

/// Path of this system's own data directory under the user's home.
pub fn get_capacitor_dir() -> (r: Option<String>)
    ensures
        (match r {
            Option::Some(p) => exists|h: Seq<char>| p@ == h + "/.capacitor"@,
            Option::None => true,
        }),
{
    match crate::sys::home_dir_string() {
        Option::Some(h) => {
            let ghost hv = h@;
            let out = h.concat("/.capacitor");
            proof {
                assert(out@ == hv + "/.capacitor"@);
            }
            Option::Some(out)
        },
        Option::None => Option::None,
    }
}

/// A storage root for configuration and caches.
pub struct StorageConfig {
    pub root: String,
}

impl StorageConfig {
    /// Path of the pinned-projects file under this root.
    pub fn projects_file(&self) -> (r: String)
        ensures
            r@ == self.root@ + "/projects.json"@,
    {
        self.root.clone().concat("/projects.json")
    }

    /// Path of the statistics cache under this root.
    pub fn stats_cache_file(&self) -> (r: String)
        ensures
            r@ == self.root@ + "/stats-cache.json"@,
    {
        self.root.clone().concat("/stats-cache.json")
    }
}

impl Default for StorageConfig {
    /// The default root: the data directory under the user's home, or the
    /// current directory when no home is reported.
    fn default() -> (r: StorageConfig)
        ensures
            (exists|h: Seq<char>| r.root@ == h + "/.capacitor"@) || r.root@ == "."@,
    {
        match get_capacitor_dir() {
            Option::Some(d) => StorageConfig { root: d },
            Option::None => StorageConfig { root: String::from_str(".") },
        }
    }
}

/// Path of the pinned-projects file under the default data directory.
pub fn get_projects_config_path() -> (r: Option<String>)
    ensures
        (match r {
            Option::Some(p) => exists|d: Seq<char>| p@ == d + "/projects.json"@,
            Option::None => true,
        }),
{
    match get_capacitor_dir() {
        Option::Some(d) => {
            let ghost dv = d@;
            let out = d.concat("/projects.json");
            proof {
                assert(out@ == dv + "/projects.json"@);
            }
            Option::Some(out)
        },
        Option::None => Option::None,
    }
}

/// Path of the pinned-projects file under an explicit storage root.
pub fn get_projects_config_path_for(storage: &StorageConfig) -> (r: String)
    ensures
        r@ == storage.root@ + "/projects.json"@,
{
    storage.projects_file()
}

/// Path of the statistics cache under the default data directory.
pub fn get_stats_cache_path() -> (r: Option<String>)
    ensures
        (match r {
            Option::Some(p) => exists|d: Seq<char>| p@ == d + "/stats-cache.json"@,
            Option::None => true,
        }),
{
    match get_capacitor_dir() {
        Option::Some(d) => {
            let ghost dv = d@;
            let out = d.concat("/stats-cache.json");
            proof {
                assert(out@ == dv + "/stats-cache.json"@);
            }
            Option::Some(out)
        },
        Option::None => Option::None,
    }
}

/// Path of the statistics cache under an explicit storage root.
pub fn get_stats_cache_path_for(storage: &StorageConfig) -> (r: String)
    ensures
        r@ == storage.root@ + "/stats-cache.json"@,
{
    storage.stats_cache_file()
}

} // verus!
