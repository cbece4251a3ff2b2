//! Locations of the dashboard shell's own configuration files, kept under
//! the agent's directory for backward compatibility.

use vstd::prelude::*;
use vstd::string::StringExecFns;

verus! {

/// Path of the dashboard's configuration file.
pub fn get_hud_config_path() -> (r: Option<String>)
    ensures
        (match r {
            Option::Some(p) => exists|d: Seq<char>| p@ == d + "/hud.json"@,
            Option::None => true,
        }),
{
    match crate::config::get_claude_dir() {
        Option::Some(d) => {
            let ghost dv = d@;
            let out = d.concat("/hud.json");
            proof {
                assert(out@ == dv + "/hud.json"@);
            }
            Option::Some(out)
        },
        Option::None => Option::None,
    }
}

/// Path of the dashboard's statistics cache.
pub fn get_stats_cache_path() -> (r: Option<String>)
    ensures
        (match r {
            Option::Some(p) => exists|d: Seq<char>| p@ == d + "/hud-stats-cache.json"@,
            Option::None => true,
        }),
{
    match crate::config::get_claude_dir() {
        Option::Some(d) => {
            let ghost dv = d@;
            let out = d.concat("/hud-stats-cache.json");
            proof {
                assert(out@ == dv + "/hud-stats-cache.json"@);
            }
            Option::Some(out)
        },
        Option::None => Option::None,
    }
}

} // verus!
