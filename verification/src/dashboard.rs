//! Data carriers for the dashboard: project descriptions, statistics, plugin
//! listings, and the pinned-project configuration — with the verified pieces
//! of their handling: pinning, unpinning, and relative-time rendering.
//!
//! On-disk maps keyed by strings are carried as vectors of pairs; the
//! surrounding process layer converts them when serializing.

use vstd::prelude::*;
use vstd::string::StrSliceExecFns;
use vstd::string::StringExecFns;

use crate::paths::str_eq;

verus! {

/// The global agent configuration the dashboard shows.
pub struct GlobalConfig {
    pub settings_path: String,
    pub settings_exists: bool,
    pub instructions_path: Option<String>,
    pub skills_dir: Option<String>,
    pub commands_dir: Option<String>,
    pub agents_dir: Option<String>,
    pub skill_count: usize,
    pub command_count: usize,
    pub agent_count: usize,
}

/// One installed plugin.
pub struct Plugin {
    pub id: String,
    pub name: String,
    pub description: String,
    pub enabled: bool,
    pub path: String,
    pub skill_count: usize,
    pub command_count: usize,
    pub agent_count: usize,
    pub hook_count: usize,
}

/// Aggregated usage statistics of one project.
pub struct ProjectStats {
    pub total_input_tokens: u64,
    pub total_output_tokens: u64,
    pub total_cache_read_tokens: u64,
    pub total_cache_creation_tokens: u64,
    pub opus_messages: u32,
    pub sonnet_messages: u32,
    pub haiku_messages: u32,
    pub session_count: u32,
    pub latest_summary: Option<String>,
    pub first_activity: Option<String>,
    pub last_activity: Option<String>,
}

/// Size and modification time of one cached transcript file.
pub struct CachedFileInfo {
    pub size: u64,
    pub mtime: u64,
}

/// Cached statistics of one project with the file set they were computed
/// from.
pub struct CachedProjectStats {
    pub files: Vec<(String, CachedFileInfo)>,
    pub stats: ProjectStats,
}

/// The statistics cache, keyed by project path.
pub struct StatsCache {
    pub projects: Vec<(String, CachedProjectStats)>,
}

/// One pinned project as the dashboard lists it.
pub struct Project {
    pub name: String,
    pub path: String,
    pub display_path: String,
    pub last_active: Option<String>,
    pub claude_md_path: Option<String>,
    pub claude_md_preview: Option<String>,
    pub has_local_settings: bool,
    pub task_count: u32,
    pub stats: Option<ProjectStats>,
}

/// One conversation transcript of a project.
pub struct Task {
    pub id: String,
    pub name: String,
    pub path: String,
    pub last_modified: String,
    pub summary: Option<String>,
    pub first_message: Option<String>,
}

/// A project with its instructions, transcripts, and repository state.
pub struct ProjectDetails {
    pub project: Project,
    pub claude_md_content: Option<String>,
    pub tasks: Vec<Task>,
    pub git_branch: Option<String>,
    pub git_dirty: bool,
}

/// One skill, command, or agent definition.
pub struct Artifact {
    pub artifact_type: String,
    pub name: String,
    pub description: String,
    pub source: String,
    pub path: String,
}

/// Everything the dashboard's main view shows.
pub struct DashboardData {
    pub global: GlobalConfig,
    pub plugins: Vec<Plugin>,
    pub projects: Vec<Project>,
}

/// The dashboard's configuration: the pinned projects and the terminal to
/// launch.
pub struct HudConfig {
    pub pinned_projects: Vec<String>,
    pub terminal_app: String,
}

/// A project directory suggested for pinning.
pub struct SuggestedProject {
    pub path: String,
    pub display_path: String,
    pub name: String,
    pub task_count: u32,
    pub has_claude_md: bool,
    pub has_project_indicators: bool,
}

/// Context-window usage of one session.
pub struct ContextInfo {
    pub percent_used: u32,
    pub tokens_used: u64,
    pub context_size: u64,
    pub updated_at: Option<String>,
}

/// A project's session state as the dashboard shell publishes it.
pub struct ProjectSessionState {
    pub state: crate::types::SessionState,
    pub state_changed_at: Option<String>,
    pub session_id: Option<String>,
    pub working_on: Option<String>,
    pub next_step: Option<String>,
    pub context: Option<ContextInfo>,
}

/// Raw context-usage entry as read from the session-states file.
pub struct ContextInfoEntry {
    pub percent_used: Option<u32>,
    pub tokens_used: Option<u64>,
    pub context_size: Option<u64>,
    pub updated_at: Option<String>,
}

/// Raw per-project entry as read from the session-states file.
pub struct SessionStateEntry {
    pub state: String,
    pub state_changed_at: Option<String>,
    pub session_id: Option<String>,
    pub working_on: Option<String>,
    pub next_step: Option<String>,
    pub context: Option<ContextInfoEntry>,
}

/// The session-states file, keyed by project path.
pub struct SessionStatesFile {
    pub version: u32,
    pub projects: Vec<(String, SessionStateEntry)>,
}

/// A project's status summary as written beside the project.
pub struct ProjectStatus {
    pub working_on: Option<String>,
    pub next_step: Option<String>,
    pub status: Option<String>,
    pub blocker: Option<String>,
    pub updated_at: Option<String>,
}

/// The terminal application launched when none is configured.
pub fn default_terminal_app() -> (r: String)
    ensures
        r@ == "Ghostty"@,
{
    String::from_str("Ghostty")
}

/// Some string in the sequence has the given character content.
pub open spec fn seq_has_string(s: Seq<String>, v: Seq<char>) -> bool {
    exists|i: int| 0 <= i < s.len() && (#[trigger] s[i])@ == v
}

/// Whether a project path is already pinned.
pub fn is_pinned(config: &HudConfig, path: &str) -> (r: bool)
    ensures
        r == seq_has_string(config.pinned_projects@, path@),
{
    let n = config.pinned_projects.len();
    let mut i: usize = 0;
    while i < n
        invariant
            i <= n,
            n == config.pinned_projects@.len(),
            forall|j: int| 0 <= j < i ==> (#[trigger] config.pinned_projects@[j])@ != path@,
        decreases n - i,
    {
        if str_eq(config.pinned_projects[i].as_str(), path) {
            return true;
        }
        i = i + 1;
    }
    false
}

/// Pin a project path: appended when absent, untouched when already pinned.
pub fn add_pinned_project(config: &mut HudConfig, path: &str)
    ensures
        final(config).terminal_app == old(config).terminal_app,
        seq_has_string(old(config).pinned_projects@, path@) ==> final(config).pinned_projects@
            == old(config).pinned_projects@,
        !seq_has_string(old(config).pinned_projects@, path@) ==> {
            &&& final(config).pinned_projects@.len() == old(config).pinned_projects@.len() + 1
            &&& final(config).pinned_projects@.subrange(
                0,
                old(config).pinned_projects@.len() as int,
            ) == old(config).pinned_projects@
            &&& final(config).pinned_projects@.last()@ == path@
        },
{
    if !is_pinned(config, path) {
        config.pinned_projects.push(path.to_owned());
        proof {
            assert(final(config).pinned_projects@.subrange(
                0,
                old(config).pinned_projects@.len() as int,
            ) =~= old(config).pinned_projects@);
        }
    }
}

/// The pinned list without every occurrence of a path.
pub open spec fn without_path(s: Seq<String>, v: Seq<char>) -> Seq<String>
    decreases s.len(),
{
    if s.len() == 0 {
        s
    } else {
        let rest = without_path(s.drop_first(), v);
        if s[0]@ == v {
            rest
        } else {
            seq![s[0]] + rest
        }
    }
}

/// Unpin a project path: every entry with that content is removed, the rest
/// keep their order.
pub fn remove_pinned_project(config: &mut HudConfig, path: &str)
    ensures
        final(config).terminal_app == old(config).terminal_app,
        final(config).pinned_projects@ == without_path(old(config).pinned_projects@, path@),
{
    let ghost orig = config.pinned_projects@;
    let n = config.pinned_projects.len();
    let mut kept: Vec<String> = Vec::new();
    let mut i: usize = n;
    proof {
        assert(orig.skip(n as int) =~= Seq::<String>::empty());
    }
    while i > 0
        invariant
            i <= n,
            n == orig.len(),
            config.pinned_projects@ == orig,
            kept@ == without_path(orig.skip(i as int), path@),
        decreases i,
    {
        i = i - 1;
        proof {
            assert(orig.skip(i as int).drop_first() =~= orig.skip(i as int + 1));
            assert(orig.skip(i as int)[0] == orig[i as int]);
        }
        if !str_eq(config.pinned_projects[i].as_str(), path) {
            kept.insert(0, config.pinned_projects[i].clone());
            proof {
                assert(kept@ =~= seq![orig[i as int]] + without_path(
                    orig.skip(i as int + 1),
                    path@,
                ));
            }
        }
    }
    proof {
        assert(orig.skip(0) =~= orig);
    }
    config.pinned_projects = kept;
}

/// Decimal digit characters.
pub open spec fn digit_char(d: nat) -> char {
    if d == 0 {
        '0'
    } else if d == 1 {
        '1'
    } else if d == 2 {
        '2'
    } else if d == 3 {
        '3'
    } else if d == 4 {
        '4'
    } else if d == 5 {
        '5'
    } else if d == 6 {
        '6'
    } else if d == 7 {
        '7'
    } else if d == 8 {
        '8'
    } else {
        '9'
    }
}

/// Decimal rendering of a natural number, most significant digit first.
pub open spec fn dec_str(n: nat) -> Seq<char>
    decreases n,
{
    if n < 10 {
        seq![digit_char(n)]
    } else {
        dec_str(n / 10).push(digit_char(n % 10))
    }
}

/// The one-character string for a decimal digit.
fn digit_str(d: u64) -> (r: &'static str)
    requires
        d < 10,
    ensures
        r@ =~= seq![digit_char(d as nat)],
{
    if d == 0 {
        proof {
            reveal_strlit("0");
        }
        "0"
    } else if d == 1 {
        proof {
            reveal_strlit("1");
        }
        "1"
    } else if d == 2 {
        proof {
            reveal_strlit("2");
        }
        "2"
    } else if d == 3 {
        proof {
            reveal_strlit("3");
        }
        "3"
    } else if d == 4 {
        proof {
            reveal_strlit("4");
        }
        "4"
    } else if d == 5 {
        proof {
            reveal_strlit("5");
        }
        "5"
    } else if d == 6 {
        proof {
            reveal_strlit("6");
        }
        "6"
    } else if d == 7 {
        proof {
            reveal_strlit("7");
        }
        "7"
    } else if d == 8 {
        proof {
            reveal_strlit("8");
        }
        "8"
    } else {
        proof {
            reveal_strlit("9");
        }
        "9"
    }
}

/// Decimal rendering of a number.
pub fn u64_to_string(n: u64) -> (r: String)
    ensures
        r@ == dec_str(n as nat),
    decreases n,
{
    if n < 10 {
        digit_str(n).to_owned()
    } else {
        let mut s = u64_to_string(n / 10);
        s.append(digit_str(n % 10));
        proof {
            assert(s@ =~= dec_str((n / 10) as nat).push(digit_char((n % 10) as nat)));
        }
        s
    }
}

/// The rendered age of a timestamp: buckets of minutes, hours, days, and
/// weeks, with the singular forms the dashboard shows.
pub open spec fn spec_relative_time(secs: nat) -> Seq<char> {
    if secs < 60 {
        "just now"@
    } else if secs < 3600 {
        if secs / 60 == 1 {
            "1 minute ago"@
        } else {
            dec_str(secs / 60) + " minutes ago"@
        }
    } else if secs < 86400 {
        if secs / 3600 == 1 {
            "1 hour ago"@
        } else {
            dec_str(secs / 3600) + " hours ago"@
        }
    } else if secs < 604800 {
        if secs / 86400 == 1 {
            "yesterday"@
        } else {
            dec_str(secs / 86400) + " days ago"@
        }
    } else {
        if secs / 604800 == 1 {
            "1 week ago"@
        } else {
            dec_str(secs / 604800) + " weeks ago"@
        }
    }
}

/// Render how long ago something happened, from its age in seconds.
pub fn format_relative_time(secs: u64) -> (r: String)
    ensures
        r@ == spec_relative_time(secs as nat),
{
    if secs < 60 {
        String::from_str("just now")
    } else if secs < 3600 {
        let mins = secs / 60;
        if mins == 1 {
            String::from_str("1 minute ago")
        } else {
            u64_to_string(mins).concat(" minutes ago")
        }
    } else if secs < 86400 {
        let hours = secs / 3600;
        if hours == 1 {
            String::from_str("1 hour ago")
        } else {
            u64_to_string(hours).concat(" hours ago")
        }
    } else if secs < 604800 {
        let days = secs / 86400;
        if days == 1 {
            String::from_str("yesterday")
        } else {
            u64_to_string(days).concat(" days ago")
        }
    } else {
        let weeks = secs / 604800;
        if weeks == 1 {
            String::from_str("1 week ago")
        } else {
            u64_to_string(weeks).concat(" weeks ago")
        }
    }
}

} // verus!
