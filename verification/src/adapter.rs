//! The agent adapter: maps stored session states to the dashboard's
//! agent-facing states and assembles session descriptions from resolver
//! answers and store snapshots.

use vstd::prelude::*;
use vstd::string::StringExecFns;

use crate::locks::{chosen_lock_idx, some_lock_answers};
use crate::resolver::{best_fb_idx, fb_hit, lock_resolution, resolve_state_with_details};
use crate::store::{spec_has_id, StateStore};
use crate::types::{record_is_fresh, view_opt_string, LockEntry, SessionState};

verus! {

/// States the dashboard displays for any agent.
#[derive(Clone, Copy, PartialEq, Eq, Structural, Debug)]
pub enum AgentState {
    Ready,
    Working,
    Waiting,
}

/// The kind of agent an adapter speaks for.
#[derive(Clone, Copy, PartialEq, Eq, Structural, Debug)]
pub enum AgentType {
    Claude,
}

/// The agent's own state vocabulary.
#[derive(Clone, Copy, PartialEq, Eq, Structural, Debug)]
pub enum ClaudeState {
    Ready,
    Working,
    Compacting,
    Blocked,
}

/// The agent-facing form of a stored session state: compaction counts as
/// working, a permission wait as blocked, and the historical `Idle` as ready.
pub open spec fn spec_claude_state_of(s: SessionState) -> ClaudeState {
    match s {
        SessionState::Working => ClaudeState::Working,
        SessionState::Ready => ClaudeState::Ready,
        SessionState::Idle => ClaudeState::Ready,
        SessionState::Compacting => ClaudeState::Compacting,
        SessionState::Waiting => ClaudeState::Blocked,
    }
}

/// Convert a stored session state to the agent's vocabulary.
pub fn claude_state_of(s: SessionState) -> (r: ClaudeState)
    ensures
        r == spec_claude_state_of(s),
{
    match s {
        SessionState::Working => ClaudeState::Working,
        SessionState::Ready => ClaudeState::Ready,
        SessionState::Idle => ClaudeState::Ready,
        SessionState::Compacting => ClaudeState::Compacting,
        SessionState::Waiting => ClaudeState::Blocked,
    }
}

/// The dashboard state for an agent state.
pub open spec fn spec_map_state(s: ClaudeState) -> AgentState {
    match s {
        ClaudeState::Ready => AgentState::Ready,
        ClaudeState::Working => AgentState::Working,
        ClaudeState::Compacting => AgentState::Working,
        ClaudeState::Blocked => AgentState::Waiting,
    }
}

/// The human-readable detail shown beside the mapped state.
pub open spec fn spec_state_detail(s: ClaudeState) -> Option<Seq<char>> {
    match s {
        ClaudeState::Compacting => Option::Some("compacting context"@),
        ClaudeState::Blocked => Option::Some("waiting for permission"@),
        _ => Option::None,
    }
}

/// One detected agent session, as the dashboard displays it.
pub struct AgentSession {
    pub agent_type: AgentType,
    pub agent_name: String,
    pub state: AgentState,
    pub session_id: Option<String>,
    pub cwd: String,
    pub detail: Option<String>,
    pub working_on: Option<String>,
    pub updated_at: Option<String>,
}

/// Adapter for the agent's on-disk artifacts under its data directory.
pub struct ClaudeAdapter {
    claude_dir: Option<String>,
}

impl ClaudeAdapter {
    /// The configured data directory, if any.
    pub closed spec fn dir_spec(&self) -> Option<Seq<char>> {
        view_opt_string(self.claude_dir)
    }

    /// An adapter rooted at the crate's dot-directory under the user's home;
    /// the directory is absent when the operating system reports no home.
    /// An installation that keeps the agent's artifacts elsewhere constructs
    /// the adapter with `with_claude_dir` instead.
    pub fn new() -> (r: ClaudeAdapter)
        ensures
            (match r.dir_spec() {
                Option::Some(p) => exists|h: Seq<char>| p == h + "/.agent"@,
                Option::None => true,
            }),
    {
        let d = crate::config::get_claude_dir();
        let r = ClaudeAdapter { claude_dir: d };
        proof {
            assert(r.dir_spec() == crate::types::view_opt_string(r.claude_dir));
        }
        r
    }

    /// An adapter rooted at an explicit directory.
    pub fn with_claude_dir(dir: String) -> (r: ClaudeAdapter)
        ensures
            r.dir_spec() == Option::Some(dir@),
    {
        ClaudeAdapter { claude_dir: Option::Some(dir) }
    }

    /// The configured data directory.
    pub fn claude_dir(&self) -> (r: &Option<String>)
        ensures
            view_opt_string(*r) == self.dir_spec(),
    {
        &self.claude_dir
    }

    /// Stable identifier of this adapter.
    pub fn id(&self) -> (r: &'static str)
        ensures
            r@ == "agent"@,
    {
        "agent"
    }

    /// Display name of the agent this adapter speaks for.
    pub fn display_name(&self) -> (r: &'static str)
        ensures
            r@ == "Coding Agent"@,
    {
        "Coding Agent"
    }

    /// The dashboard state for an agent state.
    pub fn map_state(claude_state: ClaudeState) -> (r: AgentState)
        ensures
            r == spec_map_state(claude_state),
    {
        match claude_state {
            ClaudeState::Ready => AgentState::Ready,
            ClaudeState::Working => AgentState::Working,
            ClaudeState::Compacting => AgentState::Working,
            ClaudeState::Blocked => AgentState::Waiting,
        }
    }

    /// The detail string for an agent state.
    pub fn state_detail(claude_state: ClaudeState) -> (r: Option<String>)
        ensures
            view_opt_string(r) == spec_state_detail(claude_state),
    {
        match claude_state {
            ClaudeState::Compacting => Option::Some(String::from_str("compacting context")),
            ClaudeState::Blocked => Option::Some(String::from_str("waiting for permission")),
            _ => Option::None,
        }
    }

    /// Path of the session-state file under the data directory.
    pub fn state_file_path(&self) -> (r: Option<String>)
        ensures
            (match self.dir_spec() {
                Option::Some(d) => (match r {
                    Option::Some(p) => p@ == d + "/hud-session-states-v2.json"@,
                    Option::None => false,
                }),
                Option::None => r is None,
            }),
    {
        match &self.claude_dir {
            Option::Some(d) => Option::Some(d.clone().concat("/hud-session-states-v2.json")),
            Option::None => Option::None,
        }
    }

    /// Path of the lock registry under the data directory.
    pub fn lock_dir_path(&self) -> (r: Option<String>)
        ensures
            (match self.dir_spec() {
                Option::Some(d) => (match r {
                    Option::Some(p) => p@ == d + "/sessions"@,
                    Option::None => false,
                }),
                Option::None => r is None,
            }),
    {
        match &self.claude_dir {
            Option::Some(d) => Option::Some(d.clone().concat("/sessions")),
            Option::None => Option::None,
        }
    }

    /// Detect the session answering a project path, from a lock snapshot and
    /// a store snapshot at the given instant. The resolved session's state is
    /// mapped to the dashboard vocabulary; metadata comes from the resolved
    /// session's own record, never from another session's.
    pub fn detect_session_in(
        &self,
        locks: &Vec<LockEntry>,
        store: &StateStore,
        project_path: &str,
        now: i64,
    ) -> (r: Option<AgentSession>)
        requires
            store.wf(),
        ensures
            (r is Some) == (some_lock_answers(locks@, project_path@) || fb_hit(
                store@,
                project_path@,
                now as int,
            )),
            (match r {
                Option::Some(s) => s.agent_type == AgentType::Claude && s.agent_name@
                    == "Coding Agent"@,
                Option::None => true,
            }),
            some_lock_answers(locks@, project_path@) ==> (match r {
                Option::Some(s) => exists|li: int, st: SessionState, sid: Option<Seq<char>>|
                    chosen_lock_idx(locks@, project_path@, Option::None, Option::None, li)
                        && #[trigger] lock_resolution(
                        store@,
                        locks@[li].info.path@,
                        now as int,
                        st,
                        sid,
                    )
                        && s.cwd@ == locks@[li].info.path@ && s.state == spec_map_state(
                        spec_claude_state_of(st),
                    ) && view_opt_string(s.session_id) == sid && view_opt_string(s.detail)
                        == spec_state_detail(spec_claude_state_of(st)),
                Option::None => false,
            }),
            !some_lock_answers(locks@, project_path@) ==> (match r {
                Option::Some(s) => exists|i: int|
                    #[trigger] best_fb_idx(store@, project_path@, i) && record_is_fresh(
                        store@[i],
                        now as int,
                    ) && store@[i].state != SessionState::Idle && s.cwd@ == store@[i].cwd
                        && s.state == spec_map_state(spec_claude_state_of(store@[i].state))
                        && view_opt_string(s.session_id) == Option::Some(store@[i].session_id),
                Option::None => true,
            }),
            (match r {
                Option::Some(s) => (match s.session_id {
                    Option::Some(sid) => spec_has_id(store@, sid@) ==> exists|k: int|
                        0 <= k < store@.len() && (#[trigger] store@[k]).session_id == sid@
                            && view_opt_string(s.working_on) == store@[k].working_on,
                    Option::None => s.working_on is None,
                }),
                Option::None => true,
            }),
            (match r {
                Option::Some(s) => (match s.session_id {
                    Option::Some(sid) => (match s.updated_at {
                        Option::Some(u) => exists|k: int|
                            0 <= k < store@.len() && (#[trigger] store@[k]).session_id == sid@
                                && u@ == crate::sys::rfc3339_of(store@[k].updated_at),
                        Option::None => true,
                    }),
                    Option::None => s.updated_at is None,
                }),
                Option::None => true,
            }),
    {
        let resolved = match resolve_state_with_details(locks, store, project_path, now) {
            Option::Some(res) => res,
            Option::None => {
                return Option::None;
            },
        };
        let record = match &resolved.session_id {
            Option::Some(sid) => store.get_by_session_id(sid.as_str()),
            Option::None => Option::None,
        };
        let cstate = claude_state_of(resolved.state);
        let working_on = match record {
            Option::Some(rec) => crate::types::opt_string_copy(&rec.working_on),
            Option::None => Option::None,
        };
        let updated_at = match record {
            Option::Some(rec) => crate::sys::rfc3339_utc(rec.updated_at),
            Option::None => Option::None,
        };
        Option::Some(
            AgentSession {
                agent_type: AgentType::Claude,
                agent_name: String::from_str("Coding Agent"),
                state: ClaudeAdapter::map_state(cstate),
                session_id: resolved.session_id,
                cwd: resolved.cwd,
                detail: ClaudeAdapter::state_detail(cstate),
                working_on: working_on,
                updated_at: updated_at,
            },
        )
    }

    /// Describe every stored session, in storage order.
    pub fn all_sessions_in(&self, store: &StateStore) -> (r: Vec<AgentSession>)
        requires
            store.wf(),
        ensures
            r@.len() == store@.len(),
            forall|i: int|
                0 <= i < store@.len() ==> {
                    let s = #[trigger] r@[i];
                    &&& view_opt_string(s.session_id) == Option::Some(store@[i].session_id)
                    &&& s.cwd@ == store@[i].cwd
                    &&& s.state == spec_map_state(spec_claude_state_of(store@[i].state))
                    &&& view_opt_string(s.detail) == spec_state_detail(
                        spec_claude_state_of(store@[i].state),
                    )
                    &&& view_opt_string(s.working_on) == store@[i].working_on
                },
    {
        let recs = store.all_sessions();
        let n = recs.len();
        let mut out: Vec<AgentSession> = Vec::new();
        let mut i: usize = 0;
        while i < n
            invariant
                i <= n,
                n == recs@.len(),
                n == store@.len(),
                forall|k: int| 0 <= k < store@.len() ==> (#[trigger] recs@[k])@ == store@[k],
                out@.len() == i,
                forall|k: int|
                    0 <= k < i ==> {
                        let s = #[trigger] out@[k];
                        &&& view_opt_string(s.session_id) == Option::Some(store@[k].session_id)
                        &&& s.cwd@ == store@[k].cwd
                        &&& s.state == spec_map_state(spec_claude_state_of(store@[k].state))
                        &&& view_opt_string(s.detail) == spec_state_detail(
                            spec_claude_state_of(store@[k].state),
                        )
                        &&& view_opt_string(s.working_on) == store@[k].working_on
                    },
            decreases n - i,
        {
            let rec = &recs[i];
            let cstate = claude_state_of(rec.state);
            let sess = AgentSession {
                agent_type: AgentType::Claude,
                agent_name: String::from_str("Coding Agent"),
                state: ClaudeAdapter::map_state(cstate),
                session_id: Option::Some(rec.session_id.clone()),
                cwd: rec.cwd.clone(),
                detail: ClaudeAdapter::state_detail(cstate),
                working_on: crate::types::opt_string_copy(&rec.working_on),
                updated_at: crate::sys::rfc3339_utc(rec.updated_at),
            };
            out.push(sess);
            i = i + 1;
        }
        out
    }
}

} // verus!
