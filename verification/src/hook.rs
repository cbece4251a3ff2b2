//! The hook processor's state machine.
//!
//! Every agent lifecycle event arrives as a small JSON object on the hook's
//! standard input; the surrounding process layer parses it into a `HookInput`
//! and performs the file writes. Everything the hook decides — which event
//! the input names, whether a tombstone blocks it, what action it takes,
//! which state it writes, whether a lock holder is spawned, and in what order
//! a session's end tears its artifacts down — is verified here.

use vstd::prelude::*;

use crate::paths::str_eq;
use crate::types::SessionState;

verus! {

/// Parsed hook input: every field the agent may send, all optional. The
/// `file_path` field carries the file path that the agent nests inside a tool
/// payload, already extracted.
pub struct HookInput {
    pub hook_event_name: Option<String>,
    pub session_id: Option<String>,
    pub cwd: Option<String>,
    pub trigger: Option<String>,
    pub notification_type: Option<String>,
    pub stop_hook_active: Option<bool>,
    pub tool_name: Option<String>,
    pub tool_use_id: Option<String>,
    pub tool_input: Option<String>,
    pub tool_response: Option<String>,
    pub source: Option<String>,
    pub reason: Option<String>,
    pub agent_id: Option<String>,
    pub agent_transcript_path: Option<String>,
    pub file_path: Option<String>,
}

/// One agent lifecycle event.
pub enum HookEvent {
    SessionStart,
    UserPromptSubmit,
    PreToolUse { tool_name: Option<String> },
    PostToolUse { tool_name: Option<String>, file_path: Option<String> },
    PermissionRequest,
    PreCompact,
    Notification { notification_type: Option<String> },
    Stop { stop_hook_active: bool },
    SessionEnd,
    Unknown { event_name: String },
}

/// What the hook does to the session's record.
#[derive(PartialEq, Eq, Structural, Debug, Clone, Copy)]
pub enum Action {
    Upsert,
    Heartbeat,
    Delete,
    Skip,
}

/// The event that a hook input names, or nothing when the event name is
/// missing.
pub open spec fn spec_to_event(input: HookInput) -> Option<HookEvent> {
    match input.hook_event_name {
        Option::None => Option::None,
        Option::Some(name) => Option::Some(
            if name@ == "SessionStart"@ {
                HookEvent::SessionStart
            } else if name@ == "UserPromptSubmit"@ {
                HookEvent::UserPromptSubmit
            } else if name@ == "PreToolUse"@ {
                HookEvent::PreToolUse { tool_name: input.tool_name }
            } else if name@ == "PostToolUse"@ {
                HookEvent::PostToolUse { tool_name: input.tool_name, file_path: input.file_path }
            } else if name@ == "PermissionRequest"@ {
                HookEvent::PermissionRequest
            } else if name@ == "PreCompact"@ {
                HookEvent::PreCompact
            } else if name@ == "Notification"@ {
                HookEvent::Notification { notification_type: input.notification_type }
            } else if name@ == "Stop"@ {
                HookEvent::Stop {
                    stop_hook_active: (match input.stop_hook_active {
                        Option::Some(b) => b,
                        Option::None => false,
                    }),
                }
            } else if name@ == "SessionEnd"@ {
                HookEvent::SessionEnd
            } else {
                HookEvent::Unknown { event_name: name }
            },
        ),
    }
}

/// Copy of an optional string, for carrying payloads into an event.
fn opt_copy(o: &Option<String>) -> (r: Option<String>)
    ensures
        r == *o,
{
    match o {
        Option::Some(s) => Option::Some(s.clone()),
        Option::None => Option::None,
    }
}

impl HookInput {
    /// The event this input names; nothing when the event name is missing.
    pub fn to_event(&self) -> (r: Option<HookEvent>)
        ensures
            r == spec_to_event(*self),
    {
        let name = match &self.hook_event_name {
            Option::Some(n) => n,
            Option::None => {
                return Option::None;
            },
        };
        let ev = if str_eq(name.as_str(), "SessionStart") {
            HookEvent::SessionStart
        } else if str_eq(name.as_str(), "UserPromptSubmit") {
            HookEvent::UserPromptSubmit
        } else if str_eq(name.as_str(), "PreToolUse") {
            HookEvent::PreToolUse { tool_name: opt_copy(&self.tool_name) }
        } else if str_eq(name.as_str(), "PostToolUse") {
            HookEvent::PostToolUse {
                tool_name: opt_copy(&self.tool_name),
                file_path: opt_copy(&self.file_path),
            }
        } else if str_eq(name.as_str(), "PermissionRequest") {
            HookEvent::PermissionRequest
        } else if str_eq(name.as_str(), "PreCompact") {
            HookEvent::PreCompact
        } else if str_eq(name.as_str(), "Notification") {
            HookEvent::Notification { notification_type: opt_copy(&self.notification_type) }
        } else if str_eq(name.as_str(), "Stop") {
            HookEvent::Stop {
                stop_hook_active: (match &self.stop_hook_active {
                    Option::Some(b) => *b,
                    Option::None => false,
                }),
            }
        } else if str_eq(name.as_str(), "SessionEnd") {
            HookEvent::SessionEnd
        } else {
            HookEvent::Unknown { event_name: name.clone() }
        };
        Option::Some(ev)
    }

    /// The working directory for this event: the input's own, else the
    /// current record's, else nothing — and then the event is dropped.
    pub fn resolve_cwd(&self, current_cwd: Option<&str>) -> (r: Option<String>)
        ensures
            (self.cwd is Some) ==> r == self.cwd,
            (self.cwd is None) ==> (match current_cwd {
                Option::Some(c) => (match r {
                    Option::Some(rc) => rc@ == c@,
                    Option::None => false,
                }),
                Option::None => r is None,
            }),
    {
        match &self.cwd {
            Option::Some(c) => Option::Some(c.clone()),
            Option::None => match current_cwd {
                Option::Some(c) => Option::Some(c.to_owned()),
                Option::None => Option::None,
            },
        }
    }
}

/// States that a freshly arriving `SessionStart` must not override: the
/// session is mid-turn.
pub open spec fn active_state(state: Option<SessionState>) -> bool {
    ||| state == Option::Some(SessionState::Working)
    ||| state == Option::Some(SessionState::Waiting)
    ||| state == Option::Some(SessionState::Compacting)
}

/// Whether the session is in a state that `SessionStart` must preserve.
pub fn is_active_state(state: Option<SessionState>) -> (r: bool)
    ensures
        r == active_state(state),
{
    match state {
        Option::Some(SessionState::Working) => true,
        Option::Some(SessionState::Waiting) => true,
        Option::Some(SessionState::Compacting) => true,
        _ => false,
    }
}

/// Tools whose use counts as file activity; discovery and shell tools are
/// deliberately not tracked.
pub open spec fn tracked_tool(t: Seq<char>) -> bool {
    t == "Edit"@ || t == "Write"@ || t == "Read"@ || t == "NotebookEdit"@
}

/// The file-activity pair `(file path, tool name)` for a tool-use event:
/// present exactly when the tool is tracked and a file path was sent.
pub fn extract_file_activity(tool_name: &Option<String>, file_path: &Option<String>) -> (r: Option<
    (String, String),
>)
    ensures
        (r is Some) == ((match *tool_name {
            Option::Some(t) => tracked_tool(t@),
            Option::None => false,
        }) && file_path is Some),
        (match r {
            Option::Some(pair) => Option::Some(pair.0) == *file_path && Option::Some(pair.1)
                == *tool_name,
            Option::None => true,
        }),
{
    match (tool_name, file_path) {
        (Option::Some(t), Option::Some(f)) => {
            let is_file_tool = str_eq(t.as_str(), "Edit") || str_eq(t.as_str(), "Write")
                || str_eq(t.as_str(), "Read") || str_eq(t.as_str(), "NotebookEdit");
            if is_file_tool {
                Option::Some((f.clone(), t.clone()))
            } else {
                Option::None
            }
        },
        _ => Option::None,
    }
}

/// Outcome of a tool-use event: a heartbeat while already `Working`, else an
/// upsert to `Working`; file activity passes through either way.
pub open spec fn spec_tool_use_action(
    current_state: Option<SessionState>,
    file_activity: Option<(String, String)>,
) -> (Action, Option<SessionState>, Option<(String, String)>) {
    if current_state == Option::Some(SessionState::Working) {
        (Action::Heartbeat, Option::None, file_activity)
    } else {
        (Action::Upsert, Option::Some(SessionState::Working), file_activity)
    }
}

/// The action for a tool-use event.
pub fn tool_use_action(
    current_state: Option<SessionState>,
    file_activity: Option<(String, String)>,
) -> (r: (Action, Option<SessionState>, Option<(String, String)>))
    ensures
        r == spec_tool_use_action(current_state, file_activity),
{
    if current_state == Option::Some(SessionState::Working) {
        (Action::Heartbeat, Option::None, file_activity)
    } else {
        (Action::Upsert, Option::Some(SessionState::Working), file_activity)
    }
}

/// The hook's event table: what each event does to the record, the state it
/// writes, and the file activity it reports.
pub open spec fn spec_process_event(
    event: HookEvent,
    current_state: Option<SessionState>,
) -> (Action, Option<SessionState>, Option<(String, String)>) {
    match event {
        HookEvent::SessionStart => if active_state(current_state) {
            (Action::Skip, Option::None, Option::None)
        } else {
            (Action::Upsert, Option::Some(SessionState::Ready), Option::None)
        },
        HookEvent::UserPromptSubmit => (
            Action::Upsert,
            Option::Some(SessionState::Working),
            Option::None,
        ),
        HookEvent::PreToolUse { .. } => spec_tool_use_action(current_state, Option::None),
        HookEvent::PostToolUse { tool_name, file_path } => spec_tool_use_action(
            current_state,
            (if (match tool_name {
                Option::Some(t) => tracked_tool(t@),
                Option::None => false,
            }) && file_path is Some {
                Option::Some((file_path->0, tool_name->0))
            } else {
                Option::None
            }),
        ),
        HookEvent::PermissionRequest => (
            Action::Upsert,
            Option::Some(SessionState::Waiting),
            Option::None,
        ),
        HookEvent::PreCompact => (
            Action::Upsert,
            Option::Some(SessionState::Compacting),
            Option::None,
        ),
        HookEvent::Notification { notification_type } => (match notification_type {
            Option::Some(t) => if t@ == "idle_prompt"@ {
                (Action::Upsert, Option::Some(SessionState::Ready), Option::None)
            } else {
                (Action::Skip, Option::None, Option::None)
            },
            Option::None => (Action::Skip, Option::None, Option::None),
        }),
        HookEvent::Stop { stop_hook_active } => if stop_hook_active {
            (Action::Skip, Option::None, Option::None)
        } else {
            (Action::Upsert, Option::Some(SessionState::Ready), Option::None)
        },
        HookEvent::SessionEnd => (Action::Delete, Option::None, Option::None),
        HookEvent::Unknown { .. } => (Action::Skip, Option::None, Option::None),
    }
}

/// Decide what an event does, given the session's current state.
pub fn process_event(
    event: &HookEvent,
    current_state: Option<SessionState>,
    input: &HookInput,
) -> (r: (Action, Option<SessionState>, Option<(String, String)>))
    ensures
        r == spec_process_event(*event, current_state),
{
    let _ = input;
    match event {
        HookEvent::SessionStart => {
            if is_active_state(current_state) {
                (Action::Skip, Option::None, Option::None)
            } else {
                (Action::Upsert, Option::Some(SessionState::Ready), Option::None)
            }
        },
        HookEvent::UserPromptSubmit => (
            Action::Upsert,
            Option::Some(SessionState::Working),
            Option::None,
        ),
        HookEvent::PreToolUse { .. } => tool_use_action(current_state, Option::None),
        HookEvent::PostToolUse { tool_name, file_path } => tool_use_action(
            current_state,
            extract_file_activity(tool_name, file_path),
        ),
        HookEvent::PermissionRequest => (
            Action::Upsert,
            Option::Some(SessionState::Waiting),
            Option::None,
        ),
        HookEvent::PreCompact => (
            Action::Upsert,
            Option::Some(SessionState::Compacting),
            Option::None,
        ),
        HookEvent::Notification { notification_type } => {
            match notification_type {
                Option::Some(t) => {
                    if str_eq(t.as_str(), "idle_prompt") {
                        (Action::Upsert, Option::Some(SessionState::Ready), Option::None)
                    } else {
                        (Action::Skip, Option::None, Option::None)
                    }
                },
                Option::None => (Action::Skip, Option::None, Option::None),
            }
        },
        HookEvent::Stop { stop_hook_active } => {
            if *stop_hook_active {
                (Action::Skip, Option::None, Option::None)
            } else {
                (Action::Upsert, Option::Some(SessionState::Ready), Option::None)
            }
        },
        HookEvent::SessionEnd => (Action::Delete, Option::None, Option::None),
        HookEvent::Unknown { .. } => (Action::Skip, Option::None, Option::None),
    }
}

/// Whether a tombstone for the session blocks this event: every event is
/// blocked except `SessionStart`, which revives the session, and
/// `SessionEnd`.
pub fn tombstone_blocks(event: &HookEvent, tombstoned: bool) -> (r: bool)
    ensures
        r == (tombstoned && !(*event is SessionStart) && !(*event is SessionEnd)),
{
    tombstoned && !(matches!(event, HookEvent::SessionStart)) && !(matches!(
        event,
        HookEvent::SessionEnd,
    ))
}

/// Whether this event clears an existing tombstone: only `SessionStart`
/// does.
pub fn clears_tombstone(event: &HookEvent, tombstoned: bool) -> (r: bool)
    ensures
        r == (tombstoned && *event is SessionStart),
{
    tombstoned && matches!(event, HookEvent::SessionStart)
}

/// Whether this event establishes a session and therefore spawns the
/// lock-holder process: `SessionStart` and `UserPromptSubmit` do, even when
/// the record update itself was skipped.
pub fn should_spawn_lock_holder(event: &HookEvent) -> (r: bool)
    ensures
        r == (*event is SessionStart || *event is UserPromptSubmit),
{
    matches!(event, HookEvent::SessionStart) || matches!(event, HookEvent::UserPromptSubmit)
}

/// One step of the session-end teardown.
#[derive(PartialEq, Eq, Structural, Debug, Clone, Copy)]
pub enum EndStep {
    WriteTombstone,
    RemoveRecord,
    RemoveActivity,
    ReleaseLock,
}

/// The teardown steps for `SessionEnd`, in the order they must run. When
/// other live locks keep the session alive, only the caller's lock is
/// released and the record survives. Otherwise the tombstone is written
/// first, then the record and the activity row are removed, and the lock is
/// released last — so a reader never observes a record without a lock.
pub fn session_end_steps(preserve_record: bool) -> (r: Vec<EndStep>)
    ensures
        preserve_record ==> r@ =~= seq![EndStep::ReleaseLock],
        !preserve_record ==> r@ =~= seq![
            EndStep::WriteTombstone,
            EndStep::RemoveRecord,
            EndStep::RemoveActivity,
            EndStep::ReleaseLock,
        ],
{
    let mut steps: Vec<EndStep> = Vec::new();
    if !preserve_record {
        steps.push(EndStep::WriteTombstone);
        steps.push(EndStep::RemoveRecord);
        steps.push(EndStep::RemoveActivity);
    }
    steps.push(EndStep::ReleaseLock);
    steps
}

} // verus!
