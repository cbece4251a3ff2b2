//! Data model: session states, session records, lock metadata, and the
//! resolver's answer type.
//!
//! Timestamps are seconds since the Unix epoch. Each executable type has a
//! ghost model over character sequences and mathematical integers, reached
//! through its view; all contracts speak about those models.

use vstd::prelude::*;

verus! {

/// Seconds after which a stored record no longer counts as live metadata:
/// lock-backed resolution then downgrades its state to `Ready`.
pub const STALE_RECORD_SECS: i64 = 300;

/// Seconds during which a record may answer a query without any live lock.
pub const FRESH_RECORD_SECS: i64 = 30;

/// State of one agent session. `Idle` is a historical terminal state that the
/// fresh-record fallback never surfaces.
#[derive(Clone, Copy, PartialEq, Eq, Structural, Debug)]
pub enum SessionState {
    Working,
    Ready,
    Idle,
    Compacting,
    Waiting,
}

/// Ghost view of an `Option<String>`.
pub open spec fn view_opt_string(o: Option<String>) -> Option<Seq<char>> {
    match o {
        Option::Some(s) => Option::Some(s@),
        Option::None => Option::None,
    }
}

/// Most recent hook event observed for a session; debugging metadata carried
/// through record updates unchanged.
pub struct LastEvent {
    pub hook_event_name: Option<String>,
    pub at: Option<i64>,
    pub tool_name: Option<String>,
    pub tool_use_id: Option<String>,
    pub notification_type: Option<String>,
    pub trigger: Option<String>,
    pub source: Option<String>,
    pub reason: Option<String>,
    pub stop_hook_active: Option<bool>,
    pub agent_id: Option<String>,
    pub agent_transcript_path: Option<String>,
}

pub ghost struct LastEventModel {
    pub hook_event_name: Option<Seq<char>>,
    pub at: Option<i64>,
    pub tool_name: Option<Seq<char>>,
    pub tool_use_id: Option<Seq<char>>,
    pub notification_type: Option<Seq<char>>,
    pub trigger: Option<Seq<char>>,
    pub source: Option<Seq<char>>,
    pub reason: Option<Seq<char>>,
    pub stop_hook_active: Option<bool>,
    pub agent_id: Option<Seq<char>>,
    pub agent_transcript_path: Option<Seq<char>>,
}

impl View for LastEvent {
    type V = LastEventModel;

    open spec fn view(&self) -> LastEventModel {
        LastEventModel {
            hook_event_name: view_opt_string(self.hook_event_name),
            at: self.at,
            tool_name: view_opt_string(self.tool_name),
            tool_use_id: view_opt_string(self.tool_use_id),
            notification_type: view_opt_string(self.notification_type),
            trigger: view_opt_string(self.trigger),
            source: view_opt_string(self.source),
            reason: view_opt_string(self.reason),
            stop_hook_active: self.stop_hook_active,
            agent_id: view_opt_string(self.agent_id),
            agent_transcript_path: view_opt_string(self.agent_transcript_path),
        }
    }
}

/// Ghost view of an `Option<LastEvent>`.
pub open spec fn view_opt_event(o: Option<LastEvent>) -> Option<LastEventModel> {
    match o {
        Option::Some(e) => Option::Some(e@),
        Option::None => Option::None,
    }
}

/// One session's persisted description: last known state, working directory,
/// and timestamps, keyed by its session id.
pub struct SessionRecord {
    pub session_id: String,
    pub state: SessionState,
    pub cwd: String,
    pub updated_at: i64,
    pub state_changed_at: i64,
    pub working_on: Option<String>,
    pub transcript_path: Option<String>,
    pub permission_mode: Option<String>,
    pub project_dir: Option<String>,
    pub last_event: Option<LastEvent>,
    pub active_subagent_count: u32,
}

pub ghost struct RecordModel {
    pub session_id: Seq<char>,
    pub state: SessionState,
    pub cwd: Seq<char>,
    pub updated_at: int,
    pub state_changed_at: int,
    pub working_on: Option<Seq<char>>,
    pub transcript_path: Option<Seq<char>>,
    pub permission_mode: Option<Seq<char>>,
    pub project_dir: Option<Seq<char>>,
    pub last_event: Option<LastEventModel>,
    pub active_subagent_count: u32,
}

impl View for SessionRecord {
    type V = RecordModel;

    open spec fn view(&self) -> RecordModel {
        RecordModel {
            session_id: self.session_id@,
            state: self.state,
            cwd: self.cwd@,
            updated_at: self.updated_at as int,
            state_changed_at: self.state_changed_at as int,
            working_on: view_opt_string(self.working_on),
            transcript_path: view_opt_string(self.transcript_path),
            permission_mode: view_opt_string(self.permission_mode),
            project_dir: view_opt_string(self.project_dir),
            last_event: view_opt_event(self.last_event),
            active_subagent_count: self.active_subagent_count,
        }
    }
}

/// A record is stale when its last update lies more than five minutes in the
/// past; a stale record's state is no longer trusted.
pub open spec fn record_is_stale(r: RecordModel, now: int) -> bool {
    now - r.updated_at > STALE_RECORD_SECS
}

/// A record is fresh enough to answer a query without a lock when its last
/// update lies at most thirty seconds in the past; a future timestamp is
/// trusted as fresh.
pub open spec fn record_is_fresh(r: RecordModel, now: int) -> bool {
    now - r.updated_at <= FRESH_RECORD_SECS
}

impl SessionRecord {
    /// Staleness of this record at the given instant.
    pub fn is_stale_at(&self, now: i64) -> (r: bool)
        ensures
            r == record_is_stale(self@, now as int),
    {
        (now as i128) - (self.updated_at as i128) > (STALE_RECORD_SECS as i128)
    }

    /// Freshness of this record at the given instant, for the no-lock
    /// fallback.
    pub fn is_fresh_at(&self, now: i64) -> (r: bool)
        ensures
            r == record_is_fresh(self@, now as int),
    {
        (now as i128) - (self.updated_at as i128) <= (FRESH_RECORD_SECS as i128)
    }

    /// Staleness of this record against the wall clock. The clock's reading
    /// cannot be pinned down, so callers that need a contract use
    /// `is_stale_at`.
    pub fn is_stale(&self) -> bool {
        self.is_stale_at(crate::sys::now_unix())
    }
}

/// Metadata of one liveness lock: the process proving liveness and the
/// project path the lock claims.
pub struct LockInfo {
    pub pid: u32,
    pub path: String,
    pub proc_started: Option<u64>,
    pub created: Option<u64>,
}

pub ghost struct LockInfoModel {
    pub pid: u32,
    pub path: Seq<char>,
    pub proc_started: Option<u64>,
    pub created: Option<u64>,
}

impl View for LockInfo {
    type V = LockInfoModel;

    open spec fn view(&self) -> LockInfoModel {
        LockInfoModel {
            pid: self.pid,
            path: self.path@,
            proc_started: self.proc_started,
            created: self.created,
        }
    }
}

/// One live lock as seen in a registry snapshot: the lock directory's name
/// together with the metadata stored inside it.
pub struct LockEntry {
    pub dir_name: String,
    pub info: LockInfo,
}

pub ghost struct LockEntryModel {
    pub dir_name: Seq<char>,
    pub info: LockInfoModel,
}

impl View for LockEntry {
    type V = LockEntryModel;

    open spec fn view(&self) -> LockEntryModel {
        LockEntryModel { dir_name: self.dir_name@, info: self.info@ }
    }
}

/// `a` was created strictly later than `b`; a missing creation time counts as
/// oldest.
pub open spec fn created_newer(a: Option<u64>, b: Option<u64>) -> bool {
    match (a, b) {
        (Option::Some(x), Option::Some(y)) => x > y,
        (Option::Some(_), Option::None) => true,
        _ => false,
    }
}

/// Executable form of `created_newer`.
pub fn created_newer_than(a: &Option<u64>, b: &Option<u64>) -> (r: bool)
    ensures
        r == created_newer(*a, *b),
{
    match (a, b) {
        (Option::Some(x), Option::Some(y)) => *x > *y,
        (Option::Some(_), Option::None) => true,
        _ => false,
    }
}

/// A lock is alive when its directory is present, the signal-zero probe of
/// its PID succeeds, and — when the lock recorded its process start time —
/// the operating system reports the same start time for that PID.
pub open spec fn lock_alive_spec(
    dir_present: bool,
    pid_probe_ok: bool,
    recorded_start: Option<u64>,
    os_start: Option<u64>,
) -> bool {
    dir_present && pid_probe_ok && (match recorded_start {
        Option::Some(s) => os_start == Option::Some(s),
        Option::None => true,
    })
}

/// Decide lock liveness from the observations that only the surrounding
/// process layer can make: whether the directory exists, whether the PID
/// answers a zero signal, and the OS-reported process start time.
pub fn lock_is_alive(
    dir_present: bool,
    pid_probe_ok: bool,
    recorded_start: &Option<u64>,
    os_start: &Option<u64>,
) -> (r: bool)
    ensures
        r == lock_alive_spec(dir_present, pid_probe_ok, *recorded_start, *os_start),
{
    dir_present && pid_probe_ok && (match recorded_start {
        Option::Some(s) => match os_start {
            Option::Some(o) => *o == *s,
            Option::None => false,
        },
        Option::None => true,
    })
}

/// Copy of an optional string.
pub fn opt_string_copy(o: &Option<String>) -> (r: Option<String>)
    ensures
        r == *o,
{
    match o {
        Option::Some(s) => Option::Some(s.clone()),
        Option::None => Option::None,
    }
}

/// Copy of a last-event payload.
pub fn last_event_copy(e: &LastEvent) -> (r: LastEvent)
    ensures
        r == *e,
{
    LastEvent {
        hook_event_name: opt_string_copy(&e.hook_event_name),
        at: e.at,
        tool_name: opt_string_copy(&e.tool_name),
        tool_use_id: opt_string_copy(&e.tool_use_id),
        notification_type: opt_string_copy(&e.notification_type),
        trigger: opt_string_copy(&e.trigger),
        source: opt_string_copy(&e.source),
        reason: opt_string_copy(&e.reason),
        stop_hook_active: e.stop_hook_active,
        agent_id: opt_string_copy(&e.agent_id),
        agent_transcript_path: opt_string_copy(&e.agent_transcript_path),
    }
}

/// Copy of an optional last-event payload.
pub fn opt_event_copy(o: &Option<LastEvent>) -> (r: Option<LastEvent>)
    ensures
        r == *o,
{
    match o {
        Option::Some(e) => Option::Some(last_event_copy(e)),
        Option::None => Option::None,
    }
}

/// Copy of a session record.
pub fn record_copy(rec: &SessionRecord) -> (r: SessionRecord)
    ensures
        r == *rec,
{
    SessionRecord {
        session_id: rec.session_id.clone(),
        state: rec.state,
        cwd: rec.cwd.clone(),
        updated_at: rec.updated_at,
        state_changed_at: rec.state_changed_at,
        working_on: opt_string_copy(&rec.working_on),
        transcript_path: opt_string_copy(&rec.transcript_path),
        permission_mode: opt_string_copy(&rec.permission_mode),
        project_dir: opt_string_copy(&rec.project_dir),
        last_event: opt_event_copy(&rec.last_event),
        active_subagent_count: rec.active_subagent_count,
    }
}

/// Copy of lock metadata.
pub fn lock_info_copy(info: &LockInfo) -> (r: LockInfo)
    ensures
        r == *info,
{
    LockInfo {
        pid: info.pid,
        path: info.path.clone(),
        proc_started: info.proc_started,
        created: info.created,
    }
}

/// The resolver's answer for a project query.
pub struct ResolvedState {
    pub state: SessionState,
    pub session_id: Option<String>,
    /// Effective working directory of the answering session: the lock's
    /// claimed path, or the record's directory in the no-lock fallback.
    pub cwd: String,
    /// Whether the answer is lock-backed (`true`) or comes from the
    /// fresh-record fallback (`false`).
    pub is_from_lock: bool,
}

pub ghost struct ResolvedModel {
    pub state: SessionState,
    pub session_id: Option<Seq<char>>,
    pub cwd: Seq<char>,
    pub is_from_lock: bool,
}

impl View for ResolvedState {
    type V = ResolvedModel;

    open spec fn view(&self) -> ResolvedModel {
        ResolvedModel {
            state: self.state,
            session_id: view_opt_string(self.session_id),
            cwd: self.cwd@,
            is_from_lock: self.is_from_lock,
        }
    }
}

} // verus!
