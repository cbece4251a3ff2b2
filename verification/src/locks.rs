//! The lock registry, seen through a snapshot.
//!
//! On disk each lock is a directory `<hash>.lock` holding a `pid` file and
//! metadata; the hash is the MD5 digest of the lock's key — a project path or
//! a session id. The surrounding process layer scans the registry, keeps the
//! entries whose PID proves liveness (see `lock_is_alive`), and hands the
//! snapshot in. Everything decided over a snapshot — which locks answer a
//! query, which matching lock is newest, whether a session holds other locks —
//! is verified here.
//!
//! The lookup direction is deliberate: a lock at a child path makes its parent
//! paths count as running, a lock at a parent path never makes a child path
//! count as running.

use vstd::prelude::*;
use vstd::string::StringExecFns;

use crate::paths::{child_of, lock_answers, lock_path_answers, norm_path, normalize_path, str_eq,
    is_child_path};
use crate::sys::md5_hex;
use crate::types::{created_newer, created_newer_than, lock_info_copy, LockEntry, LockInfo};

verus! {

/// Ghost view of an optional borrowed string.
pub open spec fn view_opt_str(o: Option<&str>) -> Option<Seq<char>> {
    match o {
        Option::Some(s) => Option::Some(s@),
        Option::None => Option::None,
    }
}

/// Directory name of the lock with the given key: the key's MD5 digest with a
/// `.lock` suffix.
pub fn lock_dir_name(key: &str) -> (r: String)
    ensures
        r@ == md5_hex(key@) + ".lock"@,
{
    let h = crate::sys::md5_hex_digest(key);
    h.concat(".lock")
}

/// Directory name of the liveness lock a session holds: the lock is keyed by
/// the session id.
pub fn session_lock_dir_name(session_id: &str) -> (r: String)
    ensures
        r@ == md5_hex(session_id@) + ".lock"@,
{
    lock_dir_name(session_id)
}

/// Some lock in the snapshot answers the query: its path is the query path or
/// lies strictly below it.
pub open spec fn some_lock_answers(locks: Seq<LockEntry>, q: Seq<char>) -> bool {
    exists|i: int| 0 <= i < locks.len() && lock_answers((#[trigger] locks[i]).info.path@, q)
}

/// Some lock in the snapshot claims exactly the query path.
pub open spec fn some_lock_exact(locks: Seq<LockEntry>, q: Seq<char>) -> bool {
    exists|i: int|
        0 <= i < locks.len() && norm_path((#[trigger] locks[i]).info.path@) == norm_path(q)
}

/// Some lock in the snapshot claims a path strictly below the query path.
pub open spec fn some_lock_child(locks: Seq<LockEntry>, q: Seq<char>) -> bool {
    exists|i: int|
        0 <= i < locks.len() && child_of(norm_path((#[trigger] locks[i]).info.path@), norm_path(q))
}

/// Whether a live session answers the query path: a lock claims the path
/// itself or some path strictly below it. A lock strictly above the query
/// path never counts.
pub fn is_session_running(locks: &Vec<LockEntry>, project_path: &str) -> (r: bool)
    ensures
        r == some_lock_answers(locks@, project_path@),
{
    let n = locks.len();
    let mut i: usize = 0;
    while i < n
        invariant
            i <= n,
            n == locks@.len(),
            forall|j: int|
                0 <= j < i ==> !lock_answers((#[trigger] locks@[j]).info.path@, project_path@),
        decreases n - i,
    {
        if lock_path_answers(locks[i].info.path.as_str(), project_path) {
            return true;
        }
        i = i + 1;
    }
    false
}

/// The exact-match lock for the query path, if the snapshot holds one.
pub fn check_lock_for_path(locks: &Vec<LockEntry>, project_path: &str) -> (r: Option<LockInfo>)
    ensures
        (r is Some) == some_lock_exact(locks@, project_path@),
        (match r {
            Option::Some(info) => exists|i: int|
                0 <= i < locks@.len() && #[trigger] locks@[i].info@ == info@ && norm_path(
                    locks@[i].info.path@,
                ) == norm_path(project_path@),
            Option::None => true,
        }),
{
    let nq = normalize_path(project_path);
    let n = locks.len();
    let mut i: usize = 0;
    while i < n
        invariant
            i <= n,
            n == locks@.len(),
            nq@ == norm_path(project_path@),
            forall|j: int|
                0 <= j < i ==> norm_path((#[trigger] locks@[j]).info.path@) != norm_path(
                    project_path@,
                ),
        decreases n - i,
    {
        let np = normalize_path(locks[i].info.path.as_str());
        if str_eq(np.as_str(), nq.as_str()) {
            let out = lock_info_copy(&locks[i].info);
            proof {
                assert(locks@[i as int].info@ == out@);
            }
            return Option::Some(out);
        }
        i = i + 1;
    }
    Option::None
}

/// The first lock claiming a path strictly below the query path, if any.
pub fn find_child_lock(locks: &Vec<LockEntry>, project_path: &str) -> (r: Option<LockInfo>)
    ensures
        (r is Some) == some_lock_child(locks@, project_path@),
        (match r {
            Option::Some(info) => exists|i: int|
                0 <= i < locks@.len() && #[trigger] locks@[i].info@ == info@ && child_of(
                    norm_path(locks@[i].info.path@),
                    norm_path(project_path@),
                ),
            Option::None => true,
        }),
{
    let nq = normalize_path(project_path);
    let n = locks.len();
    let mut i: usize = 0;
    while i < n
        invariant
            i <= n,
            n == locks@.len(),
            nq@ == norm_path(project_path@),
            forall|j: int|
                0 <= j < i ==> !child_of(
                    norm_path((#[trigger] locks@[j]).info.path@),
                    norm_path(project_path@),
                ),
        decreases n - i,
    {
        let np = normalize_path(locks[i].info.path.as_str());
        if is_child_path(np.as_str(), nq.as_str()) {
            let out = lock_info_copy(&locks[i].info);
            proof {
                assert(locks@[i as int].info@ == out@);
            }
            return Option::Some(out);
        }
        i = i + 1;
    }
    Option::None
}

/// The answering lock for a query: an exact match when one exists, otherwise
/// the first child lock.
pub fn get_lock_info(locks: &Vec<LockEntry>, project_path: &str) -> (r: Option<LockInfo>)
    ensures
        (r is Some) == some_lock_answers(locks@, project_path@),
        (match r {
            Option::Some(info) => exists|i: int|
                0 <= i < locks@.len() && #[trigger] locks@[i].info@ == info@ && lock_answers(
                    locks@[i].info.path@,
                    project_path@,
                ),
            Option::None => true,
        }),
        some_lock_exact(locks@, project_path@) ==> (match r {
            Option::Some(info) => norm_path(info@.path) == norm_path(project_path@),
            Option::None => false,
        }),
{
    let exact = check_lock_for_path(locks, project_path);
    match exact {
        Option::Some(info) => Option::Some(info),
        Option::None => find_child_lock(locks, project_path),
    }
}

/// A lock counts for `find_matching_child_lock`: it answers the query path
/// and passes the optional PID and path filters.
pub open spec fn fm_matches(
    e: LockEntry,
    q: Seq<char>,
    pid: Option<u32>,
    cwd: Option<Seq<char>>,
) -> bool {
    &&& lock_answers(e.info.path@, q)
    &&& (match pid {
        Option::Some(p) => e.info.pid == p,
        Option::None => true,
    })
    &&& (match cwd {
        Option::Some(c) => e.info.path@ == c,
        Option::None => true,
    })
}

/// Index `i` holds the lock that `find_matching_child_lock` selects: it
/// matches, no matching lock was created strictly later, and every earlier
/// matching index was created strictly earlier.
pub open spec fn chosen_lock_idx(
    locks: Seq<LockEntry>,
    q: Seq<char>,
    pid: Option<u32>,
    cwd: Option<Seq<char>>,
    i: int,
) -> bool {
    &&& 0 <= i < locks.len()
    &&& fm_matches(locks[i], q, pid, cwd)
    &&& forall|j: int|
        0 <= j < locks.len() && #[trigger] fm_matches(locks[j], q, pid, cwd) ==> !created_newer(
            locks[j].info.created,
            locks[i].info.created,
        )
    &&& forall|j: int|
        0 <= j < i && #[trigger] fm_matches(locks[j], q, pid, cwd) ==> created_newer(
            locks[i].info.created,
            locks[j].info.created,
        )
}

/// Among the locks that answer the query path — exact or strictly below —
/// and pass the optional PID and path filters, select the one with the newest
/// creation time; the earliest entry wins a tie.
pub fn find_matching_child_lock(
    locks: &Vec<LockEntry>,
    project_path: &str,
    target_pid: Option<u32>,
    target_cwd: Option<&str>,
) -> (r: Option<LockInfo>)
    ensures
        (match r {
            Option::Some(info) => exists|i: int|
                #[trigger] chosen_lock_idx(
                    locks@,
                    project_path@,
                    target_pid,
                    view_opt_str(target_cwd),
                    i,
                ) && locks@[i].info@ == info@,
            Option::None => forall|j: int|
                0 <= j < locks@.len() ==> !fm_matches(
                    #[trigger] locks@[j],
                    project_path@,
                    target_pid,
                    view_opt_str(target_cwd),
                ),
        }),
{
    let ghost q = project_path@;
    let ghost cwdv = view_opt_str(target_cwd);
    let n = locks.len();
    let mut best: Option<usize> = Option::None;
    let mut i: usize = 0;
    while i < n
        invariant
            i <= n,
            n == locks@.len(),
            q == project_path@,
            cwdv == view_opt_str(target_cwd),
            (match best {
                Option::Some(b) => b < i && fm_matches(locks@[b as int], q, target_pid, cwdv) && (
                forall|j: int|
                    0 <= j < i && #[trigger] fm_matches(locks@[j], q, target_pid, cwdv)
                        ==> !created_newer(
                        locks@[j].info.created,
                        locks@[b as int].info.created,
                    )) && (forall|j: int|
                    0 <= j < b && #[trigger] fm_matches(locks@[j], q, target_pid, cwdv)
                        ==> created_newer(
                        locks@[b as int].info.created,
                        locks@[j].info.created,
                    )),
                Option::None => forall|j: int|
                    0 <= j < i ==> !fm_matches(#[trigger] locks@[j], q, target_pid, cwdv),
            }),
        decreases n - i,
    {
        let answers = lock_path_answers(locks[i].info.path.as_str(), project_path);
        let pid_ok = match target_pid {
            Option::Some(p) => locks[i].info.pid == p,
            Option::None => true,
        };
        let cwd_ok = match target_cwd {
            Option::Some(c) => str_eq(locks[i].info.path.as_str(), c),
            Option::None => true,
        };
        if answers && pid_ok && cwd_ok {
            assert(fm_matches(locks@[i as int], q, target_pid, cwdv));
            match best {
                Option::None => {
                    best = Option::Some(i);
                },
                Option::Some(b) => {
                    if created_newer_than(&locks[i].info.created, &locks[b].info.created) {
                        best = Option::Some(i);
                    }
                },
            }
        } else {
            assert(!fm_matches(locks@[i as int], q, target_pid, cwdv));
        }
        i = i + 1;
    }
    match best {
        Option::Some(b) => {
            proof {
                assert(chosen_lock_idx(locks@, q, target_pid, cwdv, b as int));
            }
            Option::Some(lock_info_copy(&locks[b].info))
        },
        Option::None => Option::None,
    }
}

/// A lock entry belongs to the given session but a different process.
pub open spec fn other_session_lock(e: LockEntry, session_id: Seq<char>, pid: u32) -> bool {
    e.dir_name@ == md5_hex(session_id) + ".lock"@ && e.info.pid != pid
}

/// Whether the snapshot holds live locks for this session held by a process
/// other than the given one; when it does, the session's record survives that
/// process's end.
pub fn count_other_session_locks(locks: &Vec<LockEntry>, session_id: &str, pid: u32) -> (r: usize)
    ensures
        (r > 0) == exists|i: int|
            0 <= i < locks@.len() && other_session_lock(#[trigger] locks@[i], session_id@, pid),
{
    let dname = session_lock_dir_name(session_id);
    let n = locks.len();
    let mut count: usize = 0;
    let mut i: usize = 0;
    while i < n
        invariant
            i <= n,
            n == locks@.len(),
            dname@ == md5_hex(session_id@) + ".lock"@,
            count <= i,
            (count > 0) == exists|j: int|
                0 <= j < i && other_session_lock(#[trigger] locks@[j], session_id@, pid),
        decreases n - i,
    {
        if str_eq(locks[i].dir_name.as_str(), dname.as_str()) && locks[i].info.pid != pid {
            assert(other_session_lock(locks@[i as int], session_id@, pid));
            count = count + 1;
        }
        i = i + 1;
    }
    count
}

/// Whether releasing this lock on behalf of the given session and process is
/// allowed: the directory is the session's lock and the recorded PID matches.
pub fn lock_release_allowed(entry: &LockEntry, session_id: &str, pid: u32) -> (r: bool)
    ensures
        r == (entry.dir_name@ == md5_hex(session_id@) + ".lock"@ && entry.info.pid == pid),
{
    let dname = session_lock_dir_name(session_id);
    str_eq(entry.dir_name.as_str(), dname.as_str()) && entry.info.pid == pid
}

} // verus!
