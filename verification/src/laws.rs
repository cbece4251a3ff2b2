//! The resolver's quantified guarantees, stated and proved over the same
//! spec functions that the executable functions' contracts use.

use vstd::prelude::*;

use crate::locks::{chosen_lock_idx, some_lock_answers};
use crate::paths::{child_of, lemma_child_asymmetric, lemma_child_transitive,
    lemma_parents_comparable, lock_answers, norm_path, spec_path_match, MatchType,
    opt_match_rank};
use crate::resolver::{best_fb_idx, fb_candidate, fb_hit, lock_resolution, best_record_idx,
    record_beats, record_match};
use crate::store::store_wf;
use crate::types::{created_newer, record_is_fresh, record_is_stale, LockEntry, RecordModel,
    SessionState};

verus! {

/// Two paths are disjoint: neither is the other, and neither lies below the
/// other.
pub open spec fn paths_disjoint(a: Seq<char>, b: Seq<char>) -> bool {
    &&& norm_path(a) != norm_path(b)
    &&& !child_of(norm_path(a), norm_path(b))
    &&& !child_of(norm_path(b), norm_path(a))
}

/// Law: a lock at path X answers a query for P exactly when X is P or lies
/// strictly below P — and when every lock lies strictly above P, no lock
/// answers P at all. Parent locks never make a child path count as running.
pub proof fn law_running_direction(locks: Seq<LockEntry>, q: Seq<char>)
    ensures
        some_lock_answers(locks, q) <==> exists|i: int|
            0 <= i < locks.len() && (norm_path((#[trigger] locks[i]).info.path@) == norm_path(q)
                || child_of(norm_path(locks[i].info.path@), norm_path(q))),
        (forall|i: int|
            0 <= i < locks.len() ==> child_of(
                norm_path(q),
                norm_path((#[trigger] locks[i]).info.path@),
            )) ==> !some_lock_answers(locks, q),
{
    if (forall|i: int|
        0 <= i < locks.len() ==> child_of(
            norm_path(q),
            norm_path((#[trigger] locks[i]).info.path@),
        )) && some_lock_answers(locks, q) {
        let w = choose|i: int|
            0 <= i < locks.len() && lock_answers((#[trigger] locks[i]).info.path@, q);
        lemma_child_asymmetric(norm_path(q), norm_path(locks[w].info.path@));
        lemma_child_asymmetric(norm_path(locks[w].info.path@), norm_path(q));
        assert(false);
    }
}

/// Law: in record selection, the match kind is absolute — an exact-match
/// record beats any record whose match is weaker, however much fresher the
/// weaker one is. A stale exact match keeps its claim against a fresh parent.
pub proof fn law_exact_match_beats_fresher_parent(
    a: RecordModel,
    b: RecordModel,
    lock_path: Seq<char>,
)
    requires
        record_match(a, lock_path) == Option::Some(MatchType::Exact),
        record_match(b, lock_path) != Option::Some(MatchType::Exact),
    ensures
        record_beats(a, b, lock_path),
{
    assert(opt_match_rank(record_match(a, lock_path)) == 2);
    assert(opt_match_rank(record_match(b, lock_path)) < 2);
}

/// Law: when a lock claims exactly the query path and every other answering
/// lock was created strictly earlier, the resolver selects that exact lock.
pub proof fn law_exact_lock_selected(locks: Seq<LockEntry>, q: Seq<char>, x: int, li: int)
    requires
        0 <= x < locks.len(),
        norm_path(locks[x].info.path@) == norm_path(q),
        forall|j: int|
            0 <= j < locks.len() && j != x && lock_answers((#[trigger] locks[j]).info.path@, q)
                ==> created_newer(locks[x].info.created, locks[j].info.created),
        chosen_lock_idx(locks, q, Option::None, Option::None, li),
    ensures
        li == x,
        some_lock_answers(locks, q),
{
    assert(lock_answers(locks[x].info.path@, q));
    assert(some_lock_answers(locks, q)) by {
        assert(0 <= x < locks.len() && lock_answers((locks[x]).info.path@, q));
    }
    if li != x {
        assert(lock_answers(locks[li].info.path@, q)) by {
            assert(crate::locks::fm_matches(locks[li], q, Option::None, Option::None));
        }
        assert(created_newer(locks[x].info.created, locks[li].info.created));
        assert(crate::locks::fm_matches(locks[x], q, Option::None, Option::None));
        assert(!created_newer(locks[x].info.created, locks[li].info.created));
        assert(false);
    }
}

/// A record whose paths are disjoint from the query cannot match any lock
/// path that answers the query.
proof fn lemma_disjoint_no_path_match(rp: Seq<char>, lp: Seq<char>, q: Seq<char>)
    requires
        lock_answers(lp, q),
        paths_disjoint(rp, q),
    ensures
        spec_path_match(rp, lp) is None,
{
    let nr = norm_path(rp);
    let nl = norm_path(lp);
    let nq = norm_path(q);
    if nr == nl {
        assert(false);
    }
    if child_of(nr, nl) {
        if nl == nq {
        } else {
            lemma_child_transitive(nr, nl, nq);
        }
        assert(false);
    }
    if child_of(nl, nr) {
        if nl == nq {
        } else {
            lemma_parents_comparable(nl, nr, nq);
        }
        assert(false);
    }
}

/// Law (sibling isolation, lock-backed path): a record whose working
/// directory and project root are both disjoint from the query is never the
/// session that a lock-backed resolution names.
pub proof fn law_sibling_isolation_locked(
    locks: Seq<LockEntry>,
    records: Seq<RecordModel>,
    q: Seq<char>,
    now: int,
    li: int,
    state: SessionState,
    sid: Option<Seq<char>>,
    k: int,
)
    requires
        store_wf(records),
        chosen_lock_idx(locks, q, Option::None, Option::None, li),
        lock_resolution(records, locks[li].info.path@, now, state, sid),
        0 <= k < records.len(),
        paths_disjoint(records[k].cwd, q),
        (match records[k].project_dir {
            Option::Some(pd) => paths_disjoint(pd, q),
            Option::None => true,
        }),
    ensures
        sid != Option::Some(records[k].session_id),
{
    let lp = locks[li].info.path@;
    assert(lock_answers(lp, q)) by {
        assert(crate::locks::fm_matches(locks[li], q, Option::None, Option::None));
    }
    lemma_disjoint_no_path_match(records[k].cwd, lp, q);
    if records[k].project_dir is Some {
        lemma_disjoint_no_path_match(records[k].project_dir->0, lp, q);
    }
    assert(record_match(records[k], lp) is None);
    if sid == Option::Some(records[k].session_id) {
        assert(!(forall|j: int|
            0 <= j < records.len() ==> record_match(#[trigger] records[j], lp) is None) || !(sid
            is Some));
        let i = choose|i: int|
            #[trigger] best_record_idx(records, lp, i) && sid == Option::Some(
                records[i].session_id,
            ) && state == (if record_is_stale(records[i], now) {
                SessionState::Ready
            } else {
                records[i].state
            });
        assert(records[i].session_id == records[k].session_id);
        assert(i == k);
        assert(record_match(records[i], lp) is Some);
        assert(false);
    }
}

/// Law (sibling isolation, fallback path): a record whose working directory
/// is disjoint from the query is never a fallback candidate, so the fallback
/// never names its session.
pub proof fn law_sibling_isolation_fallback(
    records: Seq<RecordModel>,
    q: Seq<char>,
    i: int,
    k: int,
)
    requires
        store_wf(records),
        best_fb_idx(records, q, i),
        0 <= k < records.len(),
        paths_disjoint(records[k].cwd, q),
    ensures
        records[i].session_id != records[k].session_id,
{
    assert(!fb_candidate(records[k], q));
    assert(i != k);
}

/// Law: when every record is stale — older than five minutes — a lock-backed
/// resolution reports `Ready`, whatever the records claim.
pub proof fn law_stale_records_downgrade(
    records: Seq<RecordModel>,
    lock_path: Seq<char>,
    now: int,
    state: SessionState,
    sid: Option<Seq<char>>,
)
    requires
        forall|k: int| 0 <= k < records.len() ==> record_is_stale(#[trigger] records[k], now),
        lock_resolution(records, lock_path, now, state, sid),
    ensures
        state == SessionState::Ready,
{
}

/// Law: when every record is older than thirty seconds, the no-lock fallback
/// never answers; without a live lock the resolver returns nothing.
pub proof fn law_stale_no_fallback(records: Seq<RecordModel>, q: Seq<char>, now: int)
    requires
        forall|k: int| 0 <= k < records.len() ==> !record_is_fresh(#[trigger] records[k], now),
    ensures
        !fb_hit(records, q, now),
{
}

} // verus!
