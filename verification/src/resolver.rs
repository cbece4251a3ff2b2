//! The session-state resolver: locks decide liveness, records supply state.
//!
//! For a query path the resolver first asks the lock registry. When a live
//! lock answers — exact match or child — the newest such lock is selected and
//! the best record for the lock's path supplies state and identity; a stale
//! record keeps its identity but its state is downgraded to `Ready`. Records
//! are ranked by match kind first (`Exact > Child > Parent`, across both
//! `cwd` and `project_dir`), then by `updated_at`, then by session id, so a
//! stale exact match is never stolen by a fresher parent record.
//!
//! Without a lock, a record may still answer if its directory matches the
//! query exactly or from strictly below, it was updated within the last
//! thirty seconds, and its state is not `Idle`. Parent records never answer
//! here: a session at `/home` must not claim a query for `/home/project`.

use vstd::prelude::*;

use crate::locks::{chosen_lock_idx, find_matching_child_lock, fm_matches, is_session_running,
    some_lock_answers};
use crate::paths::{lex_gt, lemma_lex_irreflexive, lemma_lex_total, lemma_lex_transitive,
    opt_match_rank, path_match_type, spec_path_match, MatchType};
use crate::store::StateStore;
use crate::types::{record_is_fresh, record_is_stale, LockEntry, RecordModel, ResolvedState,
    SessionRecord, SessionState};

verus! {

/// Strongest relation of a record to a lock path, considering both the
/// record's working directory and its project root hint.
pub open spec fn record_match(rec: RecordModel, lock_path: Seq<char>) -> Option<MatchType> {
    let c = spec_path_match(rec.cwd, lock_path);
    let p = match rec.project_dir {
        Option::Some(pd) => spec_path_match(pd, lock_path),
        Option::None => Option::None,
    };
    if opt_match_rank(p) > opt_match_rank(c) {
        p
    } else {
        c
    }
}

/// Strict preference order among records matched against a lock path:
/// stronger match kind first, then later update, then greater session id.
pub open spec fn record_beats(a: RecordModel, b: RecordModel, lock_path: Seq<char>) -> bool {
    let ra = opt_match_rank(record_match(a, lock_path));
    let rb = opt_match_rank(record_match(b, lock_path));
    ||| ra > rb
    ||| (ra == rb && a.updated_at > b.updated_at)
    ||| (ra == rb && a.updated_at == b.updated_at && lex_gt(a.session_id, b.session_id))
}

/// Index `i` holds the record that the lock-backed resolution associates with
/// the lock path: it matches, and it beats every other matching record.
pub open spec fn best_record_idx(records: Seq<RecordModel>, lock_path: Seq<char>, i: int) -> bool {
    &&& 0 <= i < records.len()
    &&& record_match(records[i], lock_path) is Some
    &&& forall|j: int|
        0 <= j < records.len() && j != i && record_match(#[trigger] records[j], lock_path) is Some
            ==> record_beats(records[i], records[j], lock_path)
}

/// A record may answer the no-lock fallback for a query: its directory is the
/// query path or lies strictly below it. Parent matches are excluded.
pub open spec fn fb_candidate(rec: RecordModel, q: Seq<char>) -> bool {
    spec_path_match(rec.cwd, q) == Option::Some(MatchType::Exact) || spec_path_match(rec.cwd, q)
        == Option::Some(MatchType::Child)
}

/// Strict preference order among fallback candidates: later update first,
/// then greater session id.
pub open spec fn fb_beats(a: RecordModel, b: RecordModel) -> bool {
    a.updated_at > b.updated_at || (a.updated_at == b.updated_at && lex_gt(
        a.session_id,
        b.session_id,
    ))
}

/// Index `i` holds the record that the fallback considers: a candidate that
/// beats every other candidate.
pub open spec fn best_fb_idx(records: Seq<RecordModel>, q: Seq<char>, i: int) -> bool {
    &&& 0 <= i < records.len()
    &&& fb_candidate(records[i], q)
    &&& forall|j: int|
        0 <= j < records.len() && j != i && fb_candidate(#[trigger] records[j], q) ==> fb_beats(
            records[i],
            records[j],
        )
}

/// The record-preference order never holds both ways.
pub proof fn lemma_record_beats_asym(a: RecordModel, b: RecordModel, lock_path: Seq<char>)
    ensures
        !(record_beats(a, b, lock_path) && record_beats(b, a, lock_path)),
{
    if record_beats(a, b, lock_path) && record_beats(b, a, lock_path) {
        if lex_gt(a.session_id, b.session_id) && lex_gt(b.session_id, a.session_id) {
            lemma_lex_transitive(a.session_id, b.session_id, a.session_id);
            lemma_lex_irreflexive(a.session_id);
        }
    }
}

/// The record-preference order is transitive.
pub proof fn lemma_record_beats_trans(
    a: RecordModel,
    b: RecordModel,
    c: RecordModel,
    lock_path: Seq<char>,
)
    requires
        record_beats(a, b, lock_path),
        record_beats(b, c, lock_path),
    ensures
        record_beats(a, c, lock_path),
{
    if lex_gt(a.session_id, b.session_id) && lex_gt(b.session_id, c.session_id) {
        lemma_lex_transitive(a.session_id, b.session_id, c.session_id);
    }
}

/// Records with distinct session ids are strictly ordered one way or the
/// other.
pub proof fn lemma_record_beats_total(a: RecordModel, b: RecordModel, lock_path: Seq<char>)
    requires
        a.session_id != b.session_id,
    ensures
        record_beats(a, b, lock_path) || record_beats(b, a, lock_path),
{
    lemma_lex_total(a.session_id, b.session_id);
}

/// The fallback-preference order never holds both ways.
pub proof fn lemma_fb_beats_asym(a: RecordModel, b: RecordModel)
    ensures
        !(fb_beats(a, b) && fb_beats(b, a)),
{
    if fb_beats(a, b) && fb_beats(b, a) {
        if lex_gt(a.session_id, b.session_id) && lex_gt(b.session_id, a.session_id) {
            lemma_lex_transitive(a.session_id, b.session_id, a.session_id);
            lemma_lex_irreflexive(a.session_id);
        }
    }
}

/// The fallback-preference order is transitive.
pub proof fn lemma_fb_beats_trans(a: RecordModel, b: RecordModel, c: RecordModel)
    requires
        fb_beats(a, b),
        fb_beats(b, c),
    ensures
        fb_beats(a, c),
{
    if lex_gt(a.session_id, b.session_id) && lex_gt(b.session_id, c.session_id) {
        lemma_lex_transitive(a.session_id, b.session_id, c.session_id);
    }
}

/// Fallback candidates with distinct session ids are strictly ordered.
pub proof fn lemma_fb_beats_total(a: RecordModel, b: RecordModel)
    requires
        a.session_id != b.session_id,
    ensures
        fb_beats(a, b) || fb_beats(b, a),
{
    lemma_lex_total(a.session_id, b.session_id);
}

/// In a store with distinct session ids the best record for a lock path is
/// unique.
pub proof fn lemma_best_record_unique(
    records: Seq<RecordModel>,
    lock_path: Seq<char>,
    i: int,
    j: int,
)
    requires
        crate::store::store_wf(records),
        best_record_idx(records, lock_path, i),
        best_record_idx(records, lock_path, j),
    ensures
        i == j,
{
    if i != j {
        assert(record_beats(records[i], records[j], lock_path));
        assert(record_beats(records[j], records[i], lock_path));
        lemma_record_beats_asym(records[i], records[j], lock_path);
    }
}

/// In a store with distinct session ids the best fallback candidate is
/// unique.
pub proof fn lemma_best_fb_unique(records: Seq<RecordModel>, q: Seq<char>, i: int, j: int)
    requires
        crate::store::store_wf(records),
        best_fb_idx(records, q, i),
        best_fb_idx(records, q, j),
    ensures
        i == j,
{
    if i != j {
        assert(fb_beats(records[i], records[j]));
        assert(fb_beats(records[j], records[i]));
        lemma_fb_beats_asym(records[i], records[j]);
    }
}

/// Rank of an optional match kind as a machine integer.
fn match_rank_opt(m: &Option<MatchType>) -> (r: i8)
    ensures
        r as int == opt_match_rank(*m),
{
    match m {
        Option::None => -1,
        Option::Some(MatchType::Parent) => 0,
        Option::Some(MatchType::Child) => 1,
        Option::Some(MatchType::Exact) => 2,
    }
}

/// Strongest relation of a record to a lock path.
fn record_match_exec(rec: &SessionRecord, lock_path: &str) -> (r: Option<MatchType>)
    ensures
        r == record_match(rec@, lock_path@),
{
    let c = path_match_type(rec.cwd.as_str(), lock_path);
    let p = match &rec.project_dir {
        Option::Some(pd) => path_match_type(pd.as_str(), lock_path),
        Option::None => Option::None,
    };
    if match_rank_opt(&p) > match_rank_opt(&c) {
        p
    } else {
        c
    }
}

/// Whether `a` is preferred over `b` for the given lock path.
fn record_beats_exec(a: &SessionRecord, b: &SessionRecord, lock_path: &str) -> (r: bool)
    ensures
        r == record_beats(a@, b@, lock_path@),
{
    let ma = record_match_exec(a, lock_path);
    let mb = record_match_exec(b, lock_path);
    let ra = match_rank_opt(&ma);
    let rb = match_rank_opt(&mb);
    if ra > rb {
        true
    } else if ra < rb {
        false
    } else if a.updated_at > b.updated_at {
        true
    } else if a.updated_at < b.updated_at {
        false
    } else {
        crate::paths::str_lex_gt(a.session_id.as_str(), b.session_id.as_str())
    }
}

/// The record to associate with a lock path: the strongest match, then the
/// freshest, then the greatest session id.
pub fn find_record_for_lock_path<'a>(store: &'a StateStore, lock_path: &str) -> (r: Option<
    &'a SessionRecord,
>)
    requires
        store.wf(),
    ensures
        (match r {
            Option::Some(rec) => exists|i: int|
                #[trigger] best_record_idx(store@, lock_path@, i) && store@[i] == rec@,
            Option::None => forall|j: int|
                0 <= j < store@.len() ==> record_match(#[trigger] store@[j], lock_path@) is None,
        }),
{
    let recs = store.all_sessions();
    let n = recs.len();
    let mut best: Option<usize> = Option::None;
    let mut i: usize = 0;
    while i < n
        invariant
            i <= n,
            n == recs@.len(),
            n == store@.len(),
            store.wf(),
            forall|k: int| 0 <= k < store@.len() ==> (#[trigger] recs@[k])@ == store@[k],
            (match best {
                Option::Some(b) => b < i && record_match(store@[b as int], lock_path@) is Some && (
                forall|j: int|
                    0 <= j < i && j != b && record_match(
                        #[trigger] store@[j],
                        lock_path@,
                    ) is Some ==> record_beats(store@[b as int], store@[j], lock_path@)),
                Option::None => forall|j: int|
                    0 <= j < i ==> record_match(#[trigger] store@[j], lock_path@) is None,
            }),
        decreases n - i,
    {
        let m = record_match_exec(&recs[i], lock_path);
        if m.is_some() {
            match best {
                Option::None => {
                    best = Option::Some(i);
                },
                Option::Some(b) => {
                    if record_beats_exec(&recs[i], &recs[b], lock_path) {
                        proof {
                            assert forall|j: int|
                                0 <= j < i + 1 && j != i && record_match(
                                    #[trigger] store@[j],
                                    lock_path@,
                                ) is Some implies record_beats(
                                store@[i as int],
                                store@[j],
                                lock_path@,
                            ) by {
                                if j != b {
                                    lemma_record_beats_trans(
                                        store@[i as int],
                                        store@[b as int],
                                        store@[j],
                                        lock_path@,
                                    );
                                }
                            }
                        }
                        best = Option::Some(i);
                    } else {
                        proof {
                            lemma_record_beats_total(
                                store@[b as int],
                                store@[i as int],
                                lock_path@,
                            );
                        }
                    }
                },
            }
        }
        i = i + 1;
    }
    match best {
        Option::Some(b) => {
            proof {
                assert(best_record_idx(store@, lock_path@, b as int));
            }
            Option::Some(&recs[b])
        },
        Option::None => Option::None,
    }
}

/// The fallback record for a query: among records whose directory matches the
/// query exactly or from strictly below, the freshest, then the greatest
/// session id. Parent matches never answer.
pub fn find_exact_or_child_record<'a>(store: &'a StateStore, project_path: &str) -> (r: Option<
    &'a SessionRecord,
>)
    requires
        store.wf(),
    ensures
        (match r {
            Option::Some(rec) => exists|i: int|
                #[trigger] best_fb_idx(store@, project_path@, i) && store@[i] == rec@,
            Option::None => forall|j: int|
                0 <= j < store@.len() ==> !fb_candidate(#[trigger] store@[j], project_path@),
        }),
{
    let recs = store.all_sessions();
    let n = recs.len();
    let mut best: Option<usize> = Option::None;
    let mut i: usize = 0;
    while i < n
        invariant
            i <= n,
            n == recs@.len(),
            n == store@.len(),
            store.wf(),
            forall|k: int| 0 <= k < store@.len() ==> (#[trigger] recs@[k])@ == store@[k],
            (match best {
                Option::Some(b) => b < i && fb_candidate(store@[b as int], project_path@) && (
                forall|j: int|
                    0 <= j < i && j != b && fb_candidate(#[trigger] store@[j], project_path@)
                        ==> fb_beats(store@[b as int], store@[j])),
                Option::None => forall|j: int|
                    0 <= j < i ==> !fb_candidate(#[trigger] store@[j], project_path@),
            }),
        decreases n - i,
    {
        let m = path_match_type(recs[i].cwd.as_str(), project_path);
        let is_cand = match m {
            Option::Some(MatchType::Exact) => true,
            Option::Some(MatchType::Child) => true,
            _ => false,
        };
        proof {
            assert(is_cand == fb_candidate(store@[i as int], project_path@));
        }
        if is_cand {
            match best {
                Option::None => {
                    best = Option::Some(i);
                },
                Option::Some(b) => {
                    let newer = if recs[i].updated_at > recs[b].updated_at {
                        true
                    } else if recs[i].updated_at < recs[b].updated_at {
                        false
                    } else {
                        crate::paths::str_lex_gt(
                            recs[i].session_id.as_str(),
                            recs[b].session_id.as_str(),
                        )
                    };
                    if newer {
                        proof {
                            assert forall|j: int|
                                0 <= j < i + 1 && j != i && fb_candidate(
                                    #[trigger] store@[j],
                                    project_path@,
                                ) implies fb_beats(store@[i as int], store@[j]) by {
                                if j != b {
                                    lemma_fb_beats_trans(
                                        store@[i as int],
                                        store@[b as int],
                                        store@[j],
                                    );
                                }
                            }
                        }
                        best = Option::Some(i);
                    } else {
                        proof {
                            lemma_fb_beats_total(store@[b as int], store@[i as int]);
                        }
                    }
                },
            }
        }
        i = i + 1;
    }
    match best {
        Option::Some(b) => {
            proof {
                assert(best_fb_idx(store@, project_path@, b as int));
            }
            Option::Some(&recs[b])
        },
        Option::None => Option::None,
    }
}

/// What the lock-backed resolution reports, given the store, the selected
/// lock path, and the instant: with no matching record the state is `Ready`
/// and no session is named; with a best record, that record's identity is
/// kept and its state is reported unless the record is stale, in which case
/// the state downgrades to `Ready`.
pub open spec fn lock_resolution(
    records: Seq<RecordModel>,
    lock_path: Seq<char>,
    now: int,
    state: SessionState,
    session_id: Option<Seq<char>>,
) -> bool {
    ||| ((forall|j: int|
        0 <= j < records.len() ==> record_match(#[trigger] records[j], lock_path) is None) && state
        == SessionState::Ready && session_id is None)
    ||| (exists|i: int|
        #[trigger] best_record_idx(records, lock_path, i) && session_id == Option::Some(
            records[i].session_id,
        ) && state == (if record_is_stale(records[i], now) {
            SessionState::Ready
        } else {
            records[i].state
        }))
}

/// The fallback hit: the unique best exact-or-child candidate is fresh and
/// not `Idle`.
pub open spec fn fb_hit(records: Seq<RecordModel>, q: Seq<char>, now: int) -> bool {
    exists|i: int|
        #[trigger] best_fb_idx(records, q, i) && record_is_fresh(records[i], now)
            && records[i].state != SessionState::Idle
}

/// Resolve the state of a project path from a lock snapshot and a store
/// snapshot at a given instant.
///
/// When a live lock answers the query, the answer is lock-backed: the newest
/// answering lock supplies the directory, and the best record for the lock's
/// path supplies state and identity per `lock_resolution`. Without a lock,
/// the best fresh exact-or-child record answers, unless it is stale beyond
/// thirty seconds or `Idle`, in which case nothing answers.
pub fn resolve_state_with_details(
    locks: &Vec<LockEntry>,
    store: &StateStore,
    project_path: &str,
    now: i64,
) -> (r: Option<ResolvedState>)
    requires
        store.wf(),
    ensures
        (r is Some) == (some_lock_answers(locks@, project_path@) || fb_hit(
            store@,
            project_path@,
            now as int,
        )),
        (match r {
            Option::Some(res) => res@.is_from_lock == some_lock_answers(locks@, project_path@),
            Option::None => true,
        }),
        some_lock_answers(locks@, project_path@) ==> (match r {
            Option::Some(res) => exists|li: int|
                #[trigger] chosen_lock_idx(
                    locks@,
                    project_path@,
                    Option::None,
                    Option::None,
                    li,
                ) && res@.cwd == locks@[li].info.path@ && lock_resolution(
                    store@,
                    locks@[li].info.path@,
                    now as int,
                    res@.state,
                    res@.session_id,
                ),
            Option::None => false,
        }),
        !some_lock_answers(locks@, project_path@) ==> (match r {
            Option::Some(res) => exists|i: int|
                #[trigger] best_fb_idx(store@, project_path@, i) && res@.session_id
                    == Option::Some(store@[i].session_id) && res@.state == store@[i].state
                    && res@.cwd == store@[i].cwd && record_is_fresh(store@[i], now as int)
                    && store@[i].state != SessionState::Idle,
            Option::None => true,
        }),
{
    if is_session_running(locks, project_path) {
        let found = find_matching_child_lock(locks, project_path, Option::None, Option::None);
        let lock = match found {
            Option::Some(l) => l,
            Option::None => {
                proof {
                    let ghost w = choose|i: int|
                        0 <= i < locks@.len() && crate::paths::lock_answers(
                            (#[trigger] locks@[i]).info.path@,
                            project_path@,
                        );
                    assert(fm_matches(locks@[w], project_path@, Option::None, Option::None));
                    assert(false);
                }
                vstd::pervasive::unreached()
            },
        };
        let record = find_record_for_lock_path(store, lock.path.as_str());
        let resolved = match record {
            Option::Some(rec) => {
                let sid = Option::Some(rec.session_id.clone());
                if rec.is_stale_at(now) {
                    ResolvedState {
                        state: SessionState::Ready,
                        session_id: sid,
                        cwd: lock.path,
                        is_from_lock: true,
                    }
                } else {
                    ResolvedState {
                        state: rec.state,
                        session_id: sid,
                        cwd: lock.path,
                        is_from_lock: true,
                    }
                }
            },
            Option::None => ResolvedState {
                state: SessionState::Ready,
                session_id: Option::None,
                cwd: lock.path,
                is_from_lock: true,
            },
        };
        return Option::Some(resolved);
    }
    let record = find_exact_or_child_record(store, project_path);
    match record {
        Option::Some(rec) => {
            if rec.is_fresh_at(now) && !(rec.state == SessionState::Idle) {
                proof {
                    let ghost i = choose|i: int|
                        #[trigger] best_fb_idx(store@, project_path@, i) && store@[i] == rec@;
                    assert(fb_hit(store@, project_path@, now as int));
                }
                Option::Some(
                    ResolvedState {
                        state: rec.state,
                        session_id: Option::Some(rec.session_id.clone()),
                        cwd: rec.cwd.clone(),
                        is_from_lock: false,
                    },
                )
            } else {
                proof {
                    if fb_hit(store@, project_path@, now as int) {
                        let ghost i = choose|i: int|
                            #[trigger] best_fb_idx(store@, project_path@, i) && record_is_fresh(
                                store@[i],
                                now as int,
                            ) && store@[i].state != SessionState::Idle;
                        let ghost k = choose|k: int|
                            #[trigger] best_fb_idx(store@, project_path@, k) && store@[k] == rec@;
                        lemma_best_fb_unique(store@, project_path@, i, k);
                        assert(false);
                    }
                }
                Option::None
            }
        },
        Option::None => {
            proof {
                if fb_hit(store@, project_path@, now as int) {
                    let ghost i = choose|i: int| #[trigger] best_fb_idx(store@, project_path@, i)
                        && record_is_fresh(store@[i], now as int) && store@[i].state
                        != SessionState::Idle;
                    assert(fb_candidate(store@[i], project_path@));
                }
            }
            Option::None
        },
    }
}

/// Resolve only the state of a project path: the state of the detailed
/// resolution.
pub fn resolve_state(
    locks: &Vec<LockEntry>,
    store: &StateStore,
    project_path: &str,
    now: i64,
) -> (r: Option<SessionState>)
    requires
        store.wf(),
    ensures
        (r is Some) == (some_lock_answers(locks@, project_path@) || fb_hit(
            store@,
            project_path@,
            now as int,
        )),
        some_lock_answers(locks@, project_path@) ==> (match r {
            Option::Some(st) => exists|li: int, sid: Option<Seq<char>>|
                chosen_lock_idx(locks@, project_path@, Option::None, Option::None, li)
                    && #[trigger] lock_resolution(
                    store@,
                    locks@[li].info.path@,
                    now as int,
                    st,
                    sid,
                ),
            Option::None => false,
        }),
        !some_lock_answers(locks@, project_path@) ==> (match r {
            Option::Some(st) => exists|i: int|
                #[trigger] best_fb_idx(store@, project_path@, i) && st == store@[i].state
                    && record_is_fresh(store@[i], now as int) && store@[i].state
                    != SessionState::Idle,
            Option::None => true,
        }),
{
    match resolve_state_with_details(locks, store, project_path, now) {
        Option::Some(res) => {
            proof {
                if some_lock_answers(locks@, project_path@) {
                    let (li, sid): (int, Option<Seq<char>>) = choose|
                        li: int,
                        sid: Option<Seq<char>>,
                    |
                        chosen_lock_idx(locks@, project_path@, Option::None, Option::None, li)
                            && #[trigger] lock_resolution(
                            store@,
                            locks@[li].info.path@,
                            now as int,
                            res@.state,
                            sid,
                        );
                    assert(lock_resolution(
                        store@,
                        locks@[li].info.path@,
                        now as int,
                        res.state,
                        sid,
                    ));
                }
            }
            Option::Some(res.state)
        },
        Option::None => Option::None,
    }
}

} // verus!
