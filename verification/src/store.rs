//! In-memory session record store: the parsed form of the single JSON state
//! file, keyed by session id.
//!
//! The store is a sequence of records with pairwise distinct session ids.
//! `update` upserts a record, carrying `state_changed_at` over exactly when
//! the state did not change; `remove` deletes by id. Reading and writing the
//! backing file, including its atomic temp-file-and-rename discipline, happens
//! in the surrounding process layer, which hands the parsed records in and
//! takes them back out.

use vstd::prelude::*;
use vstd::pervasive::VecAdditionalExecFns;

use crate::types::{RecordModel, SessionRecord, SessionState};
use crate::paths::str_eq;
use crate::types::{opt_event_copy, opt_string_copy, record_copy};

verus! {

/// Schema version of the state file this store round-trips with.
pub const STORE_VERSION: u32 = 3;

/// `m` is the model of one of the given records.
pub open spec fn is_model_of_one(records: Seq<SessionRecord>, m: RecordModel) -> bool {
    exists|j: int| 0 <= j < records.len() && (#[trigger] records[j])@ == m
}

/// Parsed records carry pairwise distinct session ids.
pub open spec fn records_wf(records: Seq<SessionRecord>) -> bool {
    forall|i: int, j: int|
        0 <= i < records.len() && 0 <= j < records.len() && i != j ==> (
        #[trigger] records[i])@.session_id != (#[trigger] records[j])@.session_id
}

/// Some record in `s` has exactly this model.
pub open spec fn has_record_content(s: Seq<RecordModel>, m: RecordModel) -> bool {
    exists|i: int| 0 <= i < s.len() && #[trigger] s[i] == m
}

/// Some record in `s` carries the given session id.
pub open spec fn spec_has_id(s: Seq<RecordModel>, id: Seq<char>) -> bool {
    exists|i: int| 0 <= i < s.len() && (#[trigger] s[i]).session_id == id
}

/// Session ids are pairwise distinct.
pub open spec fn store_wf(s: Seq<RecordModel>) -> bool {
    forall|i: int, j: int|
        0 <= i < s.len() && 0 <= j < s.len() && i != j ==> (#[trigger] s[i]).session_id != (
        #[trigger] s[j]).session_id
}

/// The record that an upsert writes over an existing record for the same
/// session: state and directory replaced, `updated_at` set to now,
/// `state_changed_at` carried over exactly when the state is unchanged, all
/// other metadata kept.
pub open spec fn merged_record(
    prev: RecordModel,
    state: SessionState,
    cwd: Seq<char>,
    now: int,
) -> RecordModel {
    RecordModel {
        session_id: prev.session_id,
        state: state,
        cwd: cwd,
        updated_at: now,
        state_changed_at: if prev.state == state {
            prev.state_changed_at
        } else {
            now
        },
        working_on: prev.working_on,
        transcript_path: prev.transcript_path,
        permission_mode: prev.permission_mode,
        project_dir: prev.project_dir,
        last_event: prev.last_event,
        active_subagent_count: prev.active_subagent_count,
    }
}

/// The record that an upsert writes for a session not seen before.
pub open spec fn fresh_record(
    id: Seq<char>,
    state: SessionState,
    cwd: Seq<char>,
    now: int,
) -> RecordModel {
    RecordModel {
        session_id: id,
        state: state,
        cwd: cwd,
        updated_at: now,
        state_changed_at: now,
        working_on: Option::None,
        transcript_path: Option::None,
        permission_mode: Option::None,
        project_dir: Option::None,
        last_event: Option::None,
        active_subagent_count: 0,
    }
}

/// In-memory cache of session records.
pub struct StateStore {
    sessions: Vec<SessionRecord>,
}

impl View for StateStore {
    type V = Seq<RecordModel>;

    closed spec fn view(&self) -> Seq<RecordModel> {
        self.sessions@.map_values(|r: SessionRecord| r@)
    }
}

impl StateStore {
    /// Session ids in the store are pairwise distinct.
    pub open spec fn wf(&self) -> bool {
        store_wf(self@)
    }

    /// An empty store, not backed by any file.
    pub fn new_in_memory() -> (r: StateStore)
        ensures
            r@.len() == 0,
            r.wf(),
    {
        let r = StateStore { sessions: Vec::new() };
        proof {
            assert(r@.len() == 0);
        }
        r
    }

    /// The store that loading a parsed state file yields: the given records
    /// for the supported schema version, an empty store for any other
    /// version. A duplicated session id keeps the record that appears last.
    pub fn from_loaded(version: u32, records: Vec<SessionRecord>) -> (r: StateStore)
        ensures
            r.wf(),
            version != STORE_VERSION ==> r@.len() == 0,
            version == STORE_VERSION ==> forall|i: int|
                0 <= i < r@.len() ==> #[trigger] is_model_of_one(records@, r@[i]),
            version == STORE_VERSION ==> forall|j: int|
                0 <= j < records@.len() ==> spec_has_id(r@, (#[trigger] records@[j])@.session_id),
            (version == STORE_VERSION && records_wf(records@)) ==> forall|j: int|
                0 <= j < records@.len() ==> #[trigger] has_record_content(r@, records@[j]@),
    {
        let mut out = StateStore::new_in_memory();
        if version != STORE_VERSION {
            return out;
        }
        let mut rest = records;
        proof {
            assert(rest@ == records@);
        }
        while rest.len() > 0
            invariant
                out.wf(),
                rest@.len() <= records@.len(),
                rest@ == records@.subrange(0, rest@.len() as int),
                forall|i: int|
                    0 <= i < out@.len() ==> #[trigger] is_model_of_one(records@, out@[i]),
                forall|j: int|
                    rest@.len() <= j < records@.len() ==> spec_has_id(
                        out@,
                        (#[trigger] records@[j])@.session_id,
                    ),
            decreases rest@.len(),
        {
            let ghost prev_rest = rest@;
            let ghost prev_out = out@;
            let rec = rest.pop().unwrap();
            let ghost j = rest@.len() as int;
            proof {
                assert(prev_rest == records@.subrange(0, j + 1));
                assert(rec == prev_rest[j]);
                assert(rec == records@[j]);
                assert(rest@ =~= records@.subrange(0, j));
            }
            let idx = out.find_idx(rec.session_id.as_str());
            match idx {
                Option::Some(_) => {
                    proof {
                        assert(spec_has_id(out@, rec@.session_id));
                    }
                },
                Option::None => {
                    out.push_unchecked(rec);
                    proof {
                        assert(out@ =~= prev_out.push(rec@));
                        assert(out@[prev_out.len() as int] == rec@);
                        assert(is_model_of_one(records@, rec@)) by {
                            assert(0 <= j < records@.len() && records@[j]@ == rec@);
                        }
                        assert forall|jj: int| j <= jj < records@.len() implies spec_has_id(
                            out@,
                            (#[trigger] records@[jj])@.session_id,
                        ) by {
                            if jj == j {
                                assert(out@[prev_out.len() as int].session_id
                                    == records@[j]@.session_id);
                            } else {
                                assert(spec_has_id(prev_out, records@[jj]@.session_id));
                                let w = choose|i: int|
                                    0 <= i < prev_out.len() && (
                                    #[trigger] prev_out[i]).session_id == records@[jj]@.session_id;
                                assert(out@[w].session_id == records@[jj]@.session_id);
                            }
                        }
                    }
                },
            }
        }
        proof {
            assert forall|j: int|
                records_wf(records@) && 0 <= j
                    < records@.len() implies #[trigger] has_record_content(
                out@,
                records@[j]@,
            ) by {
                assert(spec_has_id(out@, records@[j]@.session_id));
                let w = choose|w: int|
                    0 <= w < out@.len() && (#[trigger] out@[w]).session_id
                        == records@[j]@.session_id;
                assert(is_model_of_one(records@, out@[w]));
                let k = choose|k: int|
                    0 <= k < records@.len() && (#[trigger] records@[k])@ == out@[w];
                assert(records@[k]@.session_id == records@[j]@.session_id);
                assert(k == j);
                assert(out@[w] == records@[j]@);
                assert(has_record_content(out@, records@[j]@));
            }
        }
        out
    }

    /// Append a record whose id is not yet present.
    fn push_unchecked(&mut self, rec: SessionRecord)
        requires
            old(self).wf(),
            !spec_has_id(old(self)@, rec@.session_id),
        ensures
            final(self).wf(),
            final(self)@ =~= old(self)@.push(rec@),
    {
        self.sessions.push(rec);
        proof {
            assert(final(self)@ =~= old(self)@.push(rec@));
        }
    }

    /// Index of the record with the given session id, if any.
    fn find_idx(&self, session_id: &str) -> (r: Option<usize>)
        ensures
            (match r {
                Option::Some(i) => i < self@.len() && self@[i as int].session_id == session_id@,
                Option::None => forall|i: int|
                    0 <= i < self@.len() ==> (#[trigger] self@[i]).session_id != session_id@,
            }),
    {
        let n = self.sessions.len();
        let mut i: usize = 0;
        while i < n
            invariant
                n == self.sessions.len(),
                i <= n,
                self@.len() == n,
                forall|j: int| 0 <= j < i ==> (#[trigger] self@[j]).session_id != session_id@,
            decreases n - i,
        {
            if str_eq(self.sessions[i].session_id.as_str(), session_id) {
                return Option::Some(i);
            }
            i = i + 1;
        }
        Option::None
    }

    /// The record for the given session id, if any; lookup is by exact id.
    pub fn get_by_session_id(&self, session_id: &str) -> (r: Option<&SessionRecord>)
        ensures
            (r is Some) == spec_has_id(self@, session_id@),
            (match r {
                Option::Some(rec) => rec@.session_id == session_id@ && exists|i: int|
                    0 <= i < self@.len() && #[trigger] self@[i] == rec@,
                Option::None => true,
            }),
    {
        match self.find_idx(session_id) {
            Option::Some(i) => Option::Some(&self.sessions[i]),
            Option::None => Option::None,
        }
    }

    /// All records, in storage order.
    pub fn all_sessions(&self) -> (r: &Vec<SessionRecord>)
        ensures
            r@.len() == self@.len(),
            forall|i: int| 0 <= i < self@.len() ==> (#[trigger] r@[i])@ == self@[i],
    {
        &self.sessions
    }

    /// All records, in storage order.
    pub fn sessions(&self) -> (r: &Vec<SessionRecord>)
        ensures
            r@.len() == self@.len(),
            forall|i: int| 0 <= i < self@.len() ==> (#[trigger] r@[i])@ == self@[i],
    {
        &self.sessions
    }

    /// Upsert at an explicit instant: the record for `session_id` gets the
    /// given state and directory with `updated_at = now`; `state_changed_at`
    /// is carried over exactly when the state is unchanged; other metadata is
    /// kept, and a new session starts with empty metadata.
    pub fn update_at(&mut self, session_id: &str, state: SessionState, cwd: &str, now: i64)
        requires
            old(self).wf(),
        ensures
            final(self).wf(),
            (if spec_has_id(old(self)@, session_id@) {
                exists|i: int|
                    0 <= i < old(self)@.len() && (#[trigger] old(self)@[i]).session_id
                        == session_id@ && final(self)@ =~= old(self)@.update(
                        i,
                        merged_record(old(self)@[i], state, cwd@, now as int),
                    )
            } else {
                final(self)@ =~= old(self)@.push(
                    fresh_record(session_id@, state, cwd@, now as int),
                )
            }),
    {
        match self.find_idx(session_id) {
            Option::Some(i) => {
                let prev = &self.sessions[i];
                let changed_at = if prev.state == state {
                    prev.state_changed_at
                } else {
                    now
                };
                let new_rec = SessionRecord {
                    session_id: prev.session_id.clone(),
                    state: state,
                    cwd: cwd.to_owned(),
                    updated_at: now,
                    state_changed_at: changed_at,
                    working_on: opt_string_copy(&prev.working_on),
                    transcript_path: opt_string_copy(&prev.transcript_path),
                    permission_mode: opt_string_copy(&prev.permission_mode),
                    project_dir: opt_string_copy(&prev.project_dir),
                    last_event: opt_event_copy(&prev.last_event),
                    active_subagent_count: prev.active_subagent_count,
                };
                proof {
                    assert(new_rec@ == merged_record(self@[i as int], state, cwd@, now as int));
                }
                self.sessions.set(i, new_rec);
                proof {
                    assert(final(self)@ =~= old(self)@.update(
                        i as int,
                        merged_record(old(self)@[i as int], state, cwd@, now as int),
                    ));
                }
            },
            Option::None => {
                let new_rec = SessionRecord {
                    session_id: session_id.to_owned(),
                    state: state,
                    cwd: cwd.to_owned(),
                    updated_at: now,
                    state_changed_at: now,
                    working_on: Option::None,
                    transcript_path: Option::None,
                    permission_mode: Option::None,
                    project_dir: Option::None,
                    last_event: Option::None,
                    active_subagent_count: 0,
                };
                self.sessions.push(new_rec);
                proof {
                    assert(final(self)@ =~= old(self)@.push(
                        fresh_record(session_id@, state, cwd@, now as int),
                    ));
                }
            },
        }
    }

    /// Upsert against the wall clock; the clock's reading is some instant
    /// `t`, and the store changes exactly as `update_at` with that instant.
    pub fn update(&mut self, session_id: &str, state: SessionState, cwd: &str)
        requires
            old(self).wf(),
        ensures
            final(self).wf(),
            exists|t: int|
                (if spec_has_id(old(self)@, session_id@) {
                    exists|i: int|
                        0 <= i < old(self)@.len() && (#[trigger] old(self)@[i]).session_id
                            == session_id@ && final(self)@ =~= old(self)@.update(
                            i,
                            merged_record(old(self)@[i], state, cwd@, t),
                        )
                } else {
                    final(self)@ =~= old(self)@.push(fresh_record(session_id@, state, cwd@, t))
                }),
    {
        let now = crate::sys::now_unix();
        self.update_at(session_id, state, cwd, now);
        proof {
            assert(exists|t: int|
                (if spec_has_id(old(self)@, session_id@) {
                    exists|i: int|
                        0 <= i < old(self)@.len() && (#[trigger] old(self)@[i]).session_id
                            == session_id@ && final(self)@ =~= old(self)@.update(
                            i,
                            merged_record(old(self)@[i], state, cwd@, t),
                        )
                } else {
                    final(self)@ =~= old(self)@.push(fresh_record(session_id@, state, cwd@, t))
                })) by {
                let witness: int = now as int;
                assert((if spec_has_id(old(self)@, session_id@) {
                    exists|i: int|
                        0 <= i < old(self)@.len() && (#[trigger] old(self)@[i]).session_id
                            == session_id@ && final(self)@ =~= old(self)@.update(
                            i,
                            merged_record(old(self)@[i], state, cwd@, witness),
                        )
                } else {
                    final(self)@ =~= old(self)@.push(
                        fresh_record(session_id@, state, cwd@, witness),
                    )
                }));
            }
        }
    }

    /// Delete the record with the given session id, if present.
    pub fn remove(&mut self, session_id: &str)
        requires
            old(self).wf(),
        ensures
            final(self).wf(),
            (if spec_has_id(old(self)@, session_id@) {
                exists|i: int|
                    0 <= i < old(self)@.len() && (#[trigger] old(self)@[i]).session_id
                        == session_id@ && final(self)@ =~= old(self)@.remove(i)
            } else {
                final(self)@ =~= old(self)@
            }),
            !spec_has_id(final(self)@, session_id@),
    {
        match self.find_idx(session_id) {
            Option::Some(i) => {
                self.sessions.remove(i);
                proof {
                    assert(final(self)@ =~= old(self)@.remove(i as int));
                }
            },
            Option::None => {
                proof {
                    assert(final(self)@ =~= old(self)@);
                }
            },
        }
    }

    /// Overwrite one record's `updated_at`; intended for tests that need a
    /// record of a chosen age.
    pub fn set_timestamp_for_test(&mut self, session_id: &str, timestamp: i64)
        requires
            old(self).wf(),
        ensures
            final(self).wf(),
            final(self)@.len() == old(self)@.len(),
            forall|i: int|
                0 <= i < old(self)@.len() && (#[trigger] old(self)@[i]).session_id != session_id@
                    ==> final(self)@[i] == old(self)@[i],
            forall|i: int|
                0 <= i < old(self)@.len() && (#[trigger] old(self)@[i]).session_id == session_id@
                    ==> final(self)@[i] == (RecordModel {
                    updated_at: timestamp as int,
                    ..old(self)@[i]
                }),
    {
        match self.find_idx(session_id) {
            Option::Some(i) => {
                let mut rec = record_copy(&self.sessions[i]);
                proof {
                    assert(rec@ == self@[i as int]);
                }
                rec.updated_at = timestamp;
                self.sessions.set(i, rec);
                proof {
                    assert(final(self)@ =~= old(self)@.update(
                        i as int,
                        (RecordModel { updated_at: timestamp as int, ..old(self)@[i as int] }),
                    ));
                }
            },
            Option::None => {},
        }
    }

    /// Overwrite one record's `state_changed_at`; intended for tests.
    pub fn set_state_changed_at_for_test(&mut self, session_id: &str, timestamp: i64)
        requires
            old(self).wf(),
        ensures
            final(self).wf(),
            final(self)@.len() == old(self)@.len(),
            forall|i: int|
                0 <= i < old(self)@.len() && (#[trigger] old(self)@[i]).session_id != session_id@
                    ==> final(self)@[i] == old(self)@[i],
            forall|i: int|
                0 <= i < old(self)@.len() && (#[trigger] old(self)@[i]).session_id == session_id@
                    ==> final(self)@[i] == (RecordModel {
                    state_changed_at: timestamp as int,
                    ..old(self)@[i]
                }),
    {
        match self.find_idx(session_id) {
            Option::Some(i) => {
                let mut rec = record_copy(&self.sessions[i]);
                proof {
                    assert(rec@ == self@[i as int]);
                }
                rec.state_changed_at = timestamp;
                self.sessions.set(i, rec);
                proof {
                    assert(final(self)@ =~= old(self)@.update(
                        i as int,
                        (RecordModel { state_changed_at: timestamp as int, ..old(self)@[i as int] }),
                    ));
                }
            },
            Option::None => {},
        }
    }

    /// Overwrite one record's `project_dir`; intended for tests.
    pub fn set_project_dir_for_test(&mut self, session_id: &str, project_dir: Option<String>)
        requires
            old(self).wf(),
        ensures
            final(self).wf(),
            final(self)@.len() == old(self)@.len(),
            forall|i: int|
                0 <= i < old(self)@.len() && (#[trigger] old(self)@[i]).session_id != session_id@
                    ==> final(self)@[i] == old(self)@[i],
            forall|i: int|
                0 <= i < old(self)@.len() && (#[trigger] old(self)@[i]).session_id == session_id@
                    ==> final(self)@[i] == (RecordModel {
                    project_dir: crate::types::view_opt_string(project_dir),
                    ..old(self)@[i]
                }),
    {
        match self.find_idx(session_id) {
            Option::Some(i) => {
                let mut rec = record_copy(&self.sessions[i]);
                proof {
                    assert(rec@ == self@[i as int]);
                }
                rec.project_dir = project_dir;
                self.sessions.set(i, rec);
                proof {
                    assert(final(self)@ =~= old(self)@.update(
                        i as int,
                        (RecordModel {
                            project_dir: crate::types::view_opt_string(project_dir),
                            ..old(self)@[i as int]
                        }),
                    ));
                }
            },
            Option::None => {},
        }
    }
}

} // verus!
