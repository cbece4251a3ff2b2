//! The file-activity sidecar: per session, the files an agent recently
//! touched, newest first, bounded to one hundred entries.
//!
//! The surrounding process layer parses the sidecar file into this model,
//! lets the hook record or clear activity here, and writes the result back
//! with the same atomic temp-file-and-rename discipline as the state store.

use vstd::prelude::*;
use vstd::string::StrSliceExecFns;
use vstd::string::StringExecFns;

use crate::paths::str_eq;

verus! {

/// Bound on the number of entries kept per session, newest first.
pub const MAX_ACTIVITY_FILES: usize = 100;

/// One recorded file touch.
pub struct FileActivityEntry {
    pub file_path: String,
    pub tool: String,
    pub timestamp: i64,
}

pub ghost struct FileActivityModel {
    pub file_path: Seq<char>,
    pub tool: Seq<char>,
    pub timestamp: int,
}

impl View for FileActivityEntry {
    type V = FileActivityModel;

    open spec fn view(&self) -> FileActivityModel {
        FileActivityModel {
            file_path: self.file_path@,
            tool: self.tool@,
            timestamp: self.timestamp as int,
        }
    }
}

/// One session's row in the sidecar.
pub struct SessionActivity {
    pub session_id: String,
    pub cwd: String,
    pub files: Vec<FileActivityEntry>,
}

pub ghost struct SessionActivityModel {
    pub session_id: Seq<char>,
    pub cwd: Seq<char>,
    pub files: Seq<FileActivityModel>,
}

impl View for SessionActivity {
    type V = SessionActivityModel;

    open spec fn view(&self) -> SessionActivityModel {
        SessionActivityModel {
            session_id: self.session_id@,
            cwd: self.cwd@,
            files: self.files@.map_values(|e: FileActivityEntry| e@),
        }
    }
}

/// Session rows are keyed by pairwise distinct session ids, and no row holds
/// more than the bounded number of entries.
pub open spec fn activity_wf(s: Seq<SessionActivityModel>) -> bool {
    &&& forall|i: int, j: int|
        0 <= i < s.len() && 0 <= j < s.len() && i != j ==> (#[trigger] s[i]).session_id != (
        #[trigger] s[j]).session_id
    &&& forall|i: int| 0 <= i < s.len() ==> (#[trigger] s[i]).files.len() <= MAX_ACTIVITY_FILES
}

/// Parsed rows carry pairwise distinct session ids and respect the entry
/// bound; a rebuild keeps such rows exactly.
pub open spec fn rows_wf(rows: Seq<SessionActivity>) -> bool {
    &&& forall|i: int, j: int|
        0 <= i < rows.len() && 0 <= j < rows.len() && i != j ==> (
        #[trigger] rows[i])@.session_id != (#[trigger] rows[j])@.session_id
    &&& forall|i: int|
        0 <= i < rows.len() ==> (#[trigger] rows[i])@.files.len() <= MAX_ACTIVITY_FILES
}

/// Some row in `s` has exactly this model.
pub open spec fn has_row_content(s: Seq<SessionActivityModel>, m: SessionActivityModel) -> bool {
    exists|i: int| 0 <= i < s.len() && #[trigger] s[i] == m
}

/// One of the first `upto` parsed rows carries the given session id.
pub open spec fn row_id_among(rows: Seq<SessionActivity>, upto: int, id: Seq<char>) -> bool {
    exists|j: int| 0 <= j < upto && (#[trigger] rows[j])@.session_id == id
}

/// Some row carries the given session id.
pub open spec fn activity_has_id(s: Seq<SessionActivityModel>, id: Seq<char>) -> bool {
    exists|i: int| 0 <= i < s.len() && (#[trigger] s[i]).session_id == id
}

/// The stored form of a touched path: absolute paths are kept, relative
/// paths are resolved against the session's working directory.
pub open spec fn resolved_path_spec(cwd: Seq<char>, fp: Seq<char>) -> Seq<char> {
    if fp.len() > 0 && fp[0] == '/' {
        fp
    } else {
        cwd + "/"@ + fp
    }
}

/// The model of the entry one recording writes.
pub open spec fn activity_entry_model(
    cwd: Seq<char>,
    fp: Seq<char>,
    tool: Seq<char>,
    now: int,
) -> FileActivityModel {
    FileActivityModel { file_path: resolved_path_spec(cwd, fp), tool: tool, timestamp: now }
}

/// A session's entries after a new entry is put in front: newest first,
/// truncated to the bound.
pub open spec fn prepended_files(
    files: Seq<FileActivityModel>,
    e: FileActivityModel,
) -> Seq<FileActivityModel> {
    let all = seq![e] + files;
    if all.len() <= MAX_ACTIVITY_FILES {
        all
    } else {
        all.subrange(0, MAX_ACTIVITY_FILES as int)
    }
}

/// A session's row after a recording: same id, the given working directory,
/// the new entry in front.
pub open spec fn upserted_session(
    prev: SessionActivityModel,
    cwd: Seq<char>,
    e: FileActivityModel,
) -> SessionActivityModel {
    SessionActivityModel {
        session_id: prev.session_id,
        cwd: cwd,
        files: prepended_files(prev.files, e),
    }
}

/// A fresh row for a session's first recording.
pub open spec fn new_session_activity(
    sid: Seq<char>,
    cwd: Seq<char>,
    e: FileActivityModel,
) -> SessionActivityModel {
    SessionActivityModel { session_id: sid, cwd: cwd, files: seq![e] }
}

/// Resolve a touched path: keep it when absolute, else join it to the
/// working directory.
pub fn resolve_activity_path(cwd: &str, file_path: &str) -> (r: String)
    ensures
        r@ == resolved_path_spec(cwd@, file_path@),
{
    let n = file_path.unicode_len();
    if n > 0 && file_path.get_char(0) == '/' {
        file_path.to_owned()
    } else {
        cwd.to_owned().concat("/").concat(file_path)
    }
}

/// The parsed sidecar.
pub struct ActivityLog {
    sessions: Vec<SessionActivity>,
}

impl View for ActivityLog {
    type V = Seq<SessionActivityModel>;

    closed spec fn view(&self) -> Seq<SessionActivityModel> {
        self.sessions@.map_values(|s: SessionActivity| s@)
    }
}

impl ActivityLog {
    /// Session ids distinct, rows bounded.
    pub open spec fn wf(&self) -> bool {
        activity_wf(self@)
    }

    /// An empty sidecar.
    pub fn new() -> (r: ActivityLog)
        ensures
            r@.len() == 0,
            r.wf(),
    {
        let r = ActivityLog { sessions: Vec::new() };
        proof {
            assert(r@.len() == 0);
        }
        r
    }

    /// Rebuild a sidecar from parsed rows. Every parsed session id appears
    /// in the result; a row repeating an earlier row's session id is dropped
    /// and an oversized row is trimmed to the bound, so well-formed rows —
    /// pairwise distinct ids, entries within the bound — are all kept with
    /// their content unchanged.
    pub fn from_rows(rows: Vec<SessionActivity>) -> (r: ActivityLog)
        ensures
            r.wf(),
            forall|j: int|
                0 <= j < rows@.len() ==> activity_has_id(r@, (#[trigger] rows@[j])@.session_id),
            rows_wf(rows@) ==> forall|j: int|
                0 <= j < rows@.len() ==> #[trigger] has_row_content(r@, rows@[j]@),
    {
        let mut out = ActivityLog::new();
        let n = rows.len();
        let mut i: usize = 0;
        while i < n
            invariant
                i <= n,
                n == rows@.len(),
                out.wf(),
                forall|k: int|
                    0 <= k < out@.len() ==> #[trigger] row_id_among(
                        rows@,
                        i as int,
                        out@[k].session_id,
                    ),
                forall|j: int|
                    0 <= j < i ==> activity_has_id(out@, (#[trigger] rows@[j])@.session_id),
                rows_wf(rows@) ==> forall|j: int|
                    0 <= j < i ==> #[trigger] has_row_content(out@, rows@[j]@),
            decreases n - i,
        {
            let idx = out.find_idx(rows[i].session_id.as_str());
            match idx {
                Option::Some(w) => {
                    proof {
                        assert(out@[w as int].session_id == rows@[i as int]@.session_id);
                        assert(activity_has_id(out@, rows@[i as int]@.session_id));
                        assert forall|k: int| 0 <= k < out@.len() implies #[trigger] row_id_among(
                            rows@,
                            i as int + 1,
                            out@[k].session_id,
                        ) by {
                            assert(row_id_among(rows@, i as int, out@[k].session_id));
                            let jj = choose|jx: int|
                                0 <= jx < i && (#[trigger] rows@[jx])@.session_id
                                    == out@[k].session_id;
                            assert(0 <= jj < i + 1 && rows@[jj]@.session_id == out@[k].session_id);
                        }
                        if rows_wf(rows@) {
                            assert(row_id_among(rows@, i as int, out@[w as int].session_id));
                            let jj = choose|jx: int|
                                0 <= jx < i && (#[trigger] rows@[jx])@.session_id
                                    == out@[w as int].session_id;
                            assert(rows@[jj]@.session_id == rows@[i as int]@.session_id);
                            assert(false);
                        }
                    }
                },
                Option::None => {
                    let mut row = SessionActivity {
                        session_id: rows[i].session_id.clone(),
                        cwd: rows[i].cwd.clone(),
                        files: Vec::new(),
                    };
                    let m = rows[i].files.len();
                    let mut j: usize = 0;
                    while j < m && j < MAX_ACTIVITY_FILES
                        invariant
                            j <= m,
                            i < n,
                            n == rows@.len(),
                            m == rows@[i as int].files@.len(),
                            j <= MAX_ACTIVITY_FILES,
                            row.files@.len() == j,
                            row.session_id@ == rows@[i as int].session_id@,
                            row.cwd@ == rows@[i as int].cwd@,
                            forall|t: int|
                                0 <= t < j ==> (#[trigger] row.files@[t])@
                                    == rows@[i as int].files@[t]@,
                        decreases m - j,
                    {
                        let e = &rows[i].files[j];
                        row.files.push(
                            FileActivityEntry {
                                file_path: e.file_path.clone(),
                                tool: e.tool.clone(),
                                timestamp: e.timestamp,
                            },
                        );
                        j = j + 1;
                    }
                    let ghost prev = out@;
                    proof {
                        assert(row@.files.len() <= MAX_ACTIVITY_FILES);
                    }
                    out.sessions.push(row);
                    proof {
                        assert(out@ =~= prev.push(out.sessions@.last()@));
                        assert(out@[prev.len() as int].session_id == rows@[i as int]@.session_id);
                        assert forall|k: int| 0 <= k < out@.len() implies #[trigger] row_id_among(
                            rows@,
                            i as int + 1,
                            out@[k].session_id,
                        ) by {
                            if k < prev.len() {
                                assert(row_id_among(rows@, i as int, prev[k].session_id));
                                let jj = choose|jx: int|
                                    0 <= jx < i && (#[trigger] rows@[jx])@.session_id
                                        == prev[k].session_id;
                                assert(0 <= jj < i + 1 && rows@[jj]@.session_id
                                    == out@[k].session_id);
                            } else {
                                assert(0 <= i < i + 1 && rows@[i as int]@.session_id
                                    == out@[k].session_id);
                            }
                        }
                        assert forall|jx: int| 0 <= jx < i + 1 implies activity_has_id(
                            out@,
                            (#[trigger] rows@[jx])@.session_id,
                        ) by {
                            if jx < i {
                                assert(activity_has_id(prev, rows@[jx]@.session_id));
                                let w2 = choose|w2: int|
                                    0 <= w2 < prev.len() && (#[trigger] prev[w2]).session_id
                                        == rows@[jx]@.session_id;
                                assert(out@[w2].session_id == rows@[jx]@.session_id);
                            } else {
                                assert(out@[prev.len() as int].session_id
                                    == rows@[jx]@.session_id);
                            }
                        }
                        if rows_wf(rows@) {
                            assert(rows@[i as int]@.files.len() <= MAX_ACTIVITY_FILES);
                            assert(m <= MAX_ACTIVITY_FILES);
                            assert(j == m);
                            assert(out@[prev.len() as int].files =~= rows@[i as int]@.files);
                            assert(out@[prev.len() as int] == rows@[i as int]@);
                            assert forall|jx: int| 0 <= jx < i + 1 implies #[trigger] has_row_content(
                                out@,
                                rows@[jx]@,
                            ) by {
                                if jx < i {
                                    assert(has_row_content(prev, rows@[jx]@));
                                    let w2 = choose|w2: int|
                                        0 <= w2 < prev.len() && #[trigger] prev[w2] == rows@[jx]@;
                                    assert(out@[w2] == rows@[jx]@);
                                } else {
                                    assert(out@[prev.len() as int] == rows@[jx]@);
                                }
                            }
                        }
                    }
                },
            }
            i = i + 1;
        }
        out
    }

    /// Index of the row with the given session id, if any.
    fn find_idx(&self, session_id: &str) -> (r: Option<usize>)
        ensures
            (match r {
                Option::Some(i) => i < self@.len() && self@[i as int].session_id == session_id@,
                Option::None => forall|i: int|
                    0 <= i < self@.len() ==> (#[trigger] self@[i]).session_id != session_id@,
            }),
    {
        let n = self.sessions.len();
        let mut i: usize = 0;
        while i < n
            invariant
                i <= n,
                n == self.sessions.len(),
                self@.len() == n,
                forall|j: int| 0 <= j < i ==> (#[trigger] self@[j]).session_id != session_id@,
            decreases n - i,
        {
            if str_eq(self.sessions[i].session_id.as_str(), session_id) {
                return Option::Some(i);
            }
            i = i + 1;
        }
        Option::None
    }

    /// All rows, in storage order.
    pub fn rows(&self) -> (r: &Vec<SessionActivity>)
        ensures
            r@.len() == self@.len(),
            forall|i: int| 0 <= i < self@.len() ==> (#[trigger] r@[i])@ == self@[i],
    {
        &self.sessions
    }

    /// Record one file touch for a session: the resolved path and tool go in
    /// front of the session's entries, the list is truncated to the bound,
    /// and the row's working directory is refreshed. A session seen for the
    /// first time gets a fresh row.
    pub fn record_file_activity(
        &mut self,
        session_id: &str,
        cwd: &str,
        file_path: &str,
        tool_name: &str,
        now: i64,
    )
        requires
            old(self).wf(),
        ensures
            final(self).wf(),
            (if activity_has_id(old(self)@, session_id@) {
                exists|i: int|
                    0 <= i < old(self)@.len() && (#[trigger] old(self)@[i]).session_id
                        == session_id@ && final(self)@ =~= old(self)@.update(
                        i,
                        upserted_session(
                            old(self)@[i],
                            cwd@,
                            activity_entry_model(cwd@, file_path@, tool_name@, now as int),
                        ),
                    )
            } else {
                final(self)@ =~= old(self)@.push(
                    new_session_activity(
                        session_id@,
                        cwd@,
                        activity_entry_model(cwd@, file_path@, tool_name@, now as int),
                    ),
                )
            }),
    {
        let entry = FileActivityEntry {
            file_path: resolve_activity_path(cwd, file_path),
            tool: tool_name.to_owned(),
            timestamp: now,
        };
        proof {
            assert(entry@ == activity_entry_model(cwd@, file_path@, tool_name@, now as int));
        }
        match self.find_idx(session_id) {
            Option::Some(i) => {
                let ghost prev = self@[i as int];
                let mut sess = self.sessions.remove(i);
                proof {
                    assert(sess@ == prev);
                }
                sess.files.insert(0, entry);
                proof {
                    assert(sess.files@.map_values(|e: FileActivityEntry| e@) =~= seq![
                        activity_entry_model(cwd@, file_path@, tool_name@, now as int),
                    ] + prev.files);
                }
                sess.files.truncate(MAX_ACTIVITY_FILES);
                sess.cwd = cwd.to_owned();
                proof {
                    assert(sess@.files =~= prepended_files(
                        prev.files,
                        activity_entry_model(cwd@, file_path@, tool_name@, now as int),
                    ));
                    assert(sess@ == upserted_session(
                        prev,
                        cwd@,
                        activity_entry_model(cwd@, file_path@, tool_name@, now as int),
                    ));
                }
                self.sessions.insert(i, sess);
                proof {
                    assert(final(self)@ =~= old(self)@.update(
                        i as int,
                        upserted_session(
                            prev,
                            cwd@,
                            activity_entry_model(cwd@, file_path@, tool_name@, now as int),
                        ),
                    ));
                }
            },
            Option::None => {
                let mut files: Vec<FileActivityEntry> = Vec::new();
                files.push(entry);
                let sess = SessionActivity {
                    session_id: session_id.to_owned(),
                    cwd: cwd.to_owned(),
                    files: files,
                };
                proof {
                    assert(sess@.files =~= seq![
                        activity_entry_model(cwd@, file_path@, tool_name@, now as int),
                    ]);
                    assert(sess@ == new_session_activity(
                        session_id@,
                        cwd@,
                        activity_entry_model(cwd@, file_path@, tool_name@, now as int),
                    ));
                }
                self.sessions.push(sess);
                proof {
                    assert(final(self)@ =~= old(self)@.push(
                        new_session_activity(
                            session_id@,
                            cwd@,
                            activity_entry_model(cwd@, file_path@, tool_name@, now as int),
                        ),
                    ));
                }
            },
        }
    }

    /// Drop a session's row, if present.
    pub fn remove_session(&mut self, session_id: &str)
        requires
            old(self).wf(),
        ensures
            final(self).wf(),
            (if activity_has_id(old(self)@, session_id@) {
                exists|i: int|
                    0 <= i < old(self)@.len() && (#[trigger] old(self)@[i]).session_id
                        == session_id@ && final(self)@ =~= old(self)@.remove(i)
            } else {
                final(self)@ =~= old(self)@
            }),
            !activity_has_id(final(self)@, session_id@),
    {
        match self.find_idx(session_id) {
            Option::Some(i) => {
                self.sessions.remove(i);
                proof {
                    assert(final(self)@ =~= old(self)@.remove(i as int));
                }
            },
            Option::None => {
                proof {
                    assert(final(self)@ =~= old(self)@);
                }
            },
        }
    }
}

} // verus!
