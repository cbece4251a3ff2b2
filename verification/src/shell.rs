//! Shell working-directory tracking: the state that shell prompt hooks
//! report, and the classification of the application a shell runs under.
//!
//! The surrounding process layer reads and writes the breadcrumb files and
//! probes process liveness; the bookkeeping over the parsed state is
//! verified here.

use vstd::prelude::*;
use vstd::string::StrSliceExecFns;
use vstd::pervasive::VecAdditionalExecFns;
use vstd::string::StringExecFns;

use crate::types::view_opt_string;

verus! {

/// Schema version of the shell-state file.
pub const SHELL_STATE_VERSION: u32 = 1;

/// One shell's last reported position.
pub struct ShellEntry {
    pub cwd: String,
    pub tty: String,
    pub parent_app: Option<String>,
    pub updated_at: i64,
}

pub ghost struct ShellEntryModel {
    pub cwd: Seq<char>,
    pub tty: Seq<char>,
    pub parent_app: Option<Seq<char>>,
    pub updated_at: int,
}

impl View for ShellEntry {
    type V = ShellEntryModel;

    open spec fn view(&self) -> ShellEntryModel {
        ShellEntryModel {
            cwd: self.cwd@,
            tty: self.tty@,
            parent_app: view_opt_string(self.parent_app),
            updated_at: self.updated_at as int,
        }
    }
}

/// One shell's slot: its process id and its entry.
pub struct ShellSlot {
    pub pid: u32,
    pub entry: ShellEntry,
}

pub ghost struct ShellSlotModel {
    pub pid: u32,
    pub entry: ShellEntryModel,
}

impl View for ShellSlot {
    type V = ShellSlotModel;

    open spec fn view(&self) -> ShellSlotModel {
        ShellSlotModel { pid: self.pid, entry: self.entry@ }
    }
}

/// The parsed shell-state file: one slot per live shell, keyed by process
/// id.
pub struct ShellCwdState {
    pub version: u32,
    pub shells: Vec<ShellSlot>,
}

/// `m` is the view of one of the given slots.
pub open spec fn is_slot_of_one(slots: Seq<ShellSlot>, m: ShellSlotModel) -> bool {
    exists|j: int| 0 <= j < slots.len() && (#[trigger] slots[j])@ == m
}

/// Parsed slots carry pairwise distinct process ids; a rebuild keeps such
/// slots exactly.
pub open spec fn slots_wf(slots: Seq<ShellSlot>) -> bool {
    forall|i: int, j: int|
        0 <= i < slots.len() && 0 <= j < slots.len() && i != j ==> (#[trigger] slots[i])@.pid != (
        #[trigger] slots[j])@.pid
}

/// Some slot in `s` has exactly this model.
pub open spec fn has_slot_content(s: Seq<ShellSlotModel>, m: ShellSlotModel) -> bool {
    exists|i: int| 0 <= i < s.len() && #[trigger] s[i] == m
}

/// One of the first `upto` parsed slots carries the given process id.
pub open spec fn slot_pid_among(slots: Seq<ShellSlot>, upto: int, pid: u32) -> bool {
    exists|j: int| 0 <= j < upto && (#[trigger] slots[j])@.pid == pid
}

/// Process ids are pairwise distinct.
pub open spec fn shells_wf(s: Seq<ShellSlotModel>) -> bool {
    forall|i: int, j: int|
        0 <= i < s.len() && 0 <= j < s.len() && i != j ==> (#[trigger] s[i]).pid != (
        #[trigger] s[j]).pid
}

/// Some slot belongs to the given process id.
pub open spec fn shells_have_pid(s: Seq<ShellSlotModel>, pid: u32) -> bool {
    exists|i: int| 0 <= i < s.len() && (#[trigger] s[i]).pid == pid
}

impl View for ShellCwdState {
    type V = Seq<ShellSlotModel>;

    open spec fn view(&self) -> Seq<ShellSlotModel> {
        self.shells@.map_values(|s: ShellSlot| s@)
    }
}

impl ShellCwdState {
    /// Process ids distinct.
    pub open spec fn wf(&self) -> bool {
        shells_wf(self@)
    }

    /// An empty state at the current schema version.
    pub fn new() -> (r: ShellCwdState)
        ensures
            r@.len() == 0,
            r.wf(),
            r.version == SHELL_STATE_VERSION,
    {
        let r = ShellCwdState { version: SHELL_STATE_VERSION, shells: Vec::new() };
        proof {
            assert(r@.len() == 0);
        }
        r
    }

    /// Rebuild a state from parsed slots. Every parsed process id appears in
    /// the result; a slot repeating an earlier slot's process id is dropped,
    /// so slots with pairwise distinct ids are all kept unchanged.
    pub fn from_slots(version: u32, slots: Vec<ShellSlot>) -> (r: ShellCwdState)
        ensures
            r.wf(),
            r.version == version,
            forall|i: int| 0 <= i < r@.len() ==> #[trigger] is_slot_of_one(slots@, r@[i]),
            forall|j: int|
                0 <= j < slots@.len() ==> shells_have_pid(r@, (#[trigger] slots@[j])@.pid),
            slots_wf(slots@) ==> forall|j: int|
                0 <= j < slots@.len() ==> #[trigger] has_slot_content(r@, slots@[j]@),
    {
        let mut out = ShellCwdState::new();
        out.version = version;
        let n = slots.len();
        let mut i: usize = 0;
        while i < n
            invariant
                i <= n,
                n == slots@.len(),
                out.version == version,
                out.wf(),
                forall|k: int| 0 <= k < out@.len() ==> #[trigger] is_slot_of_one(slots@, out@[k]),
                forall|k: int|
                    0 <= k < out@.len() ==> #[trigger] slot_pid_among(
                        slots@,
                        i as int,
                        out@[k].pid,
                    ),
                forall|j: int|
                    0 <= j < i ==> shells_have_pid(out@, (#[trigger] slots@[j])@.pid),
                slots_wf(slots@) ==> forall|j: int|
                    0 <= j < i ==> #[trigger] has_slot_content(out@, slots@[j]@),
            decreases n - i,
        {
            let slot = shell_slot_copy(&slots[i]);
            match out.find_pid(slot.pid) {
                Option::Some(w) => {
                    proof {
                        assert(out@[w as int].pid == slots@[i as int]@.pid);
                        assert(shells_have_pid(out@, slots@[i as int]@.pid));
                        assert forall|k: int| 0 <= k < out@.len() implies #[trigger] slot_pid_among(
                            slots@,
                            i as int + 1,
                            out@[k].pid,
                        ) by {
                            assert(slot_pid_among(slots@, i as int, out@[k].pid));
                            let jj = choose|jx: int|
                                0 <= jx < i && (#[trigger] slots@[jx])@.pid == out@[k].pid;
                            assert(0 <= jj < i + 1 && slots@[jj]@.pid == out@[k].pid);
                        }
                        if slots_wf(slots@) {
                            assert(slot_pid_among(slots@, i as int, out@[w as int].pid));
                            let jj = choose|jx: int|
                                0 <= jx < i && (#[trigger] slots@[jx])@.pid == out@[w as int].pid;
                            assert(slots@[jj]@.pid == slots@[i as int]@.pid);
                            assert(false);
                        }
                    }
                },
                Option::None => {
                    let ghost prev = out@;
                    out.shells.push(slot);
                    proof {
                        assert(out@ =~= prev.push(slots@[i as int]@));
                        assert(out@[prev.len() as int] == slots@[i as int]@);
                        assert(is_slot_of_one(slots@, slots@[i as int]@));
                        assert forall|k: int| 0 <= k < out@.len() implies #[trigger] slot_pid_among(
                            slots@,
                            i as int + 1,
                            out@[k].pid,
                        ) by {
                            if k < prev.len() {
                                assert(slot_pid_among(slots@, i as int, prev[k].pid));
                                let jj = choose|jx: int|
                                    0 <= jx < i && (#[trigger] slots@[jx])@.pid == prev[k].pid;
                                assert(0 <= jj < i + 1 && slots@[jj]@.pid == out@[k].pid);
                            } else {
                                assert(0 <= i < i + 1 && slots@[i as int]@.pid == out@[k].pid);
                            }
                        }
                        assert forall|jx: int| 0 <= jx < i + 1 implies shells_have_pid(
                            out@,
                            (#[trigger] slots@[jx])@.pid,
                        ) by {
                            if jx < i {
                                assert(shells_have_pid(prev, slots@[jx]@.pid));
                                let w2 = choose|w2: int|
                                    0 <= w2 < prev.len() && (#[trigger] prev[w2]).pid
                                        == slots@[jx]@.pid;
                                assert(out@[w2].pid == slots@[jx]@.pid);
                            } else {
                                assert(out@[prev.len() as int].pid == slots@[jx]@.pid);
                            }
                        }
                        if slots_wf(slots@) {
                            assert forall|jx: int| 0 <= jx < i + 1 implies #[trigger] has_slot_content(
                                out@,
                                slots@[jx]@,
                            ) by {
                                if jx < i {
                                    assert(has_slot_content(prev, slots@[jx]@));
                                    let w2 = choose|w2: int|
                                        0 <= w2 < prev.len() && #[trigger] prev[w2] == slots@[jx]@;
                                    assert(out@[w2] == slots@[jx]@);
                                } else {
                                    assert(out@[prev.len() as int] == slots@[jx]@);
                                }
                            }
                        }
                    }
                },
            }
            i = i + 1;
        }
        out
    }

    /// All slots, in storage order.
    pub fn slots(&self) -> (r: &Vec<ShellSlot>)
        ensures
            r@.len() == self@.len(),
            forall|i: int| 0 <= i < self@.len() ==> (#[trigger] r@[i])@ == self@[i],
    {
        &self.shells
    }

    /// Index of the slot for a process id, if any.
    fn find_pid(&self, pid: u32) -> (r: Option<usize>)
        ensures
            (match r {
                Option::Some(i) => i < self@.len() && self@[i as int].pid == pid,
                Option::None => forall|i: int|
                    0 <= i < self@.len() ==> (#[trigger] self@[i]).pid != pid,
            }),
    {
        let n = self.shells.len();
        let mut i: usize = 0;
        while i < n
            invariant
                i <= n,
                n == self.shells.len(),
                self@.len() == n,
                forall|j: int| 0 <= j < i ==> (#[trigger] self@[j]).pid != pid,
            decreases n - i,
        {
            if self.shells[i].pid == pid {
                return Option::Some(i);
            }
            i = i + 1;
        }
        Option::None
    }

    /// Record a shell's position: its slot is replaced or created. Returns
    /// whether the reported directory differs from the slot's previous one —
    /// the signal to append a history line.
    pub fn upsert_shell(
        &mut self,
        pid: u32,
        cwd: &str,
        tty: &str,
        parent_app: Option<String>,
        now: i64,
    ) -> (cwd_changed: bool)
        requires
            old(self).wf(),
        ensures
            final(self).wf(),
            final(self).version == old(self).version,
            cwd_changed == !(exists|i: int|
                0 <= i < old(self)@.len() && (#[trigger] old(self)@[i]).pid == pid
                    && old(self)@[i].entry.cwd == cwd@),
            (if shells_have_pid(old(self)@, pid) {
                exists|i: int|
                    0 <= i < old(self)@.len() && (#[trigger] old(self)@[i]).pid == pid
                        && final(self)@ =~= old(self)@.update(
                        i,
                        (ShellSlotModel {
                            pid: pid,
                            entry: ShellEntryModel {
                                cwd: cwd@,
                                tty: tty@,
                                parent_app: view_opt_string(parent_app),
                                updated_at: now as int,
                            },
                        }),
                    )
            } else {
                final(self)@ =~= old(self)@.push(
                    (ShellSlotModel {
                        pid: pid,
                        entry: ShellEntryModel {
                            cwd: cwd@,
                            tty: tty@,
                            parent_app: view_opt_string(parent_app),
                            updated_at: now as int,
                        },
                    }),
                )
            }),
    {
        let entry = ShellEntry {
            cwd: cwd.to_owned(),
            tty: tty.to_owned(),
            parent_app: parent_app,
            updated_at: now,
        };
        match self.find_pid(pid) {
            Option::Some(i) => {
                let changed = !crate::paths::str_eq(self.shells[i].entry.cwd.as_str(), cwd);
                let slot = ShellSlot { pid: pid, entry: entry };
                self.shells.set(i, slot);
                proof {
                    assert(final(self)@ =~= old(self)@.update(
                        i as int,
                        (ShellSlotModel {
                            pid: pid,
                            entry: ShellEntryModel {
                                cwd: cwd@,
                                tty: tty@,
                                parent_app: view_opt_string(parent_app),
                                updated_at: now as int,
                            },
                        }),
                    ));
                }
                changed
            },
            Option::None => {
                self.shells.push(ShellSlot { pid: pid, entry: entry });
                proof {
                    assert(final(self)@ =~= old(self)@.push(
                        (ShellSlotModel {
                            pid: pid,
                            entry: ShellEntryModel {
                                cwd: cwd@,
                                tty: tty@,
                                parent_app: view_opt_string(parent_app),
                                updated_at: now as int,
                            },
                        }),
                    ));
                }
                true
            },
        }
    }
}

/// Copy of a shell slot.
pub fn shell_slot_copy(slot: &ShellSlot) -> (r: ShellSlot)
    ensures
        r == *slot,
{
    ShellSlot {
        pid: slot.pid,
        entry: ShellEntry {
            cwd: slot.entry.cwd.clone(),
            tty: slot.entry.tty.clone(),
            parent_app: crate::types::opt_string_copy(&slot.entry.parent_app),
            updated_at: slot.entry.updated_at,
        },
    }
}

/// `needle` occurs contiguously inside `hay`.
pub open spec fn contains_sub(hay: Seq<char>, needle: Seq<char>) -> bool {
    exists|k: int|
        0 <= k <= hay.len() - needle.len() && #[trigger] hay.subrange(k, k + needle.len() as int)
            == needle
}

/// Whether `needle` occurs at position `k` of `hay`.
fn matches_at(hay: &str, needle: &str, k: usize) -> (r: bool)
    requires
        k + needle@.len() <= hay@.len(),
    ensures
        r == (hay@.subrange(k as int, k as int + needle@.len() as int) == needle@),
{
    let hl = hay.unicode_len();
    let nl = needle.unicode_len();
    let mut j: usize = 0;
    while j < nl
        invariant
            j <= nl,
            nl == needle@.len(),
            hl == hay@.len(),
            k + nl <= hl,
            forall|t: int| 0 <= t < j ==> hay@[k + t] == needle@[t],
        decreases nl - j,
    {
        if hay.get_char(k + j) != needle.get_char(j) {
            assert(hay@.subrange(k as int, k as int + nl as int)[j as int] != needle@[j as int]);
            return false;
        }
        j = j + 1;
    }
    proof {
        assert(hay@.subrange(k as int, k as int + nl as int) =~= needle@);
    }
    true
}

/// Substring test.
pub fn str_contains(hay: &str, needle: &str) -> (r: bool)
    ensures
        r == contains_sub(hay@, needle@),
{
    let hl = hay.unicode_len();
    let nl = needle.unicode_len();
    if nl > hl {
        return false;
    }
    if nl == 0 {
        proof {
            assert(contains_sub(hay@, needle@)) by {
                assert(hay@.subrange(0, 0 + needle@.len() as int) =~= needle@);
            }
        }
        return true;
    }
    let mut k: usize = 0;
    while k <= hl - nl
        invariant
            1 <= nl <= hl,
            hl == hay@.len(),
            nl == needle@.len(),
            k <= hl - nl + 1,
            forall|t: int|
                0 <= t < k ==> #[trigger] hay@.subrange(t, t + needle@.len() as int) != needle@,
        decreases hl + 1 - nl - k,
    {
        if matches_at(hay, needle, k) {
            return true;
        }
        k = k + 1;
    }
    false
}

/// The application id a process name maps to, checked in a fixed order:
/// editors first, then terminal emulators, then multiplexers.
pub open spec fn spec_classify_app(name: Seq<char>) -> Option<Seq<char>> {
    if contains_sub(name, "Cursor Helper"@) {
        Option::Some("cursor"@)
    } else if contains_sub(name, "Cursor"@) {
        Option::Some("cursor"@)
    } else if contains_sub(name, "Code Helper"@) {
        Option::Some("vscode"@)
    } else if contains_sub(name, "Code - Insiders"@) {
        Option::Some("vscode-insiders"@)
    } else if contains_sub(name, "Code"@) {
        Option::Some("vscode"@)
    } else if contains_sub(name, "Ghostty"@) {
        Option::Some("ghostty"@)
    } else if contains_sub(name, "iTerm2"@) {
        Option::Some("iterm2"@)
    } else if contains_sub(name, "Terminal"@) {
        Option::Some("terminal"@)
    } else if contains_sub(name, "Alacritty"@) {
        Option::Some("alacritty"@)
    } else if contains_sub(name, "kitty"@) {
        Option::Some("kitty"@)
    } else if contains_sub(name, "WarpTerminal"@) {
        Option::Some("warp"@)
    } else if contains_sub(name, "Warp"@) {
        Option::Some("warp"@)
    } else if contains_sub(name, "tmux"@) {
        Option::Some("tmux"@)
    } else {
        Option::None
    }
}

/// Classify the application a process name belongs to. The surrounding
/// process layer walks a shell's ancestry and calls this on each ancestor's
/// name until one classifies.
pub fn classify_parent_app(name: &str) -> (r: Option<String>)
    ensures
        view_opt_string(r) == spec_classify_app(name@),
{
    if str_contains(name, "Cursor Helper") {
        Option::Some(String::from_str("cursor"))
    } else if str_contains(name, "Cursor") {
        Option::Some(String::from_str("cursor"))
    } else if str_contains(name, "Code Helper") {
        Option::Some(String::from_str("vscode"))
    } else if str_contains(name, "Code - Insiders") {
        Option::Some(String::from_str("vscode-insiders"))
    } else if str_contains(name, "Code") {
        Option::Some(String::from_str("vscode"))
    } else if str_contains(name, "Ghostty") {
        Option::Some(String::from_str("ghostty"))
    } else if str_contains(name, "iTerm2") {
        Option::Some(String::from_str("iterm2"))
    } else if str_contains(name, "Terminal") {
        Option::Some(String::from_str("terminal"))
    } else if str_contains(name, "Alacritty") {
        Option::Some(String::from_str("alacritty"))
    } else if str_contains(name, "kitty") {
        Option::Some(String::from_str("kitty"))
    } else if str_contains(name, "WarpTerminal") {
        Option::Some(String::from_str("warp"))
    } else if str_contains(name, "Warp") {
        Option::Some(String::from_str("warp"))
    } else if str_contains(name, "tmux") {
        Option::Some(String::from_str("tmux"))
    } else {
        Option::None
    }
}

} // verus!
