//! Path normalization and the hierarchical match relation.
//!
//! Project paths are compared after stripping trailing slashes (the root path
//! `"/"` is kept). On normalized paths the library distinguishes three match
//! kinds, ordered `Exact > Child > Parent`. The direction matters: a lock at a
//! child path answers a query for its parent, a lock at a parent path never
//! answers a query for a child.

use vstd::prelude::*;
use vstd::string::StrSliceExecFns;

verus! {

/// Sequence form of the root path `"/"`.
pub open spec fn is_root(s: Seq<char>) -> bool {
    s.len() == 1 && s[0] == '/'
}

/// Drop every trailing `'/'` from a character sequence.
pub open spec fn strip_trailing_slashes(s: Seq<char>) -> Seq<char>
    decreases s.len(),
{
    if s.len() > 0 && s[s.len() - 1] == '/' {
        strip_trailing_slashes(s.drop_last())
    } else {
        s
    }
}

/// Normalized form of a path: trailing slashes removed, except that the root
/// path keeps its single slash.
pub open spec fn norm_path(s: Seq<char>) -> Seq<char> {
    if is_root(s) {
        s
    } else {
        strip_trailing_slashes(s)
    }
}

/// `a` lies strictly below `b` in the directory tree. Both arguments are
/// expected in normalized form.
pub open spec fn child_of(a: Seq<char>, b: Seq<char>) -> bool {
    if is_root(b) {
        a.len() > 0 && a[0] == '/' && !is_root(a)
    } else {
        a.len() > b.len() && a.subrange(0, b.len() as int) == b && a[b.len() as int] == '/'
    }
}

/// Match kind of one path against another, ordered by `match_rank`.
#[derive(Clone, Copy, PartialEq, Eq, Structural, Debug)]
pub enum MatchType {
    Parent,
    Child,
    Exact,
}

/// Priority of a match kind: `Exact > Child > Parent`.
pub open spec fn match_rank(m: MatchType) -> int {
    match m {
        MatchType::Parent => 0,
        MatchType::Child => 1,
        MatchType::Exact => 2,
    }
}

/// Rank of an optional match; no match ranks below every match.
pub open spec fn opt_match_rank(m: Option<MatchType>) -> int {
    match m {
        Option::None => -1,
        Option::Some(k) => match_rank(k),
    }
}

/// How path `a` relates to path `b`, after normalization: equal, strictly
/// below, strictly above, or unrelated.
pub open spec fn spec_path_match(a: Seq<char>, b: Seq<char>) -> Option<MatchType> {
    let na = norm_path(a);
    let nb = norm_path(b);
    if na == nb {
        Option::Some(MatchType::Exact)
    } else if child_of(na, nb) {
        Option::Some(MatchType::Child)
    } else if child_of(nb, na) {
        Option::Some(MatchType::Parent)
    } else {
        Option::None
    }
}

/// A lock claiming path `x` answers a query for path `q` exactly when `x` is
/// `q` itself or lies strictly below it.
pub open spec fn lock_answers(x: Seq<char>, q: Seq<char>) -> bool {
    norm_path(x) == norm_path(q) || child_of(norm_path(x), norm_path(q))
}

proof fn lemma_strip_step(s: Seq<char>, k: int)
    requires
        0 < k <= s.len(),
        s[k - 1] == '/',
    ensures
        strip_trailing_slashes(s.subrange(0, k)) == strip_trailing_slashes(s.subrange(0, k - 1)),
{
    let t = s.subrange(0, k);
    assert(t.len() == k);
    assert(t[k - 1] == '/');
    assert(t.drop_last() =~= s.subrange(0, k - 1));
}

/// The character-by-character equality test behind every exact comparison.
pub fn str_eq(a: &str, b: &str) -> (r: bool)
    ensures
        r == (a@ == b@),
{
    let n = a.unicode_len();
    if n != b.unicode_len() {
        assert(a@.len() != b@.len());
        return false;
    }
    let mut i: usize = 0;
    while i < n
        invariant
            n == a@.len(),
            n == b@.len(),
            i <= n,
            forall|j: int| 0 <= j < i ==> a@[j] == b@[j],
        decreases n - i,
    {
        if a.get_char(i) != b.get_char(i) {
            return false;
        }
        i = i + 1;
    }
    proof {
        assert(a@ =~= b@);
    }
    true
}

/// Strip trailing slashes from `path`; the root path is returned unchanged.
pub fn normalize_path(path: &str) -> (r: String)
    ensures
        r@ == norm_path(path@),
{
    let n = path.unicode_len();
    if n == 1 && path.get_char(0) == '/' {
        assert(is_root(path@));
        return path.to_owned();
    }
    assert(!is_root(path@));
    let mut k: usize = n;
    proof {
        assert(path@.subrange(0, n as int) =~= path@);
    }
    while k > 0 && path.get_char(k - 1) == '/'
        invariant
            k <= n,
            n == path@.len(),
            strip_trailing_slashes(path@.subrange(0, k as int)) == strip_trailing_slashes(path@),
        decreases k,
    {
        proof {
            lemma_strip_step(path@, k as int);
        }
        k = k - 1;
    }
    let sub = path.substring_char(0, k);
    proof {
        let t = path@.subrange(0, k as int);
        if k > 0 {
            assert(t[k - 1] != '/');
        }
        assert(strip_trailing_slashes(t) == t);
    }
    sub.to_owned()
}

/// Whether `a` lies strictly below `b`; both must already be normalized
/// strings (as produced by `normalize_path`).
pub fn is_child_path(a: &str, b: &str) -> (r: bool)
    ensures
        r == child_of(a@, b@),
{
    let al = a.unicode_len();
    let bl = b.unicode_len();
    if bl == 1 && b.get_char(0) == '/' {
        assert(is_root(b@));
        if al == 0 {
            return false;
        }
        if a.get_char(0) != '/' {
            return false;
        }
        return !(al == 1);
    }
    assert(!is_root(b@));
    if al <= bl {
        return false;
    }
    let mut i: usize = 0;
    while i < bl
        invariant
            i <= bl,
            bl == b@.len(),
            al == a@.len(),
            al > bl,
            forall|j: int| 0 <= j < i ==> a@[j] == b@[j],
        decreases bl - i,
    {
        if a.get_char(i) != b.get_char(i) {
            assert(a@.subrange(0, bl as int)[i as int] != b@[i as int]);
            return false;
        }
        i = i + 1;
    }
    proof {
        assert(a@.subrange(0, bl as int) =~= b@);
    }
    a.get_char(bl) == '/'
}

/// Match kind of `a` against `b`, both taken raw and normalized internally.
pub fn path_match_type(a: &str, b: &str) -> (r: Option<MatchType>)
    ensures
        r == spec_path_match(a@, b@),
{
    let na = normalize_path(a);
    let nb = normalize_path(b);
    if str_eq(na.as_str(), nb.as_str()) {
        Option::Some(MatchType::Exact)
    } else if is_child_path(na.as_str(), nb.as_str()) {
        Option::Some(MatchType::Child)
    } else if is_child_path(nb.as_str(), na.as_str()) {
        Option::Some(MatchType::Parent)
    } else {
        Option::None
    }
}

/// Whether a lock claiming `x` answers a query for `q`.
pub fn lock_path_answers(x: &str, q: &str) -> (r: bool)
    ensures
        r == lock_answers(x@, q@),
{
    let nx = normalize_path(x);
    let nq = normalize_path(q);
    if str_eq(nx.as_str(), nq.as_str()) {
        true
    } else {
        is_child_path(nx.as_str(), nq.as_str())
    }
}

/// Lexicographic order on character sequences, by Unicode scalar value; this
/// is the order in which the std string comparison ranks UTF-8 strings.
pub open spec fn lex_gt(a: Seq<char>, b: Seq<char>) -> bool
    decreases a.len(),
{
    if b.len() == 0 {
        a.len() > 0
    } else if a.len() == 0 {
        false
    } else if a[0] == b[0] {
        lex_gt(a.drop_first(), b.drop_first())
    } else {
        a[0] as u32 > b[0] as u32
    }
}

/// Lexicographically strictly-greater test on strings.
pub fn str_lex_gt(a: &str, b: &str) -> (r: bool)
    ensures
        r == lex_gt(a@, b@),
{
    let al = a.unicode_len();
    let bl = b.unicode_len();
    let mut i: usize = 0;
    proof {
        assert(a@.skip(0) =~= a@);
        assert(b@.skip(0) =~= b@);
    }
    while i < al && i < bl
        invariant
            i <= al,
            i <= bl,
            al == a@.len(),
            bl == b@.len(),
            lex_gt(a@, b@) == lex_gt(a@.skip(i as int), b@.skip(i as int)),
        decreases al - i,
    {
        let ca = a.get_char(i);
        let cb = b.get_char(i);
        if ca != cb {
            assert(a@.skip(i as int)[0] == ca);
            assert(b@.skip(i as int)[0] == cb);
            return (ca as u32) > (cb as u32);
        }
        proof {
            assert(a@.skip(i as int).drop_first() =~= a@.skip(i as int + 1));
            assert(b@.skip(i as int).drop_first() =~= b@.skip(i as int + 1));
        }
        i = i + 1;
    }
    proof {
        if i >= bl {
            assert(b@.skip(i as int).len() == 0);
        } else {
            assert(a@.skip(i as int).len() == 0);
            assert(b@.skip(i as int).len() > 0);
        }
    }
    al > bl
}

/// Strictly-below is irreflexive and asymmetric: a path never lies strictly
/// below itself, and two paths never lie strictly below each other.
pub proof fn lemma_child_asymmetric(a: Seq<char>, b: Seq<char>)
    ensures
        child_of(a, b) ==> a != b,
        !(child_of(a, b) && child_of(b, a)),
{
    if child_of(a, b) {
        if is_root(b) {
            assert(a != b);
            if child_of(b, a) {
                if is_root(a) {
                    assert(false);
                } else {
                    assert(b.len() > a.len());
                    assert(a.len() >= 2) by {
                        if a.len() == 1 {
                            assert(is_root(a));
                        }
                    }
                    assert(false);
                }
            }
        } else {
            assert(a.len() > b.len());
            assert(a != b);
            if child_of(b, a) {
                if is_root(a) {
                    assert(a.len() == 1);
                    assert(b.len() < 1);
                    assert(b.len() > 0);
                    assert(false);
                } else {
                    assert(b.len() > a.len());
                    assert(false);
                }
            }
        }
    }
}

/// Strictly-below is transitive down the directory tree.
pub proof fn lemma_child_transitive(a: Seq<char>, b: Seq<char>, c: Seq<char>)
    requires
        child_of(a, b),
        child_of(b, c),
    ensures
        child_of(a, c),
{
    if is_root(c) {
        assert(b.len() > 0 && b[0] == '/' && !is_root(b));
        if is_root(b) {
            assert(false);
        } else {
            assert(a.len() > b.len());
            assert(a.subrange(0, b.len() as int)[0] == b[0]);
            assert(a[0] == '/');
            assert(a.len() >= 2);
            assert(!is_root(a));
        }
    } else if is_root(b) {
        assert(b.len() > c.len());
        assert(c.len() == 0);
        assert(a.len() > 0 && a[0] == '/');
        assert(a.subrange(0, 0) =~= c);
        assert(child_of(a, c));
    } else {
        assert(a.len() > b.len() > c.len());
        assert(a.subrange(0, c.len() as int) =~= a.subrange(0, b.len() as int).subrange(
            0,
            c.len() as int,
        ));
        assert(a.subrange(0, b.len() as int) == b);
        assert(a.subrange(0, c.len() as int) == b.subrange(0, c.len() as int));
        assert(a[c.len() as int] == b[c.len() as int]);
    }
}

/// Two paths that both lie strictly above a common descendant are comparable:
/// equal, or one strictly below the other.
pub proof fn lemma_parents_comparable(c: Seq<char>, a: Seq<char>, b: Seq<char>)
    requires
        child_of(c, a),
        child_of(c, b),
    ensures
        a == b || child_of(a, b) || child_of(b, a),
{
    if is_root(a) && is_root(b) {
        assert(a =~= b);
    } else if is_root(a) {
        if b.len() == 0 {
            assert(a.subrange(0, 0) =~= b);
            assert(child_of(a, b));
        } else {
            assert(c.len() > b.len());
            assert(c.subrange(0, b.len() as int) == b);
            assert(b[0] == c.subrange(0, b.len() as int)[0]);
            assert(b[0] == c[0]);
            assert(c[0] == '/');
            assert(child_of(b, a));
        }
    } else if is_root(b) {
        if a.len() == 0 {
            assert(b.subrange(0, 0) =~= a);
            assert(child_of(b, a));
        } else {
            assert(c.len() > a.len());
            assert(c.subrange(0, a.len() as int) == a);
            assert(a[0] == c.subrange(0, a.len() as int)[0]);
            assert(a[0] == c[0]);
            assert(c[0] == '/');
            assert(child_of(a, b));
        }
    } else {
        assert(c.len() > a.len());
        assert(c.len() > b.len());
        assert(c.subrange(0, a.len() as int) == a);
        assert(c.subrange(0, b.len() as int) == b);
        if a.len() == b.len() {
            assert(a =~= b);
        } else if a.len() < b.len() {
            assert(b.subrange(0, a.len() as int) =~= c.subrange(0, b.len() as int).subrange(
                0,
                a.len() as int,
            ));
            assert(b.subrange(0, a.len() as int) =~= c.subrange(0, a.len() as int));
            assert(b[a.len() as int] == c[a.len() as int]);
            assert(c[a.len() as int] == '/');
            assert(child_of(b, a));
        } else {
            assert(a.subrange(0, b.len() as int) =~= c.subrange(0, a.len() as int).subrange(
                0,
                b.len() as int,
            ));
            assert(a.subrange(0, b.len() as int) =~= c.subrange(0, b.len() as int));
            assert(a[b.len() as int] == c[b.len() as int]);
            assert(c[b.len() as int] == '/');
            assert(child_of(a, b));
        }
    }
}

/// The lexicographic order is irreflexive.
pub proof fn lemma_lex_irreflexive(a: Seq<char>)
    ensures
        !lex_gt(a, a),
    decreases a.len(),
{
    if a.len() > 0 {
        lemma_lex_irreflexive(a.drop_first());
    }
}

/// The lexicographic order is total: two distinct sequences compare strictly
/// one way or the other.
pub proof fn lemma_lex_total(a: Seq<char>, b: Seq<char>)
    requires
        a != b,
    ensures
        lex_gt(a, b) || lex_gt(b, a),
    decreases a.len(),
{
    if b.len() == 0 {
        if a.len() == 0 {
            assert(a =~= b);
        }
    } else if a.len() == 0 {
    } else if a[0] == b[0] {
        assert(a.drop_first() != b.drop_first()) by {
            if a.drop_first() == b.drop_first() {
                assert(a.drop_first().len() == a.len() - 1);
                assert(b.drop_first().len() == b.len() - 1);
                assert(a.len() == b.len());
                assert forall|i: int| 0 <= i < a.len() implies a[i] == b[i] by {
                    if i > 0 {
                        assert(a[i] == a.drop_first()[i - 1]);
                        assert(b[i] == b.drop_first()[i - 1]);
                    }
                }
                assert(a =~= b);
            }
        }
        lemma_lex_total(a.drop_first(), b.drop_first());
    } else {
        assert(a[0] as u32 != b[0] as u32) by {
            if a[0] as u32 == b[0] as u32 {
                vstd::utf8::char_u32_cast(a[0], a[0] as u32);
                vstd::utf8::char_u32_cast(b[0], b[0] as u32);
                assert(a[0] == b[0]);
            }
        }
    }
}

/// The lexicographic order is transitive.
pub proof fn lemma_lex_transitive(a: Seq<char>, b: Seq<char>, c: Seq<char>)
    requires
        lex_gt(a, b),
        lex_gt(b, c),
    ensures
        lex_gt(a, c),
    decreases a.len(),
{
    if c.len() == 0 {
    } else {
        assert(b.len() > 0);
        assert(a.len() > 0);
        if a[0] == b[0] && b[0] == c[0] {
            lemma_lex_transitive(a.drop_first(), b.drop_first(), c.drop_first());
        }
    }
}

} // verus!
