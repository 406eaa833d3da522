//! Paths as `/`-separated text, and the mapping of a path that is
//! absolute inside some tree into a path below the tree's real root.

use vstd::prelude::*;

verus! {

/// The number of `/` characters at the start of `s`.
pub open spec fn leading_slashes(s: Seq<char>) -> nat
    decreases s.len(),
{
    if s.len() > 0 && s[0] == '/' {
        1 + leading_slashes(s.drop_first())
    } else {
        0
    }
}

/// `s` without its leading `/` characters.
pub open spec fn trim_leading_slashes(s: Seq<char>) -> Seq<char> {
    s.subrange(leading_slashes(s) as int, s.len() as int)
}

/// Whether a path starts at the root of its tree.
pub open spec fn is_rooted(s: Seq<char>) -> bool {
    s.len() > 0 && s[0] == '/'
}

/// `other`, taken relative to `root` whether or not it starts with `/`.
///
/// An empty root contributes nothing; otherwise exactly one separator
/// stands between the root and the rest unless the root already ends in one.
pub open spec fn adjoin(root: Seq<char>, other: Seq<char>) -> Seq<char> {
    let rest = trim_leading_slashes(other);
    if root.len() == 0 {
        rest
    } else if root.last() == '/' {
        root + rest
    } else {
        root + seq!['/'] + rest
    }
}

/// The leading separators are separators, and what follows them is none.
pub proof fn lemma_leading_slashes_bound(s: Seq<char>)
    ensures
        leading_slashes(s) <= s.len(),
        forall|i: int| 0 <= i < leading_slashes(s) ==> s[i] == '/',
        leading_slashes(s) < s.len() ==> s[leading_slashes(s) as int] != '/',
    decreases s.len(),
{
    if s.len() > 0 && s[0] == '/' {
        let t = s.drop_first();
        lemma_leading_slashes_bound(t);
        assert forall|i: int| 0 <= i < leading_slashes(s) implies s[i] == '/' by {
            if i > 0 {
                assert(s[i] == t[i - 1]);
            }
        }
        if leading_slashes(s) < s.len() {
            assert(s[leading_slashes(s) as int] == t[leading_slashes(t) as int]);
        }
    }
}

/// A count of leading separators is the only number `k` such that the
/// first `k` characters are separators and the next one is not.
pub proof fn lemma_leading_slashes_unique(s: Seq<char>, k: int)
    requires
        0 <= k <= s.len(),
        forall|i: int| 0 <= i < k ==> s[i] == '/',
        k < s.len() ==> s[k] != '/',
    ensures
        leading_slashes(s) == k,
    decreases s.len(),
{
    if k > 0 {
        let t = s.drop_first();
        assert forall|i: int| 0 <= i < k - 1 implies t[i] == '/' by {
            assert(t[i] == s[i + 1]);
        }
        lemma_leading_slashes_unique(t, k - 1);
    }
}

/// What is left after trimming does not start with a separator.
pub proof fn lemma_trimmed_is_relative(s: Seq<char>)
    ensures
        !is_rooted(trim_leading_slashes(s)),
{
    lemma_leading_slashes_bound(s);
}

/// Trimming a path that does not start with a separator changes nothing.
pub proof fn lemma_trim_relative(s: Seq<char>)
    requires
        !is_rooted(s),
    ensures
        trim_leading_slashes(s) == s,
{
    assert(leading_slashes(s) == 0);
    assert(s.subrange(0, s.len() as int) =~= s);
}

/// Leading separators of the adjoined path are irrelevant: a path written
/// as absolute and the same path written as relative land in the same
/// place below any root.
pub proof fn lemma_adjoin_ignores_leading_slash(root: Seq<char>, path: Seq<char>)
    ensures
        adjoin(root, seq!['/'] + path) == adjoin(root, path),
{
    let abs = seq!['/'] + path;
    assert(abs.drop_first() =~= path);
    assert(leading_slashes(abs) == 1 + leading_slashes(path));
    lemma_leading_slashes_bound(path);
    assert(trim_leading_slashes(abs) =~= trim_leading_slashes(path));
}

/// Adjoining never leaves the root: the result starts with the root, so
/// an absolute destination is never taken as a literal host path.
pub proof fn lemma_adjoin_stays_below_root(root: Seq<char>, path: Seq<char>)
    ensures
        root.is_prefix_of(adjoin(root, path)),
        adjoin(root, path).len() >= root.len(),
{
    let rest = trim_leading_slashes(path);
    if root.len() == 0 {
    } else if root.last() == '/' {
        assert((root + rest).subrange(0, root.len() as int) =~= root);
    } else {
        assert((root + seq!['/'] + rest).subrange(0, root.len() as int) =~= root);
    }
}

/// Counts the `/` characters at the start of `s`.
pub fn count_leading_slashes(s: &str) -> (k: usize)
    ensures
        k == leading_slashes(s@),
        k <= s@.len(),
{
    let n: usize = s.unicode_len();
    let mut k: usize = 0;
    while k < n && s.get_char(k) == '/'
        invariant
            n == s@.len(),
            k <= n,
            forall|i: int| 0 <= i < k ==> s@[i] == '/',
        decreases n - k,
    {
        k += 1;
    }
    proof {
        lemma_leading_slashes_unique(s@, k as int);
    }
    k
}

/// Whether `s` starts with `/`.
pub fn starts_at_root(s: &str) -> (b: bool)
    ensures
        b == is_rooted(s@),
{
    s.unicode_len() > 0 && s.get_char(0) == '/'
}

/// The length of the run at the end of `s` of separators (`slashes`) or of
/// other characters (`!slashes`).
pub open spec fn trailing_run(s: Seq<char>, slashes: bool) -> nat
    decreases s.len(),
{
    if s.len() > 0 && (s.last() == '/') == slashes {
        1 + trailing_run(s.drop_last(), slashes)
    } else {
        0
    }
}

/// `s` without the run at its end of separators or of other characters.
pub open spec fn without_trailing_run(s: Seq<char>, slashes: bool) -> Seq<char> {
    s.take(s.len() - trailing_run(s, slashes))
}

/// The path that holds the last component of `s`.
///
/// Separators at the end are ignored. There is none for the empty path
/// and for the root; a single component has the empty path as its parent,
/// and a component right below the root has the root. Components `.` and
/// `..` are taken as names like any other.
pub open spec fn parent(s: Seq<char>) -> Option<Seq<char>> {
    let body = without_trailing_run(s, true);
    let head = without_trailing_run(body, false);
    let stem = without_trailing_run(head, true);
    if body.len() == 0 {
        None
    } else if head.len() == 0 {
        Some(Seq::empty())
    } else if stem.len() == 0 {
        Some(seq!['/'])
    } else {
        Some(stem)
    }
}

/// `other` appended to `base` as a path: a rooted `other` replaces `base`,
/// any other is put below it.
pub open spec fn join(base: Seq<char>, other: Seq<char>) -> Seq<char> {
    if is_rooted(other) {
        other
    } else {
        adjoin(base, other)
    }
}

/// The length of the run at the end is the only number `k` such that the
/// last `k` characters belong to the run and the one before them does not.
pub proof fn lemma_trailing_run_unique(s: Seq<char>, slashes: bool, k: int)
    requires
        0 <= k <= s.len(),
        forall|i: int| s.len() - k <= i < s.len() ==> (s[i] == '/') == slashes,
        k < s.len() ==> (s[s.len() - k - 1] == '/') != slashes,
    ensures
        trailing_run(s, slashes) == k,
    decreases s.len(),
{
    if k > 0 {
        let t = s.drop_last();
        assert forall|i: int| t.len() - (k - 1) <= i < t.len() implies (t[i] == '/') == slashes by {
            assert(t[i] == s[i]);
        }
        if k - 1 < t.len() {
            assert(t[t.len() - (k - 1) - 1] == s[s.len() - k - 1]);
        }
        lemma_trailing_run_unique(t, slashes, k - 1);
    }
}

/// The parent of a path is one of its proper prefixes, or the root.
pub proof fn lemma_parent_is_shorter(s: Seq<char>)
    ensures
        parent(s) matches Some(p) ==> p.len() < s.len() && (p.is_prefix_of(s) || p == seq!['/']),
{
    let body = without_trailing_run(s, true);
    let head = without_trailing_run(body, false);
    let stem = without_trailing_run(head, true);
    lemma_trailing_run_bound(s, true);
    lemma_trailing_run_bound(body, false);
    lemma_trailing_run_bound(head, true);
    if body.len() > 0 {
        if head.len() == 0 {
            assert(Seq::<char>::empty().is_prefix_of(s));
        } else if stem.len() == 0 {
            // the head is the prefix before the last name; the name is not empty
            assert(trailing_run(body, false) > 0) by {
                lemma_trailing_run_bound(body, true);
                if trailing_run(body, false) == 0 {
                    assert(body.last() == '/');
                    lemma_body_ends_in_name(s);
                }
            }
        } else {
            assert(trailing_run(body, false) > 0) by {
                if trailing_run(body, false) == 0 {
                    assert(body.last() == '/');
                    lemma_body_ends_in_name(s);
                }
            }
            assert(stem =~= s.take(stem.len() as int));
        }
    }
}

/// A run at the end is no longer than the whole.
pub proof fn lemma_trailing_run_bound(s: Seq<char>, slashes: bool)
    ensures
        trailing_run(s, slashes) <= s.len(),
    decreases s.len(),
{
    if s.len() > 0 && (s.last() == '/') == slashes {
        lemma_trailing_run_bound(s.drop_last(), slashes);
    }
}

/// After the separators at its end are removed, a path that is not empty
/// ends in a character that is no separator.
pub proof fn lemma_body_ends_in_name(s: Seq<char>)
    ensures
        without_trailing_run(s, true).len() > 0 ==> without_trailing_run(s, true).last() != '/',
    decreases s.len(),
{
    lemma_trailing_run_bound(s, true);
    if s.len() > 0 && s.last() == '/' {
        let t = s.drop_last();
        lemma_body_ends_in_name(t);
        lemma_trailing_run_bound(t, true);
        assert(without_trailing_run(s, true) =~= without_trailing_run(t, true));
    } else if s.len() > 0 {
        assert(without_trailing_run(s, true) =~= s);
    }
}

/// Counts, backwards from `end`, the separators or the other characters
/// that the first `end` characters of `s` end in; an `end` beyond the
/// text counts as its end.
pub fn count_trailing_run(s: &str, end: usize, slashes: bool) -> (k: usize)
    ensures
        k == trailing_run(s@.take(if end <= s@.len() { end as int } else { s@.len() as int }), slashes),
        k <= end,
{
    let n: usize = s.unicode_len();
    let end: usize = if end <= n {
        end
    } else {
        n
    };
    let mut k: usize = 0;
    while k < end && (s.get_char(end - k - 1) == '/') == slashes
        invariant
            end <= s@.len(),
            k <= end,
            forall|i: int| end - k <= i < end ==> (s@[i] == '/') == slashes,
        decreases end - k,
    {
        k += 1;
    }
    proof {
        lemma_trailing_run_unique(s@.take(end as int), slashes, k as int);
    }
    k
}

/// The path that holds the last component of `path`, if there is one.
pub fn parent_of(path: &str) -> (up: Option<String>)
    ensures
        up.deep_view() == parent(path@),
{
    let n: usize = path.unicode_len();
    assert(path@.take(n as int) =~= path@);
    let body: usize = n - count_trailing_run(path, n, true);
    let head: usize = body - count_trailing_run(path, body, false);
    let stem: usize = head - count_trailing_run(path, head, true);
    proof {
        let b = without_trailing_run(path@, true);
        assert(b =~= path@.take(body as int));
        let h = without_trailing_run(b, false);
        assert(h =~= path@.take(head as int));
        let st = without_trailing_run(h, true);
        assert(st =~= path@.take(stem as int));
    }
    if body == 0 {
        None
    } else if head == 0 {
        let up = String::new();
        Some(up)
    } else if stem == 0 {
        proof {
            reveal_strlit("/");
        }
        let up = String::from_str("/");
        assert(up@ =~= seq!['/']);
        Some(up)
    } else {
        let up = String::from_str(path.substring_char(0, stem));
        assert(up@ =~= path@.take(stem as int));
        Some(up)
    }
}

/// `other` appended to `base` as a path: a rooted `other` replaces `base`.
pub fn join_str(base: &str, other: &str) -> (joined: String)
    ensures
        joined@ == join(base@, other@),
{
    if starts_at_root(other) {
        String::from_str(other)
    } else {
        adjoin_str(base, other)
    }
}

/// Mapping of a path that is absolute inside a tree onto a path below
/// the tree's real root.
pub trait AdjoinAbsolute {
    /// The path that `self` stands for.
    spec fn as_path(&self) -> Seq<char>;

    /// `other` below `self`, with any leading `/` of `other` ignored.
    fn adjoin_absolute(&self, other: &str) -> (joined: String)
        ensures
            joined@ == adjoin(self.as_path(), other@),
    ;
}

impl AdjoinAbsolute for String {
    open spec fn as_path(&self) -> Seq<char> {
        self@
    }

    fn adjoin_absolute(&self, other: &str) -> (joined: String) {
        adjoin_str(self.as_str(), other)
    }
}

/// `other` below `root`, with any leading `/` of `other` ignored.
pub fn adjoin_str(root: &str, other: &str) -> (joined: String)
    ensures
        joined@ == adjoin(root@, other@),
{
    let skip: usize = count_leading_slashes(other);
    let total: usize = other.unicode_len();
    let rest = other.substring_char(skip, total);
    let root_len: usize = root.unicode_len();
    let mut joined = String::from_str(root);
    if root_len > 0 && root.get_char(root_len - 1) != '/' {
        proof {
            reveal_strlit("/");
        }
        joined.append("/");
        assert("/"@ =~= seq!['/']);
    }
    joined.append(rest);
    proof {
        if root_len == 0 {
            assert(joined@ =~= trim_leading_slashes(other@));
        }
    }
    joined
}

} // verus!
