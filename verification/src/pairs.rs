//! Mappings written as lists of pairs: each key is found at the first
//! place where it stands, and a key that is set again keeps its place.

use crate::schema::unique_keys;
use vstd::prelude::*;

verus! {

/// The first place in `pairs` where `key` stands.
pub open spec fn key_index(pairs: Seq<(Seq<char>, Seq<char>)>, key: Seq<char>) -> Option<int>
    decreases pairs.len(),
{
    if pairs.len() == 0 {
        None
    } else if pairs[0].0 == key {
        Some(0)
    } else {
        match key_index(pairs.drop_first(), key) {
            Some(i) => Some(i + 1),
            None => None,
        }
    }
}

/// `pairs` with `key` set to `value`: in place where the key is present,
/// at the end where it is not.
pub open spec fn upsert(pairs: Seq<(Seq<char>, Seq<char>)>, key: Seq<char>, value: Seq<char>) -> Seq<
    (Seq<char>, Seq<char>),
> {
    match key_index(pairs, key) {
        Some(i) => pairs.update(i, (key, value)),
        None => pairs.push((key, value)),
    }
}

/// `pairs` with every pair of `more` set, in the order of `more`.
pub open spec fn extended(pairs: Seq<(Seq<char>, Seq<char>)>, more: Seq<(Seq<char>, Seq<char>)>) -> Seq<
    (Seq<char>, Seq<char>),
>
    decreases more.len(),
{
    if more.len() == 0 {
        pairs
    } else {
        extended(upsert(pairs, more[0].0, more[0].1), more.drop_first())
    }
}

/// `base` overlaid by `over`: every key once, and where both have a key
/// the value of `over`.
pub open spec fn merged(base: Seq<(Seq<char>, Seq<char>)>, over: Seq<(Seq<char>, Seq<char>)>) -> Seq<
    (Seq<char>, Seq<char>),
> {
    extended(extended(Seq::empty(), base), over)
}

/// The mapping that a list of pairs stands for; of two pairs with one key
/// the later one counts.
pub open spec fn as_map(pairs: Seq<(Seq<char>, Seq<char>)>) -> Map<Seq<char>, Seq<char>>
    decreases pairs.len(),
{
    if pairs.len() == 0 {
        Map::empty()
    } else {
        as_map(pairs.drop_last()).insert(pairs.last().0, pairs.last().1)
    }
}

/// `key_index` finds the first place of a key, and no place where there is none.
pub proof fn lemma_key_index(pairs: Seq<(Seq<char>, Seq<char>)>, key: Seq<char>)
    ensures
        match key_index(pairs, key) {
            Some(i) => 0 <= i < pairs.len() && pairs[i].0 == key && forall|j: int|
                0 <= j < i ==> pairs[j].0 != key,
            None => forall|j: int| 0 <= j < pairs.len() ==> pairs[j].0 != key,
        },
    decreases pairs.len(),
{
    if pairs.len() > 0 && pairs[0].0 != key {
        let rest = pairs.drop_first();
        lemma_key_index(rest, key);
        match key_index(rest, key) {
            Some(i) => {
                assert forall|j: int| 0 <= j < i + 1 implies pairs[j].0 != key by {
                    if j > 0 {
                        assert(pairs[j] == rest[j - 1]);
                    }
                }
            },
            None => {
                assert forall|j: int| 0 <= j < pairs.len() implies pairs[j].0 != key by {
                    if j > 0 {
                        assert(pairs[j] == rest[j - 1]);
                    }
                }
            },
        }
    }
}

/// The first place of a key is the only place that has the key with no
/// earlier place having it.
pub proof fn lemma_key_index_unique(pairs: Seq<(Seq<char>, Seq<char>)>, key: Seq<char>, at: int)
    requires
        0 <= at <= pairs.len(),
        forall|j: int| 0 <= j < at ==> pairs[j].0 != key,
        at < pairs.len() ==> pairs[at].0 == key,
    ensures
        key_index(pairs, key) == (if at < pairs.len() {
            Some(at)
        } else {
            None
        }),
{
    lemma_key_index(pairs, key);
}

/// Setting a key keeps the keys unique.
pub proof fn lemma_upsert_unique(pairs: Seq<(Seq<char>, Seq<char>)>, key: Seq<char>, value: Seq<char>)
    requires
        unique_keys(pairs),
    ensures
        unique_keys(upsert(pairs, key, value)),
{
    lemma_key_index(pairs, key);
}

/// Setting a key in a list with unique keys sets it in the mapping.
pub proof fn lemma_upsert_map(pairs: Seq<(Seq<char>, Seq<char>)>, key: Seq<char>, value: Seq<char>)
    requires
        unique_keys(pairs),
    ensures
        as_map(upsert(pairs, key, value)) == as_map(pairs).insert(key, value),
    decreases pairs.len(),
{
    lemma_key_index(pairs, key);
    match key_index(pairs, key) {
        Some(i) => {
            let after = pairs.update(i, (key, value));
            if i == pairs.len() - 1 {
                assert(after.drop_last() =~= pairs.drop_last());
                assert(as_map(after) =~= as_map(pairs).insert(key, value));
            } else {
                let front = pairs.drop_last();
                assert(unique_keys(front));
                lemma_upsert_map(front, key, value);
                lemma_key_index_unique(front, key, i);
                assert(after.drop_last() =~= front.update(i, (key, value)));
                assert(after.last() == pairs.last());
                assert(pairs.last().0 != key);
                assert(as_map(after) =~= as_map(pairs).insert(key, value));
            }
        },
        None => {
            assert(pairs.push((key, value)).drop_last() =~= pairs);
        },
    }
}

/// Extending a list with unique keys keeps them unique and overlays the
/// mapping: where both have a key, the value of `more` counts.
pub proof fn lemma_extended_map(pairs: Seq<(Seq<char>, Seq<char>)>, more: Seq<(Seq<char>, Seq<char>)>)
    requires
        unique_keys(pairs),
    ensures
        unique_keys(extended(pairs, more)),
        as_map(extended(pairs, more)) == as_map(pairs).union_prefer_right(as_map(more)),
    decreases more.len(),
{
    if more.len() == 0 {
        assert(as_map(pairs).union_prefer_right(as_map(more)) =~= as_map(pairs));
    } else {
        let next = upsert(pairs, more[0].0, more[0].1);
        let rest = more.drop_first();
        lemma_upsert_unique(pairs, more[0].0, more[0].1);
        lemma_upsert_map(pairs, more[0].0, more[0].1);
        lemma_extended_map(next, rest);
        lemma_map_cons(more);
        assert(as_map(next).union_prefer_right(as_map(rest)) =~= as_map(pairs).union_prefer_right(
            as_map(more),
        ));
    }
}

/// The mapping of a list, seen from its first pair: the first pair counts
/// only where no later pair has its key.
pub proof fn lemma_map_cons(pairs: Seq<(Seq<char>, Seq<char>)>)
    requires
        pairs.len() > 0,
    ensures
        as_map(pairs) == Map::<Seq<char>, Seq<char>>::empty().insert(
            pairs[0].0,
            pairs[0].1,
        ).union_prefer_right(as_map(pairs.drop_first())),
    decreases pairs.len(),
{
    let first = Map::<Seq<char>, Seq<char>>::empty().insert(pairs[0].0, pairs[0].1);
    if pairs.len() == 1 {
        assert(pairs.drop_last() =~= Seq::empty());
        assert(pairs.drop_first() =~= Seq::empty());
        assert(as_map(pairs) =~= first.union_prefer_right(as_map(pairs.drop_first())));
    } else {
        let front = pairs.drop_last();
        lemma_map_cons(front);
        assert(front.drop_first() =~= pairs.drop_first().drop_last());
        assert(pairs.drop_first().last() == pairs.last());
        assert(front[0] == pairs[0]);
        assert(as_map(pairs) =~= first.union_prefer_right(as_map(pairs.drop_first())));
    }
}

/// Merging gives every key once, with the values of `over` before those
/// of `base`.
pub proof fn lemma_merged_map(base: Seq<(Seq<char>, Seq<char>)>, over: Seq<(Seq<char>, Seq<char>)>)
    ensures
        unique_keys(merged(base, over)),
        as_map(merged(base, over)) == as_map(base).union_prefer_right(as_map(over)),
{
    let empty = Seq::<(Seq<char>, Seq<char>)>::empty();
    lemma_extended_map(empty, base);
    lemma_extended_map(extended(empty, base), over);
    assert(as_map(empty).union_prefer_right(as_map(base)) =~= as_map(base));
}

/// Whether two texts are the same.
pub fn same_text(a: &str, b: &str) -> (same: bool)
    ensures
        same == (a@ == b@),
{
    let n: usize = a.unicode_len();
    if n != b.unicode_len() {
        return false;
    }
    let mut i: usize = 0;
    while i < n
        invariant
            n == a@.len(),
            n == b@.len(),
            i <= n,
            forall|j: int| 0 <= j < i ==> a@[j] == b@[j],
        decreases n - i,
    {
        if a.get_char(i) != b.get_char(i) {
            return false;
        }
        i += 1;
    }
    assert(a@ =~= b@);
    true
}

/// Finds the first place where `key` stands.
pub fn find_key(pairs: &Vec<(String, String)>, key: &str) -> (at: Option<usize>)
    ensures
        match at {
            Some(i) => key_index(pairs.deep_view(), key@) == Some(i as int) && i < pairs.len(),
            None => key_index(pairs.deep_view(), key@) is None,
        },
{
    let mut i: usize = 0;
    while i < pairs.len()
        invariant
            i <= pairs.len(),
            forall|j: int| 0 <= j < i ==> pairs.deep_view()[j].0 != key@,
        decreases pairs.len() - i,
    {
        if same_text(pairs[i].0.as_str(), key) {
            proof {
                lemma_key_index_unique(pairs.deep_view(), key@, i as int);
            }
            return Some(i);
        }
        i += 1;
    }
    proof {
        lemma_key_index_unique(pairs.deep_view(), key@, i as int);
    }
    None
}

/// Sets `key` to `value`: in place where the key is present, at the end
/// where it is not.
pub fn upsert_pair(pairs: &mut Vec<(String, String)>, key: String, value: String)
    ensures
        final(pairs).deep_view() == upsert(old(pairs).deep_view(), key@, value@),
{
    match find_key(pairs, key.as_str()) {
        Some(i) => {
            pairs.set(i, (key, value));
            assert(pairs.deep_view() =~= old(pairs).deep_view().update(i as int, (key@, value@)));
        },
        None => {
            pairs.push((key, value));
            assert(pairs.deep_view() =~= old(pairs).deep_view().push((key@, value@)));
        },
    }
}

/// Sets every pair of `more`, in the order of `more`.
pub fn extend_pairs(pairs: &mut Vec<(String, String)>, more: &Vec<(String, String)>)
    ensures
        final(pairs).deep_view() == extended(old(pairs).deep_view(), more.deep_view()),
{
    let mut i: usize = 0;
    assert(more.deep_view().skip(0) =~= more.deep_view());
    while i < more.len()
        invariant
            i <= more.len(),
            extended(old(pairs).deep_view(), more.deep_view()) == extended(
                pairs.deep_view(),
                more.deep_view().skip(i as int),
            ),
        decreases more.len() - i,
    {
        let ghost tail = more.deep_view().skip(i as int);
        assert(tail[0] == more.deep_view()[i as int]);
        assert(tail.drop_first() =~= more.deep_view().skip(i + 1));
        upsert_pair(pairs, more[i].0.clone(), more[i].1.clone());
        i += 1;
    }
}

/// `base` overlaid by `over`: every key once, and where both have a key
/// the value of `over`.
pub fn merge_pairs(base: &Vec<(String, String)>, over: &Vec<(String, String)>) -> (all: Vec<
    (String, String),
>)
    ensures
        all.deep_view() == merged(base.deep_view(), over.deep_view()),
        unique_keys(all.deep_view()),
        as_map(all.deep_view()) == as_map(base.deep_view()).union_prefer_right(as_map(over.deep_view())),
{
    let mut all: Vec<(String, String)> = Vec::new();
    assert(all.deep_view() =~= Seq::empty());
    extend_pairs(&mut all, base);
    extend_pairs(&mut all, over);
    proof {
        lemma_merged_map(base.deep_view(), over.deep_view());
    }
    all
}

} // verus!
