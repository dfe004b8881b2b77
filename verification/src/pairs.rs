//! Name/value lists kept in ascending name order with every name once: the
//! shape of a `BTreeMap<String, String>` as a vector.

use vstd::prelude::*;

use crate::text::{
    chars_le, lemma_text_le_antisymmetric, lemma_text_le_reflexive, lemma_text_le_total,
    lemma_text_le_transitive, str_chars, string_eq_str, text_le,
};

verus! {

/// A list of name/value texts.
pub type TextPairs = Seq<(Seq<char>, Seq<char>)>;

/// `a` orders strictly before `b`.
pub open spec fn text_lt(a: Seq<char>, b: Seq<char>) -> bool {
    text_le(a, b) && a != b
}

/// Names ascend strictly, so that no name occurs twice.
pub open spec fn names_ascending(pairs: TextPairs) -> bool {
    forall|i: int, j: int| 0 <= i < j < pairs.len() ==> text_lt(#[trigger] pairs[i].0, #[trigger] pairs[j].0)
}

/// Whether some pair has the given name.
pub open spec fn has_name(pairs: TextPairs, name: Seq<char>) -> bool {
    exists|i: int| 0 <= i < pairs.len() && pairs[i].0 == name
}

/// The map from each name to the value of its last pair: what inserting
/// the pairs one after another into a map leaves.
pub open spec fn last_wins(pairs: TextPairs) -> Map<Seq<char>, Seq<char>>
    decreases pairs.len(),
{
    if pairs.len() == 0 {
        Map::empty()
    } else {
        last_wins(pairs.drop_last()).insert(pairs.last().0, pairs.last().1)
    }
}

/// A name occurs in the map of a list exactly when some pair has it.
pub proof fn lemma_last_wins_domain(pairs: TextPairs, name: Seq<char>)
    ensures
        last_wins(pairs).contains_key(name) == has_name(pairs, name),
    decreases pairs.len(),
{
    if pairs.len() > 0 {
        lemma_last_wins_domain(pairs.drop_last(), name);
        if has_name(pairs, name) && pairs.last().0 != name {
            let i = choose|i: int| 0 <= i < pairs.len() && pairs[i].0 == name;
            assert(pairs.drop_last()[i].0 == name);
        }
        if has_name(pairs.drop_last(), name) {
            let i = choose|i: int| 0 <= i < pairs.len() - 1 && pairs.drop_last()[i].0 == name;
            assert(pairs[i].0 == name);
        }
        if pairs.last().0 == name {
            assert(pairs[pairs.len() - 1].0 == name);
        }
    }
}

/// With names ascending, the map of a list gives each pair's value.
pub proof fn lemma_last_wins_ascending(pairs: TextPairs, i: int)
    requires
        names_ascending(pairs),
        0 <= i < pairs.len(),
    ensures
        last_wins(pairs).contains_key(pairs[i].0),
        last_wins(pairs)[pairs[i].0] == pairs[i].1,
    decreases pairs.len(),
{
    if i < pairs.len() - 1 {
        assert(names_ascending(pairs.drop_last()));
        assert(pairs.drop_last()[i] == pairs[i]);
        lemma_last_wins_ascending(pairs.drop_last(), i);
        assert(text_lt(pairs[i].0, pairs[pairs.len() - 1].0));
    }
}

proof fn lemma_insert_ascending(r: TextPairs, pos: int, name: Seq<char>, value: Seq<char>)
    requires
        names_ascending(r),
        0 <= pos <= r.len(),
        forall|k: int| 0 <= k < pos ==> text_lt(#[trigger] r[k].0, name),
        pos < r.len() ==> text_lt(name, r[pos].0),
    ensures
        names_ascending(r.insert(pos, (name, value))),
{
    let s = r.insert(pos, (name, value));
    assert forall|i: int, j: int| 0 <= i < j < s.len() implies text_lt(
        #[trigger] s[i].0,
        #[trigger] s[j].0,
    ) by {
        if i == pos {
            if j - 1 > pos {
                lemma_text_le_transitive(name, r[pos].0, r[j - 1].0);
                if name == r[j - 1].0 {
                    lemma_text_le_antisymmetric(r[pos].0, name);
                }
            }
        } else if j == pos {
        } else if i < pos && j > pos {
            if j - 1 > pos {
                lemma_text_le_transitive(name, r[pos].0, r[j - 1].0);
                if name == r[j - 1].0 {
                    lemma_text_le_antisymmetric(r[pos].0, name);
                }
            }
            lemma_text_le_transitive(r[i].0, name, r[j - 1].0);
            if r[i].0 == r[j - 1].0 {
                lemma_text_le_antisymmetric(r[i].0, name);
            }
        }
    }
}

/// The map of an ascending list equals the map built from a list whose
/// ascending arrangement it is.
proof fn lemma_maps_agree(r: TextPairs, m: Map<Seq<char>, Seq<char>>)
    requires
        names_ascending(r),
        forall|k: int| 0 <= k < r.len() ==> #[trigger] m.contains_key(r[k].0) && m[r[k].0] == r[k].1,
        forall|n: Seq<char>| #[trigger] m.contains_key(n) ==> has_name(r, n),
    ensures
        last_wins(r) == m,
{
    assert forall|n: Seq<char>| #[trigger] last_wins(r).contains_key(n) == m.contains_key(n) by {
        lemma_last_wins_domain(r, n);
        if has_name(r, n) {
            let k = choose|k: int| 0 <= k < r.len() && r[k].0 == n;
            assert(m.contains_key(r[k].0));
        }
    }
    assert forall|n: Seq<char>| #[trigger] last_wins(r).contains_key(n) implies last_wins(r)[n]
        == m[n] by {
        lemma_last_wins_domain(r, n);
        let k = choose|k: int| 0 <= k < r.len() && r[k].0 == n;
        lemma_last_wins_ascending(r, k);
        assert(m.contains_key(r[k].0));
    }
    assert(last_wins(r) =~= m);
}

/// Sets `name` to `value` in an ascending list: the pair with that name
/// gets the new value, or a new pair goes where the order puts it.
pub fn ascending_pairs_set(pairs: &mut Vec<(String, String)>, name: String, value: String)
    requires
        names_ascending(old(pairs).deep_view()),
    ensures
        names_ascending(final(pairs).deep_view()),
        last_wins(final(pairs).deep_view()) == last_wins(old(pairs).deep_view()).insert(
            name@,
            value@,
        ),
{
    let ghost before = pairs.deep_view();
    let key = str_chars(name.as_str());
    let n = pairs.len();
    let mut pos = 0usize;
    while pos < n && !string_eq_str(&pairs[pos].0, name.as_str()) && chars_le(
        &str_chars(pairs[pos].0.as_str()),
        &key,
    )
        invariant
            n == pairs@.len(),
            before == pairs.deep_view(),
            key@ == name@,
            pos <= n,
            forall|k: int| 0 <= k < pos ==> text_lt(#[trigger] before[k].0, name@),
        decreases n - pos,
    {
        assert(before[pos as int].0 == pairs@[pos as int].0@);
        pos += 1;
    }
    let ghost target = last_wins(before).insert(name@, value@);
    if pos < n && string_eq_str(&pairs[pos].0, name.as_str()) {
        let ghost j = pos as int;
        assert(before[j].0 == name@);
        pairs.set(pos, (name, value));
        let ghost after = pairs.deep_view();
        assert(after =~= before.update(j, (name@, value@)));
        assert(names_ascending(after)) by {
            assert forall|i: int, k: int| 0 <= i < k < after.len() implies text_lt(
                #[trigger] after[i].0,
                #[trigger] after[k].0,
            ) by {
                assert(text_lt(before[i].0, before[k].0));
            }
        }
        proof {
            assert forall|k: int| 0 <= k < after.len() implies #[trigger] target.contains_key(
                after[k].0,
            ) && target[after[k].0] == after[k].1 by {
                if k != j {
                    lemma_last_wins_ascending(before, k);
                    if k < j {
                        assert(text_lt(before[k].0, before[j].0));
                    } else {
                        assert(text_lt(before[j].0, before[k].0));
                    }
                }
            }
            assert forall|m: Seq<char>| #[trigger] target.contains_key(m) implies has_name(after, m) by {
                if m != name@ {
                    lemma_last_wins_domain(before, m);
                    let k = choose|k: int| 0 <= k < before.len() && before[k].0 == m;
                    assert(after[k].0 == m);
                } else {
                    assert(after[j].0 == m);
                }
            }
            lemma_maps_agree(after, target);
        }
    } else {
        proof {
            if pos < n {
                assert(before[pos as int].0 == pairs@[pos as int].0@);
                lemma_text_le_total(before[pos as int].0, name@);
            }
            lemma_insert_ascending(before, pos as int, name@, value@);
        }
        pairs.insert(pos, (name, value));
        let ghost after = pairs.deep_view();
        assert(after =~= before.insert(pos as int, (name@, value@)));
        proof {
            assert forall|k: int| 0 <= k < after.len() implies #[trigger] target.contains_key(
                after[k].0,
            ) && target[after[k].0] == after[k].1 by {
                if k != pos {
                    let b = if k < pos { k } else { k - 1 };
                    assert(after[k] == before[b]);
                    lemma_last_wins_ascending(before, b);
                    assert(after[pos as int].0 == name@);
                    if k < pos {
                        assert(text_lt(after[k].0, after[pos as int].0));
                    } else {
                        assert(text_lt(after[pos as int].0, after[k].0));
                    }
                }
            }
            assert forall|m: Seq<char>| #[trigger] target.contains_key(m) implies has_name(after, m) by {
                if m != name@ {
                    lemma_last_wins_domain(before, m);
                    let k = choose|k: int| 0 <= k < before.len() && before[k].0 == m;
                    if k < pos {
                        assert(after[k].0 == m);
                    } else {
                        assert(after[k + 1].0 == m);
                    }
                } else {
                    assert(after[pos as int].0 == m);
                }
            }
            lemma_maps_agree(after, target);
        }
    }
}

/// The pairs as a map: each name once, in ascending order, with the value
/// of its last pair.
pub fn pairs_by_name(pairs: &Vec<(String, String)>) -> (out: Vec<(String, String)>)
    ensures
        names_ascending(out.deep_view()),
        last_wins(out.deep_view()) == last_wins(pairs.deep_view()),
{
    let ghost view = pairs.deep_view();
    let mut out: Vec<(String, String)> = Vec::new();
    assert(out.deep_view() =~= Seq::<(Seq<char>, Seq<char>)>::empty());
    for i in 0..pairs.len()
        invariant
            view == pairs.deep_view(),
            names_ascending(out.deep_view()),
            last_wins(out.deep_view()) == last_wins(view.take(i as int)),
    {
        assert(view.take(i + 1).drop_last() =~= view.take(i as int));
        assert(view[i as int] == (pairs@[i as int].0@, pairs@[i as int].1@));
        ascending_pairs_set(&mut out, pairs[i].0.clone(), pairs[i].1.clone());
    }
    assert(view.take(pairs@.len() as int) =~= view);
    out
}

/// Whether some pair is named `name`.
pub fn pairs_have_name(pairs: &Vec<(String, String)>, name: &str) -> (found: bool)
    ensures
        found == has_name(pairs.deep_view(), name@),
{
    let ghost view = pairs.deep_view();
    for i in 0..pairs.len()
        invariant
            view == pairs.deep_view(),
            forall|k: int| 0 <= k < i ==> view[k].0 != name@,
    {
        if string_eq_str(&pairs[i].0, name) {
            assert(view[i as int].0 == pairs@[i as int].0@);
            return true;
        }
    }
    false
}

/// The value of `name` in an ascending list (`BTreeMap::get`).
pub fn pairs_get<'a>(pairs: &'a Vec<(String, String)>, name: &str) -> (value: Option<&'a String>)
    requires
        names_ascending(pairs.deep_view()),
    ensures
        match value {
            Some(v) => last_wins(pairs.deep_view()).contains_key(name@) && last_wins(
                pairs.deep_view(),
            )[name@] == v@,
            None => !last_wins(pairs.deep_view()).contains_key(name@),
        },
{
    let ghost view = pairs.deep_view();
    for i in 0..pairs.len()
        invariant
            view == pairs.deep_view(),
            names_ascending(view),
            forall|k: int| 0 <= k < i ==> view[k].0 != name@,
    {
        assert(view[i as int] == (pairs@[i as int].0@, pairs@[i as int].1@));
        if string_eq_str(&pairs[i].0, name) {
            proof {
                lemma_last_wins_ascending(view, i as int);
            }
            return Some(&pairs[i].1);
        }
    }
    proof {
        lemma_last_wins_domain(view, name@);
    }
    None
}


/// A name/value pair of texts.
pub fn text_pair(name: &str, value: &str) -> (p: (String, String))
    ensures
        p.0@ == name@ && p.1@ == value@,
{
    (name.to_owned(), value.to_owned())
}

/// A copy of a list of pairs.
pub fn copy_pairs(pairs: &Vec<(String, String)>) -> (out: Vec<(String, String)>)
    ensures
        out.deep_view() == pairs.deep_view(),
{
    let mut out: Vec<(String, String)> = Vec::new();
    for i in 0..pairs.len()
        invariant
            out@.len() == i,
            out.deep_view() =~= pairs.deep_view().take(i as int),
    {
        let ghost prev = out@;
        let ghost prev_view = out.deep_view();
        let item = (pairs[i].0.clone(), pairs[i].1.clone());
        assert(item.deep_view() == pairs.deep_view()[i as int]);
        out.push(item);
        assert(out.deep_view() =~= pairs.deep_view().take(i + 1)) by {
            assert forall|k: int| 0 <= k <= i implies #[trigger] out.deep_view()[k] == pairs.deep_view()[k] by {
                assert(out.deep_view()[k] == out@[k].deep_view());
                if k < i {
                    assert(out@[k] == prev[k]);
                    assert(prev_view[k] == prev[k].deep_view());
                    assert(prev_view[k] == pairs.deep_view().take(i as int)[k]);
                }
            }
        }
    }
    assert(pairs.deep_view().take(pairs@.len() as int) =~= pairs.deep_view());
    out
}

/// Appends one pair.
pub fn push_pair(all: &mut Vec<(String, String)>, name: &str, value: &str)
    ensures
        final(all).deep_view() == old(all).deep_view().push((name@, value@)),
{
    let ghost before = all.deep_view();
    all.push(text_pair(name, value));
    assert(all.deep_view() =~= before.push((name@, value@))) by {
        assert forall|k: int| 0 <= k < before.len() implies #[trigger] all.deep_view()[k]
            == before[k] by {
            assert(all.deep_view()[k] == all@[k].deep_view());
        }
    }
}

/// In an ascending list every earlier name orders before the last one.
proof fn lemma_ascending_last_greatest(pairs: TextPairs, name: Seq<char>)
    requires
        names_ascending(pairs),
        pairs.len() > 0,
        has_name(pairs, name),
    ensures
        text_le(name, pairs.last().0),
        name != pairs.last().0 ==> has_name(pairs.drop_last(), name),
{
    let k = choose|k: int| 0 <= k < pairs.len() && pairs[k].0 == name;
    if k < pairs.len() - 1 {
        assert(text_lt(pairs[k].0, pairs[pairs.len() - 1].0));
        assert(pairs.drop_last()[k].0 == name);
    } else {
        lemma_text_le_reflexive(name);
    }
}

/// An ascending list is determined by its map: two ascending lists with
/// the same names and values are the same list.
pub proof fn lemma_ascending_pairs_determined(p: TextPairs, q: TextPairs)
    requires
        names_ascending(p),
        names_ascending(q),
        last_wins(p) == last_wins(q),
    ensures
        p == q,
    decreases p.len(),
{
    if p.len() == 0 {
        if q.len() > 0 {
            assert(last_wins(q).contains_key(q.last().0));
        }
    } else {
        if q.len() == 0 {
            assert(last_wins(p).contains_key(p.last().0));
            assert(false);
        }
        let a = p.last().0;
        let b = q.last().0;
        lemma_last_wins_domain(p, b);
        lemma_last_wins_domain(q, a);
        assert(last_wins(p).contains_key(a));
        assert(last_wins(q).contains_key(b));
        lemma_ascending_last_greatest(p, b);
        lemma_ascending_last_greatest(q, a);
        lemma_text_le_antisymmetric(a, b);
        lemma_last_wins_ascending(p, p.len() - 1);
        lemma_last_wins_ascending(q, q.len() - 1);
        let p1 = p.drop_last();
        let q1 = q.drop_last();
        assert(names_ascending(p1));
        assert(names_ascending(q1));
        lemma_last_wins_domain(p1, a);
        lemma_last_wins_domain(q1, a);
        if has_name(p1, a) {
            let k = choose|k: int| 0 <= k < p1.len() && p1[k].0 == a;
            assert(text_lt(p[k].0, p[p.len() - 1].0));
        }
        if has_name(q1, a) {
            let k = choose|k: int| 0 <= k < q1.len() && q1[k].0 == a;
            assert(text_lt(q[k].0, q[q.len() - 1].0));
        }
        assert(last_wins(p1) =~= last_wins(p).remove(a));
        assert(last_wins(q1) =~= last_wins(q).remove(a));
        lemma_ascending_pairs_determined(p1, q1);
        assert(p =~= p1.push(p.last()));
        assert(q =~= q1.push(q.last()));
    }
}

} // verus!
