//! Searching texts: first occurrence from a position, last occurrence of a
//! character before a position, and replacing every occurrence.

use vstd::prelude::*;

use crate::text::{chars_occur_at, occurs_at};

verus! {

/// The first position at or after `from` where `needle` occurs
/// (`hay[from..].find(needle)`, counted from the start of `hay`).
pub open spec fn find_from(hay: Seq<char>, needle: Seq<char>, from: int) -> Option<int>
    decreases hay.len() + 1 - from,
{
    if from < 0 || from + needle.len() > hay.len() {
        None
    } else if occurs_at(hay, needle, from) {
        Some(from)
    } else {
        find_from(hay, needle, from + 1)
    }
}

/// Where `find_from` points, `needle` occurs, and nowhere between `from`
/// and that point.
pub proof fn lemma_find_from(hay: Seq<char>, needle: Seq<char>, from: int)
    requires
        0 <= from,
    ensures
        find_from(hay, needle, from) matches Some(i) ==> from <= i && i + needle.len() <= hay.len()
            && occurs_at(hay, needle, i) && forall|k: int| from <= k < i ==> !occurs_at(hay, needle, k),
        find_from(hay, needle, from) is None ==> forall|k: int|
            from <= k ==> !#[trigger] occurs_at(hay, needle, k),
    decreases hay.len() + 1 - from,
{
    if from < 0 || from + needle.len() > hay.len() {
        if from >= 0 {
            assert forall|k: int| from <= k implies !#[trigger] occurs_at(hay, needle, k) by {}
        }
    } else if !occurs_at(hay, needle, from) {
        lemma_find_from(hay, needle, from + 1);
    }
}

/// Searching a suffix is searching the whole text further on.
pub proof fn lemma_find_skip(s: Seq<char>, needle: Seq<char>, k: int, from: int)
    requires
        0 <= k <= s.len(),
        0 <= from,
    ensures
        find_from(s.skip(k), needle, from) == (match find_from(s, needle, from + k) {
            Some(i) => Some(i - k),
            None => None,
        }),
    decreases s.len() + 1 - from - k,
{
    let t = s.skip(k);
    if from + needle.len() <= t.len() {
        assert(t.subrange(from, from + needle.len()) =~= s.subrange(from + k, from + k + needle.len()));
        if !occurs_at(t, needle, from) {
            lemma_find_skip(s, needle, k, from + 1);
        }
    }
}

/// The first occurrence of `needle` in `hay` at or after `from`.
pub fn find_chars_from(hay: &Vec<char>, needle: &Vec<char>, from: usize) -> (found: Option<usize>)
    ensures
        match found {
            Some(i) => find_from(hay@, needle@, from as int) == Some(i as int) && i + needle@.len()
                <= hay@.len(),
            None => find_from(hay@, needle@, from as int) is None,
        },
{
    let n = hay.len();
    let m = needle.len();
    if from > n || m > n - from {
        return None;
    }
    let mut i = from;
    loop
        invariant
            n == hay@.len(),
            m == needle@.len(),
            from <= i <= n - m,
            find_from(hay@, needle@, from as int) == find_from(hay@, needle@, i as int),
        decreases n - i,
    {
        if chars_occur_at(hay, needle, i) {
            return Some(i);
        }
        if i == n - m {
            assert(find_from(hay@, needle@, i + 1) is None);
            return None;
        }
        i += 1;
    }
}

/// The last position before `end` that holds `c` (`hay[..end].rfind(c)`).
pub open spec fn rfind_before(hay: Seq<char>, c: char, end: int) -> Option<int>
    decreases end,
{
    if end <= 0 {
        None
    } else if hay[end - 1] == c {
        Some(end - 1)
    } else {
        rfind_before(hay, c, end - 1)
    }
}

/// Where `rfind_before` points, `c` stands, and nowhere after it.
pub proof fn lemma_rfind_before(hay: Seq<char>, c: char, end: int)
    requires
        end <= hay.len(),
    ensures
        rfind_before(hay, c, end) matches Some(i) ==> 0 <= i < end && hay[i] == c && forall|k: int|
            i < k < end ==> hay[k] != c,
        rfind_before(hay, c, end) is None ==> forall|k: int| 0 <= k < end ==> hay[k] != c,
    decreases end,
{
    if end > 0 && hay[end - 1] != c {
        lemma_rfind_before(hay, c, end - 1);
    }
}

/// The last occurrence of `c` in `hay` before `end`.
pub fn rfind_char_before(hay: &Vec<char>, c: char, end: usize) -> (found: Option<usize>)
    requires
        end <= hay@.len(),
    ensures
        match found {
            Some(i) => rfind_before(hay@, c, end as int) == Some(i as int) && i < end,
            None => rfind_before(hay@, c, end as int) is None,
        },
{
    let mut e = end;
    while e > 0
        invariant
            e <= end <= hay@.len(),
            rfind_before(hay@, c, end as int) == rfind_before(hay@, c, e as int),
        decreases e,
    {
        if hay[e - 1] == c {
            return Some(e - 1);
        }
        e -= 1;
    }
    None
}

/// Every occurrence of `pat` replaced by `rep`, scanning from the left
/// (`str::replace`).
pub open spec fn replace_all(s: Seq<char>, pat: Seq<char>, rep: Seq<char>) -> Seq<char>
    decreases s.len(),
{
    if s.len() == 0 {
        s
    } else if pat.len() > 0 && pat.len() <= s.len() && s.take(pat.len() as int) == pat {
        rep + replace_all(s.skip(pat.len() as int), pat, rep)
    } else {
        seq![s[0]] + replace_all(s.drop_first(), pat, rep)
    }
}

/// A text with every occurrence of `pat` replaced by `rep`.
pub fn replace_chars(s: &Vec<char>, pat: &Vec<char>, rep: &Vec<char>) -> (out: Vec<char>)
    ensures
        out@ == replace_all(s@, pat@, rep@),
{
    let n = s.len();
    let m = pat.len();
    let mut out: Vec<char> = Vec::new();
    let mut i = 0usize;
    assert(s@.skip(0) =~= s@);
    while i < n
        invariant
            n == s@.len(),
            m == pat@.len(),
            i <= n,
            out@ + replace_all(s@.skip(i as int), pat@, rep@) == replace_all(s@, pat@, rep@),
        decreases n - i,
    {
        let ghost rest = s@.skip(i as int);
        if m > 0 && chars_occur_at(s, pat, i) {
            assert(rest.take(m as int) =~= s@.subrange(i as int, i + m));
            assert(rest.skip(m as int) =~= s@.skip(i + m));
            let ghost before = out@;
            for k in 0..rep.len()
                invariant
                    out@ == before + rep@.take(k as int),
            {
                out.push(rep[k]);
                assert(out@ =~= before + rep@.take(k + 1));
            }
            assert(rep@.take(rep@.len() as int) =~= rep@);
            assert(out@ == before + rep@);
            assert(before + replace_all(rest, pat@, rep@) =~= out@ + replace_all(
                s@.skip(i + m),
                pat@,
                rep@,
            ));
            i += m;
        } else {
            assert(rest[0] == s@[i as int]);
            assert(rest.drop_first() =~= s@.skip(i + 1));
            if m > 0 && m <= n - i {
                assert(rest.take(m as int) != pat@) by {
                    assert(!occurs_at(s@, pat@, i as int));
                    if rest.take(m as int) == pat@ {
                        assert(s@.subrange(i as int, i + m) =~= rest.take(m as int));
                    }
                }
            }
            let ghost before = out@;
            out.push(s[i]);
            assert(out@ =~= before + seq![s@[i as int]]);
            i += 1;
        }
    }
    assert(s@.skip(n as int) =~= Seq::<char>::empty());
    out
}

/// The last position `i` with `needle` occurring at `i` and ending by
/// `end` (`hay[..end].rfind(needle)`).
pub open spec fn rfind_text_before(hay: Seq<char>, needle: Seq<char>, end: int) -> Option<int>
    decreases end + 1,
{
    if end < needle.len() {
        None
    } else if occurs_at(hay, needle, end - needle.len()) {
        Some(end - needle.len())
    } else {
        rfind_text_before(hay, needle, end - 1)
    }
}

/// Where `rfind_text_before` points, `needle` occurs, ending by `end`.
pub proof fn lemma_rfind_text_before(hay: Seq<char>, needle: Seq<char>, end: int)
    ensures
        rfind_text_before(hay, needle, end) matches Some(i) ==> 0 <= i && i + needle.len() <= end
            && occurs_at(hay, needle, i),
    decreases end + 1,
{
    if end >= needle.len() && !occurs_at(hay, needle, end - needle.len()) {
        lemma_rfind_text_before(hay, needle, end - 1);
    }
}

/// The last occurrence of `needle` that ends by `end`.
pub fn rfind_chars_before(hay: &Vec<char>, needle: &Vec<char>, end: usize) -> (found: Option<usize>)
    requires
        end <= hay@.len(),
    ensures
        match found {
            Some(i) => rfind_text_before(hay@, needle@, end as int) == Some(i as int),
            None => rfind_text_before(hay@, needle@, end as int) is None,
        },
{
    let m = needle.len();
    let mut e = end;
    loop
        invariant
            e <= end <= hay@.len(),
            m == needle@.len(),
            rfind_text_before(hay@, needle@, end as int) == rfind_text_before(hay@, needle@, e as int),
        decreases e,
    {
        if e < m {
            return None;
        }
        if chars_occur_at(hay, needle, e - m) {
            return Some(e - m);
        }
        if e == 0 {
            assert(rfind_text_before(hay@, needle@, -1) is None);
            return None;
        }
        e -= 1;
    }
}

} // verus!
