//! Helpers of the Kuaishou fetchers: picking texts, dropping repeated
//! rooms and repairing HLS play URLs.

use vstd::prelude::*;

use crate::pairs::{has_name, pairs_have_name, TextPairs};
use crate::text::{contains_text, str_chars, string_eq_str, string_from_range, trim, trimmed};
use crate::scan::{find_chars_from, find_from, lemma_find_from};
use crate::weburl::{clear_url_query, extend_url_query, parse_url, url_extend_query, url_parse, url_without_query};

verus! {

/// The text of the first given value with more than whitespace (as it
/// is, untrimmed), or nothing.
pub open spec fn first_non_empty(values: Seq<Option<String>>) -> Seq<char>
    decreases values.len(),
{
    if values.len() == 0 {
        seq![]
    } else {
        match values[0] {
            Some(v) => if trimmed(v@).len() > 0 {
                v@
            } else {
                first_non_empty(values.drop_first())
            },
            None => first_non_empty(values.drop_first()),
        }
    }
}

/// The first given value with more than whitespace, or an empty string.
pub fn pick_first_non_empty_string(values: &[Option<String>]) -> (out: String)
    ensures
        out@ == first_non_empty(values@),
{
    let mut i = 0usize;
    assert(values@.skip(0) =~= values@);
    while i < values.len()
        invariant
            i <= values@.len(),
            first_non_empty(values@) == first_non_empty(values@.skip(i as int)),
        decreases values@.len() - i,
    {
        assert(values@.skip(i as int)[0] == values@[i as int]);
        assert(values@.skip(i as int).drop_first() =~= values@.skip(i + 1));
        match &values[i] {
            Some(v) => {
                let t = trim(v.as_str());
                if !t.as_str().is_empty() {
                    return v.clone();
                }
            },
            None => {},
        }
        i += 1;
    }
    String::new()
}

/// The positions kept when deduplicating live rooms by stream id: an item
/// with an empty id is always kept, others only the first time their id
/// occurs.
pub open spec fn kept_positions(ids: Seq<Seq<char>>, seen: Set<Seq<char>>, start: int) -> Seq<int>
    decreases ids.len() - start,
{
    if start < 0 || start >= ids.len() {
        seq![]
    } else if ids[start].len() == 0 {
        seq![start] + kept_positions(ids, seen, start + 1)
    } else if seen.contains(ids[start]) {
        kept_positions(ids, seen, start + 1)
    } else {
        seq![start] + kept_positions(ids, seen.insert(ids[start]), start + 1)
    }
}

/// The positions of the live rooms to keep, given each room's stream id:
/// rooms whose non-empty stream id occurred earlier are dropped.
pub fn kept_live_room_positions(live_stream_ids: &Vec<String>) -> (kept: Vec<usize>)
    ensures
        kept@.map_values(|i: usize| i as int) == kept_positions(
            live_stream_ids@.map_values(|s: String| s@),
            Set::empty(),
            0,
        ),
{
    let ghost ids = live_stream_ids@.map_values(|s: String| s@);
    let mut seen: Vec<String> = Vec::new();
    let mut kept: Vec<usize> = Vec::new();
    assert(kept@.map_values(|i: usize| i as int) =~= Seq::<int>::empty());
    assert(seen@.map_values(|s: String| s@).to_set() =~= Set::<Seq<char>>::empty());
    for i in 0..live_stream_ids.len()
        invariant
            ids == live_stream_ids@.map_values(|s: String| s@),
            kept_positions(ids, Set::empty(), 0) == kept@.map_values(|k: usize| k as int)
                + kept_positions(ids, seen@.map_values(|s: String| s@).to_set(), i as int),
    {
        let ghost sv = seen@.map_values(|s: String| s@);
        let ghost before = kept@.map_values(|k: usize| k as int);
        assert(ids[i as int] == live_stream_ids@[i as int]@);
        let id = &live_stream_ids[i];
        if id.as_str().is_empty() {
            kept.push(i);
            assert(kept@.map_values(|k: usize| k as int) =~= before.push(i as int));
            assert(before + (seq![i as int] + kept_positions(ids, sv.to_set(), i + 1))
                =~= kept@.map_values(|k: usize| k as int) + kept_positions(ids, sv.to_set(), i + 1));
        } else {
            let mut found = false;
            for j in 0..seen.len()
                invariant
                    sv == seen@.map_values(|s: String| s@),
                    found == (exists|k: int| 0 <= k < j && sv[k] == id@),
            {
                assert(sv[j as int] == seen@[j as int]@);
                if crate::text::string_eq_str(&seen[j], id.as_str()) {
                    found = true;
                }
                assert(found == (exists|k: int| 0 <= k < j + 1 && sv[k] == id@)) by {
                    if sv[j as int] == id@ {
                        assert(0 <= j < j + 1 && sv[j as int] == id@);
                    }
                }
            }
            assert(found == sv.to_set().contains(id@)) by {
                if sv.to_set().contains(id@) {
                    assert(sv.contains(id@));
                }
            }
            if !found {
                seen.push(id.clone());
                kept.push(i);
                proof {
                    assert(seen@.map_values(|s: String| s@) =~= sv.push(id@));
                    sv.lemma_push_to_set_commute(id@);
                    assert(kept@.map_values(|k: usize| k as int) =~= before.push(i as int));
                    assert(before + (seq![i as int] + kept_positions(ids, sv.to_set().insert(id@), i + 1))
                        =~= kept@.map_values(|k: usize| k as int) + kept_positions(
                        ids,
                        sv.to_set().insert(id@),
                        i + 1,
                    ));
                }
            }
        }
    }
    assert(kept_positions(ids, seen@.map_values(|s: String| s@).to_set(), live_stream_ids@.len() as int) == Seq::<int>::empty());
    assert(kept@.map_values(|k: usize| k as int) + Seq::<int>::empty() =~= kept@.map_values(|k: usize| k as int));
    kept
}

proof fn lemma_kept_order(ids: Seq<Seq<char>>, seen: Set<Seq<char>>, start: int)
    requires
        0 <= start,
    ensures
        forall|a: int|
            0 <= a < kept_positions(ids, seen, start).len() ==> start <= #[trigger] kept_positions(
                ids,
                seen,
                start,
            )[a] < ids.len(),
        forall|a: int, b: int|
            0 <= a < b < kept_positions(ids, seen, start).len() ==> #[trigger] kept_positions(
                ids,
                seen,
                start,
            )[a] < #[trigger] kept_positions(ids, seen, start)[b],
    decreases ids.len() - start,
{
    if start < ids.len() {
        let next_seen = if ids[start].len() > 0 && !seen.contains(ids[start]) {
            seen.insert(ids[start])
        } else {
            seen
        };
        lemma_kept_order(ids, next_seen, start + 1);
        let kept = kept_positions(ids, seen, start);
        let rest = kept_positions(ids, next_seen, start + 1);
        if ids[start].len() > 0 && seen.contains(ids[start]) {
            assert(kept == rest);
        } else {
            assert(kept == seq![start] + rest);
            assert forall|a: int| 0 <= a < kept.len() implies start <= #[trigger] kept[a] < ids.len() by {
                if a > 0 {
                    assert(kept[a] == rest[a - 1]);
                }
            }
            assert forall|a: int, b: int| 0 <= a < b < kept.len() implies #[trigger] kept[a]
                < #[trigger] kept[b] by {
                assert(kept[b] == rest[b - 1]);
                if a > 0 {
                    assert(kept[a] == rest[a - 1]);
                }
            }
        }
    }
}

proof fn lemma_kept_fresh(ids: Seq<Seq<char>>, seen: Set<Seq<char>>, start: int)
    requires
        0 <= start,
    ensures
        forall|a: int|
            0 <= a < kept_positions(ids, seen, start).len() && ids[kept_positions(ids, seen, start)[a]].len()
                > 0 ==> !seen.contains(#[trigger] ids[kept_positions(ids, seen, start)[a]]),
        forall|a: int, b: int|
            0 <= a < b < kept_positions(ids, seen, start).len() && ids[kept_positions(
                ids,
                seen,
                start,
            )[a]].len() > 0 ==> #[trigger] ids[kept_positions(ids, seen, start)[a]]
                != #[trigger] ids[kept_positions(ids, seen, start)[b]],
    decreases ids.len() - start,
{
    if start < ids.len() {
        let fresh = ids[start].len() > 0 && !seen.contains(ids[start]);
        let next_seen = if fresh {
            seen.insert(ids[start])
        } else {
            seen
        };
        lemma_kept_fresh(ids, next_seen, start + 1);
        let kept = kept_positions(ids, seen, start);
        let rest = kept_positions(ids, next_seen, start + 1);
        if ids[start].len() > 0 && seen.contains(ids[start]) {
            assert(kept == rest);
        } else {
            assert(kept == seq![start] + rest);
            assert forall|a: int|
                0 <= a < kept.len() && ids[kept[a]].len() > 0 implies !seen.contains(
                #[trigger] ids[kept[a]],
            ) by {
                if a > 0 {
                    assert(kept[a] == rest[a - 1]);
                }
            }
            assert forall|a: int, b: int|
                0 <= a < b < kept.len() && ids[kept[a]].len() > 0 implies #[trigger] ids[kept[a]]
                != #[trigger] ids[kept[b]] by {
                assert(kept[b] == rest[b - 1]);
                if a > 0 {
                    assert(kept[a] == rest[a - 1]);
                } else if ids[rest[b - 1]].len() > 0 {
                    assert(!next_seen.contains(ids[rest[b - 1]]));
                }
            }
        }
    }
}

proof fn lemma_kept_complete(ids: Seq<Seq<char>>, seen: Set<Seq<char>>, start: int)
    requires
        0 <= start,
    ensures
        forall|i: int|
            start <= i < ids.len() && ids[i].len() > 0 && !seen.contains(ids[i]) ==> exists|a: int|
                0 <= a < kept_positions(ids, seen, start).len() && #[trigger] ids[kept_positions(
                    ids,
                    seen,
                    start,
                )[a]] == #[trigger] ids[i],
    decreases ids.len() - start,
{
    if start < ids.len() {
        let fresh = ids[start].len() > 0 && !seen.contains(ids[start]);
        let next_seen = if fresh {
            seen.insert(ids[start])
        } else {
            seen
        };
        lemma_kept_complete(ids, next_seen, start + 1);
        let kept = kept_positions(ids, seen, start);
        let rest = kept_positions(ids, next_seen, start + 1);
        if ids[start].len() > 0 && seen.contains(ids[start]) {
            assert(kept == rest);
        } else {
            assert(kept == seq![start] + rest);
        }
        assert forall|i: int|
            start <= i < ids.len() && ids[i].len() > 0 && !seen.contains(ids[i]) implies exists|a: int|
            0 <= a < kept.len() && #[trigger] ids[kept[a]] == #[trigger] ids[i] by {
            if fresh && ids[i] == ids[start] {
                assert(kept[0] == start);
            } else {
                assert(i > start);
                assert(!next_seen.contains(ids[i]));
                let a = choose|a: int| 0 <= a < rest.len() && #[trigger] ids[rest[a]] == ids[i];
                if kept == rest {
                    assert(ids[kept[a]] == ids[i]);
                } else {
                    assert(kept[a + 1] == rest[a]);
                }
            }
        }
    }
}

/// Deduplicating live rooms keeps positions in order, no non-empty stream
/// id twice, and every non-empty stream id of the list once.
pub proof fn lemma_dedupe_live_rooms(ids: Seq<Seq<char>>)
    ensures
        ({
            let kept = kept_positions(ids, Set::empty(), 0);
            &&& forall|a: int| 0 <= a < kept.len() ==> 0 <= #[trigger] kept[a] < ids.len()
            &&& forall|a: int, b: int| 0 <= a < b < kept.len() ==> #[trigger] kept[a] < #[trigger] kept[b]
            &&& forall|a: int, b: int|
                0 <= a < b < kept.len() && ids[kept[a]].len() > 0 ==> #[trigger] ids[kept[a]]
                    != #[trigger] ids[kept[b]]
            &&& forall|i: int|
                0 <= i < ids.len() && ids[i].len() > 0 ==> exists|a: int|
                    0 <= a < kept.len() && #[trigger] ids[kept[a]] == #[trigger] ids[i]
        }),
{
    lemma_kept_order(ids, Set::empty(), 0);
    lemma_kept_fresh(ids, Set::empty(), 0);
    lemma_kept_complete(ids, Set::empty(), 0);
}

/// The text without its trailing `&` and `?` characters.
pub open spec fn trim_end_amp_q(s: Seq<char>) -> Seq<char>
    decreases s.len(),
{
    if s.len() > 0 && (s.last() == '&' || s.last() == '?') {
        trim_end_amp_q(s.drop_last())
    } else {
        s
    }
}

/// Whether a pair is a `sidc` parameter whose value carries `tsc=`.
pub open spec fn is_split_sidc(pair: (Seq<char>, Seq<char>)) -> bool {
    pair.0 == "sidc"@ && contains_text(pair.1, "tsc="@)
}

/// The pairs of an HLS play URL with each `sidc` value that carries
/// `tsc=` cut before its first `tsc=` (trailing `&` and `?` dropped); the
/// text after it becomes a `tsc` parameter unless the URL has one or it is
/// blank.
pub open spec fn hls_pairs(pairs: TextPairs, has_tsc: bool) -> TextPairs
    decreases pairs.len(),
{
    if pairs.len() == 0 {
        seq![]
    } else {
        let rest = hls_pairs(pairs.drop_last(), has_tsc);
        let (key, value) = pairs.last();
        if is_split_sidc(pairs.last()) {
            let at = find_from(value, "tsc="@, 0)->0;
            let sidc = trim_end_amp_q(value.take(at));
            let suffix = value.skip(at + 4);
            if !has_tsc && trimmed(suffix).len() > 0 {
                rest.push((key, sidc)).push(("tsc"@, suffix))
            } else {
                rest.push((key, sidc))
            }
        } else {
            rest.push((key, value))
        }
    }
}

/// An HLS play URL with split `sidc` values repaired; URLs that do not
/// parse or need no repair stay as they are.
pub open spec fn spec_hls_play_url(url: Seq<char>) -> Seq<char> {
    match url_parse(url) {
        Err(_) => url,
        Ok(parts) => if exists|i: int| 0 <= i < parts.2.len() && is_split_sidc(#[trigger] parts.2[i]) {
            url_extend_query(url_without_query(parts.0), hls_pairs(parts.2, has_name(parts.2, "tsc"@)))
        } else {
            url
        },
    }
}

/// Repair an HLS play URL whose `sidc` value swallowed the `tsc` parameter.
#[verifier::spinoff_prover]
pub fn normalize_kuaishou_hls_play_url(url: &str) -> (out: String)
    ensures
        out@ == spec_hls_play_url(url@),
{
    let parsed = match parse_url(url) {
        Ok(parsed) => parsed,
        Err(_) => return url.to_owned(),
    };
    let ghost all = parsed.query_pairs.deep_view();
    let has_tsc = pairs_have_name(&parsed.query_pairs, "tsc");
    let marker = str_chars("tsc=");
    proof {
        reveal_strlit("tsc=");
    }
    let mut normalized: Vec<(String, String)> = Vec::new();
    let mut changed = false;
    assert(normalized.deep_view() =~= hls_pairs(all.take(0), has_tsc));
    for i in 0..parsed.query_pairs.len()
        invariant
            all == parsed.query_pairs.deep_view(),
            marker@ == "tsc="@,
            marker@.len() == 4,
            normalized.deep_view() == hls_pairs(all.take(i as int), has_tsc),
            changed == (exists|k: int| 0 <= k < i && is_split_sidc(#[trigger] all[k])),
    {
        let ghost before = normalized.deep_view();
        assert(all.take(i + 1).drop_last() =~= all.take(i as int));
        assert(all[i as int] == (parsed.query_pairs@[i as int].0@, parsed.query_pairs@[i as int].1@));
        let key = &parsed.query_pairs[i].0;
        let value = &parsed.query_pairs[i].1;
        let value_chars = str_chars(value.as_str());
        let mut split = false;
        if string_eq_str(key, "sidc") {
            proof {
                lemma_find_from(value@, marker@, 0);
            }
            match find_chars_from(&value_chars, &marker, 0) {
                Some(at) => {
                    split = true;
                    let mut end = at;
                    while end > 0 && (value_chars[end - 1] == '&' || value_chars[end - 1] == '?')
                        invariant
                            end <= at,
                            at <= value_chars@.len(),
                            trim_end_amp_q(value_chars@.take(at as int)) == trim_end_amp_q(
                                value_chars@.take(end as int),
                            ),
                        decreases end,
                    {
                        assert(value_chars@.take(end as int).drop_last() =~= value_chars@.take(end - 1));
                        end -= 1;
                    }
                    proof {
                        if end > 0 {
                            assert(value_chars@.take(end as int).last() == value_chars@[end - 1]);
                        }
                        assert(value_chars@.subrange(0, end as int) =~= value_chars@.take(end as int));
                    }
                    let sidc = string_from_range(&value_chars, 0, end);
                    let vn = value_chars.len();
                    assert(at + 4 <= vn);
                    let suffix = string_from_range(&value_chars, at + 4, vn);
                    assert(suffix@ =~= value@.skip(at + 4));
                    let keep_suffix = !has_tsc && !trim(suffix.as_str()).as_str().is_empty();
                    normalized.push((key.clone(), sidc));
                    if keep_suffix {
                        normalized.push(("tsc".to_owned(), suffix));
                    }
                    changed = true;
                    proof {
                        assert(is_split_sidc(all[i as int]));
                        if keep_suffix {
                            assert(normalized.deep_view() =~= before.push((key@, trim_end_amp_q(value@.take(at as int)))).push(("tsc"@, value@.skip(at + 4))));
                        } else {
                            assert(normalized.deep_view() =~= before.push((key@, trim_end_amp_q(value@.take(at as int)))));
                        }
                    }
                },
                None => {},
            }
        }
        if !split {
            normalized.push((key.clone(), value.clone()));
            proof {
                assert(normalized.deep_view() =~= before.push((key@, value@)));
                assert(!is_split_sidc(all[i as int]));
            }
        }
        proof {
            assert(changed == (exists|k: int| 0 <= k < i + 1 && is_split_sidc(#[trigger] all[k]))) by {
                if is_split_sidc(all[i as int]) {
                    assert(0 <= i < i + 1);
                }
            }
        }
    }
    assert(all.take(parsed.query_pairs@.len() as int) =~= all);
    let ghost parts = parsed.parts();
    assert(url_parse(url@) == Ok::<crate::weburl::UrlParts, Seq<char>>(parts));
    assert(parts.2 == all);
    if !changed {
        assert(!(exists|k: int| 0 <= k < parts.2.len() && is_split_sidc(#[trigger] parts.2[k])));
        return url.to_owned();
    }
    assert(exists|k: int| 0 <= k < parts.2.len() && is_split_sidc(#[trigger] parts.2[k]));
    let cleared = clear_url_query(parsed.href.as_str());
    let out = extend_url_query(cleared.as_str(), &normalized);
    assert(out@ == url_extend_query(url_without_query(parts.0), hls_pairs(parts.2, has_name(parts.2, "tsc"@))));
    out
}

} // verus!
