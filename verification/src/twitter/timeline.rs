//! Tweet timelines read from X GraphQL instructions: the tweets they hold,
//! each id once, and their paging cursors.

use vstd::prelude::*;

use crate::error::{upstream_error, AppError};
use crate::kuaishou::json::{json_get, json_member, json_path, path_view, KuaishouJsonValue};
use crate::text::string_eq_str;
use crate::twitter::entities::{json_items, json_text, string_at};
use crate::twitter::parse::{parse_tweet, tweet_error, tweet_parsed_from};
use crate::twitter::transport::{normalize_optional_string, opt_text, spec_normalize_optional};
use crate::twitter::api::TwitterTweetSearchMode;
use crate::twitter::types::{TwitterTweetPage, TwitterTweetSearchPage, TwitterUserProfile, TwitterUserTimeline};
use crate::twitter::values::{
    array_at_path, json_tree, normalize_upstream_payload, normalized, path1, path3, path4,
    string_at_path, tweet_result_of, unwrap_tweet_result,
};

verus! {

/// The tweet at a path of a value, looking through wrappers.
pub open spec fn tweet_at(v: KuaishouJsonValue, path: Seq<Seq<char>>) -> Option<KuaishouJsonValue> {
    match json_path(v, path) {
        Some(x) => tweet_result_of(x),
        None => None,
    }
}

/// The tweet of a module item (`item.itemContent.tweet_results.result`,
/// else `itemContent.tweet_results.result`), as a sequence of at most one.
pub open spec fn module_item_tweets(item: KuaishouJsonValue) -> Seq<KuaishouJsonValue> {
    match tweet_at(item, seq!["item"@, "itemContent"@, "tweet_results"@, "result"@]) {
        Some(t) => seq![t],
        None => match tweet_at(item, seq!["itemContent"@, "tweet_results"@, "result"@]) {
            Some(t) => seq![t],
            None => seq![],
        },
    }
}

/// The tweets of module items, in order.
pub open spec fn module_items_tweets(items: Seq<KuaishouJsonValue>) -> Seq<KuaishouJsonValue>
    decreases items.len(),
{
    if items.len() == 0 {
        seq![]
    } else {
        module_items_tweets(items.drop_last()) + module_item_tweets(items.last())
    }
}

/// The tweets of a timeline entry: the tweet of its content, else those of
/// its content's module items.
pub open spec fn entry_tweets(entry: KuaishouJsonValue) -> Seq<KuaishouJsonValue> {
    match json_get(entry, "content"@) {
        None => seq![],
        Some(content) => match tweet_at(
            content,
            seq!["itemContent"@, "tweet_results"@, "result"@],
        ) {
            Some(t) => seq![t],
            None => match json_items(json_get(content, "items"@)) {
                Some(items) => module_items_tweets(items),
                None => seq![],
            },
        },
    }
}

/// The tweets of timeline entries, in order.
pub open spec fn entries_tweets(entries: Seq<KuaishouJsonValue>) -> Seq<KuaishouJsonValue>
    decreases entries.len(),
{
    if entries.len() == 0 {
        seq![]
    } else {
        entries_tweets(entries.drop_last()) + entry_tweets(entries.last())
    }
}

/// The `type` of an instruction.
pub open spec fn instruction_kind(ins: KuaishouJsonValue) -> Option<Seq<char>> {
    json_text(json_get(ins, "type"@))
}

/// The tweets an instruction adds: a pinned entry's, added entries', or
/// the items added to a module.
pub open spec fn instruction_tweets(ins: KuaishouJsonValue) -> Seq<KuaishouJsonValue> {
    let kind = instruction_kind(ins);
    if kind == Some("TimelinePinEntry"@) {
        match json_get(ins, "entry"@) {
            Some(e) => entry_tweets(e),
            None => seq![],
        }
    } else if kind == Some("TimelineAddEntries"@) {
        match json_items(json_get(ins, "entries"@)) {
            Some(es) => entries_tweets(es),
            None => seq![],
        }
    } else if kind == Some("TimelineAddToModule"@) {
        match json_items(json_get(ins, "moduleItems"@)) {
            Some(items) => module_items_tweets(items),
            None => seq![],
        }
    } else {
        seq![]
    }
}

/// The tweets of a run of instructions, in order.
pub open spec fn timeline_tweets(instructions: Seq<KuaishouJsonValue>) -> Seq<KuaishouJsonValue>
    decreases instructions.len(),
{
    if instructions.len() == 0 {
        seq![]
    } else {
        timeline_tweets(instructions.drop_last()) + instruction_tweets(instructions.last())
    }
}

/// The entries an instruction pins or adds.
pub open spec fn instruction_entries(ins: KuaishouJsonValue) -> Seq<KuaishouJsonValue> {
    let kind = instruction_kind(ins);
    if kind == Some("TimelinePinEntry"@) {
        match json_get(ins, "entry"@) {
            Some(e) => seq![e],
            None => seq![],
        }
    } else if kind == Some("TimelineAddEntries"@) {
        match json_items(json_get(ins, "entries"@)) {
            Some(es) => es,
            None => seq![],
        }
    } else {
        seq![]
    }
}

/// The entries of a run of instructions, in order.
pub open spec fn timeline_entries(instructions: Seq<KuaishouJsonValue>) -> Seq<KuaishouJsonValue>
    decreases instructions.len(),
{
    if instructions.len() == 0 {
        seq![]
    } else {
        timeline_entries(instructions.drop_last()) + instruction_entries(instructions.last())
    }
}

/// The cursor of an entry of the given kind (`Top` or `Bottom`): its
/// trimmed, non-empty value.
pub open spec fn cursor_of(entry: KuaishouJsonValue, kind: Seq<char>) -> Option<Seq<char>> {
    match json_get(entry, "content"@) {
        Some(content) => if json_text(json_get(content, "cursorType"@)) == Some(kind) {
            match json_text(json_get(content, "value"@)) {
                Some(s) => spec_normalize_optional(s),
                None => None,
            }
        } else {
            None
        },
        None => None,
    }
}

/// The first cursor of the given kind among entries.
pub open spec fn first_cursor(entries: Seq<KuaishouJsonValue>, kind: Seq<char>) -> Option<Seq<char>>
    decreases entries.len(),
{
    if entries.len() == 0 {
        None
    } else {
        match first_cursor(entries.drop_last(), kind) {
            Some(c) => Some(c),
            None => cursor_of(entries.last(), kind),
        }
    }
}

/// The first cursor of a joined run is the first of either part.
pub proof fn lemma_first_cursor_concat(a: Seq<KuaishouJsonValue>, b: Seq<KuaishouJsonValue>, kind: Seq<char>)
    ensures
        first_cursor(a + b, kind) == match first_cursor(a, kind) {
            Some(c) => Some(c),
            None => first_cursor(b, kind),
        },
    decreases b.len(),
{
    if b.len() == 0 {
        assert(a + b =~= a);
    } else {
        lemma_first_cursor_concat(a, b.drop_last(), kind);
        assert((a + b).drop_last() =~= a + b.drop_last());
        assert((a + b).last() == b.last());
    }
}

/// The id of a timeline tweet.
pub open spec fn tweet_id_of(v: KuaishouJsonValue) -> Option<Seq<char>> {
    string_at(v, seq!["rest_id"@])
}

/// Whether a tweet with the given id is already kept.
pub open spec fn id_kept(kept: Seq<KuaishouJsonValue>, id: Seq<char>) -> bool {
    exists|i: int| 0 <= i < kept.len() && tweet_id_of(#[trigger] kept[i]) == Some(id)
}

/// One timeline tweet taken in: an error stays; a tweet without id is an
/// error; a tweet whose id is kept is skipped; else the tweet is read (its
/// error is the result's) and kept.
pub open spec fn tweet_step(state: Result<Seq<KuaishouJsonValue>, Seq<char>>, c: KuaishouJsonValue) -> Result<
    Seq<KuaishouJsonValue>,
    Seq<char>,
> {
    match state {
        Err(m) => Err(m),
        Ok(kept) => match tweet_id_of(c) {
            None => Err("twitter timeline tweet is missing `rest_id`"@),
            Some(id) => if id_kept(kept, id) {
                Ok(kept)
            } else {
                match tweet_error(c) {
                    Some(m) => Err(m),
                    None => Ok(kept.push(c)),
                }
            },
        },
    }
}

/// Timeline tweets taken in, in order, from a start state.
pub open spec fn tweets_fold(start: Result<Seq<KuaishouJsonValue>, Seq<char>>, cands: Seq<KuaishouJsonValue>) -> Result<
    Seq<KuaishouJsonValue>,
    Seq<char>,
>
    decreases cands.len(),
{
    if cands.len() == 0 {
        start
    } else {
        tweet_step(tweets_fold(start, cands.drop_last()), cands.last())
    }
}

/// Taking in a joined run is taking in each part in turn.
pub proof fn lemma_tweets_fold_concat(
    start: Result<Seq<KuaishouJsonValue>, Seq<char>>,
    a: Seq<KuaishouJsonValue>,
    b: Seq<KuaishouJsonValue>,
)
    ensures
        tweets_fold(start, a + b) == tweets_fold(tweets_fold(start, a), b),
    decreases b.len(),
{
    if b.len() == 0 {
        assert(a + b =~= a);
    } else {
        lemma_tweets_fold_concat(start, a, b.drop_last());
        assert((a + b).drop_last() =~= a + b.drop_last());
        assert((a + b).last() == b.last());
    }
}

/// The tweets read so far match the tweets kept, and the ids seen are
/// theirs.
pub open spec fn timeline_state(
    tweets: Seq<crate::twitter::types::TwitterTweet>,
    seen: Seq<String>,
    kept: Seq<KuaishouJsonValue>,
    web_base_url: Seq<char>,
) -> bool {
    &&& tweets.len() == kept.len()
    &&& seen.len() == kept.len()
    &&& forall|i: int| 0 <= i < kept.len() ==> tweet_parsed_from(#[trigger] tweets[i], kept[i], web_base_url)
    &&& forall|i: int| 0 <= i < kept.len() ==> tweet_id_of(kept[i]) == Some(#[trigger] seen[i]@)
}

pub(crate) fn seen_contains(seen: &Vec<String>, id: &String) -> (found: bool)
    ensures
        found == exists|i: int| 0 <= i < seen@.len() && #[trigger] seen@[i]@ == id@,
{
    for i in 0..seen.len()
        invariant
            forall|k: int| 0 <= k < i ==> #[trigger] seen@[k]@ != id@,
    {
        if string_eq_str(&seen[i], id.as_str()) {
            return true;
        }
    }
    false
}

fn push_tweet(
    tweet: &KuaishouJsonValue,
    web_base_url: &str,
    seen: &mut Vec<String>,
    tweets: &mut Vec<crate::twitter::types::TwitterTweet>,
    Ghost(kept): Ghost<Seq<KuaishouJsonValue>>,
) -> (res: Result<Ghost<Seq<KuaishouJsonValue>>, AppError>)
    requires
        timeline_state(old(tweets)@, old(seen)@, kept, web_base_url@),
    ensures
        match tweet_step(Ok(kept), *tweet) {
            Err(m) => res matches Err(e) && e.upstream_message() == Some(m),
            Ok(k) => res matches Ok(g) && g@ == k && timeline_state(
                final(tweets)@,
                final(seen)@,
                k,
                web_base_url@,
            ),
        },
{
    let id = match string_at_path(tweet, &path1("rest_id")) {
        Some(id) => id,
        None => return Err(
            upstream_error("twitter timeline tweet is missing `rest_id`".to_owned()),
        ),
    };
    if seen_contains(seen, &id) {
        assert(id_kept(kept, id@)) by {
            let i = choose|i: int| 0 <= i < seen@.len() && #[trigger] seen@[i]@ == id@;
            assert(tweet_id_of(kept[i]) == Some(seen@[i]@));
        }
        return Ok(Ghost(kept));
    }
    assert(!id_kept(kept, id@)) by {
        if id_kept(kept, id@) {
            let i = choose|i: int| 0 <= i < kept.len() && tweet_id_of(#[trigger] kept[i]) == Some(id@);
            assert(tweet_id_of(kept[i]) == Some(seen@[i]@));
        }
    }
    let parsed = parse_tweet(tweet, web_base_url)?;
    seen.push(id);
    tweets.push(parsed);
    let ghost k = kept.push(*tweet);
    assert(timeline_state(tweets@, seen@, k, web_base_url@)) by {
        assert forall|i: int| 0 <= i < k.len() implies tweet_parsed_from(
            #[trigger] tweets@[i],
            k[i],
            web_base_url@,
        ) by {
            if i < kept.len() {
                assert(tweets@[i] == old(tweets)@[i]);
            }
        }
        assert forall|i: int| 0 <= i < k.len() implies tweet_id_of(k[i]) == Some(
            #[trigger] seen@[i]@,
        ) by {
            if i < kept.len() {
                assert(seen@[i] == old(seen)@[i]);
            }
        }
    }
    Ok(Ghost(k))
}

/// An error taken in stays.
pub proof fn lemma_tweets_fold_err(m: Seq<char>, cands: Seq<KuaishouJsonValue>)
    ensures
        tweets_fold(Err(m), cands) == Err::<Seq<KuaishouJsonValue>, Seq<char>>(m),
    decreases cands.len(),
{
    if cands.len() > 0 {
        lemma_tweets_fold_err(m, cands.drop_last());
    }
}

proof fn lemma_module_items_front(items: Seq<KuaishouJsonValue>, j: int)
    requires
        0 <= j < items.len(),
    ensures
        module_items_tweets(items.skip(j)) == module_item_tweets(items[j]) + module_items_tweets(
            items.skip(j + 1),
        ),
    decreases items.len() - j,
{
    let s = items.skip(j);
    if s.len() == 1 {
        assert(items.skip(j + 1) =~= seq![]);
        assert(s.drop_last() =~= seq![]);
        assert(module_item_tweets(items[j]) + seq![] =~= module_item_tweets(items[j]));
    } else {
        lemma_module_items_front(items.drop_last(), j);
        assert(items.drop_last().skip(j) =~= s.drop_last());
        assert(items.drop_last().skip(j + 1) =~= items.skip(j + 1).drop_last());
        assert(s.last() == items.skip(j + 1).last());
        assert(module_items_tweets(s) =~= module_item_tweets(items[j]) + module_items_tweets(
            items.skip(j + 1),
        ));
    }
}

proof fn lemma_entries_front(entries: Seq<KuaishouJsonValue>, j: int)
    requires
        0 <= j < entries.len(),
    ensures
        entries_tweets(entries.skip(j)) == entry_tweets(entries[j]) + entries_tweets(
            entries.skip(j + 1),
        ),
    decreases entries.len() - j,
{
    let s = entries.skip(j);
    if s.len() == 1 {
        assert(entries.skip(j + 1) =~= seq![]);
        assert(s.drop_last() =~= seq![]);
        assert(entry_tweets(entries[j]) + seq![] =~= entry_tweets(entries[j]));
    } else {
        lemma_entries_front(entries.drop_last(), j);
        assert(entries.drop_last().skip(j) =~= s.drop_last());
        assert(entries.drop_last().skip(j + 1) =~= entries.skip(j + 1).drop_last());
        assert(s.last() == entries.skip(j + 1).last());
        assert(entries_tweets(s) =~= entry_tweets(entries[j]) + entries_tweets(
            entries.skip(j + 1),
        ));
    }
}

proof fn lemma_timeline_front(instructions: Seq<KuaishouJsonValue>, i: int)
    requires
        0 <= i < instructions.len(),
    ensures
        timeline_tweets(instructions.skip(i)) == instruction_tweets(instructions[i])
            + timeline_tweets(instructions.skip(i + 1)),
    decreases instructions.len() - i,
{
    let s = instructions.skip(i);
    if s.len() == 1 {
        assert(instructions.skip(i + 1) =~= seq![]);
        assert(s.drop_last() =~= seq![]);
        assert(instruction_tweets(instructions[i]) + seq![] =~= instruction_tweets(
            instructions[i],
        ));
    } else {
        lemma_timeline_front(instructions.drop_last(), i);
        assert(instructions.drop_last().skip(i) =~= s.drop_last());
        assert(instructions.drop_last().skip(i + 1) =~= instructions.skip(i + 1).drop_last());
        assert(s.last() == instructions.skip(i + 1).last());
        assert(timeline_tweets(s) =~= instruction_tweets(instructions[i]) + timeline_tweets(
            instructions.skip(i + 1),
        ));
    }
}

/// Take in the tweets of a module item.
fn collect_module_item(
    item: &KuaishouJsonValue,
    web_base_url: &str,
    seen: &mut Vec<String>,
    tweets: &mut Vec<crate::twitter::types::TwitterTweet>,
    Ghost(kept): Ghost<Seq<KuaishouJsonValue>>,
) -> (res: Result<Ghost<Seq<KuaishouJsonValue>>, AppError>)
    requires
        timeline_state(old(tweets)@, old(seen)@, kept, web_base_url@),
    ensures
        match tweets_fold(Ok(kept), module_item_tweets(*item)) {
            Err(m) => res matches Err(e) && e.upstream_message() == Some(m),
            Ok(k) => res matches Ok(g) && g@ == k && timeline_state(
                final(tweets)@,
                final(seen)@,
                k,
                web_base_url@,
            ),
        },
{
    let found = match json_at_path_tweet(item, &path4("item", "itemContent", "tweet_results", "result")) {
        Some(t) => Some(t),
        None => json_at_path_tweet(item, &path3("itemContent", "tweet_results", "result")),
    };
    match found {
        Some(t) => {
            assert(module_item_tweets(*item) == seq![*t]);
            proof {
                lemma_fold_one(Ok(kept), *t);
            }
            push_tweet(t, web_base_url, seen, tweets, Ghost(kept))
        },
        None => {
            assert(module_item_tweets(*item) =~= Seq::<KuaishouJsonValue>::empty());
            Ok(Ghost(kept))
        },
    }
}

proof fn lemma_fold_one(start: Result<Seq<KuaishouJsonValue>, Seq<char>>, t: KuaishouJsonValue)
    ensures
        tweets_fold(start, seq![t]) == tweet_step(start, t),
{
    assert(seq![t].drop_last() =~= Seq::<KuaishouJsonValue>::empty());
    assert(tweets_fold(start, Seq::<KuaishouJsonValue>::empty()) == start);
    assert(seq![t].last() == t);
}

/// The tweet at a path, looking through wrappers.
fn json_at_path_tweet<'a>(v: &'a KuaishouJsonValue, path: &[&str]) -> (r: Option<&'a KuaishouJsonValue>)
    ensures
        match r {
            Some(x) => tweet_at(*v, path_view(path@)) == Some(*x),
            None => tweet_at(*v, path_view(path@)) is None,
        },
{
    match crate::kuaishou::json::json_at_path(v, path) {
        Some(x) => unwrap_tweet_result(x),
        None => None,
    }
}

/// Take in the tweets of a timeline entry.
fn collect_entry(
    entry: &KuaishouJsonValue,
    web_base_url: &str,
    seen: &mut Vec<String>,
    tweets: &mut Vec<crate::twitter::types::TwitterTweet>,
    Ghost(kept): Ghost<Seq<KuaishouJsonValue>>,
) -> (res: Result<Ghost<Seq<KuaishouJsonValue>>, AppError>)
    requires
        timeline_state(old(tweets)@, old(seen)@, kept, web_base_url@),
    ensures
        match tweets_fold(Ok(kept), entry_tweets(*entry)) {
            Err(m) => res matches Err(e) && e.upstream_message() == Some(m),
            Ok(k) => res matches Ok(g) && g@ == k && timeline_state(
                final(tweets)@,
                final(seen)@,
                k,
                web_base_url@,
            ),
        },
{
    let content = match json_member(entry, "content") {
        Some(c) => c,
        None => {
            assert(entry_tweets(*entry) =~= Seq::<KuaishouJsonValue>::empty());
            return Ok(Ghost(kept));
        },
    };
    match json_at_path_tweet(content, &path3("itemContent", "tweet_results", "result")) {
        Some(t) => {
            assert(entry_tweets(*entry) == seq![*t]);
            proof {
                lemma_fold_one(Ok(kept), *t);
            }
            return push_tweet(t, web_base_url, seen, tweets, Ghost(kept));
        },
        None => {},
    }
    let items = match json_member(content, "items") {
        Some(KuaishouJsonValue::Array(items)) => items,
        _ => {
            assert(entry_tweets(*entry) =~= Seq::<KuaishouJsonValue>::empty());
            return Ok(Ghost(kept));
        },
    };
    assert(entry_tweets(*entry) == module_items_tweets(items@));
    let ghost mut cur = kept;
    assert(items@.skip(0) =~= items@);
    for j in 0..items.len()
        invariant
            entry_tweets(*entry) == module_items_tweets(items@),
            tweets_fold(Ok(kept), module_items_tweets(items@)) == tweets_fold(
                Ok(cur),
                module_items_tweets(items@.skip(j as int)),
            ),
            timeline_state(tweets@, seen@, cur, web_base_url@),
    {
        proof {
            lemma_module_items_front(items@, j as int);
            lemma_tweets_fold_concat(
                Ok(cur),
                module_item_tweets(items@[j as int]),
                module_items_tweets(items@.skip(j + 1)),
            );
        }
        match collect_module_item(&items[j], web_base_url, seen, tweets, Ghost(cur)) {
            Ok(g) => {
                proof {
                    cur = g@;
                }
            },
            Err(e) => {
                proof {
                    match tweets_fold(Ok(cur), module_item_tweets(items@[j as int])) {
                        Err(m) => lemma_tweets_fold_err(m, module_items_tweets(items@.skip(j + 1))),
                        Ok(_) => {},
                    }
                }
                return Err(e);
            },
        }
    }
    assert(items@.skip(items@.len() as int) =~= Seq::<KuaishouJsonValue>::empty());
    Ok(Ghost(cur))
}

/// Keep the first `Top` and `Bottom` cursors seen.
pub(crate) fn collect_cursor(entry: &KuaishouJsonValue, previous_cursor: &mut Option<String>, next_cursor: &mut Option<String>)
    ensures
        opt_text(*final(previous_cursor)) == crate::twitter::parse::first_text(
            opt_text(*old(previous_cursor)),
            cursor_of(*entry, "Top"@),
        ),
        opt_text(*final(next_cursor)) == crate::twitter::parse::first_text(
            opt_text(*old(next_cursor)),
            cursor_of(*entry, "Bottom"@),
        ),
{
    let content = match json_member(entry, "content") {
        Some(c) => c,
        None => return,
    };
    let value = match json_member(content, "value") {
        Some(KuaishouJsonValue::String(s)) => normalize_optional_string(s.clone()),
        _ => None,
    };
    proof {
        reveal_strlit("Top");
        reveal_strlit("Bottom");
        assert("Top"@.len() != "Bottom"@.len());
    }
    match json_member(content, "cursorType") {
        Some(KuaishouJsonValue::String(kind)) => {
            if string_eq_str(kind, "Top") {
                if previous_cursor.is_none() {
                    *previous_cursor = value;
                }
            } else if string_eq_str(kind, "Bottom") {
                if next_cursor.is_none() {
                    *next_cursor = value;
                }
            }
        },
        _ => {},
    }
}

pub(crate) proof fn lemma_first_cursor_one(e: KuaishouJsonValue, kind: Seq<char>)
    ensures
        first_cursor(seq![e], kind) == cursor_of(e, kind),
{
    assert(seq![e].drop_last() =~= Seq::<KuaishouJsonValue>::empty());
    assert(first_cursor(Seq::<KuaishouJsonValue>::empty(), kind) is None);
    assert(seq![e].last() == e);
}

pub(crate) fn kind_is(ins: &KuaishouJsonValue, kind: &str) -> (b: bool)
    ensures
        b == (instruction_kind(*ins) == Some(kind@)),
{
    match json_member(ins, "type") {
        Some(KuaishouJsonValue::String(k)) => string_eq_str(k, kind),
        _ => false,
    }
}

/// Take in the tweets and cursors of one instruction.
fn collect_instruction(
    ins: &KuaishouJsonValue,
    web_base_url: &str,
    seen: &mut Vec<String>,
    tweets: &mut Vec<crate::twitter::types::TwitterTweet>,
    previous_cursor: &mut Option<String>,
    next_cursor: &mut Option<String>,
    Ghost(kept): Ghost<Seq<KuaishouJsonValue>>,
) -> (res: Result<Ghost<Seq<KuaishouJsonValue>>, AppError>)
    requires
        timeline_state(old(tweets)@, old(seen)@, kept, web_base_url@),
    ensures
        match tweets_fold(Ok(kept), instruction_tweets(*ins)) {
            Err(m) => res matches Err(e) && e.upstream_message() == Some(m),
            Ok(k) => res matches Ok(g) && g@ == k && timeline_state(
                final(tweets)@,
                final(seen)@,
                k,
                web_base_url@,
            ) && opt_text(*final(previous_cursor)) == crate::twitter::parse::first_text(
                opt_text(*old(previous_cursor)),
                first_cursor(instruction_entries(*ins), "Top"@),
            ) && opt_text(*final(next_cursor)) == crate::twitter::parse::first_text(
                opt_text(*old(next_cursor)),
                first_cursor(instruction_entries(*ins), "Bottom"@),
            ),
        },
{
    if kind_is(ins, "TimelinePinEntry") {
        match json_member(ins, "entry") {
            Some(e) => {
                let g = collect_entry(e, web_base_url, seen, tweets, Ghost(kept))?;
                collect_cursor(e, previous_cursor, next_cursor);
                proof {
                    lemma_first_cursor_one(*e, "Top"@);
                    lemma_first_cursor_one(*e, "Bottom"@);
                }
                return Ok(g);
            },
            None => {
                assert(instruction_entries(*ins) =~= Seq::<KuaishouJsonValue>::empty());
                assert(instruction_tweets(*ins) =~= Seq::<KuaishouJsonValue>::empty());
                return Ok(Ghost(kept));
            },
        }
    }
    if kind_is(ins, "TimelineAddEntries") {
        let entries = match json_member(ins, "entries") {
            Some(KuaishouJsonValue::Array(es)) => es,
            _ => {
                assert(instruction_entries(*ins) =~= Seq::<KuaishouJsonValue>::empty());
                assert(instruction_tweets(*ins) =~= Seq::<KuaishouJsonValue>::empty());
                return Ok(Ghost(kept));
            },
        };
        let ghost prev0 = opt_text(*previous_cursor);
        let ghost next0 = opt_text(*next_cursor);
        let ghost mut cur = kept;
        assert(entries@.skip(0) =~= entries@);
        assert(entries@.take(0) =~= Seq::<KuaishouJsonValue>::empty());
        for j in 0..entries.len()
            invariant
                instruction_tweets(*ins) == entries_tweets(entries@),
                instruction_entries(*ins) == entries@,
                tweets_fold(Ok(kept), entries_tweets(entries@)) == tweets_fold(
                    Ok(cur),
                    entries_tweets(entries@.skip(j as int)),
                ),
                timeline_state(tweets@, seen@, cur, web_base_url@),
                opt_text(*previous_cursor) == crate::twitter::parse::first_text(
                    prev0,
                    first_cursor(entries@.take(j as int), "Top"@),
                ),
                opt_text(*next_cursor) == crate::twitter::parse::first_text(
                    next0,
                    first_cursor(entries@.take(j as int), "Bottom"@),
                ),
        {
            proof {
                lemma_entries_front(entries@, j as int);
                lemma_tweets_fold_concat(
                    Ok(cur),
                    entry_tweets(entries@[j as int]),
                    entries_tweets(entries@.skip(j + 1)),
                );
            }
            match collect_entry(&entries[j], web_base_url, seen, tweets, Ghost(cur)) {
                Ok(g) => {
                    proof {
                        cur = g@;
                    }
                },
                Err(e) => {
                    proof {
                        match tweets_fold(Ok(cur), entry_tweets(entries@[j as int])) {
                            Err(m) => lemma_tweets_fold_err(m, entries_tweets(entries@.skip(j + 1))),
                            Ok(_) => {},
                        }
                    }
                    return Err(e);
                },
            }
            collect_cursor(&entries[j], previous_cursor, next_cursor);
            assert(entries@.take(j + 1).drop_last() =~= entries@.take(j as int));
            assert(entries@.take(j + 1).last() == entries@[j as int]);
        }
        assert(entries@.skip(entries@.len() as int) =~= Seq::<KuaishouJsonValue>::empty());
        assert(entries@.take(entries@.len() as int) =~= entries@);
        return Ok(Ghost(cur));
    }
    assert(instruction_entries(*ins) =~= Seq::<KuaishouJsonValue>::empty());
    if kind_is(ins, "TimelineAddToModule") {
        let items = match json_member(ins, "moduleItems") {
            Some(KuaishouJsonValue::Array(items)) => items,
            _ => {
                assert(instruction_tweets(*ins) =~= Seq::<KuaishouJsonValue>::empty());
                return Ok(Ghost(kept));
            },
        };
        let ghost mut cur = kept;
        assert(items@.skip(0) =~= items@);
        for j in 0..items.len()
            invariant
                instruction_tweets(*ins) == module_items_tweets(items@),
                tweets_fold(Ok(kept), module_items_tweets(items@)) == tweets_fold(
                    Ok(cur),
                    module_items_tweets(items@.skip(j as int)),
                ),
                timeline_state(tweets@, seen@, cur, web_base_url@),
        {
            proof {
                lemma_module_items_front(items@, j as int);
                lemma_tweets_fold_concat(
                    Ok(cur),
                    module_item_tweets(items@[j as int]),
                    module_items_tweets(items@.skip(j + 1)),
                );
            }
            match collect_module_item(&items[j], web_base_url, seen, tweets, Ghost(cur)) {
                Ok(g) => {
                    proof {
                        cur = g@;
                    }
                },
                Err(e) => {
                    proof {
                        match tweets_fold(Ok(cur), module_item_tweets(items@[j as int])) {
                            Err(m) => lemma_tweets_fold_err(m, module_items_tweets(items@.skip(j + 1))),
                            Ok(_) => {},
                        }
                    }
                    return Err(e);
                },
            }
        }
        assert(items@.skip(items@.len() as int) =~= Seq::<KuaishouJsonValue>::empty());
        return Ok(Ghost(cur));
    }
    assert(instruction_tweets(*ins) =~= Seq::<KuaishouJsonValue>::empty());
    Ok(Ghost(kept))
}

/// The tweets of a run of instructions, each id once, in order, or the
/// first error met while reading them.
pub open spec fn timeline_outcome(instructions: Seq<KuaishouJsonValue>) -> Result<
    Seq<KuaishouJsonValue>,
    Seq<char>,
> {
    tweets_fold(Ok(seq![]), timeline_tweets(instructions))
}

/// What a page of tweets read from instructions holds: the first `limit`
/// tweets kept, each read from its payload, and the first `Top` and
/// `Bottom` cursors.
pub open spec fn timeline_page_from(
    tweets: Seq<crate::twitter::types::TwitterTweet>,
    previous_cursor: Option<String>,
    next_cursor: Option<String>,
    kept: Seq<KuaishouJsonValue>,
    instructions: Seq<KuaishouJsonValue>,
    web_base_url: Seq<char>,
    limit: usize,
) -> bool {
    &&& tweets.len() == (if kept.len() > limit {
        limit as int
    } else {
        kept.len() as int
    })
    &&& forall|i: int| 0 <= i < tweets.len() ==> tweet_parsed_from(#[trigger] tweets[i], kept[i], web_base_url)
    &&& opt_text(previous_cursor) == first_cursor(timeline_entries(instructions), "Top"@)
    &&& opt_text(next_cursor) == first_cursor(timeline_entries(instructions), "Bottom"@)
}

/// Read the tweets and cursors of timeline instructions, keeping the first
/// `limit` tweets.
pub fn parse_timeline_entries(
    instructions: &Vec<KuaishouJsonValue>,
    web_base_url: &str,
    limit: usize,
) -> (res: Result<(Vec<crate::twitter::types::TwitterTweet>, Option<String>, Option<String>), AppError>)
    ensures
        match timeline_outcome(instructions@) {
            Err(m) => res matches Err(e) && e.upstream_message() == Some(m),
            Ok(kept) => res matches Ok((tweets, previous_cursor, next_cursor)) && timeline_page_from(
                tweets@,
                previous_cursor,
                next_cursor,
                kept,
                instructions@,
                web_base_url@,
                limit,
            ),
        },
{
    let mut tweets: Vec<crate::twitter::types::TwitterTweet> = Vec::new();
    let mut seen: Vec<String> = Vec::new();
    let mut previous_cursor: Option<String> = None;
    let mut next_cursor: Option<String> = None;
    let ghost mut cur: Seq<KuaishouJsonValue> = seq![];
    assert(instructions@.skip(0) =~= instructions@);
    assert(instructions@.take(0) =~= Seq::<KuaishouJsonValue>::empty());
    for i in 0..instructions.len()
        invariant
            timeline_outcome(instructions@) == tweets_fold(
                Ok(cur),
                timeline_tweets(instructions@.skip(i as int)),
            ),
            timeline_state(tweets@, seen@, cur, web_base_url@),
            opt_text(previous_cursor) == first_cursor(
                timeline_entries(instructions@.take(i as int)),
                "Top"@,
            ),
            opt_text(next_cursor) == first_cursor(
                timeline_entries(instructions@.take(i as int)),
                "Bottom"@,
            ),
    {
        proof {
            lemma_timeline_front(instructions@, i as int);
            lemma_tweets_fold_concat(
                Ok(cur),
                instruction_tweets(instructions@[i as int]),
                timeline_tweets(instructions@.skip(i + 1)),
            );
        }
        let r = collect_instruction(
            &instructions[i],
            web_base_url,
            &mut seen,
            &mut tweets,
            &mut previous_cursor,
            &mut next_cursor,
            Ghost(cur),
        );
        match r {
            Ok(g) => {
                proof {
                    cur = g@;
                }
            },
            Err(e) => {
                proof {
                    match tweets_fold(Ok(cur), instruction_tweets(instructions@[i as int])) {
                        Err(m) => lemma_tweets_fold_err(m, timeline_tweets(instructions@.skip(i + 1))),
                        Ok(_) => {},
                    }
                }
                return Err(e);
            },
        }
        proof {
            let before = timeline_entries(instructions@.take(i as int));
            let added = instruction_entries(instructions@[i as int]);
            assert(instructions@.take(i + 1).drop_last() =~= instructions@.take(i as int));
            assert(timeline_entries(instructions@.take(i + 1)) == before + added);
            lemma_first_cursor_concat(before, added, "Top"@);
            lemma_first_cursor_concat(before, added, "Bottom"@);
        }
    }
    assert(instructions@.skip(instructions@.len() as int) =~= Seq::<KuaishouJsonValue>::empty());
    assert(instructions@.take(instructions@.len() as int) =~= instructions@);
    if tweets.len() > limit {
        tweets.truncate(limit);
    }
    Ok((tweets, previous_cursor, next_cursor))
}

/// What reading a page of tweets finds: the instructions at the path and
/// the tweets kept from them, or why it fails.
pub open spec fn tweet_page_outcome(
    value: KuaishouJsonValue,
    path: Seq<Seq<char>>,
    context: Seq<char>,
) -> Result<(Seq<KuaishouJsonValue>, Seq<KuaishouJsonValue>), Seq<char>> {
    match json_items(json_path(value, path)) {
        None => Err(context + " is missing instructions"@),
        Some(ins) => match timeline_outcome(ins) {
            Err(m) => Err(m),
            Ok(kept) => Ok((ins, kept)),
        },
    }
}

/// Read a page of tweets from the instructions at a path of a response.
pub fn parse_tweet_page_response(
    value: &KuaishouJsonValue,
    instructions_path: &[&str],
    context: &str,
    web_base_url: &str,
    limit: usize,
) -> (res: Result<TwitterTweetPage, AppError>)
    ensures
        match tweet_page_outcome(*value, path_view(instructions_path@), context@) {
            Err(m) => res matches Err(e) && e.upstream_message() == Some(m),
            Ok((ins, kept)) => res matches Ok(page) && timeline_page_from(
                page.tweets@,
                page.previous_cursor,
                page.next_cursor,
                kept,
                ins,
                web_base_url@,
                limit,
            ) && json_tree(page.upstream_payload) == normalized(*value),
        },
{
    let instructions = match array_at_path(value, instructions_path) {
        Some(ins) => ins,
        None => {
            let mut message = context.to_owned();
            message.append(" is missing instructions");
            return Err(upstream_error(message));
        },
    };
    let (tweets, previous_cursor, next_cursor) = parse_timeline_entries(
        instructions,
        web_base_url,
        limit,
    )?;
    Ok(TwitterTweetPage {
        tweets,
        previous_cursor,
        next_cursor,
        upstream_payload: normalize_upstream_payload(value),
    })
}

/// Where a user's timeline instructions lie.
pub open spec fn user_timeline_path() -> Seq<Seq<char>> {
    seq!["data"@, "user"@, "result"@, "timeline"@, "timeline"@, "instructions"@]
}

fn user_timeline_instructions_path() -> (p: [&'static str; 6])
    ensures
        path_view(p@) == user_timeline_path(),
{
    let p = ["data", "user", "result", "timeline", "timeline", "instructions"];
    assert(path_view(p@) =~= user_timeline_path());
    p
}

/// Read a user's timeline page.
pub fn parse_user_timeline_response(
    value: &KuaishouJsonValue,
    user: TwitterUserProfile,
    web_base_url: &str,
    limit: usize,
) -> (res: Result<TwitterUserTimeline, AppError>)
    ensures
        match tweet_page_outcome(
            *value,
            user_timeline_path(),
            "twitter timeline for `"@ + user.screen_name@ + "`"@,
        ) {
            Err(m) => res matches Err(e) && e.upstream_message() == Some(m),
            Ok((ins, kept)) => res matches Ok(page) && page.user == user && timeline_page_from(
                page.tweets@,
                page.previous_cursor,
                page.next_cursor,
                kept,
                ins,
                web_base_url@,
                limit,
            ) && json_tree(page.upstream_payload) == normalized(*value),
        },
{
    let mut context = "twitter timeline for `".to_owned();
    context.append(user.screen_name.as_str());
    context.append("`");
    let page = parse_tweet_page_response(
        value,
        &user_timeline_instructions_path(),
        context.as_str(),
        web_base_url,
        limit,
    )?;
    Ok(TwitterUserTimeline {
        user,
        tweets: page.tweets,
        previous_cursor: page.previous_cursor,
        next_cursor: page.next_cursor,
        upstream_payload: page.upstream_payload,
    })
}

/// Where search timeline instructions lie.
pub open spec fn search_timeline_path() -> Seq<Seq<char>> {
    seq!["data"@, "search_by_raw_query"@, "search_timeline"@, "timeline"@, "instructions"@]
}

/// Read a page of tweet search results.
pub fn parse_tweet_search_response(
    value: &KuaishouJsonValue,
    query: &str,
    search_type: TwitterTweetSearchMode,
    web_base_url: &str,
    limit: usize,
) -> (res: Result<TwitterTweetSearchPage, AppError>)
    ensures
        match tweet_page_outcome(
            *value,
            search_timeline_path(),
            "twitter search timeline for `"@ + query@ + "`"@,
        ) {
            Err(m) => res matches Err(e) && e.upstream_message() == Some(m),
            Ok((ins, kept)) => res matches Ok(page) && page.query@ == query@ && page.search_type
                == search_type && timeline_page_from(
                page.tweets@,
                page.previous_cursor,
                page.next_cursor,
                kept,
                ins,
                web_base_url@,
                limit,
            ) && json_tree(page.upstream_payload) == normalized(*value),
        },
{
    let mut context = "twitter search timeline for `".to_owned();
    context.append(query);
    context.append("`");
    let path = ["data", "search_by_raw_query", "search_timeline", "timeline", "instructions"];
    assert(path_view(path@) =~= search_timeline_path());
    let page = parse_tweet_page_response(value, &path, context.as_str(), web_base_url, limit)?;
    Ok(TwitterTweetSearchPage {
        query: query.to_owned(),
        search_type,
        tweets: page.tweets,
        previous_cursor: page.previous_cursor,
        next_cursor: page.next_cursor,
        upstream_payload: page.upstream_payload,
    })
}

/// The places a likes timeline may hold its instructions, in the order
/// they are tried.
pub open spec fn likes_path(k: int) -> Seq<Seq<char>> {
    if k == 0 {
        seq!["data"@, "user"@, "result"@, "timeline_v2"@, "timeline"@, "instructions"@]
    } else if k == 1 {
        user_timeline_path()
    } else {
        seq!["data"@, "user"@, "result"@, "timeline"@, "instructions"@]
    }
}

/// Whether the user's `timeline` is an object without members.
pub open spec fn likes_timeline_empty(value: KuaishouJsonValue) -> bool {
    match json_path(value, seq!["data"@, "user"@, "result"@, "timeline"@]) {
        Some(KuaishouJsonValue::Object(o)) => o.entries@.len() == 0,
        _ => false,
    }
}

/// Where a likes timeline is read from: the first place holding an array,
/// else (when the timeline is not withheld) the first place.
pub open spec fn likes_source(value: KuaishouJsonValue) -> Option<Seq<Seq<char>>> {
    if json_items(json_path(value, likes_path(0))) is Some {
        Some(likes_path(0))
    } else if json_items(json_path(value, likes_path(1))) is Some {
        Some(likes_path(1))
    } else if json_items(json_path(value, likes_path(2))) is Some {
        Some(likes_path(2))
    } else if likes_timeline_empty(value) {
        None
    } else {
        Some(likes_path(0))
    }
}

/// Read a page of a user's liked tweets; a timeline withheld by X (an
/// empty `timeline` object) is an error of its own.
pub fn parse_user_likes_page_response(
    value: &KuaishouJsonValue,
    screen_name: &str,
    web_base_url: &str,
    limit: usize,
) -> (res: Result<TwitterTweetPage, AppError>)
    ensures
        match likes_source(*value) {
            None => res matches Err(e) && e.upstream_message() == Some(
                "twitter likes timeline for `"@ + screen_name@
                    + "` is not exposed by the current X web API response"@,
            ),
            Some(path) => match tweet_page_outcome(
                *value,
                path,
                "twitter likes timeline for `"@ + screen_name@ + "`"@,
            ) {
                Err(m) => res matches Err(e) && e.upstream_message() == Some(m),
                Ok((ins, kept)) => res matches Ok(page) && timeline_page_from(
                    page.tweets@,
                    page.previous_cursor,
                    page.next_cursor,
                    kept,
                    ins,
                    web_base_url@,
                    limit,
                ) && json_tree(page.upstream_payload) == normalized(*value),
            },
        },
{
    let mut context = "twitter likes timeline for `".to_owned();
    context.append(screen_name);
    context.append("`");
    let first = ["data", "user", "result", "timeline_v2", "timeline", "instructions"];
    let second = user_timeline_instructions_path();
    let third = ["data", "user", "result", "timeline", "instructions"];
    assert(path_view(first@) =~= likes_path(0));
    assert(path_view(third@) =~= likes_path(2));
    if array_at_path(value, &first).is_some() {
        return parse_tweet_page_response(value, &first, context.as_str(), web_base_url, limit);
    }
    if array_at_path(value, &second).is_some() {
        return parse_tweet_page_response(value, &second, context.as_str(), web_base_url, limit);
    }
    if array_at_path(value, &third).is_some() {
        return parse_tweet_page_response(value, &third, context.as_str(), web_base_url, limit);
    }
    let timeline_path = path4("data", "user", "result", "timeline");
    match crate::kuaishou::json::json_at_path(value, &timeline_path) {
        Some(KuaishouJsonValue::Object(o)) => {
            if o.entries.len() == 0 {
                let mut message = "twitter likes timeline for `".to_owned();
                message.append(screen_name);
                message.append("` is not exposed by the current X web API response");
                return Err(upstream_error(message));
            }
        },
        _ => {},
    }
    parse_tweet_page_response(value, &first, context.as_str(), web_base_url, limit)
}

} // verus!
