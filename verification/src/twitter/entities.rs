//! Reading the text entities of a tweet from its JSON payload.

use vstd::prelude::*;

use crate::kuaishou::json::{json_at_path, json_get, json_path, KuaishouJsonValue};
use crate::text::{parse_u64, spec_parse_u64};
use crate::twitter::transport::{normalize_optional_string, opt_text, spec_normalize_optional};
use crate::twitter::types::{
    TwitterHashtagEntity, TwitterSymbolEntity, TwitterTimestampEntity, TwitterTweetEntities,
    TwitterUrlEntity, TwitterUserMentionEntity,
};

verus! {

/// The text of a string value.
pub open spec fn json_text(v: Option<KuaishouJsonValue>) -> Option<Seq<char>> {
    match v {
        Some(KuaishouJsonValue::String(s)) => Some(s@),
        _ => None,
    }
}

/// The trimmed, non-empty string at a path.
pub open spec fn string_at(v: KuaishouJsonValue, path: Seq<Seq<char>>) -> Option<Seq<char>> {
    match json_text(json_path(v, path)) {
        Some(s) => spec_normalize_optional(s),
        None => None,
    }
}

/// The items of an array value.
pub open spec fn json_items(v: Option<KuaishouJsonValue>) -> Option<Seq<KuaishouJsonValue>> {
    match v {
        Some(KuaishouJsonValue::Array(items)) => Some(items@),
        _ => None,
    }
}

/// A decimal text as a `u32` (`str::parse::<u32>`).
pub open spec fn text_u32(t: Seq<char>) -> Option<u32> {
    match spec_parse_u64(t) {
        Some(v) => if v <= u32::MAX {
            Some(v as u32)
        } else {
            None
        },
        None => None,
    }
}

/// A value as a `u32`: a non-negative integer number that fits, or a
/// string that parses as one.
pub open spec fn value_u32(v: KuaishouJsonValue) -> Option<u32> {
    match v {
        KuaishouJsonValue::Number(n) => if n@.len() > 0 && n@[0] != '+' {
            text_u32(n@)
        } else {
            None
        },
        KuaishouJsonValue::String(s) => text_u32(s@),
        _ => None,
    }
}

/// The `indices` pair of an entity: an array of exactly two `u32` values.
pub open spec fn indices_of(item: KuaishouJsonValue) -> Option<(u32, u32)> {
    match json_items(json_path(item, seq!["indices"@])) {
        Some(xs) => if xs.len() == 2 {
            match (value_u32(xs[0]), value_u32(xs[1])) {
                (Some(a), Some(b)) => Some((a, b)),
                _ => None,
            }
        } else {
            None
        },
        None => None,
    }
}

/// An optional pair of offsets as a pair.
pub open spec fn indices_view(indices: Option<[u32; 2]>) -> Option<(u32, u32)> {
    match indices {
        Some(a) => Some((a@[0], a@[1])),
        None => None,
    }
}

impl View for TwitterUrlEntity {
    type V = (Option<Seq<char>>, Option<Seq<char>>, Option<Seq<char>>, Option<Seq<char>>, Option<(u32, u32)>);

    open spec fn view(&self) -> Self::V {
        (
            opt_text(self.url),
            opt_text(self.expanded_url),
            opt_text(self.display_url),
            opt_text(self.unwound_url),
            indices_view(self.indices),
        )
    }
}

impl View for TwitterUserMentionEntity {
    type V = (Option<Seq<char>>, Option<Seq<char>>, Option<Seq<char>>, Option<(u32, u32)>);

    open spec fn view(&self) -> Self::V {
        (opt_text(self.id), opt_text(self.screen_name), opt_text(self.name), indices_view(self.indices))
    }
}

impl View for TwitterHashtagEntity {
    type V = (Seq<char>, Option<(u32, u32)>);

    open spec fn view(&self) -> Self::V {
        (self.text@, indices_view(self.indices))
    }
}

impl View for TwitterSymbolEntity {
    type V = (Seq<char>, Option<(u32, u32)>);

    open spec fn view(&self) -> Self::V {
        (self.text@, indices_view(self.indices))
    }
}

impl View for TwitterTimestampEntity {
    type V = (Seq<char>, Option<(u32, u32)>);

    open spec fn view(&self) -> Self::V {
        (self.text@, indices_view(self.indices))
    }
}

/// The URL entity an item describes, as plain values.
pub open spec fn url_entity_of(item: KuaishouJsonValue) -> (
    Option<Seq<char>>,
    Option<Seq<char>>,
    Option<Seq<char>>,
    Option<Seq<char>>,
    Option<(u32, u32)>,
) {
    (
        string_at(item, seq!["url"@]),
        string_at(item, seq!["expanded_url"@]),
        string_at(item, seq!["display_url"@]),
        string_at(item, seq!["unwound_url"@]),
        indices_of(item),
    )
}

/// The URL entities of the items that carry at least one field.
pub open spec fn url_entities(items: Seq<KuaishouJsonValue>) -> Seq<
    (Option<Seq<char>>, Option<Seq<char>>, Option<Seq<char>>, Option<Seq<char>>, Option<(u32, u32)>),
>
    decreases items.len(),
{
    if items.len() == 0 {
        seq![]
    } else {
        let rest = url_entities(items.drop_last());
        let e = url_entity_of(items.last());
        if e.0 is Some || e.1 is Some || e.2 is Some || e.3 is Some || e.4 is Some {
            rest.push(e)
        } else {
            rest
        }
    }
}

/// The mention an item describes: its id (`id_str`, else `id`), screen
/// name, name and offsets.
pub open spec fn mention_of(item: KuaishouJsonValue) -> (
    Option<Seq<char>>,
    Option<Seq<char>>,
    Option<Seq<char>>,
    Option<(u32, u32)>,
) {
    (
        match string_at(item, seq!["id_str"@]) {
            Some(id) => Some(id),
            None => string_at(item, seq!["id"@]),
        },
        string_at(item, seq!["screen_name"@]),
        string_at(item, seq!["name"@]),
        indices_of(item),
    )
}

/// The mentions of the items that carry at least one field.
pub open spec fn mention_entities(items: Seq<KuaishouJsonValue>) -> Seq<
    (Option<Seq<char>>, Option<Seq<char>>, Option<Seq<char>>, Option<(u32, u32)>),
>
    decreases items.len(),
{
    if items.len() == 0 {
        seq![]
    } else {
        let rest = mention_entities(items.drop_last());
        let e = mention_of(items.last());
        if e.0 is Some || e.1 is Some || e.2 is Some || e.3 is Some {
            rest.push(e)
        } else {
            rest
        }
    }
}

/// The `(text, offsets)` entities of the items that have a text.
pub open spec fn text_entities(items: Seq<KuaishouJsonValue>) -> Seq<(Seq<char>, Option<(u32, u32)>)>
    decreases items.len(),
{
    if items.len() == 0 {
        seq![]
    } else {
        let rest = text_entities(items.drop_last());
        match string_at(items.last(), seq!["text"@]) {
            Some(text) => rest.push((text, indices_of(items.last()))),
            None => rest,
        }
    }
}

/// Where a tweet keeps its entities: the note tweet's entity set, else the
/// legacy entities.
pub open spec fn entity_root(tweet: KuaishouJsonValue) -> Option<KuaishouJsonValue> {
    match json_path(
        tweet,
        seq!["note_tweet"@, "note_tweet_results"@, "result"@, "entity_set"@],
    ) {
        Some(root) => Some(root),
        None => json_path(tweet, seq!["legacy"@, "entities"@]),
    }
}

/// The items of the array at member `key`, none when there is no array.
pub open spec fn items_at(root: KuaishouJsonValue, key: Seq<char>) -> Seq<KuaishouJsonValue> {
    match json_items(json_path(root, seq![key])) {
        Some(items) => items,
        None => seq![],
    }
}

/// The mention items: those of `user_mentions`, else of `mentions`.
pub open spec fn mention_items(root: KuaishouJsonValue) -> Seq<KuaishouJsonValue> {
    match json_items(json_path(root, seq!["user_mentions"@])) {
        Some(items) => items,
        None => items_at(root, "mentions"@),
    }
}

fn path1<'a>(key: &'a str) -> (p: [&'a str; 1])
    ensures
        crate::kuaishou::json::path_view(p@) == seq![key@],
{
    let p = [key];
    assert(crate::kuaishou::json::path_view(p@) =~= seq![key@]);
    p
}

/// The trimmed, non-empty string at member `key`.
fn string_member(item: &KuaishouJsonValue, key: &str) -> (s: Option<String>)
    ensures
        opt_text(s) == string_at(*item, seq![key@]),
{
    let path = path1(key);
    match json_at_path(item, &path) {
        Some(KuaishouJsonValue::String(s)) => normalize_optional_string(s.clone()),
        _ => None,
    }
}

/// A value as a `u32`.
fn value_to_u32(value: &KuaishouJsonValue) -> (n: Option<u32>)
    ensures
        n == value_u32(*value),
{
    match value {
        KuaishouJsonValue::Number(text) => {
            let chars = crate::text::str_chars(text.as_str());
            if chars.len() == 0 || chars[0] == '+' {
                return None;
            }
            match parse_u64(text.as_str()) {
                Some(v) => if v <= 4294967295 {
                    Some(v as u32)
                } else {
                    None
                },
                None => None,
            }
        },
        KuaishouJsonValue::String(text) => match parse_u64(text.as_str()) {
            Some(v) => if v <= 4294967295 {
                Some(v as u32)
            } else {
                None
            },
            None => None,
        },
        _ => None,
    }
}

/// The `indices` pair of an entity.
fn parse_indices(item: &KuaishouJsonValue) -> (indices: Option<[u32; 2]>)
    ensures
        indices_view(indices) == indices_of(*item),
{
    let path = path1("indices");
    match json_at_path(item, &path) {
        Some(KuaishouJsonValue::Array(xs)) => {
            if xs.len() != 2 {
                return None;
            }
            let a = match value_to_u32(&xs[0]) {
                Some(a) => a,
                None => return None,
            };
            let b = match value_to_u32(&xs[1]) {
                Some(b) => b,
                None => return None,
            };
            let pair = [a, b];
            assert(pair@[0] == a && pair@[1] == b);
            Some(pair)
        },
        _ => None,
    }
}

/// The items of the array at member `key`, if it is one.
fn array_member<'a>(root: &'a KuaishouJsonValue, key: &str) -> (items: Option<&'a Vec<KuaishouJsonValue>>)
    ensures
        match items {
            Some(xs) => json_items(json_path(*root, seq![key@])) == Some(xs@),
            None => json_items(json_path(*root, seq![key@])) is None,
        },
{
    let path = path1(key);
    match json_at_path(root, &path) {
        Some(KuaishouJsonValue::Array(xs)) => Some(xs),
        _ => None,
    }
}

fn parse_url_entities(items: &Vec<KuaishouJsonValue>) -> (out: Vec<TwitterUrlEntity>)
    ensures
        out@.map_values(|e: TwitterUrlEntity| e@) == url_entities(items@),
{
    let mut out: Vec<TwitterUrlEntity> = Vec::new();
    for i in 0..items.len()
        invariant
            out@.map_values(|e: TwitterUrlEntity| e@) == url_entities(items@.take(i as int)),
    {
        let item = &items[i];
        let entity = TwitterUrlEntity {
            url: string_member(item, "url"),
            expanded_url: string_member(item, "expanded_url"),
            display_url: string_member(item, "display_url"),
            unwound_url: string_member(item, "unwound_url"),
            indices: parse_indices(item),
        };
        assert(items@.take(i + 1).drop_last() =~= items@.take(i as int));
        assert(items@.take(i + 1).last() == *item);
        let keep = entity.url.is_some() || entity.expanded_url.is_some() || entity.display_url.is_some()
            || entity.unwound_url.is_some() || entity.indices.is_some();
        let ghost before = out@.map_values(|e: TwitterUrlEntity| e@);
        if keep {
            let ghost v = entity@;
            out.push(entity);
            assert(out@.map_values(|e: TwitterUrlEntity| e@) =~= before.push(v));
        }
    }
    assert(items@.take(items@.len() as int) =~= items@);
    out
}

fn parse_mention_entities(items: &Vec<KuaishouJsonValue>) -> (out: Vec<TwitterUserMentionEntity>)
    ensures
        out@.map_values(|e: TwitterUserMentionEntity| e@) == mention_entities(items@),
{
    let mut out: Vec<TwitterUserMentionEntity> = Vec::new();
    for i in 0..items.len()
        invariant
            out@.map_values(|e: TwitterUserMentionEntity| e@) == mention_entities(items@.take(i as int)),
    {
        let item = &items[i];
        let id = match string_member(item, "id_str") {
            Some(id) => Some(id),
            None => string_member(item, "id"),
        };
        let entity = TwitterUserMentionEntity {
            id,
            screen_name: string_member(item, "screen_name"),
            name: string_member(item, "name"),
            indices: parse_indices(item),
        };
        assert(items@.take(i + 1).drop_last() =~= items@.take(i as int));
        assert(items@.take(i + 1).last() == *item);
        let keep = entity.id.is_some() || entity.screen_name.is_some() || entity.name.is_some()
            || entity.indices.is_some();
        let ghost before = out@.map_values(|e: TwitterUserMentionEntity| e@);
        if keep {
            let ghost v = entity@;
            out.push(entity);
            assert(out@.map_values(|e: TwitterUserMentionEntity| e@) =~= before.push(v));
        }
    }
    assert(items@.take(items@.len() as int) =~= items@);
    out
}

/// The `(text, offsets)` entities of items, as pairs.
fn parse_text_entities(items: &Vec<KuaishouJsonValue>) -> (out: Vec<(String, Option<[u32; 2]>)>)
    ensures
        out@.map_values(|e: (String, Option<[u32; 2]>)| (e.0@, indices_view(e.1))) == text_entities(
            items@,
        ),
{
    let mut out: Vec<(String, Option<[u32; 2]>)> = Vec::new();
    for i in 0..items.len()
        invariant
            out@.map_values(|e: (String, Option<[u32; 2]>)| (e.0@, indices_view(e.1)))
                == text_entities(items@.take(i as int)),
    {
        let item = &items[i];
        assert(items@.take(i + 1).drop_last() =~= items@.take(i as int));
        assert(items@.take(i + 1).last() == *item);
        let ghost before = out@.map_values(|e: (String, Option<[u32; 2]>)| (e.0@, indices_view(e.1)));
        match string_member(item, "text") {
            Some(text) => {
                let indices = parse_indices(item);
                let ghost v = (text@, indices_view(indices));
                out.push((text, indices));
                assert(out@.map_values(|e: (String, Option<[u32; 2]>)| (e.0@, indices_view(e.1)))
                    =~= before.push(v));
            },
            None => {},
        }
    }
    assert(items@.take(items@.len() as int) =~= items@);
    out
}

/// What the text entities of a tweet payload are: URLs, mentions,
/// hashtags, symbols and timestamps from the note tweet's entity set, else
/// from the legacy entities; none when the tweet has neither.
pub open spec fn entities_from(e: TwitterTweetEntities, tweet: KuaishouJsonValue) -> bool {
    match entity_root(tweet) {
        None => e.urls@.len() == 0 && e.user_mentions@.len() == 0
            && e.hashtags@.len() == 0 && e.symbols@.len() == 0
            && e.timestamps@.len() == 0,
        Some(root) => {
            &&& e.urls@.map_values(|x: TwitterUrlEntity| x@) == url_entities(
                items_at(root, "urls"@),
            )
            &&& e.user_mentions@.map_values(|x: TwitterUserMentionEntity| x@)
                == mention_entities(mention_items(root))
            &&& e.hashtags@.map_values(|x: TwitterHashtagEntity| x@) == text_entities(
                items_at(root, "hashtags"@),
            )
            &&& e.symbols@.map_values(|x: TwitterSymbolEntity| x@) == text_entities(
                items_at(root, "symbols"@),
            )
            &&& e.timestamps@.map_values(|x: TwitterTimestampEntity| x@) == text_entities(
                items_at(root, "timestamps"@),
            )
        },
    }
}

/// The text entities of a tweet payload: URLs, mentions, hashtags,
/// symbols and timestamps from the note tweet's entity set, else from the
/// legacy entities; none when the tweet has neither.
pub fn parse_tweet_entities(tweet: &KuaishouJsonValue) -> (entities: TwitterTweetEntities)
    ensures
        entities_from(entities, *tweet),
{
    let note_path = ["note_tweet", "note_tweet_results", "result", "entity_set"];
    let legacy_path = ["legacy", "entities"];
    assert(crate::kuaishou::json::path_view(note_path@) =~= seq![
        "note_tweet"@,
        "note_tweet_results"@,
        "result"@,
        "entity_set"@,
    ]);
    assert(crate::kuaishou::json::path_view(legacy_path@) =~= seq!["legacy"@, "entities"@]);
    let root = match json_at_path(tweet, &note_path) {
        Some(root) => root,
        None => match json_at_path(tweet, &legacy_path) {
            Some(root) => root,
            None => {
                return TwitterTweetEntities {
                    urls: Vec::new(),
                    user_mentions: Vec::new(),
                    hashtags: Vec::new(),
                    symbols: Vec::new(),
                    timestamps: Vec::new(),
                };
            },
        },
    };
    let empty: Vec<KuaishouJsonValue> = Vec::new();
    let urls = match array_member(root, "urls") {
        Some(items) => parse_url_entities(items),
        None => parse_url_entities(&empty),
    };
    let mention_list = match array_member(root, "user_mentions") {
        Some(items) => parse_mention_entities(items),
        None => match array_member(root, "mentions") {
            Some(items) => parse_mention_entities(items),
            None => parse_mention_entities(&empty),
        },
    };
    let hashtag_pairs = match array_member(root, "hashtags") {
        Some(items) => parse_text_entities(items),
        None => parse_text_entities(&empty),
    };
    let symbol_pairs = match array_member(root, "symbols") {
        Some(items) => parse_text_entities(items),
        None => parse_text_entities(&empty),
    };
    let timestamp_pairs = match array_member(root, "timestamps") {
        Some(items) => parse_text_entities(items),
        None => parse_text_entities(&empty),
    };
    TwitterTweetEntities {
        urls,
        user_mentions: mention_list,
        hashtags: hashtags_of(hashtag_pairs),
        symbols: symbols_of(symbol_pairs),
        timestamps: timestamps_of(timestamp_pairs),
    }
}

fn hashtags_of(pairs: Vec<(String, Option<[u32; 2]>)>) -> (out: Vec<TwitterHashtagEntity>)
    ensures
        out@.map_values(|e: TwitterHashtagEntity| e@) == pairs@.map_values(
            |e: (String, Option<[u32; 2]>)| (e.0@, indices_view(e.1)),
        ),
{
    let mut out: Vec<TwitterHashtagEntity> = Vec::new();
    let mut rest = pairs;
    let ghost all = rest@;
    let ghost mut i: int = 0;
    assert(all.skip(0) =~= all);
    while rest.len() > 0
        invariant
            0 <= i <= all.len(),
            rest@ == all.skip(i),
            out@.map_values(|e: TwitterHashtagEntity| e@) == all.take(i).map_values(
                |e: (String, Option<[u32; 2]>)| (e.0@, indices_view(e.1)),
            ),
        decreases rest.len(),
    {
        assert(rest@[0] == all[i]);
        let (text, indices) = rest.remove(0);
        assert(rest@ =~= all.skip(i + 1));
        let ghost before = out@.map_values(|e: TwitterHashtagEntity| e@);
        out.push(TwitterHashtagEntity { text, indices });
        proof {
            assert(all.take(i + 1) =~= all.take(i).push(all[i]));
            assert(out@.map_values(|e: TwitterHashtagEntity| e@) =~= before.push((all[i].0@, indices_view(all[i].1))));
            i = i + 1;
        }
    }
    assert(all.take(i) =~= all);
    out
}

fn symbols_of(pairs: Vec<(String, Option<[u32; 2]>)>) -> (out: Vec<TwitterSymbolEntity>)
    ensures
        out@.map_values(|e: TwitterSymbolEntity| e@) == pairs@.map_values(
            |e: (String, Option<[u32; 2]>)| (e.0@, indices_view(e.1)),
        ),
{
    let mut out: Vec<TwitterSymbolEntity> = Vec::new();
    let mut rest = pairs;
    let ghost all = rest@;
    let ghost mut i: int = 0;
    assert(all.skip(0) =~= all);
    while rest.len() > 0
        invariant
            0 <= i <= all.len(),
            rest@ == all.skip(i),
            out@.map_values(|e: TwitterSymbolEntity| e@) == all.take(i).map_values(
                |e: (String, Option<[u32; 2]>)| (e.0@, indices_view(e.1)),
            ),
        decreases rest.len(),
    {
        assert(rest@[0] == all[i]);
        let (text, indices) = rest.remove(0);
        assert(rest@ =~= all.skip(i + 1));
        let ghost before = out@.map_values(|e: TwitterSymbolEntity| e@);
        out.push(TwitterSymbolEntity { text, indices });
        proof {
            assert(all.take(i + 1) =~= all.take(i).push(all[i]));
            assert(out@.map_values(|e: TwitterSymbolEntity| e@) =~= before.push((all[i].0@, indices_view(all[i].1))));
            i = i + 1;
        }
    }
    assert(all.take(i) =~= all);
    out
}

fn timestamps_of(pairs: Vec<(String, Option<[u32; 2]>)>) -> (out: Vec<TwitterTimestampEntity>)
    ensures
        out@.map_values(|e: TwitterTimestampEntity| e@) == pairs@.map_values(
            |e: (String, Option<[u32; 2]>)| (e.0@, indices_view(e.1)),
        ),
{
    let mut out: Vec<TwitterTimestampEntity> = Vec::new();
    let mut rest = pairs;
    let ghost all = rest@;
    let ghost mut i: int = 0;
    assert(all.skip(0) =~= all);
    while rest.len() > 0
        invariant
            0 <= i <= all.len(),
            rest@ == all.skip(i),
            out@.map_values(|e: TwitterTimestampEntity| e@) == all.take(i).map_values(
                |e: (String, Option<[u32; 2]>)| (e.0@, indices_view(e.1)),
            ),
        decreases rest.len(),
    {
        assert(rest@[0] == all[i]);
        let (text, indices) = rest.remove(0);
        assert(rest@ =~= all.skip(i + 1));
        let ghost before = out@.map_values(|e: TwitterTimestampEntity| e@);
        out.push(TwitterTimestampEntity { text, indices });
        proof {
            assert(all.take(i + 1) =~= all.take(i).push(all[i]));
            assert(out@.map_values(|e: TwitterTimestampEntity| e@) =~= before.push((all[i].0@, indices_view(all[i].1))));
            i = i + 1;
        }
    }
    assert(all.take(i) =~= all);
    out
}

/// The member `key` of `item` is a string that is not blank.
pub open spec fn has_text_member(item: KuaishouJsonValue, key: Seq<char>) -> bool {
    json_get(item, key) matches Some(KuaishouJsonValue::String(t)) && crate::text::trimmed(t@).len() > 0
}

/// `field` is what the member `key` of `item` says: its trimmed text when
/// it is a string that is not blank, nothing when it is not a string.
pub open spec fn follows_text_member(
    item: KuaishouJsonValue,
    key: Seq<char>,
    field: Option<Seq<char>>,
) -> bool {
    &&& has_text_member(item, key) ==> field == Some(crate::text::trimmed(json_text(json_get(item, key))->0))
    &&& !(json_get(item, key) matches Some(KuaishouJsonValue::String(_))) ==> field is None
}

proof fn lemma_string_at_member(item: KuaishouJsonValue, key: Seq<char>)
    ensures
        follows_text_member(item, key, string_at(item, seq![key])),
{
    reveal_with_fuel(json_path, 2);
    assert(seq![key].drop_first() =~= Seq::<Seq<char>>::empty());
    assert(seq![key][0] == key);
    assert(json_path(item, seq![key]) == json_get(item, key));
}

/// Each text of a URL entity comes from the member of its own name:
/// `url` from `url`, `expanded_url` from `expanded_url` (never from
/// `display_url`), `display_url` from `display_url`, `unwound_url` from
/// `unwound_url`.
pub proof fn lemma_url_entity_fields(item: KuaishouJsonValue)
    ensures
        follows_text_member(item, "url"@, url_entity_of(item).0),
        follows_text_member(item, "expanded_url"@, url_entity_of(item).1),
        follows_text_member(item, "display_url"@, url_entity_of(item).2),
        follows_text_member(item, "unwound_url"@, url_entity_of(item).3),
{
    lemma_string_at_member(item, "url"@);
    lemma_string_at_member(item, "expanded_url"@);
    lemma_string_at_member(item, "display_url"@);
    lemma_string_at_member(item, "unwound_url"@);
}

/// Items that each carry a `url` text give one URL entity apiece, in
/// order, each read from its own item.
pub proof fn lemma_url_entities_one_per_item(items: Seq<KuaishouJsonValue>)
    requires
        forall|i: int|
            0 <= i < items.len() ==> has_text_member(#[trigger] items[i], "url"@),
    ensures
        url_entities(items).len() == items.len(),
        forall|i: int| 0 <= i < items.len() ==> #[trigger] url_entities(items)[i] == url_entity_of(items[i]),
    decreases items.len(),
{
    if items.len() > 0 {
        let init = items.drop_last();
        assert forall|i: int| 0 <= i < init.len() implies has_text_member(#[trigger] init[i], "url"@) by {
            assert(init[i] == items[i]);
        }
        lemma_url_entities_one_per_item(init);
        lemma_url_entity_fields(items.last());
        assert(has_text_member(items[items.len() - 1], "url"@));
        assert forall|i: int| 0 <= i < items.len() implies #[trigger] url_entities(items)[i] == url_entity_of(
            items[i],
        ) by {
            if i < items.len() - 1 {
                assert(init[i] == items[i]);
            }
        }
    }
}

/// A mention's id is its `id_str` text, else its `id` text; its screen
/// name and name come from the members of those names.
pub proof fn lemma_mention_fields(item: KuaishouJsonValue)
    ensures
        has_text_member(item, "id_str"@) ==> mention_of(item).0 == Some(
            crate::text::trimmed(json_text(json_get(item, "id_str"@))->0),
        ),
        !(json_get(item, "id_str"@) matches Some(KuaishouJsonValue::String(_))) ==> follows_text_member(
            item,
            "id"@,
            mention_of(item).0,
        ),
        follows_text_member(item, "screen_name"@, mention_of(item).1),
        follows_text_member(item, "name"@, mention_of(item).2),
{
    lemma_string_at_member(item, "id_str"@);
    lemma_string_at_member(item, "id"@);
    lemma_string_at_member(item, "screen_name"@);
    lemma_string_at_member(item, "name"@);
}

/// The URL entities of a tweet without a note tweet are those of its
/// `legacy.entities.urls` items, one per item that carries a `url` text,
/// in order, each text taken from the item's member of the same name.
pub proof fn lemma_tweet_url_entities(
    e: TwitterTweetEntities,
    tweet: KuaishouJsonValue,
    legacy: KuaishouJsonValue,
    entities: KuaishouJsonValue,
    items: Vec<KuaishouJsonValue>,
)
    requires
        entities_from(e, tweet),
        json_get(tweet, "note_tweet"@) is None,
        json_get(tweet, "legacy"@) == Some(legacy),
        json_get(legacy, "entities"@) == Some(entities),
        json_get(entities, "urls"@) == Some(KuaishouJsonValue::Array(items)),
        forall|i: int| 0 <= i < items@.len() ==> has_text_member(#[trigger] items@[i], "url"@),
    ensures
        e.urls@.len() == items@.len(),
        forall|i: int|
            0 <= i < items@.len() ==> {
                &&& follows_text_member(items@[i], "url"@, opt_text(#[trigger] e.urls@[i].url))
                &&& follows_text_member(items@[i], "expanded_url"@, opt_text(e.urls@[i].expanded_url))
                &&& follows_text_member(items@[i], "display_url"@, opt_text(e.urls@[i].display_url))
                &&& follows_text_member(items@[i], "unwound_url"@, opt_text(e.urls@[i].unwound_url))
            },
{
    reveal_with_fuel(json_path, 3);
    let note = seq!["note_tweet"@, "note_tweet_results"@, "result"@, "entity_set"@];
    assert(note[0] == "note_tweet"@);
    assert(json_path(tweet, note) is None);
    let lp = seq!["legacy"@, "entities"@];
    assert(lp[0] == "legacy"@ && lp.drop_first() =~= seq!["entities"@]);
    assert(seq!["entities"@][0] == "entities"@ && seq!["entities"@].drop_first() =~= Seq::<Seq<char>>::empty());
    assert(json_path(tweet, lp) == Some(entities));
    assert(entity_root(tweet) == Some(entities));
    assert(seq!["urls"@][0] == "urls"@ && seq!["urls"@].drop_first() =~= Seq::<Seq<char>>::empty());
    assert(items_at(entities, "urls"@) == items@);
    lemma_url_entities_one_per_item(items@);
    let views = e.urls@.map_values(|x: TwitterUrlEntity| x@);
    assert(views.len() == e.urls@.len());
    assert forall|i: int| 0 <= i < items@.len() implies {
        &&& follows_text_member(items@[i], "url"@, opt_text(#[trigger] e.urls@[i].url))
        &&& follows_text_member(items@[i], "expanded_url"@, opt_text(e.urls@[i].expanded_url))
        &&& follows_text_member(items@[i], "display_url"@, opt_text(e.urls@[i].display_url))
        &&& follows_text_member(items@[i], "unwound_url"@, opt_text(e.urls@[i].unwound_url))
    } by {
        assert(views[i] == e.urls@[i]@);
        lemma_url_entity_fields(items@[i]);
    }
}

/// Hashtags, symbols and timestamps: items that each carry a `text` give
/// one entity apiece, in order, whose text is the item's own, trimmed.
pub proof fn lemma_text_entities_one_per_item(items: Seq<KuaishouJsonValue>)
    requires
        forall|i: int| 0 <= i < items.len() ==> has_text_member(#[trigger] items[i], "text"@),
    ensures
        text_entities(items).len() == items.len(),
        forall|i: int|
            0 <= i < items.len() ==> #[trigger] text_entities(items)[i].0 == crate::text::trimmed(
                json_text(json_get(items[i], "text"@))->0,
            ),
    decreases items.len(),
{
    if items.len() > 0 {
        let init = items.drop_last();
        assert forall|i: int| 0 <= i < init.len() implies has_text_member(#[trigger] init[i], "text"@) by {
            assert(init[i] == items[i]);
        }
        lemma_text_entities_one_per_item(init);
        lemma_string_at_member(items.last(), "text"@);
        assert(has_text_member(items[items.len() - 1], "text"@));
        assert forall|i: int| 0 <= i < items.len() implies #[trigger] text_entities(items)[i].0
            == crate::text::trimmed(json_text(json_get(items[i], "text"@))->0) by {
            if i < items.len() - 1 {
                assert(init[i] == items[i]);
            }
        }
    }
}

} // verus!
