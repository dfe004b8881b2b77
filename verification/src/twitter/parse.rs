//! Users and tweets read from X GraphQL payloads.

use vstd::prelude::*;

use crate::error::{upstream_error, AppError};
use crate::kuaishou::json::{json_at_path, json_path, KuaishouJsonValue};
use crate::text::{trim_end_char, trim_end_matches_char};
use crate::twitter::entities::{entities_from, json_items, json_text, parse_tweet_entities, string_at};
use crate::twitter::transport::{
    opt_text,
    normalize_optional_string, spec_datetime_rfc3339, spec_normalize_optional,
    twitter_datetime_to_rfc3339,
};
use crate::twitter::types::{
    TwitterMediaEntity, TwitterTweet, TwitterUserProfile, TwitterUserSummary,
};
use crate::twitter::values::{
    bool_at_path, json_bool, json_tree, lemma_path_height, lemma_unwrap_height, normalize_upstream_payload,
    normalized, path1, path2, path3, path4, string_at_path, tweet_result_of, u64_at_path,
    unwrap_tweet_result, unwrap_user_result, user_result_of, value_height, value_u64,
};

verus! {

/// The first of two optional texts that is present.
pub open spec fn first_text(a: Option<Seq<char>>, b: Option<Seq<char>>) -> Option<Seq<char>> {
    match a {
        Some(x) => Some(x),
        None => b,
    }
}

/// A count, zero when absent.
pub open spec fn count_or_zero(n: Option<u64>) -> u64 {
    match n {
        Some(x) => x,
        None => 0,
    }
}

/// A flag, else a fallback flag, else `false`.
pub open spec fn flag_or(a: Option<bool>, b: Option<bool>) -> bool {
    match a {
        Some(x) => x,
        None => match b {
            Some(y) => y,
            None => false,
        },
    }
}

/// The screen name of a user payload (`core`, else `legacy`).
pub open spec fn screen_name_of(user: KuaishouJsonValue) -> Option<Seq<char>> {
    first_text(
        string_at(user, seq!["core"@, "screen_name"@]),
        string_at(user, seq!["legacy"@, "screen_name"@]),
    )
}

/// Why a user payload cannot be read, if it cannot.
pub open spec fn profile_error(user: KuaishouJsonValue) -> Option<Seq<char>> {
    if string_at(user, seq!["rest_id"@]) is None {
        Some("twitter user response is missing `rest_id`"@)
    } else if screen_name_of(user) is None {
        Some("twitter user response is missing `screen_name`"@)
    } else {
        None
    }
}

/// The pinned tweet id of a user payload: the first item of
/// `legacy.pinned_tweet_ids_str`, trimmed and non-empty.
pub open spec fn pinned_tweet_of(user: KuaishouJsonValue) -> Option<Seq<char>> {
    match json_items(json_path(user, seq!["legacy"@, "pinned_tweet_ids_str"@])) {
        Some(ids) => if ids.len() > 0 {
            match json_text(Some(ids[0])) {
                Some(t) => spec_normalize_optional(t),
                None => None,
            }
        } else {
            None
        },
        None => None,
    }
}

/// The avatar of a user payload.
pub open spec fn avatar_of(user: KuaishouJsonValue) -> Option<Seq<char>> {
    first_text(
        string_at(user, seq!["avatar"@, "image_url"@]),
        string_at(user, seq!["legacy"@, "profile_image_url_https"@]),
    )
}

/// Whether a user payload is verified.
pub open spec fn verified_of(user: KuaishouJsonValue) -> bool {
    flag_or(
        json_bool(json_path(user, seq!["is_blue_verified"@])),
        json_bool(json_path(user, seq!["verification"@, "verified"@])),
    )
}

/// The display name of a user payload (`core`, else `legacy`, else the
/// screen name).
pub open spec fn display_name_of(user: KuaishouJsonValue, screen_name: Seq<char>) -> Seq<char> {
    match first_text(
        string_at(user, seq!["core"@, "name"@]),
        string_at(user, seq!["legacy"@, "name"@]),
    ) {
        Some(n) => n,
        None => screen_name,
    }
}

/// A legacy count of a user or tweet payload, zero when absent.
pub open spec fn legacy_count(v: KuaishouJsonValue, key: Seq<char>) -> u64 {
    count_or_zero(value_u64(json_path(v, seq!["legacy"@, key])))
}

/// What a profile read from a user payload holds.
pub open spec fn profile_parsed_from(p: TwitterUserProfile, user: KuaishouJsonValue) -> bool {
    &&& Some(p.id@) == string_at(user, seq!["rest_id"@])
    &&& Some(p.screen_name@) == screen_name_of(user)
    &&& p.name@ == display_name_of(user, p.screen_name@)
    &&& opt_text(p.created_at) == spec_datetime_rfc3339(
        first_text(
            string_at(user, seq!["core"@, "created_at"@]),
            string_at(user, seq!["legacy"@, "created_at"@]),
        ),
    )
    &&& opt_text(p.description) == string_at(user, seq!["legacy"@, "description"@])
    &&& opt_text(p.location) == first_text(
        string_at(user, seq!["location"@, "location"@]),
        string_at(user, seq!["legacy"@, "location"@]),
    )
    &&& opt_text(p.avatar_url) == avatar_of(user)
    &&& opt_text(p.banner_url) == string_at(user, seq!["legacy"@, "profile_banner_url"@])
    &&& p.verified == verified_of(user)
    &&& p.protected == flag_or(json_bool(json_path(user, seq!["privacy"@, "protected"@])), None)
    &&& p.followers_count == legacy_count(user, "followers_count"@)
    &&& p.following_count == legacy_count(user, "friends_count"@)
    &&& p.statuses_count == legacy_count(user, "statuses_count"@)
    &&& p.media_count == legacy_count(user, "media_count"@)
    &&& p.favourites_count == legacy_count(user, "favourites_count"@)
    &&& opt_text(p.pinned_tweet_id) == pinned_tweet_of(user)
    &&& json_tree(p.upstream_payload) == normalized(user)
}

/// What a user summary read from a user payload holds.
pub open spec fn summary_parsed_from(s: TwitterUserSummary, user: KuaishouJsonValue) -> bool {
    &&& Some(s.id@) == string_at(user, seq!["rest_id"@])
    &&& Some(s.screen_name@) == screen_name_of(user)
    &&& s.name@ == display_name_of(user, s.screen_name@)
    &&& opt_text(s.avatar_url) == avatar_of(user)
    &&& s.verified == verified_of(user)
    &&& json_tree(s.upstream_payload) == normalized(user)
}

fn first_string(a: Option<String>, b: Option<String>) -> (r: Option<String>)
    ensures
        opt_text(r) == first_text(opt_text(a), opt_text(b)),
{
    match a {
        Some(x) => Some(x),
        None => b,
    }
}

fn count_at(v: &KuaishouJsonValue, a: &str, b: &str) -> (n: u64)
    ensures
        n == count_or_zero(value_u64(json_path(*v, seq![a@, b@]))),
{
    match u64_at_path(v, &path2(a, b)) {
        Some(n) => n,
        None => 0,
    }
}

/// Read a user profile from a user payload.
pub fn parse_user_profile(user: &KuaishouJsonValue) -> (res: Result<TwitterUserProfile, AppError>)
    ensures
        match profile_error(*user) {
            Some(m) => res matches Err(e) && e.upstream_message() == Some(m),
            None => res matches Ok(p) && profile_parsed_from(p, *user),
        },
{
    let id = match string_at_path(user, &path1("rest_id")) {
        Some(id) => id,
        None => return Err(upstream_error("twitter user response is missing `rest_id`".to_owned())),
    };
    let screen_name = match first_string(
        string_at_path(user, &path2("core", "screen_name")),
        string_at_path(user, &path2("legacy", "screen_name")),
    ) {
        Some(s) => s,
        None => return Err(
            upstream_error("twitter user response is missing `screen_name`".to_owned()),
        ),
    };
    let name = match first_string(
        string_at_path(user, &path2("core", "name")),
        string_at_path(user, &path2("legacy", "name")),
    ) {
        Some(n) => n,
        None => screen_name.clone(),
    };
    let created = first_string(
        string_at_path(user, &path2("core", "created_at")),
        string_at_path(user, &path2("legacy", "created_at")),
    );
    let created_at = match &created {
        Some(c) => twitter_datetime_to_rfc3339(Some(c.as_str())),
        None => twitter_datetime_to_rfc3339(None),
    };
    let verified = match bool_at_path(user, &path1("is_blue_verified")) {
        Some(b) => b,
        None => match bool_at_path(user, &path2("verification", "verified")) {
            Some(b) => b,
            None => false,
        },
    };
    let protected = match bool_at_path(user, &path2("privacy", "protected")) {
        Some(b) => b,
        None => false,
    };
    let pinned_tweet_id = match json_at_path(user, &path2("legacy", "pinned_tweet_ids_str")) {
        Some(KuaishouJsonValue::Array(ids)) => {
            if ids.len() > 0 {
                match &ids[0] {
                    KuaishouJsonValue::String(t) => normalize_optional_string(t.clone()),
                    _ => None,
                }
            } else {
                None
            }
        },
        _ => None,
    };
    Ok(TwitterUserProfile {
        id,
        screen_name,
        name,
        created_at,
        description: string_at_path(user, &path2("legacy", "description")),
        location: first_string(
            string_at_path(user, &path2("location", "location")),
            string_at_path(user, &path2("legacy", "location")),
        ),
        avatar_url: first_string(
            string_at_path(user, &path2("avatar", "image_url")),
            string_at_path(user, &path2("legacy", "profile_image_url_https")),
        ),
        banner_url: string_at_path(user, &path2("legacy", "profile_banner_url")),
        verified,
        protected,
        followers_count: count_at(user, "legacy", "followers_count"),
        following_count: count_at(user, "legacy", "friends_count"),
        statuses_count: count_at(user, "legacy", "statuses_count"),
        media_count: count_at(user, "legacy", "media_count"),
        favourites_count: count_at(user, "legacy", "favourites_count"),
        pinned_tweet_id,
        upstream_payload: normalize_upstream_payload(user),
    })
}

/// Read a user summary from a user payload.
pub fn parse_user_summary(user: &KuaishouJsonValue) -> (res: Result<TwitterUserSummary, AppError>)
    ensures
        match profile_error(*user) {
            Some(m) => res matches Err(e) && e.upstream_message() == Some(m),
            None => res matches Ok(s) && summary_parsed_from(s, *user),
        },
{
    let profile = parse_user_profile(user)?;
    Ok(TwitterUserSummary {
        id: profile.id,
        screen_name: profile.screen_name,
        name: profile.name,
        avatar_url: profile.avatar_url,
        verified: profile.verified,
        upstream_payload: profile.upstream_payload,
    })
}

impl View for TwitterMediaEntity {
    type V = (Seq<char>, Option<Seq<char>>, Option<Seq<char>>, Option<Seq<char>>);

    open spec fn view(&self) -> Self::V {
        (
            self.media_type@,
            opt_text(self.media_url),
            opt_text(self.preview_image_url),
            opt_text(self.expanded_url),
        )
    }
}

/// What a media entity holds: its type (`unknown` when absent), its HTTPS
/// URL (else its plain URL) as both media and preview URL, and its
/// expanded URL.
pub open spec fn media_of(item: KuaishouJsonValue) -> (
    Seq<char>,
    Option<Seq<char>>,
    Option<Seq<char>>,
    Option<Seq<char>>,
) {
    let url = first_text(
        string_at(item, seq!["media_url_https"@]),
        string_at(item, seq!["media_url"@]),
    );
    (
        match string_at(item, seq!["type"@]) {
            Some(t) => t,
            None => "unknown"@,
        },
        url,
        url,
        string_at(item, seq!["expanded_url"@]),
    )
}

/// The media items of a tweet: `legacy.extended_entities.media`, else
/// `legacy.entities.media`, else none.
pub open spec fn media_items_of(tweet: KuaishouJsonValue) -> Seq<KuaishouJsonValue> {
    match json_items(json_path(tweet, seq!["legacy"@, "extended_entities"@, "media"@])) {
        Some(xs) => xs,
        None => match json_items(json_path(tweet, seq!["legacy"@, "entities"@, "media"@])) {
            Some(xs) => xs,
            None => seq![],
        },
    }
}

/// The media entities of a tweet payload.
pub fn parse_media_entities(tweet: &KuaishouJsonValue) -> (media: Vec<TwitterMediaEntity>)
    ensures
        media@.map_values(|m: TwitterMediaEntity| m@) == media_items_of(*tweet).map_values(
            |i: KuaishouJsonValue| media_of(i),
        ),
{
    let items = match json_at_path(tweet, &path3("legacy", "extended_entities", "media")) {
        Some(KuaishouJsonValue::Array(xs)) => xs,
        _ => match json_at_path(tweet, &path3("legacy", "entities", "media")) {
            Some(KuaishouJsonValue::Array(xs)) => xs,
            _ => return Vec::new(),
        },
    };
    let mut media: Vec<TwitterMediaEntity> = Vec::new();
    for i in 0..items.len()
        invariant
            items@ == media_items_of(*tweet),
            media@.map_values(|m: TwitterMediaEntity| m@) == items@.take(i as int).map_values(
                |x: KuaishouJsonValue| media_of(x),
            ),
    {
        let item = &items[i];
        let media_type = match string_at_path(item, &path1("type")) {
            Some(t) => t,
            None => "unknown".to_owned(),
        };
        let media_url = first_string(
            string_at_path(item, &path1("media_url_https")),
            string_at_path(item, &path1("media_url")),
        );
        let preview_image_url = first_string(
            string_at_path(item, &path1("media_url_https")),
            string_at_path(item, &path1("media_url")),
        );
        let expanded_url = string_at_path(item, &path1("expanded_url"));
        let entity = TwitterMediaEntity { media_type, media_url, preview_image_url, expanded_url };
        proof {
            reveal_strlit("unknown");
        }
        assert(entity@ == media_of(items@[i as int]));
        let ghost before = media@;
        media.push(entity);
        assert(media@.map_values(|m: TwitterMediaEntity| m@) =~= before.map_values(
            |m: TwitterMediaEntity| m@,
        ).push(media_of(items@[i as int])));
        assert(items@.take(i + 1).map_values(|x: KuaishouJsonValue| media_of(x)) =~= items@.take(
            i as int,
        ).map_values(|x: KuaishouJsonValue| media_of(x)).push(media_of(items@[i as int])));
    }
    assert(items@.take(items@.len() as int) =~= items@);
    media
}

/// The author payload of a tweet.
pub open spec fn tweet_author_of(tweet: KuaishouJsonValue) -> Option<KuaishouJsonValue> {
    match json_path(tweet, seq!["core"@, "user_results"@, "result"@]) {
        Some(x) => user_result_of(x),
        None => None,
    }
}

/// Where a quoted tweet lies in a tweet payload.
pub open spec fn quoted_path() -> Seq<Seq<char>> {
    seq!["quoted_status_result"@, "result"@]
}

/// Where a retweeted tweet lies in a tweet payload.
pub open spec fn retweeted_path() -> Seq<Seq<char>> {
    seq!["legacy"@, "retweeted_status_result"@, "result"@]
}

/// The tweet embedded at a path of a tweet payload.
pub open spec fn embedded_tweet(tweet: KuaishouJsonValue, path: Seq<Seq<char>>) -> Option<
    KuaishouJsonValue,
> {
    match json_path(tweet, path) {
        Some(x) => tweet_result_of(x),
        None => None,
    }
}

/// Tweets embedded in a tweet are lower than it.
pub proof fn lemma_embedded_height(v: KuaishouJsonValue)
    ensures
        tweet_result_of(v) matches Some(t) ==> (embedded_tweet(t, quoted_path()) matches Some(q)
            ==> value_height(q) < value_height(v)) && (embedded_tweet(t, retweeted_path()) matches Some(
            r,
        ) ==> value_height(r) < value_height(v)),
{
    lemma_unwrap_height(v);
    match tweet_result_of(v) {
        Some(t) => {
            lemma_path_height(t, quoted_path());
            lemma_path_height(t, retweeted_path());
            match json_path(t, quoted_path()) {
                Some(x) => lemma_unwrap_height(x),
                None => {},
            }
            match json_path(t, retweeted_path()) {
                Some(x) => lemma_unwrap_height(x),
                None => {},
            }
        },
        None => {},
    }
}

/// Why a tweet payload cannot be read, if it cannot: it holds no tweet,
/// the tweet has no id, no author, an unreadable author, or an unreadable
/// quoted or retweeted tweet (in that order).
pub open spec fn tweet_error(v: KuaishouJsonValue) -> Option<Seq<char>>
    decreases value_height(v),
{
    proof {
        lemma_embedded_height(v);
    }
    match tweet_result_of(v) {
        None => Some("twitter tweet result is not a tweet payload"@),
        Some(t) => match string_at(t, seq!["rest_id"@]) {
            None => Some("twitter tweet response is missing `rest_id`"@),
            Some(id) => match tweet_author_of(t) {
                None => Some("twitter tweet `"@ + id + "` is missing author data"@),
                Some(a) => match profile_error(a) {
                    Some(m) => Some(m),
                    None => {
                        let quoted = match embedded_tweet(t, quoted_path()) {
                            Some(q) => tweet_error(q),
                            None => None,
                        };
                        match quoted {
                            Some(m) => Some(m),
                            None => match embedded_tweet(t, retweeted_path()) {
                                Some(r) => tweet_error(r),
                                None => None,
                            },
                        }
                    },
                },
            },
        },
    }
}

/// The text of a tweet: the note tweet's text, else the legacy full text,
/// else empty.
pub open spec fn tweet_text_of(tweet: KuaishouJsonValue) -> Seq<char> {
    match first_text(
        string_at(tweet, seq!["note_tweet"@, "note_tweet_results"@, "result"@, "text"@]),
        string_at(tweet, seq!["legacy"@, "full_text"@]),
    ) {
        Some(t) => t,
        None => seq![],
    }
}

/// The canonical URL of a tweet.
pub open spec fn tweet_url(web_base_url: Seq<char>, screen_name: Seq<char>, id: Seq<char>) -> Seq<
    char,
> {
    trim_end_char(web_base_url, '/') + "/"@ + screen_name + "/status/"@ + id
}

/// What a tweet read from a tweet holds, but for the tweets it embeds.
pub open spec fn tweet_fields_from(t: TwitterTweet, tweet: KuaishouJsonValue, web_base_url: Seq<char>) -> bool {
    &&& Some(t.id@) == string_at(tweet, seq!["rest_id"@])
    &&& tweet_author_of(tweet) matches Some(a) && summary_parsed_from(t.author, a)
    &&& t.url@ == tweet_url(web_base_url, t.author.screen_name@, t.id@)
    &&& opt_text(t.conversation_id) == string_at(tweet, seq!["legacy"@, "conversation_id_str"@])
    &&& opt_text(t.created_at) == spec_datetime_rfc3339(
        string_at(tweet, seq!["legacy"@, "created_at"@]),
    )
    &&& t.full_text@ == tweet_text_of(tweet)
    &&& opt_text(t.language) == string_at(tweet, seq!["legacy"@, "lang"@])
    &&& opt_text(t.source) == string_at(tweet, seq!["source"@])
    &&& opt_text(t.reply_to_tweet_id) == string_at(
        tweet,
        seq!["legacy"@, "in_reply_to_status_id_str"@],
    )
    &&& json_tree(t.upstream_payload) == normalized(tweet)
    &&& entities_from(t.entities, tweet)
    &&& t.media@.map_values(|m: TwitterMediaEntity| m@) == media_items_of(tweet).map_values(
        |i: KuaishouJsonValue| media_of(i),
    )
    &&& t.reply_count == legacy_count(tweet, "reply_count"@)
    &&& t.retweet_count == legacy_count(tweet, "retweet_count"@)
    &&& t.quote_count == legacy_count(tweet, "quote_count"@)
    &&& t.favorite_count == legacy_count(tweet, "favorite_count"@)
    &&& t.bookmark_count == value_u64(json_path(tweet, seq!["legacy"@, "bookmark_count"@]))
    &&& t.view_count == value_u64(json_path(tweet, seq!["views"@, "count"@]))
}

/// What a tweet read from a payload holds: the fields of the payload's
/// tweet, with its quoted and retweeted tweets read the same way.
pub open spec fn tweet_parsed_from(t: TwitterTweet, v: KuaishouJsonValue, web_base_url: Seq<char>) -> bool
    decreases value_height(v),
{
    proof {
        lemma_embedded_height(v);
    }
    match tweet_result_of(v) {
        None => false,
        Some(tweet) => {
            &&& tweet_fields_from(t, tweet, web_base_url)
            &&& match embedded_tweet(tweet, quoted_path()) {
                Some(q) => t.quoted_tweet matches Some(b) && tweet_parsed_from(*b, q, web_base_url),
                None => t.quoted_tweet is None,
            }
            &&& match embedded_tweet(tweet, retweeted_path()) {
                Some(r) => t.retweeted_tweet matches Some(b) && tweet_parsed_from(
                    *b,
                    r,
                    web_base_url,
                ),
                None => t.retweeted_tweet is None,
            }
        },
    }
}

fn assemble_tweet(
    tweet: &KuaishouJsonValue,
    id: String,
    author: TwitterUserSummary,
    quoted_tweet: Option<Box<TwitterTweet>>,
    retweeted_tweet: Option<Box<TwitterTweet>>,
    web_base_url: &str,
) -> (t: TwitterTweet)
    requires
        Some(id@) == string_at(*tweet, seq!["rest_id"@]),
        tweet_author_of(*tweet) matches Some(a) && summary_parsed_from(author, a),
    ensures
        tweet_fields_from(t, *tweet, web_base_url@),
        t.quoted_tweet == quoted_tweet,
        t.retweeted_tweet == retweeted_tweet,
{
    let full_text = match first_string(
        string_at_path(tweet, &path4("note_tweet", "note_tweet_results", "result", "text")),
        string_at_path(tweet, &path2("legacy", "full_text")),
    ) {
        Some(t) => t,
        None => String::new(),
    };
    let mut url = trim_end_matches_char(web_base_url, '/');
    url.append("/");
    url.append(author.screen_name.as_str());
    url.append("/status/");
    url.append(id.as_str());
    proof {
        reveal_strlit("/");
        reveal_strlit("/status/");
    }
    let created = string_at_path(tweet, &path2("legacy", "created_at"));
    let created_at = match &created {
        Some(c) => twitter_datetime_to_rfc3339(Some(c.as_str())),
        None => twitter_datetime_to_rfc3339(None),
    };
    TwitterTweet {
        id,
        conversation_id: string_at_path(tweet, &path2("legacy", "conversation_id_str")),
        author,
        url,
        created_at,
        full_text,
        language: string_at_path(tweet, &path2("legacy", "lang")),
        source: string_at_path(tweet, &path1("source")),
        reply_to_tweet_id: string_at_path(tweet, &path2("legacy", "in_reply_to_status_id_str")),
        quoted_tweet,
        retweeted_tweet,
        upstream_payload: normalize_upstream_payload(tweet),
        entities: parse_tweet_entities(tweet),
        media: parse_media_entities(tweet),
        reply_count: count_at(tweet, "legacy", "reply_count"),
        retweet_count: count_at(tweet, "legacy", "retweet_count"),
        quote_count: count_at(tweet, "legacy", "quote_count"),
        favorite_count: count_at(tweet, "legacy", "favorite_count"),
        bookmark_count: u64_at_path(tweet, &path2("legacy", "bookmark_count")),
        view_count: u64_at_path(tweet, &path2("views", "count")),
    }
}

/// Read a tweet from a tweet payload.
pub fn parse_tweet(value: &KuaishouJsonValue, web_base_url: &str) -> (res: Result<TwitterTweet, AppError>)
    ensures
        match tweet_error(*value) {
            Some(m) => res matches Err(e) && e.upstream_message() == Some(m),
            None => res matches Ok(t) && tweet_parsed_from(t, *value, web_base_url@),
        },
    decreases value_height(*value),
{
    proof {
        lemma_embedded_height(*value);
    }
    let tweet = match unwrap_tweet_result(value) {
        Some(t) => t,
        None => return Err(
            upstream_error("twitter tweet result is not a tweet payload".to_owned()),
        ),
    };
    let id = match string_at_path(tweet, &path1("rest_id")) {
        Some(id) => id,
        None => return Err(
            upstream_error("twitter tweet response is missing `rest_id`".to_owned()),
        ),
    };
    let author_value = match json_at_path(tweet, &path3("core", "user_results", "result")) {
        Some(x) => unwrap_user_result(x),
        None => None,
    };
    let author_value = match author_value {
        Some(a) => a,
        None => {
            let mut message = "twitter tweet `".to_owned();
            message.append(id.as_str());
            message.append("` is missing author data");
            return Err(upstream_error(message));
        },
    };
    let author = parse_user_summary(author_value)?;
    let quoted_tweet = match json_at_path(tweet, &path2("quoted_status_result", "result")) {
        Some(x) => match unwrap_tweet_result(x) {
            Some(q) => match parse_tweet(q, web_base_url) {
                Ok(t) => Some(Box::new(t)),
                Err(e) => return Err(e),
            },
            None => None,
        },
        None => None,
    };
    let retweeted_tweet = match json_at_path(
        tweet,
        &path3("legacy", "retweeted_status_result", "result"),
    ) {
        Some(x) => match unwrap_tweet_result(x) {
            Some(r) => match parse_tweet(r, web_base_url) {
                Ok(t) => Some(Box::new(t)),
                Err(e) => return Err(e),
            },
            None => None,
        },
        None => None,
    };
    Ok(assemble_tweet(tweet, id, author, quoted_tweet, retweeted_tweet, web_base_url))
}

/// The member `key` of the member `outer` of `v`.
pub open spec fn member2(v: KuaishouJsonValue, outer: Seq<char>, key: Seq<char>) -> Option<KuaishouJsonValue> {
    match crate::kuaishou::json::json_get(v, outer) {
        Some(o) => crate::kuaishou::json::json_get(o, key),
        None => None,
    }
}

/// The value is a string with more than whitespace.
pub open spec fn is_text(v: Option<KuaishouJsonValue>) -> bool {
    v matches Some(KuaishouJsonValue::String(t)) && crate::text::trimmed(t@).len() > 0
}

/// The trimmed text of a string value.
pub open spec fn trimmed_text(v: Option<KuaishouJsonValue>) -> Seq<char> {
    crate::text::trimmed(json_text(v)->0)
}

/// `field` is what the value says: its trimmed text when it is a string
/// that is not blank, nothing when it is not a string.
pub open spec fn text_from(v: Option<KuaishouJsonValue>, field: Option<Seq<char>>) -> bool {
    &&& is_text(v) ==> field == Some(trimmed_text(v))
    &&& !(v matches Some(KuaishouJsonValue::String(_))) ==> field is None
}

/// `count` is the number the value holds, zero without one.
pub open spec fn count_from(v: Option<KuaishouJsonValue>, count: u64) -> bool {
    &&& value_u64(v) matches Some(n) ==> count == n
    &&& v is None ==> count == 0
}

proof fn lemma_paths(v: KuaishouJsonValue, a: Seq<char>, b: Seq<char>)
    ensures
        json_path(v, seq![a]) == crate::kuaishou::json::json_get(v, a),
        json_path(v, seq![a, b]) == member2(v, a, b),
{
    reveal_with_fuel(json_path, 3);
    assert(seq![a][0] == a && seq![a].drop_first() =~= Seq::<Seq<char>>::empty());
    assert(seq![a, b][0] == a && seq![a, b].drop_first() =~= seq![b]);
    assert(seq![b][0] == b && seq![b].drop_first() =~= Seq::<Seq<char>>::empty());
}

proof fn lemma_text_path(v: KuaishouJsonValue, a: Seq<char>, b: Seq<char>)
    ensures
        text_from(member2(v, a, b), string_at(v, seq![a, b])),
        text_from(crate::kuaishou::json::json_get(v, a), string_at(v, seq![a])),
{
    lemma_paths(v, a, b);
}

/// Each field of a user profile comes from the payload member of its own
/// name: the id from `rest_id`; the description from
/// `legacy.description`; the banner from `legacy.profile_banner_url`; the
/// creation date from `core.created_at`, else `legacy.created_at`, in
/// RFC 3339 form; the follower, following (`friends_count`), tweet, media
/// and like counts from the `legacy` counts so named, zero without them.
pub proof fn lemma_profile_fields(p: TwitterUserProfile, user: KuaishouJsonValue)
    requires
        profile_parsed_from(p, user),
    ensures
        is_text(crate::kuaishou::json::json_get(user, "rest_id"@)) ==> p.id@ == trimmed_text(
            crate::kuaishou::json::json_get(user, "rest_id"@),
        ),
        text_from(member2(user, "legacy"@, "description"@), opt_text(p.description)),
        text_from(member2(user, "legacy"@, "profile_banner_url"@), opt_text(p.banner_url)),
        is_text(member2(user, "core"@, "created_at"@)) ==> opt_text(p.created_at)
            == spec_datetime_rfc3339(Some(trimmed_text(member2(user, "core"@, "created_at"@)))),
        member2(user, "core"@, "created_at"@) is None && is_text(
            member2(user, "legacy"@, "created_at"@),
        ) ==> opt_text(p.created_at) == spec_datetime_rfc3339(
            Some(trimmed_text(member2(user, "legacy"@, "created_at"@))),
        ),
        count_from(member2(user, "legacy"@, "followers_count"@), p.followers_count),
        count_from(member2(user, "legacy"@, "friends_count"@), p.following_count),
        count_from(member2(user, "legacy"@, "statuses_count"@), p.statuses_count),
        count_from(member2(user, "legacy"@, "media_count"@), p.media_count),
        count_from(member2(user, "legacy"@, "favourites_count"@), p.favourites_count),
{
    lemma_text_path(user, "rest_id"@, "rest_id"@);
    lemma_text_path(user, "legacy"@, "description"@);
    lemma_text_path(user, "legacy"@, "profile_banner_url"@);
    lemma_text_path(user, "core"@, "created_at"@);
    lemma_text_path(user, "legacy"@, "created_at"@);
    lemma_paths(user, "legacy"@, "followers_count"@);
    lemma_paths(user, "legacy"@, "friends_count"@);
    lemma_paths(user, "legacy"@, "statuses_count"@);
    lemma_paths(user, "legacy"@, "media_count"@);
    lemma_paths(user, "legacy"@, "favourites_count"@);
}

/// Each field of a tweet comes from the payload member of its own name:
/// the id from `rest_id`; the conversation from
/// `legacy.conversation_id_str`; the date from `legacy.created_at` in
/// RFC 3339 form; the language from `legacy.lang`; the source from
/// `source`; the tweet replied to from `legacy.in_reply_to_status_id_str`;
/// the reply, retweet, quote and like counts from the `legacy` counts so
/// named (zero without them); bookmarks from `legacy.bookmark_count` and
/// views from `views.count`.
pub proof fn lemma_tweet_fields(t: TwitterTweet, tweet: KuaishouJsonValue, web_base_url: Seq<char>)
    requires
        tweet_fields_from(t, tweet, web_base_url),
    ensures
        is_text(crate::kuaishou::json::json_get(tweet, "rest_id"@)) ==> t.id@ == trimmed_text(
            crate::kuaishou::json::json_get(tweet, "rest_id"@),
        ),
        text_from(member2(tweet, "legacy"@, "conversation_id_str"@), opt_text(t.conversation_id)),
        is_text(member2(tweet, "legacy"@, "created_at"@)) ==> opt_text(t.created_at)
            == spec_datetime_rfc3339(Some(trimmed_text(member2(tweet, "legacy"@, "created_at"@)))),
        !(member2(tweet, "legacy"@, "created_at"@) matches Some(KuaishouJsonValue::String(_)))
            ==> t.created_at is None,
        text_from(member2(tweet, "legacy"@, "lang"@), opt_text(t.language)),
        text_from(crate::kuaishou::json::json_get(tweet, "source"@), opt_text(t.source)),
        text_from(
            member2(tweet, "legacy"@, "in_reply_to_status_id_str"@),
            opt_text(t.reply_to_tweet_id),
        ),
        count_from(member2(tweet, "legacy"@, "reply_count"@), t.reply_count),
        count_from(member2(tweet, "legacy"@, "retweet_count"@), t.retweet_count),
        count_from(member2(tweet, "legacy"@, "quote_count"@), t.quote_count),
        count_from(member2(tweet, "legacy"@, "favorite_count"@), t.favorite_count),
        t.bookmark_count == value_u64(member2(tweet, "legacy"@, "bookmark_count"@)),
        t.view_count == value_u64(member2(tweet, "views"@, "count"@)),
{
    lemma_text_path(tweet, "rest_id"@, "rest_id"@);
    lemma_text_path(tweet, "legacy"@, "conversation_id_str"@);
    lemma_text_path(tweet, "legacy"@, "created_at"@);
    lemma_text_path(tweet, "legacy"@, "lang"@);
    lemma_text_path(tweet, "source"@, "source"@);
    lemma_text_path(tweet, "legacy"@, "in_reply_to_status_id_str"@);
    lemma_paths(tweet, "legacy"@, "reply_count"@);
    lemma_paths(tweet, "legacy"@, "retweet_count"@);
    lemma_paths(tweet, "legacy"@, "quote_count"@);
    lemma_paths(tweet, "legacy"@, "favorite_count"@);
    lemma_paths(tweet, "legacy"@, "bookmark_count"@);
    lemma_paths(tweet, "views"@, "count"@);
}

} // verus!
