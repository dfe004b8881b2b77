use amagi::error::AppError;
use amagi::kuaishou::json::{KuaishouJsonObject, KuaishouJsonValue};
use amagi::twitter::api::TwitterTweetSearchMode;
use amagi::twitter::parse::{parse_media_entities, parse_tweet, parse_user_profile, parse_user_summary};
use amagi::twitter::timeline::{
    parse_timeline_entries, parse_tweet_page_response, parse_tweet_search_response,
    parse_user_likes_page_response, parse_user_timeline_response,
};
use amagi::twitter::types::TwitterUserProfile;
use amagi::twitter::users::{find_timeline_user, parse_user_list_page_response, parse_user_page_response};
use amagi::twitter::values::{
    array_at_path, bool_at_path, collapse_upstream_pages, ensure_graphql_success,
    first_non_ignorable_graphql_error_message, normalize_upstream_payload, string_at_path,
    u64_at_path, unwrap_tweet_result, unwrap_user_result,
};

fn model(value: &serde_json::Value) -> KuaishouJsonValue {
    match value {
        serde_json::Value::Null => KuaishouJsonValue::Null,
        serde_json::Value::Bool(b) => KuaishouJsonValue::Bool(*b),
        serde_json::Value::Number(n) => KuaishouJsonValue::Number(n.to_string()),
        serde_json::Value::String(s) => KuaishouJsonValue::String(s.clone()),
        serde_json::Value::Array(items) => KuaishouJsonValue::Array(items.iter().map(model).collect()),
        serde_json::Value::Object(map) => KuaishouJsonValue::Object(KuaishouJsonObject {
            entries: map.iter().map(|(k, v)| (k.clone(), model(v))).collect(),
        }),
    }
}

fn json(text: &str) -> KuaishouJsonValue {
    model(&serde_json::from_str(text).expect("test JSON"))
}

fn upstream(message: &str) -> AppError {
    AppError::UpstreamResponse { status: None, message: message.to_string() }
}

const BASE: &str = "https://x.com/";

fn user_json(id: &str, screen_name: &str) -> String {
    format!(r#"{{"__typename":"User","rest_id":"{id}","core":{{"screen_name":"{screen_name}"}}}}"#)
}

fn tweet_json(id: &str) -> String {
    format!(
        r#"{{"__typename":"Tweet","rest_id":"{id}","core":{{"user_results":{{"result":{}}}}},"legacy":{{"full_text":"t{id}"}}}}"#,
        user_json("42", "jack")
    )
}

#[test]
fn wrappers_are_removed_from_payloads() {
    let value = json(r#"{"a":[{"result":{"x":1}}],"b":2}"#);
    assert_eq!(normalize_upstream_payload(&value), json(r#"{"a":[{"x":1}],"b":2}"#));
    let value = json(
        r#"{"data":{"user":{"result":{"__typename":"User","rest_id":"9","legacy":{"screen_name":"a"}}}}}"#,
    );
    assert_eq!(
        normalize_upstream_payload(&value),
        json(r#"{"data":{"user":{"__typename":"User","legacy":{"screen_name":"a"},"rest_id":"9"}}}"#)
    );
    let value = json(
        r#"{"__typename":"TweetWithVisibilityResults","tweet":{"rest_id":"5","legacy":{}},"limitedActionResults":{}}"#,
    );
    assert_eq!(normalize_upstream_payload(&value), json(r#"{"legacy":{},"rest_id":"5"}"#));
    assert_eq!(normalize_upstream_payload(&json("7")), json("7"));
}

#[test]
fn results_are_unwrapped() {
    let value = json(r#"{"result":{"result":{"__typename":"Tweet","id":1}}}"#);
    assert_eq!(unwrap_tweet_result(&value), Some(&json(r#"{"__typename":"Tweet","id":1}"#)));
    let value = json(r#"{"__typename":"TweetWithVisibilityResults","tweet":{"id":2}}"#);
    assert_eq!(unwrap_tweet_result(&value), Some(&json(r#"{"id":2}"#)));
    assert_eq!(unwrap_tweet_result(&json(r#"{"id":3}"#)), None);
    let value = json(r#"{"result":{"__typename":"User","rest_id":"1"}}"#);
    assert_eq!(unwrap_user_result(&value), Some(&json(r#"{"__typename":"User","rest_id":"1"}"#)));
    assert_eq!(unwrap_user_result(&json(r#"{"rest_id":"1"}"#)), None);
}

#[test]
fn values_at_paths() {
    let value = json(
        r#"{"a":{"s":"  text ","blank":" ","n":12,"f":1.5,"neg":-1,"ns":"+5","bad":"x","b":true,"l":[1,2]}}"#,
    );
    assert_eq!(string_at_path(&value, &["a", "s"]), Some("text".to_string()));
    assert_eq!(string_at_path(&value, &["a", "blank"]), None);
    assert_eq!(string_at_path(&value, &["a", "n"]), None);
    assert_eq!(u64_at_path(&value, &["a", "n"]), Some(12));
    assert_eq!(u64_at_path(&value, &["a", "f"]), None);
    assert_eq!(u64_at_path(&value, &["a", "neg"]), None);
    assert_eq!(u64_at_path(&value, &["a", "ns"]), Some(5));
    assert_eq!(u64_at_path(&value, &["a", "bad"]), None);
    assert_eq!(bool_at_path(&value, &["a", "b"]), Some(true));
    assert_eq!(bool_at_path(&value, &["a", "n"]), None);
    assert_eq!(array_at_path(&value, &["a", "l"]).map(|v| v.len()), Some(2));
    assert_eq!(array_at_path(&value, &["a", "missing"]), None);
}

#[test]
fn graphql_errors_and_missing_data() {
    let value = json(
        r#"{"errors":[{"message":"LoadShed x","path":["a","quick_promote_eligibility"]}],"data":{}}"#,
    );
    assert_eq!(ensure_graphql_success("u", &value), Ok(()));
    assert_eq!(first_non_ignorable_graphql_error_message(&value), None);
    let value = json(r#"{"errors":[{"message":"LoadShed","path":["q"]},{"message":"boom"}],"data":{}}"#);
    assert_eq!(
        ensure_graphql_success("u", &value),
        Err(upstream("twitter request to u failed: LoadShed"))
    );
    let value = json(r#"{"errors":[{"code":1},{"message":"boom"}]}"#);
    assert_eq!(ensure_graphql_success("u", &value), Err(upstream("twitter request to u failed: boom")));
    assert_eq!(
        ensure_graphql_success("u", &json(r#"{"foo":1}"#)),
        Err(upstream("twitter request to u did not return `data`"))
    );
}

#[test]
fn pages_collapse() {
    assert_eq!(collapse_upstream_pages(vec![]), KuaishouJsonValue::Null);
    assert_eq!(collapse_upstream_pages(vec![json("1")]), json("1"));
    assert_eq!(collapse_upstream_pages(vec![json("1"), json("2")]), json("[1,2]"));
}

#[test]
fn user_profile_fields() {
    let user = json(
        r#"{"__typename":"User","rest_id":" 42 ","core":{"screen_name":"jack","name":"Jack","created_at":"Tue Mar 21 20:50:14 +0000 2006"},
            "legacy":{"description":"hi","followers_count":10,"friends_count":"5","statuses_count":3,"media_count":1.5,
                      "favourites_count":-1,"pinned_tweet_ids_str":["  77 "],"profile_banner_url":"https://b"},
            "avatar":{"image_url":"https://a"},"is_blue_verified":true,"privacy":{"protected":false},
            "location":{"location":"SF"}}"#,
    );
    let profile = parse_user_profile(&user).unwrap();
    assert_eq!(profile.id, "42");
    assert_eq!(profile.screen_name, "jack");
    assert_eq!(profile.name, "Jack");
    assert_eq!(profile.created_at.as_deref(), Some("2006-03-21T20:50:14+00:00"));
    assert_eq!(profile.description.as_deref(), Some("hi"));
    assert_eq!(profile.location.as_deref(), Some("SF"));
    assert_eq!(profile.avatar_url.as_deref(), Some("https://a"));
    assert_eq!(profile.banner_url.as_deref(), Some("https://b"));
    assert!(profile.verified);
    assert!(!profile.protected);
    assert_eq!(profile.followers_count, 10);
    assert_eq!(profile.following_count, 5);
    assert_eq!(profile.statuses_count, 3);
    assert_eq!(profile.media_count, 0);
    assert_eq!(profile.favourites_count, 0);
    assert_eq!(profile.pinned_tweet_id.as_deref(), Some("77"));
    assert_eq!(profile.upstream_payload, user);
}

#[test]
fn user_profile_fallbacks_and_errors() {
    let user = json(
        r#"{"rest_id":"1","legacy":{"screen_name":"old","location":"L","profile_image_url_https":"https://p"},"verification":{"verified":true}}"#,
    );
    let summary = parse_user_summary(&user).unwrap();
    assert_eq!(summary.screen_name, "old");
    assert_eq!(summary.name, "old");
    assert_eq!(summary.avatar_url.as_deref(), Some("https://p"));
    assert!(summary.verified);
    assert_eq!(
        parse_user_profile(&json(r#"{"core":{"screen_name":"x"}}"#)),
        Err(upstream("twitter user response is missing `rest_id`"))
    );
    assert_eq!(
        parse_user_summary(&json(r#"{"rest_id":"1"}"#)),
        Err(upstream("twitter user response is missing `screen_name`"))
    );
}

#[test]
fn tweet_fields() {
    let text = format!(
        r#"{{"__typename":"Tweet","rest_id":"100","core":{{"user_results":{{"result":{{"__typename":"User","rest_id":"42","legacy":{{"screen_name":"jack","name":"Jack"}}}}}}}},
            "legacy":{{"full_text":"hello","created_at":"Wed Oct 10 20:19:24 +0000 2018","lang":"en","conversation_id_str":"100",
                      "reply_count":2,"retweet_count":3,"quote_count":4,"favorite_count":5,"bookmark_count":6,
                      "entities":{{"hashtags":[{{"text":"rust","indices":[0,5]}}],
                                  "media":[{{"type":"photo","media_url_https":"https://m/1.jpg","expanded_url":"https://x.com/e"}}]}}}},
            "views":{{"count":"1000"}},"source":"<a>web</a>",
            "quoted_status_result":{{"result":{}}}}}"#,
        tweet_json("99")
    );
    let value = json(&text);
    let tweet = parse_tweet(&value, BASE).unwrap();
    assert_eq!(tweet.id, "100");
    assert_eq!(tweet.author.id, "42");
    assert_eq!(tweet.author.screen_name, "jack");
    assert_eq!(tweet.author.name, "Jack");
    assert_eq!(tweet.url, "https://x.com/jack/status/100");
    assert_eq!(tweet.created_at.as_deref(), Some("2018-10-10T20:19:24+00:00"));
    assert_eq!(tweet.full_text, "hello");
    assert_eq!(tweet.language.as_deref(), Some("en"));
    assert_eq!(tweet.source.as_deref(), Some("<a>web</a>"));
    assert_eq!(tweet.conversation_id.as_deref(), Some("100"));
    assert_eq!(tweet.reply_to_tweet_id, None);
    assert_eq!(
        (tweet.reply_count, tweet.retweet_count, tweet.quote_count, tweet.favorite_count),
        (2, 3, 4, 5)
    );
    assert_eq!(tweet.bookmark_count, Some(6));
    assert_eq!(tweet.view_count, Some(1000));
    assert_eq!(tweet.media.len(), 1);
    assert_eq!(tweet.media[0].media_type, "photo");
    assert_eq!(tweet.media[0].media_url.as_deref(), Some("https://m/1.jpg"));
    assert_eq!(tweet.media[0].preview_image_url.as_deref(), Some("https://m/1.jpg"));
    assert_eq!(tweet.media[0].expanded_url.as_deref(), Some("https://x.com/e"));
    assert_eq!(tweet.entities.hashtags.len(), 1);
    assert_eq!(tweet.entities.hashtags[0].text, "rust");
    assert_eq!(tweet.entities.hashtags[0].indices, Some([0, 5]));
    let quoted = tweet.quoted_tweet.as_ref().unwrap();
    assert_eq!(quoted.id, "99");
    assert_eq!(quoted.full_text, "t99");
    assert_eq!(quoted.url, "https://x.com/jack/status/99");
    assert!(tweet.retweeted_tweet.is_none());
    // The author's `result` wrapper is gone from the kept payload.
    assert_eq!(
        string_at_path(&tweet.upstream_payload, &["core", "user_results", "legacy", "screen_name"]),
        Some("jack".to_string())
    );
    assert_eq!(
        string_at_path(&tweet.upstream_payload, &["quoted_status_result", "rest_id"]),
        Some("99".to_string())
    );
}

#[test]
fn tweet_note_text_and_media_fallback() {
    let value = json(
        r#"{"legacy":{"full_text":"short","extended_entities":{"media":[{"media_url":"http://m"}]}},"rest_id":"7",
            "note_tweet":{"note_tweet_results":{"result":{"text":"long text"}}},
            "core":{"user_results":{"result":{"__typename":"User","rest_id":"1","core":{"screen_name":"a"}}}}}"#,
    );
    let tweet = parse_tweet(&value, "https://x.com").unwrap();
    assert_eq!(tweet.full_text, "long text");
    assert_eq!(tweet.url, "https://x.com/a/status/7");
    let media = parse_media_entities(&value);
    assert_eq!(media.len(), 1);
    assert_eq!(media[0].media_type, "unknown");
    assert_eq!(media[0].media_url.as_deref(), Some("http://m"));
    assert_eq!(media[0].expanded_url, None);
}

#[test]
fn tweet_errors() {
    assert_eq!(
        parse_tweet(&json(r#"{"foo":1}"#), BASE),
        Err(upstream("twitter tweet result is not a tweet payload"))
    );
    assert_eq!(
        parse_tweet(&json(r#"{"__typename":"Tweet"}"#), BASE),
        Err(upstream("twitter tweet response is missing `rest_id`"))
    );
    assert_eq!(
        parse_tweet(&json(r#"{"__typename":"Tweet","rest_id":"5"}"#), BASE),
        Err(upstream("twitter tweet `5` is missing author data"))
    );
    assert_eq!(
        parse_tweet(
            &json(r#"{"__typename":"Tweet","rest_id":"5","core":{"user_results":{"result":{"__typename":"User","rest_id":"1"}}}}"#),
            BASE
        ),
        Err(upstream("twitter user response is missing `screen_name`"))
    );
    let text = format!(
        r#"{{"__typename":"Tweet","rest_id":"5","core":{{"user_results":{{"result":{}}}}},"legacy":{{"retweeted_status_result":{{"result":{{"__typename":"Tweet"}}}}}}}}"#,
        user_json("1", "a")
    );
    assert_eq!(
        parse_tweet(&json(&text), BASE),
        Err(upstream("twitter tweet response is missing `rest_id`"))
    );
}

fn timeline_instructions() -> String {
    format!(
        r#"[
        {{"type":"TimelinePinEntry","entry":{{"content":{{"itemContent":{{"tweet_results":{{"result":{t1}}}}}}}}}}},
        {{"type":"TimelineAddEntries","entries":[
            {{"content":{{"itemContent":{{"tweet_results":{{"result":{t2}}}}}}}}},
            {{"content":{{"itemContent":{{"tweet_results":{{"result":{t1}}}}}}}}},
            {{"content":{{"items":[{{"item":{{"itemContent":{{"tweet_results":{{"result":{t3}}}}}}}}}]}}}},
            {{"content":{{"cursorType":"Top","value":"top-1"}}}},
            {{"content":{{"cursorType":"Bottom","value":"  "}}}},
            {{"content":{{"cursorType":"Bottom","value":"bottom-2"}}}}
        ]}},
        {{"type":"TimelineAddToModule","moduleItems":[{{"itemContent":{{"tweet_results":{{"result":{t4}}}}}}}]}},
        {{"type":"TimelineClearCache"}}
        ]"#,
        t1 = tweet_json("1"),
        t2 = tweet_json("2"),
        t3 = tweet_json("3"),
        t4 = tweet_json("4"),
    )
}

fn ids(tweets: &[amagi::twitter::types::TwitterTweet]) -> Vec<&str> {
    tweets.iter().map(|t| t.id.as_str()).collect()
}

#[test]
fn timeline_entries_in_order_without_repeats() {
    let instructions = match json(&timeline_instructions()) {
        KuaishouJsonValue::Array(items) => items,
        _ => unreachable!(),
    };
    let (tweets, previous, next) = parse_timeline_entries(&instructions, BASE, 10).unwrap();
    assert_eq!(ids(&tweets), vec!["1", "2", "3", "4"]);
    assert_eq!(previous.as_deref(), Some("top-1"));
    assert_eq!(next.as_deref(), Some("bottom-2"));
    let (tweets, _, _) = parse_timeline_entries(&instructions, BASE, 2).unwrap();
    assert_eq!(ids(&tweets), vec!["1", "2"]);
}

fn profile(screen_name: &str) -> TwitterUserProfile {
    parse_user_profile(&json(&user_json("42", screen_name))).unwrap()
}

#[test]
fn user_timeline_page() {
    let value = json(&format!(
        r#"{{"data":{{"user":{{"result":{{"timeline":{{"timeline":{{"instructions":{}}}}}}}}}}}}}"#,
        timeline_instructions()
    ));
    let page = parse_user_timeline_response(&value, profile("jack"), BASE, 3).unwrap();
    assert_eq!(ids(&page.tweets), vec!["1", "2", "3"]);
    assert_eq!(page.user.screen_name, "jack");
    assert_eq!(page.previous_cursor.as_deref(), Some("top-1"));
    assert_eq!(page.next_cursor.as_deref(), Some("bottom-2"));
    assert_eq!(page.upstream_payload, normalize_upstream_payload(&value));
    assert_eq!(
        parse_user_timeline_response(&json(r#"{"data":{}}"#), profile("jack"), BASE, 3),
        Err(upstream("twitter timeline for `jack` is missing instructions"))
    );
}

#[test]
fn tweet_page_errors() {
    assert_eq!(
        parse_tweet_page_response(&json(r#"{"data":{}}"#), &["data", "nope"], "ctx", BASE, 10),
        Err(upstream("ctx is missing instructions"))
    );
    let value = json(
        r#"{"i":[{"type":"TimelineAddEntries","entries":[{"content":{"itemContent":{"tweet_results":{"result":{"__typename":"Tweet"}}}}}]}]}"#,
    );
    assert_eq!(
        parse_tweet_page_response(&value, &["i"], "ctx", BASE, 10),
        Err(upstream("twitter timeline tweet is missing `rest_id`"))
    );
}

#[test]
fn search_page() {
    let value = json(&format!(
        r#"{{"data":{{"search_by_raw_query":{{"search_timeline":{{"timeline":{{"instructions":{}}}}}}}}}}}"#,
        timeline_instructions()
    ));
    let page = parse_tweet_search_response(&value, "rust", TwitterTweetSearchMode::Top, BASE, 20).unwrap();
    assert_eq!(page.query, "rust");
    assert_eq!(page.search_type, TwitterTweetSearchMode::Top);
    assert_eq!(ids(&page.tweets), vec!["1", "2", "3", "4"]);
}

#[test]
fn likes_page() {
    let value = json(&format!(
        r#"{{"data":{{"user":{{"result":{{"timeline_v2":{{"timeline":{{"instructions":{}}}}}}}}}}}}}"#,
        timeline_instructions()
    ));
    let page = parse_user_likes_page_response(&value, "jack", BASE, 1).unwrap();
    assert_eq!(ids(&page.tweets), vec!["1"]);
    let value = json(&format!(
        r#"{{"data":{{"user":{{"result":{{"timeline":{{"instructions":{}}}}}}}}}}}"#,
        timeline_instructions()
    ));
    assert_eq!(parse_user_likes_page_response(&value, "jack", BASE, 9).unwrap().tweets.len(), 4);
    assert_eq!(
        parse_user_likes_page_response(&json(r#"{"data":{"user":{"result":{"timeline":{}}}}}"#), "jack", BASE, 9),
        Err(upstream(
            "twitter likes timeline for `jack` is not exposed by the current X web API response"
        ))
    );
    assert_eq!(
        parse_user_likes_page_response(&json(r#"{"data":{}}"#), "jack", BASE, 9),
        Err(upstream("twitter likes timeline for `jack` is missing instructions"))
    );
}

#[test]
fn timeline_users_are_found() {
    let value = json(
        r#"{"a":[{"b":1},{"itemType":"TimelineUser","user_results":{"result":{"result":{"__typename":"User","rest_id":"3"}}}}]}"#,
    );
    assert_eq!(find_timeline_user(&value), Some(&json(r#"{"__typename":"User","rest_id":"3"}"#)));
    let value = json(
        r#"{"__typename":5,"itemType":"TimelineUser","user_results":{"result":{"__typename":"User","rest_id":"3"}}}"#,
    );
    assert_eq!(find_timeline_user(&value), None);
    assert_eq!(find_timeline_user(&json(r#"{"__typename":"TimelineUser"}"#)), None);
}

fn user_entries() -> String {
    format!(
        r#"[{{"type":"TimelineAddEntries","entries":[
            {{"content":{{"itemContent":{{"itemType":"TimelineUser","user_results":{{"result":{u1}}}}}}}}},
            {{"content":{{"itemContent":{{"__typename":"TimelineUser","user_results":{{"result":{u2}}}}}}}}},
            {{"content":{{"itemContent":{{"itemType":"TimelineUser","user_results":{{"result":{u1}}}}}}}}},
            {{"content":{{"cursorType":"Bottom","value":"b"}}}}
        ]}}]"#,
        u1 = user_json("1", "jack"),
        u2 = user_json("2", "jill"),
    )
}

#[test]
fn user_page() {
    let value = json(&format!(
        r#"{{"data":{{"favoriters_timeline":{{"timeline":{{"instructions":{}}}}}}}}}"#,
        user_entries()
    ));
    let path = ["data", "favoriters_timeline", "timeline", "instructions"];
    let page = parse_user_page_response(&value, &path, "ctx", 20).unwrap();
    let names: Vec<&str> = page.users.iter().map(|u| u.screen_name.as_str()).collect();
    assert_eq!(names, vec!["jack", "jill"]);
    assert_eq!(page.previous_cursor, None);
    assert_eq!(page.next_cursor.as_deref(), Some("b"));
    let page = parse_user_page_response(&value, &path, "ctx", 1).unwrap();
    assert_eq!(page.users.len(), 1);
    assert_eq!(
        parse_user_page_response(&value, &["data"], "ctx", 1),
        Err(upstream("ctx is missing instructions"))
    );
    let bad = json(
        r#"{"i":[{"type":"TimelinePinEntry","entry":{"itemType":"TimelineUser","user_results":{"result":{"__typename":"User","rest_id":"1"}}}}]}"#,
    );
    assert_eq!(
        parse_user_page_response(&bad, &["i"], "ctx", 1),
        Err(upstream("twitter user response is missing `screen_name`"))
    );
}

#[test]
fn user_list_page() {
    let value = json(&format!(
        r#"{{"data":{{"user":{{"result":{{"timeline":{{"timeline":{{"instructions":{}}}}}}}}}}}}}"#,
        user_entries()
    ));
    let page = parse_user_list_page_response(&value, profile("owner"), 20).unwrap();
    assert_eq!(page.user.screen_name, "owner");
    assert_eq!(page.users.len(), 2);
    assert_eq!(
        parse_user_list_page_response(&json("{}"), profile("owner"), 20),
        Err(upstream("twitter user page for `owner` is missing instructions"))
    );
}

