use amagi::error::AppError;
use amagi::kuaishou::json::{KuaishouJsonObject, KuaishouJsonValue};
use amagi::twitter::api::TwitterTweetSearchMode;
use amagi::twitter::pages::{
    finish_media_timeline, media_timeline_step, parse_profile_by_id_response,
    parse_profile_response, parse_tweet_detail_response, search_referer, start_media_timeline,
    user_search_referer, MediaTimelineAction,
};
use amagi::twitter::parse::{parse_tweet, parse_user_profile};
use amagi::twitter::types::{TwitterTweet, TwitterTweetPage, TwitterUserProfile};

fn model(value: &serde_json::Value) -> KuaishouJsonValue {
    match value {
        serde_json::Value::Null => KuaishouJsonValue::Null,
        serde_json::Value::Bool(b) => KuaishouJsonValue::Bool(*b),
        serde_json::Value::Number(n) => KuaishouJsonValue::Number(n.to_string()),
        serde_json::Value::String(s) => KuaishouJsonValue::String(s.clone()),
        serde_json::Value::Array(items) => KuaishouJsonValue::Array(items.iter().map(model).collect()),
        serde_json::Value::Object(map) => KuaishouJsonValue::Object(KuaishouJsonObject {
            entries: map.iter().map(|(k, v)| (k.clone(), model(v))).collect(),
        }),
    }
}

fn json(text: &str) -> KuaishouJsonValue {
    model(&serde_json::from_str(text).expect("test JSON"))
}

fn upstream(message: &str) -> AppError {
    AppError::UpstreamResponse { status: None, message: message.to_string() }
}

const BASE: &str = "https://x.com/";

fn user_json(id: &str, screen_name: &str) -> String {
    format!(r#"{{"__typename":"User","rest_id":"{id}","core":{{"screen_name":"{screen_name}"}}}}"#)
}

fn tweet_json(id: &str) -> String {
    format!(
        r#"{{"__typename":"Tweet","rest_id":"{id}","core":{{"user_results":{{"result":{}}}}},"legacy":{{"full_text":"t{id}"}}}}"#,
        user_json("42", "jack")
    )
}

fn tweet(id: &str) -> TwitterTweet {
    parse_tweet(&json(&tweet_json(id)), BASE).unwrap()
}

fn profile() -> TwitterUserProfile {
    parse_user_profile(&json(&user_json("42", "jack"))).unwrap()
}

fn page(ids: &[&str], previous: Option<&str>, next: Option<&str>, marker: u32) -> TwitterTweetPage {
    TwitterTweetPage {
        tweets: ids.iter().map(|id| tweet(id)).collect(),
        previous_cursor: previous.map(str::to_string),
        next_cursor: next.map(str::to_string),
        upstream_payload: KuaishouJsonValue::Number(marker.to_string()),
    }
}

fn ids(tweets: &[(String, TwitterTweet)]) -> Vec<&str> {
    tweets.iter().map(|(id, _)| id.as_str()).collect()
}

#[test]
fn search_referer_pages() {
    assert_eq!(
        search_referer(BASE, "rust", TwitterTweetSearchMode::Latest).unwrap(),
        "https://x.com/search?q=rust&src=typed_query&f=live"
    );
    assert_eq!(
        search_referer("https://x.com", "rust lang", TwitterTweetSearchMode::Top).unwrap(),
        "https://x.com/search?q=rust+lang&src=typed_query"
    );
    assert_eq!(
        search_referer("not a url", "rust", TwitterTweetSearchMode::Top),
        Err(AppError::InvalidRequestConfig(
            "invalid twitter search referer base url: relative URL without a base".to_string()
        ))
    );
}

#[test]
fn user_search_referer_pages() {
    assert_eq!(
        user_search_referer(BASE, "jack dorsey").unwrap(),
        "https://x.com/search?q=jack+dorsey&src=typed_query"
    );
    assert_eq!(
        user_search_referer("::", "jack"),
        Err(AppError::InvalidRequestConfig(
            "invalid twitter user search referer base url: relative URL without a base".to_string()
        ))
    );
}

#[test]
fn profile_responses() {
    let value = json(&format!(r#"{{"data":{{"user":{{"result":{}}}}}}}"#, user_json("42", "jack")));
    let found = parse_profile_response(&value, "jack").unwrap();
    assert_eq!(found.id, "42");
    assert_eq!(found.screen_name, "jack");
    assert_eq!(parse_profile_by_id_response(&value, "42").unwrap(), found);
    let wrapped = json(&format!(
        r#"{{"data":{{"user":{{"result":{{"result":{}}}}}}}}}"#,
        user_json("42", "jack")
    ));
    assert_eq!(parse_profile_response(&wrapped, "jack").unwrap(), found);
    assert_eq!(
        parse_profile_response(&json(r#"{"data":{}}"#), "jack"),
        Err(upstream("twitter user `jack` was not found"))
    );
    assert_eq!(
        parse_profile_by_id_response(&json(r#"{"data":{"user":{"result":{"rest_id":"1"}}}}"#), "1"),
        Err(upstream("twitter user id `1` was not found"))
    );
}

#[test]
fn tweet_detail_responses() {
    let value = json(&format!(r#"{{"data":{{"tweetResult":{{"result":{}}}}}}}"#, tweet_json("7")));
    let found = parse_tweet_detail_response(&value, "7", BASE).unwrap();
    assert_eq!(found.id, "7");
    assert_eq!(found.full_text, "t7");
    assert_eq!(found.url, "https://x.com/jack/status/7");
    assert_eq!(
        parse_tweet_detail_response(&json(r#"{"data":{"tweetResult":{}}}"#), "7", BASE),
        Err(upstream("twitter tweet `7` was not found"))
    );
}

#[test]
fn media_timeline_stops_at_limit() {
    let mut state = start_media_timeline(None, 3);
    let action = media_timeline_step(&mut state, page(&["1", "2"], Some("top-1"), Some("c1"), 1));
    assert!(matches!(action, MediaTimelineAction::FetchPage));
    assert_eq!(state.request_cursor.as_deref(), Some("c1"));
    assert_eq!(ids(&state.tweets), vec!["1", "2"]);
    let action = media_timeline_step(&mut state, page(&["2", "3", "4"], Some("top-2"), Some("c2"), 2));
    let next = match action {
        MediaTimelineAction::Finish(next) => next,
        MediaTimelineAction::FetchPage => panic!("the limit is reached"),
    };
    assert_eq!(next.as_deref(), Some("c2"));
    assert_eq!(ids(&state.tweets), vec!["1", "2", "3"]);
    assert_eq!(state.seen, vec!["1", "2", "3"]);
    let timeline = finish_media_timeline(profile(), state, next);
    let taken: Vec<&str> = timeline.tweets.iter().map(|t| t.id.as_str()).collect();
    assert_eq!(taken, vec!["1", "2", "3"]);
    assert_eq!(timeline.previous_cursor.as_deref(), Some("top-1"));
    assert_eq!(timeline.next_cursor.as_deref(), Some("c2"));
    assert_eq!(
        timeline.upstream_payload,
        KuaishouJsonValue::Array(vec![
            KuaishouJsonValue::Number("1".to_string()),
            KuaishouJsonValue::Number("2".to_string()),
        ])
    );
}

#[test]
fn media_timeline_stops_without_next_cursor() {
    let mut state = start_media_timeline(Some("c0"), 10);
    assert_eq!(state.request_cursor.as_deref(), Some("c0"));
    let action = media_timeline_step(&mut state, page(&["1"], None, None, 1));
    assert!(matches!(action, MediaTimelineAction::Finish(None)));
    let timeline = finish_media_timeline(profile(), state, None);
    assert_eq!(timeline.tweets.len(), 1);
    assert_eq!(timeline.previous_cursor, None);
    assert_eq!(timeline.upstream_payload, KuaishouJsonValue::Number("1".to_string()));
}

#[test]
fn media_timeline_stops_on_repeated_cursor() {
    let mut state = start_media_timeline(Some("c1"), 10);
    let action = media_timeline_step(&mut state, page(&["1", "1"], None, Some("c1"), 1));
    match action {
        MediaTimelineAction::Finish(next) => assert_eq!(next.as_deref(), Some("c1")),
        MediaTimelineAction::FetchPage => panic!("the cursor repeats"),
    }
    assert_eq!(ids(&state.tweets), vec!["1"]);
}

#[test]
fn media_timeline_keeps_first_previous_cursor_given() {
    let mut state = start_media_timeline(None, 10);
    let action = media_timeline_step(&mut state, page(&["1"], None, Some("c1"), 1));
    assert!(matches!(action, MediaTimelineAction::FetchPage));
    assert_eq!(state.previous_cursor, None);
    media_timeline_step(&mut state, page(&["2"], Some("p2"), Some("c2"), 2));
    assert_eq!(state.previous_cursor.as_deref(), Some("p2"));
    media_timeline_step(&mut state, page(&["3"], Some("p3"), Some("c3"), 3));
    assert_eq!(state.previous_cursor.as_deref(), Some("p2"));
    assert_eq!(state.request_cursor.as_deref(), Some("c3"));
}

#[test]
fn media_timeline_without_pages() {
    let state = start_media_timeline(None, 0);
    let timeline = finish_media_timeline(profile(), state, None);
    assert!(timeline.tweets.is_empty());
    assert_eq!(timeline.previous_cursor, None);
    assert_eq!(timeline.next_cursor, None);
    assert_eq!(timeline.upstream_payload, KuaishouJsonValue::Null);
}
