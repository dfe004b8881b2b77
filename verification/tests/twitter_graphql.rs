use amagi::error::AppError;
use amagi::kuaishou::json::{KuaishouJsonObject, KuaishouJsonValue};
use amagi::twitter::api::{create_twitter_api_urls, TwitterApiUrls};
use amagi::twitter::graphql::{
    compact_graphql_value, current_user_profile_features, current_user_timeline_features,
    graphql_value_text, strip_null_fields,
};

fn model(value: &serde_json::Value) -> KuaishouJsonValue {
    match value {
        serde_json::Value::Null => KuaishouJsonValue::Null,
        serde_json::Value::Bool(b) => KuaishouJsonValue::Bool(*b),
        serde_json::Value::Number(n) => KuaishouJsonValue::Number(n.to_string()),
        serde_json::Value::String(s) => KuaishouJsonValue::String(s.clone()),
        serde_json::Value::Array(items) => KuaishouJsonValue::Array(items.iter().map(model).collect()),
        serde_json::Value::Object(map) => KuaishouJsonValue::Object(KuaishouJsonObject {
            entries: map.iter().map(|(k, v)| (k.clone(), model(v))).collect(),
        }),
    }
}

fn value(text: &str) -> serde_json::Value {
    serde_json::from_str(text).expect("test JSON")
}

/// The path and the decoded query pairs of a URL.
fn split(url: &str) -> (String, Vec<(String, String)>) {
    let parsed = reqwest::Url::parse(url).expect("URL");
    let pairs = parsed.query_pairs().map(|(k, v)| (k.into_owned(), v.into_owned())).collect();
    (parsed.path().to_string(), pairs)
}

/// The JSON text that `serde_json` writes for a value given as text.
fn canonical(text: &str) -> String {
    value(text).to_string()
}

#[test]
fn serializer_matches_serde_json() {
    for text in [
        r#"{"a":1,"b":[true,false,null],"c":"q\"uote\\ \n\u0001 é","d":{}}"#,
        r#"[]"#,
        r#""x""#,
        r#"-1.5"#,
    ] {
        assert_eq!(graphql_value_text(&model(&value(text))), canonical(text));
    }
}

#[test]
fn nulls_are_stripped() {
    let mut v = model(&value(r#"{"a":null,"b":{"c":null,"d":1},"e":[null,{"f":null}]}"#));
    strip_null_fields(&mut v);
    assert_eq!(graphql_value_text(&v), canonical(r#"{"b":{"d":1},"e":[null,{}]}"#));
    let v = compact_graphql_value(model(&value(r#"{"x":null}"#)));
    assert_eq!(graphql_value_text(&v), "{}");
}

#[test]
fn feature_sets_are_sorted() {
    let text = graphql_value_text(&current_user_profile_features());
    assert_eq!(text, value(&text).to_string());
    assert_eq!(value(&text)["hidden_profile_subscriptions_enabled"], value("true"));
    let text = graphql_value_text(&current_user_timeline_features());
    assert_eq!(text, value(&text).to_string());
    assert_eq!(value(&text).as_object().unwrap().len(), 36);
}

#[test]
fn user_profile_url() {
    let urls = create_twitter_api_urls();
    let url = urls.user_profile("jack").unwrap();
    let (path, pairs) = split(&url);
    assert_eq!(path, "/i/api/graphql/IGgvgiOx4QZndDHuD3x9TQ/UserByScreenName");
    let names: Vec<&str> = pairs.iter().map(|(k, _)| k.as_str()).collect();
    assert_eq!(names, vec!["variables", "features", "fieldToggles"]);
    assert_eq!(pairs[0].1, canonical(r#"{"screen_name":"jack","withGrokTranslatedBio":false}"#));
    assert_eq!(pairs[2].1, canonical(r#"{"withPayments":false,"withAuxiliaryUserLabels":true}"#));
    assert_eq!(value(&pairs[1].1).as_object().unwrap().len(), 13);
    assert!(url.starts_with("https://x.com/i/api/graphql/IGgvgiOx4QZndDHuD3x9TQ/UserByScreenName?variables=%7B%22screen_name%22%3A%22jack%22"));
}

#[test]
fn timeline_urls_drop_a_missing_cursor() {
    let urls = TwitterApiUrls::new();
    let (path, pairs) = split(&urls.user_timeline("12", None, None).unwrap());
    assert_eq!(path, "/i/api/graphql/FOlovQsiHGDls3c0Q_HaSQ/UserTweets");
    assert_eq!(
        pairs[0].1,
        canonical(
            r#"{"userId":"12","count":20,"includePromotedContent":true,"withQuickPromoteEligibilityTweetFields":true,"withVoice":true}"#
        )
    );
    assert_eq!(pairs[2].1, canonical(r#"{"withArticlePlainText":false}"#));
    let (_, pairs) = split(&urls.user_timeline("12", Some(5), Some("c d&")).unwrap());
    assert_eq!(value(&pairs[0].1)["cursor"], value("\"c d&\""));
    assert_eq!(value(&pairs[0].1)["count"], value("5"));
}

#[test]
fn media_count_is_at_least_two() {
    let urls = TwitterApiUrls::new();
    let (path, pairs) = split(&urls.user_media("1", Some(1), None).unwrap());
    assert_eq!(path, "/i/api/graphql/SjiAp7wyuCUBkKAJJObU8w/UserMedia");
    assert_eq!(value(&pairs[0].1)["count"], value("2"));
    let (_, pairs) = split(&urls.user_media("1", None, None).unwrap());
    assert_eq!(value(&pairs[0].1)["count"], value("20"));
}

#[test]
fn other_user_urls() {
    let urls = TwitterApiUrls::new();
    let cases = [
        (urls.user_profile_by_id("1").unwrap(), "VQfQ9wwYdk6j_u2O4vt64Q/UserByRestId", 2),
        (urls.user_replies("1", None, None).unwrap(), "EJTxTKSH-byy7X46AhtKeA/UserTweetsAndReplies", 3),
        (urls.user_followers("1", None, None).unwrap(), "-FpGYzBsUxUOecYYfso0yA/Followers", 2),
        (urls.user_following("1", None, None).unwrap(), "UCFedrkjMz7PeEAWCWhqFw/Following", 2),
        (urls.user_likes("1", None, None).unwrap(), "jTVU5QdKqziEc4GsLNvhMQ/Likes", 3),
        (urls.user_bookmarks(None, None).unwrap(), "-LGfdImKeQz0xS_jjUwzlA/Bookmarks", 2),
        (urls.user_followed(None, None).unwrap(), "_qO7FJzShSKYWi9gtboE6A/HomeLatestTimeline", 2),
        (urls.user_recommended(None, None).unwrap(), "V7xdnRnvW6a8vIsMr9xK7A/HomeTimeline", 2),
    ];
    for (url, tail, n) in cases {
        let (path, pairs) = split(&url);
        assert_eq!(path, format!("/i/api/graphql/{tail}"));
        assert_eq!(pairs.len(), n);
        assert_eq!(pairs[0].1, value(&pairs[0].1).to_string());
    }
    let (_, pairs) = split(&urls.user_followed(None, None).unwrap());
    assert_eq!(
        pairs[0].1,
        canonical(r#"{"count":35,"includePromotedContent":false,"latestControlAvailable":true,"withCommunity":false}"#)
    );
    let (_, pairs) = split(&urls.user_recommended(Some(3), Some("x")).unwrap());
    assert_eq!(
        pairs[0].1,
        canonical(
            r#"{"count":3,"cursor":"x","includePromotedContent":false,"latestControlAvailable":true,"withCommunity":false,"seenTweetIds":[]}"#
        )
    );
}

#[test]
fn search_and_tweet_urls() {
    let urls = TwitterApiUrls::new();
    let (path, pairs) = split(&urls.search_tweets("rust \"lang\"", "Latest", None, None).unwrap());
    assert_eq!(path, "/i/api/graphql/GcXk9vN_d1jUfHNqLacXQA/SearchTimeline");
    assert_eq!(
        pairs[0].1,
        canonical(
            r#"{"rawQuery":"rust \"lang\"","count":20,"querySource":"typed_query","product":"Latest","withGrokTranslatedBio":false}"#
        )
    );
    let (path, pairs) = split(&urls.search_users("ann", Some(7), None).unwrap());
    assert_eq!(path, "/i/api/graphql/M1jEez78PEfVfbQLvlWMvQ/SearchTimeline");
    assert_eq!(value(&pairs[0].1)["product"], value("\"People\""));
    let (path, pairs) = split(&urls.tweet_detail("99").unwrap());
    assert_eq!(path, "/i/api/graphql/aFvUsJm2c-oDkJV75blV6g/TweetResultByRestId");
    assert_eq!(value(&pairs[0].1)["tweetId"], value("\"99\""));
    assert_eq!(value(&pairs[0].1)["referrer"], value("\"home\""));
    assert_eq!(value(&pairs[1].1).as_object().unwrap().len(), 30);
    let (path, pairs) = split(&urls.tweet_replies("99", Some("cur"), "Recency").unwrap());
    assert_eq!(path, "/i/api/graphql/97JF30KziU00483E_8elBA/TweetDetail");
    assert_eq!(value(&pairs[0].1)["rankingMode"], value("\"Recency\""));
    assert_eq!(value(&pairs[0].1)["cursor"], value("\"cur\""));
    assert_eq!(
        pairs[2].1,
        canonical(
            r#"{"withArticleRichContentState":true,"withArticlePlainText":false,"withGrokAnalyze":false,"withDisallowedReplyControls":false}"#
        )
    );
    let (path, _) = split(&urls.tweet_likers("99", None, None).unwrap());
    assert_eq!(path, "/i/api/graphql/b3OrdeHDQfb9zRMC0fV3bw/Favoriters");
    let (path, _) = split(&urls.tweet_retweeters("99", None, None).unwrap());
    assert_eq!(path, "/i/api/graphql/wfglZEC0MRgBdxMa_1a5YQ/Retweeters");
    let (path, pairs) = split(&urls.space_detail("1ab").unwrap());
    assert_eq!(path, "/i/api/graphql/rR7CQrr8kxb6fatlUaB61Q/AudioSpaceById");
    assert_eq!(
        pairs[0].1,
        canonical(r#"{"id":"1ab","isMetatagsQuery":false,"withReplays":true,"withListeners":false}"#)
    );
    assert_eq!(value(&pairs[1].1).as_object().unwrap().len(), 37);
}

#[test]
fn invalid_base_url_is_a_config_error() {
    let urls = TwitterApiUrls::with_base_urls("not a url".to_string(), "x".to_string());
    assert_eq!(
        urls.user_profile("jack"),
        Err(AppError::InvalidRequestConfig(
            "invalid twitter url: relative URL without a base".to_string()
        ))
    );
}

#[test]
fn string_escapes_follow_the_escape_table() {
    let text = "q\"b\\s\u{8}\t\n\u{c}\r\u{1f}\u{7f}é/";
    let out = graphql_value_text(&KuaishouJsonValue::String(text.to_string()));
    assert_eq!(out, "\"q\\\"b\\\\s\\b\\t\\n\\f\\r\\u001f\u{7f}é/\"");
}
