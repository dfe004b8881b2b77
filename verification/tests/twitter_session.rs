use amagi::client::RequestProfile;
use amagi::error::AppError;
use amagi::kuaishou::json::{KuaishouJsonObject, KuaishouJsonValue};
use amagi::twitter::fetcher::TwitterFetcher;
use amagi::twitter::session::{guest_token_of, transaction_path};

fn pair(name: &str, value: &str) -> (String, String) {
    (name.to_string(), value.to_string())
}

fn fetcher(headers: Vec<(String, String)>) -> TwitterFetcher {
    TwitterFetcher::new(RequestProfile { headers, timeout_ms: 10_000, max_retries: 1 })
}

fn get<'a>(headers: &'a [(String, String)], name: &str) -> Option<&'a str> {
    headers.iter().find(|(n, _)| n == name).map(|(_, v)| v.as_str())
}

fn ascending(headers: &[(String, String)]) -> bool {
    headers.windows(2).all(|w| w[0].0 < w[1].0)
}

#[test]
fn guest_activation_drops_the_session() {
    let f = fetcher(vec![
        pair("Cookie", "auth_token=a; ct0=b"),
        pair("User-Agent", "ua"),
        pair("x-csrf-token", "b"),
    ]);
    let headers = f.guest_activation_headers("TOKEN");
    assert!(ascending(&headers));
    assert_eq!(get(&headers, "Cookie"), None);
    assert_eq!(get(&headers, "x-csrf-token"), None);
    assert_eq!(get(&headers, "User-Agent"), Some("ua"));
    assert_eq!(get(&headers, "Authorization"), Some("Bearer TOKEN"));
    assert_eq!(get(&headers, "Referer"), Some("https://x.com/"));
    assert_eq!(get(&headers, "Origin"), Some("https://x.com"));
    assert_eq!(headers.len(), 4);
}

#[test]
fn client_language_falls_back() {
    assert_eq!(fetcher(Vec::new()).language("en"), "en");
    assert_eq!(fetcher(vec![pair("x-twitter-client-language", "ja")]).language("en"), "ja");
    assert_eq!(fetcher(vec![pair("X-Twitter-Client-Language", "fr")]).language("en"), "fr");
    assert_eq!(fetcher(vec![pair("x-twitter-client-language", "  ")]).language("en"), "en");
}

#[test]
fn graphql_headers_with_a_session() {
    let f = fetcher(vec![pair("Cookie", "auth_token=a; ct0=b")]);
    let headers = f.graphql_headers("TOKEN", "en", None, Some("https://x.com/jack"), Some("b"), "tid");
    assert!(ascending(&headers));
    assert_eq!(get(&headers, "Authorization"), Some("Bearer TOKEN"));
    assert_eq!(get(&headers, "x-twitter-active-user"), Some("yes"));
    assert_eq!(get(&headers, "x-twitter-client-language"), Some("en"));
    assert_eq!(get(&headers, "Origin"), Some("https://x.com"));
    assert_eq!(get(&headers, "Referer"), Some("https://x.com/jack"));
    assert_eq!(get(&headers, "Cookie"), Some("auth_token=a; ct0=b"));
    assert_eq!(get(&headers, "x-csrf-token"), Some("b"));
    assert_eq!(get(&headers, "x-twitter-auth-type"), Some("OAuth2Session"));
    assert_eq!(get(&headers, "x-client-transaction-id"), Some("tid"));
    assert_eq!(get(&headers, "x-guest-token"), None);
}

#[test]
fn graphql_headers_as_a_guest() {
    let f = fetcher(Vec::new());
    let headers = f.graphql_headers("TOKEN", "en", Some("g1"), None, None, "tid");
    assert_eq!(get(&headers, "x-guest-token"), Some("g1"));
    assert_eq!(get(&headers, "Referer"), Some("https://x.com/"));
    assert_eq!(get(&headers, "Cookie"), None);
    assert_eq!(get(&headers, "x-csrf-token"), None);
    let f = fetcher(vec![pair("Referer", "https://x.com/home")]);
    let headers = f.graphql_headers("TOKEN", "en", Some("g1"), None, None, "tid");
    assert_eq!(get(&headers, "Referer"), Some("https://x.com/home"));
}

#[test]
fn authenticated_sessions() {
    let signed = fetcher(vec![pair("Cookie", "auth_token=a; ct0=b")]);
    assert!(signed.has_authenticated_session(true));
    assert!(!signed.has_authenticated_session(false));
    assert!(!fetcher(vec![pair("Cookie", "ct0=b")]).has_authenticated_session(true));
    assert!(!fetcher(Vec::new()).has_authenticated_session(true));
    assert_eq!(signed.ensure_authenticated_session("search-tweets", true), Ok(()));
    assert_eq!(
        fetcher(Vec::new()).ensure_authenticated_session("search-tweets", false),
        Err(AppError::InvalidRequestConfig(
            "twitter capability `search-tweets` requires `AMAGI_TWITTER_COOKIE` with at least `auth_token` and `ct0`"
                .to_string()
        ))
    );
}

#[test]
fn guest_tokens() {
    let answer = KuaishouJsonValue::Object(KuaishouJsonObject {
        entries: vec![("guest_token".to_string(), KuaishouJsonValue::String("123".to_string()))],
    });
    assert_eq!(guest_token_of(&answer), Ok("123".to_string()));
    assert_eq!(
        guest_token_of(&KuaishouJsonValue::Null),
        Err(AppError::UpstreamResponse {
            status: None,
            message: "twitter guest activation did not return `guest_token`".to_string(),
        })
    );
}

#[test]
fn transaction_paths() {
    assert_eq!(
        transaction_path("https://x.com/i/api/graphql/abc/UserByScreenName?variables=%7B%7D"),
        Ok("/i/api/graphql/abc/UserByScreenName".to_string())
    );
    assert_eq!(
        transaction_path("nope"),
        Err(AppError::InvalidRequestConfig(
            "invalid twitter graphql url `nope`: relative URL without a base".to_string()
        ))
    );
}
