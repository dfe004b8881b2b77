use amagi::client::RequestProfile;
use amagi::error::AppError;
use amagi::kuaishou::fetcher::KuaishouFetcher;
use amagi::kuaishou::json::{KuaishouJsonObject, KuaishouJsonValue};
use amagi::kuaishou::request::KuaishouLiveApiMethod;
use amagi::kuaishou::transport::check_live_api_result;

fn pair(name: &str, value: &str) -> (String, String) {
    (name.to_string(), value.to_string())
}

fn fetcher(headers: Vec<(String, String)>) -> KuaishouFetcher {
    KuaishouFetcher::new(RequestProfile { headers, timeout_ms: 10_000, max_retries: 1 })
}

fn get<'a>(headers: &'a [(String, String)], name: &str) -> Option<&'a str> {
    headers.iter().find(|(n, _)| n == name).map(|(_, v)| v.as_str())
}

fn ascending(headers: &[(String, String)]) -> bool {
    headers.windows(2).all(|w| w[0].0 < w[1].0)
}

fn object(entries: Vec<(&str, KuaishouJsonValue)>) -> KuaishouJsonValue {
    KuaishouJsonValue::Object(KuaishouJsonObject {
        entries: entries.into_iter().map(|(k, v)| (k.to_string(), v)).collect(),
    })
}

#[test]
fn live_api_headers_for_a_get() {
    let f = fetcher(vec![pair("Cookie", "did=web_1"), pair("Referer", "https://example.com/")]);
    let headers = f.live_api_headers(KuaishouLiveApiMethod::Get, "profile/3x", &Vec::new(), "");
    assert!(ascending(&headers));
    assert_eq!(headers.len(), 15);
    assert_eq!(get(&headers, "Cookie"), Some("did=web_1"));
    assert_eq!(get(&headers, "Referer"), Some("https://live.kuaishou.com/profile/3x"));
    assert_eq!(get(&headers, "Accept"), Some("application/json, text/plain, */*"));
    assert_eq!(get(&headers, "Sec-Fetch-Site"), Some("same-origin"));
    assert_eq!(get(&headers, "Content-Type"), None);
    assert_eq!(get(&headers, "kww"), None);
}

#[test]
fn live_api_headers_for_a_signed_post() {
    let f = fetcher(Vec::new());
    let signed = vec![pair("Accept", "*/*"), pair("kww", "signed")];
    let headers = f.live_api_headers(KuaishouLiveApiMethod::Post, "u/1", &signed, "device");
    assert!(ascending(&headers));
    assert_eq!(get(&headers, "Content-Type"), Some("application/json"));
    assert_eq!(get(&headers, "Accept"), Some("*/*"));
    assert_eq!(get(&headers, "kww"), Some("signed"));
    let headers = f.live_api_headers(KuaishouLiveApiMethod::Get, "u/1", &Vec::new(), "device");
    assert_eq!(get(&headers, "kww"), Some("device"));
    let f = fetcher(vec![pair("kww", "mine")]);
    let headers = f.live_api_headers(KuaishouLiveApiMethod::Get, "u/1", &Vec::new(), "device");
    assert_eq!(get(&headers, "kww"), Some("mine"));
}

#[test]
fn live_api_result_two() {
    let two = object(vec![("result", KuaishouJsonValue::Number("2".to_string()))]);
    assert_eq!(
        check_live_api_result("https://live.kuaishou.com/live_api/x", &two, false),
        Err(AppError::UpstreamResponse {
            status: None,
            message: "request to https://live.kuaishou.com/live_api/x returned result=2".to_string(),
        })
    );
    assert_eq!(check_live_api_result("u", &two, true), Ok(()));
    let text = object(vec![("result", KuaishouJsonValue::String("2".to_string()))]);
    assert_eq!(check_live_api_result("u", &text, false), Ok(()));
    let one = object(vec![("result", KuaishouJsonValue::Number("1".to_string()))]);
    assert_eq!(check_live_api_result("u", &one, false), Ok(()));
    assert_eq!(check_live_api_result("u", &KuaishouJsonValue::Null, false), Ok(()));
}

#[test]
fn fetcher_builds_on_the_live_site() {
    let fetcher = fetcher(Vec::new());
    assert_eq!(fetcher.live_base_url(), "https://live.kuaishou.com");
}
