use amagi::client::RequestProfile;
use amagi::error::AppError;
use amagi::twitter::base64::{decode_standard_base64, encode_base64};
use amagi::twitter::fetcher::{
    fresh_transaction_state, settle_transaction_state, CachedTransactionState, TwitterFetcher,
    CLIENT_TRANSACTION_CACHE_TTL_SECS,
};
use amagi::twitter::transaction::{
    build_asset_headers, build_document_headers, hex_digit, parse_frame_rows,
    relative_time_seconds, select_animation_frame, strip_unwanted_headers,
    ClientTransactionState,
};
use amagi::twitter::transport::{
    cookie_has_name, looks_like_iso_datetime, normalize_compact_offset,
    normalize_optional_string, normalize_rfc3339_offset, twitter_datetime_to_rfc3339,
    user_referer,
};

fn pairs(items: &[(&str, &str)]) -> Vec<(String, String)> {
    items.iter().map(|(n, v)| (n.to_string(), v.to_string())).collect()
}

fn upstream(message: &str) -> AppError {
    AppError::UpstreamResponse { status: None, message: message.to_string() }
}

#[test]
fn hex_digits() {
    assert_eq!(hex_digit(0), '0');
    assert_eq!(hex_digit(9), '9');
    assert_eq!(hex_digit(10), 'A');
    assert_eq!(hex_digit(15), 'F');
}

#[test]
fn base64_encodes_with_padding() {
    assert_eq!(encode_base64(b"hello"), "aGVsbG8=");
    assert_eq!(encode_base64(b"hi"), "aGk=");
    assert_eq!(encode_base64(b"abc"), "YWJj");
    assert_eq!(encode_base64(b""), "");
}

#[test]
fn base64_decodes_and_skips_whitespace() {
    assert_eq!(decode_standard_base64("aGVs bG8="), Ok(b"hello".to_vec()));
    assert_eq!(decode_standard_base64("aGk="), Ok(b"hi".to_vec()));
    assert_eq!(decode_standard_base64(""), Ok(Vec::new()));
}

#[test]
fn base64_round_trip() {
    let bytes: Vec<u8> = (0u8..=255).collect();
    assert_eq!(decode_standard_base64(&encode_base64(&bytes)), Ok(bytes));
}

#[test]
fn base64_errors() {
    assert_eq!(
        decode_standard_base64("ab$c"),
        Err(AppError::InvalidRequestConfig("invalid twitter base64 input: ab$c".to_string()))
    );
    assert_eq!(
        decode_standard_base64("abc"),
        Err(AppError::InvalidRequestConfig(
            "invalid twitter base64 input length: abc".to_string()
        ))
    );
    assert_eq!(
        decode_standard_base64("a=bc"),
        Err(AppError::InvalidRequestConfig("invalid twitter base64 padding: a=bc".to_string()))
    );
}

#[test]
fn frame_rows_from_a_path() {
    assert_eq!(
        parse_frame_rows("M 10,20 C 1 2 3 300 C 4.5 6"),
        vec![vec![1, 2, 3, 255], vec![4, 5, 6]]
    );
    assert_eq!(parse_frame_rows("short"), vec![Vec::<u8>::new()]);
    assert_eq!(parse_frame_rows("M 10,20 C 99999 7"), vec![vec![7]]);
}

#[test]
fn unwanted_headers_are_dropped() {
    let mut headers = pairs(&[
        ("Authorization", "Bearer x"),
        ("Cookie", "a=1"),
        ("X-Csrf-Token", "t"),
        ("user-agent", "ua"),
    ]);
    strip_unwanted_headers(&mut headers);
    assert_eq!(headers, pairs(&[("Cookie", "a=1"), ("user-agent", "ua")]));
}

#[test]
fn document_headers() {
    let headers = build_document_headers(&pairs(&[("Cookie", "a=1"), ("origin", "o")]));
    assert_eq!(
        headers,
        pairs(&[
            ("Accept", "text/html,application/xhtml+xml,application/xml;q=0.9,image/avif,image/webp,image/apng,*/*;q=0.8,application/signed-exchange;v=b3;q=0.7"),
            ("Cache-Control", "no-cache"),
            ("Cookie", "a=1"),
            ("Pragma", "no-cache"),
            ("Sec-Fetch-Dest", "document"),
            ("Sec-Fetch-Mode", "navigate"),
            ("Sec-Fetch-Site", "none"),
            ("Sec-Fetch-User", "?1"),
            ("Upgrade-Insecure-Requests", "1"),
        ])
    );
}

#[test]
fn asset_headers() {
    let headers = build_asset_headers(&pairs(&[("Accept", "x"), ("content-type", "j")]), "https://x.com//");
    assert_eq!(
        headers,
        pairs(&[
            ("Accept", "*/*"),
            ("Referer", "https://x.com/"),
            ("Sec-Fetch-Dest", "script"),
            ("Sec-Fetch-Mode", "no-cors"),
            ("Sec-Fetch-Site", "cross-site"),
        ])
    );
}

fn frames() -> Vec<String> {
    vec![
        "M 0 0 0 C 1 2 3 4 5 6 7 8 9 10 11".to_string(),
        "M 0 0 0 C 9 9 9 C 20 21 22 23 24 25 26 27 28 29 30".to_string(),
        "M 0 0 0 C 0".to_string(),
        "M 0 0 0 C 0".to_string(),
    ]
}

#[test]
fn animation_frame_selection() {
    // frame index = key[5] % 4 = 1, row = key[0] % 16 = 1,
    // time = (key[1] % 16) * (key[2] % 16) = 2 * 3.
    let key = vec![17, 2, 3, 0, 0, 5];
    assert_eq!(
        select_animation_frame(&key, 0, &[1, 2], &frames()),
        Ok((vec![20, 21, 22, 23, 24, 25, 26, 27, 28, 29, 30], 6))
    );
    assert_eq!(select_animation_frame(&key, 3, &[], &frames()), Ok((vec![9, 9, 9], 1)));
}

#[test]
fn animation_frame_errors() {
    let key = vec![17, 2, 3, 0, 0, 5];
    assert_eq!(
        select_animation_frame(&key, 0, &[], &frames()[..3]),
        Err(upstream("twitter homepage did not expose enough animation frames, got 3"))
    );
    assert_eq!(
        select_animation_frame(&key[..5], 0, &[], &frames()),
        Err(upstream("twitter site verification key was shorter than expected"))
    );
    assert_eq!(
        select_animation_frame(&key, 6, &[], &frames()),
        Err(upstream("twitter row index key `6` was out of bounds"))
    );
    assert_eq!(
        select_animation_frame(&key, 0, &[1, 9], &frames()),
        Err(upstream("twitter key byte index `9` was out of bounds"))
    );
    assert_eq!(
        select_animation_frame(&[0, 0, 0, 0, 0, 2], 2, &[], &frames()),
        Ok((vec![0], 1))
    );
    assert_eq!(
        select_animation_frame(&[5, 0, 0, 0, 0, 2], 0, &[], &frames()),
        Err(upstream("twitter animation frame row `5` was missing"))
    );
}

#[test]
fn transaction_hash_text_and_id() {
    let state = ClientTransactionState { key_bytes: vec![1, 2, 3], animation_key: "anim".to_string() };
    assert_eq!(
        state.transaction_hash_input("GET", "/i/api/x", 42),
        "GET!/i/api/x!42obfiowerehiringanim"
    );
    let digest: Vec<u8> = (0..32).collect();
    assert_eq!(
        state.generate_transaction_id_with(0x0102_0304, 0x10, &digest),
        "EBESExQTEhEQERITFBUWFxgZGhscHR4fEw"
    );
}

#[test]
fn relative_time() {
    assert_eq!(relative_time_seconds(1_682_924_400), 0);
    assert_eq!(relative_time_seconds(1_682_924_460), 60);
    assert_eq!(relative_time_seconds(5), 0);
}

#[test]
fn optional_strings_are_trimmed() {
    assert_eq!(normalize_optional_string("  a b  ".to_string()), Some("a b".to_string()));
    assert_eq!(normalize_optional_string(" \t ".to_string()), None);
}

#[test]
fn iso_datetime_shape() {
    assert!(looks_like_iso_datetime("2024-01-02T03:04:05Z"));
    assert!(looks_like_iso_datetime("2024-01-02"));
    assert!(!looks_like_iso_datetime("2024/01/02"));
    assert!(!looks_like_iso_datetime("2024-01-0"));
}

#[test]
fn compact_offsets() {
    assert_eq!(normalize_compact_offset("+0800"), Some("+08:00".to_string()));
    assert_eq!(normalize_compact_offset("-0130"), Some("-01:30".to_string()));
    assert_eq!(normalize_compact_offset("0800x"), None);
    assert_eq!(normalize_compact_offset("+08a0"), None);
    assert_eq!(normalize_compact_offset("+080"), None);
}

#[test]
fn rfc3339_offsets() {
    assert_eq!(normalize_rfc3339_offset("2024-01-02T03:04:05Z"), "2024-01-02T03:04:05Z");
    assert_eq!(
        normalize_rfc3339_offset("2024-01-02T03:04:05+0800"),
        "2024-01-02T03:04:05+08:00"
    );
    assert_eq!(
        normalize_rfc3339_offset("2024-01-02T03:04:05+08:00"),
        "2024-01-02T03:04:05+08:00"
    );
    assert_eq!(normalize_rfc3339_offset("abc"), "abc");
}

#[test]
fn twitter_datetimes() {
    assert_eq!(
        twitter_datetime_to_rfc3339(Some("Wed Oct 10 20:19:24 +0000 2018")),
        Some("2018-10-10T20:19:24+00:00".to_string())
    );
    assert_eq!(
        twitter_datetime_to_rfc3339(Some("Mon Jan 1 00:00:00 -0500 2024")),
        Some("2024-01-01T00:00:00-05:00".to_string())
    );
    assert_eq!(
        twitter_datetime_to_rfc3339(Some(" 2024-01-02T03:04:05+0800 ")),
        Some("2024-01-02T03:04:05+08:00".to_string())
    );
    assert_eq!(
        twitter_datetime_to_rfc3339(Some("Wed Foo 10 20:19:24 +0000 2018")),
        Some("Wed Foo 10 20:19:24 +0000 2018".to_string())
    );
    assert_eq!(
        twitter_datetime_to_rfc3339(Some("Wed Oct 10 20:19:24 UTC 2018")),
        Some("Wed Oct 10 20:19:24 UTC 2018".to_string())
    );
    assert_eq!(twitter_datetime_to_rfc3339(Some("a b c")), Some("a b c".to_string()));
    assert_eq!(twitter_datetime_to_rfc3339(Some("   ")), None);
    assert_eq!(twitter_datetime_to_rfc3339(None), None);
}

#[test]
fn cookie_names() {
    assert!(cookie_has_name("a=1; auth_token=x; ct0=y", "auth_token"));
    assert!(cookie_has_name(" auth_token =v", "auth_token"));
    assert!(!cookie_has_name("auth_token", "auth_token"));
    assert!(!cookie_has_name("a=auth_token", "auth_token"));
}

#[test]
fn referer_for_a_user() {
    assert_eq!(user_referer("https://x.com//", "jack"), "https://x.com/jack");
    assert_eq!(user_referer("https://x.com", "jack"), "https://x.com/jack");
}

fn profile(headers: &[(&str, &str)]) -> RequestProfile {
    RequestProfile { headers: pairs(headers), timeout_ms: 1000, max_retries: 1 }
}

#[test]
fn fetcher_cookie_header() {
    let fetcher = TwitterFetcher::new(profile(&[("Cookie", "a=1")]));
    assert_eq!(fetcher.cookie_header(), Some("a=1"));
    let fetcher = TwitterFetcher::new(profile(&[("cookie", "b=2")]));
    assert_eq!(fetcher.cookie_header(), Some("b=2"));
    let fetcher = TwitterFetcher::new(profile(&[("Cookie", "  ")]));
    assert_eq!(fetcher.cookie_header(), None);
    let fetcher = TwitterFetcher::new(profile(&[]));
    assert_eq!(fetcher.cookie_header(), None);
    assert_eq!(fetcher.request_profile().timeout_ms, 1000);
}

#[test]
fn base64_without_padding_is_rejected() {
    for bytes in [&b"h"[..], &b"hi"[..], &b"hello"[..]] {
        let padded = encode_base64(bytes);
        assert!(padded.contains('='));
        let bare = padded.replace('=', "");
        assert_eq!(
            decode_standard_base64(&bare),
            Err(AppError::InvalidRequestConfig(format!(
                "invalid twitter base64 input length: {bare}"
            )))
        );
    }
    assert!(!encode_base64(b"abcdef").contains('='));
}

fn state(key: u8, animation: &str) -> ClientTransactionState {
    ClientTransactionState { key_bytes: vec![key, key], animation_key: animation.to_string() }
}

#[test]
fn cached_state_is_reused_until_it_expires() {
    let cache = Some(CachedTransactionState { state: state(1, "a"), expires_at_unix_secs: 100 });
    let fresh = fresh_transaction_state(&cache, 99).unwrap();
    assert_eq!(fresh.key_bytes, vec![1, 1]);
    assert_eq!(fresh.animation_key, "a");
    assert!(fresh_transaction_state(&cache, 100).is_none());
    assert!(fresh_transaction_state(&None, 0).is_none());
}

#[test]
fn built_state_is_cached() {
    let mut cache = Some(CachedTransactionState { state: state(1, "old"), expires_at_unix_secs: 5 });
    let out = settle_transaction_state(&mut cache, 10, Ok(state(2, "new"))).unwrap();
    assert_eq!(out.animation_key, "new");
    let kept = cache.unwrap();
    assert_eq!(kept.state.key_bytes, vec![2, 2]);
    assert_eq!(kept.expires_at_unix_secs, 10 + CLIENT_TRANSACTION_CACHE_TTL_SECS);
}

#[test]
fn failed_build_falls_back_to_the_stale_state() {
    let mut cache = Some(CachedTransactionState { state: state(1, "old"), expires_at_unix_secs: 5 });
    let error = AppError::InvalidRequestConfig("down".to_string());
    let out = settle_transaction_state(&mut cache, u64::MAX - 1, Err(error.clone())).unwrap();
    assert_eq!(out.animation_key, "old");
    assert_eq!(cache.as_ref().unwrap().expires_at_unix_secs, u64::MAX);
    let mut empty = None;
    assert_eq!(settle_transaction_state(&mut empty, 10, Err(error.clone())).unwrap_err(), error);
    assert!(empty.is_none());
}
