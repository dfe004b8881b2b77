use amagi::error::AppError;
use amagi::kuaishou::api::{create_kuaishou_api_urls, KuaishouApiUrls};
use amagi::kuaishou::json::{KuaishouJsonObject, KuaishouJsonValue};
use amagi::kuaishou::payload::{
    build_kuaishou_hxfalcon_payload, build_kuaishou_hxfalcon_sign_input,
    resolve_kuaishou_hxfalcon_sign_path, KuaishouHxfalconPayload,
};
use amagi::kuaishou::request::{
    category_classify, create_live_api_request, interest_mask_list, live_detail,
    live_detail_with_auth_token, live_reco, live_websocket_info, playback_list, profile_public,
    user_info_by_id, KuaishouLiveApiMethod, KuaishouLiveApiRequest,
};
use amagi::kuaishou::sign::{
    build_signed_live_api_url, set_query_param, sign_live_api_request, sign_live_api_url,
};
use amagi::kuaishou::support::{
    kept_live_room_positions, normalize_kuaishou_hls_play_url, pick_first_non_empty_string,
};
use amagi::kuaishou::types::{empty_kuaishou_banned_status, empty_kuaishou_verified_status};

const BASE: &str = "https://live.kuaishou.com";

fn pairs(items: &[(&str, &str)]) -> Vec<(String, String)> {
    items.iter().map(|(k, v)| (k.to_string(), v.to_string())).collect()
}

#[test]
fn sign_input_sorts_parameters_and_skips_marked_ones() {
    let payload = KuaishouHxfalconPayload {
        url: "/rest/k/live/websocket/info".to_string(),
        query: pairs(&[("liveStreamId", "abc"), ("caver", "2"), ("__NS_sig3", "x")]),
        form: Vec::new(),
        request_body: KuaishouJsonObject::new(),
    };
    assert_eq!(
        build_kuaishou_hxfalcon_sign_input(&payload),
        "/rest/k/live/websocket/infocaver=2liveStreamId=abc"
    );
}

#[test]
fn sign_input_lets_form_replace_query_and_appends_body() {
    let mut body = KuaishouJsonObject::new();
    body.insert("k", KuaishouJsonValue::String("v\"1".to_string()));
    body.insert("n", KuaishouJsonValue::Number("12".to_string()));
    body.insert("k", KuaishouJsonValue::Bool(false));
    let payload = KuaishouHxfalconPayload {
        url: "https://live.kuaishou.com/live_api/x?y=1".to_string(),
        query: pairs(&[("b", "2"), ("a", "1")]),
        form: pairs(&[("b", "3"), ("c", "4")]),
        request_body: body,
    };
    assert_eq!(
        build_kuaishou_hxfalcon_sign_input(&payload),
        "/live_api/xa=1b=3c=4{\"k\":false,\"n\":12}"
    );
}

#[test]
fn sign_input_ignores_a_marked_parameter_added_to_the_form() {
    let base = KuaishouHxfalconPayload {
        url: "/p".to_string(),
        query: pairs(&[("a", "1")]),
        form: Vec::new(),
        request_body: KuaishouJsonObject::new(),
    };
    let marked = KuaishouHxfalconPayload {
        url: "/p".to_string(),
        query: pairs(&[("a", "1")]),
        form: pairs(&[("x__NS", "9")]),
        request_body: KuaishouJsonObject::new(),
    };
    assert_eq!(
        build_kuaishou_hxfalcon_sign_input(&base),
        build_kuaishou_hxfalcon_sign_input(&marked)
    );
}

#[test]
fn json_body_escapes_strings() {
    let mut body = KuaishouJsonObject::new();
    body.insert("s", KuaishouJsonValue::String("a\nb\u{1}\u{2028}\\".to_string()));
    body.insert("z", KuaishouJsonValue::Null);
    body.insert(
        "arr",
        KuaishouJsonValue::Array(vec![KuaishouJsonValue::Bool(true), KuaishouJsonValue::Null]),
    );
    let payload = KuaishouHxfalconPayload {
        url: "/p".to_string(),
        query: Vec::new(),
        form: Vec::new(),
        request_body: body,
    };
    assert_eq!(
        build_kuaishou_hxfalcon_sign_input(&payload),
        "/p{\"s\":\"a\\nb\\u0001\\u2028\\\\\",\"z\":null,\"arr\":[true,null]}"
    );
}

#[test]
fn json_insert_replaces_in_place() {
    let mut object = KuaishouJsonObject::new();
    assert!(object.is_empty());
    object.insert("a", KuaishouJsonValue::Bool(true));
    object.insert("b", KuaishouJsonValue::Null);
    object.insert("a", KuaishouJsonValue::Bool(false));
    let names: Vec<&str> = object.entries().iter().map(|(k, _)| k.as_str()).collect();
    assert_eq!(names, vec!["a", "b"]);
    assert_eq!(object.entries()[0].1, KuaishouJsonValue::Bool(false));
}

#[test]
fn sign_path_resolution() {
    assert_eq!(resolve_kuaishou_hxfalcon_sign_path("/a/b?x=1", None), Ok("/a/b".to_string()));
    assert_eq!(
        resolve_kuaishou_hxfalcon_sign_path("https://h.com/p?q=1", Some("/rest/x")),
        Ok("/rest/x".to_string())
    );
    assert_eq!(resolve_kuaishou_hxfalcon_sign_path("https://h.com/p", None), Ok("/p".to_string()));
    assert_eq!(
        resolve_kuaishou_hxfalcon_sign_path("abc", None),
        Err(AppError::InvalidRequestConfig("Invalid Kuaishou signing path: abc".to_string()))
    );
}

#[test]
fn payload_from_url() {
    let payload = build_kuaishou_hxfalcon_payload(
        "https://live.kuaishou.com/live_api/x?caver=2&b=1&a=3&b=2",
        None,
    )
    .unwrap();
    assert_eq!(payload.url, "/live_api/x");
    assert_eq!(payload.query, pairs(&[("a", "3"), ("b", "2"), ("caver", "2")]));
    assert!(payload.form.is_empty());
    assert!(payload.request_body.is_empty());
}

#[test]
fn payload_with_sign_path() {
    let payload = build_kuaishou_hxfalcon_payload(
        "https://live.kuaishou.com/live_api/x?caver=2",
        Some("/rest/k/user/info"),
    )
    .unwrap();
    assert_eq!(payload.url, "/rest/k/user/info");
}

#[test]
fn payload_errors() {
    assert_eq!(
        build_kuaishou_hxfalcon_payload("not a url", None),
        Err(AppError::InvalidRequestConfig(
            "Invalid Kuaishou signing URL not a url: relative URL without a base".to_string()
        ))
    );
    assert_eq!(
        build_kuaishou_hxfalcon_payload("https://h.com/p?a=1", None),
        Err(AppError::InvalidRequestConfig(
            "Missing caver query parameter for Kuaishou signing: https://h.com/p?a=1".to_string()
        ))
    );
    assert_eq!(
        build_kuaishou_hxfalcon_payload("https://h.com/p?caver=2", Some("rel")),
        Err(AppError::InvalidRequestConfig("Invalid Kuaishou signing path: rel".to_string()))
    );
}

#[test]
fn playback_list_request() {
    let request = playback_list(BASE, "abc").unwrap();
    assert_eq!(request.request_type, "playbackList");
    assert_eq!(
        request.url,
        "https://live.kuaishou.com/live_api/playback/list?principalId=abc&count=12&cursor=&hasMore=true"
    );
    assert!(!request.requires_sign);
    assert_eq!(request.method, KuaishouLiveApiMethod::Get);
    assert_eq!(request.sign_path, None);
}

#[test]
fn request_without_query_keeps_an_empty_query() {
    let request = interest_mask_list(BASE).unwrap();
    assert_eq!(request.url, "https://live.kuaishou.com/live_api/interestMask/list?");
}

#[test]
fn request_replaces_the_base_path_and_query() {
    let request = category_classify("https://live.kuaishou.com/old/path?x=1#frag").unwrap();
    assert_eq!(
        request.url,
        "https://live.kuaishou.com/live_api/category/classify?type=4&source=2&page=1&pageSize=20#frag"
    );
}

#[test]
fn signed_requests_carry_their_sign_path() {
    let request = user_info_by_id(BASE, "u 1").unwrap();
    assert_eq!(
        request.url,
        "https://live.kuaishou.com/live_api/baseuser/userinfo/byid?caver=2&principalId=u+1"
    );
    assert!(request.requires_sign);
    assert_eq!(request.sign_path.as_deref(), Some("/rest/k/user/info"));
    let websocket = live_websocket_info(BASE, "s1").unwrap();
    assert_eq!(websocket.sign_path.as_deref(), Some("/rest/k/live/websocket/info"));
}

#[test]
fn profile_public_defaults() {
    let request = profile_public(BASE, "p", None, None).unwrap();
    assert_eq!(
        request.url,
        "https://live.kuaishou.com/live_api/profile/public?caver=2&count=12&hasMore=true&pcursor=&principalId=p&privacy=public"
    );
    let paged = profile_public(BASE, "p", Some(5), Some("c1")).unwrap();
    assert_eq!(
        paged.url,
        "https://live.kuaishou.com/live_api/profile/public?caver=2&count=5&hasMore=true&pcursor=c1&principalId=p&privacy=public"
    );
}

#[test]
fn live_detail_auth_token_is_trimmed_or_dropped() {
    let plain = live_detail(BASE, "p").unwrap();
    assert_eq!(plain.url, "https://live.kuaishou.com/live_api/liveroom/livedetail?principalId=p");
    let blank = live_detail_with_auth_token(BASE, "p", Some("   ")).unwrap();
    assert_eq!(blank.url, plain.url);
    let token = live_detail_with_auth_token(BASE, "p", Some(" t ")).unwrap();
    assert_eq!(
        token.url,
        "https://live.kuaishou.com/live_api/liveroom/livedetail?principalId=p&authToken=t"
    );
}

fn number(value: &KuaishouJsonValue) -> &str {
    match value {
        KuaishouJsonValue::Number(text) => text.as_str(),
        other => panic!("not a number: {other:?}"),
    }
}

fn reco_game(request: &KuaishouLiveApiRequest) -> String {
    match &request.body.entries()[1].1 {
        KuaishouJsonValue::Array(items) => match &items[0] {
            KuaishouJsonValue::Object(entry) => number(&entry.entries()[0].1).to_string(),
            other => panic!("unexpected {other:?}"),
        },
        other => panic!("unexpected {other:?}"),
    }
}

#[test]
fn live_reco_request() {
    let request = live_reco(BASE, Some("7")).unwrap();
    assert_eq!(request.url, "https://live.kuaishou.com/live_api/liveroom/reco?");
    assert_eq!(request.method, KuaishouLiveApiMethod::Post);
    assert!(!request.requires_sign);
    let names: Vec<&str> = request.body.entries().iter().map(|(k, _)| k.as_str()).collect();
    assert_eq!(names, vec!["followingParam", "gameFavour"]);
    assert_eq!(reco_game(&request), "7");
    assert_eq!(reco_game(&live_reco(BASE, Some("0")).unwrap()), "1001");
    assert_eq!(reco_game(&live_reco(BASE, Some("x")).unwrap()), "1001");
    assert_eq!(reco_game(&live_reco(BASE, None).unwrap()), "1001");
}

#[test]
fn invalid_base_url() {
    assert_eq!(
        create_live_api_request("not a url", "t", "/p", &Vec::new()),
        Err(AppError::InvalidRequestConfig(
            "invalid Kuaishou live base URL `not a url`: relative URL without a base".to_string()
        ))
    );
}

#[test]
fn api_urls_use_the_live_base_url() {
    let urls = create_kuaishou_api_urls();
    assert_eq!(urls, KuaishouApiUrls::new());
    let request = urls.live_gift_list("s").unwrap();
    assert_eq!(request.url, "https://live.kuaishou.com/live_api/emoji/gift-list?liveStreamId=s");
    let custom = KuaishouApiUrls::with_base_urls(
        "https://example.com/graphql".to_string(),
        "https://example.com".to_string(),
    );
    assert_eq!(
        custom.category_data().unwrap().url,
        "https://example.com/live_api/category/data?"
    );
    assert_eq!(
        custom.live_detail("p", Some("t")).unwrap().url,
        "https://example.com/live_api/liveroom/livedetail?principalId=p&authToken=t"
    );
}

#[test]
fn set_query_param_keeps_one_pair() {
    assert_eq!(
        set_query_param("https://h.com/p?a=1&x=2&x=3", "x", "9"),
        "https://h.com/p?a=1&x=9"
    );
    assert_eq!(set_query_param("https://h.com/p", "x", "9"), "https://h.com/p?x=9");
    assert_eq!(set_query_param("not a url", "x", "9"), "not a url");
}

#[test]
fn signed_url_and_headers() {
    let (url, headers) = build_signed_live_api_url(
        "https://live.kuaishou.com/live_api/x?caver=2&y=1",
        "k1",
        "2.0",
        "SIG",
    )
    .unwrap();
    assert_eq!(url, "https://live.kuaishou.com/live_api/x?caver=2.0&y=1&__NS_hxfalcon=SIG");
    assert_eq!(headers, pairs(&[("kww", "k1")]));
    let (_, none) = build_signed_live_api_url("https://h.com/p", "", "1", "s").unwrap();
    assert!(none.is_empty());
    assert_eq!(
        build_signed_live_api_url("bad", "", "1", "s"),
        Err(AppError::InvalidRequestConfig(
            "Invalid Kuaishou live_api URL bad: relative URL without a base".to_string()
        ))
    );
}

#[test]
fn signed_live_api_urls() {
    let signature = sign_live_api_url(
        "https://live.kuaishou.com/live_api/x?caver=2&y=1",
        "k1",
        Some("/rest/k/x"),
        "SIG",
        "2.0",
    )
    .unwrap();
    assert_eq!(signature.url, "https://live.kuaishou.com/live_api/x?caver=2.0&y=1&__NS_hxfalcon=SIG");
    assert_eq!(signature.headers, pairs(&[("kww", "k1")]));
    assert_eq!(signature.sign_result, "SIG");
    assert_eq!(signature.cat_version, "2.0");
    assert_eq!(signature.sign_input, "/rest/k/xcaver=2y=1");
    assert_eq!(
        sign_live_api_url("https://h.com/p?a=1", "", None, "s", "1"),
        Err(AppError::InvalidRequestConfig(
            "Missing caver query parameter for Kuaishou signing: https://h.com/p?a=1".to_string()
        ))
    );
    let request = live_websocket_info(BASE, "abc").unwrap();
    let signature = sign_live_api_request(&request, "", "S", "3").unwrap();
    assert!(signature.headers.is_empty());
    assert_eq!(signature.sign_input, "/rest/k/live/websocket/infocaver=2liveStreamId=abc");
    assert!(signature.url.ends_with("caver=3&liveStreamId=abc&__NS_hxfalcon=S"));
}

#[test]
fn hls_url_repair() {
    assert_eq!(
        normalize_kuaishou_hls_play_url("https://a.com/x.m3u8?sidc=123%26tsc%3Dabc&q=1"),
        "https://a.com/x.m3u8?sidc=123&tsc=abc&q=1"
    );
    assert_eq!(
        normalize_kuaishou_hls_play_url("https://a.com/x.m3u8?sidc=123%26tsc%3Dabc&tsc=z"),
        "https://a.com/x.m3u8?sidc=123&tsc=z"
    );
    assert_eq!(
        normalize_kuaishou_hls_play_url("https://a.com/x.m3u8?sidc=1&q=%20"),
        "https://a.com/x.m3u8?sidc=1&q=%20"
    );
    assert_eq!(normalize_kuaishou_hls_play_url("::"), "::");
}

#[test]
fn first_non_empty_string() {
    let values = vec![None, Some("  ".to_string()), Some(" x ".to_string()), Some("y".to_string())];
    assert_eq!(pick_first_non_empty_string(&values), " x ");
    assert_eq!(pick_first_non_empty_string(&[None]), "");
}

#[test]
fn dedupe_keeps_first_rooms() {
    let ids: Vec<String> = ["a", "", "a", "b", ""].iter().map(|s| s.to_string()).collect();
    assert_eq!(kept_live_room_positions(&ids), vec![0, 1, 3, 4]);
}

#[test]
fn empty_statuses() {
    let verified = empty_kuaishou_verified_status();
    assert!(!verified.verified);
    assert_eq!(verified.type_id, 0);
    assert!(verified.description.is_empty());
    let banned = empty_kuaishou_banned_status();
    assert!(!banned.banned && !banned.social_banned && !banned.isolate && !banned.defriend);
}

#[test]
fn sign_input_does_not_depend_on_query_order() {
    let a = sign_live_api_url("https://live.kuaishou.com/live_api/x?y=1&caver=2&b=3", "", None, "S", "2")
        .unwrap();
    let b = sign_live_api_url("https://live.kuaishou.com/live_api/x?b=3&caver=2&y=1", "", None, "S", "2")
        .unwrap();
    assert_eq!(a.sign_input, b.sign_input);
    assert_eq!(a.sign_input, "/live_api/xb=3caver=2y=1");
}

#[test]
fn graphql_requests_go_to_the_endpoint() {
    let urls = KuaishouApiUrls::with_base_urls("https://g.example/graphql".to_string(), BASE.to_string());
    let body = || KuaishouJsonValue::Object(KuaishouJsonObject::new());
    let work = urls.video_work(body());
    assert_eq!(work.request_type, "visionVideoDetail");
    assert_eq!(work.url, "https://g.example/graphql");
    assert_eq!(work.body, body());
    let comments = urls.work_comments(KuaishouJsonValue::Null);
    assert_eq!(comments.request_type, "commentListQuery");
    assert_eq!(comments.body, KuaishouJsonValue::Null);
    let emoji = KuaishouApiUrls::new().emoji_list(body());
    assert_eq!(emoji.request_type, "visionBaseEmoticons");
    assert_eq!(emoji.url, "https://www.kuaishou.com/graphql");
}
