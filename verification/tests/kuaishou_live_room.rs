use amagi::error::AppError;
use amagi::kuaishou::fetcher::kuaishou_graphql_data;
use amagi::kuaishou::json::{KuaishouJsonObject, KuaishouJsonValue};
use amagi::kuaishou::live_room::{
    build_kuaishou_live_room_info, dedupe_live_room_play_list, live_room_follow_up_requests, live_room_recommend_list,
    live_room_upstream_snapshot, map_live_detail_to_live_room_play_item,
    map_reco_item_to_live_room_play_item, normalize_reco_author, KuaishouLiveRoomSources,
};
use amagi::kuaishou::author::normalize_live_author;
use amagi::kuaishou::types::{
    KuaishouBannedStatus, KuaishouEmojiCatalog, KuaishouEmojiList, KuaishouEmojiListData,
    KuaishouVerifiedStatus,
};

fn model(value: &serde_json::Value) -> KuaishouJsonValue {
    match value {
        serde_json::Value::Null => KuaishouJsonValue::Null,
        serde_json::Value::Bool(b) => KuaishouJsonValue::Bool(*b),
        serde_json::Value::Number(n) => KuaishouJsonValue::Number(n.to_string()),
        serde_json::Value::String(s) => KuaishouJsonValue::String(s.clone()),
        serde_json::Value::Array(items) => KuaishouJsonValue::Array(items.iter().map(model).collect()),
        serde_json::Value::Object(map) => KuaishouJsonValue::Object(KuaishouJsonObject {
            entries: map.iter().map(|(k, v)| (k.clone(), model(v))).collect(),
        }),
    }
}

fn back(value: &KuaishouJsonValue) -> serde_json::Value {
    match value {
        KuaishouJsonValue::Null => serde_json::Value::Null,
        KuaishouJsonValue::Bool(b) => serde_json::Value::Bool(*b),
        KuaishouJsonValue::Number(n) => serde_json::from_str(n).expect("number text"),
        KuaishouJsonValue::String(s) => serde_json::Value::String(s.clone()),
        KuaishouJsonValue::Array(items) => serde_json::Value::Array(items.iter().map(back).collect()),
        KuaishouJsonValue::Object(object) => serde_json::Value::Object(
            object.entries.iter().map(|(k, v)| (k.clone(), back(v))).collect(),
        ),
    }
}

fn json(text: &str) -> KuaishouJsonValue {
    model(&serde_json::from_str(text).expect("test JSON"))
}

fn value(text: &str) -> serde_json::Value {
    serde_json::from_str(text).expect("test JSON")
}


const BASE: &str = "https://live.kuaishou.com";

const DETAIL: &str = r#"{"result":1,
    "liveStream":{"id":"s1","poster":"","playUrls":{"h264":[1]},"url":"u1","location":"Beijing","liveGuess":true},
    "config":{"coverUrl":"c1","hlsPlayUrl":"h1","watchingCount":"10","expTag":"e1"},
    "gameInfo":{"gameId":"g7","name":"Go","categoryAbbr":"ab"},
    "author":{"id":"a1","name":"Ann","following":true},
    "websocketInfo":{"websocketUrls":["wss://a","wss://b",3],"token":"t1"},
    "noticeList":[{"n":1}],
    "recommendList":[
        {"liveStream":{"id":"s2"},"config":{"coverUrl":"c2"},"author":{"id":"b1","counts":{"fan":1}}},
        "skip",
        {"liveStream":{"id":"s1"}},
        {"liveStream":{"id":""},"isLiving":true}
    ]}"#;

fn detail_payload() -> KuaishouJsonValue {
    json(&format!(r#"{{"data":{DETAIL}}}"#))
}

fn sources<'a>(detail: &'a KuaishouJsonValue) -> KuaishouLiveRoomSources<'a> {
    KuaishouLiveRoomSources {
        user_info_payload: None,
        sensitive_payload: None,
        live_detail_payload: detail,
        emoji_payload: None,
        gift_payload: None,
        websocket_payload: None,
        reco_payload: None,
    }
}

#[test]
fn live_detail_play_item() {
    let detail = json(DETAIL);
    let author = normalize_live_author(None);
    let item = map_live_detail_to_live_room_play_item(&detail, author);
    assert_eq!(item.live_stream.id, "s1");
    assert_eq!(item.live_stream.poster, "c1");
    assert_eq!(back(&item.live_stream.play_urls), value(r#"{"h264":[1]}"#));
    assert_eq!(item.live_stream.url, "u1");
    assert_eq!(item.live_stream.hls_play_url, "h1");
    assert_eq!(item.live_stream.location.as_deref(), Some("Beijing"));
    assert_eq!(item.live_stream.stream_type, "live");
    assert!(item.live_stream.live_guess);
    assert_eq!(item.live_stream.exp_tag, "e1");
    assert!(!item.live_stream.private_live);
    assert_eq!(item.game_info.id, "g7");
    assert_eq!(item.game_info.name, "Go");
    assert_eq!(item.game_info.category_abbr, "ab");
    assert_eq!(item.game_info.watching_count, "10");
    assert!(item.is_living);
    assert_eq!(item.auth_token, None);
    assert_eq!(
        back(&item.config),
        value(
            r#"{"coverUrl":"c1","hlsPlayUrl":"h1","watchingCount":"10","expTag":"e1","liveStreamId":"s1",
                "rtCoverUrl":"","gameInfo":{"gameId":"g7","name":"Go","categoryAbbr":"ab"},
                "multiResolutionPlayUrls":{"h264":[1]}}"#
        )
    );
    assert_eq!(back(&item.websocket_info), value(r#"{"websocketUrls":["wss://a","wss://b",3],"token":"t1"}"#));
    assert_eq!(back(&item.status), value(r#"{"forbiddenState":1}"#));
}

#[test]
fn live_detail_without_stream() {
    let detail = json(r#"{"status":{"x":1},"isLiving":false,"authToken":"tok"}"#);
    let item = map_live_detail_to_live_room_play_item(&detail, normalize_live_author(None));
    assert_eq!(item.live_stream.id, "");
    assert!(!item.is_living);
    assert_eq!(item.auth_token.as_deref(), Some("tok"));
    assert_eq!(back(&item.status), value(r#"{"x":1}"#));
    assert_eq!(back(&item.live_stream.play_urls), value("{}"));
    let detail = json(r#"{}"#);
    let item = map_live_detail_to_live_room_play_item(&detail, normalize_live_author(None));
    assert!(!item.is_living);
    assert_eq!(back(&item.status), value(r#"{"forbiddenState":0}"#));
}

#[test]
fn recommended_items() {
    let reco = json(
        r#"{"liveStream":{"id":"s9","hlsPlayUrl":"h9","playUrls":[2]},"config":{"liveStreamId":"cfg9","coverUrl":"c9","privateLive":true},
            "gameInfo":{"id":5,"name":"Chess"},"isLiving":true,"status":{"ok":true},
            "author":{"principalId":"p9","counts":[]}}"#,
    );
    let verified = KuaishouVerifiedStatus {
        verified: true,
        description: "v".to_string(),
        type_id: 2,
        is_new: false,
        icon_url: String::new(),
    };
    let item = map_reco_item_to_live_room_play_item(&reco, Some(verified.clone()), None);
    assert_eq!(item.live_stream.id, "s9");
    assert_eq!(item.live_stream.poster, "c9");
    assert_eq!(item.live_stream.hls_play_url, "h9");
    assert_eq!(back(&item.live_stream.play_urls), value("[2]"));
    assert!(item.live_stream.private_live);
    assert_eq!(item.game_info.id, "5");
    assert_eq!(item.game_info.name, "Chess");
    assert_eq!(item.game_info.poster, "");
    assert!(item.is_living);
    assert_eq!(back(&item.status), value(r#"{"ok":true}"#));
    assert_eq!(back(&item.config), value(r#"{"liveStreamId":"cfg9","coverUrl":"c9","privateLive":true}"#));
    assert_eq!(item.author.id, "p9");
    assert_eq!(item.author.verified_status, verified);
    assert_eq!(item.author.banned_status, KuaishouBannedStatus { banned: false, social_banned: false, isolate: false, defriend: false });
    assert_eq!(back(&item.author.counts), value("[]"));
    assert_eq!(item.author.follow_status, "UN_FOLLOWED");
}

#[test]
fn reco_author_defaults() {
    let author = normalize_reco_author(None, None, Some(KuaishouBannedStatus { banned: true, social_banned: false, isolate: false, defriend: false }));
    assert_eq!(author.id, "");
    assert!(!author.verified_status.verified);
    assert!(author.banned_status.banned);
    assert_eq!(back(&author.counts), value("{}"));
}

#[test]
fn room_from_detail() {
    let payload = detail_payload();
    let s = sources(&payload);
    let recos = live_room_recommend_list(&s);
    assert_eq!(recos.len(), 4);
    let statuses = vec![(None, Some(KuaishouBannedStatus { banned: false, social_banned: true, isolate: false, defriend: false }))];
    let room = build_kuaishou_live_room_info("pid", s, &statuses, KuaishouJsonValue::Null);
    assert_eq!(room.principal_id, "pid");
    assert_eq!(room.active_index, 0);
    assert!(!room.loading);
    let current = room.current.as_ref().unwrap();
    assert_eq!(current.live_stream.id, "s1");
    assert_eq!(current.author.id, "a1");
    assert_eq!(current.author.follow_status, "FOLLOWING");
    let ids: Vec<&str> = room.play_list.iter().map(|i| i.live_stream.id.as_str()).collect();
    assert_eq!(ids, vec!["s1", "s2", ""]);
    assert!(room.play_list[1].author.banned_status.social_banned);
    assert_eq!(back(&room.play_list[1].author.counts), value(r#"{"fan":1}"#));
    assert!(room.play_list[2].is_living);
    assert_eq!(room.websocket_urls, vec!["wss://a", "wss://b"]);
    assert_eq!(room.token, "t1");
    assert_eq!(room.notice_list, vec![json(r#"{"n":1}"#)]);
    assert!(room.emoji.icon_urls.is_empty());
    assert_eq!(room.emoji.token, "");
    assert_eq!(room.emoji.long_send_gift_type, None);
}

#[test]
fn room_from_all_answers() {
    let payload = detail_payload();
    let user = json(r#"{"data":{"userInfo":{"id":"u1","name":"Una"}}}"#);
    let gift = json(r#"{"data":{"gifts":[{"g":1}],"giftPanelList":[],"token":"gt","panelToken":"pt","longSendGiftType":3}}"#);
    let websocket = json(r#"{"data":{"websocketUrls":["wss://c"],"token":"t2"}}"#);
    let reco = json(r#"{"data":{"list":[{"liveStream":{"id":"s3"}}]}}"#);
    let emoji = KuaishouEmojiList {
        data: KuaishouEmojiListData {
            vision_base_emoticons: KuaishouEmojiCatalog {
                typename: "Emoticons".to_string(),
                icon_urls: vec![("[smile]".to_string(), "https://e/1.png".to_string())],
            },
        },
        upstream_payload: json(r#"{"visionBaseEmoticons":{}}"#),
    };
    let s = KuaishouLiveRoomSources {
        user_info_payload: Some(&user),
        sensitive_payload: None,
        live_detail_payload: &payload,
        emoji_payload: Some(&emoji),
        gift_payload: Some(&gift),
        websocket_payload: Some(&websocket),
        reco_payload: Some(&reco),
    };
    let snapshot = live_room_upstream_snapshot(&s);
    match &snapshot {
        KuaishouJsonValue::Object(o) => {
            let keys: Vec<&str> = o.entries.iter().map(|(k, _)| k.as_str()).collect();
            assert_eq!(keys, vec!["user_info", "live_detail", "emoji", "gift", "websocket", "reco"]);
        }
        _ => panic!("an object is expected"),
    }
    assert_eq!(back(&snapshot)["emoji"], value(r#"{"visionBaseEmoticons":{}}"#));
    assert_eq!(back(&snapshot)["gift"]["token"], value(r#""gt""#));
    let room = build_kuaishou_live_room_info("pid", s, &Vec::new(), snapshot);
    assert_eq!(room.current.as_ref().unwrap().author.id, "u1");
    assert_eq!(room.current.as_ref().unwrap().author.name, "Una");
    let ids: Vec<&str> = room.play_list.iter().map(|i| i.live_stream.id.as_str()).collect();
    assert_eq!(ids, vec!["s1", "s3"]);
    assert_eq!(room.websocket_urls, vec!["wss://c"]);
    assert_eq!(room.token, "t2");
    assert_eq!(room.emoji.icon_urls, vec![("[smile]".to_string(), "https://e/1.png".to_string())]);
    assert_eq!(room.emoji.gift_list, vec![json(r#"{"g":1}"#)]);
    assert!(room.emoji.gift_panel_list.is_empty());
    assert_eq!(room.emoji.token, "gt");
    assert_eq!(room.emoji.panel_token, "pt");
    assert_eq!(room.emoji.long_send_gift_type, Some(json("3")));
    assert_eq!(back(&room.upstream_payload)["live_detail"]["result"], value("1"));
}

#[test]
fn room_without_detail() {
    let payload = json(r#"{"data":{"result":2}}"#);
    let room = build_kuaishou_live_room_info("pid", sources(&payload), &Vec::new(), json("{}"));
    assert_eq!(room.current, None);
    assert!(room.play_list.is_empty());
    assert!(room.websocket_urls.is_empty());
    assert_eq!(room.upstream_payload, json("{}"));
    assert!(live_room_recommend_list(&sources(&payload)).is_empty());
}

#[test]
fn follow_up_requests() {
    let payload = detail_payload();
    let f = live_room_follow_up_requests(BASE, &payload).unwrap();
    assert_eq!(f.gift.as_ref().unwrap().request_type, "liveGiftList");
    assert!(f.gift.as_ref().unwrap().url.contains("liveStreamId=s1"));
    assert!(f.websocket.is_none());
    assert!(f.reco.is_none());
    let bare = json(r#"{"data":{"liveStream":{"id":"s5"},"gameInfo":{"id":1003},"websocketInfo":{"websocketUrls":["w"]}}}"#);
    let f = live_room_follow_up_requests(BASE, &bare).unwrap();
    assert!(f.gift.is_some());
    assert_eq!(f.websocket.as_ref().unwrap().request_type, "liveWebsocketInfo");
    let reco = f.reco.unwrap();
    assert_eq!(reco.request_type, "liveReco");
    assert_eq!(back(&KuaishouJsonValue::Object(KuaishouJsonObject { entries: reco.body.entries })), value(r#"{"followingParam":{"queryFollowing":true,"followingWeight":50},"gameFavour":[{"gameId":1003,"totalStayLength":100}]}"#));
    let none = json(r#"{"data":{"recommendList":[1]}}"#);
    let f = live_room_follow_up_requests(BASE, &none).unwrap();
    assert!(f.gift.is_none() && f.websocket.is_none() && f.reco.is_none());
    assert!(matches!(
        live_room_follow_up_requests("not a url", &bare),
        Err(AppError::InvalidRequestConfig(_))
    ));
    assert!(live_room_follow_up_requests("not a url", &none).is_ok());
}

#[test]
fn graphql_answers() {
    assert_eq!(kuaishou_graphql_data(Some(json("{}")), None), Ok(json("{}")));
    assert_eq!(
        kuaishou_graphql_data(None, None),
        Err(AppError::UpstreamResponse { status: None, message: "kuaishou graphql response missing data".to_string() })
    );
    assert_eq!(
        kuaishou_graphql_data(Some(json("{}")), Some(vec!["a".to_string(), "b".to_string()])),
        Err(AppError::UpstreamResponse { status: None, message: "kuaishou graphql returned errors: a; b".to_string() })
    );
}

#[test]
fn dedupe_drops_repeated_stream_ids() {
    let room = |id: &str, url: &str| {
        map_reco_item_to_live_room_play_item(
            &json(&format!(r#"{{"liveStream":{{"id":"{id}","hlsPlayUrl":"{url}"}}}}"#)),
            None,
            None,
        )
    };
    let items = vec![room("a", "1"), room("", "2"), room("a", "3"), room("b", "4"), room("", "5")];
    let kept = dedupe_live_room_play_list(items);
    let urls: Vec<&str> = kept.iter().map(|i| i.live_stream.hls_play_url.as_str()).collect();
    assert_eq!(urls, vec!["1", "2", "4", "5"]);
}
