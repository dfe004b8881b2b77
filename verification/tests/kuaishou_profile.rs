use amagi::kuaishou::author::{
    banned_status_from_value, create_follow_button_state, create_follow_state, merge_live_author,
    normalize_live_author, verified_status_from_value,
};
use amagi::kuaishou::json::{KuaishouJsonObject, KuaishouJsonValue};
use amagi::kuaishou::live_info::{author_json, i64_to_decimal, map_live_detail_to_user_profile_live_info};
use amagi::kuaishou::profile::{
    build_kuaishou_user_profile, create_empty_user_info, resolve_live_detail_data,
    resolve_public_show_playback, resolve_public_tab_data, resolve_tab_data,
    KuaishouUserProfileSources,
};
use amagi::kuaishou::types::{
    KuaishouBannedStatus, KuaishouUserProfilePublicTabData, KuaishouUserProfileTabData,
};
use amagi::kuaishou::value::{copy_json, i64_value, number_value, string_value};

fn model(value: &serde_json::Value) -> KuaishouJsonValue {
    match value {
        serde_json::Value::Null => KuaishouJsonValue::Null,
        serde_json::Value::Bool(b) => KuaishouJsonValue::Bool(*b),
        serde_json::Value::Number(n) => KuaishouJsonValue::Number(n.to_string()),
        serde_json::Value::String(s) => KuaishouJsonValue::String(s.clone()),
        serde_json::Value::Array(items) => KuaishouJsonValue::Array(items.iter().map(model).collect()),
        serde_json::Value::Object(map) => KuaishouJsonValue::Object(KuaishouJsonObject {
            entries: map.iter().map(|(k, v)| (k.clone(), model(v))).collect(),
        }),
    }
}

fn back(value: &KuaishouJsonValue) -> serde_json::Value {
    match value {
        KuaishouJsonValue::Null => serde_json::Value::Null,
        KuaishouJsonValue::Bool(b) => serde_json::Value::Bool(*b),
        KuaishouJsonValue::Number(n) => serde_json::from_str(n).expect("number text"),
        KuaishouJsonValue::String(s) => serde_json::Value::String(s.clone()),
        KuaishouJsonValue::Array(items) => serde_json::Value::Array(items.iter().map(back).collect()),
        KuaishouJsonValue::Object(object) => serde_json::Value::Object(
            object.entries.iter().map(|(k, v)| (k.clone(), back(v))).collect(),
        ),
    }
}

fn json(text: &str) -> KuaishouJsonValue {
    model(&serde_json::from_str(text).expect("test JSON"))
}

fn value(text: &str) -> serde_json::Value {
    serde_json::from_str(text).expect("test JSON")
}

#[test]
fn loose_fields() {
    assert_eq!(string_value(Some(&json("12"))), Some("12".to_string()));
    assert_eq!(string_value(Some(&json("\"a\""))), Some("a".to_string()));
    assert_eq!(string_value(Some(&json("true"))), None);
    assert_eq!(number_value(Some(&json("-1"))), Some(u64::MAX));
    assert_eq!(number_value(Some(&json("\"7\""))), Some(7));
    assert_eq!(number_value(Some(&json("1.5"))), None);
    assert_eq!(i64_value(Some(&json("18446744073709551615"))), Some(-1));
    assert_eq!(i64_value(Some(&json("\"-3\""))), Some(-3));
    assert_eq!(i64_value(None), None);
    assert_eq!(i64_to_decimal(-42), "-42");
    assert_eq!(i64_to_decimal(i64::MIN), "-9223372036854775808");
    let v = json(r#"{"a":[1,{"b":null}],"c":"d"}"#);
    assert_eq!(copy_json(&v), v);
}

#[test]
fn statuses() {
    let status = verified_status_from_value(
        Some(&json(r#"{"verified":true,"type":"-2"}"#)),
        Some(&json(r#"{"description":"d","newVerified":true,"iconUrl":"i"}"#)),
    );
    assert!(status.verified);
    assert_eq!(status.description, "d");
    assert_eq!(status.type_id, -2);
    assert!(status.is_new);
    assert_eq!(status.icon_url, "i");
    let status = verified_status_from_value(None, None);
    assert!(!status.verified && status.description.is_empty() && status.type_id == 0);
    assert_eq!(
        banned_status_from_value(Some(&json(r#"{"banned":true,"isolate":"yes"}"#))),
        KuaishouBannedStatus { banned: true, social_banned: false, isolate: false, defriend: false }
    );
}

fn live_author() -> KuaishouJsonValue {
    json(
        r#"{"id":"  ","principalId":"p1","name":"N","headurl":"h","sex":"F","live":true,"following":true,
            "originUserId":-1,"timestamp":"5","verifiedStatus":{"verified":true,"type":3},
            "verifiedDetail":{"description":"d","newVerified":true},"bannedStatus":{"banned":true},
            "counts":{"fan":1}}"#,
    )
}

#[test]
fn live_author_fields() {
    let info = normalize_live_author(Some(&live_author()));
    assert_eq!(info.id, "p1");
    assert_eq!(info.name, "N");
    assert_eq!(info.description, "");
    assert_eq!(info.avatar, "h");
    assert_eq!(info.sex, "F");
    assert!(info.living);
    assert_eq!(info.follow_status, "FOLLOWING");
    assert_eq!(info.origin_user_id, u64::MAX);
    assert_eq!(info.timestamp, 5);
    assert!(info.verified_status.verified);
    assert_eq!(info.verified_status.description, "d");
    assert_eq!(info.verified_status.type_id, 3);
    assert!(info.verified_status.is_new);
    assert!(info.banned_status.banned);
    assert_eq!(back(&info.counts), value(r#"{"fan":1}"#));
    let none = normalize_live_author(None);
    assert_eq!(none.follow_status, "UN_FOLLOWED");
    assert_eq!(back(&none.counts), value("{}"));
}

#[test]
fn merged_author_fields() {
    let user = json(
        r#"{"id":"u1","name":"User","followStatus":" ","cityName":"C","verifiedStatus":{"description":"v"},"counts":{}}"#,
    );
    let sensitive = json(r#"{"followStatus":"UN_FOLLOWED","bannedStatus":{"isolate":true},"counts":{"x":2}}"#);
    let info = merge_live_author(Some(&live_author()), Some(&user), Some(&sensitive));
    assert_eq!(info.id, "u1");
    assert_eq!(info.name, "User");
    assert_eq!(info.avatar, "h");
    assert_eq!(info.follow_status, "UN_FOLLOWED");
    assert_eq!(info.constellation, "");
    assert_eq!(info.city_name, "C");
    assert_eq!(info.verified_status.description, "v");
    assert!(!info.verified_status.verified);
    assert_eq!(
        info.banned_status,
        KuaishouBannedStatus { banned: false, social_banned: false, isolate: true, defriend: false }
    );
    assert_eq!(back(&info.counts), value(r#"{"x":2}"#));
    let info = merge_live_author(Some(&live_author()), Some(&json("[1]")), None);
    assert_eq!(info.id, "p1");
    assert_eq!(info.follow_status, "FOLLOWING");
}

#[test]
fn follow_states() {
    let user = json(r#"{"followStatus":"FOLLOWING","id":7}"#);
    let state = create_follow_state(Some(&user), None).unwrap();
    assert_eq!(state.current_follow_status, "FOLLOWING");
    assert!(!state.need_to_follow);
    assert_eq!(state.author_id, "7");
    assert_eq!(state.data, 0);
    assert_eq!(create_follow_button_state(None, Some(&user)).unwrap().follow_status, "FOLLOWING");
    assert_eq!(create_follow_state(None, Some(&json(r#"{"followStatus":""}"#))), None);
    assert_eq!(create_follow_button_state(None, None), None);
}

#[test]
fn tabs() {
    let fallback = KuaishouUserProfileTabData { list: vec![json("0")], pcursor: "f".to_string() };
    let tab = resolve_tab_data(Some(&json(r#"{"data":{"result":1,"list":[1,2],"pcursor":"c"}}"#)), &fallback);
    assert_eq!(tab.list, vec![json("1"), json("2")]);
    assert_eq!(tab.pcursor, "c");
    let tab = resolve_tab_data(Some(&json(r#"{"data":{"result":1,"list":[]}}"#)), &fallback);
    assert_eq!(tab.pcursor, "f");
    let tab = resolve_tab_data(Some(&json(r#"{"data":{"result":2,"list":[1]}}"#)), &fallback);
    assert_eq!(tab, fallback);
    let tab = resolve_tab_data(Some(&json(r#"{"data":{"result":1,"list":{}}}"#)), &fallback);
    assert_eq!(tab, fallback);
    let public_fallback =
        KuaishouUserProfilePublicTabData { live: Some(json("\"old\"")), list: vec![], pcursor: String::new() };
    let tab = resolve_public_tab_data(
        Some(&json(r#"{"data":{"result":"1","list":[3],"live":{"a":1}}}"#)),
        &public_fallback,
    );
    assert_eq!(tab.live, Some(json(r#"{"a":1}"#)));
    assert_eq!(tab.list, vec![json("3")]);
    let tab = resolve_public_tab_data(Some(&json(r#"{"data":{"result":1,"list":[]}}"#)), &public_fallback);
    assert_eq!(tab.live, Some(json("\"old\"")));
    assert_eq!(resolve_public_show_playback(Some(&json(r#"{"data":{"showPlayback":true}}"#))), Some(true));
    assert_eq!(resolve_public_show_playback(None), None);
}

#[test]
fn live_detail_data() {
    let payload = json(r#"{"data":{"result":"1","x":2}}"#);
    assert_eq!(resolve_live_detail_data(Some(&payload)), Some(&json(r#"{"result":"1","x":2}"#)));
    assert_eq!(resolve_live_detail_data(Some(&json(r#"{"data":{"result":2}}"#))), None);
    assert_eq!(resolve_live_detail_data(Some(&json(r#"{"data":[1]}"#))), None);
}

#[test]
fn author_as_json() {
    let info = normalize_live_author(Some(&live_author()));
    assert_eq!(
        back(&author_json(&info)),
        value(
            r#"{"id":"p1","name":"N","description":"","avatar":"h","sex":"F","living":true,
                "followStatus":"FOLLOWING","constellation":"","cityName":"","originUserId":18446744073709551615,
                "privacy":false,"isNew":false,"timestamp":5,
                "verifiedStatus":{"verified":true,"description":"d","type":3,"new":true,"iconUrl":""},
                "bannedStatus":{"banned":true,"socialBanned":false,"isolate":false,"defriend":false},
                "counts":{"fan":1}}"#
        )
    );
}

#[test]
fn live_info_block() {
    let detail = json(
        r#"{"result":1,"liveStream":{"id":"ls1","poster":"p","playUrls":[{"u":1}],"type":"video"},
            "config":{"caption":"cap","startTime":100,"watchingCount":"9"},"gameInfo":{"name":"g"},
            "isLiving":false,"extra":1}"#,
    );
    let mut author = create_empty_user_info();
    author.follow_status = "FOLLOWING".to_string();
    let info = back(&map_live_detail_to_user_profile_live_info(&detail, &author));
    let author_value = back(&author_json(&author));
    let mut expected = value(
        r#"{"result":1,"liveStream":{"id":"ls1","poster":"p","playUrls":[{"u":1}],"type":"video"},
            "config":{"caption":"cap","startTime":100,"watchingCount":"9"},"gameInfo":{"name":"g"},
            "isLiving":false,"extra":1,
            "id":"ls1","poster":"p","playUrls":[{"u":1}],"caption":"cap","statrtTime":100,
            "hasRedPack":false,"hasBet":false,"followed":true,"expTag":"","hotIcon":"",
            "living":false,"quality":"","qualityLabel":"","watchingCount":"9","landscape":false,
            "likeCount":"","type":"video"}"#,
    );
    expected.as_object_mut().unwrap().insert("author".to_string(), author_value);
    assert_eq!(info, expected);
    let detail = json(r#"{"config":{"liveStreamId":"c1","coverUrl":"cv","multiResolutionPlayUrls":[2]},"gameInfo":{"watchingCount":3}}"#);
    let info = back(&map_live_detail_to_user_profile_live_info(&detail, &create_empty_user_info()));
    assert_eq!(info["id"], value("\"c1\""));
    assert_eq!(info["poster"], value("\"cv\""));
    assert_eq!(info["playUrls"], value("[2]"));
    assert_eq!(info["living"], value("true"));
    assert_eq!(info["watchingCount"], value("3"));
    assert_eq!(info["type"], value("\"live\""));
    assert_eq!(info["followed"], value("false"));
}

#[test]
fn profile_assembly() {
    let user_payload = json(r#"{"data":{"userInfo":{"id":"u1","name":"User","followStatus":"FOLLOWING"}}}"#);
    let public_payload = json(r#"{"data":{"result":1,"list":[{"photo":1}],"pcursor":"p1"}}"#);
    let live_payload =
        json(r#"{"data":{"result":1,"author":{"name":"LiveName","living":true},"liveStream":{"id":"L"}}}"#);
    let interest = json(r#"{"data":[1]}"#);
    let classify = json(r#"{"data":{"list":[3],"hasMore":true}}"#);
    let sources = KuaishouUserProfileSources {
        user_info_payload: &user_payload,
        sensitive_payload: None,
        public_payload: Some(&public_payload),
        private_payload: None,
        liked_payload: None,
        playback_payload: None,
        interest_list_payload: Some(&interest),
        interest_mask_payload: None,
        category_config_payload: None,
        category_data_payload: None,
        category_classify_payload: Some(&classify),
        live_detail_payload: Some(&live_payload),
    };
    let profile = build_kuaishou_user_profile("pid", sources, KuaishouJsonValue::Null);
    assert_eq!(profile.principal_id, "pid");
    assert_eq!(profile.author.principal_id, "pid");
    let info = &profile.author.user_info;
    assert_eq!(info.id, "u1");
    assert_eq!(info.name, "User");
    assert!(info.living);
    assert_eq!(info.follow_status, "FOLLOWING");
    assert_eq!(profile.author.sensitive_info, None);
    assert_eq!(back(&profile.author.follow_info), value("{}"));
    assert_eq!(
        profile.author.ban_state_map,
        vec![
            ("banned".to_string(), "BANNED".to_string()),
            ("cleanState".to_string(), "CLEAN".to_string()),
            ("isolate".to_string(), "ISOLATE".to_string()),
            ("socialBanned".to_string(), "SOCIALBANNED".to_string()),
        ]
    );
    assert_eq!(profile.profile.current_tab, "public");
    assert_eq!(profile.profile.page_size, 12);
    assert_eq!(profile.profile.tab_type_map.len(), 4);
    assert!(!profile.profile.show_playback);
    assert_eq!(profile.profile.public_data.list, vec![json(r#"{"photo":1}"#)]);
    assert_eq!(profile.profile.public_data.pcursor, "p1");
    let live = back(profile.profile.public_data.live.as_ref().unwrap());
    assert_eq!(live["id"], value("\"L\""));
    assert_eq!(live["author"]["name"], value("\"User\""));
    assert_eq!(profile.profile.interest_list, vec![json("1")]);
    assert_eq!(profile.category_mask.list, vec![json("3")]);
    assert!(profile.category_mask.has_more);
    assert!(!profile.category_mask.has_more_hot);
    assert!(profile.interest_mask.is_empty());
    let follow = profile.follow.as_ref().unwrap();
    assert_eq!(follow.current_follow_status, "FOLLOWING");
    assert_eq!(follow.author_id, "u1");
    assert_eq!(profile.follow_button.as_ref().unwrap().follow_status, "FOLLOWING");
    assert_eq!(profile.upstream_payload, KuaishouJsonValue::Null);
}
