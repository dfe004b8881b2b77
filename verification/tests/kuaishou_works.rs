use amagi::kuaishou::json::{KuaishouJsonObject, KuaishouJsonValue};
use amagi::kuaishou::profile::KuaishouUserProfileSources;
use amagi::kuaishou::works::{data_payload, profile_upstream_snapshot, resolve_kuaishou_user_work_list};

fn model(value: &serde_json::Value) -> KuaishouJsonValue {
    match value {
        serde_json::Value::Null => KuaishouJsonValue::Null,
        serde_json::Value::Bool(b) => KuaishouJsonValue::Bool(*b),
        serde_json::Value::Number(n) => KuaishouJsonValue::Number(n.to_string()),
        serde_json::Value::String(s) => KuaishouJsonValue::String(s.clone()),
        serde_json::Value::Array(items) => KuaishouJsonValue::Array(items.iter().map(model).collect()),
        serde_json::Value::Object(map) => KuaishouJsonValue::Object(KuaishouJsonObject {
            entries: map.iter().map(|(k, v)| (k.clone(), model(v))).collect(),
        }),
    }
}

fn back(value: &KuaishouJsonValue) -> serde_json::Value {
    match value {
        KuaishouJsonValue::Null => serde_json::Value::Null,
        KuaishouJsonValue::Bool(b) => serde_json::Value::Bool(*b),
        KuaishouJsonValue::Number(n) => serde_json::from_str(n).expect("number text"),
        KuaishouJsonValue::String(s) => serde_json::Value::String(s.clone()),
        KuaishouJsonValue::Array(items) => serde_json::Value::Array(items.iter().map(back).collect()),
        KuaishouJsonValue::Object(object) => serde_json::Value::Object(
            object.entries.iter().map(|(k, v)| (k.clone(), back(v))).collect(),
        ),
    }
}

fn json(text: &str) -> KuaishouJsonValue {
    model(&serde_json::from_str(text).expect("test JSON"))
}

fn value(text: &str) -> serde_json::Value {
    serde_json::from_str(text).expect("test JSON")
}


#[test]
fn work_list_from_data() {
    let payload = json(
        r#"{"data":{"list":[{"id":"a"},{"id":"b"}],"pcursor":"c1","hasMore":false,"result":1}}"#,
    );
    let list = resolve_kuaishou_user_work_list("pid", &payload, KuaishouJsonValue::Null);
    assert_eq!(list.principal_id, "pid");
    assert_eq!(list.list, vec![json(r#"{"id":"a"}"#), json(r#"{"id":"b"}"#)]);
    assert_eq!(list.pcursor, "c1");
    assert!(!list.has_more);
    assert_eq!(list.result, 1);
    assert_eq!(list.upstream_payload, KuaishouJsonValue::Null);
}

#[test]
fn work_list_fallbacks() {
    let payload = json(r#"{"feeds":[{"id":"f"}],"pcursor":"c2","result":2}"#);
    let list = resolve_kuaishou_user_work_list("pid", &payload, json("{}"));
    assert_eq!(list.list, vec![json(r#"{"id":"f"}"#)]);
    assert_eq!(list.pcursor, "c2");
    assert!(list.has_more);
    assert_eq!(list.result, 2);
    assert_eq!(list.upstream_payload, json("{}"));
    let list = resolve_kuaishou_user_work_list("pid", &json(r#"{"pcursor":"no_more"}"#), KuaishouJsonValue::Null);
    assert!(list.list.is_empty());
    assert!(!list.has_more);
    assert_eq!(list.result, 0);
    let list = resolve_kuaishou_user_work_list("pid", &json(r#"{"data":{"list":7},"feeds":[1]}"#), KuaishouJsonValue::Null);
    assert!(list.list.is_empty());
    assert_eq!(list.pcursor, "");
    assert!(!list.has_more);
    let list = resolve_kuaishou_user_work_list("pid", &json(r#"{"data":[],"feeds":[1],"result":"3"}"#), KuaishouJsonValue::Null);
    assert_eq!(list.list, vec![json("1")]);
    assert_eq!(list.result, 0);
}

#[test]
fn data_parts() {
    assert_eq!(data_payload(&json(r#"{"data":{"a":1},"result":1}"#)), json(r#"{"a":1}"#));
    assert_eq!(data_payload(&json(r#"{"result":1}"#)), json(r#"{"result":1}"#));
    assert_eq!(data_payload(&json(r#"{"data":null}"#)), KuaishouJsonValue::Null);
}

#[test]
fn profile_snapshot_members() {
    let user = json(r#"{"data":{"userInfo":{"id":"u"}}}"#);
    let public = json(r#"{"data":{"list":[]}}"#);
    let live = json(r#"{"result":1}"#);
    let sources = KuaishouUserProfileSources {
        user_info_payload: &user,
        sensitive_payload: None,
        public_payload: Some(&public),
        private_payload: None,
        liked_payload: None,
        playback_payload: None,
        interest_list_payload: None,
        interest_mask_payload: None,
        category_config_payload: None,
        category_data_payload: None,
        category_classify_payload: None,
        live_detail_payload: Some(&live),
    };
    let snapshot = profile_upstream_snapshot(&sources);
    assert_eq!(
        back(&snapshot),
        value(r#"{"user_info":{"userInfo":{"id":"u"}},"public":{"list":[]},"live_detail":{"result":1}}"#)
    );
    match snapshot {
        KuaishouJsonValue::Object(object) => {
            let keys: Vec<&str> = object.entries.iter().map(|(k, _)| k.as_str()).collect();
            assert_eq!(keys, vec!["user_info", "public", "live_detail"]);
        }
        _ => panic!("an object is expected"),
    }
}
