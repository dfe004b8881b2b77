use amagi::error::AppError;
use amagi::kuaishou::json::{KuaishouJsonObject, KuaishouJsonValue};
use amagi::twitter::space::parse_space_detail;
use amagi::twitter::values::normalize_upstream_payload;

fn model(value: &serde_json::Value) -> KuaishouJsonValue {
    match value {
        serde_json::Value::Null => KuaishouJsonValue::Null,
        serde_json::Value::Bool(b) => KuaishouJsonValue::Bool(*b),
        serde_json::Value::Number(n) => KuaishouJsonValue::Number(n.to_string()),
        serde_json::Value::String(s) => KuaishouJsonValue::String(s.clone()),
        serde_json::Value::Array(items) => KuaishouJsonValue::Array(items.iter().map(model).collect()),
        serde_json::Value::Object(map) => KuaishouJsonValue::Object(KuaishouJsonObject {
            entries: map.iter().map(|(k, v)| (k.clone(), model(v))).collect(),
        }),
    }
}

fn json(text: &str) -> KuaishouJsonValue {
    model(&serde_json::from_str(text).expect("test JSON"))
}

fn upstream(message: &str) -> AppError {
    AppError::UpstreamResponse { status: None, message: message.to_string() }
}

fn user_json(id: &str, screen_name: &str) -> String {
    format!(r#"{{"__typename":"User","rest_id":"{id}","core":{{"screen_name":"{screen_name}"}}}}"#)
}

fn space_audio(metadata: &str, participants: &str) -> String {
    format!(r#"{{"metadata":{metadata},"participants":{participants}}}"#)
}

fn space_answer(audio: &str) -> KuaishouJsonValue {
    json(&format!(r#"{{"data":{{"audioSpace":{audio}}}}}"#))
}

#[test]
fn space_with_creator() {
    let creator = format!(r#"{{"result":{}}}"#, user_json("42", "jack"));
    let metadata = format!(
        r#"{{"rest_id":"1Y","title":" Talk ","state":"Ended","created_at":1700000000000,
            "started_at":"Wed Oct 10 20:19:24 +0000 2018","is_space_available_for_replay":true,
            "total_live_listeners":"12","participant_count":3,"media_key":"mk","creator_results":{creator}}}"#
    );
    let audio = space_audio(&metadata, r#"{"total":7}"#);
    let space = parse_space_detail(&space_answer(&audio), "req").unwrap();
    assert_eq!(space.id, "1Y");
    assert_eq!(space.title.as_deref(), Some("Talk"));
    assert_eq!(space.state.as_deref(), Some("Ended"));
    assert_eq!(space.host.as_ref().unwrap().screen_name, "jack");
    assert_eq!(space.created_at.as_deref(), Some("1700000000000"));
    assert_eq!(space.started_at.as_deref(), Some("2018-10-10T20:19:24+00:00"));
    assert_eq!(space.ended_at, None);
    assert!(space.replay_enabled);
    assert_eq!(space.total_live_listeners, Some(12));
    assert_eq!(space.participant_count, Some(7));
    assert_eq!(space.media_key.as_deref(), Some("mk"));
    assert_eq!(space.upstream_payload, normalize_upstream_payload(&json(&audio)));
}

#[test]
fn space_host_from_admins() {
    let admins = format!(r#"{{"admins":[{{"user_results":{}}}]}}"#, user_json("7", "ann"));
    let audio = space_audio(r#"{"participant_count":3}"#, &admins);
    let space = parse_space_detail(&space_answer(&audio), "req").unwrap();
    assert_eq!(space.id, "req");
    assert_eq!(space.host.as_ref().unwrap().id, "7");
    assert_eq!(space.participant_count, Some(3));
    assert!(!space.replay_enabled);
    let audio = space_audio("{}", r#"{"admins":[{"user_results":{}}]}"#);
    assert_eq!(parse_space_detail(&space_answer(&audio), "req").unwrap().host, None);
}

#[test]
fn space_errors() {
    assert_eq!(
        parse_space_detail(&json(r#"{"data":{}}"#), "s1"),
        Err(upstream("twitter space `s1` was not found"))
    );
    assert_eq!(
        parse_space_detail(&json(r#"{"data":{"audioSpace":{}}}"#), "s1"),
        Err(upstream("twitter space `s1` is missing metadata"))
    );
    assert_eq!(
        parse_space_detail(
            &space_answer(&space_audio(r#"{"creator_results":{"result":{"__typename":"User"}}}"#, "{}")),
            "s1"
        ),
        Err(upstream("twitter user response is missing `rest_id`"))
    );
}
