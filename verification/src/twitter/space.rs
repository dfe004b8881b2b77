//! An X Space read from its GraphQL answer.

use vstd::prelude::*;

use crate::error::{upstream_error, AppError};
use crate::kuaishou::json::{json_at_path, json_get, json_member, json_path, KuaishouJsonValue};
use crate::text::{decimal, u64_to_decimal};
use crate::twitter::entities::{follows_text_member, has_text_member, json_items, json_text, string_at};
use crate::twitter::parse::{parse_user_summary, profile_error, summary_parsed_from};
use crate::twitter::transport::{opt_text, spec_datetime_rfc3339, twitter_datetime_to_rfc3339};
use crate::twitter::types::{TwitterSpaceDetail, TwitterUserSummary};
use crate::twitter::values::{
    array_at_path, bool_at_path, json_bool, json_tree, normalize_upstream_payload, normalized,
    path1, path2, string_at_path, u64_at_path, unwrap_user_result, user_result_of, value_u64,
};

verus! {

/// A time of a space's metadata: a number as its decimal text, else a
/// date text in RFC 3339 form.
pub open spec fn space_time(m: KuaishouJsonValue, key: Seq<char>) -> Option<Seq<char>> {
    match value_u64(json_path(m, seq![key])) {
        Some(n) => Some(decimal(n as nat)),
        None => spec_datetime_rfc3339(string_at(m, seq![key])),
    }
}

/// The user block of a space's first admin.
pub open spec fn admin_block(a: KuaishouJsonValue) -> Option<KuaishouJsonValue> {
    match json_items(json_path(a, seq!["participants"@, "admins"@])) {
        Some(admins) => if admins.len() > 0 {
            json_get(admins[0], "user_results"@)
        } else {
            None
        },
        None => None,
    }
}

/// The creator block of a space's metadata, looking through wrappers.
pub open spec fn creator_block(m: KuaishouJsonValue) -> Option<KuaishouJsonValue> {
    match json_path(m, seq!["creator_results"@, "result"@]) {
        Some(x) => user_result_of(x),
        None => None,
    }
}

/// The fields of a space read from its payload `a` and metadata `m`, all
/// but the host.
pub open spec fn space_fields_from(
    s: TwitterSpaceDetail,
    a: KuaishouJsonValue,
    m: KuaishouJsonValue,
    requested: Seq<char>,
) -> bool {
    &&& s.id@ == match string_at(m, seq!["rest_id"@]) {
        Some(t) => t,
        None => requested,
    }
    &&& opt_text(s.title) == string_at(m, seq!["title"@])
    &&& opt_text(s.state) == string_at(m, seq!["state"@])
    &&& opt_text(s.created_at) == space_time(m, "created_at"@)
    &&& opt_text(s.started_at) == space_time(m, "started_at"@)
    &&& opt_text(s.ended_at) == space_time(m, "ended_at"@)
    &&& opt_text(s.scheduled_start) == space_time(m, "scheduled_start"@)
    &&& s.replay_enabled == match json_bool(json_path(m, seq!["is_space_available_for_replay"@])) {
        Some(b) => b,
        None => false,
    }
    &&& s.total_live_listeners == value_u64(json_path(m, seq!["total_live_listeners"@]))
    &&& s.participant_count == match value_u64(json_path(a, seq!["participants"@, "total"@])) {
        Some(n) => Some(n),
        None => value_u64(json_path(m, seq!["participant_count"@])),
    }
    &&& opt_text(s.media_key) == string_at(m, seq!["media_key"@])
    &&& json_tree(s.upstream_payload) == normalized(a)
}

/// The host a space names: its creator; else, when it names none, its
/// first admin when that reads as a user.
pub open spec fn space_host(s: TwitterSpaceDetail, a: KuaishouJsonValue, m: KuaishouJsonValue) -> bool {
    match creator_block(m) {
        Some(u) => s.host matches Some(h) && summary_parsed_from(h, u),
        None => match admin_block(a) {
            Some(x) => if profile_error(x) is None {
                s.host matches Some(h) && summary_parsed_from(h, x)
            } else {
                s.host is None
            },
            None => s.host is None,
        },
    }
}

fn space_time_at(m: &KuaishouJsonValue, key: &str) -> (t: Option<String>)
    ensures
        opt_text(t) == space_time(*m, key@),
{
    let path = path1(key);
    match u64_at_path(m, &path) {
        Some(n) => Some(u64_to_decimal(n)),
        None => {
            let text = string_at_path(m, &path);
            match text {
                Some(t) => twitter_datetime_to_rfc3339(Some(t.as_str())),
                None => twitter_datetime_to_rfc3339(None),
            }
        },
    }
}

fn admin_host(a: &KuaishouJsonValue) -> (h: Option<TwitterUserSummary>)
    ensures
        match admin_block(*a) {
            Some(x) => if profile_error(x) is None {
                h matches Some(s) && summary_parsed_from(s, x)
            } else {
                h is None
            },
            None => h is None,
        },
{
    match array_at_path(a, &path2("participants", "admins")) {
        Some(admins) => {
            if admins.len() > 0 {
                match json_member(&admins[0], "user_results") {
                    Some(x) => match parse_user_summary(x) {
                        Ok(s) => Some(s),
                        Err(_) => None,
                    },
                    None => None,
                }
            } else {
                None
            }
        },
        None => None,
    }
}

/// The space an answer describes: `data.audioSpace` with its metadata.
/// Fails when there is no space (``twitter space `{id}` was not found``),
/// when it has no metadata (``twitter space `{id}` is missing
/// metadata``), or when its creator does not read as a user.
pub fn parse_space_detail(value: &KuaishouJsonValue, requested_space_id: &str) -> (res: Result<
    TwitterSpaceDetail,
    AppError,
>)
    ensures
        match json_path(*value, seq!["data"@, "audioSpace"@]) {
            None => res matches Err(e) && e.upstream_message() == Some(
                "twitter space `"@ + requested_space_id@ + "` was not found"@,
            ),
            Some(a) => match json_get(a, "metadata"@) {
                None => res matches Err(e) && e.upstream_message() == Some(
                    "twitter space `"@ + requested_space_id@ + "` is missing metadata"@,
                ),
                Some(m) => match creator_block(m) {
                    Some(u) if profile_error(u) is Some => res matches Err(e) && e.upstream_message()
                        == profile_error(u),
                    _ => res matches Ok(s) && space_fields_from(s, a, m, requested_space_id@)
                        && space_host(s, a, m),
                },
            },
        },
{
    let audio_space = match json_at_path(value, &path2("data", "audioSpace")) {
        Some(a) => a,
        None => {
            let mut message = "twitter space `".to_owned();
            message.append(requested_space_id);
            message.append("` was not found");
            return Err(upstream_error(message));
        },
    };
    let metadata = match json_member(audio_space, "metadata") {
        Some(m) => m,
        None => {
            let mut message = "twitter space `".to_owned();
            message.append(requested_space_id);
            message.append("` is missing metadata");
            return Err(upstream_error(message));
        },
    };
    let creator = match json_at_path(metadata, &path2("creator_results", "result")) {
        Some(x) => unwrap_user_result(x),
        None => None,
    };
    let host = match creator {
        Some(u) => match parse_user_summary(u) {
            Ok(s) => Some(s),
            Err(e) => return Err(e),
        },
        None => admin_host(audio_space),
    };
    let id = match string_at_path(metadata, &path1("rest_id")) {
        Some(t) => t,
        None => requested_space_id.to_owned(),
    };
    let participant_count = match u64_at_path(audio_space, &path2("participants", "total")) {
        Some(n) => Some(n),
        None => u64_at_path(metadata, &path1("participant_count")),
    };
    Ok(TwitterSpaceDetail {
        id,
        title: string_at_path(metadata, &path1("title")),
        state: string_at_path(metadata, &path1("state")),
        host,
        created_at: space_time_at(metadata, "created_at"),
        started_at: space_time_at(metadata, "started_at"),
        ended_at: space_time_at(metadata, "ended_at"),
        scheduled_start: space_time_at(metadata, "scheduled_start"),
        replay_enabled: match bool_at_path(metadata, &path1("is_space_available_for_replay")) {
            Some(b) => b,
            None => false,
        },
        total_live_listeners: u64_at_path(metadata, &path1("total_live_listeners")),
        participant_count,
        media_key: string_at_path(metadata, &path1("media_key")),
        upstream_payload: normalize_upstream_payload(audio_space),
    })
}

/// What a time of a space says of the metadata member `key`: its decimal
/// text when the member is a number, nothing when there is no member.
pub open spec fn time_from_member(m: KuaishouJsonValue, key: Seq<char>, field: Option<Seq<char>>) -> bool {
    &&& value_u64(json_get(m, key)) matches Some(n) ==> field == Some(decimal(n as nat))
    &&& json_get(m, key) is None ==> field is None
}

proof fn lemma_one_key_path(m: KuaishouJsonValue, key: Seq<char>)
    ensures
        json_path(m, seq![key]) == json_get(m, key),
{
    reveal_with_fuel(json_path, 2);
    assert(seq![key][0] == key);
    assert(seq![key].drop_first() =~= Seq::<Seq<char>>::empty());
}

/// Each field of a space comes from the metadata member of its own name:
/// `created_at`, `started_at`, `ended_at` and `scheduled_start` from the
/// members so named (a number as its decimal text, absent when the member
/// is); the title, state and media key from their string members; the id
/// from `rest_id`, else the id asked for; replay from
/// `is_space_available_for_replay` (false unless it is `true`); the
/// listener count from `total_live_listeners`; the participant count from
/// the payload's `participants.total`, else the metadata's
/// `participant_count`.
pub proof fn lemma_space_fields(
    s: TwitterSpaceDetail,
    a: KuaishouJsonValue,
    m: KuaishouJsonValue,
    requested: Seq<char>,
)
    requires
        space_fields_from(s, a, m, requested),
    ensures
        time_from_member(m, "created_at"@, opt_text(s.created_at)),
        time_from_member(m, "started_at"@, opt_text(s.started_at)),
        time_from_member(m, "ended_at"@, opt_text(s.ended_at)),
        time_from_member(m, "scheduled_start"@, opt_text(s.scheduled_start)),
        follows_text_member(m, "title"@, opt_text(s.title)),
        follows_text_member(m, "state"@, opt_text(s.state)),
        follows_text_member(m, "media_key"@, opt_text(s.media_key)),
        has_text_member(m, "rest_id"@) ==> s.id@ == crate::text::trimmed(
            json_text(json_get(m, "rest_id"@))->0,
        ),
        json_get(m, "rest_id"@) is None ==> s.id@ == requested,
        json_get(m, "is_space_available_for_replay"@) == Some(KuaishouJsonValue::Bool(true))
            ==> s.replay_enabled,
        !(json_get(m, "is_space_available_for_replay"@) == Some(KuaishouJsonValue::Bool(true)))
            ==> !s.replay_enabled,
        s.total_live_listeners == value_u64(json_get(m, "total_live_listeners"@)),
        s.participant_count == match value_u64(crate::kuaishou::value::get_in(json_get(a, "participants"@), "total"@)) {
            Some(n) => Some(n),
            None => value_u64(json_get(m, "participant_count"@)),
        },
{
    lemma_one_key_path(m, "created_at"@);
    lemma_one_key_path(m, "started_at"@);
    lemma_one_key_path(m, "ended_at"@);
    lemma_one_key_path(m, "scheduled_start"@);
    lemma_one_key_path(m, "title"@);
    lemma_one_key_path(m, "state"@);
    lemma_one_key_path(m, "media_key"@);
    lemma_one_key_path(m, "rest_id"@);
    lemma_one_key_path(m, "is_space_available_for_replay"@);
    lemma_one_key_path(m, "total_live_listeners"@);
    lemma_one_key_path(m, "participant_count"@);
    reveal_with_fuel(json_path, 3);
    let pt = seq!["participants"@, "total"@];
    assert(pt[0] == "participants"@ && pt.drop_first() =~= seq!["total"@]);
    assert(seq!["total"@][0] == "total"@ && seq!["total"@].drop_first() =~= Seq::<Seq<char>>::empty());
    assert(spec_datetime_rfc3339(None) == None::<Seq<char>>);
}

} // verus!
