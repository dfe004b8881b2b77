//! A user's work list read from a `profile/public` answer, and the data
//! parts of the answers a profile page is assembled from.

use vstd::prelude::*;

use crate::kuaishou::json::{KuaishouJsonObject, KuaishouJsonValue};
use crate::kuaishou::profile::KuaishouUserProfileSources;
use crate::kuaishou::types::KuaishouUserWorkList;
use crate::kuaishou::value::{copy_json, copy_json_items, deref, get_in, is_object, member};
use crate::text::{parse_i64, spec_parse_i64, string_eq_str};
use crate::twitter::values::{json_tree, json_trees, member_trees, JsonTree};

verus! {

/// Member `key` of the answer's `data` object when it holds one, else
/// member `fallback` of the answer itself.
pub open spec fn data_member_or(
    payload: KuaishouJsonValue,
    key: Seq<char>,
    fallback: Seq<char>,
) -> Option<KuaishouJsonValue> {
    let data = get_in(Some(payload), "data"@);
    let inner = if is_object(data) {
        get_in(data, key)
    } else {
        None
    };
    match inner {
        Some(v) => Some(v),
        None => get_in(Some(payload), fallback),
    }
}

/// The page's cursor: the string at `pcursor`, else empty.
pub open spec fn work_list_cursor(payload: KuaishouJsonValue) -> Seq<char> {
    match data_member_or(payload, "pcursor"@, "pcursor"@) {
        Some(KuaishouJsonValue::String(s)) => s@,
        _ => Seq::empty(),
    }
}

/// Whether more pages follow: the flag at `hasMore`, else whether the
/// cursor is neither empty nor `no_more`.
pub open spec fn work_list_has_more(payload: KuaishouJsonValue) -> bool {
    match data_member_or(payload, "hasMore"@, "hasMore"@) {
        Some(KuaishouJsonValue::Bool(b)) => b,
        _ => work_list_cursor(payload).len() > 0 && work_list_cursor(payload) != "no_more"@,
    }
}

/// The result code: the integer at `result`, else 0.
pub open spec fn work_list_result(payload: KuaishouJsonValue) -> i64 {
    match data_member_or(payload, "result"@, "result"@) {
        Some(KuaishouJsonValue::Number(n)) => match spec_parse_i64(n@) {
            Some(r) => r,
            None => 0,
        },
        _ => 0,
    }
}

/// The works: the array at `data.list`, else at `feeds`, else none.
pub open spec fn work_list_items(payload: KuaishouJsonValue) -> Seq<JsonTree> {
    match data_member_or(payload, "list"@, "feeds"@) {
        Some(KuaishouJsonValue::Array(items)) => json_trees(items@),
        _ => Seq::empty(),
    }
}

/// A work list page reads its answer's `data` object: the cursor from its
/// `pcursor` string, whether more pages follow from its `hasMore` flag
/// (without a flag anywhere, whether the cursor is neither empty nor
/// `no_more`), and the works from its `list` array, in order.
pub proof fn lemma_work_list_page(payload: KuaishouJsonValue, data: KuaishouJsonValue)
    requires
        get_in(Some(payload), "data"@) == Some(data),
        data is Object,
    ensures
        get_in(Some(data), "pcursor"@) matches Some(KuaishouJsonValue::String(c)) ==> work_list_cursor(
            payload,
        ) == c@,
        get_in(Some(data), "hasMore"@) == Some(KuaishouJsonValue::Bool(true)) ==> work_list_has_more(
            payload,
        ),
        get_in(Some(data), "hasMore"@) == Some(KuaishouJsonValue::Bool(false)) ==> !work_list_has_more(
            payload,
        ),
        get_in(Some(data), "hasMore"@) is None && get_in(Some(payload), "hasMore"@) is None ==> (
        work_list_has_more(payload) <==> (work_list_cursor(payload).len() > 0 && work_list_cursor(
            payload,
        ) != "no_more"@)),
        get_in(Some(data), "list"@) matches Some(KuaishouJsonValue::Array(items)) ==> work_list_items(
            payload,
        ) == json_trees(items@),
{
}

fn data_member_or_exec<'a>(payload: &'a KuaishouJsonValue, key: &str, fallback: &str) -> (r: Option<
    &'a KuaishouJsonValue,
>)
    ensures
        deref(r) == data_member_or(*payload, key@, fallback@),
{
    let data = member(Some(payload), "data");
    let inner = match data {
        Some(KuaishouJsonValue::Object(_)) => member(data, key),
        _ => None,
    };
    match inner {
        Some(v) => Some(v),
        None => member(Some(payload), fallback),
    }
}

/// The work list of a `profile/public` answer (see `work_list_items`,
/// `work_list_cursor`, `work_list_has_more` and `work_list_result`), with
/// the given upstream snapshot.
pub fn resolve_kuaishou_user_work_list(
    principal_id: &str,
    payload: &KuaishouJsonValue,
    upstream_payload: KuaishouJsonValue,
) -> (list: KuaishouUserWorkList)
    ensures
        list.principal_id@ == principal_id@,
        json_trees(list.list@) == work_list_items(*payload),
        list.pcursor@ == work_list_cursor(*payload),
        list.has_more == work_list_has_more(*payload),
        list.result == work_list_result(*payload),
        list.upstream_payload == upstream_payload,
{
    let items = match data_member_or_exec(payload, "list", "feeds") {
        Some(v) => match v {
            KuaishouJsonValue::Array(items) => copy_json_items(v, items),
            _ => Vec::new(),
        },
        None => Vec::new(),
    };
    let pcursor = match data_member_or_exec(payload, "pcursor", "pcursor") {
        Some(KuaishouJsonValue::String(s)) => s.clone(),
        _ => String::new(),
    };
    let has_more = match data_member_or_exec(payload, "hasMore", "hasMore") {
        Some(KuaishouJsonValue::Bool(b)) => *b,
        _ => !pcursor.as_str().is_empty() && !string_eq_str(&pcursor, "no_more"),
    };
    let result = match data_member_or_exec(payload, "result", "result") {
        Some(KuaishouJsonValue::Number(n)) => match parse_i64(n.as_str()) {
            Some(r) => r,
            None => 0,
        },
        _ => 0,
    };
    assert(Seq::<JsonTree>::empty() =~= json_trees(Seq::<KuaishouJsonValue>::empty()));
    KuaishouUserWorkList {
        principal_id: principal_id.to_owned(),
        list: items,
        pcursor,
        has_more,
        result,
        upstream_payload,
    }
}

/// The data part of an answer: its `data` member, else the whole answer.
pub open spec fn data_part(payload: KuaishouJsonValue) -> KuaishouJsonValue {
    match get_in(Some(payload), "data"@) {
        Some(d) => d,
        None => payload,
    }
}

/// A copy of the data part of an answer (see `data_part`).
pub fn data_payload(payload: &KuaishouJsonValue) -> (out: KuaishouJsonValue)
    ensures
        json_tree(out) == json_tree(data_part(*payload)),
{
    match member(Some(payload), "data") {
        Some(d) => copy_json(d),
        None => copy_json(payload),
    }
}

/// One member for an answer that was received, none otherwise.
pub open spec fn snapshot_member(key: Seq<char>, payload: Option<&KuaishouJsonValue>) -> Seq<
    (Seq<char>, JsonTree),
> {
    match payload {
        Some(p) => seq![(key, json_tree(data_part(*p)))],
        None => Seq::empty(),
    }
}

/// The data parts of a profile page's answers as one object: `user_info`,
/// then each answer that was received under its name.
pub open spec fn profile_snapshot(s: KuaishouUserProfileSources) -> JsonTree {
    JsonTree::Record(
        seq![("user_info"@, json_tree(data_part(*s.user_info_payload)))] + snapshot_member(
            "sensitive"@,
            s.sensitive_payload,
        ) + snapshot_member("public"@, s.public_payload) + snapshot_member(
            "private"@,
            s.private_payload,
        ) + snapshot_member("liked"@, s.liked_payload) + snapshot_member(
            "playback"@,
            s.playback_payload,
        ) + snapshot_member("interest_list"@, s.interest_list_payload) + snapshot_member(
            "interest_mask"@,
            s.interest_mask_payload,
        ) + snapshot_member("category_config"@, s.category_config_payload) + snapshot_member(
            "category_data"@,
            s.category_data_payload,
        ) + snapshot_member("category_classify"@, s.category_classify_payload)
            + snapshot_member("live_detail"@, s.live_detail_payload),
    )
}

pub(crate) fn push_snapshot(
    entries: &mut Vec<(String, KuaishouJsonValue)>,
    key: &str,
    payload: Option<&KuaishouJsonValue>,
)
    ensures
        member_trees(final(entries)@) == member_trees(old(entries)@) + snapshot_member(key@, payload),
{
    match payload {
        Some(p) => {
            let ghost before = entries@;
            entries.push((key.to_owned(), data_payload(p)));
            assert(entries@.drop_last() =~= before);
        },
        None => {
            assert(member_trees(entries@) =~= member_trees(entries@) + Seq::<
                (Seq<char>, JsonTree),
            >::empty());
        },
    }
}

/// The data parts of a profile page's answers as one object (see
/// `profile_snapshot`).
pub fn profile_upstream_snapshot(sources: &KuaishouUserProfileSources) -> (out: KuaishouJsonValue)
    ensures
        json_tree(out) == profile_snapshot(*sources),
{
    let mut entries: Vec<(String, KuaishouJsonValue)> = Vec::new();
    push_snapshot(&mut entries, "user_info", Some(sources.user_info_payload));
    push_snapshot(&mut entries, "sensitive", sources.sensitive_payload);
    push_snapshot(&mut entries, "public", sources.public_payload);
    push_snapshot(&mut entries, "private", sources.private_payload);
    push_snapshot(&mut entries, "liked", sources.liked_payload);
    push_snapshot(&mut entries, "playback", sources.playback_payload);
    push_snapshot(&mut entries, "interest_list", sources.interest_list_payload);
    push_snapshot(&mut entries, "interest_mask", sources.interest_mask_payload);
    push_snapshot(&mut entries, "category_config", sources.category_config_payload);
    push_snapshot(&mut entries, "category_data", sources.category_data_payload);
    push_snapshot(&mut entries, "category_classify", sources.category_classify_payload);
    push_snapshot(&mut entries, "live_detail", sources.live_detail_payload);
    let out = KuaishouJsonValue::Object(KuaishouJsonObject { entries });
    assert(json_tree(out) =~= profile_snapshot(*sources)) by {
        assert(member_trees(Seq::<(String, KuaishouJsonValue)>::empty()) =~= Seq::empty());
    }
    out
}

} // verus!
