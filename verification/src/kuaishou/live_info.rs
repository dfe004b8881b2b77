//! The live block of a Kuaishou profile, read from the live detail and the
//! profile's author.

use vstd::prelude::*;

use crate::kuaishou::author::{
    flag_or, pick3, pick_of2, pick_of3, text_or, text_value_or, u64_or, u64_value_or,
    UserInfoView,
};
use crate::kuaishou::json::{json_get, KuaishouJsonObject, KuaishouJsonValue};
use crate::kuaishou::types::KuaishouUserProfileUserInfo;
use crate::kuaishou::value::{
    bool_value, copy_json, deref, empty_object, empty_record, get_in, ks_text, ks_u64, member,
    number_value, string_value,
};
use crate::text::{decimal, string_eq_str, u64_to_decimal};
use crate::twitter::values::{
    json_bool, json_tree, lemma_insert_tree, lemma_member_trees, member_trees, tree_set, JsonTree,
};

verus! {

/// The decimal text of a signed number.
pub open spec fn signed_decimal(i: i64) -> Seq<char> {
    if i < 0 {
        seq!['-'] + decimal((0 - i) as nat)
    } else {
        decimal(i as nat)
    }
}

/// The decimal text of a signed number (`to_string`).
pub fn i64_to_decimal(i: i64) -> (s: String)
    ensures
        s@ == signed_decimal(i),
{
    if i < 0 {
        let magnitude: u64 = if i == i64::MIN {
            9223372036854775808
        } else {
            (0 - i) as u64
        };
        let mut s = String::new();
        crate::text::push_char(&mut s, '-');
        s.append(u64_to_decimal(magnitude).as_str());
        s
    } else {
        u64_to_decimal(i as u64)
    }
}

/// A user info block as JSON, with the platform's member names.
pub open spec fn author_tree(v: UserInfoView) -> JsonTree {
    JsonTree::Record(
        seq![
            ("id"@, JsonTree::Text(v.id)),
            ("name"@, JsonTree::Text(v.name)),
            ("description"@, JsonTree::Text(v.description)),
            ("avatar"@, JsonTree::Text(v.avatar)),
            ("sex"@, JsonTree::Text(v.sex)),
            ("living"@, JsonTree::Bool(v.living)),
            ("followStatus"@, JsonTree::Text(v.follow_status)),
            ("constellation"@, JsonTree::Text(v.constellation)),
            ("cityName"@, JsonTree::Text(v.city_name)),
            ("originUserId"@, JsonTree::Number(decimal(v.origin_user_id as nat))),
            ("privacy"@, JsonTree::Bool(v.privacy)),
            ("isNew"@, JsonTree::Bool(v.is_new)),
            ("timestamp"@, JsonTree::Number(decimal(v.timestamp as nat))),
            ("verifiedStatus"@, verified_tree(v.verified)),
            ("bannedStatus"@, banned_tree(v.banned)),
            ("counts"@, v.counts),
        ],
    )
}

pub(crate) fn text_member(key: &str, value: String) -> (m: (String, KuaishouJsonValue))
    ensures
        m.0@ == key@,
        json_tree(m.1) == JsonTree::Text(value@),
{
    (key.to_owned(), KuaishouJsonValue::String(value))
}

pub(crate) fn bool_member(key: &str, value: bool) -> (m: (String, KuaishouJsonValue))
    ensures
        m.0@ == key@,
        json_tree(m.1) == JsonTree::Bool(value),
{
    (key.to_owned(), KuaishouJsonValue::Bool(value))
}

pub(crate) fn number_member(key: &str, text: String) -> (m: (String, KuaishouJsonValue))
    ensures
        m.0@ == key@,
        json_tree(m.1) == JsonTree::Number(text@),
{
    (key.to_owned(), KuaishouJsonValue::Number(text))
}

pub(crate) fn record(entries: Vec<(String, KuaishouJsonValue)>) -> (v: KuaishouJsonValue)
    ensures
        json_tree(v) == JsonTree::Record(member_trees(entries@)),
{
    KuaishouJsonValue::Object(KuaishouJsonObject { entries })
}

/// A verified status as JSON, with the platform's member names.
pub open spec fn verified_tree(v: crate::kuaishou::author::VerifiedView) -> JsonTree {
    JsonTree::Record(
        seq![
            ("verified"@, JsonTree::Bool(v.verified)),
            ("description"@, JsonTree::Text(v.description)),
            ("type"@, JsonTree::Number(signed_decimal(v.type_id))),
            ("new"@, JsonTree::Bool(v.is_new)),
            ("iconUrl"@, JsonTree::Text(v.icon_url)),
        ],
    )
}

/// A banned status as JSON, with the platform's member names.
pub open spec fn banned_tree(b: crate::kuaishou::types::KuaishouBannedStatus) -> JsonTree {
    JsonTree::Record(
        seq![
            ("banned"@, JsonTree::Bool(b.banned)),
            ("socialBanned"@, JsonTree::Bool(b.social_banned)),
            ("isolate"@, JsonTree::Bool(b.isolate)),
            ("defriend"@, JsonTree::Bool(b.defriend)),
        ],
    )
}

fn verified_json(status: &crate::kuaishou::types::KuaishouVerifiedStatus) -> (v: KuaishouJsonValue)
    ensures
        json_tree(v) == verified_tree(status@),
{
    let entries = vec![
        bool_member("verified", status.verified),
        text_member("description", status.description.clone()),
        number_member("type", i64_to_decimal(status.type_id)),
        bool_member("new", status.is_new),
        text_member("iconUrl", status.icon_url.clone()),
    ];
    proof {
        lemma_member_trees(entries@);
    }
    let ghost ms = verified_tree(status@)->Record_0;
    assert(member_trees(entries@) =~= ms);
    record(entries)
}

fn banned_json(status: &crate::kuaishou::types::KuaishouBannedStatus) -> (v: KuaishouJsonValue)
    ensures
        json_tree(v) == banned_tree(*status),
{
    let entries = vec![
        bool_member("banned", status.banned),
        bool_member("socialBanned", status.social_banned),
        bool_member("isolate", status.isolate),
        bool_member("defriend", status.defriend),
    ];
    proof {
        lemma_member_trees(entries@);
    }
    let ghost ms = banned_tree(*status)->Record_0;
    assert(member_trees(entries@) =~= ms);
    record(entries)
}

/// A user info block as JSON (see `author_tree`).
pub fn author_json(author: &KuaishouUserProfileUserInfo) -> (v: KuaishouJsonValue)
    ensures
        json_tree(v) == author_tree(author@),
{
    let entries = vec![
        text_member("id", author.id.clone()),
        text_member("name", author.name.clone()),
        text_member("description", author.description.clone()),
        text_member("avatar", author.avatar.clone()),
        text_member("sex", author.sex.clone()),
        bool_member("living", author.living),
        text_member("followStatus", author.follow_status.clone()),
        text_member("constellation", author.constellation.clone()),
        text_member("cityName", author.city_name.clone()),
        number_member("originUserId", u64_to_decimal(author.origin_user_id)),
        bool_member("privacy", author.privacy),
        bool_member("isNew", author.is_new),
        number_member("timestamp", u64_to_decimal(author.timestamp)),
        ("verifiedStatus".to_owned(), verified_json(&author.verified_status)),
        ("bannedStatus".to_owned(), banned_json(&author.banned_status)),
        ("counts".to_owned(), copy_json(&author.counts)),
    ];
    proof {
        lemma_member_trees(entries@);
    }
    let ghost ms = author_tree(author@)->Record_0;
    assert(member_trees(entries@) =~= ms);
    record(entries)
}

/// The live stream block of a live detail.
pub open spec fn stream_of(d: KuaishouJsonValue) -> Option<KuaishouJsonValue> {
    json_get(d, "liveStream"@)
}

/// The config block of a live detail.
pub open spec fn config_of(d: KuaishouJsonValue) -> Option<KuaishouJsonValue> {
    json_get(d, "config"@)
}

/// The live stream id of a live detail.
pub open spec fn live_stream_id_of(d: KuaishouJsonValue) -> Seq<char> {
    pick3(
        ks_text(get_in(stream_of(d), "id"@)),
        ks_text(get_in(config_of(d), "liveStreamId"@)),
        None,
    )
}

/// A value at one of three places, else a default.
pub open spec fn tree_or3(
    a: Option<KuaishouJsonValue>,
    b: Option<KuaishouJsonValue>,
    c: Option<KuaishouJsonValue>,
    default: JsonTree,
) -> JsonTree {
    match a {
        Some(x) => json_tree(x),
        None => match b {
            Some(x) => json_tree(x),
            None => match c {
                Some(x) => json_tree(x),
                None => default,
            },
        },
    }
}

/// The members of the live block: the live detail's members with the
/// normalized fields set, in order.
pub open spec fn live_info_members(d: KuaishouJsonValue, author: UserInfoView) -> Seq<(Seq<char>, JsonTree)> {
    let ls = stream_of(d);
    let cfg = config_of(d);
    let base = match d {
        KuaishouJsonValue::Object(o) => member_trees(o.entries@),
        _ => seq![],
    };
    let id = live_stream_id_of(d);
    let m1 = tree_set(base, "id"@, JsonTree::Text(id));
    let m2 = tree_set(
        m1,
        "poster"@,
        JsonTree::Text(
            pick3(
                ks_text(get_in(ls, "poster"@)),
                ks_text(get_in(cfg, "coverUrl"@)),
                ks_text(get_in(cfg, "rtCoverUrl"@)),
            ),
        ),
    );
    let m3 = tree_set(
        m2,
        "playUrls"@,
        tree_or3(
            get_in(ls, "playUrls"@),
            get_in(cfg, "multiResolutionPlayUrls"@),
            None,
            JsonTree::List(seq![]),
        ),
    );
    let m4 = tree_set(
        m3,
        "caption"@,
        JsonTree::Text(pick3(ks_text(get_in(cfg, "caption"@)), ks_text(json_get(d, "caption"@)), None)),
    );
    let m5 = tree_set(
        m4,
        "statrtTime"@,
        JsonTree::Number(
            decimal(
                u64_or(
                    ks_u64(json_get(d, "startTime"@)),
                    u64_or(
                        ks_u64(get_in(cfg, "startTime"@)),
                        u64_or(ks_u64(get_in(ls, "startTime"@)), 0),
                    ),
                ) as nat,
            ),
        ),
    );
    let m6 = tree_set(m5, "author"@, author_tree(author));
    let m7 = tree_set(m6, "gameInfo"@, tree_or3(json_get(d, "gameInfo"@), None, None, empty_record()));
    let m8 = tree_set(
        m7,
        "hasRedPack"@,
        JsonTree::Bool(
            flag_or(
                json_bool(json_get(d, "hasRedPack"@)),
                flag_or(json_bool(get_in(cfg, "hasRedPack"@)), false),
            ),
        ),
    );
    let m9 = tree_set(
        m8,
        "hasBet"@,
        JsonTree::Bool(
            flag_or(
                json_bool(json_get(d, "hasBet"@)),
                flag_or(json_bool(get_in(cfg, "hasBet"@)), false),
            ),
        ),
    );
    let m10 = tree_set(m9, "followed"@, JsonTree::Bool(author.follow_status == "FOLLOWING"@));
    let m11 = tree_set(
        m10,
        "expTag"@,
        JsonTree::Text(pick3(ks_text(get_in(ls, "expTag"@)), ks_text(get_in(cfg, "expTag"@)), None)),
    );
    let m12 = tree_set(
        m11,
        "hotIcon"@,
        JsonTree::Text(pick3(ks_text(get_in(cfg, "hotIcon"@)), ks_text(json_get(d, "hotIcon"@)), None)),
    );
    let m13 = tree_set(
        m12,
        "living"@,
        JsonTree::Bool(flag_or(json_bool(json_get(d, "isLiving"@)), id.len() > 0)),
    );
    let m14 = tree_set(
        m13,
        "quality"@,
        JsonTree::Text(text_or(ks_text(get_in(cfg, "quality"@)), seq![])),
    );
    let m15 = tree_set(
        m14,
        "qualityLabel"@,
        JsonTree::Text(text_or(ks_text(get_in(cfg, "qualityLabel"@)), seq![])),
    );
    let m16 = tree_set(
        m15,
        "watchingCount"@,
        tree_or3(
            get_in(cfg, "watchingCount"@),
            json_get(d, "watchingCount"@),
            get_in(json_get(d, "gameInfo"@), "watchingCount"@),
            JsonTree::Text(seq![]),
        ),
    );
    let m17 = tree_set(
        m16,
        "landscape"@,
        JsonTree::Bool(flag_or(json_bool(get_in(cfg, "landscape"@)), false)),
    );
    let m18 = tree_set(
        m17,
        "likeCount"@,
        tree_or3(
            get_in(cfg, "likeCount"@),
            json_get(d, "likeCount"@),
            None,
            JsonTree::Text(seq![]),
        ),
    );
    tree_set(m18, "type"@, JsonTree::Text(text_or(ks_text(get_in(ls, "type"@)), "live"@)))
}

pub(crate) fn set_member(object: &mut KuaishouJsonObject, key: &str, value: KuaishouJsonValue)
    ensures
        member_trees(final(object).entries@) == tree_set(
            member_trees(old(object).entries@),
            key@,
            json_tree(value),
        ),
{
    let ghost before = *object;
    let ghost v = value;
    object.insert(key, value);
    proof {
        lemma_insert_tree(before, *object, key@, v);
    }
}

pub(crate) fn copy_or(
    a: Option<&KuaishouJsonValue>,
    b: Option<&KuaishouJsonValue>,
    c: Option<&KuaishouJsonValue>,
    default: KuaishouJsonValue,
) -> (v: KuaishouJsonValue)
    ensures
        json_tree(v) == tree_or3(deref(a), deref(b), deref(c), json_tree(default)),
{
    match a {
        Some(x) => copy_json(x),
        None => match b {
            Some(x) => copy_json(x),
            None => match c {
                Some(x) => copy_json(x),
                None => default,
            },
        },
    }
}

/// The live block of a profile: the live detail with its normalized
/// fields set (see `live_info_members`).
pub fn map_live_detail_to_user_profile_live_info(
    detail_data: &KuaishouJsonValue,
    author: &KuaishouUserProfileUserInfo,
) -> (info: KuaishouJsonValue)
    requires
        detail_data is Object,
    ensures
        json_tree(info) == JsonTree::Record(live_info_members(*detail_data, author@)),
{
    let d = Some(detail_data);
    let ls = member(d, "liveStream");
    let cfg = member(d, "config");
    let mut object = match copy_json(detail_data) {
        KuaishouJsonValue::Object(o) => o,
        _ => {
            proof {
                assert(false);
            }
            KuaishouJsonObject::new()
        },
    };
    let live_stream_id = pick_of2(string_value(member(ls, "id")), string_value(member(cfg, "liveStreamId")));
    let has_id = !live_stream_id.as_str().is_empty();
    set_member(&mut object, "id", KuaishouJsonValue::String(live_stream_id));
    let poster = pick_of3(
        string_value(member(ls, "poster")),
        string_value(member(cfg, "coverUrl")),
        string_value(member(cfg, "rtCoverUrl")),
    );
    set_member(&mut object, "poster", KuaishouJsonValue::String(poster));
    let no_urls = KuaishouJsonValue::Array(Vec::new());
    assert(json_tree(no_urls) =~= JsonTree::List(seq![]));
    set_member(
        &mut object,
        "playUrls",
        copy_or(member(ls, "playUrls"), member(cfg, "multiResolutionPlayUrls"), None, no_urls),
    );
    let caption = pick_of2(string_value(member(cfg, "caption")), string_value(member(d, "caption")));
    set_member(&mut object, "caption", KuaishouJsonValue::String(caption));
    let start_time = u64_value_or(
        number_value(member(d, "startTime")),
        u64_value_or(
            number_value(member(cfg, "startTime")),
            u64_value_or(number_value(member(ls, "startTime")), 0),
        ),
    );
    set_member(&mut object, "statrtTime", KuaishouJsonValue::Number(u64_to_decimal(start_time)));
    set_member(&mut object, "author", author_json(author));
    set_member(&mut object, "gameInfo", copy_or(member(d, "gameInfo"), None, None, empty_object()));
    let has_red_pack = match bool_value(member(d, "hasRedPack")) {
        Some(b) => b,
        None => match bool_value(member(cfg, "hasRedPack")) {
            Some(b) => b,
            None => false,
        },
    };
    set_member(&mut object, "hasRedPack", KuaishouJsonValue::Bool(has_red_pack));
    let has_bet = match bool_value(member(d, "hasBet")) {
        Some(b) => b,
        None => match bool_value(member(cfg, "hasBet")) {
            Some(b) => b,
            None => false,
        },
    };
    set_member(&mut object, "hasBet", KuaishouJsonValue::Bool(has_bet));
    let followed = string_eq_str(&author.follow_status, "FOLLOWING");
    set_member(&mut object, "followed", KuaishouJsonValue::Bool(followed));
    let exp_tag = pick_of2(string_value(member(ls, "expTag")), string_value(member(cfg, "expTag")));
    set_member(&mut object, "expTag", KuaishouJsonValue::String(exp_tag));
    let hot_icon = pick_of2(string_value(member(cfg, "hotIcon")), string_value(member(d, "hotIcon")));
    set_member(&mut object, "hotIcon", KuaishouJsonValue::String(hot_icon));
    let living = match bool_value(member(d, "isLiving")) {
        Some(b) => b,
        None => has_id,
    };
    set_member(&mut object, "living", KuaishouJsonValue::Bool(living));
    let quality = text_value_or(string_value(member(cfg, "quality")), String::new());
    set_member(&mut object, "quality", KuaishouJsonValue::String(quality));
    let quality_label = text_value_or(string_value(member(cfg, "qualityLabel")), String::new());
    set_member(&mut object, "qualityLabel", KuaishouJsonValue::String(quality_label));
    set_member(
        &mut object,
        "watchingCount",
        copy_or(
            member(cfg, "watchingCount"),
            member(d, "watchingCount"),
            member(member(d, "gameInfo"), "watchingCount"),
            KuaishouJsonValue::String(String::new()),
        ),
    );
    let landscape = match bool_value(member(cfg, "landscape")) {
        Some(b) => b,
        None => false,
    };
    set_member(&mut object, "landscape", KuaishouJsonValue::Bool(landscape));
    set_member(
        &mut object,
        "likeCount",
        copy_or(member(cfg, "likeCount"), member(d, "likeCount"), None, KuaishouJsonValue::String(String::new())),
    );
    let live_type = text_value_or(string_value(member(ls, "type")), "live".to_owned());
    set_member(&mut object, "type", KuaishouJsonValue::String(live_type));
    KuaishouJsonValue::Object(object)
}

} // verus!
