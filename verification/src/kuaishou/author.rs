//! The author block of a Kuaishou profile, merged from the live detail's
//! author, the user info and the sensitive user info.

use vstd::prelude::*;

use crate::kuaishou::json::KuaishouJsonValue;
use crate::kuaishou::support::{first_non_empty, pick_first_non_empty_string};
use crate::kuaishou::types::{
    KuaishouBannedStatus, KuaishouFollowButtonState, KuaishouFollowState,
    KuaishouUserProfileUserInfo, KuaishouVerifiedStatus,
};
use crate::kuaishou::value::{
    bool_value, deref, empty_object, empty_record, get_in, i64_value, is_populated,
    is_populated_object, ks_i64, ks_text, ks_u64, member, number_value, object_or_empty,
    string_value,
};
use crate::text::trimmed;
use crate::twitter::transport::opt_text;
use crate::twitter::values::{json_bool, json_tree, JsonTree};

verus! {

/// Whether an optional text holds more than whitespace.
pub open spec fn non_blank(t: Option<Seq<char>>) -> bool {
    t matches Some(s) && trimmed(s).len() > 0
}

/// The first of three optional texts with more than whitespace (as it
/// is), else empty.
pub open spec fn pick3(a: Option<Seq<char>>, b: Option<Seq<char>>, c: Option<Seq<char>>) -> Seq<char> {
    if non_blank(a) {
        a.unwrap()
    } else if non_blank(b) {
        b.unwrap()
    } else if non_blank(c) {
        c.unwrap()
    } else {
        seq![]
    }
}

proof fn lemma_pick3(x: Option<String>, y: Option<String>, z: Option<String>)
    ensures
        first_non_empty(seq![x, y, z]) == pick3(opt_text(x), opt_text(y), opt_text(z)),
{
    reveal_with_fuel(first_non_empty, 4);
    assert(seq![x, y, z].drop_first() =~= seq![y, z]);
    assert(seq![y, z].drop_first() =~= seq![z]);
    assert(seq![z].drop_first() =~= Seq::<Option<String>>::empty());
}

proof fn lemma_pick2(x: Option<String>, y: Option<String>)
    ensures
        first_non_empty(seq![x, y]) == pick3(opt_text(x), opt_text(y), None),
{
    reveal_with_fuel(first_non_empty, 3);
    assert(seq![x, y].drop_first() =~= seq![y]);
    assert(seq![y].drop_first() =~= Seq::<Option<String>>::empty());
}

pub(crate) fn pick_of3(a: Option<String>, b: Option<String>, c: Option<String>) -> (s: String)
    ensures
        s@ == pick3(opt_text(a), opt_text(b), opt_text(c)),
{
    let values = [a, b, c];
    proof {
        lemma_pick3(values@[0], values@[1], values@[2]);
        assert(values@ =~= seq![values@[0], values@[1], values@[2]]);
    }
    pick_first_non_empty_string(&values)
}

pub(crate) fn pick_of2(a: Option<String>, b: Option<String>) -> (s: String)
    ensures
        s@ == pick3(opt_text(a), opt_text(b), None),
{
    let values = [a, b];
    proof {
        lemma_pick2(values@[0], values@[1]);
        assert(values@ =~= seq![values@[0], values@[1]]);
    }
    pick_first_non_empty_string(&values)
}

/// An optional text, else a fallback.
pub open spec fn text_or(t: Option<Seq<char>>, fallback: Seq<char>) -> Seq<char> {
    match t {
        Some(x) => x,
        None => fallback,
    }
}

/// An optional flag, else a fallback.
pub open spec fn flag_or(b: Option<bool>, fallback: bool) -> bool {
    match b {
        Some(x) => x,
        None => fallback,
    }
}

/// An optional number, else a fallback.
pub open spec fn u64_or(n: Option<u64>, fallback: u64) -> u64 {
    match n {
        Some(x) => x,
        None => fallback,
    }
}

/// A verified status as plain values.
#[verifier::ext_equal]
pub struct VerifiedView {
    /// Whether the account is verified.
    pub verified: bool,
    /// Verification description.
    pub description: Seq<char>,
    /// Verification type id.
    pub type_id: i64,
    /// Whether the verification is new.
    pub is_new: bool,
    /// Verification icon URL.
    pub icon_url: Seq<char>,
}

impl View for KuaishouVerifiedStatus {
    type V = VerifiedView;

    open spec fn view(&self) -> VerifiedView {
        VerifiedView {
            verified: self.verified,
            description: self.description@,
            type_id: self.type_id,
            is_new: self.is_new,
            icon_url: self.icon_url@,
        }
    }
}

/// The verified status read from a status block and a verification detail
/// block: each field from the status, else from the detail.
pub open spec fn verified_of(value: Option<KuaishouJsonValue>, detail: Option<KuaishouJsonValue>) -> VerifiedView {
    VerifiedView {
        verified: flag_or(
            json_bool(get_in(value, "verified"@)),
            flag_or(
                json_bool(get_in(detail, "verified"@)),
                flag_or(json_bool(get_in(detail, "newVerified"@)), false),
            ),
        ),
        description: text_or(
            ks_text(get_in(value, "description"@)),
            text_or(ks_text(get_in(detail, "description"@)), seq![]),
        ),
        type_id: match ks_i64(get_in(value, "type"@)) {
            Some(t) => t,
            None => match ks_i64(get_in(detail, "type"@)) {
                Some(t) => t,
                None => 0,
            },
        },
        is_new: flag_or(
            json_bool(get_in(value, "new"@)),
            flag_or(json_bool(get_in(detail, "newVerified"@)), false),
        ),
        icon_url: text_or(
            ks_text(get_in(value, "iconUrl"@)),
            text_or(ks_text(get_in(detail, "iconUrl"@)), seq![]),
        ),
    }
}

pub(crate) fn text_value_or(v: Option<String>, fallback: String) -> (s: String)
    ensures
        s@ == text_or(opt_text(v), fallback@),
{
    match v {
        Some(x) => x,
        None => fallback,
    }
}

/// Read a verified status from a status block and a verification detail
/// block.
pub fn verified_status_from_value(
    value: Option<&KuaishouJsonValue>,
    verified_detail: Option<&KuaishouJsonValue>,
) -> (status: KuaishouVerifiedStatus)
    ensures
        status@ == verified_of(deref(value), deref(verified_detail)),
{
    let verified = match bool_value(member(value, "verified")) {
        Some(b) => b,
        None => match bool_value(member(verified_detail, "verified")) {
            Some(b) => b,
            None => match bool_value(member(verified_detail, "newVerified")) {
                Some(b) => b,
                None => false,
            },
        },
    };
    let description = text_value_or(
        string_value(member(value, "description")),
        text_value_or(string_value(member(verified_detail, "description")), String::new()),
    );
    let type_id = match i64_value(member(value, "type")) {
        Some(t) => t,
        None => match i64_value(member(verified_detail, "type")) {
            Some(t) => t,
            None => 0,
        },
    };
    let is_new = match bool_value(member(value, "new")) {
        Some(b) => b,
        None => match bool_value(member(verified_detail, "newVerified")) {
            Some(b) => b,
            None => false,
        },
    };
    let icon_url = text_value_or(
        string_value(member(value, "iconUrl")),
        text_value_or(string_value(member(verified_detail, "iconUrl")), String::new()),
    );
    let status = KuaishouVerifiedStatus { verified, description, type_id, is_new, icon_url };
    assert(status@ =~= verified_of(deref(value), deref(verified_detail)));
    status
}

/// The banned status read from a status block, each flag `false` when
/// absent.
pub open spec fn banned_of(value: Option<KuaishouJsonValue>) -> KuaishouBannedStatus {
    KuaishouBannedStatus {
        banned: flag_or(json_bool(get_in(value, "banned"@)), false),
        social_banned: flag_or(json_bool(get_in(value, "socialBanned"@)), false),
        isolate: flag_or(json_bool(get_in(value, "isolate"@)), false),
        defriend: flag_or(json_bool(get_in(value, "defriend"@)), false),
    }
}

pub(crate) fn flag_at(value: Option<&KuaishouJsonValue>, key: &str) -> (b: bool)
    ensures
        b == flag_or(json_bool(get_in(deref(value), key@)), false),
{
    match bool_value(member(value, key)) {
        Some(b) => b,
        None => false,
    }
}

/// Read a banned status from a status block.
pub fn banned_status_from_value(value: Option<&KuaishouJsonValue>) -> (status: KuaishouBannedStatus)
    ensures
        status == banned_of(deref(value)),
{
    KuaishouBannedStatus {
        banned: flag_at(value, "banned"),
        social_banned: flag_at(value, "socialBanned"),
        isolate: flag_at(value, "isolate"),
        defriend: flag_at(value, "defriend"),
    }
}

/// A user info block as plain values.
#[verifier::ext_equal]
pub struct UserInfoView {
    /// Author id.
    pub id: Seq<char>,
    /// Display name.
    pub name: Seq<char>,
    /// Description.
    pub description: Seq<char>,
    /// Avatar URL.
    pub avatar: Seq<char>,
    /// Sex label.
    pub sex: Seq<char>,
    /// Whether the author is living.
    pub living: bool,
    /// Follow status.
    pub follow_status: Seq<char>,
    /// Constellation label.
    pub constellation: Seq<char>,
    /// City name.
    pub city_name: Seq<char>,
    /// Original numeric user id.
    pub origin_user_id: u64,
    /// Whether the profile is private.
    pub privacy: bool,
    /// Whether the profile is new.
    pub is_new: bool,
    /// Platform timestamp.
    pub timestamp: u64,
    /// Verified status.
    pub verified: VerifiedView,
    /// Banned status.
    pub banned: KuaishouBannedStatus,
    /// Counts object.
    pub counts: JsonTree,
}

impl View for KuaishouUserProfileUserInfo {
    type V = UserInfoView;

    open spec fn view(&self) -> UserInfoView {
        UserInfoView {
            id: self.id@,
            name: self.name@,
            description: self.description@,
            avatar: self.avatar@,
            sex: self.sex@,
            living: self.living,
            follow_status: self.follow_status@,
            constellation: self.constellation@,
            city_name: self.city_name@,
            origin_user_id: self.origin_user_id,
            privacy: self.privacy,
            is_new: self.is_new,
            timestamp: self.timestamp,
            verified: self.verified_status@,
            banned: self.banned_status,
            counts: json_tree(self.counts),
        }
    }
}

/// The counts object of a block: a copy when it has members, else empty.
pub open spec fn counts_of(v: Option<KuaishouJsonValue>) -> JsonTree {
    if is_populated(v) {
        json_tree(v.unwrap())
    } else {
        empty_record()
    }
}

/// The user info read from a live detail's author block: each text the
/// first non-blank of its spellings, the follow status from
/// `followStatus`, else from `following`.
pub open spec fn live_author_of(a: Option<KuaishouJsonValue>) -> UserInfoView {
    UserInfoView {
        id: pick3(
            ks_text(get_in(a, "id"@)),
            ks_text(get_in(a, "principalId"@)),
            ks_text(get_in(a, "kwaiId"@)),
        ),
        name: pick3(ks_text(get_in(a, "name"@)), ks_text(get_in(a, "user_name"@)), None),
        description: pick3(
            ks_text(get_in(a, "description"@)),
            ks_text(get_in(a, "user_text"@)),
            None,
        ),
        avatar: pick3(ks_text(get_in(a, "avatar"@)), ks_text(get_in(a, "headurl"@)), None),
        sex: pick3(ks_text(get_in(a, "sex"@)), ks_text(get_in(a, "user_sex"@)), None),
        living: flag_or(
            json_bool(get_in(a, "living"@)),
            flag_or(json_bool(get_in(a, "live"@)), false),
        ),
        follow_status: match ks_text(get_in(a, "followStatus"@)) {
            Some(s) => s,
            None => if flag_or(json_bool(get_in(a, "following"@)), false) {
                "FOLLOWING"@
            } else {
                "UN_FOLLOWED"@
            },
        },
        constellation: text_or(ks_text(get_in(a, "constellation"@)), seq![]),
        city_name: text_or(ks_text(get_in(a, "cityName"@)), seq![]),
        origin_user_id: u64_or(
            ks_u64(get_in(a, "originUserId"@)),
            u64_or(ks_u64(get_in(a, "user_id"@)), 0),
        ),
        privacy: flag_or(json_bool(get_in(a, "privacy"@)), false),
        is_new: flag_or(json_bool(get_in(a, "isNew"@)), false),
        timestamp: u64_or(ks_u64(get_in(a, "timestamp"@)), 0),
        verified: verified_of(get_in(a, "verifiedStatus"@), get_in(a, "verifiedDetail"@)),
        banned: banned_of(get_in(a, "bannedStatus"@)),
        counts: counts_of(get_in(a, "counts"@)),
    }
}

/// The member `key` of the block is a string with more than whitespace.
pub open spec fn has_string(a: Option<KuaishouJsonValue>, key: Seq<char>) -> bool {
    get_in(a, key) matches Some(KuaishouJsonValue::String(s)) && trimmed(s@).len() > 0
}

/// The text of the string member `key` of the block.
pub open spec fn string_of(a: Option<KuaishouJsonValue>, key: Seq<char>) -> Seq<char> {
    match get_in(a, key) {
        Some(KuaishouJsonValue::String(s)) => s@,
        _ => seq![],
    }
}

/// `field` is the text of the first of the members `first`, `second` that
/// is present: a non-blank string `first` as it is; with no `first`, a
/// non-blank string `second` as it is; with neither, empty.
pub open spec fn first_text_of(
    a: Option<KuaishouJsonValue>,
    first: Seq<char>,
    second: Seq<char>,
    field: Seq<char>,
) -> bool {
    &&& has_string(a, first) ==> field == string_of(a, first)
    &&& (get_in(a, first) is None && has_string(a, second)) ==> field == string_of(a, second)
    &&& (get_in(a, first) is None && get_in(a, second) is None) ==> field == Seq::<char>::empty()
}

/// `field` is the flag `key` of the block, false without one.
pub open spec fn flag_of(a: Option<KuaishouJsonValue>, key: Seq<char>, field: bool) -> bool {
    &&& get_in(a, key) == Some(KuaishouJsonValue::Bool(true)) ==> field
    &&& get_in(a, key) == Some(KuaishouJsonValue::Bool(false)) ==> !field
}

/// Each field of a live author comes from the block's own spellings of
/// it, in order: the id from `id`, then `principalId`, then `kwaiId`; the
/// name from `name`, then `user_name`; the description from
/// `description`, then `user_text`; the avatar from `avatar`, then
/// `headurl`; the sex from `sex`, then `user_sex`; the follow status from
/// `followStatus`, else `FOLLOWING` when `following` is true and
/// `UN_FOLLOWED` otherwise; the flags from their members, false without
/// them.
pub proof fn lemma_live_author_fields(a: Option<KuaishouJsonValue>)
    ensures
        has_string(a, "id"@) ==> live_author_of(a).id == string_of(a, "id"@),
        get_in(a, "id"@) is None && has_string(a, "principalId"@) ==> live_author_of(a).id
            == string_of(a, "principalId"@),
        get_in(a, "id"@) is None && get_in(a, "principalId"@) is None && has_string(a, "kwaiId"@)
            ==> live_author_of(a).id == string_of(a, "kwaiId"@),
        get_in(a, "id"@) is None && get_in(a, "principalId"@) is None && get_in(a, "kwaiId"@) is None
            ==> live_author_of(a).id == Seq::<char>::empty(),
        first_text_of(a, "name"@, "user_name"@, live_author_of(a).name),
        first_text_of(a, "description"@, "user_text"@, live_author_of(a).description),
        first_text_of(a, "avatar"@, "headurl"@, live_author_of(a).avatar),
        first_text_of(a, "sex"@, "user_sex"@, live_author_of(a).sex),
        get_in(a, "followStatus"@) matches Some(KuaishouJsonValue::String(s)) ==> live_author_of(
            a,
        ).follow_status == s@,
        get_in(a, "followStatus"@) is None && get_in(a, "following"@) == Some(
            KuaishouJsonValue::Bool(true),
        ) ==> live_author_of(a).follow_status == "FOLLOWING"@,
        get_in(a, "followStatus"@) is None && get_in(a, "following"@) is None ==> live_author_of(
            a,
        ).follow_status == "UN_FOLLOWED"@,
        flag_of(a, "living"@, live_author_of(a).living),
        get_in(a, "living"@) is None ==> flag_of(a, "live"@, live_author_of(a).living),
        flag_of(a, "privacy"@, live_author_of(a).privacy),
        flag_of(a, "isNew"@, live_author_of(a).is_new),
        get_in(a, "constellation"@) matches Some(KuaishouJsonValue::String(s))
            ==> live_author_of(a).constellation == s@,
        get_in(a, "cityName"@) matches Some(KuaishouJsonValue::String(s)) ==> live_author_of(
            a,
        ).city_name == s@,
{
}

fn counts_copy(v: Option<&KuaishouJsonValue>) -> (c: KuaishouJsonValue)
    ensures
        json_tree(c) == counts_of(deref(v)),
{
    if is_populated_object(v) {
        object_or_empty(v)
    } else {
        empty_object()
    }
}

/// Read the user info of a live detail's author block.
pub fn normalize_live_author(author: Option<&KuaishouJsonValue>) -> (info: KuaishouUserProfileUserInfo)
    ensures
        info@ == live_author_of(deref(author)),
{
    let follow_status = match string_value(member(author, "followStatus")) {
        Some(s) => s,
        None => {
            if flag_at(author, "following") {
                "FOLLOWING".to_owned()
            } else {
                "UN_FOLLOWED".to_owned()
            }
        },
    };
    let origin_user_id = match number_value(member(author, "originUserId")) {
        Some(n) => n,
        None => match number_value(member(author, "user_id")) {
            Some(n) => n,
            None => 0,
        },
    };
    let living = match bool_value(member(author, "living")) {
        Some(b) => b,
        None => flag_at(author, "live"),
    };
    let info = KuaishouUserProfileUserInfo {
        id: pick_of3(
            string_value(member(author, "id")),
            string_value(member(author, "principalId")),
            string_value(member(author, "kwaiId")),
        ),
        name: pick_of2(string_value(member(author, "name")), string_value(member(author, "user_name"))),
        description: pick_of2(
            string_value(member(author, "description")),
            string_value(member(author, "user_text")),
        ),
        avatar: pick_of2(string_value(member(author, "avatar")), string_value(member(author, "headurl"))),
        sex: pick_of2(string_value(member(author, "sex")), string_value(member(author, "user_sex"))),
        living,
        follow_status,
        constellation: text_value_or(string_value(member(author, "constellation")), String::new()),
        city_name: text_value_or(string_value(member(author, "cityName")), String::new()),
        origin_user_id,
        privacy: flag_at(author, "privacy"),
        is_new: flag_at(author, "isNew"),
        timestamp: match number_value(member(author, "timestamp")) {
            Some(n) => n,
            None => 0,
        },
        verified_status: verified_status_from_value(
            member(author, "verifiedStatus"),
            member(author, "verifiedDetail"),
        ),
        banned_status: banned_status_from_value(member(author, "bannedStatus")),
        counts: counts_copy(member(author, "counts")),
    };
    proof {
        reveal_strlit("FOLLOWING");
        reveal_strlit("UN_FOLLOWED");
    }
    assert(info@ =~= live_author_of(deref(author)));
    info
}

/// The user info of a profile: the live detail's author, overridden by the
/// user info block's fields where it has them; follow status,
/// constellation and city from the user info, else the sensitive info,
/// else the author; statuses and counts likewise.
pub open spec fn merged_author_of(
    fallback: Option<KuaishouJsonValue>,
    user: Option<KuaishouJsonValue>,
    sensitive: Option<KuaishouJsonValue>,
) -> UserInfoView {
    let b = live_author_of(fallback);
    UserInfoView {
        id: text_or(ks_text(get_in(user, "id"@)), b.id),
        name: text_or(ks_text(get_in(user, "name"@)), b.name),
        description: text_or(ks_text(get_in(user, "description"@)), b.description),
        avatar: text_or(ks_text(get_in(user, "avatar"@)), b.avatar),
        sex: text_or(ks_text(get_in(user, "sex"@)), b.sex),
        living: flag_or(json_bool(get_in(user, "living"@)), b.living),
        follow_status: pick3(
            ks_text(get_in(user, "followStatus"@)),
            ks_text(get_in(sensitive, "followStatus"@)),
            Some(b.follow_status),
        ),
        constellation: pick3(
            ks_text(get_in(user, "constellation"@)),
            ks_text(get_in(sensitive, "constellation"@)),
            Some(b.constellation),
        ),
        city_name: pick3(
            ks_text(get_in(user, "cityName"@)),
            ks_text(get_in(sensitive, "cityName"@)),
            Some(b.city_name),
        ),
        origin_user_id: u64_or(ks_u64(get_in(user, "originUserId"@)), b.origin_user_id),
        privacy: flag_or(json_bool(get_in(user, "privacy"@)), b.privacy),
        is_new: flag_or(json_bool(get_in(user, "isNew"@)), b.is_new),
        timestamp: u64_or(ks_u64(get_in(user, "timestamp"@)), b.timestamp),
        verified: if get_in(user, "verifiedStatus"@) is Some {
            verified_of(get_in(user, "verifiedStatus"@), None)
        } else if get_in(sensitive, "verifiedStatus"@) is Some {
            verified_of(get_in(sensitive, "verifiedStatus"@), None)
        } else {
            b.verified
        },
        banned: if get_in(user, "bannedStatus"@) is Some {
            banned_of(get_in(user, "bannedStatus"@))
        } else if get_in(sensitive, "bannedStatus"@) is Some {
            banned_of(get_in(sensitive, "bannedStatus"@))
        } else {
            b.banned
        },
        counts: if is_populated(get_in(user, "counts"@)) {
            json_tree(get_in(user, "counts"@).unwrap())
        } else if is_populated(get_in(sensitive, "counts"@)) {
            json_tree(get_in(sensitive, "counts"@).unwrap())
        } else {
            b.counts
        },
    }
}

/// Merging authors: a string the user info gives for a text field wins
/// (`id`, `name`, `description`, `avatar`, `sex`); without one the field
/// is the live author's. The follow status, constellation and city come
/// from the user info, else the sensitive info, else the live author.
pub proof fn lemma_merged_author_fields(
    fallback: Option<KuaishouJsonValue>,
    user: Option<KuaishouJsonValue>,
    sensitive: Option<KuaishouJsonValue>,
)
    ensures
        ({
            let m = merged_author_of(fallback, user, sensitive);
            let b = live_author_of(fallback);
            &&& get_in(user, "id"@) matches Some(KuaishouJsonValue::String(s)) ==> m.id == s@
            &&& get_in(user, "id"@) is None ==> m.id == b.id
            &&& get_in(user, "name"@) matches Some(KuaishouJsonValue::String(s)) ==> m.name == s@
            &&& get_in(user, "name"@) is None ==> m.name == b.name
            &&& get_in(user, "description"@) matches Some(KuaishouJsonValue::String(s))
                ==> m.description == s@
            &&& get_in(user, "description"@) is None ==> m.description == b.description
            &&& get_in(user, "avatar"@) matches Some(KuaishouJsonValue::String(s)) ==> m.avatar == s@
            &&& get_in(user, "avatar"@) is None ==> m.avatar == b.avatar
            &&& get_in(user, "sex"@) matches Some(KuaishouJsonValue::String(s)) ==> m.sex == s@
            &&& get_in(user, "sex"@) is None ==> m.sex == b.sex
            &&& has_string(user, "followStatus"@) ==> m.follow_status == string_of(user, "followStatus"@)
            &&& (get_in(user, "followStatus"@) is None && has_string(sensitive, "followStatus"@))
                ==> m.follow_status == string_of(sensitive, "followStatus"@)
            &&& has_string(user, "cityName"@) ==> m.city_name == string_of(user, "cityName"@)
            &&& (get_in(user, "cityName"@) is None && has_string(sensitive, "cityName"@))
                ==> m.city_name == string_of(sensitive, "cityName"@)
        }),
{
}

pub(crate) fn u64_value_or(v: Option<u64>, fallback: u64) -> (n: u64)
    ensures
        n == u64_or(v, fallback),
{
    match v {
        Some(x) => x,
        None => fallback,
    }
}

pub(crate) fn flag_value_or(v: Option<bool>, fallback: bool) -> (b: bool)
    ensures
        b == flag_or(v, fallback),
{
    match v {
        Some(x) => x,
        None => fallback,
    }
}

/// Merge the live detail's author with the user info and the sensitive
/// user info.
pub fn merge_live_author(
    fallback_author: Option<&KuaishouJsonValue>,
    user_info: Option<&KuaishouJsonValue>,
    sensitive_info: Option<&KuaishouJsonValue>,
) -> (info: KuaishouUserProfileUserInfo)
    ensures
        info@ == merged_author_of(deref(fallback_author), deref(user_info), deref(sensitive_info)),
{
    let base = normalize_live_author(fallback_author);
    let id = text_value_or(string_value(member(user_info, "id")), base.id);
    let name = text_value_or(string_value(member(user_info, "name")), base.name);
    let description = text_value_or(string_value(member(user_info, "description")), base.description);
    let avatar = text_value_or(string_value(member(user_info, "avatar")), base.avatar);
    let sex = text_value_or(string_value(member(user_info, "sex")), base.sex);
    let living = flag_value_or(bool_value(member(user_info, "living")), base.living);
    let origin_user_id = u64_value_or(number_value(member(user_info, "originUserId")), base.origin_user_id);
    let privacy = flag_value_or(bool_value(member(user_info, "privacy")), base.privacy);
    let is_new = flag_value_or(bool_value(member(user_info, "isNew")), base.is_new);
    let timestamp = u64_value_or(number_value(member(user_info, "timestamp")), base.timestamp);
    let follow_status = pick_of3(
        string_value(member(user_info, "followStatus")),
        string_value(member(sensitive_info, "followStatus")),
        Some(base.follow_status),
    );
    let constellation = pick_of3(
        string_value(member(user_info, "constellation")),
        string_value(member(sensitive_info, "constellation")),
        Some(base.constellation),
    );
    let city_name = pick_of3(
        string_value(member(user_info, "cityName")),
        string_value(member(sensitive_info, "cityName")),
        Some(base.city_name),
    );
    let verified_status = if member(user_info, "verifiedStatus").is_some() {
        verified_status_from_value(member(user_info, "verifiedStatus"), None)
    } else if member(sensitive_info, "verifiedStatus").is_some() {
        verified_status_from_value(member(sensitive_info, "verifiedStatus"), None)
    } else {
        base.verified_status
    };
    let banned_status = if member(user_info, "bannedStatus").is_some() {
        banned_status_from_value(member(user_info, "bannedStatus"))
    } else if member(sensitive_info, "bannedStatus").is_some() {
        banned_status_from_value(member(sensitive_info, "bannedStatus"))
    } else {
        base.banned_status
    };
    let counts = if is_populated_object(member(user_info, "counts")) {
        object_or_empty(member(user_info, "counts"))
    } else if is_populated_object(member(sensitive_info, "counts")) {
        object_or_empty(member(sensitive_info, "counts"))
    } else {
        base.counts
    };
    let info = KuaishouUserProfileUserInfo {
        id,
        name,
        description,
        avatar,
        sex,
        living,
        follow_status,
        constellation,
        city_name,
        origin_user_id,
        privacy,
        is_new,
        timestamp,
        verified_status,
        banned_status,
        counts,
    };
    assert(info@ =~= merged_author_of(deref(fallback_author), deref(user_info), deref(sensitive_info)));
    info
}

/// The follow status of a profile: from the user info, else the sensitive
/// info, when non-blank.
pub open spec fn follow_status_of(user: Option<KuaishouJsonValue>, sensitive: Option<KuaishouJsonValue>) -> Seq<char> {
    pick3(
        ks_text(get_in(user, "followStatus"@)),
        ks_text(get_in(sensitive, "followStatus"@)),
        None,
    )
}

/// A follow state as plain values.
pub open spec fn follow_state_view(state: Option<KuaishouFollowState>) -> Option<(Seq<char>, bool, Seq<char>, i32)> {
    match state {
        Some(s) => Some((s.current_follow_status@, s.need_to_follow, s.author_id@, s.data)),
        None => None,
    }
}

/// The follow state of a profile: its follow status, not needing to
/// follow, the user info's id, when the follow status is non-blank.
pub open spec fn follow_state_of(user: Option<KuaishouJsonValue>, sensitive: Option<KuaishouJsonValue>) -> Option<
    (Seq<char>, bool, Seq<char>, i32),
> {
    let status = follow_status_of(user, sensitive);
    if status.len() == 0 {
        None
    } else {
        Some((status, false, text_or(ks_text(get_in(user, "id"@)), seq![]), 0))
    }
}

/// The follow state of a profile, when it has a follow status.
pub fn create_follow_state(
    user_info: Option<&KuaishouJsonValue>,
    sensitive_info: Option<&KuaishouJsonValue>,
) -> (state: Option<KuaishouFollowState>)
    ensures
        follow_state_view(state) == follow_state_of(deref(user_info), deref(sensitive_info)),
{
    let follow_status = pick_of2(
        string_value(member(user_info, "followStatus")),
        string_value(member(sensitive_info, "followStatus")),
    );
    if follow_status.as_str().is_empty() {
        return None;
    }
    Some(KuaishouFollowState {
        current_follow_status: follow_status,
        need_to_follow: false,
        author_id: text_value_or(string_value(member(user_info, "id")), String::new()),
        data: 0,
    })
}

/// A follow button state as plain values.
pub open spec fn follow_button_view(state: Option<KuaishouFollowButtonState>) -> Option<Seq<char>> {
    match state {
        Some(s) => Some(s.follow_status@),
        None => None,
    }
}

/// The follow button state of a profile: its follow status, when
/// non-blank.
pub open spec fn follow_button_of(user: Option<KuaishouJsonValue>, sensitive: Option<KuaishouJsonValue>) -> Option<
    Seq<char>,
> {
    let status = follow_status_of(user, sensitive);
    if status.len() == 0 {
        None
    } else {
        Some(status)
    }
}

/// The follow button state of a profile, when it has a follow status.
pub fn create_follow_button_state(
    user_info: Option<&KuaishouJsonValue>,
    sensitive_info: Option<&KuaishouJsonValue>,
) -> (state: Option<KuaishouFollowButtonState>)
    ensures
        follow_button_view(state) == follow_button_of(deref(user_info), deref(sensitive_info)),
{
    let follow_status = pick_of2(
        string_value(member(user_info, "followStatus")),
        string_value(member(sensitive_info, "followStatus")),
    );
    if follow_status.as_str().is_empty() {
        None
    } else {
        Some(KuaishouFollowButtonState { follow_status })
    }
}

} // verus!
