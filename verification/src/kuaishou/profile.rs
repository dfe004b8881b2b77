//! The Kuaishou user profile, assembled from the payloads of the profile
//! endpoints.

use vstd::prelude::*;

use crate::kuaishou::author::{
    create_follow_button_state, create_follow_state, flag_or, follow_button_of,
    follow_button_view, follow_state_of, follow_state_view, merge_live_author, merged_author_of,
    text_or, text_value_or, UserInfoView,
};
use crate::kuaishou::json::{json_get, KuaishouJsonValue};
use crate::pairs::text_pair;
use crate::kuaishou::live_info::{live_info_members, map_live_detail_to_user_profile_live_info};
use crate::kuaishou::types::{
    empty_kuaishou_banned_status, empty_kuaishou_verified_status, KuaishouCategoryMask,
    KuaishouUserProfile, KuaishouUserProfileAuthor, KuaishouUserProfilePage,
    KuaishouUserProfilePublicTabData, KuaishouUserProfileTabData, KuaishouUserProfileUserInfo,
};
use crate::kuaishou::value::{
    array_value, bool_value, copy_json, copy_values, deref, empty_object, empty_record, get_in,
    i64_value, is_object, ks_i64, ks_text, member, string_value,
};
use crate::twitter::values::{json_bool, json_tree, json_trees, JsonTree};

verus! {

/// A value as plain data, when present.
pub open spec fn opt_tree(v: Option<KuaishouJsonValue>) -> Option<JsonTree> {
    match v {
        Some(x) => Some(json_tree(x)),
        None => None,
    }
}

/// The items of a value that is an array, as plain data; else none.
pub open spec fn list_of(v: Option<KuaishouJsonValue>) -> Seq<JsonTree> {
    match v {
        Some(KuaishouJsonValue::Array(items)) => json_trees(items@),
        _ => seq![],
    }
}

impl View for KuaishouUserProfileTabData {
    type V = (Seq<JsonTree>, Seq<char>);

    open spec fn view(&self) -> (Seq<JsonTree>, Seq<char>) {
        (json_trees(self.list@), self.pcursor@)
    }
}

impl View for KuaishouUserProfilePublicTabData {
    type V = (Option<JsonTree>, Seq<JsonTree>, Seq<char>);

    open spec fn view(&self) -> (Option<JsonTree>, Seq<JsonTree>, Seq<char>) {
        (opt_tree(self.live), json_trees(self.list@), self.pcursor@)
    }
}

/// Whether a tab payload's `data` carries a usable list: a `result` of 1
/// and an array `list`.
pub open spec fn tab_usable(data: Option<KuaishouJsonValue>) -> bool {
    &&& is_object(data)
    &&& ks_i64(get_in(data, "result"@)) == Some(1i64)
    &&& get_in(data, "list"@) matches Some(KuaishouJsonValue::Array(_))
}

/// A list tab read from its payload, else the fallback.
pub open spec fn tab_of(payload: Option<KuaishouJsonValue>, fallback: (Seq<JsonTree>, Seq<char>)) -> (
    Seq<JsonTree>,
    Seq<char>,
) {
    let data = get_in(payload, "data"@);
    if tab_usable(data) {
        (list_of(get_in(data, "list"@)), text_or(ks_text(get_in(data, "pcursor"@)), fallback.1))
    } else {
        fallback
    }
}

/// The public tab read from its payload (with its `live` block, else the
/// fallback's), else the fallback.
pub open spec fn public_tab_of(
    payload: Option<KuaishouJsonValue>,
    fallback: (Option<JsonTree>, Seq<JsonTree>, Seq<char>),
) -> (Option<JsonTree>, Seq<JsonTree>, Seq<char>) {
    let data = get_in(payload, "data"@);
    if tab_usable(data) {
        (
            match get_in(data, "live"@) {
                Some(l) => Some(json_tree(l)),
                None => fallback.0,
            },
            list_of(get_in(data, "list"@)),
            text_or(ks_text(get_in(data, "pcursor"@)), fallback.2),
        )
    } else {
        fallback
    }
}

fn usable_tab_data(payload: Option<&KuaishouJsonValue>) -> (data: Option<&KuaishouJsonValue>)
    ensures
        match data {
            Some(d) => tab_usable(get_in(deref(payload), "data"@)) && *d == get_in(
                deref(payload),
                "data"@,
            ).unwrap(),
            None => !tab_usable(get_in(deref(payload), "data"@)),
        },
{
    let data = member(payload, "data");
    match data {
        Some(d) => match d {
            KuaishouJsonValue::Object(_) => {
                let result = match i64_value(member(data, "result")) {
                    Some(r) => r,
                    None => 0,
                };
                let is_list = match member(data, "list") {
                    Some(KuaishouJsonValue::Array(_)) => true,
                    _ => false,
                };
                if result != 1 || !is_list {
                    None
                } else {
                    Some(d)
                }
            },
            _ => None,
        },
        None => None,
    }
}

fn copy_tab(tab: &KuaishouUserProfileTabData) -> (copy: KuaishouUserProfileTabData)
    ensures
        copy@ == tab@,
{
    KuaishouUserProfileTabData { list: copy_values(&tab.list), pcursor: tab.pcursor.clone() }
}

/// Read a list tab from its payload, else copy the fallback.
pub fn resolve_tab_data(
    payload: Option<&KuaishouJsonValue>,
    fallback: &KuaishouUserProfileTabData,
) -> (tab: KuaishouUserProfileTabData)
    ensures
        tab@ == tab_of(deref(payload), fallback@),
{
    match usable_tab_data(payload) {
        Some(data) => KuaishouUserProfileTabData {
            list: array_value(member(Some(data), "list")),
            pcursor: text_value_or(string_value(member(Some(data), "pcursor")), fallback.pcursor.clone()),
        },
        None => copy_tab(fallback),
    }
}

fn copy_opt(v: &Option<KuaishouJsonValue>) -> (copy: Option<KuaishouJsonValue>)
    ensures
        opt_tree(copy) == opt_tree(*v),
{
    match v {
        Some(x) => Some(copy_json(x)),
        None => None,
    }
}

/// Read the public tab from its payload, else copy the fallback.
pub fn resolve_public_tab_data(
    payload: Option<&KuaishouJsonValue>,
    fallback: &KuaishouUserProfilePublicTabData,
) -> (tab: KuaishouUserProfilePublicTabData)
    ensures
        tab@ == public_tab_of(deref(payload), fallback@),
{
    match usable_tab_data(payload) {
        Some(data) => KuaishouUserProfilePublicTabData {
            live: match member(Some(data), "live") {
                Some(l) => Some(copy_json(l)),
                None => copy_opt(&fallback.live),
            },
            list: array_value(member(Some(data), "list")),
            pcursor: text_value_or(string_value(member(Some(data), "pcursor")), fallback.pcursor.clone()),
        },
        None => KuaishouUserProfilePublicTabData {
            live: copy_opt(&fallback.live),
            list: copy_values(&fallback.list),
            pcursor: fallback.pcursor.clone(),
        },
    }
}

/// Whether the public payload says to show the playback tab.
pub fn resolve_public_show_playback(payload: Option<&KuaishouJsonValue>) -> (show: Option<bool>)
    ensures
        show == json_bool(get_in(get_in(deref(payload), "data"@), "showPlayback"@)),
{
    bool_value(member(member(payload, "data"), "showPlayback"))
}

/// The `data` of a live detail payload, when its `result` is 1.
pub open spec fn live_detail_of(payload: Option<KuaishouJsonValue>) -> Option<KuaishouJsonValue> {
    let data = get_in(payload, "data"@);
    if is_object(data) && ks_i64(get_in(data, "result"@)) == Some(1i64) {
        data
    } else {
        None
    }
}

/// The `data` of a live detail payload, when its `result` is 1.
pub fn resolve_live_detail_data(payload: Option<&KuaishouJsonValue>) -> (data: Option<&KuaishouJsonValue>)
    ensures
        deref(data) == live_detail_of(deref(payload)),
{
    let data = member(payload, "data");
    match data {
        Some(d) => match d {
            KuaishouJsonValue::Object(_) => {
                let result = match i64_value(member(data, "result")) {
                    Some(r) => r,
                    None => 0,
                };
                if result == 1 {
                    Some(d)
                } else {
                    None
                }
            },
            _ => None,
        },
        None => None,
    }
}

/// The user info of a profile with nothing known.
pub fn create_empty_user_info() -> (info: KuaishouUserProfileUserInfo)
    ensures
        info@.id.len() == 0 && info@.name.len() == 0 && info@.description.len() == 0
            && info@.avatar.len() == 0 && info@.sex.len() == 0 && !info@.living
            && info@.follow_status.len() == 0 && info@.constellation.len() == 0
            && info@.city_name.len() == 0 && info@.origin_user_id == 0 && !info@.privacy
            && !info@.is_new && info@.timestamp == 0,
        info.verified_status@.description.len() == 0 && !info.verified_status.verified
            && info.verified_status.type_id == 0 && !info.verified_status.is_new
            && info.verified_status@.icon_url.len() == 0,
        !info.banned_status.banned && !info.banned_status.social_banned
            && !info.banned_status.isolate && !info.banned_status.defriend,
        json_tree(info.counts) == empty_record(),
{
    KuaishouUserProfileUserInfo {
        id: String::new(),
        name: String::new(),
        description: String::new(),
        avatar: String::new(),
        sex: String::new(),
        living: false,
        follow_status: String::new(),
        constellation: String::new(),
        city_name: String::new(),
        origin_user_id: 0,
        privacy: false,
        is_new: false,
        timestamp: 0,
        verified_status: empty_kuaishou_verified_status(),
        banned_status: empty_kuaishou_banned_status(),
        counts: empty_object(),
    }
}

/// The ban states of the profile page, by name.
pub open spec fn ban_state_pairs() -> Seq<(Seq<char>, Seq<char>)> {
    seq![
        ("banned"@, "BANNED"@),
        ("cleanState"@, "CLEAN"@),
        ("isolate"@, "ISOLATE"@),
        ("socialBanned"@, "SOCIALBANNED"@),
    ]
}

/// The tab types of the profile page, by name.
pub open spec fn tab_type_pairs() -> Seq<(Seq<char>, Seq<char>)> {
    seq![
        ("liked"@, "liked"@),
        ("playback"@, "playback"@),
        ("private"@, "private"@),
        ("public"@, "public"@),
    ]
}

fn ban_state_map() -> (m: Vec<(String, String)>)
    ensures
        m.deep_view() == ban_state_pairs(),
{
    let m = vec![
        text_pair("banned", "BANNED"),
        text_pair("cleanState", "CLEAN"),
        text_pair("isolate", "ISOLATE"),
        text_pair("socialBanned", "SOCIALBANNED"),
    ];
    assert(m.deep_view() =~= ban_state_pairs());
    m
}

fn tab_type_map() -> (m: Vec<(String, String)>)
    ensures
        m.deep_view() == tab_type_pairs(),
{
    let m = vec![
        text_pair("liked", "liked"),
        text_pair("playback", "playback"),
        text_pair("private", "private"),
        text_pair("public", "public"),
    ];
    assert(m.deep_view() =~= tab_type_pairs());
    m
}

fn empty_tab() -> (tab: KuaishouUserProfileTabData)
    ensures
        tab@ == (Seq::<JsonTree>::empty(), Seq::<char>::empty()),
{
    let tab = KuaishouUserProfileTabData { list: Vec::new(), pcursor: String::new() };
    assert(tab@ =~= (Seq::<JsonTree>::empty(), Seq::<char>::empty()));
    tab
}

/// The payloads a profile is assembled from.
pub struct KuaishouUserProfileSources<'a> {
    /// The user info payload.
    pub user_info_payload: &'a KuaishouJsonValue,
    /// The sensitive user info payload.
    pub sensitive_payload: Option<&'a KuaishouJsonValue>,
    /// The public tab payload.
    pub public_payload: Option<&'a KuaishouJsonValue>,
    /// The private tab payload.
    pub private_payload: Option<&'a KuaishouJsonValue>,
    /// The liked tab payload.
    pub liked_payload: Option<&'a KuaishouJsonValue>,
    /// The playback tab payload.
    pub playback_payload: Option<&'a KuaishouJsonValue>,
    /// The interest list payload.
    pub interest_list_payload: Option<&'a KuaishouJsonValue>,
    /// The interest mask payload.
    pub interest_mask_payload: Option<&'a KuaishouJsonValue>,
    /// The category config payload.
    pub category_config_payload: Option<&'a KuaishouJsonValue>,
    /// The category data payload.
    pub category_data_payload: Option<&'a KuaishouJsonValue>,
    /// The category classify payload.
    pub category_classify_payload: Option<&'a KuaishouJsonValue>,
    /// The live detail payload.
    pub live_detail_payload: Option<&'a KuaishouJsonValue>,
}

/// The user info block of the sources.
pub open spec fn user_block(s: KuaishouUserProfileSources) -> Option<KuaishouJsonValue> {
    get_in(json_get(*s.user_info_payload, "data"@), "userInfo"@)
}

/// The sensitive user info block of the sources.
pub open spec fn sensitive_block(s: KuaishouUserProfileSources) -> Option<KuaishouJsonValue> {
    get_in(get_in(deref(s.sensitive_payload), "data"@), "sensitiveUserInfo"@)
}

/// The author of the profile assembled from the sources.
pub open spec fn profile_author(s: KuaishouUserProfileSources) -> UserInfoView {
    merged_author_of(
        get_in(live_detail_of(deref(s.live_detail_payload)), "author"@),
        user_block(s),
        sensitive_block(s),
    )
}

/// The public tab of the profile: read from its payload; when it has no
/// live block and the live detail is usable, the live block read from the
/// live detail.
pub open spec fn profile_public_tab(s: KuaishouUserProfileSources) -> (
    Option<JsonTree>,
    Seq<JsonTree>,
    Seq<char>,
) {
    let tab = public_tab_of(deref(s.public_payload), (None, seq![], seq![]));
    let detail = live_detail_of(deref(s.live_detail_payload));
    if tab.0 is None && detail is Some {
        (
            Some(JsonTree::Record(live_info_members(detail.unwrap(), profile_author(s)))),
            tab.1,
            tab.2,
        )
    } else {
        tab
    }
}

/// What a profile assembled from the sources holds.
pub open spec fn profile_built_from(
    p: KuaishouUserProfile,
    principal_id: Seq<char>,
    s: KuaishouUserProfileSources,
    upstream_payload: KuaishouJsonValue,
) -> bool {
    let empty = (Seq::<JsonTree>::empty(), Seq::<char>::empty());
    let playback = tab_of(deref(s.playback_payload), empty);
    let classify = get_in(deref(s.category_classify_payload), "data"@);
    let hot = get_in(deref(s.category_data_payload), "data"@);
    &&& p.principal_id@ == principal_id
    &&& p.author.principal_id@ == principal_id
    &&& p.author.user_info@ == profile_author(s)
    &&& opt_tree(p.author.sensitive_info) == opt_tree(sensitive_block(s))
    &&& json_tree(p.author.follow_info) == empty_record()
    &&& p.author.ban_state_map.deep_view() == ban_state_pairs()
    &&& p.profile.current_tab@ == "public"@
    &&& p.profile.page_size == 12
    &&& p.profile.tab_type_map.deep_view() == tab_type_pairs()
    &&& p.profile.show_playback == flag_or(
        json_bool(get_in(get_in(deref(s.public_payload), "data"@), "showPlayback"@)),
        playback.0.len() > 0,
    )
    &&& p.profile.public_data@ == profile_public_tab(s)
    &&& p.profile.private_data@ == tab_of(deref(s.private_payload), empty)
    &&& p.profile.liked_data@ == tab_of(deref(s.liked_payload), empty)
    &&& p.profile.playback_data@ == playback
    &&& json_trees(p.profile.interest_list@) == list_of(get_in(deref(s.interest_list_payload), "data"@))
    &&& json_tree(p.profile.current_product) == empty_record()
    &&& follow_state_view(p.follow) == follow_state_of(user_block(s), sensitive_block(s))
    &&& follow_button_view(p.follow_button) == follow_button_of(user_block(s), sensitive_block(s))
    &&& json_trees(p.interest_mask@) == list_of(get_in(deref(s.interest_mask_payload), "data"@))
    &&& json_trees(p.category_mask.config@) == list_of(get_in(deref(s.category_config_payload), "data"@))
    &&& json_trees(p.category_mask.list@) == list_of(get_in(classify, "list"@))
    &&& json_trees(p.category_mask.hot_list@) == list_of(get_in(hot, "list"@))
    &&& p.category_mask.has_more == flag_or(json_bool(get_in(classify, "hasMore"@)), false)
    &&& p.category_mask.has_more_hot == flag_or(json_bool(get_in(hot, "hasMore"@)), false)
    &&& p.upstream_payload == upstream_payload
}

/// A tab answer whose `data` has `result` 1, the array `list` of `items`
/// and the string `pcursor` `cursor`.
pub open spec fn tab_page(payload: Option<KuaishouJsonValue>, items: Seq<KuaishouJsonValue>, cursor: Seq<char>) -> bool {
    &&& tab_usable(get_in(payload, "data"@))
    &&& get_in(get_in(payload, "data"@), "list"@) matches Some(KuaishouJsonValue::Array(v)) && v@ == items
    &&& get_in(get_in(payload, "data"@), "pcursor"@) matches Some(KuaishouJsonValue::String(c)) && c@ == cursor
}

/// Each tab of a profile is read from its own answer: the public tab's
/// works and cursor from the public answer, the private tab from the
/// private answer, the liked tab from the liked answer and the playback
/// tab from the playback answer; a tab whose answer is not usable is
/// empty.
pub proof fn lemma_profile_tabs(
    p: KuaishouUserProfile,
    principal_id: Seq<char>,
    s: KuaishouUserProfileSources,
    upstream_payload: KuaishouJsonValue,
    items: Seq<KuaishouJsonValue>,
    cursor: Seq<char>,
)
    requires
        profile_built_from(p, principal_id, s, upstream_payload),
    ensures
        tab_page(deref(s.public_payload), items, cursor) ==> p.profile.public_data@.1 == json_trees(items)
            && p.profile.public_data@.2 == cursor,
        tab_page(deref(s.private_payload), items, cursor) ==> p.profile.private_data@ == (
            json_trees(items),
            cursor,
        ),
        tab_page(deref(s.liked_payload), items, cursor) ==> p.profile.liked_data@ == (
            json_trees(items),
            cursor,
        ),
        tab_page(deref(s.playback_payload), items, cursor) ==> p.profile.playback_data@ == (
            json_trees(items),
            cursor,
        ),
        !tab_usable(get_in(deref(s.private_payload), "data"@)) ==> p.profile.private_data@ == (
            Seq::<JsonTree>::empty(),
            Seq::<char>::empty(),
        ),
        !tab_usable(get_in(deref(s.liked_payload), "data"@)) ==> p.profile.liked_data@ == (
            Seq::<JsonTree>::empty(),
            Seq::<char>::empty(),
        ),
        p.principal_id@ == principal_id,
        p.author.principal_id@ == principal_id,
{
}

fn data_list(payload: Option<&KuaishouJsonValue>) -> (items: Vec<KuaishouJsonValue>)
    ensures
        json_trees(items@) == list_of(get_in(deref(payload), "data"@)),
{
    array_value(member(payload, "data"))
}

/// Assemble a user profile from the payloads of the profile endpoints;
/// the upstream snapshot is kept as given.
pub fn build_kuaishou_user_profile(
    principal_id: &str,
    sources: KuaishouUserProfileSources,
    upstream_payload: KuaishouJsonValue,
) -> (profile: KuaishouUserProfile)
    ensures
        profile_built_from(profile, principal_id@, sources, upstream_payload),
{
    let user_info = member(member(Some(sources.user_info_payload), "data"), "userInfo");
    let sensitive_info = member(member(sources.sensitive_payload, "data"), "sensitiveUserInfo");
    let live_detail_data = resolve_live_detail_data(sources.live_detail_payload);
    let normalized_author = merge_live_author(
        member(live_detail_data, "author"),
        user_info,
        sensitive_info,
    );
    let empty_public = KuaishouUserProfilePublicTabData {
        live: None,
        list: Vec::new(),
        pcursor: String::new(),
    };
    assert(empty_public@ =~= (None::<JsonTree>, Seq::<JsonTree>::empty(), Seq::<char>::empty()));
    let mut public_data = resolve_public_tab_data(sources.public_payload, &empty_public);
    let private_data = resolve_tab_data(sources.private_payload, &empty_tab());
    let liked_data = resolve_tab_data(sources.liked_payload, &empty_tab());
    let playback_data = resolve_tab_data(sources.playback_payload, &empty_tab());
    if public_data.live.is_none() {
        match live_detail_data {
            Some(detail) => {
                public_data.live = Some(
                    map_live_detail_to_user_profile_live_info(detail, &normalized_author),
                );
            },
            None => {},
        }
    }
    let show_playback = match resolve_public_show_playback(sources.public_payload) {
        Some(b) => b,
        None => playback_data.list.len() > 0,
    };
    let classify = member(sources.category_classify_payload, "data");
    let hot = member(sources.category_data_payload, "data");
    let category_mask = KuaishouCategoryMask {
        config: data_list(sources.category_config_payload),
        list: array_value(member(classify, "list")),
        hot_list: array_value(member(hot, "list")),
        has_more: match bool_value(member(classify, "hasMore")) {
            Some(b) => b,
            None => false,
        },
        has_more_hot: match bool_value(member(hot, "hasMore")) {
            Some(b) => b,
            None => false,
        },
    };
    let sensitive_copy = match sensitive_info {
        Some(x) => Some(copy_json(x)),
        None => None,
    };
    let profile = KuaishouUserProfile {
        principal_id: principal_id.to_owned(),
        author: KuaishouUserProfileAuthor {
            principal_id: principal_id.to_owned(),
            user_info: normalized_author,
            sensitive_info: sensitive_copy,
            follow_info: empty_object(),
            ban_state_map: ban_state_map(),
        },
        profile: KuaishouUserProfilePage {
            current_tab: "public".to_owned(),
            page_size: 12,
            tab_type_map: tab_type_map(),
            show_playback,
            public_data,
            private_data,
            liked_data,
            playback_data,
            interest_list: data_list(sources.interest_list_payload),
            current_product: empty_object(),
        },
        follow: create_follow_state(user_info, sensitive_info),
        follow_button: create_follow_button_state(user_info, sensitive_info),
        interest_mask: data_list(sources.interest_mask_payload),
        category_mask,
        upstream_payload,
    };
    profile
}

} // verus!
