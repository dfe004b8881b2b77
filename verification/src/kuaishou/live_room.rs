//! A live room assembled from a live detail answer: the room being played,
//! the recommended rooms, the websocket endpoints and the gift panel.

use vstd::prelude::*;

use crate::kuaishou::author::{
    flag_or, live_author_of, pick3, pick_of2, pick_of3, text_or, text_value_or,
    u64_or, UserInfoView, VerifiedView,
};
use crate::error::AppError;
use crate::kuaishou::json::{KuaishouJsonObject, KuaishouJsonValue};
use crate::kuaishou::live_info::{copy_or, set_member};
use crate::kuaishou::types::{
    empty_kuaishou_banned_status, empty_kuaishou_verified_status, KuaishouBannedStatus,
    KuaishouEmojiList, KuaishouLiveRoomEmojiState, KuaishouLiveRoomGameInfo, KuaishouLiveRoomInfo,
    KuaishouLiveRoomPlayItem, KuaishouLiveStreamInfo, KuaishouUserProfileUserInfo,
    KuaishouVerifiedStatus,
};
use crate::kuaishou::value::{
    bool_value, copy_json, deref, empty_object, empty_record, get_in, is_object, ks_text, ks_u64,
    member, number_value, string_value,
};
use crate::kuaishou::works::{data_part, push_snapshot, snapshot_member};
use crate::text::{decimal, u64_to_decimal};
use crate::twitter::transport::opt_text;
use crate::kuaishou::support::{kept_live_room_positions, kept_positions, lemma_dedupe_live_rooms};
use crate::twitter::values::{json_bool, json_tree, json_trees, member_trees, tree_set, JsonTree};

verus! {

/// Member `key` of a value when it is an object.
pub open spec fn object_at(v: Option<KuaishouJsonValue>, key: Seq<char>) -> Option<KuaishouJsonValue> {
    if is_object(get_in(v, key)) {
        get_in(v, key)
    } else {
        None
    }
}

/// The members of an object, none for anything else.
pub open spec fn members_of(v: Option<KuaishouJsonValue>) -> Seq<(Seq<char>, JsonTree)> {
    match v {
        Some(KuaishouJsonValue::Object(o)) => member_trees(o.entries@),
        _ => Seq::empty(),
    }
}

/// A value's plain data, an empty object when absent.
pub open spec fn tree_or_empty(v: Option<KuaishouJsonValue>) -> JsonTree {
    match v {
        Some(x) => json_tree(x),
        None => empty_record(),
    }
}

/// A live stream block as plain values.
#[verifier::ext_equal]
pub struct StreamView {
    /// Stream id.
    pub id: Seq<char>,
    /// Poster URL.
    pub poster: Seq<char>,
    /// Play URLs.
    pub play_urls: JsonTree,
    /// Stream URL.
    pub url: Seq<char>,
    /// HLS play URL.
    pub hls_play_url: Seq<char>,
    /// Location label.
    pub location: Option<Seq<char>>,
    /// Stream type.
    pub stream_type: Seq<char>,
    /// Live-guess flag.
    pub live_guess: bool,
    /// Experiment tag.
    pub exp_tag: Seq<char>,
    /// Private-live flag.
    pub private_live: bool,
}

impl View for KuaishouLiveStreamInfo {
    type V = StreamView;

    open spec fn view(&self) -> StreamView {
        StreamView {
            id: self.id@,
            poster: self.poster@,
            play_urls: json_tree(self.play_urls),
            url: self.url@,
            hls_play_url: self.hls_play_url@,
            location: opt_text(self.location),
            stream_type: self.stream_type@,
            live_guess: self.live_guess,
            exp_tag: self.exp_tag@,
            private_live: self.private_live,
        }
    }
}

/// A game block as plain values: id, name, poster, description, category
/// abbreviation, category name, watching count and room count.
pub type GameView = (Seq<char>, Seq<char>, Seq<char>, Seq<char>, Seq<char>, Seq<char>, Seq<char>, Seq<char>);

impl View for KuaishouLiveRoomGameInfo {
    type V = GameView;

    open spec fn view(&self) -> GameView {
        (
            self.id@,
            self.name@,
            self.poster@,
            self.description@,
            self.category_abbr@,
            self.category_name@,
            self.watching_count@,
            self.room_count@,
        )
    }
}

/// A live room as plain values.
#[verifier::ext_equal]
pub struct PlayItemView {
    /// The stream.
    pub stream: StreamView,
    /// The author.
    pub author: UserInfoView,
    /// The game.
    pub game: GameView,
    /// Whether the room is live.
    pub is_living: bool,
    /// Authorization token.
    pub auth_token: Option<Seq<char>>,
    /// Config object.
    pub config: JsonTree,
    /// Websocket info.
    pub websocket_info: JsonTree,
    /// Status object.
    pub status: JsonTree,
}

impl View for KuaishouLiveRoomPlayItem {
    type V = PlayItemView;

    open spec fn view(&self) -> PlayItemView {
        PlayItemView {
            stream: self.live_stream@,
            author: self.author@,
            game: self.game_info@,
            is_living: self.is_living,
            auth_token: opt_text(self.auth_token),
            config: json_tree(self.config),
            websocket_info: json_tree(self.websocket_info),
            status: json_tree(self.status),
        }
    }
}

/// The stream id of a live detail: the stream's `id`, else the config's
/// `liveStreamId`.
pub open spec fn detail_stream_id(d: Option<KuaishouJsonValue>) -> Seq<char> {
    pick3(
        ks_text(get_in(object_at(d, "liveStream"@), "id"@)),
        ks_text(get_in(object_at(d, "config"@), "liveStreamId"@)),
        None,
    )
}

/// The cover of a live detail: the config's `coverUrl` or `rtCoverUrl`,
/// else the stream's poster.
pub open spec fn detail_cover(d: Option<KuaishouJsonValue>) -> Seq<char> {
    let ls = object_at(d, "liveStream"@);
    let cfg = object_at(d, "config"@);
    pick3(ks_text(get_in(cfg, "coverUrl"@)), ks_text(get_in(cfg, "rtCoverUrl"@)), ks_text(get_in(ls, "poster"@)))
}

/// The HLS play URL of a live detail.
pub open spec fn detail_hls(d: Option<KuaishouJsonValue>) -> Seq<char> {
    pick3(
        ks_text(get_in(object_at(d, "config"@), "hlsPlayUrl"@)),
        ks_text(get_in(object_at(d, "liveStream"@), "hlsPlayUrl"@)),
        None,
    )
}

/// The play URLs of a live detail: the stream's `playUrls`, else the
/// config's `multiResolutionPlayUrls`, else an empty object.
pub open spec fn detail_play_urls(d: Option<KuaishouJsonValue>) -> JsonTree {
    match get_in(object_at(d, "liveStream"@), "playUrls"@) {
        Some(x) => json_tree(x),
        None => tree_or_empty(get_in(object_at(d, "config"@), "multiResolutionPlayUrls"@)),
    }
}

/// The config object of a live room: the detail's config with the stream
/// id, HLS URL, cover, real-time cover, game and play URLs set.
pub open spec fn detail_config(d: Option<KuaishouJsonValue>) -> JsonTree {
    let ls = object_at(d, "liveStream"@);
    let cfg = object_at(d, "config"@);
    let m0 = members_of(cfg);
    let m1 = tree_set(m0, "liveStreamId"@, JsonTree::Text(detail_stream_id(d)));
    let m2 = tree_set(m1, "hlsPlayUrl"@, JsonTree::Text(detail_hls(d)));
    let m3 = tree_set(m2, "coverUrl"@, JsonTree::Text(detail_cover(d)));
    let rt = match ks_text(get_in(cfg, "rtCoverUrl"@)) {
        Some(t) => t,
        None => text_or(ks_text(get_in(ls, "poster"@)), seq![]),
    };
    let m4 = tree_set(m3, "rtCoverUrl"@, JsonTree::Text(rt));
    let m5 = tree_set(m4, "gameInfo"@, JsonTree::Record(members_of(object_at(d, "gameInfo"@))));
    JsonTree::Record(tree_set(m5, "multiResolutionPlayUrls"@, detail_play_urls(d)))
}

/// The status of a live detail: its `status`, else `forbiddenState` set to
/// its `result` (0 when absent).
pub open spec fn detail_status(d: Option<KuaishouJsonValue>) -> JsonTree {
    match get_in(d, "status"@) {
        Some(x) => json_tree(x),
        None => JsonTree::Record(
            seq![(
                "forbiddenState"@,
                JsonTree::Number(decimal(u64_or(ks_u64(get_in(d, "result"@)), 0) as nat)),
            )],
        ),
    }
}

/// The room a live detail describes, played by `author`.
pub open spec fn detail_play_item(d: Option<KuaishouJsonValue>, author: UserInfoView) -> PlayItemView {
    let ls = object_at(d, "liveStream"@);
    let cfg = object_at(d, "config"@);
    let game = object_at(d, "gameInfo"@);
    PlayItemView {
        stream: StreamView {
            id: detail_stream_id(d),
            poster: pick3(ks_text(get_in(ls, "poster"@)), Some(detail_cover(d)), None),
            play_urls: detail_play_urls(d),
            url: text_or(ks_text(get_in(ls, "url"@)), seq![]),
            hls_play_url: detail_hls(d),
            location: ks_text(get_in(ls, "location"@)),
            stream_type: text_or(ks_text(get_in(ls, "type"@)), "live"@),
            live_guess: flag_or(json_bool(get_in(ls, "liveGuess"@)), false),
            exp_tag: pick3(ks_text(get_in(ls, "expTag"@)), ks_text(get_in(cfg, "expTag"@)), None),
            private_live: flag_or(
                json_bool(get_in(ls, "privateLive"@)),
                flag_or(json_bool(get_in(cfg, "privateLive"@)), false),
            ),
        },
        author,
        game: (
            pick3(ks_text(get_in(game, "id"@)), ks_text(get_in(game, "gameId"@)), None),
            text_or(ks_text(get_in(game, "name"@)), seq![]),
            pick3(ks_text(get_in(game, "poster"@)), ks_text(get_in(game, "coverUrl"@)), None),
            text_or(ks_text(get_in(game, "description"@)), seq![]),
            pick3(ks_text(get_in(game, "categoryAbbr"@)), ks_text(get_in(game, "category"@)), None),
            text_or(ks_text(get_in(game, "categoryName"@)), seq![]),
            pick3(
                ks_text(get_in(cfg, "watchingCount"@)),
                ks_text(get_in(d, "watchingCount"@)),
                ks_text(get_in(game, "watchingCount"@)),
            ),
            text_or(ks_text(get_in(game, "roomCount"@)), seq![]),
        ),
        is_living: flag_or(json_bool(get_in(d, "isLiving"@)), detail_stream_id(d).len() > 0),
        auth_token: ks_text(get_in(d, "authToken"@)),
        config: detail_config(d),
        websocket_info: tree_or_empty(get_in(d, "websocketInfo"@)),
        status: detail_status(d),
    }
}

fn object_member<'a>(v: Option<&'a KuaishouJsonValue>, key: &str) -> (r: Option<&'a KuaishouJsonValue>)
    ensures
        deref(r) == object_at(deref(v), key@),
{
    let m = member(v, key);
    match m {
        Some(KuaishouJsonValue::Object(_)) => m,
        _ => None,
    }
}

fn no_members() -> (o: KuaishouJsonObject)
    ensures
        member_trees(o.entries@) == Seq::<(Seq<char>, JsonTree)>::empty(),
{
    let o = KuaishouJsonObject { entries: Vec::new() };
    assert(o.entries@ =~= Seq::<(String, KuaishouJsonValue)>::empty());
    o
}

fn object_members(v: Option<&KuaishouJsonValue>) -> (o: KuaishouJsonObject)
    ensures
        member_trees(o.entries@) == members_of(deref(v)),
{
    match v {
        Some(x) => match x {
            KuaishouJsonValue::Object(_) => {
                let c = copy_json(x);
                match c {
                    KuaishouJsonValue::Object(o) => {
                        assert(json_tree(c) == JsonTree::Record(member_trees(o.entries@)));
                        o
                    },
                    _ => {
                        assert(json_tree(c) !is Record);
                        no_members()
                    },
                }
            },
            _ => no_members(),
        },
        None => no_members(),
    }
}

fn text_at(v: Option<&KuaishouJsonValue>, key: &str, fallback: &str) -> (s: String)
    ensures
        s@ == text_or(ks_text(get_in(deref(v), key@)), fallback@),
{
    text_value_or(string_value(member(v, key)), fallback.to_owned())
}

fn flag_at_or(v: Option<&KuaishouJsonValue>, key: &str, fallback: bool) -> (b: bool)
    ensures
        b == flag_or(json_bool(get_in(deref(v), key@)), fallback),
{
    match bool_value(member(v, key)) {
        Some(b) => b,
        None => fallback,
    }
}

/// The room a live detail describes, played by `author` (see
/// `detail_play_item`).
pub fn map_live_detail_to_live_room_play_item(
    detail_data: &KuaishouJsonValue,
    author: KuaishouUserProfileUserInfo,
) -> (item: KuaishouLiveRoomPlayItem)
    ensures
        item@ == detail_play_item(Some(*detail_data), author@),
{
    proof {
        reveal_strlit("");
    }
    let d = Some(detail_data);
    let ls = object_member(d, "liveStream");
    let cfg = object_member(d, "config");
    let game = object_member(d, "gameInfo");
    let live_stream_id = pick_of2(string_value(member(ls, "id")), string_value(member(cfg, "liveStreamId")));
    let cover_url = pick_of3(
        string_value(member(cfg, "coverUrl")),
        string_value(member(cfg, "rtCoverUrl")),
        string_value(member(ls, "poster")),
    );
    let hls_play_url = pick_of2(string_value(member(cfg, "hlsPlayUrl")), string_value(member(ls, "hlsPlayUrl")));
    let empty = empty_object();
    let play_urls = copy_or(member(ls, "playUrls"), member(cfg, "multiResolutionPlayUrls"), None, empty);
    let mut config = object_members(cfg);
    assert(live_stream_id@ == detail_stream_id(Some(*detail_data)));
    set_member(&mut config, "liveStreamId", KuaishouJsonValue::String(live_stream_id.clone()));
    set_member(&mut config, "hlsPlayUrl", KuaishouJsonValue::String(hls_play_url.clone()));
    set_member(&mut config, "coverUrl", KuaishouJsonValue::String(cover_url.clone()));
    let rt_cover = match string_value(member(cfg, "rtCoverUrl")) {
        Some(t) => t,
        None => text_at(ls, "poster", ""),
    };
    let ghost dd = Some(*detail_data);
    assert(hls_play_url@ == detail_hls(dd));
    assert(cover_url@ == detail_cover(dd));
    assert(rt_cover@ == (match ks_text(get_in(object_at(dd, "config"@), "rtCoverUrl"@)) {
        Some(t) => t,
        None => text_or(ks_text(get_in(object_at(dd, "liveStream"@), "poster"@)), seq![]),
    }));
    set_member(&mut config, "rtCoverUrl", KuaishouJsonValue::String(rt_cover));
    set_member(&mut config, "gameInfo", KuaishouJsonValue::Object(object_members(game)));
    set_member(&mut config, "multiResolutionPlayUrls", copy_json(&play_urls));
    let status = match member(d, "status") {
        Some(s) => copy_json(s),
        None => {
            let forbidden = u64_to_decimal(match number_value(member(d, "result")) {
                Some(n) => n,
                None => 0,
            });
            let mut o = no_members();
            set_member(&mut o, "forbiddenState", KuaishouJsonValue::Number(forbidden));
            KuaishouJsonValue::Object(o)
        },
    };
    let has_id = !live_stream_id.as_str().is_empty();
    let item = KuaishouLiveRoomPlayItem {
        live_stream: KuaishouLiveStreamInfo {
            id: live_stream_id,
            poster: pick_of2(string_value(member(ls, "poster")), Some(cover_url)),
            play_urls,
            url: text_at(ls, "url", ""),
            hls_play_url,
            location: string_value(member(ls, "location")),
            stream_type: text_at(ls, "type", "live"),
            live_guess: flag_at_or(ls, "liveGuess", false),
            exp_tag: pick_of2(string_value(member(ls, "expTag")), string_value(member(cfg, "expTag"))),
            private_live: match bool_value(member(ls, "privateLive")) {
                Some(b) => b,
                None => flag_at_or(cfg, "privateLive", false),
            },
        },
        author,
        game_info: KuaishouLiveRoomGameInfo {
            id: pick_of2(string_value(member(game, "id")), string_value(member(game, "gameId"))),
            name: text_at(game, "name", ""),
            poster: pick_of2(string_value(member(game, "poster")), string_value(member(game, "coverUrl"))),
            description: text_at(game, "description", ""),
            category_abbr: pick_of2(
                string_value(member(game, "categoryAbbr")),
                string_value(member(game, "category")),
            ),
            category_name: text_at(game, "categoryName", ""),
            watching_count: pick_of3(
                string_value(member(cfg, "watchingCount")),
                string_value(member(d, "watchingCount")),
                string_value(member(game, "watchingCount")),
            ),
            room_count: text_at(game, "roomCount", ""),
        },
        is_living: flag_at_or(d, "isLiving", has_id),
        auth_token: string_value(member(d, "authToken")),
        config: KuaishouJsonValue::Object(config),
        websocket_info: copy_or(member(d, "websocketInfo"), None, None, empty_object()),
        status,
    };
    let ghost target = detail_play_item(Some(*detail_data), item.author@);
    assert(item.live_stream@ =~= target.stream);
    assert(item.game_info@ =~= target.game);
    assert(json_tree(item.config) =~= target.config);
    assert(json_tree(item.websocket_info) =~= target.websocket_info);
    assert(json_tree(item.status) =~= target.status);
    assert(item.is_living == target.is_living);
    assert(item@ =~= detail_play_item(Some(*detail_data), item.author@));
    item
}

/// The verified status of an account without verification, as plain
/// values.
pub open spec fn no_verification() -> VerifiedView {
    VerifiedView { verified: false, description: seq![], type_id: 0, is_new: false, icon_url: seq![] }
}

/// The banned status of an account under no restriction.
pub open spec fn no_ban() -> KuaishouBannedStatus {
    KuaishouBannedStatus { banned: false, social_banned: false, isolate: false, defriend: false }
}

/// The author of a recommended room: read as a live detail's author,
/// except that the statuses are those parsed from the block's
/// `verifiedStatus` and `bannedStatus` when they parsed (else empty), and
/// the counts are the block's `counts` as they are (else an empty object).
pub open spec fn reco_author_of(
    a: Option<KuaishouJsonValue>,
    verified: Option<VerifiedView>,
    banned: Option<KuaishouBannedStatus>,
) -> UserInfoView {
    let b = live_author_of(a);
    UserInfoView {
        id: b.id,
        name: b.name,
        description: b.description,
        avatar: b.avatar,
        sex: b.sex,
        living: b.living,
        follow_status: b.follow_status,
        constellation: b.constellation,
        city_name: b.city_name,
        origin_user_id: b.origin_user_id,
        privacy: b.privacy,
        is_new: b.is_new,
        timestamp: b.timestamp,
        verified: match verified {
            Some(v) => v,
            None => no_verification(),
        },
        banned: match banned {
            Some(x) => x,
            None => no_ban(),
        },
        counts: tree_or_empty(get_in(a, "counts"@)),
    }
}

/// A copy of a verified status.
pub fn copy_verified_status(status: &KuaishouVerifiedStatus) -> (c: KuaishouVerifiedStatus)
    ensures
        c@ == status@,
{
    KuaishouVerifiedStatus {
        verified: status.verified,
        description: status.description.clone(),
        type_id: status.type_id,
        is_new: status.is_new,
        icon_url: status.icon_url.clone(),
    }
}

/// The author of a recommended room (see `reco_author_of`), given the
/// statuses parsed from its block.
pub fn normalize_reco_author(
    author: Option<&KuaishouJsonValue>,
    verified_status: Option<KuaishouVerifiedStatus>,
    banned_status: Option<KuaishouBannedStatus>,
) -> (info: KuaishouUserProfileUserInfo)
    ensures
        info@ == reco_author_of(
            deref(author),
            match verified_status {
                Some(v) => Some(v@),
                None => None,
            },
            banned_status,
        ),
{
    proof {
        reveal_strlit("");
    }
    let mut info = crate::kuaishou::author::normalize_live_author(author);
    info.verified_status = match verified_status {
        Some(v) => v,
        None => empty_kuaishou_verified_status(),
    };
    info.banned_status = match banned_status {
        Some(b) => b,
        None => empty_kuaishou_banned_status(),
    };
    info.counts = copy_or(member(author, "counts"), None, None, empty_object());
    assert(info.verified_status@ =~= match verified_status {
        Some(v) => v@,
        None => no_verification(),
    });
    assert(info@ =~= reco_author_of(
        deref(author),
        match verified_status {
            Some(v) => Some(v@),
            None => None,
        },
        banned_status,
    ));
    info
}

/// A recommended room, played by `author`.
pub open spec fn reco_play_item(r: Option<KuaishouJsonValue>, author: UserInfoView) -> PlayItemView {
    let ls = object_at(r, "liveStream"@);
    let cfg = object_at(r, "config"@);
    let game = object_at(r, "gameInfo"@);
    let stream_id = match ks_text(get_in(cfg, "liveStreamId"@)) {
        Some(t) => t,
        None => text_or(ks_text(get_in(ls, "id"@)), seq![]),
    };
    PlayItemView {
        stream: StreamView {
            id: text_or(ks_text(get_in(ls, "id"@)), seq![]),
            poster: pick3(ks_text(get_in(ls, "poster"@)), ks_text(get_in(cfg, "coverUrl"@)), None),
            play_urls: tree_or_empty(get_in(ls, "playUrls"@)),
            url: text_or(ks_text(get_in(ls, "url"@)), seq![]),
            hls_play_url: pick3(
                ks_text(get_in(ls, "hlsPlayUrl"@)),
                ks_text(get_in(cfg, "hlsPlayUrl"@)),
                None,
            ),
            location: ks_text(get_in(ls, "location"@)),
            stream_type: text_or(ks_text(get_in(ls, "type"@)), "live"@),
            live_guess: flag_or(json_bool(get_in(ls, "liveGuess"@)), false),
            exp_tag: text_or(ks_text(get_in(ls, "expTag"@)), seq![]),
            private_live: flag_or(
                json_bool(get_in(ls, "privateLive"@)),
                flag_or(json_bool(get_in(cfg, "privateLive"@)), false),
            ),
        },
        author,
        game: (
            text_or(ks_text(get_in(game, "id"@)), seq![]),
            text_or(ks_text(get_in(game, "name"@)), seq![]),
            text_or(ks_text(get_in(game, "poster"@)), seq![]),
            text_or(ks_text(get_in(game, "description"@)), seq![]),
            text_or(ks_text(get_in(game, "categoryAbbr"@)), seq![]),
            text_or(ks_text(get_in(game, "categoryName"@)), seq![]),
            text_or(ks_text(get_in(game, "watchingCount"@)), seq![]),
            text_or(ks_text(get_in(game, "roomCount"@)), seq![]),
        ),
        is_living: flag_or(json_bool(get_in(r, "isLiving"@)), false),
        auth_token: ks_text(get_in(r, "authToken"@)),
        config: JsonTree::Record(tree_set(members_of(cfg), "liveStreamId"@, JsonTree::Text(stream_id))),
        websocket_info: tree_or_empty(get_in(r, "websocketInfo"@)),
        status: tree_or_empty(get_in(r, "status"@)),
    }
}

/// A recommended room (see `reco_play_item`), its author read with the
/// statuses parsed from the author block (see `reco_author_of`).
pub fn map_reco_item_to_live_room_play_item(
    reco_item: &KuaishouJsonValue,
    verified_status: Option<KuaishouVerifiedStatus>,
    banned_status: Option<KuaishouBannedStatus>,
) -> (item: KuaishouLiveRoomPlayItem)
    ensures
        item@ == reco_play_item(
            Some(*reco_item),
            reco_author_of(
                get_in(Some(*reco_item), "author"@),
                match verified_status {
                    Some(v) => Some(v@),
                    None => None,
                },
                banned_status,
            ),
        ),
{
    proof {
        reveal_strlit("");
    }
    let r = Some(reco_item);
    let ls = object_member(r, "liveStream");
    let cfg = object_member(r, "config");
    let game = object_member(r, "gameInfo");
    let stream_id = match string_value(member(cfg, "liveStreamId")) {
        Some(t) => t,
        None => text_at(ls, "id", ""),
    };
    let mut config = object_members(cfg);
    set_member(&mut config, "liveStreamId", KuaishouJsonValue::String(stream_id));
    let item = KuaishouLiveRoomPlayItem {
        live_stream: KuaishouLiveStreamInfo {
            id: text_at(ls, "id", ""),
            poster: pick_of2(string_value(member(ls, "poster")), string_value(member(cfg, "coverUrl"))),
            play_urls: copy_or(member(ls, "playUrls"), None, None, empty_object()),
            url: text_at(ls, "url", ""),
            hls_play_url: pick_of2(string_value(member(ls, "hlsPlayUrl")), string_value(member(cfg, "hlsPlayUrl"))),
            location: string_value(member(ls, "location")),
            stream_type: text_at(ls, "type", "live"),
            live_guess: flag_at_or(ls, "liveGuess", false),
            exp_tag: text_at(ls, "expTag", ""),
            private_live: match bool_value(member(ls, "privateLive")) {
                Some(b) => b,
                None => flag_at_or(cfg, "privateLive", false),
            },
        },
        author: normalize_reco_author(member(r, "author"), verified_status, banned_status),
        game_info: KuaishouLiveRoomGameInfo {
            id: text_at(game, "id", ""),
            name: text_at(game, "name", ""),
            poster: text_at(game, "poster", ""),
            description: text_at(game, "description", ""),
            category_abbr: text_at(game, "categoryAbbr", ""),
            category_name: text_at(game, "categoryName", ""),
            watching_count: text_at(game, "watchingCount", ""),
            room_count: text_at(game, "roomCount", ""),
        },
        is_living: flag_at_or(r, "isLiving", false),
        auth_token: string_value(member(r, "authToken")),
        config: KuaishouJsonValue::Object(config),
        websocket_info: copy_or(member(r, "websocketInfo"), None, None, empty_object()),
        status: copy_or(member(r, "status"), None, None, empty_object()),
    };
    let ghost target = reco_play_item(Some(*reco_item), item.author@);
    assert(item.live_stream@ =~= target.stream);
    assert(item.game_info@ =~= target.game);
    assert(json_tree(item.config) =~= target.config);
    assert(item@ =~= target);
    item
}

/// A copy of a user info block.
pub fn copy_user_info(info: &KuaishouUserProfileUserInfo) -> (c: KuaishouUserProfileUserInfo)
    ensures
        c@ == info@,
{
    KuaishouUserProfileUserInfo {
        id: info.id.clone(),
        name: info.name.clone(),
        description: info.description.clone(),
        avatar: info.avatar.clone(),
        sex: info.sex.clone(),
        living: info.living,
        follow_status: info.follow_status.clone(),
        constellation: info.constellation.clone(),
        city_name: info.city_name.clone(),
        origin_user_id: info.origin_user_id,
        privacy: info.privacy,
        is_new: info.is_new,
        timestamp: info.timestamp,
        verified_status: copy_verified_status(&info.verified_status),
        banned_status: info.banned_status,
        counts: copy_json(&info.counts),
    }
}

fn copy_text(s: &Option<String>) -> (c: Option<String>)
    ensures
        opt_text(c) == opt_text(*s),
{
    match s {
        Some(t) => Some(t.clone()),
        None => None,
    }
}

/// A copy of a live room.
pub fn copy_play_item(item: &KuaishouLiveRoomPlayItem) -> (c: KuaishouLiveRoomPlayItem)
    ensures
        c@ == item@,
{
    let s = &item.live_stream;
    let g = &item.game_info;
    let c = KuaishouLiveRoomPlayItem {
        live_stream: KuaishouLiveStreamInfo {
            id: s.id.clone(),
            poster: s.poster.clone(),
            play_urls: copy_json(&s.play_urls),
            url: s.url.clone(),
            hls_play_url: s.hls_play_url.clone(),
            location: copy_text(&s.location),
            stream_type: s.stream_type.clone(),
            live_guess: s.live_guess,
            exp_tag: s.exp_tag.clone(),
            private_live: s.private_live,
        },
        author: copy_user_info(&item.author),
        game_info: KuaishouLiveRoomGameInfo {
            id: g.id.clone(),
            name: g.name.clone(),
            poster: g.poster.clone(),
            description: g.description.clone(),
            category_abbr: g.category_abbr.clone(),
            category_name: g.category_name.clone(),
            watching_count: g.watching_count.clone(),
            room_count: g.room_count.clone(),
        },
        is_living: item.is_living,
        auth_token: copy_text(&item.auth_token),
        config: copy_json(&item.config),
        websocket_info: copy_json(&item.websocket_info),
        status: copy_json(&item.status),
    };
    assert(c.live_stream@ =~= item.live_stream@);
    assert(c@ =~= item@);
    c
}

/// The answers a live room is assembled from.
pub struct KuaishouLiveRoomSources<'a> {
    /// The user info answer, when it arrived.
    pub user_info_payload: Option<&'a KuaishouJsonValue>,
    /// The sensitive user info answer, when it arrived.
    pub sensitive_payload: Option<&'a KuaishouJsonValue>,
    /// The live detail answer.
    pub live_detail_payload: &'a KuaishouJsonValue,
    /// The emoji catalog, when it arrived and parsed.
    pub emoji_payload: Option<&'a KuaishouEmojiList>,
    /// The gift list answer, when it arrived.
    pub gift_payload: Option<&'a KuaishouJsonValue>,
    /// The websocket info answer, when it arrived.
    pub websocket_payload: Option<&'a KuaishouJsonValue>,
    /// The recommended rooms answer, when it arrived.
    pub reco_payload: Option<&'a KuaishouJsonValue>,
}

/// The statuses parsed from each recommended room's author block, as
/// plain values.
pub open spec fn statuses_view(
    statuses: Seq<(Option<KuaishouVerifiedStatus>, Option<KuaishouBannedStatus>)>,
) -> Seq<(Option<VerifiedView>, Option<KuaishouBannedStatus>)> {
    statuses.map_values(
        |p: (Option<KuaishouVerifiedStatus>, Option<KuaishouBannedStatus>)|
            (
                match p.0 {
                    Some(v) => Some(v@),
                    None => None,
                },
                p.1,
            ),
    )
}

/// The statuses given for the `i`-th recommended room, none past the end.
pub open spec fn status_at(
    statuses: Seq<(Option<VerifiedView>, Option<KuaishouBannedStatus>)>,
    i: int,
) -> (Option<VerifiedView>, Option<KuaishouBannedStatus>) {
    if 0 <= i < statuses.len() {
        statuses[i]
    } else {
        (None, None)
    }
}

/// The live detail data of a room's answers, when its `result` is 1.
pub open spec fn room_detail(s: KuaishouLiveRoomSources) -> Option<KuaishouJsonValue> {
    crate::kuaishou::profile::live_detail_of(Some(*s.live_detail_payload))
}

/// The author of the room played: the live detail's author completed by
/// the user info and sensitive user info answers.
pub open spec fn room_author(s: KuaishouLiveRoomSources) -> UserInfoView {
    crate::kuaishou::author::merged_author_of(
        get_in(room_detail(s), "author"@),
        get_in(get_in(deref(s.user_info_payload), "data"@), "userInfo"@),
        get_in(get_in(deref(s.sensitive_payload), "data"@), "sensitiveUserInfo"@),
    )
}

/// The items of a value that is an array, none otherwise.
pub open spec fn array_items(v: Option<KuaishouJsonValue>) -> Seq<KuaishouJsonValue> {
    match v {
        Some(KuaishouJsonValue::Array(items)) => items@,
        _ => Seq::empty(),
    }
}

/// The recommended rooms: the recommendation answer's `data.list`, else
/// the live detail's `recommendList`.
pub open spec fn recommend_list(s: KuaishouLiveRoomSources, d: Option<KuaishouJsonValue>) -> Seq<KuaishouJsonValue> {
    match get_in(get_in(deref(s.reco_payload), "data"@), "list"@) {
        Some(KuaishouJsonValue::Array(items)) => items@,
        _ => array_items(get_in(d, "recommendList"@)),
    }
}

/// The rooms made of the recommended items that are objects, in order,
/// each read with the statuses given at its position.
pub open spec fn reco_items(
    list: Seq<KuaishouJsonValue>,
    statuses: Seq<(Option<VerifiedView>, Option<KuaishouBannedStatus>)>,
) -> Seq<PlayItemView>
    decreases list.len(),
{
    if list.len() == 0 {
        Seq::empty()
    } else {
        let rest = reco_items(list.drop_last(), statuses);
        let i = list.len() - 1;
        if list[i] is Object {
            let st = status_at(statuses, i);
            rest.push(
                reco_play_item(
                    Some(list[i]),
                    reco_author_of(get_in(Some(list[i]), "author"@), st.0, st.1),
                ),
            )
        } else {
            rest
        }
    }
}

/// The stream ids of rooms.
pub open spec fn room_ids(items: Seq<PlayItemView>) -> Seq<Seq<char>> {
    items.map_values(|v: PlayItemView| v.stream.id)
}

/// The play list: the room played, then the recommended rooms, each
/// non-empty stream id once (its first room kept).
pub open spec fn room_play_list(
    s: KuaishouLiveRoomSources,
    statuses: Seq<(Option<VerifiedView>, Option<KuaishouBannedStatus>)>,
) -> Seq<PlayItemView> {
    let d = room_detail(s);
    let all = seq![detail_play_item(d, room_author(s))] + reco_items(recommend_list(s, d), statuses);
    crate::kuaishou::support::kept_positions(room_ids(all), Set::empty(), 0).map_values(|k: int| all[k])
}

/// The texts of the string items, in order.
pub open spec fn string_texts(items: Seq<KuaishouJsonValue>) -> Seq<Seq<char>>
    decreases items.len(),
{
    if items.len() == 0 {
        Seq::empty()
    } else {
        let rest = string_texts(items.drop_last());
        match items.last() {
            KuaishouJsonValue::String(t) => rest.push(t@),
            _ => rest,
        }
    }
}

/// A value's text when it is a string.
pub open spec fn string_of(v: Option<KuaishouJsonValue>) -> Option<Seq<char>> {
    match v {
        Some(KuaishouJsonValue::String(t)) => Some(t@),
        _ => None,
    }
}

/// The websocket URLs: the websocket answer's `data.websocketUrls`, else
/// those of the live detail's `websocketInfo`; strings only.
pub open spec fn room_websocket_urls(s: KuaishouLiveRoomSources, d: Option<KuaishouJsonValue>) -> Seq<Seq<char>> {
    match get_in(get_in(deref(s.websocket_payload), "data"@), "websocketUrls"@) {
        Some(KuaishouJsonValue::Array(items)) => string_texts(items@),
        _ => string_texts(array_items(get_in(object_at(d, "websocketInfo"@), "websocketUrls"@))),
    }
}

/// The websocket token: the websocket answer's, else the live detail's,
/// else empty.
pub open spec fn room_token(s: KuaishouLiveRoomSources, d: Option<KuaishouJsonValue>) -> Seq<char> {
    match string_of(get_in(get_in(deref(s.websocket_payload), "data"@), "token"@)) {
        Some(t) => t,
        None => text_or(string_of(get_in(object_at(d, "websocketInfo"@), "token"@)), seq![]),
    }
}

/// The `data` of the gift answer.
pub open spec fn gift_data(s: KuaishouLiveRoomSources) -> Option<KuaishouJsonValue> {
    get_in(deref(s.gift_payload), "data"@)
}

/// A live room assembled from its answers: with no usable live detail, an
/// empty room; else the room played with its author, the play list, the
/// websocket endpoints, the notices, and the emoji and gift state; in
/// both cases with the given snapshot.
pub open spec fn room_built_from(
    room: KuaishouLiveRoomInfo,
    principal_id: Seq<char>,
    s: KuaishouLiveRoomSources,
    statuses: Seq<(Option<VerifiedView>, Option<KuaishouBannedStatus>)>,
    upstream_payload: KuaishouJsonValue,
) -> bool {
    &&& room.principal_id@ == principal_id
    &&& room.active_index == 0
    &&& !room.loading
    &&& room.upstream_payload == upstream_payload
    &&& match room_detail(s) {
        None => {
            &&& room.current is None
            &&& room.play_list@.len() == 0
            &&& room.websocket_urls@.len() == 0
            &&& room.token@.len() == 0
            &&& room.notice_list@.len() == 0
            &&& room.emoji.icon_urls@.len() == 0
            &&& room.emoji.gift_list@.len() == 0
            &&& room.emoji.gift_panel_list@.len() == 0
            &&& room.emoji.token@.len() == 0
            &&& room.emoji.panel_token@.len() == 0
            &&& room.emoji.long_send_gift_type is None
        },
        Some(d) => {
            &&& room.current matches Some(c) && c@ == detail_play_item(Some(d), room_author(s))
            &&& room.play_list@.map_values(|i: KuaishouLiveRoomPlayItem| i@) == room_play_list(s, statuses)
            &&& room.websocket_urls@.map_values(|u: String| u@) == room_websocket_urls(s, Some(d))
            &&& room.token@ == room_token(s, Some(d))
            &&& json_trees(room.notice_list@) == json_trees(array_items(get_in(Some(d), "noticeList"@)))
            &&& room.emoji.icon_urls.deep_view() == match s.emoji_payload {
                Some(e) => e.data.vision_base_emoticons.icon_urls.deep_view(),
                None => Seq::empty(),
            }
            &&& json_trees(room.emoji.gift_list@) == json_trees(array_items(get_in(gift_data(s), "gifts"@)))
            &&& json_trees(room.emoji.gift_panel_list@) == json_trees(
                array_items(get_in(gift_data(s), "giftPanelList"@)),
            )
            &&& room.emoji.token@ == text_or(string_of(get_in(gift_data(s), "token"@)), seq![])
            &&& room.emoji.panel_token@ == text_or(string_of(get_in(gift_data(s), "panelToken"@)), seq![])
            &&& match room.emoji.long_send_gift_type {
                Some(v) => get_in(gift_data(s), "longSendGiftType"@) matches Some(x) && json_tree(v)
                    == json_tree(x),
                None => get_in(gift_data(s), "longSendGiftType"@) is None,
            }
        },
    }
}

/// The play list starts with the room played, and no non-empty stream id
/// occurs in it twice.
pub proof fn lemma_room_play_list(
    s: KuaishouLiveRoomSources,
    statuses: Seq<(Option<VerifiedView>, Option<KuaishouBannedStatus>)>,
)
    ensures
        room_play_list(s, statuses).len() >= 1,
        room_play_list(s, statuses)[0] == detail_play_item(room_detail(s), room_author(s)),
        forall|a: int, b: int|
            0 <= a < b < room_play_list(s, statuses).len() && room_play_list(s, statuses)[a].stream.id.len()
                > 0 ==> #[trigger] room_play_list(s, statuses)[a].stream.id
                != #[trigger] room_play_list(s, statuses)[b].stream.id,
{
    let d = room_detail(s);
    let all = seq![detail_play_item(d, room_author(s))] + reco_items(recommend_list(s, d), statuses);
    let ids = room_ids(all);
    let kept = crate::kuaishou::support::kept_positions(ids, Set::empty(), 0);
    crate::kuaishou::support::lemma_dedupe_live_rooms(ids);
    assert(ids.len() == all.len());
    assert(kept.len() >= 1 && kept[0] == 0) by {
        if ids[0].len() == 0 {
            assert(kept == seq![0int] + crate::kuaishou::support::kept_positions(ids, Set::empty(), 1));
        } else {
            assert(!Set::<Seq<char>>::empty().contains(ids[0]));
            assert(kept == seq![0int] + crate::kuaishou::support::kept_positions(
                ids,
                Set::<Seq<char>>::empty().insert(ids[0]),
                1,
            ));
        }
    }
    let list = kept.map_values(|k: int| all[k]);
    assert(list == room_play_list(s, statuses));
    assert forall|a: int, b: int|
        0 <= a < b < list.len() && list[a].stream.id.len() > 0 implies #[trigger] list[a].stream.id
        != #[trigger] list[b].stream.id by {
        assert(ids[kept[a]] == list[a].stream.id);
        assert(ids[kept[b]] == list[b].stream.id);
    }
}

fn empty_live_room_info(principal_id: &str, upstream_payload: KuaishouJsonValue) -> (room: KuaishouLiveRoomInfo)
    ensures
        room.principal_id@ == principal_id@,
        room.active_index == 0,
        !room.loading,
        room.upstream_payload == upstream_payload,
        room.current is None,
        room.play_list@.len() == 0,
        room.websocket_urls@.len() == 0,
        room.token@.len() == 0,
        room.notice_list@.len() == 0,
        room.emoji.icon_urls@.len() == 0,
        room.emoji.gift_list@.len() == 0,
        room.emoji.gift_panel_list@.len() == 0,
        room.emoji.token@.len() == 0,
        room.emoji.panel_token@.len() == 0,
        room.emoji.long_send_gift_type is None,
{
    KuaishouLiveRoomInfo {
        principal_id: principal_id.to_owned(),
        active_index: 0,
        current: None,
        play_list: Vec::new(),
        websocket_urls: Vec::new(),
        token: String::new(),
        notice_list: Vec::new(),
        loading: false,
        emoji: KuaishouLiveRoomEmojiState {
            icon_urls: Vec::new(),
            gift_list: Vec::new(),
            gift_panel_list: Vec::new(),
            token: String::new(),
            panel_token: String::new(),
            long_send_gift_type: None,
        },
        upstream_payload,
    }
}

fn string_items(v: Option<&KuaishouJsonValue>) -> (out: Option<Vec<String>>)
    ensures
        match deref(v) {
            Some(KuaishouJsonValue::Array(items)) => out matches Some(u) && u@.map_values(
                |t: String| t@,
            ) == string_texts(items@),
            _ => out is None,
        },
{
    match v {
        Some(KuaishouJsonValue::Array(items)) => {
            let mut out: Vec<String> = Vec::new();
            for i in 0..items.len()
                invariant
                    out@.map_values(|t: String| t@) == string_texts(items@.take(i as int)),
            {
                assert(items@.take(i + 1).drop_last() =~= items@.take(i as int));
                let ghost before = out@;
                match &items[i] {
                    KuaishouJsonValue::String(t) => {
                        out.push(t.clone());
                        assert(out@.map_values(|t: String| t@) =~= before.map_values(|t: String| t@).push(t@));
                    },
                    _ => {},
                }
            }
            assert(items@.take(items@.len() as int) =~= items@);
            Some(out)
        },
        _ => None,
    }
}

fn text_of_string(v: Option<&KuaishouJsonValue>) -> (out: Option<String>)
    ensures
        opt_text(out) == string_of(deref(v)),
{
    match v {
        Some(KuaishouJsonValue::String(t)) => Some(t.clone()),
        _ => None,
    }
}

fn array_copy(v: Option<&KuaishouJsonValue>) -> (out: Vec<KuaishouJsonValue>)
    ensures
        json_trees(out@) == json_trees(array_items(deref(v))),
{
    assert(json_trees(Seq::<KuaishouJsonValue>::empty()) =~= Seq::empty());
    crate::kuaishou::value::array_value(v)
}

fn recommend_items<'a>(sources: &KuaishouLiveRoomSources<'a>, detail: &'a KuaishouJsonValue) -> (list: Option<
    &'a Vec<KuaishouJsonValue>,
>)
    ensures
        match list {
            Some(items) => items@ == recommend_list(*sources, Some(*detail)),
            None => recommend_list(*sources, Some(*detail)).len() == 0,
        },
{
    match member(member(sources.reco_payload, "data"), "list") {
        Some(KuaishouJsonValue::Array(items)) => Some(items),
        _ => match member(Some(detail), "recommendList") {
            Some(KuaishouJsonValue::Array(items)) => Some(items),
            _ => None,
        },
    }
}

fn status_for(
    statuses: &Vec<(Option<KuaishouVerifiedStatus>, Option<KuaishouBannedStatus>)>,
    i: usize,
) -> (st: (Option<KuaishouVerifiedStatus>, Option<KuaishouBannedStatus>))
    ensures
        (match st.0 {
            Some(v) => Some(v@),
            None => None,
        }, st.1) == status_at(statuses_view(statuses@), i as int),
{
    if i < statuses.len() {
        let verified = match &statuses[i].0 {
            Some(v) => Some(copy_verified_status(v)),
            None => None,
        };
        (verified, statuses[i].1)
    } else {
        (None, None)
    }
}

/// The plain data of play items, in order.
pub open spec fn item_views(items: Seq<KuaishouLiveRoomPlayItem>) -> Seq<PlayItemView> {
    items.map_values(|i: KuaishouLiveRoomPlayItem| i@)
}

fn collect_rooms(
    current: &KuaishouLiveRoomPlayItem,
    list: &Vec<KuaishouJsonValue>,
    statuses: &Vec<(Option<KuaishouVerifiedStatus>, Option<KuaishouBannedStatus>)>,
) -> (all: Vec<KuaishouLiveRoomPlayItem>)
    ensures
        item_views(all@) == seq![current@] + reco_items(list@, statuses_view(statuses@)),
{
    let ghost st = statuses_view(statuses@);
    let ghost list_view = list@;
    let mut all: Vec<KuaishouLiveRoomPlayItem> = Vec::new();
    all.push(copy_play_item(current));
    assert(reco_items(list_view.take(0), st) =~= Seq::empty()) by {
        assert(list_view.take(0).len() == 0);
    }
    assert(item_views(all@) =~= seq![current@] + reco_items(list_view.take(0), st));
    for i in 0..list.len()
        invariant
            list@ == list_view,
            st == statuses_view(statuses@),
            item_views(all@) == seq![current@] + reco_items(list_view.take(i as int), st),
    {
        assert(list_view.take(i + 1).drop_last() =~= list_view.take(i as int));
        assert(list_view.take(i + 1)[i as int] == list[i as int]);
        let item = &list[i];
        match item {
            KuaishouJsonValue::Object(_) => {
                let (verified, banned) = status_for(statuses, i);
                let room = map_reco_item_to_live_room_play_item(item, verified, banned);
                let ghost before_all = all@;
                all.push(room);
                assert(item_views(all@) =~= item_views(before_all).push(all@.last()@));
            },
            _ => {},
        }
    }
    assert(list_view.take(list@.len() as int) =~= list_view);
    all
}

fn pick_rooms(all: &Vec<KuaishouLiveRoomPlayItem>, kept: &Vec<usize>) -> (out: Vec<KuaishouLiveRoomPlayItem>)
    requires
        forall|a: int| 0 <= a < kept@.len() ==> #[trigger] kept@[a] < all@.len(),
    ensures
        item_views(out@) == kept@.map_values(|k: usize| k as int).map_values(|k: int| item_views(all@)[k]),
{
    let ghost kept_view = kept@.map_values(|k: usize| k as int);
    let ghost all_views = item_views(all@);
    let mut out: Vec<KuaishouLiveRoomPlayItem> = Vec::new();
    for j in 0..kept.len()
        invariant
            kept_view == kept@.map_values(|k: usize| k as int),
            all_views == item_views(all@),
            forall|a: int| 0 <= a < kept@.len() ==> #[trigger] kept@[a] < all@.len(),
            item_views(out@) == kept_view.take(j as int).map_values(|k: int| all_views[k]),
    {
        let k = kept[j];
        let ghost before = out@;
        let room = copy_play_item(&all[k]);
        assert(room@ == all_views[k as int]);
        out.push(room);
        assert(kept_view.take(j + 1) =~= kept_view.take(j as int).push(k as int));
        assert(item_views(out@) =~= item_views(before).push(room@));
        assert(item_views(out@) =~= kept_view.take(j + 1).map_values(|k: int| all_views[k]));
    }
    assert(kept_view.take(kept@.len() as int) =~= kept_view);
    out
}

/// Deduplicate live rooms by stream id: a room whose non-empty stream id
/// occurred in an earlier room is dropped; rooms with an empty id are all
/// kept; the order stays.
pub fn dedupe_live_room_play_list(items: Vec<KuaishouLiveRoomPlayItem>) -> (out: Vec<
    KuaishouLiveRoomPlayItem,
>)
    ensures
        item_views(out@) == kept_positions(room_ids(item_views(items@)), Set::empty(), 0).map_values(
            |k: int| item_views(items@)[k],
        ),
{
    let ghost views = item_views(items@);
    let mut ids: Vec<String> = Vec::new();
    for i in 0..items.len()
        invariant
            views == item_views(items@),
            ids@.map_values(|t: String| t@) == room_ids(views).take(i as int),
    {
        let ghost before = ids@;
        ids.push(items[i].live_stream.id.clone());
        assert(views[i as int] == items@[i as int]@);
        assert(room_ids(views)[i as int] == views[i as int].stream.id);
        assert(ids@.map_values(|t: String| t@) =~= before.map_values(|t: String| t@).push(
            items@[i as int].live_stream.id@,
        ));
        assert(room_ids(views).take(i + 1) =~= room_ids(views).take(i as int).push(
            room_ids(views)[i as int],
        ));
    }
    assert(room_ids(views).take(items@.len() as int) =~= room_ids(views));
    let kept = kept_live_room_positions(&ids);
    proof {
        lemma_dedupe_live_rooms(room_ids(views));
        assert forall|a: int| 0 <= a < kept@.len() implies #[trigger] kept@[a] < items@.len() by {
            assert(kept@.map_values(|k: usize| k as int)[a] == kept@[a] as int);
        }
    }
    let out = pick_rooms(&items, &kept);
    assert(kept@.map_values(|k: usize| k as int).map_values(|k: int| views[k]) =~= kept_positions(
        room_ids(views),
        Set::empty(),
        0,
    ).map_values(|k: int| views[k]));
    out
}

fn room_endpoints(sources: &KuaishouLiveRoomSources, d: &KuaishouJsonValue) -> (out: (Vec<String>, String))
    ensures
        out.0@.map_values(|u: String| u@) == room_websocket_urls(*sources, Some(*d)),
        out.1@ == room_token(*sources, Some(*d)),
{
    proof {
        reveal_strlit("");
    }
    let urls = match string_items(member(member(sources.websocket_payload, "data"), "websocketUrls")) {
        Some(u) => u,
        None => match string_items(member(object_member(Some(d), "websocketInfo"), "websocketUrls")) {
            Some(u) => u,
            None => {
                let u: Vec<String> = Vec::new();
                assert(u@.map_values(|t: String| t@) =~= string_texts(Seq::empty()));
                u
            },
        },
    };
    let token = match text_of_string(member(member(sources.websocket_payload, "data"), "token")) {
        Some(t) => t,
        None => text_value_or(
            text_of_string(member(object_member(Some(d), "websocketInfo"), "token")),
            String::new(),
        ),
    };
    (urls, token)
}

fn room_emoji(sources: &KuaishouLiveRoomSources) -> (emoji: KuaishouLiveRoomEmojiState)
    ensures
        emoji.icon_urls.deep_view() == match sources.emoji_payload {
            Some(e) => e.data.vision_base_emoticons.icon_urls.deep_view(),
            None => Seq::empty(),
        },
        json_trees(emoji.gift_list@) == json_trees(array_items(get_in(gift_data(*sources), "gifts"@))),
        json_trees(emoji.gift_panel_list@) == json_trees(
            array_items(get_in(gift_data(*sources), "giftPanelList"@)),
        ),
        emoji.token@ == text_or(string_of(get_in(gift_data(*sources), "token"@)), seq![]),
        emoji.panel_token@ == text_or(string_of(get_in(gift_data(*sources), "panelToken"@)), seq![]),
        match emoji.long_send_gift_type {
            Some(v) => get_in(gift_data(*sources), "longSendGiftType"@) matches Some(x) && json_tree(v)
                == json_tree(x),
            None => get_in(gift_data(*sources), "longSendGiftType"@) is None,
        },
{
    proof {
        reveal_strlit("");
    }
    let gift = member(sources.gift_payload, "data");
    KuaishouLiveRoomEmojiState {
        icon_urls: match sources.emoji_payload {
            Some(e) => crate::pairs::copy_pairs(&e.data.vision_base_emoticons.icon_urls),
            None => {
                let u: Vec<(String, String)> = Vec::new();
                assert(u.deep_view() =~= Seq::<(Seq<char>, Seq<char>)>::empty());
                u
            },
        },
        gift_list: array_copy(member(gift, "gifts")),
        gift_panel_list: array_copy(member(gift, "giftPanelList")),
        token: text_value_or(text_of_string(member(gift, "token")), String::new()),
        panel_token: text_value_or(text_of_string(member(gift, "panelToken")), String::new()),
        long_send_gift_type: match member(gift, "longSendGiftType") {
            Some(v) => Some(copy_json(v)),
            None => None,
        },
    }
}

/// The live room assembled from its answers (see `room_built_from`).
/// `reco_statuses` holds, for each recommended item in order, the statuses
/// parsed from its author block; `upstream_payload` is the snapshot kept
/// with the room.
pub fn build_kuaishou_live_room_info(
    principal_id: &str,
    sources: KuaishouLiveRoomSources,
    reco_statuses: &Vec<(Option<KuaishouVerifiedStatus>, Option<KuaishouBannedStatus>)>,
    upstream_payload: KuaishouJsonValue,
) -> (room: KuaishouLiveRoomInfo)
    ensures
        room_built_from(room, principal_id@, sources, statuses_view(reco_statuses@), upstream_payload),
{
    let detail = crate::kuaishou::profile::resolve_live_detail_data(Some(sources.live_detail_payload));
    let d = match detail {
        Some(d) => d,
        None => return empty_live_room_info(principal_id, upstream_payload),
    };
    let author = crate::kuaishou::author::merge_live_author(
        member(Some(d), "author"),
        member(member(sources.user_info_payload, "data"), "userInfo"),
        member(member(sources.sensitive_payload, "data"), "sensitiveUserInfo"),
    );
    let current = map_live_detail_to_live_room_play_item(d, author);
    let empty: Vec<KuaishouJsonValue> = Vec::new();
    let list = match recommend_items(&sources, d) {
        Some(items) => items,
        None => {
            assert(empty@ =~= recommend_list(sources, Some(*d)));
            &empty
        },
    };
    let all = collect_rooms(&current, list, reco_statuses);
    let ghost all_views = item_views(all@);
    let play_list = dedupe_live_room_play_list(all);
    let (websocket_urls, token) = room_endpoints(&sources, d);
    let room = KuaishouLiveRoomInfo {
        principal_id: principal_id.to_owned(),
        active_index: 0,
        current: Some(current),
        play_list,
        websocket_urls,
        token,
        notice_list: array_copy(member(Some(d), "noticeList")),
        loading: false,
        emoji: room_emoji(&sources),
        upstream_payload,
    };
    assert(kept_positions(room_ids(all_views), Set::empty(), 0).map_values(|k: int| all_views[k])
        =~= room_play_list(sources, statuses_view(reco_statuses@)));
    room
}

/// Copies of the recommended items a room is assembled with (none without
/// a usable live detail), in order: the items the statuses given to
/// `build_kuaishou_live_room_info` are matched with.
pub fn live_room_recommend_list(sources: &KuaishouLiveRoomSources) -> (out: Vec<KuaishouJsonValue>)
    ensures
        json_trees(out@) == match room_detail(*sources) {
            Some(d) => json_trees(recommend_list(*sources, Some(d))),
            None => Seq::empty(),
        },
{
    assert(json_trees(Seq::<KuaishouJsonValue>::empty()) =~= Seq::empty());
    match crate::kuaishou::profile::resolve_live_detail_data(Some(sources.live_detail_payload)) {
        Some(d) => match recommend_items(sources, d) {
            Some(items) => crate::kuaishou::value::copy_values(items),
            None => Vec::new(),
        },
        None => Vec::new(),
    }
}

/// The data parts of a live room's answers as one object: `user_info` and
/// `sensitive` when received, `live_detail`, the emoji catalog's own
/// snapshot as `emoji` when received, then `gift`, `websocket` and `reco`
/// when received.
pub open spec fn live_room_snapshot(s: KuaishouLiveRoomSources) -> JsonTree {
    JsonTree::Record(
        snapshot_member("user_info"@, s.user_info_payload) + snapshot_member(
            "sensitive"@,
            s.sensitive_payload,
        ) + seq![("live_detail"@, json_tree(data_part(*s.live_detail_payload)))] + match s.emoji_payload {
            Some(e) => seq![("emoji"@, json_tree(e.upstream_payload))],
            None => Seq::empty(),
        } + snapshot_member("gift"@, s.gift_payload) + snapshot_member(
            "websocket"@,
            s.websocket_payload,
        ) + snapshot_member("reco"@, s.reco_payload),
    )
}

/// The data parts of a live room's answers as one object (see
/// `live_room_snapshot`).
pub fn live_room_upstream_snapshot(sources: &KuaishouLiveRoomSources) -> (out: KuaishouJsonValue)
    ensures
        json_tree(out) == live_room_snapshot(*sources),
{
    let mut entries: Vec<(String, KuaishouJsonValue)> = Vec::new();
    assert(member_trees(entries@) =~= Seq::empty());
    push_snapshot(&mut entries, "user_info", sources.user_info_payload);
    push_snapshot(&mut entries, "sensitive", sources.sensitive_payload);
    push_snapshot(&mut entries, "live_detail", Some(sources.live_detail_payload));
    let ghost head = member_trees(entries@);
    let ghost emoji_part = match sources.emoji_payload {
        Some(e) => seq![("emoji"@, json_tree(e.upstream_payload))],
        None => Seq::<(Seq<char>, JsonTree)>::empty(),
    };
    match sources.emoji_payload {
        Some(e) => {
            let ghost before = entries@;
            entries.push(("emoji".to_owned(), copy_json(&e.upstream_payload)));
            assert(entries@.drop_last() =~= before);
            assert(member_trees(entries@) =~= head + emoji_part);
        },
        None => {
            assert(member_trees(entries@) =~= head + emoji_part);
        },
    }
    push_snapshot(&mut entries, "gift", sources.gift_payload);
    push_snapshot(&mut entries, "websocket", sources.websocket_payload);
    push_snapshot(&mut entries, "reco", sources.reco_payload);
    let out = KuaishouJsonValue::Object(KuaishouJsonObject { entries });
    assert(json_tree(out) =~= live_room_snapshot(*sources));
    out
}

/// The stream id a live detail answer names: `data.liveStream.id`, else
/// `data.config.liveStreamId`; strings only.
pub open spec fn answer_stream_id(p: KuaishouJsonValue) -> Option<Seq<char>> {
    let data = get_in(Some(p), "data"@);
    match string_of(get_in(get_in(data, "liveStream"@), "id"@)) {
        Some(t) => Some(t),
        None => string_of(get_in(get_in(data, "config"@), "liveStreamId"@)),
    }
}

/// The game a live detail answer names: `data.gameInfo.id`, else, when
/// there is none, `data.gameInfo.gameId`; as text when a string or a
/// number.
pub open spec fn answer_game_id(p: KuaishouJsonValue) -> Option<Seq<char>> {
    let g = get_in(get_in(Some(p), "data"@), "gameInfo"@);
    let v = match get_in(g, "id"@) {
        Some(x) => Some(x),
        None => get_in(g, "gameId"@),
    };
    match v {
        Some(KuaishouJsonValue::String(t)) => Some(t@),
        Some(KuaishouJsonValue::Number(n)) => Some(n@),
        _ => None,
    }
}

/// Whether a live detail answer lacks websocket endpoints: no URLs, or no
/// token.
pub open spec fn answer_lacks_websocket(p: KuaishouJsonValue) -> bool {
    let w = get_in(get_in(Some(p), "data"@), "websocketInfo"@);
    array_items(get_in(w, "websocketUrls"@)).len() == 0 || text_or(string_of(get_in(w, "token"@)), seq![]).len() == 0
}

/// Whether a live detail answer recommends no rooms.
pub open spec fn answer_lacks_recommendations(p: KuaishouJsonValue) -> bool {
    array_items(get_in(get_in(Some(p), "data"@), "recommendList"@)).len() == 0
}

/// The requests that follow a live detail answer: the gift list of the
/// stream, when one is named.
pub struct KuaishouLiveRoomFollowUps {
    /// The gift list of the stream, when a stream is named.
    pub gift: Option<crate::kuaishou::request::KuaishouLiveApiRequest>,
    /// The websocket endpoints, when a stream is named and the answer
    /// lacks them.
    pub websocket: Option<crate::kuaishou::request::KuaishouLiveApiRequest>,
    /// The recommended rooms, when the answer recommends none.
    pub reco: Option<crate::kuaishou::request::KuaishouLiveApiRequest>,
}

/// Whether building the gift request fails.
pub open spec fn gift_fails(base_url: Seq<char>, p: KuaishouJsonValue) -> bool {
    answer_stream_id(p) matches Some(i) && crate::kuaishou::request::live_gift_list_request(base_url, i) is Err
}

/// Whether building the websocket request fails.
pub open spec fn websocket_fails(base_url: Seq<char>, p: KuaishouJsonValue) -> bool {
    &&& answer_lacks_websocket(p)
    &&& answer_stream_id(p) matches Some(i)
        && crate::kuaishou::request::live_websocket_info_request(base_url, i) is Err
}

/// Whether building the recommendation request fails.
pub open spec fn reco_fails(base_url: Seq<char>, p: KuaishouJsonValue) -> bool {
    answer_lacks_recommendations(p) && crate::weburl::url_parse(base_url) is Err
}

fn array_len(v: Option<&KuaishouJsonValue>) -> (n: usize)
    ensures
        n == array_items(deref(v)).len(),
{
    match v {
        Some(KuaishouJsonValue::Array(items)) => items.len(),
        _ => 0,
    }
}

/// The requests that follow a live detail answer: the gift list when a
/// stream is named; the websocket info when a stream is named and the
/// answer lacks websocket URLs or token; the recommended rooms, for the
/// answer's game, when it recommends none. The first request that cannot
/// be built fails the whole.
pub fn live_room_follow_up_requests(base_url: &str, live_detail_payload: &KuaishouJsonValue) -> (res:
    Result<KuaishouLiveRoomFollowUps, AppError>)
    ensures
        res is Err <==> gift_fails(base_url@, *live_detail_payload) || websocket_fails(
            base_url@,
            *live_detail_payload,
        ) || reco_fails(base_url@, *live_detail_payload),
        res matches Ok(f) ==> {
            &&& match answer_stream_id(*live_detail_payload) {
                Some(i) => f.gift matches Some(g) && crate::kuaishou::request::request_outcome(Ok(g))
                    == crate::kuaishou::request::live_gift_list_request(base_url@, i),
                None => f.gift is None,
            }
            &&& if answer_lacks_websocket(*live_detail_payload) && answer_stream_id(*live_detail_payload) is Some {
                f.websocket matches Some(w) && crate::kuaishou::request::request_outcome(Ok(w))
                    == crate::kuaishou::request::live_websocket_info_request(
                    base_url@,
                    answer_stream_id(*live_detail_payload).unwrap(),
                )
            } else {
                f.websocket is None
            }
            &&& if answer_lacks_recommendations(*live_detail_payload) {
                f.reco matches Some(r) && crate::kuaishou::request::live_reco_outcome(
                    base_url@,
                    answer_game_id(*live_detail_payload),
                    Ok(r),
                )
            } else {
                f.reco is None
            }
        },
        res matches Err(e) ==> if gift_fails(base_url@, *live_detail_payload) {
            crate::kuaishou::request::request_outcome(Err(e)) == crate::kuaishou::request::live_gift_list_request(
                base_url@,
                answer_stream_id(*live_detail_payload).unwrap(),
            )
        } else if websocket_fails(base_url@, *live_detail_payload) {
            crate::kuaishou::request::request_outcome(Err(e))
                == crate::kuaishou::request::live_websocket_info_request(
                base_url@,
                answer_stream_id(*live_detail_payload).unwrap(),
            )
        } else {
            crate::kuaishou::request::live_reco_outcome(
                base_url@,
                answer_game_id(*live_detail_payload),
                Err(e),
            )
        },
{
    proof {
        reveal_strlit("");
    }
    let data = member(Some(live_detail_payload), "data");
    let stream_id = match text_of_string(member(member(data, "liveStream"), "id")) {
        Some(t) => Some(t),
        None => text_of_string(member(member(data, "config"), "liveStreamId")),
    };
    let game = member(data, "gameInfo");
    let named = match member(game, "id") {
        Some(x) => Some(x),
        None => member(game, "gameId"),
    };
    let game_id = match named {
        Some(KuaishouJsonValue::String(t)) => Some(t.clone()),
        Some(KuaishouJsonValue::Number(n)) => Some(n.clone()),
        _ => None,
    };
    let ws = member(data, "websocketInfo");
    let token = text_value_or(text_of_string(member(ws, "token")), String::new());
    let lacks_websocket = array_len(member(ws, "websocketUrls")) == 0 || token.as_str().is_empty();
    let lacks_recommendations = array_len(member(data, "recommendList")) == 0;
    let gift = match &stream_id {
        Some(id) => match crate::kuaishou::request::live_gift_list(base_url, id.as_str()) {
            Ok(r) => Some(r),
            Err(e) => return Err(e),
        },
        None => None,
    };
    let websocket = if lacks_websocket {
        match &stream_id {
            Some(id) => match crate::kuaishou::request::live_websocket_info(base_url, id.as_str()) {
                Ok(r) => Some(r),
                Err(e) => return Err(e),
            },
            None => None,
        }
    } else {
        None
    };
    let reco = if lacks_recommendations {
        let built = match &game_id {
            Some(g) => crate::kuaishou::request::live_reco(base_url, Some(g.as_str())),
            None => crate::kuaishou::request::live_reco(base_url, None),
        };
        match built {
            Ok(r) => Some(r),
            Err(e) => return Err(e),
        }
    } else {
        None
    };
    Ok(KuaishouLiveRoomFollowUps { gift, websocket, reco })
}

} // verus!
