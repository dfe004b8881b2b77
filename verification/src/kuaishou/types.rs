//! Kuaishou profile blocks and list helpers.

use vstd::prelude::*;

use crate::kuaishou::json::KuaishouJsonValue;


verus! {

/// Verified status block for a Kuaishou user.
#[derive(Debug, Clone, PartialEq, Eq)]
pub struct KuaishouVerifiedStatus {
    /// Whether the account is verified.
    pub verified: bool,
    /// Verification description.
    pub description: String,
    /// Verification type id.
    pub type_id: i64,
    /// Whether the verification is marked as new.
    pub is_new: bool,
    /// Verification icon URL.
    pub icon_url: String,
}

/// The verified status of an account without verification.
pub fn empty_kuaishou_verified_status() -> (status: KuaishouVerifiedStatus)
    ensures
        !status.verified,
        status.description@.len() == 0,
        status.type_id == 0,
        !status.is_new,
        status.icon_url@.len() == 0,
{
    KuaishouVerifiedStatus {
        verified: false,
        description: String::new(),
        type_id: 0,
        is_new: false,
        icon_url: String::new(),
    }
}

/// Banned status block for a Kuaishou user.
#[derive(Debug, Clone, Copy, PartialEq, Eq, Structural)]
pub struct KuaishouBannedStatus {
    /// Whether the account is banned.
    pub banned: bool,
    /// Whether the social graph is banned.
    pub social_banned: bool,
    /// Whether the account is isolated.
    pub isolate: bool,
    /// Whether the account is defriended.
    pub defriend: bool,
}

/// The banned status of an account under no restriction.
pub fn empty_kuaishou_banned_status() -> (status: KuaishouBannedStatus)
    ensures
        status == (KuaishouBannedStatus {
            banned: false,
            social_banned: false,
            isolate: false,
            defriend: false,
        }),
{
    KuaishouBannedStatus { banned: false, social_banned: false, isolate: false, defriend: false }
}

/// Derived follow state for a Kuaishou profile.
#[derive(Debug, Clone, PartialEq, Eq)]
pub struct KuaishouFollowState {
    /// Current follow status.
    pub current_follow_status: String,
    /// Whether the user still needs to follow.
    pub need_to_follow: bool,
    /// Author id this follow state belongs to.
    pub author_id: String,
    /// Placeholder page state integer.
    pub data: i32,
}

/// Derived follow-button state for a Kuaishou profile.
#[derive(Debug, Clone, PartialEq, Eq)]
pub struct KuaishouFollowButtonState {
    /// Current follow status.
    pub follow_status: String,
}

/// Emoji icon catalog keyed by the platform's emoji token.
#[derive(Debug, Clone, PartialEq, Eq)]
pub struct KuaishouEmojiCatalog {
    /// GraphQL typename returned by Kuaishou.
    pub typename: String,
    /// Emoji token such as `[smile]` and icon URL, each token once, in
    /// ascending order.
    pub icon_urls: Vec<(String, String)>,
}

/// Data section returned by the Kuaishou emoji GraphQL query.
#[derive(Debug, Clone, PartialEq, Eq)]
pub struct KuaishouEmojiListData {
    /// Base emoji catalog published by Kuaishou.
    pub vision_base_emoticons: KuaishouEmojiCatalog,
}

/// Normalized user info block for a Kuaishou profile author.
#[derive(Debug, PartialEq)]
pub struct KuaishouUserProfileUserInfo {
    /// Author id.
    pub id: String,
    /// Display name.
    pub name: String,
    /// Author description.
    pub description: String,
    /// Avatar URL.
    pub avatar: String,
    /// Sex label returned by the platform.
    pub sex: String,
    /// Whether the author is currently living.
    pub living: bool,
    /// Follow status.
    pub follow_status: String,
    /// Constellation label.
    pub constellation: String,
    /// City name.
    pub city_name: String,
    /// Original numeric user id.
    pub origin_user_id: u64,
    /// Whether the profile is private.
    pub privacy: bool,
    /// Whether the profile is marked as new.
    pub is_new: bool,
    /// Platform timestamp field.
    pub timestamp: u64,
    /// Verified status details.
    pub verified_status: KuaishouVerifiedStatus,
    /// Banned status details.
    pub banned_status: KuaishouBannedStatus,
    /// Dynamic counts object published by the platform.
    pub counts: KuaishouJsonValue,
}

/// Author metadata embedded in a Kuaishou user profile.
#[derive(Debug, PartialEq)]
pub struct KuaishouUserProfileAuthor {
    /// Requested author principal id.
    pub principal_id: String,
    /// Normalized user info block.
    pub user_info: KuaishouUserProfileUserInfo,
    /// Optional sensitive info block from the platform.
    pub sensitive_info: Option<KuaishouJsonValue>,
    /// Placeholder follow info block kept for shape compatibility.
    pub follow_info: KuaishouJsonValue,
    /// Stable ban-state map, each key once, in ascending order.
    pub ban_state_map: Vec<(String, String)>,
}

/// Shared list tab data for a Kuaishou user profile.
#[derive(Debug, PartialEq)]
pub struct KuaishouUserProfileTabData {
    /// List items returned by the tab endpoint.
    pub list: Vec<KuaishouJsonValue>,
    /// Pagination cursor.
    pub pcursor: String,
}

/// Public tab data for a Kuaishou user profile.
#[derive(Debug, PartialEq)]
pub struct KuaishouUserProfilePublicTabData {
    /// Live info block when the author is currently living.
    pub live: Option<KuaishouJsonValue>,
    /// List items returned by the public tab endpoint.
    pub list: Vec<KuaishouJsonValue>,
    /// Pagination cursor.
    pub pcursor: String,
}

/// Profile page tabs and metadata for a Kuaishou user profile.
#[derive(Debug, PartialEq)]
pub struct KuaishouUserProfilePage {
    /// Current active tab.
    pub current_tab: String,
    /// Page size used for tab requests.
    pub page_size: u32,
    /// Stable tab type map, each key once, in ascending order.
    pub tab_type_map: Vec<(String, String)>,
    /// Whether playback should be shown.
    pub show_playback: bool,
    /// Public tab data.
    pub public_data: KuaishouUserProfilePublicTabData,
    /// Private tab data.
    pub private_data: KuaishouUserProfileTabData,
    /// Liked tab data.
    pub liked_data: KuaishouUserProfileTabData,
    /// Playback tab data.
    pub playback_data: KuaishouUserProfileTabData,
    /// Interest list entries.
    pub interest_list: Vec<KuaishouJsonValue>,
    /// Placeholder current product block.
    pub current_product: KuaishouJsonValue,
}

/// Category-mask payload returned by Kuaishou profile endpoints.
#[derive(Debug, PartialEq)]
pub struct KuaishouCategoryMask {
    /// Category config list.
    pub config: Vec<KuaishouJsonValue>,
    /// Category list.
    pub list: Vec<KuaishouJsonValue>,
    /// Hot category list.
    pub hot_list: Vec<KuaishouJsonValue>,
    /// Whether more category list data exists.
    pub has_more: bool,
    /// Whether more hot category data exists.
    pub has_more_hot: bool,
}

/// Aggregated response for the Kuaishou user profile page.
#[derive(Debug, PartialEq)]
pub struct KuaishouUserProfile {
    /// Requested profile principal id.
    pub principal_id: String,
    /// Aggregated author metadata.
    pub author: KuaishouUserProfileAuthor,
    /// Aggregated profile tabs and page metadata.
    pub profile: KuaishouUserProfilePage,
    /// Derived follow state when available.
    pub follow: Option<KuaishouFollowState>,
    /// Derived follow button state when available.
    pub follow_button: Option<KuaishouFollowButtonState>,
    /// Interest mask list returned by the platform.
    pub interest_mask: Vec<KuaishouJsonValue>,
    /// Category masks returned by the platform.
    pub category_mask: KuaishouCategoryMask,
    /// Complete upstream payload snapshot grouped by contributing sources.
    pub upstream_payload: KuaishouJsonValue,
}

/// Paginated user work-list result derived from Kuaishou `profile/public`.
#[derive(Debug, PartialEq)]
pub struct KuaishouUserWorkList {
    /// Requested profile principal id.
    pub principal_id: String,
    /// Work items for the current page.
    pub list: Vec<KuaishouJsonValue>,
    /// Pagination cursor.
    pub pcursor: String,
    /// Whether more pages are available.
    pub has_more: bool,
    /// Upstream result code.
    pub result: i64,
    /// Complete upstream payload snapshot with the live API envelope removed.
    pub upstream_payload: KuaishouJsonValue,
}

/// Typed response for the Kuaishou `emojiList` fetcher.
#[derive(Debug, PartialEq)]
pub struct KuaishouEmojiList {
    /// GraphQL response payload returned by the platform.
    pub data: KuaishouEmojiListData,
    /// Complete upstream payload snapshot with the GraphQL envelope removed.
    pub upstream_payload: KuaishouJsonValue,
}

/// Stream details of a live room.
#[derive(Debug, PartialEq)]
pub struct KuaishouLiveStreamInfo {
    /// Live stream id.
    pub id: String,
    /// Poster URL.
    pub poster: String,
    /// Play URLs by resolution.
    pub play_urls: KuaishouJsonValue,
    /// Stream URL.
    pub url: String,
    /// HLS play URL.
    pub hls_play_url: String,
    /// Location label, when given.
    pub location: Option<String>,
    /// Stream type (`live` unless given).
    pub stream_type: String,
    /// Live-guess flag.
    pub live_guess: bool,
    /// Experiment tag.
    pub exp_tag: String,
    /// Whether the stream is private.
    pub private_live: bool,
}

/// Game details of a live room.
#[derive(Debug, Clone, PartialEq, Eq)]
pub struct KuaishouLiveRoomGameInfo {
    /// Game id.
    pub id: String,
    /// Game name.
    pub name: String,
    /// Poster URL.
    pub poster: String,
    /// Game description.
    pub description: String,
    /// Category abbreviation.
    pub category_abbr: String,
    /// Category name.
    pub category_name: String,
    /// Watching count label.
    pub watching_count: String,
    /// Room count label.
    pub room_count: String,
}

/// One playable live room.
#[derive(Debug, PartialEq)]
pub struct KuaishouLiveRoomPlayItem {
    /// The stream.
    pub live_stream: KuaishouLiveStreamInfo,
    /// The author.
    pub author: KuaishouUserProfileUserInfo,
    /// The game.
    pub game_info: KuaishouLiveRoomGameInfo,
    /// Whether the room is live.
    pub is_living: bool,
    /// Authorization token, when given.
    pub auth_token: Option<String>,
    /// Config object.
    pub config: KuaishouJsonValue,
    /// Websocket info object.
    pub websocket_info: KuaishouJsonValue,
    /// Status object.
    pub status: KuaishouJsonValue,
}

/// Emoji and gift panel state of a live room.
#[derive(Debug, PartialEq)]
pub struct KuaishouLiveRoomEmojiState {
    /// Emoji token and icon URL, each token once, in ascending order.
    pub icon_urls: Vec<(String, String)>,
    /// Gifts.
    pub gift_list: Vec<KuaishouJsonValue>,
    /// Gift panels.
    pub gift_panel_list: Vec<KuaishouJsonValue>,
    /// Gift token.
    pub token: String,
    /// Gift panel token.
    pub panel_token: String,
    /// Long-send gift type, when given.
    pub long_send_gift_type: Option<KuaishouJsonValue>,
}

/// Aggregated live-room info for a Kuaishou principal id.
#[derive(Debug, PartialEq)]
pub struct KuaishouLiveRoomInfo {
    /// Requested principal id.
    pub principal_id: String,
    /// Index of the room played in the play list.
    pub active_index: u32,
    /// The room played, when the live detail answered.
    pub current: Option<KuaishouLiveRoomPlayItem>,
    /// The room played and the recommended rooms.
    pub play_list: Vec<KuaishouLiveRoomPlayItem>,
    /// Websocket URLs.
    pub websocket_urls: Vec<String>,
    /// Websocket token.
    pub token: String,
    /// Notices.
    pub notice_list: Vec<KuaishouJsonValue>,
    /// Loading flag.
    pub loading: bool,
    /// Emoji and gift state.
    pub emoji: KuaishouLiveRoomEmojiState,
    /// Complete upstream payload snapshot grouped by contributing sources.
    pub upstream_payload: KuaishouJsonValue,
}

} // verus!
