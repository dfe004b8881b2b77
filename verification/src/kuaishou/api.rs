//! The public builder of Kuaishou request descriptions.

use vstd::prelude::*;

use crate::error::AppError;
use crate::kuaishou::json::KuaishouJsonValue;
use crate::kuaishou::request::{
    self, category_classify_request, category_config_request, category_data_request,
    interest_mask_list_request, live_detail_with_auth_token_request, live_gift_list_request,
    live_reco_outcome, live_websocket_info_request, playback_list_request,
    profile_interest_list_request, profile_liked_request, profile_private_request,
    profile_public_request, request_outcome, user_info_by_id_request, user_sensitive_info_request,
    user_work_list_request, KuaishouLiveApiRequest,
};
use crate::text::option_str_view;

verus! {

/// The default GraphQL endpoint.
pub const KUAISHOU_GRAPHQL_ENDPOINT: &'static str = "https://www.kuaishou.com/graphql";

/// The default `live_api` base URL.
pub const KUAISHOU_LIVE_BASE_URL: &'static str = "https://live.kuaishou.com";

/// A GraphQL request: its kind, the endpoint it goes to and its JSON body.
#[derive(Debug, PartialEq)]
pub struct KuaishouGraphqlRequest {
    /// Internal request kind label.
    pub request_type: String,
    /// GraphQL endpoint URL.
    pub url: String,
    /// JSON body sent to the GraphQL endpoint.
    pub body: KuaishouJsonValue,
}

/// Public Kuaishou API request builder.
#[derive(Debug, Clone, PartialEq, Eq)]
pub struct KuaishouApiUrls {
    graphql_endpoint: String,
    live_base_url: String,
}

impl KuaishouApiUrls {
    /// The GraphQL endpoint.
    pub closed spec fn graphql_endpoint(&self) -> Seq<char> {
        self.graphql_endpoint@
    }

    /// The base URL of `live_api` requests.
    pub closed spec fn live_base_url(&self) -> Seq<char> {
        self.live_base_url@
    }

    /// Create a Kuaishou API builder with the default platform endpoints.
    pub fn new() -> (urls: Self)
        ensures
            urls.graphql_endpoint() == KUAISHOU_GRAPHQL_ENDPOINT@,
            urls.live_base_url() == KUAISHOU_LIVE_BASE_URL@,
    {
        Self::with_base_urls(KUAISHOU_GRAPHQL_ENDPOINT.to_owned(), KUAISHOU_LIVE_BASE_URL.to_owned())
    }

    /// Create a Kuaishou API builder with explicit platform endpoints.
    pub fn with_base_urls(graphql_endpoint: String, live_base_url: String) -> (urls: Self)
        ensures
            urls.graphql_endpoint() == graphql_endpoint@,
            urls.live_base_url() == live_base_url@,
    {
        KuaishouApiUrls { graphql_endpoint, live_base_url }
    }

    /// The GraphQL request for one video work (`visionVideoDetail`), with
    /// the body that asks for it.
    pub fn video_work(&self, body: KuaishouJsonValue) -> (req: KuaishouGraphqlRequest)
        ensures
            req.request_type@ == "visionVideoDetail"@,
            req.url@ == self.graphql_endpoint(),
            req.body == body,
    {
        KuaishouGraphqlRequest {
            request_type: "visionVideoDetail".to_owned(),
            url: self.graphql_endpoint.clone(),
            body,
        }
    }

    /// The GraphQL request for a work's comments (`commentListQuery`), with
    /// the body that asks for them.
    pub fn work_comments(&self, body: KuaishouJsonValue) -> (req: KuaishouGraphqlRequest)
        ensures
            req.request_type@ == "commentListQuery"@,
            req.url@ == self.graphql_endpoint(),
            req.body == body,
    {
        KuaishouGraphqlRequest {
            request_type: "commentListQuery".to_owned(),
            url: self.graphql_endpoint.clone(),
            body,
        }
    }

    /// The GraphQL request for the emoji catalog (`visionBaseEmoticons`),
    /// with the body that asks for it.
    pub fn emoji_list(&self, body: KuaishouJsonValue) -> (req: KuaishouGraphqlRequest)
        ensures
            req.request_type@ == "visionBaseEmoticons"@,
            req.url@ == self.graphql_endpoint(),
            req.body == body,
    {
        KuaishouGraphqlRequest {
            request_type: "visionBaseEmoticons".to_owned(),
            url: self.graphql_endpoint.clone(),
            body,
        }
    }

    /// Build the `userInfoById` live-api request.
    pub fn user_info_by_id(&self, principal_id: &str) -> (res: Result<KuaishouLiveApiRequest, AppError>)
        ensures
            request_outcome(res) == user_info_by_id_request(self.live_base_url(), principal_id@),
    {
        request::user_info_by_id(self.live_base_url.as_str(), principal_id)
    }

    /// Build the `userSensitiveInfo` live-api request.
    pub fn user_sensitive_info(&self, principal_id: &str) -> (res: Result<KuaishouLiveApiRequest, AppError>)
        ensures
            request_outcome(res) == user_sensitive_info_request(self.live_base_url(), principal_id@),
    {
        request::user_sensitive_info(self.live_base_url.as_str(), principal_id)
    }

    /// Build the `profilePublic` live-api request.
    pub fn profile_public(&self, principal_id: &str, count: Option<u32>, pcursor: Option<&str>) -> (res: Result<KuaishouLiveApiRequest, AppError>)
        ensures
            request_outcome(res) == profile_public_request(self.live_base_url(), principal_id@, count, option_str_view(pcursor)),
    {
        request::profile_public(self.live_base_url.as_str(), principal_id, count, pcursor)
    }

    /// Build the `userWorkList` live-api request.
    pub fn user_work_list(&self, principal_id: &str, count: Option<u32>, pcursor: Option<&str>) -> (res: Result<KuaishouLiveApiRequest, AppError>)
        ensures
            request_outcome(res) == user_work_list_request(self.live_base_url(), principal_id@, count, option_str_view(pcursor)),
    {
        request::user_work_list(self.live_base_url.as_str(), principal_id, count, pcursor)
    }

    /// Build the `profilePrivate` live-api request.
    pub fn profile_private(&self, principal_id: &str) -> (res: Result<KuaishouLiveApiRequest, AppError>)
        ensures
            request_outcome(res) == profile_private_request(self.live_base_url(), principal_id@),
    {
        request::profile_private(self.live_base_url.as_str(), principal_id)
    }

    /// Build the `profileLiked` live-api request.
    pub fn profile_liked(&self, principal_id: &str) -> (res: Result<KuaishouLiveApiRequest, AppError>)
        ensures
            request_outcome(res) == profile_liked_request(self.live_base_url(), principal_id@),
    {
        request::profile_liked(self.live_base_url.as_str(), principal_id)
    }

    /// Build the `profileInterestList` live-api request.
    pub fn profile_interest_list(&self, principal_id: &str) -> (res: Result<KuaishouLiveApiRequest, AppError>)
        ensures
            request_outcome(res) == profile_interest_list_request(self.live_base_url(), principal_id@),
    {
        request::profile_interest_list(self.live_base_url.as_str(), principal_id)
    }

    /// Build the `playbackList` live-api request.
    pub fn playback_list(&self, principal_id: &str) -> (res: Result<KuaishouLiveApiRequest, AppError>)
        ensures
            request_outcome(res) == playback_list_request(self.live_base_url(), principal_id@),
    {
        request::playback_list(self.live_base_url.as_str(), principal_id)
    }

    /// Build the `interestMaskList` live-api request.
    pub fn interest_mask_list(&self) -> (res: Result<KuaishouLiveApiRequest, AppError>)
        ensures
            request_outcome(res) == interest_mask_list_request(self.live_base_url()),
    {
        request::interest_mask_list(self.live_base_url.as_str())
    }

    /// Build the `categoryConfig` live-api request.
    pub fn category_config(&self) -> (res: Result<KuaishouLiveApiRequest, AppError>)
        ensures
            request_outcome(res) == category_config_request(self.live_base_url()),
    {
        request::category_config(self.live_base_url.as_str())
    }

    /// Build the `categoryData` live-api request.
    pub fn category_data(&self) -> (res: Result<KuaishouLiveApiRequest, AppError>)
        ensures
            request_outcome(res) == category_data_request(self.live_base_url()),
    {
        request::category_data(self.live_base_url.as_str())
    }

    /// Build the `categoryClassify` live-api request.
    pub fn category_classify(&self) -> (res: Result<KuaishouLiveApiRequest, AppError>)
        ensures
            request_outcome(res) == category_classify_request(self.live_base_url()),
    {
        request::category_classify(self.live_base_url.as_str())
    }

    /// Build the `liveGiftList` live-api request.
    pub fn live_gift_list(&self, live_stream_id: &str) -> (res: Result<KuaishouLiveApiRequest, AppError>)
        ensures
            request_outcome(res) == live_gift_list_request(self.live_base_url(), live_stream_id@),
    {
        request::live_gift_list(self.live_base_url.as_str(), live_stream_id)
    }

    /// Build the `liveWebsocketInfo` live-api request.
    pub fn live_websocket_info(&self, live_stream_id: &str) -> (res: Result<KuaishouLiveApiRequest, AppError>)
        ensures
            request_outcome(res) == live_websocket_info_request(self.live_base_url(), live_stream_id@),
    {
        request::live_websocket_info(self.live_base_url.as_str(), live_stream_id)
    }

    /// Build the `liveDetail` live-api request.
    pub fn live_detail(&self, principal_id: &str, auth_token: Option<&str>) -> (res: Result<
        KuaishouLiveApiRequest,
        AppError,
    >)
        ensures
            request_outcome(res) == live_detail_with_auth_token_request(
                self.live_base_url(),
                principal_id@,
                option_str_view(auth_token),
            ),
    {
        request::live_detail_with_auth_token(self.live_base_url.as_str(), principal_id, auth_token)
    }

    /// Build the `liveReco` live-api request.
    pub fn live_reco(&self, game_id: Option<&str>) -> (res: Result<KuaishouLiveApiRequest, AppError>)
        ensures
            live_reco_outcome(self.live_base_url(), option_str_view(game_id), res),
    {
        request::live_reco(self.live_base_url.as_str(), game_id)
    }
}

impl Default for KuaishouApiUrls {
    /// The builder with the default platform endpoints.
    fn default() -> (urls: Self)
        ensures
            urls.graphql_endpoint() == KUAISHOU_GRAPHQL_ENDPOINT@,
            urls.live_base_url() == KUAISHOU_LIVE_BASE_URL@,
    {
        Self::new()
    }
}

/// Create a public Kuaishou API builder with the default endpoints.
pub fn create_kuaishou_api_urls() -> (urls: KuaishouApiUrls)
    ensures
        urls.graphql_endpoint() == KUAISHOU_GRAPHQL_ENDPOINT@,
        urls.live_base_url() == KUAISHOU_LIVE_BASE_URL@,
{
    KuaishouApiUrls::new()
}

} // verus!
