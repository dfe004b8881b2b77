//! The X endpoints and the search and reply modes of its web API.

use vstd::prelude::*;

verus! {

/// The default GraphQL base URL.
pub const TWITTER_GRAPHQL_BASE_URL: &'static str = "https://x.com/i/api/graphql";

/// The default guest-token activation URL.
pub const TWITTER_GUEST_ACTIVATE_URL: &'static str = "https://api.twitter.com/1.1/guest/activate.json";

/// Public Twitter/X API URL builder.
#[derive(Debug, Clone)]
pub struct TwitterApiUrls {
    graphql_base_url: String,
    guest_activate_url: String,
}

impl TwitterApiUrls {
    /// The GraphQL base URL.
    pub closed spec fn graphql_base_url(&self) -> Seq<char> {
        self.graphql_base_url@
    }

    /// The guest-token activation URL.
    pub closed spec fn guest_activate_url(&self) -> Seq<char> {
        self.guest_activate_url@
    }

    /// Create a URL builder using the default X web endpoints.
    pub fn new() -> (urls: Self)
        ensures
            urls.graphql_base_url() == TWITTER_GRAPHQL_BASE_URL@,
            urls.guest_activate_url() == TWITTER_GUEST_ACTIVATE_URL@,
    {
        TwitterApiUrls {
            graphql_base_url: TWITTER_GRAPHQL_BASE_URL.to_owned(),
            guest_activate_url: TWITTER_GUEST_ACTIVATE_URL.to_owned(),
        }
    }

    /// Create a URL builder with explicit upstream overrides.
    pub fn with_base_urls(graphql_base_url: String, guest_activate_url: String) -> (urls: Self)
        ensures
            urls.graphql_base_url() == graphql_base_url@,
            urls.guest_activate_url() == guest_activate_url@,
    {
        TwitterApiUrls { graphql_base_url, guest_activate_url }
    }

    /// The GraphQL base URL.
    pub(crate) fn graphql_base_url_str(&self) -> (url: &str)
        ensures
            url@ == self.graphql_base_url(),
    {
        self.graphql_base_url.as_str()
    }

    /// Return the guest-token activation URL.
    pub fn guest_activate(&self) -> (url: &str)
        ensures
            url@ == self.guest_activate_url(),
    {
        self.guest_activate_url.as_str()
    }
}

impl Default for TwitterApiUrls {
    /// The builder with the default X web endpoints.
    fn default() -> (urls: Self)
        ensures
            urls.graphql_base_url() == TWITTER_GRAPHQL_BASE_URL@,
            urls.guest_activate_url() == TWITTER_GUEST_ACTIVATE_URL@,
    {
        Self::new()
    }
}

/// Create a public Twitter/X URL builder with the default endpoints.
pub fn create_twitter_api_urls() -> (urls: TwitterApiUrls)
    ensures
        urls.graphql_base_url() == TWITTER_GRAPHQL_BASE_URL@,
        urls.guest_activate_url() == TWITTER_GUEST_ACTIVATE_URL@,
{
    TwitterApiUrls::new()
}

/// The page size of a media timeline: 20 unless given, and at least 2.
pub open spec fn spec_user_media_count(count: Option<u32>) -> u32 {
    let c = match count {
        Some(c) => c,
        None => 20,
    };
    if c < 2 {
        2
    } else {
        c
    }
}

/// The page size of a media timeline.
pub fn normalize_user_media_count(count: Option<u32>) -> (n: u32)
    ensures
        n == spec_user_media_count(count),
{
    let c = match count {
        Some(c) => c,
        None => 20,
    };
    if c < 2 {
        2
    } else {
        c
    }
}

/// Search result mode supported by the Twitter/X web search timeline.
#[derive(Debug, Clone, Copy, Default, PartialEq, Eq, Structural)]
pub enum TwitterTweetSearchMode {
    /// Return latest matching tweets.
    #[default]
    Latest,
    /// Return top matching tweets.
    Top,
}

impl TwitterTweetSearchMode {
    /// The GraphQL `product` name of the mode.
    pub fn graphql_product(self) -> (name: &'static str)
        ensures
            name@ == (match self {
                TwitterTweetSearchMode::Latest => "Latest"@,
                TwitterTweetSearchMode::Top => "Top"@,
            }),
    {
        match self {
            TwitterTweetSearchMode::Latest => "Latest",
            TwitterTweetSearchMode::Top => "Top",
        }
    }
}

/// Reply ordering supported by the Twitter/X tweet-detail timeline.
#[derive(Debug, Clone, Copy, Default, PartialEq, Eq, Structural)]
pub enum TwitterTweetRepliesSortMode {
    /// Return replies ranked by recency.
    #[default]
    Latest,
    /// Return replies ranked by total likes.
    Likes,
    /// Return replies ranked by X relevance ordering.
    Relevance,
}

impl TwitterTweetRepliesSortMode {
    /// The GraphQL `rankingMode` name of the ordering.
    pub fn graphql_ranking_mode(self) -> (name: &'static str)
        ensures
            name@ == (match self {
                TwitterTweetRepliesSortMode::Latest => "Recency"@,
                TwitterTweetRepliesSortMode::Likes => "Likes"@,
                TwitterTweetRepliesSortMode::Relevance => "Relevance"@,
            }),
    {
        match self {
            TwitterTweetRepliesSortMode::Latest => "Recency",
            TwitterTweetRepliesSortMode::Likes => "Likes",
            TwitterTweetRepliesSortMode::Relevance => "Relevance",
        }
    }
}

} // verus!
