//! The Kuaishou fetcher's configuration.

use vstd::prelude::*;

use crate::client::RequestProfile;
use crate::error::{upstream_error, AppError};
use crate::kuaishou::json::KuaishouJsonValue;
use crate::kuaishou::api::{KUAISHOU_GRAPHQL_ENDPOINT, KUAISHOU_LIVE_BASE_URL};
use crate::pairs::{last_wins, pairs_get};

verus! {

/// Rust-native Kuaishou fetcher.
#[derive(Debug, Clone)]
pub struct KuaishouFetcher {
    request_profile: RequestProfile,
    live_base_url: String,
    graphql_endpoint: String,
}

/// The cookie header of a profile: `Cookie`, else `cookie`.
pub open spec fn kuaishou_cookie(profile: RequestProfile) -> Option<Seq<char>> {
    let headers = last_wins(profile.headers.deep_view());
    if headers.contains_key("Cookie"@) {
        Some(headers["Cookie"@])
    } else if headers.contains_key("cookie"@) {
        Some(headers["cookie"@])
    } else {
        None
    }
}

impl KuaishouFetcher {
    /// The request settings.
    pub closed spec fn profile(&self) -> RequestProfile {
        self.request_profile
    }

    /// The live site origin that `live_api` requests are built on.
    pub closed spec fn live_base(&self) -> Seq<char> {
        self.live_base_url@
    }

    /// The GraphQL endpoint requests go to.
    pub closed spec fn endpoint(&self) -> Seq<char> {
        self.graphql_endpoint@
    }

    /// The settings hold their invariant.
    pub closed spec fn wf(&self) -> bool {
        self.request_profile.wf()
    }

    /// A fetcher with the given request settings, the default live site
    /// origin and the default GraphQL endpoint.
    pub fn new(request_profile: RequestProfile) -> (fetcher: Self)
        requires
            request_profile.wf(),
        ensures
            fetcher.wf(),
            fetcher.profile() == request_profile,
            fetcher.live_base() == KUAISHOU_LIVE_BASE_URL@,
            fetcher.endpoint() == KUAISHOU_GRAPHQL_ENDPOINT@,
    {
        KuaishouFetcher {
            request_profile,
            live_base_url: KUAISHOU_LIVE_BASE_URL.to_owned(),
            graphql_endpoint: KUAISHOU_GRAPHQL_ENDPOINT.to_owned(),
        }
    }

    /// The live site origin that `live_api` requests are built on.
    pub fn live_base_url(&self) -> (base: &str)
        ensures
            base@ == self.live_base(),
    {
        self.live_base_url.as_str()
    }

    /// The resolved request profile bound to this fetcher.
    pub fn request_profile(&self) -> (profile: &RequestProfile)
        ensures
            *profile == self.profile(),
    {
        &self.request_profile
    }

    /// The GraphQL endpoint requests go to.
    pub fn graphql_endpoint(&self) -> (endpoint: &str)
        ensures
            endpoint@ == self.endpoint(),
    {
        self.graphql_endpoint.as_str()
    }

    /// The cookie header (`Cookie`, else `cookie`).
    pub fn cookie(&self) -> (cookie: Option<&str>)
        requires
            self.wf(),
        ensures
            match cookie {
                Some(c) => kuaishou_cookie(self.profile()) == Some(c@),
                None => kuaishou_cookie(self.profile()) is None,
            },
    {
        match pairs_get(&self.request_profile.headers, "Cookie") {
            Some(c) => Some(c.as_str()),
            None => match pairs_get(&self.request_profile.headers, "cookie") {
                Some(c) => Some(c.as_str()),
                None => None,
            },
        }
    }
}

/// Texts joined with `; ` between them.
pub open spec fn joined_messages(messages: Seq<Seq<char>>) -> Seq<char>
    decreases messages.len(),
{
    if messages.len() == 0 {
        seq![]
    } else if messages.len() == 1 {
        messages[0]
    } else {
        joined_messages(messages.drop_last()) + "; "@ + messages.last()
    }
}

/// What a GraphQL answer gives: its errors' messages, joined, as a
/// failure when it lists errors; else its data, or a failure when it has
/// none.
pub fn kuaishou_graphql_data(
    data: Option<KuaishouJsonValue>,
    error_messages: Option<Vec<String>>,
) -> (res: Result<KuaishouJsonValue, AppError>)
    ensures
        match error_messages {
            Some(m) => res matches Err(e) && e.upstream_message() == Some(
                "kuaishou graphql returned errors: "@ + joined_messages(m@.map_values(|t: String| t@)),
            ),
            None => match data {
                Some(d) => res == Ok::<KuaishouJsonValue, AppError>(d),
                None => res matches Err(e) && e.upstream_message() == Some(
                    "kuaishou graphql response missing data"@,
                ),
            },
        },
{
    match error_messages {
        Some(messages) => {
            let ghost view = messages@.map_values(|t: String| t@);
            let mut joined = String::new();
            for i in 0..messages.len()
                invariant
                    view == messages@.map_values(|t: String| t@),
                    joined@ == joined_messages(view.take(i as int)),
            {
                assert(view.take(i + 1).drop_last() =~= view.take(i as int));
                if i > 0 {
                    joined.append("; ");
                }
                joined.append(messages[i].as_str());
                assert(view.take(i + 1).last() == messages@[i as int]@);
                assert(i == 0 ==> view.take(i + 1)[0] == messages@[0]@);
            }
            assert(view.take(messages@.len() as int) =~= view);
            let mut message = "kuaishou graphql returned errors: ".to_owned();
            message.append(joined.as_str());
            Err(upstream_error(message))
        },
        None => match data {
            Some(d) => Ok(d),
            None => Err(upstream_error("kuaishou graphql response missing data".to_owned())),
        },
    }
}

} // verus!
