//! The X fetcher's configuration and the session it carries.

use vstd::prelude::*;

use crate::client::RequestProfile;
use crate::error::AppError;
use crate::pairs::{last_wins, pairs_get};
use crate::text::{trim, trimmed};
use crate::twitter::api::{TwitterApiUrls, TWITTER_GRAPHQL_BASE_URL, TWITTER_GUEST_ACTIVATE_URL};
use crate::twitter::transaction::ClientTransactionState;

verus! {

/// The X web origin.
pub const TWITTER_WEB_BASE_URL: &'static str = "https://x.com";

/// Rust-native Twitter/X fetcher backed by the public web protocol.
#[derive(Debug, Clone)]
pub struct TwitterFetcher {
    request_profile: RequestProfile,
    api_urls: TwitterApiUrls,
    web_base_url: String,
}

/// The cookie header of a profile: `Cookie`, else `cookie`, when it holds
/// more than whitespace.
pub open spec fn profile_cookie(profile: RequestProfile) -> Option<Seq<char>> {
    let headers = last_wins(profile.headers.deep_view());
    let raw = if headers.contains_key("Cookie"@) {
        Some(headers["Cookie"@])
    } else if headers.contains_key("cookie"@) {
        Some(headers["cookie"@])
    } else {
        None
    };
    match raw {
        Some(c) => if trimmed(c).len() > 0 {
            Some(c)
        } else {
            None
        },
        None => None,
    }
}

impl TwitterFetcher {
    /// The request settings.
    pub closed spec fn profile(&self) -> RequestProfile {
        self.request_profile
    }

    /// The request builder.
    pub closed spec fn urls(&self) -> TwitterApiUrls {
        self.api_urls
    }

    /// The web origin requests are made against.
    pub closed spec fn web_base(&self) -> Seq<char> {
        self.web_base_url@
    }

    /// The settings hold their invariant.
    pub open spec fn wf(&self) -> bool {
        self.profile().wf()
    }

    /// A fetcher with the given request settings, the default endpoints and
    /// the `https://x.com` origin.
    pub fn new(request_profile: RequestProfile) -> (fetcher: Self)
        requires
            request_profile.wf(),
        ensures
            fetcher.wf(),
            fetcher.profile() == request_profile,
            fetcher.web_base() == TWITTER_WEB_BASE_URL@,
            fetcher.urls().graphql_base_url() == TWITTER_GRAPHQL_BASE_URL@,
            fetcher.urls().guest_activate_url() == TWITTER_GUEST_ACTIVATE_URL@,
    {
        TwitterFetcher {
            request_profile,
            api_urls: TwitterApiUrls::new(),
            web_base_url: TWITTER_WEB_BASE_URL.to_owned(),
        }
    }

    /// Return the resolved request profile bound to this fetcher.
    pub fn request_profile(&self) -> (profile: &RequestProfile)
        ensures
            *profile == self.profile(),
    {
        &self.request_profile
    }

    /// The web origin requests are made against.
    pub fn web_base_url(&self) -> (url: &str)
        ensures
            url@ == self.web_base(),
    {
        self.web_base_url.as_str()
    }

    /// The request builder of this fetcher.
    pub fn api_urls(&self) -> (urls: &TwitterApiUrls)
        ensures
            *urls == self.urls(),
    {
        &self.api_urls
    }

    /// The cookie header, when one with more than whitespace is set.
    pub fn cookie_header(&self) -> (cookie: Option<&str>)
        requires
            self.wf(),
        ensures
            match cookie {
                Some(c) => profile_cookie(self.profile()) == Some(c@),
                None => profile_cookie(self.profile()) is None,
            },
    {
        let raw = match pairs_get(&self.request_profile.headers, "Cookie") {
            Some(c) => Some(c),
            None => pairs_get(&self.request_profile.headers, "cookie"),
        };
        match raw {
            Some(c) => {
                if trim(c.as_str()).as_str().is_empty() {
                    None
                } else {
                    Some(c.as_str())
                }
            },
            None => None,
        }
    }
}

/// How long a built client transaction state is reused, in seconds.
pub const CLIENT_TRANSACTION_CACHE_TTL_SECS: u64 = 900;

/// A client transaction state and the Unix second at which it stops being
/// reused.
pub struct CachedTransactionState {
    /// The state.
    pub state: ClientTransactionState,
    /// The first second at which the state is stale.
    pub expires_at_unix_secs: u64,
}

/// Two states with the same key bytes and animation key.
pub open spec fn same_transaction_state(a: ClientTransactionState, b: ClientTransactionState) -> bool {
    a.key_bytes@ == b.key_bytes@ && a.animation_key@ == b.animation_key@
}

fn copy_transaction_state(state: &ClientTransactionState) -> (copy: ClientTransactionState)
    ensures
        same_transaction_state(copy, *state),
{
    let mut key_bytes: Vec<u8> = Vec::new();
    for i in 0..state.key_bytes.len()
        invariant
            key_bytes@ == state.key_bytes@.take(i as int),
    {
        key_bytes.push(state.key_bytes[i]);
        assert(key_bytes@ =~= state.key_bytes@.take(i + 1));
    }
    assert(state.key_bytes@.take(state.key_bytes@.len() as int) =~= state.key_bytes@);
    ClientTransactionState { key_bytes, animation_key: state.animation_key.clone() }
}

/// The cached client transaction state while it has not expired at `now`:
/// a copy of it, or `None` when there is none or it is stale.
pub fn fresh_transaction_state(cache: &Option<CachedTransactionState>, now: u64) -> (fresh: Option<
    ClientTransactionState,
>)
    ensures
        match cache {
            Some(c) => if c.expires_at_unix_secs > now {
                fresh matches Some(s) && same_transaction_state(s, c.state)
            } else {
                fresh is None
            },
            None => fresh is None,
        },
{
    match cache {
        Some(c) => if c.expires_at_unix_secs > now {
            Some(copy_transaction_state(&c.state))
        } else {
            None
        },
        None => None,
    }
}

/// What follows an attempt to build a new client transaction state at
/// `now`, when the cache held none that was fresh. A built state is cached
/// for `CLIENT_TRANSACTION_CACHE_TTL_SECS` and returned. When the build
/// failed, a stale cached state is kept for another such period and
/// returned in its place; with nothing cached the build error is returned
/// and the cache stays empty.
pub fn settle_transaction_state(
    cache: &mut Option<CachedTransactionState>,
    now: u64,
    built: Result<ClientTransactionState, AppError>,
) -> (res: Result<ClientTransactionState, AppError>)
    ensures
        match built {
            Ok(s) => {
                &&& res matches Ok(r) && same_transaction_state(r, s)
                &&& *final(cache) matches Some(c) && same_transaction_state(c.state, s)
                    && c.expires_at_unix_secs == now.saturating_add(CLIENT_TRANSACTION_CACHE_TTL_SECS)
            },
            Err(e) => match *old(cache) {
                Some(c) => {
                    &&& res matches Ok(r) && same_transaction_state(r, c.state)
                    &&& *final(cache) matches Some(n) && same_transaction_state(n.state, c.state)
                        && n.expires_at_unix_secs == now.saturating_add(CLIENT_TRANSACTION_CACHE_TTL_SECS)
                },
                None => res == Err::<ClientTransactionState, AppError>(e) && *final(cache) is None,
            },
        },
{
    let expires = now.saturating_add(CLIENT_TRANSACTION_CACHE_TTL_SECS);
    match built {
        Ok(state) => {
            let kept = copy_transaction_state(&state);
            *cache = Some(CachedTransactionState { state: kept, expires_at_unix_secs: expires });
            Ok(state)
        },
        Err(error) => {
            let previous = cache.take();
            match previous {
                Some(c) => {
                    let out = copy_transaction_state(&c.state);
                    *cache = Some(CachedTransactionState { state: c.state, expires_at_unix_secs: expires });
                    Ok(out)
                },
                None => Err(error),
            }
        },
    }
}

} // verus!
