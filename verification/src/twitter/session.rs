//! The headers of the X web protocol and what a session answer means: the
//! guest-token activation, the GraphQL request headers, the language and
//! the session a fetcher carries.

use vstd::prelude::*;

use crate::client::RequestProfile;
use crate::error::{upstream_error, AppError};
use crate::kuaishou::json::KuaishouJsonValue;
use crate::kuaishou::value::{get_in, member};
use crate::pairs::{
    copy_pairs, has_name, last_wins, names_ascending, pairs_by_name, pairs_get, pairs_have_name,
    push_pair, TextPairs,
};
use crate::text::{
    option_str_view, string_eq_str, trim, trim_end_char, trim_end_matches_char, trimmed,
};
use crate::twitter::fetcher::{profile_cookie, TwitterFetcher};
use crate::twitter::transport::{cookie_has_name, spec_cookie_has_name};
use crate::weburl::{parse_url, url_parse};

verus! {

/// The pairs whose names are not in `names`, in order.
pub open spec fn without_names(pairs: TextPairs, names: Set<Seq<char>>) -> TextPairs
    decreases pairs.len(),
{
    if pairs.len() == 0 {
        pairs
    } else {
        let rest = without_names(pairs.drop_last(), names);
        if names.contains(pairs.last().0) {
            rest
        } else {
            rest.push(pairs.last())
        }
    }
}

/// The headers that carry a signed-in session.
pub open spec fn session_header_names() -> Set<Seq<char>> {
    set!["Cookie"@, "cookie"@, "x-csrf-token"@, "x-twitter-auth-type"@]
}

/// The origin's root page: the web base without trailing `/`, then `/`.
pub open spec fn web_root(web_base: Seq<char>) -> Seq<char> {
    trim_end_char(web_base, '/') + "/"@
}

/// The headers of a guest-token activation, in the order they are set: the
/// profile's headers without the session ones, then the bearer token, the
/// root page as referer and the origin.
pub open spec fn guest_activation_pairs(profile: TextPairs, bearer_token: Seq<char>, web_base: Seq<char>) -> TextPairs {
    without_names(profile, session_header_names()) + seq![
        ("Authorization"@, "Bearer "@ + bearer_token),
        ("Referer"@, web_root(web_base)),
        ("Origin"@, web_base),
    ]
}

/// One pair when a value is given.
pub open spec fn given_pair(name: Seq<char>, value: Option<Seq<char>>) -> TextPairs {
    match value {
        Some(v) => seq![(name, v)],
        None => Seq::empty(),
    }
}

/// The client language of a profile: `x-twitter-client-language`, else
/// `X-Twitter-Client-Language`, when the first of them present holds more
/// than whitespace; else `default`.
pub open spec fn profile_language(profile: RequestProfile, default: Seq<char>) -> Seq<char> {
    let headers = last_wins(profile.headers.deep_view());
    let raw = if headers.contains_key("x-twitter-client-language"@) {
        Some(headers["x-twitter-client-language"@])
    } else if headers.contains_key("X-Twitter-Client-Language"@) {
        Some(headers["X-Twitter-Client-Language"@])
    } else {
        None
    };
    match raw {
        Some(l) => if trimmed(l).len() > 0 {
            l
        } else {
            default
        },
        None => default,
    }
}

/// The headers of a GraphQL request, in the order they are set: the
/// profile's headers; the bearer token, `x-twitter-active-user: yes`, the
/// language and the origin; the root page as referer when the profile sets
/// none; the given referer; the guest token; the cookie with, when a CSRF
/// token is given, that token and `x-twitter-auth-type: OAuth2Session`;
/// and the transaction id.
pub open spec fn graphql_header_pairs(
    profile: RequestProfile,
    web_base: Seq<char>,
    bearer_token: Seq<char>,
    language: Seq<char>,
    guest_token: Option<Seq<char>>,
    referer: Option<Seq<char>>,
    csrf_token: Option<Seq<char>>,
    transaction_id: Seq<char>,
) -> TextPairs {
    let p = profile.headers.deep_view();
    let fixed = seq![
        ("Authorization"@, "Bearer "@ + bearer_token),
        ("x-twitter-active-user"@, "yes"@),
        ("x-twitter-client-language"@, language),
        ("Origin"@, web_base),
    ];
    let default_referer = if has_name(p, "Referer"@) {
        Seq::empty()
    } else {
        seq![("Referer"@, web_root(web_base))]
    };
    let session = match profile_cookie(profile) {
        Some(c) => seq![("Cookie"@, c)] + match csrf_token {
            Some(t) => seq![("x-csrf-token"@, t), ("x-twitter-auth-type"@, "OAuth2Session"@)],
            None => Seq::empty(),
        },
        None => Seq::empty(),
    };
    p + fixed + default_referer + given_pair("Referer"@, referer) + given_pair(
        "x-guest-token"@,
        guest_token,
    ) + session + seq![("x-client-transaction-id"@, transaction_id)]
}

/// Whether a profile carries a signed-in session: a cookie with an
/// `auth_token` and a CSRF token found in it.
pub open spec fn signed_in(profile: RequestProfile, csrf_found: bool) -> bool {
    match profile_cookie(profile) {
        Some(c) => spec_cookie_has_name(c, "auth_token"@) && csrf_found,
        None => false,
    }
}

fn is_session_header(name: &String) -> (b: bool)
    ensures
        b == session_header_names().contains(name@),
{
    string_eq_str(name, "Cookie") || string_eq_str(name, "cookie") || string_eq_str(
        name,
        "x-csrf-token",
    ) || string_eq_str(name, "x-twitter-auth-type")
}

fn without_session_headers(pairs: &Vec<(String, String)>) -> (out: Vec<(String, String)>)
    ensures
        out.deep_view() == without_names(pairs.deep_view(), session_header_names()),
{
    let ghost view = pairs.deep_view();
    let mut out: Vec<(String, String)> = Vec::new();
    assert(view.take(0).len() == 0);
    for i in 0..pairs.len()
        invariant
            view == pairs.deep_view(),
            out.deep_view() == without_names(view.take(i as int), session_header_names()),
    {
        assert(view.take(i + 1).drop_last() =~= view.take(i as int));
        assert(view[i as int] == (pairs@[i as int].0@, pairs@[i as int].1@));
        if !is_session_header(&pairs[i].0) {
            push_pair(&mut out, pairs[i].0.as_str(), pairs[i].1.as_str());
        }
    }
    assert(view.take(pairs@.len() as int) =~= view);
    out
}

fn root_page(web_base: &str) -> (url: String)
    ensures
        url@ == web_root(web_base@),
{
    let mut url = trim_end_matches_char(web_base, '/');
    url.append("/");
    url
}

impl TwitterFetcher {
    /// The headers of a guest-token activation, each name once in ascending
    /// order (see `guest_activation_pairs`).
    pub fn guest_activation_headers(&self, bearer_token: &str) -> (headers: Vec<(String, String)>)
        ensures
            names_ascending(headers.deep_view()),
            last_wins(headers.deep_view()) == last_wins(
                guest_activation_pairs(self.profile().headers.deep_view(), bearer_token@, self.web_base()),
            ),
    {
        let mut all = without_session_headers(&self.request_profile().headers);
        let mut authorization = "Bearer ".to_owned();
        authorization.append(bearer_token);
        push_pair(&mut all, "Authorization", authorization.as_str());
        let web_base = self.web_base_url();
        let root = root_page(web_base);
        push_pair(&mut all, "Referer", root.as_str());
        push_pair(&mut all, "Origin", web_base);
        assert(all.deep_view() =~= guest_activation_pairs(
            self.profile().headers.deep_view(),
            bearer_token@,
            self.web_base(),
        ));
        pairs_by_name(&all)
    }

    /// The client language (see `profile_language`).
    pub fn language(&self, default_language: &str) -> (language: String)
        requires
            self.wf(),
        ensures
            language@ == profile_language(self.profile(), default_language@),
    {
        let headers = &self.request_profile().headers;
        let raw = match pairs_get(headers, "x-twitter-client-language") {
            Some(l) => Some(l),
            None => pairs_get(headers, "X-Twitter-Client-Language"),
        };
        match raw {
            Some(l) => {
                if trim(l.as_str()).as_str().is_empty() {
                    default_language.to_owned()
                } else {
                    l.clone()
                }
            },
            None => default_language.to_owned(),
        }
    }

    /// The headers of a GraphQL request, each name once in ascending order
    /// (see `graphql_header_pairs`). `csrf_token` is the CSRF token found in
    /// the cookie, if any.
    pub fn graphql_headers(
        &self,
        bearer_token: &str,
        language: &str,
        guest_token: Option<&str>,
        referer: Option<&str>,
        csrf_token: Option<&str>,
        transaction_id: &str,
    ) -> (headers: Vec<(String, String)>)
        requires
            self.wf(),
        ensures
            names_ascending(headers.deep_view()),
            last_wins(headers.deep_view()) == last_wins(
                graphql_header_pairs(
                    self.profile(),
                    self.web_base(),
                    bearer_token@,
                    language@,
                    option_str_view(guest_token),
                    option_str_view(referer),
                    option_str_view(csrf_token),
                    transaction_id@,
                ),
            ),
    {
        let profile_headers = &self.request_profile().headers;
        let web_base = self.web_base_url();
        let mut all = copy_pairs(profile_headers);
        let mut authorization = "Bearer ".to_owned();
        authorization.append(bearer_token);
        push_pair(&mut all, "Authorization", authorization.as_str());
        push_pair(&mut all, "x-twitter-active-user", "yes");
        push_pair(&mut all, "x-twitter-client-language", language);
        push_pair(&mut all, "Origin", web_base);
        let ghost fixed_end = all.deep_view();
        if !pairs_have_name(profile_headers, "Referer") {
            let root = root_page(web_base);
            push_pair(&mut all, "Referer", root.as_str());
        }
        let ghost referer_end = all.deep_view();
        match referer {
            Some(r) => push_pair(&mut all, "Referer", r),
            None => {},
        }
        let ghost given_end = all.deep_view();
        match guest_token {
            Some(g) => push_pair(&mut all, "x-guest-token", g),
            None => {},
        }
        let ghost guest_end = all.deep_view();
        match self.cookie_header() {
            Some(c) => {
                push_pair(&mut all, "Cookie", c);
                match csrf_token {
                    Some(t) => {
                        push_pair(&mut all, "x-csrf-token", t);
                        push_pair(&mut all, "x-twitter-auth-type", "OAuth2Session");
                    },
                    None => {},
                }
            },
            None => {},
        }
        let ghost session_end = all.deep_view();
        push_pair(&mut all, "x-client-transaction-id", transaction_id);
        assert(all.deep_view() =~= graphql_header_pairs(
            self.profile(),
            self.web_base(),
            bearer_token@,
            language@,
            option_str_view(guest_token),
            option_str_view(referer),
            option_str_view(csrf_token),
            transaction_id@,
        ));
        pairs_by_name(&all)
    }

    /// Whether the fetcher carries a signed-in session (see `signed_in`);
    /// `csrf_found` tells whether a CSRF token was found in the cookie.
    pub fn has_authenticated_session(&self, csrf_found: bool) -> (b: bool)
        requires
            self.wf(),
        ensures
            b == signed_in(self.profile(), csrf_found),
    {
        match self.cookie_header() {
            Some(c) => cookie_has_name(c, "auth_token") && csrf_found,
            None => false,
        }
    }

    /// Refuses a capability that needs a signed-in session when there is
    /// none.
    pub fn ensure_authenticated_session(&self, capability: &str, csrf_found: bool) -> (res: Result<
        (),
        AppError,
    >)
        requires
            self.wf(),
        ensures
            if signed_in(self.profile(), csrf_found) {
                res is Ok
            } else {
                res matches Err(e) && e.config_message() == Some(
                    "twitter capability `"@ + capability@
                        + "` requires `AMAGI_TWITTER_COOKIE` with at least `auth_token` and `ct0`"@,
                )
            },
    {
        if self.has_authenticated_session(csrf_found) {
            return Ok(());
        }
        let mut message = "twitter capability `".to_owned();
        message.append(capability);
        message.append("` requires `AMAGI_TWITTER_COOKIE` with at least `auth_token` and `ct0`");
        Err(AppError::InvalidRequestConfig(message))
    }
}

/// The guest token of an activation answer: its `guest_token` string.
pub fn guest_token_of(value: &KuaishouJsonValue) -> (res: Result<String, AppError>)
    ensures
        match get_in(Some(*value), "guest_token"@) {
            Some(KuaishouJsonValue::String(t)) => res matches Ok(s) && s@ == t@,
            _ => res matches Err(e) && e.upstream_message() == Some(
                "twitter guest activation did not return `guest_token`"@,
            ),
        },
{
    match member(Some(value), "guest_token") {
        Some(KuaishouJsonValue::String(t)) => Ok(t.clone()),
        _ => Err(upstream_error("twitter guest activation did not return `guest_token`".to_owned())),
    }
}

/// The path a transaction id is made for: the path of the request URL, or
/// ``invalid twitter graphql url `{url}`: {reason}``.
pub fn transaction_path(url: &str) -> (res: Result<String, AppError>)
    ensures
        match url_parse(url@) {
            Ok(parts) => res matches Ok(p) && p@ == parts.1,
            Err(reason) => res matches Err(e) && e.config_message() == Some(
                "invalid twitter graphql url `"@ + url@ + "`: "@ + reason,
            ),
        },
{
    match parse_url(url) {
        Ok(parsed) => Ok(parsed.path),
        Err(reason) => {
            let mut message = "invalid twitter graphql url `".to_owned();
            message.append(url);
            message.append("`: ");
            message.append(reason.as_str());
            Err(AppError::InvalidRequestConfig(message))
        },
    }
}

} // verus!
