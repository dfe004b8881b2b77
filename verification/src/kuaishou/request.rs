//! Descriptions of Kuaishou `live_api` requests and the builders that make
//! them.

use vstd::prelude::*;

use crate::error::AppError;
use crate::kuaishou::json::{lemma_members_with_new, KuaishouJsonObject, KuaishouJsonValue};
use crate::pairs::TextPairs;
use crate::text::option_str_view;
use crate::text::{decimal, parse_u64, spec_parse_u64, trim, trimmed, u64_to_decimal};
use crate::weburl::{
    clear_url_query, extend_url_query, parse_url, set_url_path, url_extend_query, url_parse,
    url_with_path, url_without_query,
};

verus! {

/// HTTP method of a `live_api` request.
#[derive(Debug, Clone, Copy, PartialEq, Eq, Structural)]
pub enum KuaishouLiveApiMethod {
    /// `GET`.
    Get,
    /// `POST` with a JSON body.
    Post,
}

/// A `live_api` request ready to be signed and sent.
#[derive(Debug, PartialEq)]
pub struct KuaishouLiveApiRequest {
    /// The request's name on the platform (`liveDetail`, ...).
    pub request_type: String,
    /// The full request URL.
    pub url: String,
    /// The HTTP method.
    pub method: KuaishouLiveApiMethod,
    /// Whether the request carries an `__NS_hxfalcon` signature.
    pub requires_sign: bool,
    /// The path signed in place of the URL's own path, if any.
    pub sign_path: Option<String>,
    /// The JSON body (sent with `POST`).
    pub body: KuaishouJsonObject,
}

/// A request as plain values: type, URL, method, whether it is signed, the
/// path signed in its place, and the body's members.
pub type LiveRequestView = (
    Seq<char>,
    Seq<char>,
    KuaishouLiveApiMethod,
    bool,
    Option<Seq<char>>,
    Seq<(Seq<char>, KuaishouJsonValue)>,
);

impl View for KuaishouLiveApiRequest {
    type V = LiveRequestView;

    open spec fn view(&self) -> LiveRequestView {
        (
            self.request_type@,
            self.url@,
            self.method,
            self.requires_sign,
            match self.sign_path {
                Some(p) => Some(p@),
                None => None,
            },
            self.body.members(),
        )
    }
}

impl KuaishouLiveApiRequest {
    /// A signed `GET` request without body or sign path.
    pub fn new(request_type: String, url: String) -> (request: Self)
        ensures
            request@ == (request_type@, url@, KuaishouLiveApiMethod::Get, true, None::<Seq<char>>, Seq::<(Seq<char>, KuaishouJsonValue)>::empty()),
    {
        KuaishouLiveApiRequest {
            request_type,
            url,
            method: KuaishouLiveApiMethod::Get,
            requires_sign: true,
            sign_path: None,
            body: KuaishouJsonObject::new(),
        }
    }

    /// The same request, signed or not.
    pub fn with_requires_sign(self, requires_sign: bool) -> (request: Self)
        ensures
            request@ == (self@.0, self@.1, self@.2, requires_sign, self@.4, self@.5),
    {
        KuaishouLiveApiRequest { requires_sign, ..self }
    }

    /// The same request, signing `sign_path` in place of its own path.
    pub fn with_sign_path(self, sign_path: &str) -> (request: Self)
        ensures
            request@ == (self@.0, self@.1, self@.2, self@.3, Some(sign_path@), self@.5),
    {
        KuaishouLiveApiRequest { sign_path: Some(sign_path.to_owned()), ..self }
    }

    /// The same request with another method.
    pub fn with_method(self, method: KuaishouLiveApiMethod) -> (request: Self)
        ensures
            request@ == (self@.0, self@.1, method, self@.3, self@.4, self@.5),
    {
        KuaishouLiveApiRequest { method, ..self }
    }

    /// The same request with another body.
    pub fn with_body(self, body: KuaishouJsonObject) -> (request: Self)
        ensures
            request@ == (self@.0, self@.1, self@.2, self@.3, self@.4, body.members()),
    {
        KuaishouLiveApiRequest { body, ..self }
    }
}

/// A built request as plain values, or the message of the configuration
/// error.
pub open spec fn request_outcome(res: Result<KuaishouLiveApiRequest, AppError>) -> Result<
    LiveRequestView,
    Option<Seq<char>>,
> {
    match res {
        Ok(request) => Ok(request@),
        Err(error) => Err(error.config_message()),
    }
}

/// The URL of a `live_api` request: the base URL with the given path and
/// exactly the given query pairs.
pub open spec fn live_api_url(base_href: Seq<char>, pathname: Seq<char>, query: TextPairs) -> Seq<
    char,
> {
    url_extend_query(url_without_query(url_with_path(base_href, pathname)), query)
}

/// The request that `create_live_api_request` builds, or its error.
pub open spec fn spec_live_request(
    base_url: Seq<char>,
    request_type: Seq<char>,
    pathname: Seq<char>,
    query: TextPairs,
) -> Result<LiveRequestView, Option<Seq<char>>> {
    match url_parse(base_url) {
        Err(error) => Err(Some("invalid Kuaishou live base URL `"@ + base_url + "`: "@ + error)),
        Ok(parts) => Ok(
            (
                request_type,
                live_api_url(parts.0, pathname, query),
                KuaishouLiveApiMethod::Get,
                true,
                None,
                Seq::empty(),
            ),
        ),
    }
}

/// The same outcome, unsigned.
pub open spec fn unsigned(r: Result<LiveRequestView, Option<Seq<char>>>) -> Result<
    LiveRequestView,
    Option<Seq<char>>,
> {
    match r {
        Ok(v) => Ok((v.0, v.1, v.2, false, v.4, v.5)),
        Err(e) => Err(e),
    }
}

/// The same outcome, signing `path` in place of the URL's path.
pub open spec fn signed_at(r: Result<LiveRequestView, Option<Seq<char>>>, path: Seq<char>) -> Result<
    LiveRequestView,
    Option<Seq<char>>,
> {
    match r {
        Ok(v) => Ok((v.0, v.1, v.2, v.3, Some(path), v.5)),
        Err(e) => Err(e),
    }
}

/// A `live_api` request for `pathname` on the base URL, with exactly the
/// given query pairs; signed, `GET`, no body.
pub fn create_live_api_request(
    base_url: &str,
    request_type: &str,
    pathname: &str,
    query: &Vec<(String, String)>,
) -> (res: Result<KuaishouLiveApiRequest, AppError>)
    ensures
        request_outcome(res) == spec_live_request(
            base_url@,
            request_type@,
            pathname@,
            query.deep_view(),
        ),
{
    let parsed = match parse_url(base_url) {
        Ok(parsed) => parsed,
        Err(error) => {
            let mut message = "invalid Kuaishou live base URL `".to_owned();
            message.append(base_url);
            message.append("`: ");
            message.append(error.as_str());
            return Err(AppError::InvalidRequestConfig(message));
        },
    };
    let with_path = set_url_path(parsed.href.as_str(), pathname);
    let cleared = clear_url_query(with_path.as_str());
    let url = extend_url_query(cleared.as_str(), query);
    Ok(KuaishouLiveApiRequest::new(request_type.to_owned(), url))
}

/// Page size of the paged `live_api` lists.
pub const KUAISHOU_PAGE_SIZE: u32 = 12;

/// A name/value pair of texts.
fn pair(name: &str, value: String) -> (p: (String, String))
    ensures
        p.0@ == name@,
        p.1@ == value@,
{
    (name.to_owned(), value)
}

/// The outcome of `playback_list`.
pub open spec fn playback_list_request(base_url: Seq<char>, principal_id: Seq<char>) -> Result<LiveRequestView, Option<Seq<char>>> {
    unsigned(
            spec_live_request(
                base_url,
                "playbackList"@,
                "/live_api/playback/list"@,
                seq![
                    ("principalId"@, principal_id),
                    ("count"@, decimal(KUAISHOU_PAGE_SIZE as nat)),
                    ("cursor"@, Seq::empty()),
                    ("hasMore"@, "true"@),
                ],
            ),
        )
}

/// The `playbackList` request: unsigned.
pub fn playback_list(base_url: &str, principal_id: &str) -> (res: Result<KuaishouLiveApiRequest, AppError>)
    ensures
        request_outcome(res) == playback_list_request(base_url@, principal_id@),
{
    let query = vec![
        pair("principalId", principal_id.to_owned()),
        pair("count", u64_to_decimal(KUAISHOU_PAGE_SIZE as u64)),
        pair("cursor", String::new()),
        pair("hasMore", "true".to_owned()),
    ];
    assert(query.deep_view() =~= seq![
        ("principalId"@, principal_id@),
        ("count"@, decimal(KUAISHOU_PAGE_SIZE as nat)),
        ("cursor"@, Seq::<char>::empty()),
        ("hasMore"@, "true"@),
    ]);
    let request = create_live_api_request(
        base_url,
        "playbackList",
        "/live_api/playback/list",
        &query,
    )?;
    Ok(request.with_requires_sign(false))
}

/// The outcome of `interest_mask_list`.
pub open spec fn interest_mask_list_request(base_url: Seq<char>) -> Result<LiveRequestView, Option<Seq<char>>> {
    unsigned(
            spec_live_request(base_url, "interestMaskList"@, "/live_api/interestMask/list"@, seq![]),
        )
}

/// The `interestMaskList` request: unsigned, no query.
pub fn interest_mask_list(base_url: &str) -> (res: Result<KuaishouLiveApiRequest, AppError>)
    ensures
        request_outcome(res) == interest_mask_list_request(base_url@),
{
    let query: Vec<(String, String)> = Vec::new();
    assert(query.deep_view() =~= Seq::<(Seq<char>, Seq<char>)>::empty());
    let request = create_live_api_request(
        base_url,
        "interestMaskList",
        "/live_api/interestMask/list",
        &query,
    )?;
    Ok(request.with_requires_sign(false))
}

/// The outcome of `category_config`.
pub open spec fn category_config_request(base_url: Seq<char>) -> Result<LiveRequestView, Option<Seq<char>>> {
    unsigned(
            spec_live_request(base_url, "categoryConfig"@, "/live_api/category/config"@, seq![]),
        )
}

/// The `categoryConfig` request: unsigned, no query.
pub fn category_config(base_url: &str) -> (res: Result<KuaishouLiveApiRequest, AppError>)
    ensures
        request_outcome(res) == category_config_request(base_url@),
{
    let query: Vec<(String, String)> = Vec::new();
    assert(query.deep_view() =~= Seq::<(Seq<char>, Seq<char>)>::empty());
    let request = create_live_api_request(
        base_url,
        "categoryConfig",
        "/live_api/category/config",
        &query,
    )?;
    Ok(request.with_requires_sign(false))
}

/// The outcome of `category_data`.
pub open spec fn category_data_request(base_url: Seq<char>) -> Result<LiveRequestView, Option<Seq<char>>> {
    unsigned(
            spec_live_request(base_url, "categoryData"@, "/live_api/category/data"@, seq![]),
        )
}

/// The `categoryData` request: unsigned, no query.
pub fn category_data(base_url: &str) -> (res: Result<KuaishouLiveApiRequest, AppError>)
    ensures
        request_outcome(res) == category_data_request(base_url@),
{
    let query: Vec<(String, String)> = Vec::new();
    assert(query.deep_view() =~= Seq::<(Seq<char>, Seq<char>)>::empty());
    let request = create_live_api_request(
        base_url,
        "categoryData",
        "/live_api/category/data",
        &query,
    )?;
    Ok(request.with_requires_sign(false))
}

/// The outcome of `category_classify`.
pub open spec fn category_classify_request(base_url: Seq<char>) -> Result<LiveRequestView, Option<Seq<char>>> {
    unsigned(
            spec_live_request(
                base_url,
                "categoryClassify"@,
                "/live_api/category/classify"@,
                seq![("type"@, "4"@), ("source"@, "2"@), ("page"@, "1"@), ("pageSize"@, "20"@)],
            ),
        )
}

/// The `categoryClassify` request: unsigned, first page of twenty.
pub fn category_classify(base_url: &str) -> (res: Result<KuaishouLiveApiRequest, AppError>)
    ensures
        request_outcome(res) == category_classify_request(base_url@),
{
    let query = vec![
        pair("type", "4".to_owned()),
        pair("source", "2".to_owned()),
        pair("page", "1".to_owned()),
        pair("pageSize", "20".to_owned()),
    ];
    assert(query.deep_view() =~= seq![
        ("type"@, "4"@),
        ("source"@, "2"@),
        ("page"@, "1"@),
        ("pageSize"@, "20"@),
    ]);
    let request = create_live_api_request(
        base_url,
        "categoryClassify",
        "/live_api/category/classify",
        &query,
    )?;
    Ok(request.with_requires_sign(false))
}

/// The query of a `liveDetail` request: the principal id, and the trimmed
/// auth token when one with more than whitespace is given.
pub open spec fn live_detail_query(principal_id: Seq<char>, auth_token: Option<Seq<char>>) -> TextPairs {
    match auth_token {
        Some(token) => if trimmed(token).len() > 0 {
            seq![("principalId"@, principal_id), ("authToken"@, trimmed(token))]
        } else {
            seq![("principalId"@, principal_id)]
        },
        None => seq![("principalId"@, principal_id)],
    }
}

/// The outcome of `live_detail`.
pub open spec fn live_detail_request(base_url: Seq<char>, principal_id: Seq<char>) -> Result<LiveRequestView, Option<Seq<char>>> {
    unsigned(
            spec_live_request(
                base_url,
                "liveDetail"@,
                "/live_api/liveroom/livedetail"@,
                live_detail_query(principal_id, None),
            ),
        )
}

/// The `liveDetail` request without auth token: unsigned.
pub fn live_detail(base_url: &str, principal_id: &str) -> (res: Result<KuaishouLiveApiRequest, AppError>)
    ensures
        request_outcome(res) == live_detail_request(base_url@, principal_id@),
{
    live_detail_with_auth_token(base_url, principal_id, None)
}

/// The outcome of `live_detail_with_auth_token`.
pub open spec fn live_detail_with_auth_token_request(base_url: Seq<char>, principal_id: Seq<char>, auth_token: Option<Seq<char>>) -> Result<LiveRequestView, Option<Seq<char>>> {
    unsigned(
            spec_live_request(
                base_url,
                "liveDetail"@,
                "/live_api/liveroom/livedetail"@,
                live_detail_query(
                    principal_id,
                    auth_token,
                ),
            ),
        )
}

/// The `liveDetail` request: unsigned; the auth token, trimmed, joins the
/// query when it holds more than whitespace.
pub fn live_detail_with_auth_token(
    base_url: &str,
    principal_id: &str,
    auth_token: Option<&str>,
) -> (res: Result<KuaishouLiveApiRequest, AppError>)
    ensures
        request_outcome(res) == live_detail_with_auth_token_request(base_url@, principal_id@, option_str_view(auth_token)),
{
    let mut query = vec![pair("principalId", principal_id.to_owned())];
    let ghost expected = live_detail_query(
        principal_id@,
        option_str_view(auth_token),
    );
    match auth_token {
        Some(token) => {
            let trimmed_token = trim(token);
            if !trimmed_token.as_str().is_empty() {
                query.push(pair("authToken", trimmed_token));
            }
        },
        None => {},
    }
    assert(query.deep_view() =~= expected);
    let request = create_live_api_request(
        base_url,
        "liveDetail",
        "/live_api/liveroom/livedetail",
        &query,
    )?;
    Ok(request.with_requires_sign(false))
}

/// The outcome of `live_gift_list`.
pub open spec fn live_gift_list_request(base_url: Seq<char>, live_stream_id: Seq<char>) -> Result<LiveRequestView, Option<Seq<char>>> {
    unsigned(
            spec_live_request(
                base_url,
                "liveGiftList"@,
                "/live_api/emoji/gift-list"@,
                seq![("liveStreamId"@, live_stream_id)],
            ),
        )
}

/// The `liveGiftList` request: unsigned.
pub fn live_gift_list(base_url: &str, live_stream_id: &str) -> (res: Result<KuaishouLiveApiRequest, AppError>)
    ensures
        request_outcome(res) == live_gift_list_request(base_url@, live_stream_id@),
{
    let query = vec![pair("liveStreamId", live_stream_id.to_owned())];
    assert(query.deep_view() =~= seq![("liveStreamId"@, live_stream_id@)]);
    let request = create_live_api_request(
        base_url,
        "liveGiftList",
        "/live_api/emoji/gift-list",
        &query,
    )?;
    Ok(request.with_requires_sign(false))
}

/// The outcome of `live_websocket_info`.
pub open spec fn live_websocket_info_request(base_url: Seq<char>, live_stream_id: Seq<char>) -> Result<LiveRequestView, Option<Seq<char>>> {
    signed_at(
            spec_live_request(
                base_url,
                "liveWebsocketInfo"@,
                "/live_api/liveroom/websocketinfo"@,
                seq![("caver"@, "2"@), ("liveStreamId"@, live_stream_id)],
            ),
            "/rest/k/live/websocket/info"@,
        )
}

/// The `liveWebsocketInfo` request: signed against `/rest/k/live/websocket/info`.
pub fn live_websocket_info(base_url: &str, live_stream_id: &str) -> (res: Result<KuaishouLiveApiRequest, AppError>)
    ensures
        request_outcome(res) == live_websocket_info_request(base_url@, live_stream_id@),
{
    let query = vec![pair("caver", "2".to_owned()), pair("liveStreamId", live_stream_id.to_owned())];
    assert(query.deep_view() =~= seq![("caver"@, "2"@), ("liveStreamId"@, live_stream_id@)]);
    let request = create_live_api_request(
        base_url,
        "liveWebsocketInfo",
        "/live_api/liveroom/websocketinfo",
        &query,
    )?;
    Ok(request.with_sign_path("/rest/k/live/websocket/info"))
}

/// The game that `liveReco` favours: the given id when it parses as a
/// positive `u64`, else 1001.
pub open spec fn reco_game_id(game_id: Option<Seq<char>>) -> u64 {
    match game_id {
        Some(text) => match spec_parse_u64(text) {
            Some(id) => if id > 0 {
                id
            } else {
                1001
            },
            None => 1001,
        },
        None => 1001,
    }
}

/// Whether a value is the JSON number written `text`.
pub open spec fn is_number(v: KuaishouJsonValue, text: Seq<char>) -> bool {
    v matches KuaishouJsonValue::Number(n) && n@ == text
}

/// The body of `liveReco`:
/// `{"followingParam":{"queryFollowing":true,"followingWeight":50},
/// "gameFavour":[{"gameId":<game>,"totalStayLength":100}]}`.
pub open spec fn is_reco_body(body: Seq<(Seq<char>, KuaishouJsonValue)>, game: u64) -> bool {
    &&& body.len() == 2
    &&& body[0].0 == "followingParam"@
    &&& body[0].1 matches KuaishouJsonValue::Object(following) && {
        let m = following.members();
        &&& m.len() == 2
        &&& m[0].0 == "queryFollowing"@ && m[0].1 == KuaishouJsonValue::Bool(true)
        &&& m[1].0 == "followingWeight"@ && is_number(m[1].1, "50"@)
    }
    &&& body[1].0 == "gameFavour"@
    &&& body[1].1 matches KuaishouJsonValue::Array(items) && items@.len() == 1 && is_reco_entry(items@[0], game)
}

/// The favoured-game entry `{"gameId":<game>,"totalStayLength":100}`.
pub open spec fn is_reco_entry(v: KuaishouJsonValue, game: u64) -> bool {
    v matches KuaishouJsonValue::Object(entry) && {
        let m = entry.members();
        &&& m.len() == 2
        &&& m[0].0 == "gameId"@ && is_number(m[0].1, decimal(game as nat))
        &&& m[1].0 == "totalStayLength"@ && is_number(m[1].1, "100"@)
    }
}

/// Whether `res` is the outcome of `live_reco` on these inputs.
pub open spec fn live_reco_outcome(
    base_url: Seq<char>,
    game_id: Option<Seq<char>>,
    res: Result<KuaishouLiveApiRequest, AppError>,
) -> bool {
    match url_parse(base_url) {
        Err(error) => res matches Err(e) && e.config_message() == Some(
            "invalid Kuaishou live base URL `"@ + base_url + "`: "@ + error,
        ),
        Ok(parts) => res matches Ok(request) && request@.0 == "liveReco"@ && request@.1
            == live_api_url(parts.0, "/live_api/liveroom/reco"@, seq![]) && request@.2
            == KuaishouLiveApiMethod::Post && !request@.3 && request@.4 is None && is_reco_body(
            request@.5,
            reco_game_id(game_id),
        ),
    }
}

/// The `liveReco` request: unsigned `POST` whose body asks for followed
/// rooms and favours the given game (1001 when none parses).
pub fn live_reco(base_url: &str, game_id: Option<&str>) -> (res: Result<KuaishouLiveApiRequest, AppError>)
    ensures
        live_reco_outcome(base_url@, option_str_view(game_id), res),
{
    let game: u64 = match game_id {
        Some(text) => match parse_u64(text) {
            Some(id) => if id > 0 {
                id
            } else {
                1001
            },
            None => 1001,
        },
        None => 1001,
    };
    proof {
        reveal_strlit("queryFollowing");
        reveal_strlit("followingWeight");
        reveal_strlit("gameId");
        reveal_strlit("totalStayLength");
        reveal_strlit("followingParam");
        reveal_strlit("gameFavour");
    }
    let mut following_param = KuaishouJsonObject::new();
    let ghost m0 = following_param.members();
    following_param.insert("queryFollowing", KuaishouJsonValue::Bool(true));
    proof { lemma_members_with_new(m0, "queryFollowing"@, KuaishouJsonValue::Bool(true)); }
    let ghost m1 = following_param.members();
    let weight = KuaishouJsonValue::Number("50".to_owned());
    proof {
        assert(m1.len() == 1 && m1[0].0 == "queryFollowing"@);
        assert("queryFollowing"@.len() != "followingWeight"@.len());
        lemma_members_with_new(m1, "followingWeight"@, weight);
    }
    following_param.insert("followingWeight", weight);
    assert(following_param.members().len() == 2);
    let mut game_favour_entry = KuaishouJsonObject::new();
    let game_text = KuaishouJsonValue::Number(u64_to_decimal(game));
    proof { lemma_members_with_new(game_favour_entry.members(), "gameId"@, game_text); }
    game_favour_entry.insert("gameId", game_text);
    let stay = KuaishouJsonValue::Number("100".to_owned());
    proof {
        assert(game_favour_entry.members().len() == 1);
        assert(game_favour_entry.members()[0].0 == "gameId"@);
        assert("gameId"@.len() != "totalStayLength"@.len());
        lemma_members_with_new(game_favour_entry.members(), "totalStayLength"@, stay);
    }
    game_favour_entry.insert("totalStayLength", stay);
    assert(game_favour_entry.members().len() == 2);
    let mut body = KuaishouJsonObject::new();
    let following = KuaishouJsonValue::Object(following_param);
    proof { lemma_members_with_new(body.members(), "followingParam"@, following); }
    body.insert("followingParam", following);
    let favour = KuaishouJsonValue::Array(vec![KuaishouJsonValue::Object(game_favour_entry)]);
    proof {
        assert(body.members().len() == 1);
        assert(body.members()[0].0 == "followingParam"@);
        assert("followingParam"@.len() != "gameFavour"@.len());
        lemma_members_with_new(body.members(), "gameFavour"@, favour);
    }
    body.insert("gameFavour", favour);
    assert(is_reco_body(body.members(), game));
    let query: Vec<(String, String)> = Vec::new();
    assert(query.deep_view() =~= Seq::<(Seq<char>, Seq<char>)>::empty());
    let request = create_live_api_request(
        base_url,
        "liveReco",
        "/live_api/liveroom/reco",
        &query,
    )?;
    Ok(request.with_method(KuaishouLiveApiMethod::Post).with_requires_sign(false).with_body(body))
}

/// The outcome of `user_info_by_id`.
pub open spec fn user_info_by_id_request(base_url: Seq<char>, principal_id: Seq<char>) -> Result<LiveRequestView, Option<Seq<char>>> {
    signed_at(
            spec_live_request(
                base_url,
                "userInfoById"@,
                "/live_api/baseuser/userinfo/byid"@,
                seq![("caver"@, "2"@), ("principalId"@, principal_id)],
            ),
            "/rest/k/user/info"@,
        )
}

/// The `userInfoById` request: signed against `/rest/k/user/info`.
pub fn user_info_by_id(base_url: &str, principal_id: &str) -> (res: Result<KuaishouLiveApiRequest, AppError>)
    ensures
        request_outcome(res) == user_info_by_id_request(base_url@, principal_id@),
{
    let query = vec![pair("caver", "2".to_owned()), pair("principalId", principal_id.to_owned())];
    assert(query.deep_view() =~= seq![("caver"@, "2"@), ("principalId"@, principal_id@)]);
    let request = create_live_api_request(
        base_url,
        "userInfoById",
        "/live_api/baseuser/userinfo/byid",
        &query,
    )?;
    Ok(request.with_sign_path("/rest/k/user/info"))
}

/// The outcome of `user_sensitive_info`.
pub open spec fn user_sensitive_info_request(base_url: Seq<char>, principal_id: Seq<char>) -> Result<LiveRequestView, Option<Seq<char>>> {
    signed_at(
            spec_live_request(
                base_url,
                "userSensitiveInfo"@,
                "/live_api/baseuser/userinfo/sensitive"@,
                seq![("caver"@, "2"@), ("principalId"@, principal_id)],
            ),
            "/rest/k/user/info/sensitive"@,
        )
}

/// The `userSensitiveInfo` request: signed against `/rest/k/user/info/sensitive`.
pub fn user_sensitive_info(base_url: &str, principal_id: &str) -> (res: Result<KuaishouLiveApiRequest, AppError>)
    ensures
        request_outcome(res) == user_sensitive_info_request(base_url@, principal_id@),
{
    let query = vec![pair("caver", "2".to_owned()), pair("principalId", principal_id.to_owned())];
    assert(query.deep_view() =~= seq![("caver"@, "2"@), ("principalId"@, principal_id@)]);
    let request = create_live_api_request(
        base_url,
        "userSensitiveInfo",
        "/live_api/baseuser/userinfo/sensitive",
        &query,
    )?;
    Ok(request.with_sign_path("/rest/k/user/info/sensitive"))
}

/// The query of a public profile page: the page size (12 when not given),
/// the cursor (empty when not given) and the principal id.
pub open spec fn profile_public_query(
    principal_id: Seq<char>,
    count: Option<u32>,
    pcursor: Option<Seq<char>>,
) -> TextPairs {
    seq![
        ("caver"@, "2"@),
        ("count"@, decimal(
            match count {
                Some(c) => c as nat,
                None => KUAISHOU_PAGE_SIZE as nat,
            },
        )),
        ("hasMore"@, "true"@),
        ("pcursor"@, match pcursor {
            Some(p) => p,
            None => Seq::empty(),
        }),
        ("principalId"@, principal_id),
        ("privacy"@, "public"@),
    ]
}

/// The outcome of `profile_public`.
pub open spec fn profile_public_request(base_url: Seq<char>, principal_id: Seq<char>, count: Option<u32>, pcursor: Option<Seq<char>>) -> Result<LiveRequestView, Option<Seq<char>>> {
    signed_at(
            spec_live_request(
                base_url,
                "profilePublic"@,
                "/live_api/profile/public"@,
                profile_public_query(
                    principal_id,
                    count,
                    pcursor,
                ),
            ),
            "/rest/k/feed/profile"@,
        )
}

/// The `profilePublic` request: signed against `/rest/k/feed/profile`.
pub fn profile_public(
    base_url: &str,
    principal_id: &str,
    count: Option<u32>,
    pcursor: Option<&str>,
) -> (res: Result<KuaishouLiveApiRequest, AppError>)
    ensures
        request_outcome(res) == profile_public_request(base_url@, principal_id@, count, option_str_view(pcursor)),
{
    let page_size: u32 = match count {
        Some(c) => c,
        None => KUAISHOU_PAGE_SIZE,
    };
    let cursor = match pcursor {
        Some(p) => p.to_owned(),
        None => String::new(),
    };
    let query = vec![
        pair("caver", "2".to_owned()),
        pair("count", u64_to_decimal(page_size as u64)),
        pair("hasMore", "true".to_owned()),
        pair("pcursor", cursor),
        pair("principalId", principal_id.to_owned()),
        pair("privacy", "public".to_owned()),
    ];
    assert(query.deep_view() =~= profile_public_query(
        principal_id@,
        count,
        option_str_view(pcursor),
    ));
    let request = create_live_api_request(
        base_url,
        "profilePublic",
        "/live_api/profile/public",
        &query,
    )?;
    Ok(request.with_sign_path("/rest/k/feed/profile"))
}

/// The outcome of `user_work_list`.
pub open spec fn user_work_list_request(base_url: Seq<char>, principal_id: Seq<char>, count: Option<u32>, pcursor: Option<Seq<char>>) -> Result<LiveRequestView, Option<Seq<char>>> {
    signed_at(
            spec_live_request(
                base_url,
                "profilePublic"@,
                "/live_api/profile/public"@,
                profile_public_query(
                    principal_id,
                    count,
                    pcursor,
                ),
            ),
            "/rest/k/feed/profile"@,
        )
}

/// The public-profile page request of a user, for every input: on a base
/// URL that parses, a signed `GET` of type `profilePublic` to
/// `/live_api/profile/public`, signed at `/rest/k/feed/profile`, whose
/// query names the user, the page size asked for (12 by default) and the
/// page cursor given (empty for the first page); on one that does not, an
/// error.
pub open spec fn is_profile_page_request(
    r: Result<LiveRequestView, Option<Seq<char>>>,
    base_url: Seq<char>,
    principal_id: Seq<char>,
    count: Option<u32>,
    pcursor: Option<Seq<char>>,
) -> bool {
    match url_parse(base_url) {
        Err(_) => r is Err,
        Ok(parts) => r matches Ok(v) && {
            &&& v.0 == "profilePublic"@
            &&& v.2 == KuaishouLiveApiMethod::Get
            &&& v.3
            &&& v.4 == Some("/rest/k/feed/profile"@)
            &&& exists|q: TextPairs|
                #![trigger live_api_url(parts.0, "/live_api/profile/public"@, q)]
                v.1 == live_api_url(parts.0, "/live_api/profile/public"@, q)
                    && q.contains(("principalId"@, principal_id))
                    && q.contains(("pcursor"@, match pcursor {
                        Some(p) => p,
                        None => Seq::<char>::empty(),
                    })) && q.contains(("count"@, decimal(match count {
                        Some(c) => c as nat,
                        None => 12,
                    })))
        },
    }
}

/// The public profile request carries the user, the page size and the
/// page cursor it is given into its query.
pub proof fn lemma_profile_public_query(
    base_url: Seq<char>,
    principal_id: Seq<char>,
    count: Option<u32>,
    pcursor: Option<Seq<char>>,
)
    ensures
        is_profile_page_request(
            profile_public_request(base_url, principal_id, count, pcursor),
            base_url,
            principal_id,
            count,
            pcursor,
        ),
{
    let q = profile_public_query(principal_id, count, pcursor);
    assert(q[4] == ("principalId"@, principal_id));
    assert(q[3] == ("pcursor"@, match pcursor {
        Some(p) => p,
        None => Seq::<char>::empty(),
    }));
    assert(q[1].0 == "count"@);
    if let Ok(parts) = url_parse(base_url) {
        assert(live_api_url(parts.0, "/live_api/profile/public"@, q) == live_api_url(
            parts.0,
            "/live_api/profile/public"@,
            q,
        ));
    }
}

/// A work list page is the public profile page for the same user, page
/// size and cursor, so asking for the next page sends the cursor given.
pub proof fn lemma_user_work_list_pages(
    base_url: Seq<char>,
    principal_id: Seq<char>,
    count: Option<u32>,
    pcursor: Option<Seq<char>>,
)
    ensures
        user_work_list_request(base_url, principal_id, count, pcursor) == profile_public_request(
            base_url,
            principal_id,
            count,
            pcursor,
        ),
        is_profile_page_request(
            user_work_list_request(base_url, principal_id, count, pcursor),
            base_url,
            principal_id,
            count,
            pcursor,
        ),
{
    lemma_profile_public_query(base_url, principal_id, count, pcursor);
}

/// A request outcome that, on a base URL that parses, goes to `pathname`
/// with `(key, value)` in its query, and on one that does not, fails.
pub open spec fn query_names(
    r: Result<LiveRequestView, Option<Seq<char>>>,
    base_url: Seq<char>,
    pathname: Seq<char>,
    key: Seq<char>,
    value: Seq<char>,
) -> bool {
    match url_parse(base_url) {
        Err(_) => r is Err,
        Ok(parts) => r matches Ok(v) && exists|q: TextPairs|
            #![trigger live_api_url(parts.0, pathname, q)]
            v.1 == live_api_url(parts.0, pathname, q) && q.contains((key, value)),
    }
}

/// Every request about a user names that user in its query as
/// `principalId`, and every request about a live stream names the stream
/// as `liveStreamId`; the live detail request carries a given auth token,
/// trimmed, when it holds more than whitespace.
pub proof fn lemma_requests_name_their_subject(
    base_url: Seq<char>,
    principal_id: Seq<char>,
    live_stream_id: Seq<char>,
    auth_token: Option<Seq<char>>,
)
    ensures
        query_names(user_info_by_id_request(base_url, principal_id), base_url,
            "/live_api/baseuser/userinfo/byid"@, "principalId"@, principal_id),
        query_names(user_sensitive_info_request(base_url, principal_id), base_url,
            "/live_api/baseuser/userinfo/sensitive"@, "principalId"@, principal_id),
        query_names(live_detail_request(base_url, principal_id), base_url,
            "/live_api/liveroom/livedetail"@, "principalId"@, principal_id),
        query_names(live_detail_with_auth_token_request(base_url, principal_id, auth_token), base_url,
            "/live_api/liveroom/livedetail"@, "principalId"@, principal_id),
        (auth_token matches Some(t) && trimmed(t).len() > 0) ==> query_names(
            live_detail_with_auth_token_request(base_url, principal_id, auth_token),
            base_url,
            "/live_api/liveroom/livedetail"@,
            "authToken"@,
            trimmed(auth_token->0),
        ),
        query_names(playback_list_request(base_url, principal_id), base_url,
            "/live_api/playback/list"@, "principalId"@, principal_id),
        query_names(profile_private_request(base_url, principal_id), base_url,
            "/live_api/profile/private"@, "principalId"@, principal_id),
        query_names(profile_liked_request(base_url, principal_id), base_url,
            "/live_api/profile/liked"@, "principalId"@, principal_id),
        query_names(profile_interest_list_request(base_url, principal_id), base_url,
            "/live_api/profile/interestlist"@, "principalId"@, principal_id),
        query_names(live_gift_list_request(base_url, live_stream_id), base_url,
            "/live_api/emoji/gift-list"@, "liveStreamId"@, live_stream_id),
        query_names(live_websocket_info_request(base_url, live_stream_id), base_url,
            "/live_api/liveroom/websocketinfo"@, "liveStreamId"@, live_stream_id),
{
    if let Ok(parts) = url_parse(base_url) {
        let h = parts.0;
        let q1: TextPairs = seq![("caver"@, "2"@), ("principalId"@, principal_id)];
        assert(q1[1] == ("principalId"@, principal_id));
        assert(live_api_url(h, "/live_api/baseuser/userinfo/byid"@, q1) == live_api_url(h, "/live_api/baseuser/userinfo/byid"@, q1));
        assert(live_api_url(h, "/live_api/baseuser/userinfo/sensitive"@, q1) == live_api_url(h, "/live_api/baseuser/userinfo/sensitive"@, q1));
        let q2 = live_detail_query(principal_id, None);
        assert(q2[0] == ("principalId"@, principal_id));
        assert(live_api_url(h, "/live_api/liveroom/livedetail"@, q2) == live_api_url(h, "/live_api/liveroom/livedetail"@, q2));
        let q3 = live_detail_query(principal_id, auth_token);
        assert(q3[0] == ("principalId"@, principal_id));
        if auth_token matches Some(t) && trimmed(t).len() > 0 {
            assert(q3[1] == ("authToken"@, trimmed(auth_token->0)));
        }
        assert(live_api_url(h, "/live_api/liveroom/livedetail"@, q3) == live_api_url(h, "/live_api/liveroom/livedetail"@, q3));
        let q4: TextPairs = seq![
            ("principalId"@, principal_id),
            ("count"@, decimal(KUAISHOU_PAGE_SIZE as nat)),
            ("cursor"@, Seq::empty()),
            ("hasMore"@, "true"@),
        ];
        assert(q4[0] == ("principalId"@, principal_id));
        assert(live_api_url(h, "/live_api/playback/list"@, q4) == live_api_url(h, "/live_api/playback/list"@, q4));
        let q5 = profile_tab_query(principal_id, "private"@);
        assert(q5[4] == ("principalId"@, principal_id));
        assert(live_api_url(h, "/live_api/profile/private"@, q5) == live_api_url(h, "/live_api/profile/private"@, q5));
        let q6 = profile_tab_query(principal_id, "liked"@);
        assert(q6[4] == ("principalId"@, principal_id));
        assert(live_api_url(h, "/live_api/profile/liked"@, q6) == live_api_url(h, "/live_api/profile/liked"@, q6));
        let q7: TextPairs = seq![("caver"@, "2"@), ("limit"@, "4"@), ("principalId"@, principal_id)];
        assert(q7[2] == ("principalId"@, principal_id));
        assert(live_api_url(h, "/live_api/profile/interestlist"@, q7) == live_api_url(h, "/live_api/profile/interestlist"@, q7));
        let q8: TextPairs = seq![("liveStreamId"@, live_stream_id)];
        assert(q8[0] == ("liveStreamId"@, live_stream_id));
        assert(live_api_url(h, "/live_api/emoji/gift-list"@, q8) == live_api_url(h, "/live_api/emoji/gift-list"@, q8));
        let q9: TextPairs = seq![("caver"@, "2"@), ("liveStreamId"@, live_stream_id)];
        assert(q9[1] == ("liveStreamId"@, live_stream_id));
        assert(live_api_url(h, "/live_api/liveroom/websocketinfo"@, q9) == live_api_url(h, "/live_api/liveroom/websocketinfo"@, q9));
    }
}

/// The `userWorkList` request: the public profile page, signed against
/// `/rest/k/feed/profile`.
pub fn user_work_list(
    base_url: &str,
    principal_id: &str,
    count: Option<u32>,
    pcursor: Option<&str>,
) -> (res: Result<KuaishouLiveApiRequest, AppError>)
    ensures
        request_outcome(res) == user_work_list_request(base_url@, principal_id@, count, option_str_view(pcursor)),
{
    let request = profile_public(base_url, principal_id, count, pcursor)?;
    Ok(request.with_sign_path("/rest/k/feed/profile"))
}

/// The query of a private or liked profile page of the default size.
pub open spec fn profile_tab_query(principal_id: Seq<char>, privacy: Seq<char>) -> TextPairs {
    seq![
        ("caver"@, "2"@),
        ("count"@, decimal(KUAISHOU_PAGE_SIZE as nat)),
        ("hasMore"@, "true"@),
        ("pcursor"@, Seq::empty()),
        ("principalId"@, principal_id),
        ("privacy"@, privacy),
    ]
}

/// The outcome of `profile_private`.
pub open spec fn profile_private_request(base_url: Seq<char>, principal_id: Seq<char>) -> Result<LiveRequestView, Option<Seq<char>>> {
    unsigned(
            spec_live_request(
                base_url,
                "profilePrivate"@,
                "/live_api/profile/private"@,
                profile_tab_query(principal_id, "private"@),
            ),
        )
}

/// The `profilePrivate` request: unsigned.
pub fn profile_private(base_url: &str, principal_id: &str) -> (res: Result<KuaishouLiveApiRequest, AppError>)
    ensures
        request_outcome(res) == profile_private_request(base_url@, principal_id@),
{
    let query = vec![
        pair("caver", "2".to_owned()),
        pair("count", u64_to_decimal(KUAISHOU_PAGE_SIZE as u64)),
        pair("hasMore", "true".to_owned()),
        pair("pcursor", String::new()),
        pair("principalId", principal_id.to_owned()),
        pair("privacy", "private".to_owned()),
    ];
    assert(query.deep_view() =~= profile_tab_query(principal_id@, "private"@));
    let request = create_live_api_request(
        base_url,
        "profilePrivate",
        "/live_api/profile/private",
        &query,
    )?;
    Ok(request.with_requires_sign(false))
}

/// The outcome of `profile_liked`.
pub open spec fn profile_liked_request(base_url: Seq<char>, principal_id: Seq<char>) -> Result<LiveRequestView, Option<Seq<char>>> {
    unsigned(
            spec_live_request(
                base_url,
                "profileLiked"@,
                "/live_api/profile/liked"@,
                profile_tab_query(principal_id, "liked"@),
            ),
        )
}

/// The `profileLiked` request: unsigned.
pub fn profile_liked(base_url: &str, principal_id: &str) -> (res: Result<KuaishouLiveApiRequest, AppError>)
    ensures
        request_outcome(res) == profile_liked_request(base_url@, principal_id@),
{
    let query = vec![
        pair("caver", "2".to_owned()),
        pair("count", u64_to_decimal(KUAISHOU_PAGE_SIZE as u64)),
        pair("hasMore", "true".to_owned()),
        pair("pcursor", String::new()),
        pair("principalId", principal_id.to_owned()),
        pair("privacy", "liked".to_owned()),
    ];
    assert(query.deep_view() =~= profile_tab_query(principal_id@, "liked"@));
    let request = create_live_api_request(
        base_url,
        "profileLiked",
        "/live_api/profile/liked",
        &query,
    )?;
    Ok(request.with_requires_sign(false))
}

/// The outcome of `profile_interest_list`.
pub open spec fn profile_interest_list_request(base_url: Seq<char>, principal_id: Seq<char>) -> Result<LiveRequestView, Option<Seq<char>>> {
    spec_live_request(
            base_url,
            "profileInterestList"@,
            "/live_api/profile/interestlist"@,
            seq![("caver"@, "2"@), ("limit"@, "4"@), ("principalId"@, principal_id)],
        )
}

/// The `profileInterestList` request: signed, four entries.
pub fn profile_interest_list(base_url: &str, principal_id: &str) -> (res: Result<KuaishouLiveApiRequest, AppError>)
    ensures
        request_outcome(res) == profile_interest_list_request(base_url@, principal_id@),
{
    let query = vec![
        pair("caver", "2".to_owned()),
        pair("limit", "4".to_owned()),
        pair("principalId", principal_id.to_owned()),
    ];
    assert(query.deep_view() =~= seq![
        ("caver"@, "2"@),
        ("limit"@, "4"@),
        ("principalId"@, principal_id@),
    ]);
    create_live_api_request(base_url, "profileInterestList", "/live_api/profile/interestlist", &query)
}

} // verus!
