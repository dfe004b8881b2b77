//! What a Kuaishou live-api exchange decides apart from the network: the
//! headers a request is sent with, and which answers count as failures.

use vstd::prelude::*;

use crate::error::{upstream_error, AppError};
use crate::kuaishou::fetcher::KuaishouFetcher;
use crate::kuaishou::json::KuaishouJsonValue;
use crate::kuaishou::request::KuaishouLiveApiMethod;
use crate::kuaishou::value::{get_in, i64_value, member, number_i64};
use crate::pairs::{
    ascending_pairs_set, copy_pairs, last_wins, text_pair, lemma_last_wins_domain, names_ascending,
    pairs_by_name, pairs_have_name, TextPairs,
};

verus! {

/// The browser headers every live-api request carries, the referer
/// pointing at `https://live.kuaishou.com/{referer_path}`.
pub open spec fn live_browser_headers(referer_path: Seq<char>) -> TextPairs {
    seq![
        ("Accept"@, "application/json, text/plain, */*"@),
        ("Accept-Encoding"@, "gzip, deflate, br, zstd"@),
        ("Accept-Language"@, "zh-CN,zh;q=0.9,en;q=0.8,en-GB;q=0.7,en-US;q=0.6"@),
        ("Cache-Control"@, "no-cache"@),
        ("Pragma"@, "no-cache"@),
        ("Priority"@, "u=0, i"@),
        ("Referer"@, "https://live.kuaishou.com/"@ + referer_path),
        (
            "Sec-Ch-Ua"@,
            "\"Chromium\";v=\"146\", \"Not-A.Brand\";v=\"24\", \"Google Chrome\";v=\"146\""@,
        ),
        ("Sec-Ch-Ua-Mobile"@, "?0"@),
        ("Sec-Ch-Ua-Platform"@, "\"Windows\""@),
        ("Sec-Fetch-Dest"@, "empty"@),
        ("Sec-Fetch-Mode"@, "cors"@),
        ("Sec-Fetch-Site"@, "same-origin"@),
        (
            "User-Agent"@,
            "Mozilla/5.0 (Windows NT 10.0; Win64; x64) AppleWebKit/537.36 (KHTML, like Gecko) Chrome/146.0.0.0 Safari/537.36"@,
        ),
    ]
}

/// The pairs a live-api request's headers are made of, in the order they
/// are set: the profile's headers, the browser headers, the JSON content
/// type for a `POST`, and the signature headers.
pub open spec fn live_header_pairs(
    profile: TextPairs,
    method: KuaishouLiveApiMethod,
    referer_path: Seq<char>,
    signed: TextPairs,
) -> TextPairs {
    let content = match method {
        KuaishouLiveApiMethod::Post => seq![("Content-Type"@, "application/json"@)],
        KuaishouLiveApiMethod::Get => Seq::empty(),
    };
    profile + live_browser_headers(referer_path) + content + signed
}

/// The headers of a live-api request as a map: each later pair replaces an
/// earlier one of the same name, and a non-empty `kww` token is added when
/// no header is named `kww` yet.
pub open spec fn live_api_header_map(
    profile: TextPairs,
    method: KuaishouLiveApiMethod,
    referer_path: Seq<char>,
    signed: TextPairs,
    kww: Seq<char>,
) -> Map<Seq<char>, Seq<char>> {
    let set = last_wins(live_header_pairs(profile, method, referer_path, signed));
    if set.contains_key("kww"@) || kww.len() == 0 {
        set
    } else {
        set.insert("kww"@, kww)
    }
}

fn push_browser_headers(all: &mut Vec<(String, String)>, referer_path: &str)
    ensures
        final(all).deep_view() == old(all).deep_view() + live_browser_headers(referer_path@),
{
    let ghost before = all.deep_view();
    let mut referer = "https://live.kuaishou.com/".to_owned();
    referer.append(referer_path);
    let mut fixed = vec![
        text_pair("Accept", "application/json, text/plain, */*"),
        text_pair("Accept-Encoding", "gzip, deflate, br, zstd"),
        text_pair("Accept-Language", "zh-CN,zh;q=0.9,en;q=0.8,en-GB;q=0.7,en-US;q=0.6"),
        text_pair("Cache-Control", "no-cache"),
        text_pair("Pragma", "no-cache"),
        text_pair("Priority", "u=0, i"),
        ("Referer".to_owned(), referer),
        text_pair(
            "Sec-Ch-Ua",
            "\"Chromium\";v=\"146\", \"Not-A.Brand\";v=\"24\", \"Google Chrome\";v=\"146\"",
        ),
        text_pair("Sec-Ch-Ua-Mobile", "?0"),
        text_pair("Sec-Ch-Ua-Platform", "\"Windows\""),
        text_pair("Sec-Fetch-Dest", "empty"),
        text_pair("Sec-Fetch-Mode", "cors"),
        text_pair("Sec-Fetch-Site", "same-origin"),
        text_pair(
            "User-Agent",
            "Mozilla/5.0 (Windows NT 10.0; Win64; x64) AppleWebKit/537.36 (KHTML, like Gecko) Chrome/146.0.0.0 Safari/537.36",
        ),
    ];
    assert(fixed.deep_view() =~= live_browser_headers(referer_path@));
    all.append(&mut fixed);
    assert(all.deep_view() =~= before + live_browser_headers(referer_path@));
}

impl KuaishouFetcher {
    /// The headers a live-api request is sent with, each name once in
    /// ascending order (see `live_api_header_map`). `kww` is the device token
    /// to add when the other headers carry none; empty for no token.
    pub fn live_api_headers(
        &self,
        method: KuaishouLiveApiMethod,
        referer_path: &str,
        signed_headers: &Vec<(String, String)>,
        kww: &str,
    ) -> (headers: Vec<(String, String)>)
        ensures
            names_ascending(headers.deep_view()),
            last_wins(headers.deep_view()) == live_api_header_map(
                self.profile().headers.deep_view(),
                method,
                referer_path@,
                signed_headers.deep_view(),
                kww@,
            ),
    {
        let profile_headers = &self.request_profile().headers;
        let mut all = copy_pairs(profile_headers);
        push_browser_headers(&mut all, referer_path);
        match method {
            KuaishouLiveApiMethod::Post => all.push(text_pair("Content-Type", "application/json")),
            KuaishouLiveApiMethod::Get => {},
        }
        let mut signed = copy_pairs(signed_headers);
        let ghost before_signed = all.deep_view();
        all.append(&mut signed);
        assert(all.deep_view() =~= live_header_pairs(
            profile_headers.deep_view(),
            method,
            referer_path@,
            signed_headers.deep_view(),
        )) by {
            assert(before_signed =~= profile_headers.deep_view() + live_browser_headers(referer_path@)
                + match method {
                KuaishouLiveApiMethod::Post => seq![("Content-Type"@, "application/json"@)],
                KuaishouLiveApiMethod::Get => Seq::<(Seq<char>, Seq<char>)>::empty(),
            });
        }
        let mut headers = pairs_by_name(&all);
        let present = pairs_have_name(&headers, "kww");
        proof {
            lemma_last_wins_domain(headers.deep_view(), "kww"@);
        }
        if !present && kww.unicode_len() > 0 {
            ascending_pairs_set(&mut headers, "kww".to_owned(), kww.to_owned());
        }
        headers
    }
}

/// Whether a live-api answer reports `result` 2 as a JSON integer.
pub open spec fn reports_result_two(value: KuaishouJsonValue) -> bool {
    match get_in(Some(value), "result"@) {
        Some(KuaishouJsonValue::Number(n)) => number_i64(n@) == Some(2i64),
        _ => false,
    }
}

/// Checks a decoded live-api answer: unless `allow_result_two`, an answer
/// reporting `result` 2 fails with ``request to {url} returned result=2``.
pub fn check_live_api_result(url: &str, value: &KuaishouJsonValue, allow_result_two: bool) -> (res:
    Result<(), AppError>)
    ensures
        if !allow_result_two && reports_result_two(*value) {
            res matches Err(e) && e.upstream_message() == Some(
                "request to "@ + url@ + " returned result=2"@,
            )
        } else {
            res is Ok
        },
{
    if allow_result_two {
        return Ok(());
    }
    let result = member(Some(value), "result");
    let two = match result {
        Some(KuaishouJsonValue::Number(_)) => {
            let n = i64_value(result);
            match n {
                Some(v) => v == 2,
                None => false,
            }
        },
        _ => false,
    };
    if two {
        let mut message = "request to ".to_owned();
        message.append(url);
        message.append(" returned result=2");
        Err(upstream_error(message))
    } else {
        Ok(())
    }
}

} // verus!
