//! Putting a computed `__NS_hxfalcon` signature onto a `live_api` URL.

use vstd::prelude::*;

use crate::error::AppError;
use crate::kuaishou::json::KuaishouJsonObject;
use crate::kuaishou::payload::{
    build_kuaishou_hxfalcon_payload, build_kuaishou_hxfalcon_sign_input, spec_hxfalcon_payload,
    spec_sign_input,
};
use crate::kuaishou::request::KuaishouLiveApiRequest;
use crate::pairs::{last_wins, lemma_ascending_pairs_determined, names_ascending, TextPairs};
use crate::text::option_str_view;
use crate::twitter::transport::opt_text;
use crate::text::string_eq_str;
use crate::weburl::{clear_url_query, extend_url_query, parse_url, url_extend_query, url_parse, url_without_query};

verus! {

/// The pairs without those named `key`.
pub open spec fn without_named(pairs: TextPairs, key: Seq<char>) -> TextPairs
    decreases pairs.len(),
{
    if pairs.len() == 0 {
        pairs
    } else if pairs[0].0 == key {
        without_named(pairs.drop_first(), key)
    } else {
        seq![pairs[0]] + without_named(pairs.drop_first(), key)
    }
}

/// The pairs with `key` set to `value`: the first pair named `key` takes
/// the value and later ones are dropped; without one, the pair is appended.
pub open spec fn with_param(pairs: TextPairs, key: Seq<char>, value: Seq<char>) -> TextPairs
    decreases pairs.len(),
{
    if pairs.len() == 0 {
        seq![(key, value)]
    } else if pairs[0].0 == key {
        seq![(key, value)] + without_named(pairs.drop_first(), key)
    } else {
        seq![pairs[0]] + with_param(pairs.drop_first(), key, value)
    }
}

proof fn lemma_without_named(pairs: TextPairs, key: Seq<char>)
    ensures
        forall|i: int| 0 <= i < without_named(pairs, key).len() ==> (#[trigger] without_named(pairs, key)[i]).0 != key,
        without_named(without_named(pairs, key), key) == without_named(pairs, key),
    decreases pairs.len(),
{
    if pairs.len() > 0 {
        lemma_without_named(pairs.drop_first(), key);
        let rest = without_named(pairs.drop_first(), key);
        if pairs[0].0 != key {
            let w = seq![pairs[0]] + rest;
            assert(w[0] == pairs[0]);
            assert(w.drop_first() =~= rest);
        }
    }
}

/// After setting `key`, exactly one pair has that name and it holds the
/// value; the pairs with other names are those of before, in order.
pub proof fn lemma_with_param_read_back(pairs: TextPairs, key: Seq<char>, value: Seq<char>)
    ensures
        with_param(pairs, key, value).contains((key, value)),
        forall|i: int, j: int|
            0 <= i < with_param(pairs, key, value).len() && 0 <= j < with_param(pairs, key, value).len()
                && (#[trigger] with_param(pairs, key, value)[i]).0 == key && (
            #[trigger] with_param(pairs, key, value)[j]).0 == key ==> i == j,
        without_named(with_param(pairs, key, value), key) == without_named(pairs, key),
    decreases pairs.len(),
{
    let out = with_param(pairs, key, value);
    if pairs.len() == 0 {
        assert(out[0] == (key, value));
        assert(without_named(out, key) == without_named(out.drop_first(), key));
        assert(out.drop_first() =~= Seq::<(Seq<char>, Seq<char>)>::empty());
    } else if pairs[0].0 == key {
        let rest = without_named(pairs.drop_first(), key);
        lemma_without_named(pairs.drop_first(), key);
        assert(out[0] == (key, value));
        assert(out.drop_first() =~= rest);
        assert forall|i: int, j: int|
            0 <= i < out.len() && 0 <= j < out.len() && (#[trigger] out[i]).0 == key && (
            #[trigger] out[j]).0 == key implies i == j by {
            if i > 0 {
                assert(out[i] == rest[i - 1]);
            }
            if j > 0 {
                assert(out[j] == rest[j - 1]);
            }
        }
    } else {
        lemma_with_param_read_back(pairs.drop_first(), key, value);
        let inner = with_param(pairs.drop_first(), key, value);
        assert(out[0] == pairs[0]);
        assert(out.drop_first() =~= inner);
        assert(inner.contains((key, value)));
        let t = choose|t: int| 0 <= t < inner.len() && inner[t] == (key, value);
        assert(out[t + 1] == (key, value));
        assert forall|i: int, j: int|
            0 <= i < out.len() && 0 <= j < out.len() && (#[trigger] out[i]).0 == key && (
            #[trigger] out[j]).0 == key implies i == j by {
            if i > 0 && j > 0 {
                assert(out[i] == inner[i - 1]);
                assert(out[j] == inner[j - 1]);
            }
        }
    }
}

/// The query pairs with `key` set to `value` (see `with_param`).
pub fn set_param_pairs(pairs: &Vec<(String, String)>, key: &str, value: &str) -> (out: Vec<(String, String)>)
    ensures
        out.deep_view() == with_param(pairs.deep_view(), key@, value@),
{
    let ghost all = pairs.deep_view();
    let mut out: Vec<(String, String)> = Vec::new();
    let mut updated = false;
    assert(all.skip(0) =~= all);
    assert(out.deep_view() =~= Seq::<(Seq<char>, Seq<char>)>::empty());
    for i in 0..pairs.len()
        invariant
            all == pairs.deep_view(),
            with_param(all, key@, value@) == out.deep_view() + (if updated {
                without_named(all.skip(i as int), key@)
            } else {
                with_param(all.skip(i as int), key@, value@)
            }),
    {
        let ghost rest = all.skip(i as int);
        assert(rest[0] == all[i as int]);
        assert(rest.drop_first() =~= all.skip(i + 1));
        assert(all[i as int] == (pairs@[i as int].0@, pairs@[i as int].1@));
        let ghost before = out.deep_view();
        if string_eq_str(&pairs[i].0, key) {
            if !updated {
                out.push((pairs[i].0.clone(), value.to_owned()));
                updated = true;
                assert(out.deep_view() =~= before.push((key@, value@)));
                assert(before + with_param(rest, key@, value@) =~= out.deep_view() + without_named(
                    all.skip(i + 1),
                    key@,
                ));
            }
        } else {
            out.push((pairs[i].0.clone(), pairs[i].1.clone()));
            assert(out.deep_view() =~= before.push(all[i as int]));
            if updated {
                assert(before + without_named(rest, key@) =~= out.deep_view() + without_named(
                    all.skip(i + 1),
                    key@,
                ));
            } else {
                assert(before + with_param(rest, key@, value@) =~= out.deep_view() + with_param(
                    all.skip(i + 1),
                    key@,
                    value@,
                ));
            }
        }
    }
    let ghost end = all.skip(pairs@.len() as int);
    assert(end =~= Seq::<(Seq<char>, Seq<char>)>::empty());
    if !updated {
        out.push((key.to_owned(), value.to_owned()));
        assert(with_param(end, key@, value@) =~= seq![(key@, value@)]);
    }
    assert(out.deep_view() =~= with_param(all, key@, value@));
    out
}

/// The URL after setting query parameter `key` to `value`: the query is
/// rebuilt from the pairs with `key` set; a text that does not parse stays.
pub open spec fn url_with_param(url: Seq<char>, key: Seq<char>, value: Seq<char>) -> Seq<char> {
    match url_parse(url) {
        Ok(parts) => url_extend_query(url_without_query(parts.0), with_param(parts.2, key, value)),
        Err(_) => url,
    }
}

/// Sets query parameter `key` of a URL to `value`.
pub fn set_query_param(url: &str, key: &str, value: &str) -> (out: String)
    ensures
        out@ == url_with_param(url@, key@, value@),
{
    match parse_url(url) {
        Ok(parsed) => {
            let pairs = set_param_pairs(&parsed.query_pairs, key, value);
            let cleared = clear_url_query(parsed.href.as_str());
            extend_url_query(cleared.as_str(), &pairs)
        },
        Err(_) => url.to_owned(),
    }
}

/// The signed URL: `__NS_hxfalcon` set to the signature, then `caver` set
/// to the version; or the message of the error when the URL does not parse.
pub open spec fn spec_signed_live_api_url(
    url: Seq<char>,
    cat_version: Seq<char>,
    sign_result: Seq<char>,
) -> Result<Seq<char>, Seq<char>> {
    match url_parse(url) {
        Err(error) => Err("Invalid Kuaishou live_api URL "@ + url + ": "@ + error),
        Ok(parts) => Ok(
            url_with_param(
                url_with_param(parts.0, "__NS_hxfalcon"@, sign_result),
                "caver"@,
                cat_version,
            ),
        ),
    }
}

/// Put a signature on a `live_api` URL: the signed URL, and the `kww`
/// header when the `kww` value is not empty.
pub fn build_signed_live_api_url(
    url: &str,
    kww: &str,
    cat_version: &str,
    sign_result: &str,
) -> (res: Result<(String, Vec<(String, String)>), AppError>)
    ensures
        match spec_signed_live_api_url(url@, cat_version@, sign_result@) {
            Ok(signed) => res matches Ok((u, headers)) && u@ == signed && headers.deep_view() == (
            if kww@.len() == 0 {
                seq![]
            } else {
                seq![("kww"@, kww@)]
            }),
            Err(message) => res matches Err(e) && e.config_message() == Some(message),
        },
{
    let parsed = match parse_url(url) {
        Ok(parsed) => parsed,
        Err(error) => {
            let mut message = "Invalid Kuaishou live_api URL ".to_owned();
            message.append(url);
            message.append(": ");
            message.append(error.as_str());
            return Err(AppError::InvalidRequestConfig(message));
        },
    };
    let signed = set_query_param(parsed.href.as_str(), "__NS_hxfalcon", sign_result);
    let signed = set_query_param(signed.as_str(), "caver", cat_version);
    let mut headers: Vec<(String, String)> = Vec::new();
    if !kww.is_empty() {
        headers.push(("kww".to_owned(), kww.to_owned()));
    }
    assert(headers.deep_view() =~= (if kww@.len() == 0 {
        seq![]
    } else {
        seq![("kww"@, kww@)]
    }));
    Ok((signed, headers))
}

/// A signed `live_api` URL with the material of its signature.
#[derive(Debug, PartialEq)]
pub struct KuaishouLiveApiSignature {
    /// The signed URL.
    pub url: String,
    /// The headers the signed request carries (`kww` when there is one).
    pub headers: Vec<(String, String)>,
    /// The `__NS_hxfalcon` signature.
    pub sign_result: String,
    /// The text the signature was computed over.
    pub sign_input: String,
    /// The `caver` version the signature was made for.
    pub cat_version: String,
}

/// Sign a `live_api` URL with a signature computed over the payload that
/// `build_kuaishou_hxfalcon_payload` makes of it: the signed URL (see
/// `build_signed_live_api_url`), the `kww` header when `kww` is not empty,
/// the signature and version given, and the sign input of that payload.
/// Fails as building the payload fails.
pub fn sign_live_api_url(
    url: &str,
    kww: &str,
    sign_path: Option<&str>,
    sign_result: &str,
    cat_version: &str,
) -> (res: Result<KuaishouLiveApiSignature, AppError>)
    ensures
        match spec_hxfalcon_payload(url@, option_str_view(sign_path)) {
            Err(message) => res matches Err(e) && e.config_message() == Some(message),
            Ok((path, query)) => match spec_signed_live_api_url(url@, cat_version@, sign_result@) {
                Err(message) => res matches Err(e) && e.config_message() == Some(message),
                Ok(signed) => res matches Ok(sig) && {
                    &&& sig.url@ == signed
                    &&& sig.headers.deep_view() == (if kww@.len() == 0 {
                        seq![]
                    } else {
                        seq![("kww"@, kww@)]
                    })
                    &&& sig.sign_result@ == sign_result@
                    &&& sig.cat_version@ == cat_version@
                    &&& exists|q: TextPairs, body: KuaishouJsonObject|
                        names_ascending(q) && last_wins(q) == query && body.members().len() == 0
                            && sig.sign_input@ == spec_sign_input(path, q, seq![], body)
                },
            },
        },
{
    let payload = match build_kuaishou_hxfalcon_payload(url, sign_path) {
        Ok(p) => p,
        Err(e) => return Err(e),
    };
    let sign_input = build_kuaishou_hxfalcon_sign_input(&payload);
    proof {
        assert(payload.form.deep_view() =~= seq![]);
    }
    let (signed, headers) = match build_signed_live_api_url(url, kww, cat_version, sign_result) {
        Ok(pair) => pair,
        Err(e) => return Err(e),
    };
    Ok(KuaishouLiveApiSignature {
        url: signed,
        headers,
        sign_result: sign_result.to_owned(),
        sign_input,
        cat_version: cat_version.to_owned(),
    })
}

/// Sign a `live_api` request (see `sign_live_api_url`), over its URL and
/// sign path.
pub fn sign_live_api_request(
    request: &KuaishouLiveApiRequest,
    kww: &str,
    sign_result: &str,
    cat_version: &str,
) -> (res: Result<KuaishouLiveApiSignature, AppError>)
    ensures
        match spec_hxfalcon_payload(request.url@, opt_text(request.sign_path)) {
            Err(message) => res matches Err(e) && e.config_message() == Some(message),
            Ok((path, query)) => match spec_signed_live_api_url(request.url@, cat_version@, sign_result@) {
                Err(message) => res matches Err(e) && e.config_message() == Some(message),
                Ok(signed) => res matches Ok(sig) && {
                    &&& sig.url@ == signed
                    &&& sig.headers.deep_view() == (if kww@.len() == 0 {
                        seq![]
                    } else {
                        seq![("kww"@, kww@)]
                    })
                    &&& sig.sign_result@ == sign_result@
                    &&& sig.cat_version@ == cat_version@
                    &&& exists|q: TextPairs, body: KuaishouJsonObject|
                        names_ascending(q) && last_wins(q) == query && body.members().len() == 0
                            && sig.sign_input@ == spec_sign_input(path, q, seq![], body)
                },
            },
        },
{
    match &request.sign_path {
        Some(p) => sign_live_api_url(request.url.as_str(), kww, Some(p.as_str()), sign_result, cat_version),
        None => sign_live_api_url(request.url.as_str(), kww, None, sign_result, cat_version),
    }
}

/// The sign input that `sign_live_api_url` and `sign_live_api_request`
/// promise is a single text: any two ascending query lists with the same
/// map, each with an empty body, give the same sign input.
pub proof fn lemma_live_sign_input_determined(
    path: Seq<char>,
    q1: TextPairs,
    q2: TextPairs,
    body1: KuaishouJsonObject,
    body2: KuaishouJsonObject,
)
    requires
        names_ascending(q1),
        names_ascending(q2),
        last_wins(q1) == last_wins(q2),
        body1.members().len() == 0,
        body2.members().len() == 0,
    ensures
        spec_sign_input(path, q1, seq![], body1) == spec_sign_input(path, q2, seq![], body2),
{
    lemma_ascending_pairs_determined(q1, q2);
}

} // verus!
