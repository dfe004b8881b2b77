//! The normalized request description that Kuaishou signs, and the sign
//! input text built from it.

use vstd::prelude::*;

use crate::error::AppError;
use crate::kuaishou::json::{json_object_text, serialize_kuaishou_json_object, KuaishouJsonObject};
use crate::text::{
    chars_contain, concat_texts, contains_text, lemma_sorted_texts, push_char, sort_texts,
    sorted_texts, str_chars, texts_of,
};
use crate::text::option_str_view;
use crate::pairs::{has_name, last_wins, names_ascending, pairs_by_name, pairs_have_name};
use crate::weburl::{parse_url, url_parse};

verus! {

/// A request reduced to what its signature covers.
#[derive(Debug, PartialEq)]
pub struct KuaishouHxfalconPayload {
    /// Path of the request (a full URL is reduced to its path).
    pub url: String,
    /// Query parameters, each name once.
    pub query: Vec<(String, String)>,
    /// Form parameters, each name once; they replace query parameters of
    /// the same name.
    pub form: Vec<(String, String)>,
    /// JSON body.
    pub request_body: KuaishouJsonObject,
}

impl KuaishouHxfalconPayload {
    /// Query and form parameters each hold every name once, in ascending
    /// order, as the maps they stand for.
    pub open spec fn wf(&self) -> bool {
        names_ascending(self.query.deep_view()) && names_ascending(self.form.deep_view())
    }
}

/// The marker that keeps a parameter out of the signature.
pub open spec fn skip_keyword() -> Seq<char> {
    seq!['_', '_', 'N', 'S']
}

/// `name=value`.
pub open spec fn param_text(name: Seq<char>, value: Seq<char>) -> Seq<char> {
    name + seq!['='] + value
}

/// `name=value` for the pairs whose name holds no skip marker and that
/// `covered` does not name, in order.
pub open spec fn signed_param_texts(
    pairs: Seq<(Seq<char>, Seq<char>)>,
    covered: Seq<(Seq<char>, Seq<char>)>,
) -> Seq<Seq<char>>
    decreases pairs.len(),
{
    if pairs.len() == 0 {
        Seq::empty()
    } else {
        let rest = signed_param_texts(pairs.drop_last(), covered);
        let (name, value) = pairs.last();
        if contains_text(name, skip_keyword()) || has_name(covered, name) {
            rest
        } else {
            rest.push(param_text(name, value))
        }
    }
}

/// The texts of the signed parameters: query parameters not replaced by a
/// form parameter, then form parameters.
pub open spec fn payload_param_texts(
    query: Seq<(Seq<char>, Seq<char>)>,
    form: Seq<(Seq<char>, Seq<char>)>,
) -> Seq<Seq<char>> {
    signed_param_texts(query, form) + signed_param_texts(form, Seq::empty())
}

proof fn lemma_signed_params_extra_cover(
    pairs: Seq<(Seq<char>, Seq<char>)>,
    covered: Seq<(Seq<char>, Seq<char>)>,
    name: Seq<char>,
    value: Seq<char>,
)
    requires
        contains_text(name, skip_keyword()),
    ensures
        signed_param_texts(pairs, covered.push((name, value))) == signed_param_texts(pairs, covered),
    decreases pairs.len(),
{
    if pairs.len() > 0 {
        lemma_signed_params_extra_cover(pairs.drop_last(), covered, name, value);
        let n = pairs.last().0;
        let extended = covered.push((name, value));
        if has_name(extended, n) && !has_name(covered, n) {
            let i = choose|i: int| 0 <= i < extended.len() && extended[i].0 == n;
            if i < covered.len() {
                assert(covered[i].0 == n);
            }
        }
        if has_name(covered, n) {
            let i = choose|i: int| 0 <= i < covered.len() && covered[i].0 == n;
            assert(extended[i].0 == n);
        }
    }
}

/// A parameter whose name holds `__NS` leaves the sign input unchanged,
/// whether it is added to the query or to the form.
pub proof fn lemma_sign_input_skips_marked(
    url: Seq<char>,
    query: Seq<(Seq<char>, Seq<char>)>,
    form: Seq<(Seq<char>, Seq<char>)>,
    body: KuaishouJsonObject,
    name: Seq<char>,
    value: Seq<char>,
)
    requires
        contains_text(name, skip_keyword()),
    ensures
        spec_sign_input(url, query.push((name, value)), form, body) == spec_sign_input(
            url,
            query,
            form,
            body,
        ),
        spec_sign_input(url, query, form.push((name, value)), body) == spec_sign_input(
            url,
            query,
            form,
            body,
        ),
{
    assert(query.push((name, value)).drop_last() =~= query);
    assert(form.push((name, value)).drop_last() =~= form);
    assert(payload_param_texts(query.push((name, value)), form) == payload_param_texts(query, form));
    lemma_signed_params_extra_cover(query, form, name, value);
    assert(payload_param_texts(query, form.push((name, value))) == payload_param_texts(query, form));
}

/// The text before the first `?` (all of it when there is none).
pub open spec fn before_question(s: Seq<char>) -> Seq<char>
    decreases s.len(),
{
    if s.len() == 0 {
        s
    } else if before_question(s.drop_last()).len() < s.len() - 1 {
        before_question(s.drop_last())
    } else if s.last() == '?' {
        s.drop_last()
    } else {
        s
    }
}

/// The path of a URL, or of a bare path with its query cut off.
pub open spec fn normalized_pathname(url_or_path: Seq<char>) -> Seq<char> {
    match url_parse(url_or_path) {
        Ok(parts) => parts.1,
        Err(_) => before_question(url_or_path),
    }
}

/// The sign input of a payload: path, then the sorted `name=value` texts,
/// then the JSON body when it has members.
pub open spec fn spec_sign_input(
    url: Seq<char>,
    query: Seq<(Seq<char>, Seq<char>)>,
    form: Seq<(Seq<char>, Seq<char>)>,
    body: KuaishouJsonObject,
) -> Seq<char> {
    normalized_pathname(url) + concat_texts(sorted_texts(payload_param_texts(query, form))) + (
    if body.members().len() == 0 {
        Seq::empty()
    } else {
        json_object_text(body)
    })
}

proof fn lemma_before_question_len(s: Seq<char>)
    ensures
        before_question(s).len() <= s.len(),
        before_question(s) == s.subrange(0, before_question(s).len() as int),
    decreases s.len(),
{
    if s.len() > 0 {
        lemma_before_question_len(s.drop_last());
        let p = before_question(s.drop_last());
        assert(s.drop_last().subrange(0, p.len() as int) =~= s.subrange(0, p.len() as int));
        assert(s.subrange(0, s.len() as int) =~= s);
        assert(s.subrange(0, s.len() - 1) =~= s.drop_last());
    }
}

/// The text before the first `?`.
fn text_before_question(s: &str) -> (out: String)
    ensures
        out@ == before_question(s@),
{
    let chars = str_chars(s);
    let mut out = String::new();
    let mut i = 0usize;
    while i < chars.len() && chars[i] != '?'
        invariant
            chars@ == s@,
            i <= chars@.len(),
            out@ == chars@.take(i as int),
            before_question(chars@.take(i as int)) == chars@.take(i as int),
        decreases chars@.len() - i,
    {
        push_char(&mut out, chars[i]);
        assert(chars@.take(i + 1).drop_last() =~= chars@.take(i as int));
        i += 1;
        assert(out@ =~= chars@.take(i as int));
    }
    proof {
        if i < chars@.len() {
            assert(chars@.take(i + 1).drop_last() =~= chars@.take(i as int));
            lemma_before_question_prefix(chars@, i as int);
        } else {
            assert(chars@.take(i as int) =~= chars@);
        }
    }
    out
}

proof fn lemma_before_question_prefix(s: Seq<char>, i: int)
    requires
        0 <= i < s.len(),
        s[i] == '?',
        before_question(s.take(i)) == s.take(i),
    ensures
        before_question(s) == s.take(i),
    decreases s.len(),
{
    lemma_before_question_len(s.take(i + 1));
    assert(s.take(i + 1).drop_last() =~= s.take(i));
    if i + 1 < s.len() {
        assert(s.drop_last().take(i) =~= s.take(i));
        lemma_before_question_prefix(s.drop_last(), i);
        assert(s.drop_last().take(i + 1) =~= s.take(i + 1));
    } else {
        assert(s.take(i + 1) =~= s);
    }
}

/// The pathname of a URL, or of a bare path without its query.
fn normalize_pathname(url_or_path: &str) -> (path: String)
    ensures
        path@ == normalized_pathname(url_or_path@),
{
    match parse_url(url_or_path) {
        Ok(url) => url.path,
        Err(_) => text_before_question(url_or_path),
    }
}


/// Appends `name=value` for each pair that the signature covers.
fn push_signed_params(
    out: &mut Vec<Vec<char>>,
    pairs: &Vec<(String, String)>,
    covered: &Vec<(String, String)>,
    skip: &Vec<char>,
)
    requires
        skip@ == skip_keyword(),
    ensures
        texts_of(final(out)@) == texts_of(old(out)@) + signed_param_texts(
            pairs.deep_view(),
            covered.deep_view(),
        ),
{
    let ghost start = texts_of(out@);
    let ghost view = pairs.deep_view();
    for i in 0..pairs.len()
        invariant
            skip@ == skip_keyword(),
            view == pairs.deep_view(),
            texts_of(out@) == start + signed_param_texts(view.take(i as int), covered.deep_view()),
    {
        let name = str_chars(pairs[i].0.as_str());
        assert(view.take(i + 1).drop_last() =~= view.take(i as int));
        assert(view.take(i + 1).last() == view[i as int]);
        assert(view[i as int] == (pairs@[i as int].0@, pairs@[i as int].1@));
        if !chars_contain(&name, skip) && !pairs_have_name(covered, pairs[i].0.as_str()) {
            let mut text = name;
            text.push('=');
            let value = str_chars(pairs[i].1.as_str());
            let mut k = 0usize;
            let ghost head = text@;
            while k < value.len()
                invariant
                    k <= value@.len(),
                    text@ == head + value@.take(k as int),
                decreases value@.len() - k,
            {
                text.push(value[k]);
                k += 1;
                assert(text@ =~= head + value@.take(k as int));
            }
            assert(value@.take(k as int) =~= value@);
            assert(text@ =~= param_text(view[i as int].0, view[i as int].1));
            let ghost before = out@;
            out.push(text);
            assert(texts_of(out@) =~= texts_of(before).push(text@));
        }
    }
    assert(view.take(pairs@.len() as int) =~= view);
}

/// Appends the characters of a text.
fn push_chars(out: &mut String, chars: &Vec<char>)
    ensures
        final(out)@ == old(out)@ + chars@,
{
    let ghost start = out@;
    for i in 0..chars.len()
        invariant
            out@ == start + chars@.take(i as int),
    {
        push_char(out, chars[i]);
        assert(out@ =~= start + chars@.take(i + 1));
    }
    assert(chars@.take(chars@.len() as int) =~= chars@);
}

/// The marker `__NS` as characters.
fn skip_keyword_chars() -> (chars: Vec<char>)
    ensures
        chars@ == skip_keyword(),
{
    let chars = vec!['_', '_', 'N', 'S'];
    assert(chars@ =~= skip_keyword());
    chars
}

/// Build the Kuaishou sign input string from a normalized payload: the
/// pathname, then the sorted `name=value` texts of the parameters (form
/// parameters replacing query parameters of the same name, names holding
/// `__NS` left out), then the JSON body when it has members.
pub fn build_kuaishou_hxfalcon_sign_input(payload: &KuaishouHxfalconPayload) -> (input: String)
    ensures
        input@ == spec_sign_input(
            payload.url@,
            payload.query.deep_view(),
            payload.form.deep_view(),
            payload.request_body,
        ),
{
    let skip = skip_keyword_chars();
    let empty: Vec<(String, String)> = Vec::new();
    assert(empty.deep_view() =~= Seq::<(Seq<char>, Seq<char>)>::empty());
    let mut params: Vec<Vec<char>> = Vec::new();
    assert(texts_of(params@) =~= Seq::<Seq<char>>::empty());
    push_signed_params(&mut params, &payload.query, &payload.form, &skip);
    push_signed_params(&mut params, &payload.form, &empty, &skip);
    let ghost items = texts_of(params@);
    assert(items =~= payload_param_texts(payload.query.deep_view(), payload.form.deep_view()));
    let sorted = sort_texts(params);
    proof {
        lemma_sorted_texts(texts_of(sorted@), items);
    }
    let mut input = normalize_pathname(payload.url.as_str());
    let ghost path = input@;
    for i in 0..sorted.len()
        invariant
            input@ == path + concat_texts(texts_of(sorted@).take(i as int)),
    {
        push_chars(&mut input, &sorted[i]);
        assert(texts_of(sorted@).take(i + 1).drop_last() =~= texts_of(sorted@).take(i as int));
    }
    assert(texts_of(sorted@).take(sorted@.len() as int) =~= texts_of(sorted@));
    if !payload.request_body.is_empty() {
        let body = serialize_kuaishou_json_object(&payload.request_body);
        input.append(body.as_str());
    }
    input
}


/// Whether a text starts with `/`.
pub open spec fn starts_with_slash(s: Seq<char>) -> bool {
    s.len() > 0 && s[0] == '/'
}

/// The pathname that signing uses: that of `sign_path` when given, else
/// that of `url_or_path`.
pub open spec fn sign_pathname(url_or_path: Seq<char>, sign_path: Option<Seq<char>>) -> Seq<char> {
    normalized_pathname(
        match sign_path {
            Some(path) => path,
            None => url_or_path,
        },
    )
}

/// The outcome of resolving a sign path: the pathname when it starts with
/// `/`, else the message of the error.
pub open spec fn spec_resolve_sign_path(
    url_or_path: Seq<char>,
    sign_path: Option<Seq<char>>,
) -> Result<Seq<char>, Seq<char>> {
    let pathname = sign_pathname(url_or_path, sign_path);
    if starts_with_slash(pathname) {
        Ok(pathname)
    } else {
        Err("Invalid Kuaishou signing path: "@ + pathname)
    }
}

/// A string made of two texts.
fn concat_str(a: &str, b: &str) -> (s: String)
    ensures
        s@ == a@ + b@,
{
    let mut s = a.to_owned();
    s.append(b);
    s
}

/// Resolve the canonical sign path used by Kuaishou `__NS_hxfalcon`: the
/// pathname of `sign_path` (or of `url_or_path` without one), which must
/// start with `/`.
pub fn resolve_kuaishou_hxfalcon_sign_path(url_or_path: &str, sign_path: Option<&str>) -> (res:
    Result<String, AppError>)
    ensures
        match spec_resolve_sign_path(url_or_path@, option_str_view(sign_path)) {
            Ok(path) => res matches Ok(p) && p@ == path,
            Err(message) => res matches Err(e) && e.config_message() == Some(message),
        },
{
    let source = match sign_path {
        Some(path) => path,
        None => url_or_path,
    };
    let pathname = normalize_pathname(source);
    let chars = str_chars(pathname.as_str());
    if chars.len() > 0 && chars[0] == '/' {
        Ok(pathname)
    } else {
        Err(AppError::InvalidRequestConfig(concat_str("Invalid Kuaishou signing path: ", pathname.as_str())))
    }
}

/// The outcome of building a payload from a request URL: the parts of the
/// payload (path, query pairs), or the message of the error.
pub open spec fn spec_hxfalcon_payload(url: Seq<char>, sign_path: Option<Seq<char>>) -> Result<
    (Seq<char>, Map<Seq<char>, Seq<char>>),
    Seq<char>,
> {
    match url_parse(url) {
        Err(error) => Err("Invalid Kuaishou signing URL "@ + url + ": "@ + error),
        Ok(parts) => match spec_resolve_sign_path(parts.1, sign_path) {
            Err(message) => Err(message),
            Ok(path) => if last_wins(parts.2).contains_key("caver"@) {
                Ok((path, last_wins(parts.2)))
            } else {
                Err("Missing caver query parameter for Kuaishou signing: "@ + url)
            },
        },
    }
}

/// Build a normalized Kuaishou hxfalcon payload from a request URL: the
/// resolved sign path, and the query parameters as a map ordered by name
/// (the last value of a repeated name wins); the URL must carry `caver`.
pub fn build_kuaishou_hxfalcon_payload(url: &str, sign_path: Option<&str>) -> (res: Result<
    KuaishouHxfalconPayload,
    AppError,
>)
    ensures
        match spec_hxfalcon_payload(url@, option_str_view(sign_path)) {
            Ok((path, query)) => res matches Ok(payload) && payload.wf() && payload.url@ == path
                && last_wins(payload.query.deep_view()) == query && payload.form@.len() == 0
                && payload.request_body.members().len() == 0,
            Err(message) => res matches Err(e) && e.config_message() == Some(message),
        },
{
    let parsed = match parse_url(url) {
        Ok(parsed) => parsed,
        Err(error) => {
            let head = concat_str("Invalid Kuaishou signing URL ", url);
            let mut message = concat_str(head.as_str(), ": ");
            message.append(error.as_str());
            return Err(AppError::InvalidRequestConfig(message));
        },
    };
    let real_path = match resolve_kuaishou_hxfalcon_sign_path(parsed.path.as_str(), sign_path) {
        Ok(path) => path,
        Err(error) => return Err(error),
    };
    let query = pairs_by_name(&parsed.query_pairs);
    proof {
        crate::pairs::lemma_last_wins_domain(query.deep_view(), "caver"@);
    }
    if !pairs_have_name(&query, "caver") {
        return Err(
            AppError::InvalidRequestConfig(
                concat_str("Missing caver query parameter for Kuaishou signing: ", url),
            ),
        );
    }
    let form: Vec<(String, String)> = Vec::new();
    assert(form.deep_view() =~= Seq::<(Seq<char>, Seq<char>)>::empty());
    Ok(KuaishouHxfalconPayload {
        url: real_path,
        query,
        form,
        request_body: KuaishouJsonObject::new(),
    })
}

} // verus!
