//! Reading X GraphQL payloads: values at a path, the unwrapping of
//! `result` wrappers, the wrapper-free copy kept beside parsed items, and
//! the check that a response carries data.

use vstd::prelude::*;

use crate::error::{upstream_error, AppError};
use crate::kuaishou::json::{
    json_at_path, json_get, json_member, json_path, lemma_member_index, member_index,
    path_view, KuaishouJsonObject, KuaishouJsonValue,
};
use crate::text::{chars_contain, contains_text, parse_u64, spec_parse_u64, str_chars, string_eq_str};
use crate::twitter::entities::{json_items, json_text, string_at};
use crate::twitter::transport::{normalize_optional_string, opt_text};

verus! {

/// A JSON value as plain data.
#[verifier::ext_equal]
pub enum JsonTree {
    /// `null`.
    Null,
    /// `true` or `false`.
    Bool(bool),
    /// A number, as its text.
    Number(Seq<char>),
    /// A string.
    Text(Seq<char>),
    /// An array.
    List(Seq<JsonTree>),
    /// An object, members in order.
    Record(Seq<(Seq<char>, JsonTree)>),
}

/// A JSON value as plain data.
pub open spec fn json_tree(v: KuaishouJsonValue) -> JsonTree
    decreases v,
{
    match v {
        KuaishouJsonValue::Null => JsonTree::Null,
        KuaishouJsonValue::Bool(b) => JsonTree::Bool(b),
        KuaishouJsonValue::Number(n) => JsonTree::Number(n@),
        KuaishouJsonValue::String(s) => JsonTree::Text(s@),
        KuaishouJsonValue::Array(items) => JsonTree::List(json_trees(items@)),
        KuaishouJsonValue::Object(object) => JsonTree::Record(member_trees(object.entries@)),
    }
}

/// Array items as plain data.
pub open spec fn json_trees(items: Seq<KuaishouJsonValue>) -> Seq<JsonTree>
    decreases items,
{
    if items.len() == 0 {
        Seq::empty()
    } else {
        json_trees(items.drop_last()).push(json_tree(items.last()))
    }
}

/// Object members as plain data.
pub open spec fn member_trees(members: Seq<(String, KuaishouJsonValue)>) -> Seq<
    (Seq<char>, JsonTree),
>
    decreases members,
{
    if members.len() == 0 {
        Seq::empty()
    } else {
        member_trees(members.drop_last()).push(
            (members.last().0@, json_tree(members.last().1)),
        )
    }
}

/// How deeply arrays and objects nest in a value.
pub open spec fn value_height(v: KuaishouJsonValue) -> nat
    decreases v,
{
    match v {
        KuaishouJsonValue::Array(items) => items_height(items@) + 1,
        KuaishouJsonValue::Object(object) => members_height(object.entries@) + 1,
        _ => 0,
    }
}

/// One more than the greatest height among array items (zero for none).
pub open spec fn items_height(items: Seq<KuaishouJsonValue>) -> nat
    decreases items,
{
    if items.len() == 0 {
        0
    } else {
        let a = items_height(items.drop_last());
        let b = value_height(items.last()) + 1;
        if a >= b {
            a
        } else {
            b
        }
    }
}

/// One more than the greatest height among member values (zero for none).
pub open spec fn members_height(members: Seq<(String, KuaishouJsonValue)>) -> nat
    decreases members,
{
    if members.len() == 0 {
        0
    } else {
        let a = members_height(members.drop_last());
        let b = value_height(members.last().1) + 1;
        if a >= b {
            a
        } else {
            b
        }
    }
}

pub proof fn lemma_items_height(items: Seq<KuaishouJsonValue>, i: int)
    requires
        0 <= i < items.len(),
    ensures
        value_height(items[i]) < items_height(items),
    decreases items.len(),
{
    if i < items.len() - 1 {
        lemma_items_height(items.drop_last(), i);
    }
}

pub proof fn lemma_members_height(members: Seq<(String, KuaishouJsonValue)>, i: int)
    requires
        0 <= i < members.len(),
    ensures
        value_height(members[i].1) < members_height(members),
    decreases members.len(),
{
    if i < members.len() - 1 {
        lemma_members_height(members.drop_last(), i);
    }
}

/// A member's value is lower than the object.
pub proof fn lemma_get_height(v: KuaishouJsonValue, key: Seq<char>)
    ensures
        json_get(v, key) matches Some(x) ==> value_height(x) < value_height(v),
{
    match v {
        KuaishouJsonValue::Object(object) => {
            lemma_member_index(object.members(), key);
            match member_index(object.members(), key) {
                Some(i) => {
                    assert(object.members()[i].1 == object.entries@[i].1);
                    lemma_members_height(object.entries@, i);
                },
                None => {},
            }
        },
        _ => {},
    }
}

/// A value reached by a path is no higher than where it starts.
pub proof fn lemma_path_height(v: KuaishouJsonValue, path: Seq<Seq<char>>)
    ensures
        json_path(v, path) matches Some(x) ==> value_height(x) <= value_height(v) && (path.len()
            > 0 ==> value_height(x) < value_height(v)),
    decreases path.len(),
{
    if path.len() > 0 {
        lemma_get_height(v, path[0]);
        match json_get(v, path[0]) {
            Some(child) => lemma_path_height(child, path.drop_first()),
            None => {},
        }
    }
}

/// The `__typename` of a value, when it is a string.
pub open spec fn typename_of(v: KuaishouJsonValue) -> Option<Seq<char>> {
    json_text(json_get(v, "__typename"@))
}

/// Where the tweet of a result lies: in the value itself (`Some(None)`),
/// in a value inside it (`Some(Some(x))`), or nowhere (`None`).
///
/// A `Tweet`, or a value with both `legacy` and `rest_id`, is itself the
/// tweet; a `TweetWithVisibilityResults` holds it in `tweet`; any other
/// value is looked through its `result`.
pub open spec fn tweet_unwrap(v: KuaishouJsonValue) -> Option<Option<KuaishouJsonValue>>
    decreases value_height(v),
{
    let tn = typename_of(v);
    if tn == Some("Tweet"@) {
        Some(None)
    } else if tn == Some("TweetWithVisibilityResults"@) {
        match json_get(v, "tweet"@) {
            Some(t) => Some(Some(t)),
            None => None,
        }
    } else if json_get(v, "legacy"@) is Some && json_get(v, "rest_id"@) is Some {
        Some(None)
    } else {
        match json_get(v, "result"@) {
            Some(r) => {
                proof {
                    lemma_get_height(v, "result"@);
                }
                match tweet_unwrap(r) {
                    Some(None) => Some(Some(r)),
                    Some(Some(x)) => Some(Some(x)),
                    None => None,
                }
            },
            None => None,
        }
    }
}

/// Where the user of a result lies: a `User` is itself the user; any other
/// value is looked through its `result`.
pub open spec fn user_unwrap(v: KuaishouJsonValue) -> Option<Option<KuaishouJsonValue>>
    decreases value_height(v),
{
    if typename_of(v) == Some("User"@) {
        Some(None)
    } else {
        match json_get(v, "result"@) {
            Some(r) => {
                proof {
                    lemma_get_height(v, "result"@);
                }
                match user_unwrap(r) {
                    Some(None) => Some(Some(r)),
                    Some(Some(x)) => Some(Some(x)),
                    None => None,
                }
            },
            None => None,
        }
    }
}

/// The tweet of a result.
pub open spec fn tweet_result_of(v: KuaishouJsonValue) -> Option<KuaishouJsonValue> {
    match tweet_unwrap(v) {
        Some(None) => Some(v),
        Some(Some(x)) => Some(x),
        None => None,
    }
}

/// The user of a result.
pub open spec fn user_result_of(v: KuaishouJsonValue) -> Option<KuaishouJsonValue> {
    match user_unwrap(v) {
        Some(None) => Some(v),
        Some(Some(x)) => Some(x),
        None => None,
    }
}

/// What an unwrapping finds inside a value is lower than the value.
pub proof fn lemma_unwrap_height(v: KuaishouJsonValue)
    ensures
        tweet_unwrap(v) matches Some(Some(x)) ==> value_height(x) < value_height(v),
        user_unwrap(v) matches Some(Some(x)) ==> value_height(x) < value_height(v),
        tweet_result_of(v) matches Some(x) ==> value_height(x) <= value_height(v),
        user_result_of(v) matches Some(x) ==> value_height(x) <= value_height(v),
    decreases value_height(v),
{
    lemma_get_height(v, "tweet"@);
    lemma_get_height(v, "result"@);
    match json_get(v, "result"@) {
        Some(r) => lemma_unwrap_height(r),
        None => {},
    }
}

/// The wrapper-free copy of a payload: a value that unwraps to a tweet or
/// a user inside it is replaced by that (itself made wrapper-free); an
/// object whose only member is `result` is replaced by it; arrays and
/// other objects keep their shape with every item and member made
/// wrapper-free.
pub open spec fn normalized(v: KuaishouJsonValue) -> JsonTree
    decreases value_height(v), 0nat,
{
    proof {
        lemma_unwrap_height(v);
        lemma_get_height(v, "result"@);
    }
    match tweet_unwrap(v) {
        Some(Some(t)) => normalized(t),
        _ => match user_unwrap(v) {
            Some(Some(u)) => normalized(u),
            _ => match v {
                KuaishouJsonValue::Array(items) => JsonTree::List(normalized_items(items@)),
                KuaishouJsonValue::Object(object) => {
                    if object.entries@.len() == 1 && json_get(v, "result"@) is Some {
                        normalized(json_get(v, "result"@).unwrap())
                    } else {
                        JsonTree::Record(normalized_members(object.entries@))
                    }
                },
                _ => json_tree(v),
            },
        },
    }
}

/// Each array item made wrapper-free.
pub open spec fn normalized_items(items: Seq<KuaishouJsonValue>) -> Seq<JsonTree>
    decreases items_height(items), items.len(),
{
    if items.len() == 0 {
        Seq::empty()
    } else {
        normalized_items(items.drop_last()).push(normalized(items.last()))
    }
}

/// Each member value made wrapper-free, names kept.
pub open spec fn normalized_members(members: Seq<(String, KuaishouJsonValue)>) -> Seq<
    (Seq<char>, JsonTree),
>
    decreases members_height(members), members.len(),
{
    if members.len() == 0 {
        Seq::empty()
    } else {
        normalized_members(members.drop_last()).push(
            (members.last().0@, normalized(members.last().1)),
        )
    }
}

fn key_is(v: &KuaishouJsonValue, key: &str, expected: &str) -> (b: bool)
    ensures
        b == (json_text(json_get(*v, key@)) == Some(expected@)),
{
    match json_member(v, key) {
        Some(KuaishouJsonValue::String(s)) => string_eq_str(s, expected),
        _ => false,
    }
}

/// Where the tweet of a result lies (see `tweet_unwrap`).
fn locate_tweet<'a>(v: &'a KuaishouJsonValue) -> (r: Option<Option<&'a KuaishouJsonValue>>)
    ensures
        match r {
            None => tweet_unwrap(*v) is None,
            Some(None) => tweet_unwrap(*v) == Some(None::<KuaishouJsonValue>),
            Some(Some(x)) => tweet_unwrap(*v) == Some(Some(*x)),
        },
    decreases value_height(*v),
{
    if key_is(v, "__typename", "Tweet") {
        return Some(None);
    }
    if key_is(v, "__typename", "TweetWithVisibilityResults") {
        return match json_member(v, "tweet") {
            Some(t) => Some(Some(t)),
            None => None,
        };
    }
    if json_member(v, "legacy").is_some() && json_member(v, "rest_id").is_some() {
        return Some(None);
    }
    match json_member(v, "result") {
        Some(r) => {
            proof {
                lemma_get_height(*v, "result"@);
            }
            match locate_tweet(r) {
                Some(None) => Some(Some(r)),
                Some(Some(x)) => Some(Some(x)),
                None => None,
            }
        },
        None => None,
    }
}

/// Where the user of a result lies (see `user_unwrap`).
fn locate_user<'a>(v: &'a KuaishouJsonValue) -> (r: Option<Option<&'a KuaishouJsonValue>>)
    ensures
        match r {
            None => user_unwrap(*v) is None,
            Some(None) => user_unwrap(*v) == Some(None::<KuaishouJsonValue>),
            Some(Some(x)) => user_unwrap(*v) == Some(Some(*x)),
        },
    decreases value_height(*v),
{
    if key_is(v, "__typename", "User") {
        return Some(None);
    }
    match json_member(v, "result") {
        Some(r) => {
            proof {
                lemma_get_height(*v, "result"@);
            }
            match locate_user(r) {
                Some(None) => Some(Some(r)),
                Some(Some(x)) => Some(Some(x)),
                None => None,
            }
        },
        None => None,
    }
}

/// The tweet of a GraphQL result, looking through wrappers.
pub fn unwrap_tweet_result<'a>(v: &'a KuaishouJsonValue) -> (r: Option<&'a KuaishouJsonValue>)
    ensures
        match r {
            Some(x) => tweet_result_of(*v) == Some(*x),
            None => tweet_result_of(*v) is None,
        },
{
    match locate_tweet(v) {
        Some(None) => Some(v),
        Some(Some(x)) => Some(x),
        None => None,
    }
}

/// The user of a GraphQL result, looking through wrappers.
pub fn unwrap_user_result<'a>(v: &'a KuaishouJsonValue) -> (r: Option<&'a KuaishouJsonValue>)
    ensures
        match r {
            Some(x) => user_result_of(*v) == Some(*x),
            None => user_result_of(*v) is None,
        },
{
    match locate_user(v) {
        Some(None) => Some(v),
        Some(Some(x)) => Some(x),
        None => None,
    }
}

/// The wrapper-free copy of a payload (see `normalized`).
pub fn normalize_upstream_payload(value: &KuaishouJsonValue) -> (out: KuaishouJsonValue)
    ensures
        json_tree(out) == normalized(*value),
    decreases value_height(*value),
{
    proof {
        lemma_unwrap_height(*value);
        lemma_get_height(*value, "result"@);
    }
    match locate_tweet(value) {
        Some(Some(t)) => {
            return normalize_upstream_payload(t);
        },
        _ => {},
    }
    match locate_user(value) {
        Some(Some(u)) => {
            return normalize_upstream_payload(u);
        },
        _ => {},
    }
    match value {
        KuaishouJsonValue::Array(items) => {
            let mut out: Vec<KuaishouJsonValue> = Vec::new();
            for i in 0..items.len()
                invariant
                    *value == KuaishouJsonValue::Array(*items),
                    json_trees(out@) == normalized_items(items@.take(i as int)),
            {
                proof {
                    lemma_items_height(items@, i as int);
                }
                let item = normalize_upstream_payload(&items[i]);
                let ghost before = out@;
                out.push(item);
                assert(out@.drop_last() =~= before);
                assert(items@.take(i + 1).drop_last() =~= items@.take(i as int));
            }
            assert(items@.take(items@.len() as int) =~= items@);
            KuaishouJsonValue::Array(out)
        },
        KuaishouJsonValue::Object(object) => {
            if object.entries.len() == 1 {
                match json_member(value, "result") {
                    Some(r) => {
                        return normalize_upstream_payload(r);
                    },
                    None => {},
                }
            }
            let entries = &object.entries;
            let mut out: Vec<(String, KuaishouJsonValue)> = Vec::new();
            for i in 0..entries.len()
                invariant
                    *value == KuaishouJsonValue::Object(*object),
                    entries == &object.entries,
                    member_trees(out@) == normalized_members(entries@.take(i as int)),
            {
                proof {
                    lemma_members_height(entries@, i as int);
                }
                let item = normalize_upstream_payload(&entries[i].1);
                let name = entries[i].0.clone();
                let ghost before = out@;
                out.push((name, item));
                assert(out@.drop_last() =~= before);
                assert(entries@.take(i + 1).drop_last() =~= entries@.take(i as int));
            }
            assert(entries@.take(entries@.len() as int) =~= entries@);
            KuaishouJsonValue::Object(KuaishouJsonObject { entries: out })
        },
        KuaishouJsonValue::Null => KuaishouJsonValue::Null,
        KuaishouJsonValue::Bool(b) => KuaishouJsonValue::Bool(*b),
        KuaishouJsonValue::Number(n) => KuaishouJsonValue::Number(n.clone()),
        KuaishouJsonValue::String(s) => KuaishouJsonValue::String(s.clone()),
    }
}

/// The trimmed, non-empty string at a path.
pub fn string_at_path(value: &KuaishouJsonValue, path: &[&str]) -> (s: Option<String>)
    ensures
        opt_text(s) == string_at(*value, path_view(path@)),
{
    match json_at_path(value, path) {
        Some(KuaishouJsonValue::String(text)) => normalize_optional_string(text.clone()),
        _ => None,
    }
}

/// The items of the array at a path.
pub fn array_at_path<'a>(value: &'a KuaishouJsonValue, path: &[&str]) -> (items: Option<
    &'a Vec<KuaishouJsonValue>,
>)
    ensures
        match items {
            Some(xs) => json_items(json_path(*value, path_view(path@))) == Some(xs@),
            None => json_items(json_path(*value, path_view(path@))) is None,
        },
{
    match json_at_path(value, path) {
        Some(KuaishouJsonValue::Array(items)) => Some(items),
        _ => None,
    }
}

/// The boolean of a value, when it is one.
pub open spec fn json_bool(v: Option<KuaishouJsonValue>) -> Option<bool> {
    match v {
        Some(KuaishouJsonValue::Bool(b)) => Some(b),
        _ => None,
    }
}

/// The boolean at a path.
pub fn bool_at_path(value: &KuaishouJsonValue, path: &[&str]) -> (b: Option<bool>)
    ensures
        b == json_bool(json_path(*value, path_view(path@))),
{
    match json_at_path(value, path) {
        Some(KuaishouJsonValue::Bool(b)) => Some(*b),
        _ => None,
    }
}

/// A value as a `u64`: a number written as a non-negative integer that
/// fits, or a string that parses as one (`str::parse::<u64>`).
pub open spec fn value_u64(v: Option<KuaishouJsonValue>) -> Option<u64> {
    match v {
        Some(KuaishouJsonValue::Number(n)) => if n@.len() > 0 && n@[0] != '+' {
            spec_parse_u64(n@)
        } else {
            None
        },
        Some(KuaishouJsonValue::String(s)) => spec_parse_u64(s@),
        _ => None,
    }
}

/// The `u64` at a path (see `value_u64`).
pub fn u64_at_path(value: &KuaishouJsonValue, path: &[&str]) -> (n: Option<u64>)
    ensures
        n == value_u64(json_path(*value, path_view(path@))),
{
    match json_at_path(value, path) {
        Some(KuaishouJsonValue::Number(text)) => {
            let chars = str_chars(text.as_str());
            if chars.len() == 0 || chars[0] == '+' {
                None
            } else {
                parse_u64(text.as_str())
            }
        },
        Some(KuaishouJsonValue::String(text)) => parse_u64(text.as_str()),
        _ => None,
    }
}

/// The `message` of a GraphQL error, when it is a string.
pub open spec fn error_message(error: KuaishouJsonValue) -> Option<Seq<char>> {
    json_text(json_get(error, "message"@))
}

/// The last step of a GraphQL error's `path`, when it is a string.
pub open spec fn error_path_last(error: KuaishouJsonValue) -> Option<Seq<char>> {
    match json_items(json_get(error, "path"@)) {
        Some(steps) => if steps.len() > 0 {
            json_text(Some(steps.last()))
        } else {
            None
        },
        None => None,
    }
}

/// A load-shedding error on `quick_promote_eligibility`, which a response
/// may carry beside its data.
pub open spec fn is_ignorable_error(error: KuaishouJsonValue) -> bool {
    match error_message(error) {
        Some(m) => contains_text(m, "LoadShed"@) && error_path_last(error) == Some(
            "quick_promote_eligibility"@,
        ),
        None => false,
    }
}

/// The message of the first error that is not ignorable and has one.
pub open spec fn first_error_message(errors: Seq<KuaishouJsonValue>) -> Option<Seq<char>>
    decreases errors.len(),
{
    if errors.len() == 0 {
        None
    } else if !is_ignorable_error(errors[0]) && error_message(errors[0]) is Some {
        error_message(errors[0])
    } else {
        first_error_message(errors.drop_first())
    }
}

/// The message that makes a GraphQL response fail, if any.
pub open spec fn response_error(value: KuaishouJsonValue) -> Option<Seq<char>> {
    match json_items(json_get(value, "errors"@)) {
        Some(errors) => first_error_message(errors),
        None => None,
    }
}

/// The `message` of a GraphQL error.
pub fn graphql_error_message(error: &KuaishouJsonValue) -> (m: Option<&str>)
    ensures
        match m {
            Some(t) => error_message(*error) == Some(t@),
            None => error_message(*error) is None,
        },
{
    match json_member(error, "message") {
        Some(KuaishouJsonValue::String(s)) => Some(s.as_str()),
        _ => None,
    }
}

/// Whether a GraphQL error may be ignored (see `is_ignorable_error`).
pub fn is_ignorable_graphql_error(error: &KuaishouJsonValue) -> (b: bool)
    ensures
        b == is_ignorable_error(*error),
{
    let message = match graphql_error_message(error) {
        Some(m) => m,
        None => return false,
    };
    let shed = str_chars("LoadShed");
    if !chars_contain(&str_chars(message), &shed) {
        return false;
    }
    match json_member(error, "path") {
        Some(KuaishouJsonValue::Array(steps)) => {
            if steps.len() == 0 {
                return false;
            }
            match &steps[steps.len() - 1] {
                KuaishouJsonValue::String(s) => string_eq_str(s, "quick_promote_eligibility"),
                _ => false,
            }
        },
        _ => false,
    }
}

/// The `errors` array of a GraphQL response.
pub fn graphql_errors(value: &KuaishouJsonValue) -> (errors: Option<&Vec<KuaishouJsonValue>>)
    ensures
        match errors {
            Some(xs) => json_items(json_get(*value, "errors"@)) == Some(xs@),
            None => json_items(json_get(*value, "errors"@)) is None,
        },
{
    match json_member(value, "errors") {
        Some(KuaishouJsonValue::Array(items)) => Some(items),
        _ => None,
    }
}

/// The message of the first error of a response that is not ignorable.
pub fn first_non_ignorable_graphql_error_message(value: &KuaishouJsonValue) -> (m: Option<&str>)
    ensures
        match m {
            Some(t) => response_error(*value) == Some(t@),
            None => response_error(*value) is None,
        },
{
    let errors = match graphql_errors(value) {
        Some(errors) => errors,
        None => return None,
    };
    let mut i = 0usize;
    assert(errors@.skip(0) =~= errors@);
    while i < errors.len()
        invariant
            i <= errors@.len(),
            json_items(json_get(*value, "errors"@)) == Some(errors@),
            first_error_message(errors@) == first_error_message(errors@.skip(i as int)),
        decreases errors@.len() - i,
    {
        assert(errors@.skip(i as int)[0] == errors@[i as int]);
        assert(errors@.skip(i as int).drop_first() =~= errors@.skip(i + 1));
        if !is_ignorable_graphql_error(&errors[i]) {
            match graphql_error_message(&errors[i]) {
                Some(m) => {
                    assert(errors@.skip(i as int).len() > 0);
                    assert(first_error_message(errors@.skip(i as int)) == error_message(errors@[i as int]));
                    return Some(m);
                },
                None => {},
            }
        }
        i += 1;
    }
    assert(errors@.skip(i as int).len() == 0);
    None
}

/// The error of a GraphQL response: its first error that is not ignorable,
/// else a missing `data`.
pub open spec fn graphql_failure(url: Seq<char>, value: KuaishouJsonValue) -> Option<Seq<char>> {
    match response_error(value) {
        Some(m) => Some("twitter request to "@ + url + " failed: "@ + m),
        None => if json_get(value, "data"@) is None {
            Some("twitter request to "@ + url + " did not return `data`"@)
        } else {
            None
        },
    }
}

/// Check that a GraphQL response carries data and no error that matters.
pub fn ensure_graphql_success(url: &str, value: &KuaishouJsonValue) -> (res: Result<(), AppError>)
    ensures
        match graphql_failure(url@, *value) {
            Some(m) => res matches Err(e) && e.upstream_message() == Some(m),
            None => res is Ok,
        },
{
    match first_non_ignorable_graphql_error_message(value) {
        Some(m) => {
            let mut message = "twitter request to ".to_owned();
            message.append(url);
            message.append(" failed: ");
            message.append(m);
            return Err(upstream_error(message));
        },
        None => {},
    }
    if json_member(value, "data").is_none() {
        let mut message = "twitter request to ".to_owned();
        message.append(url);
        message.append(" did not return `data`");
        return Err(upstream_error(message));
    }
    Ok(())
}

/// The payload kept for a run of pages: `null` for none, the page for one,
/// else the array of pages.
pub fn collapse_upstream_pages(pages: Vec<KuaishouJsonValue>) -> (out: KuaishouJsonValue)
    ensures
        pages@.len() == 0 ==> out == KuaishouJsonValue::Null,
        pages@.len() == 1 ==> out == pages@[0],
        pages@.len() > 1 ==> out == KuaishouJsonValue::Array(pages),
{
    if pages.len() == 0 {
        KuaishouJsonValue::Null
    } else if pages.len() == 1 {
        let mut pages = pages;
        pages.pop().unwrap()
    } else {
        KuaishouJsonValue::Array(pages)
    }
}

/// A path of one key.
pub fn path1<'a>(a: &'a str) -> (p: [&'a str; 1])
    ensures
        path_view(p@) == seq![a@],
{
    let p = [a];
    assert(path_view(p@) =~= seq![a@]);
    p
}

/// A path of two keys.
pub fn path2<'a>(a: &'a str, b: &'a str) -> (p: [&'a str; 2])
    ensures
        path_view(p@) == seq![a@, b@],
{
    let p = [a, b];
    assert(path_view(p@) =~= seq![a@, b@]);
    p
}

/// A path of three keys.
pub fn path3<'a>(a: &'a str, b: &'a str, c: &'a str) -> (p: [&'a str; 3])
    ensures
        path_view(p@) == seq![a@, b@, c@],
{
    let p = [a, b, c];
    assert(path_view(p@) =~= seq![a@, b@, c@]);
    p
}

/// A path of four keys.
pub fn path4<'a>(a: &'a str, b: &'a str, c: &'a str, d: &'a str) -> (p: [&'a str; 4])
    ensures
        path_view(p@) == seq![a@, b@, c@, d@],
{
    let p = [a, b, c, d];
    assert(path_view(p@) =~= seq![a@, b@, c@, d@]);
    p
}

/// Where the first member named `key` stands among members as plain data.
pub open spec fn tree_member_index(members: Seq<(Seq<char>, JsonTree)>, key: Seq<char>) -> Option<int>
    decreases members.len(),
{
    if members.len() == 0 {
        None
    } else {
        match tree_member_index(members.drop_last(), key) {
            Some(i) => Some(i),
            None => if members.last().0 == key {
                Some(members.len() - 1)
            } else {
                None
            },
        }
    }
}

/// Members as plain data after setting `key`: the first member of that
/// name gets the value in place, else the member is appended.
pub open spec fn tree_set(members: Seq<(Seq<char>, JsonTree)>, key: Seq<char>, value: JsonTree) -> Seq<
    (Seq<char>, JsonTree),
> {
    match tree_member_index(members, key) {
        Some(i) => members.update(i, (key, value)),
        None => members.push((key, value)),
    }
}

/// Members as plain data, one by one.
pub proof fn lemma_member_trees(entries: Seq<(String, KuaishouJsonValue)>)
    ensures
        member_trees(entries).len() == entries.len(),
        forall|i: int| 0 <= i < entries.len() ==> #[trigger] member_trees(entries)[i] == (
            entries[i].0@,
            json_tree(entries[i].1),
        ),
    decreases entries.len(),
{
    if entries.len() > 0 {
        lemma_member_trees(entries.drop_last());
    }
}

proof fn lemma_index_agrees(
    a: Seq<(Seq<char>, KuaishouJsonValue)>,
    b: Seq<(Seq<char>, JsonTree)>,
    key: Seq<char>,
)
    requires
        a.len() == b.len(),
        forall|i: int| 0 <= i < a.len() ==> a[i].0 == b[i].0,
    ensures
        member_index(a, key) == tree_member_index(b, key),
    decreases a.len(),
{
    if a.len() > 0 {
        lemma_index_agrees(a.drop_last(), b.drop_last(), key);
    }
}

/// Setting a member of an object sets it in the object's plain data.
pub proof fn lemma_insert_tree(
    before: KuaishouJsonObject,
    after: KuaishouJsonObject,
    key: Seq<char>,
    value: KuaishouJsonValue,
)
    requires
        after.members() == crate::kuaishou::json::members_with(before.members(), key, value),
    ensures
        member_trees(after.entries@) == tree_set(member_trees(before.entries@), key, json_tree(value)),
{
    let m = before.members();
    lemma_member_trees(before.entries@);
    lemma_member_trees(after.entries@);
    lemma_index_agrees(m, member_trees(before.entries@), key);
    assert forall|i: int| 0 <= i < m.len() implies m[i].0 == member_trees(before.entries@)[i].0 by {
        assert(m[i] == (before.entries@[i].0@, before.entries@[i].1));
    }
    lemma_index_agrees(m, member_trees(before.entries@), key);
    let bt = member_trees(before.entries@);
    let target = tree_set(bt, key, json_tree(value));
    assert(after.members().len() == after.entries@.len());
    assert(m.len() == before.entries@.len());
    lemma_member_index(m, key);
    match member_index(m, key) {
        Some(k) => {
            assert(after.members() == m.update(k, (key, value)));
            assert(target == bt.update(k, (key, json_tree(value))));
            assert forall|i: int| 0 <= i < after.entries@.len() implies #[trigger] member_trees(
                after.entries@,
            )[i] == target[i] by {
                assert(after.members()[i] == (after.entries@[i].0@, after.entries@[i].1));
                assert(m[i] == (before.entries@[i].0@, before.entries@[i].1));
            }
        },
        None => {
            assert(after.members() == m.push((key, value)));
            assert(target == bt.push((key, json_tree(value))));
            assert forall|i: int| 0 <= i < after.entries@.len() implies #[trigger] member_trees(
                after.entries@,
            )[i] == target[i] by {
                assert(after.members()[i] == (after.entries@[i].0@, after.entries@[i].1));
                if i < before.entries@.len() {
                    assert(m[i] == (before.entries@[i].0@, before.entries@[i].1));
                }
            }
        },
    }
    assert(member_trees(after.entries@) =~= target);
}

} // verus!
