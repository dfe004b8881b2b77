//! Reading loosely typed Kuaishou payload fields: texts, flags and
//! numbers that the platform writes either as JSON numbers or as strings.

use vstd::prelude::*;

use crate::kuaishou::json::{json_get, KuaishouJsonObject, KuaishouJsonValue};
use crate::text::{parse_i64, parse_u64, spec_parse_i64, spec_parse_u64, str_chars};
use crate::twitter::transport::opt_text;
use crate::twitter::values::{
    json_bool, json_tree, json_trees, member_trees, value_height, lemma_items_height,
    lemma_members_height, JsonTree,
};

verus! {

/// An optional reference as an optional value.
pub open spec fn deref(v: Option<&KuaishouJsonValue>) -> Option<KuaishouJsonValue> {
    match v {
        Some(x) => Some(*x),
        None => None,
    }
}

/// Member `key` of a value that is an object.
pub open spec fn get_in(v: Option<KuaishouJsonValue>, key: Seq<char>) -> Option<KuaishouJsonValue> {
    match v {
        Some(x) => json_get(x, key),
        None => None,
    }
}

/// Whether a value is an object.
pub open spec fn is_object(v: Option<KuaishouJsonValue>) -> bool {
    v matches Some(KuaishouJsonValue::Object(_))
}

/// Whether a value is an object with at least one member.
pub open spec fn is_populated(v: Option<KuaishouJsonValue>) -> bool {
    match v {
        Some(KuaishouJsonValue::Object(o)) => o.entries@.len() > 0,
        _ => false,
    }
}

/// A value as text: a string, or the text of a number.
pub open spec fn ks_text(v: Option<KuaishouJsonValue>) -> Option<Seq<char>> {
    match v {
        Some(KuaishouJsonValue::String(s)) => Some(s@),
        Some(KuaishouJsonValue::Number(n)) => Some(n@),
        _ => None,
    }
}

/// A number's text as a `u64`: a non-negative integer that fits, or a
/// negative one that fits in `i64`, taken modulo 2^64.
pub open spec fn number_u64(n: Seq<char>) -> Option<u64> {
    if n.len() > 0 && n[0] == '-' {
        match spec_parse_i64(n) {
            Some(i) => Some(i as u64),
            None => None,
        }
    } else if n.len() > 0 && n[0] != '+' {
        spec_parse_u64(n)
    } else {
        None
    }
}

/// A number's text as an `i64`: an integer that fits, or a non-negative
/// one that fits in `u64`, taken modulo 2^64.
pub open spec fn number_i64(n: Seq<char>) -> Option<i64> {
    if n.len() > 0 && n[0] == '-' {
        spec_parse_i64(n)
    } else if n.len() > 0 && n[0] != '+' {
        match spec_parse_u64(n) {
            Some(v) => Some(v as i64),
            None => None,
        }
    } else {
        None
    }
}

/// A value as a `u64`: a number (see `number_u64`) or a string that
/// parses as one.
pub open spec fn ks_u64(v: Option<KuaishouJsonValue>) -> Option<u64> {
    match v {
        Some(KuaishouJsonValue::Number(n)) => number_u64(n@),
        Some(KuaishouJsonValue::String(s)) => spec_parse_u64(s@),
        _ => None,
    }
}

/// A value as an `i64`: a number (see `number_i64`) or a string that
/// parses as one.
pub open spec fn ks_i64(v: Option<KuaishouJsonValue>) -> Option<i64> {
    match v {
        Some(KuaishouJsonValue::Number(n)) => number_i64(n@),
        Some(KuaishouJsonValue::String(s)) => spec_parse_i64(s@),
        _ => None,
    }
}

/// Member `key` of a value, when the value is an object.
pub fn member<'a>(v: Option<&'a KuaishouJsonValue>, key: &str) -> (r: Option<&'a KuaishouJsonValue>)
    ensures
        deref(r) == get_in(deref(v), key@),
{
    match v {
        Some(x) => crate::kuaishou::json::json_member(x, key),
        None => None,
    }
}

/// A value as text (see `ks_text`).
pub fn string_value(v: Option<&KuaishouJsonValue>) -> (s: Option<String>)
    ensures
        opt_text(s) == ks_text(deref(v)),
{
    match v {
        Some(KuaishouJsonValue::String(s)) => Some(s.clone()),
        Some(KuaishouJsonValue::Number(n)) => Some(n.clone()),
        _ => None,
    }
}

/// A value as a flag.
pub fn bool_value(v: Option<&KuaishouJsonValue>) -> (b: Option<bool>)
    ensures
        b == json_bool(deref(v)),
{
    match v {
        Some(KuaishouJsonValue::Bool(b)) => Some(*b),
        _ => None,
    }
}

/// A value as a `u64` (see `ks_u64`).
pub fn number_value(v: Option<&KuaishouJsonValue>) -> (n: Option<u64>)
    ensures
        n == ks_u64(deref(v)),
{
    match v {
        Some(KuaishouJsonValue::Number(text)) => {
            let chars = str_chars(text.as_str());
            if chars.len() > 0 && chars[0] == '-' {
                match parse_i64(text.as_str()) {
                    Some(i) => Some(i as u64),
                    None => None,
                }
            } else if chars.len() > 0 && chars[0] != '+' {
                parse_u64(text.as_str())
            } else {
                None
            }
        },
        Some(KuaishouJsonValue::String(text)) => parse_u64(text.as_str()),
        _ => None,
    }
}

/// A value as an `i64` (see `ks_i64`).
pub fn i64_value(v: Option<&KuaishouJsonValue>) -> (n: Option<i64>)
    ensures
        n == ks_i64(deref(v)),
{
    match v {
        Some(KuaishouJsonValue::Number(text)) => {
            let chars = str_chars(text.as_str());
            if chars.len() > 0 && chars[0] == '-' {
                parse_i64(text.as_str())
            } else if chars.len() > 0 && chars[0] != '+' {
                match parse_u64(text.as_str()) {
                    Some(v) => Some(v as i64),
                    None => None,
                }
            } else {
                None
            }
        },
        Some(KuaishouJsonValue::String(text)) => parse_i64(text.as_str()),
        _ => None,
    }
}

/// Whether a value is an object with at least one member.
pub fn is_populated_object(v: Option<&KuaishouJsonValue>) -> (b: bool)
    ensures
        b == is_populated(deref(v)),
{
    match v {
        Some(KuaishouJsonValue::Object(o)) => o.entries.len() > 0,
        _ => false,
    }
}

/// The object without members.
pub open spec fn empty_record() -> JsonTree {
    JsonTree::Record(Seq::empty())
}

/// An object without members.
pub fn empty_object() -> (v: KuaishouJsonValue)
    ensures
        json_tree(v) == empty_record(),
{
    let v = KuaishouJsonValue::Object(KuaishouJsonObject { entries: Vec::new() });
    assert(member_trees(Seq::<(String, KuaishouJsonValue)>::empty()) =~= Seq::empty());
    v
}

/// A copy of a value.
pub fn copy_json(v: &KuaishouJsonValue) -> (r: KuaishouJsonValue)
    ensures
        json_tree(r) == json_tree(*v),
    decreases value_height(*v),
{
    match v {
        KuaishouJsonValue::Null => KuaishouJsonValue::Null,
        KuaishouJsonValue::Bool(b) => KuaishouJsonValue::Bool(*b),
        KuaishouJsonValue::Number(n) => KuaishouJsonValue::Number(n.clone()),
        KuaishouJsonValue::String(s) => KuaishouJsonValue::String(s.clone()),
        KuaishouJsonValue::Array(items) => KuaishouJsonValue::Array(copy_json_items(v, items)),
        KuaishouJsonValue::Object(object) => {
            let entries = &object.entries;
            let mut out: Vec<(String, KuaishouJsonValue)> = Vec::new();
            for i in 0..entries.len()
                invariant
                    *v == KuaishouJsonValue::Object(*object),
                    entries == &object.entries,
                    member_trees(out@) == member_trees(entries@.take(i as int)),
            {
                proof {
                    lemma_members_height(entries@, i as int);
                }
                let item = copy_json(&entries[i].1);
                let name = entries[i].0.clone();
                let ghost before = out@;
                out.push((name, item));
                assert(out@.drop_last() =~= before);
                assert(entries@.take(i + 1).drop_last() =~= entries@.take(i as int));
            }
            assert(entries@.take(entries@.len() as int) =~= entries@);
            KuaishouJsonValue::Object(KuaishouJsonObject { entries: out })
        },
    }
}

/// Copies of array items.
pub fn copy_json_items(owner: &KuaishouJsonValue, items: &Vec<KuaishouJsonValue>) -> (out: Vec<
    KuaishouJsonValue,
>)
    requires
        *owner == KuaishouJsonValue::Array(*items),
    ensures
        json_trees(out@) == json_trees(items@),
    decreases value_height(*owner), 1nat,
{
    let mut out: Vec<KuaishouJsonValue> = Vec::new();
    for i in 0..items.len()
        invariant
            *owner == KuaishouJsonValue::Array(*items),
            json_trees(out@) == json_trees(items@.take(i as int)),
    {
        proof {
            lemma_items_height(items@, i as int);
        }
        let item = copy_json(&items[i]);
        let ghost before = out@;
        out.push(item);
        assert(out@.drop_last() =~= before);
        assert(items@.take(i + 1).drop_last() =~= items@.take(i as int));
    }
    assert(items@.take(items@.len() as int) =~= items@);
    out
}

/// A copy of a value that is an object, else an object without members.
pub fn object_or_empty(v: Option<&KuaishouJsonValue>) -> (r: KuaishouJsonValue)
    ensures
        json_tree(r) == (if is_object(deref(v)) {
            json_tree(deref(v).unwrap())
        } else {
            empty_record()
        }),
{
    match v {
        Some(x) => match x {
            KuaishouJsonValue::Object(_) => copy_json(x),
            _ => empty_object(),
        },
        None => empty_object(),
    }
}

/// Copies of the items of a value that is an array, else none.
pub fn array_value(v: Option<&KuaishouJsonValue>) -> (out: Vec<KuaishouJsonValue>)
    ensures
        json_trees(out@) == match deref(v) {
            Some(KuaishouJsonValue::Array(items)) => json_trees(items@),
            _ => Seq::<JsonTree>::empty(),
        },
{
    match v {
        Some(x) => match x {
            KuaishouJsonValue::Array(items) => copy_json_items(x, items),
            _ => Vec::new(),
        },
        None => Vec::new(),
    }
}

/// Copies of a run of values.
pub fn copy_values(items: &Vec<KuaishouJsonValue>) -> (out: Vec<KuaishouJsonValue>)
    ensures
        json_trees(out@) == json_trees(items@),
{
    let mut out: Vec<KuaishouJsonValue> = Vec::new();
    for i in 0..items.len()
        invariant
            json_trees(out@) == json_trees(items@.take(i as int)),
    {
        let item = copy_json(&items[i]);
        let ghost before = out@;
        out.push(item);
        assert(out@.drop_last() =~= before);
        assert(items@.take(i + 1).drop_last() =~= items@.take(i as int));
    }
    assert(items@.take(items@.len() as int) =~= items@);
    out
}

} // verus!
