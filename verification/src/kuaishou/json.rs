//! The ordered JSON values that Kuaishou request bodies are built from, and
//! their canonical text.

use vstd::prelude::*;

use crate::text::{lower_hex_char, lower_hex_digit, push_char, str_chars, string_eq_str};

verus! {

/// A JSON value whose object members keep their insertion order.
#[derive(Debug, PartialEq)]
pub enum KuaishouJsonValue {
    /// `null`.
    Null,
    /// `true` or `false`.
    Bool(bool),
    /// A number, kept as the exact text it is written with.
    Number(String),
    /// A string.
    String(String),
    /// An array.
    Array(Vec<KuaishouJsonValue>),
    /// An object.
    Object(KuaishouJsonObject),
}

/// A JSON object as an ordered list of members.
#[derive(Debug, PartialEq)]
pub struct KuaishouJsonObject {
    /// The members, in insertion order.
    pub entries: Vec<(String, KuaishouJsonValue)>,
}

impl KuaishouJsonObject {
    /// The members, in insertion order, with their names as text.
    pub open spec fn members(self) -> Seq<(Seq<char>, KuaishouJsonValue)> {
        self.entries@.map_values(|e: (String, KuaishouJsonValue)| (e.0@, e.1))
    }

    /// An object without members.
    pub fn new() -> (object: Self)
        ensures
            object.members() == Seq::<(Seq<char>, KuaishouJsonValue)>::empty(),
    {
        let object = KuaishouJsonObject { entries: Vec::new() };
        assert(object.members() =~= Seq::<(Seq<char>, KuaishouJsonValue)>::empty());
        object
    }

    /// The members, in insertion order.
    pub fn entries(&self) -> (entries: &[(String, KuaishouJsonValue)])
        ensures
            entries@.map_values(|e: (String, KuaishouJsonValue)| (e.0@, e.1)) == self.members(),
    {
        self.entries.as_slice()
    }

    /// Whether the object has no members.
    pub fn is_empty(&self) -> (empty: bool)
        ensures
            empty == (self.members().len() == 0),
    {
        self.entries.len() == 0
    }

    /// Set member `key`: the first member with that key gets the new value
    /// in place; without one, the member is appended.
    pub fn insert(&mut self, key: &str, value: KuaishouJsonValue)
        ensures
            final(self).members() == members_with(old(self).members(), key@, value),
    {
        let ghost before = self.members();
        let n = self.entries.len();
        let mut i = 0usize;
        while i < n && !string_eq_str(&self.entries[i].0, key)
            invariant
                n == self.entries@.len(),
                i <= n,
                self.members() == before,
                forall|k: int| 0 <= k < i ==> before[k].0 != key@,
            decreases n - i,
        {
            i += 1;
        }
        if i < n {
            proof {
                lemma_member_index_first(before, key@, i as int);
            }
            let name = self.entries[i].0.clone();
            self.entries.set(i, (name, value));
            assert(self.members() =~= before.update(i as int, (key@, value)));
        } else {
            let mut name = String::new();
            name.append(key);
            self.entries.push((name, value));
            proof {
                lemma_member_index_none(before, key@);
            }
            assert(self.members() =~= before.push((key@, value)));
        }
    }
}

/// Index of the first member named `key`, if any.
pub open spec fn member_index(members: Seq<(Seq<char>, KuaishouJsonValue)>, key: Seq<char>) -> Option<
    int,
>
    decreases members.len(),
{
    if members.len() == 0 {
        None
    } else {
        match member_index(members.drop_last(), key) {
            Some(i) => Some(i),
            None => if members.last().0 == key {
                Some(members.len() - 1)
            } else {
                None
            },
        }
    }
}

/// The members after setting `key` to `value`.
pub open spec fn members_with(
    members: Seq<(Seq<char>, KuaishouJsonValue)>,
    key: Seq<char>,
    value: KuaishouJsonValue,
) -> Seq<(Seq<char>, KuaishouJsonValue)> {
    match member_index(members, key) {
        Some(i) => members.update(i, (key, value)),
        None => members.push((key, value)),
    }
}

/// The value of the first member named `key`, if any.
pub open spec fn member_value(members: Seq<(Seq<char>, KuaishouJsonValue)>, key: Seq<char>) -> Option<
    KuaishouJsonValue,
> {
    match member_index(members, key) {
        Some(i) => Some(members[i].1),
        None => None,
    }
}

proof fn lemma_member_index_first(
    members: Seq<(Seq<char>, KuaishouJsonValue)>,
    key: Seq<char>,
    i: int,
)
    requires
        0 <= i < members.len(),
        members[i].0 == key,
        forall|k: int| 0 <= k < i ==> members[k].0 != key,
    ensures
        member_index(members, key) == Some(i),
    decreases members.len(),
{
    if i < members.len() - 1 {
        lemma_member_index_first(members.drop_last(), key, i);
    } else {
        lemma_member_index_none(members.drop_last(), key);
    }
}

proof fn lemma_member_index_none(members: Seq<(Seq<char>, KuaishouJsonValue)>, key: Seq<char>)
    requires
        forall|k: int| 0 <= k < members.len() ==> members[k].0 != key,
    ensures
        member_index(members, key) is None,
    decreases members.len(),
{
    if members.len() > 0 {
        lemma_member_index_none(members.drop_last(), key);
    }
}

/// Setting a key that no member has appends a member.
pub proof fn lemma_members_with_new(
    members: Seq<(Seq<char>, KuaishouJsonValue)>,
    key: Seq<char>,
    value: KuaishouJsonValue,
)
    requires
        forall|k: int| 0 <= k < members.len() ==> members[k].0 != key,
    ensures
        members_with(members, key, value) == members.push((key, value)),
{
    lemma_member_index_none(members, key);
}

/// Where the first member named `key` stands, and that no earlier member
/// has that name.
pub proof fn lemma_member_index(members: Seq<(Seq<char>, KuaishouJsonValue)>, key: Seq<char>)
    ensures
        member_index(members, key) matches Some(i) ==> 0 <= i < members.len() && members[i].0
            == key && forall|k: int| 0 <= k < i ==> members[k].0 != key,
        member_index(members, key) is None ==> forall|k: int|
            0 <= k < members.len() ==> members[k].0 != key,
    decreases members.len(),
{
    if members.len() > 0 {
        let init = members.drop_last();
        lemma_member_index(init, key);
        assert forall|k: int| 0 <= k < init.len() implies init[k] == members[k] by {}
    }
}



/// Reading a key after setting it gives the value set; other keys read as
/// before; setting a key twice is setting it once, to the last value.
pub proof fn lemma_members_with_read_back(
    members: Seq<(Seq<char>, KuaishouJsonValue)>,
    key: Seq<char>,
    value: KuaishouJsonValue,
    other: Seq<char>,
    later: KuaishouJsonValue,
)
    requires
        other != key,
    ensures
        member_value(members_with(members, key, value), key) == Some(value),
        member_value(members_with(members, key, value), other) == member_value(members, other),
        members_with(members_with(members, key, value), key, later) == members_with(
            members,
            key,
            later,
        ),
{
    let after = members_with(members, key, value);
    lemma_member_index(members, key);
    lemma_member_index(members, other);
    match member_index(members, key) {
        Some(i) => {
            assert forall|k: int| 0 <= k < i implies after[k].0 != key by {}
            lemma_member_index_first(after, key, i);
            assert(after =~= members.update(i, (key, value)));
        },
        None => {
            assert forall|k: int| 0 <= k < members.len() implies after[k].0 != key by {}
            lemma_member_index_first(after, key, members.len() as int);
        },
    }
    lemma_member_index(after, other);
    match member_index(members, other) {
        Some(j) => {
            assert(after[j].0 == other);
            assert forall|k: int| 0 <= k < j implies after[k].0 != other by {
                assert(after[k].0 == key || after[k].0 == members[k].0);
            }
            lemma_member_index_first(after, other, j);
        },
        None => {
            assert forall|k: int| 0 <= k < after.len() implies after[k].0 != other by {
                if k < members.len() {
                    assert(after[k].0 == key || after[k].0 == members[k].0);
                }
            }
            lemma_member_index_none(after, other);
        },
    }
    match member_index(members, key) {
        Some(i) => {
            assert(members_with(after, key, later) =~= members.update(i, (key, later)));
        },
        None => {
            assert(members_with(after, key, later) =~= members.push((key, later)));
        },
    }
}

/// The escaped form of one character inside a JSON string literal.
pub open spec fn escape_json_char(c: char) -> Seq<char> {
    if c == '"' {
        seq!['\\', '"']
    } else if c == '\\' {
        seq!['\\', '\\']
    } else if c == '\u{08}' {
        seq!['\\', 'b']
    } else if c == '\u{0C}' {
        seq!['\\', 'f']
    } else if c == '\n' {
        seq!['\\', 'n']
    } else if c == '\r' {
        seq!['\\', 'r']
    } else if c == '\t' {
        seq!['\\', 't']
    } else if c == '\u{2028}' {
        seq!['\\', 'u', '2', '0', '2', '8']
    } else if c == '\u{2029}' {
        seq!['\\', 'u', '2', '0', '2', '9']
    } else if c <= '\u{1F}' {
        seq![
            '\\',
            'u',
            '0',
            '0',
            lower_hex_char((c as u32 / 16) as u8),
            lower_hex_char((c as u32 % 16) as u8),
        ]
    } else {
        seq![c]
    }
}

/// The escaped form of a text inside a JSON string literal.
pub open spec fn escape_json(s: Seq<char>) -> Seq<char>
    decreases s.len(),
{
    if s.len() == 0 {
        Seq::empty()
    } else {
        escape_json(s.drop_last()) + escape_json_char(s.last())
    }
}

/// The text of a JSON value: no whitespace, members in order.
pub open spec fn json_value_text(v: KuaishouJsonValue) -> Seq<char>
    decreases v,
{
    match v {
        KuaishouJsonValue::Null => seq!['n', 'u', 'l', 'l'],
        KuaishouJsonValue::Bool(b) => if b {
            seq!['t', 'r', 'u', 'e']
        } else {
            seq!['f', 'a', 'l', 's', 'e']
        },
        KuaishouJsonValue::Number(n) => n@,
        KuaishouJsonValue::String(s) => seq!['"'] + escape_json(s@) + seq!['"'],
        KuaishouJsonValue::Array(items) => seq!['['] + json_items_text(items@) + seq![']'],
        KuaishouJsonValue::Object(object) => json_object_text(object),
    }
}

/// The comma-separated texts of array items.
pub open spec fn json_items_text(items: Seq<KuaishouJsonValue>) -> Seq<char>
    decreases items,
{
    if items.len() == 0 {
        Seq::empty()
    } else if items.len() == 1 {
        json_value_text(items[0])
    } else {
        json_items_text(items.drop_last()) + seq![','] + json_value_text(items.last())
    }
}

/// The comma-separated `"name":value` texts of object members.
pub open spec fn json_members_text(members: Seq<(String, KuaishouJsonValue)>) -> Seq<char>
    decreases members,
{
    if members.len() == 0 {
        Seq::empty()
    } else if members.len() == 1 {
        seq!['"'] + escape_json(members[0].0@) + seq!['"', ':'] + json_value_text(members[0].1)
    } else {
        json_members_text(members.drop_last()) + seq![','] + seq!['"'] + escape_json(
            members.last().0@,
        ) + seq!['"', ':'] + json_value_text(members.last().1)
    }
}

/// The text of a JSON object.
pub open spec fn json_object_text(object: KuaishouJsonObject) -> Seq<char>
    decreases object,
{
    seq!['{'] + json_members_text(object.entries@) + seq!['}']
}


fn push_escaped_char(out: &mut String, c: char)
    ensures
        final(out)@ == old(out)@ + escape_json_char(c),
{
    let ghost start = out@;
    if c == '"' {
        push_char(out, '\\');
        push_char(out, '"');
    } else if c == '\\' {
        push_char(out, '\\');
        push_char(out, '\\');
    } else if c == '\u{08}' {
        push_char(out, '\\');
        push_char(out, 'b');
    } else if c == '\u{0C}' {
        push_char(out, '\\');
        push_char(out, 'f');
    } else if c == '\n' {
        push_char(out, '\\');
        push_char(out, 'n');
    } else if c == '\r' {
        push_char(out, '\\');
        push_char(out, 'r');
    } else if c == '\t' {
        push_char(out, '\\');
        push_char(out, 't');
    } else if c == '\u{2028}' {
        push_char(out, '\\');
        push_char(out, 'u');
        push_char(out, '2');
        push_char(out, '0');
        push_char(out, '2');
        push_char(out, '8');
    } else if c == '\u{2029}' {
        push_char(out, '\\');
        push_char(out, 'u');
        push_char(out, '2');
        push_char(out, '0');
        push_char(out, '2');
        push_char(out, '9');
    } else if c <= '\u{1F}' {
        let code = c as u32;
        push_char(out, '\\');
        push_char(out, 'u');
        push_char(out, '0');
        push_char(out, '0');
        push_char(out, lower_hex_digit((code / 16) as u8));
        push_char(out, lower_hex_digit((code % 16) as u8));
    } else {
        push_char(out, c);
    }
    assert(out@ =~= start + escape_json_char(c));
}

/// Escape a text for use inside a JSON string literal.
pub(crate) fn escape_json_string(value: &str) -> (out: String)
    ensures
        out@ == escape_json(value@),
{
    let chars = str_chars(value);
    let mut out = String::new();
    for i in 0..chars.len()
        invariant
            chars@ == value@,
            out@ == escape_json(chars@.take(i as int)),
    {
        push_escaped_char(&mut out, chars[i]);
        assert(chars@.take(i + 1).drop_last() =~= chars@.take(i as int));
    }
    assert(chars@.take(chars@.len() as int) =~= chars@);
    out
}

fn push_text(out: &mut String, text: &String)
    ensures
        final(out)@ == old(out)@ + text@,
{
    out.append(text.as_str());
}

/// The canonical text of a JSON value.
pub(crate) fn serialize_kuaishou_json_value(value: &KuaishouJsonValue) -> (text: String)
    ensures
        text@ == json_value_text(*value),
    decreases value,
{
    match value {
        KuaishouJsonValue::Null => {
            let mut text = String::new();
            push_char(&mut text, 'n');
            push_char(&mut text, 'u');
            push_char(&mut text, 'l');
            push_char(&mut text, 'l');
            assert(text@ =~= seq!['n', 'u', 'l', 'l']);
            text
        },
        KuaishouJsonValue::Bool(b) => {
            let mut text = String::new();
            if *b {
                push_char(&mut text, 't');
                push_char(&mut text, 'r');
                push_char(&mut text, 'u');
                push_char(&mut text, 'e');
                assert(text@ =~= seq!['t', 'r', 'u', 'e']);
            } else {
                push_char(&mut text, 'f');
                push_char(&mut text, 'a');
                push_char(&mut text, 'l');
                push_char(&mut text, 's');
                push_char(&mut text, 'e');
                assert(text@ =~= seq!['f', 'a', 'l', 's', 'e']);
            }
            text
        },
        KuaishouJsonValue::Number(n) => n.clone(),
        KuaishouJsonValue::String(s) => {
            let mut text = String::new();
            push_char(&mut text, '"');
            let escaped = escape_json_string(s.as_str());
            push_text(&mut text, &escaped);
            push_char(&mut text, '"');
            assert(text@ =~= seq!['"'] + escape_json(s@) + seq!['"']);
            text
        },
        KuaishouJsonValue::Array(items) => {
            let mut text = String::new();
            push_char(&mut text, '[');
            for i in 0..items.len()
                invariant
                    *value == KuaishouJsonValue::Array(*items),
                    text@ == seq!['['] + json_items_text(items@.take(i as int)),
            {
                if i > 0 {
                    push_char(&mut text, ',');
                }
                proof {
                    assert(decreases_to!(*value => value->Array_0));
                    assert(decreases_to!(*items => items@));
                    assert(decreases_to!(items@ => items@[i as int]));
                }
                let item = serialize_kuaishou_json_value(&items[i]);
                push_text(&mut text, &item);
                assert(items@.take(i + 1).drop_last() =~= items@.take(i as int));
                assert(text@ =~= seq!['['] + json_items_text(items@.take(i + 1)));
            }
            assert(items@.take(items@.len() as int) =~= items@);
            push_char(&mut text, ']');
            text
        },
        KuaishouJsonValue::Object(object) => serialize_kuaishou_json_object(object),
    }
}

/// The canonical text of a JSON object.
pub(crate) fn serialize_kuaishou_json_object(value: &KuaishouJsonObject) -> (text: String)
    ensures
        text@ == json_object_text(*value),
    decreases value,
{
    let entries = &value.entries;
    let mut text = String::new();
    push_char(&mut text, '{');
    for i in 0..entries.len()
        invariant
            entries == &value.entries,
            text@ == seq!['{'] + json_members_text(entries@.take(i as int)),
    {
        if i > 0 {
            push_char(&mut text, ',');
        }
        push_char(&mut text, '"');
        let name = escape_json_string(entries[i].0.as_str());
        push_text(&mut text, &name);
        push_char(&mut text, '"');
        push_char(&mut text, ':');
        let inner = serialize_kuaishou_json_value(&entries[i].1);
        push_text(&mut text, &inner);
        assert(entries@.take(i + 1).drop_last() =~= entries@.take(i as int));
        assert(text@ =~= seq!['{'] + json_members_text(entries@.take(i + 1)));
    }
    assert(entries@.take(entries@.len() as int) =~= entries@);
    push_char(&mut text, '}');
    text
}

/// The value of member `key` of an object (`Value::get`); `None` for a
/// value that is not an object.
pub open spec fn json_get(v: KuaishouJsonValue, key: Seq<char>) -> Option<KuaishouJsonValue> {
    match v {
        KuaishouJsonValue::Object(object) => member_value(object.members(), key),
        _ => None,
    }
}

/// The value reached by following the keys in turn.
pub open spec fn json_path(v: KuaishouJsonValue, path: Seq<Seq<char>>) -> Option<KuaishouJsonValue>
    decreases path.len(),
{
    if path.len() == 0 {
        Some(v)
    } else {
        match json_get(v, path[0]) {
            None => None,
            Some(child) => json_path(child, path.drop_first()),
        }
    }
}

/// The keys of a path of string slices.
pub open spec fn path_view(path: Seq<&str>) -> Seq<Seq<char>> {
    path.map_values(|k: &str| k@)
}

/// The value of member `key` of an object.
pub fn json_member<'a>(v: &'a KuaishouJsonValue, key: &str) -> (r: Option<&'a KuaishouJsonValue>)
    ensures
        match r {
            Some(x) => json_get(*v, key@) == Some(*x),
            None => json_get(*v, key@) is None,
        },
{
    match v {
        KuaishouJsonValue::Object(object) => {
            let entries = &object.entries;
            let ghost members = object.members();
            let mut i = 0usize;
            while i < entries.len()
                invariant
                    *v == KuaishouJsonValue::Object(*object),
                    entries == &object.entries,
                    members == object.members(),
                    i <= entries@.len(),
                    forall|k: int| 0 <= k < i ==> members[k].0 != key@,
                decreases entries@.len() - i,
            {
                assert(members[i as int] == (entries@[i as int].0@, entries@[i as int].1));
                if string_eq_str(&entries[i].0, key) {
                    proof {
                        lemma_member_index_first(members, key@, i as int);
                    }
                    return Some(&entries[i].1);
                }
                i += 1;
            }
            proof {
                lemma_member_index_none(members, key@);
            }
            None
        },
        _ => None,
    }
}

/// The value reached by following the keys in turn.
pub fn json_at_path<'a>(v: &'a KuaishouJsonValue, path: &[&str]) -> (r: Option<&'a KuaishouJsonValue>)
    ensures
        match r {
            Some(x) => json_path(*v, path_view(path@)) == Some(*x),
            None => json_path(*v, path_view(path@)) is None,
        },
{
    let mut current = v;
    let mut i = 0usize;
    assert(path_view(path@).skip(0) =~= path_view(path@));
    while i < path.len()
        invariant
            i <= path@.len(),
            json_path(*v, path_view(path@)) == json_path(*current, path_view(path@).skip(i as int)),
        decreases path@.len() - i,
    {
        let ghost rest = path_view(path@).skip(i as int);
        assert(rest[0] == path@[i as int]@);
        assert(rest.drop_first() =~= path_view(path@).skip(i + 1));
        match json_member(current, path[i]) {
            Some(child) => {
                current = child;
            },
            None => return None,
        }
        i += 1;
    }
    assert(path_view(path@).skip(i as int).len() == 0);
    Some(current)
}

} // verus!
