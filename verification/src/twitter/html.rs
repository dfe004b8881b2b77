//! Reading the pieces of the X home page and its runtime script that the
//! client transaction id is derived from.

use vstd::prelude::*;
use vstd::string::StringSliceAdditionalSpecFns;

use crate::error::{upstream_error, AppError};
use crate::scan::{
    find_chars_from, find_from, lemma_find_from, lemma_find_skip, lemma_rfind_before,
    lemma_rfind_text_before, rfind_chars_before, rfind_text_before, replace_all, replace_chars,
    rfind_before, rfind_char_before,
};
use crate::text::{is_unicode_whitespace, is_whitespace, trim_start_index, str_chars, string_from_chars, string_from_range};

verus! {

/// A character that may stand just before an attribute name.
pub open spec fn attr_boundary(c: char) -> bool {
    c == ' ' || c == '\t' || c == '\n' || c == '\u{c}' || c == '\r' || c == '<' || c == '/'
}

/// A character that ends an unquoted attribute value.
pub open spec fn value_stop(c: char) -> bool {
    is_unicode_whitespace(c) || c == '>' || c == '/'
}

/// The first position at or after `from` whose character satisfies
/// `stop`, or the length when none does.
pub open spec fn first_index_from(s: Seq<char>, from: int, stop: spec_fn(char) -> bool) -> int
    decreases s.len() - from,
{
    if from < 0 || from >= s.len() {
        s.len() as int
    } else if stop(s[from]) {
        from
    } else {
        first_index_from(s, from + 1, stop)
    }
}

/// `&amp;`, `&quot;` and `&#39;` decoded, in that order.
pub open spec fn decode_entities(s: Seq<char>) -> Seq<char> {
    replace_all(
        replace_all(replace_all(s, "&amp;"@, "&"@), "&quot;"@, "\""@),
        "&#39;"@,
        "'"@,
    )
}

/// The value of an attribute whose `name=` ends just before `start`: a
/// quoted value up to its closing quote, or an unquoted one up to
/// whitespace, `>` or `/`; entities decoded.
pub open spec fn attr_value_at(tag: Seq<char>, start: int) -> Option<Seq<char>> {
    let rem = tag.skip(start);
    if rem.len() == 0 {
        None
    } else if rem[0] == '"' || rem[0] == '\'' {
        match find_from(rem, seq![rem[0]], 1) {
            None => None,
            Some(end) => Some(decode_entities(rem.subrange(1, end))),
        }
    } else {
        Some(decode_entities(rem.take(first_index_from(rem, 0, |c: char| value_stop(c)))))
    }
}

/// The value of the first `pattern` (an attribute name and `=`) at or after
/// `from` that stands at the start of the tag or after whitespace, `<` or
/// `/`.
pub open spec fn attr_search(tag: Seq<char>, pattern: Seq<char>, from: int) -> Option<Seq<char>>
    decreases tag.len() + 1 - from,
{
    if from < 0 || pattern.len() == 0 {
        None
    } else {
        match find_from(tag, pattern, from) {
            None => None,
            Some(pos) => {
                proof {
                    lemma_find_from(tag, pattern, from);
                }
                if pos > 0 && !attr_boundary(tag[pos - 1]) {
                    attr_search(tag, pattern, pos + pattern.len())
                } else {
                    attr_value_at(tag, pos + pattern.len())
                }
            },
        }
    }
}

/// The value of attribute `name` in a tag.
pub open spec fn attribute_value(tag: Seq<char>, name: Seq<char>) -> Option<Seq<char>> {
    attr_search(tag, name + seq!['='], 0)
}

/// Searching a suffix for a stop is searching the whole text further on.
pub proof fn lemma_first_index_skip(s: Seq<char>, k: int, from: int, stop: spec_fn(char) -> bool)
    requires
        0 <= k <= s.len(),
        0 <= from,
    ensures
        first_index_from(s.skip(k), from, stop) == first_index_from(s, from + k, stop) - k,
    decreases s.len() - from - k,
{
    if from + k < s.len() && !stop(s[from + k]) {
        lemma_first_index_skip(s, k, from + 1, stop);
    }
}

/// The text of an optional string.
pub open spec fn opt_view(s: Option<String>) -> Option<Seq<char>> {
    match s {
        Some(t) => Some(t@),
        None => None,
    }
}

/// The characters of a text (`&str` literals included).
fn chars_of(s: &str) -> (out: Vec<char>)
    ensures
        out@ == s@,
{
    str_chars(s)
}

/// Decode the entities `&amp;`, `&quot;` and `&#39;`, in that order.
pub fn decode_html_entities(value: &str) -> (out: String)
    ensures
        out@ == decode_entities(value@),
{
    let text = chars_of(value);
    let step = replace_chars(&text, &chars_of("&amp;"), &chars_of("&"));
    let step = replace_chars(&step, &chars_of("&quot;"), &chars_of("\""));
    let step = replace_chars(&step, &chars_of("&#39;"), &chars_of("'"));
    string_from_chars(step.as_slice())
}

fn decode_range(chars: &Vec<char>, from: usize, to: usize) -> (out: String)
    requires
        from <= to <= chars@.len(),
    ensures
        out@ == decode_entities(chars@.subrange(from as int, to as int)),
{
    let piece = string_from_range(chars, from, to);
    decode_html_entities(piece.as_str())
}

/// Whether a byte is an ASCII letter, digit or `_`.
pub fn is_word(value: u8) -> (b: bool)
    ensures
        b == (('a' as u8 <= value <= 'z' as u8) || ('A' as u8 <= value <= 'Z' as u8) || ('0' as u8
            <= value <= '9' as u8) || value == '_' as u8),
{
    (97 <= value && value <= 122) || (65 <= value && value <= 90) || (48 <= value && value <= 57)
        || value == 95
}

/// The value with a `/` appended unless it already ends with one.
pub open spec fn with_trailing_slash(value: Seq<char>) -> Seq<char> {
    if value.len() > 0 && value.last() == '/' {
        value
    } else {
        value.push('/')
    }
}

/// Appending a trailing slash a second time changes nothing.
pub proof fn lemma_trailing_slash_idempotent(value: Seq<char>)
    ensures
        with_trailing_slash(with_trailing_slash(value)) == with_trailing_slash(value),
{
}

/// Append `/` unless the value already ends with one.
pub fn ensure_trailing_slash(value: &str) -> (out: String)
    ensures
        out@ == with_trailing_slash(value@),
{
    let chars = chars_of(value);
    let mut out = value.to_owned();
    if chars.len() > 0 && chars[chars.len() - 1] == '/' {
        out
    } else {
        out.append("/");
        proof {
            reveal_strlit("/");
        }
        out
    }
}

/// The tag around the first occurrence of `anchor`: from the last `<`
/// before it to the first `>` after it.
pub open spec fn tag_around(source: Seq<char>, anchor: Seq<char>) -> Option<Seq<char>> {
    match find_from(source, anchor, 0) {
        None => None,
        Some(pos) => match rfind_before(source, '<', pos) {
            None => None,
            Some(start) => match find_from(source, seq!['>'], pos) {
                None => None,
                Some(end) => Some(source.subrange(start, end + 1)),
            },
        },
    }
}

/// The tag around the first occurrence of `anchor`.
pub fn extract_tag_around(source: &str, anchor: &str) -> (tag: Option<String>)
    ensures
        opt_view(tag) == tag_around(source@, anchor@),
{
    let chars = chars_of(source);
    let needle = chars_of(anchor);
    proof {
        lemma_find_from(chars@, anchor@, 0);
    }
    let pos = match find_chars_from(&chars, &needle, 0) {
        Some(pos) => pos,
        None => return None,
    };
    assert(find_from(source@, anchor@, 0) == Some(pos as int));
    proof {
        lemma_rfind_before(chars@, '<', pos as int);
    }
    let start = match rfind_char_before(&chars, '<', pos) {
        Some(start) => start,
        None => return None,
    };
    let gt = vec!['>'];
    assert(gt@ =~= seq!['>']);
    proof {
        lemma_find_from(chars@, gt@, pos as int);
    }
    let end = match find_chars_from(&chars, &gt, pos) {
        Some(end) => end,
        None => return None,
    };
    Some(string_from_range(&chars, start, end + 1))
}

/// The first position at or after `from` of a character satisfying
/// `value_stop`.
fn first_value_stop(s: &Vec<char>, from: usize) -> (i: usize)
    requires
        from <= s@.len(),
    ensures
        i == first_index_from(s@, from as int, |c: char| value_stop(c)),
        from <= i <= s@.len(),
{
    let mut i = from;
    while i < s.len() && !(is_whitespace(s[i]) || s[i] == '>' || s[i] == '/')
        invariant
            from <= i <= s@.len(),
            first_index_from(s@, from as int, |c: char| value_stop(c)) == first_index_from(
                s@,
                i as int,
                |c: char| value_stop(c),
            ),
        decreases s@.len() - i,
    {
        i += 1;
    }
    i
}

/// The value of attribute `name` in a tag: the first `name=` that starts
/// the tag or follows whitespace, `<` or `/`, with its value quoted or
/// unquoted, entities decoded.
pub fn extract_attribute_value(tag: &str, name: &str) -> (value: Option<String>)
    ensures
        opt_view(value) == attribute_value(tag@, name@),
{
    let chars = chars_of(tag);
    let mut pattern = chars_of(name);
    pattern.push('=');
    let n = chars.len();
    let m = pattern.len();
    let mut search_from = 0usize;
    loop
        invariant
            chars@ == tag@,
            pattern@ == name@ + seq!['='],
            n == chars@.len(),
            m == pattern@.len(),
            m > 0,
            attribute_value(tag@, name@) == attr_search(chars@, pattern@, search_from as int),
        decreases n + 1 - search_from,
    {
        let position = match find_chars_from(&chars, &pattern, search_from) {
            Some(p) => p,
            None => return None,
        };
        proof {
            lemma_find_from(chars@, pattern@, search_from as int);
        }
        if position > 0 {
            let prefix = chars[position - 1];
            if !(prefix == ' ' || prefix == '\t' || prefix == '\n' || prefix == '\u{c}' || prefix
                == '\r' || prefix == '<' || prefix == '/') {
                search_from = position + m;
                continue;
            }
        }
        let value_start = position + m;
        let ghost rem = chars@.skip(value_start as int);
        if value_start >= n {
            return None;
        }
        let first = chars[value_start];
        assert(rem[0] == first);
        if first == '"' || first == '\'' {
            let quote = vec![first];
            assert(quote@ =~= seq![first]);
            proof {
                lemma_find_skip(chars@, seq![first], value_start as int, 1);
            }
            let end = match find_chars_from(&chars, &quote, value_start + 1) {
                Some(end) => end,
                None => return None,
            };
            proof {
                lemma_find_from(chars@, quote@, value_start + 1);
                assert(rem.subrange(1, end - value_start) =~= chars@.subrange(
                    value_start + 1,
                    end as int,
                ));
            }
            return Some(decode_range(&chars, value_start + 1, end));
        }
        let end = first_value_stop(&chars, value_start);
        proof {
            lemma_first_index_skip(chars@, value_start as int, 0, |c: char| value_stop(c));
            assert(rem.take(end - value_start) =~= chars@.subrange(value_start as int, end as int));
        }
        return Some(decode_range(&chars, value_start, end));
    }
}

/// The spans `[start, end)` of the tags that start with `open` at or after
/// `cursor`, each ending at the first `>` after its start; the list stops
/// at a tag without `>`.
pub open spec fn tag_spans(source: Seq<char>, open: Seq<char>, cursor: int) -> Seq<(int, int)>
    decreases source.len() + 1 - cursor,
{
    if cursor < 0 {
        seq![]
    } else {
        match find_from(source, open, cursor) {
            None => seq![],
            Some(start) => match find_from(source, seq!['>'], start) {
                None => seq![],
                Some(gt) => {
                    proof {
                        lemma_find_from(source, open, cursor);
                        lemma_find_from(source, seq!['>'], start);
                    }
                    seq![(start, gt + 1)] + tag_spans(source, open, gt + 1)
                },
            },
        }
    }
}

/// The texts of the spans.
pub open spec fn span_texts(source: Seq<char>, spans: Seq<(int, int)>) -> Seq<Seq<char>> {
    spans.map_values(|sp: (int, int)| source.subrange(sp.0, sp.1))
}

/// The `d` values of the tags that have one, in order.
pub open spec fn d_values(tags: Seq<Seq<char>>) -> Seq<Seq<char>>
    decreases tags.len(),
{
    if tags.len() == 0 {
        seq![]
    } else {
        let rest = d_values(tags.drop_last());
        match attribute_value(tags.last(), "d"@) {
            Some(v) => rest.push(v),
            None => rest,
        }
    }
}

/// The `d` values of the `<path` tags of an SVG text.
pub open spec fn path_d_values(svg: Seq<char>) -> Seq<Seq<char>> {
    d_values(span_texts(svg, tag_spans(svg, "<path"@, 0)))
}

/// The next tag starting with `open` at or after `cursor`: its span, when
/// it has a closing `>`.
fn next_tag(source: &Vec<char>, open: &Vec<char>, cursor: usize) -> (span: Option<(usize, usize)>)
    requires
        cursor <= source@.len(),
    ensures
        match span {
            Some((start, end)) => cursor <= start < end <= source@.len() && tag_spans(
                source@,
                open@,
                cursor as int,
            ) == seq![(start as int, end as int)] + tag_spans(source@, open@, end as int),
            None => tag_spans(source@, open@, cursor as int) == Seq::<(int, int)>::empty(),
        },
{
    proof {
        lemma_find_from(source@, open@, cursor as int);
    }
    let start = match find_chars_from(source, open, cursor) {
        Some(start) => start,
        None => return None,
    };
    let gt = vec!['>'];
    assert(gt@ =~= seq!['>']);
    proof {
        lemma_find_from(source@, gt@, start as int);
    }
    let n = source.len();
    match find_chars_from(source, &gt, start) {
        Some(end) => {
            assert(end + 1 <= n);
            Some((start, end + 1))
        },
        None => None,
    }
}

/// The `d` values of the `<path` tags of an SVG text, in order.
pub fn extract_path_d_values(svg: &str) -> (values: Vec<String>)
    ensures
        values@.map_values(|v: String| v@) == path_d_values(svg@),
{
    let chars = chars_of(svg);
    let open = chars_of("<path");
    let mut values: Vec<String> = Vec::new();
    let mut cursor = 0usize;
    let ghost mut seen: Seq<Seq<char>> = seq![];
    loop
        invariant
            chars@ == svg@,
            open@ == "<path"@,
            cursor <= chars@.len(),
            values@.map_values(|v: String| v@) == d_values(seen),
            span_texts(chars@, tag_spans(chars@, open@, 0)) == seen + span_texts(
                chars@,
                tag_spans(chars@, open@, cursor as int),
            ),
        decreases chars@.len() + 1 - cursor,
    {
        let (start, end) = match next_tag(&chars, &open, cursor) {
            Some(span) => span,
            None => {
                assert(seen =~= seen + span_texts(chars@, Seq::<(int, int)>::empty()));
                return values;
            },
        };
        let tag = string_from_range(&chars, start, end);
        let ghost rest_spans = tag_spans(chars@, open@, end as int);
        assert(span_texts(chars@, seq![(start as int, end as int)] + rest_spans) =~= seq![tag@]
            + span_texts(chars@, rest_spans));
        let ghost before = values@.map_values(|v: String| v@);
        match extract_attribute_value(tag.as_str(), "d") {
            Some(v) => {
                values.push(v);
                assert(values@.map_values(|v: String| v@) =~= before.push(v@));
            },
            None => {
                assert(values@.map_values(|v: String| v@) =~= before);
            },
        }
        proof {
            assert((seen.push(tag@)).drop_last() =~= seen);
            assert(seen + (seq![tag@] + span_texts(chars@, rest_spans)) =~= seen.push(tag@)
                + span_texts(chars@, rest_spans));
            seen = seen.push(tag@);
        }
        cursor = end;
    }
}

/// The `(name, value)` pairs of the tags that have both attributes.
pub open spec fn input_pairs(tags: Seq<Seq<char>>) -> Seq<(Seq<char>, Seq<char>)>
    decreases tags.len(),
{
    if tags.len() == 0 {
        seq![]
    } else {
        let rest = input_pairs(tags.drop_last());
        match (attribute_value(tags.last(), "name"@), attribute_value(tags.last(), "value"@)) {
            (Some(name), Some(value)) => rest.push((name, value)),
            _ => rest,
        }
    }
}

/// The named and valued `<input` fields of a form body.
pub open spec fn input_fields(body: Seq<char>) -> Seq<(Seq<char>, Seq<char>)> {
    input_pairs(span_texts(body, tag_spans(body, "<input"@, 0)))
}

/// The named and valued `<input` fields of a form body, in order.
pub fn extract_input_fields(form_body: &str) -> (fields: Vec<(String, String)>)
    ensures
        fields.deep_view() == input_fields(form_body@),
{
    let chars = chars_of(form_body);
    let open = chars_of("<input");
    let mut fields: Vec<(String, String)> = Vec::new();
    let mut cursor = 0usize;
    let ghost mut seen: Seq<Seq<char>> = seq![];
    assert(fields.deep_view() =~= input_pairs(seen));
    loop
        invariant
            chars@ == form_body@,
            open@ == "<input"@,
            cursor <= chars@.len(),
            fields.deep_view() == input_pairs(seen),
            span_texts(chars@, tag_spans(chars@, open@, 0)) == seen + span_texts(
                chars@,
                tag_spans(chars@, open@, cursor as int),
            ),
        decreases chars@.len() + 1 - cursor,
    {
        let (start, end) = match next_tag(&chars, &open, cursor) {
            Some(span) => span,
            None => {
                assert(seen =~= seen + span_texts(chars@, Seq::<(int, int)>::empty()));
                return fields;
            },
        };
        let tag = string_from_range(&chars, start, end);
        let ghost rest_spans = tag_spans(chars@, open@, end as int);
        assert(span_texts(chars@, seq![(start as int, end as int)] + rest_spans) =~= seq![tag@]
            + span_texts(chars@, rest_spans));
        let ghost before = fields.deep_view();
        let name = extract_attribute_value(tag.as_str(), "name");
        let value = extract_attribute_value(tag.as_str(), "value");
        match (name, value) {
            (Some(name), Some(value)) => {
                let ghost item = (name@, value@);
                fields.push((name, value));
                assert(fields.deep_view() =~= before.push(item));
            },
            _ => {},
        }
        proof {
            assert((seen.push(tag@)).drop_last() =~= seen);
            assert(seen + (seq![tag@] + span_texts(chars@, rest_spans)) =~= seen.push(tag@)
                + span_texts(chars@, rest_spans));
            seen = seen.push(tag@);
        }
        cursor = end;
    }
}

/// The form that moves a session between `twitter.com` and `x.com`.
#[derive(Debug, Clone, PartialEq, Eq)]
pub struct MigrationForm {
    /// Where the form is sent.
    pub action: String,
    /// The HTTP method.
    pub method: String,
    /// The named and valued input fields, in order.
    pub fields: Vec<(String, String)>,
}

impl MigrationForm {
    /// The form as plain values: action, method and fields.
    pub open spec fn parts(&self) -> (Seq<char>, Seq<char>, Seq<(Seq<char>, Seq<char>)>) {
        (self.action@, self.method@, self.fields.deep_view())
    }
}

/// Whether a form tag is the migration form: named `f`, or with an action
/// that holds `/migrate`.
pub open spec fn is_migration_tag(tag: Seq<char>) -> bool {
    attribute_value(tag, "name"@) == Some("f"@) || match attribute_value(tag, "action"@) {
        Some(action) => crate::text::contains_text(action, "/migrate"@),
        None => false,
    }
}

/// The migration form among the given `<form` tags: the first migration
/// tag, with the inputs up to its `</form>` (none when that is missing).
pub open spec fn migration_form_in(source: Seq<char>, spans: Seq<(int, int)>) -> Option<
    (Seq<char>, Seq<char>, Seq<(Seq<char>, Seq<char>)>),
>
    decreases spans.len(),
{
    if spans.len() == 0 {
        None
    } else {
        let tag = source.subrange(spans[0].0, spans[0].1);
        if is_migration_tag(tag) {
            match find_from(source, "</form>"@, spans[0].1) {
                None => None,
                Some(close) => Some(
                    (
                        match attribute_value(tag, "action"@) {
                            Some(a) => a,
                            None => "https://x.com/x/migrate"@,
                        },
                        match attribute_value(tag, "method"@) {
                            Some(m) => m,
                            None => "POST"@,
                        },
                        input_fields(source.subrange(spans[0].1, close)),
                    ),
                ),
            }
        } else {
            migration_form_in(source, spans.drop_first())
        }
    }
}

/// The migration form of a page.
pub open spec fn migration_form_of(source: Seq<char>) -> Option<
    (Seq<char>, Seq<char>, Seq<(Seq<char>, Seq<char>)>),
> {
    migration_form_in(source, tag_spans(source, "<form"@, 0))
}

/// The form parts of an optional form.
pub open spec fn form_view(form: Option<MigrationForm>) -> Option<
    (Seq<char>, Seq<char>, Seq<(Seq<char>, Seq<char>)>),
> {
    match form {
        Some(f) => Some(f.parts()),
        None => None,
    }
}

/// The migration form of a page: the first `<form` tag named `f` or whose
/// action holds `/migrate`, with its action (by default
/// `https://x.com/x/migrate`), method (by default `POST`) and input fields.
pub fn extract_migration_form(source: &str) -> (form: Option<MigrationForm>)
    ensures
        form_view(form) == migration_form_of(source@),
{
    let chars = chars_of(source);
    let open = chars_of("<form");
    let close_tag = chars_of("</form>");
    let mut cursor = 0usize;
    loop
        invariant
            chars@ == source@,
            open@ == "<form"@,
            close_tag@ == "</form>"@,
            cursor <= chars@.len(),
            migration_form_of(source@) == migration_form_in(
                chars@,
                tag_spans(chars@, open@, cursor as int),
            ),
        decreases chars@.len() + 1 - cursor,
    {
        let (start, end) = match next_tag(&chars, &open, cursor) {
            Some(span) => span,
            None => return None,
        };
        let ghost spans = tag_spans(chars@, open@, cursor as int);
        assert(spans[0] == (start as int, end as int));
        assert(spans.drop_first() =~= tag_spans(chars@, open@, end as int));
        let tag = string_from_range(&chars, start, end);
        let name = extract_attribute_value(tag.as_str(), "name");
        let action = extract_attribute_value(tag.as_str(), "action");
        let is_named_f = match &name {
            Some(n) => crate::text::string_eq_str(n, "f"),
            None => false,
        };
        let has_migrate = match &action {
            Some(a) => crate::text::chars_contain(&chars_of(a.as_str()), &chars_of("/migrate")),
            None => false,
        };
        if is_named_f || has_migrate {
            proof {
                lemma_find_from(chars@, close_tag@, end as int);
            }
            let close = match find_chars_from(&chars, &close_tag, end) {
                Some(close) => close,
                None => return None,
            };
            let body = string_from_range(&chars, end, close);
            let fields = extract_input_fields(body.as_str());
            let action = match action {
                Some(a) => a,
                None => "https://x.com/x/migrate".to_owned(),
            };
            let method = match extract_attribute_value(tag.as_str(), "method") {
                Some(m) => m,
                None => "POST".to_owned(),
            };
            return Some(MigrationForm { action, method, fields });
        }
        cursor = end;
    }
}

/// A character that ends a URL in page text.
pub open spec fn url_stop(c: char) -> bool {
    c == '"' || c == '\'' || c == '<' || c == '>' || is_unicode_whitespace(c)
}

/// Whether a URL is a migration URL: on `x.com` or `twitter.com`, holding
/// `migrate` and `tok=`.
pub open spec fn is_migration_url(url: Seq<char>) -> bool {
    (crate::text::contains_text(url, "x.com"@) || crate::text::contains_text(url, "twitter.com"@))
        && crate::text::contains_text(url, "migrate"@) && crate::text::contains_text(url, "tok="@)
}

/// The first migration URL starting with `http` at or after `from`, each
/// candidate running to a quote, `<`, `>` or whitespace, entities decoded.
pub open spec fn redirect_url_from(source: Seq<char>, from: int) -> Option<Seq<char>>
    decreases source.len() + 1 - from,
{
    if from < 0 {
        None
    } else {
        match find_from(source, "http"@, from) {
            None => None,
            Some(start) => {
                proof {
                    lemma_find_from(source, "http"@, from);
                    reveal_strlit("http");
                }
                let rem = source.skip(start);
                let candidate = decode_entities(rem.take(first_index_from(rem, 0, |c: char| url_stop(c))));
                if is_migration_url(candidate) {
                    Some(candidate)
                } else {
                    redirect_url_from(source, start + 4)
                }
            },
        }
    }
}

/// The first position at or after `from` of a character satisfying
/// `url_stop`.
fn first_url_stop(s: &Vec<char>, from: usize) -> (i: usize)
    requires
        from <= s@.len(),
    ensures
        i == first_index_from(s@, from as int, |c: char| url_stop(c)),
        from <= i <= s@.len(),
{
    let mut i = from;
    while i < s.len() && !(s[i] == '"' || s[i] == '\'' || s[i] == '<' || s[i] == '>' || is_whitespace(s[i]))
        invariant
            from <= i <= s@.len(),
            first_index_from(s@, from as int, |c: char| url_stop(c)) == first_index_from(
                s@,
                i as int,
                |c: char| url_stop(c),
            ),
        decreases s@.len() - i,
    {
        i += 1;
    }
    i
}

/// The migration redirect URL of a page, if it holds one.
pub fn extract_migration_redirect_url(source: &str) -> (url: Option<String>)
    ensures
        opt_view(url) == redirect_url_from(source@, 0),
{
    let chars = chars_of(source);
    let http = chars_of("http");
    let x_com = chars_of("x.com");
    let twitter_com = chars_of("twitter.com");
    let migrate = chars_of("migrate");
    let tok = chars_of("tok=");
    let mut search_from = 0usize;
    proof {
        reveal_strlit("http");
    }
    loop
        invariant
            chars@ == source@,
            http@ == "http"@,
            x_com@ == "x.com"@,
            twitter_com@ == "twitter.com"@,
            migrate@ == "migrate"@,
            tok@ == "tok="@,
            http@.len() == 4,
            search_from <= chars@.len() + 4,
            redirect_url_from(source@, 0) == redirect_url_from(chars@, search_from as int),
        decreases chars@.len() + 5 - search_from,
    {
        proof {
            lemma_find_from(chars@, http@, search_from as int);
        }
        if search_from > chars.len() {
            return None;
        }
        let start = match find_chars_from(&chars, &http, search_from) {
            Some(start) => start,
            None => return None,
        };
        let end = first_url_stop(&chars, start);
        proof {
            lemma_first_index_skip(chars@, start as int, 0, |c: char| url_stop(c));
            assert(chars@.skip(start as int).take(end - start) =~= chars@.subrange(
                start as int,
                end as int,
            ));
        }
        let candidate = decode_range(&chars, start, end);
        let text = chars_of(candidate.as_str());
        if (crate::text::chars_contain(&text, &x_com) || crate::text::chars_contain(&text, &twitter_com))
            && crate::text::chars_contain(&text, &migrate) && crate::text::chars_contain(&text, &tok) {
            return Some(candidate);
        }
        search_from = start + 4;
    }
}

/// The quoted JavaScript string after the first `prefix`: skipping
/// whitespace, a `"` or `'` opens it and the next same quote closes it.
pub open spec fn js_string_after(source: Seq<char>, prefix: Seq<char>) -> Option<Seq<char>> {
    match find_from(source, prefix, 0) {
        None => None,
        Some(p) => {
            let start = p + prefix.len();
            let q = start + trim_start_index(source.skip(start));
            if q >= source.len() || !(source[q] == '"' || source[q] == '\'') {
                None
            } else {
                match find_from(source, seq![source[q]], q + 1) {
                    None => None,
                    Some(end) => Some(source.subrange(q + 1, end)),
                }
            }
        },
    }
}

/// The first position at or after `from` that is not whitespace.
fn skip_whitespace(s: &Vec<char>, from: usize) -> (i: usize)
    requires
        from <= s@.len(),
    ensures
        i == from + trim_start_index(s@.skip(from as int)),
        from <= i <= s@.len(),
{
    let mut i = from;
    while i < s.len() && is_whitespace(s[i])
        invariant
            from <= i <= s@.len(),
            trim_start_index(s@.skip(from as int)) == (i - from) + trim_start_index(
                s@.skip(i as int),
            ),
        decreases s@.len() - i,
    {
        assert(s@.skip(i as int).drop_first() =~= s@.skip(i + 1));
        i += 1;
    }
    proof {
        if i == s@.len() {
            assert(s@.skip(i as int).len() == 0);
        } else {
            assert(s@.skip(i as int)[0] == s@[i as int]);
        }
    }
    i
}

/// The quoted JavaScript string after the first `prefix`.
pub fn extract_js_string_after(source: &str, prefix: &str) -> (value: Option<String>)
    ensures
        opt_view(value) == js_string_after(source@, prefix@),
{
    let chars = chars_of(source);
    let pat = chars_of(prefix);
    proof {
        lemma_find_from(chars@, pat@, 0);
    }
    let p = match find_chars_from(&chars, &pat, 0) {
        Some(p) => p,
        None => return None,
    };
    let start = p + pat.len();
    let q = skip_whitespace(&chars, start);
    if q >= chars.len() || !(chars[q] == '"' || chars[q] == '\'') {
        return None;
    }
    let quote = vec![chars[q]];
    assert(quote@ =~= seq![chars@[q as int]]);
    proof {
        lemma_find_from(chars@, quote@, q + 1);
    }
    let end = match find_chars_from(&chars, &quote, q + 1) {
        Some(end) => end,
        None => return None,
    };
    Some(string_from_range(&chars, q + 1, end))
}

/// Whether a character is an ASCII digit.
pub open spec fn is_digit(c: char) -> bool {
    '0' <= c <= '9'
}

/// The start of the run of digits that ends at `end`.
pub open spec fn digits_start(s: Seq<char>, end: int) -> int
    decreases end,
{
    if end <= 0 || !is_digit(s[end - 1]) {
        end
    } else {
        digits_start(s, end - 1)
    }
}

/// The chunk id before `position`: the digits just before the last `:`
/// ahead of it.
pub open spec fn chunk_id_before(source: Seq<char>, position: int) -> Option<Seq<char>> {
    match rfind_before(source, ':', position) {
        None => None,
        Some(colon) => {
            let start = digits_start(source, colon);
            if start < colon {
                Some(source.subrange(start, colon))
            } else {
                None
            }
        },
    }
}

/// The chunk id before a position of the runtime script.
pub fn extract_chunk_id_before(source: &str, position: usize) -> (id: Option<String>)
    requires
        position <= source@.len(),
    ensures
        opt_view(id) == chunk_id_before(source@, position as int),
{
    let chars = chars_of(source);
    proof {
        lemma_rfind_before(chars@, ':', position as int);
    }
    let colon = match rfind_char_before(&chars, ':', position) {
        Some(colon) => colon,
        None => return None,
    };
    let mut start = colon;
    while start > 0 && '0' <= chars[start - 1] && chars[start - 1] <= '9'
        invariant
            start <= colon < chars@.len(),
            digits_start(chars@, colon as int) == digits_start(chars@, start as int),
        decreases start,
    {
        start -= 1;
    }
    if start < colon {
        Some(string_from_range(&chars, start, colon))
    } else {
        None
    }
}

/// The text after `id:` and a quote, up to the next same quote, searching
/// from `position`; `None` when the pattern is found but not closed.
pub open spec fn quoted_after(source: Seq<char>, position: int, pattern: Seq<char>, quote: char) -> Option<
    Option<Seq<char>>,
> {
    match find_from(source, pattern, position) {
        None => None,
        Some(p) => Some(
            match find_from(source, seq![quote], p + pattern.len()) {
                None => None,
                Some(end) => Some(source.subrange(p + pattern.len(), end)),
            },
        ),
    }
}

/// The hash of chunk `id` after `position`: the value after `id:"`, or
/// after `id:'` when the first form does not occur.
pub open spec fn chunk_hash_after(source: Seq<char>, position: int, id: Seq<char>) -> Option<
    Seq<char>,
> {
    match quoted_after(source, position, id + seq![':', '"'], '"') {
        Some(found) => found,
        None => match quoted_after(source, position, id + seq![':', '\''], '\'') {
            Some(found) => found,
            None => None,
        },
    }
}

fn quoted_value_after(chars: &Vec<char>, position: usize, id: &str, quote: char) -> (found: Option<
    Option<String>,
>)
    requires
        position <= chars@.len(),
    ensures
        match found {
            Some(v) => quoted_after(chars@, position as int, id@ + seq![':', quote], quote) == Some(
                opt_view(v),
            ),
            None => quoted_after(chars@, position as int, id@ + seq![':', quote], quote) is None,
        },
{
    let mut pattern = chars_of(id);
    pattern.push(':');
    pattern.push(quote);
    assert(pattern@ =~= id@ + seq![':', quote]);
    proof {
        lemma_find_from(chars@, pattern@, position as int);
    }
    let n = chars.len();
    let p = match find_chars_from(chars, &pattern, position) {
        Some(p) => p,
        None => return None,
    };
    assert(p + pattern@.len() <= n);
    let start = p + pattern.len();
    let q = vec![quote];
    assert(q@ =~= seq![quote]);
    proof {
        lemma_find_from(chars@, q@, start as int);
    }
    match find_chars_from(chars, &q, start) {
        Some(end) => Some(Some(string_from_range(chars, start, end))),
        None => Some(None),
    }
}

/// The hash of a chunk in the runtime script.
pub fn extract_chunk_hash_after(source: &str, position: usize, chunk_id: &str) -> (hash: Option<
    String,
>)
    requires
        position <= source@.len(),
    ensures
        opt_view(hash) == chunk_hash_after(source@, position as int, chunk_id@),
{
    let chars = chars_of(source);
    match quoted_value_after(&chars, position, chunk_id, '"') {
        Some(found) => return found,
        None => {},
    }
    match quoted_value_after(&chars, position, chunk_id, '\'') {
        Some(found) => found,
        None => None,
    }
}

/// Where the client scripts live when the runtime does not say.
pub const DEFAULT_ASSET_BASE_URL: &'static str = "https://abs.twimg.com/responsive-web/client-web/";

/// The name of the chunk that holds the key byte indices.
pub const ON_DEMAND_CHUNK_NAME: &'static str = "ondemand.s";

/// The URL of the `ondemand.s` chunk with the given hash: under the base
/// URL the runtime assigns to `g.p` (or the default one).
pub open spec fn ondemand_url(runtime: Seq<char>, hash: Seq<char>) -> Seq<char> {
    with_trailing_slash(
        match js_string_after(runtime, "g.p="@) {
            Some(base) => base,
            None => DEFAULT_ASSET_BASE_URL@,
        },
    ) + ON_DEMAND_CHUNK_NAME@ + "."@ + hash + "a.js"@
}

/// The `ondemand.s` chunk URL named at or after `from`: the first mention
/// with a chunk id before it and that chunk's hash after it.
pub open spec fn ondemand_from(runtime: Seq<char>, from: int) -> Option<Seq<char>>
    decreases runtime.len() + 1 - from,
{
    if from < 0 {
        None
    } else {
        match find_from(runtime, ON_DEMAND_CHUNK_NAME@, from) {
            None => None,
            Some(pos) => {
                proof {
                    lemma_find_from(runtime, ON_DEMAND_CHUNK_NAME@, from);
                    reveal_strlit("ondemand.s");
                }
                match chunk_id_before(runtime, pos) {
                    Some(id) => match chunk_hash_after(runtime, pos, id) {
                        Some(hash) => Some(ondemand_url(runtime, hash)),
                        None => ondemand_from(runtime, pos + ON_DEMAND_CHUNK_NAME@.len()),
                    },
                    None => ondemand_from(runtime, pos + ON_DEMAND_CHUNK_NAME@.len()),
                }
            },
        }
    }
}

/// The URL of the `ondemand.s` chunk that a runtime script names.
pub fn resolve_ondemand_file_url_from_runtime(runtime: &str) -> (url: Option<String>)
    ensures
        opt_view(url) == ondemand_from(runtime@, 0),
{
    let chars = chars_of(runtime);
    let name = chars_of(ON_DEMAND_CHUNK_NAME);
    proof {
        reveal_strlit("ondemand.s");
    }
    let mut search_from = 0usize;
    loop
        invariant
            chars@ == runtime@,
            name@ == ON_DEMAND_CHUNK_NAME@,
            name@.len() == 10,
            search_from <= chars@.len() + 10,
            ondemand_from(runtime@, 0) == ondemand_from(chars@, search_from as int),
        decreases chars@.len() + 11 - search_from,
    {
        proof {
            lemma_find_from(chars@, name@, search_from as int);
        }
        if search_from > chars.len() {
            return None;
        }
        let position = match find_chars_from(&chars, &name, search_from) {
            Some(p) => p,
            None => return None,
        };
        match extract_chunk_id_before(runtime, position) {
            Some(chunk_id) => match extract_chunk_hash_after(runtime, position, chunk_id.as_str()) {
                Some(hash) => {
                    let base = match extract_js_string_after(runtime, "g.p=") {
                        Some(base) => base,
                        None => DEFAULT_ASSET_BASE_URL.to_owned(),
                    };
                    let mut url = ensure_trailing_slash(base.as_str());
                    url.append(ON_DEMAND_CHUNK_NAME);
                    url.append(".");
                    url.append(hash.as_str());
                    url.append("a.js");
                    return Some(url);
                },
                None => {},
            },
            None => {},
        }
        search_from = position + name.len();
    }
}

/// The `d` value of the second `<path` of each SVG that holds a
/// `loading-x-anim-` marker, from `cursor` on: each SVG runs from the last
/// `<svg` before the marker to the first `</svg>` after it.
pub open spec fn frames_from(html: Seq<char>, cursor: int) -> Seq<Seq<char>>
    decreases html.len() + 1 - cursor,
{
    if cursor < 0 {
        seq![]
    } else {
        match find_from(html, "loading-x-anim-"@, cursor) {
            None => seq![],
            Some(anchor) => match rfind_text_before(html, "<svg"@, anchor) {
                None => seq![],
                Some(svg_start) => match find_from(html, "</svg>"@, anchor) {
                    None => seq![],
                    Some(close) => {
                        proof {
                            lemma_find_from(html, "</svg>"@, anchor);
                            lemma_find_from(html, "loading-x-anim-"@, cursor);
                            lemma_rfind_text_before(html, "<svg"@, anchor);
                            reveal_strlit("</svg>");
                        }
                        let svg_end = close + 6;
                        let values = path_d_values(html.subrange(svg_start, svg_end));
                        let rest = frames_from(html, svg_end);
                        if values.len() >= 2 {
                            seq![values[1]] + rest
                        } else {
                            rest
                        }
                    },
                },
            },
        }
    }
}

/// The `<script>` bodies from `cursor` on that mention `ondemand.s`: the
/// chunk URL that the first of them resolving one names.
pub open spec fn ondemand_in_scripts(html: Seq<char>, cursor: int) -> Option<Seq<char>>
    decreases html.len() + 1 - cursor,
{
    if cursor < 0 {
        None
    } else {
        match find_from(html, "<script"@, cursor) {
            None => None,
            Some(tag_start) => match find_from(html, seq!['>'], tag_start) {
                None => None,
                Some(open_end) => match find_from(html, "</script>"@, open_end + 1) {
                    None => None,
                    Some(content_end) => {
                        proof {
                            lemma_find_from(html, "<script"@, cursor);
                            lemma_find_from(html, seq!['>'], tag_start);
                            lemma_find_from(html, "</script>"@, open_end + 1);
                            reveal_strlit("</script>");
                        }
                        let script = html.subrange(open_end + 1, content_end);
                        if crate::text::contains_text(script, ON_DEMAND_CHUNK_NAME@) && ondemand_from(
                            script,
                            0,
                        ) is Some {
                            ondemand_from(script, 0)
                        } else {
                            ondemand_in_scripts(html, content_end + 9)
                        }
                    },
                },
            },
        }
    }
}

/// The `ondemand.s` chunk URL of a home page: from its scripts, else from
/// the whole page.
pub open spec fn home_ondemand_url(html: Seq<char>) -> Option<Seq<char>> {
    match ondemand_in_scripts(html, 0) {
        Some(url) => Some(url),
        None => ondemand_from(html, 0),
    }
}

/// The site verification key of a home page: the `content` of the tag
/// around `twitter-site-verification`; or the message of the error.
pub open spec fn site_key_of(html: Seq<char>) -> Result<Seq<char>, Seq<char>> {
    match tag_around(html, "twitter-site-verification"@) {
        None => Err("twitter homepage did not contain `twitter-site-verification`"@),
        Some(tag) => match attribute_value(tag, "content"@) {
            None => Err(
                "twitter homepage `twitter-site-verification` tag did not contain `content`"@,
            ),
            Some(key) => Ok(key),
        },
    }
}

/// The X home page.
#[derive(Debug, Clone)]
pub struct TwitterHomePage {
    html: String,
}

impl TwitterHomePage {
    /// The page's HTML.
    pub closed spec fn html(&self) -> Seq<char> {
        self.html@
    }

    /// A page with the given HTML.
    pub fn new(html: String) -> (page: Self)
        ensures
            page.html() == html@,
    {
        TwitterHomePage { html }
    }

    /// The site verification key (`content` of the
    /// `twitter-site-verification` tag).
    pub fn site_verification_key(&self) -> (res: Result<String, AppError>)
        ensures
            match site_key_of(self.html()) {
                Ok(key) => res matches Ok(k) && k@ == key,
                Err(message) => res matches Err(e) && e.upstream_message() == Some(message),
            },
    {
        let tag = match extract_tag_around(self.html.as_str(), "twitter-site-verification") {
            Some(tag) => tag,
            None => {
                return Err(
                    upstream_error(
                        "twitter homepage did not contain `twitter-site-verification`".to_owned(),
                    ),
                )
            },
        };
        match extract_attribute_value(tag.as_str(), "content") {
            Some(key) => Ok(key),
            None => Err(
                upstream_error(
                    "twitter homepage `twitter-site-verification` tag did not contain `content`".to_owned(),
                ),
            ),
        }
    }

    /// The URL of the `ondemand.s` chunk named by the page's runtime.
    pub fn resolve_ondemand_file_url(&self) -> (res: Result<String, AppError>)
        ensures
            match home_ondemand_url(self.html()) {
                Some(url) => res matches Ok(u) && u@ == url,
                None => res matches Err(e) && e.upstream_message() == Some(
                    "twitter homepage runtime did not expose the current ondemand chunk url"@,
                ),
            },
    {
        let chars = chars_of(self.html.as_str());
        let script_open = chars_of("<script");
        let script_close = chars_of("</script>");
        let gt = vec!['>'];
        assert(gt@ =~= seq!['>']);
        proof {
            reveal_strlit("</script>");
        }
        let n = chars.len();
        let mut cursor = 0usize;
        loop
            invariant
                n == chars@.len(),
                chars@ == self.html(),
                script_open@ == "<script"@,
                script_close@ == "</script>"@,
                script_close@.len() == 9,
                gt@ == seq!['>'],
                cursor <= chars@.len(),
                ondemand_in_scripts(self.html(), 0) == ondemand_in_scripts(chars@, cursor as int),
            ensures
                ondemand_in_scripts(self.html(), 0) is None,
            decreases chars@.len() + 1 - cursor,
        {
            proof {
                lemma_find_from(chars@, script_open@, cursor as int);
            }
            let tag_start = match find_chars_from(&chars, &script_open, cursor) {
                Some(t) => t,
                None => break,
            };
            proof {
                lemma_find_from(chars@, gt@, tag_start as int);
            }
            let open_end = match find_chars_from(&chars, &gt, tag_start) {
                Some(o) => o,
                None => break,
            };
            let content_start = open_end + 1;
            proof {
                lemma_find_from(chars@, script_close@, content_start as int);
            }
            let content_end = match find_chars_from(&chars, &script_close, content_start) {
                Some(c) => c,
                None => break,
            };
            assert(content_end + 9 <= n);
            let script = string_from_range(&chars, content_start, content_end);
            if crate::text::chars_contain(&chars_of(script.as_str()), &chars_of(ON_DEMAND_CHUNK_NAME)) {
                match resolve_ondemand_file_url_from_runtime(script.as_str()) {
                    Some(url) => return Ok(url),
                    None => {},
                }
            }
            cursor = content_end + 9;
        }
        match resolve_ondemand_file_url_from_runtime(self.html.as_str()) {
            Some(url) => Ok(url),
            None => Err(
                upstream_error(
                    "twitter homepage runtime did not expose the current ondemand chunk url".to_owned(),
                ),
            ),
        }
    }

    /// The path data of the four loading-animation frames (at least four).
    pub fn frame_paths(&self) -> (res: Result<Vec<String>, AppError>)
        ensures
            ({
                let frames = frames_from(self.html(), 0);
                if frames.len() >= 4 {
                    res matches Ok(f) && f@.map_values(|v: String| v@) == frames
                } else {
                    res matches Err(e) && e.upstream_message() == Some(
                        "twitter homepage did not expose 4 loading animation frames, got "@
                            + crate::text::decimal(frames.len()),
                    )
                }
            }),
    {
        let chars = chars_of(self.html.as_str());
        let marker = chars_of("loading-x-anim-");
        let svg_open = chars_of("<svg");
        let svg_close = chars_of("</svg>");
        proof {
            reveal_strlit("</svg>");
        }
        let n = chars.len();
        let mut frames: Vec<String> = Vec::new();
        let mut cursor = 0usize;
        let ghost mut seen: Seq<Seq<char>> = seq![];
        loop
            invariant
                n == chars@.len(),
                chars@ == self.html(),
                marker@ == "loading-x-anim-"@,
                svg_open@ == "<svg"@,
                svg_close@ == "</svg>"@,
                svg_close@.len() == 6,
                cursor <= chars@.len(),
                frames@.map_values(|v: String| v@) == seen,
                frames_from(self.html(), 0) == seen + frames_from(chars@, cursor as int),
            ensures
                frames@.map_values(|v: String| v@) == frames_from(self.html(), 0),
            decreases chars@.len() + 1 - cursor,
        {
            proof {
                lemma_find_from(chars@, marker@, cursor as int);
            }
            let anchor = match find_chars_from(&chars, &marker, cursor) {
                Some(a) => a,
                None => {
                    assert(seen + Seq::<Seq<char>>::empty() =~= seen);
                    break;
                },
            };
            proof {
                lemma_rfind_text_before(chars@, svg_open@, anchor as int);
            }
            let svg_start = match rfind_chars_before(&chars, &svg_open, anchor) {
                Some(s) => s,
                None => {
                    assert(seen + Seq::<Seq<char>>::empty() =~= seen);
                    break;
                },
            };
            proof {
                lemma_find_from(chars@, svg_close@, anchor as int);
            }
            let close = match find_chars_from(&chars, &svg_close, anchor) {
                Some(c) => c,
                None => {
                    assert(seen + Seq::<Seq<char>>::empty() =~= seen);
                    break;
                },
            };
            assert(close + 6 <= n);
            let svg_end = close + 6;
            let svg = string_from_range(&chars, svg_start, svg_end);
            let values = extract_path_d_values(svg.as_str());
            let ghost rest = frames_from(chars@, svg_end as int);
            if values.len() >= 2 {
                let ghost before = frames@.map_values(|v: String| v@);
                assert(values@.map_values(|v: String| v@)[1] == values@[1]@);
                let second = values[1].clone();
                frames.push(second);
                proof {
                    assert(frames@.map_values(|v: String| v@) =~= before.push(values@[1]@));
                    assert(seen + (seq![values@[1]@] + rest) =~= seen.push(values@[1]@) + rest);
                    seen = seen.push(values@[1]@);
                }
            }
            cursor = svg_end;
        }
        if frames.len() < 4 {
            let mut message = "twitter homepage did not expose 4 loading animation frames, got ".to_owned();
            let count = crate::text::u64_to_decimal(frames.len() as u64);
            message.append(count.as_str());
            return Err(upstream_error(message));
        }
        Ok(frames)
    }

    /// The migration redirect URL of the page, if any.
    pub fn migration_redirect_url(&self) -> (url: Option<String>)
        ensures
            opt_view(url) == redirect_url_from(self.html(), 0),
    {
        extract_migration_redirect_url(self.html.as_str())
    }

    /// The migration form of the page, if any.
    pub fn migration_form(&self) -> (form: Option<MigrationForm>)
        ensures
            form_view(form) == migration_form_of(self.html()),
    {
        extract_migration_form(self.html.as_str())
    }
}

/// `u8::is_ascii_digit`.
pub open spec fn digit_byte(b: u8) -> bool {
    48 <= b <= 57
}

/// `u8::is_ascii_whitespace`.
pub open spec fn space_byte(b: u8) -> bool {
    b == 32 || b == 9 || b == 10 || b == 12 || b == 13
}

/// An ASCII letter, digit or `_`.
pub open spec fn word_byte(b: u8) -> bool {
    (97 <= b <= 122) || (65 <= b <= 90) || (48 <= b <= 57) || b == 95
}

/// The first position at or after `i` whose byte is not a digit.
pub open spec fn digits_end(b: Seq<u8>, i: int) -> int
    decreases b.len() - i,
{
    if i < 0 || i >= b.len() || !digit_byte(b[i]) {
        i
    } else {
        digits_end(b, i + 1)
    }
}

/// The first position at or after `i` whose byte is not whitespace.
pub open spec fn spaces_end(b: Seq<u8>, i: int) -> int
    decreases b.len() - i,
{
    if i < 0 || i >= b.len() || !space_byte(b[i]) {
        i
    } else {
        spaces_end(b, i + 1)
    }
}

/// The number written by the digit bytes `b[from..to]`.
pub open spec fn bytes_value(b: Seq<u8>, from: int, to: int) -> nat
    decreases to - from,
{
    if to <= from {
        0
    } else {
        bytes_value(b, from, to - 1) * 10 + (b[to - 1] - 48) as nat
    }
}

/// The index that a call `(w[N], 16)` at `cursor` names: a word byte in
/// parentheses-call form indexed by decimal `N` (spaces allowed around
/// `16`), when `N` fits in `usize`.
pub open spec fn key_index_at(b: Seq<u8>, cursor: int) -> Option<usize> {
    let ds = cursor + 3;
    let de = digits_end(b, ds);
    let comma = de + 1;
    let sixteen = spaces_end(b, comma + 1);
    let close = spaces_end(b, sixteen + 2);
    if 0 <= cursor && cursor + 2 < b.len() && b[cursor] == 40 && word_byte(b[cursor + 1])
        && b[cursor + 2] == 91 && de > ds && de < b.len() && b[de] == 93 && comma < b.len()
        && b[comma] == 44 && sixteen + 1 < b.len() && b[sixteen] == 49 && b[sixteen + 1] == 54
        && close < b.len() && b[close] == 41 && bytes_value(b, ds, de) <= usize::MAX {
        Some(bytes_value(b, ds, de) as usize)
    } else {
        None
    }
}

/// The indices named by the calls at positions `cursor` and after, while
/// eight bytes remain.
pub open spec fn key_indices_from(b: Seq<u8>, cursor: int) -> Seq<usize>
    decreases b.len() - cursor,
{
    if cursor < 0 || cursor + 7 >= b.len() {
        seq![]
    } else {
        let rest = key_indices_from(b, cursor + 1);
        match key_index_at(b, cursor) {
            Some(v) => seq![v] + rest,
            None => rest,
        }
    }
}

fn digits_end_exec(b: &[u8], i: usize) -> (e: usize)
    requires
        i <= b@.len(),
    ensures
        e == digits_end(b@, i as int),
        i <= e <= b@.len(),
{
    let mut e = i;
    while e < b.len() && 48 <= b[e] && b[e] <= 57
        invariant
            i <= e <= b@.len(),
            digits_end(b@, i as int) == digits_end(b@, e as int),
        decreases b@.len() - e,
    {
        e += 1;
    }
    e
}

fn spaces_end_exec(b: &[u8], i: usize) -> (e: usize)
    requires
        i <= b@.len(),
    ensures
        e == spaces_end(b@, i as int),
        i <= e <= b@.len(),
{
    let mut e = i;
    while e < b.len() && (b[e] == 32 || b[e] == 9 || b[e] == 10 || b[e] == 12 || b[e] == 13)
        invariant
            i <= e <= b@.len(),
            spaces_end(b@, i as int) == spaces_end(b@, e as int),
        decreases b@.len() - e,
    {
        e += 1;
    }
    e
}

proof fn lemma_bytes_value_grows(b: Seq<u8>, from: int, mid: int, to: int)
    requires
        from <= mid <= to <= b.len(),
        forall|k: int| from <= k < to ==> digit_byte(#[trigger] b[k]),
    ensures
        bytes_value(b, from, mid) <= bytes_value(b, from, to),
    decreases to - mid,
{
    if mid < to {
        lemma_bytes_value_grows(b, from, mid, to - 1);
    }
}

/// The value of the digit bytes `b[from..to]`, when it fits in `usize`.
fn digit_bytes_value(b: &[u8], from: usize, to: usize) -> (v: Option<usize>)
    requires
        from <= to <= b@.len(),
        forall|k: int| from <= k < to ==> digit_byte(#[trigger] b@[k]),
    ensures
        match v {
            Some(x) => bytes_value(b@, from as int, to as int) == x,
            None => bytes_value(b@, from as int, to as int) > usize::MAX,
        },
{
    let mut value: usize = 0;
    let mut i = from;
    while i < to
        invariant
            from <= i <= to <= b@.len(),
            forall|k: int| from <= k < to ==> digit_byte(#[trigger] b@[k]),
            value == bytes_value(b@, from as int, i as int),
        decreases to - i,
    {
        assert(digit_byte(b@[i as int]));
        let d = (b[i] - 48) as usize;
        match value.checked_mul(10) {
            Some(t) => match t.checked_add(d) {
                Some(next) => {
                    value = next;
                },
                None => {
                    proof {
                        lemma_bytes_value_grows(b@, from as int, i + 1, to as int);
                    }
                    return None;
                },
            },
            None => {
                proof {
                    assert(value * 10 + d >= value * 10);
                    lemma_bytes_value_grows(b@, from as int, i + 1, to as int);
                }
                return None;
            },
        }
        i += 1;
    }
    Some(value)
}

/// The key byte indices that the `ondemand.s` chunk names: the first one
/// selects the frame row, the others the key bytes.
pub fn extract_key_byte_indices(chunk: &str) -> (res: Result<(usize, Vec<usize>), AppError>)
    ensures
        ({
            let all = key_indices_from(chunk.spec_bytes(), 0);
            if all.len() == 0 {
                res matches Err(e) && e.upstream_message() == Some(
                    "twitter ondemand chunk did not expose key byte indices"@,
                )
            } else {
                res matches Ok((first, rest)) && first == all[0] && rest@ == all.drop_first()
            }
        }),
{
    let bytes = chunk.as_bytes();
    let n = bytes.len();
    let mut indices: Vec<usize> = Vec::new();
    let mut cursor = 0usize;
    while cursor < n && n - cursor > 7
        invariant
            n == bytes@.len(),
            bytes@ == chunk.spec_bytes(),
            cursor <= n,
            key_indices_from(bytes@, 0) == indices@ + key_indices_from(bytes@, cursor as int),
        decreases n - cursor,
    {
        let ghost rest = key_indices_from(bytes@, cursor + 1);
        let mut found: Option<usize> = None;
        if bytes[cursor] == 40 && is_word(bytes[cursor + 1]) && bytes[cursor + 2] == 91 {
            let ds = cursor + 3;
            let de = digits_end_exec(bytes, ds);
            if de > ds && de < n && bytes[de] == 93 {
                let comma = de + 1;
                if comma < n && bytes[comma] == 44 {
                    let sixteen = spaces_end_exec(bytes, comma + 1);
                    if sixteen < n && n - sixteen > 1 && bytes[sixteen] == 49 && bytes[sixteen + 1] == 54 {
                        let close = spaces_end_exec(bytes, sixteen + 2);
                        if close < n && bytes[close] == 41 {
                            proof {
                                assert forall|k: int| ds <= k < de implies digit_byte(
                                    #[trigger] bytes@[k],
                                ) by {
                                    lemma_digits_end(bytes@, ds as int, k);
                                }
                            }
                            found = digit_bytes_value(bytes, ds, de);
                        }
                    }
                }
            }
        }
        assert(found == key_index_at(bytes@, cursor as int));
        match found {
            Some(v) => {
                indices.push(v);
                assert(indices@ + rest =~= (indices@.drop_last()) + (seq![v] + rest));
            },
            None => {},
        }
        cursor += 1;
    }
    assert(indices@ + key_indices_from(bytes@, cursor as int) =~= indices@);
    if indices.len() == 0 {
        return Err(upstream_error("twitter ondemand chunk did not expose key byte indices".to_owned()));
    }
    let first = indices[0];
    let mut rest: Vec<usize> = Vec::new();
    for i in 1..indices.len()
        invariant
            rest@ == indices@.subrange(1, i as int),
    {
        rest.push(indices[i]);
        assert(rest@ =~= indices@.subrange(1, i + 1));
    }
    assert(indices@.subrange(1, indices@.len() as int) =~= indices@.drop_first());
    Ok((first, rest))
}

proof fn lemma_digits_end(b: Seq<u8>, i: int, k: int)
    requires
        0 <= i <= k < digits_end(b, i),
    ensures
        digit_byte(b[k]),
    decreases b.len() - i,
{
    if i < k {
        lemma_digits_end(b, i + 1, k);
    }
}

} // verus!
