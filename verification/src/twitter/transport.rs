//! Text helpers of the X transport: timestamps, cookies, referers.

use vstd::prelude::*;

use crate::text::{
    is_unicode_whitespace, is_whitespace, str_chars, string_eq_str, string_from_range, trim, trim_end_char,
    trim_end_matches_char, trimmed,
};
use crate::twitter::html::first_index_from;

verus! {

/// The text of an optional string.
pub open spec fn opt_text(s: Option<String>) -> Option<Seq<char>> {
    match s {
        Some(t) => Some(t@),
        None => None,
    }
}

/// The trimmed text, unless nothing is left.
pub open spec fn spec_normalize_optional(value: Seq<char>) -> Option<Seq<char>> {
    if trimmed(value).len() == 0 {
        None
    } else {
        Some(trimmed(value))
    }
}

/// The trimmed text, unless nothing is left.
pub fn normalize_optional_string(value: String) -> (out: Option<String>)
    ensures
        opt_text(out) == spec_normalize_optional(value@),
{
    let t = trim(value.as_str());
    if t.as_str().is_empty() {
        None
    } else {
        Some(t)
    }
}

/// Whether a character is an ASCII digit.
pub open spec fn ascii_digit(c: char) -> bool {
    '0' <= c <= '9'
}

/// Whether a text starts like `YYYY-MM-DD`.
pub open spec fn iso_date_prefix(s: Seq<char>) -> bool {
    &&& s.len() >= 10
    &&& ascii_digit(s[0]) && ascii_digit(s[1]) && ascii_digit(s[2]) && ascii_digit(s[3])
    &&& s[4] == '-'
    &&& ascii_digit(s[5]) && ascii_digit(s[6])
    &&& s[7] == '-'
    &&& ascii_digit(s[8]) && ascii_digit(s[9])
}

fn is_ascii_digit_char(c: char) -> (b: bool)
    ensures
        b == ascii_digit(c),
{
    '0' <= c && c <= '9'
}

/// Whether a text starts like `YYYY-MM-DD`.
pub fn looks_like_iso_datetime(raw: &str) -> (b: bool)
    ensures
        b == iso_date_prefix(raw@),
{
    let s = str_chars(raw);
    s.len() >= 10 && is_ascii_digit_char(s[0]) && is_ascii_digit_char(s[1]) && is_ascii_digit_char(
        s[2],
    ) && is_ascii_digit_char(s[3]) && s[4] == '-' && is_ascii_digit_char(s[5])
        && is_ascii_digit_char(s[6]) && s[7] == '-' && is_ascii_digit_char(s[8])
        && is_ascii_digit_char(s[9])
}

/// `+HHMM` or `-HHMM` as `+HH:MM` or `-HH:MM`.
pub open spec fn compact_offset(offset: Seq<char>) -> Option<Seq<char>> {
    if offset.len() == 5 && (offset[0] == '+' || offset[0] == '-') && ascii_digit(offset[1])
        && ascii_digit(offset[2]) && ascii_digit(offset[3]) && ascii_digit(offset[4]) {
        Some(offset.take(3) + seq![':'] + offset.subrange(3, 5))
    } else {
        None
    }
}

/// A compact time-zone offset with a colon put in.
pub fn normalize_compact_offset(offset: &str) -> (out: Option<String>)
    ensures
        opt_text(out) == compact_offset(offset@),
{
    let s = str_chars(offset);
    if s.len() == 5 && (s[0] == '+' || s[0] == '-') && is_ascii_digit_char(s[1])
        && is_ascii_digit_char(s[2]) && is_ascii_digit_char(s[3]) && is_ascii_digit_char(s[4]) {
        let mut out = string_from_range(&s, 0, 3);
        crate::text::push_char(&mut out, ':');
        crate::text::push_char(&mut out, s[3]);
        crate::text::push_char(&mut out, s[4]);
        assert(out@ =~= s@.take(3) + seq![':'] + s@.subrange(3, 5));
        Some(out)
    } else {
        None
    }
}

/// An RFC 3339 text whose compact trailing offset gets its colon.
pub open spec fn rfc3339_offset(raw: Seq<char>) -> Seq<char> {
    if raw.len() > 0 && raw.last() == 'Z' {
        raw
    } else if raw.len() >= 5 {
        match compact_offset(raw.skip(raw.len() - 5)) {
            Some(offset) => raw.take(raw.len() - 5) + offset,
            None => raw,
        }
    } else {
        raw
    }
}

/// Put the colon into a compact trailing offset (`Z` stays).
pub fn normalize_rfc3339_offset(raw: &str) -> (out: String)
    ensures
        out@ == rfc3339_offset(raw@),
{
    let s = str_chars(raw);
    let n = s.len();
    if n > 0 && s[n - 1] == 'Z' {
        return raw.to_owned();
    }
    if n < 5 {
        return raw.to_owned();
    }
    let tail = string_from_range(&s, n - 5, n);
    assert(tail@ =~= s@.skip(n - 5));
    match normalize_compact_offset(tail.as_str()) {
        Some(offset) => {
            let mut out = string_from_range(&s, 0, n - 5);
            out.append(offset.as_str());
            assert(s@.subrange(0, n - 5) =~= s@.take(n - 5));
            out
        },
        None => raw.to_owned(),
    }
}

/// The maximal runs of non-whitespace characters (`split_whitespace`).
pub open spec fn words(s: Seq<char>) -> Seq<Seq<char>>
    decreases s.len(),
{
    if s.len() == 0 {
        seq![]
    } else if is_unicode_whitespace(s[0]) {
        words(s.drop_first())
    } else {
        let end = first_index_from(s, 0, |c: char| is_unicode_whitespace(c));
        proof {
            lemma_first_stop_bounds(s, 0);
            lemma_first_stop_bounds(s, 1);
        }
        seq![s.take(end)] + words(s.skip(end))
    }
}

/// The first stop lies between the start and the end.
pub proof fn lemma_first_stop_bounds(s: Seq<char>, i: int)
    requires
        0 <= i <= s.len(),
    ensures
        i <= first_index_from(s, i, |c: char| is_unicode_whitespace(c)) <= s.len(),
    decreases s.len() - i,
{
    if i < s.len() && !is_unicode_whitespace(s[i]) {
        lemma_first_stop_bounds(s, i + 1);
    }
}

/// The words of a text, in order.
pub fn split_whitespace(s: &str) -> (out: Vec<String>)
    ensures
        out@.map_values(|w: String| w@) == words(s@),
{
    let chars = str_chars(s);
    let n = chars.len();
    let mut out: Vec<String> = Vec::new();
    let mut i = 0usize;
    assert(chars@.skip(0) =~= chars@);
    while i < n
        invariant
            n == chars@.len(),
            chars@ == s@,
            i <= n,
            out@.map_values(|w: String| w@) + words(chars@.skip(i as int)) == words(s@),
        decreases n - i,
    {
        let ghost rest = chars@.skip(i as int);
        assert(rest[0] == chars@[i as int]);
        if is_whitespace(chars[i]) {
            assert(rest.drop_first() =~= chars@.skip(i + 1));
            i += 1;
        } else {
            let mut end = i;
            while end < n && !is_whitespace(chars[end])
                invariant
                    n == chars@.len(),
                    rest == chars@.skip(i as int),
                    i <= end <= n,
                    first_index_from(rest, 0, |c: char| is_unicode_whitespace(c))
                        == first_index_from(rest, end - i, |c: char| is_unicode_whitespace(c)),
                decreases n - end,
            {
                assert(rest[end - i] == chars@[end as int]);
                end += 1;
            }
            proof {
                if end < n {
                    assert(rest[end - i] == chars@[end as int]);
                }
                assert(first_index_from(rest, end - i, |c: char| is_unicode_whitespace(c)) == end
                    - i);
                assert(rest.take(end - i) =~= chars@.subrange(i as int, end as int));
                assert(rest.skip(end - i) =~= chars@.skip(end as int));
            }
            let word = string_from_range(&chars, i, end);
            let ghost before = out@.map_values(|w: String| w@);
            out.push(word);
            assert(out@.map_values(|w: String| w@) =~= before.push(word@));
            assert(before + words(rest) =~= out@.map_values(|w: String| w@) + words(
                chars@.skip(end as int),
            ));
            i = end;
        }
    }
    assert(chars@.skip(n as int) =~= Seq::<char>::empty());
    assert(out@.map_values(|w: String| w@) + Seq::<Seq<char>>::empty() =~= out@.map_values(
        |w: String| w@,
    ));
    out
}

/// The two-digit number of a month's English abbreviation.
pub open spec fn month_number(name: Seq<char>) -> Option<Seq<char>> {
    if name == "Jan"@ {
        Some("01"@)
    } else if name == "Feb"@ {
        Some("02"@)
    } else if name == "Mar"@ {
        Some("03"@)
    } else if name == "Apr"@ {
        Some("04"@)
    } else if name == "May"@ {
        Some("05"@)
    } else if name == "Jun"@ {
        Some("06"@)
    } else if name == "Jul"@ {
        Some("07"@)
    } else if name == "Aug"@ {
        Some("08"@)
    } else if name == "Sep"@ {
        Some("09"@)
    } else if name == "Oct"@ {
        Some("10"@)
    } else if name == "Nov"@ {
        Some("11"@)
    } else if name == "Dec"@ {
        Some("12"@)
    } else {
        None
    }
}

fn month_of(name: &String) -> (m: Option<&'static str>)
    ensures
        match m {
            Some(t) => month_number(name@) == Some(t@),
            None => month_number(name@) is None,
        },
{
    if string_eq_str(name, "Jan") {
        Some("01")
    } else if string_eq_str(name, "Feb") {
        Some("02")
    } else if string_eq_str(name, "Mar") {
        Some("03")
    } else if string_eq_str(name, "Apr") {
        Some("04")
    } else if string_eq_str(name, "May") {
        Some("05")
    } else if string_eq_str(name, "Jun") {
        Some("06")
    } else if string_eq_str(name, "Jul") {
        Some("07")
    } else if string_eq_str(name, "Aug") {
        Some("08")
    } else if string_eq_str(name, "Sep") {
        Some("09")
    } else if string_eq_str(name, "Oct") {
        Some("10")
    } else if string_eq_str(name, "Nov") {
        Some("11")
    } else if string_eq_str(name, "Dec") {
        Some("12")
    } else {
        None
    }
}

/// The English month abbreviations, January first.
pub open spec fn month_abbreviations() -> Seq<Seq<char>> {
    seq![
        "Jan"@, "Feb"@, "Mar"@, "Apr"@, "May"@, "Jun"@, "Jul"@, "Aug"@, "Sep"@, "Oct"@, "Nov"@,
        "Dec"@,
    ]
}

/// A number below 100 as two decimal digits.
pub open spec fn two_digits(n: int) -> Seq<char> {
    seq![((48 + n / 10) as u8) as char, ((48 + n % 10) as u8) as char]
}

/// Each month abbreviation stands for its calendar position, written with
/// two digits (`Jan` is `01`, `Jun` is `06`, `Dec` is `12`), and no other
/// text names a month.
pub proof fn lemma_month_numbers(name: Seq<char>)
    ensures
        forall|i: int|
            0 <= i < 12 ==> #[trigger] month_number(month_abbreviations()[i]) == Some(
                two_digits(i + 1),
            ),
        !month_abbreviations().contains(name) ==> month_number(name) is None,
{
    reveal_strlit("Jan");
    reveal_strlit("Feb");
    reveal_strlit("Mar");
    reveal_strlit("Apr");
    reveal_strlit("May");
    reveal_strlit("Jun");
    reveal_strlit("Jul");
    reveal_strlit("Aug");
    reveal_strlit("Sep");
    reveal_strlit("Oct");
    reveal_strlit("Nov");
    reveal_strlit("Dec");
    reveal_strlit("01");
    reveal_strlit("02");
    reveal_strlit("03");
    reveal_strlit("04");
    reveal_strlit("05");
    reveal_strlit("06");
    reveal_strlit("07");
    reveal_strlit("08");
    reveal_strlit("09");
    reveal_strlit("10");
    reveal_strlit("11");
    reveal_strlit("12");
    let m = month_abbreviations();
    assert("Jan"@ =~= seq!['J', 'a', 'n']);
    assert("Feb"@ =~= seq!['F', 'e', 'b']);
    assert("Mar"@ =~= seq!['M', 'a', 'r']);
    assert("Apr"@ =~= seq!['A', 'p', 'r']);
    assert("May"@ =~= seq!['M', 'a', 'y']);
    assert("Jun"@ =~= seq!['J', 'u', 'n']);
    assert("Jul"@ =~= seq!['J', 'u', 'l']);
    assert("Aug"@ =~= seq!['A', 'u', 'g']);
    assert("Sep"@ =~= seq!['S', 'e', 'p']);
    assert("Oct"@ =~= seq!['O', 'c', 't']);
    assert("Nov"@ =~= seq!['N', 'o', 'v']);
    assert("Dec"@ =~= seq!['D', 'e', 'c']);
    assert("01"@ =~= seq!['0', '1']);
    assert("02"@ =~= seq!['0', '2']);
    assert("03"@ =~= seq!['0', '3']);
    assert("04"@ =~= seq!['0', '4']);
    assert("05"@ =~= seq!['0', '5']);
    assert("06"@ =~= seq!['0', '6']);
    assert("07"@ =~= seq!['0', '7']);
    assert("08"@ =~= seq!['0', '8']);
    assert("09"@ =~= seq!['0', '9']);
    assert("10"@ =~= seq!['1', '0']);
    assert("11"@ =~= seq!['1', '1']);
    assert("12"@ =~= seq!['1', '2']);
    assert forall|i: int| 0 <= i < 12 implies #[trigger] month_number(m[i]) == Some(two_digits(i + 1)) by {
        if i == 0 {
            assert(m[0] == "Jan"@);
            assert(two_digits(1) =~= "01"@);
        } else if i == 1 {
            assert(m[1] == "Feb"@);
            assert(m[1][0] != "Jan"@[0]);
            assert(two_digits(2) =~= "02"@);
        } else if i == 2 {
            assert(m[2] == "Mar"@);
            assert(m[2][0] != "Jan"@[0]);
            assert(m[2][0] != "Feb"@[0]);
            assert(two_digits(3) =~= "03"@);
        } else if i == 3 {
            assert(m[3] == "Apr"@);
            assert(m[3][0] != "Jan"@[0]);
            assert(m[3][0] != "Feb"@[0]);
            assert(m[3][0] != "Mar"@[0]);
            assert(two_digits(4) =~= "04"@);
        } else if i == 4 {
            assert(m[4] == "May"@);
            assert(m[4][0] != "Jan"@[0]);
            assert(m[4][0] != "Feb"@[0]);
            assert(m[4][2] != "Mar"@[2]);
            assert(m[4][0] != "Apr"@[0]);
            assert(two_digits(5) =~= "05"@);
        } else if i == 5 {
            assert(m[5] == "Jun"@);
            assert(m[5][1] != "Jan"@[1]);
            assert(m[5][0] != "Feb"@[0]);
            assert(m[5][0] != "Mar"@[0]);
            assert(m[5][0] != "Apr"@[0]);
            assert(m[5][0] != "May"@[0]);
            assert(two_digits(6) =~= "06"@);
        } else if i == 6 {
            assert(m[6] == "Jul"@);
            assert(m[6][1] != "Jan"@[1]);
            assert(m[6][0] != "Feb"@[0]);
            assert(m[6][0] != "Mar"@[0]);
            assert(m[6][0] != "Apr"@[0]);
            assert(m[6][0] != "May"@[0]);
            assert(m[6][2] != "Jun"@[2]);
            assert(two_digits(7) =~= "07"@);
        } else if i == 7 {
            assert(m[7] == "Aug"@);
            assert(m[7][0] != "Jan"@[0]);
            assert(m[7][0] != "Feb"@[0]);
            assert(m[7][0] != "Mar"@[0]);
            assert(m[7][1] != "Apr"@[1]);
            assert(m[7][0] != "May"@[0]);
            assert(m[7][0] != "Jun"@[0]);
            assert(m[7][0] != "Jul"@[0]);
            assert(two_digits(8) =~= "08"@);
        } else if i == 8 {
            assert(m[8] == "Sep"@);
            assert(m[8][0] != "Jan"@[0]);
            assert(m[8][0] != "Feb"@[0]);
            assert(m[8][0] != "Mar"@[0]);
            assert(m[8][0] != "Apr"@[0]);
            assert(m[8][0] != "May"@[0]);
            assert(m[8][0] != "Jun"@[0]);
            assert(m[8][0] != "Jul"@[0]);
            assert(m[8][0] != "Aug"@[0]);
            assert(two_digits(9) =~= "09"@);
        } else if i == 9 {
            assert(m[9] == "Oct"@);
            assert(m[9][0] != "Jan"@[0]);
            assert(m[9][0] != "Feb"@[0]);
            assert(m[9][0] != "Mar"@[0]);
            assert(m[9][0] != "Apr"@[0]);
            assert(m[9][0] != "May"@[0]);
            assert(m[9][0] != "Jun"@[0]);
            assert(m[9][0] != "Jul"@[0]);
            assert(m[9][0] != "Aug"@[0]);
            assert(m[9][0] != "Sep"@[0]);
            assert(two_digits(10) =~= "10"@);
        } else if i == 10 {
            assert(m[10] == "Nov"@);
            assert(m[10][0] != "Jan"@[0]);
            assert(m[10][0] != "Feb"@[0]);
            assert(m[10][0] != "Mar"@[0]);
            assert(m[10][0] != "Apr"@[0]);
            assert(m[10][0] != "May"@[0]);
            assert(m[10][0] != "Jun"@[0]);
            assert(m[10][0] != "Jul"@[0]);
            assert(m[10][0] != "Aug"@[0]);
            assert(m[10][0] != "Sep"@[0]);
            assert(m[10][0] != "Oct"@[0]);
            assert(two_digits(11) =~= "11"@);
        } else if i == 11 {
            assert(m[11] == "Dec"@);
            assert(m[11][0] != "Jan"@[0]);
            assert(m[11][0] != "Feb"@[0]);
            assert(m[11][0] != "Mar"@[0]);
            assert(m[11][0] != "Apr"@[0]);
            assert(m[11][0] != "May"@[0]);
            assert(m[11][0] != "Jun"@[0]);
            assert(m[11][0] != "Jul"@[0]);
            assert(m[11][0] != "Aug"@[0]);
            assert(m[11][0] != "Sep"@[0]);
            assert(m[11][0] != "Oct"@[0]);
            assert(m[11][0] != "Nov"@[0]);
            assert(two_digits(12) =~= "12"@);
        }
    }
    if month_number(name) is Some {
        if name == "Jan"@ {
            assert(m[0] == name);
        } else if name == "Feb"@ {
            assert(m[1] == name);
        } else if name == "Mar"@ {
            assert(m[2] == name);
        } else if name == "Apr"@ {
            assert(m[3] == name);
        } else if name == "May"@ {
            assert(m[4] == name);
        } else if name == "Jun"@ {
            assert(m[5] == name);
        } else if name == "Jul"@ {
            assert(m[6] == name);
        } else if name == "Aug"@ {
            assert(m[7] == name);
        } else if name == "Sep"@ {
            assert(m[8] == name);
        } else if name == "Oct"@ {
            assert(m[9] == name);
        } else if name == "Nov"@ {
            assert(m[10] == name);
        } else {
            assert(m[11] == name);
        }
    }
}

/// A text padded on the left with `0` to two characters.
pub open spec fn pad2(s: Seq<char>) -> Seq<char> {
    if s.len() >= 2 {
        s
    } else if s.len() == 1 {
        seq!['0'] + s
    } else {
        seq!['0', '0']
    }
}

/// An X timestamp in RFC 3339: ISO texts get their offset's colon, texts
/// like `Wed Oct 10 20:19:24 +0000 2018` are rearranged, others stay as
/// they are (trimmed); nothing when there is no text.
pub open spec fn spec_datetime_rfc3339(value: Option<Seq<char>>) -> Option<Seq<char>> {
    match value {
        None => None,
        Some(v) => {
            let raw = trimmed(v);
            if raw.len() == 0 {
                None
            } else if iso_date_prefix(raw) {
                Some(rfc3339_offset(raw))
            } else {
                let parts = words(raw);
                if parts.len() != 6 {
                    Some(raw)
                } else {
                    match month_number(parts[1]) {
                        None => Some(raw),
                        Some(month) => match compact_offset(parts[4]) {
                            None => Some(raw),
                            Some(offset) => Some(
                                parts[5] + "-"@ + month + "-"@ + pad2(parts[2]) + "T"@ + parts[3]
                                    + offset,
                            ),
                        },
                    }
                }
            }
        },
    }
}

/// A date text of the X form `Www Mmm dd hh:mm:ss ±hhmm yyyy` becomes
/// `yyyy-MM-ddThh:mm:ss±hh:mm`, where `MM` is the calendar position of the
/// month abbreviation in two digits.
pub proof fn lemma_twitter_date_layout(
    v: Seq<char>,
    i: int,
    weekday: Seq<char>,
    day: Seq<char>,
    time: Seq<char>,
    zone: Seq<char>,
    year: Seq<char>,
)
    requires
        0 <= i < 12,
        trimmed(v).len() > 0,
        !iso_date_prefix(trimmed(v)),
        words(trimmed(v)) == seq![weekday, month_abbreviations()[i], day, time, zone, year],
        zone.len() == 5,
        zone[0] == '+' || zone[0] == '-',
        ascii_digit(zone[1]) && ascii_digit(zone[2]) && ascii_digit(zone[3]) && ascii_digit(zone[4]),
    ensures
        spec_datetime_rfc3339(Some(v)) == Some(
            year + seq!['-'] + two_digits(i + 1) + seq!['-'] + pad2(day) + seq!['T'] + time
                + zone.take(3) + seq![':'] + zone.subrange(3, 5),
        ),
{
    lemma_month_numbers(v);
    reveal_strlit("-");
    reveal_strlit("T");
    let w = words(trimmed(v));
    assert(w[1] == month_abbreviations()[i]);
    assert(w.len() == 6);
    assert("-"@ =~= seq!['-']);
    assert("T"@ =~= seq!['T']);
}

/// An X timestamp in RFC 3339 form.
pub fn twitter_datetime_to_rfc3339(value: Option<&str>) -> (out: Option<String>)
    ensures
        opt_text(out) == spec_datetime_rfc3339(crate::text::option_str_view(value)),
{
    let v = match value {
        Some(v) => v,
        None => return None,
    };
    let raw = trim(v);
    if raw.as_str().is_empty() {
        return None;
    }
    if looks_like_iso_datetime(raw.as_str()) {
        return Some(normalize_rfc3339_offset(raw.as_str()));
    }
    let parts = split_whitespace(raw.as_str());
    if parts.len() != 6 {
        return Some(raw);
    }
    let ghost words_seq = parts@.map_values(|w: String| w@);
    assert(words_seq[1] == parts@[1]@ && words_seq[2] == parts@[2]@ && words_seq[3] == parts@[3]@
        && words_seq[4] == parts@[4]@ && words_seq[5] == parts@[5]@);
    let month = match month_of(&parts[1]) {
        Some(m) => m,
        None => return Some(raw),
    };
    let offset = match normalize_compact_offset(parts[4].as_str()) {
        Some(o) => o,
        None => return Some(raw),
    };
    let day_chars = str_chars(parts[2].as_str());
    let mut out = parts[5].clone();
    out.append("-");
    out.append(month);
    out.append("-");
    if day_chars.len() == 0 {
        out.append("00");
    } else if day_chars.len() == 1 {
        out.append("0");
    }
    proof {
        reveal_strlit("00");
        reveal_strlit("0");
    }
    out.append(parts[2].as_str());
    out.append("T");
    out.append(parts[3].as_str());
    out.append(offset.as_str());
    assert(out@ =~= parts@[5]@ + "-"@ + month@ + "-"@ + pad2(parts@[2]@) + "T"@ + parts@[3]@
        + offset@);
    Some(out)
}

/// The pieces between the `sep` characters (`split`).
pub open spec fn split_chars(s: Seq<char>, sep: char) -> Seq<Seq<char>>
    decreases s.len(),
{
    if s.len() == 0 {
        seq![seq![]]
    } else {
        let prev = split_chars(s.drop_last(), sep);
        if s.last() == sep {
            prev.push(seq![])
        } else {
            prev.update(prev.len() - 1, prev.last().push(s.last()))
        }
    }
}

/// Whether a cookie piece names `name`: trimmed, it holds `=` and the
/// trimmed text before its first `=` is `name`.
pub open spec fn piece_names(piece: Seq<char>, name: Seq<char>) -> bool {
    let t = trimmed(piece);
    exists|i: int|
        0 <= i < t.len() && t[i] == '=' && (forall|k: int| 0 <= k < i ==> t[k] != '=') && trimmed(
            t.take(i),
        ) == name
}

/// Whether a cookie header has a cookie called `name`.
pub open spec fn spec_cookie_has_name(cookie: Seq<char>, name: Seq<char>) -> bool {
    exists|k: int| 0 <= k < split_chars(cookie, ';').len() && piece_names(
        #[trigger] split_chars(cookie, ';')[k],
        name,
    )
}

/// The pieces of a text between the `sep` characters.
pub fn split_on_char(s: &str, sep: char) -> (pieces: Vec<String>)
    ensures
        pieces@.map_values(|p: String| p@) == split_chars(s@, sep),
{
    let chars = str_chars(s);
    let mut pieces: Vec<String> = Vec::new();
    let mut current = String::new();
    assert(chars@.take(0) =~= Seq::<char>::empty());
    for i in 0..chars.len()
        invariant
            chars@ == s@,
            pieces@.map_values(|p: String| p@).push(current@) == split_chars(chars@.take(i as int), sep),
    {
        let ghost before = pieces@.map_values(|p: String| p@).push(current@);
        assert(chars@.take(i + 1).drop_last() =~= chars@.take(i as int));
        assert(chars@.take(i + 1).last() == chars@[i as int]);
        if chars[i] == sep {
            let done = current;
            pieces.push(done);
            current = String::new();
            assert(pieces@.map_values(|p: String| p@).push(current@) =~= before.push(seq![]));
        } else {
            crate::text::push_char(&mut current, chars[i]);
            assert(pieces@.map_values(|p: String| p@).push(current@) =~= before.update(
                before.len() - 1,
                before.last().push(chars@[i as int]),
            ));
        }
    }
    assert(chars@.take(chars@.len() as int) =~= chars@);
    let ghost before = pieces@.map_values(|p: String| p@);
    pieces.push(current);
    assert(pieces@.map_values(|p: String| p@) =~= before.push(current@));
    pieces
}

fn piece_names_exec(piece: &String, name: &str) -> (b: bool)
    ensures
        b == piece_names(piece@, name@),
{
    let t = trim(piece.as_str());
    let chars = str_chars(t.as_str());
    let mut i = 0usize;
    while i < chars.len() && chars[i] != '='
        invariant
            chars@ == t@,
            i <= chars@.len(),
            forall|k: int| 0 <= k < i ==> chars@[k] != '=',
        decreases chars@.len() - i,
    {
        i += 1;
    }
    if i == chars.len() {
        return false;
    }
    let key = string_from_range(&chars, 0, i);
    let key_trimmed = trim(key.as_str());
    assert(key@ =~= t@.take(i as int));
    let result = string_eq_str(&key_trimmed, name);
    proof {
        if !result {
            assert forall|j: int|
                0 <= j < t@.len() && t@[j] == '=' && (forall|k: int| 0 <= k < j ==> t@[k] != '=')
                    implies trimmed(t@.take(j)) != name@ by {
                if j != i {
                    if j < i {
                    } else {
                        assert(t@[i as int] == '=');
                    }
                }
            }
        }
    }
    result
}

/// Whether a cookie header has a cookie called `name`.
pub fn cookie_has_name(cookie: &str, name: &str) -> (b: bool)
    ensures
        b == spec_cookie_has_name(cookie@, name@),
{
    let pieces = split_on_char(cookie, ';');
    let ghost all = split_chars(cookie@, ';');
    for i in 0..pieces.len()
        invariant
            pieces@.map_values(|p: String| p@) == all,
            all == split_chars(cookie@, ';'),
            forall|k: int| 0 <= k < i ==> !piece_names(#[trigger] all[k], name@),
    {
        assert(all[i as int] == pieces@[i as int]@);
        if piece_names_exec(&pieces[i], name) {
            return true;
        }
    }
    false
}

/// `{web_base_url without trailing /}/{screen_name}`.
pub open spec fn spec_user_referer(web_base_url: Seq<char>, screen_name: Seq<char>) -> Seq<char> {
    trim_end_char(web_base_url, '/') + seq!['/'] + screen_name
}

/// The profile page of a user, used as referer.
pub fn user_referer(web_base_url: &str, screen_name: &str) -> (url: String)
    ensures
        url@ == spec_user_referer(web_base_url@, screen_name@),
{
    let mut url = trim_end_matches_char(web_base_url, '/');
    crate::text::push_char(&mut url, '/');
    url.append(screen_name);
    url
}

} // verus!
