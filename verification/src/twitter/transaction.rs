//! The integer side of the X client transaction id: animation frame rows,
//! the key bytes that pick them, and the id's byte layout.

use vstd::prelude::*;
use vstd::string::StringSliceAdditionalSpecFns;

use crate::error::{upstream_error, AppError};
use crate::pairs::{ascending_pairs_set, last_wins, names_ascending, text_lt, TextPairs};
use crate::text::{decimal, u64_to_decimal, eq_ignore_ascii_case, eq_ignore_case, trim_end_char, trim_end_matches_char};
use crate::twitter::base64::{encode_b64, encode_base64};
use crate::twitter::html::{bytes_value, digit_byte, digits_end};
use crate::text::push_char;

verus! {

/// The hexadecimal digit of a value below 16, in upper case (values up to
/// 200 map past `F` the same way).
pub open spec fn hex_digit_char(value: u8) -> char {
    if value <= 9 {
        (48 + value) as char
    } else {
        (65 + value - 10) as char
    }
}

/// The upper-case hexadecimal digit of a value.
pub fn hex_digit(value: u8) -> (c: char)
    requires
        value <= 200,
    ensures
        c == hex_digit_char(value),
{
    if value <= 9 {
        (48 + value) as char
    } else {
        (65 + (value - 10)) as char
    }
}

/// The bytes of a path's `d` value after its first nine bytes (none when
/// the value is shorter or byte 9 is inside a character).
pub open spec fn frame_source(d: Seq<u8>) -> Seq<u8> {
    if 9 <= d.len() && vstd::utf8::is_char_boundary(d, 9) {
        d.skip(9)
    } else {
        seq![]
    }
}

/// The pieces between the `sep` bytes (`split`): one more piece than
/// separators.
pub open spec fn split_bytes(b: Seq<u8>, sep: u8) -> Seq<Seq<u8>>
    decreases b.len(),
{
    if b.len() == 0 {
        seq![seq![]]
    } else {
        let prev = split_bytes(b.drop_last(), sep);
        if b.last() == sep {
            prev.push(seq![])
        } else {
            prev.update(prev.len() - 1, prev.last().push(b.last()))
        }
    }
}

/// The numbers written by the runs of digits of a piece, in order: runs
/// above 65535 are left out, the others capped at 255.
pub open spec fn run_numbers(seg: Seq<u8>) -> Seq<u8>
    decreases seg.len(),
{
    if seg.len() == 0 {
        seq![]
    } else if !digit_byte(seg[0]) {
        run_numbers(seg.drop_first())
    } else {
        let end = digits_end(seg, 0);
        proof {
            lemma_digits_end_bounds(seg, 0);
            lemma_digits_end_bounds(seg, 1);
        }
        let value = bytes_value(seg, 0, end);
        let rest = run_numbers(seg.skip(end));
        if value <= 65535 {
            seq![(if value > 255 { 255 } else { value }) as u8] + rest
        } else {
            rest
        }
    }
}

/// The rows of numbers of an animation frame's path data: the text after
/// the first nine bytes, split at `C`.
pub open spec fn frame_rows(d: Seq<u8>) -> Seq<Seq<u8>> {
    rows_of(split_bytes(frame_source(d), 67))
}

/// The numbers of each piece.
pub open spec fn rows_of(pieces: Seq<Seq<u8>>) -> Seq<Seq<u8>> {
    pieces.map_values(|seg: Seq<u8>| run_numbers(seg))
}

/// `digits_end` lies between its start and the end of the bytes.
pub proof fn lemma_digits_end_bounds(b: Seq<u8>, i: int)
    requires
        0 <= i <= b.len(),
    ensures
        i <= digits_end(b, i) <= b.len(),
    decreases b.len() - i,
{
    if i < b.len() && digit_byte(b[i]) {
        lemma_digits_end_bounds(b, i + 1);
    }
}

fn split_at_c(src: &[u8], from: usize) -> (pieces: Vec<Vec<u8>>)
    requires
        from <= src@.len(),
    ensures
        pieces@.map_values(|v: Vec<u8>| v@) == split_bytes(src@.skip(from as int), 67),
{
    let mut pieces: Vec<Vec<u8>> = Vec::new();
    let mut current: Vec<u8> = Vec::new();
    let mut i = from;
    assert(src@.skip(from as int).take(0) =~= Seq::<u8>::empty());
    while i < src.len()
        invariant
            from <= i <= src@.len(),
            pieces@.map_values(|v: Vec<u8>| v@).push(current@) == split_bytes(
                src@.skip(from as int).take(i - from),
                67,
            ),
        decreases src@.len() - i,
    {
        let ghost before = pieces@.map_values(|v: Vec<u8>| v@).push(current@);
        let ghost rest = src@.skip(from as int);
        assert(rest.take(i + 1 - from).drop_last() =~= rest.take(i - from));
        assert(rest.take(i + 1 - from).last() == src@[i as int]);
        if src[i] == 67 {
            let done = current;
            pieces.push(done);
            current = Vec::new();
            assert(pieces@.map_values(|v: Vec<u8>| v@).push(current@) =~= before.push(seq![]));
        } else {
            current.push(src[i]);
            assert(pieces@.map_values(|v: Vec<u8>| v@).push(current@) =~= before.update(
                before.len() - 1,
                before.last().push(src@[i as int]),
            ));
        }
        i += 1;
    }
    assert(src@.skip(from as int).take(i - from) =~= src@.skip(from as int));
    let ghost before = pieces@.map_values(|v: Vec<u8>| v@);
    pieces.push(current);
    assert(pieces@.map_values(|v: Vec<u8>| v@) =~= before.push(current@));
    pieces
}

fn numbers_of(seg: &Vec<u8>) -> (numbers: Vec<u8>)
    ensures
        numbers@ == run_numbers(seg@),
{
    let n = seg.len();
    let mut numbers: Vec<u8> = Vec::new();
    let mut i = 0usize;
    assert(seg@.skip(0) =~= seg@);
    while i < n
        invariant
            n == seg@.len(),
            i <= n,
            numbers@ + run_numbers(seg@.skip(i as int)) == run_numbers(seg@),
        decreases n - i,
    {
        let ghost rest = seg@.skip(i as int);
        assert(rest[0] == seg@[i as int]);
        if !(48 <= seg[i] && seg[i] <= 57) {
            assert(rest.drop_first() =~= seg@.skip(i + 1));
            i += 1;
        } else {
            let mut end = i;
            let mut value: u32 = 0;
            while end < n && 48 <= seg[end] && seg[end] <= 57
                invariant
                    n == seg@.len(),
                    rest == seg@.skip(i as int),
                    i < n,
                    i <= end <= n,
                    digits_end(rest, 0) == digits_end(rest, end - i),
                    forall|k: int| i <= k < end ==> digit_byte(#[trigger] seg@[k]),
                    value == (if bytes_value(rest, 0, end - i) > 65536 {
                        65536
                    } else {
                        bytes_value(rest, 0, end - i)
                    }),
                decreases n - end,
            {
                assert(rest[end - i] == seg@[end as int]);
                let d = (seg[end] - 48) as u32;
                proof {
                    lemma_bytes_value_monotone(rest, end - i);
                }
                if value < 65536 {
                    value = value * 10 + d;
                    if value > 65536 {
                        value = 65536;
                    }
                }
                end += 1;
            }
            proof {
                lemma_digits_end_bounds(rest, 0);
                if end < n {
                    assert(rest[end - i] == seg@[end as int]);
                }
                assert(digits_end(rest, (end - i) as int) == end - i);
                assert(rest.skip(end - i) =~= seg@.skip(end as int));
            }
            let ghost before = numbers@;
            if value <= 65535 {
                let capped: u8 = if value > 255 { 255 } else { value as u8 };
                numbers.push(capped);
                assert(numbers@ + run_numbers(seg@.skip(end as int)) =~= before + (seq![capped]
                    + run_numbers(seg@.skip(end as int))));
            }
            i = end;
        }
    }
    assert(seg@.skip(n as int) =~= Seq::<u8>::empty());
    assert(numbers@ + Seq::<u8>::empty() =~= numbers@);
    numbers
}

proof fn lemma_bytes_value_monotone(b: Seq<u8>, k: int)
    requires
        0 <= k < b.len(),
        digit_byte(b[k]),
    ensures
        bytes_value(b, 0, k + 1) == bytes_value(b, 0, k) * 10 + (b[k] - 48),
        bytes_value(b, 0, k + 1) >= bytes_value(b, 0, k),
{
}

/// The rows of numbers of an animation frame's path data.
pub fn parse_frame_rows(d_attr: &str) -> (rows: Vec<Vec<u8>>)
    ensures
        rows@.map_values(|v: Vec<u8>| v@) == frame_rows(d_attr.spec_bytes()),
{
    let bytes = d_attr.as_bytes();
    let pieces = if bytes.len() >= 9 && d_attr.is_char_boundary(9) {
        split_at_c(bytes, 9)
    } else {
        let empty: Vec<u8> = Vec::new();
        let e = split_at_c(empty.as_slice(), 0);
        assert(empty@.skip(0) =~= Seq::<u8>::empty());
        e
    };
    let ghost split = split_bytes(frame_source(d_attr.spec_bytes()), 67);
    assert(pieces@.map_values(|v: Vec<u8>| v@) == split);
    let mut rows: Vec<Vec<u8>> = Vec::new();
    for i in 0..pieces.len()
        invariant
            pieces@.map_values(|v: Vec<u8>| v@) == split,
            rows@.map_values(|v: Vec<u8>| v@) == rows_of(split.take(i as int)),
    {
        let numbers = numbers_of(&pieces[i]);
        let ghost before = rows@.map_values(|v: Vec<u8>| v@);
        rows.push(numbers);
        assert(split[i as int] == pieces@[i as int]@);
        assert(rows_of(split.take(i + 1)) =~= rows_of(split.take(i as int)).push(
            run_numbers(split[i as int]),
        ));
        assert(rows@.map_values(|v: Vec<u8>| v@) =~= before.push(numbers@));
    }
    assert(split.take(pieces@.len() as int) =~= split);
    rows
}

/// A header that page and script requests leave out (any ASCII case).
pub open spec fn unwanted_header(name: Seq<char>) -> bool {
    eq_ignore_ascii_case(name, "authorization"@) || eq_ignore_ascii_case(name, "content-type"@)
        || eq_ignore_ascii_case(name, "origin"@) || eq_ignore_ascii_case(
        name,
        "x-client-transaction-id"@,
    ) || eq_ignore_ascii_case(name, "x-csrf-token"@) || eq_ignore_ascii_case(name, "x-guest-token"@)
        || eq_ignore_ascii_case(name, "x-twitter-auth-type"@)
}

/// The headers without the unwanted ones, in order.
pub open spec fn wanted_headers(pairs: TextPairs) -> TextPairs
    decreases pairs.len(),
{
    if pairs.len() == 0 {
        pairs
    } else {
        let rest = wanted_headers(pairs.drop_last());
        if unwanted_header(pairs.last().0) {
            rest
        } else {
            rest.push(pairs.last())
        }
    }
}

/// Leaving headers out keeps the names ascending, and every header kept was
/// there before.
pub proof fn lemma_wanted_headers(pairs: TextPairs)
    requires
        names_ascending(pairs),
    ensures
        names_ascending(wanted_headers(pairs)),
        forall|k: int| 0 <= k < wanted_headers(pairs).len() ==> #[trigger] pairs.contains(
            wanted_headers(pairs)[k],
        ),
        forall|k: int| 0 <= k < wanted_headers(pairs).len() ==> !unwanted_header(
            #[trigger] wanted_headers(pairs)[k].0,
        ),
    decreases pairs.len(),
{
    if pairs.len() > 0 {
        let init = pairs.drop_last();
        assert(names_ascending(init));
        lemma_wanted_headers(init);
        let rest = wanted_headers(init);
        assert forall|k: int| 0 <= k < rest.len() implies #[trigger] pairs.contains(rest[k]) by {
            assert(init.contains(rest[k]));
            let j = choose|j: int| 0 <= j < init.len() && init[j] == rest[k];
            assert(pairs[j] == rest[k]);
        }
        if !unwanted_header(pairs.last().0) {
            let out = rest.push(pairs.last());
            assert forall|i: int, j: int| 0 <= i < j < out.len() implies text_lt(
                #[trigger] out[i].0,
                #[trigger] out[j].0,
            ) by {
                if j == out.len() - 1 {
                    assert(init.contains(rest[i]));
                    let t = choose|t: int| 0 <= t < init.len() && init[t] == rest[i];
                    assert(text_lt(pairs[t].0, pairs[pairs.len() - 1].0));
                } else {
                    assert(text_lt(rest[i].0, rest[j].0));
                }
            }
            assert forall|k: int| 0 <= k < out.len() implies #[trigger] pairs.contains(out[k]) by {
                if k == out.len() - 1 {
                    assert(pairs[pairs.len() - 1] == out[k]);
                } else {
                    assert(pairs.contains(rest[k]));
                }
            }
        }
    }
}

fn is_unwanted_header(name: &str) -> (b: bool)
    ensures
        b == unwanted_header(name@),
{
    eq_ignore_case(name, "authorization") || eq_ignore_case(name, "content-type") || eq_ignore_case(
        name,
        "origin",
    ) || eq_ignore_case(name, "x-client-transaction-id") || eq_ignore_case(name, "x-csrf-token")
        || eq_ignore_case(name, "x-guest-token") || eq_ignore_case(name, "x-twitter-auth-type")
}

fn wanted_copy(headers: &Vec<(String, String)>) -> (kept: Vec<(String, String)>)
    ensures
        kept.deep_view() == wanted_headers(headers.deep_view()),
{
    let ghost view = headers.deep_view();
    let mut kept: Vec<(String, String)> = Vec::new();
    assert(kept.deep_view() =~= wanted_headers(view.take(0)));
    for i in 0..headers.len()
        invariant
            view == headers.deep_view(),
            kept.deep_view() == wanted_headers(view.take(i as int)),
    {
        assert(view.take(i + 1).drop_last() =~= view.take(i as int));
        assert(view[i as int] == (headers@[i as int].0@, headers@[i as int].1@));
        if !is_unwanted_header(headers[i].0.as_str()) {
            let ghost before = kept.deep_view();
            kept.push((headers[i].0.clone(), headers[i].1.clone()));
            assert(kept.deep_view() =~= before.push(view[i as int]));
        }
    }
    assert(view.take(headers@.len() as int) =~= view);
    kept
}

/// Drop the headers that page and script requests must not carry.
pub fn strip_unwanted_headers(headers: &mut Vec<(String, String)>)
    ensures
        final(headers).deep_view() == wanted_headers(old(headers).deep_view()),
{
    let kept = wanted_copy(headers);
    *headers = kept;
}

/// The headers of a home-page request: the caller's headers without the
/// unwanted ones, with browser navigation headers set.
pub open spec fn document_headers(request: TextPairs) -> Map<Seq<char>, Seq<char>> {
    last_wins(wanted_headers(request)).insert(
        "Accept"@,
        "text/html,application/xhtml+xml,application/xml;q=0.9,image/avif,image/webp,image/apng,*/*;q=0.8,application/signed-exchange;v=b3;q=0.7"@,
    ).insert("Cache-Control"@, "no-cache"@).insert("Pragma"@, "no-cache"@).insert(
        "Sec-Fetch-Dest"@,
        "document"@,
    ).insert("Sec-Fetch-Mode"@, "navigate"@).insert("Sec-Fetch-Site"@, "none"@).insert(
        "Sec-Fetch-User"@,
        "?1"@,
    ).insert("Upgrade-Insecure-Requests"@, "1"@)
}

/// The headers of a home-page request, each name once in ascending order.
pub fn build_document_headers(request_headers: &Vec<(String, String)>) -> (headers: Vec<
    (String, String),
>)
    requires
        names_ascending(request_headers.deep_view()),
    ensures
        names_ascending(headers.deep_view()),
        last_wins(headers.deep_view()) == document_headers(request_headers.deep_view()),
{
    proof {
        lemma_wanted_headers(request_headers.deep_view());
    }
    let mut headers = wanted_copy(request_headers);
    ascending_pairs_set(
        &mut headers,
        "Accept".to_owned(),
        "text/html,application/xhtml+xml,application/xml;q=0.9,image/avif,image/webp,image/apng,*/*;q=0.8,application/signed-exchange;v=b3;q=0.7".to_owned(),
    );
    ascending_pairs_set(&mut headers, "Cache-Control".to_owned(), "no-cache".to_owned());
    ascending_pairs_set(&mut headers, "Pragma".to_owned(), "no-cache".to_owned());
    ascending_pairs_set(&mut headers, "Sec-Fetch-Dest".to_owned(), "document".to_owned());
    ascending_pairs_set(&mut headers, "Sec-Fetch-Mode".to_owned(), "navigate".to_owned());
    ascending_pairs_set(&mut headers, "Sec-Fetch-Site".to_owned(), "none".to_owned());
    ascending_pairs_set(&mut headers, "Sec-Fetch-User".to_owned(), "?1".to_owned());
    ascending_pairs_set(&mut headers, "Upgrade-Insecure-Requests".to_owned(), "1".to_owned());
    headers
}

/// The headers of a script request: the caller's headers without the
/// unwanted ones, with script fetch headers and the site as referer.
pub open spec fn asset_headers(request: TextPairs, web_base_url: Seq<char>) -> Map<
    Seq<char>,
    Seq<char>,
> {
    last_wins(wanted_headers(request)).insert("Accept"@, "*/*"@).insert(
        "Sec-Fetch-Dest"@,
        "script"@,
    ).insert("Sec-Fetch-Mode"@, "no-cors"@).insert("Sec-Fetch-Site"@, "cross-site"@).insert(
        "Referer"@,
        trim_end_char(web_base_url, '/').push('/'),
    )
}

/// The headers of a script request, each name once in ascending order.
pub fn build_asset_headers(request_headers: &Vec<(String, String)>, web_base_url: &str) -> (headers:
    Vec<(String, String)>)
    requires
        names_ascending(request_headers.deep_view()),
    ensures
        names_ascending(headers.deep_view()),
        last_wins(headers.deep_view()) == asset_headers(request_headers.deep_view(), web_base_url@),
{
    proof {
        lemma_wanted_headers(request_headers.deep_view());
    }
    let mut headers = wanted_copy(request_headers);
    ascending_pairs_set(&mut headers, "Accept".to_owned(), "*/*".to_owned());
    ascending_pairs_set(&mut headers, "Sec-Fetch-Dest".to_owned(), "script".to_owned());
    ascending_pairs_set(&mut headers, "Sec-Fetch-Mode".to_owned(), "no-cors".to_owned());
    ascending_pairs_set(&mut headers, "Sec-Fetch-Site".to_owned(), "cross-site".to_owned());
    let mut referer = trim_end_matches_char(web_base_url, '/');
    referer.append("/");
    proof {
        reveal_strlit("/");
    }
    assert(referer@ =~= trim_end_char(web_base_url@, '/').push('/'));
    ascending_pairs_set(&mut headers, "Referer".to_owned(), referer);
    headers
}

/// `a * b`, or `u64::MAX` when that does not fit (`saturating_mul`).
pub open spec fn sat_mul(a: u64, b: u64) -> u64 {
    if a * b > u64::MAX {
        u64::MAX
    } else {
        (a * b) as u64
    }
}

/// The first index that does not address a key byte.
pub open spec fn first_bad_index(key: Seq<u8>, indices: Seq<usize>) -> Option<usize>
    decreases indices.len(),
{
    if indices.len() == 0 {
        None
    } else if indices[0] >= key.len() {
        Some(indices[0])
    } else {
        first_bad_index(key, indices.drop_first())
    }
}

/// The product, saturating from the left, of the addressed key bytes
/// modulo 16.
pub open spec fn frame_time_product(key: Seq<u8>, indices: Seq<usize>) -> u64
    decreases indices.len(),
{
    if indices.len() == 0 {
        1
    } else {
        sat_mul(
            frame_time_product(key, indices.drop_last()),
            (key[indices.last() as int] % 16) as u64,
        )
    }
}

/// The animation row and frame time that the key selects, or the message
/// of the error: frame `key[5] % 4`, row `key[row_index_key] % 16` of it,
/// time the product of the addressed key bytes modulo 16.
pub open spec fn animation_selection(
    key: Seq<u8>,
    row_index_key: usize,
    indices: Seq<usize>,
    frames: Seq<Seq<char>>,
) -> Result<(Seq<u8>, u64), Seq<char>> {
    if frames.len() < 4 {
        Err("twitter homepage did not expose enough animation frames, got "@ + decimal(frames.len()))
    } else if key.len() <= 5 {
        Err("twitter site verification key was shorter than expected"@)
    } else if row_index_key >= key.len() {
        Err("twitter row index key `"@ + decimal(row_index_key as nat) + "` was out of bounds"@)
    } else {
        match first_bad_index(key, indices) {
            Some(bad) => Err("twitter key byte index `"@ + decimal(bad as nat) + "` was out of bounds"@),
            None => {
                let frame = key[5] % 4;
                let row = key[row_index_key as int] % 16;
                let rows = frame_rows(vstd::utf8::encode_utf8(frames[frame as int]));
                if row >= rows.len() {
                    Err("twitter animation frame row `"@ + decimal(row as nat) + "` was missing"@)
                } else {
                    Ok((rows[row as int], frame_time_product(key, indices)))
                }
            },
        }
    }
}

fn message3(a: &str, b: String, c: &str) -> (m: String)
    ensures
        m@ == a@ + b@ + c@,
{
    let mut m = a.to_owned();
    m.append(b.as_str());
    m.append(c);
    m
}

/// The animation row and the frame time that the key bytes select among
/// the loading-animation frames (the integer part of the animation key).
pub fn select_animation_frame(
    key_bytes: &[u8],
    row_index_key: usize,
    key_byte_indices: &[usize],
    frame_paths: &[String],
) -> (res: Result<(Vec<u8>, u64), AppError>)
    ensures
        match animation_selection(
            key_bytes@,
            row_index_key,
            key_byte_indices@,
            frame_paths@.map_values(|p: String| p@),
        ) {
            Ok((row, time)) => res matches Ok((r, t)) && r@ == row && t == time,
            Err(message) => res matches Err(e) && e.upstream_message() == Some(message),
        },
{
    let ghost frames = frame_paths@.map_values(|p: String| p@);
    if frame_paths.len() < 4 {
        let mut message = "twitter homepage did not expose enough animation frames, got ".to_owned();
        message.append(u64_to_decimal(frame_paths.len() as u64).as_str());
        return Err(upstream_error(message));
    }
    if key_bytes.len() <= 5 {
        return Err(upstream_error("twitter site verification key was shorter than expected".to_owned()));
    }
    if row_index_key >= key_bytes.len() {
        return Err(upstream_error(message3(
            "twitter row index key `",
            u64_to_decimal(row_index_key as u64),
            "` was out of bounds",
        )));
    }
    let frame_index = (key_bytes[5] % 4) as usize;
    let row_index = (key_bytes[row_index_key] % 16) as usize;
    let mut frame_time: u64 = 1;
    let mut i = 0usize;
    assert(key_byte_indices@.skip(0) =~= key_byte_indices@);
    assert(key_byte_indices@.take(0) =~= Seq::<usize>::empty());
    while i < key_byte_indices.len()
        invariant
            frames == frame_paths@.map_values(|p: String| p@),
            frame_paths@.len() >= 4,
            key_bytes@.len() > 5,
            row_index_key < key_bytes@.len(),
            i <= key_byte_indices@.len(),
            first_bad_index(key_bytes@, key_byte_indices@) == first_bad_index(
                key_bytes@,
                key_byte_indices@.skip(i as int),
            ),
            forall|k: int| 0 <= k < i ==> #[trigger] key_byte_indices@[k] < key_bytes@.len(),
            frame_time == frame_time_product(key_bytes@, key_byte_indices@.take(i as int)),
        decreases key_byte_indices@.len() - i,
    {
        let index = key_byte_indices[i];
        assert(key_byte_indices@.skip(i as int)[0] == index);
        assert(key_byte_indices@.skip(i as int).drop_first() =~= key_byte_indices@.skip(i + 1));
        if index >= key_bytes.len() {
            assert(first_bad_index(key_bytes@, key_byte_indices@.skip(i as int)) == Some(index));

            return Err(upstream_error(message3(
                "twitter key byte index `",
                u64_to_decimal(index as u64),
                "` was out of bounds",
            )));
        }
        let value = (key_bytes[index] % 16) as u64;
        assert(key_byte_indices@.take(i + 1).drop_last() =~= key_byte_indices@.take(i as int));
        assert(key_byte_indices@.take(i + 1).last() == index);
        frame_time = match frame_time.checked_mul(value) {
            Some(t) => t,
            None => u64::MAX,
        };
        i += 1;
    }
    assert(key_byte_indices@.take(i as int) =~= key_byte_indices@);
    assert(key_byte_indices@.skip(i as int).len() == 0);
    assert(frames[frame_index as int] == frame_paths@[frame_index as int]@);
    let rows = parse_frame_rows(frame_paths[frame_index].as_str());
    if row_index >= rows.len() {
        return Err(upstream_error(message3(
            "twitter animation frame row `",
            u64_to_decimal(row_index as u64),
            "` was missing",
        )));
    }
    assert(rows@.map_values(|v: Vec<u8>| v@)[row_index as int] == rows@[row_index as int]@);
    let mut row: Vec<u8> = Vec::new();
    let row_len = rows[row_index].len();
    for k in 0..row_len
        invariant
            row_index < rows@.len(),
            row_len == rows@[row_index as int]@.len(),
            row@ == rows@[row_index as int]@.take(k as int),
    {
        row.push(rows[row_index][k]);
        assert(row@ =~= rows@[row_index as int]@.take(k + 1));
    }
    assert(rows@[row_index as int]@.take(rows@[row_index as int]@.len() as int) =~= rows@[row_index as int]@);
    Ok((row, frame_time))
}

/// The keyword mixed into every transaction hash.
pub const DEFAULT_KEYWORD: &'static str = "obfiowerehiring";

/// The byte appended to every transaction payload.
pub const ADDITIONAL_RANDOM_NUMBER: u8 = 3;

/// The start of the transaction clock, in Unix seconds.
pub const TWITTER_TRANSACTION_EPOCH_SECONDS: u64 = 1682924400;

/// What a transaction id is derived from: the site key's bytes and the
/// animation key.
#[derive(Debug, Clone)]
pub struct ClientTransactionState {
    /// The decoded site verification key.
    pub key_bytes: Vec<u8>,
    /// The animation key.
    pub animation_key: String,
}

/// The text hashed for a transaction id:
/// `{method}!{path}!{relative_time}{DEFAULT_KEYWORD}{animation_key}`.
pub open spec fn transaction_hash_text(
    method: Seq<char>,
    path: Seq<char>,
    relative_time: u32,
    animation_key: Seq<char>,
) -> Seq<char> {
    method + "!"@ + path + "!"@ + decimal(relative_time as nat) + DEFAULT_KEYWORD@ + animation_key
}

/// The little-endian bytes of a 32-bit number.
pub open spec fn le_bytes(t: u32) -> Seq<u8> {
    seq![(t % 256) as u8, ((t / 256) % 256) as u8, ((t / 65536) % 256) as u8, (t / 16777216) as u8]
}

/// Each byte XORed with `mask`.
pub open spec fn xor_all(bytes: Seq<u8>, mask: u8) -> Seq<u8> {
    bytes.map_values(|b: u8| b ^ mask)
}

/// The bytes of a transaction id: the random byte, then the key bytes,
/// the time, the first 16 digest bytes and the extra number, each XORed
/// with the random byte.
pub open spec fn transaction_payload(
    key_bytes: Seq<u8>,
    relative_time: u32,
    random_byte: u8,
    digest: Seq<u8>,
) -> Seq<u8> {
    seq![random_byte] + xor_all(
        key_bytes + le_bytes(relative_time) + digest.take(16) + seq![ADDITIONAL_RANDOM_NUMBER],
        random_byte,
    )
}

/// The text without the character `c`.
pub open spec fn without_char(s: Seq<char>, c: char) -> Seq<char>
    decreases s.len(),
{
    if s.len() == 0 {
        s
    } else if s.last() == c {
        without_char(s.drop_last(), c)
    } else {
        without_char(s.drop_last(), c).push(s.last())
    }
}

impl ClientTransactionState {
    /// The text that is hashed for a request's transaction id.
    pub fn transaction_hash_input(&self, method: &str, path: &str, relative_time: u32) -> (data:
        String)
        ensures
            data@ == transaction_hash_text(method@, path@, relative_time, self.animation_key@),
    {
        let mut data = method.to_owned();
        data.append("!");
        data.append(path);
        data.append("!");
        data.append(u64_to_decimal(relative_time as u64).as_str());
        data.append(DEFAULT_KEYWORD);
        data.append(self.animation_key.as_str());
        data
    }

    /// The transaction id for a request, given the time, the random byte
    /// and the SHA-256 digest of `transaction_hash_input`: the Base64 of
    /// `transaction_payload`, without `=`.
    pub fn generate_transaction_id_with(
        &self,
        relative_time: u32,
        random_byte: u8,
        digest: &[u8],
    ) -> (id: String)
        requires
            digest@.len() >= 16,
        ensures
            id@ == without_char(
                encode_b64(
                    transaction_payload(self.key_bytes@, relative_time, random_byte, digest@),
                ),
                '=',
            ),
    {
        let mut plain: Vec<u8> = Vec::new();
        for i in 0..self.key_bytes.len()
            invariant
                plain@ == self.key_bytes@.take(i as int),
        {
            plain.push(self.key_bytes[i]);
            assert(plain@ =~= self.key_bytes@.take(i + 1));
        }
        assert(self.key_bytes@.take(self.key_bytes@.len() as int) =~= self.key_bytes@);
        plain.push((relative_time % 256) as u8);
        plain.push(((relative_time / 256) % 256) as u8);
        plain.push(((relative_time / 65536) % 256) as u8);
        plain.push((relative_time / 16777216) as u8);
        for i in 0..16
            invariant
                digest@.len() >= 16,
                plain@ == self.key_bytes@ + le_bytes(relative_time) + digest@.take(i as int),
        {
            plain.push(digest[i]);
            assert(plain@ =~= self.key_bytes@ + le_bytes(relative_time) + digest@.take(i + 1));
        }
        plain.push(ADDITIONAL_RANDOM_NUMBER);
        let ghost all = self.key_bytes@ + le_bytes(relative_time) + digest@.take(16) + seq![
            ADDITIONAL_RANDOM_NUMBER,
        ];
        assert(plain@ =~= all);
        let mut payload: Vec<u8> = Vec::new();
        payload.push(random_byte);
        for i in 0..plain.len()
            invariant
                plain@ == all,
                payload@ == seq![random_byte] + xor_all(all.take(i as int), random_byte),
        {
            payload.push(plain[i] ^ random_byte);
            assert(payload@ =~= seq![random_byte] + xor_all(all.take(i + 1), random_byte));
        }
        assert(all.take(all.len() as int) =~= all);
        let encoded = encode_base64(payload.as_slice());
        let chars = crate::text::str_chars(encoded.as_str());
        let mut id = String::new();
        for i in 0..chars.len()
            invariant
                chars@ == encoded@,
                id@ == without_char(chars@.take(i as int), '='),
        {
            assert(chars@.take(i + 1).drop_last() =~= chars@.take(i as int));
            if chars[i] != '=' {
                push_char(&mut id, chars[i]);
            }
        }
        assert(chars@.take(chars@.len() as int) =~= chars@);
        id
    }
}

/// Seconds since the transaction epoch, truncated to 32 bits (zero before
/// the epoch).
pub open spec fn relative_time_of(now: u64) -> u32 {
    (if now > TWITTER_TRANSACTION_EPOCH_SECONDS {
        now - TWITTER_TRANSACTION_EPOCH_SECONDS
    } else {
        0
    }) as u32
}

/// Seconds since the transaction epoch for a Unix time in seconds.
pub fn relative_time_seconds(now: u64) -> (t: u32)
    ensures
        t == relative_time_of(now),
{
    let elapsed = if now > TWITTER_TRANSACTION_EPOCH_SECONDS {
        now - TWITTER_TRANSACTION_EPOCH_SECONDS
    } else {
        0
    };
    elapsed as u32
}

/// The current Unix time in whole seconds (`SystemTime::now` since the
/// epoch, zero for a clock before it); nothing is promised of the value.
#[verifier::external_body]
fn now_unix_secs() -> (secs: u64) {
    std::time::SystemTime::now().duration_since(std::time::UNIX_EPOCH).map(|d| d.as_secs()).unwrap_or_default()
}

/// Seconds since the transaction epoch, now.
pub fn current_relative_time_seconds() -> (t: u32)
    ensures
        exists|now: u64| t == relative_time_of(now),
{
    let now = now_unix_secs();
    relative_time_seconds(now)
}

} // verus!
