//! Standard Base64 (RFC 4648 alphabet), as the transaction id uses it.

use vstd::prelude::*;

use crate::error::AppError;
use crate::twitter::padding::{lemma_unpadded_text_rejected, without_padding};
use crate::text::{is_unicode_whitespace, is_whitespace, push_char, str_chars};

verus! {

/// The character for a sextet of the standard alphabet.
pub open spec fn b64_char(v: int) -> char {
    if v < 26 {
        (65 + v) as char
    } else if v < 52 {
        (97 + v - 26) as char
    } else if v < 62 {
        (48 + v - 52) as char
    } else if v == 62 {
        '+'
    } else {
        '/'
    }
}

/// Base64 of a byte string, padded with `=` to a multiple of four.
pub open spec fn encode_b64(b: Seq<u8>) -> Seq<char>
    decreases b.len(),
{
    if b.len() == 0 {
        seq![]
    } else if b.len() == 1 {
        let n = b[0] * 65536;
        seq![b64_char(n / 262144), b64_char((n / 4096) % 64), '=', '=']
    } else if b.len() == 2 {
        let n = b[0] * 65536 + b[1] * 256;
        seq![b64_char(n / 262144), b64_char((n / 4096) % 64), b64_char((n / 64) % 64), '=']
    } else {
        let n = b[0] * 65536 + b[1] * 256 + b[2];
        seq![
            b64_char(n / 262144),
            b64_char((n / 4096) % 64),
            b64_char((n / 64) % 64),
            b64_char(n % 64),
        ] + encode_b64(b.skip(3))
    }
}

/// The value of a Base64 character: a sextet, 64 for `=`, `None` for
/// anything else.
pub open spec fn sextet_of(c: char) -> Option<u8> {
    if 'A' <= c <= 'Z' {
        Some((c as int - 65) as u8)
    } else if 'a' <= c <= 'z' {
        Some((c as int - 97 + 26) as u8)
    } else if '0' <= c <= '9' {
        Some((c as int - 48 + 52) as u8)
    } else if c == '+' {
        Some(62)
    } else if c == '/' {
        Some(63)
    } else if c == '=' {
        Some(64)
    } else {
        None
    }
}

/// The sextets of a text, whitespace skipped; `None` when it holds any
/// other character outside the alphabet.
pub open spec fn sextets(s: Seq<char>) -> Option<Seq<u8>>
    decreases s.len(),
{
    if s.len() == 0 {
        Some(seq![])
    } else {
        match sextets(s.drop_last()) {
            None => None,
            Some(prev) => match sextet_of(s.last()) {
                Some(v) => Some(prev.push(v)),
                None => if is_unicode_whitespace(s.last()) {
                    Some(prev)
                } else {
                    None
                },
            },
        }
    }
}

/// The bytes of one group of four sextets (`=` counting as zero bits):
/// the first byte always, the second unless the third sextet is `=`, the
/// third unless the fourth is.
pub open spec fn group_bytes(a: u8, b: u8, c: u8, d: u8) -> Seq<u8> {
    let cc: int = if c == 64 { 0 } else { c as int };
    let dd: int = if d == 64 { 0 } else { d as int };
    let block = a * 262144 + b * 4096 + cc * 64 + dd;
    seq![(block / 65536) as u8] + (if c != 64 { seq![((block / 256) % 256) as u8] } else { seq![] })
        + (if d != 64 { seq![(block % 256) as u8] } else { seq![] })
}

/// The bytes of whole groups of sextets; `None` when a group has `=` in
/// its first or second place.
pub open spec fn decode_groups(sx: Seq<u8>) -> Option<Seq<u8>>
    decreases sx.len(),
{
    if sx.len() < 4 {
        Some(seq![])
    } else if sx[0] == 64 || sx[1] == 64 {
        None
    } else {
        match decode_groups(sx.skip(4)) {
            None => None,
            Some(rest) => Some(group_bytes(sx[0], sx[1], sx[2], sx[3]) + rest),
        }
    }
}

/// What decoding a text gives: its bytes, or the message of the error.
pub open spec fn spec_decode_base64(s: Seq<char>) -> Result<Seq<u8>, Seq<char>> {
    match sextets(s) {
        None => Err("invalid twitter base64 input: "@ + s),
        Some(sx) => if sx.len() % 4 != 0 {
            Err("invalid twitter base64 input length: "@ + s)
        } else {
            match decode_groups(sx) {
                None => Err("invalid twitter base64 padding: "@ + s),
                Some(out) => Ok(out),
            }
        },
    }
}

fn sextet_exec(c: char) -> (v: Option<u8>)
    ensures
        v == sextet_of(c),
{
    if 'A' <= c && c <= 'Z' {
        Some((c as u32 - 65) as u8)
    } else if 'a' <= c && c <= 'z' {
        Some((c as u32 - 97 + 26) as u8)
    } else if '0' <= c && c <= '9' {
        Some((c as u32 - 48 + 52) as u8)
    } else if c == '+' {
        Some(62)
    } else if c == '/' {
        Some(63)
    } else if c == '=' {
        Some(64)
    } else {
        None
    }
}

fn decode_group(out: &mut Vec<u8>, a: u8, b: u8, c: u8, d: u8)
    requires
        a < 64,
        b < 64,
        c <= 64,
        d <= 64,
    ensures
        final(out)@ == old(out)@ + group_bytes(a, b, c, d),
{
    let cc: u32 = if c == 64 { 0 } else { c as u32 };
    let dd: u32 = if d == 64 { 0 } else { d as u32 };
    let block: u32 = ((a as u32) << 18) | ((b as u32) << 12) | (cc << 6) | dd;
    let aa = a as u32;
    let bb = b as u32;
    assert(block == aa * 262144 + bb * 4096 + cc * 64 + dd) by (bit_vector)
        requires
            aa < 64,
            bb < 64,
            cc < 64,
            dd < 64,
            block == (aa << 18) | (bb << 12) | (cc << 6) | dd,
    ;
    assert(((block >> 16) & 0xff) == block / 65536 && ((block >> 8) & 0xff) == (block / 256) % 256
        && (block & 0xff) == block % 256) by (bit_vector)
        requires
            block < 16777216,
    ;
    let ghost start = out@;
    out.push(((block >> 16) & 0xff) as u8);
    if c != 64 {
        out.push(((block >> 8) & 0xff) as u8);
    }
    if d != 64 {
        out.push((block & 0xff) as u8);
    }
    assert(out@ =~= start + group_bytes(a, b, c, d));
}

/// Decode standard Base64, skipping whitespace; `=` may end a group.
pub fn decode_standard_base64(value: &str) -> (res: Result<Vec<u8>, AppError>)
    ensures
        match spec_decode_base64(value@) {
            Ok(bytes) => res matches Ok(out) && out@ == bytes,
            Err(message) => res matches Err(e) && e.config_message() == Some(message),
        },
{
    let chars = str_chars(value);
    let mut sx: Vec<u8> = Vec::new();
    for i in 0..chars.len()
        invariant
            chars@ == value@,
            sextets(chars@.take(i as int)) == Some(sx@),
            forall|k: int| 0 <= k < sx@.len() ==> #[trigger] sx@[k] <= 64,
    {
        assert(chars@.take(i + 1).drop_last() =~= chars@.take(i as int));
        match sextet_exec(chars[i]) {
            Some(v) => {
                sx.push(v);
            },
            None => {
                if !is_whitespace(chars[i]) {
                    proof {
                        lemma_sextets_none(chars@, i + 1);
                    }
                    let mut message = "invalid twitter base64 input: ".to_owned();
                    message.append(value);
                    return Err(AppError::InvalidRequestConfig(message));
                }
            },
        }
    }
    assert(chars@.take(chars@.len() as int) =~= chars@);
    if sx.len() % 4 != 0 {
        let mut message = "invalid twitter base64 input length: ".to_owned();
        message.append(value);
        return Err(AppError::InvalidRequestConfig(message));
    }
    let mut output: Vec<u8> = Vec::new();
    let mut k = 0usize;
    assert(sx@.skip(0) =~= sx@);
    while k < sx.len()
        invariant
            sextets(value@) == Some(sx@),
            sx@.len() % 4 == 0,
            k % 4 == 0,
            k <= sx@.len(),
            forall|j: int| 0 <= j < sx@.len() ==> #[trigger] sx@[j] <= 64,
            decode_groups(sx@) == (match decode_groups(sx@.skip(k as int)) {
                Some(rest) => Some(output@ + rest),
                None => None,
            }),
        decreases sx@.len() - k,
    {
        let ghost rest = sx@.skip(k as int);
        assert(rest[0] == sx@[k as int] && rest[1] == sx@[k + 1] && rest[2] == sx@[k + 2] && rest[3]
            == sx@[k + 3]);
        assert(rest.skip(4) =~= sx@.skip(k + 4));
        let a = sx[k];
        let b = sx[k + 1];
        if a == 64 || b == 64 {
            let mut message = "invalid twitter base64 padding: ".to_owned();
            message.append(value);
            return Err(AppError::InvalidRequestConfig(message));
        }
        let ghost before = output@;
        decode_group(&mut output, a, b, sx[k + 2], sx[k + 3]);
        proof {
            match decode_groups(sx@.skip(k + 4)) {
                Some(r) => {
                    assert(before + (group_bytes(a, b, sx@[k + 2], sx@[k + 3]) + r) =~= output@ + r);
                },
                None => {},
            }
        }
        k += 4;
    }
    assert(sx@.skip(k as int).len() == 0);
    assert(output@ + Seq::<u8>::empty() =~= output@);
    Ok(output)
}

proof fn lemma_sextets_none(s: Seq<char>, i: int)
    requires
        0 < i <= s.len(),
        sextets(s.take(i)) is None,
    ensures
        sextets(s) is None,
    decreases s.len() - i,
{
    if i < s.len() {
        assert(s.take(i + 1).drop_last() =~= s.take(i));
        lemma_sextets_none(s, i + 1);
    } else {
        assert(s.take(i) =~= s);
    }
}

fn b64_char_exec(v: u32) -> (c: char)
    requires
        v < 64,
    ensures
        c == b64_char(v as int),
{
    if v < 26 {
        (65 + v as u8) as char
    } else if v < 52 {
        (97 + (v - 26) as u8) as char
    } else if v < 62 {
        (48 + (v - 52) as u8) as char
    } else if v == 62 {
        '+'
    } else {
        '/'
    }
}

/// Base64 of a byte string with the standard alphabet, padded with `=`.
pub fn encode_base64(bytes: &[u8]) -> (text: String)
    ensures
        text@ == encode_b64(bytes@),
{
    let mut text = String::new();
    let mut i = 0usize;
    let n = bytes.len();
    assert(bytes@.skip(0) =~= bytes@);
    while i < n
        invariant
            n == bytes@.len(),
            i <= n,
            text@ + encode_b64(bytes@.skip(i as int)) == encode_b64(bytes@),
        decreases n - i,
    {
        let ghost rest = bytes@.skip(i as int);
        let ghost before = text@;
        let x = bytes[i] as u32;
        if n - i == 1 {
            let v = x * 65536;
            push_char(&mut text, b64_char_exec(v / 262144));
            push_char(&mut text, b64_char_exec((v / 4096) % 64));
            push_char(&mut text, '=');
            push_char(&mut text, '=');
            assert(rest[0] == bytes@[i as int]);
            assert(text@ =~= before + encode_b64(rest));
            assert(bytes@.skip(i + 1).len() == 0);
            assert(text@ + encode_b64(bytes@.skip(i + 1)) =~= text@);
            i += 1;
        } else if n - i == 2 {
            let y = bytes[i + 1] as u32;
            let v = x * 65536 + y * 256;
            push_char(&mut text, b64_char_exec(v / 262144));
            push_char(&mut text, b64_char_exec((v / 4096) % 64));
            push_char(&mut text, b64_char_exec((v / 64) % 64));
            push_char(&mut text, '=');
            assert(rest[0] == bytes@[i as int] && rest[1] == bytes@[i + 1]);
            assert(text@ =~= before + encode_b64(rest));
            assert(bytes@.skip(i + 2).len() == 0);
            assert(text@ + encode_b64(bytes@.skip(i + 2)) =~= text@);
            i += 2;
        } else {
            let y = bytes[i + 1] as u32;
            let z = bytes[i + 2] as u32;
            let v = x * 65536 + y * 256 + z;
            push_char(&mut text, b64_char_exec(v / 262144));
            push_char(&mut text, b64_char_exec((v / 4096) % 64));
            push_char(&mut text, b64_char_exec((v / 64) % 64));
            push_char(&mut text, b64_char_exec(v % 64));
            assert(rest[0] == bytes@[i as int] && rest[1] == bytes@[i + 1] && rest[2] == bytes@[i
                + 2]);
            assert(rest.skip(3) =~= bytes@.skip(i + 3));
            assert(text@ + encode_b64(bytes@.skip(i + 3)) =~= before + encode_b64(rest));
            i += 3;
        }
    }
    assert(bytes@.skip(n as int).len() == 0);
    assert(text@ + Seq::<char>::empty() =~= text@);
    text
}

/// The sextets of the Base64 text of a byte string (64 for `=`).
pub open spec fn encoded_sextets(b: Seq<u8>) -> Seq<u8>
    decreases b.len(),
{
    if b.len() == 0 {
        seq![]
    } else if b.len() == 1 {
        let n = b[0] * 65536;
        seq![(n / 262144) as u8, ((n / 4096) % 64) as u8, 64, 64]
    } else if b.len() == 2 {
        let n = b[0] * 65536 + b[1] * 256;
        seq![(n / 262144) as u8, ((n / 4096) % 64) as u8, ((n / 64) % 64) as u8, 64]
    } else {
        let n = b[0] * 65536 + b[1] * 256 + b[2];
        seq![(n / 262144) as u8, ((n / 4096) % 64) as u8, ((n / 64) % 64) as u8, (n % 64) as u8]
            + encoded_sextets(b.skip(3))
    }
}

pub(crate) proof fn lemma_sextet_of_char(v: int)
    requires
        0 <= v < 64,
    ensures
        sextet_of(b64_char(v)) == Some(v as u8),
{
}

proof fn lemma_sextets_concat(p: Seq<char>, q: Seq<char>)
    ensures
        sextets(p + q) == (match (sextets(p), sextets(q)) {
            (Some(a), Some(b)) => Some(a + b),
            _ => None,
        }),
    decreases q.len(),
{
    if q.len() == 0 {
        assert(p + q =~= p);
        if let Some(a) = sextets(p) {
            assert(a + seq![] =~= a);
        }
    } else {
        lemma_sextets_concat(p, q.drop_last());
        assert((p + q).drop_last() =~= p + q.drop_last());
        assert((p + q).last() == q.last());
        if let (Some(a), Some(b)) = (sextets(p), sextets(q.drop_last())) {
            assert((a + b).push(sextet_of(q.last())->0) =~= a + b.push(sextet_of(q.last())->0))
                by {
                if sextet_of(q.last()) is Some {
                } else {
                }
            };
        }
    }
}

proof fn lemma_sextets_group(c0: char, c1: char, c2: char, c3: char)
    requires
        sextet_of(c0) is Some,
        sextet_of(c1) is Some,
        sextet_of(c2) is Some,
        sextet_of(c3) is Some,
    ensures
        sextets(seq![c0, c1, c2, c3]) == Some(
            seq![sextet_of(c0)->0, sextet_of(c1)->0, sextet_of(c2)->0, sextet_of(c3)->0],
        ),
{
    let s = seq![c0, c1, c2, c3];
    assert(s.drop_last().drop_last().drop_last().drop_last() =~= Seq::<char>::empty());
    assert(s.drop_last().drop_last().drop_last() =~= seq![c0]);
    assert(s.drop_last().drop_last() =~= seq![c0, c1]);
    assert(s.drop_last() =~= seq![c0, c1, c2]);
    assert(sextets(Seq::<char>::empty()) == Some(Seq::<u8>::empty()));
    assert(sextets(seq![c0]) == Some(seq![sextet_of(c0)->0])) by {
        assert(seq![c0].drop_last() =~= Seq::<char>::empty());
        assert(seq![sextet_of(c0)->0] =~= Seq::<u8>::empty().push(sextet_of(c0)->0));
    }
    assert(sextets(seq![c0, c1]) == Some(seq![sextet_of(c0)->0, sextet_of(c1)->0])) by {
        assert(seq![c0, c1].drop_last() =~= seq![c0]);
        assert(seq![sextet_of(c0)->0, sextet_of(c1)->0] =~= seq![sextet_of(c0)->0].push(
            sextet_of(c1)->0,
        ));
    }
    assert(sextets(seq![c0, c1, c2]) == Some(
        seq![sextet_of(c0)->0, sextet_of(c1)->0, sextet_of(c2)->0],
    )) by {
        assert(seq![sextet_of(c0)->0, sextet_of(c1)->0, sextet_of(c2)->0] =~= seq![
            sextet_of(c0)->0,
            sextet_of(c1)->0,
        ].push(sextet_of(c2)->0));
    }
    assert(seq![sextet_of(c0)->0, sextet_of(c1)->0, sextet_of(c2)->0, sextet_of(c3)->0] =~= seq![
        sextet_of(c0)->0,
        sextet_of(c1)->0,
        sextet_of(c2)->0,
    ].push(sextet_of(c3)->0));
}

proof fn lemma_sextets_of_encoding(b: Seq<u8>)
    ensures
        sextets(encode_b64(b)) == Some(encoded_sextets(b)),
    decreases b.len(),
{
    if b.len() == 0 {
    } else if b.len() == 1 {
        let n = b[0] * 65536;
        lemma_sextet_of_char(n / 262144);
        lemma_sextet_of_char((n / 4096) % 64);
        lemma_sextets_group(b64_char(n / 262144), b64_char((n / 4096) % 64), '=', '=');
    } else if b.len() == 2 {
        let n = b[0] * 65536 + b[1] * 256;
        lemma_sextet_of_char(n / 262144);
        lemma_sextet_of_char((n / 4096) % 64);
        lemma_sextet_of_char((n / 64) % 64);
        lemma_sextets_group(
            b64_char(n / 262144),
            b64_char((n / 4096) % 64),
            b64_char((n / 64) % 64),
            '=',
        );
    } else {
        let n = b[0] * 65536 + b[1] * 256 + b[2];
        lemma_sextet_of_char(n / 262144);
        lemma_sextet_of_char((n / 4096) % 64);
        lemma_sextet_of_char((n / 64) % 64);
        lemma_sextet_of_char(n % 64);
        let g = seq![
            b64_char(n / 262144),
            b64_char((n / 4096) % 64),
            b64_char((n / 64) % 64),
            b64_char(n % 64),
        ];
        lemma_sextets_group(g[0], g[1], g[2], g[3]);
        lemma_sextets_of_encoding(b.skip(3));
        lemma_sextets_concat(g, encode_b64(b.skip(3)));
    }
}

proof fn lemma_group_round_trip(x: int, y: int, z: int)
    requires
        0 <= x < 256,
        0 <= y < 256,
        0 <= z < 256,
    ensures
        ({
            let n = x * 65536 + y * 256 + z;
            let a = n / 262144;
            let b = (n / 4096) % 64;
            let c = (n / 64) % 64;
            let d = n % 64;
            &&& a * 262144 + b * 4096 + c * 64 + d == n
            &&& n / 65536 == x
            &&& (n / 256) % 256 == y
            &&& n % 256 == z
            &&& 0 <= a < 64
        }),
{
    let n = x * 65536 + y * 256 + z;
    assert(n / 65536 == x && (n / 256) % 256 == y && n % 256 == z) by (nonlinear_arith)
        requires
            n == x * 65536 + y * 256 + z,
            0 <= x < 256,
            0 <= y < 256,
            0 <= z < 256,
    ;
    assert((n / 262144) * 262144 + ((n / 4096) % 64) * 4096 + ((n / 64) % 64) * 64 + n % 64 == n)
        by (nonlinear_arith)
        requires
            0 <= n < 16777216,
    ;
}

proof fn lemma_group_full(x: u8, y: u8, z: u8)
    ensures
        ({
            let n = x * 65536 + y * 256 + z;
            group_bytes(
                (n / 262144) as u8,
                ((n / 4096) % 64) as u8,
                ((n / 64) % 64) as u8,
                (n % 64) as u8,
            ) == seq![x, y, z]
        }),
{
    lemma_group_round_trip(x as int, y as int, z as int);
    let n = x * 65536 + y * 256 + z;
    assert(group_bytes(
        (n / 262144) as u8,
        ((n / 4096) % 64) as u8,
        ((n / 64) % 64) as u8,
        (n % 64) as u8,
    ) =~= seq![x, y, z]);
}

proof fn lemma_group_two(x: u8, y: u8)
    ensures
        ({
            let n = x * 65536 + y * 256;
            group_bytes((n / 262144) as u8, ((n / 4096) % 64) as u8, ((n / 64) % 64) as u8, 64)
                == seq![x, y]
        }),
{
    lemma_group_round_trip(x as int, y as int, 0);
    let n = x * 65536 + y * 256;
    assert(group_bytes((n / 262144) as u8, ((n / 4096) % 64) as u8, ((n / 64) % 64) as u8, 64)
        =~= seq![x, y]);
}

proof fn lemma_group_one(x: u8)
    ensures
        ({
            let n = x * 65536;
            group_bytes((n / 262144) as u8, ((n / 4096) % 64) as u8, 64, 64) == seq![x]
        }),
{
    lemma_group_round_trip(x as int, 0, 0);
    let n = x * 65536;
    assert(group_bytes((n / 262144) as u8, ((n / 4096) % 64) as u8, 64, 64) =~= seq![x]);
}

/// The four sextets of three bytes.
#[verifier::opaque]
spec fn full_group(x: u8, y: u8, z: u8) -> Seq<u8> {
    let n = x * 65536 + y * 256 + z;
    seq![(n / 262144) as u8, ((n / 4096) % 64) as u8, ((n / 64) % 64) as u8, (n % 64) as u8]
}

proof fn lemma_encoded_sextets_unfold(b: Seq<u8>)
    requires
        b.len() >= 3,
    ensures
        encoded_sextets(b) == full_group(b[0], b[1], b[2]) + encoded_sextets(b.skip(3)),
{
    reveal(full_group);
}

proof fn lemma_full_group(x: u8, y: u8, z: u8)
    ensures
        full_group(x, y, z).len() == 4,
        full_group(x, y, z)[0] != 64,
        full_group(x, y, z)[1] != 64,
        group_bytes(
            full_group(x, y, z)[0],
            full_group(x, y, z)[1],
            full_group(x, y, z)[2],
            full_group(x, y, z)[3],
        ) == seq![x, y, z],
{
    reveal(full_group);
    lemma_group_full(x, y, z);
    lemma_group_round_trip(x as int, y as int, z as int);
}

proof fn lemma_decode_groups_unfold(g: Seq<u8>, rest: Seq<u8>)
    requires
        g.len() == 4,
        g[0] != 64,
        g[1] != 64,
    ensures
        decode_groups(g + rest) == (match decode_groups(rest) {
            None => None,
            Some(r) => Some(group_bytes(g[0], g[1], g[2], g[3]) + r),
        }),
{
    let s = g + rest;
    assert(s.skip(4) =~= rest);
    assert(s[0] == g[0] && s[1] == g[1] && s[2] == g[2] && s[3] == g[3]);
}

proof fn lemma_decode_encoded_one(b: Seq<u8>)
    requires
        b.len() == 1,
    ensures
        decode_groups(encoded_sextets(b)) == Some(b),
        encoded_sextets(b).len() == 4,
{
    let n = b[0] * 65536;
    let g = seq![(n / 262144) as u8, ((n / 4096) % 64) as u8, 64u8, 64u8];
    assert(encoded_sextets(b) == g);
    lemma_group_one(b[0]);
    lemma_group_round_trip(b[0] as int, 0, 0);
    lemma_decode_groups_unfold(g, Seq::empty());
    assert(g + Seq::<u8>::empty() =~= g);
    assert(decode_groups(Seq::<u8>::empty()) == Some(Seq::<u8>::empty()));
    assert(seq![b[0]] + Seq::<u8>::empty() =~= b);
}

proof fn lemma_decode_encoded_two(b: Seq<u8>)
    requires
        b.len() == 2,
    ensures
        decode_groups(encoded_sextets(b)) == Some(b),
        encoded_sextets(b).len() == 4,
{
    let n = b[0] * 65536 + b[1] * 256;
    let g = seq![(n / 262144) as u8, ((n / 4096) % 64) as u8, ((n / 64) % 64) as u8, 64u8];
    assert(encoded_sextets(b) == g);
    lemma_group_two(b[0], b[1]);
    lemma_group_round_trip(b[0] as int, b[1] as int, 0);
    lemma_decode_groups_unfold(g, Seq::empty());
    assert(g + Seq::<u8>::empty() =~= g);
    assert(decode_groups(Seq::<u8>::empty()) == Some(Seq::<u8>::empty()));
    assert(seq![b[0], b[1]] + Seq::<u8>::empty() =~= b);
}

proof fn lemma_decode_encoded(b: Seq<u8>)
    ensures
        decode_groups(encoded_sextets(b)) == Some(b),
        encoded_sextets(b).len() % 4 == 0,
    decreases b.len(), 2int,
{
    if b.len() == 0 {
        assert(decode_groups(encoded_sextets(b)) == Some(Seq::<u8>::empty()));
        assert(b =~= Seq::<u8>::empty());
    } else if b.len() == 1 {
        lemma_decode_encoded_one(b);
    } else if b.len() == 2 {
        lemma_decode_encoded_two(b);
    } else {
        lemma_decode_encoded_full(b);
    }
}

#[verifier::spinoff_prover]
proof fn lemma_decode_encoded_full(b: Seq<u8>)
    requires
        b.len() >= 3,
    ensures
        decode_groups(encoded_sextets(b)) == Some(b),
        encoded_sextets(b).len() % 4 == 0,
    decreases b.len(), 1int,
{
    let g = full_group(b[0], b[1], b[2]);
    lemma_encoded_sextets_unfold(b);
    lemma_full_group(b[0], b[1], b[2]);
    lemma_decode_encoded(b.skip(3));
    lemma_decode_groups_unfold(g, encoded_sextets(b.skip(3)));
    assert(seq![b[0], b[1], b[2]] + b.skip(3) =~= b);
}

/// Decoding the Base64 text of any byte string gives the byte string back.
pub proof fn lemma_base64_round_trip(bytes: Seq<u8>)
    ensures
        spec_decode_base64(encode_b64(bytes)) == Ok::<Seq<u8>, Seq<char>>(bytes),
{
    lemma_sextets_of_encoding(bytes);
    lemma_decode_encoded(bytes);
}

/// A padded Base64 text holds `=` exactly when its byte count is not a
/// multiple of three, and then, with its `=` taken out, it no longer
/// decodes: what is left is not a whole number of four-character groups.
pub proof fn lemma_unpadded_base64_rejected(bytes: Seq<u8>)
    ensures
        encode_b64(bytes).contains('=') <==> bytes.len() % 3 != 0,
        encode_b64(bytes).contains('=') ==> spec_decode_base64(
            without_padding(encode_b64(bytes)),
        ) == Err::<Seq<u8>, Seq<char>>(
            "invalid twitter base64 input length: "@ + without_padding(encode_b64(bytes)),
        ),
{
    lemma_unpadded_text_rejected(bytes);
}

} // verus!
