//! Byte-level transforms used by the Kuaishou page signature.

use vstd::prelude::*;

use vstd::string::*;
use vstd::utf8::*;

use crate::text::{lower_hex_char, lower_hex_digit, push_char};

verus! {

// ---------------------------------------------------------------------------
// The `b2has` hash: a BLAKE2s-shaped compression over little-endian words.
// ---------------------------------------------------------------------------

/// The eight initial state words of the page hash.
pub open spec fn b2_iv() -> Seq<u32> {
    seq![
        2837534710u32,
        2845986804u32,
        2436420605u32,
        706843635u32,
        719254516u32,
        2557931286u32,
        2596197199u32,
        2432949778u32,
    ]
}

/// One row of the message schedule used by round `r`.
pub open spec fn sigma_row(r: int) -> Seq<usize> {
    if r == 0 {
        seq![0usize, 1, 2, 3, 4, 5, 6, 7, 8, 9, 10, 11, 12, 13, 14, 15]
    } else if r == 1 {
        seq![14usize, 10, 4, 8, 9, 15, 13, 6, 1, 12, 0, 2, 11, 7, 5, 3]
    } else if r == 2 {
        seq![11usize, 8, 12, 0, 5, 2, 15, 13, 10, 14, 3, 6, 7, 1, 9, 4]
    } else if r == 3 {
        seq![7usize, 9, 3, 1, 13, 12, 11, 14, 2, 6, 5, 10, 4, 0, 15, 8]
    } else if r == 4 {
        seq![9usize, 0, 5, 7, 2, 4, 10, 15, 14, 1, 11, 12, 6, 8, 3, 13]
    } else if r == 5 {
        seq![2usize, 12, 6, 10, 0, 11, 8, 3, 4, 13, 7, 5, 15, 14, 1, 9]
    } else if r == 6 {
        seq![12usize, 5, 1, 15, 14, 13, 4, 10, 0, 7, 6, 3, 9, 2, 8, 11]
    } else if r == 7 {
        seq![13usize, 11, 7, 14, 12, 1, 3, 9, 5, 0, 15, 4, 8, 6, 2, 10]
    } else if r == 8 {
        seq![6usize, 15, 14, 9, 11, 3, 0, 8, 12, 2, 13, 7, 1, 4, 10, 5]
    } else {
        seq![10usize, 2, 8, 4, 7, 6, 1, 5, 15, 11, 9, 14, 3, 12, 13, 0]
    }
}

/// Rotation of a 32-bit word to the right by `n` bits, `0 < n < 32`.
pub open spec fn rotr(v: u32, n: u32) -> u32 {
    (v >> n) | (v << ((32 - n) as u32))
}

/// The mixing function `G` applied to state words `a`, `b`, `c`, `d`.
#[verifier::opaque]
pub open spec fn quarter_round(
    s: Seq<u32>,
    a: int,
    b: int,
    c: int,
    d: int,
    x: u32,
    y: u32,
) -> Seq<u32> {
    let s1 = s.update(a, s[a].wrapping_add(s[b]).wrapping_add(x));
    let s2 = s1.update(d, rotr(s1[d] ^ s1[a], 16));
    let s3 = s2.update(c, s2[c].wrapping_add(s2[d]));
    let s4 = s3.update(b, rotr(s3[b] ^ s3[c], 12));
    let s5 = s4.update(a, s4[a].wrapping_add(s4[b]).wrapping_add(y));
    let s6 = s5.update(d, rotr(s5[d] ^ s5[a], 8));
    let s7 = s6.update(c, s6[c].wrapping_add(s6[d]));
    s7.update(b, rotr(s7[b] ^ s7[c], 7))
}

/// Message word `i` of round `r`.
pub open spec fn round_word(m: Seq<u32>, r: int, i: int) -> u32 {
    m[sigma_row(r)[i] as int]
}

/// One full round: four column and four diagonal mixes.
pub open spec fn hash_round(w: Seq<u32>, m: Seq<u32>, r: int) -> Seq<u32> {
    let w1 = quarter_round(w, 0, 4, 8, 12, round_word(m, r, 0), round_word(m, r, 1));
    let w2 = quarter_round(w1, 1, 5, 9, 13, round_word(m, r, 2), round_word(m, r, 3));
    let w3 = quarter_round(w2, 2, 6, 10, 14, round_word(m, r, 4), round_word(m, r, 5));
    let w4 = quarter_round(w3, 3, 7, 11, 15, round_word(m, r, 6), round_word(m, r, 7));
    let w5 = quarter_round(w4, 0, 5, 10, 15, round_word(m, r, 8), round_word(m, r, 9));
    let w6 = quarter_round(w5, 1, 6, 11, 12, round_word(m, r, 10), round_word(m, r, 11));
    let w7 = quarter_round(w6, 2, 7, 8, 13, round_word(m, r, 12), round_word(m, r, 13));
    quarter_round(w7, 3, 4, 9, 14, round_word(m, r, 14), round_word(m, r, 15))
}

/// The first `n` rounds applied in order.
pub open spec fn hash_rounds(w: Seq<u32>, m: Seq<u32>, n: nat) -> Seq<u32>
    decreases n,
{
    if n == 0 {
        w
    } else {
        hash_round(hash_rounds(w, m, (n - 1) as nat), m, n - 1)
    }
}

/// The 16-word message block: the first `n` words from `offset` folded
/// into 16 slots by XOR, word `i` landing in slot `i % 16`.
pub open spec fn message_block(words: Seq<u32>, offset: int, n: nat) -> Seq<u32>
    decreases n,
{
    if n == 0 {
        Seq::new(16, |i: int| 0u32)
    } else {
        let b = message_block(words, offset, (n - 1) as nat);
        let j = (n - 1) % 16;
        b.update(j, b[j] ^ words[offset + n - 1])
    }
}

/// One compression of `length` words at `offset` into the chaining value `h`.
pub open spec fn compress(
    h: Seq<u32>,
    words: Seq<u32>,
    offset: int,
    counter: u32,
    length: nat,
    last: bool,
) -> Seq<u32> {
    let w0 = h + b2_iv();
    let w1 = w0.update(12, w0[12] ^ counter);
    let w2 = if last {
        w1.update(14, w1[14] ^ 0xffff_ffffu32)
    } else {
        w1
    };
    let w3 = hash_rounds(w2, message_block(words, offset, length), 10);
    Seq::new(8, |i: int| h[i] ^ (w3[i] ^ w3[i + 8]))
}

/// Compression of the remaining `length` words: full 64-word chunks while
/// more than 64 words remain, then one final chunk.
pub open spec fn hash_chunks(
    h: Seq<u32>,
    words: Seq<u32>,
    offset: int,
    counter: u32,
    length: nat,
) -> Seq<u32>
    decreases length,
{
    if length > 64 {
        let c = counter.wrapping_add(64);
        hash_chunks(compress(h, words, offset, c, 64, false), words, offset + 64, c, (length - 64) as nat)
    } else {
        compress(h, words, offset, counter.wrapping_add(length as u32), length, true)
    }
}

/// The final eight state words for a word sequence.
pub open spec fn b2has_state(words: Seq<u32>) -> Seq<u32> {
    let h0 = b2_iv().update(0, b2_iv()[0] ^ 16842784u32);
    hash_chunks(h0, words, 0, 0, words.len())
}

/// Byte `i` of `bytes`, zero past the end.
pub open spec fn padded_byte(bytes: Seq<u8>, i: int) -> u8 {
    if 0 <= i < bytes.len() {
        bytes[i]
    } else {
        0
    }
}

/// The little-endian word made of bytes `4j .. 4j + 4`, zero padded.
pub open spec fn le_word(bytes: Seq<u8>, j: int) -> u32 {
    (padded_byte(bytes, 4 * j) as u32) | ((padded_byte(bytes, 4 * j + 1) as u32) << 8u32) | ((
    padded_byte(bytes, 4 * j + 2) as u32) << 16u32) | ((padded_byte(bytes, 4 * j + 3) as u32)
        << 24u32)
}

/// Number of words after zero padding to a multiple of four bytes.
pub open spec fn word_count(n: nat) -> nat {
    if n % 4 == 0 {
        n / 4
    } else {
        n / 4 + 1
    }
}

/// The bytes read as little-endian words after zero padding.
pub open spec fn b2has_words(bytes: Seq<u8>) -> Seq<u32> {
    Seq::new(word_count(bytes.len()), |j: int| le_word(bytes, j))
}

/// Eight lowercase hexadecimal digits of a word, most significant first.
pub open spec fn hex32(v: u32) -> Seq<char> {
    Seq::new(8, |i: int| lower_hex_char(((v >> ((28 - 4 * i) as u32)) & 15u32) as u8))
}

/// The words written as consecutive 8-digit hexadecimal groups.
pub open spec fn words_hex(hs: Seq<u32>) -> Seq<char>
    decreases hs.len(),
{
    if hs.len() == 0 {
        Seq::empty()
    } else {
        words_hex(hs.drop_last()) + hex32(hs.last())
    }
}

/// The `b2has` text of the UTF-8 bytes of a page value.
pub open spec fn spec_b2has(bytes: Seq<u8>) -> Seq<char> {
    words_hex(b2has_state(b2has_words(bytes)))
}

fn rotate_right(value: u32, shift: u32) -> (r: u32)
    requires
        0 < shift < 32,
    ensures
        r == rotr(value, shift),
{
    (value >> shift) | (value << (32 - shift))
}

fn blake2s_iv() -> (v: Vec<u32>)
    ensures
        v@ == b2_iv(),
{
    let v: Vec<u32> = vec![
        2837534710u32,
        2845986804u32,
        2436420605u32,
        706843635u32,
        719254516u32,
        2557931286u32,
        2596197199u32,
        2432949778u32,
    ];
    assert(v@ =~= b2_iv());
    v
}

fn blake2s_quarter_round(
    state: &mut Vec<u32>,
    a: usize,
    b: usize,
    c: usize,
    d: usize,
    x: u32,
    y: u32,
)
    requires
        a < old(state)@.len(),
        b < old(state)@.len(),
        c < old(state)@.len(),
        d < old(state)@.len(),
    ensures
        final(state)@ == quarter_round(old(state)@, a as int, b as int, c as int, d as int, x, y),
        final(state)@.len() == old(state)@.len(),
{
    reveal(quarter_round);
    state[a] = state[a].wrapping_add(state[b]).wrapping_add(x);
    state[d] = rotate_right(state[d] ^ state[a], 16);
    state[c] = state[c].wrapping_add(state[d]);
    state[b] = rotate_right(state[b] ^ state[c], 12);
    state[a] = state[a].wrapping_add(state[b]).wrapping_add(y);
    state[d] = rotate_right(state[d] ^ state[a], 8);
    state[c] = state[c].wrapping_add(state[d]);
    state[b] = rotate_right(state[b] ^ state[c], 7);
}


fn sigma_row_vec(r: usize) -> (v: Vec<usize>)
    requires
        r < 10,
    ensures
        v@ == sigma_row(r as int),
        forall|i: int| 0 <= i < 16 ==> #[trigger] v@[i] < 16,
{
    let v: Vec<usize> = if r == 0 {
        vec![0usize, 1, 2, 3, 4, 5, 6, 7, 8, 9, 10, 11, 12, 13, 14, 15]
    } else if r == 1 {
        vec![14usize, 10, 4, 8, 9, 15, 13, 6, 1, 12, 0, 2, 11, 7, 5, 3]
    } else if r == 2 {
        vec![11usize, 8, 12, 0, 5, 2, 15, 13, 10, 14, 3, 6, 7, 1, 9, 4]
    } else if r == 3 {
        vec![7usize, 9, 3, 1, 13, 12, 11, 14, 2, 6, 5, 10, 4, 0, 15, 8]
    } else if r == 4 {
        vec![9usize, 0, 5, 7, 2, 4, 10, 15, 14, 1, 11, 12, 6, 8, 3, 13]
    } else if r == 5 {
        vec![2usize, 12, 6, 10, 0, 11, 8, 3, 4, 13, 7, 5, 15, 14, 1, 9]
    } else if r == 6 {
        vec![12usize, 5, 1, 15, 14, 13, 4, 10, 0, 7, 6, 3, 9, 2, 8, 11]
    } else if r == 7 {
        vec![13usize, 11, 7, 14, 12, 1, 3, 9, 5, 0, 15, 4, 8, 6, 2, 10]
    } else if r == 8 {
        vec![6usize, 15, 14, 9, 11, 3, 0, 8, 12, 2, 13, 7, 1, 4, 10, 5]
    } else {
        vec![10usize, 2, 8, 4, 7, 6, 1, 5, 15, 11, 9, 14, 3, 12, 13, 0]
    };
    assert(v@ =~= sigma_row(r as int));
    v
}


fn blake2s_round(work: &mut Vec<u32>, block: &Vec<u32>, r: usize)
    requires
        old(work)@.len() == 16,
        block@.len() == 16,
        r < 10,
    ensures
        final(work)@ == hash_round(old(work)@, block@, r as int),
        final(work)@.len() == 16,
{
    let sigma = sigma_row_vec(r);
    blake2s_quarter_round(work, 0, 4, 8, 12, block[sigma[0]], block[sigma[1]]);
    blake2s_quarter_round(work, 1, 5, 9, 13, block[sigma[2]], block[sigma[3]]);
    blake2s_quarter_round(work, 2, 6, 10, 14, block[sigma[4]], block[sigma[5]]);
    blake2s_quarter_round(work, 3, 7, 11, 15, block[sigma[6]], block[sigma[7]]);
    blake2s_quarter_round(work, 0, 5, 10, 15, block[sigma[8]], block[sigma[9]]);
    blake2s_quarter_round(work, 1, 6, 11, 12, block[sigma[10]], block[sigma[11]]);
    blake2s_quarter_round(work, 2, 7, 8, 13, block[sigma[12]], block[sigma[13]]);
    blake2s_quarter_round(work, 3, 4, 9, 14, block[sigma[14]], block[sigma[15]]);
}

fn blake2s_compress(
    hash: &mut Vec<u32>,
    words: &Vec<u32>,
    offset: usize,
    counter: u32,
    length: usize,
    is_last_block: bool,
)
    requires
        old(hash)@.len() == 8,
        offset + length <= words@.len(),
    ensures
        final(hash)@ == compress(
            old(hash)@,
            words@,
            offset as int,
            counter,
            length as nat,
            is_last_block,
        ),
{
    let word_len = words.len();
    let iv = blake2s_iv();
    let mut work: Vec<u32> = Vec::new();
    for index in 0..8
        invariant
            hash@.len() == 8,
            work@ == hash@.take(index as int),
    {
        work.push(hash[index]);
    }
    for index in 0..8
        invariant
            hash@.len() == 8,
            iv@ == b2_iv(),
            work@ == hash@ + iv@.take(index as int),
    {
        work.push(iv[index]);
    }
    assert(work@ =~= hash@ + b2_iv());
    work[12] = work[12] ^ counter;
    if is_last_block {
        work[14] = work[14] ^ 0xffff_ffffu32;
    }
    let ghost mixed = work@;
    let mut block: Vec<u32> = Vec::new();
    for index in 0..16
        invariant
            block@ == Seq::new(index as nat, |i: int| 0u32),
    {
        block.push(0u32);
    }
    assert(block@ =~= message_block(words@, offset as int, 0));
    for index in 0..length
        invariant
            offset + length <= words@.len(),
            word_len == words@.len(),
            block@ == message_block(words@, offset as int, index as nat),
            block@.len() == 16,
    {
        let j = index % 16;
        block[j] = block[j] ^ words[offset + index];
    }
    for r in 0..10
        invariant
            work@.len() == 16,
            block@.len() == 16,
            work@ == hash_rounds(mixed, block@, r as nat),
    {
        blake2s_round(&mut work, &block, r);
    }
    let ghost before = hash@;
    for index in 0..8
        invariant
            hash@.len() == 8,
            work@.len() == 16,
            forall|i: int| 0 <= i < index ==> hash@[i] == before[i] ^ (work@[i] ^ work@[i + 8]),
            forall|i: int| index <= i < 8 ==> hash@[i] == before[i],
    {
        hash[index] = hash[index] ^ (work[index] ^ work[index + 8]);
    }
    assert(hash@ =~= Seq::new(8, |i: int| before[i] ^ (work@[i] ^ work@[i + 8])));
}

fn derive_b2has_hash(words: &Vec<u32>) -> (hash: Vec<u32>)
    ensures
        hash@ == b2has_state(words@),
        hash@.len() == 8,
{
    let mut hash = blake2s_iv();
    hash[0] = hash[0] ^ 16842784u32;
    let ghost h0 = hash@;
    let mut offset = 0usize;
    let word_len = words.len();
    let mut length = word_len;
    let mut counter = 0u32;
    while length > 64
        invariant
            offset + length == words@.len(),
            word_len == words@.len(),
            hash@.len() == 8,
            hash_chunks(hash@, words@, offset as int, counter, length as nat) == hash_chunks(
                h0,
                words@,
                0,
                0,
                words@.len(),
            ),
        decreases length,
    {
        length -= 64;
        counter = counter.wrapping_add(64);
        blake2s_compress(&mut hash, words, offset, counter, 64, false);
        offset += 64;
    }
    blake2s_compress(&mut hash, words, offset, counter.wrapping_add(length as u32), length, true);
    hash
}


/// The UTF-8 bytes of a text, each read as a signed byte.
pub open spec fn utf8_i8(text: Seq<char>) -> Seq<i8> {
    encode_utf8(text).map_values(|b: u8| b as i8)
}

fn to_utf8_i8_array(value: &str) -> (out: Vec<i8>)
    ensures
        out@ == utf8_i8(value@),
{
    let bytes = value.as_bytes();
    let mut out: Vec<i8> = Vec::new();
    for i in 0..bytes.len()
        invariant
            bytes@ == value.spec_bytes(),
            out@ == bytes@.take(i as int).map_values(|b: u8| b as i8),
    {
        out.push(bytes[i] as i8);
        assert(out@ =~= bytes@.take(i + 1).map_values(|b: u8| b as i8));
    }
    assert(bytes@.take(bytes@.len() as int) =~= bytes@);
    out
}

proof fn lemma_i8_roundtrip(x: u8)
    ensures
        (x as i8) as u8 == x,
{
    assert((x as i8) as u8 == x) by (bit_vector);
}

proof fn lemma_nibble(x: u32)
    ensures
        x & 15u32 < 16,
{
    assert(x & 15u32 < 16) by (bit_vector);
}

/// Byte `4 * j + t` of the signed UTF-8 bytes, zero past the end.
fn padded_word_byte(utf8: &Vec<i8>, j: usize, t: usize, Ghost(bytes): Ghost<Seq<u8>>) -> (b: u8)
    requires
        utf8@ == bytes.map_values(|b: u8| b as i8),
        4 * j <= utf8@.len(),
        t < 4,
    ensures
        b == padded_byte(bytes, 4 * j + t),
{
    let len = utf8.len();
    let i = 4 * j;
    if t < len - i {
        proof {
            lemma_i8_roundtrip(bytes[i + t]);
        }
        utf8[i + t] as u8
    } else {
        0
    }
}

fn derive_b2has_words(value: &str) -> (words: Vec<u32>)
    ensures
        words@ == b2has_words(value.spec_bytes()),
{
    let ghost bytes = value.spec_bytes();
    let utf8 = to_utf8_i8_array(value);
    let len = utf8.len();
    let count = if len % 4 == 0 {
        len / 4
    } else {
        len / 4 + 1
    };
    let mut words: Vec<u32> = Vec::new();
    for j in 0..count
        invariant
            utf8@ == bytes.map_values(|b: u8| b as i8),
            len == utf8@.len(),
            count == word_count(bytes.len()),
            words@ == Seq::new(j as nat, |k: int| le_word(bytes, k)),
    {
        let b0 = padded_word_byte(&utf8, j, 0, Ghost(bytes));
        let b1 = padded_word_byte(&utf8, j, 1, Ghost(bytes));
        let b2 = padded_word_byte(&utf8, j, 2, Ghost(bytes));
        let b3 = padded_word_byte(&utf8, j, 3, Ghost(bytes));
        let word = (b0 as u32) | ((b1 as u32) << 8u32) | ((b2 as u32) << 16u32) | ((b3 as u32)
            << 24u32);
        words.push(word);
        assert(words@ =~= Seq::new((j + 1) as nat, |k: int| le_word(bytes, k)));
    }
    words
}

fn to_hex32(value: u32) -> (text: String)
    ensures
        text@ == hex32(value),
{
    let mut text = String::new();
    for i in 0..8u32
        invariant
            text@ == hex32(value).take(i as int),
    {
        let shift = 28 - 4 * i;
        proof {
            lemma_nibble(value >> shift);
        }
        let digit = lower_hex_digit(((value >> shift) & 15u32) as u8);
        push_char(&mut text, digit);
        assert(text@ =~= hex32(value).take(i + 1));
    }
    assert(hex32(value).take(8) =~= hex32(value));
    text
}

/// Derive the Kuaishou page `b2has` value.
pub fn derive_kuaishou_b2has(value: &str) -> (text: String)
    ensures
        text@ == spec_b2has(value.spec_bytes()),
{
    let hash = derive_b2has_hash(&derive_b2has_words(value));
    let mut text = String::new();
    for i in 0..8
        invariant
            hash@.len() == 8,
            text@ == words_hex(hash@.take(i as int)),
    {
        let group = to_hex32(hash[i]);
        text.append(group.as_str());
        assert(hash@.take(i + 1).drop_last() =~= hash@.take(i as int));
    }
    assert(hash@.take(8) =~= hash@);
    text
}

/// Convert `b2has` into the signed byte array used by the page.
pub fn derive_kuaishou_b2sa(value: &str) -> (bytes: Vec<i8>)
    ensures
        bytes@ == utf8_i8(spec_b2has(value.spec_bytes())),
        bytes@.len() == 64,
        forall|i: int| 0 <= i < 64 ==> #[trigger] bytes@[i] >= 0,
{
    proof {
        lemma_b2sa_shape(value.spec_bytes());
    }
    to_utf8_i8_array(derive_kuaishou_b2has(value).as_str())
}


// ---------------------------------------------------------------------------
// The `cts` byte transform: a pair of shift registers clocked by a third.
// ---------------------------------------------------------------------------

/// Register file of the `cts` keystream generator.
#[derive(Clone, Copy)]
struct KuaishouCtsState {
    e: i32,
    b: i32,
    c: i32,
    d: i32,
    f: i32,
    h: i32,
    l: i32,
    m: i32,
    p: i32,
    s: i32,
    u: i32,
    y: i32,
}

/// The 48 bytes the register file is loaded from.
spec fn cts_vector() -> Seq<u8> {
    seq![
        98u8, 0, 0, 128, 49, 117, 185, 253, 224, 172, 104, 36, 223, 155, 87, 19, 32, 0, 0, 64, 2, 0,
        0, 16, 255, 255, 255, 127, 255, 255, 255, 63, 0, 0, 0, 240, 0, 0, 0, 192, 0, 0, 0, 128, 255,
        255, 255, 15,
    ]
}

/// Four bytes read as a little-endian `i32`.
spec fn le_i32(b0: u8, b1: u8, b2: u8, b3: u8) -> i32 {
    ((b0 as u32) | ((b1 as u32) << 8u32) | ((b2 as u32) << 16u32) | ((b3 as u32) << 24u32)) as i32
}

/// The register loaded from bytes `at .. at + 4` of the vector.
spec fn cts_word(at: int) -> i32 {
    le_i32(cts_vector()[at], cts_vector()[at + 1], cts_vector()[at + 2], cts_vector()[at + 3])
}

spec fn cts_initial_state() -> KuaishouCtsState {
    KuaishouCtsState {
        s: cts_word(12),
        u: cts_word(8),
        c: cts_word(4),
        l: cts_word(0),
        p: cts_word(16),
        f: cts_word(20),
        d: cts_word(24),
        y: cts_word(28),
        h: cts_word(44),
        e: cts_word(40),
        m: cts_word(36),
        b: cts_word(32),
    }
}

/// A seed character as the signed byte of its low eight bits.
spec fn seed_byte(c: char) -> i32 {
    (c as u32 as u8 as i8) as i32
}

/// `w` shifted left by eight bits once per seed character `4 .. 4 + n`,
/// each time or-ed with that character's byte.
spec fn seed_word(w: i32, seed: Seq<char>, n: nat) -> i32
    decreases n,
{
    if n == 0 {
        w
    } else {
        seed_word(w, seed, (n - 1) as nat).wrapping_shl(8) | seed_byte(seed[4 + n - 1])
    }
}

spec fn seeded_state(st: KuaishouCtsState, seed: Seq<char>) -> KuaishouCtsState {
    let s = seed_word(st.s, seed, 4);
    let u = seed_word(st.u, seed, 4);
    let c = seed_word(st.c, seed, 4);
    KuaishouCtsState {
        s: if s == 0 { 324_508_639i32 } else { s },
        u: if u == 0 { 610_839_776i32 } else { u },
        c: if c == 0 { -38_177_487i32 } else { c },
        ..st
    }
}

/// One clock of the generator: the new registers and the two output bits.
spec fn cts_clock(st: KuaishouCtsState, right: i32, left: i32) -> (KuaishouCtsState, i32, i32) {
    if st.s & 1 != 0 {
        let s = (st.s ^ (st.l >> 1)) | st.e;
        if st.u & 1 != 0 {
            (KuaishouCtsState { s, u: (st.u ^ (st.p >> 1)) | st.m, ..st }, 1, left)
        } else {
            (KuaishouCtsState { s, u: (st.u >> 1) & st.y, ..st }, 0, left)
        }
    } else {
        let s = (st.s >> 1) & st.d;
        if st.c & 1 != 0 {
            (KuaishouCtsState { s, c: (st.c ^ (st.f >> 1)) | st.b, ..st }, right, 1)
        } else {
            (KuaishouCtsState { s, c: (st.c >> 1) & st.h, ..st }, right, 0)
        }
    }
}

/// Brings a value in `-256 ..= 255` back into the signed byte range.
spec fn wrap_signed_byte(mixed: i32) -> i32 {
    if mixed > 127 {
        (mixed - 256) as i32
    } else if mixed < -128 {
        (mixed + 256) as i32
    } else {
        mixed
    }
}

/// `k` more clocks, shifting one keystream bit into `result` per clock.
spec fn cts_bits(st: KuaishouCtsState, result: i32, right: i32, left: i32, k: nat) -> (
    KuaishouCtsState,
    i32,
)
    decreases k,
{
    if k == 0 {
        (st, result)
    } else {
        let (st2, right2, left2) = cts_clock(st, right, left);
        let mixed = result.wrapping_shl(1) | (right2 ^ left2);
        cts_bits(st2, wrap_signed_byte(mixed), right2, left2, (k - 1) as nat)
    }
}

/// One transformed byte and the registers after it.
spec fn cts_byte(st: KuaishouCtsState, value: i8) -> (KuaishouCtsState, i8) {
    let (st2, r) = cts_bits(st, 0, st.u & 1, st.c & 1, 8);
    (st2, ((value as i32) ^ ((r + 3) as i32)) as i8)
}

/// The transform of a byte stream from the given registers.
spec fn cts_stream(st: KuaishouCtsState, input: Seq<i8>) -> Seq<i8>
    decreases input.len(),
{
    if input.len() == 0 {
        Seq::empty()
    } else {
        let (st2, out) = cts_byte(st, input[0]);
        seq![out] + cts_stream(st2, input.drop_first())
    }
}

/// The Kuaishou `cts` transform of a signed byte stream.
pub closed spec fn spec_cts(input: Seq<i8>) -> Seq<i8> {
    let seed = seq!['V', 'u', 'z', '4', 'f', 'C', 'H', 'x', 'n', '1', 'C', 'O'];
    cts_stream(seeded_state(cts_initial_state(), seed), input)
}

fn read_i32_le(bytes: &[u8]) -> (v: i32)
    requires
        bytes@.len() >= 4,
    ensures
        v == le_i32(bytes@[0], bytes@[1], bytes@[2], bytes@[3]),
{
    ((bytes[0] as u32) | ((bytes[1] as u32) << 8u32) | ((bytes[2] as u32) << 16u32) | ((
    bytes[3] as u32) << 24u32)) as i32
}

fn create_kuaishou_cts_state() -> (st: KuaishouCtsState)
    ensures
        st == cts_initial_state(),
{
    let v: Vec<u8> = vec![
        98u8, 0, 0, 128, 49, 117, 185, 253, 224, 172, 104, 36, 223, 155, 87, 19, 32, 0, 0, 64, 2, 0,
        0, 16, 255, 255, 255, 127, 255, 255, 255, 63, 0, 0, 0, 240, 0, 0, 0, 192, 0, 0, 0, 128, 255,
        255, 255, 15,
    ];
    assert(v@ =~= cts_vector());
    let st = KuaishouCtsState {
        s: read_i32_le(&v.as_slice()[12..16]),
        u: read_i32_le(&v.as_slice()[8..12]),
        c: read_i32_le(&v.as_slice()[4..8]),
        l: read_i32_le(&v.as_slice()[0..4]),
        p: read_i32_le(&v.as_slice()[16..20]),
        f: read_i32_le(&v.as_slice()[20..24]),
        d: read_i32_le(&v.as_slice()[24..28]),
        y: read_i32_le(&v.as_slice()[28..32]),
        h: read_i32_le(&v.as_slice()[44..48]),
        e: read_i32_le(&v.as_slice()[40..44]),
        m: read_i32_le(&v.as_slice()[36..40]),
        b: read_i32_le(&v.as_slice()[32..36]),
    };
    st
}


fn seed_kuaishou_cts_state(state: &mut KuaishouCtsState, seed: &str)
    requires
        seed@.len() >= 8,
    ensures
        *final(state) == seeded_state(*old(state), seed@),
{
    let ghost st0 = *state;
    for index in 0..4
        invariant
            seed@.len() >= 8,
            state.s == seed_word(st0.s, seed@, index as nat),
            state.u == seed_word(st0.u, seed@, index as nat),
            state.c == seed_word(st0.c, seed@, index as nat),
            *state == (KuaishouCtsState { s: state.s, u: state.u, c: state.c, ..st0 }),
    {
        let value = (seed.get_char(index + 4) as u32 as u8 as i8) as i32;
        state.s = state.s.wrapping_shl(8) | value;
        state.u = state.u.wrapping_shl(8) | value;
        state.c = state.c.wrapping_shl(8) | value;
    }
    if state.s == 0 {
        state.s = 324_508_639;
    }
    if state.u == 0 {
        state.u = 610_839_776;
    }
    if state.c == 0 {
        state.c = -38_177_487;
    }
}

proof fn lemma_low_bit(x: i32)
    ensures
        0 <= x & 1 <= 1,
{
    assert(0 <= x & 1 <= 1) by (bit_vector);
}

proof fn lemma_shifted_bit_range(r: i32, a: i32, b: i32)
    requires
        -128 <= r <= 127,
        0 <= a <= 1,
        0 <= b <= 1,
    ensures
        0 <= a ^ b <= 1,
        -256 <= r.wrapping_shl(1) | (a ^ b) <= 255,
{
    assert(r.wrapping_shl(1) == r << 1u32);
    assert(0 <= a <= 1 && 0 <= b <= 1 ==> 0 <= a ^ b <= 1) by (bit_vector);
    assert(-128 <= r <= 127 && 0 <= a <= 1 && 0 <= b <= 1 ==> -256 <= (r << 1u32) | (a ^ b)
        <= 255) by (bit_vector);
}

fn derive_kuaishou_cts_byte(state: &mut KuaishouCtsState, value: i8) -> (out: i8)
    ensures
        (*final(state), out) == cts_byte(*old(state), value),
{
    let ghost st0 = *state;
    let mut result = 0i32;
    let mut right_bit = state.u & 1;
    let mut left_bit = state.c & 1;
    proof {
        lemma_low_bit(state.u);
        lemma_low_bit(state.c);
    }
    for k in 0..8u32
        invariant
            cts_bits(*state, result, right_bit, left_bit, (8 - k) as nat) == cts_bits(
                st0,
                0,
                st0.u & 1,
                st0.c & 1,
                8,
            ),
            -128 <= result <= 127,
            0 <= right_bit <= 1,
            0 <= left_bit <= 1,
    {
        if state.s & 1 != 0 {
            state.s = (state.s ^ (state.l >> 1)) | state.e;
            if state.u & 1 != 0 {
                state.u = (state.u ^ (state.p >> 1)) | state.m;
                right_bit = 1;
            } else {
                state.u = (state.u >> 1) & state.y;
                right_bit = 0;
            }
        } else {
            state.s = (state.s >> 1) & state.d;
            if state.c & 1 != 0 {
                state.c = (state.c ^ (state.f >> 1)) | state.b;
                left_bit = 1;
            } else {
                state.c = (state.c >> 1) & state.h;
                left_bit = 0;
            }
        }
        proof {
            lemma_shifted_bit_range(result, right_bit, left_bit);
        }
        let mixed = result.wrapping_shl(1) | (right_bit ^ left_bit);
        result = if mixed > 127 {
            mixed - 256
        } else if mixed < -128 {
            mixed + 256
        } else {
            mixed
        };
    }
    ((value as i32) ^ (result + 3)) as i8
}

/// Derive the Kuaishou `cts` byte stream transform.
pub fn derive_kuaishou_cts(input: &[i8]) -> (out: Vec<i8>)
    ensures
        out@ == spec_cts(input@),
        out@.len() == input@.len(),
{
    proof {
        lemma_cts_length(input@);
    }
    let mut state = create_kuaishou_cts_state();
    let seed = "Vuz4fCHxn1CO";
    proof {
        reveal_strlit("Vuz4fCHxn1CO");
    }
    assert(seed@ =~= seq!['V', 'u', 'z', '4', 'f', 'C', 'H', 'x', 'n', '1', 'C', 'O']);
    seed_kuaishou_cts_state(&mut state, seed);
    let ghost start = state;
    let mut out: Vec<i8> = Vec::new();
    assert(input@.skip(0) =~= input@);
    for i in 0..input.len()
        invariant
            out@ + cts_stream(state, input@.skip(i as int)) == cts_stream(start, input@),
    {
        let ghost rest = input@.skip(i as int);
        let byte = derive_kuaishou_cts_byte(&mut state, input[i]);
        out.push(byte);
        assert(rest.drop_first() =~= input@.skip(i + 1));
        assert(out@ + cts_stream(state, input@.skip(i + 1)) =~= cts_stream(start, input@));
    }
    assert(input@.skip(input@.len() as int) =~= Seq::<i8>::empty());
    assert(out@ =~= out@ + cts_stream(state, input@.skip(input@.len() as int)));
    out
}


// ---------------------------------------------------------------------------
// Hexadecimal helpers of the `$HE_` value.
// ---------------------------------------------------------------------------

/// `{:02x}` of a byte.
pub open spec fn hex_byte(v: u8) -> Seq<char> {
    seq![lower_hex_char(v / 16), lower_hex_char(v % 16)]
}

/// Lowercase hexadecimal of a byte sequence, two digits per byte.
pub open spec fn lower_hex(bytes: Seq<u8>) -> Seq<char>
    decreases bytes.len(),
{
    if bytes.len() == 0 {
        Seq::empty()
    } else {
        lower_hex(bytes.drop_last()) + hex_byte(bytes.last())
    }
}

/// The byte a signed value stands for (`value & 255`).
pub open spec fn low_byte(value: i8) -> u8 {
    ((value as i32) & 255) as u8
}

/// Lowercase hexadecimal of signed bytes, each taken as its low eight bits.
pub open spec fn signed_lower_hex(bytes: Seq<i8>) -> Seq<char> {
    lower_hex(bytes.map_values(|b: i8| low_byte(b)))
}

/// Whether a byte is an ASCII hexadecimal digit.
pub open spec fn is_hex_digit(b: u8) -> bool {
    (48 <= b <= 57) || (97 <= b <= 102) || (65 <= b <= 70)
}

/// The value of an ASCII hexadecimal digit.
pub open spec fn hex_digit_value(b: u8) -> u8 {
    if 48 <= b <= 57 {
        (b - 48) as u8
    } else if 97 <= b <= 102 {
        (b - 87) as u8
    } else {
        (b - 55) as u8
    }
}

/// Whether `u8::from_str_radix(_, 16)` accepts the two bytes `x y`:
/// two hexadecimal digits, or a `+` sign before one.
pub open spec fn hex_pair_ok(x: u8, y: u8) -> bool {
    is_hex_digit(y) && (is_hex_digit(x) || x == 43)
}

/// The value of an accepted pair.
pub open spec fn hex_pair_value(x: u8, y: u8) -> u8 {
    if x == 43 {
        hex_digit_value(y)
    } else {
        (hex_digit_value(x) * 16 + hex_digit_value(y)) as u8
    }
}

/// Every complete two-byte chunk of the text is an accepted pair (a
/// trailing odd byte is ignored).
pub open spec fn hex_text_ok(bytes: Seq<u8>) -> bool {
    forall|i: int| 0 <= i < bytes.len() / 2 ==> #[trigger] hex_pair_ok(bytes[2 * i], bytes[2 * i + 1])
}

/// The signed bytes decoded from the complete two-byte chunks.
pub open spec fn hex_text_bytes(bytes: Seq<u8>) -> Seq<i8> {
    Seq::new(bytes.len() / 2, |i: int| hex_pair_value(bytes[2 * i], bytes[2 * i + 1]) as i8)
}

fn hex_nibble(b: u8) -> (v: u8)
    requires
        is_hex_digit(b),
    ensures
        v == hex_digit_value(b),
        v < 16,
{
    if 48 <= b && b <= 57 {
        b - 48
    } else if 97 <= b && b <= 102 {
        b - 87
    } else {
        b - 55
    }
}

fn push_hex_byte(text: &mut String, v: u8)
    ensures
        final(text)@ == old(text)@ + hex_byte(v),
{
    push_char(text, lower_hex_digit(v / 16));
    push_char(text, lower_hex_digit(v % 16));
    assert(final(text)@ =~= old(text)@ + hex_byte(v));
}

/// Encode bytes as lowercase hexadecimal.
pub fn bytes_to_lower_hex(bytes: &[i8]) -> (text: String)
    ensures
        text@ == signed_lower_hex(bytes@),
{
    let ghost low = bytes@.map_values(|b: i8| low_byte(b));
    let mut text = String::new();
    for i in 0..bytes.len()
        invariant
            low == bytes@.map_values(|b: i8| low_byte(b)),
            text@ == lower_hex(low.take(i as int)),
    {
        let value = ((bytes[i] as i32) & 255) as u8;
        push_hex_byte(&mut text, value);
        assert(low.take(i + 1).drop_last() =~= low.take(i as int));
    }
    assert(low.take(bytes@.len() as int) =~= low);
    text
}

/// Decode a hexadecimal string into signed bytes.
pub fn hex_to_signed_bytes(value: &str) -> (out: Vec<i8>)
    requires
        hex_text_ok(value.spec_bytes()),
    ensures
        out@ == hex_text_bytes(value.spec_bytes()),
{
    let bytes = value.as_bytes();
    let n = bytes.len();
    let count = n / 2;
    let mut out: Vec<i8> = Vec::new();
    for i in 0..count
        invariant
            bytes@ == value.spec_bytes(),
            n == bytes@.len(),
            count == n / 2,
            hex_text_ok(bytes@),
            out@ == hex_text_bytes(bytes@).take(i as int),
    {
        let x = bytes[2 * i];
        let y = bytes[2 * i + 1];
        assert(hex_pair_ok(bytes@[2 * i], bytes@[2 * i + 1]));
        let low = hex_nibble(y);
        let v = if x == 43 {
            low
        } else {
            hex_nibble(x) * 16 + low
        };
        out.push(#[verifier::truncate] (v as i8));
        assert(out@ =~= hex_text_bytes(bytes@).take(i + 1));
    }
    assert(hex_text_bytes(bytes@).take(count as int) =~= hex_text_bytes(bytes@));
    out
}

/// `left[i] ^ (right[i % right.len()] & 255)` for each byte of `left`.
pub open spec fn xor_cycle(left: Seq<i8>, right: Seq<i8>) -> Seq<i8> {
    Seq::new(
        left.len(),
        |i: int| ((left[i] as i32) ^ ((right[i % right.len() as int] as i32) & 255)) as i8,
    )
}

/// XOR the left byte array with the right byte array in a repeating cycle.
pub fn xor_byte_arrays(left: &[i8], right: &[i8]) -> (out: Vec<i8>)
    requires
        left@.len() == 0 || right@.len() > 0,
    ensures
        out@ == xor_cycle(left@, right@),
{
    let mut out: Vec<i8> = Vec::new();
    for index in 0..left.len()
        invariant
            left@.len() == 0 || right@.len() > 0,
            out@ == xor_cycle(left@, right@).take(index as int),
    {
        let mask = (right[index % right.len()] as i32) & 255;
        out.push(((left[index] as i32) ^ mask) as i8);
        assert(out@ =~= xor_cycle(left@, right@).take(index + 1));
    }
    assert(xor_cycle(left@, right@).take(left@.len() as int) =~= xor_cycle(left@, right@));
    out
}

/// Byte `i` of `value` counted from the least significant end.
pub open spec fn le_byte(value: u64, i: int) -> u8 {
    ((value >> ((8 * i) as u64)) & 255u64) as u8
}

/// The low `size` bytes of `value`, least significant first, in hexadecimal.
pub open spec fn le_hex(value: u64, size: nat) -> Seq<char> {
    lower_hex(Seq::new(size, |i: int| le_byte(value, i)))
}

/// Encode a value as fixed-size little-endian hexadecimal.
pub fn to_little_endian_hex(value: u64, size: usize) -> (text: String)
    requires
        size <= 8,
    ensures
        text@ == le_hex(value, size as nat),
{
    let ghost all = Seq::new(size as nat, |i: int| le_byte(value, i));
    let mut text = String::new();
    for index in 0..size
        invariant
            size <= 8,
            all == Seq::new(size as nat, |i: int| le_byte(value, i)),
            text@ == lower_hex(all.take(index as int)),
    {
        let byte = ((value >> (8 * index as u64)) & 255) as u8;
        push_hex_byte(&mut text, byte);
        assert(all.take(index + 1).drop_last() =~= all.take(index as int));
    }
    assert(all.take(size as int) =~= all);
    text
}


/// The value `byte & 255` a signed byte adds to the checksum.
pub open spec fn low_value(b: i8) -> i32 {
    (b as i32) & 255
}

/// Sum of the low values of the bytes.
pub open spec fn byte_sum(bytes: Seq<i8>) -> int
    decreases bytes.len(),
{
    if bytes.len() == 0 {
        0
    } else {
        byte_sum(bytes.drop_last()) + low_value(bytes.last())
    }
}

/// The longitudinal redundancy check of a byte sum: its negation modulo 256.
pub open spec fn lrc_byte(sum: int) -> u8 {
    ((256 - sum % 256) % 256) as u8
}

/// The checksum text of the bytes a hexadecimal text decodes to.
pub open spec fn spec_lrc_hex(text_bytes: Seq<u8>) -> Seq<char> {
    hex_byte(lrc_byte(byte_sum(hex_text_bytes(text_bytes))))
}

proof fn lemma_low_value(b: i8)
    ensures
        0 <= low_value(b) <= 255,
{
    assert(0 <= (b as i32) & 255 <= 255) by (bit_vector);
}

/// Compute the page LRC checksum used by `$HE_`: the negated byte sum
/// modulo 256, as two lowercase hexadecimal digits.
pub fn compute_kuaishou_lrc_hex(source_hex: &str) -> (text: String)
    requires
        hex_text_ok(source_hex.spec_bytes()),
    ensures
        text@ == spec_lrc_hex(source_hex.spec_bytes()),
{
    let decoded = hex_to_signed_bytes(source_hex);
    let mut acc: u32 = 0;
    for i in 0..decoded.len()
        invariant
            acc == byte_sum(decoded@.take(i as int)) % 256,
    {
        let ghost before = byte_sum(decoded@.take(i as int));
        let low = (decoded[i] as i32) & 255;
        proof {
            lemma_low_value(decoded@[i as int]);
            assert(decoded@.take(i + 1).drop_last() =~= decoded@.take(i as int));
            lemma_byte_sum_nonnegative(decoded@.take(i as int));
            vstd::arithmetic::div_mod::lemma_add_mod_noop(before, low as int, 256);
            assert((low as int) % 256 == low as int);
        }
        acc = (acc + low as u32) % 256;
    }
    assert(decoded@.take(decoded@.len() as int) =~= decoded@);
    let mut text = String::new();
    push_hex_byte(&mut text, ((256 - acc) % 256) as u8);
    text
}

/// The final `$HE_` bytes: every byte but the last XOR-ed with the last.
pub open spec fn he_bytes(input: Seq<i8>) -> Seq<i8> {
    let key = input.last();
    Seq::new(
        input.len(),
        |i: int|
            if i == input.len() - 1 {
                key
            } else {
                ((input[i] as i32) ^ (key as i32)) as i8
            },
    )
}

/// The `$HE_` text for the hexadecimal text `prefix ++ checksum`.
pub open spec fn spec_he_hex(text: Seq<char>) -> Seq<char> {
    let input = hex_text_bytes(encode_utf8(text));
    if input.len() == 0 {
        Seq::empty()
    } else {
        signed_lower_hex(he_bytes(input))
    }
}

/// Apply the final Kuaishou `$HE_` XOR transform.
pub fn transform_kuaishou_he_hex(prefix_hex: &str, checksum_hex: &str) -> (text: String)
    requires
        hex_text_ok(encode_utf8(prefix_hex@ + checksum_hex@)),
    ensures
        text@ == spec_he_hex(prefix_hex@ + checksum_hex@),
{
    let mut joined = prefix_hex.to_owned();
    joined.append(checksum_hex);
    let input = hex_to_signed_bytes(joined.as_str());
    if input.len() == 0 {
        return String::new();
    }
    let n = input.len();
    let key = input[n - 1];
    let mut output: Vec<i8> = Vec::new();
    for index in 0..n - 1
        invariant
            n == input@.len(),
            n > 0,
            key == input@[n - 1],
            output@ == he_bytes(input@).take(index as int),
    {
        output.push(((input[index] as i32) ^ (key as i32)) as i8);
        assert(output@ =~= he_bytes(input@).take(index + 1));
    }
    output.push(key);
    assert(output@ =~= he_bytes(input@));
    bytes_to_lower_hex(output.as_slice())
}


// ---------------------------------------------------------------------------
// Laws of the transforms.
// ---------------------------------------------------------------------------

proof fn lemma_xor_byte_twice(a: i8, m: i32)
    requires
        0 <= m <= 255,
    ensures
        ((((a as i32) ^ m) as i8) as i32 ^ m) as i8 == a,
{
    assert(((((a as i32) ^ m) as i8) as i32 ^ m) as i8 == a) by (bit_vector)
        requires
            0 <= m <= 255,
    ;
}

/// XOR-ing with the same cycling key twice gives the bytes back.
pub proof fn lemma_xor_cycle_involution(left: Seq<i8>, right: Seq<i8>)
    requires
        left.len() == 0 || right.len() > 0,
    ensures
        xor_cycle(xor_cycle(left, right), right) == left,
{
    let once = xor_cycle(left, right);
    let twice = xor_cycle(once, right);
    assert forall|i: int| 0 <= i < left.len() implies twice[i] == left[i] by {
        let r = right[i % right.len() as int];
        let m = (r as i32) & 255;
        assert(0 <= m <= 255) by (bit_vector)
            requires
                m == (r as i32) & 255,
        ;
        lemma_xor_byte_twice(left[i], m);
    }
    assert(twice =~= left);
}

/// The `$HE_` transform undoes itself: its last byte, the key, stays.
pub proof fn lemma_he_bytes_involution(input: Seq<i8>)
    requires
        input.len() > 0,
    ensures
        he_bytes(he_bytes(input)) == input,
{
    let once = he_bytes(input);
    let twice = he_bytes(once);
    assert(once.last() == input.last());
    assert forall|i: int| 0 <= i < input.len() implies twice[i] == input[i] by {
        if i < input.len() - 1 {
            let k = input.last();
            let a = input[i];
            assert(((((a as i32) ^ (k as i32)) as i8) as i32 ^ (k as i32)) as i8 == a) by (bit_vector);
        }
    }
    assert(twice =~= input);
}

proof fn lemma_cts_byte_twice(st: KuaishouCtsState, v: i8)
    ensures
        cts_byte(st, cts_byte(st, v).1).0 == cts_byte(st, v).0,
        cts_byte(st, cts_byte(st, v).1).1 == v,
{
    let r = cts_bits(st, 0, st.u & 1, st.c & 1, 8).1;
    let k = (r + 3) as i32;
    assert(((((v as i32) ^ k) as i8) as i32 ^ k) as i8 == v) by (bit_vector);
}

proof fn lemma_cts_stream_twice(st: KuaishouCtsState, input: Seq<i8>)
    ensures
        cts_stream(st, cts_stream(st, input)) == input,
    decreases input.len(),
{
    if input.len() > 0 {
        let (st2, out) = cts_byte(st, input[0]);
        lemma_cts_byte_twice(st, input[0]);
        let once = cts_stream(st, input);
        assert(once[0] == out);
        assert(once.drop_first() =~= cts_stream(st2, input.drop_first()));
        lemma_cts_stream_twice(st2, input.drop_first());
        assert(cts_stream(st, once) =~= seq![input[0]] + input.drop_first());
        assert(seq![input[0]] + input.drop_first() =~= input);
    }
}

/// The `cts` transform undoes itself: its keystream does not depend on
/// the bytes it is applied to.
pub proof fn lemma_cts_involution(input: Seq<i8>)
    ensures
        spec_cts(spec_cts(input)) == input,
{
    let seed = seq!['V', 'u', 'z', '4', 'f', 'C', 'H', 'x', 'n', '1', 'C', 'O'];
    lemma_cts_stream_twice(seeded_state(cts_initial_state(), seed), input);
}

proof fn lemma_byte_sum_nonnegative(bytes: Seq<i8>)
    ensures
        byte_sum(bytes) >= 0,
    decreases bytes.len(),
{
    if bytes.len() > 0 {
        lemma_byte_sum_nonnegative(bytes.drop_last());
        lemma_low_value(bytes.last());
    }
}

/// The checksum byte brings the byte sum to a multiple of 256.
pub proof fn lemma_lrc_completes(bytes: Seq<i8>)
    ensures
        (byte_sum(bytes) + lrc_byte(byte_sum(bytes)) as int) % 256 == 0,
{
    lemma_byte_sum_nonnegative(bytes);
}

proof fn lemma_lower_hex_layout(bytes: Seq<u8>)
    ensures
        lower_hex(bytes).len() == 2 * bytes.len(),
        forall|i: int|
            0 <= i < bytes.len() ==> lower_hex(bytes)[2 * i] == lower_hex_char(#[trigger] bytes[i] / 16)
                && lower_hex(bytes)[2 * i + 1] == lower_hex_char(bytes[i] % 16),
    decreases bytes.len(),
{
    if bytes.len() > 0 {
        let init = bytes.drop_last();
        lemma_lower_hex_layout(init);
        assert forall|i: int| 0 <= i < bytes.len() implies lower_hex(bytes)[2 * i] == lower_hex_char(
            #[trigger] bytes[i] / 16,
        ) && lower_hex(bytes)[2 * i + 1] == lower_hex_char(bytes[i] % 16) by {
            if i < bytes.len() - 1 {
                assert(init[i] == bytes[i]);
            }
        }
    }
}

proof fn lemma_hex_char_digit(n: u8)
    requires
        n < 16,
    ensures
        is_hex_digit(lower_hex_char(n) as u8),
        hex_digit_value(lower_hex_char(n) as u8) == n,
        '\0' <= lower_hex_char(n) <= '\u{7f}',
{
}

/// Hexadecimal decoding gives back the bytes that hexadecimal encoding
/// wrote.
pub proof fn lemma_hex_round_trip(bytes: Seq<i8>)
    ensures
        hex_text_ok(encode_utf8(signed_lower_hex(bytes))),
        hex_text_bytes(encode_utf8(signed_lower_hex(bytes))) == bytes,
{
    let low = bytes.map_values(|b: i8| low_byte(b));
    let text = lower_hex(low);
    lemma_lower_hex_layout(low);
    assert forall|i: int| 0 <= i < text.len() implies '\0' <= #[trigger] text[i] <= '\u{7f}' by {
        let j = i / 2;
        assert(low[j] == low_byte(bytes[j]));
        lemma_hex_char_digit(low[j] / 16);
        lemma_hex_char_digit(low[j] % 16);
        if i % 2 == 0 {
            assert(i == 2 * j);
        } else {
            assert(i == 2 * j + 1);
        }
    }
    assert(is_ascii_chars(text));
    is_ascii_chars_encode_utf8(text);
    let enc = encode_utf8(text);
    assert forall|i: int| 0 <= i < enc.len() / 2 implies #[trigger] hex_pair_ok(enc[2 * i], enc[2 * i + 1])
        && hex_pair_value(enc[2 * i], enc[2 * i + 1]) as i8 == bytes[i] by {
        assert(low[i] == low_byte(bytes[i]));
        lemma_hex_char_digit(low[i] / 16);
        lemma_hex_char_digit(low[i] % 16);
        assert(enc[2 * i] == text[2 * i] as u8);
        assert(enc[2 * i + 1] == text[2 * i + 1] as u8);
        let b = bytes[i];
        assert(((((b as i32) & 255) as u8 / 16 * 16 + ((b as i32) & 255) as u8 % 16) as u8) as i8 == b)
            by (bit_vector);
    }
    assert(enc.len() == 2 * bytes.len());
    assert(enc.len() / 2 == bytes.len());
    assert forall|i: int| 0 <= i < bytes.len() implies hex_text_bytes(enc)[i] == bytes[i] by {
        assert(hex_pair_ok(enc[2 * i], enc[2 * i + 1]));
    }
    assert(hex_text_bytes(enc) =~= bytes);
}

/// A text of lowercase hexadecimal digits, two to a byte.
pub open spec fn is_lower_hex_text(text: Seq<char>) -> bool {
    &&& text.len() % 2 == 0
    &&& forall|i: int|
        0 <= i < text.len() ==> ('0' <= #[trigger] text[i] <= '9') || ('a' <= text[i] <= 'f')
}

/// A hexadecimal digit of either case.
pub open spec fn is_hex_char(c: char) -> bool {
    ('0' <= c <= '9') || ('a' <= c <= 'f') || ('A' <= c <= 'F')
}

/// A text of hexadecimal digits of either case, two to a byte.
pub open spec fn is_hex_text(text: Seq<char>) -> bool {
    &&& text.len() % 2 == 0
    &&& forall|i: int| 0 <= i < text.len() ==> is_hex_char(#[trigger] text[i])
}

/// A hexadecimal digit in lowercase.
pub open spec fn lower_digit(c: char) -> char {
    if 'A' <= c <= 'F' {
        (c as int + 32) as char
    } else {
        c
    }
}

/// A hexadecimal text in lowercase.
pub open spec fn lowercase_hex(text: Seq<char>) -> Seq<char> {
    text.map_values(|c: char| lower_digit(c))
}

proof fn lemma_digit_char(c: char)
    requires
        is_hex_char(c),
    ensures
        is_hex_digit(c as u8),
        hex_digit_value(c as u8) < 16,
        lower_hex_char(hex_digit_value(c as u8)) == lower_digit(c),
{
}

/// Decoding a hexadecimal text and encoding the bytes again gives the text
/// in lowercase.
proof fn lemma_hex_text_round_trip(text: Seq<char>)
    requires
        is_hex_text(text),
    ensures
        hex_text_ok(encode_utf8(text)),
        hex_text_bytes(encode_utf8(text)).len() == text.len() / 2,
        signed_lower_hex(hex_text_bytes(encode_utf8(text))) == lowercase_hex(text),
{
    assert(is_ascii_chars(text));
    is_ascii_chars_encode_utf8(text);
    let enc = encode_utf8(text);
    let bytes = hex_text_bytes(enc);
    let low = bytes.map_values(|b: i8| low_byte(b));
    assert forall|i: int| 0 <= i < enc.len() / 2 implies #[trigger] hex_pair_ok(
        enc[2 * i],
        enc[2 * i + 1],
    ) by {
        lemma_digit_char(text[2 * i]);
        lemma_digit_char(text[2 * i + 1]);
    }
    lemma_lower_hex_layout(low);
    let out = lower_hex(low);
    let want = lowercase_hex(text);
    assert(out.len() == text.len());
    assert forall|i: int| 0 <= i < text.len() implies out[i] == want[i] by {
        let j = i / 2;
        let x = enc[2 * j];
        let y = enc[2 * j + 1];
        lemma_digit_char(text[2 * j]);
        lemma_digit_char(text[2 * j + 1]);
        let hi = hex_digit_value(x);
        let lo = hex_digit_value(y);
        let v = hex_pair_value(x, y);
        assert(v == (hi * 16 + lo) as u8);
        assert(low[j] == low_byte(v as i8));
        assert(low_byte(v as i8) == v) by (bit_vector)
            requires
                low_byte(v as i8) == ((((v as i8) as i32) & 255) as u8),
        ;
        assert(v / 16 == hi && v % 16 == lo) by (nonlinear_arith)
            requires
                hi < 16,
                lo < 16,
                v == hi * 16 + lo,
        ;
        if i % 2 == 0 {
            assert(i == 2 * j);
        } else {
            assert(i == 2 * j + 1);
        }
    }
    assert(out =~= want);
}

/// Encoding as hexadecimal the bytes that a lowercase hexadecimal text
/// decodes to gives the text back.
pub proof fn lemma_lower_hex_text_round_trip(text: Seq<char>)
    requires
        is_lower_hex_text(text),
    ensures
        hex_text_ok(encode_utf8(text)),
        signed_lower_hex(hex_text_bytes(encode_utf8(text))) == text,
{
    assert forall|i: int| 0 <= i < text.len() implies is_hex_char(#[trigger] text[i]) by {}
    lemma_hex_text_round_trip(text);
    assert(lowercase_hex(text) =~= text);
}

/// The `$HE_` text keeps the length of `prefix ++ checksum` and its last
/// byte, the key, in lowercase; applied again to its own output it gives
/// `prefix ++ checksum` back in lowercase.
pub proof fn lemma_he_hex_involution(text: Seq<char>)
    requires
        is_hex_text(text),
        text.len() > 0,
    ensures
        spec_he_hex(text).len() == text.len(),
        spec_he_hex(text).subrange(text.len() - 2, text.len() as int) == lowercase_hex(
            text,
        ).subrange(text.len() - 2, text.len() as int),
        hex_text_ok(encode_utf8(spec_he_hex(text))),
        spec_he_hex(spec_he_hex(text)) == lowercase_hex(text),
{
    lemma_hex_text_round_trip(text);
    let input = hex_text_bytes(encode_utf8(text));
    let n = input.len();
    assert(n > 0);
    let once = he_bytes(input);
    let out = signed_lower_hex(once);
    assert(spec_he_hex(text) == out);
    let low_once = once.map_values(|b: i8| low_byte(b));
    let low_in = input.map_values(|b: i8| low_byte(b));
    lemma_lower_hex_layout(low_once);
    lemma_lower_hex_layout(low_in);
    lemma_hex_round_trip(once);
    lemma_he_bytes_involution(input);
    assert(spec_he_hex(out) == signed_lower_hex(input));
    let want = lowercase_hex(text);
    assert(low_once[n - 1] == low_in[n - 1]);
    assert(out.subrange(text.len() - 2, text.len() as int) =~= want.subrange(
        text.len() - 2,
        text.len() as int,
    )) by {
        assert(out[2 * (n - 1)] == want[2 * (n - 1)]);
        assert(out[2 * (n - 1) + 1] == want[2 * (n - 1) + 1]);
    }
}

proof fn lemma_hash_chunks_len(h: Seq<u32>, words: Seq<u32>, offset: int, counter: u32, length: nat)
    ensures
        hash_chunks(h, words, offset, counter, length).len() == 8,
    decreases length,
{
    if length > 64 {
        let c = counter.wrapping_add(64);
        lemma_hash_chunks_len(
            compress(h, words, offset, c, 64, false),
            words,
            offset + 64,
            c,
            (length - 64) as nat,
        );
    }
}

proof fn lemma_words_hex_digits(hs: Seq<u32>)
    ensures
        words_hex(hs).len() == 8 * hs.len(),
        forall|i: int|
            0 <= i < words_hex(hs).len() ==> ('0' <= #[trigger] words_hex(hs)[i] <= '9') || ('a'
                <= words_hex(hs)[i] <= 'f'),
    decreases hs.len(),
{
    if hs.len() > 0 {
        let init = hs.drop_last();
        lemma_words_hex_digits(init);
        let t = words_hex(hs);
        let g = hex32(hs.last());
        assert forall|i: int| 0 <= i < t.len() implies ('0' <= #[trigger] t[i] <= '9') || ('a'
            <= t[i] <= 'f') by {
            if i >= 8 * init.len() {
                let k = i - 8 * init.len();
                assert(t[i] == g[k]);
                let v = hs.last();
                let sh = (28 - 4 * k) as u32;
                assert(((v >> sh) & 15u32) < 16) by (bit_vector);
            } else {
                assert(t[i] == words_hex(init)[i]);
            }
        }
    }
}

/// The `b2has` text is always 64 lowercase hexadecimal digits, so the
/// `b2sa` bytes made of it are always 64 values, none of them negative.
pub proof fn lemma_b2sa_shape(bytes: Seq<u8>)
    ensures
        spec_b2has(bytes).len() == 64,
        is_lower_hex_text(spec_b2has(bytes)),
        utf8_i8(spec_b2has(bytes)).len() == 64,
        forall|i: int| 0 <= i < 64 ==> #[trigger] utf8_i8(spec_b2has(bytes))[i] >= 0,
{
    let w = b2has_words(bytes);
    let h0 = b2_iv().update(0, b2_iv()[0] ^ 16842784u32);
    lemma_hash_chunks_len(h0, w, 0, 0, w.len());
    let text = spec_b2has(bytes);
    lemma_words_hex_digits(b2has_state(w));
    assert(is_ascii_chars(text));
    is_ascii_chars_encode_utf8(text);
    let enc = encode_utf8(text);
    assert forall|i: int| 0 <= i < 64 implies #[trigger] utf8_i8(text)[i] >= 0 by {
        let b = enc[i];
        assert(b == text[i] as u8);
        assert(b < 128);
        assert(b < 128 ==> (b as i8) >= 0) by (bit_vector);
    }
}

proof fn lemma_cts_stream_len(st: KuaishouCtsState, input: Seq<i8>)
    ensures
        cts_stream(st, input).len() == input.len(),
    decreases input.len(),
{
    if input.len() > 0 {
        lemma_cts_stream_len(cts_byte(st, input[0]).0, input.drop_first());
    }
}

proof fn lemma_cts_stream_key(st: KuaishouCtsState, x: Seq<i8>, y: Seq<i8>, i: int)
    requires
        0 <= i < x.len(),
        i < y.len(),
    ensures
        cts_stream(st, x)[i] ^ x[i] == cts_stream(st, y)[i] ^ y[i],
    decreases i,
{
    let (st2, ox) = cts_byte(st, x[0]);
    let oy = cts_byte(st, y[0]).1;
    assert(cts_byte(st, y[0]).0 == st2);
    lemma_cts_stream_len(st2, x.drop_first());
    lemma_cts_stream_len(st2, y.drop_first());
    if i == 0 {
        let r = cts_bits(st, 0, st.u & 1, st.c & 1, 8).1;
        let k = (r + 3) as i32;
        let a = x[0];
        let b = y[0];
        assert((((a as i32) ^ k) as i8) ^ a == (((b as i32) ^ k) as i8) ^ b) by (bit_vector);
        assert(cts_stream(st, x)[0] == ox);
        assert(cts_stream(st, y)[0] == oy);
    } else {
        lemma_cts_stream_key(st2, x.drop_first(), y.drop_first(), i - 1);
        assert(cts_stream(st, x)[i] == cts_stream(st2, x.drop_first())[i - 1]);
        assert(cts_stream(st, y)[i] == cts_stream(st2, y.drop_first())[i - 1]);
    }
}

proof fn lemma_cts_stream_prefix(st: KuaishouCtsState, a: Seq<i8>, b: Seq<i8>)
    ensures
        cts_stream(st, a + b).take(a.len() as int) == cts_stream(st, a),
    decreases a.len(),
{
    lemma_cts_stream_len(st, a + b);
    lemma_cts_stream_len(st, a);
    if a.len() == 0 {
        assert(cts_stream(st, a + b).take(0) =~= cts_stream(st, a));
    } else {
        let st2 = cts_byte(st, a[0]).0;
        assert((a + b)[0] == a[0]);
        assert((a + b).drop_first() =~= a.drop_first() + b);
        lemma_cts_stream_prefix(st2, a.drop_first(), b);
        lemma_cts_stream_len(st2, a.drop_first() + b);
        assert(cts_stream(st, a + b).take(a.len() as int) =~= cts_stream(st, a));
    }
}

/// The `cts` transform keeps the length of its input.
pub proof fn lemma_cts_length(input: Seq<i8>)
    ensures
        spec_cts(input).len() == input.len(),
{
    let seed = seq!['V', 'u', 'z', '4', 'f', 'C', 'H', 'x', 'n', '1', 'C', 'O'];
    lemma_cts_stream_len(seeded_state(cts_initial_state(), seed), input);
}

/// The `cts` keystream does not depend on the data: at every position two
/// inputs share, output XOR input is the same byte.
pub proof fn lemma_cts_keystream(x: Seq<i8>, y: Seq<i8>, i: int)
    requires
        0 <= i < x.len(),
        i < y.len(),
    ensures
        spec_cts(x)[i] ^ x[i] == spec_cts(y)[i] ^ y[i],
{
    let seed = seq!['V', 'u', 'z', '4', 'f', 'C', 'H', 'x', 'n', '1', 'C', 'O'];
    lemma_cts_stream_key(seeded_state(cts_initial_state(), seed), x, y, i);
}

/// The `cts` output of an input begins with the `cts` output of each of
/// its prefixes.
pub proof fn lemma_cts_prefix(a: Seq<i8>, b: Seq<i8>)
    ensures
        spec_cts(a + b).take(a.len() as int) == spec_cts(a),
{
    let seed = seq!['V', 'u', 'z', '4', 'f', 'C', 'H', 'x', 'n', '1', 'C', 'O'];
    lemma_cts_stream_prefix(seeded_state(cts_initial_state(), seed), a, b);
}

} // verus!
