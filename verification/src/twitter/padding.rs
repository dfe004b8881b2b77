//! Facts about a padded Base64 text with its `=` padding taken out: its
//! length, that every character left is of the alphabet, and so that it
//! fails to decode.

use vstd::prelude::*;

use crate::twitter::base64::{b64_char, encode_b64, lemma_sextet_of_char, sextet_of, sextets, spec_decode_base64};

verus! {

/// A text with every `=` taken out.
pub open spec fn without_padding(s: Seq<char>) -> Seq<char> {
    s.filter(|c: char| c != '=')
}

proof fn lemma_filter_group(c0: char, c1: char, c2: char, c3: char, p: spec_fn(char) -> bool)
    requires
        p(c0),
        p(c1),
    ensures
        p(c2) && p(c3) ==> seq![c0, c1, c2, c3].filter(p) == seq![c0, c1, c2, c3],
        p(c2) && !p(c3) ==> seq![c0, c1, c2, c3].filter(p) == seq![c0, c1, c2],
        !p(c2) && !p(c3) ==> seq![c0, c1, c2, c3].filter(p) == seq![c0, c1],
{
    let e = Seq::<char>::empty();
    assert(e.filter(p) =~= e) by {
        reveal(Seq::filter);
    }
    assert(seq![c0, c1, c2, c3] =~= e.push(c0).push(c1).push(c2).push(c3));
    e.lemma_filter_push(c0, p);
    e.push(c0).lemma_filter_push(c1, p);
    e.push(c0).push(c1).lemma_filter_push(c2, p);
    e.push(c0).push(c1).push(c2).lemma_filter_push(c3, p);
    assert(e.push(c0).push(c1).filter(p) =~= seq![c0, c1]);
    if p(c2) {
        assert(e.push(c0).push(c1).push(c2).filter(p) =~= seq![c0, c1, c2]);
        if p(c3) {
            assert(seq![c0, c1, c2, c3].filter(p) =~= seq![c0, c1, c2, c3]);
        }
    } else {
        assert(e.push(c0).push(c1).push(c2).filter(p) =~= seq![c0, c1]);
    }
}

proof fn lemma_sextets_alphabet(s: Seq<char>)
    requires
        forall|i: int| 0 <= i < s.len() ==> #[trigger] sextet_of(s[i]) is Some,
    ensures
        sextets(s) is Some,
        sextets(s)->0.len() == s.len(),
    decreases s.len(),
{
    if s.len() > 0 {
        let d = s.drop_last();
        assert forall|i: int| 0 <= i < d.len() implies #[trigger] sextet_of(d[i]) is Some by {
            assert(d[i] == s[i]);
        }
        lemma_sextets_alphabet(d);
        assert(sextet_of(s[s.len() - 1]) is Some);
    }
}

/// What the induction over the groups carries: the length of the text with
/// its `=` taken out, that every character left is of the alphabet, and
/// where `=` stands.
spec fn unpadded_facts(b: Seq<u8>, p: spec_fn(char) -> bool) -> bool {
    let e = encode_b64(b);
    &&& e.filter(p).len() == 4 * (b.len() / 3) + (if b.len() % 3 == 0 {
        0
    } else {
        b.len() % 3 + 1
    })
    &&& forall|i: int| 0 <= i < e.filter(p).len() ==> #[trigger] sextet_of(e.filter(p)[i]) is Some
    &&& b.len() % 3 == 0 ==> forall|i: int| 0 <= i < e.len() ==> #[trigger] e[i] != '='
    &&& b.len() % 3 != 0 ==> e.len() > 0 && e.last() == '='
}

proof fn lemma_unpadded_short(b: Seq<u8>, p: spec_fn(char) -> bool)
    requires
        forall|c: char| #[trigger] p(c) == (c != '='),
        b.len() < 3,
    ensures
        unpadded_facts(b, p),
{
    if b.len() == 0 {
        encode_b64(b).lemma_filter_len(p);
    } else if b.len() == 1 {
        let n = b[0] * 65536;
        let c0 = b64_char(n / 262144);
        let c1 = b64_char((n / 4096) % 64);
        lemma_sextet_of_char(n / 262144);
        lemma_sextet_of_char((n / 4096) % 64);
        assert(encode_b64(b) == seq![c0, c1, '=', '=']);
        lemma_filter_group(c0, c1, '=', '=', p);
    } else {
        let n = b[0] * 65536 + b[1] * 256;
        let c0 = b64_char(n / 262144);
        let c1 = b64_char((n / 4096) % 64);
        let c2 = b64_char((n / 64) % 64);
        lemma_sextet_of_char(n / 262144);
        lemma_sextet_of_char((n / 4096) % 64);
        lemma_sextet_of_char((n / 64) % 64);
        assert(encode_b64(b) == seq![c0, c1, c2, '=']);
        lemma_filter_group(c0, c1, c2, '=', p);
    }
}

proof fn lemma_unpadded_step(b: Seq<u8>, p: spec_fn(char) -> bool)
    requires
        forall|c: char| #[trigger] p(c) == (c != '='),
        b.len() >= 3,
        unpadded_facts(b.skip(3), p),
    ensures
        unpadded_facts(b, p),
{
    let n = b[0] * 65536 + b[1] * 256 + b[2];
    let g = seq![
        b64_char(n / 262144),
        b64_char((n / 4096) % 64),
        b64_char((n / 64) % 64),
        b64_char(n % 64),
    ];
    lemma_sextet_of_char(n / 262144);
    lemma_sextet_of_char((n / 4096) % 64);
    lemma_sextet_of_char((n / 64) % 64);
    lemma_sextet_of_char(n % 64);
    let rest = encode_b64(b.skip(3));
    let e = encode_b64(b);
    assert(e == g + rest);
    lemma_filter_group(g[0], g[1], g[2], g[3], p);
    Seq::filter_distributes_over_add(g, rest, p);
    let t = e.filter(p);
    assert(t == g + rest.filter(p));
    assert forall|i: int| 0 <= i < t.len() implies #[trigger] sextet_of(t[i]) is Some by {
        if i >= 4 {
            assert(t[i] == rest.filter(p)[i - 4]);
        }
    }
    if b.len() % 3 == 0 {
        assert forall|i: int| 0 <= i < e.len() implies #[trigger] e[i] != '=' by {
            if i >= 4 {
                assert(e[i] == rest[i - 4]);
            }
        }
    }
    if b.len() % 3 != 0 {
        assert(e.last() == rest.last());
    }
}

proof fn lemma_unpadded_encoding(b: Seq<u8>, p: spec_fn(char) -> bool)
    requires
        forall|c: char| #[trigger] p(c) == (c != '='),
    ensures
        unpadded_facts(b, p),
    decreases b.len(),
{
    if b.len() < 3 {
        lemma_unpadded_short(b, p);
    } else {
        lemma_unpadded_encoding(b.skip(3), p);
        lemma_unpadded_step(b, p);
    }
}

/// The proof of `lemma_unpadded_base64_rejected`.
pub(crate) proof fn lemma_unpadded_text_rejected(bytes: Seq<u8>)
    ensures
        encode_b64(bytes).contains('=') <==> bytes.len() % 3 != 0,
        encode_b64(bytes).contains('=') ==> spec_decode_base64(
            without_padding(encode_b64(bytes)),
        ) == Err::<Seq<u8>, Seq<char>>(
            "invalid twitter base64 input length: "@ + without_padding(encode_b64(bytes)),
        ),
{
    let p = |c: char| c != '=';
    let e = encode_b64(bytes);
    lemma_unpadded_encoding(bytes, p);
    assert(without_padding(e) == e.filter(p));
    if bytes.len() % 3 != 0 {
        assert(e[e.len() - 1] == '=');
        let t = without_padding(e);
        lemma_sextets_alphabet(t);
        assert(t.len() % 4 != 0);
    } else {
        if e.contains('=') {
            let i = choose|i: int| 0 <= i < e.len() && e[i] == '=';
            assert(e[i] != '=');
        }
    }
}


} // verus!
