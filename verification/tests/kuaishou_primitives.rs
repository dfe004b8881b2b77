use amagi::kuaishou::primitives::{
    bytes_to_lower_hex, compute_kuaishou_lrc_hex, derive_kuaishou_b2has, derive_kuaishou_b2sa,
    derive_kuaishou_cts, hex_to_signed_bytes, to_little_endian_hex, transform_kuaishou_he_hex,
    xor_byte_arrays,
};

#[test]
fn b2has_of_empty_text() {
    assert_eq!(
        derive_kuaishou_b2has(""),
        "7ecb2c401228df4bb59bec4ad76a05d245986f35b8f2c23dbbfd9be3708bf31a"
    );
}

#[test]
fn b2has_of_short_text() {
    assert_eq!(
        derive_kuaishou_b2has("hello"),
        "7dad15489bfb85ac1f9d70df54500abedaf391f354d6285aa6c178b745526924"
    );
}

#[test]
fn b2has_spans_several_blocks() {
    let long = "a".repeat(300);
    let hash = derive_kuaishou_b2has(&long);
    assert_eq!(
        hash,
        "27c67e92471142ada829ef7c8935172df25f80110b35b6b71a55b126fb18ef19"
    );
    assert_eq!(hash.len(), 64);
}

#[test]
fn b2sa_is_the_bytes_of_b2has() {
    let bytes = derive_kuaishou_b2sa("hello");
    assert_eq!(bytes.len(), 64);
    assert_eq!(&bytes[..4], &[55, 100, 97, 100]);
}

#[test]
fn cts_of_bytes() {
    assert_eq!(derive_kuaishou_cts(&[1, 2, 3, -4, 100]), vec![14, 58, 1, -68, -86]);
    assert_eq!(derive_kuaishou_cts(&[]), Vec::<i8>::new());
}

#[test]
fn cts_undoes_itself() {
    let input = vec![1, 2, 3, -4, 100, 0, -128, 127];
    assert_eq!(derive_kuaishou_cts(&derive_kuaishou_cts(&input)), input);
}

#[test]
fn lower_hex_of_signed_bytes() {
    assert_eq!(bytes_to_lower_hex(&[0, 15, -1, 127, -128]), "000fff7f80");
    assert_eq!(bytes_to_lower_hex(&[]), "");
}

#[test]
fn signed_bytes_of_hex() {
    assert_eq!(hex_to_signed_bytes("00ff7f80+a"), vec![0, -1, 127, -128, 10]);
    assert_eq!(hex_to_signed_bytes("ABc"), vec![-85]);
}

#[test]
fn hex_round_trip() {
    let bytes = vec![0, 1, -1, 42, -100, 127, -128];
    assert_eq!(hex_to_signed_bytes(&bytes_to_lower_hex(&bytes)), bytes);
}

#[test]
fn xor_cycles_the_right_side() {
    assert_eq!(xor_byte_arrays(&[1, 2, 3, -4, 100], &[7, -9]), vec![6, -11, 4, 11, 99]);
    assert_eq!(xor_byte_arrays(&[], &[]), Vec::<i8>::new());
}

#[test]
fn xor_twice_gives_the_bytes_back() {
    let left = vec![1, 2, 3, -4, 100, -128];
    let right = vec![7, -9, 33];
    assert_eq!(xor_byte_arrays(&xor_byte_arrays(&left, &right), &right), left);
}

#[test]
fn little_endian_hex() {
    assert_eq!(to_little_endian_hex(0x0102030405060708, 8), "0807060504030201");
    assert_eq!(to_little_endian_hex(258, 2), "0201");
    assert_eq!(to_little_endian_hex(258, 0), "");
}

#[test]
fn lrc_checksum() {
    assert_eq!(compute_kuaishou_lrc_hex("0102ff"), "fe");
    assert_eq!(compute_kuaishou_lrc_hex(""), "00");
    assert_eq!(compute_kuaishou_lrc_hex("80"), "80");
}

#[test]
fn lrc_completes_the_sum() {
    let source = "0a1b2c3d4e5f";
    let checksum = compute_kuaishou_lrc_hex(source);
    let total: u32 = hex_to_signed_bytes(&format!("{source}{checksum}"))
        .iter()
        .map(|b| (*b as u8) as u32)
        .sum();
    assert_eq!(total % 256, 0);
}

#[test]
fn he_transform() {
    assert_eq!(transform_kuaishou_he_hex("0102", "ff"), "fefdff");
    assert_eq!(transform_kuaishou_he_hex("", ""), "");
    assert_eq!(transform_kuaishou_he_hex("aa", "55"), "ff55");
}

#[test]
fn he_transform_undoes_itself() {
    let once = transform_kuaishou_he_hex("0a1b2c", "3d");
    let (prefix, last) = once.split_at(once.len() - 2);
    assert_eq!(transform_kuaishou_he_hex(prefix, last), "0a1b2c3d");
}

#[test]
fn lowercase_hex_text_round_trip() {
    let text = "00ff7f80a1";
    assert_eq!(bytes_to_lower_hex(&hex_to_signed_bytes(text)), text);
    assert_eq!(bytes_to_lower_hex(&hex_to_signed_bytes("0A1bFF")), "0a1bff");
}

#[test]
fn he_transform_keeps_length_and_key() {
    let once = transform_kuaishou_he_hex("0A1b2C", "3D");
    assert_eq!(once.len(), 8);
    assert_eq!(&once[6..], "3d");
    let (prefix, last) = once.split_at(once.len() - 2);
    assert_eq!(transform_kuaishou_he_hex(prefix, last), "0a1b2c3d");
}

#[test]
fn b2sa_is_sixty_four_non_negative_bytes() {
    for value in ["", "hello", "页面"] {
        let bytes = derive_kuaishou_b2sa(value);
        assert_eq!(bytes.len(), 64);
        assert!(bytes.iter().all(|b| *b >= 0));
    }
}

#[test]
fn cts_keystream_ignores_the_data() {
    let x: Vec<i8> = vec![1, 2, 3, -4, 100];
    let y: Vec<i8> = vec![-128, 0, 127, 9];
    let cx = derive_kuaishou_cts(&x);
    let cy = derive_kuaishou_cts(&y);
    assert_eq!(cx.len(), x.len());
    assert_eq!(cy.len(), y.len());
    for i in 0..y.len() {
        assert_eq!(cx[i] ^ x[i], cy[i] ^ y[i]);
    }
    let joined: Vec<i8> = [x.clone(), y.clone()].concat();
    assert_eq!(&derive_kuaishou_cts(&joined)[..x.len()], &cx[..]);
}

#[test]
fn lrc_checksum_of_long_text() {
    assert_eq!(compute_kuaishou_lrc_hex("0102"), "fd");
    assert_eq!(compute_kuaishou_lrc_hex("01ff"), "00");
    let long = "ff".repeat(100_000);
    assert_eq!(compute_kuaishou_lrc_hex(&long), format!("{:02x}", (256 - (100_000u32 * 255) % 256) % 256));
}
