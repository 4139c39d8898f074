use passkey_auth::encoding::base64url_encode_bytes;

#[test]
fn base64url_empty_input_gives_empty_text() {
    assert_eq!(base64url_encode_bytes(&[]), "");
}

#[test]
fn base64url_encodes_rfc4648_vectors_without_padding() {
    assert_eq!(base64url_encode_bytes(b"f"), "Zg");
    assert_eq!(base64url_encode_bytes(b"fo"), "Zm8");
    assert_eq!(base64url_encode_bytes(b"foo"), "Zm9v");
    assert_eq!(base64url_encode_bytes(b"foob"), "Zm9vYg");
    assert_eq!(base64url_encode_bytes(b"fooba"), "Zm9vYmE");
    assert_eq!(base64url_encode_bytes(b"foobar"), "Zm9vYmFy");
}

#[test]
fn base64url_uses_url_safe_characters() {
    assert_eq!(base64url_encode_bytes(&[0xfb, 0xff]), "-_8");
    assert_eq!(base64url_encode_bytes(&[0xff]), "_w");
    assert_eq!(base64url_encode_bytes(&[0x00, 0x10, 0x83]), "ABCD");
}

#[test]
fn base64url_length_is_ceil_four_thirds() {
    for n in 0..20usize {
        let data: Vec<u8> = (0..n).map(|i| (i * 37 + 11) as u8).collect();
        let s = base64url_encode_bytes(&data);
        assert_eq!(s.len(), (4 * n + 2) / 3);
        assert!(s.chars().all(|c| c.is_ascii_alphanumeric() || c == '-' || c == '_'));
    }
}
