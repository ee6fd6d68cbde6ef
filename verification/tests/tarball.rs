use flakehub_push::tarball::tarball_from_bytes;

#[test]
fn empty_tarball_hash() {
    // SHA-256 of the empty input, in standard base64.
    let t = tarball_from_bytes(Vec::new());
    assert_eq!(t.hash_base64, "47DEQpj8HBSa+/TImW+5JCeuQeRkm5NMpJWZG3hSuFU=");
    assert!(t.bytes.is_empty());
}

#[test]
fn known_content_hash() {
    let t = tarball_from_bytes(b"hello world".to_vec());
    assert_eq!(t.hash_base64, "uU0nuZNNPgilLlLX2n2r+sSE7+N6U4DukIj3rOLvzek=");
    assert_eq!(t.bytes, b"hello world".to_vec());
    assert_eq!(t.hash_base64.len(), 44);
}
