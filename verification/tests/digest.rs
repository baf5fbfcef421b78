use delta_patch::digest::{content_hash, decode, DIGEST_LEN};
use delta_patch::error::SyncError;

#[test]
fn content_hash_is_the_base64_of_a_digest() {
    let expected: Vec<u8> = vec![
        0xe3, 0xb0, 0xc4, 0x42, 0x98, 0xfc, 0x1c, 0x14, 0x9a, 0xfb, 0xf4, 0xc8, 0x99, 0x6f, 0xb9,
        0x24, 0x27, 0xae, 0x41, 0xe4, 0x64, 0x9b, 0x93, 0x4c, 0xa4, 0x95, 0x99, 0x1b, 0x78, 0x52,
        0xb8, 0x55,
    ];
    assert_eq!(decode(&content_hash(b"")), Ok(expected));
}

#[test]
fn digest_has_fixed_length() {
    assert_eq!(decode(&content_hash(b"")).unwrap().len(), DIGEST_LEN);
    assert_eq!(decode(&content_hash(&vec![7u8; 10_000])).unwrap().len(), DIGEST_LEN);
}

#[test]
fn content_hash_of_empty_input() {
    assert_eq!(content_hash(b""), "47DEQpj8HBSa+/TImW+5JCeuQeRkm5NMpJWZG3hSuFU=");
}

#[test]
fn content_hash_of_abc() {
    assert_eq!(content_hash(b"abc"), "ungWv48Bz+pBQUDeXa4iI7ADYaOWF3qctBD/YfIAFa0=");
}

#[test]
fn content_hash_of_hello_world() {
    assert_eq!(content_hash(b"hello world"), "uU0nuZNNPgilLlLX2n2r+sSE7+N6U4DukIj3rOLvzek=");
}

#[test]
fn content_hash_is_deterministic_and_tells_contents_apart() {
    assert_eq!(content_hash(b"same bytes"), content_hash(b"same bytes"));
    assert_ne!(content_hash(b"same bytes"), content_hash(b"same bytez"));
}

#[test]
fn base64_decodes_padded_and_unpadded_groups() {
    assert_eq!(decode("Zg=="), Ok(b"f".to_vec()));
    assert_eq!(decode("Zm8="), Ok(b"fo".to_vec()));
    assert_eq!(decode("Zm9v"), Ok(b"foo".to_vec()));
    assert_eq!(decode("AAECAwQF/v8="), Ok(vec![0, 1, 2, 3, 4, 5, 254, 255]));
}

#[test]
fn base64_decodes_known_text() {
    assert_eq!(decode("aGVsbG8gd29ybGQ="), Ok(b"hello world".to_vec()));
    assert_eq!(decode(""), Ok(Vec::new()));
}

#[test]
fn base64_rejects_bad_text() {
    assert_eq!(decode("not base64!"), Err(SyncError::Decode));
    assert_eq!(decode("Z"), Err(SyncError::Decode));
    assert_eq!(decode("Zm9v\n"), Err(SyncError::Decode));
}
