use organixm::digest::{decode_verified_image, digest_matches, sha256_hex, zstd_decode};

fn hex_digest(bytes: &[u8]) -> String {
    format!("{:x}", <sha2::Sha256 as sha2::Digest>::digest(bytes))
}

#[test]
fn sha256_known_vector() {
    let d = sha256_hex(&b"abc".to_vec());
    assert_eq!(d, "ba7816bf8f01cfea414140de5dae2223b00361a396177a9cb410ff61f20015ad");
}

#[test]
fn digest_matches_decides_exactly() {
    let data = b"some image bytes".to_vec();
    let good = hex_digest(&data);
    assert!(digest_matches(&data, &good));
    let bad = hex_digest(b"other bytes");
    assert!(!digest_matches(&data, &bad));
}

#[test]
fn zstd_round_trip() {
    let raw = b"the quick brown fox jumps over the lazy dog".to_vec();
    let compressed = zstd::encode_all(&raw[..], 0).unwrap();
    let decoded = zstd_decode(&compressed).expect("valid zstd stream");
    assert_eq!(decoded, raw);
}

#[test]
fn zstd_rejects_garbage() {
    let garbage = vec![1u8, 2, 3, 4, 5];
    assert!(zstd_decode(&garbage).is_err());
}

#[test]
fn verified_image_accepts_matching_digest() {
    let raw = b"full operating system image".to_vec();
    let compressed = zstd::encode_all(&raw[..], 0).unwrap();
    let sha = hex_digest(&raw);
    let out = decode_verified_image(&compressed, &sha).expect("digest matches");
    assert_eq!(out, raw);
}

#[test]
fn verified_image_rejects_wrong_digest() {
    let raw = b"full operating system image".to_vec();
    let compressed = zstd::encode_all(&raw[..], 0).unwrap();
    let sha = hex_digest(b"a different image");
    assert!(decode_verified_image(&compressed, &sha).is_err());
}
