use content_store::digest::{content_hash, hex_encode, DIGEST_LEN, HEX_ALPHABET, ID_LEN};
use content_store::layout::{content_path_of, name_path_of, NAME_SUFFIX, UPLOAD_PATH};

#[test]
fn hex_of_no_bytes_is_empty() {
    assert_eq!(hex_encode(&[]), "");
}

#[test]
fn hex_has_two_lowercase_digits_per_byte() {
    assert_eq!(hex_encode(&[0x00]), "00");
    assert_eq!(hex_encode(&[0x0a]), "0a");
    assert_eq!(hex_encode(&[0xa0]), "a0");
    assert_eq!(hex_encode(&[0xff]), "ff");
    assert_eq!(hex_encode(&[10, 20, 30]), "0a141e");
    assert_eq!(
        hex_encode(&[0x01, 0x23, 0x45, 0x67, 0x89, 0xab, 0xcd, 0xef]),
        "0123456789abcdef"
    );
}

#[test]
fn hex_of_every_byte_value() {
    let bytes: Vec<u8> = (0..=255u8).collect();
    let text = hex_encode(&bytes);
    assert_eq!(text.len(), 512);
    for (i, b) in bytes.iter().enumerate() {
        assert_eq!(text[2 * i..2 * i + 2], format!("{:02x}", b));
    }
}

#[test]
fn hash_of_no_bytes() {
    assert_eq!(
        content_hash(b""),
        "e3b0c44298fc1c149afbf4c8996fb92427ae41e4649b934ca495991b7852b855"
    );
}

#[test]
fn hash_of_abc() {
    assert_eq!(
        content_hash(b"abc"),
        "ba7816bf8f01cfea414140de5dae2223b00361a396177a9cb410ff61f20015ad"
    );
}

#[test]
fn hash_is_no_rendering_of_the_input() {
    let data = [0xABu8; 32];
    assert_ne!(content_hash(&data), hex_encode(&data));
}

#[test]
fn hash_has_the_shape_of_an_id() {
    for data in [&b""[..], &b"a"[..], &[0u8; 100][..], &[0xFFu8; 1000][..]] {
        let id = content_hash(data);
        assert_eq!(id.len(), ID_LEN);
        assert_eq!(id.len(), 2 * DIGEST_LEN);
        assert!(id.chars().all(|c| HEX_ALPHABET.contains(c)));
    }
}

#[test]
fn equal_bytes_have_equal_hashes() {
    assert_eq!(content_hash(b"same"), content_hash(&b"same".to_vec()));
    assert_ne!(content_hash(b"same"), content_hash(b"Same"));
}

#[test]
fn paths_of_an_object() {
    assert_eq!(UPLOAD_PATH, "/tmp/uploads");
    assert_eq!(NAME_SUFFIX, ".name");
    assert_eq!(content_path_of("abc123"), "/tmp/uploads/abc123");
    assert_eq!(name_path_of("abc123"), "/tmp/uploads/abc123.name");
}

#[test]
fn paths_take_the_id_as_it_is() {
    assert_eq!(content_path_of(""), "/tmp/uploads/");
    assert_eq!(name_path_of(""), "/tmp/uploads/.name");
    assert_eq!(content_path_of("nonexistent-id"), "/tmp/uploads/nonexistent-id");
}
