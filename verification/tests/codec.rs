use idempotent_secrets::codec::{decode_material, encode_material, hex_decode, hex_encode};
use idempotent_secrets::secrets::GeneratedMaterial;

#[test]
fn hex_encoding_of_known_bytes() {
    let bytes = vec![0x00u8, 0x0f, 0xa3, 0xff];
    let text = hex_encode(&bytes);
    assert_eq!(text, b"000fa3ff".to_vec());
}

#[test]
fn hex_round_trips_exactly() {
    let bytes: Vec<u8> = (0u8..=255).collect();
    let text = hex_encode(&bytes);
    assert_eq!(text.len(), 512);
    let back = hex_decode(&text).expect("well-formed hex should decode");
    assert_eq!(back, bytes);
}

#[test]
fn hex_decode_rejects_malformed_text() {
    assert!(hex_decode(&b"abc".to_vec()).is_none());
    assert!(hex_decode(&b"0g".to_vec()).is_none());
    assert!(hex_decode(&b"0F".to_vec()).is_none());
    assert_eq!(hex_decode(&Vec::new()), Some(Vec::new()));
}

#[test]
fn persisted_material_round_trips_exactly() {
    let material = GeneratedMaterial {
        entries: vec![
            ("private_key".to_owned(), vec![0u8, 1, 2, 254, 255]),
            ("public_key".to_owned(), vec![]),
        ],
    };
    let persisted = encode_material(&material);
    assert_eq!(persisted.entries[0].0, "private_key");
    assert_eq!(persisted.entries[0].1, b"000102feff".to_vec());
    assert_eq!(persisted.entries[1].1, b"".to_vec());

    let back = decode_material(&persisted).expect("the persisted shape should decode");
    assert_eq!(back.entries, material.entries);
}

#[test]
fn decoding_rejects_a_corrupted_payload() {
    let corrupted = GeneratedMaterial {
        entries: vec![("value".to_owned(), b"00zz".to_vec())],
    };
    assert!(decode_material(&corrupted).is_none());
}
