use ucan_key_support::KeyError;
use ucan_key_support::KeyMaterial;
use ucan_key_support::did::did_from_spki;
use ucan_key_support::software::RsaKeyMaterial;

// The same minimal hand-built RSA SubjectPublicKeyInfo as in the DER tests.
const SMALL_SPKI: [u8; 29] = [
    0x30, 0x1B, 0x30, 0x0D, 0x06, 0x09, 0x2A, 0x86, 0x48, 0x86, 0xF7, 0x0D, 0x01, 0x01, 0x01,
    0x05, 0x00, 0x03, 0x0A, 0x00, 0x30, 0x07, 0x02, 0x02, 0x00, 0xC3, 0x02, 0x01, 0x03,
];

const SMALL_PAYLOAD: [u8; 9] = [0x30, 0x07, 0x02, 0x02, 0x00, 0xC3, 0x02, 0x01, 0x03];

#[test]
fn derives_exact_identifier_for_known_key() {
    // Base58 of the multicodec-tagged payload, worked out by hand for this
    // key: tag 0x85 0x24 followed by the nine payload bytes.
    let did = did_from_spki(&SMALL_SPKI).unwrap();
    assert_eq!(did, "did:key:za1usTHSWS3Dq4wU");
}

#[test]
fn identifier_matches_tag_then_base58_composition() {
    let did = did_from_spki(&SMALL_SPKI).unwrap();
    let mut tagged = vec![0x85u8, 0x24];
    tagged.extend_from_slice(&SMALL_PAYLOAD);
    let expected = format!("did:key:z{}", bs58::encode(&tagged).into_string());
    assert_eq!(did, expected);
    // The base58 digits are a re-encoding, not the tagged bytes themselves.
    assert_ne!(did.as_bytes()[9..].to_vec(), tagged);
}

#[test]
fn identifier_is_deterministic_across_instances() {
    let a = RsaKeyMaterial::import_public_key(SMALL_SPKI.to_vec());
    let b = RsaKeyMaterial::import_public_key(SMALL_SPKI.to_vec());
    assert_eq!(a.get_did().unwrap(), b.get_did().unwrap());
}

#[test]
fn identifier_has_scheme_and_multibase_marker() {
    let did = did_from_spki(&SMALL_SPKI).unwrap();
    assert!(did.starts_with("did:key:z"));
}

#[test]
fn truncated_key_import_fails_with_encoding_error() {
    let corrupt = SMALL_SPKI[..20].to_vec();
    let material = RsaKeyMaterial::import_public_key(corrupt);
    assert_eq!(material.get_did(), Err(KeyError::EncodingError));
}

#[test]
fn corrupted_key_import_fails_with_encoding_error() {
    let mut corrupt = SMALL_SPKI.to_vec();
    corrupt[5] = 0xFF;
    let material = RsaKeyMaterial::import_public_key(corrupt);
    assert_eq!(material.get_did(), Err(KeyError::EncodingError));
}
