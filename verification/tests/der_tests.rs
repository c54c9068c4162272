use ucan_key_support::KeyError;
use ucan_key_support::der::check_rsa_public_key;
use ucan_key_support::der::extract_rsa_public_key;

// A minimal RSA SubjectPublicKeyInfo built by hand: an outer SEQUENCE, the
// fixed rsaEncryption AlgorithmIdentifier, and a BIT STRING (no unused bits)
// wrapping the RSAPublicKey SEQUENCE of modulus 195 and exponent 3.
const SMALL_SPKI: [u8; 29] = [
    0x30, 0x1B, 0x30, 0x0D, 0x06, 0x09, 0x2A, 0x86, 0x48, 0x86, 0xF7, 0x0D, 0x01, 0x01, 0x01,
    0x05, 0x00, 0x03, 0x0A, 0x00, 0x30, 0x07, 0x02, 0x02, 0x00, 0xC3, 0x02, 0x01, 0x03,
];

const SMALL_PAYLOAD: [u8; 9] = [0x30, 0x07, 0x02, 0x02, 0x00, 0xC3, 0x02, 0x01, 0x03];

#[test]
fn extracts_payload_from_minimal_spki() {
    let r = extract_rsa_public_key(&SMALL_SPKI);
    assert_eq!(r, Ok(SMALL_PAYLOAD.to_vec()));
}

#[test]
fn rejects_empty_input() {
    assert_eq!(extract_rsa_public_key(&[]), Err(KeyError::EncodingError));
}

#[test]
fn rejects_truncated_spki() {
    for n in 0..SMALL_SPKI.len() {
        let r = extract_rsa_public_key(&SMALL_SPKI[..n]);
        assert_eq!(r, Err(KeyError::EncodingError), "prefix of length {} accepted", n);
    }
}

#[test]
fn rejects_trailing_garbage() {
    let mut bytes = SMALL_SPKI.to_vec();
    bytes.push(0x00);
    assert_eq!(extract_rsa_public_key(&bytes), Err(KeyError::EncodingError));
}

#[test]
fn rejects_wrong_outer_tag() {
    let mut bytes = SMALL_SPKI;
    bytes[0] = 0x31;
    assert_eq!(extract_rsa_public_key(&bytes), Err(KeyError::EncodingError));
}

#[test]
fn rejects_wrong_algorithm_oid() {
    let mut bytes = SMALL_SPKI;
    // Last byte of the OID: rsaEncryption ends in ...01 01 01.
    bytes[14] = 0x02;
    assert_eq!(extract_rsa_public_key(&bytes), Err(KeyError::EncodingError));
}

#[test]
fn rejects_unused_bits_in_bit_string() {
    let mut bytes = SMALL_SPKI;
    bytes[19] = 0x01;
    assert_eq!(extract_rsa_public_key(&bytes), Err(KeyError::EncodingError));
}

#[test]
fn rejects_payload_that_is_not_a_sequence() {
    let mut bytes = SMALL_SPKI;
    bytes[20] = 0x04;
    assert_eq!(extract_rsa_public_key(&bytes), Err(KeyError::EncodingError));
}

#[test]
fn accepts_well_formed_public_key_structure() {
    assert!(check_rsa_public_key(&SMALL_PAYLOAD));
}

#[test]
fn rejects_negative_modulus() {
    // INTEGER with a set sign bit and no leading zero pad.
    let bytes = [0x30, 0x06, 0x02, 0x01, 0x83, 0x02, 0x01, 0x03];
    assert!(!check_rsa_public_key(&bytes));
}

#[test]
fn rejects_non_minimal_integer() {
    // A leading zero byte that pads a value below 0x80 is not minimal DER.
    let bytes = [0x30, 0x07, 0x02, 0x02, 0x00, 0x03, 0x02, 0x01, 0x03];
    assert!(!check_rsa_public_key(&bytes));
}

#[test]
fn rejects_single_integer_sequence() {
    let bytes = [0x30, 0x04, 0x02, 0x02, 0x00, 0xC3];
    assert!(!check_rsa_public_key(&bytes));
}

#[test]
fn rejects_zero_length_integer() {
    let bytes = [0x30, 0x05, 0x02, 0x00, 0x02, 0x01, 0x03];
    assert!(!check_rsa_public_key(&bytes));
}
