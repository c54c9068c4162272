use ucan_key_support::KeyError;
use ucan_key_support::KeyMaterial;
use ucan_key_support::software::RsaKeyMaterial;

#[test]
fn generate_sign_verify_with_default_parameters() {
    let material = RsaKeyMaterial::generate(None).unwrap();
    let payload = [0xDEu8, 0xAD, 0xBE, 0xEF];
    let signature = material.sign(&payload).unwrap();
    assert_eq!(material.verify(&payload, &signature), Ok(()));
    let other_payload = [0xDEu8, 0xAD, 0xBE, 0xF0];
    assert_eq!(material.verify(&other_payload, &signature), Err(KeyError::VerificationFailed));
}

#[test]
fn generated_identifier_is_stable() {
    let material = RsaKeyMaterial::generate(None).unwrap();
    let first = material.get_did().unwrap();
    let second = material.get_did().unwrap();
    let third = material.get_did().unwrap();
    assert_eq!(first, second);
    assert_eq!(second, third);
    assert!(first.starts_with("did:key:z"));
}
