//! Decision logic for a host-mediated RSA backend.
//!
//! Some providers are reached only through an asynchronous host API (a
//! browser-supplied crypto engine, say): the host holds the key handles,
//! runs every operation off the calling task, and reports completion later.
//! The awaiting itself cannot live here, so this module fixes everything the
//! caller decides around those suspension points: the exact request each
//! provider operation is given, the verify-only gate that must reject
//! signing before any provider call, and the meaning of the provider's
//! verification answer. A thin shim outside the library then converts these
//! requests into host objects and awaits the answers; the answers flow back
//! through [`crate::did::did_from_spki`] and [`interpret_verification`].

use vstd::prelude::*;

use crate::DEFAULT_MODULUS_BITS;
use crate::KeyError;
use crate::PSS_SALT_LENGTH;
use crate::RSA_ALGORITHM;

verus! {

/// Everything a host provider is told when generating a key pair: the fixed
/// scheme name and digest, the requested modulus size, the standard public
/// exponent, and the granted usages. Keys are identity keys, so the usages
/// never include encryption, and the pair is not marked extractable.
pub struct GenerateKeyRequest {
    /// The scheme the pair is generated for; always the fixed algorithm tag.
    pub algorithm_name: String,
    /// Modulus size in bits.
    pub modulus_length: u32,
    /// Big-endian public exponent bytes.
    pub public_exponent: Vec<u8>,
    /// Digest the scheme is parameterized with.
    pub hash_name: String,
    /// Whether the host may ever export the private key.
    pub extractable: bool,
    /// The key usages granted to the pair.
    pub usages: Vec<String>,
}

/// Everything a host provider is told when signing or verifying: the fixed
/// scheme name and the salt length of the PSS padding.
pub struct SignatureRequest {
    /// The scheme the operation runs under; always the fixed algorithm tag.
    pub algorithm_name: String,
    /// PSS salt length in bytes.
    pub salt_length: usize,
}

/// The generation request for a key pair of `key_size` modulus bits (the
/// default size when unspecified): the fixed scheme and digest, public
/// exponent 65537, a non-extractable pair, and exactly the sign and verify
/// usages.
pub fn generate_key_request(key_size: Option<u32>) -> (r: GenerateKeyRequest)
    ensures
        r.algorithm_name@ == RSA_ALGORITHM@,
        r.modulus_length == (match key_size {
            Some(k) => k,
            None => DEFAULT_MODULUS_BITS,
        }),
        r.public_exponent@ == seq![0x01u8, 0x00u8, 0x01u8],
        r.hash_name@ == "SHA-256"@,
        !r.extractable,
        r.usages@.len() == 2,
        r.usages@[0]@ == "sign"@,
        r.usages@[1]@ == "verify"@,
{
    let mut public_exponent: Vec<u8> = Vec::new();
    public_exponent.push(0x01);
    public_exponent.push(0x00);
    public_exponent.push(0x01);
    let mut usages: Vec<String> = Vec::new();
    usages.push("sign".to_owned());
    usages.push("verify".to_owned());
    proof {
        assert(public_exponent@ =~= seq![0x01u8, 0x00u8, 0x01u8]);
    }
    GenerateKeyRequest {
        algorithm_name: RSA_ALGORITHM.to_owned(),
        modulus_length: match key_size {
            Some(k) => k,
            None => DEFAULT_MODULUS_BITS,
        },
        public_exponent,
        hash_name: "SHA-256".to_owned(),
        extractable: false,
        usages,
    }
}

/// The request accompanying every sign and verify call: the fixed scheme
/// tag and the fixed PSS salt length, so that two independently implemented
/// backends produce cross-verifiable signatures.
pub fn signature_request() -> (r: SignatureRequest)
    ensures
        r.algorithm_name@ == RSA_ALGORITHM@,
        r.salt_length == PSS_SALT_LENGTH,
{
    SignatureRequest { algorithm_name: RSA_ALGORITHM.to_owned(), salt_length: PSS_SALT_LENGTH }
}

/// The verify-only gate in front of the host's sign call: an instance
/// without a private key handle fails with `NoPrivateKey` here, before the
/// provider is ever consulted; otherwise signing proceeds with the fixed
/// signature request.
pub fn sign_gate(has_private_key: bool) -> (r: Result<SignatureRequest, KeyError>)
    ensures
        !has_private_key ==> r == Err::<SignatureRequest, KeyError>(KeyError::NoPrivateKey),
        r matches Ok(q) ==> has_private_key && q.algorithm_name@ == RSA_ALGORITHM@ && q.salt_length
            == PSS_SALT_LENGTH,
        has_private_key ==> r is Ok,
{
    if has_private_key {
        Ok(signature_request())
    } else {
        Err(KeyError::NoPrivateKey)
    }
}

/// The meaning of what the provider answered to a verification request: a reported mismatch
/// is `VerificationFailed`, distinct from any provider fault, so callers can
/// tell an invalid signature from verification that could not run.
pub fn interpret_verification(valid: bool) -> (r: Result<(), KeyError>)
    ensures
        r == (if valid {
            Ok::<(), KeyError>(())
        } else {
            Err::<(), KeyError>(KeyError::VerificationFailed)
        }),
{
    if valid {
        Ok(())
    } else {
        Err(KeyError::VerificationFailed)
    }
}

} // verus!
