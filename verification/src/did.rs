//! Derivation of a decentralized identifier from an RSA public key.
//!
//! The identifier is a deterministic function of the public key encoding
//! alone: the raw `RSAPublicKey` bytes are pulled out of the DER
//! subject-public-key-info structure, tagged with the multicodec prefix
//! reserved for RSA public keys, base58-encoded, and prefixed with the
//! `did:key` scheme marker and the multibase marker `z` for base58btc.

use vstd::prelude::*;
use vstd::string::StringExecFns;

use crate::KeyError;
use crate::der::extract_rsa_public_key;
use crate::der::spki_payload;
use crate::der::spki_well_formed;

verus! {

/// The base58btc digits (Bitcoin alphabet) of `data`, as `bs58::encode`
/// produces them: a function of the input bytes alone.
pub uninterp spec fn base58_of(data: Seq<u8>) -> Seq<char>;

/// Relies on `bs58::encode` with its default (Bitcoin) alphabet: the result
/// is the base58 encoding of the input bytes and depends on nothing else.
#[verifier::external_body]
fn base58_encode(data: &Vec<u8>) -> (r: String)
    ensures
        r@ == base58_of(data@),
{
    bs58::encode(data.as_slice()).into_string()
}

/// The multicodec tag for an RSA public key, prefixed to the raw key bytes
/// before base-encoding.
pub open spec fn multicodec_tagged(payload: Seq<u8>) -> Seq<u8> {
    seq![0x85u8, 0x24u8] + payload
}

/// The identifier derived from a well-formed public key encoding: the
/// `did:key` scheme marker, the base58btc multibase marker, and the base58
/// digits of the multicodec-tagged raw key bytes.
pub open spec fn did_of(spki: Seq<u8>) -> Seq<char> {
    "did:key:z"@ + base58_of(multicodec_tagged(spki_payload(spki)))
}

/// Derives the decentralized identifier for the public key encoded by
/// `spki`, or reports `EncodingError` where the bytes are not a well-formed
/// RSA subject-public-key-info structure. Same bytes in, same string out:
/// the result depends on the input alone.
pub fn did_from_spki(spki: &[u8]) -> (r: Result<String, KeyError>)
    ensures
        match r {
            Ok(s) => spki_well_formed(spki@) && s@ == did_of(spki@),
            Err(e) => !spki_well_formed(spki@) && e == KeyError::EncodingError,
        },
{
    let payload = match extract_rsa_public_key(spki) {
        Ok(p) => p,
        Err(e) => {
            return Err(e);
        },
    };
    let mut tagged: Vec<u8> = Vec::new();
    tagged.push(0x85);
    tagged.push(0x24);
    let mut j: usize = 0;
    while j < payload.len()
        invariant
            j <= payload@.len(),
            tagged@ == seq![0x85u8, 0x24u8] + payload@.subrange(0, j as int),
        decreases payload@.len() - j,
    {
        tagged.push(payload[j]);
        j = j + 1;
        proof {
            assert(tagged@ =~= seq![0x85u8, 0x24u8] + payload@.subrange(0, j as int));
        }
    }
    proof {
        assert(payload@.subrange(0, payload@.len() as int) =~= payload@);
        assert(tagged@ =~= multicodec_tagged(payload@));
    }
    let digits = base58_encode(&tagged);
    let mut s = "did:key:z".to_owned();
    s.append(digits.as_str());
    Ok(s)
}

/// Every derived identifier begins with the `did:key` scheme marker and the
/// base58btc multibase marker.
pub proof fn lemma_did_has_scheme_marker(spki: Seq<u8>)
    ensures
        did_of(spki).len() >= 9,
        did_of(spki).subrange(0, 9) == "did:key:z"@,
{
    reveal_strlit("did:key:z");
    assert(did_of(spki).subrange(0, 9) =~= "did:key:z"@);
}

} // verus!
