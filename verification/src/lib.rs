//! Pluggable key material for issuing and verifying UCAN tokens.
//!
//! A key material value binds an RSA key pair (or a verify-only public key)
//! to a fixed signature protocol: RSASSA-PSS over a SHA-256 digest with a
//! 128-byte salt. Every backend exposes the same four operations — report
//! the algorithm name, derive a decentralized identifier from the public
//! key, sign a payload, verify a signature — so that tokens issued through
//! one backend verify through any other holding the same public key.

use vstd::prelude::*;

pub mod der;
pub mod did;
pub mod host;
pub mod software;

verus! {

/// The fixed signature-scheme tag shared by every backend. It is embedded
/// verbatim in token headers and names exactly one parameter set: RSASSA-PSS,
/// SHA-256 digest, 128-byte salt.
pub const RSA_ALGORITHM: &'static str = "RSA-PSS";

/// Salt length, in bytes, of the PSS padding used by every backend.
pub const PSS_SALT_LENGTH: usize = 128;

/// Modulus size, in bits, requested from the provider when the caller does
/// not ask for a particular key size.
pub const DEFAULT_MODULUS_BITS: u32 = 2048;

/// The capability set every key material variant exposes to the token
/// layer: report the algorithm tag for token headers, derive a stable
/// decentralized identifier from the public key, sign byte payloads, and
/// verify signatures.
///
/// The spec functions are the variant's mathematical model: `spki` is the
/// DER subject-public-key-info encoding of the wrapped public key,
/// `has_private` says whether the instance can sign at all, and `accepts`
/// is the variant's (deterministic) signature-validity relation. Instances
/// are immutable: no operation changes the wrapped keys.
pub trait KeyMaterial: Sized {
    /// The DER subject-public-key-info encoding of the public key this
    /// instance wraps.
    spec fn spki(&self) -> Seq<u8>;

    /// Whether the instance holds a private key handle. Without one it is
    /// verify-only: `sign` must fail without consulting the provider.
    spec fn has_private(&self) -> bool;

    /// Whether the bound provider holds a usable form of the public key, so
    /// that verification can be attempted at all.
    spec fn verifier_available(&self) -> bool;

    /// The algorithm tag this variant embeds verbatim in token headers. One
    /// tag names exactly one parameter set, so it is constant per variant
    /// family.
    spec fn algorithm_name(&self) -> Seq<char>;

    /// Whether `sig` is a valid signature over `payload` under this
    /// instance's public key and the variant's fixed algorithm parameters —
    /// a function of the key bytes, payload, and signature alone.
    spec fn accepts(&self, payload: Seq<u8>, sig: Seq<u8>) -> bool;

    /// The algorithm tag for token headers. Pure and constant: no failure
    /// mode, no provider call.
    fn get_jwt_algorithm_name(&self) -> (r: String)
        ensures
            r@ == self.algorithm_name(),
    ;

    /// Derives the decentralized identifier of the wrapped public key.
    /// Idempotent — the result is a function of the public key encoding
    /// alone — and never requires the private key. A malformed encoding is
    /// reported as `EncodingError`, never as a partial identifier.
    fn get_did(&self) -> (r: Result<String, KeyError>)
        ensures
            match r {
                Ok(s) => der::spki_well_formed(self.spki()) && s@ == did::did_of(self.spki()),
                Err(e) => !der::spki_well_formed(self.spki()) && e == KeyError::EncodingError,
            },
    ;

    /// Signs `payload` with the variant's fixed algorithm parameters. A
    /// verify-only instance fails with `NoPrivateKey` before any provider
    /// call; otherwise every signature handed back is accepted by
    /// verification under the same public key.
    fn sign(&self, payload: &[u8]) -> (r: Result<Vec<u8>, KeyError>)
        ensures
            !self.has_private() ==> r == Err::<Vec<u8>, KeyError>(KeyError::NoPrivateKey),
            r matches Ok(sig) ==> self.has_private() && self.accepts(payload@, sig@),
            self.has_private() ==> (r matches Err(e) ==> e == KeyError::ProviderError),
    ;

    /// Verifies `signature` over `payload`. A signature the provider
    /// examined and rejected is `VerificationFailed`; `ProviderError` is
    /// reserved for verification that could not be attempted.
    fn verify(&self, payload: &[u8], signature: &[u8]) -> (r: Result<(), KeyError>)
        ensures
            self.verifier_available() ==> r == (if self.accepts(payload@, signature@) {
                Ok::<(), KeyError>(())
            } else {
                Err::<(), KeyError>(KeyError::VerificationFailed)
            }),
            !self.verifier_available() ==> r == Err::<(), KeyError>(KeyError::ProviderError),
    ;
}

/// Determinism of identity, across instances and backends: two key material
/// instances wrapping bit-identical public key encodings derive identical
/// identifier strings, whatever their variants are.
pub proof fn lemma_identity_determined_by_key<A: KeyMaterial, B: KeyMaterial>(a: &A, b: &B)
    requires
        a.spki() == b.spki(),
    ensures
        did::did_of(a.spki()) == did::did_of(b.spki()),
{
}

/// How a key material operation can fail.
#[derive(Clone, Copy, Debug, PartialEq, Eq, Structural)]
pub enum KeyError {
    /// The cryptographic provider is unreachable, rejected its parameters,
    /// or reported an internal fault.
    ProviderError,
    /// `sign` was called on a verify-only instance; the provider is never
    /// consulted in this case.
    NoPrivateKey,
    /// The provider examined the signature and reports that it does not
    /// match the payload under this public key.
    VerificationFailed,
    /// The public key encoding does not parse as an RSA subject-public-key-info
    /// structure, so no identifier can be derived from it.
    EncodingError,
}

} // verus!
