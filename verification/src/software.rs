//! The software-resident RSA backend: key material whose cryptographic
//! provider is an in-process RSA implementation.
//!
//! The provider boundary is four operations — generate a key pair, encode
//! the public key, sign a digest, verify a signature — each delegated to
//! the `rsa` crate. Everything around that boundary (the verify-only gate,
//! the error taxonomy, identifier derivation, the interpretation of the
//! provider's verification answer) is ordinary verified code.

use vstd::prelude::*;

use crate::DEFAULT_MODULUS_BITS;
use crate::KeyError;
use crate::KeyMaterial;
use crate::PSS_SALT_LENGTH;
use crate::RSA_ALGORITHM;
use crate::der::spki_well_formed;
use crate::did::did_from_spki;

verus! {

#[verifier::external_type_specification]
#[verifier::external_body]
pub struct ExRsaPublicKey(rsa::RsaPublicKey);

#[verifier::external_type_specification]
#[verifier::external_body]
pub struct ExRsaPrivateKey(rsa::RsaPrivateKey);

/// Whether RSASSA-PSS verification — SHA-256 digest, a salt of `salt_len`
/// bytes — accepts `sig` as a signature over `payload` under the RSA public
/// key whose subject-public-key-info encoding is `spki`. Verification is a
/// deterministic function of these values alone.
pub uninterp spec fn pss_verifies(
    spki: Seq<u8>,
    salt_len: int,
    payload: Seq<u8>,
    sig: Seq<u8>,
) -> bool;

/// Whether the in-process provider's parser accepts `der` as a DER
/// subject-public-key-info encoding of an RSA public key. Parsing is a
/// deterministic function of the bytes alone.
pub uninterp spec fn rsa_parses(der: Seq<u8>) -> bool;

/// Key material bound to the in-process RSA provider: the public key's DER
/// encoding, the provider's parsed form of the public key (absent when the
/// encoding was imported but the provider rejected it), and the optional
/// private key handle of a signing-capable instance.
pub struct RsaKeyMaterial {
    spki_der: Vec<u8>,
    public_key: Option<rsa::RsaPublicKey>,
    private_key: Option<rsa::RsaPrivateKey>,
}

/// What verification reports for each key, payload, and signature once the
/// provider has been consulted: acceptance, or `VerificationFailed` — never
/// a different error kind.
pub open spec fn verify_outcome(spki: Seq<u8>, payload: Seq<u8>, sig: Seq<u8>) -> Result<
    (),
    KeyError,
> {
    if pss_verifies(spki, PSS_SALT_LENGTH as int, payload, sig) {
        Ok(())
    } else {
        Err(KeyError::VerificationFailed)
    }
}

/// Relies on `rsa::RsaPrivateKey::new` (two-prime generation with public
/// exponent 65537), `to_public_key`, and `EncodePublicKey::to_public_key_der`:
/// the result wraps a fresh key pair whose stored bytes are the
/// subject-public-key-info encoding of the generated public key. That
/// encoder emits exactly the structure the `der` module specifies — a
/// minimal-DER SEQUENCE holding the `rsaEncryption` AlgorithmIdentifier and
/// a zero-unused-bits BIT STRING around a two-integer `RSAPublicKey` — so
/// the stored encoding is well-formed.
#[verifier::external_body]
fn generate_key_pair(bits: usize) -> (r: Result<RsaKeyMaterial, KeyError>)
    ensures
        r matches Ok(km) ==> km.has_private() && km.verifier_available() && spki_well_formed(
            km.spki(),
        ),
        r matches Err(e) ==> e == KeyError::ProviderError,
{
    let mut rng = rand::thread_rng();
    let private = match rsa::RsaPrivateKey::new(&mut rng, bits) {
        Ok(k) => k,
        Err(_) => return Err(KeyError::ProviderError),
    };
    let public = private.to_public_key();
    let spki = match rsa::pkcs8::EncodePublicKey::to_public_key_der(&public) {
        Ok(doc) => doc.as_bytes().to_vec(),
        Err(_) => return Err(KeyError::ProviderError),
    };
    Ok(RsaKeyMaterial { spki_der: spki, public_key: Some(public), private_key: Some(private) })
}

/// Relies on `DecodePublicKey::from_public_key_der`: whether it accepts an
/// encoding is a deterministic function of the bytes alone, and the result,
/// when it accepts, is the provider's parsed form of exactly the key that
/// `der` encodes.
#[verifier::external_body]
fn parse_public_key(der: &[u8]) -> (r: Option<rsa::RsaPublicKey>)
    ensures
        r is Some <==> rsa_parses(der@),
{
    <rsa::RsaPublicKey as rsa::pkcs8::DecodePublicKey>::from_public_key_der(der).ok()
}

/// Relies on `rsa::RsaPrivateKey::sign_with_rng` with
/// `Pss::new_with_salt::<Sha256>` and `sha2::Sha256::digest`: a signature it
/// returns is accepted by RSASSA-PSS verification with the same parameters
/// under the signing key's public counterpart — and every constructor keeps
/// the stored bytes equal to that counterpart's encoding (`generate` derives
/// both from one fresh pair, `from_keys` rejects a mismatched pair, imports
/// hold no private key), so the signature verifies under `km`'s stored
/// bytes. The salt is drawn from `rand`'s thread rng, so nothing more is
/// promised of the signature bytes themselves.
#[verifier::external_body]
fn pss_sign(km: &RsaKeyMaterial, salt_len: usize, payload: &[u8]) -> (r: Result<Vec<u8>, KeyError>)
    requires
        km.has_private(),
    ensures
        r matches Ok(sig) ==> pss_verifies(km.spki(), salt_len as int, payload@, sig@),
        r matches Err(e) ==> e == KeyError::ProviderError,
{
    let digest = <sha2::Sha256 as sha2::Digest>::digest(payload);
    let mut rng = rand::thread_rng();
    let scheme = rsa::Pss::new_with_salt::<sha2::Sha256>(salt_len);
    match km.private_key.as_ref().unwrap().sign_with_rng(&mut rng, scheme, &digest) {
        Ok(sig) => Ok(sig),
        Err(_) => Err(KeyError::ProviderError),
    }
}

/// Relies on `rsa::RsaPublicKey::verify` with `Pss::new_with_salt::<Sha256>`
/// and `sha2::Sha256::digest`: the answer is deterministic in the key, the
/// salt length, the payload, and the signature.
#[verifier::external_body]
fn pss_verify(km: &RsaKeyMaterial, salt_len: usize, payload: &[u8], sig: &[u8]) -> (r: bool)
    requires
        km.verifier_available(),
    ensures
        r == pss_verifies(km.spki(), salt_len as int, payload@, sig@),
{
    let digest = <sha2::Sha256 as sha2::Digest>::digest(payload);
    let scheme = rsa::Pss::new_with_salt::<sha2::Sha256>(salt_len);
    km.public_key.as_ref().unwrap().verify(scheme, &digest, sig).is_ok()
}

impl RsaKeyMaterial {
    /// The modulus size handed to the provider: the caller's requested size,
    /// or the default when none was requested.
    pub fn requested_bits(key_size: Option<u32>) -> (r: usize)
        ensures
            r == (match key_size {
                Some(k) => k as usize,
                None => DEFAULT_MODULUS_BITS as usize,
            }),
    {
        match key_size {
            Some(k) => k as usize,
            None => DEFAULT_MODULUS_BITS as usize,
        }
    }

    /// Asks the provider for a fresh key pair of [`Self::requested_bits`]
    /// modulus bits. The result holds both key handles, so it can sign; the
    /// provider retains a usable public key; and the stored encoding is
    /// well-formed, so identifier derivation succeeds on it.
    pub fn generate(key_size: Option<u32>) -> (r: Result<RsaKeyMaterial, KeyError>)
        ensures
            r matches Ok(km) ==> km.has_private() && km.verifier_available()
                && spki_well_formed(km.spki()),
            r matches Err(e) ==> e == KeyError::ProviderError,
    {
        generate_key_pair(Self::requested_bits(key_size))
    }

    /// Relies on `EncodePublicKey::to_public_key_der` (which emits exactly
    /// the well-formed structure the `der` module specifies) and on
    /// `RsaPublicKey`'s equality: a supplied private key whose public
    /// counterpart differs from `public` is rejected, so every instance
    /// signs under its own stored bytes. On success the stored bytes are the
    /// subject-public-key-info encoding of `public`, with the private key
    /// handle kept beside them. Mirrors the provider-handle construction
    /// that backends expose publicly.
    #[verifier::external_body]
    pub fn from_keys(public: rsa::RsaPublicKey, private: Option<rsa::RsaPrivateKey>) -> (r: Result<
        RsaKeyMaterial,
        KeyError,
    >)
        ensures
            r matches Ok(km) ==> km.verifier_available() && (km.has_private() <==> private
                is Some) && spki_well_formed(km.spki()),
            r matches Err(e) ==> e == KeyError::ProviderError,
    {
        if let Some(secret) = private.as_ref() {
            if secret.to_public_key() != public {
                return Err(KeyError::ProviderError);
            }
        }
        let spki = match rsa::pkcs8::EncodePublicKey::to_public_key_der(&public) {
            Ok(doc) => doc.as_bytes().to_vec(),
            Err(_) => return Err(KeyError::ProviderError),
        };
        Ok(RsaKeyMaterial { spki_der: spki, public_key: Some(public), private_key: private })
    }

    /// Reconstructs a verify-only instance from a stored public key
    /// encoding. The bytes are kept as supplied — a corrupted encoding shows
    /// up later, as `EncodingError` from `get_did` or `ProviderError` from
    /// `verify` — and no private key handle exists, so `sign` always fails.
    /// Verification is available exactly when the provider's parser accepts
    /// the encoding.
    pub fn import_public_key(spki_der: Vec<u8>) -> (km: RsaKeyMaterial)
        ensures
            km.spki() == spki_der@,
            !km.has_private(),
            km.verifier_available() == rsa_parses(spki_der@),
    {
        let public_key = parse_public_key(spki_der.as_slice());
        RsaKeyMaterial { spki_der, public_key, private_key: None }
    }

    /// Hands out the stored subject-public-key-info encoding: the provider
    /// export that identifier derivation and re-import start from. Callable
    /// on verify-only instances.
    pub fn export_public_key_der(&self) -> (r: Vec<u8>)
        ensures
            r@ == self.spki(),
    {
        vstd::slice::slice_to_vec(self.spki_der.as_slice())
    }
}

impl KeyMaterial for RsaKeyMaterial {
    closed spec fn spki(&self) -> Seq<u8> {
        self.spki_der@
    }

    closed spec fn has_private(&self) -> bool {
        self.private_key is Some
    }

    closed spec fn verifier_available(&self) -> bool {
        self.public_key is Some
    }

    open spec fn algorithm_name(&self) -> Seq<char> {
        RSA_ALGORITHM@
    }

    open spec fn accepts(&self, payload: Seq<u8>, sig: Seq<u8>) -> bool {
        pss_verifies(self.spki(), PSS_SALT_LENGTH as int, payload, sig)
    }

    fn get_jwt_algorithm_name(&self) -> (r: String) {
        RSA_ALGORITHM.to_owned()
    }

    fn get_did(&self) -> (r: Result<String, KeyError>) {
        did_from_spki(self.spki_der.as_slice())
    }

    fn sign(&self, payload: &[u8]) -> (r: Result<Vec<u8>, KeyError>) {
        if self.private_key.is_none() {
            return Err(KeyError::NoPrivateKey);
        }
        pss_sign(self, PSS_SALT_LENGTH, payload)
    }

    fn verify(&self, payload: &[u8], signature: &[u8]) -> (r: Result<(), KeyError>) {
        if self.public_key.is_none() {
            return Err(KeyError::ProviderError);
        }
        if pss_verify(self, PSS_SALT_LENGTH, payload, signature) {
            Ok(())
        } else {
            Err(KeyError::VerificationFailed)
        }
    }
}

/// Round trip: any signature that `sign` may hand back for a payload — its
/// contract guarantees acceptance under the signer's public key bytes — is
/// accepted by verification under those bytes.
pub proof fn lemma_sign_verify_round_trip(spki: Seq<u8>, payload: Seq<u8>, sig: Seq<u8>)
    requires
        pss_verifies(spki, PSS_SALT_LENGTH as int, payload, sig),
    ensures
        verify_outcome(spki, payload, sig) == Ok::<(), KeyError>(()),
{
}

/// A signature the provider examined and rejected is reported as
/// `VerificationFailed`, never as a different error kind.
pub proof fn lemma_mismatch_is_verification_failed(spki: Seq<u8>, payload: Seq<u8>, sig: Seq<u8>)
    requires
        !pss_verifies(spki, PSS_SALT_LENGTH as int, payload, sig),
    ensures
        verify_outcome(spki, payload, sig) == Err::<(), KeyError>(KeyError::VerificationFailed),
{
}

/// Cross-backend interoperability: signature acceptance depends only on the
/// public key bytes, the payload, and the fixed protocol parameters, so a
/// signature produced against one key material instance verifies under any
/// other instance wrapping the same public key encoding.
pub proof fn lemma_cross_backend_verification(
    a: RsaKeyMaterial,
    b: RsaKeyMaterial,
    payload: Seq<u8>,
    sig: Seq<u8>,
)
    requires
        a.spki() == b.spki(),
        a.accepts(payload, sig),
    ensures
        b.accepts(payload, sig),
        verify_outcome(b.spki(), payload, sig) == Ok::<(), KeyError>(()),
{
}

} // verus!
