//! Structural validation of DER-encoded RSA public keys.
//!
//! A public key enters the library as a DER `SubjectPublicKeyInfo` byte
//! string: an outer `SEQUENCE` holding the fixed `rsaEncryption` algorithm
//! identifier and a `BIT STRING` that wraps the raw `RSAPublicKey` structure
//! (a `SEQUENCE` of two positive `INTEGER`s, modulus and exponent).
//! Identifier derivation needs exactly that inner structure, so this module
//! defines what a well-formed encoding is and extracts the raw key bytes
//! from it, rejecting anything else.

use vstd::prelude::*;

use crate::KeyError;

verus! {

/// A DER length field starts at index `i` of `d`: either a single short-form
/// byte, or a long-form marker `0x81`/`0x82` followed by a minimally encoded
/// big-endian value (DER forbids long forms for values a shorter form fits).
pub open spec fn der_len_ok(d: Seq<u8>, i: int) -> bool {
    &&& 0 <= i < d.len()
    &&& {
        ||| d[i] < 0x80
        ||| (d[i] == 0x81 && i + 1 < d.len() && d[i + 1] >= 0x80)
        ||| (d[i] == 0x82 && i + 2 < d.len() && d[i + 1] * 256 + d[i + 2] >= 0x100)
    }
}

/// Number of bytes the length field starting at `i` occupies.
pub open spec fn der_len_size(d: Seq<u8>, i: int) -> int {
    if d[i] < 0x80 {
        1
    } else if d[i] == 0x81 {
        2
    } else {
        3
    }
}

/// The length encoded by the length field starting at `i`.
pub open spec fn der_len_value(d: Seq<u8>, i: int) -> int {
    if d[i] < 0x80 {
        d[i] as int
    } else if d[i] == 0x81 {
        d[i + 1] as int
    } else {
        d[i + 1] * 256 + d[i + 2]
    }
}

/// The fixed 15-byte AlgorithmIdentifier for `rsaEncryption` occupies
/// indices `h .. h + 15` of `d`: a SEQUENCE of the OID 1.2.840.113549.1.1.1
/// and a NULL parameter.
pub open spec fn rsa_alg_id_at(d: Seq<u8>, h: int) -> bool {
    &&& 0 <= h
    &&& h + 15 <= d.len()
    &&& d[h] == 0x30
    &&& d[h + 1] == 0x0d
    &&& d[h + 2] == 0x06
    &&& d[h + 3] == 0x09
    &&& d[h + 4] == 0x2a
    &&& d[h + 5] == 0x86
    &&& d[h + 6] == 0x48
    &&& d[h + 7] == 0x86
    &&& d[h + 8] == 0xf7
    &&& d[h + 9] == 0x0d
    &&& d[h + 10] == 0x01
    &&& d[h + 11] == 0x01
    &&& d[h + 12] == 0x01
    &&& d[h + 13] == 0x05
    &&& d[h + 14] == 0x00
}

/// A positive, minimally encoded DER `INTEGER` starts at index `i` of `p`.
pub open spec fn der_int_at(p: Seq<u8>, i: int) -> bool {
    &&& 0 <= i
    &&& i + 2 <= p.len()
    &&& p[i] == 0x02
    &&& der_len_ok(p, i + 1)
    &&& {
        let n = der_len_value(p, i + 1);
        let c = i + 1 + der_len_size(p, i + 1);
        &&& n >= 1
        &&& c + n <= p.len()
        &&& p[c] < 0x80
        &&& (p[c] == 0x00 ==> n >= 2 && p[c + 1] >= 0x80)
    }
}

/// Index just past the `INTEGER` that starts at `i`.
pub open spec fn der_int_end(p: Seq<u8>, i: int) -> int {
    i + 1 + der_len_size(p, i + 1) + der_len_value(p, i + 1)
}

/// `p` is exactly one `RSAPublicKey` structure: a SEQUENCE holding two
/// positive `INTEGER`s (modulus, then public exponent) and nothing else.
pub open spec fn rsa_public_key_well_formed(p: Seq<u8>) -> bool {
    &&& p.len() >= 2
    &&& p[0] == 0x30
    &&& der_len_ok(p, 1)
    &&& {
        let h = 1 + der_len_size(p, 1);
        &&& p.len() == h + der_len_value(p, 1)
        &&& der_int_at(p, h)
        &&& der_int_at(p, der_int_end(p, h))
        &&& der_int_end(p, der_int_end(p, h)) == p.len()
    }
}

/// `d` is exactly one `SubjectPublicKeyInfo` for an RSA key: a SEQUENCE
/// holding the `rsaEncryption` AlgorithmIdentifier and a BIT STRING with no
/// unused bits whose contents are a well-formed `RSAPublicKey`.
pub open spec fn spki_well_formed(d: Seq<u8>) -> bool {
    &&& d.len() >= 2
    &&& d[0] == 0x30
    &&& der_len_ok(d, 1)
    &&& {
        let h = 1 + der_len_size(d, 1);
        &&& d.len() == h + der_len_value(d, 1)
        &&& rsa_alg_id_at(d, h)
        &&& h + 16 < d.len()
        &&& d[h + 15] == 0x03
        &&& der_len_ok(d, h + 16)
        &&& {
            let c = h + 16 + der_len_size(d, h + 16);
            &&& der_len_value(d, h + 16) >= 1
            &&& d.len() == c + der_len_value(d, h + 16)
            &&& d[c] == 0x00
            &&& rsa_public_key_well_formed(d.subrange(c + 1, d.len() as int))
        }
    }
}

/// The raw `RSAPublicKey` bytes wrapped inside a well-formed
/// `SubjectPublicKeyInfo`: the BIT STRING contents after the unused-bits
/// byte.
pub open spec fn spki_payload(d: Seq<u8>) -> Seq<u8> {
    let h = 1 + der_len_size(d, 1);
    let c = h + 16 + der_len_size(d, h + 16);
    d.subrange(c + 1, d.len() as int)
}

/// Reads the DER length field starting at index `i`, returning its value and
/// the number of bytes it occupies, or `None` where no valid field starts
/// there.
fn read_der_length(d: &[u8], i: usize) -> (r: Option<(usize, usize)>)
    requires
        i < d@.len(),
    ensures
        match r {
            Some(vs) => {
                &&& der_len_ok(d@, i as int)
                &&& vs.0 == der_len_value(d@, i as int)
                &&& vs.1 == der_len_size(d@, i as int)
            },
            None => !der_len_ok(d@, i as int),
        },
{
    let b = d[i];
    if b < 0x80 {
        Some((b as usize, 1))
    } else if b == 0x81 {
        if d.len() - i >= 2 && d[i + 1] >= 0x80 {
            Some((d[i + 1] as usize, 2))
        } else {
            None
        }
    } else if b == 0x82 {
        if d.len() - i >= 3 {
            let v = (d[i + 1] as usize) * 256 + (d[i + 2] as usize);
            if v >= 0x100 {
                Some((v, 3))
            } else {
                None
            }
        } else {
            None
        }
    } else {
        None
    }
}

/// Checks for a positive, minimally encoded `INTEGER` starting at index `i`,
/// returning the index just past it.
fn read_der_integer(p: &[u8], i: usize) -> (r: Option<usize>)
    requires
        i <= p@.len(),
    ensures
        match r {
            Some(e) => der_int_at(p@, i as int) && e == der_int_end(p@, i as int),
            None => !der_int_at(p@, i as int),
        },
{
    if p.len() - i < 2 || p[i] != 0x02 {
        return None;
    }
    let (n, s) = match read_der_length(p, i + 1) {
        Some(vs) => vs,
        None => return None,
    };
    let c = i + 1 + s;
    if n < 1 || p.len() < c || p.len() - c < n {
        return None;
    }
    if p[c] >= 0x80 {
        return None;
    }
    if p[c] == 0x00 && (n < 2 || p[c + 1] < 0x80) {
        return None;
    }
    Some(c + n)
}

/// Decides whether `p` is exactly one well-formed `RSAPublicKey` structure.
pub fn check_rsa_public_key(p: &[u8]) -> (r: bool)
    ensures
        r == rsa_public_key_well_formed(p@),
{
    if p.len() < 2 || p[0] != 0x30 {
        return false;
    }
    let (v, s) = match read_der_length(p, 1) {
        Some(vs) => vs,
        None => return false,
    };
    let h = 1 + s;
    if p.len() - h != v {
        return false;
    }
    let e0 = match read_der_integer(p, h) {
        Some(e) => e,
        None => return false,
    };
    let e1 = match read_der_integer(p, e0) {
        Some(e) => e,
        None => return false,
    };
    e1 == p.len()
}

/// Extracts the raw `RSAPublicKey` bytes from a DER `SubjectPublicKeyInfo`,
/// or reports `EncodingError` where the bytes are not a well-formed RSA
/// subject-public-key-info structure.
pub fn extract_rsa_public_key(d: &[u8]) -> (r: Result<Vec<u8>, KeyError>)
    ensures
        match r {
            Ok(p) => spki_well_formed(d@) && p@ == spki_payload(d@),
            Err(e) => !spki_well_formed(d@) && e == KeyError::EncodingError,
        },
{
    if d.len() < 2 || d[0] != 0x30 {
        return Err(KeyError::EncodingError);
    }
    let (v, s) = match read_der_length(d, 1) {
        Some(vs) => vs,
        None => return Err(KeyError::EncodingError),
    };
    let h = 1 + s;
    if d.len() < h || d.len() - h != v {
        return Err(KeyError::EncodingError);
    }
    if d.len() - h < 15 {
        return Err(KeyError::EncodingError);
    }
    if !(d[h] == 0x30 && d[h + 1] == 0x0d && d[h + 2] == 0x06 && d[h + 3] == 0x09 && d[h + 4]
        == 0x2a && d[h + 5] == 0x86 && d[h + 6] == 0x48 && d[h + 7] == 0x86 && d[h + 8] == 0xf7
        && d[h + 9] == 0x0d && d[h + 10] == 0x01 && d[h + 11] == 0x01 && d[h + 12] == 0x01 && d[h
        + 13] == 0x05 && d[h + 14] == 0x00) {
        return Err(KeyError::EncodingError);
    }
    if d.len() - h < 17 {
        return Err(KeyError::EncodingError);
    }
    if d[h + 15] != 0x03 {
        return Err(KeyError::EncodingError);
    }
    let (bs, s1) = match read_der_length(d, h + 16) {
        Some(vs) => vs,
        None => return Err(KeyError::EncodingError),
    };
    let c = h + 16 + s1;
    if bs < 1 || d.len() < c || d.len() - c != bs {
        return Err(KeyError::EncodingError);
    }
    if d[c] != 0x00 {
        return Err(KeyError::EncodingError);
    }
    let payload = &d[c + 1..d.len()];
    if !check_rsa_public_key(payload) {
        return Err(KeyError::EncodingError);
    }
    Ok(vstd::slice::slice_to_vec(payload))
}

} // verus!
