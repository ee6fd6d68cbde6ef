//! The release tarball and its integrity hash: a SHA-256 digest of the
//! compressed bytes, encoded in standard base64, which the stage
//! request URL and the transfer-phase integrity header both carry.

use base64::Engine;
use vstd::prelude::*;

verus! {

/// The SHA-256 digest of a byte sequence.
pub uninterp spec fn sha256_of(bytes: Seq<u8>) -> Seq<u8>;

/// The standard (padded) base64 encoding of a byte sequence.
pub uninterp spec fn base64_std_of(bytes: Seq<u8>) -> Seq<char>;

/// Relies on ring::digest::digest with SHA256: a 32-byte digest that
/// depends on the input bytes alone.
#[verifier::external_body]
fn sha256(bytes: &Vec<u8>) -> (r: Vec<u8>)
    ensures
        r@ == sha256_of(bytes@),
        r@.len() == 32,
{
    ring::digest::digest(&ring::digest::SHA256, bytes.as_slice()).as_ref().to_vec()
}

/// Relies on base64's general_purpose::STANDARD engine: a padded
/// encoding, four output characters for every three input bytes, that
/// depends on the input bytes alone.
#[verifier::external_body]
fn base64_standard(bytes: &Vec<u8>) -> (r: String)
    ensures
        r@ == base64_std_of(bytes@),
        r@.len() == 4 * ((bytes@.len() + 2) / 3),
{
    base64::engine::general_purpose::STANDARD.encode(bytes.as_slice())
}

/// The compressed release tarball and the base64 SHA-256 hash of its
/// bytes.
pub struct Tarball {
    pub hash_base64: String,
    pub bytes: Vec<u8>,
}

impl Tarball {
    /// The hash field is the base64 SHA-256 digest of the bytes field.
    pub open spec fn well_formed(self) -> bool {
        &&& self.hash_base64@ == base64_std_of(sha256_of(self.bytes@))
        &&& self.hash_base64@.len() == 44
    }
}

/// Wrap compressed tarball bytes together with their integrity hash.
pub fn tarball_from_bytes(bytes: Vec<u8>) -> (t: Tarball)
    ensures
        t.bytes@ == bytes@,
        t.hash_base64@ == base64_std_of(sha256_of(bytes@)),
        t.well_formed(),
{
    let digest = sha256(&bytes);
    let hash_base64 = base64_standard(&digest);
    Tarball { hash_base64, bytes }
}

} // verus!
