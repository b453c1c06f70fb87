//! The fingerprint generator: a deterministic, fixed-length hexadecimal
//! digest of a URL string, from which candidate slugs are cut.

use vstd::prelude::*;

verus! {

/// The digest of a URL: a pure function of the URL's characters.
///
/// The digest's exact value is not stated here; the resolver only needs
/// that it is deterministic and 32 characters long, which `shorten`
/// guarantees.
pub uninterp spec fn digest_of(url: Seq<char>) -> Seq<char>;

/// Relies on `md5::compute` together with the `LowerHex` rendering of
/// `md5::Digest`: the 16-byte digest is a pure function of the input bytes
/// and prints as exactly 32 hexadecimal characters (two per byte).
#[verifier::external_body]
pub fn shorten(url: String) -> (r: String)
    ensures
        r@ == digest_of(url@),
        r@.len() == 32,
{
    format!("{:x}", md5::compute(url.as_bytes()))
}

} // verus!
