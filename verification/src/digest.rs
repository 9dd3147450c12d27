//! The password as the portal wants it: the MD5 digest of its bytes, in
//! hexadecimal. The scheme is the portal's; it protects nothing.
use vstd::prelude::*;
use vstd::string::*;
use crate::text::{hex, hex_text};

verus! {

/// The MD5 digest of some bytes.
pub uninterp spec fn md5_of(data: Seq<u8>) -> Seq<u8>;

/// `md5::compute`: the digest of `data`, which is sixteen bytes long. What
/// the bytes are is not stated here, only that they depend on `data` alone.
#[verifier::external_body]
fn md5_digest(data: &[u8]) -> (r: [u8; 16])
    ensures
        r@ == md5_of(data@),
{
    md5::compute(data).0
}

/// The form in which a password is sent.
pub open spec fn password_hash_of(password: Seq<u8>) -> Seq<char> {
    hex(md5_of(password))
}

/// Hashes a password for the login form.
pub fn password_hash(password: &str) -> (r: String)
    ensures
        r@ == password_hash_of(password.spec_bytes()),
        r@.len() == 32,
{
    let digest = md5_digest(password.as_bytes());
    proof {
        hex_length(digest@);
    }
    digest_text(&digest)
}

/// Writes a digest in hexadecimal notation.
pub fn digest_text(digest: &[u8; 16]) -> (r: String)
    ensures
        r@ == hex(digest@),
{
    hex_text(digest.as_slice())
}

/// Hexadecimal notation takes two characters for each byte.
pub proof fn hex_length(bytes: Seq<u8>)
    ensures
        hex(bytes).len() == 2 * bytes.len(),
    decreases bytes.len(),
{
    if bytes.len() > 0 {
        hex_length(bytes.drop_last());
    }
}

} // verus!
