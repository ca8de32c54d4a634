//! Content digests.
//!
//! Script content and directory names are told apart by their SHA-256 digest, written
//! in hexadecimal. The digest is computed outside the verified code; what is known of
//! it here is its shape, and that equal texts have equal digests.

use vstd::prelude::*;

verus! {

/// The number of hexadecimal digits in a digest.
pub const DIGEST_LEN: usize = 64;

/// The SHA-256 digest of the UTF-8 encoding of `text`, as 64 lower-case hexadecimal digits.
pub uninterp spec fn sha256_hex(text: Seq<char>) -> Seq<char>;

/// Whether `c` is a lower-case hexadecimal digit.
pub open spec fn is_hex_digit(c: char) -> bool {
    ('0' <= c && c <= '9') || ('a' <= c && c <= 'f')
}

/// Whether `s` has the shape of a digest: 64 lower-case hexadecimal digits.
pub open spec fn is_digest(s: Seq<char>) -> bool {
    &&& s.len() == DIGEST_LEN
    &&& forall|i: int| 0 <= i < s.len() ==> is_hex_digit(#[trigger] s[i])
}

/// `cotton::prelude::hex_digest` on the single part `text`: it feeds the bytes of
/// `text` to SHA-256, whose output is 32 bytes, and writes each byte as two digits
/// taken from `0123456789abcdef`. The result depends on `text` alone.
#[verifier::external_body]
pub(crate) fn hex_digest(text: &str) -> (r: String)
    ensures
        r@ == sha256_hex(text@),
        is_digest(r@),
{
    cotton::prelude::hex_digest(Some(text))
}

} // verus!
