//! SHA-256, hexadecimal and Base64 encodings used by the hash-chained logs.
use base64::Engine;
use sha2::Digest;
use vstd::prelude::*;
use vstd::string::*;

use crate::text::lower_hex;

verus! {

/// The SHA-256 digest of a byte string (FIPS 180-4), as computed by the `sha2` crate.
pub uninterp spec fn spec_sha256(data: Seq<u8>) -> Seq<u8>;

/// Calls `sha2::Sha256::digest`. Trusted: the result is the SHA-256 digest of `data`
/// (named, not restated) and is 32 bytes long, the output size of `Sha256`.
#[verifier::external_body]
pub(crate) fn sha256_digest(data: &[u8]) -> (r: Vec<u8>)
    ensures
        r@ == spec_sha256(data@),
        r@.len() == 32,
{
    sha2::Sha256::digest(data).to_vec()
}

/// Calls `hex::encode`. Trusted: for each byte, in order, the high then the low nibble is
/// written with the table `0123456789abcdef` (`BytesToHexChars` in the `hex` crate).
#[verifier::external_body]
pub(crate) fn hex_encode(data: &[u8]) -> (r: String)
    ensures
        r@ == lower_hex(data@),
{
    hex::encode(data)
}

/// The Base64 alphabet of RFC 4648, section 4.
pub open spec fn base64_char(i: nat) -> char {
    if i < 26 {
        (65 + i) as char
    } else if i < 52 {
        (97 + (i - 26)) as char
    } else if i < 62 {
        (48 + (i - 52)) as char
    } else if i == 62 {
        '+'
    } else {
        '/'
    }
}

/// Padded standard Base64 (RFC 4648, section 4) of a byte string.
pub open spec fn base64_standard(b: Seq<u8>) -> Seq<char>
    decreases b.len(),
{
    if b.len() == 0 {
        Seq::empty()
    } else if b.len() == 1 {
        seq![
            base64_char((b[0] / 4) as nat),
            base64_char(((b[0] % 4) * 16) as nat),
            '=',
            '=',
        ]
    } else if b.len() == 2 {
        seq![
            base64_char((b[0] / 4) as nat),
            base64_char(((b[0] % 4) * 16 + b[1] / 16) as nat),
            base64_char(((b[1] % 16) * 4) as nat),
            '=',
        ]
    } else {
        seq![
            base64_char((b[0] / 4) as nat),
            base64_char(((b[0] % 4) * 16 + b[1] / 16) as nat),
            base64_char(((b[1] % 16) * 4 + b[2] / 64) as nat),
            base64_char((b[2] % 64) as nat),
        ] + base64_standard(b.subrange(3, b.len() as int))
    }
}

/// Calls `base64::engine::general_purpose::STANDARD.encode`. Trusted: the result is the
/// padded standard-alphabet encoding of RFC 4648, section 4, which that engine implements.
#[verifier::external_body]
pub(crate) fn base64_standard_encode(data: &[u8]) -> (r: String)
    ensures
        r@ == base64_standard(data@),
{
    base64::engine::general_purpose::STANDARD.encode(data)
}

/// The `sha256:`-prefixed lower-case hexadecimal digest of a byte string.
pub open spec fn spec_sha_prefixed(data: Seq<u8>) -> Seq<char> {
    seq!['s', 'h', 'a', '2', '5', '6', ':'] + lower_hex(spec_sha256(data))
}

/// `sha256:` followed by the lower-case hexadecimal SHA-256 digest of `data`.
pub fn sha_prefixed(data: &[u8]) -> (r: String)
    ensures
        r@ == spec_sha_prefixed(data@),
{
    let digest = sha256_digest(data);
    let hex = hex_encode(digest.as_slice());
    let mut out = String::new();
    proof {
        reveal_strlit("sha256:");
    }
    out.append("sha256:");
    out.append(hex.as_str());
    assert(out@ =~= spec_sha_prefixed(data@));
    out
}

} // verus!
