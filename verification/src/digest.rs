//! Content digests.
use sha2::Digest;
use vstd::prelude::*;
use vstd::utf8::encode_utf8;

verus! {

/// The SHA-256 digest of some bytes, as lower-case hexadecimal text.
pub uninterp spec fn sha256_hex(bytes: Seq<u8>) -> Seq<char>;

/// The 64-bit XXH3 hash of some bytes, with the default seed.
pub uninterp spec fn xxh3_value(bytes: Seq<u8>) -> u64;

/// Whether a character is a lower-case hexadecimal digit.
pub open spec fn hex_digit(c: char) -> bool {
    '0' <= c <= '9' || 'a' <= c <= 'f'
}

/// `sha2::Sha256`: its digest depends on the bytes alone and has 32 bytes,
/// which `{:x}` writes as two lower-case hexadecimal digits each.
#[verifier::external_body]
fn sha256(bytes: &[u8]) -> (r: String)
    ensures
        r@ == sha256_hex(bytes@),
        r@.len() == 64,
        forall|i: int| 0 <= i < r@.len() ==> hex_digit(#[trigger] r@[i]),
{
    let mut h = sha2::Sha256::new();
    h.update(bytes);
    format!("{:x}", h.finalize())
}

/// `xxhash_rust::xxh3::xxh3_64`: its result depends on the bytes alone.
#[verifier::external_body]
fn xxh3(bytes: &[u8]) -> (r: u64)
    ensures
        r == xxh3_value(bytes@),
{
    xxhash_rust::xxh3::xxh3_64(bytes)
}

/// The SHA-256 digest of a text's UTF-8 bytes, as 64 hexadecimal digits.
pub fn text_sha256(content: &str) -> (r: String)
    ensures
        r@ == sha256_hex(encode_utf8(content@)),
        r@.len() == 64,
        forall|i: int| 0 <= i < r@.len() ==> hex_digit(#[trigger] r@[i]),
{
    sha256(content.as_bytes())
}

/// The XXH3 hash of a text's UTF-8 bytes, as a signed database integer.
pub fn text_xxh3(content: &str) -> (r: i64)
    ensures
        r == xxh3_value(encode_utf8(content@)) as i64,
{
    xxh3(content.as_bytes()) as i64
}

} // verus!
