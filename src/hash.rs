use md5::Digest;
use vstd::prelude::*;

verus! {

/// The lowercase hexadecimal MD5 digest of a byte sequence.
pub uninterp spec fn md5_hex_of(data: Seq<u8>) -> Seq<char>;

/// A lowercase hexadecimal digit.
pub open spec fn is_lower_hex_digit(c: char) -> bool {
    ('0' <= c && c <= '9') || ('a' <= c && c <= 'f')
}

/// A digest string: 32 lowercase hexadecimal digits.
pub open spec fn is_digest_text(s: Seq<char>) -> bool {
    &&& s.len() == 32
    &&& forall|i: int| 0 <= i < s.len() ==> is_lower_hex_digit(#[trigger] s[i])
}

/// Relies on md-5's `Md5` digest, printed with generic-array's `LowerHex`:
/// sixteen bytes, two lowercase hexadecimal digits each, determined by the
/// input alone.
#[verifier::external_body]
fn md5_hex(data: &[u8]) -> (r: String)
    ensures
        r@ == md5_hex_of(data@),
        is_digest_text(r@),
{
    let digest = md5::Md5::digest(data);
    format!("{:x}", digest)
}

/// The content identifier of a file: the MD5 digest of its whole contents,
/// as 32 lowercase hexadecimal digits.
pub fn get_file_hash_code(contents: &[u8]) -> (r: String)
    ensures
        r@ == md5_hex_of(contents@),
        is_digest_text(r@),
{
    md5_hex(contents)
}

} // verus!
