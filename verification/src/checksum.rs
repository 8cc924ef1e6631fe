//! SHA-256 checksums of archives, as lowercase hexadecimal text.

use vstd::prelude::*;

verus! {

/// The SHA-256 digest of a byte string.
pub uninterp spec fn sha256_digest(data: Seq<u8>) -> Seq<u8>;

/// The lowercase hexadecimal digit of a value below sixteen.
pub open spec fn hex_digit(n: int) -> char {
    if n < 10 {
        (48 + n) as u8 as char
    } else {
        (87 + n) as u8 as char
    }
}

/// Two lowercase hexadecimal digits for each byte, high digit first.
pub open spec fn hex_of(data: Seq<u8>) -> Seq<char>
    decreases data.len(),
{
    if data.len() == 0 {
        Seq::empty()
    } else {
        hex_of(data.drop_last()).push(hex_digit(data.last() as int / 16)).push(
            hex_digit(data.last() as int % 16),
        )
    }
}

/// Computes a digest with `sha2::Sha256::digest`, which hashes the whole input
/// in one call. The result is the SHA-256 digest of the bytes, 32 bytes long.
#[verifier::external_body]
fn sha256(data: &[u8]) -> (digest: Vec<u8>)
    ensures
        digest@ == sha256_digest(data@),
        digest@.len() == 32,
{
    <sha2::Sha256 as sha2::Digest>::digest(data).to_vec()
}

/// Encodes with `hex::encode`, which writes each byte as two digits taken from
/// the table `0123456789abcdef`, high digit first.
#[verifier::external_body]
fn hex_encode(data: &[u8]) -> (text: String)
    ensures
        text@ == hex_of(data@),
{
    hex::encode(data)
}

/// The checksum of an archive: the SHA-256 digest of its bytes in lowercase
/// hexadecimal.
pub open spec fn checksum_of(data: Seq<u8>) -> Seq<char> {
    hex_of(sha256_digest(data))
}

/// The hexadecimal form of a byte string has two characters per byte.
pub proof fn lemma_hex_len(data: Seq<u8>)
    ensures
        hex_of(data).len() == 2 * data.len(),
    decreases data.len(),
{
    if data.len() > 0 {
        lemma_hex_len(data.drop_last());
    }
}

/// Computes the checksum of an archive held in memory.
pub fn calculate_checksum(data: &[u8]) -> (sum: String)
    ensures
        sum@ == checksum_of(data@),
        sum@.len() == 64,
{
    let digest = sha256(data);
    proof {
        lemma_hex_len(digest@);
    }
    hex_encode(digest.as_slice())
}

/// Whether the archive bytes have the expected checksum.
pub fn checksum_matches(data: &[u8], expected: &String) -> (ok: bool)
    ensures
        ok == (checksum_of(data@) == expected@),
{
    let actual = calculate_checksum(data);
    actual == *expected
}

} // verus!
