//! Content digests of a file's bytes.

use vstd::prelude::*;

verus! {

/// The BLAKE3 digest of `b`, as lowercase hexadecimal text.
pub uninterp spec fn blake3_hex(b: Seq<u8>) -> Seq<char>;

/// The SHA-256 digest of `b`, as lowercase hexadecimal text.
pub uninterp spec fn sha256_hex(b: Seq<u8>) -> Seq<char>;

/// Text of 64 lowercase hexadecimal digits: a 32-byte digest.
pub open spec fn is_hex_digest(s: Seq<char>) -> bool {
    s.len() == 64 && forall|i: int| 0 <= i < s.len() ==> ('0' <= #[trigger] s[i] <= '9' || 'a' <= s[i] <= 'f')
}

/// Relies on `blake3::hash` and the `Display` of `blake3::Hash`, which
/// writes the 32 bytes of the digest as 64 lowercase hex digits.
#[verifier::external_body]
fn blake3_digest(b: &[u8]) -> (r: String)
    ensures
        r@ == blake3_hex(b@),
        is_hex_digest(r@),
{
    blake3::hash(b).to_string()
}

/// Relies on `sha256::digest` of a byte slice, which is `hex::encode` of
/// the 32-byte SHA-256 digest: 64 lowercase hex digits.
#[verifier::external_body]
fn sha256_digest(b: &[u8]) -> (r: String)
    ensures
        r@ == sha256_hex(b@),
        is_hex_digest(r@),
{
    sha256::digest(b)
}

/// Digest functions over a file's content.
pub struct Hashes;

impl Hashes {
    /// The BLAKE3 digest of `bytes` as hexadecimal text.
    pub fn blake3(bytes: &[u8]) -> (r: String)
        ensures
            r@ == blake3_hex(bytes@),
            is_hex_digest(r@),
    {
        blake3_digest(bytes)
    }

    /// The SHA-256 digest of `bytes` as hexadecimal text.
    pub fn sha256(bytes: &[u8]) -> (r: String)
        ensures
            r@ == sha256_hex(bytes@),
            is_hex_digest(r@),
    {
        sha256_digest(bytes)
    }
}

/// Which digests a configuration asks for.
#[derive(Debug, Clone, Copy, PartialEq, Eq, Structural)]
pub struct DigestSelection {
    pub blake3: bool,
    pub sha256: bool,
}

/// The digests of one file; a digest that was not asked for is `None`.
pub struct ContentDigests {
    pub blake3: Option<String>,
    pub sha256: Option<String>,
}

impl ContentDigests {
    /// The digests of `bytes` that `sel` asks for.
    pub fn compute(bytes: &[u8], sel: DigestSelection) -> (r: ContentDigests)
        ensures
            r.blake3 is Some <==> sel.blake3,
            r.blake3 is Some ==> r.blake3.unwrap()@ == blake3_hex(bytes@),
            r.sha256 is Some <==> sel.sha256,
            r.sha256 is Some ==> r.sha256.unwrap()@ == sha256_hex(bytes@),
    {
        let blake3 = if sel.blake3 { Some(Hashes::blake3(bytes)) } else { None };
        let sha256 = if sel.sha256 { Some(Hashes::sha256(bytes)) } else { None };
        ContentDigests { blake3, sha256 }
    }
}

/// Digests are a function of the content alone: two accessors over equal
/// bytes give equal digest texts, whichever digest is asked for.
pub proof fn lemma_digests_content_addressed(a: Seq<u8>, b: Seq<u8>)
    requires
        a == b,
    ensures
        blake3_hex(a) == blake3_hex(b),
        sha256_hex(a) == sha256_hex(b),
{
}

} // verus!
