//! Token hashing: the lowercase hexadecimal SHA-256 digest of some bytes.
use vstd::prelude::*;

verus! {

/// The lowercase hexadecimal text of the SHA-256 digest of `bytes`.
pub uninterp spec fn sha256_hex(bytes: Seq<u8>) -> Seq<char>;

/// Whether `c` is a lowercase hexadecimal digit.
pub open spec fn is_lower_hex(c: char) -> bool {
    ('0' <= c && c <= '9') || ('a' <= c && c <= 'f')
}

/// Relies on `sha2::Sha256` (`new`, `update`, `finalize`) and the digest's
/// `LowerHex` formatting: 32 digest bytes, two lowercase hex digits each.
#[verifier::external_body]
fn sha256_hex_of(bytes: &[u8]) -> (r: String)
    ensures
        r@ == sha256_hex(bytes@),
        r@.len() == 64,
        forall|i: int| 0 <= i < r@.len() ==> is_lower_hex(#[trigger] r@[i]),
{
    let mut hasher = <sha2::Sha256 as sha2::Digest>::new();
    sha2::Digest::update(&mut hasher, bytes);
    format!("{:x}", sha2::Digest::finalize(hasher))
}

/// Hashes a source into a token.
pub struct TokenGenerator<'a> {
    /// Target data.
    source: &'a Vec<u8>,
    /// The generated token, once generated.
    result: Option<String>,
}

impl<'a> TokenGenerator<'a> {
    /// The bytes to hash.
    pub closed spec fn source_view(&self) -> Seq<u8> {
        self.source@
    }

    /// The generated token, if any.
    pub closed spec fn result_view(&self) -> Option<Seq<char>> {
        match self.result {
            Some(s) => Some(s@),
            None => None,
        }
    }

    /// Creates a generator with no token yet.
    pub fn new(source: &'a Vec<u8>) -> (r: Self)
        ensures
            r.source_view() == source@,
            r.result_view() is None,
    {
        TokenGenerator { source, result: None }
    }

    /// Changes the source; the last token stays until the next `generate`.
    pub fn set_source(&mut self, new_source: &'a Vec<u8>)
        ensures
            final(self).source_view() == new_source@,
            final(self).result_view() == old(self).result_view(),
    {
        self.source = new_source;
    }

    /// Hashes the source and keeps the token.
    pub fn generate(&mut self)
        ensures
            final(self).source_view() == old(self).source_view(),
            final(self).result_view() == Some(sha256_hex(old(self).source_view())),
            final(self).result_view()->0.len() == 64,
    {
        self.result = Some(sha256_hex_of(self.source.as_slice()));
    }

    /// A copy of the token.
    pub fn get_result(&self) -> (r: Option<String>)
        ensures
            match r {
                Some(s) => self.result_view() == Some(s@),
                None => self.result_view() is None,
            },
    {
        match &self.result {
            Some(s) => Some(s.clone()),
            None => None,
        }
    }
}

/// The hex SHA-256 digest of 32 bytes.
pub fn hash_bytes(bytes: [u8; 32]) -> (r: String)
    ensures
        r@ == sha256_hex(bytes@),
        r@.len() == 64,
        forall|i: int| 0 <= i < r@.len() ==> is_lower_hex(#[trigger] r@[i]),
{
    sha256_hex_of(bytes.as_slice())
}

} // verus!
