//! SHA-256 digests.

use sha2::Digest;
use vstd::prelude::*;
use crate::hex;

verus! {

/// A 32-byte digest.
#[derive(Debug, Clone, Copy, PartialEq, Eq)]
pub struct Hash(pub [u8; 32]);

impl View for Hash {
    type V = Seq<u8>;

    open spec fn view(&self) -> Seq<u8> {
        self.0@
    }
}

impl DeepView for Hash {
    type V = Seq<u8>;

    open spec fn deep_view(&self) -> Seq<u8> {
        self.0@
    }
}

/// The SHA-256 digest of a byte string.
pub uninterp spec fn sha256_of(bytes: Seq<u8>) -> Seq<u8>;

/// `sha2::Sha256::digest` computes the SHA-256 digest of the bytes it is
/// given. The digest is a function of those bytes alone; which one it is goes
/// unsaid here beyond its name.
#[verifier::external_body]
fn sha256_digest(bytes: &[u8]) -> (digest: [u8; 32])
    ensures
        digest@ == sha256_of(bytes@),
{
    sha2::Sha256::digest(bytes).into()
}

/// The SHA-256 digest of a byte string.
pub fn sha256(bytes: &[u8]) -> (h: Hash)
    ensures
        h@ == sha256_of(bytes@),
{
    Hash(sha256_digest(bytes))
}

/// The SHA-256 digest of the UTF-8 bytes of a text.
pub open spec fn text_digest(s: Seq<char>) -> Seq<u8> {
    sha256_of(vstd::utf8::encode_utf8(s))
}

/// The SHA-256 digest of the UTF-8 bytes of a text.
pub fn sha256_text(s: &str) -> (h: Hash)
    ensures
        h@ == text_digest(s@),
{
    sha256(s.as_bytes())
}

/// A digest has 32 bytes.
pub proof fn lemma_digest_len(h: Hash)
    ensures
        h@.len() == 32,
{
}

/// The digest that a hexadecimal text of 64 characters denotes.
pub open spec fn hash_of_hex(s: Seq<char>) -> Option<Seq<u8>> {
    if s.len() == 64 && hex::all_hex(s) {
        Some(hex::hex_bytes(s))
    } else {
        None
    }
}

/// The hexadecimal text of a digest reads back as that digest.
pub proof fn lemma_hash_round_trip(digest: Seq<u8>)
    requires
        digest.len() == 32,
    ensures
        hash_of_hex(hex::hex_text(digest)) == Some(digest),
{
    hex::lemma_hex_round_trip(digest);
}

impl Hash {
    /// The 64 lower-case hexadecimal digits of the digest.
    pub fn hex(&self) -> (r: String)
        ensures
            r@ == hex::hex_text(self@),
    {
        hex::hex_encode(&self.0)
    }

    /// The digest that 64 hexadecimal digits denote.
    pub fn from_hex(s: &str) -> (r: Option<Hash>)
        ensures
            match hash_of_hex(s@) {
                Some(b) => r is Some && r->0@ == b,
                None => r is None,
            },
    {
        match hex::hex_decode(s) {
            Err(_) => None,
            Ok(v) => {
                if v.len() != 32 {
                    return None;
                }
                let mut a: [u8; 32] = [0u8;32];
                let mut i: usize = 0;
                while i < 32
                    invariant
                        i <= 32,
                        v@.len() == 32,
                        forall|j: int| 0 <= j < i ==> #[trigger] a@[j] == v@[j],
                    decreases 32 - i,
                {
                    a[i] = v[i];
                    i = i + 1;
                }
                proof {
                    assert(a@ =~= v@);
                }
                Some(Hash(a))
            },
        }
    }

    /// Whether two digests hold the same bytes.
    pub fn same(&self, other: &Hash) -> (r: bool)
        ensures
            r == (self@ == other@),
    {
        let mut i: usize = 0;
        while i < 32
            invariant
                i <= 32,
                forall|j: int| 0 <= j < i ==> self@[j] == #[trigger] other@[j],
            decreases 32 - i,
        {
            if self.0[i] != other.0[i] {
                proof {
                    assert(self@[i as int] != other@[i as int]);
                }
                return false;
            }
            i = i + 1;
        }
        proof {
            assert(self@ =~= other@);
        }
        true
    }
}

} // verus!
