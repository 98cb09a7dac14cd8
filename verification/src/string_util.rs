//! String helpers: trimming trailing slashes from configured paths, and the
//! content-addressable asset identifier (base58 of the Keccak-256 of a URL).

use sha3::Digest;
use sha3::Keccak256;
use vstd::prelude::*;

verus! {

/// `s` without its trailing `/` characters.
pub open spec fn without_trailing_slashes(s: Seq<char>) -> Seq<char>
    decreases s.len(),
{
    if s.len() > 0 && s.last() == '/' {
        without_trailing_slashes(s.drop_last())
    } else {
        s
    }
}

proof fn lemma_without_trailing_slashes(s: Seq<char>, i: int)
    requires
        0 <= i <= s.len(),
        forall|j: int| i <= j < s.len() ==> s[j] == '/',
        i > 0 ==> s[i - 1] != '/',
    ensures
        without_trailing_slashes(s) == s.subrange(0, i),
    decreases s.len(),
{
    if s.len() > 0 && s.last() == '/' {
        assert(i < s.len());
        lemma_without_trailing_slashes(s.drop_last(), i);
        assert(s.drop_last().subrange(0, i) =~= s.subrange(0, i));
    } else {
        assert(i == s.len());
        assert(s.subrange(0, i) =~= s);
    }
}

/// The string utilities the service adds to `&str`.
pub trait StrUtil: View<V = Seq<char>> {
    /// Returns the string with every trailing `/` removed.
    fn trim_right_slash(&self) -> (r: &str)
        ensures
            r@ == without_trailing_slashes(self@),
    ;
}

impl StrUtil for &str {
    fn trim_right_slash(&self) -> (r: &str) {
        let n = self.unicode_len();
        let mut k: usize = 0;
        while k < n && self.get_char(n - 1 - k) == '/'
            invariant
                n == self@.len(),
                k <= n,
                forall|j: int| n - k <= j < n ==> self@[j] == '/',
            decreases n - k,
        {
            k = k + 1;
        }
        proof {
            lemma_without_trailing_slashes(self@, n - k);
        }
        self.substring_char(0, n - k)
    }
}

/// The Keccak-256 digest of a string's UTF-8 bytes, as the outside hasher
/// computes it: a fixed function of the input alone.
pub uninterp spec fn keccak256_of(s: Seq<char>) -> Seq<u8>;

/// The base58 rendering of a byte string, in the alphabet the outside encoder
/// uses by default: a fixed function of the input alone.
pub uninterp spec fn base58_of(b: Seq<u8>) -> Seq<char>;

/// The content-addressable identifier of an asset URL.
pub open spec fn asset_id_of(url: Seq<char>) -> Seq<char> {
    base58_of(keccak256_of(url))
}

/// Relies on `sha3::Keccak256` through the `Digest` trait: the 32-byte
/// Keccak-256 digest of the input bytes, a deterministic pure function.
#[verifier::external_body]
fn keccak256(s: &str) -> (r: Vec<u8>)
    ensures
        r@ == keccak256_of(s@),
        r@.len() == 32,
{
    let mut hasher = Keccak256::default();
    hasher.update(s.as_bytes());
    hasher.finalize().to_vec()
}

/// Relies on `bs58::encode` with its default (Bitcoin) alphabet: a
/// deterministic pure encoding of the input bytes.
#[verifier::external_body]
fn bs58_encode(b: &Vec<u8>) -> (r: String)
    ensures
        r@ == base58_of(b@),
{
    bs58::encode(b).into_string()
}

/// Derives the stable asset identifier of a URL: base58 of Keccak-256 of the
/// URL's UTF-8 bytes. The same URL always yields the same identifier.
pub fn keccak256_hash_bs58str(s: &str) -> (r: String)
    ensures
        r@ == asset_id_of(s@),
{
    let digest = keccak256(s);
    bs58_encode(&digest)
}

} // verus!
