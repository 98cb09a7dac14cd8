//! The storage contract of the media store: the derived object key and the
//! shape of a stored object.
//!
//! The S3-compatible calls themselves are made outside the library; every
//! write and read goes to the key derived here, so the same URL always lands
//! on the same object.

use crate::string_util::asset_id_of;
use crate::string_util::base58_of;
use crate::string_util::keccak256_of;
use vstd::prelude::*;

verus! {

/// A stored preview as the store returns it: the object bytes and the
/// recorded content type.
#[derive(Debug, Clone, PartialEq, Eq)]
pub struct StoredData {
    pub bytes: Vec<u8>,
    pub mime: String,
}

/// The object key under which an asset's preview is stored.
pub open spec fn media_key_of(asset_id: Seq<char>) -> Seq<char> {
    "media/"@ + asset_id
}

/// The full storage key of a URL: `media/` followed by the URL's
/// content-addressable identifier.
pub open spec fn storage_key_of(url: Seq<char>) -> Seq<char> {
    media_key_of(asset_id_of(url))
}

/// For every URL, the storage key is `media/` followed by the base58
/// rendering of the Keccak-256 digest of the URL's text — a fixed function
/// of the URL alone, so the same URL always lands on the same object.
pub proof fn lemma_storage_key_of(url: Seq<char>)
    ensures
        storage_key_of(url) == "media/"@ + base58_of(keccak256_of(url)),
{
}

/// Derives the object key of an asset identifier: the `media/` prefix
/// followed by the identifier.
pub fn key_for_size(asset_id: &str) -> (r: String)
    ensures
        r@ == media_key_of(asset_id@),
{
    let prefix: String = "media/".to_owned();
    prefix.concat(asset_id)
}

} // verus!
