//! Plain-value identifiers shared by the authorization modules.

use vstd::prelude::*;

verus! {

/// Server-resolved authorization domain (a community), by its 128-bit UUID.
#[derive(Clone, Copy, PartialEq, Eq, Structural, Debug, Hash)]
pub struct CommunityId {
    pub uuid: u128,
}

impl CommunityId {
    /// Community identified by the given UUID value.
    pub fn from_u128(uuid: u128) -> (r: Self)
        ensures
            r.uuid == uuid,
    {
        CommunityId { uuid }
    }
}

/// A 32-byte x-only Nostr public key, held as four big-endian 64-bit words.
#[derive(Clone, Copy, PartialEq, Eq, Structural, Debug, Hash)]
pub struct PublicKey {
    pub w0: u64,
    pub w1: u64,
    pub w2: u64,
    pub w3: u64,
}

impl PublicKey {
    /// Key made of the given words, most significant first.
    pub fn from_words(w0: u64, w1: u64, w2: u64, w3: u64) -> (r: Self)
        ensures
            r == (PublicKey { w0, w1, w2, w3 }),
    {
        PublicKey { w0, w1, w2, w3 }
    }
}

} // verus!
