//! The info hash: the twenty bytes that name a torrent.

use vstd::prelude::*;

use crate::byte_key::{byte_key, pack_bytes, ByteKey};

verus! {

/// The twenty-byte SHA-1 hash of a torrent's info dictionary.
#[derive(Clone, Copy, Debug)]
pub struct InfoHash(pub [u8; 20]);

impl InfoHash {
    /// The ordered key under which the repository stores this torrent.
    pub open spec fn key_of(self) -> ByteKey {
        byte_key(self.0@)
    }

    /// Computes [`InfoHash::key_of`].
    pub fn key(&self) -> (k: ByteKey)
        ensures
            k == self.key_of(),
    {
        pack_bytes(&self.0)
    }
}

/// Two info hashes with the same key are the same info hash.
pub proof fn lemma_info_hash_key_injective(a: InfoHash, b: InfoHash)
    requires
        a.key_of() == b.key_of(),
    ensures
        a == b,
{
    crate::byte_key::lemma_byte_key_injective(a.0@, b.0@);
    assert(a.0 == b.0);
}

} // verus!
