//! A peer of a swarm, as its last announce described it.

use vstd::prelude::*;

use crate::byte_key::{byte_key, pack_bytes, ByteKey};

verus! {

/// The twenty-byte id that a peer chose for itself.
#[derive(Clone, Copy, Debug)]
pub struct Id(pub [u8; 20]);

impl Id {
    /// The ordered key under which a swarm stores this peer.
    pub open spec fn key_of(self) -> ByteKey {
        byte_key(self.0@)
    }

    /// Computes [`Id::key_of`].
    pub fn key(&self) -> (k: ByteKey)
        ensures
            k == self.key_of(),
    {
        pack_bytes(&self.0)
    }
}

/// Two peer ids with the same key are the same id.
pub proof fn lemma_id_key_injective(a: Id, b: Id)
    requires
        a.key_of() == b.key_of(),
    ensures
        a == b,
{
    crate::byte_key::lemma_byte_key_injective(a.0@, b.0@);
    assert(a.0 == b.0);
}

/// What a peer said it was doing when it announced itself.
#[derive(Clone, Copy, Debug)]
pub enum AnnounceEvent {
    Started,
    Stopped,
    Completed,
    /// A regular announce, with no event.
    NoEvent,
}

/// A count of bytes, as a client reports it (it may be negative).
#[derive(Clone, Copy, Debug)]
pub struct NumberOfBytes(pub i64);

/// An IP address: four bytes for version 4, sixteen for version 6.
#[derive(Clone, Copy, Debug)]
pub enum IpAddress {
    V4([u8; 4]),
    V6([u8; 16]),
}

/// The address and port at which a peer can be reached.
#[derive(Clone, Copy, Debug)]
pub struct PeerAddress {
    pub ip: IpAddress,
    pub port: u16,
}

/// A point in time, as the time elapsed since the Unix epoch.
#[derive(Clone, Copy, Debug)]
pub struct DurationSinceUnixEpoch {
    pub secs: u64,
    pub nanos: u32,
}

/// A peer as its last announce described it.
#[derive(Clone, Copy, Debug)]
pub struct Peer {
    pub peer_id: Id,
    pub peer_addr: PeerAddress,
    pub updated: DurationSinceUnixEpoch,
    pub uploaded: NumberOfBytes,
    pub downloaded: NumberOfBytes,
    pub left: NumberOfBytes,
    pub event: AnnounceEvent,
}

impl Peer {
    /// A seeder has nothing left to download and has not stopped.
    pub open spec fn seeds(self) -> bool {
        self.left.0 <= 0 && !(self.event is Stopped)
    }

    /// Whether this peer is a seeder: it has nothing left to download and
    /// its last event was not `Stopped`.
    pub fn is_seeder(&self) -> (b: bool)
        ensures
            b == self.seeds(),
            b == (self.left.0 <= 0 && !(self.event is Stopped)),
    {
        self.left.0 <= 0 && !matches!(self.event, AnnounceEvent::Stopped)
    }
}

} // verus!
