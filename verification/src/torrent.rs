//! The swarm of one torrent: its peers, the number of completed downloads,
//! and the statistics that an announce is answered with.

use std::collections::BTreeMap;
use vstd::prelude::*;
use vstd::std_specs::iter::IteratorSpec;

use crate::byte_key::ByteKey;
use crate::peer::{AnnounceEvent, Peer};

verus! {

broadcast use vstd::std_specs::btree::group_btree_axioms;

/// The statistics of a swarm that an announce is answered with.
#[derive(Clone, Copy, Debug)]
pub struct SwarmStats {
    pub completed: u32,
    pub seeders: u32,
    pub leechers: u32,
}

/// The mathematical model of a swarm: its peers by the key of their id, and
/// how many downloads were completed.
pub struct EntryView {
    pub peers: Map<ByteKey, Peer>,
    pub completed: nat,
}

impl EntryView {
    /// The swarm of a torrent that nobody announced yet.
    pub open spec fn empty() -> EntryView {
        EntryView { peers: Map::empty(), completed: 0 }
    }

    /// The swarm after `peer` announced itself: a stopped peer leaves it,
    /// any other peer is stored (replacing its earlier announce), and a
    /// completed announce of a peer already in the swarm counts one more
    /// completed download.
    pub open spec fn announce(self, peer: Peer) -> EntryView {
        let k = peer.peer_id.key_of();
        match peer.event {
            AnnounceEvent::Stopped => EntryView { peers: self.peers.remove(k), completed: self.completed },
            AnnounceEvent::Completed => EntryView {
                peers: self.peers.insert(k, peer),
                completed: if self.peers.contains_key(k) {
                    self.completed + 1
                } else {
                    self.completed
                },
            },
            _ => EntryView { peers: self.peers.insert(k, peer), completed: self.completed },
        }
    }

    /// Whether the announce of `peer` changes the statistics that are kept
    /// across announces: only a completed announce of a known peer does.
    pub open spec fn announce_changes_stats(self, peer: Peer) -> bool {
        peer.event is Completed && self.peers.contains_key(peer.peer_id.key_of())
    }

    /// The keys of the peers that are seeders.
    pub open spec fn seeder_keys(self) -> Set<ByteKey> {
        self.peers.dom().filter(|k: ByteKey| self.peers[k].seeds())
    }

    /// The number of seeders.
    pub open spec fn seeders(self) -> nat {
        self.seeder_keys().len()
    }

    /// The number of peers that are not seeders.
    pub open spec fn leechers(self) -> int {
        self.peers.len() - self.seeders()
    }

    /// Whether the counters of this swarm fit the `u32` numbers that its
    /// statistics are reported in.
    pub open spec fn fits_u32(self) -> bool {
        self.peers.len() <= u32::MAX && self.completed <= u32::MAX
    }
}

/// The number of seeders among the peers stored under the keys `ks`, counted
/// one key after the other.
pub open spec fn count_seeders(ks: Seq<ByteKey>, peers: Map<ByteKey, Peer>) -> nat
    decreases ks.len(),
{
    if ks.len() == 0 {
        0
    } else {
        count_seeders(ks.drop_last(), peers) + if peers[ks.last()].seeds() {
            1nat
        } else {
            0nat
        }
    }
}

/// Counting the seeders along a sequence of distinct keys gives the size of
/// the set of seeder keys among them.
proof fn lemma_count_seeders(ks: Seq<ByteKey>, peers: Map<ByteKey, Peer>)
    requires
        ks.no_duplicates(),
    ensures
        count_seeders(ks, peers) == ks.to_set().filter(|k: ByteKey| peers[k].seeds()).len(),
        count_seeders(ks, peers) <= ks.len(),
    decreases ks.len(),
{
    let f = |k: ByteKey| peers[k].seeds();
    if ks.len() == 0 {
        assert(ks.to_set().filter(f) =~= Set::empty());
    } else {
        let init = ks.drop_last();
        let x = ks.last();
        assert(init.no_duplicates()) by {
            assert forall|i: int, j: int| 0 <= i < j < init.len() implies init[i] != init[j] by {
                assert(init[i] == ks[i] && init[j] == ks[j]);
            }
        }
        lemma_count_seeders(init, peers);
        assert(ks =~= init.push(x));
        assert(ks.to_set() =~= init.to_set().insert(x));
        assert(!init.contains(x)) by {
            if init.contains(x) {
                let i = choose|i: int| 0 <= i < init.len() && init[i] == x;
                assert(ks[i] == ks[ks.len() - 1]);
            }
        }
        if f(x) {
            assert(ks.to_set().filter(f) =~= init.to_set().filter(f).insert(x));
        } else {
            assert(ks.to_set().filter(f) =~= init.to_set().filter(f));
        }
    }
}

/// The swarm of one torrent.
pub struct Entry {
    pub peers: BTreeMap<ByteKey, Peer>,
    pub completed: u32,
}

impl View for Entry {
    type V = EntryView;

    open spec fn view(&self) -> EntryView {
        EntryView { peers: self.peers@, completed: self.completed as nat }
    }
}

impl Entry {
    /// An empty swarm.
    pub fn new() -> (e: Entry)
        ensures
            e@ == EntryView::empty(),
            e.peers@ == Map::<ByteKey, Peer>::empty(),
            e.completed == 0,
    {
        Entry { peers: BTreeMap::new(), completed: 0 }
    }

    /// Records the announce of `peer`, and says whether the statistics kept
    /// across announces changed (a completed announce of a known peer).
    pub fn update_peer(&mut self, peer: &Peer) -> (changed: bool)
        requires
            old(self)@.announce(*peer).completed <= u32::MAX,
        ensures
            final(self)@ == old(self)@.announce(*peer),
            changed == old(self)@.announce_changes_stats(*peer),
            changed == (peer.event is Completed && old(self).peers@.contains_key(peer.peer_id.key_of())),
            final(self).completed == old(self).completed + if changed {
                1int
            } else {
                0int
            },
            peer.event is Stopped ==> final(self).peers@ == old(self).peers@.remove(peer.peer_id.key_of()),
            !(peer.event is Stopped) ==> final(self).peers@ == old(self).peers@.insert(peer.peer_id.key_of(), *peer),
    {
        let key = peer.peer_id.key();
        let mut did_torrent_stats_change = false;
        match peer.event {
            AnnounceEvent::Stopped => {
                let _ = self.peers.remove(&key);
            },
            AnnounceEvent::Completed => {
                let peer_old = self.peers.insert(key, *peer);
                // A download counts only for a peer that the swarm knew.
                if peer_old.is_some() {
                    self.completed = self.completed + 1;
                    did_torrent_stats_change = true;
                }
            },
            _ => {
                let _ = self.peers.insert(key, *peer);
            },
        }
        did_torrent_stats_change
    }

    /// Whether the swarm's counters, after `peer` announced itself, fit the
    /// `u32` numbers of its statistics (the condition under which
    /// [`Entry::update_peer`] and then [`Entry::get_stats`] may be called).
    pub fn announce_fits(&self, peer: &Peer) -> (b: bool)
        ensures
            b == self@.announce(*peer).fits_u32(),
            b == (self@.announce(*peer).peers.len() <= u32::MAX && self@.announce(*peer).completed <= u32::MAX),
    {
        let key = peer.peer_id.key();
        let known = self.peers.contains_key(&key);
        let len = self.peers.len() as u64;
        match peer.event {
            AnnounceEvent::Stopped => {
                if known {
                    len - 1 <= 0xffff_ffffu64
                } else {
                    len <= 0xffff_ffffu64
                }
            },
            AnnounceEvent::Completed => {
                if known {
                    len <= 0xffff_ffffu64 && self.completed < 0xffff_ffffu32
                } else {
                    len < 0xffff_ffffu64
                }
            },
            _ => {
                if known {
                    len <= 0xffff_ffffu64
                } else {
                    len < 0xffff_ffffu64
                }
            },
        }
    }

    /// The statistics of the swarm: the number of seeders, the number of
    /// completed downloads and the number of leechers (the peers that are not
    /// seeders).
    pub fn get_stats(&self) -> (stats: (u32, u32, u32))
        requires
            self@.peers.len() <= u32::MAX,
        ensures
            stats.0 == self@.seeders(),
            stats.1 == self@.completed,
            stats.1 == self.completed,
            stats.2 == self@.leechers(),
    {
        let ghost m = self.peers@;
        let values = self.peers.values();
        let ghost ks = choose|ks: Seq<ByteKey>|
            {
                &&& vstd::std_specs::btree::increasing_seq(ks)
                &&& ks.to_set() == m.dom()
                &&& ks.no_duplicates()
                &&& IteratorSpec::remaining(&values) == ks.map(|i: int, k: ByteKey| &m[k])
            };
        proof {
            ks.unique_seq_to_set();
        }
        let mut seeders: u32 = 0;
        for peer in it: values
            invariant
                it.seq() == ks.map(|i: int, k: ByteKey| &m[k]),
                ks.len() == m.dom().len(),
                ks.len() <= u32::MAX,
                ks.no_duplicates(),
                seeders == count_seeders(ks.take(it.index()), m),
        {
            proof {
                let i = it.index();
                assert(ks.take(i + 1).drop_last() =~= ks.take(i));
                assert(ks.take(i).no_duplicates()) by {
                    assert forall|a: int, b: int| 0 <= a < b < ks.take(i).len() implies ks.take(i)[a] != ks.take(i)[b] by {
                        assert(ks.take(i)[a] == ks[a] && ks.take(i)[b] == ks[b]);
                    }
                }
                lemma_count_seeders(ks.take(i), m);
            }
            if peer.is_seeder() {
                seeders = seeders + 1;
            }
        }
        proof {
            assert(ks.take(ks.len() as int) =~= ks);
            lemma_count_seeders(ks, m);
            assert(ks.to_set().filter(|k: ByteKey| m[k].seeds()) =~= self@.seeder_keys());
        }
        let seeders_count = seeders;
        let leechers: u32 = (self.peers.len() as u32) - seeders_count;
        (seeders_count, self.completed, leechers)
    }
}

} // verus!
