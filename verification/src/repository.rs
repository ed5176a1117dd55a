//! Repositories of torrents: each maps the key of an info hash to the swarm
//! of that torrent, and answers an announce with the swarm's statistics.
//!
//! The repositories differ in how they were meant to be shared between
//! threads; here each one is owned, and updated through `&mut self`.

use std::collections::BTreeMap;
use vstd::prelude::*;

use crate::byte_key::ByteKey;
use crate::info_hash::InfoHash;
use crate::peer::Peer;
use crate::torrent::{Entry, EntryView, SwarmStats};

verus! {

broadcast use vstd::std_specs::btree::group_btree_axioms;

/// The model of a map of swarms: each swarm by its view.
pub open spec fn torrents_view(m: BTreeMap<ByteKey, Entry>) -> Map<ByteKey, EntryView> {
    m@.map_values(|e: Entry| e@)
}

/// The swarm stored under `key`, or an empty one where there is none.
pub open spec fn swarm_of(torrents: Map<ByteKey, EntryView>, key: ByteKey) -> EntryView {
    if torrents.contains_key(key) {
        torrents[key]
    } else {
        EntryView::empty()
    }
}

/// The swarm of `info_hash` after `peer` announced itself to it.
pub open spec fn swarm_after(torrents: Map<ByteKey, EntryView>, info_hash: InfoHash, peer: Peer) -> EntryView {
    swarm_of(torrents, info_hash.key_of()).announce(peer)
}

/// The repository after `peer` announced itself to the torrent `info_hash`:
/// the torrent is stored (created empty if it was not), and no other torrent
/// changes.
pub open spec fn torrents_after(
    torrents: Map<ByteKey, EntryView>,
    info_hash: InfoHash,
    peer: Peer,
) -> Map<ByteKey, EntryView> {
    torrents.insert(info_hash.key_of(), swarm_after(torrents, info_hash, peer))
}

/// Whether the counters of the swarm after the announce fit the `u32`
/// numbers that the statistics are reported in.
pub open spec fn announce_fits(torrents: Map<ByteKey, EntryView>, info_hash: InfoHash, peer: Peer) -> bool {
    swarm_after(torrents, info_hash, peer).fits_u32()
}

/// Whether `stats` are the statistics of the swarm `e`.
pub open spec fn reports(stats: SwarmStats, e: EntryView) -> bool {
    &&& stats.completed == e.completed
    &&& stats.seeders == e.seeders()
    &&& stats.leechers == e.leechers()
}

/// A repository of torrents that answers announces.
pub trait TRepositorySync: Sized + View<V = Map<ByteKey, EntryView>> {
    /// An empty repository.
    fn new() -> (r: Self)
        ensures
            r@ == Map::<ByteKey, EntryView>::empty(),
    ;

    /// Records the announce of `peer` to the torrent `info_hash` (creating the
    /// torrent if it is not there yet), and returns the statistics of that
    /// torrent's swarm afterwards, with whether the announce changed the
    /// statistics kept across announces.
    fn update_torrent_with_peer_and_get_stats(&mut self, info_hash: &InfoHash, peer: &Peer) -> (r: (
        SwarmStats,
        bool,
    ))
        requires
            announce_fits(old(self)@, *info_hash, *peer),
        ensures
            final(self)@ == torrents_after(old(self)@, *info_hash, *peer),
            reports(r.0, swarm_after(old(self)@, *info_hash, *peer)),
            r.1 == swarm_of(old(self)@, info_hash.key_of()).announce_changes_stats(*peer),
    ;
}

/// Whether the announce of `peer` to `info_hash` may be recorded in the map
/// `torrents`: whether the counters of the torrent's swarm afterwards fit the
/// `u32` numbers of its statistics.
pub fn announce_fits_in(torrents: &BTreeMap<ByteKey, Entry>, info_hash: &InfoHash, peer: &Peer) -> (b:
    bool)
    ensures
        b == announce_fits(torrents_view(*torrents), *info_hash, *peer),
{
    let key = info_hash.key();
    match torrents.get(&key) {
        Some(entry) => entry.announce_fits(peer),
        None => {
            let empty = Entry::new();
            empty.announce_fits(peer)
        },
    }
}

/// Takes the swarm stored under `key` out of `torrents` (an empty one where
/// there is none), records the announce of `peer` in it, puts it back, and
/// returns its statistics with whether the announce changed them.
fn announce_in(torrents: &mut BTreeMap<ByteKey, Entry>, key: ByteKey, peer: &Peer) -> (r: (SwarmStats, bool))
    requires
        swarm_of(torrents_view(*old(torrents)), key).announce(*peer).fits_u32(),
    ensures
        torrents_view(*final(torrents)) == torrents_view(*old(torrents)).insert(
            key,
            swarm_of(torrents_view(*old(torrents)), key).announce(*peer),
        ),
        reports(r.0, swarm_of(torrents_view(*old(torrents)), key).announce(*peer)),
        r.1 == swarm_of(torrents_view(*old(torrents)), key).announce_changes_stats(*peer),
{
    let ghost before = torrents_view(*torrents);
    let mut torrent_entry = match torrents.remove(&key) {
        Some(existing_torrent_entry) => existing_torrent_entry,
        None => Entry::new(),
    };
    assert(torrent_entry@ == swarm_of(before, key));
    let stats_updated = torrent_entry.update_peer(peer);
    let stats = torrent_entry.get_stats();
    torrents.insert(key, torrent_entry);
    assert(torrents_view(*torrents) =~= before.insert(key, swarm_of(before, key).announce(*peer)));
    (SwarmStats { completed: stats.1, seeders: stats.0, leechers: stats.2 }, stats_updated)
}


/// A repository whose swarms were each meant to sit behind a lock of its own,
/// under a lock for the whole map.
pub struct RepositorySync {
    torrents: BTreeMap<ByteKey, Entry>,
}

impl View for RepositorySync {
    type V = Map<ByteKey, EntryView>;

    closed spec fn view(&self) -> Map<ByteKey, EntryView> {
        torrents_view(self.torrents)
    }
}

impl RepositorySync {
    /// The map of swarms, to read.
    pub fn get_torrents(&self) -> (torrents: &BTreeMap<ByteKey, Entry>)
        ensures
            torrents_view(*torrents) == self@,
    {
        &self.torrents
    }

    /// The map of swarms, to change: the repository afterwards is what the
    /// caller left in it.
    pub fn get_torrents_mut(&mut self) -> (torrents: &mut BTreeMap<ByteKey, Entry>)
        ensures
            torrents_view(*torrents) == old(self)@,
            final(self)@ == torrents_view(*final(torrents)),
    {
        &mut self.torrents
    }
}

impl TRepositorySync for RepositorySync {
    fn new() -> (r: Self) {
        let r = RepositorySync { torrents: BTreeMap::new() };
        assert(r@ =~= Map::<ByteKey, EntryView>::empty());
        r
    }

    fn update_torrent_with_peer_and_get_stats(&mut self, info_hash: &InfoHash, peer: &Peer) -> (r: (
        SwarmStats,
        bool,
    )) {
        let key = info_hash.key();
        // A torrent seen for the first time starts with an empty swarm.
        if !self.torrents.contains_key(&key) {
            self.torrents.insert(key, Entry::new());
            assert(swarm_of(self@, key) == swarm_of(old(self)@, key));
            assert(self@ =~= old(self)@.insert(key, EntryView::empty()));
        }
        let r = announce_in(&mut self.torrents, key, peer);
        assert(self@ =~= torrents_after(old(self)@, *info_hash, *peer));
        r
    }
}

/// A repository whose whole map of swarms was meant to sit behind one lock.
pub struct RepositorySyncOld {
    torrents: BTreeMap<ByteKey, Entry>,
}

impl View for RepositorySyncOld {
    type V = Map<ByteKey, EntryView>;

    closed spec fn view(&self) -> Map<ByteKey, EntryView> {
        torrents_view(self.torrents)
    }
}

impl RepositorySyncOld {
    /// The map of swarms, to read.
    pub fn get_torrents(&self) -> (torrents: &BTreeMap<ByteKey, Entry>)
        ensures
            torrents_view(*torrents) == self@,
    {
        &self.torrents
    }

    /// The map of swarms, to change: the repository afterwards is what the
    /// caller left in it.
    pub fn get_torrents_mut(&mut self) -> (torrents: &mut BTreeMap<ByteKey, Entry>)
        ensures
            torrents_view(*torrents) == old(self)@,
            final(self)@ == torrents_view(*final(torrents)),
    {
        &mut self.torrents
    }
}

impl TRepositorySync for RepositorySyncOld {
    fn new() -> (r: Self) {
        let r = RepositorySyncOld { torrents: BTreeMap::new() };
        assert(r@ =~= Map::<ByteKey, EntryView>::empty());
        r
    }

    fn update_torrent_with_peer_and_get_stats(&mut self, info_hash: &InfoHash, peer: &Peer) -> (r: (
        SwarmStats,
        bool,
    )) {
        let key = info_hash.key();
        announce_in(&mut self.torrents, key, peer)
    }
}

} // verus!
