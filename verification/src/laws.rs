//! What holds of every announce, over the models that the functions'
//! contracts speak of.

use vstd::prelude::*;

use crate::byte_key::ByteKey;
use crate::info_hash::{lemma_info_hash_key_injective, InfoHash};
use crate::peer::{lemma_id_key_injective, Peer};
use crate::repository::{announce_fits, reports, swarm_after, swarm_of, torrents_after, torrents_view};
use crate::torrent::{Entry, EntryView, SwarmStats};
use std::collections::BTreeMap;

verus! {

/// Every peer of a swarm is either a seeder or a leecher: the statistics
/// never count a negative number of leechers, and seeders and leechers add up
/// to the number of peers.
pub proof fn lemma_seeders_and_leechers_count_every_peer(e: EntryView)
    requires
        e.peers.dom().finite(),
    ensures
        e.seeders() <= e.peers.len(),
        e.leechers() >= 0,
        e.seeders() + e.leechers() == e.peers.len(),
{
    e.peers.dom().lemma_len_filter(|k: ByteKey| e.peers[k].seeds());
}

/// After an announce the swarm holds the peer's latest announce, unless the
/// peer stopped, in which case it no longer holds the peer; the other peers
/// of the swarm are untouched.
pub proof fn lemma_announce_stores_latest(e: EntryView, peer: Peer, other: Peer)
    requires
        other.peer_id != peer.peer_id,
    ensures
        peer.event is Stopped ==> !e.announce(peer).peers.contains_key(peer.peer_id.key_of()),
        !(peer.event is Stopped) ==> e.announce(peer).peers.contains_key(peer.peer_id.key_of())
            && e.announce(peer).peers[peer.peer_id.key_of()] == peer,
        e.announce(peer).peers.contains_key(other.peer_id.key_of()) == e.peers.contains_key(
            other.peer_id.key_of(),
        ),
        e.announce(peer).peers[other.peer_id.key_of()] == e.peers[other.peer_id.key_of()],
{
    if other.peer_id.key_of() == peer.peer_id.key_of() {
        lemma_id_key_injective(other.peer_id, peer.peer_id);
    }
}

/// A completed download is counted exactly when a peer that the swarm
/// already held announces `Completed`, whatever that peer announced before;
/// then the count goes up by one and the announce reports a change. No other
/// announce changes the count or reports a change, so the count never goes
/// down.
pub proof fn lemma_completed_counts_known_completions(e: EntryView, peer: Peer)
    ensures
        e.announce(peer).completed == e.completed + if peer.event is Completed
            && e.peers.contains_key(peer.peer_id.key_of()) {
            1nat
        } else {
            0nat
        },
        e.announce_changes_stats(peer) == (peer.event is Completed && e.peers.contains_key(
            peer.peer_id.key_of(),
        )),
        e.announce(peer).completed >= e.completed,
{
}

/// A stopped peer is removed from the swarm's peers; any other announce
/// stores the peer under the key of its id, in place of its earlier announce.
pub proof fn lemma_announce_peers(e: EntryView, peer: Peer)
    ensures
        peer.event is Stopped ==> e.announce(peer).peers == e.peers.remove(peer.peer_id.key_of()),
        !(peer.event is Stopped) ==> e.announce(peer).peers == e.peers.insert(
            peer.peer_id.key_of(),
            peer,
        ),
{
}

/// A peer is a seeder exactly when it has nothing left to download and did
/// not stop; what it downloaded or uploaded plays no part.
pub proof fn lemma_seeder_is_done_and_not_stopped(p: Peer)
    ensures
        p.seeds() == (p.left.0 <= 0 && !(p.event is Stopped)),
{
}

/// The statistics count as seeders the peers with nothing left to download
/// that did not stop, and as leechers all the other peers.
pub proof fn lemma_stats_count_peers(e: EntryView)
    ensures
        e.seeders() == e.peers.dom().filter(
            |k: ByteKey| e.peers[k].left.0 <= 0 && !(e.peers[k].event is Stopped),
        ).len(),
        e.leechers() == e.peers.dom().len() - e.peers.dom().filter(
            |k: ByteKey| e.peers[k].left.0 <= 0 && !(e.peers[k].event is Stopped),
        ).len(),
{
    assert(e.seeder_keys() =~= e.peers.dom().filter(
        |k: ByteKey| e.peers[k].left.0 <= 0 && !(e.peers[k].event is Stopped),
    ));
}

/// Statistics report a swarm when their three numbers are its completed
/// downloads, its seeders and its leechers.
pub proof fn lemma_reports_fields(stats: SwarmStats, e: EntryView)
    ensures
        reports(stats, e) == (stats.completed == e.completed && stats.seeders == e.seeders()
            && stats.leechers == e.leechers()),
{
}

/// A swarm's counters fit the statistics exactly when it has at most
/// `u32::MAX` peers and at most `u32::MAX` completed downloads; nothing else
/// is asked of it.
pub proof fn lemma_fits_only_bounds_counters(e: EntryView)
    ensures
        e.fits_u32() == (e.peers.len() <= u32::MAX && e.completed <= u32::MAX),
{
}

/// An announce to a torrent starts from the swarm stored for it, if there is
/// one, and otherwise from a swarm with no peers and no completed downloads:
/// the swarm afterwards holds the stored peers with this peer removed (when
/// it stopped) or stored, and the stored count of completed downloads, plus
/// one for a completed announce of a peer that was stored. An announce is
/// accepted exactly when these counters stay within `u32::MAX`.
pub proof fn lemma_announce_starts_from_stored_swarm(
    torrents: Map<ByteKey, EntryView>,
    info_hash: InfoHash,
    peer: Peer,
)
    ensures
        ({
            let k = info_hash.key_of();
            let pk = peer.peer_id.key_of();
            let before_peers = if torrents.contains_key(k) {
                torrents[k].peers
            } else {
                Map::<ByteKey, Peer>::empty()
            };
            let before_completed = if torrents.contains_key(k) {
                torrents[k].completed
            } else {
                0nat
            };
            let after = torrents_after(torrents, info_hash, peer)[k];
            &&& torrents_after(torrents, info_hash, peer).contains_key(k)
            &&& after == swarm_after(torrents, info_hash, peer)
            &&& after.peers == if peer.event is Stopped {
                before_peers.remove(pk)
            } else {
                before_peers.insert(pk, peer)
            }
            &&& after.completed == before_completed + if peer.event is Completed
                && before_peers.contains_key(pk) {
                1nat
            } else {
                0nat
            }
            &&& torrents.contains_key(k) ==> after.completed >= torrents[k].completed
            &&& announce_fits(torrents, info_hash, peer) == (after.peers.len() <= u32::MAX
                && after.completed <= u32::MAX)
        }),
{
}

/// Announcing the same peer twice in a row leaves the swarm as one announce
/// did, for every event but `Completed` (whose repetition counts another
/// completed download).
pub proof fn lemma_announce_idempotent(e: EntryView, peer: Peer)
    requires
        !(peer.event is Completed),
    ensures
        e.announce(peer).announce(peer) == e.announce(peer),
{
    assert(e.announce(peer).announce(peer).peers =~= e.announce(peer).peers);
}

/// An announce to one torrent leaves every other torrent's swarm as it was.
pub proof fn lemma_announce_leaves_other_torrents(
    torrents: Map<ByteKey, EntryView>,
    info_hash: InfoHash,
    other: InfoHash,
    peer: Peer,
)
    requires
        other != info_hash,
    ensures
        swarm_of(torrents_after(torrents, info_hash, peer), other.key_of()) == swarm_of(
            torrents,
            other.key_of(),
        ),
        torrents_after(torrents, info_hash, peer).contains_key(other.key_of()) == torrents.contains_key(
            other.key_of(),
        ),
{
    if other.key_of() == info_hash.key_of() {
        lemma_info_hash_key_injective(other, info_hash);
    }
}

/// Announces to two different torrents give the same repository in either
/// order.
pub proof fn lemma_announces_to_different_torrents_commute(
    torrents: Map<ByteKey, EntryView>,
    h1: InfoHash,
    p1: Peer,
    h2: InfoHash,
    p2: Peer,
)
    requires
        h1 != h2,
    ensures
        torrents_after(torrents_after(torrents, h1, p1), h2, p2) == torrents_after(
            torrents_after(torrents, h2, p2),
            h1,
            p1,
        ),
{
    if h1.key_of() == h2.key_of() {
        lemma_info_hash_key_injective(h1, h2);
    }
    assert(torrents_after(torrents_after(torrents, h1, p1), h2, p2) =~= torrents_after(
        torrents_after(torrents, h2, p2),
        h1,
        p1,
    ));
}

/// Whatever its event, an announce leaves its torrent in the repository.
pub proof fn lemma_announce_registers_torrent(
    torrents: Map<ByteKey, EntryView>,
    info_hash: InfoHash,
    peer: Peer,
)
    ensures
        torrents_after(torrents, info_hash, peer).contains_key(info_hash.key_of()),
        torrents_after(torrents, info_hash, peer).dom() == torrents.dom().insert(info_hash.key_of()),
{
    assert(torrents_after(torrents, info_hash, peer).dom() =~= torrents.dom().insert(
        info_hash.key_of(),
    ));
}

/// The model of a swarm is its map of peers and its count of completed
/// downloads, and a swarm nobody announced to has neither peers nor completed
/// downloads.
pub proof fn lemma_entry_model(e: Entry)
    ensures
        e@.peers == e.peers@,
        e@.completed == e.completed,
        EntryView::empty().peers == Map::<ByteKey, Peer>::empty(),
        EntryView::empty().completed == 0,
{
}

/// The model of a map of swarms holds the same torrents as the map, each
/// with the model of its swarm.
pub proof fn lemma_torrents_model(m: BTreeMap<ByteKey, Entry>, k: ByteKey)
    ensures
        torrents_view(m).dom() == m@.dom(),
        m@.contains_key(k) ==> torrents_view(m)[k] == m@[k]@,
{
}

/// The swarm of a torrent is the stored one, or one with no peers and no
/// completed downloads where none is stored.
pub proof fn lemma_swarm_of(torrents: Map<ByteKey, EntryView>, k: ByteKey)
    ensures
        torrents.contains_key(k) ==> swarm_of(torrents, k) == torrents[k],
        !torrents.contains_key(k) ==> swarm_of(torrents, k).peers == Map::<ByteKey, Peer>::empty()
            && swarm_of(torrents, k).completed == 0,
{
}

/// An announce to one torrent leaves every other stored torrent exactly as
/// it was, and stores no other torrent.
pub proof fn lemma_announce_keeps_other_entries(
    torrents: Map<ByteKey, EntryView>,
    info_hash: InfoHash,
    other: InfoHash,
    peer: Peer,
)
    requires
        other != info_hash,
    ensures
        torrents.contains_key(other.key_of()) ==> torrents_after(torrents, info_hash, peer)[other.key_of()]
            == torrents[other.key_of()],
        torrents_after(torrents, info_hash, peer).contains_key(other.key_of()) == torrents.contains_key(
            other.key_of(),
        ),
{
    if other.key_of() == info_hash.key_of() {
        lemma_info_hash_key_injective(other, info_hash);
    }
}

} // verus!
