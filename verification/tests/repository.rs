use torrent_repository::byte_key::pack_bytes;
use torrent_repository::info_hash::InfoHash;
use torrent_repository::peer::{
    AnnounceEvent, DurationSinceUnixEpoch, Id, IpAddress, NumberOfBytes, Peer, PeerAddress,
};
use torrent_repository::repository::{RepositorySync, RepositorySyncOld, TRepositorySync};
use torrent_repository::torrent::{Entry, SwarmStats};

fn peer(id: u8, left: i64, event: AnnounceEvent) -> Peer {
    Peer {
        peer_id: Id([id; 20]),
        peer_addr: PeerAddress { ip: IpAddress::V4([126, 0, 0, 1]), port: 8080 },
        updated: DurationSinceUnixEpoch { secs: 1_669_397_478, nanos: 934 },
        uploaded: NumberOfBytes(0),
        downloaded: NumberOfBytes(0),
        left: NumberOfBytes(left),
        event,
    }
}

fn hash(b: u8) -> InfoHash {
    InfoHash([b; 20])
}

fn stats(s: SwarmStats) -> (u32, u32, u32) {
    (s.completed, s.seeders, s.leechers)
}

#[test]
fn new_repository_holds_no_torrent() {
    let repo = <RepositorySync as TRepositorySync>::new();
    assert_eq!(repo.get_torrents().len(), 0);
    let old = <RepositorySyncOld as TRepositorySync>::new();
    assert_eq!(old.get_torrents().len(), 0);
}

#[test]
fn first_announce_of_a_leecher() {
    let mut repo = <RepositorySync as TRepositorySync>::new();
    let (s, changed) = repo.update_torrent_with_peer_and_get_stats(&hash(1), &peer(1, 100, AnnounceEvent::Started));
    assert_eq!(stats(s), (0, 0, 1));
    assert!(!changed);
    assert_eq!(repo.get_torrents().len(), 1);
}

#[test]
fn first_announce_of_a_seeder() {
    let mut repo = <RepositorySync as TRepositorySync>::new();
    let (s, changed) = repo.update_torrent_with_peer_and_get_stats(&hash(1), &peer(1, 0, AnnounceEvent::Started));
    assert_eq!(stats(s), (0, 1, 0));
    assert!(!changed);
}

#[test]
fn completed_announce_of_an_unknown_peer_is_not_counted() {
    let mut repo = <RepositorySync as TRepositorySync>::new();
    let (s, changed) = repo.update_torrent_with_peer_and_get_stats(&hash(1), &peer(1, 0, AnnounceEvent::Completed));
    assert_eq!(stats(s), (0, 1, 0));
    assert!(!changed);
}

#[test]
fn completed_announce_of_a_known_peer_is_counted() {
    let mut repo = <RepositorySync as TRepositorySync>::new();
    repo.update_torrent_with_peer_and_get_stats(&hash(1), &peer(1, 100, AnnounceEvent::Started));
    let (s, changed) = repo.update_torrent_with_peer_and_get_stats(&hash(1), &peer(1, 0, AnnounceEvent::Completed));
    assert_eq!(stats(s), (1, 1, 0));
    assert!(changed);
}

#[test]
fn repeated_completed_announce_is_counted_again() {
    let mut repo = <RepositorySyncOld as TRepositorySync>::new();
    repo.update_torrent_with_peer_and_get_stats(&hash(1), &peer(1, 100, AnnounceEvent::Started));
    repo.update_torrent_with_peer_and_get_stats(&hash(1), &peer(1, 0, AnnounceEvent::Completed));
    let (s, changed) = repo.update_torrent_with_peer_and_get_stats(&hash(1), &peer(1, 0, AnnounceEvent::Completed));
    assert_eq!(stats(s), (2, 1, 0));
    assert!(changed);
}

#[test]
fn stopped_peer_leaves_the_swarm() {
    let mut repo = <RepositorySync as TRepositorySync>::new();
    repo.update_torrent_with_peer_and_get_stats(&hash(1), &peer(1, 100, AnnounceEvent::Started));
    repo.update_torrent_with_peer_and_get_stats(&hash(1), &peer(2, 0, AnnounceEvent::Started));
    let (s, changed) = repo.update_torrent_with_peer_and_get_stats(&hash(1), &peer(1, 100, AnnounceEvent::Stopped));
    assert_eq!(stats(s), (0, 1, 0));
    assert!(!changed);
}

#[test]
fn stopped_announce_registers_an_unknown_torrent() {
    let mut repo = <RepositorySyncOld as TRepositorySync>::new();
    let (s, changed) = repo.update_torrent_with_peer_and_get_stats(&hash(7), &peer(1, 100, AnnounceEvent::Stopped));
    assert_eq!(stats(s), (0, 0, 0));
    assert!(!changed);
    assert_eq!(repo.get_torrents().len(), 1);
    let key = hash(7).key();
    assert_eq!(repo.get_torrents().get(&key).unwrap().peers.len(), 0);
}

#[test]
fn announces_to_different_torrents_do_not_interfere() {
    let mut repo = <RepositorySync as TRepositorySync>::new();
    repo.update_torrent_with_peer_and_get_stats(&hash(1), &peer(1, 100, AnnounceEvent::Started));
    repo.update_torrent_with_peer_and_get_stats(&hash(2), &peer(1, 0, AnnounceEvent::Started));
    repo.update_torrent_with_peer_and_get_stats(&hash(2), &peer(2, 0, AnnounceEvent::Started));
    let (s, _) = repo.update_torrent_with_peer_and_get_stats(&hash(1), &peer(3, 5, AnnounceEvent::NoEvent));
    assert_eq!(stats(s), (0, 0, 2));
    assert_eq!(repo.get_torrents().len(), 2);
}

#[test]
fn announces_to_different_torrents_commute() {
    let mut a = <RepositorySync as TRepositorySync>::new();
    let mut b = <RepositorySync as TRepositorySync>::new();
    a.update_torrent_with_peer_and_get_stats(&hash(1), &peer(1, 100, AnnounceEvent::Started));
    a.update_torrent_with_peer_and_get_stats(&hash(2), &peer(2, 0, AnnounceEvent::Started));
    b.update_torrent_with_peer_and_get_stats(&hash(2), &peer(2, 0, AnnounceEvent::Started));
    b.update_torrent_with_peer_and_get_stats(&hash(1), &peer(1, 100, AnnounceEvent::Started));
    for h in [hash(1), hash(2)] {
        let k = h.key();
        let ea = a.get_torrents().get(&k).unwrap();
        let eb = b.get_torrents().get(&k).unwrap();
        assert_eq!(ea.get_stats(), eb.get_stats());
        assert_eq!(ea.peers.keys().collect::<Vec<_>>(), eb.peers.keys().collect::<Vec<_>>());
    }
}

#[test]
fn repeated_regular_announce_changes_nothing() {
    let mut entry = Entry::new();
    let p = peer(4, 10, AnnounceEvent::NoEvent);
    assert!(!entry.update_peer(&p));
    let first = entry.get_stats();
    assert!(!entry.update_peer(&p));
    assert_eq!(entry.get_stats(), first);
    assert_eq!(entry.peers.len(), 1);
}

#[test]
fn both_repositories_answer_alike() {
    let mut a = <RepositorySync as TRepositorySync>::new();
    let mut b = <RepositorySyncOld as TRepositorySync>::new();
    let announces = [
        (1u8, peer(1, 100, AnnounceEvent::Started)),
        (1, peer(2, 0, AnnounceEvent::Started)),
        (2, peer(1, 0, AnnounceEvent::Completed)),
        (1, peer(1, 0, AnnounceEvent::Completed)),
        (1, peer(2, 0, AnnounceEvent::Stopped)),
    ];
    for (h, p) in announces.iter() {
        let (sa, ca) = a.update_torrent_with_peer_and_get_stats(&hash(*h), p);
        let (sb, cb) = b.update_torrent_with_peer_and_get_stats(&hash(*h), p);
        assert_eq!(stats(sa), stats(sb));
        assert_eq!(ca, cb);
    }
}

#[test]
fn seeders_and_leechers_count_every_peer() {
    let mut entry = Entry::new();
    entry.update_peer(&peer(1, 0, AnnounceEvent::Started));
    entry.update_peer(&peer(2, 10, AnnounceEvent::Started));
    entry.update_peer(&peer(3, -5, AnnounceEvent::NoEvent));
    entry.update_peer(&peer(4, 7, AnnounceEvent::Completed));
    let (seeders, completed, leechers) = entry.get_stats();
    assert_eq!((seeders, completed, leechers), (2, 0, 2));
    assert_eq!(seeders as usize + leechers as usize, entry.peers.len());
}

#[test]
fn stored_peer_is_its_latest_announce() {
    let mut entry = Entry::new();
    entry.update_peer(&peer(1, 10, AnnounceEvent::Started));
    entry.update_peer(&peer(1, 0, AnnounceEvent::NoEvent));
    let key = Id([1; 20]).key();
    assert_eq!(entry.peers.get(&key).unwrap().left.0, 0);
    assert_eq!(entry.get_stats(), (1, 0, 0));
}

#[test]
fn is_seeder_needs_nothing_left_and_no_stop() {
    assert!(peer(1, 0, AnnounceEvent::Started).is_seeder());
    assert!(peer(1, -1, AnnounceEvent::Completed).is_seeder());
    assert!(!peer(1, 1, AnnounceEvent::Started).is_seeder());
    assert!(!peer(1, 0, AnnounceEvent::Stopped).is_seeder());
}

#[test]
fn keys_are_big_endian_packings() {
    let mut b = [0u8; 20];
    for (i, x) in b.iter_mut().enumerate() {
        *x = i as u8;
    }
    assert_eq!(pack_bytes(&b), (0x0001_0203_0405_0607, 0x0809_0a0b_0c0d_0e0f, 0x1011_1213));
    assert_eq!(InfoHash(b).key(), pack_bytes(&b));
    assert_eq!(Id(b).key(), pack_bytes(&b));
}

#[test]
fn different_ids_get_different_keys() {
    let mut a = [9u8; 20];
    let b = [9u8; 20];
    a[19] = 8;
    assert_ne!(pack_bytes(&a), pack_bytes(&b));
    a[19] = 9;
    a[0] = 10;
    assert_ne!(pack_bytes(&a), pack_bytes(&b));
}

#[test]
fn keys_order_as_the_bytes() {
    let mut a = [0u8; 20];
    let mut b = [0u8; 20];
    a[3] = 1;
    b[4] = 0xff;
    assert!(a > b);
    assert!(pack_bytes(&a) > pack_bytes(&b));
}

#[test]
fn changing_the_map_through_get_torrents_mut() {
    let mut repo = <RepositorySyncOld as TRepositorySync>::new();
    let key = hash(3).key();
    let mut entry = Entry::new();
    entry.update_peer(&peer(1, 0, AnnounceEvent::Started));
    repo.get_torrents_mut().insert(key, entry);
    let (s, changed) = repo.update_torrent_with_peer_and_get_stats(&hash(3), &peer(1, 0, AnnounceEvent::Completed));
    assert_eq!(stats(s), (1, 1, 0));
    assert!(changed);

    let mut sync = <RepositorySync as TRepositorySync>::new();
    sync.get_torrents_mut().insert(key, Entry::new());
    assert_eq!(sync.get_torrents().len(), 1);
}
