# torrent_repository

A verified repository of BitTorrent swarms. For each torrent, keyed by its
info hash, it keeps the peers that announced themselves and the number of
completed downloads, and answers every announce with the swarm's statistics
(seeders, completed downloads, leechers).

- `src/byte_key.rs`: twenty-byte ids packed big-endian into `(u64, u64, u32)`
  keys; the packing is proved injective and order-preserving.
- `src/peer.rs`, `src/info_hash.rs`: peers, their ids and announce events, and
  info hashes.
- `src/torrent.rs`: a swarm (`Entry`), its model `EntryView`, how an announce
  changes it and how its statistics are counted.
- `src/repository.rs`: the repositories (`RepositorySync`,
  `RepositorySyncOld`) behind the `TRepositorySync` trait.
- `src/laws.rs`: properties of every announce, proved over the models.
- `app/`: the lock-based and async (tokio) repositories built on the library,
  and a benchmark program.
