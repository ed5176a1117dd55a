//! A repository of BitTorrent swarms: for every torrent (keyed by its info
//! hash) it keeps the peers that announced themselves and how many of them
//! completed the download, and answers each announce with the swarm's
//! statistics.

pub mod byte_key;
pub mod peer;
pub mod torrent;
pub mod info_hash;
pub mod repository;
pub mod laws;
