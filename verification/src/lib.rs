//! Decoding and interpretation of PostgreSQL and openGauss write-ahead log
//! records.
//!
//! A record arrives with its header and block references already read
//! ([`types::DecodedWALRecord`]). The library finds out which metadata record,
//! if any, its main data stands for ([`records::MetadataRecord`]), and hands
//! each shard its share of it ([`shard::ShardRecords`]).

pub mod bytebuf;
pub mod constants;
pub mod decode;
pub mod error;
pub mod heap;
pub mod interpret;
pub mod interpreted;
pub mod laws;
pub mod message;
pub mod payload;
pub mod records;
pub mod routing;
pub mod shard;
pub mod storage;
pub mod types;
pub mod uheap;
pub mod undo;
pub mod xact;
