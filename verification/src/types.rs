//! What reaches the decoder: versions, positions, relations, a record's header
//! and block references, and the fixed part of its main data.

use bytes::Bytes;
use vstd::prelude::*;

verus! {

/// A position in the write-ahead log.
#[derive(Clone, Copy, Debug, PartialEq, Eq, Structural)]
pub struct Lsn(pub u64);

/// The PostgreSQL major version whose records are decoded.
#[derive(Clone, Copy, Debug, PartialEq, Eq, Structural)]
pub enum PgMajorVersion {
    PG14,
    PG15,
    PG16,
    PG17,
}

/// The database system that wrote the log.
#[derive(Clone, Copy, Debug, PartialEq, Eq, Structural)]
pub enum WalFormat {
    Postgres,
    OpenGauss,
}

/// A fork of a relation.
#[derive(Clone, Copy, Debug, PartialEq, Eq, Structural)]
pub struct RelTag {
    pub forknum: u8,
    pub spcnode: u32,
    pub dbnode: u32,
    pub relnode: u32,
}

/// A relation's place on disk.
#[derive(Clone, Copy, Debug, PartialEq, Eq, Structural)]
pub struct RelFileNode {
    pub spcnode: u32,
    pub dbnode: u32,
    pub relnode: u32,
}

/// The segmented least-recently-used caches of transaction state.
#[derive(Clone, Copy, Debug, PartialEq, Eq, Structural)]
pub enum SlruKind {
    Clog,
    MultiXactMembers,
    MultiXactOffsets,
}

/// A block that a record refers to.
#[derive(Clone, Copy, Debug, PartialEq, Eq, Structural)]
pub struct DecodedBkpBlock {
    pub rnode_spcnode: u32,
    pub rnode_dbnode: u32,
    pub rnode_relnode: u32,
    pub blkno: u32,
}

/// A record whose header and block references have been read.
#[derive(Debug)]
pub struct DecodedWALRecord {
    pub xl_xid: u32,
    pub xl_info: u8,
    pub xl_rmid: u8,
    /// The whole record, header included.
    pub record: Bytes,
    pub blocks: Vec<DecodedBkpBlock>,
    /// Where in `record` the main data starts.
    pub main_data_offset: usize,
    pub origin_id: u16,
}

/// The fixed parts that main data can start with, each named after the
/// structure it holds. The heap layouts differ between PostgreSQL versions.
#[derive(Clone, Copy, Debug, PartialEq, Eq, Structural)]
pub enum XlKind {
    HeapInsert,
    HeapDelete,
    HeapUpdate,
    HeapLock,
    HeapMultiInsert,
    HeapLockUpdated,
    NeonHeapInsert,
    NeonHeapDelete,
    NeonHeapUpdate,
    NeonHeapLock,
    NeonHeapMultiInsert,
    SmgrCreate,
    SmgrTruncate,
    CreateDatabase,
    DropDatabase,
    ClogTruncate,
    XactParsed,
    MultiXactCreate,
    MultiXactTruncate,
    RelmapUpdate,
    LogicalMessage,
    RunningXacts,
    ReploriginSet,
    ReploriginDrop,
}

#[derive(Clone, Copy, Debug, PartialEq, Eq, Structural)]
pub struct XlHeapInsert {
    pub flags: u8,
}

#[derive(Clone, Copy, Debug, PartialEq, Eq, Structural)]
pub struct XlHeapDelete {
    pub flags: u8,
}

#[derive(Clone, Copy, Debug, PartialEq, Eq, Structural)]
pub struct XlHeapUpdate {
    pub flags: u8,
}

#[derive(Clone, Copy, Debug, PartialEq, Eq, Structural)]
pub struct XlHeapLock {
    pub flags: u8,
}

#[derive(Clone, Copy, Debug, PartialEq, Eq, Structural)]
pub struct XlHeapLockUpdated {
    pub flags: u8,
}

#[derive(Clone, Copy, Debug, PartialEq, Eq, Structural)]
pub struct XlHeapMultiInsert {
    pub flags: u8,
    pub ntuples: u16,
}

#[derive(Clone, Copy, Debug, PartialEq, Eq, Structural)]
pub struct XlSmgrCreate {
    pub rnode: RelFileNode,
    pub forknum: u8,
}

#[derive(Clone, Copy, Debug, PartialEq, Eq, Structural)]
pub struct XlSmgrTruncate {
    pub blkno: u32,
    pub rnode: RelFileNode,
    pub flags: u32,
}

#[derive(Clone, Copy, Debug, PartialEq, Eq, Structural)]
pub struct XlCreateDatabase {
    pub db_id: u32,
    pub tablespace_id: u32,
    pub src_db_id: u32,
    pub src_tablespace_id: u32,
}

#[derive(Debug)]
pub struct XlDropDatabase {
    pub db_id: u32,
    pub tablespace_ids: Vec<u32>,
}

#[derive(Clone, Copy, Debug, PartialEq, Eq, Structural)]
pub struct XlClogTruncate {
    pub pageno: u32,
    pub oldest_xid: u32,
    pub oldest_xid_db: u32,
}

/// The parsed body of a commit or an abort, plain or of a prepared
/// transaction.
#[derive(Debug, PartialEq)]
pub struct XlXactParsedRecord {
    pub xid: u32,
    pub info: u8,
    pub xact_time: i64,
    pub xinfo: u32,
    pub db_id: u32,
    pub ts_id: u32,
    pub subxacts: Vec<u32>,
    pub xnodes: Vec<RelFileNode>,
    pub origin_lsn: Lsn,
}

#[derive(Clone, Copy, Debug, PartialEq, Eq, Structural)]
pub struct MultiXactMember {
    pub xid: u32,
    pub status: u32,
}

#[derive(Debug, PartialEq)]
pub struct XlMultiXactCreate {
    pub mid: u32,
    pub moff: u32,
    pub nmembers: u32,
    pub members: Vec<MultiXactMember>,
}

#[derive(Clone, Copy, Debug, PartialEq, Eq, Structural)]
pub struct XlMultiXactTruncate {
    pub oldest_multi_db: u32,
    pub start_trunc_off: u32,
    pub end_trunc_off: u32,
    pub start_trunc_memb: u32,
    pub end_trunc_memb: u32,
}

#[derive(Clone, Copy, Debug, PartialEq, Eq, Structural)]
pub struct XlRelmapUpdate {
    pub dbid: u32,
    pub tsid: u32,
    pub nbytes: i32,
}

#[derive(Clone, Copy, Debug, PartialEq, Eq, Structural)]
pub struct XlLogicalMessage {
    pub prefix_size: usize,
    pub message_size: usize,
}

#[derive(Clone, Copy, Debug, PartialEq, Eq, Structural)]
pub struct XlRunningXacts {
    pub oldest_running_xid: u32,
}

#[derive(Clone, Copy, Debug, PartialEq, Eq, Structural)]
pub struct XlReploriginSet {
    pub remote_lsn: Lsn,
    pub node_id: u16,
}

#[derive(Clone, Copy, Debug, PartialEq, Eq, Structural)]
pub struct XlReploriginDrop {
    pub node_id: u16,
}

/// The fixed part of a record's main data.
#[derive(Debug)]
pub enum XlBody {
    HeapInsert(XlHeapInsert),
    HeapDelete(XlHeapDelete),
    HeapUpdate(XlHeapUpdate),
    HeapLock(XlHeapLock),
    HeapMultiInsert(XlHeapMultiInsert),
    HeapLockUpdated(XlHeapLockUpdated),
    SmgrCreate(XlSmgrCreate),
    SmgrTruncate(XlSmgrTruncate),
    CreateDatabase(XlCreateDatabase),
    DropDatabase(XlDropDatabase),
    ClogTruncate(XlClogTruncate),
    XactParsed(XlXactParsedRecord),
    MultiXactCreate(XlMultiXactCreate),
    MultiXactTruncate(XlMultiXactTruncate),
    RelmapUpdate(XlRelmapUpdate),
    LogicalMessage(XlLogicalMessage),
    RunningXacts(XlRunningXacts),
    ReploriginSet(XlReploriginSet),
    ReploriginDrop(XlReploriginDrop),
}

/// The fixed part of a record's main data, and how many bytes of the main data
/// it took.
#[derive(Debug)]
pub struct XlRecord {
    pub body: XlBody,
    pub len: usize,
}

} // verus!
