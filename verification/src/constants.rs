//! Numbers of the write-ahead log format: resource managers, record types and
//! flag bits, under the names that PostgreSQL, openGauss and Neon give them.

use vstd::prelude::*;

verus! {

// Resource managers that PostgreSQL and openGauss share.
pub const RM_XLOG_ID: u8 = 0;
pub const RM_XACT_ID: u8 = 1;
pub const RM_SMGR_ID: u8 = 2;
pub const RM_CLOG_ID: u8 = 3;
pub const RM_DBASE_ID: u8 = 4;
pub const RM_TBLSPC_ID: u8 = 5;
pub const RM_MULTIXACT_ID: u8 = 6;
pub const RM_RELMAP_ID: u8 = 7;
pub const RM_STANDBY_ID: u8 = 8;
pub const RM_HEAP2_ID: u8 = 9;
pub const RM_HEAP_ID: u8 = 10;
pub const RM_REPLORIGIN_ID: u8 = 19;
pub const RM_GENERIC_ID: u8 = 20;
pub const RM_LOGICALMSG_ID: u8 = 21;

// Resource managers of openGauss alone.
pub const RM_SLOT_ID: u8 = 24;
pub const RM_HEAP3_ID: u8 = 25;
pub const RM_BARRIER_ID: u8 = 26;
pub const RM_MOT_ID: u8 = 27;
pub const RM_UHEAP_ID: u8 = 28;
pub const RM_UHEAP2_ID: u8 = 29;
pub const RM_UNDOLOG_ID: u8 = 30;
pub const RM_UHEAPUNDO_ID: u8 = 31;
pub const RM_UNDOACTION_ID: u8 = 32;
pub const RM_UBTREE_ID: u8 = 33;
pub const RM_UBTREE2_ID: u8 = 34;
pub const RM_SEGPAGE_ID: u8 = 35;
pub const RM_COMPRESSION_REL_ID: u8 = 37;
pub const RM_LOGICALDDLMSG_ID: u8 = 38;
pub const RM_UBTREE3_ID: u8 = 40;
pub const RM_UBTREE4_ID: u8 = 41;

// The resource manager of Neon.
pub const RM_NEON_ID: u8 = 134;

// The two halves of a record's info byte.
pub const XLR_INFO_MASK: u8 = 0x0F;
pub const XLR_RMGR_INFO_MASK: u8 = 0xF0;

// Heap records.
pub const XLOG_HEAP_INSERT: u8 = 0x00;
pub const XLOG_HEAP_DELETE: u8 = 0x10;
pub const XLOG_HEAP_UPDATE: u8 = 0x20;
pub const XLOG_HEAP_HOT_UPDATE: u8 = 0x40;
pub const XLOG_HEAP_LOCK: u8 = 0x60;
pub const XLOG_HEAP_OPMASK: u8 = 0x70;
pub const XLOG_HEAP_INIT_PAGE: u8 = 0x80;
pub const XLOG_HEAP2_MULTI_INSERT: u8 = 0x50;
pub const XLOG_HEAP2_LOCK_UPDATED: u8 = 0x60;

// Heap records of the Neon resource manager.
pub const XLOG_NEON_HEAP_INSERT: u8 = 0x00;
pub const XLOG_NEON_HEAP_DELETE: u8 = 0x10;
pub const XLOG_NEON_HEAP_UPDATE: u8 = 0x20;
pub const XLOG_NEON_HEAP_HOT_UPDATE: u8 = 0x30;
pub const XLOG_NEON_HEAP_LOCK: u8 = 0x40;
pub const XLOG_NEON_HEAP_MULTI_INSERT: u8 = 0x50;

// Flags of heap records.
pub const XLH_INSERT_ALL_VISIBLE_CLEARED: u8 = 0x01;
pub const XLH_DELETE_ALL_VISIBLE_CLEARED: u8 = 0x01;
pub const XLH_UPDATE_OLD_ALL_VISIBLE_CLEARED: u8 = 0x01;
pub const XLH_UPDATE_NEW_ALL_VISIBLE_CLEARED: u8 = 0x02;
pub const XLH_LOCK_ALL_FROZEN_CLEARED: u8 = 0x01;

// The visibility map.
pub const VISIBILITYMAP_ALL_FROZEN: u8 = 0x02;
pub const VISIBILITYMAP_VALID_BITS: u8 = 0x03;
pub const VISIBILITYMAP_FORKNUM: u8 = 2;

/// Heap blocks that one page of the visibility map covers: four to a byte,
/// in a page of 8192 bytes less its header of 24.
pub const HEAPBLOCKS_PER_PAGE: u32 = 32672;

// Storage manager records.
pub const XLOG_SMGR_CREATE: u8 = 0x10;
pub const XLOG_SMGR_TRUNCATE: u8 = 0x20;

// Database records. The first two are those of PostgreSQL 14; the others are
// those of the versions after it.
pub const V14_XLOG_DBASE_CREATE: u8 = 0x00;
pub const V14_XLOG_DBASE_DROP: u8 = 0x10;
pub const XLOG_DBASE_CREATE_FILE_COPY: u8 = 0x00;
pub const XLOG_DBASE_CREATE_WAL_LOG: u8 = 0x10;
pub const XLOG_DBASE_DROP: u8 = 0x20;

// Commit log records.
pub const CLOG_ZEROPAGE: u8 = 0x00;
pub const CLOG_TRUNCATE: u8 = 0x10;
pub const SLRU_PAGES_PER_SEGMENT: u32 = 32;

// Transaction records.
pub const XLOG_XACT_COMMIT: u8 = 0x00;
pub const XLOG_XACT_PREPARE: u8 = 0x10;
pub const XLOG_XACT_ABORT: u8 = 0x20;
pub const XLOG_XACT_COMMIT_PREPARED: u8 = 0x30;
pub const XLOG_XACT_ABORT_PREPARED: u8 = 0x40;
pub const XLOG_XACT_OPMASK: u8 = 0x70;

// Multixact records.
pub const XLOG_MULTIXACT_ZERO_OFF_PAGE: u8 = 0x00;
pub const XLOG_MULTIXACT_ZERO_MEM_PAGE: u8 = 0x10;
pub const XLOG_MULTIXACT_CREATE_ID: u8 = 0x20;
pub const XLOG_MULTIXACT_TRUNCATE_ID: u8 = 0x30;

// Other records.
pub const XLOG_LOGICAL_MESSAGE: u8 = 0x00;
pub const XLOG_RUNNING_XACTS: u8 = 0x10;
pub const XLOG_REPLORIGIN_SET: u8 = 0x00;
pub const XLOG_REPLORIGIN_DROP: u8 = 0x10;

// UHeap records.
pub const XLOG_UHEAP_INSERT: u8 = 0x00;
pub const XLOG_UHEAP_DELETE: u8 = 0x10;
pub const XLOG_UHEAP_UPDATE: u8 = 0x20;
pub const XLOG_UHEAP_FREEZE_TD_SLOT: u8 = 0x30;
pub const XLOG_UHEAP_INVALID_TD_SLOT: u8 = 0x40;
pub const XLOG_UHEAP_CLEAN: u8 = 0x50;
pub const XLOG_UHEAP_MULTI_INSERT: u8 = 0x60;
pub const XLOG_UHEAP_NEW_PAGE: u8 = 0x70;
pub const XLOG_UHEAP_OPMASK: u8 = 0x70;
pub const XLOG_UHEAP_INIT_PAGE: u8 = 0x80;
pub const XLZ_UPDATE_PREFIX_FROM_OLD: u8 = 0x01;
pub const XLZ_HAS_DELETE_UNDOTUPLE: u8 = 0x02;
pub const XLOG_UHEAP2_BASE_SHIFT: u8 = 0x00;
pub const XLOG_UHEAP2_FREEZE: u8 = 0x10;
pub const XLOG_UHEAP2_EXTEND_TD_SLOTS: u8 = 0x20;
pub const XLOG_UHEAP2_OPMASK: u8 = 0x30;
pub const XLOG_UHEAPUNDO_PAGE: u8 = 0x00;
pub const XLOG_UHEAPUNDO_RESET_SLOT: u8 = 0x10;
pub const XLOG_UHEAPUNDO_ABORT_SPECINSERT: u8 = 0x20;
pub const XLOG_UHEAPUNDO_OPMASK: u8 = 0x30;

/// The page of the visibility map that covers heap block `heap_blk`.
#[allow(non_snake_case)]
pub fn HEAPBLK_TO_MAPBLOCK(heap_blk: u32) -> (vm_blk: u32)
    ensures
        vm_blk == heap_blk / HEAPBLOCKS_PER_PAGE,
{
    heap_blk / HEAPBLOCKS_PER_PAGE
}

} // verus!
