//! The interpreted record that a shard receives.

use crate::records::{opt_view, MetadataRecord, MetadataView};
use crate::types::Lsn;
use vstd::prelude::*;

verus! {

/// Whether what is not yet committed has to be flushed before the record is
/// applied.
#[derive(Clone, Copy, Debug, PartialEq, Eq, Structural)]
pub enum FlushUncommittedRecords {
    Yes,
    No,
}

/// What is known of one value of a batch. A shard that stores the value finds
/// its bytes in the batch; one that only tracks relation sizes is told the key.
#[derive(Clone, Copy, Debug, PartialEq, Eq, Structural)]
pub enum ValueMeta {
    Serialized { key: i128, lsn: Lsn, batch_offset: u64, len: usize, will_init: bool },
    Observed { key: i128, lsn: Lsn },
}

/// The data blocks of a record, serialized.
#[derive(Debug, PartialEq)]
pub struct SerializedValueBatch {
    pub raw: Vec<u8>,
    pub metadata: Vec<ValueMeta>,
    pub max_lsn: Lsn,
    pub len: usize,
}

#[verifier::ext_equal]
pub struct BatchView {
    pub raw: Seq<u8>,
    pub metadata: Seq<ValueMeta>,
    pub max_lsn: Lsn,
    pub len: usize,
}

impl View for SerializedValueBatch {
    type V = BatchView;

    open spec fn view(&self) -> BatchView {
        BatchView {
            raw: self.raw@,
            metadata: self.metadata@,
            max_lsn: self.max_lsn,
            len: self.len,
        }
    }
}

/// A batch without a block.
pub open spec fn no_blocks() -> BatchView {
    BatchView { raw: Seq::empty(), metadata: Seq::empty(), max_lsn: Lsn(0), len: 0 }
}

impl Default for SerializedValueBatch {
    fn default() -> (b: Self)
        ensures
            b@ == no_blocks(),
    {
        SerializedValueBatch { raw: Vec::new(), metadata: Vec::new(), max_lsn: Lsn(0), len: 0 }
    }
}

/// A log record as one shard sees it.
#[derive(Debug, PartialEq)]
pub struct InterpretedWalRecord {
    /// What the shard has to do besides storing blocks.
    pub metadata_record: Option<MetadataRecord>,
    /// The blocks to store.
    pub batch: SerializedValueBatch,
    /// Where the record ends.
    pub next_record_lsn: Lsn,
    pub flush_uncommitted: FlushUncommittedRecords,
    /// The transaction that wrote the record.
    pub xid: u32,
}

#[verifier::ext_equal]
pub struct InterpretedView {
    pub metadata_record: Option<MetadataView>,
    pub batch: BatchView,
    pub next_record_lsn: Lsn,
    pub flush_uncommitted: FlushUncommittedRecords,
    pub xid: u32,
}

impl View for InterpretedWalRecord {
    type V = InterpretedView;

    open spec fn view(&self) -> InterpretedView {
        InterpretedView {
            metadata_record: opt_view(self.metadata_record),
            batch: self.batch@,
            next_record_lsn: self.next_record_lsn,
            flush_uncommitted: self.flush_uncommitted,
            xid: self.xid,
        }
    }
}

} // verus!
