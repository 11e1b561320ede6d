//! Undo records of openGauss, and the records of its index and segment storage,
//! which are kept whole.

use crate::bytebuf::{
    clone_bytes, contents, get_i32_le, get_u16_le, get_u64_le, i32_at, remaining, u16_at, u64_at,
};
use crate::constants::{
    XLOG_UHEAPUNDO_ABORT_SPECINSERT, XLOG_UHEAPUNDO_OPMASK, XLOG_UHEAPUNDO_PAGE,
    XLOG_UHEAPUNDO_RESET_SLOT, XLR_RMGR_INFO_MASK,
};
use crate::error::DecodeError;
use crate::records::{
    res_view, DataView, GenericView, MetadataRecord, MetadataView, SegpageGenericRecord,
    SegpageRecord, SegpageView, UHeapBtree2GenericRecord, UHeapBtree2Record, UHeapBtree2View,
    UHeapBtree3GenericRecord, UHeapBtree3Record, UHeapBtree3View, UHeapBtree4GenericRecord,
    UHeapBtree4Record, UHeapBtree4View, UHeapBtreeGenericRecord, UHeapBtreeRecord, UHeapBtreeView,
    UHeapUndoAbortSpecInsertRecord, UHeapUndoGenericRecord, UHeapUndoPageRecord, UHeapUndoRecord,
    UHeapUndoResetSlotRecord, UHeapUndoView, UndoActionGenericRecord, UndoActionRecord,
    UndoActionView, UndoLogGenericRecord, UndoLogRecord, UndoLogView,
};
use crate::types::{DecodedWALRecord, PgMajorVersion};
use crate::uheap::after_fixed;
use bytes::Bytes;
use vstd::prelude::*;

verus! {

/// A record that is kept whole: the info bits of its resource manager, and its
/// main data.
pub open spec fn kept_whole(main: Seq<u8>, xl_info: u8) -> GenericView {
    GenericView { info: xl_info & XLR_RMGR_INFO_MASK, buf: main }
}

/// The metadata record that undo slot reset data `main` stands for.
pub open spec fn uheapundo_reset_slot_metadata(main: Seq<u8>) -> Result<
    Option<MetadataView>,
    DecodeError,
> {
    if main.len() < 16 {
        Err(DecodeError::UHeapUndoResetSlotTooShort)
    } else {
        Ok(
            Some(
                MetadataView::UHeapUndo(
                    UHeapUndoView::ResetSlot(
                        UHeapUndoResetSlotRecord {
                            urec_ptr: u64_at(main, 0),
                            zone_id: i32_at(main, 8),
                            td_slot_id: i32_at(main, 12),
                        },
                    ),
                ),
            ),
        )
    }
}

/// The metadata record that undo data `main` of an aborted speculative insert
/// stands for.
pub open spec fn uheapundo_abort_specinsert_metadata(main: Seq<u8>) -> Result<
    Option<MetadataView>,
    DecodeError,
> {
    if main.len() < 6 {
        Err(DecodeError::UHeapUndoAbortSpecInsertTooShort)
    } else {
        Ok(
            Some(
                MetadataView::UHeapUndo(
                    UHeapUndoView::AbortSpecInsert(
                        UHeapUndoAbortSpecInsertRecord {
                            offset: u16_at(main, 0),
                            zone_id: i32_at(main, 2),
                        },
                    ),
                ),
            ),
        )
    }
}

/// The metadata record that a UHeap undo record stands for.
pub open spec fn uheapundo_metadata(main: Seq<u8>, xl_info: u8) -> Result<
    Option<MetadataView>,
    DecodeError,
> {
    let op = xl_info & XLOG_UHEAPUNDO_OPMASK;
    if op == XLOG_UHEAPUNDO_PAGE {
        Ok(Some(MetadataView::UHeapUndo(UHeapUndoView::Page(DataView { data: main }))))
    } else if op == XLOG_UHEAPUNDO_RESET_SLOT {
        uheapundo_reset_slot_metadata(main)
    } else if op == XLOG_UHEAPUNDO_ABORT_SPECINSERT {
        uheapundo_abort_specinsert_metadata(main)
    } else {
        Ok(Some(MetadataView::UHeapUndo(UHeapUndoView::Generic(kept_whole(main, xl_info)))))
    }
}

/// What is left of the main data of a UHeap undo record.
pub open spec fn uheapundo_rest(main: Seq<u8>, xl_info: u8) -> Seq<u8> {
    let op = xl_info & XLOG_UHEAPUNDO_OPMASK;
    if op == XLOG_UHEAPUNDO_RESET_SLOT {
        after_fixed(main, 16, 16)
    } else if op == XLOG_UHEAPUNDO_ABORT_SPECINSERT {
        after_fixed(main, 6, 6)
    } else {
        main
    }
}

impl MetadataRecord {
    /// Decodes a UHeap undo record.
    pub fn decode_uheapundo_record(
        buf: &mut Bytes,
        decoded: &DecodedWALRecord,
        _pg_version: PgMajorVersion,
    ) -> (res: Result<Option<MetadataRecord>, DecodeError>)
        ensures
            res_view(res) == uheapundo_metadata(contents(*old(buf)), decoded.xl_info),
            contents(*final(buf)) == uheapundo_rest(contents(*old(buf)), decoded.xl_info),
    {
        let info = decoded.xl_info & XLR_RMGR_INFO_MASK;
        let op = decoded.xl_info & XLOG_UHEAPUNDO_OPMASK;
        if op == XLOG_UHEAPUNDO_PAGE {
            Self::decode_uheapundo_page(buf, decoded)
        } else if op == XLOG_UHEAPUNDO_RESET_SLOT {
            Self::decode_uheapundo_reset_slot(buf, decoded)
        } else if op == XLOG_UHEAPUNDO_ABORT_SPECINSERT {
            Self::decode_uheapundo_abort_specinsert(buf, decoded)
        } else {
            let rest = clone_bytes(buf);
            Ok(
                Some(
                    MetadataRecord::UHeapUndo(
                        UHeapUndoRecord::Generic(UHeapUndoGenericRecord { info, buf: rest }),
                    ),
                ),
            )
        }
    }

    /// Decodes the undo of a page, which is kept whole.
    pub fn decode_uheapundo_page(buf: &mut Bytes, _decoded: &DecodedWALRecord) -> (res: Result<
        Option<MetadataRecord>,
        DecodeError,
    >)
        ensures
            res_view(res) == Ok::<Option<MetadataView>, DecodeError>(
                Some(
                    MetadataView::UHeapUndo(
                        UHeapUndoView::Page((DataView { data: contents(*old(buf)) })),
                    ),
                ),
            ),
            contents(*final(buf)) == contents(*old(buf)),
    {
        let data = clone_bytes(buf);
        Ok(Some(MetadataRecord::UHeapUndo(UHeapUndoRecord::Page(UHeapUndoPageRecord { data }))))
    }

    /// Decodes the undo of a slot reset: undo record pointer (8 bytes), zone
    /// (4), transaction slot (4).
    pub fn decode_uheapundo_reset_slot(
        buf: &mut Bytes,
        _decoded: &DecodedWALRecord,
    ) -> (res: Result<Option<MetadataRecord>, DecodeError>)
        ensures
            res_view(res) == uheapundo_reset_slot_metadata(contents(*old(buf))),
            contents(*final(buf)) == after_fixed(contents(*old(buf)), 16, 16),
    {
        if remaining(buf) < 16 {
            return Err(DecodeError::UHeapUndoResetSlotTooShort);
        }
        let urec_ptr = get_u64_le(buf);
        let zone_id = get_i32_le(buf);
        let td_slot_id = get_i32_le(buf);
        Ok(
            Some(
                MetadataRecord::UHeapUndo(
                    UHeapUndoRecord::ResetSlot(
                        UHeapUndoResetSlotRecord { urec_ptr, zone_id, td_slot_id },
                    ),
                ),
            ),
        )
    }

    /// Decodes the undo of an aborted speculative insert: offset (2 bytes),
    /// zone (4).
    pub fn decode_uheapundo_abort_specinsert(
        buf: &mut Bytes,
        _decoded: &DecodedWALRecord,
    ) -> (res: Result<Option<MetadataRecord>, DecodeError>)
        ensures
            res_view(res) == uheapundo_abort_specinsert_metadata(contents(*old(buf))),
            contents(*final(buf)) == after_fixed(contents(*old(buf)), 6, 6),
    {
        if remaining(buf) < 6 {
            return Err(DecodeError::UHeapUndoAbortSpecInsertTooShort);
        }
        let offset = get_u16_le(buf);
        let zone_id = get_i32_le(buf);
        Ok(
            Some(
                MetadataRecord::UHeapUndo(
                    UHeapUndoRecord::AbortSpecInsert(
                        UHeapUndoAbortSpecInsertRecord { offset, zone_id },
                    ),
                ),
            ),
        )
    }

    /// Decodes an undo log record, which is kept whole.
    pub fn decode_undolog_record(
        buf: &mut Bytes,
        decoded: &DecodedWALRecord,
        _pg_version: PgMajorVersion,
    ) -> (res: Result<Option<MetadataRecord>, DecodeError>)
        ensures
            res_view(res) == Ok::<Option<MetadataView>, DecodeError>(
                Some(
                    MetadataView::UndoLog(
                        UndoLogView::Generic(kept_whole(contents(*old(buf)), decoded.xl_info)),
                    ),
                ),
            ),
            contents(*final(buf)) == contents(*old(buf)),
    {
        let info = decoded.xl_info & XLR_RMGR_INFO_MASK;
        let rest = clone_bytes(buf);
        Ok(
            Some(
                MetadataRecord::UndoLog(
                    UndoLogRecord::Generic(UndoLogGenericRecord { info, buf: rest }),
                ),
            ),
        )
    }

    /// Decodes an undo action record, which is kept whole.
    pub fn decode_undoaction_record(
        buf: &mut Bytes,
        decoded: &DecodedWALRecord,
        _pg_version: PgMajorVersion,
    ) -> (res: Result<Option<MetadataRecord>, DecodeError>)
        ensures
            res_view(res) == Ok::<Option<MetadataView>, DecodeError>(
                Some(
                    MetadataView::UndoAction(
                        UndoActionView::Generic(kept_whole(contents(*old(buf)), decoded.xl_info)),
                    ),
                ),
            ),
            contents(*final(buf)) == contents(*old(buf)),
    {
        let info = decoded.xl_info & XLR_RMGR_INFO_MASK;
        let rest = clone_bytes(buf);
        Ok(
            Some(
                MetadataRecord::UndoAction(
                    UndoActionRecord::Generic(UndoActionGenericRecord { info, buf: rest }),
                ),
            ),
        )
    }

    /// Decodes a UHeap index record, which is kept whole.
    pub fn decode_ubtree_record(
        buf: &mut Bytes,
        decoded: &DecodedWALRecord,
        _pg_version: PgMajorVersion,
    ) -> (res: Result<Option<MetadataRecord>, DecodeError>)
        ensures
            res_view(res) == Ok::<Option<MetadataView>, DecodeError>(
                Some(
                    MetadataView::UHeapBtree(
                        UHeapBtreeView::Generic(kept_whole(contents(*old(buf)), decoded.xl_info)),
                    ),
                ),
            ),
            contents(*final(buf)) == contents(*old(buf)),
    {
        let info = decoded.xl_info & XLR_RMGR_INFO_MASK;
        let rest = clone_bytes(buf);
        Ok(
            Some(
                MetadataRecord::UHeapBtree(
                    UHeapBtreeRecord::Generic(UHeapBtreeGenericRecord { info, buf: rest }),
                ),
            ),
        )
    }

    /// Decodes a UHeap index record of the second kind, which is kept whole.
    pub fn decode_ubtree2_record(
        buf: &mut Bytes,
        decoded: &DecodedWALRecord,
        _pg_version: PgMajorVersion,
    ) -> (res: Result<Option<MetadataRecord>, DecodeError>)
        ensures
            res_view(res) == Ok::<Option<MetadataView>, DecodeError>(
                Some(
                    MetadataView::UHeapBtree2(
                        UHeapBtree2View::Generic(kept_whole(contents(*old(buf)), decoded.xl_info)),
                    ),
                ),
            ),
            contents(*final(buf)) == contents(*old(buf)),
    {
        let info = decoded.xl_info & XLR_RMGR_INFO_MASK;
        let rest = clone_bytes(buf);
        Ok(
            Some(
                MetadataRecord::UHeapBtree2(
                    UHeapBtree2Record::Generic(UHeapBtree2GenericRecord { info, buf: rest }),
                ),
            ),
        )
    }

    /// Decodes a segment page storage record, which is kept whole.
    pub fn decode_segpage_record(
        buf: &mut Bytes,
        decoded: &DecodedWALRecord,
        _pg_version: PgMajorVersion,
    ) -> (res: Result<Option<MetadataRecord>, DecodeError>)
        ensures
            res_view(res) == Ok::<Option<MetadataView>, DecodeError>(
                Some(
                    MetadataView::Segpage(
                        SegpageView::Generic(kept_whole(contents(*old(buf)), decoded.xl_info)),
                    ),
                ),
            ),
            contents(*final(buf)) == contents(*old(buf)),
    {
        let info = decoded.xl_info & XLR_RMGR_INFO_MASK;
        let rest = clone_bytes(buf);
        Ok(
            Some(
                MetadataRecord::Segpage(
                    SegpageRecord::Generic(SegpageGenericRecord { info, buf: rest }),
                ),
            ),
        )
    }

    /// Decodes a UHeap index record of the third kind, which is kept whole.
    pub fn decode_ubtree3_record(
        buf: &mut Bytes,
        decoded: &DecodedWALRecord,
        _pg_version: PgMajorVersion,
    ) -> (res: Result<Option<MetadataRecord>, DecodeError>)
        ensures
            res_view(res) == Ok::<Option<MetadataView>, DecodeError>(
                Some(
                    MetadataView::UHeapBtree3(
                        UHeapBtree3View::Generic(kept_whole(contents(*old(buf)), decoded.xl_info)),
                    ),
                ),
            ),
            contents(*final(buf)) == contents(*old(buf)),
    {
        let info = decoded.xl_info & XLR_RMGR_INFO_MASK;
        let rest = clone_bytes(buf);
        Ok(
            Some(
                MetadataRecord::UHeapBtree3(
                    UHeapBtree3Record::Generic(UHeapBtree3GenericRecord { info, buf: rest }),
                ),
            ),
        )
    }

    /// Decodes a UHeap index record of the fourth kind, which is kept whole.
    pub fn decode_ubtree4_record(
        buf: &mut Bytes,
        decoded: &DecodedWALRecord,
        _pg_version: PgMajorVersion,
    ) -> (res: Result<Option<MetadataRecord>, DecodeError>)
        ensures
            res_view(res) == Ok::<Option<MetadataView>, DecodeError>(
                Some(
                    MetadataView::UHeapBtree4(
                        UHeapBtree4View::Generic(kept_whole(contents(*old(buf)), decoded.xl_info)),
                    ),
                ),
            ),
            contents(*final(buf)) == contents(*old(buf)),
    {
        let info = decoded.xl_info & XLR_RMGR_INFO_MASK;
        let rest = clone_bytes(buf);
        Ok(
            Some(
                MetadataRecord::UHeapBtree4(
                    UHeapBtree4Record::Generic(UHeapBtree4GenericRecord { info, buf: rest }),
                ),
            ),
        )
    }
}

} // verus!
