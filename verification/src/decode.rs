//! Which metadata record a decoded record stands for, by its resource manager.
//!
//! The fixed part that the main data of many records starts with comes in
//! decoded: [`MetadataRecord::xl_kind`] names the one that a record needs, and
//! [`MetadataRecord::is_complete`] tells whether the record can be read with
//! the one at hand.

use crate::bytebuf::{advance, clone_bytes, contents, remaining};
use crate::constants::{
    RM_CLOG_ID, RM_DBASE_ID, RM_HEAP2_ID, RM_HEAP_ID, RM_LOGICALMSG_ID, RM_MULTIXACT_ID,
    RM_NEON_ID, RM_RELMAP_ID, RM_REPLORIGIN_ID, RM_SEGPAGE_ID, RM_SMGR_ID, RM_STANDBY_ID,
    RM_UBTREE2_ID, RM_UBTREE3_ID, RM_UBTREE4_ID, RM_UBTREE_ID, RM_UHEAP2_ID, RM_UHEAPUNDO_ID,
    RM_UHEAP_ID, RM_UNDOACTION_ID, RM_UNDOLOG_ID, RM_XACT_ID, RM_XLOG_ID,
};
use crate::error::DecodeError;
use crate::heap::{
    check_heap_payload, heap_kind, heap_payload_ok, heap_xl_kind, heapam_metadata, neon_kind_of,
    neon_xl_kind, neonmgr_metadata,
};
use crate::message::{
    check_message, message_kind, message_metadata, message_ok, message_xl_kind, xlog_metadata,
};
use crate::payload::{check_starts_with, starts_with};
use crate::records::{
    res_view, MetadataRecord, MetadataView, SegpageView, UHeapBtree2View, UHeapBtree3View,
    UHeapBtree4View, UHeapBtreeView, UndoActionView, UndoLogView,
};
use crate::storage::{
    check_relmap, dbase_kind, dbase_metadata, dbase_xl_kind, relmap_metadata, relmap_ok, smgr_kind,
    smgr_metadata, smgr_xl_kind,
};
use crate::types::{DecodedWALRecord, Lsn, PgMajorVersion, WalFormat, XlKind, XlRecord};
use crate::uheap::{check_uheap, uheap2_metadata, uheap_metadata, uheap_ok};
use crate::undo::{kept_whole, uheapundo_metadata};
use crate::xact::{
    check_clog, check_multixact, clog_kind, clog_metadata, clog_ok, clog_xl_kind, multixact_kind,
    multixact_metadata, multixact_ok, multixact_xl_kind, replorigin_kind, replorigin_metadata,
    replorigin_xl_kind, standby_kind, standby_metadata, standby_xl_kind, xact_kind, xact_metadata,
    xact_xl_kind,
};
use vstd::prelude::*;

verus! {

/// The main data of a record.
pub open spec fn main_data(decoded: DecodedWALRecord) -> Seq<u8> {
    contents(decoded.record).skip(decoded.main_data_offset as int)
}

/// The fixed part that the main data of a record starts with, where one has to
/// be decoded.
pub open spec fn needed_kind(
    decoded: DecodedWALRecord,
    pg_version: PgMajorVersion,
    wal_format: WalFormat,
) -> Option<XlKind> {
    let rmid = decoded.xl_rmid;
    let info = decoded.xl_info;
    if rmid == RM_HEAP_ID || rmid == RM_HEAP2_ID {
        heap_kind(rmid, info)
    } else if rmid == RM_NEON_ID {
        neon_kind_of(info, pg_version)
    } else if rmid == RM_SMGR_ID {
        smgr_kind(info)
    } else if rmid == RM_DBASE_ID {
        dbase_kind(info, pg_version)
    } else if rmid == RM_CLOG_ID {
        clog_kind(info, wal_format)
    } else if rmid == RM_XACT_ID {
        xact_kind(info)
    } else if rmid == RM_MULTIXACT_ID {
        multixact_kind(info)
    } else if rmid == RM_RELMAP_ID {
        Some(XlKind::RelmapUpdate)
    } else if rmid == RM_LOGICALMSG_ID {
        message_kind(info)
    } else if rmid == RM_STANDBY_ID {
        standby_kind(info)
    } else if rmid == RM_REPLORIGIN_ID {
        replorigin_kind(info)
    } else {
        None
    }
}

/// Whether a record can be read with the fixed part `xl`: the record reaches as
/// far as its main data, and the main data holds what its type asks for.
pub open spec fn complete(
    decoded: DecodedWALRecord,
    pg_version: PgMajorVersion,
    wal_format: WalFormat,
    xl: Option<XlRecord>,
) -> bool {
    let rmid = decoded.xl_rmid;
    let info = decoded.xl_info;
    let main = main_data(decoded);
    let kind = needed_kind(decoded, pg_version, wal_format);
    &&& decoded.main_data_offset <= contents(decoded.record).len()
    &&& if rmid == RM_HEAP_ID || rmid == RM_HEAP2_ID || rmid == RM_NEON_ID {
        heap_payload_ok(main, kind, xl, info, decoded.blocks@)
    } else if rmid == RM_CLOG_ID {
        clog_ok(main, info, pg_version, wal_format, xl)
    } else if rmid == RM_MULTIXACT_ID {
        multixact_ok(main, info, pg_version, xl)
    } else if rmid == RM_RELMAP_ID {
        relmap_ok(main, xl)
    } else if rmid == RM_LOGICALMSG_ID {
        message_ok(main, info, xl)
    } else if rmid == RM_UHEAP_ID {
        uheap_ok(main, info)
    } else {
        starts_with(main, kind, xl)
    }
}

/// The metadata record that a record stands for, if any, or why it cannot be
/// decoded. Records of other resource managers stand for none.
pub open spec fn metadata_of(
    decoded: DecodedWALRecord,
    next_record_lsn: Lsn,
    pg_version: PgMajorVersion,
    wal_format: WalFormat,
    xl: Option<XlRecord>,
    testing: bool,
) -> Result<Option<MetadataView>, DecodeError> {
    let rmid = decoded.xl_rmid;
    let info = decoded.xl_info;
    let main = main_data(decoded);
    if rmid == RM_HEAP_ID || rmid == RM_HEAP2_ID {
        heapam_metadata(rmid, info, xl, decoded.blocks@)
    } else if rmid == RM_NEON_ID {
        neonmgr_metadata(info, pg_version, xl, decoded.blocks@)
    } else if rmid == RM_SMGR_ID {
        Ok(smgr_metadata(info, xl))
    } else if rmid == RM_DBASE_ID {
        Ok(dbase_metadata(info, pg_version, xl))
    } else if rmid == RM_CLOG_ID {
        Ok(clog_metadata(main, info, wal_format, xl))
    } else if rmid == RM_XACT_ID {
        Ok(xact_metadata(main, info, decoded.xl_xid, decoded.origin_id, next_record_lsn, xl))
    } else if rmid == RM_MULTIXACT_ID {
        Ok(multixact_metadata(main, info, xl))
    } else if rmid == RM_RELMAP_ID {
        Ok(relmap_metadata(main, xl))
    } else if rmid == RM_XLOG_ID {
        Ok(xlog_metadata(main, info, next_record_lsn))
    } else if rmid == RM_LOGICALMSG_ID {
        message_metadata(main, info, xl, testing)
    } else if rmid == RM_STANDBY_ID {
        Ok(standby_metadata(info, xl))
    } else if rmid == RM_REPLORIGIN_ID {
        Ok(replorigin_metadata(info, xl))
    } else if rmid == RM_UHEAP_ID {
        uheap_metadata(main, info)
    } else if rmid == RM_UHEAP2_ID {
        uheap2_metadata(main, info)
    } else if rmid == RM_UHEAPUNDO_ID {
        uheapundo_metadata(main, info)
    } else if rmid == RM_UNDOLOG_ID {
        Ok(Some(MetadataView::UndoLog(UndoLogView::Generic(kept_whole(main, info)))))
    } else if rmid == RM_UNDOACTION_ID {
        Ok(Some(MetadataView::UndoAction(UndoActionView::Generic(kept_whole(main, info)))))
    } else if rmid == RM_UBTREE_ID {
        Ok(Some(MetadataView::UHeapBtree(UHeapBtreeView::Generic(kept_whole(main, info)))))
    } else if rmid == RM_UBTREE2_ID {
        Ok(Some(MetadataView::UHeapBtree2(UHeapBtree2View::Generic(kept_whole(main, info)))))
    } else if rmid == RM_SEGPAGE_ID {
        Ok(Some(MetadataView::Segpage(SegpageView::Generic(kept_whole(main, info)))))
    } else if rmid == RM_UBTREE3_ID {
        Ok(Some(MetadataView::UHeapBtree3(UHeapBtree3View::Generic(kept_whole(main, info)))))
    } else if rmid == RM_UBTREE4_ID {
        Ok(Some(MetadataView::UHeapBtree4(UHeapBtree4View::Generic(kept_whole(main, info)))))
    } else {
        Ok(None)
    }
}

impl MetadataRecord {
    /// Names the fixed part that has to be decoded from the front of a record's
    /// main data.
    pub fn xl_kind(
        decoded: &DecodedWALRecord,
        pg_version: PgMajorVersion,
        wal_format: WalFormat,
    ) -> (kind: Option<XlKind>)
        ensures
            kind == needed_kind(*decoded, pg_version, wal_format),
    {
        let rmid = decoded.xl_rmid;
        let info = decoded.xl_info;
        if rmid == RM_HEAP_ID || rmid == RM_HEAP2_ID {
            heap_xl_kind(rmid, info)
        } else if rmid == RM_NEON_ID {
            match neon_xl_kind(info, pg_version) {
                Ok(kind) => Some(kind),
                Err(_) => None,
            }
        } else if rmid == RM_SMGR_ID {
            smgr_xl_kind(info)
        } else if rmid == RM_DBASE_ID {
            dbase_xl_kind(info, pg_version)
        } else if rmid == RM_CLOG_ID {
            clog_xl_kind(info, wal_format)
        } else if rmid == RM_XACT_ID {
            xact_xl_kind(info)
        } else if rmid == RM_MULTIXACT_ID {
            multixact_xl_kind(info)
        } else if rmid == RM_RELMAP_ID {
            Some(XlKind::RelmapUpdate)
        } else if rmid == RM_LOGICALMSG_ID {
            message_xl_kind(info)
        } else if rmid == RM_STANDBY_ID {
            standby_xl_kind(info)
        } else if rmid == RM_REPLORIGIN_ID {
            replorigin_xl_kind(info)
        } else {
            None
        }
    }

    /// Tells whether a record can be read with the fixed part `xl`.
    pub fn is_complete(
        decoded: &DecodedWALRecord,
        pg_version: PgMajorVersion,
        wal_format: WalFormat,
        xl: &Option<XlRecord>,
    ) -> (yes: bool)
        ensures
            yes == complete(*decoded, pg_version, wal_format, *xl),
    {
        let rmid = decoded.xl_rmid;
        let info = decoded.xl_info;
        let mut buf = clone_bytes(&decoded.record);
        if decoded.main_data_offset > remaining(&buf) {
            return false;
        }
        advance(&mut buf, decoded.main_data_offset);
        let kind = Self::xl_kind(decoded, pg_version, wal_format);
        if rmid == RM_HEAP_ID || rmid == RM_HEAP2_ID || rmid == RM_NEON_ID {
            check_heap_payload(&buf, kind, xl, info, &decoded.blocks)
        } else if rmid == RM_CLOG_ID {
            check_clog(&buf, info, pg_version, wal_format, xl)
        } else if rmid == RM_MULTIXACT_ID {
            check_multixact(&buf, info, pg_version, xl)
        } else if rmid == RM_RELMAP_ID {
            check_relmap(&buf, xl)
        } else if rmid == RM_LOGICALMSG_ID {
            check_message(&buf, info, xl)
        } else if rmid == RM_UHEAP_ID {
            check_uheap(&buf, info)
        } else {
            check_starts_with(&buf, kind, xl)
        }
    }

    /// Decodes a record, which ends at `next_record_lsn`, into the metadata
    /// record that it stands for, if any.
    pub fn from_decoded(
        decoded: &DecodedWALRecord,
        xl: Option<XlRecord>,
        next_record_lsn: Lsn,
        pg_version: PgMajorVersion,
        wal_format: WalFormat,
        testing: bool,
    ) -> (res: Result<Option<MetadataRecord>, DecodeError>)
        requires
            complete(*decoded, pg_version, wal_format, xl),
        ensures
            res_view(res) == metadata_of(
                *decoded,
                next_record_lsn,
                pg_version,
                wal_format,
                xl,
                testing,
            ),
    {
        let rmid = decoded.xl_rmid;
        // This shares the bytes of the record.
        let mut buf = clone_bytes(&decoded.record);
        advance(&mut buf, decoded.main_data_offset);
        if rmid == RM_HEAP_ID || rmid == RM_HEAP2_ID {
            Self::decode_heapam_record(&mut buf, decoded, pg_version, xl)
        } else if rmid == RM_NEON_ID {
            Self::decode_neonmgr_record(&mut buf, decoded, pg_version, xl)
        } else if rmid == RM_SMGR_ID {
            Self::decode_smgr_record(&mut buf, decoded, xl)
        } else if rmid == RM_DBASE_ID {
            Self::decode_dbase_record(&mut buf, decoded, pg_version, xl)
        } else if rmid == RM_CLOG_ID {
            Self::decode_clog_record(&mut buf, decoded, pg_version, wal_format, xl)
        } else if rmid == RM_XACT_ID {
            Self::decode_xact_record(&mut buf, decoded, next_record_lsn, wal_format, xl)
        } else if rmid == RM_MULTIXACT_ID {
            Self::decode_multixact_record(&mut buf, decoded, pg_version, xl)
        } else if rmid == RM_RELMAP_ID {
            Self::decode_relmap_record(&mut buf, decoded, xl)
        } else if rmid == RM_XLOG_ID {
            // Whoever receives this has the checkpoint that it updates, so it
            // is handed on as it is.
            Self::decode_xlog_record(&mut buf, decoded, next_record_lsn)
        } else if rmid == RM_LOGICALMSG_ID {
            Self::decode_logical_message_record(&mut buf, decoded, xl, testing)
        } else if rmid == RM_STANDBY_ID {
            Self::decode_standby_record(&mut buf, decoded, xl)
        } else if rmid == RM_REPLORIGIN_ID {
            Self::decode_replorigin_record(&mut buf, decoded, xl)
        } else if rmid == RM_UHEAP_ID {
            Self::decode_uheap_record(&mut buf, decoded, pg_version)
        } else if rmid == RM_UHEAP2_ID {
            Self::decode_uheap2_record(&mut buf, decoded, pg_version)
        } else if rmid == RM_UHEAPUNDO_ID {
            Self::decode_uheapundo_record(&mut buf, decoded, pg_version)
        } else if rmid == RM_UNDOLOG_ID {
            Self::decode_undolog_record(&mut buf, decoded, pg_version)
        } else if rmid == RM_UNDOACTION_ID {
            Self::decode_undoaction_record(&mut buf, decoded, pg_version)
        } else if rmid == RM_UBTREE_ID {
            Self::decode_ubtree_record(&mut buf, decoded, pg_version)
        } else if rmid == RM_UBTREE2_ID {
            Self::decode_ubtree2_record(&mut buf, decoded, pg_version)
        } else if rmid == RM_SEGPAGE_ID {
            Self::decode_segpage_record(&mut buf, decoded, pg_version)
        } else if rmid == RM_UBTREE3_ID {
            Self::decode_ubtree3_record(&mut buf, decoded, pg_version)
        } else if rmid == RM_UBTREE4_ID {
            Self::decode_ubtree4_record(&mut buf, decoded, pg_version)
        } else {
            // Tablespaces, replication slots, in-memory tables, barriers,
            // compressed relations, logical DDL, generic pages, and resource
            // managers that are not known.
            Ok(None)
        }
    }
}

} // verus!
