use bytes::Bytes;
use wal_decoder::constants::{
    RM_BARRIER_ID, RM_CLOG_ID, RM_COMPRESSION_REL_ID, RM_DBASE_ID, RM_GENERIC_ID, RM_HEAP2_ID,
    RM_HEAP3_ID, RM_HEAP_ID, RM_LOGICALDDLMSG_ID, RM_LOGICALMSG_ID, RM_MOT_ID, RM_MULTIXACT_ID,
    RM_NEON_ID, RM_RELMAP_ID, RM_REPLORIGIN_ID, RM_SEGPAGE_ID, RM_SLOT_ID, RM_SMGR_ID,
    RM_STANDBY_ID, RM_TBLSPC_ID, RM_UBTREE2_ID, RM_UBTREE3_ID, RM_UBTREE4_ID, RM_UBTREE_ID,
    RM_UHEAP2_ID, RM_UHEAPUNDO_ID, RM_UHEAP_ID, RM_UNDOACTION_ID, RM_UNDOLOG_ID, RM_XACT_ID,
    RM_XLOG_ID,
};
use wal_decoder::error::DecodeError;
use wal_decoder::records::{
    MetadataRecord, RawXlogRecord, UHeap2FreezeRecord, UHeap2Record, XactPrepare, XactRecord,
    XlogRecord,
};
use wal_decoder::types::{
    DecodedBkpBlock, DecodedWALRecord, Lsn, PgMajorVersion, RelFileNode, WalFormat, XlBody,
    XlCreateDatabase, XlHeapInsert, XlHeapLockUpdated, XlLogicalMessage, XlRecord, XlRelmapUpdate,
    XlReploriginDrop, XlRunningXacts, XlSmgrCreate,
};

// A record whose header and block references take five bytes.
fn record(xl_rmid: u8, xl_info: u8, main: &[u8]) -> DecodedWALRecord {
    let mut bytes = vec![0xEE; 5];
    bytes.extend_from_slice(main);
    DecodedWALRecord {
        xl_xid: 7,
        xl_info,
        xl_rmid,
        record: Bytes::from(bytes),
        blocks: vec![DecodedBkpBlock {
            rnode_spcnode: 1,
            rnode_dbnode: 2,
            rnode_relnode: 3,
            blkno: 4,
        }],
        main_data_offset: 5,
        origin_id: 0,
    }
}

fn decode(
    decoded: &DecodedWALRecord,
    xl: Option<XlRecord>,
) -> Result<Option<MetadataRecord>, DecodeError> {
    let (version, format) = (PgMajorVersion::PG16, WalFormat::Postgres);
    assert!(MetadataRecord::is_complete(decoded, version, format, &xl));
    MetadataRecord::from_decoded(decoded, xl, Lsn(1000), version, format, false)
}

fn xl(body: XlBody, len: usize) -> Option<XlRecord> {
    Some(XlRecord { body, len })
}

#[test]
fn main_data_starts_at_its_offset() {
    let got = decode(&record(RM_UHEAP2_ID, 0x10, &[1, 0, 0, 0]), None);
    let want = UHeap2Record::Freeze(UHeap2FreezeRecord { cutoff_xid: 1 });
    assert_eq!(got, Ok(Some(MetadataRecord::UHeap2(want))));
}

#[test]
fn record_has_to_reach_its_main_data() {
    let mut decoded = record(RM_XLOG_ID, 0x00, &[]);
    let complete = |decoded: &DecodedWALRecord| {
        MetadataRecord::is_complete(decoded, PgMajorVersion::PG16, WalFormat::Postgres, &None)
    };
    assert!(complete(&decoded));
    decoded.main_data_offset = 6;
    assert!(!complete(&decoded));
}

#[test]
fn position_is_handed_on() {
    let got = decode(&record(RM_XLOG_ID, 0x10, &[2]), None);
    let raw = RawXlogRecord { info: 0x10, lsn: Lsn(1000), buf: Bytes::from_static(&[2]) };
    assert_eq!(got, Ok(Some(MetadataRecord::Xlog(XlogRecord::Raw(raw)))));
}

#[test]
fn transaction_is_handed_on() {
    let got = decode(&record(RM_XACT_ID, 0x10, &[2, 3]), None);
    let prepare = XactPrepare { xl_xid: 7, data: Bytes::from_static(&[2, 3]) };
    assert_eq!(got, Ok(Some(MetadataRecord::Xact(XactRecord::Prepare(prepare)))));
}

#[test]
fn every_resource_manager_has_its_decoder() {
    let name = |m: Option<MetadataRecord>| match m {
        None => "",
        Some(MetadataRecord::Heapam(_)) => "heapam",
        Some(MetadataRecord::Neonrmgr(_)) => "neonrmgr",
        Some(MetadataRecord::Smgr(_)) => "smgr",
        Some(MetadataRecord::Dbase(_)) => "dbase",
        Some(MetadataRecord::Clog(_)) => "clog",
        Some(MetadataRecord::Xact(_)) => "xact",
        Some(MetadataRecord::MultiXact(_)) => "multixact",
        Some(MetadataRecord::Relmap(_)) => "relmap",
        Some(MetadataRecord::Xlog(_)) => "xlog",
        Some(MetadataRecord::LogicalMessage(_)) => "message",
        Some(MetadataRecord::Standby(_)) => "standby",
        Some(MetadataRecord::Replorigin(_)) => "replorigin",
        Some(MetadataRecord::UHeap(_)) => "uheap",
        Some(MetadataRecord::UHeap2(_)) => "uheap2",
        Some(MetadataRecord::UndoLog(_)) => "undolog",
        Some(MetadataRecord::UHeapUndo(_)) => "uheapundo",
        Some(MetadataRecord::UndoAction(_)) => "undoaction",
        Some(MetadataRecord::UHeapBtree(_)) => "ubtree",
        Some(MetadataRecord::UHeapBtree2(_)) => "ubtree2",
        Some(MetadataRecord::Segpage(_)) => "segpage",
        Some(MetadataRecord::UHeapBtree3(_)) => "ubtree3",
        Some(MetadataRecord::UHeapBtree4(_)) => "ubtree4",
    };
    let insert = || xl(XlBody::HeapInsert(XlHeapInsert { flags: 1 }), 0);
    let node = RelFileNode { spcnode: 1, dbnode: 2, relnode: 3 };
    let create =
        XlCreateDatabase { db_id: 1, tablespace_id: 2, src_db_id: 3, src_tablespace_id: 4 };
    let none: [u8; 0] = [];
    let file = b"neon-file:x\0";
    let cases: Vec<(u8, u8, &[u8], Option<XlRecord>, &str)> = vec![
        (RM_HEAP_ID, 0x00, &none, insert(), "heapam"),
        (
            RM_HEAP2_ID,
            0x60,
            &none,
            xl(XlBody::HeapLockUpdated(XlHeapLockUpdated { flags: 1 }), 0),
            "heapam",
        ),
        (RM_NEON_ID, 0x00, &none, insert(), "neonrmgr"),
        (
            RM_SMGR_ID,
            0x10,
            &none,
            xl(XlBody::SmgrCreate(XlSmgrCreate { rnode: node, forknum: 0 }), 0),
            "smgr",
        ),
        (RM_DBASE_ID, 0x00, &none, xl(XlBody::CreateDatabase(create), 0), "dbase"),
        (RM_CLOG_ID, 0x00, &[0; 4], None, "clog"),
        (RM_XACT_ID, 0x10, &none, None, "xact"),
        (RM_MULTIXACT_ID, 0x00, &[0; 4], None, "multixact"),
        (
            RM_RELMAP_ID,
            0x00,
            &[0; 12],
            xl(XlBody::RelmapUpdate(XlRelmapUpdate { dbid: 0, tsid: 0, nbytes: 0 }), 12),
            "relmap",
        ),
        (RM_XLOG_ID, 0x00, &none, None, "xlog"),
        (
            RM_LOGICALMSG_ID,
            0x00,
            file,
            xl(
                XlBody::LogicalMessage(XlLogicalMessage { prefix_size: 12, message_size: 0 }),
                0,
            ),
            "message",
        ),
        (
            RM_STANDBY_ID,
            0x10,
            &none,
            xl(XlBody::RunningXacts(XlRunningXacts { oldest_running_xid: 1 }), 0),
            "standby",
        ),
        (
            RM_REPLORIGIN_ID,
            0x10,
            &none,
            xl(XlBody::ReploriginDrop(XlReploriginDrop { node_id: 1 }), 0),
            "replorigin",
        ),
        (RM_UHEAP_ID, 0x00, &[0; 4], None, "uheap"),
        (RM_UHEAP2_ID, 0x30, &none, None, "uheap2"),
        (RM_UNDOLOG_ID, 0x00, &none, None, "undolog"),
        (RM_UHEAPUNDO_ID, 0x00, &none, None, "uheapundo"),
        (RM_UNDOACTION_ID, 0x00, &none, None, "undoaction"),
        (RM_UBTREE_ID, 0x00, &none, None, "ubtree"),
        (RM_UBTREE2_ID, 0x00, &none, None, "ubtree2"),
        (RM_SEGPAGE_ID, 0x00, &none, None, "segpage"),
        (RM_UBTREE3_ID, 0x00, &none, None, "ubtree3"),
        (RM_UBTREE4_ID, 0x00, &none, None, "ubtree4"),
    ];
    let known: Vec<u8> = cases.iter().map(|c| c.0).collect();
    for (rmid, info, main, xl, want) in cases {
        assert_eq!(decode(&record(rmid, info, main), xl).map(name), Ok(want));
    }
    // All others stand for nothing.
    for rmid in 0..=255u8 {
        if !known.contains(&rmid) {
            assert_eq!(decode(&record(rmid, 0x00, &none), None), Ok(None));
        }
    }
}

#[test]
fn resource_managers_that_are_not_followed() {
    for rmid in [
        RM_TBLSPC_ID,
        RM_SLOT_ID,
        RM_HEAP3_ID,
        RM_BARRIER_ID,
        RM_MOT_ID,
        RM_COMPRESSION_REL_ID,
        RM_LOGICALDDLMSG_ID,
        RM_GENERIC_ID,
    ] {
        for info in 0..=255u8 {
            assert_eq!(decode(&record(rmid, info, &[1, 2, 3]), None), Ok(None));
        }
    }
}

#[test]
fn readable_without_a_fixed_part() {
    let complete = |decoded: &DecodedWALRecord| {
        MetadataRecord::is_complete(decoded, PgMajorVersion::PG16, WalFormat::Postgres, &None)
    };
    for rmid in [RM_XLOG_ID, RM_UHEAP2_ID, RM_UHEAPUNDO_ID, RM_UHEAP_ID, RM_GENERIC_ID, 99] {
        for len in 0..14 {
            assert!(complete(&record(rmid, 0x10, &vec![0; len])));
        }
    }
}

#[test]
fn errors_pass_through() {
    assert_eq!(
        decode(&record(RM_UHEAP_ID, 0x00, &[0; 3]), None),
        Err(DecodeError::UHeapInsertTooShort)
    );
    assert_eq!(
        decode(&record(RM_NEON_ID, 0x70, &[]), None),
        Err(DecodeError::UnknownNeonRecord(0x70))
    );
}
