use bytes::Bytes;
use wal_decoder::constants::{
    RM_HEAP2_ID, RM_HEAP_ID, RM_NEON_ID, RM_SMGR_ID, VISIBILITYMAP_ALL_FROZEN,
    VISIBILITYMAP_FORKNUM, VISIBILITYMAP_VALID_BITS,
};
use wal_decoder::error::DecodeError;
use wal_decoder::records::{ClearVmBits, HeapamRecord, MetadataRecord, NeonrmgrRecord};
use wal_decoder::types::{
    DecodedBkpBlock, DecodedWALRecord, PgMajorVersion, RelTag, WalFormat, XlBody, XlHeapDelete,
    XlHeapInsert, XlHeapLock, XlHeapLockUpdated, XlHeapMultiInsert, XlHeapUpdate, XlKind, XlRecord,
};

const VERSIONS: [PgMajorVersion; 4] = [
    PgMajorVersion::PG14,
    PgMajorVersion::PG15,
    PgMajorVersion::PG16,
    PgMajorVersion::PG17,
];

fn block(blkno: u32) -> DecodedBkpBlock {
    DecodedBkpBlock { rnode_spcnode: 1663, rnode_dbnode: 5, rnode_relnode: 16384, blkno }
}

fn record(xl_rmid: u8, xl_info: u8, main: &[u8], blocks: Vec<DecodedBkpBlock>) -> DecodedWALRecord {
    DecodedWALRecord {
        xl_xid: 7,
        xl_info,
        xl_rmid,
        record: Bytes::copy_from_slice(main),
        blocks,
        main_data_offset: 0,
        origin_id: 0,
    }
}

fn xl(body: XlBody, len: usize) -> Option<XlRecord> {
    Some(XlRecord { body, len })
}

fn bits(old: Option<u32>, new: Option<u32>, flags: u8) -> ClearVmBits {
    ClearVmBits {
        new_heap_blkno: new,
        old_heap_blkno: old,
        vm_rel: RelTag {
            forknum: VISIBILITYMAP_FORKNUM,
            spcnode: 1663,
            dbnode: 5,
            relnode: 16384,
        },
        flags,
    }
}

fn heap(c: ClearVmBits) -> Result<Option<MetadataRecord>, DecodeError> {
    Ok(Some(MetadataRecord::Heapam(HeapamRecord::ClearVmBits(c))))
}

fn neon(c: ClearVmBits) -> Result<Option<MetadataRecord>, DecodeError> {
    Ok(Some(MetadataRecord::Neonrmgr(NeonrmgrRecord::ClearVmBits(c))))
}

#[test]
fn heap_insert_clears_new_block() {
    for version in VERSIONS {
        let decoded = record(RM_HEAP_ID, 0x00, &[0, 0, 1], vec![block(42)]);
        let mut buf = decoded.record.clone();
        let got = MetadataRecord::decode_heapam_record(
            &mut buf,
            &decoded,
            version,
            xl(XlBody::HeapInsert(XlHeapInsert { flags: 0x01 }), 3),
        );
        assert_eq!(got, heap(bits(None, Some(42), VISIBILITYMAP_VALID_BITS)));
        assert_eq!(buf.len(), 0);
    }
}

#[test]
fn heap_insert_without_flag_is_nothing() {
    let decoded = record(RM_HEAP_ID, 0x80, &[0, 0, 8], vec![]);
    let mut buf = decoded.record.clone();
    let got = MetadataRecord::decode_heapam_record(
        &mut buf,
        &decoded,
        PgMajorVersion::PG16,
        xl(XlBody::HeapInsert(XlHeapInsert { flags: 0x08 }), 3),
    );
    assert_eq!(got, Ok(None));
}

#[test]
fn heap_delete_clears_new_block() {
    let decoded = record(RM_HEAP_ID, 0x10, &[0; 12], vec![block(9)]);
    let mut buf = decoded.record.clone();
    let got = MetadataRecord::decode_heapam_record(
        &mut buf,
        &decoded,
        PgMajorVersion::PG15,
        xl(XlBody::HeapDelete(XlHeapDelete { flags: 0x03 }), 8),
    );
    assert_eq!(got, heap(bits(None, Some(9), VISIBILITYMAP_VALID_BITS)));
    assert_eq!(buf.len(), 4);
}

#[test]
fn heap_update_clears_old_and_new() {
    // The new block comes first, the old one last.
    for (info, flags, old, new) in [
        (0x20, 0x03, Some(7), Some(3)),
        (0x40, 0x03, Some(7), Some(3)),
        (0x20, 0x01, Some(7), None),
        (0x40, 0x02, None, Some(3)),
    ] {
        let decoded = record(RM_HEAP_ID, info, &[0; 20], vec![block(3), block(7)]);
        let mut buf = decoded.record.clone();
        let got = MetadataRecord::decode_heapam_record(
            &mut buf,
            &decoded,
            PgMajorVersion::PG17,
            xl(XlBody::HeapUpdate(XlHeapUpdate { flags }), 14),
        );
        assert_eq!(got, heap(bits(old, new, VISIBILITYMAP_VALID_BITS)));
    }
}

#[test]
fn hot_update_is_decoded_like_update() {
    for flags in 0..=255u8 {
        let mut results = vec![];
        for info in [0x20, 0x40] {
            let decoded = record(RM_HEAP_ID, info, &[0; 14], vec![block(3), block(7)]);
            let mut buf = decoded.record.clone();
            results.push(MetadataRecord::decode_heapam_record(
                &mut buf,
                &decoded,
                PgMajorVersion::PG14,
                xl(XlBody::HeapUpdate(XlHeapUpdate { flags }), 14),
            ));
        }
        assert_eq!(results[0], results[1]);
    }
}

#[test]
fn heap_locks_clear_all_frozen_only() {
    let decoded = record(RM_HEAP_ID, 0x60, &[0; 8], vec![block(5)]);
    let mut buf = decoded.record.clone();
    let got = MetadataRecord::decode_heapam_record(
        &mut buf,
        &decoded,
        PgMajorVersion::PG14,
        xl(XlBody::HeapLock(XlHeapLock { flags: 0x01 }), 8),
    );
    assert_eq!(got, heap(bits(Some(5), None, VISIBILITYMAP_ALL_FROZEN)));

    let decoded = record(RM_HEAP2_ID, 0x60, &[0; 8], vec![block(6)]);
    let mut buf = decoded.record.clone();
    let got = MetadataRecord::decode_heapam_record(
        &mut buf,
        &decoded,
        PgMajorVersion::PG16,
        xl(XlBody::HeapLockUpdated(XlHeapLockUpdated { flags: 0x01 }), 8),
    );
    assert_eq!(got, heap(bits(Some(6), None, VISIBILITYMAP_ALL_FROZEN)));
    let mut buf = decoded.record.clone();
    let got = MetadataRecord::decode_heapam_record(
        &mut buf,
        &decoded,
        PgMajorVersion::PG16,
        xl(XlBody::HeapLockUpdated(XlHeapLockUpdated { flags: 0x02 }), 8),
    );
    assert_eq!(got, Ok(None));
}

#[test]
fn heap_multi_insert_with_offsets() {
    let decoded = record(RM_HEAP2_ID, 0x50, &[0; 4 + 6], vec![block(11)]);
    let mut buf = decoded.record.clone();
    let got = MetadataRecord::decode_heapam_record(
        &mut buf,
        &decoded,
        PgMajorVersion::PG16,
        xl(XlBody::HeapMultiInsert(XlHeapMultiInsert { flags: 0x01, ntuples: 3 }), 4),
    );
    assert_eq!(got, heap(bits(None, Some(11), VISIBILITYMAP_VALID_BITS)));
    assert_eq!(buf.len(), 6);
}

#[test]
fn multi_insert_has_offsets_unless_the_page_is_new() {
    let complete = |info: u8, rest: usize| {
        let decoded = record(RM_HEAP2_ID, info, &vec![0; 4 + rest], vec![block(11)]);
        let xl = xl(XlBody::HeapMultiInsert(XlHeapMultiInsert { flags: 0x01, ntuples: 3 }), 4);
        MetadataRecord::is_complete(&decoded, PgMajorVersion::PG16, WalFormat::Postgres, &xl)
    };
    assert!(complete(0x50, 6));
    assert!(!complete(0x50, 5));
    assert!(!complete(0x50, 7));
    assert!(!complete(0x50, 0));
    assert!(complete(0xD0, 0));
    assert!(!complete(0xD0, 6));
}

#[test]
fn flagged_record_needs_a_block() {
    for (body, needed) in [
        (XlBody::HeapInsert(XlHeapInsert { flags: 0x01 }), true),
        (XlBody::HeapInsert(XlHeapInsert { flags: 0x02 }), false),
    ] {
        let decoded = record(RM_HEAP_ID, 0x00, &[0; 3], vec![]);
        let xl = xl(body, 3);
        let complete = MetadataRecord::is_complete(
            &decoded,
            PgMajorVersion::PG16,
            WalFormat::Postgres,
            &xl,
        );
        assert_eq!(complete, !needed);
    }
}

#[test]
fn insert_leaves_nothing_over() {
    let decoded = record(RM_HEAP_ID, 0x00, &[0; 4], vec![block(1)]);
    let xl = xl(XlBody::HeapInsert(XlHeapInsert { flags: 0x01 }), 3);
    assert!(!MetadataRecord::is_complete(
        &decoded,
        PgMajorVersion::PG16,
        WalFormat::Postgres,
        &xl
    ));
}

#[test]
fn fixed_part_has_to_fit() {
    let decoded = record(RM_HEAP_ID, 0x10, &[0; 7], vec![block(1)]);
    for (body, len, fits) in [
        (XlBody::HeapDelete(XlHeapDelete { flags: 0 }), 7, true),
        (XlBody::HeapDelete(XlHeapDelete { flags: 0 }), 8, false),
        (XlBody::HeapLock(XlHeapLock { flags: 0 }), 7, false),
    ] {
        let xl = xl(body, len);
        assert_eq!(
            MetadataRecord::is_complete(&decoded, PgMajorVersion::PG16, WalFormat::Postgres, &xl),
            fits
        );
    }
    assert!(!MetadataRecord::is_complete(
        &decoded,
        PgMajorVersion::PG16,
        WalFormat::Postgres,
        &None
    ));
}

#[test]
fn other_heap_records_are_nothing() {
    for (rmid, info) in
        [(RM_HEAP_ID, 0x30), (RM_HEAP_ID, 0x50), (RM_HEAP_ID, 0x70), (RM_HEAP2_ID, 0x40)]
    {
        let decoded = record(rmid, info, &[1, 2, 3], vec![]);
        assert_eq!(
            MetadataRecord::xl_kind(&decoded, PgMajorVersion::PG16, WalFormat::Postgres),
            None
        );
        let mut buf = decoded.record.clone();
        let got =
            MetadataRecord::decode_heapam_record(&mut buf, &decoded, PgMajorVersion::PG16, None);
        assert_eq!(got, Ok(None));
        assert_eq!(&buf[..], &[1, 2, 3]);
    }
}

#[test]
fn heap_decoder_refuses_other_rmgr() {
    let decoded = record(RM_SMGR_ID, 0x00, &[1, 2, 3], vec![]);
    let mut buf = decoded.record.clone();
    let got = MetadataRecord::decode_heapam_record(&mut buf, &decoded, PgMajorVersion::PG16, None);
    assert_eq!(got, Err(DecodeError::UnknownHeapRmgr(RM_SMGR_ID)));
    assert_eq!(buf.len(), 3);
}

#[test]
fn neon_records_clear_like_heap_records() {
    let cases = [
        (0x00, XlBody::HeapInsert(XlHeapInsert { flags: 1 }), bits(None, Some(3), 3)),
        (0x10, XlBody::HeapDelete(XlHeapDelete { flags: 1 }), bits(None, Some(3), 3)),
        (0x20, XlBody::HeapUpdate(XlHeapUpdate { flags: 3 }), bits(Some(7), Some(3), 3)),
        (0x30, XlBody::HeapUpdate(XlHeapUpdate { flags: 1 }), bits(Some(7), None, 3)),
        (0x40, XlBody::HeapLock(XlHeapLock { flags: 1 }), bits(Some(3), None, 2)),
    ];
    for (info, body, want) in cases {
        let decoded = record(RM_NEON_ID, info, &[0; 3], vec![block(3), block(7)]);
        let mut buf = decoded.record.clone();
        let got = MetadataRecord::decode_neonmgr_record(
            &mut buf,
            &decoded,
            PgMajorVersion::PG17,
            xl(body, 3),
        );
        assert_eq!(got, neon(want));
    }
    let decoded = record(RM_NEON_ID, 0x50, &[0; 8], vec![block(3)]);
    let mut buf = decoded.record.clone();
    let got = MetadataRecord::decode_neonmgr_record(
        &mut buf,
        &decoded,
        PgMajorVersion::PG16,
        xl(XlBody::HeapMultiInsert(XlHeapMultiInsert { flags: 1, ntuples: 2 }), 4),
    );
    assert_eq!(got, neon(bits(None, Some(3), 3)));
}

#[test]
fn neon_unknown_record_type() {
    for info in [0x60, 0x70, 0xE0] {
        let decoded = record(RM_NEON_ID, info, &[0; 3], vec![block(3)]);
        let mut buf = decoded.record.clone();
        let got =
            MetadataRecord::decode_neonmgr_record(&mut buf, &decoded, PgMajorVersion::PG16, None);
        assert_eq!(got, Err(DecodeError::UnknownNeonRecord(info & 0x70)));
        assert_eq!(buf.len(), 3);
    }
}

#[test]
fn neon_rmgr_needs_version_16() {
    for version in [PgMajorVersion::PG14, PgMajorVersion::PG15] {
        let decoded = record(RM_NEON_ID, 0x00, &[0; 3], vec![block(3)]);
        assert!(MetadataRecord::is_complete(&decoded, version, WalFormat::Postgres, &None));
        let mut buf = decoded.record.clone();
        let got = MetadataRecord::decode_neonmgr_record(&mut buf, &decoded, version, None);
        assert_eq!(got, Err(DecodeError::NeonRmgrUnsupported(version)));
    }
}

#[test]
fn heap_fixed_parts_by_type() {
    for (rmid, info, kind) in [
        (RM_HEAP_ID, 0x00, Some(XlKind::HeapInsert)),
        (RM_HEAP_ID, 0x90, Some(XlKind::HeapDelete)),
        (RM_HEAP_ID, 0x20, Some(XlKind::HeapUpdate)),
        (RM_HEAP_ID, 0xC0, Some(XlKind::HeapUpdate)),
        (RM_HEAP_ID, 0x60, Some(XlKind::HeapLock)),
        (RM_HEAP2_ID, 0xD0, Some(XlKind::HeapMultiInsert)),
        (RM_HEAP2_ID, 0x60, Some(XlKind::HeapLockUpdated)),
        (RM_HEAP2_ID, 0x00, None),
        (RM_NEON_ID, 0x00, Some(XlKind::NeonHeapInsert)),
        (RM_NEON_ID, 0x10, Some(XlKind::NeonHeapDelete)),
        (RM_NEON_ID, 0x20, Some(XlKind::NeonHeapUpdate)),
        (RM_NEON_ID, 0x30, Some(XlKind::NeonHeapUpdate)),
        (RM_NEON_ID, 0x40, Some(XlKind::NeonHeapLock)),
        (RM_NEON_ID, 0x50, Some(XlKind::NeonHeapMultiInsert)),
        (RM_NEON_ID, 0x60, None),
    ] {
        let decoded = record(rmid, info, &[], vec![]);
        assert_eq!(
            MetadataRecord::xl_kind(&decoded, PgMajorVersion::PG16, WalFormat::Postgres),
            kind
        );
    }
}
