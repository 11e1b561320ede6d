use bytes::Bytes;
use wal_decoder::constants::{RM_DBASE_ID, RM_LOGICALMSG_ID, RM_NEON_ID, RM_UHEAP_ID, RM_XLOG_ID};
use wal_decoder::error::DecodeError;
use wal_decoder::interpret::InterpretError;
use wal_decoder::interpreted::{
    FlushUncommittedRecords, InterpretedWalRecord, SerializedValueBatch, ValueMeta,
};
use wal_decoder::records::{
    ClearVmBits, DbaseCreate, DbaseRecord, HeapamRecord, LogicalMessageRecord, MetadataRecord,
    NeonrmgrRecord, PutLogicalMessage, RawXlogRecord, XlogRecord,
};
use wal_decoder::shard::{ShardIdentity, ShardRecords};
use wal_decoder::types::{
    DecodedBkpBlock, DecodedWALRecord, Lsn, PgMajorVersion, RelTag, WalFormat, XlBody,
    XlCreateDatabase, XlHeapUpdate, XlLogicalMessage, XlRecord,
};

const VM_REL: RelTag = RelTag { forknum: 2, spcnode: 1663, dbnode: 5, relnode: 16384 };

fn shard(number: u8) -> ShardIdentity {
    ShardIdentity { number, count: 4, stripe_size: 32768, layout: 1 }
}

fn blank(shards: &[ShardIdentity]) -> ShardRecords {
    ShardRecords::blank(shards, Lsn(500), FlushUncommittedRecords::No, 7)
}

fn bits(old: Option<u32>, new: Option<u32>) -> ClearVmBits {
    ClearVmBits { new_heap_blkno: new, old_heap_blkno: old, vm_rel: VM_REL, flags: 3 }
}

fn heap_bits(old: Option<u32>, new: Option<u32>) -> MetadataRecord {
    MetadataRecord::Heapam(HeapamRecord::ClearVmBits(bits(old, new)))
}

fn neon_bits(old: Option<u32>, new: Option<u32>) -> MetadataRecord {
    MetadataRecord::Neonrmgr(NeonrmgrRecord::ClearVmBits(bits(old, new)))
}

fn file() -> MetadataRecord {
    MetadataRecord::LogicalMessage(LogicalMessageRecord::Put(PutLogicalMessage {
        path: "a".to_string(),
        buf: Bytes::from_static(b"b"),
    }))
}

// Shard n owns page n of every visibility map.
fn by_page(shard: ShardIdentity, rel: RelTag, page: u32) -> bool {
    assert_eq!(rel, VM_REL);
    shard.number as u32 == page
}

fn nobody(_: ShardIdentity, _: RelTag, _: u32) -> bool {
    false
}

fn metadata(records: ShardRecords) -> Vec<(u8, Option<MetadataRecord>)> {
    records.into_entries().into_iter().map(|(s, r)| (s.number, r.metadata_record)).collect()
}

fn decoded(xl_rmid: u8, xl_info: u8, main: &[u8]) -> DecodedWALRecord {
    let block = |blkno| DecodedBkpBlock {
        rnode_spcnode: 1663,
        rnode_dbnode: 5,
        rnode_relnode: 16384,
        blkno,
    };
    DecodedWALRecord {
        xl_xid: 7,
        xl_info,
        xl_rmid,
        record: Bytes::copy_from_slice(main),
        blocks: vec![block(32672), block(3 * 32672 - 1)],
        main_data_offset: 0,
        origin_id: 0,
    }
}

fn interpret(
    decoded: &DecodedWALRecord,
    xl: Option<XlRecord>,
    shards: &[ShardIdentity],
    version: PgMajorVersion,
) -> Result<ShardRecords, DecodeError> {
    assert!(MetadataRecord::is_complete(decoded, version, WalFormat::Postgres, &xl));
    InterpretedWalRecord::without_blocks(
        decoded,
        xl,
        shards,
        Lsn(500),
        version,
        WalFormat::Postgres,
        false,
        &by_page,
    )
}

fn batch(n: u8) -> SerializedValueBatch {
    SerializedValueBatch {
        raw: vec![n],
        metadata: vec![ValueMeta::Observed { key: n as i128, lsn: Lsn(1) }],
        max_lsn: Lsn(n as u64),
        len: 1,
    }
}

// A batch for each shard, named after it.
fn batch_by_number(
    decoded: &DecodedWALRecord,
    shards: Vec<ShardIdentity>,
    next_record_lsn: Lsn,
    pg_version: PgMajorVersion,
    wal_format: WalFormat,
) -> Result<Vec<SerializedValueBatch>, String> {
    assert_eq!(next_record_lsn, Lsn(500));
    assert_eq!((pg_version, wal_format), (PgMajorVersion::PG14, WalFormat::OpenGauss));
    if decoded.xl_xid == 0 {
        return Err("no transaction".to_string());
    }
    Ok(shards.iter().map(|s| batch(s.number)).collect())
}

fn interpret_with_blocks(
    decoded: &DecodedWALRecord,
    shards: &[ShardIdentity],
) -> Result<ShardRecords, InterpretError<String>> {
    InterpretedWalRecord::from_bytes_filtered(
        decoded,
        None,
        shards,
        Lsn(500),
        PgMajorVersion::PG14,
        WalFormat::OpenGauss,
        false,
        &by_page,
        &batch_by_number,
    )
}

#[test]
fn shard_zero_is_number_zero() {
    assert!(shard(0).is_shard_zero());
    assert!(!shard(1).is_shard_zero());
}

#[test]
fn one_record_for_each_shard() {
    let shards = [shard(2), shard(0), shard(2), shard(1), shard(0)];
    let records = blank(&shards);
    assert_eq!(records.len(), 3);
    assert_eq!(
        vec![records.shard(0), records.shard(1), records.shard(2)],
        vec![shard(2), shard(0), shard(1)]
    );
    assert_eq!(records.get(&shard(3)), None);
    let want = InterpretedWalRecord {
        metadata_record: None,
        batch: SerializedValueBatch::default(),
        next_record_lsn: Lsn(500),
        flush_uncommitted: FlushUncommittedRecords::No,
        xid: 7,
    };
    assert_eq!(records.get(&shard(0)), Some(&want));
    // Shards that differ in anything are different shards.
    let other = ShardIdentity { count: 8, ..shard(0) };
    assert_eq!(blank(&[shard(0), other]).len(), 2);
    assert_eq!(blank(&[]).len(), 0);
}

#[test]
fn share_of_bits() {
    let c = bits(Some(1), Some(2));
    assert_eq!(c.share(true, true), Some(bits(Some(1), Some(2))));
    assert_eq!(c.share(true, false), Some(bits(Some(1), None)));
    assert_eq!(c.share(false, true), Some(bits(None, Some(2))));
    assert_eq!(c.share(false, false), None);
    assert_eq!(bits(None, Some(2)).share(true, false), None);
    assert_eq!(bits(Some(1), None).share(true, true), Some(bits(Some(1), None)));
}

#[test]
fn map_updates_go_to_the_owners_of_the_pages() {
    // The old block is on page two, the new one on page one.
    let (old, new) = (Some(2 * 32672), Some(2 * 32672 - 1));
    let mut records = blank(&[shard(0), shard(1), shard(2), shard(3)]);
    records.route(Some(heap_bits(old, new)), &by_page);
    assert_eq!(
        metadata(records),
        vec![
            (0, None),
            (1, Some(heap_bits(None, new))),
            (2, Some(heap_bits(old, None))),
            (3, None),
        ]
    );
    // Both on one page.
    let mut records = blank(&[shard(1), shard(0)]);
    records.route(Some(neon_bits(Some(9), Some(8))), &by_page);
    assert_eq!(metadata(records), vec![(1, None), (0, Some(neon_bits(Some(9), Some(8))))]);
}

#[test]
fn map_updates_of_other_shards_are_discarded() {
    let mut records = blank(&[shard(0), shard(1)]);
    records.route(Some(heap_bits(Some(1), Some(2))), &nobody);
    assert_eq!(metadata(records), vec![(0, None), (1, None)]);
    // What a record already held stays.
    let mut records = blank(&[shard(0)]);
    records.set_metadata(0, Some(file()));
    records.route(Some(heap_bits(Some(1), Some(2))), &nobody);
    assert_eq!(metadata(records), vec![(0, Some(file()))]);
}

#[test]
fn files_go_to_shard_zero_alone() {
    let other = ShardIdentity { count: 8, ..shard(0) };
    let mut records = blank(&[shard(1), shard(0), shard(2), other]);
    records.route(Some(file()), &nobody);
    assert_eq!(metadata(records), vec![(1, None), (0, Some(file())), (2, None), (0, None)]);
    let mut records = blank(&[shard(1), shard(2)]);
    records.route(Some(file()), &nobody);
    assert_eq!(metadata(records), vec![(1, None), (2, None)]);
}

#[test]
fn everything_else_goes_to_all_shards() {
    let failpoint = || MetadataRecord::LogicalMessage(LogicalMessageRecord::Failpoint);
    let mut records = blank(&[shard(3), shard(1)]);
    records.route(Some(failpoint()), &nobody);
    assert_eq!(metadata(records), vec![(3, Some(failpoint())), (1, Some(failpoint()))]);
    // No metadata record is one too.
    let mut records = blank(&[shard(0)]);
    records.set_metadata(0, Some(file()));
    records.route(None, &nobody);
    assert_eq!(metadata(records), vec![(0, None)]);
}

#[test]
fn interpreted_record_holds_what_all_shards_share() {
    let d = decoded(RM_XLOG_ID, 0x10, &[1, 2]);
    let records = interpret(&d, None, &[shard(1), shard(0)], PgMajorVersion::PG16).unwrap();
    let raw = || RawXlogRecord { info: 0x10, lsn: Lsn(500), buf: Bytes::from_static(&[1, 2]) };
    for (got, number) in records.into_entries().into_iter().zip([1, 0]) {
        let want = InterpretedWalRecord {
            metadata_record: Some(MetadataRecord::Xlog(XlogRecord::Raw(raw()))),
            batch: SerializedValueBatch::default(),
            next_record_lsn: Lsn(500),
            flush_uncommitted: FlushUncommittedRecords::No,
            xid: 7,
        };
        assert_eq!(got, (shard(number), want));
    }
}

#[test]
fn interpreted_update_is_routed() {
    let xl = Some(XlRecord { body: XlBody::HeapUpdate(XlHeapUpdate { flags: 3 }), len: 2 });
    let d = decoded(RM_NEON_ID, 0x20, &[0; 2]);
    let records =
        interpret(&d, xl, &[shard(0), shard(1), shard(2)], PgMajorVersion::PG17).unwrap();
    // The first block is on page one, the last on page two.
    assert_eq!(
        metadata(records),
        vec![
            (0, None),
            (1, Some(neon_bits(None, Some(32672)))),
            (2, Some(neon_bits(Some(3 * 32672 - 1), None))),
        ]
    );
}

#[test]
fn interpreted_file_is_on_shard_zero() {
    let xl = Some(XlRecord {
        body: XlBody::LogicalMessage(XlLogicalMessage { prefix_size: 12, message_size: 1 }),
        len: 0,
    });
    let d = decoded(RM_LOGICALMSG_ID, 0x00, b"neon-file:a\0b");
    let records = interpret(&d, xl, &[shard(1), shard(0)], PgMajorVersion::PG16).unwrap();
    assert_eq!(metadata(records), vec![(1, None), (0, Some(file()))]);
}

#[test]
fn flush_on_database_creation() {
    let create =
        XlCreateDatabase { db_id: 1, tablespace_id: 2, src_db_id: 3, src_tablespace_id: 4 };
    let created =
        DbaseCreate { db_id: 1, tablespace_id: 2, src_db_id: 3, src_tablespace_id: 4 };
    let xl = Some(XlRecord { body: XlBody::CreateDatabase(create), len: 0 });
    let d = decoded(RM_DBASE_ID, 0x00, &[]);
    let records = interpret(&d, xl, &[shard(1), shard(0)], PgMajorVersion::PG14).unwrap();
    for (_, record) in records.into_entries() {
        assert_eq!(record.flush_uncommitted, FlushUncommittedRecords::Yes);
        assert_eq!(
            record.metadata_record,
            Some(MetadataRecord::Dbase(DbaseRecord::Create(created)))
        );
    }
    // Logging every page asks for none.
    let d = decoded(RM_DBASE_ID, 0x10, &[]);
    let records = interpret(&d, None, &[shard(1)], PgMajorVersion::PG15).unwrap();
    let record = records.get(&shard(1)).unwrap();
    assert_eq!(record.flush_uncommitted, FlushUncommittedRecords::No);
    assert_eq!(record.metadata_record, None);
}

#[test]
fn interpretation_fails_with_the_decoder() {
    let d = decoded(RM_UHEAP_ID, 0x10, &[0; 11]);
    let got = interpret(&d, None, &[shard(0)], PgMajorVersion::PG14);
    assert!(matches!(got, Err(DecodeError::UHeapDeleteTooShort)));
}

#[test]
fn failed_decoding_changes_no_record() {
    let d = decoded(RM_UHEAP_ID, 0x10, &[0; 11]);
    let mut records = blank(&[shard(0)]);
    records.set_metadata(0, Some(file()));
    let got = MetadataRecord::from_decoded_filtered(
        &d,
        None,
        &mut records,
        Lsn(500),
        PgMajorVersion::PG14,
        WalFormat::OpenGauss,
        false,
        &nobody,
    );
    assert_eq!(got, Err(DecodeError::UHeapDeleteTooShort));
    assert_eq!(metadata(records), vec![(0, Some(file()))]);
}

#[test]
fn batches_are_put_into_the_records() {
    let mut records = blank(&[shard(2), shard(1)]);
    records.set_metadata(1, Some(file()));
    let entries = records.fill_batches(vec![batch(20), batch(10)]).into_entries();
    assert_eq!(entries.len(), 2);
    assert_eq!((entries[0].0, &entries[0].1.batch), (shard(2), &batch(20)));
    assert_eq!((entries[1].0, &entries[1].1.batch), (shard(1), &batch(10)));
    assert_eq!(entries[0].1.metadata_record, None);
    assert_eq!(entries[1].1.metadata_record, Some(file()));
    assert_eq!(entries[1].1.next_record_lsn, Lsn(500));
}

#[test]
fn blocks_are_serialized_for_each_shard_once() {
    let d = decoded(RM_XLOG_ID, 0x10, &[1, 2]);
    let records = interpret_with_blocks(&d, &[shard(3), shard(1), shard(3)]).unwrap();
    assert_eq!(records.shards(), vec![shard(3), shard(1)]);
    let raw = || RawXlogRecord { info: 0x10, lsn: Lsn(500), buf: Bytes::from_static(&[1, 2]) };
    for ((s, got), number) in records.into_entries().into_iter().zip([3, 1]) {
        let want = InterpretedWalRecord {
            metadata_record: Some(MetadataRecord::Xlog(XlogRecord::Raw(raw()))),
            batch: batch(number),
            next_record_lsn: Lsn(500),
            flush_uncommitted: FlushUncommittedRecords::No,
            xid: 7,
        };
        assert_eq!((s, got), (shard(number), want));
    }
}

#[test]
fn other_shards_do_not_matter() {
    let get = |d: &DecodedWALRecord, xl: Option<XlRecord>, shards: &[ShardIdentity]| {
        let version = PgMajorVersion::PG16;
        let records = interpret(d, xl, shards, version).unwrap();
        let batches = records.shards().iter().map(|s| batch(s.number)).collect();
        let entries = records.fill_batches(batches).into_entries();
        entries.into_iter().find(|(s, _)| *s == shard(1)).unwrap().1
    };
    let update = || Some(XlRecord { body: XlBody::HeapUpdate(XlHeapUpdate { flags: 3 }), len: 2 });
    let message = || {
        Some(XlRecord {
            body: XlBody::LogicalMessage(XlLogicalMessage { prefix_size: 12, message_size: 1 }),
            len: 0,
        })
    };
    let lists: [&[ShardIdentity]; 4] = [
        &[shard(1)],
        &[shard(0), shard(1), shard(2)],
        &[shard(2), shard(2), shard(1), shard(0), shard(1)],
        &[shard(1), shard(3), shard(0)],
    ];
    let map = decoded(RM_NEON_ID, 0x20, &[0; 2]);
    let file = decoded(RM_LOGICALMSG_ID, 0x00, b"neon-file:a\0b");
    let log = decoded(RM_XLOG_ID, 0x10, &[1, 2]);
    for shards in lists {
        let got = get(&map, update(), shards);
        assert_eq!(got.metadata_record, Some(neon_bits(None, Some(32672))));
        assert_eq!(got, get(&map, update(), lists[0]));
        assert_eq!(get(&file, message(), shards), get(&file, message(), lists[0]));
        assert_eq!(get(&log, None, shards), get(&log, None, lists[0]));
    }
}

// Only the shards that are given are asked about.
fn shard_one_or_two(shard: ShardIdentity, _: RelTag, page: u32) -> bool {
    assert!(shard.number == 1 || shard.number == 2);
    shard.number as u32 == page
}

#[test]
fn only_given_shards_are_asked_about() {
    let mut records = blank(&[shard(2), shard(1)]);
    records.route(Some(heap_bits(Some(1), Some(32672))), &shard_one_or_two);
    assert_eq!(metadata(records), vec![(2, None), (1, Some(heap_bits(None, Some(32672))))]);
}

#[test]
fn interpretation_fails_with_the_serializer() {
    let mut d = decoded(RM_XLOG_ID, 0x10, &[1, 2]);
    d.xl_xid = 0;
    let got = interpret_with_blocks(&d, &[shard(3)]);
    assert!(matches!(got, Err(InterpretError::Blocks(e)) if e == "no transaction"));
    // What cannot be decoded is not serialized.
    let mut d = decoded(RM_UHEAP_ID, 0x10, &[0; 11]);
    d.xl_xid = 0;
    let got = interpret_with_blocks(&d, &[shard(3)]);
    assert!(matches!(got, Err(InterpretError::Decode(DecodeError::UHeapDeleteTooShort))));
}

#[test]
fn incomplete_record_is_not_interpreted() {
    let interpret = |d: &DecodedWALRecord| {
        InterpretedWalRecord::from_bytes_filtered_if_complete(
            d,
            None,
            &[shard(1)],
            Lsn(500),
            PgMajorVersion::PG14,
            WalFormat::OpenGauss,
            false,
            &by_page,
            &batch_by_number,
        )
    };
    let mut d = decoded(RM_XLOG_ID, 0x10, &[1, 2]);
    assert_eq!(interpret(&d).unwrap().unwrap().shards(), vec![shard(1)]);
    d.main_data_offset = 3;
    assert!(interpret(&d).is_none());
    // A record that is refused is complete.
    let d = decoded(RM_UHEAP_ID, 0x10, &[0; 11]);
    let got = interpret(&d);
    assert!(matches!(got, Some(Err(InterpretError::Decode(DecodeError::UHeapDeleteTooShort)))));
}
