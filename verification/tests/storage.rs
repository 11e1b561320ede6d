use bytes::Bytes;
use wal_decoder::constants::{RM_DBASE_ID, RM_RELMAP_ID, RM_SMGR_ID};
use wal_decoder::records::{
    DbaseCreate, DbaseDrop, DbaseRecord, MetadataRecord, RelmapRecord, RelmapUpdate, SmgrCreate,
    SmgrRecord,
};
use wal_decoder::types::{
    DecodedWALRecord, PgMajorVersion, RelFileNode, RelTag, WalFormat, XlBody, XlCreateDatabase,
    XlDropDatabase, XlKind, XlRecord, XlRelmapUpdate, XlSmgrCreate, XlSmgrTruncate,
};

const VERSIONS: [PgMajorVersion; 4] = [
    PgMajorVersion::PG14,
    PgMajorVersion::PG15,
    PgMajorVersion::PG16,
    PgMajorVersion::PG17,
];

fn record(xl_rmid: u8, xl_info: u8, bytes: &[u8], main_data_offset: usize) -> DecodedWALRecord {
    DecodedWALRecord {
        xl_xid: 7,
        xl_info,
        xl_rmid,
        record: Bytes::copy_from_slice(bytes),
        blocks: vec![],
        main_data_offset,
        origin_id: 0,
    }
}

fn xl(body: XlBody, len: usize) -> Option<XlRecord> {
    Some(XlRecord { body, len })
}

fn node() -> RelFileNode {
    RelFileNode { spcnode: 1, dbnode: 2, relnode: 3 }
}

fn create() -> XlBody {
    XlBody::CreateDatabase(XlCreateDatabase {
        db_id: 10,
        tablespace_id: 20,
        src_db_id: 30,
        src_tablespace_id: 40,
    })
}

fn drop_db() -> XlBody {
    XlBody::DropDatabase(XlDropDatabase { db_id: 10, tablespace_ids: vec![20, 21] })
}

fn created() -> Option<MetadataRecord> {
    Some(MetadataRecord::Dbase(DbaseRecord::Create(DbaseCreate {
        db_id: 10,
        tablespace_id: 20,
        src_db_id: 30,
        src_tablespace_id: 40,
    })))
}

fn dropped() -> Option<MetadataRecord> {
    Some(MetadataRecord::Dbase(DbaseRecord::Drop(DbaseDrop {
        db_id: 10,
        tablespace_ids: vec![20, 21],
    })))
}

#[test]
fn smgr_create_and_truncate() {
    let decoded = record(RM_SMGR_ID, 0x10, &[0; 16], 0);
    let mut buf = decoded.record.clone();
    let got = MetadataRecord::decode_smgr_record(
        &mut buf,
        &decoded,
        xl(XlBody::SmgrCreate(XlSmgrCreate { rnode: node(), forknum: 1 }), 16),
    );
    let rel = RelTag { forknum: 1, spcnode: 1, dbnode: 2, relnode: 3 };
    assert_eq!(got, Ok(Some(MetadataRecord::Smgr(SmgrRecord::Create(SmgrCreate { rel })))));

    let truncate = XlSmgrTruncate { blkno: 8, rnode: node(), flags: 7 };
    let decoded = record(RM_SMGR_ID, 0x21, &[0; 21], 0);
    let mut buf = decoded.record.clone();
    let got = MetadataRecord::decode_smgr_record(
        &mut buf,
        &decoded,
        xl(XlBody::SmgrTruncate(truncate), 20),
    );
    assert_eq!(got, Ok(Some(MetadataRecord::Smgr(SmgrRecord::Truncate(truncate)))));
    assert_eq!(buf.len(), 1);
}

#[test]
fn other_smgr_records_are_nothing() {
    let decoded = record(RM_SMGR_ID, 0x30, &[1], 0);
    let mut buf = decoded.record.clone();
    assert_eq!(MetadataRecord::decode_smgr_record(&mut buf, &decoded, None), Ok(None));
    assert_eq!(buf.len(), 1);
}

#[test]
fn dbase_create_by_copy() {
    for version in VERSIONS {
        let decoded = record(RM_DBASE_ID, 0x00, &[0; 16], 0);
        let mut buf = decoded.record.clone();
        let got =
            MetadataRecord::decode_dbase_record(&mut buf, &decoded, version, xl(create(), 16));
        assert_eq!(got, Ok(created()));
        assert!(decoded.is_dbase_create_copy(version));
    }
}

#[test]
fn dbase_drop_by_version() {
    for version in VERSIONS {
        let info = if version == PgMajorVersion::PG14 { 0x10 } else { 0x20 };
        let decoded = record(RM_DBASE_ID, info, &[0; 16], 0);
        let mut buf = decoded.record.clone();
        let got =
            MetadataRecord::decode_dbase_record(&mut buf, &decoded, version, xl(drop_db(), 16));
        assert_eq!(got, Ok(dropped()));
        assert!(!decoded.is_dbase_create_copy(version));
    }
}

#[test]
fn dbase_create_with_logged_pages_is_nothing() {
    for version in [PgMajorVersion::PG15, PgMajorVersion::PG16, PgMajorVersion::PG17] {
        let decoded = record(RM_DBASE_ID, 0x10, &[0; 16], 0);
        assert_eq!(MetadataRecord::xl_kind(&decoded, version, WalFormat::Postgres), None);
        let mut buf = decoded.record.clone();
        assert_eq!(
            MetadataRecord::decode_dbase_record(&mut buf, &decoded, version, None),
            Ok(None)
        );
        assert!(!decoded.is_dbase_create_copy(version));
    }
    let decoded = record(RM_DBASE_ID, 0x20, &[0; 16], 0);
    assert_eq!(
        MetadataRecord::xl_kind(&decoded, PgMajorVersion::PG14, WalFormat::Postgres),
        None
    );
}

#[test]
fn only_dbase_records_create_databases() {
    let decoded = record(RM_SMGR_ID, 0x00, &[], 0);
    assert!(!decoded.is_dbase_create_copy(PgMajorVersion::PG16));
}

#[test]
fn relmap_update_keeps_the_map() {
    let bytes: Vec<u8> = (0..20).collect();
    let decoded = record(RM_RELMAP_ID, 0x00, &bytes, 3);
    let update = XlRelmapUpdate { dbid: 1, tsid: 2, nbytes: 5 };
    let mut buf = decoded.record.slice(3..);
    let got = MetadataRecord::decode_relmap_record(
        &mut buf,
        &decoded,
        xl(XlBody::RelmapUpdate(update), 12),
    );
    let want = RelmapUpdate { update, buf: Bytes::from_static(&[15, 16, 17, 18, 19]) };
    assert_eq!(got, Ok(Some(MetadataRecord::Relmap(RelmapRecord::Update(want)))));
    assert_eq!(&buf[..], &[15, 16, 17, 18, 19]);
}

#[test]
fn relmap_update_needs_its_header() {
    let update = || xl(XlBody::RelmapUpdate(XlRelmapUpdate { dbid: 1, tsid: 2, nbytes: 0 }), 8);
    for (len, complete) in [(12, true), (11, false), (7, false)] {
        let decoded = record(RM_RELMAP_ID, 0x00, &vec![0; len], 0);
        assert_eq!(
            MetadataRecord::is_complete(
                &decoded,
                PgMajorVersion::PG16,
                WalFormat::Postgres,
                &update()
            ),
            complete
        );
    }
    let decoded = record(RM_RELMAP_ID, 0x00, &[], 0);
    assert_eq!(
        MetadataRecord::xl_kind(&decoded, PgMajorVersion::PG16, WalFormat::Postgres),
        Some(XlKind::RelmapUpdate)
    );
}
