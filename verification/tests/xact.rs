use bytes::Bytes;
use wal_decoder::constants::{
    RM_CLOG_ID, RM_MULTIXACT_ID, RM_REPLORIGIN_ID, RM_STANDBY_ID, RM_XACT_ID,
};
use wal_decoder::error::DecodeError;
use wal_decoder::records::{
    ClogRecord, ClogTruncate, ClogZeroPage, MetadataRecord, MultiXactRecord, MultiXactZeroPage,
    ReploriginRecord, StandbyRecord, StandbyRunningXacts, XactCommon, XactPrepare, XactRecord,
};
use wal_decoder::types::{
    DecodedWALRecord, Lsn, MultiXactMember, PgMajorVersion, RelFileNode, SlruKind, WalFormat,
    XlBody, XlClogTruncate, XlKind, XlMultiXactCreate, XlMultiXactTruncate, XlRecord,
    XlReploriginDrop, XlReploriginSet, XlRunningXacts, XlXactParsedRecord,
};

fn record(xl_rmid: u8, xl_info: u8, main: &[u8]) -> DecodedWALRecord {
    DecodedWALRecord {
        xl_xid: 7,
        xl_info,
        xl_rmid,
        record: Bytes::copy_from_slice(main),
        blocks: vec![],
        main_data_offset: 0,
        origin_id: 513,
    }
}

fn xl(body: XlBody, len: usize) -> Option<XlRecord> {
    Some(XlRecord { body, len })
}

fn clog(
    info: u8,
    main: &[u8],
    version: PgMajorVersion,
    format: WalFormat,
    xl: Option<XlRecord>,
) -> (Result<Option<MetadataRecord>, DecodeError>, usize) {
    let decoded = record(RM_CLOG_ID, info, main);
    assert!(MetadataRecord::is_complete(&decoded, version, format, &xl));
    let mut buf = decoded.record.clone();
    let got = MetadataRecord::decode_clog_record(&mut buf, &decoded, version, format, xl);
    (got, buf.len())
}

fn zero_page(segno: u32, rpageno: u32) -> Result<Option<MetadataRecord>, DecodeError> {
    Ok(Some(MetadataRecord::Clog(ClogRecord::ZeroPage(ClogZeroPage { segno, rpageno }))))
}

// The number of page 0x0102_0304, narrow or wide.
const PAGE: [u8; 12] = [0x04, 0x03, 0x02, 0x01, 0xFF, 0xFF, 0xFF, 0xFF, 1, 0, 0, 0];

#[test]
fn clog_zero_page_by_width() {
    let want = zero_page(0x0102_0304 / 32, 4);
    for version in [PgMajorVersion::PG14, PgMajorVersion::PG15, PgMajorVersion::PG16] {
        assert_eq!(
            clog(0x00, &PAGE, version, WalFormat::Postgres, None),
            (zero_page(0x0102_0304 / 32, 4), 8)
        );
    }
    // A wide page number counts by its low 32 bits, negative or not.
    assert_eq!(
        clog(0x00, &PAGE, PgMajorVersion::PG17, WalFormat::Postgres, None).0,
        want
    );
    assert_eq!(
        clog(0x0F, &PAGE, PgMajorVersion::PG14, WalFormat::OpenGauss, None),
        (want, 4)
    );
}

#[test]
fn clog_page_in_segment() {
    for (pageno, segno, rpageno) in
        [(0u32, 0, 0), (31, 0, 31), (32, 1, 0), (u32::MAX, 134217727, 31)]
    {
        assert_eq!(
            clog(
                0x00,
                &pageno.to_le_bytes(),
                PgMajorVersion::PG16,
                WalFormat::Postgres,
                None
            ),
            (zero_page(segno, rpageno), 0)
        );
        assert_eq!(segno * 32 + rpageno, pageno);
    }
}

#[test]
fn clog_truncate_of_postgres() {
    let truncate = XlClogTruncate { pageno: 5, oldest_xid: 6, oldest_xid_db: 8 };
    let (got, left) = clog(
        0x10,
        &[0; 12],
        PgMajorVersion::PG16,
        WalFormat::Postgres,
        xl(XlBody::ClogTruncate(truncate), 12),
    );
    let want = ClogTruncate { pageno: 5, oldest_xid: 6, oldest_xid_db: 8 };
    assert_eq!(got, Ok(Some(MetadataRecord::Clog(ClogRecord::Truncate(want)))));
    assert_eq!(left, 0);
}

#[test]
fn clog_truncate_of_opengauss() {
    let main = [9, 0, 0, 0, 0, 0, 0, 0, 1, 1, 0, 0, 2, 0, 1, 0, 77];
    // Every type but that of a new page is a truncation.
    for info in [0x10, 0x20, 0xF0] {
        let (got, left) =
            clog(info, &main, PgMajorVersion::PG14, WalFormat::OpenGauss, None);
        let want = ClogTruncate { pageno: 9, oldest_xid: 257, oldest_xid_db: 65538 };
        assert_eq!(got, Ok(Some(MetadataRecord::Clog(ClogRecord::Truncate(want)))));
        assert_eq!(left, 1);
    }
}

#[test]
fn clog_records_have_to_be_whole() {
    let complete = |info: u8, len: usize, version, format, xl: Option<XlRecord>| {
        let decoded = record(RM_CLOG_ID, info, &vec![0; len]);
        MetadataRecord::is_complete(&decoded, version, format, &xl)
    };
    let truncate = || {
        xl(XlBody::ClogTruncate(XlClogTruncate { pageno: 0, oldest_xid: 0, oldest_xid_db: 0 }), 4)
    };
    let (pg16, pg17) = (PgMajorVersion::PG16, PgMajorVersion::PG17);
    let (postgres, opengauss) = (WalFormat::Postgres, WalFormat::OpenGauss);
    assert!(complete(0x00, 4, pg16, postgres, None));
    assert!(!complete(0x00, 3, pg16, postgres, None));
    assert!(complete(0x00, 8, pg17, postgres, None));
    assert!(!complete(0x00, 7, pg17, postgres, None));
    assert!(complete(0x00, 8, pg16, opengauss, None));
    assert!(!complete(0x00, 7, pg16, opengauss, None));
    assert!(complete(0x10, 16, pg16, opengauss, None));
    assert!(!complete(0x10, 15, pg16, opengauss, None));
    assert!(complete(0x10, 4, pg16, postgres, truncate()));
    assert!(!complete(0x10, 3, pg16, postgres, truncate()));
    assert!(!complete(0x10, 4, pg16, postgres, None));
    // PostgreSQL knows no third type.
    assert!(!complete(0x20, 4, pg16, postgres, truncate()));
}

fn parsed() -> XlXactParsedRecord {
    XlXactParsedRecord {
        xid: 70,
        info: 0x80,
        xact_time: -5,
        xinfo: 3,
        db_id: 4,
        ts_id: 5,
        subxacts: vec![71, 72],
        xnodes: vec![RelFileNode { spcnode: 1, dbnode: 2, relnode: 3 }],
        origin_lsn: Lsn(99),
    }
}

#[test]
fn commits_and_aborts() {
    let common = || XactCommon { parsed: parsed(), origin_id: 513, xl_xid: 7, lsn: Lsn(1000) };
    for (info, want) in [
        (0x00, XactRecord::Commit(common())),
        (0xA0, XactRecord::Abort(common())),
        (0x30, XactRecord::CommitPrepared(common())),
        (0x40, XactRecord::AbortPrepared(common())),
    ] {
        let decoded = record(RM_XACT_ID, info, &[0; 30]);
        let mut buf = decoded.record.clone();
        let got = MetadataRecord::decode_xact_record(
            &mut buf,
            &decoded,
            Lsn(1000),
            WalFormat::Postgres,
            xl(XlBody::XactParsed(parsed()), 28),
        );
        assert_eq!(got, Ok(Some(MetadataRecord::Xact(want))));
        assert_eq!(buf.len(), 2);
    }
}

#[test]
fn prepare_keeps_its_data() {
    let decoded = record(RM_XACT_ID, 0x10, &[3, 1, 4]);
    let mut buf = decoded.record.clone();
    let got = MetadataRecord::decode_xact_record(
        &mut buf,
        &decoded,
        Lsn(1000),
        WalFormat::OpenGauss,
        None,
    );
    let want = XactPrepare { xl_xid: 7, data: Bytes::from_static(&[3, 1, 4]) };
    assert_eq!(got, Ok(Some(MetadataRecord::Xact(XactRecord::Prepare(want)))));
    assert_eq!(buf.len(), 3);
}

#[test]
fn other_xact_records_are_nothing() {
    for info in [0x50, 0x60, 0x70, 0xD0] {
        let decoded = record(RM_XACT_ID, info, &[3, 1, 4]);
        let mut buf = decoded.record.clone();
        assert_eq!(
            MetadataRecord::decode_xact_record(
                &mut buf,
                &decoded,
                Lsn(0),
                WalFormat::Postgres,
                None
            ),
            Ok(None)
        );
    }
}

#[test]
fn multixact_zero_pages() {
    for (info, slru_kind) in
        [(0x00, SlruKind::MultiXactOffsets), (0x10, SlruKind::MultiXactMembers)]
    {
        for (version, left) in [(PgMajorVersion::PG16, 8), (PgMajorVersion::PG17, 4)] {
            let decoded = record(RM_MULTIXACT_ID, info, &PAGE);
            let mut buf = decoded.record.clone();
            let got = MetadataRecord::decode_multixact_record(&mut buf, &decoded, version, None);
            let want = MultiXactZeroPage { slru_kind, segno: 0x0102_0304 / 32, rpageno: 4 };
            assert_eq!(got, Ok(Some(MetadataRecord::MultiXact(MultiXactRecord::ZeroPage(want)))));
            assert_eq!(buf.len(), left);
        }
    }
}

#[test]
fn multixact_create_and_truncate() {
    let create = || XlMultiXactCreate {
        mid: 1,
        moff: 2,
        nmembers: 1,
        members: vec![MultiXactMember { xid: 3, status: 4 }],
    };
    let decoded = record(RM_MULTIXACT_ID, 0x20, &[0; 20]);
    let mut buf = decoded.record.clone();
    let got = MetadataRecord::decode_multixact_record(
        &mut buf,
        &decoded,
        PgMajorVersion::PG16,
        xl(XlBody::MultiXactCreate(create()), 20),
    );
    assert_eq!(got, Ok(Some(MetadataRecord::MultiXact(MultiXactRecord::Create(create())))));

    let truncate = XlMultiXactTruncate {
        oldest_multi_db: 1,
        start_trunc_off: 2,
        end_trunc_off: 3,
        start_trunc_memb: 4,
        end_trunc_memb: 5,
    };
    let decoded = record(RM_MULTIXACT_ID, 0x30, &[0; 20]);
    let mut buf = decoded.record.clone();
    let got = MetadataRecord::decode_multixact_record(
        &mut buf,
        &decoded,
        PgMajorVersion::PG16,
        xl(XlBody::MultiXactTruncate(truncate), 20),
    );
    assert_eq!(got, Ok(Some(MetadataRecord::MultiXact(MultiXactRecord::Truncate(truncate)))));

    let decoded = record(RM_MULTIXACT_ID, 0x40, &[0; 20]);
    let mut buf = decoded.record.clone();
    assert_eq!(
        MetadataRecord::decode_multixact_record(&mut buf, &decoded, PgMajorVersion::PG16, None),
        Ok(None)
    );
}

#[test]
fn multixact_records_have_to_be_whole() {
    let complete = |len: usize, version| {
        let decoded = record(RM_MULTIXACT_ID, 0x10, &vec![0; len]);
        MetadataRecord::is_complete(&decoded, version, WalFormat::Postgres, &None)
    };
    assert!(complete(4, PgMajorVersion::PG14));
    assert!(!complete(3, PgMajorVersion::PG14));
    assert!(complete(8, PgMajorVersion::PG17));
    assert!(!complete(4, PgMajorVersion::PG17));
}

#[test]
fn running_xacts() {
    let decoded = record(RM_STANDBY_ID, 0x10, &[0; 24]);
    let mut buf = decoded.record.clone();
    let got = MetadataRecord::decode_standby_record(
        &mut buf,
        &decoded,
        xl(XlBody::RunningXacts(XlRunningXacts { oldest_running_xid: 55 }), 24),
    );
    let want = StandbyRunningXacts { oldest_running_xid: 55 };
    assert_eq!(got, Ok(Some(MetadataRecord::Standby(StandbyRecord::RunningXacts(want)))));

    let decoded = record(RM_STANDBY_ID, 0x00, &[0; 24]);
    let mut buf = decoded.record.clone();
    assert_eq!(MetadataRecord::decode_standby_record(&mut buf, &decoded, None), Ok(None));
}

#[test]
fn replication_origins() {
    let set = XlReploriginSet { remote_lsn: Lsn(4), node_id: 5 };
    let decoded = record(RM_REPLORIGIN_ID, 0x00, &[0; 16]);
    let mut buf = decoded.record.clone();
    let got = MetadataRecord::decode_replorigin_record(
        &mut buf,
        &decoded,
        xl(XlBody::ReploriginSet(set), 16),
    );
    assert_eq!(got, Ok(Some(MetadataRecord::Replorigin(ReploriginRecord::OriginSet(set)))));

    let drop = XlReploriginDrop { node_id: 5 };
    let decoded = record(RM_REPLORIGIN_ID, 0x10, &[0; 2]);
    let mut buf = decoded.record.clone();
    let got = MetadataRecord::decode_replorigin_record(
        &mut buf,
        &decoded,
        xl(XlBody::ReploriginDrop(drop), 2),
    );
    assert_eq!(got, Ok(Some(MetadataRecord::Replorigin(ReploriginRecord::Drop(drop)))));

    let decoded = record(RM_REPLORIGIN_ID, 0x20, &[0; 2]);
    let mut buf = decoded.record.clone();
    assert_eq!(MetadataRecord::decode_replorigin_record(&mut buf, &decoded, None), Ok(None));
}

#[test]
fn transaction_fixed_parts_by_type() {
    for (rmid, info, format, kind) in [
        (RM_CLOG_ID, 0x00, WalFormat::Postgres, None),
        (RM_CLOG_ID, 0x10, WalFormat::Postgres, Some(XlKind::ClogTruncate)),
        (RM_CLOG_ID, 0x10, WalFormat::OpenGauss, None),
        (RM_XACT_ID, 0x80, WalFormat::Postgres, Some(XlKind::XactParsed)),
        (RM_XACT_ID, 0x20, WalFormat::Postgres, Some(XlKind::XactParsed)),
        (RM_XACT_ID, 0x30, WalFormat::OpenGauss, Some(XlKind::XactParsed)),
        (RM_XACT_ID, 0x40, WalFormat::Postgres, Some(XlKind::XactParsed)),
        (RM_XACT_ID, 0x10, WalFormat::Postgres, None),
        (RM_MULTIXACT_ID, 0x20, WalFormat::Postgres, Some(XlKind::MultiXactCreate)),
        (RM_MULTIXACT_ID, 0x30, WalFormat::Postgres, Some(XlKind::MultiXactTruncate)),
        (RM_MULTIXACT_ID, 0x00, WalFormat::Postgres, None),
        (RM_STANDBY_ID, 0x10, WalFormat::Postgres, Some(XlKind::RunningXacts)),
        (RM_STANDBY_ID, 0x20, WalFormat::Postgres, None),
        (RM_REPLORIGIN_ID, 0x00, WalFormat::Postgres, Some(XlKind::ReploriginSet)),
        (RM_REPLORIGIN_ID, 0x10, WalFormat::Postgres, Some(XlKind::ReploriginDrop)),
    ] {
        let decoded = record(rmid, info, &[]);
        assert_eq!(MetadataRecord::xl_kind(&decoded, PgMajorVersion::PG16, format), kind);
    }
}
