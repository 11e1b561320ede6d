use bytes::Bytes;
use wal_decoder::constants::{RM_LOGICALMSG_ID, RM_XLOG_ID};
use wal_decoder::error::DecodeError;
use wal_decoder::records::{
    LogicalMessageRecord, MetadataRecord, PutLogicalMessage, RawXlogRecord, XlogRecord,
};
use wal_decoder::types::{
    DecodedWALRecord, Lsn, PgMajorVersion, WalFormat, XlBody, XlKind, XlLogicalMessage, XlRecord,
};

// What precedes the prefix in these messages.
const FIXED: usize = 3;

fn record(xl_rmid: u8, xl_info: u8, main: &[u8]) -> DecodedWALRecord {
    DecodedWALRecord {
        xl_xid: 7,
        xl_info,
        xl_rmid,
        record: Bytes::copy_from_slice(main),
        blocks: vec![],
        main_data_offset: 0,
        origin_id: 0,
    }
}

fn message(prefix_size: usize, message_size: usize) -> Option<XlRecord> {
    Some(XlRecord {
        body: XlBody::LogicalMessage(XlLogicalMessage { prefix_size, message_size }),
        len: FIXED,
    })
}

fn main_data(prefix: &[u8], message: &[u8]) -> Vec<u8> {
    let mut main = vec![0xAA; FIXED];
    main.extend_from_slice(prefix);
    main.push(0);
    main.extend_from_slice(message);
    main
}

fn decode(
    prefix: &[u8],
    text: &[u8],
    testing: bool,
) -> Result<Option<MetadataRecord>, DecodeError> {
    let decoded = record(RM_LOGICALMSG_ID, 0x00, &main_data(prefix, text));
    let xl = message(prefix.len() + 1, text.len());
    assert!(MetadataRecord::is_complete(
        &decoded,
        PgMajorVersion::PG16,
        WalFormat::Postgres,
        &xl
    ));
    let mut buf = decoded.record.clone();
    let got = MetadataRecord::decode_logical_message_record(&mut buf, &decoded, xl, testing);
    assert_eq!(&buf[..], &decoded.record[FIXED..]);
    got
}

fn put(path: &str, buf: &'static [u8]) -> Result<Option<MetadataRecord>, DecodeError> {
    Ok(Some(MetadataRecord::LogicalMessage(LogicalMessageRecord::Put(PutLogicalMessage {
        path: path.to_string(),
        buf: Bytes::from_static(buf),
    }))))
}

#[test]
fn file_message_is_put() {
    assert_eq!(
        decode(b"neon-file:pg_logical/mappings/1", b"hello", false),
        put("pg_logical/mappings/1", b"hello")
    );
    assert_eq!(decode(b"neon-file:", b"", false), put("", b""));
    assert_eq!(
        decode("neon-file:\u{e4}\u{20ac}".as_bytes(), b"x", true),
        put("\u{e4}\u{20ac}", b"x")
    );
}

#[test]
fn other_messages_are_nothing() {
    assert_eq!(decode(b"", b"hello", false), Ok(None));
    assert_eq!(decode(b"neon-fil", b"hello", false), Ok(None));
    assert_eq!(decode(b"Neon-file:x", b"hello", true), Ok(None));
    assert_eq!(decode(b"xneon-file:x", b"hello", true), Ok(None));
}

#[test]
fn failpoint_in_tests_only() {
    let failpoint = MetadataRecord::LogicalMessage(LogicalMessageRecord::Failpoint);
    assert_eq!(decode(b"neon-test", b"", true), Ok(Some(failpoint)));
    assert_eq!(decode(b"neon-test", b"", false), Ok(None));
    assert_eq!(decode(b"neon-tests", b"", true), Ok(None));
    assert_eq!(decode(b"neon-tes", b"", true), Ok(None));
}

#[test]
fn prefix_has_to_be_text() {
    for (prefix, valid_up_to, error_len) in [
        (&b"neon-file:\xFF"[..], 10, Some(1)),
        (&b"\xC0\x80"[..], 0, Some(1)),
        (&b"a\xE2\x82"[..], 1, None),
    ] {
        let got = decode(prefix, b"hello", false);
        let want = std::str::from_utf8(prefix).unwrap_err();
        assert_eq!(got, Err(DecodeError::MessagePrefixNotUtf8(want)));
        // The error tells where the text ends.
        match got {
            Err(DecodeError::MessagePrefixNotUtf8(e)) => {
                assert_eq!((e.valid_up_to(), e.error_len()), (valid_up_to, error_len));
            }
            other => panic!("{:?}", other),
        }
    }
}

#[test]
fn other_message_types_are_nothing() {
    let decoded = record(RM_LOGICALMSG_ID, 0x10, b"abc");
    assert_eq!(
        MetadataRecord::xl_kind(&decoded, PgMajorVersion::PG16, WalFormat::Postgres),
        None
    );
    let mut buf = decoded.record.clone();
    assert_eq!(
        MetadataRecord::decode_logical_message_record(&mut buf, &decoded, None, true),
        Ok(None)
    );
    assert_eq!(buf.len(), 3);
}

#[test]
fn messages_have_to_be_whole() {
    let complete = |main: Vec<u8>, prefix_size: usize, message_size: usize| {
        let decoded = record(RM_LOGICALMSG_ID, 0x00, &main);
        assert_eq!(
            MetadataRecord::xl_kind(&decoded, PgMajorVersion::PG16, WalFormat::Postgres),
            Some(XlKind::LogicalMessage)
        );
        MetadataRecord::is_complete(
            &decoded,
            PgMajorVersion::PG16,
            WalFormat::Postgres,
            &message(prefix_size, message_size),
        )
    };
    assert!(complete(main_data(b"neon-file:a", b"hello"), 12, 5));
    assert!(!complete(main_data(b"neon-file:a", b"hello"), 12, 6));
    assert!(!complete(main_data(b"neon-file:a", b"hello"), 12, usize::MAX));
    // The message counts only where it is kept.
    assert!(complete(main_data(b"neon-fila:a", b"hello"), 12, usize::MAX));
    assert!(complete(main_data(b"\xFF", b""), 2, 100));
    assert!(!complete(main_data(b"a", b""), 0, 0));
    assert!(complete(main_data(b"a", b""), 3, 0));
    assert!(!complete(main_data(b"a", b""), 4, 0));
    assert!(!complete(main_data(b"a", b""), usize::MAX, 0));
    assert!(!complete(vec![0; 2], 1, 0));
    assert!(complete(vec![0; 3], 1, 0));
}

#[test]
fn log_records_are_handed_on() {
    let decoded = record(RM_XLOG_ID, 0x1F, &[5, 6]);
    let mut buf = decoded.record.clone();
    let got = MetadataRecord::decode_xlog_record(&mut buf, &decoded, Lsn(77));
    let want = RawXlogRecord { info: 0x10, lsn: Lsn(77), buf: Bytes::from_static(&[5, 6]) };
    assert_eq!(got, Ok(Some(MetadataRecord::Xlog(XlogRecord::Raw(want)))));
}
