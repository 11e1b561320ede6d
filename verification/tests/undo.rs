use bytes::Bytes;
use wal_decoder::constants::RM_UHEAPUNDO_ID;
use wal_decoder::error::DecodeError;
use wal_decoder::records::{
    MetadataRecord, SegpageGenericRecord, SegpageRecord, UHeapBtree2GenericRecord,
    UHeapBtree2Record, UHeapBtree3GenericRecord, UHeapBtree3Record, UHeapBtree4GenericRecord,
    UHeapBtree4Record, UHeapBtreeGenericRecord, UHeapBtreeRecord, UHeapUndoAbortSpecInsertRecord,
    UHeapUndoGenericRecord, UHeapUndoPageRecord, UHeapUndoRecord, UHeapUndoResetSlotRecord,
    UndoActionGenericRecord, UndoActionRecord, UndoLogGenericRecord, UndoLogRecord,
};
use wal_decoder::types::{DecodedWALRecord, PgMajorVersion};

const VERSION: PgMajorVersion = PgMajorVersion::PG14;

fn record(xl_rmid: u8, xl_info: u8, main: &[u8]) -> DecodedWALRecord {
    DecodedWALRecord {
        xl_xid: 7,
        xl_info,
        xl_rmid,
        record: Bytes::copy_from_slice(main),
        blocks: vec![],
        main_data_offset: 0,
        origin_id: 0,
    }
}

fn undo(info: u8, main: &[u8]) -> (Result<UHeapUndoRecord, DecodeError>, Vec<u8>) {
    let decoded = record(RM_UHEAPUNDO_ID, info, main);
    let mut buf = decoded.record.clone();
    let got = match MetadataRecord::decode_uheapundo_record(&mut buf, &decoded, VERSION) {
        Ok(Some(MetadataRecord::UHeapUndo(r))) => Ok(r),
        Ok(other) => panic!("{:?}", other),
        Err(e) => Err(e),
    };
    (got, buf.to_vec())
}

#[test]
fn undo_page_is_kept_as_data() {
    let want = UHeapUndoPageRecord { data: Bytes::from_static(&[1, 2]) };
    assert_eq!(undo(0x00, &[1, 2]), (Ok(UHeapUndoRecord::Page(want)), vec![1, 2]));
}

#[test]
fn undo_reset_slot() {
    let main = [1, 0, 0, 0, 2, 0, 0, 0, 0xFF, 0xFF, 0xFF, 0xFF, 3, 1, 0, 0, 5];
    let want = UHeapUndoResetSlotRecord { urec_ptr: 0x2_0000_0001, zone_id: -1, td_slot_id: 259 };
    assert_eq!(undo(0x10, &main), (Ok(UHeapUndoRecord::ResetSlot(want)), vec![5]));
    assert_eq!(
        undo(0x10, &main[..15]),
        (Err(DecodeError::UHeapUndoResetSlotTooShort), main[..15].to_vec())
    );
}

#[test]
fn undo_abort_specinsert() {
    let main = [2, 1, 0, 0, 0, 0x80];
    let want = UHeapUndoAbortSpecInsertRecord { offset: 258, zone_id: i32::MIN };
    assert_eq!(undo(0x20, &main), (Ok(UHeapUndoRecord::AbortSpecInsert(want)), vec![]));
    assert_eq!(
        undo(0x20, &main[..5]),
        (Err(DecodeError::UHeapUndoAbortSpecInsertTooShort), main[..5].to_vec())
    );
}

#[test]
fn undo_unknown_type_is_kept_whole() {
    let want = UHeapUndoGenericRecord { info: 0xB0, buf: Bytes::from_static(&[9]) };
    assert_eq!(undo(0xB3, &[9]), (Ok(UHeapUndoRecord::Generic(want)), vec![9]));
}

#[test]
fn records_kept_whole() {
    let decoded = record(0, 0xA5, &[3, 4]);
    let info = 0xA0;
    let buf = Bytes::from_static(&[3, 4]);
    let mut b = decoded.record.clone();
    assert_eq!(
        MetadataRecord::decode_undolog_record(&mut b, &decoded, VERSION),
        Ok(Some(MetadataRecord::UndoLog(UndoLogRecord::Generic(UndoLogGenericRecord {
            info,
            buf: buf.clone()
        }))))
    );
    assert_eq!(
        MetadataRecord::decode_undoaction_record(&mut b, &decoded, VERSION),
        Ok(Some(MetadataRecord::UndoAction(UndoActionRecord::Generic(UndoActionGenericRecord {
            info,
            buf: buf.clone()
        }))))
    );
    assert_eq!(
        MetadataRecord::decode_ubtree_record(&mut b, &decoded, VERSION),
        Ok(Some(MetadataRecord::UHeapBtree(UHeapBtreeRecord::Generic(UHeapBtreeGenericRecord {
            info,
            buf: buf.clone()
        }))))
    );
    assert_eq!(
        MetadataRecord::decode_ubtree2_record(&mut b, &decoded, VERSION),
        Ok(Some(MetadataRecord::UHeapBtree2(UHeapBtree2Record::Generic(
            UHeapBtree2GenericRecord { info, buf: buf.clone() }
        ))))
    );
    assert_eq!(
        MetadataRecord::decode_ubtree3_record(&mut b, &decoded, VERSION),
        Ok(Some(MetadataRecord::UHeapBtree3(UHeapBtree3Record::Generic(
            UHeapBtree3GenericRecord { info, buf: buf.clone() }
        ))))
    );
    assert_eq!(
        MetadataRecord::decode_ubtree4_record(&mut b, &decoded, VERSION),
        Ok(Some(MetadataRecord::UHeapBtree4(UHeapBtree4Record::Generic(
            UHeapBtree4GenericRecord { info, buf: buf.clone() }
        ))))
    );
    assert_eq!(
        MetadataRecord::decode_segpage_record(&mut b, &decoded, VERSION),
        Ok(Some(MetadataRecord::Segpage(SegpageRecord::Generic(SegpageGenericRecord {
            info,
            buf: buf.clone()
        }))))
    );
    assert_eq!(&b[..], &[3, 4]);
}
