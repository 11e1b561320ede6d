use bytes::Bytes;
use wal_decoder::constants::{RM_UHEAP2_ID, RM_UHEAP_ID};
use wal_decoder::error::DecodeError;
use wal_decoder::records::{
    MetadataRecord, UHeap2BaseShiftRecord, UHeap2ExtendTdSlotsRecord, UHeap2FreezeRecord,
    UHeap2GenericRecord, UHeap2Record, UHeapCleanRecord, UHeapDeleteRecord,
    UHeapFreezeTdSlotRecord, UHeapInsertRecord, UHeapInvalidTdSlotRecord, UHeapMultiInsertRecord,
    UHeapNewPageRecord, UHeapRecord, UHeapTupleData, UHeapUpdateRecord,
};
use wal_decoder::types::{DecodedWALRecord, PgMajorVersion, WalFormat};

fn record(xl_rmid: u8, xl_info: u8, main: &[u8]) -> DecodedWALRecord {
    DecodedWALRecord {
        xl_xid: 7,
        xl_info,
        xl_rmid,
        record: Bytes::copy_from_slice(main),
        blocks: vec![],
        main_data_offset: 0,
        origin_id: 0,
    }
}

// What a UHeap record is decoded to, and what is left of its main data.
fn uheap(info: u8, main: &[u8]) -> (Result<UHeapRecord, DecodeError>, Vec<u8>) {
    let decoded = record(RM_UHEAP_ID, info, main);
    assert!(is_complete(info, main));
    let mut buf = decoded.record.clone();
    let got = match MetadataRecord::decode_uheap_record(&mut buf, &decoded, PgMajorVersion::PG14) {
        Ok(Some(MetadataRecord::UHeap(r))) => Ok(r),
        Ok(other) => panic!("{:?}", other),
        Err(e) => Err(e),
    };
    (got, buf.to_vec())
}

fn uheap2(info: u8, main: &[u8]) -> (Result<UHeap2Record, DecodeError>, Vec<u8>) {
    let decoded = record(RM_UHEAP2_ID, info, main);
    let mut buf = decoded.record.clone();
    let got = match MetadataRecord::decode_uheap2_record(&mut buf, &decoded, PgMajorVersion::PG14) {
        Ok(Some(MetadataRecord::UHeap2(r))) => Ok(r),
        Ok(other) => panic!("{:?}", other),
        Err(e) => Err(e),
    };
    (got, buf.to_vec())
}

fn is_complete(info: u8, main: &[u8]) -> bool {
    let decoded = record(RM_UHEAP_ID, info, main);
    MetadataRecord::is_complete(&decoded, PgMajorVersion::PG14, WalFormat::OpenGauss, &None)
}

fn bytes(b: &[u8]) -> Bytes {
    Bytes::copy_from_slice(b)
}

#[test]
fn uheap_insert() {
    let insert = |has_tuple, tuple_data| {
        Ok(UHeapRecord::Insert(UHeapInsertRecord {
            offnum: 0x0201,
            flags: 9,
            has_tuple,
            tuple_data,
        }))
    };
    assert_eq!(
        uheap(0x80, &[1, 2, 9, 0, 5, 6]),
        (insert(true, Some(bytes(&[5, 6]))), vec![5, 6])
    );
    assert_eq!(uheap(0x00, &[1, 2, 9, 0, 5, 6]), (insert(false, None), vec![5, 6]));
    assert_eq!(uheap(0x80, &[1, 2, 9, 0]), (insert(true, None), vec![]));
    assert_eq!(
        uheap(0x80, &[1, 2, 9]),
        (Err(DecodeError::UHeapInsertTooShort), vec![1, 2, 9])
    );
}

#[test]
fn uheap_delete() {
    let main = [1, 0, 0, 1, 2, 1, 3, 2, 0, 0, 0, 42];
    let delete = |flag, has_undo_tuple, undo_tuple| {
        Ok(UHeapRecord::Delete(UHeapDeleteRecord {
            oldxid: 0x0100_0001,
            offnum: 0x0102,
            td_id: 3,
            flag,
            has_undo_tuple,
            undo_tuple,
        }))
    };
    assert_eq!(uheap(0x10, &main), (delete(2, true, Some(bytes(&[42]))), vec![42]));
    let mut plain = main;
    plain[7] = 1;
    assert_eq!(uheap(0x90, &plain), (delete(1, false, None), vec![42]));
    assert_eq!(
        uheap(0x10, &main[..11]),
        (Err(DecodeError::UHeapDeleteTooShort), main[..11].to_vec())
    );
}

#[test]
fn uheap_update() {
    let main = [1, 0, 0, 0, 2, 0, 3, 0, 4, 1, 5, 1, 8, 9];
    let update = |flags, has_old_tuple, has_new_tuple, old_tuple, new_tuple| {
        Ok(UHeapRecord::Update(UHeapUpdateRecord {
            oldxid: 1,
            old_offnum: 2,
            old_tuple_flag: 3,
            new_offnum: 260,
            old_tuple_td_id: 5,
            flags,
            has_old_tuple,
            has_new_tuple,
            old_tuple,
            new_tuple,
        }))
    };
    assert_eq!(
        uheap(0x20, &main),
        (update(1, true, false, Some(bytes(&[8, 9])), None), vec![8, 9])
    );
    assert_eq!(
        uheap(0xA0, &main),
        (
            update(1, true, true, Some(bytes(&[8, 9])), Some(bytes(&[8, 9]))),
            vec![8, 9]
        )
    );
    let mut other = main;
    other[11] = 0xFE;
    assert_eq!(
        uheap(0xA0, &other),
        (update(0xFE, false, true, None, Some(bytes(&[8, 9]))), vec![8, 9])
    );
    assert_eq!(uheap(0xA0, &main[..12]), (update(1, true, true, None, None), vec![]));
    assert_eq!(
        uheap(0x20, &main[..11]),
        (Err(DecodeError::UHeapUpdateTooShort), main[..11].to_vec())
    );
}

#[test]
fn uheap_freeze_td_slot() {
    let main = [1, 0, 1, 0, 2, 0, 9, 9, 9, 9, 9, 9, 7];
    let want = UHeapFreezeTdSlotRecord { latest_frozen_xid: 65537, n_frozen: 2 };
    assert_eq!(uheap(0x30, &main), (Ok(UHeapRecord::FreezeTdSlot(want)), vec![7]));
    assert_eq!(
        uheap(0x30, &main[..11]),
        (Err(DecodeError::UHeapFreezeTdSlotTooShort), main[..11].to_vec())
    );
}

#[test]
fn uheap_records_kept_as_data() {
    assert_eq!(
        uheap(0x40, &[1, 2]),
        (
            Ok(UHeapRecord::InvalidTdSlot(UHeapInvalidTdSlotRecord { data: bytes(&[1, 2]) })),
            vec![1, 2]
        )
    );
    assert_eq!(
        uheap(0x70, &[]),
        (Ok(UHeapRecord::NewPage(UHeapNewPageRecord { data: bytes(&[]) })), vec![])
    );
}

#[test]
fn uheap_clean() {
    let main = [1, 0, 0, 0, 2, 0, 3, 0, 4, 9, 9, 9, 5, 0, 6, 1, 7];
    let clean = |offsets| {
        Ok(UHeapRecord::Clean(UHeapCleanRecord {
            latest_removed_xid: 1,
            ndeleted: 2,
            ndead: 3,
            flags: 4,
            offsets,
        }))
    };
    // An odd last byte is left over.
    assert_eq!(uheap(0x50, &main), (clean(vec![5, 262]), vec![7]));
    assert_eq!(uheap(0x50, &main[..12]), (clean(vec![]), vec![]));
    assert_eq!(
        uheap(0x50, &main[..11]),
        (Err(DecodeError::UHeapCleanTooShort), main[..11].to_vec())
    );
}

fn tuple_bytes(datalen: i32, data: &[u8]) -> Vec<u8> {
    let mut b = datalen.to_le_bytes().to_vec();
    b.extend_from_slice(&[1, 2, 3, 4, 5, 0, 6, 1, 24]);
    b.extend_from_slice(data);
    b
}

fn tuple(data: &[u8]) -> UHeapTupleData {
    UHeapTupleData {
        datalen: data.len() as i32,
        xid: 0x0201,
        td_id: 3,
        locker_td_id: 4,
        flag: 5,
        flag2: 0x0106,
        t_hoff: 24,
        data: data.to_vec(),
    }
}

fn multi(ntuples: i32, parts: &[Vec<u8>]) -> Vec<u8> {
    let mut b = ntuples.to_le_bytes().to_vec();
    b.push(8);
    for part in parts {
        b.extend_from_slice(part);
    }
    b
}

fn inserted(ntuples: i32, tuples: Vec<UHeapTupleData>) -> Result<UHeapRecord, DecodeError> {
    Ok(UHeapRecord::MultiInsert(UHeapMultiInsertRecord { ntuples, flags: 8, tuples }))
}

#[test]
fn uheap_multi_insert() {
    let main = multi(2, &[tuple_bytes(3, &[7, 8, 9]), tuple_bytes(0, &[]), vec![99]]);
    assert_eq!(
        uheap(0x60, &main),
        (inserted(2, vec![tuple(&[7, 8, 9]), tuple(&[])]), vec![99])
    );
    assert_eq!(main.len(), 5 + (13 + 3) + 13 + 1);
}

#[test]
fn uheap_multi_insert_of_no_tuples() {
    for n in [0, -1, i32::MIN] {
        let main = multi(n, &[vec![1, 2]]);
        assert_eq!(uheap(0x60, &main), (inserted(n, vec![]), vec![1, 2]));
    }
}

#[test]
fn uheap_multi_insert_too_short() {
    assert_eq!(
        uheap(0x60, &[1, 0, 0, 0]),
        (Err(DecodeError::UHeapMultiInsertTooShort), vec![1, 0, 0, 0])
    );
    let main = multi(2, &[tuple_bytes(1, &[7]), vec![0; 11]]);
    assert_eq!(
        uheap(0x60, &main),
        (Err(DecodeError::UHeapMultiInsertTupleTooShort), vec![0; 11])
    );
}

#[test]
fn uheap_multi_insert_length_mismatch() {
    let main = multi(2, &[tuple_bytes(1, &[7]), tuple_bytes(4, &[1, 2, 3])]);
    assert_eq!(
        uheap(0x60, &main),
        (Err(DecodeError::UHeapMultiInsertTupleLengthMismatch), vec![1, 2, 3])
    );
    let main = multi(1, &[tuple_bytes(-1, &[1, 2, 3])]);
    assert_eq!(
        uheap(0x60, &main),
        (Err(DecodeError::UHeapMultiInsertTupleLengthMismatch), vec![1, 2, 3])
    );
}

#[test]
fn uheap_multi_insert_readable() {
    // Twelve bytes are taken for a tuple whose header has thirteen.
    assert!(!is_complete(0x60, &multi(1, &[vec![0; 12]])));
    assert!(!is_complete(0x60, &multi(2, &[tuple_bytes(1, &[7]), vec![0; 12]])));
    assert!(is_complete(0x60, &multi(1, &[tuple_bytes(1, &[7]), vec![0; 12]])));
    assert!(is_complete(0x60, &multi(0, &[vec![0; 12]])));
    assert!(is_complete(0x60, &multi(1, &[vec![0; 11]])));
    assert!(is_complete(0x60, &multi(1, &[vec![0; 13]])));
    assert!(is_complete(0x60, &multi(2, &[tuple_bytes(9, &[7]), vec![0; 12]])));
    // No other type has such data.
    assert!(is_complete(0x00, &multi(1, &[vec![0; 12]])));
}

#[test]
fn uheap_has_no_unknown_type() {
    for info in 0..=255u8 {
        let (got, _) = uheap(info, &[0; 40]);
        assert!(!matches!(got, Ok(UHeapRecord::Generic(_))));
    }
}

#[test]
fn uheap2_base_shift() {
    let main = [2, 0xFE, 0xFF, 0xFF, 0xFF, 0xFF, 0xFF, 0xFF, 0xFF, 1];
    let want = UHeap2BaseShiftRecord { multi: true, delta: -2 };
    assert_eq!(uheap2(0x00, &main), (Ok(UHeap2Record::BaseShift(want)), vec![1]));
    let main = [0, 1, 0, 0, 0, 1, 0, 0, 0];
    let want = UHeap2BaseShiftRecord { multi: false, delta: 0x1_0000_0001 };
    assert_eq!(uheap2(0xC0, &main), (Ok(UHeap2Record::BaseShift(want)), vec![]));
    assert_eq!(
        uheap2(0x00, &main[..8]),
        (Err(DecodeError::UHeap2BaseShiftTooShort), main[..8].to_vec())
    );
}

#[test]
fn uheap2_freeze() {
    let want = UHeap2FreezeRecord { cutoff_xid: 0x0403_0201 };
    assert_eq!(uheap2(0x10, &[1, 2, 3, 4, 5]), (Ok(UHeap2Record::Freeze(want)), vec![5]));
    assert_eq!(
        uheap2(0x10, &[1, 2, 3]),
        (Err(DecodeError::UHeap2FreezeTooShort), vec![1, 2, 3])
    );
}

#[test]
fn uheap2_extend_td_slots() {
    let want = UHeap2ExtendTdSlotsRecord { n_prev_slots: 4, n_extended: 8 };
    assert_eq!(uheap2(0x20, &[4, 8]), (Ok(UHeap2Record::ExtendTdSlots(want)), vec![]));
    assert_eq!(
        uheap2(0x20, &[4]),
        (Err(DecodeError::UHeap2ExtendTdSlotsTooShort), vec![4])
    );
}

#[test]
fn uheap2_unknown_type_is_kept_whole() {
    let want = UHeap2GenericRecord { info: 0x70, buf: bytes(&[1, 2]) };
    assert_eq!(uheap2(0x7F, &[1, 2]), (Ok(UHeap2Record::Generic(want)), vec![1, 2]));
}
