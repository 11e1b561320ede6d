//! UHeap records, of the in-place-update heap of openGauss.

use crate::bytebuf::{
    advance, clone_bytes, contents, get_i32_le, get_i64_le, get_u16_le, get_u32_le, get_u8,
    get_uint_le, i32_at, i64_at, into_vec, remaining, split_to, u16_at, u32_at,
};
use crate::constants::{
    XLOG_UHEAP2_BASE_SHIFT, XLOG_UHEAP2_EXTEND_TD_SLOTS, XLOG_UHEAP2_FREEZE, XLOG_UHEAP2_OPMASK,
    XLOG_UHEAP_CLEAN, XLOG_UHEAP_DELETE, XLOG_UHEAP_FREEZE_TD_SLOT, XLOG_UHEAP_INIT_PAGE,
    XLOG_UHEAP_INSERT, XLOG_UHEAP_INVALID_TD_SLOT, XLOG_UHEAP_MULTI_INSERT, XLOG_UHEAP_NEW_PAGE,
    XLOG_UHEAP_OPMASK, XLOG_UHEAP_UPDATE, XLR_RMGR_INFO_MASK, XLZ_HAS_DELETE_UNDOTUPLE,
    XLZ_UPDATE_PREFIX_FROM_OLD,
};
use crate::error::DecodeError;
use crate::records::{
    opt_contents, res_view, tuples_view, DataView, GenericView, MetadataRecord, MetadataView,
    UHeap2BaseShiftRecord, UHeap2ExtendTdSlotsRecord, UHeap2FreezeRecord, UHeap2GenericRecord,
    UHeap2Record, UHeap2View, UHeapCleanRecord, UHeapCleanView, UHeapDeleteRecord, UHeapDeleteView,
    UHeapFreezeTdSlotRecord, UHeapGenericRecord, UHeapInsertRecord, UHeapInsertView,
    UHeapInvalidTdSlotRecord, UHeapMultiInsertRecord, UHeapMultiInsertView, UHeapNewPageRecord,
    UHeapRecord, UHeapTupleData, UHeapTupleView, UHeapUpdateRecord, UHeapUpdateView, UHeapView,
};
use crate::types::{DecodedWALRecord, PgMajorVersion};
use bytes::Bytes;
use vstd::prelude::*;

verus! {

/// What is left of `main` once a decoder that asks for `need` bytes has taken
/// its fixed part of `taken` bytes. It takes nothing of main data too short.
pub open spec fn after_fixed(main: Seq<u8>, need: int, taken: int) -> Seq<u8> {
    if main.len() < need {
        main
    } else {
        main.skip(taken)
    }
}

/// What is left of a record, where it is wanted and there is any.
pub open spec fn wanted_rest(wanted: bool, rest: Seq<u8>) -> Option<Seq<u8>> {
    if wanted && rest.len() > 0 {
        Some(rest)
    } else {
        None
    }
}

/// The metadata record that UHeap insert data `main` stands for.
pub open spec fn uheap_insert_metadata(main: Seq<u8>, xl_info: u8) -> Result<
    Option<MetadataView>,
    DecodeError,
> {
    let has_tuple = xl_info & XLOG_UHEAP_INIT_PAGE != 0;
    if main.len() < 4 {
        Err(DecodeError::UHeapInsertTooShort)
    } else {
        Ok(
            Some(
                MetadataView::UHeap(
                    UHeapView::Insert(
                        UHeapInsertView {
                            offnum: u16_at(main, 0),
                            flags: main[2],
                            has_tuple,
                            tuple_data: wanted_rest(has_tuple, main.skip(4)),
                        },
                    ),
                ),
            ),
        )
    }
}

/// The metadata record that UHeap delete data `main` stands for. The fixed part
/// takes eleven bytes, though twelve have to be there.
pub open spec fn uheap_delete_metadata(main: Seq<u8>) -> Result<
    Option<MetadataView>,
    DecodeError,
> {
    let has_undo_tuple = main[7] & XLZ_HAS_DELETE_UNDOTUPLE != 0;
    if main.len() < 12 {
        Err(DecodeError::UHeapDeleteTooShort)
    } else {
        Ok(
            Some(
                MetadataView::UHeap(
                    UHeapView::Delete(
                        UHeapDeleteView {
                            oldxid: u32_at(main, 0),
                            offnum: u16_at(main, 4),
                            td_id: main[6],
                            flag: main[7],
                            has_undo_tuple,
                            undo_tuple: wanted_rest(has_undo_tuple, main.skip(11)),
                        },
                    ),
                ),
            ),
        )
    }
}

/// The metadata record that UHeap update data `main` stands for.
pub open spec fn uheap_update_metadata(main: Seq<u8>, xl_info: u8) -> Result<
    Option<MetadataView>,
    DecodeError,
> {
    let has_old_tuple = main[11] & XLZ_UPDATE_PREFIX_FROM_OLD != 0;
    let has_new_tuple = xl_info & XLOG_UHEAP_INIT_PAGE != 0;
    if main.len() < 12 {
        Err(DecodeError::UHeapUpdateTooShort)
    } else {
        Ok(
            Some(
                MetadataView::UHeap(
                    UHeapView::Update(
                        UHeapUpdateView {
                            oldxid: u32_at(main, 0),
                            old_offnum: u16_at(main, 4),
                            old_tuple_flag: u16_at(main, 6),
                            new_offnum: u16_at(main, 8),
                            old_tuple_td_id: main[10],
                            flags: main[11],
                            has_old_tuple,
                            has_new_tuple,
                            old_tuple: wanted_rest(has_old_tuple, main.skip(12)),
                            new_tuple: wanted_rest(has_new_tuple, main.skip(12)),
                        },
                    ),
                ),
            ),
        )
    }
}

/// The metadata record that UHeap freeze data `main` stands for.
pub open spec fn uheap_freeze_td_slot_metadata(main: Seq<u8>) -> Result<
    Option<MetadataView>,
    DecodeError,
> {
    if main.len() < 12 {
        Err(DecodeError::UHeapFreezeTdSlotTooShort)
    } else {
        Ok(
            Some(
                MetadataView::UHeap(
                    UHeapView::FreezeTdSlot(
                        UHeapFreezeTdSlotRecord {
                            latest_frozen_xid: u32_at(main, 0),
                            n_frozen: u16_at(main, 4),
                        },
                    ),
                ),
            ),
        )
    }
}

/// The 16-bit numbers that `s` holds; an odd last byte belongs to none.
pub open spec fn u16s_in(s: Seq<u8>) -> Seq<u16> {
    Seq::new(s.len() / 2, |i: int| u16_at(s, 2 * i))
}

/// The metadata record that UHeap clean data `main` stands for.
pub open spec fn uheap_clean_metadata(main: Seq<u8>) -> Result<Option<MetadataView>, DecodeError> {
    if main.len() < 12 {
        Err(DecodeError::UHeapCleanTooShort)
    } else {
        Ok(
            Some(
                MetadataView::UHeap(
                    UHeapView::Clean(
                        UHeapCleanView {
                            latest_removed_xid: u32_at(main, 0),
                            ndeleted: u16_at(main, 4),
                            ndead: u16_at(main, 6),
                            flags: main[8],
                            offsets: u16s_in(main.skip(12)),
                        },
                    ),
                ),
            ),
        )
    }
}

/// What is left of UHeap clean data `main`: an odd last byte at most.
pub open spec fn uheap_clean_rest(main: Seq<u8>) -> Seq<u8> {
    if main.len() < 12 {
        main
    } else {
        main.skip(12 + 2 * ((main.len() - 12) / 2))
    }
}

/// The tuple that `s` starts with: thirteen bytes, then its data.
pub open spec fn front_tuple(s: Seq<u8>) -> UHeapTupleView {
    UHeapTupleView {
        datalen: i32_at(s, 0),
        xid: u16_at(s, 4),
        td_id: s[6],
        locker_td_id: s[7],
        flag: u16_at(s, 8),
        flag2: u16_at(s, 10),
        t_hoff: s[12],
        data: s.subrange(13, 13 + i32_at(s, 0)),
    }
}

/// Why `s` does not start with a tuple, where it does not.
pub open spec fn front_tuple_error(s: Seq<u8>) -> Option<DecodeError> {
    if s.len() < 12 {
        Some(DecodeError::UHeapMultiInsertTupleTooShort)
    } else if i32_at(s, 0) < 0 || s.len() - 13 < i32_at(s, 0) {
        Some(DecodeError::UHeapMultiInsertTupleLengthMismatch)
    } else {
        None
    }
}

/// What follows the tuple that `s` starts with.
pub open spec fn after_front_tuple(s: Seq<u8>) -> Seq<u8> {
    s.skip(13 + i32_at(s, 0))
}

/// The `n` tuples that `s` starts with, or the error of the first of them that
/// is not there.
pub open spec fn tuples_in(s: Seq<u8>, n: nat) -> Result<Seq<UHeapTupleView>, DecodeError>
    decreases n,
{
    if n == 0 {
        Ok(Seq::empty())
    } else {
        match front_tuple_error(s) {
            Some(e) => Err(e),
            None => prepend(seq![front_tuple(s)], tuples_in(after_front_tuple(s), (n - 1) as nat)),
        }
    }
}

/// `rest` with the tuples of `first` in front.
pub open spec fn prepend(
    first: Seq<UHeapTupleView>,
    rest: Result<Seq<UHeapTupleView>, DecodeError>,
) -> Result<Seq<UHeapTupleView>, DecodeError> {
    match rest {
        Ok(ts) => Ok(first + ts),
        Err(e) => Err(e),
    }
}

/// What is left of `s` once `n` tuples have been taken, or as many as are
/// there. A tuple whose data is too short loses its first thirteen bytes.
pub open spec fn after_tuples(s: Seq<u8>, n: nat) -> Seq<u8>
    decreases n,
{
    if n == 0 || s.len() < 12 {
        s
    } else if front_tuple_error(s) is Some {
        s.skip(13)
    } else {
        after_tuples(after_front_tuple(s), (n - 1) as nat)
    }
}

/// Whether `n` tuples can be taken from `s`: nowhere on the way are exactly
/// twelve bytes left, enough to start a tuple and one too few to read its
/// header.
pub open spec fn tuples_readable(s: Seq<u8>, n: nat) -> bool
    decreases n,
{
    n == 0 || {
        &&& s.len() != 12
        &&& front_tuple_error(s) is None ==> tuples_readable(after_front_tuple(s), (n - 1) as nat)
    }
}

/// How many tuples a count stands for: a negative one stands for none.
pub open spec fn tuple_count(ntuples: i32) -> nat {
    if ntuples < 0 {
        0
    } else {
        ntuples as nat
    }
}

/// The metadata record that UHeap multi-insert data `main` stands for.
pub open spec fn uheap_multi_insert_metadata(main: Seq<u8>) -> Result<
    Option<MetadataView>,
    DecodeError,
> {
    if main.len() < 5 {
        Err(DecodeError::UHeapMultiInsertTooShort)
    } else {
        match tuples_in(main.skip(5), tuple_count(i32_at(main, 0))) {
            Err(e) => Err(e),
            Ok(tuples) => Ok(
                Some(
                    MetadataView::UHeap(
                        UHeapView::MultiInsert(
                            UHeapMultiInsertView {
                                ntuples: i32_at(main, 0),
                                flags: main[4],
                                tuples,
                            },
                        ),
                    ),
                ),
            ),
        }
    }
}

/// What is left of UHeap multi-insert data `main`.
pub open spec fn uheap_multi_insert_rest(main: Seq<u8>) -> Seq<u8> {
    if main.len() < 5 {
        main
    } else {
        after_tuples(main.skip(5), tuple_count(i32_at(main, 0)))
    }
}

/// Whether UHeap multi-insert data `main` can be read.
pub open spec fn uheap_multi_insert_ok(main: Seq<u8>) -> bool {
    main.len() < 5 || tuples_readable(main.skip(5), tuple_count(i32_at(main, 0)))
}

/// The metadata record that a UHeap record stands for.
pub open spec fn uheap_metadata(main: Seq<u8>, xl_info: u8) -> Result<
    Option<MetadataView>,
    DecodeError,
> {
    let op = xl_info & XLOG_UHEAP_OPMASK;
    if op == XLOG_UHEAP_INSERT {
        uheap_insert_metadata(main, xl_info)
    } else if op == XLOG_UHEAP_DELETE {
        uheap_delete_metadata(main)
    } else if op == XLOG_UHEAP_UPDATE {
        uheap_update_metadata(main, xl_info)
    } else if op == XLOG_UHEAP_FREEZE_TD_SLOT {
        uheap_freeze_td_slot_metadata(main)
    } else if op == XLOG_UHEAP_INVALID_TD_SLOT {
        Ok(Some(MetadataView::UHeap(UHeapView::InvalidTdSlot(DataView { data: main }))))
    } else if op == XLOG_UHEAP_CLEAN {
        uheap_clean_metadata(main)
    } else if op == XLOG_UHEAP_MULTI_INSERT {
        uheap_multi_insert_metadata(main)
    } else if op == XLOG_UHEAP_NEW_PAGE {
        Ok(Some(MetadataView::UHeap(UHeapView::NewPage(DataView { data: main }))))
    } else {
        Ok(
            Some(
                MetadataView::UHeap(
                    UHeapView::Generic(
                        GenericView { info: xl_info & XLR_RMGR_INFO_MASK, buf: main },
                    ),
                ),
            ),
        )
    }
}

/// What is left of the main data of a UHeap record.
pub open spec fn uheap_rest(main: Seq<u8>, xl_info: u8) -> Seq<u8> {
    let op = xl_info & XLOG_UHEAP_OPMASK;
    if op == XLOG_UHEAP_INSERT {
        after_fixed(main, 4, 4)
    } else if op == XLOG_UHEAP_DELETE {
        after_fixed(main, 12, 11)
    } else if op == XLOG_UHEAP_UPDATE {
        after_fixed(main, 12, 12)
    } else if op == XLOG_UHEAP_FREEZE_TD_SLOT {
        after_fixed(main, 12, 12)
    } else if op == XLOG_UHEAP_CLEAN {
        uheap_clean_rest(main)
    } else if op == XLOG_UHEAP_MULTI_INSERT {
        uheap_multi_insert_rest(main)
    } else {
        main
    }
}

/// Whether the main data of a UHeap record can be read. Of all the records only
/// a multi-insert can hold data that cannot.
pub open spec fn uheap_ok(main: Seq<u8>, xl_info: u8) -> bool {
    xl_info & XLOG_UHEAP_OPMASK == XLOG_UHEAP_MULTI_INSERT ==> uheap_multi_insert_ok(main)
}

/// The metadata record that UHeap2 base shift data `main` stands for.
pub open spec fn uheap2_base_shift_metadata(main: Seq<u8>) -> Result<
    Option<MetadataView>,
    DecodeError,
> {
    if main.len() < 9 {
        Err(DecodeError::UHeap2BaseShiftTooShort)
    } else {
        Ok(
            Some(
                MetadataView::UHeap2(
                    UHeap2View::BaseShift(
                        UHeap2BaseShiftRecord { multi: main[0] != 0, delta: i64_at(main, 1) },
                    ),
                ),
            ),
        )
    }
}

/// The metadata record that UHeap2 freeze data `main` stands for.
pub open spec fn uheap2_freeze_metadata(main: Seq<u8>) -> Result<
    Option<MetadataView>,
    DecodeError,
> {
    if main.len() < 4 {
        Err(DecodeError::UHeap2FreezeTooShort)
    } else {
        Ok(
            Some(
                MetadataView::UHeap2(
                    UHeap2View::Freeze(UHeap2FreezeRecord { cutoff_xid: u32_at(main, 0) }),
                ),
            ),
        )
    }
}

/// The metadata record that UHeap2 slot extension data `main` stands for.
pub open spec fn uheap2_extend_td_slots_metadata(main: Seq<u8>) -> Result<
    Option<MetadataView>,
    DecodeError,
> {
    if main.len() < 2 {
        Err(DecodeError::UHeap2ExtendTdSlotsTooShort)
    } else {
        Ok(
            Some(
                MetadataView::UHeap2(
                    UHeap2View::ExtendTdSlots(
                        UHeap2ExtendTdSlotsRecord { n_prev_slots: main[0], n_extended: main[1] },
                    ),
                ),
            ),
        )
    }
}

/// The metadata record that a UHeap2 record stands for.
pub open spec fn uheap2_metadata(main: Seq<u8>, xl_info: u8) -> Result<
    Option<MetadataView>,
    DecodeError,
> {
    let op = xl_info & XLOG_UHEAP2_OPMASK;
    if op == XLOG_UHEAP2_BASE_SHIFT {
        uheap2_base_shift_metadata(main)
    } else if op == XLOG_UHEAP2_FREEZE {
        uheap2_freeze_metadata(main)
    } else if op == XLOG_UHEAP2_EXTEND_TD_SLOTS {
        uheap2_extend_td_slots_metadata(main)
    } else {
        Ok(
            Some(
                MetadataView::UHeap2(
                    UHeap2View::Generic(
                        GenericView { info: xl_info & XLR_RMGR_INFO_MASK, buf: main },
                    ),
                ),
            ),
        )
    }
}

/// What is left of the main data of a UHeap2 record.
pub open spec fn uheap2_rest(main: Seq<u8>, xl_info: u8) -> Seq<u8> {
    let op = xl_info & XLOG_UHEAP2_OPMASK;
    if op == XLOG_UHEAP2_BASE_SHIFT {
        after_fixed(main, 9, 9)
    } else if op == XLOG_UHEAP2_FREEZE {
        after_fixed(main, 4, 4)
    } else if op == XLOG_UHEAP2_EXTEND_TD_SLOTS {
        after_fixed(main, 2, 2)
    } else {
        main
    }
}

/// Takes a handle on what is left of a record, where it is wanted and there is
/// any.
fn clone_wanted(wanted: bool, buf: &Bytes) -> (b: Option<Bytes>)
    ensures
        opt_contents(b) == wanted_rest(wanted, contents(*buf)),
{
    if wanted && remaining(buf) > 0 {
        Some(clone_bytes(buf))
    } else {
        None
    }
}

impl MetadataRecord {
    /// Decodes a UHeap insert: offset (2 bytes), flags (1), padding (1), then
    /// the tuple.
    pub fn decode_uheap_insert(buf: &mut Bytes, decoded: &DecodedWALRecord) -> (res: Result<
        Option<MetadataRecord>,
        DecodeError,
    >)
        ensures
            res_view(res) == uheap_insert_metadata(contents(*old(buf)), decoded.xl_info),
            contents(*final(buf)) == after_fixed(contents(*old(buf)), 4, 4),
    {
        if remaining(buf) < 4 {
            return Err(DecodeError::UHeapInsertTooShort);
        }
        let offnum = get_u16_le(buf);
        let flags = get_u8(buf);
        let _padding = get_u8(buf);
        assert(contents(*buf) =~= contents(*old(buf)).skip(4));

        // Whether the record holds the tuple.
        let has_tuple = decoded.xl_info & XLOG_UHEAP_INIT_PAGE != 0;
        let tuple_data = clone_wanted(has_tuple, buf);
        Ok(
            Some(
                MetadataRecord::UHeap(
                    UHeapRecord::Insert(
                        UHeapInsertRecord { offnum, flags, has_tuple, tuple_data },
                    ),
                ),
            ),
        )
    }

    /// Decodes a UHeap delete: old transaction (4 bytes), offset (2),
    /// transaction slot (1), flag (1), padding (3), then the undo tuple.
    pub fn decode_uheap_delete(buf: &mut Bytes, _decoded: &DecodedWALRecord) -> (res: Result<
        Option<MetadataRecord>,
        DecodeError,
    >)
        ensures
            res_view(res) == uheap_delete_metadata(contents(*old(buf))),
            contents(*final(buf)) == after_fixed(contents(*old(buf)), 12, 11),
    {
        if remaining(buf) < 12 {
            return Err(DecodeError::UHeapDeleteTooShort);
        }
        let oldxid = get_u32_le(buf);
        let offnum = get_u16_le(buf);
        let td_id = get_u8(buf);
        let flag = get_u8(buf);
        let _padding = get_uint_le(buf, 3);
        assert(contents(*buf) =~= contents(*old(buf)).skip(11));

        // Whether the record holds the undo tuple.
        let has_undo_tuple = flag & XLZ_HAS_DELETE_UNDOTUPLE != 0;
        let undo_tuple = clone_wanted(has_undo_tuple, buf);
        Ok(
            Some(
                MetadataRecord::UHeap(
                    UHeapRecord::Delete(
                        UHeapDeleteRecord {
                            oldxid,
                            offnum,
                            td_id,
                            flag,
                            has_undo_tuple,
                            undo_tuple,
                        },
                    ),
                ),
            ),
        )
    }

    /// Decodes a UHeap update: old transaction (4 bytes), old offset (2), flag
    /// of the old tuple (2), new offset (2), transaction slot of the old tuple
    /// (1), flags (1), then the tuples.
    pub fn decode_uheap_update(buf: &mut Bytes, decoded: &DecodedWALRecord) -> (res: Result<
        Option<MetadataRecord>,
        DecodeError,
    >)
        ensures
            res_view(res) == uheap_update_metadata(contents(*old(buf)), decoded.xl_info),
            contents(*final(buf)) == after_fixed(contents(*old(buf)), 12, 12),
    {
        if remaining(buf) < 12 {
            return Err(DecodeError::UHeapUpdateTooShort);
        }
        let oldxid = get_u32_le(buf);
        let old_offnum = get_u16_le(buf);
        let old_tuple_flag = get_u16_le(buf);
        let new_offnum = get_u16_le(buf);
        let old_tuple_td_id = get_u8(buf);
        let flags = get_u8(buf);
        assert(contents(*buf) =~= contents(*old(buf)).skip(12));

        let has_old_tuple = flags & XLZ_UPDATE_PREFIX_FROM_OLD != 0;
        let has_new_tuple = decoded.xl_info & XLOG_UHEAP_INIT_PAGE != 0;
        let old_tuple = clone_wanted(has_old_tuple, buf);
        let new_tuple = clone_wanted(has_new_tuple, buf);
        Ok(
            Some(
                MetadataRecord::UHeap(
                    UHeapRecord::Update(
                        UHeapUpdateRecord {
                            oldxid,
                            old_offnum,
                            old_tuple_flag,
                            new_offnum,
                            old_tuple_td_id,
                            flags,
                            has_old_tuple,
                            has_new_tuple,
                            old_tuple,
                            new_tuple,
                        },
                    ),
                ),
            ),
        )
    }

    /// Decodes a UHeap freeze of transaction slots: latest frozen transaction
    /// (4 bytes), number of slots (2), padding (6).
    pub fn decode_uheap_freeze_td_slot(
        buf: &mut Bytes,
        _decoded: &DecodedWALRecord,
    ) -> (res: Result<Option<MetadataRecord>, DecodeError>)
        ensures
            res_view(res) == uheap_freeze_td_slot_metadata(contents(*old(buf))),
            contents(*final(buf)) == after_fixed(contents(*old(buf)), 12, 12),
    {
        if remaining(buf) < 12 {
            return Err(DecodeError::UHeapFreezeTdSlotTooShort);
        }
        let latest_frozen_xid = get_u32_le(buf);
        let n_frozen = get_u16_le(buf);
        let _padding = get_uint_le(buf, 6);
        Ok(
            Some(
                MetadataRecord::UHeap(
                    UHeapRecord::FreezeTdSlot(
                        UHeapFreezeTdSlotRecord { latest_frozen_xid, n_frozen },
                    ),
                ),
            ),
        )
    }

    /// Decodes a UHeap invalidation of transaction slots, which is kept whole.
    pub fn decode_uheap_invalid_td_slot(
        buf: &mut Bytes,
        _decoded: &DecodedWALRecord,
    ) -> (res: Result<Option<MetadataRecord>, DecodeError>)
        ensures
            res_view(res) == Ok::<Option<MetadataView>, DecodeError>(
                Some(
                    MetadataView::UHeap(
                        UHeapView::InvalidTdSlot((DataView { data: contents(*old(buf)) })),
                    ),
                ),
            ),
            contents(*final(buf)) == contents(*old(buf)),
    {
        let data = clone_bytes(buf);
        Ok(
            Some(
                MetadataRecord::UHeap(
                    UHeapRecord::InvalidTdSlot(UHeapInvalidTdSlotRecord { data }),
                ),
            ),
        )
    }

    /// Decodes a UHeap clean: latest removed transaction (4 bytes), number of
    /// deleted (2) and of dead (2) tuples, flags (1), padding (3), then offsets
    /// (2 each).
    pub fn decode_uheap_clean(buf: &mut Bytes, _decoded: &DecodedWALRecord) -> (res: Result<
        Option<MetadataRecord>,
        DecodeError,
    >)
        ensures
            res_view(res) == uheap_clean_metadata(contents(*old(buf))),
            contents(*final(buf)) == uheap_clean_rest(contents(*old(buf))),
    {
        if remaining(buf) < 12 {
            return Err(DecodeError::UHeapCleanTooShort);
        }
        let ghost main = contents(*buf);
        let latest_removed_xid = get_u32_le(buf);
        let ndeleted = get_u16_le(buf);
        let ndead = get_u16_le(buf);
        let flags = get_u8(buf);
        let _padding = get_uint_le(buf, 3);

        let mut offsets: Vec<u16> = Vec::new();
        assert(contents(*buf) =~= main.skip(12));
        while remaining(buf) >= 2
            invariant
                main.len() >= 12,
                12 + 2 * offsets@.len() <= main.len(),
                contents(*buf) == main.skip(12 + 2 * (offsets@.len() as int)),
                forall|i: int|
                    0 <= i < offsets@.len() ==> #[trigger] offsets@[i] == u16_at(
                        main.skip(12),
                        2 * i,
                    ),
            decreases contents(*buf).len(),
        {
            let offset = get_u16_le(buf);
            offsets.push(offset);
            assert(contents(*buf) =~= main.skip(12 + 2 * (offsets@.len() as int)));
        }
        assert(offsets@ =~= u16s_in(main.skip(12)));
        Ok(
            Some(
                MetadataRecord::UHeap(
                    UHeapRecord::Clean(
                        UHeapCleanRecord { latest_removed_xid, ndeleted, ndead, flags, offsets },
                    ),
                ),
            ),
        )
    }

    /// Decodes a UHeap multi-insert: number of tuples (4 bytes), flags (1),
    /// then the tuples.
    pub fn decode_uheap_multi_insert(buf: &mut Bytes, _decoded: &DecodedWALRecord) -> (res: Result<
        Option<MetadataRecord>,
        DecodeError,
    >)
        requires
            uheap_multi_insert_ok(contents(*old(buf))),
        ensures
            res_view(res) == uheap_multi_insert_metadata(contents(*old(buf))),
            contents(*final(buf)) == uheap_multi_insert_rest(contents(*old(buf))),
    {
        if remaining(buf) < 5 {
            return Err(DecodeError::UHeapMultiInsertTooShort);
        }
        let ghost main = contents(*buf);
        let ntuples = get_i32_le(buf);
        let flags = get_u8(buf);
        let ghost n = tuple_count(ntuples);
        let ghost body = main.skip(5);
        assert(contents(*buf) =~= body);

        let mut tuples: Vec<UHeapTupleData> = Vec::new();
        let mut i: i32 = 0;
        proof {
            lemma_prepend_nothing(tuples_view(tuples@), tuples_in(body, n));
        }
        while i < ntuples
            invariant
                n == tuple_count(ntuples),
                0 <= i,
                i <= n,
                tuples_readable(contents(*buf), (n - i) as nat),
                tuples_in(body, n) == prepend(
                    tuples_view(tuples@),
                    tuples_in(contents(*buf), (n - i) as nat),
                ),
                after_tuples(body, n) == after_tuples(contents(*buf), (n - i) as nat),
                body == main.skip(5),
                main == contents(*old(buf)),
                main.len() >= 5,
                ntuples == i32_at(main, 0),
            decreases n - i,
        {
            let ghost s = contents(*buf);
            if remaining(buf) < 12 {
                return Err(DecodeError::UHeapMultiInsertTupleTooShort);
            }
            let datalen = get_i32_le(buf);
            let xid = get_u16_le(buf);
            let td_id_locker_td_id = get_u16_le(buf);
            let td_id = (td_id_locker_td_id & 0xFF) as u8;
            let locker_td_id = ((td_id_locker_td_id >> 8) & 0xFF) as u8;
            let flag = get_u16_le(buf);
            let flag2 = get_u16_le(buf);
            let t_hoff = get_u8(buf);
            assert(contents(*buf) =~= s.skip(13));
            proof {
                lemma_two_bytes(td_id_locker_td_id, s[6], s[7]);
            }

            if datalen < 0 || remaining(buf) < datalen as usize {
                return Err(DecodeError::UHeapMultiInsertTupleLengthMismatch);
            }
            let data = into_vec(split_to(buf, datalen as usize));
            let tuple = UHeapTupleData {
                datalen,
                xid,
                td_id,
                locker_td_id,
                flag,
                flag2,
                t_hoff,
                data,
            };
            assert(tuple@ =~= front_tuple(s));
            assert(contents(*buf) =~= after_front_tuple(s));
            let ghost before = tuples@;
            tuples.push(tuple);
            proof {
                lemma_prepend_again(
                    tuples_view(before),
                    front_tuple(s),
                    tuples_in(contents(*buf), (n - i - 1) as nat),
                );
                assert(tuples_view(tuples@) =~= tuples_view(before) + seq![front_tuple(s)]);
            }
            i = i + 1;
        }
        assert(tuples_in(body, n)->Ok_0 =~= tuples_view(tuples@));
        Ok(
            Some(
                MetadataRecord::UHeap(
                    UHeapRecord::MultiInsert(UHeapMultiInsertRecord { ntuples, flags, tuples }),
                ),
            ),
        )
    }

    /// Decodes a UHeap page initialisation, which is kept whole.
    pub fn decode_uheap_new_page(buf: &mut Bytes, _decoded: &DecodedWALRecord) -> (res: Result<
        Option<MetadataRecord>,
        DecodeError,
    >)
        ensures
            res_view(res) == Ok::<Option<MetadataView>, DecodeError>(
                Some(
                    MetadataView::UHeap(
                        UHeapView::NewPage((DataView { data: contents(*old(buf)) })),
                    ),
                ),
            ),
            contents(*final(buf)) == contents(*old(buf)),
    {
        let data = clone_bytes(buf);
        Ok(Some(MetadataRecord::UHeap(UHeapRecord::NewPage(UHeapNewPageRecord { data }))))
    }

    /// Decodes a UHeap record.
    pub fn decode_uheap_record(
        buf: &mut Bytes,
        decoded: &DecodedWALRecord,
        _pg_version: PgMajorVersion,
    ) -> (res: Result<Option<MetadataRecord>, DecodeError>)
        requires
            uheap_ok(contents(*old(buf)), decoded.xl_info),
        ensures
            res_view(res) == uheap_metadata(contents(*old(buf)), decoded.xl_info),
            contents(*final(buf)) == uheap_rest(contents(*old(buf)), decoded.xl_info),
    {
        let info = decoded.xl_info & XLR_RMGR_INFO_MASK;
        let op = decoded.xl_info & XLOG_UHEAP_OPMASK;
        if op == XLOG_UHEAP_INSERT {
            Self::decode_uheap_insert(buf, decoded)
        } else if op == XLOG_UHEAP_DELETE {
            Self::decode_uheap_delete(buf, decoded)
        } else if op == XLOG_UHEAP_UPDATE {
            Self::decode_uheap_update(buf, decoded)
        } else if op == XLOG_UHEAP_FREEZE_TD_SLOT {
            Self::decode_uheap_freeze_td_slot(buf, decoded)
        } else if op == XLOG_UHEAP_INVALID_TD_SLOT {
            Self::decode_uheap_invalid_td_slot(buf, decoded)
        } else if op == XLOG_UHEAP_CLEAN {
            Self::decode_uheap_clean(buf, decoded)
        } else if op == XLOG_UHEAP_MULTI_INSERT {
            Self::decode_uheap_multi_insert(buf, decoded)
        } else if op == XLOG_UHEAP_NEW_PAGE {
            Self::decode_uheap_new_page(buf, decoded)
        } else {
            let rest = clone_bytes(buf);
            Ok(
                Some(
                    MetadataRecord::UHeap(
                        UHeapRecord::Generic(UHeapGenericRecord { info, buf: rest }),
                    ),
                ),
            )
        }
    }

    /// Decodes a UHeap2 record.
    pub fn decode_uheap2_record(
        buf: &mut Bytes,
        decoded: &DecodedWALRecord,
        _pg_version: PgMajorVersion,
    ) -> (res: Result<Option<MetadataRecord>, DecodeError>)
        ensures
            res_view(res) == uheap2_metadata(contents(*old(buf)), decoded.xl_info),
            contents(*final(buf)) == uheap2_rest(contents(*old(buf)), decoded.xl_info),
    {
        let info = decoded.xl_info & XLR_RMGR_INFO_MASK;
        let op = decoded.xl_info & XLOG_UHEAP2_OPMASK;
        if op == XLOG_UHEAP2_BASE_SHIFT {
            Self::decode_uheap2_base_shift(buf, decoded)
        } else if op == XLOG_UHEAP2_FREEZE {
            Self::decode_uheap2_freeze(buf, decoded)
        } else if op == XLOG_UHEAP2_EXTEND_TD_SLOTS {
            Self::decode_uheap2_extend_td_slots(buf, decoded)
        } else {
            let rest = clone_bytes(buf);
            Ok(
                Some(
                    MetadataRecord::UHeap2(
                        UHeap2Record::Generic(UHeap2GenericRecord { info, buf: rest }),
                    ),
                ),
            )
        }
    }

    /// Decodes a UHeap2 base shift: whether it is of multixacts (1 byte), the
    /// shift (8).
    pub fn decode_uheap2_base_shift(buf: &mut Bytes, _decoded: &DecodedWALRecord) -> (res: Result<
        Option<MetadataRecord>,
        DecodeError,
    >)
        ensures
            res_view(res) == uheap2_base_shift_metadata(contents(*old(buf))),
            contents(*final(buf)) == after_fixed(contents(*old(buf)), 9, 9),
    {
        if remaining(buf) < 9 {
            return Err(DecodeError::UHeap2BaseShiftTooShort);
        }
        let multi = get_u8(buf) != 0;
        let delta = get_i64_le(buf);
        Ok(
            Some(
                MetadataRecord::UHeap2(
                    UHeap2Record::BaseShift(UHeap2BaseShiftRecord { multi, delta }),
                ),
            ),
        )
    }

    /// Decodes a UHeap2 freeze: the cutoff transaction (4 bytes).
    pub fn decode_uheap2_freeze(buf: &mut Bytes, _decoded: &DecodedWALRecord) -> (res: Result<
        Option<MetadataRecord>,
        DecodeError,
    >)
        ensures
            res_view(res) == uheap2_freeze_metadata(contents(*old(buf))),
            contents(*final(buf)) == after_fixed(contents(*old(buf)), 4, 4),
    {
        if remaining(buf) < 4 {
            return Err(DecodeError::UHeap2FreezeTooShort);
        }
        let cutoff_xid = get_u32_le(buf);
        Ok(Some(MetadataRecord::UHeap2(UHeap2Record::Freeze(UHeap2FreezeRecord { cutoff_xid }))))
    }

    /// Decodes a UHeap2 extension of transaction slots: number of slots before
    /// (1 byte) and added (1).
    pub fn decode_uheap2_extend_td_slots(
        buf: &mut Bytes,
        _decoded: &DecodedWALRecord,
    ) -> (res: Result<Option<MetadataRecord>, DecodeError>)
        ensures
            res_view(res) == uheap2_extend_td_slots_metadata(contents(*old(buf))),
            contents(*final(buf)) == after_fixed(contents(*old(buf)), 2, 2),
    {
        if remaining(buf) < 2 {
            return Err(DecodeError::UHeap2ExtendTdSlotsTooShort);
        }
        let n_prev_slots = get_u8(buf);
        let n_extended = get_u8(buf);
        Ok(
            Some(
                MetadataRecord::UHeap2(
                    UHeap2Record::ExtendTdSlots(
                        UHeap2ExtendTdSlotsRecord { n_prev_slots, n_extended },
                    ),
                ),
            ),
        )
    }
}

/// The low and the high byte of a 16-bit number.
proof fn lemma_two_bytes(v: u16, low: u8, high: u8)
    requires
        v == low + 0x100 * high,
    ensures
        (v & 0xFF) as u8 == low,
        ((v >> 8) & 0xFF) as u8 == high,
{
    assert((v & 0xFF) as u8 == v % 0x100) by (bit_vector);
    assert(((v >> 8) & 0xFF) as u8 == v / 0x100) by (bit_vector);
}

proof fn lemma_prepend_nothing(
    none: Seq<UHeapTupleView>,
    rest: Result<Seq<UHeapTupleView>, DecodeError>,
)
    requires
        none.len() == 0,
    ensures
        prepend(none, rest) == rest,
{
    if rest is Ok {
        assert(none + rest->Ok_0 =~= rest->Ok_0);
    }
}

proof fn lemma_prepend_again(
    first: Seq<UHeapTupleView>,
    next: UHeapTupleView,
    rest: Result<Seq<UHeapTupleView>, DecodeError>,
)
    ensures
        prepend(first, prepend(seq![next], rest)) == prepend(first + seq![next], rest),
{
    if rest is Ok {
        assert(first + (seq![next] + rest->Ok_0) =~= (first + seq![next]) + rest->Ok_0);
    }
}

/// Tells whether [`uheap_ok`] holds of the main data in `buf`.
pub(crate) fn check_uheap(buf: &Bytes, xl_info: u8) -> (ok: bool)
    ensures
        ok == uheap_ok(contents(*buf), xl_info),
{
    if xl_info & XLOG_UHEAP_OPMASK != XLOG_UHEAP_MULTI_INSERT || remaining(buf) < 5 {
        return true;
    }
    let mut rest = clone_bytes(buf);
    let ntuples = get_i32_le(&mut rest);
    let _flags = get_u8(&mut rest);
    let ghost n = tuple_count(ntuples);
    assert(contents(rest) =~= contents(*buf).skip(5));
    let mut i: i32 = 0;
    while i < ntuples
        invariant
            n == tuple_count(ntuples),
            0 <= i,
            i <= n,
            tuples_readable(contents(*buf).skip(5), n) == tuples_readable(
                contents(rest),
                (n - i) as nat,
            ),
            contents(*buf).len() >= 5,
            ntuples == i32_at(contents(*buf), 0),
            xl_info & XLOG_UHEAP_OPMASK == XLOG_UHEAP_MULTI_INSERT,
        decreases n - i,
    {
        let ghost s = contents(rest);
        let left = remaining(&rest);
        if left < 13 {
            return left != 12;
        }
        let datalen = get_i32_le(&mut rest);
        if datalen < 0 || left - 13 < datalen as usize {
            return true;
        }
        advance(&mut rest, 9 + datalen as usize);
        assert(contents(rest) =~= after_front_tuple(s));
        i = i + 1;
    }
    true
}

} // verus!
