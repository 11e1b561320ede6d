//! Undo records and records that are kept whole, by the bytes of their main
//! data.

use crate::bytebuf::contents;
use crate::error::DecodeError;
use crate::laws::calls::Decoding;
use crate::laws::numbers::{
    lemma_info_bits, lemma_numbers, middle2, number, signed, upper4,
};
use crate::records::{
    MetadataRecord, SegpageRecord, UHeapBtree2Record, UHeapBtree3Record, UHeapBtree4Record,
    UHeapBtreeRecord, UHeapUndoRecord, UndoActionRecord, UndoLogRecord,
};
use crate::undo::uheapundo_rest;
use bytes::Bytes;
use vstd::prelude::*;

verus! {

/// Whether info and bytes are those of the record: its type in its place in the
/// info byte, and its main data.
pub open spec fn keeps_all(c: Decoding, info: u8, buf: Bytes) -> bool {
    &&& info == 16 * upper4(c.info())
    &&& contents(buf) == c.data()
}

/// Undo log, undo action, index and segment records keep their type and all of
/// their main data, each under its own name.
pub proof fn law_records_kept_whole(c: Decoding)
    requires
        c.holds(),
    ensures
        c.rmid() == 30 ==> (c.res matches Ok(
            Some(MetadataRecord::UndoLog(UndoLogRecord::Generic(r))),
        ) && keeps_all(c, r.info, r.buf)),
        c.rmid() == 32 ==> (c.res matches Ok(
            Some(MetadataRecord::UndoAction(UndoActionRecord::Generic(r))),
        ) && keeps_all(c, r.info, r.buf)),
        c.rmid() == 33 ==> (c.res matches Ok(
            Some(MetadataRecord::UHeapBtree(UHeapBtreeRecord::Generic(r))),
        ) && keeps_all(c, r.info, r.buf)),
        c.rmid() == 34 ==> (c.res matches Ok(
            Some(MetadataRecord::UHeapBtree2(UHeapBtree2Record::Generic(r))),
        ) && keeps_all(c, r.info, r.buf)),
        c.rmid() == 35 ==> (c.res matches Ok(
            Some(MetadataRecord::Segpage(SegpageRecord::Generic(r))),
        ) && keeps_all(c, r.info, r.buf)),
        c.rmid() == 40 ==> (c.res matches Ok(
            Some(MetadataRecord::UHeapBtree3(UHeapBtree3Record::Generic(r))),
        ) && keeps_all(c, r.info, r.buf)),
        c.rmid() == 41 ==> (c.res matches Ok(
            Some(MetadataRecord::UHeapBtree4(UHeapBtree4Record::Generic(r))),
        ) && keeps_all(c, r.info, r.buf)),
{
    lemma_info_bits(c.info());
}

/// A UHeap undo record of type 0 keeps its main data, of type 3 its type too.
/// One of type 1 or 2 is refused exactly where it has less than sixteen or six
/// bytes, and else holds the numbers that its bytes make.
pub proof fn law_uheapundo_records(c: Decoding)
    requires
        c.holds(),
        c.rmid() == 31,
    ensures
        ({
            let main = c.data();
            let t = middle2(c.info());
            &&& t == 0 ==> (c.res matches Ok(
                Some(MetadataRecord::UHeapUndo(UHeapUndoRecord::Page(r))),
            ) && contents(r.data) == main)
            &&& t == 1 && main.len() < 16 ==> c.res == Err::<Option<MetadataRecord>, DecodeError>(
                DecodeError::UHeapUndoResetSlotTooShort,
            )
            &&& t == 1 && main.len() >= 16 ==> {
                &&& c.res matches Ok(
                    Some(MetadataRecord::UHeapUndo(UHeapUndoRecord::ResetSlot(r))),
                )
                &&& r.urec_ptr == number(main, 0, 8)
                &&& r.zone_id == signed(number(main, 8, 4), 0x1_0000_0000)
                &&& r.td_slot_id == signed(number(main, 12, 4), 0x1_0000_0000)
            }
            &&& t == 2 && main.len() < 6 ==> c.res == Err::<Option<MetadataRecord>, DecodeError>(
                DecodeError::UHeapUndoAbortSpecInsertTooShort,
            )
            &&& t == 2 && main.len() >= 6 ==> {
                &&& c.res matches Ok(
                    Some(MetadataRecord::UHeapUndo(UHeapUndoRecord::AbortSpecInsert(r))),
                )
                &&& r.offset == number(main, 0, 2)
                &&& r.zone_id == signed(number(main, 2, 4), 0x1_0000_0000)
            }
            &&& t == 3 ==> (c.res matches Ok(
                Some(MetadataRecord::UHeapUndo(UHeapUndoRecord::Generic(r))),
            ) && keeps_all(c, r.info, r.buf))
        }),
{
    lemma_info_bits(c.info());
    lemma_numbers(c.data(), 0);
    lemma_numbers(c.data(), 2);
    lemma_numbers(c.data(), 8);
    lemma_numbers(c.data(), 12);
}

/// What is left of an undo record's main data starts after the bytes that its
/// fields take, where it is long enough, and is all of it otherwise.
pub proof fn law_uheapundo_takes_its_fields(main: Seq<u8>, xl_info: u8)
    ensures
        ({
            let t = middle2(xl_info);
            let taken = if t == 1 && main.len() >= 16 {
                16int
            } else if t == 2 && main.len() >= 6 {
                6
            } else {
                0
            };
            uheapundo_rest(main, xl_info) == main.skip(taken)
        }),
{
    lemma_info_bits(xl_info);
    assert(main.skip(0) =~= main);
}

} // verus!
