//! Heap records and Neon's: which bits of the visibility map they clear, by the
//! bits of their info byte and of their flags.

use crate::bytebuf::contents;
use crate::decode::{complete, needed_kind};
use crate::error::DecodeError;
use crate::heap::heapam_metadata;
use crate::laws::calls::Decoding;
use crate::laws::numbers::{has_bit, lemma_info_bits, middle3};
use crate::records::{ClearVmBits, HeapamRecord, MetadataRecord, NeonrmgrRecord};
use crate::types::{
    DecodedBkpBlock, DecodedWALRecord, PgMajorVersion, RelTag, WalFormat, XlBody, XlKind, XlRecord,
};
use vstd::prelude::*;

verus! {

/// Whether the type of a record is one that touches the visibility map: of the
/// heap (10), of its second resource manager (9) or of Neon (134), which has
/// records from PostgreSQL 16 on.
pub open spec fn touches_map(rmid: u8, info: u8, pg_version: PgMajorVersion) -> bool {
    let t = middle3(info);
    ||| rmid == 10 && (t == 0 || t == 1 || t == 2 || t == 4 || t == 6)
    ||| rmid == 9 && (t == 5 || t == 6)
    ||| rmid == 134 && t <= 5 && (pg_version is PG16 || pg_version is PG17)
}

/// Whether a result is to clear the bits `bits` on the map of the relation of
/// `first`, for these blocks.
pub open spec fn clears(
    c: Decoding,
    old_heap_blkno: Option<u32>,
    new_heap_blkno: Option<u32>,
    first: DecodedBkpBlock,
    bits: u8,
) -> bool {
    let clear = ClearVmBits {
        new_heap_blkno,
        old_heap_blkno,
        vm_rel: RelTag {
            forknum: 2,
            spcnode: first.rnode_spcnode,
            dbnode: first.rnode_dbnode,
            relnode: first.rnode_relnode,
        },
        flags: bits,
    };
    if c.rmid() == 134 {
        c.res == Ok::<Option<MetadataRecord>, DecodeError>(
            Some(MetadataRecord::Neonrmgr(NeonrmgrRecord::ClearVmBits(clear))),
        )
    } else {
        c.res == Ok::<Option<MetadataRecord>, DecodeError>(
            Some(MetadataRecord::Heapam(HeapamRecord::ClearVmBits(clear))),
        )
    }
}

/// Whether a result is that the record stands for nothing.
pub open spec fn is_nothing(c: Decoding) -> bool {
    c.res == Ok::<Option<MetadataRecord>, DecodeError>(None)
}

/// An insert, a multi-insert or a delete clears all bits of the first block
/// exactly where bit 1 of its flags is set, whatever the other bits are.
pub proof fn law_inserts_and_deletes_clear_the_first_block(c: Decoding, flags: u8)
    requires
        c.holds(),
        touches_map(c.rmid(), c.info(), c.pg_version),
        c.xl is Some,
        ({
            ||| c.xl->0.body matches XlBody::HeapInsert(h) && h.flags == flags
            ||| c.xl->0.body matches XlBody::HeapMultiInsert(h) && h.flags == flags
            ||| c.xl->0.body matches XlBody::HeapDelete(h) && h.flags == flags
        }),
    ensures
        has_bit(flags, 1) ==> clears(
            c,
            None,
            Some(c.decoded.blocks@[0].blkno),
            c.decoded.blocks@[0],
            3,
        ),
        !has_bit(flags, 1) ==> is_nothing(c),
{
    lemma_info_bits(c.info());
    lemma_info_bits(flags);
}

/// An update clears all bits of the last block exactly where bit 1 of its flags
/// is set, and of the first exactly where bit 2 is, whatever the other bits are.
pub proof fn law_updates_clear_old_and_new(c: Decoding, flags: u8)
    requires
        c.holds(),
        touches_map(c.rmid(), c.info(), c.pg_version),
        c.xl is Some,
        c.xl->0.body matches XlBody::HeapUpdate(h) && h.flags == flags,
    ensures
        ({
            let blocks = c.decoded.blocks@;
            let old_blk = if has_bit(flags, 1) {
                Some(blocks[blocks.len() - 1].blkno)
            } else {
                None
            };
            let new_blk = if has_bit(flags, 2) {
                Some(blocks[0].blkno)
            } else {
                None
            };
            if has_bit(flags, 1) || has_bit(flags, 2) {
                clears(c, old_blk, new_blk, blocks[0], 3)
            } else {
                is_nothing(c)
            }
        }),
{
    lemma_info_bits(c.info());
    lemma_info_bits(flags);
}

/// A lock clears the all-frozen bit, and no other, of the first block as an old
/// one, exactly where bit 1 of its flags is set.
pub proof fn law_locks_clear_all_frozen(c: Decoding, flags: u8)
    requires
        c.holds(),
        touches_map(c.rmid(), c.info(), c.pg_version),
        c.xl is Some,
        ({
            ||| c.xl->0.body matches XlBody::HeapLock(h) && h.flags == flags
            ||| c.xl->0.body matches XlBody::HeapLockUpdated(h) && h.flags == flags
        }),
    ensures
        has_bit(flags, 1) ==> clears(
            c,
            Some(c.decoded.blocks@[0].blkno),
            None,
            c.decoded.blocks@[0],
            2,
        ),
        !has_bit(flags, 1) ==> is_nothing(c),
{
    lemma_info_bits(c.info());
    lemma_info_bits(flags);
}

/// The flags of a heap fixed part.
pub open spec fn heap_flags(body: XlBody) -> Option<u8> {
    match body {
        XlBody::HeapInsert(h) => Some(h.flags),
        XlBody::HeapMultiInsert(h) => Some(h.flags),
        XlBody::HeapDelete(h) => Some(h.flags),
        XlBody::HeapUpdate(h) => Some(h.flags),
        XlBody::HeapLock(h) => Some(h.flags),
        XlBody::HeapLockUpdated(h) => Some(h.flags),
        _ => None,
    }
}

/// Whether two fixed parts are heap structures of one kind.
pub open spec fn same_heap_structure(a: XlBody, b: XlBody) -> bool {
    ||| a is HeapInsert && b is HeapInsert
    ||| a is HeapMultiInsert && b is HeapMultiInsert
    ||| a is HeapDelete && b is HeapDelete
    ||| a is HeapUpdate && b is HeapUpdate
    ||| a is HeapLock && b is HeapLock
    ||| a is HeapLockUpdated && b is HeapLockUpdated
}

/// What is cleared depends on the named flag bits and on the blocks alone: two
/// records of one resource manager and of types that touch the map, whose fixed
/// parts are of one structure and agree in the bits 1 and 2 of their flags, and
/// that refer to the same blocks, clear the same.
pub proof fn law_clearing_depends_on_named_bits(a: Decoding, b: Decoding)
    requires
        a.holds(),
        b.holds(),
        a.rmid() == b.rmid() || (a.rmid() != 134 && b.rmid() != 134),
        touches_map(a.rmid(), a.info(), a.pg_version),
        touches_map(b.rmid(), b.info(), b.pg_version),
        a.decoded.blocks@ == b.decoded.blocks@,
        a.xl is Some,
        b.xl is Some,
        same_heap_structure(a.xl->0.body, b.xl->0.body),
        has_bit(heap_flags(a.xl->0.body)->0, 1) == has_bit(heap_flags(b.xl->0.body)->0, 1),
        has_bit(heap_flags(a.xl->0.body)->0, 2) == has_bit(heap_flags(b.xl->0.body)->0, 2),
    ensures
        a.res == b.res,
{
    let fa = heap_flags(a.xl->0.body)->0;
    let fb = heap_flags(b.xl->0.body)->0;
    let body = a.xl->0.body;
    if body is HeapUpdate {
        law_updates_clear_old_and_new(a, fa);
        law_updates_clear_old_and_new(b, fb);
    } else if body is HeapLock || body is HeapLockUpdated {
        law_locks_clear_all_frozen(a, fa);
        law_locks_clear_all_frozen(b, fb);
    } else {
        law_inserts_and_deletes_clear_the_first_block(a, fa);
        law_inserts_and_deletes_clear_the_first_block(b, fb);
    }
}

/// A heap record of any other type stands for nothing.
pub proof fn law_other_heap_records_are_nothing(c: Decoding)
    requires
        c.holds(),
        c.rmid() == 9 || c.rmid() == 10,
        !touches_map(c.rmid(), c.info(), c.pg_version),
    ensures
        is_nothing(c),
{
    lemma_info_bits(c.info());
}

/// A Neon record is refused exactly where the version is before 16, or its type
/// is one of the last two; the error names the version, or the type bits in
/// their place.
pub proof fn law_neon_records_refused(c: Decoding)
    requires
        c.holds(),
        c.rmid() == 134,
    ensures
        c.res is Err <==> !touches_map(134, c.info(), c.pg_version),
        c.pg_version is PG14 || c.pg_version is PG15 ==> c.res == Err::<
            Option<MetadataRecord>,
            DecodeError,
        >(DecodeError::NeonRmgrUnsupported(c.pg_version)),
        !(c.pg_version is PG14 || c.pg_version is PG15) && middle3(c.info()) > 5 ==> c.res == Err::<
            Option<MetadataRecord>,
            DecodeError,
        >(DecodeError::UnknownNeonRecord((16 * middle3(c.info())) as u8)),
{
    lemma_info_bits(c.info());
}

/// A record of another resource manager is no heap record, and the heap decoder
/// says whose it is.
pub proof fn law_heap_decoder_refuses_others(
    xl_rmid: u8,
    xl_info: u8,
    xl: Option<XlRecord>,
    blocks: Seq<DecodedBkpBlock>,
)
    ensures
        xl_rmid != 9 && xl_rmid != 10 <==> heapam_metadata(xl_rmid, xl_info, xl, blocks) is Err,
        xl_rmid != 9 && xl_rmid != 10 ==> heapam_metadata(xl_rmid, xl_info, xl, blocks)->Err_0
            == DecodeError::UnknownHeapRmgr(xl_rmid),
{
}

/// Which structure a heap record starts with, by its type; one that touches the
/// map starts with one, and no other does.
pub proof fn law_heap_structures(
    decoded: DecodedWALRecord,
    pg_version: PgMajorVersion,
    wal_format: WalFormat,
)
    requires
        decoded.xl_rmid == 9 || decoded.xl_rmid == 10 || decoded.xl_rmid == 134,
    ensures
        ({
            let kind = needed_kind(decoded, pg_version, wal_format);
            let rmid = decoded.xl_rmid;
            let t = middle3(decoded.xl_info);
            &&& kind is Some <==> touches_map(rmid, decoded.xl_info, pg_version)
            &&& rmid == 10 && t == 0 ==> kind == Some(XlKind::HeapInsert)
            &&& rmid == 10 && t == 1 ==> kind == Some(XlKind::HeapDelete)
            &&& rmid == 10 && (t == 2 || t == 4) ==> kind == Some(XlKind::HeapUpdate)
            &&& rmid == 10 && t == 6 ==> kind == Some(XlKind::HeapLock)
            &&& rmid == 9 && t == 5 ==> kind == Some(XlKind::HeapMultiInsert)
            &&& rmid == 9 && t == 6 ==> kind == Some(XlKind::HeapLockUpdated)
            &&& rmid == 134 && kind is Some ==> kind->0 == if t == 0 {
                XlKind::NeonHeapInsert
            } else if t == 1 {
                XlKind::NeonHeapDelete
            } else if t <= 3 {
                XlKind::NeonHeapUpdate
            } else if t == 4 {
                XlKind::NeonHeapLock
            } else {
                XlKind::NeonHeapMultiInsert
            }
        }),
{
    lemma_info_bits(decoded.xl_info);
}

/// Whether a heap body of some structure is the one that a kind names.
pub open spec fn heap_body_fits(kind: XlKind, body: XlBody) -> bool {
    match kind {
        XlKind::HeapInsert | XlKind::NeonHeapInsert => body is HeapInsert,
        XlKind::HeapDelete | XlKind::NeonHeapDelete => body is HeapDelete,
        XlKind::HeapUpdate | XlKind::NeonHeapUpdate => body is HeapUpdate,
        XlKind::HeapLock | XlKind::NeonHeapLock => body is HeapLock,
        XlKind::HeapMultiInsert | XlKind::NeonHeapMultiInsert => body is HeapMultiInsert,
        _ => body is HeapLockUpdated,
    }
}

/// A heap record can be read exactly where its main data starts with the right
/// structure; nothing follows an insert, and two bytes for each tuple follow a
/// multi-insert unless the uppermost info bit says that the page is new; and
/// there is a block wherever the flags ask for one.
pub proof fn law_heap_complete(
    decoded: DecodedWALRecord,
    pg_version: PgMajorVersion,
    wal_format: WalFormat,
    xl: Option<XlRecord>,
)
    requires
        decoded.xl_rmid == 9 || decoded.xl_rmid == 10 || decoded.xl_rmid == 134,
        decoded.main_data_offset <= contents(decoded.record).len(),
    ensures
        complete(decoded, pg_version, wal_format, xl) <==> {
            ||| !touches_map(decoded.xl_rmid, decoded.xl_info, pg_version)
            ||| xl is Some && {
                let len = contents(decoded.record).len() - decoded.main_data_offset;
                let rest = len - xl->0.len;
                let body = xl->0.body;
                let flags = heap_flags(body)->0;
                &&& heap_body_fits(needed_kind(decoded, pg_version, wal_format)->0, body)
                &&& rest >= 0
                &&& body is HeapInsert ==> rest == 0
                &&& body matches XlBody::HeapMultiInsert(h) ==> rest == if has_bit(
                    decoded.xl_info,
                    128,
                ) {
                    0
                } else {
                    2 * h.ntuples
                }
                &&& has_bit(flags, 1) || (body is HeapUpdate && has_bit(flags, 2))
                    ==> decoded.blocks@.len() > 0
            }
        },
{
    lemma_info_bits(decoded.xl_info);
    law_heap_structures(decoded, pg_version, wal_format);
    if xl is Some && heap_flags(xl->0.body) is Some {
        lemma_info_bits(heap_flags(xl->0.body)->0);
    }
}

} // verus!
