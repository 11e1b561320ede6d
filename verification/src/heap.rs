//! Heap records, of the heap's own resource managers and of Neon's: which bits
//! of the visibility map they clear.

use crate::bytebuf::{contents, remaining};
use crate::constants::{
    RM_HEAP2_ID, RM_HEAP_ID, RM_NEON_ID, VISIBILITYMAP_ALL_FROZEN, VISIBILITYMAP_FORKNUM,
    VISIBILITYMAP_VALID_BITS, XLH_DELETE_ALL_VISIBLE_CLEARED, XLH_INSERT_ALL_VISIBLE_CLEARED,
    XLH_LOCK_ALL_FROZEN_CLEARED, XLH_UPDATE_NEW_ALL_VISIBLE_CLEARED,
    XLH_UPDATE_OLD_ALL_VISIBLE_CLEARED, XLOG_HEAP2_LOCK_UPDATED, XLOG_HEAP2_MULTI_INSERT,
    XLOG_HEAP_DELETE, XLOG_HEAP_HOT_UPDATE, XLOG_HEAP_INIT_PAGE, XLOG_HEAP_INSERT, XLOG_HEAP_LOCK,
    XLOG_HEAP_OPMASK, XLOG_HEAP_UPDATE, XLOG_NEON_HEAP_DELETE, XLOG_NEON_HEAP_HOT_UPDATE,
    XLOG_NEON_HEAP_INSERT, XLOG_NEON_HEAP_LOCK, XLOG_NEON_HEAP_MULTI_INSERT,
    XLOG_NEON_HEAP_UPDATE,
};
use crate::error::DecodeError;
use crate::payload::{after_xl, check_starts_with, starts_with, take_xl};
use crate::records::{
    res_view, ClearVmBits, HeapamRecord, MetadataRecord, MetadataView, NeonrmgrRecord,
};
use crate::types::{
    DecodedBkpBlock, DecodedWALRecord, PgMajorVersion, RelTag, XlBody, XlKind, XlRecord,
};
use bytes::Bytes;
use vstd::prelude::*;

verus! {

/// The fixed part that a heap record starts with, where its type has one that
/// matters here.
pub open spec fn heap_kind(xl_rmid: u8, xl_info: u8) -> Option<XlKind> {
    let op = xl_info & XLOG_HEAP_OPMASK;
    if xl_rmid == RM_HEAP_ID {
        if op == XLOG_HEAP_INSERT {
            Some(XlKind::HeapInsert)
        } else if op == XLOG_HEAP_DELETE {
            Some(XlKind::HeapDelete)
        } else if op == XLOG_HEAP_UPDATE || op == XLOG_HEAP_HOT_UPDATE {
            Some(XlKind::HeapUpdate)
        } else if op == XLOG_HEAP_LOCK {
            Some(XlKind::HeapLock)
        } else {
            None
        }
    } else if xl_rmid == RM_HEAP2_ID {
        if op == XLOG_HEAP2_MULTI_INSERT {
            Some(XlKind::HeapMultiInsert)
        } else if op == XLOG_HEAP2_LOCK_UPDATED {
            Some(XlKind::HeapLockUpdated)
        } else {
            None
        }
    } else {
        None
    }
}

/// The fixed part that a record of the Neon resource manager starts with, or
/// why there is no such record.
pub open spec fn neon_kind(xl_info: u8, pg_version: PgMajorVersion) -> Result<XlKind, DecodeError> {
    let op = xl_info & XLOG_HEAP_OPMASK;
    if pg_version is PG14 || pg_version is PG15 {
        Err(DecodeError::NeonRmgrUnsupported(pg_version))
    } else if op == XLOG_NEON_HEAP_INSERT {
        Ok(XlKind::NeonHeapInsert)
    } else if op == XLOG_NEON_HEAP_DELETE {
        Ok(XlKind::NeonHeapDelete)
    } else if op == XLOG_NEON_HEAP_UPDATE || op == XLOG_NEON_HEAP_HOT_UPDATE {
        Ok(XlKind::NeonHeapUpdate)
    } else if op == XLOG_NEON_HEAP_MULTI_INSERT {
        Ok(XlKind::NeonHeapMultiInsert)
    } else if op == XLOG_NEON_HEAP_LOCK {
        Ok(XlKind::NeonHeapLock)
    } else {
        Err(DecodeError::UnknownNeonRecord(op))
    }
}

/// What a heap record does to the visibility map: the block its new tuple is
/// in, the block its old tuple is in, each where its bits are to be cleared,
/// and the bits.
#[derive(Clone, Copy, Debug, PartialEq, Eq)]
pub struct VmChange {
    pub new_heap_blkno: Option<u32>,
    pub old_heap_blkno: Option<u32>,
    pub flags: u8,
}

/// The block number `blkno`, where a flag asks for it.
pub open spec fn flagged(set: bool, blkno: u32) -> Option<u32> {
    if set {
        Some(blkno)
    } else {
        None
    }
}

/// The change that a heap record with this fixed part and these blocks makes.
///
/// A record refers to its new block first and to its old one last. A lock
/// clears the all-frozen bit alone, of the one block that it refers to.
pub open spec fn vm_change(body: XlBody, blocks: Seq<DecodedBkpBlock>) -> VmChange {
    let first = blocks.first().blkno;
    let last = blocks.last().blkno;
    match body {
        XlBody::HeapInsert(xl) => VmChange {
            new_heap_blkno: flagged(xl.flags & XLH_INSERT_ALL_VISIBLE_CLEARED != 0, first),
            old_heap_blkno: None,
            flags: VISIBILITYMAP_VALID_BITS,
        },
        XlBody::HeapMultiInsert(xl) => VmChange {
            new_heap_blkno: flagged(xl.flags & XLH_INSERT_ALL_VISIBLE_CLEARED != 0, first),
            old_heap_blkno: None,
            flags: VISIBILITYMAP_VALID_BITS,
        },
        XlBody::HeapDelete(xl) => VmChange {
            new_heap_blkno: flagged(xl.flags & XLH_DELETE_ALL_VISIBLE_CLEARED != 0, first),
            old_heap_blkno: None,
            flags: VISIBILITYMAP_VALID_BITS,
        },
        XlBody::HeapUpdate(xl) => VmChange {
            new_heap_blkno: flagged(xl.flags & XLH_UPDATE_NEW_ALL_VISIBLE_CLEARED != 0, first),
            old_heap_blkno: flagged(xl.flags & XLH_UPDATE_OLD_ALL_VISIBLE_CLEARED != 0, last),
            flags: VISIBILITYMAP_VALID_BITS,
        },
        XlBody::HeapLock(xl) => VmChange {
            new_heap_blkno: None,
            old_heap_blkno: flagged(xl.flags & XLH_LOCK_ALL_FROZEN_CLEARED != 0, first),
            flags: VISIBILITYMAP_ALL_FROZEN,
        },
        XlBody::HeapLockUpdated(xl) => VmChange {
            new_heap_blkno: None,
            old_heap_blkno: flagged(xl.flags & XLH_LOCK_ALL_FROZEN_CLEARED != 0, first),
            flags: VISIBILITYMAP_ALL_FROZEN,
        },
        _ => VmChange {
            new_heap_blkno: None,
            old_heap_blkno: None,
            flags: VISIBILITYMAP_VALID_BITS,
        },
    }
}

/// Whether a change touches the visibility map at all.
pub open spec fn changes_vm(change: VmChange) -> bool {
    change.new_heap_blkno is Some || change.old_heap_blkno is Some
}

/// The visibility map of the relation that the first block belongs to.
pub open spec fn vm_rel_of(block: DecodedBkpBlock) -> RelTag {
    RelTag {
        forknum: VISIBILITYMAP_FORKNUM,
        spcnode: block.rnode_spcnode,
        dbnode: block.rnode_dbnode,
        relnode: block.rnode_relnode,
    }
}

/// The bits to clear, where there are any.
pub open spec fn clear_vm_bits(body: XlBody, blocks: Seq<DecodedBkpBlock>) -> Option<ClearVmBits> {
    let change = vm_change(body, blocks);
    if changes_vm(change) {
        Some(
            ClearVmBits {
                new_heap_blkno: change.new_heap_blkno,
                old_heap_blkno: change.old_heap_blkno,
                vm_rel: vm_rel_of(blocks.first()),
                flags: change.flags,
            },
        )
    } else {
        None
    }
}

/// The metadata record that a heap record stands for.
pub open spec fn heapam_metadata(
    xl_rmid: u8,
    xl_info: u8,
    xl: Option<XlRecord>,
    blocks: Seq<DecodedBkpBlock>,
) -> Result<Option<MetadataView>, DecodeError> {
    if xl_rmid != RM_HEAP_ID && xl_rmid != RM_HEAP2_ID {
        Err(DecodeError::UnknownHeapRmgr(xl_rmid))
    } else if heap_kind(xl_rmid, xl_info) is None {
        Ok(None)
    } else {
        match clear_vm_bits(xl->0.body, blocks) {
            Some(c) => Ok(Some(MetadataView::Heapam(HeapamRecord::ClearVmBits(c)))),
            None => Ok(None),
        }
    }
}

/// The metadata record that a record of the Neon resource manager stands for.
pub open spec fn neonmgr_metadata(
    xl_info: u8,
    pg_version: PgMajorVersion,
    xl: Option<XlRecord>,
    blocks: Seq<DecodedBkpBlock>,
) -> Result<Option<MetadataView>, DecodeError> {
    match neon_kind(xl_info, pg_version) {
        Err(e) => Err(e),
        Ok(_) => match clear_vm_bits(xl->0.body, blocks) {
            Some(c) => Ok(Some(MetadataView::Neonrmgr(NeonrmgrRecord::ClearVmBits(c)))),
            None => Ok(None),
        },
    }
}

/// How many bytes follow the fixed part of a heap record: the tuple offsets of
/// a multi-insert into a page that is not new, and nothing of an insert. Of the
/// other records nothing is asked.
pub open spec fn heap_rest_ok(body: XlBody, xl_info: u8, rest: Seq<u8>) -> bool {
    match body {
        XlBody::HeapInsert(_) => rest.len() == 0,
        XlBody::HeapMultiInsert(xl) => rest.len() == (if xl_info & XLOG_HEAP_INIT_PAGE > 0 {
            0
        } else {
            2 * xl.ntuples as int
        }),
        _ => true,
    }
}

/// Whether main data `main` holds a heap record with a fixed part of kind
/// `kind`: the fixed part, the right number of bytes after it, and a block
/// wherever a flag asks for one.
pub open spec fn heap_payload_ok(
    main: Seq<u8>,
    kind: Option<XlKind>,
    xl: Option<XlRecord>,
    xl_info: u8,
    blocks: Seq<DecodedBkpBlock>,
) -> bool {
    &&& starts_with(main, kind, xl)
    &&& kind is Some ==> {
        &&& heap_rest_ok(xl->0.body, xl_info, after_xl(main, kind, xl))
        &&& changes_vm(vm_change(xl->0.body, blocks)) ==> blocks.len() > 0
    }
}

/// The kind that Neon's resource manager asks for, where the record exists.
pub open spec fn neon_kind_of(xl_info: u8, pg_version: PgMajorVersion) -> Option<XlKind> {
    match neon_kind(xl_info, pg_version) {
        Ok(k) => Some(k),
        Err(_) => None,
    }
}

/// Finds [`heap_kind`].
pub(crate) fn heap_xl_kind(xl_rmid: u8, xl_info: u8) -> (kind: Option<XlKind>)
    ensures
        kind == heap_kind(xl_rmid, xl_info),
{
    let op = xl_info & XLOG_HEAP_OPMASK;
    if xl_rmid == RM_HEAP_ID {
        if op == XLOG_HEAP_INSERT {
            Some(XlKind::HeapInsert)
        } else if op == XLOG_HEAP_DELETE {
            Some(XlKind::HeapDelete)
        } else if op == XLOG_HEAP_UPDATE || op == XLOG_HEAP_HOT_UPDATE {
            Some(XlKind::HeapUpdate)
        } else if op == XLOG_HEAP_LOCK {
            Some(XlKind::HeapLock)
        } else {
            None
        }
    } else if xl_rmid == RM_HEAP2_ID {
        if op == XLOG_HEAP2_MULTI_INSERT {
            Some(XlKind::HeapMultiInsert)
        } else if op == XLOG_HEAP2_LOCK_UPDATED {
            Some(XlKind::HeapLockUpdated)
        } else {
            None
        }
    } else {
        None
    }
}

/// Finds [`neon_kind`].
pub(crate) fn neon_xl_kind(xl_info: u8, pg_version: PgMajorVersion) -> (kind: Result<
    XlKind,
    DecodeError,
>)
    ensures
        kind == neon_kind(xl_info, pg_version),
{
    match pg_version {
        PgMajorVersion::PG14 | PgMajorVersion::PG15 => {
            return Err(DecodeError::NeonRmgrUnsupported(pg_version));
        },
        PgMajorVersion::PG16 | PgMajorVersion::PG17 => {},
    }
    let op = xl_info & XLOG_HEAP_OPMASK;
    if op == XLOG_NEON_HEAP_INSERT {
        Ok(XlKind::NeonHeapInsert)
    } else if op == XLOG_NEON_HEAP_DELETE {
        Ok(XlKind::NeonHeapDelete)
    } else if op == XLOG_NEON_HEAP_UPDATE || op == XLOG_NEON_HEAP_HOT_UPDATE {
        Ok(XlKind::NeonHeapUpdate)
    } else if op == XLOG_NEON_HEAP_MULTI_INSERT {
        Ok(XlKind::NeonHeapMultiInsert)
    } else if op == XLOG_NEON_HEAP_LOCK {
        Ok(XlKind::NeonHeapLock)
    } else {
        Err(DecodeError::UnknownNeonRecord(op))
    }
}

/// Finds the bits to clear: [`clear_vm_bits`].
fn find_clear_vm_bits(body: &XlBody, blocks: &Vec<DecodedBkpBlock>) -> (c: Option<ClearVmBits>)
    requires
        changes_vm(vm_change(*body, blocks@)) ==> blocks@.len() > 0,
    ensures
        c == clear_vm_bits(*body, blocks@),
{
    // If either of these is set, the corresponding bits in the visibility map
    // are to be cleared.
    let mut new_heap_blkno: Option<u32> = None;
    let mut old_heap_blkno: Option<u32> = None;
    let mut flags: u8 = VISIBILITYMAP_VALID_BITS;
    match body {
        XlBody::HeapInsert(xl) => {
            if xl.flags & XLH_INSERT_ALL_VISIBLE_CLEARED != 0 {
                new_heap_blkno = Some(blocks[0].blkno);
            }
        },
        XlBody::HeapMultiInsert(xl) => {
            if xl.flags & XLH_INSERT_ALL_VISIBLE_CLEARED != 0 {
                new_heap_blkno = Some(blocks[0].blkno);
            }
        },
        XlBody::HeapDelete(xl) => {
            if xl.flags & XLH_DELETE_ALL_VISIBLE_CLEARED != 0 {
                new_heap_blkno = Some(blocks[0].blkno);
            }
        },
        XlBody::HeapUpdate(xl) => {
            if xl.flags & XLH_UPDATE_OLD_ALL_VISIBLE_CLEARED != 0 {
                old_heap_blkno = Some(blocks[blocks.len() - 1].blkno);
            }
            // Set only on an update that is not heap-only and whose new tuple
            // goes to another page than the old one.
            if xl.flags & XLH_UPDATE_NEW_ALL_VISIBLE_CLEARED != 0 {
                new_heap_blkno = Some(blocks[0].blkno);
            }
        },
        XlBody::HeapLock(xl) => {
            flags = VISIBILITYMAP_ALL_FROZEN;
            if xl.flags & XLH_LOCK_ALL_FROZEN_CLEARED != 0 {
                old_heap_blkno = Some(blocks[0].blkno);
            }
        },
        XlBody::HeapLockUpdated(xl) => {
            flags = VISIBILITYMAP_ALL_FROZEN;
            if xl.flags & XLH_LOCK_ALL_FROZEN_CLEARED != 0 {
                old_heap_blkno = Some(blocks[0].blkno);
            }
        },
        _ => {},
    }
    if new_heap_blkno.is_some() || old_heap_blkno.is_some() {
        let vm_rel = RelTag {
            forknum: VISIBILITYMAP_FORKNUM,
            spcnode: blocks[0].rnode_spcnode,
            dbnode: blocks[0].rnode_dbnode,
            relnode: blocks[0].rnode_relnode,
        };
        Some(ClearVmBits { new_heap_blkno, old_heap_blkno, vm_rel, flags })
    } else {
        None
    }
}

/// Tells whether a record with this fixed part asks for a block.
fn asks_for_block(body: &XlBody) -> (yes: bool)
    ensures
        forall|blocks: Seq<DecodedBkpBlock>| yes == changes_vm(#[trigger] vm_change(*body, blocks)),
{
    match body {
        XlBody::HeapInsert(xl) => xl.flags & XLH_INSERT_ALL_VISIBLE_CLEARED != 0,
        XlBody::HeapMultiInsert(xl) => xl.flags & XLH_INSERT_ALL_VISIBLE_CLEARED != 0,
        XlBody::HeapDelete(xl) => xl.flags & XLH_DELETE_ALL_VISIBLE_CLEARED != 0,
        XlBody::HeapUpdate(xl) => xl.flags & XLH_UPDATE_OLD_ALL_VISIBLE_CLEARED != 0 || xl.flags
            & XLH_UPDATE_NEW_ALL_VISIBLE_CLEARED != 0,
        XlBody::HeapLock(xl) => xl.flags & XLH_LOCK_ALL_FROZEN_CLEARED != 0,
        XlBody::HeapLockUpdated(xl) => xl.flags & XLH_LOCK_ALL_FROZEN_CLEARED != 0,
        _ => false,
    }
}

/// Tells whether [`heap_payload_ok`] holds of the main data in `buf`.
pub(crate) fn check_heap_payload(
    buf: &Bytes,
    kind: Option<XlKind>,
    xl: &Option<XlRecord>,
    xl_info: u8,
    blocks: &Vec<DecodedBkpBlock>,
) -> (ok: bool)
    ensures
        ok == heap_payload_ok(contents(*buf), kind, *xl, xl_info, blocks@),
{
    if !check_starts_with(buf, kind, xl) {
        return false;
    }
    if kind.is_none() {
        return true;
    }
    match xl {
        None => false,
        Some(xl) => {
            let rest: usize = remaining(buf) - xl.len;
            let rest_ok = match &xl.body {
                XlBody::HeapInsert(_) => rest == 0,
                XlBody::HeapMultiInsert(m) => if xl_info & XLOG_HEAP_INIT_PAGE > 0 {
                    rest == 0
                } else {
                    rest % 2 == 0 && rest / 2 == m.ntuples as usize
                },
                _ => true,
            };
            rest_ok && (!asks_for_block(&xl.body) || blocks.len() > 0)
        },
    }
}

impl MetadataRecord {
    /// Decodes a heap record: the visibility map bits that it clears.
    pub fn decode_heapam_record(
        buf: &mut Bytes,
        decoded: &DecodedWALRecord,
        _pg_version: PgMajorVersion,
        xl: Option<XlRecord>,
    ) -> (res: Result<Option<MetadataRecord>, DecodeError>)
        requires
            heap_payload_ok(
                contents(*old(buf)),
                heap_kind(decoded.xl_rmid, decoded.xl_info),
                xl,
                decoded.xl_info,
                decoded.blocks@,
            ),
        ensures
            res_view(res) == heapam_metadata(
                decoded.xl_rmid,
                decoded.xl_info,
                xl,
                decoded.blocks@,
            ),
            contents(*final(buf)) == after_xl(
                contents(*old(buf)),
                heap_kind(decoded.xl_rmid, decoded.xl_info),
                xl,
            ),
    {
        if decoded.xl_rmid != RM_HEAP_ID && decoded.xl_rmid != RM_HEAP2_ID {
            return Err(DecodeError::UnknownHeapRmgr(decoded.xl_rmid));
        }
        if heap_xl_kind(decoded.xl_rmid, decoded.xl_info).is_none() {
            return Ok(None);
        }
        let body = take_xl(buf, xl);
        match find_clear_vm_bits(&body, &decoded.blocks) {
            Some(c) => Ok(Some(MetadataRecord::Heapam(HeapamRecord::ClearVmBits(c)))),
            None => Ok(None),
        }
    }

    /// Decodes a record of the Neon resource manager: the visibility map bits
    /// that it clears.
    pub fn decode_neonmgr_record(
        buf: &mut Bytes,
        decoded: &DecodedWALRecord,
        pg_version: PgMajorVersion,
        xl: Option<XlRecord>,
    ) -> (res: Result<Option<MetadataRecord>, DecodeError>)
        requires
            decoded.xl_rmid == RM_NEON_ID,
            heap_payload_ok(
                contents(*old(buf)),
                neon_kind_of(decoded.xl_info, pg_version),
                xl,
                decoded.xl_info,
                decoded.blocks@,
            ),
        ensures
            res_view(res) == neonmgr_metadata(decoded.xl_info, pg_version, xl, decoded.blocks@),
            contents(*final(buf)) == after_xl(
                contents(*old(buf)),
                neon_kind_of(decoded.xl_info, pg_version),
                xl,
            ),
    {
        match neon_xl_kind(decoded.xl_info, pg_version) {
            Err(e) => {
                return Err(e);
            },
            Ok(_) => {},
        }
        let body = take_xl(buf, xl);
        match find_clear_vm_bits(&body, &decoded.blocks) {
            Some(c) => Ok(Some(MetadataRecord::Neonrmgr(NeonrmgrRecord::ClearVmBits(c)))),
            None => Ok(None),
        }
    }
}

} // verus!
