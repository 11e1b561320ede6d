//! What holds of the library as a whole.
//!
//! Each law is a public proof function over the specifications that the
//! executable functions are proved against.

pub mod calls;
pub mod dispatch;
pub mod heap;
pub mod messages;
pub mod numbers;
pub mod sharing;
pub mod storage;
pub mod transactions;
pub mod uheap;
pub mod undo;

use crate::bytebuf::{contents, i32_at};
use crate::constants::{
    RM_BARRIER_ID, RM_CLOG_ID, RM_COMPRESSION_REL_ID, RM_DBASE_ID, RM_GENERIC_ID, RM_HEAP2_ID,
    RM_HEAP3_ID, RM_HEAP_ID, RM_LOGICALDDLMSG_ID, RM_LOGICALMSG_ID, RM_MOT_ID, RM_MULTIXACT_ID,
    RM_NEON_ID, RM_SLOT_ID, RM_TBLSPC_ID, RM_UHEAP2_ID, RM_UHEAPUNDO_ID, RM_UHEAP_ID,
    SLRU_PAGES_PER_SEGMENT, VISIBILITYMAP_ALL_FROZEN, VISIBILITYMAP_VALID_BITS,
    XLOG_DBASE_CREATE_WAL_LOG, XLOG_UHEAP_INSERT, XLOG_UHEAP_INVALID_TD_SLOT,
    XLOG_UHEAP_MULTI_INSERT, XLOG_UHEAP_NEW_PAGE, XLOG_UHEAP_OPMASK, XLR_RMGR_INFO_MASK,
};
use crate::decode::{complete, metadata_of, needed_kind};
use crate::error::DecodeError;
use crate::heap::{clear_vm_bits, heap_kind, neon_kind};
use crate::interpret::{answer_for, flush_of, interpreted, outcome, InterpretError};
use crate::interpreted::{
    no_blocks, FlushUncommittedRecords, InterpretedView, SerializedValueBatch,
};
use crate::message::{names_file, path_of, prefixed_message_metadata};
use crate::records::{
    ClearVmBits, ClogRecord, DbaseView, LogicalMessageView, MetadataView, MultiXactView,
    UHeapTupleView, UHeapView,
};
use crate::routing::{
    answered, bits_of, bits_routed, bits_share, first_shard_zero, is_put, owned_block, routed,
    vm_page, with_bits,
};
use crate::shard::{
    blank_records, distinct, shards_of, with_batches, ShardIdentity, ShardRecords,
};
use crate::types::{
    DecodedBkpBlock, DecodedWALRecord, Lsn, PgMajorVersion, RelTag, WalFormat, XlBody, XlRecord,
};
use crate::uheap::{
    after_front_tuple, after_tuples, front_tuple, front_tuple_error, tuple_count, tuples_in,
    uheap_metadata,
};
use crate::xact::{is_multixact_zero_page, rpageno_of, segno_of};
use vstd::prelude::*;

verus! {

/// The shards that receive a record are those that were given, each once.
pub proof fn law_distinct_shards(shards: Seq<ShardIdentity>)
    ensures
        distinct(shards).no_duplicates(),
        forall|s: ShardIdentity| #[trigger] distinct(shards).contains(s) <==> shards.contains(s),
    decreases shards.len(),
{
    if shards.len() > 0 {
        let front = shards.drop_last();
        let last = shards.last();
        law_distinct_shards(front);
        assert(shards =~= front.push(last));
        assert forall|s: ShardIdentity| #[trigger] distinct(shards).contains(s)
            <==> shards.contains(s) by {
            if shards.contains(s) {
                let i = choose|i: int| 0 <= i < shards.len() && shards[i] == s;
                if i < front.len() {
                    assert(front[i] == s);
                    assert(distinct(front).contains(s));
                }
                let before = distinct(front);
                if before.contains(s) {
                    let j = choose|j: int| 0 <= j < before.len() && before[j] == s;
                    assert(distinct(shards)[j] == s);
                } else {
                    assert(s == last);
                    assert(distinct(shards)[before.len() as int] == s);
                }
            }
            if distinct(shards).contains(s) {
                let before = distinct(front);
                let j = choose|j: int| 0 <= j < distinct(shards).len() && distinct(shards)[j] == s;
                if j < before.len() {
                    assert(before[j] == s);
                    assert(distinct(front).contains(s));
                    let i = choose|i: int| 0 <= i < front.len() && front[i] == s;
                    assert(shards[i] == s);
                } else {
                    assert(shards[shards.len() - 1] == s);
                }
            }
        }
    }
}

/// Sharing out a metadata record leaves every shard its one record, and in it
/// the position, the transaction, the flush request and the data blocks, which
/// are the same for all shards.
pub proof fn law_only_metadata_differs<F: Fn(ShardIdentity, RelTag, u32) -> bool>(
    is_key_local: F,
    m: Option<MetadataView>,
    shards: Seq<ShardIdentity>,
    next_record_lsn: Lsn,
    flush_uncommitted: FlushUncommittedRecords,
    xid: u32,
    after: Seq<(ShardIdentity, InterpretedView)>,
)
    requires
        routed(
            is_key_local,
            m,
            blank_records(distinct(shards), next_record_lsn, flush_uncommitted, xid),
            after,
        ),
    ensures
        shards_of(after) == distinct(shards),
        forall|i: int|
            #![trigger after[i]]
            0 <= i < after.len() ==> {
                &&& after[i].1.next_record_lsn == next_record_lsn
                &&& after[i].1.flush_uncommitted == flush_uncommitted
                &&& after[i].1.xid == xid
                &&& after[i].1.batch == no_blocks()
            },
{
    let before = blank_records(distinct(shards), next_record_lsn, flush_uncommitted, xid);
    assert forall|i: int| 0 <= i < after.len() implies #[trigger] shards_of(after)[i] == distinct(
        shards,
    )[i] by {
        assert(after[i].0 == before[i].0);
    }
    assert(shards_of(after) =~= distinct(shards));
}

/// Putting data blocks into the records changes nothing else in them, and every
/// shard has the batch that was made for it.
pub proof fn law_blocks_leave_the_rest(
    records: Seq<(ShardIdentity, InterpretedView)>,
    batches: Seq<SerializedValueBatch>,
)
    requires
        batches.len() == records.len(),
    ensures
        shards_of(with_batches(records, batches)) == shards_of(records),
        forall|i: int|
            #![trigger with_batches(records, batches)[i]]
            0 <= i < records.len() ==> {
                let after = with_batches(records, batches)[i].1;
                &&& after.batch == batches[i]@
                &&& after.metadata_record == records[i].1.metadata_record
                &&& after.next_record_lsn == records[i].1.next_record_lsn
                &&& after.flush_uncommitted == records[i].1.flush_uncommitted
                &&& after.xid == records[i].1.xid
            },
{
    assert(shards_of(with_batches(records, batches)) =~= shards_of(records));
}

/// Whether `owner` decides what `is_key_local` answers.
pub open spec fn decides<F: Fn(ShardIdentity, RelTag, u32) -> bool>(
    owner: spec_fn(ShardIdentity, RelTag, u32) -> bool,
    is_key_local: F,
) -> bool {
    forall|s: ShardIdentity, r: RelTag, b: u32, owned: bool| #[trigger]
        is_key_local.ensures((s, r, b), owned) ==> owned == owner(s, r, b)
}

/// Whether `shard` owns the visibility map page of block `blkno`, where there
/// is one.
pub open spec fn owns_block(
    owner: spec_fn(ShardIdentity, RelTag, u32) -> bool,
    shard: ShardIdentity,
    vm_rel: RelTag,
    blkno: Option<u32>,
) -> bool {
    blkno is Some && owner(shard, vm_rel, vm_page(blkno->0))
}

/// Every shard receives exactly the visibility map updates of pages that it
/// owns: the blocks of its pages, on the same map and with the same bits. A
/// shard that owns none of the pages keeps what it had.
pub proof fn law_bits_go_to_owners<F: Fn(ShardIdentity, RelTag, u32) -> bool>(
    owner: spec_fn(ShardIdentity, RelTag, u32) -> bool,
    is_key_local: F,
    m: MetadataView,
    before: Seq<(ShardIdentity, InterpretedView)>,
    after: Seq<(ShardIdentity, InterpretedView)>,
    i: int,
)
    requires
        decides(owner, is_key_local),
        bits_of(m) is Some,
        routed(is_key_local, Some(m), before, after),
        0 <= i < before.len(),
    ensures
        ({
            let c = bits_of(m)->0;
            let shard = before[i].0;
            let owns_old = owns_block(owner, shard, c.vm_rel, c.old_heap_blkno);
            let owns_new = owns_block(owner, shard, c.vm_rel, c.new_heap_blkno);
            after[i].1.metadata_record == if owns_old || owns_new {
                Some(
                    with_bits(
                        m,
                        ClearVmBits {
                            old_heap_blkno: owned_block(c.old_heap_blkno, owns_old),
                            new_heap_blkno: owned_block(c.new_heap_blkno, owns_new),
                            vm_rel: c.vm_rel,
                            flags: c.flags,
                        },
                    ),
                )
            } else {
                before[i].1.metadata_record
            }
        }),
{
    let c = bits_of(m)->0;
    let shard = before[i].0;
    assert(after[i].0 == shard);
    assert(bits_routed(
        is_key_local,
        shard,
        m,
        c,
        before[i].1.metadata_record,
        after[i].1.metadata_record,
    ));
    let (owns_old, owns_new) = choose|owns_old: bool, owns_new: bool|
        {
            &&& #[trigger] answered(is_key_local, shard, c.vm_rel, c.old_heap_blkno, owns_old)
            &&& #[trigger] answered(is_key_local, shard, c.vm_rel, c.new_heap_blkno, owns_new)
            &&& after[i].1.metadata_record == match bits_share(c, owns_old, owns_new) {
                Some(share) => Some(with_bits(m, share)),
                None => before[i].1.metadata_record,
            }
        };
    if c.old_heap_blkno is Some {
        assert(owns_old == owner(shard, c.vm_rel, vm_page(c.old_heap_blkno->0)));
    }
    if c.new_heap_blkno is Some {
        assert(owns_new == owner(shard, c.vm_rel, vm_page(c.new_heap_blkno->0)));
    }
}

/// No visibility map update is lost: a shard that owns the page of a block
/// receives the block.
pub proof fn law_no_bits_lost<F: Fn(ShardIdentity, RelTag, u32) -> bool>(
    owner: spec_fn(ShardIdentity, RelTag, u32) -> bool,
    is_key_local: F,
    m: MetadataView,
    before: Seq<(ShardIdentity, InterpretedView)>,
    after: Seq<(ShardIdentity, InterpretedView)>,
    i: int,
)
    requires
        decides(owner, is_key_local),
        bits_of(m) is Some,
        routed(is_key_local, Some(m), before, after),
        0 <= i < before.len(),
    ensures
        owns_block(owner, before[i].0, bits_of(m)->0.vm_rel, bits_of(m)->0.old_heap_blkno) ==> {
            &&& after[i].1.metadata_record is Some
            &&& bits_of(after[i].1.metadata_record->0) is Some
            &&& bits_of(after[i].1.metadata_record->0)->0.old_heap_blkno == bits_of(
                m,
            )->0.old_heap_blkno
        },
        owns_block(owner, before[i].0, bits_of(m)->0.vm_rel, bits_of(m)->0.new_heap_blkno) ==> {
            &&& after[i].1.metadata_record is Some
            &&& bits_of(after[i].1.metadata_record->0) is Some
            &&& bits_of(after[i].1.metadata_record->0)->0.new_heap_blkno == bits_of(
                m,
            )->0.new_heap_blkno
        },
{
    law_bits_go_to_owners(owner, is_key_local, m, before, after, i);
}

/// A file to be stored goes to shard zero and to no other shard, and to one
/// record only. It goes to one if shard zero is there.
pub proof fn law_file_on_shard_zero<F: Fn(ShardIdentity, RelTag, u32) -> bool>(
    is_key_local: F,
    m: MetadataView,
    shards: Seq<ShardIdentity>,
    next_record_lsn: Lsn,
    flush_uncommitted: FlushUncommittedRecords,
    xid: u32,
    after: Seq<(ShardIdentity, InterpretedView)>,
)
    requires
        is_put(m),
        routed(
            is_key_local,
            Some(m),
            blank_records(distinct(shards), next_record_lsn, flush_uncommitted, xid),
            after,
        ),
    ensures
        forall|i: int|
            #![trigger after[i]]
            0 <= i < after.len() && after[i].1.metadata_record is Some
                ==> after[i].0.spec_is_shard_zero() && after[i].1.metadata_record == Some(m),
        forall|i: int, j: int|
            #![trigger after[i], after[j]]
            0 <= i < after.len() && 0 <= j < after.len() && after[i].1.metadata_record is Some
                && after[j].1.metadata_record is Some ==> i == j,
        (exists|s: ShardIdentity| shards.contains(s) && #[trigger] s.spec_is_shard_zero())
            ==> exists|i: int|
            0 <= i < after.len() && (#[trigger] after[i]).1.metadata_record == Some(m),
{
    let before = blank_records(distinct(shards), next_record_lsn, flush_uncommitted, xid);
    assert forall|i: int|
        #![trigger after[i]]
        0 <= i < after.len() && after[i].1.metadata_record is Some implies first_shard_zero(
        before,
        i,
    ) && after[i].0.spec_is_shard_zero() && after[i].1.metadata_record == Some(m) by {
        assert(before[i].1.metadata_record is None);
        assert(after[i].0 == before[i].0);
    }
    assert forall|i: int, j: int|
        #![trigger after[i], after[j]]
        0 <= i < after.len() && 0 <= j < after.len() && after[i].1.metadata_record is Some
            && after[j].1.metadata_record is Some implies i == j by {
        assert(first_shard_zero(before, i) && first_shard_zero(before, j));
        assert(before[i].0.spec_is_shard_zero() && before[j].0.spec_is_shard_zero());
    }
    if exists|s: ShardIdentity| shards.contains(s) && #[trigger] s.spec_is_shard_zero() {
        let s = choose|s: ShardIdentity| shards.contains(s) && #[trigger] s.spec_is_shard_zero();
        law_distinct_shards(shards);
        assert(distinct(shards).contains(s));
        let k = choose|k: int| 0 <= k < distinct(shards).len() && distinct(shards)[k] == s;
        assert(before[k].0 == s);
        lemma_first_shard_zero(before, k);
        let i = choose|i: int| 0 <= i <= k && #[trigger] first_shard_zero(before, i);
        assert(after[i].1.metadata_record == Some(m));
    }
}

/// Where some record is for shard zero, one of them is the first.
proof fn lemma_first_shard_zero(records: Seq<(ShardIdentity, InterpretedView)>, k: int)
    requires
        0 <= k < records.len(),
        records[k].0.spec_is_shard_zero(),
    ensures
        exists|i: int| 0 <= i <= k && #[trigger] first_shard_zero(records, i),
    decreases k,
{
    if !first_shard_zero(records, k) {
        let j = choose|j: int| 0 <= j < k && (#[trigger] records[j]).0.spec_is_shard_zero();
        lemma_first_shard_zero(records, j);
        let i = choose|i: int| 0 <= i <= j && #[trigger] first_shard_zero(records, i);
        assert(0 <= i <= k && first_shard_zero(records, i));
    }
}

/// Whether at most one of `shards` is shard zero.
pub open spec fn one_shard_zero(shards: Seq<ShardIdentity>) -> bool {
    forall|s: ShardIdentity, t: ShardIdentity|
        shards.contains(s) && shards.contains(t) && #[trigger] s.spec_is_shard_zero()
            && #[trigger] t.spec_is_shard_zero() ==> s == t
}

/// The share of a shard: what it receives of metadata record `m`, by itself.
pub open spec fn share_of(
    owner: spec_fn(ShardIdentity, RelTag, u32) -> bool,
    m: Option<MetadataView>,
    shard: ShardIdentity,
) -> Option<MetadataView> {
    if m is Some && bits_of(m->0) is Some {
        let c = bits_of(m->0)->0;
        let owns_old = owns_block(owner, shard, c.vm_rel, c.old_heap_blkno);
        let owns_new = owns_block(owner, shard, c.vm_rel, c.new_heap_blkno);
        match bits_share(c, owns_old, owns_new) {
            Some(share) => Some(with_bits(m->0, share)),
            None => None,
        }
    } else if m is Some && is_put(m->0) && !shard.spec_is_shard_zero() {
        None
    } else {
        m
    }
}

/// What a shard receives is its own share, whatever other shards there are: the
/// share is a function of the metadata record and of the shard alone. Two
/// different shards zero would compete for a file, so there is at most one.
pub proof fn law_share_depends_on_shard_alone<F: Fn(ShardIdentity, RelTag, u32) -> bool>(
    owner: spec_fn(ShardIdentity, RelTag, u32) -> bool,
    is_key_local: F,
    decoded: DecodedWALRecord,
    m: Option<MetadataView>,
    shards: Seq<ShardIdentity>,
    next_record_lsn: Lsn,
    pg_version: PgMajorVersion,
    records: Seq<(ShardIdentity, InterpretedView)>,
)
    requires
        decides(owner, is_key_local),
        one_shard_zero(shards),
        interpreted(is_key_local, decoded, m, shards, next_record_lsn, pg_version, records),
    ensures
        shards_of(records) == distinct(shards),
        forall|i: int|
            0 <= i < records.len() ==> (#[trigger] records[i]).1 == (InterpretedView {
                metadata_record: share_of(owner, m, records[i].0),
                batch: no_blocks(),
                next_record_lsn,
                flush_uncommitted: flush_of(decoded, pg_version),
                xid: decoded.xl_xid,
            }),
{
    let flush = flush_of(decoded, pg_version);
    let before = blank_records(distinct(shards), next_record_lsn, flush, decoded.xl_xid);
    law_distinct_shards(shards);
    law_only_metadata_differs(
        is_key_local,
        m,
        shards,
        next_record_lsn,
        flush,
        decoded.xl_xid,
        records,
    );
    assert forall|i: int| 0 <= i < records.len() implies (#[trigger] records[i]).1 == (
    InterpretedView {
        metadata_record: share_of(owner, m, records[i].0),
        batch: no_blocks(),
        next_record_lsn,
        flush_uncommitted: flush,
        xid: decoded.xl_xid,
    }) by {
        let shard = distinct(shards)[i];
        assert(records[i].0 == before[i].0);
        assert(distinct(shards).contains(shard));
        if m is Some && bits_of(m->0) is Some {
            law_bits_go_to_owners(owner, is_key_local, m->0, before, records, i);
        } else if m is Some && is_put(m->0) {
            if shard.spec_is_shard_zero() {
                assert forall|j: int| 0 <= j < i implies !(
                #[trigger] before[j]).0.spec_is_shard_zero() by {
                    assert(distinct(shards).contains(distinct(shards)[j]));
                }
                assert(first_shard_zero(before, i));
            }
        }
    }
}

/// Whether `is_key_local` says one thing of a page: whether a shard owns it
/// depends on the shard and the page alone.
pub open spec fn answers_alike<F: Fn(ShardIdentity, RelTag, u32) -> bool>(
    is_key_local: F,
) -> bool {
    forall|s: ShardIdentity, r: RelTag, b: u32, x: bool, y: bool|
        #![trigger is_key_local.ensures((s, r, b), x), is_key_local.ensures((s, r, b), y)]
        is_key_local.ensures((s, r, b), x) && is_key_local.ensures((s, r, b), y) ==> x == y
}

/// Whether `serialize` makes the same blocks for a shard whatever other shards
/// it is asked for.
pub open spec fn serializes_alike<
    E,
    G: Fn(&DecodedWALRecord, Vec<ShardIdentity>, Lsn, PgMajorVersion, WalFormat) -> Result<
        Vec<SerializedValueBatch>,
        E,
    >,
>(
    serialize: G,
    decoded: DecodedWALRecord,
    next_record_lsn: Lsn,
    pg_version: PgMajorVersion,
    wal_format: WalFormat,
) -> bool {
    forall|
        asked1: Vec<ShardIdentity>,
        asked2: Vec<ShardIdentity>,
        batches1: Vec<SerializedValueBatch>,
        batches2: Vec<SerializedValueBatch>,
        i: int,
        j: int,
    |
        #![trigger serialize.ensures(
            (&decoded, asked1, next_record_lsn, pg_version, wal_format),
            Ok(batches1),
        ), serialize.ensures(
            (&decoded, asked2, next_record_lsn, pg_version, wal_format),
            Ok(batches2),
        ), batches1@[i], batches2@[j]]
        serialize.ensures(
            (&decoded, asked1, next_record_lsn, pg_version, wal_format),
            Ok(batches1),
        ) && serialize.ensures(
            (&decoded, asked2, next_record_lsn, pg_version, wal_format),
            Ok(batches2),
        ) && 0 <= i < asked1@.len() && 0 <= j < asked2@.len() && asked1@[i] == asked2@[j]
            ==> batches1@[i]@ == batches2@[j]@
}

/// What a shard receives of a record does not depend on which other shards the
/// record is interpreted for, nor on their order or repetition: of two outcomes
/// for lists that both hold `shard`, its records are equal.
///
/// Neither list has two different shards zero. Who owns a page, and the blocks
/// that are made for a shard, do not depend on the other shards either.
pub proof fn law_other_shards_do_not_matter<
    F: Fn(ShardIdentity, RelTag, u32) -> bool,
    E,
    G: Fn(&DecodedWALRecord, Vec<ShardIdentity>, Lsn, PgMajorVersion, WalFormat) -> Result<
        Vec<SerializedValueBatch>,
        E,
    >,
>(
    is_key_local: F,
    serialize: G,
    decoded: DecodedWALRecord,
    m: Result<Option<MetadataView>, DecodeError>,
    next_record_lsn: Lsn,
    pg_version: PgMajorVersion,
    wal_format: WalFormat,
    shards_a: Seq<ShardIdentity>,
    shards_b: Seq<ShardIdentity>,
    res_a: Result<ShardRecords, InterpretError<E>>,
    res_b: Result<ShardRecords, InterpretError<E>>,
    shard: ShardIdentity,
)
    requires
        answers_alike(is_key_local),
        serializes_alike(serialize, decoded, next_record_lsn, pg_version, wal_format),
        one_shard_zero(shards_a),
        one_shard_zero(shards_b),
        shards_a.contains(shard),
        shards_b.contains(shard),
        outcome(
            is_key_local,
            serialize,
            decoded,
            m,
            shards_a,
            next_record_lsn,
            pg_version,
            wal_format,
            res_a,
        ),
        outcome(
            is_key_local,
            serialize,
            decoded,
            m,
            shards_b,
            next_record_lsn,
            pg_version,
            wal_format,
            res_b,
        ),
        res_a is Ok,
        res_b is Ok,
    ensures
        shards_of(res_a->Ok_0@).contains(shard),
        shards_of(res_b->Ok_0@).contains(shard),
        forall|i: int, j: int|
            #![trigger res_a->Ok_0@[i], res_b->Ok_0@[j]]
            0 <= i < res_a->Ok_0@.len() && 0 <= j < res_b->Ok_0@.len() && res_a->Ok_0@[i].0
                == shard && res_b->Ok_0@[j].0 == shard ==> res_a->Ok_0@[i] == res_b->Ok_0@[j],
{
    let owner = |s: ShardIdentity, r: RelTag, b: u32|
        choose|owned: bool| #[trigger] is_key_local.ensures((s, r, b), owned);
    assert(decides(owner, is_key_local));
    let (asked_a, batches_a) = lemma_full_records(
        owner,
        is_key_local,
        serialize,
        decoded,
        m,
        shards_a,
        next_record_lsn,
        pg_version,
        wal_format,
        res_a,
    );
    let (asked_b, batches_b) = lemma_full_records(
        owner,
        is_key_local,
        serialize,
        decoded,
        m,
        shards_b,
        next_record_lsn,
        pg_version,
        wal_format,
        res_b,
    );
    law_distinct_shards(shards_a);
    law_distinct_shards(shards_b);
    assert(distinct(shards_a).contains(shard));
    assert(distinct(shards_b).contains(shard));
    let (a, b) = (res_a->Ok_0@, res_b->Ok_0@);
    assert forall|i: int, j: int|
        #![trigger a[i], b[j]]
        0 <= i < a.len() && 0 <= j < b.len() && a[i].0 == shard && b[j].0
            == shard implies a[i] == b[j] by {
        assert(shards_of(a)[i] == asked_a@[i]);
        assert(shards_of(b)[j] == asked_b@[j]);
        assert(batches_a@[i]@ == batches_b@[j]@);
    }
}

/// Every record of an outcome is the share of its shard, with the blocks that
/// were made for it.
proof fn lemma_full_records<
    F: Fn(ShardIdentity, RelTag, u32) -> bool,
    E,
    G: Fn(&DecodedWALRecord, Vec<ShardIdentity>, Lsn, PgMajorVersion, WalFormat) -> Result<
        Vec<SerializedValueBatch>,
        E,
    >,
>(
    owner: spec_fn(ShardIdentity, RelTag, u32) -> bool,
    is_key_local: F,
    serialize: G,
    decoded: DecodedWALRecord,
    m: Result<Option<MetadataView>, DecodeError>,
    shards: Seq<ShardIdentity>,
    next_record_lsn: Lsn,
    pg_version: PgMajorVersion,
    wal_format: WalFormat,
    res: Result<ShardRecords, InterpretError<E>>,
) -> (asked_and_made: (Vec<ShardIdentity>, Vec<SerializedValueBatch>))
    requires
        decides(owner, is_key_local),
        one_shard_zero(shards),
        outcome(
            is_key_local,
            serialize,
            decoded,
            m,
            shards,
            next_record_lsn,
            pg_version,
            wal_format,
            res,
        ),
        res is Ok,
    ensures
        m is Ok,
        shards_of(res->Ok_0@) == distinct(shards),
        asked_and_made.0@ == distinct(shards),
        serialize.ensures(
            (&decoded, asked_and_made.0, next_record_lsn, pg_version, wal_format),
            Ok(asked_and_made.1),
        ),
        forall|i: int|
            0 <= i < res->Ok_0@.len() ==> (#[trigger] res->Ok_0@[i]).1 == (InterpretedView {
                metadata_record: share_of(owner, m->Ok_0, res->Ok_0@[i].0),
                batch: asked_and_made.1@[i]@,
                next_record_lsn,
                flush_uncommitted: flush_of(decoded, pg_version),
                xid: decoded.xl_xid,
            }),
{
    let m = m->Ok_0;
    let (asked, blocks) = choose|
        asked: Vec<ShardIdentity>,
        blocks: Result<Vec<SerializedValueBatch>, E>,
    | #[trigger]
        answer_for(
            is_key_local,
            serialize,
            decoded,
            m,
            shards,
            next_record_lsn,
            pg_version,
            wal_format,
            asked,
            blocks,
            res,
        );
    let batches = blocks->Ok_0;
    let records = res->Ok_0@;
    let before = choose|before: Seq<(ShardIdentity, InterpretedView)>|
        {
            &&& #[trigger] interpreted(
                is_key_local,
                decoded,
                m,
                shards,
                next_record_lsn,
                pg_version,
                before,
            )
            &&& records == with_batches(before, batches@)
        };
    law_share_depends_on_shard_alone(
        owner,
        is_key_local,
        decoded,
        m,
        shards,
        next_record_lsn,
        pg_version,
        before,
    );
    assert(shards_of(records) =~= shards_of(before));
    (asked, batches)
}

/// Everything that is neither a visibility map update nor a file to be stored
/// reaches all shards alike.
pub proof fn law_rest_is_broadcast<F: Fn(ShardIdentity, RelTag, u32) -> bool>(
    is_key_local: F,
    m: Option<MetadataView>,
    before: Seq<(ShardIdentity, InterpretedView)>,
    after: Seq<(ShardIdentity, InterpretedView)>,
)
    requires
        m is Some ==> bits_of(m->0) is None && !is_put(m->0),
        routed(is_key_local, m, before, after),
    ensures
        after.len() == before.len(),
        forall|i: int|
            0 <= i < after.len() ==> (#[trigger] after[i]).1.metadata_record == m,
{
}

/// Only heap records and Neon's clear bits of the visibility map, and only
/// logical messages store files: every other record is sent to all shards.
pub proof fn law_what_is_not_broadcast(
    decoded: DecodedWALRecord,
    next_record_lsn: Lsn,
    pg_version: PgMajorVersion,
    wal_format: WalFormat,
    xl: Option<XlRecord>,
    testing: bool,
)
    ensures
        metadata_of(decoded, next_record_lsn, pg_version, wal_format, xl, testing) matches Ok(
            Some(m),
        ) ==> {
            &&& bits_of(m) is Some ==> decoded.xl_rmid == RM_HEAP_ID || decoded.xl_rmid
                == RM_HEAP2_ID || decoded.xl_rmid == RM_NEON_ID
            &&& is_put(m) ==> decoded.xl_rmid == RM_LOGICALMSG_ID
        },
{
}

/// A flush is asked for exactly where the record stands for the creation of a
/// database.
pub proof fn law_flush_on_dbase_create(
    decoded: DecodedWALRecord,
    next_record_lsn: Lsn,
    pg_version: PgMajorVersion,
    wal_format: WalFormat,
    xl: Option<XlRecord>,
    testing: bool,
)
    ensures
        flush_of(decoded, pg_version) is Yes <==> (metadata_of(
            decoded,
            next_record_lsn,
            pg_version,
            wal_format,
            xl,
            testing,
        ) matches Ok(Some(MetadataView::Dbase(DbaseView::Create(_))))),
{
}

/// A database creation that logs every page, which came with PostgreSQL 15,
/// stands for nothing and asks for no flush.
pub proof fn law_logged_dbase_create_is_nothing(
    decoded: DecodedWALRecord,
    next_record_lsn: Lsn,
    pg_version: PgMajorVersion,
    wal_format: WalFormat,
    xl: Option<XlRecord>,
    testing: bool,
)
    requires
        decoded.xl_rmid == RM_DBASE_ID,
        decoded.xl_info & XLR_RMGR_INFO_MASK == XLOG_DBASE_CREATE_WAL_LOG,
        !(pg_version is PG14),
    ensures
        metadata_of(decoded, next_record_lsn, pg_version, wal_format, xl, testing) == Ok::<
            Option<MetadataView>,
            DecodeError,
        >(None),
        flush_of(decoded, pg_version) is No,
{
}

/// Only the decoders of Neon's records, of logical messages and of UHeap and
/// its undo can fail.
pub proof fn law_who_can_fail(
    decoded: DecodedWALRecord,
    next_record_lsn: Lsn,
    pg_version: PgMajorVersion,
    wal_format: WalFormat,
    xl: Option<XlRecord>,
    testing: bool,
)
    ensures
        metadata_of(decoded, next_record_lsn, pg_version, wal_format, xl, testing) is Err ==> {
            let rmid = decoded.xl_rmid;
            rmid == RM_NEON_ID || rmid == RM_LOGICALMSG_ID || rmid == RM_UHEAP_ID || rmid
                == RM_UHEAP2_ID || rmid == RM_UHEAPUNDO_ID
        },
{
}

/// Records of the resource managers that are not followed stand for nothing.
pub proof fn law_not_followed(
    decoded: DecodedWALRecord,
    next_record_lsn: Lsn,
    pg_version: PgMajorVersion,
    wal_format: WalFormat,
    xl: Option<XlRecord>,
    testing: bool,
)
    requires
        ({
            let rmid = decoded.xl_rmid;
            rmid == RM_TBLSPC_ID || rmid == RM_SLOT_ID || rmid == RM_HEAP3_ID || rmid
                == RM_BARRIER_ID || rmid == RM_MOT_ID || rmid == RM_COMPRESSION_REL_ID || rmid
                == RM_LOGICALDDLMSG_ID || rmid == RM_GENERIC_ID
        }),
    ensures
        metadata_of(decoded, next_record_lsn, pg_version, wal_format, xl, testing) == Ok::<
            Option<MetadataView>,
            DecodeError,
        >(None),
{
}

/// A record whose type asks for no structure at the front of its main data can
/// be read whatever its main data is. New pages of transaction state, the
/// commit log of openGauss and UHeap multi-inserts are the exceptions: their
/// main data has to be long enough.
pub proof fn law_readable_without_a_fixed_part(
    decoded: DecodedWALRecord,
    pg_version: PgMajorVersion,
    wal_format: WalFormat,
    xl: Option<XlRecord>,
)
    requires
        needed_kind(decoded, pg_version, wal_format) is None,
        decoded.xl_rmid != RM_CLOG_ID,
        decoded.xl_rmid == RM_MULTIXACT_ID ==> !is_multixact_zero_page(decoded.xl_info),
        decoded.xl_rmid == RM_UHEAP_ID ==> decoded.xl_info & XLOG_UHEAP_OPMASK
            != XLOG_UHEAP_MULTI_INSERT,
    ensures
        complete(decoded, pg_version, wal_format, xl) <==> decoded.main_data_offset <= contents(
            decoded.record,
        ).len(),
{
}

/// What a heap record clears does not depend on the version or the format of
/// the log beyond the layout of its fixed part.
pub proof fn law_heap_versions_agree(
    decoded: DecodedWALRecord,
    xl: Option<XlRecord>,
    lsn1: Lsn,
    lsn2: Lsn,
    pg_version1: PgMajorVersion,
    pg_version2: PgMajorVersion,
    wal_format1: WalFormat,
    wal_format2: WalFormat,
    testing1: bool,
    testing2: bool,
)
    requires
        decoded.xl_rmid == RM_HEAP_ID || decoded.xl_rmid == RM_HEAP2_ID,
    ensures
        metadata_of(decoded, lsn1, pg_version1, wal_format1, xl, testing1) == metadata_of(
            decoded,
            lsn2,
            pg_version2,
            wal_format2,
            xl,
            testing2,
        ),
{
}

/// A record of the Neon resource manager clears the same bits as a heap record
/// with the same fixed part and the same blocks.
pub proof fn law_neon_like_heap(
    neon: DecodedWALRecord,
    heap: DecodedWALRecord,
    next_record_lsn: Lsn,
    pg_version: PgMajorVersion,
    wal_format: WalFormat,
    xl: Option<XlRecord>,
    testing: bool,
)
    requires
        neon.xl_rmid == RM_NEON_ID,
        neon_kind(neon.xl_info, pg_version) is Ok,
        heap.xl_rmid == RM_HEAP_ID || heap.xl_rmid == RM_HEAP2_ID,
        heap_kind(heap.xl_rmid, heap.xl_info) is Some,
        neon.blocks@ == heap.blocks@,
    ensures
        ({
            let n = metadata_of(neon, next_record_lsn, pg_version, wal_format, xl, testing);
            let h = metadata_of(heap, next_record_lsn, pg_version, wal_format, xl, testing);
            &&& n is Ok
            &&& h is Ok
            &&& n->Ok_0 is Some <==> h->Ok_0 is Some
            &&& n->Ok_0 is Some ==> bits_of(n->Ok_0->0) is Some && bits_of(n->Ok_0->0) == bits_of(
                h->Ok_0->0,
            )
        }),
{
}

/// A lock clears the all-frozen bit of an old block alone. Every other heap
/// record clears all bits. The map is that of the first block's relation, and
/// the blocks are among those that the record refers to.
pub proof fn law_bits_cleared(body: XlBody, blocks: Seq<DecodedBkpBlock>)
    requires
        clear_vm_bits(body, blocks) is Some,
        blocks.len() > 0,
    ensures
        ({
            let c = clear_vm_bits(body, blocks)->0;
            let lock = body is HeapLock || body is HeapLockUpdated;
            &&& c.flags == if lock {
                VISIBILITYMAP_ALL_FROZEN
            } else {
                VISIBILITYMAP_VALID_BITS
            }
            &&& lock ==> c.new_heap_blkno is None
            &&& c.old_heap_blkno is Some ==> lock || body is HeapUpdate
            &&& c.new_heap_blkno is Some || c.old_heap_blkno is Some
            &&& c.new_heap_blkno is Some ==> c.new_heap_blkno->0 == blocks.first().blkno
            &&& c.old_heap_blkno is Some ==> c.old_heap_blkno->0 == (if lock {
                blocks.first()
            } else {
                blocks.last()
            }).blkno
            &&& c.vm_rel.spcnode == blocks.first().rnode_spcnode
            &&& c.vm_rel.dbnode == blocks.first().rnode_dbnode
            &&& c.vm_rel.relnode == blocks.first().rnode_relnode
        }),
{
}

/// Segment and place in the segment give back the page, and the place is one
/// that a segment has.
pub proof fn law_page_in_segment(pageno: u32)
    ensures
        segno_of(pageno) * SLRU_PAGES_PER_SEGMENT + rpageno_of(pageno) == pageno,
        rpageno_of(pageno) < SLRU_PAGES_PER_SEGMENT,
{
}

/// New pages of transaction state are decoded alike in every version and
/// format: they differ in the width of the page number alone.
pub proof fn law_zero_pages_agree(
    decoded: DecodedWALRecord,
    next_record_lsn: Lsn,
    pg_version1: PgMajorVersion,
    pg_version2: PgMajorVersion,
    wal_format1: WalFormat,
    wal_format2: WalFormat,
    xl: Option<XlRecord>,
    testing: bool,
)
    requires
        metadata_of(decoded, next_record_lsn, pg_version1, wal_format1, xl, testing) matches Ok(
            Some(MetadataView::Clog(ClogRecord::ZeroPage(_))),
        ) || metadata_of(
            decoded,
            next_record_lsn,
            pg_version1,
            wal_format1,
            xl,
            testing,
        ) matches Ok(Some(MetadataView::MultiXact(MultiXactView::ZeroPage(_)))),
    ensures
        metadata_of(decoded, next_record_lsn, pg_version2, wal_format2, xl, testing)
            == metadata_of(decoded, next_record_lsn, pg_version1, wal_format1, xl, testing),
{
}

/// The path of a file to be stored is what follows `neon-file:` in the prefix.
pub proof fn law_prefix_is_scheme_and_path(prefix: Seq<char>, message: Seq<u8>, testing: bool)
    ensures
        prefixed_message_metadata(prefix, message, testing) matches Some(
            MetadataView::LogicalMessage(LogicalMessageView::Put(put)),
        ) ==> prefix == "neon-file:"@ + put.path && put.buf == message,
{
    if names_file(prefix) {
        assert(prefix =~= "neon-file:"@ + path_of(prefix));
    }
}

/// Outside tests no message is a failpoint, and a test sees every other message
/// as it is seen outside.
pub proof fn law_failpoints_in_tests_only(prefix: Seq<char>, message: Seq<u8>)
    ensures
        prefixed_message_metadata(prefix, message, false) != Some(
            MetadataView::LogicalMessage(LogicalMessageView::Failpoint),
        ),
        prefix != "neon-test"@ ==> prefixed_message_metadata(prefix, message, true)
            == prefixed_message_metadata(prefix, message, false),
{
}

/// No UHeap record is kept whole: its three type bits name eight types, all of
/// them known.
pub proof fn law_uheap_types_all_known(main: Seq<u8>, xl_info: u8)
    ensures
        !(uheap_metadata(main, xl_info) matches Ok(
            Some(MetadataView::UHeap(UHeapView::Generic(_))),
        )),
{
    assert({
        let op = xl_info & 0x70;
        op == 0x00 || op == 0x10 || op == 0x20 || op == 0x30 || op == 0x40 || op == 0x50 || op
            == 0x60 || op == 0x70
    }) by (bit_vector);
}

/// The bytes that a UHeap record of type `op` has to have.
pub open spec fn uheap_need(op: u8) -> int {
    if op == XLOG_UHEAP_INSERT {
        4
    } else if op == XLOG_UHEAP_MULTI_INSERT {
        5
    } else if op == XLOG_UHEAP_INVALID_TD_SLOT || op == XLOG_UHEAP_NEW_PAGE {
        0
    } else {
        12
    }
}

/// A UHeap record is refused exactly when its main data is too short for its
/// type or, in a multi-insert, for one of its tuples.
pub proof fn law_uheap_refused_when_short(main: Seq<u8>, xl_info: u8)
    ensures
        uheap_metadata(main, xl_info) is Err <==> {
            let op = xl_info & XLOG_UHEAP_OPMASK;
            ||| main.len() < uheap_need(op)
            ||| op == XLOG_UHEAP_MULTI_INSERT && tuples_in(
                main.skip(5),
                tuple_count(i32_at(main, 0)),
            ) is Err
        },
{
    law_uheap_types_all_known(main, xl_info);
}

/// The bytes that tuples take.
pub open spec fn tuples_len(tuples: Seq<UHeapTupleView>) -> nat
    decreases tuples.len(),
{
    if tuples.len() == 0 {
        0
    } else {
        13 + tuples[0].data.len() + tuples_len(tuples.skip(1))
    }
}

/// A multi-insert that is decoded yields as many tuples as it counts, each with
/// as much data as it says, and what is left over follows the last of them.
pub proof fn law_multi_insert_takes_its_tuples(s: Seq<u8>, n: nat)
    requires
        tuples_in(s, n) is Ok,
    ensures
        tuples_in(s, n)->Ok_0.len() == n,
        forall|i: int|
            0 <= i < n ==> (#[trigger] tuples_in(s, n)->Ok_0[i]).data.len() == tuples_in(
                s,
                n,
            )->Ok_0[i].datalen,
        tuples_len(tuples_in(s, n)->Ok_0) <= s.len(),
        after_tuples(s, n) == s.skip(tuples_len(tuples_in(s, n)->Ok_0) as int),
    decreases n,
{
    if n == 0 {
        assert(s.skip(0) =~= s);
    } else {
        let rest = after_front_tuple(s);
        let m = (n - 1) as nat;
        assert(front_tuple_error(s) is None);
        law_multi_insert_takes_its_tuples(rest, m);
        let first = front_tuple(s);
        let more = tuples_in(rest, m)->Ok_0;
        let all = tuples_in(s, n)->Ok_0;
        assert(all =~= seq![first] + more);
        assert(all.skip(1) =~= more);
        assert forall|i: int| 0 <= i < n implies (#[trigger] all[i]).data.len()
            == all[i].datalen by {
            if i > 0 {
                assert(all[i] == more[i - 1]);
            }
        }
        assert(tuples_len(all) == 13 + first.data.len() + tuples_len(more));
        assert(rest.skip(tuples_len(more) as int) =~= s.skip(tuples_len(all) as int));
    }
}

} // verus!
