//! Who receives what, by block and shard numbers.

use crate::error::DecodeError;
use crate::interpret::{
    answer_for, can_serialize, filtered, flush_of, interpreted, interpreted_with_blocks, outcome,
    InterpretError,
};
use crate::interpreted::{
    FlushUncommittedRecords, InterpretedView, InterpretedWalRecord, SerializedValueBatch,
};
use crate::laws::numbers::lemma_info_bits;
use crate::laws::{
    decides, law_bits_go_to_owners, law_distinct_shards, law_only_metadata_differs,
};
use crate::records::{
    opt_view, ClearVmBits, HeapamRecord, LogicalMessageView, MetadataView, NeonrmgrRecord,
};
use crate::routing::{can_ask, first_shard_zero, routed, vm_page};
use crate::shard::{
    blank_records, distinct, shards_of, with_batches, with_metadata, ShardIdentity, ShardRecords,
};
use crate::types::{DecodedWALRecord, Lsn, PgMajorVersion, RelTag, WalFormat};
use vstd::prelude::*;

verus! {

/// Whether `page` is the map page of a block, where there is one: the page whose
/// 32672 blocks it is among.
pub open spec fn is_map_page(blkno: Option<u32>, page: u32) -> bool {
    blkno matches Some(b) ==> page * 32672 <= b < (page + 1) * 32672
}

/// The metadata record that clears bits, of a heap record or of a Neon one.
pub open spec fn clearing(of_neon: bool, c: ClearVmBits) -> MetadataView {
    if of_neon {
        MetadataView::Neonrmgr(NeonrmgrRecord::ClearVmBits(c))
    } else {
        MetadataView::Heapam(HeapamRecord::ClearVmBits(c))
    }
}

/// What becomes of a shard's metadata record when bits are shared out, for a
/// shard that owns the page of the old block, and of the new one, or not: it
/// receives the blocks of its pages, and keeps what it had where it owns none.
pub open spec fn after_clearing(
    of_neon: bool,
    c: ClearVmBits,
    owns_old: bool,
    owns_new: bool,
    before: Option<MetadataView>,
) -> Option<MetadataView> {
    let gets_old = owns_old && c.old_heap_blkno is Some;
    let gets_new = owns_new && c.new_heap_blkno is Some;
    if gets_old || gets_new {
        Some(
            clearing(
                of_neon,
                ClearVmBits {
                    old_heap_blkno: if gets_old {
                        c.old_heap_blkno
                    } else {
                        None
                    },
                    new_heap_blkno: if gets_new {
                        c.new_heap_blkno
                    } else {
                        None
                    },
                    vm_rel: c.vm_rel,
                    flags: c.flags,
                },
            ),
        )
    } else {
        before
    }
}

/// A page that covers a block is the only one, and is the one that the owners
/// are asked about.
pub proof fn law_map_page_is_unique(b: u32, page: u32)
    requires
        page * 32672 <= b < (page + 1) * 32672,
    ensures
        vm_page(b) == page,
{
}

/// Visibility map updates go to the shards that own the pages of the blocks,
/// each block to the owner of its page, the page being the one whose 32672
/// blocks it is among.
pub proof fn law_page_owners_receive_blocks<F: Fn(ShardIdentity, RelTag, u32) -> bool>(
    owner: spec_fn(ShardIdentity, RelTag, u32) -> bool,
    is_key_local: F,
    of_neon: bool,
    c: ClearVmBits,
    page_old: u32,
    page_new: u32,
    before: Seq<(ShardIdentity, InterpretedView)>,
    after: Seq<(ShardIdentity, InterpretedView)>,
    i: int,
)
    requires
        decides(owner, is_key_local),
        routed(is_key_local, Some(clearing(of_neon, c)), before, after),
        is_map_page(c.old_heap_blkno, page_old),
        is_map_page(c.new_heap_blkno, page_new),
        0 <= i < before.len(),
    ensures
        after[i].1.metadata_record == after_clearing(
            of_neon,
            c,
            owner(before[i].0, c.vm_rel, page_old),
            owner(before[i].0, c.vm_rel, page_new),
            before[i].1.metadata_record,
        ),
{
    let m = clearing(of_neon, c);
    law_bits_go_to_owners(owner, is_key_local, m, before, after, i);
    if c.old_heap_blkno is Some {
        law_map_page_is_unique(c.old_heap_blkno->0, page_old);
    }
    if c.new_heap_blkno is Some {
        law_map_page_is_unique(c.new_heap_blkno->0, page_new);
    }
}

/// Sharing out changes metadata records only: every shard keeps its place, its
/// position, its flush request, its transaction and its blocks.
pub proof fn law_sharing_keeps_the_rest<F: Fn(ShardIdentity, RelTag, u32) -> bool>(
    is_key_local: F,
    m: Option<MetadataView>,
    before: Seq<(ShardIdentity, InterpretedView)>,
    after: Seq<(ShardIdentity, InterpretedView)>,
)
    requires
        routed(is_key_local, m, before, after),
    ensures
        after.len() == before.len(),
        forall|i: int|
            #![trigger after[i]]
            0 <= i < before.len() ==> {
                &&& after[i].0 == before[i].0
                &&& after[i].1.batch == before[i].1.batch
                &&& after[i].1.next_record_lsn == before[i].1.next_record_lsn
                &&& after[i].1.flush_uncommitted == before[i].1.flush_uncommitted
                &&& after[i].1.xid == before[i].1.xid
            },
{
}

/// A file to be stored goes to one record for a shard of number zero, if there
/// is one, and every other record keeps what it had.
pub proof fn law_files_go_to_number_zero<F: Fn(ShardIdentity, RelTag, u32) -> bool>(
    is_key_local: F,
    m: MetadataView,
    before: Seq<(ShardIdentity, InterpretedView)>,
    after: Seq<(ShardIdentity, InterpretedView)>,
)
    requires
        m matches MetadataView::LogicalMessage(LogicalMessageView::Put(_)),
        routed(is_key_local, Some(m), before, after),
    ensures
        forall|i: int|
            0 <= i < before.len() && before[i].0.number != 0 ==> (
            #[trigger] after[i]).1.metadata_record == before[i].1.metadata_record,
        (exists|k: int| 0 <= k < before.len() && (#[trigger] before[k]).0.number == 0) ==> exists|
            k: int,
        |
            0 <= k < before.len() && #[trigger] before[k].0.number == 0
                && only_record_given(before, after, k, m),
{
    if exists|k: int| 0 <= k < before.len() && (#[trigger] before[k]).0.number == 0 {
        let k = choose|k: int| 0 <= k < before.len() && (#[trigger] before[k]).0.number == 0;
        let first = lemma_first_number_zero(before, k);
        assert(only_record_given(before, after, first, m)) by {
            assert forall|i: int| 0 <= i < before.len() implies (
            #[trigger] after[i]).1.metadata_record == if i == first {
                Some(m)
            } else {
                before[i].1.metadata_record
            } by {
                if first_shard_zero(before, i) && i != first {
                    assert(before[i].0.spec_is_shard_zero());
                    assert(before[first].0.spec_is_shard_zero());
                }
            }
        }
        assert(before[first].0.number == 0);
    }
}

/// Whether the `k`-th record was given metadata record `m` and no other record
/// was given any.
pub open spec fn only_record_given(
    before: Seq<(ShardIdentity, InterpretedView)>,
    after: Seq<(ShardIdentity, InterpretedView)>,
    k: int,
    m: MetadataView,
) -> bool {
    forall|i: int|
        0 <= i < before.len() ==> (#[trigger] after[i]).1.metadata_record == if i == k {
            Some(m)
        } else {
            before[i].1.metadata_record
        }
}

proof fn lemma_first_number_zero(
    records: Seq<(ShardIdentity, InterpretedView)>,
    k: int,
) -> (first: int)
    requires
        0 <= k < records.len(),
        records[k].0.number == 0,
    ensures
        0 <= first <= k,
        first_shard_zero(records, first),
        records[first].0.number == 0,
    decreases k,
{
    if exists|j: int| 0 <= j < k && (#[trigger] records[j]).0.number == 0 {
        let j = choose|j: int| 0 <= j < k && (#[trigger] records[j]).0.number == 0;
        lemma_first_number_zero(records, j)
    } else {
        k
    }
}

/// Whether a metadata record is one that not all shards receive: one that clears
/// bits, or a file to be stored.
pub open spec fn is_selective(m: MetadataView) -> bool {
    ||| m is Heapam
    ||| m is Neonrmgr
    ||| m matches MetadataView::LogicalMessage(LogicalMessageView::Put(_))
}

/// Any other metadata record, and none, is what every shard has afterwards.
pub proof fn law_others_go_to_all<F: Fn(ShardIdentity, RelTag, u32) -> bool>(
    is_key_local: F,
    m: Option<MetadataView>,
    before: Seq<(ShardIdentity, InterpretedView)>,
    after: Seq<(ShardIdentity, InterpretedView)>,
)
    requires
        m is Some ==> !is_selective(m->0),
        routed(is_key_local, m, before, after),
    ensures
        forall|i: int| 0 <= i < before.len() ==> (#[trigger] after[i]).1.metadata_record == m,
{
}

/// Where a record cannot be decoded, that is the outcome. Otherwise the
/// serializer is asked, for the shards that were given, each once, and for this
/// record, position, version and format; where it fails, its failure is the
/// outcome.
pub proof fn law_failures<
    F: Fn(ShardIdentity, RelTag, u32) -> bool,
    E,
    G: Fn(&DecodedWALRecord, Vec<ShardIdentity>, Lsn, PgMajorVersion, WalFormat) -> Result<
        Vec<SerializedValueBatch>,
        E,
    >,
>(
    is_key_local: F,
    serialize: G,
    decoded: DecodedWALRecord,
    m: Result<Option<MetadataView>, DecodeError>,
    shards: Seq<ShardIdentity>,
    next_record_lsn: Lsn,
    pg_version: PgMajorVersion,
    wal_format: WalFormat,
    res: Result<ShardRecords, InterpretError<E>>,
)
    requires
        outcome(
            is_key_local,
            serialize,
            decoded,
            m,
            shards,
            next_record_lsn,
            pg_version,
            wal_format,
            res,
        ),
    ensures
        m matches Err(e) ==> res == Err::<ShardRecords, InterpretError<E>>(
            InterpretError::Decode(e),
        ),
        m is Ok ==> exists|
            asked: Vec<ShardIdentity>,
            blocks: Result<Vec<SerializedValueBatch>, E>,
        |
            {
                &&& #[trigger] serialize.ensures(
                    (&decoded, asked, next_record_lsn, pg_version, wal_format),
                    blocks,
                )
                &&& asked@.no_duplicates()
                &&& forall|s: ShardIdentity| #[trigger]
                    asked@.contains(s) <==> shards.contains(s)
                &&& blocks is Ok <==> res is Ok
                &&& blocks matches Err(e) ==> res == Err::<ShardRecords, InterpretError<E>>(
                    InterpretError::Blocks(e),
                )
                &&& blocks matches Ok(batches) ==> {
                    &&& res->Ok_0@.len() == asked@.len()
                    &&& forall|i: int|
                        #![trigger res->Ok_0@[i]]
                        0 <= i < asked@.len() ==> res->Ok_0@[i].0 == asked@[i]
                            && res->Ok_0@[i].1.batch == batches@[i]@
                }
            },
{
    if m is Ok {
        let (asked, blocks) = choose|
            asked: Vec<ShardIdentity>,
            blocks: Result<Vec<SerializedValueBatch>, E>,
        | #[trigger]
            answer_for(
                is_key_local,
                serialize,
                decoded,
                m->Ok_0,
                shards,
                next_record_lsn,
                pg_version,
                wal_format,
                asked,
                blocks,
                res,
            );
        law_distinct_shards(shards);
        if blocks is Ok {
            let before = lemma_before_blocks(
                is_key_local,
                decoded,
                m->Ok_0,
                shards,
                next_record_lsn,
                pg_version,
                blocks->Ok_0@,
                res->Ok_0@,
            );
            assert forall|i: int|
                #![trigger res->Ok_0@[i]]
                0 <= i < asked@.len() implies res->Ok_0@[i].0 == asked@[i]
                && res->Ok_0@[i].1.batch == blocks->Ok_0@[i]@ by {
                assert(shards_of(before)[i] == before[i].0);
            }
        }
        assert(serialize.ensures(
            (&decoded, asked, next_record_lsn, pg_version, wal_format),
            blocks,
        ));
    }
}

/// The records of a successful outcome, before its blocks were put in.
proof fn lemma_before_blocks<F: Fn(ShardIdentity, RelTag, u32) -> bool>(
    is_key_local: F,
    decoded: DecodedWALRecord,
    m: Option<MetadataView>,
    shards: Seq<ShardIdentity>,
    next_record_lsn: Lsn,
    pg_version: PgMajorVersion,
    batches: Seq<SerializedValueBatch>,
    records: Seq<(ShardIdentity, InterpretedView)>,
) -> (before: Seq<(ShardIdentity, InterpretedView)>)
    requires
        interpreted_with_blocks(
            is_key_local,
            decoded,
            m,
            shards,
            next_record_lsn,
            pg_version,
            batches,
            records,
        ),
    ensures
        interpreted(is_key_local, decoded, m, shards, next_record_lsn, pg_version, before),
        records == with_batches(before, batches),
        shards_of(before) == distinct(shards),
{
    let before = choose|before: Seq<(ShardIdentity, InterpretedView)>|
        {
            &&& #[trigger] interpreted(
                is_key_local,
                decoded,
                m,
                shards,
                next_record_lsn,
                pg_version,
                before,
            )
            &&& records == with_batches(before, batches)
        };
    law_only_metadata_differs(
        is_key_local,
        m,
        shards,
        next_record_lsn,
        flush_of(decoded, pg_version),
        decoded.xl_xid,
        before,
    );
    before
}

/// What a shard receives of a record that was interpreted, written out: where
/// the record ends, its transaction, a flush request exactly for a database
/// creation by copy, and its share of the metadata.
pub proof fn law_what_a_shard_receives<
    F: Fn(ShardIdentity, RelTag, u32) -> bool,
    E,
    G: Fn(&DecodedWALRecord, Vec<ShardIdentity>, Lsn, PgMajorVersion, WalFormat) -> Result<
        Vec<SerializedValueBatch>,
        E,
    >,
>(
    owner: spec_fn(ShardIdentity, RelTag, u32) -> bool,
    is_key_local: F,
    serialize: G,
    decoded: DecodedWALRecord,
    m: Option<MetadataView>,
    shards: Seq<ShardIdentity>,
    next_record_lsn: Lsn,
    pg_version: PgMajorVersion,
    wal_format: WalFormat,
    res: Result<ShardRecords, InterpretError<E>>,
    i: int,
    page_old: u32,
    page_new: u32,
)
    requires
        decides(owner, is_key_local),
        outcome(
            is_key_local,
            serialize,
            decoded,
            Ok(m),
            shards,
            next_record_lsn,
            pg_version,
            wal_format,
            res,
        ),
        res is Ok,
        0 <= i < res->Ok_0@.len(),
    ensures
        ({
            let (shard, r) = res->Ok_0@[i];
            &&& shards.contains(shard)
            &&& r.next_record_lsn == next_record_lsn
            &&& r.xid == decoded.xl_xid
            &&& r.flush_uncommitted is Yes <==> decoded.xl_rmid == 4 && decoded.xl_info < 16
            &&& m is None || !is_selective(m->0) ==> r.metadata_record == m
            &&& m matches Some(MetadataView::LogicalMessage(LogicalMessageView::Put(_))) ==> {
                &&& shard.number != 0 ==> r.metadata_record is None
                &&& shard.number == 0 && (forall|t: ShardIdentity| #[trigger]
                    shards.contains(t) && t.number == 0 ==> t == shard) ==> r.metadata_record == m
                &&& r.metadata_record is Some ==> r.metadata_record == m
            }
            &&& m matches Some(MetadataView::Heapam(HeapamRecord::ClearVmBits(c))) ==> (is_map_page(
                c.old_heap_blkno,
                page_old,
            ) && is_map_page(c.new_heap_blkno, page_new) ==> r.metadata_record == after_clearing(
                false,
                c,
                owner(shard, c.vm_rel, page_old),
                owner(shard, c.vm_rel, page_new),
                None,
            ))
            &&& m matches Some(MetadataView::Neonrmgr(NeonrmgrRecord::ClearVmBits(c))) ==> (
            is_map_page(c.old_heap_blkno, page_old) && is_map_page(c.new_heap_blkno, page_new)
                ==> r.metadata_record == after_clearing(
                true,
                c,
                owner(shard, c.vm_rel, page_old),
                owner(shard, c.vm_rel, page_new),
                None,
            ))
        }),
{
    lemma_info_bits(decoded.xl_info);
    let (asked, blocks) = choose|
        asked: Vec<ShardIdentity>,
        blocks: Result<Vec<SerializedValueBatch>, E>,
    | #[trigger]
        answer_for(
            is_key_local,
            serialize,
            decoded,
            m,
            shards,
            next_record_lsn,
            pg_version,
            wal_format,
            asked,
            blocks,
            res,
        );
    let records = res->Ok_0@;
    let shared = lemma_before_blocks(
        is_key_local,
        decoded,
        m,
        shards,
        next_record_lsn,
        pg_version,
        blocks->Ok_0@,
        records,
    );
    let flush = flush_of(decoded, pg_version);
    let blank = blank_records(distinct(shards), next_record_lsn, flush, decoded.xl_xid);
    law_only_metadata_differs(
        is_key_local,
        m,
        shards,
        next_record_lsn,
        flush,
        decoded.xl_xid,
        shared,
    );
    law_distinct_shards(shards);
    let shard = records[i].0;
    assert(shared[i].0 == shard && blank[i].0 == shard);
    assert(distinct(shards)[i] == shard);
    assert(distinct(shards).contains(shard));
    if m is Some && m->0 is Heapam {
        let c = m->0->Heapam_0->ClearVmBits_0;
        if is_map_page(c.old_heap_blkno, page_old) && is_map_page(c.new_heap_blkno, page_new) {
            law_page_owners_receive_blocks(
                owner,
                is_key_local,
                false,
                c,
                page_old,
                page_new,
                blank,
                shared,
                i,
            );
        }
    } else if m is Some && m->0 is Neonrmgr {
        let c = m->0->Neonrmgr_0->ClearVmBits_0;
        if is_map_page(c.old_heap_blkno, page_old) && is_map_page(c.new_heap_blkno, page_new) {
            law_page_owners_receive_blocks(
                owner,
                is_key_local,
                true,
                c,
                page_old,
                page_new,
                blank,
                shared,
                i,
            );
        }
    } else if m matches Some(MetadataView::LogicalMessage(LogicalMessageView::Put(_))) {
        if shard.number == 0 && (forall|t: ShardIdentity| #[trigger]
            shards.contains(t) && t.number == 0 ==> t == shard) {
            assert forall|j: int| 0 <= j < i implies !(
            #[trigger] blank[j]).0.spec_is_shard_zero() by {
                assert(distinct(shards).contains(distinct(shards)[j]));
                assert(shards.contains(distinct(shards)[j]));
            }
            assert(first_shard_zero(blank, i));
        }
    }
}

/// Shards are served in the order in which they were given: a shard that has its
/// record before another was given before it.
pub proof fn law_first_given_first_served(shards: Seq<ShardIdentity>, i: int, j: int, l: int)
    requires
        0 <= i < j < distinct(shards).len(),
        0 <= l < shards.len(),
        shards[l] == distinct(shards)[j],
    ensures
        shards.take(l).contains(distinct(shards)[i]),
    decreases shards.len(),
{
    let front = shards.drop_last();
    let before = distinct(front);
    law_distinct_shards(front);
    if l < front.len() {
        assert(front[l] == shards[l]);
        assert(front.contains(shards[l]));
        assert(before.contains(shards[l]));
        law_distinct_shards(shards);
        let p = choose|p: int| 0 <= p < before.len() && before[p] == shards[l];
        assert(distinct(shards)[p] == distinct(shards)[j]);
        law_first_given_first_served(front, i, j, l);
        assert(front.take(l) =~= shards.take(l));
    } else {
        assert(before[i] == distinct(shards)[i]);
        assert(before.contains(before[i]));
        assert(shards.take(l) =~= front);
    }
}

/// A blank record tells nothing: no metadata and no block. There is one for each
/// shard that was given, with the position, the flush request and the
/// transaction that were given.
pub proof fn law_blank_records(
    shards: &[ShardIdentity],
    next_record_lsn: Lsn,
    flush_uncommitted: FlushUncommittedRecords,
    xid: u32,
    records: ShardRecords,
)
    requires
        call_ensures(
            ShardRecords::blank,
            (shards, next_record_lsn, flush_uncommitted, xid),
            records,
        ),
    ensures
        forall|i: int, j: int|
            #![trigger records@[i], records@[j]]
            0 <= i < j < records@.len() ==> records@[i].0 != records@[j].0,
        forall|k: int|
            0 <= k < shards@.len() ==> exists|i: int|
                0 <= i < records@.len() && (#[trigger] records@[i]).0 == #[trigger] shards@[k],
        forall|i: int|
            #![trigger records@[i]]
            0 <= i < records@.len() ==> {
                let (shard, r) = records@[i];
                &&& shards@.contains(shard)
                &&& r.metadata_record is None
                &&& has_no_block(r)
                &&& r.next_record_lsn == next_record_lsn
                &&& r.flush_uncommitted == flush_uncommitted
                &&& r.xid == xid
            },
{
    let d = distinct(shards@);
    law_distinct_shards(shards@);
    assert forall|i: int, j: int|
        #![trigger records@[i], records@[j]]
        0 <= i < j < records@.len() implies records@[i].0 != records@[j].0 by {
        assert(d[i] != d[j]);
    }
    assert forall|k: int| 0 <= k < shards@.len() implies exists|i: int|
        0 <= i < records@.len() && (#[trigger] records@[i]).0 == #[trigger] shards@[k] by {
        assert(shards@.contains(shards@[k]));
        assert(d.contains(shards@[k]));
        let i = choose|i: int| 0 <= i < d.len() && d[i] == shards@[k];
        assert(records@[i].0 == shards@[k]);
    }
    assert forall|i: int| #![trigger records@[i]] 0 <= i < records@.len() implies shards@.contains(
        records@[i].0,
    ) by {
        assert(d.contains(d[i]));
    }
}

/// Whether an interpreted record has no block to store.
pub open spec fn has_no_block(r: InterpretedView) -> bool {
    &&& r.batch.raw.len() == 0
    &&& r.batch.metadata.len() == 0
    &&& r.batch.max_lsn.0 == 0
    &&& r.batch.len == 0
}

/// A record that was interpreted but for its blocks has none, and has its other
/// fields: where it ends, its transaction, and a flush request exactly for a
/// database creation by copy.
pub proof fn law_before_the_blocks<F: Fn(ShardIdentity, RelTag, u32) -> bool>(
    is_key_local: F,
    decoded: DecodedWALRecord,
    m: Option<MetadataView>,
    shards: Seq<ShardIdentity>,
    next_record_lsn: Lsn,
    pg_version: PgMajorVersion,
    records: Seq<(ShardIdentity, InterpretedView)>,
    i: int,
)
    requires
        interpreted(is_key_local, decoded, m, shards, next_record_lsn, pg_version, records),
        0 <= i < records.len(),
    ensures
        ({
            let (shard, r) = records[i];
            &&& shards.contains(shard)
            &&& has_no_block(r)
            &&& r.next_record_lsn == next_record_lsn
            &&& r.xid == decoded.xl_xid
            &&& r.flush_uncommitted is Yes <==> decoded.xl_rmid == 4 && decoded.xl_info < 16
            &&& m is None || !is_selective(m->0) ==> r.metadata_record == m
        }),
{
    lemma_info_bits(decoded.xl_info);
    law_only_metadata_differs(
        is_key_local,
        m,
        shards,
        next_record_lsn,
        flush_of(decoded, pg_version),
        decoded.xl_xid,
        records,
    );
    law_distinct_shards(shards);
    assert(shards_of(records)[i] == records[i].0);
    assert(distinct(shards).contains(records[i].0));
}

/// An owner that answers for every page, and a serializer that answers with a
/// batch for each shard, can be asked for any shards.
pub proof fn law_who_can_be_asked<
    F: Fn(ShardIdentity, RelTag, u32) -> bool,
    E,
    G: Fn(&DecodedWALRecord, Vec<ShardIdentity>, Lsn, PgMajorVersion, WalFormat) -> Result<
        Vec<SerializedValueBatch>,
        E,
    >,
>(
    is_key_local: F,
    serialize: G,
    decoded: DecodedWALRecord,
    shards: Seq<ShardIdentity>,
    next_record_lsn: Lsn,
    pg_version: PgMajorVersion,
    wal_format: WalFormat,
)
    requires
        forall|s: ShardIdentity, r: RelTag, b: u32| #[trigger] is_key_local.requires((s, r, b)),
        forall|asked: Vec<ShardIdentity>| #[trigger]
            serialize.requires((&decoded, asked, next_record_lsn, pg_version, wal_format)),
        forall|asked: Vec<ShardIdentity>, batches: Vec<SerializedValueBatch>| #[trigger]
            serialize.ensures(
                (&decoded, asked, next_record_lsn, pg_version, wal_format),
                Ok(batches),
            ) ==> batches@.len() == asked@.len(),
    ensures
        can_ask(is_key_local, shards),
        can_serialize(serialize, decoded, shards, next_record_lsn, pg_version, wal_format),
{
}

/// Giving one record a metadata record changes that field of that record alone.
pub proof fn law_set_metadata_changes_one_field(
    records: Seq<(ShardIdentity, InterpretedView)>,
    i: int,
    m: Option<MetadataView>,
)
    requires
        0 <= i < records.len(),
    ensures
        ({
            let after = with_metadata(records, i, m);
            &&& after.len() == records.len()
            &&& after[i].1.metadata_record == m
            &&& after[i].0 == records[i].0
            &&& after[i].1.batch == records[i].1.batch
            &&& after[i].1.next_record_lsn == records[i].1.next_record_lsn
            &&& after[i].1.flush_uncommitted == records[i].1.flush_uncommitted
            &&& after[i].1.xid == records[i].1.xid
            &&& forall|j: int|
                0 <= j < records.len() && j != i ==> #[trigger] after[j] == records[j]
        }),
{
}

/// Filtering shares out what the record was decoded to, and where it was not
/// decoded gives the error and leaves the records alone.
pub proof fn law_filtering<F: Fn(ShardIdentity, RelTag, u32) -> bool>(
    is_key_local: F,
    m: Result<Option<MetadataView>, DecodeError>,
    before: Seq<(ShardIdentity, InterpretedView)>,
    after: Seq<(ShardIdentity, InterpretedView)>,
    res: Result<(), DecodeError>,
)
    requires
        filtered(is_key_local, m, before, after, res),
    ensures
        m is Ok <==> res is Ok,
        m is Ok ==> routed(is_key_local, m->Ok_0, before, after),
        m is Err ==> res->Err_0 == m->Err_0 && after == before,
{
}

/// What contracts say of an interpreted record they say of its fields.
pub proof fn law_interpreted_record_fields(r: InterpretedWalRecord)
    ensures
        r@.next_record_lsn == r.next_record_lsn,
        r@.flush_uncommitted == r.flush_uncommitted,
        r@.xid == r.xid,
        r@.metadata_record is Some <==> r.metadata_record is Some,
        r@.metadata_record == opt_view(r.metadata_record),
        r@.batch.raw == r.batch.raw@,
        r@.batch.metadata == r.batch.metadata@,
        r@.batch.max_lsn == r.batch.max_lsn,
        r@.batch.len == r.batch.len,
{
}

} // verus!
