//! Which shard receives which part of a metadata record.

use crate::constants::{HEAPBLK_TO_MAPBLOCK, HEAPBLOCKS_PER_PAGE};
use crate::interpreted::InterpretedView;
use crate::records::{
    opt_view, ClearVmBits, HeapamRecord, LogicalMessageRecord, LogicalMessageView, MetadataRecord,
    MetadataView, NeonrmgrRecord,
};
use crate::shard::{shards_of, ShardIdentity, ShardRecords};
use crate::types::RelTag;
use vstd::prelude::*;

verus! {

/// The visibility map bits that a metadata record clears, where that is what it
/// does.
pub open spec fn bits_of(m: MetadataView) -> Option<ClearVmBits> {
    match m {
        MetadataView::Heapam(HeapamRecord::ClearVmBits(c)) => Some(c),
        MetadataView::Neonrmgr(NeonrmgrRecord::ClearVmBits(c)) => Some(c),
        _ => None,
    }
}

/// The metadata record `m`, clearing the bits `c` in place of its own.
pub open spec fn with_bits(m: MetadataView, c: ClearVmBits) -> MetadataView {
    match m {
        MetadataView::Heapam(_) => MetadataView::Heapam(HeapamRecord::ClearVmBits(c)),
        MetadataView::Neonrmgr(_) => MetadataView::Neonrmgr(NeonrmgrRecord::ClearVmBits(c)),
        _ => m,
    }
}

/// Whether a metadata record is a file to be stored.
pub open spec fn is_put(m: MetadataView) -> bool {
    m matches MetadataView::LogicalMessage(LogicalMessageView::Put(_))
}

/// The page of the visibility map that covers heap block `heap_blk`.
pub open spec fn vm_page(heap_blk: u32) -> u32 {
    heap_blk / HEAPBLOCKS_PER_PAGE
}

/// `blkno`, where its page of the visibility map is owned.
pub open spec fn owned_block(blkno: Option<u32>, owned: bool) -> Option<u32> {
    if owned {
        blkno
    } else {
        None
    }
}

/// What is left of the bits `c` for a shard that owns the map page of the old
/// block or not, and that of the new block or not. Nothing is left where it
/// owns neither.
pub open spec fn bits_share(c: ClearVmBits, owns_old: bool, owns_new: bool) -> Option<
    ClearVmBits,
> {
    let old_heap_blkno = owned_block(c.old_heap_blkno, owns_old);
    let new_heap_blkno = owned_block(c.new_heap_blkno, owns_new);
    if old_heap_blkno is Some || new_heap_blkno is Some {
        Some(ClearVmBits { new_heap_blkno, old_heap_blkno, vm_rel: c.vm_rel, flags: c.flags })
    } else {
        None
    }
}

/// Whether `is_key_local` can be asked about each of `shards`.
pub open spec fn can_ask<F: Fn(ShardIdentity, RelTag, u32) -> bool>(
    is_key_local: F,
    shards: Seq<ShardIdentity>,
) -> bool {
    forall|s: ShardIdentity, r: RelTag, b: u32|
        shards.contains(s) ==> #[trigger] is_key_local.requires((s, r, b))
}

/// Whether `owned` is what `is_key_local` can say of `shard` and the map page
/// of block `blkno`. It is asked only where there is a block.
pub open spec fn answered<F: Fn(ShardIdentity, RelTag, u32) -> bool>(
    is_key_local: F,
    shard: ShardIdentity,
    vm_rel: RelTag,
    blkno: Option<u32>,
    owned: bool,
) -> bool {
    blkno matches Some(blk) ==> is_key_local.ensures((shard, vm_rel, vm_page(blk)), owned)
}

/// Whether `after` is what becomes of the metadata record `before` of `shard`
/// when `m`, which clears bits `c`, is shared out.
pub open spec fn bits_routed<F: Fn(ShardIdentity, RelTag, u32) -> bool>(
    is_key_local: F,
    shard: ShardIdentity,
    m: MetadataView,
    c: ClearVmBits,
    before: Option<MetadataView>,
    after: Option<MetadataView>,
) -> bool {
    exists|owns_old: bool, owns_new: bool|
        {
            &&& #[trigger] answered(is_key_local, shard, c.vm_rel, c.old_heap_blkno, owns_old)
            &&& #[trigger] answered(is_key_local, shard, c.vm_rel, c.new_heap_blkno, owns_new)
            &&& after == match bits_share(c, owns_old, owns_new) {
                Some(share) => Some(with_bits(m, share)),
                None => before,
            }
        }
}

/// Whether the `i`-th record is the first that is for shard zero.
pub open spec fn first_shard_zero(records: Seq<(ShardIdentity, InterpretedView)>, i: int) -> bool {
    &&& records[i].0.spec_is_shard_zero()
    &&& forall|j: int| 0 <= j < i ==> !(#[trigger] records[j]).0.spec_is_shard_zero()
}

/// Whether `after` differs from `before` in metadata records at most.
pub open spec fn only_metadata_changed(
    before: Seq<(ShardIdentity, InterpretedView)>,
    after: Seq<(ShardIdentity, InterpretedView)>,
) -> bool {
    &&& after.len() == before.len()
    &&& forall|i: int|
        0 <= i < before.len() ==> #[trigger] after[i] == (
            before[i].0,
            InterpretedView { metadata_record: after[i].1.metadata_record, ..before[i].1 },
        )
}

/// Whether `after` is what becomes of the records `before` when the metadata
/// record `m` is shared out.
///
/// Bits of the visibility map go to the shards that own its pages, each block
/// to the owner of its page. A file to be stored goes to shard zero alone.
/// Everything else goes to every shard.
pub open spec fn routed<F: Fn(ShardIdentity, RelTag, u32) -> bool>(
    is_key_local: F,
    m: Option<MetadataView>,
    before: Seq<(ShardIdentity, InterpretedView)>,
    after: Seq<(ShardIdentity, InterpretedView)>,
) -> bool {
    &&& only_metadata_changed(before, after)
    &&& if m is Some && bits_of(m->0) is Some {
        forall|i: int|
            0 <= i < before.len() ==> bits_routed(
                is_key_local,
                before[i].0,
                m->0,
                bits_of(m->0)->0,
                before[i].1.metadata_record,
                (#[trigger] after[i]).1.metadata_record,
            )
    } else if m is Some && is_put(m->0) {
        forall|i: int|
            0 <= i < before.len() ==> (#[trigger] after[i]).1.metadata_record
                == if first_shard_zero(before, i) {
                m
            } else {
                before[i].1.metadata_record
            }
    } else {
        forall|i: int|
            0 <= i < before.len() ==> (#[trigger] after[i]).1.metadata_record == m
    }
}

/// Where metadata records change at most, every shard keeps its record.
proof fn lemma_same_shards(
    before: Seq<(ShardIdentity, InterpretedView)>,
    after: Seq<(ShardIdentity, InterpretedView)>,
)
    requires
        only_metadata_changed(before, after),
    ensures
        shards_of(after) == shards_of(before),
{
    assert(shards_of(after) =~= shards_of(before)) by {
        assert forall|i: int| 0 <= i < before.len() implies #[trigger] shards_of(after)[i]
            == shards_of(before)[i] by {
            assert(after[i].0 == before[i].0);
        }
    }
}

impl ClearVmBits {
    /// Keeps the blocks whose map pages are owned, where there are any.
    pub fn share(&self, owns_old: bool, owns_new: bool) -> (share: Option<ClearVmBits>)
        ensures
            share == bits_share(*self, owns_old, owns_new),
    {
        let old_heap_blkno = if owns_old {
            self.old_heap_blkno
        } else {
            None
        };
        let new_heap_blkno = if owns_new {
            self.new_heap_blkno
        } else {
            None
        };
        // If neither page belongs to the shard, the record is not for it.
        if old_heap_blkno.is_some() || new_heap_blkno.is_some() {
            Some(
                ClearVmBits {
                    new_heap_blkno,
                    old_heap_blkno,
                    vm_rel: self.vm_rel,
                    flags: self.flags,
                },
            )
        } else {
            None
        }
    }
}

/// Asks whether a shard owns the map page of block `blkno`, where there is one.
fn is_local_vm_page<F: Fn(ShardIdentity, RelTag, u32) -> bool>(
    is_key_local: &F,
    shard: ShardIdentity,
    vm_rel: RelTag,
    blkno: Option<u32>,
) -> (owned: bool)
    requires
        forall|r: RelTag, b: u32| is_key_local.requires((shard, r, b)),
    ensures
        answered(*is_key_local, shard, vm_rel, blkno, owned),
{
    match blkno {
        Some(blk) => is_key_local(shard, vm_rel, HEAPBLK_TO_MAPBLOCK(blk)),
        None => false,
    }
}

impl ShardRecords {
    /// Shares out bits of the visibility map that a record of the heap's own
    /// resource managers clears, or one of Neon's.
    fn route_bits<F: Fn(ShardIdentity, RelTag, u32) -> bool>(
        &mut self,
        of_heap: bool,
        c: ClearVmBits,
        is_key_local: &F,
    )
        requires
            can_ask(*is_key_local, shards_of(old(self)@)),
        ensures
            routed(
                *is_key_local,
                Some(
                    if of_heap {
                        MetadataView::Heapam(HeapamRecord::ClearVmBits(c))
                    } else {
                        MetadataView::Neonrmgr(NeonrmgrRecord::ClearVmBits(c))
                    },
                ),
                old(self)@,
                final(self)@,
            ),
    {
        let ghost m = if of_heap {
            MetadataView::Heapam(HeapamRecord::ClearVmBits(c))
        } else {
            MetadataView::Neonrmgr(NeonrmgrRecord::ClearVmBits(c))
        };
        let ghost before = self@;
        let n = self.len();
        for i in 0..n
            invariant
                n == before.len(),
                can_ask(*is_key_local, shards_of(before)),
                m == if of_heap {
                    MetadataView::Heapam(HeapamRecord::ClearVmBits(c))
                } else {
                    MetadataView::Neonrmgr(NeonrmgrRecord::ClearVmBits(c))
                },
                only_metadata_changed(before, self@),
                forall|j: int| i <= j < before.len() ==> #[trigger] self@[j] == before[j],
                forall|j: int|
                    0 <= j < i ==> bits_routed(
                        *is_key_local,
                        before[j].0,
                        m,
                        c,
                        before[j].1.metadata_record,
                        (#[trigger] self@[j]).1.metadata_record,
                    ),
        {
            let shard = self.shard(i);
            assert(shards_of(before)[i as int] == shard);
            let owns_old = is_local_vm_page(is_key_local, shard, c.vm_rel, c.old_heap_blkno);
            let owns_new = is_local_vm_page(is_key_local, shard, c.vm_rel, c.new_heap_blkno);
            match c.share(owns_old, owns_new) {
                Some(share) => {
                    let for_shard = if of_heap {
                        MetadataRecord::Heapam(HeapamRecord::ClearVmBits(share))
                    } else {
                        MetadataRecord::Neonrmgr(NeonrmgrRecord::ClearVmBits(share))
                    };
                    self.set_metadata(i, Some(for_shard));
                },
                None => {},
            }
            assert(bits_routed(
                *is_key_local,
                before[i as int].0,
                m,
                c,
                before[i as int].1.metadata_record,
                self@[i as int].1.metadata_record,
            ));
        }
    }

    /// Shares out a metadata record: the shares as [`routed`] has them.
    pub fn route<F: Fn(ShardIdentity, RelTag, u32) -> bool>(
        &mut self,
        m: Option<MetadataRecord>,
        is_key_local: &F,
    )
        requires
            can_ask(*is_key_local, shards_of(old(self)@)),
        ensures
            routed(*is_key_local, opt_view(m), old(self)@, final(self)@),
            old(self).wf() ==> final(self).wf(),
    {
        self.share_out(m, is_key_local);
        proof {
            lemma_same_shards(old(self)@, self@);
        }
    }

    fn share_out<F: Fn(ShardIdentity, RelTag, u32) -> bool>(
        &mut self,
        m: Option<MetadataRecord>,
        is_key_local: &F,
    )
        requires
            can_ask(*is_key_local, shards_of(old(self)@)),
        ensures
            routed(*is_key_local, opt_view(m), old(self)@, final(self)@),
    {
        let ghost before = self@;
        let ghost view = opt_view(m);
        let n = self.len();
        match m {
            // Pages of the visibility map are shared out like any other pages.
            Some(MetadataRecord::Heapam(HeapamRecord::ClearVmBits(c))) => self.route_bits(
                true,
                c,
                is_key_local,
            ),
            Some(MetadataRecord::Neonrmgr(NeonrmgrRecord::ClearVmBits(c))) => self.route_bits(
                false,
                c,
                is_key_local,
            ),
            Some(MetadataRecord::LogicalMessage(LogicalMessageRecord::Put(put))) => {
                // Files are stored on shard zero alone.
                let put = Some(MetadataRecord::LogicalMessage(LogicalMessageRecord::Put(put)));
                for i in 0..n
                    invariant
                        n == before.len(),
                        self@ == before,
                        before == old(self)@,
                        view == opt_view(m),
                        view == opt_view(put),
                        view is Some && is_put(view->0),
                        forall|j: int|
                            0 <= j < i ==> !(#[trigger] before[j]).0.spec_is_shard_zero(),
                {
                    if self.shard(i).is_shard_zero() {
                        self.set_metadata(i, put);
                        // No other shard receives it.
                        return;
                    }
                }
            },
            m => {
                for i in 0..n
                    invariant
                        n == before.len(),
                        only_metadata_changed(before, self@),
                        forall|j: int|
                            0 <= j < i ==> (#[trigger] self@[j]).1.metadata_record == opt_view(m),
                {
                    let for_shard = match &m {
                        Some(m) => Some(m.clone()),
                        None => None,
                    };
                    self.set_metadata(i, for_shard);
                }
            },
        }
    }
}

} // verus!
