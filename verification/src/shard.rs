//! Shards, and the records of one log record by shard.

use crate::interpreted::{
    no_blocks, FlushUncommittedRecords, InterpretedView, InterpretedWalRecord,
    SerializedValueBatch,
};
use crate::records::{opt_view, MetadataRecord, MetadataView};
use crate::types::Lsn;
use vstd::prelude::*;

verus! {

/// Which part of the data a shard holds.
#[derive(Clone, Copy, Debug, PartialEq, Eq, Structural, Hash)]
pub struct ShardIdentity {
    pub number: u8,
    pub count: u8,
    pub stripe_size: u32,
    pub layout: u8,
}

impl ShardIdentity {
    /// Whether this is shard zero, which stores what belongs to no relation.
    pub open spec fn spec_is_shard_zero(self) -> bool {
        self.number == 0
    }

    /// Tells whether this is shard zero.
    pub fn is_shard_zero(&self) -> (yes: bool)
        ensures
            yes == self.spec_is_shard_zero(),
    {
        self.number == 0
    }
}

/// The shards of `shards`, each once, in the order in which they first occur.
pub open spec fn distinct(shards: Seq<ShardIdentity>) -> Seq<ShardIdentity>
    decreases shards.len(),
{
    if shards.len() == 0 {
        Seq::empty()
    } else {
        let before = distinct(shards.drop_last());
        if before.contains(shards.last()) {
            before
        } else {
            before.push(shards.last())
        }
    }
}

/// A record that tells a shard nothing yet.
pub open spec fn blank_record(
    next_record_lsn: Lsn,
    flush_uncommitted: FlushUncommittedRecords,
    xid: u32,
) -> InterpretedView {
    InterpretedView {
        metadata_record: None,
        batch: no_blocks(),
        next_record_lsn,
        flush_uncommitted,
        xid,
    }
}

/// Blank records for `shards`.
pub open spec fn blank_records(
    shards: Seq<ShardIdentity>,
    next_record_lsn: Lsn,
    flush_uncommitted: FlushUncommittedRecords,
    xid: u32,
) -> Seq<(ShardIdentity, InterpretedView)> {
    Seq::new(
        shards.len(),
        |i: int| (shards[i], blank_record(next_record_lsn, flush_uncommitted, xid)),
    )
}

/// `records` with `batches` in them, in order.
pub open spec fn with_batches(
    records: Seq<(ShardIdentity, InterpretedView)>,
    batches: Seq<SerializedValueBatch>,
) -> Seq<(ShardIdentity, InterpretedView)> {
    Seq::new(
        records.len(),
        |i: int| (records[i].0, InterpretedView { batch: batches[i]@, ..records[i].1 }),
    )
}

/// The interpreted records of one log record: one for each shard.
#[derive(Debug)]
pub struct ShardRecords {
    entries: Vec<(ShardIdentity, InterpretedWalRecord)>,
}

impl View for ShardRecords {
    type V = Seq<(ShardIdentity, InterpretedView)>;

    closed spec fn view(&self) -> Seq<(ShardIdentity, InterpretedView)> {
        Seq::new(self.entries@.len(), |i: int| (self.entries@[i].0, self.entries@[i].1@))
    }
}

/// The shards that have a record.
pub open spec fn shards_of(records: Seq<(ShardIdentity, InterpretedView)>) -> Seq<ShardIdentity> {
    Seq::new(records.len(), |i: int| records[i].0)
}

impl ShardRecords {
    /// Whether no shard has two records.
    pub open spec fn wf(&self) -> bool {
        shards_of(self@).no_duplicates()
    }

    /// A blank record for each shard.
    pub fn blank(
        shards: &[ShardIdentity],
        next_record_lsn: Lsn,
        flush_uncommitted: FlushUncommittedRecords,
        xid: u32,
    ) -> (records: Self)
        ensures
            records.wf(),
            records@ == blank_records(
                distinct(shards@),
                next_record_lsn,
                flush_uncommitted,
                xid,
            ),
    {
        let mut records = ShardRecords { entries: Vec::new() };
        let ghost blank = blank_record(next_record_lsn, flush_uncommitted, xid);
        assert(shards_of(records@) =~= distinct(shards@.take(0)));
        for k in 0..shards.len()
            invariant
                records.wf(),
                shards_of(records@) == distinct(shards@.take(k as int)),
                forall|i: int| 0 <= i < records@.len() ==> (#[trigger] records@[i]).1 == blank,
                blank == blank_record(next_record_lsn, flush_uncommitted, xid),
        {
            let shard = shards[k];
            let ghost before = records@;
            assert(shards@.take(k + 1).drop_last() =~= shards@.take(k as int));
            match records.position(&shard) {
                Some(p) => {
                    assert(shards_of(records@)[p as int] == shard);
                },
                None => {
                    records.entries.push(
                        (
                            shard,
                            InterpretedWalRecord {
                                metadata_record: None,
                                batch: SerializedValueBatch::default(),
                                next_record_lsn,
                                flush_uncommitted,
                                xid,
                            },
                        ),
                    );
                    assert(records@ =~= before.push((shard, blank)));
                    assert(shards_of(records@) =~= shards_of(before).push(shard));
                },
            }
        }
        assert(shards@.take(shards@.len() as int) =~= shards@);
        assert forall|i: int| 0 <= i < records@.len() implies (#[trigger] records@[i]).0
            == distinct(shards@)[i] by {
            assert(records@[i].0 == shards_of(records@)[i]);
        }
        assert(records@ =~= blank_records(
            distinct(shards@),
            next_record_lsn,
            flush_uncommitted,
            xid,
        ));
        records
    }

    /// Where the record of a shard stands.
    fn position(&self, shard: &ShardIdentity) -> (p: Option<usize>)
        ensures
            p is Some ==> p->0 < self@.len() && self@[p->0 as int].0 == *shard,
            p is None ==> !shards_of(self@).contains(*shard),
    {
        for i in 0..self.entries.len()
            invariant
                forall|j: int| 0 <= j < i ==> (#[trigger] self@[j]).0 != *shard,
        {
            if self.entries[i].0 == *shard {
                return Some(i);
            }
        }
        None
    }

    /// How many shards have a record.
    pub fn len(&self) -> (n: usize)
        ensures
            n == self@.len(),
    {
        self.entries.len()
    }

    /// The shard that the `i`-th record is for.
    pub fn shard(&self, i: usize) -> (shard: ShardIdentity)
        requires
            i < self@.len(),
        ensures
            shard == self@[i as int].0,
    {
        self.entries[i].0
    }

    /// The shards that have a record, in order.
    pub fn shards(&self) -> (shards: Vec<ShardIdentity>)
        ensures
            shards@ == shards_of(self@),
    {
        let mut shards: Vec<ShardIdentity> = Vec::new();
        for i in 0..self.entries.len()
            invariant
                shards@.len() == i,
                forall|j: int| 0 <= j < i ==> #[trigger] shards@[j] == self@[j].0,
        {
            shards.push(self.entries[i].0);
        }
        assert(shards@ =~= shards_of(self@));
        shards
    }

    /// The record of a shard, where it has one.
    pub fn get(&self, shard: &ShardIdentity) -> (record: Option<&InterpretedWalRecord>)
        ensures
            record is Some <==> shards_of(self@).contains(*shard),
            record is Some ==> self@.contains((*shard, record->0@)),
    {
        match self.position(shard) {
            Some(p) => {
                assert(shards_of(self@)[p as int] == *shard);
                assert(self@[p as int] == (*shard, self.entries@[p as int].1@));
                Some(&self.entries[p].1)
            },
            None => None,
        }
    }

    /// Gives the `i`-th record a metadata record.
    pub fn set_metadata(&mut self, i: usize, m: Option<MetadataRecord>)
        requires
            i < old(self)@.len(),
        ensures
            final(self)@ == with_metadata(old(self)@, i as int, opt_view(m)),
    {
        self.entries[i].1.metadata_record = m;
        assert(self@ =~= with_metadata(old(self)@, i as int, opt_view(m)));
    }

    /// Puts the data blocks into the records: one batch for each, in order.
    pub fn fill_batches(self, batches: Vec<SerializedValueBatch>) -> (records: Self)
        requires
            batches@.len() == self@.len(),
        ensures
            records@ == with_batches(self@, batches@),
            self.wf() ==> records.wf(),
    {
        let mut records = self;
        let mut left = batches;
        while left.len() > 0
            invariant
                left@ == batches@.take(left@.len() as int),
                left@.len() <= batches@.len(),
                batches@.len() == self@.len(),
                records@.len() == self@.len(),
                forall|i: int| 0 <= i < left@.len() ==> #[trigger] records@[i] == self@[i],
                forall|i: int|
                    left@.len() <= i < self@.len() ==> #[trigger] records@[i] == with_batches(
                        self@,
                        batches@,
                    )[i],
            decreases left@.len(),
        {
            let i: usize = left.len() - 1;
            let ghost before = records@;
            assert(left@[i as int] == batches@[i as int]);
            match left.pop() {
                Some(batch) => {
                    assert(records@[i as int] == before[i as int]);
                    records.entries[i].1.batch = batch;
                    assert(records@ =~= before.update(
                        i as int,
                        with_batches(self@, batches@)[i as int],
                    ));
                },
                None => {},
            }
        }
        assert(records@ =~= with_batches(self@, batches@));
        assert(shards_of(records@) =~= shards_of(self@));
        records
    }

    /// Hands out the records.
    pub fn into_entries(self) -> (entries: Vec<(ShardIdentity, InterpretedWalRecord)>)
        ensures
            entries@.len() == self@.len(),
            forall|i: int|
                0 <= i < self@.len() ==> self@[i] == (
                    (#[trigger] entries@[i]).0,
                    entries@[i].1@,
                ),
    {
        self.entries
    }
}

/// `records` with metadata record `m` in the `i`-th of them.
pub open spec fn with_metadata(
    records: Seq<(ShardIdentity, InterpretedView)>,
    i: int,
    m: Option<MetadataView>,
) -> Seq<(ShardIdentity, InterpretedView)> {
    records.update(i, (records[i].0, InterpretedView { metadata_record: m, ..records[i].1 }))
}

} // verus!
