//! Calls of the library, by their arguments and results, and what their
//! contracts make of them.

use crate::bytebuf::contents;
use crate::constants::HEAPBLK_TO_MAPBLOCK;
use crate::decode::{complete, main_data, metadata_of, needed_kind};
use crate::error::DecodeError;
use crate::interpret::{can_serialize, flush_of, interpreted, outcome, InterpretError};
use crate::interpreted::{InterpretedWalRecord, SerializedValueBatch};
use crate::laws::numbers::lemma_info_bits;
use crate::records::{opt_view, res_view, ClearVmBits, MetadataRecord};
use crate::routing::can_ask;
use crate::shard::{ShardIdentity, ShardRecords};
use crate::types::{DecodedWALRecord, Lsn, PgMajorVersion, RelTag, WalFormat, XlKind, XlRecord};
use vstd::prelude::*;

verus! {

/// A call of [`MetadataRecord::from_decoded`]: its arguments and its result.
pub struct Decoding {
    pub decoded: DecodedWALRecord,
    pub xl: Option<XlRecord>,
    pub next_record_lsn: Lsn,
    pub pg_version: PgMajorVersion,
    pub wal_format: WalFormat,
    pub testing: bool,
    pub res: Result<Option<MetadataRecord>, DecodeError>,
}

impl Decoding {
    /// Whether the call gave what its contract says.
    pub open spec fn holds(self) -> bool {
        res_view(self.res) == metadata_of(
            self.decoded,
            self.next_record_lsn,
            self.pg_version,
            self.wal_format,
            self.xl,
            self.testing,
        )
    }

    /// The main data of the record: its bytes from the offset on.
    pub open spec fn data(self) -> Seq<u8> {
        contents(self.decoded.record).skip(self.decoded.main_data_offset as int)
    }

    /// The resource manager.
    pub open spec fn rmid(self) -> u8 {
        self.decoded.xl_rmid
    }

    /// The info byte.
    pub open spec fn info(self) -> u8 {
        self.decoded.xl_info
    }
}

/// How many bytes of main data a record has; negative where it ends before.
pub open spec fn data_len(decoded: DecodedWALRecord) -> int {
    contents(decoded.record).len() - decoded.main_data_offset
}

/// The contract of `from_decoded` is what [`Decoding::holds`] says, wherever the
/// record is complete.
pub proof fn law_from_decoded(c: Decoding)
    requires
        complete(c.decoded, c.pg_version, c.wal_format, c.xl),
        call_ensures(
            MetadataRecord::from_decoded,
            (&c.decoded, c.xl, c.next_record_lsn, c.pg_version, c.wal_format, c.testing),
            c.res,
        ),
    ensures
        c.holds(),
{
}

/// The contract of `is_complete` tells exactly whether `from_decoded` may be
/// called.
pub proof fn law_is_complete(
    decoded: DecodedWALRecord,
    pg_version: PgMajorVersion,
    wal_format: WalFormat,
    xl: Option<XlRecord>,
    next_record_lsn: Lsn,
    testing: bool,
    yes: bool,
)
    requires
        call_ensures(
            MetadataRecord::is_complete,
            (&decoded, pg_version, wal_format, &xl),
            yes,
        ),
    ensures
        yes == complete(decoded, pg_version, wal_format, xl),
        yes ==> call_requires(
            MetadataRecord::from_decoded,
            (&decoded, xl, next_record_lsn, pg_version, wal_format, testing),
        ),
{
}

/// The contract of `xl_kind` names the fixed part that `is_complete` goes by.
pub proof fn law_xl_kind(
    decoded: DecodedWALRecord,
    pg_version: PgMajorVersion,
    wal_format: WalFormat,
    kind: Option<XlKind>,
)
    requires
        call_ensures(MetadataRecord::xl_kind, (&decoded, pg_version, wal_format), kind),
    ensures
        kind == needed_kind(decoded, pg_version, wal_format),
{
}

/// Main data is the bytes of the record from the offset on, each in its place.
pub proof fn law_main_data(decoded: DecodedWALRecord)
    requires
        decoded.main_data_offset <= contents(decoded.record).len(),
    ensures
        main_data(decoded).len() + decoded.main_data_offset == contents(decoded.record).len(),
        forall|i: int|
            0 <= i < main_data(decoded).len() ==> #[trigger] main_data(decoded)[i] == contents(
                decoded.record,
            )[decoded.main_data_offset + i],
{
}

/// The map page of a heap block is the one whose blocks it is among.
pub proof fn law_map_page_of_block(heap_blk: u32, page: u32)
    requires
        call_ensures(HEAPBLK_TO_MAPBLOCK, (heap_blk,), page),
    ensures
        page * 32672 <= heap_blk < (page + 1) * 32672,
{
}

/// A record creates a database by copy exactly where it is a database record of
/// type zero, whatever its lower info bits and the version are.
pub proof fn law_create_copy(decoded: DecodedWALRecord, pg_version: PgMajorVersion, yes: bool)
    requires
        call_ensures(DecodedWALRecord::is_dbase_create_copy, (&decoded, pg_version), yes),
    ensures
        yes <==> decoded.xl_rmid == 4 && decoded.xl_info < 16,
        yes <==> flush_of(decoded, pg_version) is Yes,
{
    lemma_info_bits(decoded.xl_info);
}

/// Shard zero is the shard of number zero.
pub proof fn law_shard_zero(shard: ShardIdentity, yes: bool)
    requires
        call_ensures(ShardIdentity::is_shard_zero, (&shard,), yes),
    ensures
        yes <==> shard.number == 0,
        shard.spec_is_shard_zero() <==> shard.number == 0,
{
}

/// A share keeps a block exactly where its page is owned, and is there exactly
/// where it keeps one. Map and bits stay.
pub proof fn law_share_of_bits(
    c: ClearVmBits,
    owns_old: bool,
    owns_new: bool,
    share: Option<ClearVmBits>,
)
    requires
        call_ensures(ClearVmBits::share, (&c, owns_old, owns_new), share),
    ensures
        share is Some <==> (owns_old && c.old_heap_blkno is Some) || (owns_new
            && c.new_heap_blkno is Some),
        share is Some ==> {
            let s = share->0;
            &&& s.vm_rel == c.vm_rel
            &&& s.flags == c.flags
            &&& s.old_heap_blkno is Some <==> owns_old && c.old_heap_blkno is Some
            &&& s.old_heap_blkno is Some ==> s.old_heap_blkno == c.old_heap_blkno
            &&& s.new_heap_blkno is Some <==> owns_new && c.new_heap_blkno is Some
            &&& s.new_heap_blkno is Some ==> s.new_heap_blkno == c.new_heap_blkno
        },
{
}

/// The contract of `from_bytes_filtered` is an [`outcome`] of the metadata that
/// `from_decoded` finds.
pub proof fn law_from_bytes_filtered<
    F: Fn(ShardIdentity, RelTag, u32) -> bool,
    E,
    G: Fn(&DecodedWALRecord, Vec<ShardIdentity>, Lsn, PgMajorVersion, WalFormat) -> Result<
        Vec<SerializedValueBatch>,
        E,
    >,
>(
    c: Decoding,
    shards: &[ShardIdentity],
    is_key_local: F,
    serialize: G,
    res: Result<ShardRecords, InterpretError<E>>,
)
    requires
        c.holds(),
        complete(c.decoded, c.pg_version, c.wal_format, c.xl),
        can_ask(is_key_local, shards@),
        can_serialize(
            serialize,
            c.decoded,
            shards@,
            c.next_record_lsn,
            c.pg_version,
            c.wal_format,
        ),
        call_ensures(
            InterpretedWalRecord::from_bytes_filtered::<F, E, G>,
            (
                &c.decoded,
                c.xl,
                shards,
                c.next_record_lsn,
                c.pg_version,
                c.wal_format,
                c.testing,
                &is_key_local,
                &serialize,
            ),
            res,
        ),
    ensures
        outcome(
            is_key_local,
            serialize,
            c.decoded,
            res_view(c.res),
            shards@,
            c.next_record_lsn,
            c.pg_version,
            c.wal_format,
            res,
        ),
{
}

/// The contract of `from_bytes_filtered_if_complete` gives nothing exactly where
/// the record is not complete, and otherwise an [`outcome`] of the metadata that
/// `from_decoded` finds.
pub proof fn law_from_bytes_filtered_if_complete<
    F: Fn(ShardIdentity, RelTag, u32) -> bool,
    E,
    G: Fn(&DecodedWALRecord, Vec<ShardIdentity>, Lsn, PgMajorVersion, WalFormat) -> Result<
        Vec<SerializedValueBatch>,
        E,
    >,
>(
    c: Decoding,
    shards: &[ShardIdentity],
    is_key_local: F,
    serialize: G,
    res: Option<Result<ShardRecords, InterpretError<E>>>,
)
    requires
        c.holds(),
        can_ask(is_key_local, shards@),
        can_serialize(
            serialize,
            c.decoded,
            shards@,
            c.next_record_lsn,
            c.pg_version,
            c.wal_format,
        ),
        call_ensures(
            InterpretedWalRecord::from_bytes_filtered_if_complete::<F, E, G>,
            (
                &c.decoded,
                c.xl,
                shards,
                c.next_record_lsn,
                c.pg_version,
                c.wal_format,
                c.testing,
                &is_key_local,
                &serialize,
            ),
            res,
        ),
    ensures
        res is Some <==> complete(c.decoded, c.pg_version, c.wal_format, c.xl),
        res is Some ==> outcome(
            is_key_local,
            serialize,
            c.decoded,
            res_view(c.res),
            shards@,
            c.next_record_lsn,
            c.pg_version,
            c.wal_format,
            res->0,
        ),
{
}

/// The contract of `without_blocks` is the metadata that `from_decoded` finds,
/// shared out, or its error.
pub proof fn law_without_blocks<F: Fn(ShardIdentity, RelTag, u32) -> bool>(
    c: Decoding,
    shards: &[ShardIdentity],
    is_key_local: F,
    res: Result<ShardRecords, DecodeError>,
)
    requires
        c.holds(),
        complete(c.decoded, c.pg_version, c.wal_format, c.xl),
        can_ask(is_key_local, shards@),
        call_ensures(
            InterpretedWalRecord::without_blocks::<F>,
            (
                &c.decoded,
                c.xl,
                shards,
                c.next_record_lsn,
                c.pg_version,
                c.wal_format,
                c.testing,
                &is_key_local,
            ),
            res,
        ),
    ensures
        res is Ok <==> c.res is Ok,
        res is Err ==> res->Err_0 == c.res->Err_0,
        res is Ok ==> interpreted(
            is_key_local,
            c.decoded,
            opt_view(c.res->Ok_0),
            shards@,
            c.next_record_lsn,
            c.pg_version,
            res->Ok_0@,
        ),
{
}

} // verus!
