//! From a decoded record to what each shard receives of it.

use crate::decode::{complete, metadata_of};
use crate::error::DecodeError;
use crate::interpreted::{
    FlushUncommittedRecords, InterpretedView, InterpretedWalRecord, SerializedValueBatch,
};
use crate::laws::{law_distinct_shards, law_only_metadata_differs};
use crate::records::{MetadataRecord, MetadataView};
use crate::routing::{can_ask, routed};
use crate::shard::{
    blank_records, distinct, shards_of, with_batches, ShardIdentity, ShardRecords,
};
use crate::types::{DecodedWALRecord, Lsn, PgMajorVersion, RelTag, WalFormat, XlRecord};
use vstd::prelude::*;

verus! {

/// Whether what is not yet committed has to be flushed before a record is
/// applied: the creation of a database by copy reads files on disk.
pub open spec fn flush_of(
    decoded: DecodedWALRecord,
    pg_version: PgMajorVersion,
) -> FlushUncommittedRecords {
    if decoded.spec_is_dbase_create_copy(pg_version) {
        FlushUncommittedRecords::Yes
    } else {
        FlushUncommittedRecords::No
    }
}

/// Whether `after` is what becomes of the records `before` when a record that
/// stands for `m` is shared out, or fails to be decoded, as `res` says.
pub open spec fn filtered<F: Fn(ShardIdentity, RelTag, u32) -> bool>(
    is_key_local: F,
    m: Result<Option<MetadataView>, DecodeError>,
    before: Seq<(ShardIdentity, InterpretedView)>,
    after: Seq<(ShardIdentity, InterpretedView)>,
    res: Result<(), DecodeError>,
) -> bool {
    match m {
        Ok(m) => res is Ok && routed(is_key_local, m, before, after),
        Err(e) => res == Err::<(), DecodeError>(e) && after == before,
    }
}

impl MetadataRecord {
    /// Gives each of the records its share of the metadata record that a
    /// decoded record stands for.
    ///
    /// `is_key_local` tells whether a shard owns a page of a relation fork. Most
    /// metadata records go to all shards.
    pub fn from_decoded_filtered<F: Fn(ShardIdentity, RelTag, u32) -> bool>(
        decoded: &DecodedWALRecord,
        xl: Option<XlRecord>,
        shard_records: &mut ShardRecords,
        next_record_lsn: Lsn,
        pg_version: PgMajorVersion,
        wal_format: WalFormat,
        testing: bool,
        is_key_local: &F,
    ) -> (res: Result<(), DecodeError>)
        requires
            complete(*decoded, pg_version, wal_format, xl),
            can_ask(*is_key_local, shards_of(old(shard_records)@)),
        ensures
            filtered(
                *is_key_local,
                metadata_of(*decoded, next_record_lsn, pg_version, wal_format, xl, testing),
                old(shard_records)@,
                final(shard_records)@,
                res,
            ),
            old(shard_records).wf() ==> final(shard_records).wf(),
    {
        // First, the metadata record of the whole record.
        let metadata_record = match Self::from_decoded(
            decoded,
            xl,
            next_record_lsn,
            pg_version,
            wal_format,
            testing,
        ) {
            Ok(m) => m,
            Err(e) => {
                return Err(e);
            },
        };
        // Next, each shard's share of it.
        shard_records.route(metadata_record, is_key_local);
        Ok(())
    }
}

/// Why a record cannot be interpreted: it cannot be decoded, or its data blocks
/// cannot be serialized.
#[derive(Debug, PartialEq, Eq)]
pub enum InterpretError<E> {
    Decode(DecodeError),
    Blocks(E),
}

/// Whether `records` is what the shards receive of a decoded record but for its
/// data blocks: a blank record each, and the metadata record `m` shared out.
pub open spec fn interpreted<F: Fn(ShardIdentity, RelTag, u32) -> bool>(
    is_key_local: F,
    decoded: DecodedWALRecord,
    m: Option<MetadataView>,
    shards: Seq<ShardIdentity>,
    next_record_lsn: Lsn,
    pg_version: PgMajorVersion,
    records: Seq<(ShardIdentity, InterpretedView)>,
) -> bool {
    routed(
        is_key_local,
        m,
        blank_records(
            distinct(shards),
            next_record_lsn,
            flush_of(decoded, pg_version),
            decoded.xl_xid,
        ),
        records,
    )
}

/// Whether `records` is what the shards receive of a decoded record, its data
/// blocks in `batches`.
pub open spec fn interpreted_with_blocks<F: Fn(ShardIdentity, RelTag, u32) -> bool>(
    is_key_local: F,
    decoded: DecodedWALRecord,
    m: Option<MetadataView>,
    shards: Seq<ShardIdentity>,
    next_record_lsn: Lsn,
    pg_version: PgMajorVersion,
    batches: Seq<SerializedValueBatch>,
    records: Seq<(ShardIdentity, InterpretedView)>,
) -> bool {
    exists|before: Seq<(ShardIdentity, InterpretedView)>|
        {
            &&& #[trigger] interpreted(
                is_key_local,
                decoded,
                m,
                shards,
                next_record_lsn,
                pg_version,
                before,
            )
            &&& records == with_batches(before, batches)
        }
}

/// Whether `res` is the answer for a decoded record that stands for `m`, once
/// `serialize` has been asked for the data blocks of `asked`, which are the
/// shards, each once.
pub open spec fn answer_for<
    F: Fn(ShardIdentity, RelTag, u32) -> bool,
    E,
    G: Fn(&DecodedWALRecord, Vec<ShardIdentity>, Lsn, PgMajorVersion, WalFormat) -> Result<
        Vec<SerializedValueBatch>,
        E,
    >,
>(
    is_key_local: F,
    serialize: G,
    decoded: DecodedWALRecord,
    m: Option<MetadataView>,
    shards: Seq<ShardIdentity>,
    next_record_lsn: Lsn,
    pg_version: PgMajorVersion,
    wal_format: WalFormat,
    asked: Vec<ShardIdentity>,
    blocks: Result<Vec<SerializedValueBatch>, E>,
    res: Result<ShardRecords, InterpretError<E>>,
) -> bool {
    &&& asked@ == distinct(shards)
    &&& serialize.ensures((&decoded, asked, next_record_lsn, pg_version, wal_format), blocks)
    &&& match blocks {
        Ok(batches) => {
            &&& res is Ok
            &&& res->Ok_0.wf()
            &&& interpreted_with_blocks(
                is_key_local,
                decoded,
                m,
                shards,
                next_record_lsn,
                pg_version,
                batches@,
                res->Ok_0@,
            )
        },
        Err(e) => res == Err::<ShardRecords, InterpretError<E>>(InterpretError::Blocks(e)),
    }
}

/// Whether `res` is what interpreting a decoded record gives: the error of its
/// decoder, or the answer once `serialize` has been asked.
pub open spec fn outcome<
    F: Fn(ShardIdentity, RelTag, u32) -> bool,
    E,
    G: Fn(&DecodedWALRecord, Vec<ShardIdentity>, Lsn, PgMajorVersion, WalFormat) -> Result<
        Vec<SerializedValueBatch>,
        E,
    >,
>(
    is_key_local: F,
    serialize: G,
    decoded: DecodedWALRecord,
    m: Result<Option<MetadataView>, DecodeError>,
    shards: Seq<ShardIdentity>,
    next_record_lsn: Lsn,
    pg_version: PgMajorVersion,
    wal_format: WalFormat,
    res: Result<ShardRecords, InterpretError<E>>,
) -> bool {
    match m {
        Ok(m) => exists|
            asked: Vec<ShardIdentity>,
            blocks: Result<Vec<SerializedValueBatch>, E>,
        | #[trigger]
            answer_for(
                is_key_local,
                serialize,
                decoded,
                m,
                shards,
                next_record_lsn,
                pg_version,
                wal_format,
                asked,
                blocks,
                res,
            ),
        Err(e) => res == Err::<ShardRecords, InterpretError<E>>(InterpretError::Decode(e)),
    }
}

/// Whether `serialize` can be asked for the data blocks of the shards, and then
/// has as many batches as there are shards.
pub open spec fn can_serialize<
    E,
    G: Fn(&DecodedWALRecord, Vec<ShardIdentity>, Lsn, PgMajorVersion, WalFormat) -> Result<
        Vec<SerializedValueBatch>,
        E,
    >,
>(
    serialize: G,
    decoded: DecodedWALRecord,
    shards: Seq<ShardIdentity>,
    next_record_lsn: Lsn,
    pg_version: PgMajorVersion,
    wal_format: WalFormat,
) -> bool {
    &&& forall|asked: Vec<ShardIdentity>|
        asked@ == distinct(shards) ==> #[trigger] serialize.requires(
            (&decoded, asked, next_record_lsn, pg_version, wal_format),
        )
    &&& forall|asked: Vec<ShardIdentity>, batches: Vec<SerializedValueBatch>|
        asked@ == distinct(shards) && #[trigger] serialize.ensures(
            (&decoded, asked, next_record_lsn, pg_version, wal_format),
            Ok(batches),
        ) ==> batches@.len() == asked@.len()
}

impl InterpretedWalRecord {
    /// Interprets one decoded record for the given shards, but for its data
    /// blocks.
    pub fn without_blocks<F: Fn(ShardIdentity, RelTag, u32) -> bool>(
        decoded: &DecodedWALRecord,
        xl: Option<XlRecord>,
        shards: &[ShardIdentity],
        next_record_lsn: Lsn,
        pg_version: PgMajorVersion,
        wal_format: WalFormat,
        testing: bool,
        is_key_local: &F,
    ) -> (res: Result<ShardRecords, DecodeError>)
        requires
            complete(*decoded, pg_version, wal_format, xl),
            can_ask(*is_key_local, shards@),
        ensures
            match metadata_of(*decoded, next_record_lsn, pg_version, wal_format, xl, testing) {
                Ok(m) => {
                    &&& res is Ok
                    &&& res->Ok_0.wf()
                    &&& interpreted(
                        *is_key_local,
                        *decoded,
                        m,
                        shards@,
                        next_record_lsn,
                        pg_version,
                        res->Ok_0@,
                    )
                },
                Err(e) => res is Err && res->Err_0 == e,
            },
    {
        let flush_uncommitted = if decoded.is_dbase_create_copy(pg_version) {
            FlushUncommittedRecords::Yes
        } else {
            FlushUncommittedRecords::No
        };
        let mut shard_records = ShardRecords::blank(
            shards,
            next_record_lsn,
            flush_uncommitted,
            decoded.xl_xid,
        );
        proof {
            law_distinct_shards(shards@);
            assert(shards_of(shard_records@) =~= distinct(shards@));
        }
        match MetadataRecord::from_decoded_filtered(
            decoded,
            xl,
            &mut shard_records,
            next_record_lsn,
            pg_version,
            wal_format,
            testing,
            is_key_local,
        ) {
            Ok(()) => Ok(shard_records),
            Err(e) => Err(e),
        }
    }

    /// Interprets one decoded record for the given shards.
    ///
    /// Each shard receives one record, and in it its share of the metadata and
    /// the data blocks that `serialize` has for it. Where the record cannot be
    /// decoded, `serialize` is not asked.
    pub fn from_bytes_filtered<
        F: Fn(ShardIdentity, RelTag, u32) -> bool,
        E,
        G: Fn(&DecodedWALRecord, Vec<ShardIdentity>, Lsn, PgMajorVersion, WalFormat) -> Result<
            Vec<SerializedValueBatch>,
            E,
        >,
    >(
        decoded: &DecodedWALRecord,
        xl: Option<XlRecord>,
        shards: &[ShardIdentity],
        next_record_lsn: Lsn,
        pg_version: PgMajorVersion,
        wal_format: WalFormat,
        testing: bool,
        is_key_local: &F,
        serialize: &G,
    ) -> (res: Result<ShardRecords, InterpretError<E>>)
        requires
            complete(*decoded, pg_version, wal_format, xl),
            can_ask(*is_key_local, shards@),
            can_serialize(
                *serialize,
                *decoded,
                shards@,
                next_record_lsn,
                pg_version,
                wal_format,
            ),
        ensures
            outcome(
                *is_key_local,
                *serialize,
                *decoded,
                metadata_of(*decoded, next_record_lsn, pg_version, wal_format, xl, testing),
                shards@,
                next_record_lsn,
                pg_version,
                wal_format,
                res,
            ),
    {
        let records = match Self::without_blocks(
            decoded,
            xl,
            shards,
            next_record_lsn,
            pg_version,
            wal_format,
            testing,
            is_key_local,
        ) {
            Ok(records) => records,
            Err(e) => {
                return Err(InterpretError::Decode(e));
            },
        };
        let ghost m = metadata_of(
            *decoded,
            next_record_lsn,
            pg_version,
            wal_format,
            xl,
            testing,
        )->Ok_0;
        let asked = records.shards();
        let ghost asked_view = asked;
        proof {
            law_only_metadata_differs(
                *is_key_local,
                m,
                shards@,
                next_record_lsn,
                flush_of(*decoded, pg_version),
                decoded.xl_xid,
                records@,
            );
        }
        let blocks = serialize(decoded, asked, next_record_lsn, pg_version, wal_format);
        let ghost blocks_view = blocks;
        let res = match blocks {
            Ok(batches) => Ok(records.fill_batches(batches)),
            Err(e) => Err(InterpretError::Blocks(e)),
        };
        assert(answer_for(
            *is_key_local,
            *serialize,
            *decoded,
            m,
            shards@,
            next_record_lsn,
            pg_version,
            wal_format,
            asked_view,
            blocks_view,
            res,
        ));
        res
    }

    /// Interprets one decoded record for the given shards where it can be read
    /// with the fixed part `xl`, and gives nothing where it cannot.
    pub fn from_bytes_filtered_if_complete<
        F: Fn(ShardIdentity, RelTag, u32) -> bool,
        E,
        G: Fn(&DecodedWALRecord, Vec<ShardIdentity>, Lsn, PgMajorVersion, WalFormat) -> Result<
            Vec<SerializedValueBatch>,
            E,
        >,
    >(
        decoded: &DecodedWALRecord,
        xl: Option<XlRecord>,
        shards: &[ShardIdentity],
        next_record_lsn: Lsn,
        pg_version: PgMajorVersion,
        wal_format: WalFormat,
        testing: bool,
        is_key_local: &F,
        serialize: &G,
    ) -> (res: Option<Result<ShardRecords, InterpretError<E>>>)
        requires
            can_ask(*is_key_local, shards@),
            can_serialize(
                *serialize,
                *decoded,
                shards@,
                next_record_lsn,
                pg_version,
                wal_format,
            ),
        ensures
            res is Some <==> complete(*decoded, pg_version, wal_format, xl),
            res is Some ==> outcome(
                *is_key_local,
                *serialize,
                *decoded,
                metadata_of(*decoded, next_record_lsn, pg_version, wal_format, xl, testing),
                shards@,
                next_record_lsn,
                pg_version,
                wal_format,
                res->0,
            ),
    {
        if !MetadataRecord::is_complete(decoded, pg_version, wal_format, &xl) {
            return None;
        }
        Some(
            Self::from_bytes_filtered(
                decoded,
                xl,
                shards,
                next_record_lsn,
                pg_version,
                wal_format,
                testing,
                is_key_local,
                serialize,
            ),
        )
    }
}

} // verus!
