//! Storage, database and relation map records, by the upper half of their info
//! byte.

use crate::bytebuf::contents;
use crate::decode::{complete, metadata_of, needed_kind};
use crate::error::DecodeError;
use crate::interpret::flush_of;
use crate::laws::calls::{data_len, Decoding};
use crate::laws::heap::is_nothing;
use crate::laws::numbers::{lemma_info_bits, upper4};
use crate::records::{
    DbaseCreate, DbaseRecord, MetadataRecord, RelmapRecord, SmgrCreate, SmgrRecord,
};
use crate::types::{DecodedWALRecord, PgMajorVersion, RelTag, WalFormat, XlBody, XlKind, XlRecord};
use vstd::prelude::*;

verus! {

/// A storage record of type 1 creates the fork that its structure names, one of
/// type 2 truncates as its structure says, and any other stands for nothing.
pub proof fn law_smgr_records(c: Decoding)
    requires
        c.holds(),
        c.rmid() == 2,
    ensures
        upper4(c.info()) == 1 && c.xl is Some ==> (c.xl->0.body matches XlBody::SmgrCreate(x)
            ==> c.res == Ok::<Option<MetadataRecord>, DecodeError>(
            Some(
                MetadataRecord::Smgr(
                    SmgrRecord::Create(
                        (SmgrCreate {
                            rel: (RelTag {
                                forknum: x.forknum,
                                spcnode: x.rnode.spcnode,
                                dbnode: x.rnode.dbnode,
                                relnode: x.rnode.relnode,
                            }),
                        }),
                    ),
                ),
            ),
        )),
        upper4(c.info()) == 2 && c.xl is Some ==> (c.xl->0.body matches XlBody::SmgrTruncate(x)
            ==> c.res == Ok::<Option<MetadataRecord>, DecodeError>(
            Some(MetadataRecord::Smgr(SmgrRecord::Truncate(x))),
        )),
        upper4(c.info()) != 1 && upper4(c.info()) != 2 ==> is_nothing(c),
{
    lemma_info_bits(c.info());
}

/// Which type of database record drops one: 1 in PostgreSQL 14 and 2 from then
/// on, when 1 became a creation that logs every page.
pub open spec fn drop_type(pg_version: PgMajorVersion) -> int {
    if pg_version is PG14 {
        1
    } else {
        2
    }
}

/// A database record of type 0 creates a database with the four ids of its
/// structure, and asks for a flush; one of the dropping type drops it from the
/// tablespaces of its structure; any other stands for nothing. No other record
/// asks for a flush.
pub proof fn law_dbase_records(c: Decoding)
    requires
        c.holds(),
        c.rmid() == 4,
    ensures
        upper4(c.info()) == 0 && c.xl is Some ==> (c.xl->0.body matches XlBody::CreateDatabase(x)
            ==> c.res == Ok::<Option<MetadataRecord>, DecodeError>(
            Some(
                MetadataRecord::Dbase(
                    DbaseRecord::Create(
                        (DbaseCreate {
                            db_id: x.db_id,
                            tablespace_id: x.tablespace_id,
                            src_db_id: x.src_db_id,
                            src_tablespace_id: x.src_tablespace_id,
                        }),
                    ),
                ),
            ),
        )),
        upper4(c.info()) == drop_type(c.pg_version) && c.xl is Some ==> (
        c.xl->0.body matches XlBody::DropDatabase(x) ==> {
            &&& c.res matches Ok(Some(MetadataRecord::Dbase(DbaseRecord::Drop(r))))
            &&& r.db_id == x.db_id
            &&& r.tablespace_ids@ == x.tablespace_ids@
        }),
        upper4(c.info()) != 0 && upper4(c.info()) != drop_type(c.pg_version) ==> is_nothing(c),
        flush_of(c.decoded, c.pg_version) is Yes <==> upper4(c.info()) == 0,
{
    lemma_info_bits(c.info());
}

/// The lower four info bits of storage and database records say nothing here:
/// records that differ in them alone stand for the same and ask for the same
/// flush.
pub proof fn law_storage_lower_bits_do_not_matter(
    a: DecodedWALRecord,
    b: DecodedWALRecord,
    c: Decoding,
)
    requires
        a.xl_rmid == b.xl_rmid,
        a.xl_rmid == 2 || a.xl_rmid == 4 || a.xl_rmid == 7,
        contents(a.record) == contents(b.record),
        a.main_data_offset == b.main_data_offset,
        upper4(a.xl_info) == upper4(b.xl_info),
    ensures
        metadata_of(a, c.next_record_lsn, c.pg_version, c.wal_format, c.xl, c.testing)
            == metadata_of(b, c.next_record_lsn, c.pg_version, c.wal_format, c.xl, c.testing),
        needed_kind(a, c.pg_version, c.wal_format) == needed_kind(b, c.pg_version, c.wal_format),
        flush_of(a, c.pg_version) == flush_of(b, c.pg_version),
{
    lemma_info_bits(a.xl_info);
    lemma_info_bits(b.xl_info);
}

/// A relation map update keeps its header, and byte for byte what follows twelve
/// bytes after the start of the main data.
pub proof fn law_relmap_records(c: Decoding)
    requires
        c.holds(),
        c.rmid() == 7,
        complete(c.decoded, c.pg_version, c.wal_format, c.xl),
    ensures
        ({
            &&& c.res matches Ok(Some(MetadataRecord::Relmap(RelmapRecord::Update(r))))
            &&& c.xl->0.body == XlBody::RelmapUpdate(r.update)
            &&& contents(r.buf).len() == data_len(c.decoded) - 12
            &&& forall|i: int|
                0 <= i < contents(r.buf).len() ==> #[trigger] contents(r.buf)[i] == contents(
                    c.decoded.record,
                )[c.decoded.main_data_offset + 12 + i]
        }),
{
}

/// Which structure these records start with, by their type.
pub proof fn law_storage_structures(
    decoded: DecodedWALRecord,
    pg_version: PgMajorVersion,
    wal_format: WalFormat,
)
    ensures
        ({
            let kind = needed_kind(decoded, pg_version, wal_format);
            let rmid = decoded.xl_rmid;
            let t = upper4(decoded.xl_info);
            &&& rmid == 2 ==> {
                &&& t == 1 <==> kind == Some(XlKind::SmgrCreate)
                &&& t == 2 <==> kind == Some(XlKind::SmgrTruncate)
                &&& t != 1 && t != 2 <==> kind is None
            }
            &&& rmid == 4 ==> {
                &&& t == 0 <==> kind == Some(XlKind::CreateDatabase)
                &&& t == drop_type(pg_version) <==> kind == Some(XlKind::DropDatabase)
                &&& t != 0 && t != drop_type(pg_version) <==> kind is None
            }
            &&& rmid == 7 ==> kind == Some(XlKind::RelmapUpdate)
        }),
{
    lemma_info_bits(decoded.xl_info);
}

/// These records can be read exactly where their main data starts with the
/// structure of their type, if they have one; a relation map update has twelve
/// bytes at least.
pub proof fn law_storage_complete(
    decoded: DecodedWALRecord,
    pg_version: PgMajorVersion,
    wal_format: WalFormat,
    xl: Option<XlRecord>,
)
    ensures
        ({
            let ok = complete(decoded, pg_version, wal_format, xl);
            let rmid = decoded.xl_rmid;
            let t = upper4(decoded.xl_info);
            let len = data_len(decoded);
            let there = xl is Some && xl->0.len <= len;
            &&& rmid == 2 && t == 1 ==> (ok <==> there && xl->0.body is SmgrCreate)
            &&& rmid == 2 && t == 2 ==> (ok <==> there && xl->0.body is SmgrTruncate)
            &&& rmid == 2 && t != 1 && t != 2 ==> (ok <==> len >= 0)
            &&& rmid == 4 && t == 0 ==> (ok <==> there && xl->0.body is CreateDatabase)
            &&& rmid == 4 && t == drop_type(pg_version) ==> (ok <==> there
                && xl->0.body is DropDatabase)
            &&& rmid == 4 && t != 0 && t != drop_type(pg_version) ==> (ok <==> len >= 0)
            &&& rmid == 7 ==> (ok <==> there && xl->0.body is RelmapUpdate && len >= 12)
        }),
{
    lemma_info_bits(decoded.xl_info);
}

} // verus!
