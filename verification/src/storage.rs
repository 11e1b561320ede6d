//! Records of the storage manager, of databases and of the relation map.

use crate::bytebuf::{advance, as_slice, clone_bytes, contents, copy_from_slice, remaining};
use crate::constants::{
    RM_DBASE_ID, V14_XLOG_DBASE_CREATE, V14_XLOG_DBASE_DROP, XLOG_DBASE_CREATE_FILE_COPY,
    XLOG_DBASE_DROP, XLOG_SMGR_CREATE, XLOG_SMGR_TRUNCATE, XLR_RMGR_INFO_MASK,
};
use crate::error::DecodeError;
use crate::payload::{after_xl, check_starts_with, starts_with, take_xl};
use crate::records::{
    res_view, DbaseCreate, DbaseDrop, DbaseDropView, DbaseRecord, DbaseView, MetadataRecord,
    MetadataView, RelmapRecord, RelmapUpdate, RelmapUpdateView, RelmapView, SmgrCreate, SmgrRecord,
};
use crate::types::{DecodedWALRecord, PgMajorVersion, RelTag, XlBody, XlKind, XlRecord};
use bytes::Bytes;
use vstd::pervasive::unreached;
use vstd::prelude::*;

verus! {

/// The bytes that the header of a relation map update takes.
pub const SIZE_OF_XL_RELMAP_UPDATE: usize = 12;

/// The fixed part that a storage manager record starts with, where its type
/// matters here.
pub open spec fn smgr_kind(xl_info: u8) -> Option<XlKind> {
    let info = xl_info & XLR_RMGR_INFO_MASK;
    if info == XLOG_SMGR_CREATE {
        Some(XlKind::SmgrCreate)
    } else if info == XLOG_SMGR_TRUNCATE {
        Some(XlKind::SmgrTruncate)
    } else {
        None
    }
}

/// The metadata record that a storage manager record stands for: the creation
/// of a relation fork, or a truncation.
pub open spec fn smgr_metadata(xl_info: u8, xl: Option<XlRecord>) -> Option<MetadataView> {
    let info = xl_info & XLR_RMGR_INFO_MASK;
    if info == XLOG_SMGR_CREATE {
        let create = xl->0.body->SmgrCreate_0;
        let rel = RelTag {
            spcnode: create.rnode.spcnode,
            dbnode: create.rnode.dbnode,
            relnode: create.rnode.relnode,
            forknum: create.forknum,
        };
        Some(MetadataView::Smgr(SmgrRecord::Create(SmgrCreate { rel })))
    } else if info == XLOG_SMGR_TRUNCATE {
        Some(MetadataView::Smgr(SmgrRecord::Truncate(xl->0.body->SmgrTruncate_0)))
    } else {
        None
    }
}

/// Whether info bits are those of a database creation by copy. The other way
/// to create one, which logs every page, came with PostgreSQL 15.
pub open spec fn creates_dbase_by_copy(xl_info: u8, pg_version: PgMajorVersion) -> bool {
    let info = xl_info & XLR_RMGR_INFO_MASK;
    if pg_version is PG14 {
        info == V14_XLOG_DBASE_CREATE
    } else {
        info == XLOG_DBASE_CREATE_FILE_COPY
    }
}

/// Whether info bits are those of a dropped database.
pub open spec fn drops_dbase(xl_info: u8, pg_version: PgMajorVersion) -> bool {
    let info = xl_info & XLR_RMGR_INFO_MASK;
    if pg_version is PG14 {
        info == V14_XLOG_DBASE_DROP
    } else {
        info == XLOG_DBASE_DROP
    }
}

/// The fixed part that a database record starts with, where its type matters
/// here.
pub open spec fn dbase_kind(xl_info: u8, pg_version: PgMajorVersion) -> Option<XlKind> {
    if creates_dbase_by_copy(xl_info, pg_version) {
        Some(XlKind::CreateDatabase)
    } else if drops_dbase(xl_info, pg_version) {
        Some(XlKind::DropDatabase)
    } else {
        None
    }
}

/// The metadata record that a database record stands for.
pub open spec fn dbase_metadata(
    xl_info: u8,
    pg_version: PgMajorVersion,
    xl: Option<XlRecord>,
) -> Option<MetadataView> {
    if creates_dbase_by_copy(xl_info, pg_version) {
        let create = xl->0.body->CreateDatabase_0;
        Some(
            MetadataView::Dbase(
                DbaseView::Create(
                    DbaseCreate {
                        db_id: create.db_id,
                        tablespace_id: create.tablespace_id,
                        src_db_id: create.src_db_id,
                        src_tablespace_id: create.src_tablespace_id,
                    },
                ),
            ),
        )
    } else if drops_dbase(xl_info, pg_version) {
        let drop = xl->0.body->DropDatabase_0;
        Some(
            MetadataView::Dbase(
                DbaseView::Drop(
                    DbaseDropView { db_id: drop.db_id, tablespace_ids: drop.tablespace_ids@ },
                ),
            ),
        )
    } else {
        None
    }
}

/// The metadata record that a relation map update stands for: the header, and
/// all that follows it in main data `main`.
pub open spec fn relmap_metadata(main: Seq<u8>, xl: Option<XlRecord>) -> Option<MetadataView> {
    Some(
        MetadataView::Relmap(
            RelmapView::Update(
                RelmapUpdateView {
                    update: xl->0.body->RelmapUpdate_0,
                    buf: main.skip(SIZE_OF_XL_RELMAP_UPDATE as int),
                },
            ),
        ),
    )
}

/// Whether main data `main` holds a relation map update.
pub open spec fn relmap_ok(main: Seq<u8>, xl: Option<XlRecord>) -> bool {
    &&& starts_with(main, Some(XlKind::RelmapUpdate), xl)
    &&& SIZE_OF_XL_RELMAP_UPDATE <= main.len()
}

/// Tells whether [`relmap_ok`] holds of the main data in `buf`.
pub(crate) fn check_relmap(buf: &Bytes, xl: &Option<XlRecord>) -> (ok: bool)
    ensures
        ok == relmap_ok(contents(*buf), *xl),
{
    check_starts_with(buf, Some(XlKind::RelmapUpdate), xl) && SIZE_OF_XL_RELMAP_UPDATE <= remaining(
        buf,
    )
}

/// Finds [`smgr_kind`].
pub(crate) fn smgr_xl_kind(xl_info: u8) -> (kind: Option<XlKind>)
    ensures
        kind == smgr_kind(xl_info),
{
    let info = xl_info & XLR_RMGR_INFO_MASK;
    if info == XLOG_SMGR_CREATE {
        Some(XlKind::SmgrCreate)
    } else if info == XLOG_SMGR_TRUNCATE {
        Some(XlKind::SmgrTruncate)
    } else {
        None
    }
}

/// Finds [`dbase_kind`].
pub(crate) fn dbase_xl_kind(xl_info: u8, pg_version: PgMajorVersion) -> (kind: Option<XlKind>)
    ensures
        kind == dbase_kind(xl_info, pg_version),
{
    let info = xl_info & XLR_RMGR_INFO_MASK;
    match pg_version {
        PgMajorVersion::PG14 => if info == V14_XLOG_DBASE_CREATE {
            Some(XlKind::CreateDatabase)
        } else if info == V14_XLOG_DBASE_DROP {
            Some(XlKind::DropDatabase)
        } else {
            None
        },
        PgMajorVersion::PG15 | PgMajorVersion::PG16 | PgMajorVersion::PG17 => if info
            == XLOG_DBASE_CREATE_FILE_COPY {
            Some(XlKind::CreateDatabase)
        } else if info == XLOG_DBASE_DROP {
            Some(XlKind::DropDatabase)
        } else {
            // A creation that logs every page needs no metadata record.
            None
        },
    }
}

impl DecodedWALRecord {
    /// Whether the record creates a database by copying another one's files.
    pub open spec fn spec_is_dbase_create_copy(&self, pg_version: PgMajorVersion) -> bool {
        self.xl_rmid == RM_DBASE_ID && creates_dbase_by_copy(self.xl_info, pg_version)
    }

    /// Tells whether the record creates a database by copying another one's
    /// files.
    pub fn is_dbase_create_copy(&self, pg_version: PgMajorVersion) -> (yes: bool)
        ensures
            yes == self.spec_is_dbase_create_copy(pg_version),
    {
        if self.xl_rmid != RM_DBASE_ID {
            return false;
        }
        let info = self.xl_info & XLR_RMGR_INFO_MASK;
        match pg_version {
            PgMajorVersion::PG14 => info == V14_XLOG_DBASE_CREATE,
            PgMajorVersion::PG15 | PgMajorVersion::PG16 | PgMajorVersion::PG17 => {
                info == XLOG_DBASE_CREATE_FILE_COPY
            },
        }
    }
}

impl MetadataRecord {
    /// Decodes a storage manager record.
    pub fn decode_smgr_record(
        buf: &mut Bytes,
        decoded: &DecodedWALRecord,
        xl: Option<XlRecord>,
    ) -> (res: Result<Option<MetadataRecord>, DecodeError>)
        requires
            starts_with(contents(*old(buf)), smgr_kind(decoded.xl_info), xl),
        ensures
            res_view(res) == Ok::<Option<MetadataView>, DecodeError>(
                smgr_metadata(decoded.xl_info, xl),
            ),
            contents(*final(buf)) == after_xl(
                contents(*old(buf)),
                smgr_kind(decoded.xl_info),
                xl,
            ),
    {
        let info = decoded.xl_info & XLR_RMGR_INFO_MASK;
        if info == XLOG_SMGR_CREATE || info == XLOG_SMGR_TRUNCATE {
            match take_xl(buf, xl) {
                XlBody::SmgrCreate(create) => {
                    let rel = RelTag {
                        spcnode: create.rnode.spcnode,
                        dbnode: create.rnode.dbnode,
                        relnode: create.rnode.relnode,
                        forknum: create.forknum,
                    };
                    return Ok(Some(MetadataRecord::Smgr(SmgrRecord::Create(SmgrCreate { rel }))));
                },
                XlBody::SmgrTruncate(truncate) => {
                    return Ok(Some(MetadataRecord::Smgr(SmgrRecord::Truncate(truncate))));
                },
                _ => {
                    return unreached();
                },
            }
        }
        Ok(None)
    }

    /// Decodes a database record.
    pub fn decode_dbase_record(
        buf: &mut Bytes,
        decoded: &DecodedWALRecord,
        pg_version: PgMajorVersion,
        xl: Option<XlRecord>,
    ) -> (res: Result<Option<MetadataRecord>, DecodeError>)
        requires
            starts_with(contents(*old(buf)), dbase_kind(decoded.xl_info, pg_version), xl),
        ensures
            res_view(res) == Ok::<Option<MetadataView>, DecodeError>(
                dbase_metadata(decoded.xl_info, pg_version, xl),
            ),
            contents(*final(buf)) == after_xl(
                contents(*old(buf)),
                dbase_kind(decoded.xl_info, pg_version),
                xl,
            ),
    {
        if dbase_xl_kind(decoded.xl_info, pg_version).is_none() {
            return Ok(None);
        }
        match take_xl(buf, xl) {
            XlBody::CreateDatabase(create) => Ok(
                Some(
                    MetadataRecord::Dbase(
                        DbaseRecord::Create(
                            DbaseCreate {
                                db_id: create.db_id,
                                tablespace_id: create.tablespace_id,
                                src_db_id: create.src_db_id,
                                src_tablespace_id: create.src_tablespace_id,
                            },
                        ),
                    ),
                ),
            ),
            XlBody::DropDatabase(drop) => Ok(
                Some(
                    MetadataRecord::Dbase(
                        DbaseRecord::Drop(
                            DbaseDrop { db_id: drop.db_id, tablespace_ids: drop.tablespace_ids },
                        ),
                    ),
                ),
            ),
            _ => unreached(),
        }
    }

    /// Decodes a relation map update.
    pub fn decode_relmap_record(
        buf: &mut Bytes,
        decoded: &DecodedWALRecord,
        xl: Option<XlRecord>,
    ) -> (res: Result<Option<MetadataRecord>, DecodeError>)
        requires
            starts_with(contents(*old(buf)), Some(XlKind::RelmapUpdate), xl),
            decoded.main_data_offset <= contents(decoded.record).len(),
            SIZE_OF_XL_RELMAP_UPDATE <= contents(decoded.record).len() - decoded.main_data_offset,
        ensures
            res_view(res) == Ok::<Option<MetadataView>, DecodeError>(
                relmap_metadata(
                    contents(decoded.record).skip(decoded.main_data_offset as int),
                    xl,
                ),
            ),
            contents(*final(buf)) == after_xl(
                contents(*old(buf)),
                Some(XlKind::RelmapUpdate),
                xl,
            ),
    {
        match take_xl(buf, xl) {
            XlBody::RelmapUpdate(update) => {
                let mut rest = clone_bytes(&decoded.record);
                advance(&mut rest, decoded.main_data_offset);
                advance(&mut rest, SIZE_OF_XL_RELMAP_UPDATE);
                let buf = copy_from_slice(as_slice(&rest));
                Ok(Some(MetadataRecord::Relmap(RelmapRecord::Update(RelmapUpdate { update, buf }))))
            },
            _ => unreached(),
        }
    }
}

} // verus!
