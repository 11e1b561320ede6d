//! Records of transaction state: the commit log, commits and aborts, multixacts,
//! running transactions and replication origins.

use crate::bytebuf::{
    as_slice, contents, copy_from_slice, get_i64_le, get_u32_le, get_u64_le, i64_at, remaining,
    u32_at, u64_at,
};
use crate::constants::{
    CLOG_TRUNCATE, CLOG_ZEROPAGE, SLRU_PAGES_PER_SEGMENT, XLOG_MULTIXACT_CREATE_ID,
    XLOG_MULTIXACT_TRUNCATE_ID, XLOG_MULTIXACT_ZERO_MEM_PAGE, XLOG_MULTIXACT_ZERO_OFF_PAGE,
    XLOG_REPLORIGIN_DROP, XLOG_REPLORIGIN_SET, XLOG_RUNNING_XACTS, XLOG_XACT_ABORT,
    XLOG_XACT_ABORT_PREPARED, XLOG_XACT_COMMIT, XLOG_XACT_COMMIT_PREPARED, XLOG_XACT_OPMASK,
    XLOG_XACT_PREPARE, XLR_INFO_MASK, XLR_RMGR_INFO_MASK,
};
use crate::error::DecodeError;
use crate::payload::{after_xl, check_starts_with, starts_with, take_xl};
use crate::records::{
    res_view, ClogRecord, ClogTruncate, ClogZeroPage, MetadataRecord, MetadataView,
    MultiXactRecord, MultiXactView, MultiXactZeroPage, ReploriginRecord, StandbyRecord,
    StandbyRunningXacts, XactCommon, XactCommonView, XactPrepare, XactPrepareView, XactRecord,
    XactView,
};
use crate::types::{
    DecodedWALRecord, Lsn, PgMajorVersion, SlruKind, WalFormat, XlBody, XlKind, XlRecord,
};
use bytes::Bytes;
use vstd::pervasive::unreached;
use vstd::prelude::*;

verus! {

/// How many bytes PostgreSQL gives a page number. Whatever the width, only the
/// low 32 bits count, and these come first.
pub open spec fn pageno_len(pg_version: PgMajorVersion) -> int {
    if pg_version is PG17 {
        8
    } else {
        4
    }
}

/// The segment that page `pageno` is in.
pub open spec fn segno_of(pageno: u32) -> u32 {
    pageno / SLRU_PAGES_PER_SEGMENT
}

/// The place of page `pageno` in its segment.
pub open spec fn rpageno_of(pageno: u32) -> u32 {
    pageno % SLRU_PAGES_PER_SEGMENT
}

/// The record type of a commit log record.
pub open spec fn clog_info(xl_info: u8) -> u8 {
    xl_info & !XLR_INFO_MASK
}

/// The fixed part that a commit log record starts with. The records of
/// openGauss, and new pages, are read off the main data.
pub open spec fn clog_kind(xl_info: u8, wal_format: WalFormat) -> Option<XlKind> {
    if wal_format is OpenGauss || clog_info(xl_info) == CLOG_ZEROPAGE {
        None
    } else {
        Some(XlKind::ClogTruncate)
    }
}

/// The metadata record that a commit log record stands for. openGauss writes
/// page numbers of eight bytes, and every record that is no new page is a
/// truncation there.
pub open spec fn clog_metadata(
    main: Seq<u8>,
    xl_info: u8,
    wal_format: WalFormat,
    xl: Option<XlRecord>,
) -> Option<MetadataView> {
    let pageno = u32_at(main, 0);
    if clog_info(xl_info) == CLOG_ZEROPAGE {
        Some(
            MetadataView::Clog(
                ClogRecord::ZeroPage(
                    ClogZeroPage { segno: segno_of(pageno), rpageno: rpageno_of(pageno) },
                ),
            ),
        )
    } else if wal_format is OpenGauss {
        Some(
            MetadataView::Clog(
                ClogRecord::Truncate(
                    ClogTruncate {
                        pageno,
                        oldest_xid: u32_at(main, 8),
                        oldest_xid_db: u32_at(main, 12),
                    },
                ),
            ),
        )
    } else {
        let truncate = xl->0.body->ClogTruncate_0;
        Some(
            MetadataView::Clog(
                ClogRecord::Truncate(
                    ClogTruncate {
                        pageno: truncate.pageno,
                        oldest_xid: truncate.oldest_xid,
                        oldest_xid_db: truncate.oldest_xid_db,
                    },
                ),
            ),
        )
    }
}

/// How many bytes of its main data a commit log record takes.
pub open spec fn clog_taken(
    xl_info: u8,
    pg_version: PgMajorVersion,
    wal_format: WalFormat,
    xl: Option<XlRecord>,
) -> int {
    if wal_format is OpenGauss {
        if clog_info(xl_info) == CLOG_ZEROPAGE {
            8
        } else {
            16
        }
    } else if clog_info(xl_info) == CLOG_ZEROPAGE {
        pageno_len(pg_version)
    } else {
        xl->0.len as int
    }
}

/// Whether main data `main` holds a commit log record.
pub open spec fn clog_ok(
    main: Seq<u8>,
    xl_info: u8,
    pg_version: PgMajorVersion,
    wal_format: WalFormat,
    xl: Option<XlRecord>,
) -> bool {
    &&& starts_with(main, clog_kind(xl_info, wal_format), xl)
    &&& clog_kind(xl_info, wal_format) is Some ==> clog_info(xl_info) == CLOG_TRUNCATE
    &&& clog_taken(xl_info, pg_version, wal_format, xl) <= main.len()
}

/// The type bits of a transaction record.
pub open spec fn xact_info(xl_info: u8) -> u8 {
    xl_info & XLOG_XACT_OPMASK
}

/// The fixed part that a transaction record starts with, where its type has one
/// that matters here.
pub open spec fn xact_kind(xl_info: u8) -> Option<XlKind> {
    let info = xact_info(xl_info);
    if info == XLOG_XACT_COMMIT || info == XLOG_XACT_ABORT || info == XLOG_XACT_COMMIT_PREPARED
        || info == XLOG_XACT_ABORT_PREPARED {
        Some(XlKind::XactParsed)
    } else {
        None
    }
}

/// The metadata record that a transaction record stands for.
pub open spec fn xact_metadata(
    main: Seq<u8>,
    xl_info: u8,
    xl_xid: u32,
    origin_id: u16,
    lsn: Lsn,
    xl: Option<XlRecord>,
) -> Option<MetadataView> {
    let info = xact_info(xl_info);
    let common = XactCommonView { parsed: xl->0.body->XactParsed_0@, origin_id, xl_xid, lsn };
    if info == XLOG_XACT_COMMIT {
        Some(MetadataView::Xact(XactView::Commit(common)))
    } else if info == XLOG_XACT_ABORT {
        Some(MetadataView::Xact(XactView::Abort(common)))
    } else if info == XLOG_XACT_COMMIT_PREPARED {
        Some(MetadataView::Xact(XactView::CommitPrepared(common)))
    } else if info == XLOG_XACT_ABORT_PREPARED {
        Some(MetadataView::Xact(XactView::AbortPrepared(common)))
    } else if info == XLOG_XACT_PREPARE {
        Some(MetadataView::Xact(XactView::Prepare(XactPrepareView { xl_xid, data: main })))
    } else {
        None
    }
}

/// Whether a multixact record is a new page, of offsets or of members.
pub open spec fn is_multixact_zero_page(xl_info: u8) -> bool {
    let info = xl_info & XLR_RMGR_INFO_MASK;
    info == XLOG_MULTIXACT_ZERO_OFF_PAGE || info == XLOG_MULTIXACT_ZERO_MEM_PAGE
}

/// The fixed part that a multixact record starts with. New pages are read off
/// the main data.
pub open spec fn multixact_kind(xl_info: u8) -> Option<XlKind> {
    let info = xl_info & XLR_RMGR_INFO_MASK;
    if info == XLOG_MULTIXACT_CREATE_ID {
        Some(XlKind::MultiXactCreate)
    } else if info == XLOG_MULTIXACT_TRUNCATE_ID {
        Some(XlKind::MultiXactTruncate)
    } else {
        None
    }
}

/// The metadata record that a multixact record stands for.
pub open spec fn multixact_metadata(
    main: Seq<u8>,
    xl_info: u8,
    xl: Option<XlRecord>,
) -> Option<MetadataView> {
    let info = xl_info & XLR_RMGR_INFO_MASK;
    let pageno = u32_at(main, 0);
    if is_multixact_zero_page(xl_info) {
        let slru_kind = if info == XLOG_MULTIXACT_ZERO_OFF_PAGE {
            SlruKind::MultiXactOffsets
        } else {
            SlruKind::MultiXactMembers
        };
        Some(
            MetadataView::MultiXact(
                MultiXactView::ZeroPage(
                    MultiXactZeroPage {
                        slru_kind,
                        segno: segno_of(pageno),
                        rpageno: rpageno_of(pageno),
                    },
                ),
            ),
        )
    } else if info == XLOG_MULTIXACT_CREATE_ID {
        Some(MetadataView::MultiXact(MultiXactView::Create(xl->0.body->MultiXactCreate_0@)))
    } else if info == XLOG_MULTIXACT_TRUNCATE_ID {
        Some(MetadataView::MultiXact(MultiXactView::Truncate(xl->0.body->MultiXactTruncate_0)))
    } else {
        None
    }
}

/// What is left of the main data of a multixact record.
pub open spec fn multixact_rest(
    main: Seq<u8>,
    xl_info: u8,
    pg_version: PgMajorVersion,
    xl: Option<XlRecord>,
) -> Seq<u8> {
    if is_multixact_zero_page(xl_info) {
        main.skip(pageno_len(pg_version))
    } else {
        after_xl(main, multixact_kind(xl_info), xl)
    }
}

/// Whether main data `main` holds a multixact record.
pub open spec fn multixact_ok(
    main: Seq<u8>,
    xl_info: u8,
    pg_version: PgMajorVersion,
    xl: Option<XlRecord>,
) -> bool {
    &&& starts_with(main, multixact_kind(xl_info), xl)
    &&& is_multixact_zero_page(xl_info) ==> pageno_len(pg_version) <= main.len()
}

/// The fixed part that a standby record starts with, where its type matters
/// here.
pub open spec fn standby_kind(xl_info: u8) -> Option<XlKind> {
    if xl_info & XLR_RMGR_INFO_MASK == XLOG_RUNNING_XACTS {
        Some(XlKind::RunningXacts)
    } else {
        None
    }
}

/// The metadata record that a standby record stands for.
pub open spec fn standby_metadata(xl_info: u8, xl: Option<XlRecord>) -> Option<MetadataView> {
    if xl_info & XLR_RMGR_INFO_MASK == XLOG_RUNNING_XACTS {
        Some(
            MetadataView::Standby(
                StandbyRecord::RunningXacts(
                    StandbyRunningXacts {
                        oldest_running_xid: xl->0.body->RunningXacts_0.oldest_running_xid,
                    },
                ),
            ),
        )
    } else {
        None
    }
}

/// The fixed part that a replication origin record starts with, where its type
/// matters here.
pub open spec fn replorigin_kind(xl_info: u8) -> Option<XlKind> {
    let info = xl_info & XLR_RMGR_INFO_MASK;
    if info == XLOG_REPLORIGIN_SET {
        Some(XlKind::ReploriginSet)
    } else if info == XLOG_REPLORIGIN_DROP {
        Some(XlKind::ReploriginDrop)
    } else {
        None
    }
}

/// The metadata record that a replication origin record stands for.
pub open spec fn replorigin_metadata(xl_info: u8, xl: Option<XlRecord>) -> Option<MetadataView> {
    let info = xl_info & XLR_RMGR_INFO_MASK;
    if info == XLOG_REPLORIGIN_SET {
        Some(MetadataView::Replorigin(ReploriginRecord::OriginSet(xl->0.body->ReploriginSet_0)))
    } else if info == XLOG_REPLORIGIN_DROP {
        Some(MetadataView::Replorigin(ReploriginRecord::Drop(xl->0.body->ReploriginDrop_0)))
    } else {
        None
    }
}

/// The low 32 bits of the eight-byte number that `s` starts with are the four
/// bytes that it starts with, signed or not.
proof fn lemma_low_bits(s: Seq<u8>)
    ensures
        u64_at(s, 0) as u32 == u32_at(s, 0),
        (i64_at(s, 0) as u64) as u32 == u32_at(s, 0),
{
    let u = u64_at(s, 0);
    let v = i64_at(s, 0);
    let low = u32_at(s, 0);
    assert(u as u32 == u % 0x1_0000_0000) by (bit_vector);
    assert(v >= 0 ==> v as u64 == v) by (bit_vector);
    assert(v < 0 ==> v as u64 == v + 0x1_0000_0000_0000_0000) by (bit_vector);
    assert(v as u64 == u);
    assert(u % 0x1_0000_0000 == low);
}

/// Takes the number of a page from PostgreSQL's main data.
fn take_pageno(buf: &mut Bytes, pg_version: PgMajorVersion) -> (pageno: u32)
    requires
        pageno_len(pg_version) <= contents(*old(buf)).len(),
    ensures
        pageno == u32_at(contents(*old(buf)), 0),
        contents(*final(buf)) == contents(*old(buf)).skip(pageno_len(pg_version)),
{
    proof {
        lemma_low_bits(contents(*buf));
    }
    match pg_version {
        PgMajorVersion::PG14 | PgMajorVersion::PG15 | PgMajorVersion::PG16 => get_u32_le(buf),
        PgMajorVersion::PG17 => get_u64_le(buf) as u32,
    }
}

/// Takes the number of a page from openGauss's main data.
fn take_opengauss_pageno(buf: &mut Bytes) -> (pageno: u32)
    requires
        8 <= contents(*old(buf)).len(),
    ensures
        pageno == u32_at(contents(*old(buf)), 0),
        contents(*final(buf)) == contents(*old(buf)).skip(8),
{
    proof {
        lemma_low_bits(contents(*buf));
    }
    get_i64_le(buf) as u64 as u32
}

/// Finds [`clog_kind`].
pub(crate) fn clog_xl_kind(xl_info: u8, wal_format: WalFormat) -> (kind: Option<XlKind>)
    ensures
        kind == clog_kind(xl_info, wal_format),
{
    match wal_format {
        WalFormat::OpenGauss => None,
        WalFormat::Postgres => if xl_info & !XLR_INFO_MASK == CLOG_ZEROPAGE {
            None
        } else {
            Some(XlKind::ClogTruncate)
        },
    }
}

/// Finds [`xact_kind`].
pub(crate) fn xact_xl_kind(xl_info: u8) -> (kind: Option<XlKind>)
    ensures
        kind == xact_kind(xl_info),
{
    let info = xl_info & XLOG_XACT_OPMASK;
    if info == XLOG_XACT_COMMIT || info == XLOG_XACT_ABORT || info == XLOG_XACT_COMMIT_PREPARED
        || info == XLOG_XACT_ABORT_PREPARED {
        Some(XlKind::XactParsed)
    } else {
        None
    }
}

/// Finds [`multixact_kind`].
pub(crate) fn multixact_xl_kind(xl_info: u8) -> (kind: Option<XlKind>)
    ensures
        kind == multixact_kind(xl_info),
{
    let info = xl_info & XLR_RMGR_INFO_MASK;
    if info == XLOG_MULTIXACT_CREATE_ID {
        Some(XlKind::MultiXactCreate)
    } else if info == XLOG_MULTIXACT_TRUNCATE_ID {
        Some(XlKind::MultiXactTruncate)
    } else {
        None
    }
}

/// Finds [`standby_kind`].
pub(crate) fn standby_xl_kind(xl_info: u8) -> (kind: Option<XlKind>)
    ensures
        kind == standby_kind(xl_info),
{
    if xl_info & XLR_RMGR_INFO_MASK == XLOG_RUNNING_XACTS {
        Some(XlKind::RunningXacts)
    } else {
        None
    }
}

/// Finds [`replorigin_kind`].
pub(crate) fn replorigin_xl_kind(xl_info: u8) -> (kind: Option<XlKind>)
    ensures
        kind == replorigin_kind(xl_info),
{
    let info = xl_info & XLR_RMGR_INFO_MASK;
    if info == XLOG_REPLORIGIN_SET {
        Some(XlKind::ReploriginSet)
    } else if info == XLOG_REPLORIGIN_DROP {
        Some(XlKind::ReploriginDrop)
    } else {
        None
    }
}

/// Tells whether [`clog_ok`] holds of the main data in `buf`.
pub(crate) fn check_clog(
    buf: &Bytes,
    xl_info: u8,
    pg_version: PgMajorVersion,
    wal_format: WalFormat,
    xl: &Option<XlRecord>,
) -> (ok: bool)
    ensures
        ok == clog_ok(contents(*buf), xl_info, pg_version, wal_format, *xl),
{
    let info = xl_info & !XLR_INFO_MASK;
    match wal_format {
        WalFormat::OpenGauss => {
            let taken: usize = if info == CLOG_ZEROPAGE {
                8
            } else {
                16
            };
            taken <= remaining(buf)
        },
        WalFormat::Postgres => if info == CLOG_ZEROPAGE {
            check_pageno(buf, pg_version)
        } else {
            info == CLOG_TRUNCATE && check_starts_with(buf, Some(XlKind::ClogTruncate), xl)
        },
    }
}

/// Tells whether main data is long enough for a page number of PostgreSQL's.
fn check_pageno(buf: &Bytes, pg_version: PgMajorVersion) -> (ok: bool)
    ensures
        ok == (pageno_len(pg_version) <= contents(*buf).len()),
{
    match pg_version {
        PgMajorVersion::PG14 | PgMajorVersion::PG15 | PgMajorVersion::PG16 => 4 <= remaining(buf),
        PgMajorVersion::PG17 => 8 <= remaining(buf),
    }
}

/// Tells whether [`multixact_ok`] holds of the main data in `buf`.
pub(crate) fn check_multixact(
    buf: &Bytes,
    xl_info: u8,
    pg_version: PgMajorVersion,
    xl: &Option<XlRecord>,
) -> (ok: bool)
    ensures
        ok == multixact_ok(contents(*buf), xl_info, pg_version, *xl),
{
    let info = xl_info & XLR_RMGR_INFO_MASK;
    let zero_page = info == XLOG_MULTIXACT_ZERO_OFF_PAGE || info == XLOG_MULTIXACT_ZERO_MEM_PAGE;
    check_starts_with(buf, multixact_xl_kind(xl_info), xl) && (!zero_page || check_pageno(
        buf,
        pg_version,
    ))
}

impl MetadataRecord {
    /// Decodes a commit log record.
    pub fn decode_clog_record(
        buf: &mut Bytes,
        decoded: &DecodedWALRecord,
        pg_version: PgMajorVersion,
        wal_format: WalFormat,
        xl: Option<XlRecord>,
    ) -> (res: Result<Option<MetadataRecord>, DecodeError>)
        requires
            clog_ok(contents(*old(buf)), decoded.xl_info, pg_version, wal_format, xl),
        ensures
            res_view(res) == Ok::<Option<MetadataView>, DecodeError>(
                clog_metadata(contents(*old(buf)), decoded.xl_info, wal_format, xl),
            ),
            contents(*final(buf)) == contents(*old(buf)).skip(
                clog_taken(decoded.xl_info, pg_version, wal_format, xl),
            ),
    {
        let info = decoded.xl_info & !XLR_INFO_MASK;
        match wal_format {
            WalFormat::OpenGauss => if info == CLOG_ZEROPAGE {
                let pageno = take_opengauss_pageno(buf);
                let segno = pageno / SLRU_PAGES_PER_SEGMENT;
                let rpageno = pageno % SLRU_PAGES_PER_SEGMENT;
                Ok(
                    Some(
                        MetadataRecord::Clog(ClogRecord::ZeroPage(ClogZeroPage { segno, rpageno })),
                    ),
                )
            } else {
                let pageno = take_opengauss_pageno(buf);
                let oldest_xid = get_u32_le(buf);
                let oldest_xid_db = get_u32_le(buf);
                Ok(
                    Some(
                        MetadataRecord::Clog(
                            ClogRecord::Truncate(
                                ClogTruncate { pageno, oldest_xid, oldest_xid_db },
                            ),
                        ),
                    ),
                )
            },
            WalFormat::Postgres => if info == CLOG_ZEROPAGE {
                let pageno = take_pageno(buf, pg_version);
                let segno = pageno / SLRU_PAGES_PER_SEGMENT;
                let rpageno = pageno % SLRU_PAGES_PER_SEGMENT;
                Ok(
                    Some(
                        MetadataRecord::Clog(ClogRecord::ZeroPage(ClogZeroPage { segno, rpageno })),
                    ),
                )
            } else {
                match take_xl(buf, xl) {
                    XlBody::ClogTruncate(truncate) => Ok(
                        Some(
                            MetadataRecord::Clog(
                                ClogRecord::Truncate(
                                    ClogTruncate {
                                        pageno: truncate.pageno,
                                        oldest_xid: truncate.oldest_xid,
                                        oldest_xid_db: truncate.oldest_xid_db,
                                    },
                                ),
                            ),
                        ),
                    ),
                    _ => unreached(),
                }
            },
        }
    }

    /// Decodes a transaction record, which ends at `lsn`.
    pub fn decode_xact_record(
        buf: &mut Bytes,
        decoded: &DecodedWALRecord,
        lsn: Lsn,
        _wal_format: WalFormat,
        xl: Option<XlRecord>,
    ) -> (res: Result<Option<MetadataRecord>, DecodeError>)
        requires
            starts_with(contents(*old(buf)), xact_kind(decoded.xl_info), xl),
        ensures
            res_view(res) == Ok::<Option<MetadataView>, DecodeError>(
                xact_metadata(
                    contents(*old(buf)),
                    decoded.xl_info,
                    decoded.xl_xid,
                    decoded.origin_id,
                    lsn,
                    xl,
                ),
            ),
            contents(*final(buf)) == after_xl(
                contents(*old(buf)),
                xact_kind(decoded.xl_info),
                xl,
            ),
    {
        let info = decoded.xl_info & XLOG_XACT_OPMASK;
        let origin_id = decoded.origin_id;
        let xl_xid = decoded.xl_xid;
        if info == XLOG_XACT_PREPARE {
            let data = copy_from_slice(as_slice(buf));
            return Ok(
                Some(MetadataRecord::Xact(XactRecord::Prepare(XactPrepare { xl_xid, data }))),
            );
        }
        if xact_xl_kind(decoded.xl_info).is_none() {
            return Ok(None);
        }
        match take_xl(buf, xl) {
            XlBody::XactParsed(parsed) => {
                let common = XactCommon { parsed, origin_id, xl_xid, lsn };
                let record = if info == XLOG_XACT_COMMIT {
                    XactRecord::Commit(common)
                } else if info == XLOG_XACT_ABORT {
                    XactRecord::Abort(common)
                } else if info == XLOG_XACT_COMMIT_PREPARED {
                    XactRecord::CommitPrepared(common)
                } else {
                    XactRecord::AbortPrepared(common)
                };
                Ok(Some(MetadataRecord::Xact(record)))
            },
            _ => unreached(),
        }
    }

    /// Decodes a multixact record.
    pub fn decode_multixact_record(
        buf: &mut Bytes,
        decoded: &DecodedWALRecord,
        pg_version: PgMajorVersion,
        xl: Option<XlRecord>,
    ) -> (res: Result<Option<MetadataRecord>, DecodeError>)
        requires
            multixact_ok(contents(*old(buf)), decoded.xl_info, pg_version, xl),
        ensures
            res_view(res) == Ok::<Option<MetadataView>, DecodeError>(
                multixact_metadata(contents(*old(buf)), decoded.xl_info, xl),
            ),
            contents(*final(buf)) == multixact_rest(
                contents(*old(buf)),
                decoded.xl_info,
                pg_version,
                xl,
            ),
    {
        let info = decoded.xl_info & XLR_RMGR_INFO_MASK;
        if info == XLOG_MULTIXACT_ZERO_OFF_PAGE || info == XLOG_MULTIXACT_ZERO_MEM_PAGE {
            let pageno = take_pageno(buf, pg_version);
            let segno = pageno / SLRU_PAGES_PER_SEGMENT;
            let rpageno = pageno % SLRU_PAGES_PER_SEGMENT;
            let slru_kind = if info == XLOG_MULTIXACT_ZERO_OFF_PAGE {
                SlruKind::MultiXactOffsets
            } else {
                SlruKind::MultiXactMembers
            };
            return Ok(
                Some(
                    MetadataRecord::MultiXact(
                        MultiXactRecord::ZeroPage(MultiXactZeroPage { slru_kind, segno, rpageno }),
                    ),
                ),
            );
        }
        if info == XLOG_MULTIXACT_CREATE_ID || info == XLOG_MULTIXACT_TRUNCATE_ID {
            return match take_xl(buf, xl) {
                XlBody::MultiXactCreate(create) => Ok(
                    Some(MetadataRecord::MultiXact(MultiXactRecord::Create(create))),
                ),
                XlBody::MultiXactTruncate(truncate) => Ok(
                    Some(MetadataRecord::MultiXact(MultiXactRecord::Truncate(truncate))),
                ),
                _ => unreached(),
            };
        }
        Ok(None)
    }

    /// Decodes a standby record.
    pub fn decode_standby_record(
        buf: &mut Bytes,
        decoded: &DecodedWALRecord,
        xl: Option<XlRecord>,
    ) -> (res: Result<Option<MetadataRecord>, DecodeError>)
        requires
            starts_with(contents(*old(buf)), standby_kind(decoded.xl_info), xl),
        ensures
            res_view(res) == Ok::<Option<MetadataView>, DecodeError>(
                standby_metadata(decoded.xl_info, xl),
            ),
            contents(*final(buf)) == after_xl(
                contents(*old(buf)),
                standby_kind(decoded.xl_info),
                xl,
            ),
    {
        let info = decoded.xl_info & XLR_RMGR_INFO_MASK;
        if info == XLOG_RUNNING_XACTS {
            return match take_xl(buf, xl) {
                XlBody::RunningXacts(running) => Ok(
                    Some(
                        MetadataRecord::Standby(
                            StandbyRecord::RunningXacts(
                                StandbyRunningXacts {
                                    oldest_running_xid: running.oldest_running_xid,
                                },
                            ),
                        ),
                    ),
                ),
                _ => unreached(),
            };
        }
        Ok(None)
    }

    /// Decodes a replication origin record.
    pub fn decode_replorigin_record(
        buf: &mut Bytes,
        decoded: &DecodedWALRecord,
        xl: Option<XlRecord>,
    ) -> (res: Result<Option<MetadataRecord>, DecodeError>)
        requires
            starts_with(contents(*old(buf)), replorigin_kind(decoded.xl_info), xl),
        ensures
            res_view(res) == Ok::<Option<MetadataView>, DecodeError>(
                replorigin_metadata(decoded.xl_info, xl),
            ),
            contents(*final(buf)) == after_xl(
                contents(*old(buf)),
                replorigin_kind(decoded.xl_info),
                xl,
            ),
    {
        let info = decoded.xl_info & XLR_RMGR_INFO_MASK;
        if info == XLOG_REPLORIGIN_SET || info == XLOG_REPLORIGIN_DROP {
            return match take_xl(buf, xl) {
                XlBody::ReploriginSet(set) => Ok(
                    Some(MetadataRecord::Replorigin(ReploriginRecord::OriginSet(set))),
                ),
                XlBody::ReploriginDrop(drop) => Ok(
                    Some(MetadataRecord::Replorigin(ReploriginRecord::Drop(drop))),
                ),
                _ => unreached(),
            };
        }
        Ok(None)
    }
}

} // verus!
