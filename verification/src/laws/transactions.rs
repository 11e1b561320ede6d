//! Records of transaction state, by the bits of their info byte and the bytes of
//! their main data.

use crate::bytebuf::contents;
use crate::decode::{complete, metadata_of, needed_kind};
use crate::error::DecodeError;
use crate::laws::calls::{data_len, Decoding};
use crate::laws::heap::is_nothing;
use crate::laws::numbers::{lemma_info_bits, lemma_numbers, middle3, number, upper4};
use crate::records::{
    ClogRecord, ClogTruncate, MetadataRecord, MultiXactRecord, ReploriginRecord, StandbyRecord,
    StandbyRunningXacts, XactCommon, XactRecord,
};
use crate::types::{
    DecodedWALRecord, PgMajorVersion, SlruKind, WalFormat, XlBody, XlKind, XlRecord,
    XlXactParsedRecord,
};
use vstd::prelude::*;

verus! {

/// Whether a commit or abort holds what was parsed of it, and what the record
/// says of its origin, its transaction and its end.
pub open spec fn is_common_of(r: XactCommon, p: XlXactParsedRecord, c: Decoding) -> bool {
    &&& r.origin_id == c.decoded.origin_id
    &&& r.xl_xid == c.decoded.xl_xid
    &&& r.lsn == c.next_record_lsn
    &&& r.parsed.xid == p.xid
    &&& r.parsed.info == p.info
    &&& r.parsed.xact_time == p.xact_time
    &&& r.parsed.xinfo == p.xinfo
    &&& r.parsed.db_id == p.db_id
    &&& r.parsed.ts_id == p.ts_id
    &&& r.parsed.subxacts@ == p.subxacts@
    &&& r.parsed.xnodes@ == p.xnodes@
    &&& r.parsed.origin_lsn == p.origin_lsn
}

/// A transaction record of type 0 is a commit, of type 2 an abort, of types 3
/// and 4 these of a prepared transaction, each with what was parsed of it; of
/// type 1 a prepare with its main data; and of any other type nothing. The type
/// is the three bits below the uppermost, whatever the other bits are.
pub proof fn law_xact_records(c: Decoding)
    requires
        c.holds(),
        c.rmid() == 1,
    ensures
        c.xl is Some ==> (c.xl->0.body matches XlBody::XactParsed(p) ==> {
            let t = middle3(c.info());
            &&& t == 0 ==> (c.res matches Ok(Some(MetadataRecord::Xact(XactRecord::Commit(r))))
                && is_common_of(r, p, c))
            &&& t == 2 ==> (c.res matches Ok(Some(MetadataRecord::Xact(XactRecord::Abort(r))))
                && is_common_of(r, p, c))
            &&& t == 3 ==> (c.res matches Ok(
                Some(MetadataRecord::Xact(XactRecord::CommitPrepared(r))),
            ) && is_common_of(r, p, c))
            &&& t == 4 ==> (c.res matches Ok(
                Some(MetadataRecord::Xact(XactRecord::AbortPrepared(r))),
            ) && is_common_of(r, p, c))
        }),
        middle3(c.info()) == 1 ==> {
            &&& c.res matches Ok(Some(MetadataRecord::Xact(XactRecord::Prepare(r))))
            &&& r.xl_xid == c.decoded.xl_xid
            &&& contents(r.data) == c.data()
        },
        middle3(c.info()) > 4 ==> is_nothing(c),
{
    lemma_info_bits(c.info());
}

/// The uppermost bit and the lower four bits of a transaction record's info byte
/// do not change what it stands for: two records that agree in the three bits
/// between them and in all else give the same, and ask for the same structure.
pub proof fn law_xact_other_bits_do_not_matter(
    a: DecodedWALRecord,
    b: DecodedWALRecord,
    c: Decoding,
)
    requires
        a.xl_rmid == 1,
        b.xl_rmid == 1,
        middle3(a.xl_info) == middle3(b.xl_info),
        contents(a.record) == contents(b.record),
        a.main_data_offset == b.main_data_offset,
        a.xl_xid == b.xl_xid,
        a.origin_id == b.origin_id,
    ensures
        metadata_of(a, c.next_record_lsn, c.pg_version, c.wal_format, c.xl, c.testing)
            == metadata_of(b, c.next_record_lsn, c.pg_version, c.wal_format, c.xl, c.testing),
        needed_kind(a, c.pg_version, c.wal_format) == needed_kind(b, c.pg_version, c.wal_format),
{
    lemma_info_bits(a.xl_info);
    lemma_info_bits(b.xl_info);
}

/// A transaction record asks for a parsed structure exactly where it stands for
/// a commit or an abort, plain or prepared.
pub proof fn law_xact_structure_where_needed(c: Decoding)
    requires
        c.holds(),
        c.rmid() == 1,
    ensures
        needed_kind(c.decoded, c.pg_version, c.wal_format) == Some(XlKind::XactParsed) <==> {
            ||| c.res matches Ok(Some(MetadataRecord::Xact(XactRecord::Commit(_))))
            ||| c.res matches Ok(Some(MetadataRecord::Xact(XactRecord::Abort(_))))
            ||| c.res matches Ok(Some(MetadataRecord::Xact(XactRecord::CommitPrepared(_))))
            ||| c.res matches Ok(Some(MetadataRecord::Xact(XactRecord::AbortPrepared(_))))
        },
{
    lemma_info_bits(c.info());
}

/// Whether segment and place in the segment name page `pageno`: 32 pages make a
/// segment.
pub open spec fn names_page(segno: u32, rpageno: u32, pageno: int) -> bool {
    &&& 32 * segno + rpageno == pageno
    &&& rpageno < 32
}

/// A commit log record of type 0 is a new page: the one whose number the first
/// four bytes make, in every format and version.
pub proof fn law_clog_zero_pages(c: Decoding)
    requires
        c.holds(),
        c.rmid() == 3,
        upper4(c.info()) == 0,
    ensures
        ({
            &&& c.res matches Ok(Some(MetadataRecord::Clog(ClogRecord::ZeroPage(r))))
            &&& names_page(r.segno, r.rpageno, number(c.data(), 0, 4))
        }),
{
    lemma_info_bits(c.info());
    lemma_numbers(c.data(), 0);
}

/// A commit log record of any other type is a truncation: in openGauss the page
/// is in the first four of eight bytes and two transaction ids follow; in
/// PostgreSQL all three are those of its structure.
pub proof fn law_clog_truncations(c: Decoding)
    requires
        c.holds(),
        c.rmid() == 3,
        upper4(c.info()) != 0,
    ensures
        c.wal_format is OpenGauss ==> {
            &&& c.res matches Ok(Some(MetadataRecord::Clog(ClogRecord::Truncate(r))))
            &&& r.pageno == number(c.data(), 0, 4)
            &&& r.oldest_xid == number(c.data(), 8, 4)
            &&& r.oldest_xid_db == number(c.data(), 12, 4)
        },
        c.wal_format is Postgres && c.xl is Some ==> (
        c.xl->0.body matches XlBody::ClogTruncate(x) ==> c.res == Ok::<
            Option<MetadataRecord>,
            DecodeError,
        >(
            Some(
                MetadataRecord::Clog(
                    ClogRecord::Truncate(
                        (ClogTruncate {
                            pageno: x.pageno,
                            oldest_xid: x.oldest_xid,
                            oldest_xid_db: x.oldest_xid_db,
                        }),
                    ),
                ),
            ),
        )),
{
    lemma_info_bits(c.info());
    lemma_numbers(c.data(), 0);
    lemma_numbers(c.data(), 8);
    lemma_numbers(c.data(), 12);
}

/// A multixact record of type 0 is a new page of offsets and of type 1 one of
/// members, the page whose number the first four bytes make; types 2 and 3
/// create and truncate as their structures say; any other is nothing.
pub proof fn law_multixact_records(c: Decoding)
    requires
        c.holds(),
        c.rmid() == 6,
    ensures
        upper4(c.info()) <= 1 ==> {
            &&& c.res matches Ok(Some(MetadataRecord::MultiXact(MultiXactRecord::ZeroPage(r))))
            &&& names_page(r.segno, r.rpageno, number(c.data(), 0, 4))
            &&& r.slru_kind == if upper4(c.info()) == 0 {
                SlruKind::MultiXactOffsets
            } else {
                SlruKind::MultiXactMembers
            }
        },
        upper4(c.info()) == 2 && c.xl is Some ==> (c.xl->0.body matches XlBody::MultiXactCreate(x)
            ==> {
            &&& c.res matches Ok(Some(MetadataRecord::MultiXact(MultiXactRecord::Create(r))))
            &&& r.mid == x.mid
            &&& r.moff == x.moff
            &&& r.nmembers == x.nmembers
            &&& r.members@ == x.members@
        }),
        upper4(c.info()) == 3 && c.xl is Some ==> (
        c.xl->0.body matches XlBody::MultiXactTruncate(x) ==> c.res == Ok::<
            Option<MetadataRecord>,
            DecodeError,
        >(Some(MetadataRecord::MultiXact(MultiXactRecord::Truncate(x))))),
        upper4(c.info()) > 3 ==> is_nothing(c),
{
    lemma_info_bits(c.info());
    lemma_numbers(c.data(), 0);
}

/// A standby record of type 1 gives the oldest running transaction of its
/// structure, and any other nothing.
pub proof fn law_standby_records(c: Decoding)
    requires
        c.holds(),
        c.rmid() == 8,
    ensures
        upper4(c.info()) == 1 && c.xl is Some ==> (c.xl->0.body matches XlBody::RunningXacts(x)
            ==> c.res == Ok::<Option<MetadataRecord>, DecodeError>(
            Some(
                MetadataRecord::Standby(
                    StandbyRecord::RunningXacts(
                        (StandbyRunningXacts { oldest_running_xid: x.oldest_running_xid }),
                    ),
                ),
            ),
        )),
        upper4(c.info()) != 1 ==> is_nothing(c),
{
    lemma_info_bits(c.info());
}

/// A replication origin record of type 0 sets the origin of its structure, of
/// type 1 drops it, and of any other does nothing.
pub proof fn law_replorigin_records(c: Decoding)
    requires
        c.holds(),
        c.rmid() == 19,
    ensures
        upper4(c.info()) == 0 && c.xl is Some ==> (c.xl->0.body matches XlBody::ReploriginSet(x)
            ==> c.res == Ok::<Option<MetadataRecord>, DecodeError>(
            Some(MetadataRecord::Replorigin(ReploriginRecord::OriginSet(x))),
        )),
        upper4(c.info()) == 1 && c.xl is Some ==> (c.xl->0.body matches XlBody::ReploriginDrop(x)
            ==> c.res == Ok::<Option<MetadataRecord>, DecodeError>(
            Some(MetadataRecord::Replorigin(ReploriginRecord::Drop(x))),
        )),
        upper4(c.info()) > 1 ==> is_nothing(c),
{
    lemma_info_bits(c.info());
}

/// The lower four info bits of these records say nothing: records that differ in
/// them alone stand for the same and ask for the same structure.
pub proof fn law_state_lower_bits_do_not_matter(
    a: DecodedWALRecord,
    b: DecodedWALRecord,
    c: Decoding,
)
    requires
        a.xl_rmid == b.xl_rmid,
        a.xl_rmid == 3 || a.xl_rmid == 6 || a.xl_rmid == 8 || a.xl_rmid == 19,
        upper4(a.xl_info) == upper4(b.xl_info),
        contents(a.record) == contents(b.record),
        a.main_data_offset == b.main_data_offset,
    ensures
        metadata_of(a, c.next_record_lsn, c.pg_version, c.wal_format, c.xl, c.testing)
            == metadata_of(b, c.next_record_lsn, c.pg_version, c.wal_format, c.xl, c.testing),
        needed_kind(a, c.pg_version, c.wal_format) == needed_kind(b, c.pg_version, c.wal_format),
{
    lemma_info_bits(a.xl_info);
    lemma_info_bits(b.xl_info);
}

/// Which structure these records start with, by their type.
pub proof fn law_state_structures(
    decoded: DecodedWALRecord,
    pg_version: PgMajorVersion,
    wal_format: WalFormat,
)
    ensures
        ({
            let kind = needed_kind(decoded, pg_version, wal_format);
            let rmid = decoded.xl_rmid;
            let t = upper4(decoded.xl_info);
            let m = middle3(decoded.xl_info);
            &&& rmid == 1 ==> {
                &&& m == 0 || m == 2 || m == 3 || m == 4 <==> kind == Some(XlKind::XactParsed)
                &&& m == 1 || m > 4 <==> kind is None
            }
            &&& rmid == 3 ==> {
                &&& t != 0 && wal_format is Postgres <==> kind == Some(XlKind::ClogTruncate)
                &&& t == 0 || wal_format is OpenGauss <==> kind is None
            }
            &&& rmid == 6 ==> {
                &&& t == 2 <==> kind == Some(XlKind::MultiXactCreate)
                &&& t == 3 <==> kind == Some(XlKind::MultiXactTruncate)
                &&& t != 2 && t != 3 <==> kind is None
            }
            &&& rmid == 8 ==> {
                &&& t == 1 <==> kind == Some(XlKind::RunningXacts)
                &&& t != 1 <==> kind is None
            }
            &&& rmid == 19 ==> {
                &&& t == 0 <==> kind == Some(XlKind::ReploriginSet)
                &&& t == 1 <==> kind == Some(XlKind::ReploriginDrop)
                &&& t > 1 <==> kind is None
            }
        }),
{
    lemma_info_bits(decoded.xl_info);
}

/// These records can be read exactly where their main data starts with the
/// structure of their type, if they have one, or is long enough for the numbers
/// that are read off it: a page number has eight bytes in openGauss and from
/// PostgreSQL 17 on, and four before, and a truncation of openGauss two more
/// numbers of four. PostgreSQL has no commit log record of a type above 1.
pub proof fn law_state_complete(
    decoded: DecodedWALRecord,
    pg_version: PgMajorVersion,
    wal_format: WalFormat,
    xl: Option<XlRecord>,
)
    ensures
        ({
            let ok = complete(decoded, pg_version, wal_format, xl);
            let rmid = decoded.xl_rmid;
            let t = upper4(decoded.xl_info);
            let m = middle3(decoded.xl_info);
            let len = data_len(decoded);
            let there = xl is Some && xl->0.len <= len;
            let page = if pg_version is PG17 {
                8int
            } else {
                4
            };
            &&& rmid == 1 && (m == 0 || m == 2 || m == 3 || m == 4) ==> (ok <==> there
                && xl->0.body is XactParsed)
            &&& rmid == 1 && (m == 1 || m > 4) ==> (ok <==> len >= 0)
            &&& rmid == 3 && wal_format is OpenGauss && t == 0 ==> (ok <==> len >= 8)
            &&& rmid == 3 && wal_format is OpenGauss && t != 0 ==> (ok <==> len >= 16)
            &&& rmid == 3 && wal_format is Postgres && t == 0 ==> (ok <==> len >= page)
            &&& rmid == 3 && wal_format is Postgres && t != 0 ==> (ok <==> t == 1 && there
                && xl->0.body is ClogTruncate)
            &&& rmid == 6 && t <= 1 ==> (ok <==> len >= page)
            &&& rmid == 6 && t == 2 ==> (ok <==> there && xl->0.body is MultiXactCreate)
            &&& rmid == 6 && t == 3 ==> (ok <==> there && xl->0.body is MultiXactTruncate)
            &&& rmid == 6 && t > 3 ==> (ok <==> len >= 0)
            &&& rmid == 8 && t == 1 ==> (ok <==> there && xl->0.body is RunningXacts)
            &&& rmid == 8 && t != 1 ==> (ok <==> len >= 0)
            &&& rmid == 19 && t == 0 ==> (ok <==> there && xl->0.body is ReploriginSet)
            &&& rmid == 19 && t == 1 ==> (ok <==> there && xl->0.body is ReploriginDrop)
            &&& rmid == 19 && t > 1 ==> (ok <==> len >= 0)
        }),
{
    lemma_info_bits(decoded.xl_info);
}

} // verus!
