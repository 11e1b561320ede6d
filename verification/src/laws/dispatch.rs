//! Resource managers that no decoder follows, and what decoders leave of main
//! data.

use crate::decode::{complete, needed_kind};
use crate::laws::calls::{data_len, Decoding};
use crate::laws::heap::is_nothing;
use crate::laws::numbers::{lemma_info_bits, upper4};
use crate::payload::after_xl;
use crate::types::{DecodedWALRecord, PgMajorVersion, WalFormat, XlKind, XlRecord};
use crate::xact::{clog_taken, multixact_kind, multixact_rest};
use vstd::prelude::*;

verus! {

/// The resource managers whose records are followed: those of PostgreSQL up to
/// the heap without tablespaces (5), replication origins and logical messages,
/// UHeap, its undo and indexes and segments, and Neon's.
pub open spec fn is_followed(rmid: u8) -> bool {
    ||| rmid <= 10 && rmid != 5
    ||| rmid == 19
    ||| rmid == 21
    ||| 28 <= rmid <= 35
    ||| rmid == 40
    ||| rmid == 41
    ||| rmid == 134
}

/// A record of any other resource manager stands for nothing, asks for no
/// structure and can always be read.
pub proof fn law_others_are_nothing(c: Decoding)
    requires
        c.holds(),
        !is_followed(c.rmid()),
    ensures
        is_nothing(c),
        needed_kind(c.decoded, c.pg_version, c.wal_format) is None,
        complete(c.decoded, c.pg_version, c.wal_format, c.xl) <==> data_len(c.decoded) >= 0,
{
}

/// Records of the log itself, UHeap2, undo, index and segment records ask for no
/// structure and can always be read.
pub proof fn law_always_readable(
    decoded: DecodedWALRecord,
    pg_version: PgMajorVersion,
    wal_format: WalFormat,
    xl: Option<XlRecord>,
)
    requires
        ({
            let rmid = decoded.xl_rmid;
            ||| rmid == 0
            ||| 29 <= rmid <= 35
            ||| rmid == 40
            ||| rmid == 41
        }),
    ensures
        needed_kind(decoded, pg_version, wal_format) is None,
        complete(decoded, pg_version, wal_format, xl) <==> data_len(decoded) >= 0,
{
}

/// Where a structure is asked for, what is left of main data starts after the
/// bytes that it took, and otherwise it is all left.
pub proof fn law_left_after_structure(main: Seq<u8>, kind: Option<XlKind>, xl: Option<XlRecord>)
    ensures
        kind is Some && xl is Some ==> after_xl(main, kind, xl) == main.skip(xl->0.len as int),
        kind is None ==> after_xl(main, kind, xl) == main,
{
}

/// What transaction state records take of main data: a page number of four or
/// eight bytes, two numbers more for a truncation of openGauss, or the structure
/// they start with.
pub proof fn law_left_after_state_records(
    main: Seq<u8>,
    xl_info: u8,
    pg_version: PgMajorVersion,
    wal_format: WalFormat,
    xl: Option<XlRecord>,
)
    ensures
        ({
            let t = upper4(xl_info);
            let page = if pg_version is PG17 {
                8int
            } else {
                4
            };
            let clog = clog_taken(xl_info, pg_version, wal_format, xl);
            let multixact = multixact_rest(main, xl_info, pg_version, xl);
            &&& wal_format is OpenGauss ==> clog == if t == 0 {
                8int
            } else {
                16
            }
            &&& wal_format is Postgres && t == 0 ==> clog == page
            &&& wal_format is Postgres && t != 0 && xl is Some ==> clog == xl->0.len
            &&& t <= 1 ==> multixact == main.skip(page)
            &&& (t == 2 || t == 3) && xl is Some ==> multixact == main.skip(xl->0.len as int)
            &&& t > 3 ==> multixact == main
            &&& multixact_kind(xl_info) is Some <==> t == 2 || t == 3
        }),
{
    lemma_info_bits(xl_info);
}

} // verus!
