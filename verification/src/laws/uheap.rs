//! UHeap records, by the bytes of their main data.

use crate::bytebuf::{contents, i32_at, u16_at};
use crate::decode::complete;
use crate::error::DecodeError;
use crate::laws::calls::{data_len, Decoding};
use crate::laws::numbers::{
    has_bit, lemma_info_bits, lemma_numbers, middle2, middle3, number, signed, upper4,
};
use crate::records::{
    res_view, tuples_view, MetadataRecord, MetadataView, UHeap2Record, UHeapRecord, UHeapTupleData,
    UHeapTupleView, UHeapView,
};
use crate::types::{DecodedWALRecord, PgMajorVersion, WalFormat, XlRecord};
use crate::uheap::{
    after_front_tuple, after_tuples, front_tuple, front_tuple_error, prepend, tuple_count,
    tuples_in, tuples_readable, uheap2_rest, uheap_metadata, uheap_multi_insert_metadata,
    uheap_multi_insert_rest, uheap_rest,
};
use bytes::Bytes;
use vstd::prelude::*;

verus! {

/// Whether an optional buffer is what follows the first `at` bytes of `main`: it
/// is there exactly where it is wanted and there is more.
pub open spec fn is_rest(b: Option<Bytes>, wanted: bool, main: Seq<u8>, at: int) -> bool {
    &&& b is Some <==> wanted && main.len() > at
    &&& b is Some ==> contents(b->0) == main.skip(at)
}

/// A UHeap insert has four bytes at least. It holds its offset and flags, and
/// has a tuple exactly where the uppermost info bit is set: all that follows.
pub proof fn law_uheap_inserts(c: Decoding)
    requires
        c.holds(),
        c.rmid() == 28,
        middle3(c.info()) == 0,
    ensures
        c.data().len() < 4 ==> c.res == Err::<Option<MetadataRecord>, DecodeError>(
            DecodeError::UHeapInsertTooShort,
        ),
        c.data().len() >= 4 ==> {
            &&& c.res matches Ok(Some(MetadataRecord::UHeap(UHeapRecord::Insert(r))))
            &&& r.offnum == number(c.data(), 0, 2)
            &&& r.flags == c.data()[2]
            &&& r.has_tuple <==> has_bit(c.info(), 128)
            &&& is_rest(r.tuple_data, has_bit(c.info(), 128), c.data(), 4)
        },
{
    lemma_info_bits(c.info());
    lemma_numbers(c.data(), 0);
}

/// A UHeap delete has twelve bytes at least. It has an undo tuple exactly where
/// bit 2 of its flag byte is set, whatever the other bits are: all that follows
/// the first eleven bytes.
pub proof fn law_uheap_deletes(c: Decoding)
    requires
        c.holds(),
        c.rmid() == 28,
        middle3(c.info()) == 1,
    ensures
        c.data().len() < 12 ==> c.res == Err::<Option<MetadataRecord>, DecodeError>(
            DecodeError::UHeapDeleteTooShort,
        ),
        c.data().len() >= 12 ==> {
            &&& c.res matches Ok(Some(MetadataRecord::UHeap(UHeapRecord::Delete(r))))
            &&& r.oldxid == number(c.data(), 0, 4)
            &&& r.offnum == number(c.data(), 4, 2)
            &&& r.td_id == c.data()[6]
            &&& r.flag == c.data()[7]
            &&& r.has_undo_tuple <==> has_bit(r.flag, 2)
            &&& r.undo_tuple is Some <==> r.has_undo_tuple
            &&& r.undo_tuple is Some ==> contents(r.undo_tuple->0) == c.data().skip(11)
        },
{
    lemma_info_bits(c.info());
    lemma_info_bits(c.data()[7]);
    lemma_numbers(c.data(), 0);
    lemma_numbers(c.data(), 4);
}

/// A UHeap update has twelve bytes at least. It has an old tuple exactly where
/// bit 1 of its flags is set and a new one exactly where the uppermost info bit
/// is, each all that follows.
pub proof fn law_uheap_updates(c: Decoding)
    requires
        c.holds(),
        c.rmid() == 28,
        middle3(c.info()) == 2,
    ensures
        c.data().len() < 12 ==> c.res == Err::<Option<MetadataRecord>, DecodeError>(
            DecodeError::UHeapUpdateTooShort,
        ),
        c.data().len() >= 12 ==> {
            &&& c.res matches Ok(Some(MetadataRecord::UHeap(UHeapRecord::Update(r))))
            &&& r.oldxid == number(c.data(), 0, 4)
            &&& r.old_offnum == number(c.data(), 4, 2)
            &&& r.old_tuple_flag == number(c.data(), 6, 2)
            &&& r.new_offnum == number(c.data(), 8, 2)
            &&& r.old_tuple_td_id == c.data()[10]
            &&& r.flags == c.data()[11]
            &&& r.has_old_tuple <==> has_bit(r.flags, 1)
            &&& r.has_new_tuple <==> has_bit(c.info(), 128)
            &&& is_rest(r.old_tuple, has_bit(r.flags, 1), c.data(), 12)
            &&& is_rest(r.new_tuple, has_bit(c.info(), 128), c.data(), 12)
        },
{
    lemma_info_bits(c.info());
    lemma_info_bits(c.data()[11]);
    lemma_numbers(c.data(), 0);
    lemma_numbers(c.data(), 4);
    lemma_numbers(c.data(), 6);
    lemma_numbers(c.data(), 8);
}

/// A UHeap freeze of slots has twelve bytes at least, and holds the numbers that
/// the first six make.
pub proof fn law_uheap_freezes(c: Decoding)
    requires
        c.holds(),
        c.rmid() == 28,
        middle3(c.info()) == 3,
    ensures
        c.data().len() < 12 ==> c.res == Err::<Option<MetadataRecord>, DecodeError>(
            DecodeError::UHeapFreezeTdSlotTooShort,
        ),
        c.data().len() >= 12 ==> {
            &&& c.res matches Ok(Some(MetadataRecord::UHeap(UHeapRecord::FreezeTdSlot(r))))
            &&& r.latest_frozen_xid == number(c.data(), 0, 4)
            &&& r.n_frozen == number(c.data(), 4, 2)
        },
{
    lemma_info_bits(c.info());
    lemma_numbers(c.data(), 0);
    lemma_numbers(c.data(), 4);
}

/// UHeap slot invalidations and new pages keep all of their main data.
pub proof fn law_uheap_kept_as_data(c: Decoding)
    requires
        c.holds(),
        c.rmid() == 28,
    ensures
        middle3(c.info()) == 4 ==> (c.res matches Ok(
            Some(MetadataRecord::UHeap(UHeapRecord::InvalidTdSlot(r))),
        ) && contents(r.data) == c.data()),
        middle3(c.info()) == 7 ==> (c.res matches Ok(
            Some(MetadataRecord::UHeap(UHeapRecord::NewPage(r))),
        ) && contents(r.data) == c.data()),
{
    lemma_info_bits(c.info());
}

/// A UHeap clean has twelve bytes at least. After them it lists offsets, one for
/// every two bytes that are there.
pub proof fn law_uheap_cleans(c: Decoding)
    requires
        c.holds(),
        c.rmid() == 28,
        middle3(c.info()) == 5,
    ensures
        c.data().len() < 12 ==> c.res == Err::<Option<MetadataRecord>, DecodeError>(
            DecodeError::UHeapCleanTooShort,
        ),
        c.data().len() >= 12 ==> {
            &&& c.res matches Ok(Some(MetadataRecord::UHeap(UHeapRecord::Clean(r))))
            &&& r.latest_removed_xid == number(c.data(), 0, 4)
            &&& r.ndeleted == number(c.data(), 4, 2)
            &&& r.ndead == number(c.data(), 6, 2)
            &&& r.flags == c.data()[8]
            &&& r.offsets@.len() == (c.data().len() - 12) / 2
            &&& forall|i: int|
                0 <= i < r.offsets@.len() ==> #[trigger] r.offsets@[i] == number(
                    c.data(),
                    12 + 2 * i,
                    2,
                )
        },
{
    lemma_info_bits(c.info());
    lemma_numbers(c.data(), 0);
    lemma_numbers(c.data(), 4);
    lemma_numbers(c.data(), 6);
    if c.data().len() >= 12 {
        let r = c.res->Ok_0->0->UHeap_0->Clean_0;
        assert forall|i: int| 0 <= i < r.offsets@.len() implies #[trigger] r.offsets@[i] == number(
            c.data(),
            12 + 2 * i,
            2,
        ) by {
            lemma_numbers(c.data(), 12 + 2 * i);
        }
    }
}

/// A UHeap2 record of type 0 has nine bytes at least, of type 1 four and of type
/// 2 two, and holds what they make; one of type 3 keeps its type and its main
/// data.
pub proof fn law_uheap2_records(c: Decoding)
    requires
        c.holds(),
        c.rmid() == 29,
    ensures
        ({
            let main = c.data();
            let t = middle2(c.info());
            &&& t == 0 && main.len() < 9 ==> c.res == Err::<Option<MetadataRecord>, DecodeError>(
                DecodeError::UHeap2BaseShiftTooShort,
            )
            &&& t == 0 && main.len() >= 9 ==> {
                &&& c.res matches Ok(Some(MetadataRecord::UHeap2(UHeap2Record::BaseShift(r))))
                &&& r.multi <==> main[0] != 0
                &&& r.delta == signed(number(main, 1, 8), 0x1_0000_0000_0000_0000)
            }
            &&& t == 1 && main.len() < 4 ==> c.res == Err::<Option<MetadataRecord>, DecodeError>(
                DecodeError::UHeap2FreezeTooShort,
            )
            &&& t == 1 && main.len() >= 4 ==> {
                &&& c.res matches Ok(Some(MetadataRecord::UHeap2(UHeap2Record::Freeze(r))))
                &&& r.cutoff_xid == number(main, 0, 4)
            }
            &&& t == 2 && main.len() < 2 ==> c.res == Err::<Option<MetadataRecord>, DecodeError>(
                DecodeError::UHeap2ExtendTdSlotsTooShort,
            )
            &&& t == 2 && main.len() >= 2 ==> {
                &&& c.res matches Ok(Some(MetadataRecord::UHeap2(UHeap2Record::ExtendTdSlots(r))))
                &&& r.n_prev_slots == main[0]
                &&& r.n_extended == main[1]
            }
            &&& t == 3 ==> {
                &&& c.res matches Ok(Some(MetadataRecord::UHeap2(UHeap2Record::Generic(r))))
                &&& r.info == 16 * upper4(c.info())
                &&& contents(r.buf) == main
            }
        }),
{
    lemma_info_bits(c.info());
    lemma_numbers(c.data(), 0);
    lemma_numbers(c.data(), 1);
}

/// What is left of a UHeap or UHeap2 record's main data starts after the bytes
/// that its fields take, where it is long enough, and is all of it otherwise. A
/// delete takes eleven bytes and a clean all that make offsets.
pub proof fn law_uheap_takes_its_fields(main: Seq<u8>, xl_info: u8)
    ensures
        ({
            let t = middle3(xl_info);
            let taken = if t == 0 && main.len() >= 4 {
                4int
            } else if t == 1 && main.len() >= 12 {
                11
            } else if (t == 2 || t == 3) && main.len() >= 12 {
                12
            } else if t == 5 && main.len() >= 12 {
                main.len() - main.len() % 2
            } else {
                0
            };
            t != 6 ==> uheap_rest(main, xl_info) == main.skip(taken)
        }),
        ({
            let t = middle2(xl_info);
            let taken = if t == 0 && main.len() >= 9 {
                9int
            } else if t == 1 && main.len() >= 4 {
                4
            } else if t == 2 && main.len() >= 2 {
                2
            } else {
                0
            };
            uheap2_rest(main, xl_info) == main.skip(taken)
        }),
{
    lemma_info_bits(xl_info);
    assert(main.skip(0) =~= main);
}

// Multi-inserts: what their tuples look like in bytes, both ways.

/// The two bytes of a number, the less significant first.
pub open spec fn two_bytes(v: int) -> Seq<u8> {
    seq![(v % 0x100) as u8, (v / 0x100 % 0x100) as u8]
}

/// The four bytes of a number, the least significant first; a negative number
/// is taken for its two's complement.
pub open spec fn four_bytes(v: int) -> Seq<u8> {
    seq![
        (v % 0x100) as u8,
        (v / 0x100 % 0x100) as u8,
        (v / 0x100 / 0x100 % 0x100) as u8,
        (v / 0x100 / 0x100 / 0x100 % 0x100) as u8,
    ]
}

/// A tuple, written out.
#[verifier::opaque]
pub open spec fn tuple_bytes(t: UHeapTupleView) -> Seq<u8> {
    four_bytes(t.datalen as int) + two_bytes(t.xid as int) + seq![t.td_id, t.locker_td_id]
        + two_bytes(t.flag as int) + two_bytes(t.flag2 as int) + seq![t.t_hoff] + t.data
}

/// Tuples, written out one after the other.
pub open spec fn tuples_bytes(ts: Seq<UHeapTupleView>) -> Seq<u8>
    decreases ts.len(),
{
    if ts.len() == 0 {
        Seq::empty()
    } else {
        tuple_bytes(ts[0]) + tuples_bytes(ts.skip(1))
    }
}

/// Whether every tuple has as much data as it says.
pub open spec fn lengths_right(ts: Seq<UHeapTupleView>) -> bool {
    forall|i: int| 0 <= i < ts.len() ==> (#[trigger] ts[i]).datalen == ts[i].data.len()
}

/// Whether a list of tuples holds the given ones, field for field.
pub open spec fn holds_tuples(tuples: Seq<UHeapTupleData>, ts: Seq<UHeapTupleView>) -> bool {
    &&& tuples.len() == ts.len()
    &&& forall|i: int|
        #![trigger tuples[i]]
        0 <= i < ts.len() ==> {
            &&& tuples[i].datalen == ts[i].datalen
            &&& tuples[i].xid == ts[i].xid
            &&& tuples[i].td_id == ts[i].td_id
            &&& tuples[i].locker_td_id == ts[i].locker_td_id
            &&& tuples[i].flag == ts[i].flag
            &&& tuples[i].flag2 == ts[i].flag2
            &&& tuples[i].t_hoff == ts[i].t_hoff
            &&& tuples[i].data@ == ts[i].data
        }
}

/// The base-256 digits of a 32-bit number.
proof fn lemma_digits(x: int, b0: int, b1: int, b2: int, b3: int)
    requires
        0 <= b0 < 0x100,
        0 <= b1 < 0x100,
        0 <= b2 < 0x100,
        0 <= b3 < 0x100,
        x == signed(b0 + 0x100 * b1 + 0x1_0000 * b2 + 0x100_0000 * b3, 0x1_0000_0000),
    ensures
        x % 0x100 == b0,
        x / 0x100 % 0x100 == b1,
        x / 0x100 / 0x100 % 0x100 == b2,
        x / 0x100 / 0x100 / 0x100 % 0x100 == b3,
{
    let carry = if x < 0 {
        0x100int
    } else {
        0
    };
    let x3 = b3 - carry;
    let x2 = 0x100 * x3 + b2;
    let x1 = 0x100 * x2 + b1;
    assert(x == 0x100 * x1 + b0);
    assert(x / 0x100 == x1);
    assert(x1 / 0x100 == x2);
    assert(x2 / 0x100 == x3);
    assert(x3 % 0x100 == b3);
}

/// The four bytes of a 32-bit number read back as the number.
proof fn lemma_four_bytes(s: Seq<u8>, v: i32)
    requires
        s.len() >= 4,
        s.subrange(0, 4) == four_bytes(v as int),
    ensures
        i32_at(s, 0) == v,
{
    let x = v as int;
    assert(s.subrange(0, 4)[0] == s[0]);
    assert(s.subrange(0, 4)[1] == s[1]);
    assert(s.subrange(0, 4)[2] == s[2]);
    assert(s.subrange(0, 4)[3] == s[3]);
    let x1 = x / 0x100;
    let x2 = x1 / 0x100;
    let x3 = x2 / 0x100;
    assert(s[0] == x - 0x100 * x1);
    assert(s[1] == x1 - 0x100 * x2);
    assert(s[2] == x2 - 0x100 * x3);
    assert(-0x80 <= x3 < 0x80);
    assert(s[3] == if x3 < 0 {
        x3 + 0x100
    } else {
        x3
    });
}

/// The four bytes of a 32-bit number are those it was read from.
proof fn lemma_four_bytes_back(s: Seq<u8>)
    requires
        s.len() >= 4,
    ensures
        s.subrange(0, 4) == four_bytes(i32_at(s, 0) as int),
{
    lemma_digits(
        i32_at(s, 0) as int,
        s[0] as int,
        s[1] as int,
        s[2] as int,
        s[3] as int,
    );
    assert(s.subrange(0, 4) =~= four_bytes(i32_at(s, 0) as int));
}

/// A tuple that is written out reads back as itself.
proof fn lemma_tuple_reads_back(t: UHeapTupleView, more: Seq<u8>)
    requires
        t.datalen == t.data.len(),
    ensures
        front_tuple_error(tuple_bytes(t) + more) is None,
        front_tuple(tuple_bytes(t) + more) == t,
        after_front_tuple(tuple_bytes(t) + more) == more,
        tuple_bytes(t).len() == 13 + t.data.len(),
{
    reveal(tuple_bytes);
    let s = tuple_bytes(t) + more;
    assert(s.subrange(0, 4) =~= four_bytes(t.datalen as int));
    lemma_four_bytes(s, t.datalen);
    assert(s[4] == t.xid as int % 0x100 && s[5] == t.xid as int / 0x100 % 0x100);
    assert(s[6] == t.td_id && s[7] == t.locker_td_id);
    assert(s[8] == t.flag as int % 0x100 && s[9] == t.flag as int / 0x100 % 0x100);
    assert(s[10] == t.flag2 as int % 0x100 && s[11] == t.flag2 as int / 0x100 % 0x100);
    assert(s[12] == t.t_hoff);
    assert(s.subrange(13, 13 + t.datalen) =~= t.data);
    assert(front_tuple(s) =~= t);
    assert(after_front_tuple(s) =~= more);
}

/// Tuples that are written out read back as themselves, and reading goes on with
/// what follows them.
proof fn lemma_tuples_read_back(ts: Seq<UHeapTupleView>, more: Seq<u8>, n: nat)
    requires
        lengths_right(ts),
        ts.len() <= n,
    ensures
        tuples_in(tuples_bytes(ts) + more, n) == prepend(
            ts,
            tuples_in(more, (n - ts.len()) as nat),
        ),
        after_tuples(tuples_bytes(ts) + more, n) == after_tuples(more, (n - ts.len()) as nat),
        tuples_readable(tuples_bytes(ts) + more, n) == tuples_readable(
            more,
            (n - ts.len()) as nat,
        ),
    decreases ts.len(),
{
    let s = tuples_bytes(ts) + more;
    if ts.len() == 0 {
        assert(s =~= more);
        let r = tuples_in(more, n);
        if r is Ok {
            assert(ts + r->Ok_0 =~= r->Ok_0);
        }
    } else {
        let tail = ts.skip(1);
        let rest = tuples_bytes(tail) + more;
        assert(s =~= tuple_bytes(ts[0]) + rest);
        lemma_tuple_reads_back(ts[0], rest);
        assert forall|i: int| 0 <= i < tail.len() implies (#[trigger] tail[i]).datalen
            == tail[i].data.len() by {
            assert(tail[i] == ts[i + 1]);
        }
        lemma_tuples_read_back(tail, more, (n - 1) as nat);
        let r = tuples_in(more, (n - ts.len()) as nat);
        if r is Ok {
            assert(seq![ts[0]] + (tail + r->Ok_0) =~= ts + r->Ok_0);
        }
    }
}

/// The two bytes of a 16-bit number are those it was read from.
proof fn lemma_two_bytes_back(s: Seq<u8>, at: int)
    requires
        0 <= at,
        at + 2 <= s.len(),
    ensures
        s.subrange(at, at + 2) == two_bytes(u16_at(s, at) as int),
{
    let v = u16_at(s, at) as int;
    assert(v == s[at] + 0x100 * s[at + 1]);
    assert(v % 0x100 == s[at]);
    assert(v / 0x100 == s[at + 1]);
    assert(s.subrange(at, at + 2) =~= two_bytes(v));
}

/// A tuple that was read gives back, written out, the bytes it was read from.
proof fn lemma_tuple_writes_back(s: Seq<u8>)
    requires
        front_tuple_error(s) is None,
    ensures
        s == tuple_bytes(front_tuple(s)) + after_front_tuple(s),
{
    reveal(tuple_bytes);
    let t = front_tuple(s);
    let d = i32_at(s, 0) as int;
    lemma_four_bytes_back(s);
    lemma_two_bytes_back(s, 4);
    lemma_two_bytes_back(s, 8);
    lemma_two_bytes_back(s, 10);
    let parts = s.subrange(0, 4) + s.subrange(4, 6) + seq![s[6], s[7]] + s.subrange(8, 10)
        + s.subrange(10, 12) + seq![s[12]] + s.subrange(13, 13 + d);
    assert(tuple_bytes(t) == parts);
    assert(parts =~= s.subrange(0, 13 + d));
    assert(s =~= s.subrange(0, 13 + d) + s.skip(13 + d));
}

/// Tuples that were read give back, written out, the bytes they were read from.
proof fn lemma_tuples_write_back(s: Seq<u8>, n: nat)
    requires
        tuples_in(s, n) is Ok,
    ensures
        tuples_in(s, n)->Ok_0.len() == n,
        lengths_right(tuples_in(s, n)->Ok_0),
        s == tuples_bytes(tuples_in(s, n)->Ok_0) + after_tuples(s, n),
    decreases n,
{
    let ts = tuples_in(s, n)->Ok_0;
    if n == 0 {
        assert(s =~= tuples_bytes(ts) + s);
    } else {
        let t = front_tuple(s);
        let rest = after_front_tuple(s);
        let m = (n - 1) as nat;
        lemma_tuples_write_back(rest, m);
        let tail = tuples_in(rest, m)->Ok_0;
        assert(ts =~= seq![t] + tail);
        assert(ts.skip(1) =~= tail);
        assert forall|i: int| 0 <= i < ts.len() implies (#[trigger] ts[i]).datalen
            == ts[i].data.len() by {
            if i > 0 {
                assert(ts[i] == tail[i - 1]);
            }
        }
        lemma_tuple_writes_back(s);
        assert(tuples_bytes(ts) == tuple_bytes(t) + tuples_bytes(tail));
        let (a, b, more) = (tuple_bytes(t), tuples_bytes(tail), after_tuples(rest, m));
        assert(a + (b + more) =~= (a + b) + more);
    }
}

/// What a multi-insert starts with: how many tuples it counts, and its flags.
#[verifier::opaque]
pub open spec fn multi_insert_header(ntuples: i32, flags: u8) -> Seq<u8> {
    four_bytes(ntuples as int).push(flags)
}

proof fn lemma_multi_insert_header(main: Seq<u8>, ntuples: i32, flags: u8, body: Seq<u8>)
    requires
        main == multi_insert_header(ntuples, flags) + body,
    ensures
        main.len() >= 5,
        i32_at(main, 0) == ntuples,
        main[4] == flags,
        main.skip(5) == body,
{
    reveal(multi_insert_header);
    assert(main.subrange(0, 4) =~= four_bytes(ntuples as int));
    lemma_four_bytes(main, ntuples);
    assert(main.skip(5) =~= body);
}

/// A record of this type is decoded as a multi-insert.
proof fn lemma_is_multi_insert(c: Decoding)
    requires
        c.holds(),
        c.rmid() == 28,
        middle3(c.info()) == 6,
    ensures
        res_view(c.res) == uheap_multi_insert_metadata(c.data()),
        uheap_rest(c.data(), c.info()) == uheap_multi_insert_rest(c.data()),
{
    lemma_info_bits(c.info());
    assert(c.info() & 0x70 == 0x60);
    assert(res_view(c.res) == uheap_metadata(c.data(), c.info()));
}

/// What a multi-insert is decoded to goes by the tuples that follow its header.
proof fn lemma_multi_insert(c: Decoding, ntuples: i32, flags: u8, body: Seq<u8>)
    requires
        c.holds(),
        c.rmid() == 28,
        middle3(c.info()) == 6,
        c.data() == multi_insert_header(ntuples, flags) + body,
    ensures
        match tuples_in(body, tuple_count(ntuples)) {
            Err(e) => c.res == Err::<Option<MetadataRecord>, DecodeError>(e),
            Ok(ts) => {
                &&& c.res matches Ok(Some(MetadataRecord::UHeap(UHeapRecord::MultiInsert(r))))
                &&& r.ntuples == ntuples
                &&& r.flags == flags
                &&& tuples_view(r.tuples@) == ts
            },
        },
        uheap_rest(c.data(), c.info()) == after_tuples(body, tuple_count(ntuples)),
{
    lemma_is_multi_insert(c);
    lemma_multi_insert_header(c.data(), ntuples, flags, body);
    lemma_viewed(c.res);
}

/// A result is an error or a multi-insert where its view is.
proof fn lemma_viewed(res: Result<Option<MetadataRecord>, DecodeError>)
    ensures
        res_view(res) matches Err(e) ==> res == Err::<Option<MetadataRecord>, DecodeError>(e),
        res_view(res) matches Ok(Some(MetadataView::UHeap(UHeapView::MultiInsert(v)))) ==> {
            &&& res matches Ok(Some(MetadataRecord::UHeap(UHeapRecord::MultiInsert(r))))
            &&& r.ntuples == v.ntuples
            &&& r.flags == v.flags
            &&& tuples_view(r.tuples@) == v.tuples
        },
{
}

/// Every tuple of a multi-insert that is written out after the header is read
/// back, field for field, and nothing of what follows.
pub proof fn law_multi_insert_reads_back(
    c: Decoding,
    ntuples: i32,
    flags: u8,
    ts: Seq<UHeapTupleView>,
    more: Seq<u8>,
)
    requires
        c.holds(),
        c.rmid() == 28,
        middle3(c.info()) == 6,
        lengths_right(ts),
        ts.len() == if ntuples < 0 {
            0
        } else {
            ntuples as int
        },
        c.data() == multi_insert_header(ntuples, flags) + (tuples_bytes(ts) + more),
    ensures
        ({
            &&& c.res matches Ok(Some(MetadataRecord::UHeap(UHeapRecord::MultiInsert(r))))
            &&& r.ntuples == ntuples
            &&& r.flags == flags
            &&& holds_tuples(r.tuples@, ts)
        }),
        uheap_rest(c.data(), c.info()) == more,
{
    lemma_multi_insert(c, ntuples, flags, tuples_bytes(ts) + more);
    lemma_tuples_read_back(ts, more, ts.len());
    assert(ts + Seq::<UHeapTupleView>::empty() =~= ts);
    let r = c.res->Ok_0->0->UHeap_0->MultiInsert_0;
    assert(tuples_view(r.tuples@) == ts);
    assert forall|i: int|
        #![trigger r.tuples@[i]]
        0 <= i < ts.len() implies r.tuples@[i]@ == ts[i] by {
        assert(tuples_view(r.tuples@)[i] == ts[i]);
    }
}

/// Whatever a multi-insert is decoded to, its header and its tuples written out
/// are what its main data starts with, and there are as many as it counts.
pub proof fn law_multi_insert_writes_back(c: Decoding)
    requires
        c.holds(),
        c.rmid() == 28,
        middle3(c.info()) == 6,
        c.res is Ok,
    ensures
        ({
            &&& c.res matches Ok(Some(MetadataRecord::UHeap(UHeapRecord::MultiInsert(r))))
            &&& r.tuples@.len() == if r.ntuples < 0 {
                0
            } else {
                r.ntuples as int
            }
            &&& exists|ts: Seq<UHeapTupleView>| #[trigger]
                lengths_right(ts) && holds_tuples(r.tuples@, ts) && c.data()
                    == multi_insert_header(r.ntuples, r.flags) + (tuples_bytes(ts) + uheap_rest(
                    c.data(),
                    c.info(),
                ))
        }),
{
    lemma_is_multi_insert(c);
    lemma_viewed(c.res);
    let main = c.data();
    let n = tuple_count(i32_at(main, 0));
    let ts = tuples_in(main.skip(5), n)->Ok_0;
    lemma_tuples_write_back(main.skip(5), n);
    let r = c.res->Ok_0->0->UHeap_0->MultiInsert_0;
    assert(tuples_view(r.tuples@) == ts);
    assert forall|i: int|
        #![trigger r.tuples@[i]]
        0 <= i < ts.len() implies r.tuples@[i]@ == ts[i] by {
        assert(tuples_view(r.tuples@)[i] == ts[i]);
    }
    assert(holds_tuples(r.tuples@, ts));
    reveal(multi_insert_header);
    lemma_four_bytes_back(main);
    assert(main =~= main.subrange(0, 4).push(main[4]) + main.skip(5));
    assert(lengths_right(ts));
}

/// A multi-insert is refused where it has no header, and where a tuple that it
/// counts is not whole: less than twelve bytes are left for it, or less than it
/// says follow its thirteen, or it says a negative number. Which, the error
/// tells. Exactly twelve bytes cannot be read.
pub proof fn law_multi_insert_refused(
    c: Decoding,
    ntuples: i32,
    flags: u8,
    ts: Seq<UHeapTupleView>,
    more: Seq<u8>,
)
    requires
        c.holds(),
        c.rmid() == 28,
        middle3(c.info()) == 6,
        lengths_right(ts),
        ts.len() < ntuples,
        c.data() == multi_insert_header(ntuples, flags) + (tuples_bytes(ts) + more),
    ensures
        more.len() < 12 ==> c.res == Err::<Option<MetadataRecord>, DecodeError>(
            DecodeError::UHeapMultiInsertTupleTooShort,
        ),
        more.len() >= 13 && (number(more, 0, 4) >= 0x8000_0000 || number(more, 0, 4) > more.len()
            - 13) ==> c.res == Err::<Option<MetadataRecord>, DecodeError>(
            DecodeError::UHeapMultiInsertTupleLengthMismatch,
        ),
{
    lemma_multi_insert(c, ntuples, flags, tuples_bytes(ts) + more);
    lemma_tuples_read_back(ts, more, ntuples as nat);
    lemma_numbers(more, 0);
}

/// A multi-insert of less than five bytes is refused.
pub proof fn law_multi_insert_without_header_refused(c: Decoding)
    requires
        c.holds(),
        c.rmid() == 28,
        middle3(c.info()) == 6,
    ensures
        c.data().len() < 5 <==> c.res == Err::<Option<MetadataRecord>, DecodeError>(
            DecodeError::UHeapMultiInsertTooShort,
        ),
{
    lemma_is_multi_insert(c);
    lemma_viewed(c.res);
    if c.data().len() >= 5 {
        lemma_tuple_errors(c.data().skip(5), tuple_count(i32_at(c.data(), 0)));
    }
}

proof fn lemma_tuple_errors(s: Seq<u8>, n: nat)
    ensures
        tuples_in(s, n) is Err ==> tuples_in(s, n)->Err_0
            != DecodeError::UHeapMultiInsertTooShort,
    decreases n,
{
    if n > 0 && front_tuple_error(s) is None {
        lemma_tuple_errors(after_front_tuple(s), (n - 1) as nat);
    }
}

/// A UHeap record can be read wherever it reaches its main data, but for a
/// multi-insert that, after whole tuples, has exactly twelve bytes for the next
/// one that it counts.
pub proof fn law_uheap_complete(
    decoded: DecodedWALRecord,
    pg_version: PgMajorVersion,
    wal_format: WalFormat,
    xl: Option<XlRecord>,
    ntuples: i32,
    flags: u8,
    ts: Seq<UHeapTupleView>,
    more: Seq<u8>,
)
    requires
        decoded.xl_rmid == 28,
        data_len(decoded) >= 0,
    ensures
        middle3(decoded.xl_info) != 6 || data_len(decoded) < 5 ==> complete(
            decoded,
            pg_version,
            wal_format,
            xl,
        ),
        middle3(decoded.xl_info) == 6 && lengths_right(ts) && contents(decoded.record).skip(
            decoded.main_data_offset as int,
        ) == multi_insert_header(ntuples, flags) + (tuples_bytes(ts) + more) ==> {
            &&& ts.len() < ntuples && more.len() == 12 ==> !complete(
                decoded,
                pg_version,
                wal_format,
                xl,
            )
            &&& ts.len() < ntuples && more.len() < 12 ==> complete(
                decoded,
                pg_version,
                wal_format,
                xl,
            )
            &&& ts.len() < ntuples && more.len() >= 13 && (number(more, 0, 4) >= 0x8000_0000
                || number(more, 0, 4) > more.len() - 13) ==> complete(
                decoded,
                pg_version,
                wal_format,
                xl,
            )
            &&& ts.len() == (if ntuples < 0 {
                0
            } else {
                ntuples as int
            }) ==> complete(decoded, pg_version, wal_format, xl)
        },
{
    lemma_info_bits(decoded.xl_info);
    let main = contents(decoded.record).skip(decoded.main_data_offset as int);
    if middle3(decoded.xl_info) == 6 && lengths_right(ts) && main == multi_insert_header(
        ntuples,
        flags,
    ) + (tuples_bytes(ts) + more) {
        lemma_multi_insert_header(main, ntuples, flags, tuples_bytes(ts) + more);
        if ts.len() <= tuple_count(ntuples) {
            lemma_tuples_read_back(ts, more, tuple_count(ntuples));
        }
        lemma_numbers(more, 0);
    }
}

} // verus!
