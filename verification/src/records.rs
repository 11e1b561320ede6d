//! The metadata records that a log record can stand for.
//!
//! A record that owns bytes, text or a list has a view in which these are
//! sequences. Contracts speak of the views.

use crate::bytebuf::{clone_bytes, contents};
use crate::error::DecodeError;
use crate::types::{
    Lsn, MultiXactMember, RelFileNode, RelTag, SlruKind, XlMultiXactCreate, XlMultiXactTruncate,
    XlRelmapUpdate, XlReploriginDrop, XlReploriginSet, XlSmgrTruncate, XlXactParsedRecord,
};
use bytes::Bytes;
use vstd::prelude::*;

verus! {

/// The bytes of an optional buffer.
pub open spec fn opt_contents(b: Option<Bytes>) -> Option<Seq<u8>> {
    match b {
        Some(b) => Some(contents(b)),
        None => None,
    }
}

fn clone_opt_bytes(b: &Option<Bytes>) -> (r: Option<Bytes>)
    ensures
        opt_contents(r) == opt_contents(*b),
{
    match b {
        Some(b) => Some(clone_bytes(b)),
        None => None,
    }
}

// Heap records.

/// Bits of the visibility map to clear: those that `flags` names, for a new and an
/// old heap block, on the map `vm_rel`.
#[derive(Clone, Copy, Debug, PartialEq, Eq)]
pub struct ClearVmBits {
    pub new_heap_blkno: Option<u32>,
    pub old_heap_blkno: Option<u32>,
    pub vm_rel: RelTag,
    pub flags: u8,
}

#[derive(Clone, Copy, Debug, PartialEq, Eq)]
pub enum HeapamRecord {
    ClearVmBits(ClearVmBits),
}

#[derive(Clone, Copy, Debug, PartialEq, Eq)]
pub enum NeonrmgrRecord {
    ClearVmBits(ClearVmBits),
}

// Storage and database records.

#[derive(Clone, Copy, Debug, PartialEq, Eq)]
pub struct SmgrCreate {
    pub rel: RelTag,
}

#[derive(Clone, Copy, Debug, PartialEq, Eq)]
pub enum SmgrRecord {
    Create(SmgrCreate),
    Truncate(XlSmgrTruncate),
}

#[derive(Clone, Copy, Debug, PartialEq, Eq)]
pub struct DbaseCreate {
    pub db_id: u32,
    pub tablespace_id: u32,
    pub src_db_id: u32,
    pub src_tablespace_id: u32,
}

#[derive(Debug, PartialEq)]
pub struct DbaseDrop {
    pub db_id: u32,
    pub tablespace_ids: Vec<u32>,
}

#[verifier::ext_equal]
pub struct DbaseDropView {
    pub db_id: u32,
    pub tablespace_ids: Seq<u32>,
}

impl View for DbaseDrop {
    type V = DbaseDropView;

    open spec fn view(&self) -> DbaseDropView {
        DbaseDropView {
            db_id: self.db_id,
            tablespace_ids: self.tablespace_ids@,
        }
    }
}

impl Clone for DbaseDrop {
    fn clone(&self) -> (r: Self)
        ensures
            r@ == self@,
    {
        let r = DbaseDrop {
            db_id: self.db_id,
            tablespace_ids: self.tablespace_ids.clone(),
        };
        assert(r@ =~= self@);
        r
    }
}

#[derive(Debug, PartialEq)]
pub enum DbaseRecord {
    Create(DbaseCreate),
    Drop(DbaseDrop),
}

pub enum DbaseView {
    Create(DbaseCreate),
    Drop(DbaseDropView),
}

impl View for DbaseRecord {
    type V = DbaseView;

    open spec fn view(&self) -> DbaseView {
        match self {
            DbaseRecord::Create(r) => DbaseView::Create(*r),
            DbaseRecord::Drop(r) => DbaseView::Drop(r@),
        }
    }
}

impl Clone for DbaseRecord {
    fn clone(&self) -> (r: Self)
        ensures
            r@ == self@,
    {
        match self {
            DbaseRecord::Create(r) => DbaseRecord::Create(*r),
            DbaseRecord::Drop(r) => DbaseRecord::Drop(r.clone()),
        }
    }
}

/// A new relation map: its header, and the map file itself.
#[derive(Debug, PartialEq)]
pub struct RelmapUpdate {
    pub update: XlRelmapUpdate,
    pub buf: Bytes,
}

#[verifier::ext_equal]
pub struct RelmapUpdateView {
    pub update: XlRelmapUpdate,
    pub buf: Seq<u8>,
}

impl View for RelmapUpdate {
    type V = RelmapUpdateView;

    open spec fn view(&self) -> RelmapUpdateView {
        RelmapUpdateView {
            update: self.update,
            buf: contents(self.buf),
        }
    }
}

impl Clone for RelmapUpdate {
    fn clone(&self) -> (r: Self)
        ensures
            r@ == self@,
    {
        let r = RelmapUpdate {
            update: self.update,
            buf: clone_bytes(&self.buf),
        };
        assert(r@ =~= self@);
        r
    }
}

#[derive(Debug, PartialEq)]
pub enum RelmapRecord {
    Update(RelmapUpdate),
}

pub enum RelmapView {
    Update(RelmapUpdateView),
}

impl View for RelmapRecord {
    type V = RelmapView;

    open spec fn view(&self) -> RelmapView {
        match self {
            RelmapRecord::Update(r) => RelmapView::Update(r@),
        }
    }
}

impl Clone for RelmapRecord {
    fn clone(&self) -> (r: Self)
        ensures
            r@ == self@,
    {
        match self {
            RelmapRecord::Update(r) => RelmapRecord::Update(r.clone()),
        }
    }
}

// Transaction records.

#[derive(Clone, Copy, Debug, PartialEq, Eq)]
pub struct ClogZeroPage {
    pub segno: u32,
    pub rpageno: u32,
}

#[derive(Clone, Copy, Debug, PartialEq, Eq)]
pub struct ClogTruncate {
    pub pageno: u32,
    pub oldest_xid: u32,
    pub oldest_xid_db: u32,
}

#[derive(Clone, Copy, Debug, PartialEq, Eq)]
pub enum ClogRecord {
    ZeroPage(ClogZeroPage),
    Truncate(ClogTruncate),
}

#[verifier::ext_equal]
pub struct XlXactParsedView {
    pub xid: u32,
    pub info: u8,
    pub xact_time: i64,
    pub xinfo: u32,
    pub db_id: u32,
    pub ts_id: u32,
    pub subxacts: Seq<u32>,
    pub xnodes: Seq<RelFileNode>,
    pub origin_lsn: Lsn,
}

impl View for XlXactParsedRecord {
    type V = XlXactParsedView;

    open spec fn view(&self) -> XlXactParsedView {
        XlXactParsedView {
            xid: self.xid,
            info: self.info,
            xact_time: self.xact_time,
            xinfo: self.xinfo,
            db_id: self.db_id,
            ts_id: self.ts_id,
            subxacts: self.subxacts@,
            xnodes: self.xnodes@,
            origin_lsn: self.origin_lsn,
        }
    }
}

impl Clone for XlXactParsedRecord {
    fn clone(&self) -> (r: Self)
        ensures
            r@ == self@,
    {
        let r = XlXactParsedRecord {
            xid: self.xid,
            info: self.info,
            xact_time: self.xact_time,
            xinfo: self.xinfo,
            db_id: self.db_id,
            ts_id: self.ts_id,
            subxacts: self.subxacts.clone(),
            xnodes: self.xnodes.clone(),
            origin_lsn: self.origin_lsn,
        };
        assert(r@ =~= self@);
        r
    }
}

/// What commits and aborts have in common.
#[derive(Debug, PartialEq)]
pub struct XactCommon {
    pub parsed: XlXactParsedRecord,
    pub origin_id: u16,
    pub xl_xid: u32,
    pub lsn: Lsn,
}

#[verifier::ext_equal]
pub struct XactCommonView {
    pub parsed: XlXactParsedView,
    pub origin_id: u16,
    pub xl_xid: u32,
    pub lsn: Lsn,
}

impl View for XactCommon {
    type V = XactCommonView;

    open spec fn view(&self) -> XactCommonView {
        XactCommonView {
            parsed: self.parsed@,
            origin_id: self.origin_id,
            xl_xid: self.xl_xid,
            lsn: self.lsn,
        }
    }
}

impl Clone for XactCommon {
    fn clone(&self) -> (r: Self)
        ensures
            r@ == self@,
    {
        let r = XactCommon {
            parsed: self.parsed.clone(),
            origin_id: self.origin_id,
            xl_xid: self.xl_xid,
            lsn: self.lsn,
        };
        assert(r@ =~= self@);
        r
    }
}

#[derive(Debug, PartialEq)]
pub struct XactPrepare {
    pub xl_xid: u32,
    pub data: Bytes,
}

#[verifier::ext_equal]
pub struct XactPrepareView {
    pub xl_xid: u32,
    pub data: Seq<u8>,
}

impl View for XactPrepare {
    type V = XactPrepareView;

    open spec fn view(&self) -> XactPrepareView {
        XactPrepareView {
            xl_xid: self.xl_xid,
            data: contents(self.data),
        }
    }
}

impl Clone for XactPrepare {
    fn clone(&self) -> (r: Self)
        ensures
            r@ == self@,
    {
        let r = XactPrepare {
            xl_xid: self.xl_xid,
            data: clone_bytes(&self.data),
        };
        assert(r@ =~= self@);
        r
    }
}

#[derive(Debug, PartialEq)]
pub enum XactRecord {
    Commit(XactCommon),
    Abort(XactCommon),
    CommitPrepared(XactCommon),
    AbortPrepared(XactCommon),
    Prepare(XactPrepare),
}

pub enum XactView {
    Commit(XactCommonView),
    Abort(XactCommonView),
    CommitPrepared(XactCommonView),
    AbortPrepared(XactCommonView),
    Prepare(XactPrepareView),
}

impl View for XactRecord {
    type V = XactView;

    open spec fn view(&self) -> XactView {
        match self {
            XactRecord::Commit(r) => XactView::Commit(r@),
            XactRecord::Abort(r) => XactView::Abort(r@),
            XactRecord::CommitPrepared(r) => XactView::CommitPrepared(r@),
            XactRecord::AbortPrepared(r) => XactView::AbortPrepared(r@),
            XactRecord::Prepare(r) => XactView::Prepare(r@),
        }
    }
}

impl Clone for XactRecord {
    fn clone(&self) -> (r: Self)
        ensures
            r@ == self@,
    {
        match self {
            XactRecord::Commit(r) => XactRecord::Commit(r.clone()),
            XactRecord::Abort(r) => XactRecord::Abort(r.clone()),
            XactRecord::CommitPrepared(r) => XactRecord::CommitPrepared(r.clone()),
            XactRecord::AbortPrepared(r) => XactRecord::AbortPrepared(r.clone()),
            XactRecord::Prepare(r) => XactRecord::Prepare(r.clone()),
        }
    }
}

#[derive(Clone, Copy, Debug, PartialEq, Eq)]
pub struct MultiXactZeroPage {
    pub slru_kind: SlruKind,
    pub segno: u32,
    pub rpageno: u32,
}

#[verifier::ext_equal]
pub struct XlMultiXactCreateView {
    pub mid: u32,
    pub moff: u32,
    pub nmembers: u32,
    pub members: Seq<MultiXactMember>,
}

impl View for XlMultiXactCreate {
    type V = XlMultiXactCreateView;

    open spec fn view(&self) -> XlMultiXactCreateView {
        XlMultiXactCreateView {
            mid: self.mid,
            moff: self.moff,
            nmembers: self.nmembers,
            members: self.members@,
        }
    }
}

impl Clone for XlMultiXactCreate {
    fn clone(&self) -> (r: Self)
        ensures
            r@ == self@,
    {
        let r = XlMultiXactCreate {
            mid: self.mid,
            moff: self.moff,
            nmembers: self.nmembers,
            members: self.members.clone(),
        };
        assert(r@ =~= self@);
        r
    }
}

#[derive(Debug, PartialEq)]
pub enum MultiXactRecord {
    ZeroPage(MultiXactZeroPage),
    Create(XlMultiXactCreate),
    Truncate(XlMultiXactTruncate),
}

pub enum MultiXactView {
    ZeroPage(MultiXactZeroPage),
    Create(XlMultiXactCreateView),
    Truncate(XlMultiXactTruncate),
}

impl View for MultiXactRecord {
    type V = MultiXactView;

    open spec fn view(&self) -> MultiXactView {
        match self {
            MultiXactRecord::ZeroPage(r) => MultiXactView::ZeroPage(*r),
            MultiXactRecord::Create(r) => MultiXactView::Create(r@),
            MultiXactRecord::Truncate(r) => MultiXactView::Truncate(*r),
        }
    }
}

impl Clone for MultiXactRecord {
    fn clone(&self) -> (r: Self)
        ensures
            r@ == self@,
    {
        match self {
            MultiXactRecord::ZeroPage(r) => MultiXactRecord::ZeroPage(*r),
            MultiXactRecord::Create(r) => MultiXactRecord::Create(r.clone()),
            MultiXactRecord::Truncate(r) => MultiXactRecord::Truncate(*r),
        }
    }
}

#[derive(Clone, Copy, Debug, PartialEq, Eq)]
pub struct StandbyRunningXacts {
    pub oldest_running_xid: u32,
}

#[derive(Clone, Copy, Debug, PartialEq, Eq)]
pub enum StandbyRecord {
    RunningXacts(StandbyRunningXacts),
}

#[derive(Clone, Copy, Debug, PartialEq, Eq)]
pub enum ReploriginRecord {
    OriginSet(XlReploriginSet),
    Drop(XlReploriginDrop),
}

// Records that are handed on as they are, and logical messages.

#[derive(Debug, PartialEq)]
pub struct RawXlogRecord {
    pub info: u8,
    pub lsn: Lsn,
    pub buf: Bytes,
}

#[verifier::ext_equal]
pub struct RawXlogView {
    pub info: u8,
    pub lsn: Lsn,
    pub buf: Seq<u8>,
}

impl View for RawXlogRecord {
    type V = RawXlogView;

    open spec fn view(&self) -> RawXlogView {
        RawXlogView {
            info: self.info,
            lsn: self.lsn,
            buf: contents(self.buf),
        }
    }
}

impl Clone for RawXlogRecord {
    fn clone(&self) -> (r: Self)
        ensures
            r@ == self@,
    {
        let r = RawXlogRecord {
            info: self.info,
            lsn: self.lsn,
            buf: clone_bytes(&self.buf),
        };
        assert(r@ =~= self@);
        r
    }
}

#[derive(Debug, PartialEq)]
pub enum XlogRecord {
    Raw(RawXlogRecord),
}

pub enum XlogView {
    Raw(RawXlogView),
}

impl View for XlogRecord {
    type V = XlogView;

    open spec fn view(&self) -> XlogView {
        match self {
            XlogRecord::Raw(r) => XlogView::Raw(r@),
        }
    }
}

impl Clone for XlogRecord {
    fn clone(&self) -> (r: Self)
        ensures
            r@ == self@,
    {
        match self {
            XlogRecord::Raw(r) => XlogRecord::Raw(r.clone()),
        }
    }
}

/// A file to be stored.
#[derive(Debug, PartialEq)]
pub struct PutLogicalMessage {
    pub path: String,
    pub buf: Bytes,
}

#[verifier::ext_equal]
pub struct PutLogicalMessageView {
    pub path: Seq<char>,
    pub buf: Seq<u8>,
}

impl View for PutLogicalMessage {
    type V = PutLogicalMessageView;

    open spec fn view(&self) -> PutLogicalMessageView {
        PutLogicalMessageView {
            path: self.path@,
            buf: contents(self.buf),
        }
    }
}

impl Clone for PutLogicalMessage {
    fn clone(&self) -> (r: Self)
        ensures
            r@ == self@,
    {
        let r = PutLogicalMessage {
            path: self.path.clone(),
            buf: clone_bytes(&self.buf),
        };
        assert(r@ =~= self@);
        r
    }
}

#[derive(Debug, PartialEq)]
pub enum LogicalMessageRecord {
    Put(PutLogicalMessage),
    Failpoint,
}

pub enum LogicalMessageView {
    Put(PutLogicalMessageView),
    Failpoint,
}

impl View for LogicalMessageRecord {
    type V = LogicalMessageView;

    open spec fn view(&self) -> LogicalMessageView {
        match self {
            LogicalMessageRecord::Put(r) => LogicalMessageView::Put(r@),
            LogicalMessageRecord::Failpoint => LogicalMessageView::Failpoint,
        }
    }
}

impl Clone for LogicalMessageRecord {
    fn clone(&self) -> (r: Self)
        ensures
            r@ == self@,
    {
        match self {
            LogicalMessageRecord::Put(r) => LogicalMessageRecord::Put(r.clone()),
            LogicalMessageRecord::Failpoint => LogicalMessageRecord::Failpoint,
        }
    }
}

// UHeap records.

/// The view of a record that is kept as its info bits and its main data.
#[verifier::ext_equal]
pub struct GenericView {
    pub info: u8,
    pub buf: Seq<u8>,
}

/// The view of a record that is kept as its main data alone.
#[verifier::ext_equal]
pub struct DataView {
    pub data: Seq<u8>,
}

#[derive(Debug, PartialEq)]
pub struct UHeapInsertRecord {
    pub offnum: u16,
    pub flags: u8,
    pub has_tuple: bool,
    pub tuple_data: Option<Bytes>,
}

#[verifier::ext_equal]
pub struct UHeapInsertView {
    pub offnum: u16,
    pub flags: u8,
    pub has_tuple: bool,
    pub tuple_data: Option<Seq<u8>>,
}

impl View for UHeapInsertRecord {
    type V = UHeapInsertView;

    open spec fn view(&self) -> UHeapInsertView {
        UHeapInsertView {
            offnum: self.offnum,
            flags: self.flags,
            has_tuple: self.has_tuple,
            tuple_data: opt_contents(self.tuple_data),
        }
    }
}

impl Clone for UHeapInsertRecord {
    fn clone(&self) -> (r: Self)
        ensures
            r@ == self@,
    {
        let r = UHeapInsertRecord {
            offnum: self.offnum,
            flags: self.flags,
            has_tuple: self.has_tuple,
            tuple_data: clone_opt_bytes(&self.tuple_data),
        };
        assert(r@ =~= self@);
        r
    }
}

#[derive(Debug, PartialEq)]
pub struct UHeapDeleteRecord {
    pub oldxid: u32,
    pub offnum: u16,
    pub td_id: u8,
    pub flag: u8,
    pub has_undo_tuple: bool,
    pub undo_tuple: Option<Bytes>,
}

#[verifier::ext_equal]
pub struct UHeapDeleteView {
    pub oldxid: u32,
    pub offnum: u16,
    pub td_id: u8,
    pub flag: u8,
    pub has_undo_tuple: bool,
    pub undo_tuple: Option<Seq<u8>>,
}

impl View for UHeapDeleteRecord {
    type V = UHeapDeleteView;

    open spec fn view(&self) -> UHeapDeleteView {
        UHeapDeleteView {
            oldxid: self.oldxid,
            offnum: self.offnum,
            td_id: self.td_id,
            flag: self.flag,
            has_undo_tuple: self.has_undo_tuple,
            undo_tuple: opt_contents(self.undo_tuple),
        }
    }
}

impl Clone for UHeapDeleteRecord {
    fn clone(&self) -> (r: Self)
        ensures
            r@ == self@,
    {
        let r = UHeapDeleteRecord {
            oldxid: self.oldxid,
            offnum: self.offnum,
            td_id: self.td_id,
            flag: self.flag,
            has_undo_tuple: self.has_undo_tuple,
            undo_tuple: clone_opt_bytes(&self.undo_tuple),
        };
        assert(r@ =~= self@);
        r
    }
}

#[derive(Debug, PartialEq)]
pub struct UHeapUpdateRecord {
    pub oldxid: u32,
    pub old_offnum: u16,
    pub old_tuple_flag: u16,
    pub new_offnum: u16,
    pub old_tuple_td_id: u8,
    pub flags: u8,
    pub has_old_tuple: bool,
    pub has_new_tuple: bool,
    pub old_tuple: Option<Bytes>,
    pub new_tuple: Option<Bytes>,
}

#[verifier::ext_equal]
pub struct UHeapUpdateView {
    pub oldxid: u32,
    pub old_offnum: u16,
    pub old_tuple_flag: u16,
    pub new_offnum: u16,
    pub old_tuple_td_id: u8,
    pub flags: u8,
    pub has_old_tuple: bool,
    pub has_new_tuple: bool,
    pub old_tuple: Option<Seq<u8>>,
    pub new_tuple: Option<Seq<u8>>,
}

impl View for UHeapUpdateRecord {
    type V = UHeapUpdateView;

    open spec fn view(&self) -> UHeapUpdateView {
        UHeapUpdateView {
            oldxid: self.oldxid,
            old_offnum: self.old_offnum,
            old_tuple_flag: self.old_tuple_flag,
            new_offnum: self.new_offnum,
            old_tuple_td_id: self.old_tuple_td_id,
            flags: self.flags,
            has_old_tuple: self.has_old_tuple,
            has_new_tuple: self.has_new_tuple,
            old_tuple: opt_contents(self.old_tuple),
            new_tuple: opt_contents(self.new_tuple),
        }
    }
}

impl Clone for UHeapUpdateRecord {
    fn clone(&self) -> (r: Self)
        ensures
            r@ == self@,
    {
        let r = UHeapUpdateRecord {
            oldxid: self.oldxid,
            old_offnum: self.old_offnum,
            old_tuple_flag: self.old_tuple_flag,
            new_offnum: self.new_offnum,
            old_tuple_td_id: self.old_tuple_td_id,
            flags: self.flags,
            has_old_tuple: self.has_old_tuple,
            has_new_tuple: self.has_new_tuple,
            old_tuple: clone_opt_bytes(&self.old_tuple),
            new_tuple: clone_opt_bytes(&self.new_tuple),
        };
        assert(r@ =~= self@);
        r
    }
}

#[derive(Clone, Copy, Debug, PartialEq, Eq)]
pub struct UHeapFreezeTdSlotRecord {
    pub latest_frozen_xid: u32,
    pub n_frozen: u16,
}

#[derive(Debug, PartialEq)]
pub struct UHeapInvalidTdSlotRecord {
    pub data: Bytes,
}

impl View for UHeapInvalidTdSlotRecord {
    type V = DataView;

    open spec fn view(&self) -> DataView {
        DataView {
            data: contents(self.data),
        }
    }
}

impl Clone for UHeapInvalidTdSlotRecord {
    fn clone(&self) -> (r: Self)
        ensures
            r@ == self@,
    {
        let r = UHeapInvalidTdSlotRecord {
            data: clone_bytes(&self.data),
        };
        assert(r@ =~= self@);
        r
    }
}

#[derive(Debug, PartialEq)]
pub struct UHeapCleanRecord {
    pub latest_removed_xid: u32,
    pub ndeleted: u16,
    pub ndead: u16,
    pub flags: u8,
    pub offsets: Vec<u16>,
}

#[verifier::ext_equal]
pub struct UHeapCleanView {
    pub latest_removed_xid: u32,
    pub ndeleted: u16,
    pub ndead: u16,
    pub flags: u8,
    pub offsets: Seq<u16>,
}

impl View for UHeapCleanRecord {
    type V = UHeapCleanView;

    open spec fn view(&self) -> UHeapCleanView {
        UHeapCleanView {
            latest_removed_xid: self.latest_removed_xid,
            ndeleted: self.ndeleted,
            ndead: self.ndead,
            flags: self.flags,
            offsets: self.offsets@,
        }
    }
}

impl Clone for UHeapCleanRecord {
    fn clone(&self) -> (r: Self)
        ensures
            r@ == self@,
    {
        let r = UHeapCleanRecord {
            latest_removed_xid: self.latest_removed_xid,
            ndeleted: self.ndeleted,
            ndead: self.ndead,
            flags: self.flags,
            offsets: self.offsets.clone(),
        };
        assert(r@ =~= self@);
        r
    }
}

/// One tuple of a multi-insert.
#[derive(Debug, PartialEq)]
pub struct UHeapTupleData {
    pub datalen: i32,
    pub xid: u16,
    pub td_id: u8,
    pub locker_td_id: u8,
    pub flag: u16,
    pub flag2: u16,
    pub t_hoff: u8,
    pub data: Vec<u8>,
}

#[verifier::ext_equal]
pub struct UHeapTupleView {
    pub datalen: i32,
    pub xid: u16,
    pub td_id: u8,
    pub locker_td_id: u8,
    pub flag: u16,
    pub flag2: u16,
    pub t_hoff: u8,
    pub data: Seq<u8>,
}

impl View for UHeapTupleData {
    type V = UHeapTupleView;

    open spec fn view(&self) -> UHeapTupleView {
        UHeapTupleView {
            datalen: self.datalen,
            xid: self.xid,
            td_id: self.td_id,
            locker_td_id: self.locker_td_id,
            flag: self.flag,
            flag2: self.flag2,
            t_hoff: self.t_hoff,
            data: self.data@,
        }
    }
}

impl Clone for UHeapTupleData {
    fn clone(&self) -> (r: Self)
        ensures
            r@ == self@,
    {
        let r = UHeapTupleData {
            datalen: self.datalen,
            xid: self.xid,
            td_id: self.td_id,
            locker_td_id: self.locker_td_id,
            flag: self.flag,
            flag2: self.flag2,
            t_hoff: self.t_hoff,
            data: self.data.clone(),
        };
        assert(r@ =~= self@);
        r
    }
}

/// The views of a list of tuples.
pub open spec fn tuples_view(tuples: Seq<UHeapTupleData>) -> Seq<UHeapTupleView> {
    Seq::new(tuples.len(), |i: int| tuples[i]@)
}

fn clone_tuples(tuples: &Vec<UHeapTupleData>) -> (r: Vec<UHeapTupleData>)
    ensures
        tuples_view(r@) == tuples_view(tuples@),
{
    let mut r: Vec<UHeapTupleData> = Vec::new();
    for i in 0..tuples.len()
        invariant
            r@.len() == i,
            forall|j: int| 0 <= j < i ==> (#[trigger] r@[j])@ == tuples@[j]@,
    {
        r.push(tuples[i].clone());
    }
    assert(tuples_view(r@) =~= tuples_view(tuples@));
    r
}

#[derive(Debug, PartialEq)]
pub struct UHeapMultiInsertRecord {
    pub ntuples: i32,
    pub flags: u8,
    pub tuples: Vec<UHeapTupleData>,
}

#[verifier::ext_equal]
pub struct UHeapMultiInsertView {
    pub ntuples: i32,
    pub flags: u8,
    pub tuples: Seq<UHeapTupleView>,
}

impl View for UHeapMultiInsertRecord {
    type V = UHeapMultiInsertView;

    open spec fn view(&self) -> UHeapMultiInsertView {
        UHeapMultiInsertView {
            ntuples: self.ntuples,
            flags: self.flags,
            tuples: tuples_view(self.tuples@),
        }
    }
}

impl Clone for UHeapMultiInsertRecord {
    fn clone(&self) -> (r: Self)
        ensures
            r@ == self@,
    {
        let r = UHeapMultiInsertRecord {
            ntuples: self.ntuples,
            flags: self.flags,
            tuples: clone_tuples(&self.tuples),
        };
        assert(r@ =~= self@);
        r
    }
}

#[derive(Debug, PartialEq)]
pub struct UHeapNewPageRecord {
    pub data: Bytes,
}

impl View for UHeapNewPageRecord {
    type V = DataView;

    open spec fn view(&self) -> DataView {
        DataView {
            data: contents(self.data),
        }
    }
}

impl Clone for UHeapNewPageRecord {
    fn clone(&self) -> (r: Self)
        ensures
            r@ == self@,
    {
        let r = UHeapNewPageRecord {
            data: clone_bytes(&self.data),
        };
        assert(r@ =~= self@);
        r
    }
}

#[derive(Debug, PartialEq)]
pub struct UHeapGenericRecord {
    pub info: u8,
    pub buf: Bytes,
}

impl View for UHeapGenericRecord {
    type V = GenericView;

    open spec fn view(&self) -> GenericView {
        GenericView {
            info: self.info,
            buf: contents(self.buf),
        }
    }
}

impl Clone for UHeapGenericRecord {
    fn clone(&self) -> (r: Self)
        ensures
            r@ == self@,
    {
        let r = UHeapGenericRecord {
            info: self.info,
            buf: clone_bytes(&self.buf),
        };
        assert(r@ =~= self@);
        r
    }
}

#[derive(Debug, PartialEq)]
pub enum UHeapRecord {
    Insert(UHeapInsertRecord),
    Delete(UHeapDeleteRecord),
    Update(UHeapUpdateRecord),
    FreezeTdSlot(UHeapFreezeTdSlotRecord),
    InvalidTdSlot(UHeapInvalidTdSlotRecord),
    Clean(UHeapCleanRecord),
    MultiInsert(UHeapMultiInsertRecord),
    NewPage(UHeapNewPageRecord),
    Generic(UHeapGenericRecord),
}

pub enum UHeapView {
    Insert(UHeapInsertView),
    Delete(UHeapDeleteView),
    Update(UHeapUpdateView),
    FreezeTdSlot(UHeapFreezeTdSlotRecord),
    InvalidTdSlot(DataView),
    Clean(UHeapCleanView),
    MultiInsert(UHeapMultiInsertView),
    NewPage(DataView),
    Generic(GenericView),
}

impl View for UHeapRecord {
    type V = UHeapView;

    open spec fn view(&self) -> UHeapView {
        match self {
            UHeapRecord::Insert(r) => UHeapView::Insert(r@),
            UHeapRecord::Delete(r) => UHeapView::Delete(r@),
            UHeapRecord::Update(r) => UHeapView::Update(r@),
            UHeapRecord::FreezeTdSlot(r) => UHeapView::FreezeTdSlot(*r),
            UHeapRecord::InvalidTdSlot(r) => UHeapView::InvalidTdSlot(r@),
            UHeapRecord::Clean(r) => UHeapView::Clean(r@),
            UHeapRecord::MultiInsert(r) => UHeapView::MultiInsert(r@),
            UHeapRecord::NewPage(r) => UHeapView::NewPage(r@),
            UHeapRecord::Generic(r) => UHeapView::Generic(r@),
        }
    }
}

impl Clone for UHeapRecord {
    fn clone(&self) -> (r: Self)
        ensures
            r@ == self@,
    {
        match self {
            UHeapRecord::Insert(r) => UHeapRecord::Insert(r.clone()),
            UHeapRecord::Delete(r) => UHeapRecord::Delete(r.clone()),
            UHeapRecord::Update(r) => UHeapRecord::Update(r.clone()),
            UHeapRecord::FreezeTdSlot(r) => UHeapRecord::FreezeTdSlot(*r),
            UHeapRecord::InvalidTdSlot(r) => UHeapRecord::InvalidTdSlot(r.clone()),
            UHeapRecord::Clean(r) => UHeapRecord::Clean(r.clone()),
            UHeapRecord::MultiInsert(r) => UHeapRecord::MultiInsert(r.clone()),
            UHeapRecord::NewPage(r) => UHeapRecord::NewPage(r.clone()),
            UHeapRecord::Generic(r) => UHeapRecord::Generic(r.clone()),
        }
    }
}

#[derive(Clone, Copy, Debug, PartialEq, Eq)]
pub struct UHeap2BaseShiftRecord {
    pub multi: bool,
    pub delta: i64,
}

#[derive(Clone, Copy, Debug, PartialEq, Eq)]
pub struct UHeap2FreezeRecord {
    pub cutoff_xid: u32,
}

#[derive(Clone, Copy, Debug, PartialEq, Eq)]
pub struct UHeap2ExtendTdSlotsRecord {
    pub n_prev_slots: u8,
    pub n_extended: u8,
}

#[derive(Debug, PartialEq)]
pub struct UHeap2GenericRecord {
    pub info: u8,
    pub buf: Bytes,
}

impl View for UHeap2GenericRecord {
    type V = GenericView;

    open spec fn view(&self) -> GenericView {
        GenericView {
            info: self.info,
            buf: contents(self.buf),
        }
    }
}

impl Clone for UHeap2GenericRecord {
    fn clone(&self) -> (r: Self)
        ensures
            r@ == self@,
    {
        let r = UHeap2GenericRecord {
            info: self.info,
            buf: clone_bytes(&self.buf),
        };
        assert(r@ =~= self@);
        r
    }
}

#[derive(Debug, PartialEq)]
pub enum UHeap2Record {
    BaseShift(UHeap2BaseShiftRecord),
    Freeze(UHeap2FreezeRecord),
    ExtendTdSlots(UHeap2ExtendTdSlotsRecord),
    Generic(UHeap2GenericRecord),
}

pub enum UHeap2View {
    BaseShift(UHeap2BaseShiftRecord),
    Freeze(UHeap2FreezeRecord),
    ExtendTdSlots(UHeap2ExtendTdSlotsRecord),
    Generic(GenericView),
}

impl View for UHeap2Record {
    type V = UHeap2View;

    open spec fn view(&self) -> UHeap2View {
        match self {
            UHeap2Record::BaseShift(r) => UHeap2View::BaseShift(*r),
            UHeap2Record::Freeze(r) => UHeap2View::Freeze(*r),
            UHeap2Record::ExtendTdSlots(r) => UHeap2View::ExtendTdSlots(*r),
            UHeap2Record::Generic(r) => UHeap2View::Generic(r@),
        }
    }
}

impl Clone for UHeap2Record {
    fn clone(&self) -> (r: Self)
        ensures
            r@ == self@,
    {
        match self {
            UHeap2Record::BaseShift(r) => UHeap2Record::BaseShift(*r),
            UHeap2Record::Freeze(r) => UHeap2Record::Freeze(*r),
            UHeap2Record::ExtendTdSlots(r) => UHeap2Record::ExtendTdSlots(*r),
            UHeap2Record::Generic(r) => UHeap2Record::Generic(r.clone()),
        }
    }
}

#[derive(Debug, PartialEq)]
pub struct UHeapUndoPageRecord {
    pub data: Bytes,
}

impl View for UHeapUndoPageRecord {
    type V = DataView;

    open spec fn view(&self) -> DataView {
        DataView {
            data: contents(self.data),
        }
    }
}

impl Clone for UHeapUndoPageRecord {
    fn clone(&self) -> (r: Self)
        ensures
            r@ == self@,
    {
        let r = UHeapUndoPageRecord {
            data: clone_bytes(&self.data),
        };
        assert(r@ =~= self@);
        r
    }
}

#[derive(Clone, Copy, Debug, PartialEq, Eq)]
pub struct UHeapUndoResetSlotRecord {
    pub urec_ptr: u64,
    pub zone_id: i32,
    pub td_slot_id: i32,
}

#[derive(Clone, Copy, Debug, PartialEq, Eq)]
pub struct UHeapUndoAbortSpecInsertRecord {
    pub offset: u16,
    pub zone_id: i32,
}

#[derive(Debug, PartialEq)]
pub struct UHeapUndoGenericRecord {
    pub info: u8,
    pub buf: Bytes,
}

impl View for UHeapUndoGenericRecord {
    type V = GenericView;

    open spec fn view(&self) -> GenericView {
        GenericView {
            info: self.info,
            buf: contents(self.buf),
        }
    }
}

impl Clone for UHeapUndoGenericRecord {
    fn clone(&self) -> (r: Self)
        ensures
            r@ == self@,
    {
        let r = UHeapUndoGenericRecord {
            info: self.info,
            buf: clone_bytes(&self.buf),
        };
        assert(r@ =~= self@);
        r
    }
}

#[derive(Debug, PartialEq)]
pub enum UHeapUndoRecord {
    Page(UHeapUndoPageRecord),
    ResetSlot(UHeapUndoResetSlotRecord),
    AbortSpecInsert(UHeapUndoAbortSpecInsertRecord),
    Generic(UHeapUndoGenericRecord),
}

pub enum UHeapUndoView {
    Page(DataView),
    ResetSlot(UHeapUndoResetSlotRecord),
    AbortSpecInsert(UHeapUndoAbortSpecInsertRecord),
    Generic(GenericView),
}

impl View for UHeapUndoRecord {
    type V = UHeapUndoView;

    open spec fn view(&self) -> UHeapUndoView {
        match self {
            UHeapUndoRecord::Page(r) => UHeapUndoView::Page(r@),
            UHeapUndoRecord::ResetSlot(r) => UHeapUndoView::ResetSlot(*r),
            UHeapUndoRecord::AbortSpecInsert(r) => UHeapUndoView::AbortSpecInsert(*r),
            UHeapUndoRecord::Generic(r) => UHeapUndoView::Generic(r@),
        }
    }
}

impl Clone for UHeapUndoRecord {
    fn clone(&self) -> (r: Self)
        ensures
            r@ == self@,
    {
        match self {
            UHeapUndoRecord::Page(r) => UHeapUndoRecord::Page(r.clone()),
            UHeapUndoRecord::ResetSlot(r) => UHeapUndoRecord::ResetSlot(*r),
            UHeapUndoRecord::AbortSpecInsert(r) => UHeapUndoRecord::AbortSpecInsert(*r),
            UHeapUndoRecord::Generic(r) => UHeapUndoRecord::Generic(r.clone()),
        }
    }
}

// Records kept whole.

#[derive(Debug, PartialEq)]
pub struct UndoLogGenericRecord {
    pub info: u8,
    pub buf: Bytes,
}

impl View for UndoLogGenericRecord {
    type V = GenericView;

    open spec fn view(&self) -> GenericView {
        GenericView {
            info: self.info,
            buf: contents(self.buf),
        }
    }
}

impl Clone for UndoLogGenericRecord {
    fn clone(&self) -> (r: Self)
        ensures
            r@ == self@,
    {
        let r = UndoLogGenericRecord {
            info: self.info,
            buf: clone_bytes(&self.buf),
        };
        assert(r@ =~= self@);
        r
    }
}

#[derive(Debug, PartialEq)]
pub enum UndoLogRecord {
    Generic(UndoLogGenericRecord),
}

pub enum UndoLogView {
    Generic(GenericView),
}

impl View for UndoLogRecord {
    type V = UndoLogView;

    open spec fn view(&self) -> UndoLogView {
        match self {
            UndoLogRecord::Generic(r) => UndoLogView::Generic(r@),
        }
    }
}

impl Clone for UndoLogRecord {
    fn clone(&self) -> (r: Self)
        ensures
            r@ == self@,
    {
        match self {
            UndoLogRecord::Generic(r) => UndoLogRecord::Generic(r.clone()),
        }
    }
}

#[derive(Debug, PartialEq)]
pub struct UndoActionGenericRecord {
    pub info: u8,
    pub buf: Bytes,
}

impl View for UndoActionGenericRecord {
    type V = GenericView;

    open spec fn view(&self) -> GenericView {
        GenericView {
            info: self.info,
            buf: contents(self.buf),
        }
    }
}

impl Clone for UndoActionGenericRecord {
    fn clone(&self) -> (r: Self)
        ensures
            r@ == self@,
    {
        let r = UndoActionGenericRecord {
            info: self.info,
            buf: clone_bytes(&self.buf),
        };
        assert(r@ =~= self@);
        r
    }
}

#[derive(Debug, PartialEq)]
pub enum UndoActionRecord {
    Generic(UndoActionGenericRecord),
}

pub enum UndoActionView {
    Generic(GenericView),
}

impl View for UndoActionRecord {
    type V = UndoActionView;

    open spec fn view(&self) -> UndoActionView {
        match self {
            UndoActionRecord::Generic(r) => UndoActionView::Generic(r@),
        }
    }
}

impl Clone for UndoActionRecord {
    fn clone(&self) -> (r: Self)
        ensures
            r@ == self@,
    {
        match self {
            UndoActionRecord::Generic(r) => UndoActionRecord::Generic(r.clone()),
        }
    }
}

#[derive(Debug, PartialEq)]
pub struct UHeapBtreeGenericRecord {
    pub info: u8,
    pub buf: Bytes,
}

impl View for UHeapBtreeGenericRecord {
    type V = GenericView;

    open spec fn view(&self) -> GenericView {
        GenericView {
            info: self.info,
            buf: contents(self.buf),
        }
    }
}

impl Clone for UHeapBtreeGenericRecord {
    fn clone(&self) -> (r: Self)
        ensures
            r@ == self@,
    {
        let r = UHeapBtreeGenericRecord {
            info: self.info,
            buf: clone_bytes(&self.buf),
        };
        assert(r@ =~= self@);
        r
    }
}

#[derive(Debug, PartialEq)]
pub enum UHeapBtreeRecord {
    Generic(UHeapBtreeGenericRecord),
}

pub enum UHeapBtreeView {
    Generic(GenericView),
}

impl View for UHeapBtreeRecord {
    type V = UHeapBtreeView;

    open spec fn view(&self) -> UHeapBtreeView {
        match self {
            UHeapBtreeRecord::Generic(r) => UHeapBtreeView::Generic(r@),
        }
    }
}

impl Clone for UHeapBtreeRecord {
    fn clone(&self) -> (r: Self)
        ensures
            r@ == self@,
    {
        match self {
            UHeapBtreeRecord::Generic(r) => UHeapBtreeRecord::Generic(r.clone()),
        }
    }
}

#[derive(Debug, PartialEq)]
pub struct UHeapBtree2GenericRecord {
    pub info: u8,
    pub buf: Bytes,
}

impl View for UHeapBtree2GenericRecord {
    type V = GenericView;

    open spec fn view(&self) -> GenericView {
        GenericView {
            info: self.info,
            buf: contents(self.buf),
        }
    }
}

impl Clone for UHeapBtree2GenericRecord {
    fn clone(&self) -> (r: Self)
        ensures
            r@ == self@,
    {
        let r = UHeapBtree2GenericRecord {
            info: self.info,
            buf: clone_bytes(&self.buf),
        };
        assert(r@ =~= self@);
        r
    }
}

#[derive(Debug, PartialEq)]
pub enum UHeapBtree2Record {
    Generic(UHeapBtree2GenericRecord),
}

pub enum UHeapBtree2View {
    Generic(GenericView),
}

impl View for UHeapBtree2Record {
    type V = UHeapBtree2View;

    open spec fn view(&self) -> UHeapBtree2View {
        match self {
            UHeapBtree2Record::Generic(r) => UHeapBtree2View::Generic(r@),
        }
    }
}

impl Clone for UHeapBtree2Record {
    fn clone(&self) -> (r: Self)
        ensures
            r@ == self@,
    {
        match self {
            UHeapBtree2Record::Generic(r) => UHeapBtree2Record::Generic(r.clone()),
        }
    }
}

#[derive(Debug, PartialEq)]
pub struct UHeapBtree3GenericRecord {
    pub info: u8,
    pub buf: Bytes,
}

impl View for UHeapBtree3GenericRecord {
    type V = GenericView;

    open spec fn view(&self) -> GenericView {
        GenericView {
            info: self.info,
            buf: contents(self.buf),
        }
    }
}

impl Clone for UHeapBtree3GenericRecord {
    fn clone(&self) -> (r: Self)
        ensures
            r@ == self@,
    {
        let r = UHeapBtree3GenericRecord {
            info: self.info,
            buf: clone_bytes(&self.buf),
        };
        assert(r@ =~= self@);
        r
    }
}

#[derive(Debug, PartialEq)]
pub enum UHeapBtree3Record {
    Generic(UHeapBtree3GenericRecord),
}

pub enum UHeapBtree3View {
    Generic(GenericView),
}

impl View for UHeapBtree3Record {
    type V = UHeapBtree3View;

    open spec fn view(&self) -> UHeapBtree3View {
        match self {
            UHeapBtree3Record::Generic(r) => UHeapBtree3View::Generic(r@),
        }
    }
}

impl Clone for UHeapBtree3Record {
    fn clone(&self) -> (r: Self)
        ensures
            r@ == self@,
    {
        match self {
            UHeapBtree3Record::Generic(r) => UHeapBtree3Record::Generic(r.clone()),
        }
    }
}

#[derive(Debug, PartialEq)]
pub struct UHeapBtree4GenericRecord {
    pub info: u8,
    pub buf: Bytes,
}

impl View for UHeapBtree4GenericRecord {
    type V = GenericView;

    open spec fn view(&self) -> GenericView {
        GenericView {
            info: self.info,
            buf: contents(self.buf),
        }
    }
}

impl Clone for UHeapBtree4GenericRecord {
    fn clone(&self) -> (r: Self)
        ensures
            r@ == self@,
    {
        let r = UHeapBtree4GenericRecord {
            info: self.info,
            buf: clone_bytes(&self.buf),
        };
        assert(r@ =~= self@);
        r
    }
}

#[derive(Debug, PartialEq)]
pub enum UHeapBtree4Record {
    Generic(UHeapBtree4GenericRecord),
}

pub enum UHeapBtree4View {
    Generic(GenericView),
}

impl View for UHeapBtree4Record {
    type V = UHeapBtree4View;

    open spec fn view(&self) -> UHeapBtree4View {
        match self {
            UHeapBtree4Record::Generic(r) => UHeapBtree4View::Generic(r@),
        }
    }
}

impl Clone for UHeapBtree4Record {
    fn clone(&self) -> (r: Self)
        ensures
            r@ == self@,
    {
        match self {
            UHeapBtree4Record::Generic(r) => UHeapBtree4Record::Generic(r.clone()),
        }
    }
}

#[derive(Debug, PartialEq)]
pub struct SegpageGenericRecord {
    pub info: u8,
    pub buf: Bytes,
}

impl View for SegpageGenericRecord {
    type V = GenericView;

    open spec fn view(&self) -> GenericView {
        GenericView {
            info: self.info,
            buf: contents(self.buf),
        }
    }
}

impl Clone for SegpageGenericRecord {
    fn clone(&self) -> (r: Self)
        ensures
            r@ == self@,
    {
        let r = SegpageGenericRecord {
            info: self.info,
            buf: clone_bytes(&self.buf),
        };
        assert(r@ =~= self@);
        r
    }
}

#[derive(Debug, PartialEq)]
pub enum SegpageRecord {
    Generic(SegpageGenericRecord),
}

pub enum SegpageView {
    Generic(GenericView),
}

impl View for SegpageRecord {
    type V = SegpageView;

    open spec fn view(&self) -> SegpageView {
        match self {
            SegpageRecord::Generic(r) => SegpageView::Generic(r@),
        }
    }
}

impl Clone for SegpageRecord {
    fn clone(&self) -> (r: Self)
        ensures
            r@ == self@,
    {
        match self {
            SegpageRecord::Generic(r) => SegpageRecord::Generic(r.clone()),
        }
    }
}

/// What a log record says beyond the pages it changes.
#[derive(Debug, PartialEq)]
pub enum MetadataRecord {
    Heapam(HeapamRecord),
    Neonrmgr(NeonrmgrRecord),
    Smgr(SmgrRecord),
    Dbase(DbaseRecord),
    Clog(ClogRecord),
    Xact(XactRecord),
    MultiXact(MultiXactRecord),
    Relmap(RelmapRecord),
    Xlog(XlogRecord),
    LogicalMessage(LogicalMessageRecord),
    Standby(StandbyRecord),
    Replorigin(ReploriginRecord),
    UHeap(UHeapRecord),
    UHeap2(UHeap2Record),
    UndoLog(UndoLogRecord),
    UHeapUndo(UHeapUndoRecord),
    UndoAction(UndoActionRecord),
    UHeapBtree(UHeapBtreeRecord),
    UHeapBtree2(UHeapBtree2Record),
    Segpage(SegpageRecord),
    UHeapBtree3(UHeapBtree3Record),
    UHeapBtree4(UHeapBtree4Record),
}

pub enum MetadataView {
    Heapam(HeapamRecord),
    Neonrmgr(NeonrmgrRecord),
    Smgr(SmgrRecord),
    Dbase(DbaseView),
    Clog(ClogRecord),
    Xact(XactView),
    MultiXact(MultiXactView),
    Relmap(RelmapView),
    Xlog(XlogView),
    LogicalMessage(LogicalMessageView),
    Standby(StandbyRecord),
    Replorigin(ReploriginRecord),
    UHeap(UHeapView),
    UHeap2(UHeap2View),
    UndoLog(UndoLogView),
    UHeapUndo(UHeapUndoView),
    UndoAction(UndoActionView),
    UHeapBtree(UHeapBtreeView),
    UHeapBtree2(UHeapBtree2View),
    Segpage(SegpageView),
    UHeapBtree3(UHeapBtree3View),
    UHeapBtree4(UHeapBtree4View),
}

impl View for MetadataRecord {
    type V = MetadataView;

    open spec fn view(&self) -> MetadataView {
        match self {
            MetadataRecord::Heapam(r) => MetadataView::Heapam(*r),
            MetadataRecord::Neonrmgr(r) => MetadataView::Neonrmgr(*r),
            MetadataRecord::Smgr(r) => MetadataView::Smgr(*r),
            MetadataRecord::Dbase(r) => MetadataView::Dbase(r@),
            MetadataRecord::Clog(r) => MetadataView::Clog(*r),
            MetadataRecord::Xact(r) => MetadataView::Xact(r@),
            MetadataRecord::MultiXact(r) => MetadataView::MultiXact(r@),
            MetadataRecord::Relmap(r) => MetadataView::Relmap(r@),
            MetadataRecord::Xlog(r) => MetadataView::Xlog(r@),
            MetadataRecord::LogicalMessage(r) => MetadataView::LogicalMessage(r@),
            MetadataRecord::Standby(r) => MetadataView::Standby(*r),
            MetadataRecord::Replorigin(r) => MetadataView::Replorigin(*r),
            MetadataRecord::UHeap(r) => MetadataView::UHeap(r@),
            MetadataRecord::UHeap2(r) => MetadataView::UHeap2(r@),
            MetadataRecord::UndoLog(r) => MetadataView::UndoLog(r@),
            MetadataRecord::UHeapUndo(r) => MetadataView::UHeapUndo(r@),
            MetadataRecord::UndoAction(r) => MetadataView::UndoAction(r@),
            MetadataRecord::UHeapBtree(r) => MetadataView::UHeapBtree(r@),
            MetadataRecord::UHeapBtree2(r) => MetadataView::UHeapBtree2(r@),
            MetadataRecord::Segpage(r) => MetadataView::Segpage(r@),
            MetadataRecord::UHeapBtree3(r) => MetadataView::UHeapBtree3(r@),
            MetadataRecord::UHeapBtree4(r) => MetadataView::UHeapBtree4(r@),
        }
    }
}

impl Clone for MetadataRecord {
    fn clone(&self) -> (r: Self)
        ensures
            r@ == self@,
    {
        match self {
            MetadataRecord::Heapam(r) => MetadataRecord::Heapam(*r),
            MetadataRecord::Neonrmgr(r) => MetadataRecord::Neonrmgr(*r),
            MetadataRecord::Smgr(r) => MetadataRecord::Smgr(*r),
            MetadataRecord::Dbase(r) => MetadataRecord::Dbase(r.clone()),
            MetadataRecord::Clog(r) => MetadataRecord::Clog(*r),
            MetadataRecord::Xact(r) => MetadataRecord::Xact(r.clone()),
            MetadataRecord::MultiXact(r) => MetadataRecord::MultiXact(r.clone()),
            MetadataRecord::Relmap(r) => MetadataRecord::Relmap(r.clone()),
            MetadataRecord::Xlog(r) => MetadataRecord::Xlog(r.clone()),
            MetadataRecord::LogicalMessage(r) => MetadataRecord::LogicalMessage(r.clone()),
            MetadataRecord::Standby(r) => MetadataRecord::Standby(*r),
            MetadataRecord::Replorigin(r) => MetadataRecord::Replorigin(*r),
            MetadataRecord::UHeap(r) => MetadataRecord::UHeap(r.clone()),
            MetadataRecord::UHeap2(r) => MetadataRecord::UHeap2(r.clone()),
            MetadataRecord::UndoLog(r) => MetadataRecord::UndoLog(r.clone()),
            MetadataRecord::UHeapUndo(r) => MetadataRecord::UHeapUndo(r.clone()),
            MetadataRecord::UndoAction(r) => MetadataRecord::UndoAction(r.clone()),
            MetadataRecord::UHeapBtree(r) => MetadataRecord::UHeapBtree(r.clone()),
            MetadataRecord::UHeapBtree2(r) => MetadataRecord::UHeapBtree2(r.clone()),
            MetadataRecord::Segpage(r) => MetadataRecord::Segpage(r.clone()),
            MetadataRecord::UHeapBtree3(r) => MetadataRecord::UHeapBtree3(r.clone()),
            MetadataRecord::UHeapBtree4(r) => MetadataRecord::UHeapBtree4(r.clone()),
        }
    }
}

/// The view of an optional metadata record.
pub open spec fn opt_view(m: Option<MetadataRecord>) -> Option<MetadataView> {
    match m {
        Some(m) => Some(m@),
        None => None,
    }
}

/// The view of a decoder's answer.
pub open spec fn res_view(
    res: Result<Option<MetadataRecord>, DecodeError>,
) -> Result<Option<MetadataView>, DecodeError> {
    match res {
        Ok(m) => Ok(opt_view(m)),
        Err(e) => Err(e),
    }
}

} // verus!
