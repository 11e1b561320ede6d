//! The fixed part at the front of a record's main data.

use crate::bytebuf::{advance, contents, remaining};
use crate::types::{XlBody, XlKind, XlRecord};
use bytes::Bytes;
use vstd::prelude::*;

verus! {

/// Whether `body` is the structure that `kind` names.
pub open spec fn is_of_kind(body: XlBody, kind: XlKind) -> bool {
    match kind {
        XlKind::HeapInsert | XlKind::NeonHeapInsert => body is HeapInsert,
        XlKind::HeapDelete | XlKind::NeonHeapDelete => body is HeapDelete,
        XlKind::HeapUpdate | XlKind::NeonHeapUpdate => body is HeapUpdate,
        XlKind::HeapLock | XlKind::NeonHeapLock => body is HeapLock,
        XlKind::HeapMultiInsert | XlKind::NeonHeapMultiInsert => body is HeapMultiInsert,
        XlKind::HeapLockUpdated => body is HeapLockUpdated,
        XlKind::SmgrCreate => body is SmgrCreate,
        XlKind::SmgrTruncate => body is SmgrTruncate,
        XlKind::CreateDatabase => body is CreateDatabase,
        XlKind::DropDatabase => body is DropDatabase,
        XlKind::ClogTruncate => body is ClogTruncate,
        XlKind::XactParsed => body is XactParsed,
        XlKind::MultiXactCreate => body is MultiXactCreate,
        XlKind::MultiXactTruncate => body is MultiXactTruncate,
        XlKind::RelmapUpdate => body is RelmapUpdate,
        XlKind::LogicalMessage => body is LogicalMessage,
        XlKind::RunningXacts => body is RunningXacts,
        XlKind::ReploriginSet => body is ReploriginSet,
        XlKind::ReploriginDrop => body is ReploriginDrop,
    }
}

/// Tells whether `body` is the structure that `kind` names.
fn body_is_of_kind(body: &XlBody, kind: XlKind) -> (yes: bool)
    ensures
        yes == is_of_kind(*body, kind),
{
    match (kind, body) {
        (XlKind::HeapInsert, XlBody::HeapInsert(_)) => true,
        (XlKind::NeonHeapInsert, XlBody::HeapInsert(_)) => true,
        (XlKind::HeapDelete, XlBody::HeapDelete(_)) => true,
        (XlKind::NeonHeapDelete, XlBody::HeapDelete(_)) => true,
        (XlKind::HeapUpdate, XlBody::HeapUpdate(_)) => true,
        (XlKind::NeonHeapUpdate, XlBody::HeapUpdate(_)) => true,
        (XlKind::HeapLock, XlBody::HeapLock(_)) => true,
        (XlKind::NeonHeapLock, XlBody::HeapLock(_)) => true,
        (XlKind::HeapMultiInsert, XlBody::HeapMultiInsert(_)) => true,
        (XlKind::NeonHeapMultiInsert, XlBody::HeapMultiInsert(_)) => true,
        (XlKind::HeapLockUpdated, XlBody::HeapLockUpdated(_)) => true,
        (XlKind::SmgrCreate, XlBody::SmgrCreate(_)) => true,
        (XlKind::SmgrTruncate, XlBody::SmgrTruncate(_)) => true,
        (XlKind::CreateDatabase, XlBody::CreateDatabase(_)) => true,
        (XlKind::DropDatabase, XlBody::DropDatabase(_)) => true,
        (XlKind::ClogTruncate, XlBody::ClogTruncate(_)) => true,
        (XlKind::XactParsed, XlBody::XactParsed(_)) => true,
        (XlKind::MultiXactCreate, XlBody::MultiXactCreate(_)) => true,
        (XlKind::MultiXactTruncate, XlBody::MultiXactTruncate(_)) => true,
        (XlKind::RelmapUpdate, XlBody::RelmapUpdate(_)) => true,
        (XlKind::LogicalMessage, XlBody::LogicalMessage(_)) => true,
        (XlKind::RunningXacts, XlBody::RunningXacts(_)) => true,
        (XlKind::ReploriginSet, XlBody::ReploriginSet(_)) => true,
        (XlKind::ReploriginDrop, XlBody::ReploriginDrop(_)) => true,
        _ => false,
    }
}

/// Whether main data `main` starts with the fixed part `xl`, of the kind that
/// is asked for. Where none is asked for, any main data will do.
pub open spec fn starts_with(main: Seq<u8>, kind: Option<XlKind>, xl: Option<XlRecord>) -> bool {
    kind matches Some(k) ==> {
        &&& xl is Some
        &&& is_of_kind(xl->0.body, k)
        &&& xl->0.len <= main.len()
    }
}

/// Tells whether [`starts_with`] holds of the main data in `buf`.
pub(crate) fn check_starts_with(
    buf: &Bytes,
    kind: Option<XlKind>,
    xl: &Option<XlRecord>,
) -> (ok: bool)
    ensures
        ok == starts_with(contents(*buf), kind, *xl),
{
    match kind {
        None => true,
        Some(k) => match xl {
            None => false,
            Some(xl) => body_is_of_kind(&xl.body, k) && xl.len <= remaining(buf),
        },
    }
}

/// What follows the fixed part in main data `main`.
pub open spec fn after_xl(main: Seq<u8>, kind: Option<XlKind>, xl: Option<XlRecord>) -> Seq<u8> {
    if kind is Some {
        main.skip(xl->0.len as int)
    } else {
        main
    }
}

/// Takes the fixed part off the front of the main data.
pub(crate) fn take_xl(buf: &mut Bytes, xl: Option<XlRecord>) -> (body: XlBody)
    requires
        xl is Some,
        xl->0.len <= contents(*old(buf)).len(),
    ensures
        body == xl->0.body,
        contents(*final(buf)) == contents(*old(buf)).skip(xl->0.len as int),
{
    let xl = xl.unwrap();
    advance(buf, xl.len);
    xl.body
}

} // verus!
