//! Why a record cannot be decoded.

use crate::types::PgMajorVersion;
use core::str::Utf8Error;
use vstd::prelude::*;

verus! {

/// Why a record cannot be decoded.
#[derive(Clone, Copy, Debug, PartialEq, Eq)]
pub enum DecodeError {
    /// A heap record of a resource manager that is none of the heap's.
    UnknownHeapRmgr(u8),
    /// A record type that the Neon resource manager does not have.
    UnknownNeonRecord(u8),
    /// The Neon resource manager does not exist in this version.
    NeonRmgrUnsupported(PgMajorVersion),
    /// The prefix of a logical message is no UTF-8 text, for the reason given.
    MessagePrefixNotUtf8(Utf8Error),
    UHeapInsertTooShort,
    UHeapDeleteTooShort,
    UHeapUpdateTooShort,
    UHeapFreezeTdSlotTooShort,
    UHeapCleanTooShort,
    UHeapMultiInsertTooShort,
    UHeapMultiInsertTupleTooShort,
    UHeapMultiInsertTupleLengthMismatch,
    UHeap2BaseShiftTooShort,
    UHeap2FreezeTooShort,
    UHeap2ExtendTdSlotsTooShort,
    UHeapUndoResetSlotTooShort,
    UHeapUndoAbortSpecInsertTooShort,
}

} // verus!
