//! Logical messages, and the records of the log itself, which are handed on as
//! they are.

use crate::bytebuf::{as_slice, clone_bytes, contents, copy_from_slice};
use crate::constants::{XLOG_LOGICAL_MESSAGE, XLR_RMGR_INFO_MASK};
use crate::error::DecodeError;
use crate::payload::{after_xl, check_starts_with, starts_with, take_xl};
use crate::records::{
    res_view, LogicalMessageRecord, LogicalMessageView, MetadataRecord, MetadataView,
    PutLogicalMessage, PutLogicalMessageView, RawXlogRecord, RawXlogView, XlogRecord, XlogView,
};
use crate::types::{DecodedWALRecord, Lsn, XlBody, XlKind, XlLogicalMessage, XlRecord};
use bytes::Bytes;
use core::str::Utf8Error;
use vstd::pervasive::unreached;
use vstd::prelude::*;
use vstd::slice::slice_subrange;
use vstd::utf8::{decode_utf8, encode_utf8, encode_utf8_decode_utf8, valid_utf8};

verus! {

/// `core::str::Utf8Error`, where in some bytes they stop being UTF-8.
#[verifier::external_type_specification]
#[verifier::external_body]
pub struct ExUtf8Error(Utf8Error);

/// What `core::str::from_utf8` says of bytes that are no UTF-8 text: where they
/// stop being one, and how.
pub uninterp spec fn utf8_error(bytes: Seq<u8>) -> Utf8Error;

/// `core::str::from_utf8`: the text whose UTF-8 encoding the bytes are, and an
/// error exactly on bytes that encode none. The error depends on the bytes
/// alone.
pub assume_specification[ core::str::from_utf8 ](v: &[u8]) -> (res: Result<&str, Utf8Error>)
    ensures
        res is Ok <==> valid_utf8(v@),
        res is Ok ==> encode_utf8(res->Ok_0@) == v@,
        res is Err ==> res->Err_0 == utf8_error(v@),
;

/// `str::strip_prefix` with a text as the pattern: what follows the prefix, and
/// nothing where the text does not start with it.
#[verifier::external_body]
fn strip_prefix<'a>(s: &'a str, prefix: &str) -> (rest: Option<&'a str>)
    ensures
        rest is Some <==> prefix@.is_prefix_of(s@),
        rest is Some ==> rest->0@ == s@.skip(prefix@.len() as int),
{
    s.strip_prefix(prefix)
}

/// The metadata record that a record of the log itself stands for: its info
/// bits, the position it ends at, and its main data.
pub open spec fn xlog_metadata(main: Seq<u8>, xl_info: u8, lsn: Lsn) -> Option<MetadataView> {
    Some(
        MetadataView::Xlog(
            XlogView::Raw(RawXlogView { info: xl_info & XLR_RMGR_INFO_MASK, lsn, buf: main }),
        ),
    )
}

/// The fixed part that a logical message starts with.
pub open spec fn message_kind(xl_info: u8) -> Option<XlKind> {
    if xl_info & XLR_RMGR_INFO_MASK == XLOG_LOGICAL_MESSAGE {
        Some(XlKind::LogicalMessage)
    } else {
        None
    }
}

/// The bytes of a message's prefix, without the zero byte that ends it.
pub open spec fn prefix_bytes(m: XlLogicalMessage, rest: Seq<u8>) -> Seq<u8> {
    rest.take(m.prefix_size - 1)
}

/// The bytes of a message itself, which follow the prefix.
pub open spec fn message_bytes(m: XlLogicalMessage, rest: Seq<u8>) -> Seq<u8> {
    rest.subrange(m.prefix_size as int, m.prefix_size + m.message_size)
}

/// Whether a prefix names a file.
pub open spec fn names_file(prefix: Seq<char>) -> bool {
    "neon-file:"@.is_prefix_of(prefix)
}

/// The path that a prefix names.
pub open spec fn path_of(prefix: Seq<char>) -> Seq<char> {
    prefix.skip("neon-file:"@.len() as int)
}

/// The metadata record that a message with text `prefix` stands for. A file to
/// be stored is one; so is a failpoint, but only in tests.
pub open spec fn prefixed_message_metadata(
    prefix: Seq<char>,
    message: Seq<u8>,
    testing: bool,
) -> Option<MetadataView> {
    if testing && prefix == "neon-test"@ {
        Some(MetadataView::LogicalMessage(LogicalMessageView::Failpoint))
    } else if names_file(prefix) {
        Some(
            MetadataView::LogicalMessage(
                LogicalMessageView::Put(
                    PutLogicalMessageView { path: path_of(prefix), buf: message },
                ),
            ),
        )
    } else {
        None
    }
}

/// The metadata record that a logical message record stands for.
pub open spec fn message_metadata(
    main: Seq<u8>,
    xl_info: u8,
    xl: Option<XlRecord>,
    testing: bool,
) -> Result<Option<MetadataView>, DecodeError> {
    if message_kind(xl_info) is None {
        Ok(None)
    } else {
        let m = xl->0.body->LogicalMessage_0;
        let rest = after_xl(main, message_kind(xl_info), xl);
        if valid_utf8(prefix_bytes(m, rest)) {
            Ok(
                prefixed_message_metadata(
                    decode_utf8(prefix_bytes(m, rest)),
                    message_bytes(m, rest),
                    testing,
                ),
            )
        } else {
            Err(DecodeError::MessagePrefixNotUtf8(utf8_error(prefix_bytes(m, rest))))
        }
    }
}

/// Whether what follows the fixed part holds the prefix and, where the prefix
/// names a file, the message.
pub open spec fn message_rest_ok(m: XlLogicalMessage, rest: Seq<u8>) -> bool {
    let prefix = prefix_bytes(m, rest);
    &&& 1 <= m.prefix_size <= rest.len() + 1
    &&& valid_utf8(prefix) && names_file(decode_utf8(prefix)) ==> m.prefix_size + m.message_size
        <= rest.len()
}

/// Whether main data `main` holds a logical message record.
pub open spec fn message_ok(main: Seq<u8>, xl_info: u8, xl: Option<XlRecord>) -> bool {
    &&& starts_with(main, message_kind(xl_info), xl)
    &&& message_kind(xl_info) is Some ==> message_rest_ok(
        xl->0.body->LogicalMessage_0,
        after_xl(main, message_kind(xl_info), xl),
    )
}

/// Finds [`message_kind`].
pub(crate) fn message_xl_kind(xl_info: u8) -> (kind: Option<XlKind>)
    ensures
        kind == message_kind(xl_info),
{
    if xl_info & XLR_RMGR_INFO_MASK == XLOG_LOGICAL_MESSAGE {
        Some(XlKind::LogicalMessage)
    } else {
        None
    }
}

/// Reads bytes as text.
fn text_of(bytes: &[u8]) -> (text: Result<&str, DecodeError>)
    ensures
        text is Ok <==> valid_utf8(bytes@),
        text is Ok ==> text->Ok_0@ == decode_utf8(bytes@),
        text is Err ==> text->Err_0 == DecodeError::MessagePrefixNotUtf8(utf8_error(bytes@)),
{
    match core::str::from_utf8(bytes) {
        Ok(text) => {
            proof {
                encode_utf8_decode_utf8(text@);
            }
            Ok(text)
        },
        Err(e) => Err(DecodeError::MessagePrefixNotUtf8(e)),
    }
}

/// Tells whether [`message_ok`] holds of the main data in `buf`.
pub(crate) fn check_message(buf: &Bytes, xl_info: u8, xl: &Option<XlRecord>) -> (ok: bool)
    ensures
        ok == message_ok(contents(*buf), xl_info, *xl),
{
    let kind = message_xl_kind(xl_info);
    if !check_starts_with(buf, kind, xl) {
        return false;
    }
    if kind.is_none() {
        return true;
    }
    match xl {
        Some(XlRecord { body: XlBody::LogicalMessage(m), len }) => {
            let main = as_slice(buf);
            let rest = slice_subrange(main, *len, main.len());
            assert(rest@ =~= contents(*buf).skip(*len as int));
            if m.prefix_size == 0 || m.prefix_size - 1 > rest.len() {
                return false;
            }
            let prefix = slice_subrange(rest, 0, m.prefix_size - 1);
            assert(prefix@ =~= prefix_bytes(*m, rest@));
            match text_of(prefix) {
                Ok(text) => match strip_prefix(text, "neon-file:") {
                    Some(_) => m.prefix_size <= rest.len() && m.message_size <= rest.len()
                        - m.prefix_size,
                    None => true,
                },
                Err(_) => true,
            }
        },
        _ => unreached(),
    }
}

impl MetadataRecord {
    /// Hands on a record of the log itself, which ends at `lsn`.
    pub fn decode_xlog_record(buf: &mut Bytes, decoded: &DecodedWALRecord, lsn: Lsn) -> (res:
        Result<Option<MetadataRecord>, DecodeError>)
        ensures
            res_view(res) == Ok::<Option<MetadataView>, DecodeError>(
                xlog_metadata(contents(*old(buf)), decoded.xl_info, lsn),
            ),
            contents(*final(buf)) == contents(*old(buf)),
    {
        let info = decoded.xl_info & XLR_RMGR_INFO_MASK;
        let buf = clone_bytes(buf);
        Ok(Some(MetadataRecord::Xlog(XlogRecord::Raw(RawXlogRecord { info, lsn, buf }))))
    }

    /// Decodes a logical message. Failpoints are recognised in tests only.
    pub fn decode_logical_message_record(
        buf: &mut Bytes,
        decoded: &DecodedWALRecord,
        xl: Option<XlRecord>,
        testing: bool,
    ) -> (res: Result<Option<MetadataRecord>, DecodeError>)
        requires
            message_ok(contents(*old(buf)), decoded.xl_info, xl),
        ensures
            res_view(res) == message_metadata(contents(*old(buf)), decoded.xl_info, xl, testing),
            contents(*final(buf)) == after_xl(
                contents(*old(buf)),
                message_kind(decoded.xl_info),
                xl,
            ),
    {
        if message_xl_kind(decoded.xl_info).is_none() {
            return Ok(None);
        }
        let body = take_xl(buf, xl);
        let ghost rest = contents(*buf);
        match body {
            XlBody::LogicalMessage(m) => {
                let data = as_slice(buf);
                let bytes = slice_subrange(data, 0, m.prefix_size - 1);
                assert(bytes@ =~= prefix_bytes(m, rest));
                let prefix = match text_of(bytes) {
                    Ok(prefix) => prefix,
                    Err(e) => {
                        return Err(e);
                    },
                };
                if testing {
                    match strip_prefix(prefix, "neon-test") {
                        Some(more) => {
                            if more.is_empty() {
                                assert(prefix@ =~= "neon-test"@);
                                return Ok(
                                    Some(
                                        MetadataRecord::LogicalMessage(
                                            LogicalMessageRecord::Failpoint,
                                        ),
                                    ),
                                );
                            }
                        },
                        None => {},
                    }
                }
                match strip_prefix(prefix, "neon-file:") {
                    Some(path) => {
                        assert(data@.len() == data.len());
                        let end: usize = m.prefix_size + m.message_size;
                        let buf = copy_from_slice(slice_subrange(data, m.prefix_size, end));
                        Ok(
                            Some(
                                MetadataRecord::LogicalMessage(
                                    LogicalMessageRecord::Put(
                                        PutLogicalMessage { path: path.to_owned(), buf },
                                    ),
                                ),
                            ),
                        )
                    },
                    None => Ok(None),
                }
            },
            _ => unreached(),
        }
    }
}

} // verus!
