//! Logical messages, by the text of their prefix, and records of the log itself.

use crate::bytebuf::contents;
use crate::decode::{complete, needed_kind};
use crate::error::DecodeError;
use crate::laws::calls::{data_len, Decoding};
use crate::laws::heap::is_nothing;
use crate::laws::numbers::{lemma_info_bits, upper4};
use crate::message::{names_file, path_of, prefix_bytes, utf8_error};
use crate::records::{LogicalMessageRecord, MetadataRecord, XlogRecord};
use crate::types::{DecodedWALRecord, PgMajorVersion, WalFormat, XlBody, XlKind, XlRecord};
use vstd::prelude::*;
use vstd::utf8::{
    decode_utf8, decode_utf8_encode_utf8, encode_utf8, encode_utf8_decode_utf8,
    encode_utf8_valid_utf8, valid_utf8,
};

verus! {

/// What a prefix that names a file starts with.
pub open spec fn scheme() -> Seq<char> {
    seq!['n', 'e', 'o', 'n', '-', 'f', 'i', 'l', 'e', ':']
}

/// The prefix of a failpoint.
pub open spec fn failpoint_prefix() -> Seq<char> {
    seq!['n', 'e', 'o', 'n', '-', 't', 'e', 's', 't']
}

proof fn lemma_literals()
    ensures
        "neon-file:"@ == scheme(),
        "neon-test"@ == failpoint_prefix(),
{
    reveal_strlit("neon-file:");
    reveal_strlit("neon-test");
    assert("neon-file:"@ =~= scheme());
    assert("neon-test"@ =~= failpoint_prefix());
}

/// Whether a record is a logical message with these sizes of prefix and message,
/// and its prefix, but for the last byte, the bytes `prefix`.
pub open spec fn is_message(
    c: Decoding,
    prefix_size: usize,
    message_size: usize,
    prefix: Seq<u8>,
) -> bool {
    &&& c.rmid() == 21
    &&& upper4(c.info()) == 0
    &&& c.xl is Some
    &&& c.xl->0.body matches XlBody::LogicalMessage(m)
    &&& m.prefix_size == prefix_size
    &&& m.message_size == message_size
    &&& complete(c.decoded, c.pg_version, c.wal_format, c.xl)
    &&& prefix == c.data().skip(c.xl->0.len as int).subrange(0, prefix_size - 1)
}

/// A message whose prefix is the text `neon-file:` and a path is a file to be
/// stored: under that path, the bytes that follow the prefix.
pub proof fn law_file_messages(
    c: Decoding,
    prefix_size: usize,
    message_size: usize,
    path: Seq<char>,
)
    requires
        c.holds(),
        is_message(c, prefix_size, message_size, encode_utf8(scheme() + path)),
    ensures
        ({
            &&& c.res matches Ok(
                Some(MetadataRecord::LogicalMessage(LogicalMessageRecord::Put(r))),
            )
            &&& r.path@ == path
            &&& contents(r.buf).len() == message_size
            &&& forall|i: int|
                0 <= i < message_size ==> #[trigger] contents(r.buf)[i] == c.data()[c.xl->0.len
                    + prefix_size + i]
        }),
{
    lemma_info_bits(c.info());
    lemma_literals();
    let text = scheme() + path;
    encode_utf8_valid_utf8(text);
    encode_utf8_decode_utf8(text);
    let m = c.xl->0.body->LogicalMessage_0;
    let rest = c.data().skip(c.xl->0.len as int);
    assert(prefix_bytes(m, rest) =~= encode_utf8(text));
    assert(scheme().is_prefix_of(text)) by {
        assert(text.subrange(0, scheme().len() as int) =~= scheme());
    }
    assert(names_file(text));
    assert(path_of(text) =~= path);
    assert(text != failpoint_prefix()) by {
        assert(text[5] == 'f');
        assert(failpoint_prefix()[5] == 't');
    }
}

/// A message whose prefix is the text `neon-test` is a failpoint in tests, and
/// nothing outside them.
pub proof fn law_failpoint_messages(c: Decoding, prefix_size: usize, message_size: usize)
    requires
        c.holds(),
        is_message(c, prefix_size, message_size, encode_utf8(failpoint_prefix())),
    ensures
        c.testing ==> c.res == Ok::<Option<MetadataRecord>, DecodeError>(
            Some(MetadataRecord::LogicalMessage(LogicalMessageRecord::Failpoint)),
        ),
        !c.testing ==> is_nothing(c),
{
    lemma_info_bits(c.info());
    lemma_literals();
    let text = failpoint_prefix();
    encode_utf8_valid_utf8(text);
    encode_utf8_decode_utf8(text);
    let m = c.xl->0.body->LogicalMessage_0;
    let rest = c.data().skip(c.xl->0.len as int);
    assert(prefix_bytes(m, rest) =~= encode_utf8(text));
    assert(!names_file(text));
}

/// A message whose prefix is any other text is nothing.
pub proof fn law_other_messages_are_nothing(
    c: Decoding,
    prefix_size: usize,
    message_size: usize,
    text: Seq<char>,
)
    requires
        c.holds(),
        is_message(c, prefix_size, message_size, encode_utf8(text)),
        text != failpoint_prefix(),
        forall|path: Seq<char>| text != #[trigger] (scheme() + path),
    ensures
        is_nothing(c),
{
    lemma_info_bits(c.info());
    lemma_literals();
    encode_utf8_valid_utf8(text);
    encode_utf8_decode_utf8(text);
    let m = c.xl->0.body->LogicalMessage_0;
    let rest = c.data().skip(c.xl->0.len as int);
    assert(prefix_bytes(m, rest) =~= encode_utf8(text));
    if names_file(text) {
        assert(text =~= scheme() + text.skip(scheme().len() as int));
    }
}

/// A message whose prefix is the encoding of no text is refused, with what is
/// wrong with the prefix.
pub proof fn law_message_prefix_not_text(
    c: Decoding,
    prefix_size: usize,
    message_size: usize,
    prefix: Seq<u8>,
)
    requires
        c.holds(),
        is_message(c, prefix_size, message_size, prefix),
        forall|text: Seq<char>| #[trigger] encode_utf8(text) != prefix,
    ensures
        c.res == Err::<Option<MetadataRecord>, DecodeError>(
            DecodeError::MessagePrefixNotUtf8(utf8_error(prefix)),
        ),
{
    lemma_info_bits(c.info());
    if valid_utf8(prefix) {
        decode_utf8_encode_utf8(prefix);
        assert(encode_utf8(decode_utf8(prefix)) == prefix);
    }
    let m = c.xl->0.body->LogicalMessage_0;
    let rest = c.data().skip(c.xl->0.len as int);
    assert(prefix_bytes(m, rest) =~= prefix);
}

/// Logical message records of other types are nothing, and ask for no structure.
pub proof fn law_other_message_types_are_nothing(c: Decoding)
    requires
        c.holds(),
        c.rmid() == 21,
    ensures
        upper4(c.info()) != 0 ==> is_nothing(c),
        upper4(c.info()) != 0 <==> needed_kind(c.decoded, c.pg_version, c.wal_format) is None,
        upper4(c.info()) == 0 ==> needed_kind(c.decoded, c.pg_version, c.wal_format) == Some(
            XlKind::LogicalMessage,
        ),
{
    lemma_info_bits(c.info());
}

/// A logical message can be read exactly where its structure is there and its
/// prefix, but for the last byte, follows; and, where the prefix names a file,
/// where the whole message is there.
pub proof fn law_message_complete(
    decoded: DecodedWALRecord,
    pg_version: PgMajorVersion,
    wal_format: WalFormat,
    xl: Option<XlRecord>,
)
    requires
        decoded.xl_rmid == 21,
    ensures
        upper4(decoded.xl_info) != 0 ==> (complete(decoded, pg_version, wal_format, xl)
            <==> data_len(decoded) >= 0),
        upper4(decoded.xl_info) == 0 && complete(decoded, pg_version, wal_format, xl) ==> {
            &&& xl is Some
            &&& xl->0.body matches XlBody::LogicalMessage(m)
            &&& m.prefix_size >= 1
            &&& xl->0.len + m.prefix_size - 1 <= data_len(decoded)
        },
        upper4(decoded.xl_info) == 0 && xl is Some ==> (
        xl->0.body matches XlBody::LogicalMessage(m) ==> (m.prefix_size >= 1 && xl->0.len
            + m.prefix_size + m.message_size <= data_len(decoded) ==> complete(
            decoded,
            pg_version,
            wal_format,
            xl,
        ))),
{
    lemma_info_bits(decoded.xl_info);
}

/// Where the prefix of a message is there, the message has to be there exactly
/// where the prefix names a file.
pub proof fn law_message_needed_for_files_only(
    decoded: DecodedWALRecord,
    pg_version: PgMajorVersion,
    wal_format: WalFormat,
    xl: XlRecord,
    prefix_size: usize,
    message_size: usize,
    prefix: Seq<u8>,
)
    requires
        decoded.xl_rmid == 21,
        upper4(decoded.xl_info) == 0,
        xl.body matches XlBody::LogicalMessage(m) && m.prefix_size == prefix_size
            && m.message_size == message_size,
        prefix_size >= 1,
        xl.len + prefix_size - 1 <= data_len(decoded),
        prefix == contents(decoded.record).skip(decoded.main_data_offset as int).skip(
            xl.len as int,
        ).subrange(0, prefix_size - 1),
    ensures
        complete(decoded, pg_version, wal_format, Some(xl)) <==> ((exists|path: Seq<char>|
            prefix == #[trigger] encode_utf8(scheme() + path)) ==> xl.len + prefix_size
            + message_size <= data_len(decoded)),
{
    lemma_info_bits(decoded.xl_info);
    lemma_literals();
    let main = contents(decoded.record).skip(decoded.main_data_offset as int);
    let rest = main.skip(xl.len as int);
    assert(prefix_bytes(xl.body->LogicalMessage_0, rest) =~= prefix);
    if valid_utf8(prefix) && names_file(decode_utf8(prefix)) {
        let text = decode_utf8(prefix);
        decode_utf8_encode_utf8(prefix);
        let path = text.skip(scheme().len() as int);
        assert(text =~= scheme() + path);
        assert(prefix == encode_utf8(scheme() + path));
    }
    if exists|path: Seq<char>| prefix == #[trigger] encode_utf8(scheme() + path) {
        let path = choose|path: Seq<char>| prefix == #[trigger] encode_utf8(scheme() + path);
        let text = scheme() + path;
        encode_utf8_valid_utf8(text);
        encode_utf8_decode_utf8(text);
        assert(text.subrange(0, scheme().len() as int) =~= scheme());
        assert(names_file(text));
    }
}

/// A record of the log itself is handed on: its type in its place in the info
/// byte, where it ends, and its main data.
pub proof fn law_log_records(c: Decoding)
    requires
        c.holds(),
        c.rmid() == 0,
    ensures
        ({
            &&& c.res matches Ok(Some(MetadataRecord::Xlog(XlogRecord::Raw(r))))
            &&& r.info == 16 * upper4(c.info())
            &&& r.lsn == c.next_record_lsn
            &&& contents(r.buf) == c.data()
        }),
{
    lemma_info_bits(c.info());
}

} // verus!
