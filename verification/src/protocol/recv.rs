//! Decoding what a producer sends.
//!
//! A bulk stream is one version byte and then records. A record is a tag byte,
//! a length of four bytes, most significant first, and that many bytes. A
//! record tagged `M` names the representation that is being assembled; a
//! record tagged `C` holds its content and completes it.

use super::source_data::{SourceDataItem, SourceItemView};
use std::rc::Rc;
use vstd::prelude::*;
use vstd::slice::*;
use vstd::string::*;
use vstd::utf8::*;

verus! {

/// The version of the bulk format.
pub const PROTOCOL_VER: u8 = 0;

/// The tag of a record that holds a type name.
pub const TAG_MIME: u8 = 0x4d;

/// The tag of a record that holds content.
pub const TAG_CONTENT: u8 = 0x43;

/// Why a bulk stream was refused.
#[derive(Debug, Clone, Copy, PartialEq, Eq)]
pub enum DecodeError {
    /// The first byte is not `PROTOCOL_VER`.
    UnsupportedVersion,
    /// The stream ends before its version byte, inside a length, or before
    /// the end of a record's bytes.
    Truncated,
    /// A record starts with a byte that is no tag.
    BadTag,
    /// The bytes of a type name are not UTF-8.
    BadTypeName,
}

/// The number that four bytes hold, most significant first.
pub open spec fn be32(b: Seq<u8>) -> int
    recommends
        b.len() == 4,
{
    b[0] * 0x100_0000 + b[1] * 0x1_0000 + b[2] * 0x100 + b[3]
}

/// The four bytes that hold `n`, most significant first.
pub open spec fn be32_bytes(n: int) -> Seq<u8>
    recommends
        0 <= n < 0x1_0000_0000,
{
    seq![
        (n / 0x100_0000) as u8,
        ((n / 0x1_0000) % 0x100) as u8,
        ((n / 0x100) % 0x100) as u8,
        (n % 0x100) as u8,
    ]
}

/// What the records in `rest` decode to, after the names in `pending` were
/// read for the next item and the items in `done` were completed.
pub open spec fn decode_records(
    rest: Seq<u8>,
    pending: Seq<Seq<char>>,
    done: Seq<SourceItemView>,
) -> Result<Seq<SourceItemView>, DecodeError>
    decreases rest.len(),
{
    if rest.len() == 0 {
        Ok(done)
    } else if rest[0] != TAG_MIME && rest[0] != TAG_CONTENT {
        Err(DecodeError::BadTag)
    } else if rest.len() < 5 {
        Err(DecodeError::Truncated)
    } else {
        let len = be32(rest.subrange(1, 5));
        if rest.len() < 5 + len {
            Err(DecodeError::Truncated)
        } else {
            let body = rest.subrange(5, 5 + len);
            let next = rest.skip(5 + len);
            if rest[0] == TAG_CONTENT {
                decode_records(
                    next,
                    Seq::empty(),
                    done.push(SourceItemView { mime_type: pending, content: body }),
                )
            } else if valid_utf8(body) {
                decode_records(next, pending.push(decode_utf8(body)), done)
            } else {
                Err(DecodeError::BadTypeName)
            }
        }
    }
}

/// What a bulk stream decodes to.
pub open spec fn decode_bulk(input: Seq<u8>) -> Result<Seq<SourceItemView>, DecodeError> {
    if input.len() == 0 {
        Err(DecodeError::Truncated)
    } else if input[0] != PROTOCOL_VER {
        Err(DecodeError::UnsupportedVersion)
    } else {
        decode_records(input.skip(1), Seq::empty(), Seq::empty())
    }
}

/// One record of the bulk format.
pub open spec fn encode_record(tag: u8, body: Seq<u8>) -> Seq<u8> {
    seq![tag] + be32_bytes(body.len() as int) + body
}

/// One `M` record for each name.
pub open spec fn encode_names(names: Seq<Seq<char>>) -> Seq<u8>
    decreases names.len(),
{
    if names.len() == 0 {
        Seq::empty()
    } else {
        encode_record(TAG_MIME, encode_utf8(names[0])) + encode_names(names.drop_first())
    }
}

/// The records of one item: its names, then its content.
pub open spec fn encode_item(item: SourceItemView) -> Seq<u8> {
    encode_names(item.mime_type) + encode_record(TAG_CONTENT, item.content)
}

/// The records of the items, one item after the other.
pub open spec fn encode_items(items: Seq<SourceItemView>) -> Seq<u8>
    decreases items.len(),
{
    if items.len() == 0 {
        Seq::empty()
    } else {
        encode_item(items[0]) + encode_items(items.drop_first())
    }
}

/// The bulk stream of a payload.
pub open spec fn encode_bulk(items: Seq<SourceItemView>) -> Seq<u8> {
    seq![PROTOCOL_VER] + encode_items(items)
}

/// Each name fits the length field of a record.
pub open spec fn names_fit(names: Seq<Seq<char>>) -> bool {
    forall|k: int| 0 <= k < names.len() ==> encode_utf8(#[trigger] names[k]).len() < 0x1_0000_0000
}

/// Each name and each content fits the length field of a record.
pub open spec fn items_fit(items: Seq<SourceItemView>) -> bool {
    forall|i: int|
        0 <= i < items.len() ==> names_fit((#[trigger] items[i]).mime_type) && items[i].content.len()
            < 0x1_0000_0000
}

/// A record in front of `tail` is read as one record, and `tail` is left.
proof fn lemma_decode_record(
    tag: u8,
    body: Seq<u8>,
    tail: Seq<u8>,
    pending: Seq<Seq<char>>,
    done: Seq<SourceItemView>,
)
    requires
        tag == TAG_MIME || tag == TAG_CONTENT,
        body.len() < 0x1_0000_0000,
    ensures
        decode_records(encode_record(tag, body) + tail, pending, done) == (if tag == TAG_CONTENT {
            decode_records(
                tail,
                Seq::empty(),
                done.push(SourceItemView { mime_type: pending, content: body }),
            )
        } else if valid_utf8(body) {
            decode_records(tail, pending.push(decode_utf8(body)), done)
        } else {
            Err(DecodeError::BadTypeName)
        }),
{
    let rest = encode_record(tag, body) + tail;
    let n = body.len() as int;
    assert(rest.subrange(5, 5 + n) =~= body);
    assert(rest.skip(5 + n) =~= tail);
}

proof fn lemma_decode_names(
    names: Seq<Seq<char>>,
    tail: Seq<u8>,
    pending: Seq<Seq<char>>,
    done: Seq<SourceItemView>,
)
    requires
        names_fit(names),
    ensures
        decode_records(encode_names(names) + tail, pending, done) == decode_records(
            tail,
            pending + names,
            done,
        ),
    decreases names.len(),
{
    if names.len() > 0 {
        let body = encode_utf8(names[0]);
        let more = names.drop_first();
        assert(encode_names(names) + tail =~= encode_record(TAG_MIME, body) + (encode_names(more)
            + tail));
        lemma_decode_record(TAG_MIME, body, encode_names(more) + tail, pending, done);
        encode_utf8_valid_utf8(names[0]);
        encode_utf8_decode_utf8(names[0]);
        lemma_decode_names(more, tail, pending.push(names[0]), done);
        assert(pending.push(names[0]) + more =~= pending + names);
    }
}

proof fn lemma_decode_items(items: Seq<SourceItemView>, done: Seq<SourceItemView>)
    requires
        items_fit(items),
    ensures
        decode_records(encode_items(items), Seq::empty(), done) == Ok::<
            Seq<SourceItemView>,
            DecodeError,
        >(done + items),
    decreases items.len(),
{
    if items.len() > 0 {
        let item = items[0];
        let more = items.drop_first();
        let tail = encode_items(more);
        assert(encode_items(items) =~= encode_names(item.mime_type) + (encode_record(
            TAG_CONTENT,
            item.content,
        ) + tail));
        lemma_decode_names(
            item.mime_type,
            encode_record(TAG_CONTENT, item.content) + tail,
            Seq::empty(),
            done,
        );
        lemma_decode_record(TAG_CONTENT, item.content, tail, item.mime_type, done);
        lemma_decode_items(more, done.push(item));
        assert(done.push(item) + more =~= done + items);
    }
}

/// Decoding the bulk stream of a payload gives the payload back: the same
/// items in the same order, each with its names and its content.
pub proof fn lemma_decode_encode(items: Seq<SourceItemView>)
    requires
        items_fit(items),
    ensures
        decode_bulk(encode_bulk(items)) == Ok::<Seq<SourceItemView>, DecodeError>(items),
{
    let input = encode_bulk(items);
    assert(input.skip(1) =~= encode_items(items));
    lemma_decode_items(items, Seq::empty());
}

/// `String::from_utf8`: the string that holds exactly these bytes, where they
/// are UTF-8, and nothing where they are not.
#[verifier::external_body]
fn string_from_utf8(bytes: Vec<u8>) -> (r: Option<String>)
    ensures
        r is Some <==> valid_utf8(bytes@),
        r matches Some(s) ==> encode_utf8(s@) == bytes@,
{
    String::from_utf8(bytes).ok()
}

fn read_be32(input: &[u8], at: usize) -> (r: u32)
    requires
        at + 4 <= input.len(),
    ensures
        r == be32(input@.subrange(at as int, at + 4)),
{
    let b0: u32 = input[at] as u32;
    let b1: u32 = input[at + 1] as u32;
    let b2: u32 = input[at + 2] as u32;
    let b3: u32 = input[at + 3] as u32;
    b0 * 0x100_0000 + b1 * 0x1_0000 + b2 * 0x100 + b3
}

/// Decodes a bulk stream.
///
/// The stream is refused as a whole: with `Truncated` where it ends too
/// early, `UnsupportedVersion` where its first byte is another version,
/// `BadTag` where a record starts with an unknown tag, `BadTypeName` where a
/// name is not UTF-8; the first fault in reading order decides. Names that no
/// content follows are dropped.
pub fn receive_data_bulk(input: &[u8]) -> (r: Result<Vec<SourceDataItem>, DecodeError>)
    ensures
        match decode_bulk(input@) {
            Ok(items) => r is Ok && r->Ok_0.deep_view() == items,
            Err(e) => r is Err && r->Err_0 == e,
        },
{
    if input.len() == 0 {
        return Err(DecodeError::Truncated);
    }
    if input[0] != PROTOCOL_VER {
        return Err(DecodeError::UnsupportedVersion);
    }
    let mut done: Vec<SourceDataItem> = Vec::new();
    let mut pending: Vec<String> = Vec::new();
    let mut pos: usize = 1;
    assert(done.deep_view() =~= Seq::empty());
    assert(pending.deep_view() =~= Seq::empty());
    while pos < input.len()
        invariant
            1 <= pos <= input.len(),
            input@[0] == PROTOCOL_VER,
            decode_bulk(input@) == decode_records(
                input@.skip(pos as int),
                pending.deep_view(),
                done.deep_view(),
            ),
        decreases input.len() - pos,
    {
        let ghost rest = input@.skip(pos as int);
        let tag = input[pos];
        if tag != TAG_MIME && tag != TAG_CONTENT {
            return Err(DecodeError::BadTag);
        }
        if input.len() - pos < 5 {
            return Err(DecodeError::Truncated);
        }
        let len: usize = read_be32(input, pos + 1) as usize;
        if input.len() - pos - 5 < len {
            return Err(DecodeError::Truncated);
        }
        let start: usize = pos + 5;
        let end: usize = start + len;
        let body = slice_to_vec(slice_subrange(input, start, end));
        assert(rest.subrange(5, 5 + len) =~= body@);
        assert(rest.skip(5 + len) =~= input@.skip(end as int));
        if tag == TAG_CONTENT {
            let ghost old_done = done.deep_view();
            let ghost names = pending.deep_view();
            let item = SourceDataItem { mime_type: pending, content: Rc::new(body) };
            done.push(item);
            pending = Vec::new();
            assert(done.deep_view() =~= old_done.push(
                SourceItemView { mime_type: names, content: body@ },
            ));
            assert(pending.deep_view() =~= Seq::empty());
        } else {
            let ghost old_pending = pending.deep_view();
            match string_from_utf8(body) {
                Some(name) => {
                    proof {
                        encode_utf8_decode_utf8(name@);
                    }
                    pending.push(name);
                    assert(pending.deep_view() =~= old_pending.push(name@));
                },
                None => {
                    return Err(DecodeError::BadTypeName);
                },
            }
        }
        pos = end;
    }
    Ok(done)
}

/// Takes `input` as it is for the content of one item that goes by the given
/// names.
pub fn receive_data_oneshot(input: Vec<u8>, mime_types: &Vec<String>) -> (r: Vec<SourceDataItem>)
    ensures
        r.deep_view() == seq![
            SourceItemView { mime_type: mime_types.deep_view(), content: input@ },
        ],
{
    let item = SourceDataItem { mime_type: mime_types.clone(), content: Rc::new(input) };
    let mut r: Vec<SourceDataItem> = Vec::new();
    r.push(item);
    r
}

/// The type names that input goes by where it is copied as it is and no name
/// is given: the names of plain text.
pub open spec fn text_types() -> Seq<Seq<char>> {
    seq![
        "text/plain"@,
        "text/plain;charset=utf-8"@,
        "TEXT"@,
        "STRING"@,
        "UTF8_STRING"@,
    ]
}

/// What the input of a copy holds: with `oneshot`, or with type names, one
/// item, which has the input for its content and goes by the names given,
/// or by the names of plain text where none is given; else what the input
/// decodes to as a bulk stream.
pub open spec fn received(input: Seq<u8>, oneshot: bool, mime_types: Option<Seq<Seq<char>>>) -> Result<
    Seq<SourceItemView>,
    DecodeError,
> {
    match mime_types {
        Some(names) => Ok(seq![SourceItemView { mime_type: names, content: input }]),
        None => if oneshot {
            Ok(seq![SourceItemView { mime_type: text_types(), content: input }])
        } else {
            decode_bulk(input)
        },
    }
}

/// The names of plain text.
fn text_type_names() -> (r: Vec<String>)
    ensures
        r.deep_view() == text_types(),
{
    let mut r: Vec<String> = Vec::new();
    r.push(String::from_str("text/plain"));
    r.push(String::from_str("text/plain;charset=utf-8"));
    r.push(String::from_str("TEXT"));
    r.push(String::from_str("STRING"));
    r.push(String::from_str("UTF8_STRING"));
    r
}

/// Takes the input of a copy: as it is, where that is asked for or type
/// names are given, and as a bulk stream else.
pub fn receive_data(input: Vec<u8>, oneshot: bool, mime_types: Option<Vec<String>>) -> (r: Result<
    Vec<SourceDataItem>,
    DecodeError,
>)
    ensures
        match received(input@, oneshot, mime_types.deep_view()) {
            Ok(items) => r is Ok && r->Ok_0.deep_view() == items,
            Err(e) => r is Err && r->Err_0 == e,
        },
{
    match mime_types {
        Some(names) => Ok(receive_data_oneshot(input, &names)),
        None => if oneshot {
            let names = text_type_names();
            Ok(receive_data_oneshot(input, &names))
        } else {
            receive_data_bulk(input.as_slice())
        },
    }
}

impl DecodeError {
    /// The fault in words.
    pub open spec fn text(self) -> Seq<char> {
        match self {
            DecodeError::UnsupportedVersion => "Unsupported protocol version"@,
            DecodeError::Truncated => "The input ends inside a record"@,
            DecodeError::BadTag => "Unknown record tag"@,
            DecodeError::BadTypeName => "A mime-type is not valid UTF-8"@,
        }
    }

    /// The fault in words.
    pub fn message(&self) -> (r: String)
        ensures
            r@ == self.text(),
    {
        match self {
            DecodeError::UnsupportedVersion => String::from_str("Unsupported protocol version"),
            DecodeError::Truncated => String::from_str("The input ends inside a record"),
            DecodeError::BadTag => String::from_str("Unknown record tag"),
            DecodeError::BadTypeName => String::from_str("A mime-type is not valid UTF-8"),
        }
    }
}

} // verus!
