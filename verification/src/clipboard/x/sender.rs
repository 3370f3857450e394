//! Serving one request for the selection, at once or in chunks.
//!
//! Content that is shorter than a chunk is written in one piece. Other
//! content goes by the INCR convention: the sender announces the transfer,
//! then writes one chunk each time the requestor has deleted the property,
//! and ends the transfer by a write of no bytes.

use super::request::{TransferResult, XRequest, XRequestView};
use std::rc::Rc;
use vstd::prelude::*;
use vstd::slice::*;

verus! {

/// The state of one transfer to one requestor.
pub struct XSelectionSender {
    requestor: u32,
    selection: u32,
    target: u32,
    property: u32,
    content_type: u32,
    content: Rc<Vec<u8>>,
    chunk_size: usize,
    offset: usize,
    started: bool,
}

/// A sender as contracts see it.
pub struct SenderView {
    /// The window that asked.
    pub requestor: u32,
    /// The selection that it asked for.
    pub selection: u32,
    /// The target that it asked for.
    pub target: u32,
    /// The property that it reads the answer from.
    pub property: u32,
    /// The type that the answer is written as.
    pub content_type: u32,
    /// The bytes to send.
    pub content: Seq<u8>,
    /// The most bytes of one write of a transfer in chunks.
    pub chunk_size: nat,
    /// How many bytes were written.
    pub offset: nat,
    /// Whether the transfer was announced.
    pub started: bool,
}

/// One write of a transfer in chunks: `len` bytes of the content from
/// `offset` on.
pub struct Chunk {
    pub offset: nat,
    pub len: nat,
}

/// The writes that complete a transfer of `total` bytes of which `offset` are
/// written: chunks of `chunk_size` bytes, a shorter one at the end of the
/// content, then the write of no bytes that ends the transfer.
pub open spec fn incr_chunks(total: nat, chunk_size: nat, offset: nat) -> Seq<Chunk>
    recommends
        chunk_size > 0,
        offset <= total,
    decreases total - offset,
{
    if chunk_size == 0 || offset >= total {
        seq![Chunk { offset, len: 0 }]
    } else {
        let len = if total - offset < chunk_size {
            (total - offset) as nat
        } else {
            chunk_size
        };
        seq![Chunk { offset, len }] + incr_chunks(total, chunk_size, offset + len)
    }
}

/// The number of bytes that the chunks hold together.
pub open spec fn chunks_total(chunks: Seq<Chunk>) -> nat
    decreases chunks.len(),
{
    if chunks.len() == 0 {
        0
    } else {
        chunks[0].len + chunks_total(chunks.drop_first())
    }
}

impl SenderView {
    /// A chunk holds at least one byte, and no more was written than there
    /// is.
    pub open spec fn wf(self) -> bool {
        self.chunk_size > 0 && self.offset <= self.content.len()
    }

    /// The content goes in one piece.
    pub open spec fn direct(self) -> bool {
        self.chunk_size > self.content.len()
    }

    /// The notice that the request was served.
    pub open spec fn notify(self, time: u32) -> XRequestView {
        XRequestView::SendSelectionNotify {
            time,
            requestor: self.requestor,
            selection: self.selection,
            target: self.target,
            property: self.property,
        }
    }

    /// Where the next write ends.
    pub open spec fn chunk_end(self) -> nat {
        if self.content.len() - self.offset < self.chunk_size {
            self.content.len()
        } else {
            self.offset + self.chunk_size
        }
    }

    /// The write of the content from the offset to the end of the chunk.
    pub open spec fn write_chunk(self) -> XRequestView {
        XRequestView::ChangeProperty8 {
            window: self.requestor,
            property: self.property,
            type_: self.content_type,
            data: self.content.subrange(self.offset as int, self.chunk_end() as int),
        }
    }

    /// The sender after the write of its next chunk.
    pub open spec fn advanced(self) -> SenderView {
        SenderView { offset: self.chunk_end(), ..self }
    }

    /// One step of the transfer: the sender after it, whether another step
    /// is needed, and the requests of the step.
    pub open spec fn send(self, incr: u32, time: u32) -> (
        SenderView,
        TransferResult,
        Seq<XRequestView>,
    ) {
        if self.direct() {
            let whole = SenderView { offset: 0, ..self };
            (
                whole.advanced(),
                TransferResult::Done,
                seq![whole.write_chunk(), self.notify(time), XRequestView::Flush],
            )
        } else if !self.started {
            (
                SenderView { offset: 0, started: true, ..self },
                TransferResult::Continue,
                seq![
                    XRequestView::WatchProperties { window: self.requestor },
                    XRequestView::ChangeProperty32 {
                        window: self.requestor,
                        property: self.property,
                        type_: incr,
                        data: seq![0u32],
                    },
                    self.notify(time),
                    XRequestView::Flush,
                ],
            )
        } else {
            (
                self.advanced(),
                if self.offset == self.content.len() {
                    TransferResult::Done
                } else {
                    TransferResult::Continue
                },
                seq![self.write_chunk(), XRequestView::Flush],
            )
        }
    }

    /// The writes that are left of a transfer in chunks.
    pub open spec fn remaining_chunks(self) -> Seq<Chunk> {
        incr_chunks(self.content.len(), self.chunk_size, self.offset)
    }
}

impl View for XSelectionSender {
    type V = SenderView;

    closed spec fn view(&self) -> SenderView {
        SenderView {
            requestor: self.requestor,
            selection: self.selection,
            target: self.target,
            property: self.property,
            content_type: self.content_type,
            content: self.content@,
            chunk_size: self.chunk_size as nat,
            offset: self.offset as nat,
            started: self.started,
        }
    }
}

/// The size of a chunk: a quarter of the longest request that the connection
/// takes, and one byte at the least; or the size asked for, where one is
/// asked for and it is less.
pub open spec fn chunk_size_for(max_request_bytes: usize, x_chunk_size: usize) -> usize {
    let quarter = if max_request_bytes < 4 {
        1usize
    } else {
        (max_request_bytes / 4) as usize
    };
    if 0 < x_chunk_size < quarter {
        x_chunk_size
    } else {
        quarter
    }
}

/// The size of a chunk on a connection that takes requests of up to
/// `max_request_bytes` bytes, where `x_chunk_size` is asked for, or nothing
/// with 0.
pub fn get_chunk_size(max_request_bytes: usize, x_chunk_size: usize) -> (r: usize)
    ensures
        r == chunk_size_for(max_request_bytes, x_chunk_size),
        r >= 1,
        max_request_bytes >= 4 ==> r <= max_request_bytes / 4,
{
    let quarter = if max_request_bytes < 4 {
        1
    } else {
        max_request_bytes / 4
    };
    if 0 < x_chunk_size && x_chunk_size < quarter {
        x_chunk_size
    } else {
        quarter
    }
}

impl XSelectionSender {
    #[verifier::type_invariant]
    spec fn well_formed(&self) -> bool {
        self.chunk_size > 0 && self.offset <= self.content.len()
    }

    /// A sender that has written nothing yet. A chunk holds at least one
    /// byte: a `chunk_size` of 0 is taken for 1.
    pub fn new(
        requestor: u32,
        selection: u32,
        target: u32,
        property: u32,
        content_type: u32,
        content: Rc<Vec<u8>>,
        chunk_size: usize,
    ) -> (r: Self)
        ensures
            r@ == (SenderView {
                requestor,
                selection,
                target,
                property,
                content_type,
                content: content@,
                chunk_size: if chunk_size == 0 {
                    1nat
                } else {
                    chunk_size as nat
                },
                offset: 0,
                started: false,
            }),
            r@.wf(),
    {
        XSelectionSender {
            requestor,
            selection,
            target,
            property,
            content_type,
            content,
            chunk_size: if chunk_size == 0 {
                1
            } else {
                chunk_size
            },
            offset: 0,
            started: false,
        }
    }

    /// The window that asked.
    pub fn requestor(&self) -> (r: u32)
        ensures
            r == self@.requestor,
    {
        self.requestor
    }

    /// How many bytes were written.
    pub fn offset(&self) -> (r: usize)
        ensures
            r == self@.offset,
    {
        self.offset
    }

    fn notify(&self, time: u32) -> (r: XRequest)
        ensures
            r@ == self@.notify(time),
    {
        XRequest::SendSelectionNotify {
            time,
            requestor: self.requestor,
            selection: self.selection,
            target: self.target,
            property: self.property,
        }
    }

    /// Writes the next chunk and advances behind it.
    fn change_property_to_send(&mut self) -> (r: XRequest)
        ensures
            final(self)@ == old(self)@.advanced(),
            final(self)@.wf(),
            r@ == old(self)@.write_chunk(),
    {
        proof {
            use_type_invariant(&*self);
        }
        let left_bytes = self.content.len() - self.offset;
        let end_pos = if self.chunk_size > left_bytes {
            self.offset + left_bytes
        } else {
            self.offset + self.chunk_size
        };
        let to_send = slice_to_vec(slice_subrange(self.content.as_slice(), self.offset, end_pos));
        let r = XRequest::ChangeProperty8 {
            window: self.requestor,
            property: self.property,
            type_: self.content_type,
            data: to_send,
        };
        self.offset = end_pos;
        r
    }

    /// Makes one step of the transfer.
    ///
    /// Content shorter than a chunk is written whole, and the requestor is
    /// told. Other content is announced first, under the type `incr`; each
    /// later step writes the next chunk, and the step that finds nothing
    /// left writes no bytes and is the last.
    pub fn send(&mut self, incr: u32, time: u32) -> (r: (TransferResult, Vec<XRequest>))
        ensures
            old(self)@.wf(),
            final(self)@.wf(),
            (final(self)@, r.0, r.1.deep_view()) == old(self)@.send(incr, time),
    {
        proof {
            use_type_invariant(&*self);
        }
        if self.chunk_size > self.content.len() {
            self.offset = 0;
            let write = self.change_property_to_send();
            let mut requests: Vec<XRequest> = Vec::new();
            requests.push(write);
            requests.push(self.notify(time));
            requests.push(XRequest::Flush);
            return (TransferResult::Done, requests);
        } else if !self.started {
            return self.send_incr_begin(incr, time);
        }
        self.send_incr()
    }

    fn send_incr_begin(&mut self, incr: u32, time: u32) -> (r: (TransferResult, Vec<XRequest>))
        requires
            !old(self)@.direct(),
            !old(self)@.started,
        ensures
            final(self)@.wf(),
            (final(self)@, r.0, r.1.deep_view()) == old(self)@.send(incr, time),
    {
        proof {
            use_type_invariant(&*self);
        }
        self.offset = 0;
        self.started = true;
        let mut zero: Vec<u32> = Vec::new();
        zero.push(0);
        let mut requests: Vec<XRequest> = Vec::new();
        requests.push(XRequest::WatchProperties { window: self.requestor });
        requests.push(
            XRequest::ChangeProperty32 {
                window: self.requestor,
                property: self.property,
                type_: incr,
                data: zero,
            },
        );
        requests.push(self.notify(time));
        requests.push(XRequest::Flush);
        (TransferResult::Continue, requests)
    }

    fn send_incr(&mut self) -> (r: (TransferResult, Vec<XRequest>))
        requires
            !old(self)@.direct(),
            old(self)@.started,
        ensures
            final(self)@.wf(),
            forall|incr: u32, time: u32|
                (final(self)@, r.0, r.1.deep_view()) == #[trigger] old(self)@.send(incr, time),
    {
        let last = self.offset == self.content.len();
        let write = self.change_property_to_send();
        let mut requests: Vec<XRequest> = Vec::new();
        requests.push(write);
        requests.push(XRequest::Flush);
        if last {
            (TransferResult::Done, requests)
        } else {
            (TransferResult::Continue, requests)
        }
    }
}

/// The writes of a transfer in chunks: each holds at most `chunk_size`
/// bytes; each but the last holds at least one and starts where the one
/// before it ended, so the offsets increase strictly; the last holds none
/// and stands at the end of the content; together they hold what was left.
pub proof fn lemma_incr_chunks(total: nat, chunk_size: nat, offset: nat)
    requires
        chunk_size > 0,
        offset <= total,
    ensures
        ({
            let t = incr_chunks(total, chunk_size, offset);
            &&& t.len() >= 1
            &&& t[0].offset == offset
            &&& t.last() == (Chunk { offset: total, len: 0 })
            &&& forall|i: int| 0 <= i < t.len() ==> offset <= (#[trigger] t[i]).offset <= total
            &&& forall|i: int| 0 <= i < t.len() ==> (#[trigger] t[i]).len <= chunk_size
            &&& forall|i: int|
                0 <= i < t.len() - 1 ==> (#[trigger] t[i]).len > 0 && t[i + 1].offset == t[i].offset
                    + t[i].len
            &&& forall|i: int, j: int|
                0 <= i < j < t.len() ==> (#[trigger] t[i]).offset < (#[trigger] t[j]).offset
            &&& chunks_total(t) == total - offset
        }),
    decreases total - offset,
{
    let t = incr_chunks(total, chunk_size, offset);
    if offset >= total {
        assert(chunks_total(t.drop_first()) == 0);
    } else {
        let len = if total - offset < chunk_size {
            (total - offset) as nat
        } else {
            chunk_size
        };
        let rest = incr_chunks(total, chunk_size, offset + len);
        lemma_incr_chunks(total, chunk_size, offset + len);
        assert(t.drop_first() =~= rest);
    }
}

/// A step of a transfer in chunks makes the first of the writes that are
/// left, and leaves the others: it is the last step where no other is left.
pub proof fn lemma_send_follows_chunks(s: SenderView, incr: u32, time: u32)
    requires
        s.wf(),
        !s.direct(),
        s.started,
    ensures
        ({
            let first = s.remaining_chunks()[0];
            let (next, result, requests) = s.send(incr, time);
            &&& first.offset == s.offset
            &&& requests == seq![
                XRequestView::ChangeProperty8 {
                    window: s.requestor,
                    property: s.property,
                    type_: s.content_type,
                    data: s.content.subrange(first.offset as int, (first.offset + first.len) as int),
                },
                XRequestView::Flush,
            ]
            &&& result == TransferResult::Done <==> s.remaining_chunks().len() == 1
            &&& result == TransferResult::Continue ==> next.remaining_chunks()
                == s.remaining_chunks().drop_first()
        }),
{
    let total = s.content.len();
    if s.offset < total {
        let len = (s.chunk_end() - s.offset) as nat;
        lemma_incr_chunks(total, s.chunk_size, s.offset + len);
    }
}

/// A step of a transfer in chunks writes the bytes that follow those that
/// were written, at most `chunk_size` of them, and advances behind them.
/// While bytes are left it writes at least one and is not the last step, so
/// no byte is written twice and none is passed over; with none left it
/// writes no bytes and is the last.
pub proof fn lemma_step_writes_next_bytes(s: SenderView, incr: u32, time: u32)
    requires
        s.wf(),
        !s.direct(),
        s.started,
    ensures
        ({
            let (next, result, requests) = s.send(incr, time);
            &&& s.offset <= next.offset <= s.content.len()
            &&& next.offset - s.offset <= s.chunk_size
            &&& next.offset - s.offset == s.chunk_size || next.offset == s.content.len()
            &&& requests == seq![
                XRequestView::ChangeProperty8 {
                    window: s.requestor,
                    property: s.property,
                    type_: s.content_type,
                    data: s.content.subrange(s.offset as int, next.offset as int),
                },
                XRequestView::Flush,
            ]
            &&& s.offset < s.content.len() ==> next.offset > s.offset && result
                == TransferResult::Continue
            &&& s.offset == s.content.len() ==> next.offset == s.offset && result
                == TransferResult::Done
            &&& next == (SenderView { offset: next.offset, ..s })
        }),
{
}

/// The first step of a transfer in chunks announces it and writes no
/// content: all of the content is left to the steps that follow.
pub proof fn lemma_announcement_leaves_all(s: SenderView, incr: u32, time: u32)
    requires
        s.wf(),
        !s.direct(),
        !s.started,
    ensures
        ({
            let (next, result, requests) = s.send(incr, time);
            &&& result == TransferResult::Continue
            &&& next.wf() && next.started && !next.direct()
            &&& next.remaining_chunks() == incr_chunks(s.content.len(), s.chunk_size, 0)
            &&& chunks_total(next.remaining_chunks()) == s.content.len()
        }),
{
    lemma_incr_chunks(s.content.len(), s.chunk_size, 0);
}

} // verus!
