//! Owning the selection: the machine that answers the requests of peers.

use super::request::{
    present, AtomCollection, PropertyState, TransferResult, XClient, XEvent, XRequest,
    XRequestView,
};
use super::sender::{
    chunk_size_for, get_chunk_size, lemma_send_follows_chunks, SenderView, XSelectionSender,
};
use crate::clipboard::backend::CopyConfig;
use crate::clipboard::mime_type::{decide, decide_mime_type};
use crate::protocol::source_data::{
    all_mime_types, find_item, SourceData, SourceDataItem, SourceItemView,
};
use std::collections::HashMap;
use std::rc::Rc;
use vstd::prelude::*;

verus! {

broadcast use vstd::std_specs::hash::group_hash_axioms;

/// The state of a copy: the payload, and the transfers that are under way,
/// by the window of the requestor.
pub struct XCopyState {
    source_data: Vec<SourceDataItem>,
    atoms: AtomCollection,
    targets: Vec<u32>,
    chunk_size: usize,
    ongoing_senders: HashMap<u32, XSelectionSender>,
    finished: bool,
}

/// The state of a copy as contracts see it.
pub struct XCopyView {
    /// The payload.
    pub items: Seq<SourceItemView>,
    /// The atoms of the connection.
    pub atoms: AtomCollection,
    /// The answer to a request for the list of targets.
    pub targets: Seq<u32>,
    /// The size of a chunk.
    pub chunk_size: nat,
    /// The transfers in chunks that are under way.
    pub senders: Map<u32, SenderView>,
    /// Whether the selection was lost.
    pub finished: bool,
}

/// The bytes that answer a request for the target of the given name: the
/// content of the first item that goes by the type name that the negotiation
/// picks among all names of the payload, and no bytes where the target has no
/// name, the negotiation picks none, or no item goes by its pick.
pub open spec fn requested_content(
    items: Seq<SourceItemView>,
    target_name: Option<Seq<char>>,
) -> Seq<u8> {
    match target_name {
        Some(name) => match decide(name, all_mime_types(items)) {
            Some(mime_type) => match find_item(items, mime_type) {
                Some(i) => items[i].content,
                None => Seq::empty(),
            },
            None => Seq::empty(),
        },
        None => Seq::empty(),
    }
}

impl XCopyView {
    /// A chunk holds at least one byte. Each transfer under way is one in
    /// chunks that was announced, is kept under the window of its requestor,
    /// and has written no more than there is.
    pub open spec fn wf(self) -> bool {
        &&& self.chunk_size > 0
        &&& forall|w: u32| #[trigger]
            self.senders.contains_key(w) ==> {
                &&& self.senders[w].wf()
                &&& self.senders[w].started
                &&& !self.senders[w].direct()
                &&& self.senders[w].requestor == w
            }
    }

    /// The sender that serves a request for content.
    pub open spec fn sender_for(
        self,
        requestor: u32,
        selection: u32,
        target: u32,
        property: u32,
        target_name: Option<Seq<char>>,
    ) -> SenderView {
        SenderView {
            requestor,
            selection,
            target,
            property,
            content_type: target,
            content: requested_content(self.items, target_name),
            chunk_size: self.chunk_size,
            offset: 0,
            started: false,
        }
    }

    /// The state after an event, and the requests that answer it.
    ///
    /// A request for the list of targets is answered at once with the list.
    /// A request for content is served by a new sender, which is kept where
    /// it needs more steps. The deletion of a property by a requestor whose
    /// transfer is under way lets that sender make its next step; it is
    /// dropped after its last. The loss of the selection ends the copy.
    /// Nothing else is answered, and nothing at all after the end.
    pub open spec fn step(self, event: XEvent) -> (XCopyView, Seq<XRequestView>) {
        if self.finished {
            (self, Seq::empty())
        } else {
            match event {
                XEvent::SelectionRequest {
                    time,
                    requestor,
                    selection,
                    target,
                    property,
                    target_name,
                } => {
                    if target == self.atoms.targets {
                        (
                            self,
                            seq![
                                XRequestView::ChangeProperty32 {
                                    window: requestor,
                                    property,
                                    type_: self.atoms.atom,
                                    data: self.targets,
                                },
                                XRequestView::SendSelectionNotify {
                                    time,
                                    requestor,
                                    selection,
                                    target,
                                    property,
                                },
                                XRequestView::Flush,
                            ],
                        )
                    } else {
                        let sender = self.sender_for(
                            requestor,
                            selection,
                            target,
                            property,
                            target_name.deep_view(),
                        );
                        let (next, result, requests) = sender.send(self.atoms.incr, time);
                        if result == TransferResult::Continue {
                            (
                                XCopyView { senders: self.senders.insert(requestor, next), ..self },
                                requests,
                            )
                        } else {
                            (self, requests)
                        }
                    }
                },
                XEvent::PropertyNotify { window, atom, state } => {
                    if state == PropertyState::Delete && self.senders.contains_key(window) {
                        let (next, result, requests) = self.senders[window].send(
                            self.atoms.incr,
                            0,
                        );
                        if result == TransferResult::Continue {
                            (
                                XCopyView { senders: self.senders.insert(window, next), ..self },
                                requests,
                            )
                        } else {
                            (XCopyView { senders: self.senders.remove(window), ..self }, requests)
                        }
                    } else {
                        (self, Seq::empty())
                    }
                },
                XEvent::SelectionClear => (XCopyView { finished: true, ..self }, Seq::empty()),
                _ => (self, Seq::empty()),
            }
        }
    }
}

impl View for XCopyState {
    type V = XCopyView;

    closed spec fn view(&self) -> XCopyView {
        XCopyView {
            items: self.source_data.deep_view(),
            atoms: self.atoms,
            targets: self.targets@,
            // A chunk holds at least one byte, as in each sender.
            chunk_size: if self.chunk_size == 0 {
                1nat
            } else {
                self.chunk_size as nat
            },
            senders: self.ongoing_senders@.map_values(|s: XSelectionSender| s@),
            finished: self.finished,
        }
    }
}

/// The atoms of the type names that the server interned, in their order.
pub fn mime_types_to_targets(alias_atoms: &Vec<Option<u32>>) -> (r: Vec<u32>)
    ensures
        r@ == present(alias_atoms@),
{
    let mut ret: Vec<u32> = Vec::new();
    let mut i: usize = 0;
    while i < alias_atoms.len()
        invariant
            i <= alias_atoms.len(),
            ret@ == present(alias_atoms@.take(i as int)),
        decreases alias_atoms.len() - i,
    {
        proof {
            let next = alias_atoms@.take(i + 1);
            assert(next.drop_last() =~= alias_atoms@.take(i as int));
        }
        match alias_atoms[i] {
            Some(atom) => ret.push(atom),
            None => {},
        }
        i += 1;
    }
    assert(alias_atoms@.take(alias_atoms.len() as int) =~= alias_atoms@);
    ret
}

/// Starts a copy: the state of the owner, and the requests that take the
/// selection over, the primary one or the clipboard.
///
/// `alias_atoms` holds, for each type name of the payload, the atom that the
/// server interned for it, or nothing where it gave none. The list of
/// targets that peers are told is `TARGETS` itself and then these atoms.
pub fn copy_x(config: CopyConfig, client: &XClient, alias_atoms: &Vec<Option<u32>>) -> (r: (
    XCopyState,
    Vec<XRequest>,
))
    ensures
        r.0@ == (XCopyView {
            items: config.source_data.deep_view(),
            atoms: client.atoms,
            targets: seq![client.atoms.targets] + present(alias_atoms@),
            chunk_size: chunk_size_for(client.max_request_bytes, config.x_chunk_size) as nat,
            senders: Map::empty(),
            finished: false,
        }),
        r.0@.wf(),
        r.1.deep_view() == seq![
            XRequestView::SetSelectionOwner {
                owner: client.win_id,
                selection: if config.use_primary {
                    client.atoms.primary
                } else {
                    client.atoms.clipboard
                },
            },
            XRequestView::Flush,
        ],
{
    let selection = if config.use_primary {
        client.atoms.primary
    } else {
        client.atoms.clipboard
    };
    let mut targets: Vec<u32> = Vec::new();
    targets.push(client.atoms.targets);
    let mut aliases = mime_types_to_targets(alias_atoms);
    targets.append(&mut aliases);
    let state = XCopyState {
        source_data: config.source_data,
        atoms: client.atoms,
        targets,
        chunk_size: get_chunk_size(client.max_request_bytes, config.x_chunk_size),
        ongoing_senders: HashMap::new(),
        finished: false,
    };
    let mut requests: Vec<XRequest> = Vec::new();
    requests.push(XRequest::SetSelectionOwner { owner: client.win_id, selection });
    requests.push(XRequest::Flush);
    assert(state@.senders =~= Map::empty());
    (state, requests)
}

impl XCopyState {
    /// Whether the selection was lost, and the copy is over.
    pub fn finished(&self) -> (r: bool)
        ensures
            r == self@.finished,
    {
        self.finished
    }

    /// The number of transfers in chunks that are under way.
    pub fn ongoing(&self) -> (r: usize)
        ensures
            r == self@.senders.len(),
    {
        proof {
            let m = self.ongoing_senders@;
            let f = |s: XSelectionSender| s@;
            assert(m.map_values(f).dom() =~= m.dom());
        }
        self.ongoing_senders.len()
    }

    /// The content that answers a request for the target of the given name.
    fn content_for(&self, target_name: &Option<String>) -> (r: Rc<Vec<u8>>)
        ensures
            r@ == requested_content(self@.items, target_name.deep_view()),
    {
        match target_name {
            Some(name) => {
                let names = self.source_data.mime_types();
                match decide_mime_type(name.as_str(), &names) {
                    Ok(mime_type) => {
                        let found = self.source_data.content_by_mime_type(mime_type.as_str());
                        found.1
                    },
                    Err(_) => Rc::new(Vec::new()),
                }
            },
            None => Rc::new(Vec::new()),
        }
    }

    /// Answers an event of the server.
    pub fn handle_event(&mut self, event: XEvent) -> (r: Vec<XRequest>)
        ensures
            final(self)@ == old(self)@.step(event).0,
            r.deep_view() == old(self)@.step(event).1,
    {
        let ghost before = self@;
        if self.finished {
            let r: Vec<XRequest> = Vec::new();
            return r;
        }
        match event {
            XEvent::SelectionRequest {
                time,
                requestor,
                selection,
                target,
                property,
                target_name,
            } => {
                if target == self.atoms.targets {
                    let mut r: Vec<XRequest> = Vec::new();
                    r.push(
                        XRequest::ChangeProperty32 {
                            window: requestor,
                            property,
                            type_: self.atoms.atom,
                            data: self.targets.clone(),
                        },
                    );
                    r.push(
                        XRequest::SendSelectionNotify {
                            time,
                            requestor,
                            selection,
                            target,
                            property,
                        },
                    );
                    r.push(XRequest::Flush);
                    r
                } else {
                    let content = self.content_for(&target_name);
                    let mut sender = XSelectionSender::new(
                        requestor,
                        selection,
                        target,
                        property,
                        target,
                        content,
                        self.chunk_size,
                    );
                    let (result, r) = sender.send(self.atoms.incr, time);
                    match result {
                        TransferResult::Continue => {
                            self.ongoing_senders.insert(requestor, sender);
                            assert(self@.senders =~= before.senders.insert(requestor, sender@));
                        },
                        TransferResult::Done => {},
                    }
                    r
                }
            },
            XEvent::PropertyNotify { window, atom, state } => {
                match state {
                    PropertyState::Delete => {
                        match self.ongoing_senders.remove(&window) {
                            Some(sender) => {
                                let mut sender = sender;
                                let (result, r) = sender.send(self.atoms.incr, 0);
                                match result {
                                    TransferResult::Continue => {
                                        self.ongoing_senders.insert(window, sender);
                                        assert(self@.senders =~= before.senders.insert(
                                            window,
                                            sender@,
                                        ));
                                    },
                                    TransferResult::Done => {
                                        assert(self@.senders =~= before.senders.remove(window));
                                    },
                                }
                                r
                            },
                            None => {
                                assert(self@.senders =~= before.senders);
                                let r: Vec<XRequest> = Vec::new();
                                r
                            },
                        }
                    },
                    PropertyState::NewValue => {
                        let r: Vec<XRequest> = Vec::new();
                        r
                    },
                }
            },
            XEvent::SelectionClear => {
                self.finished = true;
                let r: Vec<XRequest> = Vec::new();
                r
            },
            _ => {
                let r: Vec<XRequest> = Vec::new();
                r
            },
        }
    }
}

/// A request for a target that the payload cannot answer gets a reply of no
/// bytes, and the copy goes on as it was.
pub proof fn lemma_unknown_target_is_answered_empty(
    s: XCopyView,
    time: u32,
    requestor: u32,
    selection: u32,
    target: u32,
    property: u32,
    target_name: Option<String>,
)
    requires
        s.wf(),
        !s.finished,
        target != s.atoms.targets,
        target_name matches Some(name) ==> decide(name@, all_mime_types(s.items)) is None,
    ensures
        s.step(
            XEvent::SelectionRequest { time, requestor, selection, target, property, target_name },
        ) == (
            s,
            seq![
                XRequestView::ChangeProperty8 {
                    window: requestor,
                    property,
                    type_: target,
                    data: Seq::<u8>::empty(),
                },
                XRequestView::SendSelectionNotify { time, requestor, selection, target, property },
                XRequestView::Flush,
            ],
        ),
{
    let sender = s.sender_for(requestor, selection, target, property, target_name.deep_view());
    let whole = SenderView { offset: 0, ..sender };
    assert(whole.content.subrange(0, whole.chunk_end() as int) =~= Seq::<u8>::empty());
}

/// The transfers under way stay what they are: each step keeps every one
/// of them a transfer in chunks that was announced, under the window of its
/// requestor, with no more written than there is.
pub proof fn lemma_step_keeps_transfers(s: XCopyView, event: XEvent)
    requires
        s.wf(),
    ensures
        s.step(event).0.wf(),
{
    let next = s.step(event).0;
    assert forall|w: u32| #[trigger] next.senders.contains_key(w) implies {
        &&& next.senders[w].wf()
        &&& next.senders[w].started
        &&& !next.senders[w].direct()
        &&& next.senders[w].requestor == w
    } by {}
}

/// Each time a requestor deletes the property of its transfer, the next of
/// the writes that are left is made, and no other. After the last of them,
/// the write of no bytes, the transfer is dropped.
pub proof fn lemma_deletion_gets_next_chunk(s: XCopyView, window: u32, atom: u32)
    requires
        s.wf(),
        !s.finished,
        s.senders.contains_key(window),
    ensures
        ({
            let sender = s.senders[window];
            let chunks = sender.remaining_chunks();
            let (next, requests) = s.step(
                XEvent::PropertyNotify { window, atom, state: PropertyState::Delete },
            );
            &&& requests == seq![
                XRequestView::ChangeProperty8 {
                    window,
                    property: sender.property,
                    type_: sender.content_type,
                    data: sender.content.subrange(
                        chunks[0].offset as int,
                        (chunks[0].offset + chunks[0].len) as int,
                    ),
                },
                XRequestView::Flush,
            ]
            &&& chunks.len() == 1 ==> next.senders == s.senders.remove(window)
            &&& chunks.len() > 1 ==> next.senders.contains_key(window)
                && next.senders[window].remaining_chunks() == chunks.drop_first()
                && next.senders.remove(window) == s.senders.remove(window)
        }),
{
    let sender = s.senders[window];
    lemma_send_follows_chunks(sender, s.atoms.incr, 0);
}

} // verus!
