//! Reading the selection: the machine that asks its owner.
//!
//! A paste asks for the list of targets, reads it, and has the atoms named.
//! Then it lists the names, or picks one, has it interned, asks for the
//! content as that target, and writes what it reads to the output: in one
//! piece, or, where the owner announces a transfer in chunks, chunk by chunk
//! until one holds no bytes.

use super::request::{
    present, AtomCollection, PropertyState, XClient, XEvent, XRequest, XRequestView, ATOM_NONE,
    FORMAT_32,
};
use crate::clipboard::backend::{ClipError, PasteConfig};
use crate::clipboard::mime_type::{choose_paste_type, paste_choice};
use vstd::prelude::*;

verus! {

/// The number of 32-bit items that one read of a property asks for.
pub const READ_LENGTH: u32 = 0x100_0000;

/// Where a paste stands.
#[derive(Debug, Clone, Copy, PartialEq, Eq)]
pub enum XPasteStage {
    /// The list of targets was asked for.
    AwaitingTargets,
    /// The property that holds the list of targets is being read.
    ReadingTargets,
    /// The names of the targets were asked for.
    NamingTargets,
    /// The atom of the chosen type name was asked for.
    InterningTarget,
    /// The content was asked for as `target`. With `is_incr`, the owner has
    /// announced a transfer in chunks, and the next chunk is awaited.
    AwaitingContent { target: u32, is_incr: bool },
    /// The property that holds the answer of the owner is being read.
    ReadingContent { target: u32, is_incr: bool },
    /// The length of the next chunk was asked for.
    ProbingChunk { target: u32 },
    /// The next chunk is being read.
    ReadingChunk { target: u32 },
    /// The paste is over.
    Done,
    /// The paste has failed.
    Failed(ClipError),
}

/// The state of a paste.
pub struct XPasteState {
    config: PasteConfig,
    atoms: AtomCollection,
    window: u32,
    selection: u32,
    stage: XPasteStage,
}

/// The state of a paste as contracts see it.
pub struct XPasteView {
    /// Whether the paste only lists the type names on offer.
    pub list_types_only: bool,
    /// Whether the primary selection is read, not the clipboard.
    pub use_primary: bool,
    /// The type name asked for.
    pub expected_mime_type: Seq<char>,
    /// The atoms of the connection.
    pub atoms: AtomCollection,
    /// The window of the engine.
    pub window: u32,
    /// The selection that is read.
    pub selection: u32,
    /// Where the paste stands.
    pub stage: XPasteStage,
}

/// The 32-bit item that four bytes hold, the least significant first.
pub open spec fn le32(b: Seq<u8>) -> u32
    recommends
        b.len() == 4,
{
    (b[0] + b[1] * 0x100 + b[2] * 0x1_0000 + b[3] * 0x100_0000) as u32
}

/// The 32-bit item that four bytes hold, the most significant first.
pub open spec fn be32(b: Seq<u8>) -> u32
    recommends
        b.len() == 4,
{
    (b[3] + b[2] * 0x100 + b[1] * 0x1_0000 + b[0] * 0x100_0000) as u32
}

/// The 32-bit items that the bytes hold in the given byte order. Bytes that
/// fill no item are left out.
pub open spec fn items32(value: Seq<u8>, big_endian: bool) -> Seq<u32> {
    Seq::new(
        value.len() / 4,
        |i: int|
            if big_endian {
                be32(value.subrange(4 * i, 4 * i + 4))
            } else {
                le32(value.subrange(4 * i, 4 * i + 4))
            },
    )
}

/// The 32-bit items of a property of the given format: none where the format
/// is not 32.
pub open spec fn parsed_items(format: u8, value: Seq<u8>, big_endian: bool) -> Option<Seq<u32>> {
    if format == FORMAT_32 {
        Some(items32(value, big_endian))
    } else {
        None
    }
}

/// One line of output for each name.
pub open spec fn lines_of(names: Seq<Seq<char>>) -> Seq<XRequestView> {
    Seq::new(names.len(), |i: int| XRequestView::WriteLine { line: names[i] })
}

impl XPasteView {
    /// The paste is over, well or not.
    pub open spec fn over(self) -> bool {
        self.stage is Done || self.stage is Failed
    }

    /// The same paste at another stage.
    pub open spec fn at(self, stage: XPasteStage) -> XPasteView {
        XPasteView { stage, ..self }
    }

    /// A read of a property of the engine's window, from its start.
    pub open spec fn read(self, delete: bool, property: u32, type_: u32, long_length: u32) -> XRequestView {
        XRequestView::GetProperty {
            delete,
            window: self.window,
            property,
            type_,
            long_offset: 0,
            long_length,
        }
    }

    /// The owner has answered a conversion: the property that it wrote is
    /// read. A notice for another selection is passed over.
    pub open spec fn on_selection_notify(self, selection: u32) -> (XPasteView, Seq<XRequestView>) {
        if selection != self.selection {
            (self, Seq::empty())
        } else {
            match self.stage {
                XPasteStage::AwaitingTargets => (
                    self.at(XPasteStage::ReadingTargets),
                    seq![self.read(false, self.atoms.xclip_targets, self.atoms.atom, READ_LENGTH)],
                ),
                XPasteStage::AwaitingContent { target, is_incr } => (
                    self.at(XPasteStage::ReadingContent { target, is_incr }),
                    seq![self.read(false, self.atoms.xclip_out, target, READ_LENGTH)],
                ),
                _ => (self, Seq::empty()),
            }
        }
    }

    /// A property has changed: where a transfer in chunks is under way and
    /// its property has a new value, the length of the chunk is asked for.
    pub open spec fn on_property_notify(self, atom: u32, state: PropertyState) -> (
        XPasteView,
        Seq<XRequestView>,
    ) {
        match self.stage {
            XPasteStage::AwaitingContent { target, is_incr } => {
                if is_incr && state == PropertyState::NewValue && atom == self.atoms.xclip_out {
                    (
                        self.at(XPasteStage::ProbingChunk { target }),
                        seq![self.read(false, self.atoms.xclip_out, ATOM_NONE, 0)],
                    )
                } else {
                    (self, Seq::empty())
                }
            },
            _ => (self, Seq::empty()),
        }
    }

    /// The list of targets was read, as `atoms` where the property held
    /// 32-bit items. A list in chunks is refused. An empty list, or none,
    /// is an empty clipboard, and the paste is over. Else the atoms are to be
    /// named.
    pub open spec fn on_targets_reply(self, type_: u32, atoms: Option<Seq<u32>>) -> (
        XPasteView,
        Seq<XRequestView>,
    ) {
        if type_ == self.atoms.incr {
            (self.at(XPasteStage::Failed(ClipError::ProtocolViolation)), Seq::empty())
        } else {
            match atoms {
                Some(list) => if list.len() > 0 {
                    (
                        self.at(XPasteStage::NamingTargets),
                        seq![XRequestView::GetAtomNames { atoms: list }],
                    )
                } else {
                    (self.at(XPasteStage::Done), Seq::empty())
                },
                None => (self.at(XPasteStage::Done), Seq::empty()),
            }
        }
    }

    /// The targets were named. The names that the server gave are listed,
    /// or one of them is picked and its atom asked for. Where none is picked
    /// the paste is over: without output, or, where one type was asked for by
    /// name, as a failure.
    pub open spec fn on_atom_names(self, names: Seq<Option<Seq<char>>>) -> (
        XPasteView,
        Seq<XRequestView>,
    ) {
        let mime_types = present(names);
        if self.list_types_only {
            (self.at(XPasteStage::Done), lines_of(mime_types))
        } else {
            match paste_choice(self.expected_mime_type, mime_types) {
                Ok(Some(name)) => (
                    self.at(XPasteStage::InterningTarget),
                    seq![XRequestView::InternAtom { name }],
                ),
                Ok(None) => (self.at(XPasteStage::Done), Seq::empty()),
                Err(_) => (self.at(XPasteStage::Failed(ClipError::NoMatchingType)), Seq::empty()),
            }
        }
    }

    /// The chosen type name has its atom: the content is asked for.
    pub open spec fn on_atom_interned(self, atom: u32) -> (XPasteView, Seq<XRequestView>) {
        (
            self.at(XPasteStage::AwaitingContent { target: atom, is_incr: false }),
            seq![
                XRequestView::ConvertSelection {
                    requestor: self.window,
                    selection: self.selection,
                    target: atom,
                    property: self.atoms.xclip_out,
                },
                XRequestView::Flush,
            ],
        )
    }

    /// The answer of the owner was read. It is the content, which is written
    /// and ends the paste; or the announcement of a transfer in chunks,
    /// which the deletion of the property lets begin.
    pub open spec fn on_content_reply(self, target: u32, type_: u32, value: Seq<u8>) -> (
        XPasteView,
        Seq<XRequestView>,
    ) {
        if type_ == self.atoms.incr {
            (
                self.at(XPasteStage::AwaitingContent { target, is_incr: true }),
                seq![
                    XRequestView::DeleteProperty {
                        window: self.window,
                        property: self.atoms.xclip_out,
                    },
                    XRequestView::Flush,
                ],
            )
        } else {
            (self.at(XPasteStage::Done), seq![XRequestView::Write { data: value }])
        }
    }

    /// The length of the next chunk is known: a chunk of no bytes ends the
    /// transfer; any other is read, and deleted by the read.
    pub open spec fn on_probe_reply(self, target: u32, bytes_after: u32) -> (
        XPasteView,
        Seq<XRequestView>,
    ) {
        if bytes_after == 0 {
            (
                self.at(XPasteStage::Done),
                seq![
                    XRequestView::DeleteProperty {
                        window: self.window,
                        property: self.atoms.xclip_out,
                    },
                    XRequestView::FlushOutput,
                ],
            )
        } else {
            (
                self.at(XPasteStage::ReadingChunk { target }),
                seq![self.read(true, self.atoms.xclip_out, ATOM_NONE, bytes_after)],
            )
        }
    }

    /// A chunk was read: it is written where it has the type asked for, and
    /// the next one is awaited.
    pub open spec fn on_chunk_reply(self, target: u32, type_: u32, value: Seq<u8>) -> (
        XPasteView,
        Seq<XRequestView>,
    ) {
        (
            self.at(XPasteStage::AwaitingContent { target, is_incr: true }),
            if type_ == target {
                seq![XRequestView::Write { data: value }]
            } else {
                Seq::empty()
            },
        )
    }

    /// The reply to a read of a property, by the stage that asked for it.
    pub open spec fn on_property_reply(
        self,
        type_: u32,
        format: u8,
        bytes_after: u32,
        value: Seq<u8>,
        big_endian: bool,
    ) -> (XPasteView, Seq<XRequestView>) {
        match self.stage {
            XPasteStage::ReadingTargets => self.on_targets_reply(
                type_,
                parsed_items(format, value, big_endian),
            ),
            XPasteStage::ReadingContent { target, is_incr } => self.on_content_reply(
                target,
                type_,
                value,
            ),
            XPasteStage::ProbingChunk { target } => self.on_probe_reply(target, bytes_after),
            XPasteStage::ReadingChunk { target } => self.on_chunk_reply(target, type_, value),
            _ => (self, Seq::empty()),
        }
    }

    /// The state after an event, and the requests that answer it, on a
    /// machine of the given byte order.
    ///
    /// A paste that is over answers nothing. A reply is taken at the stage
    /// that asked for it, and passed over at any other. An event of the
    /// server that is neither the notice of a conversion nor the change of a
    /// property ends the paste.
    pub open spec fn step(self, event: XEvent, big_endian: bool) -> (XPasteView, Seq<XRequestView>) {
        if self.over() {
            (self, Seq::empty())
        } else {
            match event {
                XEvent::SelectionNotify { selection, property } => self.on_selection_notify(
                    selection,
                ),
                XEvent::PropertyNotify { window, atom, state } => self.on_property_notify(
                    atom,
                    state,
                ),
                XEvent::PropertyReply {
                    type_,
                    format,
                    bytes_after,
                    value,
                } => self.on_property_reply(type_, format, bytes_after, value@, big_endian),
                XEvent::AtomNames { names } => if self.stage is NamingTargets {
                    self.on_atom_names(names.deep_view())
                } else {
                    (self, Seq::empty())
                },
                XEvent::AtomInterned { atom } => if self.stage is InterningTarget {
                    self.on_atom_interned(atom)
                } else {
                    (self, Seq::empty())
                },
                _ => (self.at(XPasteStage::Done), Seq::empty()),
            }
        }
    }
}

impl View for XPasteState {
    type V = XPasteView;

    closed spec fn view(&self) -> XPasteView {
        XPasteView {
            list_types_only: self.config.list_types_only,
            use_primary: self.config.use_primary,
            expected_mime_type: self.config.expected_mime_type@,
            atoms: self.atoms,
            window: self.window,
            selection: self.selection,
            stage: self.stage,
        }
    }
}

/// `GetPropertyReply::value32` of x11rb, on a reply with this format and
/// value: nothing where the format is not 32; else the 32-bit items that the
/// value holds, four bytes each, in the byte order of the machine.
#[verifier::external_body]
fn reply_value32(format: u8, value: Vec<u8>) -> (r: Option<Vec<u32>>)
    ensures
        format != FORMAT_32 ==> r is None,
        format == FORMAT_32 ==> r is Some && (r->0@ == items32(value@, false) || r->0@ == items32(
            value@,
            true,
        )),
{
    let reply = x11rb::protocol::xproto::GetPropertyReply {
        format,
        sequence: 0,
        length: 0,
        type_: 0,
        bytes_after: 0,
        value_len: 0,
        value,
    };
    reply.value32().map(Iterator::collect)
}

/// The names that the server gave, in their order.
pub fn targets_to_strings(names: &Vec<Option<String>>) -> (r: Vec<String>)
    ensures
        r.deep_view() == present(names.deep_view()),
{
    let ghost all = names.deep_view();
    let mut ret: Vec<String> = Vec::new();
    let mut i: usize = 0;
    while i < names.len()
        invariant
            i <= names.len(),
            all == names.deep_view(),
            ret.deep_view() == present(all.take(i as int)),
        decreases names.len() - i,
    {
        proof {
            let next = all.take(i + 1);
            assert(next.drop_last() =~= all.take(i as int));
        }
        match &names[i] {
            Some(name) => {
                ret.push(name.clone());
            },
            None => {},
        }
        i += 1;
    }
    assert(all.take(names.len() as int) =~= all);
    ret
}

/// Starts a paste: its state, and the requests that ask the owner of the
/// selection, the primary one or the clipboard, for its list of targets.
pub fn paste_x(config: PasteConfig, client: &XClient) -> (r: (XPasteState, Vec<XRequest>))
    ensures
        r.0@ == (XPasteView {
            list_types_only: config.list_types_only,
            use_primary: config.use_primary,
            expected_mime_type: config.expected_mime_type@,
            atoms: client.atoms,
            window: client.win_id,
            selection: if config.use_primary {
                client.atoms.primary
            } else {
                client.atoms.clipboard
            },
            stage: XPasteStage::AwaitingTargets,
        }),
        r.1.deep_view() == seq![
            XRequestView::WatchProperties { window: client.win_id },
            XRequestView::ConvertSelection {
                requestor: client.win_id,
                selection: r.0@.selection,
                target: client.atoms.targets,
                property: client.atoms.xclip_targets,
            },
            XRequestView::Flush,
        ],
{
    let selection = if config.use_primary {
        client.atoms.primary
    } else {
        client.atoms.clipboard
    };
    let mut requests: Vec<XRequest> = Vec::new();
    requests.push(XRequest::WatchProperties { window: client.win_id });
    requests.push(
        XRequest::ConvertSelection {
            requestor: client.win_id,
            selection,
            target: client.atoms.targets,
            property: client.atoms.xclip_targets,
        },
    );
    requests.push(XRequest::Flush);
    let state = XPasteState {
        config,
        atoms: client.atoms,
        window: client.win_id,
        selection,
        stage: XPasteStage::AwaitingTargets,
    };
    (state, requests)
}

fn no_requests() -> (r: Vec<XRequest>)
    ensures
        r.deep_view() == Seq::<XRequestView>::empty(),
{
    let r: Vec<XRequest> = Vec::new();
    r
}

fn one_request(request: XRequest) -> (r: Vec<XRequest>)
    ensures
        r.deep_view() == seq![request@],
{
    let mut r: Vec<XRequest> = Vec::new();
    r.push(request);
    r
}

fn two_requests(first: XRequest, second: XRequest) -> (r: Vec<XRequest>)
    ensures
        r.deep_view() == seq![first@, second@],
{
    let mut r: Vec<XRequest> = Vec::new();
    r.push(first);
    r.push(second);
    r
}

impl XPasteState {
    /// Where the paste stands.
    pub fn stage(&self) -> (r: XPasteStage)
        ensures
            r == self@.stage,
    {
        self.stage
    }

    /// Whether the paste is over, well or not.
    pub fn over(&self) -> (r: bool)
        ensures
            r == self@.over(),
    {
        match self.stage {
            XPasteStage::Done => true,
            XPasteStage::Failed(_) => true,
            _ => false,
        }
    }

    fn read(&self, delete: bool, property: u32, type_: u32, long_length: u32) -> (r: XRequest)
        ensures
            r@ == self@.read(delete, property, type_, long_length),
    {
        XRequest::GetProperty {
            delete,
            window: self.window,
            property,
            type_,
            long_offset: 0,
            long_length,
        }
    }

    fn on_selection_notify(&mut self, selection: u32) -> (r: Vec<XRequest>)
        ensures
            final(self)@ == old(self)@.on_selection_notify(selection).0,
            r.deep_view() == old(self)@.on_selection_notify(selection).1,
    {
        if selection != self.selection {
            return no_requests();
        }
        match self.stage {
            XPasteStage::AwaitingTargets => {
                let r = one_request(
                    self.read(false, self.atoms.xclip_targets, self.atoms.atom, READ_LENGTH),
                );
                self.stage = XPasteStage::ReadingTargets;
                r
            },
            XPasteStage::AwaitingContent { target, is_incr } => {
                let r = one_request(self.read(false, self.atoms.xclip_out, target, READ_LENGTH));
                self.stage = XPasteStage::ReadingContent { target, is_incr };
                r
            },
            _ => no_requests(),
        }
    }

    fn on_property_notify(&mut self, atom: u32, state: PropertyState) -> (r: Vec<XRequest>)
        ensures
            final(self)@ == old(self)@.on_property_notify(atom, state).0,
            r.deep_view() == old(self)@.on_property_notify(atom, state).1,
    {
        match self.stage {
            XPasteStage::AwaitingContent { target, is_incr } => {
                let new_value = match state {
                    PropertyState::NewValue => true,
                    PropertyState::Delete => false,
                };
                if is_incr && new_value && atom == self.atoms.xclip_out {
                    let r = one_request(self.read(false, self.atoms.xclip_out, ATOM_NONE, 0));
                    self.stage = XPasteStage::ProbingChunk { target };
                    r
                } else {
                    no_requests()
                }
            },
            _ => no_requests(),
        }
    }

    /// Takes the list of targets as it was read: `type_` is the type of the
    /// property, `atoms` its 32-bit items where it held such.
    pub fn on_targets_reply(&mut self, type_: u32, atoms: Option<Vec<u32>>) -> (r: Vec<XRequest>)
        ensures
            final(self)@ == old(self)@.on_targets_reply(type_, atoms.deep_view()).0,
            r.deep_view() == old(self)@.on_targets_reply(type_, atoms.deep_view()).1,
    {
        if type_ == self.atoms.incr {
            self.stage = XPasteStage::Failed(ClipError::ProtocolViolation);
            return no_requests();
        }
        match atoms {
            Some(list) => {
                assert(list.deep_view() =~= list@);
                if list.len() > 0 {
                    self.stage = XPasteStage::NamingTargets;
                    one_request(XRequest::GetAtomNames { atoms: list })
                } else {
                    self.stage = XPasteStage::Done;
                    no_requests()
                }
            },
            None => {
                self.stage = XPasteStage::Done;
                no_requests()
            },
        }
    }

    fn on_atom_names(&mut self, names: &Vec<Option<String>>) -> (r: Vec<XRequest>)
        ensures
            final(self)@ == old(self)@.on_atom_names(names.deep_view()).0,
            r.deep_view() == old(self)@.on_atom_names(names.deep_view()).1,
    {
        let mime_types = targets_to_strings(names);
        if self.config.list_types_only {
            let mut r: Vec<XRequest> = Vec::new();
            let mut i: usize = 0;
            while i < mime_types.len()
                invariant
                    i <= mime_types.len(),
                    r.deep_view() == lines_of(mime_types.deep_view().take(i as int)),
                decreases mime_types.len() - i,
            {
                let ghost before = r.deep_view();
                r.push(XRequest::WriteLine { line: mime_types[i].clone() });
                assert(r.deep_view() =~= before.push(
                    XRequestView::WriteLine { line: mime_types@[i as int]@ },
                ));
                i += 1;
            }
            self.stage = XPasteStage::Done;
            return r;
        }
        match choose_paste_type(self.config.expected_mime_type.as_str(), &mime_types) {
            Ok(Some(name)) => {
                self.stage = XPasteStage::InterningTarget;
                one_request(XRequest::InternAtom { name })
            },
            Ok(None) => {
                self.stage = XPasteStage::Done;
                no_requests()
            },
            Err(_) => {
                self.stage = XPasteStage::Failed(ClipError::NoMatchingType);
                no_requests()
            },
        }
    }

    fn on_atom_interned(&mut self, atom: u32) -> (r: Vec<XRequest>)
        ensures
            final(self)@ == old(self)@.on_atom_interned(atom).0,
            r.deep_view() == old(self)@.on_atom_interned(atom).1,
    {
        self.stage = XPasteStage::AwaitingContent { target: atom, is_incr: false };
        two_requests(
            XRequest::ConvertSelection {
                requestor: self.window,
                selection: self.selection,
                target: atom,
                property: self.atoms.xclip_out,
            },
            XRequest::Flush,
        )
    }

    fn on_content_reply(&mut self, target: u32, type_: u32, value: Vec<u8>) -> (r: Vec<XRequest>)
        ensures
            final(self)@ == old(self)@.on_content_reply(target, type_, value@).0,
            r.deep_view() == old(self)@.on_content_reply(target, type_, value@).1,
    {
        if type_ == self.atoms.incr {
            self.stage = XPasteStage::AwaitingContent { target, is_incr: true };
            two_requests(
                XRequest::DeleteProperty { window: self.window, property: self.atoms.xclip_out },
                XRequest::Flush,
            )
        } else {
            self.stage = XPasteStage::Done;
            one_request(XRequest::Write { data: value })
        }
    }

    fn on_probe_reply(&mut self, target: u32, bytes_after: u32) -> (r: Vec<XRequest>)
        ensures
            final(self)@ == old(self)@.on_probe_reply(target, bytes_after).0,
            r.deep_view() == old(self)@.on_probe_reply(target, bytes_after).1,
    {
        if bytes_after == 0 {
            self.stage = XPasteStage::Done;
            two_requests(
                XRequest::DeleteProperty { window: self.window, property: self.atoms.xclip_out },
                XRequest::FlushOutput,
            )
        } else {
            let r = one_request(self.read(true, self.atoms.xclip_out, ATOM_NONE, bytes_after));
            self.stage = XPasteStage::ReadingChunk { target };
            r
        }
    }

    fn on_chunk_reply(&mut self, target: u32, type_: u32, value: Vec<u8>) -> (r: Vec<XRequest>)
        ensures
            final(self)@ == old(self)@.on_chunk_reply(target, type_, value@).0,
            r.deep_view() == old(self)@.on_chunk_reply(target, type_, value@).1,
    {
        self.stage = XPasteStage::AwaitingContent { target, is_incr: true };
        if type_ == target {
            one_request(XRequest::Write { data: value })
        } else {
            no_requests()
        }
    }

    fn on_property_reply(
        &mut self,
        type_: u32,
        format: u8,
        bytes_after: u32,
        value: Vec<u8>,
    ) -> (r: Vec<XRequest>)
        ensures
            exists|big_endian: bool|
                {
                    &&& final(self)@ == (#[trigger] old(self)@.on_property_reply(
                        type_,
                        format,
                        bytes_after,
                        value@,
                        big_endian,
                    )).0
                    &&& r.deep_view() == old(self)@.on_property_reply(
                        type_,
                        format,
                        bytes_after,
                        value@,
                        big_endian,
                    ).1
                },
    {
        let ghost before = self@;
        match self.stage {
            XPasteStage::ReadingTargets => {
                let atoms = reply_value32(format, value);
                let ghost big_endian = format == FORMAT_32 && atoms->0@ == items32(value@, true);
                assert(atoms.deep_view() == parsed_items(format, value@, big_endian));
                let r = self.on_targets_reply(type_, atoms);
                assert(self@ == before.on_property_reply(
                    type_,
                    format,
                    bytes_after,
                    value@,
                    big_endian,
                ).0);
                r
            },
            XPasteStage::ReadingContent { target, is_incr } => {
                let r = self.on_content_reply(target, type_, value);
                assert(self@ == before.on_property_reply(
                    type_,
                    format,
                    bytes_after,
                    value@,
                    false,
                ).0);
                r
            },
            XPasteStage::ProbingChunk { target } => {
                let r = self.on_probe_reply(target, bytes_after);
                assert(self@ == before.on_property_reply(
                    type_,
                    format,
                    bytes_after,
                    value@,
                    false,
                ).0);
                r
            },
            XPasteStage::ReadingChunk { target } => {
                let r = self.on_chunk_reply(target, type_, value);
                assert(self@ == before.on_property_reply(
                    type_,
                    format,
                    bytes_after,
                    value@,
                    false,
                ).0);
                r
            },
            _ => {
                let r = no_requests();
                assert(self@ == before.on_property_reply(
                    type_,
                    format,
                    bytes_after,
                    value@,
                    false,
                ).0);
                r
            },
        }
    }

    /// Answers an event of the server, or the reply to a request.
    ///
    /// What the answer is depends on the byte order of the machine only
    /// where the event is the list of targets as it was read.
    pub fn handle_event(&mut self, event: XEvent) -> (r: Vec<XRequest>)
        ensures
            exists|big_endian: bool|
                {
                    &&& final(self)@ == (#[trigger] old(self)@.step(event, big_endian)).0
                    &&& r.deep_view() == old(self)@.step(event, big_endian).1
                },
    {
        let ghost before = self@;
        if self.over() {
            let r = no_requests();
            assert(self@ == before.step(event, false).0);
            return r;
        }
        match event {
            XEvent::SelectionNotify { selection, property } => {
                let r = self.on_selection_notify(selection);
                assert(self@ == before.step(event, false).0);
                r
            },
            XEvent::PropertyNotify { window, atom, state } => {
                let r = self.on_property_notify(atom, state);
                assert(self@ == before.step(event, false).0);
                r
            },
            XEvent::PropertyReply { type_, format, bytes_after, value } => {
                let ghost bytes = value@;
                let r = self.on_property_reply(type_, format, bytes_after, value);
                proof {
                    let big_endian = choose|big_endian: bool|
                        {
                            &&& self@ == (#[trigger] before.on_property_reply(
                                type_,
                                format,
                                bytes_after,
                                bytes,
                                big_endian,
                            )).0
                            &&& r.deep_view() == before.on_property_reply(
                                type_,
                                format,
                                bytes_after,
                                bytes,
                                big_endian,
                            ).1
                        };
                    assert(self@ == before.step(event, big_endian).0);
                }
                r
            },
            XEvent::AtomNames { names } => {
                let r = match self.stage {
                    XPasteStage::NamingTargets => self.on_atom_names(&names),
                    _ => no_requests(),
                };
                assert(self@ == before.step(event, false).0);
                r
            },
            XEvent::AtomInterned { atom } => {
                let r = match self.stage {
                    XPasteStage::InterningTarget => self.on_atom_interned(atom),
                    _ => no_requests(),
                };
                assert(self@ == before.step(event, false).0);
                r
            },
            _ => {
                self.stage = XPasteStage::Done;
                let r = no_requests();
                assert(self@ == before.step(event, false).0);
                r
            },
        }
    }
}

/// An empty clipboard ends a paste well and without output: where the list
/// of targets holds no atom, and where the server names none of its atoms.
pub proof fn lemma_no_targets_end_paste(
    s: XPasteView,
    type_: u32,
    atoms: Option<Seq<u32>>,
    names: Seq<Option<Seq<char>>>,
)
    requires
        type_ != s.atoms.incr,
        atoms matches Some(list) ==> list.len() == 0,
        present(names).len() == 0,
    ensures
        s.on_targets_reply(type_, atoms) == (s.at(XPasteStage::Done), Seq::<XRequestView>::empty()),
        s.on_atom_names(names) == (s.at(XPasteStage::Done), Seq::<XRequestView>::empty()),
{
}

} // verus!
