//! The requests that the machines make, and the events that they answer.

use vstd::prelude::*;

verus! {

/// The atom `None`: no property, no type, or any type.
pub const ATOM_NONE: u32 = 0;

/// The format of a property that holds 32-bit items.
pub const FORMAT_32: u8 = 32;

/// The atoms that the engine goes by, as the server interned them.
#[derive(Debug, Clone, Copy, PartialEq, Eq)]
pub struct AtomCollection {
    pub primary: u32,
    pub clipboard: u32,
    pub targets: u32,
    pub xclip_targets: u32,
    pub xclip_out: u32,
    pub incr: u32,
    pub atom: u32,
}

/// What the engine knows of its connection.
#[derive(Debug, Clone, Copy, PartialEq, Eq)]
pub struct XClient {
    /// The window of the engine.
    pub win_id: u32,
    /// The atoms that the server interned for the engine.
    pub atoms: AtomCollection,
    /// The length in bytes of the longest request that the server takes.
    pub max_request_bytes: usize,
}

/// Whether a transfer needs another step.
#[derive(Debug, Clone, Copy, PartialEq, Eq)]
pub enum TransferResult {
    Done,
    Continue,
}

/// What happened to a property.
#[derive(Debug, Clone, Copy, PartialEq, Eq)]
pub enum PropertyState {
    NewValue,
    Delete,
}

/// A request to the server, or a write to the output of a paste.
#[allow(inconsistent_fields)]
#[derive(Debug, PartialEq, Eq)]
pub enum XRequest {
    /// Own the selection, as of now.
    SetSelectionOwner { owner: u32, selection: u32 },
    /// Ask the owner of the selection to store it, as `target`, in `property`.
    ConvertSelection { requestor: u32, selection: u32, target: u32, property: u32 },
    /// Ask for the property events of the window.
    WatchProperties { window: u32 },
    /// Replace the property by bytes.
    ChangeProperty8 { window: u32, property: u32, type_: u32, data: Vec<u8> },
    /// Replace the property by 32-bit items.
    ChangeProperty32 { window: u32, property: u32, type_: u32, data: Vec<u32> },
    /// Tell the requestor that its conversion was served.
    SendSelectionNotify { time: u32, requestor: u32, selection: u32, target: u32, property: u32 },
    DeleteProperty { window: u32, property: u32 },
    /// Read the property; the reply comes back as `XEvent::PropertyReply`.
    GetProperty {
        delete: bool,
        window: u32,
        property: u32,
        type_: u32,
        long_offset: u32,
        long_length: u32,
    },
    /// Ask for the name of each atom; the names come back as
    /// `XEvent::AtomNames`, one entry for each atom, in their order.
    GetAtomNames { atoms: Vec<u32> },
    /// Intern the name; the atom comes back as `XEvent::AtomInterned`.
    InternAtom { name: String },
    /// Send what is buffered.
    Flush,
    /// Write the bytes to the output.
    Write { data: Vec<u8> },
    /// Write the line and a line break to the output.
    WriteLine { line: String },
    /// Flush the output.
    FlushOutput,
}

/// A request as contracts see it.
#[allow(inconsistent_fields)]
pub enum XRequestView {
    SetSelectionOwner { owner: u32, selection: u32 },
    ConvertSelection { requestor: u32, selection: u32, target: u32, property: u32 },
    WatchProperties { window: u32 },
    ChangeProperty8 { window: u32, property: u32, type_: u32, data: Seq<u8> },
    ChangeProperty32 { window: u32, property: u32, type_: u32, data: Seq<u32> },
    SendSelectionNotify { time: u32, requestor: u32, selection: u32, target: u32, property: u32 },
    DeleteProperty { window: u32, property: u32 },
    GetProperty {
        delete: bool,
        window: u32,
        property: u32,
        type_: u32,
        long_offset: u32,
        long_length: u32,
    },
    GetAtomNames { atoms: Seq<u32> },
    InternAtom { name: Seq<char> },
    Flush,
    Write { data: Seq<u8> },
    WriteLine { line: Seq<char> },
    FlushOutput,
}

impl View for XRequest {
    type V = XRequestView;

    open spec fn view(&self) -> XRequestView {
        match *self {
            XRequest::SetSelectionOwner { owner, selection } => XRequestView::SetSelectionOwner {
                owner,
                selection,
            },
            XRequest::ConvertSelection {
                requestor,
                selection,
                target,
                property,
            } => XRequestView::ConvertSelection { requestor, selection, target, property },
            XRequest::WatchProperties { window } => XRequestView::WatchProperties { window },
            XRequest::ChangeProperty8 {
                window,
                property,
                type_,
                data,
            } => XRequestView::ChangeProperty8 { window, property, type_, data: data@ },
            XRequest::ChangeProperty32 {
                window,
                property,
                type_,
                data,
            } => XRequestView::ChangeProperty32 { window, property, type_, data: data@ },
            XRequest::SendSelectionNotify {
                time,
                requestor,
                selection,
                target,
                property,
            } => XRequestView::SendSelectionNotify { time, requestor, selection, target, property },
            XRequest::DeleteProperty { window, property } => XRequestView::DeleteProperty {
                window,
                property,
            },
            XRequest::GetProperty {
                delete,
                window,
                property,
                type_,
                long_offset,
                long_length,
            } => XRequestView::GetProperty {
                delete,
                window,
                property,
                type_,
                long_offset,
                long_length,
            },
            XRequest::GetAtomNames { atoms } => XRequestView::GetAtomNames { atoms: atoms@ },
            XRequest::InternAtom { name } => XRequestView::InternAtom { name: name@ },
            XRequest::Flush => XRequestView::Flush,
            XRequest::Write { data } => XRequestView::Write { data: data@ },
            XRequest::WriteLine { line } => XRequestView::WriteLine { line: line@ },
            XRequest::FlushOutput => XRequestView::FlushOutput,
        }
    }
}

impl DeepView for XRequest {
    type V = XRequestView;

    open spec fn deep_view(&self) -> XRequestView {
        self@
    }
}

/// An event of the server, or the reply to a request of a machine.
#[derive(Debug, PartialEq, Eq)]
pub enum XEvent {
    /// A peer asks for the selection. `target_name` is the name of the atom
    /// `target`, where the server gave one.
    SelectionRequest {
        time: u32,
        requestor: u32,
        selection: u32,
        target: u32,
        property: u32,
        target_name: Option<String>,
    },
    /// The owner of the selection served, or refused, a conversion.
    SelectionNotify { selection: u32, property: u32 },
    /// A property of a window changed.
    PropertyNotify { window: u32, atom: u32, state: PropertyState },
    /// The selection has another owner now.
    SelectionClear,
    /// Any other event of the server.
    Other,
    /// The reply to `XRequest::GetProperty`.
    PropertyReply { type_: u32, format: u8, bytes_after: u32, value: Vec<u8> },
    /// The reply to `XRequest::GetAtomNames`: for each atom its name, or
    /// nothing where the server gave none.
    AtomNames { names: Vec<Option<String>> },
    /// The reply to `XRequest::InternAtom`.
    AtomInterned { atom: u32 },
}

/// The entries that are there, in their order.
pub open spec fn present<T>(entries: Seq<Option<T>>) -> Seq<T>
    decreases entries.len(),
{
    if entries.len() == 0 {
        Seq::empty()
    } else {
        match entries.last() {
            Some(entry) => present(entries.drop_last()).push(entry),
            None => present(entries.drop_last()),
        }
    }
}

} // verus!
