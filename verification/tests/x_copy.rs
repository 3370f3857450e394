use richclip::clipboard::x::copy::{copy_x, mime_types_to_targets, XCopyState};
use richclip::clipboard::x::request::{AtomCollection, PropertyState, XClient, XEvent, XRequest};
use richclip::clipboard::CopyConfig;
use richclip::protocol::SourceDataItem;
use std::rc::Rc;

const ATOMS: AtomCollection = AtomCollection {
    primary: 1,
    clipboard: 201,
    targets: 202,
    xclip_targets: 203,
    xclip_out: 204,
    incr: 205,
    atom: 4,
};
const WINDOW: u32 = 0x20_0000;
const PEER: u32 = 0x40_0001;
const OTHER_PEER: u32 = 0x60_0001;
const PROPERTY: u32 = 310;
const PLAIN: u32 = 320;
const HTML: u32 = 321;
const UNKNOWN: u32 = 399;

fn client(max_request_bytes: usize) -> XClient {
    XClient { win_id: WINDOW, atoms: ATOMS, max_request_bytes }
}

fn item(names: &[&str], content: &[u8]) -> SourceDataItem {
    SourceDataItem {
        mime_type: names.iter().map(|s| s.to_string()).collect(),
        content: Rc::new(content.to_vec()),
    }
}

fn payload() -> Vec<SourceDataItem> {
    vec![item(&["text/plain", "TEXT"], b"0123456789"), item(&["text/html"], b"<b>hi</b>")]
}

fn start(max_request_bytes: usize, use_primary: bool) -> (XCopyState, Vec<XRequest>) {
    let config = CopyConfig { use_primary, source_data: payload(), x_chunk_size: 0 };
    copy_x(config, &client(max_request_bytes), &vec![Some(PLAIN), None, Some(HTML)])
}

fn request(requestor: u32, target: u32, name: Option<&str>, time: u32) -> XEvent {
    XEvent::SelectionRequest {
        time,
        requestor,
        selection: ATOMS.clipboard,
        target,
        property: PROPERTY,
        target_name: name.map(|s| s.to_string()),
    }
}

fn notify(requestor: u32, target: u32, time: u32) -> XRequest {
    XRequest::SendSelectionNotify {
        time,
        requestor,
        selection: ATOMS.clipboard,
        target,
        property: PROPERTY,
    }
}

fn write(requestor: u32, target: u32, data: &[u8]) -> XRequest {
    XRequest::ChangeProperty8 {
        window: requestor,
        property: PROPERTY,
        type_: target,
        data: data.to_vec(),
    }
}

fn deleted(window: u32) -> XEvent {
    XEvent::PropertyNotify { window, atom: PROPERTY, state: PropertyState::Delete }
}

#[test]
fn only_the_atoms_that_are_there_become_targets() {
    assert_eq!(mime_types_to_targets(&vec![None, Some(7), None, Some(5), Some(7)]), vec![7, 5, 7]);
    assert!(mime_types_to_targets(&vec![None, None]).is_empty());
    assert!(mime_types_to_targets(&Vec::new()).is_empty());
}

#[test]
fn a_copy_takes_the_clipboard_over() {
    let (state, requests) = start(400, false);
    assert_eq!(
        requests,
        vec![
            XRequest::SetSelectionOwner { owner: WINDOW, selection: ATOMS.clipboard },
            XRequest::Flush,
        ]
    );
    assert!(!state.finished());
    assert_eq!(state.ongoing(), 0);
}

#[test]
fn a_copy_takes_the_primary_selection_over() {
    let (_, requests) = start(400, true);
    assert_eq!(
        requests,
        vec![
            XRequest::SetSelectionOwner { owner: WINDOW, selection: ATOMS.primary },
            XRequest::Flush,
        ]
    );
}

#[test]
fn the_list_of_targets_starts_with_itself() {
    let (mut state, _) = start(400, false);
    let requests = state.handle_event(request(PEER, ATOMS.targets, Some("TARGETS"), 77));
    assert_eq!(
        requests,
        vec![
            XRequest::ChangeProperty32 {
                window: PEER,
                property: PROPERTY,
                type_: ATOMS.atom,
                data: vec![ATOMS.targets, PLAIN, HTML],
            },
            notify(PEER, ATOMS.targets, 77),
            XRequest::Flush,
        ]
    );
    assert_eq!(state.ongoing(), 0);
}

#[test]
fn short_content_is_served_at_once() {
    let (mut state, _) = start(400, false);
    let requests = state.handle_event(request(PEER, HTML, Some("TEXT/HTML"), 5));
    assert_eq!(requests, vec![write(PEER, HTML, b"<b>hi</b>"), notify(PEER, HTML, 5), XRequest::Flush]);
    assert_eq!(state.ongoing(), 0);
    let requests = state.handle_event(request(PEER, PLAIN, Some("UTF8_STRING"), 6));
    assert_eq!(requests, vec![write(PEER, PLAIN, b"0123456789"), notify(PEER, PLAIN, 6), XRequest::Flush]);
}

#[test]
fn an_unknown_target_gets_an_empty_reply_and_the_copy_goes_on() {
    let (mut state, _) = start(400, false);
    let requests = state.handle_event(request(PEER, UNKNOWN, Some("image/png"), 9));
    assert_eq!(requests, vec![write(PEER, UNKNOWN, b""), notify(PEER, UNKNOWN, 9), XRequest::Flush]);
    assert!(!state.finished());
    assert_eq!(state.ongoing(), 0);
    let requests = state.handle_event(request(PEER, UNKNOWN, None, 10));
    assert_eq!(requests, vec![write(PEER, UNKNOWN, b""), notify(PEER, UNKNOWN, 10), XRequest::Flush]);
    assert!(!state.finished());
    let requests = state.handle_event(request(PEER, HTML, Some("text/html"), 11));
    assert_eq!(requests, vec![write(PEER, HTML, b"<b>hi</b>"), notify(PEER, HTML, 11), XRequest::Flush]);
}

#[test]
fn long_content_is_served_in_chunks_to_each_peer() {
    // Chunks of four bytes.
    let (mut state, _) = start(16, false);
    let begin = |peer: u32, time: u32| {
        vec![
            XRequest::WatchProperties { window: peer },
            XRequest::ChangeProperty32 {
                window: peer,
                property: PROPERTY,
                type_: ATOMS.incr,
                data: vec![0],
            },
            notify(peer, PLAIN, time),
            XRequest::Flush,
        ]
    };
    assert_eq!(state.handle_event(request(PEER, PLAIN, Some("text/plain"), 1)), begin(PEER, 1));
    assert_eq!(state.ongoing(), 1);
    assert_eq!(state.handle_event(deleted(PEER)), vec![write(PEER, PLAIN, b"0123"), XRequest::Flush]);
    assert_eq!(state.handle_event(request(OTHER_PEER, PLAIN, Some("TEXT"), 2)), begin(OTHER_PEER, 2));
    assert_eq!(state.ongoing(), 2);
    assert_eq!(state.handle_event(deleted(PEER)), vec![write(PEER, PLAIN, b"4567"), XRequest::Flush]);
    assert_eq!(
        state.handle_event(deleted(OTHER_PEER)),
        vec![write(OTHER_PEER, PLAIN, b"0123"), XRequest::Flush]
    );
    assert_eq!(state.handle_event(deleted(PEER)), vec![write(PEER, PLAIN, b"89"), XRequest::Flush]);
    assert_eq!(state.ongoing(), 2);
    assert_eq!(state.handle_event(deleted(PEER)), vec![write(PEER, PLAIN, b""), XRequest::Flush]);
    assert_eq!(state.ongoing(), 1);
    assert!(state.handle_event(deleted(PEER)).is_empty());
    assert_eq!(
        state.handle_event(deleted(OTHER_PEER)),
        vec![write(OTHER_PEER, PLAIN, b"4567"), XRequest::Flush]
    );
    assert!(!state.finished());
}

#[test]
fn a_new_value_does_not_move_a_transfer() {
    let (mut state, _) = start(16, false);
    state.handle_event(request(PEER, PLAIN, Some("text/plain"), 1));
    let event = XEvent::PropertyNotify { window: PEER, atom: PROPERTY, state: PropertyState::NewValue };
    assert!(state.handle_event(event).is_empty());
    assert_eq!(state.ongoing(), 1);
    assert_eq!(state.handle_event(deleted(PEER)), vec![write(PEER, PLAIN, b"0123"), XRequest::Flush]);
}

#[test]
fn the_chunk_size_asked_for_is_used() {
    let config = CopyConfig { use_primary: false, source_data: payload(), x_chunk_size: 9 };
    let (mut state, _) = copy_x(config, &client(1 << 20), &Vec::new());
    let requests = state.handle_event(request(PEER, HTML, Some("text/html"), 3));
    assert_eq!(requests.len(), 4);
    assert_eq!(state.ongoing(), 1);
    assert_eq!(state.handle_event(deleted(PEER)), vec![write(PEER, HTML, b"<b>hi</b>"), XRequest::Flush]);
    assert_eq!(state.handle_event(deleted(PEER)), vec![write(PEER, HTML, b""), XRequest::Flush]);
    assert_eq!(state.ongoing(), 0);
}

#[test]
fn the_loss_of_the_selection_ends_the_copy() {
    let (mut state, _) = start(400, false);
    assert!(state.handle_event(XEvent::Other).is_empty());
    assert!(!state.finished());
    assert!(state.handle_event(XEvent::SelectionClear).is_empty());
    assert!(state.finished());
    assert!(state.handle_event(request(PEER, HTML, Some("text/html"), 5)).is_empty());
    assert!(state.finished());
}

#[test]
fn an_unknown_target_gets_an_empty_reply_on_any_connection() {
    for max_request_bytes in [0usize, 3, 4] {
        let (mut state, _) = start(max_request_bytes, false);
        let requests = state.handle_event(request(PEER, UNKNOWN, Some("image/png"), 9));
        assert_eq!(requests, vec![write(PEER, UNKNOWN, b""), notify(PEER, UNKNOWN, 9), XRequest::Flush]);
        assert!(!state.finished());
        assert_eq!(state.ongoing(), 0);
    }
}
