use richclip::clipboard::x::request::{TransferResult, XRequest};
use richclip::clipboard::x::sender::{get_chunk_size, XSelectionSender};
use std::rc::Rc;

const REQUESTOR: u32 = 0x40_0001;
const SELECTION: u32 = 301;
const TARGET: u32 = 302;
const PROPERTY: u32 = 303;
const INCR: u32 = 304;
const TIME: u32 = 12345;

fn sender(content: &[u8], chunk_size: usize) -> XSelectionSender {
    XSelectionSender::new(
        REQUESTOR,
        SELECTION,
        TARGET,
        PROPERTY,
        TARGET,
        Rc::new(content.to_vec()),
        chunk_size,
    )
}

fn notify() -> XRequest {
    XRequest::SendSelectionNotify {
        time: TIME,
        requestor: REQUESTOR,
        selection: SELECTION,
        target: TARGET,
        property: PROPERTY,
    }
}

fn write(data: &[u8]) -> XRequest {
    XRequest::ChangeProperty8 {
        window: REQUESTOR,
        property: PROPERTY,
        type_: TARGET,
        data: data.to_vec(),
    }
}

#[test]
fn chunk_size_is_a_quarter_of_the_longest_request() {
    assert_eq!(get_chunk_size(262140, 0), 65535);
    assert_eq!(get_chunk_size(16384, 0), 4096);
    assert_eq!(get_chunk_size(7, 0), 1);
}

#[test]
fn a_chunk_holds_at_least_one_byte() {
    assert_eq!(get_chunk_size(3, 0), 1);
    assert_eq!(get_chunk_size(0, 0), 1);
    assert_eq!(get_chunk_size(0, 5), 1);
    assert_eq!(get_chunk_size(8, 5), 2);
    assert_eq!(get_chunk_size(8, 1), 1);
    let writes = run_transfer(b"abc", 0);
    assert_eq!(
        writes,
        vec![(0, b"a".to_vec()), (1, b"b".to_vec()), (2, b"c".to_vec()), (3, Vec::new())]
    );
    let mut s = sender(b"", 0);
    let (result, requests) = s.send(INCR, TIME);
    assert_eq!(result, TransferResult::Done);
    assert_eq!(requests, vec![write(b""), notify(), XRequest::Flush]);
}

#[test]
fn a_smaller_chunk_size_can_be_asked_for() {
    assert_eq!(get_chunk_size(262140, 16), 16);
    assert_eq!(get_chunk_size(262140, 65534), 65534);
    assert_eq!(get_chunk_size(262140, 65535), 65535);
    assert_eq!(get_chunk_size(262140, 65536), 65535);
    assert_eq!(get_chunk_size(262140, usize::MAX), 65535);
}

#[test]
fn short_content_goes_in_one_piece() {
    let mut s = sender(b"hello", 6);
    let (result, requests) = s.send(INCR, TIME);
    assert_eq!(result, TransferResult::Done);
    assert_eq!(requests, vec![write(b"hello"), notify(), XRequest::Flush]);
    assert_eq!(s.offset(), 5);
    assert_eq!(s.requestor(), REQUESTOR);
}

#[test]
fn no_content_goes_in_one_piece() {
    let mut s = sender(b"", 1);
    let (result, requests) = s.send(INCR, TIME);
    assert_eq!(result, TransferResult::Done);
    assert_eq!(requests, vec![write(b""), notify(), XRequest::Flush]);
}

#[test]
fn content_of_a_chunk_size_goes_in_chunks() {
    let mut s = sender(b"hello", 5);
    let (result, requests) = s.send(INCR, TIME);
    assert_eq!(result, TransferResult::Continue);
    assert_eq!(
        requests,
        vec![
            XRequest::WatchProperties { window: REQUESTOR },
            XRequest::ChangeProperty32 {
                window: REQUESTOR,
                property: PROPERTY,
                type_: INCR,
                data: vec![0],
            },
            notify(),
            XRequest::Flush,
        ]
    );
    assert_eq!(s.offset(), 0);
    assert_eq!(s.send(INCR, 0), (TransferResult::Continue, vec![write(b"hello"), XRequest::Flush]));
    assert_eq!(s.offset(), 5);
    assert_eq!(s.send(INCR, 0), (TransferResult::Done, vec![write(b""), XRequest::Flush]));
    assert_eq!(s.offset(), 5);
}

fn run_transfer(content: &[u8], chunk_size: usize) -> Vec<(usize, Vec<u8>)> {
    let mut s = sender(content, chunk_size);
    let (result, _) = s.send(INCR, TIME);
    assert_eq!(result, TransferResult::Continue);
    let mut writes = Vec::new();
    loop {
        let offset = s.offset();
        let (result, requests) = s.send(INCR, 0);
        assert_eq!(requests.len(), 2);
        assert_eq!(requests[1], XRequest::Flush);
        match &requests[0] {
            XRequest::ChangeProperty8 { window, property, type_, data } => {
                assert_eq!((*window, *property, *type_), (REQUESTOR, PROPERTY, TARGET));
                writes.push((offset, data.clone()));
            }
            other => panic!("unexpected request {:?}", other),
        }
        if result == TransferResult::Done {
            return writes;
        }
        assert!(writes.len() <= content.len() + 1);
    }
}

#[test]
fn chunks_have_increasing_offsets_and_bounded_sizes_and_hold_everything() {
    let content: Vec<u8> = (0..1000u32).map(|i| (i % 256) as u8).collect();
    for chunk_size in [1usize, 3, 7, 64, 333, 500, 999, 1000] {
        let writes = run_transfer(&content, chunk_size);
        let mut total = Vec::new();
        for (i, (offset, data)) in writes.iter().enumerate() {
            assert!(data.len() <= chunk_size);
            assert_eq!(*offset, total.len());
            if i + 1 < writes.len() {
                assert!(!data.is_empty());
                assert!(writes[i + 1].0 > *offset);
            } else {
                assert!(data.is_empty());
                assert_eq!(*offset, content.len());
            }
            total.extend_from_slice(data);
        }
        assert_eq!(total, content);
        assert_eq!(writes.len(), (content.len() + chunk_size - 1) / chunk_size + 1);
    }
}

#[test]
fn chunks_of_ten_bytes_by_four() {
    let writes = run_transfer(b"0123456789", 4);
    assert_eq!(
        writes,
        vec![
            (0, b"0123".to_vec()),
            (4, b"4567".to_vec()),
            (8, b"89".to_vec()),
            (10, Vec::new()),
        ]
    );
}

#[test]
fn chunks_of_eight_bytes_by_four() {
    let writes = run_transfer(b"01234567", 4);
    assert_eq!(writes, vec![(0, b"0123".to_vec()), (4, b"4567".to_vec()), (8, Vec::new())]);
}
