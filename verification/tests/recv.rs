use richclip::protocol::recv::{TAG_CONTENT, TAG_MIME};
use richclip::protocol::{
    receive_data, receive_data_bulk, DecodeError, SourceDataItem, PROTOCOL_VER,
};
use std::rc::Rc;

fn record(tag: u8, body: &[u8]) -> Vec<u8> {
    let mut out = vec![tag];
    out.extend_from_slice(&(body.len() as u32).to_be_bytes());
    out.extend_from_slice(body);
    out
}

fn encode(items: &[SourceDataItem]) -> Vec<u8> {
    let mut out = vec![PROTOCOL_VER];
    for item in items {
        for name in &item.mime_type {
            out.extend(record(TAG_MIME, name.as_bytes()));
        }
        out.extend(record(TAG_CONTENT, &item.content));
    }
    out
}

fn item(names: &[&str], content: &[u8]) -> SourceDataItem {
    SourceDataItem {
        mime_type: names.iter().map(|s| s.to_string()).collect(),
        content: Rc::new(content.to_vec()),
    }
}

fn same(a: &[SourceDataItem], b: &[SourceDataItem]) -> bool {
    a.len() == b.len()
        && a.iter()
            .zip(b)
            .all(|(x, y)| x.mime_type == y.mime_type && x.content == y.content)
}

fn error_of(input: &[u8]) -> DecodeError {
    match receive_data_bulk(input) {
        Ok(_) => panic!("the stream was accepted"),
        Err(e) => e,
    }
}

#[test]
fn the_tags_are_letters() {
    assert_eq!(TAG_MIME, b'M');
    assert_eq!(TAG_CONTENT, b'C');
}

#[test]
fn decoding_an_encoded_payload_gives_it_back() {
    let long: Vec<u8> = (0..70_000u32).map(|i| (i % 251) as u8).collect();
    let items = vec![
        item(&["text/plain", "TEXT", "STRING"], b"hello"),
        item(&[], b""),
        item(&["image/png"], &long),
        item(&["\u{e9}t\u{e9}/\u{1f600}"], &[0, 1, 2, 0xff]),
        item(&[""], b"named by nothing"),
    ];
    let decoded = receive_data_bulk(&encode(&items)).unwrap();
    assert!(same(&decoded, &items));
}

#[test]
fn a_stream_of_no_records_is_an_empty_payload() {
    let decoded = receive_data_bulk(&[PROTOCOL_VER]).unwrap();
    assert!(decoded.is_empty());
}

#[test]
fn the_length_is_read_most_significant_byte_first() {
    let body = vec![7u8; 0x0102];
    let mut input = vec![PROTOCOL_VER, b'C', 0, 0, 1, 2];
    input.extend_from_slice(&body);
    let decoded = receive_data_bulk(&input).unwrap();
    assert_eq!(decoded.len(), 1);
    assert_eq!(*decoded[0].content, body);
    input.pop();
    assert_eq!(error_of(&input), DecodeError::Truncated);
}

#[test]
fn names_gather_until_their_content() {
    let input = [
        record(b'M', b"a"),
        record(b'M', b"b"),
        record(b'C', b"1"),
        record(b'C', b"2"),
        record(b'M', b"c"),
        record(b'C', b"3"),
    ]
    .concat();
    let input = [vec![PROTOCOL_VER], input].concat();
    let decoded = receive_data_bulk(&input).unwrap();
    assert!(same(&decoded, &[item(&["a", "b"], b"1"), item(&[], b"2"), item(&["c"], b"3")]));
}

#[test]
fn names_without_content_are_dropped() {
    let input = [vec![PROTOCOL_VER], record(b'C', b"x"), record(b'M', b"late")].concat();
    let decoded = receive_data_bulk(&input).unwrap();
    assert!(same(&decoded, &[item(&[], b"x")]));
}

#[test]
fn another_version_is_refused() {
    assert_eq!(error_of(&[PROTOCOL_VER + 1]), DecodeError::UnsupportedVersion);
    let input = [vec![0x20], record(b'C', b"x")].concat();
    assert_eq!(error_of(&input), DecodeError::UnsupportedVersion);
}

#[test]
fn a_stream_that_ends_early_is_refused() {
    assert_eq!(error_of(&[]), DecodeError::Truncated);
    assert_eq!(error_of(&[PROTOCOL_VER, b'M']), DecodeError::Truncated);
    assert_eq!(error_of(&[PROTOCOL_VER, b'C', 0, 0, 0]), DecodeError::Truncated);
    assert_eq!(error_of(&[PROTOCOL_VER, b'C', 0, 0, 0, 1]), DecodeError::Truncated);
    assert_eq!(error_of(&[PROTOCOL_VER, b'M', 0, 0, 0, 3, b'a', b'b']), DecodeError::Truncated);
    assert_eq!(
        error_of(&[PROTOCOL_VER, b'C', 0xff, 0xff, 0xff, 0xff, 1, 2, 3]),
        DecodeError::Truncated
    );
}

#[test]
fn an_unknown_tag_is_refused() {
    assert_eq!(error_of(&[PROTOCOL_VER, b'X']), DecodeError::BadTag);
    assert_eq!(error_of(&[PROTOCOL_VER, b'm', 0, 0, 0, 0]), DecodeError::BadTag);
    let input = [vec![PROTOCOL_VER], record(b'C', b"ok"), vec![0]].concat();
    assert_eq!(error_of(&input), DecodeError::BadTag);
}

#[test]
fn a_name_that_is_not_utf8_is_refused() {
    let input = [vec![PROTOCOL_VER], record(b'M', &[b'a', 0xff]), record(b'C', b"x")].concat();
    assert_eq!(error_of(&input), DecodeError::BadTypeName);
    let input = [vec![PROTOCOL_VER], record(b'M', &[0xc3])].concat();
    assert_eq!(error_of(&input), DecodeError::BadTypeName);
}

#[test]
fn content_may_hold_any_bytes() {
    let input = [vec![PROTOCOL_VER], record(b'M', "caf\u{e9}".as_bytes()), record(b'C', &[0xff, 0xfe])]
        .concat();
    let decoded = receive_data_bulk(&input).unwrap();
    assert!(same(&decoded, &[item(&["caf\u{e9}"], &[0xff, 0xfe])]));
}

#[test]
fn the_first_fault_decides() {
    let input = [vec![PROTOCOL_VER], record(b'M', &[0xff]), vec![b'X']].concat();
    assert_eq!(error_of(&input), DecodeError::BadTypeName);
    let input = [vec![PROTOCOL_VER], vec![b'X'], record(b'M', &[0xff])].concat();
    assert_eq!(error_of(&input), DecodeError::BadTag);
}

#[test]
fn each_fault_has_its_words() {
    assert_eq!(DecodeError::UnsupportedVersion.message(), "Unsupported protocol version");
    assert_eq!(DecodeError::Truncated.message(), "The input ends inside a record");
    assert_eq!(DecodeError::BadTag.message(), "Unknown record tag");
    assert_eq!(DecodeError::BadTypeName.message(), "A mime-type is not valid UTF-8");
}

#[test]
fn input_with_type_names_is_taken_as_it_is() {
    let input = [vec![PROTOCOL_VER], record(b'C', b"x")].concat();
    let names = vec!["image/png".to_string()];
    for oneshot in [false, true] {
        let data = receive_data(input.clone(), oneshot, Some(names.clone())).unwrap();
        assert!(same(&data, &[item(&["image/png"], &input)]));
    }
    let data = receive_data(vec![0xff], false, Some(Vec::new())).unwrap();
    assert!(same(&data, &[item(&[], &[0xff])]));
}

#[test]
fn oneshot_input_without_type_names_is_plain_text() {
    let data = receive_data(b"hello".to_vec(), true, None).unwrap();
    let names = ["text/plain", "text/plain;charset=utf-8", "TEXT", "STRING", "UTF8_STRING"];
    assert!(same(&data, &[item(&names, b"hello")]));
}

#[test]
fn other_input_is_a_bulk_stream() {
    let input = [vec![PROTOCOL_VER], record(b'M', b"a/b"), record(b'C', b"x")].concat();
    let data = receive_data(input, false, None).unwrap();
    assert!(same(&data, &[item(&["a/b"], b"x")]));
    assert_eq!(receive_data(b"hello".to_vec(), false, None).err(), Some(DecodeError::UnsupportedVersion));
    assert_eq!(receive_data(Vec::new(), false, None).err(), Some(DecodeError::Truncated));
}
