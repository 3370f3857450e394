use richclip::protocol::receive_data_bulk;
use richclip::protocol::receive_data_oneshot;
use richclip::protocol::source_data::goes_by;
use richclip::protocol::SourceData;
use richclip::protocol::SourceDataItem;
use richclip::protocol::PROTOCOL_VER;
use std::rc::Rc;

#[test]
fn test_content_by_mime_type() {
    let buf =
        [0x20, 0x09, 0x02, 0x14, PROTOCOL_VER,
        b'M', 0, 0, 0, 10, b't', b'e', b'x', b't', b'/', b'p', b'l', b'a', b'i', b'n',
        b'M', 0, 0, 0, 4, b'T', b'E', b'X', b'T',
        b'C', 0, 0, 0, 4, b'G', b'O', b'O', b'D',
        b'M', 0, 0, 0, 9, b't', b'e', b'x', b't', b'/', b'h', b't', b'm', b'l',
        b'C', 0, 0, 0, 3, b'B', b'A', b'D',
        ];
    // The stream starts at its version byte.
    let r = receive_data_bulk(&buf[4..]).unwrap();

    let (result, content) = r.content_by_mime_type("text/plain");
    assert!(result);
    assert_eq!(content.as_slice(), b"GOOD");
    let (result, content) = r.content_by_mime_type("text");
    assert!(result);
    assert_eq!(content.as_slice(), b"GOOD");
    let (result, content) = r.content_by_mime_type("TEXT");
    assert!(result);
    assert_eq!(content.as_slice(), b"GOOD");
    let (result, content) = r.content_by_mime_type("text/html");
    assert!(result);
    assert_eq!(content.as_slice(), b"BAD");
    let (result, content) = r.content_by_mime_type("no_mime");
    assert!(!result);
    assert!(content.is_empty());
}

fn item(names: &[&str], content: &[u8]) -> SourceDataItem {
    SourceDataItem {
        mime_type: names.iter().map(|s| s.to_string()).collect(),
        content: Rc::new(content.to_vec()),
    }
}

#[test]
fn mime_types_lists_every_name_in_order() {
    let data = vec![
        item(&["text/plain", "TEXT"], b"a"),
        item(&[], b"b"),
        item(&["text/html"], b"c"),
    ];
    assert_eq!(data.mime_types(), vec!["text/plain", "TEXT", "text/html"]);
    let none: Vec<SourceDataItem> = Vec::new();
    assert!(none.mime_types().is_empty());
}

#[test]
fn the_first_item_with_the_name_wins() {
    let data = vec![
        item(&["a/b"], b"first"),
        item(&["A/B", "c/d"], b"second"),
    ];
    let (found, content) = data.content_by_mime_type("A/b");
    assert!(found);
    assert_eq!(content.as_slice(), b"first");
    let (found, content) = data.content_by_mime_type("C/D");
    assert!(found);
    assert_eq!(content.as_slice(), b"second");
}

#[test]
fn each_name_finds_its_own_item_where_no_name_is_shared() {
    let data = vec![
        item(&["text/plain", "TEXT"], b"one"),
        item(&["text/html"], b"two"),
        item(&["image/png", "PNG"], b"three"),
    ];
    for entry in &data {
        for name in &entry.mime_type {
            let (found, content) = data.content_by_mime_type(name);
            assert!(found);
            assert_eq!(content, entry.content);
        }
    }
}

#[test]
fn content_without_a_name_is_never_found() {
    let data = vec![item(&[], b"nameless")];
    let (found, content) = data.content_by_mime_type("");
    assert!(!found);
    assert!(content.is_empty());
}

#[test]
fn goes_by_compares_without_ascii_case() {
    let names = vec!["text/plain".to_string(), "TEXT".to_string()];
    assert!(goes_by(&names, "Text"));
    assert!(goes_by(&names, "TEXT/PLAIN"));
    assert!(!goes_by(&names, "text/"));
    assert!(!goes_by(&Vec::new(), "text"));
}

#[test]
fn oneshot_takes_the_input_as_it_is() {
    let names = vec!["text/plain".to_string(), "STRING".to_string()];
    let input = vec![b'M', 0, 0, 0, 1, 0xff];
    let data = receive_data_oneshot(input.clone(), &names);
    assert_eq!(data.len(), 1);
    assert_eq!(data[0].mime_type, names);
    assert_eq!(*data[0].content, input);
    let (found, content) = data.content_by_mime_type("string");
    assert!(found);
    assert_eq!(*content, input);
}

#[test]
fn oneshot_of_nothing() {
    let data = receive_data_oneshot(Vec::new(), &Vec::new());
    assert_eq!(data.len(), 1);
    assert!(data[0].mime_type.is_empty());
    assert!(data[0].content.is_empty());
}
