use rustici::wire::{Element, Message};
use rustici::{Error, ErrorKind};

fn sample() -> Message {
    Message::new()
        .section_start("root")
        .kv_str("key", "value")
        .list_start("ids")
        .list_item_str("a")
        .list_item_str("b")
        .list_end()
        .section_end()
}

#[test]
fn roundtrip_simple_message() {
    let msg = Message::new()
        .section_start("root")
        .kv_str("key", "value")
        .list_start("ids")
        .list_item_str("a")
        .list_item_str("b")
        .list_end()
        .section_end();

    let encoded = msg.encode().unwrap();
    let decoded = Message::decode(&encoded).unwrap();
    assert_eq!(msg, decoded);
}

#[test]
fn encode_gives_exact_bytes() {
    let msg = Message::new()
        .section_start("s")
        .kv_str("k", "v")
        .list_start("l")
        .list_item_str("xy")
        .list_end()
        .section_end();
    let expected: Vec<u8> = vec![
        1, 1, b's', // section start
        3, 1, b'k', 0, 1, b'v', // key/value
        4, 1, b'l', // list start
        5, 0, 2, b'x', b'y', // list item
        6, // list end
        2, // section end
    ];
    assert_eq!(msg.encode().unwrap(), expected);
}

#[test]
fn decode_gives_exact_elements() {
    let bytes: Vec<u8> = vec![3, 2, b'i', b'd', 0, 3, 0, 255, 7, 6, 2];
    let decoded = Message::decode(&bytes).unwrap();
    let expected = vec![
        Element::KeyValue("id".to_string(), vec![0, 255, 7]),
        Element::ListEnd,
        Element::SectionEnd,
    ];
    assert_eq!(decoded.elements(), expected.as_slice());
}

#[test]
fn empty_message_is_empty_bytes() {
    assert_eq!(Message::new().encode().unwrap(), Vec::<u8>::new());
    assert_eq!(Message::decode(&[]).unwrap(), Message::new());
    assert_eq!(Message::default(), Message::new());
    assert_eq!(Message::new().elements().len(), 0);
}

#[test]
fn roundtrip_keeps_bytes_that_are_not_text() {
    let value: Vec<u8> = vec![0, 0xff, 0xfe, 0, 0x80, b'a', 0];
    let msg = Message::new()
        .kv_bytes("blob", &value)
        .list_start("l")
        .list_item_bytes(&[0xc3, 0x28])
        .list_item_bytes(&[])
        .list_end();
    let decoded = Message::decode(&msg.encode().unwrap()).unwrap();
    assert_eq!(decoded, msg);
    assert_eq!(
        decoded.elements()[0],
        Element::KeyValue("blob".to_string(), value)
    );
}

#[test]
fn roundtrip_keeps_names_beyond_ascii() {
    let msg = Message::new()
        .section_start("caf\u{e9}")
        .kv_str("\u{65e5}\u{672c}", "\u{1f600}")
        .section_end();
    let encoded = msg.encode().unwrap();
    // "café" takes five bytes of UTF-8.
    assert_eq!(&encoded[..7], &[1, 5, b'c', b'a', b'f', 0xc3, 0xa9]);
    let decoded = Message::decode(&encoded).unwrap();
    assert_eq!(decoded, msg);
    assert_eq!(
        decoded.elements()[0],
        Element::SectionStart("caf\u{e9}".to_string())
    );
}

#[test]
fn roundtrip_of_unbalanced_sequence() {
    let msg = Message::new().section_end().list_end().section_start("open");
    let decoded = Message::decode(&msg.encode().unwrap()).unwrap();
    assert_eq!(decoded, msg);
}

#[test]
fn push_appends_raw_elements() {
    let mut msg = Message::new();
    msg.push(Element::ListStart("l".to_string()));
    msg.push(Element::ListItem(vec![1, 2]));
    msg.push(Element::ListEnd);
    let built = Message::new().list_start("l").list_item_bytes(&[1, 2]).list_end();
    assert_eq!(msg, built);
    assert_eq!(msg.elements().len(), 3);
}

#[test]
fn clone_is_equal() {
    let msg = sample();
    assert_eq!(msg.clone(), msg);
    let el = Element::KeyValue("k".to_string(), vec![9]);
    assert_eq!(el.clone(), el);
}

#[test]
fn name_of_255_bytes_is_encoded() {
    let name = "n".repeat(255);
    let encoded = Message::new().section_start(&name).encode().unwrap();
    assert_eq!(encoded.len(), 2 + 255);
    assert_eq!(encoded[1], 255);
    let decoded = Message::decode(&encoded).unwrap();
    assert_eq!(decoded.elements()[0], Element::SectionStart(name));
}

#[test]
fn name_of_256_bytes_is_too_long() {
    let name = "n".repeat(256);
    for msg in [
        Message::new().section_start(&name),
        Message::new().list_start(&name),
        Message::new().kv_str(&name, "v"),
        Message::new().kv_str("ok", "v").section_start(&name),
    ] {
        let err = msg.encode().unwrap_err();
        assert!(matches!(err, Error::TooLong(_)));
        assert_eq!(err.kind(), ErrorKind::TooLong);
    }
}

#[test]
fn name_length_counts_bytes_not_characters() {
    // 128 characters of two bytes each: 256 bytes.
    let name = "\u{e9}".repeat(128);
    let err = Message::new().section_start(&name).encode().unwrap_err();
    assert_eq!(err.kind(), ErrorKind::TooLong);
}

#[test]
fn value_of_65535_bytes_is_encoded() {
    let value = vec![7u8; 65535];
    let encoded = Message::new().list_item_bytes(&value).encode().unwrap();
    assert_eq!(encoded.len(), 3 + 65535);
    assert_eq!(&encoded[..3], &[5, 0xff, 0xff]);
    let decoded = Message::decode(&encoded).unwrap();
    assert_eq!(decoded.elements()[0], Element::ListItem(value));
}

#[test]
fn value_length_is_big_endian() {
    let value = vec![1u8; 258];
    let encoded = Message::new().kv_bytes("k", &value).encode().unwrap();
    assert_eq!(&encoded[..5], &[3, 1, b'k', 1, 2]);
}

#[test]
fn value_of_65536_bytes_is_too_long() {
    let value = vec![7u8; 65536];
    for msg in [
        Message::new().list_item_bytes(&value),
        Message::new().kv_bytes("k", &value),
        Message::new().section_start("s").kv_bytes("k", &value),
    ] {
        let err = msg.encode().unwrap_err();
        assert!(matches!(err, Error::TooLong(_)));
    }
}

#[test]
fn unknown_tag_is_protocol_error() {
    for tag in [0u8, 7, 8, 255] {
        let err = Message::decode(&[tag]).unwrap_err();
        assert!(matches!(err, Error::Protocol(_)));
    }
    let err = Message::decode(&[2, 6, 9]).unwrap_err();
    assert_eq!(err.kind(), ErrorKind::Protocol);
}

#[test]
fn name_that_is_not_text_is_utf8_error() {
    let err = Message::decode(&[1, 2, 0xc3, 0x28]).unwrap_err();
    assert!(matches!(err, Error::Utf8(_)));
    assert_eq!(err.kind(), ErrorKind::Utf8);
    let err = Message::decode(&[3, 1, 0xff, 0, 0]).unwrap_err();
    assert_eq!(err.kind(), ErrorKind::Utf8);
}

#[test]
fn short_name_is_reported_before_bad_text() {
    // Two bytes announced, one present, and that one is not text.
    let err = Message::decode(&[1, 2, 0xff]).unwrap_err();
    assert_eq!(err.kind(), ErrorKind::Protocol);
}

#[test]
fn missing_fields_are_protocol_errors() {
    for bytes in [
        vec![1u8],
        vec![1, 3, b'a', b'b'],
        vec![3, 1, b'k'],
        vec![3, 1, b'k', 0],
        vec![3, 1, b'k', 0, 2, b'v'],
        vec![4],
        vec![5],
        vec![5, 0],
        vec![5, 1, 0],
    ] {
        let err = Message::decode(&bytes).unwrap_err();
        assert!(matches!(err, Error::Protocol(_)), "{:?}", bytes);
    }
}

#[test]
fn truncated_message_is_never_accepted_as_another() {
    let msg = sample();
    let encoded = msg.encode().unwrap();
    // Where each element ends in the encoding.
    let mut ends = vec![0usize];
    let mut so_far = Message::new();
    for el in msg.elements() {
        so_far.push(el.clone());
        ends.push(so_far.encode().unwrap().len());
    }
    assert_eq!(*ends.last().unwrap(), encoded.len());
    for cut in 0..encoded.len() {
        let result = Message::decode(&encoded[..cut]);
        match ends.iter().position(|&e| e == cut) {
            None => {
                let err = result.unwrap_err();
                assert!(matches!(err, Error::Protocol(_)), "cut at {}", cut);
            }
            Some(k) => {
                let decoded = result.unwrap();
                assert_eq!(decoded.elements(), &msg.elements()[..k]);
            }
        }
    }
}

#[test]
fn cut_inside_each_element_is_protocol_error() {
    let msg = sample();
    let mut whole = Message::new();
    for el in msg.elements() {
        let before = whole.encode().unwrap().len();
        whole.push(el.clone());
        let encoded = whole.encode().unwrap();
        for cut in (before + 1)..encoded.len() {
            let err = Message::decode(&encoded[..cut]).unwrap_err();
            assert_eq!(err.kind(), ErrorKind::Protocol);
        }
    }
}
