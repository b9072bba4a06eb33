use rustici::text::hex;
use rustici::wire::Message;

#[test]
fn hex_is_lower_case_two_digits_per_byte() {
    assert_eq!(hex(&[]), "");
    assert_eq!(hex(&[0]), "00");
    assert_eq!(hex(&[0x00, 0xab, 0x1f, 0xff, 0x90]), "00ab1fff90");
    assert_eq!(
        hex(&[0x01, 0x23, 0x45, 0x67, 0x89, 0xab, 0xcd, 0xef]),
        "0123456789abcdef"
    );
}

#[test]
fn message_as_text() {
    let msg = Message::new()
        .section_start("root")
        .kv_str("key", "value")
        .list_start("ids")
        .list_item_str("a")
        .list_item_str("b")
        .list_end()
        .section_end();
    assert_eq!(
        msg.to_text(),
        "<section root>\nkey = value\n<list ids>\n- a\n- b\n</list>\n</section>\n"
    );
    assert_eq!(Message::new().to_text(), "");
}

#[test]
fn values_that_are_not_text_are_shown_in_hex() {
    let msg = Message::new()
        .kv_bytes("spi", &[0xc0, 0xff, 0xee])
        .list_item_bytes(&[0xff])
        .list_item_bytes(&[])
        .kv_str("name", "caf\u{e9}");
    assert_eq!(
        msg.to_text(),
        "spi = 0xc0ffee\n- 0xff\n- \nname = caf\u{e9}\n"
    );
}
