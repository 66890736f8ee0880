use gpui_ohos::text::{char_text, joined, push_number, push_signed, utf8_bytes};

#[test]
fn numbers_in_decimal() {
    let mut text = String::from("n=");
    push_number(&mut text, 0);
    text.push(' ');
    push_number(&mut text, u64::MAX);
    assert_eq!(text, "n=0 18446744073709551615");
}

#[test]
fn signed_numbers_in_decimal() {
    let mut text = String::new();
    push_signed(&mut text, -120);
    text.push(' ');
    push_signed(&mut text, i64::MIN);
    text.push(' ');
    push_signed(&mut text, 7);
    assert_eq!(text, "-120 -9223372036854775808 7");
}

#[test]
fn text_and_bytes() {
    assert_eq!(char_text('é'), "é");
    assert_eq!(joined("ab", "cd"), "abcd");
    assert_eq!(utf8_bytes("é!"), vec![0xc3, 0xa9, b'!']);
}
