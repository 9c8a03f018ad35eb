use bridge_shell::failure::FailureKind;
use bridge_shell::local::local_text;

#[test]
fn text_is_the_whole_file() {
    let text = local_text(Ok(b"first line\nsecond line\n".to_vec()));
    assert_eq!(text, Ok("first line\nsecond line\n".to_string()));
}

#[test]
fn text_of_an_empty_file_is_empty() {
    assert_eq!(local_text(Ok(vec![])), Ok(String::new()));
}

#[test]
fn text_is_decoded_as_utf8() {
    let bytes = vec![b'h', 0xc3, 0xa9, b' ', 0xe2, 0x9c, 0x93, b' ', 0xf0, 0x9f, 0x8e, 0xac];
    assert_eq!(local_text(Ok(bytes)), Ok("h\u{e9} \u{2713} \u{1f3ac}".to_string()));
}

#[test]
fn text_keeps_a_byte_order_mark() {
    assert_eq!(local_text(Ok(vec![0xef, 0xbb, 0xbf, b'a'])), Ok("\u{feff}a".to_string()));
}

#[test]
fn bytes_that_are_no_text_are_a_decode_failure() {
    let cases: Vec<Vec<u8>> = vec![
        vec![0xff],
        vec![b'a', 0x80],
        vec![0xc3],
        vec![0xc0, 0xaf],
        vec![0xed, 0xa0, 0x80],
        vec![0xf4, 0x90, 0x80, 0x80],
        vec![b'o', b'k', 0xe2, 0x9c],
    ];
    for bytes in cases {
        let failure = local_text(Ok(bytes.clone())).unwrap_err();
        assert_eq!(failure.kind(), FailureKind::Decode, "{:?}", bytes);
        assert_eq!(failure.message(), "Failed to read file: stream did not contain valid UTF-8");
    }
}

#[test]
fn a_file_that_cannot_be_read_is_a_local_failure() {
    let read = Err("No such file or directory (os error 2)".to_string());
    let failure = local_text(read).unwrap_err();
    assert_eq!(failure.kind(), FailureKind::LocalIo);
    assert_eq!(failure.message(), "Failed to read file: No such file or directory (os error 2)");
}
