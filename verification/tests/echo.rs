use embedded_wasm_uart::echo::{
    echo_all, echo_char, handle_backspace, handle_newline, BACKSPACE, CARRIAGE_RETURN, DELETE,
    LINE_FEED, SPACE,
};

#[test]
fn test_echo_normal_characters() {
    let input = vec![b'H', b'i'];
    let writes = echo_all(&input);
    assert!(writes.len() >= 2, "need at least 2 writes");
    assert_eq!(writes[0], b'H');
    assert_eq!(writes[1], b'i');
}

#[test]
fn test_echo_backspace_handling() {
    let input = vec![0x08];
    let writes = echo_all(&input);
    assert!(writes.len() >= 3, "backspace must produce 3 writes");
    assert_eq!(writes[0], 0x08, "first byte must be BS");
    assert_eq!(writes[1], b' ', "second byte must be space");
    assert_eq!(writes[2], 0x08, "third byte must be BS");
}

#[test]
fn test_echo_delete_handling() {
    let input = vec![0x7F];
    let writes = echo_all(&input);
    assert!(writes.len() >= 3, "DEL must produce 3 writes");
    assert_eq!(writes[0], 0x08, "first byte must be BS");
    assert_eq!(writes[1], b' ', "second byte must be space");
    assert_eq!(writes[2], 0x08, "third byte must be BS");
}

#[test]
fn test_echo_carriage_return_handling() {
    let input = vec![b'\r'];
    let writes = echo_all(&input);
    assert!(writes.len() >= 2, "CR must produce CR+LF");
    assert_eq!(writes[0], b'\r');
    assert_eq!(writes[1], b'\n');
}

#[test]
fn test_echo_full_sequence() {
    let input = vec![b'A', 0x7F, b'B', b'\r'];
    let writes = echo_all(&input);
    assert!(writes.len() >= 7, "need full sequence output");
    assert_eq!(writes[0], b'A');
    assert_eq!(writes[1], 0x08);
    assert_eq!(writes[2], b' ');
    assert_eq!(writes[3], 0x08);
    assert_eq!(writes[4], b'B');
    assert_eq!(writes[5], b'\r');
    assert_eq!(writes[6], b'\n');
}

#[test]
fn echo_constants_are_the_ascii_codes() {
    assert_eq!(BACKSPACE, 0x08);
    assert_eq!(DELETE, 0x7F);
    assert_eq!(CARRIAGE_RETURN, b'\r');
    assert_eq!(LINE_FEED, b'\n');
    assert_eq!(SPACE, b' ');
}

#[test]
fn handle_backspace_appends_erase_sequence() {
    let mut out = vec![b'x'];
    handle_backspace(&mut out);
    assert_eq!(out, vec![b'x', 0x08, b' ', 0x08]);
}

#[test]
fn handle_newline_appends_cr_lf() {
    let mut out = vec![b'x'];
    handle_newline(&mut out);
    assert_eq!(out, vec![b'x', b'\r', b'\n']);
}

#[test]
fn echo_char_line_feed_becomes_cr_lf() {
    let mut out = Vec::new();
    echo_char(&mut out, b'\n');
    assert_eq!(out, vec![b'\r', b'\n']);
}

#[test]
fn echo_char_plain_byte_is_sent_back() {
    for b in [0u8, b'a', b'Z', b'~', 0x1B, 0x09, 0x80, 0xFF] {
        let mut out = vec![1, 2];
        echo_char(&mut out, b);
        assert_eq!(out, vec![1, 2, b]);
    }
}

#[test]
fn echo_char_appends_after_existing_output() {
    let mut out = vec![b'a'];
    echo_char(&mut out, 0x7F);
    echo_char(&mut out, b'\r');
    assert_eq!(out, vec![b'a', 0x08, b' ', 0x08, b'\r', b'\n']);
}

#[test]
fn echo_all_of_nothing_is_nothing() {
    assert_eq!(echo_all(&[]), Vec::<u8>::new());
}

#[test]
fn echo_all_is_exact_for_full_sequence() {
    assert_eq!(
        echo_all(&[b'A', 0x7F, b'B', b'\r']),
        vec![b'A', 0x08, b' ', 0x08, b'B', b'\r', b'\n']
    );
}

#[test]
fn echo_of_concatenation_is_concatenation_of_echoes() {
    let a = [b'o', b'k', 0x08];
    let b = [b'\n', b'!', 0x7F];
    let mut joined = a.to_vec();
    joined.extend_from_slice(&b);
    let mut expected = echo_all(&a);
    expected.extend(echo_all(&b));
    assert_eq!(echo_all(&joined), expected);
}

#[test]
fn plain_text_is_echoed_unchanged() {
    let text = b"Hello, Pico 2!";
    assert_eq!(echo_all(text), text.to_vec());
}

#[test]
fn echo_length_is_between_one_and_three_per_byte() {
    let input = [b'a', 0x08, b'\r', 0x7F, b'\n', b'z'];
    let out = echo_all(&input);
    assert!(out.len() >= input.len());
    assert!(out.len() <= 3 * input.len());
    assert_eq!(out.len(), 1 + 3 + 2 + 3 + 2 + 1);
}

#[test]
fn echo_never_sends_delete() {
    let input = [0x7F, 0x7F, b'a', 0x7F];
    assert!(!echo_all(&input).contains(&0x7F));
}

#[test]
fn line_feed_always_follows_carriage_return() {
    let input = [b'\n', b'a', b'\n', b'\r', 0x08];
    let out = echo_all(&input);
    for (k, &b) in out.iter().enumerate() {
        if b == b'\n' {
            assert!(k > 0 && out[k - 1] == b'\r');
        }
    }
}
