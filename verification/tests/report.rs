use embedded_wasm_uart::report::panic_report_piece;

fn pieces(location: Option<&[u8]>, message: Option<&[u8]>) -> Vec<Vec<u8>> {
    let mut out = Vec::new();
    let mut i = 0;
    while let Some(p) = panic_report_piece(location, message, i) {
        out.push(p.to_vec());
        i += 1;
    }
    out
}

fn report(location: Option<&[u8]>, message: Option<&[u8]>) -> Vec<u8> {
    pieces(location, message).concat()
}

#[test]
fn report_without_details_is_the_banner() {
    assert_eq!(pieces(None, None), vec![b"\n!!! PANIC !!!\n".to_vec()]);
}

#[test]
fn report_with_location_and_message() {
    let r = report(Some(b"src/main.rs"), Some(b"boom"));
    assert_eq!(
        r,
        b"\n!!! PANIC !!!\nLocation: src/main.rs\nMessage: boom\n".to_vec()
    );
}

#[test]
fn report_pieces_are_label_value_line_end() {
    let p = pieces(Some(b"a.rs"), Some(b"m"));
    assert_eq!(p.len(), 7);
    assert_eq!(p[1], b"Location: ".to_vec());
    assert_eq!(p[2], b"a.rs".to_vec());
    assert_eq!(p[3], b"\n".to_vec());
    assert_eq!(p[4], b"Message: ".to_vec());
    assert_eq!(p[5], b"m".to_vec());
    assert_eq!(p[6], b"\n".to_vec());
}

#[test]
fn report_with_location_only() {
    let r = report(Some(b"src/uart.rs"), None);
    assert_eq!(r, b"\n!!! PANIC !!!\nLocation: src/uart.rs\n".to_vec());
}

#[test]
fn report_with_message_only() {
    let r = report(None, Some(b"out of memory"));
    assert_eq!(r, b"\n!!! PANIC !!!\nMessage: out of memory\n".to_vec());
}

#[test]
fn report_with_empty_location_still_has_its_line() {
    let r = report(Some(b""), None);
    assert_eq!(r, b"\n!!! PANIC !!!\nLocation: \n".to_vec());
}

#[test]
fn piece_past_the_end_is_none() {
    assert!(panic_report_piece(None, None, 1).is_none());
    assert!(panic_report_piece(Some(b"f"), None, 4).is_none());
    assert!(panic_report_piece(Some(b"f"), Some(b"m"), 7).is_none());
    assert!(panic_report_piece(Some(b"f"), Some(b"m"), usize::MAX).is_none());
}

#[test]
fn message_piece_comes_from_the_caller() {
    let msg: &[u8] = b"the message";
    let p = panic_report_piece(None, Some(msg), 2).unwrap();
    assert_eq!(p.as_ptr(), msg.as_ptr());
}

#[test]
fn report_always_starts_with_banner() {
    let banner = b"\n!!! PANIC !!!\n";
    for (loc, msg) in [
        (None, None),
        (Some(&b"a.rs"[..]), None),
        (None, Some(&b"m"[..])),
        (Some(&b"b.rs"[..]), Some(&b"n"[..])),
    ] {
        assert!(report(loc, msg).starts_with(banner));
    }
}
