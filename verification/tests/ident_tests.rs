use layline::ident::{check_session_id, draw_id_bytes, encode_id};

#[test]
fn bytes_are_written_as_two_digits_each() {
    let bytes: Vec<u8> = vec![0x00, 0x01, 0x0f, 0x10, 0x9a, 0xbc, 0xde, 0xff];
    assert_eq!(encode_id(&bytes), "00010f109abcdeff");
    assert_eq!(encode_id(&vec![]), "");
}

#[test]
fn different_bytes_give_different_ids() {
    let mut ids: Vec<String> = Vec::new();
    for byte in 0..=255u8 {
        let id = encode_id(&vec![byte]);
        assert_eq!(id.len(), 2);
        assert!(!ids.contains(&id));
        ids.push(id);
    }
}

#[test]
fn drawn_ids_are_accepted_and_vary() {
    let first = draw_id_bytes();
    let second = draw_id_bytes();
    assert_eq!(first.len(), 16);
    assert_ne!(first, second);
    assert_ne!(first, vec![0u8; 16]);
    assert!(check_session_id(&encode_id(&first)));
    assert!(check_session_id(&encode_id(&second)));
}

#[test]
fn malformed_ids_are_refused() {
    let good = "0123456789abcdef0123456789abcdef";
    assert!(check_session_id(good));
    assert!(!check_session_id(""));
    assert!(!check_session_id("0123456789abcdef0123456789abcde"));
    assert!(!check_session_id("0123456789abcdef0123456789abcdef0"));
    assert!(!check_session_id("0123456789ABCDEF0123456789ABCDEF"));
    assert!(!check_session_id("0123456789abcdef0123456789abcdeg"));
    assert!(!check_session_id("0123456789abcdef 123456789abcdef"));
    // thirty-two bytes, of which two make one character
    assert!(!check_session_id("\u{e9}0123456789abcdef0123456789abcd"));
    // thirty-two characters, but more bytes
    assert!(!check_session_id("\u{e9}0123456789abcdef0123456789abcde"));
}
