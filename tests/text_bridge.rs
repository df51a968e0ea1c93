use dpdk_bridge::text_bridge::{decode, encode, Decoded, EncodeError};

fn decoded_text(buf: &[u8]) -> Option<String> {
    match decode(buf) {
        Decoded::Text(s) => Some(s),
        Decoded::InvalidUtf8 => None,
    }
}

#[test]
fn decode_stops_at_nul() {
    assert_eq!(decoded_text(b"eth0\0garbage"), Some("eth0".to_string()));
}

#[test]
fn decode_without_nul_reads_whole_buffer() {
    assert_eq!(decoded_text(b"net_pcap"), Some("net_pcap".to_string()));
}

#[test]
fn decode_empty_and_leading_nul() {
    assert_eq!(decoded_text(b""), Some(String::new()));
    assert_eq!(decoded_text(b"\0abc"), Some(String::new()));
}

#[test]
fn decode_ignores_invalid_bytes_after_nul() {
    assert_eq!(decoded_text(b"ok\0\xff\xfe"), Some("ok".to_string()));
}

#[test]
fn decode_multibyte() {
    assert_eq!(decoded_text("caf\u{e9} \u{1f600}\0".as_bytes()), Some("caf\u{e9} \u{1f600}".to_string()));
}

#[test]
fn decode_invalid_gives_empty_text_and_one_warning() {
    let d = decode(b"bad\xff\xfe\0");
    assert!(d.needs_warning());
    assert_eq!(d.text(), "");
    let d = decode(b"\xc3\0");
    assert!(matches!(d, Decoded::InvalidUtf8));
}

#[test]
fn decode_valid_needs_no_warning() {
    let d = decode(b"mlx5\0");
    assert!(!d.needs_warning());
    assert_eq!(d.text(), "mlx5");
}

#[test]
fn encode_appends_nul() {
    assert_eq!(encode("abc"), Ok(vec![b'a', b'b', b'c', 0]));
    assert_eq!(encode(""), Ok(vec![0]));
    assert_eq!(encode("\u{e9}"), Ok(vec![0xc3, 0xa9, 0]));
}

#[test]
fn encode_rejects_nul_at_every_position() {
    let text = "abcd";
    for i in 0..=text.len() {
        let mut s = String::new();
        s.push_str(&text[..i]);
        s.push('\0');
        s.push_str(&text[i..]);
        assert_eq!(encode(&s), Err(EncodeError::EmbeddedNul { position: i }));
    }
}

#[test]
fn encode_reports_byte_offset_of_first_nul() {
    assert_eq!(encode("\u{e9}\0x\0"), Err(EncodeError::EmbeddedNul { position: 2 }));
}

#[test]
fn round_trip() {
    for s in ["", "port0", "caf\u{e9}", "\u{1f600} queue \u{3b1}"] {
        let bytes = encode(s).unwrap();
        assert_eq!(decoded_text(&bytes), Some(s.to_string()));
    }
}
