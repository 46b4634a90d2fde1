use camstream::framer::decimal_digits;
use camstream::framer::frame_payload;

#[test]
fn decimal_digits_exact_values() {
    assert_eq!(decimal_digits(0), b"0".to_vec());
    assert_eq!(decimal_digits(7), b"7".to_vec());
    assert_eq!(decimal_digits(10), b"10".to_vec());
    assert_eq!(decimal_digits(42), b"42".to_vec());
    assert_eq!(decimal_digits(100), b"100".to_vec());
    assert_eq!(decimal_digits(65536), b"65536".to_vec());
    assert_eq!(decimal_digits(2147483647), b"2147483647".to_vec());
}

#[test]
fn framed_part_is_byte_exact() {
    let img = b"abc".to_vec();
    let framed = frame_payload(&img);
    let expected =
        b"--boundarydonotcross\r\nContent-Length:3\r\nContent-Type:image/jpeg\r\n\r\nabc".to_vec();
    assert_eq!(framed, expected);
}

#[test]
fn framed_empty_payload_declares_zero() {
    let img: Vec<u8> = Vec::new();
    let framed = frame_payload(&img);
    let expected =
        b"--boundarydonotcross\r\nContent-Length:0\r\nContent-Type:image/jpeg\r\n\r\n".to_vec();
    assert_eq!(framed, expected);
}

#[test]
fn declared_length_matches_payload_byte_count() {
    // A binary payload, not valid UTF-8, 260 bytes long.
    let mut img: Vec<u8> = Vec::new();
    for i in 0..260u32 {
        img.push((i % 256) as u8);
    }
    let framed = frame_payload(&img);
    // Header: everything up to and including the blank line.
    let blank = b"\r\n\r\n";
    let pos = framed
        .windows(blank.len())
        .position(|w| w == blank)
        .expect("blank line present");
    let header = &framed[..pos + blank.len()];
    let payload = &framed[pos + blank.len()..];
    assert_eq!(payload, &img[..]);
    let header_text = std::str::from_utf8(header).expect("header is ASCII");
    let declared: usize = header_text
        .lines()
        .find(|l| l.starts_with("Content-Length:"))
        .and_then(|l| l.trim_start_matches("Content-Length:").trim().parse().ok())
        .expect("length header present");
    assert_eq!(declared, img.len());
    assert_eq!(declared, 260);
}

#[test]
fn boundary_line_leads_every_part() {
    let img = b"x".to_vec();
    let framed = frame_payload(&img);
    assert!(framed.starts_with(b"--boundarydonotcross\r\n"));
    // No trailing garbage: the part ends exactly with the payload.
    assert!(framed.ends_with(b"\r\n\r\nx"));
}
