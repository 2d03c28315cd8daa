use ism_chat::base64::base64_encode;

const TABLE: &str = "ABCDEFGHIJKLMNOPQRSTUVWXYZabcdefghijklmnopqrstuvwxyz0123456789+/";

fn value_of(c: u8) -> u32 {
    TABLE.bytes().position(|t| t == c).unwrap() as u32
}

fn decode(text: &str) -> Vec<u8> {
    let mut out = Vec::new();
    for quad in text.as_bytes().chunks(4) {
        let pad = quad.iter().filter(|c| **c == b'=').count();
        let mut n = 0u32;
        for c in quad {
            n = n * 64 + if *c == b'=' { 0 } else { value_of(*c) };
        }
        let bytes = [(n >> 16) as u8, (n >> 8) as u8, n as u8];
        out.extend_from_slice(&bytes[..3 - pad]);
    }
    out
}

#[test]
fn nothing_is_the_empty_text() {
    assert_eq!(base64_encode(b""), "");
}

#[test]
fn known_texts() {
    assert_eq!(base64_encode(b"f"), "Zg==");
    assert_eq!(base64_encode(b"fo"), "Zm8=");
    assert_eq!(base64_encode(b"foo"), "Zm9v");
    assert_eq!(base64_encode(b"foob"), "Zm9vYg==");
    assert_eq!(base64_encode(b"fooba"), "Zm9vYmE=");
    assert_eq!(base64_encode(b"foobar"), "Zm9vYmFy");
    assert_eq!(base64_encode(&[0xFF, 0xFF, 0xFF]), "////");
    assert_eq!(base64_encode(&[0xFB, 0xEF, 0xBE]), "++++");
    assert_eq!(base64_encode(&[0]), "AA==");
}

#[test]
fn every_value_has_its_character() {
    for v in 0..64u32 {
        let n = v << 18;
        let text = base64_encode(&[(n >> 16) as u8, (n >> 8) as u8, n as u8]);
        assert_eq!(text.as_bytes()[0], TABLE.as_bytes()[v as usize]);
    }
}

#[test]
fn decoding_gives_back_every_length() {
    for len in 0..300usize {
        let data: Vec<u8> = (0..len).map(|i| (i * 37 + len) as u8).collect();
        let text = base64_encode(&data);
        assert_eq!(text.len(), (len + 2) / 3 * 4);
        assert_eq!(decode(&text), data);
    }
}

#[test]
fn different_bytes_have_different_texts() {
    assert_ne!(base64_encode(&[0]), base64_encode(&[0, 0]));
    assert_ne!(base64_encode(&[0, 0]), base64_encode(&[0, 0, 0]));
}
