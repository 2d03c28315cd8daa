use ism_chat::images::{
    paste_reply, png_to_tauri_icon, read_clipboard_image, set_tray_alert, ClipboardImage,
};

fn decode(text: &str) -> Vec<u8> {
    let table = b"ABCDEFGHIJKLMNOPQRSTUVWXYZabcdefghijklmnopqrstuvwxyz0123456789+/";
    let mut out = Vec::new();
    for quad in text.as_bytes().chunks(4) {
        let pad = quad.iter().filter(|c| **c == b'=').count();
        let mut n = 0u32;
        for c in quad {
            n = n * 64 + table.iter().position(|t| t == c).unwrap_or(0) as u32;
        }
        let bytes = [(n >> 16) as u8, (n >> 8) as u8, n as u8];
        out.extend_from_slice(&bytes[..3 - pad]);
    }
    out
}

fn png_of(width: u32, height: u32, rgba: Vec<u8>) -> Vec<u8> {
    let pasted = read_clipboard_image(Ok(ClipboardImage { width, height, rgba })).unwrap();
    let png = decode(&pasted.base64);
    assert_eq!(png.len(), pasted.png_len);
    png
}

#[test]
fn pasted_image_is_a_png_of_the_same_pixels() {
    let rgba: Vec<u8> = (0..24u8).map(|i| i * 10).collect();
    let png = png_of(3, 2, rgba.clone());
    assert_eq!(&png[..8], &[0x89, b'P', b'N', b'G', 0x0D, 0x0A, 0x1A, 0x0A]);
    let icon = png_to_tauri_icon(&png).unwrap();
    assert_eq!(icon.width, 3);
    assert_eq!(icon.height, 2);
    assert_eq!(icon.rgba, rgba);
}

#[test]
fn pasted_text_is_that_of_a_png_file_alone() {
    for (width, height) in [(1, 1), (7, 3), (256, 1)] {
        let rgba = vec![0x5A; 4 * width as usize * height as usize];
        let image = ClipboardImage { width, height, rgba: rgba.clone() };
        let pasted = read_clipboard_image(Ok(image)).unwrap();
        assert!(pasted.base64.starts_with("iVBORw0KGgo"), "{}", pasted.base64);
        let icon = png_to_tauri_icon(&decode(&pasted.base64)).unwrap();
        assert_eq!((icon.width, icon.height, icon.rgba), (width, height, rgba));
    }
}

#[test]
fn icon_has_four_bytes_a_pixel_whatever_the_file_has() {
    let mut png = Vec::new();
    image::DynamicImage::ImageLuma8(image::GrayImage::from_raw(2, 1, vec![0, 200]).unwrap())
        .write_to(&mut std::io::Cursor::new(&mut png), image::ImageFormat::Png)
        .unwrap();
    let icon = png_to_tauri_icon(&png).unwrap();
    assert_eq!(icon.rgba, vec![0, 0, 0, 255, 200, 200, 200, 255]);
    assert_eq!((icon.width, icon.height), (2, 1));
}

#[test]
fn what_is_no_image_gives_no_icon() {
    assert!(png_to_tauri_icon(b"").is_none());
    assert!(png_to_tauri_icon(b"no image at all").is_none());
    let png = png_of(1, 1, vec![1, 2, 3, 4]);
    assert!(png_to_tauri_icon(&png[..20]).is_none());
}

#[test]
fn tray_shows_the_icon_for_its_state() {
    let calm = png_of(1, 1, vec![1, 2, 3, 255]);
    let alert = png_of(1, 1, vec![9, 8, 7, 255]);
    assert_eq!(set_tray_alert(false, &calm, &alert).unwrap().rgba, vec![1, 2, 3, 255]);
    assert_eq!(set_tray_alert(true, &calm, &alert).unwrap().rgba, vec![9, 8, 7, 255]);
    assert!(set_tray_alert(true, &calm, b"").is_none());
}

#[test]
fn clipboard_without_an_image_says_so() {
    let reply = read_clipboard_image(Err("empty".to_string()));
    assert_eq!(reply.unwrap_err(), "Schowek nie zawiera obrazu: empty");
}

#[test]
fn too_few_bytes_are_an_error() {
    let reply = read_clipboard_image(Ok(ClipboardImage { width: 2, height: 2, rgba: vec![0; 15] }));
    assert_eq!(reply.unwrap_err(), "Niespojne wymiary obrazu ze schowka");
}

#[test]
fn image_without_pixels_cannot_be_encoded() {
    for (width, height) in [(0, 0), (0, 5), (5, 0)] {
        let reply = read_clipboard_image(Ok(ClipboardImage { width, height, rgba: vec![] }));
        let message = reply.unwrap_err();
        assert!(message.starts_with("Blad kodowania PNG: "), "{}", message);
        assert!(message.len() > "Blad kodowania PNG: ".len());
    }
}

#[test]
fn reply_follows_the_encoding() {
    assert_eq!(paste_reply(None).unwrap_err(), "Niespojne wymiary obrazu ze schowka");
    assert_eq!(paste_reply(Some(Err("bad".to_string()))).unwrap_err(), "Blad kodowania PNG: bad");
    let pasted = paste_reply(Some(Ok(b"foobar".to_vec()))).unwrap();
    assert_eq!(pasted.base64, "Zm9vYmFy");
    assert_eq!(pasted.png_len, 6);
}
