//! Icons for the tray, and images that come from the clipboard.

use vstd::prelude::*;

use crate::base64::{base64_bytes, base64_encode, base64_round_trip, base64_text, group_text};
use crate::text::{begins_with, beginnings_are_fronts, joined};

verus! {

/// An image as a tray takes it: four bytes a pixel, row by row from the top.
#[derive(Debug)]
pub struct IconImage {
    pub rgba: Vec<u8>,
    pub width: u32,
    pub height: u32,
}

impl IconImage {
    /// The bytes are those of as many pixels as the image has.
    pub open spec fn well_formed(&self) -> bool {
        self.rgba@.len() == 4 * self.width * self.height
    }
}

/// Pixels, width and height of an image that may be missing.
pub open spec fn icon_view(icon: Option<IconImage>) -> Option<(Seq<u8>, u32, u32)> {
    match icon {
        Some(image) => Some((image.rgba@, image.width, image.height)),
        None => None,
    }
}

/// What the clipboard holds when it holds an image.
#[derive(Debug)]
pub struct ClipboardImage {
    pub width: u32,
    pub height: u32,
    pub rgba: Vec<u8>,
}

/// An image of the clipboard as the page takes it.
#[derive(Debug)]
pub struct PastedImage {
    /// The PNG file in base64.
    pub base64: String,
    /// How many bytes the PNG file has.
    pub png_len: usize,
}

/// A PNG file, or why there is none, as plain values.
pub open spec fn encoded_view(encoded: Result<Vec<u8>, String>) -> Result<Seq<u8>, Seq<char>> {
    match encoded {
        Ok(png) => Ok(png@),
        Err(reason) => Err(reason@),
    }
}

/// What `image::load_from_memory` makes of a file: the pixels in RGBA, the width and the height,
/// or nothing where it fails.
pub uninterp spec fn decoded_image(file: Seq<u8>) -> Option<(Seq<u8>, u32, u32)>;

/// What `image::DynamicImage::write_to` writes in the PNG format for pixels in RGBA, or the text
/// of its error.
pub uninterp spec fn encoded_png(width: u32, height: u32, rgba: Seq<u8>) -> Result<
    Seq<u8>,
    Seq<char>,
>;

/// `image::load_from_memory`, with what `to_rgba8`, `width` and `height` then give. They depend
/// on the file alone, as long as the program registers no decoding hook with the crate. The
/// pixels have four bytes each, and there are as many as width and height say.
#[verifier::external_body]
fn decode_image(file: &[u8]) -> (icon: Option<IconImage>)
    ensures
        icon_view(icon) == decoded_image(file@),
        icon matches Some(image) ==> image.well_formed(),
{
    match image::load_from_memory(file) {
        Ok(img) => Some(
            IconImage {
                rgba: img.to_rgba8().into_raw(),
                width: img.width(),
                height: img.height(),
            },
        ),
        Err(_) => None,
    }
}

/// There are bytes enough for an image of this size, and a row of it can be addressed.
pub open spec fn pixels_fit(width: u32, height: u32, len: nat) -> bool {
    4 * width <= usize::MAX && 4 * width * height <= len
}

/// The file begins as a PNG file does: with the signature, and with the highest byte of the length
/// of its first chunk, which is a short one.
pub open spec fn begins_as_png(file: Seq<u8>) -> bool {
    file.len() >= 9 && file.take(9) == seq![0x89u8, 0x50, 0x4E, 0x47, 0x0D, 0x0A, 0x1A, 0x0A, 0]
}

/// An image of this size is not too large for the decoder, which takes 512 MiB of pixels at most.
pub open spec fn can_be_decoded(width: u32, height: u32) -> bool {
    4 * width * height <= 0x2000_0000
}

/// The file is a PNG file that is read as an image of this size and these pixels, if the image is
/// not too large to be read.
pub open spec fn is_png_of(file: Seq<u8>, width: u32, height: u32, rgba: Seq<u8>) -> bool {
    &&& begins_as_png(file)
    &&& can_be_decoded(width, height) ==> decoded_image(file) == Some((rgba, width, height))
}

/// `image::RgbaImage::from_raw`, which gives nothing exactly where the bytes are too few, and
/// then `image::DynamicImage::write_to` in the PNG format. What is written, or the text of the
/// error, depends on the size and the bytes alone. An image is refused only where it has no pixel.
/// What is written has the signature of a PNG file, and no pixel is changed: `load_from_memory`
/// reads the same image from it, up to the size that it takes by default. Bytes past the last
/// pixel would make the encoder panic.
#[verifier::external_body]
fn encode_png(width: u32, height: u32, rgba: Vec<u8>) -> (encoded: Option<Result<Vec<u8>, String>>)
    requires
        pixels_fit(width, height, rgba@.len()) ==> rgba@.len() == 4 * width * height,
    ensures
        encoded is Some <==> pixels_fit(width, height, rgba@.len()),
        encoded matches Some(result) ==> encoded_view(result) == encoded_png(width, height, rgba@),
        encoded matches Some(result) ==> (result is Ok <==> width > 0 && height > 0),
        encoded matches Some(Ok(png)) ==> is_png_of(png@, width, height, rgba@),
{
    match image::RgbaImage::from_raw(width, height, rgba) {
        Some(buffer) => {
            let mut png: Vec<u8> = Vec::new();
            let image = image::DynamicImage::ImageRgba8(buffer);
            match image.write_to(&mut std::io::Cursor::new(&mut png), image::ImageFormat::Png) {
                Ok(()) => Some(Ok(png)),
                Err(e) => Some(Err(e.to_string())),
            }
        },
        None => None,
    }
}

/// Decodes an icon. There is none where the file holds no image that can be read.
pub fn png_to_tauri_icon(png_bytes: &[u8]) -> (icon: Option<IconImage>)
    ensures
        icon_view(icon) == decoded_image(png_bytes@),
        icon matches Some(image) ==> image.well_formed(),
{
    decode_image(png_bytes)
}

/// The icon that the tray shows: one while messages wait, the other while none do.
pub fn set_tray_alert(alert: bool, normal_png: &[u8], alert_png: &[u8]) -> (icon: Option<IconImage>)
    ensures
        icon_view(icon) == decoded_image(
            if alert {
                alert_png@
            } else {
                normal_png@
            },
        ),
        icon matches Some(image) ==> image.well_formed(),
{
    if alert {
        png_to_tauri_icon(alert_png)
    } else {
        png_to_tauri_icon(normal_png)
    }
}

/// The base64 text of a PNG file begins with the signature, and not with a word on what follows.
pub proof fn png_files_are_known_in_base64(file: Seq<u8>)
    requires
        begins_as_png(file),
    ensures
        begins_with(base64_text(file), "iVBORw0KGgo"@),
{
    let start = file.take(9);
    let second = file.skip(3);
    let third = second.skip(3);
    assert(forall|i: int| 0 <= i < 9 ==> file[i] == #[trigger] start[i]);
    assert(file.take(3) == seq![0x89u8, 0x50, 0x4E]);
    assert(second.take(3) == seq![0x47u8, 0x0D, 0x0A]);
    assert(third.take(3) == seq![0x1Au8, 0x0A, 0]);
    assert(group_text(file.take(3)) == seq!['i', 'V', 'B', 'O']);
    assert(group_text(second.take(3)) == seq!['R', 'w', '0', 'K']);
    assert(group_text(third.take(3)) == seq!['G', 'g', 'o', 'A']);
    let text = base64_text(file);
    assert(text == group_text(file.take(3)) + base64_text(second));
    assert(base64_text(second) == group_text(second.take(3)) + base64_text(third));
    assert(base64_text(third) == group_text(third.take(3)) + base64_text(third.skip(3)));
    reveal_strlit("iVBORw0KGgo");
    assert(text.subrange(0, 11) == "iVBORw0KGgo"@);
}

/// The reply to the page for an encoded image: nothing was encoded where the size did not fit
/// the bytes. The base64 text of a success decodes to the PNG file.
pub fn paste_reply(encoded: Option<Result<Vec<u8>, String>>) -> (reply: Result<PastedImage, String>)
    ensures
        match encoded {
            None => reply matches Err(message) && message@
                == "Niespojne wymiary obrazu ze schowka"@,
            Some(Err(reason)) => reply matches Err(message) && message@ == "Blad kodowania PNG: "@
                + reason@,
            Some(Ok(png)) => reply matches Ok(pasted) && {
                &&& pasted.base64@ == base64_text(png@)
                &&& pasted.png_len == png@.len()
                &&& base64_bytes(pasted.base64@) == Some(png@)
                &&& begins_as_png(png@) ==> begins_with(pasted.base64@, "iVBORw0KGgo"@)
            },
        },
{
    match encoded {
        None => Err("Niespojne wymiary obrazu ze schowka".to_owned()),
        Some(Err(reason)) => Err(joined("Blad kodowania PNG: ", reason.as_str())),
        Some(Ok(png)) => {
            proof {
                base64_round_trip(png@);
                if begins_as_png(png@) {
                    png_files_are_known_in_base64(png@);
                }
            }
            Ok(PastedImage { base64: base64_encode(png.as_slice()), png_len: png.len() })
        },
    }
}

/// The image of the clipboard as a PNG file in base64. There is one for every image that has a
/// pixel and bytes enough, and what the text decodes to is read as the same image.
///
/// Some webviews hand the page an empty paste event in place of an image, and the page asks for
/// the image here.
pub fn read_clipboard_image(clipboard: Result<ClipboardImage, String>) -> (reply: Result<
    PastedImage,
    String,
>)
    requires
        clipboard matches Ok(image) ==> pixels_fit(image.width, image.height, image.rgba@.len())
            ==> image.rgba@.len() == 4 * image.width * image.height,
    ensures
        match clipboard {
            Err(reason) => reply matches Err(message) && message@
                == "Schowek nie zawiera obrazu: "@ + reason@,
            Ok(image) => if pixels_fit(image.width, image.height, image.rgba@.len()) {
                match encoded_png(image.width, image.height, image.rgba@) {
                    Ok(png) => reply matches Ok(pasted) && pasted.base64@ == base64_text(png)
                        && pasted.png_len == png.len(),
                    Err(reason) => reply matches Err(message) && message@
                        == "Blad kodowania PNG: "@ + reason,
                }
            } else {
                reply matches Err(message) && message@ == "Niespojne wymiary obrazu ze schowka"@
            },
        },
        reply is Ok <==> (clipboard matches Ok(image) && pixels_fit(
            image.width,
            image.height,
            image.rgba@.len(),
        ) && image.width > 0 && image.height > 0),
        clipboard matches Ok(image) ==> reply matches Ok(pasted) ==> {
            &&& begins_with(pasted.base64@, "iVBORw0KGgo"@)
            &&& base64_bytes(pasted.base64@) matches Some(png) && is_png_of(
                png,
                image.width,
                image.height,
                image.rgba@,
            )
        },
{
    match clipboard {
        Err(reason) => Err(joined("Schowek nie zawiera obrazu: ", reason.as_str())),
        Ok(image) => paste_reply(encode_png(image.width, image.height, image.rgba)),
    }
}

/// An image of the clipboard comes out as it went in: what the text of the reply decodes to is read
/// as an image of the same size and the same pixels, if it is not too large to be read.
pub proof fn pasted_images_are_the_copied_ones(
    image: ClipboardImage,
    pasted: PastedImage,
    file: &[u8],
    icon: Option<IconImage>,
)
    requires
        call_ensures(read_clipboard_image, (Ok(image),), Ok(pasted)),
        base64_bytes(pasted.base64@) == Some(file@),
        call_ensures(png_to_tauri_icon, (file,), icon),
        4 * image.width * image.height <= 0x2000_0000,
    ensures
        icon matches Some(read) && read.width == image.width && read.height == image.height
            && read.rgba@ == image.rgba@,
        begins_with(pasted.base64@, "iVBORw0KGgo"@),
{
}

/// The image of a clipboard is pasted exactly where it has a pixel and bytes for each of its pixels.
pub proof fn whole_images_are_pasted(image: ClipboardImage, reply: Result<PastedImage, String>)
    requires
        4 * image.width <= usize::MAX,
        image.rgba@.len() <= 4 * image.width * image.height,
        call_ensures(read_clipboard_image, (Ok(image),), reply),
    ensures
        reply is Ok <==> image.width > 0 && image.height > 0 && image.rgba@.len() == 4 * image.width
            * image.height,
        reply matches Err(message) ==> if image.rgba@.len() < 4 * image.width * image.height {
            message@ == "Niespojne wymiary obrazu ze schowka"@
        } else {
            begins_with(message@, "Blad kodowania PNG: "@)
        },
{
    if let Err(message) = reply {
        if image.rgba@.len() == 4 * image.width * image.height {
            let reason = encoded_png(image.width, image.height, image.rgba@)->Err_0;
            beginnings_are_fronts(message@, "Blad kodowania PNG: "@);
            assert(message@ == "Blad kodowania PNG: "@ + reason);
        }
    }
}

/// A clipboard that cannot be read is answered with the reason, behind a word on what is missing.
pub proof fn unreadable_clipboards_are_answered(reason: String, reply: Result<PastedImage, String>)
    requires
        call_ensures(read_clipboard_image, (Err(reason),), reply),
    ensures
        reply matches Err(message) && message@ == "Schowek nie zawiera obrazu: "@ + reason@,
{
}

/// The reply to an encoded image carries all its bytes and their number; a failed encoding is
/// answered with its reason.
pub proof fn replies_carry_the_file(
    encoded: Option<Result<Vec<u8>, String>>,
    reply: Result<PastedImage, String>,
    file: &[u8],
    text: String,
)
    requires
        call_ensures(paste_reply, (encoded,), reply),
        encoded matches Some(Ok(png)) ==> file@ == png@,
        call_ensures(base64_encode, (file,), text),
    ensures
        match (encoded, reply) {
            (Some(Ok(png)), Ok(pasted)) => pasted.base64@ == text@ && base64_bytes(pasted.base64@)
                == Some(png@) && pasted.png_len == png@.len(),
            (Some(Err(reason)), Err(message)) => message@ == "Blad kodowania PNG: "@ + reason@,
            (None, Err(message)) => message@ == "Niespojne wymiary obrazu ze schowka"@,
            _ => false,
        },
{
}

/// The tray shows the one file while messages wait and the other while none do, each as it would be
/// shown alone, whatever the other is.
pub proof fn trays_show_their_state(
    normal: &[u8],
    alert: &[u8],
    calm_icon: Option<IconImage>,
    alert_icon: Option<IconImage>,
    normal_alone: Option<IconImage>,
    alert_alone: Option<IconImage>,
)
    requires
        call_ensures(set_tray_alert, (false, normal, alert), calm_icon),
        call_ensures(set_tray_alert, (true, normal, alert), alert_icon),
        call_ensures(png_to_tauri_icon, (normal,), normal_alone),
        call_ensures(png_to_tauri_icon, (alert,), alert_alone),
    ensures
        icon_view(calm_icon) == icon_view(normal_alone),
        icon_view(alert_icon) == icon_view(alert_alone),
{
}

/// An icon is what its file holds: there is one exactly where the file can be read, with its size
/// and four bytes for each pixel.
pub proof fn icons_are_their_files(file: &[u8], icon: Option<IconImage>)
    requires
        call_ensures(png_to_tauri_icon, (file,), icon),
    ensures
        match decoded_image(file@) {
            Some((rgba, width, height)) => icon matches Some(image) && image.rgba@ == rgba
                && image.width == width && image.height == height && image.rgba@.len() == 4 * width
                * height,
            None => icon is None,
        },
{
}

} // verus!
