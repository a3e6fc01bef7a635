//! Bitmaps as image files.  The file formats are the work of the `image`
//! crate; what is stated here of it is taken on trust.

use vstd::prelude::*;
use crate::bitmap::{of_bytes, Bitmap, BitmapView};

verus! {

/// The error type of the `image` crate.  Nothing is known of its values.
#[verifier::external_type_specification]
#[verifier::external_body]
pub struct ExImageError(image::ImageError);

/// The PNG file that the `image` crate writes for an RGBA image of the given
/// dimensions and bytes, if it writes one.
pub uninterp spec fn png_of(width: u32, height: u32, data: Seq<u8>) -> Option<Seq<u8>>;

/// The dimensions and RGBA bytes that the `image` crate reads from a file
/// whose name has the given extension, if it knows the extension and can
/// read the file in the format that the extension stands for.
pub uninterp spec fn rgba_of(extension: Seq<char>, file: Seq<u8>) -> Option<(u32, u32, Seq<u8>)>;

/// Calls `image::write_buffer_with_format` for eight-bit RGBA and the PNG
/// format, writing into memory.  The call compresses the bytes it is given
/// and nothing else, so that its outcome is a function of the dimensions and
/// the bytes; the contract gives that outcome its name.  The encoder panics
/// on a buffer whose length does not fit the dimensions, which the
/// precondition rules out.
#[verifier::external_body]
fn write_png(data: &Vec<u8>, width: u32, height: u32) -> (r: Result<Vec<u8>, image::ImageError>)
    requires
        data@.len() == 4 * (width * height),
    ensures
        match r {
            Ok(file) => png_of(width, height, data@) == Some(file@),
            Err(_) => png_of(width, height, data@) is None,
        },
{
    let mut file = Vec::new();
    image::write_buffer_with_format(
        &mut std::io::Cursor::new(&mut file),
        data,
        width,
        height,
        image::ExtendedColorType::Rgba8,
        image::ImageFormat::Png,
    )?;
    Ok(file)
}

/// Calls `image::load_from_memory_with_format` in the format that
/// `image::ImageFormat::from_extension` gives for the extension, and takes
/// the image it returns as eight-bit RGBA: its width, its height and its
/// bytes.  `None` stands for an extension that the crate does not know.  The
/// calls read nothing but the extension and the bytes they are given, so
/// that the outcome is a function of them; the contract gives that outcome
/// its name.
#[verifier::external_body]
fn read_image(file: &[u8], extension: &str) -> (r: Option<
    Result<(u32, u32, Vec<u8>), image::ImageError>,
>)
    ensures
        match r {
            Some(Ok(image)) => rgba_of(extension@, file@) == Some((image.0, image.1, image.2@)),
            Some(Err(_)) => rgba_of(extension@, file@) is None,
            None => rgba_of(extension@, file@) is None,
        },
{
    let format = match image::ImageFormat::from_extension(extension) {
        Some(format) => format,
        None => return None,
    };
    let image = match image::load_from_memory_with_format(file, format) {
        Ok(image) => image.into_rgba8(),
        Err(e) => return Some(Err(e)),
    };
    Some(Ok((image.width(), image.height(), image.into_raw())))
}

/// Calls `to_string` on an error of the `image` crate.  Nothing is stated of
/// the text.
#[verifier::external_body]
fn describe(error: &image::ImageError) -> String {
    error.to_string()
}

/// An image could not be written or read; `message` says why, in the words
/// of the `image` crate where the reason is its own.
#[derive(Debug, Clone, PartialEq, Eq)]
pub struct ImageFault {
    pub message: String,
}

/// The bitmap that an image file holds: what the file reads as, provided
/// the bytes fit the dimensions.
pub open spec fn bitmap_of(extension: Seq<char>, file: Seq<u8>) -> Option<BitmapView> {
    match rgba_of(extension, file) {
        Some((width, height, data)) => if data.len() == 4 * (width * height) {
            Some(of_bytes(width as nat, height as nat, data))
        } else {
            None
        },
        None => None,
    }
}

/// Writes a bitmap as a PNG file.
pub fn encode_png(bitmap: &Bitmap) -> (r: Result<Vec<u8>, ImageFault>)
    requires
        bitmap.wf(),
    ensures
        match r {
            Ok(file) => png_of(bitmap@.width as u32, bitmap@.height as u32, bitmap@.bytes())
                == Some(file@),
            Err(_) => png_of(bitmap@.width as u32, bitmap@.height as u32, bitmap@.bytes()) is None,
        },
{
    let data = bitmap.to_raw();
    match write_png(&data, bitmap.width(), bitmap.height()) {
        Ok(file) => Ok(file),
        Err(e) => Err(ImageFault { message: describe(&e) }),
    }
}

/// Reads a bitmap from an image file, in the format that the extension of
/// the file's name stands for.
pub fn decode_image(file: &[u8], extension: &str) -> (r: Result<Bitmap, ImageFault>)
    ensures
        match r {
            Ok(bitmap) => bitmap.wf() && bitmap_of(extension@, file@) == Some(bitmap@),
            Err(_) => bitmap_of(extension@, file@) is None,
        },
{
    match read_image(file, extension) {
        Some(Ok((width, height, data))) => match Bitmap::from_raw(width, height, data) {
            Some(bitmap) => Ok(bitmap),
            None => Err(
                ImageFault { message: "image buffer does not match its dimensions".to_owned() },
            ),
        },
        Some(Err(e)) => Err(ImageFault { message: describe(&e) }),
        None => Err(ImageFault { message: "the image format could not be determined".to_owned() }),
    }
}

} // verus!
