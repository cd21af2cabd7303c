use vstd::prelude::*;
use crate::text::same_text;

verus! {

/// Output formats offered for a saved screenshot.
#[derive(Debug, Clone, Copy, PartialEq, Eq, Structural)]
pub enum ImageFormat {
    Png,
    Jpeg,
    Gif,
}

/// The label of a format, also used as the file extension.
pub open spec fn format_label(f: ImageFormat) -> Seq<char> {
    match f {
        ImageFormat::Png => "Png"@,
        ImageFormat::Jpeg => "Jpeg"@,
        ImageFormat::Gif => "Gif"@,
    }
}

/// The format that a file extension names: each format is recognised in its
/// capitalised, upper-case and lower-case spelling.
pub open spec fn extension_format(s: Seq<char>) -> Option<ImageFormat> {
    if s == "Png"@ || s == "PNG"@ || s == "png"@ {
        Some(ImageFormat::Png)
    } else if s == "Jpeg"@ || s == "JPEG"@ || s == "jpeg"@ {
        Some(ImageFormat::Jpeg)
    } else if s == "Gif"@ || s == "gif"@ || s == "GIF"@ {
        Some(ImageFormat::Gif)
    } else {
        None
    }
}

/// The formats in the order in which they are offered.
pub open spec fn all_formats() -> Seq<ImageFormat> {
    seq![ImageFormat::Png, ImageFormat::Jpeg, ImageFormat::Gif]
}

impl ImageFormat {
    /// The label of the format ("Png", "Jpeg" or "Gif").
    pub fn name(self) -> (r: &'static str)
        ensures
            r@ == format_label(self),
    {
        match self {
            ImageFormat::Png => "Png",
            ImageFormat::Jpeg => "Jpeg",
            ImageFormat::Gif => "Gif",
        }
    }

    /// The format that a recognised extension names.
    pub fn try_from_extension(s: &str) -> (r: Option<ImageFormat>)
        ensures
            r == extension_format(s@),
    {
        if same_text(s, "Png") || same_text(s, "PNG") || same_text(s, "png") {
            Some(ImageFormat::Png)
        } else if same_text(s, "Jpeg") || same_text(s, "JPEG") || same_text(s, "jpeg") {
            Some(ImageFormat::Jpeg)
        } else if same_text(s, "Gif") || same_text(s, "gif") || same_text(s, "GIF") {
            Some(ImageFormat::Gif)
        } else {
            None
        }
    }

    /// Converts an extension that is known to name a format.
    pub fn from_extension(s: &str) -> (r: ImageFormat)
        requires
            extension_format(s@) is Some,
        ensures
            Some(r) == extension_format(s@),
    {
        match ImageFormat::try_from_extension(s) {
            Some(f) => f,
            None => ImageFormat::Png,
        }
    }

    /// The list of formats offered to the user.
    pub fn available_formats() -> (r: Vec<ImageFormat>)
        ensures
            r@ == all_formats(),
    {
        let v = vec![ImageFormat::Png, ImageFormat::Jpeg, ImageFormat::Gif];
        assert(v@ =~= all_formats());
        v
    }
}

/// The labels of all formats, in the order in which they are offered.
pub fn available_formats() -> (r: Vec<&'static str>)
    ensures
        r@.len() == 3,
        forall|i: int| 0 <= i < 3 ==> (#[trigger] r@[i])@ == format_label(all_formats()[i]),
{
    let v = vec![ImageFormat::Png.name(), ImageFormat::Jpeg.name(), ImageFormat::Gif.name()];
    v
}

/// How an image is written once its file extension has been checked.
#[derive(Debug, Clone, Copy, PartialEq, Eq, Structural)]
pub enum SaveMethod {
    /// A GIF encoder run at the given speed (1 is slowest and best, 30 fastest).
    GifWithSpeed(i32),
    /// The image library's own writer, which picks the encoder from the extension.
    ByExtension(ImageFormat),
}

/// Why an output path cannot be written.
#[derive(Debug, Clone, Copy, PartialEq, Eq, Structural)]
pub enum SaveImageError {
    MissingExtension,
    InvalidExtension,
}

/// The encoder speed used for GIF output, chosen to make saving fast.
pub const GIF_ENCODER_SPEED: i32 = 30;

/// The way an image is saved for a path with the given extension.
pub open spec fn save_method_for(extension: Option<Seq<char>>) -> Result<SaveMethod, SaveImageError> {
    match extension {
        None => Err(SaveImageError::MissingExtension),
        Some(e) => match extension_format(e) {
            None => Err(SaveImageError::InvalidExtension),
            Some(ImageFormat::Gif) => Ok(SaveMethod::GifWithSpeed(GIF_ENCODER_SPEED)),
            Some(f) => Ok(SaveMethod::ByExtension(f)),
        },
    }
}

pub open spec fn opt_str_view(e: Option<&str>) -> Option<Seq<char>> {
    match e {
        None => None,
        Some(s) => Some(s@),
    }
}

/// Checks the extension of an output file: a missing or unknown extension is
/// refused; a GIF is written by a fast GIF encoder, any other format by the
/// writer that the extension selects.
pub fn save_method(extension: Option<&str>) -> (r: Result<SaveMethod, SaveImageError>)
    ensures
        r == save_method_for(opt_str_view(extension)),
{
    match extension {
        None => Err(SaveImageError::MissingExtension),
        Some(e) => match ImageFormat::try_from_extension(e) {
            None => Err(SaveImageError::InvalidExtension),
            Some(ImageFormat::Gif) => Ok(SaveMethod::GifWithSpeed(GIF_ENCODER_SPEED)),
            Some(f) => Ok(SaveMethod::ByExtension(f)),
        },
    }
}

/// How an image is saved follows the format its extension names: no
/// extension and an unknown one are refused with their own errors; an
/// extension naming GIF goes to the GIF encoder at speed 30; an extension
/// naming any other format is written by the image library's writer for that
/// same format, never by the GIF encoder.
pub proof fn lemma_save_method_follows_format(e: Seq<char>, f: ImageFormat)
    ensures
        save_method_for(None) == Err::<SaveMethod, SaveImageError>(SaveImageError::MissingExtension),
        extension_format(e) is None ==> save_method_for(Some(e)) == Err::<SaveMethod, SaveImageError>(
            SaveImageError::InvalidExtension,
        ),
        extension_format(e) == Some(ImageFormat::Gif) ==> save_method_for(Some(e)) == Ok::<
            SaveMethod,
            SaveImageError,
        >(SaveMethod::GifWithSpeed(30)),
        extension_format(e) == Some(f) && f != ImageFormat::Gif ==> save_method_for(Some(e)) == Ok::<
            SaveMethod,
            SaveImageError,
        >(SaveMethod::ByExtension(f)),
        (save_method_for(Some(e)) matches Ok(SaveMethod::GifWithSpeed(_))) <==> extension_format(e)
            == Some(ImageFormat::Gif),
{
}

impl SaveImageError {
    /// The text of the error reported to the user.
    pub fn message(self) -> (r: &'static str)
        ensures
            self == SaveImageError::MissingExtension ==> r@ == "Missing file extension"@,
            self == SaveImageError::InvalidExtension ==> r@ == "Invalid file extension"@,
    {
        match self {
            SaveImageError::MissingExtension => "Missing file extension",
            SaveImageError::InvalidExtension => "Invalid file extension",
        }
    }
}

/// An RGBA image: its size and its pixels row by row, four bytes per pixel
/// (red, green, blue, alpha).
pub struct Pixels {
    pub width: u32,
    pub height: u32,
    pub data: Vec<u8>,
}

/// The pixel data fills the image exactly.
pub open spec fn pixels_wf(p: Pixels) -> bool {
    p.data@.len() == 4 * (p.width as int) * (p.height as int)
}

/// Byte `k` of the pixel in column `x` and row `y`.
pub open spec fn pixel_byte(p: Pixels, x: int, y: int, k: int) -> u8 {
    p.data@[(y * p.width + x) * 4 + k]
}

pub open spec fn min_u32(a: u32, b: u32) -> u32 {
    if a <= b { a } else { b }
}

/// `r` is the area of `img` at column `x`, row `y`, `width` wide and
/// `height` high, the area first clamped to the image: its corner is moved
/// inside the image and its size cut to what the image has from there.
pub open spec fn is_crop_of(r: Pixels, img: Pixels, x: u32, y: u32, width: u32, height: u32) -> bool {
    let cx = min_u32(x, img.width);
    let cy = min_u32(y, img.height);
    &&& r.width == min_u32(width, (img.width - cx) as u32)
    &&& r.height == min_u32(height, (img.height - cy) as u32)
    &&& pixels_wf(r)
    &&& forall|i: int, j: int, k: int|
        0 <= i < r.width && 0 <= j < r.height && 0 <= k < 4 ==> #[trigger] pixel_byte(r, i, j, k)
            == pixel_byte(img, cx + i, cy + j, k)
}

/// `image::imageops::crop_imm` followed by `SubImage::to_image`: copies the
/// area of the image at (`x`, `y`) of the given size, after clamping it to
/// the image as `crop_imm` does.
#[verifier::external_body]
fn crop_rgba(img: &Pixels, x: u32, y: u32, width: u32, height: u32) -> (r: Pixels)
    requires
        pixels_wf(*img),
    ensures
        is_crop_of(r, *img, x, y, width, height),
{
    let buffer = image::RgbaImage::from_raw(img.width, img.height, img.data.clone()).expect("pixels fill the image");
    let cropped = image::imageops::crop_imm(&buffer, x, y, width, height).to_image();
    Pixels { width: cropped.width(), height: cropped.height(), data: cropped.into_raw() }
}

/// Crops an image to the area at column `x`, row `y`, of the given width
/// and height; an area that reaches out of the image is cut at its borders.
pub fn crop_image(img: &Pixels, x: u32, y: u32, width: u32, height: u32) -> (r: Pixels)
    requires
        pixels_wf(*img),
    ensures
        is_crop_of(r, *img, x, y, width, height),
{
    crop_rgba(img, x, y, width, height)
}

/// The label of every format is an extension that names that same format.
pub proof fn lemma_label_names_format(f: ImageFormat)
    ensures
        extension_format(format_label(f)) == Some(f),
{
    reveal_strlit("Png");
    reveal_strlit("PNG");
    reveal_strlit("png");
    reveal_strlit("Jpeg");
    reveal_strlit("JPEG");
    reveal_strlit("jpeg");
    reveal_strlit("Gif");
    reveal_strlit("gif");
    reveal_strlit("GIF");
    match f {
        ImageFormat::Png => {},
        ImageFormat::Jpeg => {
            assert("Jpeg"@.len() != "Png"@.len());
            assert("Jpeg"@.len() != "PNG"@.len());
            assert("Jpeg"@.len() != "png"@.len());
        },
        ImageFormat::Gif => {
            assert("Gif"@[0] != "Png"@[0]);
            assert("Gif"@[0] != "PNG"@[0]);
            assert("Gif"@[0] != "png"@[0]);
            assert("Gif"@.len() != "Jpeg"@.len());
            assert("Gif"@.len() != "JPEG"@.len());
            assert("Gif"@.len() != "jpeg"@.len());
        },
    }
}

} // verus!
