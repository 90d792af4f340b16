//! Photo files: the date a photo was taken, and which thumbnail to make for a raw.
use vstd::prelude::*;
use vstd::utf8::{decode_utf8, valid_utf8};

use crate::entities::pipeline_parameters::PipelineOutFile;
use crate::entities::raw_record::{opt_text, raw_thumbnail_path, RawRecord};
use crate::raw_processing::{jpeg_encoding, resized_dimensions};

verus! {

/// The width that thumbnails are made at.
pub const THUMBNAIL_WIDTH: u32 = 300;

/// The height that thumbnails are made at.
pub const THUMBNAIL_HEIGHT: u32 = 200;

/// What the library reads from a photo file's metadata.
#[derive(Debug)]
pub struct PhotoMetadata {
    pub date_taken: Option<String>,
}

/// `std::str::from_utf8`: the text of `bytes` when they are well-formed
/// UTF-8, and nothing otherwise.
#[verifier::external_body]
fn utf8_text(bytes: &[u8]) -> (r: Option<String>)
    ensures
        r is Some <==> valid_utf8(bytes@),
        r matches Some(s) ==> s@ == decode_utf8(bytes@),
{
    std::str::from_utf8(bytes).ok().map(|s| s.to_string())
}

/// The values of an optional list of byte strings.
pub open spec fn ascii_values_text(values: Option<Vec<Vec<u8>>>) -> Option<Seq<Seq<u8>>> {
    match values {
        Some(v) => Some(v@.map_values(|b: Vec<u8>| b@)),
        None => None,
    }
}

/// The date a photo was taken, from the ASCII values of its `DateTimeOriginal`
/// field: the first value, when there is one and it is well-formed UTF-8.
pub open spec fn first_utf8_value(values: Option<Seq<Seq<u8>>>) -> Option<Seq<char>> {
    match values {
        Some(v) => if v.len() > 0 && valid_utf8(v[0]) {
            Some(decode_utf8(v[0]))
        } else {
            None
        },
        None => None,
    }
}

/// The date that the field values held in vectors give.
pub open spec fn date_from_ascii_values(values: Option<Vec<Vec<u8>>>) -> Option<Seq<char>> {
    first_utf8_value(ascii_values_text(values))
}

/// What `kamadak-exif` reads from a photo file's bytes for the primary
/// image's `DateTimeOriginal` field: the reader's error message, `None` when
/// the field is missing or its value is not ASCII, or the field's ASCII values.
pub uninterp spec fn exif_date_time_original(bytes: Seq<u8>) -> Result<
    Option<Seq<Seq<u8>>>,
    Seq<char>,
>;

/// A reading of the field by its text.
pub open spec fn exif_values_text(r: Result<Option<Vec<Vec<u8>>>, String>) -> Result<
    Option<Seq<Seq<u8>>>,
    Seq<char>,
> {
    match r {
        Ok(values) => Ok(ascii_values_text(values)),
        Err(e) => Err(e@),
    }
}

/// `exif::Reader::read_from_container` over the file's bytes, then
/// `Exif::get_field(Tag::DateTimeOriginal, In::PRIMARY)`, keeping the field's
/// value when it is `Value::Ascii`; a reader error is returned as its message.
/// The result is the named reading above.
#[verifier::external_body]
fn read_exif_date_time_original(bytes: &[u8]) -> (r: Result<Option<Vec<Vec<u8>>>, String>)
    ensures
        exif_values_text(r) == exif_date_time_original(bytes@),
{
    let exif = exif::Reader::new().read_from_container(&mut std::io::Cursor::new(bytes)).map_err(
        |e| e.to_string(),
    )?;
    Ok(match exif.get_field(exif::Tag::DateTimeOriginal, exif::In::PRIMARY) {
        Some(field) => match &field.value {
            exif::Value::Ascii(values) => Some(values.clone()),
            _ => None,
        },
        None => None,
    })
}

/// Reads the date a photo was taken from the photo file's bytes: the reader's
/// error, or the first `DateTimeOriginal` value when it is well-formed UTF-8.
pub fn read_photo_metadata(file_bytes: &[u8]) -> (r: Result<PhotoMetadata, String>)
    ensures
        match exif_date_time_original(file_bytes@) {
            Err(e) => r matches Err(m) && m@ == e,
            Ok(v) => r matches Ok(m) && opt_text(m.date_taken) == first_utf8_value(v),
        },
{
    match read_exif_date_time_original(file_bytes) {
        Err(e) => Err(e),
        Ok(values) => Ok(PhotoMetadata::from_date_time_original(values)),
    }
}

impl PhotoMetadata {
    /// Reads the metadata from the ASCII values of the primary image's
    /// `DateTimeOriginal` field (`None` when the field is missing or not ASCII).
    pub fn from_date_time_original(values: Option<Vec<Vec<u8>>>) -> (m: PhotoMetadata)
        ensures
            opt_text(m.date_taken) == date_from_ascii_values(values),
    {
        let mut metadata = PhotoMetadata { date_taken: None };
        if let Some(vec) = &values {
            if vec.len() > 0 {
                let first_val = &vec[0];
                if let Some(date_str) = utf8_text(first_val.as_slice()) {
                    metadata.date_taken = Some(date_str);
                }
            }
        }
        metadata
    }
}

/// Bytes or an error message, by their text.
pub open spec fn bytes_result_text(r: Result<Vec<u8>, String>) -> Result<Seq<u8>, Seq<char>> {
    match r {
        Ok(b) => Ok(b@),
        Err(e) => Err(e@),
    }
}

/// What `jpeg_decoder` makes of a JPEG file's bytes when asked to decode it
/// scaled towards `width` by `height`: the decoded pixels and the frame's
/// dimensions when it reports them, or the decoder's error message.
pub uninterp spec fn jpeg_decode_scaled(bytes: Seq<u8>, width: u16, height: u16) -> Result<
    (Seq<u8>, Option<(u16, u16)>),
    Seq<char>,
>;

/// A decoding result by its text.
pub open spec fn decoded_text(r: Result<(Vec<u8>, Option<(u16, u16)>), String>) -> Result<
    (Seq<u8>, Option<(u16, u16)>),
    Seq<char>,
> {
    match r {
        Ok((pixels, info)) => Ok((pixels@, info)),
        Err(e) => Err(e@),
    }
}

/// `jpeg_decoder::Decoder` over the bytes: `scale(width, height)`, then
/// `decode()`, then `info()` for the frame's size; an error of either step is
/// returned as its message. The result is the named decoding above.
#[verifier::external_body]
fn decode_jpeg_scaled(bytes: &[u8], width: u16, height: u16) -> (r: Result<
    (Vec<u8>, Option<(u16, u16)>),
    String,
>)
    ensures
        decoded_text(r) == jpeg_decode_scaled(bytes@, width, height),
{
    let mut decoder = jpeg_decoder::Decoder::new(std::io::Cursor::new(bytes));
    decoder.scale(width, height).map_err(|e| e.to_string())?;
    let pixels = decoder.decode().map_err(|e| e.to_string())?;
    Ok((pixels, decoder.info().map(|info| (info.width, info.height))))
}

/// What `image` makes of an 8-bit RGB pixel buffer of `width` by `height`
/// resized with the triangle filter to fit `target_width` by `target_height`
/// (keeping its aspect ratio) and written as JPEG: the file's bytes or the
/// encoder's error message.
pub uninterp spec fn rgb8_resized_jpeg(
    pixels: Seq<u8>,
    width: u32,
    height: u32,
    target_width: u32,
    target_height: u32,
) -> Result<Seq<u8>, Seq<char>>;

/// `image::ImageBuffer::<Rgb<u8>, _>::from_raw`, which refuses a buffer
/// shorter than three bytes per pixel, then `DynamicImage::resize` with the
/// triangle filter and `write_to` in JPEG format. The bytes written are the
/// named result above. `write_to` encodes with `JpegEncoder::new`, which is
/// quality 75, the resized 8-bit RGB image of the size `resize` gives; that
/// size fits a target box of at least one pixel each way.
#[verifier::external_body]
fn resize_rgb8_as_jpeg(
    pixels: Vec<u8>,
    width: u32,
    height: u32,
    target_width: u32,
    target_height: u32,
) -> (r: Option<Result<Vec<u8>, String>>)
    ensures
        r is None <==> pixels@.len() < 3 * width * height,
        r matches Some(res) ==> bytes_result_text(res) == rgb8_resized_jpeg(
            pixels@,
            width,
            height,
            target_width,
            target_height,
        ),
        r matches Some(Ok(b)) ==> ({
            let (w2, h2) = resized_dimensions(width, height, target_width, target_height);
            &&& (1 <= target_width && 1 <= target_height ==> w2 <= target_width && h2
                <= target_height)
            &&& exists|p: Seq<u8>| p.len() == 3 * w2 * h2 && #[trigger] jpeg_encoding(p, w2, h2, 75) == Ok::<Seq<u8>, Seq<char>>(b@)
        }),
{
    let buffer = image::ImageBuffer::<image::Rgb<u8>, Vec<u8>>::from_raw(width, height, pixels)?;
    let resized = image::DynamicImage::ImageRgb8(buffer).resize(
        target_width,
        target_height,
        image::imageops::FilterType::Triangle,
    );
    let mut out = std::io::Cursor::new(Vec::new());
    Some(resized.write_to(&mut out, image::ImageFormat::Jpeg).map(|_| out.into_inner()).map_err(|e| e.to_string()))
}

/// Whether `bytes` are a JPEG, at encoder quality `quality`, of some 8-bit RGB
/// image at most `max_width` wide and `max_height` high.
pub open spec fn jpeg_within(bytes: Seq<u8>, max_width: u32, max_height: u32, quality: u8) -> bool {
    exists|p: Seq<u8>, w: u32, h: u32|
        w <= max_width && h <= max_height && p.len() == 3 * w * h && #[trigger] jpeg_encoding(p, w, h, quality)
            == Ok::<Seq<u8>, Seq<char>>(bytes)
}

/// The thumbnail of a camera JPG given how its decoding went: the decoder's
/// error; `Decoder error` when it reported no frame size; `Failed to create
/// image buffer` when the pixels do not fill an RGB image of that size;
/// otherwise the image resized to fit the thumbnail size, as JPEG.
pub open spec fn jpg_thumbnail_result(decoded: Result<(Seq<u8>, Option<(u16, u16)>), Seq<char>>) -> Result<
    Seq<u8>,
    Seq<char>,
> {
    match decoded {
        Err(e) => Err(e),
        Ok((_, None)) => Err("Decoder error"@),
        Ok((pixels, Some((w, h)))) => if pixels.len() < 3 * w * h {
            Err("Failed to create image buffer"@)
        } else {
            rgb8_resized_jpeg(pixels, w as u32, h as u32, THUMBNAIL_WIDTH, THUMBNAIL_HEIGHT)
        },
    }
}

/// Makes the thumbnail from how the decoding of a camera JPG went.
pub fn thumbnail_from_decoded_jpg(decoded: Result<(Vec<u8>, Option<(u16, u16)>), String>) -> (r:
    Result<Vec<u8>, String>)
    ensures
        bytes_result_text(r) == jpg_thumbnail_result(decoded_text(decoded)),
        r matches Ok(b) ==> jpeg_within(b@, 300, 200, 75),
{
    match decoded {
        Err(e) => Err(e),
        Ok((pixels, info)) => match info {
            None => Err(String::from_str("Decoder error")),
            Some((w, h)) => match resize_rgb8_as_jpeg(
                pixels,
                w as u32,
                h as u32,
                THUMBNAIL_WIDTH,
                THUMBNAIL_HEIGHT,
            ) {
                None => Err(String::from_str("Failed to create image buffer")),
                Some(res) => {
                    proof {
                        if let Ok(b) = &res {
                            let (w2, h2) = resized_dimensions(
                                w as u32,
                                h as u32,
                                THUMBNAIL_WIDTH,
                                THUMBNAIL_HEIGHT,
                            );
                            let p = choose|p: Seq<u8>|
                                p.len() == 3 * w2 * h2 && #[trigger] jpeg_encoding(p, w2, h2, 75) == Ok::<Seq<u8>, Seq<char>>(b@);
                            assert(jpeg_encoding(p, w2, h2, 75) == Ok::<Seq<u8>, Seq<char>>(b@));
                        }
                    }
                    res
                },
            },
        },
    }
}

/// The JPEG thumbnail of a camera JPG file's bytes: decoded at a scale near
/// the thumbnail size, then resized to fit 300 by 200.
pub fn create_thumbnail_from_jpg(jpg: &[u8]) -> (r: Result<Vec<u8>, String>)
    ensures
        bytes_result_text(r) == jpg_thumbnail_result(
            jpeg_decode_scaled(jpg@, THUMBNAIL_WIDTH as u16, THUMBNAIL_HEIGHT as u16),
        ),
        r matches Ok(b) ==> jpeg_within(b@, 300, 200, 75),
{
    let decoded = decode_jpeg_scaled(jpg, THUMBNAIL_WIDTH as u16, THUMBNAIL_HEIGHT as u16);
    thumbnail_from_decoded_jpg(decoded)
}

/// How a thumbnail is made.
pub enum ThumbnailJob {
    /// Render the raw file into `output_path` at the given size and format.
    RenderRaw {
        output_path: String,
        target_width: u32,
        target_height: u32,
        out_file_type: PipelineOutFile,
    },
    /// Scale the JPG at `input_path` down into `output_path`.
    FromJpg { input_path: String, output_path: String },
    /// Nothing to make a thumbnail from.
    Nothing,
}

/// The thumbnail a raw gets in a thumbnail sweep: rendered from the raw file
/// (as WebP, 300 by 200) when it has one; else, for older shots without a raw
/// file, scaled from the camera JPG; else none.
pub fn create_thumbnail(raw: &RawRecord, content_root: &str) -> (job: ThumbnailJob)
    ensures
        (raw.raw_path matches Some(p) && p@.len() > 0) ==> (job matches ThumbnailJob::RenderRaw {
            output_path,
            target_width,
            target_height,
            out_file_type,
        } && output_path@ == raw_thumbnail_path(content_root@, raw.cam_id@) && target_width
            == THUMBNAIL_WIDTH && target_height == THUMBNAIL_HEIGHT && out_file_type
            == PipelineOutFile::WEBP),
        !(raw.raw_path matches Some(p) && p@.len() > 0) ==> match raw.jpg_path {
            Some(jpg) => job matches ThumbnailJob::FromJpg { input_path, output_path }
                && input_path@ == jpg@ && output_path@ == raw_thumbnail_path(
                content_root@,
                raw.cam_id@,
            ),
            None => job is Nothing,
        },
{
    let output_path = raw.get_thumbnail_path(content_root);
    if raw.has_nef_file() {
        ThumbnailJob::RenderRaw {
            output_path,
            target_width: THUMBNAIL_WIDTH,
            target_height: THUMBNAIL_HEIGHT,
            out_file_type: PipelineOutFile::WEBP,
        }
    } else {
        match &raw.jpg_path {
            Some(jpg) => ThumbnailJob::FromJpg { input_path: jpg.clone(), output_path },
            None => ThumbnailJob::Nothing,
        }
    }
}

impl RawRecord {
    /// The thumbnail this raw gets when asked for one: scaled from the camera
    /// JPG when there is one, else rendered from the raw file (as JPEG, 300 by 200).
    pub fn create_thumbnail(&self, content_root: &str) -> (job: ThumbnailJob)
        ensures
            match self.jpg_path {
                Some(jpg) => job matches ThumbnailJob::FromJpg { input_path, output_path }
                    && input_path@ == jpg@ && output_path@ == raw_thumbnail_path(
                    content_root@,
                    self.cam_id@,
                ),
                None => job matches ThumbnailJob::RenderRaw {
                    output_path,
                    target_width,
                    target_height,
                    out_file_type,
                } && output_path@ == raw_thumbnail_path(content_root@, self.cam_id@)
                    && target_width == THUMBNAIL_WIDTH && target_height == THUMBNAIL_HEIGHT
                    && out_file_type == PipelineOutFile::JPEG,
            },
    {
        let output_path = self.get_thumbnail_path(content_root);
        match &self.jpg_path {
            Some(jpg) => ThumbnailJob::FromJpg { input_path: jpg.clone(), output_path },
            None => ThumbnailJob::RenderRaw {
                output_path,
                target_width: THUMBNAIL_WIDTH,
                target_height: THUMBNAIL_HEIGHT,
                out_file_type: PipelineOutFile::JPEG,
            },
        }
    }
}

} // verus!
