//! Rendering a raw: the command line and messages around the raw converter
//! (`dcraw_emu`). Running it and the pixel pipeline belong to the caller.
use vstd::prelude::*;

use crate::decimal::{push_signed_decimal, signed_decimal_text};
use crate::entities::pipeline_parameters::PipelineOutFile;
use crate::photo_file_manager::bytes_result_text;

verus! {

/// The arguments of the converter: 16-bit linear TIFF output (`-4`, `-T`) in
/// the camera's raw colors (`-o0`), at half size (`-h`) when the render is
/// resized anyway, then the raw file.
pub open spec fn dcraw_arguments_text(input_path: Seq<char>, resized: bool) -> Seq<Seq<char>> {
    if resized {
        seq!["-4"@, "-T"@, "-h"@, "-o0"@, input_path]
    } else {
        seq!["-4"@, "-T"@, "-o0"@, input_path]
    }
}

/// The converter's arguments for `input_path`.
pub fn dcraw_arguments(input_path: &str, resized: bool) -> (args: Vec<String>)
    ensures
        args@.map_values(|a: String| a@) == dcraw_arguments_text(input_path@, resized),
{
    let mut args: Vec<String> = Vec::new();
    args.push(String::from_str("-4"));
    args.push(String::from_str("-T"));
    args.push(String::from_str("-o0"));
    args.push(String::from_str(input_path));
    if resized {
        args.insert(2, String::from_str("-h"));
    }
    assert(args@.map_values(|a: String| a@) =~= dcraw_arguments_text(input_path@, resized));
    args
}

/// Where the converter writes the TIFF for `input_path`.
pub fn tiff_output_path(input_path: &str) -> (p: String)
    ensures
        p@ == input_path@ + ".tiff"@,
{
    let mut p = String::from_str(input_path);
    p.append(".tiff");
    p
}

/// The search path the converter runs with: the folder of bundled binaries
/// first, then the current search path.
pub fn dcraw_search_path(binaries_path: &str, current_path: &str) -> (p: String)
    ensures
        p@ == binaries_path@ + ";"@ + current_path@,
{
    let mut p = String::from_str(binaries_path);
    p.append(";");
    p.append(current_path);
    p
}

/// The debug text of an optional exit code: `Some(3)` or `None`.
pub open spec fn exit_code_text(code: Option<i32>) -> Seq<char> {
    match code {
        Some(c) => "Some("@ + signed_decimal_text(c as int) + ")"@,
        None => "None"@,
    }
}

/// The error reported when the converter fails.
pub fn dcraw_failure_message(exit_code: Option<i32>, stderr_text: &str) -> (m: String)
    ensures
        m@ == "dcraw_emu exited with error code "@ + exit_code_text(exit_code)
            + ". System message: "@ + stderr_text@,
{
    let mut m = String::from_str("dcraw_emu exited with error code ");
    match exit_code {
        Some(c) => {
            m.append("Some(");
            push_signed_decimal(&mut m, c as i64);
            m.append(")");
        },
        None => {
            m.append("None");
        },
    }
    m.append(". System message: ");
    m.append(stderr_text);
    m
}

/// The pixels that the render pipeline produced: 16-bit RGB, row by row.
pub struct RenderPipelineResult {
    pub pixels: Vec<u16>,
    pub width: u32,
    pub height: u32,
}

/// The size that `image`'s `DynamicImage::resize` gives an image of `width`
/// by `height` asked to fit `target_width` by `target_height` keeping its
/// aspect ratio (each side at least one pixel). It is computed from the four
/// sizes alone, in `f64` division and rounding.
pub uninterp spec fn resized_dimensions(
    width: u32,
    height: u32,
    target_width: u32,
    target_height: u32,
) -> (u32, u32);

/// `image::ImageBuffer::<Rgb<u16>, _>::from_raw`, which refuses a buffer
/// shorter than three values per pixel, then `DynamicImage::resize` with the
/// Lanczos filter (keeping the aspect ratio, to fit `target_width` by
/// `target_height`) and `to_rgb8`, whose buffer holds exactly three bytes per
/// pixel. The Lanczos kernel uses `f32::sin`, whose precision std leaves to
/// the platform, so the pixels are not stated; their size is the named size above,
/// which fits a target box of at least one pixel each way.
#[verifier::external_body]
fn resize_rgb16_to_rgb8(
    pixels: Vec<u16>,
    width: u32,
    height: u32,
    target_width: u32,
    target_height: u32,
) -> (r: Option<(Vec<u8>, u32, u32)>)
    ensures
        r is None <==> pixels@.len() < 3 * width * height,
        r matches Some((p, w, h)) ==> p@.len() == 3 * w * h,
        r matches Some((p, w, h)) ==> (w, h) == resized_dimensions(
            width,
            height,
            target_width,
            target_height,
        ),
        r matches Some((p, w, h)) ==> (1 <= target_width && 1 <= target_height ==> w
            <= target_width && h <= target_height),
{
    let buffer = image::ImageBuffer::<image::Rgb<u16>, Vec<u16>>::from_raw(width, height, pixels)?;
    let resized = image::DynamicImage::ImageRgb16(buffer).resize(
        target_width,
        target_height,
        image::imageops::FilterType::Lanczos3,
    ).to_rgb8();
    let (w, h) = (resized.width(), resized.height());
    Some((resized.into_raw(), w, h))
}

/// What `image`'s lossless WebP encoder writes for 8-bit RGB pixels of
/// `width` by `height`: the file's bytes or the encoder's error message.
pub uninterp spec fn webp_lossless_encoding(pixels: Seq<u8>, width: u32, height: u32) -> Result<
    Seq<u8>,
    Seq<char>,
>;

/// `image::codecs::webp::WebPEncoder::new_lossless`, then `write_image` of
/// the RGB pixels (which panics unless they are exactly three bytes per pixel).
#[verifier::external_body]
fn encode_webp_lossless(pixels: &[u8], width: u32, height: u32) -> (r: Result<Vec<u8>, String>)
    requires
        pixels@.len() == 3 * width * height,
    ensures
        bytes_result_text(r) == webp_lossless_encoding(pixels@, width, height),
{
    let mut out: Vec<u8> = Vec::new();
    let encoder = image::codecs::webp::WebPEncoder::new_lossless(&mut out);
    image::ImageEncoder::write_image(encoder, pixels, width, height, image::ExtendedColorType::Rgb8)
        .map_err(|e| e.to_string())?;
    Ok(out)
}

/// What `image`'s JPEG encoder at `quality` writes for 8-bit RGB pixels of
/// `width` by `height`: the file's bytes or the encoder's error message.
pub uninterp spec fn jpeg_encoding(pixels: Seq<u8>, width: u32, height: u32, quality: u8) -> Result<
    Seq<u8>,
    Seq<char>,
>;

/// `image::codecs::jpeg::JpegEncoder::new_with_quality`, then `write_image`
/// of the RGB pixels (which panics unless they are exactly three bytes per pixel).
#[verifier::external_body]
fn encode_jpeg(pixels: &[u8], width: u32, height: u32, quality: u8) -> (r: Result<Vec<u8>, String>)
    requires
        pixels@.len() == 3 * width * height,
    ensures
        bytes_result_text(r) == jpeg_encoding(pixels@, width, height, quality),
{
    let mut out: Vec<u8> = Vec::new();
    let encoder = image::codecs::jpeg::JpegEncoder::new_with_quality(&mut out, quality);
    image::ImageEncoder::write_image(encoder, pixels, width, height, image::ExtendedColorType::Rgb8)
        .map_err(|e| e.to_string())?;
    Ok(out)
}

/// The quality that rendered JPEGs are written at.
pub const JPEG_QUALITY: u8 = 95;

/// The file that 8-bit RGB pixels are written as: lossless WebP, or JPEG at quality 95.
pub open spec fn encoded_render(
    pixels: Seq<u8>,
    width: u32,
    height: u32,
    out_file_type: PipelineOutFile,
) -> Result<Seq<u8>, Seq<char>> {
    match out_file_type {
        PipelineOutFile::WEBP => webp_lossless_encoding(pixels, width, height),
        PipelineOutFile::JPEG => jpeg_encoding(pixels, width, height, JPEG_QUALITY),
    }
}

/// Encodes 8-bit RGB pixels in the requested file type.
pub fn encode_rendered_pixels(
    pixels: &[u8],
    width: u32,
    height: u32,
    out_file_type: PipelineOutFile,
) -> (r: Result<Vec<u8>, String>)
    requires
        pixels@.len() == 3 * width * height,
    ensures
        bytes_result_text(r) == encoded_render(pixels@, width, height, out_file_type),
        out_file_type == PipelineOutFile::JPEG ==> bytes_result_text(r) == jpeg_encoding(
            pixels@,
            width,
            height,
            95,
        ),
        out_file_type == PipelineOutFile::WEBP ==> bytes_result_text(r) == webp_lossless_encoding(
            pixels@,
            width,
            height,
        ),
{
    match out_file_type {
        PipelineOutFile::WEBP => encode_webp_lossless(pixels, width, height),
        PipelineOutFile::JPEG => encode_jpeg(pixels, width, height, JPEG_QUALITY),
    }
}

/// The bytes of the file that a render result is saved as: an error when the
/// pixels do not fill an RGB image of the result's size; otherwise the image
/// resized to fit the target size (keeping its aspect ratio), converted to
/// 8 bits and encoded in the requested type. The resized pixels themselves are
/// not stated, only their size.
pub fn encode_render_result(
    result: RenderPipelineResult,
    target_width: u32,
    target_height: u32,
    out_file_type: PipelineOutFile,
) -> (r: Result<Vec<u8>, String>)
    ensures
        result.pixels@.len() < 3 * result.width * result.height ==> (r matches Err(e) && e@
            == "Render result to imagebuffer error"@),
        result.pixels@.len() >= 3 * result.width * result.height ==> ({
            let (w, h) = resized_dimensions(
                result.width,
                result.height,
                target_width,
                target_height,
            );
            exists|p: Seq<u8>|
                p.len() == 3 * w * h && bytes_result_text(r) == #[trigger] encoded_render(
                    p,
                    w,
                    h,
                    out_file_type,
                )
        }),
        result.pixels@.len() >= 3 * result.width * result.height ==> ({
            let (w, h) = resized_dimensions(
                result.width,
                result.height,
                target_width,
                target_height,
            );
            &&& (1 <= target_width && 1 <= target_height ==> w <= target_width && h
                <= target_height)
            &&& exists|p: Seq<u8>|
                #![trigger jpeg_encoding(p, w, h, 95)]
                #![trigger webp_lossless_encoding(p, w, h)]
                p.len() == 3 * w * h && (out_file_type == PipelineOutFile::JPEG
                    ==> bytes_result_text(r) == jpeg_encoding(p, w, h, 95)) && (out_file_type
                    == PipelineOutFile::WEBP ==> bytes_result_text(r) == webp_lossless_encoding(
                    p,
                    w,
                    h,
                ))
        }),
{
    let RenderPipelineResult { pixels, width, height } = result;
    match resize_rgb16_to_rgb8(pixels, width, height, target_width, target_height) {
        None => Err(String::from_str("Render result to imagebuffer error")),
        Some((rgb8, w, h)) => {
            let r = encode_rendered_pixels(rgb8.as_slice(), w, h, out_file_type);
            let ghost dims = resized_dimensions(width, height, target_width, target_height);
            assert(dims.0 == w && dims.1 == h);
            assert(rgb8@.len() == 3 * dims.0 * dims.1 && bytes_result_text(r) == encoded_render(
                rgb8@,
                dims.0,
                dims.1,
                out_file_type,
            ));
            r
        },
    }
}

} // verus!
