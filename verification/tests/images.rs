use birber::entities::pipeline_parameters::PipelineOutFile;
use birber::photo_file_manager::{create_thumbnail_from_jpg, thumbnail_from_decoded_jpg};
use birber::raw_processing::{encode_render_result, encode_rendered_pixels, RenderPipelineResult};

fn sample_jpeg(width: u32, height: u32) -> Vec<u8> {
    let img = image::RgbImage::from_fn(width, height, |x, y| image::Rgb([(x % 256) as u8, (y % 256) as u8, 128]));
    let mut out = std::io::Cursor::new(Vec::new());
    image::DynamicImage::ImageRgb8(img).write_to(&mut out, image::ImageFormat::Jpeg).unwrap();
    out.into_inner()
}

#[test]
fn jpg_thumbnail_fits_thumbnail_size() {
    let thumb = create_thumbnail_from_jpg(&sample_jpeg(1200, 800)).unwrap();
    assert_eq!(&thumb[..2], &[0xFF, 0xD8]);
    let decoded = image::load_from_memory(&thumb).unwrap();
    assert_eq!((decoded.width(), decoded.height()), (300, 200));
}

#[test]
fn jpg_thumbnail_of_garbage_is_an_error() {
    assert!(create_thumbnail_from_jpg(b"not a jpeg").is_err());
    assert!(create_thumbnail_from_jpg(&[]).is_err());
}

#[test]
fn render_result_encodings() {
    let (w, h) = (40u32, 20u32);
    let pixels: Vec<u16> = (0..(w * h * 3)).map(|i| (i * 97 % 65536) as u16).collect();
    let webp = encode_render_result(
        RenderPipelineResult { pixels: pixels.clone(), width: w, height: h },
        20,
        10,
        PipelineOutFile::WEBP,
    )
    .unwrap();
    assert_eq!(&webp[..4], b"RIFF");
    let decoded = image::load_from_memory(&webp).unwrap();
    assert_eq!((decoded.width(), decoded.height()), (20, 10));
    let jpeg = encode_render_result(
        RenderPipelineResult { pixels, width: w, height: h },
        20,
        10,
        PipelineOutFile::JPEG,
    )
    .unwrap();
    assert_eq!(&jpeg[..2], &[0xFF, 0xD8]);
}

#[test]
fn short_render_result_is_refused() {
    let r = encode_render_result(
        RenderPipelineResult { pixels: vec![0u16; 5], width: 2, height: 2 },
        1,
        1,
        PipelineOutFile::JPEG,
    );
    assert_eq!(r, Err("Render result to imagebuffer error".to_string()));
}

#[test]
fn rgb8_pixels_encoded_by_type() {
    let pixels = vec![200u8; 4 * 3 * 3];
    let webp = encode_rendered_pixels(&pixels, 4, 3, PipelineOutFile::WEBP).unwrap();
    assert_eq!(&webp[..4], b"RIFF");
    let jpeg = encode_rendered_pixels(&pixels, 4, 3, PipelineOutFile::JPEG).unwrap();
    assert_eq!(&jpeg[..2], &[0xFF, 0xD8]);
}

#[test]
fn decoded_jpg_errors() {
    assert_eq!(thumbnail_from_decoded_jpg(Err("bad marker".to_string())), Err("bad marker".to_string()));
    assert_eq!(thumbnail_from_decoded_jpg(Ok((vec![], None))), Err("Decoder error".to_string()));
    assert_eq!(
        thumbnail_from_decoded_jpg(Ok((vec![1, 2, 3], Some((2, 2))))),
        Err("Failed to create image buffer".to_string())
    );
    let ok = thumbnail_from_decoded_jpg(Ok((vec![50u8; 4 * 4 * 3], Some((4, 4))))).unwrap();
    assert_eq!(&ok[..2], &[0xFF, 0xD8]);
}

#[test]
fn render_fits_target_box_keeping_aspect() {
    let (w, h) = (40u32, 20u32);
    let pixels = vec![1000u16; (w * h * 3) as usize];
    let out = encode_render_result(RenderPipelineResult { pixels, width: w, height: h }, 20, 20, PipelineOutFile::WEBP)
        .unwrap();
    let decoded = image::load_from_memory(&out).unwrap();
    assert_eq!((decoded.width(), decoded.height()), (20, 10));
    let tall = encode_render_result(
        RenderPipelineResult { pixels: vec![0u16; (w * h * 3) as usize], width: h, height: w },
        20,
        20,
        PipelineOutFile::WEBP,
    )
    .unwrap();
    let decoded = image::load_from_memory(&tall).unwrap();
    assert_eq!((decoded.width(), decoded.height()), (10, 20));
}
