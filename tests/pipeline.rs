use art_exposure::border::{add_border, add_transparent_border, add_uniform_border};
use art_exposure::caption::{caption_layout, GlyphScale};
use art_exposure::pixels::{Pixel, PixelBuffer};
use art_exposure::resize::{process_image, resize, resize_image, PipelineError};

fn px(r: u8, g: u8, b: u8, a: u8) -> Pixel {
    Pixel { r, g, b, a }
}

/// A raster whose pixels all differ, so that misplaced copies show.
fn gradient(width: u32, height: u32) -> PixelBuffer {
    let mut img = PixelBuffer::filled(width, height, px(0, 0, 0, 255));
    for y in 0..height {
        for x in 0..width {
            img.set_pixel(x, y, px(x as u8, y as u8, (x * 7 + y) as u8, 200));
        }
    }
    img
}

fn png_bytes(width: u32, height: u32) -> Vec<u8> {
    let img = image::RgbaImage::from_pixel(width, height, image::Rgba([10, 20, 30, 255]));
    let mut out = std::io::Cursor::new(Vec::new());
    img.write_to(&mut out, image::ImageOutputFormat::Png).unwrap();
    out.into_inner()
}

#[test]
fn resize_keeps_aspect_ratio() {
    let img = PixelBuffer::filled(400, 300, px(1, 2, 3, 255));
    let out = resize(&img, 600).unwrap();
    assert_eq!((out.width, out.height), (800, 600));
    assert_eq!(out.rows.len(), 600);
    assert!(out.rows.iter().all(|row| row.len() == 800));
}

#[test]
fn resize_rounds_to_nearest_width() {
    // 3 * 2 / 4 = 1.5 rounds up to 2; 5 * 1 / 3 = 1.67 rounds to 2; 4 * 1 / 3 = 1.33 rounds to 1
    assert_eq!(resize(&PixelBuffer::filled(3, 4, px(0, 0, 0, 0)), 2).unwrap().width, 2);
    assert_eq!(resize(&PixelBuffer::filled(5, 3, px(0, 0, 0, 0)), 1).unwrap().width, 2);
    assert_eq!(resize(&PixelBuffer::filled(4, 3, px(0, 0, 0, 0)), 1).unwrap().width, 1);
}

#[test]
fn resize_to_same_size_copies() {
    let img = gradient(6, 4);
    let out = resize(&img, 4).unwrap();
    assert_eq!(out.rows, img.rows);
}

#[test]
fn resize_refuses_empty_and_oversized_images() {
    assert_eq!(resize(&PixelBuffer::filled(0, 5, px(0, 0, 0, 0)), 10).unwrap_err(), PipelineError::EmptyImage);
    assert_eq!(resize(&PixelBuffer::filled(5, 0, px(0, 0, 0, 0)), 10).unwrap_err(), PipelineError::EmptyImage);
    assert_eq!(
        resize(&PixelBuffer::filled(1, 1, px(0, 0, 0, 0)), u32::MAX).unwrap_err(),
        PipelineError::TooLarge
    );
}

#[test]
fn resize_image_decodes_then_scales() {
    let out = resize_image(&png_bytes(40, 30), 60).unwrap();
    assert_eq!((out.width, out.height), (80, 60));
    assert_eq!(out.pixel(10, 10), px(10, 20, 30, 255));
}

#[test]
fn resize_image_rejects_undecodable_bytes() {
    assert_eq!(resize_image(&vec![1, 2, 3, 4], 60).unwrap_err(), PipelineError::Decode);
}

#[test]
fn process_image_frames_resized_image() {
    let out = process_image(&png_bytes(40, 30), 60).unwrap();
    assert_eq!((out.width, out.height), (280, 260));
    assert_eq!(out.pixel(0, 0).a, 0);
    assert_eq!(out.pixel(279, 259).a, 0);
    assert_eq!(out.pixel(100, 100), px(10, 20, 30, 255));
    assert_eq!(process_image(&vec![0; 16], 60).unwrap_err(), PipelineError::Decode);
}

#[test]
fn uniform_border_round_trip() {
    let (w, h) = (5u32, 3u32);
    let img = gradient(w, h);
    let out = add_uniform_border(&img, 100);
    assert_eq!((out.width, out.height), (w + 200, h + 200));
    for y in 0..out.height {
        for x in 0..out.width {
            let inside = x >= 100 && x < w + 100 && y >= 100 && y < h + 100;
            if inside {
                assert_eq!(out.pixel(x, y), img.pixel(x - 100, y - 100));
            } else {
                assert_eq!(out.pixel(x, y).a, 0);
            }
        }
    }
}

#[test]
fn caption_border_is_deeper_at_the_bottom() {
    let img = gradient(4, 2);
    let out = add_transparent_border(&img, 10);
    assert_eq!((out.width, out.height), (24, 2 + 10 + 30));
    assert_eq!(out.pixel(10, 10), img.pixel(0, 0));
    assert_eq!(out.pixel(13, 11), img.pixel(3, 1));
    assert_eq!(out.pixel(10, 12), px(0, 0, 0, 0));
    assert_eq!(out.pixel(14, 11), px(0, 0, 0, 0));
}

#[test]
fn border_of_width_zero_is_identity() {
    let img = gradient(3, 3);
    let out = add_border(&img, 0, 5);
    assert_eq!(out.rows, img.rows);
}

#[test]
fn caption_positions_and_scales() {
    let c = caption_layout(1000, 800, "Water Lilies", "Monet");
    assert_eq!((c.title.x, c.title.y), (300, 525));
    assert_eq!(c.title.scale, GlyphScale { num: 1000, den: 12 });
    // 1000 / 12 = 83 whole pixels lower than the artist's own rise
    assert_eq!((c.artist.x, c.artist.y), (400, 800 - 250 + 83));
    assert_eq!(c.artist.scale, GlyphScale { num: 1000, den: 10 });
}

#[test]
fn caption_of_empty_texts() {
    let c = caption_layout(200, 100, "", "");
    assert_eq!(c.title.scale, GlyphScale { num: 0, den: 1 });
    assert_eq!(c.artist.scale, GlyphScale { num: 0, den: 1 });
    assert_eq!((c.title.y, c.artist.y), (100 - 275, 100 - 250));
    assert_eq!((c.title.x, c.artist.x), (60, 80));
}

#[test]
fn caption_counts_characters() {
    let c = caption_layout(90, 500, "Été", "ab");
    assert_eq!(c.title.scale, GlyphScale { num: 90, den: 3 });
    assert_eq!(c.artist.y, 500 - 250 + 30);
}
