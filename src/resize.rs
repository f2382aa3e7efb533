use vstd::prelude::*;
use crate::border::{add_uniform_border, framed_at};
use crate::pixels::{fits_in_memory, Pixel, PixelBuffer};

verus! {

#[verifier::external_type_specification]
#[verifier::external_body]
pub struct ExImageError(image::ImageError);

/// The width and height of the image that a byte stream holds, or `None`
/// when it is no image of a supported format.
pub uninterp spec fn decoded_size(bytes: Seq<u8>) -> Option<(nat, nat)>;

/// Why the image pipeline stopped.
#[derive(Clone, Copy, Debug, PartialEq, Eq, Structural)]
pub enum PipelineError {
    /// The bytes are no image of a supported format.
    Decode,
    /// The image has no pixels, so it has no aspect ratio.
    EmptyImage,
    /// The result would be too large to hold.
    TooLarge,
}

/// Relies on `image::load_from_memory`, converted to RGBA with
/// `DynamicImage::to_rgba8`: the decoded image, or the decoder's error.
/// Whether the bytes decode, and to what size, depends on the bytes alone;
/// the pixel values may differ in their last bits from one CPU to another
/// (the JPEG decoder picks a SIMD path at run time), so they get no name.
#[verifier::external_body]
fn load_rgba(bytes: &Vec<u8>) -> (r: Result<PixelBuffer, image::ImageError>)
    ensures
        match r {
            Ok(img) => img.wf() && decoded_size(bytes@) == Some(
                (img.width as nat, img.height as nat),
            ),
            Err(_) => decoded_size(bytes@) is None,
        },
{
    let img = image::load_from_memory(bytes)?.to_rgba8();
    let (width, height) = img.dimensions();
    let rows = (0..height).map(|y| (0..width).map(|x| {
        let p = img.get_pixel(x, y);
        Pixel { r: p[0], g: p[1], b: p[2], a: p[3] }
    }).collect()).collect();
    Ok(PixelBuffer { width, height, rows })
}

/// Relies on `image::imageops::resize` with `FilterType::Lanczos3`: a raster
/// of exactly the requested size, and a plain copy when that size is the
/// source's own. The resampled pixel values rest on `f32::sin`, whose
/// precision std leaves to the platform, so nothing more is said of them.
#[verifier::external_body]
fn resample(image: &PixelBuffer, width: u32, height: u32) -> (r: PixelBuffer)
    requires
        image.wf(),
        image.width > 0,
        image.height > 0,
        fits_in_memory(width as int, height as int),
        fits_in_memory(image.width as int, height as int),
    ensures
        r.wf(),
        r.width == width,
        r.height == height,
        width == image.width && height == image.height ==> r.grid() == image.grid(),
{
    let src = image::RgbaImage::from_fn(image.width, image.height, |x, y| {
        let p = image.pixel(x, y);
        image::Rgba([p.r, p.g, p.b, p.a])
    });
    let out = image::imageops::resize(&src, width, height, image::imageops::FilterType::Lanczos3);
    let rows = (0..height).map(|y| (0..width).map(|x| {
        let p = out.get_pixel(x, y);
        Pixel { r: p[0], g: p[1], b: p[2], a: p[3] }
    }).collect()).collect();
    PixelBuffer { width, height, rows }
}

/// `width * target_height / height` rounded to the nearest integer, halves
/// up: the width that keeps the aspect ratio at the target height.
pub open spec fn scaled_width(width: int, height: int, target_height: int) -> int {
    (2 * width * target_height + height) / (2 * height)
}

/// The outcome of resizing a `width` by `height` raster to `target_height`
/// rows: the new width and height, or why it cannot be done.
pub open spec fn resized(width: nat, height: nat, target_height: nat) -> Result<(nat, nat), PipelineError> {
    let new_width = scaled_width(width as int, height as int, target_height as int);
    if width == 0 || height == 0 {
        Err(PipelineError::EmptyImage)
    } else if new_width > u32::MAX || !fits_in_memory(new_width, target_height as int)
        || !fits_in_memory(width as int, target_height as int) {
        Err(PipelineError::TooLarge)
    } else {
        Ok((new_width as nat, target_height))
    }
}

/// Whether `r` is the outcome `expected` of a resize step: the error, or a
/// well-formed raster of the expected size.
pub open spec fn resize_matches(r: Result<PixelBuffer, PipelineError>, expected: Result<(nat, nat), PipelineError>) -> bool {
    match r {
        Ok(out) => out.wf() && expected == Ok::<(nat, nat), PipelineError>(
            (out.width as nat, out.height as nat),
        ),
        Err(e) => expected == Err::<(nat, nat), PipelineError>(e),
    }
}

proof fn lemma_product_bound(a: u32, b: u32)
    ensures
        0 <= (a as int) * (b as int) <= (u32::MAX as int) * (u32::MAX as int),
{
    assert(0 <= (a as int) * (b as int) <= (u32::MAX as int) * (u32::MAX as int)) by (nonlinear_arith);
}

/// Whether a raster of the given size fits in memory, decided without
/// overflow.
fn raster_fits(width: u32, height: u32) -> (r: bool)
    ensures
        r == fits_in_memory(width as int, height as int),
{
    proof {
        lemma_product_bound(width, height);
    }
    (width as u128) * (height as u128) * 4 <= usize::MAX as u128
}

/// Resizes `image` to `target_height` rows with a Lanczos filter, keeping
/// its aspect ratio: the new width is `width * target_height / height`,
/// rounded to the nearest integer.
pub fn resize(image: &PixelBuffer, target_height: u32) -> (r: Result<PixelBuffer, PipelineError>)
    requires
        image.wf(),
    ensures
        resize_matches(r, resized(image.width as nat, image.height as nat, target_height as nat)),
        r matches Ok(out) ==> (out.width == image.width && out.height == image.height ==> out.grid()
            == image.grid()),
{
    if image.width == 0 || image.height == 0 {
        return Err(PipelineError::EmptyImage);
    }
    proof {
        lemma_product_bound(image.width, target_height);
    }
    let product: u128 = (image.width as u128) * (target_height as u128);
    let num: u128 = 2 * product + image.height as u128;
    let new_width = num / (2 * image.height as u128);
    proof {
        let (w, h, t) = (image.width as int, image.height as int, target_height as int);
        assert(num as int == 2 * w * t + h) by (nonlinear_arith)
            requires
                product as int == w * t,
                num as int == 2 * (product as int) + h,
        ;
        assert(new_width as int == scaled_width(w, h, t));
    }
    if new_width > u32::MAX as u128 {
        return Err(PipelineError::TooLarge);
    }
    let new_width = new_width as u32;
    if !raster_fits(new_width, target_height) || !raster_fits(image.width, target_height) {
        return Err(PipelineError::TooLarge);
    }
    Ok(resample(image, new_width, target_height))
}

/// Decodes `image_data` and resizes it to `new_height` rows, keeping its
/// aspect ratio.
pub fn resize_image(image_data: &Vec<u8>, new_height: u32) -> (r: Result<PixelBuffer, PipelineError>)
    ensures
        match decoded_size(image_data@) {
            None => r == Err::<PixelBuffer, PipelineError>(PipelineError::Decode),
            Some((w, h)) => resize_matches(r, resized(w, h, new_height as nat)),
        },
{
    match load_rgba(image_data) {
        Ok(img) => resize(&img, new_height),
        Err(_) => Err(PipelineError::Decode),
    }
}

/// The border, in pixels, that frames a wallpaper.
pub const WALLPAPER_BORDER: u32 = 100;

/// Whether `out` is some well-formed `width` by `height` raster framed by a
/// transparent border of `border` pixels on every side.
pub open spec fn is_framed(out: PixelBuffer, width: nat, height: nat, border: int) -> bool {
    exists|mid: PixelBuffer|
        {
            &&& mid.wf()
            &&& mid.width == width
            &&& mid.height == height
            &&& out.wf()
            &&& out.width == width + 2 * border
            &&& out.height == height + 2 * border
            &&& forall|x: int, y: int|
                0 <= x < out.width && 0 <= y < out.height ==> #[trigger] out.at(x, y) == framed_at(
                    mid,
                    border,
                    x,
                    y,
                )
        }
}

/// Decodes `image_data`, resizes it to `new_height` rows and frames it with
/// a transparent border of `WALLPAPER_BORDER` pixels on every side.
pub fn process_image(image_data: &Vec<u8>, new_height: u32) -> (r: Result<PixelBuffer, PipelineError>)
    ensures
        match decoded_size(image_data@) {
            None => r == Err::<PixelBuffer, PipelineError>(PipelineError::Decode),
            Some((w, h)) => match resized(w, h, new_height as nat) {
                Err(e) => r == Err::<PixelBuffer, PipelineError>(e),
                Ok((mw, mh)) => match r {
                    Ok(out) => is_framed(out, mw, mh, WALLPAPER_BORDER as int),
                    Err(e) => e == PipelineError::TooLarge && !(mw + 200 <= u32::MAX && mh + 200
                        <= u32::MAX && fits_in_memory(mw + 200int, mh + 200int)),
                },
            },
        },
{
    let mid = resize_image(image_data, new_height)?;
    let fits = (mid.width as u64) + 200 <= u32::MAX as u64 && (mid.height as u64) + 200
        <= u32::MAX as u64;
    if !fits || !raster_fits(mid.width + 200, mid.height + 200) {
        return Err(PipelineError::TooLarge);
    }
    let out = add_uniform_border(&mid, WALLPAPER_BORDER);
    proof {
        assert(is_framed(out, mid.width as nat, mid.height as nat, WALLPAPER_BORDER as int)) by {
            assert(out.width == mid.width + 2 * 100);
        }
    }
    Ok(out)
}

} // verus!
