use vstd::prelude::*;
use crate::pixels::{fits_in_memory, transparent, Pixel, PixelBuffer};

verus! {

/// Whether `(x, y)` of a framed raster shows the source rather than the frame:
/// the source is placed `border` pixels in from the left and the top.
pub open spec fn shows_source(src: PixelBuffer, border: int, x: int, y: int) -> bool {
    border <= x < border + src.width && border <= y < border + src.height
}

/// The pixel at `(x, y)` of `src` framed by a transparent border.
pub open spec fn framed_at(src: PixelBuffer, border: int, x: int, y: int) -> Pixel {
    if shows_source(src, border, x, y) {
        src.at(x - border, y - border)
    } else {
        transparent()
    }
}

/// The size of `src` framed by `border` on the left, right and top, and
/// `bottom_multiplier` times `border` at the bottom.
pub open spec fn framed_width(src: PixelBuffer, border: int) -> int {
    src.width + 2 * border
}

pub open spec fn framed_height(src: PixelBuffer, border: int, bottom_multiplier: int) -> int {
    src.height + border + bottom_multiplier * border
}

/// Whether the framed raster has a size that can be held.
pub open spec fn frame_fits(src: PixelBuffer, border: int, bottom_multiplier: int) -> bool {
    &&& framed_width(src, border) <= u32::MAX
    &&& framed_height(src, border, bottom_multiplier) <= u32::MAX
    &&& fits_in_memory(framed_width(src, border), framed_height(src, border, bottom_multiplier))
}

/// Places `image` in a fully transparent frame: `border_width` pixels wide
/// on the left, right and top, and `bottom_multiplier * border_width` at the
/// bottom. Inside the frame every pixel is the source pixel, unchanged.
pub fn add_border(image: &PixelBuffer, border_width: u32, bottom_multiplier: u32) -> (r: PixelBuffer)
    requires
        image.wf(),
        frame_fits(*image, border_width as int, bottom_multiplier as int),
    ensures
        r.wf(),
        r.width == framed_width(*image, border_width as int),
        r.height == framed_height(*image, border_width as int, bottom_multiplier as int),
        forall|x: int, y: int|
            0 <= x < r.width && 0 <= y < r.height ==> #[trigger] r.at(x, y) == framed_at(
                *image,
                border_width as int,
                x,
                y,
            ),
{
    let b = border_width;
    proof {
        assert(0 <= bottom_multiplier * b) by (nonlinear_arith);
    }
    let bottom = bottom_multiplier * b;
    let new_width = image.width + 2 * b;
    let new_height = image.height + b + bottom;
    let mut rows: Vec<Vec<Pixel>> = Vec::new();
    let mut y: u32 = 0;
    while y < new_height
        invariant
            image.wf(),
            new_width == framed_width(*image, b as int),
            new_height == framed_height(*image, b as int, bottom_multiplier as int),
            y <= new_height,
            rows@.len() == y,
            forall|j: int| 0 <= j < y ==> (#[trigger] rows@[j])@.len() == new_width,
            forall|i: int, j: int|
                0 <= j < y && 0 <= i < new_width ==> #[trigger] rows@[j]@[i] == framed_at(
                    *image,
                    b as int,
                    i,
                    j,
                ),
        decreases new_height - y,
    {
        let mut row: Vec<Pixel> = Vec::new();
        let mut x: u32 = 0;
        while x < new_width
            invariant
                image.wf(),
                new_width == framed_width(*image, b as int),
                y < new_height,
                new_height == framed_height(*image, b as int, bottom_multiplier as int),
                x <= new_width,
                row@.len() == x,
                forall|i: int| 0 <= i < x ==> #[trigger] row@[i] == framed_at(*image, b as int, i, y as int),
            decreases new_width - x,
        {
            let p = if x < b || x >= b + image.width || y < b || y >= b + image.height {
                Pixel { r: 0, g: 0, b: 0, a: 0 }
            } else {
                image.pixel(x - b, y - b)
            };
            row.push(p);
            x = x + 1;
        }
        rows.push(row);
        y = y + 1;
    }
    PixelBuffer { width: new_width, height: new_height, rows }
}

/// Frames `image` with a transparent border that is three times as deep at
/// the bottom, leaving room there for a caption.
pub fn add_transparent_border(image: &PixelBuffer, border_width: u32) -> (r: PixelBuffer)
    requires
        image.wf(),
        frame_fits(*image, border_width as int, 3),
    ensures
        r.wf(),
        r.width == framed_width(*image, border_width as int),
        r.height == framed_height(*image, border_width as int, 3),
        forall|x: int, y: int|
            0 <= x < r.width && 0 <= y < r.height ==> #[trigger] r.at(x, y) == framed_at(
                *image,
                border_width as int,
                x,
                y,
            ),
{
    add_border(image, border_width, 3)
}

/// Frames `image` with a transparent border of the same width on all four
/// sides.
pub fn add_uniform_border(image: &PixelBuffer, border_width: u32) -> (r: PixelBuffer)
    requires
        image.wf(),
        frame_fits(*image, border_width as int, 1),
    ensures
        r.wf(),
        r.width == framed_width(*image, border_width as int),
        r.height == framed_height(*image, border_width as int, 1),
        forall|x: int, y: int|
            0 <= x < r.width && 0 <= y < r.height ==> #[trigger] r.at(x, y) == framed_at(
                *image,
                border_width as int,
                x,
                y,
            ),
        r.width == image.width + 2 * border_width,
        r.height == image.height + 2 * border_width,
        forall|x: int, y: int|
            0 <= x < r.width && 0 <= y < r.height && (x < border_width || x >= image.width
                + border_width || y < border_width || y >= image.height + border_width) ==> (
            #[trigger] r.at(x, y)).a == 0,
        forall|x: int, y: int|
            0 <= x < image.width && 0 <= y < image.height ==> #[trigger] r.at(
                x + border_width,
                y + border_width,
            ) == image.at(x, y),
{
    let r = add_border(image, border_width, 1);
    proof {
        let b = border_width as int;
        assert forall|x: int, y: int|
            0 <= x < image.width && 0 <= y < image.height implies #[trigger] r.at(x + b, y + b)
            == image.at(x, y) by {
            assert(r.at(x + b, y + b) == framed_at(*image, b, x + b, y + b));
        }
    }
    r
}

} // verus!

verus! {

/// Framing then cutting the frame back off gives the source exactly: the
/// source pixel at `(x, y)` reappears at `(x + border, y + border)`, and
/// every pixel outside it is fully transparent.
pub proof fn lemma_frame_round_trip(src: PixelBuffer, border: nat, bottom_multiplier: nat)
    ensures
        forall|x: int, y: int|
            0 <= x < src.width && 0 <= y < src.height ==> #[trigger] framed_at(
                src,
                border as int,
                x + border,
                y + border,
            ) == src.at(x, y),
        forall|x: int, y: int|
            0 <= x < framed_width(src, border as int) && 0 <= y < framed_height(
                src,
                border as int,
                bottom_multiplier as int,
            ) && !shows_source(src, border as int, x, y) ==> (#[trigger] framed_at(
                src,
                border as int,
                x,
                y,
            )).a == 0,
{
}

} // verus!
