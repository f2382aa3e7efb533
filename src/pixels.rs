use vstd::prelude::*;

verus! {

/// One RGBA pixel, eight bits per channel.
#[derive(Clone, Copy, Debug, PartialEq, Eq, Structural)]
pub struct Pixel {
    pub r: u8,
    pub g: u8,
    pub b: u8,
    pub a: u8,
}

/// The fully transparent pixel.
pub open spec fn transparent() -> Pixel {
    Pixel { r: 0, g: 0, b: 0, a: 0 }
}

/// A raster of RGBA pixels, stored as `height` rows of `width` pixels.
#[derive(Clone, Debug)]
pub struct PixelBuffer {
    pub width: u32,
    pub height: u32,
    pub rows: Vec<Vec<Pixel>>,
}

/// Whether a raster of the given size fits in memory as RGBA bytes.
pub open spec fn fits_in_memory(width: int, height: int) -> bool {
    width * height * 4 <= usize::MAX
}

impl PixelBuffer {
    /// The pixels, row by row.
    pub open spec fn grid(&self) -> Seq<Seq<Pixel>> {
        self.rows@.map_values(|row: Vec<Pixel>| row@)
    }

    /// The pixel in column `x` of row `y`.
    pub open spec fn at(&self, x: int, y: int) -> Pixel {
        self.rows@[y]@[x]
    }

    /// The rows agree with the size, and the raster fits in memory.
    pub open spec fn wf(&self) -> bool {
        &&& self.rows@.len() == self.height
        &&& forall|y: int| 0 <= y < self.height ==> (#[trigger] self.rows@[y])@.len() == self.width
        &&& fits_in_memory(self.width as int, self.height as int)
    }

    /// A raster of the given size with every pixel set to `fill`.
    pub fn filled(width: u32, height: u32, fill: Pixel) -> (r: PixelBuffer)
        requires
            fits_in_memory(width as int, height as int),
        ensures
            r.wf(),
            r.width == width,
            r.height == height,
            forall|x: int, y: int| 0 <= x < width && 0 <= y < height ==> r.at(x, y) == fill,
    {
        let mut rows: Vec<Vec<Pixel>> = Vec::new();
        let mut y: u32 = 0;
        while y < height
            invariant
                y <= height,
                rows@.len() == y,
                forall|j: int| 0 <= j < y ==> (#[trigger] rows@[j])@ == Seq::new(width as nat, |i: int| fill),
            decreases height - y,
        {
            let mut row: Vec<Pixel> = Vec::new();
            let mut x: u32 = 0;
            while x < width
                invariant
                    x <= width,
                    row@ == Seq::new(x as nat, |i: int| fill),
                decreases width - x,
            {
                row.push(fill);
                x = x + 1;
                assert(row@ =~= Seq::new(x as nat, |i: int| fill));
            }
            rows.push(row);
            y = y + 1;
        }
        PixelBuffer { width, height, rows }
    }

    /// The pixel in column `x` of row `y`.
    pub fn pixel(&self, x: u32, y: u32) -> (r: Pixel)
        requires
            self.wf(),
            x < self.width,
            y < self.height,
        ensures
            r == self.at(x as int, y as int),
    {
        self.rows[y as usize][x as usize]
    }

    /// Sets the pixel in column `x` of row `y`; every other pixel is kept.
    pub fn set_pixel(&mut self, x: u32, y: u32, p: Pixel)
        requires
            old(self).wf(),
            x < old(self).width,
            y < old(self).height,
        ensures
            final(self).wf(),
            final(self).width == old(self).width,
            final(self).height == old(self).height,
            forall|i: int, j: int|
                0 <= i < old(self).width && 0 <= j < old(self).height ==> #[trigger] final(self).at(i, j)
                    == if i == x && j == y {
                    p
                } else {
                    old(self).at(i, j)
                },
    {
        let mut row = self.rows[y as usize].clone();
        row.set(x as usize, p);
        self.rows.set(y as usize, row);
    }
}

} // verus!
