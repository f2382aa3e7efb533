use vstd::prelude::*;

verus! {

/// A text scale: the glyph height in pixels is `num / den`.
#[derive(Clone, Copy, Debug, PartialEq, Eq, Structural)]
pub struct GlyphScale {
    pub num: u64,
    pub den: u128,
}

/// Where a line of text is drawn, and how large.
#[derive(Clone, Copy, Debug, PartialEq, Eq, Structural)]
pub struct Placement {
    pub x: i64,
    pub y: i64,
    pub scale: GlyphScale,
}

/// Where the title and the artist of an artwork are drawn on it.
#[derive(Clone, Copy, Debug, PartialEq, Eq, Structural)]
pub struct CaptionLayout {
    pub title: Placement,
    pub artist: Placement,
}

/// How far above the bottom edge the title line starts.
pub const TITLE_RISE: i64 = 275;

/// How far above the bottom edge the artist line starts, before it is moved
/// down by the title's scale.
pub const ARTIST_RISE: i64 = 250;

/// The scale that spreads `len` characters over `width` pixels, each
/// character taking `width / (share * len)`; an empty text gets scale zero,
/// as there is nothing to fit.
pub open spec fn fit_scale(width: nat, len: nat, share: nat) -> GlyphScale {
    if len == 0 {
        GlyphScale { num: 0, den: 1 }
    } else {
        GlyphScale { num: width as u64, den: (share * len) as u128 }
    }
}

/// The whole pixels of a scale.
pub open spec fn scale_floor(s: GlyphScale) -> int {
    s.num as int / s.den as int
}

/// The caption of a `width` by `height` image whose title has `title_len`
/// characters and whose artist has `artist_len`: the title at three tenths
/// of the width, `TITLE_RISE` above the bottom, scaled to fill the width;
/// the artist at four tenths of the width, `ARTIST_RISE` above the bottom
/// and lower by the title's scale, at half that fill.
pub open spec fn caption_of(width: nat, height: nat, title_len: nat, artist_len: nat) -> CaptionLayout {
    let title_scale = fit_scale(width, title_len, 1);
    CaptionLayout {
        title: Placement {
            x: (3 * width / 10) as i64,
            y: (height - TITLE_RISE) as i64,
            scale: title_scale,
        },
        artist: Placement {
            x: (4 * width / 10) as i64,
            y: (height - ARTIST_RISE + scale_floor(title_scale)) as i64,
            scale: fit_scale(width, artist_len, 2),
        },
    }
}

fn fit(width: u32, len: usize, share: u128) -> (r: GlyphScale)
    requires
        share == 1 || share == 2,
    ensures
        r == fit_scale(width as nat, len as nat, share as nat),
        r.den > 0,
        scale_floor(r) <= width,
{
    if len == 0 {
        GlyphScale { num: 0, den: 1 }
    } else {
        proof {
            assert(share * len <= 2 * usize::MAX) by (nonlinear_arith)
                requires
                    share <= 2,
            ;
            assert((width as int) / ((share * len) as int) <= width as int) by (nonlinear_arith)
                requires
                    share * len >= 1,
            ;
        }
        GlyphScale { num: width as u64, den: share * len as u128 }
    }
}

/// Lays out the caption of a `width` by `height` image with the given title
/// and artist; lengths count characters.
pub fn caption_layout(width: u32, height: u32, title: &str, artist: &str) -> (r: CaptionLayout)
    ensures
        r == caption_of(width as nat, height as nat, title@.len(), artist@.len()),
        r.title.scale.den > 0,
        r.artist.scale.den > 0,
{
    let title_scale = fit(width, title.unicode_len(), 1);
    let artist_scale = fit(width, artist.unicode_len(), 2);
    let w = width as i64;
    let h = height as i64;
    CaptionLayout {
        title: Placement { x: 3 * w / 10, y: h - TITLE_RISE, scale: title_scale },
        artist: Placement {
            x: 4 * w / 10,
            y: h - ARTIST_RISE + (title_scale.num as u128 / title_scale.den) as i64,
            scale: artist_scale,
        },
    }
}

} // verus!
