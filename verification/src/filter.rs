//! The transparency filter: the per-pixel matching rule and the scan that
//! applies it to a whole image.

use vstd::prelude::*;

use crate::compare::{all_channels_rel, channel_rel, rgb_comp, ComparisonMode};

verus! {

/// One RGBA pixel, four 8-bit channels.
#[derive(Clone, Copy, PartialEq, Eq, Structural, Debug)]
pub struct Pixel {
    /// Red channel.
    pub r: u8,
    /// Green channel.
    pub g: u8,
    /// Blue channel.
    pub b: u8,
    /// Alpha channel: 0 is fully transparent, 255 fully opaque.
    pub a: u8,
}

/// The RGB color whose occurrences are made transparent.
#[derive(Clone, Copy, PartialEq, Eq, Structural, Debug)]
pub struct TargetColor {
    /// Red channel of the target.
    pub r: u8,
    /// Green channel of the target.
    pub g: u8,
    /// Blue channel of the target.
    pub b: u8,
}

/// A decoded RGBA image: a row-major grid of pixels.
#[derive(PartialEq, Eq, Debug)]
pub struct Image {
    /// Width in pixels.
    pub width: usize,
    /// Height in pixels.
    pub height: usize,
    /// The pixels, row by row from the top, `width * height` of them.
    pub pixels: Vec<Pixel>,
}

impl Image {
    /// The grid is well formed: it holds exactly one pixel per cell.
    pub open spec fn wf(&self) -> bool {
        self.pixels@.len() == self.width * self.height
    }

    /// Builds an image from a flat row-major RGBA byte buffer, four bytes
    /// per pixel: `Some` exactly when the buffer length is four times the
    /// cell count.
    pub fn from_raw(width: usize, height: usize, data: &Vec<u8>) -> (r: Option<Image>)
        ensures
            match r {
                Some(img) => {
                    &&& data@.len() == 4 * (width * height)
                    &&& img.width == width
                    &&& img.height == height
                    &&& img.wf()
                    &&& forall|i: int|
                        0 <= i < width * height ==> img.pixels@[i] == (Pixel {
                            r: data@[4 * i],
                            g: data@[4 * i + 1],
                            b: data@[4 * i + 2],
                            a: data@[4 * i + 3],
                        })
                },
                None => data@.len() != 4 * (width * height),
            },
    {
        let len = data.len();
        let cells = match width.checked_mul(height) {
            Some(c) => c,
            None => {
                proof {
                    assert((width as int) * (height as int) >= 0) by (nonlinear_arith);
                }
                return None;
            },
        };
        let total = match cells.checked_mul(4) {
            Some(t) => t,
            None => {
                return None;
            },
        };
        if len != total {
            return None;
        }
        let mut pixels: Vec<Pixel> = Vec::new();
        let mut i: usize = 0;
        while i < cells
            invariant
                0 <= i <= cells,
                cells == width * height,
                total == 4 * cells,
                data@.len() == total,
                pixels@.len() == i,
                forall|j: int|
                    0 <= j < i ==> pixels@[j] == (Pixel {
                        r: data@[4 * j],
                        g: data@[4 * j + 1],
                        b: data@[4 * j + 2],
                        a: data@[4 * j + 3],
                    }),
            decreases cells - i,
        {
            let base = 4 * i;
            let p = Pixel {
                r: data[base],
                g: data[base + 1],
                b: data[base + 2],
                a: data[base + 3],
            };
            pixels.push(p);
            i += 1;
        }
        Some(Image { width, height, pixels })
    }

    /// Flattens the image back to a row-major RGBA byte buffer, four
    /// bytes per pixel in R, G, B, A order.
    pub fn to_raw(&self) -> (r: Vec<u8>)
        ensures
            r@.len() == 4 * self.pixels@.len(),
            forall|i: int|
                0 <= i < self.pixels@.len() ==> {
                    &&& r@[4 * i] == self.pixels@[i].r
                    &&& r@[4 * i + 1] == self.pixels@[i].g
                    &&& r@[4 * i + 2] == self.pixels@[i].b
                    &&& r@[4 * i + 3] == self.pixels@[i].a
                },
    {
        let mut out: Vec<u8> = Vec::new();
        let n = self.pixels.len();
        let mut i: usize = 0;
        while i < n
            invariant
                0 <= i <= n,
                n == self.pixels@.len(),
                out@.len() == 4 * i,
                forall|j: int|
                    0 <= j < i ==> {
                        &&& out@[4 * j] == self.pixels@[j].r
                        &&& out@[4 * j + 1] == self.pixels@[j].g
                        &&& out@[4 * j + 2] == self.pixels@[j].b
                        &&& out@[4 * j + 3] == self.pixels@[j].a
                    },
            decreases n - i,
        {
            let p = self.pixels[i];
            out.push(p.r);
            out.push(p.g);
            out.push(p.b);
            out.push(p.a);
            i += 1;
        }
        out
    }
}

/// A pixel matches the target color when all three of its color channels
/// satisfy the mode's relation against the corresponding target channel.
pub open spec fn pixel_matches(p: Pixel, t: TargetColor, mode: ComparisonMode) -> bool {
    channel_rel(mode, p.r, t.r) && channel_rel(mode, p.g, t.g) && channel_rel(mode, p.b, t.b)
}

/// What the filter makes of one pixel: a matching pixel keeps its color
/// and loses its opacity; any other pixel is left unchanged.
pub open spec fn filtered_pixel(p: Pixel, t: TargetColor, mode: ComparisonMode) -> Pixel {
    if pixel_matches(p, t, mode) {
        Pixel { r: p.r, g: p.g, b: p.b, a: 0 }
    } else {
        p
    }
}

/// The filter over a whole pixel sequence.
pub open spec fn filtered_pixels(
    s: Seq<Pixel>,
    t: TargetColor,
    mode: ComparisonMode,
) -> Seq<Pixel> {
    s.map_values(|p: Pixel| filtered_pixel(p, t, mode))
}

/// Applies the transparency filter: returns a fresh image of the same
/// width and height where every pixel matching `target` under `mode` has
/// alpha 0 and every other pixel is copied unchanged.
pub fn apply(img: &Image, target: &TargetColor, mode: ComparisonMode) -> (out: Image)
    ensures
        out.width == img.width,
        out.height == img.height,
        out.pixels@ == filtered_pixels(img.pixels@, *target, mode),
        img.wf() ==> out.wf(),
{
    let mut pixels: Vec<Pixel> = Vec::new();
    let n = img.pixels.len();
    let mut i: usize = 0;
    while i < n
        invariant
            0 <= i <= n,
            n == img.pixels@.len(),
            pixels@.len() == i,
            forall|j: int| 0 <= j < i ==> pixels@[j] == filtered_pixel(img.pixels@[j], *target, mode),
        decreases n - i,
    {
        let p = img.pixels[i];
        let chans: [u8; 3] = [p.r, p.g, p.b];
        let tchans: [u8; 3] = [target.r, target.g, target.b];
        let is_match = rgb_comp(chans.as_slice(), tchans.as_slice(), mode);
        assert(is_match == pixel_matches(p, *target, mode)) by {
            assert(chans@[0] == p.r && chans@[1] == p.g && chans@[2] == p.b);
            assert(tchans@[0] == target.r && tchans@[1] == target.g && tchans@[2] == target.b);
        }
        let q = if is_match {
            Pixel { r: p.r, g: p.g, b: p.b, a: 0 }
        } else {
            p
        };
        pixels.push(q);
        i += 1;
    }
    assert(pixels@ =~= filtered_pixels(img.pixels@, *target, mode));
    Image { width: img.width, height: img.height, pixels }
}

/// The filter never touches a color channel: every output pixel keeps
/// the red, green and blue of its input pixel, and its alpha is either
/// cleared or kept.
pub proof fn lemma_colors_preserved(s: Seq<Pixel>, t: TargetColor, mode: ComparisonMode)
    ensures
        filtered_pixels(s, t, mode).len() == s.len(),
        forall|i: int|
            0 <= i < s.len() ==> {
                let q = #[trigger] filtered_pixels(s, t, mode)[i];
                q.r == s[i].r && q.g == s[i].g && q.b == s[i].b && (q.a == s[i].a || q.a == 0)
            },
{
}

/// Match correctness under `Equal`: a pixel whose color equals the
/// target comes out with alpha 0; any other pixel comes out unchanged.
pub proof fn lemma_match_equal(p: Pixel, t: TargetColor)
    ensures
        pixel_matches(p, t, ComparisonMode::Equal) <==> (p.r == t.r && p.g == t.g && p.b == t.b),
        (p.r == t.r && p.g == t.g && p.b == t.b) ==> filtered_pixel(p, t, ComparisonMode::Equal)
            == (Pixel { r: p.r, g: p.g, b: p.b, a: 0 }),
        !(p.r == t.r && p.g == t.g && p.b == t.b) ==> filtered_pixel(p, t, ComparisonMode::Equal)
            == p,
{
}

/// Match correctness under the strict modes: an opaque pixel comes out
/// with alpha 0 exactly when all three channels satisfy the strict
/// relation, and a pixel exactly at the target never matches.
pub proof fn lemma_match_strict(p: Pixel, t: TargetColor, mode: ComparisonMode)
    requires
        mode == ComparisonMode::GreaterThan || mode == ComparisonMode::LessThan,
    ensures
        mode == ComparisonMode::GreaterThan ==> (pixel_matches(p, t, mode) <==> (p.r > t.r && p.g
            > t.g && p.b > t.b)),
        mode == ComparisonMode::LessThan ==> (pixel_matches(p, t, mode) <==> (p.r < t.r && p.g
            < t.g && p.b < t.b)),
        pixel_matches(p, t, mode) ==> filtered_pixel(p, t, mode).a == 0,
        !pixel_matches(p, t, mode) ==> filtered_pixel(p, t, mode) == p,
        p.a != 0 ==> (filtered_pixel(p, t, mode).a == 0 <==> pixel_matches(p, t, mode)),
        (p.r == t.r && p.g == t.g && p.b == t.b) ==> filtered_pixel(p, t, mode) == p,
{
}

/// Filtering one pixel twice with the same target and mode gives what
/// filtering it once gives.
pub proof fn lemma_pixel_idempotent(p: Pixel, t: TargetColor, mode: ComparisonMode)
    ensures
        filtered_pixel(filtered_pixel(p, t, mode), t, mode) == filtered_pixel(p, t, mode),
{
}

/// Idempotence of the filter: applying it twice with the same target
/// and mode yields the same pixels as applying it once.
pub proof fn lemma_filter_idempotent(s: Seq<Pixel>, t: TargetColor, mode: ComparisonMode)
    ensures
        filtered_pixels(filtered_pixels(s, t, mode), t, mode) == filtered_pixels(s, t, mode),
{
    let once = filtered_pixels(s, t, mode);
    let twice = filtered_pixels(once, t, mode);
    assert forall|i: int| 0 <= i < s.len() implies twice[i] == once[i] by {
        lemma_pixel_idempotent(s[i], t, mode);
    }
    assert(twice =~= once);
}

} // verus!
