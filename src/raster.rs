//! Decoded images as plain RGBA bytes, and their conversion to text.
use vstd::arithmetic::div_mod::lemma_fundamental_div_mod_converse;
use vstd::prelude::*;

use crate::cli::Mode;
use crate::glyph::{glyph_of, reference_ramp, to_glyph, GlyphRamp};
use crate::luminance::{estimate, luma};

verus! {

/// What nearest-neighbour resampling makes of the RGBA bytes `data` of a
/// `width` by `height` image when it is resized to `new_width` by `new_height`.
pub uninterp spec fn nearest_resized(
    data: Seq<u8>,
    width: u32,
    height: u32,
    new_width: u32,
    new_height: u32,
) -> Seq<u8>;

/// What turning every pixel of the RGBA bytes `data` into its grey shade
/// (alpha kept) gives.
pub uninterp spec fn grayscale_of(data: Seq<u8>) -> Seq<u8>;

/// An image as rows of pixels, top row first, each pixel four bytes: red,
/// green, blue and alpha.
pub struct Raster {
    pub width: u32,
    pub height: u32,
    pub data: Vec<u8>,
}

impl Raster {
    /// The byte buffer holds exactly `width * height` pixels.
    pub open spec fn wf(&self) -> bool {
        self.data@.len() == 4 * self.width * self.height
    }

    /// The offset of the first byte of pixel `(x, y)`.
    pub open spec fn offset(&self, x: int, y: int) -> int {
        4 * (y * self.width + x)
    }

    /// The brightness of pixel `(x, y)` under `mode`; alpha is not read.
    pub open spec fn luma_at(&self, mode: Mode, x: int, y: int) -> u8 {
        let i = self.offset(x, y);
        luma(mode, self.data@[i], self.data@[i + 1], self.data@[i + 2]) as u8
    }

    /// An image of the given dimensions over `data`, if `data` holds exactly
    /// that many pixels.
    pub fn new(width: u32, height: u32, data: Vec<u8>) -> (res: Option<Raster>)
        ensures
            res is Some <==> data@.len() == 4 * width * height,
            res matches Some(r) ==> r.width == width && r.height == height && r.data@ == data@
                && r.wf(),
    {
        proof {
            let (w, h) = (width as int, height as int);
            assert(0 <= 4 * w * h <= 4 * (u32::MAX as int) * (u32::MAX as int)) by (nonlinear_arith)
                requires
                    0 <= w <= u32::MAX,
                    0 <= h <= u32::MAX,
            ;
        }
        if data.len() as u128 == 4 * (width as u128) * (height as u128) {
            Some(Raster { width, height, data })
        } else {
            None
        }
    }
}

/// Relies on image::imageops::resize with FilterType::Nearest: the result has
/// exactly the requested dimensions and depends on the source pixels and the
/// dimensions alone. The bounds keep its float intermediate (16 bytes a pixel,
/// source width by new height) and its result within what a `Vec` can hold.
#[verifier::external_body]
pub(crate) fn resize_nearest(image: &Raster, new_width: u32, new_height: u32) -> (res: Raster)
    requires
        image.wf(),
        image.width > 0,
        image.height > 0,
        new_width > 0,
        new_height > 0,
        16 * image.width * new_height <= isize::MAX,
        4 * new_width * new_height <= isize::MAX,
    ensures
        res.width == new_width,
        res.height == new_height,
        res.wf(),
        res.data@ == nearest_resized(image.data@, image.width, image.height, new_width, new_height),
{
    let source = image::RgbaImage::from_raw(image.width, image.height, image.data.clone()).unwrap();
    let out = image::imageops::resize(
        &source,
        new_width,
        new_height,
        image::imageops::FilterType::Nearest,
    );
    Raster { width: out.width(), height: out.height(), data: out.into_raw() }
}

/// Relies on image::imageops::grayscale_with_type_alpha into RGBA pixels: the
/// dimensions are kept and the result depends on the source pixels alone.
#[verifier::external_body]
pub(crate) fn grayscale(image: &Raster) -> (res: Raster)
    requires
        image.wf(),
    ensures
        res.width == image.width,
        res.height == image.height,
        res.wf(),
        res.data@ == grayscale_of(image.data@),
{
    let source = image::RgbaImage::from_raw(image.width, image.height, image.data.clone()).unwrap();
    let out: image::RgbaImage = image::imageops::grayscale_with_type_alpha(&source);
    Raster { width: out.width(), height: out.height(), data: out.into_raw() }
}

/// Relies on String::push: the character is appended.
pub assume_specification[ String::push ](s: &mut String, ch: char)
    ensures
        final(s)@ == old(s)@.push(ch),
;

/// Row `y` of the art: one glyph for each pixel of the row, left to right.
pub open spec fn line_of(image: &Raster, mode: Mode, ramp: Seq<char>, y: int) -> Seq<char> {
    Seq::new(image.width as nat, |x: int| glyph_of(ramp, image.luma_at(mode, x, y)))
}

/// The first `rows` rows of the art, each ended by a line break.
pub open spec fn art_of(image: &Raster, mode: Mode, ramp: Seq<char>, rows: nat) -> Seq<char>
    decreases rows,
{
    if rows == 0 {
        Seq::empty()
    } else {
        art_of(image, mode, ramp, (rows - 1) as nat) + line_of(
            image,
            mode,
            ramp,
            rows - 1,
        ).push('\n')
    }
}

proof fn lemma_pixel_in_buffer(width: int, height: int, x: int, y: int)
    requires
        0 <= x < width,
        0 <= y < height,
    ensures
        0 <= y * width <= y * width + x,
        4 * (y * width + x) + 3 < 4 * width * height,
{
    assert(0 <= y * width) by (nonlinear_arith)
        requires
            0 <= x < width,
            0 <= y < height,
    ;
    assert(4 * (y * width + x) + 3 < 4 * width * height) by (nonlinear_arith)
        requires
            0 <= x < width,
            0 <= y < height,
    ;
}

fn pixel_offset(image: &Raster, x: u32, y: u32) -> (i: usize)
    requires
        image.wf(),
        x < image.width,
        y < image.height,
    ensures
        i == image.offset(x as int, y as int),
        i + 3 < image.data@.len(),
{
    let len: usize = image.data.len();
    proof {
        lemma_pixel_in_buffer(image.width as int, image.height as int, x as int, y as int);
    }
    let row: usize = (y as usize) * (image.width as usize);
    4 * (row + x as usize)
}

/// The art of `image`: for each row, top to bottom, one glyph of `ramp` for
/// each pixel, left to right, then a line break.
pub fn transcode(image: &Raster, mode: Mode, ramp: &GlyphRamp) -> (art: String)
    requires
        image.wf(),
        ramp.wf(),
    ensures
        art@ == art_of(image, mode, ramp@, image.height as nat),
{
    let mut art = String::new();
    let mut y: u32 = 0;
    while y < image.height
        invariant
            image.wf(),
            ramp.wf(),
            y <= image.height,
            art@ == art_of(image, mode, ramp@, y as nat),
        decreases image.height - y,
    {
        let ghost start = art@;
        let ghost line = line_of(image, mode, ramp@, y as int);
        let mut x: u32 = 0;
        while x < image.width
            invariant
                image.wf(),
                ramp.wf(),
                y < image.height,
                x <= image.width,
                line == line_of(image, mode, ramp@, y as int),
                art@ == start + line.take(x as int),
            decreases image.width - x,
        {
            let i = pixel_offset(image, x, y);
            let brightness = estimate(mode, image.data[i], image.data[i + 1], image.data[i + 2]);
            let c = to_glyph(ramp, brightness);
            art.push(c);
            proof {
                assert(line.take(x + 1) =~= line.take(x as int).push(c));
                assert(art@ =~= start + line.take(x + 1));
            }
            x = x + 1;
        }
        art.push('\n');
        proof {
            assert(line.take(x as int) =~= line);
            assert(art@ =~= art_of(image, mode, ramp@, (y + 1) as nat));
        }
        y = y + 1;
    }
    art
}

/// The art of `image` drawn with the built-in ramp.
pub fn turn_to_ascii(image: &Raster, mode: Mode) -> (art: String)
    requires
        image.wf(),
    ensures
        art@ == art_of(image, mode, reference_ramp(), image.height as nat),
{
    let ramp = GlyphRamp::reference();
    transcode(image, mode, &ramp)
}

/// The glyph at position `i` of the art: a line break at the end of each
/// row of `width + 1` positions, else the glyph of the pixel at that column
/// and row.
pub open spec fn art_char_at(image: &Raster, mode: Mode, ramp: Seq<char>, i: int) -> char {
    let stride = image.width + 1;
    let x = i % stride;
    let y = i / stride;
    if x == image.width {
        '\n'
    } else {
        glyph_of(ramp, image.luma_at(mode, x, y))
    }
}

/// The art of `rows` rows is exactly `rows` lines of `width` glyphs, each
/// followed by a line break: position `y * (width + 1) + x` holds the glyph of
/// pixel `(x, y)`, and position `y * (width + 1) + width` the line break.
pub proof fn lemma_art_shape(image: &Raster, mode: Mode, ramp: Seq<char>, rows: nat)
    ensures
        art_of(image, mode, ramp, rows).len() == rows * (image.width + 1),
        forall|i: int|
            0 <= i < rows * (image.width + 1) ==> #[trigger] art_of(image, mode, ramp, rows)[i]
                == art_char_at(image, mode, ramp, i),
    decreases rows,
{
    if rows > 0 {
        let prev = (rows - 1) as nat;
        let stride = image.width + 1;
        lemma_art_shape(image, mode, ramp, prev);
        assert(rows * stride == prev * stride + stride) by (nonlinear_arith)
            requires
                rows == prev + 1,
        ;
        let art = art_of(image, mode, ramp, rows);
        let line = line_of(image, mode, ramp, prev as int);
        assert forall|i: int| 0 <= i < rows * stride implies #[trigger] art[i] == art_char_at(
            image,
            mode,
            ramp,
            i,
        ) by {
            if i >= prev * stride {
                let k = i - prev * stride;
                lemma_fundamental_div_mod_converse(i, stride, prev as int, k);
                assert(art[i] == line.push('\n')[k]);
            }
        }
    }
}

/// Converting the same image twice, with the same metric and ramp, gives the
/// same text.
pub proof fn lemma_transcode_deterministic(
    image: &Raster,
    mode: Mode,
    ramp: Seq<char>,
    first: Seq<char>,
    second: Seq<char>,
)
    requires
        first == art_of(image, mode, ramp, image.height as nat),
        second == art_of(image, mode, ramp, image.height as nat),
    ensures
        first == second,
{
}

} // verus!
