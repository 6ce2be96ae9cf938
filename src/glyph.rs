//! Mapping of a brightness value onto an ordered ramp of glyphs.
use vstd::prelude::*;

use crate::error::ConfigError;

verus! {

/// The glyphs of the built-in ramp, from the emptiest to the densest.
pub open spec fn reference_ramp() -> Seq<char> {
    seq![
        ' ', '.', '"', '`', '^', '"', ',', ':', ';', 'I', 'l', '!',
        'i', '~', '+', '_', '-', '?', ']', '[', '}', '{', '1', ')',
        '(', '|', '\\', '/', 't', 'f', 'j', 'r', 'x', 'n', 'u', 'v',
        'c', 'z', 'X', 'Y', 'U', 'J', 'C', 'L', 'Q', '0', 'O', 'Z',
        'm', 'w', 'q', 'p', 'd', 'b', 'k', 'h', 'a', 'o', '*', '#',
        'M', 'W', '&', '8', '%', 'B', '@', '$',
    ]
}

/// The ramp index of `brightness` on a ramp of `len` glyphs: `[0, 255]`
/// rescaled linearly onto `[0, len - 1]`, rounded down.
pub open spec fn glyph_index(len: nat, brightness: u8) -> int {
    ((len - 1) * brightness) / 255
}

/// The glyph of `ramp` that stands for `brightness`.
pub open spec fn glyph_of(ramp: Seq<char>, brightness: u8) -> char {
    ramp[glyph_index(ramp.len(), brightness)]
}

/// An ordered, non-empty sequence of glyphs: index 0 is the darkest, the last
/// index the brightest.
pub struct GlyphRamp {
    glyphs: Vec<char>,
}

impl View for GlyphRamp {
    type V = Seq<char>;

    closed spec fn view(&self) -> Seq<char> {
        self.glyphs@
    }
}

impl GlyphRamp {
    /// A usable ramp has at least one glyph.
    pub open spec fn wf(&self) -> bool {
        self@.len() > 0
    }

    /// A ramp of the given glyphs; an empty list is refused.
    pub fn new(glyphs: Vec<char>) -> (res: Result<GlyphRamp, ConfigError>)
        ensures
            glyphs@.len() == 0 <==> res == Err::<GlyphRamp, ConfigError>(ConfigError::EmptyRamp),
            res matches Ok(ramp) ==> ramp@ == glyphs@ && ramp.wf(),
    {
        if glyphs.len() == 0 {
            Err(ConfigError::EmptyRamp)
        } else {
            Ok(GlyphRamp { glyphs })
        }
    }

    /// The built-in ramp.
    pub fn reference() -> (res: GlyphRamp)
        ensures
            res@ == reference_ramp(),
            res.wf(),
    {
        let glyphs: Vec<char> = vec![
            ' ', '.', '"', '`', '^', '"', ',', ':', ';', 'I', 'l', '!',
            'i', '~', '+', '_', '-', '?', ']', '[', '}', '{', '1', ')',
            '(', '|', '\\', '/', 't', 'f', 'j', 'r', 'x', 'n', 'u', 'v',
            'c', 'z', 'X', 'Y', 'U', 'J', 'C', 'L', 'Q', '0', 'O', 'Z',
            'm', 'w', 'q', 'p', 'd', 'b', 'k', 'h', 'a', 'o', '*', '#',
            'M', 'W', '&', '8', '%', 'B', '@', '$',
        ];
        GlyphRamp { glyphs }
    }

    /// The number of glyphs.
    pub fn len(&self) -> (n: usize)
        ensures
            n == self@.len(),
    {
        self.glyphs.len()
    }
}

/// The glyph of `ramp` that stands for `brightness`.
pub fn to_glyph(ramp: &GlyphRamp, brightness: u8) -> (c: char)
    requires
        ramp.wf(),
    ensures
        c == glyph_of(ramp@, brightness),
{
    let n: usize = ramp.glyphs.len();
    proof {
        lemma_index_in_ramp(n as nat, brightness);
    }
    let index: usize = ((n - 1) as u128 * brightness as u128 / 255) as usize;
    ramp.glyphs[index]
}

/// The glyph of the built-in ramp that stands for `num`.
pub fn get_ascii(num: u8) -> (c: char)
    ensures
        c == glyph_of(reference_ramp(), num),
{
    let ramp = GlyphRamp::reference();
    to_glyph(&ramp, num)
}

proof fn lemma_index_in_ramp(len: nat, brightness: u8)
    requires
        len > 0,
    ensures
        0 <= glyph_index(len, brightness) <= len - 1,
        glyph_index(len, brightness) <= (len - 1) * brightness,
{
    let k = (len - 1) as int;
    let v = brightness as int;
    assert(0 <= k * v / 255 <= k) by (nonlinear_arith)
        requires
            k >= 0,
            0 <= v <= 255,
    ;
    assert(k * v / 255 <= k * v) by (nonlinear_arith)
        requires
            k >= 0,
            0 <= v,
    ;
}

/// Brightness 0 takes the first glyph of any non-empty ramp, and brightness
/// 255 the last.
pub proof fn lemma_ramp_ends(ramp: Seq<char>)
    requires
        ramp.len() > 0,
    ensures
        glyph_of(ramp, 0) == ramp.first(),
        glyph_of(ramp, 255) == ramp.last(),
{
    let k = (ramp.len() - 1) as int;
    assert(k * 0 / 255 == 0) by (nonlinear_arith);
    assert(k * 255 / 255 == k) by (nonlinear_arith);
}

} // verus!
