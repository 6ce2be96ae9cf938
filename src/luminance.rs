//! Brightness of a pixel under each of the three metrics.
use vstd::prelude::*;

use crate::cli::Mode;

verus! {

/// The mean of the three channels, rounded down.
pub open spec fn average_of(r: u8, g: u8, b: u8) -> int {
    (r + g + b) / 3
}

pub open spec fn min3(r: u8, g: u8, b: u8) -> int {
    if r <= g && r <= b {
        r as int
    } else if g <= b {
        g as int
    } else {
        b as int
    }
}

pub open spec fn max3(r: u8, g: u8, b: u8) -> int {
    if r >= g && r >= b {
        r as int
    } else if g >= b {
        g as int
    } else {
        b as int
    }
}

/// The midpoint of the smallest and the largest channel, rounded down.
pub open spec fn lightness_of(r: u8, g: u8, b: u8) -> int {
    (min3(r, g, b) + max3(r, g, b)) / 2
}

/// `0.21 r + 0.72 g + 0.07 b`, truncated toward zero.
pub open spec fn luminosity_of(r: u8, g: u8, b: u8) -> int {
    (21 * r + 72 * g + 7 * b) / 100
}

/// The brightness of a pixel under `mode`.
pub open spec fn luma(mode: Mode, r: u8, g: u8, b: u8) -> int {
    match mode {
        Mode::Average => average_of(r, g, b),
        Mode::Lightness => lightness_of(r, g, b),
        Mode::Luminosity => luminosity_of(r, g, b),
    }
}

/// Mean of the channels, summed in a 32-bit accumulator.
pub fn get_average(r: u8, g: u8, b: u8) -> (res: u8)
    ensures
        res == average_of(r, g, b),
{
    let sum: u32 = r as u32 + g as u32 + b as u32;
    (sum / 3) as u8
}

/// The smallest and the largest value of `list`; `(255, 0)` when it is empty.
pub fn min_max(list: Vec<u8>) -> (res: (u8, u8))
    ensures
        list@.len() == 0 ==> res == (u8::MAX, u8::MIN),
        list@.len() > 0 ==> exists|i: int| 0 <= i < list@.len() && list@[i] == res.0,
        list@.len() > 0 ==> exists|i: int| 0 <= i < list@.len() && list@[i] == res.1,
        forall|i: int| 0 <= i < list@.len() ==> res.0 <= #[trigger] list@[i] <= res.1,
{
    let mut min: u8 = u8::MAX;
    let mut max: u8 = u8::MIN;
    let mut i: usize = 0;
    while i < list.len()
        invariant
            i <= list@.len(),
            i == 0 ==> min == u8::MAX && max == u8::MIN,
            i > 0 ==> exists|j: int| 0 <= j < i && list@[j] == min,
            i > 0 ==> exists|j: int| 0 <= j < i && list@[j] == max,
            forall|j: int| 0 <= j < i ==> min <= #[trigger] list@[j] <= max,
        decreases list@.len() - i,
    {
        let item = list[i];
        if item > max {
            max = item;
        }
        if item < min {
            min = item;
        }
        i = i + 1;
    }
    (min, max)
}

/// Midpoint of the smallest and the largest channel.
pub fn get_lightness(r: u8, g: u8, b: u8) -> (res: u8)
    ensures
        res == lightness_of(r, g, b),
{
    let (min, max) = min_max(vec![r, g, b]);
    let res: u32 = (min as u32 + max as u32) / 2;
    res as u8
}

/// Weighted sum `0.21 r + 0.72 g + 0.07 b`, truncated toward zero. The
/// weights are taken as exact hundredths, so a sum that lands on a whole
/// number is never rounded below it.
pub fn get_luminosity(r: u8, g: u8, b: u8) -> (res: u8)
    ensures
        res == luminosity_of(r, g, b),
{
    let sum: u32 = 21 * (r as u32) + 72 * (g as u32) + 7 * (b as u32);
    (sum / 100) as u8
}

/// The brightness of a pixel under `mode`; total over every input.
pub fn estimate(mode: Mode, r: u8, g: u8, b: u8) -> (res: u8)
    ensures
        res == luma(mode, r, g, b),
{
    match mode {
        Mode::Average => get_average(r, g, b),
        Mode::Lightness => get_lightness(r, g, b),
        Mode::Luminosity => get_luminosity(r, g, b),
    }
}

} // verus!
