//! The resize target of a conversion run, and the image made ready for it.
use vstd::prelude::*;

use crate::cli::{Mode, Options};
use crate::error::ConfigError;
use crate::raster::{grayscale, grayscale_of, nearest_resized, resize_nearest, Raster};

verus! {

/// The output width, in characters, when none is asked for.
pub const DEFAULT_WIDTH: u32 = 120;

/// The scaling percent when none is asked for.
pub const DEFAULT_SCALE: u32 = 100;

/// `a / b` rounded up, for `a >= 0` and `b > 0`.
pub open spec fn ceil_div(a: int, b: int) -> int {
    (a + b - 1) / b
}

/// `round(ceil(native_height / native_width) * width * scale / 100)`: the
/// coarse aspect ratio applied to the target width, scaled by a percentage
/// and rounded half up.
pub open spec fn scaled_height(native_width: u32, native_height: u32, width: u32, scale: u32) -> int {
    (ceil_div(native_height as int, native_width as int) * width * scale + 50) / 100
}

/// The target width that `args` asks for.
pub open spec fn width_of(args: &Options) -> u32 {
    match args.width {
        Some(w) => w,
        None => DEFAULT_WIDTH,
    }
}

/// The target height that `args` asks for, for a source of the given size.
pub open spec fn height_of(native_width: u32, native_height: u32, args: &Options) -> int {
    match args.height {
        Some(h) => h as int,
        None => scaled_height(
            native_width,
            native_height,
            width_of(args),
            match args.scale {
                Some(s) => s,
                None => DEFAULT_SCALE,
            },
        ),
    }
}

/// The resize target for a source of the given size: `None` keeps the
/// source's own dimensions.
pub open spec fn target_of(native_width: u32, native_height: u32, args: &Options) -> Result<
    Option<(u32, u32)>,
    ConfigError,
> {
    let width = width_of(args);
    let height = height_of(native_width, native_height, args);
    if args.original {
        Ok(None)
    } else if native_width == 0 || native_height == 0 {
        Err(ConfigError::EmptyImage)
    } else if width == 0 {
        Err(ConfigError::ZeroWidth)
    } else if height == 0 {
        Err(ConfigError::ZeroHeight)
    } else if height > u32::MAX {
        Err(ConfigError::TooLarge)
    } else {
        Ok(Some((width, height as u32)))
    }
}

/// The metric that `args` selects.
pub open spec fn mode_of(args: &Options) -> Mode {
    match args.mode {
        Some(m) => m,
        None => Mode::Average,
    }
}

/// A resize of a source `source_width` wide to `width` by `height` keeps its
/// buffers within what a `Vec` can hold.
pub open spec fn resize_fits(source_width: u32, width: u32, height: u32) -> bool {
    16 * source_width * height <= isize::MAX && 4 * width * height <= isize::MAX
}

/// The pixels of `image` once the grey filter that `args` asks for is applied.
pub open spec fn shaded(image: &Raster, args: &Options) -> Seq<u8> {
    if args.grayscale {
        grayscale_of(image.data@)
    } else {
        image.data@
    }
}

proof fn lemma_product_fits(a: int, b: int, c: int)
    requires
        0 <= a <= u32::MAX,
        0 <= b <= u32::MAX,
        0 <= c <= u32::MAX,
    ensures
        0 <= a * b <= u64::MAX,
        0 <= a * b * c < u128::MAX - 100,
{
    assert(0 <= a * b <= (u32::MAX as int) * (u32::MAX as int)) by (nonlinear_arith)
        requires
            0 <= a <= u32::MAX,
            0 <= b <= u32::MAX,
    ;
    assert(0 <= a * b * c <= (u32::MAX as int) * (u32::MAX as int) * (u32::MAX as int))
        by (nonlinear_arith)
        requires
            0 <= a * b <= (u32::MAX as int) * (u32::MAX as int),
            0 <= c <= u32::MAX,
    ;
}

/// The resize target for a source of the given size, as `target_of` states.
pub fn target_dimensions(native_width: u32, native_height: u32, args: &Options) -> (res: Result<
    Option<(u32, u32)>,
    ConfigError,
>)
    ensures
        res == target_of(native_width, native_height, args),
{
    if args.original {
        return Ok(None);
    }
    if native_width == 0 || native_height == 0 {
        return Err(ConfigError::EmptyImage);
    }
    let width: u32 = match args.width {
        Some(w) => w,
        None => DEFAULT_WIDTH,
    };
    if width == 0 {
        return Err(ConfigError::ZeroWidth);
    }
    let height: u128 = match args.height {
        Some(h) => h as u128,
        None => {
            let scale: u32 = match args.scale {
                Some(s) => s,
                None => DEFAULT_SCALE,
            };
            let ratio: u128 = (native_height as u128 + native_width as u128 - 1) / (
            native_width as u128);
            proof {
                let (r, w, s) = (ratio as int, width as int, scale as int);
                assert(r <= native_height as int) by (nonlinear_arith)
                    requires
                        r == (native_height + native_width - 1) / (native_width as int),
                        native_width >= 1,
                ;
                lemma_product_fits(r, w, s);
            }
            (ratio * (width as u128) * (scale as u128) + 50) / 100
        },
    };
    if height == 0 {
        return Err(ConfigError::ZeroHeight);
    }
    if height > u32::MAX as u128 {
        return Err(ConfigError::TooLarge);
    }
    Ok(Some((width, height as u32)))
}

/// Applies the grey filter and the resize that `args` asks for, and picks the
/// metric: the image is ready for conversion.
pub fn prepare(image: Raster, args: &Options) -> (res: Result<(Raster, Mode), ConfigError>)
    requires
        image.wf(),
    ensures
        target_of(image.width, image.height, args) matches Err(e) ==> res == Err::<
            (Raster, Mode),
            ConfigError,
        >(e),
        target_of(image.width, image.height, args) == Ok::<Option<(u32, u32)>, ConfigError>(None)
            ==> (res matches Ok((r, m)) && r.width == image.width && r.height == image.height
            && r.data@ == shaded(&image, args) && m == mode_of(args)),
        target_of(image.width, image.height, args) matches Ok(Some((w, h))) ==> if resize_fits(
            image.width,
            w,
            h,
        ) {
            (res matches Ok((r, m)) && r.width == w && r.height == h && r.data@ == nearest_resized(
                shaded(&image, args),
                image.width,
                image.height,
                w,
                h,
            ) && m == mode_of(args))
        } else {
            res == Err::<(Raster, Mode), ConfigError>(ConfigError::TooLarge)
        },
        res matches Ok((r, _)) ==> r.wf(),
{
    let target = target_dimensions(image.width, image.height, args);
    let mode = match args.mode {
        Some(m) => m,
        None => Mode::Average,
    };
    match target {
        Err(e) => Err(e),
        Ok(None) => {
            let shaded_image = if args.grayscale {
                grayscale(&image)
            } else {
                image
            };
            Ok((shaded_image, mode))
        },
        Ok(Some((width, height))) => {
            proof {
                lemma_product_fits(16, image.width as int, height as int);
                lemma_product_fits(4, width as int, height as int);
            }
            let fits = 16 * (image.width as u128) * (height as u128) <= isize::MAX as u128 && 4 * (
            width as u128) * (height as u128) <= isize::MAX as u128;
            if !fits {
                return Err(ConfigError::TooLarge);
            }
            let shaded_image = if args.grayscale {
                grayscale(&image)
            } else {
                image
            };
            Ok((resize_nearest(&shaded_image, width, height), mode))
        },
    }
}

} // verus!
