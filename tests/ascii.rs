use ascii_art::cli::{Mode, Options};
use ascii_art::error::ConfigError;
use ascii_art::geometry::{prepare, target_dimensions};
use ascii_art::glyph::{get_ascii, to_glyph, GlyphRamp};
use ascii_art::luminance::{estimate, get_average, get_lightness, get_luminosity, min_max};
use ascii_art::raster::{transcode, turn_to_ascii, Raster};

#[test]
fn min_max_test() {
    let res = min_max(vec![12, 230, 3]);
    assert_eq!(res, (3, 230));
}

#[test]
fn luminosity() {
    let res = get_luminosity(102, 25, 45);
    assert_eq!(res, 42);
}

#[test]
fn light() {
    let res = get_lightness(102, 25, 45);
    assert_eq!(res, 63);
}

#[test]
fn avg() {
    let res = get_average(23, 192, 73);
    assert_eq!(res, 96);
}

#[test]
fn ascii() {
    let res = get_ascii(255);
    assert_eq!(res, '$');
}

#[test]
fn ascii_min() {
    let res = get_ascii(0);
    assert_eq!(res, ' ');
}

#[test]
fn min_max_orders() {
    assert_eq!(min_max(vec![3, 230, 12]), (3, 230));
    assert_eq!(min_max(vec![230, 12, 3]), (3, 230));
}

#[test]
fn min_max_single_element() {
    assert_eq!(min_max(vec![7]), (7, 7));
}

#[test]
fn min_max_duplicates() {
    assert_eq!(min_max(vec![9, 9, 9]), (9, 9));
    assert_eq!(min_max(vec![255, 0, 255, 0]), (0, 255));
}

#[test]
fn min_max_empty() {
    assert_eq!(min_max(vec![]), (255, 0));
}

#[test]
fn average_of_white_does_not_overflow() {
    assert_eq!(get_average(255, 255, 255), 255);
    assert_eq!(get_average(0, 0, 1), 0);
    assert_eq!(get_average(1, 1, 2), 1);
}

#[test]
fn estimate_dispatches_on_mode() {
    assert_eq!(estimate(Mode::Average, 23, 192, 73), 96);
    assert_eq!(estimate(Mode::Lightness, 102, 25, 45), 63);
    assert_eq!(estimate(Mode::Luminosity, 102, 25, 45), 42);
    assert_eq!(estimate(Mode::Luminosity, 255, 255, 255), 255);
}

#[test]
fn ramp_ends_on_custom_ramp() {
    let ramp = GlyphRamp::new(vec!['a', 'b', 'c', 'd']).unwrap();
    assert_eq!(to_glyph(&ramp, 0), 'a');
    assert_eq!(to_glyph(&ramp, 255), 'd');
    assert_eq!(to_glyph(&ramp, 128), 'b');
}

#[test]
fn single_glyph_ramp() {
    let ramp = GlyphRamp::new(vec!['#']).unwrap();
    assert_eq!(to_glyph(&ramp, 0), '#');
    assert_eq!(to_glyph(&ramp, 200), '#');
    assert_eq!(to_glyph(&ramp, 255), '#');
}

#[test]
fn empty_ramp_is_refused() {
    assert!(matches!(GlyphRamp::new(vec![]), Err(ConfigError::EmptyRamp)));
}

#[test]
fn reference_ramp_ends() {
    let ramp = GlyphRamp::reference();
    assert_eq!(ramp.len(), 68);
    assert_eq!(to_glyph(&ramp, 0), ' ');
    assert_eq!(to_glyph(&ramp, 255), '$');
}

#[test]
fn raster_needs_exact_buffer() {
    assert!(Raster::new(2, 1, vec![0; 7]).is_none());
    assert!(Raster::new(2, 1, vec![0; 8]).is_some());
}

fn gradient(width: u32, height: u32) -> Raster {
    let mut data = Vec::new();
    for y in 0..height {
        for x in 0..width {
            let v = ((x * 7 + y * 13) % 256) as u8;
            data.extend_from_slice(&[v, v, v, 255]);
        }
    }
    Raster::new(width, height, data).unwrap()
}

fn assert_shape(art: &str, width: usize, height: usize) {
    assert!(art.ends_with('\n'));
    let lines: Vec<&str> = art.split_terminator('\n').collect();
    assert_eq!(lines.len(), height);
    for line in lines {
        assert_eq!(line.chars().count(), width);
    }
}

#[test]
fn shape_one_by_one() {
    let image = Raster::new(1, 1, vec![255, 255, 255, 0]).unwrap();
    let art = turn_to_ascii(&image, Mode::Average);
    assert_eq!(art, "$\n");
    assert_shape(&art, 1, 1);
}

#[test]
fn shape_wide_image() {
    let image = gradient(120, 40);
    let art = turn_to_ascii(&image, Mode::Luminosity);
    assert_shape(&art, 120, 40);
}

#[test]
fn transcode_rows_in_order() {
    let data = vec![0, 0, 0, 255, 255, 255, 255, 255, 255, 255, 255, 255, 0, 0, 0, 255];
    let image = Raster::new(2, 2, data).unwrap();
    let ramp = GlyphRamp::new(vec!['.', '#']).unwrap();
    assert_eq!(transcode(&image, Mode::Average, &ramp), ".#\n#.\n");
}

#[test]
fn transcode_ignores_alpha() {
    let opaque = Raster::new(1, 1, vec![102, 25, 45, 255]).unwrap();
    let clear = Raster::new(1, 1, vec![102, 25, 45, 0]).unwrap();
    assert_eq!(turn_to_ascii(&opaque, Mode::Lightness), turn_to_ascii(&clear, Mode::Lightness));
}

#[test]
fn transcode_twice_is_identical() {
    let image = gradient(17, 9);
    let ramp = GlyphRamp::reference();
    let first = transcode(&image, Mode::Lightness, &ramp);
    let second = transcode(&image, Mode::Lightness, &ramp);
    assert_eq!(first.as_bytes(), second.as_bytes());
}

#[test]
fn empty_image_gives_empty_text() {
    let image = Raster::new(0, 0, vec![]).unwrap();
    assert_eq!(turn_to_ascii(&image, Mode::Average), "");
}

fn options() -> Options {
    Options::new(String::from("picture.png"))
}

#[test]
fn target_from_scale_and_default_width() {
    let mut args = options();
    args.scale = Some(50);
    assert_eq!(target_dimensions(400, 200, &args), Ok(Some((120, 60))));
}

#[test]
fn target_rounds_aspect_ratio_up() {
    let args = options();
    assert_eq!(target_dimensions(100, 250, &args), Ok(Some((120, 360))));
}

#[test]
fn target_rounds_height_half_up() {
    let mut args = options();
    args.width = Some(3);
    args.scale = Some(50);
    assert_eq!(target_dimensions(10, 10, &args), Ok(Some((3, 2))));
}

#[test]
fn target_explicit_dimensions() {
    let mut args = options();
    args.width = Some(30);
    args.height = Some(7);
    args.scale = Some(10);
    assert_eq!(target_dimensions(400, 200, &args), Ok(Some((30, 7))));
}

#[test]
fn target_keeps_original() {
    let mut args = options();
    args.original = true;
    args.width = Some(0);
    assert_eq!(target_dimensions(400, 200, &args), Ok(None));
}

#[test]
fn target_zero_width_is_refused() {
    let mut args = options();
    args.width = Some(0);
    assert_eq!(target_dimensions(400, 200, &args), Err(ConfigError::ZeroWidth));
}

#[test]
fn target_zero_height_is_refused() {
    let mut args = options();
    args.height = Some(0);
    assert_eq!(target_dimensions(400, 200, &args), Err(ConfigError::ZeroHeight));
    let mut args = options();
    args.scale = Some(0);
    assert_eq!(target_dimensions(400, 200, &args), Err(ConfigError::ZeroHeight));
}

#[test]
fn target_of_empty_image_is_refused() {
    assert_eq!(target_dimensions(0, 200, &options()), Err(ConfigError::EmptyImage));
}

#[test]
fn target_too_tall_is_refused() {
    assert_eq!(target_dimensions(1, 4_000_000_000, &options()), Err(ConfigError::TooLarge));
}

#[test]
fn prepare_resizes_to_target() {
    let mut args = options();
    args.width = Some(2);
    args.height = Some(1);
    let (image, mode) = prepare(gradient(4, 2), &args).unwrap();
    assert_eq!((image.width, image.height), (2, 1));
    assert_eq!(image.data.len(), 8);
    assert_eq!(mode, Mode::Average);
}

#[test]
fn prepare_keeps_original_and_mode() {
    let mut args = options();
    args.original = true;
    args.mode = Some(Mode::Luminosity);
    let (image, mode) = prepare(gradient(5, 3), &args).unwrap();
    assert_eq!((image.width, image.height), (5, 3));
    assert_eq!(image.data, gradient(5, 3).data);
    assert_eq!(mode, Mode::Luminosity);
}

#[test]
fn prepare_grayscale_greys_pixels() {
    let mut args = options();
    args.original = true;
    args.grayscale = true;
    let source = Raster::new(1, 1, vec![255, 0, 0, 200]).unwrap();
    let (image, _) = prepare(source, &args).unwrap();
    let p = &image.data;
    assert_eq!(p.len(), 4);
    assert_eq!(p[0], p[1]);
    assert_eq!(p[1], p[2]);
    assert_ne!(p[0], 255);
    assert_eq!(p[3], 200);
}

#[test]
fn prepare_reports_config_errors() {
    let mut args = options();
    args.width = Some(0);
    assert!(matches!(prepare(gradient(4, 2), &args), Err(ConfigError::ZeroWidth)));
    let mut args = options();
    args.width = Some(u32::MAX);
    args.height = Some(u32::MAX);
    assert!(matches!(prepare(gradient(4, 2), &args), Err(ConfigError::TooLarge)));
}
