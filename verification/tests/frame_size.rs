use ffpipeline::frame_size::{parse_decimal, FrameSize};
use ffpipeline::pipeline::{FrameState, FrameSurface, PixelFormat};

fn anamorphic_dvd_state() -> FrameState {
    FrameState {
        size: FrameSize { width: 720, height: 480 },
        is_anamorphic: true,
        is_interlaced: false,
        sample_aspect_ratio: Some(String::from("32:27")),
        display_aspect_ratio: Some(String::from("16:9")),
        surface: FrameSurface::System,
        pixel_format: PixelFormat::Yuv420p,
        is_hdr: false,
    }
}

#[test]
fn anamorphic_square_pixels_1280x720() {
    let state = anamorphic_dvd_state();
    let target = FrameSize { width: 1280, height: 720 };
    assert_eq!(target.square_pixel_size(&state), target);
}

#[test]
fn anamorphic_square_pixels_1920x1080() {
    let state = anamorphic_dvd_state();
    let target = FrameSize { width: 1920, height: 1080 };
    assert_eq!(target.square_pixel_size(&state), target);
}

#[test]
fn long_decimal_display_aspect_ratio_gives_square_pixels() {
    let state = FrameState {
        sample_aspect_ratio: None,
        display_aspect_ratio: Some(String::from("1.7777777777777777")),
        ..anamorphic_dvd_state()
    };
    let target = FrameSize { width: 1920, height: 1080 };
    assert_eq!(target.square_pixel_size(&state), target);
}

#[test]
fn decimal_numbers_as_fractions() {
    assert_eq!(parse_decimal("29.97"), Some((2997, 100)));
    assert_eq!(parse_decimal("1.7777777777777777"), Some((1_777_777_777, 1_000_000_000)));
    assert_eq!(parse_decimal("23.976023976023976"), Some((2_397_602_397, 100_000_000)));
    assert_eq!(parse_decimal("1e3"), Some((1000, 1)));
    assert_eq!(parse_decimal("1.5E-3"), Some((15, 10_000)));
    assert_eq!(parse_decimal("+.5"), Some((5, 10)));
    assert_eq!(parse_decimal("5."), Some((5, 1)));
    assert_eq!(parse_decimal("1e-400"), Some((0, 1_000_000_000)));
    assert_eq!(parse_decimal("4294967295"), Some((4_294_967_295, 1)));
    assert_eq!(parse_decimal("4294967296"), None);
    assert_eq!(parse_decimal("1e"), None);
    assert_eq!(parse_decimal("."), None);
    assert_eq!(parse_decimal("1.2.3"), None);
    assert_eq!(parse_decimal("abc"), None);
}
