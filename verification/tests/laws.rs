use ffpipeline::accel::vaapi::{Vaapi, VaapiDriver};
use ffpipeline::capabilities::opencl::OpenCLCapabilities;
use ffpipeline::capabilities::vaapi::VaapiCapabilities;
use ffpipeline::fade_timing::{PeriodicClock, PeriodicTiming};
use ffpipeline::ffmpeg_info::{KnownHardwareAccel, KnownVideoFilter};
use ffpipeline::frame_size::FrameSize;
use ffpipeline::hw_accel::{HardwareAccel, HwAccel};
use ffpipeline::pipeline::{FrameState, FrameSurface, PixelFormat};
use ffpipeline::video_filter::{FadePoint, VideoFilterOp};

#[test]
fn pixel_format_names_read_back() {
    for pf in [
        PixelFormat::Bgra,
        PixelFormat::Yuv420p,
        PixelFormat::Yuv420p10le,
        PixelFormat::Yuva420p,
        PixelFormat::Yuva420p10le,
        PixelFormat::Nv12,
        PixelFormat::P010le,
    ] {
        assert_eq!(PixelFormat::parse(pf.as_arg()), pf);
    }
    assert_eq!(PixelFormat::parse("NV12"), PixelFormat::Nv12);
    assert_eq!(PixelFormat::parse("nv15"), PixelFormat::Yuv420p);
}

#[test]
fn known_names_read_back() {
    for f in KnownVideoFilter::all() {
        assert_eq!(KnownVideoFilter::from_name(f.name()), Some(f));
    }
    for a in KnownHardwareAccel::all() {
        assert_eq!(KnownHardwareAccel::from_name(a.name()), Some(a));
    }
    assert_eq!(KnownVideoFilter::from_name("scale"), None);
}

#[test]
fn frame_size_text_reads_back() {
    for size in [FrameSize { width: 1920, height: 1080 }, FrameSize { width: 0, height: 4294967295 }] {
        let text = format!("{}x{}", size.width, size.height);
        assert_eq!(FrameSize::parse(&text), Ok(size));
        assert_eq!(text.parse::<FrameSize>(), Ok(size));
    }
    assert_eq!(
        FrameSize::parse("1920x1080x2"),
        Err(String::from("invalid frame size format: '1920x1080x2', expected 'WIDTHxHEIGHT'"))
    );
    assert_eq!(FrameSize::parse(" 640 x 480 "), Ok(FrameSize { width: 640, height: 480 }));
    assert_eq!(FrameSize::parse("wx480"), Err(String::from("invalid width 'w': invalid digit found in string")));
    assert_eq!(
        FrameSize::parse("640x99999999999"),
        Err(String::from("invalid height '99999999999': number too large to fit in target type"))
    );
}

#[test]
fn hw_map_there_and_back_restores_the_state() {
    let accel = HardwareAccel::Vaapi(Vaapi {
        device: String::from("/dev/dri/renderD128"),
        driver: VaapiDriver::Ihd,
        capabilities: VaapiCapabilities {
            vendor: String::new(),
            supported: vec![],
            vpp_pixel_formats: vec![],
            can_hdr_to_sdr_tonemap: vec![],
            can_hdr_to_hdr_tonemap: vec![],
            can_overlay: false,
            rate_control: vec![],
        },
        opencl_capabilities: OpenCLCapabilities::default(),
    });
    let initial = FrameState {
        size: FrameSize { width: 1920, height: 1080 },
        is_anamorphic: false,
        is_interlaced: false,
        sample_aspect_ratio: None,
        display_aspect_ratio: None,
        surface: FrameSurface::Vaapi,
        pixel_format: PixelFormat::P010le,
        is_hdr: true,
    };
    let there = accel.hw_map_filter(&FrameSurface::Vaapi, &FrameSurface::OpenCL).unwrap();
    let back = accel.hw_map_filter(&FrameSurface::OpenCL, &FrameSurface::Vaapi).unwrap();
    let mut state = FrameState { sample_aspect_ratio: None, display_aspect_ratio: None, ..initial };
    there.apply_to(&mut state);
    assert_eq!(state.surface, FrameSurface::OpenCL);
    back.apply_to(&mut state);
    assert_eq!(state.surface, FrameSurface::Vaapi);
    assert_eq!(state.pixel_format, PixelFormat::P010le);
    assert_eq!(state.size, FrameSize { width: 1920, height: 1080 });
}

#[test]
fn periodic_fades_come_in_time_order() {
    let timing = PeriodicTiming {
        clock: PeriodicClock::Content,
        frequency_ms: 20_000,
        phase_offset_ms: Some(3_000),
        disable_after_ms: None,
        fade_ms: Some(500),
        hold_ms: 4_000,
    };
    let points = FadePoint::periodic(&timing, 1_700_000_000_123_456_789, 1_000, 101_000);
    assert_eq!(points.len(), 10);
    assert!(points.windows(2).all(|w| w[0].time_ms <= w[1].time_ms));
    assert_eq!(points[0].time_ms, 2_000);
    assert_eq!(points[1].time_ms, 6_500);
}

#[test]
fn periodic_fades_alternate_within_the_output() {
    let timing = PeriodicTiming {
        clock: PeriodicClock::Wall,
        frequency_ms: 3_000,
        phase_offset_ms: Some(700),
        disable_after_ms: None,
        fade_ms: Some(1_000),
        hold_ms: 1_000,
    };
    let points = FadePoint::periodic(&timing, 1_700_000_000_123_456_789, 500, 10_500);
    assert!(!points.is_empty());
    assert!(points.windows(2).all(|w| w[0].mode != w[1].mode));
    assert!(points.iter().all(|p| p.time_ms < 10_000));
    assert_eq!(points[0].enable_start_ms, 0);
    assert_eq!(points[points.len() - 1].enable_finish_ms, 10_000);
}
