use ffpipeline::fade_timing::{PeriodicClock, PeriodicTiming, WatermarkTiming};
use ffpipeline::frame_size::FrameSize;
use ffpipeline::pipeline::{FrameState, FrameSurface, PixelFormat};
use ffpipeline::video_filter::{FadeFilter, FadeMode, FadePoint, HwMapFilter, VideoFilter, VideoFilterOp};
use time::{Date, Month, OffsetDateTime, Time, UtcOffset};

fn hw_map(from_surface: FrameSurface, to_surface: FrameSurface, reverse: bool) -> VideoFilter {
    VideoFilter::HwMap(HwMapFilter { from_surface, to_surface, reverse })
}

#[test]
fn hw_map_as_arg_produces_derive_device() {
    let filter = hw_map(FrameSurface::Vaapi, FrameSurface::OpenCL, false);
    assert_eq!(filter.as_arg(), Some(String::from("hwmap=derive_device=opencl")));
}

#[test]
fn hw_map_as_arg_reverse_direction() {
    let filter = hw_map(FrameSurface::OpenCL, FrameSurface::Vaapi, true);
    assert_eq!(filter.as_arg(), Some(String::from("hwmap=derive_device=vaapi:reverse=1")));
}

#[test]
fn hw_map_as_arg_returns_none_for_system() {
    let filter = hw_map(FrameSurface::Vaapi, FrameSurface::System, false);
    assert_eq!(filter.as_arg(), None);
}

#[test]
fn hw_map_apply_to_updates_surface() {
    let mut state = FrameState {
        size: FrameSize { width: 1920, height: 1080 },
        is_anamorphic: false,
        is_interlaced: false,
        sample_aspect_ratio: None,
        display_aspect_ratio: None,
        surface: FrameSurface::Vaapi,
        pixel_format: PixelFormat::P010le,
        is_hdr: true,
    };
    let filter = hw_map(FrameSurface::Vaapi, FrameSurface::OpenCL, false);
    filter.apply_to(&mut state);
    assert_eq!(state.surface, FrameSurface::OpenCL);
    assert_eq!(state.pixel_format, PixelFormat::P010le);
    assert!(state.is_hdr);
}

#[test]
fn hw_map_required_surface_is_none() {
    let filter = hw_map(FrameSurface::Vaapi, FrameSurface::OpenCL, false);
    assert_eq!(filter.required_surface(), None);
}

fn every_five_minutes() -> PeriodicTiming {
    PeriodicTiming {
        clock: PeriodicClock::Wall,
        frequency_ms: 300_000,
        phase_offset_ms: Some(0),
        disable_after_ms: Some(3_000_000),
        fade_ms: Some(1_000),
        hold_ms: 8_000,
    }
}

fn midnight_may_first_nanos() -> i128 {
    OffsetDateTime::new_in_offset(
        Date::from_calendar_date(2026, Month::May, 1).unwrap(),
        Time::from_hms(0, 0, 0).unwrap(),
        UtcOffset::from_hms(-5, 0, 0).unwrap(),
    )
    .unix_timestamp_nanos()
}

#[test]
fn fade_point_periodic() {
    let timing = every_five_minutes();
    let item_start = midnight_may_first_nanos();
    let in_point_ms = 4 * 60_000 + 45_000;

    let points = FadePoint::periodic(&timing, item_start, in_point_ms, 734_000);

    assert_eq!(points.len(), 4);
    assert_eq!(points[0].time_ms, 15_000);
    assert_eq!(points[2].time_ms, (5 * 60 + 15) * 1000);
}

#[test]
fn fade_point_periodic_joins_enable_windows() {
    let timing = every_five_minutes();
    let points = FadePoint::periodic(&timing, midnight_may_first_nanos(), 285_000, 734_000);
    let expected = vec![
        FadePoint { mode: FadeMode::In, time_ms: 15_000, enable_start_ms: 0, enable_finish_ms: 23_000 },
        FadePoint { mode: FadeMode::Out, time_ms: 24_000, enable_start_ms: 16_000, enable_finish_ms: 314_000 },
        FadePoint { mode: FadeMode::In, time_ms: 315_000, enable_start_ms: 25_000, enable_finish_ms: 323_000 },
        FadePoint { mode: FadeMode::Out, time_ms: 324_000, enable_start_ms: 316_000, enable_finish_ms: 449_000 },
    ];
    assert_eq!(points, expected);
}

#[test]
fn fade_point_periodic_content_clock_counts_from_item_start() {
    let timing = PeriodicTiming { clock: PeriodicClock::Content, phase_offset_ms: Some(10_000), ..every_five_minutes() };
    let points = FadePoint::periodic(&timing, 123_456_789, 0, 60_000);
    assert_eq!(points.len(), 2);
    assert_eq!(points[0].mode, FadeMode::In);
    assert_eq!(points[0].time_ms, 10_000);
    assert_eq!(points[1].mode, FadeMode::Out);
    assert_eq!(points[1].time_ms, 19_000);
    assert_eq!(points[1].enable_finish_ms, 60_000);
}

#[test]
fn fade_point_periodic_rejects_fade_longer_than_hold() {
    let timing = PeriodicTiming { fade_ms: Some(9_000), ..every_five_minutes() };
    assert!(FadePoint::periodic(&timing, midnight_may_first_nanos(), 285_000, 734_000).is_empty());
}

#[test]
fn fade_point_periodic_rejects_a_huge_fade() {
    let timing = PeriodicTiming { fade_ms: Some(u64::MAX), ..every_five_minutes() };
    assert!(FadePoint::periodic(&timing, midnight_may_first_nanos(), 285_000, 734_000).is_empty());
}

#[test]
fn fade_point_periodic_rejects_period_shorter_than_fades_and_hold() {
    let timing = PeriodicTiming { frequency_ms: 9_999, ..every_five_minutes() };
    assert!(FadePoint::periodic(&timing, midnight_may_first_nanos(), 285_000, 734_000).is_empty());
}

#[test]
fn fade_filter_for_watermark_uses_fade_duration() {
    let timing = WatermarkTiming::Periodic(every_five_minutes());
    let filters = FadeFilter::for_watermark(Some(&timing), midnight_may_first_nanos(), 285_000, 734_000);
    assert_eq!(filters.len(), 4);
    assert!(filters.iter().all(|f| f.duration_ms == 1_000));
    assert_eq!(filters[1].point.time_ms, 24_000);
    assert_eq!(
        VideoFilter::Fade(filters[0]).as_arg(),
        Some(String::from("fade=in:st=15:d=1:alpha=1:enable='between(t,0,23)'"))
    );
}

#[test]
fn fade_filter_for_watermark_without_timing_is_empty() {
    assert!(FadeFilter::for_watermark(None, 0, 0, 1_000).is_empty());
}

#[test]
fn fade_point_periodic_can_repeat_a_time_across_the_item_start() {
    let timing = PeriodicTiming {
        clock: PeriodicClock::Wall,
        frequency_ms: 3,
        phase_offset_ms: Some(0),
        disable_after_ms: None,
        fade_ms: Some(1),
        hold_ms: 1,
    };
    let points = FadePoint::periodic(&timing, 2_500_000, 0, 100);
    assert_eq!(points[0].mode, FadeMode::Out);
    assert_eq!(points[0].time_ms, 0);
    assert_eq!(points[1].mode, FadeMode::In);
    assert_eq!(points[1].time_ms, 0);
}
