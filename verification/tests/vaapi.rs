use ffpipeline::accel::vaapi::{DeinterlaceVaapi, Vaapi, VaapiDriver};
use ffpipeline::capabilities::opencl::OpenCLCapabilities;
use ffpipeline::capabilities::vaapi::{VaapiCapabilities, VA_FOURCC_NV12};
use ffpipeline::ffmpeg_info::{FfmpegInfo, KnownVideoFilter};
use ffpipeline::frame_size::FrameSize;
use ffpipeline::output_settings::VideoFilterOptions;
use ffpipeline::pipeline::{FrameState, FrameSurface, PixelFormat};
use ffpipeline::video_filter::{DeinterlaceFilter, SoftwareDeinterlaceFilter, VideoFilter, VideoFilterOp};

fn make_ffmpeg_info(filters: &[KnownVideoFilter]) -> FfmpegInfo {
    FfmpegInfo { hwaccels: vec![], video_filters: filters.to_vec(), preferred_filters: vec![] }
}

fn make_vaapi() -> Vaapi {
    Vaapi {
        device: String::from("/dev/dri/renderD128"),
        driver: VaapiDriver::Ihd,
        capabilities: VaapiCapabilities {
            vendor: String::from("test"),
            supported: vec![],
            vpp_pixel_formats: vec![VA_FOURCC_NV12],
            can_hdr_to_sdr_tonemap: vec![],
            can_hdr_to_hdr_tonemap: vec![],
            can_overlay: false,
            rate_control: vec![],
        },
        opencl_capabilities: OpenCLCapabilities { platform_count: 0, gpu_device_count: 0 },
    }
}

fn yadif(input_is_interlaced: bool) -> VideoFilter {
    VideoFilter::Deinterlace(DeinterlaceFilter { filter: SoftwareDeinterlaceFilter::Yadif, input_is_interlaced })
}

fn make_frame_state() -> FrameState {
    FrameState {
        size: FrameSize { width: 1920, height: 1080 },
        is_anamorphic: false,
        is_interlaced: false,
        sample_aspect_ratio: None,
        display_aspect_ratio: None,
        surface: FrameSurface::Vaapi,
        pixel_format: PixelFormat::Nv12,
        is_hdr: false,
    }
}

#[test]
fn deinterlace_vaapi_apply_to_clears_interlaced_keeps_anamorphic() {
    let mut state = FrameState {
        is_anamorphic: true,
        is_interlaced: true,
        sample_aspect_ratio: Some(String::from("32:27")),
        display_aspect_ratio: Some(String::from("16:9")),
        size: FrameSize { width: 1440, height: 1080 },
        ..make_frame_state()
    };

    let filter = DeinterlaceVaapi { mode: None };
    filter.apply_to(&mut state);

    assert!(!state.is_interlaced);
    assert!(state.is_anamorphic);
    assert_eq!(state.surface, FrameSurface::Vaapi);
    assert_eq!(state.sample_aspect_ratio, Some(String::from("32:27")));
}

#[test]
fn best_filter_deinterlace_vaapi_for_interlaced_anamorphic_content() {
    let vaapi = make_vaapi();
    let ffmpeg_info = make_ffmpeg_info(&[KnownVideoFilter::DeinterlaceVaapi]);
    let state = FrameState {
        is_anamorphic: true,
        is_interlaced: true,
        sample_aspect_ratio: Some(String::from("32:27")),
        display_aspect_ratio: Some(String::from("16:9")),
        size: FrameSize { width: 1440, height: 1080 },
        ..make_frame_state()
    };
    let result = vaapi.best_filter(&yadif(true), &ffmpeg_info, &state, &VideoFilterOptions::default());
    assert!(matches!(&result, VideoFilter::DeinterlaceVaapi(DeinterlaceVaapi { mode: None })), "got {:?}", result.as_arg());
    assert_eq!(result.as_arg(), Some(String::from("deinterlace_vaapi=mode=0")));
}

#[test]
fn best_filter_falls_back_when_deinterlace_vaapi_unavailable() {
    let vaapi = make_vaapi();
    let ffmpeg_info = make_ffmpeg_info(&[]);
    let state = FrameState { is_anamorphic: true, is_interlaced: true, ..make_frame_state() };
    let result = vaapi.best_filter(&yadif(true), &ffmpeg_info, &state, &VideoFilterOptions::default());
    assert!(matches!(&result, VideoFilter::Deinterlace(_)), "got {:?}", result.as_arg());
}

#[test]
fn best_filter_skips_deinterlace_vaapi_when_not_interlaced() {
    let vaapi = make_vaapi();
    let ffmpeg_info = make_ffmpeg_info(&[KnownVideoFilter::DeinterlaceVaapi]);
    let result = vaapi.best_filter(&yadif(false), &ffmpeg_info, &make_frame_state(), &VideoFilterOptions::default());
    assert!(matches!(&result, VideoFilter::Deinterlace(_)), "got {:?}", result.as_arg());
}
