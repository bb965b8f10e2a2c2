use ffpipeline::accel::opencl::{PadOpencl, TonemapOpencl};
use ffpipeline::accel::vaapi::{PadVaapi, TonemapVaapi, Vaapi, VaapiDriver};
use ffpipeline::capabilities::opencl::OpenCLCapabilities;
use ffpipeline::capabilities::vaapi::{VaapiCapabilities, VA_FOURCC_P010};
use ffpipeline::ffmpeg_info::{FfmpegInfo, KnownVideoFilter};
use ffpipeline::filter_chain::{FilterChain, PipelineFilter};
use ffpipeline::frame_size::FrameSize;
use ffpipeline::hw_accel::{HardwareAccel, HwAccel};
use ffpipeline::output_settings::{ScalingMode, VideoFilterOptions};
use ffpipeline::pipeline::{FrameState, FrameSurface, HwPixelFormat, PixelFormat};
use ffpipeline::video_filter::{FormatFilter, HwMapFilter, PadFilter, ToneMapFilter, VideoFilter, VideoFilterOp};

fn empty_vaapi_capabilities() -> VaapiCapabilities {
    VaapiCapabilities {
        vendor: String::from("test"),
        supported: vec![],
        vpp_pixel_formats: vec![],
        can_hdr_to_sdr_tonemap: vec![],
        can_hdr_to_hdr_tonemap: vec![],
        can_overlay: false,
        rate_control: vec![],
    }
}

fn vaapi_accel() -> HardwareAccel {
    HardwareAccel::Vaapi(Vaapi {
        device: String::from("/dev/dri/renderD128"),
        driver: VaapiDriver::Ihd,
        capabilities: empty_vaapi_capabilities(),
        opencl_capabilities: OpenCLCapabilities::default(),
    })
}

fn vaapi_accel_with_tonemap(driver: VaapiDriver, hdr_to_sdr: bool, hdr_to_hdr: bool, opencl: bool) -> Vaapi {
    let mut capabilities = empty_vaapi_capabilities();
    if hdr_to_sdr {
        capabilities.can_hdr_to_sdr_tonemap.push(VA_FOURCC_P010);
    }
    if hdr_to_hdr {
        capabilities.can_hdr_to_hdr_tonemap.push(VA_FOURCC_P010);
    }
    Vaapi {
        device: String::from("/dev/dri/renderD128"),
        driver,
        capabilities,
        opencl_capabilities: OpenCLCapabilities {
            platform_count: if opencl { 1 } else { 0 },
            gpu_device_count: if opencl { 1 } else { 0 },
        },
    }
}

fn vaapi_accel_with_opencl(opencl: bool) -> Vaapi {
    Vaapi {
        device: String::from("/dev/dri/renderD128"),
        driver: VaapiDriver::Ihd,
        capabilities: empty_vaapi_capabilities(),
        opencl_capabilities: OpenCLCapabilities {
            platform_count: if opencl { 1 } else { 0 },
            gpu_device_count: if opencl { 1 } else { 0 },
        },
    }
}

fn ffmpeg_info_with_filters(filters: &[KnownVideoFilter]) -> FfmpegInfo {
    FfmpegInfo { hwaccels: vec![], video_filters: filters.to_vec(), preferred_filters: vec![] }
}

fn hdr_vaapi_state() -> FrameState {
    FrameState {
        size: FrameSize { width: 3840, height: 2160 },
        is_anamorphic: false,
        is_interlaced: false,
        sample_aspect_ratio: None,
        display_aspect_ratio: None,
        surface: FrameSurface::Vaapi,
        pixel_format: PixelFormat::P010le,
        is_hdr: true,
    }
}

fn sdr_vaapi_state() -> FrameState {
    FrameState {
        size: FrameSize { width: 1280, height: 720 },
        is_anamorphic: false,
        is_interlaced: false,
        sample_aspect_ratio: None,
        display_aspect_ratio: None,
        surface: FrameSurface::Vaapi,
        pixel_format: PixelFormat::Nv12,
        is_hdr: false,
    }
}

fn hable_tonemap(output_format: PixelFormat) -> VideoFilter {
    VideoFilter::ToneMap(ToneMapFilter { algorithm: Some(String::from("hable")), output_format })
}

fn pad_1080p() -> VideoFilter {
    VideoFilter::Pad(PadFilter {
        size: Some(FrameSize { width: 1920, height: 1080 }),
        scaling_mode: ScalingMode::ScaleAndPad,
    })
}

fn resolve_on_vaapi(chain: &mut FilterChain, info: &FfmpegInfo, accel: HardwareAccel, state: &FrameState) {
    chain.resolve(info, &Some(accel), state, &FrameSurface::Vaapi, &Some(PixelFormat::Nv12), &VideoFilterOptions::default());
}

fn video_filters(chain: &FilterChain) -> Vec<&VideoFilter> {
    chain
        .filters
        .iter()
        .filter_map(|f| match f {
            PipelineFilter::Video(vf) => Some(vf),
            _ => None,
        })
        .collect()
}

#[test]
fn resolve_inserts_hwmap_for_opencl_tonemap_on_vaapi() {
    let tonemap = VideoFilter::TonemapOpencl(TonemapOpencl {
        algorithm: Some(String::from("hable")),
        output_format: HwPixelFormat::Nv12,
    });
    let mut chain = FilterChain::new(vec![PipelineFilter::Video(tonemap)]);
    resolve_on_vaapi(&mut chain, &FfmpegInfo::default(), vaapi_accel(), &hdr_vaapi_state());

    let vfs = video_filters(&chain);
    assert!(vfs.len() >= 3, "expected at least 3 video filters (hwmap + tonemap + hwmap), got {}", vfs.len());
    assert!(matches!(
        vfs[0],
        VideoFilter::HwMap(HwMapFilter { from_surface: FrameSurface::Vaapi, to_surface: FrameSurface::OpenCL, reverse: false })
    ));
    assert!(matches!(vfs[1], VideoFilter::TonemapOpencl(_)));
    assert!(matches!(
        vfs[2],
        VideoFilter::HwMap(HwMapFilter { from_surface: FrameSurface::OpenCL, to_surface: FrameSurface::Vaapi, reverse: true })
    ));
}

#[test]
fn resolve_and_build_produces_correct_filter_complex_for_opencl_tonemap() {
    let tonemap = VideoFilter::TonemapOpencl(TonemapOpencl {
        algorithm: Some(String::from("hable")),
        output_format: HwPixelFormat::Nv12,
    });
    let mut chain = FilterChain::new(vec![PipelineFilter::Video(tonemap)]);
    resolve_on_vaapi(&mut chain, &FfmpegInfo::default(), vaapi_accel(), &hdr_vaapi_state());
    chain.build("0:a", "0:v", None, None);

    let args = chain.as_arg();
    assert_eq!(args.len(), 2);
    assert_eq!(args[0], "-filter_complex");
    let filter_complex = &args[1];
    assert!(filter_complex.contains("hwmap=derive_device=opencl"), "{filter_complex}");
    assert!(filter_complex.contains("tonemap_opencl="), "{filter_complex}");
    assert!(filter_complex.contains("hwmap=derive_device=vaapi"), "{filter_complex}");
    assert!(filter_complex.contains("hwmap=derive_device=opencl,tonemap_opencl="), "{filter_complex}");
}

#[test]
fn resolve_does_not_insert_hwmap_when_surfaces_match() {
    let format_filter = VideoFilter::Format(FormatFilter { format: PixelFormat::Nv12 });
    let mut chain = FilterChain::new(vec![PipelineFilter::Video(format_filter)]);
    resolve_on_vaapi(&mut chain, &FfmpegInfo::default(), vaapi_accel(), &hdr_vaapi_state());

    let has_hwmap = chain.filters.iter().any(|f| matches!(f, PipelineFilter::Video(VideoFilter::HwMap(_))));
    assert!(!has_hwmap, "no HwMap should be inserted when no hw-to-hw transition is needed");
}

#[test]
fn best_filter_selects_tonemap_vaapi_for_hdr_to_sdr_when_capable() {
    let vaapi = vaapi_accel_with_tonemap(VaapiDriver::RadeonSI, true, false, false);
    let info = ffmpeg_info_with_filters(&[KnownVideoFilter::TonemapVaapi]);
    let result = vaapi.best_filter(&hable_tonemap(PixelFormat::Nv12), &info, &hdr_vaapi_state(), &VideoFilterOptions::default());
    assert!(matches!(result, VideoFilter::TonemapVaapi(TonemapVaapi { output_format: HwPixelFormat::Nv12 })));
}

#[test]
fn best_filter_selects_tonemap_vaapi_for_hdr_to_hdr_when_capable() {
    let vaapi = vaapi_accel_with_tonemap(VaapiDriver::RadeonSI, false, true, false);
    let info = ffmpeg_info_with_filters(&[KnownVideoFilter::TonemapVaapi]);
    let result =
        vaapi.best_filter(&hable_tonemap(PixelFormat::P010le), &info, &hdr_vaapi_state(), &VideoFilterOptions::default());
    assert!(matches!(result, VideoFilter::TonemapVaapi(TonemapVaapi { output_format: HwPixelFormat::P010le })));
}

#[test]
fn best_filter_falls_back_to_software_tonemap_without_vaapi_capability() {
    let vaapi = vaapi_accel_with_tonemap(VaapiDriver::RadeonSI, false, false, false);
    let info = ffmpeg_info_with_filters(&[KnownVideoFilter::TonemapVaapi]);
    let result = vaapi.best_filter(&hable_tonemap(PixelFormat::Nv12), &info, &hdr_vaapi_state(), &VideoFilterOptions::default());
    assert!(matches!(result, VideoFilter::ToneMap(_)));
}

#[test]
fn best_filter_prefers_opencl_over_vaapi_when_available() {
    let vaapi = vaapi_accel_with_tonemap(VaapiDriver::Ihd, true, false, true);
    let info = ffmpeg_info_with_filters(&[KnownVideoFilter::TonemapOpencl, KnownVideoFilter::TonemapVaapi]);
    let result = vaapi.best_filter(&hable_tonemap(PixelFormat::Nv12), &info, &hdr_vaapi_state(), &VideoFilterOptions::default());
    assert!(matches!(result, VideoFilter::TonemapOpencl(_)));
}

#[test]
fn best_filter_uses_vaapi_tonemap_when_opencl_unavailable() {
    let vaapi = vaapi_accel_with_tonemap(VaapiDriver::Ihd, true, false, false);
    let info = ffmpeg_info_with_filters(&[KnownVideoFilter::TonemapVaapi]);
    let result = vaapi.best_filter(&hable_tonemap(PixelFormat::Nv12), &info, &hdr_vaapi_state(), &VideoFilterOptions::default());
    assert!(matches!(result, VideoFilter::TonemapVaapi(_)));
}

#[test]
fn best_filter_falls_back_to_software_when_no_hw_tonemap_filter() {
    let vaapi = vaapi_accel_with_tonemap(VaapiDriver::RadeonSI, true, true, false);
    let info = ffmpeg_info_with_filters(&[]);
    let result = vaapi.best_filter(&hable_tonemap(PixelFormat::Nv12), &info, &hdr_vaapi_state(), &VideoFilterOptions::default());
    assert!(matches!(result, VideoFilter::ToneMap(_)));
}

#[test]
fn best_filter_falls_back_for_non_p010le_input() {
    let vaapi = vaapi_accel_with_tonemap(VaapiDriver::RadeonSI, true, true, false);
    let info = ffmpeg_info_with_filters(&[KnownVideoFilter::TonemapVaapi]);
    let mut state = hdr_vaapi_state();
    state.pixel_format = PixelFormat::Nv12;
    let result = vaapi.best_filter(&hable_tonemap(PixelFormat::Nv12), &info, &state, &VideoFilterOptions::default());
    assert!(matches!(result, VideoFilter::ToneMap(_)));
}

#[test]
fn resolve_tonemap_vaapi_does_not_insert_hwmap() {
    let accel = HardwareAccel::Vaapi(vaapi_accel_with_tonemap(VaapiDriver::RadeonSI, true, false, false));
    let info = ffmpeg_info_with_filters(&[KnownVideoFilter::TonemapVaapi]);
    let mut chain = FilterChain::new(vec![PipelineFilter::Video(hable_tonemap(PixelFormat::Nv12))]);
    resolve_on_vaapi(&mut chain, &info, accel, &hdr_vaapi_state());

    let vfs = video_filters(&chain);
    assert!(!vfs.iter().any(|f| matches!(f, VideoFilter::HwMap(_))), "tonemap_vaapi stays on VAAPI surface");
    assert!(matches!(vfs[0], VideoFilter::TonemapVaapi(_)), "got {:?}", vfs[0].as_arg());
}

#[test]
fn resolve_and_build_produces_correct_filter_complex_for_vaapi_tonemap() {
    let accel = HardwareAccel::Vaapi(vaapi_accel_with_tonemap(VaapiDriver::RadeonSI, true, false, false));
    let info = ffmpeg_info_with_filters(&[KnownVideoFilter::TonemapVaapi]);
    let mut chain = FilterChain::new(vec![PipelineFilter::Video(hable_tonemap(PixelFormat::Nv12))]);
    resolve_on_vaapi(&mut chain, &info, accel, &hdr_vaapi_state());
    chain.build("0:a", "0:v", None, None);

    let args = chain.as_arg();
    assert_eq!(args.len(), 2);
    assert_eq!(args[0], "-filter_complex");
    let filter_complex = &args[1];
    assert!(filter_complex.contains("tonemap_vaapi=format=nv12:t=bt709:m=bt709:p=bt709"), "{filter_complex}");
    assert!(!filter_complex.contains("hwmap"), "{filter_complex}");
}

#[test]
fn best_filter_selects_pad_vaapi_when_available() {
    let vaapi = vaapi_accel_with_opencl(true);
    let info = ffmpeg_info_with_filters(&[KnownVideoFilter::PadVaapi, KnownVideoFilter::PadOpencl]);
    let result = vaapi.best_filter(&pad_1080p(), &info, &sdr_vaapi_state(), &VideoFilterOptions::default());
    assert!(matches!(result, VideoFilter::PadVaapi(PadVaapi { .. })), "got {:?}", result.as_arg());
}

#[test]
fn best_filter_selects_pad_opencl_when_pad_vaapi_unavailable() {
    let vaapi = vaapi_accel_with_opencl(true);
    let info = ffmpeg_info_with_filters(&[KnownVideoFilter::PadOpencl]);
    let result = vaapi.best_filter(&pad_1080p(), &info, &sdr_vaapi_state(), &VideoFilterOptions::default());
    assert!(matches!(result, VideoFilter::PadOpencl(PadOpencl { .. })), "got {:?}", result.as_arg());
}

#[test]
fn best_filter_falls_back_to_software_pad_without_hw_filters() {
    let vaapi = vaapi_accel_with_opencl(false);
    let info = ffmpeg_info_with_filters(&[]);
    let result = vaapi.best_filter(&pad_1080p(), &info, &sdr_vaapi_state(), &VideoFilterOptions::default());
    assert!(matches!(result, VideoFilter::Pad(_)), "got {:?}", result.as_arg());
}

#[test]
fn best_filter_ignores_pad_opencl_without_opencl_capabilities() {
    let vaapi = vaapi_accel_with_opencl(false);
    let info = ffmpeg_info_with_filters(&[KnownVideoFilter::PadOpencl]);
    let result = vaapi.best_filter(&pad_1080p(), &info, &sdr_vaapi_state(), &VideoFilterOptions::default());
    assert!(matches!(result, VideoFilter::Pad(_)), "got {:?}", result.as_arg());
}

#[test]
fn resolve_inserts_hwmap_for_opencl_pad_on_vaapi() {
    let accel = HardwareAccel::Vaapi(vaapi_accel_with_opencl(true));
    let info = ffmpeg_info_with_filters(&[KnownVideoFilter::PadOpencl]);
    let mut chain = FilterChain::new(vec![PipelineFilter::Video(pad_1080p())]);
    resolve_on_vaapi(&mut chain, &info, accel, &sdr_vaapi_state());

    let vfs = video_filters(&chain);
    assert!(vfs.len() >= 3, "expected at least 3 video filters (hwmap + pad + hwmap), got {}", vfs.len());
    assert!(matches!(
        vfs[0],
        VideoFilter::HwMap(HwMapFilter { from_surface: FrameSurface::Vaapi, to_surface: FrameSurface::OpenCL, reverse: false })
    ));
    assert!(matches!(vfs[1], VideoFilter::PadOpencl(_)));
    assert!(matches!(
        vfs[2],
        VideoFilter::HwMap(HwMapFilter { from_surface: FrameSurface::OpenCL, to_surface: FrameSurface::Vaapi, reverse: true })
    ));
}

#[test]
fn resolve_pad_vaapi_does_not_insert_hwmap() {
    let accel = HardwareAccel::Vaapi(vaapi_accel_with_opencl(true));
    let info = ffmpeg_info_with_filters(&[KnownVideoFilter::PadVaapi, KnownVideoFilter::PadOpencl]);
    let mut chain = FilterChain::new(vec![PipelineFilter::Video(pad_1080p())]);
    resolve_on_vaapi(&mut chain, &info, accel, &sdr_vaapi_state());

    let vfs = video_filters(&chain);
    assert!(!vfs.iter().any(|f| matches!(f, VideoFilter::HwMap(_))), "pad_vaapi stays on VAAPI surface");
    assert!(matches!(vfs[0], VideoFilter::PadVaapi(_)), "got {:?}", vfs[0].as_arg());
}

#[test]
fn resolve_and_build_produces_correct_filter_complex_for_opencl_pad() {
    let accel = HardwareAccel::Vaapi(vaapi_accel_with_opencl(true));
    let info = ffmpeg_info_with_filters(&[KnownVideoFilter::PadOpencl]);
    let mut chain = FilterChain::new(vec![PipelineFilter::Video(pad_1080p())]);
    resolve_on_vaapi(&mut chain, &info, accel, &sdr_vaapi_state());
    chain.build("0:a", "0:v", None, None);

    let args = chain.as_arg();
    assert_eq!(args.len(), 2);
    assert_eq!(args[0], "-filter_complex");
    let filter_complex = &args[1];
    assert!(filter_complex.contains("hwmap=derive_device=opencl"), "{filter_complex}");
    assert!(filter_complex.contains("pad_opencl=1920:1080:-1:-1:color=black"), "{filter_complex}");
    assert!(filter_complex.contains("hwmap=derive_device=vaapi"), "{filter_complex}");
    assert!(filter_complex.contains("hwmap=derive_device=opencl,pad_opencl="), "{filter_complex}");
}
